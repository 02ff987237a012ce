//! The streaming emulation engine: one complete reply is turned into an
//! ordered chunk sequence — a role marker first, then one chunk per emitted
//! word (each with a trailing space), then a terminal chunk carrying the
//! finish reason. All chunks of one sequence share one identifier and one
//! timestamp, fixed at sequence start. Pacing between chunks is the
//! transport's concern, not modeled here.

use vstd::prelude::*;
use vstd::string::StringExecFns;
use vstd::string::StrSliceExecFns;

use crate::openai::{ChatCompletionChunk, ChatCompletionChunkView, ChunkChoice, ChunkChoiceView,
    Delta, DeltaView};
use crate::provider::{current_timestamp, is_response_id, new_response_id};

verus! {

/// Whether a character separates words.
///
/// Named for the result of `char::is_whitespace` (the Unicode `White_Space`
/// property), which depends on the character alone.
pub uninterp spec fn spec_is_whitespace(c: char) -> bool;

/// Tests whether a character separates words.
///
/// Relies on `char::is_whitespace`: the Unicode `White_Space` property of
/// the character.
#[verifier::external_body]
fn is_whitespace_char(c: char) -> (r: bool)
    ensures
        r == spec_is_whitespace(c),
{
    c.is_whitespace()
}

/// The length of the leading run of non-whitespace characters.
pub open spec fn run_len(s: Seq<char>) -> nat
    decreases s.len(),
{
    if s.len() == 0 || spec_is_whitespace(s[0]) {
        0
    } else {
        (1 + run_len(s.drop_first())) as nat
    }
}

pub proof fn lemma_run_len_le(s: Seq<char>)
    ensures
        run_len(s) <= s.len(),
    decreases s.len(),
{
    if s.len() > 0 && !spec_is_whitespace(s[0]) {
        lemma_run_len_le(s.drop_first());
    }
}

/// The leading run has length `k` exactly when the first `k` characters are
/// non-whitespace and position `k` is the end or a whitespace character.
pub proof fn lemma_run_len_is(s: Seq<char>, k: int)
    requires
        0 <= k <= s.len(),
        forall|t: int| 0 <= t < k ==> !spec_is_whitespace(#[trigger] s[t]),
        k == s.len() || spec_is_whitespace(s[k]),
    ensures
        run_len(s) == k,
    decreases k,
{
    if k > 0 {
        lemma_run_len_is(s.drop_first(), k - 1);
    }
}

/// The maximal whitespace-delimited words of a text, in order.
pub open spec fn spec_words(s: Seq<char>) -> Seq<Seq<char>>
    decreases s.len(),
    via spec_words_decreases
{
    if s.len() == 0 {
        Seq::empty()
    } else if spec_is_whitespace(s[0]) {
        spec_words(s.drop_first())
    } else {
        seq![s.take(run_len(s) as int)] + spec_words(s.skip(run_len(s) as int))
    }
}

#[via_fn]
proof fn spec_words_decreases(s: Seq<char>) {
    lemma_run_len_le(s);
}

/// Splits a text into its whitespace-delimited words.
pub fn split_words(text: &str) -> (words: Vec<String>)
    ensures
        words.deep_view() == spec_words(text@),
{
    let n = text.unicode_len();
    let mut words: Vec<String> = Vec::new();
    let mut i: usize = 0;
    proof {
        assert(text@.skip(0) =~= text@);
        assert(words.deep_view() + spec_words(text@.skip(0)) =~= spec_words(text@));
    }
    while i < n
        invariant
            i <= n,
            n == text@.len(),
            spec_words(text@) == words.deep_view() + spec_words(text@.skip(i as int)),
        decreases n - i,
    {
        let c = text.get_char(i);
        if is_whitespace_char(c) {
            proof {
                assert(text@.skip(i as int)[0] == text@[i as int]);
                assert(text@.skip(i as int).drop_first() =~= text@.skip(i as int + 1));
            }
            i = i + 1;
        } else {
            let mut j: usize = i + 1;
            while j < n
                invariant_except_break
                    i < j <= n,
                    n == text@.len(),
                    forall|t: int| i <= t < j ==> !spec_is_whitespace(#[trigger] text@[t]),
                ensures
                    i < j <= n,
                    forall|t: int| i <= t < j ==> !spec_is_whitespace(#[trigger] text@[t]),
                    j == n || spec_is_whitespace(text@[j as int]),
                decreases n - j,
            {
                if is_whitespace_char(text.get_char(j)) {
                    break;
                }
                j = j + 1;
            }
            let word = text.substring_char(i, j).to_owned();
            let ghost before = words.deep_view();
            let ghost rest = text@.skip(i as int);
            proof {
                assert forall|t: int| 0 <= t < j - i implies !spec_is_whitespace(
                    #[trigger] rest[t],
                ) by {
                    assert(rest[t] == text@[i + t]);
                }
                if j < n {
                    assert(rest[j - i] == text@[j as int]);
                }
                lemma_run_len_is(rest, j - i);
                assert(rest.take(j - i) =~= text@.subrange(i as int, j as int));
                assert(rest.skip(j - i) =~= text@.skip(j as int));
                assert(spec_words(rest) == seq![word@] + spec_words(text@.skip(j as int)));
            }
            words.push(word);
            proof {
                assert(words.deep_view() =~= before.push(word@));
                assert(words.deep_view() + spec_words(text@.skip(j as int)) =~= before + (
                seq![word@] + spec_words(text@.skip(j as int))));
                assert(before + (seq![word@] + spec_words(text@.skip(j as int))) =~= before
                    + spec_words(rest));
            }
            i = j;
        }
    }
    proof {
        assert(text@.skip(n as int) =~= Seq::<char>::empty());
        assert(words.deep_view() + spec_words(text@.skip(n as int)) =~= words.deep_view());
    }
    words
}

// ----------------------------------------------------------------------------
// The chunk sequence.
// ----------------------------------------------------------------------------
/// One chunk of a sequence: fixed identifier, tag, timestamp and model, one
/// choice at index zero carrying the given delta and finish reason.
pub open spec fn spec_chunk(
    id: Seq<char>,
    created: i64,
    model: Seq<char>,
    delta: DeltaView,
    finish: Option<Seq<char>>,
) -> ChatCompletionChunkView {
    ChatCompletionChunkView {
        id: id,
        object: "chat.completion.chunk"@,
        created: created,
        model: model,
        choices: seq![ChunkChoiceView { index: 0, delta: delta, finish_reason: finish }],
    }
}

/// The opening chunk: only the role marker.
pub open spec fn spec_role_chunk(id: Seq<char>, created: i64, model: Seq<char>)
    -> ChatCompletionChunkView {
    spec_chunk(
        id,
        created,
        model,
        DeltaView { role: Some("assistant"@), content: None, tool_calls: None },
        None,
    )
}

/// An interior chunk: one word with its trailing space, nothing else.
pub open spec fn spec_content_chunk(
    id: Seq<char>,
    created: i64,
    model: Seq<char>,
    word: Seq<char>,
) -> ChatCompletionChunkView {
    spec_chunk(
        id,
        created,
        model,
        DeltaView { role: None, content: Some(word + seq![' ']), tool_calls: None },
        None,
    )
}

/// The terminal chunk: an empty delta and the finish reason.
pub open spec fn spec_final_chunk(id: Seq<char>, created: i64, model: Seq<char>)
    -> ChatCompletionChunkView {
    spec_chunk(
        id,
        created,
        model,
        DeltaView { role: None, content: None, tool_calls: None },
        Some("stop"@),
    )
}

/// The whole emitted sequence for a reply with the given words: the role
/// chunk alone when there are no words; otherwise the role chunk, one
/// interior chunk per word after the first (the first word is consumed by
/// the opening step and never emitted), and the terminal chunk.
pub open spec fn spec_chunk_sequence(
    id: Seq<char>,
    created: i64,
    model: Seq<char>,
    words: Seq<Seq<char>>,
) -> Seq<ChatCompletionChunkView> {
    if words.len() == 0 {
        seq![spec_role_chunk(id, created, model)]
    } else {
        seq![spec_role_chunk(id, created, model)] + Seq::new(
            (words.len() - 1) as nat,
            |t: int| spec_content_chunk(id, created, model, words[t + 1]),
        ) + seq![spec_final_chunk(id, created, model)]
    }
}

fn make_chunk(id: String, created: i64, model: String, delta: Delta, finish: Option<String>) -> (c:
    ChatCompletionChunk)
    ensures
        c@ == spec_chunk(id@, created, model@, delta@, finish.deep_view()),
{
    let mut choices: Vec<ChunkChoice> = Vec::new();
    choices.push(ChunkChoice { index: 0, delta, finish_reason: finish });
    proof {
        assert(choices.deep_view() =~= seq![choices@[0]@]);
    }
    ChatCompletionChunk {
        id,
        object: "chat.completion.chunk".to_owned(),
        created,
        model,
        choices,
    }
}

/// Builds the chunk sequence that emulates streaming one complete reply:
/// a fresh identifier and one timestamp are fixed at sequence start and
/// shared by every chunk.
pub fn create_streaming_chunks(text: &str, model: &str) -> (chunks: Vec<ChatCompletionChunk>)
    ensures
        exists|id: Seq<char>, created: i64|
            is_response_id(id) && 0 <= created && chunks.deep_view() == spec_chunk_sequence(
                id,
                created,
                model@,
                spec_words(text@),
            ),
{
    let id = new_response_id();
    let created = current_timestamp();
    let ghost idv = id@;
    let words = split_words(text);
    let ghost wordsv = words.deep_view();
    let n = words.len();
    let mut chunks: Vec<ChatCompletionChunk> = Vec::new();
    let role_chunk = make_chunk(
        id.clone(),
        created,
        model.to_owned(),
        Delta { role: Some("assistant".to_owned()), content: None, tool_calls: None },
        None,
    );
    chunks.push(role_chunk);
    proof {
        assert(chunks.deep_view() =~= seq![spec_role_chunk(idv, created, model@)]);
    }
    if n == 0 {
        proof {
            assert(chunks.deep_view() == spec_chunk_sequence(idv, created, model@, wordsv));
            assert(is_response_id(idv) && 0 <= created);
        }
        return chunks;
    }
    let ghost role_seq = seq![spec_role_chunk(idv, created, model@)];
    for i in 1..n
        invariant
            n == words@.len(),
            wordsv == words.deep_view(),
            wordsv.len() == n,
            idv == id@,
            0 <= created,
            is_response_id(idv),
            chunks.deep_view() =~= role_seq + Seq::new(
                (i - 1) as nat,
                |t: int| spec_content_chunk(idv, created, model@, wordsv[t + 1]),
            ),
            role_seq == seq![spec_role_chunk(idv, created, model@)],
    {
        let mut content = words[i].clone();
        content.append(" ");
        proof {
            reveal_strlit(" ");
            assert(" "@ =~= seq![' ']);
            assert(content@ =~= wordsv[i as int] + seq![' ']);
            assert(wordsv[i as int] == words@[i as int]@);
        }
        let ghost before = chunks.deep_view();
        let interior = make_chunk(
            id.clone(),
            created,
            model.to_owned(),
            Delta { role: None, content: Some(content), tool_calls: None },
            None,
        );
        chunks.push(interior);
        proof {
            assert(chunks.deep_view() =~= before.push(
                spec_content_chunk(idv, created, model@, wordsv[i as int]),
            ));
            assert(chunks.deep_view() =~= role_seq + Seq::new(
                i as nat,
                |t: int| spec_content_chunk(idv, created, model@, wordsv[t + 1]),
            ));
        }
    }
    let ghost before_final = chunks.deep_view();
    let final_chunk = make_chunk(
        id,
        created,
        model.to_owned(),
        Delta { role: None, content: None, tool_calls: None },
        Some("stop".to_owned()),
    );
    chunks.push(final_chunk);
    proof {
        assert(chunks.deep_view() =~= before_final.push(spec_final_chunk(idv, created, model@)));
        assert(chunks.deep_view() =~= spec_chunk_sequence(idv, created, model@, wordsv));
        assert(is_response_id(idv) && 0 <= created);
        assert(chunks.deep_view() == spec_chunk_sequence(idv, created, model@, spec_words(text@)));
    }
    chunks
}

// ----------------------------------------------------------------------------
// What the emitted sequence looks like, proved once for every input.
// ----------------------------------------------------------------------------
/// The content deltas of a chunk sequence, concatenated in emission order.
pub open spec fn concat_contents(chunks: Seq<ChatCompletionChunkView>) -> Seq<char>
    decreases chunks.len(),
{
    if chunks.len() == 0 {
        Seq::empty()
    } else {
        chunk_content(chunks[0]) + concat_contents(chunks.drop_first())
    }
}

/// The content carried by one chunk, or nothing.
pub open spec fn chunk_content(c: ChatCompletionChunkView) -> Seq<char> {
    if c.choices.len() > 0 && c.choices[0].delta.content is Some {
        c.choices[0].delta.content->0
    } else {
        Seq::empty()
    }
}

/// The given words joined in order, each with one trailing space.
pub open spec fn spec_spaced(words: Seq<Seq<char>>) -> Seq<char>
    decreases words.len(),
{
    if words.len() == 0 {
        Seq::empty()
    } else {
        (words[0] + seq![' ']) + spec_spaced(words.drop_first())
    }
}

/// An emulated stream for an N-word reply holds exactly N+1 chunks when
/// N is at least one — the role-only opening chunk, then the terminal
/// chunk — and exactly one chunk (the opening one) for an empty reply.
/// Every chunk shares the sequence's identifier, timestamp, tag and model
/// and carries one choice at index zero; the opening chunk carries only
/// the role, interior chunks only one word with its trailing space, and
/// the terminal chunk only the finish reason.
pub proof fn lemma_chunk_sequence_shape(
    id: Seq<char>,
    created: i64,
    model: Seq<char>,
    words: Seq<Seq<char>>,
)
    ensures
        words.len() == 0 ==> spec_chunk_sequence(id, created, model, words).len() == 1,
        words.len() > 0 ==> spec_chunk_sequence(id, created, model, words).len() == words.len()
            + 1,
        spec_chunk_sequence(id, created, model, words)[0] == spec_role_chunk(id, created, model),
        words.len() > 0 ==> spec_chunk_sequence(id, created, model, words).last()
            == spec_final_chunk(id, created, model),
        forall|i: int|
            1 <= i < words.len() ==> spec_chunk_sequence(id, created, model, words)[i]
                == spec_content_chunk(id, created, model, #[trigger] words[i]),
        forall|i: int|
            0 <= i < spec_chunk_sequence(id, created, model, words).len() ==> {
                let c = #[trigger] spec_chunk_sequence(id, created, model, words)[i];
                c.id == id && c.created == created && c.model == model && c.object
                    == "chat.completion.chunk"@ && c.choices.len() == 1 && c.choices[0].index == 0
            },
{
    let s = spec_chunk_sequence(id, created, model, words);
    if words.len() > 0 {
        assert forall|i: int| 1 <= i < words.len() implies s[i] == spec_content_chunk(
            id,
            created,
            model,
            #[trigger] words[i],
        ) by {
            assert(s[i] == Seq::new(
                (words.len() - 1) as nat,
                |t: int| spec_content_chunk(id, created, model, words[t + 1]),
            )[i - 1]);
        }
        assert forall|i: int| 0 <= i < s.len() implies {
            let c = #[trigger] s[i];
            c.id == id && c.created == created && c.model == model && c.object
                == "chat.completion.chunk"@ && c.choices.len() == 1 && c.choices[0].index == 0
        } by {
            if 1 <= i < words.len() as int {
                assert(s[i] == spec_content_chunk(id, created, model, words[i]));
            } else if i == words.len() {
                assert(s[i] == spec_final_chunk(id, created, model));
            }
        }
    }
}

proof fn lemma_concat_contents_suffix(
    id: Seq<char>,
    created: i64,
    model: Seq<char>,
    words: Seq<Seq<char>>,
    j: int,
)
    requires
        words.len() >= 1,
        1 <= j <= words.len(),
    ensures
        concat_contents(spec_chunk_sequence(id, created, model, words).skip(j)) == spec_spaced(
            words.subrange(j, words.len() as int),
        ),
    decreases words.len() - j,
{
    let s = spec_chunk_sequence(id, created, model, words);
    lemma_chunk_sequence_shape(id, created, model, words);
    if j == words.len() {
        assert(s.skip(j) =~= seq![spec_final_chunk(id, created, model)]);
        assert(s.skip(j).drop_first() =~= Seq::<ChatCompletionChunkView>::empty());
        assert(concat_contents(Seq::<ChatCompletionChunkView>::empty()) == Seq::<char>::empty());
        assert(chunk_content(spec_final_chunk(id, created, model)) =~= Seq::<char>::empty());
        assert(concat_contents(s.skip(j)) =~= Seq::<char>::empty());
        assert(words.subrange(j, words.len() as int) =~= Seq::<Seq<char>>::empty());
    } else {
        lemma_concat_contents_suffix(id, created, model, words, j + 1);
        assert(s.skip(j)[0] == s[j]);
        assert(s[j] == spec_content_chunk(id, created, model, words[j]));
        assert(chunk_content(s[j]) == words[j] + seq![' ']);
        assert(s.skip(j).drop_first() =~= s.skip(j + 1));
        let tail = words.subrange(j, words.len() as int);
        assert(tail[0] == words[j]);
        assert(tail.drop_first() =~= words.subrange(j + 1, words.len() as int));
        assert(spec_spaced(tail) == (words[j] + seq![' ']) + spec_spaced(
            words.subrange(j + 1, words.len() as int),
        ));
    }
}

/// Concatenating the content deltas of an emulated stream, in emission
/// order, yields the reply's whitespace-delimited words after the first,
/// in order, each with one trailing space; the first word is consumed by
/// the role-only opening step. A reply without words yields no content.
pub proof fn lemma_chunk_contents(
    id: Seq<char>,
    created: i64,
    model: Seq<char>,
    words: Seq<Seq<char>>,
)
    ensures
        words.len() == 0 ==> concat_contents(spec_chunk_sequence(id, created, model, words))
            == Seq::<char>::empty(),
        words.len() >= 1 ==> concat_contents(spec_chunk_sequence(id, created, model, words))
            == spec_spaced(words.subrange(1, words.len() as int)),
{
    let s = spec_chunk_sequence(id, created, model, words);
    if words.len() == 0 {
        assert(s =~= seq![spec_role_chunk(id, created, model)]);
        assert(s.drop_first() =~= Seq::<ChatCompletionChunkView>::empty());
        assert(concat_contents(Seq::<ChatCompletionChunkView>::empty()) == Seq::<char>::empty());
        assert(chunk_content(spec_role_chunk(id, created, model)) =~= Seq::<char>::empty());
        assert(concat_contents(s) =~= Seq::<char>::empty());
    } else {
        lemma_concat_contents_suffix(id, created, model, words, 1);
        lemma_chunk_sequence_shape(id, created, model, words);
        assert(s[0] == spec_role_chunk(id, created, model));
        assert(chunk_content(s[0]) =~= Seq::<char>::empty());
        assert(s.drop_first() =~= s.skip(1));
        assert(concat_contents(s) == chunk_content(s[0]) + concat_contents(s.skip(1)));
        assert(Seq::<char>::empty() + spec_spaced(words.subrange(1, words.len() as int))
            =~= spec_spaced(words.subrange(1, words.len() as int)));
    }
}

} // verus!
