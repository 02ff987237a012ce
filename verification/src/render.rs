//! A verified compact JSON renderer.
//!
//! Diagnostics quote offending backend payloads through this renderer, and
//! callers may use it to serialize any document the model can hold. Strings
//! are escaped minimally: quote, backslash, and control characters (as
//! `\u00XX`). Numbers carried as float bit patterns are not interpreted:
//! they are shown as a bracketed marker holding the bit pattern in decimal.

use vstd::prelude::*;
use vstd::string::StringExecFns;
use vstd::string::StrSliceExecFns;

use crate::json::{JsonValue, JsonView, view_seq, view_entries, lemma_view_seq,
    lemma_view_entries};
use crate::text::{spec_u64_decimal, spec_i64_decimal, u64_to_decimal, i64_to_decimal};

verus! {

/// The character for one hexadecimal digit.
pub open spec fn spec_hex_char(d: int) -> char {
    if d == 10 {
        'a'
    } else if d == 11 {
        'b'
    } else if d == 12 {
        'c'
    } else if d == 13 {
        'd'
    } else if d == 14 {
        'e'
    } else if d == 15 {
        'f'
    } else {
        crate::text::spec_digit_char(d)
    }
}

/// How one character is escaped inside a rendered JSON string.
pub open spec fn spec_escape_char(c: char) -> Seq<char> {
    if c == '"' {
        seq!['\\', '"']
    } else if c == '\\' {
        seq!['\\', '\\']
    } else if (c as u32) < 32 {
        seq!['\\', 'u', '0', '0', spec_hex_char(c as u32 as int / 16), spec_hex_char(
            c as u32 as int % 16,
        )]
    } else {
        seq![c]
    }
}

/// The escaped body of a rendered JSON string.
pub open spec fn spec_escape(s: Seq<char>) -> Seq<char>
    decreases s.len(),
{
    if s.len() == 0 {
        Seq::empty()
    } else {
        spec_escape_char(s[0]) + spec_escape(s.drop_first())
    }
}

proof fn lemma_escape_push(s: Seq<char>, c: char)
    ensures
        spec_escape(s.push(c)) == spec_escape(s) + spec_escape_char(c),
    decreases s.len(),
{
    if s.len() == 0 {
        assert(s.push(c)[0] == c);
        assert(s.push(c).drop_first() =~= Seq::empty());
        assert(spec_escape(Seq::<char>::empty()) == Seq::<char>::empty());
        assert(spec_escape(s.push(c)) =~= spec_escape_char(c));
        assert(spec_escape(s) + spec_escape_char(c) =~= spec_escape_char(c));
    } else {
        assert(s.push(c)[0] == s[0]);
        assert(s.push(c).drop_first() =~= s.drop_first().push(c));
        lemma_escape_push(s.drop_first(), c);
        assert(spec_escape(s.push(c)) == spec_escape_char(s[0]) + (spec_escape(s.drop_first())
            + spec_escape_char(c)));
        assert(spec_escape_char(s[0]) + (spec_escape(s.drop_first()) + spec_escape_char(c))
            =~= (spec_escape_char(s[0]) + spec_escape(s.drop_first())) + spec_escape_char(c));
    }
}

/// The compact rendering of a document.
pub open spec fn spec_render(v: JsonView) -> Seq<char>
    decreases v,
{
    match v {
        JsonView::Null => "null"@,
        JsonView::Bool(b) => if b {
            "true"@
        } else {
            "false"@
        },
        JsonView::UInt(n) => spec_u64_decimal(n as int),
        JsonView::Int(n) => spec_i64_decimal(n as int),
        JsonView::FloatBits(bits) => "<f64 bits "@ + spec_u64_decimal(bits as int) + ">"@,
        JsonView::Float32Bits(bits) => "<f32 bits "@ + spec_u64_decimal(bits as int) + ">"@,
        JsonView::Text(s) => seq!['"'] + spec_escape(s) + seq!['"'],
        JsonView::Array(items) => seq!['['] + spec_render_items(items) + seq![']'],
        JsonView::Object(entries) => seq!['{'] + spec_render_entries(entries) + seq!['}'],
    }
}

/// The rendering of an array body.
pub open spec fn spec_render_items(items: Seq<JsonView>) -> Seq<char>
    decreases items,
{
    if items.len() == 0 {
        Seq::empty()
    } else {
        spec_render(items[0]) + spec_render_items_rest(items.drop_first())
    }
}

/// The rendering of the second and later array elements, each preceded by a
/// comma.
pub open spec fn spec_render_items_rest(items: Seq<JsonView>) -> Seq<char>
    decreases items,
{
    if items.len() == 0 {
        Seq::empty()
    } else {
        seq![','] + spec_render(items[0]) + spec_render_items_rest(items.drop_first())
    }
}

/// The rendering of one object member.
pub open spec fn spec_render_entry(e: (Seq<char>, JsonView)) -> Seq<char>
    decreases e,
{
    seq!['"'] + spec_escape(e.0) + seq!['"', ':'] + spec_render(e.1)
}

/// The rendering of an object body.
pub open spec fn spec_render_entries(entries: Seq<(Seq<char>, JsonView)>) -> Seq<char>
    decreases entries,
{
    if entries.len() == 0 {
        Seq::empty()
    } else {
        spec_render_entry(entries[0]) + spec_render_entries_rest(entries.drop_first())
    }
}

/// The rendering of the second and later object members, each preceded by a
/// comma.
pub open spec fn spec_render_entries_rest(entries: Seq<(Seq<char>, JsonView)>) -> Seq<char>
    decreases entries,
{
    if entries.len() == 0 {
        Seq::empty()
    } else {
        seq![','] + spec_render_entry(entries[0]) + spec_render_entries_rest(entries.drop_first())
    }
}

proof fn lemma_render_items_rest_push(items: Seq<JsonView>, v: JsonView)
    ensures
        spec_render_items_rest(items.push(v)) == spec_render_items_rest(items) + (seq![',']
            + spec_render(v)),
    decreases items.len(),
{
    if items.len() == 0 {
        assert(items.push(v)[0] == v);
        assert(items.push(v).drop_first() =~= Seq::empty());
        assert(spec_render_items_rest(Seq::<JsonView>::empty()) == Seq::<char>::empty());
        assert(spec_render_items_rest(items.push(v)) == seq![','] + spec_render(v)
            + spec_render_items_rest(Seq::empty()));
        assert(seq![','] + spec_render(v) + Seq::<char>::empty() =~= seq![','] + spec_render(v));
        assert(spec_render_items_rest(items) + (seq![','] + spec_render(v)) =~= seq![',']
            + spec_render(v));
    } else {
        assert(items.push(v)[0] == items[0]);
        assert(items.push(v).drop_first() =~= items.drop_first().push(v));
        lemma_render_items_rest_push(items.drop_first(), v);
        assert(spec_render_items_rest(items.push(v)) == seq![','] + spec_render(items[0]) + (
        spec_render_items_rest(items.drop_first()) + (seq![','] + spec_render(v))));
        assert(seq![','] + spec_render(items[0]) + (spec_render_items_rest(items.drop_first()) + (
        seq![','] + spec_render(v))) =~= (seq![','] + spec_render(items[0])
            + spec_render_items_rest(items.drop_first())) + (seq![','] + spec_render(v)));
    }
}

proof fn lemma_render_items_push(items: Seq<JsonView>, v: JsonView)
    ensures
        items.len() == 0 ==> spec_render_items(items.push(v)) == spec_render(v),
        items.len() > 0 ==> spec_render_items(items.push(v)) == spec_render_items(items) + (
        seq![','] + spec_render(v)),
{
    if items.len() == 0 {
        assert(items.push(v)[0] == v);
        assert(items.push(v).drop_first() =~= Seq::empty());
        assert(spec_render_items_rest(Seq::<JsonView>::empty()) == Seq::<char>::empty());
        assert(spec_render(v) + Seq::<char>::empty() =~= spec_render(v));
    } else {
        assert(items.push(v)[0] == items[0]);
        assert(items.push(v).drop_first() =~= items.drop_first().push(v));
        lemma_render_items_rest_push(items.drop_first(), v);
        assert(spec_render(items[0]) + (spec_render_items_rest(items.drop_first()) + (seq![',']
            + spec_render(v))) =~= (spec_render(items[0]) + spec_render_items_rest(
            items.drop_first(),
        )) + (seq![','] + spec_render(v)));
    }
}

proof fn lemma_render_entries_rest_push(
    entries: Seq<(Seq<char>, JsonView)>,
    e: (Seq<char>, JsonView),
)
    ensures
        spec_render_entries_rest(entries.push(e)) == spec_render_entries_rest(entries) + (
        seq![','] + spec_render_entry(e)),
    decreases entries.len(),
{
    if entries.len() == 0 {
        assert(entries.push(e)[0] == e);
        assert(entries.push(e).drop_first() =~= Seq::empty());
        assert(spec_render_entries_rest(Seq::<(Seq<char>, JsonView)>::empty())
            == Seq::<char>::empty());
        assert(spec_render_entries_rest(entries.push(e)) =~= seq![','] + spec_render_entry(e));
        assert(seq![','] + spec_render_entry(e) + Seq::<char>::empty() =~= seq![',']
            + spec_render_entry(e));
        assert(spec_render_entries_rest(entries) + (seq![','] + spec_render_entry(e)) =~= seq![',']
            + spec_render_entry(e));
    } else {
        assert(entries.push(e)[0] == entries[0]);
        assert(entries.push(e).drop_first() =~= entries.drop_first().push(e));
        lemma_render_entries_rest_push(entries.drop_first(), e);
        assert(spec_render_entries_rest(entries.push(e)) == seq![','] + spec_render_entry(
            entries[0],
        ) + (spec_render_entries_rest(entries.drop_first()) + (seq![','] + spec_render_entry(e))));
        assert(seq![','] + spec_render_entry(entries[0]) + (spec_render_entries_rest(
            entries.drop_first(),
        ) + (seq![','] + spec_render_entry(e))) =~= (seq![','] + spec_render_entry(entries[0])
            + spec_render_entries_rest(entries.drop_first())) + (seq![','] + spec_render_entry(
            e,
        )));
    }
}

proof fn lemma_render_entries_push(entries: Seq<(Seq<char>, JsonView)>, e: (Seq<char>, JsonView))
    ensures
        entries.len() == 0 ==> spec_render_entries(entries.push(e)) == spec_render_entry(e),
        entries.len() > 0 ==> spec_render_entries(entries.push(e)) == spec_render_entries(entries)
            + (seq![','] + spec_render_entry(e)),
{
    if entries.len() == 0 {
        assert(entries.push(e)[0] == e);
        assert(entries.push(e).drop_first() =~= Seq::empty());
        assert(spec_render_entries_rest(Seq::<(Seq<char>, JsonView)>::empty())
            == Seq::<char>::empty());
        assert(spec_render_entry(e) + Seq::<char>::empty() =~= spec_render_entry(e));
    } else {
        assert(entries.push(e)[0] == entries[0]);
        assert(entries.push(e).drop_first() =~= entries.drop_first().push(e));
        lemma_render_entries_rest_push(entries.drop_first(), e);
        assert(spec_render_entry(entries[0]) + (spec_render_entries_rest(entries.drop_first()) + (
        seq![','] + spec_render_entry(e))) =~= (spec_render_entry(entries[0])
            + spec_render_entries_rest(entries.drop_first())) + (seq![','] + spec_render_entry(
            e,
        )));
    }
}

fn hex_char_str(d: u32) -> (s: &'static str)
    requires
        d < 16,
    ensures
        s@ == seq![spec_hex_char(d as int)],
{
    if d == 10 {
        proof {
            reveal_strlit("a");
            assert("a"@ =~= seq!['a']);
        }
        "a"
    } else if d == 11 {
        proof {
            reveal_strlit("b");
            assert("b"@ =~= seq!['b']);
        }
        "b"
    } else if d == 12 {
        proof {
            reveal_strlit("c");
            assert("c"@ =~= seq!['c']);
        }
        "c"
    } else if d == 13 {
        proof {
            reveal_strlit("d");
            assert("d"@ =~= seq!['d']);
        }
        "d"
    } else if d == 14 {
        proof {
            reveal_strlit("e");
            assert("e"@ =~= seq!['e']);
        }
        "e"
    } else if d == 15 {
        proof {
            reveal_strlit("f");
            assert("f"@ =~= seq!['f']);
        }
        "f"
    } else {
        crate::text::digit_str(d as u64)
    }
}

/// Escapes the body of one JSON string.
fn escape_json_text(s: &str) -> (out: String)
    ensures
        out@ == spec_escape(s@),
{
    let n = s.unicode_len();
    let mut out = String::new();
    proof {
        assert(s@.take(0) =~= Seq::<char>::empty());
    }
    for i in 0..n
        invariant
            n == s@.len(),
            out@ == spec_escape(s@.take(i as int)),
    {
        let c = s.get_char(i);
        proof {
            lemma_escape_push(s@.take(i as int), c);
            assert(s@.take(i as int).push(c) =~= s@.take(i as int + 1));
        }
        if c == '"' {
            proof {
                reveal_strlit("\\\"");
                assert("\\\""@ =~= seq!['\\', '"']);
            }
            out.append("\\\"");
        } else if c == '\\' {
            proof {
                reveal_strlit("\\\\");
                assert("\\\\"@ =~= seq!['\\', '\\']);
            }
            out.append("\\\\");
        } else {
            let code: u32 = c as u32;
            if code < 32 {
                proof {
                    reveal_strlit("\\u00");
                    assert("\\u00"@ =~= seq!['\\', 'u', '0', '0']);
                }
                out.append("\\u00");
                out.append(hex_char_str(code / 16));
                out.append(hex_char_str(code % 16));
                proof {
                    assert(out@ =~= spec_escape(s@.take(i as int)) + spec_escape_char(c));
                }
            } else {
                let piece = s.substring_char(i, i + 1);
                proof {
                    assert(piece@ =~= seq![c]);
                }
                out.append(piece);
            }
        }
    }
    proof {
        assert(s@.take(n as int) =~= s@);
    }
    out
}

impl JsonValue {
    /// Renders this document as compact JSON text (with the bracketed marker
    /// for numbers held as float bit patterns).
    #[verifier::rlimit(50)]
    pub fn render(&self) -> (out: String)
        ensures
            out@ == spec_render(self@),
        decreases *self,
    {
        match self {
            JsonValue::Null => "null".to_owned(),
            JsonValue::Bool(b) => {
                if *b {
                    "true".to_owned()
                } else {
                    "false".to_owned()
                }
            },
            JsonValue::UInt(n) => u64_to_decimal(*n),
            JsonValue::Int(n) => i64_to_decimal(*n),
            JsonValue::FloatBits(bits) => {
                let mut out = "<f64 bits ".to_owned();
                let digits = u64_to_decimal(*bits);
                out.append(digits.as_str());
                out.append(">");
                out
            },
            JsonValue::Float32Bits(bits) => {
                let mut out = "<f32 bits ".to_owned();
                let digits = u64_to_decimal(*bits as u64);
                out.append(digits.as_str());
                out.append(">");
                out
            },
            JsonValue::Text(s) => {
                proof {
                    reveal_strlit("\"");
                    assert("\""@ =~= seq!['"']);
                }
                let mut out = "\"".to_owned();
                let body = escape_json_text(s.as_str());
                out.append(body.as_str());
                out.append("\"");
                proof {
                    assert(out@ =~= seq!['"'] + spec_escape(s@) + seq!['"']);
                }
                out
            },
            JsonValue::Array(items) => {
                proof {
                    reveal_strlit("[");
                    reveal_strlit("]");
                    reveal_strlit(",");
                    assert("["@ =~= seq!['[']);
                    assert("]"@ =~= seq![']']);
                    assert(","@ =~= seq![',']);
                    lemma_view_seq(items@);
                }
                let ghost item_views = view_seq(items@);
                let mut out = "[".to_owned();
                let n = items.len();
                proof {
                    assert(item_views.take(0) =~= Seq::<JsonView>::empty());
                    assert(out@ =~= seq!['['] + spec_render_items(item_views.take(0)));
                }
                for i in 0..n
                    invariant
                        n == items@.len(),
                        *self == JsonValue::Array(*items),
                        item_views == view_seq(items@),
                        item_views.len() == n,
                        forall|j: int| 0 <= j < n ==> item_views[j] == #[trigger] items@[j]@,
                        out@ == seq!['['] + spec_render_items(item_views.take(i as int)),
                        "["@ == seq!['['],
                        "]"@ == seq![']'],
                        ","@ == seq![','],
                    decreases n - i,
                {
                    proof {
                        assert(decreases_to!(*self => (*self)->Array_0));
                        assert(decreases_to!((*self)->Array_0 => (*self)->Array_0@));
                        assert(decreases_to!((*self)->Array_0@ => (*self)->Array_0@[i as int]));
                        assert((*self)->Array_0@[i as int] == items@[i as int]);
                        assert(decreases_to!(*self => items@[i as int]));
                        lemma_render_items_push(item_views.take(i as int), item_views[i as int]);
                        assert(item_views.take(i as int).push(item_views[i as int])
                            =~= item_views.take(i as int + 1));
                    }
                    if i > 0 {
                        out.append(",");
                    }
                    let piece = (&items[i]).render();
                    out.append(piece.as_str());
                    proof {
                        if i == 0 {
                            assert(out@ =~= seq!['['] + spec_render_items(
                                item_views.take(i as int + 1),
                            ));
                        } else {
                            assert(out@ =~= seq!['['] + spec_render_items(
                                item_views.take(i as int + 1),
                            ));
                        }
                    }
                }
                out.append("]");
                proof {
                    assert(item_views.take(n as int) =~= item_views);
                    assert(out@ =~= seq!['['] + spec_render_items(item_views) + seq![']']);
                }
                out
            },
            JsonValue::Object(entries) => {
                proof {
                    reveal_strlit("{");
                    reveal_strlit("}");
                    reveal_strlit(",");
                    reveal_strlit("\"");
                    reveal_strlit("\":");
                    assert("{"@ =~= seq!['{']);
                    assert("}"@ =~= seq!['}']);
                    assert(","@ =~= seq![',']);
                    assert("\""@ =~= seq!['"']);
                    assert("\":"@ =~= seq!['"', ':']);
                    lemma_view_entries(entries@);
                }
                let ghost entry_views = view_entries(entries@);
                let mut out = "{".to_owned();
                let n = entries.len();
                proof {
                    assert(entry_views.take(0) =~= Seq::<(Seq<char>, JsonView)>::empty());
                    assert(out@ =~= seq!['{'] + spec_render_entries(entry_views.take(0)));
                }
                for i in 0..n
                    invariant
                        n == entries@.len(),
                        *self == JsonValue::Object(*entries),
                        entry_views == view_entries(entries@),
                        entry_views.len() == n,
                        forall|j: int|
                            0 <= j < n ==> entry_views[j] == (
                            #[trigger] entries@[j].0@,
                            entries@[j].1@,
                            ),
                        out@ == seq!['{'] + spec_render_entries(entry_views.take(i as int)),
                        "{"@ == seq!['{'],
                        "}"@ == seq!['}'],
                        ","@ == seq![','],
                        "\""@ == seq!['"'],
                        "\":"@ == seq!['"', ':'],
                    decreases n - i,
                {
                    proof {
                        assert(decreases_to!(*self => (*self)->Object_0));
                        assert(decreases_to!((*self)->Object_0 => (*self)->Object_0@));
                        assert(decreases_to!((*self)->Object_0@ => (*self)->Object_0@[i as int]));
                        assert(decreases_to!((*self)->Object_0@[i as int] => (*self)->Object_0@[i as int].1));
                        assert((*self)->Object_0@[i as int].1 == entries@[i as int].1);
                        assert(decreases_to!(*self => entries@[i as int].1));
                        lemma_render_entries_push(entry_views.take(i as int), entry_views[i as int]);
                        assert(entry_views.take(i as int).push(entry_views[i as int])
                            =~= entry_views.take(i as int + 1));
                    }
                    if i > 0 {
                        out.append(",");
                    }
                    out.append("\"");
                    let entry: &(String, JsonValue) = &entries[i];
                    let key_body = escape_json_text(entry.0.as_str());
                    out.append(key_body.as_str());
                    out.append("\":");
                    let piece = (&entry.1).render();
                    out.append(piece.as_str());
                    proof {
                        assert(out@ =~= seq!['{'] + spec_render_entries(
                            entry_views.take(i as int + 1),
                        ));
                    }
                }
                out.append("}");
                proof {
                    assert(entry_views.take(n as int) =~= entry_views);
                    assert(out@ =~= seq!['{'] + spec_render_entries(entry_views) + seq!['}']);
                }
                out
            },
        }
    }
}

} // verus!
