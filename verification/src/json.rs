//! A plain-value model of JSON documents.
//!
//! Backend payloads travel through the gateway as trees of this type, so the
//! translation logic can be specified and verified over a mathematical view
//! (`JsonView`). Numbers that are not integers are carried by their IEEE-754
//! bit pattern and never interpreted here; the unverified boundary converts
//! them to and from machine floats.

use vstd::prelude::*;

verus! {

/// An owned JSON document.
#[derive(Debug, PartialEq)]
pub enum JsonValue {
    Null,
    Bool(bool),
    /// A non-negative integer number.
    UInt(u64),
    /// A negative integer number (non-negative integers use `UInt`).
    Int(i64),
    /// A number that is not an integer, carried as the bit pattern of a
    /// 64-bit IEEE-754 float.
    FloatBits(u64),
    /// A number supplied as a 32-bit float, carried as its exact bit
    /// pattern (widening would change the pattern, so it is kept as given).
    Float32Bits(u32),
    Text(String),
    Array(Vec<JsonValue>),
    Object(Vec<(String, JsonValue)>),
}

/// The mathematical shape of a JSON document.
pub enum JsonView {
    Null,
    Bool(bool),
    UInt(u64),
    Int(i64),
    FloatBits(u64),
    Float32Bits(u32),
    Text(Seq<char>),
    Array(Seq<JsonView>),
    Object(Seq<(Seq<char>, JsonView)>),
}

/// The mathematical shape of one document.
pub open spec fn json_view(v: JsonValue) -> JsonView
    decreases v,
{
    match v {
        JsonValue::Null => JsonView::Null,
        JsonValue::Bool(b) => JsonView::Bool(b),
        JsonValue::UInt(n) => JsonView::UInt(n),
        JsonValue::Int(n) => JsonView::Int(n),
        JsonValue::FloatBits(bits) => JsonView::FloatBits(bits),
        JsonValue::Float32Bits(bits) => JsonView::Float32Bits(bits),
        JsonValue::Text(s) => JsonView::Text(s@),
        JsonValue::Array(items) => JsonView::Array(view_seq(items@)),
        JsonValue::Object(entries) => JsonView::Object(view_entries(entries@)),
    }
}

/// The views of a sequence of documents, element by element.
pub open spec fn view_seq(items: Seq<JsonValue>) -> Seq<JsonView>
    decreases items,
{
    if items.len() == 0 {
        Seq::empty()
    } else {
        seq![json_view(items[0])] + view_seq(items.drop_first())
    }
}

/// The views of a sequence of object entries, entry by entry.
pub open spec fn view_entries(entries: Seq<(String, JsonValue)>) -> Seq<(Seq<char>, JsonView)>
    decreases entries,
{
    if entries.len() == 0 {
        Seq::empty()
    } else {
        seq![(entries[0].0@, json_view(entries[0].1))] + view_entries(entries.drop_first())
    }
}

impl View for JsonValue {
    type V = JsonView;

    open spec fn view(&self) -> JsonView {
        json_view(*self)
    }
}

impl DeepView for JsonValue {
    type V = JsonView;

    open spec fn deep_view(&self) -> JsonView {
        self.view()
    }
}

pub proof fn lemma_view_seq(items: Seq<JsonValue>)
    ensures
        view_seq(items).len() == items.len(),
        forall|i: int| 0 <= i < items.len() ==> view_seq(items)[i] == #[trigger] items[i]@,
    decreases items.len(),
{
    if items.len() > 0 {
        lemma_view_seq(items.drop_first());
        assert forall|i: int|
            0 <= i < items.len() implies view_seq(items)[i] == #[trigger] items[i]@ by {
            if i > 0 {
                assert(items.drop_first()[i - 1]@ == view_seq(items.drop_first())[i - 1]);
                assert(items.drop_first()[i - 1] == items[i]);
            }
        }
    }
}

pub proof fn lemma_view_entries(entries: Seq<(String, JsonValue)>)
    ensures
        view_entries(entries).len() == entries.len(),
        forall|i: int| 0 <= i < entries.len() ==> view_entries(entries)[i] == (
        #[trigger] entries[i].0@,
        entries[i].1@,
        ),
    decreases entries.len(),
{
    if entries.len() > 0 {
        lemma_view_entries(entries.drop_first());
        assert forall|i: int|
            0 <= i < entries.len() implies view_entries(entries)[i] == (
        #[trigger] entries[i].0@,
        entries[i].1@,
        ) by {
            if i > 0 {
                assert(view_entries(entries.drop_first())[i - 1] == (
                    entries.drop_first()[i - 1].0@,
                    entries.drop_first()[i - 1].1@,
                ));
                assert(entries.drop_first()[i - 1] == entries[i]);
            }
        }
    }
}

pub proof fn lemma_view_entries_push(
    entries: Seq<(String, JsonValue)>,
    entry: (String, JsonValue),
)
    ensures
        view_entries(entries.push(entry)) =~= view_entries(entries).push(
            (entry.0@, json_view(entry.1)),
        ),
{
    lemma_view_entries(entries.push(entry));
    lemma_view_entries(entries);
    assert forall|i: int|
        0 <= i < entries.len() + 1 implies view_entries(entries.push(entry))[i] == view_entries(
        entries,
    ).push((entry.0@, json_view(entry.1)))[i] by {
        assert(view_entries(entries.push(entry))[i] == (
            entries.push(entry)[i].0@,
            entries.push(entry)[i].1@,
        ));
        if i < entries.len() {
            assert(entries.push(entry)[i] == entries[i]);
            assert(view_entries(entries)[i] == (entries[i].0@, entries[i].1@));
        } else {
            assert(entries.push(entry)[i] == entry);
        }
    }
}

pub proof fn lemma_view_entries_concat(a: Seq<(String, JsonValue)>, b: Seq<(String, JsonValue)>)
    ensures
        view_entries(a + b) =~= view_entries(a) + view_entries(b),
{
    lemma_view_entries(a + b);
    lemma_view_entries(a);
    lemma_view_entries(b);
    assert forall|i: int|
        0 <= i < a.len() + b.len() implies view_entries(a + b)[i] == (view_entries(a)
            + view_entries(b))[i] by {
        assert(view_entries(a + b)[i] == ((a + b)[i].0@, (a + b)[i].1@));
        if i < a.len() {
            assert((a + b)[i] == a[i]);
            assert(view_entries(a)[i] == (a[i].0@, a[i].1@));
        } else {
            assert((a + b)[i] == b[i - a.len()]);
            assert(view_entries(b)[i - a.len()] == (b[i - a.len()].0@, b[i - a.len()].1@));
        }
    }
}

/// Appends one member to an object under construction.
pub fn obj_push(entries: &mut Vec<(String, JsonValue)>, key: &str, value: JsonValue)
    ensures
        view_entries(final(entries)@) == view_entries(old(entries)@).push((key@, value@)),
{
    let ghost before = entries@;
    let key_owned = key.to_owned();
    entries.push((key_owned, value));
    proof {
        assert(entries@ =~= before.push(entries@[before.len() as int]));
        lemma_view_entries_push(before, entries@[before.len() as int]);
    }
}

/// The value at `key` among object entries: the first entry with that key,
/// or `None` when no entry carries it.
pub open spec fn entries_lookup(entries: Seq<(Seq<char>, JsonView)>, key: Seq<char>) -> Option<
    JsonView,
>
    decreases entries.len(),
{
    if entries.len() == 0 {
        None
    } else if entries[0].0 == key {
        Some(entries[0].1)
    } else {
        entries_lookup(entries.drop_first(), key)
    }
}

/// Looking a key up after appending one entry: an earlier entry still wins;
/// the new entry answers only when nothing before it carried the key.
pub broadcast proof fn lemma_entries_lookup_push(
    entries: Seq<(Seq<char>, JsonView)>,
    entry: (Seq<char>, JsonView),
    key: Seq<char>,
)
    ensures
        #[trigger] entries_lookup(entries.push(entry), key) == (
        if entries_lookup(entries, key) is Some {
            entries_lookup(entries, key)
        } else if entry.0 == key {
            Some(entry.1)
        } else {
            None
        }),
    decreases entries.len(),
{
    if entries.len() == 0 {
        assert(entries.push(entry)[0] == entry);
        assert(entries.push(entry).drop_first() =~= Seq::empty());
        assert(entries_lookup(Seq::<(Seq<char>, JsonView)>::empty(), key) is None);
    } else {
        assert(entries.push(entry)[0] == entries[0]);
        assert(entries.push(entry).drop_first() =~= entries.drop_first().push(entry));
        lemma_entries_lookup_push(entries.drop_first(), entry, key);
    }
}

/// Looking a key up in a concatenation: the left entries win; the right are
/// consulted only when the left carry no such key.
pub broadcast proof fn lemma_entries_lookup_concat(
    a: Seq<(Seq<char>, JsonView)>,
    b: Seq<(Seq<char>, JsonView)>,
    key: Seq<char>,
)
    ensures
        #[trigger] entries_lookup(a + b, key) == (
        if entries_lookup(a, key) is Some {
            entries_lookup(a, key)
        } else {
            entries_lookup(b, key)
        }),
    decreases a.len(),
{
    if a.len() == 0 {
        assert(a + b =~= b);
    } else {
        assert((a + b)[0] == a[0]);
        assert((a + b).drop_first() =~= a.drop_first() + b);
        lemma_entries_lookup_concat(a.drop_first(), b, key);
    }
}

/// The member of `v` named `key`: `None` when `v` is not an object or has no
/// such member.
pub open spec fn json_get(v: JsonView, key: Seq<char>) -> Option<JsonView> {
    match v {
        JsonView::Object(entries) => entries_lookup(entries, key),
        _ => None,
    }
}

proof fn lemma_entries_lookup_skip(
    entries: Seq<(Seq<char>, JsonView)>,
    key: Seq<char>,
    i: int,
)
    requires
        0 <= i <= entries.len(),
        forall|j: int| 0 <= j < i ==> #[trigger] entries[j].0 != key,
    ensures
        entries_lookup(entries, key) == entries_lookup(entries.skip(i), key),
    decreases i,
{
    if i > 0 {
        assert(entries.skip(i) =~= entries.drop_first().skip(i - 1));
        lemma_entries_lookup_skip(entries.drop_first(), key, i - 1);
    } else {
        assert(entries.skip(0) =~= entries);
    }
}

impl JsonValue {
    /// The member of this document named `key`, when this document is an
    /// object that carries one.
    pub fn get<'a>(&'a self, key: &str) -> (r: Option<&'a JsonValue>)
        ensures
            match r {
                Some(v) => json_get(self@, key@) == Some(v@),
                None => json_get(self@, key@) is None,
            },
    {
        match self {
            JsonValue::Object(entries) => {
                let key_owned: String = key.to_owned();
                let ghost entry_views = view_entries(entries@);
                proof {
                    lemma_view_entries(entries@);
                }
                let n = entries.len();
                for i in 0..n
                    invariant
                        n == entries.len(),
                        entry_views == view_entries(entries@),
                        entry_views.len() == n,
                        forall|j: int|
                            0 <= j < n ==> entry_views[j] == (
                            #[trigger] entries@[j].0@,
                            entries@[j].1@,
                            ),
                        key_owned@ == key@,
                        self@ == JsonView::Object(entry_views),
                        forall|j: int| 0 <= j < i ==> #[trigger] entry_views[j].0 != key@,
                {
                    let entry: &(String, JsonValue) = &entries[i];
                    if entry.0 == key_owned {
                        proof {
                            lemma_entries_lookup_skip(entry_views, key@, i as int);
                            assert(entry_views.skip(i as int).len() > 0);
                            assert(entry_views.skip(i as int)[0] == entry_views[i as int]);
                            assert(entry_views[i as int].0 == key@);
                            assert(entries_lookup(entry_views, key@) == Some(
                                entry_views[i as int].1,
                            ));
                            assert(entry_views[i as int].1 == entries@[i as int].1@);
                        }
                        return Some(&entries[i].1);
                    }
                }
                proof {
                    lemma_entries_lookup_skip(entry_views, key@, n as int);
                    assert(entry_views.skip(n as int) =~= Seq::empty());
                }
                None
            },
            _ => None,
        }
    }

    /// The text carried by this document, when it is a string.
    pub fn as_str(&self) -> (r: Option<&String>)
        ensures
            match r {
                Some(s) => self@ == JsonView::Text(s@),
                None => !(self@ is Text),
            },
    {
        match self {
            JsonValue::Text(s) => Some(s),
            _ => None,
        }
    }

    /// The number carried by this document, when it is a non-negative
    /// integer.
    pub fn as_u64(&self) -> (r: Option<u64>)
        ensures
            match r {
                Some(n) => self@ == JsonView::UInt(n),
                None => !(self@ is UInt),
            },
    {
        match self {
            JsonValue::UInt(n) => Some(*n),
            _ => None,
        }
    }

    /// The number carried by this document, when it is an integer that fits
    /// in a signed 64-bit value.
    pub fn as_i64(&self) -> (r: Option<i64>)
        ensures
            r == spec_as_i64(self@),
    {
        match self {
            JsonValue::UInt(n) => {
                if *n <= i64::MAX as u64 {
                    Some(*n as i64)
                } else {
                    None
                }
            },
            JsonValue::Int(n) => Some(*n),
            _ => None,
        }
    }

    /// The elements of this document, when it is an array.
    pub fn as_array(&self) -> (r: Option<&Vec<JsonValue>>)
        ensures
            match r {
                Some(items) => self@ == JsonView::Array(view_seq(items@)),
                None => !(self@ is Array),
            },
    {
        match self {
            JsonValue::Array(items) => Some(items),
            _ => None,
        }
    }
}

/// The integer a document denotes when read as a signed 64-bit value.
pub open spec fn spec_as_i64(v: JsonView) -> Option<i64> {
    match v {
        JsonView::UInt(n) => if n <= i64::MAX {
            Some(n as i64)
        } else {
            None
        },
        JsonView::Int(n) => Some(n),
        _ => None,
    }
}

} // verus!
