//! How values are written as JSON documents and read back: the rule for
//! each kind of value, and the laws that reading undoes writing.

use crate::json::{fields_view, items_view, lemma_list_view, Json, JsonView};
use crate::text::{opt_view, same_text, views};
use vstd::prelude::*;

verus! {

/// A type with a document form.
pub trait Codec: View + Sized {
    /// The document of a value.
    spec fn encoded(v: Self::V) -> JsonView;

    /// The value that a document stands for, or nothing where the document
    /// is not of this type's form.
    spec fn decoded(doc: JsonView) -> Option<Self::V>;

    /// What reading a value back asks of the codecs of other crates: that
    /// every identifier and instant in the value is read back from the
    /// text it is written as.
    spec fn reads_back(v: Self::V) -> bool;

    /// Writes the value as a document.
    fn encode(&self) -> (doc: Json)
        ensures
            doc@ == Self::encoded(self@),
    ;

    /// Reads a value from a document, if the document is of this type's
    /// form.
    fn decode(doc: &Json) -> (r: Option<Self>)
        ensures
            opt_view(r) == Self::decoded(doc@),
    ;

    /// Reading undoes writing.
    proof fn lemma_round_trip(v: Self::V)
        requires
            Self::reads_back(v),
        ensures
            Self::decoded(Self::encoded(v)) == Some(v),
    ;
}

/// The value under `key` among the fields of an object: that of the first
/// field of that name, or nothing where no field has it.
pub open spec fn field(fields: Seq<(Seq<char>, JsonView)>, key: Seq<char>) -> Option<JsonView>
    decreases fields.len(),
{
    if fields.len() == 0 {
        None
    } else if fields[0].0 == key {
        Some(fields[0].1)
    } else {
        field(fields.drop_first(), key)
    }
}

/// A field that must be there: its value read as a `T`.
pub open spec fn required<T: Codec>(fields: Seq<(Seq<char>, JsonView)>, key: Seq<char>) -> Option<
    T::V,
> {
    match field(fields, key) {
        Some(doc) => T::decoded(doc),
        None => None,
    }
}

/// The document of an optional value: that of the value, or null.
pub open spec fn encoded_optional<T: Codec>(v: Option<T::V>) -> JsonView {
    match v {
        Some(x) => T::encoded(x),
        None => JsonView::Null,
    }
}

/// A field that may be missing: nothing where it is missing or null, else
/// its value read as a `T`. The outer result is nothing where the field is
/// there and is not of `T`'s form.
pub open spec fn optional<T: Codec>(fields: Seq<(Seq<char>, JsonView)>, key: Seq<char>) -> Option<
    Option<T::V>,
> {
    match field(fields, key) {
        None => Some(None),
        Some(JsonView::Null) => Some(None),
        Some(doc) => match T::decoded(doc) {
            Some(x) => Some(Some(x)),
            None => None,
        },
    }
}

/// The document of a sequence: the list of the documents of its items.
pub open spec fn encoded_list<T: Codec>(items: Seq<T::V>) -> JsonView {
    JsonView::List(items.map_values(|x: T::V| T::encoded(x)))
}

/// The sequence that a document stands for: that of its items, where it is
/// a list and each item is of `T`'s form.
pub open spec fn decoded_list<T: Codec>(doc: JsonView) -> Option<Seq<T::V>> {
    match doc {
        JsonView::List(items) => if forall|i: int|
            0 <= i < items.len() ==> (#[trigger] T::decoded(items[i])) is Some {
            Some(items.map_values(|d: JsonView| T::decoded(d)->0))
        } else {
            None
        },
        _ => None,
    }
}

/// A field that must be there and hold a list of `T`.
pub open spec fn listed<T: Codec>(fields: Seq<(Seq<char>, JsonView)>, key: Seq<char>) -> Option<
    Seq<T::V>,
> {
    match field(fields, key) {
        Some(doc) => decoded_list::<T>(doc),
        None => None,
    }
}

/// Whether every item of a sequence reads back.
pub open spec fn all_read_back<T: Codec>(items: Seq<T::V>) -> bool {
    forall|i: int| 0 <= i < items.len() ==> T::reads_back(#[trigger] items[i])
}

/// Whether an optional value reads back.
pub open spec fn optional_reads_back<T: Codec>(v: Option<T::V>) -> bool {
    match v {
        Some(x) => T::reads_back(x),
        None => true,
    }
}

/// A field is found under its name where no field before it has that name.
pub proof fn lemma_field_found(fields: Seq<(Seq<char>, JsonView)>, i: int)
    requires
        0 <= i < fields.len(),
        forall|j: int| 0 <= j < i ==> fields[j].0 != fields[i].0,
    ensures
        field(fields, fields[i].0) == Some(fields[i].1),
    decreases i,
{
    if i > 0 {
        let rest = fields.drop_first();
        assert(rest[i - 1] == fields[i]);
        assert forall|j: int| 0 <= j < i - 1 implies (#[trigger] rest[j]).0 != rest[i - 1].0 by {
            assert(rest[j] == fields[j + 1]);
        }
        lemma_field_found(rest, i - 1);
    }
}

/// Reading a list undoes writing it, where that holds of its items.
pub proof fn lemma_list_round_trip<T: Codec>(items: Seq<T::V>)
    requires
        all_read_back::<T>(items),
    ensures
        decoded_list::<T>(encoded_list::<T>(items)) == Some(items),
{
    let docs = items.map_values(|x: T::V| T::encoded(x));
    assert forall|i: int| 0 <= i < docs.len() implies (#[trigger] T::decoded(docs[i])) == Some(
        items[i],
    ) by {
        T::lemma_round_trip(items[i]);
    }
    assert(docs.map_values(|d: JsonView| T::decoded(d)->0) =~= items);
}

/// Reading an optional value undoes writing it, where that holds of the
/// value and the value is not written as null.
pub proof fn lemma_optional_round_trip<T: Codec>(
    fields: Seq<(Seq<char>, JsonView)>,
    i: int,
    v: Option<T::V>,
)
    requires
        0 <= i < fields.len(),
        forall|j: int| 0 <= j < i ==> fields[j].0 != fields[i].0,
        fields[i].1 == encoded_optional::<T>(v),
        optional_reads_back::<T>(v),
        v matches Some(x) ==> T::encoded(x) != JsonView::Null,
    ensures
        optional::<T>(fields, fields[i].0) == Some(v),
{
    lemma_field_found(fields, i);
    match v {
        Some(x) => {
            T::lemma_round_trip(x);
        },
        None => {},
    }
}

/// The field of that name, if the object has one.
pub fn lookup<'a>(fields: &'a Vec<(String, Json)>, key: &str) -> (r: Option<&'a Json>)
    ensures
        match r {
            Some(doc) => field(fields_view(fields@), key@) == Some(doc@),
            None => field(fields_view(fields@), key@) is None,
        },
{
    let ghost all = fields_view(fields@);
    let mut i: usize = 0;
    proof {
        assert(all.skip(0) =~= all);
    }
    while i < fields.len()
        invariant
            i <= fields.len(),
            all == fields_view(fields@),
            field(all, key@) == field(all.skip(i as int), key@),
        decreases fields.len() - i,
    {
        proof {
            assert(all.skip(i as int)[0] == all[i as int]);
            assert(all.skip(i as int).drop_first() =~= all.skip(i + 1));
        }
        if same_text(fields[i].0.as_str(), key) {
            return Some(&fields[i].1);
        }
        i += 1;
    }
    proof {
        assert(all.skip(fields.len() as int) =~= Seq::empty());
    }
    None
}

/// Reads a field that must be there.
pub fn take_required<T: Codec>(fields: &Vec<(String, Json)>, key: &str) -> (r: Option<T>)
    ensures
        opt_view(r) == required::<T>(fields_view(fields@), key@),
{
    match lookup(fields, key) {
        Some(doc) => T::decode(doc),
        None => None,
    }
}

/// Writes an optional value.
pub fn encode_optional<T: Codec>(v: &Option<T>) -> (doc: Json)
    ensures
        doc@ == encoded_optional::<T>(opt_view(*v)),
{
    match v {
        Some(x) => x.encode(),
        None => Json::Null,
    }
}

/// Reads a field that may be missing.
pub fn take_optional<T: Codec>(fields: &Vec<(String, Json)>, key: &str) -> (r: Option<Option<T>>)
    ensures
        match r {
            Some(o) => optional::<T>(fields_view(fields@), key@) == Some(opt_view(o)),
            None => optional::<T>(fields_view(fields@), key@) is None,
        },
{
    match lookup(fields, key) {
        None => Some(None),
        Some(doc) => match doc {
            Json::Null => Some(None),
            _ => match T::decode(doc) {
                Some(x) => Some(Some(x)),
                None => None,
            },
        },
    }
}

/// Writes a sequence as a list.
pub fn encode_list<T: Codec>(items: &Vec<T>) -> (doc: Json)
    ensures
        doc@ == encoded_list::<T>(views(items@)),
{
    let ghost wanted = views(items@).map_values(|x: T::V| T::encoded(x));
    let mut docs: Vec<Json> = Vec::new();
    let mut i: usize = 0;
    while i < items.len()
        invariant
            i <= items.len(),
            wanted == views(items@).map_values(|x: T::V| T::encoded(x)),
            items_view(docs@) == wanted.take(i as int),
        decreases items.len() - i,
    {
        let doc = items[i].encode();
        let ghost before = docs@;
        docs.push(doc);
        proof {
            assert(items_view(docs@) =~= items_view(before).push(doc@));
            assert(wanted.take(i + 1) =~= wanted.take(i as int).push(wanted[i as int]));
        }
        i += 1;
    }
    proof {
        assert(wanted.take(items.len() as int) =~= wanted);
        lemma_list_view(docs);
    }
    Json::List(docs)
}

/// Reads a list.
pub fn decode_list<T: Codec>(doc: &Json) -> (r: Option<Vec<T>>)
    ensures
        match r {
            Some(items) => decoded_list::<T>(doc@) == Some(views(items@)),
            None => decoded_list::<T>(doc@) is None,
        },
{
    match doc {
        Json::List(docs) => {
            proof {
                lemma_list_view(*docs);
            }
            let ghost all = items_view(docs@);
            assert(doc@ == JsonView::List(all));
            let mut items: Vec<T> = Vec::new();
            let mut i: usize = 0;
            while i < docs.len()
                invariant
                    i <= docs.len(),
                    all == items_view(docs@),
                    doc@ == JsonView::List(all),
                    items@.len() == i,
                    forall|k: int|
                        0 <= k < i ==> (#[trigger] T::decoded(all[k])) == Some(items@[k]@),
                decreases docs.len() - i,
            {
                match T::decode(&docs[i]) {
                    Some(x) => {
                        items.push(x);
                    },
                    None => {
                        assert(T::decoded(all[i as int]) is None);
                        return None;
                    },
                }
                i += 1;
            }
            proof {
                assert(views(items@) =~= all.map_values(|d: JsonView| T::decoded(d)->0));
            }
            Some(items)
        },
        _ => None,
    }
}

/// Reads a field that must be there and hold a list.
pub fn take_list<T: Codec>(fields: &Vec<(String, Json)>, key: &str) -> (r: Option<Vec<T>>)
    ensures
        match r {
            Some(items) => listed::<T>(fields_view(fields@), key@) == Some(views(items@)),
            None => listed::<T>(fields_view(fields@), key@) is None,
        },
{
    match lookup(fields, key) {
        Some(doc) => decode_list::<T>(doc),
        None => None,
    }
}

impl Codec for String {
    /// A string is written as a JSON string.
    open spec fn encoded(v: Seq<char>) -> JsonView {
        JsonView::Text(v)
    }

    open spec fn decoded(doc: JsonView) -> Option<Seq<char>> {
        match doc {
            JsonView::Text(s) => Some(s),
            _ => None,
        }
    }

    open spec fn reads_back(v: Seq<char>) -> bool {
        true
    }

    fn encode(&self) -> (doc: Json) {
        Json::Text(self.clone())
    }

    fn decode(doc: &Json) -> (r: Option<Self>) {
        match doc {
            Json::Text(s) => Some(s.clone()),
            _ => None,
        }
    }

    proof fn lemma_round_trip(v: Seq<char>) {
    }
}

impl Codec for bool {
    /// A flag is written as a JSON boolean.
    open spec fn encoded(v: bool) -> JsonView {
        JsonView::Bool(v)
    }

    open spec fn decoded(doc: JsonView) -> Option<bool> {
        match doc {
            JsonView::Bool(b) => Some(b),
            _ => None,
        }
    }

    open spec fn reads_back(v: bool) -> bool {
        true
    }

    fn encode(&self) -> (doc: Json) {
        Json::Bool(*self)
    }

    fn decode(doc: &Json) -> (r: Option<Self>) {
        match doc {
            Json::Bool(b) => Some(*b),
            _ => None,
        }
    }

    proof fn lemma_round_trip(v: bool) {
    }
}

impl Codec for u8 {
    /// A small number is written as a JSON number, and read from one that
    /// is whole and at most 255.
    open spec fn encoded(v: u8) -> JsonView {
        JsonView::Number(v as u64)
    }

    open spec fn decoded(doc: JsonView) -> Option<u8> {
        match doc {
            JsonView::Number(n) => if n <= u8::MAX {
                Some(n as u8)
            } else {
                None
            },
            _ => None,
        }
    }

    open spec fn reads_back(v: u8) -> bool {
        true
    }

    fn encode(&self) -> (doc: Json) {
        Json::Number(*self as u64)
    }

    fn decode(doc: &Json) -> (r: Option<Self>) {
        match doc {
            Json::Number(n) => if *n <= u8::MAX as u64 {
                Some(*n as u8)
            } else {
                None
            },
            _ => None,
        }
    }

    proof fn lemma_round_trip(v: u8) {
    }
}

impl Codec for u32 {
    /// A number is written as a JSON number, and read from one that is
    /// whole and fits 32 bits.
    open spec fn encoded(v: u32) -> JsonView {
        JsonView::Number(v as u64)
    }

    open spec fn decoded(doc: JsonView) -> Option<u32> {
        match doc {
            JsonView::Number(n) => if n <= u32::MAX {
                Some(n as u32)
            } else {
                None
            },
            _ => None,
        }
    }

    open spec fn reads_back(v: u32) -> bool {
        true
    }

    fn encode(&self) -> (doc: Json) {
        Json::Number(*self as u64)
    }

    fn decode(doc: &Json) -> (r: Option<Self>) {
        match doc {
            Json::Number(n) => if *n <= u32::MAX as u64 {
                Some(*n as u32)
            } else {
                None
            },
            _ => None,
        }
    }

    proof fn lemma_round_trip(v: u32) {
    }
}

} // verus!
