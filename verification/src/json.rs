//! The documents that responses are decoded from, as plain data.

use vstd::prelude::*;
use vstd::std_specs::vec::axiom_vec_index_decreases;
use crate::text::same_text;

verus! {

/// A JSON document.
///
/// An object keeps its members in the order of the text, with whatever keys
/// the text repeats: it is the decoders that reject a repeated key.
#[derive(Debug, PartialEq)]
pub enum Json {
    Null,
    Bool(bool),
    /// A number that is a 64-bit signed integer.
    Int(i64),
    /// Any other number, as it was written.
    Decimal(String),
    Text(String),
    Array(Vec<Json>),
    Object(Vec<(String, Json)>),
}

/// The mathematical value of a [`Json`] document.
pub enum JsonView {
    Null,
    Bool(bool),
    Int(int),
    Decimal(Seq<char>),
    Text(Seq<char>),
    Array(Seq<JsonView>),
    Object(Seq<(Seq<char>, JsonView)>),
}

/// The value of a document.
pub open spec fn json_view(j: Json) -> JsonView
    decreases j,
{
    match j {
        Json::Null => JsonView::Null,
        Json::Bool(b) => JsonView::Bool(b),
        Json::Int(n) => JsonView::Int(n as int),
        Json::Decimal(s) => JsonView::Decimal(s@),
        Json::Text(s) => JsonView::Text(s@),
        Json::Array(items) => JsonView::Array(
            Seq::new(
                items@.len(),
                |i: int|
                    if 0 <= i < items@.len() {
                        json_view(items@[i])
                    } else {
                        JsonView::Null
                    },
            ),
        ),
        Json::Object(entries) => JsonView::Object(
            Seq::new(
                entries@.len(),
                |i: int|
                    if 0 <= i < entries@.len() {
                        (entries@[i].0@, json_view(entries@[i].1))
                    } else {
                        (Seq::empty(), JsonView::Null)
                    },
            ),
        ),
    }
}

impl DeepView for Json {
    type V = JsonView;

    open spec fn deep_view(&self) -> JsonView {
        json_view(*self)
    }
}

/// The values of the elements of an array.
pub open spec fn items_view(items: Seq<Json>) -> Seq<JsonView> {
    Seq::new(items.len(), |i: int| json_view(items[i]))
}

/// The keys and values of the members of an object.
pub open spec fn members_view(entries: Seq<(String, Json)>) -> Seq<(Seq<char>, JsonView)> {
    Seq::new(entries.len(), |i: int| (entries[i].0@, json_view(entries[i].1)))
}

pub proof fn lemma_array_view(items: Vec<Json>)
    ensures
        json_view(Json::Array(items)) == JsonView::Array(items_view(items@)),
{
    assert(json_view(Json::Array(items))->Array_0 =~= items_view(items@));
}

pub proof fn lemma_object_view(entries: Vec<(String, Json)>)
    ensures
        json_view(Json::Object(entries)) == JsonView::Object(members_view(entries@)),
{
    assert(json_view(Json::Object(entries))->Object_0 =~= members_view(entries@));
}

impl Json {
    /// A copy of the document.
    pub fn duplicate(&self) -> (r: Json)
        ensures
            r.deep_view() == self.deep_view(),
        decreases self,
    {
        match self {
            Json::Null => Json::Null,
            Json::Bool(b) => Json::Bool(*b),
            Json::Int(n) => Json::Int(*n),
            Json::Decimal(s) => Json::Decimal(s.clone()),
            Json::Text(s) => Json::Text(s.clone()),
            Json::Array(items) => {
                let mut out: Vec<Json> = Vec::new();
                let mut i: usize = 0;
                while i < items.len()
                    invariant
                        i <= items.len(),
                        out.len() == i,
                        *self == Json::Array(*items),
                        forall|k: int| 0 <= k < i ==> json_view(out@[k]) == json_view(items@[k]),
                    decreases items.len() - i,
                {
                    proof {
                        axiom_vec_index_decreases(*items, i as int);
                        assert(decreases_to!(*self => self->Array_0));
                    }
                    out.push(items[i].duplicate());
                    i += 1;
                }
                proof {
                    lemma_array_view(*items);
                    lemma_array_view(out);
                    assert(items_view(out@) =~= items_view(items@));
                }
                Json::Array(out)
            },
            Json::Object(entries) => {
                let mut out: Vec<(String, Json)> = Vec::new();
                let mut i: usize = 0;
                while i < entries.len()
                    invariant
                        i <= entries.len(),
                        out.len() == i,
                        *self == Json::Object(*entries),
                        forall|k: int|
                            0 <= k < i ==> out@[k].0@ == entries@[k].0@ && json_view(out@[k].1)
                                == json_view(entries@[k].1),
                    decreases entries.len() - i,
                {
                    proof {
                        axiom_vec_index_decreases(*entries, i as int);
                        assert(decreases_to!(*self => self->Object_0));
                    }
                    out.push((entries[i].0.clone(), entries[i].1.duplicate()));
                    i += 1;
                }
                proof {
                    lemma_object_view(*entries);
                    lemma_object_view(out);
                    assert(members_view(out@) =~= members_view(entries@));
                }
                Json::Object(out)
            },
        }
    }
}

impl Clone for Json {
    fn clone(&self) -> (r: Json)
        ensures
            r.deep_view() == self.deep_view(),
    {
        self.duplicate()
    }
}

/// What looking a key up in an object finds.
pub enum Lookup<V> {
    /// No member has the key.
    Absent,
    /// More than one member has the key.
    Repeated,
    /// Exactly one member has the key: its value.
    Found(V),
}

/// Member `i` of `members` has the key `key`.
pub open spec fn occurs_at(members: Seq<(Seq<char>, JsonView)>, key: Seq<char>, i: int) -> bool {
    0 <= i < members.len() && members[i].0 == key
}

/// The member of an object with the key `key`.
pub open spec fn member(members: Seq<(Seq<char>, JsonView)>, key: Seq<char>) -> Lookup<JsonView> {
    if !(exists|i: int| occurs_at(members, key, i)) {
        Lookup::Absent
    } else if exists|i: int, j: int| i != j && occurs_at(members, key, i) && occurs_at(members, key, j) {
        Lookup::Repeated
    } else {
        Lookup::Found(members[choose|i: int| occurs_at(members, key, i)].1)
    }
}

/// Looks `key` up among the members of an object.
pub fn find<'a>(entries: &'a Vec<(String, Json)>, key: &str) -> (r: Lookup<&'a Json>)
    ensures
        match r {
            Lookup::Absent => member(members_view(entries@), key@) is Absent,
            Lookup::Repeated => member(members_view(entries@), key@) is Repeated,
            Lookup::Found(v) => member(members_view(entries@), key@) == Lookup::Found(v.deep_view()),
        },
{
    let ghost members = members_view(entries@);
    let mut found: Option<usize> = None;
    let mut i: usize = 0;
    while i < entries.len()
        invariant
            i <= entries.len(),
            members == members_view(entries@),
            match found {
                None => forall|k: int| 0 <= k < i ==> !occurs_at(members, key@, k),
                Some(f) => f < i && occurs_at(members, key@, f as int) && forall|k: int|
                    0 <= k < i && k != f ==> !occurs_at(members, key@, k),
            },
        decreases entries.len() - i,
    {
        if same_text(entries[i].0.as_str(), key) {
            match found {
                Some(f) => {
                    assert(occurs_at(members, key@, f as int) && occurs_at(members, key@, i as int));
                    return Lookup::Repeated;
                },
                None => {
                    found = Some(i);
                },
            }
        }
        i += 1;
    }
    match found {
        None => Lookup::Absent,
        Some(f) => {
            assert(occurs_at(members, key@, f as int));
            Lookup::Found(&entries[f].1)
        },
    }
}

} // verus!
