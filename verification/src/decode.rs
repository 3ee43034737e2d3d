//! Decoding of documents into typed values: the rule for each JSON type and
//! for the members of an object.
//!
//! A decode is all or nothing. The members of an object are taken in the
//! order in which the target type declares its fields, and the first one
//! that fails gives the error; a member that the target does not know is
//! passed over.

use vstd::prelude::*;
use crate::error::{DecodeError, ErrorKind};
use crate::json::{
    find, items_view, lemma_array_view, lemma_object_view, member, members_view, Json, JsonView, Lookup,
};

verus! {

/// The mathematical value of a decode's outcome.
pub open spec fn outcome<T: DeepView>(r: Result<T, DecodeError>) -> Result<T::V, DecodeError> {
    match r {
        Ok(v) => Ok(v.deep_view()),
        Err(e) => Err(e),
    }
}

/// A type that can be decoded from a document.
pub trait Decode: Sized + DeepView {
    /// What decoding the document `j` gives: the value, or the first fault.
    spec fn decoded(j: JsonView) -> Result<Self::V, DecodeError>;

    /// Decodes a document.
    fn decode(j: &Json) -> (r: Result<Self, DecodeError>)
        ensures
            outcome(r) == Self::decoded(j.deep_view()),
    ;
}

impl Decode for bool {
    open spec fn decoded(j: JsonView) -> Result<bool, DecodeError> {
        match j {
            JsonView::Bool(b) => Ok(b),
            _ => Err(DecodeError::here(ErrorKind::WrongShape)),
        }
    }

    fn decode(j: &Json) -> (r: Result<Self, DecodeError>) {
        match j {
            Json::Bool(b) => Ok(*b),
            _ => Err(DecodeError::at_root(ErrorKind::WrongShape)),
        }
    }
}

impl Decode for i64 {
    open spec fn decoded(j: JsonView) -> Result<i64, DecodeError> {
        match j {
            JsonView::Int(n) if i64::MIN <= n <= i64::MAX => Ok(n as i64),
            _ => Err(DecodeError::here(ErrorKind::WrongShape)),
        }
    }

    fn decode(j: &Json) -> (r: Result<Self, DecodeError>) {
        match j {
            Json::Int(n) => Ok(*n),
            _ => Err(DecodeError::at_root(ErrorKind::WrongShape)),
        }
    }
}

impl Decode for String {
    open spec fn decoded(j: JsonView) -> Result<Seq<char>, DecodeError> {
        match j {
            JsonView::Text(s) => Ok(s),
            _ => Err(DecodeError::here(ErrorKind::WrongShape)),
        }
    }

    fn decode(j: &Json) -> (r: Result<Self, DecodeError>) {
        match j {
            Json::Text(s) => Ok(s.clone()),
            _ => Err(DecodeError::at_root(ErrorKind::WrongShape)),
        }
    }
}

/// `null` stands for an absent value; anything else must decode as `T`.
impl<T: Decode> Decode for Option<T> {
    open spec fn decoded(j: JsonView) -> Result<Option<T::V>, DecodeError> {
        match j {
            JsonView::Null => Ok(None),
            _ => match T::decoded(j) {
                Ok(v) => Ok(Some(v)),
                Err(e) => Err(e),
            },
        }
    }

    fn decode(j: &Json) -> (r: Result<Self, DecodeError>) {
        match j {
            Json::Null => Ok(None),
            _ => {
                let v = T::decode(j)?;
                Ok(Some(v))
            },
        }
    }
}

/// The index of the first element of `items` that does not decode as `T`.
pub open spec fn first_failure<T: Decode>(items: Seq<JsonView>) -> Option<int> {
    if exists|i: int| 0 <= i < items.len() && (#[trigger] T::decoded(items[i])) is Err {
        Some(
            choose|i: int|
                0 <= i < items.len() && (#[trigger] T::decoded(items[i])) is Err && forall|k: int|
                    0 <= k < i ==> (#[trigger] T::decoded(items[k])) is Ok,
        )
    } else {
        None
    }
}

/// An array decodes element by element; the first element that fails gives
/// the error, with its index in the path.
impl<T: Decode> Decode for Vec<T> {
    open spec fn decoded(j: JsonView) -> Result<Seq<T::V>, DecodeError> {
        match j {
            JsonView::Array(items) => match first_failure::<T>(items) {
                Some(i) => Err(T::decoded(items[i])->Err_0.under_index(i as usize)),
                None => Ok(Seq::new(items.len(), |i: int| T::decoded(items[i])->Ok_0)),
            },
            _ => Err(DecodeError::here(ErrorKind::WrongShape)),
        }
    }

    fn decode(j: &Json) -> (r: Result<Self, DecodeError>) {
        match j {
            Json::Array(items) => {
                let ghost view = items_view(items@);
                proof {
                    lemma_array_view(*items);
                }
                let mut out: Vec<T> = Vec::new();
                let mut i: usize = 0;
                while i < items.len()
                    invariant
                        i <= items.len(),
                        view == items_view(items@),
                        j.deep_view() == JsonView::Array(view),
                        out.len() == i,
                        forall|k: int|
                            0 <= k < i ==> T::decoded(#[trigger] view[k]) == Ok::<T::V, DecodeError>(
                                out@[k].deep_view(),
                            ),
                    decreases items.len() - i,
                {
                    match T::decode(&items[i]) {
                        Ok(v) => {
                            out.push(v);
                        },
                        Err(e) => {
                            proof {
                                assert(T::decoded(view[i as int]) is Err);
                                let w = first_failure::<T>(view)->Some_0;
                                assert(w == i) by {
                                    if w < i {
                                        assert(T::decoded(view[w]) is Ok);
                                    }
                                    if w > i {
                                        assert(T::decoded(view[i as int]) is Ok);
                                    }
                                }
                            }
                            return Err(e.within_index(i));
                        },
                    }
                    i += 1;
                }
                proof {
                    assert(first_failure::<T>(view) is None);
                    assert(out.deep_view() =~= Seq::new(view.len(), |i: int| T::decoded(view[i])->Ok_0));
                }
                Ok(out)
            },
            _ => Err(DecodeError::at_root(ErrorKind::WrongShape)),
        }
    }
}

/// A closed set of values, each written on the wire as a name of its own.
pub trait WireName: Sized + Copy {
    /// The name that stands for the value.
    spec fn wire_name(self) -> Seq<char>;

    /// The value that `name` stands for, if it stands for one.
    spec fn from_wire(name: Seq<char>) -> Option<Self>;

    /// The name that stands for the value.
    fn as_str(&self) -> (r: &'static str)
        ensures
            r@ == self.wire_name(),
    ;

    /// The value that `name` stands for; a name outside the set stands for none.
    fn from_name(name: &str) -> (r: Option<Self>)
        ensures
            r == Self::from_wire(name@),
    ;

    /// A name is read as a value exactly when it is the name of that value.
    proof fn lemma_name_round_trip(self, name: Seq<char>)
        ensures
            (Self::from_wire(name) == Some(self)) == (name == self.wire_name()),
    ;
}

/// What a document decodes to as a value of a closed set: it must be a
/// string, and the string one of the set's names.
pub open spec fn named<T: WireName>(j: JsonView) -> Result<T, DecodeError> {
    match j {
        JsonView::Text(s) => match T::from_wire(s) {
            Some(v) => Ok(v),
            None => Err(DecodeError::here(ErrorKind::UnknownVariant)),
        },
        _ => Err(DecodeError::here(ErrorKind::WrongShape)),
    }
}

/// Decodes a value of a closed set from its name.
pub fn decode_named<T: WireName>(j: &Json) -> (r: Result<T, DecodeError>)
    ensures
        r == named::<T>(j.deep_view()),
{
    match j {
        Json::Text(s) => match T::from_name(s.as_str()) {
            Some(v) => Ok(v),
            None => Err(DecodeError::at_root(ErrorKind::UnknownVariant)),
        },
        _ => Err(DecodeError::at_root(ErrorKind::WrongShape)),
    }
}

/// The members of `j`, which must be an object.
pub open spec fn members_of(j: JsonView) -> Result<Seq<(Seq<char>, JsonView)>, DecodeError> {
    match j {
        JsonView::Object(members) => Ok(members),
        _ => Err(DecodeError::here(ErrorKind::WrongShape)),
    }
}

/// The member `key`, which must be there once and decode as `T`.
pub open spec fn required<T: Decode>(members: Seq<(Seq<char>, JsonView)>, key: &'static str) -> Result<T::V, DecodeError> {
    match member(members, key@) {
        Lookup::Absent => Err(DecodeError::here(ErrorKind::MissingField).under_key(key)),
        Lookup::Repeated => Err(DecodeError::here(ErrorKind::RepeatedField).under_key(key)),
        Lookup::Found(v) => match T::decoded(v) {
            Ok(value) => Ok(value),
            Err(e) => Err(e.under_key(key)),
        },
    }
}

/// The member `key`, which may be missing or `null` and must else decode as `T`.
pub open spec fn optional<T: Decode>(members: Seq<(Seq<char>, JsonView)>, key: &'static str) -> Result<Option<T::V>, DecodeError> {
    match member(members, key@) {
        Lookup::Absent => Ok(None),
        Lookup::Repeated => Err(DecodeError::here(ErrorKind::RepeatedField).under_key(key)),
        Lookup::Found(v) => match Option::<T>::decoded(v) {
            Ok(value) => Ok(value),
            Err(e) => Err(e.under_key(key)),
        },
    }
}

/// The members of an object; any other document has the wrong shape.
pub fn object<'a>(j: &'a Json) -> (r: Result<&'a Vec<(String, Json)>, DecodeError>)
    ensures
        match r {
            Ok(entries) => members_of(j.deep_view()) == Ok::<Seq<(Seq<char>, JsonView)>, DecodeError>(
                members_view(entries@),
            ),
            Err(e) => members_of(j.deep_view()) == Err::<Seq<(Seq<char>, JsonView)>, DecodeError>(e),
        },
{
    match j {
        Json::Object(entries) => {
            proof {
                lemma_object_view(*entries);
            }
            Ok(entries)
        },
        _ => Err(DecodeError::at_root(ErrorKind::WrongShape)),
    }
}

/// Decodes the member `key` of an object, which must be there.
pub fn field<T: Decode>(entries: &Vec<(String, Json)>, key: &'static str) -> (r: Result<T, DecodeError>)
    ensures
        outcome(r) == required::<T>(members_view(entries@), key),
{
    match find(entries, key) {
        Lookup::Absent => Err(DecodeError::at_root(ErrorKind::MissingField).within_key(key)),
        Lookup::Repeated => Err(DecodeError::at_root(ErrorKind::RepeatedField).within_key(key)),
        Lookup::Found(v) => match T::decode(v) {
            Ok(value) => Ok(value),
            Err(e) => Err(e.within_key(key)),
        },
    }
}

/// Decodes the member `key` of an object, which may be missing or `null`.
pub fn optional_field<T: Decode>(entries: &Vec<(String, Json)>, key: &'static str) -> (r: Result<Option<T>, DecodeError>)
    ensures
        outcome(r) == optional::<T>(members_view(entries@), key),
{
    match find(entries, key) {
        Lookup::Absent => Ok(None),
        Lookup::Repeated => Err(DecodeError::at_root(ErrorKind::RepeatedField).within_key(key)),
        Lookup::Found(v) => match Option::<T>::decode(v) {
            Ok(value) => Ok(value),
            Err(e) => Err(e.within_key(key)),
        },
    }
}

} // verus!
