//! What a failed decode reports: the kind of fault and the place in the
//! document where it was found.

use vstd::prelude::*;
use vstd::string::*;
use crate::text::{digits, push_digits};

verus! {

/// A place in a document, as the steps that lead to it from the value that
/// was handed to the decoder.
#[derive(Debug, PartialEq, Eq)]
pub enum Path {
    /// The value itself.
    Here,
    /// Into the member of an object with this key, then on.
    Key(&'static str, Box<Path>),
    /// Into the element of an array at this index, then on.
    Index(usize, Box<Path>),
}

/// Why a value could not be decoded.
#[derive(Debug, Clone, Copy, PartialEq, Eq)]
pub enum ErrorKind {
    /// The value has another JSON type than the field calls for.
    WrongShape,
    /// An object lacks a member that must be there.
    MissingField,
    /// An object holds the same member twice.
    RepeatedField,
    /// A string names no variant of a closed set.
    UnknownVariant,
    /// A string is no RFC 3339 timestamp.
    MalformedTimestamp,
    /// A value fits none of the shapes of a union.
    NoVariantMatched,
}

/// A decode failure: nothing of the document is handed out beside it.
#[derive(Debug, PartialEq, Eq)]
pub struct DecodeError {
    pub kind: ErrorKind,
    pub path: Path,
}

impl Path {
    /// The path in the usual dotted notation, relative to the root `$`.
    pub open spec fn text(self) -> Seq<char>
        decreases self,
    {
        match self {
            Path::Here => Seq::empty(),
            Path::Key(key, rest) => seq!['.'] + key@ + rest.text(),
            Path::Index(index, rest) => seq!['['] + digits(index as nat) + seq![']'] + rest.text(),
        }
    }

    /// Appends the dotted notation of the path to `out`.
    pub fn push_text(&self, out: &mut String)
        ensures
            final(out)@ == old(out)@ + self.text(),
        decreases self,
    {
        proof {
            reveal_strlit(".");
            reveal_strlit("[");
            reveal_strlit("]");
        }
        match self {
            Path::Here => {
                assert(out@ =~= old(out)@ + self.text());
            },
            Path::Key(key, rest) => {
                out.append(".");
                out.append(key);
                let ghost before = out@;
                rest.push_text(out);
                assert(out@ =~= old(out)@ + self.text()) by {
                    assert(before =~= old(out)@ + (seq!['.'] + key@));
                }
            },
            Path::Index(index, rest) => {
                out.append("[");
                push_digits(out, *index as u64);
                out.append("]");
                let ghost before = out@;
                rest.push_text(out);
                assert(out@ =~= old(out)@ + self.text()) by {
                    assert(before =~= old(out)@ + (seq!['['] + digits(*index as nat) + seq![']']));
                }
            },
        }
    }
}

impl Clone for Path {
    fn clone(&self) -> (r: Path)
        ensures
            r == *self,
        decreases self,
    {
        match self {
            Path::Here => Path::Here,
            Path::Key(key, rest) => Path::Key(key, Box::new((**rest).clone())),
            Path::Index(index, rest) => Path::Index(*index, Box::new((**rest).clone())),
        }
    }
}

impl Clone for DecodeError {
    fn clone(&self) -> (r: DecodeError)
        ensures
            r == *self,
    {
        DecodeError { kind: self.kind, path: self.path.clone() }
    }
}

impl ErrorKind {
    /// A few words for the kind of fault.
    pub open spec fn text(self) -> Seq<char> {
        match self {
            ErrorKind::WrongShape => "wrong shape"@,
            ErrorKind::MissingField => "missing field"@,
            ErrorKind::RepeatedField => "repeated field"@,
            ErrorKind::UnknownVariant => "unknown variant"@,
            ErrorKind::MalformedTimestamp => "malformed timestamp"@,
            ErrorKind::NoVariantMatched => "no variant matched"@,
        }
    }

    pub fn as_str(&self) -> (r: &'static str)
        ensures
            r@ == self.text(),
    {
        match self {
            ErrorKind::WrongShape => "wrong shape",
            ErrorKind::MissingField => "missing field",
            ErrorKind::RepeatedField => "repeated field",
            ErrorKind::UnknownVariant => "unknown variant",
            ErrorKind::MalformedTimestamp => "malformed timestamp",
            ErrorKind::NoVariantMatched => "no variant matched",
        }
    }
}

impl DecodeError {
    /// A fault of this kind in the value itself.
    pub open spec fn here(kind: ErrorKind) -> DecodeError {
        DecodeError { kind, path: Path::Here }
    }

    /// The same fault, seen from the object that holds the faulty value under `key`.
    pub open spec fn under_key(self, key: &'static str) -> DecodeError {
        DecodeError { kind: self.kind, path: Path::Key(key, Box::new(self.path)) }
    }

    /// The same fault, seen from the array that holds the faulty value at `index`.
    pub open spec fn under_index(self, index: usize) -> DecodeError {
        DecodeError { kind: self.kind, path: Path::Index(index, Box::new(self.path)) }
    }

    /// The message: the kind of fault, then the place, as in
    /// `missing field at $.namespace.owner`.
    pub open spec fn text(&self) -> Seq<char> {
        self.kind.text() + " at $"@ + self.path.text()
    }

    pub fn at_root(kind: ErrorKind) -> (r: DecodeError)
        ensures
            r == DecodeError::here(kind),
    {
        DecodeError { kind, path: Path::Here }
    }

    pub fn within_key(self, key: &'static str) -> (r: DecodeError)
        ensures
            r == self.under_key(key),
    {
        DecodeError { kind: self.kind, path: Path::Key(key, Box::new(self.path)) }
    }

    pub fn within_index(self, index: usize) -> (r: DecodeError)
        ensures
            r == self.under_index(index),
    {
        DecodeError { kind: self.kind, path: Path::Index(index, Box::new(self.path)) }
    }

    /// Writes the error out for a reader.
    pub fn message(&self) -> (r: String)
        ensures
            r@ == self.text(),
    {
        let mut out = String::from_str(self.kind.as_str());
        out.append(" at $");
        self.path.push_text(&mut out);
        out
    }
}

} // verus!
