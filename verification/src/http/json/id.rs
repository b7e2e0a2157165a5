//! The identifier of a JSON-RPC request.

use vstd::prelude::*;
use vstd::std_specs::cmp::PartialEqSpecImpl;
use vstd::std_specs::convert::{FromSpecImpl, IntoSpec};
use crate::digits::{decimal, padded_decimal, to_decimal, to_padded_decimal};

verus! {

/// An identifier established by the client: a number, a string or null.
///
/// A request without an identifier is a notification. The identifier should
/// normally not be null.
#[derive(Debug, Eq)]
pub enum Id {
    /// Numeric ID.
    Number(u64),
    /// String ID.
    String(String),
    /// Null ID.
    ///
    /// A null identifier in a request is discouraged: responses to a request
    /// whose identifier could not be told carry a null identifier, and
    /// JSON-RPC 1.0 uses null for notifications.
    Null,
}

/// What an identifier holds.
pub enum IdView {
    /// A number.
    Number(u64),
    /// A string, by its characters.
    String(Seq<char>),
    /// Null.
    Null,
}

impl View for Id {
    type V = IdView;

    open spec fn view(&self) -> IdView {
        match self {
            Id::Number(number) => IdView::Number(*number),
            Id::String(string) => IdView::String(string@),
            Id::Null => IdView::Null,
        }
    }
}

impl PartialEq for Id {
    fn eq(&self, other: &Id) -> (equal: bool) {
        match (self, other) {
            (Id::Number(left), Id::Number(right)) => *left == *right,
            (Id::String(left), Id::String(right)) => *left == *right,
            (Id::Null, Id::Null) => true,
            _ => false,
        }
    }
}

impl PartialEqSpecImpl for Id {
    open spec fn obeys_eq_spec() -> bool {
        true
    }

    open spec fn eq_spec(&self, other: &Id) -> bool {
        self@ == other@
    }
}

impl Clone for Id {
    fn clone(&self) -> (copy: Self)
        ensures
            copy@ == self@,
    {
        match self {
            Id::Number(number) => Id::Number(*number),
            Id::String(string) => Id::String(string.clone()),
            Id::Null => Id::Null,
        }
    }
}

impl Id {
    /// The numeric identifier zero.
    pub fn zero() -> (id: Id)
        ensures
            id@ == IdView::Number(0),
    {
        Id::Number(0)
    }

    /// Whether the identifier is null.
    pub fn is_null(&self) -> (null: bool)
        ensures
            null == (self@ == IdView::Null),
    {
        match self {
            Id::Null => true,
            _ => false,
        }
    }

    /// The identifier as text.
    pub open spec fn text(&self) -> Seq<char> {
        match self {
            Id::Number(number) => decimal(*number as nat),
            Id::String(string) => string@,
            Id::Null => "null"@,
        }
    }

    /// The identifier as text: a number in decimal, a string as it is, and
    /// `null` for null.
    pub fn to_string(&self) -> (text: String)
        ensures
            text@ == self.text(),
    {
        match self {
            Id::Number(number) => to_decimal(*number as u128),
            Id::String(string) => string.clone(),
            Id::Null => String::from_str("null"),
        }
    }
}

impl<T: Into<u64>> From<T> for Id {
    fn from(value: T) -> (id: Id) {
        Id::Number(value.into())
    }
}

impl<T: Into<u64>> FromSpecImpl<T> for Id {
    open spec fn obeys_from_spec() -> bool {
        T::obeys_into_spec()
    }

    open spec fn from_spec(value: T) -> Id {
        Id::Number(value.into_spec())
    }
}

/// A numeric identifier that always takes the same number of bytes when it is
/// written out.
#[derive(Clone, Copy, Debug, PartialEq, Eq, PartialOrd, Ord, Hash)]
pub struct ConstantSizeId(u64);

impl View for ConstantSizeId {
    type V = u64;

    closed spec fn view(&self) -> u64 {
        self.0
    }
}

impl ConstantSizeId {
    /// The identifier with the given number.
    pub closed spec fn of(number: u64) -> ConstantSizeId {
        ConstantSizeId(number)
    }

    /// The smallest identifier.
    pub fn zero() -> (id: ConstantSizeId)
        ensures
            id@ == 0,
    {
        ConstantSizeId(0)
    }

    /// The largest identifier.
    pub fn max() -> (id: ConstantSizeId)
        ensures
            id@ == u64::MAX,
    {
        ConstantSizeId(u64::MAX)
    }

    /// The identifier as it was, while the identifier itself moves on to the
    /// next number; after the largest comes the smallest.
    pub fn get_and_increment(&mut self) -> (previous: ConstantSizeId)
        ensures
            previous@ == old(self)@,
            final(self)@ == if old(self)@ == u64::MAX {
                0
            } else {
                (old(self)@ + 1) as u64
            },
    {
        let previous = self.0;
        self.0 = if previous == u64::MAX {
            0
        } else {
            previous + 1
        };
        ConstantSizeId(previous)
    }

    /// The identifier in decimal, filled up with zeros on the left to the
    /// twenty characters that the largest identifier takes.
    pub fn to_string(&self) -> (text: String)
        ensures
            text@ == padded_decimal(self@ as nat, 20),
            text@.len() == 20,
    {
        to_padded_decimal(self.0)
    }
}

impl<T: Into<u64>> From<T> for ConstantSizeId {
    fn from(value: T) -> (id: ConstantSizeId) {
        ConstantSizeId(value.into())
    }
}

impl<T: Into<u64>> FromSpecImpl<T> for ConstantSizeId {
    open spec fn obeys_from_spec() -> bool {
        T::obeys_into_spec()
    }

    open spec fn from_spec(value: T) -> ConstantSizeId {
        ConstantSizeId::of(value.into_spec())
    }
}

impl From<ConstantSizeId> for Id {
    /// The string identifier that spells `value` with its twenty digits.
    fn from(value: ConstantSizeId) -> (id: Id)
        ensures
            id@ == IdView::String(padded_decimal(value@ as nat, 20)),
    {
        Id::String(value.to_string())
    }
}

impl FromSpecImpl<ConstantSizeId> for Id {
    /// The identifier is told by what it holds, which `from` states itself.
    open spec fn obeys_from_spec() -> bool {
        false
    }

    open spec fn from_spec(value: ConstantSizeId) -> Id {
        Id::Null
    }
}

} // verus!
