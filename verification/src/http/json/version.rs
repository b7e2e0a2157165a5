//! The version of the JSON-RPC protocol.

use vstd::prelude::*;

verus! {

/// The version of the JSON-RPC protocol that a message follows.
#[derive(Clone, Copy, Debug, PartialEq, Eq, PartialOrd, Ord, Hash)]
pub enum Version {
    /// Version 2.0, the only one there is a message for.
    V2,
}

impl Version {
    /// The version as a message spells it.
    pub open spec fn text(&self) -> Seq<char> {
        "2.0"@
    }

    /// The version as a message spells it: `2.0`.
    pub fn as_str(&self) -> (text: &'static str)
        ensures
            text@ == self.text(),
    {
        "2.0"
    }

    /// The version that `text` spells, if it spells one.
    pub fn parse(text: &str) -> (version: Option<Version>)
        ensures
            version == if text@ == "2.0"@ {
                Some(Version::V2)
            } else {
                None::<Version>
            },
    {
        if String::from_str(text) == String::from_str("2.0") {
            Some(Version::V2)
        } else {
            None
        }
    }
}

} // verus!
