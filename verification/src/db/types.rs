//! The trust levels by which the store files a profile.

use vstd::prelude::*;
use crate::error::DBError;
use crate::profile::schema::Display;

verus! {

/// How far a user is trusted, from the least to the most.
#[derive(Clone, Copy, Debug, PartialEq, Eq, Structural, PartialOrd, Ord, Hash)]
pub enum TrustType {
    Public,
    Authenticated,
    Vouched,
    Ndaed,
    Staff,
}

impl TrustType {
    /// The place of the level among the levels, from the least.
    pub open spec fn rank(self) -> nat {
        match self {
            TrustType::Public => 0,
            TrustType::Authenticated => 1,
            TrustType::Vouched => 2,
            TrustType::Ndaed => 3,
            TrustType::Staff => 4,
        }
    }

    /// The level that a text names, if it names one: the lower-case name.
    pub open spec fn named(name: Seq<char>) -> Option<TrustType> {
        if name == "staff"@ {
            Some(TrustType::Staff)
        } else if name == "ndaed"@ {
            Some(TrustType::Ndaed)
        } else if name == "vouched"@ {
            Some(TrustType::Vouched)
        } else if name == "authenticated"@ {
            Some(TrustType::Authenticated)
        } else if name == "public"@ {
            Some(TrustType::Public)
        } else {
            None
        }
    }

    /// The level that a viewer needs to see what has the given display, if
    /// there is one: `Display::Private` has none.
    pub open spec fn of_display(display: Display) -> Option<TrustType> {
        match display {
            Display::Staff => Some(TrustType::Staff),
            Display::Ndaed => Some(TrustType::Ndaed),
            Display::Vouched => Some(TrustType::Vouched),
            Display::Authenticated => Some(TrustType::Authenticated),
            Display::Public => Some(TrustType::Public),
            Display::Private => None,
        }
    }

    /// Whether `self` is at least the level `other`.
    pub fn at_least(&self, other: &TrustType) -> (enough: bool)
        ensures
            enough == (self.rank() >= other.rank()),
    {
        self.number() >= other.number()
    }

    /// The place of the level among the levels, from the least.
    pub fn number(&self) -> (rank: u8)
        ensures
            rank == self.rank(),
    {
        match self {
            TrustType::Public => 0,
            TrustType::Authenticated => 1,
            TrustType::Vouched => 2,
            TrustType::Ndaed => 3,
            TrustType::Staff => 4,
        }
    }
}

impl TryFrom<String> for TrustType {
    type Error = DBError;

    /// The level that the text names, or `DBError::InvalidTrustLevel`.
    fn try_from(s: String) -> (level: Result<TrustType, DBError>)
        ensures
            level == match TrustType::named(s@) {
                Some(named) => Ok::<TrustType, DBError>(named),
                None => Err::<TrustType, DBError>(DBError::InvalidTrustLevel),
            },
    {
        if s == "staff".to_owned() {
            Ok(TrustType::Staff)
        } else if s == "ndaed".to_owned() {
            Ok(TrustType::Ndaed)
        } else if s == "vouched".to_owned() {
            Ok(TrustType::Vouched)
        } else if s == "authenticated".to_owned() {
            Ok(TrustType::Authenticated)
        } else if s == "public".to_owned() {
            Ok(TrustType::Public)
        } else {
            Err(DBError::InvalidTrustLevel)
        }
    }
}

impl vstd::std_specs::convert::TryFromSpecImpl<String> for TrustType {
    open spec fn obeys_try_from_spec() -> bool {
        true
    }

    open spec fn try_from_spec(s: String) -> Result<TrustType, DBError> {
        match TrustType::named(s@) {
            Some(named) => Ok(named),
            None => Err(DBError::InvalidTrustLevel),
        }
    }
}

impl TryFrom<Display> for TrustType {
    type Error = DBError;

    /// The level that a viewer needs for the display, or
    /// `DBError::InvalidTrustLevel`.
    fn try_from(d: Display) -> (level: Result<TrustType, DBError>)
        ensures
            level == match TrustType::of_display(d) {
                Some(needed) => Ok::<TrustType, DBError>(needed),
                None => Err::<TrustType, DBError>(DBError::InvalidTrustLevel),
            },
    {
        match d {
            Display::Staff => Ok(TrustType::Staff),
            Display::Ndaed => Ok(TrustType::Ndaed),
            Display::Vouched => Ok(TrustType::Vouched),
            Display::Authenticated => Ok(TrustType::Authenticated),
            Display::Public => Ok(TrustType::Public),
            _ => Err(DBError::InvalidTrustLevel),
        }
    }
}

impl vstd::std_specs::convert::TryFromSpecImpl<Display> for TrustType {
    open spec fn obeys_try_from_spec() -> bool {
        true
    }

    open spec fn try_from_spec(d: Display) -> Result<TrustType, DBError> {
        match TrustType::of_display(d) {
            Some(needed) => Ok(needed),
            None => Err(DBError::InvalidTrustLevel),
        }
    }
}

} // verus!
