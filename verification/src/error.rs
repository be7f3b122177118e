//! The errors of the library, each with the text by which it is reported.

use vstd::prelude::*;

verus! {

/// Why a profile could not be stored or found.
#[derive(Debug, PartialEq, Eq, Structural, Clone, Copy)]
pub enum DBError {
    /// The profile lacks its UUID, its user id, its primary e-mail address, its
    /// primary username or its active flag.
    InvalidProfile,
    /// A trust level or a display has no trust level of the store.
    InvalidTrustLevel,
    NotApplicable,
    /// The UUID of the profile is not written as a UUID.
    InvalidUuid,
    /// The write found no row of the expected version, or found a row where it
    /// expected none.
    Conflict,
    /// No row has the UUID and passes the filter.
    NotFound,
}

impl DBError {
    /// The text by which the error is reported.
    pub open spec fn text(self) -> Seq<char> {
        match self {
            DBError::InvalidProfile => "db_invalid_profile_v2"@,
            DBError::InvalidTrustLevel => "db_invalid_trust_level"@,
            DBError::NotApplicable => "not_applicable"@,
            DBError::InvalidUuid => "db_invalid_uuid"@,
            DBError::Conflict => "db_conflict"@,
            DBError::NotFound => "db_not_found"@,
        }
    }

    /// The text by which the error is reported.
    pub fn to_string(&self) -> (text: String)
        ensures
            text@ == self.text(),
    {
        match self {
            DBError::InvalidProfile => "db_invalid_profile_v2".to_owned(),
            DBError::InvalidTrustLevel => "db_invalid_trust_level".to_owned(),
            DBError::NotApplicable => "not_applicable".to_owned(),
            DBError::InvalidUuid => "db_invalid_uuid".to_owned(),
            DBError::Conflict => "db_conflict".to_owned(),
            DBError::NotFound => "db_not_found".to_owned(),
        }
    }
}

/// Why an update of a profile was refused.
#[derive(Debug, PartialEq, Eq, Structural, Clone, Copy)]
pub enum ProfileError {
    /// The proposed attribute is older than the current one.
    OutdatedUpdate,
    /// The publisher may not give the attribute its first value.
    PublisherNotAllowedToCreate,
    /// The publisher may not change the attribute.
    PublisherNotAllowedToUpdate,
    UnknownError,
}

impl ProfileError {
    /// The text by which the error is reported.
    pub open spec fn text(self) -> Seq<char> {
        match self {
            ProfileError::OutdatedUpdate => "outdated_update"@,
            ProfileError::PublisherNotAllowedToCreate => "publisher_not_allowed_to_create"@,
            ProfileError::PublisherNotAllowedToUpdate => "publisher_not_allowed_to_update"@,
            ProfileError::UnknownError => "unknown_error"@,
        }
    }

    /// The text by which the error is reported.
    pub fn to_string(&self) -> (text: String)
        ensures
            text@ == self.text(),
    {
        match self {
            ProfileError::OutdatedUpdate => "outdated_update".to_owned(),
            ProfileError::PublisherNotAllowedToCreate => "publisher_not_allowed_to_create".to_owned(),
            ProfileError::PublisherNotAllowedToUpdate => "publisher_not_allowed_to_update".to_owned(),
            ProfileError::UnknownError => "unknown_error".to_owned(),
        }
    }
}

/// Why the source of the signing keys was refused.
#[derive(Debug, PartialEq, Eq, Structural, Clone, Copy)]
pub enum SecretsError {
    UseNoneFileSsm,
    UseNoneFileSsmWellKnown,
}

impl SecretsError {
    /// The text by which the error is reported: the same for both.
    pub open spec fn text(self) -> Seq<char> {
        "invalid sign key source: use 'none', 'file' or 'ssm'"@
    }

    /// The text by which the error is reported.
    pub fn to_string(&self) -> (text: String)
        ensures
            text@ == self.text(),
    {
        "invalid sign key source: use 'none', 'file' or 'ssm'".to_owned()
    }
}

/// Why a rule set could not be read.
#[derive(Debug, PartialEq, Eq, Structural, Clone, Copy)]
pub enum RulesError {
    /// The text names no publisher.
    UnknownPublisher,
}

impl RulesError {
    /// The text by which the error is reported.
    pub open spec fn text(self) -> Seq<char> {
        "unknown_publisher"@
    }

    /// The text by which the error is reported.
    pub fn to_string(&self) -> (text: String)
        ensures
            text@ == self.text(),
    {
        "unknown_publisher".to_owned()
    }
}

} // verus!
