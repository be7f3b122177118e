//! The row that the store keeps for a profile.

use vstd::prelude::*;
use crate::db::types::TrustType;
use crate::error::DBError;
use crate::profile::path::AccessPath;
use crate::profile::path::AttributePath;
use crate::profile::path::StaffPath;
use crate::profile::schema::Attribute;
use crate::profile::schema::Profile;
use crate::profile::schema::Value;

verus! {

#[verifier::external_type_specification]
#[verifier::external_body]
pub struct ExUuidError(uuid::Error);

/// What `uuid::Uuid::parse_str` makes of a text: the 128 bits of the UUID, as
/// `Uuid::as_u128` gives them, or nothing where it refuses the text.
pub uninterp spec fn uuid_of_text(text: Seq<char>) -> Option<u128>;

/// Parses a UUID with `uuid::Uuid::parse_str` and hands out its 128 bits, as
/// `Uuid::as_u128` gives them. The parser reads hexadecimal digits with or
/// without hyphens, and the URN form; the contract only names its result.
#[verifier::external_body]
fn parse_uuid(text: &str) -> (parsed: Result<u128, uuid::Error>)
    ensures
        match parsed {
            Ok(id) => uuid_of_text(text@) == Some(id),
            Err(_) => uuid_of_text(text@) is None,
        },
{
    match uuid::Uuid::parse_str(text) {
        Ok(id) => Ok(id.as_u128()),
        Err(e) => Err(e),
    }
}

/// A row of the store as the contracts see it.
#[verifier::ext_equal]
pub struct Row {
    pub uuid: u128,
    pub user_id: Seq<char>,
    pub primary_email: Seq<char>,
    pub primary_username: Seq<char>,
    pub active: bool,
    pub trust: TrustType,
    pub version: i32,
    pub profile: Map<AttributePath, Attribute>,
}

/// A row of the store: the profile, and beside it what a retrieval filters by.
#[derive(Debug, PartialEq)]
pub struct ProfileEntry {
    pub uuid: u128,
    pub user_id: String,
    pub primary_email: String,
    pub primary_username: String,
    pub active: bool,
    pub trust: TrustType,
    pub version: i32,
    pub profile: Profile,
}

impl View for ProfileEntry {
    type V = Row;

    open spec fn view(&self) -> Row {
        Row {
            uuid: self.uuid,
            user_id: self.user_id@,
            primary_email: self.primary_email@,
            primary_username: self.primary_username@,
            active: self.active,
            trust: self.trust,
            version: self.version,
            profile: self.profile@,
        }
    }
}

impl Clone for ProfileEntry {
    fn clone(&self) -> (copy: ProfileEntry)
        ensures
            copy@ == self@,
    {
        ProfileEntry {
            uuid: self.uuid,
            user_id: self.user_id.clone(),
            primary_email: self.primary_email.clone(),
            primary_username: self.primary_username.clone(),
            active: self.active,
            trust: self.trust,
            version: self.version,
            profile: self.profile.clone(),
        }
    }
}

/// The text of the attribute, if it has one.
pub open spec fn text_at(profile: Map<AttributePath, Attribute>, path: AttributePath) -> Option<
    Seq<char>,
> {
    match profile[path].value {
        Some(Value::Text(text)) => Some(text),
        _ => None,
    }
}

/// The flag of the attribute, if it has one.
pub open spec fn flag_at(profile: Map<AttributePath, Attribute>, path: AttributePath) -> Option<
    bool,
> {
    match profile[path].value {
        Some(Value::Flag(flag)) => Some(flag),
        _ => None,
    }
}

/// Whether the attribute has a map with the key.
pub open spec fn has_key_at(
    profile: Map<AttributePath, Attribute>,
    path: AttributePath,
    key: Seq<char>,
) -> bool {
    match profile[path].value {
        Some(Value::Entries(entries)) => entries.contains_key(key),
        _ => false,
    }
}

/// The trust level of a profile: staff where the staff flag is set, else
/// `Ndaed` where `mozilliansorg` lists the group `nda` or
/// `contingentworkernda`, else `Authenticated`.
pub open spec fn trust_of(profile: Map<AttributePath, Attribute>) -> TrustType {
    if flag_at(profile, AttributePath::StaffInformation(StaffPath::Staff)) == Some(true) {
        TrustType::Staff
    } else if has_key_at(
        profile,
        AttributePath::AccessInformation(AccessPath::Mozilliansorg),
        "nda"@,
    ) || has_key_at(
        profile,
        AttributePath::AccessInformation(AccessPath::Mozilliansorg),
        "contingentworkernda"@,
    ) {
        TrustType::Ndaed
    } else {
        TrustType::Authenticated
    }
}

/// The trust level of a profile is never `Public` or `Vouched`: those are
/// given from outside, not read from a profile.
pub proof fn lemma_trust_is_staff_ndaed_or_authenticated(profile: Map<AttributePath, Attribute>)
    ensures
        trust_of(profile) == TrustType::Staff || trust_of(profile) == TrustType::Ndaed || trust_of(
            profile,
        ) == TrustType::Authenticated,
        trust_of(profile).rank() >= TrustType::Authenticated.rank(),
{
}

/// Whether the profile has what a row needs of it: its UUID, its user id, its
/// primary e-mail address, its primary username and its active flag.
pub open spec fn is_complete(profile: Map<AttributePath, Attribute>) -> bool {
    &&& text_at(profile, AttributePath::Uuid) is Some
    &&& text_at(profile, AttributePath::UserId) is Some
    &&& text_at(profile, AttributePath::PrimaryEmail) is Some
    &&& text_at(profile, AttributePath::PrimaryUsername) is Some
    &&& flag_at(profile, AttributePath::Active) is Some
}

/// The row for a profile whose UUID was parsed to `uuid`, at the given
/// version: `DBError::InvalidProfile` where the profile is not complete, else
/// `DBError::InvalidUuid` where the UUID was refused.
pub open spec fn row_for(profile: Map<AttributePath, Attribute>, uuid: Option<u128>, version: i32)
    -> Result<Row, DBError> {
    if !is_complete(profile) {
        Err(DBError::InvalidProfile)
    } else {
        match uuid {
            None => Err(DBError::InvalidUuid),
            Some(id) => Ok(
                Row {
                    uuid: id,
                    user_id: text_at(profile, AttributePath::UserId)->Some_0,
                    primary_email: text_at(profile, AttributePath::PrimaryEmail)->Some_0,
                    primary_username: text_at(profile, AttributePath::PrimaryUsername)->Some_0,
                    active: flag_at(profile, AttributePath::Active)->Some_0,
                    trust: trust_of(profile),
                    version,
                    profile,
                },
            ),
        }
    }
}

/// The UUID that the profile names, if it names one and the text is a UUID.
pub open spec fn uuid_of(profile: Map<AttributePath, Attribute>) -> Option<u128> {
    match text_at(profile, AttributePath::Uuid) {
        Some(text) => uuid_of_text(text),
        None => None,
    }
}

/// The trust level of a profile.
pub fn trust_from(p: &Profile) -> (trust: TrustType)
    ensures
        trust == trust_of(p@),
{
    if let Some(true) = p.staff_information.staff.value {
        return TrustType::Staff;
    }
    if let Some(groups) = &p.access_information.mozilliansorg.values {
        if groups.contains_key("nda") || groups.contains_key("contingentworkernda") {
            return TrustType::Ndaed;
        }
    }
    TrustType::Authenticated
}

/// The UUID that the profile names, if it names one and the text is a UUID.
pub fn parsed_uuid(p: &Profile) -> (uuid: Option<u128>)
    ensures
        uuid == uuid_of(p@),
{
    match &p.uuid.value {
        Some(text) => match parse_uuid(text.as_str()) {
            Ok(id) => Some(id),
            Err(_) => None,
        },
        None => None,
    }
}

/// The row for the profile at the given version, where `uuid` is what the
/// profile's UUID was parsed to.
pub fn entry_with_uuid(p: Profile, uuid: Option<u128>, version: i32) -> (entry: Result<
    ProfileEntry,
    DBError,
>)
    ensures
        match row_for(p@, uuid, version) {
            Ok(row) => entry matches Ok(e) && e@ == row,
            Err(error) => entry == Err::<ProfileEntry, DBError>(error),
        },
{
    match (&p.uuid.value, &p.user_id.value, &p.primary_email.value, &p.primary_username.value, p.active.value) {
        (Some(_), Some(user_id), Some(primary_email), Some(primary_username), Some(active)) => {
            let trust = trust_from(&p);
            match uuid {
                None => Err(DBError::InvalidUuid),
                Some(id) => {
                    let user_id = user_id.clone();
                    let primary_email = primary_email.clone();
                    let primary_username = primary_username.clone();
                    Ok(
                        ProfileEntry {
                            uuid: id,
                            user_id,
                            primary_email,
                            primary_username,
                            active,
                            trust,
                            version,
                            profile: p,
                        },
                    )
                },
            }
        },
        _ => Err(DBError::InvalidProfile),
    }
}

/// The row for the profile at the given version. The profile must be
/// complete, and its UUID must be one that `uuid::Uuid::parse_str` reads.
pub fn try_from_profile(p: Profile, version: i32) -> (entry: Result<ProfileEntry, DBError>)
    ensures
        match row_for(p@, uuid_of(p@), version) {
            Ok(row) => entry matches Ok(e) && e@ == row,
            Err(error) => entry == Err::<ProfileEntry, DBError>(error),
        },
{
    let uuid = parsed_uuid(&p);
    entry_with_uuid(p, uuid, version)
}

} // verus!
