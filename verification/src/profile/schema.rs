//! The profile document: an aggregate of attributes, each with a value, its
//! metadata and the publisher that asserted it.

use vstd::prelude::*;
use crate::profile::key_value::KeyValue;
use crate::profile::key_value::clone_text;
use crate::profile::key_value::same_text;
use crate::profile::key_value::text_of;
use crate::profile::path::AccessPath;
use crate::profile::path::AttributePath;
use crate::profile::path::IdentityPath;
use crate::profile::path::StaffPath;
use crate::profile::time::Timestamp;

verus! {

/// Who may see an attribute: the least trust that a viewer needs.
#[derive(Clone, Copy, Debug, PartialEq, Eq, Structural, Hash)]
pub enum Display {
    Public,
    Authenticated,
    Vouched,
    Ndaed,
    Staff,
    Private,
}

/// The authority that asserted the value of an attribute.
#[derive(Clone, Copy, Debug, PartialEq, Eq, Structural, Hash)]
pub enum PublisherAuthority {
    Ldap,
    Mozilliansorg,
    Hris,
    Cis,
    AccessProvider,
}

impl Default for PublisherAuthority {
    fn default() -> (authority: PublisherAuthority)
        ensures
            authority == PublisherAuthority::Mozilliansorg,
    {
        PublisherAuthority::Mozilliansorg
    }
}

/// When an attribute last changed, who may see it, and whether it was verified.
#[derive(Clone, Copy, Debug, PartialEq, Eq, Structural)]
pub struct Metadata {
    pub last_modified: Timestamp,
    pub display: Option<Display>,
    pub verified: bool,
}

impl Metadata {
    /// The metadata of an attribute that was never set.
    pub open spec fn unset() -> Metadata {
        Metadata { last_modified: Timestamp { secs: 0, nanos: 0 }, display: None, verified: false }
    }
}

impl Default for Metadata {
    fn default() -> (metadata: Metadata)
        ensures
            metadata == Metadata::unset(),
    {
        Metadata { last_modified: Timestamp { secs: 0, nanos: 0 }, display: None, verified: false }
    }
}

/// The publisher named by a signature.
#[derive(Clone, Copy, Debug, PartialEq, Eq, Structural)]
pub struct Publisher {
    pub name: PublisherAuthority,
}

/// The provenance of an attribute. It has been checked before it reaches this
/// library, which reads the publisher's name only.
#[derive(Clone, Copy, Debug, PartialEq, Eq, Structural)]
pub struct Signature {
    pub publisher: Publisher,
}

impl Signature {
    /// The signature of an attribute that was never set.
    pub open spec fn unset() -> Signature {
        Signature { publisher: Publisher { name: PublisherAuthority::Mozilliansorg } }
    }
}

impl Default for Signature {
    fn default() -> (signature: Signature)
        ensures
            signature == Signature::unset(),
    {
        Signature { publisher: Publisher { name: PublisherAuthority::Mozilliansorg } }
    }
}

/// What an attribute holds, whatever its shape.
#[verifier::ext_equal]
pub enum Value {
    Text(Seq<char>),
    Flag(bool),
    Entries(Map<Seq<char>, Option<Seq<char>>>),
}

/// An attribute as the rules see it: its value, if it has one, its metadata and
/// its publisher.
#[verifier::ext_equal]
pub struct Attribute {
    pub value: Option<Value>,
    pub metadata: Metadata,
    pub publisher: PublisherAuthority,
}

impl Attribute {
    /// The attribute that was never set.
    pub open spec fn unset() -> Attribute {
        Attribute {
            value: None,
            metadata: Metadata::unset(),
            publisher: PublisherAuthority::Mozilliansorg,
        }
    }
}

/// An attribute whose value is a text.
#[derive(Debug, PartialEq)]
pub struct StandardAttributeString {
    pub signature: Signature,
    pub metadata: Metadata,
    pub value: Option<String>,
}

impl View for StandardAttributeString {
    type V = Attribute;

    open spec fn view(&self) -> Attribute {
        Attribute {
            value: match self.value {
                Some(text) => Some(Value::Text(text@)),
                None => None,
            },
            metadata: self.metadata,
            publisher: self.signature.publisher.name,
        }
    }
}

impl StandardAttributeString {
    /// Whether the two attributes have the same value, or both none.
    pub fn same_value(&self, other: &StandardAttributeString) -> (same: bool)
        ensures
            same == (self@.value == other@.value),
    {
        same_text(&self.value, &other.value)
    }
}

impl Default for StandardAttributeString {
    fn default() -> (attribute: StandardAttributeString)
        ensures
            attribute@ == Attribute::unset(),
    {
        StandardAttributeString {
            signature: Signature::default(),
            metadata: Metadata::default(),
            value: None,
        }
    }
}

impl Clone for StandardAttributeString {
    fn clone(&self) -> (copy: StandardAttributeString)
        ensures
            copy@ == self@,
    {
        StandardAttributeString {
            signature: self.signature,
            metadata: self.metadata,
            value: clone_text(&self.value),
        }
    }
}

/// An attribute whose value is a flag.
#[derive(Debug, PartialEq)]
pub struct StandardAttributeBoolean {
    pub signature: Signature,
    pub metadata: Metadata,
    pub value: Option<bool>,
}

impl View for StandardAttributeBoolean {
    type V = Attribute;

    open spec fn view(&self) -> Attribute {
        Attribute {
            value: match self.value {
                Some(flag) => Some(Value::Flag(flag)),
                None => None,
            },
            metadata: self.metadata,
            publisher: self.signature.publisher.name,
        }
    }
}

impl StandardAttributeBoolean {
    /// Whether the two attributes have the same value, or both none.
    pub fn same_value(&self, other: &StandardAttributeBoolean) -> (same: bool)
        ensures
            same == (self@.value == other@.value),
    {
        match (self.value, other.value) {
            (Some(a), Some(b)) => a == b,
            (None, None) => true,
            _ => false,
        }
    }
}

impl Default for StandardAttributeBoolean {
    fn default() -> (attribute: StandardAttributeBoolean)
        ensures
            attribute@ == Attribute::unset(),
    {
        StandardAttributeBoolean {
            signature: Signature::default(),
            metadata: Metadata::default(),
            value: None,
        }
    }
}

impl Clone for StandardAttributeBoolean {
    fn clone(&self) -> (copy: StandardAttributeBoolean)
        ensures
            copy@ == self@,
    {
        StandardAttributeBoolean {
            signature: self.signature,
            metadata: self.metadata,
            value: self.value,
        }
    }
}

/// The entries of an optional map.
pub open spec fn entries_of(values: Option<KeyValue>) -> Option<Value> {
    match values {
        Some(map) => Some(Value::Entries(map@)),
        None => None,
    }
}

/// Whether two optional maps have the same entries, or are both none.
fn same_entries(a: &Option<KeyValue>, b: &Option<KeyValue>) -> (same: bool)
    ensures
        same == (entries_of(*a) == entries_of(*b)),
{
    match (a, b) {
        (Some(x), Some(y)) => x.equals(y),
        (None, None) => true,
        _ => false,
    }
}

/// A copy of an optional map.
fn clone_entries(values: &Option<KeyValue>) -> (copy: Option<KeyValue>)
    ensures
        entries_of(copy) == entries_of(*values),
{
    match values {
        Some(map) => Some(map.clone()),
        None => None,
    }
}

/// An attribute whose value is a map from keys to optional texts.
#[derive(Debug, PartialEq)]
pub struct StandardAttributeValues {
    pub signature: Signature,
    pub metadata: Metadata,
    pub values: Option<KeyValue>,
}

impl View for StandardAttributeValues {
    type V = Attribute;

    open spec fn view(&self) -> Attribute {
        Attribute {
            value: entries_of(self.values),
            metadata: self.metadata,
            publisher: self.signature.publisher.name,
        }
    }
}

impl StandardAttributeValues {
    /// Whether the two attributes have the same value, or both none.
    pub fn same_value(&self, other: &StandardAttributeValues) -> (same: bool)
        ensures
            same == (self@.value == other@.value),
    {
        same_entries(&self.values, &other.values)
    }
}

impl Default for StandardAttributeValues {
    fn default() -> (attribute: StandardAttributeValues)
        ensures
            attribute@ == Attribute::unset(),
    {
        StandardAttributeValues {
            signature: Signature::default(),
            metadata: Metadata::default(),
            values: None,
        }
    }
}

impl Clone for StandardAttributeValues {
    fn clone(&self) -> (copy: StandardAttributeValues)
        ensures
            copy@ == self@,
    {
        StandardAttributeValues {
            signature: self.signature,
            metadata: self.metadata,
            values: clone_entries(&self.values),
        }
    }
}

/// The groups that one access provider asserts of a user: a map from the
/// group's name to an optional text.
#[derive(Debug, PartialEq)]
pub struct AccessInformationProviderSubObject {
    pub signature: Signature,
    pub metadata: Metadata,
    pub values: Option<KeyValue>,
}

impl View for AccessInformationProviderSubObject {
    type V = Attribute;

    open spec fn view(&self) -> Attribute {
        Attribute {
            value: entries_of(self.values),
            metadata: self.metadata,
            publisher: self.signature.publisher.name,
        }
    }
}

impl AccessInformationProviderSubObject {
    /// Whether the two attributes have the same value, or both none.
    pub fn same_value(&self, other: &AccessInformationProviderSubObject) -> (same: bool)
        ensures
            same == (self@.value == other@.value),
    {
        same_entries(&self.values, &other.values)
    }
}

impl Default for AccessInformationProviderSubObject {
    fn default() -> (attribute: AccessInformationProviderSubObject)
        ensures
            attribute@ == Attribute::unset(),
    {
        AccessInformationProviderSubObject {
            signature: Signature::default(),
            metadata: Metadata::default(),
            values: None,
        }
    }
}

impl Clone for AccessInformationProviderSubObject {
    fn clone(&self) -> (copy: AccessInformationProviderSubObject)
        ensures
            copy@ == self@,
    {
        AccessInformationProviderSubObject {
            signature: self.signature,
            metadata: self.metadata,
            values: clone_entries(&self.values),
        }
    }
}

/// The identifiers and primary e-mail addresses that a user has with each identity
/// provider.
#[derive(Debug, PartialEq)]
pub struct Identities {
    pub github_id_v3: StandardAttributeString,
    pub github_id_v4: StandardAttributeString,
    pub github_primary_email: StandardAttributeString,
    pub mozilliansorg_id: StandardAttributeString,
    pub bugzilla_mozilla_org_id: StandardAttributeString,
    pub bugzilla_mozilla_org_primary_email: StandardAttributeString,
    pub mozilla_ldap_id: StandardAttributeString,
    pub mozilla_ldap_primary_email: StandardAttributeString,
    pub mozilla_posix_id: StandardAttributeString,
    pub google_oauth2_id: StandardAttributeString,
    pub google_primary_email: StandardAttributeString,
    pub firefox_accounts_id: StandardAttributeString,
    pub firefox_accounts_primary_email: StandardAttributeString,
    pub custom_1_primary_email: StandardAttributeString,
    pub custom_2_primary_email: StandardAttributeString,
    pub custom_3_primary_email: StandardAttributeString,
}

impl Identities {
    /// The attribute at the given path.
    pub open spec fn attribute(&self, path: IdentityPath) -> Attribute {
        match path {
            IdentityPath::GithubIdV3 => self.github_id_v3@,
            IdentityPath::GithubIdV4 => self.github_id_v4@,
            IdentityPath::GithubPrimaryEmail => self.github_primary_email@,
            IdentityPath::MozilliansorgId => self.mozilliansorg_id@,
            IdentityPath::BugzillaMozillaOrgId => self.bugzilla_mozilla_org_id@,
            IdentityPath::BugzillaMozillaOrgPrimaryEmail => self.bugzilla_mozilla_org_primary_email@,
            IdentityPath::MozillaLdapId => self.mozilla_ldap_id@,
            IdentityPath::MozillaLdapPrimaryEmail => self.mozilla_ldap_primary_email@,
            IdentityPath::MozillaPosixId => self.mozilla_posix_id@,
            IdentityPath::GoogleOauth2Id => self.google_oauth2_id@,
            IdentityPath::GooglePrimaryEmail => self.google_primary_email@,
            IdentityPath::FirefoxAccountsId => self.firefox_accounts_id@,
            IdentityPath::FirefoxAccountsPrimaryEmail => self.firefox_accounts_primary_email@,
            IdentityPath::Custom1PrimaryEmail => self.custom_1_primary_email@,
            IdentityPath::Custom2PrimaryEmail => self.custom_2_primary_email@,
            IdentityPath::Custom3PrimaryEmail => self.custom_3_primary_email@,
        }
    }
}

impl Default for Identities {
    fn default() -> (group: Identities)
        ensures
            forall|path: IdentityPath| #[trigger] group.attribute(path) == Attribute::unset(),
    {
        Identities {
            github_id_v3: StandardAttributeString::default(),
            github_id_v4: StandardAttributeString::default(),
            github_primary_email: StandardAttributeString::default(),
            mozilliansorg_id: StandardAttributeString::default(),
            bugzilla_mozilla_org_id: StandardAttributeString::default(),
            bugzilla_mozilla_org_primary_email: StandardAttributeString::default(),
            mozilla_ldap_id: StandardAttributeString::default(),
            mozilla_ldap_primary_email: StandardAttributeString::default(),
            mozilla_posix_id: StandardAttributeString::default(),
            google_oauth2_id: StandardAttributeString::default(),
            google_primary_email: StandardAttributeString::default(),
            firefox_accounts_id: StandardAttributeString::default(),
            firefox_accounts_primary_email: StandardAttributeString::default(),
            custom_1_primary_email: StandardAttributeString::default(),
            custom_2_primary_email: StandardAttributeString::default(),
            custom_3_primary_email: StandardAttributeString::default(),
        }
    }
}

impl Clone for Identities {
    fn clone(&self) -> (copy: Identities)
        ensures
            forall|path: IdentityPath| #[trigger] copy.attribute(path) == self.attribute(path),
    {
        Identities {
            github_id_v3: self.github_id_v3.clone(),
            github_id_v4: self.github_id_v4.clone(),
            github_primary_email: self.github_primary_email.clone(),
            mozilliansorg_id: self.mozilliansorg_id.clone(),
            bugzilla_mozilla_org_id: self.bugzilla_mozilla_org_id.clone(),
            bugzilla_mozilla_org_primary_email: self.bugzilla_mozilla_org_primary_email.clone(),
            mozilla_ldap_id: self.mozilla_ldap_id.clone(),
            mozilla_ldap_primary_email: self.mozilla_ldap_primary_email.clone(),
            mozilla_posix_id: self.mozilla_posix_id.clone(),
            google_oauth2_id: self.google_oauth2_id.clone(),
            google_primary_email: self.google_primary_email.clone(),
            firefox_accounts_id: self.firefox_accounts_id.clone(),
            firefox_accounts_primary_email: self.firefox_accounts_primary_email.clone(),
            custom_1_primary_email: self.custom_1_primary_email.clone(),
            custom_2_primary_email: self.custom_2_primary_email.clone(),
            custom_3_primary_email: self.custom_3_primary_email.clone(),
        }
    }
}

/// What each access provider asserts of a user.
#[derive(Debug, PartialEq)]
pub struct AccessInformation {
    pub access_provider: AccessInformationProviderSubObject,
    pub ldap: AccessInformationProviderSubObject,
    pub hris: AccessInformationProviderSubObject,
    pub mozilliansorg: AccessInformationProviderSubObject,
}

impl AccessInformation {
    /// The attribute at the given path.
    pub open spec fn attribute(&self, path: AccessPath) -> Attribute {
        match path {
            AccessPath::AccessProvider => self.access_provider@,
            AccessPath::Ldap => self.ldap@,
            AccessPath::Hris => self.hris@,
            AccessPath::Mozilliansorg => self.mozilliansorg@,
        }
    }
}

impl Default for AccessInformation {
    fn default() -> (group: AccessInformation)
        ensures
            forall|path: AccessPath| #[trigger] group.attribute(path) == Attribute::unset(),
    {
        AccessInformation {
            access_provider: AccessInformationProviderSubObject::default(),
            ldap: AccessInformationProviderSubObject::default(),
            hris: AccessInformationProviderSubObject::default(),
            mozilliansorg: AccessInformationProviderSubObject::default(),
        }
    }
}

impl Clone for AccessInformation {
    fn clone(&self) -> (copy: AccessInformation)
        ensures
            forall|path: AccessPath| #[trigger] copy.attribute(path) == self.attribute(path),
    {
        AccessInformation {
            access_provider: self.access_provider.clone(),
            ldap: self.ldap.clone(),
            hris: self.hris.clone(),
            mozilliansorg: self.mozilliansorg.clone(),
        }
    }
}

/// What the staff directory asserts of a user.
#[derive(Debug, PartialEq)]
pub struct StaffInformation {
    pub manager: StandardAttributeBoolean,
    pub director: StandardAttributeBoolean,
    pub staff: StandardAttributeBoolean,
    pub title: StandardAttributeString,
    pub team: StandardAttributeString,
    pub cost_center: StandardAttributeString,
    pub worker_type: StandardAttributeString,
    pub wpr_desk_number: StandardAttributeString,
    pub office_location: StandardAttributeString,
}

impl StaffInformation {
    /// The attribute at the given path.
    pub open spec fn attribute(&self, path: StaffPath) -> Attribute {
        match path {
            StaffPath::Manager => self.manager@,
            StaffPath::Director => self.director@,
            StaffPath::Staff => self.staff@,
            StaffPath::Title => self.title@,
            StaffPath::Team => self.team@,
            StaffPath::CostCenter => self.cost_center@,
            StaffPath::WorkerType => self.worker_type@,
            StaffPath::WprDeskNumber => self.wpr_desk_number@,
            StaffPath::OfficeLocation => self.office_location@,
        }
    }
}

impl Default for StaffInformation {
    fn default() -> (group: StaffInformation)
        ensures
            forall|path: StaffPath| #[trigger] group.attribute(path) == Attribute::unset(),
    {
        StaffInformation {
            manager: StandardAttributeBoolean::default(),
            director: StandardAttributeBoolean::default(),
            staff: StandardAttributeBoolean::default(),
            title: StandardAttributeString::default(),
            team: StandardAttributeString::default(),
            cost_center: StandardAttributeString::default(),
            worker_type: StandardAttributeString::default(),
            wpr_desk_number: StandardAttributeString::default(),
            office_location: StandardAttributeString::default(),
        }
    }
}

impl Clone for StaffInformation {
    fn clone(&self) -> (copy: StaffInformation)
        ensures
            forall|path: StaffPath| #[trigger] copy.attribute(path) == self.attribute(path),
    {
        StaffInformation {
            manager: self.manager.clone(),
            director: self.director.clone(),
            staff: self.staff.clone(),
            title: self.title.clone(),
            team: self.team.clone(),
            cost_center: self.cost_center.clone(),
            worker_type: self.worker_type.clone(),
            wpr_desk_number: self.wpr_desk_number.clone(),
            office_location: self.office_location.clone(),
        }
    }
}

/// The profile of one user.
#[derive(Debug, PartialEq)]
pub struct Profile {
    pub uuid: StandardAttributeString,
    pub user_id: StandardAttributeString,
    pub primary_username: StandardAttributeString,
    pub login_method: StandardAttributeString,
    pub active: StandardAttributeBoolean,
    pub last_modified: StandardAttributeString,
    pub created: StandardAttributeString,
    pub usernames: StandardAttributeValues,
    pub pronouns: StandardAttributeString,
    pub first_name: StandardAttributeString,
    pub last_name: StandardAttributeString,
    pub alternative_name: StandardAttributeString,
    pub primary_email: StandardAttributeString,
    pub ssh_public_keys: StandardAttributeValues,
    pub pgp_public_keys: StandardAttributeValues,
    pub fun_title: StandardAttributeString,
    pub description: StandardAttributeString,
    pub location: StandardAttributeString,
    pub timezone: StandardAttributeString,
    pub languages: StandardAttributeValues,
    pub tags: StandardAttributeValues,
    pub picture: StandardAttributeString,
    pub uris: StandardAttributeValues,
    pub phone_numbers: StandardAttributeValues,
    pub identities: Identities,
    pub access_information: AccessInformation,
    pub staff_information: StaffInformation,
}

impl Profile {
    /// The attribute at the given path.
    pub open spec fn attribute(&self, path: AttributePath) -> Attribute {
        match path {
            AttributePath::Uuid => self.uuid@,
            AttributePath::UserId => self.user_id@,
            AttributePath::PrimaryUsername => self.primary_username@,
            AttributePath::LoginMethod => self.login_method@,
            AttributePath::Active => self.active@,
            AttributePath::LastModified => self.last_modified@,
            AttributePath::Created => self.created@,
            AttributePath::Usernames => self.usernames@,
            AttributePath::Pronouns => self.pronouns@,
            AttributePath::FirstName => self.first_name@,
            AttributePath::LastName => self.last_name@,
            AttributePath::AlternativeName => self.alternative_name@,
            AttributePath::PrimaryEmail => self.primary_email@,
            AttributePath::SshPublicKeys => self.ssh_public_keys@,
            AttributePath::PgpPublicKeys => self.pgp_public_keys@,
            AttributePath::FunTitle => self.fun_title@,
            AttributePath::Description => self.description@,
            AttributePath::Location => self.location@,
            AttributePath::Timezone => self.timezone@,
            AttributePath::Languages => self.languages@,
            AttributePath::Tags => self.tags@,
            AttributePath::Picture => self.picture@,
            AttributePath::Uris => self.uris@,
            AttributePath::PhoneNumbers => self.phone_numbers@,
            AttributePath::Identities(path) => self.identities.attribute(path),
            AttributePath::AccessInformation(path) => self.access_information.attribute(path),
            AttributePath::StaffInformation(path) => self.staff_information.attribute(path),
        }
    }
}

impl View for Profile {
    type V = Map<AttributePath, Attribute>;

    /// The profile as a map from every path to the attribute that stands there.
    open spec fn view(&self) -> Map<AttributePath, Attribute> {
        Map::total(|path: AttributePath| self.attribute(path))
    }
}

/// The profile in which no attribute was ever set.
pub open spec fn unset_profile() -> Map<AttributePath, Attribute> {
    Map::total(|path: AttributePath| Attribute::unset())
}

impl Default for Profile {
    fn default() -> (profile: Profile)
        ensures
            profile@ == unset_profile(),
    {
        let profile = Profile {
            uuid: StandardAttributeString::default(),
            user_id: StandardAttributeString::default(),
            primary_username: StandardAttributeString::default(),
            login_method: StandardAttributeString::default(),
            active: StandardAttributeBoolean::default(),
            last_modified: StandardAttributeString::default(),
            created: StandardAttributeString::default(),
            usernames: StandardAttributeValues::default(),
            pronouns: StandardAttributeString::default(),
            first_name: StandardAttributeString::default(),
            last_name: StandardAttributeString::default(),
            alternative_name: StandardAttributeString::default(),
            primary_email: StandardAttributeString::default(),
            ssh_public_keys: StandardAttributeValues::default(),
            pgp_public_keys: StandardAttributeValues::default(),
            fun_title: StandardAttributeString::default(),
            description: StandardAttributeString::default(),
            location: StandardAttributeString::default(),
            timezone: StandardAttributeString::default(),
            languages: StandardAttributeValues::default(),
            tags: StandardAttributeValues::default(),
            picture: StandardAttributeString::default(),
            uris: StandardAttributeValues::default(),
            phone_numbers: StandardAttributeValues::default(),
            identities: Identities::default(),
            access_information: AccessInformation::default(),
            staff_information: StaffInformation::default(),
        };
        assert(profile@ =~= unset_profile());
        profile
    }
}

impl Clone for Profile {
    fn clone(&self) -> (copy: Profile)
        ensures
            copy@ == self@,
    {
        let copy = Profile {
            uuid: self.uuid.clone(),
            user_id: self.user_id.clone(),
            primary_username: self.primary_username.clone(),
            login_method: self.login_method.clone(),
            active: self.active.clone(),
            last_modified: self.last_modified.clone(),
            created: self.created.clone(),
            usernames: self.usernames.clone(),
            pronouns: self.pronouns.clone(),
            first_name: self.first_name.clone(),
            last_name: self.last_name.clone(),
            alternative_name: self.alternative_name.clone(),
            primary_email: self.primary_email.clone(),
            ssh_public_keys: self.ssh_public_keys.clone(),
            pgp_public_keys: self.pgp_public_keys.clone(),
            fun_title: self.fun_title.clone(),
            description: self.description.clone(),
            location: self.location.clone(),
            timezone: self.timezone.clone(),
            languages: self.languages.clone(),
            tags: self.tags.clone(),
            picture: self.picture.clone(),
            uris: self.uris.clone(),
            phone_numbers: self.phone_numbers.clone(),
            identities: self.identities.clone(),
            access_information: self.access_information.clone(),
            staff_information: self.staff_information.clone(),
        };
        assert(copy@ =~= self@);
        copy
    }
}

} // verus!
