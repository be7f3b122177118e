//! The publisher rules: for every attribute, the publishers that may create it
//! and those that may change it.

use vstd::prelude::*;
use crate::error::RulesError;
use crate::profile::path::AccessPath;
use crate::profile::path::AttributePath;
use crate::profile::path::IdentityPath;
use crate::profile::path::StaffPath;
use crate::profile::schema::PublisherAuthority;
use crate::profile::time::Timestamp;

verus! {

/// A rule that names at most one publisher.
#[derive(Clone, Copy, Debug, PartialEq, Eq, Structural)]
pub enum Publisher {
    Nobody,
    Ldap,
    Mozilliansorg,
    Hris,
    Cis,
    AccessProvider,
}

impl Publisher {
    /// Whether the rule names the authority. `Publisher::Nobody` names none.
    pub open spec fn names(self, authority: PublisherAuthority) -> bool {
        match (self, authority) {
            (Publisher::Ldap, PublisherAuthority::Ldap) => true,
            (Publisher::Mozilliansorg, PublisherAuthority::Mozilliansorg) => true,
            (Publisher::Hris, PublisherAuthority::Hris) => true,
            (Publisher::Cis, PublisherAuthority::Cis) => true,
            (Publisher::AccessProvider, PublisherAuthority::AccessProvider) => true,
            _ => false,
        }
    }

    /// The authorities that the rule names: one, or none.
    pub open spec fn authorities(self) -> Seq<PublisherAuthority> {
        match self {
            Publisher::Nobody => seq![],
            Publisher::Ldap => seq![PublisherAuthority::Ldap],
            Publisher::Mozilliansorg => seq![PublisherAuthority::Mozilliansorg],
            Publisher::Hris => seq![PublisherAuthority::Hris],
            Publisher::Cis => seq![PublisherAuthority::Cis],
            Publisher::AccessProvider => seq![PublisherAuthority::AccessProvider],
        }
    }

    /// The rule that a rule set writes as `name`: the empty text for
    /// `Publisher::Nobody`, and the lower-case name for each of the others.
    pub open spec fn named(name: Seq<char>) -> Option<Publisher> {
        if name == ""@ {
            Some(Publisher::Nobody)
        } else if name == "ldap"@ {
            Some(Publisher::Ldap)
        } else if name == "mozilliansorg"@ {
            Some(Publisher::Mozilliansorg)
        } else if name == "hris"@ {
            Some(Publisher::Hris)
        } else if name == "cis"@ {
            Some(Publisher::Cis)
        } else if name == "access_provider"@ {
            Some(Publisher::AccessProvider)
        } else {
            None
        }
    }

    /// Reads a rule from the name that a rule set writes for it.
    pub fn from_name(name: &str) -> (publisher: Option<Publisher>)
        ensures
            publisher == Publisher::named(name@),
    {
        let name: String = name.to_owned();
        if name == "".to_owned() {
            Some(Publisher::Nobody)
        } else if name == "ldap".to_owned() {
            Some(Publisher::Ldap)
        } else if name == "mozilliansorg".to_owned() {
            Some(Publisher::Mozilliansorg)
        } else if name == "hris".to_owned() {
            Some(Publisher::Hris)
        } else if name == "cis".to_owned() {
            Some(Publisher::Cis)
        } else if name == "access_provider".to_owned() {
            Some(Publisher::AccessProvider)
        } else {
            None
        }
    }

    /// The rule names an authority exactly when the authority is among those
    /// that it lists.
    pub proof fn lemma_names_its_authorities(self, authority: PublisherAuthority)
        ensures
            self.names(authority) <==> self.authorities().contains(authority),
    {
        if self.names(authority) {
            assert(self.authorities()[0] == authority);
        }
    }
}

impl PartialEq<PublisherAuthority> for Publisher {
    fn eq(&self, other: &PublisherAuthority) -> (same: bool) {
        match (self, other) {
            (Publisher::Ldap, PublisherAuthority::Ldap)
            | (Publisher::Mozilliansorg, PublisherAuthority::Mozilliansorg)
            | (Publisher::Hris, PublisherAuthority::Hris)
            | (Publisher::Cis, PublisherAuthority::Cis)
            | (Publisher::AccessProvider, PublisherAuthority::AccessProvider) => true,
            _ => false,
        }
    }
}

impl vstd::std_specs::cmp::PartialEqSpecImpl<PublisherAuthority> for Publisher {
    open spec fn obeys_eq_spec() -> bool {
        true
    }

    open spec fn eq_spec(&self, other: &PublisherAuthority) -> bool {
        self.names(*other)
    }
}

impl From<Publisher> for Vec<PublisherAuthority> {
    fn from(p: Publisher) -> (list: Vec<PublisherAuthority>)
        ensures
            list@ == p.authorities(),
    {
        match p {
            Publisher::Nobody => vec![],
            Publisher::Ldap => vec![PublisherAuthority::Ldap],
            Publisher::Mozilliansorg => vec![PublisherAuthority::Mozilliansorg],
            Publisher::Hris => vec![PublisherAuthority::Hris],
            Publisher::Cis => vec![PublisherAuthority::Cis],
            Publisher::AccessProvider => vec![PublisherAuthority::AccessProvider],
        }
    }
}

impl vstd::std_specs::convert::FromSpecImpl<Publisher> for Vec<PublisherAuthority> {
    /// A list is no mathematical value: what `from` returns is stated of its
    /// view, in the contract of `from` itself.
    open spec fn obeys_from_spec() -> bool {
        false
    }

    open spec fn from_spec(p: Publisher) -> Vec<PublisherAuthority> {
        arbitrary()
    }
}

/// The publishers that a rule allows: those of a list, or the one that a
/// single rule names.
#[derive(Debug, PartialEq)]
pub enum Publishers {
    Many(Vec<PublisherAuthority>),
    One(Publisher),
}

impl View for Publishers {
    type V = Set<PublisherAuthority>;

    /// The set of the publishers that the rule allows.
    open spec fn view(&self) -> Set<PublisherAuthority> {
        match self {
            Publishers::Many(list) => Set::new(|authority: PublisherAuthority| list@.contains(authority)),
            Publishers::One(publisher) => Set::new(|authority: PublisherAuthority| publisher.names(authority)),
        }
    }
}

/// Whether the list holds the authority.
fn lists_authority(list: &Vec<PublisherAuthority>, authority: &PublisherAuthority) -> (found: bool)
    ensures
        found == list@.contains(*authority),
{
    let mut i: usize = 0;
    while i < list.len()
        invariant
            i <= list@.len(),
            forall|j: int| 0 <= j < i ==> list@[j] != *authority,
        decreases list@.len() - i,
    {
        if list[i] == *authority {
            assert(list@[i as int] == *authority);
            return true;
        }
        i += 1;
    }
    false
}

impl Publishers {
    /// Whether the rule allows the publisher.
    pub fn check(&self, publisher: &PublisherAuthority) -> (allowed: bool)
        ensures
            allowed == self@.contains(*publisher),
    {
        match self {
            Publishers::Many(list) => lists_authority(list, publisher),
            Publishers::One(p) => *p == *publisher,
        }
    }
}

impl Clone for Publishers {
    fn clone(&self) -> (copy: Publishers)
        ensures
            copy@ == self@,
    {
        match self {
            Publishers::Many(list) => {
                let mut copied: Vec<PublisherAuthority> = Vec::new();
                let mut i: usize = 0;
                while i < list.len()
                    invariant
                        i <= list@.len(),
                        copied@ == list@.subrange(0, i as int),
                    decreases list@.len() - i,
                {
                    copied.push(list[i]);
                    assert(copied@ =~= list@.subrange(0, i + 1));
                    i += 1;
                }
                assert(copied@ =~= list@);
                Publishers::Many(copied)
            },
            Publishers::One(publisher) => Publishers::One(*publisher),
        }
    }
}

/// The rules for the identities, one per attribute.
#[derive(Debug, PartialEq)]
pub struct IdentityRules {
    pub github_id_v3: Publishers,
    pub github_id_v4: Publishers,
    pub github_primary_email: Publishers,
    pub mozilliansorg_id: Publishers,
    pub bugzilla_mozilla_org_id: Publishers,
    pub bugzilla_mozilla_org_primary_email: Publishers,
    pub mozilla_ldap_id: Publishers,
    pub mozilla_ldap_primary_email: Publishers,
    pub mozilla_posix_id: Publishers,
    pub google_oauth2_id: Publishers,
    pub google_primary_email: Publishers,
    pub firefox_accounts_id: Publishers,
    pub firefox_accounts_primary_email: Publishers,
    pub custom_1_primary_email: Publishers,
    pub custom_2_primary_email: Publishers,
    pub custom_3_primary_email: Publishers,
}

impl IdentityRules {
    /// The publishers allowed at the given path.
    pub open spec fn allowed(&self, path: IdentityPath) -> Set<PublisherAuthority> {
        match path {
            IdentityPath::GithubIdV3 => self.github_id_v3@,
            IdentityPath::GithubIdV4 => self.github_id_v4@,
            IdentityPath::GithubPrimaryEmail => self.github_primary_email@,
            IdentityPath::MozilliansorgId => self.mozilliansorg_id@,
            IdentityPath::BugzillaMozillaOrgId => self.bugzilla_mozilla_org_id@,
            IdentityPath::BugzillaMozillaOrgPrimaryEmail => self.bugzilla_mozilla_org_primary_email@,
            IdentityPath::MozillaLdapId => self.mozilla_ldap_id@,
            IdentityPath::MozillaLdapPrimaryEmail => self.mozilla_ldap_primary_email@,
            IdentityPath::MozillaPosixId => self.mozilla_posix_id@,
            IdentityPath::GoogleOauth2Id => self.google_oauth2_id@,
            IdentityPath::GooglePrimaryEmail => self.google_primary_email@,
            IdentityPath::FirefoxAccountsId => self.firefox_accounts_id@,
            IdentityPath::FirefoxAccountsPrimaryEmail => self.firefox_accounts_primary_email@,
            IdentityPath::Custom1PrimaryEmail => self.custom_1_primary_email@,
            IdentityPath::Custom2PrimaryEmail => self.custom_2_primary_email@,
            IdentityPath::Custom3PrimaryEmail => self.custom_3_primary_email@,
        }
    }

    /// The rules that give every identity the one rule `publisher`.
    pub fn same(publisher: Publisher) -> (rules: IdentityRules)
        ensures
            forall|path: IdentityPath| #[trigger] rules.allowed(path) == Publishers::One(publisher)@,
    {
        IdentityRules {
            github_id_v3: Publishers::One(publisher),
            github_id_v4: Publishers::One(publisher),
            github_primary_email: Publishers::One(publisher),
            mozilliansorg_id: Publishers::One(publisher),
            bugzilla_mozilla_org_id: Publishers::One(publisher),
            bugzilla_mozilla_org_primary_email: Publishers::One(publisher),
            mozilla_ldap_id: Publishers::One(publisher),
            mozilla_ldap_primary_email: Publishers::One(publisher),
            mozilla_posix_id: Publishers::One(publisher),
            google_oauth2_id: Publishers::One(publisher),
            google_primary_email: Publishers::One(publisher),
            firefox_accounts_id: Publishers::One(publisher),
            firefox_accounts_primary_email: Publishers::One(publisher),
            custom_1_primary_email: Publishers::One(publisher),
            custom_2_primary_email: Publishers::One(publisher),
            custom_3_primary_email: Publishers::One(publisher),
        }
    }

    /// Reads the rules from the name of the one publisher that a rule set gives
    /// for the whole group. A text that names no publisher is refused.
    pub fn from_str(s: &str) -> (rules: Result<IdentityRules, RulesError>)
        ensures
            match Publisher::named(s@) {
                Some(publisher) => rules matches Ok(r) && forall|path: IdentityPath| #[trigger]
                    r.allowed(path) == Publishers::One(publisher)@,
                None => rules == Err::<IdentityRules, RulesError>(RulesError::UnknownPublisher),
            },
    {
        match Publisher::from_name(s) {
            Some(publisher) => Ok(IdentityRules::same(publisher)),
            None => Err(RulesError::UnknownPublisher),
        }
    }
}

impl Clone for IdentityRules {
    fn clone(&self) -> (copy: IdentityRules)
        ensures
            forall|path: IdentityPath| #[trigger] copy.allowed(path) == self.allowed(path),
    {
        IdentityRules {
            github_id_v3: self.github_id_v3.clone(),
            github_id_v4: self.github_id_v4.clone(),
            github_primary_email: self.github_primary_email.clone(),
            mozilliansorg_id: self.mozilliansorg_id.clone(),
            bugzilla_mozilla_org_id: self.bugzilla_mozilla_org_id.clone(),
            bugzilla_mozilla_org_primary_email: self.bugzilla_mozilla_org_primary_email.clone(),
            mozilla_ldap_id: self.mozilla_ldap_id.clone(),
            mozilla_ldap_primary_email: self.mozilla_ldap_primary_email.clone(),
            mozilla_posix_id: self.mozilla_posix_id.clone(),
            google_oauth2_id: self.google_oauth2_id.clone(),
            google_primary_email: self.google_primary_email.clone(),
            firefox_accounts_id: self.firefox_accounts_id.clone(),
            firefox_accounts_primary_email: self.firefox_accounts_primary_email.clone(),
            custom_1_primary_email: self.custom_1_primary_email.clone(),
            custom_2_primary_email: self.custom_2_primary_email.clone(),
            custom_3_primary_email: self.custom_3_primary_email.clone(),
        }
    }
}

/// The rules for the access information, one per provider.
#[derive(Debug, PartialEq)]
pub struct AccessInformationRules {
    pub access_provider: Publishers,
    pub ldap: Publishers,
    pub hris: Publishers,
    pub mozilliansorg: Publishers,
}

impl AccessInformationRules {
    /// The publishers allowed at the given path.
    pub open spec fn allowed(&self, path: AccessPath) -> Set<PublisherAuthority> {
        match path {
            AccessPath::AccessProvider => self.access_provider@,
            AccessPath::Ldap => self.ldap@,
            AccessPath::Hris => self.hris@,
            AccessPath::Mozilliansorg => self.mozilliansorg@,
        }
    }

    /// The rules that give every provider the one rule `publisher`.
    pub fn same(publisher: Publisher) -> (rules: AccessInformationRules)
        ensures
            forall|path: AccessPath| #[trigger] rules.allowed(path) == Publishers::One(publisher)@,
    {
        AccessInformationRules {
            access_provider: Publishers::One(publisher),
            ldap: Publishers::One(publisher),
            hris: Publishers::One(publisher),
            mozilliansorg: Publishers::One(publisher),
        }
    }

    /// Reads the rules from the name of the one publisher that a rule set gives
    /// for the whole group. A text that names no publisher is refused.
    pub fn from_str(s: &str) -> (rules: Result<AccessInformationRules, RulesError>)
        ensures
            match Publisher::named(s@) {
                Some(publisher) => rules matches Ok(r) && forall|path: AccessPath| #[trigger]
                    r.allowed(path) == Publishers::One(publisher)@,
                None => rules == Err::<AccessInformationRules, RulesError>(RulesError::UnknownPublisher),
            },
    {
        match Publisher::from_name(s) {
            Some(publisher) => Ok(AccessInformationRules::same(publisher)),
            None => Err(RulesError::UnknownPublisher),
        }
    }
}

impl Clone for AccessInformationRules {
    fn clone(&self) -> (copy: AccessInformationRules)
        ensures
            forall|path: AccessPath| #[trigger] copy.allowed(path) == self.allowed(path),
    {
        AccessInformationRules {
            access_provider: self.access_provider.clone(),
            ldap: self.ldap.clone(),
            hris: self.hris.clone(),
            mozilliansorg: self.mozilliansorg.clone(),
        }
    }
}

/// The rules for the staff information, one per attribute.
#[derive(Debug, PartialEq)]
pub struct StaffInformationRules {
    pub manager: Publishers,
    pub director: Publishers,
    pub staff: Publishers,
    pub title: Publishers,
    pub team: Publishers,
    pub cost_center: Publishers,
    pub worker_type: Publishers,
    pub wpr_desk_number: Publishers,
    pub office_location: Publishers,
}

impl StaffInformationRules {
    /// The publishers allowed at the given path.
    pub open spec fn allowed(&self, path: StaffPath) -> Set<PublisherAuthority> {
        match path {
            StaffPath::Manager => self.manager@,
            StaffPath::Director => self.director@,
            StaffPath::Staff => self.staff@,
            StaffPath::Title => self.title@,
            StaffPath::Team => self.team@,
            StaffPath::CostCenter => self.cost_center@,
            StaffPath::WorkerType => self.worker_type@,
            StaffPath::WprDeskNumber => self.wpr_desk_number@,
            StaffPath::OfficeLocation => self.office_location@,
        }
    }

    /// The rules that give every attribute of the staff information the one rule `publisher`.
    pub fn same(publisher: Publisher) -> (rules: StaffInformationRules)
        ensures
            forall|path: StaffPath| #[trigger] rules.allowed(path) == Publishers::One(publisher)@,
    {
        StaffInformationRules {
            manager: Publishers::One(publisher),
            director: Publishers::One(publisher),
            staff: Publishers::One(publisher),
            title: Publishers::One(publisher),
            team: Publishers::One(publisher),
            cost_center: Publishers::One(publisher),
            worker_type: Publishers::One(publisher),
            wpr_desk_number: Publishers::One(publisher),
            office_location: Publishers::One(publisher),
        }
    }

    /// Reads the rules from the name of the one publisher that a rule set gives
    /// for the whole group. A text that names no publisher is refused.
    pub fn from_str(s: &str) -> (rules: Result<StaffInformationRules, RulesError>)
        ensures
            match Publisher::named(s@) {
                Some(publisher) => rules matches Ok(r) && forall|path: StaffPath| #[trigger]
                    r.allowed(path) == Publishers::One(publisher)@,
                None => rules == Err::<StaffInformationRules, RulesError>(RulesError::UnknownPublisher),
            },
    {
        match Publisher::from_name(s) {
            Some(publisher) => Ok(StaffInformationRules::same(publisher)),
            None => Err(RulesError::UnknownPublisher),
        }
    }
}

impl Clone for StaffInformationRules {
    fn clone(&self) -> (copy: StaffInformationRules)
        ensures
            forall|path: StaffPath| #[trigger] copy.allowed(path) == self.allowed(path),
    {
        StaffInformationRules {
            manager: self.manager.clone(),
            director: self.director.clone(),
            staff: self.staff.clone(),
            title: self.title.clone(),
            team: self.team.clone(),
            cost_center: self.cost_center.clone(),
            worker_type: self.worker_type.clone(),
            wpr_desk_number: self.wpr_desk_number.clone(),
            office_location: self.office_location.clone(),
        }
    }
}

/// For every attribute of a profile, the publishers that a rule set allows.
#[derive(Debug, PartialEq)]
pub struct Rules {
    pub uuid: Publishers,
    pub user_id: Publishers,
    pub primary_username: Publishers,
    pub login_method: Publishers,
    pub active: Publishers,
    pub last_modified: Publishers,
    pub created: Publishers,
    pub usernames: Publishers,
    pub pronouns: Publishers,
    pub first_name: Publishers,
    pub last_name: Publishers,
    pub alternative_name: Publishers,
    pub primary_email: Publishers,
    pub ssh_public_keys: Publishers,
    pub pgp_public_keys: Publishers,
    pub fun_title: Publishers,
    pub description: Publishers,
    pub location: Publishers,
    pub timezone: Publishers,
    pub languages: Publishers,
    pub tags: Publishers,
    pub picture: Publishers,
    pub uris: Publishers,
    pub phone_numbers: Publishers,
    pub identities: IdentityRules,
    pub access_information: AccessInformationRules,
    pub staff_information: StaffInformationRules,
}

impl Rules {
    /// The publishers allowed at the given path.
    pub open spec fn allowed(&self, path: AttributePath) -> Set<PublisherAuthority> {
        match path {
            AttributePath::Uuid => self.uuid@,
            AttributePath::UserId => self.user_id@,
            AttributePath::PrimaryUsername => self.primary_username@,
            AttributePath::LoginMethod => self.login_method@,
            AttributePath::Active => self.active@,
            AttributePath::LastModified => self.last_modified@,
            AttributePath::Created => self.created@,
            AttributePath::Usernames => self.usernames@,
            AttributePath::Pronouns => self.pronouns@,
            AttributePath::FirstName => self.first_name@,
            AttributePath::LastName => self.last_name@,
            AttributePath::AlternativeName => self.alternative_name@,
            AttributePath::PrimaryEmail => self.primary_email@,
            AttributePath::SshPublicKeys => self.ssh_public_keys@,
            AttributePath::PgpPublicKeys => self.pgp_public_keys@,
            AttributePath::FunTitle => self.fun_title@,
            AttributePath::Description => self.description@,
            AttributePath::Location => self.location@,
            AttributePath::Timezone => self.timezone@,
            AttributePath::Languages => self.languages@,
            AttributePath::Tags => self.tags@,
            AttributePath::Picture => self.picture@,
            AttributePath::Uris => self.uris@,
            AttributePath::PhoneNumbers => self.phone_numbers@,
            AttributePath::Identities(path) => self.identities.allowed(path),
            AttributePath::AccessInformation(path) => self.access_information.allowed(path),
            AttributePath::StaffInformation(path) => self.staff_information.allowed(path),
        }
    }

    /// The rules that give every attribute the one rule `publisher`.
    pub fn same(publisher: Publisher) -> (rules: Rules)
        ensures
            forall|path: AttributePath| #[trigger] rules.allowed(path) == Publishers::One(publisher)@,
    {
        Rules {
            uuid: Publishers::One(publisher),
            user_id: Publishers::One(publisher),
            primary_username: Publishers::One(publisher),
            login_method: Publishers::One(publisher),
            active: Publishers::One(publisher),
            last_modified: Publishers::One(publisher),
            created: Publishers::One(publisher),
            usernames: Publishers::One(publisher),
            pronouns: Publishers::One(publisher),
            first_name: Publishers::One(publisher),
            last_name: Publishers::One(publisher),
            alternative_name: Publishers::One(publisher),
            primary_email: Publishers::One(publisher),
            ssh_public_keys: Publishers::One(publisher),
            pgp_public_keys: Publishers::One(publisher),
            fun_title: Publishers::One(publisher),
            description: Publishers::One(publisher),
            location: Publishers::One(publisher),
            timezone: Publishers::One(publisher),
            languages: Publishers::One(publisher),
            tags: Publishers::One(publisher),
            picture: Publishers::One(publisher),
            uris: Publishers::One(publisher),
            phone_numbers: Publishers::One(publisher),
            identities: IdentityRules::same(publisher),
            access_information: AccessInformationRules::same(publisher),
            staff_information: StaffInformationRules::same(publisher),
        }
    }
}

impl View for Rules {
    type V = Map<AttributePath, Set<PublisherAuthority>>;

    /// The rules as a map from every path to the publishers allowed there.
    open spec fn view(&self) -> Map<AttributePath, Set<PublisherAuthority>> {
        Map::total(|path: AttributePath| self.allowed(path))
    }
}

impl Clone for Rules {
    fn clone(&self) -> (copy: Rules)
        ensures
            copy@ == self@,
    {
        let copy = Rules {
            uuid: self.uuid.clone(),
            user_id: self.user_id.clone(),
            primary_username: self.primary_username.clone(),
            login_method: self.login_method.clone(),
            active: self.active.clone(),
            last_modified: self.last_modified.clone(),
            created: self.created.clone(),
            usernames: self.usernames.clone(),
            pronouns: self.pronouns.clone(),
            first_name: self.first_name.clone(),
            last_name: self.last_name.clone(),
            alternative_name: self.alternative_name.clone(),
            primary_email: self.primary_email.clone(),
            ssh_public_keys: self.ssh_public_keys.clone(),
            pgp_public_keys: self.pgp_public_keys.clone(),
            fun_title: self.fun_title.clone(),
            description: self.description.clone(),
            location: self.location.clone(),
            timezone: self.timezone.clone(),
            languages: self.languages.clone(),
            tags: self.tags.clone(),
            picture: self.picture.clone(),
            uris: self.uris.clone(),
            phone_numbers: self.phone_numbers.clone(),
            identities: self.identities.clone(),
            access_information: self.access_information.clone(),
            staff_information: self.staff_information.clone(),
        };
        assert(copy@ =~= self@);
        copy
    }
}

/// The rule set: who may create each attribute, and who may change it.
#[derive(Debug, PartialEq)]
pub struct PublisherRules {
    pub create: Rules,
    pub update: Rules,
}

impl Clone for PublisherRules {
    fn clone(&self) -> (copy: PublisherRules)
        ensures
            copy.create@ == self.create@,
            copy.update@ == self.update@,
    {
        PublisherRules { create: self.create.clone(), update: self.update.clone() }
    }
}

/// Where the rule set is fetched from.
#[derive(Debug, PartialEq, Eq)]
pub struct RemotePublisherRulesProvider {
    url: String,
}

impl RemotePublisherRulesProvider {
    /// The address under which the rule set is published.
    pub open spec fn well_known_url() -> Seq<char> {
        "https://auth.mozilla.com/.well-known/mozilla-iam-publisher-rules"@
    }

    /// The address that the provider fetches from.
    pub closed spec fn address(&self) -> Seq<char> {
        self.url@
    }

    /// A provider that fetches from the given address.
    pub fn new(url: String) -> (provider: RemotePublisherRulesProvider)
        ensures
            provider.address() == url@,
    {
        RemotePublisherRulesProvider { url }
    }

    /// The provider that fetches from the address under which the rule set is
    /// published.
    pub fn well_known() -> (provider: RemotePublisherRulesProvider)
        ensures
            provider.address() == RemotePublisherRulesProvider::well_known_url(),
    {
        RemotePublisherRulesProvider {
            url: "https://auth.mozilla.com/.well-known/mozilla-iam-publisher-rules".to_owned(),
        }
    }

    /// The address that the provider fetches from.
    pub fn url(&self) -> (url: &str)
        ensures
            url@ == self.address(),
    {
        self.url.as_str()
    }
}

/// What the `headers` crate reads as the `max-age` directive of a
/// `Cache-Control` header with the given value, in seconds: nothing where the
/// value is no header value, where the header does not parse, or where it has
/// no such directive.
pub uninterp spec fn max_age_of_header(value: Seq<char>) -> Option<u64>;

/// Decodes a `Cache-Control` header of the given value with
/// `headers::HeaderMapExt::typed_get`, and hands out the seconds of
/// `headers::CacheControl::max_age`. A text that `HeaderValue::from_str`
/// refuses gives nothing. The contract only names the result.
#[verifier::external_body]
fn cache_control_max_age(value: &str) -> (max_age: Option<u64>)
    ensures
        max_age == max_age_of_header(value@),
{
    let mut map = headers::HeaderMap::new();
    match headers::HeaderValue::from_str(value) {
        Ok(value) => map.insert(headers::HeaderName::from_static("cache-control"), value),
        Err(_) => return None,
    };
    let decoded: Option<headers::CacheControl> = headers::HeaderMapExt::typed_get(&map);
    match decoded {
        Some(cache_control) => match cache_control.max_age() {
            Some(age) => Some(age.as_secs()),
            None => None,
        },
        None => None,
    }
}

/// The longest life of a rule set, in seconds: what `chrono::Duration` can
/// hold, `i64::MAX` milliseconds.
pub const MAX_AGE_LIMIT: u64 = 9_223_372_036_854_775;

/// The life of a rule set that came without one, in seconds: 24 hours.
pub const DEFAULT_MAX_AGE: u64 = 86_400;

/// Converts a number of whole seconds with `chrono::Duration::from_std`, and
/// hands out `Duration::num_seconds` of the result. `from_std` refuses what
/// is longer than `Duration::MAX`, which is `i64::MAX` milliseconds; of
/// anything else it keeps the seconds.
#[verifier::external_body]
fn seconds_from_std(secs: u64) -> (converted: Option<i64>)
    ensures
        converted == if secs <= MAX_AGE_LIMIT {
            Some(secs as i64)
        } else {
            None::<i64>
        },
{
    match chrono::Duration::from_std(std::time::Duration::from_secs(secs)) {
        Ok(duration) => Some(duration.num_seconds()),
        Err(_) => None,
    }
}

/// The life of a rule set that came with the given `max-age`, in seconds: the
/// `max-age` where there is one that is not over the limit, else 24 hours.
pub open spec fn lifetime(max_age: Option<u64>) -> nat {
    match max_age {
        Some(secs) => if secs <= MAX_AGE_LIMIT {
            secs as nat
        } else {
            DEFAULT_MAX_AGE as nat
        },
        None => DEFAULT_MAX_AGE as nat,
    }
}

/// The life of a rule set that came with the given `max-age`, in seconds.
pub fn lifetime_seconds(max_age: Option<u64>) -> (secs: u64)
    ensures
        secs == lifetime(max_age),
{
    let converted = match max_age {
        Some(secs) => seconds_from_std(secs),
        None => None,
    };
    match converted {
        Some(secs) => if secs >= 0 {
            secs as u64
        } else {
            DEFAULT_MAX_AGE
        },
        None => DEFAULT_MAX_AGE,
    }
}

/// The rule set as it is cached: the rules, and the instant until which they
/// may be served.
#[derive(Debug, PartialEq)]
pub struct RemotePublisherRules {
    pub rules: PublisherRules,
    pub valid_till: Timestamp,
}

impl RemotePublisherRules {
    /// Whether the rule set may be served at the instant `now`: until its
    /// last instant, and not at it.
    pub open spec fn is_valid_at(&self, now: Timestamp) -> bool {
        now.is_before(self.valid_till)
    }

    /// The rule set that was fetched at the instant `now` and came with the
    /// given `max-age`: it may be served for as long as [`lifetime`] says.
    pub fn with_max_age(rules: PublisherRules, now: Timestamp, max_age: Option<u64>) -> (cached:
        RemotePublisherRules)
        ensures
            cached.rules == rules,
            cached.valid_till == now.after_seconds(lifetime(max_age)),
    {
        let secs = lifetime_seconds(max_age);
        RemotePublisherRules { rules, valid_till: now.plus_seconds(secs) }
    }

    /// The rule set that was fetched at the instant `now` and came with a
    /// `Cache-Control` header of the given value, or with none.
    pub fn fetched(rules: PublisherRules, now: Timestamp, cache_control: Option<&str>) -> (cached:
        RemotePublisherRules)
        ensures
            cached.rules == rules,
            cached.valid_till == now.after_seconds(
                lifetime(
                    match cache_control {
                        Some(value) => max_age_of_header(value@),
                        None => None,
                    },
                ),
            ),
    {
        let max_age = match cache_control {
            Some(value) => cache_control_max_age(value),
            None => None,
        };
        RemotePublisherRules::with_max_age(rules, now, max_age)
    }

    /// Whether the rule set may be served at the instant `now`.
    pub fn valid_at(&self, now: &Timestamp) -> (valid: bool)
        ensures
            valid == self.is_valid_at(*now),
    {
        now.before(&self.valid_till)
    }

    /// Whether the rule set may be served now, by the system clock.
    pub fn valid(&self) -> (valid: bool)
        ensures
            exists|now: Timestamp| valid == self.is_valid_at(now),
    {
        let now = Timestamp::now();
        let valid = self.valid_at(&now);
        assert(valid == self.is_valid_at(now));
        valid
    }

    /// A rule set that may be served at an instant may be served at every
    /// earlier instant.
    pub proof fn lemma_validity_ends_once(&self, earlier: Timestamp, later: Timestamp)
        requires
            earlier.is_before(later) || earlier == later,
            self.is_valid_at(later),
        ensures
            self.is_valid_at(earlier),
    {
    }
}

impl Clone for RemotePublisherRules {
    fn clone(&self) -> (copy: RemotePublisherRules)
        ensures
            copy.rules.create@ == self.rules.create@,
            copy.rules.update@ == self.rules.update@,
            copy.valid_till == self.valid_till,
    {
        RemotePublisherRules { rules: self.rules.clone(), valid_till: self.valid_till }
    }
}

} // verus!
