//! The authorization of an update: which of the proposed attributes may
//! replace the current ones, by the rules and by who published them.

use vstd::prelude::*;
use crate::error::ProfileError;
use crate::profile::path::AccessPath;
use crate::profile::path::AttributePath;
use crate::profile::path::IdentityPath;
use crate::profile::path::StaffPath;
use crate::profile::path::attribute_count;
use crate::profile::publishers::AccessInformationRules;
use crate::profile::publishers::IdentityRules;
use crate::profile::publishers::PublisherRules;
use crate::profile::publishers::Publishers;
use crate::profile::publishers::StaffInformationRules;
use crate::profile::schema::AccessInformationProviderSubObject;
use crate::profile::schema::AccessInformation;
use crate::profile::schema::Attribute;
use crate::profile::schema::Identities;
use crate::profile::schema::Metadata;
use crate::profile::schema::Profile;
use crate::profile::schema::PublisherAuthority;
use crate::profile::schema::StaffInformation;
use crate::profile::schema::StandardAttributeBoolean;
use crate::profile::schema::StandardAttributeString;
use crate::profile::schema::StandardAttributeValues;

verus! {

/// What an update does to one attribute.
#[derive(Clone, Copy, Debug, PartialEq, Eq, Structural)]
pub enum Operation {
    Create,
    Update,
    Noop,
}

/// Whether the publisher may change who sees an attribute without being
/// allowed to change the attribute: only `mozilliansorg` may.
pub open spec fn is_allowed_updator(publisher: PublisherAuthority) -> bool {
    publisher == PublisherAuthority::Mozilliansorg
}

/// Whether the proposed attribute has the value, the display and the
/// verification of the current one.
pub open spec fn unchanged(current: Attribute, proposed: Attribute) -> bool {
    &&& current.value == proposed.value
    &&& current.metadata.display == proposed.metadata.display
    &&& current.metadata.verified == proposed.metadata.verified
}

/// Whether the proposed attribute keeps the value of the current one and
/// changes its display, in the name of a publisher that may do so.
pub open spec fn redisplays(current: Attribute, proposed: Attribute) -> bool {
    &&& current.value == proposed.value
    &&& current.metadata.display != proposed.metadata.display
    &&& is_allowed_updator(proposed.publisher)
}

/// Whether the proposed attribute is older than the current one.
pub open spec fn outdated(current: Attribute, proposed: Attribute) -> bool {
    proposed.metadata.last_modified.is_before(current.metadata.last_modified)
}

/// What the rules make of a proposed attribute, before its age is looked at.
///
/// An attribute that changes nothing is left alone, and so is one that has no
/// value where the current one has none. A value where there was none is a
/// creation, and needs a publisher that may create. Anything else where there
/// was a value is a change, and needs a publisher that may change, or one that
/// only changes the display and may do that.
pub open spec fn operation(
    current: Attribute,
    proposed: Attribute,
    create: Set<PublisherAuthority>,
    change: Set<PublisherAuthority>,
) -> Result<Operation, ProfileError> {
    if unchanged(current, proposed) {
        Ok(Operation::Noop)
    } else if current.value is None {
        if proposed.value is None {
            Ok(Operation::Noop)
        } else if create.contains(proposed.publisher) {
            Ok(Operation::Create)
        } else {
            Err(ProfileError::PublisherNotAllowedToCreate)
        }
    } else if change.contains(proposed.publisher) || redisplays(current, proposed) {
        Ok(Operation::Update)
    } else {
        Err(ProfileError::PublisherNotAllowedToUpdate)
    }
}

/// What an update does to one attribute: the operation that the rules allow,
/// unless it would put an older attribute in the place of a newer one.
pub open spec fn verdict(
    current: Attribute,
    proposed: Attribute,
    create: Set<PublisherAuthority>,
    change: Set<PublisherAuthority>,
) -> Result<Operation, ProfileError> {
    match operation(current, proposed, create, change) {
        Ok(Operation::Noop) => Ok(Operation::Noop),
        Ok(op) => if outdated(current, proposed) {
            Err(ProfileError::OutdatedUpdate)
        } else {
            Ok(op)
        },
        Err(e) => Err(e),
    }
}

/// The attribute that stands after an update that was accepted: the current
/// one where nothing was to do, else the proposed one.
pub open spec fn merged(
    current: Attribute,
    proposed: Attribute,
    create: Set<PublisherAuthority>,
    change: Set<PublisherAuthority>,
) -> Attribute {
    if verdict(current, proposed, create, change) == Ok::<Operation, ProfileError>(Operation::Noop) {
        current
    } else {
        proposed
    }
}

/// What an update does to the attribute at `path`.
pub open spec fn verdict_at(
    rules: PublisherRules,
    current: Map<AttributePath, Attribute>,
    proposed: Map<AttributePath, Attribute>,
    path: AttributePath,
) -> Result<Operation, ProfileError> {
    verdict(current[path], proposed[path], rules.create@[path], rules.update@[path])
}

/// Whether an update accepts every attribute whose place is before `place`.
pub open spec fn accepted_before(
    rules: PublisherRules,
    current: Map<AttributePath, Attribute>,
    proposed: Map<AttributePath, Attribute>,
    place: nat,
) -> bool {
    forall|path: AttributePath|
        path.index() < place ==> (#[trigger] verdict_at(rules, current, proposed, path)) is Ok
}

/// Whether an update accepts every attribute.
pub open spec fn accepted(
    rules: PublisherRules,
    current: Map<AttributePath, Attribute>,
    proposed: Map<AttributePath, Attribute>,
) -> bool {
    forall|path: AttributePath| (#[trigger] verdict_at(rules, current, proposed, path)) is Ok
}

/// Whether the attribute at `path` is the first that an update refuses, and
/// `error` is why.
pub open spec fn rejected_at(
    rules: PublisherRules,
    current: Map<AttributePath, Attribute>,
    proposed: Map<AttributePath, Attribute>,
    path: AttributePath,
    error: ProfileError,
) -> bool {
    &&& accepted_before(rules, current, proposed, path.index())
    &&& verdict_at(rules, current, proposed, path) == Err::<Operation, ProfileError>(error)
}

/// The profile that stands after an update that was accepted.
pub open spec fn merge(
    rules: PublisherRules,
    current: Map<AttributePath, Attribute>,
    proposed: Map<AttributePath, Attribute>,
) -> Map<AttributePath, Attribute> {
    Map::total(
        |path: AttributePath|
            merged(current[path], proposed[path], rules.create@[path], rules.update@[path]),
    )
}

/// An attribute of a profile, of whatever shape.
pub trait ProfileAttribute: View<V = Attribute> + Sized {
    /// Whether the two attributes have the same value, or both none.
    fn same_value(&self, other: &Self) -> (same: bool)
        ensures
            same == (self@.value == other@.value),
    ;

    /// Whether the attribute has a value.
    fn has_value(&self) -> (set: bool)
        ensures
            set == self@.value is Some,
    ;

    /// The metadata of the attribute.
    fn metadata(&self) -> (metadata: Metadata)
        ensures
            metadata == self@.metadata,
    ;

    /// The publisher that asserted the attribute.
    fn publisher(&self) -> (publisher: PublisherAuthority)
        ensures
            publisher == self@.publisher,
    ;
}

impl ProfileAttribute for StandardAttributeString {
    fn same_value(&self, other: &StandardAttributeString) -> (same: bool) {
        StandardAttributeString::same_value(self, other)
    }

    fn has_value(&self) -> (set: bool) {
        self.value.is_some()
    }

    fn metadata(&self) -> (metadata: Metadata) {
        self.metadata
    }

    fn publisher(&self) -> (publisher: PublisherAuthority) {
        self.signature.publisher.name
    }
}

impl ProfileAttribute for StandardAttributeBoolean {
    fn same_value(&self, other: &StandardAttributeBoolean) -> (same: bool) {
        StandardAttributeBoolean::same_value(self, other)
    }

    fn has_value(&self) -> (set: bool) {
        self.value.is_some()
    }

    fn metadata(&self) -> (metadata: Metadata) {
        self.metadata
    }

    fn publisher(&self) -> (publisher: PublisherAuthority) {
        self.signature.publisher.name
    }
}

impl ProfileAttribute for StandardAttributeValues {
    fn same_value(&self, other: &StandardAttributeValues) -> (same: bool) {
        StandardAttributeValues::same_value(self, other)
    }

    fn has_value(&self) -> (set: bool) {
        self.values.is_some()
    }

    fn metadata(&self) -> (metadata: Metadata) {
        self.metadata
    }

    fn publisher(&self) -> (publisher: PublisherAuthority) {
        self.signature.publisher.name
    }
}

impl ProfileAttribute for AccessInformationProviderSubObject {
    fn same_value(&self, other: &AccessInformationProviderSubObject) -> (same: bool) {
        AccessInformationProviderSubObject::same_value(self, other)
    }

    fn has_value(&self) -> (set: bool) {
        self.values.is_some()
    }

    fn metadata(&self) -> (metadata: Metadata) {
        self.metadata
    }

    fn publisher(&self) -> (publisher: PublisherAuthority) {
        self.signature.publisher.name
    }
}

/// Whether the publisher may change who sees an attribute without being
/// allowed to change the attribute.
pub fn allowed_updator(publisher: &PublisherAuthority) -> (allowed: bool)
    ensures
        allowed == is_allowed_updator(*publisher),
{
    match publisher {
        PublisherAuthority::Mozilliansorg => true,
        _ => false,
    }
}

/// Whether the rule allows the publisher of the attribute.
pub fn update_allowed<A: ProfileAttribute>(attribute: &A, rule: &Publishers) -> (allowed: bool)
    ensures
        allowed == rule@.contains(attribute@.publisher),
{
    let publisher = attribute.publisher();
    rule.check(&publisher)
}

/// Puts `update` in the place of `field`, unless `field` is the newer of the
/// two: then `field` stays as it is.
pub fn update_any<A: ProfileAttribute>(field: &mut A, update: A) -> (done: Result<(), ProfileError>)
    ensures
        outdated(old(field)@, update@) ==> done == Err::<(), ProfileError>(
            ProfileError::OutdatedUpdate,
        ) && *final(field) == *old(field),
        !outdated(old(field)@, update@) ==> done == Ok::<(), ProfileError>(()) && *final(field)
            == update,
{
    let current = field.metadata().last_modified;
    let proposed = update.metadata().last_modified;
    if proposed.before(&current) {
        return Err(ProfileError::OutdatedUpdate);
    }
    *field = update;
    Ok(())
}

/// [`update_any`] for an attribute whose value is a text.
pub fn update_sas(field: &mut StandardAttributeString, update: StandardAttributeString) -> (done:
    Result<(), ProfileError>)
    ensures
        outdated(old(field)@, update@) ==> done == Err::<(), ProfileError>(
            ProfileError::OutdatedUpdate,
        ) && *final(field) == *old(field),
        !outdated(old(field)@, update@) ==> done == Ok::<(), ProfileError>(()) && *final(field)
            == update,
{
    update_any(field, update)
}

/// [`update_any`] for an attribute whose value is a flag.
pub fn update_sab(field: &mut StandardAttributeBoolean, update: StandardAttributeBoolean) -> (done:
    Result<(), ProfileError>)
    ensures
        outdated(old(field)@, update@) ==> done == Err::<(), ProfileError>(
            ProfileError::OutdatedUpdate,
        ) && *final(field) == *old(field),
        !outdated(old(field)@, update@) ==> done == Ok::<(), ProfileError>(()) && *final(field)
            == update,
{
    update_any(field, update)
}

/// [`update_any`] for an attribute whose value is a map.
pub fn update_sav(field: &mut StandardAttributeValues, update: StandardAttributeValues) -> (done:
    Result<(), ProfileError>)
    ensures
        outdated(old(field)@, update@) ==> done == Err::<(), ProfileError>(
            ProfileError::OutdatedUpdate,
        ) && *final(field) == *old(field),
        !outdated(old(field)@, update@) ==> done == Ok::<(), ProfileError>(()) && *final(field)
            == update,
{
    update_any(field, update)
}

/// [`update_any`] for the groups of an access provider.
pub fn update_saac(
    field: &mut AccessInformationProviderSubObject,
    update: AccessInformationProviderSubObject,
) -> (done: Result<(), ProfileError>)
    ensures
        outdated(old(field)@, update@) ==> done == Err::<(), ProfileError>(
            ProfileError::OutdatedUpdate,
        ) && *final(field) == *old(field),
        !outdated(old(field)@, update@) ==> done == Ok::<(), ProfileError>(()) && *final(field)
            == update,
{
    update_any(field, update)
}

/// What the rules make of the proposed attribute `update`, where `field` is
/// the current one: see [`operation`].
pub fn allowed_operation<A: ProfileAttribute>(
    field: &A,
    update: &A,
    create: &Publishers,
    change: &Publishers,
) -> (op: Result<Operation, ProfileError>)
    ensures
        op == operation(field@, update@, create@, change@),
{
    let same = field.same_value(update);
    let current = field.metadata();
    let proposed = update.metadata();
    let same_display = match (current.display, proposed.display) {
        (Some(a), Some(b)) => a == b,
        (None, None) => true,
        _ => false,
    };
    if same && same_display && current.verified == proposed.verified {
        return Ok(Operation::Noop);
    }
    if !field.has_value() {
        if !update.has_value() {
            Ok(Operation::Noop)
        } else if update_allowed(update, create) {
            Ok(Operation::Create)
        } else {
            Err(ProfileError::PublisherNotAllowedToCreate)
        }
    } else {
        let publisher = update.publisher();
        if update_allowed(update, change) || (same && !same_display && allowed_updator(
            &publisher,
        )) {
            Ok(Operation::Update)
        } else {
            Err(ProfileError::PublisherNotAllowedToUpdate)
        }
    }
}

/// Authorizes the proposed attribute `update` against the current one `field`
/// and, where it is allowed and not older, puts it in the place of `field`.
/// Where it is refused, `field` stays as it is.
pub fn update_allowed_any<A: ProfileAttribute>(
    field: &mut A,
    update: A,
    create: &Publishers,
    change: &Publishers,
) -> (done: Result<(), ProfileError>)
    ensures
        match verdict(old(field)@, update@, create@, change@) {
            Ok(Operation::Noop) => done is Ok && *final(field) == *old(field),
            Ok(_) => done is Ok && *final(field) == update,
            Err(e) => done == Err::<(), ProfileError>(e) && *final(field) == *old(field),
        },
{
    match allowed_operation(field, &update, create, change) {
        Ok(Operation::Create) => update_any(field, update),
        Ok(Operation::Update) => update_any(field, update),
        Ok(Operation::Noop) => Ok(()),
        Err(e) => Err(e),
    }
}


/// Whether an update of `p` by `u` accepts every attribute whose place is
/// before `place`.
#[verifier::opaque]
spec fn accepts_before(rules: PublisherRules, p: Profile, u: Profile, place: nat) -> bool {
    accepted_before(rules, p@, u@, place)
}

/// Whether an update of `p` by `u` refuses some attribute first, with `error`.
#[verifier::opaque]
spec fn refuses(rules: PublisherRules, p: Profile, u: Profile, error: ProfileError) -> bool {
    exists|path: AttributePath| rejected_at(rules, p@, u@, path, error)
}

/// The attribute at `path` after an update of `p` by `u` that was accepted.
#[verifier::opaque]
spec fn merged_at(rules: PublisherRules, p: Profile, u: Profile, path: AttributePath) -> Attribute {
    merge(rules, p@, u@)[path]
}

/// One step of an update of `p` by `u`: the attribute at `path`, after every
/// attribute before it was accepted. Hands out the attribute that stands there
/// after the update.
fn step<A: ProfileAttribute>(
    field: A,
    update: A,
    create: &Publishers,
    change: &Publishers,
    Ghost(rules): Ghost<PublisherRules>,
    Ghost(p): Ghost<Profile>,
    Ghost(u): Ghost<Profile>,
    Ghost(path): Ghost<AttributePath>,
) -> (done: Result<A, ProfileError>)
    requires
        accepts_before(rules, p, u, path.index()),
        p.attribute(path) == field@,
        u.attribute(path) == update@,
        rules.create.allowed(path) == create@,
        rules.update.allowed(path) == change@,
    ensures
        match done {
            Ok(attribute) => accepts_before(rules, p, u, path.index() + 1) && attribute@
                == merged_at(rules, p, u, path),
            Err(e) => refuses(rules, p, u, e),
        },
{
    reveal(accepts_before);
    reveal(refuses);
    reveal(merged_at);
    let mut field = field;
    let done = update_allowed_any(&mut field, update, create, change);
    proof {
        if done is Ok {
            assert forall|other: AttributePath| other.index() < path.index() + 1 implies (
            #[trigger] verdict_at(rules, p@, u@, other)) is Ok by {
                if other.index() == path.index() {
                    other.lemma_path_has_a_place();
                    path.lemma_path_has_a_place();
                }
            }
        } else {
            assert(rejected_at(rules, p@, u@, path, done->Err_0));
        }
    }
    match done {
        Ok(()) => Ok(field),
        Err(e) => Err(e),
    }
}

/// The steps of an update for the identities, after every attribute before
/// them was accepted. Hands out the identities that stand after the update.
fn update_identities(
    p: Identities,
    u: Identities,
    create: &IdentityRules,
    change: &IdentityRules,
    Ghost(rules): Ghost<PublisherRules>,
    Ghost(current): Ghost<Profile>,
    Ghost(proposed): Ghost<Profile>,
) -> (done: Result<Identities, ProfileError>)
    requires
        accepts_before(rules, current, proposed, 24),
        current.identities == p,
        proposed.identities == u,
        rules.create.identities == *create,
        rules.update.identities == *change,
    ensures
        match done {
            Ok(group) => accepts_before(rules, current, proposed, 40) && forall|path: IdentityPath| #[trigger]
                group.attribute(path) == merged_at(rules, current, proposed, AttributePath::Identities(path)),
            Err(e) => refuses(rules, current, proposed, e),
        },
{
    let github_id_v3 = step(
        p.github_id_v3,
        u.github_id_v3,
        &create.github_id_v3,
        &change.github_id_v3,
        Ghost(rules),
        Ghost(current),
        Ghost(proposed),
        Ghost(AttributePath::Identities(IdentityPath::GithubIdV3)),
    )?;
    let github_id_v4 = step(
        p.github_id_v4,
        u.github_id_v4,
        &create.github_id_v4,
        &change.github_id_v4,
        Ghost(rules),
        Ghost(current),
        Ghost(proposed),
        Ghost(AttributePath::Identities(IdentityPath::GithubIdV4)),
    )?;
    let github_primary_email = step(
        p.github_primary_email,
        u.github_primary_email,
        &create.github_primary_email,
        &change.github_primary_email,
        Ghost(rules),
        Ghost(current),
        Ghost(proposed),
        Ghost(AttributePath::Identities(IdentityPath::GithubPrimaryEmail)),
    )?;
    let mozilliansorg_id = step(
        p.mozilliansorg_id,
        u.mozilliansorg_id,
        &create.mozilliansorg_id,
        &change.mozilliansorg_id,
        Ghost(rules),
        Ghost(current),
        Ghost(proposed),
        Ghost(AttributePath::Identities(IdentityPath::MozilliansorgId)),
    )?;
    let bugzilla_mozilla_org_id = step(
        p.bugzilla_mozilla_org_id,
        u.bugzilla_mozilla_org_id,
        &create.bugzilla_mozilla_org_id,
        &change.bugzilla_mozilla_org_id,
        Ghost(rules),
        Ghost(current),
        Ghost(proposed),
        Ghost(AttributePath::Identities(IdentityPath::BugzillaMozillaOrgId)),
    )?;
    let bugzilla_mozilla_org_primary_email = step(
        p.bugzilla_mozilla_org_primary_email,
        u.bugzilla_mozilla_org_primary_email,
        &create.bugzilla_mozilla_org_primary_email,
        &change.bugzilla_mozilla_org_primary_email,
        Ghost(rules),
        Ghost(current),
        Ghost(proposed),
        Ghost(AttributePath::Identities(IdentityPath::BugzillaMozillaOrgPrimaryEmail)),
    )?;
    let mozilla_ldap_id = step(
        p.mozilla_ldap_id,
        u.mozilla_ldap_id,
        &create.mozilla_ldap_id,
        &change.mozilla_ldap_id,
        Ghost(rules),
        Ghost(current),
        Ghost(proposed),
        Ghost(AttributePath::Identities(IdentityPath::MozillaLdapId)),
    )?;
    let mozilla_ldap_primary_email = step(
        p.mozilla_ldap_primary_email,
        u.mozilla_ldap_primary_email,
        &create.mozilla_ldap_primary_email,
        &change.mozilla_ldap_primary_email,
        Ghost(rules),
        Ghost(current),
        Ghost(proposed),
        Ghost(AttributePath::Identities(IdentityPath::MozillaLdapPrimaryEmail)),
    )?;
    let mozilla_posix_id = step(
        p.mozilla_posix_id,
        u.mozilla_posix_id,
        &create.mozilla_posix_id,
        &change.mozilla_posix_id,
        Ghost(rules),
        Ghost(current),
        Ghost(proposed),
        Ghost(AttributePath::Identities(IdentityPath::MozillaPosixId)),
    )?;
    let google_oauth2_id = step(
        p.google_oauth2_id,
        u.google_oauth2_id,
        &create.google_oauth2_id,
        &change.google_oauth2_id,
        Ghost(rules),
        Ghost(current),
        Ghost(proposed),
        Ghost(AttributePath::Identities(IdentityPath::GoogleOauth2Id)),
    )?;
    let google_primary_email = step(
        p.google_primary_email,
        u.google_primary_email,
        &create.google_primary_email,
        &change.google_primary_email,
        Ghost(rules),
        Ghost(current),
        Ghost(proposed),
        Ghost(AttributePath::Identities(IdentityPath::GooglePrimaryEmail)),
    )?;
    let firefox_accounts_id = step(
        p.firefox_accounts_id,
        u.firefox_accounts_id,
        &create.firefox_accounts_id,
        &change.firefox_accounts_id,
        Ghost(rules),
        Ghost(current),
        Ghost(proposed),
        Ghost(AttributePath::Identities(IdentityPath::FirefoxAccountsId)),
    )?;
    let firefox_accounts_primary_email = step(
        p.firefox_accounts_primary_email,
        u.firefox_accounts_primary_email,
        &create.firefox_accounts_primary_email,
        &change.firefox_accounts_primary_email,
        Ghost(rules),
        Ghost(current),
        Ghost(proposed),
        Ghost(AttributePath::Identities(IdentityPath::FirefoxAccountsPrimaryEmail)),
    )?;
    let custom_1_primary_email = step(
        p.custom_1_primary_email,
        u.custom_1_primary_email,
        &create.custom_1_primary_email,
        &change.custom_1_primary_email,
        Ghost(rules),
        Ghost(current),
        Ghost(proposed),
        Ghost(AttributePath::Identities(IdentityPath::Custom1PrimaryEmail)),
    )?;
    let custom_2_primary_email = step(
        p.custom_2_primary_email,
        u.custom_2_primary_email,
        &create.custom_2_primary_email,
        &change.custom_2_primary_email,
        Ghost(rules),
        Ghost(current),
        Ghost(proposed),
        Ghost(AttributePath::Identities(IdentityPath::Custom2PrimaryEmail)),
    )?;
    let custom_3_primary_email = step(
        p.custom_3_primary_email,
        u.custom_3_primary_email,
        &create.custom_3_primary_email,
        &change.custom_3_primary_email,
        Ghost(rules),
        Ghost(current),
        Ghost(proposed),
        Ghost(AttributePath::Identities(IdentityPath::Custom3PrimaryEmail)),
    )?;
    Ok(Identities {
        github_id_v3,
        github_id_v4,
        github_primary_email,
        mozilliansorg_id,
        bugzilla_mozilla_org_id,
        bugzilla_mozilla_org_primary_email,
        mozilla_ldap_id,
        mozilla_ldap_primary_email,
        mozilla_posix_id,
        google_oauth2_id,
        google_primary_email,
        firefox_accounts_id,
        firefox_accounts_primary_email,
        custom_1_primary_email,
        custom_2_primary_email,
        custom_3_primary_email,
    })
}

/// The steps of an update for the access information, after every attribute before
/// them was accepted. Hands out the access information that stand after the update.
fn update_access_information(
    p: AccessInformation,
    u: AccessInformation,
    create: &AccessInformationRules,
    change: &AccessInformationRules,
    Ghost(rules): Ghost<PublisherRules>,
    Ghost(current): Ghost<Profile>,
    Ghost(proposed): Ghost<Profile>,
) -> (done: Result<AccessInformation, ProfileError>)
    requires
        accepts_before(rules, current, proposed, 40),
        current.access_information == p,
        proposed.access_information == u,
        rules.create.access_information == *create,
        rules.update.access_information == *change,
    ensures
        match done {
            Ok(group) => accepts_before(rules, current, proposed, 44) && forall|path: AccessPath| #[trigger]
                group.attribute(path) == merged_at(rules, current, proposed, AttributePath::AccessInformation(path)),
            Err(e) => refuses(rules, current, proposed, e),
        },
{
    let access_provider = step(
        p.access_provider,
        u.access_provider,
        &create.access_provider,
        &change.access_provider,
        Ghost(rules),
        Ghost(current),
        Ghost(proposed),
        Ghost(AttributePath::AccessInformation(AccessPath::AccessProvider)),
    )?;
    let ldap = step(
        p.ldap,
        u.ldap,
        &create.ldap,
        &change.ldap,
        Ghost(rules),
        Ghost(current),
        Ghost(proposed),
        Ghost(AttributePath::AccessInformation(AccessPath::Ldap)),
    )?;
    let hris = step(
        p.hris,
        u.hris,
        &create.hris,
        &change.hris,
        Ghost(rules),
        Ghost(current),
        Ghost(proposed),
        Ghost(AttributePath::AccessInformation(AccessPath::Hris)),
    )?;
    let mozilliansorg = step(
        p.mozilliansorg,
        u.mozilliansorg,
        &create.mozilliansorg,
        &change.mozilliansorg,
        Ghost(rules),
        Ghost(current),
        Ghost(proposed),
        Ghost(AttributePath::AccessInformation(AccessPath::Mozilliansorg)),
    )?;
    Ok(AccessInformation {
        access_provider,
        ldap,
        hris,
        mozilliansorg,
    })
}

/// The steps of an update for the staff information, after every attribute before
/// them was accepted. Hands out the staff information that stand after the update.
fn update_staff_information(
    p: StaffInformation,
    u: StaffInformation,
    create: &StaffInformationRules,
    change: &StaffInformationRules,
    Ghost(rules): Ghost<PublisherRules>,
    Ghost(current): Ghost<Profile>,
    Ghost(proposed): Ghost<Profile>,
) -> (done: Result<StaffInformation, ProfileError>)
    requires
        accepts_before(rules, current, proposed, 44),
        current.staff_information == p,
        proposed.staff_information == u,
        rules.create.staff_information == *create,
        rules.update.staff_information == *change,
    ensures
        match done {
            Ok(group) => accepts_before(rules, current, proposed, 53) && forall|path: StaffPath| #[trigger]
                group.attribute(path) == merged_at(rules, current, proposed, AttributePath::StaffInformation(path)),
            Err(e) => refuses(rules, current, proposed, e),
        },
{
    let manager = step(
        p.manager,
        u.manager,
        &create.manager,
        &change.manager,
        Ghost(rules),
        Ghost(current),
        Ghost(proposed),
        Ghost(AttributePath::StaffInformation(StaffPath::Manager)),
    )?;
    let director = step(
        p.director,
        u.director,
        &create.director,
        &change.director,
        Ghost(rules),
        Ghost(current),
        Ghost(proposed),
        Ghost(AttributePath::StaffInformation(StaffPath::Director)),
    )?;
    let staff = step(
        p.staff,
        u.staff,
        &create.staff,
        &change.staff,
        Ghost(rules),
        Ghost(current),
        Ghost(proposed),
        Ghost(AttributePath::StaffInformation(StaffPath::Staff)),
    )?;
    let title = step(
        p.title,
        u.title,
        &create.title,
        &change.title,
        Ghost(rules),
        Ghost(current),
        Ghost(proposed),
        Ghost(AttributePath::StaffInformation(StaffPath::Title)),
    )?;
    let team = step(
        p.team,
        u.team,
        &create.team,
        &change.team,
        Ghost(rules),
        Ghost(current),
        Ghost(proposed),
        Ghost(AttributePath::StaffInformation(StaffPath::Team)),
    )?;
    let cost_center = step(
        p.cost_center,
        u.cost_center,
        &create.cost_center,
        &change.cost_center,
        Ghost(rules),
        Ghost(current),
        Ghost(proposed),
        Ghost(AttributePath::StaffInformation(StaffPath::CostCenter)),
    )?;
    let worker_type = step(
        p.worker_type,
        u.worker_type,
        &create.worker_type,
        &change.worker_type,
        Ghost(rules),
        Ghost(current),
        Ghost(proposed),
        Ghost(AttributePath::StaffInformation(StaffPath::WorkerType)),
    )?;
    let wpr_desk_number = step(
        p.wpr_desk_number,
        u.wpr_desk_number,
        &create.wpr_desk_number,
        &change.wpr_desk_number,
        Ghost(rules),
        Ghost(current),
        Ghost(proposed),
        Ghost(AttributePath::StaffInformation(StaffPath::WprDeskNumber)),
    )?;
    let office_location = step(
        p.office_location,
        u.office_location,
        &create.office_location,
        &change.office_location,
        Ghost(rules),
        Ghost(current),
        Ghost(proposed),
        Ghost(AttributePath::StaffInformation(StaffPath::OfficeLocation)),
    )?;
    Ok(StaffInformation {
        manager,
        director,
        staff,
        title,
        team,
        cost_center,
        worker_type,
        wpr_desk_number,
        office_location,
    })
}

/// The steps of an update of `p` by `u`, in the order of the paths.
fn update_attributes(p: Profile, u: Profile, rules: &PublisherRules) -> (done: Result<
    Profile,
    ProfileError,
>)
    ensures
        match done {
            Ok(profile) => accepts_before(*rules, p, u, 53) && forall|path: AttributePath| #[trigger]
                profile.attribute(path) == merged_at(*rules, p, u, path),
            Err(e) => refuses(*rules, p, u, e),
        },
{
    let ghost current = p;
    let ghost proposed = u;
    let create = &rules.create;
    let change = &rules.update;
    let ghost rules = *rules;
    assert(accepts_before(rules, current, proposed, 0)) by {
        reveal(accepts_before);
    }
    let uuid = step(
        p.uuid,
        u.uuid,
        &create.uuid,
        &change.uuid,
        Ghost(rules),
        Ghost(current),
        Ghost(proposed),
        Ghost(AttributePath::Uuid),
    )?;
    let user_id = step(
        p.user_id,
        u.user_id,
        &create.user_id,
        &change.user_id,
        Ghost(rules),
        Ghost(current),
        Ghost(proposed),
        Ghost(AttributePath::UserId),
    )?;
    let primary_username = step(
        p.primary_username,
        u.primary_username,
        &create.primary_username,
        &change.primary_username,
        Ghost(rules),
        Ghost(current),
        Ghost(proposed),
        Ghost(AttributePath::PrimaryUsername),
    )?;
    let login_method = step(
        p.login_method,
        u.login_method,
        &create.login_method,
        &change.login_method,
        Ghost(rules),
        Ghost(current),
        Ghost(proposed),
        Ghost(AttributePath::LoginMethod),
    )?;
    let active = step(
        p.active,
        u.active,
        &create.active,
        &change.active,
        Ghost(rules),
        Ghost(current),
        Ghost(proposed),
        Ghost(AttributePath::Active),
    )?;
    let last_modified = step(
        p.last_modified,
        u.last_modified,
        &create.last_modified,
        &change.last_modified,
        Ghost(rules),
        Ghost(current),
        Ghost(proposed),
        Ghost(AttributePath::LastModified),
    )?;
    let created = step(
        p.created,
        u.created,
        &create.created,
        &change.created,
        Ghost(rules),
        Ghost(current),
        Ghost(proposed),
        Ghost(AttributePath::Created),
    )?;
    let usernames = step(
        p.usernames,
        u.usernames,
        &create.usernames,
        &change.usernames,
        Ghost(rules),
        Ghost(current),
        Ghost(proposed),
        Ghost(AttributePath::Usernames),
    )?;
    let pronouns = step(
        p.pronouns,
        u.pronouns,
        &create.pronouns,
        &change.pronouns,
        Ghost(rules),
        Ghost(current),
        Ghost(proposed),
        Ghost(AttributePath::Pronouns),
    )?;
    let first_name = step(
        p.first_name,
        u.first_name,
        &create.first_name,
        &change.first_name,
        Ghost(rules),
        Ghost(current),
        Ghost(proposed),
        Ghost(AttributePath::FirstName),
    )?;
    let last_name = step(
        p.last_name,
        u.last_name,
        &create.last_name,
        &change.last_name,
        Ghost(rules),
        Ghost(current),
        Ghost(proposed),
        Ghost(AttributePath::LastName),
    )?;
    let alternative_name = step(
        p.alternative_name,
        u.alternative_name,
        &create.alternative_name,
        &change.alternative_name,
        Ghost(rules),
        Ghost(current),
        Ghost(proposed),
        Ghost(AttributePath::AlternativeName),
    )?;
    let primary_email = step(
        p.primary_email,
        u.primary_email,
        &create.primary_email,
        &change.primary_email,
        Ghost(rules),
        Ghost(current),
        Ghost(proposed),
        Ghost(AttributePath::PrimaryEmail),
    )?;
    let ssh_public_keys = step(
        p.ssh_public_keys,
        u.ssh_public_keys,
        &create.ssh_public_keys,
        &change.ssh_public_keys,
        Ghost(rules),
        Ghost(current),
        Ghost(proposed),
        Ghost(AttributePath::SshPublicKeys),
    )?;
    let pgp_public_keys = step(
        p.pgp_public_keys,
        u.pgp_public_keys,
        &create.pgp_public_keys,
        &change.pgp_public_keys,
        Ghost(rules),
        Ghost(current),
        Ghost(proposed),
        Ghost(AttributePath::PgpPublicKeys),
    )?;
    let fun_title = step(
        p.fun_title,
        u.fun_title,
        &create.fun_title,
        &change.fun_title,
        Ghost(rules),
        Ghost(current),
        Ghost(proposed),
        Ghost(AttributePath::FunTitle),
    )?;
    let description = step(
        p.description,
        u.description,
        &create.description,
        &change.description,
        Ghost(rules),
        Ghost(current),
        Ghost(proposed),
        Ghost(AttributePath::Description),
    )?;
    let location = step(
        p.location,
        u.location,
        &create.location,
        &change.location,
        Ghost(rules),
        Ghost(current),
        Ghost(proposed),
        Ghost(AttributePath::Location),
    )?;
    let timezone = step(
        p.timezone,
        u.timezone,
        &create.timezone,
        &change.timezone,
        Ghost(rules),
        Ghost(current),
        Ghost(proposed),
        Ghost(AttributePath::Timezone),
    )?;
    let languages = step(
        p.languages,
        u.languages,
        &create.languages,
        &change.languages,
        Ghost(rules),
        Ghost(current),
        Ghost(proposed),
        Ghost(AttributePath::Languages),
    )?;
    let tags = step(
        p.tags,
        u.tags,
        &create.tags,
        &change.tags,
        Ghost(rules),
        Ghost(current),
        Ghost(proposed),
        Ghost(AttributePath::Tags),
    )?;
    let picture = step(
        p.picture,
        u.picture,
        &create.picture,
        &change.picture,
        Ghost(rules),
        Ghost(current),
        Ghost(proposed),
        Ghost(AttributePath::Picture),
    )?;
    let uris = step(
        p.uris,
        u.uris,
        &create.uris,
        &change.uris,
        Ghost(rules),
        Ghost(current),
        Ghost(proposed),
        Ghost(AttributePath::Uris),
    )?;
    let phone_numbers = step(
        p.phone_numbers,
        u.phone_numbers,
        &create.phone_numbers,
        &change.phone_numbers,
        Ghost(rules),
        Ghost(current),
        Ghost(proposed),
        Ghost(AttributePath::PhoneNumbers),
    )?;
    let identities = update_identities(
        p.identities,
        u.identities,
        &create.identities,
        &change.identities,
        Ghost(rules),
        Ghost(current),
        Ghost(proposed),
    )?;
    let access_information = update_access_information(
        p.access_information,
        u.access_information,
        &create.access_information,
        &change.access_information,
        Ghost(rules),
        Ghost(current),
        Ghost(proposed),
    )?;
    let staff_information = update_staff_information(
        p.staff_information,
        u.staff_information,
        &create.staff_information,
        &change.staff_information,
        Ghost(rules),
        Ghost(current),
        Ghost(proposed),
    )?;
    Ok(Profile {
        uuid,
        user_id,
        primary_username,
        login_method,
        active,
        last_modified,
        created,
        usernames,
        pronouns,
        first_name,
        last_name,
        alternative_name,
        primary_email,
        ssh_public_keys,
        pgp_public_keys,
        fun_title,
        description,
        location,
        timezone,
        languages,
        tags,
        picture,
        uris,
        phone_numbers,
        identities,
        access_information,
        staff_information,
    })
}

/// Authorizes the proposed profile `u` against the current profile `p` and
/// merges what is allowed.
///
/// The attributes are taken in the order of their paths. Each is judged by
/// [`verdict`]. The first that is refused ends the update with its error, and
/// nothing of the merge is handed out. Where none is refused, the result is the
/// current profile with every attribute that was created or changed replaced
/// by the proposed one.
pub fn update(p: Profile, u: Profile, rules: &PublisherRules) -> (authorized: Result<
    Profile,
    ProfileError,
>)
    ensures
        authorized is Ok <==> accepted(*rules, p@, u@),
        match authorized {
            Ok(profile) => profile@ == merge(*rules, p@, u@),
            Err(e) => exists|path: AttributePath| rejected_at(*rules, p@, u@, path, e),
        },
{
    let ghost current = p@;
    let ghost proposed = u@;
    let authorized = update_attributes(p, u, rules);
    proof {
        reveal(accepts_before);
        reveal(refuses);
        reveal(merged_at);
        if authorized is Ok {
            let profile = authorized->Ok_0;
            assert forall|path: AttributePath| (#[trigger] verdict_at(
                *rules,
                current,
                proposed,
                path,
            )) is Ok by {
                path.lemma_path_has_a_place();
            }
            assert(profile@ =~= merge(*rules, current, proposed));
        } else {
            let e = authorized->Err_0;
            let path = choose|path: AttributePath| rejected_at(*rules, current, proposed, path, e);
            lemma_first_rejection_is_unique(*rules, current, proposed, path, e, path, e);
        }
    }
    authorized
}

/// An update refuses at most one attribute first, and for one reason: where it
/// accepts every attribute it refuses none.
pub proof fn lemma_first_rejection_is_unique(
    rules: PublisherRules,
    current: Map<AttributePath, Attribute>,
    proposed: Map<AttributePath, Attribute>,
    first: AttributePath,
    error: ProfileError,
    other: AttributePath,
    other_error: ProfileError,
)
    requires
        rejected_at(rules, current, proposed, first, error),
    ensures
        !accepted(rules, current, proposed),
        rejected_at(rules, current, proposed, other, other_error) ==> other == first && other_error
            == error,
{
    if rejected_at(rules, current, proposed, other, other_error) {
        first.lemma_path_has_a_place();
        other.lemma_path_has_a_place();
        if first.index() < other.index() {
            assert(verdict_at(rules, current, proposed, first) is Ok);
        } else if other.index() < first.index() {
            assert(verdict_at(rules, current, proposed, other) is Ok);
        }
    }
    assert(!(verdict_at(rules, current, proposed, first) is Ok));
}

/// An update that is not accepted refuses some attribute first.
pub proof fn lemma_refused_somewhere(
    rules: PublisherRules,
    current: Map<AttributePath, Attribute>,
    proposed: Map<AttributePath, Attribute>,
)
    requires
        !accepted(rules, current, proposed),
    ensures
        exists|path: AttributePath, error: ProfileError|
            rejected_at(rules, current, proposed, path, error),
{
    lemma_refused_from(rules, current, proposed, 0);
}

/// Where every attribute before `place` is accepted and not every attribute
/// is, some attribute is refused first.
proof fn lemma_refused_from(
    rules: PublisherRules,
    current: Map<AttributePath, Attribute>,
    proposed: Map<AttributePath, Attribute>,
    place: nat,
)
    requires
        !accepted(rules, current, proposed),
        accepted_before(rules, current, proposed, place),
        place <= attribute_count(),
    ensures
        exists|path: AttributePath, error: ProfileError|
            rejected_at(rules, current, proposed, path, error),
    decreases attribute_count() - place,
{
    if place == attribute_count() {
        assert forall|path: AttributePath| (#[trigger] verdict_at(
            rules,
            current,
            proposed,
            path,
        )) is Ok by {
            path.lemma_path_has_a_place();
        }
    } else {
        let path = AttributePath::at(place);
        AttributePath::lemma_place_has_a_path(place);
        match verdict_at(rules, current, proposed, path) {
            Ok(_) => {
                assert forall|other: AttributePath| other.index() < place + 1 implies (
                #[trigger] verdict_at(rules, current, proposed, other)) is Ok by {
                    if other.index() == place {
                        other.lemma_path_has_a_place();
                    }
                }
                lemma_refused_from(rules, current, proposed, place + 1);
            },
            Err(error) => {
                assert(rejected_at(rules, current, proposed, path, error));
            },
        }
    }
}

/// An update that changes no value, no display and no verification is accepted
/// whatever the rules say, and leaves the current profile as it is.
pub proof fn lemma_update_without_change(rules: PublisherRules, p: Profile, u: Profile)
    requires
        forall|path: AttributePath| unchanged(#[trigger] p@[path], u@[path]),
    ensures
        accepted(rules, p@, u@),
        merge(rules, p@, u@) == p@,
        forall|path: AttributePath| #[trigger]
            verdict_at(rules, p@, u@, path) == Ok::<Operation, ProfileError>(Operation::Noop),
{
    assert forall|path: AttributePath| #[trigger]
        verdict_at(rules, p@, u@, path) == Ok::<Operation, ProfileError>(Operation::Noop) by {
        assert(unchanged(p@[path], u@[path]));
    }
    assert(merge(rules, p@, u@) =~= p@);
}

/// A value where there was none needs a publisher that may create: without
/// one the attribute is refused, and with one the proposed attribute is taken
/// as it is, unless it is the older of the two.
pub proof fn lemma_creation_needs_an_allowed_publisher(
    current: Attribute,
    proposed: Attribute,
    create: Set<PublisherAuthority>,
    change: Set<PublisherAuthority>,
)
    requires
        current.value is None,
        proposed.value is Some,
    ensures
        !create.contains(proposed.publisher) ==> verdict(current, proposed, create, change) == Err::<
            Operation,
            ProfileError,
        >(ProfileError::PublisherNotAllowedToCreate),
        create.contains(proposed.publisher) && !outdated(current, proposed) ==> verdict(
            current,
            proposed,
            create,
            change,
        ) == Ok::<Operation, ProfileError>(Operation::Create) && merged(
            current,
            proposed,
            create,
            change,
        ) == proposed,
{
}

/// An update of a profile without values that proposes one attribute, and for
/// every other attribute a change of nothing or no value: it is refused at that
/// attribute where the publisher may not create it, and else, unless the
/// proposed attribute is the older, it is accepted and puts the proposed
/// attribute in its place and leaves every other as it was.
pub proof fn lemma_first_value_in_an_empty_profile(
    rules: PublisherRules,
    p: Profile,
    u: Profile,
    path: AttributePath,
)
    requires
        forall|other: AttributePath| (#[trigger] p@[other]).value is None,
        u@[path].value is Some,
        forall|other: AttributePath|
            other != path ==> unchanged(p@[other], #[trigger] u@[other]) || u@[other].value
                is None,
    ensures
        !rules.create@[path].contains(u@[path].publisher) ==> rejected_at(
            rules,
            p@,
            u@,
            path,
            ProfileError::PublisherNotAllowedToCreate,
        ),
        rules.create@[path].contains(u@[path].publisher) && !outdated(p@[path], u@[path])
            ==> accepted(rules, p@, u@) && merge(rules, p@, u@) == p@.insert(path, u@[path]),
{
    assert forall|other: AttributePath| other != path implies #[trigger] verdict_at(
        rules,
        p@,
        u@,
        other,
    ) == Ok::<Operation, ProfileError>(Operation::Noop) by {
        assert(p@[other].value is None);
        assert(unchanged(p@[other], u@[other]) || u@[other].value is None);
    }
    assert(p@[path].value is None);
    lemma_creation_needs_an_allowed_publisher(p@[path], u@[path], rules.create@[path], rules.update@[path]);
    if rules.create@[path].contains(u@[path].publisher) && !outdated(p@[path], u@[path]) {
        assert(merge(rules, p@, u@) =~= p@.insert(path, u@[path]));
    }
}

/// A change of the display alone, by a publisher that may not change the
/// attribute: it is refused unless the publisher is one that may change the
/// display, and then the proposed attribute is taken as it is, unless it is the
/// older of the two.
pub proof fn lemma_display_alone_needs_an_allowed_updator(
    current: Attribute,
    proposed: Attribute,
    create: Set<PublisherAuthority>,
    change: Set<PublisherAuthority>,
)
    requires
        current.value is Some,
        proposed.value == current.value,
        proposed.metadata.display != current.metadata.display,
        !change.contains(proposed.publisher),
    ensures
        !is_allowed_updator(proposed.publisher) ==> verdict(current, proposed, create, change)
            == Err::<Operation, ProfileError>(ProfileError::PublisherNotAllowedToUpdate),
        is_allowed_updator(proposed.publisher) && !outdated(current, proposed) ==> verdict(
            current,
            proposed,
            create,
            change,
        ) == Ok::<Operation, ProfileError>(Operation::Update) && merged(
            current,
            proposed,
            create,
            change,
        ) == proposed,
{
}

/// A creation or a change that the rules allow is refused as outdated where
/// the proposed attribute is older than the current one.
pub proof fn lemma_outdated_update_is_refused(
    current: Attribute,
    proposed: Attribute,
    create: Set<PublisherAuthority>,
    change: Set<PublisherAuthority>,
)
    requires
        outdated(current, proposed),
        operation(current, proposed, create, change) is Ok,
        operation(current, proposed, create, change) != Ok::<Operation, ProfileError>(
            Operation::Noop,
        ),
    ensures
        verdict(current, proposed, create, change) == Err::<Operation, ProfileError>(
            ProfileError::OutdatedUpdate,
        ),
{
}

/// An update is refused as outdated at the first attribute that the rules allow
/// to be created or changed and whose proposed attribute is older than the
/// current one, where every attribute before it is accepted.
pub proof fn lemma_outdated_update_of_profile(
    rules: PublisherRules,
    p: Profile,
    u: Profile,
    path: AttributePath,
)
    requires
        accepted_before(rules, p@, u@, path.index()),
        outdated(p@[path], u@[path]),
        operation(p@[path], u@[path], rules.create@[path], rules.update@[path]) is Ok,
        operation(p@[path], u@[path], rules.create@[path], rules.update@[path]) != Ok::<
            Operation,
            ProfileError,
        >(Operation::Noop),
    ensures
        rejected_at(rules, p@, u@, path, ProfileError::OutdatedUpdate),
{
    lemma_outdated_update_is_refused(
        p@[path],
        u@[path],
        rules.create@[path],
        rules.update@[path],
    );
}

/// Whatever an update does, it hands out for every attribute either the
/// current one or the proposed one.
pub proof fn lemma_merge_takes_one_of_the_two(
    rules: PublisherRules,
    current: Map<AttributePath, Attribute>,
    proposed: Map<AttributePath, Attribute>,
    path: AttributePath,
)
    ensures
        merge(rules, current, proposed)[path] == current[path] || merge(
            rules,
            current,
            proposed,
        )[path] == proposed[path],
{
}

} // verus!
