use dino_park_cis::error::ProfileError;
use dino_park_cis::profile::key_value::KeyValue;
use dino_park_cis::profile::publishers::AccessInformationRules;
use dino_park_cis::profile::publishers::IdentityRules;
use dino_park_cis::profile::publishers::Publisher;
use dino_park_cis::profile::publishers::PublisherRules;
use dino_park_cis::profile::publishers::Publishers;
use dino_park_cis::profile::publishers::Rules;
use dino_park_cis::profile::publishers::StaffInformationRules;
use dino_park_cis::profile::schema::Display;
use dino_park_cis::profile::schema::Profile;
use dino_park_cis::profile::schema::PublisherAuthority;
use dino_park_cis::profile::schema::StandardAttributeString;
use dino_park_cis::profile::time::Timestamp;
use dino_park_cis::profile::update::allowed_operation;
use dino_park_cis::profile::update::allowed_updator;
use dino_park_cis::profile::update::update;
use dino_park_cis::profile::update::update_allowed;
use dino_park_cis::profile::update::update_allowed_any;
use dino_park_cis::profile::update::update_any;
use dino_park_cis::profile::update::update_saac;
use dino_park_cis::profile::update::update_sab;
use dino_park_cis::profile::update::update_sas;
use dino_park_cis::profile::update::update_sav;
use dino_park_cis::profile::update::Operation;

/// A rule set in the manner of the one that is published: users change what
/// describes them through `mozilliansorg`, and the directories own the rest.
fn rules() -> PublisherRules {
    let mut create = Rules::same(Publisher::Mozilliansorg);
    create.uuid = Publishers::One(Publisher::Cis);
    create.user_id = Publishers::Many(vec![
        PublisherAuthority::Ldap,
        PublisherAuthority::AccessProvider,
    ]);
    create.primary_username = Publishers::One(Publisher::Cis);
    create.primary_email = Publishers::Many(vec![
        PublisherAuthority::Ldap,
        PublisherAuthority::AccessProvider,
    ]);
    create.active = Publishers::Many(vec![
        PublisherAuthority::Ldap,
        PublisherAuthority::AccessProvider,
    ]);
    create.staff_information = StaffInformationRules::same(Publisher::Hris);
    create.access_information = AccessInformationRules {
        access_provider: Publishers::One(Publisher::AccessProvider),
        ldap: Publishers::One(Publisher::Ldap),
        hris: Publishers::One(Publisher::Hris),
        mozilliansorg: Publishers::One(Publisher::Mozilliansorg),
    };
    let mut change = Rules::same(Publisher::Mozilliansorg);
    change.uuid = Publishers::One(Publisher::Nobody);
    change.user_id = Publishers::One(Publisher::Nobody);
    change.primary_username = Publishers::One(Publisher::Mozilliansorg);
    change.primary_email = Publishers::One(Publisher::AccessProvider);
    change.active = Publishers::Many(vec![
        PublisherAuthority::Ldap,
        PublisherAuthority::AccessProvider,
    ]);
    change.identities = IdentityRules::from_str("mozilliansorg").unwrap();
    change.staff_information = StaffInformationRules::from_str("hris").unwrap();
    change.access_information = AccessInformationRules {
        access_provider: Publishers::One(Publisher::AccessProvider),
        ldap: Publishers::One(Publisher::Ldap),
        hris: Publishers::One(Publisher::Hris),
        mozilliansorg: Publishers::One(Publisher::Mozilliansorg),
    };
    PublisherRules {
        create,
        update: change,
    }
}

fn text(value: &str, publisher: PublisherAuthority, secs: i64) -> StandardAttributeString {
    let mut attribute = StandardAttributeString::default();
    attribute.value = Some(String::from(value));
    attribute.metadata.last_modified = Timestamp::new(secs, 0);
    attribute.signature.publisher.name = publisher;
    attribute
}

#[test]
fn test_rules() {
    let rules = rules();
    let mut p = Profile::default();
    let mut u = Profile::default();
    u.pronouns.value = Some(String::from("dino"));
    u.pronouns.metadata.last_modified = Timestamp::now();
    u.user_id.value = Some(String::from("dino"));
    u.user_id.metadata.last_modified = Timestamp::now();
    u.identities.github_id_v3.value = Some(String::from("dino"));
    u.identities.github_id_v3.metadata.last_modified = Timestamp::now();
    assert!(update_allowed(&p.pronouns, &rules.update.pronouns));
    assert!(update_allowed_any(
        &mut p.identities.github_id_v4,
        u.identities.github_id_v4,
        &rules.create.identities.github_id_v4,
        &rules.update.identities.github_id_v4
    )
    .is_ok());
    assert!(update_allowed_any(
        &mut p.identities.github_id_v3,
        u.identities.github_id_v3,
        &rules.create.identities.github_id_v3,
        &rules.update.identities.github_id_v3
    )
    .is_ok());
    assert!(update_allowed_any(
        &mut p.pronouns,
        u.pronouns,
        &rules.create.pronouns,
        &rules.update.pronouns
    )
    .is_ok());
    assert!(update_allowed_any(
        &mut p.user_id,
        u.user_id,
        &rules.create.user_id,
        &rules.update.user_id
    )
    .is_err());
    assert!(!update_allowed(&p.uuid, &rules.update.uuid));
}

#[test]
fn test_create() {
    let p = Profile::default();
    let mut u = Profile::default();
    u.pronouns.value = Some(String::from("dino"));
    u.pronouns.metadata.last_modified = Timestamp::now();
    u.identities.github_id_v3.value = Some(String::from("dino"));
    u.identities.github_id_v3.metadata.last_modified = Timestamp::now();
    let p = update(p, u, &rules()).unwrap();
    assert_eq!(p.pronouns.value, Some(String::from("dino")));
}

#[test]
fn test_updators() {
    let rules = rules();
    let mut o = Profile::default();
    o.primary_email.value = Some(String::from("dino@dino.dino"));
    o.primary_email.metadata.last_modified = Timestamp::now();
    o.primary_email.metadata.display = Some(Display::Staff);
    o.primary_email.signature.publisher.name = PublisherAuthority::Ldap;
    let p = o.clone();
    let u = o.clone();
    assert!(update(p, u, &rules).is_ok());
    let p = o.clone();
    let mut u = o.clone();
    u.primary_email.metadata.display = Some(Display::Public);
    u.primary_email.signature.publisher.name = PublisherAuthority::Ldap;
    assert!(update(p, u, &rules).is_err());
    let p = o.clone();
    let mut u = o.clone();
    u.primary_email.metadata.display = Some(Display::Public);
    u.primary_email.signature.publisher.name = PublisherAuthority::Mozilliansorg;
    update(p, u, &rules).unwrap();
}

#[test]
fn test_update() {
    let rules = rules();
    let mut o = Profile::default();
    o.primary_email.value = Some(String::from("dino@dino.dino"));
    o.primary_email.metadata.last_modified = Timestamp::now();
    o.primary_email.metadata.display = Some(Display::Staff);
    o.primary_email.signature.publisher.name = PublisherAuthority::Ldap;
    let p = o.clone();
    let u = o.clone();
    let p = update(p, u.clone(), &rules).unwrap();
    assert_eq!(p, u);
    let p = o.clone();
    let mut u = o.clone();
    o.primary_email.metadata.last_modified = Timestamp::now();
    u.primary_email.value = Some(String::from("mc@dino.dino"));
    u.primary_email.signature.publisher.name = PublisherAuthority::AccessProvider;
    let p = update(p, u, &rules).unwrap();
    assert_eq!(p.primary_email.value, Some(String::from("mc@dino.dino")));
}

#[test]
fn update_of_identical_profile_changes_nothing() {
    let rules = rules();
    let mut o = Profile::default();
    o.uuid = text("936da01f-9abd-4d9d-80c7-02af85c822a8", PublisherAuthority::Cis, 10);
    o.user_id = text("ad|dino", PublisherAuthority::Ldap, 10);
    o.staff_information.staff.value = Some(true);
    o.staff_information.staff.signature.publisher.name = PublisherAuthority::Hris;
    let mut groups = KeyValue::new();
    groups.insert(String::from("nda"), None);
    o.access_information.mozilliansorg.values = Some(groups);
    let merged = update(o.clone(), o.clone(), &rules).unwrap();
    assert_eq!(merged, o);
}

#[test]
fn update_ignores_what_no_rule_looks_at() {
    // The publisher and the age differ, the value, display and verification
    // do not: nothing is to do, though `ldap` may change no pronouns.
    let rules = rules();
    let mut p = Profile::default();
    p.pronouns = text("they", PublisherAuthority::Mozilliansorg, 100);
    let mut u = p.clone();
    u.pronouns.signature.publisher.name = PublisherAuthority::Ldap;
    u.pronouns.metadata.last_modified = Timestamp::new(5, 0);
    let merged = update(p.clone(), u, &rules).unwrap();
    assert_eq!(merged, p);
    assert_eq!(merged.pronouns.signature.publisher.name, PublisherAuthority::Mozilliansorg);
    assert_eq!(merged.pronouns.metadata.last_modified, Timestamp::new(100, 0));
}

#[test]
fn creation_by_an_unlisted_publisher_is_refused() {
    let rules = rules();
    let p = Profile::default();
    let mut u = Profile::default();
    u.user_id = text("ad|dino", PublisherAuthority::Mozilliansorg, 20);
    assert_eq!(update(p, u, &rules), Err(ProfileError::PublisherNotAllowedToCreate));
}

#[test]
fn creation_takes_value_and_timestamp() {
    let rules = rules();
    let p = Profile::default();
    let mut u = Profile::default();
    u.user_id = text("ad|dino", PublisherAuthority::Ldap, 20);
    u.user_id.metadata.display = Some(Display::Ndaed);
    u.user_id.metadata.verified = true;
    let merged = update(p, u.clone(), &rules).unwrap();
    assert_eq!(merged.user_id, u.user_id);
    assert_eq!(merged.user_id.value, Some(String::from("ad|dino")));
    assert_eq!(merged.user_id.metadata.last_modified, Timestamp::new(20, 0));
    assert_eq!(merged.user_id.signature.publisher.name, PublisherAuthority::Ldap);
    assert_eq!(merged.pronouns, Profile::default().pronouns);
}

#[test]
fn change_by_an_unlisted_publisher_is_refused() {
    let rules = rules();
    let mut p = Profile::default();
    p.primary_email = text("dino@dino.dino", PublisherAuthority::Ldap, 10);
    let mut u = p.clone();
    u.primary_email = text("mc@dino.dino", PublisherAuthority::Ldap, 20);
    assert_eq!(update(p, u, &rules), Err(ProfileError::PublisherNotAllowedToUpdate));
}

#[test]
fn display_alone_is_changed_by_mozilliansorg_only() {
    let rules = rules();
    let mut p = Profile::default();
    p.primary_email = text("dino@dino.dino", PublisherAuthority::Ldap, 10);
    p.primary_email.metadata.display = Some(Display::Staff);
    let mut u = p.clone();
    u.primary_email.metadata.display = Some(Display::Public);
    u.primary_email.signature.publisher.name = PublisherAuthority::Ldap;
    assert_eq!(
        update(p.clone(), u, &rules),
        Err(ProfileError::PublisherNotAllowedToUpdate)
    );
    let mut u = p.clone();
    u.primary_email.metadata.display = Some(Display::Public);
    u.primary_email.signature.publisher.name = PublisherAuthority::Mozilliansorg;
    let merged = update(p, u, &rules).unwrap();
    assert_eq!(merged.primary_email.metadata.display, Some(Display::Public));
    assert_eq!(merged.primary_email.signature.publisher.name, PublisherAuthority::Mozilliansorg);
    assert_eq!(merged.primary_email.value, Some(String::from("dino@dino.dino")));
}

#[test]
fn override_does_not_cover_a_new_value() {
    let rules = rules();
    let mut p = Profile::default();
    p.primary_email = text("dino@dino.dino", PublisherAuthority::Ldap, 10);
    p.primary_email.metadata.display = Some(Display::Staff);
    let mut u = p.clone();
    u.primary_email = text("mc@dino.dino", PublisherAuthority::Mozilliansorg, 10);
    u.primary_email.metadata.display = Some(Display::Public);
    assert_eq!(update(p, u, &rules), Err(ProfileError::PublisherNotAllowedToUpdate));
}

#[test]
fn override_does_not_cover_verification_alone() {
    let rules = rules();
    let mut p = Profile::default();
    p.primary_email = text("dino@dino.dino", PublisherAuthority::Ldap, 10);
    let mut u = p.clone();
    u.primary_email.metadata.verified = true;
    u.primary_email.signature.publisher.name = PublisherAuthority::Mozilliansorg;
    assert_eq!(update(p, u, &rules), Err(ProfileError::PublisherNotAllowedToUpdate));
}

#[test]
fn outdated_update_is_refused() {
    let rules = rules();
    let mut p = Profile::default();
    p.primary_email = text("dino@dino.dino", PublisherAuthority::Ldap, 100);
    let mut u = p.clone();
    u.primary_email = text("mc@dino.dino", PublisherAuthority::AccessProvider, 99);
    assert_eq!(update(p.clone(), u, &rules), Err(ProfileError::OutdatedUpdate));
    let mut u = p.clone();
    u.primary_email = text("mc@dino.dino", PublisherAuthority::AccessProvider, 100);
    u.primary_email.metadata.last_modified = Timestamp::new(99, 999_999_999);
    assert_eq!(update(p.clone(), u, &rules), Err(ProfileError::OutdatedUpdate));
    let mut u = p.clone();
    u.primary_email = text("mc@dino.dino", PublisherAuthority::AccessProvider, 100);
    assert!(update(p, u, &rules).is_ok());
}

#[test]
fn outdated_creation_is_refused() {
    let rules = rules();
    let mut p = Profile::default();
    p.pronouns.metadata.last_modified = Timestamp::new(50, 0);
    let mut u = Profile::default();
    u.pronouns = text("they", PublisherAuthority::Mozilliansorg, 49);
    assert_eq!(update(p, u, &rules), Err(ProfileError::OutdatedUpdate));
}

#[test]
fn authorization_comes_before_age() {
    let rules = rules();
    let mut p = Profile::default();
    p.primary_email = text("dino@dino.dino", PublisherAuthority::Ldap, 100);
    let mut u = p.clone();
    u.primary_email = text("mc@dino.dino", PublisherAuthority::Ldap, 1);
    assert_eq!(update(p, u, &rules), Err(ProfileError::PublisherNotAllowedToUpdate));
}

#[test]
fn first_refusal_in_the_order_of_the_paths_wins() {
    let rules = rules();
    let mut p = Profile::default();
    p.primary_email = text("dino@dino.dino", PublisherAuthority::Ldap, 100);
    p.staff_information.title = text("dino", PublisherAuthority::Hris, 100);
    // user_id comes first and may not be created, primary_email is outdated,
    // the title may not be changed.
    let mut u = p.clone();
    u.user_id = text("ad|dino", PublisherAuthority::Mozilliansorg, 100);
    u.primary_email = text("mc@dino.dino", PublisherAuthority::AccessProvider, 1);
    u.staff_information.title = text("rex", PublisherAuthority::Ldap, 100);
    assert_eq!(update(p.clone(), u, &rules), Err(ProfileError::PublisherNotAllowedToCreate));
    let mut u = p.clone();
    u.primary_email = text("mc@dino.dino", PublisherAuthority::AccessProvider, 1);
    u.staff_information.title = text("rex", PublisherAuthority::Ldap, 100);
    assert_eq!(update(p.clone(), u, &rules), Err(ProfileError::OutdatedUpdate));
    let mut u = p.clone();
    u.staff_information.title = text("rex", PublisherAuthority::Ldap, 100);
    assert_eq!(update(p, u, &rules), Err(ProfileError::PublisherNotAllowedToUpdate));
}

#[test]
fn proposal_without_value_where_there_is_none_is_left_alone() {
    let rules = rules();
    let p = Profile::default();
    let mut u = Profile::default();
    u.user_id.metadata.display = Some(Display::Public);
    u.user_id.signature.publisher.name = PublisherAuthority::Hris;
    let merged = update(p.clone(), u, &rules).unwrap();
    assert_eq!(merged, p);
}

#[test]
fn proposal_without_value_where_there_is_one_is_a_change() {
    let rules = rules();
    let mut p = Profile::default();
    p.pronouns = text("they", PublisherAuthority::Mozilliansorg, 10);
    let mut u = p.clone();
    u.pronouns.value = None;
    u.pronouns.signature.publisher.name = PublisherAuthority::Ldap;
    assert_eq!(
        update(p.clone(), u, &rules),
        Err(ProfileError::PublisherNotAllowedToUpdate)
    );
    let mut u = p.clone();
    u.pronouns.value = None;
    let merged = update(p, u, &rules).unwrap();
    assert_eq!(merged.pronouns.value, None);
}

#[test]
fn every_shape_of_attribute_is_merged() {
    let rules = rules();
    let p = Profile::default();
    let mut u = Profile::default();
    u.active.value = Some(true);
    u.active.signature.publisher.name = PublisherAuthority::Ldap;
    let mut languages = KeyValue::new();
    languages.insert(String::from("en"), Some(String::from("English")));
    u.languages.values = Some(languages.clone());
    let mut groups = KeyValue::new();
    groups.insert(String::from("team_dino"), None);
    u.access_information.ldap.values = Some(groups.clone());
    u.access_information.ldap.signature.publisher.name = PublisherAuthority::Ldap;
    u.staff_information.staff.value = Some(true);
    u.staff_information.staff.signature.publisher.name = PublisherAuthority::Hris;
    u.identities.custom_3_primary_email.value = Some(String::from("dino@dino.dino"));
    u.staff_information.office_location = text("Berlin", PublisherAuthority::Hris, 3);
    let merged = update(p, u, &rules).unwrap();
    assert_eq!(merged.active.value, Some(true));
    assert_eq!(merged.languages.values, Some(languages));
    assert_eq!(merged.access_information.ldap.values, Some(groups));
    assert_eq!(merged.staff_information.staff.value, Some(true));
    assert_eq!(
        merged.identities.custom_3_primary_email.value,
        Some(String::from("dino@dino.dino"))
    );
    assert_eq!(merged.staff_information.office_location.value, Some(String::from("Berlin")));
}

#[test]
fn maps_with_the_same_entries_are_the_same_value() {
    let rules = rules();
    let mut first = KeyValue::new();
    first.insert(String::from("a"), None);
    first.insert(String::from("b"), Some(String::from("x")));
    let mut second = KeyValue::new();
    second.insert(String::from("b"), Some(String::from("x")));
    second.insert(String::from("a"), None);
    let mut p = Profile::default();
    p.tags.values = Some(first);
    let mut u = p.clone();
    u.tags.values = Some(second);
    u.tags.signature.publisher.name = PublisherAuthority::Hris;
    assert!(update(p, u, &rules).is_ok());
}

#[test]
fn operation_of_each_kind() {
    let rules = rules();
    let empty = StandardAttributeString::default();
    let current = text("they", PublisherAuthority::Mozilliansorg, 10);
    let proposed = text("she", PublisherAuthority::Mozilliansorg, 1);
    assert_eq!(
        allowed_operation(&empty, &proposed, &rules.create.pronouns, &rules.update.pronouns),
        Ok(Operation::Create)
    );
    assert_eq!(
        allowed_operation(&current, &proposed, &rules.create.pronouns, &rules.update.pronouns),
        Ok(Operation::Update)
    );
    assert_eq!(
        allowed_operation(&current, &current, &rules.create.pronouns, &rules.update.pronouns),
        Ok(Operation::Noop)
    );
    assert_eq!(
        allowed_operation(&empty, &proposed, &rules.create.uuid, &rules.update.uuid),
        Err(ProfileError::PublisherNotAllowedToCreate)
    );
    assert_eq!(
        allowed_operation(&current, &proposed, &rules.create.uuid, &rules.update.uuid),
        Err(ProfileError::PublisherNotAllowedToUpdate)
    );
}

#[test]
fn only_mozilliansorg_may_redisplay() {
    assert!(allowed_updator(&PublisherAuthority::Mozilliansorg));
    assert!(!allowed_updator(&PublisherAuthority::Ldap));
    assert!(!allowed_updator(&PublisherAuthority::Hris));
    assert!(!allowed_updator(&PublisherAuthority::Cis));
    assert!(!allowed_updator(&PublisherAuthority::AccessProvider));
}

#[test]
fn refused_attribute_stays_as_it_is() {
    let rules = rules();
    let mut field = text("dino@dino.dino", PublisherAuthority::Ldap, 100);
    let before = field.clone();
    let proposed = text("mc@dino.dino", PublisherAuthority::AccessProvider, 1);
    assert_eq!(
        update_allowed_any(
            &mut field,
            proposed,
            &rules.create.primary_email,
            &rules.update.primary_email
        ),
        Err(ProfileError::OutdatedUpdate)
    );
    assert_eq!(field, before);
}

#[test]
fn update_of_one_attribute_by_age() {
    let mut field = text("a", PublisherAuthority::Ldap, 7);
    assert_eq!(
        update_any(&mut field, text("b", PublisherAuthority::Hris, 6)),
        Err(ProfileError::OutdatedUpdate)
    );
    assert_eq!(field.value, Some(String::from("a")));
    assert_eq!(update_sas(&mut field, text("b", PublisherAuthority::Hris, 7)), Ok(()));
    assert_eq!(field, text("b", PublisherAuthority::Hris, 7));

    let mut p = Profile::default();
    let mut u = Profile::default();
    u.active.value = Some(false);
    u.active.metadata.last_modified = Timestamp::new(1, 0);
    assert_eq!(update_sab(&mut p.active, u.active.clone()), Ok(()));
    assert_eq!(p.active, u.active);
    u.tags.values = Some(KeyValue::new());
    assert_eq!(update_sav(&mut p.tags, u.tags.clone()), Ok(()));
    assert_eq!(p.tags, u.tags);
    p.access_information.hris.metadata.last_modified = Timestamp::new(2, 0);
    assert_eq!(
        update_saac(&mut p.access_information.hris, u.access_information.hris.clone()),
        Err(ProfileError::OutdatedUpdate)
    );
    assert_eq!(p.access_information.hris.metadata.last_modified, Timestamp::new(2, 0));
}
