use dino_park_cis::error::RulesError;
use dino_park_cis::profile::publishers::lifetime_seconds;
use dino_park_cis::profile::publishers::AccessInformationRules;
use dino_park_cis::profile::publishers::IdentityRules;
use dino_park_cis::profile::publishers::Publisher;
use dino_park_cis::profile::publishers::PublisherRules;
use dino_park_cis::profile::publishers::Publishers;
use dino_park_cis::profile::publishers::RemotePublisherRules;
use dino_park_cis::profile::publishers::RemotePublisherRulesProvider;
use dino_park_cis::profile::publishers::Rules;
use dino_park_cis::profile::publishers::StaffInformationRules;
use dino_park_cis::profile::publishers::DEFAULT_MAX_AGE;
use dino_park_cis::profile::publishers::MAX_AGE_LIMIT;
use dino_park_cis::profile::schema::PublisherAuthority;
use dino_park_cis::profile::time::Timestamp;

const ALL: [PublisherAuthority; 5] = [
    PublisherAuthority::Ldap,
    PublisherAuthority::Mozilliansorg,
    PublisherAuthority::Hris,
    PublisherAuthority::Cis,
    PublisherAuthority::AccessProvider,
];

fn some_rules() -> PublisherRules {
    PublisherRules {
        create: Rules::same(Publisher::Cis),
        update: Rules::same(Publisher::Mozilliansorg),
    }
}

#[test]
fn check_of_a_list() {
    let rule = Publishers::Many(vec![PublisherAuthority::Ldap, PublisherAuthority::Hris]);
    assert!(rule.check(&PublisherAuthority::Ldap));
    assert!(rule.check(&PublisherAuthority::Hris));
    assert!(!rule.check(&PublisherAuthority::Mozilliansorg));
    assert!(!rule.check(&PublisherAuthority::Cis));
    assert!(!rule.check(&PublisherAuthority::AccessProvider));
    let nobody = Publishers::Many(vec![]);
    for authority in ALL.iter() {
        assert!(!nobody.check(authority));
    }
}

#[test]
fn check_of_a_single_publisher() {
    let rule = Publishers::One(Publisher::Cis);
    for authority in ALL.iter() {
        assert_eq!(rule.check(authority), *authority == PublisherAuthority::Cis);
    }
    let nobody = Publishers::One(Publisher::Nobody);
    for authority in ALL.iter() {
        assert!(!nobody.check(authority));
    }
}

#[test]
fn publisher_equals_its_authority_only() {
    assert!(Publisher::Ldap == PublisherAuthority::Ldap);
    assert!(Publisher::Mozilliansorg == PublisherAuthority::Mozilliansorg);
    assert!(Publisher::Hris == PublisherAuthority::Hris);
    assert!(Publisher::Cis == PublisherAuthority::Cis);
    assert!(Publisher::AccessProvider == PublisherAuthority::AccessProvider);
    assert!(Publisher::Ldap != PublisherAuthority::Hris);
    for authority in ALL.iter() {
        assert!(Publisher::Nobody != *authority);
    }
}

#[test]
fn publisher_as_a_list() {
    assert_eq!(Vec::<PublisherAuthority>::from(Publisher::Nobody), vec![]);
    assert_eq!(
        Vec::<PublisherAuthority>::from(Publisher::Ldap),
        vec![PublisherAuthority::Ldap]
    );
    assert_eq!(
        Vec::<PublisherAuthority>::from(Publisher::Mozilliansorg),
        vec![PublisherAuthority::Mozilliansorg]
    );
    assert_eq!(
        Vec::<PublisherAuthority>::from(Publisher::Hris),
        vec![PublisherAuthority::Hris]
    );
    assert_eq!(Vec::<PublisherAuthority>::from(Publisher::Cis), vec![PublisherAuthority::Cis]);
    assert_eq!(
        Vec::<PublisherAuthority>::from(Publisher::AccessProvider),
        vec![PublisherAuthority::AccessProvider]
    );
}

#[test]
fn publisher_from_its_name() {
    assert_eq!(Publisher::from_name(""), Some(Publisher::Nobody));
    assert_eq!(Publisher::from_name("ldap"), Some(Publisher::Ldap));
    assert_eq!(Publisher::from_name("mozilliansorg"), Some(Publisher::Mozilliansorg));
    assert_eq!(Publisher::from_name("hris"), Some(Publisher::Hris));
    assert_eq!(Publisher::from_name("cis"), Some(Publisher::Cis));
    assert_eq!(Publisher::from_name("access_provider"), Some(Publisher::AccessProvider));
    assert_eq!(Publisher::from_name("LDAP"), None);
    assert_eq!(Publisher::from_name("ldap "), None);
    assert_eq!(Publisher::from_name("dino"), None);
}

#[test]
fn one_rule_for_all_identities() {
    let rules = IdentityRules::from_str("mozilliansorg").unwrap();
    let expected = Publishers::One(Publisher::Mozilliansorg);
    assert_eq!(rules.github_id_v3, expected);
    assert_eq!(rules.github_id_v4, expected);
    assert_eq!(rules.github_primary_email, expected);
    assert_eq!(rules.mozilliansorg_id, expected);
    assert_eq!(rules.bugzilla_mozilla_org_id, expected);
    assert_eq!(rules.bugzilla_mozilla_org_primary_email, expected);
    assert_eq!(rules.mozilla_ldap_id, expected);
    assert_eq!(rules.mozilla_ldap_primary_email, expected);
    assert_eq!(rules.mozilla_posix_id, expected);
    assert_eq!(rules.google_oauth2_id, expected);
    assert_eq!(rules.google_primary_email, expected);
    assert_eq!(rules.firefox_accounts_id, expected);
    assert_eq!(rules.firefox_accounts_primary_email, expected);
    assert_eq!(rules.custom_1_primary_email, expected);
    assert_eq!(rules.custom_2_primary_email, expected);
    assert_eq!(rules.custom_3_primary_email, expected);
    assert_eq!(IdentityRules::from_str("dino"), Err(RulesError::UnknownPublisher));
}

#[test]
fn one_rule_for_all_access_information() {
    let rules = AccessInformationRules::from_str("ldap").unwrap();
    let expected = Publishers::One(Publisher::Ldap);
    assert_eq!(rules.access_provider, expected);
    assert_eq!(rules.ldap, expected);
    assert_eq!(rules.hris, expected);
    assert_eq!(rules.mozilliansorg, expected);
    assert_eq!(
        AccessInformationRules::from_str("[\"ldap\"]"),
        Err(RulesError::UnknownPublisher)
    );
}

#[test]
fn one_rule_for_all_staff_information() {
    let rules = StaffInformationRules::from_str("hris").unwrap();
    let expected = Publishers::One(Publisher::Hris);
    assert_eq!(rules.manager, expected);
    assert_eq!(rules.director, expected);
    assert_eq!(rules.staff, expected);
    assert_eq!(rules.title, expected);
    assert_eq!(rules.team, expected);
    assert_eq!(rules.cost_center, expected);
    assert_eq!(rules.worker_type, expected);
    assert_eq!(rules.wpr_desk_number, expected);
    assert_eq!(rules.office_location, expected);
    let nobody = StaffInformationRules::from_str("").unwrap();
    assert_eq!(nobody.staff, Publishers::One(Publisher::Nobody));
    assert_eq!(StaffInformationRules::from_str("Hris"), Err(RulesError::UnknownPublisher));
}

#[test]
fn one_rule_for_every_attribute() {
    let rules = Rules::same(Publisher::Cis);
    let expected = Publishers::One(Publisher::Cis);
    assert_eq!(rules.uuid, expected);
    assert_eq!(rules.phone_numbers, expected);
    assert_eq!(rules.identities, IdentityRules::same(Publisher::Cis));
    assert_eq!(rules.access_information, AccessInformationRules::same(Publisher::Cis));
    assert_eq!(rules.staff_information, StaffInformationRules::same(Publisher::Cis));
    assert_eq!(rules.clone(), rules);
}

#[test]
fn rules_live_for_their_max_age() {
    let now = Timestamp::new(1_600_000_000, 5);
    let cached = RemotePublisherRules::with_max_age(some_rules(), now, Some(30));
    assert_eq!(cached.valid_till, Timestamp::new(1_600_000_030, 5));
    assert_eq!(cached.rules, some_rules());
    let cached = RemotePublisherRules::with_max_age(some_rules(), now, Some(0));
    assert_eq!(cached.valid_till, now);
}

#[test]
fn rules_without_max_age_live_for_a_day() {
    let now = Timestamp::new(1_600_000_000, 0);
    let cached = RemotePublisherRules::with_max_age(some_rules(), now, None);
    assert_eq!(cached.valid_till, Timestamp::new(1_600_086_400, 0));
    let cached = RemotePublisherRules::fetched(some_rules(), now, None);
    assert_eq!(cached.valid_till, Timestamp::new(1_600_086_400, 0));
}

#[test]
fn max_age_over_the_limit_counts_as_none() {
    assert_eq!(DEFAULT_MAX_AGE, 24 * 60 * 60);
    assert_eq!(MAX_AGE_LIMIT, (i64::MAX / 1000) as u64);
    assert_eq!(lifetime_seconds(None), 86_400);
    assert_eq!(lifetime_seconds(Some(0)), 0);
    assert_eq!(lifetime_seconds(Some(10)), 10);
    assert_eq!(lifetime_seconds(Some(MAX_AGE_LIMIT)), MAX_AGE_LIMIT);
    assert_eq!(lifetime_seconds(Some(MAX_AGE_LIMIT + 1)), 86_400);
    assert_eq!(lifetime_seconds(Some(u64::MAX)), 86_400);
}

#[test]
fn end_of_validity_saturates() {
    let now = Timestamp::new(i64::MAX - 10, 7);
    let cached = RemotePublisherRules::with_max_age(some_rules(), now, Some(30));
    assert_eq!(cached.valid_till, Timestamp::new(i64::MAX, 7));
}

#[test]
fn max_age_is_read_from_the_header() {
    let now = Timestamp::new(1_600_000_000, 0);
    let cached = RemotePublisherRules::fetched(some_rules(), now, Some("max-age=30"));
    assert_eq!(cached.valid_till, Timestamp::new(1_600_000_030, 0));
    let cached =
        RemotePublisherRules::fetched(some_rules(), now, Some("public, max-age=3600, immutable"));
    assert_eq!(cached.valid_till, Timestamp::new(1_600_003_600, 0));
    let cached = RemotePublisherRules::fetched(some_rules(), now, Some("max-age=\"60\""));
    assert_eq!(cached.valid_till, Timestamp::new(1_600_000_060, 0));
}

#[test]
fn header_without_max_age_gives_a_day() {
    let now = Timestamp::new(1_600_000_000, 0);
    let day = Timestamp::new(1_600_086_400, 0);
    for value in ["no-cache", "", "s-maxage=10", "max-age=soon", "max-age=-1", "max-age", "\n"] {
        let cached = RemotePublisherRules::fetched(some_rules(), now, Some(value));
        assert_eq!(cached.valid_till, day);
    }
}

#[test]
fn rules_are_valid_until_their_end() {
    let cached = RemotePublisherRules {
        rules: some_rules(),
        valid_till: Timestamp::new(100, 500),
    };
    assert!(cached.valid_at(&Timestamp::new(99, 999_999_999)));
    assert!(cached.valid_at(&Timestamp::new(100, 499)));
    assert!(!cached.valid_at(&Timestamp::new(100, 500)));
    assert!(!cached.valid_at(&Timestamp::new(100, 501)));
    assert!(!cached.valid_at(&Timestamp::new(101, 0)));
}

#[test]
fn rules_are_valid_by_the_clock() {
    let now = Timestamp::now();
    let fresh = RemotePublisherRules::with_max_age(some_rules(), now, Some(3600));
    assert!(fresh.valid());
    let expired = RemotePublisherRules::with_max_age(some_rules(), now, Some(0));
    assert!(!expired.valid());
    let old = RemotePublisherRules {
        rules: some_rules(),
        valid_till: Timestamp::new(0, 0),
    };
    assert!(!old.valid());
    assert_eq!(fresh.clone(), fresh);
}

#[test]
fn provider_keeps_its_address() {
    let provider = RemotePublisherRulesProvider::new(String::from("https://dino.park/rules"));
    assert_eq!(provider.url(), "https://dino.park/rules");
    assert_eq!(
        RemotePublisherRulesProvider::well_known().url(),
        "https://auth.mozilla.com/.well-known/mozilla-iam-publisher-rules"
    );
}
