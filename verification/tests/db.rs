use dino_park_cis::db::change::next_version;
use dino_park_cis::db::change::previous_version;
use dino_park_cis::db::change::store_entry;
use dino_park_cis::db::change::store_profile;
use dino_park_cis::db::change::VERSION_CAP;
use dino_park_cis::db::model::entry_with_uuid;
use dino_park_cis::db::model::parsed_uuid;
use dino_park_cis::db::model::trust_from;
use dino_park_cis::db::model::try_from_profile;
use dino_park_cis::db::retrieve::retrieve_profile;
use dino_park_cis::db::table::ProfileTable;
use dino_park_cis::db::types::TrustType;
use dino_park_cis::error::DBError;
use dino_park_cis::profile::display::DisplayFilter;
use dino_park_cis::profile::key_value::KeyValue;
use dino_park_cis::profile::schema::Display;
use dino_park_cis::profile::schema::Profile;
use std::convert::TryFrom;

const DINO: &str = "936da01f-9abd-4d9d-80c7-02af85c822a8";
const DINO_BITS: u128 = 0x936DA01F9ABD4D9D80C702AF85C822A8;
const REX: &str = "00000000-0000-0000-0000-00000000002a";

fn profile(uuid: &str, active: bool) -> Profile {
    let mut p = Profile::default();
    p.uuid.value = Some(String::from(uuid));
    p.user_id.value = Some(String::from("ad|dino"));
    p.primary_email.value = Some(String::from("dino@dino.dino"));
    p.primary_username.value = Some(String::from("dino"));
    p.active.value = Some(active);
    p
}

fn groups(names: &[&str]) -> KeyValue {
    let mut map = KeyValue::new();
    for name in names {
        map.insert(String::from(*name), None);
    }
    map
}

#[test]
fn versions_advance_by_one() {
    assert_eq!(VERSION_CAP, 256);
    assert_eq!(next_version(0), 1);
    assert_eq!(next_version(1), 2);
    assert_eq!(next_version(254), 255);
    assert_eq!(previous_version(1), 0);
    assert_eq!(previous_version(2), 1);
    assert_eq!(previous_version(255), 254);
}

#[test]
fn versions_wrap_at_the_cap() {
    assert_eq!(next_version(255), 0);
    assert_eq!(previous_version(0), 255);
    assert_eq!(next_version(256), 1);
    assert_eq!(previous_version(256), 255);
    assert_eq!(previous_version(257), 0);
    assert_eq!(next_version(i32::MAX), 0);
    assert_eq!(previous_version(i32::MAX), 254);
    for v in 0..256 {
        assert_eq!(previous_version(next_version(v)), v);
        assert_eq!(next_version(previous_version(v)), v);
    }
}

#[test]
fn negative_versions_give_zero() {
    assert_eq!(next_version(-1), 0);
    assert_eq!(previous_version(-1), 0);
    assert_eq!(next_version(i32::MIN), 0);
    assert_eq!(previous_version(i32::MIN), 0);
}

#[test]
fn trust_of_staff() {
    let mut p = Profile::default();
    assert_eq!(trust_from(&p), TrustType::Authenticated);
    p.staff_information.staff.value = Some(false);
    assert_eq!(trust_from(&p), TrustType::Authenticated);
    p.staff_information.staff.value = Some(true);
    assert_eq!(trust_from(&p), TrustType::Staff);
    p.access_information.mozilliansorg.values = Some(groups(&["nda"]));
    assert_eq!(trust_from(&p), TrustType::Staff);
}

#[test]
fn trust_of_nda_groups() {
    let mut p = Profile::default();
    p.access_information.mozilliansorg.values = Some(groups(&[]));
    assert_eq!(trust_from(&p), TrustType::Authenticated);
    p.access_information.mozilliansorg.values = Some(groups(&["dinos", "ndaed", "NDA"]));
    assert_eq!(trust_from(&p), TrustType::Authenticated);
    p.access_information.mozilliansorg.values = Some(groups(&["dinos", "nda"]));
    assert_eq!(trust_from(&p), TrustType::Ndaed);
    p.access_information.mozilliansorg.values = Some(groups(&["contingentworkernda"]));
    assert_eq!(trust_from(&p), TrustType::Ndaed);
    p.access_information.mozilliansorg.values = None;
    p.access_information.ldap.values = Some(groups(&["nda"]));
    assert_eq!(trust_from(&p), TrustType::Authenticated);
}

#[test]
fn entry_of_a_complete_profile() {
    let mut p = profile(DINO, true);
    p.staff_information.staff.value = Some(true);
    let entry = try_from_profile(p.clone(), 7).unwrap();
    assert_eq!(entry.uuid, DINO_BITS);
    assert_eq!(entry.user_id, "ad|dino");
    assert_eq!(entry.primary_email, "dino@dino.dino");
    assert_eq!(entry.primary_username, "dino");
    assert!(entry.active);
    assert_eq!(entry.trust, TrustType::Staff);
    assert_eq!(entry.version, 7);
    assert_eq!(entry.profile, p);
    assert_eq!(entry.clone(), entry);
}

#[test]
fn uuid_is_read_in_every_form() {
    assert_eq!(parsed_uuid(&profile(DINO, true)), Some(DINO_BITS));
    assert_eq!(
        parsed_uuid(&profile("936DA01F9ABD4D9D80C702AF85C822A8", true)),
        Some(DINO_BITS)
    );
    assert_eq!(
        parsed_uuid(&profile("urn:uuid:936da01f-9abd-4d9d-80c7-02af85c822a8", true)),
        Some(DINO_BITS)
    );
    assert_eq!(parsed_uuid(&profile(REX, true)), Some(42));
    assert_eq!(parsed_uuid(&profile("dino", true)), None);
    assert_eq!(parsed_uuid(&profile("", true)), None);
    assert_eq!(parsed_uuid(&Profile::default()), None);
}

#[test]
fn entry_needs_a_uuid_that_parses() {
    assert_eq!(try_from_profile(profile("dino", true), 1), Err(DBError::InvalidUuid));
    assert_eq!(
        try_from_profile(profile("936da01f-9abd-4d9d-80c7-02af85c822a", true), 1),
        Err(DBError::InvalidUuid)
    );
    assert_eq!(entry_with_uuid(profile(DINO, true), None, 1), Err(DBError::InvalidUuid));
    assert_eq!(entry_with_uuid(profile("dino", true), Some(5), 1).unwrap().uuid, 5);
}

#[test]
fn entry_needs_every_identifying_attribute() {
    let mut p = profile(DINO, true);
    p.uuid.value = None;
    assert_eq!(try_from_profile(p, 1), Err(DBError::InvalidProfile));
    let mut p = profile(DINO, true);
    p.user_id.value = None;
    assert_eq!(try_from_profile(p, 1), Err(DBError::InvalidProfile));
    let mut p = profile(DINO, true);
    p.primary_email.value = None;
    assert_eq!(try_from_profile(p, 1), Err(DBError::InvalidProfile));
    let mut p = profile(DINO, true);
    p.primary_username.value = None;
    assert_eq!(try_from_profile(p, 1), Err(DBError::InvalidProfile));
    let mut p = profile(DINO, true);
    p.active.value = None;
    assert_eq!(try_from_profile(p, 1), Err(DBError::InvalidProfile));
    let mut p = profile("dino", true);
    p.active.value = None;
    assert_eq!(try_from_profile(p, 1), Err(DBError::InvalidProfile));
    assert_eq!(entry_with_uuid(Profile::default(), Some(1), 1), Err(DBError::InvalidProfile));
}

#[test]
fn compare_and_set() {
    let mut table = ProfileTable::new();
    assert!(table.is_empty());
    let first = profile(DINO, true);
    assert_eq!(store_profile(&mut table, first.clone(), 0), Ok(first.clone()));
    assert_eq!(table.get(DINO_BITS).unwrap().version, 1);
    assert_eq!(table.get(DINO_BITS).unwrap().profile, first);

    let mut second = first.clone();
    second.pronouns.value = Some(String::from("they"));
    assert_eq!(store_profile(&mut table, second.clone(), 1), Ok(second.clone()));
    assert_eq!(table.get(DINO_BITS).unwrap().version, 2);
    assert_eq!(table.get(DINO_BITS).unwrap().profile, second);

    // Another writer also read version 1.
    let mut late = first.clone();
    late.pronouns.value = Some(String::from("she"));
    assert_eq!(store_profile(&mut table, late.clone(), 1), Err(DBError::Conflict));
    assert_eq!(store_profile(&mut table, late.clone(), 3), Err(DBError::Conflict));
    assert_eq!(store_profile(&mut table, late.clone(), 0), Err(DBError::Conflict));
    assert_eq!(table.get(DINO_BITS).unwrap().version, 2);
    assert_eq!(table.get(DINO_BITS).unwrap().profile, second);

    // It reads again and writes against what it read.
    assert_eq!(store_profile(&mut table, late.clone(), 2), Ok(late.clone()));
    assert_eq!(table.get(DINO_BITS).unwrap().version, 3);
    assert_eq!(table.get(DINO_BITS).unwrap().profile, late);
}

#[test]
fn update_of_a_missing_row_is_a_conflict() {
    let mut table = ProfileTable::new();
    assert_eq!(store_profile(&mut table, profile(DINO, true), 1), Err(DBError::Conflict));
    assert!(table.is_empty());
    assert_eq!(store_profile(&mut table, profile(DINO, true), 0).map(|_| ()), Ok(()));
    assert!(!table.is_empty());
    assert_eq!(store_profile(&mut table, profile(REX, true), 1), Err(DBError::Conflict));
    assert!(table.get(42).is_none());
    assert!(table.get(DINO_BITS).is_some());
}

#[test]
fn invalid_profile_is_not_stored() {
    let mut table = ProfileTable::new();
    assert_eq!(store_profile(&mut table, Profile::default(), 0), Err(DBError::InvalidProfile));
    assert_eq!(store_profile(&mut table, profile("dino", true), 0), Err(DBError::InvalidUuid));
    assert!(table.is_empty());
}

#[test]
fn stored_row_follows_the_profile() {
    let mut table = ProfileTable::new();
    let mut p = profile(DINO, true);
    store_profile(&mut table, p.clone(), 0).unwrap();
    assert_eq!(table.get(DINO_BITS).unwrap().trust, TrustType::Authenticated);
    p.staff_information.staff.value = Some(true);
    p.active.value = Some(false);
    p.primary_email.value = Some(String::from("rex@dino.dino"));
    store_profile(&mut table, p.clone(), 1).unwrap();
    let row = table.get(DINO_BITS).unwrap();
    assert_eq!(row.trust, TrustType::Staff);
    assert!(!row.active);
    assert_eq!(row.primary_email, "rex@dino.dino");
    assert_eq!(row.version, 2);
}

#[test]
fn version_wraps_in_the_store() {
    let mut table = ProfileTable::new();
    let p = profile(DINO, true);
    store_profile(&mut table, p.clone(), 0).unwrap();
    for version in 1..255 {
        store_profile(&mut table, p.clone(), version).unwrap();
        assert_eq!(table.get(DINO_BITS).unwrap().version, version + 1);
    }
    assert_eq!(table.get(DINO_BITS).unwrap().version, 255);
    store_profile(&mut table, p.clone(), 255).unwrap();
    assert_eq!(table.get(DINO_BITS).unwrap().version, 0);
}

#[test]
fn entry_is_written_against_a_version() {
    let mut table = ProfileTable::new();
    let entry = try_from_profile(profile(DINO, true), 1).unwrap();
    assert_eq!(store_entry(&mut table, entry.clone(), 0), Ok(profile(DINO, true)));
    assert_eq!(store_entry(&mut table, entry, 0), Err(DBError::Conflict));
    let entry = try_from_profile(profile(DINO, false), 2).unwrap();
    assert_eq!(store_entry(&mut table, entry, 1), Ok(profile(DINO, false)));
    let entry = try_from_profile(profile(DINO, false), 9).unwrap();
    assert_eq!(store_entry(&mut table, entry, 8), Err(DBError::Conflict));
    assert_eq!(table.get(DINO_BITS).unwrap().version, 2);
}

#[test]
fn table_insert_and_update() {
    let mut table = ProfileTable::default();
    let entry = try_from_profile(profile(DINO, true), 1).unwrap();
    assert_eq!(table.update(entry.clone(), 1), Err(DBError::Conflict));
    assert_eq!(table.insert(entry.clone()), Ok(()));
    assert_eq!(table.insert(entry.clone()), Err(DBError::Conflict));
    let next = try_from_profile(profile(DINO, false), 2).unwrap();
    assert_eq!(table.update(next.clone(), 0), Err(DBError::Conflict));
    assert_eq!(table.update(next.clone(), 1), Ok(()));
    assert_eq!(table.get(DINO_BITS), Some(&next));
    assert!(!table.is_empty());
}

#[test]
fn retrieval_filter() {
    let mut table = ProfileTable::new();
    let active = profile(DINO, true);
    let inactive = profile(REX, false);
    store_profile(&mut table, active.clone(), 0).unwrap();
    store_profile(&mut table, inactive.clone(), 0).unwrap();
    assert_eq!(retrieve_profile(&table, DINO_BITS, DisplayFilter::Any), Ok(active.clone()));
    assert_eq!(retrieve_profile(&table, DINO_BITS, DisplayFilter::True), Ok(active));
    assert_eq!(
        retrieve_profile(&table, DINO_BITS, DisplayFilter::False),
        Err(DBError::NotFound)
    );
    assert_eq!(retrieve_profile(&table, 42, DisplayFilter::Any), Ok(inactive.clone()));
    assert_eq!(retrieve_profile(&table, 42, DisplayFilter::False), Ok(inactive));
    assert_eq!(retrieve_profile(&table, 42, DisplayFilter::True), Err(DBError::NotFound));
}

#[test]
fn retrieval_of_a_missing_row() {
    let mut table = ProfileTable::new();
    assert_eq!(retrieve_profile(&table, 1, DisplayFilter::Any), Err(DBError::NotFound));
    store_profile(&mut table, profile(DINO, true), 0).unwrap();
    assert_eq!(retrieve_profile(&table, 1, DisplayFilter::Any), Err(DBError::NotFound));
    assert_eq!(retrieve_profile(&table, 1, DisplayFilter::True), Err(DBError::NotFound));
    assert_eq!(retrieve_profile(&table, 1, DisplayFilter::False), Err(DBError::NotFound));
}

#[test]
fn display_filter_values() {
    assert_eq!(DisplayFilter::True.filter(), &[true]);
    assert_eq!(DisplayFilter::False.filter(), &[false]);
    assert_eq!(DisplayFilter::Any.filter(), &[true, false]);
}

#[test]
fn trust_type_from_its_name() {
    assert_eq!(TrustType::try_from(String::from("staff")), Ok(TrustType::Staff));
    assert_eq!(TrustType::try_from(String::from("ndaed")), Ok(TrustType::Ndaed));
    assert_eq!(TrustType::try_from(String::from("vouched")), Ok(TrustType::Vouched));
    assert_eq!(
        TrustType::try_from(String::from("authenticated")),
        Ok(TrustType::Authenticated)
    );
    assert_eq!(TrustType::try_from(String::from("public")), Ok(TrustType::Public));
    assert_eq!(TrustType::try_from(String::from("Staff")), Err(DBError::InvalidTrustLevel));
    assert_eq!(TrustType::try_from(String::from("private")), Err(DBError::InvalidTrustLevel));
    assert_eq!(TrustType::try_from(String::new()), Err(DBError::InvalidTrustLevel));
}

#[test]
fn trust_type_from_a_display() {
    assert_eq!(TrustType::try_from(Display::Staff), Ok(TrustType::Staff));
    assert_eq!(TrustType::try_from(Display::Ndaed), Ok(TrustType::Ndaed));
    assert_eq!(TrustType::try_from(Display::Vouched), Ok(TrustType::Vouched));
    assert_eq!(TrustType::try_from(Display::Authenticated), Ok(TrustType::Authenticated));
    assert_eq!(TrustType::try_from(Display::Public), Ok(TrustType::Public));
    assert_eq!(TrustType::try_from(Display::Private), Err(DBError::InvalidTrustLevel));
}

#[test]
fn trust_types_are_ordered() {
    let levels = [
        TrustType::Public,
        TrustType::Authenticated,
        TrustType::Vouched,
        TrustType::Ndaed,
        TrustType::Staff,
    ];
    for (i, a) in levels.iter().enumerate() {
        assert_eq!(a.number() as usize, i);
        for (j, b) in levels.iter().enumerate() {
            assert_eq!(a.at_least(b), i >= j);
            assert_eq!(a >= b, i >= j);
        }
    }
}
