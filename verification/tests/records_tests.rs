use acme_dns01::model::{AcmeError, Domain, Record, TextRecordInsert};
use acme_dns01::records::{cleanup_decision, get_record_id, prepare_create, CleanAction};

fn record(id: i32, rtype: &str, name: &str, target: &str) -> Record {
    Record {
        id,
        rtype: String::from(rtype),
        name: String::from(name),
        target: String::from(target),
    }
}

#[test]
fn locates_matching_txt_record() {
    let records = vec![
        record(10, "A", "www", "192.0.2.1"),
        record(11, "TXT", "_acme-challenge.www", "TOKEN1"),
    ];
    let r = get_record_id(&records, &String::from("www"), &String::from("TOKEN1"));
    assert_eq!(r, Some(11));
}

#[test]
fn locates_record_at_zone_apex() {
    let records = vec![record(12, "TXT", "_acme-challenge", "TOKEN2")];
    let r = get_record_id(&records, &String::new(), &String::from("TOKEN2"));
    assert_eq!(r, Some(12));
}

#[test]
fn absent_record_is_none_and_cleanup_skips() {
    let records = vec![record(10, "A", "www", "192.0.2.1")];
    let r = get_record_id(&records, &String::from("www"), &String::from("TOKEN1"));
    assert_eq!(r, None);
    assert_eq!(cleanup_decision(&r), CleanAction::Skip);
}

#[test]
fn wrong_type_is_not_located() {
    let records = vec![record(13, "CNAME", "_acme-challenge.www", "TOKEN1")];
    let r = get_record_id(&records, &String::from("www"), &String::from("TOKEN1"));
    assert_eq!(r, None);
}

#[test]
fn wrong_target_is_not_located() {
    let records = vec![record(14, "TXT", "_acme-challenge.www", "OTHER")];
    let r = get_record_id(&records, &String::from("www"), &String::from("TOKEN1"));
    assert_eq!(r, None);
}

#[test]
fn first_of_two_matching_records_is_located() {
    let records = vec![
        record(5, "TXT", "_acme-challenge.www", "TOKEN1"),
        record(6, "TXT", "_acme-challenge.www", "TOKEN1"),
    ];
    let r = get_record_id(&records, &String::from("www"), &String::from("TOKEN1"));
    assert_eq!(r, Some(5));
}

#[test]
fn located_record_is_deleted() {
    let r = cleanup_decision(&Some(42));
    assert_eq!(r, CleanAction::Delete { record_id: 42 });
}

#[test]
fn insert_keeps_its_fields() {
    let insert = TextRecordInsert::new("TXT", "_acme-challenge.www", "TOKEN1");
    assert_eq!(insert.rtype.as_str(), "TXT");
    assert_eq!(insert.name.as_str(), "_acme-challenge.www");
    assert_eq!(insert.target.as_str(), "TOKEN1");
}

#[test]
fn create_prepared_for_subdomain_challenge() {
    let zones = vec![Domain { id: 1, domain: String::from("example.com") }];
    let (zone_id, insert) = prepare_create(
        &String::from("_acme-challenge.www.example.com"),
        &zones,
        &String::from("TOKEN1"),
    )
    .unwrap();
    assert_eq!(zone_id, 1);
    assert_eq!(insert.rtype.as_str(), "TXT");
    assert_eq!(insert.name.as_str(), "_acme-challenge.www");
    assert_eq!(insert.target.as_str(), "TOKEN1");
}

#[test]
fn create_prepared_for_apex_challenge() {
    let zones = vec![Domain { id: 1, domain: String::from("example.com") }];
    let (zone_id, insert) = prepare_create(
        &String::from("_acme-challenge.example.com"),
        &zones,
        &String::from("TOKEN2"),
    )
    .unwrap();
    assert_eq!(zone_id, 1);
    assert_eq!(insert.name.as_str(), "_acme-challenge");
    assert_eq!(insert.target.as_str(), "TOKEN2");
}

#[test]
fn deployed_record_is_the_one_cleanup_locates() {
    let zones = vec![Domain { id: 1, domain: String::from("example.com") }];
    // Deploy path: the record is named by resolving the prefixed lookup name.
    let (_, insert) = prepare_create(
        &String::from("_acme-challenge.www.example.com"),
        &zones,
        &String::from("TOKEN1"),
    )
    .unwrap();
    let records = vec![Record {
        id: 99,
        rtype: insert.rtype,
        name: insert.name,
        target: insert.target,
    }];
    // Cleanup path: the locator looks for the bare domain's resolved label.
    let label = acme_dns01::resolve::resolve(&String::from("www.example.com"), &zones)
        .unwrap()
        .subdomain_label;
    let r = get_record_id(&records, &label, &String::from("TOKEN1"));
    assert_eq!(r, Some(99));
}

#[test]
fn no_create_prepared_without_owning_zone() {
    let zones = vec![Domain { id: 1, domain: String::from("example.com") }];
    let r = prepare_create(
        &String::from("_acme-challenge.www.other.org"),
        &zones,
        &String::from("TOKEN1"),
    );
    assert_eq!(r.unwrap_err(), AcmeError::ZoneNotFound);
}
