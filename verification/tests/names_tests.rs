use acme_dns01::names::{challenge_record_name, challenge_target};

#[test]
fn record_name_for_empty_label_is_bare_prefix() {
    let name = challenge_record_name(&String::new());
    assert_eq!(name.as_str(), "_acme-challenge");
}

#[test]
fn record_name_for_label_appends_it_after_a_dot() {
    let name = challenge_record_name(&String::from("www"));
    assert_eq!(name.as_str(), "_acme-challenge.www");
}

#[test]
fn record_name_keeps_multi_label_subdomains() {
    let name = challenge_record_name(&String::from("a.b"));
    assert_eq!(name.as_str(), "_acme-challenge.a.b");
}

#[test]
fn target_prepends_prefix_to_domain() {
    let t = challenge_target(&String::from("www.example.com"));
    assert_eq!(t.as_str(), "_acme-challenge.www.example.com");
}

#[test]
fn target_of_zone_apex() {
    let t = challenge_target(&String::from("example.com"));
    assert_eq!(t.as_str(), "_acme-challenge.example.com");
}
