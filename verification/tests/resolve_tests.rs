use acme_dns01::model::{AcmeError, Domain};
use acme_dns01::resolve::resolve;

fn zone(id: i32, name: &str) -> Domain {
    Domain { id, domain: String::from(name) }
}

#[test]
fn exact_match_gives_empty_label() {
    let zones = vec![zone(1, "example.com")];
    let t = resolve(&String::from("example.com"), &zones).unwrap();
    assert_eq!(t.subdomain_label.as_str(), "");
    assert_eq!(t.zone.id, 1);
    assert_eq!(t.zone.domain.as_str(), "example.com");
}

#[test]
fn proper_suffix_match_strips_zone_and_dot() {
    let zones = vec![zone(1, "example.com")];
    let t = resolve(&String::from("www.example.com"), &zones).unwrap();
    assert_eq!(t.subdomain_label.as_str(), "www");
    assert_eq!(t.zone.id, 1);
}

#[test]
fn multi_label_subdomain_kept_whole() {
    let zones = vec![zone(7, "example.com")];
    let t = resolve(&String::from("a.b.example.com"), &zones).unwrap();
    assert_eq!(t.subdomain_label.as_str(), "a.b");
    assert_eq!(t.zone.id, 7);
}

#[test]
fn unowned_domain_fails_with_zone_not_found() {
    let zones = vec![zone(1, "example.com")];
    let r = resolve(&String::from("other.org"), &zones);
    assert_eq!(r.unwrap_err(), AcmeError::ZoneNotFound);
}

#[test]
fn suffix_without_separating_dot_does_not_match() {
    let zones = vec![zone(1, "example.com")];
    let r = resolve(&String::from("badexample.com"), &zones);
    assert_eq!(r.unwrap_err(), AcmeError::ZoneNotFound);
}

#[test]
fn empty_zone_list_fails() {
    let zones: Vec<Domain> = Vec::new();
    let r = resolve(&String::from("example.com"), &zones);
    assert_eq!(r.unwrap_err(), AcmeError::ZoneNotFound);
}

#[test]
fn first_listed_zone_wins_over_longer_suffix() {
    let zones = vec![zone(1, "example.com"), zone(2, "sub.example.com")];
    let t = resolve(&String::from("www.sub.example.com"), &zones).unwrap();
    assert_eq!(t.zone.id, 1);
    assert_eq!(t.subdomain_label.as_str(), "www.sub");
}

#[test]
fn later_zone_found_when_earlier_does_not_own() {
    let zones = vec![zone(1, "example.net"), zone(2, "example.com")];
    let t = resolve(&String::from("www.example.com"), &zones).unwrap();
    assert_eq!(t.zone.id, 2);
    assert_eq!(t.subdomain_label.as_str(), "www");
}
