use challenge::fields::{hostname_of, EmailPattern, Ip};
use challenge::generator::{apply_drops, date_form_of, drop_choice_of, DateForm, UsageGenerator};
use challenge::json::{JsonLeaf, JsonNode};
use challenge::text::document_to_text;
use challenge::{Cpu, OperatingSystem, Usage, UsageDates};
use rand::SeedableRng;
use rand_xorshift::XorShiftRng;
use serde_json::Value;

fn sample_doc() -> challenge::json::JsonDocument {
    let mut rng = XorShiftRng::seed_from_u64(3);
    Usage::sample(&mut rng).to_document()
}

#[test]
fn drop_choice_follows_its_draws() {
    let c = drop_choice_of(true, 2, false, true, false);
    assert_eq!(c.name, Some(2));
    assert!(!c.blank_email && c.drop_cpu && !c.drop_usage_time);
    let c = drop_choice_of(false, 1, true, false, true);
    assert_eq!(c.name, None);
    assert!(c.blank_email && !c.drop_cpu && c.drop_usage_time);
}

#[test]
fn date_form_follows_its_draws() {
    assert!(matches!(date_form_of(true, true), DateForm::Epoch));
    assert!(matches!(date_form_of(true, false), DateForm::Epoch));
    assert!(matches!(date_form_of(false, true), DateForm::Rfc2822));
    assert!(matches!(date_form_of(false, false), DateForm::Canonical));
}

#[test]
fn drops_remove_and_blank_fields() {
    let mut doc = sample_doc();
    apply_drops(&mut doc, &drop_choice_of(true, 2, true, true, true));
    let v: Value = serde_json::from_str(&document_to_text(&doc)).unwrap();
    assert!(v["account"].get("full_name").is_none());
    assert!(v["account"].get("first_name").is_some());
    assert_eq!(v["account"]["email"], Value::from(""));
    assert!(v["device"].get("cpu").is_none());
    assert!(v.get("usage_time").is_none());
    assert!(v.get("usage_date").is_some());

    let mut doc = sample_doc();
    let before = document_to_text(&doc);
    apply_drops(&mut doc, &drop_choice_of(false, 0, false, false, false));
    assert_eq!(document_to_text(&doc), before);
}

#[test]
fn dates_from_draws() {
    let d = UsageDates::of(1000, 2000, 3000);
    assert_eq!(d.created_on, 1546300800000 + 1000);
    assert_eq!(d.usage_date, 1546300800000 + 3000);
    assert_eq!(d.usage_time, 3000);
}

#[test]
fn ip_and_hostname_from_draws() {
    assert_eq!(Ip::of(7, 254).address, "192.168.7.254");
    assert_eq!(hostname_of(0, 11, 42), "alpha-lumen-42");
}

#[test]
fn tables_by_index() {
    assert!(matches!(EmailPattern::from_index(0), EmailPattern::FLAST));
    assert!(matches!(EmailPattern::from_index(6), EmailPattern::FIRSTL));
    assert_eq!(Cpu::from_index(9).name, "AMD Ryzen 5 3600X 6-Core Processor");
    assert_eq!(OperatingSystem::from_index(0).name, "Arch Linux; 5.6.14-arch1-1");
}

#[test]
fn demo_flag_is_written_as_boolean() {
    let doc = sample_doc();
    let text = document_to_text(&doc);
    assert!(text.contains("\"is_demo\":true") || text.contains("\"is_demo\":false"));
    match &doc.entries[1].1 {
        JsonNode::Object(es) => assert!(matches!(es[5].1, JsonLeaf::Bool(_))),
        _ => panic!("account is an object"),
    }
}

#[test]
fn generators_of_one_page_agree() {
    let mut a = UsageGenerator::new(6, 52);
    let mut b = UsageGenerator::new(6, 52);
    for _ in 0..30 {
        assert_eq!(document_to_text(&a.next()), document_to_text(&b.next()));
    }
}
