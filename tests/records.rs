use challenge::dates::epoch_seconds;
use challenge::fields::EmailPattern;
use challenge::json::{deep_shuffle, JsonDocument, JsonLeaf, JsonNode};
use challenge::text::document_to_text;
use challenge::{Usage, UsageDates, UsageGenerator};
use rand::SeedableRng;
use rand_xorshift::XorShiftRng;
use serde_json::Value;

fn s(x: &str) -> String {
    x.to_string()
}

#[test]
fn email_patterns() {
    let (f, l, d) = (s("Anna"), s("Schmidt"), s("example.com"));
    assert_eq!(EmailPattern::FLAST.for_name(&f, &l, &d), "ASchmidt@example.com");
    assert_eq!(EmailPattern::DOTSEPARATED.for_name(&f, &l, &d), "Anna.Schmidt@example.com");
    assert_eq!(EmailPattern::COLLATED.for_name(&f, &l, &d), "AnnaSchmidt@example.com");
    assert_eq!(EmailPattern::LAST.for_name(&f, &l, &d), "Schmidt@example.com");
    assert_eq!(EmailPattern::SNAKE.for_name(&f, &l, &d), "Anna_Schmidt@example.com");
    assert_eq!(EmailPattern::FLASTSNAKE.for_name(&f, &l, &d), "A_Schmidt@example.com");
    assert_eq!(EmailPattern::FIRSTL.for_name(&f, &l, &d), "AnnaS@example.com");
}

#[test]
fn epoch_seconds_truncate() {
    assert_eq!(epoch_seconds(1546300800999), 1546300800);
    assert_eq!(epoch_seconds(0), 0);
}

#[test]
fn synthesized_records_keep_their_invariants() {
    let mut rng = XorShiftRng::seed_from_u64(42);
    for _ in 0..2000 {
        let u = Usage::sample(&mut rng);
        let UsageDates { created_on, usage_date, usage_time } = u.dates;
        assert!(1546300800000 <= created_on && created_on < 1589500800000);
        assert!(created_on <= usage_date && usage_date < 1590624000000);
        assert!(3000 <= usage_time && usage_time < 86400000);
        assert_eq!(u.full_name, format!("{} {}", u.first_name, u.last_name));
        let parts: Vec<&str> = u.ip_address.split('.').collect();
        assert_eq!(&parts[..2], &["192", "168"]);
        let x: u32 = parts[2].parse().unwrap();
        let y: u32 = parts[3].parse().unwrap();
        assert!(x < 128 && (1..255).contains(&y));
    }
}

fn sorted_keys(v: &Value, out: &mut Vec<String>) {
    if let Value::Object(m) = v {
        for (k, inner) in m {
            out.push(k.clone());
            sorted_keys(inner, out);
        }
    }
    out.sort();
}

#[test]
fn shuffle_keeps_every_key() {
    let mut rng = XorShiftRng::seed_from_u64(7);
    for _ in 0..200 {
        let u = Usage::sample(&mut rng);
        let plain = u.to_document();
        let before = document_to_text(&plain);
        let after = document_to_text(&deep_shuffle(plain, &mut rng));
        let (mut a, mut b) = (Vec::new(), Vec::new());
        sorted_keys(&serde_json::from_str(&before).unwrap(), &mut a);
        sorted_keys(&serde_json::from_str(&after).unwrap(), &mut b);
        assert_eq!(a, b);
        assert_eq!(before.len(), after.len());
    }
}

#[test]
fn shuffle_changes_some_order() {
    let mut rng = XorShiftRng::seed_from_u64(9);
    let mut changed = 0;
    for _ in 0..50 {
        let u = Usage::sample(&mut rng);
        let plain = u.to_document();
        let before = document_to_text(&plain);
        let after = document_to_text(&deep_shuffle(plain, &mut rng));
        if before != after {
            changed += 1;
        }
    }
    assert!(changed > 40);
}

#[test]
fn text_escapes_strings() {
    let doc = JsonDocument {
        entries: vec![
            (s("a"), JsonNode::Leaf(JsonLeaf::Text(s("say \"hi\"")))),
            (s("n"), JsonNode::Leaf(JsonLeaf::Int(42))),
            (s("o"), JsonNode::Object(vec![(s("x"), JsonLeaf::Int(0))])),
            (s("e"), JsonNode::Object(vec![])),
        ],
    };
    assert_eq!(document_to_text(&doc), "{\"a\":\"say \\\"hi\\\"\",\"n\":42,\"o\":{\"x\":0},\"e\":{}}");
}

#[test]
fn drop_rates_match_their_probabilities() {
    let n = 50_000usize;
    let mut g = UsageGenerator::new(3, 25);
    let (mut first, mut last, mut full, mut email, mut cpu, mut time) = (0, 0, 0, 0, 0, 0);
    for _ in 0..n {
        let text = document_to_text(&g.next());
        let v: Value = serde_json::from_str(&text).unwrap();
        let a = &v["account"];
        if a.get("first_name").is_none() {
            first += 1;
        }
        if a.get("last_name").is_none() {
            last += 1;
        }
        if a.get("full_name").is_none() {
            full += 1;
        }
        if a["email"] == Value::from("") {
            email += 1;
        }
        if v["device"].get("cpu").is_none() {
            cpu += 1;
        }
        if v.get("usage_time").is_none() {
            time += 1;
        }
    }
    let rate = |k: usize| k as f64 / n as f64;
    assert!((rate(first + last + full) - 0.10).abs() < 0.01);
    for k in [first, last, full].iter() {
        assert!((rate(*k) - 0.10 / 3.0).abs() < 0.01);
    }
    assert!((rate(email) - 0.10).abs() < 0.01);
    assert!((rate(cpu) - 0.10).abs() < 0.01);
    assert!((rate(time) - 0.05).abs() < 0.01);
}

#[test]
fn level_two_drops_nothing() {
    let mut g = UsageGenerator::new(2, 12);
    for _ in 0..500 {
        let v: Value = serde_json::from_str(&document_to_text(&g.next())).unwrap();
        assert_eq!(v.as_object().unwrap().len(), 5);
        assert_eq!(v["account"].as_object().unwrap().len(), 6);
        assert_eq!(v["device"].as_object().unwrap().len(), 4);
    }
}
