use challenge::generator::seed;
use challenge::page::{
    difficulty_for_page, page_size, plan_response, Outcome, PageStream, ResponsePlan,
};
use serde_json::Value;

fn chunks(difficulty: u64, page_no: usize) -> Vec<String> {
    let mut s = PageStream::new(difficulty, page_no);
    let mut out = Vec::new();
    while let Some(c) = s.next_chunk() {
        out.push(c);
    }
    out
}

fn page(difficulty: u64, page_no: usize) -> Value {
    let text: String = chunks(difficulty, page_no).concat();
    serde_json::from_str(&text).expect("a page is valid JSON")
}

#[test]
fn same_page_twice_is_identical() {
    for &(d, p) in &[(1u64, 5usize), (2, 15), (3, 27), (5, 44), (6, 55)] {
        assert_eq!(chunks(d, p), chunks(d, p));
    }
}

#[test]
fn different_pages_differ() {
    assert_ne!(chunks(1, 3), chunks(1, 4));
}

#[test]
fn page_has_ten_records_below_seven() {
    for d in 1..7u64 {
        let c = chunks(d, 3);
        assert_eq!(c.len(), 10 + 2);
        let v = page(d, 3);
        assert_eq!(v["usages"].as_array().unwrap().len(), 10);
    }
}

#[test]
fn page_has_thousand_records_at_seven() {
    let c = chunks(7, 61);
    assert_eq!(c.len(), 1000 + 2);
    assert_eq!(page_size(7), 1000);
    assert_eq!(page_size(8), 1000);
    assert_eq!(page_size(6), 10);
}

#[test]
fn chunks_are_framed() {
    let c = chunks(1, 5);
    assert_eq!(c[0], "{\"level\": 1, \"usages\": [");
    assert_eq!(c[c.len() - 1], "]}");
    for r in &c[1..10] {
        assert!(r.ends_with("},"));
    }
    assert!(c[10].ends_with('}'));
    assert!(!c[10].ends_with(','));
}

#[test]
fn closed_stream_yields_nothing_more() {
    let mut s = PageStream::new(2, 12);
    let mut n = 0;
    while s.next_chunk().is_some() {
        n += 1;
    }
    assert_eq!(n, 12);
    assert!(s.next_chunk().is_none());
}

#[test]
fn level_one_page_five_is_well_formed() {
    let v = page(1, 5);
    assert_eq!(v["level"], Value::from(1));
    let usages = v["usages"].as_array().unwrap();
    assert_eq!(usages.len(), 10);
    for u in usages {
        let top: Vec<&String> = u.as_object().unwrap().keys().collect();
        assert_eq!(top.len(), 5);
        for k in &["uuid", "account", "device", "usage_date", "usage_time"] {
            assert!(u.get(*k).is_some(), "missing {}", k);
        }
        let a = u["account"].as_object().unwrap();
        assert_eq!(a.len(), 6);
        assert!(a["is_demo"].is_boolean());
        let first = a["first_name"].as_str().unwrap();
        let last = a["last_name"].as_str().unwrap();
        assert_eq!(a["full_name"].as_str().unwrap(), format!("{} {}", first, last));
        assert!(a["email"].as_str().unwrap().ends_with("@example.com"));
        let d = u["device"].as_object().unwrap();
        assert_eq!(d.len(), 4);
        assert!(d["ip_address"].as_str().unwrap().starts_with("192.168."));
        let created = chrono::DateTime::parse_from_rfc3339(a["created_on"].as_str().unwrap())
            .expect("canonical created_on");
        let used = chrono::DateTime::parse_from_rfc3339(u["usage_date"].as_str().unwrap())
            .expect("canonical usage_date");
        assert!(created <= used);
        let t = u["usage_time"].as_u64().unwrap();
        assert!(t >= 3000 && t < 86_400_000);
        let id = u["uuid"].as_str().unwrap();
        assert_eq!(id.len(), 36);
        assert_eq!(id.matches('-').count(), 4);
        assert_eq!(id, id.to_lowercase());
    }
}

#[test]
fn level_one_keeps_key_order() {
    let text = chunks(1, 2)[1].clone();
    let order = ["\"uuid\"", "\"account\"", "\"first_name\"", "\"last_name\"", "\"full_name\"",
        "\"email\"", "\"created_on\"", "\"is_demo\"", "\"device\"", "\"hostname\"", "\"ip_address\"",
        "\"operating_system\"", "\"cpu\"", "\"usage_date\"", "\"usage_time\""];
    let mut at = 0;
    for k in order.iter() {
        let i = text[at..].find(k).expect("key in order");
        at += i + k.len();
    }
}

#[test]
fn level_five_varies_usage_dates() {
    let mut ints = 0;
    let mut texts = 0;
    for p in 40..50 {
        let v = page(5, p);
        for u in v["usages"].as_array().unwrap() {
            match &u["usage_date"] {
                Value::Number(_) => ints += 1,
                Value::String(s) => {
                    if chrono::DateTime::parse_from_rfc3339(s).is_err() {
                        chrono::DateTime::parse_from_rfc2822(s).expect("RFC 2822 date");
                        texts += 1;
                    }
                }
                _ => panic!("usage_date of another kind"),
            }
        }
    }
    assert!(ints > 0);
    assert!(texts > 0);
}

#[test]
fn level_six_attaches_images() {
    let mut with = 0;
    for p in 50..55 {
        let v = page(6, p);
        for u in v["usages"].as_array().unwrap() {
            if let Some(img) = u["account"].get("profile_picture") {
                assert_eq!(img.as_str().unwrap().len(), 262144);
                with += 1;
            }
        }
    }
    assert!(with > 5 && with < 40);
}

#[test]
fn pages_map_to_difficulties() {
    assert_eq!(difficulty_for_page(0), Some(1));
    assert_eq!(difficulty_for_page(9), Some(1));
    assert_eq!(difficulty_for_page(10), Some(2));
    assert_eq!(difficulty_for_page(35), Some(4));
    assert_eq!(difficulty_for_page(69), Some(7));
}

#[test]
fn pages_from_seventy_complete() {
    for p in [70usize, 71, 100, 12345, usize::MAX].iter() {
        assert_eq!(difficulty_for_page(*p), None);
    }
    for &(w, f, k) in &[(false, false, 0u64), (true, true, 4), (true, false, 2)] {
        let ResponsePlan { delay_ms, outcome } = plan_response(9, w, 5000, f, k);
        assert_eq!(delay_ms, 0);
        assert!(matches!(outcome, Outcome::Complete));
    }
}

#[test]
fn faults_pick_one_of_five_statuses() {
    let codes: Vec<u16> = (0..5)
        .map(|k| match plan_response(4, false, 1500, true, k).outcome {
            Outcome::Fault(c) => c,
            _ => panic!("expected a fault"),
        })
        .collect();
    assert_eq!(codes, vec![500, 502, 503, 507, 504]);
}

#[test]
fn delay_only_at_four_and_five() {
    assert_eq!(plan_response(4, true, 3000, false, 0).delay_ms, 3000);
    assert_eq!(plan_response(5, true, 1500, false, 0).delay_ms, 1500);
    assert_eq!(plan_response(6, true, 3000, false, 0).delay_ms, 0);
    assert_eq!(plan_response(3, true, 3000, true, 0).delay_ms, 0);
    assert!(matches!(plan_response(3, true, 3000, true, 0).outcome, Outcome::Page(3)));
    assert!(matches!(plan_response(5, false, 1500, false, 0).outcome, Outcome::Page(5)));
}

#[test]
fn seed_combines_level_and_page() {
    assert_eq!(seed(1, 5), (10u64 << 17) + 5);
    assert_eq!(seed(7, 61), (10u64 << 23) + 61);
}
