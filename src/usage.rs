//! The usage record: one synthetic application-usage event, and its
//! well-formed JSON document.

use crate::dates::{rfc3339, rfc3339_text, UsageDates};
use crate::fields::{
    email_address, ip_text, sample_first_name, sample_hostname, sample_last_name, Cpu,
    EmailPattern, Ip, OperatingSystem,
};
use crate::json::{leaf_entries_view, JsonDocument, JsonLeaf, JsonNode, LeafView, NodeView};
use crate::rng::{draw_bits, draw_range};
use rand_xorshift::XorShiftRng;
use uuid::Uuid;
use vstd::prelude::*;

verus! {

/// The hyphenated lower-case UUID text that the uuid crate gives for 128
/// bits.
pub uninterp spec fn uuid_text(bits: u128) -> Seq<char>;

/// Relies on uuid's `Uuid::from_u128` and the `Display` of its hyphenated
/// form: the standard lower-case text of the bits, `Hyphenated::LENGTH`
/// (36) characters long.
#[verifier::external_body]
fn hyphenated_uuid(bits: u128) -> (r: String)
    ensures
        r@ == uuid_text(bits),
        r@.len() == 36,
{
    Uuid::from_u128(bits).to_hyphenated().to_string()
}

/// The domain of every generated e-mail address.
pub open spec fn email_domain() -> Seq<char> {
    "example.com"@
}

/// One usage of the application by one user.
pub struct Usage {
    pub uuid: String,
    pub first_name: String,
    pub last_name: String,
    pub full_name: String,
    pub email: String,
    pub hostname: String,
    pub ip_address: String,
    pub operating_system: String,
    pub cpu: String,
    pub is_demo: bool,
    pub dates: UsageDates,
}

impl Usage {
    /// What holds of every synthesized record.
    pub open spec fn wf(&self) -> bool {
        &&& self.first_name@.len() > 0
        &&& self.last_name@.len() > 0
        &&& self.full_name@ == self.first_name@ + seq![' '] + self.last_name@
        &&& exists|i: nat|
            i < 7 && self.email@ == email_address(
                #[trigger] crate::fields::pattern_at(i),
                self.first_name@,
                self.last_name@,
                email_domain(),
            )
        &&& exists|x: nat, y: nat|
            x < 128 && 1 <= y < 255 && self.ip_address@ == #[trigger] ip_text(x, y)
        &&& exists|bits: u128| self.uuid@ == #[trigger] uuid_text(bits)
        &&& self.uuid@.len() == 36
        &&& exists|i: u64|
            i < crate::fields::FIRST_NAME_COUNT && self.first_name@
                == #[trigger] crate::fields::first_name_table(i)
        &&& exists|i: u64|
            i < crate::fields::LAST_NAME_COUNT && self.last_name@
                == #[trigger] crate::fields::last_name_table(i)
        &&& exists|a: u64, b: u64, n: u64|
            a < crate::fields::HOST_FRAGMENT_COUNT && b < crate::fields::HOST_FRAGMENT_COUNT && 1
                <= n < 100 && self.hostname@ == #[trigger] crate::fields::hostname_text(a, b, n)
        &&& exists|i: u64| i < crate::fields::OS_COUNT && self.operating_system@ == #[trigger] crate::fields::os_table(i)
        &&& exists|i: u64| i < crate::fields::CPU_COUNT && self.cpu@ == #[trigger] crate::fields::cpu_table(i)
        &&& self.dates.wf()
    }

    /// Synthesizes one record, drawing in a fixed order: names, e-mail
    /// pattern, IP address, hostname, UUID, operating system, CPU, dates and
    /// the demo flag.
    pub fn sample(rng: &mut XorShiftRng) -> (r: Usage)
        ensures
            r.wf(),
    {
        let first_name = sample_first_name(rng);
        let last_name = sample_last_name(rng);
        let mut full_name = first_name.clone();
        proof {
            reveal_strlit(" ");
        }
        full_name.append(" ");
        full_name.append(last_name.as_str());
        let domain = String::from_str("example.com");
        let pattern = EmailPattern::sample(rng);
        let email = pattern.for_name(&first_name, &last_name, &domain);
        let ip = Ip::sample(rng);
        let hostname = sample_hostname(rng);
        let uuid = hyphenated_uuid(draw_bits(rng));
        let operating_system = OperatingSystem::sample(rng);
        let cpu = Cpu::sample(rng);
        let dates = UsageDates::sample(rng);
        let is_demo = draw_range(rng, 0, 2) == 1;
        let r = Usage {
            uuid,
            first_name,
            last_name,
            full_name,
            email,
            hostname,
            ip_address: ip.address,
            operating_system: operating_system.name,
            cpu: cpu.name,
            is_demo,
            dates,
        };
        assert(r.full_name@ =~= r.first_name@ + seq![' '] + r.last_name@);
        r
    }

    /// The record's well-formed JSON document: `uuid`, an `account` object
    /// (names, e-mail, creation instant and the demo-account flag),
    /// a `device` object, `usage_date` and `usage_time`, in this order.
    pub fn to_document(self) -> (r: JsonDocument)
        requires
            self.dates.wf(),
        ensures
            is_document_of(self, r),
            r@ == usage_view(self),
    {
        let mut account: Vec<(String, JsonLeaf)> = Vec::new();
        account.push((String::from_str("first_name"), JsonLeaf::Text(self.first_name)));
        account.push((String::from_str("last_name"), JsonLeaf::Text(self.last_name)));
        account.push((String::from_str("full_name"), JsonLeaf::Text(self.full_name)));
        account.push((String::from_str("email"), JsonLeaf::Text(self.email)));
        account.push(
            (String::from_str("created_on"), JsonLeaf::Text(rfc3339(self.dates.created_on))),
        );
        account.push((String::from_str("is_demo"), JsonLeaf::Bool(self.is_demo)));
        let mut device: Vec<(String, JsonLeaf)> = Vec::new();
        device.push((String::from_str("hostname"), JsonLeaf::Text(self.hostname)));
        device.push((String::from_str("ip_address"), JsonLeaf::Text(self.ip_address)));
        device.push(
            (String::from_str("operating_system"), JsonLeaf::Text(self.operating_system)),
        );
        device.push((String::from_str("cpu"), JsonLeaf::Text(self.cpu)));
        let mut entries: Vec<(String, JsonNode)> = Vec::new();
        entries.push((String::from_str("uuid"), JsonNode::Leaf(JsonLeaf::Text(self.uuid))));
        entries.push((String::from_str("account"), JsonNode::Object(account)));
        entries.push((String::from_str("device"), JsonNode::Object(device)));
        entries.push(
            (
                String::from_str("usage_date"),
                JsonNode::Leaf(JsonLeaf::Text(rfc3339(self.dates.usage_date))),
            ),
        );
        entries.push(
            (String::from_str("usage_time"), JsonNode::Leaf(JsonLeaf::Int(self.dates.usage_time))),
        );
        let r = JsonDocument { entries };
        proof {
            let a = r.entries@[1].1->Object_0@;
            let v = r.entries@[2].1->Object_0@;
            assert(leaf_entries_view(a) =~= usage_view(self)[1].1->Object_0);
            assert(leaf_entries_view(v) =~= usage_view(self)[2].1->Object_0);
            assert(r@ =~= usage_view(self));
        }
        r
    }
}

/// The well-formed document of `u`, as plain values.
pub open spec fn usage_view(u: Usage) -> Seq<(Seq<char>, NodeView)> {
    seq![
        ("uuid"@, NodeView::Leaf(LeafView::Text(u.uuid@))),
        (
            "account"@,
            NodeView::Object(
                seq![
                    ("first_name"@, LeafView::Text(u.first_name@)),
                    ("last_name"@, LeafView::Text(u.last_name@)),
                    ("full_name"@, LeafView::Text(u.full_name@)),
                    ("email"@, LeafView::Text(u.email@)),
                    ("created_on"@, LeafView::Text(rfc3339_text(u.dates.created_on as nat))),
                    ("is_demo"@, LeafView::Bool(u.is_demo)),
                ],
            ),
        ),
        (
            "device"@,
            NodeView::Object(
                seq![
                    ("hostname"@, LeafView::Text(u.hostname@)),
                    ("ip_address"@, LeafView::Text(u.ip_address@)),
                    ("operating_system"@, LeafView::Text(u.operating_system@)),
                    ("cpu"@, LeafView::Text(u.cpu@)),
                ],
            ),
        ),
        ("usage_date"@, NodeView::Leaf(LeafView::Text(rfc3339_text(u.dates.usage_date as nat)))),
        ("usage_time"@, NodeView::Leaf(LeafView::Int(u.dates.usage_time))),
    ]
}

/// Member `e` of an object of scalars is `k` with the text `v`.
pub open spec fn text_leaf(e: (String, JsonLeaf), k: Seq<char>, v: Seq<char>) -> bool {
    e.0@ == k && e.1 is Text && e.1->Text_0@ == v
}

/// Member `e` of a document is `k` with the text `v`.
pub open spec fn text_member(e: (String, JsonNode), k: Seq<char>, v: Seq<char>) -> bool {
    e.0@ == k && e.1 is Leaf && e.1->Leaf_0 is Text && e.1->Leaf_0->Text_0@ == v
}

/// `d` is the well-formed document of `u`, members in their canonical order
/// and both instants in RFC 3339 form.
pub open spec fn is_document_of(u: Usage, d: JsonDocument) -> bool {
    let es = d.entries@;
    &&& es.len() == 5
    &&& text_member(es[0], "uuid"@, u.uuid@)
    &&& es[1].0@ == "account"@ && es[1].1 is Object
    &&& {
        let a = es[1].1->Object_0@;
        &&& a.len() == 6
        &&& text_leaf(a[0], "first_name"@, u.first_name@)
        &&& text_leaf(a[1], "last_name"@, u.last_name@)
        &&& text_leaf(a[2], "full_name"@, u.full_name@)
        &&& text_leaf(a[3], "email"@, u.email@)
        &&& text_leaf(a[4], "created_on"@, rfc3339_text(u.dates.created_on as nat))
        &&& a[5].0@ == "is_demo"@ && a[5].1 == JsonLeaf::Bool(u.is_demo)
    }
    &&& es[2].0@ == "device"@ && es[2].1 is Object
    &&& {
        let v = es[2].1->Object_0@;
        &&& v.len() == 4
        &&& text_leaf(v[0], "hostname"@, u.hostname@)
        &&& text_leaf(v[1], "ip_address"@, u.ip_address@)
        &&& text_leaf(v[2], "operating_system"@, u.operating_system@)
        &&& text_leaf(v[3], "cpu"@, u.cpu@)
    }
    &&& text_member(es[3], "usage_date"@, rfc3339_text(u.dates.usage_date as nat))
    &&& es[4].0@ == "usage_time"@ && es[4].1 == JsonNode::Leaf(JsonLeaf::Int(u.dates.usage_time))
}

} // verus!
