//! Compact JSON text of documents, written piece by piece.

use crate::json::{JsonDocument, JsonLeaf, JsonNode};
use vstd::prelude::*;

verus! {

/// A JSON string literal for `s`, quotes and escapes included, as serde_json
/// writes it.
pub uninterp spec fn json_quoted(s: Seq<char>) -> Seq<char>;

/// The decimal digit for `d < 10`.
pub open spec fn digit(d: nat) -> char {
    ((d + '0' as nat) as u8) as char
}

/// The decimal form of `n`, without sign or leading zeros.
pub open spec fn decimal_of(n: nat) -> Seq<char>
    decreases n,
{
    if n < 10 {
        seq![digit(n)]
    } else {
        decimal_of(n / 10).push(digit(n % 10))
    }
}

/// Relies on serde_json's `Display` for `Value::String`: the string as a
/// JSON literal.
#[verifier::external_body]
fn quote(s: &String) -> (r: String)
    ensures
        r@ == json_quoted(s@),
{
    serde_json::Value::String(s.clone()).to_string()
}

/// The single-digit text of `d < 10`.
fn digit_text(d: u64) -> (r: &'static str)
    requires
        d < 10,
    ensures
        r@ == seq![digit(d as nat)],
{
    proof {
        reveal_strlit("0");
        reveal_strlit("1");
        reveal_strlit("2");
        reveal_strlit("3");
        reveal_strlit("4");
        reveal_strlit("5");
        reveal_strlit("6");
        reveal_strlit("7");
        reveal_strlit("8");
        reveal_strlit("9");
    }
    match d {
        0 => "0",
        1 => "1",
        2 => "2",
        3 => "3",
        4 => "4",
        5 => "5",
        6 => "6",
        7 => "7",
        8 => "8",
        _ => "9",
    }
}

/// The decimal digits of `n`.
pub(crate) fn decimal(n: u64) -> (r: String)
    ensures
        r@ == decimal_of(n as nat),
    decreases n,
{
    if n < 10 {
        String::from_str(digit_text(n))
    } else {
        let mut s = decimal(n / 10);
        s.append(digit_text(n % 10));
        s
    }
}

/// The text of a scalar.
pub open spec fn leaf_text(l: JsonLeaf) -> Seq<char> {
    match l {
        JsonLeaf::Bool(b) => if b {
            "true"@
        } else {
            "false"@
        },
        JsonLeaf::Int(n) => decimal_of(n as nat),
        JsonLeaf::Text(s) => json_quoted(s@),
    }
}

/// The text of one member: its quoted key, a colon and its value's text.
pub open spec fn member_text(k: String, value: Seq<char>) -> Seq<char> {
    json_quoted(k@) + seq![':'] + value
}

/// The comma-separated members of an object of scalars.
pub open spec fn leaf_members_text(es: Seq<(String, JsonLeaf)>) -> Seq<char>
    decreases es.len(),
{
    if es.len() == 0 {
        seq![]
    } else if es.len() == 1 {
        member_text(es[0].0, leaf_text(es[0].1))
    } else {
        leaf_members_text(es.drop_last()) + seq![','] + member_text(
            es.last().0,
            leaf_text(es.last().1),
        )
    }
}

/// The text of a member value.
pub open spec fn node_text(n: JsonNode) -> Seq<char> {
    match n {
        JsonNode::Leaf(l) => leaf_text(l),
        JsonNode::Object(es) => seq!['{'] + leaf_members_text(es@) + seq!['}'],
    }
}

/// The comma-separated members of a document.
pub open spec fn doc_members_text(es: Seq<(String, JsonNode)>) -> Seq<char>
    decreases es.len(),
{
    if es.len() == 0 {
        seq![]
    } else if es.len() == 1 {
        member_text(es[0].0, node_text(es[0].1))
    } else {
        doc_members_text(es.drop_last()) + seq![','] + member_text(
            es.last().0,
            node_text(es.last().1),
        )
    }
}

/// The compact JSON text of a document.
pub open spec fn document_text(d: JsonDocument) -> Seq<char> {
    seq!['{'] + doc_members_text(d.entries@) + seq!['}']
}

/// Writes the text of a scalar.
pub fn leaf_to_text(l: &JsonLeaf) -> (r: String)
    ensures
        r@ == leaf_text(*l),
{
    match l {
        JsonLeaf::Bool(b) => if *b {
            String::from_str("true")
        } else {
            String::from_str("false")
        },
        JsonLeaf::Int(n) => decimal(*n),
        JsonLeaf::Text(s) => quote(s),
    }
}

fn append_member(out: &mut String, first: bool, key: &String, value: &String)
    ensures
        final(out)@ == old(out)@ + (if first {
            seq![]
        } else {
            seq![',']
        }) + member_text(*key, value@),
{
    if !first {
        proof {
            reveal_strlit(",");
        }
        out.append(",");
    }
    let q = quote(key);
    out.append(q.as_str());
    proof {
        reveal_strlit(":");
    }
    out.append(":");
    out.append(value.as_str());
    proof {
        assert(final(out)@ =~= old(out)@ + (if first {
            seq![]
        } else {
            seq![',']
        }) + member_text(*key, value@));
    }
}

/// Writes the text of a member value.
pub fn node_to_text(n: &JsonNode) -> (r: String)
    ensures
        r@ == node_text(*n),
{
    match n {
        JsonNode::Leaf(l) => leaf_to_text(l),
        JsonNode::Object(es) => {
            let mut out = String::new();
            proof {
                reveal_strlit("{");
            }
            out.append("{");
            let mut i: usize = 0;
            while i < es.len()
                invariant
                    i <= es@.len(),
                    out@ == seq!['{'] + leaf_members_text(es@.take(i as int)),
                decreases es@.len() - i,
            {
                let value = leaf_to_text(&es[i].1);
                append_member(&mut out, i == 0, &es[i].0, &value);
                proof {
                    let t = es@.take(i as int + 1);
                    assert(t.drop_last() =~= es@.take(i as int));
                    assert(t.last() == es@[i as int]);
                    if i == 0 {
                        assert(t.len() == 1);
                    }
                }
                i = i + 1;
            }
            proof {
                reveal_strlit("}");
                assert(es@.take(es@.len() as int) =~= es@);
            }
            out.append("}");
            out
        },
    }
}

/// Writes the compact JSON text of a document.
pub fn document_to_text(d: &JsonDocument) -> (r: String)
    ensures
        r@ == document_text(*d),
{
    let es = &d.entries;
    let mut out = String::new();
    proof {
        reveal_strlit("{");
    }
    out.append("{");
    let mut i: usize = 0;
    while i < es.len()
        invariant
            es == &d.entries,
            i <= es@.len(),
            out@ == seq!['{'] + doc_members_text(es@.take(i as int)),
        decreases es@.len() - i,
    {
        let value = node_to_text(&es[i].1);
        append_member(&mut out, i == 0, &es[i].0, &value);
        proof {
            let t = es@.take(i as int + 1);
            assert(t.drop_last() =~= es@.take(i as int));
            assert(t.last() == es@[i as int]);
            if i == 0 {
                assert(t.len() == 1);
            }
        }
        i = i + 1;
    }
    proof {
        reveal_strlit("}");
        assert(es@.take(es@.len() as int) =~= es@);
    }
    out.append("}");
    out
}

} // verus!
