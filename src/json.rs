//! The JSON shape of a usage record: an object whose members are scalars or
//! objects of scalars, with the key-order shuffle that recurses into the
//! nested objects.

use crate::rng::shuffle_in_place;
use rand_xorshift::XorShiftRng;
use vstd::multiset::Multiset;
use vstd::prelude::*;
use vstd::seq_lib::{commutative_foldl, lemma_fold_left_permutation};

verus! {

/// A scalar JSON value.
pub enum JsonLeaf {
    Bool(bool),
    Int(u64),
    Text(String),
}

/// The value of a record member: a scalar, or an object of scalars.
pub enum JsonNode {
    Leaf(JsonLeaf),
    Object(Vec<(String, JsonLeaf)>),
}

/// A JSON object with its members in iteration order.
pub struct JsonDocument {
    pub entries: Vec<(String, JsonNode)>,
}

/// Adds the key of one member of a nested object.
pub open spec fn leaf_key_step() -> spec_fn(Multiset<Seq<char>>, (String, JsonLeaf)) -> Multiset<
    Seq<char>,
> {
    |m: Multiset<Seq<char>>, e: (String, JsonLeaf)| m.insert(e.0@)
}

/// The multiset of keys of an object of scalars.
pub open spec fn leaf_keys(es: Seq<(String, JsonLeaf)>) -> Multiset<Seq<char>> {
    es.fold_left(Multiset::empty(), leaf_key_step())
}

/// The keys found inside a member value.
pub open spec fn node_keys(n: JsonNode) -> Multiset<Seq<char>> {
    match n {
        JsonNode::Leaf(_) => Multiset::empty(),
        JsonNode::Object(es) => leaf_keys(es@),
    }
}

/// Adds the key of one top-level member and the keys nested in its value.
pub open spec fn doc_key_step() -> spec_fn(Multiset<Seq<char>>, (String, JsonNode)) -> Multiset<
    Seq<char>,
> {
    |m: Multiset<Seq<char>>, e: (String, JsonNode)| m.insert(e.0@).add(node_keys(e.1))
}

/// The multiset of all keys of a document, top-level and nested.
pub open spec fn doc_keys(es: Seq<(String, JsonNode)>) -> Multiset<Seq<char>> {
    es.fold_left(Multiset::empty(), doc_key_step())
}

proof fn lemma_leaf_step_commutes()
    ensures
        commutative_foldl(leaf_key_step()),
{
    assert forall|x: (String, JsonLeaf), y: (String, JsonLeaf), v: Multiset<Seq<char>>|
        #[trigger] (leaf_key_step())((leaf_key_step())(v, x), y) == (leaf_key_step())(
            (leaf_key_step())(v, y),
            x,
        ) by {
        assert(v.insert(x.0@).insert(y.0@) =~= v.insert(y.0@).insert(x.0@));
    }
}

proof fn lemma_doc_step_commutes()
    ensures
        commutative_foldl(doc_key_step()),
{
    assert forall|x: (String, JsonNode), y: (String, JsonNode), v: Multiset<Seq<char>>|
        #[trigger] (doc_key_step())((doc_key_step())(v, x), y) == (doc_key_step())(
            (doc_key_step())(v, y),
            x,
        ) by {
        assert(v.insert(x.0@).add(node_keys(x.1)).insert(y.0@).add(node_keys(y.1)) =~= v.insert(
            y.0@,
        ).add(node_keys(y.1)).insert(x.0@).add(node_keys(x.1)));
    }
}

/// Two member lists that agree key by key, and in the keys nested in each
/// value, have the same multiset of keys.
proof fn lemma_doc_keys_pointwise(a: Seq<(String, JsonNode)>, b: Seq<(String, JsonNode)>)
    requires
        a.len() == b.len(),
        forall|j: int|
            0 <= j < a.len() ==> a[j].0@ == b[j].0@ && node_keys(a[j].1) == node_keys(b[j].1),
    ensures
        doc_keys(a) == doc_keys(b),
    decreases a.len(),
{
    if a.len() > 0 {
        lemma_doc_keys_pointwise(a.drop_last(), b.drop_last());
    }
}

/// A member value with the order of a nested object forgotten.
pub enum CanonNode {
    Leaf(LeafView),
    Object(Multiset<(Seq<char>, LeafView)>),
}

/// A member value up to the order of its nested object.
pub open spec fn canon_node(n: NodeView) -> CanonNode {
    match n {
        NodeView::Leaf(l) => CanonNode::Leaf(l),
        NodeView::Object(es) => CanonNode::Object(es.to_multiset()),
    }
}

/// A member up to the order of its nested object.
pub open spec fn canon_entry(e: (Seq<char>, NodeView)) -> (Seq<char>, CanonNode) {
    (e.0, canon_node(e.1))
}

/// A document up to the order of its members and of its nested objects:
/// the multiset of its members, each with its key, its value, and its
/// nested object as a multiset.
pub open spec fn canonical(d: Seq<(Seq<char>, NodeView)>) -> Multiset<(Seq<char>, CanonNode)> {
    d.map_values(|e: (Seq<char>, NodeView)| canon_entry(e)).to_multiset()
}

/// Adds the image of one item under `f`.
pub open spec fn insert_image<A, B>(f: spec_fn(A) -> B) -> spec_fn(Multiset<B>, A) -> Multiset<B> {
    |m: Multiset<B>, a: A| m.insert(f(a))
}

proof fn lemma_map_fold<A, B>(s: Seq<A>, f: spec_fn(A) -> B)
    ensures
        s.map_values(f).to_multiset() == s.fold_left(Multiset::empty(), insert_image(f)),
    decreases s.len(),
{
    broadcast use vstd::seq_lib::group_to_multiset_ensures;

    if s.len() > 0 {
        lemma_map_fold(s.drop_last(), f);
        assert(s.map_values(f) =~= s.drop_last().map_values(f).push(f(s.last())));
    } else {
        assert(s.map_values(f).to_multiset() =~= Multiset::empty());
    }
}

/// Mapping two permutations of each other gives permutations of each other.
proof fn lemma_map_permutation<A, B>(s1: Seq<A>, s2: Seq<A>, f: spec_fn(A) -> B)
    requires
        s1.to_multiset() == s2.to_multiset(),
    ensures
        s1.map_values(f).to_multiset() == s2.map_values(f).to_multiset(),
{
    assert forall|x: A, y: A, v: Multiset<B>|
        #[trigger] (insert_image(f))((insert_image(f))(v, x), y) == (insert_image(f))(
            (insert_image(f))(v, y),
            x,
        ) by {
        assert(v.insert(f(x)).insert(f(y)) =~= v.insert(f(y)).insert(f(x)));
    }
    lemma_fold_left_permutation(s1, s2, insert_image(f), Multiset::empty());
    lemma_map_fold(s1, f);
    lemma_map_fold(s2, f);
}

/// Shuffles the member order of an object of scalars, keeping its members.
fn shuffle_object(es: &mut Vec<(String, JsonLeaf)>, rng: &mut XorShiftRng)
    ensures
        final(es)@.to_multiset() == old(es)@.to_multiset(),
        leaf_keys(final(es)@) == leaf_keys(old(es)@),
        leaf_entries_view(final(es)@).to_multiset() == leaf_entries_view(old(es)@).to_multiset(),
{
    shuffle_in_place(es, rng);
    proof {
        let f = |e: (String, JsonLeaf)| (e.0@, e.1@);
        lemma_map_permutation(es@, old(es)@, f);
        assert(leaf_entries_view(es@) =~= es@.map_values(f));
        assert(leaf_entries_view(old(es)@) =~= old(es)@.map_values(f));
        lemma_leaf_step_commutes();
        lemma_fold_left_permutation(es@, old(es)@, leaf_key_step(), Multiset::empty());
    }
}

/// Shuffles the member order of the document and of every object nested in
/// it. Only the order changes: the multiset of top-level and nested keys is
/// the same afterwards, and so is the multiset of members, each with its key
/// and value and with its nested object kept as a permutation of the
/// original.
pub fn deep_shuffle(doc: JsonDocument, rng: &mut XorShiftRng) -> (r: JsonDocument)
    ensures
        canonical(r@) == canonical(doc@),
        doc_keys(r.entries@) == doc_keys(doc.entries@),
        r.entries@.len() == doc.entries@.len(),
{
    let mut entries = doc.entries;
    shuffle_in_place(&mut entries, rng);
    let ghost top = entries@;
    let ghost n = top.len();
    let mut out: Vec<(String, JsonNode)> = Vec::new();
    let ghost mut i: int = 0;
    while entries.len() > 0
        invariant
            0 <= i <= n,
            n == top.len(),
            entries@ == top.subrange(i, n as int),
            out@.len() == i,
            forall|j: int|
                0 <= j < i ==> out@[j].0@ == top[j].0@ && node_keys(out@[j].1) == node_keys(
                    top[j].1,
                ) && canon_node(out@[j].1@) == canon_node(top[j].1@),
        decreases entries.len(),
    {
        let (key, node) = entries.remove(0);
        let shuffled = match node {
            JsonNode::Object(mut es) => {
                shuffle_object(&mut es, rng);
                JsonNode::Object(es)
            },
            leaf => leaf,
        };
        out.push((key, shuffled));
        proof {
            i = i + 1;
        }
    }
    proof {
        broadcast use vstd::seq_lib::group_to_multiset_ensures;

        assert(top.to_multiset().len() == doc.entries@.to_multiset().len());
        lemma_doc_keys_pointwise(out@, top);
        lemma_doc_step_commutes();
        lemma_fold_left_permutation(top, doc.entries@, doc_key_step(), Multiset::empty());
        let g = |e: (String, JsonNode)| canon_entry((e.0@, e.1@));
        let h = |e: (Seq<char>, NodeView)| canon_entry(e);
        lemma_map_permutation(top, doc.entries@, g);
        assert(doc_entries_view(out@).map_values(h) =~= top.map_values(g));
        assert(doc_entries_view(doc.entries@).map_values(h) =~= doc.entries@.map_values(g));
    }
    JsonDocument { entries: out }
}

/// A copy of a scalar.
pub fn copy_leaf(l: &JsonLeaf) -> (r: JsonLeaf)
    ensures
        r == *l,
{
    match l {
        JsonLeaf::Bool(b) => JsonLeaf::Bool(*b),
        JsonLeaf::Int(n) => JsonLeaf::Int(*n),
        JsonLeaf::Text(s) => JsonLeaf::Text(s.clone()),
    }
}

/// Whether some member of `es` has the key `k`.
pub open spec fn has_key<V>(es: Seq<(String, V)>, k: Seq<char>) -> bool {
    exists|i: int| 0 <= i < es.len() && #[trigger] es[i].0@ == k
}

/// The members of `es` without those whose key is `k`.
pub open spec fn without_key<V>(es: Seq<(String, V)>, k: Seq<char>) -> Seq<(String, V)> {
    es.filter(|e: (String, V)| e.0@ != k)
}

/// Every member of `es` keyed `key` takes the value `v`; where there is none,
/// `(key, v)` is appended.
pub open spec fn put_leaf(es: Seq<(String, JsonLeaf)>, key: String, v: JsonLeaf) -> Seq<
    (String, JsonLeaf),
> {
    if has_key(es, key@) {
        es.map_values(put_step(key, v))
    } else {
        es.push((key, v))
    }
}

/// Gives a member keyed like `key` the value `v`.
pub open spec fn put_step(key: String, v: JsonLeaf) -> spec_fn((String, JsonLeaf)) -> (
    String,
    JsonLeaf,
) {
    |e: (String, JsonLeaf)| if e.0@ == key@ { (e.0, v) } else { e }
}

/// A change to the members of a nested object.
pub enum NestedEdit {
    /// Removes the members with this key.
    Remove(String),
    /// Sets the member with this key to this value.
    Put(String, JsonLeaf),
}

/// The members of a nested object after `edit`.
pub open spec fn edited(es: Seq<(String, JsonLeaf)>, edit: NestedEdit) -> Seq<(String, JsonLeaf)> {
    match edit {
        NestedEdit::Remove(k) => without_key(es, k@),
        NestedEdit::Put(k, v) => put_leaf(es, k, v),
    }
}

/// Member `b` is member `a` after `edit` is applied to the object under the
/// key `outer`; any other member is left as it is.
pub open spec fn member_edited(
    a: (String, JsonNode),
    b: (String, JsonNode),
    outer: Seq<char>,
    edit: NestedEdit,
) -> bool {
    &&& b.0 == a.0
    &&& if a.0@ == outer && a.1 is Object {
        b.1 is Object && b.1->Object_0@ == edited(a.1->Object_0@, edit)
    } else {
        b.1 == a.1
    }
}

fn copy_edit(e: &NestedEdit) -> (r: NestedEdit)
    ensures
        r == *e,
{
    match e {
        NestedEdit::Remove(k) => NestedEdit::Remove(k.clone()),
        NestedEdit::Put(k, v) => NestedEdit::Put(k.clone(), copy_leaf(v)),
    }
}

fn remove_key<V>(es: Vec<(String, V)>, key: &String) -> (r: Vec<(String, V)>)
    ensures
        r@ == without_key(es@, key@),
{
    let ghost orig = es@;
    let ghost n = orig.len();
    let mut rest = es;
    let mut out: Vec<(String, V)> = Vec::new();
    let ghost mut i: int = 0;
    while rest.len() > 0
        invariant
            0 <= i <= n,
            n == orig.len(),
            rest@ == orig.subrange(i, n as int),
            out@ == without_key(orig.take(i), key@),
        decreases rest.len(),
    {
        let (k, v) = rest.remove(0);
        proof {
            assert(orig.take(i + 1).drop_last() =~= orig.take(i));
            assert(orig.take(i + 1).last() == (k, v));
            reveal(Seq::filter);
        }
        if !k.eq(key) {
            out.push((k, v));
        }
        proof {
            i = i + 1;
        }
    }
    proof {
        assert(orig.take(n as int) =~= orig);
    }
    out
}

fn put_leaf_in(es: Vec<(String, JsonLeaf)>, key: String, v: JsonLeaf) -> (r: Vec<
    (String, JsonLeaf),
>)
    ensures
        r@ == put_leaf(es@, key, v),
{
    let ghost orig = es@;
    let ghost n = orig.len();
    let mut rest = es;
    let mut out: Vec<(String, JsonLeaf)> = Vec::new();
    let mut found = false;
    let ghost mut i: int = 0;
    while rest.len() > 0
        invariant
            0 <= i <= n,
            n == orig.len(),
            rest@ == orig.subrange(i, n as int),
            out@ == orig.take(i).map_values(put_step(key, v)),
            found == has_key(orig.take(i), key@),
        decreases rest.len(),
    {
        let (k, old_v) = rest.remove(0);
        proof {
            assert(orig[i] == (k, old_v));
        }
        if k.eq(&key) {
            out.push((k, copy_leaf(&v)));
            found = true;
        } else {
            out.push((k, old_v));
        }
        proof {
            assert forall|j: int| 0 <= j < i + 1 implies out@[j] == orig.take(i + 1).map_values(put_step(key, v))[j] by {
                if j < i {
                    assert(orig.take(i + 1)[j] == orig.take(i)[j]);
                } else {
                    assert(orig.take(i + 1)[j] == orig[i]);
                }
            }
            assert(out@ =~= orig.take(i + 1).map_values(put_step(key, v)));
            if found && !has_key(orig.take(i), key@) {
                assert(orig.take(i + 1)[i].0@ == key@);
            }
            if has_key(orig.take(i + 1), key@) && !has_key(orig.take(i), key@) {
                let j = choose|j: int| 0 <= j < i + 1 && #[trigger] orig.take(i + 1)[j].0@ == key@;
                assert(j == i);
            }
            i = i + 1;
        }
    }
    proof {
        assert(orig.take(n as int) =~= orig);
    }
    if !found {
        proof {
            assert(out@ =~= orig) by {
                assert forall|j: int| 0 <= j < n implies out@[j] == orig[j] by {
                    assert(orig[j].0@ != key@);
                }
            }
        }
        out.push((key, v));
    }
    out
}

fn apply_edit(es: Vec<(String, JsonLeaf)>, edit: NestedEdit) -> (r: Vec<(String, JsonLeaf)>)
    ensures
        r@ == edited(es@, edit),
{
    match edit {
        NestedEdit::Remove(k) => remove_key(es, &k),
        NestedEdit::Put(k, v) => put_leaf_in(es, k, v),
    }
}

/// Applies `edit` to every nested object kept under the key `outer`.
pub fn edit_nested(doc: &mut JsonDocument, outer: &String, edit: NestedEdit)
    ensures
        final(doc).entries@.len() == old(doc).entries@.len(),
        forall|j: int|
            0 <= j < old(doc).entries@.len() ==> member_edited(
                #[trigger] old(doc).entries@[j],
                final(doc).entries@[j],
                outer@,
                edit,
            ),
        final(doc)@ == edit_nested_view(old(doc)@, outer@, edit@),
{
    let ghost orig = doc.entries@;
    let ghost n = orig.len();
    let mut rest: Vec<(String, JsonNode)> = Vec::new();
    std::mem::swap(&mut rest, &mut doc.entries);
    let mut out: Vec<(String, JsonNode)> = Vec::new();
    let ghost mut i: int = 0;
    while rest.len() > 0
        invariant
            0 <= i <= n,
            n == orig.len(),
            rest@ == orig.subrange(i, n as int),
            out@.len() == i,
            forall|j: int| 0 <= j < i ==> member_edited(#[trigger] orig[j], out@[j], outer@, edit),
        decreases rest.len(),
    {
        let (k, node) = rest.remove(0);
        proof {
            assert(orig[i] == (k, node));
        }
        let is_outer = k.eq(outer);
        let changed = match node {
            JsonNode::Object(es) => {
                if is_outer {
                    JsonNode::Object(apply_edit(es, copy_edit(&edit)))
                } else {
                    JsonNode::Object(es)
                }
            },
            leaf => leaf,
        };
        out.push((k, changed));
        proof {
            i = i + 1;
        }
    }
    proof {
        assert forall|j: int| 0 <= j < n implies #[trigger] doc_entries_view(out@)[j]
            == edit_nested_view(doc_entries_view(orig), outer@, edit@)[j] by {
            assert(member_edited(orig[j], out@[j], outer@, edit));
            if orig[j].0@ == outer@ && orig[j].1 is Object {
                let es = orig[j].1->Object_0@;
                match edit {
                    NestedEdit::Remove(k) => lemma_leaf_drop_view(es, k@),
                    NestedEdit::Put(k, v) => lemma_leaf_put_view(es, k, v),
                }
            }
        }
        assert(doc_entries_view(out@) =~= edit_nested_view(doc_entries_view(orig), outer@, edit@));
    }
    doc.entries = out;
}

/// Removes the top-level members keyed `key`.
pub fn remove_member(doc: &mut JsonDocument, key: &String)
    ensures
        final(doc).entries@ == without_key(old(doc).entries@, key@),
        final(doc)@ == drop_key(old(doc)@, key@),
{
    let mut rest: Vec<(String, JsonNode)> = Vec::new();
    std::mem::swap(&mut rest, &mut doc.entries);
    proof {
        lemma_doc_drop_view(rest@, key@);
    }
    doc.entries = remove_key(rest, key);
}

/// Gives a top-level member keyed like `key` the scalar `v`.
pub open spec fn put_member_step(key: String, v: JsonLeaf) -> spec_fn((String, JsonNode)) -> (
    String,
    JsonNode,
) {
    |e: (String, JsonNode)| if e.0@ == key@ { (e.0, JsonNode::Leaf(v)) } else { e }
}

/// Every top-level member keyed `key` takes the scalar `v`; where there is
/// none, `(key, v)` is appended.
pub open spec fn put_member_spec(es: Seq<(String, JsonNode)>, key: String, v: JsonLeaf) -> Seq<
    (String, JsonNode),
> {
    if has_key(es, key@) {
        es.map_values(put_member_step(key, v))
    } else {
        es.push((key, JsonNode::Leaf(v)))
    }
}

/// Sets the top-level member keyed `key` to the scalar `v`.
pub fn put_member(doc: &mut JsonDocument, key: String, v: JsonLeaf)
    ensures
        final(doc).entries@ == put_member_spec(old(doc).entries@, key, v),
        final(doc)@ == set_key(old(doc)@, key@, NodeView::Leaf(v@)),
{
    let ghost orig = doc.entries@;
    let ghost n = orig.len();
    let mut rest: Vec<(String, JsonNode)> = Vec::new();
    std::mem::swap(&mut rest, &mut doc.entries);
    let mut out: Vec<(String, JsonNode)> = Vec::new();
    let mut found = false;
    let ghost mut i: int = 0;
    while rest.len() > 0
        invariant
            0 <= i <= n,
            n == orig.len(),
            rest@ == orig.subrange(i, n as int),
            out@ == orig.take(i).map_values(put_member_step(key, v)),
            found == has_key(orig.take(i), key@),
        decreases rest.len(),
    {
        let (k, old_v) = rest.remove(0);
        proof {
            assert(orig[i] == (k, old_v));
        }
        if k.eq(&key) {
            out.push((k, JsonNode::Leaf(copy_leaf(&v))));
            found = true;
        } else {
            out.push((k, old_v));
        }
        proof {
            assert forall|j: int| 0 <= j < i + 1 implies out@[j] == orig.take(i + 1).map_values(
                put_member_step(key, v),
            )[j] by {
                if j < i {
                    assert(orig.take(i + 1)[j] == orig.take(i)[j]);
                } else {
                    assert(orig.take(i + 1)[j] == orig[i]);
                }
            }
            assert(out@ =~= orig.take(i + 1).map_values(put_member_step(key, v)));
            if found && !has_key(orig.take(i), key@) {
                assert(orig.take(i + 1)[i].0@ == key@);
            }
            if has_key(orig.take(i + 1), key@) && !has_key(orig.take(i), key@) {
                let j = choose|j: int| 0 <= j < i + 1 && #[trigger] orig.take(i + 1)[j].0@ == key@;
                assert(j == i);
            }
            i = i + 1;
        }
    }
    proof {
        assert(orig.take(n as int) =~= orig);
    }
    if !found {
        proof {
            assert(out@ =~= orig) by {
                assert forall|j: int| 0 <= j < n implies out@[j] == orig[j] by {
                    assert(orig[j].0@ != key@);
                }
            }
        }
        out.push((key, JsonNode::Leaf(v)));
    }
    proof {
        lemma_doc_put_view(orig, key, v);
    }
    doc.entries = out;
}

/// A scalar as plain values.
pub enum LeafView {
    Bool(bool),
    Int(u64),
    Text(Seq<char>),
}

/// A member value as plain values.
pub enum NodeView {
    Leaf(LeafView),
    Object(Seq<(Seq<char>, LeafView)>),
}

impl View for JsonLeaf {
    type V = LeafView;

    open spec fn view(&self) -> LeafView {
        match self {
            JsonLeaf::Bool(b) => LeafView::Bool(*b),
            JsonLeaf::Int(n) => LeafView::Int(*n),
            JsonLeaf::Text(s) => LeafView::Text(s@),
        }
    }
}

/// The plain view of the members of an object of scalars.
pub open spec fn leaf_entries_view(es: Seq<(String, JsonLeaf)>) -> Seq<(Seq<char>, LeafView)> {
    es.map_values(|e: (String, JsonLeaf)| (e.0@, e.1@))
}

impl View for JsonNode {
    type V = NodeView;

    open spec fn view(&self) -> NodeView {
        match self {
            JsonNode::Leaf(l) => NodeView::Leaf(l@),
            JsonNode::Object(es) => NodeView::Object(leaf_entries_view(es@)),
        }
    }
}

/// The plain view of the members of a document.
pub open spec fn doc_entries_view(es: Seq<(String, JsonNode)>) -> Seq<(Seq<char>, NodeView)> {
    es.map_values(|e: (String, JsonNode)| (e.0@, e.1@))
}

impl View for JsonDocument {
    type V = Seq<(Seq<char>, NodeView)>;

    open spec fn view(&self) -> Seq<(Seq<char>, NodeView)> {
        doc_entries_view(self.entries@)
    }
}

/// The members of `es` without those keyed `k`.
pub open spec fn drop_key<V>(es: Seq<(Seq<char>, V)>, k: Seq<char>) -> Seq<(Seq<char>, V)> {
    es.filter(|e: (Seq<char>, V)| e.0 != k)
}

/// Every member of `es` keyed `k` takes the value `v`; where there is none,
/// `(k, v)` is appended.
pub open spec fn set_key<V>(es: Seq<(Seq<char>, V)>, k: Seq<char>, v: V) -> Seq<(Seq<char>, V)> {
    if exists|i: int| 0 <= i < es.len() && #[trigger] es[i].0 == k {
        es.map_values(|e: (Seq<char>, V)| if e.0 == k { (k, v) } else { e })
    } else {
        es.push((k, v))
    }
}

/// A change to a nested object, as plain values.
pub enum EditView {
    Remove(Seq<char>),
    Put(Seq<char>, LeafView),
}

impl View for NestedEdit {
    type V = EditView;

    open spec fn view(&self) -> EditView {
        match self {
            NestedEdit::Remove(k) => EditView::Remove(k@),
            NestedEdit::Put(k, v) => EditView::Put(k@, v@),
        }
    }
}

/// A nested object after `edit`, as plain values.
pub open spec fn edit_view(es: Seq<(Seq<char>, LeafView)>, edit: EditView) -> Seq<
    (Seq<char>, LeafView),
> {
    match edit {
        EditView::Remove(k) => drop_key(es, k),
        EditView::Put(k, v) => set_key(es, k, v),
    }
}

/// A document after `edit` is applied to each object under the key `outer`.
pub open spec fn edit_nested_view(
    d: Seq<(Seq<char>, NodeView)>,
    outer: Seq<char>,
    edit: EditView,
) -> Seq<(Seq<char>, NodeView)> {
    d.map_values(
        |e: (Seq<char>, NodeView)|
            if e.0 == outer && e.1 is Object {
                (e.0, NodeView::Object(edit_view(e.1->Object_0, edit)))
            } else {
                e
            },
    )
}

proof fn lemma_leaf_drop_view(es: Seq<(String, JsonLeaf)>, k: Seq<char>)
    ensures
        leaf_entries_view(without_key(es, k)) == drop_key(leaf_entries_view(es), k),
    decreases es.len(),
{
    reveal(Seq::filter);
    if es.len() > 0 {
        lemma_leaf_drop_view(es.drop_last(), k);
        assert(leaf_entries_view(es).drop_last() =~= leaf_entries_view(es.drop_last()));
        assert(leaf_entries_view(without_key(es.drop_last(), k).push(es.last()))
            =~= leaf_entries_view(without_key(es.drop_last(), k)).push(
            (es.last().0@, es.last().1@),
        ));
    }
}

proof fn lemma_doc_drop_view(es: Seq<(String, JsonNode)>, k: Seq<char>)
    ensures
        doc_entries_view(without_key(es, k)) == drop_key(doc_entries_view(es), k),
    decreases es.len(),
{
    reveal(Seq::filter);
    if es.len() > 0 {
        lemma_doc_drop_view(es.drop_last(), k);
        assert(doc_entries_view(es).drop_last() =~= doc_entries_view(es.drop_last()));
        assert(doc_entries_view(without_key(es.drop_last(), k).push(es.last()))
            =~= doc_entries_view(without_key(es.drop_last(), k)).push(
            (es.last().0@, es.last().1@),
        ));
    }
}

proof fn lemma_leaf_put_view(es: Seq<(String, JsonLeaf)>, key: String, v: JsonLeaf)
    ensures
        leaf_entries_view(put_leaf(es, key, v)) == set_key(leaf_entries_view(es), key@, v@),
{
    let ev = leaf_entries_view(es);
    if has_key(es, key@) {
        let i = choose|i: int| 0 <= i < es.len() && #[trigger] es[i].0@ == key@;
        assert(ev[i].0 == key@);
        assert(leaf_entries_view(put_leaf(es, key, v)) =~= set_key(ev, key@, v@));
    } else {
        assert forall|i: int| 0 <= i < ev.len() implies #[trigger] ev[i].0 != key@ by {
            assert(es[i].0@ != key@);
        }
        assert(leaf_entries_view(put_leaf(es, key, v)) =~= set_key(ev, key@, v@));
    }
}

proof fn lemma_doc_put_view(es: Seq<(String, JsonNode)>, key: String, v: JsonLeaf)
    ensures
        doc_entries_view(put_member_spec(es, key, v)) == set_key(
            doc_entries_view(es),
            key@,
            NodeView::Leaf(v@),
        ),
{
    let ev = doc_entries_view(es);
    if has_key(es, key@) {
        let i = choose|i: int| 0 <= i < es.len() && #[trigger] es[i].0@ == key@;
        assert(ev[i].0 == key@);
        assert(doc_entries_view(put_member_spec(es, key, v)) =~= set_key(
            ev,
            key@,
            NodeView::Leaf(v@),
        ));
    } else {
        assert forall|i: int| 0 <= i < ev.len() implies #[trigger] ev[i].0 != key@ by {
            assert(es[i].0@ != key@);
        }
        assert(doc_entries_view(put_member_spec(es, key, v)) =~= set_key(
            ev,
            key@,
            NodeView::Leaf(v@),
        ));
    }
}

} // verus!
