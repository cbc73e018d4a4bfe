//! The deterministic sequencer: a generator seeded from the difficulty and
//! the page number that yields usage documents, each corrupted according to
//! the difficulty.

use crate::dates::{epoch_seconds, rfc2822, rfc2822_text, EARLIEST_MS, LATEST_USAGE_MS};
use crate::json::{
    canonical, deep_shuffle, drop_key, edit_nested, edit_nested_view, put_member, remove_member,
    set_key, EditView, JsonDocument, JsonLeaf, LeafView, NestedEdit, NodeView,
};
use crate::rng::{draw_range, draw_ratio, seeded};
use crate::usage::{usage_view, Usage};
use rand_xorshift::XorShiftRng;
use vstd::arithmetic::power2::{lemma_pow2_unfold, pow2};
use vstd::prelude::*;

verus! {

/// The seed of the page `page_no` at difficulty `lvl`.
pub open spec fn seed_of(lvl: nat, page_no: nat) -> nat {
    10 * pow2(16 + lvl) + page_no
}

/// Computes the page's seed, `(10 << (16 + lvl)) + page_no`.
pub fn seed(lvl: u64, page_no: usize) -> (r: u64)
    requires
        seed_of(lvl as nat, page_no as nat) <= u64::MAX,
    ensures
        r == seed_of(lvl as nat, page_no as nat),
{
    let mut base: u64 = 10;
    let mut k: u64 = 0;
    proof {
        vstd::arithmetic::power2::lemma2_to64();
        if lvl > 48 {
            vstd::arithmetic::power2::lemma_pow2_strictly_increases(64, (16 + lvl) as nat);
        }
    }
    while k < 16 + lvl
        invariant
            k <= 16 + lvl,
            lvl <= 48,
            base == 10 * pow2(k as nat),
            seed_of(lvl as nat, page_no as nat) <= u64::MAX,
        decreases 16 + lvl - k,
    {
        proof {
            lemma_pow2_unfold((k + 1) as nat);
            if k + 1 < 16 + lvl {
                vstd::arithmetic::power2::lemma_pow2_strictly_increases(
                    (k + 1) as nat,
                    (16 + lvl) as nat,
                );
            }
        }
        base = base * 2;
        k = k + 1;
    }
    base + page_no as u64
}

/// The fields that the drop rule removes or blanks in one record.
pub struct DropChoice {
    /// Which name is dropped: 0 first, 1 last, 2 full name.
    pub name: Option<u64>,
    pub blank_email: bool,
    pub drop_cpu: bool,
    pub drop_usage_time: bool,
}

/// The choice that changes nothing.
pub open spec fn no_drops() -> DropChoice {
    DropChoice { name: None, blank_email: false, drop_cpu: false, drop_usage_time: false }
}

/// The key of the name field that `i` selects.
pub open spec fn name_key(i: u64) -> Seq<char> {
    if i == 0 {
        "first_name"@
    } else if i == 1 {
        "last_name"@
    } else {
        "full_name"@
    }
}

/// A document after the drop rule made choice `c`.
pub open spec fn after_drops(d: Seq<(Seq<char>, NodeView)>, c: DropChoice) -> Seq<
    (Seq<char>, NodeView),
> {
    let d1 = match c.name {
        Some(i) => edit_nested_view(d, "account"@, EditView::Remove(name_key(i))),
        None => d,
    };
    let d2 = if c.blank_email {
        edit_nested_view(d1, "account"@, EditView::Put("email"@, LeafView::Text(seq![])))
    } else {
        d1
    };
    let d3 = if c.drop_cpu {
        edit_nested_view(d2, "device"@, EditView::Remove("cpu"@))
    } else {
        d2
    };
    if c.drop_usage_time {
        drop_key(d3, "usage_time"@)
    } else {
        d3
    }
}

/// The form in which a record's usage date is written.
pub enum DateForm {
    Canonical,
    Epoch,
    Rfc2822,
}

/// A document after its usage date, `ms`, is written in `form`.
pub open spec fn after_date_form(d: Seq<(Seq<char>, NodeView)>, form: DateForm, ms: nat) -> Seq<
    (Seq<char>, NodeView),
> {
    match form {
        DateForm::Canonical => d,
        DateForm::Epoch => set_key(d, "usage_date"@, NodeView::Leaf(LeafView::Int((ms / 1000) as u64))),
        DateForm::Rfc2822 => set_key(d, "usage_date"@, NodeView::Leaf(LeafView::Text(rfc2822_text(ms)))),
    }
}

/// The number of characters of the filler image.
pub const IMAGE_LEN: usize = 262144;

/// The filler that stands for an embedded image.
pub open spec fn image_blob() -> Seq<char> {
    Seq::new(IMAGE_LEN as nat, |i: int| 'A')
}

/// A document after the image rule, which attaches the image when `add`.
pub open spec fn after_image(d: Seq<(Seq<char>, NodeView)>, add: bool) -> Seq<
    (Seq<char>, NodeView),
> {
    if add {
        edit_nested_view(
            d,
            "account"@,
            EditView::Put("profile_picture"@, LeafView::Text(image_blob())),
        )
    } else {
        d
    }
}

/// `r` is a mutation of `base` at difficulty `lvl`: from level 2 on the
/// members are shuffled, each keeping its key and value and each nested
/// object a permutation of its own; from level 3 on fields are dropped or
/// blanked; from level 5 on the usage date is rewritten; from level 6 on an
/// image may be attached. Below each level its rule leaves the document as
/// it is.
pub open spec fn is_mutation(
    lvl: u64,
    base: Seq<(Seq<char>, NodeView)>,
    usage_ms: nat,
    r: Seq<(Seq<char>, NodeView)>,
) -> bool {
    exists|s: Seq<(Seq<char>, NodeView)>, c: DropChoice, f: DateForm, img: bool|
        {
            &&& (lvl < 2 ==> s == base)
            &&& canonical(s) == canonical(base)
            &&& (lvl < 3 ==> c == no_drops())
            &&& (lvl < 5 ==> f == DateForm::Canonical)
            &&& (lvl < 6 ==> !img)
            &&& r == after_image(after_date_form(after_drops(s, c), f, usage_ms), img)
        }
}

/// At difficulty 1 no rule applies: the document of a record is yielded
/// exactly as synthesized, keys in their canonical order, every field
/// present and both instants in RFC 3339 form.
pub proof fn level_one_law(base: Seq<(Seq<char>, NodeView)>, usage_ms: nat, r: Seq<(Seq<char>, NodeView)>)
    requires
        is_mutation(1, base, usage_ms, r),
    ensures
        r == base,
{
    let (s, c, f, img) = choose|s: Seq<(Seq<char>, NodeView)>, c: DropChoice, f: DateForm, img: bool|
        {
            &&& (1u64 < 2 ==> s == base)
            &&& canonical(s) == canonical(base)
            &&& (1u64 < 3 ==> c == no_drops())
            &&& (1u64 < 5 ==> f == DateForm::Canonical)
            &&& (1u64 < 6 ==> !img)
            &&& r == after_image(after_date_form(after_drops(s, c), f, usage_ms), img)
        };
    assert(after_drops(s, c) == s);
}

/// At difficulty 2 only the order changes: the record has the members of
/// the well-formed document, each with its key and value, every nested
/// object holding the same members.
pub proof fn level_two_law(base: Seq<(Seq<char>, NodeView)>, usage_ms: nat, r: Seq<(Seq<char>, NodeView)>)
    requires
        is_mutation(2, base, usage_ms, r),
    ensures
        canonical(r) == canonical(base),
{
    let (s, c, f, img) = choose|s: Seq<(Seq<char>, NodeView)>, c: DropChoice, f: DateForm, img: bool|
        {
            &&& (2u64 < 2 ==> s == base)
            &&& canonical(s) == canonical(base)
            &&& (2u64 < 3 ==> c == no_drops())
            &&& (2u64 < 5 ==> f == DateForm::Canonical)
            &&& (2u64 < 6 ==> !img)
            &&& r == after_image(after_date_form(after_drops(s, c), f, usage_ms), img)
        };
    assert(after_drops(s, c) == s);
}

/// Builds the filler image.
pub fn image() -> (r: String)
    ensures
        r@ == image_blob(),
{
    let mut out = String::new();
    let mut i: usize = 0;
    while i < IMAGE_LEN
        invariant
            i <= IMAGE_LEN,
            out@ == Seq::new(i as nat, |j: int| 'A'),
        decreases IMAGE_LEN - i,
    {
        proof {
            reveal_strlit("A");
        }
        out.append("A");
        i = i + 1;
        assert(out@ =~= Seq::new(i as nat, |j: int| 'A'));
    }
    out
}

/// An endless, reproducible sequence of usage documents for one page.
pub struct UsageGenerator {
    prng: XorShiftRng,
    lvl: u64,
    seed: Ghost<u64>,
}

impl UsageGenerator {
    /// The difficulty the generator applies.
    pub closed spec fn difficulty(&self) -> u64 {
        self.lvl
    }

    /// The seed the generator's pseudo-random source was built from.
    pub closed spec fn seed(&self) -> u64 {
        self.seed@
    }

    /// The generator for page `page_no` at difficulty `lvl`, seeded with
    /// `seed(lvl, page_no)`.
    pub fn new(lvl: u64, page_no: usize) -> (r: UsageGenerator)
        requires
            seed_of(lvl as nat, page_no as nat) <= u64::MAX,
        ensures
            r.difficulty() == lvl,
            r.seed() == seed_of(lvl as nat, page_no as nat),
    {
        let s = seed(lvl, page_no);
        UsageGenerator { prng: seeded(s), lvl, seed: Ghost(s) }
    }

    /// Draws the drop rule's choices: a name at one in ten, the e-mail at one
    /// in ten, the CPU at one in ten and the usage time at one in twenty.
    fn draw_drops(&mut self) -> (c: DropChoice)
        ensures
            final(self).difficulty() == old(self).difficulty(),
            final(self).seed() == old(self).seed(),
            c.name matches Some(i) ==> i < 3,
    {
        let name_hit = draw_ratio(&mut self.prng, 1, 10);
        let pick = if name_hit {
            draw_range(&mut self.prng, 0, 3)
        } else {
            0
        };
        let email_hit = draw_ratio(&mut self.prng, 1, 10);
        let cpu_hit = draw_ratio(&mut self.prng, 1, 10);
        let time_hit = draw_ratio(&mut self.prng, 1, 20);
        drop_choice_of(name_hit, pick, email_hit, cpu_hit, time_hit)
    }

    /// Drops or blanks fields of `doc` at random and says which.
    pub fn random_drop(&mut self, doc: &mut JsonDocument) -> (c: DropChoice)
        ensures
            final(self).difficulty() == old(self).difficulty(),
            final(self).seed() == old(self).seed(),
            c.name matches Some(i) ==> i < 3,
            final(doc)@ == after_drops(old(doc)@, c),
    {
        let c = self.draw_drops();
        apply_drops(doc, &c);
        c
    }

    /// Draws the form of the usage date: the epoch at 15 in 100, else RFC
    /// 2822 at 15 in 100, else the canonical form.
    fn draw_date_form(&mut self) -> (f: DateForm)
        ensures
            final(self).difficulty() == old(self).difficulty(),
            final(self).seed() == old(self).seed(),
    {
        let epoch = draw_ratio(&mut self.prng, 15, 100);
        let rfc = if epoch {
            false
        } else {
            draw_ratio(&mut self.prng, 15, 100)
        };
        date_form_of(epoch, rfc)
    }

    /// Rewrites the usage date, `usage_ms`, in a form drawn at random and
    /// says which.
    pub fn vary_timestamp(&mut self, doc: &mut JsonDocument, usage_ms: u64) -> (f: DateForm)
        requires
            EARLIEST_MS <= usage_ms <= LATEST_USAGE_MS,
        ensures
            final(self).difficulty() == old(self).difficulty(),
            final(self).seed() == old(self).seed(),
            final(doc)@ == after_date_form(old(doc)@, f, usage_ms as nat),
    {
        let f = self.draw_date_form();
        match f {
            DateForm::Canonical => {},
            DateForm::Epoch => {
                put_member(
                    doc,
                    String::from_str("usage_date"),
                    JsonLeaf::Int(epoch_seconds(usage_ms)),
                );
            },
            DateForm::Rfc2822 => {
                put_member(doc, String::from_str("usage_date"), JsonLeaf::Text(rfc2822(usage_ms)));
            },
        }
        f
    }

    /// Attaches the filler image to the account at four in ten and says
    /// whether it did.
    pub fn add_image(&mut self, doc: &mut JsonDocument) -> (added: bool)
        ensures
            final(self).difficulty() == old(self).difficulty(),
            final(self).seed() == old(self).seed(),
            final(doc)@ == after_image(old(doc)@, added),
    {
        if draw_ratio(&mut self.prng, 4, 10) {
            let edit = NestedEdit::Put(String::from_str("profile_picture"), JsonLeaf::Text(image()));
            edit_nested(doc, &String::from_str("account"), edit);
            true
        } else {
            false
        }
    }

    /// Applies the rules of the generator's difficulty to the document of a
    /// record whose usage date is `usage_ms`: shuffle, then drops, then the
    /// date's form, then the image, each drawing from the page's generator in
    /// that order.
    pub fn mutate(&mut self, base: JsonDocument, usage_ms: u64) -> (r: JsonDocument)
        requires
            EARLIEST_MS <= usage_ms <= LATEST_USAGE_MS,
        ensures
            final(self).difficulty() == old(self).difficulty(),
            final(self).seed() == old(self).seed(),
            is_mutation(old(self).difficulty(), base@, usage_ms as nat, r@),
    {
        let ghost b = base@;
        let shuffled = if self.lvl >= 2 {
            deep_shuffle(base, &mut self.prng)
        } else {
            base
        };
        let ghost s = shuffled;
        let mut doc = shuffled;
        let c = if self.lvl >= 3 {
            self.random_drop(&mut doc)
        } else {
            DropChoice { name: None, blank_email: false, drop_cpu: false, drop_usage_time: false }
        };
        let f = if self.lvl >= 5 {
            self.vary_timestamp(&mut doc, usage_ms)
        } else {
            DateForm::Canonical
        };
        let img = if self.lvl >= 6 {
            self.add_image(&mut doc)
        } else {
            false
        };
        assert(doc@ == after_image(after_date_form(after_drops(s@, c), f, usage_ms as nat), img));
        assert(is_mutation(old(self).difficulty(), b, usage_ms as nat, doc@));
        doc
    }

    /// Synthesizes the next record and returns its mutated document.
    pub fn next(&mut self) -> (r: JsonDocument)
        ensures
            final(self).difficulty() == old(self).difficulty(),
            final(self).seed() == old(self).seed(),
            exists|u: Usage|
                u.wf() && #[trigger] is_mutation(
                    old(self).difficulty(),
                    usage_view(u),
                    u.dates.usage_date as nat,
                    r@,
                ),
    {
        let u = Usage::sample(&mut self.prng);
        let ms = u.dates.usage_date;
        let ghost gu = u;
        let doc = u.to_document();
        let r = self.mutate(doc, ms);
        assert(is_mutation(old(self).difficulty(), usage_view(gu), gu.dates.usage_date as nat, r@));
        r
    }
}

/// The drop choice from the rule's draws: whether a name is dropped and
/// which (`pick`), whether the e-mail is blanked, the CPU dropped and the
/// usage time dropped.
pub fn drop_choice_of(name_hit: bool, pick: u64, email_hit: bool, cpu_hit: bool, time_hit: bool) -> (c: DropChoice)
    requires
        pick < 3,
    ensures
        c.name == (if name_hit {
            Some(pick)
        } else {
            None
        }),
        c.blank_email == email_hit,
        c.drop_cpu == cpu_hit,
        c.drop_usage_time == time_hit,
{
    DropChoice {
        name: if name_hit {
            Some(pick)
        } else {
            None
        },
        blank_email: email_hit,
        drop_cpu: cpu_hit,
        drop_usage_time: time_hit,
    }
}

/// The form of the usage date from the rule's two draws: the epoch when the
/// first hits, else RFC 2822 when the second hits, else the canonical form.
pub fn date_form_of(epoch: bool, rfc2822: bool) -> (f: DateForm)
    ensures
        f == (if epoch {
            DateForm::Epoch
        } else if rfc2822 {
            DateForm::Rfc2822
        } else {
            DateForm::Canonical
        }),
{
    if epoch {
        DateForm::Epoch
    } else if rfc2822 {
        DateForm::Rfc2822
    } else {
        DateForm::Canonical
    }
}

/// Applies drop choice `c` to `doc`.
pub fn apply_drops(doc: &mut JsonDocument, c: &DropChoice)
    ensures
        final(doc)@ == after_drops(old(doc)@, *c),
{
    let account = String::from_str("account");
    match c.name {
        Some(i) => {
            let key = if i == 0 {
                String::from_str("first_name")
            } else if i == 1 {
                String::from_str("last_name")
            } else {
                String::from_str("full_name")
            };
            edit_nested(doc, &account, NestedEdit::Remove(key));
        },
        None => {},
    }
    if c.blank_email {
        edit_nested(
            doc,
            &account,
            NestedEdit::Put(String::from_str("email"), JsonLeaf::Text(String::new())),
        );
    }
    if c.drop_cpu {
        edit_nested(doc, &String::from_str("device"), NestedEdit::Remove(String::from_str("cpu")));
    }
    if c.drop_usage_time {
        remove_member(doc, &String::from_str("usage_time"));
    }
}

} // verus!
