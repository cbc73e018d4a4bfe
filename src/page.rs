//! The streaming responder: which difficulty a page has, whether a response
//! is delayed or fails, and the page itself, produced chunk by chunk.

use crate::generator::{is_mutation, seed_of, UsageGenerator};
use crate::json::JsonDocument;
use crate::text::{decimal, decimal_of, document_text, document_to_text};
use crate::usage::{usage_view, Usage};
use vstd::prelude::*;

verus! {

/// Number of records in a normal page.
pub const PAGE_SIZE: usize = 10;

/// Number of records in a large page, from difficulty 7 on.
pub const HUGE_PAGE_SIZE: usize = 1000;

/// The first difficulty that only answers with the completion response.
pub const COMPLETE_LEVEL: u64 = 9;

/// The first page number that only answers with the completion response.
pub const COMPLETE_PAGE: usize = 70;

/// The status of the completion response.
pub const COMPLETE_STATUS: u16 = 418;

/// The difficulty of page `page_no`, or `None` for the completion response.
pub open spec fn difficulty_of(page_no: nat) -> Option<u64> {
    if page_no < 70 {
        Some((page_no / 10 + 1) as u64)
    } else {
        None
    }
}

/// Maps a page number to its difficulty: ten pages per level from 1 to 7,
/// and `None` (challenge complete) from page 70 on.
pub fn difficulty_for_page(page_no: usize) -> (r: Option<u64>)
    ensures
        r == difficulty_of(page_no as nat),
{
    if page_no < COMPLETE_PAGE {
        Some((page_no / 10 + 1) as u64)
    } else {
        None
    }
}

/// The number of records of a page at difficulty `difficulty`.
pub open spec fn page_size_of(difficulty: u64) -> nat {
    if difficulty >= 7 {
        1000
    } else {
        10
    }
}

/// The number of records of a page at difficulty `difficulty`.
pub fn page_size(difficulty: u64) -> (r: usize)
    ensures
        r == page_size_of(difficulty),
{
    if difficulty >= 7 {
        HUGE_PAGE_SIZE
    } else {
        PAGE_SIZE
    }
}

/// The body of the completion response.
pub fn completion_body() -> (r: String)
    ensures
        r@ == "Congratulation you finished the challenge"@,
{
    String::from_str("Congratulation you finished the challenge")
}

/// The status of the injected error that draw `pick` selects.
pub open spec fn fault_status_of(pick: u64) -> u16 {
    if pick == 0 {
        500
    } else if pick == 1 {
        502
    } else if pick == 2 {
        503
    } else if pick == 3 {
        507
    } else {
        504
    }
}

/// What a request is answered with.
pub enum Outcome {
    /// The fixed completion response.
    Complete,
    /// An injected server error with this status and no body.
    Fault(u16),
    /// A page of records at this difficulty.
    Page(u64),
}

/// The decision taken before any byte is sent: how long to wait first, then
/// what to answer.
pub struct ResponsePlan {
    pub delay_ms: u64,
    pub outcome: Outcome,
}

/// The plan for a request at `difficulty`, given the fault draws: `wait`
/// (one in four) and `wait_ms` in `[1500, 20000)` for the delay, `fail` (one in four) and
/// `pick` (uniform below five) for the error.
pub open spec fn plan_of(difficulty: u64, wait: bool, wait_ms: u64, fail: bool, pick: u64) -> ResponsePlan {
    if difficulty >= 9 {
        ResponsePlan { delay_ms: 0, outcome: Outcome::Complete }
    } else {
        let delay_ms = if 4 <= difficulty <= 5 && wait {
            wait_ms
        } else {
            0
        };
        if difficulty >= 4 && fail {
            ResponsePlan { delay_ms, outcome: Outcome::Fault(fault_status_of(pick)) }
        } else {
            ResponsePlan { delay_ms, outcome: Outcome::Page(difficulty) }
        }
    }
}

/// Decides the fault behaviour of a request: from difficulty 9 on the
/// completion response; at 4 and 5 a possible delay; from 4 on a possible
/// error, one of five statuses; else the page.
pub fn plan_response(difficulty: u64, wait: bool, wait_ms: u64, fail: bool, pick: u64) -> (r:
    ResponsePlan)
    requires
        1500 <= wait_ms < 20000,
        pick < 5,
    ensures
        r == plan_of(difficulty, wait, wait_ms, fail, pick),
{
    if difficulty >= COMPLETE_LEVEL {
        return ResponsePlan { delay_ms: 0, outcome: Outcome::Complete };
    }
    let delay_ms = if 4 <= difficulty && difficulty <= 5 && wait {
        wait_ms
    } else {
        0
    };
    if difficulty >= 4 && fail {
        let status: u16 = if pick == 0 {
            500
        } else if pick == 1 {
            502
        } else if pick == 2 {
            503
        } else if pick == 3 {
            507
        } else {
            504
        };
        ResponsePlan { delay_ms, outcome: Outcome::Fault(status) }
    } else {
        ResponsePlan { delay_ms, outcome: Outcome::Page(difficulty) }
    }
}

/// The opening of a page: `{"level": <difficulty>, "usages": [`.
pub open spec fn header_text(difficulty: u64) -> Seq<char> {
    "{\"level\": "@ + decimal_of(difficulty as nat) + ", \"usages\": ["@
}

/// The closing of a page.
pub open spec fn footer_text() -> Seq<char> {
    "]}"@
}

/// `c` is the text of one record of a page at `difficulty`: a mutation of
/// the document of a well-formed usage, followed by a comma when `followed`.
pub open spec fn is_record_chunk(difficulty: u64, followed: bool, c: Seq<char>) -> bool {
    exists|u: Usage, d: JsonDocument|
        {
            &&& u.wf()
            &&& #[trigger] is_mutation(difficulty, usage_view(u), u.dates.usage_date as nat, d@)
            &&& c == document_text(d) + (if followed {
                seq![',']
            } else {
                seq![]
            })
        }
}

/// A page produced chunk by chunk: the opening, then each record followed
/// by a comma but the last, then the closing. Only one record is held at a
/// time.
pub struct PageStream {
    generator: UsageGenerator,
    difficulty: u64,
    size: usize,
    header_sent: bool,
    emitted: usize,
    finished: bool,
}

impl PageStream {
    /// The page's difficulty.
    pub closed spec fn difficulty(&self) -> u64 {
        self.difficulty
    }

    /// The number of records the page holds.
    pub closed spec fn size(&self) -> nat {
        self.size as nat
    }

    /// Whether the opening was produced.
    pub closed spec fn header_sent(&self) -> bool {
        self.header_sent
    }

    /// The number of records produced so far.
    pub closed spec fn emitted(&self) -> nat {
        self.emitted as nat
    }

    /// Whether the closing was produced.
    pub closed spec fn finished(&self) -> bool {
        self.finished
    }

    /// The stream's invariant: the size follows the difficulty, no more
    /// records than that are produced, and the page closes only once all of
    /// them are.
    pub closed spec fn wf(&self) -> bool {
        &&& self.size as nat == page_size_of(self.difficulty)
        &&& self.generator.difficulty() == self.difficulty
        &&& self.emitted <= self.size
        &&& (self.emitted > 0 ==> self.header_sent)
        &&& (self.finished ==> self.emitted == self.size)
    }

    /// The stream of page `page_no` at `difficulty`, nothing produced yet.
    pub fn new(difficulty: u64, page_no: usize) -> (r: PageStream)
        requires
            seed_of(difficulty as nat, page_no as nat) <= u64::MAX,
        ensures
            r.wf(),
            r.difficulty() == difficulty,
            r.size() == page_size_of(difficulty),
            !r.header_sent(),
            r.emitted() == 0,
            !r.finished(),
    {
        PageStream {
            generator: UsageGenerator::new(difficulty, page_no),
            difficulty,
            size: page_size(difficulty),
            header_sent: false,
            emitted: 0,
            finished: false,
        }
    }

    /// The next chunk of the page, or `None` once the page is closed.
    pub fn next_chunk(&mut self) -> (r: Option<String>)
        requires
            old(self).wf(),
        ensures
            final(self).wf(),
            final(self).difficulty() == old(self).difficulty(),
            final(self).size() == old(self).size(),
            !old(self).header_sent() ==> {
                &&& r is Some && r->Some_0@ == header_text(old(self).difficulty())
                &&& final(self).header_sent()
                &&& final(self).emitted() == 0
                &&& !final(self).finished()
            },
            old(self).header_sent() && old(self).emitted() < old(self).size() ==> {
                &&& final(self).header_sent()
                &&& final(self).emitted() == old(self).emitted() + 1
                &&& !final(self).finished()
                &&& r is Some
                &&& is_record_chunk(
                    old(self).difficulty(),
                    old(self).emitted() + 1 < old(self).size(),
                    r->Some_0@,
                )
            },
            old(self).header_sent() && old(self).emitted() == old(self).size() && !old(
                self,
            ).finished() ==> {
                &&& r is Some && r->Some_0@ == footer_text()
                &&& final(self).finished()
                &&& final(self).emitted() == old(self).emitted()
            },
            old(self).finished() ==> r is None && *final(self) == *old(self),
    {
        if !self.header_sent {
            let mut h = String::new();
            proof {
                reveal_strlit("{\"level\": ");
                reveal_strlit(", \"usages\": [");
            }
            h.append("{\"level\": ");
            let d = decimal(self.difficulty);
            h.append(d.as_str());
            h.append(", \"usages\": [");
            self.header_sent = true;
            return Some(h);
        }
        if self.emitted < self.size {
            let doc = self.generator.next();
            let mut c = document_to_text(&doc);
            if self.emitted + 1 < self.size {
                proof {
                    reveal_strlit(",");
                }
                c.append(",");
            } else {
                assert(c@ =~= c@ + seq![]);
            }
            proof {
                let u = choose|u: Usage|
                    u.wf() && #[trigger] is_mutation(
                        self.difficulty,
                        usage_view(u),
                        u.dates.usage_date as nat,
                        doc@,
                    );
                assert(c@ == document_text(doc) + (if self.emitted + 1 < self.size {
                    seq![',']
                } else {
                    seq![]
                }));
                assert(is_record_chunk(self.difficulty, self.emitted + 1 < self.size, c@));
            }
            self.emitted = self.emitted + 1;
            return Some(c);
        }
        if !self.finished {
            self.finished = true;
            return Some(String::from_str("]}"));
        }
        None
    }
}

/// A page holds exactly its size in records: a stream that has produced its
/// closing has produced `page_size_of(difficulty)` records, 10 below
/// difficulty 7 and 1000 from 7 on.
pub proof fn page_size_law(s: PageStream)
    requires
        s.wf(),
        s.finished(),
    ensures
        s.emitted() == page_size_of(s.difficulty()),
        s.difficulty() < 7 ==> s.emitted() == 10,
        s.difficulty() >= 7 ==> s.emitted() == 1000,
{
}

/// The completion boundary: every page from 70 on answers with the
/// completion response, whatever the fault draws.
pub proof fn completion_law(page_no: usize, wait: bool, wait_ms: u64, fail: bool, pick: u64)
    requires
        page_no >= COMPLETE_PAGE,
    ensures
        difficulty_of(page_no as nat) is None,
        plan_of(COMPLETE_LEVEL, wait, wait_ms, fail, pick).outcome == Outcome::Complete,
        plan_of(COMPLETE_LEVEL, wait, wait_ms, fail, pick).delay_ms == 0,
{
}

} // verus!
