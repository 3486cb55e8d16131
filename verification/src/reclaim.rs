//! Reclaiming a port that is taken: what is asked of the system to find the
//! processes that listen on it, how its answer is read, and how they are
//! terminated one by one.
//!
//! The answer is a table of connections, one per line: the second column is
//! the local address, which ends in a colon and the port, and the last
//! column is the id of the owning process. Only the owners of lines for the
//! port that is reclaimed are terminated. Running the tools is the caller's
//! part: a `Reclaim` performs no I/O.

use crate::decimal::{decimal_text, parse_bounded, parse_unsigned, write_decimal};
use crate::text::{
    chars_of, decode_lossy, ends_with, last_word, last_word_bounds, lossy_text, part_ends_with,
    second_word, second_word_bounds,
};
use vstd::prelude::*;
use vstd::string::StringExecFns;
use vstd::utf8::{decode_utf8, valid_utf8};

verus! {

/// Milliseconds to wait where no process was found: the port may just have
/// been freed.
pub const IDLE_SETTLE_MS: u64 = 300;

/// Milliseconds to wait after processes were terminated.
pub const KILL_SETTLE_MS: u64 = 800;

/// Whether the characters of `text` from `lo` up to `hi` are one of its
/// lines: bounded by line feeds or by the ends of the text, with no line
/// feed inside.
pub open spec fn is_line(text: Seq<char>, lo: int, hi: int) -> bool {
    &&& 0 <= lo <= hi <= text.len()
    &&& lo == 0 || text[lo - 1] == '\n'
    &&& hi == text.len() || text[hi] == '\n'
    &&& forall|i: int| lo <= i < hi ==> text[i] != '\n'
}

/// How a local address ends that is on `port`: a colon and the port in
/// decimal.
pub open spec fn port_tail(port: u16) -> Seq<char> {
    seq![':'] + decimal_text(port as nat)
}

/// Whether `line` says that the process `pid` holds `port`: its second word,
/// the local address, ends in the port, and its last word is the number
/// `pid`. A line for another port names nothing, whatever else it holds.
pub open spec fn line_names(line: Seq<char>, port: u16, pid: u32) -> bool {
    &&& ends_with(second_word(line), port_tail(port))
    &&& parse_unsigned(last_word(line), u32::MAX as nat) == Some(pid as nat)
}

/// Whether a line of `text` that begins before `bound` names `pid` as a
/// holder of `port`.
pub open spec fn names_pid_before(text: Seq<char>, port: u16, bound: int, pid: u32) -> bool {
    exists|lo: int, hi: int|
        #[trigger] is_line(text, lo, hi) && lo < bound && line_names(
            text.subrange(lo, hi),
            port,
            pid,
        )
}

/// Whether some line of `text` names `pid` as a holder of `port`.
pub open spec fn names_pid(text: Seq<char>, port: u16, pid: u32) -> bool {
    names_pid_before(text, port, text.len() as int + 1, pid)
}

pub open spec fn strictly_increasing(s: Seq<u32>) -> bool {
    forall|i: int, j: int| 0 <= i < j < s.len() ==> s[i] < s[j]
}

/// Whether `pids` lists the processes that `text` names as holders of
/// `port`, each once, in increasing order, and no other process.
pub open spec fn lists_pids_of(pids: Seq<u32>, text: Seq<char>, port: u16) -> bool {
    &&& strictly_increasing(pids)
    &&& forall|pid: u32| pids.contains(pid) <==> names_pid(text, port, pid)
}

/// Two lists of the holders of one port in one text are the same list.
pub proof fn law_pid_list_is_unique(a: Seq<u32>, b: Seq<u32>, text: Seq<char>, port: u16)
    requires
        lists_pids_of(a, text, port),
        lists_pids_of(b, text, port),
    ensures
        a == b,
{
    lemma_same_members_same_list(a, b);
}

proof fn lemma_same_members_same_list(a: Seq<u32>, b: Seq<u32>)
    requires
        strictly_increasing(a),
        strictly_increasing(b),
        forall|x: u32| a.contains(x) <==> b.contains(x),
    ensures
        a == b,
    decreases a.len(),
{
    if a.len() == 0 {
        if b.len() > 0 {
            assert(b.contains(b[0]));
        }
        assert(a =~= b);
    } else {
        assert(a.contains(a.last()));
        let top = a.last();
        assert(b.contains(top));
        let k = choose|k: int| 0 <= k < b.len() && b[k] == top;
        if k < b.len() - 1 {
            assert(b.contains(b.last()));
            assert(a.contains(b.last()));
            let m = choose|m: int| 0 <= m < a.len() && a[m] == b.last();
            assert(a[m] <= top);
        }
        let a0 = a.drop_last();
        let b0 = b.drop_last();
        assert forall|x: u32| a0.contains(x) <==> b0.contains(x) by {
            if a0.contains(x) {
                let i = choose|i: int| 0 <= i < a0.len() && a0[i] == x;
                assert(a[i] == x);
                assert(a.contains(x));
                let j = choose|j: int| 0 <= j < b.len() && b[j] == x;
                assert(x < top);
                assert(b0[j] == x);
            }
            if b0.contains(x) {
                let i = choose|i: int| 0 <= i < b0.len() && b0[i] == x;
                assert(b[i] == x);
                assert(b.contains(x));
                let j = choose|j: int| 0 <= j < a.len() && a[j] == x;
                assert(x < top);
                assert(a0[j] == x);
            }
        }
        lemma_same_members_same_list(a0, b0);
        assert(a =~= a0.push(top));
        assert(b =~= b0.push(top));
    }
}

/// The only line of `text` that begins at or behind the start of the line
/// from `lo` to `hi`, and not behind its end, is that line itself.
proof fn lemma_next_line(text: Seq<char>, lo: int, hi: int, a: int, b: int)
    requires
        is_line(text, lo, hi),
        is_line(text, a, b),
        lo <= a <= hi,
    ensures
        a == lo,
        b == hi,
{
    if a > lo {
        assert(text[a - 1] == '\n');
    }
    if b < hi {
        assert(text[b] == '\n');
    }
    if b > hi {
        assert(text[hi] == '\n');
    }
}

/// Puts `pid` in its place in an increasing list, unless it is there already.
fn insert_pid(pids: &mut Vec<u32>, pid: u32)
    requires
        strictly_increasing(old(pids)@),
    ensures
        strictly_increasing(final(pids)@),
        forall|x: u32| final(pids)@.contains(x) <==> old(pids)@.contains(x) || x == pid,
{
    let mut i: usize = 0;
    while i < pids.len() && pids[i] < pid
        invariant
            i <= pids.len(),
            pids@ == old(pids)@,
            forall|k: int| 0 <= k < i ==> pids@[k] < pid,
        decreases pids.len() - i,
    {
        i = i + 1;
    }
    let ghost before = pids@;
    if i < pids.len() && pids[i] == pid {
        assert(before.contains(pid));
        return ;
    }
    pids.insert(i, pid);
    proof {
        let after = pids@;
        assert(after == before.insert(i as int, pid));
        assert forall|a: int, b: int| 0 <= a < b < after.len() implies after[a] < after[b] by {
            if b < i {
                assert(after[a] == before[a] && after[b] == before[b]);
            } else if b == i {
                assert(after[a] == before[a]);
            } else if a < i {
                assert(after[a] == before[a] && after[b] == before[b - 1]);
                assert(before[b - 1] >= before[i as int]);
            } else if a == i {
                assert(after[b] == before[b - 1]);
                assert(before[b - 1] >= before[i as int]);
            } else {
                assert(after[a] == before[a - 1] && after[b] == before[b - 1]);
            }
        }
        assert forall|x: u32| after.contains(x) <==> before.contains(x) || x == pid by {
            if after.contains(x) {
                let k = choose|k: int| 0 <= k < after.len() && after[k] == x;
                if k < i {
                    assert(before[k] == x);
                } else if k > i {
                    assert(before[k - 1] == x);
                }
            }
            if before.contains(x) {
                let k = choose|k: int| 0 <= k < before.len() && before[k] == x;
                if k < i {
                    assert(after[k] == x);
                } else {
                    assert(after[k + 1] == x);
                }
            }
            if x == pid {
                assert(after[i as int] == pid);
            }
        }
    }
}

/// The text that a local address on `port` ends in.
fn port_tail_chars(port: u16) -> (tail: Vec<char>)
    ensures
        tail@ == port_tail(port),
{
    let mut tail: Vec<char> = Vec::new();
    tail.push(':');
    let number = write_decimal(port as u32);
    let digits = chars_of(number.as_str());
    let mut i: usize = 0;
    while i < digits.len()
        invariant
            i <= digits.len(),
            digits@ == decimal_text(port as nat),
            tail@ == seq![':'] + digits@.take(i as int),
        decreases digits.len() - i,
    {
        tail.push(digits[i]);
        assert(digits@.take(i + 1) =~= digits@.take(i as int).push(digits@[i as int]));
        assert(tail@ =~= seq![':'] + digits@.take(i + 1));
        i = i + 1;
    }
    assert(digits@.take(digits@.len() as int) =~= digits@);
    tail
}

/// The processes that the lines of `report` name as holders of `port`, each
/// once, in increasing order. A line counts when its local address, the
/// second column, ends in the port, and its last column is a number of 32
/// bits: a line for another port is passed over, also where the digits of
/// this port begin that one.
pub fn listening_pids(report: &str, port: u16) -> (pids: Vec<u32>)
    ensures
        lists_pids_of(pids@, report@, port),
{
    let v = chars_of(report);
    let tail = port_tail_chars(port);
    let n = v.len();
    let mut pids: Vec<u32> = Vec::new();
    let mut lo: usize = 0;
    let mut done = false;
    let ghost mut bound: int = 0;
    proof {
        assert forall|pid: u32| !names_pid_before(v@, port, 0, pid) by {}
    }
    while !done
        invariant
            n == v.len(),
            lo <= n,
            tail@ == port_tail(port),
            bound == (if done { n + 1 } else { lo as int }),
            !done ==> lo == 0 || v@[lo - 1] == '\n',
            strictly_increasing(pids@),
            forall|pid: u32| pids@.contains(pid) <==> names_pid_before(v@, port, bound, pid),
        decreases (if done { 0 } else { n - lo + 1 }),
    {
        let mut hi: usize = lo;
        while hi < n && v[hi] != '\n'
            invariant
                lo <= hi <= n,
                n == v.len(),
                forall|i: int| lo <= i < hi ==> v@[i] != '\n',
            decreases n - hi,
        {
            hi = hi + 1;
        }
        assert(is_line(v@, lo as int, hi as int));
        let (from, to) = second_word_bounds(&v, lo, hi);
        let ghost listed = pids@;
        let found = if part_ends_with(&v, from, to, &tail) {
            let (start, end) = last_word_bounds(&v, lo, hi);
            parse_bounded(&v, start, end, u32::MAX)
        } else {
            None
        };
        match found {
            Some(pid) => {
                insert_pid(&mut pids, pid);
            },
            None => {},
        }
        proof {
            let text = v@;
            let line = text.subrange(lo as int, hi as int);
            assert forall|pid: u32| pids@.contains(pid) <==> names_pid_before(text, port,
                hi + 1,
                pid,
            ) by {
                let here = line_names(line, port, pid);
                assert(pids@.contains(pid) <==> listed.contains(pid) || (found == Some(pid)));
                assert(here <==> found == Some(pid));
                if names_pid_before(text, port, hi + 1, pid) {
                    let (a, b) = choose|a: int, b: int|
                        #[trigger] is_line(text, a, b) && a < hi + 1 && line_names(text.subrange(a, b), port, pid);
                    if a >= lo {
                        lemma_next_line(text, lo as int, hi as int, a, b);
                    } else {
                        assert(names_pid_before(text, port, bound, pid));
                    }
                }
                if listed.contains(pid) {
                    let (a, b) = choose|a: int, b: int|
                        #[trigger] is_line(text, a, b) && a < bound && line_names(text.subrange(a, b), port, pid);
                    assert(is_line(text, a, b) && a < hi + 1);
                }
                if here {
                    assert(is_line(text, lo as int, hi as int) && lo < hi + 1);
                }
            }
        }
        if hi == n {
            done = true;
        } else {
            lo = hi + 1;
        }
        proof {
            bound = hi + 1;
        }
    }
    pids
}

/// What is asked of the system to find the listeners on `port`, as one
/// command line for the shell. The filter is by text, so the answer may
/// hold lines for other ports whose digits begin with, or whose far side
/// is, this one: `listening_pids` passes them over.
pub open spec fn listener_query_text(port: u16) -> Seq<char> {
    "netstat -a -n -o | findstr LISTENING | findstr :"@ + decimal_text(port as nat)
}

/// The command line that lists the listeners on `port`.
pub fn listener_query(port: u16) -> (query: String)
    ensures
        query@ == listener_query_text(port),
{
    let mut query = String::from_str("netstat -a -n -o | findstr LISTENING | findstr :");
    let number = write_decimal(port as u32);
    query.append(number.as_str());
    query
}

/// The name of the program that terminates a process.
pub fn kill_program() -> (name: &'static str)
    ensures
        name@ == "taskkill"@,
{
    "taskkill"
}

/// The arguments that make `kill_program` terminate `pid` by force.
pub fn kill_arguments(pid: u32) -> (arguments: Vec<String>)
    ensures
        arguments@.len() == 3,
        arguments@[0]@ == "/F"@,
        arguments@[1]@ == "/PID"@,
        arguments@[2]@ == decimal_text(pid as nat),
{
    let mut arguments: Vec<String> = Vec::new();
    arguments.push(String::from_str("/F"));
    arguments.push(String::from_str("/PID"));
    arguments.push(write_decimal(pid));
    arguments
}

/// The processes that `text` names as holders of `port`, each once, in
/// increasing order.
pub open spec fn pid_list(text: Seq<char>, port: u16) -> Seq<u32> {
    choose|pids: Seq<u32>| lists_pids_of(pids, text, port)
}

/// How long to wait once the listed processes have been dealt with.
pub open spec fn settle_delay(pids: Seq<u32>) -> u64 {
    if pids.len() == 0 {
        IDLE_SETTLE_MS
    } else {
        KILL_SETTLE_MS
    }
}

/// Where a reclaim stands.
#[derive(Clone, Copy, Debug, PartialEq, Eq, Structural)]
pub enum ReclaimPhase {
    /// The listeners on the port are to be looked for.
    Querying,
    /// The next listed process is to be terminated.
    Killing,
    /// The system is given time to free the port.
    Settling,
    Done,
    Failed,
}

/// Why a reclaim failed.
#[derive(Clone, Copy, Debug, PartialEq, Eq, Structural)]
pub enum ReclaimError {
    /// The listeners could not be looked for.
    Query,
    /// The program that terminates a process could not be run.
    Kill,
}

/// What the caller reports to a reclaim.
#[derive(Debug)]
pub enum ReclaimEvent {
    /// What the query wrote to its output.
    Report(Vec<u8>),
    QueryFailed,
    /// The program that terminates ran, with whatever result: a process that
    /// is gone already is no reason to stop.
    KillRan,
    /// The program that terminates could not be run.
    KillFailed,
    Settled,
}

/// What a reclaim asks of the caller.
#[derive(Clone, Copy, Debug, PartialEq, Eq, Structural)]
pub enum ReclaimDirective {
    /// Run the query and collect its output.
    Query,
    /// Terminate the process with this id.
    Kill(u32),
    /// Wait this many milliseconds.
    Settle(u64),
    Finish,
    Fail,
}

/// The state of a reclaim.
pub struct ReclaimView {
    pub phase: ReclaimPhase,
    /// The port that is to be freed.
    pub port: u16,
    /// The processes found, in the order in which they are terminated.
    pub pids: Seq<u32>,
    /// How many of them have been dealt with.
    pub handled: nat,
    pub failure: Option<ReclaimError>,
}

impl ReclaimView {
    pub open spec fn initial(port: u16) -> ReclaimView {
        ReclaimView {
            phase: ReclaimPhase::Querying,
            port,
            pids: Seq::empty(),
            handled: 0,
            failure: None,
        }
    }

    pub open spec fn directive(self) -> ReclaimDirective {
        match self.phase {
            ReclaimPhase::Querying => ReclaimDirective::Query,
            ReclaimPhase::Killing => ReclaimDirective::Kill(self.pids[self.handled as int]),
            ReclaimPhase::Settling => ReclaimDirective::Settle(settle_delay(self.pids)),
            ReclaimPhase::Done => ReclaimDirective::Finish,
            ReclaimPhase::Failed => ReclaimDirective::Fail,
        }
    }

    pub open spec fn fail(self, why: ReclaimError) -> ReclaimView {
        ReclaimView { phase: ReclaimPhase::Failed, failure: Some(why), ..self }
    }

    pub open spec fn take_report(self, pids: Seq<u32>) -> ReclaimView {
        ReclaimView {
            phase: if pids.len() == 0 {
                ReclaimPhase::Settling
            } else {
                ReclaimPhase::Killing
            },
            pids,
            ..self
        }
    }

    /// The state after `event`. An event that the state does not wait for
    /// changes nothing.
    pub open spec fn next(self, event: ReclaimEvent) -> ReclaimView {
        match self.phase {
            ReclaimPhase::Querying => match event {
                ReclaimEvent::Report(bytes) => self.take_report(
                    pid_list(lossy_text(bytes@), self.port),
                ),
                ReclaimEvent::QueryFailed => self.fail(ReclaimError::Query),
                _ => self,
            },
            ReclaimPhase::Killing => match event {
                ReclaimEvent::KillRan => ReclaimView {
                    phase: if self.handled + 1 < self.pids.len() {
                        ReclaimPhase::Killing
                    } else {
                        ReclaimPhase::Settling
                    },
                    handled: self.handled + 1,
                    ..self
                },
                ReclaimEvent::KillFailed => self.fail(ReclaimError::Kill),
                _ => self,
            },
            ReclaimPhase::Settling => match event {
                ReclaimEvent::Settled => ReclaimView { phase: ReclaimPhase::Done, ..self },
                _ => self,
            },
            ReclaimPhase::Done | ReclaimPhase::Failed => self,
        }
    }

    /// The state after a whole run of events.
    pub open spec fn run(self, events: Seq<ReclaimEvent>) -> ReclaimView
        decreases events.len(),
    {
        if events.len() == 0 {
            self
        } else {
            self.run(events.drop_last()).next(events.last())
        }
    }

    /// The invariant of a reclaim.
    pub open spec fn wf(self) -> bool {
        &&& self.handled <= self.pids.len()
        &&& strictly_increasing(self.pids)
        &&& self.phase is Querying ==> self.pids.len() == 0
        &&& self.phase is Killing ==> self.handled < self.pids.len()
        &&& (self.phase is Settling || self.phase is Done) ==> self.handled == self.pids.len()
        &&& self.phase is Failed <==> self.failure is Some
    }
}

/// Every step keeps the invariant.
pub proof fn law_reclaim_step_keeps_invariant(v: ReclaimView, event: ReclaimEvent)
    requires
        v.wf(),
    ensures
        v.next(event).wf(),
{
    if v.phase is Querying {
        if let ReclaimEvent::Report(bytes) = event {
            law_pid_list_exists(lossy_text(bytes@), v.port);
        }
    }
}

/// The process ids named by the lines that begin before `bound` can be
/// listed in increasing order.
proof fn lemma_list_exists(text: Seq<char>, port: u16, bound: int)
    requires
        0 <= bound,
    ensures
        exists|pids: Seq<u32>|
            strictly_increasing(pids) && forall|pid: u32|
                pids.contains(pid) <==> names_pid_before(text, port, bound, pid),
    decreases bound,
{
    if bound == 0 {
        let none = Seq::<u32>::empty();
        assert(strictly_increasing(none) && forall|pid: u32|
            none.contains(pid) <==> names_pid_before(text, port, bound, pid));
    } else {
        lemma_list_exists(text, port, bound - 1);
        let shorter = choose|pids: Seq<u32>|
            strictly_increasing(pids) && forall|pid: u32|
                pids.contains(pid) <==> names_pid_before(text, port, bound - 1, pid);
        let lo = bound - 1;
        // At most one line begins at `lo`, and it names at most one process.
        if exists|hi: int, pid: u32| names_at(text, port, lo, hi, pid) {
            let (hi, pid) = choose|hi: int, pid: u32| names_at(text, port, lo, hi, pid);
            let longer = spec_insert(shorter, pid);
            lemma_spec_insert(shorter, pid);
            assert forall|x: u32| longer.contains(x) <==> names_pid_before(text, port, bound, x) by {
                if names_pid_before(text, port, bound, x) {
                    let (a, b) = choose|a: int, b: int|
                        #[trigger] is_line(text, a, b) && a < bound && line_names(text.subrange(a, b), port, x);
                    if a == lo {
                        lemma_next_line(text, lo, hi, a, b);
                    } else {
                        assert(names_pid_before(text, port, bound - 1, x));
                    }
                }
                if shorter.contains(x) {
                    let (a, b) = choose|a: int, b: int|
                        #[trigger] is_line(text, a, b) && a < bound - 1 && line_names(text.subrange(a, b), port, x);
                    assert(is_line(text, a, b) && a < bound);
                }
                if x == pid {
                    assert(is_line(text, lo, hi) && lo < bound);
                }
            }
        } else {
            assert forall|x: u32| shorter.contains(x) <==> names_pid_before(text, port, bound, x) by {
                if names_pid_before(text, port, bound, x) {
                    let (a, b) = choose|a: int, b: int|
                        #[trigger] is_line(text, a, b) && a < bound && line_names(text.subrange(a, b), port, x);
                    if a == lo {
                        assert(names_at(text, port, lo, b, x));
                    } else {
                        assert(names_pid_before(text, port, bound - 1, x));
                    }
                }
                if shorter.contains(x) {
                    let (a, b) = choose|a: int, b: int|
                        #[trigger] is_line(text, a, b) && a < bound - 1 && line_names(text.subrange(a, b), port, x);
                    assert(is_line(text, a, b) && a < bound);
                }
            }
        }
    }
}

/// Whether the line of `text` from `lo` to `hi` names `pid`.
spec fn names_at(text: Seq<char>, port: u16, lo: int, hi: int, pid: u32) -> bool {
    is_line(text, lo, hi) && line_names(text.subrange(lo, hi), port, pid)
}

/// `pids` with `pid` put in its place, unless it is there already.
spec fn spec_insert(pids: Seq<u32>, pid: u32) -> Seq<u32>
    decreases pids.len(),
{
    if pids.len() == 0 {
        seq![pid]
    } else if pids.last() < pid {
        pids.push(pid)
    } else if pids.last() == pid {
        pids
    } else {
        spec_insert(pids.drop_last(), pid).push(pids.last())
    }
}

proof fn lemma_spec_insert(pids: Seq<u32>, pid: u32)
    requires
        strictly_increasing(pids),
    ensures
        strictly_increasing(spec_insert(pids, pid)),
        forall|x: u32| spec_insert(pids, pid).contains(x) <==> pids.contains(x) || x == pid,
        spec_insert(pids, pid).len() > 0,
        spec_insert(pids, pid).last() == if pids.len() > 0 && pids.last() > pid {
            pids.last()
        } else {
            pid
        },
    decreases pids.len(),
{
    let out = spec_insert(pids, pid);
    if pids.len() == 0 {
        assert(out[0] == pid);
        assert forall|x: u32| out.contains(x) <==> pids.contains(x) || x == pid by {
            if out.contains(x) {
                let k = choose|k: int| 0 <= k < out.len() && out[k] == x;
            }
        }
    } else if pids.last() < pid {
        assert forall|x: u32| out.contains(x) <==> pids.contains(x) || x == pid by {
            if out.contains(x) {
                let k = choose|k: int| 0 <= k < out.len() && out[k] == x;
                if k < pids.len() {
                    assert(pids[k] == x);
                }
            }
            if pids.contains(x) {
                let k = choose|k: int| 0 <= k < pids.len() && pids[k] == x;
                assert(out[k] == x);
            }
            if x == pid {
                assert(out[pids.len() as int] == pid);
            }
        }
    } else if pids.last() == pid {
        assert(pids.contains(pid));
    } else {
        let head = pids.drop_last();
        let top = pids.last();
        lemma_spec_insert(head, pid);
        let inner = spec_insert(head, pid);
        assert(inner.last() < top) by {
            if head.len() > 0 {
                assert(head.last() == pids[pids.len() - 2]);
            }
        }
        assert forall|a: int, b: int| 0 <= a < b < out.len() implies out[a] < out[b] by {
            if b < inner.len() {
                assert(out[a] == inner[a] && out[b] == inner[b]);
            } else {
                assert(out[a] == inner[a]);
                assert(inner[a] <= inner.last());
            }
        }
        assert forall|x: u32| out.contains(x) <==> pids.contains(x) || x == pid by {
            if out.contains(x) {
                let k = choose|k: int| 0 <= k < out.len() && out[k] == x;
                if k < inner.len() {
                    assert(inner[k] == x);
                    assert(inner.contains(x));
                    if head.contains(x) {
                        let m = choose|m: int| 0 <= m < head.len() && head[m] == x;
                        assert(pids[m] == x);
                    }
                } else {
                    assert(x == top);
                    assert(pids[pids.len() - 1] == x);
                }
            }
            if pids.contains(x) {
                let k = choose|k: int| 0 <= k < pids.len() && pids[k] == x;
                if k < head.len() {
                    assert(head[k] == x);
                    assert(head.contains(x));
                    assert(inner.contains(x));
                    let m = choose|m: int| 0 <= m < inner.len() && inner[m] == x;
                    assert(out[m] == x);
                } else {
                    assert(out[out.len() - 1] == x);
                }
            }
            if x == pid {
                assert(inner.contains(pid) <==> head.contains(pid) || pid == pid);
                assert(inner.contains(pid));
                let m = choose|m: int| 0 <= m < inner.len() && inner[m] == pid;
                assert(out[m] == pid);
            }
        }
    }
}

/// Every text has its list of the holders of a port, and only one.
pub proof fn law_pid_list_exists(text: Seq<char>, port: u16)
    ensures
        lists_pids_of(pid_list(text, port), text, port),
{
    lemma_list_exists(text, port, text.len() as int + 1);
    let pids = choose|pids: Seq<u32>|
        strictly_increasing(pids) && forall|pid: u32|
            pids.contains(pid) <==> names_pid_before(text, port, text.len() as int + 1, pid);
    assert(lists_pids_of(pids, text, port));
}

/// Every state that a run of events leads to obeys the invariant and keeps
/// its port. The listed processes stand in increasing order of their ids
/// and are dealt with in that order, the next one being the one the kill is
/// asked for; the port is given time to settle only when each has been
/// dealt with, and the wait is the short one exactly when nothing was found.
pub proof fn law_every_listener_is_terminated(port: u16, events: Seq<ReclaimEvent>)
    ensures
        ({
            let end = ReclaimView::initial(port).run(events);
            &&& end.wf()
            &&& end.port == port
            &&& strictly_increasing(end.pids)
            &&& end.phase is Killing ==> end.handled < end.pids.len() && end.directive()
                == ReclaimDirective::Kill(end.pids[end.handled as int])
            &&& end.phase is Settling ==> end.handled == end.pids.len() && end.directive()
                == ReclaimDirective::Settle(
                if end.pids.len() == 0 {
                    IDLE_SETTLE_MS
                } else {
                    KILL_SETTLE_MS
                },
            )
            &&& end.phase is Done ==> end.handled == end.pids.len()
        }),
    decreases events.len(),
{
    if events.len() > 0 {
        law_every_listener_is_terminated(port, events.drop_last());
        law_reclaim_step_keeps_invariant(
            ReclaimView::initial(port).run(events.drop_last()),
            events.last(),
        );
    }
}

/// Only what holds the port is terminated: every process a reclaim asks to
/// kill is named, by a line of the report it was given, as a holder of the
/// port it was made for.
pub proof fn law_only_holders_are_terminated(v: ReclaimView, event: ReclaimEvent, pid: u32)
    requires
        v.wf(),
        v.phase is Querying,
        event matches ReclaimEvent::Report(bytes),
    ensures
        event matches ReclaimEvent::Report(bytes) && (v.next(event).pids.contains(pid)
            <==> names_pid(lossy_text(bytes@), v.port, pid)),
        v.next(event).port == v.port,
{
    if let ReclaimEvent::Report(bytes) = event {
        law_pid_list_exists(lossy_text(bytes@), v.port);
    }
}

/// A kill that ran counts as done whatever it reported; only a kill that
/// could not be run ends the reclaim.
pub proof fn law_kill_result_is_not_fatal(v: ReclaimView)
    requires
        v.wf(),
        v.phase is Killing,
    ensures
        v.directive() == ReclaimDirective::Kill(v.pids[v.handled as int]),
        v.next(ReclaimEvent::KillRan).handled == v.handled + 1,
        !(v.next(ReclaimEvent::KillRan).phase is Failed),
        v.next(ReclaimEvent::KillFailed).failure == Some(ReclaimError::Kill),
{
}

/// The state of one reclaim.
pub struct Reclaim {
    phase: ReclaimPhase,
    port: u16,
    pids: Vec<u32>,
    handled: usize,
    failure: Option<ReclaimError>,
}

impl View for Reclaim {
    type V = ReclaimView;

    closed spec fn view(&self) -> ReclaimView {
        ReclaimView {
            phase: self.phase,
            port: self.port,
            pids: self.pids@,
            handled: self.handled as nat,
            failure: self.failure,
        }
    }
}

impl Reclaim {
    /// A reclaim that is about to look for the listeners on `port`.
    pub fn new(port: u16) -> (reclaim: Reclaim)
        ensures
            reclaim@ == ReclaimView::initial(port),
            reclaim@.wf(),
    {
        Reclaim {
            phase: ReclaimPhase::Querying,
            port,
            pids: Vec::new(),
            handled: 0,
            failure: None,
        }
    }

    /// The port that is to be freed.
    pub fn port(&self) -> (port: u16)
        ensures
            port == self@.port,
    {
        self.port
    }

    pub fn phase(&self) -> (phase: ReclaimPhase)
        ensures
            phase == self@.phase,
    {
        self.phase
    }

    /// Why the reclaim failed, once it has.
    pub fn failure(&self) -> (failure: Option<ReclaimError>)
        ensures
            failure == self@.failure,
    {
        self.failure
    }

    /// What the caller has to do now.
    pub fn directive(&self) -> (directive: ReclaimDirective)
        requires
            self@.wf(),
        ensures
            directive == self@.directive(),
    {
        match self.phase {
            ReclaimPhase::Querying => ReclaimDirective::Query,
            ReclaimPhase::Killing => ReclaimDirective::Kill(self.pids[self.handled]),
            ReclaimPhase::Settling => {
                if self.pids.len() == 0 {
                    ReclaimDirective::Settle(IDLE_SETTLE_MS)
                } else {
                    ReclaimDirective::Settle(KILL_SETTLE_MS)
                }
            },
            ReclaimPhase::Done => ReclaimDirective::Finish,
            ReclaimPhase::Failed => ReclaimDirective::Fail,
        }
    }

    /// Takes in what the caller reports and says what to do next. An event
    /// that the reclaim does not wait for changes nothing.
    pub fn step(&mut self, event: ReclaimEvent) -> (directive: ReclaimDirective)
        requires
            old(self)@.wf(),
        ensures
            final(self)@ == old(self)@.next(event),
            final(self)@.wf(),
            directive == final(self)@.directive(),
            event matches ReclaimEvent::Report(bytes) ==> (old(self)@.phase is Querying
                && valid_utf8(bytes@) ==> final(self)@.pids == pid_list(
                decode_utf8(bytes@),
                old(self)@.port,
            )),
    {
        proof {
            law_reclaim_step_keeps_invariant(self@, event);
        }
        match self.phase {
            ReclaimPhase::Querying => match event {
                ReclaimEvent::Report(bytes) => {
                    let text = decode_lossy(bytes.as_slice());
                    let pids = listening_pids(text.as_str(), self.port);
                    proof {
                        law_pid_list_exists(text@, self.port);
                        law_pid_list_is_unique(
                            pids@,
                            pid_list(text@, self.port),
                            text@,
                            self.port,
                        );
                    }
                    if pids.len() == 0 {
                        self.phase = ReclaimPhase::Settling;
                    } else {
                        self.phase = ReclaimPhase::Killing;
                    }
                    self.pids = pids;
                },
                ReclaimEvent::QueryFailed => {
                    self.phase = ReclaimPhase::Failed;
                    self.failure = Some(ReclaimError::Query);
                },
                _ => {},
            },
            ReclaimPhase::Killing => match event {
                ReclaimEvent::KillRan => {
                    let total = self.pids.len();
                    assert(self.handled < total);
                    self.handled = self.handled + 1;
                    if self.handled < total {
                        self.phase = ReclaimPhase::Killing;
                    } else {
                        self.phase = ReclaimPhase::Settling;
                    }
                },
                ReclaimEvent::KillFailed => {
                    self.phase = ReclaimPhase::Failed;
                    self.failure = Some(ReclaimError::Kill);
                },
                _ => {},
            },
            ReclaimPhase::Settling => match event {
                ReclaimEvent::Settled => {
                    self.phase = ReclaimPhase::Done;
                },
                _ => {},
            },
            ReclaimPhase::Done | ReclaimPhase::Failed => {},
        }
        self.directive()
    }
}

} // verus!
