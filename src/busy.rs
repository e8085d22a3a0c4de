use vstd::prelude::*;
use crate::protocol::{
    BusOp,
    Op,
    ops_view,
    command_frame,
    send_command,
    push_op,
    GET_STATUS,
};

verus! {

/// Wait between a status query and the sample of the busy line, in milliseconds.
pub const POLL_INTERVAL_MS: u32 = 200;

/// Most status cycles before the wait gives up (about six seconds).
pub const MAX_POLLS: u32 = 30;

/// The panel did not release its busy line within `MAX_POLLS` status cycles.
#[derive(Debug, Clone, Copy, PartialEq, Eq)]
pub struct PanelTimeout {
    pub polls: u32,
}

/// What to do after a sample of the busy line.
#[derive(Debug, Clone, Copy, PartialEq, Eq, Structural)]
pub enum BusyStep {
    /// Run another status cycle, then sample again.
    Poll,
    /// The panel is idle: the wait is over.
    Released,
    /// The bound on status cycles is reached: the wait failed.
    TimedOut,
}

/// One status cycle: the status query, then the poll interval. The busy
/// line is sampled after it.
pub open spec fn status_cycle() -> Seq<Op> {
    command_frame(GET_STATUS, Seq::<u8>::empty()).push(Op::DelayMs(POLL_INTERVAL_MS))
}

/// `n` status cycles, one after the other.
pub open spec fn status_cycles(n: nat) -> Seq<Op>
    decreases n,
{
    if n == 0 {
        Seq::<Op>::empty()
    } else {
        status_cycles((n - 1) as nat) + status_cycle()
    }
}

/// Sample `i` of a busy-line record: true where the panel had released the
/// line. A record that ends early reads as still busy.
pub open spec fn released_at(samples: Seq<bool>, i: int) -> bool {
    0 <= i < samples.len() && samples[i]
}

/// Status cycles that a wait runs from cycle `i` on.
pub open spec fn cycles_from(samples: Seq<bool>, i: nat) -> nat
    decreases MAX_POLLS - i,
{
    if i >= MAX_POLLS {
        0
    } else if released_at(samples, i as int) {
        1
    } else {
        1 + cycles_from(samples, i + 1)
    }
}

/// Status cycles that a whole wait runs against the record `samples`.
pub open spec fn cycles_run(samples: Seq<bool>) -> nat {
    cycles_from(samples, 0)
}

/// Whether the panel released the busy line within the bound.
pub open spec fn released_in_time(samples: Seq<bool>) -> bool {
    exists|i: int| 0 <= i < MAX_POLLS && #[trigger] released_at(samples, i)
}

/// Number of status queries in `ops`.
pub open spec fn status_queries(ops: Seq<Op>) -> nat
    decreases ops.len(),
{
    if ops.len() == 0 {
        0
    } else {
        status_queries(ops.drop_last()) + if ops.last() == Op::Write(seq![GET_STATUS]) {
            1nat
        } else {
            0nat
        }
    }
}

pub proof fn lemma_status_queries_add(a: Seq<Op>, b: Seq<Op>)
    ensures
        status_queries(a + b) == status_queries(a) + status_queries(b),
    decreases b.len(),
{
    if b.len() == 0 {
        assert(a + b =~= a);
    } else {
        assert((a + b).drop_last() =~= a + b.drop_last());
        lemma_status_queries_add(a, b.drop_last());
    }
}

pub proof fn lemma_status_cycles(n: nat)
    ensures
        status_queries(status_cycles(n)) == n,
    decreases n,
{
    if n > 0 {
        lemma_status_cycles((n - 1) as nat);
        lemma_status_queries_add(status_cycles((n - 1) as nat), status_cycle());
        let q = Op::Write(seq![GET_STATUS]);
        let s1 = seq![Op::CommandMode];
        let s2 = seq![Op::CommandMode, q];
        let s3 = seq![Op::CommandMode, q, Op::DelayMs(POLL_INTERVAL_MS)];
        assert(status_cycle() =~= s3);
        assert(s1.drop_last() =~= Seq::<Op>::empty());
        assert(s2.drop_last() =~= s1);
        assert(s3.drop_last() =~= s2);
        assert(Op::CommandMode != q);
        assert(Op::DelayMs(POLL_INTERVAL_MS) != q);
        assert(status_queries(Seq::<Op>::empty()) == 0);
        assert(status_queries(s1) == 0);
        assert(status_queries(s2) == 1);
        assert(status_queries(s3) == 1);
    }
}

proof fn lemma_cycles_from_first_release(samples: Seq<bool>, i: nat, n: nat)
    requires
        i < n <= MAX_POLLS,
        forall|j: int| i <= j < n - 1 ==> !#[trigger] released_at(samples, j),
        released_at(samples, n - 1),
    ensures
        cycles_from(samples, i) == n - i,
    decreases n - i,
{
    if i + 1 < n {
        lemma_cycles_from_first_release(samples, i + 1, n);
    }
}

/// A wait against a busy line that first reads released at sample `n`
/// (counting from one, within the bound) runs exactly `n` status cycles,
/// issues exactly `n` status queries, and succeeds.
pub proof fn lemma_wait_ends_on_first_release(samples: Seq<bool>, n: nat)
    requires
        1 <= n <= MAX_POLLS,
        forall|j: int| 0 <= j < n - 1 ==> !#[trigger] released_at(samples, j),
        released_at(samples, n - 1),
    ensures
        cycles_run(samples) == n,
        status_queries(status_cycles(cycles_run(samples))) == n,
        released_in_time(samples),
{
    lemma_cycles_from_first_release(samples, 0, n);
    lemma_status_cycles(n);
}

/// The busy-wait: a status cycle, then a sample of the busy line, until the
/// panel releases the line or `MAX_POLLS` cycles have run.
pub struct BusyWait {
    polls: u32,
}

impl BusyWait {
    pub closed spec fn spec_polls(&self) -> nat {
        self.polls as nat
    }

    /// A wait that has run no cycle yet.
    pub fn new() -> (w: BusyWait)
        ensures
            w.spec_polls() == 0,
    {
        BusyWait { polls: 0 }
    }

    /// Status cycles run so far.
    pub fn polls(&self) -> (r: u32)
        ensures
            r == self.spec_polls(),
    {
        self.polls
    }

    /// Appends one status cycle to `ops` and counts it.
    pub fn begin_cycle(&mut self, ops: &mut Vec<BusOp>)
        requires
            old(self).spec_polls() < MAX_POLLS,
        ensures
            final(self).spec_polls() == old(self).spec_polls() + 1,
            ops_view(final(ops)@) == ops_view(old(ops)@) + status_cycle(),
    {
        send_command(ops, GET_STATUS, &[]);
        push_op(ops, BusOp::DelayMs(POLL_INTERVAL_MS));
        assert(ops_view(ops@) =~= ops_view(old(ops)@) + status_cycle());
        self.polls = self.polls + 1;
    }

    /// What follows a sample of the busy line, taken after a status cycle.
    pub fn after_sample(&self, released: bool) -> (r: BusyStep)
        ensures
            r == (if released {
                BusyStep::Released
            } else if self.spec_polls() >= MAX_POLLS {
                BusyStep::TimedOut
            } else {
                BusyStep::Poll
            }),
    {
        if released {
            BusyStep::Released
        } else if self.polls >= MAX_POLLS {
            BusyStep::TimedOut
        } else {
            BusyStep::Poll
        }
    }
}

/// Runs a whole busy-wait against a record of busy-line samples and returns
/// the bus operations it issued, with its outcome.
pub fn expand_busy_wait(samples: &[bool]) -> (r: (Vec<BusOp>, Result<(), PanelTimeout>))
    ensures
        ops_view(r.0@) == status_cycles(cycles_run(samples@)),
        r.1 is Ok <==> released_in_time(samples@),
        r.1 is Err ==> r.1 == Err::<(), PanelTimeout>(PanelTimeout { polls: MAX_POLLS }),
{
    let mut ops: Vec<BusOp> = Vec::new();
    let mut wait = BusyWait::new();
    assert(ops_view(ops@) =~= status_cycles(0));
    loop
        invariant
            wait.spec_polls() < MAX_POLLS,
            ops_view(ops@) == status_cycles(wait.spec_polls()),
            forall|j: int| 0 <= j < wait.spec_polls() ==> !#[trigger] released_at(samples@, j),
            cycles_run(samples@) == wait.spec_polls() + cycles_from(samples@, wait.spec_polls()),
        decreases MAX_POLLS - wait.spec_polls(),
    {
        let i = wait.polls() as usize;
        wait.begin_cycle(&mut ops);
        let released = i < samples.len() && samples[i];
        assert(released == released_at(samples@, i as int));
        match wait.after_sample(released) {
            BusyStep::Released => {
                return (ops, Ok(()));
            },
            BusyStep::TimedOut => {
                assert(cycles_from(samples@, i as nat) == 1 + cycles_from(samples@, MAX_POLLS as nat));
                assert(cycles_from(samples@, MAX_POLLS as nat) == 0);
                assert(!released_in_time(samples@));
                return (ops, Err(PanelTimeout { polls: MAX_POLLS }));
            },
            BusyStep::Poll => {},
        }
    }
}

} // verus!
