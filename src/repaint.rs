use vstd::prelude::*;

verus! {

/// A request, sent from a handler towards the render loop, to draw a new frame.
#[derive(Debug, Clone, Copy, PartialEq, Eq, Structural)]
pub enum PaintMessage {
    RequestRepaint,
}

/// One call on a repaint signal.
pub enum RepaintOp {
    /// A handler asks for a repaint.
    Request,
    /// The render loop takes the scheduled repaint, if any.
    Take,
}

/// Whether a repaint is pending after `ops`, starting from `pending`.
pub open spec fn pending_after(pending: bool, ops: Seq<RepaintOp>) -> bool
    decreases ops.len(),
{
    if ops.len() == 0 {
        pending
    } else {
        match ops.last() {
            RepaintOp::Request => true,
            RepaintOp::Take => false,
        }
    }
}

/// How many repaints the takes among `ops` handed out, starting from `pending`.
pub open spec fn repaints(pending: bool, ops: Seq<RepaintOp>) -> nat
    decreases ops.len(),
{
    if ops.len() == 0 {
        0
    } else {
        let before = repaints(pending, ops.drop_last());
        match ops.last() {
            RepaintOp::Request => before,
            RepaintOp::Take => if pending_after(pending, ops.drop_last()) {
                before + 1
            } else {
                before
            },
        }
    }
}

/// `n` copies of `op`.
pub open spec fn repeated(op: RepaintOp, n: nat) -> Seq<RepaintOp> {
    Seq::new(n, |_i: int| op)
}

proof fn lemma_requests_schedule_none(pending: bool, k: nat)
    ensures
        repaints(pending, repeated(RepaintOp::Request, k)) == 0,
        pending_after(pending, repeated(RepaintOp::Request, k)) == (k > 0 || pending),
    decreases k,
{
    if k > 0 {
        assert(repeated(RepaintOp::Request, k).drop_last() =~= repeated(RepaintOp::Request, (k - 1) as nat));
        lemma_requests_schedule_none(pending, (k - 1) as nat);
    }
}

proof fn lemma_takes_hand_out_at_most_one(pending: bool, a: Seq<RepaintOp>, m: nat)
    requires
        m > 0,
    ensures
        repaints(pending, a + repeated(RepaintOp::Take, m)) == repaints(pending, a) + (if pending_after(
            pending,
            a,
        ) {
            1nat
        } else {
            0nat
        }),
        !pending_after(pending, a + repeated(RepaintOp::Take, m)),
    decreases m,
{
    let ops = a + repeated(RepaintOp::Take, m);
    if m == 1 {
        assert(ops.drop_last() =~= a);
    } else {
        assert(ops.drop_last() =~= a + repeated(RepaintOp::Take, (m - 1) as nat));
        lemma_takes_hand_out_at_most_one(pending, a, (m - 1) as nat);
    }
}

/// Any number `k >= 1` of repaint requests with no take between them lead
/// to exactly one repaint, however often the render loop then takes.
pub proof fn lemma_requests_coalesce(pending: bool, k: nat, m: nat)
    requires
        k > 0,
        m > 0,
    ensures
        repaints(pending, repeated(RepaintOp::Request, k) + repeated(RepaintOp::Take, m)) == 1,
{
    lemma_requests_schedule_none(pending, k);
    lemma_takes_hand_out_at_most_one(pending, repeated(RepaintOp::Request, k), m);
}

/// The coalescing wake-up flag between the handlers and the render loop.
///
/// Any number of requests made before the loop takes the flag amount to a
/// single scheduled repaint.
pub struct RepaintSignal {
    pending: bool,
}

impl RepaintSignal {
    /// Whether a repaint is scheduled and not yet taken.
    pub closed spec fn pending(&self) -> bool {
        self.pending
    }

    /// A signal with no repaint scheduled.
    pub fn new() -> (r: RepaintSignal)
        ensures
            !r.pending(),
    {
        RepaintSignal { pending: false }
    }

    /// Schedules a repaint; a repaint already scheduled stays the only one.
    pub fn request_repaint(&mut self)
        ensures
            final(self).pending(),
    {
        self.pending = true;
    }

    /// Hands out the scheduled repaint, if any, and clears the flag.
    pub fn take_repaint(&mut self) -> (r: Option<PaintMessage>)
        ensures
            r == (if old(self).pending() { Some(PaintMessage::RequestRepaint) } else { None::<PaintMessage> }),
            !final(self).pending(),
    {
        if self.pending {
            self.pending = false;
            Some(PaintMessage::RequestRepaint)
        } else {
            None
        }
    }

    /// Whether a repaint is scheduled and not yet taken.
    pub fn is_pending(&self) -> (r: bool)
        ensures
            r == self.pending(),
    {
        self.pending
    }
}

} // verus!
