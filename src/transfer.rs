//! A fixed script of bus transactions, run one transaction at a time.
//!
//! The caller performs each transaction that the script hands out and feeds
//! the outcome back. The script stops at the first failed transaction and
//! hands out nothing after it.
use vstd::prelude::*;

verus! {

/// One register transaction on the SMBus.
#[derive(Clone, Copy, Debug, PartialEq, Eq, Structural)]
pub enum BusOp {
    /// Block write of the single byte `value` at register `reg`.
    WriteBlock { reg: u8, value: u8 },
    /// Byte write of `value` at register `reg`.
    WriteByte { reg: u8, value: u8 },
    /// Byte read of register `reg`.
    ReadByte { reg: u8 },
    /// Word read of registers `reg` and `reg + 1`.
    ReadWord { reg: u8 },
}

/// What a script asks for next: one more transaction, or nothing, with its
/// outcome.
#[derive(Debug, PartialEq, Eq)]
pub enum Step<T, E> {
    Issue(BusOp),
    Done(Result<T, E>),
}

/// The mathematical state of a script: its transactions, the values that
/// came back so far (one per finished transaction), and whether one failed.
pub struct TransferModel<R> {
    pub ops: Seq<BusOp>,
    pub replies: Seq<R>,
    pub failed: bool,
}

impl<R> TransferModel<R> {
    pub open spec fn started(ops: Seq<BusOp>) -> TransferModel<R> {
        TransferModel { ops, replies: Seq::empty(), failed: false }
    }

    pub open spec fn wf(self) -> bool {
        &&& 0 < self.ops.len()
        &&& self.replies.len() <= self.ops.len()
        &&& self.failed ==> self.replies.len() < self.ops.len()
    }

    /// A transaction is outstanding: the one at index `replies.len()`.
    pub open spec fn running(self) -> bool {
        !self.failed && self.replies.len() < self.ops.len()
    }

    /// Every transaction succeeded.
    pub open spec fn complete(self) -> bool {
        !self.failed && self.replies.len() == self.ops.len()
    }

    /// The state once the outstanding transaction has returned `reply`.
    pub open spec fn advance<E>(self, reply: Result<R, E>) -> TransferModel<R> {
        match reply {
            Ok(v) => TransferModel { ops: self.ops, replies: self.replies.push(v), failed: false },
            Err(_) => TransferModel { ops: self.ops, replies: self.replies, failed: true },
        }
    }

    /// What the script asks for once the outstanding transaction has
    /// returned `reply`.
    pub open spec fn answer<E>(self, reply: Result<R, E>) -> Step<(), E> {
        match reply {
            Ok(_) => if self.replies.len() + 1 < self.ops.len() {
                Step::Issue(self.ops[self.replies.len() + 1int])
            } else {
                Step::Done(Ok(()))
            },
            Err(e) => Step::Done(Err(e)),
        }
    }
}

/// Replaces the unit result of a finished script by `v`.
pub open spec fn deliver<T, E>(s: Step<(), E>, v: T) -> Step<T, E> {
    match s {
        Step::Issue(op) => Step::Issue(op),
        Step::Done(Ok(_)) => Step::Done(Ok(v)),
        Step::Done(Err(e)) => Step::Done(Err(e)),
    }
}

/// Feeds `replies` to a script in state `m`, one per outstanding
/// transaction, until it stops. Gives the final state and the transactions
/// handed out on the way, in order.
pub open spec fn run<R, E>(m: TransferModel<R>, replies: Seq<Result<R, E>>) -> (TransferModel<R>, Seq<BusOp>)
    decreases replies.len(),
{
    if replies.len() == 0 || !m.running() {
        (m, Seq::empty())
    } else {
        let rest = run(m.advance(replies[0]), replies.drop_first());
        match m.answer(replies[0]) {
            Step::Issue(op) => (rest.0, seq![op] + rest.1),
            Step::Done(_) => (rest.0, rest.1),
        }
    }
}

/// Every transaction that a script over `ops` hands out when answered by
/// `replies`: the first one, then those that `run` gives.
pub open spec fn issued<R, E>(ops: Seq<BusOp>, replies: Seq<Result<R, E>>) -> Seq<BusOp> {
    seq![ops[0]] + run(TransferModel::<R>::started(ops), replies).1
}

/// Successful outcomes carrying `vs`, in order.
pub open spec fn ok_replies<R, E>(vs: Seq<R>) -> Seq<Result<R, E>> {
    vs.map_values(|v: R| Ok::<R, E>(v))
}

/// A script of transactions in progress.
pub struct Transfer<R> {
    ops: Vec<BusOp>,
    replies: Vec<R>,
    failed: bool,
}

impl<R> View for Transfer<R> {
    type V = TransferModel<R>;

    closed spec fn view(&self) -> TransferModel<R> {
        TransferModel { ops: self.ops@, replies: self.replies@, failed: self.failed }
    }
}

impl<R> Transfer<R> {
    /// Starts the script `ops` and hands out its first transaction.
    pub fn start(ops: Vec<BusOp>) -> (r: (Transfer<R>, BusOp))
        requires
            ops@.len() > 0,
        ensures
            r.0@ == TransferModel::<R>::started(ops@),
            r.0@.wf(),
            r.1 == ops@[0],
    {
        let first = ops[0];
        (Transfer { ops, replies: Vec::new(), failed: false }, first)
    }

    /// Whether a transaction is outstanding.
    pub fn is_running(&self) -> (r: bool)
        ensures
            r == self@.running(),
    {
        !self.failed && self.replies.len() < self.ops.len()
    }

    /// The values returned so far, in order.
    pub fn replies(&self) -> (r: &Vec<R>)
        ensures
            r@ == self@.replies,
    {
        &self.replies
    }

    /// Takes the outcome of the outstanding transaction and says what comes
    /// next.
    pub fn resume<E>(&mut self, reply: Result<R, E>) -> (s: Step<(), E>)
        requires
            old(self)@.wf(),
            old(self)@.running(),
        ensures
            final(self)@ == old(self)@.advance(reply),
            final(self)@.wf(),
            s == old(self)@.answer(reply),
    {
        match reply {
            Ok(v) => {
                self.replies.push(v);
                if self.replies.len() < self.ops.len() {
                    Step::Issue(self.ops[self.replies.len()])
                } else {
                    Step::Done(Ok(()))
                }
            },
            Err(e) => {
                self.failed = true;
                Step::Done(Err(e))
            },
        }
    }
}

/// Feeding successful outcomes `oks` to a running script takes in their
/// values and hands out the transactions that follow them, as far as the
/// script goes.
pub proof fn lemma_run_ok_prefix<R, E>(m: TransferModel<R>, oks: Seq<R>, tail: Seq<Result<R, E>>)
    requires
        m.wf(),
        !m.failed,
        m.replies.len() + oks.len() <= m.ops.len(),
    ensures
        ({
            let m2 = TransferModel { ops: m.ops, replies: m.replies + oks, failed: false };
            let n: int = m.replies.len() + oks.len() + 1int;
            let hi: int = if n < m.ops.len() { n } else { m.ops.len() as int };
            let lo: int = if oks.len() == 0 { hi } else { m.replies.len() + 1int };
            &&& run(m, ok_replies::<R, E>(oks) + tail).0 == run(m2, tail).0
            &&& run(m, ok_replies::<R, E>(oks) + tail).1 == m.ops.subrange(lo, hi) + run(m2, tail).1
        }),
    decreases oks.len(),
{
    let all = ok_replies::<R, E>(oks) + tail;
    let m2 = TransferModel { ops: m.ops, replies: m.replies + oks, failed: false };
    if oks.len() == 0 {
        assert(all =~= tail);
        assert(m.replies + oks =~= m.replies);
        assert(m2 == m);
    } else {
        let m1 = m.advance(all[0]);
        assert(all[0] == Ok::<R, E>(oks[0]));
        assert(all.drop_first() =~= ok_replies::<R, E>(oks.drop_first()) + tail);
        lemma_run_ok_prefix(m1, oks.drop_first(), tail);
        assert(m1.replies + oks.drop_first() =~= m.replies + oks);
        let n: int = m.replies.len() + oks.len() + 1int;
        let hi: int = if n < m.ops.len() { n } else { m.ops.len() as int };
        let r1 = run(m1, all.drop_first());
        if m.replies.len() + 1 < m.ops.len() {
            assert(seq![m.ops[m.replies.len() + 1int]] + r1.1 =~= m.ops.subrange(m.replies.len() + 1int, hi) + run(m2, tail).1);
        } else {
            assert(m.ops.subrange(hi, hi) + run(m2, tail).1 =~= run(m2, tail).1);
        }
    }
}

/// A script answered by one success per transaction hands out each of its
/// transactions once, in order, and ends complete with those values.
pub proof fn lemma_transfer_complete<R, E>(ops: Seq<BusOp>, values: Seq<R>, later: Seq<Result<R, E>>)
    requires
        ops.len() > 0,
        values.len() == ops.len(),
    ensures
        issued(ops, ok_replies::<R, E>(values) + later) == ops,
        run(TransferModel::<R>::started(ops), ok_replies::<R, E>(values) + later).0
            == (TransferModel { ops, replies: values, failed: false }),
{
    let m = TransferModel::<R>::started(ops);
    lemma_run_ok_prefix(m, values, later);
    assert(m.replies + values =~= values);
    assert(seq![ops[0]] + ops.subrange(1, ops.len() as int) + Seq::<BusOp>::empty() =~= ops);
}

/// A script whose transaction at index `values.len()` fails, after
/// `values` came back from the ones before it, hands out exactly the
/// transactions up to the failed one and nothing after it.
pub proof fn lemma_transfer_stops<R, E>(ops: Seq<BusOp>, values: Seq<R>, e: E, later: Seq<Result<R, E>>)
    requires
        values.len() < ops.len(),
    ensures
        issued(ops, ok_replies::<R, E>(values) + seq![Err(e)] + later) == ops.take(values.len() + 1int),
        run(TransferModel::<R>::started(ops), ok_replies::<R, E>(values) + seq![Err(e)] + later).0
            == (TransferModel { ops, replies: values, failed: true }),
{
    let m = TransferModel::<R>::started(ops);
    let tail = seq![Err::<R, E>(e)] + later;
    assert(ok_replies::<R, E>(values) + seq![Err(e)] + later =~= ok_replies::<R, E>(values) + tail);
    lemma_run_ok_prefix(m, values, tail);
    assert(m.replies + values =~= values);
    let m2 = TransferModel { ops, replies: values, failed: false };
    let m3 = TransferModel { ops, replies: values, failed: true };
    assert(tail[0] == Err::<R, E>(e));
    assert(m2.advance(tail[0]) == m3);
    assert(run(m3, tail.drop_first()) == (m3, Seq::<BusOp>::empty()));
    assert(run(m2, tail) == (m3, Seq::<BusOp>::empty()));
    let n: int = values.len() + 1int;
    if values.len() == 0 {
        assert(seq![ops[0]] + ops.subrange(1, 1) + Seq::<BusOp>::empty() =~= ops.take(1));
    } else {
        assert(seq![ops[0]] + ops.subrange(1, n) + Seq::<BusOp>::empty() =~= ops.take(n));
    }
}

} // verus!
