use vstd::prelude::*;

use crate::decode::le_at;
use crate::error::ErrorCode;
use crate::max17205::{
    outcome, spec_begin, spec_complete, CompletionView, GaugeView, Operation, Reading, State,
    BUFFER_LEN,
};

verus! {

/// Number of bus transactions that make up an operation.
pub open spec fn transaction_count(op: Operation) -> nat {
    match op {
        Operation::StateOfCharge | Operation::VoltageAndCurrent => 4,
        _ => 2,
    }
}

/// Feeds completions to the gauge in turn: the `i`-th hands back buffer
/// `replies[i]` with status success exactly when `oks[i]`. The result is the
/// state after the last one and what followed each.
pub open spec fn feed(g: GaugeView, replies: Seq<Seq<u8>>, oks: Seq<bool>) -> (GaugeView, Seq<CompletionView>)
    decreases replies.len(),
{
    if replies.len() == 0 || oks.len() == 0 {
        (g, Seq::empty())
    } else {
        let (g1, c) = spec_complete(g, replies[0], oks[0]);
        let (g2, cs) = feed(g1, replies.drop_first(), oks.drop_first());
        (g2, seq![c] + cs)
    }
}

/// The reading an operation decodes from the buffers its transactions hand
/// back: its reads are the transactions of odd index.
pub open spec fn expected_reading(op: Operation, replies: Seq<Seq<u8>>) -> Reading {
    match op {
        Operation::Status => Reading::Status { status: le_at(replies[1], 0, 2) as u16 },
        Operation::StateOfCharge => Reading::StateOfCharge {
            percent: le_at(replies[1], 2, 2) as u16,
            capacity: le_at(replies[1], 0, 2) as u16,
            full_capacity: le_at(replies[3], 0, 2) as u16,
        },
        Operation::VoltageAndCurrent => Reading::VoltageCurrent {
            voltage: le_at(replies[1], 0, 2) as u16,
            current: le_at(replies[3], 0, 2) as u16,
        },
        Operation::CoulombCount => Reading::Coulomb { coulomb: le_at(replies[1], 0, 2) as u16 },
        Operation::UniqueId => Reading::RomId { rid: le_at(replies[1], 0, 8) as u64 },
    }
}

/// Every reply is a whole scratch buffer.
pub open spec fn whole_buffers(replies: Seq<Seq<u8>>) -> bool {
    forall|i: int| 0 <= i < replies.len() ==> #[trigger] replies[i].len() >= BUFFER_LEN
}

/// The operation begun on `g` and then fed `replies` with statuses `oks`.
pub open spec fn run(g: GaugeView, op: Operation, replies: Seq<Seq<u8>>, oks: Seq<bool>) -> (GaugeView, Seq<CompletionView>) {
    feed(spec_begin(g, op).0, replies, oks)
}

/// An operation begun on an idle gauge takes exactly its transactions: each
/// completion but the last issues the next transaction, and the last reports
/// the decoded reading, once, with success exactly when the transport
/// reported that last transaction complete. The gauge is then idle and holds
/// its buffer again, whatever the statuses were.
pub proof fn lemma_operation_reports_once(g: GaugeView, op: Operation, replies: Seq<Seq<u8>>, oks: Seq<bool>)
    requires
        g.wf(),
        g.state == State::Idle,
        replies.len() == transaction_count(op),
        oks.len() == replies.len(),
        whole_buffers(replies),
    ensures
        spec_begin(g, op).1 is Ok,
        ({
            let (g2, cs) = run(g, op, replies, oks);
            &&& cs.len() == replies.len()
            &&& forall|i: int| 0 <= i < cs.len() - 1 ==> #[trigger] cs[i] is Next
            &&& cs.last() == CompletionView::Done {
                endpoint: op.first_register().spec_endpoint(),
                reading: expected_reading(op, replies),
                result: outcome(oks.last()),
            }
            &&& g2.wf()
            &&& g2.state == State::Idle
            &&& g2.buffer == Some(replies.last())
        }),
{
    let g1 = spec_begin(g, op).0;
    assert(replies[0].len() >= BUFFER_LEN);
    assert(replies[1].len() >= BUFFER_LEN);
    reveal_with_fuel(feed, 5);
    let r1 = replies.drop_first();
    let o1 = oks.drop_first();
    assert(r1[0] == replies[1]);
    if transaction_count(op) == 4 {
        assert(replies[2].len() >= BUFFER_LEN);
        assert(replies[3].len() >= BUFFER_LEN);
        let r2 = r1.drop_first();
        let r3 = r2.drop_first();
        assert(r2[0] == replies[2]);
        assert(r3[0] == replies[3]);
        assert(r3.drop_first().len() == 0);
        assert(oks.last() == o1.drop_first().drop_first()[0]);
    } else {
        assert(r1.drop_first().len() == 0);
        assert(oks.last() == o1[0]);
    }
}

/// With the transport reporting every transaction complete, an operation
/// ends in exactly one report, a success carrying the decoded reading.
pub proof fn lemma_success_reports_reading(g: GaugeView, op: Operation, replies: Seq<Seq<u8>>)
    requires
        g.wf(),
        g.state == State::Idle,
        replies.len() == transaction_count(op),
        whole_buffers(replies),
    ensures
        ({
            let oks = Seq::new(replies.len(), |i: int| true);
            let cs = run(g, op, replies, oks).1;
            &&& forall|i: int| 0 <= i < cs.len() - 1 ==> #[trigger] cs[i] is Next
            &&& cs.last() == CompletionView::Done {
                endpoint: op.first_register().spec_endpoint(),
                reading: expected_reading(op, replies),
                result: Ok(()),
            }
        }),
{
    let oks = Seq::new(replies.len(), |i: int| true);
    lemma_operation_reports_once(g, op, replies, oks);
}

/// While an operation is in flight, `begin` of any operation fails with
/// `NoMem` and leaves the tag and the stored values as they were.
pub proof fn lemma_busy_rejected(g: GaugeView, op: Operation)
    requires
        g.wf(),
        g.state != State::Idle,
    ensures
        spec_begin(g, op) == (g, Err::<crate::bus::TransferView, ErrorCode>(ErrorCode::NoMem)),
{
}

/// A failure reported on the last transaction ends the operation in exactly
/// one report, with the no-acknowledge error; the gauge is idle again and a
/// following `begin` of any operation is accepted.
pub proof fn lemma_error_releases(
    g: GaugeView,
    op: Operation,
    replies: Seq<Seq<u8>>,
    oks: Seq<bool>,
    next: Operation,
)
    requires
        g.wf(),
        g.state == State::Idle,
        replies.len() == transaction_count(op),
        oks.len() == replies.len(),
        whole_buffers(replies),
        !oks.last(),
    ensures
        ({
            let (g2, cs) = run(g, op, replies, oks);
            &&& forall|i: int| 0 <= i < cs.len() - 1 ==> #[trigger] cs[i] is Next
            &&& cs.last() matches CompletionView::Done { result, .. } && result == Err::<(), ErrorCode>(
                ErrorCode::NoAck,
            )
            &&& g2.state == State::Idle
            &&& spec_begin(g2, next).1 is Ok
        }),
{
    lemma_operation_reports_once(g, op, replies, oks);
}

/// After any operation has ended, successfully or not, the gauge is idle and
/// holds its buffer, so any operation begun next proceeds: its first
/// transaction is accepted and its completion issues the second.
pub proof fn lemma_next_operation_proceeds(
    g: GaugeView,
    op: Operation,
    replies: Seq<Seq<u8>>,
    oks: Seq<bool>,
    next: Operation,
    reply: Seq<u8>,
    ok: bool,
)
    requires
        g.wf(),
        g.state == State::Idle,
        replies.len() == transaction_count(op),
        oks.len() == replies.len(),
        whole_buffers(replies),
        reply.len() >= BUFFER_LEN,
    ensures
        ({
            let g2 = run(g, op, replies, oks).0;
            let (g3, t) = spec_begin(g2, next);
            &&& g2.state == State::Idle
            &&& g2.buffer is Some
            &&& t is Ok
            &&& g3.state == next.setup_state()
            &&& spec_complete(g3, reply, ok).1 is Next
        }),
{
    lemma_operation_reports_once(g, op, replies, oks);
}

} // verus!
