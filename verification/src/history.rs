use vstd::prelude::*;
use crate::account::TipAccount;
use crate::engine::{tip_outcome, tip_request, SendTip, Transfer};
use crate::error::{LedgerError, TipError};

verus! {

/// The sum of the amounts of a sequence of transfers.
pub open spec fn total_of(transfers: Seq<Transfer>) -> nat
    decreases transfers.len(),
{
    if transfers.len() == 0 {
        0
    } else {
        total_of(transfers.drop_last()) + transfers.last().amount as nat
    }
}

/// A tip that succeeded: it went from `transfer.from` to `transfer.to`
/// through the record `before`, the ledger made the transfer, and the record
/// was `after` when the tip was done.
pub open spec fn tip_made(before: TipAccount, transfer: Transfer, after: TipAccount) -> bool {
    let ctx = SendTip { tip_account: before, tipper: transfer.from, creator: transfer.to };
    &&& tip_request(ctx, transfer.amount) == Ok::<Transfer, TipError>(transfer)
    &&& tip_outcome(ctx, transfer.amount, Ok(())) == (
        SendTip { tip_account: after, ..ctx },
        Ok::<(), TipError>(()),
    )
}

/// A run of successful tips on one record: `records[i]` is the record before
/// the tip that made `transfers[i]`, and `records[i + 1]` the record after it.
pub open spec fn tips_made(records: Seq<TipAccount>, transfers: Seq<Transfer>) -> bool {
    &&& records.len() == transfers.len() + 1
    &&& forall|i: int|
        0 <= i < transfers.len() ==> tip_made(records[i], #[trigger] transfers[i], records[i + 1])
}

/// A tip never lowers the total and never rewrites who tips or whom,
/// whether it succeeds or fails.
pub proof fn lemma_tip_keeps_record(ctx: SendTip, amount: u64, reply: Result<(), LedgerError>)
    ensures
        tip_outcome(ctx, amount, reply).0.tip_account.total_tips >= ctx.tip_account.total_tips,
        tip_outcome(ctx, amount, reply).0.tip_account.tipper == ctx.tip_account.tipper,
        tip_outcome(ctx, amount, reply).0.tip_account.creator == ctx.tip_account.creator,
        tip_outcome(ctx, amount, reply).0.tipper == ctx.tipper,
        tip_outcome(ctx, amount, reply).0.creator == ctx.creator,
{
}

/// A tip that fails, for whatever reason, changes nothing: the record is as
/// it was, and where the failure came from a check, no transfer was asked of
/// the ledger at all.
pub proof fn lemma_failed_tip_changes_nothing(
    ctx: SendTip,
    amount: u64,
    reply: Result<(), LedgerError>,
)
    requires
        tip_outcome(ctx, amount, reply).1 is Err,
    ensures
        tip_outcome(ctx, amount, reply).0 == ctx,
        tip_request(ctx, amount) is Err || reply is Err,
        tip_request(ctx, amount) matches Err(e) ==> tip_outcome(ctx, amount, reply).1 == Err::<
            (),
            TipError,
        >(e),
{
}

/// A tip that succeeds adds exactly its amount to the total, and that amount
/// is the one the ledger moved from the tipper to the creator.
pub proof fn lemma_tip_counts_what_moved(
    ctx: SendTip,
    amount: u64,
    reply: Result<(), LedgerError>,
)
    requires
        tip_outcome(ctx, amount, reply).1 is Ok,
    ensures
        reply is Ok,
        tip_request(ctx, amount) == Ok::<Transfer, TipError>(
            Transfer { from: ctx.tipper, to: ctx.creator, amount },
        ),
        amount > 0,
        ctx.tipper != ctx.creator,
        ctx.tipper == ctx.tip_account.tipper,
        tip_outcome(ctx, amount, reply).0.tip_account.total_tips == ctx.tip_account.total_tips
            + amount,
{
}

/// After any run of successful tips on a record, the total has grown by the
/// sum of the amounts tipped, it never went down on the way, and the record
/// still names the same tipper and creator.
pub proof fn lemma_total_is_sum(records: Seq<TipAccount>, transfers: Seq<Transfer>)
    requires
        tips_made(records, transfers),
    ensures
        records.last().total_tips == records[0].total_tips + total_of(transfers),
        records.last().tipper == records[0].tipper,
        records.last().creator == records[0].creator,
        forall|i: int, j: int|
            0 <= i <= j < records.len() ==> records[i].total_tips <= records[j].total_tips,
    decreases transfers.len(),
{
    if transfers.len() > 0 {
        let n = transfers.len() - 1;
        let earlier = records.drop_last();
        let made = transfers.drop_last();
        assert forall|i: int| 0 <= i < made.len() implies tip_made(
            earlier[i],
            #[trigger] made[i],
            earlier[i + 1],
        ) by {
            assert(tip_made(records[i], transfers[i], records[i + 1]));
        }
        lemma_total_is_sum(earlier, made);
        assert(tip_made(records[n], transfers[n], records[n + 1]));
        assert(earlier.last() == records[n]);
        assert(earlier[0] == records[0]);
        assert forall|i: int, j: int| 0 <= i <= j < records.len() implies records[i].total_tips
            <= records[j].total_tips by {
            if j <= n {
                assert(earlier[i] == records[i] && earlier[j] == records[j]);
            } else if i <= n {
                assert(earlier[i] == records[i]);
                assert(earlier[i].total_tips <= earlier[n].total_tips);
            }
        }
    }
}

/// Counted from a record that was just created, the total is the sum of all
/// the amounts tipped through it.
pub proof fn lemma_total_from_fresh(records: Seq<TipAccount>, transfers: Seq<Transfer>)
    requires
        tips_made(records, transfers),
        records[0].total_tips == 0,
    ensures
        records.last().total_tips == total_of(transfers),
{
    lemma_total_is_sum(records, transfers);
}

} // verus!
