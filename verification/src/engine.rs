use vstd::prelude::*;
use crate::account::TipAccount;
use crate::error::{LedgerError, TipError};
use crate::identity::Identity;

verus! {

/// An order to the ledger: move `amount` out of the balance of `from` and
/// into the balance of `to`, in one step.
#[derive(Clone, Copy, Debug, PartialEq, Eq)]
pub struct Transfer {
    pub from: Identity,
    pub to: Identity,
    pub amount: u64,
}

/// What a tip is made of: the record it goes through, the caller who tips,
/// and the creator who receives.
///
/// The creator named here is not compared with `tip_account.creator`: a tip
/// goes to whoever the caller names, and is counted in the caller's record.
#[derive(Clone, Copy, Debug, PartialEq, Eq)]
pub struct SendTip {
    pub tip_account: TipAccount,
    pub tipper: Identity,
    pub creator: Identity,
}

/// The transfer that a tip asks of the ledger, or the reason why the tip is
/// refused before the ledger is asked anything.
///
/// The checks run in this order and the first that fails decides: the caller
/// is the record's tipper; the caller is not the creator; the amount is not
/// zero; the new total fits in 64 bits.
pub open spec fn tip_request(ctx: SendTip, amount: u64) -> Result<Transfer, TipError> {
    if ctx.tip_account.tipper != ctx.tipper {
        Err(TipError::InvalidTipper)
    } else if ctx.tipper == ctx.creator {
        Err(TipError::CannotTipSelf)
    } else if amount == 0 {
        Err(TipError::InvalidAmount)
    } else if ctx.tip_account.total_tips + amount > u64::MAX {
        Err(TipError::OverflowError)
    } else {
        Ok(Transfer { from: ctx.tipper, to: ctx.creator, amount })
    }
}

/// How a tip ends, given what the ledger answered to its transfer: the
/// result, and the request as it stands afterwards.
///
/// The ledger's answer counts only where the tip passed its checks. The total
/// grows by the amount exactly when the transfer was made; in every other
/// case nothing changes.
pub open spec fn tip_outcome(ctx: SendTip, amount: u64, reply: Result<(), LedgerError>) -> (
    SendTip,
    Result<(), TipError>,
) {
    match tip_request(ctx, amount) {
        Err(e) => (ctx, Err(e)),
        Ok(_) => match reply {
            Err(e) => (ctx, Err(TipError::Ledger(e))),
            Ok(_) => (SendTip { tip_account: ctx.tip_account.credited(amount), ..ctx }, Ok(())),
        },
    }
}

/// Checks a tip and says which transfer the ledger has to make for it.
pub fn request_tip(ctx: &SendTip, amount: u64) -> (res: Result<Transfer, TipError>)
    ensures
        res == tip_request(*ctx, amount),
{
    if ctx.tip_account.tipper != ctx.tipper {
        Err(TipError::InvalidTipper)
    } else if ctx.tipper == ctx.creator {
        Err(TipError::CannotTipSelf)
    } else if amount == 0 {
        Err(TipError::InvalidAmount)
    } else if ctx.tip_account.total_tips.checked_add(amount).is_none() {
        Err(TipError::OverflowError)
    } else {
        Ok(Transfer { from: ctx.tipper, to: ctx.creator, amount })
    }
}

/// Finishes a tip once the ledger has answered: counts the amount in the
/// record where the transfer was made, and passes the ledger's error on
/// where it was not.
///
/// The checks of `request_tip` are made again, so a tip that would have been
/// refused is refused here too, whatever the ledger answered.
pub fn settle_tip(ctx: &mut SendTip, amount: u64, reply: Result<(), LedgerError>) -> (res: Result<
    (),
    TipError,
>)
    ensures
        (*final(ctx), res) == tip_outcome(*old(ctx), amount, reply),
{
    match request_tip(ctx, amount) {
        Err(e) => Err(e),
        Ok(_) => match reply {
            Err(e) => Err(TipError::Ledger(e)),
            Ok(_) => {
                ctx.tip_account.total_tips = ctx.tip_account.total_tips + amount;
                Ok(())
            },
        },
    }
}

/// Sends a tip: checks it, has `ledger` make the transfer, and counts the
/// amount in the record.
///
/// `ledger` is called at most once, and only with the transfer of a tip that
/// passed every check. Whatever it answers, the result and the record are
/// those that `tip_outcome` gives for that answer; a tip that fails leaves
/// the record as it was.
pub fn send_tip<L>(ctx: &mut SendTip, amount: u64, ledger: L) -> (res: Result<(), TipError>)
    where L: FnOnce(Transfer) -> Result<(), LedgerError>
    requires
        tip_request(*old(ctx), amount) matches Ok(order) ==> call_requires(ledger, (order,)),
    ensures
        match tip_request(*old(ctx), amount) {
            Err(e) => res == Err::<(), TipError>(e) && *final(ctx) == *old(ctx),
            Ok(order) => exists|reply: Result<(), LedgerError>|
                {
                    &&& call_ensures(ledger, (order,), reply)
                    &&& (*final(ctx), res) == #[trigger] tip_outcome(*old(ctx), amount, reply)
                },
        },
        res is Err ==> *final(ctx) == *old(ctx),
        res is Ok ==> final(ctx).tip_account == old(ctx).tip_account.credited(amount),
{
    match request_tip(ctx, amount) {
        Err(e) => Err(e),
        Ok(order) => {
            let reply = ledger(order);
            settle_tip(ctx, amount, reply)
        },
    }
}

} // verus!
