use tipjar::account::TipAccount;
use tipjar::deriver::{initialize, Initialize};
use tipjar::engine::{request_tip, send_tip, settle_tip, SendTip, Transfer};
use tipjar::error::{LedgerError, TipError};
use tipjar::identity::Identity;

fn id(fill: u8) -> Identity {
    Identity::new([fill; 32])
}

fn created(tipper: Identity, creator: Identity) -> TipAccount {
    let address = tipjar::deriver::derive(&tipper).expect("an address exists").0;
    let mut ctx = Initialize { address, tip_account: None, tipper, creator };
    assert_eq!(initialize(&mut ctx), Ok(()));
    ctx.tip_account.expect("the record was written")
}

/// Two balances and the rule of a ledger: a transfer needs the funds.
struct Balances {
    tipper: u64,
    creator: u64,
    asked: u32,
}

impl Balances {
    fn transfer(&mut self, order: Transfer) -> Result<(), LedgerError> {
        self.asked += 1;
        if self.tipper < order.amount {
            return Err(LedgerError { code: 1 });
        }
        self.tipper -= order.amount;
        self.creator += order.amount;
        Ok(())
    }
}

#[test]
fn a_tip_moves_value_and_counts_it() {
    let tipper = id(1);
    let creator = id(2);
    let mut ctx = SendTip { tip_account: created(tipper, creator), tipper, creator };
    let mut ledger = Balances { tipper: 1_000, creator: 40, asked: 0 };
    assert_eq!(send_tip(&mut ctx, 500, |order| ledger.transfer(order)), Ok(()));
    assert_eq!(ledger.tipper, 500);
    assert_eq!(ledger.creator, 540);
    assert_eq!(ledger.asked, 1);
    assert_eq!(ctx.tip_account, TipAccount { tipper, creator, total_tips: 500 });
    assert_eq!(ctx.tipper, tipper);
    assert_eq!(ctx.creator, creator);
}

#[test]
fn a_zero_amount_is_refused() {
    let tipper = id(1);
    let creator = id(2);
    let mut ctx = SendTip { tip_account: created(tipper, creator), tipper, creator };
    let before = ctx;
    let mut ledger = Balances { tipper: 1_000, creator: 40, asked: 0 };
    assert_eq!(send_tip(&mut ctx, 0, |order| ledger.transfer(order)), Err(TipError::InvalidAmount));
    assert_eq!(ctx, before);
    assert_eq!((ledger.tipper, ledger.creator, ledger.asked), (1_000, 40, 0));
}

#[test]
fn a_wrong_caller_is_refused() {
    let tipper = id(1);
    let creator = id(2);
    let stranger = id(3);
    let mut ctx = SendTip { tip_account: created(tipper, creator), tipper: stranger, creator };
    let before = ctx;
    let mut ledger = Balances { tipper: 1_000, creator: 40, asked: 0 };
    assert_eq!(send_tip(&mut ctx, 10, |order| ledger.transfer(order)), Err(TipError::InvalidTipper));
    assert_eq!(ctx, before);
    assert_eq!((ledger.tipper, ledger.creator, ledger.asked), (1_000, 40, 0));
}

#[test]
fn a_self_tip_is_refused() {
    let tipper = id(1);
    let record = created(tipper, tipper);
    assert_eq!(record, TipAccount { tipper, creator: tipper, total_tips: 0 });
    let mut ctx = SendTip { tip_account: record, tipper, creator: tipper };
    let before = ctx;
    let mut ledger = Balances { tipper: 1_000, creator: 1_000, asked: 0 };
    assert_eq!(send_tip(&mut ctx, 10, |order| ledger.transfer(order)), Err(TipError::CannotTipSelf));
    assert_eq!(ctx, before);
    assert_eq!((ledger.tipper, ledger.creator, ledger.asked), (1_000, 1_000, 0));
}

#[test]
fn overflow_is_refused_before_the_ledger_is_asked() {
    let tipper = id(1);
    let creator = id(2);
    let record = TipAccount { tipper, creator, total_tips: u64::MAX };
    let mut ctx = SendTip { tip_account: record, tipper, creator };
    let mut ledger = Balances { tipper: 1_000, creator: 40, asked: 0 };
    assert_eq!(send_tip(&mut ctx, 1, |order| ledger.transfer(order)), Err(TipError::OverflowError));
    assert_eq!(ctx.tip_account, record);
    assert_eq!(ctx.tip_account.total_tips, 18_446_744_073_709_551_615);
    assert_eq!((ledger.tipper, ledger.creator, ledger.asked), (1_000, 40, 0));
}

#[test]
fn the_total_may_reach_the_largest_value() {
    let tipper = id(1);
    let creator = id(2);
    let record = TipAccount { tipper, creator, total_tips: u64::MAX - 5 };
    let mut ctx = SendTip { tip_account: record, tipper, creator };
    let mut ledger = Balances { tipper: 100, creator: 0, asked: 0 };
    assert_eq!(send_tip(&mut ctx, 6, |order| ledger.transfer(order)), Err(TipError::OverflowError));
    assert_eq!(ctx.tip_account.total_tips, u64::MAX - 5);
    assert_eq!(send_tip(&mut ctx, 5, |order| ledger.transfer(order)), Ok(()));
    assert_eq!(ctx.tip_account.total_tips, u64::MAX);
    assert_eq!((ledger.tipper, ledger.creator, ledger.asked), (95, 5, 1));
}

#[test]
fn a_failed_transfer_changes_nothing() {
    let tipper = id(1);
    let creator = id(2);
    let record = TipAccount { tipper, creator, total_tips: 70 };
    let mut ctx = SendTip { tip_account: record, tipper, creator };
    let before = ctx;
    let mut ledger = Balances { tipper: 99, creator: 40, asked: 0 };
    assert_eq!(
        send_tip(&mut ctx, 100, |order| ledger.transfer(order)),
        Err(TipError::Ledger(LedgerError { code: 1 }))
    );
    assert_eq!(ctx, before);
    assert_eq!((ledger.tipper, ledger.creator, ledger.asked), (99, 40, 1));
}

#[test]
fn the_ledger_error_is_passed_on_as_it_came() {
    let tipper = id(1);
    let creator = id(2);
    let mut ctx = SendTip { tip_account: created(tipper, creator), tipper, creator };
    let code: u64 = 0x1_0000_0007;
    assert_eq!(
        send_tip(&mut ctx, 3, |_order| Err(LedgerError { code })),
        Err(TipError::Ledger(LedgerError { code: 4_294_967_303 }))
    );
    assert_eq!(ctx.tip_account.total_tips, 0);
}

#[test]
fn the_ledger_is_asked_for_exactly_the_tip() {
    let tipper = id(1);
    let creator = id(2);
    let mut ctx = SendTip { tip_account: created(tipper, creator), tipper, creator };
    let mut seen: Vec<Transfer> = Vec::new();
    assert_eq!(
        send_tip(&mut ctx, 42, |order| {
            seen.push(order);
            Ok(())
        }),
        Ok(())
    );
    assert_eq!(seen, vec![Transfer { from: tipper, to: creator, amount: 42 }]);
}

#[test]
fn the_first_failing_check_decides() {
    let tipper = id(1);
    let creator = id(2);
    let full = TipAccount { tipper, creator, total_tips: u64::MAX };
    let wrong_and_self = SendTip { tip_account: full, tipper: creator, creator };
    assert_eq!(request_tip(&wrong_and_self, 0), Err(TipError::InvalidTipper));
    let record_of_self = TipAccount { tipper, creator: tipper, total_tips: u64::MAX };
    let self_and_zero = SendTip { tip_account: record_of_self, tipper, creator: tipper };
    assert_eq!(request_tip(&self_and_zero, 0), Err(TipError::CannotTipSelf));
    assert_eq!(request_tip(&self_and_zero, 9), Err(TipError::CannotTipSelf));
    let zero_on_full = SendTip { tip_account: full, tipper, creator };
    assert_eq!(request_tip(&zero_on_full, 0), Err(TipError::InvalidAmount));
    assert_eq!(request_tip(&zero_on_full, 1), Err(TipError::OverflowError));
}

#[test]
fn request_tip_names_the_transfer() {
    let tipper = id(1);
    let creator = id(2);
    let ctx = SendTip { tip_account: created(tipper, creator), tipper, creator };
    assert_eq!(request_tip(&ctx, 500), Ok(Transfer { from: tipper, to: creator, amount: 500 }));
    assert_eq!(
        request_tip(&ctx, u64::MAX),
        Ok(Transfer { from: tipper, to: creator, amount: u64::MAX })
    );
}

#[test]
fn settle_tip_counts_only_a_transfer_that_was_made() {
    let tipper = id(1);
    let creator = id(2);
    let mut ctx = SendTip { tip_account: created(tipper, creator), tipper, creator };
    assert_eq!(
        settle_tip(&mut ctx, 25, Err(LedgerError { code: 6 })),
        Err(TipError::Ledger(LedgerError { code: 6 }))
    );
    assert_eq!(ctx.tip_account.total_tips, 0);
    assert_eq!(settle_tip(&mut ctx, 25, Ok(())), Ok(()));
    assert_eq!(ctx.tip_account, TipAccount { tipper, creator, total_tips: 25 });
    assert_eq!(settle_tip(&mut ctx, 0, Ok(())), Err(TipError::InvalidAmount));
    assert_eq!(ctx.tip_account.total_tips, 25);
    ctx.tipper = id(3);
    assert_eq!(settle_tip(&mut ctx, 25, Ok(())), Err(TipError::InvalidTipper));
    assert_eq!(ctx.tip_account.total_tips, 25);
}

#[test]
fn the_total_is_the_sum_of_the_tips() {
    let tipper = id(1);
    let creator = id(2);
    let mut ctx = SendTip { tip_account: created(tipper, creator), tipper, creator };
    let mut ledger = Balances { tipper: 10_000, creator: 0, asked: 0 };
    let amounts: [u64; 5] = [1, 500, 7, 2_000, 33];
    let mut sum: u64 = 0;
    for amount in amounts {
        let before: u64 = ctx.tip_account.total_tips;
        assert_eq!(send_tip(&mut ctx, amount, |order| ledger.transfer(order)), Ok(()));
        assert!(ctx.tip_account.total_tips >= before);
        sum += amount;
        assert_eq!(ctx.tip_account.total_tips, sum);
    }
    assert_eq!(ctx.tip_account, TipAccount { tipper, creator, total_tips: 2_541 });
    assert_eq!((ledger.tipper, ledger.creator, ledger.asked), (7_459, 2_541, 5));
}

#[test]
fn failed_tips_between_successful_ones_are_not_counted() {
    let tipper = id(1);
    let creator = id(2);
    let mut ctx = SendTip { tip_account: created(tipper, creator), tipper, creator };
    let mut ledger = Balances { tipper: 100, creator: 0, asked: 0 };
    assert_eq!(send_tip(&mut ctx, 60, |order| ledger.transfer(order)), Ok(()));
    assert_eq!(send_tip(&mut ctx, 0, |order| ledger.transfer(order)), Err(TipError::InvalidAmount));
    assert_eq!(
        send_tip(&mut ctx, 41, |order| ledger.transfer(order)),
        Err(TipError::Ledger(LedgerError { code: 1 }))
    );
    assert_eq!(send_tip(&mut ctx, 40, |order| ledger.transfer(order)), Ok(()));
    assert_eq!(ctx.tip_account.total_tips, 100);
    assert_eq!((ledger.tipper, ledger.creator), (0, 100));
}

#[test]
fn the_creator_of_a_tip_is_the_one_the_caller_names() {
    let tipper = id(1);
    let creator = id(2);
    let other = id(4);
    let mut ctx = SendTip { tip_account: created(tipper, creator), tipper, creator: other };
    let mut seen: Vec<Transfer> = Vec::new();
    assert_eq!(
        send_tip(&mut ctx, 8, |order| {
            seen.push(order);
            Ok(())
        }),
        Ok(())
    );
    assert_eq!(seen, vec![Transfer { from: tipper, to: other, amount: 8 }]);
    assert_eq!(ctx.tip_account, TipAccount { tipper, creator, total_tips: 8 });
}
