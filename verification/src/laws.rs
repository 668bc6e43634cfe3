//! What holds of the controller whatever the requests are.

use vstd::prelude::*;
use crate::address::Address;
use crate::administration::{created, initialized, issuer_added, AddIssuer, InitializeConfig};
use crate::controller::{
    distinct_wallets, first_bound, lemma_resolve_bound, lemma_resolve_first, resolve,
    ControllerView,
};
use crate::error::LumiError;
use crate::issuance::{after_issue, committed, screen};
use crate::quota::Issuer;

verus! {

/// The sum of a run of amounts.
pub open spec fn total(amounts: Seq<u64>) -> int
    decreases amounts.len(),
{
    if amounts.len() == 0 {
        0
    } else {
        total(amounts.drop_last()) + amounts.last()
    }
}

/// The controller after `wallet` has asked for each of `amounts` in turn, all
/// on `day`, and the ledger has minted whatever was admitted.
pub open spec fn after_all(c: ControllerView, wallet: Address, day: i64, amounts: Seq<u64>) -> ControllerView
    decreases amounts.len(),
{
    if amounts.len() == 0 {
        c
    } else {
        after_issue(after_all(c, wallet, day, amounts.drop_last()), wallet, amounts.last(), day, true)
    }
}

/// Every one of the requests of `wallet` for `amounts`, made in turn on
/// `day`, passed the checks.
pub open spec fn all_admitted(c: ControllerView, wallet: Address, day: i64, amounts: Seq<u64>) -> bool
    decreases amounts.len(),
{
    amounts.len() == 0 || {
        &&& all_admitted(c, wallet, day, amounts.drop_last())
        &&& screen(after_all(c, wallet, day, amounts.drop_last()), wallet, amounts.last(), day) is Ok
    }
}

/// A commit keeps every record at its place and bound to its wallet, so
/// every wallet resolves as before.
pub proof fn lemma_commit_keeps_bindings(
    c: ControllerView,
    i: int,
    amount: u64,
    day: i64,
    wallet: Address,
)
    requires
        0 <= i < c.issuers.len(),
    ensures
        resolve(committed(c, i, amount, day).issuers, wallet) == resolve(c.issuers, wallet),
        distinct_wallets(c.issuers) ==> distinct_wallets(committed(c, i, amount, day).issuers),
{
    let after = committed(c, i, amount, day).issuers;
    assert(after.len() == c.issuers.len());
    assert forall|j: int| 0 <= j < after.len() implies (#[trigger] after[j]).wallet
        == c.issuers[j].wallet by {}
    lemma_resolve_bound(c.issuers, wallet);
    lemma_resolve_bound(after, wallet);
    match resolve(c.issuers, wallet) {
        Some(k) => {
            assert(first_bound(after, wallet, k));
            lemma_resolve_first(after, wallet, k);
        },
        None => {
            if resolve(after, wallet) is Some {
                let k = resolve(after, wallet)->0;
                assert(c.issuers[k].wallet == wallet);
            }
        },
    }
}

/// The quota invariant. Where `wallet` asks for each of `amounts` in turn
/// within one day, and every request is admitted and minted, the amounts
/// together with what the wallet had issued that day before stay within the
/// cap, and the record holds exactly that total.
///
/// The sum of amounts is held at the largest amount, so under a cap that is
/// itself the largest amount a run can be admitted whose true total lies
/// beyond it; such runs are left out.
pub proof fn lemma_quota_invariant(
    c: ControllerView,
    wallet: Address,
    day: i64,
    amounts: Seq<u64>,
)
    requires
        amounts.len() > 0,
        all_admitted(c, wallet, day, amounts),
        resolve(c.issuers, wallet) matches Some(i) && (c.config.daily_cap_per_issuer < u64::MAX
            || c.issuers[i].rolled_over(day).issued_today + total(amounts) <= u64::MAX),
    ensures
        total(amounts) <= c.config.daily_cap_per_issuer,
        resolve(c.issuers, wallet) matches Some(i) && {
            let before = c.issuers[i].rolled_over(day);
            let after = after_all(c, wallet, day, amounts).issuers[i];
            &&& before.issued_today + total(amounts) <= c.config.daily_cap_per_issuer
            &&& after == Issuer {
                issued_today: (before.issued_today + total(amounts)) as u64,
                ..before
            }
        },
        after_all(c, wallet, day, amounts).issuers.len() == c.issuers.len(),
        after_all(c, wallet, day, amounts).config == c.config,
        resolve(after_all(c, wallet, day, amounts).issuers, wallet) == resolve(c.issuers, wallet),
    decreases amounts.len(),
{
    let i = resolve(c.issuers, wallet)->0;
    lemma_resolve_bound(c.issuers, wallet);
    let head = amounts.drop_last();
    let last = amounts.last();
    let before = c.issuers[i].rolled_over(day);
    let mid = after_all(c, wallet, day, head);
    lemma_total_bounds(head);
    assert(total(amounts) == total(head) + last);
    if head.len() == 0 {
        assert(mid == c);
        assert(mid.issuers[i].rolled_over(day) == before);
    } else {
        lemma_quota_invariant(c, wallet, day, head);
        assert(mid.issuers[i].rolled_over(day) == mid.issuers[i]);
    }
    assert(after_all(c, wallet, day, amounts) == committed(mid, i, last, day));
    lemma_commit_keeps_bindings(mid, i, last, day, wallet);
}

/// A run of amounts sums to no less than nothing.
pub proof fn lemma_total_bounds(amounts: Seq<u64>)
    ensures
        0 <= total(amounts),
    decreases amounts.len(),
{
    if amounts.len() > 0 {
        lemma_total_bounds(amounts.drop_last());
    }
}

/// A request that would take the day's total over the cap is refused with
/// `DailyCapExceeded`, whatever the ledger would have done, and leaves every
/// record as it was.
///
/// Under a cap that is itself the largest amount, a sum beyond the range of
/// amounts counts as the cap and is admitted; such requests are left out.
pub proof fn lemma_over_cap_rejected(
    c: ControllerView,
    wallet: Address,
    amount: u64,
    day: i64,
    minted: bool,
)
    requires
        resolve(c.issuers, wallet) matches Some(i) && {
            let before = c.issuers[i].rolled_over(day);
            &&& c.issuers[i].active
            &&& before.issued_today + amount > c.config.daily_cap_per_issuer
            &&& c.config.daily_cap_per_issuer < u64::MAX || before.issued_today + amount
                <= u64::MAX
        },
    ensures
        screen(c, wallet, amount, day) == Err::<int, LumiError>(LumiError::DailyCapExceeded),
        after_issue(c, wallet, amount, day, minted) == c,
{
}

/// Day rollover. On a day other than that of its last issuance, an active
/// issuer is admitted for any amount within the cap, whatever it had issued
/// before, and once the ledger has minted its total for the day is that
/// amount alone.
pub proof fn lemma_day_rollover(c: ControllerView, wallet: Address, amount: u64, day: i64)
    requires
        resolve(c.issuers, wallet) matches Some(i) && c.issuers[i].active
            && c.issuers[i].last_issue_day != day,
        amount <= c.config.daily_cap_per_issuer,
    ensures
        resolve(c.issuers, wallet) matches Some(i) && {
            &&& screen(c, wallet, amount, day) == Ok::<int, LumiError>(i)
            &&& after_issue(c, wallet, amount, day, true).issuers[i] == Issuer {
                issued_today: amount,
                last_issue_day: day,
                ..c.issuers[i]
            }
        },
{
    lemma_resolve_bound(c.issuers, wallet);
}

/// Authorization. A caller to which no record is bound is refused with
/// `Unauthorized`, whatever the amount and the day, and nothing changes.
pub proof fn lemma_stranger_unauthorized(
    c: ControllerView,
    caller: Address,
    amount: u64,
    day: i64,
    minted: bool,
)
    requires
        forall|i: int| 0 <= i < c.issuers.len() ==> (#[trigger] c.issuers[i]).wallet != caller,
    ensures
        screen(c, caller, amount, day) == Err::<int, LumiError>(LumiError::Unauthorized),
        after_issue(c, caller, amount, day, minted) == c,
{
    lemma_resolve_bound(c.issuers, caller);
}

/// Inactive gating. An issuer whose record is switched off is refused with
/// `IssuerInactive`, whatever the amount and the day, and its record stays as
/// it was; so the same holds of every request that follows.
pub proof fn lemma_inactive_refused(
    c: ControllerView,
    wallet: Address,
    amount: u64,
    day: i64,
    minted: bool,
)
    requires
        resolve(c.issuers, wallet) matches Some(i) && !c.issuers[i].active,
    ensures
        screen(c, wallet, amount, day) == Err::<int, LumiError>(LumiError::IssuerInactive),
        after_issue(c, wallet, amount, day, minted) == c,
{
}

/// Atomicity. Where the ledger did not mint, nothing is committed: every
/// record is as it was before the request.
pub proof fn lemma_failed_mint_changes_nothing(
    c: ControllerView,
    wallet: Address,
    amount: u64,
    day: i64,
)
    ensures
        after_issue(c, wallet, amount, day, false) == c,
{
}

/// An issuance changes one record at most, that of the caller, and in it
/// only the total and the day: the configuration, the wallets and the switches
/// stay as they were.
pub proof fn lemma_issue_frame(
    c: ControllerView,
    wallet: Address,
    amount: u64,
    day: i64,
    minted: bool,
)
    ensures
        ({
            let after = after_issue(c, wallet, amount, day, minted);
            &&& after.key == c.key
            &&& after.config == c.config
            &&& after.issuers.len() == c.issuers.len()
            &&& forall|j: int|
                0 <= j < c.issuers.len() ==> {
                    &&& (#[trigger] after.issuers[j]).wallet == c.issuers[j].wallet
                    &&& after.issuers[j].active == c.issuers[j].active
                    &&& c.issuers[j].wallet != wallet ==> after.issuers[j] == c.issuers[j]
                }
        }),
{
    lemma_resolve_bound(c.issuers, wallet);
}

/// An issuance keeps the records sound: the total it commits is within the
/// cap, and no wallet gains a second record.
pub proof fn lemma_issue_keeps_well_formed(
    c: ControllerView,
    wallet: Address,
    amount: u64,
    day: i64,
    minted: bool,
)
    requires
        c.well_formed(),
    ensures
        after_issue(c, wallet, amount, day, minted).well_formed(),
{
    lemma_resolve_bound(c.issuers, wallet);
    match screen(c, wallet, amount, day) {
        Ok(i) => {
            lemma_commit_keeps_bindings(c, i, amount, day, wallet);
        },
        Err(_) => {},
    }
}

/// Creating a configuration twice. Whatever the slot held, after one
/// creation a second one fails with `AlreadyInitialized` and leaves the slot
/// as the first left it; and on an empty slot the first succeeds.
pub proof fn lemma_second_creation_fails(
    slot: Option<ControllerView>,
    first: InitializeConfig,
    first_cap: u64,
    second: InitializeConfig,
    second_cap: u64,
)
    ensures
        ({
            let (once, first_outcome) = initialized(slot, first, first_cap);
            let (twice, second_outcome) = initialized(once, second, second_cap);
            &&& second_outcome == Err::<(), LumiError>(LumiError::AlreadyInitialized)
            &&& twice == once
            &&& slot is None ==> first_outcome is Ok && once == Some(created(first, first_cap))
        }),
{
}

/// A new configuration is sound, and so is a controller after an admission,
/// whether it went through or not.
pub proof fn lemma_administration_keeps_well_formed(
    c: ControllerView,
    ctx: AddIssuer,
    new: InitializeConfig,
    cap: u64,
)
    ensures
        created(new, cap).well_formed(),
        c.well_formed() ==> issuer_added(c, ctx).0.well_formed(),
{
    if c.well_formed() {
        lemma_resolve_bound(c.issuers, ctx.issuer_wallet);
    }
}

/// Admitting a wallet twice. After an admission that went through, the
/// wallet resolves to a fresh record, and a second admission by the
/// administrator fails with `AlreadyExists` and changes nothing.
pub proof fn lemma_second_admission_fails(c: ControllerView, ctx: AddIssuer)
    requires
        issuer_added(c, ctx).1 is Ok,
    ensures
        ({
            let once = issuer_added(c, ctx).0;
            &&& resolve(once.issuers, ctx.issuer_wallet) == Some(c.issuers.len() as int)
            &&& once.issuers[c.issuers.len() as int] == Issuer::fresh(ctx.issuer_wallet)
            &&& issuer_added(once, ctx) == (once, Err::<(), LumiError>(LumiError::AlreadyExists))
        }),
{
    let once = issuer_added(c, ctx).0;
    lemma_resolve_bound(c.issuers, ctx.issuer_wallet);
    assert(first_bound(once.issuers, ctx.issuer_wallet, c.issuers.len() as int));
    lemma_resolve_first(once.issuers, ctx.issuer_wallet, c.issuers.len() as int);
}

} // verus!
