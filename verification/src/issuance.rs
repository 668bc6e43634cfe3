//! Issuance: the checks that a request must pass, what the token ledger is
//! then asked to mint, and the commit that follows once it has minted.
//!
//! An issuance takes two steps, with the ledger's work between them.
//! [`issue_lumi`] and [`issue_lumi_legacy`] decide and change nothing: they
//! hand back what is to be minted. [`settle`] takes the ledger's answer and
//! only then charges the quota and gives out the notification.

use vstd::prelude::*;
use crate::address::Address;
use crate::controller::{resolve, Controller, ControllerView};
use crate::error::{IssueError, LumiError};
use crate::laws::lemma_issue_keeps_well_formed;
use crate::quota::{day_index, day_of};

verus! {

/// The token ledgers that can be asked to mint.
#[derive(Clone, Copy, Debug, PartialEq, Eq, Structural)]
pub enum TokenLedger {
    Token2022,
    Legacy,
}

/// What proves to the ledger that the controller may mint: the seeds of the
/// minting authority, which only this configuration can present.
#[derive(Clone, Copy, Debug, PartialEq, Eq)]
pub struct AuthoritySeeds {
    /// The address of the configuration that the authority belongs to.
    pub config: Address,
    /// The bump seed recorded in the configuration.
    pub bump: u8,
}

/// One call of the ledger's mint capability.
#[derive(Clone, Copy, Debug, PartialEq, Eq)]
pub struct MintRequest {
    pub ledger: TokenLedger,
    /// The asset to mint.
    pub mint: Address,
    /// The account to credit.
    pub to: Address,
    /// The account of the minting authority.
    pub authority: Address,
    /// The seeds that sign for the authority.
    pub signer: AuthoritySeeds,
    pub amount: u64,
}

/// Who takes part in an issuance through the current token ledger.
#[derive(Clone, Copy, Debug, PartialEq, Eq)]
pub struct IssueLumi {
    /// The caller. It must be the wallet of an issuer.
    pub wallet: Address,
    /// The account of the minting authority.
    pub mint_authority: Address,
    /// The recipient.
    pub to: Address,
    /// The recipient's account for the asset. It is taken to exist.
    pub to_ata: Address,
}

/// Who takes part in an issuance through the legacy token ledger.
#[derive(Clone, Copy, Debug, PartialEq, Eq)]
pub struct IssueLumiLegacy {
    /// The caller. It must be the wallet of an issuer.
    pub wallet: Address,
    /// The account of the minting authority.
    pub mint_authority: Address,
    /// The recipient.
    pub to: Address,
    /// The recipient's account for the asset. It is taken to exist.
    pub to_ata: Address,
}

/// The notification of one issuance. It is given out once, on success, and
/// never read back.
#[derive(Clone, Debug, PartialEq, Eq)]
pub struct LumiIssued {
    pub issuer: Address,
    pub to: Address,
    pub amount: u64,
    pub reason_code: [u8; 8],
    pub ipfs_cid: String,
}

/// A notification as a mathematical value.
pub struct LumiIssuedView {
    pub issuer: Address,
    pub to: Address,
    pub amount: u64,
    pub reason_code: [u8; 8],
    pub ipfs_cid: Seq<char>,
}

impl View for LumiIssued {
    type V = LumiIssuedView;

    open spec fn view(&self) -> LumiIssuedView {
        LumiIssuedView {
            issuer: self.issuer,
            to: self.to,
            amount: self.amount,
            reason_code: self.reason_code,
            ipfs_cid: self.ipfs_cid@,
        }
    }
}

/// An issuance that has passed the checks and waits for the ledger.
#[derive(Clone, Debug, PartialEq, Eq)]
pub struct PendingIssue {
    /// What the ledger is asked to do.
    pub request: MintRequest,
    /// The wallet of the issuer.
    pub issuer: Address,
    /// The recipient.
    pub to: Address,
    /// The calendar day of the request.
    pub day: i64,
    pub reason_code: [u8; 8],
    pub ipfs_cid: String,
}

/// A pending issuance as a mathematical value.
pub struct PendingIssueView {
    pub request: MintRequest,
    pub issuer: Address,
    pub to: Address,
    pub day: i64,
    pub reason_code: [u8; 8],
    pub ipfs_cid: Seq<char>,
}

impl View for PendingIssue {
    type V = PendingIssueView;

    open spec fn view(&self) -> PendingIssueView {
        PendingIssueView {
            request: self.request,
            issuer: self.issuer,
            to: self.to,
            day: self.day,
            reason_code: self.reason_code,
            ipfs_cid: self.ipfs_cid@,
        }
    }
}

/// The checks on a request of `wallet` for `amount` on `day`, in their order:
/// a record must be bound to the wallet, it must be active, and the amount
/// must fit under the cap once the record is brought to `day`. The first check
/// that fails gives the error; where all pass, the result is the place of the
/// record.
///
/// A record is found by the wallet it is bound to, so the record of one
/// wallet can never answer for another: a caller without a record of its own
/// is `Unauthorized`, whatever else is stored.
pub open spec fn screen(c: ControllerView, wallet: Address, amount: u64, day: i64) -> Result<
    int,
    LumiError,
> {
    match resolve(c.issuers, wallet) {
        None => Err(LumiError::Unauthorized),
        Some(i) => if !c.issuers[i].active {
            Err(LumiError::IssuerInactive)
        } else if !c.issuers[i].rolled_over(day).admits(amount, c.config.daily_cap_per_issuer) {
            Err(LumiError::DailyCapExceeded)
        } else {
            Ok(i)
        },
    }
}

/// The controller after the record at place `i` was brought to `day` and
/// charged with `amount`. No other record changes, and nothing else does.
pub open spec fn committed(c: ControllerView, i: int, amount: u64, day: i64) -> ControllerView {
    ControllerView { issuers: c.issuers.update(i, c.issuers[i].rolled_over(day).charged(amount)), ..c }
}

/// The controller after one whole issuance attempt: committed where the
/// checks pass and the ledger minted, and as it was in every other case.
pub open spec fn after_issue(
    c: ControllerView,
    wallet: Address,
    amount: u64,
    day: i64,
    minted: bool,
) -> ControllerView {
    match screen(c, wallet, amount, day) {
        Ok(i) => if minted {
            committed(c, i, amount, day)
        } else {
            c
        },
        Err(_) => c,
    }
}

/// What the ledger is asked to mint for an admitted request: `amount` of the
/// governed asset, to the recipient's account, signed for with the seeds of
/// this configuration's minting authority.
pub open spec fn mint_request(
    c: ControllerView,
    ledger: TokenLedger,
    mint_authority: Address,
    to_ata: Address,
    amount: u64,
) -> MintRequest {
    MintRequest {
        ledger,
        mint: c.config.lumi_mint,
        to: to_ata,
        authority: mint_authority,
        signer: AuthoritySeeds { config: c.key, bump: c.config.mint_authority_bump },
        amount,
    }
}

/// The notification that a pending issuance gives out when it is settled.
pub open spec fn notification(p: PendingIssueView) -> LumiIssuedView {
    LumiIssuedView {
        issuer: p.issuer,
        to: p.to,
        amount: p.request.amount,
        reason_code: p.reason_code,
        ipfs_cid: p.ipfs_cid,
    }
}

impl Controller {
    /// Runs the checks on a request of `wallet` for `amount` on `day`, and
    /// changes nothing.
    pub fn screen(&self, wallet: &Address, amount: u64, day: i64) -> (outcome: Result<
        usize,
        LumiError,
    >)
        ensures
            match outcome {
                Ok(i) => screen(self@, *wallet, amount, day) == Ok::<int, LumiError>(i as int)
                    && i < self.issuers.len() && self.issuers[i as int].wallet == *wallet,
                Err(e) => screen(self@, *wallet, amount, day) == Err::<int, LumiError>(e),
            },
    {
        match self.position_of(wallet) {
            None => Err(LumiError::Unauthorized),
            Some(i) => {
                let mut record = self.issuers[i];
                if !record.active {
                    return Err(LumiError::IssuerInactive);
                }
                record.rollover(day);
                if !record.within_cap(amount, self.config.daily_cap_per_issuer) {
                    return Err(LumiError::DailyCapExceeded);
                }
                Ok(i)
            },
        }
    }

    /// Decides on a request and, where it is admitted, says what the given
    /// ledger is to mint. Nothing is changed.
    fn prepare(
        &self,
        ledger: TokenLedger,
        wallet: Address,
        mint_authority: Address,
        to: Address,
        to_ata: Address,
        amount: u64,
        reason_code: [u8; 8],
        ipfs_cid: String,
        unix_timestamp: i64,
    ) -> (outcome: Result<PendingIssue, LumiError>)
        ensures
            match screen(self@, wallet, amount, day_of(unix_timestamp)) {
                Err(e) => outcome == Err::<PendingIssue, LumiError>(e),
                Ok(_) => outcome matches Ok(pending) && pending@ == (PendingIssueView {
                    request: mint_request(self@, ledger, mint_authority, to_ata, amount),
                    issuer: wallet,
                    to,
                    day: day_of(unix_timestamp),
                    reason_code,
                    ipfs_cid: ipfs_cid@,
                }),
            },
    {
        let day = day_index(unix_timestamp);
        match self.screen(&wallet, amount, day) {
            Err(e) => Err(e),
            Ok(_) => Ok(
                PendingIssue {
                    request: MintRequest {
                        ledger,
                        mint: self.config.lumi_mint,
                        to: to_ata,
                        authority: mint_authority,
                        signer: AuthoritySeeds {
                            config: self.key,
                            bump: self.config.mint_authority_bump,
                        },
                        amount,
                    },
                    issuer: wallet,
                    to,
                    day,
                    reason_code,
                    ipfs_cid,
                },
            ),
        }
    }
}

/// The first step of an issuance through the current token ledger.
///
/// The request is that of `ctx.wallet`, made at `unix_timestamp`, for `amount`
/// to be minted to `ctx.to_ata`. It is refused with `Unauthorized` where no
/// issuer record is bound to the wallet, with `IssuerInactive` where the
/// record is switched off, and with `DailyCapExceeded` where the amount does
/// not fit under the cap on the day of the request; the first of these that
/// applies is returned. Otherwise the result says what the ledger is to mint
/// and holds what [`settle`] needs afterwards. The controller is not changed
/// either way.
pub fn issue_lumi(
    controller: &Controller,
    ctx: &IssueLumi,
    amount: u64,
    reason_code: [u8; 8],
    ipfs_cid: String,
    unix_timestamp: i64,
) -> (outcome: Result<PendingIssue, LumiError>)
    ensures
        match screen(controller@, ctx.wallet, amount, day_of(unix_timestamp)) {
            Err(e) => outcome == Err::<PendingIssue, LumiError>(e),
            Ok(_) => outcome matches Ok(pending) && pending@ == (PendingIssueView {
                request: mint_request(
                    controller@,
                    TokenLedger::Token2022,
                    ctx.mint_authority,
                    ctx.to_ata,
                    amount,
                ),
                issuer: ctx.wallet,
                to: ctx.to,
                day: day_of(unix_timestamp),
                reason_code,
                ipfs_cid: ipfs_cid@,
            }),
        },
{
    controller.prepare(
        TokenLedger::Token2022,
        ctx.wallet,
        ctx.mint_authority,
        ctx.to,
        ctx.to_ata,
        amount,
        reason_code,
        ipfs_cid,
        unix_timestamp,
    )
}

/// The first step of an issuance through the legacy token ledger. It decides
/// as [`issue_lumi`] does and differs only in the ledger that it names.
pub fn issue_lumi_legacy(
    controller: &Controller,
    ctx: &IssueLumiLegacy,
    amount: u64,
    reason_code: [u8; 8],
    ipfs_cid: String,
    unix_timestamp: i64,
) -> (outcome: Result<PendingIssue, LumiError>)
    ensures
        match screen(controller@, ctx.wallet, amount, day_of(unix_timestamp)) {
            Err(e) => outcome == Err::<PendingIssue, LumiError>(e),
            Ok(_) => outcome matches Ok(pending) && pending@ == (PendingIssueView {
                request: mint_request(
                    controller@,
                    TokenLedger::Legacy,
                    ctx.mint_authority,
                    ctx.to_ata,
                    amount,
                ),
                issuer: ctx.wallet,
                to: ctx.to,
                day: day_of(unix_timestamp),
                reason_code,
                ipfs_cid: ipfs_cid@,
            }),
        },
{
    controller.prepare(
        TokenLedger::Legacy,
        ctx.wallet,
        ctx.mint_authority,
        ctx.to,
        ctx.to_ata,
        amount,
        reason_code,
        ipfs_cid,
        unix_timestamp,
    )
}

/// The second step of an issuance: takes the ledger's answer to the request
/// of `pending`.
///
/// The checks are run again on the controller as it now stands. Where one
/// fails, its error is returned as `Rejected`. Where they pass and the ledger
/// failed, what it reported is returned as `Ledger`, unchanged. In both cases
/// no record changes and there is no notification. Where they pass and the
/// ledger minted, the issuer's record is brought to the day of the request
/// and charged with the amount, and the notification is returned.
pub fn settle<E>(controller: &mut Controller, pending: PendingIssue, minted: Result<(), E>) -> (outcome:
    Result<LumiIssued, IssueError<E>>)
    ensures
        final(controller)@ == after_issue(
            old(controller)@,
            pending.issuer,
            pending.request.amount,
            pending.day,
            minted is Ok,
        ),
        minted is Err ==> final(controller)@ == old(controller)@ && outcome is Err,
        old(controller)@.well_formed() ==> final(controller)@.well_formed(),
        match screen(old(controller)@, pending.issuer, pending.request.amount, pending.day) {
            Err(e) => outcome == Err::<LumiIssued, IssueError<E>>(IssueError::Rejected(e)),
            Ok(_) => match minted {
                Err(e) => outcome == Err::<LumiIssued, IssueError<E>>(IssueError::Ledger(e)),
                Ok(_) => outcome matches Ok(event) && event@ == notification(pending@),
            },
        },
{
    let amount = pending.request.amount;
    proof {
        if controller@.well_formed() {
            lemma_issue_keeps_well_formed(
                controller@,
                pending.issuer,
                amount,
                pending.day,
                minted is Ok,
            );
        }
    }
    match controller.screen(&pending.issuer, amount, pending.day) {
        Err(e) => Err(IssueError::Rejected(e)),
        Ok(i) => match minted {
            Err(e) => Err(IssueError::Ledger(e)),
            Ok(_) => {
                let mut record = controller.issuers[i];
                record.rollover(pending.day);
                record.charge(amount);
                controller.issuers.set(i, record);
                Ok(
                    LumiIssued {
                        issuer: pending.issuer,
                        to: pending.to,
                        amount,
                        reason_code: pending.reason_code,
                        ipfs_cid: pending.ipfs_cid,
                    },
                )
            },
        },
    }
}

} // verus!
