//! What the administrator does: creating the configuration and admitting
//! issuers to it.

use vstd::prelude::*;
use crate::address::Address;
use crate::controller::{resolve, slot_view, Config, Controller, ControllerView};
use crate::error::LumiError;
use crate::quota::Issuer;

verus! {

/// Who takes part in the creation of a configuration.
#[derive(Clone, Copy, Debug, PartialEq, Eq)]
pub struct InitializeConfig {
    /// The caller, who becomes the administrator.
    pub admin: Address,
    /// The address at which the configuration will live.
    pub config: Address,
    /// The asset that the configuration will govern.
    pub lumi_mint: Address,
    /// The bump seed of the minting authority derived for `config`.
    pub mint_authority_bump: u8,
}

/// Who takes part in the admission of an issuer.
#[derive(Clone, Copy, Debug, PartialEq, Eq)]
pub struct AddIssuer {
    /// The caller. It must be the administrator.
    pub admin: Address,
    /// The wallet to admit.
    pub issuer_wallet: Address,
}

/// The controller that a new configuration starts with: no issuers yet.
pub open spec fn created(ctx: InitializeConfig, daily_cap_per_issuer: u64) -> ControllerView {
    ControllerView {
        key: ctx.config,
        config: Config {
            admin: ctx.admin,
            lumi_mint: ctx.lumi_mint,
            mint_authority_bump: ctx.mint_authority_bump,
            daily_cap_per_issuer,
        },
        issuers: Seq::empty(),
    }
}

/// What creating a configuration does to a slot, and what it answers: a slot
/// that is taken stays as it is.
pub open spec fn initialized(
    slot: Option<ControllerView>,
    ctx: InitializeConfig,
    daily_cap_per_issuer: u64,
) -> (Option<ControllerView>, Result<(), LumiError>) {
    match slot {
        Some(_) => (slot, Err(LumiError::AlreadyInitialized)),
        None => (Some(created(ctx, daily_cap_per_issuer)), Ok(())),
    }
}

/// What admitting an issuer does to a controller, and what it answers. The
/// caller is checked before the wallet is looked up.
pub open spec fn issuer_added(c: ControllerView, ctx: AddIssuer) -> (
    ControllerView,
    Result<(), LumiError>,
) {
    if ctx.admin != c.config.admin {
        (c, Err(LumiError::Unauthorized))
    } else if resolve(c.issuers, ctx.issuer_wallet) is Some {
        (c, Err(LumiError::AlreadyExists))
    } else {
        (
            ControllerView { issuers: c.issuers.push(Issuer::fresh(ctx.issuer_wallet)), ..c },
            Ok(()),
        )
    }
}

/// Creates the configuration in an empty slot, with the caller as its
/// administrator, the given asset and minting authority, and the daily cap
/// that will hold for every issuer. A slot that is taken is left as it is,
/// and the call fails with `AlreadyInitialized`.
///
/// A cap of zero is accepted; no amount above zero can ever be issued under
/// it.
pub fn initialize_config(
    slot: &mut Option<Controller>,
    ctx: &InitializeConfig,
    daily_cap_per_issuer: u64,
) -> (outcome: Result<(), LumiError>)
    ensures
        (slot_view(*final(slot)), outcome) == initialized(
            slot_view(*old(slot)),
            *ctx,
            daily_cap_per_issuer,
        ),
        outcome is Ok ==> (*final(slot) matches Some(controller) && controller@.well_formed()),
{
    if slot.is_some() {
        return Err(LumiError::AlreadyInitialized);
    }
    *slot = Some(
        Controller {
            key: ctx.config,
            config: Config {
                admin: ctx.admin,
                lumi_mint: ctx.lumi_mint,
                mint_authority_bump: ctx.mint_authority_bump,
                daily_cap_per_issuer,
            },
            issuers: Vec::new(),
        },
    );
    Ok(())
}

/// Admits `ctx.issuer_wallet` as an issuer: active, with nothing issued. The
/// call fails with `Unauthorized` where the caller is not the administrator,
/// and otherwise with `AlreadyExists` where the wallet has a record already.
/// A failed call changes nothing.
pub fn add_issuer(controller: &mut Controller, ctx: &AddIssuer) -> (outcome: Result<(), LumiError>)
    ensures
        (final(controller)@, outcome) == issuer_added(old(controller)@, *ctx),
        old(controller)@.well_formed() ==> final(controller)@.well_formed(),
{
    if ctx.admin != controller.config.admin {
        return Err(LumiError::Unauthorized);
    }
    if controller.position_of(&ctx.issuer_wallet).is_some() {
        return Err(LumiError::AlreadyExists);
    }
    controller.issuers.push(Issuer::new(ctx.issuer_wallet));
    Ok(())
}

} // verus!
