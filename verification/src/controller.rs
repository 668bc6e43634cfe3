//! The state that one configuration governs: the configuration itself and
//! the registry of its issuers.

use vstd::prelude::*;
use crate::address::Address;
use crate::quota::Issuer;

verus! {

/// What the administrator fixed when the configuration was created. Nothing
/// changes it afterwards.
#[derive(Clone, Copy, Debug, PartialEq, Eq)]
pub struct Config {
    /// Who may admit issuers.
    pub admin: Address,
    /// The governed asset.
    pub lumi_mint: Address,
    /// The bump seed that completes the seeds of the minting authority.
    pub mint_authority_bump: u8,
    /// The most that any one issuer may issue within a calendar day.
    pub daily_cap_per_issuer: u64,
}

/// A configuration, the address it lives at, and the records of the issuers
/// admitted under it, in the order of their admission.
#[derive(Clone, Debug, PartialEq, Eq)]
pub struct Controller {
    pub key: Address,
    pub config: Config,
    pub issuers: Vec<Issuer>,
}

/// A controller as a mathematical value.
pub struct ControllerView {
    pub key: Address,
    pub config: Config,
    pub issuers: Seq<Issuer>,
}

impl View for Controller {
    type V = ControllerView;

    open spec fn view(&self) -> ControllerView {
        ControllerView { key: self.key, config: self.config, issuers: self.issuers@ }
    }
}

impl ControllerView {
    /// The records are sound: no wallet has two of them, and none has issued
    /// more than the cap.
    pub open spec fn well_formed(self) -> bool {
        &&& distinct_wallets(self.issuers)
        &&& forall|i: int|
            0 <= i < self.issuers.len() ==> (#[trigger] self.issuers[i]).issued_today
                <= self.config.daily_cap_per_issuer
    }
}

/// What a configuration slot holds, as a mathematical value.
pub open spec fn slot_view(slot: Option<Controller>) -> Option<ControllerView> {
    match slot {
        Some(controller) => Some(controller@),
        None => None,
    }
}

/// `i` is the place of the first record that is bound to `wallet`.
pub open spec fn first_bound(issuers: Seq<Issuer>, wallet: Address, i: int) -> bool {
    &&& 0 <= i < issuers.len()
    &&& issuers[i].wallet == wallet
    &&& forall|j: int| 0 <= j < i ==> issuers[j].wallet != wallet
}

/// The place of the record that is bound to `wallet`, if there is one. Should
/// several records name the wallet, the earliest counts.
pub open spec fn resolve(issuers: Seq<Issuer>, wallet: Address) -> Option<int> {
    if exists|i: int| first_bound(issuers, wallet, i) {
        Some(choose|i: int| first_bound(issuers, wallet, i))
    } else {
        None
    }
}

/// No wallet has two records.
pub open spec fn distinct_wallets(issuers: Seq<Issuer>) -> bool {
    forall|i: int, j: int|
        0 <= i < j < issuers.len() ==> issuers[i].wallet != issuers[j].wallet
}

/// The first record bound to a wallet is found at its place and nowhere else.
pub proof fn lemma_resolve_first(issuers: Seq<Issuer>, wallet: Address, i: int)
    requires
        first_bound(issuers, wallet, i),
    ensures
        resolve(issuers, wallet) == Some(i),
{
    let k = choose|k: int| first_bound(issuers, wallet, k);
    if k < i {
        assert(issuers[k].wallet != wallet);
    } else if i < k {
        assert(issuers[i].wallet != wallet);
    }
}

/// A wallet resolves to a record exactly when some record is bound to it, and
/// the record it resolves to is bound to it.
pub proof fn lemma_resolve_bound(issuers: Seq<Issuer>, wallet: Address)
    ensures
        resolve(issuers, wallet) is Some <==> exists|i: int|
            0 <= i < issuers.len() && #[trigger] issuers[i].wallet == wallet,
        resolve(issuers, wallet) matches Some(i) ==> first_bound(issuers, wallet, i),
{
    if exists|i: int| 0 <= i < issuers.len() && #[trigger] issuers[i].wallet == wallet {
        let i = choose|i: int| 0 <= i < issuers.len() && #[trigger] issuers[i].wallet == wallet;
        lemma_first_bound_exists(issuers, wallet, i);
    }
}

/// Below any record bound to a wallet there is a first one.
proof fn lemma_first_bound_exists(issuers: Seq<Issuer>, wallet: Address, i: int)
    requires
        0 <= i < issuers.len(),
        issuers[i].wallet == wallet,
    ensures
        exists|k: int| first_bound(issuers, wallet, k),
    decreases i,
{
    if exists|j: int| 0 <= j < i && #[trigger] issuers[j].wallet == wallet {
        let j = choose|j: int| 0 <= j < i && #[trigger] issuers[j].wallet == wallet;
        lemma_first_bound_exists(issuers, wallet, j);
    } else {
        assert(first_bound(issuers, wallet, i));
    }
}

impl Controller {
    /// The place of the record that is bound to `wallet`: the earliest record
    /// that names it. There is none exactly when no record names the wallet.
    pub fn position_of(&self, wallet: &Address) -> (place: Option<usize>)
        ensures
            match place {
                Some(i) => resolve(self@.issuers, *wallet) == Some(i as int) && i
                    < self.issuers.len() && self.issuers[i as int].wallet == *wallet,
                None => resolve(self@.issuers, *wallet) is None && forall|j: int|
                    0 <= j < self.issuers.len() ==> (#[trigger] self.issuers[j]).wallet
                        != *wallet,
            },
    {
        let mut i: usize = 0;
        while i < self.issuers.len()
            invariant
                i <= self.issuers.len(),
                forall|j: int| 0 <= j < i ==> self.issuers@[j].wallet != *wallet,
            decreases self.issuers.len() - i,
        {
            if self.issuers[i].wallet == *wallet {
                proof {
                    lemma_resolve_first(self@.issuers, *wallet, i as int);
                }
                return Some(i);
            }
            i += 1;
        }
        proof {
            lemma_resolve_bound(self@.issuers, *wallet);
        }
        None
    }
}

} // verus!
