//! The launch aggregate: one token's end-to-end issuance, sale and
//! settlement workflow, plus the well-formedness its handlers preserve.
use vstd::prelude::*;
use crate::msg::{Bow, Coin, Fin, LaunchStatus, Pilot, Token, Tokenomics};
use crate::error::ContractError;
use crate::validate::{plan_wf, sale_amount};

verus! {

/// The central aggregate tracking one launch.
#[derive(Debug, PartialEq, Eq)]
pub struct Launch {
    pub idx: u128,
    pub owner: String,
    pub deposit: Coin,
    pub status: LaunchStatus,
    pub token: Option<Token>,
    pub tokenomics: Option<Tokenomics>,
    pub pilot: Option<Pilot>,
    pub fin: Option<Fin>,
    pub bow: Option<Bow>,
}

/// What every stored launch satisfies: a plan requires a token and has the
/// settlement-relevant structure; a sale plan requires a tokenomics plan and
/// a positive sale amount; and the status has left `Created` exactly when a
/// sale plan exists.
pub open spec fn launch_wf(l: Launch) -> bool {
    &&& (l.tokenomics is Some ==> l.token is Some && plan_wf(l.tokenomics->Some_0.categories@))
    &&& (l.pilot is Some ==> l.tokenomics is Some && sale_amount(
        l.tokenomics->Some_0.categories@,
    ) >= 1)
    &&& (l.status.rank() >= 2 <==> l.pilot is Some)
    &&& ((l.fin is Some || l.bow is Some) ==> l.status == LaunchStatus::Completed)
}

impl Launch {
    /// A fresh launch in `Created` status with nothing attached yet.
    pub fn new(idx: u128, owner: String, deposit: Coin) -> (r: Launch)
        ensures
            r == (Launch {
                idx,
                owner,
                deposit,
                status: LaunchStatus::Created,
                token: None::<Token>,
                tokenomics: None::<Tokenomics>,
                pilot: None::<Pilot>,
                fin: None::<Fin>,
                bow: None::<Bow>,
            }),
            launch_wf(r),
    {
        Launch {
            idx,
            owner,
            deposit,
            status: LaunchStatus::Created,
            token: None,
            tokenomics: None,
            pilot: None,
            fin: None,
            bow: None,
        }
    }

    /// Accepts exactly the launch's owner; every mutating command checks
    /// this first.
    pub fn is_owner(&self, addr: &String) -> (r: Result<bool, ContractError>)
        ensures
            r == (if self.owner@ == addr@ {
                Ok::<bool, ContractError>(true)
            } else {
                Err::<bool, ContractError>(ContractError::Unauthorized {})
            }),
    {
        if self.owner == *addr {
            Ok(true)
        } else {
            Err(ContractError::Unauthorized {})
        }
    }
}

} // verus!
