//! Buyback and burn: whatever the death wallet holds is burned and counted.

use vstd::prelude::*;
use crate::config::{Config, ConfigAccount};
use crate::errors::CustomError;

verus! {

/// Record of one burn.
#[derive(Clone, Copy, Debug, PartialEq, Eq)]
pub struct BuybackBurnEvent {
    pub tokens_bought: u64,
    pub new_total_burned: u64,
    pub timestamp: u64,
}

/// Why a burn of `balance` is refused, if it is.
pub open spec fn buyback_refusal(config: Config, balance: u64) -> Option<CustomError> {
    if balance == 0 {
        Some(CustomError::NoTokensToBuyback)
    } else if config.total_burned + balance > u64::MAX {
        Some(CustomError::MathError)
    } else {
        None
    }
}

/// Counts the burn of the whole balance of the death wallet.
///
/// Refused with `NoTokensToBuyback` where the wallet is empty, and with
/// `MathError` where the burned total would leave 64 bits. Otherwise the
/// configuration's burned total grows by `burn_wallet_balance`, which is
/// the amount to burn, and the result records the burn.
pub fn execute_buyback(
    config_account: &mut ConfigAccount,
    burn_wallet_balance: u64,
    timestamp: u64,
) -> (r: Result<BuybackBurnEvent, CustomError>)
    ensures
        match buyback_refusal(old(config_account).config, burn_wallet_balance) {
            Some(e) => r == Err::<BuybackBurnEvent, CustomError>(e) && *final(config_account)
                == *old(config_account),
            None => {
                &&& r == Ok::<BuybackBurnEvent, CustomError>(
                    BuybackBurnEvent {
                        tokens_bought: burn_wallet_balance,
                        new_total_burned: (old(config_account).config.total_burned
                            + burn_wallet_balance) as u64,
                        timestamp,
                    },
                )
                &&& final(config_account).config == (Config {
                    total_burned: (old(config_account).config.total_burned
                        + burn_wallet_balance) as u64,
                    ..old(config_account).config
                })
            },
        },
{
    if burn_wallet_balance == 0 {
        return Err(CustomError::NoTokensToBuyback);
    }
    let total_burned = match config_account.config.total_burned.checked_add(burn_wallet_balance) {
        Some(v) => v,
        None => {
            return Err(CustomError::MathError);
        },
    };
    config_account.config.total_burned = total_burned;
    Ok(
        BuybackBurnEvent {
            tokens_bought: burn_wallet_balance,
            new_total_burned: total_burned,
            timestamp,
        },
    )
}

} // verus!
