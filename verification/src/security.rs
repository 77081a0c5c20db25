//! The emergency halt.

use vstd::prelude::*;
use crate::config::{Config, ConfigAccount};

verus! {

/// Sets or clears the emergency state. This is the one operation that the
/// halt itself never refuses.
pub fn change_emergency_state(config_account: &mut ConfigAccount, state: bool)
    ensures
        final(config_account).config == (Config { halted: state, ..old(config_account).config }),
{
    config_account.config.halted = state;
}

} // verus!
