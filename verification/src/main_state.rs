//! The program's main state: its owner and its fee settings.

use vstd::prelude::*;

use crate::key::Key;

verus! {

/// The main state of the program.
///
/// `fee_rate` is the fee in hundred-millionths of the amount traded (a rate
/// of 1_000_000 is one per cent), the integer that `MainStateInput` carries;
/// the fee on an amount is computed from it as the fraction
/// `fee_rate / 100_000_000` in floating point outside this library.
#[derive(Clone, Copy, Debug, PartialEq, Eq)]
pub struct MainState {
    pub owner: Key,
    pub fee_receiver: Key,
    pub fee_rate: u64,
}

/// New settings for the main state.
#[derive(Clone, Copy, Debug, PartialEq, Eq)]
pub struct MainStateInput {
    pub owner: Key,
    pub fee_receiver: Key,
    pub fee_rate: u64,
}

impl MainStateInput {
    /// Sets the owner, the fee receiver and the fee rate of the main state.
    pub fn set_value(&self, state: &mut MainState)
        ensures
            *final(state) == (MainState {
                owner: self.owner,
                fee_receiver: self.fee_receiver,
                fee_rate: self.fee_rate,
            }),
    {
        state.owner = self.owner;
        state.fee_receiver = self.fee_receiver;
        state.fee_rate = self.fee_rate;
    }
}

/// Hands the main state to a new owner; the fee settings stay.
pub fn update_main_state_owner(state: &mut MainState, new_owner: Key)
    ensures
        *final(state) == (MainState { owner: new_owner, ..*old(state) }),
{
    state.owner = new_owner;
}

} // verus!
