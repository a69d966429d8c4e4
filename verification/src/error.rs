//! Errors with which the escrow refuses a request.

use vstd::prelude::*;

verus! {

/// Why an instruction was refused.
#[derive(Clone, Copy, Debug, PartialEq, Eq, Structural)]
pub enum OTCDeskError {
    /// The seller tried to accept their own offer.
    SelfOfferAccept,
    /// The offer is not live.
    OfferNotActive,
    /// An amount is above what the offer allows.
    TooHighAmount,
    /// An amount is below the offer's minimum.
    TooLowAmount,
    /// The paying side does not hold enough tokens.
    NotEnoughToken,
    /// The offer is live already.
    OfferAlreadyCreated,
    /// A requested amount of zero.
    ZeroRequestedAmount,
    /// A token is not on the allowed list.
    TokenNotAllowed,
}

} // verus!
