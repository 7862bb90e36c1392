//! The network fee of a transaction: a fixed cost per required signature.
use vstd::prelude::*;

verus! {

/// The fee charged for each signature a transaction message requires, in
/// the smallest currency unit.
pub const LAMPORTS_PER_SIGNATURE: u64 = 5000;

/// The fee for a message whose header requires `num_required_signatures`
/// signatures.
pub open spec fn fee_spec(num_required_signatures: nat) -> nat {
    num_required_signatures * (LAMPORTS_PER_SIGNATURE as nat)
}

/// The fee the ledger is expected to charge for a message whose header
/// requires `num_required_signatures` signatures. The header holds the count
/// in a byte, so the product always fits.
pub fn expected_fee(num_required_signatures: u8) -> (r: u64)
    ensures
        r == fee_spec(num_required_signatures as nat),
        num_required_signatures == 1 ==> r == 5000,
{
    assert(num_required_signatures as u64 * LAMPORTS_PER_SIGNATURE <= 255 * 5000) by (nonlinear_arith)
        requires num_required_signatures <= 255;
    num_required_signatures as u64 * LAMPORTS_PER_SIGNATURE
}

} // verus!
