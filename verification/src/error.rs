use vstd::prelude::*;

verus! {

/// Every failure kind the engine can surface. No failure is swallowed or
/// downgraded: each validation step has its own variant, and callers see
/// exactly which precondition was violated.
#[derive(Clone, Copy, Debug, PartialEq, Eq, Structural)]
pub enum EscrowError {
    /// The instruction payload is malformed (empty, unknown tag, truncated
    /// amount), or the decoded tag has no implementing operation.
    InvalidInstruction,
    /// The positional account list is shorter than the operation requires.
    NotEnoughAccountKeys,
    /// The required authorizing party did not sign the call, or the signer
    /// is not the resolver recorded at initialization.
    MissingRequiredSignature,
    /// A funding party's balance cannot cover the pledge amount.
    InsufficientLamports,
    /// The escrow-record account's balance is below the rent-exemption
    /// threshold for its serialized size.
    NotRentExempt,
    /// The escrow record was already initialized; re-initialization is
    /// forbidden.
    AccountAlreadyInitialized,
    /// The escrow record has not been initialized, so no outcome can be
    /// resolved against it.
    UninitializedAccount,
    /// An outcome was already resolved against this record; a second
    /// resolution would double-pay and is rejected.
    EscrowAlreadyResolved,
    /// The amount carried by an outcome instruction does not match the
    /// pledge amount recorded at initialization.
    AmountMismatch,
    /// Applying the requested transfer would overflow the receiver's
    /// balance; the host ledger would reject it, so the call fails whole.
    AmountOverflow,
}

} // verus!
