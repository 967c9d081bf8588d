use vstd::prelude::*;

verus! {

/// An opaque account identity. The host ledger keys accounts by a
/// fixed-width cryptographic identity; this engine never inspects one, it
/// only compares them for equality and copies them into the escrow record,
/// so an identity is modeled as an opaque token.
pub type Identity = u64;

/// What the engine reads of one ledger account, in the order-significant
/// list the host hands to each call: its identity, whether the host
/// verified a signature of it for this call, and its current balance.
/// Balances are mutated only through the transfers the processor applies.
#[derive(Clone, Copy, Debug, PartialEq, Eq, Structural)]
pub struct AccountState {
    /// The account's identity under the host ledger.
    pub key: Identity,
    /// True when the host verified this account's cryptographic
    /// authorization of the current call.
    pub is_signer: bool,
    /// The account's current balance in base units.
    pub lamports: u64,
}

/// The persisted escrow record, one per escrow instance. The host stores it
/// as a fixed-size byte record in the escrow account; serialization is a
/// boundary format handled outside this engine, which works on the decoded
/// fields. An all-zero stored buffer decodes to the uninitialized record.
#[derive(Clone, Copy, Debug, PartialEq, Eq, Structural)]
pub struct Escrow {
    /// False until initialization succeeds exactly once; never reset by
    /// this engine.
    pub is_initialized: bool,
    /// True once an outcome has been resolved against this record; further
    /// resolutions are rejected, closing the double-payout hazard.
    pub is_resolved: bool,
    /// The identity designated at initialization to receive both pledges.
    pub initializer_pubkey: Identity,
    /// The identity whose signature authorizes outcome resolution, fixed at
    /// initialization to the initializing signer.
    pub authorized_resolver: Identity,
    /// The pledge each depositing party supplies, and the payout released
    /// to the winner's counterpart flow; immutable after initialization.
    pub expected_amount: u64,
}

impl Escrow {
    /// Well-formedness: a record can only be resolved after it was
    /// initialized. Initialization establishes this and every operation
    /// preserves it; an ill-formed record never reaches a transfer.
    pub open spec fn wf(self) -> bool {
        self.is_resolved ==> self.is_initialized
    }
}

} // verus!
