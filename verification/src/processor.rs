use vstd::prelude::*;
use crate::error::EscrowError;
use crate::instruction::EscrowInstruction;
use crate::instruction::spec_unpack;
use crate::state::AccountState;
use crate::state::Escrow;

verus! {

/// The escrow state machine: dispatches a decoded command against the
/// ordered account list the host hands in, validates every precondition
/// before touching anything, then applies the owed transfers and updates
/// the record — all of it, or none of it.
pub struct EscrowProcessor;

/// One step of the initialization transition, over the positional account
/// list `[signer, party A, party B, receiver, escrow record, rent sysvar]`:
/// either the exact error owed to the first violated precondition, with
/// nothing changed, or the new balances and the initialized record.
pub open spec fn spec_init_escrow(
    accounts: Seq<AccountState>,
    record: Escrow,
    amount: u64,
    rent_minimum_balance: u64,
) -> Result<(Seq<AccountState>, Escrow), EscrowError> {
    if accounts.len() < 1 {
        Err(EscrowError::NotEnoughAccountKeys)
    } else if !accounts[0].is_signer {
        Err(EscrowError::MissingRequiredSignature)
    } else if accounts.len() < 2 {
        Err(EscrowError::NotEnoughAccountKeys)
    } else if accounts[1].lamports < amount {
        Err(EscrowError::InsufficientLamports)
    } else if accounts.len() < 3 {
        Err(EscrowError::NotEnoughAccountKeys)
    } else if accounts[2].lamports < amount {
        Err(EscrowError::InsufficientLamports)
    } else if accounts.len() < 6 {
        Err(EscrowError::NotEnoughAccountKeys)
    } else if accounts[4].lamports < rent_minimum_balance {
        Err(EscrowError::NotRentExempt)
    } else if record.is_initialized {
        Err(EscrowError::AccountAlreadyInitialized)
    } else if accounts[3].lamports + amount + amount > u64::MAX {
        Err(EscrowError::AmountOverflow)
    } else {
        let debited = accounts.update(
            1,
            AccountState { lamports: (accounts[1].lamports - amount) as u64, ..accounts[1] },
        ).update(
            2,
            AccountState { lamports: (accounts[2].lamports - amount) as u64, ..accounts[2] },
        ).update(
            3,
            AccountState {
                lamports: (accounts[3].lamports + amount + amount) as u64,
                ..accounts[3]
            },
        );
        let initialized = Escrow {
            is_initialized: true,
            is_resolved: false,
            initializer_pubkey: accounts[3].key,
            authorized_resolver: accounts[0].key,
            expected_amount: amount,
        };
        Ok((debited, initialized))
    }
}

/// One step of an outcome-resolution transition, over the positional
/// account list `[signer, party A, party B, receiver, escrow record]`.
/// `winner` is the list position of the funding account whose pledge is
/// released: 1 when role A wins, 2 when role B wins. Either the exact
/// error owed to the first violated precondition, with nothing changed, or
/// the new balances and the record marked resolved.
pub open spec fn spec_resolve(
    accounts: Seq<AccountState>,
    record: Escrow,
    amount: u64,
    winner: int,
) -> Result<(Seq<AccountState>, Escrow), EscrowError>
    recommends
        winner == 1 || winner == 2,
{
    if accounts.len() < 1 {
        Err(EscrowError::NotEnoughAccountKeys)
    } else if !accounts[0].is_signer {
        Err(EscrowError::MissingRequiredSignature)
    } else if accounts.len() < 5 {
        Err(EscrowError::NotEnoughAccountKeys)
    } else if !record.is_initialized {
        Err(EscrowError::UninitializedAccount)
    } else if accounts[0].key != record.authorized_resolver {
        Err(EscrowError::MissingRequiredSignature)
    } else if record.is_resolved {
        Err(EscrowError::EscrowAlreadyResolved)
    } else if amount != record.expected_amount {
        Err(EscrowError::AmountMismatch)
    } else if accounts[winner].lamports < record.expected_amount {
        Err(EscrowError::InsufficientLamports)
    } else if accounts[3].lamports + record.expected_amount > u64::MAX {
        Err(EscrowError::AmountOverflow)
    } else {
        let paid = accounts.update(
            winner,
            AccountState {
                lamports: (accounts[winner].lamports - record.expected_amount) as u64,
                ..accounts[winner]
            },
        ).update(
            3,
            AccountState {
                lamports: (accounts[3].lamports + record.expected_amount) as u64,
                ..accounts[3]
            },
        );
        let resolved = Escrow { is_resolved: true, ..record };
        Ok((paid, resolved))
    }
}

/// One whole call of the engine: decode the payload, then take the
/// transition the decoded command names. The reserved command decodes but
/// has no implementing operation, so dispatching it is itself an invalid
/// instruction.
pub open spec fn spec_process(
    accounts: Seq<AccountState>,
    record: Escrow,
    rent_minimum_balance: u64,
    instruction_data: Seq<u8>,
) -> Result<(Seq<AccountState>, Escrow), EscrowError> {
    match spec_unpack(instruction_data) {
        Err(e) => Err(e),
        Ok(EscrowInstruction::InitEscrow { amount }) => spec_init_escrow(
            accounts,
            record,
            amount,
            rent_minimum_balance,
        ),
        Ok(EscrowInstruction::ReceiveTakerTokens { .. }) => Err(EscrowError::InvalidInstruction),
        Ok(EscrowInstruction::InitializerWins { amount }) => spec_resolve(
            accounts,
            record,
            amount,
            1,
        ),
        Ok(EscrowInstruction::TakerWins { amount }) => spec_resolve(accounts, record, amount, 2),
    }
}

impl EscrowProcessor {
    /// The entry point of the engine: decodes `instruction_data` and runs
    /// the operation it names against the account list and the record the
    /// host handed in, returning exactly what `spec_process` assigns —
    /// the updated balances and record on success, the owed error and no
    /// change at all on failure.
    pub fn process(
        accounts: &mut Vec<AccountState>,
        record: &mut Escrow,
        rent_minimum_balance: u64,
        instruction_data: &[u8],
    ) -> (r: Result<(), EscrowError>)
        ensures
            ({
                let step = spec_process(
                    old(accounts)@,
                    *old(record),
                    rent_minimum_balance,
                    instruction_data@,
                );
                match step {
                    Ok(next) => r is Ok && final(accounts)@ == next.0 && *final(record)
                        == next.1,
                    Err(e) => r == Result::<(), EscrowError>::Err(e) && final(accounts)@ == old(
                        accounts,
                    )@ && *final(record) == *old(record),
                }
            }),
    {
        let instruction = match EscrowInstruction::unpack(instruction_data) {
            Ok(i) => i,
            Err(e) => {
                return Err(e);
            },
        };
        match instruction {
            EscrowInstruction::InitEscrow { amount } => Self::process_init_escrow(
                accounts,
                record,
                amount,
                rent_minimum_balance,
            ),
            EscrowInstruction::ReceiveTakerTokens { .. } => Err(EscrowError::InvalidInstruction),
            EscrowInstruction::InitializerWins { amount } => Self::process_player_a_wins(
                accounts,
                record,
                amount,
            ),
            EscrowInstruction::TakerWins { amount } => Self::process_player_b_wins(
                accounts,
                record,
                amount,
            ),
        }
    }

    /// Initializes the escrow: after every precondition of
    /// `spec_init_escrow` holds — the initializer signed, both parties can
    /// cover the pledge, the record account is rent-exempt and the record
    /// was never initialized — it collects `amount` from each party into
    /// the receiver and persists the initialized record. On any failure
    /// nothing is changed: no partial transfer, no partial record.
    pub fn process_init_escrow(
        accounts: &mut Vec<AccountState>,
        record: &mut Escrow,
        amount: u64,
        rent_minimum_balance: u64,
    ) -> (r: Result<(), EscrowError>)
        ensures
            ({
                let step = spec_init_escrow(
                    old(accounts)@,
                    *old(record),
                    amount,
                    rent_minimum_balance,
                );
                match step {
                    Ok(next) => r is Ok && final(accounts)@ == next.0 && *final(record)
                        == next.1,
                    Err(e) => r == Result::<(), EscrowError>::Err(e) && final(accounts)@ == old(
                        accounts,
                    )@ && *final(record) == *old(record),
                }
            }),
    {
        if accounts.len() < 1 {
            return Err(EscrowError::NotEnoughAccountKeys);
        }
        let initializer = accounts[0];
        if !initializer.is_signer {
            return Err(EscrowError::MissingRequiredSignature);
        }
        if accounts.len() < 2 {
            return Err(EscrowError::NotEnoughAccountKeys);
        }
        let party_a = accounts[1];
        if party_a.lamports < amount {
            return Err(EscrowError::InsufficientLamports);
        }
        if accounts.len() < 3 {
            return Err(EscrowError::NotEnoughAccountKeys);
        }
        let party_b = accounts[2];
        if party_b.lamports < amount {
            return Err(EscrowError::InsufficientLamports);
        }
        if accounts.len() < 6 {
            return Err(EscrowError::NotEnoughAccountKeys);
        }
        let escrow_account = accounts[4];
        if escrow_account.lamports < rent_minimum_balance {
            return Err(EscrowError::NotRentExempt);
        }
        if record.is_initialized {
            return Err(EscrowError::AccountAlreadyInitialized);
        }
        let receiver = accounts[3];
        let credited = match receiver.lamports.checked_add(amount) {
            Some(once) => match once.checked_add(amount) {
                Some(twice) => twice,
                None => {
                    return Err(EscrowError::AmountOverflow);
                },
            },
            None => {
                return Err(EscrowError::AmountOverflow);
            },
        };
        accounts[1] = AccountState { lamports: party_a.lamports - amount, ..party_a };
        accounts[2] = AccountState { lamports: party_b.lamports - amount, ..party_b };
        accounts[3] = AccountState { lamports: credited, ..receiver };
        *record = Escrow {
            is_initialized: true,
            is_resolved: false,
            initializer_pubkey: receiver.key,
            authorized_resolver: initializer.key,
            expected_amount: amount,
        };
        Ok(())
    }

    /// The shared body of both outcome operations: releases the recorded
    /// pledge from the funding account at position `winner` to the
    /// receiver and marks the record resolved, exactly when every
    /// precondition of `spec_resolve` holds; on any failure nothing is
    /// changed.
    fn process_outcome(
        accounts: &mut Vec<AccountState>,
        record: &mut Escrow,
        amount: u64,
        winner: usize,
    ) -> (r: Result<(), EscrowError>)
        requires
            winner == 1 || winner == 2,
        ensures
            ({
                let step = spec_resolve(old(accounts)@, *old(record), amount, winner as int);
                match step {
                    Ok(next) => r is Ok && final(accounts)@ == next.0 && *final(record)
                        == next.1,
                    Err(e) => r == Result::<(), EscrowError>::Err(e) && final(accounts)@ == old(
                        accounts,
                    )@ && *final(record) == *old(record),
                }
            }),
    {
        if accounts.len() < 1 {
            return Err(EscrowError::NotEnoughAccountKeys);
        }
        let signer = accounts[0];
        if !signer.is_signer {
            return Err(EscrowError::MissingRequiredSignature);
        }
        if accounts.len() < 5 {
            return Err(EscrowError::NotEnoughAccountKeys);
        }
        if !record.is_initialized {
            return Err(EscrowError::UninitializedAccount);
        }
        if signer.key != record.authorized_resolver {
            return Err(EscrowError::MissingRequiredSignature);
        }
        if record.is_resolved {
            return Err(EscrowError::EscrowAlreadyResolved);
        }
        if amount != record.expected_amount {
            return Err(EscrowError::AmountMismatch);
        }
        let source = accounts[winner];
        if source.lamports < record.expected_amount {
            return Err(EscrowError::InsufficientLamports);
        }
        let receiver = accounts[3];
        let credited = match receiver.lamports.checked_add(record.expected_amount) {
            Some(total) => total,
            None => {
                return Err(EscrowError::AmountOverflow);
            },
        };
        accounts[winner] = AccountState {
            lamports: source.lamports - record.expected_amount,
            ..source
        };
        accounts[3] = AccountState { lamports: credited, ..receiver };
        *record = Escrow { is_resolved: true, ..*record };
        Ok(())
    }

    /// The role-A outcome: party A's pledge, as recorded at
    /// initialization, is released to the receiver; see `spec_resolve`
    /// with winner position 1 for exactly when it succeeds and which
    /// error each failing call owes.
    pub fn process_player_a_wins(
        accounts: &mut Vec<AccountState>,
        record: &mut Escrow,
        amount: u64,
    ) -> (r: Result<(), EscrowError>)
        ensures
            ({
                let step = spec_resolve(old(accounts)@, *old(record), amount, 1);
                match step {
                    Ok(next) => r is Ok && final(accounts)@ == next.0 && *final(record)
                        == next.1,
                    Err(e) => r == Result::<(), EscrowError>::Err(e) && final(accounts)@ == old(
                        accounts,
                    )@ && *final(record) == *old(record),
                }
            }),
    {
        Self::process_outcome(accounts, record, amount, 1)
    }

    /// The role-B outcome: party B's pledge, as recorded at
    /// initialization, is released to the receiver; see `spec_resolve`
    /// with winner position 2 for exactly when it succeeds and which
    /// error each failing call owes.
    pub fn process_player_b_wins(
        accounts: &mut Vec<AccountState>,
        record: &mut Escrow,
        amount: u64,
    ) -> (r: Result<(), EscrowError>)
        ensures
            ({
                let step = spec_resolve(old(accounts)@, *old(record), amount, 2);
                match step {
                    Ok(next) => r is Ok && final(accounts)@ == next.0 && *final(record)
                        == next.1,
                    Err(e) => r == Result::<(), EscrowError>::Err(e) && final(accounts)@ == old(
                        accounts,
                    )@ && *final(record) == *old(record),
                }
            }),
    {
        Self::process_outcome(accounts, record, amount, 2)
    }
}

/// Initialization succeeds only once per record. A record that a
/// successful initialization produced carries that call's amount and
/// receiver identity, and any further initialization attempt against it —
/// however its own accounts are funded — fails with
/// `AccountAlreadyInitialized` as soon as it passes the earlier checks;
/// by the contract of `process_init_escrow`, the failing call then leaves
/// the record and every balance unchanged.
pub proof fn lemma_init_escrow_only_once(
    first_accounts: Seq<AccountState>,
    record: Escrow,
    first_amount: u64,
    first_rent: u64,
    second_accounts: Seq<AccountState>,
    second_amount: u64,
    second_rent: u64,
)
    requires
        spec_init_escrow(first_accounts, record, first_amount, first_rent) is Ok,
        second_accounts.len() >= 6,
        second_accounts[0].is_signer,
        second_accounts[1].lamports >= second_amount,
        second_accounts[2].lamports >= second_amount,
        second_accounts[4].lamports >= second_rent,
    ensures
        ({
            let initialized = spec_init_escrow(
                first_accounts,
                record,
                first_amount,
                first_rent,
            )->Ok_0.1;
            &&& initialized.is_initialized
            &&& initialized.expected_amount == first_amount
            &&& initialized.initializer_pubkey == first_accounts[3].key
            &&& spec_init_escrow(second_accounts, initialized, second_amount, second_rent)
                == Result::<(Seq<AccountState>, Escrow), EscrowError>::Err(
                EscrowError::AccountAlreadyInitialized,
            )
        }),
{
}

/// An unsigned initializer always fails with `MissingRequiredSignature`,
/// regardless of any balance, rent threshold or record state; by the
/// contract of `process_init_escrow`, nothing is changed.
pub proof fn lemma_init_requires_signature(
    accounts: Seq<AccountState>,
    record: Escrow,
    amount: u64,
    rent_minimum_balance: u64,
)
    requires
        accounts.len() >= 1,
        !accounts[0].is_signer,
    ensures
        spec_init_escrow(accounts, record, amount, rent_minimum_balance) == Result::<
            (Seq<AccountState>, Escrow),
            EscrowError,
        >::Err(EscrowError::MissingRequiredSignature),
{
}

/// When either depositing party cannot cover the pledge, initialization
/// fails with the insufficient-balance error; by the contract of
/// `process_init_escrow`, neither transfer is applied — every balance is
/// exactly what it was.
pub proof fn lemma_init_insufficient_balance(
    accounts: Seq<AccountState>,
    record: Escrow,
    amount: u64,
    rent_minimum_balance: u64,
)
    requires
        accounts.len() >= 3,
        accounts[0].is_signer,
        accounts[1].lamports < amount || accounts[2].lamports < amount,
    ensures
        spec_init_escrow(accounts, record, amount, rent_minimum_balance) == Result::<
            (Seq<AccountState>, Escrow),
            EscrowError,
        >::Err(EscrowError::InsufficientLamports),
{
}

/// A successful initialization collects exactly the pledge from each
/// depositing party and credits the receiver with exactly both pledges,
/// touching no other balance; the record it writes designates the
/// receiver and authorizes the initializing signer as resolver.
pub proof fn lemma_init_escrow_collects_pledges(
    accounts: Seq<AccountState>,
    record: Escrow,
    amount: u64,
    rent_minimum_balance: u64,
)
    requires
        spec_init_escrow(accounts, record, amount, rent_minimum_balance) is Ok,
    ensures
        ({
            let next = spec_init_escrow(accounts, record, amount, rent_minimum_balance)->Ok_0;
            &&& next.0.len() == accounts.len()
            &&& next.0[1].lamports == accounts[1].lamports - amount
            &&& next.0[2].lamports == accounts[2].lamports - amount
            &&& next.0[3].lamports == accounts[3].lamports + amount + amount
            &&& forall|i: int|
                0 <= i < accounts.len() && i != 1 && i != 2 && i != 3 ==> next.0[i] == accounts[i]
            &&& next.1 == (Escrow {
                is_initialized: true,
                is_resolved: false,
                initializer_pubkey: accounts[3].key,
                authorized_resolver: accounts[0].key,
                expected_amount: amount,
            })
        }),
{
}

/// A successful outcome resolution moves exactly the amount recorded at
/// initialization — which the call's own amount must equal — from the
/// winning party's account to the receiver, touches no other balance (in
/// particular not the non-winning party's), and marks the record
/// resolved, changing nothing else in it.
pub proof fn lemma_resolve_pays_recorded_amount(
    accounts: Seq<AccountState>,
    record: Escrow,
    amount: u64,
    winner: int,
)
    requires
        winner == 1 || winner == 2,
        spec_resolve(accounts, record, amount, winner) is Ok,
    ensures
        amount == record.expected_amount,
        ({
            let next = spec_resolve(accounts, record, amount, winner)->Ok_0;
            &&& next.0.len() == accounts.len()
            &&& next.0[winner].lamports == accounts[winner].lamports - record.expected_amount
            &&& next.0[3].lamports == accounts[3].lamports + record.expected_amount
            &&& forall|i: int|
                0 <= i < accounts.len() && i != winner && i != 3 ==> next.0[i] == accounts[i]
            &&& next.1 == (Escrow { is_resolved: true, ..record })
        }),
{
}

/// Resolving an outcome against an uninitialized record fails with
/// `UninitializedAccount`; by the contract of the outcome operations, no
/// transfer is issued and nothing is changed.
pub proof fn lemma_resolve_requires_initialized(
    accounts: Seq<AccountState>,
    record: Escrow,
    amount: u64,
    winner: int,
)
    requires
        winner == 1 || winner == 2,
        accounts.len() >= 5,
        accounts[0].is_signer,
        !record.is_initialized,
    ensures
        spec_resolve(accounts, record, amount, winner) == Result::<
            (Seq<AccountState>, Escrow),
            EscrowError,
        >::Err(EscrowError::UninitializedAccount),
{
}

/// An outcome resolves at most once per record: against the record a
/// successful resolution produced, every further resolution attempt —
/// either role, any accounts, any amount — fails, and fails with
/// `EscrowAlreadyResolved` as soon as it passes the signer and
/// initialization checks; by the contract of the outcome operations, the
/// failing call issues no transfer. This closes the double-payout hazard.
pub proof fn lemma_resolve_only_once(
    first_accounts: Seq<AccountState>,
    record: Escrow,
    first_amount: u64,
    first_winner: int,
    second_accounts: Seq<AccountState>,
    second_amount: u64,
    second_winner: int,
)
    requires
        first_winner == 1 || first_winner == 2,
        second_winner == 1 || second_winner == 2,
        spec_resolve(first_accounts, record, first_amount, first_winner) is Ok,
    ensures
        ({
            let resolved = spec_resolve(
                first_accounts,
                record,
                first_amount,
                first_winner,
            )->Ok_0.1;
            &&& spec_resolve(second_accounts, resolved, second_amount, second_winner) is Err
            &&& (second_accounts.len() >= 5 && second_accounts[0].is_signer
                && second_accounts[0].key == record.authorized_resolver) ==> spec_resolve(
                second_accounts,
                resolved,
                second_amount,
                second_winner,
            ) == Result::<(Seq<AccountState>, Escrow), EscrowError>::Err(
                EscrowError::EscrowAlreadyResolved,
            )
        }),
{
}

/// Every transition preserves the record's well-formedness: starting from
/// a well-formed record, whatever a whole call does — initialize, resolve
/// either outcome, or fail — the record it leaves behind is well-formed.
pub proof fn lemma_process_preserves_wf(
    accounts: Seq<AccountState>,
    record: Escrow,
    rent_minimum_balance: u64,
    instruction_data: Seq<u8>,
)
    requires
        record.wf(),
    ensures
        spec_process(accounts, record, rent_minimum_balance, instruction_data) matches Ok(next)
            ==> next.1.wf(),
{
}

} // verus!
