use vstd::prelude::*;
use crate::error::EscrowError;
use crate::instruction::EscrowInstruction;
use crate::instruction::EscrowInstructionV;
use crate::instruction::spec_unpack_instruction;
use crate::pubkey::Pubkey;
use crate::state::SWAP_PAIR_LEN;
use crate::state::SwapPair;
use crate::state::SwapPairV;
use crate::state::spec_pack;
use crate::state::spec_unpack;
use crate::state::lemma_pack_unpack;
use crate::state::lemma_pack_len;

verus! {

/// One account as the runtime hands it to the program: its address,
/// the program that owns it, its balance, whether its holder co-signed
/// the call, and its raw byte buffer.
#[derive(Clone, Debug, PartialEq, Eq)]
pub struct AccountRef {
    pub key: Pubkey,
    pub owner: Pubkey,
    pub lamports: u64,
    pub is_signer: bool,
    pub data: Vec<u8>,
}

/// The mathematical model of an account: identities and buffer as
/// byte sequences.
pub struct AccountRefV {
    pub key: Seq<u8>,
    pub owner: Seq<u8>,
    pub lamports: u64,
    pub is_signer: bool,
    pub data: Seq<u8>,
}

impl View for AccountRef {
    type V = AccountRefV;

    open spec fn view(&self) -> AccountRefV {
        AccountRefV {
            key: self.key@,
            owner: self.owner@,
            lamports: self.lamports,
            is_signer: self.is_signer,
            data: self.data@,
        }
    }
}

/// The models of a whole account list.
pub open spec fn account_views(s: Seq<AccountRef>) -> Seq<AccountRefV> {
    s.map_values(|a: AccountRef| a@)
}

/// What the caller must do after a successful operation: nothing, or
/// one token transfer, invoked atomically within the same call.
#[derive(Clone, Copy, Debug, PartialEq, Eq)]
pub enum Action {
    /// The operation is complete; no sub-invocation is owed.
    Complete,
    /// Move exactly `amount` units from `source` to `destination`,
    /// authorized by `authority`, through the transfer service at
    /// `token_program`. Only after the transfer succeeds may the
    /// offer record be committed with [`Processor::commit_swap`].
    Transfer {
        token_program: Pubkey,
        source: Pubkey,
        destination: Pubkey,
        authority: Pubkey,
        amount: u64,
    },
}

/// The mathematical model of an [`Action`].
pub enum ActionV {
    Complete,
    Transfer {
        token_program: Seq<u8>,
        source: Seq<u8>,
        destination: Seq<u8>,
        authority: Seq<u8>,
        amount: u64,
    },
}

impl View for Action {
    type V = ActionV;

    open spec fn view(&self) -> ActionV {
        match *self {
            Action::Complete => ActionV::Complete,
            Action::Transfer { token_program, source, destination, authority, amount } => {
                ActionV::Transfer {
                    token_program: token_program@,
                    source: source@,
                    destination: destination@,
                    authority: authority@,
                    amount,
                }
            },
        }
    }
}

/// The record a create operation writes: freshly initialized and
/// active, the creator and the offer account pinned, the terms as the
/// instruction gave them.
pub open spec fn spec_created_record(
    creator_key: Seq<u8>,
    offer_key: Seq<u8>,
    token_a_mint: Seq<u8>,
    token_b_mint: Seq<u8>,
    amount_a: u64,
    price_b: u64,
) -> SwapPairV {
    SwapPairV {
        is_initialized: true,
        creator_pubkey: creator_key,
        token_a_mint: token_a_mint,
        token_b_mint: token_b_mint,
        token_a_account: offer_key,
        amount_a: amount_a,
        price_b: price_b,
        is_active: true,
    }
}

/// The create operation over account models, checks in protocol
/// order: the creator (account 0) must have signed, the offer account
/// (account 1) must hold at least the rent-exemption threshold, must
/// be owned by this program, and must have room for the record; the
/// rent-policy account (account 2) is consumed positionally. On
/// success the record is written over the start of the offer
/// account's buffer, unconditionally replacing prior contents.
pub open spec fn spec_process_create(
    program_id: Seq<u8>,
    accounts: Seq<AccountRefV>,
    token_a_mint: Seq<u8>,
    token_b_mint: Seq<u8>,
    amount_a: u64,
    price_b: u64,
    rent_min_balance: u64,
) -> Result<Seq<AccountRefV>, EscrowError> {
    if accounts.len() < 1 {
        Err(EscrowError::NotEnoughAccounts)
    } else if !accounts[0].is_signer {
        Err(EscrowError::MissingSignature)
    } else if accounts.len() < 3 {
        Err(EscrowError::NotEnoughAccounts)
    } else if accounts[1].lamports < rent_min_balance {
        Err(EscrowError::NotRentExempt)
    } else if accounts[1].owner != program_id {
        Err(EscrowError::IncorrectProgramId)
    } else if accounts[1].data.len() < SWAP_PAIR_LEN {
        Err(EscrowError::InvalidAccountData)
    } else {
        let record = spec_created_record(
            accounts[0].key,
            accounts[1].key,
            token_a_mint,
            token_b_mint,
            amount_a,
            price_b,
        );
        let new_data = spec_pack(record) + accounts[1].data.skip(SWAP_PAIR_LEN as int);
        Ok(accounts.update(1, AccountRefV { data: new_data, ..accounts[1] }))
    }
}

/// The execute operation over account models, checks in protocol
/// order: the offer account (account 1) must be the one the
/// instruction names, must be owned by this program, and must hold an
/// initialized, still-active record; the taker (account 0) must not
/// be the creator. Nothing is mutated here: on success the operation
/// yields the one transfer the caller owes — `price_b` units from the
/// taker's asset-B account (account 2) to the creator's (account 3),
/// authorized by the taker, through the transfer service (account 4).
pub open spec fn spec_process_execute(
    program_id: Seq<u8>,
    accounts: Seq<AccountRefV>,
    swap_pair_id: Seq<u8>,
) -> Result<ActionV, EscrowError> {
    if accounts.len() < 2 {
        Err(EscrowError::NotEnoughAccounts)
    } else if accounts[1].key != swap_pair_id {
        Err(EscrowError::InvalidSwapPair)
    } else if accounts[1].owner != program_id {
        Err(EscrowError::IncorrectProgramId)
    } else if accounts.len() < 5 {
        Err(EscrowError::NotEnoughAccounts)
    } else if accounts[1].data.len() < SWAP_PAIR_LEN {
        Err(EscrowError::InvalidAccountData)
    } else {
        let record = spec_unpack(accounts[1].data);
        if !record.is_initialized || !record.is_active {
            Err(EscrowError::InvalidAccountData)
        } else if record.creator_pubkey == accounts[0].key {
            Err(EscrowError::InvalidAccountData)
        } else {
            Ok(
                ActionV::Transfer {
                    token_program: accounts[4].key,
                    source: accounts[2].key,
                    destination: accounts[3].key,
                    authority: accounts[0].key,
                    amount: record.price_b,
                },
            )
        }
    }
}

/// The whole dispatch: decode the payload, then run the selected
/// operation. The reserved `InitEscrow` operation decodes but is
/// always rejected. The result pairs the account models after the
/// call with the action the caller owes; on any error the accounts
/// are untouched.
pub open spec fn spec_process(
    program_id: Seq<u8>,
    accounts: Seq<AccountRefV>,
    instruction_data: Seq<u8>,
    rent_min_balance: u64,
) -> Result<(Seq<AccountRefV>, ActionV), EscrowError> {
    match spec_unpack_instruction(instruction_data) {
        Err(e) => Err(e),
        Ok(EscrowInstructionV::InitEscrow { .. }) => Err(EscrowError::InvalidInstruction),
        Ok(
            EscrowInstructionV::CreateSwapPair { token_a_mint, token_b_mint, amount_a, price_b },
        ) => {
            match spec_process_create(
                program_id,
                accounts,
                token_a_mint,
                token_b_mint,
                amount_a,
                price_b,
                rent_min_balance,
            ) {
                Ok(new_accounts) => Ok((new_accounts, ActionV::Complete)),
                Err(e) => Err(e),
            }
        },
        Ok(EscrowInstructionV::ExecuteSwap { swap_pair_id }) => {
            match spec_process_execute(program_id, accounts, swap_pair_id) {
                Ok(action) => Ok((accounts, action)),
                Err(e) => Err(e),
            }
        },
    }
}

/// Committing a successful swap: the offer account's record, which
/// must still be an initialized, active record, is re-encoded with
/// `active` cleared; every other field and every byte past the record
/// keep their values.
pub open spec fn spec_commit_swap(a: AccountRefV) -> Result<AccountRefV, EscrowError> {
    if a.data.len() < SWAP_PAIR_LEN {
        Err(EscrowError::InvalidAccountData)
    } else {
        let record = spec_unpack(a.data);
        if !record.is_initialized || !record.is_active {
            Err(EscrowError::InvalidAccountData)
        } else {
            let closed = SwapPairV { is_active: false, ..record };
            Ok(AccountRefV { data: spec_pack(closed) + a.data.skip(SWAP_PAIR_LEN as int), ..a })
        }
    }
}

/// The orchestrator: the only component that authorizes state
/// changes. Every check is fail-closed — the first failing check
/// aborts the whole operation with the accounts untouched.
pub struct Processor;

impl Processor {
    /// Entry point: decodes `instruction_data` and runs the selected
    /// operation against the positional `accounts`, exactly as
    /// `spec_process` lays the protocol down. `rent_min_balance` is
    /// the rent-policy oracle's minimum balance for a buffer of the
    /// fixed record length, computed by the caller.
    ///
    /// On success the returned [`Action`] says what the caller still
    /// owes: nothing for a create (the record is already written), or
    /// one token transfer for an execute, to be followed by
    /// [`Processor::commit_swap`]. On any error the accounts are
    /// returned untouched, and no transfer is owed.
    pub fn process(
        program_id: &Pubkey,
        accounts: &mut Vec<AccountRef>,
        instruction_data: &[u8],
        rent_min_balance: u64,
    ) -> (r: Result<Action, EscrowError>)
        ensures
            match spec_process(
                program_id@,
                account_views(old(accounts)@),
                instruction_data@,
                rent_min_balance,
            ) {
                Ok(pair) => (r matches Ok(action) && action@ == pair.1 && account_views(
                    final(accounts)@,
                ) == pair.0),
                Err(e) => r == Err::<Action, EscrowError>(e) && final(accounts)@ == old(
                    accounts,
                )@,
            },
    {
        let instruction = match EscrowInstruction::unpack(instruction_data) {
            Ok(instruction) => instruction,
            Err(e) => {
                return Err(e);
            },
        };
        match instruction {
            EscrowInstruction::CreateSwapPair { token_a_mint, token_b_mint, amount_a, price_b } => {
                match Self::process_create_swap_pair(
                    accounts,
                    token_a_mint,
                    token_b_mint,
                    amount_a,
                    price_b,
                    program_id,
                    rent_min_balance,
                ) {
                    Ok(()) => Ok(Action::Complete),
                    Err(e) => Err(e),
                }
            },
            EscrowInstruction::ExecuteSwap { swap_pair_id } => {
                Self::process_execute_swap(accounts, swap_pair_id, program_id)
            },
            EscrowInstruction::InitEscrow { .. } => {
                // Reserved variant: recognized on the wire, never processed.
                Err(EscrowError::InvalidInstruction)
            },
        }
    }

    /// The create operation: validates the creator's signature, the
    /// offer account's rent-exemption and ownership, then writes the
    /// new record over the offer account's buffer.
    fn process_create_swap_pair(
        accounts: &mut Vec<AccountRef>,
        token_a_mint: Pubkey,
        token_b_mint: Pubkey,
        amount_a: u64,
        price_b: u64,
        program_id: &Pubkey,
        rent_min_balance: u64,
    ) -> (r: Result<(), EscrowError>)
        ensures
            match spec_process_create(
                program_id@,
                account_views(old(accounts)@),
                token_a_mint@,
                token_b_mint@,
                amount_a,
                price_b,
                rent_min_balance,
            ) {
                Ok(new_accounts) => (r matches Ok(u) && account_views(final(accounts)@)
                    == new_accounts),
                Err(e) => r == Err::<(), EscrowError>(e) && final(accounts)@ == old(accounts)@,
            },
    {
        if accounts.len() < 1 {
            return Err(EscrowError::NotEnoughAccounts);
        }
        if !accounts[0].is_signer {
            return Err(EscrowError::MissingSignature);
        }
        if accounts.len() < 3 {
            return Err(EscrowError::NotEnoughAccounts);
        }
        if accounts[1].lamports < rent_min_balance {
            return Err(EscrowError::NotRentExempt);
        }
        if !accounts[1].owner.key_eq(program_id) {
            return Err(EscrowError::IncorrectProgramId);
        }
        if accounts[1].data.len() < SWAP_PAIR_LEN {
            return Err(EscrowError::InvalidAccountData);
        }
        let creator_key = accounts[0].key;
        let offer_key = accounts[1].key;
        let record = SwapPair {
            is_initialized: true,
            is_active: true,
            creator_pubkey: creator_key,
            token_a_mint: token_a_mint,
            token_b_mint: token_b_mint,
            token_a_account: offer_key,
            amount_a: amount_a,
            price_b: price_b,
        };
        record.pack_into_slice(&mut accounts[1].data);
        proof {
            let old_views = account_views(old(accounts)@);
            let expected = spec_process_create(
                program_id@,
                old_views,
                token_a_mint@,
                token_b_mint@,
                amount_a,
                price_b,
                rent_min_balance,
            )->Ok_0;
            assert(account_views(accounts@) =~~= expected);
        }
        Ok(())
    }

    /// The execute operation: validates the offer account against the
    /// declared identity, its ownership, its record, and the taker,
    /// and yields the transfer the caller owes. Mutates nothing.
    fn process_execute_swap(
        accounts: &Vec<AccountRef>,
        swap_pair_id: Pubkey,
        program_id: &Pubkey,
    ) -> (r: Result<Action, EscrowError>)
        ensures
            match spec_process_execute(program_id@, account_views(accounts@), swap_pair_id@) {
                Ok(action) => (r matches Ok(a) && a@ == action),
                Err(e) => r == Err::<Action, EscrowError>(e),
            },
    {
        if accounts.len() < 2 {
            return Err(EscrowError::NotEnoughAccounts);
        }
        if !accounts[1].key.key_eq(&swap_pair_id) {
            return Err(EscrowError::InvalidSwapPair);
        }
        if !accounts[1].owner.key_eq(program_id) {
            return Err(EscrowError::IncorrectProgramId);
        }
        if accounts.len() < 5 {
            return Err(EscrowError::NotEnoughAccounts);
        }
        let record = match SwapPair::unpack_from_slice(accounts[1].data.as_slice()) {
            Ok(record) => record,
            Err(e) => {
                return Err(e);
            },
        };
        if !record.is_initialized || !record.is_active {
            return Err(EscrowError::InvalidAccountData);
        }
        if record.creator_pubkey.key_eq(&accounts[0].key) {
            return Err(EscrowError::InvalidAccountData);
        }
        Ok(
            Action::Transfer {
                token_program: accounts[4].key,
                source: accounts[2].key,
                destination: accounts[3].key,
                authority: accounts[0].key,
                amount: record.price_b,
            },
        )
    }

    /// Marks an executed swap terminal. To be called only after the
    /// transfer reported by [`Action::Transfer`] has succeeded: the
    /// record is re-encoded with `active` cleared, so the offer can
    /// never execute a second time. Fails with `InvalidAccountData`,
    /// leaving the account untouched, if the buffer holds no
    /// initialized, active record.
    pub fn commit_swap(swap_pair_account: &mut AccountRef) -> (r: Result<(), EscrowError>)
        ensures
            match spec_commit_swap(old(swap_pair_account)@) {
                Ok(a) => (r matches Ok(u) && final(swap_pair_account)@ == a),
                Err(e) => r == Err::<(), EscrowError>(e) && *final(swap_pair_account) == *old(
                    swap_pair_account,
                ),
            },
    {
        let mut record = match SwapPair::unpack_from_slice(swap_pair_account.data.as_slice()) {
            Ok(record) => record,
            Err(e) => {
                return Err(e);
            },
        };
        if !record.is_initialized || !record.is_active {
            return Err(EscrowError::InvalidAccountData);
        }
        record.is_active = false;
        record.pack_into_slice(&mut swap_pair_account.data);
        Ok(())
    }
}

/// The reserved operation can never be processed: whenever the
/// payload decodes to `InitEscrow`, the whole dispatch fails with
/// `InvalidInstruction`, whatever the accounts hold.
pub proof fn lemma_init_escrow_rejected(
    program_id: Seq<u8>,
    accounts: Seq<AccountRefV>,
    instruction_data: Seq<u8>,
    rent_min_balance: u64,
)
    requires
        (spec_unpack_instruction(instruction_data) matches Ok(
            EscrowInstructionV::InitEscrow { .. },
        )),
    ensures
        spec_process(program_id, accounts, instruction_data, rent_min_balance) == Err::<
            (Seq<AccountRefV>, ActionV),
            EscrowError,
        >(EscrowError::InvalidInstruction),
{
}

/// A create whose creator did not sign fails with
/// `MissingSignature`, whatever every other input holds.
pub proof fn lemma_create_requires_signature(
    program_id: Seq<u8>,
    accounts: Seq<AccountRefV>,
    token_a_mint: Seq<u8>,
    token_b_mint: Seq<u8>,
    amount_a: u64,
    price_b: u64,
    rent_min_balance: u64,
)
    requires
        accounts.len() >= 1,
        !accounts[0].is_signer,
    ensures
        spec_process_create(
            program_id,
            accounts,
            token_a_mint,
            token_b_mint,
            amount_a,
            price_b,
            rent_min_balance,
        ) == Err::<Seq<AccountRefV>, EscrowError>(EscrowError::MissingSignature),
{
}

/// The rent-exemption rule is a strict threshold: a signed create on
/// a balance even one unit below `rent_min_balance` fails with
/// `NotRentExempt`, and a balance at or above it never draws that
/// error.
pub proof fn lemma_create_rent_threshold(
    program_id: Seq<u8>,
    accounts: Seq<AccountRefV>,
    token_a_mint: Seq<u8>,
    token_b_mint: Seq<u8>,
    amount_a: u64,
    price_b: u64,
    rent_min_balance: u64,
)
    requires
        accounts.len() >= 3,
        accounts[0].is_signer,
    ensures
        accounts[1].lamports < rent_min_balance ==> spec_process_create(
            program_id,
            accounts,
            token_a_mint,
            token_b_mint,
            amount_a,
            price_b,
            rent_min_balance,
        ) == Err::<Seq<AccountRefV>, EscrowError>(EscrowError::NotRentExempt),
        accounts[1].lamports >= rent_min_balance ==> spec_process_create(
            program_id,
            accounts,
            token_a_mint,
            token_b_mint,
            amount_a,
            price_b,
            rent_min_balance,
        ) != Err::<Seq<AccountRefV>, EscrowError>(EscrowError::NotRentExempt),
{
}

/// A terminal offer can never execute: however the other record
/// fields and accounts are chosen, an execute that reaches an
/// inactive record fails with `InvalidAccountData`.
pub proof fn lemma_execute_inactive(
    program_id: Seq<u8>,
    accounts: Seq<AccountRefV>,
    swap_pair_id: Seq<u8>,
)
    requires
        accounts.len() >= 5,
        accounts[1].key == swap_pair_id,
        accounts[1].owner == program_id,
        accounts[1].data.len() >= SWAP_PAIR_LEN,
        !spec_unpack(accounts[1].data).is_active,
    ensures
        spec_process_execute(program_id, accounts, swap_pair_id) == Err::<ActionV, EscrowError>(
            EscrowError::InvalidAccountData,
        ),
{
}

/// A creator cannot take their own offer: even when every other
/// check passes, an execute whose taker is the record's creator fails
/// with `InvalidAccountData`.
pub proof fn lemma_execute_self_take_rejected(
    program_id: Seq<u8>,
    accounts: Seq<AccountRefV>,
    swap_pair_id: Seq<u8>,
)
    requires
        accounts.len() >= 5,
        accounts[1].key == swap_pair_id,
        accounts[1].owner == program_id,
        accounts[1].data.len() >= SWAP_PAIR_LEN,
        spec_unpack(accounts[1].data).creator_pubkey == accounts[0].key,
    ensures
        spec_process_execute(program_id, accounts, swap_pair_id) == Err::<ActionV, EscrowError>(
            EscrowError::InvalidAccountData,
        ),
{
}

/// What a successful create persists: decoded back from the offer
/// account's new buffer, the record is exactly the new offer —
/// initialized, active, the creator and offer identities pinned, the
/// terms as given.
pub proof fn lemma_create_persists_record(
    program_id: Seq<u8>,
    accounts: Seq<AccountRefV>,
    token_a_mint: Seq<u8>,
    token_b_mint: Seq<u8>,
    amount_a: u64,
    price_b: u64,
    rent_min_balance: u64,
)
    requires
        accounts.len() >= 3,
        accounts[0].key.len() == 32,
        accounts[1].key.len() == 32,
        token_a_mint.len() == 32,
        token_b_mint.len() == 32,
        (spec_process_create(
            program_id,
            accounts,
            token_a_mint,
            token_b_mint,
            amount_a,
            price_b,
            rent_min_balance,
        ) is Ok),
    ensures
        spec_unpack(
            spec_process_create(
                program_id,
                accounts,
                token_a_mint,
                token_b_mint,
                amount_a,
                price_b,
                rent_min_balance,
            )->Ok_0[1].data,
        ) == spec_created_record(
            accounts[0].key,
            accounts[1].key,
            token_a_mint,
            token_b_mint,
            amount_a,
            price_b,
        ),
{
    let record = spec_created_record(
        accounts[0].key,
        accounts[1].key,
        token_a_mint,
        token_b_mint,
        amount_a,
        price_b,
    );
    lemma_pack_len(record);
    lemma_pack_unpack(record);
    let written = spec_process_create(
        program_id,
        accounts,
        token_a_mint,
        token_b_mint,
        amount_a,
        price_b,
        rent_min_balance,
    )->Ok_0[1].data;
    let packed = spec_pack(record);
    assert(spec_unpack(written) =~~= spec_unpack(packed)) by {
        assert(written[0] == packed[0]);
        assert(written[145] == packed[145]);
        assert(written.subrange(1, 33) =~= packed.subrange(1, 33));
        assert(written.subrange(33, 65) =~= packed.subrange(33, 65));
        assert(written.subrange(65, 97) =~= packed.subrange(65, 97));
        assert(written.subrange(97, 129) =~= packed.subrange(97, 129));
        assert(written.subrange(129, 137) =~= packed.subrange(129, 137));
        assert(written.subrange(137, 145) =~= packed.subrange(137, 145));
    }
}

/// Committing a swap is terminal and touches nothing else: read back
/// from the committed buffer, the record is inactive with every other
/// field exactly as it was.
pub proof fn lemma_commit_terminal(a: AccountRefV)
    requires
        (spec_commit_swap(a) is Ok),
    ensures
        spec_commit_swap(a)->Ok_0.data.len() == a.data.len(),
        spec_unpack(spec_commit_swap(a)->Ok_0.data) == (SwapPairV {
            is_active: false,
            ..spec_unpack(a.data)
        }),
{
    let record = spec_unpack(a.data);
    let closed = SwapPairV { is_active: false, ..record };
    lemma_pack_len(closed);
    lemma_pack_unpack(closed);
    let committed = spec_commit_swap(a)->Ok_0.data;
    let packed = spec_pack(closed);
    assert(committed.subrange(0, SWAP_PAIR_LEN as int) =~= packed);
    assert(spec_unpack(committed) =~~= spec_unpack(packed)) by {
        assert(committed[0] == packed[0]);
        assert(committed[145] == packed[145]);
        assert(committed.subrange(1, 33) =~= packed.subrange(1, 33));
        assert(committed.subrange(33, 65) =~= packed.subrange(33, 65));
        assert(committed.subrange(65, 97) =~= packed.subrange(65, 97));
        assert(committed.subrange(97, 129) =~= packed.subrange(97, 129));
        assert(committed.subrange(129, 137) =~= packed.subrange(129, 137));
        assert(committed.subrange(137, 145) =~= packed.subrange(137, 145));
    }
}

/// Once executed, an offer is single-use: after a commit, a second
/// execute of the same offer account fails with `InvalidAccountData`,
/// so no second transfer is ever owed.
pub proof fn lemma_no_second_execute(
    program_id: Seq<u8>,
    accounts: Seq<AccountRefV>,
    swap_pair_id: Seq<u8>,
    committed: AccountRefV,
)
    requires
        (spec_commit_swap(committed) is Ok),
        accounts.len() >= 5,
        accounts[1] == spec_commit_swap(committed)->Ok_0,
        accounts[1].key == swap_pair_id,
        accounts[1].owner == program_id,
    ensures
        spec_process_execute(program_id, accounts, swap_pair_id) == Err::<ActionV, EscrowError>(
            EscrowError::InvalidAccountData,
        ),
{
    lemma_commit_terminal(committed);
    lemma_execute_inactive(program_id, accounts, swap_pair_id);
}

} // verus!
