use crate::account::{keys_equal, read_key, Account, Invocation, ProgramError, Pubkey};
use vstd::bytes::{
    lemma_auto_spec_u64_to_from_le_bytes, spec_u64_from_le_bytes, spec_u64_to_le_bytes,
    u64_from_le_bytes, u64_to_le_bytes,
};
use vstd::prelude::*;
use vstd::slice::{slice_subrange, slice_to_vec};
use vstd::string::StringSliceAdditionalSpecFns;

verus! {

/// Domain seed of every counter address.
pub const COUNTER_SEED: &'static str = "counter";

/// The identity stored at the front of a counter record.
pub open spec fn stored_owner(data: Seq<u8>) -> Seq<u8> {
    data.subrange(0, 32)
}

/// The count stored after the identity of a counter record.
pub open spec fn stored_count(data: Seq<u8>) -> u64 {
    spec_u64_from_le_bytes(data.subrange(32, 40))
}

/// The storage bytes of a counter record: the owner, then the count in
/// little-endian order.
pub open spec fn counter_bytes(owner: Seq<u8>, count: u64) -> Seq<u8> {
    owner + spec_u64_to_le_bytes(count)
}

/// On-chain representation of a counter.
#[derive(Debug, Clone, Copy)]
pub struct Counter {
    pub owner: Pubkey,
    pub count: u64,
}

impl Counter {
    /// Size of a counter record in storage.
    pub const LEN: usize = 40;

    /// Writes the record out in its fixed layout.
    pub fn to_bytes(&self) -> (r: Vec<u8>)
        ensures
            r@ == counter_bytes(self.owner@, self.count),
            r@.len() == Counter::LEN,
    {
        proof {
            lemma_auto_spec_u64_to_from_le_bytes();
        }
        let mut out: Vec<u8> = Vec::new();
        let mut i: usize = 0;
        while i < 32
            invariant
                0 <= i <= 32,
                self.owner@.len() == 32,
                out@ == self.owner@.subrange(0, i as int),
            decreases 32 - i,
        {
            out.push(self.owner[i]);
            i = i + 1;
            assert(out@ =~= self.owner@.subrange(0, i as int));
        }
        let count = u64_to_le_bytes(self.count);
        let mut j: usize = 0;
        while j < 8
            invariant
                0 <= j <= 8,
                count@.len() == 8,
                self.owner@.len() == 32,
                out@ == self.owner@ + count@.subrange(0, j as int),
            decreases 8 - j,
        {
            out.push(count[j]);
            j = j + 1;
            assert(out@ =~= self.owner@ + count@.subrange(0, j as int));
        }
        assert(count@.subrange(0, 8) =~= count@);
        out
    }

    /// Reads a record from storage; `None` unless the storage has exactly
    /// the record's size.
    pub fn from_bytes(data: &[u8]) -> (r: Option<Counter>)
        ensures
            r is Some <==> data@.len() == Counter::LEN,
            r matches Some(c) ==> c.owner@ == stored_owner(data@) && c.count == stored_count(data@),
    {
        if data.len() != Counter::LEN {
            return None;
        }
        let owner = read_key(data, 0);
        let count = u64_from_le_bytes(slice_subrange(data, 32, 40));
        Some(Counter { owner, count })
    }
}

/// Reading back a written counter record gives the same owner and count.
pub proof fn lemma_counter_round_trip(owner: Seq<u8>, count: u64)
    requires
        owner.len() == 32,
    ensures
        counter_bytes(owner, count).len() == Counter::LEN,
        stored_owner(counter_bytes(owner, count)) == owner,
        stored_count(counter_bytes(owner, count)) == count,
{
    lemma_auto_spec_u64_to_from_le_bytes();
    let b = counter_bytes(owner, count);
    assert(stored_owner(b) =~= owner);
    assert(b.subrange(32, 40) =~= spec_u64_to_le_bytes(count));
}

/// Counter program instruction discriminators.
#[derive(Debug, Clone, Copy, PartialEq, Eq, Structural)]
pub enum CounterInstruction {
    /// Creates/initializes a counter account for the given user.
    Create,
    /// Increments a counter.
    Increment,
    /// Decrements a counter.
    Decrement,
    /// Deletes/closes a counter account.
    Delete,
}

/// The instruction that a discriminator byte names, if any.
pub open spec fn instruction_of(value: u8) -> Option<CounterInstruction> {
    if value == 0 {
        Some(CounterInstruction::Create)
    } else if value == 1 {
        Some(CounterInstruction::Increment)
    } else if value == 2 {
        Some(CounterInstruction::Decrement)
    } else if value == 3 {
        Some(CounterInstruction::Delete)
    } else {
        None
    }
}

/// The discriminator byte of an instruction.
pub open spec fn discriminator_of(instruction: CounterInstruction) -> u8 {
    match instruction {
        CounterInstruction::Create => 0,
        CounterInstruction::Increment => 1,
        CounterInstruction::Decrement => 2,
        CounterInstruction::Delete => 3,
    }
}

impl CounterInstruction {
    /// Maps a discriminator byte onto an instruction.
    pub fn try_from(value: &u8) -> (r: Result<CounterInstruction, ProgramError>)
        ensures
            instruction_of(*value) matches Some(i) ==> r == Ok::<CounterInstruction, ProgramError>(i),
            instruction_of(*value) is None ==> r == Err::<CounterInstruction, ProgramError>(
                ProgramError::InvalidInstructionData,
            ),
    {
        match *value {
            0 => Ok(CounterInstruction::Create),
            1 => Ok(CounterInstruction::Increment),
            2 => Ok(CounterInstruction::Decrement),
            3 => Ok(CounterInstruction::Delete),
            _ => Err(ProgramError::InvalidInstructionData),
        }
    }

    /// The discriminator byte of the instruction.
    pub fn discriminator(&self) -> (r: u8)
        ensures
            r == discriminator_of(*self),
    {
        match self {
            CounterInstruction::Create => 0,
            CounterInstruction::Increment => 1,
            CounterInstruction::Decrement => 2,
            CounterInstruction::Delete => 3,
        }
    }
}

/// Counter program instruction data.
#[derive(Debug, Clone, Copy, PartialEq, Eq, Structural)]
pub struct CounterInstructionData {
    pub bump: u8,
}

/// What decoding a full counter instruction gives: the instruction and its
/// bump, or `InvalidInstructionData` for an empty input, an unknown
/// discriminator or a payload that is not exactly one byte.
pub open spec fn decoded(data: Seq<u8>) -> Result<(CounterInstruction, u8), ProgramError> {
    if data.len() == 0 {
        Err(ProgramError::InvalidInstructionData)
    } else if instruction_of(data[0]) is None {
        Err(ProgramError::InvalidInstructionData)
    } else if data.len() != 2 {
        Err(ProgramError::InvalidInstructionData)
    } else {
        Ok((instruction_of(data[0])->Some_0, data[1]))
    }
}

/// Splits a full counter instruction into its kind and payload.
pub fn decode_instruction(instruction_data: &[u8]) -> (r: Result<
    (CounterInstruction, CounterInstructionData),
    ProgramError,
>)
    ensures
        r is Ok <==> decoded(instruction_data@) is Ok,
        r matches Ok((i, d)) ==> decoded(instruction_data@) == Ok::<
            (CounterInstruction, u8),
            ProgramError,
        >((i, d.bump)),
        r matches Err(e) ==> e == ProgramError::InvalidInstructionData,
{
    if instruction_data.len() == 0 {
        return Err(ProgramError::InvalidInstructionData);
    }
    let instruction = CounterInstruction::try_from(&instruction_data[0])?;
    if instruction_data.len() != 2 {
        return Err(ProgramError::InvalidInstructionData);
    }
    Ok((instruction, CounterInstructionData { bump: instruction_data[1] }))
}

/// Writes a full counter instruction: discriminator, then payload.
pub fn encode_instruction(instruction: CounterInstruction, data: &CounterInstructionData) -> (r: Vec<u8>)
    ensures
        r@ == seq![discriminator_of(instruction), data.bump],
{
    let mut out: Vec<u8> = Vec::new();
    out.push(instruction.discriminator());
    out.push(data.bump);
    out
}

/// Decoding an encoded counter instruction gives back its kind and bump.
pub proof fn lemma_instruction_round_trip(instruction: CounterInstruction, bump: u8)
    ensures
        decoded(seq![discriminator_of(instruction), bump]) == Ok::<
            (CounterInstruction, u8),
            ProgramError,
        >((instruction, bump)),
{
}

/// The checks that guard every change to an existing counter: its storage
/// belongs to this program, holds a counter record, and that record was
/// created by `owner_key`.
pub open spec fn counter_access(program_id: Seq<u8>, owner_key: Seq<u8>, counter: Account) -> Result<
    (),
    ProgramError,
> {
    if counter.owner@ != program_id {
        Err(ProgramError::IllegalOwner)
    } else if counter.data@.len() != Counter::LEN {
        Err(ProgramError::InvalidAccountData)
    } else if stored_owner(counter.data@) != owner_key {
        Err(ProgramError::IllegalOwner)
    } else {
        Ok(())
    }
}

/// `a` and `b` agree on everything but their storage bytes.
pub open spec fn same_but_data(a: Account, b: Account) -> bool {
    &&& a.key == b.key
    &&& a.owner == b.owner
    &&& a.is_signer == b.is_signer
    &&& a.is_writable == b.is_writable
    &&& a.lamports == b.lamports
}

/// `after` is `before` once a counter record owned by `owner_key` has been
/// created in it for the program `program_id`.
pub open spec fn created(program_id: Seq<u8>, owner_key: Seq<u8>, before: Account, after: Account) -> bool {
    &&& after.data@ == counter_bytes(owner_key, 0)
    &&& after.owner@ == program_id
    &&& after.key == before.key
    &&& after.is_signer == before.is_signer
    &&& after.is_writable == before.is_writable
    &&& after.lamports == before.lamports
}

/// `after` is `before` with the stored count replaced by `count`.
pub open spec fn recounted(before: Account, after: Account, count: u64) -> bool {
    &&& same_but_data(after, before)
    &&& after.data@ == counter_bytes(stored_owner(before.data@), count)
}

/// The owner's and the counter's accounts after the counter's whole balance
/// moved to the owner (saturating); nothing else changes.
pub open spec fn closed(owner_before: Account, owner_after: Account, counter_before: Account, counter_after: Account) -> bool {
    &&& owner_after.lamports == owner_before.lamports.saturating_add(counter_before.lamports)
    &&& counter_after.lamports == 0
    &&& owner_after.data == owner_before.data
    &&& counter_after.data == counter_before.data
    &&& owner_after.key == owner_before.key
    &&& owner_after.owner == owner_before.owner
    &&& owner_after.is_signer == owner_before.is_signer
    &&& owner_after.is_writable == owner_before.is_writable
    &&& counter_after.key == counter_before.key
    &&& counter_after.owner == counter_before.owner
    &&& counter_after.is_signer == counter_before.is_signer
    &&& counter_after.is_writable == counter_before.is_writable
}

/// Runs the checks of `counter_access` and hands back the stored record.
fn authorize(program_id: &Pubkey, owner: &Account, counter: &Account) -> (r: Result<Counter, ProgramError>)
    ensures
        r is Ok <==> counter_access(program_id@, owner.key@, *counter) is Ok,
        r matches Err(e) ==> counter_access(program_id@, owner.key@, *counter) == Err::<(), ProgramError>(e),
        r matches Ok(c) ==> c.owner@ == stored_owner(counter.data@) && c.count == stored_count(counter.data@),
{
    if !keys_equal(&counter.owner, program_id) {
        return Err(ProgramError::IllegalOwner);
    }
    let record = match Counter::from_bytes(counter.data.as_slice()) {
        Some(c) => c,
        None => {
            return Err(ProgramError::InvalidAccountData);
        },
    };
    if !keys_equal(&record.owner, &owner.key) {
        return Err(ProgramError::IllegalOwner);
    }
    Ok(record)
}

/// Creates/initializes a counter account for the given user: asks for
/// storage of the record's size funded with `minimum_balance`, and writes a
/// record with the user as owner and a count of zero. A counter account
/// that already has storage is refused with `AccountAlreadyInitialized` and
/// left as it is, so a record once written keeps its owner.
pub fn process_create(
    program_id: &Pubkey,
    owner: &Account,
    counter: &mut Account,
    minimum_balance: u64,
) -> (r: Result<Invocation, ProgramError>)
    ensures
        r is Ok <==> old(counter).data@.len() == 0,
        r is Err ==> r == Err::<Invocation, ProgramError>(ProgramError::AccountAlreadyInitialized)
            && *final(counter) == *old(counter),
        r is Ok ==> r == Ok::<Invocation, ProgramError>(
            Invocation::CreateAccount {
                from: owner.key,
                to: old(counter).key,
                lamports: minimum_balance,
                space: Counter::LEN as u64,
                owner: *program_id,
            },
        ) && created(program_id@, owner.key@, *old(counter), *final(counter)),
{
    if counter.data.len() != 0 {
        return Err(ProgramError::AccountAlreadyInitialized);
    }
    let create = Invocation::CreateAccount {
        from: owner.key,
        to: counter.key,
        lamports: minimum_balance,
        space: Counter::LEN as u64,
        owner: *program_id,
    };
    let record = Counter { owner: owner.key, count: 0 };
    counter.data = record.to_bytes();
    counter.owner = *program_id;
    Ok(create)
}

/// Increments a counter, saturating at the largest count.
pub fn process_increment(program_id: &Pubkey, owner: &Account, counter: &mut Account) -> (r: Result<
    (),
    ProgramError,
>)
    ensures
        r == counter_access(program_id@, owner.key@, *old(counter)),
        r is Err ==> *final(counter) == *old(counter),
        r is Ok ==> recounted(
            *old(counter),
            *final(counter),
            stored_count(old(counter).data@).saturating_add(1),
        ),
{
    let record = authorize(program_id, owner, counter)?;
    let updated = Counter { owner: record.owner, count: record.count.saturating_add(1) };
    counter.data = updated.to_bytes();
    Ok(())
}

/// Decrements a counter, saturating at zero.
pub fn process_decrement(program_id: &Pubkey, owner: &Account, counter: &mut Account) -> (r: Result<
    (),
    ProgramError,
>)
    ensures
        r == counter_access(program_id@, owner.key@, *old(counter)),
        r is Err ==> *final(counter) == *old(counter),
        r is Ok ==> recounted(
            *old(counter),
            *final(counter),
            stored_count(old(counter).data@).saturating_sub(1),
        ),
{
    let record = authorize(program_id, owner, counter)?;
    let updated = Counter { owner: record.owner, count: record.count.saturating_sub(1) };
    counter.data = updated.to_bytes();
    Ok(())
}

/// Deletes/closes a counter account: its whole balance moves to the owner
/// (saturating) and its own balance becomes zero.
pub fn process_delete(program_id: &Pubkey, owner: &mut Account, counter: &mut Account) -> (r: Result<
    (),
    ProgramError,
>)
    ensures
        r == counter_access(program_id@, old(owner).key@, *old(counter)),
        r is Err ==> *final(counter) == *old(counter) && *final(owner) == *old(owner),
        r is Ok ==> closed(*old(owner), *final(owner), *old(counter), *final(counter)),
{
    authorize(program_id, owner, counter)?;
    owner.lamports = owner.lamports.saturating_add(counter.lamports);
    counter.lamports = 0;
    Ok(())
}

/// The seeds that a counter's address is derived from: the domain seed,
/// the owner's identity and the bump byte.
pub open spec fn counter_seeds_of(owner: Seq<u8>, bump: u8) -> Seq<Seq<u8>> {
    seq![COUNTER_SEED.spec_bytes(), owner, seq![bump]]
}

/// Builds the seeds of the counter owned by `owner` with the given bump.
pub fn counter_seeds(owner: &Pubkey, bump: u8) -> (r: Vec<Vec<u8>>)
    ensures
        r@.len() == 3,
        forall|i: int| 0 <= i < 3 ==> #[trigger] r@[i]@ == counter_seeds_of(owner@, bump)[i],
{
    let mut seeds: Vec<Vec<u8>> = Vec::new();
    seeds.push(slice_to_vec(COUNTER_SEED.as_bytes()));
    seeds.push(slice_to_vec(owner.as_slice()));
    seeds.push(vec![bump]);
    seeds
}

/// The seeds of the counter address that an instruction names: those of
/// the first account with the instruction's bump; `None` where there is no
/// account or the instruction does not decode.
pub fn derivation_seeds(accounts: &[Account], instruction_data: &[u8]) -> (r: Option<Vec<Vec<u8>>>)
    ensures
        r is Some <==> accounts@.len() >= 1 && decoded(instruction_data@) is Ok,
        r matches Some(seeds) ==> seeds@.len() == 3 && forall|i: int|
            0 <= i < 3 ==> #[trigger] seeds@[i]@ == counter_seeds_of(
                accounts@[0].key@,
                decoded(instruction_data@)->Ok_0.1,
            )[i],
{
    if accounts.len() < 1 {
        return None;
    }
    match decode_instruction(instruction_data) {
        Ok((_, data)) => Some(counter_seeds(&accounts[0].key, data.bump)),
        Err(_) => None,
    }
}

/// Everything a counter instruction checks before its handler runs, in
/// order: an owner account that signed, three accounts in all, a well-formed
/// instruction, and a counter account whose address is the one that
/// `derived` holds. Gives the instruction to run.
pub open spec fn counter_gate(
    accounts: Seq<Account>,
    data: Seq<u8>,
    derived: Result<Pubkey, ProgramError>,
) -> Result<CounterInstruction, ProgramError> {
    if accounts.len() < 1 {
        Err(ProgramError::NotEnoughAccountKeys)
    } else if !accounts[0].is_signer {
        Err(ProgramError::MissingRequiredSignature)
    } else if accounts.len() < 3 {
        Err(ProgramError::NotEnoughAccountKeys)
    } else if decoded(data) is Err {
        Err(ProgramError::InvalidInstructionData)
    } else if derived is Err {
        Err(derived->Err_0)
    } else if derived->Ok_0@ != accounts[1].key@ {
        Err(ProgramError::InvalidSeeds)
    } else {
        Ok(decoded(data)->Ok_0.0)
    }
}

/// Entry point of the counter program.
///
/// `accounts` are the owner, the counter and the account-creation service,
/// in that order. `derived` is what the runtime gave when asked for the
/// program address of `counter_seeds(owner, bump)` under `program_id`, with
/// the owner's key and the instruction's bump. `minimum_balance` is the
/// balance the ledger asks of storage of `Counter::LEN` bytes.
///
/// On success the result lists the requests that the runtime is to carry
/// out, and `accounts` holds what the program wrote; on failure nothing
/// changed.
pub fn process_instruction(
    program_id: &Pubkey,
    accounts: &mut Vec<Account>,
    instruction_data: &[u8],
    derived: Result<Pubkey, ProgramError>,
    minimum_balance: u64,
) -> (r: Result<Vec<Invocation>, ProgramError>)
    ensures
        counter_gate(old(accounts)@, instruction_data@, derived) matches Err(e) ==> r == Err::<
            Vec<Invocation>,
            ProgramError,
        >(e),
        r is Err ==> final(accounts)@ == old(accounts)@,
        final(accounts)@.len() == old(accounts)@.len(),
        forall|i: int|
            0 <= i < old(accounts)@.len() && i != 0 && i != 1 ==> #[trigger] final(accounts)@[i]
                == old(accounts)@[i],
        counter_gate(old(accounts)@, instruction_data@, derived) == Ok::<
            CounterInstruction,
            ProgramError,
        >(CounterInstruction::Create) ==> {
            &&& r is Ok <==> old(accounts)@[1].data@.len() == 0
            &&& r is Err ==> r == Err::<Vec<Invocation>, ProgramError>(
                ProgramError::AccountAlreadyInitialized,
            )
            &&& r matches Ok(v) ==> v@ == seq![
                Invocation::CreateAccount {
                    from: old(accounts)@[0].key,
                    to: old(accounts)@[1].key,
                    lamports: minimum_balance,
                    space: Counter::LEN as u64,
                    owner: *program_id,
                },
            ] && final(accounts)@[0] == old(accounts)@[0] && created(
                program_id@,
                old(accounts)@[0].key@,
                old(accounts)@[1],
                final(accounts)@[1],
            )
        },
        counter_gate(old(accounts)@, instruction_data@, derived) == Ok::<
            CounterInstruction,
            ProgramError,
        >(CounterInstruction::Increment) ==> {
            &&& r matches Err(e) ==> counter_access(program_id@, old(accounts)@[0].key@, old(accounts)@[1])
                == Err::<(), ProgramError>(e)
            &&& r matches Ok(v) ==> v@.len() == 0 && final(accounts)@[0] == old(accounts)@[0]
                && recounted(
                old(accounts)@[1],
                final(accounts)@[1],
                stored_count(old(accounts)@[1].data@).saturating_add(1),
            )
            &&& r is Ok <==> counter_access(program_id@, old(accounts)@[0].key@, old(accounts)@[1]) is Ok
        },
        counter_gate(old(accounts)@, instruction_data@, derived) == Ok::<
            CounterInstruction,
            ProgramError,
        >(CounterInstruction::Decrement) ==> {
            &&& r matches Err(e) ==> counter_access(program_id@, old(accounts)@[0].key@, old(accounts)@[1])
                == Err::<(), ProgramError>(e)
            &&& r matches Ok(v) ==> v@.len() == 0 && final(accounts)@[0] == old(accounts)@[0]
                && recounted(
                old(accounts)@[1],
                final(accounts)@[1],
                stored_count(old(accounts)@[1].data@).saturating_sub(1),
            )
            &&& r is Ok <==> counter_access(program_id@, old(accounts)@[0].key@, old(accounts)@[1]) is Ok
        },
        counter_gate(old(accounts)@, instruction_data@, derived) == Ok::<
            CounterInstruction,
            ProgramError,
        >(CounterInstruction::Delete) ==> {
            &&& r matches Err(e) ==> counter_access(program_id@, old(accounts)@[0].key@, old(accounts)@[1])
                == Err::<(), ProgramError>(e)
            &&& r matches Ok(v) ==> v@.len() == 0 && closed(
                old(accounts)@[0],
                final(accounts)@[0],
                old(accounts)@[1],
                final(accounts)@[1],
            )
            &&& r is Ok <==> counter_access(program_id@, old(accounts)@[0].key@, old(accounts)@[1]) is Ok
        },
{
    if accounts.len() < 1 {
        return Err(ProgramError::NotEnoughAccountKeys);
    }
    if !accounts[0].is_signer {
        return Err(ProgramError::MissingRequiredSignature);
    }
    if accounts.len() < 3 {
        return Err(ProgramError::NotEnoughAccountKeys);
    }
    let (instruction, _payload) = decode_instruction(instruction_data)?;
    let counter_pda = derived?;
    if !keys_equal(&accounts[1].key, &counter_pda) {
        return Err(ProgramError::InvalidSeeds);
    }
    let ghost before = accounts@;
    let mut counter = accounts.remove(1);
    let mut owner = accounts.remove(0);
    let result = match instruction {
        CounterInstruction::Create => {
            match process_create(program_id, &owner, &mut counter, minimum_balance) {
                Ok(create) => Ok(vec![create]),
                Err(e) => Err(e),
            }
        },
        CounterInstruction::Increment => match process_increment(program_id, &owner, &mut counter) {
            Ok(()) => Ok(Vec::new()),
            Err(e) => Err(e),
        },
        CounterInstruction::Decrement => match process_decrement(program_id, &owner, &mut counter) {
            Ok(()) => Ok(Vec::new()),
            Err(e) => Err(e),
        },
        CounterInstruction::Delete => match process_delete(program_id, &mut owner, &mut counter) {
            Ok(()) => Ok(Vec::new()),
            Err(e) => Err(e),
        },
    };
    accounts.insert(0, owner);
    accounts.insert(1, counter);
    assert(accounts@ =~= before.update(0, accounts@[0]).update(1, accounts@[1]));
    proof {
        if result is Err {
            assert(accounts@ =~= before);
        }
    }
    result
}

/// A counter instruction reaches its handler only with the counter account
/// whose address the runtime derived from the owner and the bump; with any
/// other derived address it is refused with `InvalidSeeds`.
pub proof fn lemma_counter_address_binding(
    accounts: Seq<Account>,
    data: Seq<u8>,
    derived: Result<Pubkey, ProgramError>,
)
    requires
        accounts.len() >= 3,
        accounts[0].is_signer,
        decoded(data) is Ok,
    ensures
        counter_gate(accounts, data, derived) is Ok <==> (derived matches Ok(k) && k@
            == accounts[1].key@),
        derived matches Ok(k) && k@ != accounts[1].key@ ==> counter_gate(accounts, data, derived)
            == Err::<CounterInstruction, ProgramError>(ProgramError::InvalidSeeds),
{
}

/// A counter whose stored owner is not the invoking account cannot be
/// incremented, decremented or deleted: the checks fail with `IllegalOwner`,
/// whoever signed.
pub proof fn lemma_foreign_owner_rejected(program_id: Seq<u8>, owner_key: Seq<u8>, counter: Account)
    requires
        counter.data@.len() == Counter::LEN,
        stored_owner(counter.data@) != owner_key,
    ensures
        counter_access(program_id, owner_key, counter) == Err::<(), ProgramError>(
            ProgramError::IllegalOwner,
        ),
{
}

/// Incrementing a counter at the largest count leaves it there, and
/// decrementing a counter at zero leaves it at zero.
pub proof fn lemma_counter_saturates(before: Account, after: Account)
    requires
        before.data@.len() == Counter::LEN,
    ensures
        stored_count(before.data@) == u64::MAX && recounted(
            before,
            after,
            stored_count(before.data@).saturating_add(1),
        ) ==> stored_count(after.data@) == u64::MAX,
        stored_count(before.data@) == 0 && recounted(
            before,
            after,
            stored_count(before.data@).saturating_sub(1),
        ) ==> stored_count(after.data@) == 0,
{
    lemma_counter_round_trip(stored_owner(before.data@), u64::MAX);
    lemma_counter_round_trip(stored_owner(before.data@), 0);
}

} // verus!
