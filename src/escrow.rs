use crate::account::{keys_equal, read_key, Account, Invocation, ProgramError, Pubkey};
use vstd::bytes::{
    lemma_auto_spec_u64_to_from_le_bytes, spec_u64_from_le_bytes, spec_u64_to_le_bytes,
    u64_from_le_bytes, u64_to_le_bytes,
};
use vstd::prelude::*;
use vstd::slice::{slice_subrange, slice_to_vec};
use vstd::string::StringSliceAdditionalSpecFns;

verus! {

/// Domain seed of every escrow address.
pub const ESCROW_SEED: &'static str = "escrow";

/// Size of a token account's storage in the token program's layout.
pub const TOKEN_ACCOUNT_LEN: usize = 165;

/// The address of the token program.
pub open spec fn token_program_address() -> Seq<u8> {
    seq![
        6u8, 221, 246, 225, 215, 101, 161, 147, 217, 203, 225, 70, 206, 235, 121, 172,
        28, 180, 133, 237, 95, 91, 55, 145, 58, 140, 245, 133, 126, 255, 0, 169,
    ]
}

/// Relies on pinocchio_token::ID: the address of the token program, which
/// owns every token account.
#[verifier::external_body]
fn token_program_id() -> (r: Pubkey)
    ensures
        r@ == token_program_address(),
{
    pinocchio_token::ID
}

/// Relies on pinocchio_token::state::TokenAccount::LEN: the size of a token
/// account's storage.
#[verifier::external_body]
fn token_account_len() -> (r: usize)
    ensures
        r == TOKEN_ACCOUNT_LEN,
{
    pinocchio_token::state::TokenAccount::LEN
}

/// Whether `ata` is a token account whose holder is `holder`: it has the
/// token account layout and belongs to the token program (else
/// `InvalidAccountData`), and its holder field, 32 bytes after the mint,
/// is `holder` (else `IllegalOwner`).
pub open spec fn token_holder_check(ata: Account, holder: Seq<u8>) -> Result<(), ProgramError> {
    if ata.data@.len() != TOKEN_ACCOUNT_LEN || ata.owner@ != token_program_address() {
        Err(ProgramError::InvalidAccountData)
    } else if ata.data@.subrange(32, 64) != holder {
        Err(ProgramError::IllegalOwner)
    } else {
        Ok(())
    }
}

/// Checks that `ata` is a token account held by `holder`.
pub fn check_token_holder(ata: &Account, holder: &Pubkey) -> (r: Result<(), ProgramError>)
    ensures
        r == token_holder_check(*ata, holder@),
{
    if ata.data.len() != token_account_len() {
        return Err(ProgramError::InvalidAccountData);
    }
    let token_program = token_program_id();
    if !keys_equal(&ata.owner, &token_program) {
        return Err(ProgramError::InvalidAccountData);
    }
    let stored = read_key(ata.data.as_slice(), 32);
    if !keys_equal(&stored, holder) {
        return Err(ProgramError::IllegalOwner);
    }
    Ok(())
}

/// The sender stored at the front of an escrow record.
pub open spec fn stored_sender(data: Seq<u8>) -> Seq<u8> {
    data.subrange(0, 32)
}

/// The receiver stored after the sender in an escrow record.
pub open spec fn stored_receiver(data: Seq<u8>) -> Seq<u8> {
    data.subrange(32, 64)
}

/// The amount stored at the end of an escrow record.
pub open spec fn stored_amount(data: Seq<u8>) -> u64 {
    spec_u64_from_le_bytes(data.subrange(64, 72))
}

/// The storage bytes of an escrow record: sender, receiver, then the amount
/// in little-endian order.
pub open spec fn escrow_bytes(sender: Seq<u8>, receiver: Seq<u8>, amount: u64) -> Seq<u8> {
    sender + receiver + spec_u64_to_le_bytes(amount)
}

/// On-chain representation of an escrow.
#[derive(Debug, Clone, Copy)]
pub struct Escrow {
    pub sender: Pubkey,
    pub receiver: Pubkey,
    pub amount: u64,
}

impl Escrow {
    /// Size of an escrow record in storage.
    pub const LEN: usize = 72;

    /// Writes the record out in its fixed layout.
    pub fn to_bytes(&self) -> (r: Vec<u8>)
        ensures
            r@ == escrow_bytes(self.sender@, self.receiver@, self.amount),
            r@.len() == Escrow::LEN,
    {
        proof {
            lemma_auto_spec_u64_to_from_le_bytes();
        }
        let mut out: Vec<u8> = Vec::new();
        let mut i: usize = 0;
        while i < 32
            invariant
                0 <= i <= 32,
                self.sender@.len() == 32,
                out@ == self.sender@.subrange(0, i as int),
            decreases 32 - i,
        {
            out.push(self.sender[i]);
            i = i + 1;
            assert(out@ =~= self.sender@.subrange(0, i as int));
        }
        assert(self.sender@.subrange(0, 32) =~= self.sender@);
        let mut j: usize = 0;
        while j < 32
            invariant
                0 <= j <= 32,
                self.receiver@.len() == 32,
                out@ == self.sender@ + self.receiver@.subrange(0, j as int),
            decreases 32 - j,
        {
            out.push(self.receiver[j]);
            j = j + 1;
            assert(out@ =~= self.sender@ + self.receiver@.subrange(0, j as int));
        }
        assert(self.receiver@.subrange(0, 32) =~= self.receiver@);
        let amount = u64_to_le_bytes(self.amount);
        let mut k: usize = 0;
        while k < 8
            invariant
                0 <= k <= 8,
                amount@.len() == 8,
                self.sender@.len() == 32,
                self.receiver@.len() == 32,
                out@ == self.sender@ + self.receiver@ + amount@.subrange(0, k as int),
            decreases 8 - k,
        {
            out.push(amount[k]);
            k = k + 1;
            assert(out@ =~= self.sender@ + self.receiver@ + amount@.subrange(0, k as int));
        }
        assert(amount@.subrange(0, 8) =~= amount@);
        out
    }

    /// Reads a record from storage; `None` unless the storage has exactly
    /// the record's size.
    pub fn from_bytes(data: &[u8]) -> (r: Option<Escrow>)
        ensures
            r is Some <==> data@.len() == Escrow::LEN,
            r matches Some(e) ==> e.sender@ == stored_sender(data@) && e.receiver@
                == stored_receiver(data@) && e.amount == stored_amount(data@),
    {
        if data.len() != Escrow::LEN {
            return None;
        }
        let sender = read_key(data, 0);
        let receiver = read_key(data, 32);
        let amount = u64_from_le_bytes(slice_subrange(data, 64, 72));
        Some(Escrow { sender, receiver, amount })
    }
}

/// Reading back a written escrow record gives the same sender, receiver and
/// amount.
pub proof fn lemma_escrow_round_trip(sender: Seq<u8>, receiver: Seq<u8>, amount: u64)
    requires
        sender.len() == 32,
        receiver.len() == 32,
    ensures
        escrow_bytes(sender, receiver, amount).len() == Escrow::LEN,
        stored_sender(escrow_bytes(sender, receiver, amount)) == sender,
        stored_receiver(escrow_bytes(sender, receiver, amount)) == receiver,
        stored_amount(escrow_bytes(sender, receiver, amount)) == amount,
{
    lemma_auto_spec_u64_to_from_le_bytes();
    let b = escrow_bytes(sender, receiver, amount);
    assert(stored_sender(b) =~= sender);
    assert(stored_receiver(b) =~= receiver);
    assert(b.subrange(64, 72) =~= spec_u64_to_le_bytes(amount));
}

/// Escrow program instruction discriminators.
#[derive(Debug, Clone, Copy, PartialEq, Eq, Structural)]
pub enum EscrowInstruction {
    /// Creates an escrow record and deposits the sender's tokens.
    Initialize,
    /// Pays the deposit out to the receiver.
    Exchange,
    /// Refunds the deposit to the sender.
    Cancel,
}

/// The instruction that a discriminator byte names, if any.
pub open spec fn instruction_of(value: u8) -> Option<EscrowInstruction> {
    if value == 0 {
        Some(EscrowInstruction::Initialize)
    } else if value == 1 {
        Some(EscrowInstruction::Exchange)
    } else if value == 2 {
        Some(EscrowInstruction::Cancel)
    } else {
        None
    }
}

/// The discriminator byte of an instruction.
pub open spec fn discriminator_of(instruction: EscrowInstruction) -> u8 {
    match instruction {
        EscrowInstruction::Initialize => 0,
        EscrowInstruction::Exchange => 1,
        EscrowInstruction::Cancel => 2,
    }
}

impl EscrowInstruction {
    /// Maps a discriminator byte onto an instruction.
    pub fn try_from(value: &u8) -> (r: Result<EscrowInstruction, ProgramError>)
        ensures
            instruction_of(*value) matches Some(i) ==> r == Ok::<EscrowInstruction, ProgramError>(i),
            instruction_of(*value) is None ==> r == Err::<EscrowInstruction, ProgramError>(
                ProgramError::InvalidInstructionData,
            ),
    {
        match *value {
            0 => Ok(EscrowInstruction::Initialize),
            1 => Ok(EscrowInstruction::Exchange),
            2 => Ok(EscrowInstruction::Cancel),
            _ => Err(ProgramError::InvalidInstructionData),
        }
    }

    /// The discriminator byte of the instruction.
    pub fn discriminator(&self) -> (r: u8)
        ensures
            r == discriminator_of(*self),
    {
        match self {
            EscrowInstruction::Initialize => 0,
            EscrowInstruction::Exchange => 1,
            EscrowInstruction::Cancel => 2,
        }
    }
}

/// The amount at the front of an Initialize payload.
pub open spec fn payload_amount(payload: Seq<u8>) -> u64 {
    spec_u64_from_le_bytes(payload.subrange(0, 8))
}

/// Payload of Initialize: the amount to deposit, the escrow's bump, and
/// padding up to a multiple of eight bytes.
#[derive(Debug, Clone, Copy)]
pub struct InitializeInstructionData {
    pub amount: u64,
    pub bump: u8,
    pub _padding: [u8; 7],
}

impl InitializeInstructionData {
    /// Size of the payload.
    pub const LEN: usize = 16;

    pub fn new(amount: u64, bump: u8) -> (r: Self)
        ensures
            r.amount == amount,
            r.bump == bump,
            r._padding@ == seq![0u8; 7],
    {
        let r = InitializeInstructionData { amount, bump, _padding: [0u8; 7] };
        assert(r._padding@ =~= seq![0u8; 7]);
        r
    }

    /// Writes the payload: the amount in little-endian order, the bump,
    /// then the padding.
    pub fn to_bytes(&self) -> (r: Vec<u8>)
        ensures
            r@ == spec_u64_to_le_bytes(self.amount) + seq![self.bump] + self._padding@,
            r@.len() == InitializeInstructionData::LEN,
            payload_amount(r@) == self.amount,
            r@[8] == self.bump,
    {
        proof {
            lemma_auto_spec_u64_to_from_le_bytes();
        }
        let amount = u64_to_le_bytes(self.amount);
        let mut out: Vec<u8> = Vec::new();
        let mut i: usize = 0;
        while i < 8
            invariant
                0 <= i <= 8,
                amount@.len() == 8,
                out@ == amount@.subrange(0, i as int),
            decreases 8 - i,
        {
            out.push(amount[i]);
            i = i + 1;
            assert(out@ =~= amount@.subrange(0, i as int));
        }
        assert(amount@.subrange(0, 8) =~= amount@);
        out.push(self.bump);
        let mut j: usize = 0;
        while j < 7
            invariant
                0 <= j <= 7,
                self._padding@.len() == 7,
                amount@.len() == 8,
                out@ == amount@ + seq![self.bump] + self._padding@.subrange(0, j as int),
            decreases 7 - j,
        {
            out.push(self._padding[j]);
            j = j + 1;
            assert(out@ =~= amount@ + seq![self.bump] + self._padding@.subrange(0, j as int));
        }
        assert(self._padding@.subrange(0, 7) =~= self._padding@);
        assert(out@.subrange(0, 8) =~= amount@);
        out
    }

    /// Reads the payload; `None` unless it has exactly the payload's size.
    pub fn from_bytes(payload: &[u8]) -> (r: Option<Self>)
        ensures
            r is Some <==> payload@.len() == InitializeInstructionData::LEN,
            r matches Some(d) ==> d.amount == payload_amount(payload@) && d.bump == payload@[8]
                && d._padding@ == payload@.subrange(9, 16),
    {
        if payload.len() != InitializeInstructionData::LEN {
            return None;
        }
        let amount = u64_from_le_bytes(slice_subrange(payload, 0, 8));
        let mut padding: [u8; 7] = [0u8; 7];
        let mut i: usize = 0;
        while i < 7
            invariant
                0 <= i <= 7,
                payload@.len() == 16,
                padding@.len() == 7,
                forall|j: int| 0 <= j < i ==> padding@[j] == payload@[9 + j],
            decreases 7 - i,
        {
            padding[i] = payload[9 + i];
            i = i + 1;
        }
        assert(padding@ =~= payload@.subrange(9, 16));
        Some(InitializeInstructionData { amount, bump: payload[8], _padding: padding })
    }
}

/// Payload of Exchange and Cancel: the escrow's bump.
#[derive(Debug, Clone, Copy, PartialEq, Eq, Structural)]
pub struct FinalizeInstructionData {
    pub bump: u8,
}

impl FinalizeInstructionData {
    /// Size of the payload.
    pub const LEN: usize = 1;

    pub fn new(bump: u8) -> (r: Self)
        ensures
            r.bump == bump,
    {
        FinalizeInstructionData { bump }
    }

    /// Writes the payload.
    pub fn to_bytes(&self) -> (r: Vec<u8>)
        ensures
            r@ == seq![self.bump],
    {
        vec![self.bump]
    }

    /// Reads the payload; `None` unless it is exactly one byte.
    pub fn from_bytes(payload: &[u8]) -> (r: Option<Self>)
        ensures
            r is Some <==> payload@.len() == FinalizeInstructionData::LEN,
            r matches Some(d) ==> d.bump == payload@[0],
    {
        if payload.len() != FinalizeInstructionData::LEN {
            return None;
        }
        Some(FinalizeInstructionData { bump: payload[0] })
    }
}

/// The seeds that an escrow's address is derived from: the domain seed,
/// the sender's and the receiver's identities, and the bump byte.
pub open spec fn escrow_seeds_of(sender: Seq<u8>, receiver: Seq<u8>, bump: u8) -> Seq<Seq<u8>> {
    seq![ESCROW_SEED.spec_bytes(), sender, receiver, seq![bump]]
}

/// Builds the seeds of the escrow between `sender` and `receiver` with the
/// given bump.
pub fn escrow_seeds(sender: &Pubkey, receiver: &Pubkey, bump: u8) -> (r: Vec<Vec<u8>>)
    ensures
        r@.len() == 4,
        forall|i: int| 0 <= i < 4 ==> #[trigger] r@[i]@ == escrow_seeds_of(sender@, receiver@, bump)[i],
{
    let mut seeds: Vec<Vec<u8>> = Vec::new();
    seeds.push(slice_to_vec(ESCROW_SEED.as_bytes()));
    seeds.push(slice_to_vec(sender.as_slice()));
    seeds.push(slice_to_vec(receiver.as_slice()));
    seeds.push(vec![bump]);
    seeds
}

/// The bump that a payload of the given instruction carries, if the payload
/// has that instruction's size.
pub open spec fn payload_bump(instruction: EscrowInstruction, payload: Seq<u8>) -> Option<u8> {
    match instruction {
        EscrowInstruction::Initialize => if payload.len() == InitializeInstructionData::LEN {
            Some(payload[8])
        } else {
            None
        },
        _ => if payload.len() == FinalizeInstructionData::LEN {
            Some(payload[0])
        } else {
            None
        },
    }
}

/// The seeds of the escrow address that an instruction names: the sender is
/// the first account; the receiver is the second for Exchange and the third
/// otherwise; the bump comes from the payload. `None` where there are not
/// seven accounts or the instruction does not decode.
pub fn derivation_seeds(accounts: &[Account], instruction_data: &[u8]) -> (r: Option<Vec<Vec<u8>>>)
    ensures
        r is Some <==> {
            &&& accounts@.len() == 7
            &&& instruction_data@.len() > 0
            &&& instruction_of(instruction_data@[0]) is Some
            &&& payload_bump(
                instruction_of(instruction_data@[0])->Some_0,
                instruction_data@.subrange(1, instruction_data@.len() as int),
            ) is Some
        },
        r matches Some(seeds) ==> {
            let instruction = instruction_of(instruction_data@[0])->Some_0;
            let bump = payload_bump(
                instruction,
                instruction_data@.subrange(1, instruction_data@.len() as int),
            )->Some_0;
            let receiver = if instruction == EscrowInstruction::Exchange {
                accounts@[1].key@
            } else {
                accounts@[2].key@
            };
            &&& seeds@.len() == 4
            &&& forall|i: int|
                0 <= i < 4 ==> #[trigger] seeds@[i]@ == escrow_seeds_of(accounts@[0].key@, receiver, bump)[i]
        },
{
    if accounts.len() != 7 || instruction_data.len() == 0 {
        return None;
    }
    let instruction = match EscrowInstruction::try_from(&instruction_data[0]) {
        Ok(i) => i,
        Err(_) => {
            return None;
        },
    };
    let payload = slice_subrange(instruction_data, 1, instruction_data.len());
    match instruction {
        EscrowInstruction::Initialize => match InitializeInstructionData::from_bytes(payload) {
            Some(d) => Some(escrow_seeds(&accounts[0].key, &accounts[2].key, d.bump)),
            None => None,
        },
        EscrowInstruction::Exchange => match FinalizeInstructionData::from_bytes(payload) {
            Some(d) => Some(escrow_seeds(&accounts[0].key, &accounts[1].key, d.bump)),
            None => None,
        },
        EscrowInstruction::Cancel => match FinalizeInstructionData::from_bytes(payload) {
            Some(d) => Some(escrow_seeds(&accounts[0].key, &accounts[2].key, d.bump)),
            None => None,
        },
    }
}

/// The address check of every escrow handler: `derived` is an address, and
/// it is the escrow account's.
pub open spec fn address_check(derived: Result<Pubkey, ProgramError>, escrow: Account) -> Result<
    (),
    ProgramError,
> {
    if derived is Err {
        Err(derived->Err_0)
    } else if derived->Ok_0@ != escrow.key@ {
        Err(ProgramError::InvalidSeeds)
    } else {
        Ok(())
    }
}

fn check_address(derived: Result<Pubkey, ProgramError>, escrow: &Account) -> (r: Result<(), ProgramError>)
    ensures
        r == address_check(derived, *escrow),
{
    let escrow_pda = derived?;
    if !keys_equal(&escrow.key, &escrow_pda) {
        return Err(ProgramError::InvalidSeeds);
    }
    Ok(())
}

/// The checks of Initialize, in order, over the accounts
/// `[sender, sender token account, receiver, escrow, escrow token account,
/// account-creation service, token service]` and the payload; the escrow
/// account must not have storage yet. Gives the amount to deposit.
pub open spec fn initialize_check(
    accounts: Seq<Account>,
    payload: Seq<u8>,
    derived: Result<Pubkey, ProgramError>,
) -> Result<u64, ProgramError> {
    if accounts.len() != 7 {
        Err(ProgramError::NotEnoughAccountKeys)
    } else if !accounts[0].is_signer {
        Err(ProgramError::MissingRequiredSignature)
    } else if token_holder_check(accounts[1], accounts[0].key@) is Err {
        Err(token_holder_check(accounts[1], accounts[0].key@)->Err_0)
    } else if token_holder_check(accounts[4], accounts[3].key@) is Err {
        Err(token_holder_check(accounts[4], accounts[3].key@)->Err_0)
    } else if payload.len() != InitializeInstructionData::LEN {
        Err(ProgramError::InvalidInstructionData)
    } else if address_check(derived, accounts[3]) is Err {
        Err(address_check(derived, accounts[3])->Err_0)
    } else if accounts[3].data@.len() != 0 {
        Err(ProgramError::AccountAlreadyInitialized)
    } else {
        Ok(payload_amount(payload))
    }
}

/// `after` is the escrow account `before` once the program has taken it
/// over and written a record of `sender`, `receiver` and `amount` into it.
pub open spec fn escrow_created(
    program_id: Seq<u8>,
    sender: Seq<u8>,
    receiver: Seq<u8>,
    amount: u64,
    before: Account,
    after: Account,
) -> bool {
    &&& after.data@ == escrow_bytes(sender, receiver, amount)
    &&& after.owner@ == program_id
    &&& after.key == before.key
    &&& after.is_signer == before.is_signer
    &&& after.is_writable == before.is_writable
    &&& after.lamports == before.lamports
}

/// The requests of a successful Initialize: storage for the record, funded
/// by the sender, then the deposit from the sender's token account into the
/// escrow's.
pub open spec fn initialize_requests(
    program_id: Pubkey,
    accounts: Seq<Account>,
    amount: u64,
    minimum_balance: u64,
) -> Seq<Invocation> {
    seq![
        Invocation::CreateAccount {
            from: accounts[0].key,
            to: accounts[3].key,
            lamports: minimum_balance,
            space: Escrow::LEN as u64,
            owner: program_id,
        },
        Invocation::Transfer {
            from: accounts[1].key,
            to: accounts[4].key,
            authority: accounts[0].key,
            amount: amount,
        },
    ]
}

/// Creates an escrow between the sender and the receiver and deposits the
/// payload's amount into it.
///
/// `derived` is what the runtime gave when asked for the program address of
/// `escrow_seeds(sender, receiver, bump)` under `program_id`, with the
/// payload's bump. `minimum_balance` is the balance the ledger asks of
/// storage of `Escrow::LEN` bytes.
pub fn process_initialize(
    program_id: &Pubkey,
    accounts: &mut Vec<Account>,
    instruction_data: &[u8],
    derived: Result<Pubkey, ProgramError>,
    minimum_balance: u64,
) -> (r: Result<Vec<Invocation>, ProgramError>)
    ensures
        r is Ok <==> initialize_check(old(accounts)@, instruction_data@, derived) is Ok,
        r matches Err(e) ==> initialize_check(old(accounts)@, instruction_data@, derived) == Err::<
            u64,
            ProgramError,
        >(e) && final(accounts)@ == old(accounts)@,
        r matches Ok(v) ==> {
            let amount = initialize_check(old(accounts)@, instruction_data@, derived)->Ok_0;
            &&& v@ == initialize_requests(*program_id, old(accounts)@, amount, minimum_balance)
            &&& final(accounts)@.len() == 7
            &&& forall|i: int| 0 <= i < 7 && i != 3 ==> #[trigger] final(accounts)@[i] == old(accounts)@[i]
            &&& escrow_created(
                program_id@,
                old(accounts)@[0].key@,
                old(accounts)@[2].key@,
                amount,
                old(accounts)@[3],
                final(accounts)@[3],
            )
        },
{
    if accounts.len() != 7 {
        return Err(ProgramError::NotEnoughAccountKeys);
    }
    if !accounts[0].is_signer {
        return Err(ProgramError::MissingRequiredSignature);
    }
    check_token_holder(&accounts[1], &accounts[0].key)?;
    check_token_holder(&accounts[4], &accounts[3].key)?;
    let data = match InitializeInstructionData::from_bytes(instruction_data) {
        Some(d) => d,
        None => {
            return Err(ProgramError::InvalidInstructionData);
        },
    };
    check_address(derived, &accounts[3])?;
    if accounts[3].data.len() != 0 {
        return Err(ProgramError::AccountAlreadyInitialized);
    }
    let record = Escrow { sender: accounts[0].key, receiver: accounts[2].key, amount: data.amount };
    let create = Invocation::CreateAccount {
        from: accounts[0].key,
        to: accounts[3].key,
        lamports: minimum_balance,
        space: Escrow::LEN as u64,
        owner: *program_id,
    };
    let deposit = Invocation::Transfer {
        from: accounts[1].key,
        to: accounts[4].key,
        authority: accounts[0].key,
        amount: data.amount,
    };
    let ghost before = accounts@;
    let mut escrow = accounts.remove(3);
    escrow.data = record.to_bytes();
    escrow.owner = *program_id;
    accounts.insert(3, escrow);
    assert(accounts@ =~= before.update(3, accounts@[3]));
    Ok(vec![create, deposit])
}

/// The stored-record checks of Exchange and Cancel: the escrow account
/// belongs to the program and holds an escrow record.
pub open spec fn record_check(program_id: Seq<u8>, escrow: Account) -> Result<(), ProgramError> {
    if escrow.owner@ != program_id {
        Err(ProgramError::IllegalOwner)
    } else if escrow.data@.len() != Escrow::LEN {
        Err(ProgramError::InvalidAccountData)
    } else {
        Ok(())
    }
}

fn read_record(program_id: &Pubkey, escrow: &Account) -> (r: Result<Escrow, ProgramError>)
    ensures
        r is Ok <==> record_check(program_id@, *escrow) is Ok,
        r matches Err(e) ==> record_check(program_id@, *escrow) == Err::<(), ProgramError>(e),
        r matches Ok(rec) ==> rec.sender@ == stored_sender(escrow.data@) && rec.receiver@
            == stored_receiver(escrow.data@) && rec.amount == stored_amount(escrow.data@),
{
    if !keys_equal(&escrow.owner, program_id) {
        return Err(ProgramError::IllegalOwner);
    }
    match Escrow::from_bytes(escrow.data.as_slice()) {
        Some(rec) => Ok(rec),
        None => Err(ProgramError::InvalidAccountData),
    }
}

/// What Exchange does with the accounts `[sender, receiver, receiver token
/// account, escrow, escrow token account, account-creation service, token
/// service]` and the payload: after the checks, in order, one transfer of
/// the stored amount from the escrow's token account to the receiver's,
/// authorized by the escrow.
pub open spec fn exchange_outcome(
    program_id: Seq<u8>,
    accounts: Seq<Account>,
    payload: Seq<u8>,
    derived: Result<Pubkey, ProgramError>,
) -> Result<Invocation, ProgramError> {
    if accounts.len() != 7 {
        Err(ProgramError::NotEnoughAccountKeys)
    } else if !accounts[1].is_signer {
        Err(ProgramError::MissingRequiredSignature)
    } else if token_holder_check(accounts[2], accounts[1].key@) is Err {
        Err(token_holder_check(accounts[2], accounts[1].key@)->Err_0)
    } else if token_holder_check(accounts[4], accounts[3].key@) is Err {
        Err(token_holder_check(accounts[4], accounts[3].key@)->Err_0)
    } else if payload.len() != FinalizeInstructionData::LEN {
        Err(ProgramError::InvalidInstructionData)
    } else if accounts[3].owner@ != program_id {
        Err(ProgramError::IllegalOwner)
    } else if address_check(derived, accounts[3]) is Err {
        Err(address_check(derived, accounts[3])->Err_0)
    } else if record_check(program_id, accounts[3]) is Err {
        Err(record_check(program_id, accounts[3])->Err_0)
    } else if stored_receiver(accounts[3].data@) != accounts[1].key@ {
        Err(ProgramError::IllegalOwner)
    } else {
        Ok(
            Invocation::Transfer {
                from: accounts[4].key,
                to: accounts[2].key,
                authority: accounts[3].key,
                amount: stored_amount(accounts[3].data@),
            },
        )
    }
}

/// Pays the escrowed amount out to the receiver. `derived` is as for
/// `process_initialize`, with the payload's bump. The record is left as it
/// is.
pub fn process_exchange(
    program_id: &Pubkey,
    accounts: &[Account],
    instruction_data: &[u8],
    derived: Result<Pubkey, ProgramError>,
) -> (r: Result<Invocation, ProgramError>)
    ensures
        r == exchange_outcome(program_id@, accounts@, instruction_data@, derived),
{
    if accounts.len() != 7 {
        return Err(ProgramError::NotEnoughAccountKeys);
    }
    if !accounts[1].is_signer {
        return Err(ProgramError::MissingRequiredSignature);
    }
    check_token_holder(&accounts[2], &accounts[1].key)?;
    check_token_holder(&accounts[4], &accounts[3].key)?;
    if FinalizeInstructionData::from_bytes(instruction_data).is_none() {
        return Err(ProgramError::InvalidInstructionData);
    }
    if !keys_equal(&accounts[3].owner, program_id) {
        return Err(ProgramError::IllegalOwner);
    }
    check_address(derived, &accounts[3])?;
    let record = read_record(program_id, &accounts[3])?;
    if !keys_equal(&record.receiver, &accounts[1].key) {
        return Err(ProgramError::IllegalOwner);
    }
    Ok(
        Invocation::Transfer {
            from: accounts[4].key,
            to: accounts[2].key,
            authority: accounts[3].key,
            amount: record.amount,
        },
    )
}

/// What Cancel does with the accounts `[sender, sender token account,
/// receiver, escrow, escrow token account, account-creation service, token
/// service]` and the payload: after the checks, in order, one transfer of
/// the stored amount from the escrow's token account back to the sender's,
/// authorized by the escrow.
pub open spec fn cancel_outcome(
    program_id: Seq<u8>,
    accounts: Seq<Account>,
    payload: Seq<u8>,
    derived: Result<Pubkey, ProgramError>,
) -> Result<Invocation, ProgramError> {
    if accounts.len() != 7 {
        Err(ProgramError::NotEnoughAccountKeys)
    } else if token_holder_check(accounts[1], accounts[0].key@) is Err {
        Err(token_holder_check(accounts[1], accounts[0].key@)->Err_0)
    } else if token_holder_check(accounts[4], accounts[3].key@) is Err {
        Err(token_holder_check(accounts[4], accounts[3].key@)->Err_0)
    } else if payload.len() != FinalizeInstructionData::LEN {
        Err(ProgramError::InvalidInstructionData)
    } else if accounts[3].owner@ != program_id {
        Err(ProgramError::IllegalOwner)
    } else if address_check(derived, accounts[3]) is Err {
        Err(address_check(derived, accounts[3])->Err_0)
    } else if record_check(program_id, accounts[3]) is Err {
        Err(record_check(program_id, accounts[3])->Err_0)
    } else if stored_sender(accounts[3].data@) != accounts[0].key@ {
        Err(ProgramError::IllegalOwner)
    } else {
        Ok(
            Invocation::Transfer {
                from: accounts[4].key,
                to: accounts[1].key,
                authority: accounts[3].key,
                amount: stored_amount(accounts[3].data@),
            },
        )
    }
}

/// Refunds the escrowed amount to the sender. `derived` is as for
/// `process_initialize`, with the payload's bump. The record is left as it
/// is.
pub fn process_cancel(
    program_id: &Pubkey,
    accounts: &[Account],
    instruction_data: &[u8],
    derived: Result<Pubkey, ProgramError>,
) -> (r: Result<Invocation, ProgramError>)
    ensures
        r == cancel_outcome(program_id@, accounts@, instruction_data@, derived),
{
    if accounts.len() != 7 {
        return Err(ProgramError::NotEnoughAccountKeys);
    }
    check_token_holder(&accounts[1], &accounts[0].key)?;
    check_token_holder(&accounts[4], &accounts[3].key)?;
    if FinalizeInstructionData::from_bytes(instruction_data).is_none() {
        return Err(ProgramError::InvalidInstructionData);
    }
    if !keys_equal(&accounts[3].owner, program_id) {
        return Err(ProgramError::IllegalOwner);
    }
    check_address(derived, &accounts[3])?;
    let record = read_record(program_id, &accounts[3])?;
    if !keys_equal(&record.sender, &accounts[0].key) {
        return Err(ProgramError::IllegalOwner);
    }
    Ok(
        Invocation::Transfer {
            from: accounts[4].key,
            to: accounts[1].key,
            authority: accounts[3].key,
            amount: record.amount,
        },
    )
}

/// Entry point of the escrow program: the first byte of `instruction_data`
/// picks the handler, which gets the rest as its payload.
///
/// On success the result lists the requests that the runtime is to carry
/// out, and `accounts` holds what the program wrote; on failure nothing
/// changed.
pub fn process_instruction(
    program_id: &Pubkey,
    accounts: &mut Vec<Account>,
    instruction_data: &[u8],
    derived: Result<Pubkey, ProgramError>,
    minimum_balance: u64,
) -> (r: Result<Vec<Invocation>, ProgramError>)
    ensures
        r is Err ==> final(accounts)@ == old(accounts)@,
        instruction_data@.len() == 0 || instruction_of(instruction_data@[0]) is None ==> r
            == Err::<Vec<Invocation>, ProgramError>(ProgramError::InvalidInstructionData),
        instruction_data@.len() > 0 && instruction_of(instruction_data@[0]) == Some(
            EscrowInstruction::Initialize,
        ) ==> {
            let payload = instruction_data@.subrange(1, instruction_data@.len() as int);
            let check = initialize_check(old(accounts)@, payload, derived);
            &&& r is Ok <==> check is Ok
            &&& r matches Err(e) ==> check == Err::<u64, ProgramError>(e)
            &&& r matches Ok(v) ==> {
                &&& v@ == initialize_requests(*program_id, old(accounts)@, check->Ok_0, minimum_balance)
                &&& final(accounts)@.len() == 7
                &&& forall|i: int| 0 <= i < 7 && i != 3 ==> #[trigger] final(accounts)@[i] == old(accounts)@[i]
                &&& escrow_created(
                    program_id@,
                    old(accounts)@[0].key@,
                    old(accounts)@[2].key@,
                    check->Ok_0,
                    old(accounts)@[3],
                    final(accounts)@[3],
                )
            }
        },
        instruction_data@.len() > 0 && instruction_of(instruction_data@[0]) == Some(
            EscrowInstruction::Exchange,
        ) ==> {
            let payload = instruction_data@.subrange(1, instruction_data@.len() as int);
            let outcome = exchange_outcome(program_id@, old(accounts)@, payload, derived);
            &&& r is Ok <==> outcome is Ok
            &&& r matches Err(e) ==> outcome == Err::<Invocation, ProgramError>(e)
            &&& r matches Ok(v) ==> v@ == seq![outcome->Ok_0]
            &&& final(accounts)@ == old(accounts)@
        },
        instruction_data@.len() > 0 && instruction_of(instruction_data@[0]) == Some(
            EscrowInstruction::Cancel,
        ) ==> {
            let payload = instruction_data@.subrange(1, instruction_data@.len() as int);
            let outcome = cancel_outcome(program_id@, old(accounts)@, payload, derived);
            &&& r is Ok <==> outcome is Ok
            &&& r matches Err(e) ==> outcome == Err::<Invocation, ProgramError>(e)
            &&& r matches Ok(v) ==> v@ == seq![outcome->Ok_0]
            &&& final(accounts)@ == old(accounts)@
        },
{
    if instruction_data.len() == 0 {
        return Err(ProgramError::InvalidInstructionData);
    }
    let instruction = EscrowInstruction::try_from(&instruction_data[0])?;
    let payload = slice_subrange(instruction_data, 1, instruction_data.len());
    match instruction {
        EscrowInstruction::Initialize => process_initialize(
            program_id,
            accounts,
            payload,
            derived,
            minimum_balance,
        ),
        EscrowInstruction::Exchange => match process_exchange(
            program_id,
            accounts.as_slice(),
            payload,
            derived,
        ) {
            Ok(transfer) => Ok(vec![transfer]),
            Err(e) => Err(e),
        },
        EscrowInstruction::Cancel => match process_cancel(
            program_id,
            accounts.as_slice(),
            payload,
            derived,
        ) {
            Ok(transfer) => Ok(vec![transfer]),
            Err(e) => Err(e),
        },
    }
}

/// No escrow handler gets past its checks unless the runtime derived the
/// escrow account's own address; once the checks before it pass (for
/// Exchange and Cancel these include the escrow's storage belonging to the
/// program), any other derived address is refused with `InvalidSeeds`.
pub proof fn lemma_escrow_address_binding(
    program_id: Seq<u8>,
    accounts: Seq<Account>,
    payload: Seq<u8>,
    derived: Result<Pubkey, ProgramError>,
)
    requires
        accounts.len() == 7,
    ensures
        initialize_check(accounts, payload, derived) is Ok ==> (derived matches Ok(k) && k@
            == accounts[3].key@),
        exchange_outcome(program_id, accounts, payload, derived) is Ok ==> (derived matches Ok(k)
            && k@ == accounts[3].key@),
        cancel_outcome(program_id, accounts, payload, derived) is Ok ==> (derived matches Ok(k)
            && k@ == accounts[3].key@),
        (derived matches Ok(k) && k@ != accounts[3].key@) && accounts[1].is_signer
            && accounts[3].owner@ == program_id && payload.len()
            == FinalizeInstructionData::LEN && token_holder_check(accounts[2], accounts[1].key@) is Ok
            && token_holder_check(accounts[4], accounts[3].key@) is Ok ==> exchange_outcome(
            program_id,
            accounts,
            payload,
            derived,
        ) == Err::<Invocation, ProgramError>(ProgramError::InvalidSeeds),
        (derived matches Ok(k) && k@ != accounts[3].key@) && accounts[3].owner@ == program_id
            && payload.len() == FinalizeInstructionData::LEN && token_holder_check(
            accounts[1],
            accounts[0].key@,
        ) is Ok
            && token_holder_check(accounts[4], accounts[3].key@) is Ok ==> cancel_outcome(
            program_id,
            accounts,
            payload,
            derived,
        ) == Err::<Invocation, ProgramError>(ProgramError::InvalidSeeds),
        (derived matches Ok(k) && k@ != accounts[3].key@) && accounts[0].is_signer && payload.len()
            == InitializeInstructionData::LEN && token_holder_check(accounts[1], accounts[0].key@) is Ok
            && token_holder_check(accounts[4], accounts[3].key@) is Ok ==> initialize_check(
            accounts,
            payload,
            derived,
        ) == Err::<u64, ProgramError>(ProgramError::InvalidSeeds),
{
}

/// What Exchange or Cancel moves out of an escrow that Initialize created is
/// the amount Initialize deposited, whatever payload the later instruction
/// carries.
pub proof fn lemma_deposit_is_what_leaves(
    program_id: Pubkey,
    init_accounts: Seq<Account>,
    init_payload: Seq<u8>,
    init_derived: Result<Pubkey, ProgramError>,
    escrow: Account,
    accounts: Seq<Account>,
    payload: Seq<u8>,
    derived: Result<Pubkey, ProgramError>,
)
    requires
        init_accounts.len() == 7,
        initialize_check(init_accounts, init_payload, init_derived) is Ok,
        escrow_created(
            program_id@,
            init_accounts[0].key@,
            init_accounts[2].key@,
            initialize_check(init_accounts, init_payload, init_derived)->Ok_0,
            init_accounts[3],
            escrow,
        ),
        accounts.len() == 7,
        accounts[3] == escrow,
    ensures
        exchange_outcome(program_id@, accounts, payload, derived) matches Ok(
            Invocation::Transfer { amount, .. },
        ) ==> amount == initialize_check(init_accounts, init_payload, init_derived)->Ok_0,
        cancel_outcome(program_id@, accounts, payload, derived) matches Ok(
            Invocation::Transfer { amount, .. },
        ) ==> amount == initialize_check(init_accounts, init_payload, init_derived)->Ok_0,
{
    lemma_escrow_round_trip(
        init_accounts[0].key@,
        init_accounts[2].key@,
        initialize_check(init_accounts, init_payload, init_derived)->Ok_0,
    );
}

/// Exchange and Cancel leave the record as it is, and each can pay only a
/// token account held by the party the record names: Exchange the stored
/// receiver, Cancel the stored sender. Submitting either again meets the
/// same checks and can send the tokens nowhere else.
pub proof fn lemma_payout_only_to_parties(
    program_id: Seq<u8>,
    accounts: Seq<Account>,
    payload: Seq<u8>,
    derived: Result<Pubkey, ProgramError>,
)
    ensures
        exchange_outcome(program_id, accounts, payload, derived) matches Ok(
            Invocation::Transfer { from, to, authority, .. },
        ) ==> {
            &&& to == accounts[2].key
            &&& token_holder_check(accounts[2], stored_receiver(accounts[3].data@)) is Ok
            &&& from == accounts[4].key
            &&& authority == accounts[3].key
        },
        cancel_outcome(program_id, accounts, payload, derived) matches Ok(
            Invocation::Transfer { from, to, authority, .. },
        ) ==> {
            &&& to == accounts[1].key
            &&& token_holder_check(accounts[1], stored_sender(accounts[3].data@)) is Ok
            &&& from == accounts[4].key
            &&& authority == accounts[3].key
        },
{
}

/// A refund leaves the receiver out: where the receiver's key differs from
/// those of the sender, the sender's token account, the escrow and the
/// escrow's token account, a successful Cancel names only those accounts,
/// pays from a token account the escrow holds into one the sender holds,
/// and so neither names the receiver nor moves a token account it holds.
/// (Cancel writes no account; see `process_instruction`.)
pub proof fn lemma_refund_leaves_receiver_alone(
    program_id: Seq<u8>,
    accounts: Seq<Account>,
    payload: Seq<u8>,
    derived: Result<Pubkey, ProgramError>,
)
    requires
        accounts.len() == 7,
        accounts[2].key@ != accounts[0].key@,
        accounts[2].key@ != accounts[1].key@,
        accounts[2].key@ != accounts[3].key@,
        accounts[2].key@ != accounts[4].key@,
    ensures
        cancel_outcome(program_id, accounts, payload, derived) matches Ok(
            Invocation::Transfer { from, to, authority, .. },
        ) ==> {
            &&& from@ != accounts[2].key@
            &&& to@ != accounts[2].key@
            &&& authority@ != accounts[2].key@
            &&& accounts[4].data@.subrange(32, 64) == accounts[3].key@
            &&& accounts[1].data@.subrange(32, 64) == accounts[0].key@
            &&& accounts[4].data@.subrange(32, 64) != accounts[2].key@
            &&& accounts[1].data@.subrange(32, 64) != accounts[2].key@
        },
{
}

} // verus!
