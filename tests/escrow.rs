use pinocchio_programs::account::{Account, Invocation, ProgramError, Pubkey};
use pinocchio_programs::escrow;
use pinocchio_programs::escrow::{
    Escrow, EscrowInstruction, FinalizeInstructionData, InitializeInstructionData, ESCROW_SEED,
    TOKEN_ACCOUNT_LEN,
};

const PROGRAM_ID: Pubkey = [7u8; 32];
const SENDER: Pubkey = [1u8; 32];
const RECEIVER: Pubkey = [2u8; 32];
const ESCROW_KEY: Pubkey = [3u8; 32];
const SENDER_ATA: Pubkey = [11u8; 32];
const RECEIVER_ATA: Pubkey = [12u8; 32];
const ESCROW_ATA: Pubkey = [13u8; 32];
const SYSTEM: Pubkey = [0u8; 32];
const MINT: Pubkey = [20u8; 32];
const RENT: u64 = 1_392_000;
const BUMP: u8 = 253;

/// Address of the token program ("TokenkegQfeZyiNwAJbNbGKPFXCWuBvf9Ss623VQ5DA").
const TOKEN_PROGRAM: Pubkey = [
    6, 221, 246, 225, 215, 101, 161, 147, 217, 203, 225, 70, 206, 235, 121, 172, 28, 180, 133,
    237, 95, 91, 55, 145, 58, 140, 245, 133, 126, 255, 0, 169,
];

fn plain(key: Pubkey, is_signer: bool) -> Account {
    Account { key, owner: SYSTEM, is_signer, is_writable: true, lamports: 1_000_000, data: vec![] }
}

/// A token account of the token program, of `mint`, held by `holder`.
fn token_account(key: Pubkey, holder: Pubkey, amount: u64) -> Account {
    let mut data = vec![0u8; TOKEN_ACCOUNT_LEN];
    data[..32].copy_from_slice(&MINT);
    data[32..64].copy_from_slice(&holder);
    data[64..72].copy_from_slice(&amount.to_le_bytes());
    data[108] = 1;
    Account { key, owner: TOKEN_PROGRAM, is_signer: false, is_writable: true, lamports: 2_039_280, data }
}

fn init_accounts() -> Vec<Account> {
    vec![
        plain(SENDER, true),
        token_account(SENDER_ATA, SENDER, 1_000_000),
        plain(RECEIVER, false),
        Account { lamports: 0, ..plain(ESCROW_KEY, true) },
        token_account(ESCROW_ATA, ESCROW_KEY, 0),
        plain(SYSTEM, false),
        plain(TOKEN_PROGRAM, false),
    ]
}

fn init_data(amount: u64) -> Vec<u8> {
    let mut data = vec![EscrowInstruction::Initialize.discriminator()];
    data.extend(InitializeInstructionData::new(amount, BUMP).to_bytes());
    data
}

fn finalize_data(kind: EscrowInstruction) -> Vec<u8> {
    let mut data = vec![kind.discriminator()];
    data.extend(FinalizeInstructionData::new(BUMP).to_bytes());
    data
}

/// The escrow account after a successful Initialize of `amount`.
fn initialized_escrow(amount: u64) -> Account {
    let mut accounts = init_accounts();
    let r = escrow::process_instruction(&PROGRAM_ID, &mut accounts, &init_data(amount), Ok(ESCROW_KEY), RENT);
    assert!(r.is_ok());
    let mut e = accounts[3].clone();
    // The account-creation service funds the new account.
    e.lamports = RENT;
    e
}

fn exchange_accounts(escrow_account: Account) -> Vec<Account> {
    vec![
        plain(SENDER, false),
        plain(RECEIVER, true),
        token_account(RECEIVER_ATA, RECEIVER, 0),
        escrow_account,
        token_account(ESCROW_ATA, ESCROW_KEY, 100),
        plain(SYSTEM, false),
        plain(TOKEN_PROGRAM, false),
    ]
}

fn cancel_accounts(escrow_account: Account) -> Vec<Account> {
    vec![
        plain(SENDER, true),
        token_account(SENDER_ATA, SENDER, 999_900),
        plain(RECEIVER, false),
        escrow_account,
        token_account(ESCROW_ATA, ESCROW_KEY, 100),
        plain(SYSTEM, false),
        plain(TOKEN_PROGRAM, false),
    ]
}

#[test]
fn test_escrow_initialize_success() {
    let mut accounts = init_accounts();
    let r = escrow::process_instruction(&PROGRAM_ID, &mut accounts, &init_data(100), Ok(ESCROW_KEY), RENT);
    assert_eq!(
        r,
        Ok(vec![
            Invocation::CreateAccount {
                from: SENDER,
                to: ESCROW_KEY,
                lamports: RENT,
                space: 72,
                owner: PROGRAM_ID,
            },
            Invocation::Transfer {
                from: SENDER_ATA,
                to: ESCROW_ATA,
                authority: SENDER,
                amount: 100,
            },
        ])
    );
    assert_eq!(accounts[3].owner, PROGRAM_ID);
    let record = Escrow::from_bytes(&accounts[3].data).unwrap();
    assert_eq!(record.sender, SENDER);
    assert_eq!(record.receiver, RECEIVER);
    assert_eq!(record.amount, 100);
    assert_eq!(accounts[1].data, init_accounts()[1].data);
}

#[test]
fn test_escrow_exchange_success() {
    let accounts = exchange_accounts(initialized_escrow(100));
    let mut after = accounts.clone();
    let r = escrow::process_instruction(
        &PROGRAM_ID,
        &mut after,
        &finalize_data(EscrowInstruction::Exchange),
        Ok(ESCROW_KEY),
        RENT,
    );
    assert_eq!(
        r,
        Ok(vec![Invocation::Transfer {
            from: ESCROW_ATA,
            to: RECEIVER_ATA,
            authority: ESCROW_KEY,
            amount: 100,
        }])
    );
    assert_eq!(after[3].data, accounts[3].data);
}

#[test]
fn test_escrow_cancel_success() {
    let mut accounts = cancel_accounts(initialized_escrow(100));
    let r = escrow::process_instruction(
        &PROGRAM_ID,
        &mut accounts,
        &finalize_data(EscrowInstruction::Cancel),
        Ok(ESCROW_KEY),
        RENT,
    );
    assert_eq!(
        r,
        Ok(vec![Invocation::Transfer {
            from: ESCROW_ATA,
            to: SENDER_ATA,
            authority: ESCROW_KEY,
            amount: 100,
        }])
    );
}

#[test]
fn escrow_amount_comes_from_the_record() {
    let accounts = exchange_accounts(initialized_escrow(100));
    // A payload that claims another amount is refused outright.
    let mut forged = vec![EscrowInstruction::Exchange.discriminator()];
    forged.extend(InitializeInstructionData::new(1_000_000, BUMP).to_bytes());
    let r = escrow::process_exchange(&PROGRAM_ID, &accounts, &forged[1..], Ok(ESCROW_KEY));
    assert_eq!(r, Err(ProgramError::InvalidInstructionData));
    // Whatever the bump byte, the amount paid is the stored one.
    for bump in [0u8, 7, 255] {
        let r = escrow::process_exchange(&PROGRAM_ID, &accounts, &[bump], Ok(ESCROW_KEY));
        assert!(matches!(r, Ok(Invocation::Transfer { amount: 100, .. })));
    }
    let accounts = cancel_accounts(initialized_escrow(5));
    let r = escrow::process_cancel(&PROGRAM_ID, &accounts, &[BUMP], Ok(ESCROW_KEY));
    assert!(matches!(r, Ok(Invocation::Transfer { amount: 5, .. })));
}

#[test]
fn escrow_resubmission_pays_only_the_parties() {
    let e = initialized_escrow(100);
    let accounts = exchange_accounts(e.clone());
    let first = escrow::process_exchange(&PROGRAM_ID, &accounts, &[BUMP], Ok(ESCROW_KEY));
    let second = escrow::process_exchange(&PROGRAM_ID, &accounts, &[BUMP], Ok(ESCROW_KEY));
    assert_eq!(first, second);

    // Another receiver, with a token account of its own, is refused.
    let thief: Pubkey = [66u8; 32];
    let mut stolen = exchange_accounts(e.clone());
    stolen[1] = plain(thief, true);
    stolen[2] = token_account([67u8; 32], thief, 0);
    let r = escrow::process_exchange(&PROGRAM_ID, &stolen, &[BUMP], Ok(ESCROW_KEY));
    assert_eq!(r, Err(ProgramError::IllegalOwner));

    // The real receiver with a token account it does not hold is refused.
    let mut redirected = exchange_accounts(e.clone());
    redirected[2] = token_account([67u8; 32], thief, 0);
    let r = escrow::process_exchange(&PROGRAM_ID, &redirected, &[BUMP], Ok(ESCROW_KEY));
    assert_eq!(r, Err(ProgramError::IllegalOwner));

    // Cancel by someone other than the sender is refused.
    let mut cancel = cancel_accounts(e);
    cancel[0] = plain(thief, true);
    cancel[1] = token_account([67u8; 32], thief, 0);
    let r = escrow::process_cancel(&PROGRAM_ID, &cancel, &[BUMP], Ok(ESCROW_KEY));
    assert_eq!(r, Err(ProgramError::IllegalOwner));
}

#[test]
fn escrow_errors() {
    let mut short = init_accounts();
    short.pop();
    let r = escrow::process_instruction(&PROGRAM_ID, &mut short, &init_data(1), Ok(ESCROW_KEY), RENT);
    assert_eq!(r, Err(ProgramError::NotEnoughAccountKeys));

    let mut unsigned = init_accounts();
    unsigned[0].is_signer = false;
    let r = escrow::process_instruction(&PROGRAM_ID, &mut unsigned, &init_data(1), Ok(ESCROW_KEY), RENT);
    assert_eq!(r, Err(ProgramError::MissingRequiredSignature));

    let mut accounts = init_accounts();
    for data in [vec![], vec![3], vec![0, 1, 2]] {
        let r = escrow::process_instruction(&PROGRAM_ID, &mut accounts, &data, Ok(ESCROW_KEY), RENT);
        assert_eq!(r, Err(ProgramError::InvalidInstructionData));
    }

    let r = escrow::process_instruction(&PROGRAM_ID, &mut accounts, &init_data(1), Ok([9u8; 32]), RENT);
    assert_eq!(r, Err(ProgramError::InvalidSeeds));
    assert!(accounts[3].data.is_empty());

    // A sender token account held by another party.
    let mut accounts = init_accounts();
    accounts[1] = token_account(SENDER_ATA, RECEIVER, 1_000);
    let r = escrow::process_instruction(&PROGRAM_ID, &mut accounts, &init_data(1), Ok(ESCROW_KEY), RENT);
    assert_eq!(r, Err(ProgramError::IllegalOwner));

    // A "token account" that the token program does not own.
    let mut accounts = init_accounts();
    accounts[4].owner = SYSTEM;
    let r = escrow::process_instruction(&PROGRAM_ID, &mut accounts, &init_data(1), Ok(ESCROW_KEY), RENT);
    assert_eq!(r, Err(ProgramError::InvalidAccountData));

    // A token account of the wrong size.
    let mut accounts = init_accounts();
    accounts[1].data.pop();
    let r = escrow::process_instruction(&PROGRAM_ID, &mut accounts, &init_data(1), Ok(ESCROW_KEY), RENT);
    assert_eq!(r, Err(ProgramError::InvalidAccountData));

    // An escrow account that the program does not own.
    let mut e = initialized_escrow(100);
    e.owner = SYSTEM;
    let r = escrow::process_exchange(&PROGRAM_ID, &exchange_accounts(e), &[BUMP], Ok(ESCROW_KEY));
    assert_eq!(r, Err(ProgramError::IllegalOwner));

    // An escrow account without a record.
    let mut e = initialized_escrow(100);
    e.data.truncate(10);
    let r = escrow::process_cancel(&PROGRAM_ID, &cancel_accounts(e), &[BUMP], Ok(ESCROW_KEY));
    assert_eq!(r, Err(ProgramError::InvalidAccountData));
}

#[test]
fn escrow_layouts() {
    let rec = Escrow { sender: SENDER, receiver: RECEIVER, amount: 0x0a0b };
    let bytes = rec.to_bytes();
    assert_eq!(bytes.len(), Escrow::LEN);
    assert_eq!(&bytes[..32], &SENDER);
    assert_eq!(&bytes[32..64], &RECEIVER);
    assert_eq!(&bytes[64..], &[0x0b, 0x0a, 0, 0, 0, 0, 0, 0]);
    let back = Escrow::from_bytes(&bytes).unwrap();
    assert_eq!(back.amount, 0x0a0b);
    assert!(Escrow::from_bytes(&bytes[1..]).is_none());

    let payload = InitializeInstructionData::new(258, 9).to_bytes();
    assert_eq!(payload, vec![2, 1, 0, 0, 0, 0, 0, 0, 9, 0, 0, 0, 0, 0, 0, 0]);
    let d = InitializeInstructionData::from_bytes(&payload).unwrap();
    assert_eq!(d.amount, 258);
    assert_eq!(d.bump, 9);
    assert_eq!(d._padding, [0u8; 7]);
    assert!(InitializeInstructionData::from_bytes(&payload[..15]).is_none());
    assert_eq!(FinalizeInstructionData::new(4).to_bytes(), vec![4]);
    assert_eq!(FinalizeInstructionData::from_bytes(&[4]), Some(FinalizeInstructionData { bump: 4 }));
    assert_eq!(FinalizeInstructionData::from_bytes(&[]), None);

    assert_eq!(EscrowInstruction::try_from(&2u8), Ok(EscrowInstruction::Cancel));
    assert_eq!(EscrowInstruction::try_from(&3u8), Err(ProgramError::InvalidInstructionData));

    let seeds = escrow::escrow_seeds(&SENDER, &RECEIVER, 17);
    assert_eq!(seeds, vec![ESCROW_SEED.as_bytes().to_vec(), SENDER.to_vec(), RECEIVER.to_vec(), vec![17]]);
    assert_eq!(seeds[0], b"escrow".to_vec());
}

#[test]
fn token_account_checks() {
    let ata = token_account(SENDER_ATA, SENDER, 5);
    assert_eq!(escrow::check_token_holder(&ata, &SENDER), Ok(()));
    assert_eq!(escrow::check_token_holder(&ata, &RECEIVER), Err(ProgramError::IllegalOwner));
    let mut other = ata.clone();
    other.owner[0] ^= 1;
    assert_eq!(escrow::check_token_holder(&other, &SENDER), Err(ProgramError::InvalidAccountData));
    let mut long = ata;
    long.data.push(0);
    assert_eq!(escrow::check_token_holder(&long, &SENDER), Err(ProgramError::InvalidAccountData));
}

#[test]
fn escrow_derivation_seeds_follow_the_instruction() {
    let seeds = escrow::derivation_seeds(&init_accounts(), &init_data(100)).unwrap();
    assert_eq!(seeds, vec![b"escrow".to_vec(), SENDER.to_vec(), RECEIVER.to_vec(), vec![BUMP]]);
    let e = initialized_escrow(100);
    let seeds = escrow::derivation_seeds(
        &exchange_accounts(e.clone()),
        &finalize_data(EscrowInstruction::Exchange),
    )
    .unwrap();
    assert_eq!(seeds, vec![b"escrow".to_vec(), SENDER.to_vec(), RECEIVER.to_vec(), vec![BUMP]]);
    let seeds =
        escrow::derivation_seeds(&cancel_accounts(e), &finalize_data(EscrowInstruction::Cancel))
            .unwrap();
    assert_eq!(seeds, vec![b"escrow".to_vec(), SENDER.to_vec(), RECEIVER.to_vec(), vec![BUMP]]);
    assert!(escrow::derivation_seeds(&init_accounts(), &[1]).is_none());
    assert!(escrow::derivation_seeds(&init_accounts(), &[5, 1]).is_none());
    assert!(escrow::derivation_seeds(&init_accounts()[..6], &init_data(1)).is_none());
}

#[test]
fn escrow_initialize_refuses_existing_record() {
    let e = initialized_escrow(100);
    let mut accounts = init_accounts();
    accounts[3] = e.clone();
    let r = escrow::process_instruction(&PROGRAM_ID, &mut accounts, &init_data(5), Ok(ESCROW_KEY), RENT);
    assert_eq!(r, Err(ProgramError::AccountAlreadyInitialized));
    assert_eq!(accounts[3].data, e.data);
    assert_eq!(Escrow::from_bytes(&accounts[3].data).unwrap().amount, 100);
}

#[test]
fn escrow_exchange_needs_receiver_signature() {
    let mut accounts = exchange_accounts(initialized_escrow(100));
    accounts[1].is_signer = false;
    let r = escrow::process_exchange(&PROGRAM_ID, &accounts, &[BUMP], Ok(ESCROW_KEY));
    assert_eq!(r, Err(ProgramError::MissingRequiredSignature));
}

#[test]
fn escrow_owner_program_is_checked_before_address() {
    let mut e = initialized_escrow(100);
    e.owner = SYSTEM;
    let r = escrow::process_cancel(&PROGRAM_ID, &cancel_accounts(e.clone()), &[BUMP], Ok([9u8; 32]));
    assert_eq!(r, Err(ProgramError::IllegalOwner));
    let r = escrow::process_exchange(&PROGRAM_ID, &exchange_accounts(e), &[BUMP], Ok([9u8; 32]));
    assert_eq!(r, Err(ProgramError::IllegalOwner));
}

#[test]
fn escrow_refund_leaves_receiver_alone() {
    let mut accounts = cancel_accounts(initialized_escrow(100));
    let before = accounts.clone();
    let r = escrow::process_instruction(
        &PROGRAM_ID,
        &mut accounts,
        &finalize_data(EscrowInstruction::Cancel),
        Ok(ESCROW_KEY),
        RENT,
    )
    .unwrap();
    for request in &r {
        if let Invocation::Transfer { from, to, authority, .. } = request {
            assert_ne!(*from, RECEIVER);
            assert_ne!(*to, RECEIVER);
            assert_ne!(*authority, RECEIVER);
            assert_ne!(*to, RECEIVER_ATA);
        }
    }
    assert_eq!(accounts[2].lamports, before[2].lamports);
    assert_eq!(accounts[2].data, before[2].data);
    assert_eq!(accounts[2].owner, before[2].owner);
}
