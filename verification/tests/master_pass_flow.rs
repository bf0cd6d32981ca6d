use borsh::BorshSerialize;
use nft_pass_book::account_info::AccountInfo;
use nft_pass_book::error::{NFTPassError, ProgramError};
use nft_pass_book::master_pass::instruction::{InitMasterPassArgs, NFTPassInstruction};
use nft_pass_book::master_pass::processor::{find_edition_address, init_master_pass_book, Processor};
use nft_pass_book::master_pass::{
    find_master_pass_program_address, find_pass_store_program_address, id, MasterPass, MasterPassState, Period,
    Store,
};
use nft_pass_book::processor::NewAccount;
use nft_pass_book::pubkey::Pubkey;
use nft_pass_book::token::{metadata_error, read_master_edition, MetadataErrorKind};

fn key(n: u8) -> Pubkey {
    let mut b = [0u8; 32];
    b[0] = n;
    b[31] = 9;
    Pubkey(b)
}

fn account(k: Pubkey, owner: Pubkey, is_signer: bool, data: Vec<u8>) -> AccountInfo {
    AccountInfo { key: k, owner, is_signer, is_writable: true, lamports: 0, data }
}

fn token_program() -> Pubkey {
    Pubkey(spl_token::id().to_bytes())
}

fn metadata_program() -> Pubkey {
    Pubkey(mpl_token_metadata::ID.to_bytes())
}

fn system() -> Pubkey {
    Pubkey([0u8; 32])
}

fn sol(k: &Pubkey) -> solana_program::pubkey::Pubkey {
    solana_program::pubkey::Pubkey::new_from_array(k.0)
}

fn metadata_bytes(mint: &Pubkey, creator: &Pubkey) -> Vec<u8> {
    let m = mpl_token_metadata::accounts::Metadata {
        key: mpl_token_metadata::types::Key::MetadataV1,
        update_authority: sol(creator),
        mint: sol(mint),
        name: String::from("Pass Name"),
        symbol: String::from("PASS"),
        uri: String::from("some link to storage"),
        seller_fee_basis_points: 500,
        creators: None,
        primary_sale_happened: false,
        is_mutable: true,
        edition_nonce: None,
        token_standard: None,
        collection: None,
        uses: None,
        collection_details: None,
        programmable_config: None,
    };
    m.try_to_vec().unwrap()
}

fn master_edition_bytes(key: mpl_token_metadata::types::Key) -> Vec<u8> {
    let e = mpl_token_metadata::accounts::MasterEdition { key, supply: 0, max_supply: Some(0) };
    e.try_to_vec().unwrap()
}

fn token_account_bytes(mint: &Pubkey, owner: &Pubkey) -> Vec<u8> {
    let mut d = vec![0u8; 165];
    d[0..32].copy_from_slice(&mint.0);
    d[32..64].copy_from_slice(&owner.0);
    d[108] = 1;
    d
}

fn authority() -> Pubkey {
    key(1)
}

fn mint() -> Pubkey {
    key(2)
}

/// The accounts of an InitMasterPass instruction for the mint `key(2)` of the authority
/// `key(1)`, whose store does not exist yet.
fn master_accounts() -> Vec<AccountInfo> {
    let pid = id();
    let store = find_pass_store_program_address(&pid, &authority()).unwrap().0;
    let master_pass = find_master_pass_program_address(&pid, &mint()).unwrap().0;
    let edition = find_edition_address(&mint()).unwrap().0;
    vec![
        account(master_pass, system(), false, vec![]),
        account(key(3), token_program(), false, token_account_bytes(&mint(), &authority())),
        account(key(4), system(), false, vec![]),
        account(store, system(), false, vec![]),
        account(authority(), system(), true, vec![]),
        account(key(5), system(), true, vec![]),
        account(mint(), token_program(), false, vec![]),
        account(key(6), metadata_program(), false, metadata_bytes(&mint(), &authority())),
        account(edition, metadata_program(), false, master_edition_bytes(mpl_token_metadata::types::Key::MasterEditionV2)),
        account(key(20), system(), false, vec![]),
        account(system(), system(), false, vec![]),
    ]
}

fn args() -> InitMasterPassArgs {
    InitMasterPassArgs {
        name: String::from("Master Pass"),
        description: String::from("Pack description"),
        uri: String::from("some link to storage"),
        mutable: true,
        period: Period::Custom(45),
    }
}

fn init_error(accounts: &mut Vec<AccountInfo>, args: InitMasterPassArgs) -> Option<ProgramError> {
    let before = accounts.clone();
    let mut new_accounts: Vec<NewAccount> = Vec::new();
    let r = init_master_pass_book(&id(), accounts, &mut new_accounts, args).unwrap().err();
    assert_eq!(*accounts, before);
    assert!(new_accounts.is_empty());
    r
}

#[test]
fn init_master_pass_success() {
    let mut accounts = master_accounts();
    let mut new_accounts: Vec<NewAccount> = Vec::new();
    let plan = init_master_pass_book(&id(), &mut accounts, &mut new_accounts, args()).unwrap().unwrap();
    assert_eq!(
        (plan.token_account, plan.mint, plan.owner, plan.source, plan.authority, plan.amount),
        (2, 6, 0, 1, 4, 1)
    );
    let created: Vec<usize> = new_accounts.iter().map(|n| n.index).collect();
    assert_eq!(created, vec![3, 0]);
    assert_eq!(accounts[0].owner, id());
    let master_pass = MasterPass::unpack(&accounts[0].data).unwrap();
    assert_eq!(master_pass.account_type, nft_pass_book::master_pass::AccountType::MasterPass);
    assert_eq!(master_pass.name, "Master Pass");
    assert_eq!(master_pass.uri.len(), 200);
    assert_eq!(master_pass.uri.trim_matches(char::from(0)), "some link to storage");
    assert_eq!(master_pass.description.trim_matches(char::from(0)), "Pack description");
    assert_eq!(master_pass.authority, authority());
    assert_eq!(master_pass.mint, mint());
    assert_eq!(master_pass.period, Period::Custom(45));
    assert_eq!(master_pass.pass_state, MasterPassState::NotActivated);
    assert!(master_pass.mutable);
    let store = Store::unpack(&accounts[3].data).unwrap();
    assert_eq!(store.authority, authority());
    assert_eq!(store.pass_collection_count, 1);
}

#[test]
fn init_master_pass_through_the_processor() {
    let mut accounts = master_accounts();
    let mut new_accounts: Vec<NewAccount> = Vec::new();
    let data = NFTPassInstruction::InitMasterPass(args()).to_bytes();
    let plan = Processor::process_instruction(&id(), &mut accounts, &mut new_accounts, &data).unwrap().unwrap();
    assert_eq!(plan.amount, 1);
    assert_eq!(Store::unpack(&accounts[3].data).unwrap().pass_collection_count, 1);
    let r = Processor::process_instruction(&id(), &mut master_accounts(), &mut new_accounts, &[7]).unwrap();
    assert_eq!(r.err(), Some(ProgramError::BorshIoError));
}

#[test]
fn a_second_master_pass_counts_two_in_the_store() {
    let mut accounts = master_accounts();
    let mut new_accounts: Vec<NewAccount> = Vec::new();
    init_master_pass_book(&id(), &mut accounts, &mut new_accounts, args()).unwrap().unwrap();
    let store = accounts[3].clone();
    let other_mint = key(12);
    let mut second = master_accounts();
    second[0].key = find_master_pass_program_address(&id(), &other_mint).unwrap().0;
    second[1].data = token_account_bytes(&other_mint, &authority());
    second[3] = store;
    second[6].key = other_mint;
    second[7].data = metadata_bytes(&other_mint, &authority());
    second[8].key = find_edition_address(&other_mint).unwrap().0;
    let mut new_accounts: Vec<NewAccount> = Vec::new();
    init_master_pass_book(&id(), &mut second, &mut new_accounts, args()).unwrap().unwrap();
    let created: Vec<usize> = new_accounts.iter().map(|n| n.index).collect();
    assert_eq!(created, vec![0]);
    assert_eq!(Store::unpack(&second[3].data).unwrap().pass_collection_count, 2);
}

#[test]
fn init_master_pass_checks_the_accounts() {
    let mut a = master_accounts();
    a.truncate(10);
    assert_eq!(init_error(&mut a, args()), Some(ProgramError::NotEnoughAccountKeys));
    let mut a = master_accounts();
    a[4].is_signer = false;
    assert_eq!(init_error(&mut a, args()), Some(ProgramError::MissingRequiredSignature));
    let mut a = master_accounts();
    a[6].owner = system();
    assert_eq!(init_error(&mut a, args()), Some(ProgramError::IllegalOwner));
    let mut a = master_accounts();
    a[7].owner = system();
    assert_eq!(init_error(&mut a, args()), Some(ProgramError::IllegalOwner));
    let mut a = master_accounts();
    a[3].key = key(30);
    assert_eq!(init_error(&mut a, args()), Some(ProgramError::Custom(NFTPassError::InvalidStoreKey.code())));
    let mut a = master_accounts();
    a[0].key = key(31);
    assert_eq!(init_error(&mut a, args()), Some(ProgramError::Custom(NFTPassError::InvalidPassBookKey.code())));
}

#[test]
fn init_master_pass_checks_the_texts() {
    let mut long = args();
    long.name = "n".repeat(33);
    assert_eq!(init_error(&mut master_accounts(), long), Some(ProgramError::Custom(NFTPassError::NameTooLong.code())));
    let mut long = args();
    long.uri = "u".repeat(201);
    assert_eq!(init_error(&mut master_accounts(), long), Some(ProgramError::Custom(NFTPassError::UriTooLong.code())));
    let mut long = args();
    long.description = "d".repeat(501);
    assert_eq!(
        init_error(&mut master_accounts(), long),
        Some(ProgramError::Custom(NFTPassError::DescriptionTooLong.code()))
    );
}

#[test]
fn init_master_pass_checks_the_master_edition_and_the_source() {
    let mut a = master_accounts();
    a[8].data = vec![];
    assert_eq!(init_error(&mut a, args()), Some(ProgramError::Custom(4)));
    let mut a = master_accounts();
    a[8].data = vec![6, 0];
    assert_eq!(init_error(&mut a, args()), Some(ProgramError::BorshIoError));
    let mut a = master_accounts();
    a[8].data = master_edition_bytes(mpl_token_metadata::types::Key::MasterEditionV1);
    assert_eq!(init_error(&mut a, args()), Some(ProgramError::Custom(6)));
    let mut a = master_accounts();
    a[7].data = metadata_bytes(&key(40), &authority());
    assert_eq!(init_error(&mut a, args()), Some(ProgramError::Custom(NFTPassError::InvalidMintKey.code())));
    let mut a = master_accounts();
    a[8].key = key(41);
    assert_eq!(init_error(&mut a, args()), Some(ProgramError::Custom(27)));
    let mut a = master_accounts();
    a[1].data[108] = 0;
    assert_eq!(init_error(&mut a, args()), Some(ProgramError::UninitializedAccount));
    let mut a = master_accounts();
    a[1].data = token_account_bytes(&key(42), &authority());
    assert_eq!(init_error(&mut a, args()), Some(ProgramError::Custom(15)));
}

#[test]
fn metadata_errors_are_their_places_in_the_enum() {
    assert_eq!(metadata_error(MetadataErrorKind::Uninitialized), ProgramError::Custom(4));
    assert_eq!(metadata_error(MetadataErrorKind::InvalidEditionKey), ProgramError::Custom(6));
    assert_eq!(metadata_error(MetadataErrorKind::MintMismatch), ProgramError::Custom(15));
    assert_eq!(metadata_error(MetadataErrorKind::DerivedKeyInvalid), ProgramError::Custom(27));
}

#[test]
fn master_edition_data_reads_as_its_layout_says() {
    let e = mpl_token_metadata::accounts::MasterEdition {
        key: mpl_token_metadata::types::Key::MasterEditionV2,
        supply: 0x0102,
        max_supply: None,
    };
    let holding = |data: Vec<u8>| account(key(9), metadata_program(), false, data);
    let mut data = e.try_to_vec().unwrap();
    assert_eq!(read_master_edition(&holding(data.clone())), Ok((6, 0x0102)));
    data.push(77);
    assert_eq!(read_master_edition(&holding(data.clone())), Ok((6, 0x0102)));
    data[9] = 2;
    assert_eq!(read_master_edition(&holding(data.clone())), Err(ProgramError::BorshIoError));
    data[9] = 0;
    data[0] = 15;
    assert_eq!(read_master_edition(&holding(data)), Err(ProgramError::BorshIoError));
    let mut data = e.try_to_vec().unwrap();
    data[9] = 1;
    assert_eq!(read_master_edition(&holding(data)), Err(ProgramError::BorshIoError));
}
