use borsh::BorshSerialize;
use nft_pass_book::error::{NFTPassError, ProgramError};
use nft_pass_book::instruction::{
    activate_pass_book, buy_pass, delete_pass_book, BuyPassArgs, EditPassBookArgs, InitPassBookArgs,
    NFTPassInstruction,
};
use nft_pass_book::master_pass;
use nft_pass_book::master_pass::instruction::{
    init_master_pass, InitMasterPassArgs, NFTPassInstruction as MasterInstruction,
};
use nft_pass_book::master_pass::{MasterPass, MasterPassState, Period};
use nft_pass_book::pda::{
    associated_token_address, find_membership_program_address, find_pass_book_program_address,
    find_pass_store_program_address, find_payout_program_address, find_trade_history_program_address,
};
use nft_pass_book::pubkey::{id, Pubkey};
use nft_pass_book::state::pass_book::MAX_PASS_BOOK_LEN;
use nft_pass_book::state::{AccountType, PassBook, PassBookState, PayoutInfoArgs, Store};
use nft_pass_book::text::pad_with_nuls;

fn key(n: u8) -> Pubkey {
    Pubkey([n; 32])
}

fn sol(k: &Pubkey) -> solana_program::pubkey::Pubkey {
    solana_program::pubkey::Pubkey::new_from_array(k.0)
}

fn sample_pass_book() -> PassBook {
    PassBook {
        account_type: AccountType::PassBook,
        authority: key(1),
        mint: key(2),
        name: String::from("Pass Name"),
        description: String::from("Pack description"),
        uri: String::from("some link to storage"),
        mutable: true,
        pass_state: PassBookState::Activated,
        access: Some(30),
        duration: None,
        supply: 7,
        max_supply: Some(5),
        blur_hash: Some(String::from("LEHV6nWB2yk8")),
        created_at: 1_700_000_000,
        price: 10_000_000,
        price_mint: key(3),
        gate_keeper: Some(key(4)),
    }
}

#[test]
fn pass_book_encodes_as_borsh() {
    let p = sample_pass_book();
    let mut mine: Vec<u8> = Vec::new();
    p.serialize(&mut mine);
    let front = (3u8, key(1).0, key(2).0, p.name.clone(), p.description.clone(), p.uri.clone(), true, 1u8);
    let back = (
        p.access,
        p.duration,
        p.supply,
        p.max_supply,
        p.blur_hash.clone(),
        p.created_at,
        p.price,
        key(3).0,
        Some(key(4).0),
    );
    let mut expected = front.try_to_vec().unwrap();
    expected.extend(back.try_to_vec().unwrap());
    assert_eq!(mine, expected);
}

#[test]
fn pass_book_packs_and_unpacks() {
    let p = sample_pass_book();
    let mut data = vec![0u8; MAX_PASS_BOOK_LEN];
    PassBook::pack(p.clone(), &mut data).unwrap();
    assert_eq!(PassBook::unpack(&data).unwrap(), p);
    let mut short = vec![0u8; 10];
    assert_eq!(PassBook::pack(p, &mut short), Err(ProgramError::InvalidAccountData));
    assert_eq!(PassBook::unpack(&vec![0u8; MAX_PASS_BOOK_LEN]), Err(ProgramError::UninitializedAccount));
    assert_eq!(PassBook::unpack(&vec![0u8; 3]), Err(ProgramError::InvalidAccountData));
}

#[test]
fn store_counts_up() {
    let mut s = Store::default();
    s.init(key(9));
    s.increment_pass_book_count().unwrap();
    s.increment_pass_count().unwrap();
    s.increment_pass_count().unwrap();
    assert_eq!(s.pass_book_count, 1);
    assert_eq!(s.pass_count, 2);
    s.pass_count = u64::MAX;
    assert_eq!(s.increment_pass_count(), Err(ProgramError::Custom(NFTPassError::Overflow.code())));
    assert_eq!(s.pass_count, u64::MAX);
}

#[test]
fn instructions_encode_as_borsh() {
    let buy = NFTPassInstruction::BuyPass(BuyPassArgs {
        market_fee_basis_point: 250,
        referral_share: 50,
        referral_kick_back_share: 10,
    });
    assert_eq!(buy.to_bytes(), vec![5, 250, 0, 50, 10]);
    assert_eq!(NFTPassInstruction::try_from_slice(&[5, 250, 0, 50, 10]).unwrap(), buy);
    let edit = NFTPassInstruction::EditPassBook(EditPassBookArgs {
        name: Some(String::from("New Pass Name")),
        description: None,
        uri: None,
        price: Some(3),
        mutable: Some(false),
    });
    let expected = (
        3u8,
        Some(String::from("New Pass Name")),
        None::<String>,
        None::<String>,
        Some(3u64),
        Some(false),
    )
        .try_to_vec()
        .unwrap();
    assert_eq!(edit.to_bytes(), expected);
    assert_eq!(NFTPassInstruction::try_from_slice(&expected).unwrap(), edit);
    let init = NFTPassInstruction::InitPassBook(InitPassBookArgs {
        name: String::from("Pass Name"),
        description: String::from("Pack description"),
        uri: String::from("some link to storage"),
        mutable: true,
        access: Some(30),
        max_uses: Some(30),
        max_supply: Some(5),
        price: 10_000_000,
        has_referrer: true,
        has_market_authority: false,
        referral_end_date: None,
    });
    let bytes = init.to_bytes();
    assert_eq!(NFTPassInstruction::try_from_slice(&bytes).unwrap(), init);
    assert_eq!(NFTPassInstruction::try_from_slice(&[0]).unwrap(), NFTPassInstruction::ActivatePassBook);
    assert_eq!(NFTPassInstruction::try_from_slice(&[2]).unwrap(), NFTPassInstruction::DeactivatePassBook);
    assert_eq!(NFTPassInstruction::try_from_slice(&[9]), Err(ProgramError::BorshIoError));
    assert_eq!(NFTPassInstruction::try_from_slice(&[0, 0]), Err(ProgramError::BorshIoError));
    assert_eq!(NFTPassInstruction::try_from_slice(&[]), Err(ProgramError::BorshIoError));
}

#[test]
fn addresses_are_the_program_derived_addresses() {
    let pid = id();
    let spid = sol(&pid);
    let (store, bump) = find_pass_store_program_address(&pid, &key(1)).unwrap();
    let expected = solana_program::pubkey::Pubkey::find_program_address(
        &[b"passbook", spid.as_ref(), &key(1).0, b"store"],
        &spid,
    );
    assert_eq!((sol(&store), bump), expected);
    let (payout, _) = find_payout_program_address(&pid, &key(1), &key(2)).unwrap();
    let expected = solana_program::pubkey::Pubkey::find_program_address(
        &[b"passbook", spid.as_ref(), &key(1).0, &key(2).0, b"payout"],
        &spid,
    );
    assert_eq!(sol(&payout), expected.0);
    let (history, _) = find_trade_history_program_address(&pid, &key(3), &key(4)).unwrap();
    let expected = solana_program::pubkey::Pubkey::find_program_address(
        &[b"passbook", spid.as_ref(), &key(3).0, &key(4).0, b"history"],
        &spid,
    );
    assert_eq!(sol(&history), expected.0);
    let (pass_book, _) = find_pass_book_program_address(&pid, &key(5)).unwrap();
    let expected =
        solana_program::pubkey::Pubkey::find_program_address(&[b"passbook", spid.as_ref(), &key(5).0], &spid);
    assert_eq!(sol(&pass_book), expected.0);
    let (membership, _) = find_membership_program_address(&pid, &key(6), &key(7)).unwrap();
    let expected = solana_program::pubkey::Pubkey::find_program_address(
        &[b"passbook", spid.as_ref(), &key(6).0, &key(7).0, b"membership"],
        &spid,
    );
    assert_eq!(sol(&membership), expected.0);
    let ata = associated_token_address(&key(1), &key(2)).unwrap();
    assert_eq!(
        sol(&ata),
        spl_associated_token_account::get_associated_token_address(&sol(&key(1)), &sol(&key(2)))
    );
}

#[test]
fn program_id_is_declared() {
    let expected: solana_program::pubkey::Pubkey = "passjvPvHQWN4SvBCmHk1gdrtBvoHRERtQK9MKemreQ".parse().unwrap();
    assert_eq!(sol(&id()), expected);
    let expected: solana_program::pubkey::Pubkey = "passK9sjcBkUzWu35gf2x4EmpcrkZB9NXgHWtgAzxhB".parse().unwrap();
    assert_eq!(sol(&master_pass::id()), expected);
}

#[test]
fn instruction_builders_list_their_accounts() {
    let ix = activate_pass_book(&id(), &key(1), &key(2));
    assert_eq!(ix.data, vec![0]);
    assert_eq!(ix.accounts.len(), 2);
    assert!(ix.accounts[0].is_writable && !ix.accounts[0].is_signer);
    assert!(!ix.accounts[1].is_writable && ix.accounts[1].is_signer);
    let ix = delete_pass_book(&id(), &key(1), &key(2), &key(3));
    assert_eq!(ix.data, vec![1]);
    assert_eq!(ix.accounts[2].pubkey, key(3));
    let creator = PayoutInfoArgs { authority: key(5), payout_account: key(6), token_account: key(7) };
    let args = BuyPassArgs { market_fee_basis_point: 250, referral_share: 50, referral_kick_back_share: 0 };
    let market = PayoutInfoArgs { authority: key(30), payout_account: key(31), token_account: key(32) };
    let ix = buy_pass(
        &id(), &key(1), &key(2), &key(3), &key(4), &key(8), &key(9), &key(10), &key(11), &key(12), &key(13),
        &key(14), &key(15), &key(16), &key(17), Some(&market), None, &creator, args,
    );
    assert_eq!(ix.accounts.len(), 23);
    let keys: Vec<Pubkey> = ix.accounts.iter().map(|m| m.pubkey).collect();
    assert_eq!(keys[..14].to_vec(), vec![
        key(1), key(2), key(3), key(4), key(8), key(9), key(10), key(11), key(12), key(13), key(14), key(15),
        key(16), key(17),
    ]);
    // the wallet signs at index 3, the payer at index 5; the trade history is at index 13
    assert!(ix.accounts[3].is_signer && !ix.accounts[4].is_signer && ix.accounts[5].is_signer);
    assert!(ix.accounts[2].is_writable && ix.accounts[13].is_writable);
    assert_eq!(sol(&ix.accounts[14].pubkey), solana_program::sysvar::clock::id());
    assert_eq!(sol(&ix.accounts[15].pubkey), solana_program::sysvar::rent::id());
    assert_eq!(sol(&ix.accounts[16].pubkey), solana_program::system_program::id());
    assert_eq!(sol(&ix.accounts[17].pubkey), spl_token::id());
    assert_eq!(keys[18..].to_vec(), vec![key(6), key(7), key(30), key(31), key(32)]);
    assert!(ix.accounts[20].is_signer && !ix.accounts[20].is_writable);
}

#[test]
fn error_codes_are_declaration_places() {
    assert_eq!(NFTPassError::InvalidCreatorKey.code(), NFTPassError::from_u32(NFTPassError::InvalidCreatorKey.code()).unwrap().code());
    assert_eq!(NFTPassError::from_u32(NFTPassError::Overflow.code()), Some(NFTPassError::Overflow));
    assert_eq!(NFTPassError::from_u32(10_000), None);
    let e: ProgramError = NFTPassError::CantSetTheSameValue.into();
    assert_eq!(e, ProgramError::Custom(NFTPassError::CantSetTheSameValue.code()));
}

#[test]
fn padding_adds_nul_characters() {
    let s = pad_with_nuls(&String::from("abc"), 4);
    assert_eq!(s, "abc\0\0\0\0");
    let mut p = sample_pass_book();
    p.puff_out_data_fields();
    assert_eq!(p.uri.len(), 200);
    assert_eq!(p.description.len(), 500);
    assert_eq!(p.uri.trim_matches(char::from(0)), "some link to storage");
}

#[test]
fn master_pass_formats() {
    let args = InitMasterPassArgs {
        name: String::from("Pass Name"),
        description: String::from("Pack description"),
        uri: String::from("some link to storage"),
        mutable: true,
        period: Period::Custom(45),
    };
    let ix = MasterInstruction::InitMasterPass(args.clone());
    let expected = (0u8, args.name.clone(), args.description.clone(), args.uri.clone(), true, 3u8, 45u32)
        .try_to_vec()
        .unwrap();
    assert_eq!(ix.to_bytes(), expected);
    assert_eq!(MasterInstruction::try_from_slice(&expected).unwrap(), ix);
    let built = init_master_pass(
        &master_pass::id(),
        &key(1),
        &key(2),
        &key(3),
        &key(4),
        &key(5),
        &key(6),
        &key(7),
        &key(8),
        &key(9),
        args,
    );
    assert_eq!(built.accounts.len(), 12);
    assert_eq!(built.data, expected);
    let mut mp = MasterPass::default();
    mp.mutable = true;
    assert_eq!(mp.assert_able_to_edit(), Ok(()));
    mp.pass_state = MasterPassState::Activated;
    assert_eq!(mp.assert_able_to_edit(), Err(ProgramError::Custom(NFTPassError::WrongPassState.code())));
    assert_eq!(mp.assert_activated(), Ok(()));
    let (store, _) = master_pass::find_pass_store_program_address(&master_pass::id(), &key(1)).unwrap();
    let spid = sol(&master_pass::id());
    let expected =
        solana_program::pubkey::Pubkey::find_program_address(&[b"pass", spid.as_ref(), &key(1).0, b"store"], &spid);
    assert_eq!(sol(&store), expected.0);
}
