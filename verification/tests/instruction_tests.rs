use single_pool::addr::Address;
use single_pool::derivation::find_pool_address;
use single_pool::derivation::find_pool_mint_address;
use single_pool::derivation::find_pool_mint_authority_address;
use single_pool::derivation::find_pool_mpl_authority_address;
use single_pool::derivation::find_pool_onramp_address;
use single_pool::derivation::find_pool_stake_address;
use single_pool::derivation::find_pool_stake_authority_address;
use single_pool::ids;
use single_pool::instruction;
use single_pool::instruction::parse_instruction;
use single_pool::instruction::Instruction;
use single_pool::instruction::SinglePoolInstruction;

fn addr(n: u8) -> Address {
    Address::new(vec![n; 32])
}

fn default_addr() -> Address {
    Address::new(vec![0u8; 32])
}

struct PoolAddresses {
    vote_account: Address,
    pool: Address,
    stake_account: Address,
    onramp_account: Address,
    mint: Address,
    stake_authority: Address,
    mint_authority: Address,
    mpl_authority: Address,
    withdrawer: Address,
}

fn pool_addresses() -> PoolAddresses {
    let program_id = ids::single_pool_program_id();
    let vote_account = addr(42);
    let pool = find_pool_address(&program_id, &vote_account);
    PoolAddresses {
        stake_account: find_pool_stake_address(&program_id, &pool),
        onramp_account: find_pool_onramp_address(&program_id, &pool),
        mint: find_pool_mint_address(&program_id, &pool),
        stake_authority: find_pool_stake_authority_address(&program_id, &pool),
        mint_authority: find_pool_mint_authority_address(&program_id, &pool),
        mpl_authority: find_pool_mpl_authority_address(&program_id, &pool),
        withdrawer: addr(43),
        vote_account,
        pool,
    }
}

fn make_basic_instruction(accounts: &PoolAddresses, tag: u8) -> Instruction {
    let id = ids::single_pool_program_id();
    match tag {
        0 => instruction::initialize_pool(&id, &accounts.vote_account),
        1 => instruction::replenish_pool(&id, &accounts.vote_account),
        2 => instruction::deposit_stake(
            &id,
            &accounts.pool,
            &default_addr(),
            &default_addr(),
            &default_addr(),
        ),
        3 => instruction::withdraw_stake(
            &id,
            &accounts.pool,
            &default_addr(),
            &default_addr(),
            &default_addr(),
            0,
        ),
        4 => instruction::create_token_metadata(&id, &accounts.pool, &default_addr()),
        5 => instruction::update_token_metadata(
            &id,
            &accounts.vote_account,
            &accounts.withdrawer,
            "".to_string(),
            "".to_string(),
            "".to_string(),
        ),
        6 => instruction::initialize_pool_onramp(&id, &accounts.pool),
        _ => unreachable!(),
    }
}

fn is_sorted(data: &[usize]) -> bool {
    data.windows(2).all(|w| w[0] <= w[1])
}

// check that major accounts always show up in the same order, to spare
// developer confusion
#[test]
fn consistent_account_order() {
    let accounts = pool_addresses();

    let ordering = vec![
        accounts.vote_account.bytes.clone(),
        accounts.pool.bytes.clone(),
        accounts.stake_account.bytes.clone(),
        accounts.onramp_account.bytes.clone(),
        accounts.mint.bytes.clone(),
        accounts.stake_authority.bytes.clone(),
        accounts.mint_authority.bytes.clone(),
        accounts.mpl_authority.bytes.clone(),
    ];

    let instructions = vec![
        make_basic_instruction(&accounts, 0),
        make_basic_instruction(&accounts, 1),
        make_basic_instruction(&accounts, 2),
        make_basic_instruction(&accounts, 3),
        make_basic_instruction(&accounts, 4),
        make_basic_instruction(&accounts, 5),
        make_basic_instruction(&accounts, 6),
    ];

    for instruction in instructions {
        let mut indexes = vec![];

        for target in &ordering {
            if let Some(i) = instruction
                .accounts
                .iter()
                .position(|meta| &meta.pubkey.bytes == target)
            {
                indexes.push(i);
            }
        }

        assert!(is_sorted(&indexes));
    }
}

#[test]
fn instruction_tags_are_stable() {
    let accounts = pool_addresses();
    for tag in 0u8..=6u8 {
        let instruction = make_basic_instruction(&accounts, tag);
        assert_eq!(instruction.data[0], tag);
        assert_eq!(
            instruction.program_id.bytes,
            ids::single_pool_program_id().bytes
        );
    }
}

#[test]
fn initialize_builds_the_full_flow() {
    let program_id = ids::single_pool_program_id();
    let vote = addr(42);
    let payer = addr(1);
    let instructions = instruction::initialize(&program_id, &vote, &payer, 100, 200, 300, 1_000_000_000);
    assert_eq!(instructions.len(), 7);
    // ints hardcoded to guard against instructions moving with code changes
    assert_eq!(instructions[4].program_id.bytes, program_id.bytes);
    assert_eq!(instructions[4].data[0], 0);
    assert_eq!(&instructions[5].data, &[6]);
    // the four leading transfers fund pool record, stake, on-ramp, mint
    for i in 0..4 {
        assert_eq!(
            instructions[i].program_id.bytes,
            ids::system_program_id().bytes
        );
        assert_eq!(&instructions[i].data[0..4], &[2, 0, 0, 0]);
    }
    // the main stake account is funded with rent plus the minimum balance
    assert_eq!(
        &instructions[1].data[4..12],
        &(200u64 + 1_000_000_000u64).to_le_bytes()
    );
    // the on-ramp is funded with rent alone
    assert_eq!(&instructions[2].data[4..12], &200u64.to_le_bytes());
}

#[test]
fn deposit_builds_two_authorizations_then_the_deposit() {
    let program_id = ids::single_pool_program_id();
    let accounts = pool_addresses();
    let user_stake = addr(50);
    let user_token = addr(51);
    let user_lamport = addr(52);
    let user_authority = addr(53);
    let instructions = instruction::deposit(
        &program_id,
        &accounts.pool,
        &user_stake,
        &user_token,
        &user_lamport,
        &user_authority,
    );
    assert_eq!(instructions.len(), 3);
    assert_eq!(instructions[2].program_id.bytes, program_id.bytes);
    assert_eq!(instructions[2].data[0], 2);
    for (i, kind_tag) in [(0usize, 0u32), (1usize, 1u32)] {
        let expected = solana_stake_interface::instruction::authorize(
            &pk(&user_stake),
            &pk(&user_authority),
            &pk(&accounts.stake_authority),
            if kind_tag == 0 {
                solana_stake_interface::state::StakeAuthorize::Staker
            } else {
                solana_stake_interface::state::StakeAuthorize::Withdrawer
            },
            None,
        );
        assert_instruction_matches(&instructions[i], &expected);
    }
}

#[test]
fn withdraw_builds_an_approval_then_the_withdrawal() {
    let program_id = ids::single_pool_program_id();
    let accounts = pool_addresses();
    let user_stake = addr(60);
    let user_stake_authority = addr(61);
    let user_token = addr(62);
    let user_token_authority = addr(63);
    let instructions = instruction::withdraw(
        &program_id,
        &accounts.pool,
        &user_stake,
        &user_stake_authority,
        &user_token,
        &user_token_authority,
        77,
    );
    assert_eq!(instructions.len(), 2);
    let expected_approve = spl_token_interface::instruction::approve(
        &spl_token_interface::id(),
        &pk(&user_token),
        &pk(&accounts.mint_authority),
        &pk(&user_token_authority),
        &[],
        77,
    )
    .unwrap();
    assert_instruction_matches(&instructions[0], &expected_approve);
    assert_eq!(instructions[1].data[0], 3);
    // the withdraw payload carries the authority then the amount
    assert_eq!(instructions[1].data.len(), 41);
    assert_eq!(&instructions[1].data[1..33], user_stake_authority.bytes.as_slice());
    assert_eq!(&instructions[1].data[33..41], &77u64.to_le_bytes());
}

#[test]
fn create_pool_onramp_funds_then_initializes() {
    let program_id = ids::single_pool_program_id();
    let accounts = pool_addresses();
    let payer = addr(2);
    let instructions =
        instruction::create_pool_onramp(&program_id, &accounts.pool, &payer, 4242);
    assert_eq!(instructions.len(), 2);
    let expected_transfer = solana_system_interface::instruction::transfer(
        &pk(&payer),
        &pk(&accounts.onramp_account),
        4242,
    );
    assert_instruction_matches(&instructions[0], &expected_transfer);
    assert_eq!(&instructions[1].data, &[6]);
}

#[test]
fn create_and_delegate_user_stake_matches_the_stake_interface() {
    let program_id = ids::single_pool_program_id();
    let vote = addr(42);
    let wallet = addr(70);
    let pool = find_pool_address(&program_id, &vote);
    let instructions =
        instruction::create_and_delegate_user_stake(&program_id, &vote, &wallet, 1000, 5000);
    assert_eq!(instructions.len(), 3);

    let pool_b58 = pk(&pool).to_string();
    let seed = format!("svsp{}", &pool_b58[0..28]);
    let deposit_address =
        solana_pubkey::Pubkey::create_with_seed(&pk(&wallet), &seed, &solana_stake_interface::program::id())
            .unwrap();
    let expected = solana_stake_interface::instruction::create_account_with_seed_and_delegate_stake(
        &pk(&wallet),
        &deposit_address,
        &pk(&wallet),
        &seed,
        &pk(&vote),
        &solana_stake_interface::state::Authorized::auto(&pk(&wallet)),
        &solana_stake_interface::state::Lockup::default(),
        6000,
    );
    assert_eq!(expected.len(), 3);
    for i in 0..3 {
        assert_instruction_matches(&instructions[i], &expected[i]);
    }
}

#[test]
fn transfers_match_the_system_interface() {
    let from = addr(80);
    let to = addr(81);
    let mine = single_pool::collaborator::transfer(&from, &to, 123_456_789);
    let expected =
        solana_system_interface::instruction::transfer(&pk(&from), &pk(&to), 123_456_789);
    assert_instruction_matches(&mine, &expected);
}

#[test]
fn account_creations_match_the_system_interface() {
    let from = addr(82);
    let to = addr(83);
    let owner = addr(84);
    let mine = single_pool::collaborator::create_account(&from, &to, 999, 200, &owner);
    let expected = solana_system_interface::instruction::create_account(
        &pk(&from),
        &pk(&to),
        999,
        200,
        &pk(&owner),
    );
    assert_instruction_matches(&mine, &expected);
}

#[test]
fn deactivations_match_the_stake_interface() {
    let stake = addr(85);
    let authority = addr(86);
    let mine = single_pool::collaborator::stake_deactivate(&stake, &authority);
    let expected =
        solana_stake_interface::instruction::deactivate_stake(&pk(&stake), &pk(&authority));
    assert_instruction_matches(&mine, &expected);
}

#[test]
fn associated_account_creations_follow_the_documented_shape() {
    let funding = addr(87);
    let wallet = addr(88);
    let mint = addr(89);
    let mine =
        single_pool::collaborator::create_associated_token_account(&funding, &wallet, &mint);
    let ata = single_pool::collaborator::get_associated_token_address(&wallet, &mint);
    assert_eq!(
        mine.program_id.bytes,
        single_pool::ids::associated_token_program_id().bytes
    );
    assert_eq!(mine.data, vec![0u8]);
    let system_program = single_pool::ids::system_program_id();
    let token_program = single_pool::ids::token_program_id();
    let expected_accounts: Vec<(&Address, bool, bool)> = vec![
        (&funding, true, true),
        (&ata, false, true),
        (&wallet, false, false),
        (&mint, false, false),
        (&system_program, false, false),
        (&token_program, false, false),
    ];
    assert_eq!(mine.accounts.len(), expected_accounts.len());
    for (meta, (address, is_signer, is_writable)) in
        mine.accounts.iter().zip(expected_accounts.iter())
    {
        assert_eq!(&meta.pubkey.bytes, &address.bytes);
        assert_eq!(meta.is_signer, *is_signer);
        assert_eq!(meta.is_writable, *is_writable);
    }
}

#[test]
fn update_token_metadata_payload_uses_length_prefixed_strings() {
    let program_id = ids::single_pool_program_id();
    let vote = addr(42);
    let withdrawer = addr(43);
    let instruction = instruction::update_token_metadata(
        &program_id,
        &vote,
        &withdrawer,
        "My Token".to_string(),
        "TOK".to_string(),
        "https://example.org/t".to_string(),
    );
    let mut expected = vec![5u8];
    for field in ["My Token", "TOK", "https://example.org/t"] {
        expected.extend_from_slice(&(field.len() as u32).to_le_bytes());
        expected.extend_from_slice(field.as_bytes());
    }
    assert_eq!(instruction.data, expected);
}

#[test]
fn instruction_payloads_round_trip_through_the_parser() {
    for tag in [0u8, 1, 2, 4, 6] {
        let parsed = parse_instruction(&vec![tag]).unwrap();
        assert_eq!(parsed.serialize(), vec![tag]);
        assert!(parse_instruction(&vec![tag, 0]).is_none());
    }

    let withdraw = SinglePoolInstruction::WithdrawStake {
        user_stake_authority: addr(90),
        token_amount: 31337,
    };
    let bytes = withdraw.serialize();
    assert_eq!(bytes.len(), 41);
    let reparsed = parse_instruction(&bytes).unwrap();
    assert_eq!(reparsed.serialize(), bytes);
    assert!(parse_instruction(&bytes[0..40].to_vec()).is_none());

    let update = SinglePoolInstruction::UpdateTokenMetadata {
        name: "name".to_string(),
        symbol: "sym".to_string(),
        uri: "".to_string(),
    };
    let bytes = update.serialize();
    let reparsed = parse_instruction(&bytes).unwrap();
    assert_eq!(reparsed.serialize(), bytes);
    // a trailing byte is refused: the whole payload must be consumed
    let mut trailing = bytes.clone();
    trailing.push(0);
    assert!(parse_instruction(&trailing).is_none());
    // invalid utf8 in a segment is refused
    let mut bad = vec![5u8];
    bad.extend_from_slice(&2u32.to_le_bytes());
    bad.extend_from_slice(&[0xff, 0xfe]);
    bad.extend_from_slice(&0u32.to_le_bytes());
    bad.extend_from_slice(&0u32.to_le_bytes());
    assert!(parse_instruction(&bad).is_none());

    assert!(parse_instruction(&vec![]).is_none());
    assert!(parse_instruction(&vec![7u8]).is_none());
}

fn pk(a: &Address) -> solana_pubkey::Pubkey {
    let mut bytes = [0u8; 32];
    bytes.copy_from_slice(&a.bytes);
    solana_pubkey::Pubkey::new_from_array(bytes)
}

fn assert_instruction_matches(
    mine: &Instruction,
    expected: &solana_instruction::Instruction,
) {
    assert_eq!(mine.program_id.bytes, expected.program_id.as_ref().to_vec());
    assert_eq!(mine.data, expected.data);
    assert_eq!(mine.accounts.len(), expected.accounts.len());
    for (m, e) in mine.accounts.iter().zip(expected.accounts.iter()) {
        assert_eq!(m.pubkey.bytes, e.pubkey.as_ref().to_vec());
        assert_eq!(m.is_signer, e.is_signer);
        assert_eq!(m.is_writable, e.is_writable);
    }
}
