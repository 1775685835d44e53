use solana_rust_dex::error::ProgramError;
use solana_rust_dex::instruction::DexInstruction;
use solana_rust_dex::processor::{Account, Invocation, Processor};
use solana_rust_dex::pubkey::Pubkey;
use solana_rust_dex::state::Market;

fn mk(n: u8) -> Pubkey {
    Pubkey::new_from_array([n; 32])
}

fn plain(key: Pubkey, is_signer: bool, owner: Pubkey, data: Vec<u8>) -> Account {
    Account { key, is_signer, owner, data }
}

const PROGRAM: u8 = 100;
const SYSTEM: u8 = 0;

/// Authority 1, market account 2, base mint 3, quote mint 4, rent 5, system program 6.
fn market_accounts(market_owner: Pubkey, market_data: Vec<u8>) -> Vec<Account> {
    vec![
        plain(mk(1), true, mk(SYSTEM), vec![]),
        plain(mk(2), false, market_owner, market_data),
        plain(mk(3), false, mk(SYSTEM), vec![]),
        plain(mk(4), false, mk(SYSTEM), vec![]),
        plain(mk(5), false, mk(SYSTEM), vec![]),
        plain(mk(6), false, mk(SYSTEM), vec![]),
    ]
}

#[test]
fn test_initialize_market() {
    let program_id = mk(PROGRAM);
    let market_authority = mk(1);
    let market_account = mk(2);
    let base_mint = mk(3);
    let quote_mint = mk(4);
    let mut accounts = market_accounts(program_id, vec![0; Market::LEN]);

    let min_base_order_size = 100;
    let tick_size = 10;
    let fee_rate_bps = 25;

    let init_market_ix = DexInstruction::initialize_market(
        &program_id,
        &market_authority,
        &market_account,
        &base_mint,
        &quote_mint,
        min_base_order_size,
        tick_size,
        fee_rate_bps,
    )
    .unwrap();

    Processor::process(&program_id, &mut accounts, &init_market_ix.data, 0).unwrap();

    let market = Market::unpack_from_slice(&accounts[1].data).unwrap();
    assert!(market.is_initialized);
    assert_eq!(market.authority, market_authority);
    assert_eq!(market.base_mint, base_mint);
    assert_eq!(market.quote_mint, quote_mint);
    assert_eq!(market.min_base_order_size, min_base_order_size);
    assert_eq!(market.tick_size, tick_size);
    assert_eq!(market.fee_rate_bps, fee_rate_bps);
    assert_eq!(market.next_order_id, 1);
    assert_eq!(market.num_bids, 0);
    assert_eq!(market.num_asks, 0);
}

#[test]
fn initialize_in_an_owned_account_issues_no_request() {
    let program_id = mk(PROGRAM);
    let mut accounts = market_accounts(program_id, vec![0; Market::LEN]);
    let before = accounts.clone();
    let invocations =
        Processor::process_initialize_market(&program_id, &mut accounts, 100, 10, 25).unwrap();
    assert_eq!(invocations, vec![]);
    for i in [0usize, 2, 3, 4, 5] {
        assert_eq!(accounts[i], before[i]);
    }
    assert_eq!(accounts[1].key, before[1].key);
    assert_eq!(accounts[1].owner, program_id);
    assert_eq!(accounts[1].is_signer, false);
}

#[test]
fn initialize_allocates_an_account_it_does_not_own() {
    let program_id = mk(PROGRAM);
    let mut accounts = market_accounts(mk(SYSTEM), vec![]);
    let invocations =
        Processor::process_initialize_market(&program_id, &mut accounts, 100, 10, 25).unwrap();
    assert_eq!(
        invocations,
        vec![Invocation::CreateAccount {
            from: mk(1),
            to: mk(2),
            space: 139,
            owner: program_id,
            accounts: vec![0, 1, 5],
            rent_account: Some(4),
        }]
    );
    assert_eq!(accounts[1].owner, program_id);
    assert_eq!(accounts[1].data.len(), Market::LEN);
    let market = Market::unpack_from_slice(&accounts[1].data).unwrap();
    assert_eq!(
        market,
        Market {
            is_initialized: true,
            authority: mk(1),
            base_mint: mk(3),
            quote_mint: mk(4),
            min_base_order_size: 100,
            tick_size: 10,
            fee_rate_bps: 25,
            next_order_id: 1,
            num_bids: 0,
            num_asks: 0,
        }
    );
}

#[test]
fn initialize_replaces_what_an_unowned_account_held() {
    let program_id = mk(PROGRAM);
    let mut accounts = market_accounts(mk(7), vec![0xab; 500]);
    Processor::process_initialize_market(&program_id, &mut accounts, 1, 2, 3).unwrap();
    assert_eq!(accounts[1].data.len(), Market::LEN);
    assert_eq!(accounts[1].owner, program_id);
}

#[test]
fn initialize_stores_the_configuration_exactly() {
    let program_id = mk(PROGRAM);
    let configs = [(0u64, 0u64, 0u16), (u64::MAX, u64::MAX, u16::MAX), (1, 1_000_000, 10_000)];
    for (min_base_order_size, tick_size, fee_rate_bps) in configs {
        let mut accounts = market_accounts(program_id, vec![0xff; Market::LEN]);
        Processor::process_initialize_market(
            &program_id,
            &mut accounts,
            min_base_order_size,
            tick_size,
            fee_rate_bps,
        )
        .unwrap();
        let market = Market::unpack_from_slice(&accounts[1].data).unwrap();
        assert_eq!(market.min_base_order_size, min_base_order_size);
        assert_eq!(market.tick_size, tick_size);
        assert_eq!(market.fee_rate_bps, fee_rate_bps);
        assert_eq!(market.next_order_id, 1);
        assert_eq!(market.num_bids, 0);
        assert_eq!(market.num_asks, 0);
        assert!(market.is_initialized);
    }
}

#[test]
fn initialize_overwrites_an_existing_market() {
    let program_id = mk(PROGRAM);
    let mut accounts = market_accounts(program_id, vec![0; Market::LEN]);
    Processor::process_initialize_market(&program_id, &mut accounts, 100, 10, 25).unwrap();
    let mut market = Market::unpack_from_slice(&accounts[1].data).unwrap();
    market.next_order_id = 40;
    market.num_asks = 3;
    accounts[1].data = market.to_bytes();
    Processor::process_initialize_market(&program_id, &mut accounts, 5, 6, 7).unwrap();
    let again = Market::unpack_from_slice(&accounts[1].data).unwrap();
    assert_eq!(again.next_order_id, 1);
    assert_eq!(again.num_asks, 0);
    assert_eq!(again.min_base_order_size, 5);
}

#[test]
fn initialize_keeps_the_tail_of_a_larger_account() {
    let program_id = mk(PROGRAM);
    let mut accounts = market_accounts(program_id, vec![0x5a; Market::LEN + 4]);
    let invocations =
        Processor::process_initialize_market(&program_id, &mut accounts, 100, 10, 25).unwrap();
    assert!(invocations.is_empty());
    assert_eq!(accounts[1].data.len(), Market::LEN + 4);
    assert_eq!(accounts[1].data[Market::LEN..].to_vec(), vec![0x5a; 4]);
    let market = Market::unpack_from_slice(&accounts[1].data[..Market::LEN]).unwrap();
    assert_eq!(market.next_order_id, 1);
    assert_eq!(market.authority, mk(1));
    assert_eq!(
        Market::unpack_from_slice(&accounts[1].data),
        Err(ProgramError::Custom(1))
    );
}

#[test]
fn initialize_needs_the_authoritys_signature() {
    let program_id = mk(PROGRAM);
    let mut accounts = market_accounts(program_id, vec![0; Market::LEN]);
    accounts[0].is_signer = false;
    let before = accounts.clone();
    assert_eq!(
        Processor::process_initialize_market(&program_id, &mut accounts, 100, 10, 25),
        Err(ProgramError::Custom(2))
    );
    assert_eq!(accounts, before);
}

#[test]
fn initialize_needs_six_accounts() {
    let program_id = mk(PROGRAM);
    for count in 0..6 {
        let mut accounts = market_accounts(program_id, vec![0; Market::LEN]);
        accounts.truncate(count);
        let before = accounts.clone();
        assert_eq!(
            Processor::process_initialize_market(&program_id, &mut accounts, 100, 10, 25),
            Err(ProgramError::NotEnoughAccountKeys)
        );
        assert_eq!(accounts, before);
    }
}

#[test]
fn initialize_needs_room_in_an_owned_account() {
    let program_id = mk(PROGRAM);
    let mut accounts = market_accounts(program_id, vec![0; Market::LEN - 1]);
    let before = accounts.clone();
    assert_eq!(
        Processor::process_initialize_market(&program_id, &mut accounts, 100, 10, 25),
        Err(ProgramError::Custom(1))
    );
    assert_eq!(accounts, before);
}

#[test]
fn missing_accounts_are_reported_before_the_signature() {
    let program_id = mk(PROGRAM);
    let mut accounts = market_accounts(program_id, vec![0; Market::LEN]);
    accounts[0].is_signer = false;
    accounts.truncate(5);
    assert_eq!(
        Processor::process_initialize_market(&program_id, &mut accounts, 100, 10, 25),
        Err(ProgramError::NotEnoughAccountKeys)
    );
}

#[test]
fn undecodable_instruction_is_refused() {
    let program_id = mk(PROGRAM);
    let mut accounts = market_accounts(program_id, vec![0; Market::LEN]);
    let before = accounts.clone();
    for data in [&[][..], &[9][..], &[0, 1, 2][..], &[2, 2][..]] {
        assert_eq!(
            Processor::process(&program_id, &mut accounts, data, 0),
            Err(ProgramError::Custom(0))
        );
        assert_eq!(accounts, before);
    }
}

#[test]
fn extra_accounts_are_ignored() {
    let program_id = mk(PROGRAM);
    let mut accounts = market_accounts(program_id, vec![0; Market::LEN]);
    accounts.push(plain(mk(50), false, mk(SYSTEM), vec![1, 2, 3]));
    Processor::process_initialize_market(&program_id, &mut accounts, 100, 10, 25).unwrap();
    assert_eq!(accounts[6], plain(mk(50), false, mk(SYSTEM), vec![1, 2, 3]));
    assert_eq!(accounts.len(), 7);
}
