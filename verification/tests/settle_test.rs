use solana_rust_dex::error::ProgramError;
use solana_rust_dex::instruction::{AccountMeta, DexInstruction, Instruction};
use solana_rust_dex::processor::{Account, Invocation, Processor};
use solana_rust_dex::pubkey::Pubkey;
use solana_rust_dex::state::Market;

fn pk(n: u8) -> Pubkey {
    Pubkey::new_from_array([n; 32])
}

fn spl() -> Pubkey {
    Pubkey::new_from_array(spl_token::id().to_bytes())
}

fn slot(key: Pubkey, is_signer: bool, owner: Pubkey, data: Vec<u8>) -> Account {
    Account { key, is_signer, owner, data }
}

fn settled_market(fee_rate_bps: u16) -> Market {
    Market {
        is_initialized: true,
        authority: pk(1),
        base_mint: pk(20),
        quote_mint: pk(21),
        min_base_order_size: 100,
        tick_size: 10,
        fee_rate_bps,
        next_order_id: 3,
        num_bids: 1,
        num_asks: 1,
    }
}

/// Authority 1, market 2, taker 3, maker 4, taker base 5, taker quote 6,
/// maker base 7, maker quote 8, fee recipient 9, token program.
fn settle_accounts(market: &Market) -> Vec<Account> {
    vec![
        slot(pk(1), true, pk(0), vec![]),
        slot(pk(2), false, pk(100), market.to_bytes()),
        slot(pk(3), false, pk(0), vec![]),
        slot(pk(4), false, pk(0), vec![]),
        slot(pk(5), false, spl(), vec![]),
        slot(pk(6), false, spl(), vec![]),
        slot(pk(7), false, spl(), vec![]),
        slot(pk(8), false, spl(), vec![]),
        slot(pk(9), false, spl(), vec![]),
        slot(spl(), false, pk(0), vec![]),
    ]
}

fn signed_transfer(source: u8, destination: u8, amount: u64, accounts: Vec<usize>) -> Invocation {
    let mut data = vec![3u8];
    data.extend_from_slice(&amount.to_le_bytes());
    Invocation::Transfer {
        instruction: Instruction {
            program_id: spl(),
            accounts: vec![
                AccountMeta { pubkey: pk(source), is_signer: false, is_writable: true },
                AccountMeta { pubkey: pk(destination), is_signer: false, is_writable: true },
                AccountMeta { pubkey: pk(2), is_signer: true, is_writable: false },
            ],
            data,
        },
        accounts,
        signer_seed: Some(vec![1; 32]),
    }
}

#[test]
fn settlement_splits_the_quote_amount() {
    let accounts = settle_accounts(&settled_market(25));
    let invocations =
        Processor::process_settle_funds(&pk(100), &accounts, 40, 1_000_000).unwrap();
    assert_eq!(
        invocations,
        vec![
            signed_transfer(7, 5, 40, vec![6, 4, 1, 9]),
            signed_transfer(6, 8, 997_500, vec![5, 7, 1, 9]),
            signed_transfer(6, 9, 2_500, vec![5, 8, 1, 9]),
        ]
    );
}

#[test]
fn settlement_changes_no_record() {
    let mut accounts = settle_accounts(&settled_market(25));
    let before = accounts.clone();
    let data = DexInstruction::SettleFunds { base_amount: 40, quote_amount: 1_000_000 }.to_bytes();
    let invocations = Processor::process(&pk(100), &mut accounts, &data, 0).unwrap();
    assert_eq!(invocations.len(), 3);
    assert_eq!(accounts, before);
    assert_eq!(Market::unpack_from_slice(&accounts[1].data), Ok(settled_market(25)));
}

#[test]
fn no_fee_no_fee_transfer() {
    let accounts = settle_accounts(&settled_market(25));
    let invocations = Processor::process_settle_funds(&pk(100), &accounts, 40, 399).unwrap();
    assert_eq!(
        invocations,
        vec![
            signed_transfer(7, 5, 40, vec![6, 4, 1, 9]),
            signed_transfer(6, 8, 399, vec![5, 7, 1, 9]),
        ]
    );
    let free = settle_accounts(&settled_market(0));
    let invocations = Processor::process_settle_funds(&pk(100), &free, 0, u64::MAX).unwrap();
    assert_eq!(
        invocations,
        vec![
            signed_transfer(7, 5, 0, vec![6, 4, 1, 9]),
            signed_transfer(6, 8, u64::MAX, vec![5, 7, 1, 9]),
        ]
    );
}

#[test]
fn full_rate_takes_everything() {
    let accounts = settle_accounts(&settled_market(10_000));
    let invocations = Processor::process_settle_funds(&pk(100), &accounts, 1, 5_000).unwrap();
    assert_eq!(
        invocations,
        vec![
            signed_transfer(7, 5, 1, vec![6, 4, 1, 9]),
            signed_transfer(6, 8, 0, vec![5, 7, 1, 9]),
            signed_transfer(6, 9, 5_000, vec![5, 8, 1, 9]),
        ]
    );
}

#[test]
fn only_the_authority_settles() {
    let mut accounts = settle_accounts(&settled_market(25));
    accounts[0].key = pk(77);
    assert_eq!(
        Processor::process_settle_funds(&pk(100), &accounts, 40, 1_000_000),
        Err(ProgramError::Custom(2))
    );
}

#[test]
fn settling_needs_the_authoritys_signature() {
    let mut accounts = settle_accounts(&settled_market(25));
    accounts[0].is_signer = false;
    assert_eq!(
        Processor::process_settle_funds(&pk(100), &accounts, 40, 1_000_000),
        Err(ProgramError::Custom(2))
    );
}

#[test]
fn settling_needs_an_initialized_market() {
    let mut accounts = settle_accounts(&settled_market(25));
    accounts[1].data = vec![0; Market::LEN];
    accounts[0].key = pk(0);
    assert_eq!(
        Processor::process_settle_funds(&pk(100), &accounts, 40, 1_000_000),
        Err(ProgramError::Custom(1))
    );
    accounts[1].data = vec![1; Market::LEN - 1];
    assert_eq!(
        Processor::process_settle_funds(&pk(100), &accounts, 40, 1_000_000),
        Err(ProgramError::Custom(1))
    );
}

#[test]
fn settling_needs_ten_accounts() {
    let mut accounts = settle_accounts(&settled_market(25));
    accounts.truncate(9);
    assert_eq!(
        Processor::process_settle_funds(&pk(100), &accounts, 40, 1_000_000),
        Err(ProgramError::NotEnoughAccountKeys)
    );
}

#[test]
fn fee_that_overflows_is_refused() {
    let accounts = settle_accounts(&settled_market(25));
    assert_eq!(
        Processor::process_settle_funds(&pk(100), &accounts, 40, u64::MAX),
        Err(ProgramError::Custom(9))
    );
    assert_eq!(
        Processor::process_settle_funds(&pk(100), &accounts, 40, u64::MAX / 25 + 1),
        Err(ProgramError::Custom(9))
    );
    assert!(Processor::process_settle_funds(&pk(100), &accounts, 40, u64::MAX / 25).is_ok());
}

#[test]
fn fee_above_the_amount_is_refused() {
    let accounts = settle_accounts(&settled_market(10_001));
    assert_eq!(
        Processor::process_settle_funds(&pk(100), &accounts, 40, 10_000),
        Err(ProgramError::Custom(9))
    );
    assert!(Processor::process_settle_funds(&pk(100), &accounts, 40, 9_999).is_ok());
}

#[test]
fn settling_needs_the_token_program() {
    let mut accounts = settle_accounts(&settled_market(25));
    accounts[9].key = pk(50);
    assert_eq!(
        Processor::process_settle_funds(&pk(100), &accounts, 40, 1_000_000),
        Err(ProgramError::IncorrectProgramId)
    );
}

#[test]
fn whole_lifecycle_through_encoded_instructions() {
    let program_id = pk(100);
    let mut init = vec![
        slot(pk(1), true, pk(0), vec![]),
        slot(pk(2), false, pk(0), vec![]),
        slot(pk(20), false, pk(0), vec![]),
        slot(pk(21), false, pk(0), vec![]),
        slot(pk(30), false, pk(0), vec![]),
        slot(pk(0), false, pk(0), vec![]),
    ];
    let data = DexInstruction::InitializeMarket {
        min_base_order_size: 100,
        tick_size: 10,
        fee_rate_bps: 25,
    }
    .to_bytes();
    let made = Processor::process(&program_id, &mut init, &data, 0).unwrap();
    assert_eq!(made.len(), 1);
    assert_eq!(Market::unpack_from_slice(&init[1].data), Ok(Market { authority: pk(1), ..settled_market(25) }).map(|m| Market { next_order_id: 1, num_bids: 0, num_asks: 0, ..m }));

    let mut accounts = settle_accounts(&Market::unpack_from_slice(&init[1].data).unwrap());
    let data = DexInstruction::SettleFunds { base_amount: 500, quote_amount: 500_000 }.to_bytes();
    let made = Processor::process(&program_id, &mut accounts, &data, 0).unwrap();
    assert_eq!(
        made,
        vec![
            signed_transfer(7, 5, 500, vec![6, 4, 1, 9]),
            signed_transfer(6, 8, 498_750, vec![5, 7, 1, 9]),
            signed_transfer(6, 9, 1_250, vec![5, 8, 1, 9]),
        ]
    );
}
