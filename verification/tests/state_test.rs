use borsh::{BorshDeserialize, BorshSerialize};
use solana_rust_dex::error::ProgramError;
use solana_rust_dex::pubkey::Pubkey;
use solana_rust_dex::state::{Market, Order, OrderBookSide, Trade};

fn sample_market() -> Market {
    Market {
        is_initialized: true,
        authority: Pubkey::new_from_array([1; 32]),
        base_mint: Pubkey::new_from_array([2; 32]),
        quote_mint: Pubkey::new_from_array([3; 32]),
        min_base_order_size: 100,
        tick_size: 10,
        fee_rate_bps: 25,
        next_order_id: 7,
        num_bids: 3,
        num_asks: 0x0102_0304_0506_0708,
    }
}

fn sample_order() -> Order {
    Order {
        is_initialized: true,
        order_id: 1,
        owner: Pubkey::new_from_array([4; 32]),
        market: Pubkey::new_from_array([5; 32]),
        is_buy: true,
        limit_price: 1000,
        original_quantity: 500,
        remaining_quantity: 499,
        creation_timestamp: 1_700_000_000,
    }
}

#[test]
fn record_lengths_are_fixed() {
    assert_eq!(Market::LEN, 139);
    assert_eq!(Order::LEN, 106);
}

#[test]
fn market_layout_is_field_by_field() {
    let bytes = sample_market().to_bytes();
    assert_eq!(bytes.len(), Market::LEN);
    assert_eq!(bytes[0], 1);
    assert_eq!(bytes[1..33].to_vec(), vec![1u8; 32]);
    assert_eq!(bytes[33..65].to_vec(), vec![2u8; 32]);
    assert_eq!(bytes[65..97].to_vec(), vec![3u8; 32]);
    assert_eq!(bytes[97..105].to_vec(), vec![100, 0, 0, 0, 0, 0, 0, 0]);
    assert_eq!(bytes[105..113].to_vec(), vec![10, 0, 0, 0, 0, 0, 0, 0]);
    assert_eq!(bytes[113..115].to_vec(), vec![25, 0]);
    assert_eq!(bytes[115..123].to_vec(), vec![7, 0, 0, 0, 0, 0, 0, 0]);
    assert_eq!(bytes[123..131].to_vec(), vec![3, 0, 0, 0, 0, 0, 0, 0]);
    assert_eq!(bytes[131..139].to_vec(), vec![8, 7, 6, 5, 4, 3, 2, 1]);
}

#[test]
fn market_layout_matches_borsh() {
    let market = sample_market();
    let expected = (
        market.is_initialized,
        market.authority.to_bytes(),
        market.base_mint.to_bytes(),
        market.quote_mint.to_bytes(),
        market.min_base_order_size,
        market.tick_size,
        market.fee_rate_bps,
        market.next_order_id,
        market.num_bids,
        market.num_asks,
    )
        .try_to_vec()
        .unwrap();
    assert_eq!(market.to_bytes(), expected);
}

#[test]
fn market_unpacks_what_borsh_wrote() {
    let bytes = (true, [9u8; 32], [8u8; 32], [7u8; 32], 1u64, 2u64, 3u16, 4u64, 5u64, 6u64)
        .try_to_vec()
        .unwrap();
    let market = Market::unpack_from_slice(&bytes).unwrap();
    assert_eq!(
        market,
        Market {
            is_initialized: true,
            authority: Pubkey::new_from_array([9; 32]),
            base_mint: Pubkey::new_from_array([8; 32]),
            quote_mint: Pubkey::new_from_array([7; 32]),
            min_base_order_size: 1,
            tick_size: 2,
            fee_rate_bps: 3,
            next_order_id: 4,
            num_bids: 5,
            num_asks: 6,
        }
    );
}

#[test]
fn market_round_trips() {
    let market = sample_market();
    assert_eq!(Market::unpack_from_slice(&market.to_bytes()), Ok(market));
    let mut buffer = vec![0u8; Market::LEN];
    market.pack_into_slice(&mut buffer);
    assert_eq!(Market::unpack_from_slice(&buffer), Ok(market));
}

#[test]
fn market_pack_leaves_the_tail_alone() {
    let market = sample_market();
    let mut buffer = vec![0xeeu8; Market::LEN + 3];
    market.pack_into_slice(&mut buffer);
    assert_eq!(buffer[..Market::LEN].to_vec(), market.to_bytes());
    assert_eq!(buffer[Market::LEN..].to_vec(), vec![0xee, 0xee, 0xee]);
}

#[test]
fn market_of_wrong_length_is_invalid() {
    let bytes = sample_market().to_bytes();
    assert_eq!(
        Market::unpack_from_slice(&bytes[..Market::LEN - 1]),
        Err(ProgramError::Custom(1))
    );
    let mut longer = bytes.clone();
    longer.push(0);
    assert_eq!(Market::unpack_from_slice(&longer), Err(ProgramError::Custom(1)));
    assert_eq!(Market::unpack_from_slice(&[]), Err(ProgramError::Custom(1)));
}

#[test]
fn market_with_bad_flag_is_invalid() {
    let mut bytes = sample_market().to_bytes();
    bytes[0] = 2;
    assert_eq!(Market::unpack_from_slice(&bytes), Err(ProgramError::Custom(1)));
    let as_borsh = <(bool, [u8; 32], [u8; 32], [u8; 32], u64, u64, u16, u64, u64, u64)>::try_from_slice(&bytes);
    assert!(as_borsh.is_err());
}

#[test]
fn zeroed_market_is_uninitialized() {
    let market = Market::unpack_from_slice(&vec![0u8; Market::LEN]).unwrap();
    assert!(!market.is_initialized());
    assert_eq!(market.next_order_id, 0);
    assert_eq!(market.authority, Pubkey::new_from_array([0; 32]));
}

#[test]
fn order_layout_is_field_by_field() {
    let bytes = sample_order().to_bytes();
    assert_eq!(bytes.len(), Order::LEN);
    assert_eq!(bytes[0], 1);
    assert_eq!(bytes[1..9].to_vec(), vec![1, 0, 0, 0, 0, 0, 0, 0]);
    assert_eq!(bytes[9..41].to_vec(), vec![4u8; 32]);
    assert_eq!(bytes[41..73].to_vec(), vec![5u8; 32]);
    assert_eq!(bytes[73], 1);
    assert_eq!(bytes[74..82].to_vec(), 1000u64.to_le_bytes().to_vec());
    assert_eq!(bytes[82..90].to_vec(), 500u64.to_le_bytes().to_vec());
    assert_eq!(bytes[90..98].to_vec(), 499u64.to_le_bytes().to_vec());
    assert_eq!(bytes[98..106].to_vec(), 1_700_000_000u64.to_le_bytes().to_vec());
}

#[test]
fn order_layout_matches_borsh() {
    let order = sample_order();
    let expected = (
        order.is_initialized,
        order.order_id,
        order.owner.to_bytes(),
        order.market.to_bytes(),
        order.is_buy,
        order.limit_price,
        order.original_quantity,
        order.remaining_quantity,
        order.creation_timestamp,
    )
        .try_to_vec()
        .unwrap();
    assert_eq!(order.to_bytes(), expected);
}

#[test]
fn order_round_trips() {
    let order = sample_order();
    assert_eq!(Order::unpack_from_slice(&order.to_bytes()), Ok(order));
    let mut sell = order;
    sell.is_buy = false;
    sell.is_initialized = false;
    let mut buffer = vec![0xffu8; Order::LEN + 1];
    sell.pack_into_slice(&mut buffer);
    assert_eq!(buffer[Order::LEN], 0xff);
    assert_eq!(Order::unpack_from_slice(&buffer[..Order::LEN]), Ok(sell));
    assert!(order.is_initialized());
    assert!(!sell.is_initialized());
}

#[test]
fn order_with_bad_flag_or_length_is_invalid() {
    let bytes = sample_order().to_bytes();
    let mut bad_flag = bytes.clone();
    bad_flag[0] = 3;
    assert_eq!(Order::unpack_from_slice(&bad_flag), Err(ProgramError::Custom(1)));
    let mut bad_side = bytes.clone();
    bad_side[73] = 2;
    assert_eq!(Order::unpack_from_slice(&bad_side), Err(ProgramError::Custom(1)));
    assert_eq!(
        Order::unpack_from_slice(&bytes[..Order::LEN - 1]),
        Err(ProgramError::Custom(1))
    );
    let mut longer = bytes;
    longer.push(0);
    assert_eq!(Order::unpack_from_slice(&longer), Err(ProgramError::Custom(1)));
}

#[test]
fn fee_is_rounded_down() {
    let mut market = sample_market();
    assert_eq!(market.calculate_fee(1_000_000), Ok(2500));
    assert_eq!(market.calculate_fee(399), Ok(0));
    assert_eq!(market.calculate_fee(400), Ok(1));
    assert_eq!(market.calculate_fee(799), Ok(1));
    assert_eq!(market.calculate_fee(0), Ok(0));
    market.fee_rate_bps = 0;
    assert_eq!(market.calculate_fee(u64::MAX), Ok(0));
    market.fee_rate_bps = 10000;
    assert_eq!(market.calculate_fee(123_456), Ok(123_456));
    market.fee_rate_bps = 1;
    assert_eq!(market.calculate_fee(u64::MAX), Ok(u64::MAX / 10000));
}

#[test]
fn fee_stays_within_the_amount() {
    let mut market = sample_market();
    for rate in [0u16, 1, 25, 9999, 10000] {
        market.fee_rate_bps = rate;
        for amount in [0u64, 1, 9999, 10_000, 1_000_000, 1_844_674_407_370_955] {
            let fee = market.calculate_fee(amount).unwrap();
            assert!(fee <= amount);
            assert_eq!(fee as u128, amount as u128 * rate as u128 / 10_000);
        }
    }
}

#[test]
fn fee_overflow_is_reported() {
    let mut market = sample_market();
    assert_eq!(market.calculate_fee(u64::MAX), Err(ProgramError::Custom(9)));
    market.fee_rate_bps = 2;
    assert_eq!(market.calculate_fee(u64::MAX / 2), Ok((u64::MAX - 1) / 10000));
    assert_eq!(market.calculate_fee(u64::MAX / 2 + 1), Err(ProgramError::Custom(9)));
}

#[test]
fn fee_above_full_rate_can_exceed_the_amount() {
    let mut market = sample_market();
    market.fee_rate_bps = 20000;
    assert_eq!(market.calculate_fee(100), Ok(200));
}

#[test]
fn plain_records_can_be_built_and_compared() {
    let trade = Trade {
        maker_order_id: 1,
        taker_order_id: 2,
        maker: Pubkey::new_from_array([1; 32]),
        taker: Pubkey::new_from_array([2; 32]),
        price: 1000,
        quantity: 5,
        taker_side: true,
        timestamp: 9,
    };
    let copy = trade;
    assert_eq!(trade, copy);
    assert_ne!(OrderBookSide::Bids, OrderBookSide::Asks);
}
