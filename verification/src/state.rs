//! Market and order records and their fixed byte layout.

use vstd::prelude::*;
use crate::codec::{
    bool_byte, get_bool, get_key, get_u16, get_u64, le_u16, le_u64, lemma_u16_le, lemma_u64_le,
    put_bool, put_key, put_u16, put_u64, u16_le, u64_le,
};
use crate::error::{DexError, ProgramError};
use crate::pubkey::Pubkey;

verus! {

/// One trading pair: its configuration and its counters.
#[derive(Clone, Copy, Debug, PartialEq, Eq)]
pub struct Market {
    /// Whether the record has been written by `InitializeMarket`.
    pub is_initialized: bool,
    /// The only identity that may settle trades on this market.
    pub authority: Pubkey,
    /// The asset that is bought and sold.
    pub base_mint: Pubkey,
    /// The asset that prices are quoted in.
    pub quote_mint: Pubkey,
    /// Smallest quantity an order may have, in base units.
    pub min_base_order_size: u64,
    /// Every limit price is a multiple of this, in quote units.
    pub tick_size: u64,
    /// Fee in hundredths of a percent of the quote amount.
    pub fee_rate_bps: u16,
    /// The id the next order gets.
    pub next_order_id: u64,
    /// Open buy orders.
    pub num_bids: u64,
    /// Open sell orders.
    pub num_asks: u64,
}

impl Market {
    /// Bytes of a packed market.
    pub const LEN: usize = 1 + 32 + 32 + 32 + 8 + 8 + 2 + 8 + 8 + 8;

    /// The record as it is stored: the fields in declaration order, flags
    /// as one byte, integers little-endian, keys as their 32 bytes.
    #[verifier::opaque]
    pub open spec fn packed(self) -> Seq<u8> {
        seq![bool_byte(self.is_initialized)] + self.authority@ + self.base_mint@
            + self.quote_mint@ + u64_le(self.min_base_order_size) + u64_le(self.tick_size)
            + u16_le(self.fee_rate_bps) + u64_le(self.next_order_id) + u64_le(self.num_bids)
            + u64_le(self.num_asks)
    }

    /// The record that `bytes` stores, if they store one: they must have
    /// exactly the packed length and a flag byte of 0 or 1.
    #[verifier::opaque]
    pub open spec fn unpacked(bytes: Seq<u8>) -> Option<Market> {
        if bytes.len() == Market::LEN && bytes[0] <= 1 {
            Some(
                Market {
                    is_initialized: bytes[0] == 1,
                    authority: Pubkey::from_seq(bytes.subrange(1, 33)),
                    base_mint: Pubkey::from_seq(bytes.subrange(33, 65)),
                    quote_mint: Pubkey::from_seq(bytes.subrange(65, 97)),
                    min_base_order_size: le_u64(bytes.subrange(97, 105)),
                    tick_size: le_u64(bytes.subrange(105, 113)),
                    fee_rate_bps: le_u16(bytes.subrange(113, 115)),
                    next_order_id: le_u64(bytes.subrange(115, 123)),
                    num_bids: le_u64(bytes.subrange(123, 131)),
                    num_asks: le_u64(bytes.subrange(131, 139)),
                },
            )
        } else {
            None
        }
    }

    /// The market once an order of the given side has been placed: the
    /// next id and the side's count of open orders each grow by one.
    pub open spec fn placing(self, is_buy: bool) -> Market {
        Market {
            is_initialized: self.is_initialized,
            authority: self.authority,
            base_mint: self.base_mint,
            quote_mint: self.quote_mint,
            min_base_order_size: self.min_base_order_size,
            tick_size: self.tick_size,
            fee_rate_bps: self.fee_rate_bps,
            next_order_id: (self.next_order_id + 1) as u64,
            num_bids: if is_buy { (self.num_bids + 1) as u64 } else { self.num_bids },
            num_asks: if is_buy { self.num_asks } else { (self.num_asks + 1) as u64 },
        }
    }

    /// The market once an order of the given side has been cancelled: the
    /// side's count of open orders drops by one, but not below zero.
    pub open spec fn cancelling(self, is_buy: bool) -> Market {
        Market {
            is_initialized: self.is_initialized,
            authority: self.authority,
            base_mint: self.base_mint,
            quote_mint: self.quote_mint,
            min_base_order_size: self.min_base_order_size,
            tick_size: self.tick_size,
            fee_rate_bps: self.fee_rate_bps,
            next_order_id: self.next_order_id,
            num_bids: if is_buy && self.num_bids > 0 {
                (self.num_bids - 1) as u64
            } else {
                self.num_bids
            },
            num_asks: if !is_buy && self.num_asks > 0 {
                (self.num_asks - 1) as u64
            } else {
                self.num_asks
            },
        }
    }

    /// The fee on a trade worth `trade_value` quote units, rounded down.
    pub open spec fn fee(self, trade_value: u64) -> int {
        trade_value * self.fee_rate_bps / 10000
    }

    /// The fee on a trade worth `trade_value` quote units, rounded down.
    /// Fails with `ArithmeticOverflow` exactly when
    /// `trade_value * fee_rate_bps` exceeds 64 bits.
    pub fn calculate_fee(&self, trade_value: u64) -> (result: Result<u64, ProgramError>)
        ensures
            trade_value * self.fee_rate_bps <= u64::MAX ==> result == Ok::<u64, ProgramError>(
                self.fee(trade_value) as u64,
            ),
            trade_value * self.fee_rate_bps > u64::MAX ==> result == Err::<u64, ProgramError>(
                ProgramError::Custom(DexError::ArithmeticOverflow.spec_code()),
            ),
            result matches Ok(fee) ==> fee == self.fee(trade_value),
    {
        match trade_value.checked_mul(self.fee_rate_bps as u64) {
            Some(product) => Ok(product / 10000),
            None => Err(ProgramError::from(DexError::ArithmeticOverflow)),
        }
    }

    /// Whether the record has been written by `InitializeMarket`.
    pub fn is_initialized(&self) -> (initialized: bool)
        ensures
            initialized == self.is_initialized,
    {
        self.is_initialized
    }

    /// The packed record as a fresh vector.
    pub fn to_bytes(&self) -> (bytes: Vec<u8>)
        ensures
            bytes@ == self.packed(),
            bytes.len() == Market::LEN,
    {
        let mut bytes: Vec<u8> = Vec::new();
        put_bool(&mut bytes, self.is_initialized);
        put_key(&mut bytes, &self.authority);
        put_key(&mut bytes, &self.base_mint);
        put_key(&mut bytes, &self.quote_mint);
        put_u64(&mut bytes, self.min_base_order_size);
        put_u64(&mut bytes, self.tick_size);
        put_u16(&mut bytes, self.fee_rate_bps);
        put_u64(&mut bytes, self.next_order_id);
        put_u64(&mut bytes, self.num_bids);
        put_u64(&mut bytes, self.num_asks);
        proof {
            reveal(Market::packed);
            assert(bytes@ =~= self.packed());
            Market::lemma_packed_len(*self);
        }
        bytes
    }

    /// Writes the packed record over the first `LEN` bytes of `dst` and
    /// leaves the rest of `dst` as it was.
    pub fn pack_into_slice(&self, dst: &mut [u8])
        requires
            old(dst).len() >= Market::LEN,
        ensures
            final(dst)@ == self.packed() + old(dst)@.skip(Market::LEN as int),
    {
        let bytes = self.to_bytes();
        overwrite_prefix(dst, &bytes);
    }

    /// Reads a record from `src`. Fails with `InvalidAccountData` exactly
    /// when `src` stores no market.
    pub fn unpack_from_slice(src: &[u8]) -> (result: Result<Market, ProgramError>)
        ensures
            result == (match Market::unpacked(src@) {
                Some(market) => Ok::<Market, ProgramError>(market),
                None => Err::<Market, ProgramError>(
                    ProgramError::Custom(DexError::InvalidAccountData.spec_code()),
                ),
            }),
    {
        proof {
            reveal(Market::unpacked);
        }
        if src.len() != Market::LEN {
            return Err(ProgramError::from(DexError::InvalidAccountData));
        }
        let is_initialized = match get_bool(src, 0) {
            Some(flag) => flag,
            None => {
                return Err(ProgramError::from(DexError::InvalidAccountData));
            },
        };
        Ok(
            Market {
                is_initialized,
                authority: get_key(src, 1),
                base_mint: get_key(src, 33),
                quote_mint: get_key(src, 65),
                min_base_order_size: get_u64(src, 97),
                tick_size: get_u64(src, 105),
                fee_rate_bps: get_u16(src, 113),
                next_order_id: get_u64(src, 115),
                num_bids: get_u64(src, 123),
                num_asks: get_u64(src, 131),
            },
        )
    }

    /// A packed market has exactly `LEN` bytes.
    pub proof fn lemma_packed_len(market: Market)
        ensures
            market.packed().len() == Market::LEN,
    {
        reveal(Market::packed);
        lemma_u64_le(0, Seq::empty());
        lemma_u16_le(0, Seq::empty());
        Pubkey::lemma_from_seq(Seq::empty(), market.authority);
        Pubkey::lemma_from_seq(Seq::empty(), market.base_mint);
        Pubkey::lemma_from_seq(Seq::empty(), market.quote_mint);
    }

    /// Where each field lies in a packed market.
    pub proof fn lemma_packed_fields(market: Market)
        ensures
            market.packed().len() == Market::LEN,
            market.packed()[0] == bool_byte(market.is_initialized),
            market.packed().subrange(1, 33) == market.authority@,
            market.packed().subrange(33, 65) == market.base_mint@,
            market.packed().subrange(65, 97) == market.quote_mint@,
            market.packed().subrange(97, 105) == u64_le(market.min_base_order_size),
            market.packed().subrange(105, 113) == u64_le(market.tick_size),
            market.packed().subrange(113, 115) == u16_le(market.fee_rate_bps),
            market.packed().subrange(115, 123) == u64_le(market.next_order_id),
            market.packed().subrange(123, 131) == u64_le(market.num_bids),
            market.packed().subrange(131, 139) == u64_le(market.num_asks),
    {
        reveal(Market::packed);
        let bytes = market.packed();
        Market::lemma_packed_len(market);
        assert(bytes[0] == bool_byte(market.is_initialized));
        assert(bytes.subrange(1, 33) =~= market.authority@);
        assert(bytes.subrange(33, 65) =~= market.base_mint@);
        assert(bytes.subrange(65, 97) =~= market.quote_mint@);
        assert(bytes.subrange(97, 105) =~= u64_le(market.min_base_order_size));
        assert(bytes.subrange(105, 113) =~= u64_le(market.tick_size));
        assert(bytes.subrange(113, 115) =~= u16_le(market.fee_rate_bps));
        assert(bytes.subrange(115, 123) =~= u64_le(market.next_order_id));
        assert(bytes.subrange(123, 131) =~= u64_le(market.num_bids));
        assert(bytes.subrange(131, 139) =~= u64_le(market.num_asks));
    }

    /// Packing then unpacking gives the record back.
    pub proof fn lemma_pack_unpack(market: Market)
        ensures
            Market::unpacked(market.packed()) == Some(market),
    {
        reveal(Market::unpacked);
        Market::lemma_packed_fields(market);
        let empty = Seq::<u8>::empty();
        lemma_u64_le(market.min_base_order_size, empty);
        lemma_u64_le(market.tick_size, empty);
        lemma_u16_le(market.fee_rate_bps, empty);
        lemma_u64_le(market.next_order_id, empty);
        lemma_u64_le(market.num_bids, empty);
        lemma_u64_le(market.num_asks, empty);
        Pubkey::lemma_from_seq(empty, market.authority);
        Pubkey::lemma_from_seq(empty, market.base_mint);
        Pubkey::lemma_from_seq(empty, market.quote_mint);
    }

    /// Bytes that store a market are the packing of that market.
    pub proof fn lemma_unpack_pack(bytes: Seq<u8>)
        requires
            Market::unpacked(bytes) is Some,
        ensures
            Market::unpacked(bytes)->0.packed() == bytes,
    {
        reveal(Market::packed);
        reveal(Market::unpacked);
        let market = Market::unpacked(bytes)->0;
        let empty = Seq::<u8>::empty();
        lemma_u64_le(0, bytes.subrange(97, 105));
        lemma_u64_le(0, bytes.subrange(105, 113));
        lemma_u16_le(0, bytes.subrange(113, 115));
        lemma_u64_le(0, bytes.subrange(115, 123));
        lemma_u64_le(0, bytes.subrange(123, 131));
        lemma_u64_le(0, bytes.subrange(131, 139));
        Pubkey::lemma_from_seq(bytes.subrange(1, 33), market.authority);
        Pubkey::lemma_from_seq(bytes.subrange(33, 65), market.authority);
        Pubkey::lemma_from_seq(bytes.subrange(65, 97), market.authority);
        assert(market.packed() =~= bytes);
    }
}

/// One resting order and what is left of it.
#[derive(Clone, Copy, Debug, PartialEq, Eq)]
pub struct Order {
    /// Whether the record holds an open order.
    pub is_initialized: bool,
    /// The id the market gave the order.
    pub order_id: u64,
    /// Who placed the order and may cancel it.
    pub owner: Pubkey,
    /// The market the order was placed on.
    pub market: Pubkey,
    /// Buy (`true`) or sell (`false`).
    pub is_buy: bool,
    /// Price per base unit, in quote units.
    pub limit_price: u64,
    /// Quantity at placement, in base units.
    pub original_quantity: u64,
    /// Quantity not yet filled, in base units.
    pub remaining_quantity: u64,
    /// Seconds since the epoch at placement.
    pub creation_timestamp: u64,
}

impl Order {
    /// Bytes of a packed order.
    pub const LEN: usize = 1 + 8 + 32 + 32 + 1 + 8 + 8 + 8 + 8;

    /// The record as it is stored: the fields in declaration order, flags
    /// as one byte, integers little-endian, keys as their 32 bytes.
    #[verifier::opaque]
    pub open spec fn packed(self) -> Seq<u8> {
        seq![bool_byte(self.is_initialized)] + u64_le(self.order_id) + self.owner@ + self.market@
            + seq![bool_byte(self.is_buy)] + u64_le(self.limit_price) + u64_le(
            self.original_quantity,
        ) + u64_le(self.remaining_quantity) + u64_le(self.creation_timestamp)
    }

    /// The record that `bytes` stores, if they store one: they must have
    /// exactly the packed length and flag bytes of 0 or 1.
    #[verifier::opaque]
    pub open spec fn unpacked(bytes: Seq<u8>) -> Option<Order> {
        if bytes.len() == Order::LEN && bytes[0] <= 1 && bytes[73] <= 1 {
            Some(
                Order {
                    is_initialized: bytes[0] == 1,
                    order_id: le_u64(bytes.subrange(1, 9)),
                    owner: Pubkey::from_seq(bytes.subrange(9, 41)),
                    market: Pubkey::from_seq(bytes.subrange(41, 73)),
                    is_buy: bytes[73] == 1,
                    limit_price: le_u64(bytes.subrange(74, 82)),
                    original_quantity: le_u64(bytes.subrange(82, 90)),
                    remaining_quantity: le_u64(bytes.subrange(90, 98)),
                    creation_timestamp: le_u64(bytes.subrange(98, 106)),
                },
            )
        } else {
            None
        }
    }

    /// Whether the order keeps to the rules of `market`: no more remains
    /// than was ordered, the price is a multiple of the tick size, and
    /// the quantity ordered reaches the minimum.
    pub open spec fn keeps_to(self, market: Market) -> bool {
        &&& self.remaining_quantity <= self.original_quantity
        &&& market.tick_size != 0
        &&& self.limit_price % market.tick_size == 0
        &&& self.original_quantity >= market.min_base_order_size
    }

    /// What the order holds in custody: the quote value of what remains
    /// for a buy order, the remaining base quantity for a sell order.
    pub open spec fn locked_amount(self) -> int {
        if self.is_buy {
            self.limit_price * self.remaining_quantity
        } else {
            self.remaining_quantity as int
        }
    }

    /// Whether the record holds an open order.
    pub fn is_initialized(&self) -> (initialized: bool)
        ensures
            initialized == self.is_initialized,
    {
        self.is_initialized
    }

    /// The packed record as a fresh vector.
    pub fn to_bytes(&self) -> (bytes: Vec<u8>)
        ensures
            bytes@ == self.packed(),
            bytes.len() == Order::LEN,
    {
        let mut bytes: Vec<u8> = Vec::new();
        put_bool(&mut bytes, self.is_initialized);
        put_u64(&mut bytes, self.order_id);
        put_key(&mut bytes, &self.owner);
        put_key(&mut bytes, &self.market);
        put_bool(&mut bytes, self.is_buy);
        put_u64(&mut bytes, self.limit_price);
        put_u64(&mut bytes, self.original_quantity);
        put_u64(&mut bytes, self.remaining_quantity);
        put_u64(&mut bytes, self.creation_timestamp);
        proof {
            reveal(Order::packed);
            assert(bytes@ =~= self.packed());
            Order::lemma_packed_len(*self);
        }
        bytes
    }

    /// Writes the packed record over the first `LEN` bytes of `dst` and
    /// leaves the rest of `dst` as it was.
    pub fn pack_into_slice(&self, dst: &mut [u8])
        requires
            old(dst).len() >= Order::LEN,
        ensures
            final(dst)@ == self.packed() + old(dst)@.skip(Order::LEN as int),
    {
        let bytes = self.to_bytes();
        overwrite_prefix(dst, &bytes);
    }

    /// Reads a record from `src`. Fails with `InvalidAccountData` exactly
    /// when `src` stores no order.
    pub fn unpack_from_slice(src: &[u8]) -> (result: Result<Order, ProgramError>)
        ensures
            result == (match Order::unpacked(src@) {
                Some(order) => Ok::<Order, ProgramError>(order),
                None => Err::<Order, ProgramError>(
                    ProgramError::Custom(DexError::InvalidAccountData.spec_code()),
                ),
            }),
    {
        proof {
            reveal(Order::unpacked);
        }
        if src.len() != Order::LEN {
            return Err(ProgramError::from(DexError::InvalidAccountData));
        }
        let is_initialized = match get_bool(src, 0) {
            Some(flag) => flag,
            None => {
                return Err(ProgramError::from(DexError::InvalidAccountData));
            },
        };
        let is_buy = match get_bool(src, 73) {
            Some(flag) => flag,
            None => {
                return Err(ProgramError::from(DexError::InvalidAccountData));
            },
        };
        Ok(
            Order {
                is_initialized,
                order_id: get_u64(src, 1),
                owner: get_key(src, 9),
                market: get_key(src, 41),
                is_buy,
                limit_price: get_u64(src, 74),
                original_quantity: get_u64(src, 82),
                remaining_quantity: get_u64(src, 90),
                creation_timestamp: get_u64(src, 98),
            },
        )
    }

    /// A packed order has exactly `LEN` bytes.
    pub proof fn lemma_packed_len(order: Order)
        ensures
            order.packed().len() == Order::LEN,
    {
        reveal(Order::packed);
        lemma_u64_le(0, Seq::empty());
        Pubkey::lemma_from_seq(Seq::empty(), order.owner);
        Pubkey::lemma_from_seq(Seq::empty(), order.market);
    }

    /// Where each field lies in a packed order.
    pub proof fn lemma_packed_fields(order: Order)
        ensures
            order.packed().len() == Order::LEN,
            order.packed()[0] == bool_byte(order.is_initialized),
            order.packed().subrange(1, 9) == u64_le(order.order_id),
            order.packed().subrange(9, 41) == order.owner@,
            order.packed().subrange(41, 73) == order.market@,
            order.packed()[73] == bool_byte(order.is_buy),
            order.packed().subrange(74, 82) == u64_le(order.limit_price),
            order.packed().subrange(82, 90) == u64_le(order.original_quantity),
            order.packed().subrange(90, 98) == u64_le(order.remaining_quantity),
            order.packed().subrange(98, 106) == u64_le(order.creation_timestamp),
    {
        reveal(Order::packed);
        let bytes = order.packed();
        Order::lemma_packed_len(order);
        assert(bytes[0] == bool_byte(order.is_initialized));
        assert(bytes.subrange(1, 9) =~= u64_le(order.order_id));
        assert(bytes.subrange(9, 41) =~= order.owner@);
        assert(bytes.subrange(41, 73) =~= order.market@);
        assert(bytes[73] == bool_byte(order.is_buy));
        assert(bytes.subrange(74, 82) =~= u64_le(order.limit_price));
        assert(bytes.subrange(82, 90) =~= u64_le(order.original_quantity));
        assert(bytes.subrange(90, 98) =~= u64_le(order.remaining_quantity));
        assert(bytes.subrange(98, 106) =~= u64_le(order.creation_timestamp));
    }

    /// Packing then unpacking gives the record back.
    pub proof fn lemma_pack_unpack(order: Order)
        ensures
            Order::unpacked(order.packed()) == Some(order),
    {
        reveal(Order::unpacked);
        Order::lemma_packed_fields(order);
        let empty = Seq::<u8>::empty();
        lemma_u64_le(order.order_id, empty);
        lemma_u64_le(order.limit_price, empty);
        lemma_u64_le(order.original_quantity, empty);
        lemma_u64_le(order.remaining_quantity, empty);
        lemma_u64_le(order.creation_timestamp, empty);
        Pubkey::lemma_from_seq(empty, order.owner);
        Pubkey::lemma_from_seq(empty, order.market);
    }

    /// Bytes that store an order are the packing of that order.
    pub proof fn lemma_unpack_pack(bytes: Seq<u8>)
        requires
            Order::unpacked(bytes) is Some,
        ensures
            Order::unpacked(bytes)->0.packed() == bytes,
    {
        reveal(Order::packed);
        reveal(Order::unpacked);
        let order = Order::unpacked(bytes)->0;
        lemma_u64_le(0, bytes.subrange(1, 9));
        lemma_u64_le(0, bytes.subrange(74, 82));
        lemma_u64_le(0, bytes.subrange(82, 90));
        lemma_u64_le(0, bytes.subrange(90, 98));
        lemma_u64_le(0, bytes.subrange(98, 106));
        Pubkey::lemma_from_seq(bytes.subrange(9, 41), order.owner);
        Pubkey::lemma_from_seq(bytes.subrange(41, 73), order.owner);
        assert(order.packed() =~= bytes);
    }
}

/// A side of the book.
#[derive(Clone, Copy, Debug, PartialEq, Eq, Structural)]
pub enum OrderBookSide {
    /// Buy orders.
    Bids,
    /// Sell orders.
    Asks,
}

/// One match between a resting order and an incoming one.
#[derive(Clone, Copy, Debug, PartialEq, Eq)]
pub struct Trade {
    /// The resting order.
    pub maker_order_id: u64,
    /// The incoming order.
    pub taker_order_id: u64,
    /// Owner of the resting order.
    pub maker: Pubkey,
    /// Owner of the incoming order.
    pub taker: Pubkey,
    /// Price per base unit, in quote units.
    pub price: u64,
    /// Quantity exchanged, in base units.
    pub quantity: u64,
    /// Whether the taker bought.
    pub taker_side: bool,
    /// Seconds since the epoch.
    pub timestamp: u64,
}

/// Copies `src` over the start of `dst`.
pub(crate) fn overwrite_prefix(dst: &mut [u8], src: &Vec<u8>)
    requires
        src.len() <= old(dst).len(),
    ensures
        final(dst)@ == src@ + old(dst)@.skip(src.len() as int),
{
    let mut i: usize = 0;
    while i < src.len()
        invariant
            i <= src.len() <= dst.len(),
            dst.len() == old(dst).len(),
            dst@ == src@.subrange(0, i as int) + old(dst)@.skip(i as int),
        decreases src.len() - i,
    {
        dst[i] = src[i];
        assert(dst@ =~= src@.subrange(0, i + 1) + old(dst)@.skip(i + 1));
        i += 1;
    }
    assert(src@.subrange(0, src.len() as int) =~= src@);
}

} // verus!
