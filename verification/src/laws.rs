//! What holds of the transitions taken together.
//!
//! Every statement here is about the specification functions of
//! `Processor`, which the contracts of its executable functions pin the
//! results to. That a failed transition leaves every account unchanged
//! is part of those contracts.

use vstd::prelude::*;
use crate::codec::u64_le;
use crate::error::{DexError, ProgramError};
use crate::instruction::DexInstruction;
use crate::processor::{AccountView, InvocationView, Processor};
use crate::pubkey::Pubkey;
use crate::state::{Market, Order};
use crate::token::transfer_request;

verus! {

/// A market survives storage: unpacking what was packed gives the market
/// back, and bytes that store a market are exactly its packing.
pub proof fn market_round_trips(market: Market, bytes: Seq<u8>)
    ensures
        market.packed().len() == Market::LEN,
        Market::unpacked(market.packed()) == Some(market),
        Market::unpacked(bytes) matches Some(stored) ==> stored.packed() == bytes,
{
    Market::lemma_packed_len(market);
    Market::lemma_pack_unpack(market);
    if Market::unpacked(bytes) is Some {
        Market::lemma_unpack_pack(bytes);
    }
}

/// An order survives storage: unpacking what was packed gives the order
/// back, and bytes that store an order are exactly its packing.
pub proof fn order_round_trips(order: Order, bytes: Seq<u8>)
    ensures
        order.packed().len() == Order::LEN,
        Order::unpacked(order.packed()) == Some(order),
        Order::unpacked(bytes) matches Some(stored) ==> stored.packed() == bytes,
{
    Order::lemma_packed_len(order);
    Order::lemma_pack_unpack(order);
    if Order::unpacked(bytes) is Some {
        Order::lemma_unpack_pack(bytes);
    }
}

/// An operation survives the wire: decoding what was encoded gives the
/// operation back, and bytes that decode are exactly the encoding of
/// what they decode to.
pub proof fn instruction_round_trips(instruction: DexInstruction, bytes: Seq<u8>)
    ensures
        DexInstruction::unpacked(instruction.packed()) == Some(instruction),
        DexInstruction::unpacked(bytes) matches Some(decoded) ==> decoded.packed() == bytes,
{
    DexInstruction::lemma_pack_unpack(instruction);
    if DexInstruction::unpacked(bytes) is Some {
        DexInstruction::lemma_unpack_pack(bytes);
    }
}

/// A market that has just been initialized starts its order ids at 1,
/// has no open orders, and otherwise holds exactly what the instruction
/// and its accounts gave: the leading bytes of the market account store
/// that market, and no other account has changed.
pub proof fn initialized_market_is_fresh(
    program_id: Pubkey,
    accounts: Seq<AccountView>,
    min_base_order_size: u64,
    tick_size: u64,
    fee_rate_bps: u16,
)
    requires
        Processor::initialize_market_error(program_id, accounts) is None,
    ensures
        ({
            &&& Processor::initialize_market(
                program_id,
                accounts,
                min_base_order_size,
                tick_size,
                fee_rate_bps,
            ) matches Ok(outcome)
            &&& outcome.accounts.len() == accounts.len()
            &&& forall|i: int|
                0 <= i < accounts.len() && i != 1 ==> outcome.accounts[i] == accounts[i]
            &&& outcome.accounts[1].key == accounts[1].key
            &&& outcome.accounts[1].owner == program_id
            &&& Market::unpacked(outcome.accounts[1].data.subrange(0, Market::LEN as int))
                == Some(
                Market {
                    is_initialized: true,
                    authority: accounts[0].key,
                    base_mint: accounts[2].key,
                    quote_mint: accounts[3].key,
                    min_base_order_size,
                    tick_size,
                    fee_rate_bps,
                    next_order_id: 1,
                    num_bids: 0,
                    num_asks: 0,
                },
            )
        }),
{
    let market = Processor::opened_market(
        accounts[0].key,
        accounts[2].key,
        accounts[3].key,
        min_base_order_size,
        tick_size,
        fee_rate_bps,
    );
    let outcome = Processor::initialize_market_outcome(
        program_id,
        accounts,
        min_base_order_size,
        tick_size,
        fee_rate_bps,
    );
    Market::lemma_packed_len(market);
    Market::lemma_pack_unpack(market);
    assert(outcome.accounts[1].data.subrange(0, Market::LEN as int) =~= market.packed());
}

/// A placed order is whole: it is open under the id that was the
/// market's next, with its remaining and original quantity both equal to
/// the quantity asked for, and it keeps to the market's rules; and the
/// market's next id has grown by exactly one, as has its count of open
/// orders of that side.
pub proof fn placed_order_is_whole(
    program_id: Pubkey,
    accounts: Seq<AccountView>,
    is_buy: bool,
    limit_price: u64,
    quantity: u64,
    unix_timestamp: i64,
)
    requires
        Processor::place_limit_order_error(program_id, accounts, is_buy, limit_price, quantity)
            is None,
    ensures
        ({
            &&& Processor::place_limit_order(
                program_id,
                accounts,
                is_buy,
                limit_price,
                quantity,
                unix_timestamp,
            ) matches Ok(outcome)
            &&& Market::unpacked(accounts[1].data) matches Some(before)
            &&& Market::unpacked(outcome.accounts[1].data) matches Some(after)
            &&& Order::unpacked(
                outcome.accounts[2].data.subrange(0, Order::LEN as int),
            ) matches Some(order)
            &&& order.is_initialized
            &&& order.order_id == before.next_order_id
            &&& order.owner == accounts[0].key
            &&& order.market == accounts[1].key
            &&& order.is_buy == is_buy
            &&& order.limit_price == limit_price
            &&& order.original_quantity == quantity
            &&& order.remaining_quantity == quantity
            &&& order.keeps_to(before)
            &&& order.keeps_to(after)
            &&& after.next_order_id == before.next_order_id + 1
            &&& after.num_bids == before.num_bids + (if is_buy { 1int } else { 0int })
            &&& after.num_asks == before.num_asks + (if is_buy { 0int } else { 1int })
        }),
{
    let before = Market::unpacked(accounts[1].data)->0;
    let order = Processor::placed_order(
        before.next_order_id,
        accounts[0].key,
        accounts[1].key,
        is_buy,
        limit_price,
        quantity,
        unix_timestamp,
    );
    let outcome = Processor::place_limit_order_outcome(
        program_id,
        accounts,
        is_buy,
        limit_price,
        quantity,
        unix_timestamp,
    );
    Order::lemma_packed_len(order);
    Order::lemma_pack_unpack(order);
    Market::lemma_pack_unpack(before.placing(is_buy));
    assert(outcome.accounts[2].data.subrange(0, Order::LEN as int) =~= order.packed());
}

/// An order below the market's minimum size is refused with
/// `InvalidOrderSize`.
pub proof fn small_order_is_refused(
    program_id: Pubkey,
    accounts: Seq<AccountView>,
    is_buy: bool,
    limit_price: u64,
    quantity: u64,
    unix_timestamp: i64,
)
    requires
        accounts.len() >= 6,
        accounts[0].is_signer,
        Market::unpacked(accounts[1].data) matches Some(market) && market.is_initialized
            && quantity < market.min_base_order_size,
    ensures
        Processor::place_limit_order(
            program_id,
            accounts,
            is_buy,
            limit_price,
            quantity,
            unix_timestamp,
        ) == Err::<crate::processor::Outcome, ProgramError>(
            Processor::refusal(DexError::InvalidOrderSize),
        ),
{
}

/// An order of sufficient size whose price is no multiple of the
/// market's tick size, or whose market has a tick size of zero, is
/// refused with `InvalidOrderPrice`.
pub proof fn off_tick_price_is_refused(
    program_id: Pubkey,
    accounts: Seq<AccountView>,
    is_buy: bool,
    limit_price: u64,
    quantity: u64,
    unix_timestamp: i64,
)
    requires
        accounts.len() >= 6,
        accounts[0].is_signer,
        Market::unpacked(accounts[1].data) matches Some(market) && market.is_initialized
            && quantity >= market.min_base_order_size && (market.tick_size == 0 || limit_price
            % market.tick_size != 0),
    ensures
        Processor::place_limit_order(
            program_id,
            accounts,
            is_buy,
            limit_price,
            quantity,
            unix_timestamp,
        ) == Err::<crate::processor::Outcome, ProgramError>(
            Processor::refusal(DexError::InvalidOrderPrice),
        ),
{
}

/// Nobody but its owner can cancel an open order: for any other signer
/// the cancellation is refused with `AccountNotAuthorized`.
pub proof fn stranger_cannot_cancel(accounts: Seq<AccountView>)
    requires
        accounts.len() >= 5,
        accounts[0].is_signer,
        Order::unpacked(accounts[2].data) matches Some(order) && order.is_initialized
            && order.owner != accounts[0].key,
    ensures
        Processor::cancel_order(accounts) == Err::<crate::processor::Outcome, ProgramError>(
            Processor::refusal(DexError::AccountNotAuthorized),
        ),
{
}

/// Cancelling undoes placing. If an order is placed in an account that
/// holds exactly one record, its owner can cancel it at once; the
/// cancellation asks for the very amount that the placement locked
/// (price times quantity for a buy order, the quantity for a sell
/// order) to go back from the order account to the owner's token
/// account, returns the market's counts of open orders to what they were
/// before the placement, and leaves the order account zeroed. The id
/// that the order used stays used.
pub proof fn cancel_undoes_place(
    program_id: Pubkey,
    accounts: Seq<AccountView>,
    is_buy: bool,
    limit_price: u64,
    quantity: u64,
    unix_timestamp: i64,
)
    requires
        Processor::place_limit_order_error(program_id, accounts, is_buy, limit_price, quantity)
            is None,
        accounts[2].owner == program_id ==> accounts[2].data.len() == Order::LEN,
    ensures
        ({
            let placed = Processor::place_limit_order_outcome(
                program_id,
                accounts,
                is_buy,
                limit_price,
                quantity,
                unix_timestamp,
            );
            let before = Market::unpacked(accounts[1].data)->0;
            let amount = Processor::lock_amount(is_buy, limit_price, quantity) as u64;
            &&& amount == Processor::lock_amount(is_buy, limit_price, quantity)
            &&& placed.invocations.last() == (InvocationView::Transfer {
                instruction: transfer_request(
                    accounts[4].key,
                    accounts[3].key,
                    accounts[2].key,
                    accounts[0].key,
                    amount,
                ),
                accounts: seq![3usize, 2, 0, 4],
                signer_seed: None,
            })
            &&& Processor::cancel_order(placed.accounts) matches Ok(cancelled)
            &&& cancelled.invocations == seq![
                InvocationView::Transfer {
                    instruction: transfer_request(
                        accounts[4].key,
                        accounts[2].key,
                        accounts[3].key,
                        accounts[2].key,
                        amount,
                    ),
                    accounts: seq![2usize, 3, 2, 4],
                    signer_seed: Some(u64_le(before.next_order_id)),
                },
            ]
            &&& Market::unpacked(cancelled.accounts[1].data) matches Some(after)
            &&& after.num_bids == before.num_bids
            &&& after.num_asks == before.num_asks
            &&& after.next_order_id == before.next_order_id + 1
            &&& cancelled.accounts[2].data == Seq::new(Order::LEN as nat, |i: int| 0u8)
        }),
{
    let before = Market::unpacked(accounts[1].data)->0;
    let order = Processor::placed_order(
        before.next_order_id,
        accounts[0].key,
        accounts[1].key,
        is_buy,
        limit_price,
        quantity,
        unix_timestamp,
    );
    let placed = Processor::place_limit_order_outcome(
        program_id,
        accounts,
        is_buy,
        limit_price,
        quantity,
        unix_timestamp,
    );
    Order::lemma_packed_len(order);
    Order::lemma_pack_unpack(order);
    Market::lemma_pack_unpack(before.placing(is_buy));
    Market::lemma_pack_unpack(before.placing(is_buy).cancelling(is_buy));
    assert(placed.accounts[2].data =~= order.packed());
    assert(Order::unpacked(placed.accounts[2].data) == Some(order));
    assert(Market::unpacked(placed.accounts[1].data) == Some(before.placing(is_buy)));
    assert(order.locked_amount() == Processor::lock_amount(is_buy, limit_price, quantity));
    assert(Processor::cancel_order_error(placed.accounts) is None);
    let cancelled = Processor::cancel_order_outcome(placed.accounts);
    assert(cancelled.accounts[2].data =~= Seq::new(Order::LEN as nat, |i: int| 0u8));
}

/// A settlement conserves the quote amount: what the maker receives and
/// the fee add up to what leaves the taker, the fee being the quote
/// amount times the market's rate over 10000, rounded down; and it
/// changes no account.
pub proof fn settlement_conserves_quote(
    accounts: Seq<AccountView>,
    base_amount: u64,
    quote_amount: u64,
)
    requires
        Processor::settle_funds_error(accounts, quote_amount) is None,
    ensures
        ({
            let market = Market::unpacked(accounts[1].data)->0;
            let fee = (quote_amount * market.fee_rate_bps) / 10000;
            let to_maker = quote_amount - fee;
            &&& Processor::settle_funds(accounts, base_amount, quote_amount) matches Ok(outcome)
            &&& outcome.accounts == accounts
            &&& 0 <= fee <= quote_amount
            &&& to_maker + fee == quote_amount
            &&& outcome.invocations.len() == (if fee > 0 { 3nat } else { 2nat })
            &&& outcome.invocations[0] == (InvocationView::Transfer {
                instruction: transfer_request(
                    accounts[9].key,
                    accounts[6].key,
                    accounts[4].key,
                    accounts[1].key,
                    base_amount,
                ),
                accounts: seq![6usize, 4, 1, 9],
                signer_seed: Some(market.authority@),
            })
            &&& outcome.invocations[1] == (InvocationView::Transfer {
                instruction: transfer_request(
                    accounts[9].key,
                    accounts[5].key,
                    accounts[7].key,
                    accounts[1].key,
                    to_maker as u64,
                ),
                accounts: seq![5usize, 7, 1, 9],
                signer_seed: Some(market.authority@),
            })
            &&& fee > 0 ==> outcome.invocations[2] == (InvocationView::Transfer {
                instruction: transfer_request(
                    accounts[9].key,
                    accounts[5].key,
                    accounts[8].key,
                    accounts[1].key,
                    fee as u64,
                ),
                accounts: seq![5usize, 8, 1, 9],
                signer_seed: Some(market.authority@),
            })
        }),
{
}

/// The fee is the quote amount times the rate over 10000, rounded down;
/// at a rate of at most 10000 basis points it lies between zero and the
/// quote amount.
pub proof fn fee_is_bounded(market: Market, quote_amount: u64)
    requires
        market.fee_rate_bps <= 10000,
    ensures
        market.fee(quote_amount) == (quote_amount * market.fee_rate_bps) / 10000,
        0 <= market.fee(quote_amount) <= quote_amount,
{
    let product = quote_amount * market.fee_rate_bps;
    assert(0 <= product <= quote_amount * 10000) by (nonlinear_arith)
        requires
            product == quote_amount * market.fee_rate_bps,
            0 <= market.fee_rate_bps <= 10000,
            0 <= quote_amount,
    ;
}

} // verus!
