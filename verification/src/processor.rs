//! The transitions of the exchange: what each operation checks, how it
//! changes the market and order records, and which custody requests it
//! issues.
//!
//! A transition works on a list of accounts bound by position. It either
//! fails and leaves every account as it was, or it rewrites the records
//! and returns, in order, the requests that the host has to carry out
//! for the transition to stand: allocations by the system program and
//! transfers by the token program.

use vstd::prelude::*;
use crate::codec::{put_key, put_u64, u64_le};
use crate::error::{return_dex_error, DexError, ProgramError};
use crate::instruction::{DexInstruction, Instruction, InstructionView, SelfTradeBehavior};
use crate::pubkey::Pubkey;
use crate::state::{overwrite_prefix, Market, Order};
use crate::token::{token_program_key, transfer, transfer_request};

verus! {

/// An account as a transition sees it.
#[derive(Clone, Debug, PartialEq, Eq)]
pub struct Account {
    /// The account's identity.
    pub key: Pubkey,
    /// Whether the transaction carries this account's signature.
    pub is_signer: bool,
    /// The program that owns the account and alone may change its data.
    pub owner: Pubkey,
    /// The bytes stored in the account.
    pub data: Vec<u8>,
}

/// An `Account` as a mathematical value.
pub struct AccountView {
    pub key: Pubkey,
    pub is_signer: bool,
    pub owner: Pubkey,
    pub data: Seq<u8>,
}

impl View for Account {
    type V = AccountView;

    open spec fn view(&self) -> AccountView {
        AccountView {
            key: self.key,
            is_signer: self.is_signer,
            owner: self.owner,
            data: self.data@,
        }
    }
}

impl DeepView for Account {
    type V = AccountView;

    open spec fn deep_view(&self) -> AccountView {
        self@
    }
}

impl AccountView {
    /// The account once `program_id` has stored `record` in it. An
    /// account that the program does not own yet is allocated for it at
    /// the record's length; in one that it owns the record replaces the
    /// leading bytes.
    pub open spec fn storing(self, program_id: Pubkey, record: Seq<u8>) -> AccountView {
        if self.owner == program_id {
            AccountView {
                key: self.key,
                is_signer: self.is_signer,
                owner: self.owner,
                data: record + self.data.skip(record.len() as int),
            }
        } else {
            AccountView {
                key: self.key,
                is_signer: self.is_signer,
                owner: program_id,
                data: record,
            }
        }
    }

    /// The account with every byte of its data set to zero.
    pub open spec fn cleared(self) -> AccountView {
        AccountView {
            key: self.key,
            is_signer: self.is_signer,
            owner: self.owner,
            data: Seq::new(self.data.len(), |i: int| 0u8),
        }
    }

    /// The account with `data` in place of its data.
    pub open spec fn holding(self, data: Seq<u8>) -> AccountView {
        AccountView { key: self.key, is_signer: self.is_signer, owner: self.owner, data }
    }
}

/// A request that the host carries out on behalf of a transition.
/// Accounts are named by their position in the transition's list.
#[derive(Clone, Debug, PartialEq, Eq)]
pub enum Invocation {
    /// Have the system program allocate `space` bytes to the account
    /// `to`, owned by `owner` and funded by `from` with the smallest
    /// balance that is exempt from rent.
    CreateAccount {
        /// Who pays.
        from: Pubkey,
        /// The account to allocate.
        to: Pubkey,
        /// Its size in bytes.
        space: u64,
        /// The program that will own it.
        owner: Pubkey,
        /// The accounts handed to the system program.
        accounts: Vec<usize>,
        /// Where to read the rent parameters: the account at this
        /// position, or the host's own record of them.
        rent_account: Option<usize>,
    },
    /// Have the token program carry out a transfer.
    Transfer {
        /// The transfer.
        instruction: Instruction,
        /// The accounts handed to the token program.
        accounts: Vec<usize>,
        /// The seed of the program-derived authority that signs, if the
        /// authority is not a signer of the transaction.
        signer_seed: Option<Vec<u8>>,
    },
}

/// An `Invocation` as a mathematical value.
pub enum InvocationView {
    CreateAccount {
        from: Pubkey,
        to: Pubkey,
        space: u64,
        owner: Pubkey,
        accounts: Seq<usize>,
        rent_account: Option<usize>,
    },
    Transfer { instruction: InstructionView, accounts: Seq<usize>, signer_seed: Option<Seq<u8>> },
}

impl View for Invocation {
    type V = InvocationView;

    open spec fn view(&self) -> InvocationView {
        match *self {
            Invocation::CreateAccount { from, to, space, owner, accounts, rent_account } => {
                InvocationView::CreateAccount {
                    from,
                    to,
                    space,
                    owner,
                    accounts: accounts@,
                    rent_account,
                }
            },
            Invocation::Transfer { instruction, accounts, signer_seed } => {
                InvocationView::Transfer {
                    instruction: instruction@,
                    accounts: accounts@,
                    signer_seed: match signer_seed {
                        Some(seed) => Some(seed@),
                        None => None,
                    },
                }
            },
        }
    }
}

impl DeepView for Invocation {
    type V = InvocationView;

    open spec fn deep_view(&self) -> InvocationView {
        self@
    }
}

/// What a transition does when it succeeds: the accounts afterwards and
/// the requests it issues.
pub struct Outcome {
    pub accounts: Seq<AccountView>,
    pub invocations: Seq<InvocationView>,
}

/// The transitions of the exchange.
pub struct Processor {}

/// Stores `record` in `account` on behalf of `program_id`: allocates the
/// account for the program if it is not the owner yet, and otherwise
/// writes over the leading bytes.
fn store_record(account: &mut Account, program_id: &Pubkey, record: Vec<u8>)
    requires
        old(account).owner == *program_id ==> record.len() <= old(account).data.len(),
    ensures
        final(account)@ == old(account)@.storing(*program_id, record@),
{
    if account.owner == *program_id {
        overwrite_prefix(account.data.as_mut_slice(), &record);
    } else {
        account.owner = *program_id;
        account.data = record;
    }
}

/// Sets every byte of `data` to zero.
fn clear(data: &mut Vec<u8>)
    ensures
        final(data)@ == Seq::new(old(data)@.len(), |i: int| 0u8),
{
    let mut i: usize = 0;
    while i < data.len()
        invariant
            i <= data.len(),
            data.len() == old(data).len(),
            forall|j: int| 0 <= j < i ==> data[j] == 0,
        decreases data.len() - i,
    {
        data[i] = 0;
        i += 1;
    }
    assert(data@ =~= Seq::new(old(data)@.len(), |i: int| 0u8));
}

impl Processor {
    /// The host-level error for a failure of the exchange.
    pub open spec fn refusal(error: DexError) -> ProgramError {
        ProgramError::Custom(error.spec_code())
    }

    /// The market that `InitializeMarket` writes.
    pub open spec fn opened_market(
        authority: Pubkey,
        base_mint: Pubkey,
        quote_mint: Pubkey,
        min_base_order_size: u64,
        tick_size: u64,
        fee_rate_bps: u16,
    ) -> Market {
        Market {
            is_initialized: true,
            authority,
            base_mint,
            quote_mint,
            min_base_order_size,
            tick_size,
            fee_rate_bps,
            next_order_id: 1,
            num_bids: 0,
            num_asks: 0,
        }
    }

    /// Why `InitializeMarket` fails, if it does. The authority must have
    /// signed, and a market account that the program already owns must
    /// have room for the record.
    pub open spec fn initialize_market_error(
        program_id: Pubkey,
        accounts: Seq<AccountView>,
    ) -> Option<ProgramError> {
        if accounts.len() < 6 {
            Some(ProgramError::NotEnoughAccountKeys)
        } else if !accounts[0].is_signer {
            Some(Self::refusal(DexError::AccountNotAuthorized))
        } else if accounts[1].owner == program_id && accounts[1].data.len() < Market::LEN {
            Some(Self::refusal(DexError::InvalidAccountData))
        } else {
            None
        }
    }

    /// What `InitializeMarket` does when it succeeds: it stores a fresh
    /// market in the market account and, if the program does not own
    /// that account yet, has it allocated.
    pub open spec fn initialize_market_outcome(
        program_id: Pubkey,
        accounts: Seq<AccountView>,
        min_base_order_size: u64,
        tick_size: u64,
        fee_rate_bps: u16,
    ) -> Outcome {
        let market = Self::opened_market(
            accounts[0].key,
            accounts[2].key,
            accounts[3].key,
            min_base_order_size,
            tick_size,
            fee_rate_bps,
        );
        Outcome {
            accounts: accounts.update(1, accounts[1].storing(program_id, market.packed())),
            invocations: if accounts[1].owner == program_id {
                seq![]
            } else {
                seq![
                    InvocationView::CreateAccount {
                        from: accounts[0].key,
                        to: accounts[1].key,
                        space: Market::LEN as u64,
                        owner: program_id,
                        accounts: seq![0usize, 1, 5],
                        rent_account: Some(4usize),
                    },
                ]
            },
        }
    }

    /// `InitializeMarket` on accounts bound as: 0 the market authority, 1
    /// the market account, 2 the base mint, 3 the quote mint, 4 the rent
    /// sysvar, 5 the system program.
    pub open spec fn initialize_market(
        program_id: Pubkey,
        accounts: Seq<AccountView>,
        min_base_order_size: u64,
        tick_size: u64,
        fee_rate_bps: u16,
    ) -> Result<Outcome, ProgramError> {
        match Self::initialize_market_error(program_id, accounts) {
            Some(error) => Err(error),
            None => Ok(
                Self::initialize_market_outcome(
                    program_id,
                    accounts,
                    min_base_order_size,
                    tick_size,
                    fee_rate_bps,
                ),
            ),
        }
    }

    /// Applies `InitializeMarket` to `accounts`.
    pub fn process_initialize_market(
        program_id: &Pubkey,
        accounts: &mut Vec<Account>,
        min_base_order_size: u64,
        tick_size: u64,
        fee_rate_bps: u16,
    ) -> (result: Result<Vec<Invocation>, ProgramError>)
        ensures
            match Self::initialize_market(
                *program_id,
                old(accounts).deep_view(),
                min_base_order_size,
                tick_size,
                fee_rate_bps,
            ) {
                Ok(outcome) => result matches Ok(invocations) && invocations.deep_view()
                    == outcome.invocations && final(accounts).deep_view() == outcome.accounts,
                Err(error) => result matches Err(e) && e == error && *final(accounts) == *old(
                    accounts,
                ),
            },
    {
        if accounts.len() < 6 {
            return Err(ProgramError::NotEnoughAccountKeys);
        }
        if !accounts[0].is_signer {
            return Err(
                return_dex_error(DexError::AccountNotAuthorized, "Market authority must sign"),
            );
        }
        let owned = accounts[1].owner == *program_id;
        if owned && accounts[1].data.len() < Market::LEN {
            return Err(
                return_dex_error(DexError::InvalidAccountData, "Market account too small"),
            );
        }
        let market = Market {
            is_initialized: true,
            authority: accounts[0].key,
            base_mint: accounts[2].key,
            quote_mint: accounts[3].key,
            min_base_order_size,
            tick_size,
            fee_rate_bps,
            next_order_id: 1,
            num_bids: 0,
            num_asks: 0,
        };
        let mut invocations: Vec<Invocation> = Vec::new();
        if !owned {
            invocations.push(
                Invocation::CreateAccount {
                    from: accounts[0].key,
                    to: accounts[1].key,
                    space: Market::LEN as u64,
                    owner: *program_id,
                    accounts: vec![0, 1, 5],
                    rent_account: Some(4),
                },
            );
        }
        store_record(&mut accounts[1], program_id, market.to_bytes());
        proof {
            let outcome = Self::initialize_market_outcome(
                *program_id,
                old(accounts).deep_view(),
                min_base_order_size,
                tick_size,
                fee_rate_bps,
            );
            assert(accounts.deep_view() =~= outcome.accounts);
            assert(invocations.deep_view() =~= outcome.invocations);
        }
        Ok(invocations)
    }

    /// The order that a placement writes: open, nothing filled yet.
    pub open spec fn placed_order(
        order_id: u64,
        owner: Pubkey,
        market: Pubkey,
        is_buy: bool,
        limit_price: u64,
        quantity: u64,
        unix_timestamp: i64,
    ) -> Order {
        Order {
            is_initialized: true,
            order_id,
            owner,
            market,
            is_buy,
            limit_price,
            original_quantity: quantity,
            remaining_quantity: quantity,
            creation_timestamp: unix_timestamp as u64,
        }
    }

    /// The collateral of an order: its quote value for a buy order, its
    /// base quantity for a sell order.
    pub open spec fn lock_amount(is_buy: bool, limit_price: u64, quantity: u64) -> int {
        if is_buy {
            limit_price * quantity
        } else {
            quantity as int
        }
    }

    /// Why `PlaceLimitOrder` fails, if it does. The checks, in the order
    /// in which they decide the error: enough accounts; the owner
    /// signed; the market account stores a market; it is initialized;
    /// the quantity reaches the market's minimum; the price is a
    /// multiple of a nonzero tick size; an order account that the
    /// program owns has room for the record; the market's counters and
    /// the collateral fit in 64 bits; the token program is the token
    /// program.
    pub open spec fn place_limit_order_error(
        program_id: Pubkey,
        accounts: Seq<AccountView>,
        is_buy: bool,
        limit_price: u64,
        quantity: u64,
    ) -> Option<ProgramError> {
        if accounts.len() < 6 {
            Some(ProgramError::NotEnoughAccountKeys)
        } else if !accounts[0].is_signer {
            Some(Self::refusal(DexError::AccountNotAuthorized))
        } else {
            match Market::unpacked(accounts[1].data) {
                None => Some(Self::refusal(DexError::InvalidAccountData)),
                Some(market) => {
                    if !market.is_initialized {
                        Some(Self::refusal(DexError::InvalidAccountData))
                    } else if quantity < market.min_base_order_size {
                        Some(Self::refusal(DexError::InvalidOrderSize))
                    } else if market.tick_size == 0 || limit_price % market.tick_size != 0 {
                        Some(Self::refusal(DexError::InvalidOrderPrice))
                    } else if accounts[2].owner == program_id && accounts[2].data.len()
                        < Order::LEN {
                        Some(Self::refusal(DexError::InvalidAccountData))
                    } else if market.next_order_id == u64::MAX || (if is_buy {
                        market.num_bids
                    } else {
                        market.num_asks
                    }) == u64::MAX {
                        Some(Self::refusal(DexError::ArithmeticOverflow))
                    } else if Self::lock_amount(is_buy, limit_price, quantity) > u64::MAX {
                        Some(Self::refusal(DexError::ArithmeticOverflow))
                    } else if accounts[4].key@ != token_program_key() {
                        Some(ProgramError::IncorrectProgramId)
                    } else {
                        None
                    }
                },
            }
        }
    }

    /// What `PlaceLimitOrder` does when it succeeds: it stores the new
    /// order under the market's next id, counts it in the market, and
    /// asks for the collateral to be moved from the owner's token
    /// account to the order account on the owner's signature, after
    /// having the order account allocated if the program does not own it
    /// yet.
    pub open spec fn place_limit_order_outcome(
        program_id: Pubkey,
        accounts: Seq<AccountView>,
        is_buy: bool,
        limit_price: u64,
        quantity: u64,
        unix_timestamp: i64,
    ) -> Outcome {
        let market = Market::unpacked(accounts[1].data)->0;
        let order = Self::placed_order(
            market.next_order_id,
            accounts[0].key,
            accounts[1].key,
            is_buy,
            limit_price,
            quantity,
            unix_timestamp,
        );
        let lock = InvocationView::Transfer {
            instruction: transfer_request(
                accounts[4].key,
                accounts[3].key,
                accounts[2].key,
                accounts[0].key,
                Self::lock_amount(is_buy, limit_price, quantity) as u64,
            ),
            accounts: seq![3usize, 2, 0, 4],
            signer_seed: None,
        };
        Outcome {
            accounts: accounts.update(2, accounts[2].storing(program_id, order.packed())).update(
                1,
                accounts[1].holding(market.placing(is_buy).packed()),
            ),
            invocations: if accounts[2].owner == program_id {
                seq![lock]
            } else {
                seq![
                    InvocationView::CreateAccount {
                        from: accounts[0].key,
                        to: accounts[2].key,
                        space: Order::LEN as u64,
                        owner: program_id,
                        accounts: seq![0usize, 2, 5],
                        rent_account: None,
                    },
                    lock,
                ]
            },
        }
    }

    /// `PlaceLimitOrder` on accounts bound as: 0 the owner, 1 the market,
    /// 2 the order account, 3 the owner's token account, 4 the token
    /// program, 5 the system program; `unix_timestamp` is the host's
    /// clock.
    pub open spec fn place_limit_order(
        program_id: Pubkey,
        accounts: Seq<AccountView>,
        is_buy: bool,
        limit_price: u64,
        quantity: u64,
        unix_timestamp: i64,
    ) -> Result<Outcome, ProgramError> {
        match Self::place_limit_order_error(program_id, accounts, is_buy, limit_price, quantity) {
            Some(error) => Err(error),
            None => Ok(
                Self::place_limit_order_outcome(
                    program_id,
                    accounts,
                    is_buy,
                    limit_price,
                    quantity,
                    unix_timestamp,
                ),
            ),
        }
    }

    /// The checks of `PlaceLimitOrder`, and on success the new order, the
    /// market after the placement and the request that locks the
    /// collateral.
    fn check_place_limit_order(
        program_id: &Pubkey,
        accounts: &Vec<Account>,
        is_buy: bool,
        limit_price: u64,
        quantity: u64,
        unix_timestamp: i64,
    ) -> (result: Result<(Order, Market, Instruction), ProgramError>)
        ensures
            match Self::place_limit_order_error(
                *program_id,
                accounts.deep_view(),
                is_buy,
                limit_price,
                quantity,
            ) {
                Some(error) => result matches Err(e) && e == error,
                None => result matches Ok((order, market, instruction)) && order
                    == Self::placed_order(
                    Market::unpacked(accounts[1].data@)->0.next_order_id,
                    accounts[0].key,
                    accounts[1].key,
                    is_buy,
                    limit_price,
                    quantity,
                    unix_timestamp,
                ) && market == Market::unpacked(accounts[1].data@)->0.placing(is_buy)
                    && instruction@ == transfer_request(
                    accounts[4].key,
                    accounts[3].key,
                    accounts[2].key,
                    accounts[0].key,
                    Self::lock_amount(is_buy, limit_price, quantity) as u64,
                ),
            },
    {
        if accounts.len() < 6 {
            return Err(ProgramError::NotEnoughAccountKeys);
        }
        if !accounts[0].is_signer {
            return Err(return_dex_error(DexError::AccountNotAuthorized, "Order owner must sign"));
        }
        let mut market = match Market::unpack_from_slice(accounts[1].data.as_slice()) {
            Ok(market) => market,
            Err(error) => {
                return Err(error);
            },
        };
        if !market.is_initialized {
            return Err(return_dex_error(DexError::InvalidAccountData, "Market not initialized"));
        }
        if quantity < market.min_base_order_size {
            return Err(return_dex_error(DexError::InvalidOrderSize, "Order size below minimum"));
        }
        if market.tick_size == 0 || limit_price % market.tick_size != 0 {
            return Err(
                return_dex_error(
                    DexError::InvalidOrderPrice,
                    "Price not a multiple of tick size",
                ),
            );
        }
        if accounts[2].owner == *program_id && accounts[2].data.len() < Order::LEN {
            return Err(return_dex_error(DexError::InvalidAccountData, "Order account too small"));
        }
        let order = Order {
            is_initialized: true,
            order_id: market.next_order_id,
            owner: accounts[0].key,
            market: accounts[1].key,
            is_buy,
            limit_price,
            original_quantity: quantity,
            remaining_quantity: quantity,
            creation_timestamp: unix_timestamp as u64,
        };
        let ghost before = market;
        market.next_order_id = match market.next_order_id.checked_add(1) {
            Some(next) => next,
            None => {
                return Err(
                    return_dex_error(DexError::ArithmeticOverflow, "Order ids exhausted"),
                );
            },
        };
        if is_buy {
            market.num_bids = match market.num_bids.checked_add(1) {
                Some(count) => count,
                None => {
                    return Err(
                        return_dex_error(DexError::ArithmeticOverflow, "Order count exhausted"),
                    );
                },
            };
        } else {
            market.num_asks = match market.num_asks.checked_add(1) {
                Some(count) => count,
                None => {
                    return Err(
                        return_dex_error(DexError::ArithmeticOverflow, "Order count exhausted"),
                    );
                },
            };
        }
        assert(market == before.placing(is_buy));
        let amount = if is_buy {
            match limit_price.checked_mul(quantity) {
                Some(amount) => amount,
                None => {
                    return Err(
                        return_dex_error(DexError::ArithmeticOverflow, "Collateral overflows"),
                    );
                },
            }
        } else {
            quantity
        };
        match transfer(
            &accounts[4].key,
            &accounts[3].key,
            &accounts[2].key,
            &accounts[0].key,
            amount,
        ) {
            Ok(instruction) => Ok((order, market, instruction)),
            Err(error) => Err(error),
        }
    }

    /// Applies `PlaceLimitOrder` to `accounts`. The self-trade choice is
    /// accepted and has no effect.
    pub fn process_place_limit_order(
        program_id: &Pubkey,
        accounts: &mut Vec<Account>,
        is_buy: bool,
        limit_price: u64,
        quantity: u64,
        _self_trade_behavior: SelfTradeBehavior,
        unix_timestamp: i64,
    ) -> (result: Result<Vec<Invocation>, ProgramError>)
        ensures
            match Self::place_limit_order(
                *program_id,
                old(accounts).deep_view(),
                is_buy,
                limit_price,
                quantity,
                unix_timestamp,
            ) {
                Ok(outcome) => result matches Ok(invocations) && invocations.deep_view()
                    == outcome.invocations && final(accounts).deep_view() == outcome.accounts,
                Err(error) => result matches Err(e) && e == error && *final(accounts) == *old(
                    accounts,
                ),
            },
    {
        let (order, market, instruction) = match Self::check_place_limit_order(
            program_id,
            accounts,
            is_buy,
            limit_price,
            quantity,
            unix_timestamp,
        ) {
            Ok(checked) => checked,
            Err(error) => {
                return Err(error);
            },
        };
        let mut invocations: Vec<Invocation> = Vec::new();
        if accounts[2].owner != *program_id {
            invocations.push(
                Invocation::CreateAccount {
                    from: accounts[0].key,
                    to: accounts[2].key,
                    space: Order::LEN as u64,
                    owner: *program_id,
                    accounts: vec![0, 2, 5],
                    rent_account: None,
                },
            );
        }
        store_record(&mut accounts[2], program_id, order.to_bytes());
        accounts[1].data = market.to_bytes();
        invocations.push(
            Invocation::Transfer { instruction, accounts: vec![3, 2, 0, 4], signer_seed: None },
        );
        proof {
            let outcome = Self::place_limit_order_outcome(
                *program_id,
                old(accounts).deep_view(),
                is_buy,
                limit_price,
                quantity,
                unix_timestamp,
            );
            assert(accounts.deep_view() =~= outcome.accounts);
            assert(invocations.deep_view() =~= outcome.invocations);
        }
        Ok(invocations)
    }

    /// Why `CancelOrder` fails, if it does. The checks, in the order in
    /// which they decide the error: enough accounts; the caller signed;
    /// the order account stores an order; it is open; the caller is its
    /// owner; the market account stores a market; it is initialized; it
    /// is the order's market; the collateral fits in 64 bits; the token
    /// program is the token program.
    pub open spec fn cancel_order_error(accounts: Seq<AccountView>) -> Option<ProgramError> {
        if accounts.len() < 5 {
            Some(ProgramError::NotEnoughAccountKeys)
        } else if !accounts[0].is_signer {
            Some(Self::refusal(DexError::AccountNotAuthorized))
        } else {
            match Order::unpacked(accounts[2].data) {
                None => Some(Self::refusal(DexError::InvalidAccountData)),
                Some(order) => {
                    if !order.is_initialized {
                        Some(Self::refusal(DexError::InvalidAccountData))
                    } else if order.owner != accounts[0].key {
                        Some(Self::refusal(DexError::AccountNotAuthorized))
                    } else {
                        match Market::unpacked(accounts[1].data) {
                            None => Some(Self::refusal(DexError::InvalidAccountData)),
                            Some(market) => {
                                if !market.is_initialized {
                                    Some(Self::refusal(DexError::InvalidAccountData))
                                } else if order.market != accounts[1].key {
                                    Some(Self::refusal(DexError::InvalidAccountData))
                                } else if order.locked_amount() > u64::MAX {
                                    Some(Self::refusal(DexError::ArithmeticOverflow))
                                } else if accounts[4].key@ != token_program_key() {
                                    Some(ProgramError::IncorrectProgramId)
                                } else {
                                    None
                                }
                            },
                        }
                    }
                },
            }
        }
    }

    /// What `CancelOrder` does when it succeeds: it asks for what the
    /// order holds to be moved from the order account back to the
    /// owner's token account, signed by the authority derived from the
    /// order's id, takes the order out of the market's count, and sets
    /// every byte of the order account to zero.
    pub open spec fn cancel_order_outcome(accounts: Seq<AccountView>) -> Outcome {
        let order = Order::unpacked(accounts[2].data)->0;
        let market = Market::unpacked(accounts[1].data)->0;
        Outcome {
            accounts: accounts.update(
                1,
                accounts[1].holding(market.cancelling(order.is_buy).packed()),
            ).update(2, accounts[2].cleared()),
            invocations: seq![
                InvocationView::Transfer {
                    instruction: transfer_request(
                        accounts[4].key,
                        accounts[2].key,
                        accounts[3].key,
                        accounts[2].key,
                        order.locked_amount() as u64,
                    ),
                    accounts: seq![2usize, 3, 2, 4],
                    signer_seed: Some(u64_le(order.order_id)),
                },
            ],
        }
    }

    /// `CancelOrder` on accounts bound as: 0 the owner, 1 the market, 2
    /// the order account, 3 the owner's token account, 4 the token
    /// program.
    pub open spec fn cancel_order(accounts: Seq<AccountView>) -> Result<Outcome, ProgramError> {
        match Self::cancel_order_error(accounts) {
            Some(error) => Err(error),
            None => Ok(Self::cancel_order_outcome(accounts)),
        }
    }

    /// The checks of `CancelOrder`, and on success the order, the market
    /// after the cancellation and the request that releases the
    /// collateral.
    fn check_cancel_order(accounts: &Vec<Account>) -> (result: Result<
        (Order, Market, Instruction),
        ProgramError,
    >)
        ensures
            match Self::cancel_order_error(accounts.deep_view()) {
                Some(error) => result matches Err(e) && e == error,
                None => result matches Ok((order, market, instruction)) && order == Order::unpacked(
                    accounts[2].data@,
                )->0 && market == Market::unpacked(accounts[1].data@)->0.cancelling(order.is_buy)
                    && instruction@ == transfer_request(
                    accounts[4].key,
                    accounts[2].key,
                    accounts[3].key,
                    accounts[2].key,
                    order.locked_amount() as u64,
                ),
            },
    {
        if accounts.len() < 5 {
            return Err(ProgramError::NotEnoughAccountKeys);
        }
        if !accounts[0].is_signer {
            return Err(return_dex_error(DexError::AccountNotAuthorized, "Order owner must sign"));
        }
        let order = match Order::unpack_from_slice(accounts[2].data.as_slice()) {
            Ok(order) => order,
            Err(error) => {
                return Err(error);
            },
        };
        if !order.is_initialized {
            return Err(return_dex_error(DexError::InvalidAccountData, "Order not initialized"));
        }
        if order.owner != accounts[0].key {
            return Err(return_dex_error(DexError::AccountNotAuthorized, "Not order owner"));
        }
        let mut market = match Market::unpack_from_slice(accounts[1].data.as_slice()) {
            Ok(market) => market,
            Err(error) => {
                return Err(error);
            },
        };
        if !market.is_initialized {
            return Err(return_dex_error(DexError::InvalidAccountData, "Market not initialized"));
        }
        if order.market != accounts[1].key {
            return Err(
                return_dex_error(
                    DexError::InvalidAccountData,
                    "Order does not belong to this market",
                ),
            );
        }
        let amount = if order.is_buy {
            match order.limit_price.checked_mul(order.remaining_quantity) {
                Some(amount) => amount,
                None => {
                    return Err(
                        return_dex_error(DexError::ArithmeticOverflow, "Collateral overflows"),
                    );
                },
            }
        } else {
            order.remaining_quantity
        };
        let instruction = match transfer(
            &accounts[4].key,
            &accounts[2].key,
            &accounts[3].key,
            &accounts[2].key,
            amount,
        ) {
            Ok(instruction) => instruction,
            Err(error) => {
                return Err(error);
            },
        };
        let ghost before = market;
        if order.is_buy {
            market.num_bids = market.num_bids.saturating_sub(1);
        } else {
            market.num_asks = market.num_asks.saturating_sub(1);
        }
        assert(market == before.cancelling(order.is_buy));
        Ok((order, market, instruction))
    }

    /// Applies `CancelOrder` to `accounts`.
    pub fn process_cancel_order(_program_id: &Pubkey, accounts: &mut Vec<Account>) -> (result:
        Result<Vec<Invocation>, ProgramError>)
        ensures
            match Self::cancel_order(old(accounts).deep_view()) {
                Ok(outcome) => result matches Ok(invocations) && invocations.deep_view()
                    == outcome.invocations && final(accounts).deep_view() == outcome.accounts,
                Err(error) => result matches Err(e) && e == error && *final(accounts) == *old(
                    accounts,
                ),
            },
    {
        let (order, market, instruction) = match Self::check_cancel_order(accounts) {
            Ok(checked) => checked,
            Err(error) => {
                return Err(error);
            },
        };
        let mut seed: Vec<u8> = Vec::new();
        put_u64(&mut seed, order.order_id);
        let mut invocations: Vec<Invocation> = Vec::new();
        invocations.push(
            Invocation::Transfer {
                instruction,
                accounts: vec![2, 3, 2, 4],
                signer_seed: Some(seed),
            },
        );
        accounts[1].data = market.to_bytes();
        clear(&mut accounts[2].data);
        proof {
            let outcome = Self::cancel_order_outcome(old(accounts).deep_view());
            assert(accounts.deep_view() =~= outcome.accounts);
            assert(invocations.deep_view() =~= outcome.invocations);
        }
        Ok(invocations)
    }

    /// Why `SettleFunds` fails, if it does. The checks, in the order in
    /// which they decide the error: enough accounts; the caller signed;
    /// the market account stores a market; it is initialized; the caller
    /// is its authority; the fee can be computed in 64 bits and does not
    /// exceed the quote amount; the token program is the token program.
    pub open spec fn settle_funds_error(
        accounts: Seq<AccountView>,
        quote_amount: u64,
    ) -> Option<ProgramError> {
        if accounts.len() < 10 {
            Some(ProgramError::NotEnoughAccountKeys)
        } else if !accounts[0].is_signer {
            Some(Self::refusal(DexError::AccountNotAuthorized))
        } else {
            match Market::unpacked(accounts[1].data) {
                None => Some(Self::refusal(DexError::InvalidAccountData)),
                Some(market) => {
                    if !market.is_initialized {
                        Some(Self::refusal(DexError::InvalidAccountData))
                    } else if market.authority != accounts[0].key {
                        Some(Self::refusal(DexError::AccountNotAuthorized))
                    } else if quote_amount * market.fee_rate_bps > u64::MAX {
                        Some(Self::refusal(DexError::ArithmeticOverflow))
                    } else if market.fee(quote_amount) > quote_amount {
                        Some(Self::refusal(DexError::ArithmeticOverflow))
                    } else if accounts[9].key@ != token_program_key() {
                        Some(ProgramError::IncorrectProgramId)
                    } else {
                        None
                    }
                },
            }
        }
    }

    /// The transfers of a settlement, all signed by the authority derived
    /// from the market authority's key: the base amount from the maker
    /// to the taker, the quote amount less the fee from the taker to the
    /// maker, and the fee, if there is one, from the taker to the fee
    /// recipient.
    pub open spec fn settle_funds_invocations(
        accounts: Seq<AccountView>,
        base_amount: u64,
        quote_amount: u64,
    ) -> Seq<InvocationView> {
        let market = Market::unpacked(accounts[1].data)->0;
        let fee = market.fee(quote_amount) as u64;
        let base = InvocationView::Transfer {
            instruction: transfer_request(
                accounts[9].key,
                accounts[6].key,
                accounts[4].key,
                accounts[1].key,
                base_amount,
            ),
            accounts: seq![6usize, 4, 1, 9],
            signer_seed: Some(market.authority@),
        };
        let quote = InvocationView::Transfer {
            instruction: transfer_request(
                accounts[9].key,
                accounts[5].key,
                accounts[7].key,
                accounts[1].key,
                (quote_amount - fee) as u64,
            ),
            accounts: seq![5usize, 7, 1, 9],
            signer_seed: Some(market.authority@),
        };
        let fee_payment = InvocationView::Transfer {
            instruction: transfer_request(
                accounts[9].key,
                accounts[5].key,
                accounts[8].key,
                accounts[1].key,
                fee,
            ),
            accounts: seq![5usize, 8, 1, 9],
            signer_seed: Some(market.authority@),
        };
        if fee > 0 {
            seq![base, quote, fee_payment]
        } else {
            seq![base, quote]
        }
    }

    /// `SettleFunds` on accounts bound as: 0 the market authority, 1 the
    /// market, 2 the taker, 3 the maker, 4 and 5 the taker's base and
    /// quote token accounts, 6 and 7 the maker's base and quote token
    /// accounts, 8 the fee recipient, 9 the token program. No account
    /// changes.
    pub open spec fn settle_funds(
        accounts: Seq<AccountView>,
        base_amount: u64,
        quote_amount: u64,
    ) -> Result<Outcome, ProgramError> {
        match Self::settle_funds_error(accounts, quote_amount) {
            Some(error) => Err(error),
            None => Ok(
                Outcome {
                    accounts,
                    invocations: Self::settle_funds_invocations(
                        accounts,
                        base_amount,
                        quote_amount,
                    ),
                },
            ),
        }
    }

    /// The checks of `SettleFunds` that concern the market, and on
    /// success the market and the fee.
    fn check_settle_funds(accounts: &Vec<Account>, quote_amount: u64) -> (result: Result<
        (Market, u64),
        ProgramError,
    >)
        ensures
            match result {
                Ok((market, fee)) => Self::settle_funds_error(accounts.deep_view(), quote_amount)
                    == (if accounts[9].key@ != token_program_key() {
                    Some(ProgramError::IncorrectProgramId)
                } else {
                    None
                }) && accounts.len() >= 10 && Market::unpacked(accounts[1].data@) == Some(market)
                    && fee == market.fee(quote_amount) && fee <= quote_amount,
                Err(error) => Self::settle_funds_error(accounts.deep_view(), quote_amount) == Some(
                    error,
                ),
            },
    {
        if accounts.len() < 10 {
            return Err(ProgramError::NotEnoughAccountKeys);
        }
        if !accounts[0].is_signer {
            return Err(return_dex_error(DexError::AccountNotAuthorized, "Authority must sign"));
        }
        let market = match Market::unpack_from_slice(accounts[1].data.as_slice()) {
            Ok(market) => market,
            Err(error) => {
                return Err(error);
            },
        };
        if !market.is_initialized {
            return Err(return_dex_error(DexError::InvalidAccountData, "Market not initialized"));
        }
        if market.authority != accounts[0].key {
            return Err(return_dex_error(DexError::AccountNotAuthorized, "Not market authority"));
        }
        let fee = match market.calculate_fee(quote_amount) {
            Ok(fee) => fee,
            Err(error) => {
                return Err(error);
            },
        };
        if fee > quote_amount {
            return Err(return_dex_error(DexError::ArithmeticOverflow, "Fee exceeds quote amount"));
        }
        Ok((market, fee))
    }

    /// Applies `SettleFunds` to `accounts`, none of which changes.
    pub fn process_settle_funds(
        _program_id: &Pubkey,
        accounts: &Vec<Account>,
        base_amount: u64,
        quote_amount: u64,
    ) -> (result: Result<Vec<Invocation>, ProgramError>)
        ensures
            match Self::settle_funds(accounts.deep_view(), base_amount, quote_amount) {
                Ok(outcome) => result matches Ok(invocations) && invocations.deep_view()
                    == outcome.invocations,
                Err(error) => result matches Err(e) && e == error,
            },
    {
        let (market, fee) = match Self::check_settle_funds(accounts, quote_amount) {
            Ok(checked) => checked,
            Err(error) => {
                return Err(error);
            },
        };
        let quote_amount_after_fee = quote_amount - fee;
        let mut invocations: Vec<Invocation> = Vec::new();
        let base = match transfer(
            &accounts[9].key,
            &accounts[6].key,
            &accounts[4].key,
            &accounts[1].key,
            base_amount,
        ) {
            Ok(instruction) => instruction,
            Err(error) => {
                return Err(error);
            },
        };
        invocations.push(
            Invocation::Transfer {
                instruction: base,
                accounts: vec![6, 4, 1, 9],
                signer_seed: Some(Self::authority_seed(&market)),
            },
        );
        let quote = match transfer(
            &accounts[9].key,
            &accounts[5].key,
            &accounts[7].key,
            &accounts[1].key,
            quote_amount_after_fee,
        ) {
            Ok(instruction) => instruction,
            Err(error) => {
                return Err(error);
            },
        };
        invocations.push(
            Invocation::Transfer {
                instruction: quote,
                accounts: vec![5, 7, 1, 9],
                signer_seed: Some(Self::authority_seed(&market)),
            },
        );
        if fee > 0 {
            let fee_payment = match transfer(
                &accounts[9].key,
                &accounts[5].key,
                &accounts[8].key,
                &accounts[1].key,
                fee,
            ) {
                Ok(instruction) => instruction,
                Err(error) => {
                    return Err(error);
                },
            };
            invocations.push(
                Invocation::Transfer {
                    instruction: fee_payment,
                    accounts: vec![5, 8, 1, 9],
                    signer_seed: Some(Self::authority_seed(&market)),
                },
            );
        }
        proof {
            assert(invocations.deep_view() =~= Self::settle_funds_invocations(
                accounts.deep_view(),
                base_amount,
                quote_amount,
            ));
        }
        Ok(invocations)
    }

    /// The seed of the authority that signs a market's settlements: the
    /// bytes of the market authority's key.
    fn authority_seed(market: &Market) -> (seed: Vec<u8>)
        ensures
            seed@ == market.authority@,
    {
        let mut seed: Vec<u8> = Vec::new();
        put_key(&mut seed, &market.authority);
        seed
    }

    /// What the exchange does with an instruction: it decodes the
    /// operation, refusing bytes that encode none with
    /// `InvalidInstructionData`, and applies it to the accounts.
    pub open spec fn transition(
        program_id: Pubkey,
        accounts: Seq<AccountView>,
        instruction_data: Seq<u8>,
        unix_timestamp: i64,
    ) -> Result<Outcome, ProgramError> {
        match DexInstruction::unpacked(instruction_data) {
            None => Err(Self::refusal(DexError::InvalidInstructionData)),
            Some(DexInstruction::InitializeMarket {
                min_base_order_size,
                tick_size,
                fee_rate_bps,
            }) => Self::initialize_market(
                program_id,
                accounts,
                min_base_order_size,
                tick_size,
                fee_rate_bps,
            ),
            Some(DexInstruction::PlaceLimitOrder {
                is_buy,
                limit_price,
                quantity,
                self_trade_behavior,
            }) => Self::place_limit_order(
                program_id,
                accounts,
                is_buy,
                limit_price,
                quantity,
                unix_timestamp,
            ),
            Some(DexInstruction::CancelOrder) => Self::cancel_order(accounts),
            Some(DexInstruction::SettleFunds { base_amount, quote_amount }) => Self::settle_funds(
                accounts,
                base_amount,
                quote_amount,
            ),
        }
    }

    /// Decodes `instruction_data` and applies the operation to
    /// `accounts`; `unix_timestamp` is the host's clock, which stamps a
    /// new order. On success the accounts are those of the transition and
    /// the result lists, in order, the requests the host has to carry
    /// out; on failure no account has changed.
    pub fn process(
        program_id: &Pubkey,
        accounts: &mut Vec<Account>,
        instruction_data: &[u8],
        unix_timestamp: i64,
    ) -> (result: Result<Vec<Invocation>, ProgramError>)
        ensures
            match Self::transition(
                *program_id,
                old(accounts).deep_view(),
                instruction_data@,
                unix_timestamp,
            ) {
                Ok(outcome) => result matches Ok(invocations) && invocations.deep_view()
                    == outcome.invocations && final(accounts).deep_view() == outcome.accounts,
                Err(error) => result matches Err(e) && e == error && *final(accounts) == *old(
                    accounts,
                ),
            },
    {
        let instruction = match DexInstruction::try_from_slice(instruction_data) {
            Ok(instruction) => instruction,
            Err(error) => {
                return Err(return_dex_error(error, "Failed to deserialize instruction"));
            },
        };
        match instruction {
            DexInstruction::InitializeMarket { min_base_order_size, tick_size, fee_rate_bps } => {
                Self::process_initialize_market(
                    program_id,
                    accounts,
                    min_base_order_size,
                    tick_size,
                    fee_rate_bps,
                )
            },
            DexInstruction::PlaceLimitOrder {
                is_buy,
                limit_price,
                quantity,
                self_trade_behavior,
            } => {
                Self::process_place_limit_order(
                    program_id,
                    accounts,
                    is_buy,
                    limit_price,
                    quantity,
                    self_trade_behavior,
                    unix_timestamp,
                )
            },
            DexInstruction::CancelOrder => Self::process_cancel_order(program_id, accounts),
            DexInstruction::SettleFunds { base_amount, quote_amount } => {
                Self::process_settle_funds(program_id, accounts, base_amount, quote_amount)
            },
        }
    }
}

} // verus!
