//! The operations of the exchange, their wire format, and the
//! instructions a client sends to request them.

use vstd::prelude::*;
use crate::codec::{
    bool_byte, get_bool, get_u16, get_u64, le_u16, le_u64, lemma_u16_le, lemma_u64_le, put_bool,
    put_u16, put_u64, u16_le, u64_le,
};
use crate::error::{DexError, ProgramError};
use crate::pubkey::Pubkey;

verus! {

/// How a match against one's own resting order is to be resolved.
///
/// The choice travels with a placement; no transition acts on it.
#[derive(Clone, Copy, Debug, PartialEq, Eq, Structural)]
pub enum SelfTradeBehavior {
    /// Reduce the incoming order.
    DecrementTake,
    /// Cancel the resting order.
    CancelProvide,
    /// Refuse the transaction.
    AbortTransaction,
}

impl SelfTradeBehavior {
    /// The byte that stands for the choice.
    pub open spec fn tag(self) -> u8 {
        match self {
            SelfTradeBehavior::DecrementTake => 0,
            SelfTradeBehavior::CancelProvide => 1,
            SelfTradeBehavior::AbortTransaction => 2,
        }
    }

    /// The choice that `tag` stands for; tags above 2 stand for none.
    pub open spec fn from_tag(tag: u8) -> SelfTradeBehavior {
        if tag == 0 {
            SelfTradeBehavior::DecrementTake
        } else if tag == 1 {
            SelfTradeBehavior::CancelProvide
        } else {
            SelfTradeBehavior::AbortTransaction
        }
    }
}

/// One account that an instruction names, and how it is used.
#[derive(Clone, Copy, Debug, PartialEq, Eq)]
pub struct AccountMeta {
    /// The account.
    pub pubkey: Pubkey,
    /// Whether the transaction must carry this account's signature.
    pub is_signer: bool,
    /// Whether the instruction may change the account.
    pub is_writable: bool,
}

impl AccountMeta {
    /// An account the instruction may change.
    pub fn new(pubkey: Pubkey, is_signer: bool) -> (meta: AccountMeta)
        ensures
            meta == (AccountMeta { pubkey, is_signer, is_writable: true }),
    {
        AccountMeta { pubkey, is_signer, is_writable: true }
    }

    /// An account the instruction only reads.
    pub fn new_readonly(pubkey: Pubkey, is_signer: bool) -> (meta: AccountMeta)
        ensures
            meta == (AccountMeta { pubkey, is_signer, is_writable: false }),
    {
        AccountMeta { pubkey, is_signer, is_writable: false }
    }
}

/// A request to a program: which program, on which accounts, with what
/// data.
#[derive(Clone, Debug, PartialEq, Eq)]
pub struct Instruction {
    /// The program that executes the instruction.
    pub program_id: Pubkey,
    /// The accounts handed to the program, in the order it reads them.
    pub accounts: Vec<AccountMeta>,
    /// The bytes the program decodes.
    pub data: Vec<u8>,
}

/// An `Instruction` as a mathematical value.
pub struct InstructionView {
    pub program_id: Pubkey,
    pub accounts: Seq<AccountMeta>,
    pub data: Seq<u8>,
}

impl View for Instruction {
    type V = InstructionView;

    open spec fn view(&self) -> InstructionView {
        InstructionView { program_id: self.program_id, accounts: self.accounts@, data: self.data@ }
    }
}

impl DeepView for Instruction {
    type V = InstructionView;

    open spec fn deep_view(&self) -> InstructionView {
        self@
    }
}

/// The bytes of the system program's key: 32 zeros.
pub open spec fn system_program_key() -> Seq<u8> {
    seq![
        0u8, 0, 0, 0, 0, 0, 0, 0, 0, 0, 0, 0, 0, 0, 0, 0,
        0, 0, 0, 0, 0, 0, 0, 0, 0, 0, 0, 0, 0, 0, 0, 0,
    ]
}

/// The bytes of the rent sysvar's key, whose base-58 form is
/// `SysvarRent111111111111111111111111111111111`.
pub open spec fn rent_sysvar_key() -> Seq<u8> {
    seq![
        6u8, 167, 213, 23, 25, 44, 92, 81, 33, 140, 201, 76, 61, 74, 241, 127,
        88, 218, 238, 8, 155, 161, 253, 68, 227, 219, 217, 138, 0, 0, 0, 0,
    ]
}

/// Calls `solana_program::system_program::id`.
///
/// Trusted: the key it returns is the one that crate declares from the
/// base-58 text of 32 ones, which decodes to 32 zero bytes.
#[verifier::external_body]
fn system_program_id() -> (id: Pubkey)
    ensures
        id@ == system_program_key(),
{
    Pubkey { bytes: solana_program::system_program::id().to_bytes() }
}

/// Calls `solana_program::sysvar::rent::id`.
///
/// Trusted: the key it returns is the one that crate declares from the
/// base-58 text `SysvarRent111111111111111111111111111111111`, whose 32
/// decoded bytes are those of `rent_sysvar_key`.
#[verifier::external_body]
fn rent_sysvar_id() -> (id: Pubkey)
    ensures
        id@ == rent_sysvar_key(),
{
    Pubkey { bytes: solana_program::sysvar::rent::id().to_bytes() }
}

/// An operation of the exchange with its parameters.
///
/// The accounts an operation reads are listed, in order, with the
/// constructor of its instruction below.
#[derive(Clone, Copy, Debug, PartialEq, Eq, Structural)]
pub enum DexInstruction {
    /// Create a market.
    InitializeMarket {
        /// Smallest quantity an order may have, in base units.
        min_base_order_size: u64,
        /// Every limit price must be a multiple of this, in quote units.
        tick_size: u64,
        /// Fee in hundredths of a percent of the quote amount.
        fee_rate_bps: u16,
    },
    /// Place a limit order and lock its collateral.
    PlaceLimitOrder {
        /// Buy (`true`) or sell (`false`).
        is_buy: bool,
        /// Price per base unit, in quote units.
        limit_price: u64,
        /// Quantity, in base units.
        quantity: u64,
        /// How to resolve a match against one's own order.
        self_trade_behavior: SelfTradeBehavior,
    },
    /// Cancel an order and release its collateral.
    CancelOrder,
    /// Exchange the two sides of a trade and take the fee.
    SettleFunds {
        /// Base units that go from maker to taker.
        base_amount: u64,
        /// Quote units that leave the taker, fee included.
        quote_amount: u64,
    },
}

impl DexInstruction {
    /// The wire form: one tag byte (0 to 3, in declaration order), then
    /// the parameters in declaration order, integers little-endian, flags
    /// and the self-trade choice as one byte each.
    pub open spec fn packed(self) -> Seq<u8> {
        match self {
            DexInstruction::InitializeMarket { min_base_order_size, tick_size, fee_rate_bps } => {
                seq![0u8] + u64_le(min_base_order_size) + u64_le(tick_size) + u16_le(fee_rate_bps)
            },
            DexInstruction::PlaceLimitOrder {
                is_buy,
                limit_price,
                quantity,
                self_trade_behavior,
            } => {
                seq![1u8, bool_byte(is_buy)] + u64_le(limit_price) + u64_le(quantity)
                    + seq![self_trade_behavior.tag()]
            },
            DexInstruction::CancelOrder => seq![2u8],
            DexInstruction::SettleFunds { base_amount, quote_amount } => {
                seq![3u8] + u64_le(base_amount) + u64_le(quote_amount)
            },
        }
    }

    /// The operation that `bytes` is the wire form of, if any. The tag
    /// must be known, the length exactly that of the operation, a flag 0
    /// or 1 and a self-trade choice 0, 1 or 2.
    pub open spec fn unpacked(bytes: Seq<u8>) -> Option<DexInstruction> {
        if bytes.len() == 19 && bytes[0] == 0 {
            Some(
                DexInstruction::InitializeMarket {
                    min_base_order_size: le_u64(bytes.subrange(1, 9)),
                    tick_size: le_u64(bytes.subrange(9, 17)),
                    fee_rate_bps: le_u16(bytes.subrange(17, 19)),
                },
            )
        } else if bytes.len() == 19 && bytes[0] == 1 && bytes[1] <= 1 && bytes[18] <= 2 {
            Some(
                DexInstruction::PlaceLimitOrder {
                    is_buy: bytes[1] == 1,
                    limit_price: le_u64(bytes.subrange(2, 10)),
                    quantity: le_u64(bytes.subrange(10, 18)),
                    self_trade_behavior: SelfTradeBehavior::from_tag(bytes[18]),
                },
            )
        } else if bytes.len() == 1 && bytes[0] == 2 {
            Some(DexInstruction::CancelOrder)
        } else if bytes.len() == 17 && bytes[0] == 3 {
            Some(
                DexInstruction::SettleFunds {
                    base_amount: le_u64(bytes.subrange(1, 9)),
                    quote_amount: le_u64(bytes.subrange(9, 17)),
                },
            )
        } else {
            None
        }
    }

    /// The instruction that creates a market. Accounts, in order: the
    /// market authority (signer, writable), the market account (writable),
    /// the base mint, the quote mint, the rent sysvar, the system program.
    pub open spec fn initialize_market_request(
        program_id: Pubkey,
        market_authority: Pubkey,
        market_account: Pubkey,
        base_mint: Pubkey,
        quote_mint: Pubkey,
        min_base_order_size: u64,
        tick_size: u64,
        fee_rate_bps: u16,
    ) -> InstructionView {
        InstructionView {
            program_id,
            accounts: seq![
                AccountMeta { pubkey: market_authority, is_signer: true, is_writable: true },
                AccountMeta { pubkey: market_account, is_signer: false, is_writable: true },
                AccountMeta { pubkey: base_mint, is_signer: false, is_writable: false },
                AccountMeta { pubkey: quote_mint, is_signer: false, is_writable: false },
                AccountMeta {
                    pubkey: Pubkey::from_seq(rent_sysvar_key()),
                    is_signer: false,
                    is_writable: false,
                },
                AccountMeta {
                    pubkey: Pubkey::from_seq(system_program_key()),
                    is_signer: false,
                    is_writable: false,
                },
            ],
            data: (DexInstruction::InitializeMarket {
                min_base_order_size,
                tick_size,
                fee_rate_bps,
            }).packed(),
        }
    }

    /// The instruction that places a limit order. Accounts, in order: the
    /// owner (signer, writable), the market (writable), the order account
    /// (writable), the owner's token account to debit (writable), the
    /// token program, the system program.
    pub open spec fn place_limit_order_request(
        program_id: Pubkey,
        owner: Pubkey,
        market: Pubkey,
        order_account: Pubkey,
        owner_token_account: Pubkey,
        token_program: Pubkey,
        is_buy: bool,
        limit_price: u64,
        quantity: u64,
        self_trade_behavior: SelfTradeBehavior,
    ) -> InstructionView {
        InstructionView {
            program_id,
            accounts: seq![
                AccountMeta { pubkey: owner, is_signer: true, is_writable: true },
                AccountMeta { pubkey: market, is_signer: false, is_writable: true },
                AccountMeta { pubkey: order_account, is_signer: false, is_writable: true },
                AccountMeta { pubkey: owner_token_account, is_signer: false, is_writable: true },
                AccountMeta { pubkey: token_program, is_signer: false, is_writable: false },
                AccountMeta {
                    pubkey: Pubkey::from_seq(system_program_key()),
                    is_signer: false,
                    is_writable: false,
                },
            ],
            data: (DexInstruction::PlaceLimitOrder {
                is_buy,
                limit_price,
                quantity,
                self_trade_behavior,
            }).packed(),
        }
    }

    /// The instruction that cancels an order. Accounts, in order: the
    /// owner (signer), the market (writable), the order account
    /// (writable), the owner's token account to credit (writable), the
    /// token program.
    pub open spec fn cancel_order_request(
        program_id: Pubkey,
        owner: Pubkey,
        market: Pubkey,
        order_account: Pubkey,
        owner_token_account: Pubkey,
        token_program: Pubkey,
    ) -> InstructionView {
        InstructionView {
            program_id,
            accounts: seq![
                AccountMeta { pubkey: owner, is_signer: true, is_writable: false },
                AccountMeta { pubkey: market, is_signer: false, is_writable: true },
                AccountMeta { pubkey: order_account, is_signer: false, is_writable: true },
                AccountMeta { pubkey: owner_token_account, is_signer: false, is_writable: true },
                AccountMeta { pubkey: token_program, is_signer: false, is_writable: false },
            ],
            data: DexInstruction::CancelOrder.packed(),
        }
    }

    /// The instruction that settles a trade. Accounts, in order: the
    /// market authority (signer), the market, the taker, the maker, the
    /// taker's base and quote token accounts, the maker's base and quote
    /// token accounts, the fee recipient (all writable), the token
    /// program.
    pub open spec fn settle_funds_request(
        program_id: Pubkey,
        authority: Pubkey,
        market: Pubkey,
        taker: Pubkey,
        maker: Pubkey,
        taker_base_account: Pubkey,
        taker_quote_account: Pubkey,
        maker_base_account: Pubkey,
        maker_quote_account: Pubkey,
        fee_recipient: Pubkey,
        token_program: Pubkey,
        base_amount: u64,
        quote_amount: u64,
    ) -> InstructionView {
        InstructionView {
            program_id,
            accounts: seq![
                AccountMeta { pubkey: authority, is_signer: true, is_writable: false },
                AccountMeta { pubkey: market, is_signer: false, is_writable: true },
                AccountMeta { pubkey: taker, is_signer: false, is_writable: true },
                AccountMeta { pubkey: maker, is_signer: false, is_writable: true },
                AccountMeta { pubkey: taker_base_account, is_signer: false, is_writable: true },
                AccountMeta { pubkey: taker_quote_account, is_signer: false, is_writable: true },
                AccountMeta { pubkey: maker_base_account, is_signer: false, is_writable: true },
                AccountMeta { pubkey: maker_quote_account, is_signer: false, is_writable: true },
                AccountMeta { pubkey: fee_recipient, is_signer: false, is_writable: true },
                AccountMeta { pubkey: token_program, is_signer: false, is_writable: false },
            ],
            data: (DexInstruction::SettleFunds { base_amount, quote_amount }).packed(),
        }
    }

    /// Builds the instruction that creates a market. Always succeeds.
    pub fn initialize_market(
        program_id: &Pubkey,
        market_authority: &Pubkey,
        market_account: &Pubkey,
        base_mint: &Pubkey,
        quote_mint: &Pubkey,
        min_base_order_size: u64,
        tick_size: u64,
        fee_rate_bps: u16,
    ) -> (result: Result<Instruction, ProgramError>)
        ensures
            result matches Ok(instruction) && instruction@
                == DexInstruction::initialize_market_request(
                *program_id,
                *market_authority,
                *market_account,
                *base_mint,
                *quote_mint,
                min_base_order_size,
                tick_size,
                fee_rate_bps,
            ),
    {
        let data = (DexInstruction::InitializeMarket {
            min_base_order_size,
            tick_size,
            fee_rate_bps,
        }).to_bytes();
        let rent = rent_sysvar_id();
        let system = system_program_id();
        proof {
            Pubkey::lemma_from_seq(Seq::empty(), rent);
            Pubkey::lemma_from_seq(Seq::empty(), system);
        }
        let accounts = vec![
            AccountMeta::new(*market_authority, true),
            AccountMeta::new(*market_account, false),
            AccountMeta::new_readonly(*base_mint, false),
            AccountMeta::new_readonly(*quote_mint, false),
            AccountMeta::new_readonly(rent, false),
            AccountMeta::new_readonly(system, false),
        ];
        let instruction = Instruction { program_id: *program_id, accounts, data };
        assert(instruction@.accounts =~= DexInstruction::initialize_market_request(
            *program_id,
            *market_authority,
            *market_account,
            *base_mint,
            *quote_mint,
            min_base_order_size,
            tick_size,
            fee_rate_bps,
        ).accounts);
        Ok(instruction)
    }

    /// Builds the instruction that places a limit order. Always succeeds.
    pub fn place_limit_order(
        program_id: &Pubkey,
        owner: &Pubkey,
        market: &Pubkey,
        order_account: &Pubkey,
        owner_token_account: &Pubkey,
        token_program: &Pubkey,
        is_buy: bool,
        limit_price: u64,
        quantity: u64,
        self_trade_behavior: SelfTradeBehavior,
    ) -> (result: Result<Instruction, ProgramError>)
        ensures
            result matches Ok(instruction) && instruction@
                == DexInstruction::place_limit_order_request(
                *program_id,
                *owner,
                *market,
                *order_account,
                *owner_token_account,
                *token_program,
                is_buy,
                limit_price,
                quantity,
                self_trade_behavior,
            ),
    {
        let data = (DexInstruction::PlaceLimitOrder {
            is_buy,
            limit_price,
            quantity,
            self_trade_behavior,
        }).to_bytes();
        let system = system_program_id();
        proof {
            Pubkey::lemma_from_seq(Seq::empty(), system);
        }
        let accounts = vec![
            AccountMeta::new(*owner, true),
            AccountMeta::new(*market, false),
            AccountMeta::new(*order_account, false),
            AccountMeta::new(*owner_token_account, false),
            AccountMeta::new_readonly(*token_program, false),
            AccountMeta::new_readonly(system, false),
        ];
        let instruction = Instruction { program_id: *program_id, accounts, data };
        assert(instruction@.accounts =~= DexInstruction::place_limit_order_request(
            *program_id,
            *owner,
            *market,
            *order_account,
            *owner_token_account,
            *token_program,
            is_buy,
            limit_price,
            quantity,
            self_trade_behavior,
        ).accounts);
        Ok(instruction)
    }

    /// Builds the instruction that cancels an order. Always succeeds.
    pub fn cancel_order(
        program_id: &Pubkey,
        owner: &Pubkey,
        market: &Pubkey,
        order_account: &Pubkey,
        owner_token_account: &Pubkey,
        token_program: &Pubkey,
    ) -> (result: Result<Instruction, ProgramError>)
        ensures
            result matches Ok(instruction) && instruction@ == DexInstruction::cancel_order_request(
                *program_id,
                *owner,
                *market,
                *order_account,
                *owner_token_account,
                *token_program,
            ),
    {
        let data = DexInstruction::CancelOrder.to_bytes();
        let accounts = vec![
            AccountMeta::new_readonly(*owner, true),
            AccountMeta::new(*market, false),
            AccountMeta::new(*order_account, false),
            AccountMeta::new(*owner_token_account, false),
            AccountMeta::new_readonly(*token_program, false),
        ];
        let instruction = Instruction { program_id: *program_id, accounts, data };
        assert(instruction@.accounts =~= DexInstruction::cancel_order_request(
            *program_id,
            *owner,
            *market,
            *order_account,
            *owner_token_account,
            *token_program,
        ).accounts);
        Ok(instruction)
    }

    /// Builds the instruction that settles a trade. Always succeeds.
    pub fn settle_funds(
        program_id: &Pubkey,
        authority: &Pubkey,
        market: &Pubkey,
        taker: &Pubkey,
        maker: &Pubkey,
        taker_base_account: &Pubkey,
        taker_quote_account: &Pubkey,
        maker_base_account: &Pubkey,
        maker_quote_account: &Pubkey,
        fee_recipient: &Pubkey,
        token_program: &Pubkey,
        base_amount: u64,
        quote_amount: u64,
    ) -> (result: Result<Instruction, ProgramError>)
        ensures
            result matches Ok(instruction) && instruction@ == DexInstruction::settle_funds_request(
                *program_id,
                *authority,
                *market,
                *taker,
                *maker,
                *taker_base_account,
                *taker_quote_account,
                *maker_base_account,
                *maker_quote_account,
                *fee_recipient,
                *token_program,
                base_amount,
                quote_amount,
            ),
    {
        let data = (DexInstruction::SettleFunds { base_amount, quote_amount }).to_bytes();
        let accounts = vec![
            AccountMeta::new_readonly(*authority, true),
            AccountMeta::new(*market, false),
            AccountMeta::new(*taker, false),
            AccountMeta::new(*maker, false),
            AccountMeta::new(*taker_base_account, false),
            AccountMeta::new(*taker_quote_account, false),
            AccountMeta::new(*maker_base_account, false),
            AccountMeta::new(*maker_quote_account, false),
            AccountMeta::new(*fee_recipient, false),
            AccountMeta::new_readonly(*token_program, false),
        ];
        let instruction = Instruction { program_id: *program_id, accounts, data };
        assert(instruction@.accounts =~= DexInstruction::settle_funds_request(
            *program_id,
            *authority,
            *market,
            *taker,
            *maker,
            *taker_base_account,
            *taker_quote_account,
            *maker_base_account,
            *maker_quote_account,
            *fee_recipient,
            *token_program,
            base_amount,
            quote_amount,
        ).accounts);
        Ok(instruction)
    }

    /// The wire form as a fresh vector.
    pub fn to_bytes(&self) -> (bytes: Vec<u8>)
        ensures
            bytes@ == self.packed(),
    {
        let mut bytes: Vec<u8> = Vec::new();
        match *self {
            DexInstruction::InitializeMarket { min_base_order_size, tick_size, fee_rate_bps } => {
                bytes.push(0);
                put_u64(&mut bytes, min_base_order_size);
                put_u64(&mut bytes, tick_size);
                put_u16(&mut bytes, fee_rate_bps);
            },
            DexInstruction::PlaceLimitOrder {
                is_buy,
                limit_price,
                quantity,
                self_trade_behavior,
            } => {
                bytes.push(1);
                put_bool(&mut bytes, is_buy);
                put_u64(&mut bytes, limit_price);
                put_u64(&mut bytes, quantity);
                bytes.push(
                    match self_trade_behavior {
                        SelfTradeBehavior::DecrementTake => 0,
                        SelfTradeBehavior::CancelProvide => 1,
                        SelfTradeBehavior::AbortTransaction => 2,
                    },
                );
            },
            DexInstruction::CancelOrder => {
                bytes.push(2);
            },
            DexInstruction::SettleFunds { base_amount, quote_amount } => {
                bytes.push(3);
                put_u64(&mut bytes, base_amount);
                put_u64(&mut bytes, quote_amount);
            },
        }
        assert(bytes@ =~= self.packed());
        bytes
    }

    /// Decodes an operation. Fails with `InvalidInstructionData` exactly
    /// when `data` is the wire form of no operation.
    pub fn try_from_slice(data: &[u8]) -> (result: Result<DexInstruction, DexError>)
        ensures
            result == (match DexInstruction::unpacked(data@) {
                Some(instruction) => Ok::<DexInstruction, DexError>(instruction),
                None => Err::<DexInstruction, DexError>(DexError::InvalidInstructionData),
            }),
    {
        if data.len() == 0 {
            return Err(DexError::InvalidInstructionData);
        }
        let tag: u8 = data[0];
        if tag == 0 && data.len() == 19 {
            Ok(
                DexInstruction::InitializeMarket {
                    min_base_order_size: get_u64(data, 1),
                    tick_size: get_u64(data, 9),
                    fee_rate_bps: get_u16(data, 17),
                },
            )
        } else if tag == 1 && data.len() == 19 {
            let is_buy = match get_bool(data, 1) {
                Some(flag) => flag,
                None => {
                    return Err(DexError::InvalidInstructionData);
                },
            };
            let choice: u8 = data[18];
            let self_trade_behavior = if choice == 0 {
                SelfTradeBehavior::DecrementTake
            } else if choice == 1 {
                SelfTradeBehavior::CancelProvide
            } else if choice == 2 {
                SelfTradeBehavior::AbortTransaction
            } else {
                return Err(DexError::InvalidInstructionData);
            };
            Ok(
                DexInstruction::PlaceLimitOrder {
                    is_buy,
                    limit_price: get_u64(data, 2),
                    quantity: get_u64(data, 10),
                    self_trade_behavior,
                },
            )
        } else if tag == 2 && data.len() == 1 {
            Ok(DexInstruction::CancelOrder)
        } else if tag == 3 && data.len() == 17 {
            Ok(
                DexInstruction::SettleFunds {
                    base_amount: get_u64(data, 1),
                    quote_amount: get_u64(data, 9),
                },
            )
        } else {
            Err(DexError::InvalidInstructionData)
        }
    }

    /// Where each parameter lies in the wire form.
    pub proof fn lemma_packed_fields(instruction: DexInstruction)
        ensures
            match instruction {
                DexInstruction::InitializeMarket {
                    min_base_order_size,
                    tick_size,
                    fee_rate_bps,
                } => {
                    &&& instruction.packed().len() == 19
                    &&& instruction.packed()[0] == 0
                    &&& instruction.packed().subrange(1, 9) == u64_le(min_base_order_size)
                    &&& instruction.packed().subrange(9, 17) == u64_le(tick_size)
                    &&& instruction.packed().subrange(17, 19) == u16_le(fee_rate_bps)
                },
                DexInstruction::PlaceLimitOrder {
                    is_buy,
                    limit_price,
                    quantity,
                    self_trade_behavior,
                } => {
                    &&& instruction.packed().len() == 19
                    &&& instruction.packed()[0] == 1
                    &&& instruction.packed()[1] == bool_byte(is_buy)
                    &&& instruction.packed().subrange(2, 10) == u64_le(limit_price)
                    &&& instruction.packed().subrange(10, 18) == u64_le(quantity)
                    &&& instruction.packed()[18] == self_trade_behavior.tag()
                },
                DexInstruction::CancelOrder => instruction.packed() == seq![2u8],
                DexInstruction::SettleFunds { base_amount, quote_amount } => {
                    &&& instruction.packed().len() == 17
                    &&& instruction.packed()[0] == 3
                    &&& instruction.packed().subrange(1, 9) == u64_le(base_amount)
                    &&& instruction.packed().subrange(9, 17) == u64_le(quote_amount)
                },
            },
    {
        let bytes = instruction.packed();
        match instruction {
            DexInstruction::InitializeMarket { min_base_order_size, tick_size, fee_rate_bps } => {
                assert(bytes.subrange(1, 9) =~= u64_le(min_base_order_size));
                assert(bytes.subrange(9, 17) =~= u64_le(tick_size));
                assert(bytes.subrange(17, 19) =~= u16_le(fee_rate_bps));
            },
            DexInstruction::PlaceLimitOrder {
                is_buy,
                limit_price,
                quantity,
                self_trade_behavior,
            } => {
                assert(bytes.subrange(2, 10) =~= u64_le(limit_price));
                assert(bytes.subrange(10, 18) =~= u64_le(quantity));
            },
            DexInstruction::CancelOrder => {},
            DexInstruction::SettleFunds { base_amount, quote_amount } => {
                assert(bytes.subrange(1, 9) =~= u64_le(base_amount));
                assert(bytes.subrange(9, 17) =~= u64_le(quote_amount));
            },
        }
    }

    /// Encoding then decoding gives the operation back.
    pub proof fn lemma_pack_unpack(instruction: DexInstruction)
        ensures
            DexInstruction::unpacked(instruction.packed()) == Some(instruction),
    {
        DexInstruction::lemma_packed_fields(instruction);
        let empty = Seq::<u8>::empty();
        match instruction {
            DexInstruction::InitializeMarket { min_base_order_size, tick_size, fee_rate_bps } => {
                lemma_u64_le(min_base_order_size, empty);
                lemma_u64_le(tick_size, empty);
                lemma_u16_le(fee_rate_bps, empty);
            },
            DexInstruction::PlaceLimitOrder {
                is_buy,
                limit_price,
                quantity,
                self_trade_behavior,
            } => {
                lemma_u64_le(limit_price, empty);
                lemma_u64_le(quantity, empty);
            },
            DexInstruction::CancelOrder => {},
            DexInstruction::SettleFunds { base_amount, quote_amount } => {
                lemma_u64_le(base_amount, empty);
                lemma_u64_le(quote_amount, empty);
            },
        }
    }

    /// Bytes that decode are the wire form of what they decode to.
    pub proof fn lemma_unpack_pack(bytes: Seq<u8>)
        requires
            DexInstruction::unpacked(bytes) is Some,
        ensures
            DexInstruction::unpacked(bytes)->0.packed() == bytes,
    {
        let instruction = DexInstruction::unpacked(bytes)->0;
        match instruction {
            DexInstruction::InitializeMarket { min_base_order_size, tick_size, fee_rate_bps } => {
                lemma_u64_le(0, bytes.subrange(1, 9));
                lemma_u64_le(0, bytes.subrange(9, 17));
                lemma_u16_le(0, bytes.subrange(17, 19));
                assert(u64_le(min_base_order_size) == bytes.subrange(1, 9));
                assert(u64_le(tick_size) == bytes.subrange(9, 17));
                assert(u16_le(fee_rate_bps) == bytes.subrange(17, 19));
                assert(seq![0u8] + bytes.subrange(1, 9) + bytes.subrange(9, 17) + bytes.subrange(
                    17,
                    19,
                ) =~= bytes);
            },
            DexInstruction::PlaceLimitOrder {
                is_buy,
                limit_price,
                quantity,
                self_trade_behavior,
            } => {
                lemma_u64_le(0, bytes.subrange(2, 10));
                lemma_u64_le(0, bytes.subrange(10, 18));
                assert(u64_le(limit_price) == bytes.subrange(2, 10));
                assert(u64_le(quantity) == bytes.subrange(10, 18));
                assert(seq![1u8, bytes[1]] + bytes.subrange(2, 10) + bytes.subrange(10, 18)
                    + seq![bytes[18]] =~= bytes);
            },
            DexInstruction::CancelOrder => {
                assert(seq![2u8] =~= bytes);
            },
            DexInstruction::SettleFunds { base_amount, quote_amount } => {
                lemma_u64_le(0, bytes.subrange(1, 9));
                lemma_u64_le(0, bytes.subrange(9, 17));
                assert(u64_le(base_amount) == bytes.subrange(1, 9));
                assert(u64_le(quote_amount) == bytes.subrange(9, 17));
                assert(seq![3u8] + bytes.subrange(1, 9) + bytes.subrange(9, 17) =~= bytes);
            },
        }
    }
}

} // verus!
