//! Records kept by the exchange, the transfers it asks for, and its events.
use vstd::prelude::*;

verus! {

/// A 32-byte account identifier.
#[derive(Clone, Copy, Debug, PartialEq, Eq)]
pub struct Pubkey {
    pub bytes: [u8; 32],
}

impl Pubkey {
    /// Wraps 32 bytes as an account identifier.
    pub fn new_from_array(bytes: [u8; 32]) -> (r: Pubkey)
        ensures
            r.bytes == bytes,
    {
        Pubkey { bytes }
    }

    /// The identifier's bytes.
    pub fn to_bytes(&self) -> (r: [u8; 32])
        ensures
            r == self.bytes,
    {
        self.bytes
    }
}

/// Global parameters of the exchange.
#[derive(Clone, Copy, Debug, PartialEq, Eq)]
pub struct SwapState {
    /// Fee rate in thousandths of a swap's output.
    pub fee_rate: u64,
    /// When set, every trading operation is refused.
    pub paused: bool,
}

/// The two reserves of a trading pair.
#[derive(Clone, Copy, Debug, PartialEq, Eq)]
pub struct LiquidityPool {
    pub token_a_reserve: u64,
    pub token_b_reserve: u64,
}

/// A resting offer to sell `token_a_reserve` units of asset A at no less than
/// `target_price` units of asset B each, until `expiration`.
#[derive(Clone, Copy, Debug, PartialEq, Eq)]
pub struct LimitOrder {
    pub user: Pubkey,
    /// What is left of the order, in units of asset A.
    pub token_a_reserve: u64,
    pub target_price: u64,
    pub expiration: i64,
    pub partial_fill: bool,
}

impl LimitOrder {
    /// An order with nothing left to sell is filled.
    pub open spec fn filled(self) -> bool {
        self.token_a_reserve == 0
    }

    /// Whether nothing is left of the order.
    pub fn is_filled(&self) -> (r: bool)
        ensures
            r == self.filled(),
    {
        self.token_a_reserve == 0
    }
}

/// A token account taking part in a transfer.
#[derive(Clone, Copy, Debug, PartialEq, Eq)]
pub enum Vault {
    UserTokenA,
    UserTokenB,
    PoolTokenA,
    PoolTokenB,
    FeeTokenB,
}

/// A transfer of `amount` tokens from one account to another, which the
/// surrounding runtime performs on behalf of an operation.
#[derive(Clone, Copy, Debug, PartialEq, Eq)]
pub struct TokenTransfer {
    pub from: Vault,
    pub to: Vault,
    pub amount: u64,
}

/// What a successful operation asks of the runtime: transfers to perform, in
/// order, and one event to publish.
#[derive(Debug, PartialEq, Eq)]
pub struct Outcome<E> {
    pub transfers: Vec<TokenTransfer>,
    pub event: E,
}

/// An open flash borrow: who borrowed how much, whom the runtime calls
/// before settling, the pool's A reserve before the borrow, and the payout
/// transfer to perform.
#[derive(Clone, Copy, Debug, PartialEq, Eq)]
pub struct FlashLoan {
    pub user: Pubkey,
    pub amount_a: u64,
    pub target_contract: Pubkey,
    pub initial_balance: u64,
    pub payout: TokenTransfer,
}

#[derive(Clone, Copy, Debug, PartialEq, Eq)]
pub struct AddLiquidityEvent {
    pub user: Pubkey,
    pub amount_a: u64,
    pub amount_b: u64,
}

#[derive(Clone, Copy, Debug, PartialEq, Eq)]
pub struct SimpleSwapEvent {
    pub user: Pubkey,
    pub amount_a: u64,
    pub amount_b: u64,
    pub fee: u64,
}

#[derive(Clone, Copy, Debug, PartialEq, Eq)]
pub struct LimitOrderPlaced {
    pub user: Pubkey,
    pub amount_a: u64,
    pub target_price: u64,
    pub expiration: i64,
    pub partial_fill: bool,
}

#[derive(Clone, Copy, Debug, PartialEq, Eq)]
pub struct LimitOrderExecuted {
    pub user: Pubkey,
    pub amount_a: u64,
    pub target_price: u64,
}

#[derive(Clone, Copy, Debug, PartialEq, Eq)]
pub struct MultiTokenSwapEvent {
    pub user: Pubkey,
    pub src_token: Pubkey,
    pub dst_token: Pubkey,
    pub amount: u64,
    pub received: u64,
}

#[derive(Clone, Copy, Debug, PartialEq, Eq)]
pub struct FlashSwapEvent {
    pub user: Pubkey,
    pub amount_a: u64,
    pub target_contract: Pubkey,
}

} // verus!
