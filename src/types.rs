use vstd::prelude::*;

verus! {

/// A 20-byte account or contract address on the chain.
#[derive(Debug, Clone, Copy, PartialEq, Eq)]
pub struct ChainAddress {
    pub bytes: [u8; 20],
}

/// The direction of a trade.
#[derive(Debug, Clone, Copy, PartialEq, Eq, Structural)]
pub enum TradeType {
    Buy,
    Sell,
}

/// Price per token unit, rounded toward zero; zero for an empty amount.
pub open spec fn price_of(cost: nat, amount: nat) -> nat {
    if amount == 0 {
        0
    } else {
        cost / amount
    }
}

/// A quote: a token amount, its cost in the quote currency, and the price per unit.
#[derive(Debug, Clone, Copy, PartialEq, Eq, Structural)]
pub struct PriceInfo {
    pub token_amount: u128,
    pub bnb_cost: u128,
    pub price_per_token: u128,
}

impl PriceInfo {
    /// The price is the cost divided by the amount, rounded toward zero.
    pub open spec fn wf(&self) -> bool {
        self.price_per_token == price_of(self.bnb_cost as nat, self.token_amount as nat)
    }

    pub open spec fn spec_new(token_amount: u128, bnb_cost: u128) -> PriceInfo {
        PriceInfo {
            token_amount,
            bnb_cost,
            price_per_token: price_of(bnb_cost as nat, token_amount as nat) as u128,
        }
    }

    /// A quote of `token_amount` units for `bnb_cost`, with its price derived.
    pub fn new(token_amount: u128, bnb_cost: u128) -> (r: PriceInfo)
        ensures
            r == PriceInfo::spec_new(token_amount, bnb_cost),
            r.wf(),
    {
        let price_per_token: u128 = if token_amount == 0 {
            0
        } else {
            bnb_cost / token_amount
        };
        PriceInfo { token_amount, bnb_cost, price_per_token }
    }
}

/// The record of one confirmed trade.
#[derive(Debug, Clone, PartialEq, Eq)]
pub struct TradeResult {
    pub tx_hash: String,
    pub trade_type: TradeType,
    pub token: ChainAddress,
    pub amount: u128,
    pub cost: u128,
    pub price: u128,
}

/// A contract call, with the slippage bound it enforces on chain.
#[derive(Debug, Clone, Copy, PartialEq, Eq)]
pub enum TradeCall {
    /// `buyTokenAMAP(token, recipient, funds, min_amount)`: spend exactly `funds`.
    BuyTokenAmap { token: ChainAddress, recipient: ChainAddress, funds: u128, min_amount: u128 },
    /// `sellToken(token, amount, min_funds)`: sell exactly `amount`.
    SellToken { token: ChainAddress, amount: u128, min_funds: u128 },
    /// `buyToken(token, amount, max_funds)`: buy exactly `amount`.
    BuyToken { token: ChainAddress, amount: u128, max_funds: u128 },
    /// `approve(spender, MAX)` on the token's own contract.
    ApproveUnlimited { token: ChainAddress, spender: ChainAddress },
}

impl TradeCall {
    /// The quote currency that goes with the call.
    pub open spec fn value_spec(&self) -> u128 {
        match *self {
            TradeCall::BuyTokenAmap { funds, .. } => funds,
            TradeCall::BuyToken { max_funds, .. } => max_funds,
            _ => 0,
        }
    }

    pub fn value(&self) -> (r: u128)
        ensures
            r == self.value_spec(),
    {
        match *self {
            TradeCall::BuyTokenAmap { funds, .. } => funds,
            TradeCall::BuyToken { max_funds, .. } => max_funds,
            _ => 0,
        }
    }
}

} // verus!
