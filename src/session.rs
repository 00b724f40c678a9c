use vstd::prelude::*;

use crate::error::{ConfigIssue, TradeError};
use crate::slippage::{
    ceiling_slippage, floor_slippage, max_acceptable_cost, max_acceptable_cost_spec,
    min_acceptable_output, min_acceptable_output_spec, Slippage, FULL_BPS,
};
use crate::types::{ChainAddress, PriceInfo, TradeCall, TradeResult, TradeType};

verus! {

/// One trade that a caller asks for, with its slippage already checked.
#[derive(Debug, Clone, Copy, PartialEq, Eq)]
pub enum TradeRequest {
    /// Spend exactly `spend`, for as many tokens as it buys, sent to `recipient`.
    Buy { token: ChainAddress, recipient: ChainAddress, spend: u128, slippage: Slippage },
    /// Sell exactly `amount` tokens.
    Sell { token: ChainAddress, amount: u128, slippage: Slippage },
    /// Buy exactly `amount` tokens.
    BuyExact { token: ChainAddress, amount: u128, slippage: Slippage },
    /// Let `spender` move any amount of the wallet's `token`.
    Approve { token: ChainAddress, spender: ChainAddress },
}

impl TradeRequest {
    /// A slippage that bounds a minimum is at most 100%.
    pub open spec fn wf(&self) -> bool {
        match *self {
            TradeRequest::Buy { slippage, .. } => slippage.bps <= FULL_BPS,
            TradeRequest::Sell { slippage, .. } => slippage.bps <= FULL_BPS,
            _ => true,
        }
    }

    /// A buy that spends `spend`; `slippage_bps` must lie in 0 ..= 10000.
    pub fn buy(token: ChainAddress, recipient: ChainAddress, spend: u128, slippage_bps: i64) -> (r:
        Result<TradeRequest, TradeError>)
        ensures
            r is Ok <==> 0 <= slippage_bps <= FULL_BPS,
            r matches Ok(q) ==> q.wf() && q == (TradeRequest::Buy {
                token,
                recipient,
                spend,
                slippage: Slippage { bps: slippage_bps as u64 },
            }),
            r matches Err(e) ==> e == TradeError::Configuration(ConfigIssue::SlippageOutOfRange),
    {
        match floor_slippage(slippage_bps) {
            Ok(slippage) => Ok(TradeRequest::Buy { token, recipient, spend, slippage }),
            Err(e) => Err(e),
        }
    }

    /// A sale of `amount` tokens; `slippage_bps` must lie in 0 ..= 10000.
    pub fn sell(token: ChainAddress, amount: u128, slippage_bps: i64) -> (r: Result<
        TradeRequest,
        TradeError,
    >)
        ensures
            r is Ok <==> 0 <= slippage_bps <= FULL_BPS,
            r matches Ok(q) ==> q.wf() && q == (TradeRequest::Sell {
                token,
                amount,
                slippage: Slippage { bps: slippage_bps as u64 },
            }),
            r matches Err(e) ==> e == TradeError::Configuration(ConfigIssue::SlippageOutOfRange),
    {
        match floor_slippage(slippage_bps) {
            Ok(slippage) => Ok(TradeRequest::Sell { token, amount, slippage }),
            Err(e) => Err(e),
        }
    }

    /// A purchase of exactly `amount` tokens; `slippage_bps` must not be negative.
    pub fn buy_exact(token: ChainAddress, amount: u128, slippage_bps: i64) -> (r: Result<
        TradeRequest,
        TradeError,
    >)
        ensures
            r is Ok <==> 0 <= slippage_bps,
            r matches Ok(q) ==> q.wf() && q == (TradeRequest::BuyExact {
                token,
                amount,
                slippage: Slippage { bps: slippage_bps as u64 },
            }),
            r matches Err(e) ==> e == TradeError::Configuration(ConfigIssue::SlippageOutOfRange),
    {
        match ceiling_slippage(slippage_bps) {
            Ok(slippage) => Ok(TradeRequest::BuyExact { token, amount, slippage }),
            Err(e) => Err(e),
        }
    }
}

/// The call that a request makes once quoted: the quote bounded by the slippage.
pub open spec fn bounded_call(req: TradeRequest, quote: PriceInfo) -> Result<TradeCall, TradeError> {
    match req {
        TradeRequest::Buy { token, recipient, spend, slippage } => Ok(
            TradeCall::BuyTokenAmap {
                token,
                recipient,
                funds: spend,
                min_amount: min_acceptable_output_spec(
                    quote.token_amount as nat,
                    slippage.bps as nat,
                ) as u128,
            },
        ),
        TradeRequest::Sell { token, amount, slippage } => Ok(
            TradeCall::SellToken {
                token,
                amount,
                min_funds: min_acceptable_output_spec(
                    quote.bnb_cost as nat,
                    slippage.bps as nat,
                ) as u128,
            },
        ),
        TradeRequest::BuyExact { token, amount, slippage } => {
            let max = max_acceptable_cost_spec(quote.bnb_cost as nat, slippage.bps as nat);
            if max <= u128::MAX {
                Ok(TradeCall::BuyToken { token, amount, max_funds: max as u128 })
            } else {
                Err(TradeError::Configuration(ConfigIssue::AmountOutOfRange))
            }
        },
        TradeRequest::Approve { token, spender } => Ok(
            TradeCall::ApproveUnlimited { token, spender },
        ),
    }
}

/// Builds the call for a quoted request, with its slippage bound.
pub fn bound_call(req: &TradeRequest, quote: &PriceInfo) -> (r: Result<TradeCall, TradeError>)
    requires
        req.wf(),
    ensures
        r == bounded_call(*req, *quote),
{
    match *req {
        TradeRequest::Buy { token, recipient, spend, slippage } => {
            let min_amount = min_acceptable_output(quote.token_amount, slippage);
            Ok(TradeCall::BuyTokenAmap { token, recipient, funds: spend, min_amount })
        },
        TradeRequest::Sell { token, amount, slippage } => {
            let min_funds = min_acceptable_output(quote.bnb_cost, slippage);
            Ok(TradeCall::SellToken { token, amount, min_funds })
        },
        TradeRequest::BuyExact { token, amount, slippage } => {
            match max_acceptable_cost(quote.bnb_cost, slippage) {
                Ok(max_funds) => Ok(TradeCall::BuyToken { token, amount, max_funds }),
                Err(e) => Err(e),
            }
        },
        TradeRequest::Approve { token, spender } => Ok(TradeCall::ApproveUnlimited { token, spender }),
    }
}

/// Where a trade stands in its lifecycle.
#[derive(Debug, Clone, PartialEq, Eq)]
pub enum Stage {
    Quoting,
    EstimatingFee { call: TradeCall },
    Submitting { call: TradeCall, gas: u128 },
    AwaitingConfirmation,
    /// Included and succeeded, under this transaction hash.
    Confirmed { tx_hash: String },
    Failed { error: TradeError },
}

/// What the transport reports back for the last action.
#[derive(Debug, Clone, PartialEq, Eq)]
pub enum Event {
    /// The read calls quoted `token_amount` tokens against `cost` in the quote currency.
    Quoted { token_amount: u128, cost: u128 },
    QuoteFailed { message: String },
    FeeEstimated { gas: u128 },
    EstimateFailed { message: String },
    /// The signed transaction was broadcast.
    Sent,
    SendFailed { message: String },
    /// A receipt came back; `succeeded` is its status.
    Included { tx_hash: String, succeeded: bool },
    /// Polling ended with neither a receipt nor an error.
    NotIncluded,
    PollFailed { message: String },
}

/// What the transport is to do next.
#[derive(Debug, Clone, Copy, PartialEq, Eq)]
pub enum Action {
    /// Run the read calls that quote the request.
    RequestQuote,
    EstimateFee { call: TradeCall },
    Send { call: TradeCall, gas: u128 },
    AwaitReceipt,
    /// Nothing more: the session has its outcome.
    Finish,
}

/// What a finished trade yields: a trade record, or an approval's transaction hash.
#[derive(Debug, Clone, PartialEq, Eq)]
pub enum Outcome {
    Traded(TradeResult),
    Approved(String),
}

/// The action that a stage waits on.
pub open spec fn action_for(stage: Stage) -> Action {
    match stage {
        Stage::Quoting => Action::RequestQuote,
        Stage::EstimatingFee { call } => Action::EstimateFee { call },
        Stage::Submitting { call, gas } => Action::Send { call, gas },
        Stage::AwaitingConfirmation => Action::AwaitReceipt,
        _ => Action::Finish,
    }
}

/// The stage a request starts in: an approval needs no quote.
pub open spec fn first_stage(req: TradeRequest) -> Stage {
    match req {
        TradeRequest::Approve { token, spender } => Stage::EstimatingFee {
            call: TradeCall::ApproveUnlimited { token, spender },
        },
        _ => Stage::Quoting,
    }
}

/// The quote after an event: a quote event records a new one.
pub open spec fn next_quote(stage: Stage, quote: PriceInfo, ev: Event) -> PriceInfo {
    match (stage, ev) {
        (Stage::Quoting, Event::Quoted { token_amount, cost }) => PriceInfo::spec_new(
            token_amount,
            cost,
        ),
        _ => quote,
    }
}

/// The stage after an event. An event that the stage does not wait on changes nothing.
pub open spec fn next_stage(req: TradeRequest, stage: Stage, ev: Event) -> Stage {
    match (stage, ev) {
        (Stage::Quoting, Event::Quoted { token_amount, cost }) => {
            match bounded_call(req, PriceInfo::spec_new(token_amount, cost)) {
                Ok(call) => Stage::EstimatingFee { call },
                Err(error) => Stage::Failed { error },
            }
        },
        (Stage::Quoting, Event::QuoteFailed { message }) => Stage::Failed {
            error: TradeError::Query(message),
        },
        (Stage::EstimatingFee { call }, Event::FeeEstimated { gas }) => Stage::Submitting {
            call,
            gas,
        },
        (Stage::EstimatingFee { .. }, Event::EstimateFailed { message }) => Stage::Failed {
            error: TradeError::Submission(message),
        },
        (Stage::Submitting { .. }, Event::Sent) => Stage::AwaitingConfirmation,
        (Stage::Submitting { .. }, Event::SendFailed { message }) => Stage::Failed {
            error: TradeError::Submission(message),
        },
        (Stage::AwaitingConfirmation, Event::Included { tx_hash, succeeded }) => {
            if succeeded {
                Stage::Confirmed { tx_hash }
            } else {
                Stage::Failed { error: TradeError::Confirmation(tx_hash) }
            }
        },
        (Stage::AwaitingConfirmation, Event::NotIncluded) => Stage::Failed {
            error: TradeError::Unconfirmed,
        },
        (Stage::AwaitingConfirmation, Event::PollFailed { message }) => Stage::Failed {
            error: TradeError::Confirmation(message),
        },
        (s, _) => s,
    }
}

/// The record of a confirmed trade, from its request, its quote and its hash.
pub open spec fn outcome_of(req: TradeRequest, quote: PriceInfo, tx_hash: String) -> Outcome {
    match req {
        TradeRequest::Buy { token, spend, .. } => Outcome::Traded(
            TradeResult {
                tx_hash,
                trade_type: TradeType::Buy,
                token,
                amount: quote.token_amount,
                cost: spend,
                price: quote.price_per_token,
            },
        ),
        TradeRequest::Sell { token, amount, .. } => Outcome::Traded(
            TradeResult {
                tx_hash,
                trade_type: TradeType::Sell,
                token,
                amount,
                cost: quote.bnb_cost,
                price: quote.price_per_token,
            },
        ),
        TradeRequest::BuyExact { token, amount, .. } => Outcome::Traded(
            TradeResult {
                tx_hash,
                trade_type: TradeType::Buy,
                token,
                amount,
                cost: quote.bnb_cost,
                price: quote.price_per_token,
            },
        ),
        TradeRequest::Approve { .. } => Outcome::Approved(tx_hash),
    }
}

/// A session reaches `Confirmed` only from waiting on confirmation, and only by a
/// receipt whose status is success: a missing receipt never yields a trade record.
pub proof fn lemma_confirmed_only_by_successful_receipt(req: TradeRequest, stage: Stage, ev: Event)
    requires
        !(stage is Confirmed),
        next_stage(req, stage, ev) is Confirmed,
    ensures
        stage == Stage::AwaitingConfirmation,
        ev matches Event::Included { succeeded, .. } && succeeded,
{
}

/// One trade's way from quote to confirmation. The transport runs the actions and
/// reports each result back through `step`; no stage is retried.
pub struct TradeSession {
    pub request: TradeRequest,
    pub quote: PriceInfo,
    pub stage: Stage,
}

impl TradeSession {
    pub open spec fn wf(&self) -> bool {
        self.request.wf() && self.quote.wf()
    }

    /// A session for `request`, with the action that it first waits on.
    pub fn start(request: TradeRequest) -> (r: (TradeSession, Action))
        requires
            request.wf(),
        ensures
            r.0.wf(),
            r.0.request == request,
            r.0.quote == PriceInfo::spec_new(0, 0),
            r.0.stage == first_stage(request),
            r.1 == action_for(r.0.stage),
    {
        let stage = match request {
            TradeRequest::Approve { token, spender } => Stage::EstimatingFee {
                call: TradeCall::ApproveUnlimited { token, spender },
            },
            _ => Stage::Quoting,
        };
        let action = match stage {
            Stage::EstimatingFee { call } => Action::EstimateFee { call },
            _ => Action::RequestQuote,
        };
        (TradeSession { request, quote: PriceInfo::new(0, 0), stage }, action)
    }

    /// Takes in what the transport reported, and returns the next action.
    pub fn step(&mut self, event: Event) -> (a: Action)
        requires
            old(self).wf(),
        ensures
            final(self).wf(),
            final(self).request == old(self).request,
            final(self).quote == next_quote(old(self).stage, old(self).quote, event),
            final(self).stage == next_stage(old(self).request, old(self).stage, event),
            a == action_for(final(self).stage),
    {
        match self.stage {
            Stage::Quoting => match event {
                Event::Quoted { token_amount, cost } => {
                    let quote = PriceInfo::new(token_amount, cost);
                    self.quote = quote;
                    match bound_call(&self.request, &quote) {
                        Ok(call) => {
                            self.stage = Stage::EstimatingFee { call };
                            Action::EstimateFee { call }
                        },
                        Err(error) => {
                            self.stage = Stage::Failed { error };
                            Action::Finish
                        },
                    }
                },
                Event::QuoteFailed { message } => {
                    self.stage = Stage::Failed { error: TradeError::Query(message) };
                    Action::Finish
                },
                _ => Action::RequestQuote,
            },
            Stage::EstimatingFee { call } => match event {
                Event::FeeEstimated { gas } => {
                    self.stage = Stage::Submitting { call, gas };
                    Action::Send { call, gas }
                },
                Event::EstimateFailed { message } => {
                    self.stage = Stage::Failed { error: TradeError::Submission(message) };
                    Action::Finish
                },
                _ => Action::EstimateFee { call },
            },
            Stage::Submitting { call, gas } => match event {
                Event::Sent => {
                    self.stage = Stage::AwaitingConfirmation;
                    Action::AwaitReceipt
                },
                Event::SendFailed { message } => {
                    self.stage = Stage::Failed { error: TradeError::Submission(message) };
                    Action::Finish
                },
                _ => Action::Send { call, gas },
            },
            Stage::AwaitingConfirmation => match event {
                Event::Included { tx_hash, succeeded } => {
                    if succeeded {
                        self.stage = Stage::Confirmed { tx_hash };
                    } else {
                        self.stage = Stage::Failed { error: TradeError::Confirmation(tx_hash) };
                    }
                    Action::Finish
                },
                Event::NotIncluded => {
                    self.stage = Stage::Failed { error: TradeError::Unconfirmed };
                    Action::Finish
                },
                Event::PollFailed { message } => {
                    self.stage = Stage::Failed { error: TradeError::Confirmation(message) };
                    Action::Finish
                },
                _ => Action::AwaitReceipt,
            },
            _ => Action::Finish,
        }
    }

    /// The outcome of a finished session; `None` while it still waits on the transport.
    pub fn finish(self) -> (r: Option<Result<Outcome, TradeError>>)
        ensures
            r == (match self.stage {
                Stage::Confirmed { tx_hash } => Some(
                    Ok(outcome_of(self.request, self.quote, tx_hash)),
                ),
                Stage::Failed { error } => Some(Err(error)),
                _ => None,
            }),
    {
        match self.stage {
            Stage::Confirmed { tx_hash } => {
                let quote = self.quote;
                let outcome = match self.request {
                    TradeRequest::Buy { token, spend, .. } => Outcome::Traded(
                        TradeResult {
                            tx_hash,
                            trade_type: TradeType::Buy,
                            token,
                            amount: quote.token_amount,
                            cost: spend,
                            price: quote.price_per_token,
                        },
                    ),
                    TradeRequest::Sell { token, amount, .. } => Outcome::Traded(
                        TradeResult {
                            tx_hash,
                            trade_type: TradeType::Sell,
                            token,
                            amount,
                            cost: quote.bnb_cost,
                            price: quote.price_per_token,
                        },
                    ),
                    TradeRequest::BuyExact { token, amount, .. } => Outcome::Traded(
                        TradeResult {
                            tx_hash,
                            trade_type: TradeType::Buy,
                            token,
                            amount,
                            cost: quote.bnb_cost,
                            price: quote.price_per_token,
                        },
                    ),
                    TradeRequest::Approve { .. } => Outcome::Approved(tx_hash),
                };
                Some(Ok(outcome))
            },
            Stage::Failed { error } => Some(Err(error)),
            _ => None,
        }
    }
}

} // verus!
