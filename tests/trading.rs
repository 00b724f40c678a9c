use fourmeme_trader::error::{ConfigIssue, TradeError};
use fourmeme_trader::session::{Action, Event, Outcome, Stage, TradeRequest, TradeSession};
use fourmeme_trader::slippage::{
    ceiling_slippage, floor_slippage, max_acceptable_cost, min_acceptable_output, Slippage,
};
use fourmeme_trader::types::{ChainAddress, PriceInfo, TradeCall, TradeResult, TradeType};

const TOKEN: ChainAddress = ChainAddress { bytes: [7u8; 20] };
const WALLET: ChainAddress = ChainAddress { bytes: [9u8; 20] };
const ROUTER: ChainAddress = ChainAddress { bytes: [3u8; 20] };
const ONE_UNIT: u128 = 1_000_000_000_000_000_000;

fn bps(b: u64) -> Slippage {
    Slippage { bps: b }
}

/// Runs a session through quote, fee, send and receipt, returning the call it sent.
fn run_to_receipt(session: &mut TradeSession, first: Action, quote: Option<(u128, u128)>) -> TradeCall {
    let mut action = first;
    if let Some((token_amount, cost)) = quote {
        assert_eq!(action, Action::RequestQuote);
        action = session.step(Event::Quoted { token_amount, cost });
    }
    let call = match action {
        Action::EstimateFee { call } => call,
        other => panic!("expected a fee estimate, got {:?}", other),
    };
    assert_eq!(session.step(Event::FeeEstimated { gas: 21_000 }), Action::Send { call, gas: 21_000 });
    assert_eq!(session.step(Event::Sent), Action::AwaitReceipt);
    call
}

#[test]
fn min_output_one_percent_of_hundred() {
    assert_eq!(min_acceptable_output(100, bps(100)), 99);
}

#[test]
fn max_cost_two_percent_of_ten() {
    assert_eq!(max_acceptable_cost(10, bps(200)), Ok(11));
}

#[test]
fn min_output_is_at_most_quote() {
    assert_eq!(min_acceptable_output(12_345, bps(0)), 12_345);
    assert_eq!(min_acceptable_output(12_345, bps(10_000)), 0);
    assert_eq!(min_acceptable_output(12_345, bps(50)), 12_283);
    assert_eq!(min_acceptable_output(1, bps(1)), 0);
    assert_eq!(min_acceptable_output(0, bps(5_000)), 0);
}

#[test]
fn min_output_of_largest_amount() {
    let q = u128::MAX;
    assert_eq!(min_acceptable_output(q, bps(0)), q);
    assert_eq!(min_acceptable_output(q, bps(5_000)), q / 2);
}

#[test]
fn max_cost_is_at_least_quote() {
    assert_eq!(max_acceptable_cost(12_345, bps(0)), Ok(12_345));
    assert_eq!(max_acceptable_cost(12_345, bps(50)), Ok(12_407));
    assert_eq!(max_acceptable_cost(1, bps(1)), Ok(2));
    assert_eq!(max_acceptable_cost(0, bps(700)), Ok(0));
    assert_eq!(max_acceptable_cost(100, bps(15_000)), Ok(250));
}

#[test]
fn max_cost_that_overflows_is_rejected() {
    assert_eq!(
        max_acceptable_cost(u128::MAX, bps(1)),
        Err(TradeError::Configuration(ConfigIssue::AmountOutOfRange))
    );
    assert_eq!(max_acceptable_cost(u128::MAX, bps(0)), Ok(u128::MAX));
}

#[test]
fn out_of_range_slippage_is_rejected() {
    let rejected = TradeError::Configuration(ConfigIssue::SlippageOutOfRange);
    assert_eq!(floor_slippage(-100), Err(rejected.clone()));
    assert_eq!(floor_slippage(10_100), Err(rejected.clone()));
    assert_eq!(ceiling_slippage(-100), Err(rejected.clone()));
    assert_eq!(floor_slippage(10_000), Ok(bps(10_000)));
    assert_eq!(floor_slippage(0), Ok(bps(0)));
    assert_eq!(ceiling_slippage(10_100), Ok(bps(10_100)));
    assert_eq!(TradeRequest::buy(TOKEN, WALLET, ONE_UNIT, -100), Err(rejected.clone()));
    assert_eq!(TradeRequest::buy(TOKEN, WALLET, ONE_UNIT, 10_100), Err(rejected.clone()));
    assert_eq!(TradeRequest::sell(TOKEN, 5, 10_100), Err(rejected.clone()));
    assert_eq!(TradeRequest::buy_exact(TOKEN, 5, -100), Err(rejected.clone()));
}

#[test]
fn price_is_cost_over_amount() {
    let p = PriceInfo::new(100, 1_050);
    assert_eq!(p.price_per_token, 10);
    assert_eq!(PriceInfo::new(0, 5).price_per_token, 0);
    assert_eq!(PriceInfo::new(3, 2).price_per_token, 0);
}

#[test]
fn call_value_follows_the_entry_point() {
    let buy = TradeCall::BuyTokenAmap { token: TOKEN, recipient: WALLET, funds: 42, min_amount: 7 };
    let exact = TradeCall::BuyToken { token: TOKEN, amount: 9, max_funds: 11 };
    let sell = TradeCall::SellToken { token: TOKEN, amount: 9, min_funds: 5 };
    let approve = TradeCall::ApproveUnlimited { token: TOKEN, spender: ROUTER };
    assert_eq!(buy.value(), 42);
    assert_eq!(exact.value(), 11);
    assert_eq!(sell.value(), 0);
    assert_eq!(approve.value(), 0);
}

#[test]
fn buy_one_unit_at_one_percent() {
    let req = TradeRequest::buy(TOKEN, WALLET, ONE_UNIT, 100).unwrap();
    let (mut session, first) = TradeSession::start(req);
    let call = run_to_receipt(&mut session, first, Some((100, ONE_UNIT)));
    assert_eq!(
        call,
        TradeCall::BuyTokenAmap { token: TOKEN, recipient: WALLET, funds: ONE_UNIT, min_amount: 99 }
    );
    assert_eq!(call.value(), ONE_UNIT);
    let done = session.step(Event::Included { tx_hash: "0xabc".to_string(), succeeded: true });
    assert_eq!(done, Action::Finish);
    let expected = TradeResult {
        tx_hash: "0xabc".to_string(),
        trade_type: TradeType::Buy,
        token: TOKEN,
        amount: 100,
        cost: ONE_UNIT,
        price: ONE_UNIT / 100,
    };
    assert_eq!(session.finish(), Some(Ok(Outcome::Traded(expected))));
}

#[test]
fn buy_exact_thousand_at_two_percent() {
    let req = TradeRequest::buy_exact(TOKEN, 1_000, 200).unwrap();
    let (mut session, first) = TradeSession::start(req);
    let call = run_to_receipt(&mut session, first, Some((1_000, 10)));
    assert_eq!(call, TradeCall::BuyToken { token: TOKEN, amount: 1_000, max_funds: 11 });
    assert_eq!(call.value(), 11);
    session.step(Event::Included { tx_hash: "0xdef".to_string(), succeeded: true });
    let expected = TradeResult {
        tx_hash: "0xdef".to_string(),
        trade_type: TradeType::Buy,
        token: TOKEN,
        amount: 1_000,
        cost: 10,
        price: 0,
    };
    assert_eq!(session.finish(), Some(Ok(Outcome::Traded(expected))));
}

#[test]
fn sell_with_half_percent() {
    let req = TradeRequest::sell(TOKEN, 5_000, 50).unwrap();
    let (mut session, first) = TradeSession::start(req);
    let call = run_to_receipt(&mut session, first, Some((5_000, 20_000)));
    assert_eq!(call, TradeCall::SellToken { token: TOKEN, amount: 5_000, min_funds: 19_900 });
    assert_eq!(call.value(), 0);
    session.step(Event::Included { tx_hash: "0x51".to_string(), succeeded: true });
    let expected = TradeResult {
        tx_hash: "0x51".to_string(),
        trade_type: TradeType::Sell,
        token: TOKEN,
        amount: 5_000,
        cost: 20_000,
        price: 4,
    };
    assert_eq!(session.finish(), Some(Ok(Outcome::Traded(expected))));
}

#[test]
fn missing_receipt_is_unconfirmed() {
    let req = TradeRequest::buy(TOKEN, WALLET, ONE_UNIT, 100).unwrap();
    let (mut session, first) = TradeSession::start(req);
    run_to_receipt(&mut session, first, Some((100, ONE_UNIT)));
    assert_eq!(session.step(Event::NotIncluded), Action::Finish);
    assert_eq!(session.stage, Stage::Failed { error: TradeError::Unconfirmed });
    assert_eq!(session.finish(), Some(Err(TradeError::Unconfirmed)));
}

#[test]
fn approve_twice_gives_two_transactions() {
    let mut hashes = Vec::new();
    for hash in ["0x01", "0x02"] {
        let (mut session, first) = TradeSession::start(TradeRequest::Approve { token: TOKEN, spender: ROUTER });
        let call = run_to_receipt(&mut session, first, None);
        assert_eq!(call, TradeCall::ApproveUnlimited { token: TOKEN, spender: ROUTER });
        session.step(Event::Included { tx_hash: hash.to_string(), succeeded: true });
        match session.finish() {
            Some(Ok(Outcome::Approved(h))) => hashes.push(h),
            other => panic!("approval did not finish: {:?}", other),
        }
    }
    assert_eq!(hashes, vec!["0x01".to_string(), "0x02".to_string()]);
}

#[test]
fn failed_quote_is_a_query_error() {
    let req = TradeRequest::sell(TOKEN, 5, 100).unwrap();
    let (mut session, first) = TradeSession::start(req);
    assert_eq!(first, Action::RequestQuote);
    assert_eq!(session.step(Event::QuoteFailed { message: "reverted".to_string() }), Action::Finish);
    assert_eq!(session.finish(), Some(Err(TradeError::Query("reverted".to_string()))));
}

#[test]
fn failed_estimate_and_send_are_submission_errors() {
    let req = TradeRequest::buy(TOKEN, WALLET, 10, 100).unwrap();
    let (mut session, _) = TradeSession::start(req);
    session.step(Event::Quoted { token_amount: 100, cost: 10 });
    session.step(Event::EstimateFailed { message: "gas".to_string() });
    assert_eq!(session.finish(), Some(Err(TradeError::Submission("gas".to_string()))));

    let (mut session, _) = TradeSession::start(req);
    session.step(Event::Quoted { token_amount: 100, cost: 10 });
    session.step(Event::FeeEstimated { gas: 1 });
    session.step(Event::SendFailed { message: "nonce".to_string() });
    assert_eq!(session.finish(), Some(Err(TradeError::Submission("nonce".to_string()))));
}

#[test]
fn reverted_or_unpolled_is_a_confirmation_error() {
    let req = TradeRequest::sell(TOKEN, 5, 100).unwrap();
    let (mut session, first) = TradeSession::start(req);
    run_to_receipt(&mut session, first, Some((5, 50)));
    session.step(Event::Included { tx_hash: "0xbad".to_string(), succeeded: false });
    assert_eq!(session.finish(), Some(Err(TradeError::Confirmation("0xbad".to_string()))));

    let (mut session, first) = TradeSession::start(req);
    run_to_receipt(&mut session, first, Some((5, 50)));
    session.step(Event::PollFailed { message: "closed".to_string() });
    assert_eq!(session.finish(), Some(Err(TradeError::Confirmation("closed".to_string()))));
}

#[test]
fn overflowing_ceiling_fails_before_submission() {
    let req = TradeRequest::buy_exact(TOKEN, 1, 100).unwrap();
    let (mut session, _) = TradeSession::start(req);
    assert_eq!(session.step(Event::Quoted { token_amount: 1, cost: u128::MAX }), Action::Finish);
    assert_eq!(
        session.finish(),
        Some(Err(TradeError::Configuration(ConfigIssue::AmountOutOfRange)))
    );
}

#[test]
fn unexpected_event_changes_nothing() {
    let req = TradeRequest::buy(TOKEN, WALLET, 10, 100).unwrap();
    let (mut session, _) = TradeSession::start(req);
    assert_eq!(session.step(Event::Sent), Action::RequestQuote);
    assert_eq!(session.stage, Stage::Quoting);
    assert_eq!(session.finish(), None);
}
