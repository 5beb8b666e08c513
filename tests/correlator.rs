use trade_client::correlator::Dispatch;
use bigdecimal::BigDecimal;
use trade_client::account::AccountRole;
use trade_client::correlator::Correlator;
use trade_client::envelope::{RequestContent, Response, ResponseContent, ResponseResult};
use trade_client::events::{DepositEvent, Event};
use trade_client::signing::account_message_scope;
use trade_client::trade_account::TradeAccountClient;
use trade_client::user::User;

fn id(s: &str) -> Option<String> {
    Some(s.to_string())
}

#[test]
fn response_reaches_only_its_own_call() {
    let mut table: Correlator<u32, u32> = Correlator::new();
    assert!(table.register_call("a".to_string(), 1).is_ok());
    assert!(table.register_call("b".to_string(), 2).is_ok());
    assert_eq!(table.resolve(&id("b")), Some(2));
    assert!(!table.is_pending(&"b".to_string()));
    assert!(table.is_pending(&"a".to_string()));
    assert_eq!(table.resolve(&id("b")), None);
    assert_eq!(table.resolve(&id("a")), Some(1));
}

#[test]
fn pending_id_is_not_reused() {
    let mut table: Correlator<u32, u32> = Correlator::new();
    assert!(table.register_call("x".to_string(), 1).is_ok());
    assert_eq!(table.register_call("x".to_string(), 2), Err(2));
    assert_eq!(table.resolve(&id("x")), Some(1));
    assert!(table.register_call("x".to_string(), 3).is_ok());
}

#[test]
fn frame_without_id_is_dropped() {
    let mut table: Correlator<u32, u32> = Correlator::new();
    assert!(table.register_call("a".to_string(), 1).is_ok());
    assert_eq!(table.resolve(&None), None);
    assert!(table.is_pending(&"a".to_string()));
}

#[test]
fn open_call_uses_decimal_id() {
    let mut table: Correlator<u32, u32> = Correlator::new();
    assert_eq!(table.open_call(123, 1), Ok("123".to_string()));
    assert_eq!(table.open_call(123, 2), Err(2));
    assert_eq!(table.open_call(0, 3), Ok("0".to_string()));
    let fresh = table.open_random_call(4).unwrap();
    assert_eq!(table.resolve(&Some(fresh)), Some(4));
}

#[test]
fn subscriptions_receive_every_frame_until_removed() {
    let mut table: Correlator<u32, u32> = Correlator::new();
    assert!(table.register_subscription("sub".to_string(), 9).is_ok());
    assert_eq!(table.subscription(&"sub".to_string()), Some(&9));
    assert_eq!(table.subscription(&"sub".to_string()), Some(&9));
    assert_eq!(table.resolve(&id("sub")), None);
    assert_eq!(table.unsubscribe(&"sub".to_string()), Some(9));
    assert_eq!(table.subscription(&"sub".to_string()), None);
}

#[test]
fn closing_fails_everything_pending() {
    let mut table: Correlator<u32, u32> = Correlator::new();
    assert!(table.register_call("a".to_string(), 1).is_ok());
    assert!(table.register_call("b".to_string(), 2).is_ok());
    assert!(table.register_subscription("s".to_string(), 3).is_ok());
    let (calls, subs) = table.close();
    assert_eq!(calls, vec![1, 2]);
    assert_eq!(subs, vec![3]);
    assert!(!table.is_pending(&"a".to_string()));
}

fn deposit_response(frame_id: &str, account_id: u64) -> Response {
    let event = DepositEvent {
        account_id,
        amount: BigDecimal::from(1),
        timestamp_unix_millis: 0,
        depositor: [1u8; 20],
        token: [2u8; 20],
        signature: vec![3u8; 65],
        use_gasless: None,
        psm_token: None,
    };
    Response::from::<String>(Ok(ResponseContent::Event(Event::Deposit(event))), id(frame_id))
}

#[test]
fn deposit_scenario_resolves_with_its_event() {
    let user = User { signer: [7u8; 32], address: [1u8; 20] };
    let account = TradeAccountClient::from_existing(7, user);
    let scope = account_message_scope();
    let request = account
        .get_deposit_ws_request(&scope, &[0u8; 32], BigDecimal::from(1), [2u8; 20], false)
        .unwrap();
    match &request {
        RequestContent::Deposit(d) => {
            assert_eq!(d.account_id, 7);
            assert_eq!(d.amount, BigDecimal::from(1));
            assert_eq!(d.signature.len(), 65);
            assert_eq!(d.use_gasless, None);
        }
        _ => panic!("not a deposit request"),
    }
    let mut table: Correlator<&str, u32> = Correlator::new();
    assert!(table.register_call("abc".to_string(), "deposit call").is_ok());
    assert!(table.register_call("other".to_string(), "other call").is_ok());
    let response = deposit_response("abc", 7);
    assert_eq!(table.resolve(&response.id), Some("deposit call"));
    assert!(table.is_pending(&"other".to_string()));
    let event = TradeAccountClient::deposit_result(response).unwrap();
    assert_eq!(event.account_id, 7);
    assert_eq!(event.amount, BigDecimal::from(1));
}

#[test]
fn orphan_frame_leaves_connection_healthy() {
    let mut table: Correlator<u32, u32> = Correlator::new();
    assert!(table.register_call("a".to_string(), 1).is_ok());
    let orphan = deposit_response("zzz", 1);
    assert_eq!(table.resolve(&orphan.id), None);
    assert!(table.is_pending(&"a".to_string()));
    let next = table.open_call(77, 2).unwrap();
    assert_eq!(table.resolve(&deposit_response(&next, 1).id), Some(2));
    assert_eq!(table.resolve(&id("a")), Some(1));
}

#[test]
fn error_response_is_surfaced() {
    let response = Response::from(Err::<ResponseContent, _>("boom"), id("q"));
    assert_eq!(
        TradeAccountClient::deposit_result(response).unwrap_err(),
        "\"boom\""
    );
    let empty = Response { id: id("q"), content: ResponseResult { result: None, error: None } };
    assert_eq!(
        empty.content().unwrap_err(),
        "no response content or error received"
    );
    let empty = Response { id: id("q"), content: ResponseResult { result: None, error: None } };
    assert_eq!(empty.take().0.unwrap_err(), "invalid response");
}

#[test]
fn grant_request_is_signed_as_owner() {
    let user = User { signer: [7u8; 32], address: [1u8; 20] };
    let account = TradeAccountClient::from_existing(9, user.clone());
    let scope = account_message_scope();
    let nonce = [0u8; 32];
    let request = account
        .get_grant_role_request(&scope, &nonce, [5u8; 20], AccountRole::Trader)
        .unwrap();
    let owner_sig = user.sign_role_message(&scope, 9, &nonce, AccountRole::Owner).unwrap();
    match request {
        RequestContent::GrantAccountUserRole(g) => {
            assert_eq!(g.role, AccountRole::Trader);
            assert_eq!(g.user, [5u8; 20]);
            assert_eq!(g.owner_signature, owner_sig.to_vec());
        }
        _ => panic!("not a grant request"),
    }
}

#[test]
fn well_formed_responses_hold_exactly_one_part() {
    let ok = Response::from::<String>(Ok(ResponseContent::Subscription("s".to_string())), id("a"));
    assert!(ok.is_well_formed());
    let err = Response::from(Err::<ResponseContent, _>("e"), id("a"));
    assert!(err.is_well_formed());
    let neither = Response { id: id("a"), content: ResponseResult { result: None, error: None } };
    assert!(!neither.is_well_formed());
    let both = Response {
        id: id("a"),
        content: ResponseResult {
            result: Some(ResponseContent::Subscription("s".to_string())),
            error: Some("e".to_string()),
        },
    };
    assert!(!both.is_well_formed());
}

#[test]
fn dispatch_prefers_calls_then_subscriptions() {
    let mut table: Correlator<u32, u32> = Correlator::new();
    assert!(table.register_call("c".to_string(), 1).is_ok());
    assert!(table.register_subscription("s".to_string(), 2).is_ok());
    let frame = |i: &str| Response::from::<String>(Ok(ResponseContent::Subscription("x".to_string())), id(i));
    assert!(matches!(table.dispatch(&frame("c")), Dispatch::Call(1)));
    assert!(matches!(table.dispatch(&frame("c")), Dispatch::Dropped));
    assert!(matches!(table.dispatch(&frame("s")), Dispatch::Subscription));
    assert!(matches!(table.dispatch(&frame("s")), Dispatch::Subscription));
    assert!(matches!(table.dispatch(&frame("zzz")), Dispatch::Dropped));
    assert!(table.register_call("c".to_string(), 3).is_ok());
    let malformed = Response { id: id("c"), content: ResponseResult { result: None, error: None } };
    assert!(matches!(table.dispatch(&malformed), Dispatch::Dropped));
    assert!(table.is_pending(&"c".to_string()));
}

#[test]
fn wrong_event_errors_name_what_came() {
    let response = Response::from::<String>(Ok(ResponseContent::Subscription("s".to_string())), id("q"));
    let err = TradeAccountClient::deposit_result(response).unwrap_err();
    assert!(err.starts_with("did not receive deposit event; "));
    let response = Response::from::<String>(Ok(ResponseContent::Subscription("s".to_string())), id("q"));
    let user = User { signer: [7u8; 32], address: [1u8; 20] };
    assert_eq!(TradeAccountClient::opened(user, response).err().unwrap(), "no account received");
}
