use trade_client::order::{expiry_or_default, unix_millis_of};
use bigdecimal::BigDecimal;
use trade_client::order::{
    default_expiry_unix_millis, expiry_after, now_unix_millis, LimitTriggerOrderArgs,
    LinkedOrderKind, OrderCancellation, OrderCancellationReason, OrderFill, OrderOpenState,
    OrderStatus, OrderStatusKind, OrderTrigger, SettlementStatus, StopMarketOrderArgs,
    DEFAULT_EXPIRY_MILLIS,
};

fn triggered() -> OrderStatus {
    OrderStatus::Open(OrderOpenState::Triggered(OrderTrigger {
        timestamp_unix_millis: 5,
        trigger_price: BigDecimal::from(100),
    }))
}

fn filled() -> OrderStatus {
    OrderStatus::Filled(OrderFill {
        price: BigDecimal::from(101),
        timestamp_unix_millis: 6,
        settlement_status: SettlementStatus::Queued,
    })
}

fn cancelled() -> OrderStatus {
    OrderStatus::Cancelled(OrderCancellation {
        timestamp_unix_millis: 7,
        reason: OrderCancellationReason::User,
        user_cancellation: None,
    })
}

#[test]
fn placed_may_be_triggered() {
    let mut status = OrderStatus::Open(OrderOpenState::Placed);
    assert!(status.can_transition_to(&triggered()));
    assert!(status.transition(triggered()).is_ok());
    assert_eq!(status, triggered());
    assert!(status.transition(filled()).is_ok());
    assert!(status.is_filled());
}

#[test]
fn filled_and_cancelled_are_terminal() {
    for terminal in [filled(), cancelled()] {
        for next in [OrderStatus::Open(OrderOpenState::Placed), triggered(), filled(), cancelled()] {
            assert!(!terminal.can_transition_to(&next));
            let mut status = terminal.clone();
            assert_eq!(status.transition(next.clone()), Err(next));
            assert_eq!(status, terminal);
        }
    }
}

#[test]
fn triggered_cannot_return_to_placed() {
    assert!(!triggered().can_transition_to(&OrderStatus::Open(OrderOpenState::Placed)));
    assert!(triggered().can_transition_to(&cancelled()));
}

#[test]
fn settlement_moves_forward_only() {
    assert!(SettlementStatus::Queued.can_advance_to(&SettlementStatus::BeforeTx));
    assert!(SettlementStatus::BeforeTx.can_advance_to(&SettlementStatus::Indexing));
    assert!(!SettlementStatus::Indexing.can_advance_to(&SettlementStatus::Queued));
    assert!(!SettlementStatus::Queued.can_advance_to(&SettlementStatus::Queued));
}

#[test]
fn status_codes() {
    assert_eq!(OrderStatusKind::Open.to_string(), "opn");
    assert_eq!(filled().to_string(), "fil");
    assert_eq!(cancelled().to_string(), "cxl");
    assert_eq!(OrderStatusKind::try_from("fil"), Ok(OrderStatusKind::Filled));
    assert_eq!(
        OrderStatusKind::try_from("xyz"),
        Err("invalid status variant: xyz".to_string())
    );
    assert_eq!(SettlementStatus::Indexing.to_string(), "idx");
}

#[test]
fn cancellation_reason_codes() {
    assert_eq!(OrderCancellationReason::LinkedOrder.to_string(), "lnk");
    assert_eq!(
        OrderCancellationReason::try_from("red"),
        Ok(OrderCancellationReason::ReduceOnlyOrder)
    );
    assert_eq!(
        OrderCancellationReason::try_from("nope"),
        Err("invalid cancellation reason variant: nope".to_string())
    );
}

#[test]
fn linked_orders() {
    let args = StopMarketOrderArgs {
        trigger_price: BigDecimal::from(1),
        stop_loss: Some(LinkedOrderKind::Order(42)),
    };
    assert!(args.is_stop_loss());
    assert_eq!(args.linked_stop_loss_order_id(), Some(42));
    let args = LimitTriggerOrderArgs {
        trigger_price: BigDecimal::from(1),
        take_profit: Some(LinkedOrderKind::Position),
    };
    assert!(args.is_take_profit());
    assert_eq!(args.linked_take_profit_order_id(), None);
}

#[test]
fn expiry_is_three_months_later() {
    assert_eq!(expiry_after(1_000), 1_000 + 3 * 31 * 24 * 60 * 60 * 1_000);
    assert_eq!(DEFAULT_EXPIRY_MILLIS, 8_035_200_000);
    assert_eq!(expiry_after(i64::MAX - 1), i64::MAX);
    let now = now_unix_millis();
    assert!(now > 1_600_000_000_000);
    assert!(default_expiry_unix_millis() >= now + DEFAULT_EXPIRY_MILLIS);
}

#[test]
fn clock_reading_is_clamped() {
    assert_eq!(unix_millis_of(None), 0);
    assert_eq!(unix_millis_of(Some(1_700_000_000_000)), 1_700_000_000_000);
    assert_eq!(unix_millis_of(Some(u128::MAX)), i64::MAX);
    assert_eq!(expiry_or_default(1_000, None), 1_000 + DEFAULT_EXPIRY_MILLIS);
    assert_eq!(expiry_or_default(1_000, Some(5)), 5);
}
