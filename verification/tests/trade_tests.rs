use trade_engine::base::{OrderSide, OrderType};
use trade_engine::market_data::AlertId;
use trade_engine::trade::{
    AlertEvent, AlertType, OrderCmd, OrderData, Price, RecordingHandler, Trade, TradeState,
};

const STOPLOSS_PRICE: u64 = 7991;

fn market_order(handler: RecordingHandler) -> Trade<RecordingHandler> {
    let mut trade = Trade::new(None, handler);

    // New market order
    trade.tick(OrderCmd::NewOrder {
        order_data: OrderData {
            order_type: OrderType::Market,
            symbol: "EURUSD".into(),
            side: OrderSide::Buy,
            price: Some(Price::Abs(8011)),
            stoploss: Some(Price::Abs(STOPLOSS_PRICE)),
            targets: Some(vec![Price::Abs(8021)]),
        },
    });

    trade
}

fn count_registers(trade: &Trade<RecordingHandler>) -> usize {
    trade
        .handler()
        .events
        .iter()
        .filter(|e| matches!(e, AlertEvent::Register { .. }))
        .count()
}

fn count_cancels(trade: &Trade<RecordingHandler>) -> usize {
    trade
        .handler()
        .events
        .iter()
        .filter(|e| matches!(e, AlertEvent::Cancel { .. }))
        .count()
}

// Test Trade struct
#[test]
fn test_initialize_trade() {
    let handler = RecordingHandler::new();

    let trade = Trade::new(None, handler);

    // TradeID
    let trade_id = trade.trade_id();
    println!("Trade({}), state is {:?}", trade_id.0 .0, trade.state());
}

#[test]
fn test_market_order_hit_stoploss() {
    let handler = RecordingHandler::new();

    let mut trade = market_order(handler);
    // TradeID
    let trade_id = trade.trade_id();
    println!("Trade({}), state is {:?}", trade_id.0 .0, trade.state());
    assert_eq!(trade.state(), TradeState::Pending);

    let alert_id = trade
        .alerts()
        .iter()
        .find(|(_, alert_type)| matches!(alert_type, AlertType::Stoploss))
        .map(|(id, _)| id.clone())
        .unwrap_or_else(|| panic!("Stoploss alert not found!"));

    // Hit Stoploss
    trade.on_alert(alert_id);

    // check state
    assert_eq!(trade.state(), TradeState::Finished);
}

#[test]
fn test_market_order_hit_target() {
    let mut trade = market_order(RecordingHandler::new());
    assert_eq!(trade.state(), TradeState::Pending);

    let alert_id = trade
        .alerts()
        .iter()
        .find(|(_, alert_type)| matches!(alert_type, AlertType::Target))
        .map(|(id, _)| id.clone())
        .unwrap_or_else(|| panic!("Target alert not found!"));

    // Hit the target: under the minimal policy a target hit only records the
    // removal; the trade's state is unchanged and the stop-loss stays live.
    trade.on_alert(alert_id);

    assert_eq!(trade.state(), TradeState::Pending);
    assert_eq!(trade.alerts().len(), 1);
    assert!(matches!(trade.alerts()[0].1, AlertType::Stoploss));
}

#[test]
fn market_buy_scenario_registers_both_alerts() {
    let trade = market_order(RecordingHandler::new());

    assert_eq!(trade.state(), TradeState::Pending);
    assert_eq!(trade.alerts().len(), 2);
    assert!(matches!(trade.alerts()[0].1, AlertType::Stoploss));
    assert!(matches!(trade.alerts()[1].1, AlertType::Target));

    let events = &trade.handler().events;
    assert_eq!(events.len(), 2);
    match &events[0] {
        AlertEvent::Register { symbol, alert_id, price } => {
            assert_eq!(symbol, "EURUSD");
            assert_eq!(*price, STOPLOSS_PRICE);
            assert_eq!(*alert_id, trade.alerts()[0].0);
        }
        other => panic!("expected a register event, got {:?}", other),
    }
    match &events[1] {
        AlertEvent::Register { symbol, alert_id, price } => {
            assert_eq!(symbol, "EURUSD");
            assert_eq!(*price, 8021);
            assert_eq!(*alert_id, trade.alerts()[1].0);
        }
        other => panic!("expected a register event, got {:?}", other),
    }
}

#[test]
fn stoploss_fire_removes_entry() {
    let mut trade = market_order(RecordingHandler::new());

    let sl_id = trade.alerts()[0].0.clone();
    let events_before: usize = trade.handler().events.len();
    trade.on_alert(sl_id.clone());

    assert_eq!(trade.state(), TradeState::Finished);
    assert!(trade.alerts().iter().all(|(id, _)| *id != sl_id));
    assert_eq!(trade.alerts().len(), 1);
    // Reacting to a fired alert issues no dispatch call of its own.
    assert_eq!(trade.handler().events.len(), events_before);
}

#[test]
fn unknown_alert_is_noop() {
    let mut trade = market_order(RecordingHandler::new());
    let state_before = trade.state();
    let alerts_before: usize = trade.alerts().len();
    let events_before: usize = trade.handler().events.len();

    trade.on_alert(AlertId::new());

    assert_eq!(trade.state(), state_before);
    assert_eq!(trade.alerts().len(), alerts_before);
    assert_eq!(trade.handler().events.len(), events_before);
}

#[test]
fn replacing_order_cancels_before_registering() {
    let mut trade = market_order(RecordingHandler::new());
    let old_ids: Vec<AlertId> = trade.alerts().iter().map(|(id, _)| id.clone()).collect();
    assert_eq!(old_ids.len(), 2);

    trade.tick(OrderCmd::NewOrder {
        order_data: OrderData {
            order_type: OrderType::Limit,
            symbol: "EURUSD".into(),
            side: OrderSide::Buy,
            price: Some(Price::Abs(7900)),
            stoploss: None,
            targets: None,
        },
    });

    // The previous mapping is fully replaced, not merged.
    assert_eq!(trade.alerts().len(), 1);
    assert!(matches!(trade.alerts()[0].1, AlertType::LimitTrigger));

    // Events: two registers from the first order, then one cancel per old
    // alert, then the register of the new trigger.
    let events = &trade.handler().events;
    assert_eq!(events.len(), 5);
    match &events[2] {
        AlertEvent::Cancel { alert_id } => assert_eq!(*alert_id, old_ids[0]),
        other => panic!("expected a cancel event, got {:?}", other),
    }
    match &events[3] {
        AlertEvent::Cancel { alert_id } => assert_eq!(*alert_id, old_ids[1]),
        other => panic!("expected a cancel event, got {:?}", other),
    }
    match &events[4] {
        AlertEvent::Register { price, .. } => assert_eq!(*price, 7900),
        other => panic!("expected a register event, got {:?}", other),
    }
}

#[test]
fn close_trade_is_terminal_and_clears_alerts() {
    let mut trade = market_order(RecordingHandler::new());

    trade.tick(OrderCmd::CloseTrade);

    assert_eq!(trade.state(), TradeState::Finished);
    assert_eq!(trade.alerts().len(), 0);
    assert_eq!(count_cancels(&trade), 2);
}

#[test]
fn cancel_trade_cancels_every_active_alert() {
    let mut trade = market_order(RecordingHandler::new());
    assert_eq!(trade.alerts().len(), 2);

    trade.tick(OrderCmd::CancelTrade);

    assert_eq!(trade.state(), TradeState::Cancelled);
    assert_eq!(trade.alerts().len(), 0);
    assert_eq!(count_cancels(&trade), 2);
}

#[test]
fn limit_order_derives_single_trigger() {
    let mut trade = Trade::new(None, RecordingHandler::new());

    trade.tick(OrderCmd::NewOrder {
        order_data: OrderData {
            order_type: OrderType::Limit,
            symbol: "EURUSD".into(),
            side: OrderSide::Buy,
            price: Some(Price::Abs(12000)),
            stoploss: None,
            targets: None,
        },
    });

    assert_eq!(trade.state(), TradeState::Pending);
    assert_eq!(trade.alerts().len(), 1);
    assert!(matches!(trade.alerts()[0].1, AlertType::LimitTrigger));
    assert_eq!(count_registers(&trade), 1);
    match &trade.handler().events[0] {
        AlertEvent::Register { price, .. } => assert_eq!(*price, 12000),
        other => panic!("expected a register event, got {:?}", other),
    }
}

#[test]
fn stop_order_derives_stop_trigger() {
    let mut trade = Trade::new(None, RecordingHandler::new());

    trade.tick(OrderCmd::NewOrder {
        order_data: OrderData {
            order_type: OrderType::Stop,
            symbol: "USDJPY".into(),
            side: OrderSide::Sell,
            price: Some(Price::Abs(15000)),
            stoploss: Some(Price::Abs(15100)),
            targets: Some(vec![Price::Abs(14900)]),
        },
    });

    // A pending order derives only its entry trigger; position alerts wait
    // until the trigger fires.
    assert_eq!(trade.alerts().len(), 1);
    assert!(matches!(trade.alerts()[0].1, AlertType::StopTrigger));
    assert_eq!(count_registers(&trade), 1);
}

#[test]
fn entry_trigger_fire_installs_position_alerts() {
    let mut trade = Trade::new(None, RecordingHandler::new());

    trade.tick(OrderCmd::NewOrder {
        order_data: OrderData {
            order_type: OrderType::Limit,
            symbol: "EURUSD".into(),
            side: OrderSide::Buy,
            price: Some(Price::Abs(12000)),
            stoploss: Some(Price::Abs(11900)),
            targets: Some(vec![Price::Abs(12100), Price::Abs(12200)]),
        },
    });
    assert_eq!(trade.alerts().len(), 1);
    let trigger_id = trade.alerts()[0].0.clone();

    trade.on_alert(trigger_id);

    assert_eq!(trade.state(), TradeState::InProgress);
    assert_eq!(trade.alerts().len(), 3);
    assert!(matches!(trade.alerts()[0].1, AlertType::Stoploss));
    assert!(matches!(trade.alerts()[1].1, AlertType::Target));
    assert!(matches!(trade.alerts()[2].1, AlertType::Target));
    // One register for the trigger, then one per position alert.
    assert_eq!(count_registers(&trade), 4);
    match &trade.handler().events[1] {
        AlertEvent::Register { price, .. } => assert_eq!(*price, 11900),
        other => panic!("expected a register event, got {:?}", other),
    }
}

#[test]
fn pending_order_without_entry_is_inert() {
    let mut trade = Trade::new(None, RecordingHandler::new());

    trade.tick(OrderCmd::NewOrder {
        order_data: OrderData {
            order_type: OrderType::StopLimit,
            symbol: "EURUSD".into(),
            side: OrderSide::Buy,
            price: None,
            stoploss: Some(Price::Abs(7991)),
            targets: None,
        },
    });

    // Documented no-op: no entry price, so no trigger alert is derivable.
    assert_eq!(trade.state(), TradeState::Pending);
    assert_eq!(trade.alerts().len(), 0);
    assert_eq!(trade.handler().events.len(), 0);
}

#[test]
fn commands_after_terminal_state_are_noops() {
    let mut trade = market_order(RecordingHandler::new());
    trade.tick(OrderCmd::CancelTrade);
    assert_eq!(trade.state(), TradeState::Cancelled);
    let events_before: usize = trade.handler().events.len();

    trade.tick(OrderCmd::NewOrder {
        order_data: OrderData {
            order_type: OrderType::Market,
            symbol: "EURUSD".into(),
            side: OrderSide::Buy,
            price: Some(Price::Abs(8011)),
            stoploss: Some(Price::Abs(7991)),
            targets: None,
        },
    });
    trade.tick(OrderCmd::CloseTrade);

    assert_eq!(trade.state(), TradeState::Cancelled);
    assert_eq!(trade.alerts().len(), 0);
    assert_eq!(trade.handler().events.len(), events_before);
}

#[test]
fn cancel_all_price_alert_clears_and_keeps_state() {
    let mut trade = market_order(RecordingHandler::new());

    trade.cancel_all_price_alert();

    assert_eq!(trade.state(), TradeState::Pending);
    assert_eq!(trade.alerts().len(), 0);
    assert_eq!(count_cancels(&trade), 2);
}

#[test]
fn pip_prices_resolve_to_placeholder_zero() {
    let data = OrderData {
        order_type: OrderType::Market,
        symbol: "EURUSD".into(),
        side: OrderSide::Buy,
        price: Some(Price::Pip(20)),
        stoploss: Some(Price::Abs(7991)),
        targets: Some(vec![Price::Abs(5), Price::Pip(3)]),
    };

    assert_eq!(data.get_entry(), Some(0));
    assert_eq!(data.get_stoploss(), Some(7991));
    assert_eq!(data.get_targets(), Some(vec![5, 0]));

    let mut trade = Trade::new(None, RecordingHandler::new());
    trade.tick(OrderCmd::NewOrder { order_data: data });
    match &trade.handler().events[1] {
        AlertEvent::Register { price, .. } => assert_eq!(*price, 5),
        other => panic!("expected a register event, got {:?}", other),
    }
    match &trade.handler().events[2] {
        AlertEvent::Register { price, .. } => assert_eq!(*price, 0),
        other => panic!("expected a register event, got {:?}", other),
    }
}

#[test]
fn unset_prices_resolve_to_none() {
    let data = OrderData {
        order_type: OrderType::Limit,
        symbol: "EURUSD".into(),
        side: OrderSide::Sell,
        price: None,
        stoploss: None,
        targets: None,
    };

    assert_eq!(data.get_entry(), None);
    assert_eq!(data.get_stoploss(), None);
    assert_eq!(data.get_targets(), None);
}
