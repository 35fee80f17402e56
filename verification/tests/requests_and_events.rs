use ib_rust_api::decoder::{Decoder, DecodeError};
use ib_rust_api::double::Double;
use ib_rust_api::enums::incoming_message_enum::IncomingMessagesEnum;
use ib_rust_api::models::contract::Contract;
use ib_rust_api::models::tag_value::TagValue;
use ib_rust_api::requests::ClientEngine;
use ib_rust_api::models::scanner_subscription::ScannerSubscription;
use ib_rust_api::api_parameter::ApiParameters;

fn fields(v: &[&str]) -> Vec<String> {
    v.iter().map(|s| s.to_string()).collect()
}

#[test]
fn error_frame_decodes_to_error_event() {
    let mut d = Decoder::new(fields(&["4", "2", "12", "200", "No security found"]));
    let evs = d.process_incoming_message(151).unwrap();
    assert_eq!(evs.len(), 1);
    match &evs[0] {
        IncomingMessagesEnum::Error(id, code, msg) => {
            assert_eq!(*id, 12);
            assert_eq!(*code, 200);
            assert_eq!(msg, "No security found");
        },
        _ => panic!("wrong event"),
    }
}

#[test]
fn empty_and_invalid_frames_are_reported() {
    let mut d = Decoder::new(Vec::new());
    assert!(matches!(d.process_incoming_message(151), Err(DecodeError::EmptyMessage)));
    let mut d2 = Decoder::new(fields(&["-1", "x"]));
    assert!(matches!(d2.process_incoming_message(151), Err(DecodeError::NotValidMessage)));
    let mut d3 = Decoder::new(fields(&["junk"]));
    assert!(matches!(d3.process_incoming_message(151), Err(DecodeError::NotValidMessage)));
}

#[test]
fn unknown_code_decodes_to_no_event() {
    let mut d = Decoder::new(fields(&["48", "1", "2"]));
    let evs = d.process_incoming_message(151).unwrap();
    assert!(evs.is_empty());
}

#[test]
fn next_valid_id_decodes() {
    let mut d = Decoder::new(fields(&["9", "1", "90001"]));
    let evs = d.process_incoming_message(151).unwrap();
    assert!(matches!(evs[0], IncomingMessagesEnum::NextValidId(90001)));
}

#[test]
fn market_order_encodes_empty_prices_on_modern_servers() {
    // the market-data request carries the strike as a plain double
    let engine = ClientEngine::new(151, true);
    let mut contract = Contract::new();
    contract.symbol = "IBM".to_string();
    contract.sec_type = "STK".to_string();
    contract.exchange = "SMART".to_string();
    contract.currency = "USD".to_string();
    let outcome = engine.req_market_data(1, &contract, "", false, false, &Vec::new());
    let msg = outcome.message.unwrap();
    assert_eq!(msg[0], "1");
    assert_eq!(msg[1], "11");
    assert_eq!(msg[2], "1");
    assert_eq!(msg[3], "0");
    assert_eq!(msg[4], "IBM");
    assert_eq!(msg[5], "STK");
}

#[test]
fn scanner_cancel_message_layout() {
    let engine = ClientEngine::new(151, true);
    let out = engine.cancel_scanner_subscription(42);
    assert_eq!(out.message.unwrap(), fields(&["23", "1", "42"]));
    let not_connected = ClientEngine::new(151, false).cancel_scanner_subscription(42);
    assert!(not_connected.message.is_none());
    assert_eq!(not_connected.events.len(), 1);
}

#[test]
fn unset_sentinels_encode_as_empty_scanner_fields() {
    let engine = ClientEngine::new(151, true);
    let mut sub = ScannerSubscription::new();
    sub.instrument = "STK".to_string();
    sub.above_price = Double::Num("5.5".to_string());
    let out = engine.req_scanner_subscription(7, &sub);
    let msg = out.message.unwrap();
    assert_eq!(msg[0], "22");
    // modern server: no legacy version field
    assert_eq!(msg[1], "7");
    // unset row limit encodes as its numeral; unset prices as empty fields
    assert_eq!(msg[2], "-1");
    assert_eq!(msg[3], "STK");
    assert_eq!(msg[6], "5.5");
    assert_eq!(msg[7], "");
}

#[test]
fn pnl_frame_decodes_with_version_gates() {
    let mut d = Decoder::new(fields(&["94", "3", "1.5", "-2.25", "0.75"]));
    let evs = d.process_incoming_message(151).unwrap();
    match &evs[0] {
        IncomingMessagesEnum::PnL(id, daily, unrealized, realized) => {
            assert_eq!(*id, 3);
            assert!(matches!(daily, Double::Num(t) if t == "1.5"));
            assert!(matches!(unrealized, Double::Num(t) if t == "-2.25"));
            assert!(matches!(realized, Double::Num(t) if t == "0.75"));
        },
        _ => panic!("wrong event"),
    }
    // below the unrealized gate both figures stay at their defaults
    let mut d2 = Decoder::new(fields(&["94", "3", "1.5"]));
    let evs2 = d2.process_incoming_message(128).unwrap();
    match &evs2[0] {
        IncomingMessagesEnum::PnL(_, _, unrealized, realized) => {
            assert!(matches!(unrealized, Double::Num(t) if t == "0"));
            assert!(matches!(realized, Double::Num(t) if t == "0"));
        },
        _ => panic!("wrong event"),
    }
}

#[test]
fn open_order_frame_decodes_order_identity() {
    // modern server: no legacy message version field; the frame is short,
    // so everything past its end keeps the documented defaults
    let mut base = vec!["5", "33", "265598", "AAPL", "STK", "", "0", "?", "100", "SMART",
        "USD", "AAPL", "NMS", "BUY", "5", "LMT", "201.5", "", "DAY", "", "DU123", "", "0",
        "", "7", "1653"];
    while base.len() < 120 {
        base.push("");
    }
    let fs: Vec<String> = base.iter().map(|s| s.to_string()).collect();
    let mut d = Decoder::new(fs);
    let evs = d.process_incoming_message(151).unwrap();
    match &evs[0] {
        IncomingMessagesEnum::OpenOrder(od) => {
            assert_eq!(od.order_id, 33);
            assert_eq!(od.order.main.order_id, 33);
            assert_eq!(od.contract.con_id, 265598);
            assert_eq!(od.contract.symbol, "AAPL");
            assert_eq!(od.order.main.action, "BUY");
            assert!(matches!(od.order.main.total_quantity, Double::Num(ref t) if t == "5"));
            assert_eq!(od.order.main.order_type, "LMT");
            assert!(matches!(od.order.main.lmt_price, Double::Num(ref t) if t == "201.5"));
            assert!(matches!(od.order.main.aux_price, Double::Unset));
            assert_eq!(od.order.main.tif, "DAY");
            assert_eq!(od.order.main.account, "DU123");
        },
        _ => panic!("wrong event"),
    }
}

#[test]
fn tag_value_lists_join_into_one_field() {
    let mut p = ApiParameters::new();
    let tvs = vec![
        TagValue::new("a".to_string(), "1".to_string()),
        TagValue::new("b".to_string(), "2".to_string()),
    ];
    p.add_tag_value_vec(&tvs);
    let fields = p.into_fields();
    assert_eq!(fields, vec!["a=1;b=2;".to_string()]);
}

#[test]
fn market_order_sentinel_prices_encode_by_version() {
    // a market order leaves the limit and auxiliary prices unset; modern
    // servers receive empty fields, older ones a literal zero
    let mut contract = Contract::new();
    contract.symbol = "IBM".to_string();
    contract.sec_type = "STK".to_string();
    contract.exchange = "SMART".to_string();
    contract.currency = "USD".to_string();
    let mut order = ib_rust_api::models::order::Order::new();
    order.main.action = "BUY".to_string();
    order.main.order_type = "MKT".to_string();
    order.main.total_quantity = Double::Num("100".to_string());

    let modern = ClientEngine::new(151, true).place_order(5, &contract, &order);
    assert!(modern.events.is_empty());
    let msg = modern.message.unwrap();
    assert_eq!(msg[0], "3");
    assert_eq!(msg[1], "5");
    assert_eq!(msg[16], "BUY");
    assert_eq!(msg[17], "100");
    assert_eq!(msg[18], "MKT");
    assert_eq!(msg[19], "");
    assert_eq!(msg[20], "");

    let old = ClientEngine::new(60, true).place_order(5, &contract, &order);
    assert!(old.events.is_empty());
    let old_msg = old.message.unwrap();
    assert_eq!(old_msg[0], "3");
    // the legacy message version precedes the order id on old servers
    assert_eq!(old_msg[1], "45");
    assert_eq!(old_msg[2], "5");
    assert_eq!(old_msg[19], "0");
    assert_eq!(old_msg[20], "0");
}

#[test]
fn default_order_passes_validation_on_any_server() {
    // no field outruns the server when everything is at its default
    let contract = Contract::new();
    let order = ib_rust_api::models::order::Order::new();
    for sv in [40, 60, 100, 140, 151] {
        let out = ClientEngine::new(sv, true).place_order(1, &contract, &order);
        assert!(out.message.is_some(), "refused at version {sv}");
        assert!(out.events.is_empty());
    }
}

#[test]
fn too_new_order_field_is_refused_with_update_event() {
    let contract = Contract::new();
    let mut order = ib_rust_api::models::order::Order::new();
    order.misc.dont_use_auto_price_for_hedge = true;
    let out = ClientEngine::new(140, true).place_order(9, &contract, &order);
    assert!(out.message.is_none());
    assert_eq!(out.events.len(), 1);
    match &out.events[0] {
        IncomingMessagesEnum::Error(id, code, _) => {
            assert_eq!(*id, 9);
            assert_eq!(*code, 503);
        },
        _ => panic!("wrong event"),
    }
    // the same field is accepted once the server carries it
    let ok = ClientEngine::new(151, true).place_order(9, &contract, &order);
    assert!(ok.message.is_some());
}

#[test]
fn disconnected_place_order_emits_single_not_connected_event() {
    let contract = Contract::new();
    let order = ib_rust_api::models::order::Order::new();
    let out = ClientEngine::new(151, false).place_order(2, &contract, &order);
    assert!(out.message.is_none());
    assert_eq!(out.events.len(), 1);
    match &out.events[0] {
        IncomingMessagesEnum::Error(id, code, _) => {
            assert_eq!(*id, 504);
            assert_eq!(*code, 504);
        },
        _ => panic!("wrong event"),
    }
}

#[test]
fn warn_only_version_checks_still_send() {
    // a snapshot request below the snapshot version warns but goes out
    let mut contract = Contract::new();
    contract.symbol = "IBM".to_string();
    contract.trading_class = "X".to_string();
    let out = ClientEngine::new(30, true).req_market_data(4, &contract, "", true, false,
        &Vec::new());
    assert!(out.message.is_some());
    assert_eq!(out.events.len(), 1);
    match &out.events[0] {
        IncomingMessagesEnum::Error(id, code, _) => {
            assert_eq!(*id, 4);
            assert_eq!(*code, 503);
        },
        _ => panic!("wrong event"),
    }
}
