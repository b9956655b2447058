use trade_monitor::actors::bybit::{
    account_reply, coins_of_entries, income_rows, open_order_of_entry, open_order_reply_count, open_order_reply_rows,
    position_reply, positions_of_entries, transfer_of_entry, OpenOrderEntry, TransferEntry,
    asset_rows, open_order_rows, order_type_label_str, position_row, position_rows, transfer_rows_at, stamp_clock_string, summary_next,
    summary_start, transfer_rows, AccountFigures, BybitCoin, BybitOpenOrder, BybitPosition, BybitTransfer,
    PositionFigures, SummaryEvent, SummaryRequest, SummaryStage, SummaryStep,
};

fn order(order_type: &str, created: &str) -> BybitOpenOrder {
    BybitOpenOrder {
        symbol: "BTCUSDT".to_string(),
        order_type: order_type.to_string(),
        side: "Buy".to_string(),
        price: "30000".to_string(),
        qty: "0.5".to_string(),
        cum_exec_qty: "0.1".to_string(),
        created_time: created.to_string(),
        reduce_only: true,
    }
}

fn position(symbol: &str, size: &str, zero: bool, updated: &str) -> BybitPosition {
    BybitPosition {
        symbol: symbol.to_string(),
        size: size.to_string(),
        side: "Sell".to_string(),
        avg_price: "1800.5".to_string(),
        leverage: "10".to_string(),
        mark_price: "1801".to_string(),
        unrealised_pnl: "-3.2".to_string(),
        update_time: updated.to_string(),
        size_is_zero: zero,
    }
}

fn transfer(status: &str, from: &str, to: &str) -> BybitTransfer {
    BybitTransfer {
        status: status.to_string(),
        from_account_type: from.to_string(),
        to_account_type: to.to_string(),
        timestamp: "0".to_string(),
        amount: "12.5".to_string(),
        coin: "USDT".to_string(),
    }
}

#[test]
fn clock_text_of_epoch_millis() {
    assert_eq!(stamp_clock_string("0"), Some("1970-01-01 00:00:00".to_string()));
    assert_eq!(stamp_clock_string("1700000000000"), Some("2023-11-14 22:13:20".to_string()));
    assert_eq!(stamp_clock_string("-1000"), Some("1969-12-31 23:59:59".to_string()));
    assert_eq!(stamp_clock_string("17e11"), None);
    assert_eq!(stamp_clock_string("9223372036854775807"), None);
}

#[test]
fn order_types_are_named() {
    assert_eq!(order_type_label_str("Limit"), "限价单");
    assert_eq!(order_type_label_str("Market"), "市价单");
    assert_eq!(order_type_label_str("StopLimit"), "");
}

#[test]
fn open_orders_become_rows() {
    let rows = open_order_rows(&vec![order("Limit", "0"), order("Other", "1700000000000")], "acct").unwrap();
    assert_eq!(rows.len(), 2);
    assert_eq!(rows[0].time, "1970-01-01 00:00:00");
    assert_eq!(rows[0].name, "acct");
    assert_eq!(rows[0].kind, "限价单");
    assert_eq!(rows[0].orig_qty, "0.5");
    assert_eq!(rows[0].executed_qty, "0.1");
    assert!(rows[0].reduce_only);
    assert_eq!(rows[1].kind, "");
    assert_eq!(rows[1].time, "2023-11-14 22:13:20");
}

#[test]
fn open_orders_with_a_bad_stamp_give_none() {
    assert!(open_order_rows(&vec![order("Limit", "soon")], "acct").is_none());
    assert_eq!(open_order_rows(&vec![], "acct").unwrap().len(), 0);
}

#[test]
fn zero_positions_are_not_shown() {
    let ps = vec![
        position("ETHUSDT", "2", false, "0"),
        position("BTCUSDT", "0", true, "not a stamp"),
        position("SOLUSDT", "5", false, "1700000000000"),
    ];
    let rows = position_rows(&ps, 42).unwrap();
    assert_eq!(rows.len(), 2);
    assert_eq!(rows[0].symbol, "ETHUSDT");
    assert_eq!(rows[0].position_amt, "2");
    assert_eq!(rows[0].position_side, "Sell");
    assert_eq!(rows[0].entry_price, "1800.5");
    assert_eq!(rows[0].unrealized_profit, "-3.2");
    assert_eq!(rows[0].id, "42");
    assert_eq!(rows[1].symbol, "SOLUSDT");
    assert_eq!(rows[1].time, "2023-11-14 22:13:20");
}

#[test]
fn a_shown_position_with_a_bad_stamp_gives_none() {
    assert!(position_rows(&vec![position("ETHUSDT", "2", false, "x")], 1).is_none());
}

#[test]
fn held_coins_are_shown_in_order() {
    let coin = |c: &str, zero: bool| BybitCoin {
        coin: c.to_string(),
        wallet_balance: "1".to_string(),
        unrealised_pnl: "0".to_string(),
        usd_value: "2".to_string(),
        available_to_withdraw: "0.5".to_string(),
        balance_is_zero: zero,
    };
    let rows = asset_rows(&vec![vec![coin("BTC", false), coin("XRP", true)], vec![], vec![coin("USDT", false)]], 7);
    assert_eq!(rows.len(), 2);
    assert_eq!(rows[0].symbol, "BTC");
    assert_eq!(rows[0].margin_balance, "2");
    assert_eq!(rows[0].available_balance, "0.5");
    assert_eq!(rows[1].symbol, "USDT");
    assert_eq!(rows[1].id, "7");
}

#[test]
fn transfer_labels_carry_over() {
    let ts = vec![
        transfer("WEIRD", "NOWHERE", "FUND"),
        transfer("SUCCESS", "SPOT", "UNIFIED"),
        transfer("UNKNOWN", "OPTION", "ELSEWHERE"),
        transfer("FAILED", "CONTRACT", "SPOT"),
    ];
    let rows = transfer_rows(&ts, "acct", 9).unwrap();
    assert_eq!(rows.len(), 4);
    assert_eq!((rows[0].status.as_str(), rows[0].from.as_str(), rows[0].to.as_str()), ("", "", "资金账户"));
    assert_eq!((rows[1].status.as_str(), rows[1].from.as_str(), rows[1].to.as_str()), ("划转成功", "现货账户", "统一账户"));
    assert_eq!((rows[2].status.as_str(), rows[2].from.as_str(), rows[2].to.as_str()), ("划转成功", "USDC合约账户", "统一账户"));
    assert_eq!((rows[3].status.as_str(), rows[3].from.as_str(), rows[3].to.as_str()), ("划转失败", "合约账户", "现货账户"));
    assert_eq!(rows[3].amount, "12.5");
    assert_eq!(rows[3].asset, "USDT");
    assert_eq!(rows[3].id, "9");
    assert_eq!(rows[3].name, "acct");
    assert_eq!(rows[3].time, "1970-01-01 00:00:00");
}

#[test]
fn pending_transfers_are_named() {
    let rows = transfer_rows(&vec![transfer("PENDING", "FUND", "CONTRACT")], "a", 1).unwrap();
    assert_eq!(rows[0].status, "正在划转中");
}

fn figures() -> AccountFigures {
    AccountFigures {
        total_equity: "1500".to_string(),
        net_worth: "1.5".to_string(),
        available_balance: "900".to_string(),
    }
}

#[test]
fn summary_asks_account_then_positions_then_orders() {
    let (state, step) = summary_start(12, "main");
    assert!(matches!(step, SummaryStep::Ask(SummaryRequest::Account)));
    let (state, step) = summary_next(state, SummaryEvent::AccountReply(Some(figures())));
    assert!(matches!(step, SummaryStep::Ask(SummaryRequest::Positions)));
    let (state, step) = summary_next(
        state,
        SummaryEvent::PositionsReply(Some(PositionFigures { leverage: "2.5".to_string(), position: "3750".to_string() })),
    );
    assert!(matches!(step, SummaryStep::Ask(SummaryRequest::OpenOrders)));
    let (state, step) = summary_next(state, SummaryEvent::OpenOrdersReply(Some(3)));
    assert!(matches!(state.stage, SummaryStage::Finished));
    match step {
        SummaryStep::Done(Some(s)) => {
            assert_eq!(s.id, "12");
            assert_eq!(s.name, "main");
            assert_eq!(s.total_equity, "1500");
            assert_eq!(s.leverage, "2.5");
            assert_eq!(s.position, "3750");
            assert_eq!(s.open_order_amt, "3");
            assert_eq!(s.net_worth, "1.5");
            assert_eq!(s.available_balance, "900");
        },
        _ => panic!("expected a summary"),
    }
}

#[test]
fn summary_without_positions_shows_zeros() {
    let (state, _) = summary_start(5, "spare");
    let (state, _) = summary_next(state, SummaryEvent::AccountReply(Some(figures())));
    let (_, step) = summary_next(state, SummaryEvent::PositionsReply(None));
    match step {
        SummaryStep::Done(Some(s)) => {
            assert_eq!(s.leverage, "0");
            assert_eq!(s.position, "0");
            assert_eq!(s.open_order_amt, "0");
            assert_eq!(s.total_equity, "1500");
        },
        _ => panic!("expected a summary"),
    }
}

#[test]
fn summary_without_account_or_orders_is_none() {
    let (state, _) = summary_start(5, "spare");
    let (_, step) = summary_next(state, SummaryEvent::AccountReply(None));
    assert!(matches!(step, SummaryStep::Done(None)));
    let (state, _) = summary_start(5, "spare");
    let (state, _) = summary_next(state, SummaryEvent::AccountReply(Some(figures())));
    let (state, _) = summary_next(
        state,
        SummaryEvent::PositionsReply(Some(PositionFigures { leverage: "1".to_string(), position: "1".to_string() })),
    );
    let (_, step) = summary_next(state, SummaryEvent::OpenOrdersReply(None));
    assert!(matches!(step, SummaryStep::Done(None)));
}

#[test]
fn one_position_row_at_a_given_time() {
    let r = position_row(&position("ETHUSDT", "2", false, "ignored"), 9, "2024-01-02 03:04:05".to_string());
    assert_eq!(r.time, "2024-01-02 03:04:05");
    assert_eq!(r.symbol, "ETHUSDT");
    assert_eq!(r.leverage, "10");
    assert_eq!(r.mark_price, "1801");
    assert_eq!(r.id, "9");
}

#[test]
fn transfer_rows_at_given_times() {
    let ts = vec![transfer("SUCCESS", "FUND", "SPOT"), transfer("UNKNOWN", "OPTION", "ELSEWHERE")];
    let rows = transfer_rows_at(&ts, "acct", 3, vec!["t0".to_string(), "t1".to_string()]);
    assert_eq!(rows.len(), 2);
    assert_eq!(rows[0].time, "t0");
    assert_eq!(rows[0].status, "划转成功");
    assert_eq!(rows[0].from, "资金账户");
    assert_eq!(rows[0].to, "现货账户");
    assert_eq!(rows[1].time, "t1");
    assert_eq!(rows[1].status, "划转成功");
    assert_eq!(rows[1].from, "USDC合约账户");
    assert_eq!(rows[1].to, "现货账户");
    assert_eq!(rows[1].id, "3");
    assert_eq!(rows[1].name, "acct");
}

#[test]
fn income_rows_read_a_transfer_reply() {
    let reply = r#"{"retCode":0,"result":{"list":[
        {"status":"SUCCESS","fromAccountType":"FUND","toAccountType":"UNIFIED","timestamp":"1700000000000","amount":"12.5","coin":"USDT","transferId":"a"},
        {"status":"ODD","fromAccountType":"SPOT","toAccountType":"ELSEWHERE","timestamp":"0","amount":"3","coin":"BTC"}
    ]}}"#;
    let rows = income_rows(reply, "acct", 7).unwrap();
    assert_eq!(rows.len(), 2);
    assert_eq!(rows[0].status, "划转成功");
    assert_eq!(rows[0].from, "资金账户");
    assert_eq!(rows[0].to, "统一账户");
    assert_eq!(rows[0].time, "2023-11-14 22:13:20");
    assert_eq!(rows[0].amount, "12.5");
    assert_eq!(rows[0].asset, "USDT");
    assert_eq!(rows[0].id, "7");
    assert_eq!(rows[1].status, "划转成功");
    assert_eq!(rows[1].from, "现货账户");
    assert_eq!(rows[1].to, "统一账户");
    assert_eq!(rows[1].time, "1970-01-01 00:00:00");
}

#[test]
fn unreadable_transfer_replies_give_none() {
    assert!(income_rows("not json", "a", 1).is_none());
    assert!(income_rows(r#"{"result":{}}"#, "a", 1).is_none());
    assert!(income_rows(r#"{"result":{"list":[{"status":"SUCCESS"}]}}"#, "a", 1).is_none());
    let bad_time = r#"{"result":{"list":[{"status":"SUCCESS","fromAccountType":"FUND","toAccountType":"SPOT","timestamp":"soon","amount":"1","coin":"BTC"}]}}"#;
    assert!(income_rows(bad_time, "a", 1).is_none());
    assert_eq!(income_rows(r#"{"result":{"list":[]}}"#, "a", 1).unwrap().len(), 0);
}

#[test]
fn open_order_replies_become_rows_and_counts() {
    let reply = r#"{"result":{"list":[
        {"symbol":"BTCUSDT","orderType":"Market","side":"Sell","price":"0","qty":"2","cumExecQty":"1","createdTime":"0","reduceOnly":false}
    ]}}"#;
    let rows = open_order_reply_rows(reply, "acct").unwrap();
    assert_eq!(rows.len(), 1);
    assert_eq!(rows[0].kind, "市价单");
    assert_eq!(rows[0].side, "Sell");
    assert_eq!(rows[0].orig_qty, "2");
    assert_eq!(rows[0].executed_qty, "1");
    assert_eq!(rows[0].time, "1970-01-01 00:00:00");
    assert!(!rows[0].reduce_only);
    assert_eq!(open_order_reply_count(reply), Some(1));
    let lacking = r#"{"result":{"list":[{"symbol":"X"},{}]}}"#;
    assert!(open_order_reply_rows(lacking, "acct").is_none());
    assert_eq!(open_order_reply_count(lacking), Some(2));
    assert_eq!(open_order_reply_count("[]"), None);
}

#[test]
fn position_replies_give_positions() {
    let reply = r#"{"result":{"list":[
        {"symbol":"ETHUSDT","size":"2","side":"Buy","avgPrice":"1800","leverage":"5","markPrice":"1810","unrealisedPnl":"20","updateTime":"0"},
        {"size":"0"}
    ]}}"#;
    let entries = position_reply(reply).unwrap();
    assert_eq!(entries.len(), 2);
    assert_eq!(entries[0].mark_price.as_deref(), Some("1810"));
    assert_eq!(entries[1].symbol, None);
    let ps = positions_of_entries(&entries, &vec![false, true]).unwrap();
    assert_eq!(ps[0].avg_price, "1800");
    assert_eq!(ps[1].size, "0");
    assert_eq!(ps[1].symbol, "");
    assert!(ps[1].size_is_zero);
    let rows = position_rows(&ps, 4).unwrap();
    assert_eq!(rows.len(), 1);
    assert_eq!(rows[0].entry_price, "1800");
    assert!(positions_of_entries(&entries, &vec![false, false]).is_none());
    assert!(position_reply("{}").is_none());
}

#[test]
fn account_replies_give_totals_and_coins() {
    let reply = r#"{"result":{"list":[{"totalWalletBalance":"100","totalEquity":"101.5","coin":[
        {"coin":"USDT","walletBalance":"100","unrealisedPnl":"1.5","usdValue":"101.5","availableToWithdraw":"90"},
        {"walletBalance":"0"}
    ]}]}}"#;
    let accounts = account_reply(reply).unwrap();
    assert_eq!(accounts.len(), 1);
    assert_eq!(accounts[0].total_equity.as_deref(), Some("101.5"));
    assert_eq!(accounts[0].total_wallet_balance.as_deref(), Some("100"));
    let coins = accounts[0].coins.clone().unwrap();
    let held = coins_of_entries(&coins, &vec![false, true]).unwrap();
    let rows = asset_rows(&vec![held], 3);
    assert_eq!(rows.len(), 1);
    assert_eq!(rows[0].symbol, "USDT");
    assert_eq!(rows[0].margin_balance, "101.5");
    assert_eq!(rows[0].available_balance, "90");
    assert!(coins_of_entries(&coins, &vec![false, false]).is_none());
    assert!(account_reply(r#"{"result":{"list":[{"coin":5}]}}"#).unwrap()[0].coins.is_none());
}

#[test]
fn entries_with_every_field_become_records() {
    let t = TransferEntry {
        status: Some("FAILED".to_string()),
        from_account_type: Some("FUND".to_string()),
        to_account_type: Some("SPOT".to_string()),
        timestamp: Some("0".to_string()),
        amount: Some("1".to_string()),
        coin: Some("BTC".to_string()),
    };
    assert_eq!(transfer_of_entry(&t).unwrap().status, "FAILED");
    assert!(transfer_of_entry(&TransferEntry { coin: None, ..t }).is_none());
    let o = OpenOrderEntry {
        symbol: Some("S".to_string()),
        order_type: Some("Limit".to_string()),
        side: Some("Buy".to_string()),
        price: Some("1".to_string()),
        qty: Some("2".to_string()),
        cum_exec_qty: Some("0".to_string()),
        created_time: Some("0".to_string()),
        reduce_only: Some(true),
    };
    assert!(open_order_of_entry(&o).unwrap().reduce_only);
    assert!(open_order_of_entry(&OpenOrderEntry { reduce_only: None, ..o }).is_none());
}
