use trade_monitor::actors::database::{
    account_owner_tag, account_replies, alarm_write, all_pairs, at_most_one, bian_equity_query,
    bybit_day_trades_query, bybit_trade_history_source, collect_found, concat_found, database_url,
    dated_bybit_trades_query, dated_trades_query, equity_hour_key_string, equity_series_query, found_any,
    found_none, group_member_replies, group_members_query, group_owner_tag, hourly_equity_points,
    income_history_source, invitation_replies, member_equity_query, messages_to_store, new_bybit_trades_query,
    new_trades_query, position_history_source, position_key, share_list_query, sign_in_products,
    slack_notices_query, thin_by_hour, total_bian_equity_query, total_papi_equity_query, trade_history_source,
    traders_by_name, watched_accounts_query, wx_notices_query, AlarmWrite, DbConfig, TradeColumns,
};
use trade_monitor::models::db_data::{AccountGroup, BybitEquity, InvitationData, Product, Trader, TraderMessage};
use trade_monitor::models::http_data::{AccountRe, Sub};

fn equity(name: u64, time: &str, value: &str) -> BybitEquity {
    BybitEquity { id: 0, name, time: time.to_string(), equity: value.to_string(), kind: "bian".to_string() }
}

fn trader(id: u64, name: &str) -> Trader {
    Trader {
        tra_id: id,
        tra_venue: "Binance".to_string(),
        tra_currency: "USDT".to_string(),
        api_key: format!("key{}", id),
        secret_key: format!("secret{}", id),
        kind: "Futures".to_string(),
        name: name.to_string(),
        borrow: "0".to_string(),
    }
}

fn message(tra_id: u64, name: &str) -> TraderMessage {
    TraderMessage {
        id: 1,
        tra_id,
        name: name.to_string(),
        equity: "100".to_string(),
        leverage: "1.2".to_string(),
        position: "120".to_string(),
        open_order_amt: "2".to_string(),
        avaliable_balance: "80".to_string(),
        tra_venue: "Bybit".to_string(),
        kind: "Futures".to_string(),
        total_balance: "110".to_string(),
    }
}

#[test]
fn database_url_joins_settings() {
    let c = DbConfig {
        user: "root".to_string(),
        password: "pw".to_string(),
        host: "127.0.0.1".to_string(),
        port: "3306".to_string(),
        database: "monitor".to_string(),
    };
    assert_eq!(database_url(&c), "mysql://root:pw@127.0.0.1:3306/monitor");
}

#[test]
fn trade_history_routing() {
    assert_eq!(
        trade_history_source("account1"),
        ("select * from trade_histories order by tra_time desc limit 1000", TradeColumns::MakerFirst)
    );
    assert_eq!(
        trade_history_source("account10"),
        ("select * from trade_histories_10 order by tra_time desc limit 1000", TradeColumns::CommissionFirst)
    );
    assert_eq!(
        trade_history_source("account6"),
        ("select * from trate_histories_2 order by tra_time desc limit 1000", TradeColumns::CommissionFirst)
    );
}

#[test]
fn income_and_position_routing() {
    assert_eq!(income_history_source("account5"), "select * from incomes_4 order by time desc");
    assert_eq!(income_history_source("account1"), "select * from incomes order by time desc");
    assert_eq!(income_history_source("other"), "select * from incomes_7 order by time desc");
    assert_eq!(position_history_source("account6"), "select * from position_histories_6 order by time desc");
    assert_eq!(position_history_source("account2"), "select * from position_histories_2 order by time desc");
    assert_eq!(bybit_trade_history_source("account11"), "select * from bybit_trader_histories order by time desc limit 1000");
}

#[test]
fn queries_carry_their_values() {
    assert_eq!(watched_accounts_query(17), "select * from acc_tra where acc_id = 17 and is_show = true");
    assert_eq!(wx_notices_query(3), "select * from wx_notices where acc_id = 3");
    assert_eq!(slack_notices_query(0), "select * from slack_notices where acc_id = 0");
    assert_eq!(group_members_query(8), "select * from group_tra where group_id = 8");
    assert_eq!(member_equity_query(21), "select * from bian_15m_equity where name=21 order by time");
    assert_eq!(equity_series_query("44"), "select * from bian_15m_equity where name = 44 order by time");
    assert_eq!(bian_equity_query("44"), "select * from bian_equity where name = 44");
    assert_eq!(total_bian_equity_query("44"), "select * from total_bian_equity where name = 44");
    assert_eq!(total_papi_equity_query("44"), "select * from total_papi_equity where name = 44");
    assert_eq!(share_list_query("bob"), "select * from share_accounts where from_id = bob");
    assert_eq!(bybit_day_trades_query("1700", "mmteam1"), "select * from mmteam1_traders where time >= 1700");
    assert_eq!(bybit_day_trades_query("1700", "x"), "select * from hmaker05_traders where time >= 1700");
    assert_eq!(
        new_trades_query("1700", "9"),
        "select th_id, tra_symbol, tra_order_id, tra_commision, tra_time, is_maker, position_side, price, qty, quote_qty, realized_pnl, side from bian_traders where tra_time >= 1700 and name = 9 order by tra_time"
    );
    assert_eq!(
        dated_trades_query("1", "2", "9"),
        "select th_id, tra_symbol, tra_order_id, tra_commision, tra_time, is_maker, position_side, price, qty, quote_qty, realized_pnl, side from bian_traders where tra_time >= 1 and tra_time <= 2 and name = 9"
    );
    assert_eq!(
        new_bybit_trades_query("1700", "9"),
        "select tra_order_id, th_id, time, symbol, side, price, qty, quote_qty, commission, name, is_maker, exec_id from new_bybit_traders where time >= 1700 and name = 9 order by time"
    );
    assert_eq!(
        dated_bybit_trades_query("1", "2", "9"),
        "select tra_order_id, th_id, time, symbol, side, price, qty, quote_qty, commission, name, is_maker, exec_id from new_bybit_traders where time >= 1 and time <= 2 and name = 9"
    );
}

#[test]
fn ownership_tags_and_keys() {
    assert_eq!(account_owner_tag(31), "31_acc");
    assert_eq!(group_owner_tag(4), "4_group");
    assert_eq!(position_key("alpha", 12), "alpha_12");
}

#[test]
fn hour_keys_of_stored_stamps() {
    assert_eq!(equity_hour_key_string("'2024/03/05 14:27:09'"), Some("2024/03/05 14:00:00".to_string()));
    assert_eq!(equity_hour_key_string("\"2024/3/5 4:07:09\""), Some("2024/03/05 04:00:00".to_string()));
    // The first and last characters are dropped whatever they are.
    assert_eq!(equity_hour_key_string("2024/03/05 14:27:09"), Some("0024/03/05 14:00:00".to_string()));
    assert_eq!(equity_hour_key_string("'2024/03/05 14:27'"), None);
    assert_eq!(equity_hour_key_string("x"), None);
    assert_eq!(equity_hour_key_string(""), None);
}

#[test]
fn equity_curve_keeps_first_row_of_each_hour() {
    let rows = vec![
        equity(1, "'2024/03/05 14:00:00'", "10"),
        equity(1, "'2024/03/05 14:15:00'", "11"),
        equity(1, "'2024/03/05 15:00:00'", "12"),
        equity(1, "'2024/03/05 15:45:00'", "13"),
        equity(1, "'2024/03/05 14:30:00'", "14"),
    ];
    let points = hourly_equity_points(&rows).unwrap();
    let shown: Vec<&str> = points.iter().map(|p| p.equity.as_str()).collect();
    assert_eq!(shown, vec!["10", "12", "14"]);
    assert_eq!(points[0].time, "'2024/03/05 14:00:00'");
    assert_eq!(points[0].name, 1);
    assert_eq!(points[0].kind, "bian");
}

#[test]
fn equity_curve_with_a_bad_stamp_is_none() {
    let rows = vec![equity(1, "'2024/03/05 14:00:00'", "10"), equity(1, "'yesterday'", "11")];
    assert!(hourly_equity_points(&rows).is_none());
    assert_eq!(hourly_equity_points(&vec![]).unwrap().len(), 0);
}

#[test]
fn thinning_by_given_keys() {
    let rows = vec![equity(1, "a", "1"), equity(1, "b", "2"), equity(1, "c", "3")];
    let keys = vec!["".to_string(), "".to_string(), "h".to_string()];
    let points = thin_by_hour(&rows, &keys);
    assert_eq!(points.len(), 1);
    assert_eq!(points[0].equity, "3");
}

#[test]
fn traders_by_name_keeps_last_of_each_name() {
    let ts = vec![trader(1, "a"), trader(2, "b"), trader(3, "a"), trader(4, "c"), trader(5, "b")];
    let r = traders_by_name(&ts);
    let ids: Vec<(String, u64)> = r.iter().map(|t| (t.name.clone(), t.tra_id)).collect();
    assert_eq!(ids, vec![("a".to_string(), 3), ("b".to_string(), 5), ("c".to_string(), 4)]);
    assert_eq!(r[0].api_key, "key3");
    assert_eq!(traders_by_name(&vec![]).len(), 0);
}

#[test]
fn lookups_decide() {
    let ok: Result<Vec<u64>, String> = Ok(vec![4]);
    let empty: Result<Vec<u64>, String> = Ok(vec![]);
    let failed: Result<Vec<u64>, String> = Err("down".to_string());
    assert!(found_any(&ok));
    assert!(!found_any(&empty));
    assert!(!found_any(&failed));
    assert!(!found_none(&ok));
    assert!(found_none(&empty));
    assert!(!found_none(&failed));
    assert_eq!(at_most_one(Some(3)), vec![3]);
    assert_eq!(at_most_one::<u8>(None), Vec::<u8>::new());
}

#[test]
fn alarm_writes() {
    assert_eq!(alarm_write(vec![]), AlarmWrite::Insert);
    assert_eq!(alarm_write(vec![7, 9]), AlarmWrite::Update(vec![7, 9]));
}

#[test]
fn pairs_are_outer_major() {
    assert_eq!(all_pairs(&vec![1, 2], &vec![7, 8, 9]), vec![(1, 7), (1, 8), (1, 9), (2, 7), (2, 8), (2, 9)]);
    assert_eq!(all_pairs(&vec![], &vec![7]), vec![]);
    assert_eq!(all_pairs(&vec![1], &vec![]), vec![]);
}

#[test]
fn found_rows_are_kept_in_order() {
    assert_eq!(collect_found(vec![Some(1), None, Some(3), None]), vec![1, 3]);
    assert_eq!(concat_found(vec![Some(vec![1, 2]), None, Some(vec![]), Some(vec![3])]), vec![1, 2, 3]);
}

#[test]
fn replies_copy_messages() {
    let r = account_replies(vec![message(5, "x"), message(6, "y")]);
    assert_eq!(r.len(), 2);
    assert_eq!(r[1].tra_id, 6);
    assert_eq!(r[1].name, "y");
    assert_eq!(r[0].avaliable_balance, "80");
    assert_eq!(r[0].total_balance, "110");
    let g = AccountGroup { group_id: 4, name: "team".to_string() };
    let rows = group_member_replies(&g, vec![message(5, "x")]);
    assert_eq!(rows[0].name, "team");
    assert_eq!(rows[0].group_id, 4);
    assert_eq!(rows[0].tra_name, "x");
    assert_eq!(rows[0].tra_id, 5);
}

#[test]
fn products_and_invitations_shown() {
    let ps = vec![Product { prod_id: 12, prod_name: "fund".to_string(), weixin_id: 0, prog_id: 0 }];
    let r = sign_in_products(&ps);
    assert_eq!(r[0].name, "fund");
    assert_eq!(r[0].id, "12");
    let inv = vec![InvitationData { code: "Ab3xZ".to_string(), user: "root".to_string(), max: 10, status: "success".to_string(), id: 1 }];
    let r = invitation_replies(&inv);
    assert_eq!(r[0].code, "Ab3xZ");
    assert_eq!(r[0].max, 10);
    assert_eq!(r[0].status, "success");
}

#[test]
fn sub_accounts_are_stored_as_messages() {
    let mut re = AccountRe::new();
    assert_eq!(re.subs.len(), 0);
    re.subs.push(Sub {
        id: "3".to_string(),
        name: "n".to_string(),
        total_balance: "tb".to_string(),
        total_equity: "te".to_string(),
        leverage: "l".to_string(),
        open_order_amt: "o".to_string(),
        position: "p".to_string(),
        tra_venue: "v".to_string(),
        kind: "k".to_string(),
        available_balance: "ab".to_string(),
    });
    let m = messages_to_store(&re);
    assert_eq!(m.len(), 1);
    assert_eq!(m[0].tra_id, "3");
    assert_eq!(m[0].equity, "te");
    assert_eq!(m[0].avaliable_balance, "ab");
    assert_eq!(m[0].kind, "k");
    assert_eq!(m[0].total_balance, "tb");
}
