//! Request bodies and reply payloads of the HTTP interface.

use vstd::prelude::*;

verus! {

#[derive(Debug)]
pub struct SignIn {
    pub name: String,
    pub password: String,
}

#[derive(Debug)]
pub struct CreateInvitation {
    pub token: String,
    pub kind: String,
    pub name: String,
}

#[derive(Debug, PartialEq, Eq)]
pub struct CreateInvitationProRes {
    pub code: String,
    pub status: String,
    pub max: u64,
}

#[derive(Debug, PartialEq, Eq)]
pub struct SignInProRes {
    pub name: String,
    pub id: String
}

#[derive(Debug, PartialEq, Eq)]
pub struct SignInRes {
    pub name: String,
    pub account: u64,
    pub admin: String,
    pub products: Vec<SignInProRes>,
    pub token: String,
}

#[derive(Debug, PartialEq, Eq)]
pub struct InvitationRes {
    pub name: String,
    pub invitation: Vec<CreateInvitationProRes>
}

#[derive(Debug, PartialEq, Eq)]
pub struct GroupAccountProRes {
    pub name: String,
    pub group_id: u64,
    pub tra_id: u64,
    pub tra_name: String,
    pub equity: String,
    pub leverage: String,
    pub position: String,
    pub open_order_amt: String,
    pub avaliable_balance: String,
    pub tra_venue: String,
    pub kind: String,
    pub total_balance: String,
}

#[derive(Debug, PartialEq, Eq)]
pub struct AccProRes {
    pub tra_id: u64,
    pub name: String,
    pub equity: String,
    pub leverage: String,
    pub position: String,
    pub open_order_amt: String,
    pub avaliable_balance: String,
    pub tra_venue: String,
    pub kind: String,
    pub total_balance: String,
}

#[derive(Debug, PartialEq, Eq)]
pub struct AccountProRes {
    pub acc_mess: Vec<AccProRes>,
    pub group_mess: Vec<GroupAccountProRes>,
    
}

#[derive(Debug, PartialEq, Eq)]
pub struct GroupEquitysProRes {
    pub name: u64,
    pub time: String,
    pub equity: String,
    pub kind: String,
}

#[derive(Debug, PartialEq, Eq)]
pub struct TradeRe {
    pub th_id: u64,
    pub tra_symbol: String,
    pub tra_order_id: u64,
    pub tra_commision: String,
    pub tra_time: String,
    pub is_maker: String,
    pub position_side: String,
    pub price: String,
    pub qty: String,
    pub quote_qty: String,
    pub realized_pnl: String,
    pub side: String,
}
#[derive(Debug, PartialEq, Eq)]
pub struct TradeRes {
    pub trades_history: Vec<TradeRe>,
}

#[derive(Debug)]
pub struct SignOut {
    pub name: String,
    pub token: String,
}

#[derive(Debug)]
pub struct Account {
    pub kind: String,
    pub token: String
}

#[derive(Debug)]
pub struct SelectTraders {
    pub account_id: u64,
    pub kind: String,
    pub token: String
}

#[derive(Debug)]
pub struct SelectAccounts {
    pub name: String,
    pub account_id: u64,
    pub kind: String,
    pub token: String
}

#[derive(Debug)]
pub struct CheckAdmins {
    pub tra_id: String,
    pub account_id: u64,
    pub kind: String,
    pub token: String
}

#[derive(Debug)]
pub struct DelAccGroup {
    pub group_id: u64,
    pub account_id: u64,
    pub kind: String,
    pub token: String
}

#[derive(Debug)]
pub struct CheckAccounts {
    pub api_key: String,
    pub secret_key: String,
    pub kind: String,
    pub token: String
}

#[derive(Debug)]
pub struct SelectWeixin {
    pub wx_name: String,
    pub wx_hook: String,
    pub kind: String,
    pub token: String,
    pub name: String,
}

#[derive(Debug)]
pub struct SelectTraderMess {
    pub token: String,
    pub tra_id: u64,
    pub name: String,
    pub equity: String,
    pub leverage: String,
    pub position: String,
    pub open_order_amt: String,
    pub avaliable_balance: String,
    pub tra_venue: String,
    pub kind: String,
    pub total_balance: String,
}

#[derive(Debug)]
pub struct InsertAccounts {
    pub user_name: String,
    pub password: String,
}

#[derive(Debug)]
pub struct IsAccGroup {
    pub kind: String,
    pub token: String,
    pub account_id: u64,
    pub group_id: u64
}

#[derive(Debug)]
pub struct AccGroupShare {
    pub kind: String,
    pub token: String,
    pub account_id: String,
    pub group_id: u64
}

#[derive(Debug)]
pub struct IsAccTra {
    pub kind: String,
    pub token: String,
    pub account_id: u64,
    pub tra_id: u64
}

#[derive(Debug)]
pub struct AccShareTra {
    pub kind: String,
    pub token: String,
    pub account_id: String,
    pub tra_id: u64
}

#[derive(Debug)]
pub struct AddShareList {
    pub kind: String,
    pub token: String,
    pub tra_id: u64,
    pub from_id: String,
    pub to_id: String,
    pub tra_name: String
}

#[derive(Debug)]
pub struct DeleteShareAcc {
    pub kind: String,
    pub token: String,
    pub tra_id: u64,
    pub to_id: String,
}

#[derive(Debug)]
pub struct DeleteShareList {
    pub kind: String,
    pub token: String,
    pub sh_id: u64,
}

#[derive(Debug)]
pub struct DeleteShareAccGroup {
    pub kind: String,
    pub token: String,
    pub group_id: u64,
    pub to_id: String,
}

#[derive(Debug)]
pub struct InsertAccount {
    pub token: String,
    pub tra_venue: String, 
    pub tra_currency: String, 
    pub api_key: String, 
    pub secret_key: String, 
    pub kind: String, 
    pub name: String, 
    pub borrow: String
}

#[derive(Debug)]
pub struct AccountEquity {
    pub kind: String,
    pub token: String,
    pub name: String
}

#[derive(Debug)]
pub struct AccShareList {
    pub kind: String,
    pub token: String,
    pub from_id: String
}

#[derive(Debug)]
pub struct SelectAccount {
    pub tra_id: String,
    pub kind: String,
    pub token: String
}

#[derive(Debug)]
pub struct Trade {
    pub tra_id: String,
    pub kind: String,
    pub token: String
}

#[derive(Debug)]
pub struct TradeAlarm {
    pub account_id: u64,
    pub tra_id: String,
    pub kind: String,
    pub token: String
}

#[derive(Debug)]
pub struct Notices {
    pub account_id: u64,
    pub kind: String,
    pub token: String
}

#[derive(Debug)]
pub struct AddTradeNotice {
    pub account_id: u64,
    pub wx_hook: String,
    pub wx_name: String,
    pub kind: String,
    pub token: String
}

#[derive(Debug)]
pub struct AddTradeSlackNotice {
    pub account_id: u64,
    pub slack_hook: String,
    pub slack_name: String,
    pub kind: String,
    pub token: String
}

#[derive(Debug)]
pub struct CheckNoticesNum {
    pub account_id: u64,
    pub kind: String,
    pub token: String
}

#[derive(Debug)]
pub struct DeleteTradeSlackNotice {
    pub account_id: u64,
    pub slack_hook: String,
    pub kind: String,
    pub token: String
}

#[derive(Debug)]
pub struct DeleteTradeWxNotice {
    pub account_id: u64,
    pub wx_hook: String,
    pub kind: String,
    pub token: String
}

#[derive(Debug)]
pub struct AddAccountGroup {
    pub name: String,
    pub kind: String,
    pub token: String
}

#[derive(Debug)]
pub struct AddAccGroup {
    pub account_id: u64,
    pub name: String,
    pub kind: String,
    pub token: String
}

#[derive(Debug)]
pub struct AddGroupTra {
    pub tra_id: Vec<u64>,
    pub name: String,
    pub kind: String,
    pub token: String
}

#[derive(Debug)]
pub struct DeleteAccountTra {
    pub tra_id: Vec<u64>,
    pub account_id: u64,
    pub kind: String,
    pub token: String
}

#[derive(Debug, Clone)]
pub struct PapiSub {
    pub id: String,
    pub name: String,
    pub total_equity: String,
    pub leverage: String,
    pub open_order_amt: String,
    pub position: String,
    pub available_balance: String,
    pub symbol: String,
}

#[derive(Debug)]
pub struct DateTrade {
    pub tra_id: String,
    pub kind: String,
    pub token: String,
    pub start_time: String,
    pub end_time: String
}

#[derive(Debug)]
pub struct Equity {
    pub kind: String,
    pub token: String
}

#[derive(Debug)]
pub struct DelectOrders {
    pub kind: String,
    pub token: String,
    pub tra_id: String,
    pub account_id: String,
}

#[derive(Debug)]
pub struct SelectNewOrders {
    pub kind: String,
    pub token: String,
    pub tra_id: String,
    pub start_time: String,
}

#[derive(Debug)]
pub struct AddAccounts {
    pub kind: String,
    pub token: String,
    pub name: String,
    pub api_key: String,
    pub secret_key: String,
    pub alarm: String,
    pub threshold: String,
}

#[derive(Debug)]
pub struct SelectId {
    pub kind: String,
    pub token: String,
    pub name: String,
    pub prod_id: String
}

#[derive(Debug)]
pub struct AddOrders {
    pub kind: String,
    pub token: String,
    pub name: String,
    pub api_key: String,
    pub secret_key: String
}

#[derive(Debug)]
pub struct AddPositions {
    pub kind: String,
    pub token: String,
    pub name: String,
    pub api_key: String,
    pub secret_key: String,
    pub threshold: String
}

#[derive(Debug)]
pub struct UpdatePositions {
    pub kind: String,
    pub token: String,
    pub name: String,
    pub threshold: String
}

#[derive(Debug)]
pub struct UpdateEquitys {
    pub kind: String,
    pub token: String,
    pub name: String,
    pub equitys: String
}

#[derive(Debug)]
pub struct UpdateAlarms {
    pub kind: String,
    pub token: String,
    pub tra_id: String,
    pub account_id: u64,
    pub open_alarm: String,
    pub position_alarm: String,
    pub position_amount: String,
    pub equity_alarm: String,
    pub equity_amount: String
}

#[derive(Debug)]
pub struct UpdateCurreny {
    pub kind: String,
    pub token: String,
    pub name: String,
    pub currency: String
}

#[derive(Debug)]
pub struct UpdateBorrow {
    pub kind: String,
    pub token: String,
    pub name: String,
    pub borrow: String
}

#[derive(Debug)]
pub struct UpdateOriBalance {
    pub kind: String,
    pub token: String,
    pub tra_id: String,
    pub ori_balance: String
}

#[derive(Debug)]
pub struct Posr {
    pub tra_id: String,
    pub kind: String,
    pub token: String
}

#[derive(Debug)]
pub struct Group {
    pub account_id: u64,
    pub kind: String,
    pub token: String
}

#[derive(Debug)]
pub struct DetailGroup {
    pub group_id: u64,
    pub kind: String,
    pub token: String
}

#[derive(Debug)]
pub struct SelectInvitation {
    pub code: String,
}

#[derive(Debug)]
pub struct SelectAllInvitation {
    pub token: String,
    pub kind: String,
    pub user: String,
}

#[derive(Debug)]
pub struct IncomesRe {
    pub kind: String,
    pub token: String
}

#[derive(Debug)]
pub struct NetWorthRe {
    pub kind: String,
    pub token: String
}

#[derive(Debug, Clone)]
pub struct Position {
    pub time: String,
    pub entry_price: String,
    pub leverage: String,
    pub mark_price: String,
    pub position_amt: String,
    pub position_side: String,
    pub symbol: String, 
    pub un_realized_profit: String,
}

#[derive(Debug, Clone)]
pub struct PositionsRe {
    pub positions: Vec<Position>,
}

#[derive(Debug, Clone)]
pub struct Total {
    pub equity_eth: String,
    pub net_worth: String,
    pub net_worth_eth: String,
    pub equity: String,
    pub time: String,
}

#[derive(Debug, Clone)]
pub struct Sub {
    pub id: String,
    pub name: String,
    pub total_balance: String,
    pub total_equity: String,
    pub leverage: String,
    pub open_order_amt: String,
    pub position: String,
    pub tra_venue: String,
    pub kind: String,
    pub available_balance: String
}

#[derive(Debug)]
pub struct Klines {
    pub symbol: String,
    pub kind: String,
    pub token: String
}

#[derive(Debug, Clone)]
pub struct ByBitSub {
    pub id: String,
    pub name: String,
    pub net_worth: String,
    pub total_equity: String,
    pub leverage: String,
    pub open_order_amt: String,
    pub position: String,
    pub available_balance: String,
}

#[derive(Debug, Clone)]
pub struct AccountRe {
    pub subs: Vec<Sub>,
}

impl AccountRe {
    /// A reply that lists no sub-account yet.
    pub fn new() -> (r: Self)
        ensures
            r.subs@.len() == 0,
    {
        Self {
            subs: Vec::new(),
        }
    }
}

#[derive(Debug, Clone)]
pub struct AccountByBitRe {
    pub bybit_subs: Vec<ByBitSub>,
}

impl AccountByBitRe {
    /// A reply that lists no sub-account yet.
    pub fn new() -> (r: Self)
        ensures
            r.bybit_subs@.len() == 0,
    {
        Self {
            bybit_subs: Vec::new(),
        }
    }
}

#[derive(Debug, Clone)]
pub struct AccountPapiRe {
    pub papi_subs: Vec<PapiSub>,
}

impl AccountPapiRe {
    /// A reply that lists no sub-account yet.
    pub fn new() -> (r: Self)
        ensures
            r.papi_subs@.len() == 0,
    {
        Self {
            papi_subs: Vec::new(),
        }
    }
}

} // verus!
