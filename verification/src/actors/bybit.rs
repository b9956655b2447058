//! Decoding of Bybit account replies into the rows that the interface shows.
//!
//! The replies are read into the record types below (one per list entry of
//! the venue's `result.list`); the functions here decide which entries are
//! shown and what each shown row says.

use vstd::prelude::*;

use crate::models::http_data::ByBitSub;
use crate::clock::{utc_clock_string, utc_clock_text};
use crate::text::{decimal_string, decimal_text, parse_i64, parsed_i64, same_text};

verus! {

// ------------------------------------------------------------------------
// Time stamps
// ------------------------------------------------------------------------

/// The calendar text of a time stamp that the venue sends as decimal epoch
/// milliseconds; `None` where the text is not an `i64` or the instant cannot
/// be represented.
pub open spec fn stamp_clock_text(millis_text: Seq<char>) -> Option<Seq<char>> {
    match parsed_i64(millis_text) {
        Some(m) => utc_clock_text(m),
        None => None,
    }
}

/// The calendar text of a decimal epoch-millisecond time stamp.
pub fn stamp_clock_string(millis_text: &str) -> (r: Option<String>)
    ensures
        r is Some <==> stamp_clock_text(millis_text@) is Some,
        r is Some ==> r->0@ == stamp_clock_text(millis_text@)->0,
{
    match parse_i64(millis_text) {
        Some(m) => utc_clock_string(m),
        None => None,
    }
}

// ------------------------------------------------------------------------
// Fields read from the venue's JSON replies
// ------------------------------------------------------------------------

/// The text of a field read from a reply entry; `None` where the entry lacks
/// the field or its value is not a JSON string.
pub open spec fn opt_text(o: Option<String>) -> Option<Seq<char>> {
    match o {
        Some(s) => Some(s@),
        None => None,
    }
}

/// A field's text, blank where there is none.
pub open spec fn text_or_blank(o: Option<Seq<char>>) -> Seq<char> {
    match o {
        Some(s) => s,
        None => Seq::empty(),
    }
}

/// A field's text, blank where the entry has none.
fn field_or_blank(o: &Option<String>) -> (r: String)
    ensures
        r@ == text_or_blank(opt_text(*o)),
{
    match o {
        Some(s) => s.clone(),
        None => String::new(),
    }
}

// ------------------------------------------------------------------------
// Open orders
// ------------------------------------------------------------------------

/// One entry of the venue's open-order list.
#[derive(Clone, Debug)]
pub struct BybitOpenOrder {
    pub symbol: String,
    pub order_type: String,
    pub side: String,
    pub price: String,
    pub qty: String,
    pub cum_exec_qty: String,
    pub created_time: String,
    pub reduce_only: bool,
}

/// One shown open order.
#[derive(Clone, Debug)]
pub struct OpenOrderRow {
    pub time: String,
    pub name: String,
    pub symbol: String,
    pub kind: String,
    pub side: String,
    pub price: String,
    pub orig_qty: String,
    pub executed_qty: String,
    pub reduce_only: bool,
}

/// The shown name of an order type: limit and market orders are named,
/// any other type is shown blank.
pub open spec fn order_type_label(order_type: Seq<char>) -> Seq<char> {
    if order_type == "Limit"@ {
        "限价单"@
    } else if order_type == "Market"@ {
        "市价单"@
    } else {
        Seq::empty()
    }
}

/// The shown name of an order type.
pub fn order_type_label_str(order_type: &str) -> (r: &'static str)
    ensures
        r@ == order_type_label(order_type@),
{
    if same_text(order_type, "Limit") {
        "限价单"
    } else if same_text(order_type, "Market") {
        "市价单"
    } else {
        proof { reveal_strlit(""); }
        ""
    }
}

/// The texts of an open order: symbol, order type, side, price, quantity,
/// executed quantity and creation time stamp, with its reduce-only flag.
pub open spec fn order_text(o: BybitOpenOrder) -> (Seq<char>, Seq<char>, Seq<char>, Seq<char>, Seq<char>, Seq<char>, Seq<char>, bool) {
    (o.symbol@, o.order_type@, o.side@, o.price@, o.qty@, o.cum_exec_qty@, o.created_time@, o.reduce_only)
}

/// The texts of a sequence of open orders.
pub open spec fn order_texts(orders: Seq<BybitOpenOrder>) -> Seq<(Seq<char>, Seq<char>, Seq<char>, Seq<char>, Seq<char>, Seq<char>, Seq<char>, bool)> {
    orders.map_values(|o: BybitOpenOrder| order_text(o))
}

/// Whether `r` is the row of the open order `o` of the account `name`,
/// created at the calendar time `time`.
pub open spec fn is_open_order_row(r: OpenOrderRow, o: (Seq<char>, Seq<char>, Seq<char>, Seq<char>, Seq<char>, Seq<char>, Seq<char>, bool), name: Seq<char>, time: Seq<char>) -> bool {
    &&& r.time@ == time
    &&& r.name@ == name
    &&& r.symbol@ == o.0
    &&& r.kind@ == order_type_label(o.1)
    &&& r.side@ == o.2
    &&& r.price@ == o.3
    &&& r.orig_qty@ == o.4
    &&& r.executed_qty@ == o.5
    &&& r.reduce_only == o.7
}

/// The row of one open order of the account `name`, created at `time`.
pub fn open_order_row(o: &BybitOpenOrder, name: &str, time: String) -> (r: OpenOrderRow)
    ensures
        is_open_order_row(r, order_text(*o), name@, time@),
        r.time@ == time@ && r.name@ == name@ && r.symbol@ == o.symbol@ && r.kind@ == order_type_label(o.order_type@)
            && r.side@ == o.side@ && r.price@ == o.price@ && r.orig_qty@ == o.qty@
            && r.executed_qty@ == o.cum_exec_qty@ && r.reduce_only == o.reduce_only,
{
    OpenOrderRow {
        time,
        name: name.to_owned(),
        symbol: o.symbol.clone(),
        kind: order_type_label_str(o.order_type.as_str()).to_owned(),
        side: o.side.clone(),
        price: o.price.clone(),
        orig_qty: o.qty.clone(),
        executed_qty: o.cum_exec_qty.clone(),
        reduce_only: o.reduce_only,
    }
}

/// An open-order row shows the order's symbol, type name, side, price,
/// quantity, executed quantity and reduce-only flag, the account's name and
/// the creation time.
pub proof fn law_open_order_row_fields(r: OpenOrderRow, o: BybitOpenOrder, name: Seq<char>, time: Seq<char>)
    requires
        is_open_order_row(r, order_text(o), name, time),
    ensures
        r.time@ == time,
        r.name@ == name,
        r.symbol@ == o.symbol@,
        r.kind@ == order_type_label(o.order_type@),
        r.side@ == o.side@,
        r.price@ == o.price@,
        r.orig_qty@ == o.qty@,
        r.executed_qty@ == o.cum_exec_qty@,
        r.reduce_only == o.reduce_only,
{
}

/// Whether every order's creation time stamp has a calendar text.
pub open spec fn orders_stamped(orders: Seq<(Seq<char>, Seq<char>, Seq<char>, Seq<char>, Seq<char>, Seq<char>, Seq<char>, bool)>) -> bool {
    forall|i: int| 0 <= i < orders.len() ==> (#[trigger] stamp_clock_text(orders[i].6)) is Some
}

/// The rows of an account's open orders, one per order and in the venue's
/// order; `None` where a creation time stamp is not decimal epoch
/// milliseconds of a representable instant.
pub fn open_order_rows(orders: &Vec<BybitOpenOrder>, name: &str) -> (r: Option<Vec<OpenOrderRow>>)
    ensures
        r is Some <==> orders_stamped(order_texts(orders@)),
        r is Some ==> r->0@.len() == orders@.len(),
        r is Some ==> forall|i: int| 0 <= i < orders@.len() ==> is_open_order_row(#[trigger] r->0@[i],
            order_texts(orders@)[i], name@, stamp_clock_text(order_texts(orders@)[i].6)->0),
{
    let ghost ot = order_texts(orders@);
    let mut rows: Vec<OpenOrderRow> = Vec::new();
    let mut i: usize = 0;
    while i < orders.len()
        invariant
            i <= orders.len(),
            ot == order_texts(orders@),
            rows.len() == i,
            forall|j: int| 0 <= j < i ==> (#[trigger] stamp_clock_text(ot[j].6)) is Some,
            forall|j: int| 0 <= j < i ==> is_open_order_row(#[trigger] rows@[j], ot[j], name@,
                stamp_clock_text(ot[j].6)->0),
        decreases orders.len() - i,
    {
        let o = &orders[i];
        assert(ot[i as int] == order_text(orders@[i as int]));
        match stamp_clock_string(o.created_time.as_str()) {
            Some(time) => rows.push(open_order_row(o, name, time)),
            None => {
                assert(stamp_clock_text(ot[i as int].6) is None);
                return None;
            },
        }
        i = i + 1;
    }
    Some(rows)
}

/// One entry of the venue's open-order list as the reply gives it: each text
/// field, `None` where the entry lacks it or it is not a JSON string, and the
/// reduce-only flag, `None` where it is not a JSON boolean.
#[derive(Clone, Debug)]
pub struct OpenOrderEntry {
    pub symbol: Option<String>,
    pub order_type: Option<String>,
    pub side: Option<String>,
    pub price: Option<String>,
    pub qty: Option<String>,
    pub cum_exec_qty: Option<String>,
    pub created_time: Option<String>,
    pub reduce_only: Option<bool>,
}

/// The `symbol`, `orderType`, `side`, `price`, `qty`, `cumExecQty`,
/// `createdTime` and `reduceOnly` fields of each entry of `result.list` in an
/// open-order reply, each `None` where the entry lacks it or it is not of its
/// JSON kind (a string; a boolean for `reduceOnly`); `None` where the reply is
/// not JSON with an array at `result.list`.
pub uninterp spec fn open_order_reply_entries(reply: Seq<char>) -> Option<Seq<(Option<Seq<char>>, Option<Seq<char>>, Option<Seq<char>>, Option<Seq<char>>, Option<Seq<char>>, Option<Seq<char>>, Option<Seq<char>>, Option<bool>)>>;

/// The fields of an open-order entry, as texts.
pub open spec fn open_order_entry_fields(e: OpenOrderEntry) -> (Option<Seq<char>>, Option<Seq<char>>, Option<Seq<char>>, Option<Seq<char>>, Option<Seq<char>>, Option<Seq<char>>, Option<Seq<char>>, Option<bool>) {
    (opt_text(e.symbol), opt_text(e.order_type), opt_text(e.side), opt_text(e.price), opt_text(e.qty),
        opt_text(e.cum_exec_qty), opt_text(e.created_time), e.reduce_only)
}

/// Reads the entries of an open-order reply.
///
/// Calls `serde_json::from_str::<serde_json::Value>` on the reply and takes
/// `result.list` by indexing the value and `Value::as_array`, then each
/// entry's fields by indexing and `Value::as_str` (`Value::as_bool` for
/// `reduceOnly`). Trusted: the result is the one value
/// `open_order_reply_entries(reply@)` that these calls give for the reply,
/// entry for entry and in order.
#[verifier::external_body]
fn read_open_order_reply(reply: &str) -> (r: Option<Vec<OpenOrderEntry>>)
    ensures
        r is Some <==> open_order_reply_entries(reply@) is Some,
        r is Some ==> r->0@.len() == open_order_reply_entries(reply@)->0.len(),
        r is Some ==> forall|i: int| 0 <= i < r->0@.len()
            ==> open_order_entry_fields(#[trigger] r->0@[i]) == open_order_reply_entries(reply@)->0[i],
{
    let v: serde_json::Value = serde_json::from_str(reply).ok()?;
    let t = |e: &serde_json::Value, k: &str| e[k].as_str().map(String::from);
    Some(v["result"]["list"].as_array()?.iter().map(|e| OpenOrderEntry {
        symbol: t(e, "symbol"),
        order_type: t(e, "orderType"),
        side: t(e, "side"),
        price: t(e, "price"),
        qty: t(e, "qty"),
        cum_exec_qty: t(e, "cumExecQty"),
        created_time: t(e, "createdTime"),
        reduce_only: e["reduceOnly"].as_bool(),
    }).collect())
}

/// Whether an open-order entry has every field.
pub open spec fn order_fields_complete(f: (Option<Seq<char>>, Option<Seq<char>>, Option<Seq<char>>, Option<Seq<char>>, Option<Seq<char>>, Option<Seq<char>>, Option<Seq<char>>, Option<bool>)) -> bool {
    f.0 is Some && f.1 is Some && f.2 is Some && f.3 is Some && f.4 is Some && f.5 is Some && f.6 is Some
        && f.7 is Some
}

/// The texts of a complete open-order entry.
pub open spec fn order_fields_text(f: (Option<Seq<char>>, Option<Seq<char>>, Option<Seq<char>>, Option<Seq<char>>, Option<Seq<char>>, Option<Seq<char>>, Option<Seq<char>>, Option<bool>)) -> (Seq<char>, Seq<char>, Seq<char>, Seq<char>, Seq<char>, Seq<char>, Seq<char>, bool) {
    (f.0->0, f.1->0, f.2->0, f.3->0, f.4->0, f.5->0, f.6->0, f.7->0)
}

/// Whether every entry of an open-order reply has every field.
pub open spec fn orders_complete(es: Seq<(Option<Seq<char>>, Option<Seq<char>>, Option<Seq<char>>, Option<Seq<char>>, Option<Seq<char>>, Option<Seq<char>>, Option<Seq<char>>, Option<bool>)>) -> bool {
    forall|i: int| 0 <= i < es.len() ==> order_fields_complete(#[trigger] es[i])
}

/// The texts of the entries of an open-order reply.
pub open spec fn entry_order_texts(es: Seq<(Option<Seq<char>>, Option<Seq<char>>, Option<Seq<char>>, Option<Seq<char>>, Option<Seq<char>>, Option<Seq<char>>, Option<Seq<char>>, Option<bool>)>) -> Seq<(Seq<char>, Seq<char>, Seq<char>, Seq<char>, Seq<char>, Seq<char>, Seq<char>, bool)> {
    es.map_values(|f: (Option<Seq<char>>, Option<Seq<char>>, Option<Seq<char>>, Option<Seq<char>>, Option<Seq<char>>, Option<Seq<char>>, Option<Seq<char>>, Option<bool>)| order_fields_text(f))
}

/// The open order of an entry that has every field.
pub fn open_order_of_entry(e: &OpenOrderEntry) -> (r: Option<BybitOpenOrder>)
    ensures
        r is Some <==> order_fields_complete(open_order_entry_fields(*e)),
        r is Some ==> order_text(r->0) == order_fields_text(open_order_entry_fields(*e)),
{
    match (&e.symbol, &e.order_type, &e.side, &e.price, &e.qty, &e.cum_exec_qty, &e.created_time, e.reduce_only) {
        (Some(symbol), Some(order_type), Some(side), Some(price), Some(qty), Some(cum), Some(created), Some(reduce)) => {
            Some(BybitOpenOrder {
                symbol: symbol.clone(),
                order_type: order_type.clone(),
                side: side.clone(),
                price: price.clone(),
                qty: qty.clone(),
                cum_exec_qty: cum.clone(),
                created_time: created.clone(),
                reduce_only: reduce,
            })
        },
        _ => None,
    }
}

/// The rows of the open orders in a venue open-order reply (see
/// `open_order_rows`). `None` where the reply is not JSON with an array at
/// `result.list`, where an entry lacks a field, or where a creation time
/// stamp is not decimal epoch milliseconds of a representable instant.
pub fn open_order_reply_rows(reply: &str, name: &str) -> (r: Option<Vec<OpenOrderRow>>)
    ensures
        r is Some <==> open_order_reply_entries(reply@) is Some && orders_complete(open_order_reply_entries(reply@)->0)
            && orders_stamped(entry_order_texts(open_order_reply_entries(reply@)->0)),
        r is Some ==> r->0@.len() == open_order_reply_entries(reply@)->0.len(),
        r is Some ==> forall|i: int| 0 <= i < r->0@.len() ==> is_open_order_row(
            #[trigger] r->0@[i],
            entry_order_texts(open_order_reply_entries(reply@)->0)[i],
            name@,
            stamp_clock_text(entry_order_texts(open_order_reply_entries(reply@)->0)[i].6)->0,
        ),
{
    let entries = match read_open_order_reply(reply) {
        Some(es) => es,
        None => return None,
    };
    let ghost es = open_order_reply_entries(reply@)->0;
    let mut orders: Vec<BybitOpenOrder> = Vec::new();
    let mut i: usize = 0;
    while i < entries.len()
        invariant
            i <= entries.len(),
            es == open_order_reply_entries(reply@)->0,
            entries@.len() == es.len(),
            forall|j: int| 0 <= j < entries@.len() ==> open_order_entry_fields(#[trigger] entries@[j]) == es[j],
            orders@.len() == i,
            forall|j: int| 0 <= j < i ==> order_fields_complete(#[trigger] es[j]),
            forall|j: int| 0 <= j < i ==> order_text(#[trigger] orders@[j]) == order_fields_text(es[j]),
        decreases entries.len() - i,
    {
        assert(open_order_entry_fields(entries@[i as int]) == es[i as int]);
        match open_order_of_entry(&entries[i]) {
            Some(o) => orders.push(o),
            None => {
                assert(!order_fields_complete(es[i as int]));
                assert(!orders_complete(es));
                return None;
            },
        }
        i = i + 1;
    }
    assert(order_texts(orders@) =~= entry_order_texts(es));
    open_order_rows(&orders, name)
}

/// The number of open orders in a venue open-order reply; `None` where the
/// reply is not JSON with an array at `result.list`.
pub fn open_order_reply_count(reply: &str) -> (r: Option<u64>)
    ensures
        r is Some <==> open_order_reply_entries(reply@) is Some,
        r is Some ==> r->0 == open_order_reply_entries(reply@)->0.len(),
{
    match read_open_order_reply(reply) {
        Some(es) => Some(es.len() as u64),
        None => None,
    }
}


// ------------------------------------------------------------------------
// Positions
// ------------------------------------------------------------------------

/// One entry of the venue's position list. `size_is_zero` records whether
/// the position size, read as a number, is zero.
#[derive(Clone, Debug)]
pub struct BybitPosition {
    pub symbol: String,
    pub size: String,
    pub side: String,
    pub avg_price: String,
    pub leverage: String,
    pub mark_price: String,
    pub unrealised_pnl: String,
    pub update_time: String,
    pub size_is_zero: bool,
}

/// One shown position of the account with number `id`.
#[derive(Clone, Debug)]
pub struct PositionRow {
    pub symbol: String,
    pub position_amt: String,
    pub time: String,
    pub position_side: String,
    pub entry_price: String,
    pub leverage: String,
    pub mark_price: String,
    pub unrealized_profit: String,
    pub id: String,
}

/// The positions that are shown: those of non-zero size, in order.
pub open spec fn open_positions(ps: Seq<BybitPosition>) -> Seq<BybitPosition>
    decreases ps.len(),
{
    if ps.len() == 0 {
        Seq::empty()
    } else if ps.last().size_is_zero {
        open_positions(ps.drop_last())
    } else {
        open_positions(ps.drop_last()).push(ps.last())
    }
}

/// Whether `r` is the row of position `p` of account `id`, last updated at
/// the calendar time `time`.
pub open spec fn is_position_row(r: PositionRow, p: BybitPosition, id: u64, time: Seq<char>) -> bool {
    &&& r.symbol@ == p.symbol@
    &&& r.position_amt@ == p.size@
    &&& r.time@ == time
    &&& r.position_side@ == p.side@
    &&& r.entry_price@ == p.avg_price@
    &&& r.leverage@ == p.leverage@
    &&& r.mark_price@ == p.mark_price@
    &&& r.unrealized_profit@ == p.unrealised_pnl@
    &&& r.id@ == decimal_text(id as nat)
}

/// The positions shown are exactly the listed positions of non-zero size, in
/// the venue's order: none of zero size is shown, and every one of non-zero
/// size is.
pub proof fn law_open_positions_nonzero(ps: Seq<BybitPosition>)
    ensures
        open_positions(ps) == ps.filter(|p: BybitPosition| !p.size_is_zero),
        open_positions(ps).len() <= ps.len(),
        forall|k: int| 0 <= k < open_positions(ps).len() ==> !(#[trigger] open_positions(ps)[k]).size_is_zero,
        forall|j: int| 0 <= j < ps.len() && !(#[trigger] ps[j]).size_is_zero ==> open_positions(ps).contains(ps[j]),
    decreases ps.len(),
{
    reveal(Seq::filter);
    if ps.len() > 0 {
        let init = ps.drop_last();
        law_open_positions_nonzero(init);
        assert forall|j: int| 0 <= j < ps.len() && !(#[trigger] ps[j]).size_is_zero
            implies open_positions(ps).contains(ps[j]) by {
            if j < init.len() {
                assert(init[j] == ps[j]);
                let w = choose|w: int| 0 <= w < open_positions(init).len() && open_positions(init)[w] == ps[j];
                assert(open_positions(ps)[w] == open_positions(init)[w]);
            } else {
                assert(open_positions(ps)[open_positions(ps).len() - 1] == ps[j]);
            }
        }
    }
}

/// A position row shows the position's symbol, size, side, average entry
/// price, leverage, mark price and unrealised profit, its update time and
/// the account number.
pub proof fn law_position_row_fields(r: PositionRow, p: BybitPosition, id: u64, time: Seq<char>)
    requires
        is_position_row(r, p, id, time),
    ensures
        r.symbol@ == p.symbol@,
        r.position_amt@ == p.size@,
        r.time@ == time,
        r.position_side@ == p.side@,
        r.entry_price@ == p.avg_price@,
        r.leverage@ == p.leverage@,
        r.mark_price@ == p.mark_price@,
        r.unrealized_profit@ == p.unrealised_pnl@,
        r.id@ == decimal_text(id as nat),
{
}

/// The row of position `p` of account `id`, last updated at `time`.
pub fn position_row(p: &BybitPosition, id: u64, time: String) -> (r: PositionRow)
    ensures
        is_position_row(r, *p, id, time@),
        r.symbol@ == p.symbol@ && r.position_amt@ == p.size@ && r.time@ == time@ && r.position_side@ == p.side@
            && r.entry_price@ == p.avg_price@ && r.leverage@ == p.leverage@ && r.mark_price@ == p.mark_price@
            && r.unrealized_profit@ == p.unrealised_pnl@ && r.id@ == decimal_text(id as nat),
{
    PositionRow {
        symbol: p.symbol.clone(),
        position_amt: p.size.clone(),
        time,
        position_side: p.side.clone(),
        entry_price: p.avg_price.clone(),
        leverage: p.leverage.clone(),
        mark_price: p.mark_price.clone(),
        unrealized_profit: p.unrealised_pnl.clone(),
        id: decimal_string(id),
    }
}

/// Whether every shown position's update time stamp has a calendar text.
pub open spec fn positions_stamped(ps: Seq<BybitPosition>) -> bool {
    forall|i: int| 0 <= i < open_positions(ps).len()
        ==> (#[trigger] stamp_clock_text(open_positions(ps)[i].update_time@)) is Some
}

/// The rows of an account's open positions: one per position of non-zero
/// size, in the venue's order. `None` where such a position's update time
/// stamp is not decimal epoch milliseconds of a representable instant.
pub fn position_rows(ps: &Vec<BybitPosition>, id: u64) -> (r: Option<Vec<PositionRow>>)
    ensures
        r is Some <==> positions_stamped(ps@),
        r is Some ==> r->0@.len() == open_positions(ps@).len(),
        r is Some ==> r->0@.len() == ps@.filter(|p: BybitPosition| !p.size_is_zero).len(),
        r is Some ==> forall|k: int| 0 <= k < open_positions(ps@).len() ==> is_position_row(
            #[trigger] r->0@[k],
            open_positions(ps@)[k],
            id,
            stamp_clock_text(open_positions(ps@)[k].update_time@)->0,
        ),
{
    let mut rows: Vec<PositionRow> = Vec::new();
    let mut i: usize = 0;
    while i < ps.len()
        invariant
            i <= ps.len(),
            rows.len() == open_positions(ps@.take(i as int)).len(),
            forall|k: int| 0 <= k < rows.len()
                ==> (#[trigger] stamp_clock_text(open_positions(ps@.take(i as int))[k].update_time@)) is Some,
            forall|k: int| 0 <= k < rows.len() ==> is_position_row(
                #[trigger] rows@[k],
                open_positions(ps@.take(i as int))[k],
                id,
                stamp_clock_text(open_positions(ps@.take(i as int))[k].update_time@)->0,
            ),
        decreases ps.len() - i,
    {
        let p = &ps[i];
        assert(ps@.take(i + 1).drop_last() =~= ps@.take(i as int));
        assert(ps@.take(i + 1).last() == ps@[i as int]);
        if !p.size_is_zero {
            match stamp_clock_string(p.update_time.as_str()) {
                Some(time) => {
                    rows.push(position_row(p, id, time));
                },
                None => {
                    proof {
                        let k = open_positions(ps@.take(i as int)).len() as int;
                        assert(open_positions(ps@.take(i + 1)) == open_positions(ps@.take(i as int)).push(ps@[i as int]));
                        lemma_open_positions_prefix(ps@, i as int + 1);
                        assert(open_positions(ps@.take(i + 1))[k] == ps@[i as int]);
                        assert(open_positions(ps@)[k] == ps@[i as int]);
                    }
                    return None;
                },
            }
        }
        i = i + 1;
    }
    assert(ps@.take(ps.len() as int) =~= ps@);
    proof { law_open_positions_nonzero(ps@); }
    Some(rows)
}

/// One entry of the venue's position list as the reply gives it: each
/// field's text, `None` where the entry lacks it or it is not a JSON string.
#[derive(Clone, Debug)]
pub struct PositionEntry {
    pub symbol: Option<String>,
    pub size: Option<String>,
    pub side: Option<String>,
    pub avg_price: Option<String>,
    pub leverage: Option<String>,
    pub mark_price: Option<String>,
    pub unrealised_pnl: Option<String>,
    pub update_time: Option<String>,
}

/// The `symbol`, `size`, `side`, `avgPrice`, `leverage`, `markPrice`,
/// `unrealisedPnl` and `updateTime` fields of each entry of `result.list` in a
/// position reply, each `None` where the entry lacks it or it is not a JSON
/// string; `None` where the reply is not JSON with an array at `result.list`.
pub uninterp spec fn position_reply_entries(reply: Seq<char>) -> Option<Seq<(Option<Seq<char>>, Option<Seq<char>>, Option<Seq<char>>, Option<Seq<char>>, Option<Seq<char>>, Option<Seq<char>>, Option<Seq<char>>, Option<Seq<char>>)>>;

/// The fields of a position entry, as texts.
pub open spec fn position_entry_fields(e: PositionEntry) -> (Option<Seq<char>>, Option<Seq<char>>, Option<Seq<char>>, Option<Seq<char>>, Option<Seq<char>>, Option<Seq<char>>, Option<Seq<char>>, Option<Seq<char>>) {
    (opt_text(e.symbol), opt_text(e.size), opt_text(e.side), opt_text(e.avg_price), opt_text(e.leverage),
        opt_text(e.mark_price), opt_text(e.unrealised_pnl), opt_text(e.update_time))
}

/// Reads the entries of a position reply.
///
/// Calls `serde_json::from_str::<serde_json::Value>` on the reply and takes
/// `result.list` by indexing the value and `Value::as_array`, then each
/// entry's fields by indexing and `Value::as_str`. Trusted: the result is the
/// one value `position_reply_entries(reply@)` that these calls give for the
/// reply, entry for entry and in order.
#[verifier::external_body]
fn read_position_reply(reply: &str) -> (r: Option<Vec<PositionEntry>>)
    ensures
        r is Some <==> position_reply_entries(reply@) is Some,
        r is Some ==> r->0@.len() == position_reply_entries(reply@)->0.len(),
        r is Some ==> forall|i: int| 0 <= i < r->0@.len()
            ==> position_entry_fields(#[trigger] r->0@[i]) == position_reply_entries(reply@)->0[i],
{
    let v: serde_json::Value = serde_json::from_str(reply).ok()?;
    let t = |e: &serde_json::Value, k: &str| e[k].as_str().map(String::from);
    Some(v["result"]["list"].as_array()?.iter().map(|e| PositionEntry {
        symbol: t(e, "symbol"),
        size: t(e, "size"),
        side: t(e, "side"),
        avg_price: t(e, "avgPrice"),
        leverage: t(e, "leverage"),
        mark_price: t(e, "markPrice"),
        unrealised_pnl: t(e, "unrealisedPnl"),
        update_time: t(e, "updateTime"),
    }).collect())
}

/// The entries of a venue position reply; `None` where the reply is not JSON
/// with an array at `result.list`.
pub fn position_reply(reply: &str) -> (r: Option<Vec<PositionEntry>>)
    ensures
        r is Some <==> position_reply_entries(reply@) is Some,
        r is Some ==> r->0@.len() == position_reply_entries(reply@)->0.len(),
        r is Some ==> forall|i: int| 0 <= i < r->0@.len()
            ==> position_entry_fields(#[trigger] r->0@[i]) == position_reply_entries(reply@)->0[i],
{
    read_position_reply(reply)
}

/// The texts of a position, with its zero-size flag.
pub open spec fn position_text(p: BybitPosition) -> (Seq<char>, Seq<char>, Seq<char>, Seq<char>, Seq<char>, Seq<char>, Seq<char>, Seq<char>, bool) {
    (p.symbol@, p.size@, p.side@, p.avg_price@, p.leverage@, p.mark_price@, p.unrealised_pnl@, p.update_time@,
        p.size_is_zero)
}

/// Whether a position entry gives a position: it has a size, and, unless the
/// size is zero, every other field.
pub open spec fn position_fields_usable(f: (Option<Seq<char>>, Option<Seq<char>>, Option<Seq<char>>, Option<Seq<char>>, Option<Seq<char>>, Option<Seq<char>>, Option<Seq<char>>, Option<Seq<char>>), zero: bool) -> bool {
    f.1 is Some && (!zero ==> f.0 is Some && f.2 is Some && f.3 is Some && f.4 is Some && f.5 is Some
        && f.6 is Some && f.7 is Some)
}

/// The texts of the position that an entry gives, a missing field blank.
pub open spec fn position_fields_text(f: (Option<Seq<char>>, Option<Seq<char>>, Option<Seq<char>>, Option<Seq<char>>, Option<Seq<char>>, Option<Seq<char>>, Option<Seq<char>>, Option<Seq<char>>), zero: bool) -> (Seq<char>, Seq<char>, Seq<char>, Seq<char>, Seq<char>, Seq<char>, Seq<char>, Seq<char>, bool) {
    (text_or_blank(f.0), text_or_blank(f.1), text_or_blank(f.2), text_or_blank(f.3), text_or_blank(f.4),
        text_or_blank(f.5), text_or_blank(f.6), text_or_blank(f.7), zero)
}

/// The positions that the entries of a position reply give, `zero[i]`
/// telling whether the size of entry `i` is zero. `None` where an entry lacks
/// its size, or a position of non-zero size lacks another field.
pub fn positions_of_entries(entries: &Vec<PositionEntry>, zero: &Vec<bool>) -> (r: Option<Vec<BybitPosition>>)
    requires
        zero@.len() == entries@.len(),
    ensures
        r is Some <==> forall|i: int| 0 <= i < entries@.len()
            ==> position_fields_usable(#[trigger] position_entry_fields(entries@[i]), zero@[i]),
        r is Some ==> r->0@.len() == entries@.len(),
        r is Some ==> forall|i: int| 0 <= i < entries@.len()
            ==> position_text(#[trigger] r->0@[i]) == position_fields_text(position_entry_fields(entries@[i]), zero@[i]),
{
    let mut out: Vec<BybitPosition> = Vec::new();
    let mut i: usize = 0;
    while i < entries.len()
        invariant
            i <= entries.len(),
            zero@.len() == entries@.len(),
            out@.len() == i,
            forall|j: int| 0 <= j < i ==> position_fields_usable(#[trigger] position_entry_fields(entries@[j]), zero@[j]),
            forall|j: int| 0 <= j < i
                ==> position_text(#[trigger] out@[j]) == position_fields_text(position_entry_fields(entries@[j]), zero@[j]),
        decreases entries.len() - i,
    {
        let e = &entries[i];
        let z = zero[i];
        let usable = e.size.is_some() && (z || (e.symbol.is_some() && e.side.is_some() && e.avg_price.is_some()
            && e.leverage.is_some() && e.mark_price.is_some() && e.unrealised_pnl.is_some()
            && e.update_time.is_some()));
        if !usable {
            assert(!position_fields_usable(position_entry_fields(entries@[i as int]), zero@[i as int]));
            return None;
        }
        out.push(BybitPosition {
            symbol: field_or_blank(&e.symbol),
            size: field_or_blank(&e.size),
            side: field_or_blank(&e.side),
            avg_price: field_or_blank(&e.avg_price),
            leverage: field_or_blank(&e.leverage),
            mark_price: field_or_blank(&e.mark_price),
            unrealised_pnl: field_or_blank(&e.unrealised_pnl),
            update_time: field_or_blank(&e.update_time),
            size_is_zero: z,
        });
        i = i + 1;
    }
    Some(out)
}

/// The shown positions of a prefix are a prefix of the shown positions.
proof fn lemma_open_positions_prefix(ps: Seq<BybitPosition>, n: int)
    requires
        0 <= n <= ps.len(),
    ensures
        open_positions(ps.take(n)).len() <= open_positions(ps).len(),
        forall|k: int| 0 <= k < open_positions(ps.take(n)).len()
            ==> #[trigger] open_positions(ps.take(n))[k] == open_positions(ps)[k],
    decreases ps.len() - n,
{
    if n < ps.len() {
        lemma_open_positions_prefix(ps, n + 1);
        let t = ps.take(n + 1);
        assert(t.drop_last() =~= ps.take(n));
        assert forall|k: int| 0 <= k < open_positions(ps.take(n)).len()
            implies #[trigger] open_positions(ps.take(n))[k] == open_positions(ps)[k] by {
            assert(open_positions(t)[k] == open_positions(ps.take(n))[k]);
        }
    } else {
        assert(ps.take(n) =~= ps);
    }
}

// ------------------------------------------------------------------------
// Wallet assets
// ------------------------------------------------------------------------

/// One coin of a wallet account in the venue's account reply.
/// `balance_is_zero` records whether the wallet balance, read as a number,
/// is zero.
#[derive(Clone, Debug)]
pub struct BybitCoin {
    pub coin: String,
    pub wallet_balance: String,
    pub unrealised_pnl: String,
    pub usd_value: String,
    pub available_to_withdraw: String,
    pub balance_is_zero: bool,
}

/// One shown asset of the account with number `id`.
#[derive(Clone, Debug)]
pub struct AssetRow {
    pub symbol: String,
    pub wallet_balance: String,
    pub unrealized_profit: String,
    pub margin_balance: String,
    pub available_balance: String,
    pub id: String,
}

/// The coins of one wallet account that are shown: those with a non-zero
/// balance, in order.
pub open spec fn held_coins(cs: Seq<BybitCoin>) -> Seq<BybitCoin>
    decreases cs.len(),
{
    if cs.len() == 0 {
        Seq::empty()
    } else if cs.last().balance_is_zero {
        held_coins(cs.drop_last())
    } else {
        held_coins(cs.drop_last()).push(cs.last())
    }
}

/// The coins shown for a list of wallet accounts: each account's held coins,
/// account after account.
pub open spec fn shown_coins(accounts: Seq<Vec<BybitCoin>>) -> Seq<BybitCoin>
    decreases accounts.len(),
{
    if accounts.len() == 0 {
        Seq::empty()
    } else {
        shown_coins(accounts.drop_last()) + held_coins(accounts.last()@)
    }
}

/// A shown coin never has a zero balance, and every coin that the wallet
/// accounts hold with a non-zero balance is shown.
pub proof fn law_shown_coins_nonzero(accounts: Seq<Vec<BybitCoin>>)
    ensures
        forall|k: int| 0 <= k < shown_coins(accounts).len() ==> !(#[trigger] shown_coins(accounts)[k]).balance_is_zero,
        forall|a: int, j: int| 0 <= a < accounts.len() && 0 <= j < accounts[a]@.len()
            && !(#[trigger] accounts[a]@[j]).balance_is_zero ==> shown_coins(accounts).contains(accounts[a]@[j]),
    decreases accounts.len(),
{
    if accounts.len() > 0 {
        let init = accounts.drop_last();
        law_shown_coins_nonzero(init);
        let last = accounts.last()@;
        lemma_held_coins(last);
        let all = shown_coins(accounts);
        assert(all == shown_coins(init) + held_coins(last));
        assert forall|k: int| 0 <= k < all.len() implies !(#[trigger] all[k]).balance_is_zero by {
            if k >= shown_coins(init).len() {
                assert(all[k] == held_coins(last)[k - shown_coins(init).len()]);
            }
        }
        assert forall|a: int, j: int| 0 <= a < accounts.len() && 0 <= j < accounts[a]@.len()
            && !(#[trigger] accounts[a]@[j]).balance_is_zero implies all.contains(accounts[a]@[j]) by {
            if a < init.len() {
                assert(init[a] == accounts[a]);
                assert(shown_coins(init).contains(accounts[a]@[j]));
                let w = choose|w: int| 0 <= w < shown_coins(init).len() && shown_coins(init)[w] == accounts[a]@[j];
                assert(all[w] == shown_coins(init)[w]);
            } else {
                assert(held_coins(last).contains(last[j]));
                let w = choose|w: int| 0 <= w < held_coins(last).len() && held_coins(last)[w] == last[j];
                assert(all[shown_coins(init).len() + w] == held_coins(last)[w]);
            }
        }
    }
}

proof fn lemma_held_coins(cs: Seq<BybitCoin>)
    ensures
        forall|k: int| 0 <= k < held_coins(cs).len() ==> !(#[trigger] held_coins(cs)[k]).balance_is_zero,
        forall|j: int| 0 <= j < cs.len() && !(#[trigger] cs[j]).balance_is_zero ==> held_coins(cs).contains(cs[j]),
    decreases cs.len(),
{
    if cs.len() > 0 {
        let init = cs.drop_last();
        lemma_held_coins(init);
        assert forall|j: int| 0 <= j < cs.len() && !(#[trigger] cs[j]).balance_is_zero
            implies held_coins(cs).contains(cs[j]) by {
            if j < init.len() {
                assert(init[j] == cs[j]);
                let w = choose|w: int| 0 <= w < held_coins(init).len() && held_coins(init)[w] == cs[j];
                assert(held_coins(cs)[w] == held_coins(init)[w]);
            } else {
                assert(held_coins(cs)[held_coins(cs).len() - 1] == cs[j]);
            }
        }
    }
}

/// One coin of a wallet account as the reply gives it: each field's text,
/// `None` where the coin lacks it or it is not a JSON string.
#[derive(Clone, Debug)]
pub struct CoinEntry {
    pub coin: Option<String>,
    pub wallet_balance: Option<String>,
    pub unrealised_pnl: Option<String>,
    pub usd_value: Option<String>,
    pub available_to_withdraw: Option<String>,
}

/// One wallet account as the account reply gives it: its total wallet
/// balance and total equity texts, and its coins, `None` where it has no
/// `coin` array.
#[derive(Clone, Debug)]
pub struct AccountEntry {
    pub total_wallet_balance: Option<String>,
    pub total_equity: Option<String>,
    pub coins: Option<Vec<CoinEntry>>,
}

/// The `totalWalletBalance` and `totalEquity` fields of each entry of
/// `result.list` in an account reply, and, for each object of the entry's
/// `coin` array, its `coin`, `walletBalance`, `unrealisedPnl`, `usdValue` and
/// `availableToWithdraw` fields. A field is `None` where it is missing or not
/// a JSON string, the coins `None` where `coin` is missing or not an array,
/// and the whole `None` where the reply is not JSON with an array at
/// `result.list`.
pub uninterp spec fn account_reply_entries(reply: Seq<char>) -> Option<Seq<(Option<Seq<char>>, Option<Seq<char>>, Option<Seq<(Option<Seq<char>>, Option<Seq<char>>, Option<Seq<char>>, Option<Seq<char>>, Option<Seq<char>>)>>)>>;

/// The fields of a coin entry, as texts.
pub open spec fn coin_entry_fields(c: CoinEntry) -> (Option<Seq<char>>, Option<Seq<char>>, Option<Seq<char>>, Option<Seq<char>>, Option<Seq<char>>) {
    (opt_text(c.coin), opt_text(c.wallet_balance), opt_text(c.unrealised_pnl), opt_text(c.usd_value),
        opt_text(c.available_to_withdraw))
}

/// The fields of a wallet-account entry, as texts.
pub open spec fn account_entry_fields(e: AccountEntry) -> (Option<Seq<char>>, Option<Seq<char>>, Option<Seq<(Option<Seq<char>>, Option<Seq<char>>, Option<Seq<char>>, Option<Seq<char>>, Option<Seq<char>>)>>) {
    (opt_text(e.total_wallet_balance), opt_text(e.total_equity), match e.coins {
        Some(cs) => Some(cs@.map_values(|c: CoinEntry| coin_entry_fields(c))),
        None => None,
    })
}

/// Reads the entries of an account reply.
///
/// Calls `serde_json::from_str::<serde_json::Value>` on the reply and takes
/// `result.list` by indexing the value and `Value::as_array`, then each
/// entry's fields and its `coin` array, and each coin's fields, by indexing
/// and `Value::as_str` or `Value::as_array`. Trusted: the result is the one value
/// `account_reply_entries(reply@)` that these calls give for the reply, entry
/// for entry and coin for coin, in order.
#[verifier::external_body]
fn read_account_reply(reply: &str) -> (r: Option<Vec<AccountEntry>>)
    ensures
        r is Some <==> account_reply_entries(reply@) is Some,
        r is Some ==> r->0@.len() == account_reply_entries(reply@)->0.len(),
        r is Some ==> forall|i: int| 0 <= i < r->0@.len()
            ==> account_entry_fields(#[trigger] r->0@[i]) == account_reply_entries(reply@)->0[i],
{
    let v: serde_json::Value = serde_json::from_str(reply).ok()?;
    let t = |e: &serde_json::Value, k: &str| e[k].as_str().map(String::from);
    let coin = |c: &serde_json::Value| CoinEntry { coin: t(c, "coin"), wallet_balance: t(c, "walletBalance"),
        unrealised_pnl: t(c, "unrealisedPnl"), usd_value: t(c, "usdValue"), available_to_withdraw: t(c, "availableToWithdraw") };
    Some(v["result"]["list"].as_array()?.iter().map(|e| AccountEntry {
        total_wallet_balance: t(e, "totalWalletBalance"),
        total_equity: t(e, "totalEquity"),
        coins: e["coin"].as_array().map(|cs| cs.iter().map(coin).collect()),
    }).collect())
}

/// The wallet accounts of a venue account reply; `None` where the reply is
/// not JSON with an array at `result.list`.
pub fn account_reply(reply: &str) -> (r: Option<Vec<AccountEntry>>)
    ensures
        r is Some <==> account_reply_entries(reply@) is Some,
        r is Some ==> r->0@.len() == account_reply_entries(reply@)->0.len(),
        r is Some ==> forall|i: int| 0 <= i < r->0@.len()
            ==> account_entry_fields(#[trigger] r->0@[i]) == account_reply_entries(reply@)->0[i],
{
    read_account_reply(reply)
}

/// The texts of a coin, with its zero-balance flag.
pub open spec fn coin_text(c: BybitCoin) -> (Seq<char>, Seq<char>, Seq<char>, Seq<char>, Seq<char>, bool) {
    (c.coin@, c.wallet_balance@, c.unrealised_pnl@, c.usd_value@, c.available_to_withdraw@, c.balance_is_zero)
}

/// Whether a coin entry gives a coin: it has a wallet balance, and, unless
/// the balance is zero, every other field.
pub open spec fn coin_fields_usable(f: (Option<Seq<char>>, Option<Seq<char>>, Option<Seq<char>>, Option<Seq<char>>, Option<Seq<char>>), zero: bool) -> bool {
    f.1 is Some && (!zero ==> f.0 is Some && f.2 is Some && f.3 is Some && f.4 is Some)
}

/// The texts of the coin that an entry gives, a missing field blank.
pub open spec fn coin_fields_text(f: (Option<Seq<char>>, Option<Seq<char>>, Option<Seq<char>>, Option<Seq<char>>, Option<Seq<char>>), zero: bool) -> (Seq<char>, Seq<char>, Seq<char>, Seq<char>, Seq<char>, bool) {
    (text_or_blank(f.0), text_or_blank(f.1), text_or_blank(f.2), text_or_blank(f.3), text_or_blank(f.4), zero)
}

/// The coins that the coin entries of one wallet account give, `zero[i]`
/// telling whether the balance of coin `i` is zero. `None` where a coin lacks
/// its balance, or a coin of non-zero balance lacks another field.
pub fn coins_of_entries(entries: &Vec<CoinEntry>, zero: &Vec<bool>) -> (r: Option<Vec<BybitCoin>>)
    requires
        zero@.len() == entries@.len(),
    ensures
        r is Some <==> forall|i: int| 0 <= i < entries@.len()
            ==> coin_fields_usable(#[trigger] coin_entry_fields(entries@[i]), zero@[i]),
        r is Some ==> r->0@.len() == entries@.len(),
        r is Some ==> forall|i: int| 0 <= i < entries@.len()
            ==> coin_text(#[trigger] r->0@[i]) == coin_fields_text(coin_entry_fields(entries@[i]), zero@[i]),
{
    let mut out: Vec<BybitCoin> = Vec::new();
    let mut i: usize = 0;
    while i < entries.len()
        invariant
            i <= entries.len(),
            zero@.len() == entries@.len(),
            out@.len() == i,
            forall|j: int| 0 <= j < i ==> coin_fields_usable(#[trigger] coin_entry_fields(entries@[j]), zero@[j]),
            forall|j: int| 0 <= j < i
                ==> coin_text(#[trigger] out@[j]) == coin_fields_text(coin_entry_fields(entries@[j]), zero@[j]),
        decreases entries.len() - i,
    {
        let e = &entries[i];
        let z = zero[i];
        let usable = e.wallet_balance.is_some() && (z || (e.coin.is_some() && e.unrealised_pnl.is_some()
            && e.usd_value.is_some() && e.available_to_withdraw.is_some()));
        if !usable {
            assert(!coin_fields_usable(coin_entry_fields(entries@[i as int]), zero@[i as int]));
            return None;
        }
        out.push(BybitCoin {
            coin: field_or_blank(&e.coin),
            wallet_balance: field_or_blank(&e.wallet_balance),
            unrealised_pnl: field_or_blank(&e.unrealised_pnl),
            usd_value: field_or_blank(&e.usd_value),
            available_to_withdraw: field_or_blank(&e.available_to_withdraw),
            balance_is_zero: z,
        });
        i = i + 1;
    }
    Some(out)
}

/// Whether `r` is the row of coin `c` of account `id`.
pub open spec fn is_asset_row(r: AssetRow, c: BybitCoin, id: u64) -> bool {
    &&& r.symbol@ == c.coin@
    &&& r.wallet_balance@ == c.wallet_balance@
    &&& r.unrealized_profit@ == c.unrealised_pnl@
    &&& r.margin_balance@ == c.usd_value@
    &&& r.available_balance@ == c.available_to_withdraw@
    &&& r.id@ == decimal_text(id as nat)
}

/// An asset row shows the coin's name, wallet balance, unrealised profit,
/// USD value and withdrawable amount, and the account number.
pub proof fn law_asset_row_fields(r: AssetRow, c: BybitCoin, id: u64)
    requires
        is_asset_row(r, c, id),
    ensures
        r.symbol@ == c.coin@,
        r.wallet_balance@ == c.wallet_balance@,
        r.unrealized_profit@ == c.unrealised_pnl@,
        r.margin_balance@ == c.usd_value@,
        r.available_balance@ == c.available_to_withdraw@,
        r.id@ == decimal_text(id as nat),
{
}

/// The rows of an account's assets: every coin with a non-zero balance, in
/// the order of the venue's wallet accounts and of their coins.
pub fn asset_rows(accounts: &Vec<Vec<BybitCoin>>, id: u64) -> (r: Vec<AssetRow>)
    ensures
        r@.len() == shown_coins(accounts@).len(),
        forall|k: int| 0 <= k < r@.len() ==> is_asset_row(#[trigger] r@[k], shown_coins(accounts@)[k], id),
{
    let mut rows: Vec<AssetRow> = Vec::new();
    let mut a: usize = 0;
    while a < accounts.len()
        invariant
            a <= accounts.len(),
            rows.len() == shown_coins(accounts@.take(a as int)).len(),
            forall|k: int| 0 <= k < rows.len()
                ==> is_asset_row(#[trigger] rows@[k], shown_coins(accounts@.take(a as int))[k], id),
        decreases accounts.len() - a,
    {
        let coins = &accounts[a];
        let ghost before = shown_coins(accounts@.take(a as int));
        assert(accounts@.take(a + 1).drop_last() =~= accounts@.take(a as int));
        assert(accounts@.take(a + 1).last() == accounts@[a as int]);
        let mut j: usize = 0;
        while j < coins.len()
            invariant
                j <= coins.len(),
                rows.len() == before.len() + held_coins(coins@.take(j as int)).len(),
                forall|k: int| 0 <= k < before.len() ==> is_asset_row(#[trigger] rows@[k], before[k], id),
                forall|k: int| 0 <= k < held_coins(coins@.take(j as int)).len() ==> is_asset_row(
                    #[trigger] rows@[before.len() as int + k],
                    held_coins(coins@.take(j as int))[k],
                    id,
                ),
            decreases coins.len() - j,
        {
            let c = &coins[j];
            assert(coins@.take(j + 1).drop_last() =~= coins@.take(j as int));
            assert(coins@.take(j + 1).last() == coins@[j as int]);
            if !c.balance_is_zero {
                rows.push(AssetRow {
                    symbol: c.coin.clone(),
                    wallet_balance: c.wallet_balance.clone(),
                    unrealized_profit: c.unrealised_pnl.clone(),
                    margin_balance: c.usd_value.clone(),
                    available_balance: c.available_to_withdraw.clone(),
                    id: decimal_string(id),
                });
                assert(is_asset_row(rows@[(before.len() + held_coins(coins@.take(j as int)).len()) as int],
                    held_coins(coins@.take(j + 1))[held_coins(coins@.take(j as int)).len() as int], id));
            }
            j = j + 1;
        }
        assert(coins@.take(coins.len() as int) =~= coins@);
        let ghost after = shown_coins(accounts@.take(a + 1));
        assert(after =~= before + held_coins(coins@));
        assert forall|k: int| 0 <= k < rows.len() implies is_asset_row(#[trigger] rows@[k], after[k], id) by {
            if k >= before.len() {
                assert(rows@[k] == rows@[before.len() as int + (k - before.len())]);
            }
        }
        a = a + 1;
    }
    assert(accounts@.take(accounts.len() as int) =~= accounts@);
    rows
}


// ------------------------------------------------------------------------
// Transfers between wallet accounts
// ------------------------------------------------------------------------

/// One entry of the venue's transfer list.
#[derive(Clone, Debug)]
pub struct BybitTransfer {
    pub status: String,
    pub from_account_type: String,
    pub to_account_type: String,
    pub timestamp: String,
    pub amount: String,
    pub coin: String,
}

/// The texts of a transfer: status, source account type, target account
/// type, time stamp, amount and coin.
pub open spec fn transfer_text(t: BybitTransfer) -> (Seq<char>, Seq<char>, Seq<char>, Seq<char>, Seq<char>, Seq<char>) {
    (t.status@, t.from_account_type@, t.to_account_type@, t.timestamp@, t.amount@, t.coin@)
}

/// The texts of a sequence of transfers.
pub open spec fn transfer_texts(ts: Seq<BybitTransfer>) -> Seq<(Seq<char>, Seq<char>, Seq<char>, Seq<char>, Seq<char>, Seq<char>)> {
    ts.map_values(|t: BybitTransfer| transfer_text(t))
}

/// One shown transfer of the account `name` with number `id`.
#[derive(Clone, Debug)]
pub struct TransferRow {
    pub from: String,
    pub to: String,
    pub name: String,
    pub id: String,
    pub time: String,
    pub amount: String,
    pub asset: String,
    pub status: String,
}

/// The shown name of a transfer status, for the statuses that have one.
pub open spec fn transfer_status_label(status: Seq<char>) -> Option<Seq<char>> {
    if status == "SUCCESS"@ {
        Some("划转成功"@)
    } else if status == "PENDING"@ {
        Some("正在划转中"@)
    } else if status == "FAILED"@ {
        Some("划转失败"@)
    } else {
        None
    }
}

/// The shown name of a wallet account type, for the types that have one.
pub open spec fn account_type_label(kind: Seq<char>) -> Option<Seq<char>> {
    if kind == "FUND"@ {
        Some("资金账户"@)
    } else if kind == "CONTRACT"@ {
        Some("合约账户"@)
    } else if kind == "SPOT"@ {
        Some("现货账户"@)
    } else if kind == "OPTION"@ {
        Some("USDC合约账户"@)
    } else if kind == "UNIFIED"@ {
        Some("统一账户"@)
    } else {
        None
    }
}

/// A shown label carries over from the previous entry when an entry's own
/// value has no name.
pub open spec fn carried_label(previous: Seq<char>, own: Option<Seq<char>>) -> Seq<char> {
    match own {
        Some(l) => l,
        None => previous,
    }
}

/// The status shown for the entry `n - 1`, after the first `n` entries.
pub open spec fn shown_status(ts: Seq<(Seq<char>, Seq<char>, Seq<char>, Seq<char>, Seq<char>, Seq<char>)>, n: nat) -> Seq<char>
    decreases n,
{
    if n == 0 {
        Seq::empty()
    } else {
        carried_label(shown_status(ts, (n - 1) as nat), transfer_status_label(ts[n - 1].0))
    }
}

/// The source account shown for the entry `n - 1`, after the first `n`
/// entries.
pub open spec fn shown_from(ts: Seq<(Seq<char>, Seq<char>, Seq<char>, Seq<char>, Seq<char>, Seq<char>)>, n: nat) -> Seq<char>
    decreases n,
{
    if n == 0 {
        Seq::empty()
    } else {
        carried_label(shown_from(ts, (n - 1) as nat), account_type_label(ts[n - 1].1))
    }
}

/// The target account shown for the entry `n - 1`, after the first `n`
/// entries.
pub open spec fn shown_to(ts: Seq<(Seq<char>, Seq<char>, Seq<char>, Seq<char>, Seq<char>, Seq<char>)>, n: nat) -> Seq<char>
    decreases n,
{
    if n == 0 {
        Seq::empty()
    } else {
        carried_label(shown_to(ts, (n - 1) as nat), account_type_label(ts[n - 1].2))
    }
}

/// The status shown for a transfer is always blank or one of the three
/// status names; the accounts shown are always blank or one of the five
/// account names.
pub proof fn law_shown_labels_named(ts: Seq<(Seq<char>, Seq<char>, Seq<char>, Seq<char>, Seq<char>, Seq<char>)>, n: nat)
    requires
        n <= ts.len(),
    ensures
        shown_status(ts, n) == Seq::<char>::empty() || shown_status(ts, n) == "划转成功"@
            || shown_status(ts, n) == "正在划转中"@ || shown_status(ts, n) == "划转失败"@,
        is_account_label_or_blank(shown_from(ts, n)),
        is_account_label_or_blank(shown_to(ts, n)),
    decreases n,
{
    if n > 0 {
        law_shown_labels_named(ts, (n - 1) as nat);
    }
}

/// Whether a shown account is blank or one of the five account names.
pub open spec fn is_account_label_or_blank(l: Seq<char>) -> bool {
    l == Seq::<char>::empty() || l == "资金账户"@ || l == "合约账户"@ || l == "现货账户"@
        || l == "USDC合约账户"@ || l == "统一账户"@
}

fn transfer_status_label_str(status: &str) -> (r: Option<&'static str>)
    ensures
        r is Some <==> transfer_status_label(status@) is Some,
        r is Some ==> r->0@ == transfer_status_label(status@)->0,
{
    if same_text(status, "SUCCESS") {
        Some("划转成功")
    } else if same_text(status, "PENDING") {
        Some("正在划转中")
    } else if same_text(status, "FAILED") {
        Some("划转失败")
    } else {
        None
    }
}

fn account_type_label_str(kind: &str) -> (r: Option<&'static str>)
    ensures
        r is Some <==> account_type_label(kind@) is Some,
        r is Some ==> r->0@ == account_type_label(kind@)->0,
{
    if same_text(kind, "FUND") {
        Some("资金账户")
    } else if same_text(kind, "CONTRACT") {
        Some("合约账户")
    } else if same_text(kind, "SPOT") {
        Some("现货账户")
    } else if same_text(kind, "OPTION") {
        Some("USDC合约账户")
    } else if same_text(kind, "UNIFIED") {
        Some("统一账户")
    } else {
        None
    }
}

/// Whether `r` is the row of the transfer at `i` of the account `name` with
/// number `id`, made at the calendar time `time`: its status and accounts are
/// the labels shown after the first `i + 1` entries.
pub open spec fn is_transfer_row(
    r: TransferRow,
    ts: Seq<(Seq<char>, Seq<char>, Seq<char>, Seq<char>, Seq<char>, Seq<char>)>,
    i: int,
    name: Seq<char>,
    id: u64,
    time: Seq<char>,
) -> bool {
    &&& r.from@ == shown_from(ts, (i + 1) as nat)
    &&& r.to@ == shown_to(ts, (i + 1) as nat)
    &&& r.name@ == name
    &&& r.id@ == decimal_text(id as nat)
    &&& r.time@ == time
    &&& r.amount@ == ts[i].4
    &&& r.asset@ == ts[i].5
    &&& r.status@ == shown_status(ts, (i + 1) as nat)
}

/// A transfer row shows the transfer's amount and coin, the account's name
/// and number and the time; its status and accounts are the labels of its
/// own status and account types where those have one.
pub proof fn law_transfer_row_fields(
    r: TransferRow,
    ts: Seq<BybitTransfer>,
    i: int,
    name: Seq<char>,
    id: u64,
    time: Seq<char>,
)
    requires
        0 <= i < ts.len(),
        is_transfer_row(r, transfer_texts(ts), i, name, id, time),
    ensures
        r.amount@ == ts[i].amount@,
        r.asset@ == ts[i].coin@,
        r.name@ == name,
        r.id@ == decimal_text(id as nat),
        r.time@ == time,
        transfer_status_label(ts[i].status@) is Some ==> r.status@ == transfer_status_label(ts[i].status@)->0,
        account_type_label(ts[i].from_account_type@) is Some ==> r.from@ == account_type_label(ts[i].from_account_type@)->0,
        account_type_label(ts[i].to_account_type@) is Some ==> r.to@ == account_type_label(ts[i].to_account_type@)->0,
{
    assert(transfer_texts(ts)[i] == transfer_text(ts[i]));
}

/// Whether every transfer's time stamp has a calendar text.
pub open spec fn transfers_stamped(ts: Seq<(Seq<char>, Seq<char>, Seq<char>, Seq<char>, Seq<char>, Seq<char>)>) -> bool {
    forall|i: int| 0 <= i < ts.len() ==> (#[trigger] stamp_clock_text(ts[i].3)) is Some
}

/// The rows of an account's transfers, one per transfer and in the venue's
/// order, the transfer at `i` made at the calendar time `times[i]`. A status
/// or account type without a shown name takes the label of the entry before
/// it (blank for the first entry).
pub fn transfer_rows_at(ts: &Vec<BybitTransfer>, name: &str, id: u64, times: Vec<String>) -> (r: Vec<TransferRow>)
    requires
        times@.len() == ts@.len(),
    ensures
        r@.len() == ts@.len(),
        forall|i: int| 0 <= i < ts@.len() ==> is_transfer_row(#[trigger] r@[i], transfer_texts(ts@), i, name@, id, times@[i]@),
{
    let mut rows: Vec<TransferRow> = Vec::new();
    let mut status: &str = "";
    let mut from: &str = "";
    let mut to: &str = "";
    proof { reveal_strlit(""); }
    let mut times = times;
    let ghost all_times = times@;
    let ghost tt = transfer_texts(ts@);
    let mut i: usize = 0;
    while i < ts.len()
        invariant
            i <= ts.len(),
            all_times.len() == ts@.len(),
            times@ == all_times.skip(i as int),
            rows.len() == i,
            tt == transfer_texts(ts@),
            status@ == shown_status(tt, i as nat),
            from@ == shown_from(tt, i as nat),
            to@ == shown_to(tt, i as nat),
            forall|j: int| 0 <= j < i ==> is_transfer_row(#[trigger] rows@[j], tt, j, name@, id, all_times[j]@),
        decreases ts.len() - i,
    {
        let t = &ts[i];
        assert(tt[i as int] == transfer_text(ts@[i as int]));
        match transfer_status_label_str(t.status.as_str()) {
            Some(l) => status = l,
            None => {},
        }
        match account_type_label_str(t.from_account_type.as_str()) {
            Some(l) => from = l,
            None => {},
        }
        match account_type_label_str(t.to_account_type.as_str()) {
            Some(l) => to = l,
            None => {},
        }
        let time = times.remove(0);
        assert(times@ =~= all_times.skip(i as int + 1));
        rows.push(TransferRow {
            from: from.to_owned(),
            to: to.to_owned(),
            name: name.to_owned(),
            id: decimal_string(id),
            time,
            amount: t.amount.clone(),
            asset: t.coin.clone(),
            status: status.to_owned(),
        });
        i = i + 1;
    }
    rows
}

/// The rows of an account's transfers (see `transfer_rows_at`), each at the
/// calendar time of its time stamp; `None` where a time stamp is not decimal
/// epoch milliseconds of a representable instant.
pub fn transfer_rows(ts: &Vec<BybitTransfer>, name: &str, id: u64) -> (r: Option<Vec<TransferRow>>)
    ensures
        r is Some <==> transfers_stamped(transfer_texts(ts@)),
        r is Some ==> r->0@.len() == ts@.len(),
        r is Some ==> forall|i: int| 0 <= i < ts@.len() ==> is_transfer_row(
            #[trigger] r->0@[i],
            transfer_texts(ts@),
            i,
            name@,
            id,
            stamp_clock_text(ts@[i].timestamp@)->0,
        ),
{
    let mut times: Vec<String> = Vec::new();
    let mut i: usize = 0;
    while i < ts.len()
        invariant
            i <= ts.len(),
            times.len() == i,
            forall|j: int| 0 <= j < i ==> (#[trigger] stamp_clock_text(ts@[j].timestamp@)) is Some,
            forall|j: int| 0 <= j < i ==> (#[trigger] times@[j])@ == stamp_clock_text(ts@[j].timestamp@)->0,
        decreases ts.len() - i,
    {
        assert(transfer_texts(ts@)[i as int] == transfer_text(ts@[i as int]));
        match stamp_clock_string(ts[i].timestamp.as_str()) {
            Some(time) => times.push(time),
            None => {
                assert(stamp_clock_text(transfer_texts(ts@)[i as int].3) is None);
                return None;
            },
        }
        i = i + 1;
    }
    assert forall|j: int| 0 <= j < ts@.len() implies #[trigger] transfer_texts(ts@)[j].3 == ts@[j].timestamp@ by {
        assert(transfer_texts(ts@)[j] == transfer_text(ts@[j]));
    }
    Some(transfer_rows_at(ts, name, id, times))
}


/// One entry of the venue's transfer list as the reply gives it: each
/// field's text, `None` where the entry lacks it or it is not a JSON string.
#[derive(Clone, Debug)]
pub struct TransferEntry {
    pub status: Option<String>,
    pub from_account_type: Option<String>,
    pub to_account_type: Option<String>,
    pub timestamp: Option<String>,
    pub amount: Option<String>,
    pub coin: Option<String>,
}

/// The `status`, `fromAccountType`, `toAccountType`, `timestamp`, `amount`
/// and `coin` fields of each entry of `result.list` in a transfer reply, each
/// `None` where the entry lacks it or it is not a JSON string; `None` where
/// the reply is not JSON with an array at `result.list`.
pub uninterp spec fn transfer_reply_entries(reply: Seq<char>) -> Option<Seq<(Option<Seq<char>>, Option<Seq<char>>, Option<Seq<char>>, Option<Seq<char>>, Option<Seq<char>>, Option<Seq<char>>)>>;

/// The fields of a transfer entry, as texts.
pub open spec fn transfer_entry_fields(e: TransferEntry) -> (Option<Seq<char>>, Option<Seq<char>>, Option<Seq<char>>, Option<Seq<char>>, Option<Seq<char>>, Option<Seq<char>>) {
    (opt_text(e.status), opt_text(e.from_account_type), opt_text(e.to_account_type), opt_text(e.timestamp),
        opt_text(e.amount), opt_text(e.coin))
}

/// Reads the entries of a transfer reply.
///
/// Calls `serde_json::from_str::<serde_json::Value>` on the reply and takes
/// `result.list` by indexing the value and `Value::as_array`, then each
/// entry's fields by indexing and `Value::as_str`. Trusted: the result is the
/// one value `transfer_reply_entries(reply@)` that these calls give for the
/// reply, entry for entry and in order.
#[verifier::external_body]
fn read_transfer_reply(reply: &str) -> (r: Option<Vec<TransferEntry>>)
    ensures
        r is Some <==> transfer_reply_entries(reply@) is Some,
        r is Some ==> r->0@.len() == transfer_reply_entries(reply@)->0.len(),
        r is Some ==> forall|i: int| 0 <= i < r->0@.len()
            ==> transfer_entry_fields(#[trigger] r->0@[i]) == transfer_reply_entries(reply@)->0[i],
{
    let v: serde_json::Value = serde_json::from_str(reply).ok()?;
    let t = |e: &serde_json::Value, k: &str| e[k].as_str().map(String::from);
    Some(v["result"]["list"].as_array()?.iter().map(|e| TransferEntry {
        status: t(e, "status"),
        from_account_type: t(e, "fromAccountType"),
        to_account_type: t(e, "toAccountType"),
        timestamp: t(e, "timestamp"),
        amount: t(e, "amount"),
        coin: t(e, "coin"),
    }).collect())
}

/// Whether a transfer entry has every field.
pub open spec fn transfer_fields_complete(f: (Option<Seq<char>>, Option<Seq<char>>, Option<Seq<char>>, Option<Seq<char>>, Option<Seq<char>>, Option<Seq<char>>)) -> bool {
    f.0 is Some && f.1 is Some && f.2 is Some && f.3 is Some && f.4 is Some && f.5 is Some
}

/// The texts of a complete transfer entry.
pub open spec fn transfer_fields_text(f: (Option<Seq<char>>, Option<Seq<char>>, Option<Seq<char>>, Option<Seq<char>>, Option<Seq<char>>, Option<Seq<char>>)) -> (Seq<char>, Seq<char>, Seq<char>, Seq<char>, Seq<char>, Seq<char>) {
    (f.0->0, f.1->0, f.2->0, f.3->0, f.4->0, f.5->0)
}

/// Whether every entry of a transfer reply has every field.
pub open spec fn transfers_complete(es: Seq<(Option<Seq<char>>, Option<Seq<char>>, Option<Seq<char>>, Option<Seq<char>>, Option<Seq<char>>, Option<Seq<char>>)>) -> bool {
    forall|i: int| 0 <= i < es.len() ==> transfer_fields_complete(#[trigger] es[i])
}

/// The texts of the entries of a transfer reply.
pub open spec fn entry_transfer_texts(es: Seq<(Option<Seq<char>>, Option<Seq<char>>, Option<Seq<char>>, Option<Seq<char>>, Option<Seq<char>>, Option<Seq<char>>)>) -> Seq<(Seq<char>, Seq<char>, Seq<char>, Seq<char>, Seq<char>, Seq<char>)> {
    es.map_values(|f: (Option<Seq<char>>, Option<Seq<char>>, Option<Seq<char>>, Option<Seq<char>>, Option<Seq<char>>, Option<Seq<char>>)| transfer_fields_text(f))
}

/// The transfer of an entry that has every field.
pub fn transfer_of_entry(e: &TransferEntry) -> (r: Option<BybitTransfer>)
    ensures
        r is Some <==> transfer_fields_complete(transfer_entry_fields(*e)),
        r is Some ==> transfer_text(r->0) == transfer_fields_text(transfer_entry_fields(*e)),
{
    match (&e.status, &e.from_account_type, &e.to_account_type, &e.timestamp, &e.amount, &e.coin) {
        (Some(status), Some(from), Some(to), Some(timestamp), Some(amount), Some(coin)) => Some(BybitTransfer {
            status: status.clone(),
            from_account_type: from.clone(),
            to_account_type: to.clone(),
            timestamp: timestamp.clone(),
            amount: amount.clone(),
            coin: coin.clone(),
        }),
        _ => None,
    }
}

/// The rows of the transfers in a venue transfer reply (see
/// `transfer_rows`). `None` where the reply is not JSON with an array at
/// `result.list`, where an entry lacks a field, or where a time stamp is not
/// decimal epoch milliseconds of a representable instant.
pub fn income_rows(reply: &str, name: &str, id: u64) -> (r: Option<Vec<TransferRow>>)
    ensures
        r is Some <==> transfer_reply_entries(reply@) is Some && transfers_complete(transfer_reply_entries(reply@)->0)
            && transfers_stamped(entry_transfer_texts(transfer_reply_entries(reply@)->0)),
        r is Some ==> r->0@.len() == transfer_reply_entries(reply@)->0.len(),
        r is Some ==> forall|i: int| 0 <= i < r->0@.len() ==> is_transfer_row(
            #[trigger] r->0@[i],
            entry_transfer_texts(transfer_reply_entries(reply@)->0),
            i,
            name@,
            id,
            stamp_clock_text(entry_transfer_texts(transfer_reply_entries(reply@)->0)[i].3)->0,
        ),
{
    let entries = match read_transfer_reply(reply) {
        Some(es) => es,
        None => return None,
    };
    let ghost es = transfer_reply_entries(reply@)->0;
    let mut ts: Vec<BybitTransfer> = Vec::new();
    let mut i: usize = 0;
    while i < entries.len()
        invariant
            i <= entries.len(),
            es == transfer_reply_entries(reply@)->0,
            entries@.len() == es.len(),
            forall|j: int| 0 <= j < entries@.len() ==> transfer_entry_fields(#[trigger] entries@[j]) == es[j],
            ts@.len() == i,
            forall|j: int| 0 <= j < i ==> transfer_fields_complete(#[trigger] es[j]),
            forall|j: int| 0 <= j < i ==> transfer_text(#[trigger] ts@[j]) == transfer_fields_text(es[j]),
        decreases entries.len() - i,
    {
        assert(transfer_entry_fields(entries@[i as int]) == es[i as int]);
        match transfer_of_entry(&entries[i]) {
            Some(t) => ts.push(t),
            None => {
                assert(!transfer_fields_complete(es[i as int]));
                assert(!transfers_complete(es));
                return None;
            },
        }
        i = i + 1;
    }
    assert(transfer_texts(ts@) =~= entry_transfer_texts(es));
    transfer_rows(&ts, name, id)
}


// ------------------------------------------------------------------------
// Account summary
// ------------------------------------------------------------------------

/// What the account reply gives the summary, already written as shown.
#[derive(Clone, Debug)]
pub struct AccountFigures {
    pub total_equity: String,
    pub net_worth: String,
    pub available_balance: String,
}

/// What the position reply gives the summary, already written as shown.
#[derive(Clone, Debug)]
pub struct PositionFigures {
    pub leverage: String,
    pub position: String,
}

/// A reply that the summary of an account waits for.
#[derive(Clone, Copy, Debug, PartialEq, Eq)]
pub enum SummaryRequest {
    Account,
    Positions,
    OpenOrders,
}

/// A reply from the venue; `None` where the venue gave none.
#[derive(Clone, Debug)]
pub enum SummaryEvent {
    AccountReply(Option<AccountFigures>),
    PositionsReply(Option<PositionFigures>),
    /// The number of open orders.
    OpenOrdersReply(Option<u64>),
}

/// How far the summary of an account has come.
#[derive(Clone, Debug)]
pub enum SummaryStage {
    AwaitAccount,
    AwaitPositions(AccountFigures),
    AwaitOpenOrders(AccountFigures, PositionFigures),
    Finished,
}

/// The summary of one account, under way.
#[derive(Clone, Debug)]
pub struct SummaryState {
    pub id: u64,
    pub name: String,
    pub stage: SummaryStage,
}

/// What the summary needs next: a reply, or nothing more, with the result.
#[derive(Clone, Debug)]
pub enum SummaryStep {
    Ask(SummaryRequest),
    Done(Option<ByBitSub>),
}

/// Whether an event is the reply that the stage waits for.
pub open spec fn answers(stage: SummaryStage, event: SummaryEvent) -> bool {
    match stage {
        SummaryStage::AwaitAccount => event is AccountReply,
        SummaryStage::AwaitPositions(_) => event is PositionsReply,
        SummaryStage::AwaitOpenOrders(_, _) => event is OpenOrdersReply,
        SummaryStage::Finished => false,
    }
}

/// The stage that a reply moves the summary to.
pub open spec fn stage_after(stage: SummaryStage, event: SummaryEvent) -> SummaryStage {
    match (stage, event) {
        (SummaryStage::AwaitAccount, SummaryEvent::AccountReply(Some(a))) => SummaryStage::AwaitPositions(a),
        (SummaryStage::AwaitPositions(a), SummaryEvent::PositionsReply(Some(p))) => SummaryStage::AwaitOpenOrders(a, p),
        _ => SummaryStage::Finished,
    }
}

/// How many replies the summary waits for at most, from a stage on.
pub open spec fn replies_left(stage: SummaryStage) -> nat {
    match stage {
        SummaryStage::AwaitAccount => 3,
        SummaryStage::AwaitPositions(_) => 2,
        SummaryStage::AwaitOpenOrders(_, _) => 1,
        SummaryStage::Finished => 0,
    }
}

/// Every reply that the summary waits for moves it forward, so the summary
/// of an account is finished after at most three replies; it asks for
/// nothing more exactly when it is finished.
pub proof fn law_summary_progress(stage: SummaryStage, event: SummaryEvent)
    requires
        answers(stage, event),
    ensures
        replies_left(stage_after(stage, event)) < replies_left(stage),
        replies_left(SummaryStage::AwaitAccount) == 3,
        stage_after(stage, event) is Finished <==> replies_left(stage_after(stage, event)) == 0,
{
}

/// Whether `s` is the summary of account `id` named `name` with the given
/// figures, the leverage and position texts, and the open-order count text.
pub open spec fn is_summary(
    s: ByBitSub,
    id: u64,
    name: Seq<char>,
    a: AccountFigures,
    leverage: Seq<char>,
    position: Seq<char>,
    open_orders: Seq<char>,
) -> bool {
    &&& s.id@ == decimal_text(id as nat)
    &&& s.name@ == name
    &&& s.total_equity@ == a.total_equity@
    &&& s.leverage@ == leverage
    &&& s.position@ == position
    &&& s.open_order_amt@ == open_orders
    &&& s.net_worth@ == a.net_worth@
    &&& s.available_balance@ == a.available_balance@
}

/// An account summary shows the account's number and name, the equity, net
/// worth and available balance of the account reply, the leverage and
/// position given, and the open-order count given.
pub proof fn law_summary_fields(
    s: ByBitSub,
    id: u64,
    name: Seq<char>,
    a: AccountFigures,
    leverage: Seq<char>,
    position: Seq<char>,
    open_orders: Seq<char>,
)
    requires
        is_summary(s, id, name, a, leverage, position, open_orders),
    ensures
        s.id@ == decimal_text(id as nat),
        s.name@ == name,
        s.total_equity@ == a.total_equity@,
        s.net_worth@ == a.net_worth@,
        s.available_balance@ == a.available_balance@,
        s.leverage@ == leverage,
        s.position@ == position,
        s.open_order_amt@ == open_orders,
{
}

/// Starts the summary of account `id` named `name`: the account reply is
/// asked for first.
pub fn summary_start(id: u64, name: &str) -> (r: (SummaryState, SummaryStep))
    ensures
        r.0.id == id,
        r.0.name@ == name@,
        r.0.stage is AwaitAccount,
        r.1 == SummaryStep::Ask(SummaryRequest::Account),
{
    (SummaryState { id, name: name.to_owned(), stage: SummaryStage::AwaitAccount }, SummaryStep::Ask(SummaryRequest::Account))
}

fn summary_of(id: u64, name: &String, a: &AccountFigures, leverage: String, position: String, open_orders: String) -> (s: ByBitSub)
    ensures
        is_summary(s, id, name@, *a, leverage@, position@, open_orders@),
{
    ByBitSub {
        id: decimal_string(id),
        name: name.clone(),
        total_equity: a.total_equity.clone(),
        leverage,
        position,
        open_order_amt: open_orders,
        net_worth: a.net_worth.clone(),
        available_balance: a.available_balance.clone(),
    }
}

/// Takes the venue's reply into the summary. Without an account reply there
/// is no summary; without a position reply the summary shows the account
/// with zero leverage, position and open orders; with both, the open orders
/// are asked for, and without that reply there is no summary.
pub fn summary_next(state: SummaryState, event: SummaryEvent) -> (r: (SummaryState, SummaryStep))
    requires
        answers(state.stage, event),
    ensures
        r.0.id == state.id,
        r.0.name == state.name,
        r.0.stage == stage_after(state.stage, event),
        r.1 is Done <==> r.0.stage is Finished,
        match (state.stage, event) {
            (SummaryStage::AwaitAccount, SummaryEvent::AccountReply(None)) =>
                r.0.stage is Finished && r.1 == SummaryStep::Done(None),
            (SummaryStage::AwaitAccount, SummaryEvent::AccountReply(Some(a))) =>
                r.0.stage == SummaryStage::AwaitPositions(a) && r.1 == SummaryStep::Ask(SummaryRequest::Positions),
            (SummaryStage::AwaitPositions(a), SummaryEvent::PositionsReply(None)) =>
                r.0.stage is Finished && (r.1 matches SummaryStep::Done(Some(s))
                && is_summary(s, state.id, state.name@, a, "0"@, "0"@, "0"@)),
            (SummaryStage::AwaitPositions(a), SummaryEvent::PositionsReply(Some(p))) =>
                r.0.stage == SummaryStage::AwaitOpenOrders(a, p) && r.1 == SummaryStep::Ask(SummaryRequest::OpenOrders),
            (SummaryStage::AwaitOpenOrders(_, _), SummaryEvent::OpenOrdersReply(None)) =>
                r.0.stage is Finished && r.1 == SummaryStep::Done(None),
            (SummaryStage::AwaitOpenOrders(a, p), SummaryEvent::OpenOrdersReply(Some(n))) =>
                r.0.stage is Finished && (r.1 matches SummaryStep::Done(Some(s))
                && is_summary(s, state.id, state.name@, a, p.leverage@, p.position@, decimal_text(n as nat))),
            _ => false,
        },
{
    let SummaryState { id, name, stage } = state;
    match (stage, event) {
        (SummaryStage::AwaitAccount, SummaryEvent::AccountReply(None)) => {
            (SummaryState { id, name, stage: SummaryStage::Finished }, SummaryStep::Done(None))
        },
        (SummaryStage::AwaitAccount, SummaryEvent::AccountReply(Some(a))) => {
            (SummaryState { id, name, stage: SummaryStage::AwaitPositions(a) }, SummaryStep::Ask(SummaryRequest::Positions))
        },
        (SummaryStage::AwaitPositions(a), SummaryEvent::PositionsReply(None)) => {
            proof { reveal_strlit("0"); }
            let s = summary_of(id, &name, &a, "0".to_owned(), "0".to_owned(), "0".to_owned());
            (SummaryState { id, name, stage: SummaryStage::Finished }, SummaryStep::Done(Some(s)))
        },
        (SummaryStage::AwaitPositions(a), SummaryEvent::PositionsReply(Some(p))) => {
            (SummaryState { id, name, stage: SummaryStage::AwaitOpenOrders(a, p) }, SummaryStep::Ask(SummaryRequest::OpenOrders))
        },
        (SummaryStage::AwaitOpenOrders(_, _), SummaryEvent::OpenOrdersReply(None)) => {
            (SummaryState { id, name, stage: SummaryStage::Finished }, SummaryStep::Done(None))
        },
        (SummaryStage::AwaitOpenOrders(a, p), SummaryEvent::OpenOrdersReply(Some(n))) => {
            let s = summary_of(id, &name, &a, p.leverage, p.position, decimal_string(n));
            (SummaryState { id, name, stage: SummaryStage::Finished }, SummaryStep::Done(Some(s)))
        },
        (stage, _) => {
            (SummaryState { id, name, stage }, SummaryStep::Done(None))
        },
    }
}

} // verus!
