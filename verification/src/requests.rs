//! The outbound request builders: the compute half of the client facade.
//! Each builder validates the negotiated server version, reports
//! incompatibilities as error events, and produces the request's exact
//! field sequence for framing; the caller sends the framed bytes.
//!
//! The version check mirrors the observed behaviour of the protocol's
//! reference implementation: it warns through an error event but still
//! reports the version as acceptable, so a too-old server is logged, not
//! refused.

use vstd::prelude::*;
use crate::api_parameter::{ApiParameters, bool_text, tag_values_text};
use crate::client_errors;
use crate::double::{dbl_is_positive, dbl_max_text, dbl_plain_text, Double};
use crate::enums::incoming_message_enum::IncomingMessagesEnum;
use crate::helper_constants;
use crate::models::combo_leg::{ComboLeg, ComboLegV};
use crate::models::contract::{Contract, ContractV};
use crate::models::order::{Order, OrderV};
use crate::models::scanner_subscription::ScannerSubscription;
use crate::models::tag_value::{TagValue, TagValueV};
use crate::numbers::int_to_dec;

verus! {

/// What a request builder decided: the message to frame and send, when
/// the request may go out, and the error events to publish either way.
pub struct RequestOutcome {
    pub message: Option<Vec<String>>,
    pub events: Vec<IncomingMessagesEnum>,
}

/// The connection state a request builder decides against.
pub struct ClientEngine {
    pub server_version: i32,
    pub is_connected: bool,
}

/// The error event the client raises for a given code and text.
pub open spec fn error_event_view(id: i32, code: i32, text: Seq<char>, tail: Seq<char>)
    -> (i32, i32, Seq<char>) {
    (id, code, text + " "@ + tail)
}

/// The per-leg fields of a combo contract in a data request: identity,
/// ratio, action and exchange.
pub open spec fn legs_brief(legs: Seq<ComboLegV>) -> Seq<Seq<char>>
    decreases legs.len(),
{
    if legs.len() == 0 {
        Seq::empty()
    } else {
        seq![
            int_to_dec(legs[0].con_id as int),
            int_to_dec(legs[0].ratio as int),
            legs[0].action,
            legs[0].exchange,
        ] + legs_brief(legs.drop_first())
    }
}

pub proof fn lemma_legs_brief_push(legs: Seq<ComboLegV>, l: ComboLegV)
    ensures
        legs_brief(legs.push(l)) =~= legs_brief(legs) + seq![
            int_to_dec(l.con_id as int),
            int_to_dec(l.ratio as int),
            l.action,
            l.exchange,
        ],
    decreases legs.len(),
{
    if legs.len() == 0 {
        assert(legs.push(l).drop_first() =~= Seq::<ComboLegV>::empty());
        assert(legs.push(l)[0] == l);
        assert(legs_brief(legs.push(l)) == seq![
            int_to_dec(l.con_id as int),
            int_to_dec(l.ratio as int),
            l.action,
            l.exchange,
        ] + legs_brief(legs.push(l).drop_first()));
        assert(legs_brief(Seq::<ComboLegV>::empty()) =~= Seq::<Seq<char>>::empty());
        assert(legs_brief(legs) =~= Seq::<Seq<char>>::empty());
    } else {
        assert(legs.push(l).drop_first() =~= legs.drop_first().push(l));
        assert(legs.push(l)[0] == legs[0]);
        assert(legs_brief(legs.push(l)) == seq![
            int_to_dec(legs[0].con_id as int),
            int_to_dec(legs[0].ratio as int),
            legs[0].action,
            legs[0].exchange,
        ] + legs_brief(legs.drop_first().push(l)));
        lemma_legs_brief_push(legs.drop_first(), l);
    }
}

/// The combo-leg block of a data request: a count, then each leg's brief
/// fields; a bag with no legs writes a zero count.
pub open spec fn legs_brief_block(legs: Seq<ComboLegV>) -> Seq<Seq<char>> {
    seq![int_to_dec(legs.len() as int)] + legs_brief(legs)
}

/// The delta-neutral block of a market-data request: a presence flag and,
/// when present, the underlying's identity.
pub open spec fn dnc_block(c: ContractV) -> Seq<Seq<char>> {
    match c.delta_neutral_contract {
        Some(dn) => seq![
            bool_text(true),
            int_to_dec(dn.con_id as int),
            dbl_plain_text(dn.delta),
            dbl_plain_text(dn.price),
        ],
        None => seq![bool_text(false)],
    }
}


/// What lowercasing a text yields.
pub uninterp spec fn lower_of(s: Seq<char>) -> Seq<char>;

/// Relies on str::to_lowercase: the result depends on the characters
/// alone, named by `lower_of`.
#[verifier::external_body]
fn lowercase(s: &str) -> (r: String)
    ensures
        r@ == lower_of(s@),
{
    s.to_lowercase()
}

/// Case-insensitive string equality, as the reference client compares
/// security types.
pub fn strings_are_equal(a: &str, b: &str) -> (r: bool)
    ensures
        r == (lower_of(a@) == lower_of(b@)),
{
    let la = lowercase(a);
    let lb = lowercase(b);
    la.eq(&lb)
}

/// Whether a market-data request carries the combo-leg block.
pub open spec fn sv_ge_8_and_bag(sv: int, c: ContractV) -> bool {
    sv >= 8 && is_bag(c)
}

/// Whether the contract is a combo ("bag") instrument.
pub open spec fn is_bag(c: ContractV) -> bool {
    lower_of(c.sec_type) == lower_of(crate::helper_constants::BAG_SEC_TYPE@)
}



/// The per-leg fields of a combo contract in an order placement: the
/// brief identity plus the institution fields their versions carry.
pub open spec fn legs_full(legs: Seq<ComboLegV>, sv: int) -> Seq<Seq<char>>
    decreases legs.len(),
{
    if legs.len() == 0 {
        Seq::empty()
    } else {
        seq![
            int_to_dec(legs[0].con_id as int),
            int_to_dec(legs[0].ratio as int),
            legs[0].action,
            legs[0].exchange,
            int_to_dec(legs[0].open_close.code_spec() as int),
        ]
            + (if sv >= crate::min_server_version::SSHORT_COMBO_LEGS {
                seq![int_to_dec(legs[0].short_sale_slot as int), legs[0].designated_location]
            } else {
                Seq::<Seq<char>>::empty()
            })
            + (if sv >= crate::min_server_version::SSHORTX_OLD {
                seq![int_to_dec(legs[0].exempt_code as int)]
            } else {
                Seq::<Seq<char>>::empty()
            })
            + legs_full(legs.drop_first(), sv)
    }
}

pub proof fn lemma_legs_full_push(legs: Seq<ComboLegV>, l: ComboLegV, sv: int)
    ensures
        legs_full(legs.push(l), sv) =~= legs_full(legs, sv) + legs_full(seq![l], sv),
    decreases legs.len(),
{
    let ghost one = seq![l];
    assert(one[0] == l);
    assert(one.drop_first() =~= Seq::<ComboLegV>::empty());
    assert(legs_full(Seq::<ComboLegV>::empty(), sv) =~= Seq::<Seq<char>>::empty());
    assert(legs_full(one, sv) == seq![
        int_to_dec(l.con_id as int),
        int_to_dec(l.ratio as int),
        l.action,
        l.exchange,
        int_to_dec(l.open_close.code_spec() as int),
    ]
        + (if sv >= crate::min_server_version::SSHORT_COMBO_LEGS {
            seq![int_to_dec(l.short_sale_slot as int), l.designated_location]
        } else {
            Seq::<Seq<char>>::empty()
        })
        + (if sv >= crate::min_server_version::SSHORTX_OLD {
            seq![int_to_dec(l.exempt_code as int)]
        } else {
            Seq::<Seq<char>>::empty()
        }) + legs_full(one.drop_first(), sv));
    if legs.len() == 0 {
        assert(legs.push(l) =~= one);
        assert(legs_full(legs, sv) =~= Seq::<Seq<char>>::empty());
    } else {
        assert(legs.push(l).drop_first() =~= legs.drop_first().push(l));
        assert(legs.push(l)[0] == legs[0]);
        assert(legs_full(legs.push(l), sv) == seq![
            int_to_dec(legs[0].con_id as int),
            int_to_dec(legs[0].ratio as int),
            legs[0].action,
            legs[0].exchange,
            int_to_dec(legs[0].open_close.code_spec() as int),
        ]
            + (if sv >= crate::min_server_version::SSHORT_COMBO_LEGS {
                seq![int_to_dec(legs[0].short_sale_slot as int), legs[0].designated_location]
            } else {
                Seq::<Seq<char>>::empty()
            })
            + (if sv >= crate::min_server_version::SSHORTX_OLD {
                seq![int_to_dec(legs[0].exempt_code as int)]
            } else {
                Seq::<Seq<char>>::empty()
            }) + legs_full(legs.drop_first().push(l), sv));
        lemma_legs_full_push(legs.drop_first(), l, sv);
    }
}

/// The per-leg price fields of an order's combo legs.
pub open spec fn order_legs_out(legs: Seq<crate::models::order_combo_leg::OrderComboLegV>)
    -> Seq<Seq<char>>
    decreases legs.len(),
{
    if legs.len() == 0 {
        Seq::empty()
    } else {
        seq![dbl_plain_text(legs[0].price)] + order_legs_out(legs.drop_first())
    }
}

pub proof fn lemma_order_legs_out_push(
    legs: Seq<crate::models::order_combo_leg::OrderComboLegV>,
    l: crate::models::order_combo_leg::OrderComboLegV,
)
    ensures
        order_legs_out(legs.push(l)) =~= order_legs_out(legs) + seq![dbl_plain_text(l.price)],
    decreases legs.len(),
{
    if legs.len() == 0 {
        assert(legs.push(l).drop_first()
            =~= Seq::<crate::models::order_combo_leg::OrderComboLegV>::empty());
        assert(legs.push(l)[0] == l);
        assert(order_legs_out(legs.push(l)) == seq![dbl_plain_text(l.price)]
            + order_legs_out(legs.push(l).drop_first()));
        assert(order_legs_out(
            Seq::<crate::models::order_combo_leg::OrderComboLegV>::empty())
            =~= Seq::<Seq<char>>::empty());
        assert(order_legs_out(legs) =~= Seq::<Seq<char>>::empty());
    } else {
        assert(legs.push(l).drop_first() =~= legs.drop_first().push(l));
        assert(legs.push(l)[0] == legs[0]);
        assert(order_legs_out(legs.push(l)) == seq![dbl_plain_text(legs[0].price)]
            + order_legs_out(legs.drop_first().push(l)));
        lemma_order_legs_out_push(legs.drop_first(), l);
    }
}

/// The tag and value fields of a parameter list, two fields per pair.
pub open spec fn pairs_out(tvs: Seq<TagValueV>) -> Seq<Seq<char>>
    decreases tvs.len(),
{
    if tvs.len() == 0 {
        Seq::empty()
    } else {
        seq![tvs[0].tag, tvs[0].value] + pairs_out(tvs.drop_first())
    }
}

pub proof fn lemma_pairs_out_push(tvs: Seq<TagValueV>, tv: TagValueV)
    ensures
        pairs_out(tvs.push(tv)) =~= pairs_out(tvs) + seq![tv.tag, tv.value],
    decreases tvs.len(),
{
    if tvs.len() == 0 {
        assert(tvs.push(tv).drop_first() =~= Seq::<TagValueV>::empty());
        assert(tvs.push(tv)[0] == tv);
        assert(pairs_out(tvs.push(tv)) == seq![tv.tag, tv.value]
            + pairs_out(tvs.push(tv).drop_first()));
        assert(pairs_out(Seq::<TagValueV>::empty()) =~= Seq::<Seq<char>>::empty());
        assert(pairs_out(tvs) =~= Seq::<Seq<char>>::empty());
    } else {
        assert(tvs.push(tv).drop_first() =~= tvs.drop_first().push(tv));
        assert(tvs.push(tv)[0] == tvs[0]);
        assert(pairs_out(tvs.push(tv)) == seq![tvs[0].tag, tvs[0].value]
            + pairs_out(tvs.drop_first().push(tv)));
        lemma_pairs_out_push(tvs.drop_first(), tv);
    }
}

/// The fields of an order's condition list: each condition's kind code
/// followed by its own fields.
pub open spec fn conds_out(cs: Seq<crate::models::conditions::CondV>) -> Seq<Seq<char>>
    decreases cs.len(),
{
    if cs.len() == 0 {
        Seq::empty()
    } else {
        seq![int_to_dec(crate::models::conditions::cond_type_code(cs[0]) as int)]
            + crate::models::conditions::cond_fields(cs[0]) + conds_out(cs.drop_first())
    }
}

pub proof fn lemma_conds_out_push(cs: Seq<crate::models::conditions::CondV>,
    c: crate::models::conditions::CondV)
    ensures
        conds_out(cs.push(c)) =~= conds_out(cs)
            + seq![int_to_dec(crate::models::conditions::cond_type_code(c) as int)]
            + crate::models::conditions::cond_fields(c),
    decreases cs.len(),
{
    if cs.len() == 0 {
        assert(cs.push(c).drop_first() =~= Seq::<crate::models::conditions::CondV>::empty());
        assert(cs.push(c)[0] == c);
        assert(conds_out(cs.push(c))
            == seq![int_to_dec(crate::models::conditions::cond_type_code(c) as int)]
            + crate::models::conditions::cond_fields(c)
            + conds_out(cs.push(c).drop_first()));
        assert(conds_out(Seq::<crate::models::conditions::CondV>::empty())
            =~= Seq::<Seq<char>>::empty());
        assert(conds_out(cs) =~= Seq::<Seq<char>>::empty());
    } else {
        assert(cs.push(c).drop_first() =~= cs.drop_first().push(c));
        assert(cs.push(c)[0] == cs[0]);
        assert(conds_out(cs.push(c))
            == seq![int_to_dec(crate::models::conditions::cond_type_code(cs[0]) as int)]
            + crate::models::conditions::cond_fields(cs[0])
            + conds_out(cs.drop_first().push(c)));
        lemma_conds_out_push(cs.drop_first(), c);
    }
}

/// Where a decimal numeral's integer part ends: at its first dot, or at
/// its end.
pub open spec fn int_prefix_end(s: Seq<char>, from: int) -> int
    decreases s.len() - from,
{
    if from < 0 || from >= s.len() {
        s.len() as int
    } else if s[from] == '.' {
        from
    } else {
        int_prefix_end(s, from + 1)
    }
}

proof fn lemma_int_prefix_end_is(s: Seq<char>, from: int, m: int)
    requires
        0 <= from <= m <= s.len(),
        forall|k: int| from <= k < m ==> #[trigger] s[k] != '.',
        m == s.len() || s[m] == '.',
    ensures
        int_prefix_end(s, from) == m,
    decreases m - from,
{
    if from < m {
        lemma_int_prefix_end_is(s, from + 1, m);
    }
}

/// The whole-number count an order quantity casts down to on servers
/// without fractional positions: the numeral's integer part, clamped to
/// the integer range; the unset sentinel casts to the largest integer.
#[verifier::opaque]
pub open spec fn qty_int(v: Option<Seq<char>>) -> int {
    match v {
        None => i32::MAX as int,
        Some(t) => {
            let w = crate::numbers::i64_field_value(t.subrange(0, int_prefix_end(t, 0)));
            if w > i32::MAX as int {
                i32::MAX as int
            } else if w < i32::MIN as int {
                i32::MIN as int
            } else {
                w
            }
        },
    }
}

/// Casts an order quantity down to a whole-number count.
fn quantity_int(d: &Double) -> (r: i32)
    ensures
        r as int == qty_int(d@),
{
    proof {
        reveal(qty_int);
    }
    match d {
        Double::Unset => i32::MAX,
        Double::Num(t) => {
            let len = t.as_str().unicode_len();
            let mut i: usize = 0;
            while i < len && t.as_str().get_char(i) != '.'
                invariant
                    0 <= i <= len,
                    len == t@.len(),
                    forall|k: int| 0 <= k < i ==> #[trigger] t@[k] != '.',
                decreases len - i,
            {
                i = i + 1;
            }
            proof {
                lemma_int_prefix_end_is(t@, 0, i as int);
            }
            let head = t.as_str().substring_char(0, i);
            let w = crate::numbers::parse_i64_str(head);
            if w > i32::MAX as i64 {
                i32::MAX
            } else if w < i32::MIN as i64 {
                i32::MIN
            } else {
                w as i32
            }
        },
    }
}

/// Whether an order uses only capabilities the server version supports:
/// the exact set of conditions under which the order validator refuses a
/// send. A field whose capability outruns the negotiated version refuses
/// the order only when it is actually set to a non-default value; an
/// order with every such field at its default always passes.
pub open spec fn order_supported(sv: int, o: OrderV, is_bag: bool) -> bool {
    &&& (sv < crate::min_server_version::SCALE_ORDERS
        ==> o.scale_init_level_size == i32::MAX && o.scale_price_increment is None)
    &&& (sv < crate::min_server_version::ALGO_ORDERS ==> o.algo_strategy.len() == 0)
    &&& (sv < crate::min_server_version::NOT_HELD ==> !o.not_held)
    &&& (sv < crate::min_server_version::SSHORTX ==> o.exempt_code == -1)
    &&& (sv < crate::min_server_version::HEDGE_ORDERS ==> o.hedge_type.len() == 0)
    &&& (sv < crate::min_server_version::OPT_OUT_SMART_ROUTING ==> !o.opt_out_smart_routing)
    &&& (sv < crate::min_server_version::DELTA_NEUTRAL_CONID ==> !(o.delta_neutral_con_id > 0
        || o.delta_neutral_settling_firm.len() > 0 || o.delta_neutral_clearing_account.len()
        > 0 || o.delta_neutral_clearing_intent.len() > 0))
    &&& (sv < crate::min_server_version::DELTA_NEUTRAL_OPEN_CLOSE
        ==> !(o.delta_neutral_open_close.len() > 0 || o.delta_neutral_short_sale
            || o.delta_neutral_short_sale_slot > 0
            || o.delta_neutral_designated_location.len() > 0))
    &&& (sv < crate::min_server_version::SCALE_ORDERS3
        && crate::double::dbl_is_positive(o.scale_price_increment)
        ==> !(o.scale_price_adjust_value is Some || o.scale_price_adjust_interval != i32::MAX
            || o.scale_profit_offset is Some || o.scale_auto_reset
            || o.scale_init_position != i32::MAX || o.scale_init_fill_qty != i32::MAX
            || o.scale_random_percent))
    &&& (sv < crate::min_server_version::ORDER_COMBO_LEGS_PRICE && is_bag
        ==> (forall|i: int| 0 <= i < o.order_combo_legs.len()
            ==> (#[trigger] o.order_combo_legs[i]).price is None))
    &&& (sv < crate::min_server_version::TRAILING_PERCENT ==> o.trailing_percent is None)
    &&& (sv < crate::min_server_version::ALGO_ID ==> o.algo_id.len() == 0)
    &&& (sv < crate::min_server_version::SCALE_TABLE ==> o.scale_table.len() == 0
        && o.active_start_time.len() == 0 && o.active_stop_time.len() == 0)
    &&& (sv < crate::min_server_version::EXT_OPERATOR ==> o.ext_operator.len() == 0)
    &&& (sv < crate::min_server_version::CASH_QTY ==> o.cash_qty is None)
    &&& (sv < crate::min_server_version::DECISION_MAKER
        ==> o.mifid2decision_maker.len() == 0 && o.mifid2decision_algo.len() == 0)
    &&& (sv < crate::min_server_version::DECISION_MAKER
        ==> o.mifid2execution_trader.len() == 0 && o.mifid2execution_algo.len() == 0)
    &&& (sv < crate::min_server_version::AUTO_PRICE_FOR_HEDGE
        ==> !o.dont_use_auto_price_for_hedge)
    &&& (sv < crate::min_server_version::ORDER_CONTAINER ==> !o.is_oms_container)
    &&& (sv < crate::min_server_version::D_PEG_ORDERS ==> !o.discretionary_up_to_limit_price)
    &&& (sv < crate::min_server_version::PRICE_MGMT_ALGO ==> !o.use_price_mgmt_algo)
}

/// Whether a contract uses only capabilities the server version supports
/// for order placement.
pub open spec fn contract_supported(sv: int, c: ContractV) -> bool {
    &&& (sv < crate::min_server_version::SSHORT_COMBO_LEGS
        ==> (forall|i: int| 0 <= i < c.combo_legs.len()
            ==> (#[trigger] c.combo_legs[i]).short_sale_slot == 0
                && c.combo_legs[i].designated_location.len() == 0))
    &&& (sv < crate::min_server_version::DELTA_NEUTRAL ==> c.delta_neutral_contract is None)
    &&& (sv < crate::min_server_version::PLACE_ORDER_CONID ==> !(c.con_id > 0))
    &&& (sv < crate::min_server_version::SEC_ID_TYPE ==> c.sec_id_type.len() == 0
        && c.sec_id.len() == 0)
    &&& (sv < crate::min_server_version::SSHORTX
        ==> (forall|i: int| 0 <= i < c.combo_legs.len()
            ==> (#[trigger] c.combo_legs[i]).exempt_code == -1))
    &&& (sv < crate::min_server_version::TRADING_CLASS ==> c.trading_class.len() == 0)
}


/// The event the client raises when a request is made while disconnected.
pub open spec fn is_not_connected_event(e: IncomingMessagesEnum) -> bool {
    e matches IncomingMessagesEnum::Error(i, c, m) && i == client_errors::NOT_CONNECTED_CODE
        && c == client_errors::NOT_CONNECTED_CODE
        && m@ == client_errors::NOT_CONNECTED_TEXT@ + " "@
}

/// Every event from position `from` on is an update-software error
/// carrying the given request id.
pub open spec fn all_update_tws(evs: Seq<IncomingMessagesEnum>, from: int, id: i32) -> bool {
    forall|k: int| from <= k < evs.len() ==> ((#[trigger] evs[k]) matches
        IncomingMessagesEnum::Error(i, c, m) && i == id
        && c == client_errors::UPDATE_TWS_CODE)
}

/// One for a warning that fires, zero otherwise.
pub open spec fn warn_count(cond: bool) -> int {
    if cond {
        1
    } else {
        0
    }
}

/// The field sequence of a market-data request under server version `sv`.
pub open spec fn req_market_data_fields(sv: int, req_id: i32, contract: &Contract,
    generic_tick_list: &str, snapshot: bool, regulatory_snapshot: bool,
    market_data_options: &Vec<TagValue>) -> Seq<Seq<char>> {
    seq![int_to_dec((crate::outgoing_messages::REQUEST_MARKET_DATA) as int), int_to_dec((11) as int), int_to_dec((req_id) as int)]
                    + (if sv >= crate::min_server_version::CONTRACT_CONID { seq![int_to_dec((contract.con_id) as int)] } else { Seq::<Seq<char>>::empty() })
                    + seq![contract.symbol@, contract.sec_type@, contract.last_trade_date_or_contract_month@, dbl_plain_text(contract.strike@), contract.right@]
                    + (if sv >= 15 { seq![contract.multiplier@] } else { Seq::<Seq<char>>::empty() })
                    + seq![contract.exchange@]
                    + (if sv >= 14 { seq![contract.primary_exchange@] } else { Seq::<Seq<char>>::empty() })
                    + seq![contract.currency@]
                    + (if sv >= 2 { seq![contract.local_symbol@] } else { Seq::<Seq<char>>::empty() })
                    + (if sv >= crate::min_server_version::TRADING_CLASS { seq![contract.trading_class@] } else { Seq::<Seq<char>>::empty() })
                    + (if sv_ge_8_and_bag(sv, contract@) {
                        legs_brief_block(contract@.combo_legs)
                    } else {
                        Seq::<Seq<char>>::empty()
                    })
                    + (if sv >= crate::min_server_version::DELTA_NEUTRAL {
                        dnc_block(contract@)
                    } else {
                        Seq::<Seq<char>>::empty()
                    })
                    + (if sv >= 31 { seq![generic_tick_list@] } else { Seq::<Seq<char>>::empty() })
                    + (if sv >= crate::min_server_version::SNAPSHOT_MKT_DATA { seq![bool_text(snapshot)] } else { Seq::<Seq<char>>::empty() })
                    + (if sv >= crate::min_server_version::SMART_COMPONENTS { seq![bool_text(regulatory_snapshot)] } else { Seq::<Seq<char>>::empty() })
                    + (if sv >= crate::min_server_version::LINKING { seq![tag_values_text(market_data_options@.map_values(|t: TagValue| t@))] } else { Seq::<Seq<char>>::empty() })
}


/// The warn-only validation conditions: the reference reports these
/// through an error event but still sends the order.
pub open spec fn order_warns(sv: int, o: OrderV) -> bool {
    (sv < crate::min_server_version::WHAT_IF_ORDERS && o.what_if)
        || (sv < crate::min_server_version::SCALE_ORDERS && o.scale_subs_level_size != i32::MAX)
}

impl ClientEngine {
    /// Appends one update-software error event for the given request.
    fn push_update_tws(&self, events: &mut Vec<IncomingMessagesEnum>, id: i32, tail: &str)
        ensures
            final(events)@.len() == old(events)@.len() + 1,
            forall|k: int| 0 <= k < old(events)@.len()
                ==> #[trigger] final(events)@[k] == old(events)@[k],
            final(events)@[old(events)@.len() as int] matches IncomingMessagesEnum::Error(i,
                c, m) && i == id && c == client_errors::UPDATE_TWS_CODE,
    {
        let ev = self.update_tws_event(id, tail);
        events.push(ev);
    }
}

impl ClientEngine {
    pub fn new(server_version: i32, is_connected: bool) -> (r: ClientEngine)
        ensures
            r.server_version == server_version,
            r.is_connected == is_connected,
    {
        ClientEngine { server_version, is_connected }
    }

    /// The not-connected error event raised when a request is refused
    /// outright.
    fn not_connected_event(&self) -> (r: IncomingMessagesEnum)
        ensures
            r matches IncomingMessagesEnum::Error(id, code, m)
                && id == client_errors::NOT_CONNECTED_CODE
                && code == client_errors::NOT_CONNECTED_CODE
                && m@ == client_errors::NOT_CONNECTED_TEXT@ + " "@,
    {
        let mut m = String::from_str(client_errors::NOT_CONNECTED_TEXT);
        m.append(" ");
        IncomingMessagesEnum::Error(client_errors::NOT_CONNECTED_CODE,
            client_errors::NOT_CONNECTED_CODE, m)
    }

    /// The update-software error event raised when a capability outruns
    /// the negotiated server version.
    fn update_tws_event(&self, req_id: i32, tail: &str) -> (r: IncomingMessagesEnum)
        ensures
            r matches IncomingMessagesEnum::Error(id, code, m)
                && id == req_id && code == client_errors::UPDATE_TWS_CODE
                && m@ == client_errors::UPDATE_TWS_TEXT@ + " "@ + tail@,
    {
        let mut m = String::from_str(client_errors::UPDATE_TWS_TEXT);
        m.append(" ");
        m.append(tail);
        IncomingMessagesEnum::Error(req_id, client_errors::UPDATE_TWS_CODE, m)
    }

    /// Whether the server version reaches a required capability level.
    /// Mirroring the reference behaviour, a shortfall is reported through
    /// an error event but the check still reports the version as
    /// acceptable.
    fn check_server_version(&self, req_id: i32, required_version: i32, update_tail: &str,
        events: &mut Vec<IncomingMessagesEnum>) -> (r: bool)
        ensures
            r == true,
            self.server_version >= required_version ==> final(events)@ == old(events)@,
            self.server_version < required_version ==> final(events)@.len()
                == old(events)@.len() + 1,
            final(events)@.subrange(0, old(events)@.len() as int) == old(events)@,
            self.server_version < required_version ==> (final(events)@[old(events)@.len() as int]
                matches IncomingMessagesEnum::Error(i, c, m) && i == req_id
                && c == client_errors::UPDATE_TWS_CODE),
    {
        let ghost pre = events@;
        if self.server_version < required_version {
            let ev = self.update_tws_event(req_id, update_tail);
            events.push(ev);
        }
        proof {
            assert(events@.subrange(0, pre.len() as int) =~= pre);
        }
        true
    }

    /// Writes the market-data request: the contract identity, its combo
    /// legs for a bag, the delta-neutral block, and the subscription flags.
    #[verifier::rlimit(100)]
    #[verifier::spinoff_prover]
    fn req_market_data_message(&self, req_id: i32, contract: &Contract, generic_tick_list: &str, snapshot: bool, regulatory_snapshot: bool, market_data_options: &Vec<TagValue>) -> (msg: Vec<String>)
        requires
            contract.combo_legs@.len() <= i32::MAX,
        ensures
            msg.deep_view() == req_market_data_fields(self.server_version as int, req_id,
                contract, generic_tick_list, snapshot, regulatory_snapshot,
                market_data_options),
    {
        let mut params = ApiParameters::new();
        params.add_int(crate::outgoing_messages::REQUEST_MARKET_DATA);
        params.add_int(11);
        params.add_int(req_id);
        if self.server_version >= crate::min_server_version::CONTRACT_CONID {
            params.add_int(contract.con_id);
        }
        params.add_string(contract.symbol.as_str());
        params.add_string(contract.sec_type.as_str());
        params.add_string(contract.last_trade_date_or_contract_month.as_str());
        params.add_double(&contract.strike);
        params.add_string(contract.right.as_str());
        if self.server_version >= 15 {
            params.add_string(contract.multiplier.as_str());
        }
        params.add_string(contract.exchange.as_str());
        if self.server_version >= 14 {
            params.add_string(contract.primary_exchange.as_str());
        }
        params.add_string(contract.currency.as_str());
        if self.server_version >= 2 {
            params.add_string(contract.local_symbol.as_str());
        }
        if self.server_version >= crate::min_server_version::TRADING_CLASS {
            params.add_string(contract.trading_class.as_str());
        }
        let bag = strings_are_equal(crate::helper_constants::BAG_SEC_TYPE,
            contract.sec_type.as_str());
        if self.server_version >= 8 && bag {
{
                let ghost base = params@;
                params.add_int(contract.combo_legs.len() as i32);
                let mut li: usize = 0;
                proof {
                    assert(legs_brief(contract.combo_legs@.map_values(|t: ComboLeg| t@)
                        .subrange(0, 0)) =~= Seq::<Seq<char>>::empty());
                    assert(params@ =~= base + seq![int_to_dec(
                        contract@.combo_legs.len() as int)]
                        + legs_brief(contract@.combo_legs.subrange(0, 0)));
                }
                while li < contract.combo_legs.len()
                    invariant
                        0 <= li <= contract.combo_legs@.len(),
                        contract.combo_legs@.len() <= i32::MAX,
                        params@ == base + seq![int_to_dec(contract@.combo_legs.len() as int)]
                            + legs_brief(contract@.combo_legs.subrange(0, li as int)),
                    decreases contract.combo_legs@.len() - li,
                {
                    let leg = &contract.combo_legs[li];
                    params.add_int(leg.con_id);
                    params.add_int(leg.ratio);
                    params.add_string(leg.action.as_str());
                    params.add_string(leg.exchange.as_str());
                    proof {
                        lemma_legs_brief_push(contract@.combo_legs.subrange(0, li as int),
                            contract@.combo_legs[li as int]);
                        assert(contract@.combo_legs.subrange(0, li as int).push(
                            contract@.combo_legs[li as int])
                            =~= contract@.combo_legs.subrange(0, li + 1));
                        assert(params@ =~= base + seq![int_to_dec(
                            contract@.combo_legs.len() as int)]
                            + legs_brief(contract@.combo_legs.subrange(0, li + 1)));
                    }
                    li = li + 1;
                }
                proof {
                    assert(contract@.combo_legs.subrange(0,
                        contract@.combo_legs.len() as int) =~= contract@.combo_legs);
                    assert(params@ =~= base + legs_brief_block(contract@.combo_legs));
                }
            }
        }
        if self.server_version >= crate::min_server_version::DELTA_NEUTRAL {
        match &contract.delta_neutral_contract {
                Some(dn) => {
                    params.add_bool(true);
                    params.add_int(dn.con_id);
                    params.add_double(&dn.delta);
                    params.add_double(&dn.price);
                },
                None => {
                    params.add_bool(false);
                },
            }
        }
        if self.server_version >= 31 {
            params.add_string(generic_tick_list);
        }
        if self.server_version >= crate::min_server_version::SNAPSHOT_MKT_DATA {
            params.add_bool(snapshot);
        }
        if self.server_version >= crate::min_server_version::SMART_COMPONENTS {
            params.add_bool(regulatory_snapshot);
        }
        if self.server_version >= crate::min_server_version::LINKING {
            params.add_tag_value_vec(market_data_options);
        }
        proof {
            assert(params@ =~~= req_market_data_fields(self.server_version as int, req_id,
                contract, generic_tick_list, snapshot, regulatory_snapshot,
                market_data_options));
        }
        let fields = params.into_fields();
        fields
    }

    /// Builds a market-data request, validating the snapshot, the
    /// delta-neutral block, the contract id and the trading class against
    /// the negotiated server version; shortfalls warn through error
    /// events without refusing the request.
    pub fn req_market_data(&self, req_id: i32, contract: &Contract, generic_tick_list: &str, snapshot: bool, regulatory_snapshot: bool, market_data_options: &Vec<TagValue>) -> (r: RequestOutcome)
        requires
            contract.combo_legs@.len() <= i32::MAX,
        ensures
            !self.is_connected ==> (r.message is None && r.events@.len() == 1
                && is_not_connected_event(r.events@[0])),
            self.is_connected ==> (r.message matches Some(msg)
                && msg.deep_view() == req_market_data_fields(self.server_version as int,
                    req_id, contract, generic_tick_list, snapshot, regulatory_snapshot,
                    market_data_options)),
            self.is_connected ==> (r.events@.len()
                == warn_count(snapshot && (self.server_version as int)
                    < crate::min_server_version::SNAPSHOT_MKT_DATA)
                + warn_count(contract.delta_neutral_contract is Some
                    && (self.server_version as int) < crate::min_server_version::DELTA_NEUTRAL)
                + warn_count(contract.con_id > 0 && (self.server_version as int)
                    < crate::min_server_version::CONTRACT_CONID)
                + warn_count(contract.trading_class@.len() == 0
                    && (self.server_version as int) < crate::min_server_version::TRADING_CLASS)
                && all_update_tws(r.events@, 0, req_id)),
    {
        let mut events: Vec<IncomingMessagesEnum> = Vec::new();
        if !self.is_connected {
            let ev = self.not_connected_event();
            events.push(ev);
            return RequestOutcome { message: None, events };
        }
        if snapshot {
            self.check_server_version(req_id, crate::min_server_version::SNAPSHOT_MKT_DATA,
                "It does not support snapshot market data", &mut events);
        }
        if contract.delta_neutral_contract.is_some() {
            self.check_server_version(req_id, crate::min_server_version::DELTA_NEUTRAL,
                "It does not support delta-neutral orders", &mut events);
        }
        if contract.con_id > 0 {
            self.check_server_version(req_id, crate::min_server_version::CONTRACT_CONID,
                "It does not support con_id parameter", &mut events);
        }
        if contract.trading_class.as_str().is_empty() {
            self.check_server_version(req_id, crate::min_server_version::TRADING_CLASS,
                "It does not support trading class parameter in req_market_data",
                &mut events);
        }
        let msg = self.req_market_data_message(req_id, contract, generic_tick_list, snapshot,
            regulatory_snapshot, market_data_options);
        RequestOutcome { message: Some(msg), events }
    }

    /// Builds an account-summary request over the full default tag set.
    pub fn req_account_summary(&self, req_id: i32) -> (r: RequestOutcome)
        ensures
            !self.is_connected ==> (r.message is None && r.events@.len() == 1
                && is_not_connected_event(r.events@[0])),
            self.is_connected && (self.server_version as int) < crate::min_server_version::ACCT_SUMMARY
                ==> r.message is None,
            self.is_connected && (self.server_version as int) >= crate::min_server_version::ACCT_SUMMARY
                ==> (r.message matches Some(msg)
                && msg.deep_view() == (seq![int_to_dec((crate::outgoing_messages::REQUEST_ACCOUNT_SUMMARY) as int), int_to_dec((1) as int), int_to_dec((req_id) as int), ("All")@]
                    + seq![("AccountType,NetLiquidation,TotalCashValue,SettledCash,AccruedCash,BuyingPower,EquityWithLoanValue,PreviousEquityWithLoanValue,GrossPositionValue,ReqTEquity,ReqTMargin,SMA,InitMarginReq,MaintMarginReq,AvailableFunds,ExcessLiquidity,Cushion,FullInitMarginReq,FullMaintMarginReq,FullAvailableFunds,FullExcessLiquidity,LookAheadNextChange,LookAheadInitMarginReq ,LookAheadMaintMarginReq,LookAheadAvailableFunds,LookAheadExcessLiquidity,HighestSeverity,DayTradesRemaining,Leverage")@])),
            self.is_connected ==> (r.events@.len() == (0)
                && all_update_tws(r.events@, 0, req_id)),
    {
        let mut events: Vec<IncomingMessagesEnum> = Vec::new();
        if !self.is_connected {
            let ev = self.not_connected_event();
            events.push(ev);
            return RequestOutcome { message: None, events };
        }
        if self.server_version < crate::min_server_version::ACCT_SUMMARY {
            return RequestOutcome { message: None, events };
        }
        let mut params = ApiParameters::new();
        params.add_int(crate::outgoing_messages::REQUEST_ACCOUNT_SUMMARY);
        params.add_int(1);
        params.add_int(req_id);
        params.add_string("All");
        params.add_string("AccountType,NetLiquidation,TotalCashValue,SettledCash,AccruedCash,BuyingPower,EquityWithLoanValue,PreviousEquityWithLoanValue,GrossPositionValue,ReqTEquity,ReqTMargin,SMA,InitMarginReq,MaintMarginReq,AvailableFunds,ExcessLiquidity,Cushion,FullInitMarginReq,FullMaintMarginReq,FullAvailableFunds,FullExcessLiquidity,LookAheadNextChange,LookAheadInitMarginReq ,LookAheadMaintMarginReq,LookAheadAvailableFunds,LookAheadExcessLiquidity,HighestSeverity,DayTradesRemaining,Leverage");
        proof {
            assert(params@ =~~= (seq![int_to_dec((crate::outgoing_messages::REQUEST_ACCOUNT_SUMMARY) as int), int_to_dec((1) as int), int_to_dec((req_id) as int), ("All")@]
                    + seq![("AccountType,NetLiquidation,TotalCashValue,SettledCash,AccruedCash,BuyingPower,EquityWithLoanValue,PreviousEquityWithLoanValue,GrossPositionValue,ReqTEquity,ReqTMargin,SMA,InitMarginReq,MaintMarginReq,AvailableFunds,ExcessLiquidity,Cushion,FullInitMarginReq,FullMaintMarginReq,FullAvailableFunds,FullExcessLiquidity,LookAheadNextChange,LookAheadInitMarginReq ,LookAheadMaintMarginReq,LookAheadAvailableFunds,LookAheadExcessLiquidity,HighestSeverity,DayTradesRemaining,Leverage")@]));
        }
        let fields = params.into_fields();
        proof {
            assert(fields.deep_view() =~~= (seq![int_to_dec((crate::outgoing_messages::REQUEST_ACCOUNT_SUMMARY) as int), int_to_dec((1) as int), int_to_dec((req_id) as int), ("All")@]
                    + seq![("AccountType,NetLiquidation,TotalCashValue,SettledCash,AccruedCash,BuyingPower,EquityWithLoanValue,PreviousEquityWithLoanValue,GrossPositionValue,ReqTEquity,ReqTMargin,SMA,InitMarginReq,MaintMarginReq,AvailableFunds,ExcessLiquidity,Cushion,FullInitMarginReq,FullMaintMarginReq,FullAvailableFunds,FullExcessLiquidity,LookAheadNextChange,LookAheadInitMarginReq ,LookAheadMaintMarginReq,LookAheadAvailableFunds,LookAheadExcessLiquidity,HighestSeverity,DayTradesRemaining,Leverage")@]));
        }
        RequestOutcome { message: Some(fields), events }
    }

    /// Builds a global order cancel.
    pub fn req_global_cancel(&self) -> (r: RequestOutcome)
        ensures
            !self.is_connected ==> (r.message is None && r.events@.len() == 1
                && is_not_connected_event(r.events@[0])),
            self.is_connected ==> (r.message matches Some(msg)
                && msg.deep_view() == (seq![int_to_dec((crate::outgoing_messages::REQUEST_GLOBAL_CANCEL) as int)]
                    + seq![int_to_dec((1) as int)])),
            self.is_connected ==> (r.events@.len() == (warn_count((self.server_version as int) < crate::min_server_version::REQ_GLOBAL_CANCEL))
                && all_update_tws(r.events@, 0, 7)),
    {
        let mut events: Vec<IncomingMessagesEnum> = Vec::new();
        if !self.is_connected {
            let ev = self.not_connected_event();
            events.push(ev);
            return RequestOutcome { message: None, events };
        }
        self.check_server_version(7, crate::min_server_version::REQ_GLOBAL_CANCEL,
            "It does not support global cancel requests.", &mut events);
        let mut params = ApiParameters::new();
        params.add_int(crate::outgoing_messages::REQUEST_GLOBAL_CANCEL);
        params.add_int(1);
        proof {
            assert(params@ =~~= (seq![int_to_dec((crate::outgoing_messages::REQUEST_GLOBAL_CANCEL) as int)]
                    + seq![int_to_dec((1) as int)]));
        }
        let fields = params.into_fields();
        proof {
            assert(fields.deep_view() =~~= (seq![int_to_dec((crate::outgoing_messages::REQUEST_GLOBAL_CANCEL) as int)]
                    + seq![int_to_dec((1) as int)]));
        }
        RequestOutcome { message: Some(fields), events }
    }

    /// Builds a cancel for one order.
    pub fn req_cancel_order(&self, req_id: i32, order_id: i32) -> (r: RequestOutcome)
        ensures
            !self.is_connected ==> (r.message is None && r.events@.len() == 1
                && is_not_connected_event(r.events@[0])),
            self.is_connected ==> (r.message matches Some(msg)
                && msg.deep_view() == (seq![int_to_dec((crate::outgoing_messages::CANCEL_ORDER) as int), int_to_dec((2) as int)]
                    + seq![int_to_dec((order_id) as int)])),
            self.is_connected ==> (r.events@.len() == (0)
                && all_update_tws(r.events@, 0, req_id)),
    {
        let mut events: Vec<IncomingMessagesEnum> = Vec::new();
        if !self.is_connected {
            let ev = self.not_connected_event();
            events.push(ev);
            return RequestOutcome { message: None, events };
        }
        let mut params = ApiParameters::new();
        params.add_int(crate::outgoing_messages::CANCEL_ORDER);
        params.add_int(2);
        params.add_int(order_id);
        proof {
            assert(params@ =~~= (seq![int_to_dec((crate::outgoing_messages::CANCEL_ORDER) as int), int_to_dec((2) as int)]
                    + seq![int_to_dec((order_id) as int)]));
        }
        let fields = params.into_fields();
        proof {
            assert(fields.deep_view() =~~= (seq![int_to_dec((crate::outgoing_messages::CANCEL_ORDER) as int), int_to_dec((2) as int)]
                    + seq![int_to_dec((order_id) as int)]));
        }
        RequestOutcome { message: Some(fields), events }
    }

    /// Builds a profit-and-loss subscription.
    pub fn req_pnl(&self, req_id: i32, account: &str, model_code: &str) -> (r: RequestOutcome)
        ensures
            !self.is_connected ==> (r.message is None && r.events@.len() == 1
                && is_not_connected_event(r.events@[0])),
            self.is_connected ==> (r.message matches Some(msg)
                && msg.deep_view() == (seq![int_to_dec((crate::outgoing_messages::REQ_PN_L) as int), int_to_dec((req_id) as int), account@]
                    + seq![model_code@])),
            self.is_connected ==> (r.events@.len() == (warn_count((self.server_version as int) < crate::min_server_version::PNL))
                && all_update_tws(r.events@, 0, req_id)),
    {
        let mut events: Vec<IncomingMessagesEnum> = Vec::new();
        if !self.is_connected {
            let ev = self.not_connected_event();
            events.push(ev);
            return RequestOutcome { message: None, events };
        }
        self.check_server_version(req_id, crate::min_server_version::PNL, "It does not support PNL request",
            &mut events);
        let mut params = ApiParameters::new();
        params.add_int(crate::outgoing_messages::REQ_PN_L);
        params.add_int(req_id);
        params.add_string(account);
        params.add_string(model_code);
        proof {
            assert(params@ =~~= (seq![int_to_dec((crate::outgoing_messages::REQ_PN_L) as int), int_to_dec((req_id) as int), account@]
                    + seq![model_code@]));
        }
        let fields = params.into_fields();
        proof {
            assert(fields.deep_view() =~~= (seq![int_to_dec((crate::outgoing_messages::REQ_PN_L) as int), int_to_dec((req_id) as int), account@]
                    + seq![model_code@]));
        }
        RequestOutcome { message: Some(fields), events }
    }

    /// Builds a profit-and-loss cancel.
    pub fn cancel_pnl(&self, req_id: i32) -> (r: RequestOutcome)
        ensures
            !self.is_connected ==> (r.message is None && r.events@.len() == 1
                && is_not_connected_event(r.events@[0])),
            self.is_connected ==> (r.message matches Some(msg)
                && msg.deep_view() == (seq![int_to_dec((crate::outgoing_messages::CANCEL_PN_L) as int)]
                    + seq![int_to_dec((req_id) as int)])),
            self.is_connected ==> (r.events@.len() == (warn_count((self.server_version as int) < crate::min_server_version::PNL))
                && all_update_tws(r.events@, 0, req_id)),
    {
        let mut events: Vec<IncomingMessagesEnum> = Vec::new();
        if !self.is_connected {
            let ev = self.not_connected_event();
            events.push(ev);
            return RequestOutcome { message: None, events };
        }
        self.check_server_version(req_id, crate::min_server_version::PNL, "It does not support PNL request",
            &mut events);
        let mut params = ApiParameters::new();
        params.add_int(crate::outgoing_messages::CANCEL_PN_L);
        params.add_int(req_id);
        proof {
            assert(params@ =~~= (seq![int_to_dec((crate::outgoing_messages::CANCEL_PN_L) as int)]
                    + seq![int_to_dec((req_id) as int)]));
        }
        let fields = params.into_fields();
        proof {
            assert(fields.deep_view() =~~= (seq![int_to_dec((crate::outgoing_messages::CANCEL_PN_L) as int)]
                    + seq![int_to_dec((req_id) as int)]));
        }
        RequestOutcome { message: Some(fields), events }
    }

    /// Builds a scanner-subscription cancel.
    pub fn cancel_scanner_subscription(&self, req_id: i32) -> (r: RequestOutcome)
        ensures
            !self.is_connected ==> (r.message is None && r.events@.len() == 1
                && is_not_connected_event(r.events@[0])),
            self.is_connected ==> (r.message matches Some(msg)
                && msg.deep_view() == (seq![int_to_dec((crate::outgoing_messages::CANCEL_SCANNER_SUBSCRIPTION) as int), int_to_dec((1) as int)]
                    + seq![int_to_dec((req_id) as int)])),
            self.is_connected ==> (r.events@.len() == (0)
                && all_update_tws(r.events@, 0, req_id)),
    {
        let mut events: Vec<IncomingMessagesEnum> = Vec::new();
        if !self.is_connected {
            let ev = self.not_connected_event();
            events.push(ev);
            return RequestOutcome { message: None, events };
        }
        let mut params = ApiParameters::new();
        params.add_int(crate::outgoing_messages::CANCEL_SCANNER_SUBSCRIPTION);
        params.add_int(1);
        params.add_int(req_id);
        proof {
            assert(params@ =~~= (seq![int_to_dec((crate::outgoing_messages::CANCEL_SCANNER_SUBSCRIPTION) as int), int_to_dec((1) as int)]
                    + seq![int_to_dec((req_id) as int)]));
        }
        let fields = params.into_fields();
        proof {
            assert(fields.deep_view() =~~= (seq![int_to_dec((crate::outgoing_messages::CANCEL_SCANNER_SUBSCRIPTION) as int), int_to_dec((1) as int)]
                    + seq![int_to_dec((req_id) as int)]));
        }
        RequestOutcome { message: Some(fields), events }
    }

    /// Builds a tick-by-tick cancel.
    pub fn cancel_tick_subscription(&self, req_id: i32) -> (r: RequestOutcome)
        ensures
            !self.is_connected ==> (r.message is None && r.events@.len() == 1
                && is_not_connected_event(r.events@[0])),
            self.is_connected ==> (r.message matches Some(msg)
                && msg.deep_view() == (seq![int_to_dec((crate::outgoing_messages::CANCEL_TICK_BY_TICK_DATA) as int)]
                    + seq![int_to_dec((req_id) as int)])),
            self.is_connected ==> (r.events@.len() == (0)
                && all_update_tws(r.events@, 0, req_id)),
    {
        let mut events: Vec<IncomingMessagesEnum> = Vec::new();
        if !self.is_connected {
            let ev = self.not_connected_event();
            events.push(ev);
            return RequestOutcome { message: None, events };
        }
        let mut params = ApiParameters::new();
        params.add_int(crate::outgoing_messages::CANCEL_TICK_BY_TICK_DATA);
        params.add_int(req_id);
        proof {
            assert(params@ =~~= (seq![int_to_dec((crate::outgoing_messages::CANCEL_TICK_BY_TICK_DATA) as int)]
                    + seq![int_to_dec((req_id) as int)]));
        }
        let fields = params.into_fields();
        proof {
            assert(fields.deep_view() =~~= (seq![int_to_dec((crate::outgoing_messages::CANCEL_TICK_BY_TICK_DATA) as int)]
                    + seq![int_to_dec((req_id) as int)]));
        }
        RequestOutcome { message: Some(fields), events }
    }

    /// Builds a real-time bars request.
    #[verifier::rlimit(100)]
    #[verifier::spinoff_prover]
    pub fn req_real_time_bars(&self, req_id: i32, contract: &Contract, bar_size: i32, what_to_show: &str, use_rth: bool, real_time_bar_options: &Vec<TagValue>) -> (r: RequestOutcome)
        ensures
            !self.is_connected ==> (r.message is None && r.events@.len() == 1
                && is_not_connected_event(r.events@[0])),
            self.is_connected ==> (r.message matches Some(msg)
                && msg.deep_view() == (seq![int_to_dec((crate::outgoing_messages::REQUEST_REAL_TIME_BARS) as int), int_to_dec((3) as int), int_to_dec((req_id) as int)]
                    + (if self.server_version as int >= crate::min_server_version::TRADING_CLASS { seq![int_to_dec((contract.con_id) as int)] } else { Seq::<Seq<char>>::empty() })
                    + seq![contract.symbol@, contract.sec_type@, contract.last_trade_date_or_contract_month@, dbl_plain_text(contract.strike@), contract.right@, contract.multiplier@, contract.exchange@, contract.primary_exchange@, contract.currency@, contract.local_symbol@]
                    + (if self.server_version as int >= crate::min_server_version::TRADING_CLASS { seq![contract.trading_class@] } else { Seq::<Seq<char>>::empty() })
                    + seq![int_to_dec((bar_size) as int), what_to_show@, bool_text(use_rth)]
                    + (if self.server_version as int >= crate::min_server_version::LINKING { seq![tag_values_text(real_time_bar_options@.map_values(|t: TagValue| t@))] } else { Seq::<Seq<char>>::empty() }))),
            self.is_connected ==> (r.events@.len() == (warn_count((self.server_version as int) < crate::min_server_version::REAL_TIME_BARS)
                + warn_count((contract.trading_class@.len() > 0 || contract.con_id > 0)
                    && (self.server_version as int) < crate::min_server_version::TRADING_CLASS))
                && all_update_tws(r.events@, 0, req_id)),
    {
        let mut events: Vec<IncomingMessagesEnum> = Vec::new();
        if !self.is_connected {
            let ev = self.not_connected_event();
            events.push(ev);
            return RequestOutcome { message: None, events };
        }
        self.check_server_version(req_id, crate::min_server_version::REAL_TIME_BARS,
            "It does not support real time bars.", &mut events);
        if !contract.trading_class.as_str().is_empty() || contract.con_id > 0 {
            self.check_server_version(req_id, crate::min_server_version::TRADING_CLASS,
                "It does not support ConId nor TradingClass parameters in reqRealTimeBars.",
                &mut events);
        }
        let mut params = ApiParameters::new();
        params.add_int(crate::outgoing_messages::REQUEST_REAL_TIME_BARS);
        params.add_int(3);
        params.add_int(req_id);
        if self.server_version >= crate::min_server_version::TRADING_CLASS {
            params.add_int(contract.con_id);
        }
        params.add_string(contract.symbol.as_str());
        params.add_string(contract.sec_type.as_str());
        params.add_string(contract.last_trade_date_or_contract_month.as_str());
        params.add_double(&contract.strike);
        params.add_string(contract.right.as_str());
        params.add_string(contract.multiplier.as_str());
        params.add_string(contract.exchange.as_str());
        params.add_string(contract.primary_exchange.as_str());
        params.add_string(contract.currency.as_str());
        params.add_string(contract.local_symbol.as_str());
        if self.server_version >= crate::min_server_version::TRADING_CLASS {
            params.add_string(contract.trading_class.as_str());
        }
        params.add_int(bar_size);
        params.add_string(what_to_show);
        params.add_bool(use_rth);
        if self.server_version >= crate::min_server_version::LINKING {
            params.add_tag_value_vec(real_time_bar_options);
        }
        proof {
            assert(params@ =~~= (seq![int_to_dec((crate::outgoing_messages::REQUEST_REAL_TIME_BARS) as int), int_to_dec((3) as int), int_to_dec((req_id) as int)]
                    + (if self.server_version as int >= crate::min_server_version::TRADING_CLASS { seq![int_to_dec((contract.con_id) as int)] } else { Seq::<Seq<char>>::empty() })
                    + seq![contract.symbol@, contract.sec_type@, contract.last_trade_date_or_contract_month@, dbl_plain_text(contract.strike@), contract.right@, contract.multiplier@, contract.exchange@, contract.primary_exchange@, contract.currency@, contract.local_symbol@]
                    + (if self.server_version as int >= crate::min_server_version::TRADING_CLASS { seq![contract.trading_class@] } else { Seq::<Seq<char>>::empty() })
                    + seq![int_to_dec((bar_size) as int), what_to_show@, bool_text(use_rth)]
                    + (if self.server_version as int >= crate::min_server_version::LINKING { seq![tag_values_text(real_time_bar_options@.map_values(|t: TagValue| t@))] } else { Seq::<Seq<char>>::empty() })));
        }
        let fields = params.into_fields();
        proof {
            assert(fields.deep_view() =~~= (seq![int_to_dec((crate::outgoing_messages::REQUEST_REAL_TIME_BARS) as int), int_to_dec((3) as int), int_to_dec((req_id) as int)]
                    + (if self.server_version as int >= crate::min_server_version::TRADING_CLASS { seq![int_to_dec((contract.con_id) as int)] } else { Seq::<Seq<char>>::empty() })
                    + seq![contract.symbol@, contract.sec_type@, contract.last_trade_date_or_contract_month@, dbl_plain_text(contract.strike@), contract.right@, contract.multiplier@, contract.exchange@, contract.primary_exchange@, contract.currency@, contract.local_symbol@]
                    + (if self.server_version as int >= crate::min_server_version::TRADING_CLASS { seq![contract.trading_class@] } else { Seq::<Seq<char>>::empty() })
                    + seq![int_to_dec((bar_size) as int), what_to_show@, bool_text(use_rth)]
                    + (if self.server_version as int >= crate::min_server_version::LINKING { seq![tag_values_text(real_time_bar_options@.map_values(|t: TagValue| t@))] } else { Seq::<Seq<char>>::empty() })));
        }
        RequestOutcome { message: Some(fields), events }
    }

    /// Builds a tick-by-tick data request.
    #[verifier::rlimit(100)]
    #[verifier::spinoff_prover]
    pub fn req_tick_by_tick(&self, req_id: i32, contract: &Contract, tick_type: &str, number_of_ticks: i32, ignore_size: bool) -> (r: RequestOutcome)
        ensures
            !self.is_connected ==> (r.message is None && r.events@.len() == 1
                && is_not_connected_event(r.events@[0])),
            self.is_connected ==> (r.message matches Some(msg)
                && msg.deep_view() == (seq![int_to_dec((crate::outgoing_messages::REQ_TICK_BY_TICK_DATA) as int), int_to_dec((req_id) as int), int_to_dec((contract.con_id) as int), contract.symbol@, contract.sec_type@, contract.last_trade_date_or_contract_month@, dbl_plain_text(contract.strike@), contract.right@, contract.multiplier@, contract.exchange@, contract.primary_exchange@, contract.currency@, contract.local_symbol@, contract.trading_class@, tick_type@]
                    + (if self.server_version as int >= crate::min_server_version::TICK_BY_TICK_IGNORE_SIZE { seq![int_to_dec((number_of_ticks) as int)] } else { Seq::<Seq<char>>::empty() })
                    + (if self.server_version as int >= crate::min_server_version::TICK_BY_TICK_IGNORE_SIZE { seq![bool_text(ignore_size)] } else { Seq::<Seq<char>>::empty() }))),
            self.is_connected ==> (r.events@.len() == (warn_count((self.server_version as int) < crate::min_server_version::TICK_BY_TICK)
                + warn_count((number_of_ticks != 0 || ignore_size)
                    && (self.server_version as int) < crate::min_server_version::TICK_BY_TICK_IGNORE_SIZE))
                && all_update_tws(r.events@, 0, req_id)),
    {
        let mut events: Vec<IncomingMessagesEnum> = Vec::new();
        if !self.is_connected {
            let ev = self.not_connected_event();
            events.push(ev);
            return RequestOutcome { message: None, events };
        }
        self.check_server_version(req_id, crate::min_server_version::TICK_BY_TICK,
            "It does not support tick-by-tick request", &mut events);
        if number_of_ticks != 0 || ignore_size {
            self.check_server_version(req_id, crate::min_server_version::TICK_BY_TICK_IGNORE_SIZE,
                "It does not support ignoreSize and numberOfTicks parameters in tick-by-tick requests.",
                &mut events);
        }
        let mut params = ApiParameters::new();
        params.add_int(crate::outgoing_messages::REQ_TICK_BY_TICK_DATA);
        params.add_int(req_id);
        params.add_int(contract.con_id);
        params.add_string(contract.symbol.as_str());
        params.add_string(contract.sec_type.as_str());
        params.add_string(contract.last_trade_date_or_contract_month.as_str());
        params.add_double(&contract.strike);
        params.add_string(contract.right.as_str());
        params.add_string(contract.multiplier.as_str());
        params.add_string(contract.exchange.as_str());
        params.add_string(contract.primary_exchange.as_str());
        params.add_string(contract.currency.as_str());
        params.add_string(contract.local_symbol.as_str());
        params.add_string(contract.trading_class.as_str());
        params.add_string(tick_type);
        if self.server_version >= crate::min_server_version::TICK_BY_TICK_IGNORE_SIZE {
            params.add_int(number_of_ticks);
        }
        if self.server_version >= crate::min_server_version::TICK_BY_TICK_IGNORE_SIZE {
            params.add_bool(ignore_size);
        }
        proof {
            assert(params@ =~~= (seq![int_to_dec((crate::outgoing_messages::REQ_TICK_BY_TICK_DATA) as int), int_to_dec((req_id) as int), int_to_dec((contract.con_id) as int), contract.symbol@, contract.sec_type@, contract.last_trade_date_or_contract_month@, dbl_plain_text(contract.strike@), contract.right@, contract.multiplier@, contract.exchange@, contract.primary_exchange@, contract.currency@, contract.local_symbol@, contract.trading_class@, tick_type@]
                    + (if self.server_version as int >= crate::min_server_version::TICK_BY_TICK_IGNORE_SIZE { seq![int_to_dec((number_of_ticks) as int)] } else { Seq::<Seq<char>>::empty() })
                    + (if self.server_version as int >= crate::min_server_version::TICK_BY_TICK_IGNORE_SIZE { seq![bool_text(ignore_size)] } else { Seq::<Seq<char>>::empty() })));
        }
        let fields = params.into_fields();
        proof {
            assert(fields.deep_view() =~~= (seq![int_to_dec((crate::outgoing_messages::REQ_TICK_BY_TICK_DATA) as int), int_to_dec((req_id) as int), int_to_dec((contract.con_id) as int), contract.symbol@, contract.sec_type@, contract.last_trade_date_or_contract_month@, dbl_plain_text(contract.strike@), contract.right@, contract.multiplier@, contract.exchange@, contract.primary_exchange@, contract.currency@, contract.local_symbol@, contract.trading_class@, tick_type@]
                    + (if self.server_version as int >= crate::min_server_version::TICK_BY_TICK_IGNORE_SIZE { seq![int_to_dec((number_of_ticks) as int)] } else { Seq::<Seq<char>>::empty() })
                    + (if self.server_version as int >= crate::min_server_version::TICK_BY_TICK_IGNORE_SIZE { seq![bool_text(ignore_size)] } else { Seq::<Seq<char>>::empty() })));
        }
        RequestOutcome { message: Some(fields), events }
    }

    /// Builds a scanner subscription with its filter set.
    #[verifier::rlimit(100)]
    #[verifier::spinoff_prover]
    pub fn req_scanner_subscription(&self, req_id: i32, subscription: &ScannerSubscription) -> (r: RequestOutcome)
        ensures
            !self.is_connected ==> (r.message is None && r.events@.len() == 1
                && is_not_connected_event(r.events@[0])),
            self.is_connected ==> (r.message matches Some(msg)
                && msg.deep_view() == (seq![int_to_dec((crate::outgoing_messages::REQUEST_SCANNER_SUBSCRIPTION) as int)]
                    + (if (self.server_version as int) < crate::min_server_version::SCANNER_GENERIC_OPTS { seq![int_to_dec((4) as int)] } else { Seq::<Seq<char>>::empty() })
                    + seq![int_to_dec((req_id) as int), (if (subscription.number_of_rows) == i32::MAX { Seq::<char>::empty() } else { int_to_dec((subscription.number_of_rows) as int) }), subscription.instrument@, subscription.location_code@, subscription.scan_code@, dbl_max_text(subscription.above_price@), dbl_max_text(subscription.below_price@), (if (subscription.above_volume) == i32::MAX { Seq::<char>::empty() } else { int_to_dec((subscription.above_volume) as int) }), dbl_max_text(subscription.market_cap_above@), dbl_max_text(subscription.market_cap_below@), subscription.moody_rating_above@, subscription.moody_rating_below@, subscription.sp_rating_above@, subscription.sp_rating_below@, subscription.maturity_date_above@, subscription.maturity_date_below@, dbl_max_text(subscription.coupon_rate_above@), dbl_max_text(subscription.coupon_rate_below@), bool_text(subscription.exclude_convertible)]
                    + (if self.server_version as int >= 25 { seq![(if (subscription.average_option_volume_above) == i32::MAX { Seq::<char>::empty() } else { int_to_dec((subscription.average_option_volume_above) as int) })] } else { Seq::<Seq<char>>::empty() })
                    + (if self.server_version as int >= 25 { seq![subscription.scanner_setting_pairs@] } else { Seq::<Seq<char>>::empty() })
                    + (if self.server_version as int >= 27 { seq![subscription.stock_type_filter@] } else { Seq::<Seq<char>>::empty() })
                    + (if self.server_version as int >= crate::min_server_version::SCANNER_GENERIC_OPTS { seq![("")@] } else { Seq::<Seq<char>>::empty() })
                    + (if self.server_version as int >= crate::min_server_version::LINKING { seq![("")@] } else { Seq::<Seq<char>>::empty() }))),
            self.is_connected ==> (r.events@.len() == (0)
                && all_update_tws(r.events@, 0, req_id)),
    {
        let mut events: Vec<IncomingMessagesEnum> = Vec::new();
        if !self.is_connected {
            let ev = self.not_connected_event();
            events.push(ev);
            return RequestOutcome { message: None, events };
        }
        let mut params = ApiParameters::new();
        params.add_int(crate::outgoing_messages::REQUEST_SCANNER_SUBSCRIPTION);
        if self.server_version < crate::min_server_version::SCANNER_GENERIC_OPTS {
            params.add_int(4);
        }
        params.add_int(req_id);
        params.add_int_max(subscription.number_of_rows);
        params.add_string(subscription.instrument.as_str());
        params.add_string(subscription.location_code.as_str());
        params.add_string(subscription.scan_code.as_str());
        params.add_double_max(&subscription.above_price);
        params.add_double_max(&subscription.below_price);
        params.add_int_max(subscription.above_volume);
        params.add_double_max(&subscription.market_cap_above);
        params.add_double_max(&subscription.market_cap_below);
        params.add_string(subscription.moody_rating_above.as_str());
        params.add_string(subscription.moody_rating_below.as_str());
        params.add_string(subscription.sp_rating_above.as_str());
        params.add_string(subscription.sp_rating_below.as_str());
        params.add_string(subscription.maturity_date_above.as_str());
        params.add_string(subscription.maturity_date_below.as_str());
        params.add_double_max(&subscription.coupon_rate_above);
        params.add_double_max(&subscription.coupon_rate_below);
        params.add_bool(subscription.exclude_convertible);
        if self.server_version >= 25 {
            params.add_int_max(subscription.average_option_volume_above);
        }
        if self.server_version >= 25 {
            params.add_string(subscription.scanner_setting_pairs.as_str());
        }
        if self.server_version >= 27 {
            params.add_string(subscription.stock_type_filter.as_str());
        }
        if self.server_version >= crate::min_server_version::SCANNER_GENERIC_OPTS {
            params.add_string("");
        }
        if self.server_version >= crate::min_server_version::LINKING {
            params.add_string("");
        }
        proof {
            assert(params@ =~~= (seq![int_to_dec((crate::outgoing_messages::REQUEST_SCANNER_SUBSCRIPTION) as int)]
                    + (if (self.server_version as int) < crate::min_server_version::SCANNER_GENERIC_OPTS { seq![int_to_dec((4) as int)] } else { Seq::<Seq<char>>::empty() })
                    + seq![int_to_dec((req_id) as int), (if (subscription.number_of_rows) == i32::MAX { Seq::<char>::empty() } else { int_to_dec((subscription.number_of_rows) as int) }), subscription.instrument@, subscription.location_code@, subscription.scan_code@, dbl_max_text(subscription.above_price@), dbl_max_text(subscription.below_price@), (if (subscription.above_volume) == i32::MAX { Seq::<char>::empty() } else { int_to_dec((subscription.above_volume) as int) }), dbl_max_text(subscription.market_cap_above@), dbl_max_text(subscription.market_cap_below@), subscription.moody_rating_above@, subscription.moody_rating_below@, subscription.sp_rating_above@, subscription.sp_rating_below@, subscription.maturity_date_above@, subscription.maturity_date_below@, dbl_max_text(subscription.coupon_rate_above@), dbl_max_text(subscription.coupon_rate_below@), bool_text(subscription.exclude_convertible)]
                    + (if self.server_version as int >= 25 { seq![(if (subscription.average_option_volume_above) == i32::MAX { Seq::<char>::empty() } else { int_to_dec((subscription.average_option_volume_above) as int) })] } else { Seq::<Seq<char>>::empty() })
                    + (if self.server_version as int >= 25 { seq![subscription.scanner_setting_pairs@] } else { Seq::<Seq<char>>::empty() })
                    + (if self.server_version as int >= 27 { seq![subscription.stock_type_filter@] } else { Seq::<Seq<char>>::empty() })
                    + (if self.server_version as int >= crate::min_server_version::SCANNER_GENERIC_OPTS { seq![("")@] } else { Seq::<Seq<char>>::empty() })
                    + (if self.server_version as int >= crate::min_server_version::LINKING { seq![("")@] } else { Seq::<Seq<char>>::empty() })));
        }
        let fields = params.into_fields();
        proof {
            assert(fields.deep_view() =~~= (seq![int_to_dec((crate::outgoing_messages::REQUEST_SCANNER_SUBSCRIPTION) as int)]
                    + (if (self.server_version as int) < crate::min_server_version::SCANNER_GENERIC_OPTS { seq![int_to_dec((4) as int)] } else { Seq::<Seq<char>>::empty() })
                    + seq![int_to_dec((req_id) as int), (if (subscription.number_of_rows) == i32::MAX { Seq::<char>::empty() } else { int_to_dec((subscription.number_of_rows) as int) }), subscription.instrument@, subscription.location_code@, subscription.scan_code@, dbl_max_text(subscription.above_price@), dbl_max_text(subscription.below_price@), (if (subscription.above_volume) == i32::MAX { Seq::<char>::empty() } else { int_to_dec((subscription.above_volume) as int) }), dbl_max_text(subscription.market_cap_above@), dbl_max_text(subscription.market_cap_below@), subscription.moody_rating_above@, subscription.moody_rating_below@, subscription.sp_rating_above@, subscription.sp_rating_below@, subscription.maturity_date_above@, subscription.maturity_date_below@, dbl_max_text(subscription.coupon_rate_above@), dbl_max_text(subscription.coupon_rate_below@), bool_text(subscription.exclude_convertible)]
                    + (if self.server_version as int >= 25 { seq![(if (subscription.average_option_volume_above) == i32::MAX { Seq::<char>::empty() } else { int_to_dec((subscription.average_option_volume_above) as int) })] } else { Seq::<Seq<char>>::empty() })
                    + (if self.server_version as int >= 25 { seq![subscription.scanner_setting_pairs@] } else { Seq::<Seq<char>>::empty() })
                    + (if self.server_version as int >= 27 { seq![subscription.stock_type_filter@] } else { Seq::<Seq<char>>::empty() })
                    + (if self.server_version as int >= crate::min_server_version::SCANNER_GENERIC_OPTS { seq![("")@] } else { Seq::<Seq<char>>::empty() })
                    + (if self.server_version as int >= crate::min_server_version::LINKING { seq![("")@] } else { Seq::<Seq<char>>::empty() })));
        }
        RequestOutcome { message: Some(fields), events }
    }

    /// Builds a contract-details request. On servers between the linking
    /// and primary-exchange eras, a routed exchange is combined with the
    /// primary exchange into one `exchange:primary` field.
    #[verifier::rlimit(100)]
    #[verifier::spinoff_prover]
    pub fn req_contract_details(&self, req_id: i32, contract: &Contract) -> (r: RequestOutcome)
        ensures
            !self.is_connected ==> (r.message is None && r.events@.len() == 1
                && is_not_connected_event(r.events@[0])),
            self.is_connected ==> (r.message matches Some(msg)
                && msg.deep_view() == (seq![
                    int_to_dec((crate::outgoing_messages::REQUEST_CONTRACT_DATA) as int),
                    int_to_dec(8),
                ]
                    + (if self.server_version as int >= crate::min_server_version::CONTRACT_DATA_CHAIN { seq![int_to_dec(req_id as int)] } else { Seq::<Seq<char>>::empty() })
                    + (if self.server_version as int >= crate::min_server_version::CONTRACT_CONID { seq![int_to_dec(contract.con_id as int)] } else { Seq::<Seq<char>>::empty() })
                    + seq![
                        contract.symbol@,
                        contract.sec_type@,
                        contract.last_trade_date_or_contract_month@,
                        dbl_plain_text(contract.strike@),
                        contract.right@,
                    ]
                    + (if self.server_version as int >= 15 { seq![contract.multiplier@] } else { Seq::<Seq<char>>::empty() })
                    + (if self.server_version as int >= crate::min_server_version::PRIMARYEXCH {
                        seq![contract.exchange@, contract.primary_exchange@]
                    } else if self.server_version as int >= crate::min_server_version::LINKING {
                        if contract.primary_exchange@.len() > 0 && (contract.exchange@
                            == "BEST"@ || contract.exchange@ == "SMART"@) {
                            seq![contract.exchange@ + ":"@ + contract.primary_exchange@]
                        } else {
                            seq![contract.exchange@]
                        }
                    } else {
                        Seq::<Seq<char>>::empty()
                    })
                    + seq![contract.currency@, contract.local_symbol@]
                    + (if self.server_version as int >= crate::min_server_version::TRADING_CLASS { seq![contract.trading_class@] } else { Seq::<Seq<char>>::empty() })
                    + (if self.server_version as int >= 31 { seq![bool_text(contract.include_expired)] } else { Seq::<Seq<char>>::empty() })
                    + (if self.server_version as int >= crate::min_server_version::SEC_ID_TYPE { seq![contract.sec_id_type@, contract.sec_id@] } else { Seq::<Seq<char>>::empty() }))),
            self.is_connected ==> (r.events@.len() == (warn_count((contract.sec_id_type@.len() > 0 || contract.sec_id@.len() > 0)
                    && (self.server_version as int) < crate::min_server_version::SEC_ID_TYPE)
                + warn_count(contract.trading_class@.len() > 0
                    && (self.server_version as int) < crate::min_server_version::TRADING_CLASS)
                + warn_count(contract.primary_exchange@.len() > 0
                    && (self.server_version as int) < crate::min_server_version::LINKING))
                && all_update_tws(r.events@, 0, req_id)),
    {
        let mut events: Vec<IncomingMessagesEnum> = Vec::new();
        if !self.is_connected {
            let ev = self.not_connected_event();
            events.push(ev);
            return RequestOutcome { message: None, events };
        }
        if !contract.sec_id_type.as_str().is_empty() || !contract.sec_id.as_str().is_empty() {
            self.check_server_version(req_id, crate::min_server_version::SEC_ID_TYPE,
                "It does not support secIdType not secId attributes", &mut events);
        }
        if !contract.trading_class.as_str().is_empty() {
            self.check_server_version(req_id, crate::min_server_version::TRADING_CLASS,
                "It does not support the TradingClass parameter when requesting contract details.",
                &mut events);
        }
        if !contract.primary_exchange.as_str().is_empty() {
            self.check_server_version(req_id, crate::min_server_version::LINKING,
                " It does not support PrimaryExch parameter when requesting contract details.",
                &mut events);
        }
        let mut params = ApiParameters::new();
        params.add_int(crate::outgoing_messages::REQUEST_CONTRACT_DATA);
        params.add_int(8);
        if self.server_version >= crate::min_server_version::CONTRACT_DATA_CHAIN {
            params.add_int(req_id);
        }
        if self.server_version >= crate::min_server_version::CONTRACT_CONID {
            params.add_int(contract.con_id);
        }
        params.add_string(contract.symbol.as_str());
        params.add_string(contract.sec_type.as_str());
        params.add_string(contract.last_trade_date_or_contract_month.as_str());
        params.add_double(&contract.strike);
        params.add_string(contract.right.as_str());
        if self.server_version >= 15 {
            params.add_string(contract.multiplier.as_str());
        }
        if self.server_version >= crate::min_server_version::PRIMARYEXCH {
            params.add_string(contract.exchange.as_str());
            params.add_string(contract.primary_exchange.as_str());
        } else if self.server_version >= crate::min_server_version::LINKING {
            let best = String::from_str("BEST");
            let smart = String::from_str("SMART");
            if !contract.primary_exchange.as_str().is_empty()
                && (contract.exchange.eq(&best) || contract.exchange.eq(&smart)) {
                let mut combined = contract.exchange.clone();
                combined.append(":");
                combined.append(contract.primary_exchange.as_str());
                proof {
                    reveal_strlit(":");
                    assert(combined@ =~= contract.exchange@ + ":"@
                        + contract.primary_exchange@);
                }
                params.add_string(combined.as_str());
            } else {
                params.add_string(contract.exchange.as_str());
            }
        }
        params.add_string(contract.currency.as_str());
        params.add_string(contract.local_symbol.as_str());
        if self.server_version >= crate::min_server_version::TRADING_CLASS {
            params.add_string(contract.trading_class.as_str());
        }
        if self.server_version >= 31 {
            params.add_bool(contract.include_expired);
        }
        if self.server_version >= crate::min_server_version::SEC_ID_TYPE {
            params.add_string(contract.sec_id_type.as_str());
            params.add_string(contract.sec_id.as_str());
        }
        let ghost target = seq![
            int_to_dec((crate::outgoing_messages::REQUEST_CONTRACT_DATA) as int),
            int_to_dec(8),
        ]
            + (if self.server_version as int >= crate::min_server_version::CONTRACT_DATA_CHAIN { seq![int_to_dec(req_id as int)] } else { Seq::<Seq<char>>::empty() })
            + (if self.server_version as int >= crate::min_server_version::CONTRACT_CONID { seq![int_to_dec(contract.con_id as int)] } else { Seq::<Seq<char>>::empty() })
            + seq![
                contract.symbol@,
                contract.sec_type@,
                contract.last_trade_date_or_contract_month@,
                dbl_plain_text(contract.strike@),
                contract.right@,
            ]
            + (if self.server_version as int >= 15 { seq![contract.multiplier@] } else { Seq::<Seq<char>>::empty() })
            + (if self.server_version as int >= crate::min_server_version::PRIMARYEXCH {
                seq![contract.exchange@, contract.primary_exchange@]
            } else if self.server_version as int >= crate::min_server_version::LINKING {
                if contract.primary_exchange@.len() > 0 && (contract.exchange@ == "BEST"@
                    || contract.exchange@ == "SMART"@) {
                    seq![contract.exchange@ + ":"@ + contract.primary_exchange@]
                } else {
                    seq![contract.exchange@]
                }
            } else {
                Seq::<Seq<char>>::empty()
            })
            + seq![contract.currency@, contract.local_symbol@]
            + (if self.server_version as int >= crate::min_server_version::TRADING_CLASS { seq![contract.trading_class@] } else { Seq::<Seq<char>>::empty() })
            + (if self.server_version as int >= 31 { seq![bool_text(contract.include_expired)] } else { Seq::<Seq<char>>::empty() })
            + (if self.server_version as int >= crate::min_server_version::SEC_ID_TYPE { seq![contract.sec_id_type@, contract.sec_id@] } else { Seq::<Seq<char>>::empty() });
        proof {
            assert(params@ =~~= target);
        }
        let fields = params.into_fields();
        proof {
            assert(fields.deep_view() =~~= target);
        }
        RequestOutcome { message: Some(fields), events }
    }

    /// Builds a historical-data request: the contract identity, its combo
    /// legs for a bag, the date range and the bar parameters.
    #[verifier::rlimit(100)]
    #[verifier::spinoff_prover]
    pub fn req_historical_data(&self, req_id: i32, contract: &Contract, end_date_time: &str,
        duration: &str, bar_size_setting: &str, what_to_show: &str, use_rth: i32,
        date_format: i32, keep_up_to_date: bool, chart_options: &Vec<TagValue>) -> (r:
        RequestOutcome)
        requires
            contract.combo_legs@.len() <= i32::MAX,
        ensures
            !self.is_connected ==> (r.message is None && r.events@.len() == 1
                && is_not_connected_event(r.events@[0])),
            self.is_connected ==> (r.message matches Some(msg)
                && msg.deep_view() == (seq![
                    int_to_dec((crate::outgoing_messages::REQUEST_HISTORICAL_DATA) as int),
                ]
                    + (if (self.server_version as int) < crate::min_server_version::SYNT_REALTIME_BARS { seq![int_to_dec(6)] } else { Seq::<Seq<char>>::empty() })
                    + seq![int_to_dec(req_id as int)]
                    + (if self.server_version as int >= crate::min_server_version::TRADING_CLASS { seq![int_to_dec(contract.con_id as int)] } else { Seq::<Seq<char>>::empty() })
                    + seq![
                        contract.symbol@,
                        contract.sec_type@,
                        contract.last_trade_date_or_contract_month@,
                        dbl_plain_text(contract.strike@),
                        contract.right@,
                        contract.multiplier@,
                        contract.exchange@,
                        contract.primary_exchange@,
                        contract.currency@,
                        contract.local_symbol@,
                    ]
                    + (if self.server_version as int >= crate::min_server_version::TRADING_CLASS { seq![contract.trading_class@] } else { Seq::<Seq<char>>::empty() })
                    + seq![
                        int_to_dec(if contract.include_expired { 1int } else { 0 }),
                        end_date_time@,
                        bar_size_setting@,
                        duration@,
                        int_to_dec(use_rth as int),
                        what_to_show@,
                        int_to_dec(date_format as int),
                    ]
                    + (if is_bag(contract@) { legs_brief_block(contract@.combo_legs) } else { Seq::<Seq<char>>::empty() })
                    + (if self.server_version as int >= crate::min_server_version::SYNT_REALTIME_BARS { seq![bool_text(keep_up_to_date)] } else { Seq::<Seq<char>>::empty() })
                    + (if self.server_version as int >= crate::min_server_version::LINKING { seq![tag_values_text(chart_options@.map_values(|t: TagValue| t@))] } else { Seq::<Seq<char>>::empty() }))),
            self.is_connected ==> (r.events@.len() == (warn_count((self.server_version as int) < 16)
                + warn_count((contract.trading_class@.len() > 0 || contract.con_id > 0)
                    && (self.server_version as int) < crate::min_server_version::TRADING_CLASS))
                && all_update_tws(r.events@, 0, req_id)),
    {
        let mut events: Vec<IncomingMessagesEnum> = Vec::new();
        if !self.is_connected {
            let ev = self.not_connected_event();
            events.push(ev);
            return RequestOutcome { message: None, events };
        }
        self.check_server_version(req_id, 16, "", &mut events);
        if !contract.trading_class.as_str().is_empty() || contract.con_id > 0 {
            self.check_server_version(req_id, crate::min_server_version::TRADING_CLASS,
                "It does not support conId nor trading class parameters when requesting historical data.",
                &mut events);
        }
        let mut params = ApiParameters::new();
        params.add_int(crate::outgoing_messages::REQUEST_HISTORICAL_DATA);
        if self.server_version < crate::min_server_version::SYNT_REALTIME_BARS {
            params.add_int(6);
        }
        params.add_int(req_id);
        if self.server_version >= crate::min_server_version::TRADING_CLASS {
            params.add_int(contract.con_id);
        }
        params.add_string(contract.symbol.as_str());
        params.add_string(contract.sec_type.as_str());
        params.add_string(contract.last_trade_date_or_contract_month.as_str());
        params.add_double(&contract.strike);
        params.add_string(contract.right.as_str());
        params.add_string(contract.multiplier.as_str());
        params.add_string(contract.exchange.as_str());
        params.add_string(contract.primary_exchange.as_str());
        params.add_string(contract.currency.as_str());
        params.add_string(contract.local_symbol.as_str());
        if self.server_version >= crate::min_server_version::TRADING_CLASS {
            params.add_string(contract.trading_class.as_str());
        }
        let include_expired: i32 = if contract.include_expired {
            1
        } else {
            0
        };
        params.add_int(include_expired);
        params.add_string(end_date_time);
        params.add_string(bar_size_setting);
        params.add_string(duration);
        params.add_int(use_rth);
        params.add_string(what_to_show);
        params.add_int(date_format);
        let bag = strings_are_equal(crate::helper_constants::BAG_SEC_TYPE,
            contract.sec_type.as_str());
        if bag {
            let ghost base = params@;
            params.add_int(contract.combo_legs.len() as i32);
            let mut li: usize = 0;
            proof {
                assert(legs_brief(contract@.combo_legs.subrange(0, 0))
                    =~= Seq::<Seq<char>>::empty());
                assert(params@ =~= base + seq![int_to_dec(contract@.combo_legs.len() as int)]
                    + legs_brief(contract@.combo_legs.subrange(0, 0)));
            }
            while li < contract.combo_legs.len()
                invariant
                    0 <= li <= contract.combo_legs@.len(),
                    contract.combo_legs@.len() <= i32::MAX,
                    params@ == base + seq![int_to_dec(contract@.combo_legs.len() as int)]
                        + legs_brief(contract@.combo_legs.subrange(0, li as int)),
                decreases contract.combo_legs@.len() - li,
            {
                let leg = &contract.combo_legs[li];
                params.add_int(leg.con_id);
                params.add_int(leg.ratio);
                params.add_string(leg.action.as_str());
                params.add_string(leg.exchange.as_str());
                proof {
                    lemma_legs_brief_push(contract@.combo_legs.subrange(0, li as int),
                        contract@.combo_legs[li as int]);
                    assert(contract@.combo_legs.subrange(0, li as int).push(
                        contract@.combo_legs[li as int])
                        =~= contract@.combo_legs.subrange(0, li + 1));
                    assert(params@ =~= base + seq![int_to_dec(
                        contract@.combo_legs.len() as int)]
                        + legs_brief(contract@.combo_legs.subrange(0, li + 1)));
                }
                li = li + 1;
            }
            proof {
                assert(contract@.combo_legs.subrange(0, contract@.combo_legs.len() as int)
                    =~= contract@.combo_legs);
                assert(params@ =~= base + legs_brief_block(contract@.combo_legs));
            }
        }
        if self.server_version >= crate::min_server_version::SYNT_REALTIME_BARS {
            params.add_bool(keep_up_to_date);
        }
        if self.server_version >= crate::min_server_version::LINKING {
            params.add_tag_value_vec(chart_options);
        }
        let fields = params.into_fields();
        RequestOutcome { message: Some(fields), events }
    }

    /// Whether the order uses only capabilities the negotiated server
    /// version supports; a violation is reported as an error event and
    /// refuses the send. Checks that only warn in the reference client
    /// warn here too.
    pub fn verify_order(&self, order: &Order, id: i32, is_bag_order: bool,
        events: &mut Vec<IncomingMessagesEnum>) -> (r: bool)
        ensures
            r == order_supported(self.server_version as int, order@, is_bag_order),
            final(events)@.len() >= old(events)@.len(),
            forall|k: int| 0 <= k < old(events)@.len()
                ==> #[trigger] final(events)@[k] == old(events)@[k],
            all_update_tws(final(events)@, old(events)@.len() as int, id),
            r && !order_warns(self.server_version as int, order@)
                ==> final(events)@ == old(events)@,
            !r ==> final(events)@.len() > old(events)@.len(),
    {
        let sv = self.server_version;
        if sv < crate::min_server_version::SCALE_ORDERS {
            if order.scale.scale_init_level_size != i32::MAX
                || !order.scale.scale_price_increment.is_unset() {
                self.push_update_tws(events, id, "It does not support Scale orders");
                return false;
            }
        }
        if sv < crate::min_server_version::WHAT_IF_ORDERS {
            if order.algo.what_if {
                self.push_update_tws(events, id, "it does not support what-if orders");
            }
        }
        if sv < crate::min_server_version::SCALE_ORDERS {
            if order.scale.scale_subs_level_size != i32::MAX {
                self.push_update_tws(events, id, "it does not support subsequent Level Size for Scale Orders.");
            }
        }
        if sv < crate::min_server_version::ALGO_ORDERS {
            if !order.algo.algo_strategy.as_str().is_empty() {
                self.push_update_tws(events, id, "It does not support algo orders.");
                return false;
            }
        }
        if sv < crate::min_server_version::NOT_HELD {
            if order.algo.not_held {
                self.push_update_tws(events, id, "It does not support notHeld parameter.");
                return false;
            }
        }
        if sv < crate::min_server_version::SSHORTX {
            if order.routing.exempt_code != -1 {
                self.push_update_tws(events, id, "It does not support exemptCode parameter.");
                return false;
            }
        }
        if sv < crate::min_server_version::HEDGE_ORDERS {
            if !order.scale.hedge_type.as_str().is_empty() {
                self.push_update_tws(events, id, "It does not support hedge orders.");
                return false;
            }
        }
        if sv < crate::min_server_version::OPT_OUT_SMART_ROUTING {
            if order.routing.opt_out_smart_routing {
                self.push_update_tws(events, id, "It does not support optOutSmartRouting parameter.");
                return false;
            }
        }
        if sv < crate::min_server_version::DELTA_NEUTRAL_CONID {
            if order.vol.delta_neutral_con_id > 0
                || !order.vol.delta_neutral_settling_firm.as_str().is_empty()
                || !order.vol.delta_neutral_clearing_account.as_str().is_empty()
                || !order.vol.delta_neutral_clearing_intent.as_str().is_empty() {
                self.push_update_tws(events, id, "It does not support deltaNeutral parameters: ConId, SettlingFirm, ClearingAccount, ClearingIntent");
                return false;
            }
        }
        if sv < crate::min_server_version::DELTA_NEUTRAL_OPEN_CLOSE {
            if !order.vol.delta_neutral_open_close.as_str().is_empty()
                || order.vol.delta_neutral_short_sale
                || order.vol.delta_neutral_short_sale_slot > 0
                || !order.vol.delta_neutral_designated_location.as_str().is_empty() {
                self.push_update_tws(events, id, "It does not support deltaNeutral parameters: OpenClose, ShortSale, ShortSaleSlot, DesignatedLocation");
                return false;
            }
        }
        if sv < crate::min_server_version::SCALE_ORDERS3 {
            if order.scale.scale_price_increment.is_positive() {
                if !order.scale.scale_price_adjust_value.is_unset()
                    || order.scale.scale_price_adjust_interval != i32::MAX
                    || !order.scale.scale_profit_offset.is_unset()
                    || order.scale.scale_auto_reset
                    || order.scale.scale_init_position != i32::MAX
                    || order.scale.scale_init_fill_qty != i32::MAX
                    || order.scale.scale_random_percent {
                    self.push_update_tws(events, id, "It does not support Scale order parameters: PriceAdjustValue, PriceAdjustInterval, ProfitOffset, AutoReset, InitPosition, InitFillQty and RandomPercent");
                    return false;
                }
            }
        }
        if sv < crate::min_server_version::ORDER_COMBO_LEGS_PRICE && is_bag_order {
            let ghost evs0 = events@;
            let mut li: usize = 0;
            while li < order.algo.order_combo_legs.len()
                invariant
                    events@ == evs0,
                    0 <= li <= order.algo.order_combo_legs@.len(),
                    self.server_version < crate::min_server_version::ORDER_COMBO_LEGS_PRICE,
                    is_bag_order,
                    events@.len() >= old(events)@.len(),
                    forall|k: int| 0 <= k < old(events)@.len()
                        ==> #[trigger] events@[k] == old(events)@[k],
                    all_update_tws(events@, old(events)@.len() as int, id),
                    forall|k: int| 0 <= k < li
                        ==> (#[trigger] order@.order_combo_legs[k]).price is None,
                decreases order.algo.order_combo_legs@.len() - li,
            {
                proof {
                    assert(order@.order_combo_legs[li as int]
                        == order.algo.order_combo_legs@.map_values(
                            |t: crate::models::order_combo_leg::OrderComboLeg| t@)[li as int]);
                }
                if !order.algo.order_combo_legs[li].price.is_unset() {
                    proof {
                        assert(order@.order_combo_legs.len()
                            == order.algo.order_combo_legs@.len());
                        assert(order@.order_combo_legs[li as int].price is Some);
                        if order_supported(self.server_version as int, order@,
                            is_bag_order) {
                            assert(order@.order_combo_legs[li as int].price is None);
                        }
                    }
                    self.push_update_tws(events, id, "It does not support per-leg prices for order combo legs.");
                    return false;
                }
                li = li + 1;
            }
        }
        if sv < crate::min_server_version::TRAILING_PERCENT {
            if !order.terms.trailing_percent.is_unset() {
                self.push_update_tws(events, id, "It does not support trailing percent parameter.");
                return false;
            }
        }
        if sv < crate::min_server_version::ALGO_ID && !order.algo.algo_id.as_str().is_empty() {
            self.push_update_tws(events, id, "It does not support algoId parameter");
            return false;
        }
        if sv < crate::min_server_version::SCALE_TABLE {
            if !order.scale.scale_table.as_str().is_empty()
                || !order.terms.active_start_time.as_str().is_empty()
                || !order.terms.active_stop_time.as_str().is_empty() {
                self.push_update_tws(events, id, "It does not support scaleTable, activeStartTime nor activeStopTime parameters.");
                return false;
            }
        }
        if sv < crate::min_server_version::EXT_OPERATOR
            && !order.misc.ext_operator.as_str().is_empty() {
            self.push_update_tws(events, id, "It does not support extOperator parameter");
            return false;
        }
        if sv < crate::min_server_version::CASH_QTY && !order.misc.cash_qty.is_unset() {
            self.push_update_tws(events, id, "It does not support cashQty parameter");
            return false;
        }
        if sv < crate::min_server_version::DECISION_MAKER
            && (!order.misc.mifid2decision_maker.as_str().is_empty()
                || !order.misc.mifid2decision_algo.as_str().is_empty()) {
            self.push_update_tws(events, id, "It does not support MIFID II decision maker parameters");
            return false;
        }
        if sv < crate::min_server_version::DECISION_MAKER
            && (!order.misc.mifid2execution_trader.as_str().is_empty()
                || !order.misc.mifid2execution_algo.as_str().is_empty()) {
            self.push_update_tws(events, id, "It does not support MIFID II execution parameters");
            return false;
        }
        if sv < crate::min_server_version::AUTO_PRICE_FOR_HEDGE
            && order.misc.dont_use_auto_price_for_hedge {
            self.push_update_tws(events, id, "It does not support don't use auto price for hedge parameter");
            return false;
        }
        if sv < crate::min_server_version::ORDER_CONTAINER && order.misc.is_oms_container {
            self.push_update_tws(events, id, "It does not support oms container parameter.");
            return false;
        }
        if sv < crate::min_server_version::D_PEG_ORDERS
            && order.misc.discretionary_up_to_limit_price {
            self.push_update_tws(events, id, "It does not support D-Peg orders.");
            return false;
        }
        if sv < crate::min_server_version::PRICE_MGMT_ALGO && order.misc.use_price_mgmt_algo {
            self.push_update_tws(events, id, "It does not support Use Price Management Algo requests.");
            return false;
        }
        true
    }

    /// Whether the contract uses only capabilities the negotiated server
    /// version supports.
    pub fn verify_order_contract(&self, contract: &Contract, id: i32,
        events: &mut Vec<IncomingMessagesEnum>) -> (r: bool)
        ensures
            r == contract_supported(self.server_version as int, contract@),
            final(events)@.len() >= old(events)@.len(),
            forall|k: int| 0 <= k < old(events)@.len()
                ==> #[trigger] final(events)@[k] == old(events)@[k],
            all_update_tws(final(events)@, old(events)@.len() as int, id),
            r ==> final(events)@ == old(events)@,
            !r ==> final(events)@.len() > old(events)@.len(),
    {
        let sv = self.server_version;
        if sv < crate::min_server_version::SSHORT_COMBO_LEGS {
            let ghost evs0 = events@;
            let mut li: usize = 0;
            while li < contract.combo_legs.len()
                invariant
                    events@ == evs0,
                    0 <= li <= contract.combo_legs@.len(),
                    self.server_version < crate::min_server_version::SSHORT_COMBO_LEGS,
                    events@.len() >= old(events)@.len(),
                    forall|k: int| 0 <= k < old(events)@.len()
                        ==> #[trigger] events@[k] == old(events)@[k],
                    all_update_tws(events@, old(events)@.len() as int, id),
                    forall|k: int| 0 <= k < li
                        ==> (#[trigger] contract@.combo_legs[k]).short_sale_slot == 0
                            && contract@.combo_legs[k].designated_location.len() == 0,
                decreases contract.combo_legs@.len() - li,
            {
                proof {
                    assert(contract@.combo_legs[li as int]
                        == contract.combo_legs@.map_values(|t: ComboLeg| t@)[li as int]);
                }
                if contract.combo_legs[li].short_sale_slot != 0
                    || !contract.combo_legs[li].designated_location.as_str().is_empty() {
                    proof {
                        assert(contract@.combo_legs.len() == contract.combo_legs@.len());
                        if contract_supported(self.server_version as int, contract@) {
                            assert(contract@.combo_legs[li as int].short_sale_slot == 0
                                && contract@.combo_legs[li as int].designated_location.len()
                                    == 0);
                        }
                    }
                    self.push_update_tws(events, id, "It does not support SSHORT flag for combo legs.");
                    return false;
                }
                li = li + 1;
            }
        }
        if sv < crate::min_server_version::DELTA_NEUTRAL {
            if contract.delta_neutral_contract.is_some() {
                self.push_update_tws(events, id, "It does not support delta-neutral orders.");
                return false;
            }
        }
        if sv < crate::min_server_version::PLACE_ORDER_CONID {
            if contract.con_id > 0 {
                self.push_update_tws(events, id, "It does not support conId parameter.");
                return false;
            }
        }
        if sv < crate::min_server_version::SEC_ID_TYPE {
            if !contract.sec_id_type.as_str().is_empty()
                || !contract.sec_id.as_str().is_empty() {
                self.push_update_tws(events, id, "It does not support secIdType and secId parameters.");
                return false;
            }
        }
        if sv < crate::min_server_version::SSHORTX {
            let ghost evs0 = events@;
            let mut li: usize = 0;
            while li < contract.combo_legs.len()
                invariant
                    events@ == evs0,
                    0 <= li <= contract.combo_legs@.len(),
                    self.server_version < crate::min_server_version::SSHORTX,
                    events@.len() >= old(events)@.len(),
                    forall|k: int| 0 <= k < old(events)@.len()
                        ==> #[trigger] events@[k] == old(events)@[k],
                    all_update_tws(events@, old(events)@.len() as int, id),
                    forall|k: int| 0 <= k < li
                        ==> (#[trigger] contract@.combo_legs[k]).exempt_code == -1,
                decreases contract.combo_legs@.len() - li,
            {
                proof {
                    assert(contract@.combo_legs[li as int]
                        == contract.combo_legs@.map_values(|t: ComboLeg| t@)[li as int]);
                }
                if contract.combo_legs[li].exempt_code != -1 {
                    proof {
                        assert(contract@.combo_legs.len() == contract.combo_legs@.len());
                        if contract_supported(self.server_version as int, contract@) {
                            assert(contract@.combo_legs[li as int].exempt_code == -1);
                        }
                    }
                    self.push_update_tws(events, id, "It does not support exemptCode parameter.");
                    return false;
                }
                li = li + 1;
            }
        }
        if sv < crate::min_server_version::TRADING_CLASS {
            if !contract.trading_class.as_str().is_empty() {
                self.push_update_tws(events, id, "It does not support tradingClass parameters in placeOrder.");
                return false;
            }
        }
        true
    }
}


/// The order-placement fields for the message code, the legacy message version, the order id and the contract identity.
pub open spec fn po_header_fields(sv: int, order_id: i32, contract: &Contract) -> Seq<Seq<char>> {
    seq![int_to_dec((crate::outgoing_messages::PLACE_ORDER) as int)]
        + (if sv < crate::min_server_version::ORDER_CONTAINER { seq![int_to_dec(if sv < crate::min_server_version::NOT_HELD { 27int } else { 45int })] } else { Seq::<Seq<char>>::empty() })
        + seq![int_to_dec(order_id as int)]
        + (if sv >= crate::min_server_version::PLACE_ORDER_CONID { seq![int_to_dec(contract.con_id as int)] } else { Seq::<Seq<char>>::empty() })
        + seq![
                        contract.symbol@,
                        contract.sec_type@,
                        contract.last_trade_date_or_contract_month@,
                        dbl_plain_text(contract.strike@),
                        contract.right@,
                    ]
        + (if sv >= 15 { seq![contract.multiplier@] } else { Seq::<Seq<char>>::empty() })
        + seq![contract.exchange@]
        + (if sv >= 14 { seq![contract.primary_exchange@] } else { Seq::<Seq<char>>::empty() })
        + seq![contract.currency@]
        + (if sv >= 2 { seq![contract.local_symbol@] } else { Seq::<Seq<char>>::empty() })
        + (if sv >= crate::min_server_version::TRADING_CLASS { seq![contract.trading_class@] } else { Seq::<Seq<char>>::empty() })
        + (if sv >= crate::min_server_version::SEC_ID_TYPE { seq![contract.sec_id_type@, contract.sec_id@] } else { Seq::<Seq<char>>::empty() })
}

/// The order-placement fields for the combo legs, per-leg prices and routing pairs of a bag order.
pub open spec fn po_bag_fields(sv: int, contract: &Contract, order: &Order) -> Seq<Seq<char>> {
    (if sv >= 8 && is_bag(contract@) {
                        seq![int_to_dec(contract@.combo_legs.len() as int)]
                            + legs_full(contract@.combo_legs, sv)
                    } else {
                        Seq::<Seq<char>>::empty()
                    })
        + (if sv >= crate::min_server_version::ORDER_COMBO_LEGS_PRICE && is_bag(contract@) {
                        seq![int_to_dec(order@.order_combo_legs.len() as int)]
                            + order_legs_out(order@.order_combo_legs)
                    } else {
                        Seq::<Seq<char>>::empty()
                    })
        + (if sv >= crate::min_server_version::SMART_COMBO_ROUTING_PARAMS && is_bag(contract@) {
                        seq![int_to_dec(order@.smart_combo_routing_params.len() as int)]
                            + pairs_out(order@.smart_combo_routing_params)
                    } else {
                        Seq::<Seq<char>>::empty()
                    })
}

/// The order-placement fields for the deprecated allocation field, timing, adviser and short-sale terms.
pub open spec fn po_terms_fields(sv: int, order: &Order) -> Seq<Seq<char>> {
    (if sv >= 9 { seq![("")@] } else { Seq::<Seq<char>>::empty() })
        + (if sv >= 10 { seq![dbl_plain_text(order.routing.discretionary_amt@)] } else { Seq::<Seq<char>>::empty() })
        + (if sv >= 11 { seq![order.terms.good_after_time@] } else { Seq::<Seq<char>>::empty() })
        + (if sv >= 12 { seq![order.terms.good_till_date@] } else { Seq::<Seq<char>>::empty() })
        + (if sv >= 13 { seq![order.routing.fa_group@, order.routing.fa_method@, order.routing.fa_percentage@, order.routing.fa_profile@] } else { Seq::<Seq<char>>::empty() })
        + (if sv >= crate::min_server_version::MODELS_SUPPORT { seq![order.algo.model_code@] } else { Seq::<Seq<char>>::empty() })
        + (if sv >= 18 { seq![int_to_dec(order.routing.short_sale_slot as int), order.routing.designated_location@] } else { Seq::<Seq<char>>::empty() })
        + (if sv >= crate::min_server_version::SSHORTX_OLD { seq![int_to_dec(order.routing.exempt_code as int)] } else { Seq::<Seq<char>>::empty() })
}

/// The order-placement fields for the one-cancels-all, rule, quote and box-auction block.
pub open spec fn po_auction_fields(sv: int, order: &Order) -> Seq<Seq<char>> {
    (if sv >= 19 { seq![int_to_dec(order.main.oca_type as int)]
                            + (if sv < 38 { seq![bool_text(false)] } else { Seq::<Seq<char>>::empty() })
                            + seq![
                                order.terms.rule80a@,
                                order.scale.settling_firm@,
                                bool_text(order.terms.all_or_none),
                            ]
                            + seq![(if order.terms.min_qty == i32::MAX { Seq::<char>::empty() } else { int_to_dec(order.terms.min_qty as int) })]
                            + seq![
                                dbl_max_text(order.terms.percent_offset@),
                                bool_text(order.routing.e_trade_only),
                                bool_text(order.routing.firm_quote_only),
                                dbl_max_text(order.routing.nbbo_price_cap@),
                            ]
                            + seq![(if order.routing.auction_strategy == i32::MAX { Seq::<char>::empty() } else { int_to_dec(order.routing.auction_strategy as int) })]
                            + seq![
                                dbl_max_text(order.routing.starting_price@),
                                dbl_max_text(order.routing.stock_ref_price@),
                                dbl_max_text(order.routing.delta@),
                            ]
                            + (if sv == 26 && order.main.order_type@ == "VOL"@ {
                                seq![Seq::<char>::empty(), Seq::<char>::empty()]
                            } else {
                                seq![dbl_max_text(order.routing.stock_range_lower@), dbl_max_text(order.routing.stock_range_upper@)]
                            }) } else { Seq::<Seq<char>>::empty() })
}

/// The order-placement fields for the percentage-constraint flag, the volatility block and the trailing prices.
pub open spec fn po_vol_fields(sv: int, order: &Order) -> Seq<Seq<char>> {
    (if sv >= 22 { seq![bool_text(order.terms.override_percentage_constraints)] } else { Seq::<Seq<char>>::empty() })
        + (if sv >= 26 { seq![
                            dbl_max_text(order.vol.volatility@),
                        ]
                            + seq![(if order.vol.volatility_type == i32::MAX { Seq::<char>::empty() } else { int_to_dec(order.vol.volatility_type as int) })]
                            + (if sv < 28 {
                                seq![bool_text(lower_of(order.vol.delta_neutral_order_type@) == lower_of("MKT"@))]
                            } else {
                                seq![order.vol.delta_neutral_order_type@, dbl_max_text(order.vol.delta_neutral_aux_price@)]
                                    + (if sv >= crate::min_server_version::DELTA_NEUTRAL_CONID && order.vol.delta_neutral_order_type@.len() > 0 {
                                        seq![
                                            int_to_dec(order.vol.delta_neutral_con_id as int),
                                            order.vol.delta_neutral_settling_firm@,
                                            order.vol.delta_neutral_clearing_account@,
                                            order.vol.delta_neutral_clearing_intent@,
                                        ]
                                    } else {
                                        Seq::<Seq<char>>::empty()
                                    })
                                    + (if sv >= crate::min_server_version::DELTA_NEUTRAL_OPEN_CLOSE && order.vol.delta_neutral_order_type@.len() > 0 {
                                        seq![
                                            order.vol.delta_neutral_open_close@,
                                            bool_text(order.vol.delta_neutral_short_sale),
                                            int_to_dec(order.vol.delta_neutral_short_sale_slot as int),
                                            order.vol.delta_neutral_designated_location@,
                                        ]
                                    } else {
                                        Seq::<Seq<char>>::empty()
                                    })
                            })
                            + seq![int_to_dec(order.vol.continuous_update as int)]
                            + (if sv == 26 {
                                (if order.main.order_type@ == "VOL"@ {
                                    seq![dbl_max_text(order.routing.stock_range_lower@), dbl_max_text(order.routing.stock_range_upper@)]
                                } else {
                                    seq![Seq::<char>::empty(), Seq::<char>::empty()]
                                })
                            } else {
                                Seq::<Seq<char>>::empty()
                            })
                            + seq![(if order.vol.reference_price_type == i32::MAX { Seq::<char>::empty() } else { int_to_dec(order.vol.reference_price_type as int) })] } else { Seq::<Seq<char>>::empty() })
        + (if sv >= 30 { seq![dbl_max_text(order.terms.trail_stop_price@)] } else { Seq::<Seq<char>>::empty() })
        + (if sv >= crate::min_server_version::TRAILING_PERCENT { seq![dbl_max_text(order.terms.trailing_percent@)] } else { Seq::<Seq<char>>::empty() })
}

/// The order-placement fields for the pegged-to-benchmark block, the conditions and the adjusted-order fields.
pub open spec fn peg_intro_fields(sv: int, order: &Order) -> Seq<Seq<char>> {
    if sv >= crate::min_server_version::PEGGED_TO_BENCHMARK {
        (if order.main.order_type@ == "PEG BENCH"@ {
            seq![
                int_to_dec(order.peg.reference_contract_id as int),
                bool_text(order.peg.is_pegged_change_amount_decrease),
                dbl_plain_text(order.peg.pegged_change_amount@),
                dbl_plain_text(order.peg.reference_change_amount@),
                order.peg.reference_exchange@,
            ]
        } else {
            Seq::<Seq<char>>::empty()
        }) + seq![int_to_dec(order@.conditions.len() as int)]
    } else {
        Seq::<Seq<char>>::empty()
    }
}

pub open spec fn peg_conds_fields(sv: int, order: &Order) -> Seq<Seq<char>> {
    if sv >= crate::min_server_version::PEGGED_TO_BENCHMARK && order@.conditions.len() > 0 {
        conds_out(order@.conditions)
            + seq![
                bool_text(order.peg.conditions_ignore_rth),
                bool_text(order.peg.conditions_cancel_order),
            ]
    } else {
        Seq::<Seq<char>>::empty()
    }
}

pub open spec fn peg_adjusted_fields(sv: int, order: &Order) -> Seq<Seq<char>> {
    if sv >= crate::min_server_version::PEGGED_TO_BENCHMARK {
        seq![
            order.peg.adjusted_order_type@,
            dbl_plain_text(order.peg.trigger_price@),
            dbl_plain_text(order.peg.lmt_price_offset@),
            dbl_plain_text(order.peg.adjusted_stop_price@),
            dbl_plain_text(order.peg.adjusted_stop_limit_price@),
            dbl_plain_text(order.peg.adjusted_trailing_amount@),
            int_to_dec(order.peg.adjustable_trailing_unit as int),
        ]
    } else {
        Seq::<Seq<char>>::empty()
    }
}

/// The order-placement fields for the pegged-to-benchmark block, the
/// conditions and the adjusted-order fields.
pub open spec fn po_peg_fields(sv: int, order: &Order) -> Seq<Seq<char>> {
    peg_intro_fields(sv, order) + peg_conds_fields(sv, order) + peg_adjusted_fields(sv, order)
}

/// The order-placement fields for the operator, soft-dollar, cash-quantity and regulatory tail.
pub open spec fn po_reg_fields(sv: int, order: &Order) -> Seq<Seq<char>> {
    (if sv >= crate::min_server_version::EXT_OPERATOR { seq![order.misc.ext_operator@] } else { Seq::<Seq<char>>::empty() })
        + (if sv >= crate::min_server_version::SOFT_DOLLAR_TIER { seq![order.algo.soft_dollar_tier.name@, order.algo.soft_dollar_tier.val@] } else { Seq::<Seq<char>>::empty() })
        + (if sv >= crate::min_server_version::CASH_QTY { seq![dbl_plain_text(order.misc.cash_qty@)] } else { Seq::<Seq<char>>::empty() })
        + (if sv >= crate::min_server_version::DECISION_MAKER { seq![order.misc.mifid2decision_maker@, order.misc.mifid2decision_algo@] } else { Seq::<Seq<char>>::empty() })
        + (if sv >= crate::min_server_version::MIFID_EXECUTION { seq![order.misc.mifid2execution_trader@, order.misc.mifid2execution_algo@] } else { Seq::<Seq<char>>::empty() })
        + (if sv >= crate::min_server_version::AUTO_PRICE_FOR_HEDGE { seq![bool_text(order.misc.dont_use_auto_price_for_hedge)] } else { Seq::<Seq<char>>::empty() })
        + (if sv >= crate::min_server_version::ORDER_CONTAINER { seq![bool_text(order.misc.is_oms_container)] } else { Seq::<Seq<char>>::empty() })
        + (if sv >= crate::min_server_version::D_PEG_ORDERS { seq![bool_text(order.misc.discretionary_up_to_limit_price)] } else { Seq::<Seq<char>>::empty() })
        + (if sv >= crate::min_server_version::PRICE_MGMT_ALGO { seq![bool_text(order.misc.use_price_mgmt_algo)] } else { Seq::<Seq<char>>::empty() })
}

/// The order-placement fields for the action, quantity, type and prices.
pub open spec fn po_action_fields(sv: int, order: &Order) -> Seq<Seq<char>> {
    seq![order.main.action@]
        + (if sv >= crate::min_server_version::FRACTIONAL_POSITIONS {
                        seq![dbl_plain_text(order.main.total_quantity@)]
                    } else {
                        seq![int_to_dec(qty_int(order.main.total_quantity@))]
                    })
        + seq![order.main.order_type@]
        + (if sv < crate::min_server_version::ORDER_COMBO_LEGS_PRICE {
                        seq![match order.main.lmt_price@ {
                            Option::None => "0"@,
                            Option::Some(t) => t,
                        }]
                    } else {
                        seq![dbl_max_text(order.main.lmt_price@)]
                    })
        + (if sv < crate::min_server_version::TRAILING_PERCENT {
                        seq![match order.main.aux_price@ {
                            Option::None => "0"@,
                            Option::Some(t) => t,
                        }]
                    } else {
                        seq![dbl_max_text(order.main.aux_price@)]
                    })
}

/// The order-placement fields for the validity, account and display terms.
pub open spec fn po_basic_fields(sv: int, order: &Order) -> Seq<Seq<char>> {
    seq![
                        order.main.tif@,
                        order.main.oca_group@,
                        order.main.account@,
                        order.main.open_close@,
                        int_to_dec(order.main.origin.code_spec() as int),
                        order.main.order_ref@,
                        bool_text(order.main.transmit),
                    ]
        + (if sv >= 4 { seq![int_to_dec(order.main.parent_id as int)] } else { Seq::<Seq<char>>::empty() })
        + (if sv >= 5 { seq![
                            bool_text(order.terms.block_order),
                            bool_text(order.terms.sweep_to_fill),
                            int_to_dec(order.terms.display_size as int),
                            int_to_dec(order.terms.trigger_method as int),
                        ] + (if sv < 38 {
                            seq![bool_text(false)]
                        } else {
                            seq![bool_text(order.terms.outside_rth)]
                        }) } else { Seq::<Seq<char>>::empty() })
        + (if sv >= 7 { seq![bool_text(order.terms.hidden)] } else { Seq::<Seq<char>>::empty() })
}

/// The order-placement fields for the scale levels, the scale adjust block and the scale table.
pub open spec fn po_scale1_fields(sv: int, order: &Order) -> Seq<Seq<char>> {
    (if sv >= crate::min_server_version::SCALE_ORDERS { (if sv >= crate::min_server_version::SCALE_ORDERS2 {
                            seq![
                                (if order.scale.scale_init_level_size == i32::MAX { Seq::<char>::empty() } else { int_to_dec(order.scale.scale_init_level_size as int) }),
                                (if order.scale.scale_subs_level_size == i32::MAX { Seq::<char>::empty() } else { int_to_dec(order.scale.scale_subs_level_size as int) }),
                            ]
                        } else {
                            seq![("")@, (if order.scale.scale_init_level_size == i32::MAX { Seq::<char>::empty() } else { int_to_dec(order.scale.scale_init_level_size as int) })]
                        }) + seq![dbl_max_text(order.scale.scale_price_increment@)] } else { Seq::<Seq<char>>::empty() })
        + (if sv >= crate::min_server_version::SCALE_ORDERS3 && dbl_is_positive(order.scale.scale_price_increment@) { seq![
                            dbl_max_text(order.scale.scale_price_adjust_value@),
                            (if order.scale.scale_price_adjust_interval == i32::MAX { Seq::<char>::empty() } else { int_to_dec(order.scale.scale_price_adjust_interval as int) }),
                            dbl_max_text(order.scale.scale_profit_offset@),
                            bool_text(order.scale.scale_auto_reset),
                            (if order.scale.scale_init_position == i32::MAX { Seq::<char>::empty() } else { int_to_dec(order.scale.scale_init_position as int) }),
                            (if order.scale.scale_init_fill_qty == i32::MAX { Seq::<char>::empty() } else { int_to_dec(order.scale.scale_init_fill_qty as int) }),
                            bool_text(order.scale.scale_random_percent),
                        ] } else { Seq::<Seq<char>>::empty() })
        + (if sv >= crate::min_server_version::SCALE_TABLE { seq![order.scale.scale_table@, order.terms.active_start_time@, order.terms.active_stop_time@] } else { Seq::<Seq<char>>::empty() })
}

/// The order-placement fields for the hedge, routing-opt-out, clearing and not-held fields.
pub open spec fn po_scale2_fields(sv: int, order: &Order) -> Seq<Seq<char>> {
    (if sv >= crate::min_server_version::HEDGE_ORDERS { seq![order.scale.hedge_type@]
                            + (if order.scale.hedge_type@.len() > 0 { seq![order.scale.hedge_param@] } else { Seq::<Seq<char>>::empty() }) } else { Seq::<Seq<char>>::empty() })
        + (if sv >= crate::min_server_version::OPT_OUT_SMART_ROUTING { seq![bool_text(order.routing.opt_out_smart_routing)] } else { Seq::<Seq<char>>::empty() })
        + (if sv >= crate::min_server_version::PTA_ORDERS { seq![order.scale.clearing_account@, order.scale.clearing_intent@] } else { Seq::<Seq<char>>::empty() })
        + (if sv >= crate::min_server_version::NOT_HELD { seq![bool_text(order.algo.not_held)] } else { Seq::<Seq<char>>::empty() })
}

/// The order-placement fields for the delta-neutral underlying and the algorithm block.
pub open spec fn po_dnc_fields(sv: int, contract: &Contract, order: &Order) -> Seq<Seq<char>> {
    (if sv >= crate::min_server_version::DELTA_NEUTRAL { dnc_block(contract@) } else { Seq::<Seq<char>>::empty() })
        + (if sv >= crate::min_server_version::ALGO_ORDERS {
                        seq![order@.algo_strategy]
                            + (if order@.algo_strategy.len() > 0 {
                                seq![int_to_dec(order@.algo_params.len() as int)]
                                    + pairs_out(order@.algo_params)
                            } else {
                                Seq::<Seq<char>>::empty()
                            })
                    } else {
                        Seq::<Seq<char>>::empty()
                    })
}

/// The order-placement fields for the algorithm id, the what-if flag and the solicitation flags.
pub open spec fn po_misc2_fields(sv: int, order: &Order) -> Seq<Seq<char>> {
    (if sv >= crate::min_server_version::ALGO_ID { seq![order.algo.algo_id@] } else { Seq::<Seq<char>>::empty() })
        + (if sv >= crate::min_server_version::WHAT_IF_ORDERS { seq![bool_text(order.algo.what_if)] } else { Seq::<Seq<char>>::empty() })
        + (if sv >= crate::min_server_version::LINKING { seq![tag_values_text(order@.order_misc_options)] } else { Seq::<Seq<char>>::empty() })
        + (if sv >= crate::min_server_version::ORDER_SOLICITED { seq![bool_text(order.algo.solicited)] } else { Seq::<Seq<char>>::empty() })
        + (if sv >= crate::min_server_version::RANDOMIZE_SIZE_AND_PRICE { seq![bool_text(order.vol.randomize_size), bool_text(order.vol.randomize_price)] } else { Seq::<Seq<char>>::empty() })
}

/// The complete field sequence of an order placement under server version
/// `sv`: every group of the order schema in encoding order, each under
/// its version gate, with every variable-length structure preceded by its
/// count.
pub open spec fn place_order_fields(sv: int, order_id: i32, contract: &Contract,
    order: &Order) -> Seq<Seq<char>> {
    po_header_fields(sv, order_id, contract) + po_action_fields(sv, order)
        + po_basic_fields(sv, order) + po_bag_fields(sv, contract, order)
        + po_terms_fields(sv, order) + po_auction_fields(sv, order) + po_vol_fields(sv, order)
        + po_scale1_fields(sv, order) + po_scale2_fields(sv, order)
        + po_dnc_fields(sv, contract, order) + po_misc2_fields(sv, order)
        + po_peg_fields(sv, order) + po_reg_fields(sv, order)
}

impl ClientEngine {
    /// Writes the `header` group of an order placement.
    #[verifier::rlimit(100)]
    #[verifier::spinoff_prover]
    fn po_header_write(&self, params: &mut ApiParameters, order_id: i32, contract: &Contract)
        requires
            contract.combo_legs@.len() <= i32::MAX,
        ensures
            final(params)@ == old(params)@ + po_header_fields(self.server_version as int, order_id, contract),
    {
        let ghost base0 = params@;
        params.add_int(crate::outgoing_messages::PLACE_ORDER);
        if self.server_version < crate::min_server_version::ORDER_CONTAINER {
            if self.server_version < crate::min_server_version::NOT_HELD {
                params.add_int(27);
            } else {
                params.add_int(45);
            }
        }
        params.add_int(order_id);
        if self.server_version >= crate::min_server_version::PLACE_ORDER_CONID {
            params.add_int(contract.con_id);
        }
        params.add_string(contract.symbol.as_str());
        params.add_string(contract.sec_type.as_str());
        params.add_string(contract.last_trade_date_or_contract_month.as_str());
        params.add_double(&contract.strike);
        params.add_string(contract.right.as_str());
        if self.server_version >= 15 {
            params.add_string(contract.multiplier.as_str());
        }
        params.add_string(contract.exchange.as_str());
        if self.server_version >= 14 {
            params.add_string(contract.primary_exchange.as_str());
        }
        params.add_string(contract.currency.as_str());
        if self.server_version >= 2 {
            params.add_string(contract.local_symbol.as_str());
        }
        if self.server_version >= crate::min_server_version::TRADING_CLASS {
            params.add_string(contract.trading_class.as_str());
        }
        if self.server_version >= crate::min_server_version::SEC_ID_TYPE {
            params.add_string(contract.sec_id_type.as_str());
            params.add_string(contract.sec_id.as_str());
        }
        proof {
            assert(params@ =~~= base0 + po_header_fields(self.server_version as int, order_id, contract));
        }
    }

    /// Writes the `bag` group of an order placement.
    #[verifier::rlimit(100)]
    #[verifier::spinoff_prover]
    fn po_bag_write(&self, params: &mut ApiParameters, contract: &Contract, order: &Order)
        requires
            contract.combo_legs@.len() <= i32::MAX,
            order.algo.order_combo_legs@.len() <= i32::MAX,
            order.algo.smart_combo_routing_params@.len() <= i32::MAX,
        ensures
            final(params)@ == old(params)@ + po_bag_fields(self.server_version as int, contract, order),
    {
        let ghost base0 = params@;
        let bag = strings_are_equal(crate::helper_constants::BAG_SEC_TYPE,
            contract.sec_type.as_str());
        if self.server_version >= 8 && bag {
            let ghost base = params@;
            params.add_int(contract.combo_legs.len() as i32);
            let mut li: usize = 0;
            proof {
                assert(legs_full(contract@.combo_legs.subrange(0, 0),
                    self.server_version as int) =~= Seq::<Seq<char>>::empty());
                assert(params@ =~= base + seq![int_to_dec(contract@.combo_legs.len() as int)]
                    + legs_full(contract@.combo_legs.subrange(0, 0),
                        self.server_version as int));
            }
            while li < contract.combo_legs.len()
                invariant
                    0 <= li <= contract.combo_legs@.len(),
                    contract.combo_legs@.len() <= i32::MAX,
                    params@ == base + seq![int_to_dec(contract@.combo_legs.len() as int)]
                        + legs_full(contract@.combo_legs.subrange(0, li as int),
                            self.server_version as int),
                decreases contract.combo_legs@.len() - li,
            {
                let leg = &contract.combo_legs[li];
                let ghost before = params@;
                params.add_int(leg.con_id);
                params.add_int(leg.ratio);
                params.add_string(leg.action.as_str());
                params.add_string(leg.exchange.as_str());
                params.add_int(leg.open_close.code());
                if self.server_version >= crate::min_server_version::SSHORT_COMBO_LEGS {
                    params.add_int(leg.short_sale_slot);
                    params.add_string(leg.designated_location.as_str());
                }
                if self.server_version >= crate::min_server_version::SSHORTX_OLD {
                    params.add_int(leg.exempt_code);
                }
                proof {
                    let ghost lv = contract@.combo_legs[li as int];
                    let ghost one = seq![lv];
                    assert(one[0] == lv);
                    assert(one.drop_first() =~= Seq::<ComboLegV>::empty());
                    assert(legs_full(Seq::<ComboLegV>::empty(), self.server_version as int)
                        =~= Seq::<Seq<char>>::empty());
                    assert(legs_full(one, self.server_version as int) == seq![
                        int_to_dec(lv.con_id as int),
                        int_to_dec(lv.ratio as int),
                        lv.action,
                        lv.exchange,
                        int_to_dec(lv.open_close.code_spec() as int),
                    ]
                        + (if self.server_version as int
                            >= crate::min_server_version::SSHORT_COMBO_LEGS {
                            seq![int_to_dec(lv.short_sale_slot as int),
                                lv.designated_location]
                        } else {
                            Seq::<Seq<char>>::empty()
                        })
                        + (if self.server_version as int
                            >= crate::min_server_version::SSHORTX_OLD {
                            seq![int_to_dec(lv.exempt_code as int)]
                        } else {
                            Seq::<Seq<char>>::empty()
                        }) + legs_full(one.drop_first(), self.server_version as int));
                    assert(params@ =~= before + legs_full(one, self.server_version as int));
                    lemma_legs_full_push(contract@.combo_legs.subrange(0, li as int), lv,
                        self.server_version as int);
                    assert(contract@.combo_legs.subrange(0, li as int).push(lv)
                        =~= contract@.combo_legs.subrange(0, li + 1));
                }
                li = li + 1;
            }
            proof {
                assert(contract@.combo_legs.subrange(0, contract@.combo_legs.len() as int)
                    =~= contract@.combo_legs);
            }
        }
        if self.server_version >= crate::min_server_version::ORDER_COMBO_LEGS_PRICE && bag {
            let ghost base = params@;
            params.add_int(order.algo.order_combo_legs.len() as i32);
            let mut li: usize = 0;
            proof {
                assert(order_legs_out(order@.order_combo_legs.subrange(0, 0))
                    =~= Seq::<Seq<char>>::empty());
                assert(params@ =~= base
                    + seq![int_to_dec(order@.order_combo_legs.len() as int)]
                    + order_legs_out(order@.order_combo_legs.subrange(0, 0)));
            }
            while li < order.algo.order_combo_legs.len()
                invariant
                    0 <= li <= order.algo.order_combo_legs@.len(),
                    order.algo.order_combo_legs@.len() <= i32::MAX,
                    params@ == base + seq![int_to_dec(order@.order_combo_legs.len() as int)]
                        + order_legs_out(order@.order_combo_legs.subrange(0, li as int)),
                decreases order.algo.order_combo_legs@.len() - li,
            {
                params.add_double(&order.algo.order_combo_legs[li].price);
                proof {
                    lemma_order_legs_out_push(order@.order_combo_legs.subrange(0, li as int),
                        order@.order_combo_legs[li as int]);
                    assert(order@.order_combo_legs.subrange(0, li as int).push(
                        order@.order_combo_legs[li as int])
                        =~= order@.order_combo_legs.subrange(0, li + 1));
                }
                li = li + 1;
            }
            proof {
                assert(order@.order_combo_legs.subrange(0,
                    order@.order_combo_legs.len() as int) =~= order@.order_combo_legs);
            }
        }
        if self.server_version >= crate::min_server_version::SMART_COMBO_ROUTING_PARAMS
            && bag {
            let ghost base = params@;
            params.add_int(order.algo.smart_combo_routing_params.len() as i32);
            let mut li: usize = 0;
            proof {
                assert(pairs_out(order@.smart_combo_routing_params.subrange(0, 0))
                    =~= Seq::<Seq<char>>::empty());
                assert(params@ =~= base
                    + seq![int_to_dec(order@.smart_combo_routing_params.len() as int)]
                    + pairs_out(order@.smart_combo_routing_params.subrange(0, 0)));
            }
            while li < order.algo.smart_combo_routing_params.len()
                invariant
                    0 <= li <= order.algo.smart_combo_routing_params@.len(),
                    order.algo.smart_combo_routing_params@.len() <= i32::MAX,
                    params@ == base
                        + seq![int_to_dec(order@.smart_combo_routing_params.len() as int)]
                        + pairs_out(order@.smart_combo_routing_params.subrange(0,
                            li as int)),
                decreases order.algo.smart_combo_routing_params@.len() - li,
            {
                params.add_string(order.algo.smart_combo_routing_params[li].tag.as_str());
                params.add_string(order.algo.smart_combo_routing_params[li].value.as_str());
                proof {
                    lemma_pairs_out_push(order@.smart_combo_routing_params.subrange(0,
                        li as int), order@.smart_combo_routing_params[li as int]);
                    assert(order@.smart_combo_routing_params.subrange(0, li as int).push(
                        order@.smart_combo_routing_params[li as int])
                        =~= order@.smart_combo_routing_params.subrange(0, li + 1));
                }
                li = li + 1;
            }
            proof {
                assert(order@.smart_combo_routing_params.subrange(0,
                    order@.smart_combo_routing_params.len() as int)
                    =~= order@.smart_combo_routing_params);
            }
        }
        proof {
            assert(params@ =~~= base0 + po_bag_fields(self.server_version as int, contract, order));
        }
    }

    /// Writes the `terms` group of an order placement.
    #[verifier::rlimit(100)]
    #[verifier::spinoff_prover]
    fn po_terms_write(&self, params: &mut ApiParameters, order: &Order)
        ensures
            final(params)@ == old(params)@ + po_terms_fields(self.server_version as int, order),
    {
        let ghost base0 = params@;
        if self.server_version >= 9 {
            params.add_string("");
        }
        if self.server_version >= 10 {
            params.add_double(&order.routing.discretionary_amt);
        }
        if self.server_version >= 11 {
            params.add_string(order.terms.good_after_time.as_str());
        }
        if self.server_version >= 12 {
            params.add_string(order.terms.good_till_date.as_str());
        }
        if self.server_version >= 13 {
            params.add_string(order.routing.fa_group.as_str());
            params.add_string(order.routing.fa_method.as_str());
            params.add_string(order.routing.fa_percentage.as_str());
            params.add_string(order.routing.fa_profile.as_str());
        }
        if self.server_version >= crate::min_server_version::MODELS_SUPPORT {
            params.add_string(order.algo.model_code.as_str());
        }
        if self.server_version >= 18 {
            params.add_int(order.routing.short_sale_slot);
            params.add_string(order.routing.designated_location.as_str());
        }
        if self.server_version >= crate::min_server_version::SSHORTX_OLD {
            params.add_int(order.routing.exempt_code);
        }
        proof {
            assert(params@ =~~= base0 + po_terms_fields(self.server_version as int, order));
        }
    }

    /// Writes the `auction` group of an order placement.
    #[verifier::rlimit(100)]
    #[verifier::spinoff_prover]
    fn po_auction_write(&self, params: &mut ApiParameters, order: &Order)
        ensures
            final(params)@ == old(params)@ + po_auction_fields(self.server_version as int, order),
    {
        let ghost base0 = params@;
        let is_vol_type = {
            let vol = String::from_str("VOL");
            order.main.order_type.eq(&vol)
        };
        proof {
            reveal_strlit("VOL");
        }
        if self.server_version >= 19 {
            params.add_int(order.main.oca_type);
            if self.server_version < 38 {
                params.add_bool(false);
            }
            params.add_string(order.terms.rule80a.as_str());
            params.add_string(order.scale.settling_firm.as_str());
            params.add_bool(order.terms.all_or_none);
            params.add_int_max(order.terms.min_qty);
            params.add_double_max(&order.terms.percent_offset);
            params.add_bool(order.routing.e_trade_only);
            params.add_bool(order.routing.firm_quote_only);
            params.add_double_max(&order.routing.nbbo_price_cap);
            params.add_int_max(order.routing.auction_strategy);
            params.add_double_max(&order.routing.starting_price);
            params.add_double_max(&order.routing.stock_ref_price);
            params.add_double_max(&order.routing.delta);
            let vol26 = self.server_version == 26 && is_vol_type;
            if vol26 {
                params.add_double_max(&Double::Unset);
                params.add_double_max(&Double::Unset);
            } else {
                params.add_double_max(&order.routing.stock_range_lower);
                params.add_double_max(&order.routing.stock_range_upper);
            }
        }
        proof {
            assert(params@ =~~= base0 + po_auction_fields(self.server_version as int, order));
        }
    }

    /// Writes the `vol` group of an order placement.
    #[verifier::rlimit(100)]
    #[verifier::spinoff_prover]
    fn po_vol_write(&self, params: &mut ApiParameters, order: &Order)
        ensures
            final(params)@ == old(params)@ + po_vol_fields(self.server_version as int, order),
    {
        let ghost base0 = params@;
        let is_vol_type = {
            let vol = String::from_str("VOL");
            order.main.order_type.eq(&vol)
        };
        proof {
            reveal_strlit("VOL");
        }
        if self.server_version >= 22 {
            params.add_bool(order.terms.override_percentage_constraints);
        }
        if self.server_version >= 26 {
            params.add_double_max(&order.vol.volatility);
            params.add_int_max(order.vol.volatility_type);
            if self.server_version < 28 {
                let is_mkt = strings_are_equal("MKT", order.vol.delta_neutral_order_type.as_str());
                params.add_bool(is_mkt);
            } else {
                params.add_string(order.vol.delta_neutral_order_type.as_str());
                params.add_double_max(&order.vol.delta_neutral_aux_price);
                if self.server_version >= crate::min_server_version::DELTA_NEUTRAL_CONID && !order.vol.delta_neutral_order_type.as_str().is_empty() {
                    params.add_int(order.vol.delta_neutral_con_id);
                    params.add_string(order.vol.delta_neutral_settling_firm.as_str());
                    params.add_string(order.vol.delta_neutral_clearing_account.as_str());
                    params.add_string(order.vol.delta_neutral_clearing_intent.as_str());
                }
                if self.server_version >= crate::min_server_version::DELTA_NEUTRAL_OPEN_CLOSE && !order.vol.delta_neutral_order_type.as_str().is_empty() {
                    params.add_string(order.vol.delta_neutral_open_close.as_str());
                    params.add_bool(order.vol.delta_neutral_short_sale);
                    params.add_int(order.vol.delta_neutral_short_sale_slot);
                    params.add_string(order.vol.delta_neutral_designated_location.as_str());
                }
            }
            params.add_int(order.vol.continuous_update);
            if self.server_version == 26 {
                if is_vol_type {
                    params.add_double_max(&order.routing.stock_range_lower);
                    params.add_double_max(&order.routing.stock_range_upper);
                } else {
                    params.add_double_max(&Double::Unset);
                    params.add_double_max(&Double::Unset);
                }
            }
            params.add_int_max(order.vol.reference_price_type);
        }
        if self.server_version >= 30 {
            params.add_double_max(&order.terms.trail_stop_price);
        }
        if self.server_version >= crate::min_server_version::TRAILING_PERCENT {
            params.add_double_max(&order.terms.trailing_percent);
        }
        proof {
            assert(params@ =~~= base0 + po_vol_fields(self.server_version as int, order));
        }
    }

    /// Writes the `peg` group of an order placement.
    #[verifier::rlimit(100)]
    #[verifier::spinoff_prover]
    fn po_peg_write(&self, params: &mut ApiParameters, order: &Order)
        requires
            order.peg.conditions@.len() <= i32::MAX,
        ensures
            final(params)@ == old(params)@ + po_peg_fields(self.server_version as int, order),
    {
        let ghost base0 = params@;
        let is_peg_bench_type = str_eq_peg_bench_req(order.main.order_type.as_str());
        if self.server_version >= crate::min_server_version::PEGGED_TO_BENCHMARK {
            if is_peg_bench_type {
                params.add_int(order.peg.reference_contract_id);
                params.add_bool(order.peg.is_pegged_change_amount_decrease);
                params.add_double(&order.peg.pegged_change_amount);
                params.add_double(&order.peg.reference_change_amount);
                params.add_string(order.peg.reference_exchange.as_str());
            }
            params.add_int(order.peg.conditions.len() as i32);
            proof {
                assert(params@ =~~= base0 + peg_intro_fields(self.server_version as int,
                    order));
            }
            if order.peg.conditions.len() > 0 {
                let ghost base = params@;
                let mut li: usize = 0;
                proof {
                    assert(conds_out(order@.conditions.subrange(0, 0))
                        =~= Seq::<Seq<char>>::empty());
                    assert(params@ =~= base + conds_out(order@.conditions.subrange(0, 0)));
                }
                while li < order.peg.conditions.len()
                    invariant
                        0 <= li <= order.peg.conditions@.len(),
                        order.peg.conditions@.len() <= i32::MAX,
                        params@ == base + conds_out(order@.conditions.subrange(0, li as int)),
                    decreases order.peg.conditions@.len() - li,
                {
                    let code = order.peg.conditions[li].get_type();
                    params.add_int(code);
                    order.peg.conditions[li].serialize(params);
                    proof {
                        lemma_conds_out_push(order@.conditions.subrange(0, li as int),
                            order@.conditions[li as int]);
                        assert(order@.conditions.subrange(0, li as int).push(
                            order@.conditions[li as int])
                            =~= order@.conditions.subrange(0, li + 1));
                    }
                    li = li + 1;
                }
                proof {
                    assert(order@.conditions.subrange(0, order@.conditions.len() as int)
                        =~= order@.conditions);
                }
                params.add_bool(order.peg.conditions_ignore_rth);
                params.add_bool(order.peg.conditions_cancel_order);
            }
            proof {
                assert(params@ =~~= base0 + peg_intro_fields(self.server_version as int,
                    order) + peg_conds_fields(self.server_version as int, order));
            }
            params.add_string(order.peg.adjusted_order_type.as_str());
            params.add_double(&order.peg.trigger_price);
            params.add_double(&order.peg.lmt_price_offset);
            params.add_double(&order.peg.adjusted_stop_price);
            params.add_double(&order.peg.adjusted_stop_limit_price);
            params.add_double(&order.peg.adjusted_trailing_amount);
            params.add_int(order.peg.adjustable_trailing_unit);
        }
        proof {
            assert(params@ =~~= base0 + po_peg_fields(self.server_version as int, order));
        }
    }

    /// Writes the `reg` group of an order placement.
    #[verifier::rlimit(100)]
    #[verifier::spinoff_prover]
    fn po_reg_write(&self, params: &mut ApiParameters, order: &Order)
        ensures
            final(params)@ == old(params)@ + po_reg_fields(self.server_version as int, order),
    {
        let ghost base0 = params@;
        if self.server_version >= crate::min_server_version::EXT_OPERATOR {
            params.add_string(order.misc.ext_operator.as_str());
        }
        if self.server_version >= crate::min_server_version::SOFT_DOLLAR_TIER {
            params.add_string(order.algo.soft_dollar_tier.name.as_str());
            params.add_string(order.algo.soft_dollar_tier.val.as_str());
        }
        if self.server_version >= crate::min_server_version::CASH_QTY {
            params.add_double(&order.misc.cash_qty);
        }
        if self.server_version >= crate::min_server_version::DECISION_MAKER {
            params.add_string(order.misc.mifid2decision_maker.as_str());
            params.add_string(order.misc.mifid2decision_algo.as_str());
        }
        if self.server_version >= crate::min_server_version::MIFID_EXECUTION {
            params.add_string(order.misc.mifid2execution_trader.as_str());
            params.add_string(order.misc.mifid2execution_algo.as_str());
        }
        if self.server_version >= crate::min_server_version::AUTO_PRICE_FOR_HEDGE {
            params.add_bool(order.misc.dont_use_auto_price_for_hedge);
        }
        if self.server_version >= crate::min_server_version::ORDER_CONTAINER {
            params.add_bool(order.misc.is_oms_container);
        }
        if self.server_version >= crate::min_server_version::D_PEG_ORDERS {
            params.add_bool(order.misc.discretionary_up_to_limit_price);
        }
        if self.server_version >= crate::min_server_version::PRICE_MGMT_ALGO {
            params.add_bool(order.misc.use_price_mgmt_algo);
        }
        proof {
            assert(params@ =~~= base0 + po_reg_fields(self.server_version as int, order));
        }
    }

    /// Writes the `action` group of an order placement.
    #[verifier::rlimit(100)]
    #[verifier::spinoff_prover]
    fn po_action_write(&self, params: &mut ApiParameters, order: &Order)
        ensures
            final(params)@ == old(params)@ + po_action_fields(self.server_version as int, order),
    {
        let ghost base0 = params@;
        params.add_string(order.main.action.as_str());
        if self.server_version >= crate::min_server_version::FRACTIONAL_POSITIONS {
            params.add_double(&order.main.total_quantity);
        } else {
            let q = quantity_int(&order.main.total_quantity);
            params.add_int(q);
        }
        params.add_string(order.main.order_type.as_str());
        if self.server_version < crate::min_server_version::ORDER_COMBO_LEGS_PRICE {
            if order.main.lmt_price.is_unset() {
                params.add_string("0");
            } else {
                params.add_double(&order.main.lmt_price);
            }
            proof {
                reveal_strlit("0");
            }
        } else {
            params.add_double_max(&order.main.lmt_price);
        }
        if self.server_version < crate::min_server_version::TRAILING_PERCENT {
            if order.main.aux_price.is_unset() {
                params.add_string("0");
            } else {
                params.add_double(&order.main.aux_price);
            }
            proof {
                reveal_strlit("0");
            }
        } else {
            params.add_double_max(&order.main.aux_price);
        }
        proof {
            assert(params@ =~~= base0 + po_action_fields(self.server_version as int, order));
        }
    }

    /// Writes the `basic` group of an order placement.
    #[verifier::rlimit(100)]
    #[verifier::spinoff_prover]
    fn po_basic_write(&self, params: &mut ApiParameters, order: &Order)
        ensures
            final(params)@ == old(params)@ + po_basic_fields(self.server_version as int, order),
    {
        let ghost base0 = params@;
        params.add_string(order.main.tif.as_str());
        params.add_string(order.main.oca_group.as_str());
        params.add_string(order.main.account.as_str());
        params.add_string(order.main.open_close.as_str());
        params.add_int(order.main.origin.code());
        params.add_string(order.main.order_ref.as_str());
        params.add_bool(order.main.transmit);
        if self.server_version >= 4 {
            params.add_int(order.main.parent_id);
        }
        if self.server_version >= 5 {
            params.add_bool(order.terms.block_order);
            params.add_bool(order.terms.sweep_to_fill);
            params.add_int(order.terms.display_size);
            params.add_int(order.terms.trigger_method);
            if self.server_version < 38 {
                params.add_bool(false);
            } else {
                params.add_bool(order.terms.outside_rth);
            }
        }
        if self.server_version >= 7 {
            params.add_bool(order.terms.hidden);
        }
        proof {
            assert(params@ =~~= base0 + po_basic_fields(self.server_version as int, order));
        }
    }

    /// Writes the `scale1` group of an order placement.
    #[verifier::rlimit(100)]
    #[verifier::spinoff_prover]
    fn po_scale1_write(&self, params: &mut ApiParameters, order: &Order)
        ensures
            final(params)@ == old(params)@ + po_scale1_fields(self.server_version as int, order),
    {
        let ghost base0 = params@;
        if self.server_version >= crate::min_server_version::SCALE_ORDERS {
            if self.server_version >= crate::min_server_version::SCALE_ORDERS2 {
                params.add_int_max(order.scale.scale_init_level_size);
                params.add_int_max(order.scale.scale_subs_level_size);
            } else {
                params.add_string("");
                params.add_int_max(order.scale.scale_init_level_size);
            }
            params.add_double_max(&order.scale.scale_price_increment);
        }
        if self.server_version >= crate::min_server_version::SCALE_ORDERS3 && order.scale.scale_price_increment.is_positive() {
            params.add_double_max(&order.scale.scale_price_adjust_value);
            params.add_int_max(order.scale.scale_price_adjust_interval);
            params.add_double_max(&order.scale.scale_profit_offset);
            params.add_bool(order.scale.scale_auto_reset);
            params.add_int_max(order.scale.scale_init_position);
            params.add_int_max(order.scale.scale_init_fill_qty);
            params.add_bool(order.scale.scale_random_percent);
        }
        if self.server_version >= crate::min_server_version::SCALE_TABLE {
            params.add_string(order.scale.scale_table.as_str());
            params.add_string(order.terms.active_start_time.as_str());
            params.add_string(order.terms.active_stop_time.as_str());
        }
        proof {
            assert(params@ =~~= base0 + po_scale1_fields(self.server_version as int, order));
        }
    }

    /// Writes the `scale2` group of an order placement.
    #[verifier::rlimit(100)]
    #[verifier::spinoff_prover]
    fn po_scale2_write(&self, params: &mut ApiParameters, order: &Order)
        ensures
            final(params)@ == old(params)@ + po_scale2_fields(self.server_version as int, order),
    {
        let ghost base0 = params@;
        if self.server_version >= crate::min_server_version::HEDGE_ORDERS {
            params.add_string(order.scale.hedge_type.as_str());
            if !order.scale.hedge_type.as_str().is_empty() {
                params.add_string(order.scale.hedge_param.as_str());
            }
        }
        if self.server_version >= crate::min_server_version::OPT_OUT_SMART_ROUTING {
            params.add_bool(order.routing.opt_out_smart_routing);
        }
        if self.server_version >= crate::min_server_version::PTA_ORDERS {
            params.add_string(order.scale.clearing_account.as_str());
            params.add_string(order.scale.clearing_intent.as_str());
        }
        if self.server_version >= crate::min_server_version::NOT_HELD {
            params.add_bool(order.algo.not_held);
        }
        proof {
            assert(params@ =~~= base0 + po_scale2_fields(self.server_version as int, order));
        }
    }

    /// Writes the `dnc` group of an order placement.
    #[verifier::rlimit(100)]
    #[verifier::spinoff_prover]
    fn po_dnc_write(&self, params: &mut ApiParameters, contract: &Contract, order: &Order)
        requires
            order.algo.algo_params@.len() <= i32::MAX,
        ensures
            final(params)@ == old(params)@ + po_dnc_fields(self.server_version as int, contract, order),
    {
        let ghost base0 = params@;
        if self.server_version >= crate::min_server_version::DELTA_NEUTRAL {
            match &contract.delta_neutral_contract {
                Some(dn) => {
                    params.add_bool(true);
                    params.add_int(dn.con_id);
                    params.add_double(&dn.delta);
                    params.add_double(&dn.price);
                },
                None => {
                    params.add_bool(false);
                },
            }
        }
        if self.server_version >= crate::min_server_version::ALGO_ORDERS {
            params.add_string(order.algo.algo_strategy.as_str());
            if !order.algo.algo_strategy.as_str().is_empty() {
                let ghost base = params@;
                params.add_int(order.algo.algo_params.len() as i32);
                let mut li: usize = 0;
                proof {
                    assert(pairs_out(order@.algo_params.subrange(0, 0))
                        =~= Seq::<Seq<char>>::empty());
                    assert(params@ =~= base
                        + seq![int_to_dec(order@.algo_params.len() as int)]
                        + pairs_out(order@.algo_params.subrange(0, 0)));
                }
                while li < order.algo.algo_params.len()
                    invariant
                        0 <= li <= order.algo.algo_params@.len(),
                        order.algo.algo_params@.len() <= i32::MAX,
                        params@ == base + seq![int_to_dec(order@.algo_params.len() as int)]
                            + pairs_out(order@.algo_params.subrange(0, li as int)),
                    decreases order.algo.algo_params@.len() - li,
                {
                    params.add_string(order.algo.algo_params[li].tag.as_str());
                    params.add_string(order.algo.algo_params[li].value.as_str());
                    proof {
                        lemma_pairs_out_push(order@.algo_params.subrange(0, li as int),
                            order@.algo_params[li as int]);
                        assert(order@.algo_params.subrange(0, li as int).push(
                            order@.algo_params[li as int])
                            =~= order@.algo_params.subrange(0, li + 1));
                    }
                    li = li + 1;
                }
                proof {
                    assert(order@.algo_params.subrange(0, order@.algo_params.len() as int)
                        =~= order@.algo_params);
                }
            }
        }
        proof {
            assert(params@ =~~= base0 + po_dnc_fields(self.server_version as int, contract, order));
        }
    }

    /// Writes the `misc2` group of an order placement.
    #[verifier::rlimit(100)]
    #[verifier::spinoff_prover]
    fn po_misc2_write(&self, params: &mut ApiParameters, order: &Order)
        ensures
            final(params)@ == old(params)@ + po_misc2_fields(self.server_version as int, order),
    {
        let ghost base0 = params@;
        if self.server_version >= crate::min_server_version::ALGO_ID {
            params.add_string(order.algo.algo_id.as_str());
        }
        if self.server_version >= crate::min_server_version::WHAT_IF_ORDERS {
            params.add_bool(order.algo.what_if);
        }
        if self.server_version >= crate::min_server_version::LINKING {
            params.add_tag_value_vec(&order.algo.order_misc_options);
        }
        if self.server_version >= crate::min_server_version::ORDER_SOLICITED {
            params.add_bool(order.algo.solicited);
        }
        if self.server_version >= crate::min_server_version::RANDOMIZE_SIZE_AND_PRICE {
            params.add_bool(order.vol.randomize_size);
            params.add_bool(order.vol.randomize_price);
        }
        proof {
            assert(params@ =~~= base0 + po_misc2_fields(self.server_version as int, order));
        }
    }

    /// Builds an order placement: validates the order and its contract
    /// against the negotiated server version, then writes the full order
    /// schema in encoding order, each group under its version gate, with
    /// every variable-length structure preceded by its count.
    pub fn place_order(&self, order_id: i32, contract: &Contract, order: &Order) -> (r:
        RequestOutcome)
        requires
            contract.combo_legs@.len() <= i32::MAX,
            order.algo.order_combo_legs@.len() <= i32::MAX,
            order.algo.smart_combo_routing_params@.len() <= i32::MAX,
            order.algo.algo_params@.len() <= i32::MAX,
            order.peg.conditions@.len() <= i32::MAX,
        ensures
            !self.is_connected ==> (r.message is None && r.events@.len() == 1
                && is_not_connected_event(r.events@[0])),
            self.is_connected && !(order_supported(self.server_version as int, order@,
                is_bag(contract@)) && contract_supported(self.server_version as int,
                contract@)) ==> (r.message is None && r.events@.len() > 0
                && all_update_tws(r.events@, 0, order_id)),
            self.is_connected && order_supported(self.server_version as int, order@,
                is_bag(contract@)) && contract_supported(self.server_version as int,
                contract@) ==> (r.message matches Some(msg)
                && msg.deep_view() == place_order_fields(self.server_version as int,
                    order_id, contract, order)
                && all_update_tws(r.events@, 0, order_id)),
            self.is_connected && order_supported(self.server_version as int, order@,
                is_bag(contract@)) && contract_supported(self.server_version as int,
                contract@) && !order_warns(self.server_version as int, order@)
                ==> r.events@.len() == 0,
    {
        let mut events: Vec<IncomingMessagesEnum> = Vec::new();
        if !self.is_connected {
            let ev = self.not_connected_event();
            events.push(ev);
            return RequestOutcome { message: None, events };
        }
        let is_bag_order = strings_are_equal(crate::helper_constants::BAG_SEC_TYPE,
            contract.sec_type.as_str());
        if !self.verify_order(order, order_id, is_bag_order, &mut events) {
            return RequestOutcome { message: None, events };
        }
        if !self.verify_order_contract(contract, order_id, &mut events) {
            return RequestOutcome { message: None, events };
        }
        let mut params = ApiParameters::new();
        self.po_header_write(&mut params, order_id, contract);
        self.po_action_write(&mut params, order);
        self.po_basic_write(&mut params, order);
        self.po_bag_write(&mut params, contract, order);
        self.po_terms_write(&mut params, order);
        self.po_auction_write(&mut params, order);
        self.po_vol_write(&mut params, order);
        self.po_scale1_write(&mut params, order);
        self.po_scale2_write(&mut params, order);
        self.po_dnc_write(&mut params, contract, order);
        self.po_misc2_write(&mut params, order);
        self.po_peg_write(&mut params, order);
        self.po_reg_write(&mut params, order);
        proof {
            assert(params@ =~= place_order_fields(self.server_version as int, order_id,
                contract, order));
        }
        let msg = params.into_fields();
        RequestOutcome { message: Some(msg), events }
    }
}

/// Whether the text names the pegged-to-benchmark order type.
fn str_eq_peg_bench_req(s: &str) -> (r: bool)
    ensures
        r == (s@ == "PEG BENCH"@),
{
    let a = s.to_owned();
    let b = String::from_str("PEG BENCH");
    a.eq(&b)
}

} // verus!
