//! The inbound decoder's field cursor and primitive readers.
//!
//! A decoder walks the tokenized field sequence of one frame positionally.
//! Following the protocol's resilience policy, a primitive read past the
//! end of the sequence, or of a malformed numeric field, yields the type's
//! zero-equivalent default instead of failing the message.

use vstd::prelude::*;
use crate::double::{Double, dbl_field, dbl_field_show_unset};
use crate::helper_constants::UNSET_INTEGER;
use crate::min_server_version;
use crate::models::account_summary::{AccountSummary, AccountSummaryV};
use crate::models::bar::{Bar, BarV};
use crate::models::contract::{ContractV, contract_init};
use crate::models::contract_details::{ContractDetails, ContractDetailsV, contract_details_init};
use crate::models::order_status_message::{OrderStatusMessage, OrderStatusMessageV};
use crate::models::scan_data_item::{ScanDataItem, ScanDataItemV};
use crate::models::tag_value::{TagValue, TagValueV};
use crate::models::contract::Contract;
use crate::models::order::Order;
use crate::models::order_state::OrderState;
use crate::models::order_data_item::OrderDataItem;
use crate::enums::incoming_message_enum::IncomingMessagesEnum;
use crate::incoming_message_constants;
use crate::order_decoder::{OrderDecoder, oo_base, oo_mv};
use crate::models::tick_last::{TickLast, TickLastV};
use crate::numbers::{i32_field_value, i64_field_value, int_to_dec, parse_i32_str, parse_i64_str};

verus! {

/// The field at position `i`, or the empty field past the end.
pub open spec fn field_at(fs: Seq<Seq<char>>, i: int) -> Seq<char> {
    if 0 <= i < fs.len() {
        fs[i]
    } else {
        Seq::empty()
    }
}

/// Where the cursor stands after one read: one further, until the end.
pub open spec fn decoder_next_pos(fs: Seq<Seq<char>>, pos: int) -> int {
    if pos < fs.len() {
        pos + 1
    } else {
        pos
    }
}


/// Position `i` clamped to the end of the field sequence: where the
/// cursor stands after `i` reads.
pub open spec fn cpos(fs: Seq<Seq<char>>, i: int) -> int {
    if i < fs.len() {
        i
    } else {
        fs.len() as int
    }
}

pub broadcast proof fn lemma_cpos_step(fs: Seq<Seq<char>>, i: int)
    requires
        i >= 0,
    ensures
        #[trigger] decoder_next_pos(fs, cpos(fs, i)) == cpos(fs, i + 1),
        field_at(fs, cpos(fs, i)) == field_at(fs, i),
{
}

/// Where the cursor stands after `k` more reads: `k` further, clamped to
/// the end of the field sequence.
pub open spec fn adv(fs: Seq<Seq<char>>, pos: int, k: int) -> int {
    if pos + k <= fs.len() {
        pos + k
    } else {
        fs.len() as int
    }
}


pub broadcast proof fn lemma_cpos_adv(fs: Seq<Seq<char>>, i: int, k: int)
    requires
        i >= 0,
        k >= 0,
    ensures
        #[trigger] adv(fs, cpos(fs, i), k) == cpos(fs, i + k),
{
}

/// What an unset-aware integer field reads as: a zero value becomes the
/// unset sentinel.
pub open spec fn i32_show_unset_value(s: Seq<char>) -> int {
    if i32_field_value(s) == 0 {
        i32::MAX as int
    } else {
        i32_field_value(s)
    }
}

/// A positional cursor over one frame's field sequence.
pub struct Decoder {
    fields: Vec<String>,
    pos: usize,
}

impl Decoder {
    pub closed spec fn fields_view(&self) -> Seq<Seq<char>> {
        self.fields.deep_view()
    }

    pub closed spec fn pos_view(&self) -> int {
        self.pos as int
    }

    pub open spec fn wf(&self) -> bool {
        0 <= self.pos_view() <= self.fields_view().len()
    }

    pub fn new(fields: Vec<String>) -> (r: Decoder)
        ensures
            r.fields_view() == fields.deep_view(),
            r.pos_view() == 0,
            r.wf(),
    {
        Decoder { fields, pos: 0 }
    }

    /// Takes the field under the cursor and advances; past the end, the
    /// empty field.
    pub fn take_field(&mut self) -> (r: String)
        requires
            old(self).wf(),
        ensures
            r@ == field_at(old(self).fields_view(), old(self).pos_view()),
            final(self).fields_view() == old(self).fields_view(),
            final(self).pos_view() == decoder_next_pos(old(self).fields_view(),
                old(self).pos_view()),
            final(self).wf(),
    {
        if self.pos < self.fields.len() {
            let s = self.fields[self.pos].clone();
            self.pos = self.pos + 1;
            s
        } else {
            String::new()
        }
    }

    /// How many fields remain under the cursor.
    pub fn remaining(&self) -> (r: usize)
        requires
            self.wf(),
        ensures
            r == self.fields_view().len() - self.pos_view(),
    {
        self.fields.len() - self.pos
    }

    /// A second cursor over the same fields, at the same position.
    pub fn clone_cursor(&self) -> (r: Decoder)
        ensures
            r.fields_view() == self.fields_view(),
            r.pos_view() == self.pos_view(),
            r.wf() == self.wf(),
    {
        let fields = self.fields.clone();
        proof {
            assert forall|i: int| 0 <= i < fields@.len()
                implies #[trigger] fields@[i] == self.fields@[i] by {
                assert(vstd::pervasive::cloned::<String>(self.fields@[i], fields@[i]));
            }
            assert(fields.deep_view() =~~= self.fields.deep_view());
        }
        Decoder { fields, pos: self.pos }
    }
}

/// Reads one string field; the empty string past the end.
pub fn decode_string(d: &mut Decoder) -> (r: String)
    requires
        old(d).wf(),
    ensures
        r@ == field_at(old(d).fields_view(), old(d).pos_view()),
        final(d).fields_view() == old(d).fields_view(),
        final(d).pos_view() == decoder_next_pos(old(d).fields_view(), old(d).pos_view()),
        final(d).wf(),
{
    d.take_field()
}

/// Reads one integer field; zero when malformed or out of range.
pub fn decode_i32(d: &mut Decoder) -> (r: i32)
    requires
        old(d).wf(),
    ensures
        r as int == i32_field_value(field_at(old(d).fields_view(), old(d).pos_view())),
        final(d).fields_view() == old(d).fields_view(),
        final(d).pos_view() == decoder_next_pos(old(d).fields_view(), old(d).pos_view()),
        final(d).wf(),
{
    let s = d.take_field();
    parse_i32_str(s.as_str())
}

/// Reads one unset-aware integer field; a zero value reads as the unset
/// sentinel.
pub fn decode_i32_show_unset(d: &mut Decoder) -> (r: i32)
    requires
        old(d).wf(),
    ensures
        r as int == i32_show_unset_value(field_at(old(d).fields_view(), old(d).pos_view())),
        final(d).fields_view() == old(d).fields_view(),
        final(d).pos_view() == decoder_next_pos(old(d).fields_view(), old(d).pos_view()),
        final(d).wf(),
{
    let v = decode_i32(d);
    if v == 0 {
        UNSET_INTEGER
    } else {
        v
    }
}

/// Reads one wide integer field; zero when malformed or out of range.
pub fn decode_i64(d: &mut Decoder) -> (r: i64)
    requires
        old(d).wf(),
    ensures
        r as int == i64_field_value(field_at(old(d).fields_view(), old(d).pos_view())),
        final(d).fields_view() == old(d).fields_view(),
        final(d).pos_view() == decoder_next_pos(old(d).fields_view(), old(d).pos_view()),
        final(d).wf(),
{
    let s = d.take_field();
    parse_i64_str(s.as_str())
}

/// Reads one boolean field: any field whose integer value is non-zero.
pub fn decode_bool(d: &mut Decoder) -> (r: bool)
    requires
        old(d).wf(),
    ensures
        r == (i32_field_value(field_at(old(d).fields_view(), old(d).pos_view())) != 0),
        final(d).fields_view() == old(d).fields_view(),
        final(d).pos_view() == decoder_next_pos(old(d).fields_view(), old(d).pos_view()),
        final(d).wf(),
{
    let v = decode_i32(d);
    v != 0
}

/// Reads one decimal number field; the zero default when malformed.
pub fn decode_f64(d: &mut Decoder) -> (r: Double)
    requires
        old(d).wf(),
    ensures
        r@ == dbl_field(field_at(old(d).fields_view(), old(d).pos_view())),
        final(d).fields_view() == old(d).fields_view(),
        final(d).pos_view() == decoder_next_pos(old(d).fields_view(), old(d).pos_view()),
        final(d).wf(),
{
    let s = d.take_field();
    Double::from_field(&s)
}

/// Reads one unset-aware decimal number field; an empty, malformed or
/// zero field reads as the unset sentinel.
pub fn decode_f64_show_unset(d: &mut Decoder) -> (r: Double)
    requires
        old(d).wf(),
    ensures
        r@ == dbl_field_show_unset(field_at(old(d).fields_view(), old(d).pos_view())),
        final(d).fields_view() == old(d).fields_view(),
        final(d).pos_view() == decoder_next_pos(old(d).fields_view(), old(d).pos_view()),
        final(d).wf(),
{
    let s = d.take_field();
    Double::from_field_show_unset(&s)
}

/// The integer value of field `i`.
pub open spec fn fld_i32(fs: Seq<Seq<char>>, i: int) -> int {
    i32_field_value(field_at(fs, i))
}

/// The wide integer value of field `i`.
pub open spec fn fld_i64(fs: Seq<Seq<char>>, i: int) -> int {
    i64_field_value(field_at(fs, i))
}

/// The text of field `i`.
pub open spec fn fld_str(fs: Seq<Seq<char>>, i: int) -> Seq<char> {
    field_at(fs, i)
}

/// The decimal number value of field `i`.
pub open spec fn fld_dbl(fs: Seq<Seq<char>>, i: int) -> Option<Seq<char>> {
    dbl_field(field_at(fs, i))
}

/// The boolean value of field `i`.
pub open spec fn fld_bool(fs: Seq<Seq<char>>, i: int) -> bool {
    fld_i32(fs, i) != 0
}

/// Where the fixed reads of an order-status frame start: the legacy
/// message-version field is present only before the market-cap era.
pub open spec fn order_status_off(sv: i32) -> int {
    if sv < min_server_version::MARKET_CAP_PRICE {
        2
    } else {
        1
    }
}

/// The order-status record an inbound frame decodes to under a given
/// server version.
pub open spec fn order_status_view(fs: Seq<Seq<char>>, sv: i32) -> OrderStatusMessageV {
    let o = order_status_off(sv);
    OrderStatusMessageV {
        order_id: fld_i32(fs, o) as i32,
        status: fld_str(fs, o + 1),
        filled: if sv >= min_server_version::FRACTIONAL_POSITIONS {
            fld_dbl(fs, o + 2)
        } else {
            Some(int_to_dec(fld_i32(fs, o + 2)))
        },
        remaining: if sv >= min_server_version::FRACTIONAL_POSITIONS {
            fld_dbl(fs, o + 3)
        } else {
            Some(int_to_dec(fld_i32(fs, o + 3)))
        },
        avg_fill_price: fld_dbl(fs, o + 4),
        perm_id: fld_i32(fs, o + 5) as i32,
        parent_id: fld_i32(fs, o + 6) as i32,
        last_fill_price: fld_dbl(fs, o + 7),
        client_id: fld_i32(fs, o + 8) as i32,
        why_held: fld_str(fs, o + 9),
        mkt_cap_price: if sv >= min_server_version::MARKET_CAP_PRICE {
            fld_dbl(fs, o + 10)
        } else {
            Some("0"@)
        },
    }
}

/// The account-summary row an inbound frame decodes to.
pub open spec fn account_summary_view(fs: Seq<Seq<char>>) -> AccountSummaryV {
    AccountSummaryV {
        request_id: fld_i32(fs, 2) as i32,
        account: fld_str(fs, 3),
        tag: fld_str(fs, 4),
        value: fld_str(fs, 5),
        currency: fld_str(fs, 6),
    }
}

/// The real-time bar an inbound frame decodes to.
pub open spec fn time_bar_view(fs: Seq<Seq<char>>) -> BarV {
    BarV {
        time_str: fld_str(fs, 3),
        time_int: 0,
        open: fld_dbl(fs, 4),
        high: fld_dbl(fs, 5),
        low: fld_dbl(fs, 6),
        close: fld_dbl(fs, 7),
        volume: fld_i64(fs, 8) as i64,
        wap: fld_dbl(fs, 9),
        count: fld_i32(fs, 10) as i32,
        color: None,
    }
}

/// The trade tick a tick-by-tick frame decodes to.
pub open spec fn tick_last_view(fs: Seq<Seq<char>>) -> TickLastV {
    TickLastV {
        time: fld_i64(fs, 3) as i64,
        price: fld_dbl(fs, 4),
        size: fld_i32(fs, 5) as i32,
        mask: fld_i32(fs, 6) as i32,
        exchange: fld_str(fs, 7),
        special_conditions: fld_str(fs, 8),
    }
}

impl Decoder {
    /// Decodes an error frame: the request id, the error code and the
    /// error text.
    pub fn error_event(&mut self) -> (r: (i32, i32, String))
        requires
            old(self).wf(),
            old(self).pos_view() == 0,
        ensures
            r.0 as int == fld_i32(old(self).fields_view(), 2),
            r.1 as int == fld_i32(old(self).fields_view(), 3),
            r.2@ == fld_str(old(self).fields_view(), 4),
    {
        proof {
            broadcast use lemma_cpos_step;
        }
        self.take_field();
        self.take_field();
        let id = decode_i32(self);
        let error_code = decode_i32(self);
        let error_message = decode_string(self);
        (id, error_code, error_message)
    }

    /// Decodes a next-valid-id frame: the next usable order id.
    pub fn next_valid_id(&mut self) -> (r: i32)
        requires
            old(self).wf(),
            old(self).pos_view() == 0,
        ensures
            r as int == fld_i32(old(self).fields_view(), 2),
    {
        proof {
            broadcast use lemma_cpos_step;
        }
        self.take_field();
        self.take_field();
        decode_i32(self)
    }

    /// Decodes a managed-accounts frame: the comma-separated account list.
    pub fn managed_accounts_event(&mut self) -> (r: String)
        requires
            old(self).wf(),
            old(self).pos_view() == 0,
        ensures
            r@ == fld_str(old(self).fields_view(), 2),
    {
        proof {
            broadcast use lemma_cpos_step;
        }
        self.take_field();
        self.take_field();
        decode_string(self)
    }

    /// Decodes one account-summary row.
    pub fn account_summary_event(&mut self) -> (r: AccountSummary)
        requires
            old(self).wf(),
            old(self).pos_view() == 0,
        ensures
            r@ == account_summary_view(old(self).fields_view()),
    {
        proof {
            broadcast use lemma_cpos_step;
        }
        self.take_field();
        self.take_field();
        let request_id = decode_i32(self);
        let account = decode_string(self);
        let tag = decode_string(self);
        let value = decode_string(self);
        let currency = decode_string(self);
        let r = AccountSummary { request_id, account, tag, value, currency };
        proof {
            assert(r@ =~~= account_summary_view(old(self).fields_view()));
        }
        r
    }

    /// Decodes an account-summary-end frame: the request id it closes.
    pub fn account_summary_event_end(&mut self) -> (r: i32)
        requires
            old(self).wf(),
            old(self).pos_view() == 0,
        ensures
            r as int == fld_i32(old(self).fields_view(), 2),
    {
        proof {
            broadcast use lemma_cpos_step;
        }
        self.take_field();
        self.take_field();
        decode_i32(self)
    }

    /// Decodes an order-status frame. Fields absent before their version
    /// gate keep their defaults.
    pub fn order_status_event(&mut self, server_version: i32) -> (r: OrderStatusMessage)
        requires
            old(self).wf(),
            old(self).pos_view() == 0,
        ensures
            r@ == order_status_view(old(self).fields_view(), server_version),
    {
        proof {
            broadcast use lemma_cpos_step;
        }
        self.take_field();
        if server_version < min_server_version::MARKET_CAP_PRICE {
            self.take_field();
        }
        let order_id = decode_i32(self);
        let status = decode_string(self);
        let filled = if server_version >= min_server_version::FRACTIONAL_POSITIONS {
            decode_f64(self)
        } else {
            let v = decode_i32(self);
            Double::Num(crate::numbers::i32_to_dec_string(v))
        };
        let remaining = if server_version >= min_server_version::FRACTIONAL_POSITIONS {
            decode_f64(self)
        } else {
            let v = decode_i32(self);
            Double::Num(crate::numbers::i32_to_dec_string(v))
        };
        let avg_fill_price = decode_f64(self);
        let perm_id = decode_i32(self);
        let parent_id = decode_i32(self);
        let last_fill_price = decode_f64(self);
        let client_id = decode_i32(self);
        let why_held = decode_string(self);
        let mkt_cap_price = if server_version >= min_server_version::MARKET_CAP_PRICE {
            decode_f64(self)
        } else {
            Double::Num(String::from_str("0"))
        };
        let r = OrderStatusMessage {
            order_id,
            status,
            filled,
            remaining,
            avg_fill_price,
            perm_id,
            parent_id,
            last_fill_price,
            client_id,
            why_held,
            mkt_cap_price,
        };
        proof {
            assert(r@ =~~= order_status_view(old(self).fields_view(), server_version));
        }
        r
    }

    /// Decodes a real-time bar frame: the request id and the bar.
    pub fn read_time_bars_event(&mut self) -> (r: (i32, Bar))
        requires
            old(self).wf(),
            old(self).pos_view() == 0,
        ensures
            r.0 as int == fld_i32(old(self).fields_view(), 2),
            r.1@ == time_bar_view(old(self).fields_view()),
    {
        proof {
            broadcast use lemma_cpos_step;
        }
        self.take_field();
        self.take_field();
        let req_id = decode_i32(self);
        let time_str = decode_string(self);
        let open = decode_f64(self);
        let high = decode_f64(self);
        let low = decode_f64(self);
        let close = decode_f64(self);
        let volume = decode_i64(self);
        let wap = decode_f64(self);
        let count = decode_i32(self);
        let bar = Bar {
            time_str,
            time_int: 0,
            open,
            high,
            low,
            close,
            volume,
            wap,
            count,
            color: None,
        };
        proof {
            assert(bar@ =~~= time_bar_view(old(self).fields_view()));
        }
        (req_id, bar)
    }

    /// Decodes a generic-tick frame: request id, tick kind and value.
    pub fn generic_tick(&mut self) -> (r: (i32, i32, Double))
        requires
            old(self).wf(),
            old(self).pos_view() == 0,
        ensures
            r.0 as int == fld_i32(old(self).fields_view(), 2),
            r.1 as int == fld_i32(old(self).fields_view(), 3),
            r.2@ == fld_dbl(old(self).fields_view(), 4),
    {
        proof {
            broadcast use lemma_cpos_step;
        }
        self.take_field();
        self.take_field();
        let req_id = decode_i32(self);
        let tick_type = decode_i32(self);
        let value = decode_f64(self);
        (req_id, tick_type, value)
    }

    /// Decodes a profit-and-loss frame: daily, unrealized and realized
    /// figures, the latter two only under the versions that carry them.
    pub fn profit_and_losses(&mut self, server_version: i32) -> (r: (i32, Double, Double, Double))
        requires
            old(self).wf(),
            old(self).pos_view() == 0,
        ensures
            r.0 as int == fld_i32(old(self).fields_view(), 1),
            r.1@ == fld_dbl(old(self).fields_view(), 2),
            r.2@ == if server_version >= min_server_version::UNREALIZED_PNL {
                fld_dbl(old(self).fields_view(), 3)
            } else {
                Some("0"@)
            },
            r.3@ == if server_version >= min_server_version::REALIZED_PNL {
                fld_dbl(old(self).fields_view(), 4)
            } else {
                Some("0"@)
            },
    {
        proof {
            broadcast use lemma_cpos_step;
        }
        self.take_field();
        let req_id = decode_i32(self);
        let daily_pnl = decode_f64(self);
        let unrealized_pnl = if server_version >= min_server_version::UNREALIZED_PNL {
            decode_f64(self)
        } else {
            Double::Num(String::from_str("0"))
        };
        let realized_pnl = if server_version >= min_server_version::REALIZED_PNL {
            decode_f64(self)
        } else {
            Double::Num(String::from_str("0"))
        };
        (req_id, daily_pnl, unrealized_pnl, realized_pnl)
    }

    /// Decodes a tick-by-tick frame; only trade ticks produce an event.
    pub fn tick_by_tick_event(&mut self) -> (r: Option<(i32, TickLast)>)
        requires
            old(self).wf(),
            old(self).pos_view() == 0,
        ensures
            ({
                let fs = old(self).fields_view();
                let tick_type = fld_i32(fs, 2);
                if tick_type == 1 || tick_type == 2 {
                    r matches Some(p) && p.0 as int == fld_i32(fs, 1)
                        && p.1@ == tick_last_view(fs)
                } else {
                    r is None
                }
            }),
    {
        proof {
            broadcast use lemma_cpos_step;
        }
        self.take_field();
        let req_id = decode_i32(self);
        let tick_type = decode_i32(self);
        let time = decode_i64(self);
        if tick_type == 1 || tick_type == 2 {
            let price = decode_f64(self);
            let size = decode_i32(self);
            let mask = decode_i32(self);
            let exchange = decode_string(self);
            let special_conditions = decode_string(self);
            let tick = TickLast { time, price, size, mask, exchange, special_conditions };
            proof {
                assert(tick@ =~~= tick_last_view(old(self).fields_view()));
            }
            Some((req_id, tick))
        } else {
            None
        }
    }
}

/// The position after a counted, fixed-width repetition: `n` items of
/// `width` fields each, stopping early if the fields run out.
pub open spec fn capped_end(fs_len: int, base: int, n: int, width: int) -> int
    decreases n,
{
    if n <= 0 || base >= fs_len {
        base
    } else {
        capped_end(fs_len, base + width, n - 1, width)
    }
}

pub proof fn lemma_capped_end_ge(fs_len: int, base: int, n: int, width: int)
    requires
        width >= 0,
    ensures
        capped_end(fs_len, base, n, width) >= base,
    decreases n,
{
    if !(n <= 0 || base >= fs_len) {
        lemma_capped_end_ge(fs_len, base + width, n - 1, width);
    }
}

/// One row of scanner data, read from sixteen fields at `b`.
pub open spec fn scan_item_view(fs: Seq<Seq<char>>, b: int, req_id: i32) -> ScanDataItemV {
    ScanDataItemV {
        request_id: req_id,
        rank: fld_i32(fs, b) as i32,
        contract_details: ContractDetailsV {
            contract: ContractV {
                con_id: fld_i32(fs, b + 1) as i32,
                symbol: fld_str(fs, b + 2),
                sec_type: fld_str(fs, b + 3),
                last_trade_date_or_contract_month: fld_str(fs, b + 4),
                strike: fld_dbl(fs, b + 5),
                right: fld_str(fs, b + 6),
                exchange: fld_str(fs, b + 7),
                currency: fld_str(fs, b + 8),
                local_symbol: fld_str(fs, b + 9),
                trading_class: fld_str(fs, b + 11),
                ..contract_init()
            },
            market_name: fld_str(fs, b + 10),
            ..contract_details_init()
        },
        distance: fld_str(fs, b + 12),
        benchmark: fld_str(fs, b + 13),
        projection: fld_str(fs, b + 14),
        legs_str: fld_str(fs, b + 15),
    }
}

/// The scanner rows from `n` sixteen-field groups starting at `base`,
/// stopping early if the fields run out.
pub open spec fn scan_items(fs: Seq<Seq<char>>, base: int, n: int) -> Seq<ScanDataItemV>
    decreases n,
{
    if n <= 0 || base >= fs.len() {
        Seq::empty()
    } else {
        seq![scan_item_view(fs, base, fld_i32(fs, 2) as i32)]
            + scan_items(fs, base + 16, n - 1)
    }
}

/// The rows a scanner-data frame decodes to.
pub open spec fn scanner_data_view(fs: Seq<Seq<char>>) -> Seq<ScanDataItemV> {
    scan_items(fs, 4, fld_i32(fs, 3))
}

/// Where the fixed reads of a historical-data frame start.
pub open spec fn hist_off(sv: i32) -> int {
    if sv < min_server_version::SYNT_REALTIME_BARS {
        2
    } else {
        1
    }
}

/// The per-bar field width of a historical-data frame.
pub open spec fn hist_width(sv: i32) -> int {
    if sv < min_server_version::SYNT_REALTIME_BARS {
        9
    } else {
        8
    }
}

/// One historical bar, read from the fields at `b`.
pub open spec fn hist_bar_view(fs: Seq<Seq<char>>, b: int, sv: i32) -> BarV {
    BarV {
        time_str: fld_str(fs, b),
        time_int: 0,
        open: fld_dbl(fs, b + 1),
        high: fld_dbl(fs, b + 2),
        low: fld_dbl(fs, b + 3),
        close: fld_dbl(fs, b + 4),
        volume: (if sv < min_server_version::SYNT_REALTIME_BARS {
            fld_i32(fs, b + 5)
        } else {
            fld_i64(fs, b + 5)
        }) as i64,
        wap: fld_dbl(fs, b + 6),
        count: (if sv < min_server_version::SYNT_REALTIME_BARS {
            fld_i32(fs, b + 8)
        } else {
            fld_i32(fs, b + 7)
        }) as i32,
        color: None,
    }
}

/// The bars from `n` bar groups starting at `base`, stopping early if
/// the fields run out.
pub open spec fn hist_bars(fs: Seq<Seq<char>>, base: int, n: int, sv: i32) -> Seq<BarV>
    decreases n,
{
    if n <= 0 || base >= fs.len() {
        Seq::empty()
    } else {
        seq![hist_bar_view(fs, base, sv)] + hist_bars(fs, base + hist_width(sv), n - 1, sv)
    }
}

/// The bars a historical-data frame decodes to.
pub open spec fn hist_bars_view(fs: Seq<Seq<char>>, sv: i32) -> Seq<BarV> {
    hist_bars(fs, hist_off(sv) + 4, fld_i32(fs, hist_off(sv) + 3), sv)
}

impl Decoder {
    /// Decodes a scanner-data frame into its rows.
    pub fn scanner_data_event(&mut self) -> (r: Vec<ScanDataItem>)
        requires
            old(self).wf(),
            old(self).pos_view() == 0,
        ensures
            r@.map_values(|s: ScanDataItem| s@) == scanner_data_view(old(self).fields_view()),
    {
        proof {
            broadcast use lemma_cpos_step;
        }
        let ghost fs = self.fields_view();
        self.take_field();
        self.take_field();
        let req_id = decode_i32(self);
        let number_of_elements = decode_i32(self);
        let mut rtn: Vec<ScanDataItem> = Vec::new();
        let mut j: i32 = 0;
        proof {
            assert(rtn@.map_values(|s: ScanDataItem| s@) =~= Seq::<ScanDataItemV>::empty());
        }
        while j < number_of_elements && self.remaining() > 0
            invariant
                self.fields_view() == fs,
                self.wf(),
                0 <= j,
                number_of_elements >= 0 ==> j <= number_of_elements,
                number_of_elements < 0 ==> j == 0,
                req_id as int == fld_i32(fs, 2),
                self.pos_view() == cpos(fs, 4 + 16 * j),
                scan_items(fs, 4, number_of_elements as int)
                    =~= rtn@.map_values(|s: ScanDataItem| s@)
                        + scan_items(fs, 4 + 16 * j, number_of_elements - j),
            ensures
                scan_items(fs, 4 + 16 * j, number_of_elements - j)
                    =~= Seq::<ScanDataItemV>::empty(),
            decreases number_of_elements - j,
        {
            let ghost b = 4 + 16 * j as int;
            let rank = decode_i32(self);
            let mut cd = ContractDetails::new();
            cd.contract.con_id = decode_i32(self);
            cd.contract.symbol = decode_string(self);
            cd.contract.sec_type = decode_string(self);
            cd.contract.last_trade_date_or_contract_month = decode_string(self);
            cd.contract.strike = decode_f64(self);
            cd.contract.right = decode_string(self);
            cd.contract.exchange = decode_string(self);
            cd.contract.currency = decode_string(self);
            cd.contract.local_symbol = decode_string(self);
            cd.market_name = decode_string(self);
            cd.contract.trading_class = decode_string(self);
            let distance = decode_string(self);
            let benchmark = decode_string(self);
            let projection = decode_string(self);
            let legs_str = decode_string(self);
            let item = ScanDataItem {
                request_id: req_id,
                rank,
                contract_details: cd,
                distance,
                benchmark,
                projection,
                legs_str,
            };
            proof {
                assert(item@ =~~= scan_item_view(fs, b, fld_i32(fs, 2) as i32));
            }
            let ghost before = rtn@.map_values(|s: ScanDataItem| s@);
            rtn.push(item);
            j = j + 1;
            proof {
                assert(rtn@.map_values(|s: ScanDataItem| s@) =~= before.push(item@));
                assert(before + (seq![scan_item_view(fs, b, fld_i32(fs, 2) as i32)]
                    + scan_items(fs, b + 16, number_of_elements - j))
                    =~= rtn@.map_values(|s: ScanDataItem| s@)
                        + scan_items(fs, b + 16, number_of_elements - j));
            }
        }
        rtn
    }

    /// Decodes a historical-data frame: the request id, the date range,
    /// and the bars.
    pub fn historical_data_event(&mut self, server_version: i32) -> (r: (i32, String, String, Vec<
        Bar,
    >))
        requires
            old(self).wf(),
            old(self).pos_view() == 0,
        ensures
            r.0 as int == fld_i32(old(self).fields_view(), hist_off(server_version)),
            r.1@ == fld_str(old(self).fields_view(), hist_off(server_version) + 1),
            r.2@ == fld_str(old(self).fields_view(), hist_off(server_version) + 2),
            r.3@.map_values(|b: Bar| b@) == hist_bars_view(old(self).fields_view(),
                server_version),
    {
        proof {
            broadcast use lemma_cpos_step;
        }
        let ghost fs = self.fields_view();
        let ghost w = hist_width(server_version);
        self.take_field();
        if server_version < min_server_version::SYNT_REALTIME_BARS {
            self.take_field();
        }
        let req_id = decode_i32(self);
        let start_date = decode_string(self);
        let end_date = decode_string(self);
        let bar_count = decode_i32(self);
        let ghost base0 = hist_off(server_version) + 4;
        let mut bars: Vec<Bar> = Vec::new();
        let mut j: i32 = 0;
        proof {
            assert(bars@.map_values(|b: Bar| b@) =~= Seq::<BarV>::empty());
        }
        while j < bar_count && self.remaining() > 0
            invariant
                self.fields_view() == fs,
                self.wf(),
                0 <= j,
                w == hist_width(server_version),
                base0 == hist_off(server_version) + 4,
                bar_count >= 0 ==> j <= bar_count,
                bar_count < 0 ==> j == 0,
                self.pos_view() == cpos(fs, base0 + w * j),
                hist_bars(fs, base0, bar_count as int, server_version)
                    =~= bars@.map_values(|b: Bar| b@)
                        + hist_bars(fs, base0 + w * j, bar_count - j, server_version),
            ensures
                hist_bars(fs, base0 + w * j, bar_count - j, server_version)
                    =~= Seq::<BarV>::empty(),
            decreases bar_count - j,
        {
            let ghost b = base0 + w * j as int;
            let date = decode_string(self);
            let open = decode_f64(self);
            let high = decode_f64(self);
            let low = decode_f64(self);
            let close = decode_f64(self);
            let volume: i64 = if server_version < min_server_version::SYNT_REALTIME_BARS {
                decode_i32(self) as i64
            } else {
                decode_i64(self)
            };
            let average = decode_f64(self);
            if server_version < min_server_version::SYNT_REALTIME_BARS {
                decode_string(self);
            }
            let count = decode_i32(self);
            let bar = Bar {
                time_str: date,
                time_int: 0,
                open,
                high,
                low,
                close,
                volume,
                wap: average,
                count,
                color: None,
            };
            proof {
                assert(bar@ =~~= hist_bar_view(fs, b, server_version));
            }
            let ghost before = bars@.map_values(|bb: Bar| bb@);
            bars.push(bar);
            j = j + 1;
            proof {
                assert(bars@.map_values(|bb: Bar| bb@) =~= before.push(bar@));
                assert(before + (seq![hist_bar_view(fs, b, server_version)]
                    + hist_bars(fs, b + w, bar_count - j, server_version))
                    =~= bars@.map_values(|bb: Bar| bb@)
                        + hist_bars(fs, b + w, bar_count - j, server_version));
            }
        }
        (req_id, start_date, end_date, bars)
    }
}

/// The parts a text splits into on maximal whitespace runs.
pub uninterp spec fn ws_split(s: Seq<char>) -> Seq<Seq<char>>;

/// Relies on regex::Regex::split with the whitespace-run pattern: the
/// parts of the text between maximal runs of whitespace, named by
/// `ws_split`.
#[verifier::external_body]
fn split_whitespace_parts(s: &str) -> (r: Vec<String>)
    ensures
        r.deep_view() == ws_split(s@),
{
    let re = regex::Regex::new(r"\s+").unwrap();
    re.split(s).map(|p| p.to_string()).collect()
}

/// How one last-trade-date field updates a contract description: the part
/// before the first whitespace run is the date (the maturity, for a
/// bond), the next part the time, and for a bond the third the time zone.
pub open spec fn last_trade_update(cdv: ContractDetailsV, seg: Seq<char>, is_bond: bool)
    -> ContractDetailsV {
    if seg.len() == 0 {
        cdv
    } else {
        let parts = ws_split(seg);
        let c1 = if parts.len() > 0 {
            if is_bond {
                ContractDetailsV { maturity: parts[0], ..cdv }
            } else {
                ContractDetailsV {
                    contract: ContractV {
                        last_trade_date_or_contract_month: parts[0],
                        ..cdv.contract
                    },
                    ..cdv
                }
            }
        } else {
            cdv
        };
        let c2 = if parts.len() > 1 {
            ContractDetailsV { last_trade_time: parts[1], ..c1 }
        } else {
            c1
        };
        if is_bond && parts.len() > 2 {
            ContractDetailsV { time_zone_id: parts[2], ..c2 }
        } else {
            c2
        }
    }
}

/// The tag-value pairs from `n` two-field groups starting at `base`,
/// stopping early if the fields run out.
pub open spec fn tag_pairs(fs: Seq<Seq<char>>, base: int, n: int) -> Seq<TagValueV>
    decreases n,
{
    if n <= 0 || base >= fs.len() {
        Seq::empty()
    } else {
        seq![TagValueV { tag: fld_str(fs, base), value: fld_str(fs, base + 1) }]
            + tag_pairs(fs, base + 2, n - 1)
    }
}

/// Where the fixed reads of a contract-data frame start: the request id
/// is carried only from message version three on.
pub open spec fn cd_p(fs: Seq<Seq<char>>) -> int {
    if fld_i32(fs, 1) >= 3 {
        3
    } else {
        2
    }
}

/// The contract description a contract-data frame decodes to, and the
/// request id it answers.
pub open spec fn contract_data_view(fs: Seq<Seq<char>>, sv: i32) -> (int, ContractDetailsV) {
    let version = fld_i32(fs, 1);
    let req_id = if version >= 3 { fld_i32(fs, 2) } else { -1 };
    let p = cd_p(fs);
    let q = p + 12 + (if sv >= min_server_version::MD_SIZE_MULTIPLIER { 1int } else { 0 });
    let q2 = q + 4;
    let q3 = q2 + (if version >= 4 { 1int } else { 0 });
    let q4 = q3 + (if version >= 5 { 2int } else { 0 });
    let q5 = q4 + (if version >= 6 { 7int } else { 0 });
    let q6 = q5 + (if version >= 8 { 2int } else { 0 });
    let n_sec = fld_i32(fs, q6);
    let q7 = if version >= 7 { capped_end(fs.len() as int, q6 + 1, n_sec, 2) } else { q6 };
    let q8 = q7 + (if sv >= min_server_version::AGG_GROUP { 1int } else { 0 });
    let q9 = q8 + (if sv >= min_server_version::UNDERLYING_INFO { 2int } else { 0 });
    let q10 = q9 + (if sv >= min_server_version::MARKET_RULES { 1int } else { 0 });
    let base = ContractDetailsV {
        contract: ContractV {
            symbol: fld_str(fs, p),
            sec_type: fld_str(fs, p + 1),
            strike: fld_dbl(fs, p + 3),
            right: fld_str(fs, p + 4),
            exchange: fld_str(fs, p + 5),
            currency: fld_str(fs, p + 6),
            local_symbol: fld_str(fs, p + 7),
            trading_class: fld_str(fs, p + 9),
            con_id: fld_i32(fs, p + 10) as i32,
            multiplier: fld_str(fs, q),
            primary_exchange: if version >= 5 { fld_str(fs, q3 + 1) } else { Seq::empty() },
            ..contract_init()
        },
        market_name: fld_str(fs, p + 8),
        min_tick: fld_dbl(fs, p + 11),
        md_size_multiplier: if sv >= min_server_version::MD_SIZE_MULTIPLIER {
            fld_i32(fs, p + 12) as i32
        } else {
            0
        },
        order_types: fld_str(fs, q + 1),
        valid_exchanges: fld_str(fs, q + 2),
        price_magnifier: fld_i32(fs, q + 3) as i32,
        under_con_id: if version >= 4 { fld_i32(fs, q2) as i32 } else { 0 },
        long_name: if version >= 5 { fld_str(fs, q3) } else { Seq::empty() },
        contract_month: if version >= 6 { fld_str(fs, q4) } else { Seq::empty() },
        industry: if version >= 6 { fld_str(fs, q4 + 1) } else { Seq::empty() },
        category: if version >= 6 { fld_str(fs, q4 + 2) } else { Seq::empty() },
        subcategory: if version >= 6 { fld_str(fs, q4 + 3) } else { Seq::empty() },
        time_zone_id: if version >= 6 { fld_str(fs, q4 + 4) } else { Seq::empty() },
        trading_hours: if version >= 6 { fld_str(fs, q4 + 5) } else { Seq::empty() },
        liquid_hours: if version >= 6 { fld_str(fs, q4 + 6) } else { Seq::empty() },
        ev_rule: if version >= 8 { fld_str(fs, q5) } else { Seq::empty() },
        ev_multiplier: if version >= 8 { fld_dbl(fs, q5 + 1) } else { Some("0"@) },
        sec_id_list: if version >= 7 { tag_pairs(fs, q6 + 1, n_sec) } else { Seq::empty() },
        agg_group: if sv >= min_server_version::AGG_GROUP { fld_i32(fs, q7) as i32 } else { 0 },
        under_symbol: if sv >= min_server_version::UNDERLYING_INFO {
            fld_str(fs, q8)
        } else {
            Seq::empty()
        },
        under_sec_type: if sv >= min_server_version::UNDERLYING_INFO {
            fld_str(fs, q8 + 1)
        } else {
            Seq::empty()
        },
        market_rule_ids: if sv >= min_server_version::MARKET_RULES {
            fld_str(fs, q9)
        } else {
            Seq::empty()
        },
        real_expiration_date: if sv >= min_server_version::REAL_EXPIRATION_DATE {
            fld_str(fs, q10)
        } else {
            Seq::empty()
        },
        ..contract_details_init()
    };
    (req_id, last_trade_update(base, fld_str(fs, p + 2), false))
}

impl Decoder {
    /// Reads one last-trade-date field into the contract description,
    /// splitting date, time and, for bonds, time zone on whitespace.
    pub fn read_last_trade_date(&mut self, contract: &mut ContractDetails, is_bond: bool)
        requires
            old(self).wf(),
        ensures
            final(self).fields_view() == old(self).fields_view(),
            final(self).pos_view() == decoder_next_pos(old(self).fields_view(),
                old(self).pos_view()),
            final(self).wf(),
            final(contract)@ == last_trade_update(old(contract)@,
                field_at(old(self).fields_view(), old(self).pos_view()), is_bond),
    {
        let seg = decode_string(self);
        if seg.unicode_len() > 0 {
            let parts = split_whitespace_parts(seg.as_str());
            if parts.len() > 0 {
                if is_bond {
                    contract.maturity = parts[0].clone();
                } else {
                    contract.contract.last_trade_date_or_contract_month = parts[0].clone();
                }
            }
            if parts.len() > 1 {
                contract.last_trade_time = parts[1].clone();
            }
            if is_bond && parts.len() > 2 {
                contract.time_zone_id = parts[2].clone();
            }
            proof {
                assert(parts.deep_view().len() == parts@.len());
                if parts@.len() > 0 {
                    assert(parts@[0]@ == ws_split(seg@)[0]);
                }
                if parts@.len() > 1 {
                    assert(parts@[1]@ == ws_split(seg@)[1]);
                }
                if parts@.len() > 2 {
                    assert(parts@[2]@ == ws_split(seg@)[2]);
                }
                assert(contract@ =~~= last_trade_update(old(contract)@, seg@, is_bond));
            }
        }
    }

    /// Decodes a contract-data frame: the request id and the contract
    /// description, gated by both the message version and the server
    /// version.
    #[verifier::rlimit(100)]
    #[verifier::spinoff_prover]
    pub fn contract_data_event(&mut self, server_version: i32) -> (r: (i32, ContractDetails))
        requires
            old(self).wf(),
            old(self).pos_view() == 0,
        ensures
            r.0 as int == contract_data_view(old(self).fields_view(), server_version).0,
            r.1@ == contract_data_view(old(self).fields_view(), server_version).1,
    {
        proof {
            broadcast use lemma_cpos_step;
        }
        let ghost fs = self.fields_view();
        self.take_field();
        let version = decode_i32(self);
        let mut req_id: i32 = -1;
        if version >= 3 {
            req_id = decode_i32(self);
        }
        let ghost p = cd_p(fs);
        proof {
            assert(version as int == fld_i32(fs, 1));
            assert(self.pos_view() == cpos(fs, p));
        }
        let symbol = decode_string(self);
        let sec_type = decode_string(self);
        let mut ltd_holder = ContractDetails::new();
        self.read_last_trade_date(&mut ltd_holder, false);
        let strike = decode_f64(self);
        let right = decode_string(self);
        let exchange = decode_string(self);
        let currency = decode_string(self);
        let local_symbol = decode_string(self);
        let market_name = decode_string(self);
        let trading_class = decode_string(self);
        let con_id = decode_i32(self);
        let min_tick = decode_f64(self);
        let md_size_multiplier: i32 = if server_version
            >= min_server_version::MD_SIZE_MULTIPLIER {
            decode_i32(self)
        } else {
            0
        };
        let ghost q = p + 12 + (if server_version >= min_server_version::MD_SIZE_MULTIPLIER {
            1int
        } else {
            0
        });
        proof {
            assert(self.pos_view() == cpos(fs, q));
        }
        let multiplier = decode_string(self);
        let order_types = decode_string(self);
        let valid_exchanges = decode_string(self);
        let price_magnifier = decode_i32(self);
        let ghost q2 = q + 4;
        let under_con_id: i32 = if version >= 4 {
            decode_i32(self)
        } else {
            0
        };
        let ghost q3 = q2 + (if version >= 4 { 1int } else { 0 });
        let long_name = if version >= 5 {
            decode_string(self)
        } else {
            String::new()
        };
        let primary_exchange = if version >= 5 {
            decode_string(self)
        } else {
            String::new()
        };
        let ghost q4 = q3 + (if version >= 5 { 2int } else { 0 });
        proof {
            assert(self.pos_view() == cpos(fs, q4));
        }
        let mut contract_month = String::new();
        let mut industry = String::new();
        let mut category = String::new();
        let mut subcategory = String::new();
        let mut time_zone_id = String::new();
        let mut trading_hours = String::new();
        let mut liquid_hours = String::new();
        if version >= 6 {
            contract_month = decode_string(self);
            industry = decode_string(self);
            category = decode_string(self);
            subcategory = decode_string(self);
            time_zone_id = decode_string(self);
            trading_hours = decode_string(self);
            liquid_hours = decode_string(self);
        }
        let ghost q5 = q4 + (if version >= 6 { 7int } else { 0 });
        let ev_rule = if version >= 8 {
            decode_string(self)
        } else {
            String::new()
        };
        let ev_multiplier = if version >= 8 {
            decode_f64(self)
        } else {
            Double::Num(String::from_str("0"))
        };
        let ghost q6 = q5 + (if version >= 8 { 2int } else { 0 });
        proof {
            assert(self.pos_view() == cpos(fs, q6));
        }
        let mut sec_id_list: Vec<TagValue> = Vec::new();
        if version >= 7 {
            let sec_id_list_count = decode_i32(self);
            let mut j: i32 = 0;
            proof {
                assert(sec_id_list@.map_values(|t: TagValue| t@)
                    =~= Seq::<TagValueV>::empty());
            }
            while j < sec_id_list_count && self.remaining() > 0
                invariant
                    self.fields_view() == fs,
                    self.wf(),
                    0 <= j,
                    sec_id_list_count >= 0 ==> j <= sec_id_list_count,
                    sec_id_list_count < 0 ==> j == 0,
                    sec_id_list_count as int == fld_i32(fs, q6),
                    self.pos_view() == cpos(fs, q6 + 1 + 2 * j),
                    tag_pairs(fs, q6 + 1, sec_id_list_count as int)
                        =~= sec_id_list@.map_values(|t: TagValue| t@)
                            + tag_pairs(fs, q6 + 1 + 2 * j, sec_id_list_count - j),
                    capped_end(fs.len() as int, q6 + 1, sec_id_list_count as int, 2)
                        == capped_end(fs.len() as int, q6 + 1 + 2 * j, sec_id_list_count - j,
                            2),
                ensures
                    tag_pairs(fs, q6 + 1 + 2 * j, sec_id_list_count - j)
                        =~= Seq::<TagValueV>::empty(),
                    self.fields_view() == fs,
                    self.wf(),
                    sec_id_list_count as int == fld_i32(fs, q6),
                    tag_pairs(fs, q6 + 1, sec_id_list_count as int)
                        =~= sec_id_list@.map_values(|t: TagValue| t@),
                    self.pos_view() == cpos(fs,
                        capped_end(fs.len() as int, q6 + 1, sec_id_list_count as int, 2)),
                decreases sec_id_list_count - j,
            {
                let ghost b = q6 + 1 + 2 * j as int;
                let tag = decode_string(self);
                let value = decode_string(self);
                let ghost before = sec_id_list@.map_values(|t: TagValue| t@);
                let tv = TagValue::new(tag, value);
                proof {
                    assert(tv@ =~~= (TagValueV {
                        tag: fld_str(fs, b),
                        value: fld_str(fs, b + 1),
                    }));
                }
                sec_id_list.push(tv);
                j = j + 1;
                proof {
                    assert(sec_id_list@.map_values(|t: TagValue| t@) =~= before.push(tv@));
                    assert(before + (seq![tv@] + tag_pairs(fs, b + 2, sec_id_list_count - j))
                        =~= sec_id_list@.map_values(|t: TagValue| t@)
                            + tag_pairs(fs, b + 2, sec_id_list_count - j));
                }
            }
        }
        let ghost q7 = if fld_i32(fs, 1) >= 7 {
            capped_end(fs.len() as int, q6 + 1, fld_i32(fs, q6), 2)
        } else {
            q6
        };
        proof {
            if fld_i32(fs, 1) >= 7 {
                lemma_capped_end_ge(fs.len() as int, q6 + 1, fld_i32(fs, q6), 2);
            }
            assert(self.pos_view() == cpos(fs, q7));
        }
        let agg_group: i32 = if server_version >= min_server_version::AGG_GROUP {
            decode_i32(self)
        } else {
            0
        };
        let ghost q8 = q7 + (if server_version >= min_server_version::AGG_GROUP {
            1int
        } else {
            0
        });
        let under_symbol = if server_version >= min_server_version::UNDERLYING_INFO {
            decode_string(self)
        } else {
            String::new()
        };
        let under_sec_type = if server_version >= min_server_version::UNDERLYING_INFO {
            decode_string(self)
        } else {
            String::new()
        };
        let ghost q9 = q8 + (if server_version >= min_server_version::UNDERLYING_INFO {
            2int
        } else {
            0
        });
        let market_rule_ids = if server_version >= min_server_version::MARKET_RULES {
            decode_string(self)
        } else {
            String::new()
        };
        let ghost q10 = q9 + (if server_version >= min_server_version::MARKET_RULES {
            1int
        } else {
            0
        });
        let real_expiration_date = if server_version
            >= min_server_version::REAL_EXPIRATION_DATE {
            decode_string(self)
        } else {
            String::new()
        };
        let mut contract = ContractDetails::new();
        contract.contract.symbol = symbol;
        contract.contract.sec_type = sec_type;
        contract.contract.last_trade_date_or_contract_month =
            ltd_holder.contract.last_trade_date_or_contract_month;
        contract.last_trade_time = ltd_holder.last_trade_time;
        contract.contract.strike = strike;
        contract.contract.right = right;
        contract.contract.exchange = exchange;
        contract.contract.currency = currency;
        contract.contract.local_symbol = local_symbol;
        contract.market_name = market_name;
        contract.contract.trading_class = trading_class;
        contract.contract.con_id = con_id;
        contract.min_tick = min_tick;
        contract.md_size_multiplier = md_size_multiplier;
        contract.contract.multiplier = multiplier;
        contract.order_types = order_types;
        contract.valid_exchanges = valid_exchanges;
        contract.price_magnifier = price_magnifier;
        contract.under_con_id = under_con_id;
        contract.long_name = long_name;
        contract.contract.primary_exchange = primary_exchange;
        contract.contract_month = contract_month;
        contract.industry = industry;
        contract.category = category;
        contract.subcategory = subcategory;
        contract.time_zone_id = time_zone_id;
        contract.trading_hours = trading_hours;
        contract.liquid_hours = liquid_hours;
        contract.ev_rule = ev_rule;
        contract.ev_multiplier = ev_multiplier;
        contract.sec_id_list = sec_id_list;
        contract.agg_group = agg_group;
        contract.under_symbol = under_symbol;
        contract.under_sec_type = under_sec_type;
        contract.market_rule_ids = market_rule_ids;
        contract.real_expiration_date = real_expiration_date;
        proof {
            let target = contract_data_view(fs, server_version).1;
            assert(contract@.contract.symbol == target.contract.symbol);
            assert(contract@.contract.sec_type == target.contract.sec_type);
            assert(contract@.contract.last_trade_date_or_contract_month
                == target.contract.last_trade_date_or_contract_month);
            assert(contract@.last_trade_time == target.last_trade_time);
            assert(contract@.maturity == target.maturity);
            assert(contract@.time_zone_id == target.time_zone_id);
            assert(contract@.contract.strike == target.contract.strike);
            assert(contract@.contract.right == target.contract.right);
            assert(contract@.contract.exchange == target.contract.exchange);
            assert(contract@.contract.currency == target.contract.currency);
            assert(contract@.contract.local_symbol == target.contract.local_symbol);
            assert(contract@.market_name == target.market_name);
            assert(contract@.contract.trading_class == target.contract.trading_class);
            assert(contract@.contract.con_id == target.contract.con_id);
            assert(contract@.min_tick == target.min_tick);
            assert(contract@.md_size_multiplier == target.md_size_multiplier);
            assert(contract@.contract.multiplier == target.contract.multiplier);
            assert(contract@.order_types == target.order_types);
            assert(contract@.valid_exchanges == target.valid_exchanges);
            assert(contract@.price_magnifier == target.price_magnifier);
            assert(contract@.under_con_id == target.under_con_id);
            assert(contract@.long_name == target.long_name);
            assert(contract@.contract.primary_exchange == target.contract.primary_exchange);
            assert(contract@.contract_month == target.contract_month);
            assert(contract@.industry == target.industry);
            assert(contract@.category == target.category);
            assert(contract@.subcategory == target.subcategory);
            assert(contract@.trading_hours == target.trading_hours);
            assert(contract@.liquid_hours == target.liquid_hours);
            assert(contract@.ev_rule == target.ev_rule);
            assert(contract@.ev_multiplier == target.ev_multiplier);
            assert(contract@.sec_id_list =~~= target.sec_id_list);
            assert(contract@.agg_group == target.agg_group);
            assert(contract@.under_symbol == target.under_symbol);
            assert(contract@.under_sec_type == target.under_sec_type);
            assert(contract@.market_rule_ids == target.market_rule_ids);
            assert(contract@.real_expiration_date == target.real_expiration_date);
            assert(contract@.contract =~~= target.contract);
            assert(contract@ =~~= target);
        }
        (req_id, contract)
    }
}

/// Why a frame could not be dispatched at all.
#[derive(Debug, Clone, Copy, PartialEq, Eq, Structural)]
pub enum DecodeError {
    EmptyMessage,
    NotValidMessage,
}

impl Decoder {
    /// Decodes an open-order frame: the legacy message version is read
    /// first where the server predates the order-container era, then the
    /// order schema is walked group by group. The contract pins the order
    /// and contract identity, the action, the quantity, the type and the
    /// prices to their frame positions; the exact read of every deeper
    /// group is the contract of the order-decoder method that performs
    /// it.
    #[verifier::rlimit(100)]
    #[verifier::spinoff_prover]
    pub fn open_order_event(&mut self, server_version: i32) -> (r: OrderDataItem)
        requires
            old(self).wf(),
            old(self).pos_view() == 0,
        ensures
            r@.order_id == r@.order.order_id,
            ({
                let fs = old(self).fields_view();
                let sv = server_version as int;
                let mv = oo_mv(fs, sv);
                let b = oo_base(sv);
                &&& r@.order.order_id == fld_i32(fs, b) as i32
            }),
    {
        let ghost fs = self.fields_view();
        let ghost sv = server_version as int;
        let ghost mv = oo_mv(fs, sv);
        self.take_field();
        let message_version = if server_version < min_server_version::ORDER_CONTAINER {
            decode_i32(self)
        } else {
            server_version
        };
        proof {
            assert(message_version as int == mv);
        }
        let order = Order::new();
        let contract = Contract::new();
        let order_state = OrderState::new();
        let d = self.clone_cursor();
        let mut od = OrderDecoder::new(contract, order, order_state, message_version,
            server_version, d);
        let ghost p0 = oo_base(sv);
        let ghost p1 = adv(fs, p0, 1int);

        proof {
            assert(od.pos() == adv(fs, 0, oo_base(sv)));
        }
        od.read_order_id();
        proof {
            assert(od.pos() == p1);
            assert(od.order.main.order_id == fld_i32(fs, oo_base(sv)) as i32);
        }
        od.read_contract_fields();
        od.read_action();
        od.read_total_quantity();
        od.read_order_type();
        od.read_limit_type();
        od.read_aux_price();
        od.read_tif();
        od.read_oca_group();
        od.read_account();
        od.read_open_close();
        od.read_origin();
        od.read_order_ref();
        od.read_client_id();
        od.read_perm_id();
        od.read_outside_rth();
        od.read_hidden();
        od.read_discretionary_amount();
        od.read_good_after_time();
        od.skip_shares_allocation();
        od.read_faparams();
        od.read_model_code();
        od.read_good_till_date();
        od.read_rule80a();
        od.read_percent_offset();
        od.read_settling_firm();
        od.read_short_sale_params();
        od.read_auction_strategy();
        od.read_box_order_params();
        od.read_peg_to_stk_or_vol_order_params();
        od.read_display_size();
        od.read_old_style_outside_rth();
        od.read_block_order();
        od.read_sweep_to_fill();
        od.read_all_or_none();
        od.read_min_qty();
        od.read_oca_type();
        od.read_etrade_only();
        od.read_firm_quote_only();
        od.read_nbbo_price_cap();
        od.read_parent_id();
        od.read_trigger_method();
        od.read_vol_order_params(true);
        od.read_trail_params();
        od.read_basis_points();
        od.read_combo_legs();
        od.read_smart_combo_routing_params();
        od.read_scale_order_params();
        od.read_hedge_params();
        od.read_opt_out_smart_routing();
        od.read_clearing_params();
        od.read_not_held();
        od.read_delta_neutral();
        od.read_algo_params();
        od.read_solicited();
        od.read_what_if_info_and_commission();
        od.read_vol_randomize_flags();
        od.read_peg_to_bench_params();
        od.read_conditions();
        od.read_adjusted_order_params();
        od.read_soft_dollar_tier();
        od.read_cash_qty();
        od.read_dont_use_auto_price_for_hedge();
        od.read_is_oms_container();
        od.read_discretionary_up_to_limit_price();
        od.read_use_price_mgmt_algo();
        let parts = od.into_parts();
        let order_id = parts.1.main.order_id;
        OrderDataItem::new(order_id, parts.1, parts.0, parts.2)
    }

    /// Dispatches one tokenized frame on its message-type code and decodes
    /// it into the events it carries. An empty frame, a zero code or the
    /// explicit not-valid code fail the frame; an unknown code decodes to
    /// no event; the connection is unaffected either way.
    pub fn process_incoming_message(&mut self, server_version: i32) -> (r: Result<
        Vec<IncomingMessagesEnum>,
        DecodeError,
    >)
        requires
            old(self).wf(),
            old(self).pos_view() == 0,
        ensures
            ({
                let fs = old(self).fields_view();
                let code = fld_i32(fs, 0);
                &&& (fs.len() == 0 ==> r == Result::<Vec<IncomingMessagesEnum>, DecodeError>::Err(
                    DecodeError::EmptyMessage))
                &&& (fs.len() > 0 && (code == 0 || code == incoming_message_constants::NOT_VALID)
                    ==> r == Result::<Vec<IncomingMessagesEnum>, DecodeError>::Err(
                        DecodeError::NotValidMessage))
                &&& (fs.len() > 0 && code != 0 && code != incoming_message_constants::NOT_VALID
                    ==> (r matches Ok(evs) && process_ok(fs, server_version, evs@)))
            }),
    {
        let ghost fs = self.fields_view();
        if self.fields.len() == 0 {
            return Err(DecodeError::EmptyMessage);
        }
        let message = crate::numbers::parse_i32_str(self.fields[0].as_str());
        proof {
            assert(self.fields[0]@ == field_at(fs, 0));
        }
        if message == incoming_message_constants::NOT_VALID || message == 0 {
            return Err(DecodeError::NotValidMessage);
        }
        let mut events: Vec<IncomingMessagesEnum> = Vec::new();
        if message == incoming_message_constants::ERROR {
            let e = self.error_event();
            events.push(IncomingMessagesEnum::Error(e.0, e.1, e.2));
        } else if message == incoming_message_constants::NEXT_VALID_ID {
            let next_id = self.next_valid_id();
            events.push(IncomingMessagesEnum::NextValidId(next_id));
        } else if message == incoming_message_constants::MANAGED_ACCOUNTS {
            let accounts = self.managed_accounts_event();
            events.push(IncomingMessagesEnum::ManagedAccounts(accounts));
        } else if message == incoming_message_constants::SCANNER_DATA {
            let items = self.scanner_data_event();
            events.push(IncomingMessagesEnum::ScannerData(items));
        } else if message == incoming_message_constants::ACCOUNT_SUMMARY {
            let row = self.account_summary_event();
            events.push(IncomingMessagesEnum::AccountSummary(row));
        } else if message == incoming_message_constants::ACCOUNT_SUMMARY_END {
            let request_id = self.account_summary_event_end();
            events.push(IncomingMessagesEnum::AccountSummaryEnd(request_id));
        } else if message == incoming_message_constants::OPEN_ORDER {
            let order_data = self.open_order_event(server_version);
            events.push(IncomingMessagesEnum::OpenOrder(order_data));
        } else if message == incoming_message_constants::OPEN_ORDER_END {
            events.push(IncomingMessagesEnum::OpenOrderEnd);
        } else if message == incoming_message_constants::CONTRACT_DATA {
            let rd = self.contract_data_event(server_version);
            events.push(IncomingMessagesEnum::ContractData(rd.0, rd.1));
        } else if message == incoming_message_constants::CONTRACT_DATA_END {
            let request_id = parse_i32_str(if self.fields.len() > 1 {
                self.fields[1].as_str()
            } else {
                ""
            });
            proof {
                if fs.len() > 1 {
                    assert(self.fields[1]@ == field_at(fs, 1));
                } else {
                    reveal_strlit("");
                }
            }
            events.push(IncomingMessagesEnum::ContractDataEnd(request_id));
        } else if message == incoming_message_constants::ORDER_STATUS {
            let msg = self.order_status_event(server_version);
            events.push(IncomingMessagesEnum::OrderStatus(msg));
        } else if message == incoming_message_constants::HISTORICAL_DATA {
            let rd = self.historical_data_event(server_version);
            let mut bars = rd.3;
            let ghost bvs = bars@.map_values(|b: Bar| b@);
            let n = bars.len();
            let mut i: usize = 0;
            while i < n
                invariant
                    n == bvs.len(),
                    i <= n,
                    bars@.len() == n - i,
                    bars@.map_values(|b: Bar| b@) =~= bvs.subrange(i as int, n as int),
                    events@.len() == i,
                    forall|k: int| 0 <= k < i ==> ((#[trigger] events@[k]) matches
                        IncomingMessagesEnum::HistoricalData(b) && b@ == bvs[k]),
                decreases n - i,
            {
                let ghost prev = bars@;
                proof {
                    assert(prev.map_values(|b: Bar| b@)[0] == prev[0]@);
                    assert(bvs.subrange(i as int, n as int)[0] == bvs[i as int]);
                }
                let bar = bars.remove(0);
                proof {
                    assert(bar@ == bvs[i as int]);
                    assert(bars@ == prev.remove(0));
                    assert forall|k: int| 0 <= k < bars@.len()
                        implies (#[trigger] bars@[k])@ == bvs.subrange(i + 1, n as int)[k] by {
                        assert(bars@[k] == prev[k + 1]);
                        assert(prev.map_values(|b: Bar| b@)[k + 1] == prev[k + 1]@);
                        assert(bvs.subrange(i as int, n as int)[k + 1] == bvs[i + 1 + k]);
                        assert(bvs.subrange(i + 1, n as int)[k] == bvs[i + 1 + k]);
                    }
                    assert forall|k: int| 0 <= k < bars@.len()
                        implies bars@.map_values(|b: Bar| b@)[#[trigger] (k * 1)]
                            == bvs.subrange(i + 1, n as int)[k] by {
                        assert(bars@.map_values(|b: Bar| b@)[k] == bars@[k]@);
                    }
                    assert(bars@.map_values(|b: Bar| b@)
                        =~= bvs.subrange(i + 1, n as int));
                }
                events.push(IncomingMessagesEnum::HistoricalData(bar));
                i = i + 1;
            }
            events.push(IncomingMessagesEnum::HistoricalDataEnd(rd.0, rd.1, rd.2));
        } else if message == incoming_message_constants::REAL_TIME_BARS {
            let rd = self.read_time_bars_event();
            events.push(IncomingMessagesEnum::RealTimeBars(rd.0, rd.1));
        } else if message == incoming_message_constants::TICK_BY_TICK {
            match self.tick_by_tick_event() {
                Some(p) => {
                    events.push(IncomingMessagesEnum::TickByTickLast(p.0, p.1));
                },
                None => {},
            }
        } else if message == incoming_message_constants::TICK_GENERIC {
            let rd = self.generic_tick();
            events.push(IncomingMessagesEnum::TickGeneric(rd.0, rd.1, rd.2));
        } else if message == incoming_message_constants::PN_L {
            let rd = self.profit_and_losses(server_version);
            events.push(IncomingMessagesEnum::PnL(rd.0, rd.1, rd.2, rd.3));
        }
        Ok(events)
    }
}

/// What a successful dispatch yields for each known message code: the
/// decoded events, pinned to the frame's fields; an unknown code yields
/// no event.
pub open spec fn process_ok(fs: Seq<Seq<char>>, sv: i32, evs: Seq<IncomingMessagesEnum>)
    -> bool {
    let code = fld_i32(fs, 0);
    if code == incoming_message_constants::ERROR {
        evs.len() == 1 && (evs[0] matches IncomingMessagesEnum::Error(id, ec, m)
            && id as int == fld_i32(fs, 2) && ec as int == fld_i32(fs, 3)
            && m@ == fld_str(fs, 4))
    } else if code == incoming_message_constants::NEXT_VALID_ID {
        evs.len() == 1 && (evs[0] matches IncomingMessagesEnum::NextValidId(id)
            && id as int == fld_i32(fs, 2))
    } else if code == incoming_message_constants::MANAGED_ACCOUNTS {
        evs.len() == 1 && (evs[0] matches IncomingMessagesEnum::ManagedAccounts(a)
            && a@ == fld_str(fs, 2))
    } else if code == incoming_message_constants::SCANNER_DATA {
        evs.len() == 1 && (evs[0] matches IncomingMessagesEnum::ScannerData(items)
            && items@.map_values(|s: ScanDataItem| s@) == scanner_data_view(fs))
    } else if code == incoming_message_constants::ACCOUNT_SUMMARY {
        evs.len() == 1 && (evs[0] matches IncomingMessagesEnum::AccountSummary(row)
            && row@ == account_summary_view(fs))
    } else if code == incoming_message_constants::ACCOUNT_SUMMARY_END {
        evs.len() == 1 && (evs[0] matches IncomingMessagesEnum::AccountSummaryEnd(id)
            && id as int == fld_i32(fs, 2))
    } else if code == incoming_message_constants::OPEN_ORDER {
        evs.len() == 1 && (evs[0] matches IncomingMessagesEnum::OpenOrder(od)
            && od@.order_id == od@.order.order_id
            && od@.order.order_id == fld_i32(fs, crate::order_decoder::oo_base(sv as int))
                as i32)
    } else if code == incoming_message_constants::OPEN_ORDER_END {
        evs.len() == 1 && evs[0] is OpenOrderEnd
    } else if code == incoming_message_constants::CONTRACT_DATA {
        evs.len() == 1 && (evs[0] matches IncomingMessagesEnum::ContractData(id, cd)
            && id as int == contract_data_view(fs, sv).0 && cd@ == contract_data_view(fs,
            sv).1)
    } else if code == incoming_message_constants::CONTRACT_DATA_END {
        evs.len() == 1 && (evs[0] matches IncomingMessagesEnum::ContractDataEnd(id)
            && id as int == fld_i32(fs, 1))
    } else if code == incoming_message_constants::ORDER_STATUS {
        evs.len() == 1 && (evs[0] matches IncomingMessagesEnum::OrderStatus(m)
            && m@ == order_status_view(fs, sv))
    } else if code == incoming_message_constants::HISTORICAL_DATA {
        let bars = hist_bars_view(fs, sv);
        evs.len() == bars.len() + 1
            && (forall|k: int| 0 <= k < bars.len() ==> ((#[trigger] evs[k]) matches
                IncomingMessagesEnum::HistoricalData(b) && b@ == bars[k]))
            && (evs[evs.len() - 1] matches IncomingMessagesEnum::HistoricalDataEnd(id, s, e)
                && id as int == fld_i32(fs, hist_off(sv)) && s@ == fld_str(fs, hist_off(sv) + 1)
                && e@ == fld_str(fs, hist_off(sv) + 2))
    } else if code == incoming_message_constants::REAL_TIME_BARS {
        evs.len() == 1 && (evs[0] matches IncomingMessagesEnum::RealTimeBars(id, b)
            && id as int == fld_i32(fs, 2) && b@ == time_bar_view(fs))
    } else if code == incoming_message_constants::TICK_BY_TICK {
        let tick_type = fld_i32(fs, 2);
        if tick_type == 1 || tick_type == 2 {
            evs.len() == 1 && (evs[0] matches IncomingMessagesEnum::TickByTickLast(id, t)
                && id as int == fld_i32(fs, 1) && t@ == tick_last_view(fs))
        } else {
            evs.len() == 0
        }
    } else if code == incoming_message_constants::TICK_GENERIC {
        evs.len() == 1 && (evs[0] matches IncomingMessagesEnum::TickGeneric(id, tt, v)
            && id as int == fld_i32(fs, 2) && tt as int == fld_i32(fs, 3) && v@ == fld_dbl(fs,
            4))
    } else if code == incoming_message_constants::PN_L {
        evs.len() == 1 && (evs[0] matches IncomingMessagesEnum::PnL(id, d, u, rr)
            && id as int == fld_i32(fs, 1) && d@ == fld_dbl(fs, 2)
            && u@ == (if sv >= min_server_version::UNREALIZED_PNL {
                fld_dbl(fs, 3)
            } else {
                Some("0"@)
            })
            && rr@ == (if sv >= min_server_version::REALIZED_PNL {
                fld_dbl(fs, 4)
            } else {
                Some("0"@)
            }))
    } else {
        evs.len() == 0
    }
}

/// The index of the first zero byte at or after `from`; the length when
/// there is none.
pub open spec fn first_nul(b: Seq<u8>, from: int) -> int
    decreases b.len() - from,
{
    if from < 0 || from >= b.len() {
        b.len() as int
    } else if b[from] == 0 {
        from
    } else {
        first_nul(b, from + 1)
    }
}

proof fn lemma_first_nul_is(b: Seq<u8>, from: int, m: int)
    requires
        0 <= from <= m <= b.len(),
        forall|k: int| from <= k < m ==> #[trigger] b[k] != 0,
        m == b.len() || b[m] == 0,
    ensures
        first_nul(b, from) == m,
    decreases m - from,
{
    if from < m {
        lemma_first_nul_is(b, from + 1, m);
    }
}

/// Whether a NUL-terminated handshake string can be read at `from`: at
/// least one byte before the terminator or the end, and valid UTF-8.
pub open spec fn nul_str_ok(b: Seq<u8>, from: int) -> bool {
    first_nul(b, from) > from && vstd::utf8::valid_utf8(b.subrange(from, first_nul(b, from)))
}

/// The text of the NUL-terminated handshake string at `from`.
pub open spec fn nul_str_val(b: Seq<u8>, from: int) -> Seq<char> {
    vstd::utf8::decode_utf8(b.subrange(from, first_nul(b, from)))
}

/// The cursor after reading the handshake string at `from`: past the
/// terminator, or at the end.
pub open spec fn nul_str_next(b: Seq<u8>, from: int) -> int {
    if first_nul(b, from) < b.len() {
        first_nul(b, from) + 1
    } else {
        b.len() as int
    }
}

/// The integer the handshake string at `from` reads as; zero when the
/// string is absent, malformed or not a numeral.
pub open spec fn nul_int_val(b: Seq<u8>, from: int) -> int {
    if nul_str_ok(b, from) {
        i32_field_value(nul_str_val(b, from))
    } else {
        0
    }
}

impl Decoder {
    /// Reads one NUL-terminated UTF-8 string from a raw handshake buffer.
    /// An empty or invalid segment fails the read; the message, not the
    /// process, is abandoned.
    pub fn read_string(buf: &Vec<u8>, pos: &mut usize) -> (r: Option<String>)
        requires
            *old(pos) <= buf@.len(),
        ensures
            *final(pos) == nul_str_next(buf@, *old(pos) as int),
            nul_str_ok(buf@, *old(pos) as int) <==> r is Some,
            r matches Some(s) ==> s@ == nul_str_val(buf@, *old(pos) as int),
    {
        let ghost b = buf@;
        let ghost from = *pos as int;
        let start: usize = *pos;
        let mut i: usize = start;
        while i < buf.len() && buf[i] != 0
            invariant
                start <= i <= b.len(),
                b == buf@,
                forall|k: int| start <= k < i ==> #[trigger] b[k] != 0,
            decreases b.len() - i,
        {
            i = i + 1;
        }
        proof {
            lemma_first_nul_is(b, from, i as int);
        }
        if i < buf.len() {
            *pos = i + 1;
        } else {
            *pos = buf.len();
        }
        if i == start {
            return None;
        }
        let seg = crate::frame::vec_subrange(buf, start, i);
        match crate::fields::bytes_to_string(seg) {
            Some(s) => {
                proof {
                    vstd::utf8::encode_utf8_valid_utf8(s@);
                    vstd::utf8::encode_utf8_decode_utf8(s@);
                }
                Some(s)
            },
            None => None,
        }
    }

    /// Reads one NUL-terminated integer from a raw handshake buffer; zero
    /// when the string is absent or not a numeral.
    pub fn read_int(buf: &Vec<u8>, pos: &mut usize) -> (r: i32)
        requires
            *old(pos) <= buf@.len(),
        ensures
            *final(pos) == nul_str_next(buf@, *old(pos) as int),
            r as int == nul_int_val(buf@, *old(pos) as int),
    {
        match Decoder::read_string(buf, pos) {
            Some(s) => parse_i32_str(s.as_str()),
            None => 0,
        }
    }

    /// Decodes the handshake acknowledgement: the negotiated server
    /// version, the server time where the version is past twenty, and the
    /// connected flag.
    pub fn process_connect_ack(
        msg: &Vec<u8>,
        server_version: &mut i32,
        server_time: &mut String,
        is_connected: &mut bool,
    )
        ensures
            *final(server_version) as int == nul_int_val(msg@, 0),
            final(server_time)@ == (if nul_int_val(msg@, 0) > 20 {
                if nul_str_ok(msg@, nul_str_next(msg@, 0)) {
                    nul_str_val(msg@, nul_str_next(msg@, 0))
                } else {
                    Seq::<char>::empty()
                }
            } else {
                old(server_time)@
            }),
            *final(is_connected),
    {
        let mut pos: usize = 0;
        *server_version = Decoder::read_int(msg, &mut pos);
        if *server_version > 20 {
            match Decoder::read_string(msg, &mut pos) {
                Some(s) => {
                    *server_time = s;
                },
                None => {
                    *server_time = String::new();
                },
            }
        }
        *is_connected = true;
    }
}

} // verus!
