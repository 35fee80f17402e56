//! The order decoder: reads the open-order schema, field group by field
//! group, into an order, its contract and its order state. The exact read
//! order and the version gate of every group are the schema; the matching
//! encoder writes the same groups under the same gates.

use vstd::prelude::*;
use crate::decoder::{
    Decoder, adv, decode_bool, decode_f64, decode_f64_show_unset, decode_i32,
    decode_i32_show_unset, decode_i64, decode_string, decoder_next_pos, field_at, fld_bool,
    fld_dbl, fld_i32, fld_str, i32_show_unset_value, capped_end, tag_pairs, lemma_capped_end_ge,
    cpos, lemma_cpos_step, lemma_cpos_adv,
};
use crate::double::{Double, dbl_field, dbl_field_show_unset, dbl_is_positive};
use crate::enums::origin::Origin;
use crate::enums::position_type::PositionType;
use crate::models::combo_leg::{ComboLeg, ComboLegV};
use crate::models::conditions::{cond_fields, cond_of_fields, CondV, OrderConditionEnum};
use crate::models::contract::{Contract, ContractV, contract_init};
use crate::models::delta_neutral_contract::{DeltaNeutralContract, DeltaNeutralContractV};
use crate::models::order::{Order, OrderV, order_init, OrderMain, OrderTerms, OrderRouting, OrderVol, OrderScale, OrderAlgo, OrderPeg, OrderMisc};
use crate::models::order_combo_leg::{OrderComboLeg, OrderComboLegV};
use crate::models::order_state::{OrderState, OrderStateV, orderstate_init};
use crate::models::soft_dollar_tier::{SoftDollarTier, SoftDollarTierV};
use crate::models::tag_value::{TagValue, TagValueV};
use crate::numbers::{int_to_dec, i32_to_dec_string};

verus! {

/// One combo leg, read from eight fields at `b`.
pub open spec fn combo_leg_at(fs: Seq<Seq<char>>, b: int) -> ComboLegV {
    ComboLegV {
        con_id: fld_i32(fs, b) as i32,
        ratio: fld_i32(fs, b + 1) as i32,
        action: fld_str(fs, b + 2),
        exchange: fld_str(fs, b + 3),
        open_close: PositionType::from_code_spec(fld_i32(fs, b + 4) as i32),
        short_sale_slot: fld_i32(fs, b + 5) as i32,
        designated_location: fld_str(fs, b + 6),
        exempt_code: fld_i32(fs, b + 7) as i32,
    }
}

/// The combo legs from `n` eight-field groups starting at `base`.
pub open spec fn combo_leg_items(fs: Seq<Seq<char>>, base: int, n: int) -> Seq<ComboLegV>
    decreases n,
{
    if n <= 0 || base >= fs.len() {
        Seq::empty()
    } else {
        seq![combo_leg_at(fs, base)] + combo_leg_items(fs, base + 8, n - 1)
    }
}

/// The per-leg prices from `n` single-field groups starting at `base`.
pub open spec fn order_leg_items(fs: Seq<Seq<char>>, base: int, n: int) -> Seq<OrderComboLegV>
    decreases n,
{
    if n <= 0 || base >= fs.len() {
        Seq::empty()
    } else {
        seq![OrderComboLegV { price: dbl_field_show_unset(field_at(fs, base)) }]
            + order_leg_items(fs, base + 1, n - 1)
    }
}

/// The order conditions from `n` self-describing groups starting at
/// `base`: each begins with its kind code and continues with that kind's
/// own fields.
pub open spec fn cond_items(fs: Seq<Seq<char>>, base: int, n: int) -> Seq<CondV>
    decreases n,
{
    if n <= 0 || base >= fs.len() {
        Seq::empty()
    } else {
        let c = cond_of_fields(fld_i32(fs, base) as i32, fs, base + 1);
        seq![c] + cond_items(fs, base + 1 + cond_fields(c).len(), n - 1)
    }
}

/// The position after `n` condition groups starting at `base`.
pub open spec fn cond_items_end(fs: Seq<Seq<char>>, base: int, n: int) -> int
    decreases n,
{
    if n <= 0 || base >= fs.len() {
        base
    } else {
        let c = cond_of_fields(fld_i32(fs, base) as i32, fs, base + 1);
        cond_items_end(fs, base + 1 + cond_fields(c).len(), n - 1)
    }
}

pub proof fn lemma_cond_items_end_ge(fs: Seq<Seq<char>>, base: int, n: int)
    ensures
        cond_items_end(fs, base, n) >= base,
    decreases n,
{
    if !(n <= 0 || base >= fs.len()) {
        let c = cond_of_fields(fld_i32(fs, base) as i32, fs, base + 1);
        lemma_cond_items_end_ge(fs, base + 1 + cond_fields(c).len(), n - 1);
    }
}


/// Whether the scale adjust block follows: only from message version 28
/// on, and only after a positive price increment.
pub open spec fn scale_adjust_present(fs: Seq<Seq<char>>, p: int, mv: int) -> bool {
    mv >= 28 && dbl_is_positive(dbl_field_show_unset(field_at(fs, p + 2)))
}


/// Where the combo-leg count stands: after the leg description when the
/// message version carries one.
pub open spec fn cl_p1(p: int, mv: int) -> int {
    p + (if mv >= 14 { 1int } else { 0 })
}

/// The position after the contract combo legs.
pub open spec fn cl_e1(fs: Seq<Seq<char>>, p: int, mv: int) -> int {
    capped_end(fs.len() as int, cl_p1(p, mv) + 1, fld_i32(fs, cl_p1(p, mv)), 8)
}

/// The position after the order combo legs.
pub open spec fn cl_e2(fs: Seq<Seq<char>>, p: int, mv: int) -> int {
    capped_end(fs.len() as int, cl_e1(fs, p, mv) + 1, fld_i32(fs, cl_e1(fs, p, mv)), 1)
}

/// The delta-neutral order type a volatility group carries: an old
/// message version encodes it as a market-or-none flag.
pub open spec fn vol_dn_ot(fs: Seq<Seq<char>>, p: int, mv: int) -> Seq<char> {
    if mv == 11 {
        if fld_i32(fs, p + 2) == 0 {
            "NONE"@
        } else {
            "MKT"@
        }
    } else {
        fld_str(fs, p + 2)
    }
}

/// Whether a delta-neutral order type is present in the volatility group.
pub open spec fn vol_ne(fs: Seq<Seq<char>>, p: int) -> bool {
    fld_str(fs, p + 2).len() > 0
}


/// How many fields the delta-neutral identity block occupies.
pub open spec fn dn_k1(ne: bool, mv: int, rooa: bool) -> int {
    if mv >= 27 && ne {
        1int + (if rooa { 3int } else { 0 })
    } else {
        0
    }
}

/// How many fields the delta-neutral open-close block occupies.
pub open spec fn dn_k2(ne: bool, mv: int, rooa: bool) -> int {
    if mv >= 31 && ne {
        3int + (if rooa { 1int } else { 0 })
    } else {
        0
    }
}

/// Where the delta-neutral open-close block of the volatility group
/// starts.
pub open spec fn vol_b5(fs: Seq<Seq<char>>, p: int, mv: int, rooa: bool) -> int {
    p + 4 + dn_k1(vol_ne(fs, p), mv, rooa)
}

/// Where the continuous-update field of the volatility group stands.
pub open spec fn vol_b6(fs: Seq<Seq<char>>, p: int, mv: int, rooa: bool) -> int {
    if mv == 11 {
        p + 3
    } else {
        vol_b5(fs, p, mv, rooa) + dn_k2(vol_ne(fs, p), mv, rooa)
    }
}

/// How many fields the volatility group occupies.
pub open spec fn vol_width(fs: Seq<Seq<char>>, p: int, mv: int, sv: int, rooa: bool) -> int {
    if mv < 11 {
        0
    } else {
        (vol_b6(fs, p, mv, rooa) - p) + 1 + (if sv == 26 { 2int } else { 0 }) + 1
    }
}

/// Walks the open-order schema over one frame's fields, populating the
/// order, its contract and its order state.
pub struct OrderDecoder {
    pub contract: Contract,
    pub order: Order,
    pub order_state: OrderState,
    pub message_version: i32,
    pub server_version: i32,
    pub d: Decoder,
}

impl OrderDecoder {
    pub closed spec fn fs(&self) -> Seq<Seq<char>> {
        self.d.fields_view()
    }

    pub closed spec fn pos(&self) -> int {
        self.d.pos_view()
    }

    pub closed spec fn mv(&self) -> int {
        self.message_version as int
    }

    pub closed spec fn sv(&self) -> int {
        self.server_version as int
    }

    pub closed spec fn wf(&self) -> bool {
        self.d.wf()
    }

    /// The cursor and the version context are unchanged.
    pub open spec fn same_frame(&self, o: &OrderDecoder) -> bool {
        self.fs() == o.fs() && self.mv() == o.mv() && self.sv() == o.sv() && self.wf()
    }

    pub fn new(
        contract: Contract,
        order: Order,
        order_state: OrderState,
        message_version: i32,
        server_version: i32,
        d: Decoder,
    ) -> (r: OrderDecoder)
        requires
            d.wf(),
        ensures
            r.contract@ == contract@,
            r.order@ == order@,
            r.order_state@ == order_state@,
            r.mv() == message_version as int,
            r.sv() == server_version as int,
            r.fs() == d.fields_view(),
            r.pos() == d.pos_view(),
            r.wf(),
    {
        OrderDecoder { contract, order, order_state, message_version, server_version, d }
    }

    /// Hands the populated records back.
    pub fn into_parts(self) -> (r: (Contract, Order, OrderState))
        ensures
            r.0@ == self.contract@,
            r.1@ == self.order@,
            r.2@ == self.order_state@,
    {
        (self.contract, self.order, self.order_state)
    }

    /// Reads the order id.
    pub fn read_order_id(&mut self)
        requires
            old(self).wf(),
        ensures
            final(self).same_frame(old(self)),
            final(self).pos() == adv(old(self).fs(), old(self).pos(), 1int),
            final(self).order == (Order { main: final(self).order.main, ..old(self).order }),
            final(self).order.main == (OrderMain { order_id: final(self).order.main.order_id, ..old(self).order.main }),
            final(self).order.main.order_id == (fld_i32(old(self).fs(), old(self).pos()) as i32),
            final(self).contract == old(self).contract,
            final(self).order_state == old(self).order_state,
    {
        self.order.main.order_id = decode_i32(&mut self.d);
    }

    /// Reads the contract identity fields, under their message-version gates.
    pub fn read_contract_fields(&mut self)
        requires
            old(self).wf(),
        ensures
            final(self).same_frame(old(self)),
            final(self).pos() == adv(old(self).fs(), old(self).pos(), (if old(self).mv() >= 17 { 1int } else { 0 }) + 1 + 1 + 1 + 1 + 1 + (if old(self).mv() >= 32 { 1int } else { 0 }) + 1 + 1 + (if old(self).mv() >= 2 { 1int } else { 0 }) + (if old(self).mv() >= 32 { 1int } else { 0 })),
            final(self).order == old(self).order,
            final(self).contract == (Contract { con_id: final(self).contract.con_id, symbol: final(self).contract.symbol, sec_type: final(self).contract.sec_type, last_trade_date_or_contract_month: final(self).contract.last_trade_date_or_contract_month, strike: final(self).contract.strike, right: final(self).contract.right, multiplier: final(self).contract.multiplier, exchange: final(self).contract.exchange, currency: final(self).contract.currency, local_symbol: final(self).contract.local_symbol, trading_class: final(self).contract.trading_class, ..old(self).contract }),
            final(self).contract.con_id == (if old(self).mv() >= 17 { fld_i32(old(self).fs(), old(self).pos()) as i32 } else { old(self).contract.con_id }),
            final(self).contract.symbol@ == (fld_str(old(self).fs(), old(self).pos() + (if old(self).mv() >= 17 { 1int } else { 0 }))),
            final(self).contract.sec_type@ == (fld_str(old(self).fs(), old(self).pos() + (if old(self).mv() >= 17 { 1int } else { 0 }) + 1)),
            final(self).contract.last_trade_date_or_contract_month@ == (fld_str(old(self).fs(), old(self).pos() + (if old(self).mv() >= 17 { 1int } else { 0 }) + 1 + 1)),
            final(self).contract.strike@ == (fld_dbl(old(self).fs(), old(self).pos() + (if old(self).mv() >= 17 { 1int } else { 0 }) + 1 + 1 + 1)),
            final(self).contract.right@ == (fld_str(old(self).fs(), old(self).pos() + (if old(self).mv() >= 17 { 1int } else { 0 }) + 1 + 1 + 1 + 1)),
            final(self).contract.multiplier@ == (if old(self).mv() >= 32 { fld_str(old(self).fs(), old(self).pos() + (if old(self).mv() >= 17 { 1int } else { 0 }) + 1 + 1 + 1 + 1 + 1) } else { old(self).contract.multiplier@ }),
            final(self).contract.exchange@ == (fld_str(old(self).fs(), old(self).pos() + (if old(self).mv() >= 17 { 1int } else { 0 }) + 1 + 1 + 1 + 1 + 1 + (if old(self).mv() >= 32 { 1int } else { 0 }))),
            final(self).contract.currency@ == (fld_str(old(self).fs(), old(self).pos() + (if old(self).mv() >= 17 { 1int } else { 0 }) + 1 + 1 + 1 + 1 + 1 + (if old(self).mv() >= 32 { 1int } else { 0 }) + 1)),
            final(self).contract.local_symbol@ == (if old(self).mv() >= 2 { fld_str(old(self).fs(), old(self).pos() + (if old(self).mv() >= 17 { 1int } else { 0 }) + 1 + 1 + 1 + 1 + 1 + (if old(self).mv() >= 32 { 1int } else { 0 }) + 1 + 1) } else { old(self).contract.local_symbol@ }),
            final(self).contract.trading_class@ == (if old(self).mv() >= 32 { fld_str(old(self).fs(), old(self).pos() + (if old(self).mv() >= 17 { 1int } else { 0 }) + 1 + 1 + 1 + 1 + 1 + (if old(self).mv() >= 32 { 1int } else { 0 }) + 1 + 1 + (if old(self).mv() >= 2 { 1int } else { 0 })) } else { old(self).contract.trading_class@ }),
            final(self).order_state == old(self).order_state,
    {
        if self.message_version >= 17 {
            self.contract.con_id = decode_i32(&mut self.d);
        }
        self.contract.symbol = decode_string(&mut self.d);
        self.contract.sec_type = decode_string(&mut self.d);
        self.contract.last_trade_date_or_contract_month = decode_string(&mut self.d);
        self.contract.strike = decode_f64(&mut self.d);
        self.contract.right = decode_string(&mut self.d);
        if self.message_version >= 32 {
            self.contract.multiplier = decode_string(&mut self.d);
        }
        self.contract.exchange = decode_string(&mut self.d);
        self.contract.currency = decode_string(&mut self.d);
        if self.message_version >= 2 {
            self.contract.local_symbol = decode_string(&mut self.d);
        }
        if self.message_version >= 32 {
            self.contract.trading_class = decode_string(&mut self.d);
        }
    }

    /// Reads the order action.
    pub fn read_action(&mut self)
        requires
            old(self).wf(),
        ensures
            final(self).same_frame(old(self)),
            final(self).pos() == adv(old(self).fs(), old(self).pos(), 1int),
            final(self).order == (Order { main: final(self).order.main, ..old(self).order }),
            final(self).order.main == (OrderMain { action: final(self).order.main.action, ..old(self).order.main }),
            final(self).order.main.action@ == (fld_str(old(self).fs(), old(self).pos())),
            final(self).contract == old(self).contract,
            final(self).order_state == old(self).order_state,
    {
        self.order.main.action = decode_string(&mut self.d);
    }

    /// Reads the total quantity: fractional where the server supports it,
    /// Reads the total quantity: fractional where the server supports it,
    /// an integer count before that.
    pub fn read_total_quantity(&mut self)
        requires
            old(self).wf(),
        ensures
            final(self).same_frame(old(self)),
            final(self).pos() == adv(old(self).fs(), old(self).pos(), 1),
            final(self).order == (Order { main: final(self).order.main, ..old(self).order }),
            final(self).order.main == (OrderMain {
                total_quantity: final(self).order.main.total_quantity,
                ..old(self).order.main
            }),
            final(self).order.main.total_quantity@ == (
                if old(self).sv() >= crate::min_server_version::FRACTIONAL_POSITIONS {
                    fld_dbl(old(self).fs(), old(self).pos())
                } else {
                    Some(int_to_dec(fld_i32(old(self).fs(), old(self).pos())))
                }),
            final(self).contract == old(self).contract,
            final(self).order_state == old(self).order_state,
    {
        if self.server_version >= crate::min_server_version::FRACTIONAL_POSITIONS {
            self.order.main.total_quantity = decode_f64(&mut self.d);
        } else {
            self.order.main.total_quantity = Double::Num(i32_to_dec_string(decode_i32(
                &mut self.d,
            )));
        }
    }

    /// Reads the order type.
    pub fn read_order_type(&mut self)
        requires
            old(self).wf(),
        ensures
            final(self).same_frame(old(self)),
            final(self).pos() == adv(old(self).fs(), old(self).pos(), 1int),
            final(self).order == (Order { main: final(self).order.main, ..old(self).order }),
            final(self).order.main == (OrderMain { order_type: final(self).order.main.order_type, ..old(self).order.main }),
            final(self).order.main.order_type@ == (fld_str(old(self).fs(), old(self).pos())),
            final(self).contract == old(self).contract,
            final(self).order_state == old(self).order_state,
    {
        self.order.main.order_type = decode_string(&mut self.d);
    }

    /// Reads the limit price, unset-aware from message version 29.
    pub fn read_limit_type(&mut self)
        requires
            old(self).wf(),
        ensures
            final(self).same_frame(old(self)),
            final(self).pos() == adv(old(self).fs(), old(self).pos(), 1),
            final(self).order == (Order { main: final(self).order.main, ..old(self).order }),
            final(self).order.main == (OrderMain {
                lmt_price: final(self).order.main.lmt_price,
                ..old(self).order.main
            }),
            final(self).order.main.lmt_price@ == (
                if old(self).mv() < 29 {
                    fld_dbl(old(self).fs(), old(self).pos())
                } else {
                    dbl_field_show_unset(field_at(old(self).fs(), old(self).pos()))
                }),
            final(self).contract == old(self).contract,
            final(self).order_state == old(self).order_state,
    {
        if self.message_version < 29 {
            self.order.main.lmt_price = decode_f64(&mut self.d);
        } else {
            self.order.main.lmt_price = decode_f64_show_unset(&mut self.d);
        }
    }

    /// Reads the auxiliary price, unset-aware from message version 30.
    pub fn read_aux_price(&mut self)
        requires
            old(self).wf(),
        ensures
            final(self).same_frame(old(self)),
            final(self).pos() == adv(old(self).fs(), old(self).pos(), 1),
            final(self).order == (Order { main: final(self).order.main, ..old(self).order }),
            final(self).order.main == (OrderMain {
                aux_price: final(self).order.main.aux_price,
                ..old(self).order.main
            }),
            final(self).order.main.aux_price@ == (
                if old(self).mv() < 30 {
                    fld_dbl(old(self).fs(), old(self).pos())
                } else {
                    dbl_field_show_unset(field_at(old(self).fs(), old(self).pos()))
                }),
            final(self).contract == old(self).contract,
            final(self).order_state == old(self).order_state,
    {
        if self.message_version < 30 {
            self.order.main.aux_price = decode_f64(&mut self.d);
        } else {
            self.order.main.aux_price = decode_f64_show_unset(&mut self.d);
        }
    }

    /// Reads the time in force.
    pub fn read_tif(&mut self)
        requires
            old(self).wf(),
        ensures
            final(self).same_frame(old(self)),
            final(self).pos() == adv(old(self).fs(), old(self).pos(), 1int),
            final(self).order == (Order { main: final(self).order.main, ..old(self).order }),
            final(self).order.main == (OrderMain { tif: final(self).order.main.tif, ..old(self).order.main }),
            final(self).order.main.tif@ == (fld_str(old(self).fs(), old(self).pos())),
            final(self).contract == old(self).contract,
            final(self).order_state == old(self).order_state,
    {
        self.order.main.tif = decode_string(&mut self.d);
    }

    /// Reads the one-cancels-all group.
    pub fn read_oca_group(&mut self)
        requires
            old(self).wf(),
        ensures
            final(self).same_frame(old(self)),
            final(self).pos() == adv(old(self).fs(), old(self).pos(), 1int),
            final(self).order == (Order { main: final(self).order.main, ..old(self).order }),
            final(self).order.main == (OrderMain { oca_group: final(self).order.main.oca_group, ..old(self).order.main }),
            final(self).order.main.oca_group@ == (fld_str(old(self).fs(), old(self).pos())),
            final(self).contract == old(self).contract,
            final(self).order_state == old(self).order_state,
    {
        self.order.main.oca_group = decode_string(&mut self.d);
    }

    /// Reads the account.
    pub fn read_account(&mut self)
        requires
            old(self).wf(),
        ensures
            final(self).same_frame(old(self)),
            final(self).pos() == adv(old(self).fs(), old(self).pos(), 1int),
            final(self).order == (Order { main: final(self).order.main, ..old(self).order }),
            final(self).order.main == (OrderMain { account: final(self).order.main.account, ..old(self).order.main }),
            final(self).order.main.account@ == (fld_str(old(self).fs(), old(self).pos())),
            final(self).contract == old(self).contract,
            final(self).order_state == old(self).order_state,
    {
        self.order.main.account = decode_string(&mut self.d);
    }

    /// Reads the open/close flag.
    pub fn read_open_close(&mut self)
        requires
            old(self).wf(),
        ensures
            final(self).same_frame(old(self)),
            final(self).pos() == adv(old(self).fs(), old(self).pos(), 1int),
            final(self).order == (Order { main: final(self).order.main, ..old(self).order }),
            final(self).order.main == (OrderMain { open_close: final(self).order.main.open_close, ..old(self).order.main }),
            final(self).order.main.open_close@ == (fld_str(old(self).fs(), old(self).pos())),
            final(self).contract == old(self).contract,
            final(self).order_state == old(self).order_state,
    {
        self.order.main.open_close = decode_string(&mut self.d);
    }

    /// Reads the order origin.
    pub fn read_origin(&mut self)
        requires
            old(self).wf(),
        ensures
            final(self).same_frame(old(self)),
            final(self).pos() == adv(old(self).fs(), old(self).pos(), 1int),
            final(self).order == (Order { main: final(self).order.main, ..old(self).order }),
            final(self).order.main == (OrderMain { origin: final(self).order.main.origin, ..old(self).order.main }),
            final(self).order.main.origin == (Origin::from_code_spec(fld_i32(old(self).fs(), old(self).pos()) as i32)),
            final(self).contract == old(self).contract,
            final(self).order_state == old(self).order_state,
    {
        self.order.main.origin = Origin::from_code(decode_i32(&mut self.d));
    }

    /// Reads the order reference.
    pub fn read_order_ref(&mut self)
        requires
            old(self).wf(),
        ensures
            final(self).same_frame(old(self)),
            final(self).pos() == adv(old(self).fs(), old(self).pos(), 1int),
            final(self).order == (Order { main: final(self).order.main, ..old(self).order }),
            final(self).order.main == (OrderMain { order_ref: final(self).order.main.order_ref, ..old(self).order.main }),
            final(self).order.main.order_ref@ == (fld_str(old(self).fs(), old(self).pos())),
            final(self).contract == old(self).contract,
            final(self).order_state == old(self).order_state,
    {
        self.order.main.order_ref = decode_string(&mut self.d);
    }

    /// Reads the client id.
    pub fn read_client_id(&mut self)
        requires
            old(self).wf(),
        ensures
            final(self).same_frame(old(self)),
            final(self).pos() == adv(old(self).fs(), old(self).pos(), (if old(self).mv() >= 3 { 1int } else { 0 })),
            final(self).order == (Order { main: final(self).order.main, ..old(self).order }),
            final(self).order.main == (OrderMain { client_id: final(self).order.main.client_id, ..old(self).order.main }),
            final(self).order.main.client_id == (if old(self).mv() >= 3 { fld_i32(old(self).fs(), old(self).pos()) as i32 } else { old(self).order.main.client_id }),
            final(self).contract == old(self).contract,
            final(self).order_state == old(self).order_state,
    {
        if self.message_version >= 3 {
            self.order.main.client_id = decode_i32(&mut self.d);
        }
    }

    /// Reads the permanent id.
    pub fn read_perm_id(&mut self)
        requires
            old(self).wf(),
        ensures
            final(self).same_frame(old(self)),
            final(self).pos() == adv(old(self).fs(), old(self).pos(), (if old(self).mv() >= 4 { 1int } else { 0 })),
            final(self).order == (Order { main: final(self).order.main, ..old(self).order }),
            final(self).order.main == (OrderMain { perm_id: final(self).order.main.perm_id, ..old(self).order.main }),
            final(self).order.main.perm_id == (if old(self).mv() >= 4 { fld_i32(old(self).fs(), old(self).pos()) as i32 } else { old(self).order.main.perm_id }),
            final(self).contract == old(self).contract,
            final(self).order_state == old(self).order_state,
    {
        if self.message_version >= 4 {
            self.order.main.perm_id = decode_i32(&mut self.d);
        }
    }

    /// Reads the outside-regular-hours flag; a dead branch below message
    /// version eighteen is kept only in the version table.
    pub fn read_outside_rth(&mut self)
        requires
            old(self).wf(),
        ensures
            final(self).same_frame(old(self)),
            final(self).pos() == adv(old(self).fs(), old(self).pos(), (if old(self).mv() >= 18 { 1int } else { 0 })),
            final(self).order == (Order { terms: final(self).order.terms, ..old(self).order }),
            final(self).order.terms == (OrderTerms { outside_rth: final(self).order.terms.outside_rth, ..old(self).order.terms }),
            final(self).order.terms.outside_rth == (if old(self).mv() >= 18 { fld_bool(old(self).fs(), old(self).pos()) } else { old(self).order.terms.outside_rth }),
            final(self).contract == old(self).contract,
            final(self).order_state == old(self).order_state,
    {
        if self.message_version >= 18 {
            self.order.terms.outside_rth = decode_bool(&mut self.d);
        }
    }

    /// Reads the hidden flag.
    pub fn read_hidden(&mut self)
        requires
            old(self).wf(),
        ensures
            final(self).same_frame(old(self)),
            final(self).pos() == adv(old(self).fs(), old(self).pos(), (if old(self).mv() >= 4 { 1int } else { 0 })),
            final(self).order == (Order { terms: final(self).order.terms, ..old(self).order }),
            final(self).order.terms == (OrderTerms { hidden: final(self).order.terms.hidden, ..old(self).order.terms }),
            final(self).order.terms.hidden == (if old(self).mv() >= 4 { fld_i32(old(self).fs(), old(self).pos()) == 1 } else { old(self).order.terms.hidden }),
            final(self).contract == old(self).contract,
            final(self).order_state == old(self).order_state,
    {
        if self.message_version >= 4 {
            self.order.terms.hidden = decode_i32(&mut self.d) == 1;
        }
    }

    /// Reads the discretionary amount.
    pub fn read_discretionary_amount(&mut self)
        requires
            old(self).wf(),
        ensures
            final(self).same_frame(old(self)),
            final(self).pos() == adv(old(self).fs(), old(self).pos(), (if old(self).mv() >= 4 { 1int } else { 0 })),
            final(self).order == (Order { routing: final(self).order.routing, ..old(self).order }),
            final(self).order.routing == (OrderRouting { discretionary_amt: final(self).order.routing.discretionary_amt, ..old(self).order.routing }),
            final(self).order.routing.discretionary_amt@ == (if old(self).mv() >= 4 { fld_dbl(old(self).fs(), old(self).pos()) } else { old(self).order.routing.discretionary_amt@ }),
            final(self).contract == old(self).contract,
            final(self).order_state == old(self).order_state,
    {
        if self.message_version >= 4 {
            self.order.routing.discretionary_amt = decode_f64(&mut self.d);
        }
    }

    /// Reads the good-after time.
    pub fn read_good_after_time(&mut self)
        requires
            old(self).wf(),
        ensures
            final(self).same_frame(old(self)),
            final(self).pos() == adv(old(self).fs(), old(self).pos(), (if old(self).mv() >= 5 { 1int } else { 0 })),
            final(self).order == (Order { terms: final(self).order.terms, ..old(self).order }),
            final(self).order.terms == (OrderTerms { good_after_time: final(self).order.terms.good_after_time, ..old(self).order.terms }),
            final(self).order.terms.good_after_time@ == (if old(self).mv() >= 5 { fld_str(old(self).fs(), old(self).pos()) } else { old(self).order.terms.good_after_time@ }),
            final(self).contract == old(self).contract,
            final(self).order_state == old(self).order_state,
    {
        if self.message_version >= 5 {
            self.order.terms.good_after_time = decode_string(&mut self.d);
        }
    }

    /// Skips the deprecated shares-allocation field.
    pub fn skip_shares_allocation(&mut self)
        requires
            old(self).wf(),
        ensures
            final(self).same_frame(old(self)),
            final(self).pos() == adv(old(self).fs(), old(self).pos(), (if old(self).mv() >= 6 { 1int } else { 0 })),
            final(self).order == old(self).order,
            final(self).contract == old(self).contract,
            final(self).order_state == old(self).order_state,
    {
        if self.message_version >= 6 {
            decode_string(&mut self.d);
        }
    }

    /// Reads the financial-adviser fields.
    pub fn read_faparams(&mut self)
        requires
            old(self).wf(),
        ensures
            final(self).same_frame(old(self)),
            final(self).pos() == adv(old(self).fs(), old(self).pos(), (if old(self).mv() >= 7 { 1int } else { 0 }) + (if old(self).mv() >= 7 { 1int } else { 0 }) + (if old(self).mv() >= 7 { 1int } else { 0 }) + (if old(self).mv() >= 7 { 1int } else { 0 })),
            final(self).order == (Order { routing: final(self).order.routing, ..old(self).order }),
            final(self).order.routing == (OrderRouting { fa_group: final(self).order.routing.fa_group, fa_method: final(self).order.routing.fa_method, fa_percentage: final(self).order.routing.fa_percentage, fa_profile: final(self).order.routing.fa_profile, ..old(self).order.routing }),
            final(self).order.routing.fa_group@ == (if old(self).mv() >= 7 { fld_str(old(self).fs(), old(self).pos()) } else { old(self).order.routing.fa_group@ }),
            final(self).order.routing.fa_method@ == (if old(self).mv() >= 7 { fld_str(old(self).fs(), old(self).pos() + (if old(self).mv() >= 7 { 1int } else { 0 })) } else { old(self).order.routing.fa_method@ }),
            final(self).order.routing.fa_percentage@ == (if old(self).mv() >= 7 { fld_str(old(self).fs(), old(self).pos() + (if old(self).mv() >= 7 { 1int } else { 0 }) + (if old(self).mv() >= 7 { 1int } else { 0 })) } else { old(self).order.routing.fa_percentage@ }),
            final(self).order.routing.fa_profile@ == (if old(self).mv() >= 7 { fld_str(old(self).fs(), old(self).pos() + (if old(self).mv() >= 7 { 1int } else { 0 }) + (if old(self).mv() >= 7 { 1int } else { 0 }) + (if old(self).mv() >= 7 { 1int } else { 0 })) } else { old(self).order.routing.fa_profile@ }),
            final(self).contract == old(self).contract,
            final(self).order_state == old(self).order_state,
    {
        if self.message_version >= 7 {
            self.order.routing.fa_group = decode_string(&mut self.d);
            self.order.routing.fa_method = decode_string(&mut self.d);
            self.order.routing.fa_percentage = decode_string(&mut self.d);
            self.order.routing.fa_profile = decode_string(&mut self.d);
        }
    }

    /// Reads the model code where the server supports models.
    pub fn read_model_code(&mut self)
        requires
            old(self).wf(),
        ensures
            final(self).same_frame(old(self)),
            final(self).pos() == adv(old(self).fs(), old(self).pos(), (if old(self).sv() >= crate::min_server_version::MODELS_SUPPORT { 1int } else { 0 })),
            final(self).order == (Order { algo: final(self).order.algo, ..old(self).order }),
            final(self).order.algo == (OrderAlgo { model_code: final(self).order.algo.model_code, ..old(self).order.algo }),
            final(self).order.algo.model_code@ == (if old(self).sv() >= crate::min_server_version::MODELS_SUPPORT { fld_str(old(self).fs(), old(self).pos()) } else { old(self).order.algo.model_code@ }),
            final(self).contract == old(self).contract,
            final(self).order_state == old(self).order_state,
    {
        if self.server_version >= crate::min_server_version::MODELS_SUPPORT {
            self.order.algo.model_code = decode_string(&mut self.d);
        }
    }

    /// Reads the good-till date.
    pub fn read_good_till_date(&mut self)
        requires
            old(self).wf(),
        ensures
            final(self).same_frame(old(self)),
            final(self).pos() == adv(old(self).fs(), old(self).pos(), (if old(self).mv() >= 8 { 1int } else { 0 })),
            final(self).order == (Order { terms: final(self).order.terms, ..old(self).order }),
            final(self).order.terms == (OrderTerms { good_till_date: final(self).order.terms.good_till_date, ..old(self).order.terms }),
            final(self).order.terms.good_till_date@ == (if old(self).mv() >= 8 { fld_str(old(self).fs(), old(self).pos()) } else { old(self).order.terms.good_till_date@ }),
            final(self).contract == old(self).contract,
            final(self).order_state == old(self).order_state,
    {
        if self.message_version >= 8 {
            self.order.terms.good_till_date = decode_string(&mut self.d);
        }
    }

    /// Reads the rule 80A code.
    pub fn read_rule80a(&mut self)
        requires
            old(self).wf(),
        ensures
            final(self).same_frame(old(self)),
            final(self).pos() == adv(old(self).fs(), old(self).pos(), (if old(self).mv() >= 9 { 1int } else { 0 })),
            final(self).order == (Order { terms: final(self).order.terms, ..old(self).order }),
            final(self).order.terms == (OrderTerms { rule80a: final(self).order.terms.rule80a, ..old(self).order.terms }),
            final(self).order.terms.rule80a@ == (if old(self).mv() >= 9 { fld_str(old(self).fs(), old(self).pos()) } else { old(self).order.terms.rule80a@ }),
            final(self).contract == old(self).contract,
            final(self).order_state == old(self).order_state,
    {
        if self.message_version >= 9 {
            self.order.terms.rule80a = decode_string(&mut self.d);
        }
    }

    /// Reads the percent offset.
    pub fn read_percent_offset(&mut self)
        requires
            old(self).wf(),
        ensures
            final(self).same_frame(old(self)),
            final(self).pos() == adv(old(self).fs(), old(self).pos(), (if old(self).mv() >= 9 { 1int } else { 0 })),
            final(self).order == (Order { terms: final(self).order.terms, ..old(self).order }),
            final(self).order.terms == (OrderTerms { percent_offset: final(self).order.terms.percent_offset, ..old(self).order.terms }),
            final(self).order.terms.percent_offset@ == (if old(self).mv() >= 9 { dbl_field_show_unset(field_at(old(self).fs(), old(self).pos())) } else { old(self).order.terms.percent_offset@ }),
            final(self).contract == old(self).contract,
            final(self).order_state == old(self).order_state,
    {
        if self.message_version >= 9 {
            self.order.terms.percent_offset = decode_f64_show_unset(&mut self.d);
        }
    }

    /// Reads the settling firm.
    pub fn read_settling_firm(&mut self)
        requires
            old(self).wf(),
        ensures
            final(self).same_frame(old(self)),
            final(self).pos() == adv(old(self).fs(), old(self).pos(), (if old(self).mv() >= 9 { 1int } else { 0 })),
            final(self).order == (Order { scale: final(self).order.scale, ..old(self).order }),
            final(self).order.scale == (OrderScale { settling_firm: final(self).order.scale.settling_firm, ..old(self).order.scale }),
            final(self).order.scale.settling_firm@ == (if old(self).mv() >= 9 { fld_str(old(self).fs(), old(self).pos()) } else { old(self).order.scale.settling_firm@ }),
            final(self).contract == old(self).contract,
            final(self).order_state == old(self).order_state,
    {
        if self.message_version >= 9 {
            self.order.scale.settling_firm = decode_string(&mut self.d);
        }
    }

    /// Reads the short-sale fields; one server revision consumed the exempt
    /// code without keeping it.
    pub fn read_short_sale_params(&mut self)
        requires
            old(self).wf(),
        ensures
            final(self).same_frame(old(self)),
            final(self).pos() == adv(old(self).fs(), old(self).pos(), (if old(self).mv() >= 9 { 1int } else { 0 }) + (if old(self).mv() >= 9 { 1int } else { 0 }) + (if old(self).mv() >= 9 && (old(self).sv() == 51 || old(self).mv() >= 23) { 1int } else { 0 })),
            final(self).order == (Order { routing: final(self).order.routing, ..old(self).order }),
            final(self).order.routing == (OrderRouting { short_sale_slot: final(self).order.routing.short_sale_slot, designated_location: final(self).order.routing.designated_location, exempt_code: final(self).order.routing.exempt_code, ..old(self).order.routing }),
            final(self).order.routing.short_sale_slot == (if old(self).mv() >= 9 { fld_i32(old(self).fs(), old(self).pos()) as i32 } else { old(self).order.routing.short_sale_slot }),
            final(self).order.routing.designated_location@ == (if old(self).mv() >= 9 { fld_str(old(self).fs(), old(self).pos() + (if old(self).mv() >= 9 { 1int } else { 0 })) } else { old(self).order.routing.designated_location@ }),
            final(self).order.routing.exempt_code == (if old(self).mv() >= 9 && !(old(self).sv() == 51) && old(self).mv() >= 23 { fld_i32(old(self).fs(), old(self).pos() + (if old(self).mv() >= 9 { 1int } else { 0 }) + (if old(self).mv() >= 9 { 1int } else { 0 })) as i32 } else { old(self).order.routing.exempt_code }),
            final(self).contract == old(self).contract,
            final(self).order_state == old(self).order_state,
    {
        if self.message_version >= 9 {
            self.order.routing.short_sale_slot = decode_i32(&mut self.d);
            self.order.routing.designated_location = decode_string(&mut self.d);
        }
        if self.message_version >= 9 && (self.server_version == 51 || self.message_version >= 23) {
            let v = decode_i32(&mut self.d);
            if self.message_version >= 9 && !(self.server_version == 51) && self.message_version >= 23 {
                self.order.routing.exempt_code = v;
            }
        }
    }

    /// Reads the auction strategy.
    pub fn read_auction_strategy(&mut self)
        requires
            old(self).wf(),
        ensures
            final(self).same_frame(old(self)),
            final(self).pos() == adv(old(self).fs(), old(self).pos(), (if old(self).mv() >= 9 { 1int } else { 0 })),
            final(self).order == (Order { routing: final(self).order.routing, ..old(self).order }),
            final(self).order.routing == (OrderRouting { auction_strategy: final(self).order.routing.auction_strategy, ..old(self).order.routing }),
            final(self).order.routing.auction_strategy == (if old(self).mv() >= 9 { fld_i32(old(self).fs(), old(self).pos()) as i32 } else { old(self).order.routing.auction_strategy }),
            final(self).contract == old(self).contract,
            final(self).order_state == old(self).order_state,
    {
        if self.message_version >= 9 {
            self.order.routing.auction_strategy = decode_i32(&mut self.d);
        }
    }

    /// Reads the box-order fields.
    pub fn read_box_order_params(&mut self)
        requires
            old(self).wf(),
        ensures
            final(self).same_frame(old(self)),
            final(self).pos() == adv(old(self).fs(), old(self).pos(), (if old(self).mv() >= 9 { 1int } else { 0 }) + (if old(self).mv() >= 9 { 1int } else { 0 }) + (if old(self).mv() >= 9 { 1int } else { 0 })),
            final(self).order == (Order { routing: final(self).order.routing, ..old(self).order }),
            final(self).order.routing == (OrderRouting { starting_price: final(self).order.routing.starting_price, stock_ref_price: final(self).order.routing.stock_ref_price, delta: final(self).order.routing.delta, ..old(self).order.routing }),
            final(self).order.routing.starting_price@ == (if old(self).mv() >= 9 { dbl_field_show_unset(field_at(old(self).fs(), old(self).pos())) } else { old(self).order.routing.starting_price@ }),
            final(self).order.routing.stock_ref_price@ == (if old(self).mv() >= 9 { dbl_field_show_unset(field_at(old(self).fs(), old(self).pos() + (if old(self).mv() >= 9 { 1int } else { 0 }))) } else { old(self).order.routing.stock_ref_price@ }),
            final(self).order.routing.delta@ == (if old(self).mv() >= 9 { dbl_field_show_unset(field_at(old(self).fs(), old(self).pos() + (if old(self).mv() >= 9 { 1int } else { 0 }) + (if old(self).mv() >= 9 { 1int } else { 0 }))) } else { old(self).order.routing.delta@ }),
            final(self).contract == old(self).contract,
            final(self).order_state == old(self).order_state,
    {
        if self.message_version >= 9 {
            self.order.routing.starting_price = decode_f64_show_unset(&mut self.d);
            self.order.routing.stock_ref_price = decode_f64_show_unset(&mut self.d);
            self.order.routing.delta = decode_f64_show_unset(&mut self.d);
        }
    }

    /// Reads the pegged-to-stock and volatility range fields.
    pub fn read_peg_to_stk_or_vol_order_params(&mut self)
        requires
            old(self).wf(),
        ensures
            final(self).same_frame(old(self)),
            final(self).pos() == adv(old(self).fs(), old(self).pos(), (if old(self).mv() >= 9 { 1int } else { 0 }) + (if old(self).mv() >= 9 { 1int } else { 0 })),
            final(self).order == (Order { routing: final(self).order.routing, ..old(self).order }),
            final(self).order.routing == (OrderRouting { stock_range_lower: final(self).order.routing.stock_range_lower, stock_range_upper: final(self).order.routing.stock_range_upper, ..old(self).order.routing }),
            final(self).order.routing.stock_range_lower@ == (if old(self).mv() >= 9 { dbl_field_show_unset(field_at(old(self).fs(), old(self).pos())) } else { old(self).order.routing.stock_range_lower@ }),
            final(self).order.routing.stock_range_upper@ == (if old(self).mv() >= 9 { dbl_field_show_unset(field_at(old(self).fs(), old(self).pos() + (if old(self).mv() >= 9 { 1int } else { 0 }))) } else { old(self).order.routing.stock_range_upper@ }),
            final(self).contract == old(self).contract,
            final(self).order_state == old(self).order_state,
    {
        if self.message_version >= 9 {
            self.order.routing.stock_range_lower = decode_f64_show_unset(&mut self.d);
            self.order.routing.stock_range_upper = decode_f64_show_unset(&mut self.d);
        }
    }

    /// Reads the display size.
    pub fn read_display_size(&mut self)
        requires
            old(self).wf(),
        ensures
            final(self).same_frame(old(self)),
            final(self).pos() == adv(old(self).fs(), old(self).pos(), (if old(self).mv() >= 9 { 1int } else { 0 })),
            final(self).order == (Order { terms: final(self).order.terms, ..old(self).order }),
            final(self).order.terms == (OrderTerms { display_size: final(self).order.terms.display_size, ..old(self).order.terms }),
            final(self).order.terms.display_size == (if old(self).mv() >= 9 { fld_i32(old(self).fs(), old(self).pos()) as i32 } else { old(self).order.terms.display_size }),
            final(self).contract == old(self).contract,
            final(self).order_state == old(self).order_state,
    {
        if self.message_version >= 9 {
            self.order.terms.display_size = decode_i32(&mut self.d);
        }
    }

    /// Skips the legacy regular-trading-hours flag of old message versions.
    pub fn read_old_style_outside_rth(&mut self)
        requires
            old(self).wf(),
        ensures
            final(self).same_frame(old(self)),
            final(self).pos() == adv(old(self).fs(), old(self).pos(), (if old(self).mv() >= 9 && old(self).mv() < 18 { 1int } else { 0 })),
            final(self).order == old(self).order,
            final(self).contract == old(self).contract,
            final(self).order_state == old(self).order_state,
    {
        if self.message_version >= 9 && self.message_version < 18 {
            decode_bool(&mut self.d);
        }
    }

    /// Reads the block-order flag.
    pub fn read_block_order(&mut self)
        requires
            old(self).wf(),
        ensures
            final(self).same_frame(old(self)),
            final(self).pos() == adv(old(self).fs(), old(self).pos(), (if old(self).mv() >= 9 { 1int } else { 0 })),
            final(self).order == (Order { terms: final(self).order.terms, ..old(self).order }),
            final(self).order.terms == (OrderTerms { block_order: final(self).order.terms.block_order, ..old(self).order.terms }),
            final(self).order.terms.block_order == (if old(self).mv() >= 9 { fld_bool(old(self).fs(), old(self).pos()) } else { old(self).order.terms.block_order }),
            final(self).contract == old(self).contract,
            final(self).order_state == old(self).order_state,
    {
        if self.message_version >= 9 {
            self.order.terms.block_order = decode_bool(&mut self.d);
        }
    }

    /// Reads the sweep-to-fill flag.
    pub fn read_sweep_to_fill(&mut self)
        requires
            old(self).wf(),
        ensures
            final(self).same_frame(old(self)),
            final(self).pos() == adv(old(self).fs(), old(self).pos(), (if old(self).mv() >= 9 { 1int } else { 0 })),
            final(self).order == (Order { terms: final(self).order.terms, ..old(self).order }),
            final(self).order.terms == (OrderTerms { sweep_to_fill: final(self).order.terms.sweep_to_fill, ..old(self).order.terms }),
            final(self).order.terms.sweep_to_fill == (if old(self).mv() >= 9 { fld_bool(old(self).fs(), old(self).pos()) } else { old(self).order.terms.sweep_to_fill }),
            final(self).contract == old(self).contract,
            final(self).order_state == old(self).order_state,
    {
        if self.message_version >= 9 {
            self.order.terms.sweep_to_fill = decode_bool(&mut self.d);
        }
    }

    /// Reads the all-or-none flag.
    pub fn read_all_or_none(&mut self)
        requires
            old(self).wf(),
        ensures
            final(self).same_frame(old(self)),
            final(self).pos() == adv(old(self).fs(), old(self).pos(), (if old(self).mv() >= 9 { 1int } else { 0 })),
            final(self).order == (Order { terms: final(self).order.terms, ..old(self).order }),
            final(self).order.terms == (OrderTerms { all_or_none: final(self).order.terms.all_or_none, ..old(self).order.terms }),
            final(self).order.terms.all_or_none == (if old(self).mv() >= 9 { fld_bool(old(self).fs(), old(self).pos()) } else { old(self).order.terms.all_or_none }),
            final(self).contract == old(self).contract,
            final(self).order_state == old(self).order_state,
    {
        if self.message_version >= 9 {
            self.order.terms.all_or_none = decode_bool(&mut self.d);
        }
    }

    /// Reads the minimum quantity, unset-aware.
    pub fn read_min_qty(&mut self)
        requires
            old(self).wf(),
        ensures
            final(self).same_frame(old(self)),
            final(self).pos() == adv(old(self).fs(), old(self).pos(), (if old(self).mv() >= 9 { 1int } else { 0 })),
            final(self).order == (Order { terms: final(self).order.terms, ..old(self).order }),
            final(self).order.terms == (OrderTerms { min_qty: final(self).order.terms.min_qty, ..old(self).order.terms }),
            final(self).order.terms.min_qty == (if old(self).mv() >= 9 { i32_show_unset_value(field_at(old(self).fs(), old(self).pos())) as i32 } else { old(self).order.terms.min_qty }),
            final(self).contract == old(self).contract,
            final(self).order_state == old(self).order_state,
    {
        if self.message_version >= 9 {
            self.order.terms.min_qty = decode_i32_show_unset(&mut self.d);
        }
    }

    /// Reads the one-cancels-all type.
    pub fn read_oca_type(&mut self)
        requires
            old(self).wf(),
        ensures
            final(self).same_frame(old(self)),
            final(self).pos() == adv(old(self).fs(), old(self).pos(), (if old(self).mv() >= 9 { 1int } else { 0 })),
            final(self).order == (Order { main: final(self).order.main, ..old(self).order }),
            final(self).order.main == (OrderMain { oca_type: final(self).order.main.oca_type, ..old(self).order.main }),
            final(self).order.main.oca_type == (if old(self).mv() >= 9 { fld_i32(old(self).fs(), old(self).pos()) as i32 } else { old(self).order.main.oca_type }),
            final(self).contract == old(self).contract,
            final(self).order_state == old(self).order_state,
    {
        if self.message_version >= 9 {
            self.order.main.oca_type = decode_i32(&mut self.d);
        }
    }

    /// Reads the electronic-trading-only flag.
    pub fn read_etrade_only(&mut self)
        requires
            old(self).wf(),
        ensures
            final(self).same_frame(old(self)),
            final(self).pos() == adv(old(self).fs(), old(self).pos(), (if old(self).mv() >= 9 { 1int } else { 0 })),
            final(self).order == (Order { routing: final(self).order.routing, ..old(self).order }),
            final(self).order.routing == (OrderRouting { e_trade_only: final(self).order.routing.e_trade_only, ..old(self).order.routing }),
            final(self).order.routing.e_trade_only == (if old(self).mv() >= 9 { fld_bool(old(self).fs(), old(self).pos()) } else { old(self).order.routing.e_trade_only }),
            final(self).contract == old(self).contract,
            final(self).order_state == old(self).order_state,
    {
        if self.message_version >= 9 {
            self.order.routing.e_trade_only = decode_bool(&mut self.d);
        }
    }

    /// Reads the firm-quote-only flag.
    pub fn read_firm_quote_only(&mut self)
        requires
            old(self).wf(),
        ensures
            final(self).same_frame(old(self)),
            final(self).pos() == adv(old(self).fs(), old(self).pos(), (if old(self).mv() >= 9 { 1int } else { 0 })),
            final(self).order == (Order { routing: final(self).order.routing, ..old(self).order }),
            final(self).order.routing == (OrderRouting { firm_quote_only: final(self).order.routing.firm_quote_only, ..old(self).order.routing }),
            final(self).order.routing.firm_quote_only == (if old(self).mv() >= 9 { fld_bool(old(self).fs(), old(self).pos()) } else { old(self).order.routing.firm_quote_only }),
            final(self).contract == old(self).contract,
            final(self).order_state == old(self).order_state,
    {
        if self.message_version >= 9 {
            self.order.routing.firm_quote_only = decode_bool(&mut self.d);
        }
    }

    /// Reads the best-bid-offer price cap, unset-aware.
    pub fn read_nbbo_price_cap(&mut self)
        requires
            old(self).wf(),
        ensures
            final(self).same_frame(old(self)),
            final(self).pos() == adv(old(self).fs(), old(self).pos(), (if old(self).mv() >= 9 { 1int } else { 0 })),
            final(self).order == (Order { routing: final(self).order.routing, ..old(self).order }),
            final(self).order.routing == (OrderRouting { nbbo_price_cap: final(self).order.routing.nbbo_price_cap, ..old(self).order.routing }),
            final(self).order.routing.nbbo_price_cap@ == (if old(self).mv() >= 9 { dbl_field_show_unset(field_at(old(self).fs(), old(self).pos())) } else { old(self).order.routing.nbbo_price_cap@ }),
            final(self).contract == old(self).contract,
            final(self).order_state == old(self).order_state,
    {
        if self.message_version >= 9 {
            self.order.routing.nbbo_price_cap = decode_f64_show_unset(&mut self.d);
        }
    }

    /// Reads the parent order id.
    pub fn read_parent_id(&mut self)
        requires
            old(self).wf(),
        ensures
            final(self).same_frame(old(self)),
            final(self).pos() == adv(old(self).fs(), old(self).pos(), (if old(self).mv() >= 10 { 1int } else { 0 })),
            final(self).order == (Order { main: final(self).order.main, ..old(self).order }),
            final(self).order.main == (OrderMain { parent_id: final(self).order.main.parent_id, ..old(self).order.main }),
            final(self).order.main.parent_id == (if old(self).mv() >= 10 { fld_i32(old(self).fs(), old(self).pos()) as i32 } else { old(self).order.main.parent_id }),
            final(self).contract == old(self).contract,
            final(self).order_state == old(self).order_state,
    {
        if self.message_version >= 10 {
            self.order.main.parent_id = decode_i32(&mut self.d);
        }
    }

    /// Reads the trigger method code.
    pub fn read_trigger_method(&mut self)
        requires
            old(self).wf(),
        ensures
            final(self).same_frame(old(self)),
            final(self).pos() == adv(old(self).fs(), old(self).pos(), (if old(self).mv() >= 10 { 1int } else { 0 })),
            final(self).order == (Order { terms: final(self).order.terms, ..old(self).order }),
            final(self).order.terms == (OrderTerms { trigger_method: final(self).order.terms.trigger_method, ..old(self).order.terms }),
            final(self).order.terms.trigger_method == (if old(self).mv() >= 10 { fld_i32(old(self).fs(), old(self).pos()) as i32 } else { old(self).order.terms.trigger_method }),
            final(self).contract == old(self).contract,
            final(self).order_state == old(self).order_state,
    {
        if self.message_version >= 10 {
            self.order.terms.trigger_method = decode_i32(&mut self.d);
        }
    }

    /// Reads the trailing-stop fields, each under its own gate.
    pub fn read_trail_params(&mut self)
        requires
            old(self).wf(),
        ensures
            final(self).same_frame(old(self)),
            final(self).pos() == adv(old(self).fs(), old(self).pos(), (if old(self).mv() >= 13 { 1int } else { 0 }) + (if old(self).mv() >= 30 { 1int } else { 0 })),
            final(self).order == (Order { terms: final(self).order.terms, ..old(self).order }),
            final(self).order.terms == (OrderTerms { trail_stop_price: final(self).order.terms.trail_stop_price, trailing_percent: final(self).order.terms.trailing_percent, ..old(self).order.terms }),
            final(self).order.terms.trail_stop_price@ == (if old(self).mv() >= 13 { dbl_field_show_unset(field_at(old(self).fs(), old(self).pos())) } else { old(self).order.terms.trail_stop_price@ }),
            final(self).order.terms.trailing_percent@ == (if old(self).mv() >= 30 { dbl_field_show_unset(field_at(old(self).fs(), old(self).pos() + (if old(self).mv() >= 13 { 1int } else { 0 }))) } else { old(self).order.terms.trailing_percent@ }),
            final(self).contract == old(self).contract,
            final(self).order_state == old(self).order_state,
    {
        if self.message_version >= 13 {
            self.order.terms.trail_stop_price = decode_f64_show_unset(&mut self.d);
        }
        if self.message_version >= 30 {
            self.order.terms.trailing_percent = decode_f64_show_unset(&mut self.d);
        }
    }

    /// Reads the basis-point fields.
    pub fn read_basis_points(&mut self)
        requires
            old(self).wf(),
        ensures
            final(self).same_frame(old(self)),
            final(self).pos() == adv(old(self).fs(), old(self).pos(), (if old(self).mv() >= 14 { 1int } else { 0 }) + (if old(self).mv() >= 14 { 1int } else { 0 })),
            final(self).order == (Order { vol: final(self).order.vol, ..old(self).order }),
            final(self).order.vol == (OrderVol { basis_points: final(self).order.vol.basis_points, basis_points_type: final(self).order.vol.basis_points_type, ..old(self).order.vol }),
            final(self).order.vol.basis_points@ == (if old(self).mv() >= 14 { dbl_field_show_unset(field_at(old(self).fs(), old(self).pos())) } else { old(self).order.vol.basis_points@ }),
            final(self).order.vol.basis_points_type == (if old(self).mv() >= 14 { i32_show_unset_value(field_at(old(self).fs(), old(self).pos() + (if old(self).mv() >= 14 { 1int } else { 0 }))) as i32 } else { old(self).order.vol.basis_points_type }),
            final(self).contract == old(self).contract,
            final(self).order_state == old(self).order_state,
    {
        if self.message_version >= 14 {
            self.order.vol.basis_points = decode_f64_show_unset(&mut self.d);
            self.order.vol.basis_points_type = decode_i32_show_unset(&mut self.d);
        }
    }

    /// Reads the opt-out-of-smart-routing flag.
    pub fn read_opt_out_smart_routing(&mut self)
        requires
            old(self).wf(),
        ensures
            final(self).same_frame(old(self)),
            final(self).pos() == adv(old(self).fs(), old(self).pos(), (if old(self).mv() >= 25 { 1int } else { 0 })),
            final(self).order == (Order { routing: final(self).order.routing, ..old(self).order }),
            final(self).order.routing == (OrderRouting { opt_out_smart_routing: final(self).order.routing.opt_out_smart_routing, ..old(self).order.routing }),
            final(self).order.routing.opt_out_smart_routing == (if old(self).mv() >= 25 { fld_bool(old(self).fs(), old(self).pos()) } else { old(self).order.routing.opt_out_smart_routing }),
            final(self).contract == old(self).contract,
            final(self).order_state == old(self).order_state,
    {
        if self.message_version >= 25 {
            self.order.routing.opt_out_smart_routing = decode_bool(&mut self.d);
        }
    }

    /// Reads the clearing fields.
    pub fn read_clearing_params(&mut self)
        requires
            old(self).wf(),
        ensures
            final(self).same_frame(old(self)),
            final(self).pos() == adv(old(self).fs(), old(self).pos(), (if old(self).mv() >= 19 { 1int } else { 0 }) + (if old(self).mv() >= 19 { 1int } else { 0 })),
            final(self).order == (Order { scale: final(self).order.scale, ..old(self).order }),
            final(self).order.scale == (OrderScale { clearing_account: final(self).order.scale.clearing_account, clearing_intent: final(self).order.scale.clearing_intent, ..old(self).order.scale }),
            final(self).order.scale.clearing_account@ == (if old(self).mv() >= 19 { fld_str(old(self).fs(), old(self).pos()) } else { old(self).order.scale.clearing_account@ }),
            final(self).order.scale.clearing_intent@ == (if old(self).mv() >= 19 { fld_str(old(self).fs(), old(self).pos() + (if old(self).mv() >= 19 { 1int } else { 0 })) } else { old(self).order.scale.clearing_intent@ }),
            final(self).contract == old(self).contract,
            final(self).order_state == old(self).order_state,
    {
        if self.message_version >= 19 {
            self.order.scale.clearing_account = decode_string(&mut self.d);
            self.order.scale.clearing_intent = decode_string(&mut self.d);
        }
    }

    /// Reads the not-held flag.
    pub fn read_not_held(&mut self)
        requires
            old(self).wf(),
        ensures
            final(self).same_frame(old(self)),
            final(self).pos() == adv(old(self).fs(), old(self).pos(), (if old(self).mv() >= 22 { 1int } else { 0 })),
            final(self).order == (Order { algo: final(self).order.algo, ..old(self).order }),
            final(self).order.algo == (OrderAlgo { not_held: final(self).order.algo.not_held, ..old(self).order.algo }),
            final(self).order.algo.not_held == (if old(self).mv() >= 22 { fld_bool(old(self).fs(), old(self).pos()) } else { old(self).order.algo.not_held }),
            final(self).contract == old(self).contract,
            final(self).order_state == old(self).order_state,
    {
        if self.message_version >= 22 {
            self.order.algo.not_held = decode_bool(&mut self.d);
        }
    }

    /// Reads the solicited flag.
    pub fn read_solicited(&mut self)
        requires
            old(self).wf(),
        ensures
            final(self).same_frame(old(self)),
            final(self).pos() == adv(old(self).fs(), old(self).pos(), (if old(self).mv() >= 33 { 1int } else { 0 })),
            final(self).order == (Order { algo: final(self).order.algo, ..old(self).order }),
            final(self).order.algo == (OrderAlgo { solicited: final(self).order.algo.solicited, ..old(self).order.algo }),
            final(self).order.algo.solicited == (if old(self).mv() >= 33 { fld_bool(old(self).fs(), old(self).pos()) } else { old(self).order.algo.solicited }),
            final(self).contract == old(self).contract,
            final(self).order_state == old(self).order_state,
    {
        if self.message_version >= 33 {
            self.order.algo.solicited = decode_bool(&mut self.d);
        }
    }

    /// Reads the order status.
    pub fn read_order_status(&mut self)
        requires
            old(self).wf(),
        ensures
            final(self).same_frame(old(self)),
            final(self).pos() == adv(old(self).fs(), old(self).pos(), 1int),
            final(self).order == old(self).order,
            final(self).contract == old(self).contract,
            final(self).order_state == (OrderState { status: final(self).order_state.status, ..old(self).order_state }),
            final(self).order_state.status@ == (fld_str(old(self).fs(), old(self).pos())),
    {
        self.order_state.status = decode_string(&mut self.d);
    }

    /// Reads the randomize-size and randomize-price flags.
    pub fn read_vol_randomize_flags(&mut self)
        requires
            old(self).wf(),
        ensures
            final(self).same_frame(old(self)),
            final(self).pos() == adv(old(self).fs(), old(self).pos(), (if old(self).mv() >= 34 { 1int } else { 0 }) + (if old(self).mv() >= 34 { 1int } else { 0 })),
            final(self).order == (Order { vol: final(self).order.vol, ..old(self).order }),
            final(self).order.vol == (OrderVol { randomize_size: final(self).order.vol.randomize_size, randomize_price: final(self).order.vol.randomize_price, ..old(self).order.vol }),
            final(self).order.vol.randomize_size == (if old(self).mv() >= 34 { fld_bool(old(self).fs(), old(self).pos()) } else { old(self).order.vol.randomize_size }),
            final(self).order.vol.randomize_price == (if old(self).mv() >= 34 { fld_bool(old(self).fs(), old(self).pos() + (if old(self).mv() >= 34 { 1int } else { 0 })) } else { old(self).order.vol.randomize_price }),
            final(self).contract == old(self).contract,
            final(self).order_state == old(self).order_state,
    {
        if self.message_version >= 34 {
            self.order.vol.randomize_size = decode_bool(&mut self.d);
            self.order.vol.randomize_price = decode_bool(&mut self.d);
        }
    }

    /// Reads the pegged-to-benchmark fields, present only for that order
    /// type.
    pub fn read_peg_to_bench_params(&mut self)
        requires
            old(self).wf(),
        ensures
            final(self).same_frame(old(self)),
            final(self).pos() == adv(old(self).fs(), old(self).pos(), (if old(self).sv() >= crate::min_server_version::PEGGED_TO_BENCHMARK && old(self).order@.order_type == "PEG BENCH"@ { 1int } else { 0 }) + (if old(self).sv() >= crate::min_server_version::PEGGED_TO_BENCHMARK && old(self).order@.order_type == "PEG BENCH"@ { 1int } else { 0 }) + (if old(self).sv() >= crate::min_server_version::PEGGED_TO_BENCHMARK && old(self).order@.order_type == "PEG BENCH"@ { 1int } else { 0 }) + (if old(self).sv() >= crate::min_server_version::PEGGED_TO_BENCHMARK && old(self).order@.order_type == "PEG BENCH"@ { 1int } else { 0 }) + (if old(self).sv() >= crate::min_server_version::PEGGED_TO_BENCHMARK && old(self).order@.order_type == "PEG BENCH"@ { 1int } else { 0 })),
            final(self).order == (Order { peg: final(self).order.peg, ..old(self).order }),
            final(self).order.peg == (OrderPeg { reference_contract_id: final(self).order.peg.reference_contract_id, is_pegged_change_amount_decrease: final(self).order.peg.is_pegged_change_amount_decrease, pegged_change_amount: final(self).order.peg.pegged_change_amount, reference_change_amount: final(self).order.peg.reference_change_amount, reference_exchange: final(self).order.peg.reference_exchange, ..old(self).order.peg }),
            final(self).order.peg.reference_contract_id == (if old(self).sv() >= crate::min_server_version::PEGGED_TO_BENCHMARK && old(self).order@.order_type == "PEG BENCH"@ { fld_i32(old(self).fs(), old(self).pos()) as i32 } else { old(self).order.peg.reference_contract_id }),
            final(self).order.peg.is_pegged_change_amount_decrease == (if old(self).sv() >= crate::min_server_version::PEGGED_TO_BENCHMARK && old(self).order@.order_type == "PEG BENCH"@ { fld_bool(old(self).fs(), old(self).pos() + (if old(self).sv() >= crate::min_server_version::PEGGED_TO_BENCHMARK && old(self).order@.order_type == "PEG BENCH"@ { 1int } else { 0 })) } else { old(self).order.peg.is_pegged_change_amount_decrease }),
            final(self).order.peg.pegged_change_amount@ == (if old(self).sv() >= crate::min_server_version::PEGGED_TO_BENCHMARK && old(self).order@.order_type == "PEG BENCH"@ { dbl_field_show_unset(field_at(old(self).fs(), old(self).pos() + (if old(self).sv() >= crate::min_server_version::PEGGED_TO_BENCHMARK && old(self).order@.order_type == "PEG BENCH"@ { 1int } else { 0 }) + (if old(self).sv() >= crate::min_server_version::PEGGED_TO_BENCHMARK && old(self).order@.order_type == "PEG BENCH"@ { 1int } else { 0 }))) } else { old(self).order.peg.pegged_change_amount@ }),
            final(self).order.peg.reference_change_amount@ == (if old(self).sv() >= crate::min_server_version::PEGGED_TO_BENCHMARK && old(self).order@.order_type == "PEG BENCH"@ { dbl_field_show_unset(field_at(old(self).fs(), old(self).pos() + (if old(self).sv() >= crate::min_server_version::PEGGED_TO_BENCHMARK && old(self).order@.order_type == "PEG BENCH"@ { 1int } else { 0 }) + (if old(self).sv() >= crate::min_server_version::PEGGED_TO_BENCHMARK && old(self).order@.order_type == "PEG BENCH"@ { 1int } else { 0 }) + (if old(self).sv() >= crate::min_server_version::PEGGED_TO_BENCHMARK && old(self).order@.order_type == "PEG BENCH"@ { 1int } else { 0 }))) } else { old(self).order.peg.reference_change_amount@ }),
            final(self).order.peg.reference_exchange@ == (if old(self).sv() >= crate::min_server_version::PEGGED_TO_BENCHMARK && old(self).order@.order_type == "PEG BENCH"@ { fld_str(old(self).fs(), old(self).pos() + (if old(self).sv() >= crate::min_server_version::PEGGED_TO_BENCHMARK && old(self).order@.order_type == "PEG BENCH"@ { 1int } else { 0 }) + (if old(self).sv() >= crate::min_server_version::PEGGED_TO_BENCHMARK && old(self).order@.order_type == "PEG BENCH"@ { 1int } else { 0 }) + (if old(self).sv() >= crate::min_server_version::PEGGED_TO_BENCHMARK && old(self).order@.order_type == "PEG BENCH"@ { 1int } else { 0 }) + (if old(self).sv() >= crate::min_server_version::PEGGED_TO_BENCHMARK && old(self).order@.order_type == "PEG BENCH"@ { 1int } else { 0 })) } else { old(self).order.peg.reference_exchange@ }),
            final(self).contract == old(self).contract,
            final(self).order_state == old(self).order_state,
    {
        let is_peg_bench = str_eq_peg_bench(self.order.main.order_type.as_str());
        if self.server_version >= crate::min_server_version::PEGGED_TO_BENCHMARK && is_peg_bench {
            self.order.peg.reference_contract_id = decode_i32(&mut self.d);
            self.order.peg.is_pegged_change_amount_decrease = decode_bool(&mut self.d);
            self.order.peg.pegged_change_amount = decode_f64_show_unset(&mut self.d);
            self.order.peg.reference_change_amount = decode_f64_show_unset(&mut self.d);
            self.order.peg.reference_exchange = decode_string(&mut self.d);
        }
    }

    /// Reads the what-if flag, the resulting order state, and the
    /// commission figures.
    pub fn read_what_if_info_and_commission(&mut self)
        requires
            old(self).wf(),
        ensures
            final(self).same_frame(old(self)),
            final(self).pos() == adv(old(self).fs(), old(self).pos(), (if old(self).mv() >= 16 { 1int } else { 0 }) + (if old(self).mv() >= 16 { 1int } else { 0 }) + (if old(self).mv() >= 16 && old(self).sv() >= crate::min_server_version::WHAT_IF_EXT_FIELDS { 1int } else { 0 }) + (if old(self).mv() >= 16 && old(self).sv() >= crate::min_server_version::WHAT_IF_EXT_FIELDS { 1int } else { 0 }) + (if old(self).mv() >= 16 && old(self).sv() >= crate::min_server_version::WHAT_IF_EXT_FIELDS { 1int } else { 0 }) + (if old(self).mv() >= 16 && old(self).sv() >= crate::min_server_version::WHAT_IF_EXT_FIELDS { 1int } else { 0 }) + (if old(self).mv() >= 16 && old(self).sv() >= crate::min_server_version::WHAT_IF_EXT_FIELDS { 1int } else { 0 }) + (if old(self).mv() >= 16 && old(self).sv() >= crate::min_server_version::WHAT_IF_EXT_FIELDS { 1int } else { 0 }) + (if old(self).mv() >= 16 { 1int } else { 0 }) + (if old(self).mv() >= 16 { 1int } else { 0 }) + (if old(self).mv() >= 16 { 1int } else { 0 }) + (if old(self).mv() >= 16 { 1int } else { 0 }) + (if old(self).mv() >= 16 { 1int } else { 0 }) + (if old(self).mv() >= 16 { 1int } else { 0 }) + (if old(self).mv() >= 16 { 1int } else { 0 }) + (if old(self).mv() >= 16 { 1int } else { 0 })),
            final(self).order == (Order { algo: final(self).order.algo, ..old(self).order }),
            final(self).order.algo == (OrderAlgo { what_if: final(self).order.algo.what_if, ..old(self).order.algo }),
            final(self).order.algo.what_if == (if old(self).mv() >= 16 { fld_bool(old(self).fs(), old(self).pos()) } else { old(self).order.algo.what_if }),
            final(self).contract == old(self).contract,
            final(self).order_state == (OrderState { status: final(self).order_state.status, init_margin_before: final(self).order_state.init_margin_before, maint_margin_before: final(self).order_state.maint_margin_before, equity_with_loan_before: final(self).order_state.equity_with_loan_before, init_margin_change: final(self).order_state.init_margin_change, maint_margin_change: final(self).order_state.maint_margin_change, equity_with_loan_change: final(self).order_state.equity_with_loan_change, init_margin_after: final(self).order_state.init_margin_after, maint_margin_after: final(self).order_state.maint_margin_after, equity_with_loan_after: final(self).order_state.equity_with_loan_after, commission: final(self).order_state.commission, min_commission: final(self).order_state.min_commission, max_commission: final(self).order_state.max_commission, commission_currency: final(self).order_state.commission_currency, warning_text: final(self).order_state.warning_text, ..old(self).order_state }),
            final(self).order_state.status@ == (if old(self).mv() >= 16 { fld_str(old(self).fs(), old(self).pos() + (if old(self).mv() >= 16 { 1int } else { 0 })) } else { old(self).order_state.status@ }),
            final(self).order_state.init_margin_before@ == (if old(self).mv() >= 16 && old(self).sv() >= crate::min_server_version::WHAT_IF_EXT_FIELDS { fld_str(old(self).fs(), old(self).pos() + (if old(self).mv() >= 16 { 1int } else { 0 }) + (if old(self).mv() >= 16 { 1int } else { 0 })) } else { old(self).order_state.init_margin_before@ }),
            final(self).order_state.maint_margin_before@ == (if old(self).mv() >= 16 && old(self).sv() >= crate::min_server_version::WHAT_IF_EXT_FIELDS { fld_str(old(self).fs(), old(self).pos() + (if old(self).mv() >= 16 { 1int } else { 0 }) + (if old(self).mv() >= 16 { 1int } else { 0 }) + (if old(self).mv() >= 16 && old(self).sv() >= crate::min_server_version::WHAT_IF_EXT_FIELDS { 1int } else { 0 })) } else { old(self).order_state.maint_margin_before@ }),
            final(self).order_state.equity_with_loan_before@ == (if old(self).mv() >= 16 && old(self).sv() >= crate::min_server_version::WHAT_IF_EXT_FIELDS { fld_str(old(self).fs(), old(self).pos() + (if old(self).mv() >= 16 { 1int } else { 0 }) + (if old(self).mv() >= 16 { 1int } else { 0 }) + (if old(self).mv() >= 16 && old(self).sv() >= crate::min_server_version::WHAT_IF_EXT_FIELDS { 1int } else { 0 }) + (if old(self).mv() >= 16 && old(self).sv() >= crate::min_server_version::WHAT_IF_EXT_FIELDS { 1int } else { 0 })) } else { old(self).order_state.equity_with_loan_before@ }),
            final(self).order_state.init_margin_change@ == (if old(self).mv() >= 16 && old(self).sv() >= crate::min_server_version::WHAT_IF_EXT_FIELDS { fld_str(old(self).fs(), old(self).pos() + (if old(self).mv() >= 16 { 1int } else { 0 }) + (if old(self).mv() >= 16 { 1int } else { 0 }) + (if old(self).mv() >= 16 && old(self).sv() >= crate::min_server_version::WHAT_IF_EXT_FIELDS { 1int } else { 0 }) + (if old(self).mv() >= 16 && old(self).sv() >= crate::min_server_version::WHAT_IF_EXT_FIELDS { 1int } else { 0 }) + (if old(self).mv() >= 16 && old(self).sv() >= crate::min_server_version::WHAT_IF_EXT_FIELDS { 1int } else { 0 })) } else { old(self).order_state.init_margin_change@ }),
            final(self).order_state.maint_margin_change@ == (if old(self).mv() >= 16 && old(self).sv() >= crate::min_server_version::WHAT_IF_EXT_FIELDS { fld_str(old(self).fs(), old(self).pos() + (if old(self).mv() >= 16 { 1int } else { 0 }) + (if old(self).mv() >= 16 { 1int } else { 0 }) + (if old(self).mv() >= 16 && old(self).sv() >= crate::min_server_version::WHAT_IF_EXT_FIELDS { 1int } else { 0 }) + (if old(self).mv() >= 16 && old(self).sv() >= crate::min_server_version::WHAT_IF_EXT_FIELDS { 1int } else { 0 }) + (if old(self).mv() >= 16 && old(self).sv() >= crate::min_server_version::WHAT_IF_EXT_FIELDS { 1int } else { 0 }) + (if old(self).mv() >= 16 && old(self).sv() >= crate::min_server_version::WHAT_IF_EXT_FIELDS { 1int } else { 0 })) } else { old(self).order_state.maint_margin_change@ }),
            final(self).order_state.equity_with_loan_change@ == (if old(self).mv() >= 16 && old(self).sv() >= crate::min_server_version::WHAT_IF_EXT_FIELDS { fld_str(old(self).fs(), old(self).pos() + (if old(self).mv() >= 16 { 1int } else { 0 }) + (if old(self).mv() >= 16 { 1int } else { 0 }) + (if old(self).mv() >= 16 && old(self).sv() >= crate::min_server_version::WHAT_IF_EXT_FIELDS { 1int } else { 0 }) + (if old(self).mv() >= 16 && old(self).sv() >= crate::min_server_version::WHAT_IF_EXT_FIELDS { 1int } else { 0 }) + (if old(self).mv() >= 16 && old(self).sv() >= crate::min_server_version::WHAT_IF_EXT_FIELDS { 1int } else { 0 }) + (if old(self).mv() >= 16 && old(self).sv() >= crate::min_server_version::WHAT_IF_EXT_FIELDS { 1int } else { 0 }) + (if old(self).mv() >= 16 && old(self).sv() >= crate::min_server_version::WHAT_IF_EXT_FIELDS { 1int } else { 0 })) } else { old(self).order_state.equity_with_loan_change@ }),
            final(self).order_state.init_margin_after@ == (if old(self).mv() >= 16 { fld_str(old(self).fs(), old(self).pos() + (if old(self).mv() >= 16 { 1int } else { 0 }) + (if old(self).mv() >= 16 { 1int } else { 0 }) + (if old(self).mv() >= 16 && old(self).sv() >= crate::min_server_version::WHAT_IF_EXT_FIELDS { 1int } else { 0 }) + (if old(self).mv() >= 16 && old(self).sv() >= crate::min_server_version::WHAT_IF_EXT_FIELDS { 1int } else { 0 }) + (if old(self).mv() >= 16 && old(self).sv() >= crate::min_server_version::WHAT_IF_EXT_FIELDS { 1int } else { 0 }) + (if old(self).mv() >= 16 && old(self).sv() >= crate::min_server_version::WHAT_IF_EXT_FIELDS { 1int } else { 0 }) + (if old(self).mv() >= 16 && old(self).sv() >= crate::min_server_version::WHAT_IF_EXT_FIELDS { 1int } else { 0 }) + (if old(self).mv() >= 16 && old(self).sv() >= crate::min_server_version::WHAT_IF_EXT_FIELDS { 1int } else { 0 })) } else { old(self).order_state.init_margin_after@ }),
            final(self).order_state.maint_margin_after@ == (if old(self).mv() >= 16 { fld_str(old(self).fs(), old(self).pos() + (if old(self).mv() >= 16 { 1int } else { 0 }) + (if old(self).mv() >= 16 { 1int } else { 0 }) + (if old(self).mv() >= 16 && old(self).sv() >= crate::min_server_version::WHAT_IF_EXT_FIELDS { 1int } else { 0 }) + (if old(self).mv() >= 16 && old(self).sv() >= crate::min_server_version::WHAT_IF_EXT_FIELDS { 1int } else { 0 }) + (if old(self).mv() >= 16 && old(self).sv() >= crate::min_server_version::WHAT_IF_EXT_FIELDS { 1int } else { 0 }) + (if old(self).mv() >= 16 && old(self).sv() >= crate::min_server_version::WHAT_IF_EXT_FIELDS { 1int } else { 0 }) + (if old(self).mv() >= 16 && old(self).sv() >= crate::min_server_version::WHAT_IF_EXT_FIELDS { 1int } else { 0 }) + (if old(self).mv() >= 16 && old(self).sv() >= crate::min_server_version::WHAT_IF_EXT_FIELDS { 1int } else { 0 }) + (if old(self).mv() >= 16 { 1int } else { 0 })) } else { old(self).order_state.maint_margin_after@ }),
            final(self).order_state.equity_with_loan_after@ == (if old(self).mv() >= 16 { fld_str(old(self).fs(), old(self).pos() + (if old(self).mv() >= 16 { 1int } else { 0 }) + (if old(self).mv() >= 16 { 1int } else { 0 }) + (if old(self).mv() >= 16 && old(self).sv() >= crate::min_server_version::WHAT_IF_EXT_FIELDS { 1int } else { 0 }) + (if old(self).mv() >= 16 && old(self).sv() >= crate::min_server_version::WHAT_IF_EXT_FIELDS { 1int } else { 0 }) + (if old(self).mv() >= 16 && old(self).sv() >= crate::min_server_version::WHAT_IF_EXT_FIELDS { 1int } else { 0 }) + (if old(self).mv() >= 16 && old(self).sv() >= crate::min_server_version::WHAT_IF_EXT_FIELDS { 1int } else { 0 }) + (if old(self).mv() >= 16 && old(self).sv() >= crate::min_server_version::WHAT_IF_EXT_FIELDS { 1int } else { 0 }) + (if old(self).mv() >= 16 && old(self).sv() >= crate::min_server_version::WHAT_IF_EXT_FIELDS { 1int } else { 0 }) + (if old(self).mv() >= 16 { 1int } else { 0 }) + (if old(self).mv() >= 16 { 1int } else { 0 })) } else { old(self).order_state.equity_with_loan_after@ }),
            final(self).order_state.commission@ == (if old(self).mv() >= 16 { dbl_field_show_unset(field_at(old(self).fs(), old(self).pos() + (if old(self).mv() >= 16 { 1int } else { 0 }) + (if old(self).mv() >= 16 { 1int } else { 0 }) + (if old(self).mv() >= 16 && old(self).sv() >= crate::min_server_version::WHAT_IF_EXT_FIELDS { 1int } else { 0 }) + (if old(self).mv() >= 16 && old(self).sv() >= crate::min_server_version::WHAT_IF_EXT_FIELDS { 1int } else { 0 }) + (if old(self).mv() >= 16 && old(self).sv() >= crate::min_server_version::WHAT_IF_EXT_FIELDS { 1int } else { 0 }) + (if old(self).mv() >= 16 && old(self).sv() >= crate::min_server_version::WHAT_IF_EXT_FIELDS { 1int } else { 0 }) + (if old(self).mv() >= 16 && old(self).sv() >= crate::min_server_version::WHAT_IF_EXT_FIELDS { 1int } else { 0 }) + (if old(self).mv() >= 16 && old(self).sv() >= crate::min_server_version::WHAT_IF_EXT_FIELDS { 1int } else { 0 }) + (if old(self).mv() >= 16 { 1int } else { 0 }) + (if old(self).mv() >= 16 { 1int } else { 0 }) + (if old(self).mv() >= 16 { 1int } else { 0 }))) } else { old(self).order_state.commission@ }),
            final(self).order_state.min_commission@ == (if old(self).mv() >= 16 { dbl_field_show_unset(field_at(old(self).fs(), old(self).pos() + (if old(self).mv() >= 16 { 1int } else { 0 }) + (if old(self).mv() >= 16 { 1int } else { 0 }) + (if old(self).mv() >= 16 && old(self).sv() >= crate::min_server_version::WHAT_IF_EXT_FIELDS { 1int } else { 0 }) + (if old(self).mv() >= 16 && old(self).sv() >= crate::min_server_version::WHAT_IF_EXT_FIELDS { 1int } else { 0 }) + (if old(self).mv() >= 16 && old(self).sv() >= crate::min_server_version::WHAT_IF_EXT_FIELDS { 1int } else { 0 }) + (if old(self).mv() >= 16 && old(self).sv() >= crate::min_server_version::WHAT_IF_EXT_FIELDS { 1int } else { 0 }) + (if old(self).mv() >= 16 && old(self).sv() >= crate::min_server_version::WHAT_IF_EXT_FIELDS { 1int } else { 0 }) + (if old(self).mv() >= 16 && old(self).sv() >= crate::min_server_version::WHAT_IF_EXT_FIELDS { 1int } else { 0 }) + (if old(self).mv() >= 16 { 1int } else { 0 }) + (if old(self).mv() >= 16 { 1int } else { 0 }) + (if old(self).mv() >= 16 { 1int } else { 0 }) + (if old(self).mv() >= 16 { 1int } else { 0 }))) } else { old(self).order_state.min_commission@ }),
            final(self).order_state.max_commission@ == (if old(self).mv() >= 16 { dbl_field_show_unset(field_at(old(self).fs(), old(self).pos() + (if old(self).mv() >= 16 { 1int } else { 0 }) + (if old(self).mv() >= 16 { 1int } else { 0 }) + (if old(self).mv() >= 16 && old(self).sv() >= crate::min_server_version::WHAT_IF_EXT_FIELDS { 1int } else { 0 }) + (if old(self).mv() >= 16 && old(self).sv() >= crate::min_server_version::WHAT_IF_EXT_FIELDS { 1int } else { 0 }) + (if old(self).mv() >= 16 && old(self).sv() >= crate::min_server_version::WHAT_IF_EXT_FIELDS { 1int } else { 0 }) + (if old(self).mv() >= 16 && old(self).sv() >= crate::min_server_version::WHAT_IF_EXT_FIELDS { 1int } else { 0 }) + (if old(self).mv() >= 16 && old(self).sv() >= crate::min_server_version::WHAT_IF_EXT_FIELDS { 1int } else { 0 }) + (if old(self).mv() >= 16 && old(self).sv() >= crate::min_server_version::WHAT_IF_EXT_FIELDS { 1int } else { 0 }) + (if old(self).mv() >= 16 { 1int } else { 0 }) + (if old(self).mv() >= 16 { 1int } else { 0 }) + (if old(self).mv() >= 16 { 1int } else { 0 }) + (if old(self).mv() >= 16 { 1int } else { 0 }) + (if old(self).mv() >= 16 { 1int } else { 0 }))) } else { old(self).order_state.max_commission@ }),
            final(self).order_state.commission_currency@ == (if old(self).mv() >= 16 { fld_str(old(self).fs(), old(self).pos() + (if old(self).mv() >= 16 { 1int } else { 0 }) + (if old(self).mv() >= 16 { 1int } else { 0 }) + (if old(self).mv() >= 16 && old(self).sv() >= crate::min_server_version::WHAT_IF_EXT_FIELDS { 1int } else { 0 }) + (if old(self).mv() >= 16 && old(self).sv() >= crate::min_server_version::WHAT_IF_EXT_FIELDS { 1int } else { 0 }) + (if old(self).mv() >= 16 && old(self).sv() >= crate::min_server_version::WHAT_IF_EXT_FIELDS { 1int } else { 0 }) + (if old(self).mv() >= 16 && old(self).sv() >= crate::min_server_version::WHAT_IF_EXT_FIELDS { 1int } else { 0 }) + (if old(self).mv() >= 16 && old(self).sv() >= crate::min_server_version::WHAT_IF_EXT_FIELDS { 1int } else { 0 }) + (if old(self).mv() >= 16 && old(self).sv() >= crate::min_server_version::WHAT_IF_EXT_FIELDS { 1int } else { 0 }) + (if old(self).mv() >= 16 { 1int } else { 0 }) + (if old(self).mv() >= 16 { 1int } else { 0 }) + (if old(self).mv() >= 16 { 1int } else { 0 }) + (if old(self).mv() >= 16 { 1int } else { 0 }) + (if old(self).mv() >= 16 { 1int } else { 0 }) + (if old(self).mv() >= 16 { 1int } else { 0 })) } else { old(self).order_state.commission_currency@ }),
            final(self).order_state.warning_text@ == (if old(self).mv() >= 16 { fld_str(old(self).fs(), old(self).pos() + (if old(self).mv() >= 16 { 1int } else { 0 }) + (if old(self).mv() >= 16 { 1int } else { 0 }) + (if old(self).mv() >= 16 && old(self).sv() >= crate::min_server_version::WHAT_IF_EXT_FIELDS { 1int } else { 0 }) + (if old(self).mv() >= 16 && old(self).sv() >= crate::min_server_version::WHAT_IF_EXT_FIELDS { 1int } else { 0 }) + (if old(self).mv() >= 16 && old(self).sv() >= crate::min_server_version::WHAT_IF_EXT_FIELDS { 1int } else { 0 }) + (if old(self).mv() >= 16 && old(self).sv() >= crate::min_server_version::WHAT_IF_EXT_FIELDS { 1int } else { 0 }) + (if old(self).mv() >= 16 && old(self).sv() >= crate::min_server_version::WHAT_IF_EXT_FIELDS { 1int } else { 0 }) + (if old(self).mv() >= 16 && old(self).sv() >= crate::min_server_version::WHAT_IF_EXT_FIELDS { 1int } else { 0 }) + (if old(self).mv() >= 16 { 1int } else { 0 }) + (if old(self).mv() >= 16 { 1int } else { 0 }) + (if old(self).mv() >= 16 { 1int } else { 0 }) + (if old(self).mv() >= 16 { 1int } else { 0 }) + (if old(self).mv() >= 16 { 1int } else { 0 }) + (if old(self).mv() >= 16 { 1int } else { 0 }) + (if old(self).mv() >= 16 { 1int } else { 0 })) } else { old(self).order_state.warning_text@ }),
    {
        if self.message_version >= 16 {
            self.order.algo.what_if = decode_bool(&mut self.d);
            self.order_state.status = decode_string(&mut self.d);
        }
        if self.message_version >= 16 && self.server_version >= crate::min_server_version::WHAT_IF_EXT_FIELDS {
            self.order_state.init_margin_before = decode_string(&mut self.d);
            self.order_state.maint_margin_before = decode_string(&mut self.d);
            self.order_state.equity_with_loan_before = decode_string(&mut self.d);
            self.order_state.init_margin_change = decode_string(&mut self.d);
            self.order_state.maint_margin_change = decode_string(&mut self.d);
            self.order_state.equity_with_loan_change = decode_string(&mut self.d);
        }
        if self.message_version >= 16 {
            self.order_state.init_margin_after = decode_string(&mut self.d);
            self.order_state.maint_margin_after = decode_string(&mut self.d);
            self.order_state.equity_with_loan_after = decode_string(&mut self.d);
            self.order_state.commission = decode_f64_show_unset(&mut self.d);
            self.order_state.min_commission = decode_f64_show_unset(&mut self.d);
            self.order_state.max_commission = decode_f64_show_unset(&mut self.d);
            self.order_state.commission_currency = decode_string(&mut self.d);
            self.order_state.warning_text = decode_string(&mut self.d);
        }
    }

    /// Reads the stop price and the limit-price offset.
    pub fn read_stop_price_and_lmt_price_offset(&mut self)
        requires
            old(self).wf(),
        ensures
            final(self).same_frame(old(self)),
            final(self).pos() == adv(old(self).fs(), old(self).pos(), 1int + 1),
            final(self).order == (Order { terms: final(self).order.terms, peg: final(self).order.peg, ..old(self).order }),
            final(self).order.terms == (OrderTerms { trail_stop_price: final(self).order.terms.trail_stop_price, ..old(self).order.terms }),
            final(self).order.peg == (OrderPeg { lmt_price_offset: final(self).order.peg.lmt_price_offset, ..old(self).order.peg }),
            final(self).order.terms.trail_stop_price@ == (dbl_field_show_unset(field_at(old(self).fs(), old(self).pos()))),
            final(self).order.peg.lmt_price_offset@ == (dbl_field_show_unset(field_at(old(self).fs(), old(self).pos() + 1int))),
            final(self).contract == old(self).contract,
            final(self).order_state == old(self).order_state,
    {
        self.order.terms.trail_stop_price = decode_f64_show_unset(&mut self.d);
        self.order.peg.lmt_price_offset = decode_f64_show_unset(&mut self.d);
    }

    /// Reads the cash quantity, unset-aware.
    pub fn read_cash_qty(&mut self)
        requires
            old(self).wf(),
        ensures
            final(self).same_frame(old(self)),
            final(self).pos() == adv(old(self).fs(), old(self).pos(), (if old(self).sv() >= crate::min_server_version::CASH_QTY { 1int } else { 0 })),
            final(self).order == (Order { misc: final(self).order.misc, ..old(self).order }),
            final(self).order.misc == (OrderMisc { cash_qty: final(self).order.misc.cash_qty, ..old(self).order.misc }),
            final(self).order.misc.cash_qty@ == (if old(self).sv() >= crate::min_server_version::CASH_QTY { dbl_field_show_unset(field_at(old(self).fs(), old(self).pos())) } else { old(self).order.misc.cash_qty@ }),
            final(self).contract == old(self).contract,
            final(self).order_state == old(self).order_state,
    {
        if self.server_version >= crate::min_server_version::CASH_QTY {
            self.order.misc.cash_qty = decode_f64_show_unset(&mut self.d);
        }
    }

    /// Reads the flag disabling automatic hedge pricing.
    pub fn read_dont_use_auto_price_for_hedge(&mut self)
        requires
            old(self).wf(),
        ensures
            final(self).same_frame(old(self)),
            final(self).pos() == adv(old(self).fs(), old(self).pos(), (if old(self).sv() >= crate::min_server_version::AUTO_PRICE_FOR_HEDGE { 1int } else { 0 })),
            final(self).order == (Order { misc: final(self).order.misc, ..old(self).order }),
            final(self).order.misc == (OrderMisc { dont_use_auto_price_for_hedge: final(self).order.misc.dont_use_auto_price_for_hedge, ..old(self).order.misc }),
            final(self).order.misc.dont_use_auto_price_for_hedge == (if old(self).sv() >= crate::min_server_version::AUTO_PRICE_FOR_HEDGE { fld_bool(old(self).fs(), old(self).pos()) } else { old(self).order.misc.dont_use_auto_price_for_hedge }),
            final(self).contract == old(self).contract,
            final(self).order_state == old(self).order_state,
    {
        if self.server_version >= crate::min_server_version::AUTO_PRICE_FOR_HEDGE {
            self.order.misc.dont_use_auto_price_for_hedge = decode_bool(&mut self.d);
        }
    }

    /// Reads the order-management-container flag.
    pub fn read_is_oms_container(&mut self)
        requires
            old(self).wf(),
        ensures
            final(self).same_frame(old(self)),
            final(self).pos() == adv(old(self).fs(), old(self).pos(), (if old(self).sv() >= crate::min_server_version::ORDER_CONTAINER { 1int } else { 0 })),
            final(self).order == (Order { misc: final(self).order.misc, ..old(self).order }),
            final(self).order.misc == (OrderMisc { is_oms_container: final(self).order.misc.is_oms_container, ..old(self).order.misc }),
            final(self).order.misc.is_oms_container == (if old(self).sv() >= crate::min_server_version::ORDER_CONTAINER { fld_bool(old(self).fs(), old(self).pos()) } else { old(self).order.misc.is_oms_container }),
            final(self).contract == old(self).contract,
            final(self).order_state == old(self).order_state,
    {
        if self.server_version >= crate::min_server_version::ORDER_CONTAINER {
            self.order.misc.is_oms_container = decode_bool(&mut self.d);
        }
    }

    /// Reads the discretionary-up-to-limit flag.
    pub fn read_discretionary_up_to_limit_price(&mut self)
        requires
            old(self).wf(),
        ensures
            final(self).same_frame(old(self)),
            final(self).pos() == adv(old(self).fs(), old(self).pos(), (if old(self).sv() >= crate::min_server_version::D_PEG_ORDERS { 1int } else { 0 })),
            final(self).order == (Order { misc: final(self).order.misc, ..old(self).order }),
            final(self).order.misc == (OrderMisc { discretionary_up_to_limit_price: final(self).order.misc.discretionary_up_to_limit_price, ..old(self).order.misc }),
            final(self).order.misc.discretionary_up_to_limit_price == (if old(self).sv() >= crate::min_server_version::D_PEG_ORDERS { fld_bool(old(self).fs(), old(self).pos()) } else { old(self).order.misc.discretionary_up_to_limit_price }),
            final(self).contract == old(self).contract,
            final(self).order_state == old(self).order_state,
    {
        if self.server_version >= crate::min_server_version::D_PEG_ORDERS {
            self.order.misc.discretionary_up_to_limit_price = decode_bool(&mut self.d);
        }
    }

    /// Reads the price-management-algorithm flag.
    pub fn read_use_price_mgmt_algo(&mut self)
        requires
            old(self).wf(),
        ensures
            final(self).same_frame(old(self)),
            final(self).pos() == adv(old(self).fs(), old(self).pos(), (if old(self).sv() >= crate::min_server_version::PRICE_MGMT_ALGO { 1int } else { 0 })),
            final(self).order == (Order { misc: final(self).order.misc, ..old(self).order }),
            final(self).order.misc == (OrderMisc { use_price_mgmt_algo: final(self).order.misc.use_price_mgmt_algo, ..old(self).order.misc }),
            final(self).order.misc.use_price_mgmt_algo == (if old(self).sv() >= crate::min_server_version::PRICE_MGMT_ALGO { fld_bool(old(self).fs(), old(self).pos()) } else { old(self).order.misc.use_price_mgmt_algo }),
            final(self).contract == old(self).contract,
            final(self).order_state == old(self).order_state,
    {
        if self.server_version >= crate::min_server_version::PRICE_MGMT_ALGO {
            self.order.misc.use_price_mgmt_algo = decode_bool(&mut self.d);
        }
    }
    /// Reads the soft-dollar tier fields.
    pub fn read_soft_dollar_tier(&mut self)
        requires
            old(self).wf(),
        ensures
            final(self).same_frame(old(self)),
            final(self).pos() == adv(old(self).fs(), old(self).pos(),
                if old(self).sv() >= crate::min_server_version::SOFT_DOLLAR_TIER { 3int } else { 0 }),
            final(self).order == (Order { algo: final(self).order.algo, ..old(self).order }),
            final(self).order.algo == (OrderAlgo {
                soft_dollar_tier: final(self).order.algo.soft_dollar_tier,
                ..old(self).order.algo
            }),
            final(self).order.algo.soft_dollar_tier@ == (
                if old(self).sv() >= crate::min_server_version::SOFT_DOLLAR_TIER {
                    SoftDollarTierV {
                        name: fld_str(old(self).fs(), old(self).pos()),
                        val: fld_str(old(self).fs(), old(self).pos() + 1),
                        display_name: fld_str(old(self).fs(), old(self).pos() + 2),
                    }
                } else {
                    old(self).order.algo.soft_dollar_tier@
                }),
            final(self).contract == old(self).contract,
            final(self).order_state == old(self).order_state,
    {
        if self.server_version >= crate::min_server_version::SOFT_DOLLAR_TIER {
            let name = decode_string(&mut self.d);
            let val = decode_string(&mut self.d);
            let display_name = decode_string(&mut self.d);
            self.order.algo.soft_dollar_tier = SoftDollarTier::new(name, val, display_name);
        }
    }

    /// Reads the adjusted-order fields.
    pub fn read_adjusted_order_params(&mut self)
        requires
            old(self).wf(),
        ensures
            final(self).same_frame(old(self)),
            final(self).pos() == adv(old(self).fs(), old(self).pos(),
                if old(self).sv() >= crate::min_server_version::PEGGED_TO_BENCHMARK { 8int } else { 0 }),
            final(self).order == (Order {
                peg: final(self).order.peg,
                terms: final(self).order.terms,
                ..old(self).order
            }),
            final(self).order.peg == (OrderPeg {
                adjusted_order_type: final(self).order.peg.adjusted_order_type,
                trigger_price: final(self).order.peg.trigger_price,
                lmt_price_offset: final(self).order.peg.lmt_price_offset,
                adjusted_stop_price: final(self).order.peg.adjusted_stop_price,
                adjusted_stop_limit_price: final(self).order.peg.adjusted_stop_limit_price,
                adjusted_trailing_amount: final(self).order.peg.adjusted_trailing_amount,
                adjustable_trailing_unit: final(self).order.peg.adjustable_trailing_unit,
                ..old(self).order.peg
            }),
            final(self).order.terms == (OrderTerms {
                trail_stop_price: final(self).order.terms.trail_stop_price,
                ..old(self).order.terms
            }),
            final(self).order.peg.adjusted_order_type@ == (if old(self).sv() >= crate::min_server_version::PEGGED_TO_BENCHMARK { fld_str(old(self).fs(), old(self).pos()) } else { old(self).order.peg.adjusted_order_type@ }),
            final(self).order.peg.trigger_price@ == (if old(self).sv() >= crate::min_server_version::PEGGED_TO_BENCHMARK { dbl_field_show_unset(field_at(old(self).fs(), old(self).pos() + 1)) } else { old(self).order.peg.trigger_price@ }),
            final(self).order.terms.trail_stop_price@ == (if old(self).sv() >= crate::min_server_version::PEGGED_TO_BENCHMARK { dbl_field_show_unset(field_at(old(self).fs(), old(self).pos() + 2)) } else { old(self).order.terms.trail_stop_price@ }),
            final(self).order.peg.lmt_price_offset@ == (if old(self).sv() >= crate::min_server_version::PEGGED_TO_BENCHMARK { dbl_field_show_unset(field_at(old(self).fs(), old(self).pos() + 3)) } else { old(self).order.peg.lmt_price_offset@ }),
            final(self).order.peg.adjusted_stop_price@ == (if old(self).sv() >= crate::min_server_version::PEGGED_TO_BENCHMARK { dbl_field_show_unset(field_at(old(self).fs(), old(self).pos() + 4)) } else { old(self).order.peg.adjusted_stop_price@ }),
            final(self).order.peg.adjusted_stop_limit_price@ == (if old(self).sv() >= crate::min_server_version::PEGGED_TO_BENCHMARK { dbl_field_show_unset(field_at(old(self).fs(), old(self).pos() + 5)) } else { old(self).order.peg.adjusted_stop_limit_price@ }),
            final(self).order.peg.adjusted_trailing_amount@ == (if old(self).sv() >= crate::min_server_version::PEGGED_TO_BENCHMARK { dbl_field_show_unset(field_at(old(self).fs(), old(self).pos() + 6)) } else { old(self).order.peg.adjusted_trailing_amount@ }),
            final(self).order.peg.adjustable_trailing_unit == (if old(self).sv() >= crate::min_server_version::PEGGED_TO_BENCHMARK { fld_i32(old(self).fs(), old(self).pos() + 7) as i32 } else { old(self).order.peg.adjustable_trailing_unit }),
            final(self).contract == old(self).contract,
            final(self).order_state == old(self).order_state,
    {
        if self.server_version >= crate::min_server_version::PEGGED_TO_BENCHMARK {
            self.order.peg.adjusted_order_type = decode_string(&mut self.d);
            self.order.peg.trigger_price = decode_f64_show_unset(&mut self.d);
            self.read_stop_price_and_lmt_price_offset();
            self.order.peg.adjusted_stop_price = decode_f64_show_unset(&mut self.d);
            self.order.peg.adjusted_stop_limit_price = decode_f64_show_unset(&mut self.d);
            self.order.peg.adjusted_trailing_amount = decode_f64_show_unset(&mut self.d);
            self.order.peg.adjustable_trailing_unit = decode_i32(&mut self.d);
        }
    }

    /// Reads the hedge fields: the hedge kind, and its parameter only when
    /// a kind is set.
    pub fn read_hedge_params(&mut self)
        requires
            old(self).wf(),
        ensures
            final(self).same_frame(old(self)),
            final(self).pos() == adv(old(self).fs(), old(self).pos(),
                if old(self).mv() >= 24 {
                    1int + (if fld_str(old(self).fs(), old(self).pos()).len() > 0 { 1int } else { 0 })
                } else {
                    0
                }),
            final(self).order == (Order { scale: final(self).order.scale, ..old(self).order }),
            final(self).order.scale == (OrderScale {
                hedge_type: final(self).order.scale.hedge_type,
                hedge_param: final(self).order.scale.hedge_param,
                ..old(self).order.scale
            }),
            final(self).order.scale.hedge_type@ == (if old(self).mv() >= 24 { fld_str(old(self).fs(), old(self).pos()) } else { old(self).order.scale.hedge_type@ }),
            final(self).order.scale.hedge_param@ == (
                if old(self).mv() >= 24 && fld_str(old(self).fs(), old(self).pos()).len() > 0 {
                    fld_str(old(self).fs(), old(self).pos() + 1)
                } else {
                    old(self).order.scale.hedge_param@
                }),
            final(self).contract == old(self).contract,
            final(self).order_state == old(self).order_state,
    {
        if self.message_version >= 24 {
            self.order.scale.hedge_type = decode_string(&mut self.d);
            if !self.order.scale.hedge_type.as_str().is_empty() {
                self.order.scale.hedge_param = decode_string(&mut self.d);
            }
        }
    }

    /// Reads the delta-neutral underlying, present only when its flag is
    /// set.
    pub fn read_delta_neutral(&mut self)
        requires
            old(self).wf(),
        ensures
            final(self).same_frame(old(self)),
            final(self).pos() == adv(old(self).fs(), old(self).pos(),
                if old(self).mv() >= 20 {
                    1int + (if fld_bool(old(self).fs(), old(self).pos()) { 3int } else { 0 })
                } else {
                    0
                }),
            final(self).order == old(self).order,
            final(self).contract == (Contract {
                delta_neutral_contract: final(self).contract.delta_neutral_contract,
                ..old(self).contract
            }),
            final(self).contract@.delta_neutral_contract == (
                if old(self).mv() >= 20 && fld_bool(old(self).fs(), old(self).pos()) {
                    Some(DeltaNeutralContractV {
                        con_id: fld_i32(old(self).fs(), old(self).pos() + 1) as i32,
                        delta: fld_dbl(old(self).fs(), old(self).pos() + 2),
                        price: fld_dbl(old(self).fs(), old(self).pos() + 3),
                    })
                } else {
                    old(self).contract@.delta_neutral_contract
                }),
            final(self).order_state == old(self).order_state,
    {
        if self.message_version >= 20 {
            if decode_bool(&mut self.d) {
                let con_id = decode_i32(&mut self.d);
                let delta = decode_f64(&mut self.d);
                let price = decode_f64(&mut self.d);
                self.contract.delta_neutral_contract = Some(DeltaNeutralContract::new(
                    con_id,
                    delta,
                    price,
                ));
            }
        }
    }

    /// Reads the scale-order fields; the adjust block is present only when
    /// a positive price increment was read.
    pub fn read_scale_order_params(&mut self)
        requires
            old(self).wf(),
        ensures
            final(self).same_frame(old(self)),
            final(self).pos() == adv(old(self).fs(), old(self).pos(),
                (if old(self).mv() >= 15 { 3int } else { 0 })
                + (if old(self).mv() >= 28 && dbl_is_positive(dbl_field_show_unset(field_at(
                    old(self).fs(), old(self).pos() + 2))) { 7int } else { 0 })),
            final(self).order == (Order { scale: final(self).order.scale, ..old(self).order }),
            final(self).order.scale == (OrderScale {
                scale_init_level_size: final(self).order.scale.scale_init_level_size,
                scale_subs_level_size: final(self).order.scale.scale_subs_level_size,
                scale_price_increment: final(self).order.scale.scale_price_increment,
                scale_price_adjust_value: final(self).order.scale.scale_price_adjust_value,
                scale_price_adjust_interval: final(self).order.scale.scale_price_adjust_interval,
                scale_profit_offset: final(self).order.scale.scale_profit_offset,
                scale_auto_reset: final(self).order.scale.scale_auto_reset,
                scale_init_position: final(self).order.scale.scale_init_position,
                scale_init_fill_qty: final(self).order.scale.scale_init_fill_qty,
                scale_random_percent: final(self).order.scale.scale_random_percent,
                ..old(self).order.scale
            }),
            final(self).order.scale.scale_init_level_size == (
                if old(self).mv() >= 20 {
                    i32_show_unset_value(field_at(old(self).fs(), old(self).pos())) as i32
                } else if old(self).mv() >= 15 {
                    i32_show_unset_value(field_at(old(self).fs(), old(self).pos() + 1)) as i32
                } else {
                    old(self).order.scale.scale_init_level_size
                }),
            final(self).order.scale.scale_subs_level_size == (
                if old(self).mv() >= 20 {
                    i32_show_unset_value(field_at(old(self).fs(), old(self).pos() + 1)) as i32
                } else {
                    old(self).order.scale.scale_subs_level_size
                }),
            final(self).order.scale.scale_price_increment@ == (
                if old(self).mv() >= 15 {
                    dbl_field_show_unset(field_at(old(self).fs(), old(self).pos() + 2))
                } else {
                    old(self).order.scale.scale_price_increment@
                }),
            final(self).order.scale.scale_price_adjust_value@ == (
                if scale_adjust_present(old(self).fs(), old(self).pos(), old(self).mv()) {
                    dbl_field_show_unset(field_at(old(self).fs(), old(self).pos() + 3))
                } else {
                    old(self).order.scale.scale_price_adjust_value@
                }),
            final(self).order.scale.scale_price_adjust_interval == (
                if scale_adjust_present(old(self).fs(), old(self).pos(), old(self).mv()) {
                    i32_show_unset_value(field_at(old(self).fs(), old(self).pos() + 4)) as i32
                } else {
                    old(self).order.scale.scale_price_adjust_interval
                }),
            final(self).order.scale.scale_profit_offset@ == (
                if scale_adjust_present(old(self).fs(), old(self).pos(), old(self).mv()) {
                    dbl_field_show_unset(field_at(old(self).fs(), old(self).pos() + 5))
                } else {
                    old(self).order.scale.scale_profit_offset@
                }),
            final(self).order.scale.scale_auto_reset == (
                if scale_adjust_present(old(self).fs(), old(self).pos(), old(self).mv()) {
                    fld_bool(old(self).fs(), old(self).pos() + 6)
                } else {
                    old(self).order.scale.scale_auto_reset
                }),
            final(self).order.scale.scale_init_position == (
                if scale_adjust_present(old(self).fs(), old(self).pos(), old(self).mv()) {
                    i32_show_unset_value(field_at(old(self).fs(), old(self).pos() + 7)) as i32
                } else {
                    old(self).order.scale.scale_init_position
                }),
            final(self).order.scale.scale_init_fill_qty == (
                if scale_adjust_present(old(self).fs(), old(self).pos(), old(self).mv()) {
                    i32_show_unset_value(field_at(old(self).fs(), old(self).pos() + 8)) as i32
                } else {
                    old(self).order.scale.scale_init_fill_qty
                }),
            final(self).order.scale.scale_random_percent == (
                if scale_adjust_present(old(self).fs(), old(self).pos(), old(self).mv()) {
                    fld_bool(old(self).fs(), old(self).pos() + 9)
                } else {
                    old(self).order.scale.scale_random_percent
                }),
            final(self).contract == old(self).contract,
            final(self).order_state == old(self).order_state,
    {
        if self.message_version >= 15 {
            if self.message_version >= 20 {
                self.order.scale.scale_init_level_size = decode_i32_show_unset(&mut self.d);
                self.order.scale.scale_subs_level_size = decode_i32_show_unset(&mut self.d);
            } else {
                decode_i32_show_unset(&mut self.d);
                self.order.scale.scale_init_level_size = decode_i32_show_unset(&mut self.d);
            }
            self.order.scale.scale_price_increment = decode_f64_show_unset(&mut self.d);
        }
        if self.message_version >= 28 && self.order.scale.scale_price_increment.is_positive() {
            self.order.scale.scale_price_adjust_value = decode_f64_show_unset(&mut self.d);
            self.order.scale.scale_price_adjust_interval = decode_i32_show_unset(&mut self.d);
            self.order.scale.scale_profit_offset = decode_f64_show_unset(&mut self.d);
            self.order.scale.scale_auto_reset = decode_bool(&mut self.d);
            self.order.scale.scale_init_position = decode_i32_show_unset(&mut self.d);
            self.order.scale.scale_init_fill_qty = decode_i32_show_unset(&mut self.d);
            self.order.scale.scale_random_percent = decode_bool(&mut self.d);
        }
    }

    /// Reads the routing-parameter pairs of a smart combo order.
    pub fn read_smart_combo_routing_params(&mut self)
        requires
            old(self).wf(),
        ensures
            final(self).same_frame(old(self)),
            final(self).pos() == (if old(self).mv() >= 26 {
                cpos(old(self).fs(), capped_end(old(self).fs().len() as int,
                    old(self).pos() + 1, fld_i32(old(self).fs(), old(self).pos()), 2))
            } else {
                old(self).pos()
            }),
            final(self).order == (Order { algo: final(self).order.algo, ..old(self).order }),
            final(self).order.algo == (OrderAlgo {
                smart_combo_routing_params: final(self).order.algo.smart_combo_routing_params,
                ..old(self).order.algo
            }),
            final(self).order.algo.smart_combo_routing_params@.map_values(|t: TagValue| t@)
                == (if old(self).mv() >= 26 {
                    old(self).order.algo.smart_combo_routing_params@.map_values(|t: TagValue| t@)
                        + tag_pairs(old(self).fs(), old(self).pos() + 1,
                            fld_i32(old(self).fs(), old(self).pos()))
                } else {
                    old(self).order.algo.smart_combo_routing_params@.map_values(
                        |t: TagValue| t@)
                }),
            final(self).contract == old(self).contract,
            final(self).order_state == old(self).order_state,
    {
        proof {
            broadcast use lemma_cpos_step;
        }
        if self.message_version >= 26 {
            let ghost fs = self.fs();
            let ghost p = self.pos();
            let ghost start = self.order.algo.smart_combo_routing_params@.map_values(
                |t: TagValue| t@);
            let n = decode_i32(&mut self.d);
            let mut j: i32 = 0;
            while j < n && self.d.remaining() > 0
                invariant
                    self.d.wf(),
                    self.d.fields_view() == fs,
                    self.order.main == old(self).order.main,
                    self.order.terms == old(self).order.terms,
                    self.order.routing == old(self).order.routing,
                    self.order.vol == old(self).order.vol,
                    self.order.scale == old(self).order.scale,
                    self.order.peg == old(self).order.peg,
                    self.order.misc == old(self).order.misc,
                    self.order.algo == (OrderAlgo {
                        smart_combo_routing_params: self.order.algo.smart_combo_routing_params,
                        ..old(self).order.algo
                    }),
                    self.contract == old(self).contract,
                    self.order_state == old(self).order_state,
                    self.message_version == old(self).message_version,
                    self.server_version == old(self).server_version,
                    0 <= j,
                    n >= 0 ==> j <= n,
                    n < 0 ==> j == 0,
                    n as int == fld_i32(fs, p),
                    p >= 0,
                    self.d.pos_view() == cpos(fs, p + 1 + 2 * j),
                    start + tag_pairs(fs, p + 1, n as int)
                        =~= self.order.algo.smart_combo_routing_params@.map_values(
                            |t: TagValue| t@)
                            + tag_pairs(fs, p + 1 + 2 * j, n - j),
                    capped_end(fs.len() as int, p + 1, n as int, 2)
                        == capped_end(fs.len() as int, p + 1 + 2 * j, n - j, 2),
                ensures
                    tag_pairs(fs, p + 1 + 2 * j, n - j) =~= Seq::<TagValueV>::empty(),
                    self.d.pos_view() == cpos(fs, capped_end(fs.len() as int, p + 1, n as int,
                        2)),
                decreases n - j,
            {
                let ghost b = p + 1 + 2 * j as int;
                let tag = decode_string(&mut self.d);
                let value = decode_string(&mut self.d);
                let ghost before = self.order.algo.smart_combo_routing_params@.map_values(
                    |t: TagValue| t@);
                let tv = TagValue::new(tag, value);
                proof {
                    assert(tv@ =~~= (TagValueV { tag: fld_str(fs, b), value: fld_str(fs, b + 1) }));
                }
                self.order.algo.smart_combo_routing_params.push(tv);
                j = j + 1;
                proof {
                    assert(self.order.algo.smart_combo_routing_params@.map_values(
                        |t: TagValue| t@) =~= before.push(tv@));
                    assert(before + (seq![tv@] + tag_pairs(fs, b + 2, n - j))
                        =~= self.order.algo.smart_combo_routing_params@.map_values(
                            |t: TagValue| t@) + tag_pairs(fs, b + 2, n - j));
                }
            }
            proof {
                assert(start + tag_pairs(fs, p + 1, n as int)
                    =~= self.order.algo.smart_combo_routing_params@.map_values(
                        |t: TagValue| t@));
            }
        }
    }

    /// Reads the algorithm strategy and, when one is set, its parameter
    /// pairs.
    pub fn read_algo_params(&mut self)
        requires
            old(self).wf(),
        ensures
            final(self).same_frame(old(self)),
            final(self).pos() == (if old(self).mv() >= 21 {
                if fld_str(old(self).fs(), old(self).pos()).len() > 0 {
                    cpos(old(self).fs(), capped_end(old(self).fs().len() as int,
                        old(self).pos() + 2, fld_i32(old(self).fs(), old(self).pos() + 1), 2))
                } else {
                    adv(old(self).fs(), old(self).pos(), 1)
                }
            } else {
                old(self).pos()
            }),
            final(self).order == (Order { algo: final(self).order.algo, ..old(self).order }),
            final(self).order.algo == (OrderAlgo {
                algo_strategy: final(self).order.algo.algo_strategy,
                algo_params: final(self).order.algo.algo_params,
                ..old(self).order.algo
            }),
            final(self).order.algo.algo_strategy@ == (if old(self).mv() >= 21 {
                fld_str(old(self).fs(), old(self).pos())
            } else {
                old(self).order.algo.algo_strategy@
            }),
            final(self).order.algo.algo_params@.map_values(|t: TagValue| t@)
                == (if old(self).mv() >= 21 && fld_str(old(self).fs(), old(self).pos()).len()
                    > 0 {
                    old(self).order.algo.algo_params@.map_values(|t: TagValue| t@)
                        + tag_pairs(old(self).fs(), old(self).pos() + 2,
                            fld_i32(old(self).fs(), old(self).pos() + 1))
                } else {
                    old(self).order.algo.algo_params@.map_values(|t: TagValue| t@)
                }),
            final(self).contract == old(self).contract,
            final(self).order_state == old(self).order_state,
    {
        proof {
            broadcast use lemma_cpos_step;
        }
        if self.message_version >= 21 {
            let ghost fs = self.fs();
            let ghost p = self.pos();
            let ghost start = self.order.algo.algo_params@.map_values(|t: TagValue| t@);
            self.order.algo.algo_strategy = decode_string(&mut self.d);
            if !self.order.algo.algo_strategy.as_str().is_empty() {
                let n = decode_i32(&mut self.d);
                let mut j: i32 = 0;
                while j < n && self.d.remaining() > 0
                    invariant
                        self.d.wf(),
                        self.d.fields_view() == fs,
                        self.order.main == old(self).order.main,
                        self.order.terms == old(self).order.terms,
                        self.order.routing == old(self).order.routing,
                        self.order.vol == old(self).order.vol,
                        self.order.scale == old(self).order.scale,
                        self.order.peg == old(self).order.peg,
                        self.order.misc == old(self).order.misc,
                        self.order.algo == (OrderAlgo {
                            algo_strategy: self.order.algo.algo_strategy,
                            algo_params: self.order.algo.algo_params,
                            ..old(self).order.algo
                        }),
                        self.order.algo.algo_strategy@ == fld_str(fs, p),
                        self.contract == old(self).contract,
                        self.order_state == old(self).order_state,
                        self.message_version == old(self).message_version,
                        self.server_version == old(self).server_version,
                        0 <= j,
                        n >= 0 ==> j <= n,
                        n < 0 ==> j == 0,
                        n as int == fld_i32(fs, p + 1),
                        p >= 0,
                        self.d.pos_view() == cpos(fs, p + 2 + 2 * j),
                        start + tag_pairs(fs, p + 2, n as int)
                            =~= self.order.algo.algo_params@.map_values(|t: TagValue| t@)
                                + tag_pairs(fs, p + 2 + 2 * j, n - j),
                        capped_end(fs.len() as int, p + 2, n as int, 2)
                            == capped_end(fs.len() as int, p + 2 + 2 * j, n - j, 2),
                    ensures
                        tag_pairs(fs, p + 2 + 2 * j, n - j) =~= Seq::<TagValueV>::empty(),
                        self.d.pos_view() == cpos(fs, capped_end(fs.len() as int, p + 2,
                            n as int, 2)),
                    decreases n - j,
                {
                    let ghost b = p + 2 + 2 * j as int;
                    let tag = decode_string(&mut self.d);
                    let value = decode_string(&mut self.d);
                    let ghost before = self.order.algo.algo_params@.map_values(
                        |t: TagValue| t@);
                    let tv = TagValue::new(tag, value);
                    proof {
                        assert(tv@ =~~= (TagValueV {
                            tag: fld_str(fs, b),
                            value: fld_str(fs, b + 1),
                        }));
                    }
                    self.order.algo.algo_params.push(tv);
                    j = j + 1;
                    proof {
                        assert(self.order.algo.algo_params@.map_values(|t: TagValue| t@)
                            =~= before.push(tv@));
                        assert(before + (seq![tv@] + tag_pairs(fs, b + 2, n - j))
                            =~= self.order.algo.algo_params@.map_values(|t: TagValue| t@)
                                + tag_pairs(fs, b + 2, n - j));
                    }
                }
                proof {
                    assert(start + tag_pairs(fs, p + 2, n as int)
                        =~= self.order.algo.algo_params@.map_values(|t: TagValue| t@));
                }
            }
        }
    }

    /// Reads the combo-leg description, the contract combo legs and the
    /// per-leg order prices.
    pub fn read_combo_legs(&mut self)
        requires
            old(self).wf(),
        ensures
            final(self).same_frame(old(self)),
            final(self).pos() == (if old(self).mv() >= 29 {
                cpos(old(self).fs(), cl_e2(old(self).fs(), old(self).pos(), old(self).mv()))
            } else {
                adv(old(self).fs(), old(self).pos(), if old(self).mv() >= 14 { 1int } else { 0 })
            }),
            final(self).order == (Order { algo: final(self).order.algo, ..old(self).order }),
            final(self).order.algo == (OrderAlgo {
                order_combo_legs: final(self).order.algo.order_combo_legs,
                ..old(self).order.algo
            }),
            final(self).order.algo.order_combo_legs@.map_values(|t: OrderComboLeg| t@)
                == (if old(self).mv() >= 29 {
                    old(self).order.algo.order_combo_legs@.map_values(|t: OrderComboLeg| t@)
                        + order_leg_items(old(self).fs(),
                            cl_e1(old(self).fs(), old(self).pos(), old(self).mv()) + 1,
                            fld_i32(old(self).fs(),
                                cl_e1(old(self).fs(), old(self).pos(), old(self).mv())))
                } else {
                    old(self).order.algo.order_combo_legs@.map_values(|t: OrderComboLeg| t@)
                }),
            final(self).contract == (Contract {
                combo_legs_descrip: final(self).contract.combo_legs_descrip,
                combo_legs: final(self).contract.combo_legs,
                ..old(self).contract
            }),
            final(self).contract.combo_legs_descrip@ == (if old(self).mv() >= 14 {
                fld_str(old(self).fs(), old(self).pos())
            } else {
                old(self).contract.combo_legs_descrip@
            }),
            final(self).contract.combo_legs@.map_values(|t: ComboLeg| t@)
                == (if old(self).mv() >= 29 {
                    old(self).contract.combo_legs@.map_values(|t: ComboLeg| t@)
                        + combo_leg_items(old(self).fs(),
                            cl_p1(old(self).pos(), old(self).mv()) + 1,
                            fld_i32(old(self).fs(), cl_p1(old(self).pos(), old(self).mv())))
                } else {
                    old(self).contract.combo_legs@.map_values(|t: ComboLeg| t@)
                }),
            final(self).order_state == old(self).order_state,
    {
        proof {
            broadcast use lemma_cpos_step;
        }
        let ghost fs = self.fs();
        let ghost p0 = self.pos();
        if self.message_version >= 14 {
            self.contract.combo_legs_descrip = decode_string(&mut self.d);
        }
        if self.message_version >= 29 {
            let ghost p1 = cl_p1(p0, self.mv());
            let ghost cstart = self.contract.combo_legs@.map_values(|t: ComboLeg| t@);
            let n1 = decode_i32(&mut self.d);
            let mut j: i32 = 0;
            while j < n1 && self.d.remaining() > 0
                invariant
                    self.d.wf(),
                    self.d.fields_view() == fs,
                    self.order == old(self).order,
                    self.contract == (Contract {
                        combo_legs_descrip: self.contract.combo_legs_descrip,
                        combo_legs: self.contract.combo_legs,
                        ..old(self).contract
                    }),
                    self.contract.combo_legs_descrip@ == (if old(self).mv() >= 14 {
                        fld_str(fs, p0)
                    } else {
                        old(self).contract.combo_legs_descrip@
                    }),
                    self.order_state == old(self).order_state,
                    self.message_version == old(self).message_version,
                    self.server_version == old(self).server_version,
                    0 <= j,
                    n1 >= 0 ==> j <= n1,
                    n1 < 0 ==> j == 0,
                    n1 as int == fld_i32(fs, p1),
                    p1 >= 0,
                    self.d.pos_view() == cpos(fs, p1 + 1 + 8 * j),
                    cstart + combo_leg_items(fs, p1 + 1, n1 as int)
                        =~= self.contract.combo_legs@.map_values(|t: ComboLeg| t@)
                            + combo_leg_items(fs, p1 + 1 + 8 * j, n1 - j),
                    capped_end(fs.len() as int, p1 + 1, n1 as int, 8)
                        == capped_end(fs.len() as int, p1 + 1 + 8 * j, n1 - j, 8),
                ensures
                    combo_leg_items(fs, p1 + 1 + 8 * j, n1 - j) =~= Seq::<ComboLegV>::empty(),
                    self.d.pos_view() == cpos(fs, capped_end(fs.len() as int, p1 + 1,
                        n1 as int, 8)),
                decreases n1 - j,
            {
                let ghost b = p1 + 1 + 8 * j as int;
                let con_id = decode_i32(&mut self.d);
                let ratio = decode_i32(&mut self.d);
                let action = decode_string(&mut self.d);
                let exchange = decode_string(&mut self.d);
                let open_close = PositionType::from_code(decode_i32(&mut self.d));
                let short_sale_slot = decode_i32(&mut self.d);
                let designated_location = decode_string(&mut self.d);
                let exempt_code = decode_i32(&mut self.d);
                let ghost before = self.contract.combo_legs@.map_values(|t: ComboLeg| t@);
                let leg = ComboLeg::new(con_id, ratio, action, exchange, open_close,
                    short_sale_slot, designated_location, exempt_code);
                proof {
                    assert(leg@ =~~= combo_leg_at(fs, b));
                }
                self.contract.combo_legs.push(leg);
                j = j + 1;
                proof {
                    assert(self.contract.combo_legs@.map_values(|t: ComboLeg| t@)
                        =~= before.push(leg@));
                    assert(before + (seq![combo_leg_at(fs, b)]
                        + combo_leg_items(fs, b + 8, n1 - j))
                        =~= self.contract.combo_legs@.map_values(|t: ComboLeg| t@)
                            + combo_leg_items(fs, b + 8, n1 - j));
                }
            }
            proof {
                assert(cstart + combo_leg_items(fs, p1 + 1, n1 as int)
                    =~= self.contract.combo_legs@.map_values(|t: ComboLeg| t@));
            }
            let ghost e1 = cl_e1(fs, p0, self.mv());
            proof {
                lemma_capped_end_ge(fs.len() as int, p1 + 1, n1 as int, 8);
                assert(self.d.pos_view() == cpos(fs, e1));
            }
            let ghost ostart = self.order.algo.order_combo_legs@.map_values(
                |t: OrderComboLeg| t@);
            let n2 = decode_i32(&mut self.d);
            let mut k: i32 = 0;
            while k < n2 && self.d.remaining() > 0
                invariant
                    self.d.wf(),
                    self.d.fields_view() == fs,
                    self.order.main == old(self).order.main,
                    self.order.terms == old(self).order.terms,
                    self.order.routing == old(self).order.routing,
                    self.order.vol == old(self).order.vol,
                    self.order.scale == old(self).order.scale,
                    self.order.peg == old(self).order.peg,
                    self.order.misc == old(self).order.misc,
                    self.order.algo == (OrderAlgo {
                        order_combo_legs: self.order.algo.order_combo_legs,
                        ..old(self).order.algo
                    }),
                    self.contract == (Contract {
                        combo_legs_descrip: self.contract.combo_legs_descrip,
                        combo_legs: self.contract.combo_legs,
                        ..old(self).contract
                    }),
                    self.contract.combo_legs_descrip@ == (if old(self).mv() >= 14 {
                        fld_str(fs, p0)
                    } else {
                        old(self).contract.combo_legs_descrip@
                    }),
                    cstart + combo_leg_items(fs, p1 + 1, n1 as int)
                        =~= self.contract.combo_legs@.map_values(|t: ComboLeg| t@),
                    self.order_state == old(self).order_state,
                    self.message_version == old(self).message_version,
                    self.server_version == old(self).server_version,
                    0 <= k,
                    n2 >= 0 ==> k <= n2,
                    n2 < 0 ==> k == 0,
                    n2 as int == fld_i32(fs, e1),
                    e1 >= 0,
                    e1 == cl_e1(fs, p0, old(self).mv()),
                    p1 == cl_p1(p0, old(self).mv()),
                    n1 as int == fld_i32(fs, p1),
                    self.d.pos_view() == cpos(fs, e1 + 1 + k),
                    ostart + order_leg_items(fs, e1 + 1, n2 as int)
                        =~= self.order.algo.order_combo_legs@.map_values(
                            |t: OrderComboLeg| t@)
                            + order_leg_items(fs, e1 + 1 + k, n2 - k),
                    capped_end(fs.len() as int, e1 + 1, n2 as int, 1)
                        == capped_end(fs.len() as int, e1 + 1 + k, n2 - k, 1),
                ensures
                    order_leg_items(fs, e1 + 1 + k, n2 - k) =~= Seq::<OrderComboLegV>::empty(),
                    self.d.pos_view() == cpos(fs, capped_end(fs.len() as int, e1 + 1,
                        n2 as int, 1)),
                decreases n2 - k,
            {
                let ghost b = e1 + 1 + k as int;
                let price = decode_f64_show_unset(&mut self.d);
                let ghost before = self.order.algo.order_combo_legs@.map_values(
                    |t: OrderComboLeg| t@);
                let leg = OrderComboLeg::new(price);
                proof {
                    assert(leg@ =~~= (OrderComboLegV {
                        price: dbl_field_show_unset(field_at(fs, b)),
                    }));
                }
                self.order.algo.order_combo_legs.push(leg);
                k = k + 1;
                proof {
                    assert(self.order.algo.order_combo_legs@.map_values(
                        |t: OrderComboLeg| t@) =~= before.push(leg@));
                    assert(before + (seq![leg@] + order_leg_items(fs, b + 1, n2 - k))
                        =~= self.order.algo.order_combo_legs@.map_values(
                            |t: OrderComboLeg| t@) + order_leg_items(fs, b + 1, n2 - k));
                }
            }
            proof {
                assert(ostart + order_leg_items(fs, e1 + 1, n2 as int)
                    =~= self.order.algo.order_combo_legs@.map_values(|t: OrderComboLeg| t@));
            }
        }
    }

    /// Reads the order conditions: a count, then each condition behind its
    /// kind code, then the shared condition flags.
    pub fn read_conditions(&mut self)
        requires
            old(self).wf(),
        ensures
            final(self).same_frame(old(self)),
            final(self).pos() == (if old(self).sv()
                >= crate::min_server_version::PEGGED_TO_BENCHMARK {
                if fld_i32(old(self).fs(), old(self).pos()) > 0 {
                    adv(old(self).fs(), cpos(old(self).fs(),
                        cond_items_end(old(self).fs(), old(self).pos() + 1,
                            fld_i32(old(self).fs(), old(self).pos()))), 2)
                } else {
                    adv(old(self).fs(), old(self).pos(), 1)
                }
            } else {
                old(self).pos()
            }),
            final(self).order == (Order { peg: final(self).order.peg, ..old(self).order }),
            final(self).order.peg == (OrderPeg {
                conditions: final(self).order.peg.conditions,
                conditions_ignore_rth: final(self).order.peg.conditions_ignore_rth,
                conditions_cancel_order: final(self).order.peg.conditions_cancel_order,
                ..old(self).order.peg
            }),
            final(self).order.peg.conditions@.map_values(|t: OrderConditionEnum| t@)
                == (if old(self).sv() >= crate::min_server_version::PEGGED_TO_BENCHMARK {
                    old(self).order.peg.conditions@.map_values(|t: OrderConditionEnum| t@)
                        + cond_items(old(self).fs(), old(self).pos() + 1,
                            fld_i32(old(self).fs(), old(self).pos()))
                } else {
                    old(self).order.peg.conditions@.map_values(|t: OrderConditionEnum| t@)
                }),
            final(self).order.peg.conditions_ignore_rth == (
                if old(self).sv() >= crate::min_server_version::PEGGED_TO_BENCHMARK
                    && fld_i32(old(self).fs(), old(self).pos()) > 0 {
                    fld_bool(old(self).fs(), cond_items_end(old(self).fs(),
                        old(self).pos() + 1, fld_i32(old(self).fs(), old(self).pos())))
                } else {
                    old(self).order.peg.conditions_ignore_rth
                }),
            final(self).order.peg.conditions_cancel_order == (
                if old(self).sv() >= crate::min_server_version::PEGGED_TO_BENCHMARK
                    && fld_i32(old(self).fs(), old(self).pos()) > 0 {
                    fld_bool(old(self).fs(), cond_items_end(old(self).fs(),
                        old(self).pos() + 1, fld_i32(old(self).fs(), old(self).pos())) + 1)
                } else {
                    old(self).order.peg.conditions_cancel_order
                }),
            final(self).contract == old(self).contract,
            final(self).order_state == old(self).order_state,
    {
        proof {
            broadcast use lemma_cpos_step;
            broadcast use lemma_cpos_adv;
        }
        if self.server_version >= crate::min_server_version::PEGGED_TO_BENCHMARK {
            let ghost fs = self.fs();
            let ghost p = self.pos();
            let ghost start = self.order.peg.conditions@.map_values(
                |t: OrderConditionEnum| t@);
            let n_conditions = decode_i32(&mut self.d);
            if n_conditions > 0 {
                let mut j: i32 = 0;
                let ghost mut b = p + 1;
                while j < n_conditions && self.d.remaining() > 0
                    invariant
                        self.d.wf(),
                        self.d.fields_view() == fs,
                        self.order.main == old(self).order.main,
                        self.order.terms == old(self).order.terms,
                        self.order.routing == old(self).order.routing,
                        self.order.vol == old(self).order.vol,
                        self.order.scale == old(self).order.scale,
                        self.order.algo == old(self).order.algo,
                        self.order.misc == old(self).order.misc,
                        self.order.peg == (OrderPeg {
                            conditions: self.order.peg.conditions,
                            ..old(self).order.peg
                        }),
                        self.contract == old(self).contract,
                        self.order_state == old(self).order_state,
                        self.message_version == old(self).message_version,
                        self.server_version == old(self).server_version,
                        0 <= j <= n_conditions,
                        n_conditions as int == fld_i32(fs, p),
                        p >= 0,
                        b >= p + 1,
                        self.d.pos_view() == cpos(fs, b),
                        start + cond_items(fs, p + 1, n_conditions as int)
                            =~= self.order.peg.conditions@.map_values(
                                |t: OrderConditionEnum| t@)
                                + cond_items(fs, b, n_conditions - j),
                        cond_items_end(fs, p + 1, n_conditions as int)
                            == cond_items_end(fs, b, n_conditions - j),
                    ensures
                        cond_items(fs, b, n_conditions - j) =~= Seq::<CondV>::empty(),
                        self.d.pos_view() == cpos(fs, cond_items_end(fs, p + 1,
                            n_conditions as int)),
                    decreases n_conditions - j,
                {
                    let condition_num = decode_i32(&mut self.d);
                    let cond = OrderConditionEnum::deserialize(condition_num, &mut self.d);
                    let ghost before = self.order.peg.conditions@.map_values(
                        |t: OrderConditionEnum| t@);
                    proof {
                        assert(cond@ == cond_of_fields(fld_i32(fs, b) as i32, fs, b + 1));
                    }
                    self.order.peg.conditions.push(cond);
                    j = j + 1;
                    proof {
                        let c = cond_of_fields(fld_i32(fs, b) as i32, fs, b + 1);
                        assert(self.order.peg.conditions@.map_values(
                            |t: OrderConditionEnum| t@) =~= before.push(cond@));
                        assert(before + (seq![c]
                            + cond_items(fs, b + 1 + cond_fields(c).len(), n_conditions - j))
                            =~= self.order.peg.conditions@.map_values(
                                |t: OrderConditionEnum| t@)
                                + cond_items(fs, b + 1 + cond_fields(c).len(),
                                    n_conditions - j));
                        b = b + 1 + cond_fields(c).len();
                    }
                }
                proof {
                    assert(start + cond_items(fs, p + 1, n_conditions as int)
                        =~= self.order.peg.conditions@.map_values(
                            |t: OrderConditionEnum| t@));
                }
                self.order.peg.conditions_ignore_rth = decode_bool(&mut self.d);
                self.order.peg.conditions_cancel_order = decode_bool(&mut self.d);
            }
        }
    }


    /// Reads the delta-neutral attributes of a volatility order, present
    /// only when a delta-neutral order type has been read.
    fn read_delta_neutral_attribs(&mut self, read_open_order_attribs: bool)
        requires
            old(self).wf(),
        ensures
            final(self).same_frame(old(self)),
            final(self).pos() == adv(old(self).fs(), old(self).pos(),
                dn_k1(old(self).order.vol.delta_neutral_order_type@.len() > 0, old(self).mv(),
                    read_open_order_attribs)
                + dn_k2(old(self).order.vol.delta_neutral_order_type@.len() > 0,
                    old(self).mv(), read_open_order_attribs)),
            final(self).order == (Order { vol: final(self).order.vol, ..old(self).order }),
            final(self).order.vol == (OrderVol {
                delta_neutral_con_id: final(self).order.vol.delta_neutral_con_id,
                delta_neutral_settling_firm: final(self).order.vol.delta_neutral_settling_firm,
                delta_neutral_clearing_account: final(self).order.vol.delta_neutral_clearing_account,
                delta_neutral_clearing_intent: final(self).order.vol.delta_neutral_clearing_intent,
                delta_neutral_open_close: final(self).order.vol.delta_neutral_open_close,
                delta_neutral_short_sale: final(self).order.vol.delta_neutral_short_sale,
                delta_neutral_short_sale_slot: final(self).order.vol.delta_neutral_short_sale_slot,
                delta_neutral_designated_location: final(self).order.vol.delta_neutral_designated_location,
                ..old(self).order.vol
            }),
            final(self).order.vol.delta_neutral_con_id == (
                if old(self).mv() >= 27 && old(self).order.vol.delta_neutral_order_type@.len()
                    > 0 {
                    fld_i32(old(self).fs(), old(self).pos()) as i32
                } else {
                    old(self).order.vol.delta_neutral_con_id
                }),
            final(self).order.vol.delta_neutral_settling_firm@ == (
                if old(self).mv() >= 27 && old(self).order.vol.delta_neutral_order_type@.len()
                    > 0 && read_open_order_attribs {
                    fld_str(old(self).fs(), old(self).pos() + 1)
                } else {
                    old(self).order.vol.delta_neutral_settling_firm@
                }),
            final(self).order.vol.delta_neutral_clearing_account@ == (
                if old(self).mv() >= 27 && old(self).order.vol.delta_neutral_order_type@.len()
                    > 0 && read_open_order_attribs {
                    fld_str(old(self).fs(), old(self).pos() + 2)
                } else {
                    old(self).order.vol.delta_neutral_clearing_account@
                }),
            final(self).order.vol.delta_neutral_clearing_intent@ == (
                if old(self).mv() >= 27 && old(self).order.vol.delta_neutral_order_type@.len()
                    > 0 && read_open_order_attribs {
                    fld_str(old(self).fs(), old(self).pos() + 3)
                } else {
                    old(self).order.vol.delta_neutral_clearing_intent@
                }),
            final(self).order.vol.delta_neutral_open_close@ == (
                if old(self).mv() >= 31 && old(self).order.vol.delta_neutral_order_type@.len()
                    > 0 && read_open_order_attribs {
                    fld_str(old(self).fs(), old(self).pos()
                        + dn_k1(true, old(self).mv(), read_open_order_attribs))
                } else {
                    old(self).order.vol.delta_neutral_open_close@
                }),
            final(self).order.vol.delta_neutral_short_sale == (
                if old(self).mv() >= 31 && old(self).order.vol.delta_neutral_order_type@.len()
                    > 0 {
                    fld_bool(old(self).fs(), old(self).pos()
                        + dn_k1(true, old(self).mv(), read_open_order_attribs)
                        + (if read_open_order_attribs { 1int } else { 0 }))
                } else {
                    old(self).order.vol.delta_neutral_short_sale
                }),
            final(self).order.vol.delta_neutral_short_sale_slot == (
                if old(self).mv() >= 31 && old(self).order.vol.delta_neutral_order_type@.len()
                    > 0 {
                    fld_i32(old(self).fs(), old(self).pos()
                        + dn_k1(true, old(self).mv(), read_open_order_attribs)
                        + (if read_open_order_attribs { 1int } else { 0 }) + 1) as i32
                } else {
                    old(self).order.vol.delta_neutral_short_sale_slot
                }),
            final(self).order.vol.delta_neutral_designated_location@ == (
                if old(self).mv() >= 31 && old(self).order.vol.delta_neutral_order_type@.len()
                    > 0 {
                    fld_str(old(self).fs(), old(self).pos()
                        + dn_k1(true, old(self).mv(), read_open_order_attribs)
                        + (if read_open_order_attribs { 1int } else { 0 }) + 2)
                } else {
                    old(self).order.vol.delta_neutral_designated_location@
                }),
            final(self).contract == old(self).contract,
            final(self).order_state == old(self).order_state,
    {
        let ne = !self.order.vol.delta_neutral_order_type.as_str().is_empty();
        if self.message_version >= 27 && ne {
            self.order.vol.delta_neutral_con_id = decode_i32(&mut self.d);
            if read_open_order_attribs {
                self.order.vol.delta_neutral_settling_firm = decode_string(&mut self.d);
                self.order.vol.delta_neutral_clearing_account = decode_string(&mut self.d);
                self.order.vol.delta_neutral_clearing_intent = decode_string(&mut self.d);
            }
        }
        if self.message_version >= 31 && ne {
            if read_open_order_attribs {
                self.order.vol.delta_neutral_open_close = decode_string(&mut self.d);
            }
            self.order.vol.delta_neutral_short_sale = decode_bool(&mut self.d);
            self.order.vol.delta_neutral_short_sale_slot = decode_i32(&mut self.d);
            self.order.vol.delta_neutral_designated_location = decode_string(&mut self.d);
        }
    }

    /// Reads the volatility-order fields: the volatility itself, the
    /// delta-neutral block (gated on a non-empty delta-neutral order
    /// type), and the reference price. The open-order form also carries
    /// the delta-neutral clearing and open-close attributes.
    #[verifier::rlimit(100)]
    #[verifier::spinoff_prover]
    pub fn read_vol_order_params(&mut self, read_open_order_attribs: bool)
        requires
            old(self).wf(),
        ensures
            final(self).same_frame(old(self)),
            final(self).pos() == adv(old(self).fs(), old(self).pos(),
                vol_width(old(self).fs(), old(self).pos(), old(self).mv(), old(self).sv(),
                    read_open_order_attribs)),
            final(self).order == (Order {
                vol: final(self).order.vol,
                routing: final(self).order.routing,
                ..old(self).order
            }),
            final(self).order.vol == (OrderVol {
                volatility: final(self).order.vol.volatility,
                volatility_type: final(self).order.vol.volatility_type,
                delta_neutral_order_type: final(self).order.vol.delta_neutral_order_type,
                delta_neutral_aux_price: final(self).order.vol.delta_neutral_aux_price,
                delta_neutral_con_id: final(self).order.vol.delta_neutral_con_id,
                delta_neutral_settling_firm: final(self).order.vol.delta_neutral_settling_firm,
                delta_neutral_clearing_account: final(self).order.vol.delta_neutral_clearing_account,
                delta_neutral_clearing_intent: final(self).order.vol.delta_neutral_clearing_intent,
                delta_neutral_open_close: final(self).order.vol.delta_neutral_open_close,
                delta_neutral_short_sale: final(self).order.vol.delta_neutral_short_sale,
                delta_neutral_short_sale_slot: final(self).order.vol.delta_neutral_short_sale_slot,
                delta_neutral_designated_location: final(self).order.vol.delta_neutral_designated_location,
                continuous_update: final(self).order.vol.continuous_update,
                reference_price_type: final(self).order.vol.reference_price_type,
                ..old(self).order.vol
            }),
            final(self).order.routing == (OrderRouting {
                stock_range_lower: final(self).order.routing.stock_range_lower,
                stock_range_upper: final(self).order.routing.stock_range_upper,
                ..old(self).order.routing
            }),
            final(self).order.vol.volatility@ == (if old(self).mv() >= 11 {
                dbl_field_show_unset(field_at(old(self).fs(), old(self).pos()))
            } else {
                old(self).order.vol.volatility@
            }),
            final(self).order.vol.volatility_type == (if old(self).mv() >= 11 {
                fld_i32(old(self).fs(), old(self).pos() + 1) as i32
            } else {
                old(self).order.vol.volatility_type
            }),
            final(self).order.vol.delta_neutral_order_type@ == (if old(self).mv() >= 11 {
                vol_dn_ot(old(self).fs(), old(self).pos(), old(self).mv())
            } else {
                old(self).order.vol.delta_neutral_order_type@
            }),
            final(self).order.vol.delta_neutral_aux_price@ == (if old(self).mv() >= 12 {
                dbl_field_show_unset(field_at(old(self).fs(), old(self).pos() + 3))
            } else {
                old(self).order.vol.delta_neutral_aux_price@
            }),
            final(self).order.vol.delta_neutral_con_id == (if old(self).mv() >= 27
                && vol_ne(old(self).fs(), old(self).pos()) {
                fld_i32(old(self).fs(), old(self).pos() + 4) as i32
            } else {
                old(self).order.vol.delta_neutral_con_id
            }),
            final(self).order.vol.delta_neutral_settling_firm@ == (if old(self).mv() >= 27
                && vol_ne(old(self).fs(), old(self).pos()) && read_open_order_attribs {
                fld_str(old(self).fs(), old(self).pos() + 5)
            } else {
                old(self).order.vol.delta_neutral_settling_firm@
            }),
            final(self).order.vol.delta_neutral_clearing_account@ == (if old(self).mv() >= 27
                && vol_ne(old(self).fs(), old(self).pos()) && read_open_order_attribs {
                fld_str(old(self).fs(), old(self).pos() + 6)
            } else {
                old(self).order.vol.delta_neutral_clearing_account@
            }),
            final(self).order.vol.delta_neutral_clearing_intent@ == (if old(self).mv() >= 27
                && vol_ne(old(self).fs(), old(self).pos()) && read_open_order_attribs {
                fld_str(old(self).fs(), old(self).pos() + 7)
            } else {
                old(self).order.vol.delta_neutral_clearing_intent@
            }),
            final(self).order.vol.delta_neutral_open_close@ == (if old(self).mv() >= 31
                && vol_ne(old(self).fs(), old(self).pos()) && read_open_order_attribs {
                fld_str(old(self).fs(), vol_b5(old(self).fs(), old(self).pos(), old(self).mv(),
                    read_open_order_attribs))
            } else {
                old(self).order.vol.delta_neutral_open_close@
            }),
            final(self).order.vol.delta_neutral_short_sale == (if old(self).mv() >= 31
                && vol_ne(old(self).fs(), old(self).pos()) {
                fld_bool(old(self).fs(), vol_b5(old(self).fs(), old(self).pos(),
                    old(self).mv(), read_open_order_attribs)
                    + (if read_open_order_attribs { 1int } else { 0 }))
            } else {
                old(self).order.vol.delta_neutral_short_sale
            }),
            final(self).order.vol.delta_neutral_short_sale_slot == (if old(self).mv() >= 31
                && vol_ne(old(self).fs(), old(self).pos()) {
                fld_i32(old(self).fs(), vol_b5(old(self).fs(), old(self).pos(), old(self).mv(),
                    read_open_order_attribs)
                    + (if read_open_order_attribs { 1int } else { 0 }) + 1) as i32
            } else {
                old(self).order.vol.delta_neutral_short_sale_slot
            }),
            final(self).order.vol.delta_neutral_designated_location@ == (if old(self).mv()
                >= 31 && vol_ne(old(self).fs(), old(self).pos()) {
                fld_str(old(self).fs(), vol_b5(old(self).fs(), old(self).pos(), old(self).mv(),
                    read_open_order_attribs)
                    + (if read_open_order_attribs { 1int } else { 0 }) + 2)
            } else {
                old(self).order.vol.delta_neutral_designated_location@
            }),
            final(self).order.vol.continuous_update == (if old(self).mv() >= 11 {
                fld_i32(old(self).fs(), vol_b6(old(self).fs(), old(self).pos(), old(self).mv(),
                    read_open_order_attribs)) as i32
            } else {
                old(self).order.vol.continuous_update
            }),
            final(self).order.routing.stock_range_lower@ == (if old(self).mv() >= 11
                && old(self).sv() == 26 {
                fld_dbl(old(self).fs(), vol_b6(old(self).fs(), old(self).pos(), old(self).mv(),
                    read_open_order_attribs) + 1)
            } else {
                old(self).order.routing.stock_range_lower@
            }),
            final(self).order.routing.stock_range_upper@ == (if old(self).mv() >= 11
                && old(self).sv() == 26 {
                fld_dbl(old(self).fs(), vol_b6(old(self).fs(), old(self).pos(), old(self).mv(),
                    read_open_order_attribs) + 2)
            } else {
                old(self).order.routing.stock_range_upper@
            }),
            final(self).order.vol.reference_price_type == (if old(self).mv() >= 11 {
                fld_i32(old(self).fs(), vol_b6(old(self).fs(), old(self).pos(), old(self).mv(),
                    read_open_order_attribs) + 1
                    + (if old(self).sv() == 26 { 2int } else { 0 })) as i32
            } else {
                old(self).order.vol.reference_price_type
            }),
            final(self).contract == old(self).contract,
            final(self).order_state == old(self).order_state,
    {
        if self.message_version >= 11 {
            let ghost fs = self.fs();
            let ghost p = self.pos();
            let ghost rooa = read_open_order_attribs;
            self.order.vol.volatility = decode_f64_show_unset(&mut self.d);
            self.order.vol.volatility_type = decode_i32(&mut self.d);
            if self.message_version == 11 {
                let received_int = decode_i32(&mut self.d);
                self.order.vol.delta_neutral_order_type = if received_int == 0 {
                    String::from_str("NONE")
                } else {
                    String::from_str("MKT")
                };
                proof {
                    reveal_strlit("NONE");
                    reveal_strlit("MKT");
                }
            } else {
                self.order.vol.delta_neutral_order_type = decode_string(&mut self.d);
                self.order.vol.delta_neutral_aux_price = decode_f64_show_unset(&mut self.d);
                let ne = !self.order.vol.delta_neutral_order_type.as_str().is_empty();
                proof {
                    assert(ne == vol_ne(fs, p));
                    assert(self.d.pos_view() == adv(fs, p, 4));
                }
                self.read_delta_neutral_attribs(read_open_order_attribs);
                proof {
                    assert(self.d.pos_view() == adv(fs, p, vol_b5(fs, p, self.mv(), rooa)
                        + dn_k2(vol_ne(fs, p), self.mv(), rooa) - p));
                }
            }
            let ghost b6 = vol_b6(fs, p, self.mv(), rooa);
            self.order.vol.continuous_update = decode_i32(&mut self.d);
            proof {
                assert(self.order.vol.continuous_update == fld_i32(fs, b6) as i32);
            }
            if self.server_version == 26 {
                self.order.routing.stock_range_lower = decode_f64(&mut self.d);
                self.order.routing.stock_range_upper = decode_f64(&mut self.d);
                proof {
                    assert(self.order.routing.stock_range_lower@ == fld_dbl(fs, b6 + 1));
                    assert(self.order.routing.stock_range_upper@ == fld_dbl(fs, b6 + 2));
                }
            }
            self.order.vol.reference_price_type = decode_i32(&mut self.d);
            proof {
                assert(self.order.vol.reference_price_type == fld_i32(fs, b6 + 1
                    + (if self.sv() == 26 { 2int } else { 0 })) as i32);
            }
            proof {
                assert(self.d.pos_view() == adv(fs, p, vol_width(fs, p, self.mv(), self.sv(),
                    rooa)));
            }
        }
    }

}

/// Whether the text names the pegged-to-benchmark order type.
fn str_eq_peg_bench(s: &str) -> (r: bool)
    ensures
        r == (s@ == "PEG BENCH"@),
{
    let a = s.to_owned();
    let b = String::from_str("PEG BENCH");
    a.eq(&b)
}


/// Where the order schema starts in an open-order frame: past the message
/// code, and past the legacy message version where the server predates
/// the order-container era.
pub open spec fn oo_base(sv: int) -> int {
    if sv < crate::min_server_version::ORDER_CONTAINER {
        2
    } else {
        1
    }
}

/// The message version an open-order frame decodes under.
pub open spec fn oo_mv(fs: Seq<Seq<char>>, sv: int) -> int {
    if sv < crate::min_server_version::ORDER_CONTAINER {
        fld_i32(fs, 1)
    } else {
        sv
    }
}


} // verus!
