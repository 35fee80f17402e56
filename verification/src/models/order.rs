//! The order record: a plain aggregate populated field by field by the
//! order decoder, and read field by field by the order encoder. The many
//! fields stand in sub-records by topic; the mathematical value `OrderV`
//! is one flat record over all of them.

use vstd::prelude::*;
use crate::double::Double;
use crate::models::tag_value::{TagValue, TagValueV};
use crate::models::order_combo_leg::{OrderComboLeg, OrderComboLegV};
use crate::models::soft_dollar_tier::{SoftDollarTier, SoftDollarTierV};
use crate::models::conditions::{OrderConditionEnum, CondV};
use crate::enums::origin::Origin;

verus! {

/// The order's identity, action, prices and routing basics.
#[derive(Debug)]
pub struct OrderMain {
    pub order_id: i32,
    pub client_id: i32,
    pub perm_id: i32,
    pub action: String,
    pub total_quantity: Double,
    pub order_type: String,
    pub lmt_price: Double,
    pub aux_price: Double,
    pub tif: String,
    pub oca_group: String,
    pub oca_type: i32,
    pub account: String,
    pub open_close: String,
    pub origin: Origin,
    pub order_ref: String,
    pub transmit: bool,
    pub parent_id: i32,
}

/// The order's display, validity and trailing terms.
#[derive(Debug)]
pub struct OrderTerms {
    pub block_order: bool,
    pub sweep_to_fill: bool,
    pub display_size: i32,
    pub trigger_method: i32,
    pub outside_rth: bool,
    pub hidden: bool,
    pub good_after_time: String,
    pub good_till_date: String,
    pub rule80a: String,
    pub all_or_none: bool,
    pub min_qty: i32,
    pub percent_offset: Double,
    pub override_percentage_constraints: bool,
    pub trail_stop_price: Double,
    pub trailing_percent: Double,
    pub active_start_time: String,
    pub active_stop_time: String,
}

/// The order's adviser, short-sale and box-order fields.
#[derive(Debug)]
pub struct OrderRouting {
    pub fa_group: String,
    pub fa_profile: String,
    pub fa_method: String,
    pub fa_percentage: String,
    pub designated_location: String,
    pub short_sale_slot: i32,
    pub exempt_code: i32,
    pub discretionary_amt: Double,
    pub e_trade_only: bool,
    pub firm_quote_only: bool,
    pub nbbo_price_cap: Double,
    pub opt_out_smart_routing: bool,
    pub auction_strategy: i32,
    pub starting_price: Double,
    pub stock_ref_price: Double,
    pub delta: Double,
    pub stock_range_lower: Double,
    pub stock_range_upper: Double,
}

/// The order's volatility and delta-neutral fields.
#[derive(Debug)]
pub struct OrderVol {
    pub randomize_price: bool,
    pub randomize_size: bool,
    pub volatility: Double,
    pub volatility_type: i32,
    pub delta_neutral_order_type: String,
    pub delta_neutral_aux_price: Double,
    pub delta_neutral_con_id: i32,
    pub delta_neutral_settling_firm: String,
    pub delta_neutral_clearing_account: String,
    pub delta_neutral_clearing_intent: String,
    pub delta_neutral_open_close: String,
    pub delta_neutral_short_sale: bool,
    pub delta_neutral_short_sale_slot: i32,
    pub delta_neutral_designated_location: String,
    pub continuous_update: i32,
    pub reference_price_type: i32,
    pub basis_points: Double,
    pub basis_points_type: i32,
}

/// The order's scale, hedge and clearing fields.
#[derive(Debug)]
pub struct OrderScale {
    pub scale_init_level_size: i32,
    pub scale_subs_level_size: i32,
    pub scale_price_increment: Double,
    pub scale_price_adjust_value: Double,
    pub scale_price_adjust_interval: i32,
    pub scale_profit_offset: Double,
    pub scale_auto_reset: bool,
    pub scale_init_position: i32,
    pub scale_init_fill_qty: i32,
    pub scale_random_percent: bool,
    pub scale_table: String,
    pub hedge_type: String,
    pub hedge_param: String,
    pub settling_firm: String,
    pub clearing_account: String,
    pub clearing_intent: String,
}

/// The order's algorithm, combo and what-if fields.
#[derive(Debug)]
pub struct OrderAlgo {
    pub algo_strategy: String,
    pub algo_params: Vec<TagValue>,
    pub smart_combo_routing_params: Vec<TagValue>,
    pub algo_id: String,
    pub what_if: bool,
    pub not_held: bool,
    pub solicited: bool,
    pub model_code: String,
    pub order_combo_legs: Vec<OrderComboLeg>,
    pub order_misc_options: Vec<TagValue>,
    pub soft_dollar_tier: SoftDollarTier,
}

/// The order's pegged-to-benchmark, adjusted and condition fields.
#[derive(Debug)]
pub struct OrderPeg {
    pub reference_contract_id: i32,
    pub pegged_change_amount: Double,
    pub is_pegged_change_amount_decrease: bool,
    pub reference_change_amount: Double,
    pub reference_exchange: String,
    pub adjusted_order_type: String,
    pub trigger_price: Double,
    pub adjusted_stop_price: Double,
    pub adjusted_stop_limit_price: Double,
    pub adjusted_trailing_amount: Double,
    pub adjustable_trailing_unit: i32,
    pub lmt_price_offset: Double,
    pub conditions: Vec<OrderConditionEnum>,
    pub conditions_cancel_order: bool,
    pub conditions_ignore_rth: bool,
}

/// The order's regulatory and remaining fields.
#[derive(Debug)]
pub struct OrderMisc {
    pub ext_operator: String,
    pub cash_qty: Double,
    pub mifid2decision_maker: String,
    pub mifid2decision_algo: String,
    pub mifid2execution_trader: String,
    pub mifid2execution_algo: String,
    pub dont_use_auto_price_for_hedge: bool,
    pub is_oms_container: bool,
    pub discretionary_up_to_limit_price: bool,
    pub auto_cancel_date: String,
    pub filled_quantity: Double,
    pub ref_futures_con_id: i32,
    pub auto_cancel_parent: bool,
    pub shareholder: String,
    pub imbalance_only: bool,
    pub route_marketable_to_bbo: bool,
    pub parent_perm_id: i64,
    pub use_price_mgmt_algo: bool,
}

#[derive(Debug)]
pub struct Order {
    pub main: OrderMain,
    pub terms: OrderTerms,
    pub routing: OrderRouting,
    pub vol: OrderVol,
    pub scale: OrderScale,
    pub algo: OrderAlgo,
    pub peg: OrderPeg,
    pub misc: OrderMisc,
}

/// The mathematical value of an order: every field as its wire text,
/// number or flag value.
#[verifier::ext_equal]
pub struct OrderV {
    pub order_id: i32,
    pub client_id: i32,
    pub perm_id: i32,
    pub action: Seq<char>,
    pub total_quantity: Option<Seq<char>>,
    pub order_type: Seq<char>,
    pub lmt_price: Option<Seq<char>>,
    pub aux_price: Option<Seq<char>>,
    pub tif: Seq<char>,
    pub oca_group: Seq<char>,
    pub oca_type: i32,
    pub account: Seq<char>,
    pub open_close: Seq<char>,
    pub origin: Origin,
    pub order_ref: Seq<char>,
    pub transmit: bool,
    pub parent_id: i32,
    pub block_order: bool,
    pub sweep_to_fill: bool,
    pub display_size: i32,
    pub trigger_method: i32,
    pub outside_rth: bool,
    pub hidden: bool,
    pub good_after_time: Seq<char>,
    pub good_till_date: Seq<char>,
    pub rule80a: Seq<char>,
    pub all_or_none: bool,
    pub min_qty: i32,
    pub percent_offset: Option<Seq<char>>,
    pub override_percentage_constraints: bool,
    pub trail_stop_price: Option<Seq<char>>,
    pub trailing_percent: Option<Seq<char>>,
    pub active_start_time: Seq<char>,
    pub active_stop_time: Seq<char>,
    pub fa_group: Seq<char>,
    pub fa_profile: Seq<char>,
    pub fa_method: Seq<char>,
    pub fa_percentage: Seq<char>,
    pub designated_location: Seq<char>,
    pub short_sale_slot: i32,
    pub exempt_code: i32,
    pub discretionary_amt: Option<Seq<char>>,
    pub e_trade_only: bool,
    pub firm_quote_only: bool,
    pub nbbo_price_cap: Option<Seq<char>>,
    pub opt_out_smart_routing: bool,
    pub auction_strategy: i32,
    pub starting_price: Option<Seq<char>>,
    pub stock_ref_price: Option<Seq<char>>,
    pub delta: Option<Seq<char>>,
    pub stock_range_lower: Option<Seq<char>>,
    pub stock_range_upper: Option<Seq<char>>,
    pub randomize_price: bool,
    pub randomize_size: bool,
    pub volatility: Option<Seq<char>>,
    pub volatility_type: i32,
    pub delta_neutral_order_type: Seq<char>,
    pub delta_neutral_aux_price: Option<Seq<char>>,
    pub delta_neutral_con_id: i32,
    pub delta_neutral_settling_firm: Seq<char>,
    pub delta_neutral_clearing_account: Seq<char>,
    pub delta_neutral_clearing_intent: Seq<char>,
    pub delta_neutral_open_close: Seq<char>,
    pub delta_neutral_short_sale: bool,
    pub delta_neutral_short_sale_slot: i32,
    pub delta_neutral_designated_location: Seq<char>,
    pub continuous_update: i32,
    pub reference_price_type: i32,
    pub basis_points: Option<Seq<char>>,
    pub basis_points_type: i32,
    pub scale_init_level_size: i32,
    pub scale_subs_level_size: i32,
    pub scale_price_increment: Option<Seq<char>>,
    pub scale_price_adjust_value: Option<Seq<char>>,
    pub scale_price_adjust_interval: i32,
    pub scale_profit_offset: Option<Seq<char>>,
    pub scale_auto_reset: bool,
    pub scale_init_position: i32,
    pub scale_init_fill_qty: i32,
    pub scale_random_percent: bool,
    pub scale_table: Seq<char>,
    pub hedge_type: Seq<char>,
    pub hedge_param: Seq<char>,
    pub settling_firm: Seq<char>,
    pub clearing_account: Seq<char>,
    pub clearing_intent: Seq<char>,
    pub algo_strategy: Seq<char>,
    pub algo_params: Seq<TagValueV>,
    pub smart_combo_routing_params: Seq<TagValueV>,
    pub algo_id: Seq<char>,
    pub what_if: bool,
    pub not_held: bool,
    pub solicited: bool,
    pub model_code: Seq<char>,
    pub order_combo_legs: Seq<OrderComboLegV>,
    pub order_misc_options: Seq<TagValueV>,
    pub soft_dollar_tier: SoftDollarTierV,
    pub reference_contract_id: i32,
    pub pegged_change_amount: Option<Seq<char>>,
    pub is_pegged_change_amount_decrease: bool,
    pub reference_change_amount: Option<Seq<char>>,
    pub reference_exchange: Seq<char>,
    pub adjusted_order_type: Seq<char>,
    pub trigger_price: Option<Seq<char>>,
    pub adjusted_stop_price: Option<Seq<char>>,
    pub adjusted_stop_limit_price: Option<Seq<char>>,
    pub adjusted_trailing_amount: Option<Seq<char>>,
    pub adjustable_trailing_unit: i32,
    pub lmt_price_offset: Option<Seq<char>>,
    pub conditions: Seq<CondV>,
    pub conditions_cancel_order: bool,
    pub conditions_ignore_rth: bool,
    pub ext_operator: Seq<char>,
    pub cash_qty: Option<Seq<char>>,
    pub mifid2decision_maker: Seq<char>,
    pub mifid2decision_algo: Seq<char>,
    pub mifid2execution_trader: Seq<char>,
    pub mifid2execution_algo: Seq<char>,
    pub dont_use_auto_price_for_hedge: bool,
    pub is_oms_container: bool,
    pub discretionary_up_to_limit_price: bool,
    pub auto_cancel_date: Seq<char>,
    pub filled_quantity: Option<Seq<char>>,
    pub ref_futures_con_id: i32,
    pub auto_cancel_parent: bool,
    pub shareholder: Seq<char>,
    pub imbalance_only: bool,
    pub route_marketable_to_bbo: bool,
    pub parent_perm_id: i64,
    pub use_price_mgmt_algo: bool,
}

impl View for Order {
    type V = OrderV;

    open spec fn view(&self) -> OrderV {
        OrderV {
            order_id: self.main.order_id,
            client_id: self.main.client_id,
            perm_id: self.main.perm_id,
            action: self.main.action@,
            total_quantity: self.main.total_quantity@,
            order_type: self.main.order_type@,
            lmt_price: self.main.lmt_price@,
            aux_price: self.main.aux_price@,
            tif: self.main.tif@,
            oca_group: self.main.oca_group@,
            oca_type: self.main.oca_type,
            account: self.main.account@,
            open_close: self.main.open_close@,
            origin: self.main.origin,
            order_ref: self.main.order_ref@,
            transmit: self.main.transmit,
            parent_id: self.main.parent_id,
            block_order: self.terms.block_order,
            sweep_to_fill: self.terms.sweep_to_fill,
            display_size: self.terms.display_size,
            trigger_method: self.terms.trigger_method,
            outside_rth: self.terms.outside_rth,
            hidden: self.terms.hidden,
            good_after_time: self.terms.good_after_time@,
            good_till_date: self.terms.good_till_date@,
            rule80a: self.terms.rule80a@,
            all_or_none: self.terms.all_or_none,
            min_qty: self.terms.min_qty,
            percent_offset: self.terms.percent_offset@,
            override_percentage_constraints: self.terms.override_percentage_constraints,
            trail_stop_price: self.terms.trail_stop_price@,
            trailing_percent: self.terms.trailing_percent@,
            active_start_time: self.terms.active_start_time@,
            active_stop_time: self.terms.active_stop_time@,
            fa_group: self.routing.fa_group@,
            fa_profile: self.routing.fa_profile@,
            fa_method: self.routing.fa_method@,
            fa_percentage: self.routing.fa_percentage@,
            designated_location: self.routing.designated_location@,
            short_sale_slot: self.routing.short_sale_slot,
            exempt_code: self.routing.exempt_code,
            discretionary_amt: self.routing.discretionary_amt@,
            e_trade_only: self.routing.e_trade_only,
            firm_quote_only: self.routing.firm_quote_only,
            nbbo_price_cap: self.routing.nbbo_price_cap@,
            opt_out_smart_routing: self.routing.opt_out_smart_routing,
            auction_strategy: self.routing.auction_strategy,
            starting_price: self.routing.starting_price@,
            stock_ref_price: self.routing.stock_ref_price@,
            delta: self.routing.delta@,
            stock_range_lower: self.routing.stock_range_lower@,
            stock_range_upper: self.routing.stock_range_upper@,
            randomize_price: self.vol.randomize_price,
            randomize_size: self.vol.randomize_size,
            volatility: self.vol.volatility@,
            volatility_type: self.vol.volatility_type,
            delta_neutral_order_type: self.vol.delta_neutral_order_type@,
            delta_neutral_aux_price: self.vol.delta_neutral_aux_price@,
            delta_neutral_con_id: self.vol.delta_neutral_con_id,
            delta_neutral_settling_firm: self.vol.delta_neutral_settling_firm@,
            delta_neutral_clearing_account: self.vol.delta_neutral_clearing_account@,
            delta_neutral_clearing_intent: self.vol.delta_neutral_clearing_intent@,
            delta_neutral_open_close: self.vol.delta_neutral_open_close@,
            delta_neutral_short_sale: self.vol.delta_neutral_short_sale,
            delta_neutral_short_sale_slot: self.vol.delta_neutral_short_sale_slot,
            delta_neutral_designated_location: self.vol.delta_neutral_designated_location@,
            continuous_update: self.vol.continuous_update,
            reference_price_type: self.vol.reference_price_type,
            basis_points: self.vol.basis_points@,
            basis_points_type: self.vol.basis_points_type,
            scale_init_level_size: self.scale.scale_init_level_size,
            scale_subs_level_size: self.scale.scale_subs_level_size,
            scale_price_increment: self.scale.scale_price_increment@,
            scale_price_adjust_value: self.scale.scale_price_adjust_value@,
            scale_price_adjust_interval: self.scale.scale_price_adjust_interval,
            scale_profit_offset: self.scale.scale_profit_offset@,
            scale_auto_reset: self.scale.scale_auto_reset,
            scale_init_position: self.scale.scale_init_position,
            scale_init_fill_qty: self.scale.scale_init_fill_qty,
            scale_random_percent: self.scale.scale_random_percent,
            scale_table: self.scale.scale_table@,
            hedge_type: self.scale.hedge_type@,
            hedge_param: self.scale.hedge_param@,
            settling_firm: self.scale.settling_firm@,
            clearing_account: self.scale.clearing_account@,
            clearing_intent: self.scale.clearing_intent@,
            algo_strategy: self.algo.algo_strategy@,
            algo_params: self.algo.algo_params@.map_values(|t: TagValue| t@),
            smart_combo_routing_params: self.algo.smart_combo_routing_params@.map_values(|t: TagValue| t@),
            algo_id: self.algo.algo_id@,
            what_if: self.algo.what_if,
            not_held: self.algo.not_held,
            solicited: self.algo.solicited,
            model_code: self.algo.model_code@,
            order_combo_legs: self.algo.order_combo_legs@.map_values(|t: OrderComboLeg| t@),
            order_misc_options: self.algo.order_misc_options@.map_values(|t: TagValue| t@),
            soft_dollar_tier: self.algo.soft_dollar_tier@,
            reference_contract_id: self.peg.reference_contract_id,
            pegged_change_amount: self.peg.pegged_change_amount@,
            is_pegged_change_amount_decrease: self.peg.is_pegged_change_amount_decrease,
            reference_change_amount: self.peg.reference_change_amount@,
            reference_exchange: self.peg.reference_exchange@,
            adjusted_order_type: self.peg.adjusted_order_type@,
            trigger_price: self.peg.trigger_price@,
            adjusted_stop_price: self.peg.adjusted_stop_price@,
            adjusted_stop_limit_price: self.peg.adjusted_stop_limit_price@,
            adjusted_trailing_amount: self.peg.adjusted_trailing_amount@,
            adjustable_trailing_unit: self.peg.adjustable_trailing_unit,
            lmt_price_offset: self.peg.lmt_price_offset@,
            conditions: self.peg.conditions@.map_values(|t: OrderConditionEnum| t@),
            conditions_cancel_order: self.peg.conditions_cancel_order,
            conditions_ignore_rth: self.peg.conditions_ignore_rth,
            ext_operator: self.misc.ext_operator@,
            cash_qty: self.misc.cash_qty@,
            mifid2decision_maker: self.misc.mifid2decision_maker@,
            mifid2decision_algo: self.misc.mifid2decision_algo@,
            mifid2execution_trader: self.misc.mifid2execution_trader@,
            mifid2execution_algo: self.misc.mifid2execution_algo@,
            dont_use_auto_price_for_hedge: self.misc.dont_use_auto_price_for_hedge,
            is_oms_container: self.misc.is_oms_container,
            discretionary_up_to_limit_price: self.misc.discretionary_up_to_limit_price,
            auto_cancel_date: self.misc.auto_cancel_date@,
            filled_quantity: self.misc.filled_quantity@,
            ref_futures_con_id: self.misc.ref_futures_con_id,
            auto_cancel_parent: self.misc.auto_cancel_parent,
            shareholder: self.misc.shareholder@,
            imbalance_only: self.misc.imbalance_only,
            route_marketable_to_bbo: self.misc.route_marketable_to_bbo,
            parent_perm_id: self.misc.parent_perm_id,
            use_price_mgmt_algo: self.misc.use_price_mgmt_algo,
        }
    }
}

/// The default-initialised order, as populated before decoding.
pub open spec fn order_init() -> OrderV {
    OrderV {
        order_id: 0,
        client_id: 0,
        perm_id: 0,
        action: Seq::empty(),
        total_quantity: Option::Some("0"@),
        order_type: Seq::empty(),
        lmt_price: Option::None,
        aux_price: Option::None,
        tif: Seq::empty(),
        oca_group: Seq::empty(),
        oca_type: 0,
        account: Seq::empty(),
        open_close: "O"@,
        origin: Origin::Customer,
        order_ref: Seq::empty(),
        transmit: true,
        parent_id: 0,
        block_order: false,
        sweep_to_fill: false,
        display_size: 0,
        trigger_method: 0,
        outside_rth: false,
        hidden: false,
        good_after_time: Seq::empty(),
        good_till_date: Seq::empty(),
        rule80a: Seq::empty(),
        all_or_none: false,
        min_qty: i32::MAX,
        percent_offset: Option::None,
        override_percentage_constraints: false,
        trail_stop_price: Option::None,
        trailing_percent: Option::None,
        active_start_time: Seq::empty(),
        active_stop_time: Seq::empty(),
        fa_group: Seq::empty(),
        fa_profile: Seq::empty(),
        fa_method: Seq::empty(),
        fa_percentage: Seq::empty(),
        designated_location: Seq::empty(),
        short_sale_slot: 0,
        exempt_code: -1i32,
        discretionary_amt: Option::Some("0"@),
        e_trade_only: true,
        firm_quote_only: true,
        nbbo_price_cap: Option::None,
        opt_out_smart_routing: false,
        auction_strategy: 0,
        starting_price: Option::None,
        stock_ref_price: Option::None,
        delta: Option::None,
        stock_range_lower: Option::None,
        stock_range_upper: Option::None,
        randomize_price: false,
        randomize_size: false,
        volatility: Option::None,
        volatility_type: i32::MAX,
        delta_neutral_order_type: Seq::empty(),
        delta_neutral_aux_price: Option::None,
        delta_neutral_con_id: 0,
        delta_neutral_settling_firm: Seq::empty(),
        delta_neutral_clearing_account: Seq::empty(),
        delta_neutral_clearing_intent: Seq::empty(),
        delta_neutral_open_close: Seq::empty(),
        delta_neutral_short_sale: false,
        delta_neutral_short_sale_slot: 0,
        delta_neutral_designated_location: Seq::empty(),
        continuous_update: 0,
        reference_price_type: i32::MAX,
        basis_points: Option::None,
        basis_points_type: i32::MAX,
        scale_init_level_size: i32::MAX,
        scale_subs_level_size: i32::MAX,
        scale_price_increment: Option::None,
        scale_price_adjust_value: Option::None,
        scale_price_adjust_interval: i32::MAX,
        scale_profit_offset: Option::None,
        scale_auto_reset: false,
        scale_init_position: i32::MAX,
        scale_init_fill_qty: i32::MAX,
        scale_random_percent: false,
        scale_table: Seq::empty(),
        hedge_type: Seq::empty(),
        hedge_param: Seq::empty(),
        settling_firm: Seq::empty(),
        clearing_account: Seq::empty(),
        clearing_intent: Seq::empty(),
        algo_strategy: Seq::empty(),
        algo_params: Seq::empty(),
        smart_combo_routing_params: Seq::empty(),
        algo_id: Seq::empty(),
        what_if: false,
        not_held: false,
        solicited: false,
        model_code: Seq::empty(),
        order_combo_legs: Seq::empty(),
        order_misc_options: Seq::empty(),
        soft_dollar_tier: SoftDollarTierV { name: Seq::empty(), val: Seq::empty(), display_name: Seq::empty() },
        reference_contract_id: i32::MAX,
        pegged_change_amount: Option::None,
        is_pegged_change_amount_decrease: false,
        reference_change_amount: Option::None,
        reference_exchange: Seq::empty(),
        adjusted_order_type: Seq::empty(),
        trigger_price: Option::None,
        adjusted_stop_price: Option::None,
        adjusted_stop_limit_price: Option::None,
        adjusted_trailing_amount: Option::None,
        adjustable_trailing_unit: i32::MAX,
        lmt_price_offset: Option::None,
        conditions: Seq::empty(),
        conditions_cancel_order: false,
        conditions_ignore_rth: false,
        ext_operator: Seq::empty(),
        cash_qty: Option::None,
        mifid2decision_maker: Seq::empty(),
        mifid2decision_algo: Seq::empty(),
        mifid2execution_trader: Seq::empty(),
        mifid2execution_algo: Seq::empty(),
        dont_use_auto_price_for_hedge: false,
        is_oms_container: false,
        discretionary_up_to_limit_price: false,
        auto_cancel_date: Seq::empty(),
        filled_quantity: Option::None,
        ref_futures_con_id: i32::MAX,
        auto_cancel_parent: false,
        shareholder: Seq::empty(),
        imbalance_only: false,
        route_marketable_to_bbo: false,
        parent_perm_id: i64::MAX,
        use_price_mgmt_algo: false,
    }
}

impl Order {
    /// A fresh order with every field at its documented default.
    pub fn new() -> (r: Order)
        ensures
            r@ == order_init(),
    {
        let r = Order {
            main: OrderMain {
                order_id: 0,
                client_id: 0,
                perm_id: 0,
                action: String::new(),
                total_quantity: Double::Num(String::from_str("0")),
                order_type: String::new(),
                lmt_price: Double::Unset,
                aux_price: Double::Unset,
                tif: String::new(),
                oca_group: String::new(),
                oca_type: 0,
                account: String::new(),
                open_close: String::from_str("O"),
                origin: Origin::Customer,
                order_ref: String::new(),
                transmit: true,
                parent_id: 0,
            },
            terms: OrderTerms {
                block_order: false,
                sweep_to_fill: false,
                display_size: 0,
                trigger_method: 0,
                outside_rth: false,
                hidden: false,
                good_after_time: String::new(),
                good_till_date: String::new(),
                rule80a: String::new(),
                all_or_none: false,
                min_qty: i32::MAX,
                percent_offset: Double::Unset,
                override_percentage_constraints: false,
                trail_stop_price: Double::Unset,
                trailing_percent: Double::Unset,
                active_start_time: String::new(),
                active_stop_time: String::new(),
            },
            routing: OrderRouting {
                fa_group: String::new(),
                fa_profile: String::new(),
                fa_method: String::new(),
                fa_percentage: String::new(),
                designated_location: String::new(),
                short_sale_slot: 0,
                exempt_code: -1,
                discretionary_amt: Double::Num(String::from_str("0")),
                e_trade_only: true,
                firm_quote_only: true,
                nbbo_price_cap: Double::Unset,
                opt_out_smart_routing: false,
                auction_strategy: 0,
                starting_price: Double::Unset,
                stock_ref_price: Double::Unset,
                delta: Double::Unset,
                stock_range_lower: Double::Unset,
                stock_range_upper: Double::Unset,
            },
            vol: OrderVol {
                randomize_price: false,
                randomize_size: false,
                volatility: Double::Unset,
                volatility_type: i32::MAX,
                delta_neutral_order_type: String::new(),
                delta_neutral_aux_price: Double::Unset,
                delta_neutral_con_id: 0,
                delta_neutral_settling_firm: String::new(),
                delta_neutral_clearing_account: String::new(),
                delta_neutral_clearing_intent: String::new(),
                delta_neutral_open_close: String::new(),
                delta_neutral_short_sale: false,
                delta_neutral_short_sale_slot: 0,
                delta_neutral_designated_location: String::new(),
                continuous_update: 0,
                reference_price_type: i32::MAX,
                basis_points: Double::Unset,
                basis_points_type: i32::MAX,
            },
            scale: OrderScale {
                scale_init_level_size: i32::MAX,
                scale_subs_level_size: i32::MAX,
                scale_price_increment: Double::Unset,
                scale_price_adjust_value: Double::Unset,
                scale_price_adjust_interval: i32::MAX,
                scale_profit_offset: Double::Unset,
                scale_auto_reset: false,
                scale_init_position: i32::MAX,
                scale_init_fill_qty: i32::MAX,
                scale_random_percent: false,
                scale_table: String::new(),
                hedge_type: String::new(),
                hedge_param: String::new(),
                settling_firm: String::new(),
                clearing_account: String::new(),
                clearing_intent: String::new(),
            },
            algo: OrderAlgo {
                algo_strategy: String::new(),
                algo_params: Vec::new(),
                smart_combo_routing_params: Vec::new(),
                algo_id: String::new(),
                what_if: false,
                not_held: false,
                solicited: false,
                model_code: String::new(),
                order_combo_legs: Vec::new(),
                order_misc_options: Vec::new(),
                soft_dollar_tier: SoftDollarTier::new(String::new(), String::new(), String::new()),
            },
            peg: OrderPeg {
                reference_contract_id: i32::MAX,
                pegged_change_amount: Double::Unset,
                is_pegged_change_amount_decrease: false,
                reference_change_amount: Double::Unset,
                reference_exchange: String::new(),
                adjusted_order_type: String::new(),
                trigger_price: Double::Unset,
                adjusted_stop_price: Double::Unset,
                adjusted_stop_limit_price: Double::Unset,
                adjusted_trailing_amount: Double::Unset,
                adjustable_trailing_unit: i32::MAX,
                lmt_price_offset: Double::Unset,
                conditions: Vec::new(),
                conditions_cancel_order: false,
                conditions_ignore_rth: false,
            },
            misc: OrderMisc {
                ext_operator: String::new(),
                cash_qty: Double::Unset,
                mifid2decision_maker: String::new(),
                mifid2decision_algo: String::new(),
                mifid2execution_trader: String::new(),
                mifid2execution_algo: String::new(),
                dont_use_auto_price_for_hedge: false,
                is_oms_container: false,
                discretionary_up_to_limit_price: false,
                auto_cancel_date: String::new(),
                filled_quantity: Double::Unset,
                ref_futures_con_id: i32::MAX,
                auto_cancel_parent: false,
                shareholder: String::new(),
                imbalance_only: false,
                route_marketable_to_bbo: false,
                parent_perm_id: i64::MAX,
                use_price_mgmt_algo: false,
            },
        };
        proof {
            assert(r@ =~~= order_init());
        }
        r
    }
}

} // verus!
