//! The full contract description returned for a contract-data request.

use vstd::prelude::*;
use crate::double::Double;
use crate::models::contract::{Contract, ContractV, contract_init};
use crate::models::tag_value::{TagValue, TagValueV};

verus! {

#[derive(Debug)]
pub struct ContractDetails {
    pub contract: Contract,
    pub market_name: String,
    pub min_tick: Double,
    pub md_size_multiplier: i32,
    pub order_types: String,
    pub valid_exchanges: String,
    pub price_magnifier: i32,
    pub under_con_id: i32,
    pub long_name: String,
    pub contract_month: String,
    pub industry: String,
    pub category: String,
    pub subcategory: String,
    pub time_zone_id: String,
    pub trading_hours: String,
    pub liquid_hours: String,
    pub ev_rule: String,
    pub ev_multiplier: Double,
    pub sec_id_list: Vec<TagValue>,
    pub agg_group: i32,
    pub under_symbol: String,
    pub under_sec_type: String,
    pub market_rule_ids: String,
    pub real_expiration_date: String,
    pub last_trade_time: String,
    pub maturity: String,
}

#[verifier::ext_equal]
pub struct ContractDetailsV {
    pub contract: ContractV,
    pub market_name: Seq<char>,
    pub min_tick: Option<Seq<char>>,
    pub md_size_multiplier: i32,
    pub order_types: Seq<char>,
    pub valid_exchanges: Seq<char>,
    pub price_magnifier: i32,
    pub under_con_id: i32,
    pub long_name: Seq<char>,
    pub contract_month: Seq<char>,
    pub industry: Seq<char>,
    pub category: Seq<char>,
    pub subcategory: Seq<char>,
    pub time_zone_id: Seq<char>,
    pub trading_hours: Seq<char>,
    pub liquid_hours: Seq<char>,
    pub ev_rule: Seq<char>,
    pub ev_multiplier: Option<Seq<char>>,
    pub sec_id_list: Seq<TagValueV>,
    pub agg_group: i32,
    pub under_symbol: Seq<char>,
    pub under_sec_type: Seq<char>,
    pub market_rule_ids: Seq<char>,
    pub real_expiration_date: Seq<char>,
    pub last_trade_time: Seq<char>,
    pub maturity: Seq<char>,
}

impl View for ContractDetails {
    type V = ContractDetailsV;

    open spec fn view(&self) -> ContractDetailsV {
        ContractDetailsV {
            contract: self.contract@,
            market_name: self.market_name@,
            min_tick: self.min_tick@,
            md_size_multiplier: self.md_size_multiplier,
            order_types: self.order_types@,
            valid_exchanges: self.valid_exchanges@,
            price_magnifier: self.price_magnifier,
            under_con_id: self.under_con_id,
            long_name: self.long_name@,
            contract_month: self.contract_month@,
            industry: self.industry@,
            category: self.category@,
            subcategory: self.subcategory@,
            time_zone_id: self.time_zone_id@,
            trading_hours: self.trading_hours@,
            liquid_hours: self.liquid_hours@,
            ev_rule: self.ev_rule@,
            ev_multiplier: self.ev_multiplier@,
            sec_id_list: self.sec_id_list@.map_values(|t: TagValue| t@),
            agg_group: self.agg_group,
            under_symbol: self.under_symbol@,
            under_sec_type: self.under_sec_type@,
            market_rule_ids: self.market_rule_ids@,
            real_expiration_date: self.real_expiration_date@,
            last_trade_time: self.last_trade_time@,
            maturity: self.maturity@,
        }
    }
}

/// The default-initialised value, as populated before decoding.
pub open spec fn contract_details_init() -> ContractDetailsV {
    ContractDetailsV {
        contract: contract_init(),
        market_name: Seq::empty(),
        min_tick: Some("0"@),
        md_size_multiplier: 0,
        order_types: Seq::empty(),
        valid_exchanges: Seq::empty(),
        price_magnifier: 0,
        under_con_id: 0,
        long_name: Seq::empty(),
        contract_month: Seq::empty(),
        industry: Seq::empty(),
        category: Seq::empty(),
        subcategory: Seq::empty(),
        time_zone_id: Seq::empty(),
        trading_hours: Seq::empty(),
        liquid_hours: Seq::empty(),
        ev_rule: Seq::empty(),
        ev_multiplier: Some("0"@),
        sec_id_list: Seq::empty(),
        agg_group: 0,
        under_symbol: Seq::empty(),
        under_sec_type: Seq::empty(),
        market_rule_ids: Seq::empty(),
        real_expiration_date: Seq::empty(),
        last_trade_time: Seq::empty(),
        maturity: Seq::empty(),
    }
}

impl ContractDetails {
    /// A fresh record with every field at its documented default.
    pub fn new() -> (r: ContractDetails)
        ensures
            r@ == contract_details_init(),
    {
        let r = ContractDetails {
            contract: Contract::new(),
            market_name: String::new(),
            min_tick: Double::Num(String::from_str("0")),
            md_size_multiplier: 0,
            order_types: String::new(),
            valid_exchanges: String::new(),
            price_magnifier: 0,
            under_con_id: 0,
            long_name: String::new(),
            contract_month: String::new(),
            industry: String::new(),
            category: String::new(),
            subcategory: String::new(),
            time_zone_id: String::new(),
            trading_hours: String::new(),
            liquid_hours: String::new(),
            ev_rule: String::new(),
            ev_multiplier: Double::Num(String::from_str("0")),
            sec_id_list: Vec::new(),
            agg_group: 0,
            under_symbol: String::new(),
            under_sec_type: String::new(),
            market_rule_ids: String::new(),
            real_expiration_date: String::new(),
            last_trade_time: String::new(),
            maturity: String::new(),
        };
        proof {
            assert(r@ =~~= contract_details_init());
        }
        r
    }
}

} // verus!
