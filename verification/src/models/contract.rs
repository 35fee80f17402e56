//! The contract record: the instrument identity an order refers to.

use vstd::prelude::*;
use crate::double::Double;
use crate::models::combo_leg::{ComboLeg, ComboLegV};
use crate::models::delta_neutral_contract::{DeltaNeutralContract, DeltaNeutralContractV};

verus! {

#[derive(Debug)]
pub struct Contract {
    pub con_id: i32,
    pub symbol: String,
    pub sec_type: String,
    pub last_trade_date_or_contract_month: String,
    pub strike: Double,
    pub right: String,
    pub multiplier: String,
    pub exchange: String,
    pub primary_exchange: String,
    pub currency: String,
    pub local_symbol: String,
    pub trading_class: String,
    pub include_expired: bool,
    pub sec_id_type: String,
    pub sec_id: String,
    pub combo_legs_descrip: String,
    pub combo_legs: Vec<ComboLeg>,
    pub delta_neutral_contract: Option<DeltaNeutralContract>,
}

/// The mathematical value of a `Contract`: each text field as its
/// character sequence, each number field as its wire text or unset.
#[verifier::ext_equal]
pub struct ContractV {
    pub con_id: i32,
    pub symbol: Seq<char>,
    pub sec_type: Seq<char>,
    pub last_trade_date_or_contract_month: Seq<char>,
    pub strike: Option<Seq<char>>,
    pub right: Seq<char>,
    pub multiplier: Seq<char>,
    pub exchange: Seq<char>,
    pub primary_exchange: Seq<char>,
    pub currency: Seq<char>,
    pub local_symbol: Seq<char>,
    pub trading_class: Seq<char>,
    pub include_expired: bool,
    pub sec_id_type: Seq<char>,
    pub sec_id: Seq<char>,
    pub combo_legs_descrip: Seq<char>,
    pub combo_legs: Seq<ComboLegV>,
    pub delta_neutral_contract: Option<DeltaNeutralContractV>,
}

impl View for Contract {
    type V = ContractV;

    open spec fn view(&self) -> ContractV {
        ContractV {
            con_id: self.con_id,
            symbol: self.symbol@,
            sec_type: self.sec_type@,
            last_trade_date_or_contract_month: self.last_trade_date_or_contract_month@,
            strike: self.strike@,
            right: self.right@,
            multiplier: self.multiplier@,
            exchange: self.exchange@,
            primary_exchange: self.primary_exchange@,
            currency: self.currency@,
            local_symbol: self.local_symbol@,
            trading_class: self.trading_class@,
            include_expired: self.include_expired,
            sec_id_type: self.sec_id_type@,
            sec_id: self.sec_id@,
            combo_legs_descrip: self.combo_legs_descrip@,
            combo_legs: self.combo_legs@.map_values(|t: ComboLeg| t@),
            delta_neutral_contract: match self.delta_neutral_contract { Option::None => Option::None, Option::Some(d) => Option::Some(d@) },
        }
    }
}

/// The default-initialised value, as populated before decoding.
pub open spec fn contract_init() -> ContractV {
    ContractV {
        con_id: 0,
        symbol: Seq::empty(),
        sec_type: Seq::empty(),
        last_trade_date_or_contract_month: Seq::empty(),
        strike: Option::Some("0"@),
        right: Seq::empty(),
        multiplier: Seq::empty(),
        exchange: Seq::empty(),
        primary_exchange: Seq::empty(),
        currency: Seq::empty(),
        local_symbol: Seq::empty(),
        trading_class: Seq::empty(),
        include_expired: false,
        sec_id_type: Seq::empty(),
        sec_id: Seq::empty(),
        combo_legs_descrip: Seq::empty(),
        combo_legs: Seq::empty(),
        delta_neutral_contract: Option::None,
    }
}

impl Contract {
    /// A fresh record with every field at its documented default.
    pub fn new() -> (r: Contract)
        ensures
            r@ == contract_init(),
    {
        let r = Contract {
            con_id: 0,
            symbol: String::new(),
            sec_type: String::new(),
            last_trade_date_or_contract_month: String::new(),
            strike: Double::Num(String::from_str("0")),
            right: String::new(),
            multiplier: String::new(),
            exchange: String::new(),
            primary_exchange: String::new(),
            currency: String::new(),
            local_symbol: String::new(),
            trading_class: String::new(),
            include_expired: false,
            sec_id_type: String::new(),
            sec_id: String::new(),
            combo_legs_descrip: String::new(),
            combo_legs: Vec::new(),
            delta_neutral_contract: Option::None,
        };
        proof {
            assert(r@ =~~= contract_init());
        }
        r
    }
}

} // verus!
