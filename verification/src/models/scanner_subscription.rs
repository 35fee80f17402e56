//! The parameters of a scanner subscription request.

use vstd::prelude::*;
use crate::double::Double;

verus! {

#[derive(Debug)]
pub struct ScannerSubscription {
    pub number_of_rows: i32,
    pub instrument: String,
    pub location_code: String,
    pub scan_code: String,
    pub above_price: Double,
    pub below_price: Double,
    pub above_volume: i32,
    pub market_cap_above: Double,
    pub market_cap_below: Double,
    pub moody_rating_above: String,
    pub moody_rating_below: String,
    pub sp_rating_above: String,
    pub sp_rating_below: String,
    pub maturity_date_above: String,
    pub maturity_date_below: String,
    pub coupon_rate_above: Double,
    pub coupon_rate_below: Double,
    pub exclude_convertible: bool,
    pub average_option_volume_above: i32,
    pub scanner_setting_pairs: String,
    pub stock_type_filter: String,
}

#[verifier::ext_equal]
pub struct ScannerSubscriptionV {
    pub number_of_rows: i32,
    pub instrument: Seq<char>,
    pub location_code: Seq<char>,
    pub scan_code: Seq<char>,
    pub above_price: Option<Seq<char>>,
    pub below_price: Option<Seq<char>>,
    pub above_volume: i32,
    pub market_cap_above: Option<Seq<char>>,
    pub market_cap_below: Option<Seq<char>>,
    pub moody_rating_above: Seq<char>,
    pub moody_rating_below: Seq<char>,
    pub sp_rating_above: Seq<char>,
    pub sp_rating_below: Seq<char>,
    pub maturity_date_above: Seq<char>,
    pub maturity_date_below: Seq<char>,
    pub coupon_rate_above: Option<Seq<char>>,
    pub coupon_rate_below: Option<Seq<char>>,
    pub exclude_convertible: bool,
    pub average_option_volume_above: i32,
    pub scanner_setting_pairs: Seq<char>,
    pub stock_type_filter: Seq<char>,
}

impl View for ScannerSubscription {
    type V = ScannerSubscriptionV;

    open spec fn view(&self) -> ScannerSubscriptionV {
        ScannerSubscriptionV {
            number_of_rows: self.number_of_rows,
            instrument: self.instrument@,
            location_code: self.location_code@,
            scan_code: self.scan_code@,
            above_price: self.above_price@,
            below_price: self.below_price@,
            above_volume: self.above_volume,
            market_cap_above: self.market_cap_above@,
            market_cap_below: self.market_cap_below@,
            moody_rating_above: self.moody_rating_above@,
            moody_rating_below: self.moody_rating_below@,
            sp_rating_above: self.sp_rating_above@,
            sp_rating_below: self.sp_rating_below@,
            maturity_date_above: self.maturity_date_above@,
            maturity_date_below: self.maturity_date_below@,
            coupon_rate_above: self.coupon_rate_above@,
            coupon_rate_below: self.coupon_rate_below@,
            exclude_convertible: self.exclude_convertible,
            average_option_volume_above: self.average_option_volume_above,
            scanner_setting_pairs: self.scanner_setting_pairs@,
            stock_type_filter: self.stock_type_filter@,
        }
    }
}

/// The default subscription: no row limit, every filter unset.
pub open spec fn scanner_subscription_init() -> ScannerSubscriptionV {
    ScannerSubscriptionV {
        number_of_rows: -1i32,
        instrument: Seq::empty(),
        location_code: Seq::empty(),
        scan_code: Seq::empty(),
        above_price: None,
        below_price: None,
        above_volume: i32::MAX,
        market_cap_above: None,
        market_cap_below: None,
        moody_rating_above: Seq::empty(),
        moody_rating_below: Seq::empty(),
        sp_rating_above: Seq::empty(),
        sp_rating_below: Seq::empty(),
        maturity_date_above: Seq::empty(),
        maturity_date_below: Seq::empty(),
        coupon_rate_above: None,
        coupon_rate_below: None,
        exclude_convertible: false,
        average_option_volume_above: i32::MAX,
        scanner_setting_pairs: Seq::empty(),
        stock_type_filter: Seq::empty(),
    }
}

impl ScannerSubscription {
    /// A fresh subscription with every filter unset.
    pub fn new() -> (r: ScannerSubscription)
        ensures
            r@ == scanner_subscription_init(),
    {
        let r = ScannerSubscription {
            number_of_rows: -1i32,
            instrument: String::new(),
            location_code: String::new(),
            scan_code: String::new(),
            above_price: Double::Unset,
            below_price: Double::Unset,
            above_volume: i32::MAX,
            market_cap_above: Double::Unset,
            market_cap_below: Double::Unset,
            moody_rating_above: String::new(),
            moody_rating_below: String::new(),
            sp_rating_above: String::new(),
            sp_rating_below: String::new(),
            maturity_date_above: String::new(),
            maturity_date_below: String::new(),
            coupon_rate_above: Double::Unset,
            coupon_rate_below: Double::Unset,
            exclude_convertible: false,
            average_option_volume_above: i32::MAX,
            scanner_setting_pairs: String::new(),
            stock_type_filter: String::new(),
        };
        proof {
            assert(r@ =~~= scanner_subscription_init());
        }
        r
    }
}

} // verus!
