//! One price bar of historical or real-time data.

use vstd::prelude::*;
use crate::double::Double;

verus! {

#[derive(Debug, Clone, Copy, PartialEq, Eq, Structural)]
pub enum BarColors {
    Green,
    Yellow,
    Red,
}

#[derive(Debug)]
pub struct Bar {
    pub time_str: String,
    pub time_int: i64,
    pub open: Double,
    pub high: Double,
    pub low: Double,
    pub close: Double,
    pub volume: i64,
    pub wap: Double,
    pub count: i32,
    pub color: Option<BarColors>,
}

#[verifier::ext_equal]
pub struct BarV {
    pub time_str: Seq<char>,
    pub time_int: i64,
    pub open: Option<Seq<char>>,
    pub high: Option<Seq<char>>,
    pub low: Option<Seq<char>>,
    pub close: Option<Seq<char>>,
    pub volume: i64,
    pub wap: Option<Seq<char>>,
    pub count: i32,
    pub color: Option<BarColors>,
}

impl View for Bar {
    type V = BarV;

    open spec fn view(&self) -> BarV {
        BarV {
            time_str: self.time_str@,
            time_int: self.time_int,
            open: self.open@,
            high: self.high@,
            low: self.low@,
            close: self.close@,
            volume: self.volume,
            wap: self.wap@,
            count: self.count,
            color: self.color,
        }
    }
}

impl Bar {
    /// A fresh bar with every field at its zero default.
    pub fn new() -> (r: Bar)
        ensures
            r@ == (BarV {
                time_str: Seq::empty(),
                time_int: 0,
                open: Some("0"@),
                high: Some("0"@),
                low: Some("0"@),
                close: Some("0"@),
                volume: 0,
                wap: Some("0"@),
                count: 0,
                color: None,
            }),
    {
        let r = Bar {
            time_str: String::new(),
            time_int: 0,
            open: Double::Num(String::from_str("0")),
            high: Double::Num(String::from_str("0")),
            low: Double::Num(String::from_str("0")),
            close: Double::Num(String::from_str("0")),
            volume: 0,
            wap: Double::Num(String::from_str("0")),
            count: 0,
            color: None,
        };
        proof {
            assert(r@ =~~= (BarV {
                time_str: Seq::empty(),
                time_int: 0,
                open: Some("0"@),
                high: Some("0"@),
                low: Some("0"@),
                close: Some("0"@),
                volume: 0,
                wap: Some("0"@),
                count: 0,
                color: None,
            }));
        }
        r
    }
}

} // verus!
