//! The polymorphic order conditions: a closed set of kinds, each knowing
//! its own field layout and sharing a conjunction flag (and/or with the
//! next condition in the list). Serialisation dispatches on the kind tag.

use vstd::prelude::*;
use crate::api_parameter::ApiParameters;
use crate::decoder::{Decoder, decode_string, decode_i32, decode_f64, field_at, decoder_next_pos, adv};
use crate::double::{Double, dbl_field, dbl_plain_text};
use crate::enums::order_condition_type::OrderConditionType;
use crate::enums::trigger_method::{TriggerMethod, trigger_method_from_spec};
use crate::numbers::{int_to_dec, i32_field_value};
use crate::traits::order_condition::OrderCondition;

verus! {

/// The conjunction flag's wire text: `a` for and, `o` for or.
pub open spec fn conj_text(b: bool) -> Seq<char> {
    if b {
        "a"@
    } else {
        "o"@
    }
}

/// The conjunction flag a wire field decodes to.
pub open spec fn conj_of_field(s: Seq<char>) -> bool {
    s == "a"@
}

#[derive(Debug)]
pub struct PriceCondition {
    pub is_conjunction_connection: bool,
    pub condition_type: OrderConditionType,
    pub price: Double,
    pub trigger_method: TriggerMethod,
}

#[derive(Debug)]
pub struct ExecutionCondition {
    pub is_conjunction_connection: bool,
    pub condition_type: OrderConditionType,
    pub sec_type: String,
    pub exchange: String,
    pub symbol: String,
}

#[derive(Debug)]
pub struct MarginCondition {
    pub is_conjunction_connection: bool,
    pub condition_type: OrderConditionType,
    pub percent: i32,
}

#[derive(Debug)]
pub struct TimeCondition {
    pub is_conjunction_connection: bool,
    pub condition_type: OrderConditionType,
    pub time: String,
}

#[derive(Debug)]
pub struct VolumeCondition {
    pub is_conjunction_connection: bool,
    pub condition_type: OrderConditionType,
    pub volume: i32,
}

#[derive(Debug)]
pub struct PercentChangeCondition {
    pub is_conjunction_connection: bool,
    pub condition_type: OrderConditionType,
    pub change_percent: Double,
}

/// The mathematical value of one order condition.
#[verifier::ext_equal]
pub enum CondV {
    Price { conj: bool, condition_type: OrderConditionType, price: Option<Seq<char>>, trigger_method: TriggerMethod },
    Execution { conj: bool, condition_type: OrderConditionType, sec_type: Seq<char>, exchange: Seq<char>, symbol: Seq<char> },
    Margin { conj: bool, condition_type: OrderConditionType, percent: i32 },
    Time { conj: bool, condition_type: OrderConditionType, time: Seq<char> },
    Volume { conj: bool, condition_type: OrderConditionType, volume: i32 },
    PercentChange { conj: bool, condition_type: OrderConditionType, change_percent: Option<Seq<char>> },
}

impl View for PriceCondition {
    type V = CondV;

    open spec fn view(&self) -> CondV {
        CondV::Price {
            conj: self.is_conjunction_connection,
            condition_type: self.condition_type,
            price: self.price@,
            trigger_method: self.trigger_method,
        }
    }
}

impl View for ExecutionCondition {
    type V = CondV;

    open spec fn view(&self) -> CondV {
        CondV::Execution {
            conj: self.is_conjunction_connection,
            condition_type: self.condition_type,
            sec_type: self.sec_type@,
            exchange: self.exchange@,
            symbol: self.symbol@,
        }
    }
}

impl View for MarginCondition {
    type V = CondV;

    open spec fn view(&self) -> CondV {
        CondV::Margin {
            conj: self.is_conjunction_connection,
            condition_type: self.condition_type,
            percent: self.percent,
        }
    }
}

impl View for TimeCondition {
    type V = CondV;

    open spec fn view(&self) -> CondV {
        CondV::Time {
            conj: self.is_conjunction_connection,
            condition_type: self.condition_type,
            time: self.time@,
        }
    }
}

impl View for VolumeCondition {
    type V = CondV;

    open spec fn view(&self) -> CondV {
        CondV::Volume {
            conj: self.is_conjunction_connection,
            condition_type: self.condition_type,
            volume: self.volume,
        }
    }
}

impl View for PercentChangeCondition {
    type V = CondV;

    open spec fn view(&self) -> CondV {
        CondV::PercentChange {
            conj: self.is_conjunction_connection,
            condition_type: self.condition_type,
            change_percent: self.change_percent@,
        }
    }
}

impl PriceCondition {
    pub fn new() -> (r: PriceCondition)
        ensures
            r@ == (CondV::Price {
                conj: false,
                condition_type: OrderConditionType::Price,
                price: Some("0"@),
                trigger_method: TriggerMethod::Default,
            }),
    {
        PriceCondition {
            is_conjunction_connection: false,
            condition_type: OrderConditionType::Price,
            price: Double::Num(String::from_str("0")),
            trigger_method: TriggerMethod::Default,
        }
    }
}

impl ExecutionCondition {
    pub fn new() -> (r: ExecutionCondition)
        ensures
            r@ == (CondV::Execution {
                conj: false,
                condition_type: OrderConditionType::Execution,
                sec_type: Seq::empty(),
                exchange: Seq::empty(),
                symbol: Seq::empty(),
            }),
    {
        let r = ExecutionCondition {
            is_conjunction_connection: false,
            condition_type: OrderConditionType::Execution,
            sec_type: String::new(),
            exchange: String::new(),
            symbol: String::new(),
        };
        proof {
            assert(r@ =~~= (CondV::Execution {
                conj: false,
                condition_type: OrderConditionType::Execution,
                sec_type: Seq::empty(),
                exchange: Seq::empty(),
                symbol: Seq::empty(),
            }));
        }
        r
    }
}

impl MarginCondition {
    pub fn new() -> (r: MarginCondition)
        ensures
            r@ == (CondV::Margin {
                conj: false,
                condition_type: OrderConditionType::Margin,
                percent: 0,
            }),
    {
        MarginCondition {
            is_conjunction_connection: false,
            condition_type: OrderConditionType::Margin,
            percent: 0,
        }
    }
}

impl TimeCondition {
    pub fn new() -> (r: TimeCondition)
        ensures
            r@ == (CondV::Time {
                conj: false,
                condition_type: OrderConditionType::Time,
                time: Seq::empty(),
            }),
    {
        let r = TimeCondition {
            is_conjunction_connection: false,
            condition_type: OrderConditionType::Time,
            time: String::new(),
        };
        proof {
            assert(r@ =~~= (CondV::Time {
                conj: false,
                condition_type: OrderConditionType::Time,
                time: Seq::empty(),
            }));
        }
        r
    }
}

impl VolumeCondition {
    pub fn new() -> (r: VolumeCondition)
        ensures
            r@ == (CondV::Volume {
                conj: false,
                condition_type: OrderConditionType::Volume,
                volume: 0,
            }),
    {
        VolumeCondition {
            is_conjunction_connection: false,
            condition_type: OrderConditionType::Volume,
            volume: 0,
        }
    }
}

impl PercentChangeCondition {
    pub fn new() -> (r: PercentChangeCondition)
        ensures
            r@ == (CondV::PercentChange {
                conj: false,
                condition_type: OrderConditionType::PercentChange,
                change_percent: Some("0"@),
            }),
    {
        PercentChangeCondition {
            is_conjunction_connection: false,
            condition_type: OrderConditionType::PercentChange,
            change_percent: Double::Num(String::from_str("0")),
        }
    }
}

/// One order condition, stored as a tagged union over the closed kind set.
#[derive(Debug)]
pub enum OrderConditionEnum {
    Price(PriceCondition),
    Execution(ExecutionCondition),
    Margin(MarginCondition),
    Time(TimeCondition),
    Volume(VolumeCondition),
    PercentChange(PercentChangeCondition),
}

impl View for OrderConditionEnum {
    type V = CondV;

    open spec fn view(&self) -> CondV {
        match self {
            OrderConditionEnum::Price(c) => c@,
            OrderConditionEnum::Execution(c) => c@,
            OrderConditionEnum::Margin(c) => c@,
            OrderConditionEnum::Time(c) => c@,
            OrderConditionEnum::Volume(c) => c@,
            OrderConditionEnum::PercentChange(c) => c@,
        }
    }
}

/// The kind tag stored in a condition value.
pub open spec fn cond_type_code(c: CondV) -> i32 {
    match c {
        CondV::Price { condition_type, .. } => condition_type.code_spec(),
        CondV::Execution { condition_type, .. } => condition_type.code_spec(),
        CondV::Margin { condition_type, .. } => condition_type.code_spec(),
        CondV::Time { condition_type, .. } => condition_type.code_spec(),
        CondV::Volume { condition_type, .. } => condition_type.code_spec(),
        CondV::PercentChange { condition_type, .. } => condition_type.code_spec(),
    }
}

/// The fields one condition serialises to: its conjunction flag followed
/// by the kind's own payload.
pub open spec fn cond_fields(c: CondV) -> Seq<Seq<char>> {
    match c {
        CondV::Price { conj, trigger_method, .. } => seq![
            conj_text(conj),
            int_to_dec(trigger_method.code_spec() as int),
        ],
        CondV::Execution { conj, sec_type, exchange, symbol, .. } => seq![
            conj_text(conj),
            sec_type,
            exchange,
            symbol,
        ],
        CondV::Margin { conj, .. } => seq![conj_text(conj)],
        CondV::Time { conj, time, .. } => seq![conj_text(conj), time],
        CondV::Volume { conj, volume, .. } => seq![conj_text(conj), int_to_dec(volume as int)],
        CondV::PercentChange { conj, change_percent, .. } => seq![
            conj_text(conj),
            dbl_plain_text(change_percent),
        ],
    }
}

impl OrderConditionEnum {
    /// The kind's wire code, as stored in the value's tag field.
    pub fn get_type(&self) -> (r: i32)
        ensures
            r == cond_type_code(self@),
    {
        match self {
            OrderConditionEnum::Price(c) => c.get_type(),
            OrderConditionEnum::Execution(c) => c.get_type(),
            OrderConditionEnum::Margin(c) => c.get_type(),
            OrderConditionEnum::Time(c) => c.get_type(),
            OrderConditionEnum::Volume(c) => c.get_type(),
            OrderConditionEnum::PercentChange(c) => c.get_type(),
        }
    }

    pub fn get_conjunction(&self) -> (r: bool)
        ensures
            r == cond_conj(self@),
    {
        match self {
            OrderConditionEnum::Price(c) => c.get_conjunction(),
            OrderConditionEnum::Execution(c) => c.get_conjunction(),
            OrderConditionEnum::Margin(c) => c.get_conjunction(),
            OrderConditionEnum::Time(c) => c.get_conjunction(),
            OrderConditionEnum::Volume(c) => c.get_conjunction(),
            OrderConditionEnum::PercentChange(c) => c.get_conjunction(),
        }
    }

    /// Appends the condition's fields to an outbound message.
    pub fn serialize(&self, out_stream: &mut ApiParameters)
        ensures
            final(out_stream)@ == old(out_stream)@ + cond_fields(self@),
    {
        let ghost before = out_stream@;
        let ghost target = cond_fields(self@);
        match self {
            OrderConditionEnum::Price(c) => {
                serialize_conjunction(c.is_conjunction_connection, out_stream);
                out_stream.add_int(c.trigger_method.code());
            },
            OrderConditionEnum::Execution(c) => {
                serialize_conjunction(c.is_conjunction_connection, out_stream);
                out_stream.add_string(c.sec_type.as_str());
                out_stream.add_string(c.exchange.as_str());
                out_stream.add_string(c.symbol.as_str());
            },
            OrderConditionEnum::Margin(c) => {
                serialize_conjunction(c.is_conjunction_connection, out_stream);
            },
            OrderConditionEnum::Time(c) => {
                serialize_conjunction(c.is_conjunction_connection, out_stream);
                out_stream.add_string(c.time.as_str());
            },
            OrderConditionEnum::Volume(c) => {
                serialize_conjunction(c.is_conjunction_connection, out_stream);
                out_stream.add_int(c.volume);
            },
            OrderConditionEnum::PercentChange(c) => {
                serialize_conjunction(c.is_conjunction_connection, out_stream);
                out_stream.add_double(&c.change_percent);
            },
        }
        proof {
            assert(out_stream@ =~~= before + target);
        }
    }

    /// Reads the condition's fields, as serialised, into a fresh condition
    /// of the kind the given wire code names; an unknown code reads as a
    /// price condition.
    pub fn deserialize(condition_num: i32, d: &mut Decoder) -> (r: OrderConditionEnum)
        requires
            old(d).wf(),
        ensures
            final(d).wf(),
            r@ == cond_of_fields(condition_num, old(d).fields_view(), old(d).pos_view()),
            final(d).fields_view() == old(d).fields_view(),
            final(d).pos_view() == adv(old(d).fields_view(), old(d).pos_view(),
                cond_fields(cond_of_fields(condition_num, old(d).fields_view(),
                    old(d).pos_view())).len() as int),
    {
        if condition_num == 5 {
            let mut c = ExecutionCondition::new();
            c.is_conjunction_connection = deserialize_conjunction(d);
            c.sec_type = decode_string(d);
            c.exchange = decode_string(d);
            c.symbol = decode_string(d);
            OrderConditionEnum::Execution(c)
        } else if condition_num == 4 {
            let mut c = MarginCondition::new();
            c.is_conjunction_connection = deserialize_conjunction(d);
            OrderConditionEnum::Margin(c)
        } else if condition_num == 3 {
            let mut c = TimeCondition::new();
            c.is_conjunction_connection = deserialize_conjunction(d);
            c.time = decode_string(d);
            OrderConditionEnum::Time(c)
        } else if condition_num == 6 {
            let mut c = VolumeCondition::new();
            c.is_conjunction_connection = deserialize_conjunction(d);
            c.volume = decode_i32(d);
            OrderConditionEnum::Volume(c)
        } else if condition_num == 7 {
            let mut c = PercentChangeCondition::new();
            c.is_conjunction_connection = deserialize_conjunction(d);
            c.change_percent = decode_f64(d);
            OrderConditionEnum::PercentChange(c)
        } else {
            let mut c = PriceCondition::new();
            c.is_conjunction_connection = deserialize_conjunction(d);
            let num = decode_i32(d);
            c.trigger_method = TriggerMethod::from(num);
            OrderConditionEnum::Price(c)
        }
    }
}

/// The conjunction flag a condition value carries.
pub open spec fn cond_conj(c: CondV) -> bool {
    match c {
        CondV::Price { conj, .. } => conj,
        CondV::Execution { conj, .. } => conj,
        CondV::Margin { conj, .. } => conj,
        CondV::Time { conj, .. } => conj,
        CondV::Volume { conj, .. } => conj,
        CondV::PercentChange { conj, .. } => conj,
    }
}

/// The condition that deserialising fields `fs[pos..]` under the given
/// kind code yields; the exact inverse of `cond_fields` on its own output.
pub open spec fn cond_of_fields(condition_num: i32, fs: Seq<Seq<char>>, pos: int) -> CondV {
    if condition_num == 5 {
        CondV::Execution {
            conj: conj_of_field(field_at(fs, pos)),
            condition_type: OrderConditionType::Execution,
            sec_type: field_at(fs, pos + 1),
            exchange: field_at(fs, pos + 2),
            symbol: field_at(fs, pos + 3),
        }
    } else if condition_num == 4 {
        CondV::Margin {
            conj: conj_of_field(field_at(fs, pos)),
            condition_type: OrderConditionType::Margin,
            percent: 0,
        }
    } else if condition_num == 3 {
        CondV::Time {
            conj: conj_of_field(field_at(fs, pos)),
            condition_type: OrderConditionType::Time,
            time: field_at(fs, pos + 1),
        }
    } else if condition_num == 6 {
        CondV::Volume {
            conj: conj_of_field(field_at(fs, pos)),
            condition_type: OrderConditionType::Volume,
            volume: i32_field_value(field_at(fs, pos + 1)) as i32,
        }
    } else if condition_num == 7 {
        CondV::PercentChange {
            conj: conj_of_field(field_at(fs, pos)),
            condition_type: OrderConditionType::PercentChange,
            change_percent: dbl_field(field_at(fs, pos + 1)),
        }
    } else {
        CondV::Price {
            conj: conj_of_field(field_at(fs, pos)),
            condition_type: OrderConditionType::Price,
            price: Some("0"@),
            trigger_method: trigger_method_from_spec(
                i32_field_value(field_at(fs, pos + 1)) as i32),
        }
    }
}

/// Writes the shared conjunction flag: `a` for and, `o` for or.
pub fn serialize_conjunction(conj: bool, out_stream: &mut ApiParameters)
    ensures
        final(out_stream)@ == old(out_stream)@.push(conj_text(conj)),
{
    if conj {
        out_stream.add_string("a");
    } else {
        out_stream.add_string("o");
    }
}

/// Reads the shared conjunction flag.
pub fn deserialize_conjunction(d: &mut Decoder) -> (r: bool)
    requires
        old(d).wf(),
    ensures
        final(d).wf(),
        r == conj_of_field(field_at(old(d).fields_view(), old(d).pos_view())),
        final(d).fields_view() == old(d).fields_view(),
        final(d).pos_view() == decoder_next_pos(old(d).fields_view(), old(d).pos_view()),
{
    let s = decode_string(d);
    let a = String::from_str("a");
    s.eq(&a)
}

impl OrderCondition for PriceCondition {
    open spec fn type_code_view(&self) -> i32 {
        self.condition_type.code_spec()
    }

    open spec fn conjunction_view(&self) -> bool {
        self.is_conjunction_connection
    }

    fn get_type(&self) -> (r: i32) {
        self.condition_type.code()
    }

    fn get_conjunction(&self) -> (r: bool) {
        self.is_conjunction_connection
    }

    fn set_conjunction(&mut self, val: bool) {
        self.is_conjunction_connection = val;
    }
}

impl OrderCondition for ExecutionCondition {
    open spec fn type_code_view(&self) -> i32 {
        self.condition_type.code_spec()
    }

    open spec fn conjunction_view(&self) -> bool {
        self.is_conjunction_connection
    }

    fn get_type(&self) -> (r: i32) {
        self.condition_type.code()
    }

    fn get_conjunction(&self) -> (r: bool) {
        self.is_conjunction_connection
    }

    fn set_conjunction(&mut self, val: bool) {
        self.is_conjunction_connection = val;
    }
}

impl OrderCondition for MarginCondition {
    open spec fn type_code_view(&self) -> i32 {
        self.condition_type.code_spec()
    }

    open spec fn conjunction_view(&self) -> bool {
        self.is_conjunction_connection
    }

    fn get_type(&self) -> (r: i32) {
        self.condition_type.code()
    }

    fn get_conjunction(&self) -> (r: bool) {
        self.is_conjunction_connection
    }

    fn set_conjunction(&mut self, val: bool) {
        self.is_conjunction_connection = val;
    }
}

impl OrderCondition for TimeCondition {
    open spec fn type_code_view(&self) -> i32 {
        self.condition_type.code_spec()
    }

    open spec fn conjunction_view(&self) -> bool {
        self.is_conjunction_connection
    }

    fn get_type(&self) -> (r: i32) {
        self.condition_type.code()
    }

    fn get_conjunction(&self) -> (r: bool) {
        self.is_conjunction_connection
    }

    fn set_conjunction(&mut self, val: bool) {
        self.is_conjunction_connection = val;
    }
}

impl OrderCondition for VolumeCondition {
    open spec fn type_code_view(&self) -> i32 {
        self.condition_type.code_spec()
    }

    open spec fn conjunction_view(&self) -> bool {
        self.is_conjunction_connection
    }

    fn get_type(&self) -> (r: i32) {
        self.condition_type.code()
    }

    fn get_conjunction(&self) -> (r: bool) {
        self.is_conjunction_connection
    }

    fn set_conjunction(&mut self, val: bool) {
        self.is_conjunction_connection = val;
    }
}

impl OrderCondition for PercentChangeCondition {
    open spec fn type_code_view(&self) -> i32 {
        self.condition_type.code_spec()
    }

    open spec fn conjunction_view(&self) -> bool {
        self.is_conjunction_connection
    }

    fn get_type(&self) -> (r: i32) {
        self.condition_type.code()
    }

    fn get_conjunction(&self) -> (r: bool) {
        self.is_conjunction_connection
    }

    fn set_conjunction(&mut self, val: bool) {
        self.is_conjunction_connection = val;
    }
}

/// A condition the library can serialise: its tag names its own variant,
/// and a percent-change payload is a well-formed numeral.
pub open spec fn cond_wf(c: CondV) -> bool {
    match c {
        CondV::Price { condition_type, .. } => condition_type == OrderConditionType::Price,
        CondV::Execution { condition_type, .. } => condition_type
            == OrderConditionType::Execution,
        CondV::Margin { condition_type, .. } => condition_type == OrderConditionType::Margin,
        CondV::Time { condition_type, .. } => condition_type == OrderConditionType::Time,
        CondV::Volume { condition_type, .. } => condition_type == OrderConditionType::Volume,
        CondV::PercentChange { condition_type, change_percent, .. } => condition_type
            == OrderConditionType::PercentChange
            && (change_percent matches Some(t) && crate::double::is_plain_decimal(t)),
    }
}

/// Round trip: serialising a well-formed condition behind its kind code
/// and deserialising the fields yields the condition back, up to the
/// fields the wire does not carry: a price condition's price and a margin
/// condition's percent, which the reference schema never serialises and
/// the reader leaves at their zero defaults.
pub proof fn lemma_condition_round_trip(c: CondV, fs: Seq<Seq<char>>, pos: int)
    requires
        cond_wf(c),
        forall|k: int| 0 <= k < cond_fields(c).len()
            ==> field_at(fs, pos + k) == #[trigger] cond_fields(c)[k],
    ensures
        cond_of_fields(cond_type_code(c), fs, pos) == (match c {
            CondV::Price { conj, condition_type, trigger_method, .. } => CondV::Price {
                conj,
                condition_type,
                price: Some("0"@),
                trigger_method,
            },
            CondV::Margin { conj, condition_type, .. } => CondV::Margin {
                conj,
                condition_type,
                percent: 0,
            },
            _ => c,
        }),
{
    reveal_strlit("a");
    reveal_strlit("o");
    assert(field_at(fs, pos) == cond_fields(c)[0]);
    assert(("a")@ != ("o")@) by {
        assert(("a")@[0] == 'a' && ("o")@[0] == 'o');
    }
    match c {
        CondV::Price { conj, trigger_method, .. } => {
            assert(field_at(fs, pos + 1) == cond_fields(c)[1]);
            crate::numbers::lemma_parse_of_i32_dec(trigger_method.code_spec() as int);
        },
        CondV::Execution { .. } => {
            assert(field_at(fs, pos + 1) == cond_fields(c)[1]);
            assert(field_at(fs, pos + 2) == cond_fields(c)[2]);
            assert(field_at(fs, pos + 3) == cond_fields(c)[3]);
        },
        CondV::Margin { .. } => {},
        CondV::Time { .. } => {
            assert(field_at(fs, pos + 1) == cond_fields(c)[1]);
        },
        CondV::Volume { volume, .. } => {
            assert(field_at(fs, pos + 1) == cond_fields(c)[1]);
            crate::numbers::lemma_parse_of_i32_dec(volume as int);
        },
        CondV::PercentChange { change_percent, .. } => {
            assert(field_at(fs, pos + 1) == cond_fields(c)[1]);
        },
    }
}

} // verus!
