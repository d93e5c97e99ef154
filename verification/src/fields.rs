use vstd::prelude::*;
use crate::decimal::{
    parse_decimal, parse_i64_str, parse_u64_str, spec_decimal_of, spec_i64_of, spec_u64_of,
    Decimal,
};
use crate::enums::{Order, Status, Tick, Trigger};
use crate::error::Error;
use crate::json::{jfield, jget, JsonVal};
use crate::orderbook::{order_of_string, spec_order_of};
use crate::record::{spec_tick_of, tick_of_string};

verus! {

// Lenient readers: a missing or ill-shaped field falls back to the field's
// default, as a record replaced wholesale by a partial frame reverts omitted
// fields. Each reader's result is pinned exactly by its spec mirror.

/// A signed integer field, or zero.
pub open spec fn spec_field_i64(v: JsonVal, key: Seq<char>) -> i64 {
    match jfield(v, key) {
        Option::Some(JsonVal::Num(s)) => match spec_i64_of(s@) {
            Option::Some(n) => n,
            Option::None => 0,
        },
        _ => 0,
    }
}

pub(crate) fn field_i64_or_zero(v: &JsonVal, key: &str) -> (r: i64)
    ensures
        r == spec_field_i64(*v, key@),
{
    match jget(v, key) {
        Some(f) => match f {
            JsonVal::Num(s) => match parse_i64_str(s.as_str()) {
                Some(n) => n,
                None => 0,
            },
            _ => 0,
        },
        None => 0,
    }
}

/// An unsigned integer field, or zero.
pub open spec fn spec_field_u64(v: JsonVal, key: Seq<char>) -> u64 {
    match jfield(v, key) {
        Option::Some(JsonVal::Num(s)) => match spec_u64_of(s@) {
            Option::Some(n) => n,
            Option::None => 0,
        },
        _ => 0,
    }
}

pub(crate) fn field_u64_or_zero(v: &JsonVal, key: &str) -> (r: u64)
    ensures
        r == spec_field_u64(*v, key@),
{
    match jget(v, key) {
        Some(f) => match f {
            JsonVal::Num(s) => match parse_u64_str(s.as_str()) {
                Some(n) => n,
                None => 0,
            },
            _ => 0,
        },
        None => 0,
    }
}

/// A small unsigned integer field, or zero when absent or out of range.
pub open spec fn spec_field_u8(v: JsonVal, key: Seq<char>) -> u8 {
    if spec_field_u64(v, key) > 255 {
        0
    } else {
        spec_field_u64(v, key) as u8
    }
}

pub(crate) fn field_u8_or_zero(v: &JsonVal, key: &str) -> (r: u8)
    ensures
        r == spec_field_u8(*v, key@),
{
    let n = field_u64_or_zero(v, key);
    if n > 255 {
        0
    } else {
        n as u8
    }
}

/// A string field, or the empty string.
pub open spec fn spec_field_string(v: JsonVal, key: Seq<char>) -> Seq<char> {
    match jfield(v, key) {
        Option::Some(JsonVal::Text(s)) => s@,
        _ => Seq::empty(),
    }
}

pub(crate) fn field_string_or_empty(v: &JsonVal, key: &str) -> (r: String)
    ensures
        r@ == spec_field_string(*v, key@),
{
    match jget(v, key) {
        Some(f) => match f {
            JsonVal::Text(s) => s.clone(),
            _ => String::new(),
        },
        None => String::new(),
    }
}

/// A tick-direction field, or the default direction.
pub open spec fn spec_field_tick(v: JsonVal, key: Seq<char>) -> Tick {
    match jfield(v, key) {
        Option::Some(JsonVal::Text(s)) => match spec_tick_of(s@) {
            Ok(t) => t,
            Err(_) => Tick::MinusTick,
        },
        _ => Tick::MinusTick,
    }
}

pub(crate) fn field_tick_or_default(v: &JsonVal, key: &str) -> (r: Tick)
    ensures
        r == spec_field_tick(*v, key@),
{
    match jget(v, key) {
        Some(f) => match f {
            JsonVal::Text(s) => match tick_of_string(s) {
                Ok(t) => t,
                Err(_) => Tick::MinusTick,
            },
            _ => Tick::MinusTick,
        },
        None => Tick::MinusTick,
    }
}

pub open spec fn spec_field_e4(v: JsonVal, key: Seq<char>) -> Decimal {
    Decimal { mantissa: spec_field_i64(v, key), scale: 4u32 }
}

pub(crate) fn field_e4_or_zero(v: &JsonVal, key: &str) -> (r: Decimal)
    ensures
        r == spec_field_e4(*v, key@),
{
    Decimal::from_e4(field_i64_or_zero(v, key))
}

pub open spec fn spec_field_e6(v: JsonVal, key: Seq<char>) -> Decimal {
    Decimal { mantissa: spec_field_i64(v, key), scale: 6u32 }
}

pub(crate) fn field_e6_or_zero(v: &JsonVal, key: &str) -> (r: Decimal)
    ensures
        r == spec_field_e6(*v, key@),
{
    Decimal::from_e6(field_i64_or_zero(v, key))
}

pub open spec fn spec_field_e8(v: JsonVal, key: Seq<char>) -> Decimal {
    Decimal { mantissa: spec_field_i64(v, key), scale: 8u32 }
}

pub(crate) fn field_e8_or_zero(v: &JsonVal, key: &str) -> (r: Decimal)
    ensures
        r == spec_field_e8(*v, key@),
{
    Decimal::from_e8(field_i64_or_zero(v, key))
}

// Strict readers: a missing or ill-shaped field is a decoding failure.

/// A required unsigned integer field.
pub open spec fn spec_req_u64(v: JsonVal, key: Seq<char>) -> Result<u64, Error> {
    match jfield(v, key) {
        Option::Some(JsonVal::Num(s)) => match spec_u64_of(s@) {
            Option::Some(n) => Ok(n),
            Option::None => Err(Error::Decoding),
        },
        _ => Err(Error::Decoding),
    }
}

pub(crate) fn req_u64(v: &JsonVal, key: &str) -> (r: Result<u64, Error>)
    ensures
        r == spec_req_u64(*v, key@),
{
    match jget(v, key) {
        Some(f) => match f {
            JsonVal::Num(s) => match parse_u64_str(s.as_str()) {
                Some(n) => Ok(n),
                None => Err(Error::Decoding),
            },
            _ => Err(Error::Decoding),
        },
        None => Err(Error::Decoding),
    }
}

/// A required unsigned integer field that must fit a u32.
pub open spec fn spec_req_u32(v: JsonVal, key: Seq<char>) -> Result<u32, Error> {
    match spec_req_u64(v, key) {
        Ok(n) => if n > u32::MAX as u64 {
            Err(Error::Decoding)
        } else {
            Ok(n as u32)
        },
        Err(e) => Err(e),
    }
}

pub(crate) fn req_u32(v: &JsonVal, key: &str) -> (r: Result<u32, Error>)
    ensures
        r == spec_req_u32(*v, key@),
{
    match req_u64(v, key) {
        Ok(n) => {
            if n > 4294967295u64 {
                Err(Error::Decoding)
            } else {
                Ok(n as u32)
            }
        },
        Err(e) => Err(e),
    }
}

/// A required unsigned integer field that must fit a u8.
pub open spec fn spec_req_u8_of_u64(v: JsonVal, key: Seq<char>) -> Result<u8, Error> {
    match spec_req_u64(v, key) {
        Ok(n) => if n > 255 {
            Err(Error::Decoding)
        } else {
            Ok(n as u8)
        },
        Err(e) => Err(e),
    }
}

pub(crate) fn req_u8_of_u64(v: &JsonVal, key: &str) -> (r: Result<u8, Error>)
    ensures
        r == spec_req_u8_of_u64(*v, key@),
{
    match req_u64(v, key) {
        Ok(n) => {
            if n > 255 {
                Err(Error::Decoding)
            } else {
                Ok(n as u8)
            }
        },
        Err(e) => Err(e),
    }
}

/// A required signed integer field.
pub open spec fn spec_req_i64(v: JsonVal, key: Seq<char>) -> Result<i64, Error> {
    match jfield(v, key) {
        Option::Some(JsonVal::Num(s)) => match spec_i64_of(s@) {
            Option::Some(n) => Ok(n),
            Option::None => Err(Error::Decoding),
        },
        _ => Err(Error::Decoding),
    }
}

pub(crate) fn req_i64(v: &JsonVal, key: &str) -> (r: Result<i64, Error>)
    ensures
        r == spec_req_i64(*v, key@),
{
    match jget(v, key) {
        Some(f) => match f {
            JsonVal::Num(s) => match parse_i64_str(s.as_str()) {
                Some(n) => Ok(n),
                None => Err(Error::Decoding),
            },
            _ => Err(Error::Decoding),
        },
        None => Err(Error::Decoding),
    }
}

/// A required boolean field.
pub open spec fn spec_req_bool(v: JsonVal, key: Seq<char>) -> Result<bool, Error> {
    match jfield(v, key) {
        Option::Some(JsonVal::Bool(b)) => Ok(b),
        _ => Err(Error::Decoding),
    }
}

pub(crate) fn req_bool(v: &JsonVal, key: &str) -> (r: Result<bool, Error>)
    ensures
        r == spec_req_bool(*v, key@),
{
    match jget(v, key) {
        Some(f) => match f {
            JsonVal::Bool(b) => Ok(*b),
            _ => Err(Error::Decoding),
        },
        None => Err(Error::Decoding),
    }
}

/// A required string field.
pub open spec fn spec_req_string(v: JsonVal, key: Seq<char>) -> Result<Seq<char>, Error> {
    match jfield(v, key) {
        Option::Some(JsonVal::Text(s)) => Ok(s@),
        _ => Err(Error::Decoding),
    }
}

pub(crate) fn req_string(v: &JsonVal, key: &str) -> (r: Result<String, Error>)
    ensures
        r matches Ok(s) ==> spec_req_string(*v, key@) == Ok::<Seq<char>, Error>(s@),
        r matches Err(e) ==> spec_req_string(*v, key@) == Err::<Seq<char>, Error>(e),
{
    match jget(v, key) {
        Some(f) => match f {
            JsonVal::Text(s) => Ok(s.clone()),
            _ => Err(Error::Decoding),
        },
        None => Err(Error::Decoding),
    }
}

/// A required decimal carried as a JSON string ("123.45").
pub open spec fn spec_req_decimal_string(v: JsonVal, key: Seq<char>) -> Result<Decimal, Error> {
    match jfield(v, key) {
        Option::Some(JsonVal::Text(s)) => match spec_decimal_of(s@) {
            Option::Some(d) => Ok(d),
            Option::None => Err(Error::Decoding),
        },
        _ => Err(Error::Decoding),
    }
}

pub(crate) fn req_decimal_string(v: &JsonVal, key: &str) -> (r: Result<Decimal, Error>)
    ensures
        r == spec_req_decimal_string(*v, key@),
{
    match jget(v, key) {
        Some(f) => match f {
            JsonVal::Text(s) => match parse_decimal(s.as_str()) {
                Some(d) => Ok(d),
                None => Err(Error::Decoding),
            },
            _ => Err(Error::Decoding),
        },
        None => Err(Error::Decoding),
    }
}

/// A required small unsigned integer carried as a JSON string ("100").
pub open spec fn spec_req_u8_string(v: JsonVal, key: Seq<char>) -> Result<u8, Error> {
    match jfield(v, key) {
        Option::Some(JsonVal::Text(s)) => match spec_u64_of(s@) {
            Option::Some(n) => if n > 255 {
                Err(Error::Decoding)
            } else {
                Ok(n as u8)
            },
            Option::None => Err(Error::Decoding),
        },
        _ => Err(Error::Decoding),
    }
}

pub(crate) fn req_u8_string(v: &JsonVal, key: &str) -> (r: Result<u8, Error>)
    ensures
        r == spec_req_u8_string(*v, key@),
{
    match jget(v, key) {
        Some(f) => match f {
            JsonVal::Text(s) => match parse_u64_str(s.as_str()) {
                Some(n) => {
                    if n > 255 {
                        Err(Error::Decoding)
                    } else {
                        Ok(n as u8)
                    }
                },
                None => Err(Error::Decoding),
            },
            _ => Err(Error::Decoding),
        },
        None => Err(Error::Decoding),
    }
}

/// An optional unsigned integer field: absent or null is none, a fitting
/// number is read, anything else is a decoding failure.
pub open spec fn spec_opt_u64(v: JsonVal, key: Seq<char>) -> Result<Option<u64>, Error> {
    match jfield(v, key) {
        Option::None => Ok(Option::None),
        Option::Some(JsonVal::Null) => Ok(Option::None),
        Option::Some(JsonVal::Num(s)) => match spec_u64_of(s@) {
            Option::Some(n) => Ok(Option::Some(n)),
            Option::None => Err(Error::Decoding),
        },
        _ => Err(Error::Decoding),
    }
}

pub(crate) fn opt_u64(v: &JsonVal, key: &str) -> (r: Result<Option<u64>, Error>)
    ensures
        r == spec_opt_u64(*v, key@),
{
    match jget(v, key) {
        Some(f) => match f {
            JsonVal::Null => Ok(None),
            JsonVal::Num(s) => match parse_u64_str(s.as_str()) {
                Some(n) => Ok(Some(n)),
                None => Err(Error::Decoding),
            },
            _ => Err(Error::Decoding),
        },
        None => Ok(None),
    }
}

/// What a trigger-source string on the wire denotes; the empty string stands
/// for no trigger.
pub open spec fn spec_trigger_of(s: Seq<char>) -> Result<Trigger, Error> {
    if s == "LastPrice"@ {
        Ok(Trigger::LastPrice)
    } else if s == "IndexPrice"@ {
        Ok(Trigger::IndexPrice)
    } else if s == Seq::<char>::empty() {
        Ok(Trigger::NoTrigger)
    } else {
        Err(Error::Decoding)
    }
}

/// Reads a wire trigger-source string.
pub fn trigger_of_string(s: &String) -> (r: Result<Trigger, Error>)
    ensures
        r == spec_trigger_of(s@),
{
    if s.eq(&String::from_str("LastPrice")) {
        Ok(Trigger::LastPrice)
    } else if s.eq(&String::from_str("IndexPrice")) {
        Ok(Trigger::IndexPrice)
    } else if s.eq(&String::new()) {
        Ok(Trigger::NoTrigger)
    } else {
        Err(Error::Decoding)
    }
}

/// What a position-status string on the wire denotes.
pub open spec fn spec_status_of(s: Seq<char>) -> Result<Status, Error> {
    if s == "Normal"@ {
        Ok(Status::Normal)
    } else if s == "Liq"@ {
        Ok(Status::Liquidation)
    } else if s == "Adl"@ {
        Ok(Status::AutoDeleveraging)
    } else {
        Err(Error::Decoding)
    }
}

/// Reads a wire position-status string.
pub fn status_of_string(s: &String) -> (r: Result<Status, Error>)
    ensures
        r == spec_status_of(s@),
{
    if s.eq(&String::from_str("Normal")) {
        Ok(Status::Normal)
    } else if s.eq(&String::from_str("Liq")) {
        Ok(Status::Liquidation)
    } else if s.eq(&String::from_str("Adl")) {
        Ok(Status::AutoDeleveraging)
    } else {
        Err(Error::Decoding)
    }
}

/// A required order-side field.
pub open spec fn spec_req_order(v: JsonVal, key: Seq<char>) -> Result<Order, Error> {
    match jfield(v, key) {
        Option::Some(JsonVal::Text(s)) => spec_order_of(s@),
        _ => Err(Error::Decoding),
    }
}

pub(crate) fn req_order(v: &JsonVal, key: &str) -> (r: Result<Order, Error>)
    ensures
        r == spec_req_order(*v, key@),
{
    match jget(v, key) {
        Some(f) => match f {
            JsonVal::Text(s) => order_of_string(s),
            _ => Err(Error::Decoding),
        },
        None => Err(Error::Decoding),
    }
}

/// A required tick-direction field.
pub open spec fn spec_req_tick(v: JsonVal, key: Seq<char>) -> Result<Tick, Error> {
    match jfield(v, key) {
        Option::Some(JsonVal::Text(s)) => spec_tick_of(s@),
        _ => Err(Error::Decoding),
    }
}

pub(crate) fn req_tick(v: &JsonVal, key: &str) -> (r: Result<Tick, Error>)
    ensures
        r == spec_req_tick(*v, key@),
{
    match jget(v, key) {
        Some(f) => match f {
            JsonVal::Text(s) => tick_of_string(s),
            _ => Err(Error::Decoding),
        },
        None => Err(Error::Decoding),
    }
}

/// A required trigger-source field.
pub open spec fn spec_req_trigger(v: JsonVal, key: Seq<char>) -> Result<Trigger, Error> {
    match jfield(v, key) {
        Option::Some(JsonVal::Text(s)) => spec_trigger_of(s@),
        _ => Err(Error::Decoding),
    }
}

pub(crate) fn req_trigger(v: &JsonVal, key: &str) -> (r: Result<Trigger, Error>)
    ensures
        r == spec_req_trigger(*v, key@),
{
    match jget(v, key) {
        Some(f) => match f {
            JsonVal::Text(s) => trigger_of_string(s),
            _ => Err(Error::Decoding),
        },
        None => Err(Error::Decoding),
    }
}

/// A required position-status field.
pub open spec fn spec_req_status(v: JsonVal, key: Seq<char>) -> Result<Status, Error> {
    match jfield(v, key) {
        Option::Some(JsonVal::Text(s)) => spec_status_of(s@),
        _ => Err(Error::Decoding),
    }
}

pub(crate) fn req_status(v: &JsonVal, key: &str) -> (r: Result<Status, Error>)
    ensures
        r == spec_req_status(*v, key@),
{
    match jget(v, key) {
        Some(f) => match f {
            JsonVal::Text(s) => status_of_string(s),
            _ => Err(Error::Decoding),
        },
        None => Err(Error::Decoding),
    }
}

} // verus!
