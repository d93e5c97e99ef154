use vstd::prelude::*;
use crate::decimal::Decimal;
use crate::enums::Tick;
use crate::fields::{
    field_e4_or_zero, field_e6_or_zero, field_e8_or_zero, field_string_or_empty,
    field_tick_or_default, field_u64_or_zero, field_u8_or_zero, spec_field_e4, spec_field_e6,
    spec_field_e8, spec_field_string, spec_field_tick, spec_field_u64, spec_field_u8,
};
use crate::json::JsonVal;

verus! {

/// Latest ticker snapshot of one instrument. Price fields arrive as wire
/// integers with an implied exponent and are held as fixed-point values.
pub struct Instrument {
    pub symbol: String,
    pub last_price: Decimal,
    pub last_tick_direction: Tick,
    pub prev_price_24h: Decimal,
    pub price_24h_pcnt: Decimal,
    pub high_price_24h: Decimal,
    pub low_price_24h: Decimal,
    pub prev_price_1h: Decimal,
    pub price_1h_pcnt: Decimal,
    pub mark_price: Decimal,
    pub index_price: Decimal,
    pub open_interest: u64,
    pub total_turnover: Decimal,
    pub turnover_24h: Decimal,
    pub total_volume: u64,
    pub volume_24h: u64,
    pub predicted_funding_rate: Decimal,
    pub created_at: String,
    pub updated_at: String,
    pub next_funding_time: String,
    pub countdown_hour: u8,
}

/// Mathematical shape of an instrument record: strings as their characters,
/// everything else as itself.
#[verifier::ext_equal]
pub struct InstrumentView {
    pub symbol: Seq<char>,
    pub last_price: Decimal,
    pub last_tick_direction: Tick,
    pub prev_price_24h: Decimal,
    pub price_24h_pcnt: Decimal,
    pub high_price_24h: Decimal,
    pub low_price_24h: Decimal,
    pub prev_price_1h: Decimal,
    pub price_1h_pcnt: Decimal,
    pub mark_price: Decimal,
    pub index_price: Decimal,
    pub open_interest: u64,
    pub total_turnover: Decimal,
    pub turnover_24h: Decimal,
    pub total_volume: u64,
    pub volume_24h: u64,
    pub predicted_funding_rate: Decimal,
    pub created_at: Seq<char>,
    pub updated_at: Seq<char>,
    pub next_funding_time: Seq<char>,
    pub countdown_hour: u8,
}

impl View for Instrument {
    type V = InstrumentView;

    open spec fn view(&self) -> InstrumentView {
        InstrumentView {
            symbol: self.symbol@,
            last_price: self.last_price,
            last_tick_direction: self.last_tick_direction,
            prev_price_24h: self.prev_price_24h,
            price_24h_pcnt: self.price_24h_pcnt,
            high_price_24h: self.high_price_24h,
            low_price_24h: self.low_price_24h,
            prev_price_1h: self.prev_price_1h,
            price_1h_pcnt: self.price_1h_pcnt,
            mark_price: self.mark_price,
            index_price: self.index_price,
            open_interest: self.open_interest,
            total_turnover: self.total_turnover,
            turnover_24h: self.turnover_24h,
            total_volume: self.total_volume,
            volume_24h: self.volume_24h,
            predicted_funding_rate: self.predicted_funding_rate,
            created_at: self.created_at@,
            updated_at: self.updated_at@,
            next_funding_time: self.next_funding_time@,
            countdown_hour: self.countdown_hour,
        }
    }
}

impl Instrument {
    /// A field-for-field copy.
    pub fn duplicate(&self) -> (r: Instrument)
        ensures
            r == *self,
    {
        Instrument {
            symbol: self.symbol.clone(),
            last_price: self.last_price,
            last_tick_direction: self.last_tick_direction,
            prev_price_24h: self.prev_price_24h,
            price_24h_pcnt: self.price_24h_pcnt,
            high_price_24h: self.high_price_24h,
            low_price_24h: self.low_price_24h,
            prev_price_1h: self.prev_price_1h,
            price_1h_pcnt: self.price_1h_pcnt,
            mark_price: self.mark_price,
            index_price: self.index_price,
            open_interest: self.open_interest,
            total_turnover: self.total_turnover,
            turnover_24h: self.turnover_24h,
            total_volume: self.total_volume,
            volume_24h: self.volume_24h,
            predicted_funding_rate: self.predicted_funding_rate,
            created_at: self.created_at.clone(),
            updated_at: self.updated_at.clone(),
            next_funding_time: self.next_funding_time.clone(),
            countdown_hour: self.countdown_hour,
        }
    }
}

/// What a ticker payload denotes as a whole instrument record. The record is
/// replaced wholesale on every frame, so a field the frame omits stands at
/// that field's default rather than keeping its previous value.
pub open spec fn spec_parse_instrument(v: JsonVal) -> InstrumentView {
    InstrumentView {
        symbol: spec_field_string(v, "symbol"@),
        last_price: spec_field_e4(v, "last_price_e4"@),
        last_tick_direction: spec_field_tick(v, "last_tick_direction"@),
        prev_price_24h: spec_field_e4(v, "prev_price_24h_e4"@),
        price_24h_pcnt: spec_field_e6(v, "price_24h_pcnt_e6"@),
        high_price_24h: spec_field_e4(v, "high_price_24h_e4"@),
        low_price_24h: spec_field_e4(v, "low_price_24h_e4"@),
        prev_price_1h: spec_field_e4(v, "prev_price_1h_e4"@),
        price_1h_pcnt: spec_field_e6(v, "price_1h_pcnt_e6"@),
        mark_price: spec_field_e4(v, "mark_price_e4"@),
        index_price: spec_field_e4(v, "index_price_e4"@),
        open_interest: spec_field_u64(v, "open_interest"@),
        total_turnover: spec_field_e8(v, "total_turnover_e8"@),
        turnover_24h: spec_field_e8(v, "turnover_24h_e8"@),
        total_volume: spec_field_u64(v, "total_volume"@),
        volume_24h: spec_field_u64(v, "volume_24h"@),
        predicted_funding_rate: spec_field_e6(v, "predicted_funding_rate_e6"@),
        created_at: spec_field_string(v, "created_at"@),
        updated_at: spec_field_string(v, "updated_at"@),
        next_funding_time: spec_field_string(v, "next_funding_time"@),
        countdown_hour: spec_field_u8(v, "countdown_hour"@),
    }
}

/// Reads a ticker payload into a whole instrument record.
pub(crate) fn parse_instrument(v: &JsonVal) -> (r: Instrument)
    ensures
        r@ == spec_parse_instrument(*v),
{
    let r = Instrument {
        symbol: field_string_or_empty(v, "symbol"),
        last_price: field_e4_or_zero(v, "last_price_e4"),
        last_tick_direction: field_tick_or_default(v, "last_tick_direction"),
        prev_price_24h: field_e4_or_zero(v, "prev_price_24h_e4"),
        price_24h_pcnt: field_e6_or_zero(v, "price_24h_pcnt_e6"),
        high_price_24h: field_e4_or_zero(v, "high_price_24h_e4"),
        low_price_24h: field_e4_or_zero(v, "low_price_24h_e4"),
        prev_price_1h: field_e4_or_zero(v, "prev_price_1h_e4"),
        price_1h_pcnt: field_e6_or_zero(v, "price_1h_pcnt_e6"),
        mark_price: field_e4_or_zero(v, "mark_price_e4"),
        index_price: field_e4_or_zero(v, "index_price_e4"),
        open_interest: field_u64_or_zero(v, "open_interest"),
        total_turnover: field_e8_or_zero(v, "total_turnover_e8"),
        turnover_24h: field_e8_or_zero(v, "turnover_24h_e8"),
        total_volume: field_u64_or_zero(v, "total_volume"),
        volume_24h: field_u64_or_zero(v, "volume_24h"),
        predicted_funding_rate: field_e6_or_zero(v, "predicted_funding_rate_e6"),
        created_at: field_string_or_empty(v, "created_at"),
        updated_at: field_string_or_empty(v, "updated_at"),
        next_funding_time: field_string_or_empty(v, "next_funding_time"),
        countdown_hour: field_u8_or_zero(v, "countdown_hour"),
    };
    proof {
        assert(r@ =~= spec_parse_instrument(*v));
    }
    r
}

} // verus!
