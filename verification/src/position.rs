use vstd::prelude::*;
use crate::decimal::Decimal;
use crate::enums::{Order, Status, Trigger};
use crate::error::Error;
use crate::fields::{
    req_bool, req_decimal_string, req_order, req_status, req_string, req_trigger, req_u64,
    req_u8_of_u64, req_u8_string, spec_req_bool, spec_req_decimal_string, spec_req_order,
    spec_req_status, spec_req_trigger, spec_req_u64, spec_req_u8_of_u64, spec_req_u8_string,
};
use crate::json::{jfield, jget, JsonVal};

verus! {

/// Latest account position snapshot. Monetary fields arrive as decimal
/// strings and are held as fixed-point values.
pub struct Position {
    pub user_id: u64,
    pub symbol: String,
    pub side: Order,
    pub size: u64,
    pub position_value: Decimal,
    pub entry_price: Decimal,
    pub liq_price: Decimal,
    pub bust_price: Decimal,
    pub leverage: u8,
    pub order_margin: u8,
    pub position_margin: u8,
    pub available_balance: Decimal,
    pub take_profit: Decimal,
    pub tp_trigger_by: Trigger,
    pub stop_loss: Decimal,
    pub sl_trigger_by: Trigger,
    pub realised_pnl: Decimal,
    pub trailing_stop: Decimal,
    pub trailing_active: Decimal,
    pub wallet_balance: Decimal,
    pub risk_id: u64,
    pub is_isolated: bool,
    pub occ_closing_fee: Decimal,
    pub occ_funding_fee: Decimal,
    pub auto_add_margin: u8,
    pub cum_realised_pnl: Decimal,
    pub position_status: Status,
}

impl Position {
    /// A field-for-field copy.
    pub fn duplicate(&self) -> (r: Position)
        ensures
            r == *self,
    {
        Position {
            user_id: self.user_id,
            symbol: self.symbol.clone(),
            side: self.side,
            size: self.size,
            position_value: self.position_value,
            entry_price: self.entry_price,
            liq_price: self.liq_price,
            bust_price: self.bust_price,
            leverage: self.leverage,
            order_margin: self.order_margin,
            position_margin: self.position_margin,
            available_balance: self.available_balance,
            take_profit: self.take_profit,
            tp_trigger_by: self.tp_trigger_by,
            stop_loss: self.stop_loss,
            sl_trigger_by: self.sl_trigger_by,
            realised_pnl: self.realised_pnl,
            trailing_stop: self.trailing_stop,
            trailing_active: self.trailing_active,
            wallet_balance: self.wallet_balance,
            risk_id: self.risk_id,
            is_isolated: self.is_isolated,
            occ_closing_fee: self.occ_closing_fee,
            occ_funding_fee: self.occ_funding_fee,
            auto_add_margin: self.auto_add_margin,
            cum_realised_pnl: self.cum_realised_pnl,
            position_status: self.position_status,
        }
    }
}

/// What a position payload denotes: every field is required, and a missing
/// or ill-shaped one is a decoding failure. The shorthand below names each
/// strict reader once; the record is built only when every field reads.
pub open spec fn spec_parse_position(v: JsonVal) -> Result<Position, Error> {
    match jfield(v, "symbol"@) {
        Option::Some(JsonVal::Text(symbol)) => if spec_req_u64(v, "user_id"@) is Ok && spec_req_order(
            v,
            "side"@,
        ) is Ok && spec_req_u64(v, "size"@) is Ok && spec_req_decimal_string(v, "position_value"@)
            is Ok && spec_req_decimal_string(v, "entry_price"@) is Ok && spec_req_decimal_string(
            v,
            "liq_price"@,
        ) is Ok && spec_req_decimal_string(v, "bust_price"@) is Ok && spec_req_u8_string(
            v,
            "leverage"@,
        ) is Ok && spec_req_u8_string(v, "order_margin"@) is Ok && spec_req_u8_string(
            v,
            "position_margin"@,
        ) is Ok && spec_req_decimal_string(v, "available_balance"@) is Ok
            && spec_req_decimal_string(v, "take_profit"@) is Ok && spec_req_trigger(
            v,
            "tp_trigger_by"@,
        ) is Ok && spec_req_decimal_string(v, "stop_loss"@) is Ok && spec_req_trigger(
            v,
            "sl_trigger_by"@,
        ) is Ok && spec_req_decimal_string(v, "realised_pnl"@) is Ok && spec_req_decimal_string(
            v,
            "trailing_stop"@,
        ) is Ok && spec_req_decimal_string(v, "trailing_active"@) is Ok
            && spec_req_decimal_string(v, "wallet_balance"@) is Ok && spec_req_u64(v, "risk_id"@)
            is Ok && spec_req_bool(v, "is_isolated"@) is Ok && spec_req_decimal_string(
            v,
            "occ_closing_fee"@,
        ) is Ok && spec_req_decimal_string(v, "occ_funding_fee"@) is Ok && spec_req_u8_of_u64(
            v,
            "auto_add_margin"@,
        ) is Ok && spec_req_decimal_string(v, "cum_realised_pnl"@) is Ok && spec_req_status(
            v,
            "position_status"@,
        ) is Ok {
            Ok(
                Position {
                    user_id: spec_req_u64(v, "user_id"@)->Ok_0,
                    symbol,
                    side: spec_req_order(v, "side"@)->Ok_0,
                    size: spec_req_u64(v, "size"@)->Ok_0,
                    position_value: spec_req_decimal_string(v, "position_value"@)->Ok_0,
                    entry_price: spec_req_decimal_string(v, "entry_price"@)->Ok_0,
                    liq_price: spec_req_decimal_string(v, "liq_price"@)->Ok_0,
                    bust_price: spec_req_decimal_string(v, "bust_price"@)->Ok_0,
                    leverage: spec_req_u8_string(v, "leverage"@)->Ok_0,
                    order_margin: spec_req_u8_string(v, "order_margin"@)->Ok_0,
                    position_margin: spec_req_u8_string(v, "position_margin"@)->Ok_0,
                    available_balance: spec_req_decimal_string(v, "available_balance"@)->Ok_0,
                    take_profit: spec_req_decimal_string(v, "take_profit"@)->Ok_0,
                    tp_trigger_by: spec_req_trigger(v, "tp_trigger_by"@)->Ok_0,
                    stop_loss: spec_req_decimal_string(v, "stop_loss"@)->Ok_0,
                    sl_trigger_by: spec_req_trigger(v, "sl_trigger_by"@)->Ok_0,
                    realised_pnl: spec_req_decimal_string(v, "realised_pnl"@)->Ok_0,
                    trailing_stop: spec_req_decimal_string(v, "trailing_stop"@)->Ok_0,
                    trailing_active: spec_req_decimal_string(v, "trailing_active"@)->Ok_0,
                    wallet_balance: spec_req_decimal_string(v, "wallet_balance"@)->Ok_0,
                    risk_id: spec_req_u64(v, "risk_id"@)->Ok_0,
                    is_isolated: spec_req_bool(v, "is_isolated"@)->Ok_0,
                    occ_closing_fee: spec_req_decimal_string(v, "occ_closing_fee"@)->Ok_0,
                    occ_funding_fee: spec_req_decimal_string(v, "occ_funding_fee"@)->Ok_0,
                    auto_add_margin: spec_req_u8_of_u64(v, "auto_add_margin"@)->Ok_0,
                    cum_realised_pnl: spec_req_decimal_string(v, "cum_realised_pnl"@)->Ok_0,
                    position_status: spec_req_status(v, "position_status"@)->Ok_0,
                },
            )
        } else {
            Err(Error::Decoding)
        },
        _ => Err(Error::Decoding),
    }
}

/// Reads a position payload.
#[verifier::rlimit(100)]
pub(crate) fn parse_position(v: &JsonVal) -> (r: Result<Position, Error>)
    ensures
        r matches Ok(p) ==> spec_parse_position(*v) matches Ok(q) && p == q,
        r matches Err(e) ==> spec_parse_position(*v) is Err && e == Error::Decoding,
{
    let user_id = match req_u64(v, "user_id") {
        Ok(x) => x,
        Err(e) => {
            return Err(e);
        },
    };
    let symbol = match jget(v, "symbol") {
        Some(f) => match f {
            JsonVal::Text(s) => s.clone(),
            _ => {
                return Err(Error::Decoding);
            },
        },
        None => {
            return Err(Error::Decoding);
        },
    };
    let side = match req_order(v, "side") {
        Ok(o) => o,
        Err(e) => {
            return Err(e);
        },
    };
    let size = match req_u64(v, "size") {
        Ok(x) => x,
        Err(e) => {
            return Err(e);
        },
    };
    let position_value = match req_decimal_string(v, "position_value") {
        Ok(x) => x,
        Err(e) => {
            return Err(e);
        },
    };
    let entry_price = match req_decimal_string(v, "entry_price") {
        Ok(x) => x,
        Err(e) => {
            return Err(e);
        },
    };
    let liq_price = match req_decimal_string(v, "liq_price") {
        Ok(x) => x,
        Err(e) => {
            return Err(e);
        },
    };
    let bust_price = match req_decimal_string(v, "bust_price") {
        Ok(x) => x,
        Err(e) => {
            return Err(e);
        },
    };
    let leverage = match req_u8_string(v, "leverage") {
        Ok(x) => x,
        Err(e) => {
            return Err(e);
        },
    };
    let order_margin = match req_u8_string(v, "order_margin") {
        Ok(x) => x,
        Err(e) => {
            return Err(e);
        },
    };
    let position_margin = match req_u8_string(v, "position_margin") {
        Ok(x) => x,
        Err(e) => {
            return Err(e);
        },
    };
    let available_balance = match req_decimal_string(v, "available_balance") {
        Ok(x) => x,
        Err(e) => {
            return Err(e);
        },
    };
    let take_profit = match req_decimal_string(v, "take_profit") {
        Ok(x) => x,
        Err(e) => {
            return Err(e);
        },
    };
    let tp_trigger_by = match req_trigger(v, "tp_trigger_by") {
        Ok(x) => x,
        Err(e) => {
            return Err(e);
        },
    };
    let stop_loss = match req_decimal_string(v, "stop_loss") {
        Ok(x) => x,
        Err(e) => {
            return Err(e);
        },
    };
    let sl_trigger_by = match req_trigger(v, "sl_trigger_by") {
        Ok(x) => x,
        Err(e) => {
            return Err(e);
        },
    };
    let realised_pnl = match req_decimal_string(v, "realised_pnl") {
        Ok(x) => x,
        Err(e) => {
            return Err(e);
        },
    };
    let trailing_stop = match req_decimal_string(v, "trailing_stop") {
        Ok(x) => x,
        Err(e) => {
            return Err(e);
        },
    };
    let trailing_active = match req_decimal_string(v, "trailing_active") {
        Ok(x) => x,
        Err(e) => {
            return Err(e);
        },
    };
    let wallet_balance = match req_decimal_string(v, "wallet_balance") {
        Ok(x) => x,
        Err(e) => {
            return Err(e);
        },
    };
    let risk_id = match req_u64(v, "risk_id") {
        Ok(x) => x,
        Err(e) => {
            return Err(e);
        },
    };
    let is_isolated = match req_bool(v, "is_isolated") {
        Ok(x) => x,
        Err(e) => {
            return Err(e);
        },
    };
    let occ_closing_fee = match req_decimal_string(v, "occ_closing_fee") {
        Ok(x) => x,
        Err(e) => {
            return Err(e);
        },
    };
    let occ_funding_fee = match req_decimal_string(v, "occ_funding_fee") {
        Ok(x) => x,
        Err(e) => {
            return Err(e);
        },
    };
    let auto_add_margin = match req_u8_of_u64(v, "auto_add_margin") {
        Ok(x) => x,
        Err(e) => {
            return Err(e);
        },
    };
    let cum_realised_pnl = match req_decimal_string(v, "cum_realised_pnl") {
        Ok(x) => x,
        Err(e) => {
            return Err(e);
        },
    };
    let position_status = match req_status(v, "position_status") {
        Ok(x) => x,
        Err(e) => {
            return Err(e);
        },
    };
    Ok(
        Position {
            user_id,
            symbol,
            side,
            size,
            position_value,
            entry_price,
            liq_price,
            bust_price,
            leverage,
            order_margin,
            position_margin,
            available_balance,
            take_profit,
            tp_trigger_by,
            stop_loss,
            sl_trigger_by,
            realised_pnl,
            trailing_stop,
            trailing_active,
            wallet_balance,
            risk_id,
            is_isolated,
            occ_closing_fee,
            occ_funding_fee,
            auto_add_margin,
            cum_realised_pnl,
            position_status,
        },
    )
}

} // verus!
