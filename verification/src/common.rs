use vstd::prelude::*;

verus! {

/// API credentials: an access key and the secret the signer proves possession of.
#[derive(Debug)]
pub struct API {
    pub key: String,
    pub secret: String,
}

impl Clone for API {
    fn clone(&self) -> (r: Self)
        ensures
            r == *self,
    {
        API { key: self.key.clone(), secret: self.secret.clone() }
    }
}

/// Exchange environment; picks the base host for both transports.
#[derive(Clone, Copy, Debug, PartialEq, Eq, Structural)]
pub enum Endpoint {
    MAINNET,
    TESTNET,
}

impl Endpoint {
    /// Base URL of the request transport for this environment.
    pub open spec fn rest_host_spec(self) -> Seq<char> {
        match self {
            Endpoint::MAINNET => "https://api.bybit.com"@,
            Endpoint::TESTNET => "https://api-testnet.bybit.com"@,
        }
    }

    pub fn rest_host(&self) -> (r: &'static str)
        ensures
            r@ == self.rest_host_spec(),
    {
        match self {
            Endpoint::MAINNET => "https://api.bybit.com",
            Endpoint::TESTNET => "https://api-testnet.bybit.com",
        }
    }

    /// URL of the streaming transport for this environment.
    pub open spec fn stream_url_spec(self) -> Seq<char> {
        match self {
            Endpoint::MAINNET => "wss://stream.bybit.com/realtime"@,
            Endpoint::TESTNET => "wss://stream-testnet.bybit.com/realtime"@,
        }
    }

    pub fn stream_url(&self) -> (r: &'static str)
        ensures
            r@ == self.stream_url_spec(),
    {
        match self {
            Endpoint::MAINNET => "wss://stream.bybit.com/realtime",
            Endpoint::TESTNET => "wss://stream-testnet.bybit.com/realtime",
        }
    }
}

/// Order side of a request parameter.
#[derive(Clone, Copy, Debug, PartialEq, Eq, Structural)]
pub enum Side {
    Buy,
    Sell,
}

impl Default for Side {
    fn default() -> (r: Self)
        ensures
            r == Side::Buy,
    {
        Side::Buy
    }
}

impl Side {
    pub open spec fn wire_spec(self) -> Seq<char> {
        match self {
            Side::Buy => "Buy"@,
            Side::Sell => "Sell"@,
        }
    }

    pub fn to_string(&self) -> (r: String)
        ensures
            r@ == self.wire_spec(),
    {
        match self {
            Side::Buy => String::from_str("Buy"),
            Side::Sell => String::from_str("Sell"),
        }
    }
}

/// Trading pair understood by the exchange.
#[derive(Clone, Copy, Debug, PartialEq, Eq, Structural)]
pub enum Symbol {
    BTCUSD,
    ETHUSD,
    EOSUSD,
    XRPUSD,
    BTCUSDT,
    ETHUSDT,
    BCHUSDT,
}

impl Symbol {
    pub open spec fn wire_spec(self) -> Seq<char> {
        match self {
            Symbol::BTCUSD => "BTCUSD"@,
            Symbol::ETHUSD => "ETHUSD"@,
            Symbol::EOSUSD => "EOSUSD"@,
            Symbol::XRPUSD => "XRPUSD"@,
            Symbol::BTCUSDT => "BTCUSDT"@,
            Symbol::ETHUSDT => "ETHUSDT"@,
            Symbol::BCHUSDT => "BCHUSDT"@,
        }
    }

    pub fn to_string(&self) -> (r: String)
        ensures
            r@ == self.wire_spec(),
    {
        match self {
            Symbol::BTCUSD => String::from_str("BTCUSD"),
            Symbol::ETHUSD => String::from_str("ETHUSD"),
            Symbol::EOSUSD => String::from_str("EOSUSD"),
            Symbol::XRPUSD => String::from_str("XRPUSD"),
            Symbol::BTCUSDT => String::from_str("BTCUSDT"),
            Symbol::ETHUSDT => String::from_str("ETHUSDT"),
            Symbol::BCHUSDT => String::from_str("BCHUSDT"),
        }
    }
}

} // verus!
