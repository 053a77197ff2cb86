use vstd::prelude::*;

use crate::timefmt::UtcTime;

verus! {

/// The exchanges a packet can come from.
#[derive(Clone, Copy, Debug, PartialEq, Eq, Structural)]
pub enum ExchangeEnum {
    Huobi,
    Binance,
}

/// The label that `ExchangeEnum::as_str` gives each exchange.
pub open spec fn exchange_label(e: ExchangeEnum) -> Seq<char> {
    match e {
        ExchangeEnum::Huobi => "Houbi"@,
        ExchangeEnum::Binance => "Binance"@,
    }
}

impl ExchangeEnum {
    /// The exchange's label. `Huobi` is labelled "Houbi".
    pub fn as_str(&self) -> (s: &'static str)
        ensures
            s@ == exchange_label(*self),
    {
        match *self {
            ExchangeEnum::Huobi => "Houbi",
            ExchangeEnum::Binance => "Binance",
        }
    }
}

/// The traded symbol pairs.
#[derive(Clone, Copy, Debug, PartialEq, Eq, Structural)]
pub enum SymbolEnum {
    BTCUSD,
    ETHUSD,
}

/// The label that `SymbolEnum::as_str` gives each pair.
pub open spec fn symbol_label(s: SymbolEnum) -> Seq<char> {
    match s {
        SymbolEnum::BTCUSD => "BTCUSD"@,
        SymbolEnum::ETHUSD => "ETHUSD"@,
    }
}

impl SymbolEnum {
    /// The pair's label.
    pub fn as_str(&self) -> (s: &'static str)
        ensures
            s@ == symbol_label(*self),
    {
        match *self {
            SymbolEnum::BTCUSD => "BTCUSD",
            SymbolEnum::ETHUSD => "ETHUSD",
        }
    }
}

/// An incremental market update. Each side's `(price, amount)` levels are
/// held as the JSON text they serialize to (`[[price,amount],...]`), or
/// `None` where they could not be serialized.
#[derive(Debug)]
pub struct MarketIncremental {
    pub asks: Option<String>,
    pub bids: Option<String>,
}

/// A refresh of the best bid and ask levels, held as `MarketIncremental` holds them.
#[derive(Debug)]
pub struct RefreshBidAsk {
    pub asks: Option<String>,
    pub bids: Option<String>,
}

/// The payload of a packet.
#[derive(Debug)]
pub enum DataEnum {
    MBP(MarketIncremental),
    RBA(RefreshBidAsk),
}

impl DataEnum {
    /// The ask levels of either kind of payload.
    pub open spec fn spec_asks(self) -> Option<String> {
        match self {
            DataEnum::MBP(m) => m.asks,
            DataEnum::RBA(r) => r.asks,
        }
    }

    /// The bid levels of either kind of payload.
    pub open spec fn spec_bids(self) -> Option<String> {
        match self {
            DataEnum::MBP(m) => m.bids,
            DataEnum::RBA(r) => r.bids,
        }
    }

    /// The ask levels of either kind of payload.
    pub fn asks(&self) -> (r: &Option<String>)
        ensures
            *r == self.spec_asks(),
            self matches DataEnum::MBP(m) ==> *r == m.asks,
            self matches DataEnum::RBA(b) ==> *r == b.asks,
    {
        match self {
            DataEnum::MBP(m) => &m.asks,
            DataEnum::RBA(r) => &r.asks,
        }
    }

    /// The bid levels of either kind of payload.
    pub fn bids(&self) -> (r: &Option<String>)
        ensures
            *r == self.spec_bids(),
            self matches DataEnum::MBP(m) ==> *r == m.bids,
            self matches DataEnum::RBA(b) ==> *r == b.bids,
    {
        match self {
            DataEnum::MBP(m) => &m.bids,
            DataEnum::RBA(r) => &r.bids,
        }
    }
}

/// Each kind of payload reports its own fields: the asks of an incremental
/// update or of a refresh are that payload's `asks`, and its bids are its
/// `bids`; neither side ever stands in for the other.
pub proof fn law_payload_sides(m: MarketIncremental, r: RefreshBidAsk)
    ensures
        DataEnum::MBP(m).spec_asks() == m.asks,
        DataEnum::MBP(m).spec_bids() == m.bids,
        DataEnum::RBA(r).spec_asks() == r.asks,
        DataEnum::RBA(r).spec_bids() == r.bids,
{
}

/// The JSON text of a side's levels, `[]` where they could not be serialized.
pub open spec fn levels_text(levels: Option<String>) -> Seq<char> {
    match levels {
        Some(s) => s@,
        None => "[]"@,
    }
}

/// The JSON text of a side's levels, `[]` where they could not be serialized.
pub fn levels_or_empty(levels: &Option<String>) -> (r: String)
    ensures
        r@ == levels_text(*levels),
{
    match levels {
        Some(s) => s.clone(),
        None => crate::text::owned("[]"),
    }
}

/// One update sent by a producer to the ingesting side.
#[derive(Debug)]
pub struct DataPacket {
    pub data: DataEnum,
    pub exchange: ExchangeEnum,
    pub symbol_pair: SymbolEnum,
    pub channel: String,
    pub timestamp: i64,
}

/// One buffered record for the AWS upload path: a JSON text and when it was stored.
#[derive(Debug)]
pub struct AWSData {
    pub json: String,
    pub timestamp: UtcTime,
}

} // verus!
