//! Trading domain values: sides, assets, symbols and timeframes.

use vstd::prelude::*;
use crate::text::{owned, str_eq};

verus! {

/// Direction of a position.
#[derive(Debug, Clone, Copy, PartialEq, Eq, Structural, Hash)]
pub enum Side {
    Long,
    Short,
}

/// The side that closes a position opened on `s`.
pub open spec fn opposite_side(s: Side) -> Side {
    match s {
        Side::Long => Side::Short,
        Side::Short => Side::Long,
    }
}

/// The exchange order-side name of a side.
pub open spec fn side_name(s: Side) -> Seq<char> {
    match s {
        Side::Long => "BUY"@,
        Side::Short => "SELL"@,
    }
}

impl Side {
    /// The opposite side.
    pub fn opposite(&self) -> (r: Self)
        ensures
            r == opposite_side(*self),
    {
        match self {
            Side::Long => Side::Short,
            Side::Short => Side::Long,
        }
    }

    /// The exchange order-side name: `BUY` for long, `SELL` for short.
    pub fn to_string(&self) -> (r: String)
        ensures
            r@ == side_name(*self),
    {
        match self {
            Side::Long => owned("BUY"),
            Side::Short => owned("SELL"),
        }
    }
}

/// Tradable assets.
#[derive(Debug, Clone, Copy, PartialEq, Eq, Structural, Hash)]
pub enum Asset {
    BTC,
    ETH,
    SOL,
    XRP,
    BNB,
    TRX,
    ADA,
    USDT,
    USDC,
}

/// The ticker of an asset.
pub open spec fn asset_name(a: Asset) -> Seq<char> {
    match a {
        Asset::BTC => "BTC"@,
        Asset::ETH => "ETH"@,
        Asset::SOL => "SOL"@,
        Asset::XRP => "XRP"@,
        Asset::BNB => "BNB"@,
        Asset::TRX => "TRX"@,
        Asset::ADA => "ADA"@,
        Asset::USDT => "USDT"@,
        Asset::USDC => "USDC"@,
    }
}

impl Asset {
    /// The ticker of the asset.
    pub fn to_string(&self) -> (r: String)
        ensures
            r@ == asset_name(*self),
    {
        match self {
            Asset::BTC => owned("BTC"),
            Asset::ETH => owned("ETH"),
            Asset::SOL => owned("SOL"),
            Asset::XRP => owned("XRP"),
            Asset::BNB => owned("BNB"),
            Asset::TRX => owned("TRX"),
            Asset::ADA => owned("ADA"),
            Asset::USDT => owned("USDT"),
            Asset::USDC => owned("USDC"),
        }
    }
}

/// A trading pair: the base asset quoted in the quote asset.
#[derive(Debug, Clone, Copy, PartialEq, Eq, Structural, Hash)]
pub struct Symbol {
    pub base: Asset,
    pub quote: Asset,
}

/// The exchange name of a symbol: base ticker followed by quote ticker.
pub open spec fn symbol_name(s: Symbol) -> Seq<char> {
    asset_name(s.base) + asset_name(s.quote)
}

impl Symbol {
    /// The pair of `base` quoted in `quote`.
    pub fn new(base: Asset, quote: Asset) -> (r: Self)
        ensures
            r.base == base,
            r.quote == quote,
    {
        Symbol { base, quote }
    }

    /// The exchange name of the symbol, such as `BTCUSDT`.
    pub fn to_string(&self) -> (r: String)
        ensures
            r@ == symbol_name(*self),
    {
        let mut r = self.base.to_string();
        let q = self.quote.to_string();
        r.append(q.as_str());
        r
    }
}

/// Candle timeframes a signal may be issued on.
#[derive(Debug, Clone, Copy, PartialEq, Eq, Structural, Hash)]
pub enum Timeframe {
    M30,
    H1,
    H2,
    H4,
}

/// The short name of a timeframe.
pub open spec fn timeframe_name(t: Timeframe) -> Seq<char> {
    match t {
        Timeframe::M30 => "30m"@,
        Timeframe::H1 => "1h"@,
        Timeframe::H2 => "2h"@,
        Timeframe::H4 => "4h"@,
    }
}

/// The timeframe named by `s`, if any.
pub open spec fn timeframe_named(s: Seq<char>) -> Option<Timeframe> {
    if s == "30m"@ {
        Some(Timeframe::M30)
    } else if s == "1h"@ {
        Some(Timeframe::H1)
    } else if s == "2h"@ {
        Some(Timeframe::H2)
    } else if s == "4h"@ {
        Some(Timeframe::H4)
    } else {
        None
    }
}

impl Timeframe {
    /// Parses `30m`, `1h`, `2h` or `4h`; any other text gives `None`.
    pub fn parse(input: &str) -> (r: Option<Self>)
        ensures
            r == timeframe_named(input@),
    {
        if str_eq(input, "30m") {
            Some(Timeframe::M30)
        } else if str_eq(input, "1h") {
            Some(Timeframe::H1)
        } else if str_eq(input, "2h") {
            Some(Timeframe::H2)
        } else if str_eq(input, "4h") {
            Some(Timeframe::H4)
        } else {
            None
        }
    }

    /// The short name of the timeframe.
    pub fn to_string(&self) -> (r: String)
        ensures
            r@ == timeframe_name(*self),
    {
        match self {
            Timeframe::M30 => owned("30m"),
            Timeframe::H1 => owned("1h"),
            Timeframe::H2 => owned("2h"),
            Timeframe::H4 => owned("4h"),
        }
    }
}

/// Taking the opposite side twice gives back the side, and the opposite
/// side always differs from the side.
pub proof fn lemma_opposite_involution(s: Side)
    ensures
        opposite_side(opposite_side(s)) == s,
        opposite_side(s) != s,
{
}

/// Parsing the name of a timeframe gives back that timeframe.
pub proof fn lemma_timeframe_name_roundtrip(t: Timeframe)
    ensures
        timeframe_named(timeframe_name(t)) == Some(t),
{
    reveal_strlit("30m");
    reveal_strlit("1h");
    reveal_strlit("2h");
    reveal_strlit("4h");
    assert("30m"@.len() == 3 && "1h"@.len() == 2 && "2h"@.len() == 2 && "4h"@.len() == 2);
    assert("1h"@[0] != "2h"@[0] && "1h"@[0] != "4h"@[0] && "2h"@[0] != "4h"@[0]);
}

} // verus!

verus! {

/// Why the execution policy refused a trade intent.
#[derive(Debug, Clone, Copy, PartialEq, Eq, Structural)]
pub enum RejectionReason {
    SymbolNotAllowed,
    BlockedSession,
    BlockedWeekday,
}

} // verus!

verus! {

/// Where a signal came from.
#[derive(Debug, Clone, Copy, PartialEq, Eq, Structural)]
pub enum SignalSource {
    Telegram,
    Http,
    Replay,
    Manual,
}

/// A signal text received from a source.
#[derive(Debug, Clone)]
pub struct SignalReceivedEvent {
    pub source: SignalSource,
    pub external_id: Option<String>,
    pub text: String,
}

/// An event entering the engine.
#[derive(Debug, Clone)]
pub enum IngressEvent {
    SignalReceived(SignalReceivedEvent),
}

/// A universally unique identifier, as the `uuid` crate represents it.
#[verifier::external_type_specification]
#[verifier::external_body]
pub struct ExUuid(uuid::Uuid);

/// `Uuid` is `Copy`, and its derived `clone` returns the identifier itself.
pub assume_specification[ <uuid::Uuid as core::clone::Clone>::clone ](u: &uuid::Uuid) -> (r:
    uuid::Uuid)
    ensures
        r == *u,
;

/// Draws a random identifier with `uuid::Uuid::new_v4`; nothing is stated
/// of the value drawn.
#[verifier::external_body]
fn new_intent_id() -> uuid::Uuid {
    uuid::Uuid::new_v4()
}

/// A trade the engine intends to make, with prices of type `P`.
#[derive(Debug, Clone)]
pub struct TradeIntent<P> {
    pub intent_id: uuid::Uuid,
    pub symbol: Symbol,
    pub side: Side,
    pub entry: P,
    pub targets: Vec<P>,
    pub timeframe: Timeframe,
    pub stop_loss: P,
}

/// A trade intent the execution policy approved.
#[derive(Debug, Clone)]
pub struct ApprovedTrade<P> {
    pub trade_intent: TradeIntent<P>,
}

/// A trade intent the execution policy refused, and why.
#[derive(Debug, Clone)]
pub struct RejectedTrade<P> {
    pub trade_intent: TradeIntent<P>,
    pub reason: RejectionReason,
}

/// The part of a trade intent that its builder still lacks.
#[derive(Debug, Clone, Copy, PartialEq, Eq, Structural)]
pub enum TradeIntentError {
    MissingSide,
    MissingEntry,
    MissingTargets,
    MissingTimeframe,
    MissingStopLoss,
}

/// The text of a builder error.
pub open spec fn trade_intent_error_text(e: TradeIntentError) -> Seq<char> {
    match e {
        TradeIntentError::MissingSide => "Side is missing"@,
        TradeIntentError::MissingEntry => "Entry price is missing"@,
        TradeIntentError::MissingTargets => "Targets are missing"@,
        TradeIntentError::MissingTimeframe => "Timeframe is missing"@,
        TradeIntentError::MissingStopLoss => "Stop loss is missing"@,
    }
}

impl TradeIntentError {
    /// The error's text, such as `Side is missing`.
    pub fn to_string(&self) -> (r: String)
        ensures
            r@ == trade_intent_error_text(*self),
    {
        match self {
            TradeIntentError::MissingSide => owned("Side is missing"),
            TradeIntentError::MissingEntry => owned("Entry price is missing"),
            TradeIntentError::MissingTargets => owned("Targets are missing"),
            TradeIntentError::MissingTimeframe => owned("Timeframe is missing"),
            TradeIntentError::MissingStopLoss => owned("Stop loss is missing"),
        }
    }
}

/// Gathers the parts of a trade intent for a symbol.
pub struct TradeIntentBuilder<P> {
    symbol: Symbol,
    side: Option<Side>,
    entry: Option<P>,
    targets: Option<Vec<P>>,
    timeframe: Option<Timeframe>,
    stop_loss: Option<P>,
}

impl<P> TradeIntent<P> {
    /// A builder for an intent on `symbol` with no other part set.
    pub fn builder(symbol: Symbol) -> (r: TradeIntentBuilder<P>)
        ensures
            r.symbol_set() == symbol,
            r.side_set() is None,
            r.entry_set() is None,
            r.targets_set() is None,
            r.timeframe_set() is None,
            r.stop_loss_set() is None,
    {
        TradeIntentBuilder {
            symbol,
            side: None,
            entry: None,
            targets: None,
            timeframe: None,
            stop_loss: None,
        }
    }
}

impl<P> TradeIntentBuilder<P> {
    /// The symbol of the intent being built.
    pub closed spec fn symbol_set(&self) -> Symbol {
        self.symbol
    }

    /// The side set so far.
    pub closed spec fn side_set(&self) -> Option<Side> {
        self.side
    }

    /// The entry set so far.
    pub closed spec fn entry_set(&self) -> Option<P> {
        self.entry
    }

    /// The targets set so far.
    pub closed spec fn targets_set(&self) -> Option<Seq<P>> {
        match self.targets {
            Some(t) => Some(t@),
            None => None,
        }
    }

    /// The timeframe set so far.
    pub closed spec fn timeframe_set(&self) -> Option<Timeframe> {
        self.timeframe
    }

    /// The stop loss set so far.
    pub closed spec fn stop_loss_set(&self) -> Option<P> {
        self.stop_loss
    }

    /// The first part missing, in the order side, entry, targets, timeframe,
    /// stop loss.
    pub open spec fn first_missing(&self) -> Option<TradeIntentError> {
        if self.side_set() is None {
            Some(TradeIntentError::MissingSide)
        } else if self.entry_set() is None {
            Some(TradeIntentError::MissingEntry)
        } else if self.targets_set() is None {
            Some(TradeIntentError::MissingTargets)
        } else if self.timeframe_set() is None {
            Some(TradeIntentError::MissingTimeframe)
        } else if self.stop_loss_set() is None {
            Some(TradeIntentError::MissingStopLoss)
        } else {
            None
        }
    }

    /// Sets the side.
    pub fn side(self, side: Side) -> (r: Self)
        ensures
            r.side_set() == Some(side),
            r.symbol_set() == self.symbol_set(),
            r.entry_set() == self.entry_set(),
            r.targets_set() == self.targets_set(),
            r.timeframe_set() == self.timeframe_set(),
            r.stop_loss_set() == self.stop_loss_set(),
    {
        TradeIntentBuilder { side: Some(side), ..self }
    }

    /// Sets the entry price.
    pub fn entry(self, entry: P) -> (r: Self)
        ensures
            r.entry_set() == Some(entry),
            r.symbol_set() == self.symbol_set(),
            r.side_set() == self.side_set(),
            r.targets_set() == self.targets_set(),
            r.timeframe_set() == self.timeframe_set(),
            r.stop_loss_set() == self.stop_loss_set(),
    {
        TradeIntentBuilder { entry: Some(entry), ..self }
    }

    /// Sets the stop-loss price.
    pub fn stop_loss(self, stop_loss: P) -> (r: Self)
        ensures
            r.stop_loss_set() == Some(stop_loss),
            r.symbol_set() == self.symbol_set(),
            r.side_set() == self.side_set(),
            r.entry_set() == self.entry_set(),
            r.targets_set() == self.targets_set(),
            r.timeframe_set() == self.timeframe_set(),
    {
        TradeIntentBuilder { stop_loss: Some(stop_loss), ..self }
    }

    /// Sets the take-profit targets to a copy of `targets`.
    pub fn targets(self, targets: &[P]) -> (r: Self) where P: Copy
        ensures
            r.targets_set() == Some(targets@),
            r.symbol_set() == self.symbol_set(),
            r.side_set() == self.side_set(),
            r.entry_set() == self.entry_set(),
            r.timeframe_set() == self.timeframe_set(),
            r.stop_loss_set() == self.stop_loss_set(),
    {
        TradeIntentBuilder { targets: Some(vstd::slice::slice_to_vec(targets)), ..self }
    }

    /// Sets the timeframe.
    pub fn timeframe(self, timeframe: Timeframe) -> (r: Self)
        ensures
            r.timeframe_set() == Some(timeframe),
            r.symbol_set() == self.symbol_set(),
            r.side_set() == self.side_set(),
            r.entry_set() == self.entry_set(),
            r.targets_set() == self.targets_set(),
            r.stop_loss_set() == self.stop_loss_set(),
    {
        TradeIntentBuilder { timeframe: Some(timeframe), ..self }
    }

    /// The intent, under a fresh random identifier, once every part is set;
    /// else the first part missing.
    pub fn build(self) -> (r: Result<TradeIntent<P>, TradeIntentError>)
        ensures
            match r {
                Ok(t) => self.first_missing() is None && t.symbol == self.symbol_set() && Some(t.side)
                    == self.side_set() && Some(t.entry) == self.entry_set() && Some(t.targets@)
                    == self.targets_set() && Some(t.timeframe) == self.timeframe_set() && Some(
                    t.stop_loss,
                ) == self.stop_loss_set(),
                Err(e) => self.first_missing() == Some(e),
            },
    {
        let side = match self.side {
            Some(s) => s,
            None => return Err(TradeIntentError::MissingSide),
        };
        let entry = match self.entry {
            Some(e) => e,
            None => return Err(TradeIntentError::MissingEntry),
        };
        let targets = match self.targets {
            Some(t) => t,
            None => return Err(TradeIntentError::MissingTargets),
        };
        let timeframe = match self.timeframe {
            Some(t) => t,
            None => return Err(TradeIntentError::MissingTimeframe),
        };
        let stop_loss = match self.stop_loss {
            Some(s) => s,
            None => return Err(TradeIntentError::MissingStopLoss),
        };
        Ok(
            TradeIntent {
                intent_id: new_intent_id(),
                symbol: self.symbol,
                side,
                entry,
                targets,
                timeframe,
                stop_loss,
            },
        )
    }
}

/// A builder with every part set lacks none, so that `build` succeeds on it.
pub proof fn lemma_complete_builder_builds<P>(b: TradeIntentBuilder<P>)
    requires
        b.side_set() is Some,
        b.entry_set() is Some,
        b.targets_set() is Some,
        b.timeframe_set() is Some,
        b.stop_loss_set() is Some,
    ensures
        b.first_missing() is None,
{
}

} // verus!
