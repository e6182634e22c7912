//! Execution rules: exchange and execution errors, take-profit target
//! selection and the validation rules of sizing and scheduled-entry settings.

use vstd::prelude::*;
use crate::domain::{symbol_name, Side, Symbol, Timeframe};
use crate::text::owned;
use vstd::string::StringSliceAdditionalSpecFns;

verus! {

/// An error reported by an exchange.
#[derive(Debug, Clone, PartialEq, Eq)]
pub enum ExchangeError {
    Network { message: String },
    Authentication { message: String },
    InvalidRequest { message: String },
    Rejected { message: String },
    RateLimited { message: String },
    Internal { message: String },
}

/// The text of an exchange error.
pub open spec fn exchange_error_text(e: ExchangeError) -> Seq<char> {
    match e {
        ExchangeError::Network { message } => "network error: "@ + message@,
        ExchangeError::Authentication { message } => "authentication error: "@ + message@,
        ExchangeError::InvalidRequest { message } => "invalid request: "@ + message@,
        ExchangeError::Rejected { message } => "exchange rejected request: "@ + message@,
        ExchangeError::RateLimited { message } => "rate limited: "@ + message@,
        ExchangeError::Internal { message } => "internal exchange error: "@ + message@,
    }
}

fn prefixed(prefix: &str, message: &String) -> (r: String)
    ensures
        r@ == prefix@ + message@,
{
    let mut r = owned(prefix);
    r.append(message.as_str());
    r
}

impl ExchangeError {
    /// The error's text, such as `network error: timed out`.
    pub fn to_string(&self) -> (r: String)
        ensures
            r@ == exchange_error_text(*self),
    {
        match self {
            ExchangeError::Network { message } => prefixed("network error: ", message),
            ExchangeError::Authentication { message } => prefixed(
                "authentication error: ",
                message,
            ),
            ExchangeError::InvalidRequest { message } => prefixed("invalid request: ", message),
            ExchangeError::Rejected { message } => prefixed("exchange rejected request: ", message),
            ExchangeError::RateLimited { message } => prefixed("rate limited: ", message),
            ExchangeError::Internal { message } => prefixed("internal exchange error: ", message),
        }
    }
}

/// An error while planning or executing a trade.
#[derive(Debug, Clone, PartialEq, Eq)]
pub enum ExecutionError {
    Exchange(ExchangeError),
    UnsupportedSymbol(Symbol),
    InvalidScheduledEntry { message: String },
    Internal { message: String },
}

/// The text of an execution error.
pub open spec fn execution_error_text(e: ExecutionError) -> Seq<char> {
    match e {
        ExecutionError::Exchange(inner) => "exchange error: "@ + exchange_error_text(inner),
        ExecutionError::UnsupportedSymbol(s) => "unsupported symbol: "@ + symbol_name(s),
        ExecutionError::InvalidScheduledEntry { message } => "invalid scheduled entry: "@
            + message@,
        ExecutionError::Internal { message } => "internal execution error: "@ + message@,
    }
}

impl ExecutionError {
    /// The error's text, such as `unsupported symbol: BTCUSDT`.
    pub fn to_string(&self) -> (r: String)
        ensures
            r@ == execution_error_text(*self),
    {
        match self {
            ExecutionError::Exchange(inner) => prefixed("exchange error: ", &inner.to_string()),
            ExecutionError::UnsupportedSymbol(s) => prefixed(
                "unsupported symbol: ",
                &s.to_string(),
            ),
            ExecutionError::InvalidScheduledEntry { message } => prefixed(
                "invalid scheduled entry: ",
                message,
            ),
            ExecutionError::Internal { message } => prefixed("internal execution error: ", message),
        }
    }
}

impl From<ExchangeError> for ExecutionError {
    fn from(e: ExchangeError) -> (r: Self) {
        ExecutionError::Exchange(e)
    }
}

impl vstd::std_specs::convert::FromSpecImpl<ExchangeError> for ExecutionError {
    open spec fn obeys_from_spec() -> bool {
        true
    }

    open spec fn from_spec(e: ExchangeError) -> Self {
        ExecutionError::Exchange(e)
    }
}

/// How the take-profit targets of a signal become orders.
#[derive(Debug, Clone, Copy, PartialEq, Eq, Structural)]
pub enum TpStrategy {
    /// Use only the second target, or the first where there is one only.
    Tp2Adjusted,
    /// `[tp1, tp2, tp3, ..]` gives `[tp2, tp3]`; `[tp1, tp2]` gives
    /// `[tp1, tp2]`; `[tp1]` gives `[tp1]`.
    Tp2Tp3Split,
    /// The targets exactly as received.
    Copied,
}

/// The targets that `strategy` keeps of `t`.
pub open spec fn resolved_targets<T>(strategy: TpStrategy, t: Seq<T>) -> Seq<T> {
    match strategy {
        TpStrategy::Tp2Adjusted => if t.len() >= 2 {
            seq![t[1]]
        } else if t.len() == 1 {
            seq![t[0]]
        } else {
            Seq::empty()
        },
        TpStrategy::Tp2Tp3Split => if t.len() >= 3 {
            seq![t[1], t[2]]
        } else if t.len() == 2 {
            seq![t[0], t[1]]
        } else if t.len() == 1 {
            seq![t[0]]
        } else {
            Seq::empty()
        },
        TpStrategy::Copied => t,
    }
}

/// The take-profit targets to place under `strategy`. The timeframe does
/// not change the choice.
pub fn resolve_tp_targets<T: Copy>(strategy: TpStrategy, targets: &[T], _timeframe: Timeframe) -> (r:
    Vec<T>)
    ensures
        r@ == resolved_targets(strategy, targets@),
{
    match strategy {
        TpStrategy::Tp2Adjusted => {
            let mut r: Vec<T> = Vec::new();
            if targets.len() >= 2 {
                r.push(targets[1]);
            } else if targets.len() == 1 {
                r.push(targets[0]);
            }
            assert(r@ =~= resolved_targets(strategy, targets@));
            r
        },
        TpStrategy::Tp2Tp3Split => {
            let mut r: Vec<T> = Vec::new();
            if targets.len() >= 3 {
                r.push(targets[1]);
                r.push(targets[2]);
            } else if targets.len() == 2 {
                r.push(targets[0]);
                r.push(targets[1]);
            } else if targets.len() == 1 {
                r.push(targets[0]);
            }
            assert(r@ =~= resolved_targets(strategy, targets@));
            r
        },
        TpStrategy::Copied => vstd::slice::slice_to_vec(targets),
    }
}

/// Whatever the strategy, the kept targets are targets of the signal, at
/// most two of them unless they are copied, and none is kept only when
/// there was none.
pub proof fn lemma_resolved_targets<T>(strategy: TpStrategy, t: Seq<T>)
    ensures
        forall|i: int|
            0 <= i < resolved_targets(strategy, t).len() ==> t.contains(
                #[trigger] resolved_targets(strategy, t)[i],
            ),
        strategy != TpStrategy::Copied ==> resolved_targets(strategy, t).len() <= 2,
        strategy == TpStrategy::Tp2Adjusted ==> resolved_targets(strategy, t).len() <= 1,
        (resolved_targets(strategy, t).len() == 0) == (t.len() == 0),
{
    assert forall|i: int| 0 <= i < resolved_targets(strategy, t).len() implies t.contains(
        #[trigger] resolved_targets(strategy, t)[i],
    ) by {
        let r = resolved_targets(strategy, t);
        if strategy == TpStrategy::Copied {
            assert(t[i] == r[i]);
        } else if t.len() >= 3 && strategy == TpStrategy::Tp2Tp3Split {
            assert(r[i] == t[i + 1]);
        } else if t.len() >= 2 && strategy == TpStrategy::Tp2Adjusted {
            assert(r[i] == t[1]);
        } else {
            assert(r[i] == t[i]);
        }
    }
}

/// Why a scheduled entry's settings are refused.
#[derive(Debug, Clone, Copy, PartialEq, Eq, Structural)]
pub enum ScheduledEntryError {
    ZeroChunks,
    ZeroDurationWithMultipleChunks,
    NonZeroDurationWithSingleChunk,
    InvalidStopLossPrice,
}

/// The verdict on a scheduled entry of `chunks` chunks over a duration that
/// is zero or not, with an optional stop loss that is above zero or not.
pub open spec fn scheduled_entry_verdict(
    chunks: u32,
    duration_is_zero: bool,
    stop_loss_above_zero: Option<bool>,
) -> Result<(), ScheduledEntryError> {
    if chunks == 0 {
        Err(ScheduledEntryError::ZeroChunks)
    } else if chunks > 1 && duration_is_zero {
        Err(ScheduledEntryError::ZeroDurationWithMultipleChunks)
    } else if chunks == 1 && !duration_is_zero {
        Err(ScheduledEntryError::NonZeroDurationWithSingleChunk)
    } else if stop_loss_above_zero == Some(false) {
        Err(ScheduledEntryError::InvalidStopLossPrice)
    } else {
        Ok(())
    }
}

/// Validates a scheduled entry: at least one chunk, a non-zero duration
/// exactly when there are several chunks, and a stop loss, when there is
/// one, above zero. The first rule broken is reported.
pub fn validate_scheduled_entry(
    chunks: u32,
    duration_is_zero: bool,
    stop_loss_above_zero: Option<bool>,
) -> (r: Result<(), ScheduledEntryError>)
    ensures
        r == scheduled_entry_verdict(chunks, duration_is_zero, stop_loss_above_zero),
{
    if chunks == 0 {
        return Err(ScheduledEntryError::ZeroChunks);
    }
    if chunks > 1 && duration_is_zero {
        return Err(ScheduledEntryError::ZeroDurationWithMultipleChunks);
    }
    if chunks == 1 && !duration_is_zero {
        return Err(ScheduledEntryError::NonZeroDurationWithSingleChunk);
    }
    if let Some(above_zero) = stop_loss_above_zero {
        if !above_zero {
            return Err(ScheduledEntryError::InvalidStopLossPrice);
        }
    }
    Ok(())
}

/// A scheduled entry is accepted exactly when it has one chunk and no
/// duration, or several chunks over a duration, and no stop loss at or
/// below zero.
pub proof fn lemma_scheduled_entry_accepted(
    chunks: u32,
    duration_is_zero: bool,
    stop_loss_above_zero: Option<bool>,
)
    ensures
        scheduled_entry_verdict(chunks, duration_is_zero, stop_loss_above_zero) is Ok <==> (
        chunks >= 1 && (chunks == 1 <==> duration_is_zero) && stop_loss_above_zero != Some(
            false,
        )),
{
}

/// The message of a refused margin sizing setting.
pub open spec fn margin_config_verdict(
    margin_pct_above_zero: bool,
    leverage_safety_in_unit_range: bool,
    max_leverage: u32,
) -> Result<(), Seq<char>> {
    if !margin_pct_above_zero {
        Err("margin_pct must be > 0"@)
    } else if !leverage_safety_in_unit_range {
        Err("leverage_safety must be in (0, 1]"@)
    } else if max_leverage == 0 {
        Err("max_leverage must be > 0"@)
    } else {
        Ok(())
    }
}

/// Validates margin sizing settings: a margin share above zero, a leverage
/// safety factor in (0, 1] and a maximum leverage above zero; the first
/// rule broken is reported as an internal execution error.
pub fn validate_margin_sizing(
    margin_pct_above_zero: bool,
    leverage_safety_in_unit_range: bool,
    max_leverage: u32,
) -> (r: Result<(), ExecutionError>)
    ensures
        match (r, margin_config_verdict(margin_pct_above_zero, leverage_safety_in_unit_range, max_leverage)) {
            (Ok(()), Ok(())) => true,
            (Err(ExecutionError::Internal { message }), Err(m)) => message@ == m,
            _ => false,
        },
{
    if !margin_pct_above_zero {
        return Err(ExecutionError::Internal { message: owned("margin_pct must be > 0") });
    }
    if !leverage_safety_in_unit_range {
        return Err(
            ExecutionError::Internal { message: owned("leverage_safety must be in (0, 1]") },
        );
    }
    if max_leverage == 0 {
        return Err(ExecutionError::Internal { message: owned("max_leverage must be > 0") });
    }
    Ok(())
}

/// The message of refused execution-plan inputs for `symbol`: the first of
/// entry, stop loss, portfolio equity and leverage safety factor that is out
/// of range.
pub open spec fn plan_inputs_verdict(
    symbol: Symbol,
    entry_above_zero: bool,
    stop_loss_above_zero: bool,
    equity_above_zero: bool,
    leverage_safety_in_unit_range: bool,
) -> Result<(), Seq<char>> {
    if !entry_above_zero {
        Err("entry must be > 0 for "@ + symbol_name(symbol))
    } else if !stop_loss_above_zero {
        Err("stop_loss must be > 0 for "@ + symbol_name(symbol))
    } else if !equity_above_zero {
        Err("portfolio_equity must be > 0"@)
    } else if !leverage_safety_in_unit_range {
        Err("leverage_safety must be in (0, 1]"@)
    } else {
        Ok(())
    }
}

/// Validates the inputs of an execution plan: entry, stop loss and portfolio
/// equity above zero and a leverage safety factor in (0, 1]; the first rule
/// broken is reported as an internal execution error.
pub fn validate_plan_inputs(
    symbol: &Symbol,
    entry_above_zero: bool,
    stop_loss_above_zero: bool,
    equity_above_zero: bool,
    leverage_safety_in_unit_range: bool,
) -> (r: Result<(), ExecutionError>)
    ensures
        match (
            r,
            plan_inputs_verdict(
                *symbol,
                entry_above_zero,
                stop_loss_above_zero,
                equity_above_zero,
                leverage_safety_in_unit_range,
            ),
        ) {
            (Ok(()), Ok(())) => true,
            (Err(ExecutionError::Internal { message }), Err(m)) => message@ == m,
            _ => false,
        },
{
    if !entry_above_zero {
        let mut message = owned("entry must be > 0 for ");
        message.append(symbol.to_string().as_str());
        return Err(ExecutionError::Internal { message });
    }
    if !stop_loss_above_zero {
        let mut message = owned("stop_loss must be > 0 for ");
        message.append(symbol.to_string().as_str());
        return Err(ExecutionError::Internal { message });
    }
    if !equity_above_zero {
        return Err(ExecutionError::Internal { message: owned("portfolio_equity must be > 0") });
    }
    if !leverage_safety_in_unit_range {
        return Err(
            ExecutionError::Internal { message: owned("leverage_safety must be in (0, 1]") },
        );
    }
    Ok(())
}

/// The message of refused instant-execution inputs for `symbol`: a quantity
/// that rounds to zero, no take-profit target, or a quantity too small for a
/// single take-profit order.
pub open spec fn instant_inputs_verdict(
    symbol: Symbol,
    quantity_above_zero: bool,
    has_targets: bool,
    max_tp_orders: usize,
) -> Result<(), Seq<char>> {
    if !quantity_above_zero {
        Err("quantity rounded to zero for "@ + symbol_name(symbol))
    } else if !has_targets {
        Err("no take profit targets for "@ + symbol_name(symbol))
    } else if max_tp_orders == 0 {
        Err("quantity too small to place take profits for "@ + symbol_name(symbol))
    } else {
        Ok(())
    }
}

/// Validates the inputs of an instant execution: a rounded quantity above
/// zero, at least one take-profit target and room for at least one
/// take-profit order; the first rule broken is reported as an internal
/// execution error.
pub fn validate_instant_inputs(
    symbol: &Symbol,
    quantity_above_zero: bool,
    has_targets: bool,
    max_tp_orders: usize,
) -> (r: Result<(), ExecutionError>)
    ensures
        match (r, instant_inputs_verdict(*symbol, quantity_above_zero, has_targets, max_tp_orders)) {
            (Ok(()), Ok(())) => true,
            (Err(ExecutionError::Internal { message }), Err(m)) => message@ == m,
            _ => false,
        },
{
    let prefix = if !quantity_above_zero {
        "quantity rounded to zero for "
    } else if !has_targets {
        "no take profit targets for "
    } else if max_tp_orders == 0 {
        "quantity too small to place take profits for "
    } else {
        return Ok(());
    };
    let mut message = owned(prefix);
    message.append(symbol.to_string().as_str());
    Err(ExecutionError::Internal { message })
}

/// How many take-profit orders an instant execution places: as many as the
/// resolved targets, but no more than the quantity allows; none is refused
/// with an internal execution error.
pub fn take_profit_count(symbol: &Symbol, resolved_targets: usize, max_tp_orders: usize) -> (r:
    Result<usize, ExecutionError>)
    ensures
        match r {
            Ok(n) => n == (if resolved_targets < max_tp_orders {
                resolved_targets
            } else {
                max_tp_orders
            }),
            Err(e) => e matches ExecutionError::Internal { message } && message@
                == "no usable take profit targets for "@ + symbol_name(*symbol),
        },
        r is Ok <==> (resolved_targets > 0 && max_tp_orders > 0),
{
    let n = if resolved_targets < max_tp_orders {
        resolved_targets
    } else {
        max_tp_orders
    };
    if n == 0 {
        let mut message = owned("no usable take profit targets for ");
        message.append(symbol.to_string().as_str());
        return Err(ExecutionError::Internal { message });
    }
    Ok(n)
}

/// The direction in which an order price is rounded to the tick size.
#[derive(Debug, Clone, Copy, PartialEq, Eq, Structural)]
pub enum PriceRounding {
    Down,
    Up,
}

/// Stop-loss and take-profit prices round down to the tick for a long and
/// up for a short.
pub fn price_rounding(side: Side) -> (r: PriceRounding)
    ensures
        r == (match side {
            Side::Long => PriceRounding::Down,
            Side::Short => PriceRounding::Up,
        }),
{
    match side {
        Side::Long => PriceRounding::Down,
        Side::Short => PriceRounding::Up,
    }
}

/// The number of bytes between the first `.` of a decimal text and the next
/// `.` or the end; 0 when there is no `.`.
pub open spec fn fraction_len(bytes: Seq<u8>) -> nat
    decreases bytes.len(),
{
    if bytes.len() == 0 {
        0
    } else if bytes[0] == 46 {
        segment_len(bytes.drop_first())
    } else {
        fraction_len(bytes.drop_first())
    }
}

/// The number of bytes before the first `.`, or all of them.
pub open spec fn segment_len(bytes: Seq<u8>) -> nat
    decreases bytes.len(),
{
    if bytes.len() == 0 || bytes[0] == 46 {
        0
    } else {
        1 + segment_len(bytes.drop_first())
    }
}

/// The number of decimals a step size is written with, from the decimal
/// text of the step: the length of its part after the point.
pub fn decimals_from_step_text(step_text: &str) -> (r: usize)
    ensures
        r == fraction_len(step_text.spec_bytes()),
{
    let b = step_text.as_bytes();
    let n = b.len();
    let mut i: usize = 0;
    assert(b@.skip(0) =~= b@);
    while i < n && b[i] != 46
        invariant
            i <= n,
            n == b@.len(),
            fraction_len(b@) == fraction_len(b@.skip(i as int)),
        decreases n - i,
    {
        assert(b@.skip(i as int).drop_first() =~= b@.skip(i + 1));
        i = i + 1;
    }
    if i == n {
        return 0;
    }
    assert(b@.skip(i as int).drop_first() =~= b@.skip(i + 1));
    let mut j: usize = i + 1;
    let mut count: usize = 0;
    while j < n && b[j] != 46
        invariant
            i < j <= n,
            n == b@.len(),
            count == j - i - 1,
            fraction_len(b@) == count + segment_len(b@.skip(j as int)),
        decreases n - j,
    {
        assert(b@.skip(j as int).drop_first() =~= b@.skip(j + 1));
        count = count + 1;
        j = j + 1;
    }
    count
}

} // verus!
