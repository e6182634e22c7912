//! The engine's execution policy: which symbols may trade on which
//! timeframe, and at which UTC hours and weekdays a timeframe is paused.

use vstd::prelude::*;
use chrono::{Datelike, Timelike};
use crate::domain::{
    symbol_name, ApprovedTrade, Asset, RejectedTrade, RejectionReason, Symbol, Timeframe, TradeIntent,
    TradeIntentError,
};
use crate::execution::ExchangeError;
use crate::signals::TradingSignal;
use crate::text::{decimal_text, is_sorted, owned, sort_strings, u64_to_text};

verus! {

/// The current UTC time, as the engine reads it.
#[derive(Debug, Clone, Copy)]
pub struct UtcNow {
    /// Hour of the day, 0 to 23.
    pub hour: u32,
    /// Day of the week counted from Monday: 0 is Monday, 6 is Sunday.
    pub weekday: u32,
    /// Day of the year, starting at 1.
    pub ordinal: u32,
    /// Milliseconds since the Unix epoch.
    pub timestamp_millis: i64,
}

/// Reads the clock with `chrono::Utc::now` and takes its hour (`Timelike::hour`),
/// weekday (`Weekday::num_days_from_monday`), day of year (`Datelike::ordinal`)
/// and `timestamp_millis`. The result depends on the time of the call: only the
/// ranges that chrono documents are stated.
#[verifier::external_body]
pub(crate) fn utc_now() -> (r: UtcNow)
    ensures
        r.hour < 24,
        r.weekday < 7,
        1 <= r.ordinal <= 366,
{
    let now = chrono::Utc::now();
    UtcNow {
        hour: now.hour(),
        weekday: now.weekday().num_days_from_monday(),
        ordinal: now.ordinal(),
        timestamp_millis: now.timestamp_millis(),
    }
}

/// The value stored for `t` in a list of timeframe entries: that of the
/// first entry for `t`.
pub open spec fn entry_for<V>(entries: Seq<(Timeframe, V)>, t: Timeframe) -> Option<V>
    decreases entries.len(),
{
    if entries.len() == 0 {
        None
    } else if entries[0].0 == t {
        Some(entries[0].1)
    } else {
        entry_for(entries.drop_first(), t)
    }
}

/// No timeframe has two entries.
pub open spec fn distinct_timeframes<V>(entries: Seq<(Timeframe, V)>) -> bool {
    forall|i: int, j: int|
        0 <= i < entries.len() && 0 <= j < entries.len() && i != j ==> entries[i].0 != entries[j].0
}

proof fn lemma_entry_for_skip<V>(entries: Seq<(Timeframe, V)>, i: int, t: Timeframe)
    requires
        0 <= i < entries.len(),
        entries[i].0 != t,
    ensures
        entry_for(entries.subrange(i, entries.len() as int), t) == entry_for(
            entries.subrange(i + 1, entries.len() as int),
            t,
        ),
{
    assert(entries.subrange(i, entries.len() as int).drop_first() =~= entries.subrange(
        i + 1,
        entries.len() as int,
    ));
}

proof fn lemma_entry_for_distinct<V>(entries: Seq<(Timeframe, V)>, k: int)
    requires
        distinct_timeframes(entries),
        0 <= k < entries.len(),
    ensures
        entry_for(entries, entries[k].0) == Some(entries[k].1),
    decreases k,
{
    if k > 0 {
        let rest = entries.drop_first();
        assert(entries[0].0 != entries[k].0);
        assert(distinct_timeframes(rest)) by {
            assert forall|i: int, j: int|
                0 <= i < rest.len() && 0 <= j < rest.len() && i != j implies rest[i].0
                != rest[j].0 by {
                assert(rest[i] == entries[i + 1] && rest[j] == entries[j + 1]);
            }
        }
        assert(rest[k - 1] == entries[k]);
        lemma_entry_for_distinct(rest, k - 1);
    }
}

fn copy_values<T: Copy>(v: &Vec<T>) -> (r: Vec<T>)
    ensures
        r@ == v@,
{
    let mut r: Vec<T> = Vec::new();
    let mut i: usize = 0;
    while i < v.len()
        invariant
            i <= v@.len(),
            r@ == v@.take(i as int),
        decreases v@.len() - i,
    {
        r.push(v[i]);
        assert(v@.take(i + 1) =~= v@.take(i as int).push(v@[i as int]));
        i = i + 1;
    }
    assert(v@.take(v@.len() as int) =~= v@);
    r
}

fn copy_table<T: Copy>(table: &Vec<(Timeframe, Vec<T>)>) -> (r: Vec<(Timeframe, Vec<T>)>)
    ensures
        r@.len() == table@.len(),
        forall|k: int| 0 <= k < r@.len() ==> (#[trigger] r@[k]).0 == table@[k].0 && r@[k].1@ == table@[k].1@,
{
    let mut r: Vec<(Timeframe, Vec<T>)> = Vec::new();
    let mut i: usize = 0;
    while i < table.len()
        invariant
            i <= table@.len(),
            r@.len() == i,
            forall|k: int| 0 <= k < i ==> (#[trigger] r@[k]).0 == table@[k].0 && r@[k].1@ == table@[k].1@,
        decreases table@.len() - i,
    {
        let entry = (table[i].0, copy_values(&table[i].1));
        r.push(entry);
        i = i + 1;
    }
    r
}

/// The index of the first entry for `t`.
fn position_of<V>(entries: &Vec<(Timeframe, V)>, t: Timeframe) -> (r: Option<usize>)
    ensures
        match r {
            Some(i) => i < entries@.len() && entries@[i as int].0 == t && entry_for(entries@, t)
                == Some(entries@[i as int].1),
            None => entry_for(entries@, t) is None,
        },
{
    let mut i: usize = 0;
    assert(entries@.subrange(0, entries@.len() as int) =~= entries@);
    while i < entries.len()
        invariant
            i <= entries@.len(),
            entry_for(entries@, t) == entry_for(entries@.subrange(i as int, entries@.len() as int), t),
        decreases entries@.len() - i,
    {
        if entries[i].0 == t {
            return Some(i);
        }
        proof {
            lemma_entry_for_skip(entries@, i as int, t);
        }
        i = i + 1;
    }
    None
}

/// Rules that decide which trade intents the engine executes.
#[derive(Debug)]
pub struct ExecutionPolicy {
    allowed: Vec<(Timeframe, Vec<Symbol>)>,
    /// Blocked UTC hour ranges `[start, end)` per timeframe.
    blocked_sessions: Vec<(Timeframe, Vec<(u32, u32)>)>,
    /// Blocked weekdays per timeframe, 0 being Monday.
    blocked_weekdays: Vec<(Timeframe, Vec<u32>)>,
}

impl Clone for ExecutionPolicy {
    /// A policy with the same tables.
    fn clone(&self) -> (r: Self)
        ensures
            r.allowed_entries() == self.allowed_entries(),
            r.session_entries() == self.session_entries(),
            r.weekday_entries() == self.weekday_entries(),
    {
        proof {
            use_type_invariant(self);
        }
        let allowed = copy_table(&self.allowed);
        let blocked_sessions = copy_table(&self.blocked_sessions);
        let blocked_weekdays = copy_table(&self.blocked_weekdays);
        assert(distinct_timeframes(allowed@));
        assert(distinct_timeframes(blocked_sessions@));
        assert(distinct_timeframes(blocked_weekdays@));
        let r = ExecutionPolicy { allowed, blocked_sessions, blocked_weekdays };
        assert(r.allowed_entries() =~= self.allowed_entries());
        assert(r.session_entries() =~= self.session_entries());
        assert(r.weekday_entries() =~= self.weekday_entries());
        r
    }
}

impl ExecutionPolicy {
    /// Each of the three tables has at most one entry per timeframe, and no
    /// symbol or weekday is listed twice for a timeframe.
    #[verifier::type_invariant]
    pub closed spec fn well_formed(&self) -> bool {
        &&& distinct_timeframes(self.allowed@)
        &&& distinct_timeframes(self.blocked_sessions@)
        &&& distinct_timeframes(self.blocked_weekdays@)
        &&& forall|k: int| 0 <= k < self.allowed@.len() ==> (#[trigger] self.allowed@[k]).1@.no_duplicates()
        &&& forall|k: int|
            0 <= k < self.blocked_weekdays@.len() ==> (#[trigger] self.blocked_weekdays@[k]).1@.no_duplicates()
    }

    /// The symbols allowed on `t`, if the policy lists `t`.
    pub closed spec fn allowed_symbols(&self, t: Timeframe) -> Option<Seq<Symbol>> {
        match entry_for(self.allowed@, t) {
            Some(v) => Some(v@),
            None => None,
        }
    }

    /// The blocked hour ranges of `t`, if the policy lists `t`.
    pub closed spec fn sessions(&self, t: Timeframe) -> Option<Seq<(u32, u32)>> {
        match entry_for(self.blocked_sessions@, t) {
            Some(v) => Some(v@),
            None => None,
        }
    }

    /// The blocked weekdays of `t`, if the policy lists `t`.
    pub closed spec fn weekdays(&self, t: Timeframe) -> Option<Seq<u32>> {
        match entry_for(self.blocked_weekdays@, t) {
            Some(v) => Some(v@),
            None => None,
        }
    }

    /// Whether `symbol` may trade on `t`.
    pub open spec fn symbol_allowed(&self, t: Timeframe, symbol: Symbol) -> bool {
        match self.allowed_symbols(t) {
            Some(s) => s.contains(symbol),
            None => false,
        }
    }

    /// Whether `hour` lies in one of the blocked ranges of `t`.
    pub open spec fn session_blocked(&self, t: Timeframe, hour: u32) -> bool {
        match self.sessions(t) {
            Some(ranges) => hour_in(ranges, hour),
            None => false,
        }
    }

    /// Whether `weekday` is blocked for `t`.
    pub open spec fn weekday_blocked(&self, t: Timeframe, weekday: u32) -> bool {
        match self.weekdays(t) {
            Some(days) => days.contains(weekday),
            None => false,
        }
    }

    /// The policy's verdict on `symbol` on `t` at UTC `hour` of `weekday`:
    /// the symbol check comes first, then the session, then the weekday.
    pub open spec fn verdict(&self, t: Timeframe, symbol: Symbol, hour: u32, weekday: u32) -> Result<
        (),
        RejectionReason,
    > {
        if !self.symbol_allowed(t, symbol) {
            Err(RejectionReason::SymbolNotAllowed)
        } else if self.session_blocked(t, hour) {
            Err(RejectionReason::BlockedSession)
        } else if self.weekday_blocked(t, weekday) {
            Err(RejectionReason::BlockedWeekday)
        } else {
            Ok(())
        }
    }

    /// The continuation policy: on 30m, ADA, SOL, XRP and TRX against USDT
    /// may trade, except from 18:00 to 24:00 UTC and on Tuesdays; no other
    /// timeframe may trade.
    pub fn continuation_v1() -> (r: Self)
        ensures
            r.allowed_symbols(Timeframe::M30) == Some(
                seq![
                    Symbol { base: Asset::ADA, quote: Asset::USDT },
                    Symbol { base: Asset::SOL, quote: Asset::USDT },
                    Symbol { base: Asset::XRP, quote: Asset::USDT },
                    Symbol { base: Asset::TRX, quote: Asset::USDT },
                ],
            ),
            r.sessions(Timeframe::M30) == Some(seq![(18u32, 24u32)]),
            r.weekdays(Timeframe::M30) == Some(seq![1u32]),
            forall|t: Timeframe|
                t != Timeframe::M30 ==> r.allowed_symbols(t) is None && r.sessions(t) is None
                    && r.weekdays(t) is None,
    {
        let mut m30_symbols: Vec<Symbol> = Vec::new();
        m30_symbols.push(Symbol::new(Asset::ADA, Asset::USDT));
        m30_symbols.push(Symbol::new(Asset::SOL, Asset::USDT));
        m30_symbols.push(Symbol::new(Asset::XRP, Asset::USDT));
        m30_symbols.push(Symbol::new(Asset::TRX, Asset::USDT));
        let mut allowed: Vec<(Timeframe, Vec<Symbol>)> = Vec::new();
        allowed.push((Timeframe::M30, m30_symbols));

        let mut sessions: Vec<(u32, u32)> = Vec::new();
        sessions.push((18, 24));
        let mut blocked_sessions: Vec<(Timeframe, Vec<(u32, u32)>)> = Vec::new();
        blocked_sessions.push((Timeframe::M30, sessions));

        let mut days: Vec<u32> = Vec::new();
        days.push(1);
        let mut blocked_weekdays: Vec<(Timeframe, Vec<u32>)> = Vec::new();
        blocked_weekdays.push((Timeframe::M30, days));

        let r = ExecutionPolicy { allowed, blocked_sessions, blocked_weekdays };
        assert(r.allowed_symbols(Timeframe::M30).unwrap() =~= seq![
            Symbol { base: Asset::ADA, quote: Asset::USDT },
            Symbol { base: Asset::SOL, quote: Asset::USDT },
            Symbol { base: Asset::XRP, quote: Asset::USDT },
            Symbol { base: Asset::TRX, quote: Asset::USDT },
        ]);
        assert(r.sessions(Timeframe::M30).unwrap() =~= seq![(18u32, 24u32)]);
        assert(r.weekdays(Timeframe::M30).unwrap() =~= seq![1u32]);
        assert forall|t: Timeframe| t != Timeframe::M30 implies r.allowed_symbols(t) is None
            && r.sessions(t) is None && r.weekdays(t) is None by {
            assert(entry_for(r.allowed@.drop_first(), t) is None);
            assert(entry_for(r.blocked_sessions@.drop_first(), t) is None);
            assert(entry_for(r.blocked_weekdays@.drop_first(), t) is None);
        }
        r
    }

    /// The policy's verdict at a given UTC hour and weekday.
    pub fn evaluate_at(&self, timeframe: Timeframe, symbol: &Symbol, hour: u32, weekday: u32) -> (r:
        Result<(), RejectionReason>)
        ensures
            r == self.verdict(timeframe, *symbol, hour, weekday),
    {
        let symbol_ok = match position_of(&self.allowed, timeframe) {
            Some(i) => contains_symbol(&self.allowed[i].1, symbol),
            None => false,
        };
        if !symbol_ok {
            return Err(RejectionReason::SymbolNotAllowed);
        }
        if self.is_session_blocked(timeframe, hour) {
            return Err(RejectionReason::BlockedSession);
        }
        if self.is_weekday_blocked(timeframe, weekday) {
            return Err(RejectionReason::BlockedWeekday);
        }
        Ok(())
    }

    fn is_session_blocked(&self, timeframe: Timeframe, hour: u32) -> (r: bool)
        ensures
            r == self.session_blocked(timeframe, hour),
    {
        match position_of(&self.blocked_sessions, timeframe) {
            Some(i) => {
                assert(self.sessions(timeframe) == Some(self.blocked_sessions@[i as int].1@));
                hour_in_ranges(&self.blocked_sessions[i].1, hour)
            },
            None => false,
        }
    }

    fn is_weekday_blocked(&self, timeframe: Timeframe, weekday: u32) -> (r: bool)
        ensures
            r == self.weekday_blocked(timeframe, weekday),
    {
        match position_of(&self.blocked_weekdays, timeframe) {
            Some(i) => contains_u32(&self.blocked_weekdays[i].1, weekday),
            None => false,
        }
    }

    /// The blocked-session table, in order.
    pub closed spec fn session_entries(&self) -> Seq<(Timeframe, Seq<(u32, u32)>)> {
        self.blocked_sessions@.map_values(|e: (Timeframe, Vec<(u32, u32)>)| (e.0, e.1@))
    }

    /// The blocked-weekday table, in order.
    pub closed spec fn weekday_entries(&self) -> Seq<(Timeframe, Seq<u32>)> {
        self.blocked_weekdays@.map_values(|e: (Timeframe, Vec<u32>)| (e.0, e.1@))
    }

    /// The timeframes the policy lists as allowed, in order, with their
    /// symbols.
    pub closed spec fn allowed_entries(&self) -> Seq<(Timeframe, Seq<Symbol>)> {
        self.allowed@.map_values(|e: (Timeframe, Vec<Symbol>)| (e.0, e.1@))
    }

    /// The day's plan: for each timeframe the policy lists as allowed, its
    /// symbols' names in sorted order and whether the weekday or the hour
    /// blocks it.
    pub fn todays_plan(&self, hour: u32, weekday: u32) -> (r: Vec<TimeframePlan>)
        ensures
            r@.len() == self.allowed_entries().len(),
            forall|k: int|
                0 <= k < r@.len() ==> {
                    let t = #[trigger] self.allowed_entries()[k].0;
                    &&& r@[k].timeframe == t
                    &&& r@[k].weekday_blocked == self.weekday_blocked(t, weekday)
                    &&& r@[k].session_blocked == self.session_blocked(t, hour)
                    &&& is_sorted(r@[k].symbols.deep_view())
                    &&& r@[k].symbols.deep_view().to_multiset() == self.allowed_entries()[k].1.map_values(
                        |s: Symbol| symbol_name(s),
                    ).to_multiset()
                },
    {
        let mut r: Vec<TimeframePlan> = Vec::new();
        let mut k: usize = 0;
        while k < self.allowed.len()
            invariant
                k <= self.allowed@.len(),
                r@.len() == k,
                forall|m: int|
                    0 <= m < k ==> {
                        let t = #[trigger] self.allowed_entries()[m].0;
                        &&& r@[m].timeframe == t
                        &&& r@[m].weekday_blocked == self.weekday_blocked(t, weekday)
                        &&& r@[m].session_blocked == self.session_blocked(t, hour)
                        &&& is_sorted(r@[m].symbols.deep_view())
                        &&& r@[m].symbols.deep_view().to_multiset()
                            == self.allowed_entries()[m].1.map_values(
                            |s: Symbol| symbol_name(s),
                        ).to_multiset()
                    },
            decreases self.allowed@.len() - k,
        {
            let timeframe = self.allowed[k].0;
            let names = symbol_names(&self.allowed[k].1);
            let symbols = sort_strings(names);
            let plan = TimeframePlan {
                timeframe,
                symbols,
                weekday_blocked: self.is_weekday_blocked(timeframe, weekday),
                session_blocked: self.is_session_blocked(timeframe, hour),
            };
            r.push(plan);
            k = k + 1;
        }
        r
    }

    /// For a symbol the timeframe of an allowed entry lists: a session block
    /// in effect is exactly a BlockedSession verdict, a weekday block alone
    /// exactly a BlockedWeekday verdict, and no block exactly an approval.
    pub proof fn lemma_plan_matches_verdict(&self, k: int, symbol: Symbol, hour: u32, weekday: u32)
        requires
            self.well_formed(),
            0 <= k < self.allowed_entries().len(),
            self.allowed_entries()[k].1.contains(symbol),
        ensures
            ({
                let t = self.allowed_entries()[k].0;
                let v = self.verdict(t, symbol, hour, weekday);
                &&& self.session_blocked(t, hour) <==> v == Err::<(), RejectionReason>(
                    RejectionReason::BlockedSession,
                )
                &&& (!self.session_blocked(t, hour) && self.weekday_blocked(t, weekday)) <==> v
                    == Err::<(), RejectionReason>(RejectionReason::BlockedWeekday)
                &&& (self.session_blocked(t, hour) || self.weekday_blocked(t, weekday)) <==> v is Err
                &&& !(self.session_blocked(t, hour) || self.weekday_blocked(t, weekday)) <==> v is Ok
            }),
    {
        lemma_entry_for_distinct(self.allowed@, k);
    }

    /// The policy's verdict now. Whether a session or weekday block applies
    /// depends on the clock; refusing a symbol that is not allowed does not.
    pub fn evaluate(&self, timeframe: Timeframe, symbol: &Symbol) -> (r: Result<(), RejectionReason>)
        ensures
            exists|hour: u32, weekday: u32|
                hour < 24 && weekday < 7 && r == self.verdict(timeframe, *symbol, hour, weekday),
            r == Err::<(), RejectionReason>(RejectionReason::SymbolNotAllowed) <==> !self.symbol_allowed(
                timeframe,
                *symbol,
            ),
    {
        let now = utc_now();
        let r = self.evaluate_at(timeframe, symbol, now.hour, now.weekday);
        assert(now.hour < 24 && now.weekday < 7 && r == self.verdict(timeframe, *symbol, now.hour, now.weekday));
        r
    }
}

/// One timeframe's entry in the day's plan.
#[derive(Debug, Clone)]
pub struct TimeframePlan {
    pub timeframe: Timeframe,
    /// The names of the allowed symbols, sorted.
    pub symbols: Vec<String>,
    /// Whether the day is a blocked weekday of the timeframe.
    pub weekday_blocked: bool,
    /// Whether the hour lies in a blocked session of the timeframe.
    pub session_blocked: bool,
}

fn symbol_names(symbols: &Vec<Symbol>) -> (r: Vec<String>)
    ensures
        r.deep_view() == symbols@.map_values(|s: Symbol| symbol_name(s)),
{
    let mut r: Vec<String> = Vec::new();
    let mut i: usize = 0;
    while i < symbols.len()
        invariant
            i <= symbols@.len(),
            r.deep_view() == symbols@.take(i as int).map_values(|s: Symbol| symbol_name(s)),
        decreases symbols@.len() - i,
    {
        let name = symbols[i].to_string();
        let ghost before = r.deep_view();
        r.push(name);
        assert(r.deep_view() =~= before.push(symbol_name(symbols@[i as int])));
        assert(symbols@.take(i + 1) =~= symbols@.take(i as int).push(symbols@[i as int]));
        assert(r.deep_view() =~= symbols@.take(i + 1).map_values(|s: Symbol| symbol_name(s)));
        i = i + 1;
    }
    assert(symbols@.take(symbols@.len() as int) =~= symbols@);
    r
}

/// The short English name of a weekday counted from Monday (0).
pub open spec fn weekday_name(weekday: u32) -> Seq<char> {
    if weekday == 0 {
        "Mon"@
    } else if weekday == 1 {
        "Tue"@
    } else if weekday == 2 {
        "Wed"@
    } else if weekday == 3 {
        "Thu"@
    } else if weekday == 4 {
        "Fri"@
    } else if weekday == 5 {
        "Sat"@
    } else if weekday == 6 {
        "Sun"@
    } else {
        "???"@
    }
}

/// The short English name of a weekday counted from Monday (0); `???` past
/// Sunday.
pub fn day_name(weekday: u32) -> (r: String)
    ensures
        r@ == weekday_name(weekday),
{
    if weekday == 0 {
        owned("Mon")
    } else if weekday == 1 {
        owned("Tue")
    } else if weekday == 2 {
        owned("Wed")
    } else if weekday == 3 {
        owned("Thu")
    } else if weekday == 4 {
        owned("Fri")
    } else if weekday == 5 {
        owned("Sat")
    } else if weekday == 6 {
        owned("Sun")
    } else {
        owned("???")
    }
}

/// Texts joined in order with `sep` between each two.
pub open spec fn joined_with(items: Seq<Seq<char>>, sep: Seq<char>) -> Seq<char>
    decreases items.len(),
{
    if items.len() == 0 {
        Seq::empty()
    } else if items.len() == 1 {
        items[0]
    } else {
        joined_with(items.drop_last(), sep) + sep + items.last()
    }
}

/// Joins `items` in order with `sep` between each two, as a log line lists
/// them.
pub fn join_with(items: &Vec<String>, sep: &str) -> (r: String)
    ensures
        r@ == joined_with(items.deep_view(), sep@),
{
    let mut r = String::new();
    let mut i: usize = 0;
    assert(items.deep_view().take(0) =~= Seq::<Seq<char>>::empty());
    while i < items.len()
        invariant
            i <= items@.len(),
            r@ == joined_with(items.deep_view().take(i as int), sep@),
        decreases items@.len() - i,
    {
        let ghost before = r@;
        if i > 0 {
            r.append(sep);
        }
        r.append(items[i].as_str());
        proof {
            let taken = items.deep_view().take(i + 1);
            assert(taken.drop_last() =~= items.deep_view().take(i as int));
            if i == 0 {
                assert(before == Seq::<char>::empty());
            }
        }
        i = i + 1;
    }
    assert(items.deep_view().take(items@.len() as int) =~= items.deep_view());
    r
}

/// The reasons a plan entry gives for its blocks at UTC `hour` of `weekday`:
/// the weekday block first, then the session block.
pub open spec fn block_reasons_of(
    weekday_blocked: bool,
    session_blocked: bool,
    weekday: u32,
    hour: u32,
) -> Seq<Seq<char>> {
    let w = if weekday_blocked {
        seq![weekday_name(weekday) + " is a blocked weekday"@]
    } else {
        Seq::empty()
    };
    if session_blocked {
        w.push("hour "@ + decimal_text(hour as int) + " is in a blocked session"@)
    } else {
        w
    }
}

impl TimeframePlan {
    /// The reasons the entry gives for its blocks at UTC `hour` of `weekday`,
    /// such as `Tue is a blocked weekday`; none when it is active.
    pub fn block_reasons(&self, weekday: u32, hour: u32) -> (r: Vec<String>)
        ensures
            r.deep_view() == block_reasons_of(self.weekday_blocked, self.session_blocked, weekday, hour),
    {
        let mut r: Vec<String> = Vec::new();
        if self.weekday_blocked {
            let mut w = day_name(weekday);
            w.append(" is a blocked weekday");
            r.push(w);
        }
        if self.session_blocked {
            let mut h = owned("hour ");
            h.append(u64_to_text(hour as u64).as_str());
            h.append(" is in a blocked session");
            r.push(h);
        }
        assert(r.deep_view() =~= block_reasons_of(self.weekday_blocked, self.session_blocked, weekday, hour));
        r
    }
}

fn contains_symbol(symbols: &Vec<Symbol>, symbol: &Symbol) -> (r: bool)
    ensures
        r == symbols@.contains(*symbol),
{
    let mut i: usize = 0;
    while i < symbols.len()
        invariant
            i <= symbols@.len(),
            forall|j: int| 0 <= j < i ==> symbols@[j] != *symbol,
        decreases symbols@.len() - i,
    {
        if symbols[i] == *symbol {
            assert(symbols@[i as int] == *symbol);
            return true;
        }
        i = i + 1;
    }
    false
}

fn contains_u32(values: &Vec<u32>, v: u32) -> (r: bool)
    ensures
        r == values@.contains(v),
{
    let mut i: usize = 0;
    while i < values.len()
        invariant
            i <= values@.len(),
            forall|j: int| 0 <= j < i ==> values@[j] != v,
        decreases values@.len() - i,
    {
        if values[i] == v {
            assert(values@[i as int] == v);
            return true;
        }
        i = i + 1;
    }
    false
}

/// Whether `hour` lies in one of the half-open ranges `[start, end)`.
pub open spec fn hour_in(ranges: Seq<(u32, u32)>, hour: u32) -> bool {
    exists|i: int| 0 <= i < ranges.len() && ranges[i].0 <= hour && hour < ranges[i].1
}

fn hour_in_ranges(ranges: &Vec<(u32, u32)>, hour: u32) -> (r: bool)
    ensures
        r == hour_in(ranges@, hour),
{
    let mut i: usize = 0;
    while i < ranges.len()
        invariant
            i <= ranges@.len(),
            forall|j: int| 0 <= j < i ==> !(ranges@[j].0 <= hour && hour < ranges@[j].1),
        decreases ranges@.len() - i,
    {
        let (start, end) = ranges[i];
        if hour >= start && hour < end {
            assert(ranges@[i as int].0 <= hour && hour < ranges@[i as int].1);
            return true;
        }
        i = i + 1;
    }
    false
}

impl ExecutionPolicy {
    /// Approves or rejects a trade intent by the policy's verdict at UTC
    /// `hour` of `weekday`.
    pub fn review_at<P>(&self, intent: TradeIntent<P>, hour: u32, weekday: u32) -> (r: Result<
        ApprovedTrade<P>,
        RejectedTrade<P>,
    >)
        ensures
            match (r, self.verdict(intent.timeframe, intent.symbol, hour, weekday)) {
                (Ok(a), Ok(())) => a.trade_intent == intent,
                (Err(j), Err(reason)) => j.trade_intent == intent && j.reason == reason,
                _ => false,
            },
    {
        match self.evaluate_at(intent.timeframe, &intent.symbol, hour, weekday) {
            Ok(()) => Ok(ApprovedTrade { trade_intent: intent }),
            Err(reason) => Err(RejectedTrade { trade_intent: intent, reason }),
        }
    }

    /// Approves or rejects a trade intent by the policy's verdict now.
    pub fn review<P>(&self, intent: TradeIntent<P>) -> (r: Result<ApprovedTrade<P>, RejectedTrade<P>>)
        ensures
            exists|hour: u32, weekday: u32|
                hour < 24 && weekday < 7 && match (
                    r,
                    #[trigger] self.verdict(intent.timeframe, intent.symbol, hour, weekday),
                ) {
                    (Ok(a), Ok(())) => a.trade_intent == intent,
                    (Err(j), Err(reason)) => j.trade_intent == intent && j.reason == reason,
                    _ => false,
                },
    {
        let now = utc_now();
        let r = self.review_at(intent, now.hour, now.weekday);
        assert(now.hour < 24 && now.weekday < 7);
        r
    }
}

/// The trade intent a parsed signal asks for.
pub fn intent_from_signal<P: Copy>(signal: TradingSignal<P>) -> (r: Result<TradeIntent<P>, TradeIntentError>)
    ensures
        r matches Ok(t) && t.symbol == signal.symbol && t.side == signal.side && t.entry == signal.entry
            && t.targets@ == signal.targets@ && t.timeframe == signal.timeframe && t.stop_loss
            == signal.stop_loss,
{
    let r = TradeIntent::builder(signal.symbol).side(signal.side).entry(signal.entry).targets(
        signal.targets.as_slice(),
    ).timeframe(signal.timeframe).stop_loss(signal.stop_loss).build();
    r
}

/// The build version when none was set at compile time: `dev`.
pub open spec fn build_version_of(compiled: Option<Seq<char>>) -> Seq<char> {
    match compiled {
        Some(v) => v,
        None => "dev"@,
    }
}

/// The build version: the one set at compile time, else `dev`.
pub fn get_build_version(compiled: Option<&'static str>) -> (r: &'static str)
    ensures
        r@ == build_version_of(
            match compiled {
                Some(v) => Some(v@),
                None => None,
            },
        ),
{
    match compiled {
        Some(v) => v,
        None => "dev",
    }
}

/// Whether the engine trades on the test network: exactly for the `dev`
/// build version.
pub fn runs_on_testnet(build_version: &str) -> (r: bool)
    ensures
        r == (build_version@ == "dev"@),
{
    crate::text::str_eq(build_version, "dev")
}

/// REST base of the test network.
pub const TESTNET_REST_BASE: &'static str = "https://demo-fapi.binance.com";
/// User-stream base of the test network.
pub const TESTNET_WS_BASE: &'static str = "wss://fstream.binancefuture.com";
/// REST base of the main network.
pub const MAINNET_REST_BASE: &'static str = "https://fapi.binance.com";
/// User-stream base of the main network.
pub const MAINNET_WS_BASE: &'static str = "wss://fstream.binance.com";
/// Seconds between two listen-key keep-alives: half the key's lifetime.
pub const LISTENKEY_KEEPALIVE_SECS: u64 = 1800;

/// The user-stream base for the test network or the main network.
pub fn ws_base_for(is_test: bool) -> (r: &'static str)
    ensures
        is_test ==> r@ == TESTNET_WS_BASE@,
        !is_test ==> r@ == MAINNET_WS_BASE@,
{
    if is_test {
        TESTNET_WS_BASE
    } else {
        MAINNET_WS_BASE
    }
}

/// The error for a symbol the exchange has no trading filters for.
pub fn missing_filters_error(symbol: &Symbol) -> (r: ExchangeError)
    ensures
        r matches ExchangeError::InvalidRequest { message } && message@
            == "no symbol filters configured for "@ + symbol_name(*symbol),
{
    let mut message = owned("no symbol filters configured for ");
    message.append(symbol.to_string().as_str());
    ExchangeError::InvalidRequest { message }
}

} // verus!
