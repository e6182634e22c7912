//! Parsing of free-text trading signals, as posted in signal channels.

use vstd::prelude::*;
use crate::domain::{symbol_name, timeframe_name, timeframe_named, Asset, Side, Symbol, Timeframe};
use crate::text::{owned, str_eq};

verus! {

/// Matches emoji code points.
pub const EMOJI_PATTERN: &'static str = r"[\p{Emoji_Presentation}\p{Extended_Pictographic}]";

/// Matches a pair such as `BTCUSDT`: the base ticker and the quote ticker.
pub const SYMBOL_PATTERN: &'static str = r"\b([A-Z]+)(USDT|USDC)\b";

/// Matches the timeframe written after a middle dot, such as `· 30m`.
pub const TIMEFRAME_PATTERN: &'static str = r"·\s*(\d+[hmdw])";

/// Matches the direction of the trade.
pub const DIRECTION_PATTERN: &'static str = r"(LONG|SHORT)";

/// Matches the entry price.
pub const ENTRY_PATTERN: &'static str = r"Entry:\s*([0-9]+\.?[0-9]*)";

/// Matches one take-profit target.
pub const TARGETS_PATTERN: &'static str = r"TP[0-9]+:\s*([0-9]+\.?[0-9]*)";

/// Matches the stop-loss price.
pub const STOP_LOSS_PATTERN: &'static str = r"SL:\s*([0-9]+\.?[0-9]*)";

/// Matches a disclaimer, from its label to the end of its line.
pub const DISCLAIMER_PATTERN: &'static str = r"(?i)disclaimer:.*";

/// The groups of the leftmost-first match of the regular expression
/// `pattern` in `haystack`: for each group of the pattern (group 0 being the
/// whole match) the text it matched, or `None` where the group took no part.
/// `None` when nothing matches or `pattern` is not a valid regular expression.
pub uninterp spec fn regex_first_captures(pattern: Seq<char>, haystack: Seq<char>) -> Option<
    Seq<Option<Seq<char>>>,
>;

/// The groups of each successive non-overlapping match of `pattern` in
/// `haystack`, in order, as in [`regex_first_captures`]; empty when nothing
/// matches or `pattern` is not a valid regular expression.
pub uninterp spec fn regex_all_captures(pattern: Seq<char>, haystack: Seq<char>) -> Seq<
    Seq<Option<Seq<char>>>,
>;

/// `haystack` with every non-overlapping match of `pattern` replaced by
/// `replacement`; `None` when `pattern` is not a valid regular expression.
pub uninterp spec fn regex_replaced(
    pattern: Seq<char>,
    haystack: Seq<char>,
    replacement: Seq<char>,
) -> Option<Seq<char>>;

/// Compiles `pattern` with `regex::Regex::new` and returns the groups of
/// `Regex::captures` on `haystack`, each as the text of `Match::as_str`.
/// The contract only names the result: the regex semantics are not stated.
#[verifier::external_body]
fn first_captures(pattern: &str, haystack: &str) -> (r: Option<Vec<Option<String>>>)
    ensures
        r.deep_view() == regex_first_captures(pattern@, haystack@),
{
    match regex::Regex::new(pattern) {
        Ok(re) => re.captures(haystack).map(
            |caps| caps.iter().map(|m| m.map(|m| m.as_str().to_string())).collect(),
        ),
        Err(_) => None,
    }
}

/// Compiles `pattern` with `regex::Regex::new` and collects the groups of
/// every item of `Regex::captures_iter` on `haystack`. The contract only
/// names the result.
#[verifier::external_body]
fn all_captures(pattern: &str, haystack: &str) -> (r: Vec<Vec<Option<String>>>)
    ensures
        r.deep_view() == regex_all_captures(pattern@, haystack@),
{
    match regex::Regex::new(pattern) {
        Ok(re) => re.captures_iter(haystack).map(
            |caps| caps.iter().map(|m| m.map(|m| m.as_str().to_string())).collect(),
        ).collect(),
        Err(_) => Vec::new(),
    }
}

/// Compiles `pattern` with `regex::Regex::new` and returns
/// `Regex::replace_all(haystack, replacement)`. The contract only names the
/// result.
#[verifier::external_body]
fn replace_all(pattern: &str, haystack: &str, replacement: &str) -> (r: Option<String>)
    ensures
        r.deep_view() == regex_replaced(pattern@, haystack@, replacement@),
{
    match regex::Regex::new(pattern) {
        Ok(re) => Some(re.replace_all(haystack, replacement).into_owned()),
        Err(_) => None,
    }
}

/// Group `i` of a list of capture groups, as `Captures::get` gives it.
pub open spec fn capture_group(caps: Seq<Option<Seq<char>>>, i: int) -> Option<Seq<char>> {
    if 0 <= i < caps.len() {
        caps[i]
    } else {
        None
    }
}

/// Group `i` of a match, `None` when there was no match.
pub open spec fn group_in(caps: Option<Seq<Option<Seq<char>>>>, i: int) -> Option<Seq<char>> {
    match caps {
        Some(c) => capture_group(c, i),
        None => None,
    }
}

/// The texts of group 1 of the first `n` matches in `all`, skipping the
/// matches where the group took no part.
pub open spec fn first_group_texts(all: Seq<Seq<Option<Seq<char>>>>, n: int) -> Seq<Seq<char>>
    decreases n,
{
    if n <= 0 {
        Seq::empty()
    } else {
        let prev = first_group_texts(all, n - 1);
        match capture_group(all[n - 1], 1) {
            Some(t) => prev.push(t),
            None => prev,
        }
    }
}

/// How many of the first `n` matches in `all` have a group 1.
pub open spec fn matches_with_group(all: Seq<Seq<Option<Seq<char>>>>, n: int) -> nat
    decreases n,
{
    if n <= 0 {
        0
    } else {
        matches_with_group(all, n - 1) + if capture_group(all[n - 1], 1) is Some {
            1nat
        } else {
            0nat
        }
    }
}

/// Every target match is kept, in order: the texts taken from the first `n`
/// matches are as many as those matches with a group 1, and the group 1 of
/// match `i` stands at the position counted by the matches with a group 1
/// before it.
pub proof fn lemma_every_target_kept(all: Seq<Seq<Option<Seq<char>>>>, n: int)
    requires
        0 <= n <= all.len(),
    ensures
        first_group_texts(all, n).len() == matches_with_group(all, n),
        forall|i: int|
            0 <= i < n && #[trigger] capture_group(all[i], 1) is Some ==> first_group_texts(all, n)[matches_with_group(
                all,
                i,
            ) as int] == capture_group(all[i], 1)->0,
    decreases n,
{
    if n > 0 {
        lemma_every_target_kept(all, n - 1);
        assert forall|i: int|
            0 <= i < n && #[trigger] capture_group(all[i], 1) is Some implies first_group_texts(all, n)[matches_with_group(
                all,
                i,
            ) as int] == capture_group(all[i], 1)->0 by {
            if i < n - 1 {
                lemma_matches_with_group_grows(all, i + 1, n - 1);
            }
        }
    }
}

proof fn lemma_matches_with_group_grows(all: Seq<Seq<Option<Seq<char>>>>, i: int, n: int)
    requires
        0 <= i <= n,
    ensures
        matches_with_group(all, i) <= matches_with_group(all, n),
    decreases n - i,
{
    if i < n {
        lemma_matches_with_group_grows(all, i, n - 1);
    }
}

fn group_of(caps: &Vec<Option<String>>, i: usize) -> (r: Option<String>)
    ensures
        r.deep_view() == capture_group(caps.deep_view(), i as int),
{
    if i < caps.len() {
        match &caps[i] {
            Some(s) => Some(s.clone()),
            None => None,
        }
    } else {
        None
    }
}

fn group_in_match(caps: &Option<Vec<Option<String>>>, i: usize) -> (r: Option<String>)
    ensures
        r.deep_view() == group_in(caps.deep_view(), i as int),
{
    match caps {
        Some(c) => group_of(c, i),
        None => None,
    }
}

/// `text` with its emoji removed; `text` itself should the emoji pattern be
/// refused by the regex engine.
pub open spec fn emoji_free(text: Seq<char>) -> Seq<char> {
    match regex_replaced(EMOJI_PATTERN@, text, ""@) {
        Some(s) => s,
        None => text,
    }
}

/// Removes every emoji from `input`.
pub fn remove_emojis(input: &str) -> (r: String)
    ensures
        r@ == emoji_free(input@),
{
    match replace_all(EMOJI_PATTERN, input, "") {
        Some(s) => s,
        None => owned(input),
    }
}

/// The asset whose ticker is `s`.
pub open spec fn asset_named(s: Seq<char>) -> Option<Asset> {
    if s == "BTC"@ {
        Some(Asset::BTC)
    } else if s == "ETH"@ {
        Some(Asset::ETH)
    } else if s == "SOL"@ {
        Some(Asset::SOL)
    } else if s == "XRP"@ {
        Some(Asset::XRP)
    } else if s == "BNB"@ {
        Some(Asset::BNB)
    } else if s == "TRX"@ {
        Some(Asset::TRX)
    } else if s == "ADA"@ {
        Some(Asset::ADA)
    } else if s == "USDT"@ {
        Some(Asset::USDT)
    } else if s == "USDC"@ {
        Some(Asset::USDC)
    } else {
        None
    }
}

/// The asset whose ticker is `input`, if it is one of the supported ones.
pub fn parse_asset(input: &str) -> (r: Option<Asset>)
    ensures
        r == asset_named(input@),
{
    if str_eq(input, "BTC") {
        Some(Asset::BTC)
    } else if str_eq(input, "ETH") {
        Some(Asset::ETH)
    } else if str_eq(input, "SOL") {
        Some(Asset::SOL)
    } else if str_eq(input, "XRP") {
        Some(Asset::XRP)
    } else if str_eq(input, "BNB") {
        Some(Asset::BNB)
    } else if str_eq(input, "TRX") {
        Some(Asset::TRX)
    } else if str_eq(input, "ADA") {
        Some(Asset::ADA)
    } else if str_eq(input, "USDT") {
        Some(Asset::USDT)
    } else if str_eq(input, "USDC") {
        Some(Asset::USDC)
    } else {
        None
    }
}

/// The side named by the direction word of a signal.
pub open spec fn side_named(s: Seq<char>) -> Option<Side> {
    if s == "LONG"@ {
        Some(Side::Long)
    } else if s == "SHORT"@ {
        Some(Side::Short)
    } else {
        None
    }
}

/// A signal read from text; prices and targets are kept as the decimal text
/// that the signal wrote, in the order the signal listed them.
#[derive(Debug, Clone)]
pub struct TradingSignal<P> {
    pub symbol: Symbol,
    pub side: Side,
    pub entry: P,
    pub targets: Vec<P>,
    pub timeframe: Timeframe,
    pub stop_loss: P,
}

/// The content of a signal read from text.
pub struct SignalText {
    pub symbol: Symbol,
    pub side: Side,
    pub entry: Seq<char>,
    pub targets: Seq<Seq<char>>,
    pub timeframe: Timeframe,
    pub stop_loss: Seq<char>,
}

impl TradingSignal<String> {
    /// The content of the signal as character sequences.
    pub open spec fn text_model(&self) -> SignalText {
        SignalText {
            symbol: self.symbol,
            side: self.side,
            entry: self.entry@,
            targets: self.targets.deep_view(),
            timeframe: self.timeframe,
            stop_loss: self.stop_loss@,
        }
    }
}

/// The timeframe a signal states by the match of the timeframe pattern; 4h
/// when it states none that is supported.
pub open spec fn stated_timeframe(timeframe: Option<Seq<Option<Seq<char>>>>) -> Timeframe {
    match group_in(timeframe, 1) {
        Some(m) => match timeframe_named(m) {
            Some(t) => t,
            None => Timeframe::H4,
        },
        None => Timeframe::H4,
    }
}

/// The signal given by the matches of the signal patterns in a text: the
/// first match of the symbol, direction, timeframe, entry and stop-loss
/// patterns, and every match of the target pattern.
pub open spec fn signal_of_matches(
    symbol: Option<Seq<Option<Seq<char>>>>,
    direction: Option<Seq<Option<Seq<char>>>>,
    timeframe: Option<Seq<Option<Seq<char>>>>,
    entry: Option<Seq<Option<Seq<char>>>>,
    targets: Seq<Seq<Option<Seq<char>>>>,
    stop_loss: Option<Seq<Option<Seq<char>>>>,
) -> Option<SignalText> {
    match (group_in(symbol, 1), group_in(symbol, 2)) {
        (Some(b), Some(q)) => match (asset_named(b), asset_named(q)) {
            (Some(base), Some(quote)) => match group_in(direction, 1) {
                Some(d) => match side_named(d) {
                    Some(side) => match group_in(entry, 1) {
                        Some(entry) => {
                            let target_texts = first_group_texts(targets, targets.len() as int);
                            if target_texts.len() == 0 {
                                None
                            } else {
                                match group_in(stop_loss, 1) {
                                    Some(stop_loss) => Some(
                                        SignalText {
                                            symbol: Symbol { base, quote },
                                            side,
                                            entry,
                                            targets: target_texts,
                                            timeframe: stated_timeframe(timeframe),
                                            stop_loss,
                                        },
                                    ),
                                    None => None,
                                }
                            }
                        },
                        None => None,
                    },
                    None => None,
                },
                None => None,
            },
            _ => None,
        },
        _ => None,
    }
}

/// The signal that a cleaned text (emoji and disclaimers removed) holds.
pub open spec fn signal_in_cleaned(cleaned: Seq<char>) -> Option<SignalText> {
    signal_of_matches(
        regex_first_captures(SYMBOL_PATTERN@, cleaned),
        regex_first_captures(DIRECTION_PATTERN@, cleaned),
        regex_first_captures(TIMEFRAME_PATTERN@, cleaned),
        regex_first_captures(ENTRY_PATTERN@, cleaned),
        regex_all_captures(TARGETS_PATTERN@, cleaned),
        regex_first_captures(STOP_LOSS_PATTERN@, cleaned),
    )
}

/// The signal that `text` holds, once its emoji and disclaimers are removed.
pub open spec fn signal_from_text(text: Seq<char>) -> Option<SignalText> {
    match regex_replaced(DISCLAIMER_PATTERN@, emoji_free(text), ""@) {
        Some(cleaned) => signal_in_cleaned(cleaned),
        None => None,
    }
}

fn target_texts(all: &Vec<Vec<Option<String>>>) -> (r: Vec<String>)
    ensures
        r.deep_view() == first_group_texts(all.deep_view(), all.deep_view().len() as int),
{
    let ghost all_v = all.deep_view();
    let mut out: Vec<String> = Vec::new();
    let mut i: usize = 0;
    while i < all.len()
        invariant
            i <= all@.len(),
            all_v == all.deep_view(),
            out.deep_view() == first_group_texts(all_v, i as int),
        decreases all@.len() - i,
    {
        let g = group_of(&all[i], 1);
        assert(all_v[i as int] == all[i as int].deep_view());
        match g {
            Some(t) => {
                out.push(t);
                assert(out.deep_view() =~= first_group_texts(all_v, i + 1));
            },
            None => {
                assert(out.deep_view() =~= first_group_texts(all_v, i + 1));
            },
        }
        i = i + 1;
    }
    out
}

/// Builds a signal from the matches of the signal patterns in a text: the
/// groups of the first match of the symbol, direction, timeframe, entry and
/// stop-loss patterns, and of every match of the target pattern.
pub fn signal_from_matches(
    symbol: &Option<Vec<Option<String>>>,
    direction: &Option<Vec<Option<String>>>,
    timeframe: &Option<Vec<Option<String>>>,
    entry: &Option<Vec<Option<String>>>,
    targets: &Vec<Vec<Option<String>>>,
    stop_loss: &Option<Vec<Option<String>>>,
) -> (r: Option<TradingSignal<String>>)
    ensures
        signal_of_matches(
            symbol.deep_view(),
            direction.deep_view(),
            timeframe.deep_view(),
            entry.deep_view(),
            targets.deep_view(),
            stop_loss.deep_view(),
        ) == match r {
            Some(s) => Some(s.text_model()),
            None => None,
        },
{
    let base_str = match group_in_match(symbol, 1) {
        Some(b) => b,
        None => return None,
    };
    let quote_str = match group_in_match(symbol, 2) {
        Some(q) => q,
        None => return None,
    };
    let base = match parse_asset(base_str.as_str()) {
        Some(a) => a,
        None => return None,
    };
    let quote = match parse_asset(quote_str.as_str()) {
        Some(a) => a,
        None => return None,
    };
    let direction = match group_in_match(direction, 1) {
        Some(d) => d,
        None => return None,
    };
    let side = if str_eq(direction.as_str(), "LONG") {
        Side::Long
    } else if str_eq(direction.as_str(), "SHORT") {
        Side::Short
    } else {
        return None;
    };
    let timeframe = match group_in_match(timeframe, 1) {
        Some(m) => match Timeframe::parse(m.as_str()) {
            Some(t) => t,
            None => Timeframe::H4,
        },
        None => Timeframe::H4,
    };
    let entry = match group_in_match(entry, 1) {
        Some(e) => e,
        None => return None,
    };
    let targets = target_texts(targets);
    if targets.len() == 0 {
        return None;
    }
    let stop_loss = match group_in_match(stop_loss, 1) {
        Some(s) => s,
        None => return None,
    };
    let r = TradingSignal { symbol: Symbol { base, quote }, side, entry, targets, timeframe, stop_loss };
    assert(r.text_model().targets == r.targets.deep_view());
    Some(r)
}

fn parse_cleaned(cleaned: &str) -> (r: Option<TradingSignal<String>>)
    ensures
        signal_in_cleaned(cleaned@) == match r {
            Some(s) => Some(s.text_model()),
            None => None,
        },
{
    signal_from_matches(
        &first_captures(SYMBOL_PATTERN, cleaned),
        &first_captures(DIRECTION_PATTERN, cleaned),
        &first_captures(TIMEFRAME_PATTERN, cleaned),
        &first_captures(ENTRY_PATTERN, cleaned),
        &all_captures(TARGETS_PATTERN, cleaned),
        &first_captures(STOP_LOSS_PATTERN, cleaned),
    )
}

/// Reads a trading signal from free text: the pair, the direction, the
/// entry, at least one take-profit target and the stop loss must all be
/// present; the timeframe defaults to 4h. Prices stay decimal text.
pub fn parse_trading_signal(text: &str) -> (r: Option<TradingSignal<String>>)
    ensures
        signal_from_text(text@) == match r {
            Some(s) => Some(s.text_model()),
            None => None,
        },
{
    let no_emoji = remove_emojis(text);
    match replace_all(DISCLAIMER_PATTERN, no_emoji.as_str(), "") {
        Some(cleaned) => parse_cleaned(cleaned.as_str()),
        None => None,
    }
}

/// The direction word of a side in a signal.
pub open spec fn direction_word(s: Side) -> Seq<char> {
    match s {
        Side::Long => "LONG"@,
        Side::Short => "SHORT"@,
    }
}

/// Target `i`, or `zero` when the signal has fewer targets.
pub open spec fn target_or(targets: Seq<Seq<char>>, i: int, zero: Seq<char>) -> Seq<char> {
    if 0 <= i < targets.len() {
        targets[i]
    } else {
        zero
    }
}

/// The price text shown for a missing target.
pub const ZERO_PRICE_TEXT: &'static str = "0.00000";

/// The HTML card announcing a signal whose prices are given as the texts to
/// show: pair and direction, timeframe, entry, the first three targets
/// (zero where missing) and the stop; a signal without targets is announced
/// as invalid.
pub open spec fn signal_card(s: SignalText) -> Seq<char> {
    if s.targets.len() == 0 {
        "Invalid signal: missing targets"@
    } else {
        "<b>"@ + symbol_name(s.symbol) + " "@ + direction_word(s.side)
            + "</b>\n<b>Timeframe:</b> "@ + timeframe_name(s.timeframe) + "\n<b>Entry:</b> "@
            + s.entry + "\n<b>Take Profit 1:</b> "@ + target_or(s.targets, 0, ZERO_PRICE_TEXT@)
            + "\n<b>Take Profit 2:</b> "@ + target_or(s.targets, 1, ZERO_PRICE_TEXT@)
            + "\n<b>Take Profit 3:</b> "@ + target_or(s.targets, 2, ZERO_PRICE_TEXT@)
            + "\n<b>Stop:</b> "@ + s.stop_loss + "\n"@
    }
}

/// A signal is announced as invalid exactly when it has no target; with a
/// target, the card opens with `<b>`, the pair and the direction, and shows
/// the first target as take profit 1.
pub proof fn lemma_card_shape(s: SignalText)
    ensures
        (signal_card(s) == "Invalid signal: missing targets"@) <==> s.targets.len() == 0,
        s.targets.len() > 0 ==> signal_card(s).len() >= 3 + symbol_name(s.symbol).len() + 1
            + direction_word(s.side).len() && signal_card(s).subrange(
            0,
            (3 + symbol_name(s.symbol).len() + 1 + direction_word(s.side).len()) as int,
        ) == "<b>"@ + symbol_name(s.symbol) + " "@ + direction_word(s.side),
        s.targets.len() > 0 ==> exists|k: int|
            0 <= k && k + ("\n<b>Take Profit 1:</b> "@ + s.targets[0] + "\n<b>Take Profit 2:</b> "@).len() <= signal_card(
                s,
            ).len() && #[trigger] signal_card(s).subrange(
                k,
                k + ("\n<b>Take Profit 1:</b> "@ + s.targets[0] + "\n<b>Take Profit 2:</b> "@).len(),
            ) == "\n<b>Take Profit 1:</b> "@ + s.targets[0] + "\n<b>Take Profit 2:</b> "@,
{
    reveal_strlit("Invalid signal: missing targets");
    reveal_strlit("<b>");
    reveal_strlit(" ");
    if s.targets.len() > 0 {
        let head = "<b>"@ + symbol_name(s.symbol) + " "@ + direction_word(s.side);
        let before = head + "</b>\n<b>Timeframe:</b> "@ + timeframe_name(s.timeframe)
            + "\n<b>Entry:</b> "@ + s.entry;
        let tp1 = "\n<b>Take Profit 1:</b> "@ + s.targets[0] + "\n<b>Take Profit 2:</b> "@;
        let card = signal_card(s);
        let rest = target_or(s.targets, 1, ZERO_PRICE_TEXT@)
            + "\n<b>Take Profit 3:</b> "@ + target_or(s.targets, 2, ZERO_PRICE_TEXT@)
            + "\n<b>Stop:</b> "@ + s.stop_loss + "\n"@;
        assert(card =~= before + tp1 + rest);
        assert(card.subrange(before.len() as int, (before.len() + tp1.len()) as int) =~= tp1);
        assert(card.subrange(0, head.len() as int) =~= head);
        assert(card[0] == '<');
        assert("Invalid signal: missing targets"@[0] == 'I');
    }
}

fn target_text(targets: &Vec<String>, i: usize) -> (r: &str)
    ensures
        r@ == target_or(targets.deep_view(), i as int, ZERO_PRICE_TEXT@),
{
    if i < targets.len() {
        targets[i].as_str()
    } else {
        ZERO_PRICE_TEXT
    }
}

/// Renders a signal as an HTML card. Its prices are the texts to show: the
/// engine writes each `f64` price with five decimals before the call, which
/// is floating-point work and stays outside this library.
pub fn format_signal(signal: &TradingSignal<String>) -> (r: String)
    ensures
        r@ == signal_card(signal.text_model()),
{
    if signal.targets.len() == 0 {
        return owned("Invalid signal: missing targets");
    }
    let direction = match signal.side {
        Side::Long => "LONG",
        Side::Short => "SHORT",
    };
    let mut r = owned("<b>");
    r.append(signal.symbol.to_string().as_str());
    r.append(" ");
    r.append(direction);
    r.append("</b>\n<b>Timeframe:</b> ");
    r.append(signal.timeframe.to_string().as_str());
    r.append("\n<b>Entry:</b> ");
    r.append(signal.entry.as_str());
    r.append("\n<b>Take Profit 1:</b> ");
    r.append(target_text(&signal.targets, 0));
    r.append("\n<b>Take Profit 2:</b> ");
    r.append(target_text(&signal.targets, 1));
    r.append("\n<b>Take Profit 3:</b> ");
    r.append(target_text(&signal.targets, 2));
    r.append("\n<b>Stop:</b> ");
    r.append(signal.stop_loss.as_str());
    r.append("\n");
    r
}

} // verus!
