//! Ingress adapters: the HTTP endpoints' rules and the Telegram channel
//! filter, from request to engine event.

use vstd::prelude::*;
use crate::domain::{IngressEvent, SignalReceivedEvent, SignalSource};
use crate::text::{
    ascii_lowercase, integer_text_value, owned, parse_i32, parse_i64, str_eq, to_ascii_lowercase, trim,
    trimmed,
};

verus! {

/// A manual trade request: the text of a signal.
#[derive(Debug, Clone)]
pub struct TradeRequest {
    pub text: String,
}

/// A signal posted to the ingress endpoint.
#[derive(Debug, Clone)]
pub struct SignalIngressRequest {
    pub source: String,
    pub external_id: Option<String>,
    pub text: String,
}

/// An HTTP reply: status code and body.
#[derive(Debug, Clone, PartialEq, Eq)]
pub struct HttpReply {
    pub status: u16,
    pub body: String,
}

/// The signal source a name denotes, once trimmed and lower-cased.
pub open spec fn source_named(raw: Seq<char>) -> Option<SignalSource> {
    let s = ascii_lowercase(trimmed(raw));
    if s == "telegram"@ {
        Some(SignalSource::Telegram)
    } else if s == "http"@ {
        Some(SignalSource::Http)
    } else if s == "replay"@ {
        Some(SignalSource::Replay)
    } else if s == "manual"@ {
        Some(SignalSource::Manual)
    } else {
        None
    }
}

/// Reads a signal source name, ignoring surrounding white space and ASCII
/// case.
pub fn parse_signal_source(raw: &str) -> (r: Result<SignalSource, &'static str>)
    ensures
        match r {
            Ok(s) => source_named(raw@) == Some(s),
            Err(m) => source_named(raw@) is None && m@ == "unsupported source"@,
        },
{
    let t = trim(raw);
    let s = to_ascii_lowercase(t.as_str());
    let s = s.as_str();
    if str_eq(s, "telegram") {
        Ok(SignalSource::Telegram)
    } else if str_eq(s, "http") {
        Ok(SignalSource::Http)
    } else if str_eq(s, "replay") {
        Ok(SignalSource::Replay)
    } else if str_eq(s, "manual") {
        Ok(SignalSource::Manual)
    } else {
        Err("unsupported source")
    }
}

fn reply(status: u16, body: &str) -> (r: HttpReply)
    ensures
        r.status == status,
        r.body@ == body@,
{
    HttpReply { status, body: owned(body) }
}

/// Whether a build version names a development build: `dev` in any ASCII
/// case, surrounding white space aside.
pub open spec fn names_dev_build(version: Seq<char>) -> bool {
    ascii_lowercase(trimmed(version)) == "dev"@
}

/// Whether a build version names a development build.
pub fn is_dev_build(version: &str) -> (r: bool)
    ensures
        r == names_dev_build(version@),
{
    let t = trim(version);
    let l = to_ascii_lowercase(t.as_str());
    str_eq(l.as_str(), "dev")
}

/// The refusal of a manual trade, if any: only development builds against
/// the test network accept them.
pub open spec fn manual_trade_refusal(build_version: Seq<char>, is_test: bool) -> Option<(u16, Seq<char>)> {
    if !names_dev_build(build_version) {
        Some((403u16, "Trade endpoint is only enabled in DEV builds"@))
    } else if !is_test {
        Some((400u16, "DEV build must use Binance testnet (Demo) for /trade"@))
    } else {
        None
    }
}

/// Admits a manual trade request: the event to hand to the engine, or the
/// reply that refuses it.
pub fn admit_manual_trade(build_version: &str, is_test: bool, request: TradeRequest) -> (r: Result<
    IngressEvent,
    HttpReply,
>)
    ensures
        match (r, manual_trade_refusal(build_version@, is_test)) {
            (Ok(IngressEvent::SignalReceived(e)), None) => e.source == SignalSource::Manual
                && e.external_id is None && e.text == request.text,
            (Err(reply), Some((status, body))) => reply.status == status && reply.body@ == body,
            _ => false,
        },
{
    if !is_dev_build(build_version) {
        return Err(reply(403, "Trade endpoint is only enabled in DEV builds"));
    }
    if !is_test {
        return Err(reply(400, "DEV build must use Binance testnet (Demo) for /trade"));
    }
    Ok(
        IngressEvent::SignalReceived(
            SignalReceivedEvent { source: SignalSource::Manual, external_id: None, text: request.text },
        ),
    )
}

/// Admits a posted signal: the event to hand to the engine, or the reply
/// that refuses an unknown source.
pub fn admit_signal(request: SignalIngressRequest) -> (r: Result<IngressEvent, HttpReply>)
    ensures
        match (r, source_named(request.source@)) {
            (Ok(IngressEvent::SignalReceived(e)), Some(s)) => e.source == s && e.external_id
                == request.external_id && e.text == request.text,
            (Err(reply), None) => reply.status == 400 && reply.body@ == "unsupported source"@,
            _ => false,
        },
{
    match parse_signal_source(request.source.as_str()) {
        Ok(source) => Ok(
            IngressEvent::SignalReceived(
                SignalReceivedEvent {
                    source,
                    external_id: request.external_id,
                    text: request.text,
                },
            ),
        ),
        Err(msg) => Err(reply(400, msg)),
    }
}

/// The reply once the engine took a manual trade (`true`) or could not
/// (`false`).
pub fn manual_trade_reply(delivered: bool) -> (r: HttpReply)
    ensures
        delivered ==> r.status == 200 && r.body@ == "Trade received"@,
        !delivered ==> r.status == 500 && r.body@ == "Engine unavailable"@,
{
    if delivered {
        reply(200, "Trade received")
    } else {
        reply(500, "Engine unavailable")
    }
}

/// The reply once the engine took a posted signal (`true`) or could not
/// (`false`).
pub fn signal_reply(delivered: bool) -> (r: HttpReply)
    ensures
        delivered ==> r.status == 200 && r.body@ == "Signal received"@,
        !delivered ==> r.status == 500 && r.body@ == "Engine unavailable"@,
{
    if delivered {
        reply(200, "Signal received")
    } else {
        reply(500, "Engine unavailable")
    }
}

/// The reply to a request for a path that no endpoint serves.
pub fn fallback_reply(path: &str) -> (r: HttpReply)
    ensures
        r.status == 404,
        r.body@ == "Endpoint '"@ + path@ + "' is not in our API."@,
{
    let mut body = owned("Endpoint '");
    body.append(path);
    body.append("' is not in our API.");
    HttpReply { status: 404, body }
}

/// The credentials of the Telegram account that reads the signals.
#[derive(Debug)]
pub struct TelegramCredentials {
    pub api_id: i32,
    pub api_hash: String,
    pub phone_number: String,
    pub password: String,
}

/// Settings of the Telegram adapter.
#[derive(Debug)]
pub struct TelegramConfig {
    /// The chat whose messages are signals.
    pub signal_source_id: i64,
    /// The file the Telegram session is kept in.
    pub session_path: String,
    pub credentials: TelegramCredentials,
}

/// The engine event for a Telegram message from chat `peer_id`: only the
/// signal chat's messages become events.
pub fn telegram_event(signal_source_id: i64, peer_id: i64, text: String) -> (r: Option<IngressEvent>)
    ensures
        peer_id != signal_source_id ==> r is None,
        peer_id == signal_source_id ==> (r matches Some(IngressEvent::SignalReceived(e))
            && e.source == SignalSource::Telegram && e.external_id is None && e.text == text),
{
    if peer_id != signal_source_id {
        return None;
    }
    Some(
        IngressEvent::SignalReceived(
            SignalReceivedEvent { source: SignalSource::Telegram, external_id: None, text },
        ),
    )
}

/// The session file of the Telegram adapter.
pub const TELEGRAM_SESSION_FILE: &'static str = "mordexel.session";

/// Whether `text` writes an integer in decimal within `[min, max]`.
pub open spec fn writes_integer_in(text: Seq<char>, min: int, max: int) -> bool {
    match integer_text_value(text) {
        Some(v) => min <= v <= max,
        None => false,
    }
}

/// Builds the Telegram settings from the texts of its environment
/// variables: the signal chat id and the API id must be decimal integers
/// (64-bit and 32-bit); the session is kept in `mordexel.session`. The chat
/// id is read first, so its error comes first.
pub fn telegram_config_from(
    api_id: &str,
    api_hash: String,
    phone_number: String,
    password: String,
    signals_id: &str,
) -> (r: Result<TelegramConfig, &'static str>)
    ensures
        match r {
            Ok(c) => integer_text_value(signals_id@) == Some(c.signal_source_id as int)
                && integer_text_value(api_id@) == Some(c.credentials.api_id as int)
                && c.credentials.api_hash == api_hash && c.credentials.phone_number == phone_number
                && c.credentials.password == password && c.session_path@ == TELEGRAM_SESSION_FILE@,
            Err(m) => if !writes_integer_in(signals_id@, i64::MIN as int, i64::MAX as int) {
                m@ == "Could not parse LC_SIGNALS_ID"@
            } else {
                !writes_integer_in(api_id@, i32::MIN as int, i32::MAX as int) && m@
                    == "Could not parse TELEGRAM_API_ID"@
            },
        },
{
    let signal_source_id = match parse_i64(signals_id) {
        Some(v) => v,
        None => return Err("Could not parse LC_SIGNALS_ID"),
    };
    let api_id = match parse_i32(api_id) {
        Some(v) => v,
        None => return Err("Could not parse TELEGRAM_API_ID"),
    };
    Ok(
        TelegramConfig {
            signal_source_id,
            session_path: owned(TELEGRAM_SESSION_FILE),
            credentials: TelegramCredentials { api_id, api_hash, phone_number, password },
        },
    )
}

} // verus!
