//! The backend's side of the gateway: the command envelope that goes out,
//! and what a finished exchange means for the task that asked for it.
//!
//! The envelope is one JSON object with the keys `args`, `cmd`, `format`,
//! `size`, `token` and `user`, in that order and without whitespace. The
//! socket itself is the caller's business: this module only says what is
//! sent and how each way an exchange can end is recorded.
use vstd::prelude::*;
use vstd::utf8::{decode_utf8, valid_utf8};
use crate::message::{CommandRequest, ErrorKind, Outcome, OutcomeView, RequestView};

verus! {

/// `serde_json::Error`, the error of the JSON encoder. It is carried, never
/// looked into.
#[verifier::external_type_specification]
#[verifier::external_body]
pub struct ExJsonError(serde_json::Error);

/// The JSON text that `serde_json` writes for a string: the string between
/// double quotes, with the escapes JSON asks for.
pub uninterp spec fn json_string_text(s: Seq<char>) -> Seq<char>;

/// `serde_json::to_string` on a string slice. Nothing is proved of it. The
/// contract claims that the call succeeds on every string, and gives its
/// text the name `json_string_text`. It succeeds because a string is
/// written as it stands, with no map key or nested value that could be
/// refused, and into a byte vector in memory, which takes every write.
#[verifier::external_body]
fn json_quote(s: &str) -> (r: Result<String, serde_json::Error>)
    ensures
        r is Ok,
        r matches Ok(t) ==> t@ == json_string_text(s@),
{
    serde_json::to_string(s)
}

/// One decimal digit.
pub open spec fn digit_text(d: int) -> Seq<char> {
    if d == 0 {
        "0"@
    } else if d == 1 {
        "1"@
    } else if d == 2 {
        "2"@
    } else if d == 3 {
        "3"@
    } else if d == 4 {
        "4"@
    } else if d == 5 {
        "5"@
    } else if d == 6 {
        "6"@
    } else if d == 7 {
        "7"@
    } else if d == 8 {
        "8"@
    } else {
        "9"@
    }
}

/// A natural number in decimal, without leading zeros.
pub open spec fn decimal_digits(n: nat) -> Seq<char>
    decreases n,
{
    if n < 10 {
        digit_text(n as int)
    } else {
        decimal_digits(n / 10) + digit_text((n % 10) as int)
    }
}

/// An integer in decimal, with a minus sign where it is negative.
pub open spec fn decimal_text(n: int) -> Seq<char> {
    if n < 0 {
        "-"@ + decimal_digits((-n) as nat)
    } else {
        decimal_digits(n as nat)
    }
}

fn digit_str(d: u32) -> (r: &'static str)
    requires
        d < 10,
    ensures
        r@ == digit_text(d as int),
{
    if d == 0 {
        "0"
    } else if d == 1 {
        "1"
    } else if d == 2 {
        "2"
    } else if d == 3 {
        "3"
    } else if d == 4 {
        "4"
    } else if d == 5 {
        "5"
    } else if d == 6 {
        "6"
    } else if d == 7 {
        "7"
    } else if d == 8 {
        "8"
    } else {
        "9"
    }
}

fn push_decimal(out: &mut String, n: u32)
    ensures
        final(out)@ == old(out)@ + decimal_digits(n as nat),
    decreases n,
{
    if n >= 10 {
        push_decimal(out, n / 10);
    }
    out.append(digit_str(n % 10));
    assert(out@ =~= old(out)@ + decimal_digits(n as nat));
}

/// The decimal text of `n`.
pub fn decimal_string(n: i32) -> (r: String)
    ensures
        r@ == decimal_text(n as int),
{
    let mut out = String::new();
    let wide: i64 = n as i64;
    let magnitude: u32 = if n < 0 {
        out.append("-");
        (-wide) as u32
    } else {
        n as u32
    };
    push_decimal(&mut out, magnitude);
    assert(out@ =~= decimal_text(n as int));
    out
}

/// The envelope around six fields that are JSON text already.
pub open spec fn envelope_text(
    user_q: Seq<char>,
    cmd_q: Seq<char>,
    format_q: Seq<char>,
    token_q: Seq<char>,
    size: i32,
    args_q: Seq<char>,
) -> Seq<char> {
    "{\"args\":"@ + args_q + ",\"cmd\":"@ + cmd_q + ",\"format\":"@ + format_q + ",\"size\":"@
        + decimal_text(size as int) + ",\"token\":"@ + token_q + ",\"user\":"@ + user_q + "}"@
}

/// The envelope of a request: each string field as JSON text, `size` in
/// decimal. The request identifier stays with the gateway.
pub open spec fn command_text(r: RequestView) -> Seq<char> {
    envelope_text(
        json_string_text(r.user),
        json_string_text(r.cmd),
        json_string_text(r.format),
        json_string_text(r.token),
        r.size,
        json_string_text(r.args),
    )
}

/// Puts the envelope together from fields that are JSON text already.
pub fn assemble_envelope(
    user_q: &str,
    cmd_q: &str,
    format_q: &str,
    token_q: &str,
    size: i32,
    args_q: &str,
) -> (r: String)
    ensures
        r@ == envelope_text(user_q@, cmd_q@, format_q@, token_q@, size, args_q@),
{
    let size_text = decimal_string(size);
    let mut out = String::from_str("{\"args\":");
    out.append(args_q);
    out.append(",\"cmd\":");
    out.append(cmd_q);
    out.append(",\"format\":");
    out.append(format_q);
    out.append(",\"size\":");
    out.append(size_text.as_str());
    out.append(",\"token\":");
    out.append(token_q);
    out.append(",\"user\":");
    out.append(user_q);
    out.append("}");
    out
}

/// Encodes the envelope of `req`. An error of the encoder would come out
/// as `SerializationError`; on strings and an integer it reports none.
pub fn encode_command(req: &CommandRequest) -> (r: Result<String, ErrorKind>)
    ensures
        r matches Ok(text) && text@ == command_text(req@),
{
    let user_q = match json_quote(req.user.as_str()) {
        Ok(t) => t,
        Err(_) => {
            return Err(ErrorKind::SerializationError);
        },
    };
    let cmd_q = match json_quote(req.cmd.as_str()) {
        Ok(t) => t,
        Err(_) => {
            return Err(ErrorKind::SerializationError);
        },
    };
    let format_q = match json_quote(req.format.as_str()) {
        Ok(t) => t,
        Err(_) => {
            return Err(ErrorKind::SerializationError);
        },
    };
    let token_q = match json_quote(req.token.as_str()) {
        Ok(t) => t,
        Err(_) => {
            return Err(ErrorKind::SerializationError);
        },
    };
    let args_q = match json_quote(req.args.as_str()) {
        Ok(t) => t,
        Err(_) => {
            return Err(ErrorKind::SerializationError);
        },
    };
    Ok(
        assemble_envelope(
            user_q.as_str(),
            cmd_q.as_str(),
            format_q.as_str(),
            token_q.as_str(),
            req.size,
            args_q.as_str(),
        ),
    )
}

/// How one exchange with the backend ended. The three ways the transport can
/// fail stay apart, each with the transport's own words.
#[derive(Clone, Debug, PartialEq, Eq)]
pub enum Exchange {
    /// The backend answered.
    Reply(String),
    /// No connection could be made.
    ConnectFailed(String),
    /// The command could not be sent.
    SendFailed(String),
    /// No reply could be received.
    ReceiveFailed(String),
    /// A reply came that is no text.
    InvalidReply,
}

pub enum ExchangeView {
    Reply(Seq<char>),
    ConnectFailed(Seq<char>),
    SendFailed(Seq<char>),
    ReceiveFailed(Seq<char>),
    InvalidReply,
}

impl View for Exchange {
    type V = ExchangeView;

    open spec fn view(&self) -> ExchangeView {
        match self {
            Exchange::Reply(s) => ExchangeView::Reply(s@),
            Exchange::ConnectFailed(s) => ExchangeView::ConnectFailed(s@),
            Exchange::SendFailed(s) => ExchangeView::SendFailed(s@),
            Exchange::ReceiveFailed(s) => ExchangeView::ReceiveFailed(s@),
            Exchange::InvalidReply => ExchangeView::InvalidReply,
        }
    }
}

/// The outcome that an exchange leaves for its task: the reply as it came,
/// or a failure that names the step that failed.
pub open spec fn exchange_outcome(x: ExchangeView) -> OutcomeView {
    match x {
        ExchangeView::Reply(s) => OutcomeView::Success(s),
        ExchangeView::ConnectFailed(d) => OutcomeView::Failure(
            ErrorKind::TransportError,
            "backend connection failed: "@ + d,
        ),
        ExchangeView::SendFailed(d) => OutcomeView::Failure(
            ErrorKind::TransportError,
            "backend send failed: "@ + d,
        ),
        ExchangeView::ReceiveFailed(d) => OutcomeView::Failure(
            ErrorKind::TransportError,
            "backend receive failed: "@ + d,
        ),
        ExchangeView::InvalidReply => OutcomeView::Failure(
            ErrorKind::SerializationError,
            "backend reply is not valid text"@,
        ),
    }
}

/// `String::from_utf8`. Nothing is proved of it: the contract claims that
/// the call succeeds exactly on valid UTF-8 and then yields the characters
/// that the bytes encode.
#[verifier::external_body]
fn text_of_bytes(bytes: Vec<u8>) -> (r: Option<String>)
    ensures
        match r {
            Some(text) => valid_utf8(bytes@) && text@ == decode_utf8(bytes@),
            None => !valid_utf8(bytes@),
        },
{
    String::from_utf8(bytes).ok()
}

/// What the bytes of a reply mean: the text they encode, or `InvalidReply`
/// where they are no UTF-8.
pub open spec fn reply_exchange(bytes: Seq<u8>) -> ExchangeView {
    if valid_utf8(bytes) {
        ExchangeView::Reply(decode_utf8(bytes))
    } else {
        ExchangeView::InvalidReply
    }
}

/// Reads the reply that came off the socket.
pub fn exchange_of_reply(bytes: Vec<u8>) -> (r: Exchange)
    ensures
        r@ == reply_exchange(bytes@),
{
    match text_of_bytes(bytes) {
        Some(text) => Exchange::Reply(text),
        None => Exchange::InvalidReply,
    }
}

fn prefixed(prefix: &str, detail: &str) -> (r: String)
    ensures
        r@ == prefix@ + detail@,
{
    let mut out = String::from_str(prefix);
    out.append(detail);
    out
}

/// Turns the end of an exchange into the outcome to store for its task.
pub fn outcome_of_exchange(x: Exchange) -> (r: Outcome)
    ensures
        r@ == exchange_outcome(x@),
{
    match x {
        Exchange::Reply(s) => Outcome::Success(s),
        Exchange::ConnectFailed(d) => Outcome::Failure(
            ErrorKind::TransportError,
            prefixed("backend connection failed: ", d.as_str()),
        ),
        Exchange::SendFailed(d) => Outcome::Failure(
            ErrorKind::TransportError,
            prefixed("backend send failed: ", d.as_str()),
        ),
        Exchange::ReceiveFailed(d) => Outcome::Failure(
            ErrorKind::TransportError,
            prefixed("backend receive failed: ", d.as_str()),
        ),
        Exchange::InvalidReply => Outcome::Failure(
            ErrorKind::SerializationError,
            String::from_str("backend reply is not valid text"),
        ),
    }
}

} // verus!
