//! The wire protocol: one JSON request line out, one JSON reply line back.
use vstd::prelude::*;

use crate::error::PlaywrightError;
#[allow(unused_imports)]
use crate::json::{
    as_bool, as_text, as_u64, error_text, is_null, is_object, json_bool_of, json_is_null_of,
    json_is_object_of, json_member_of, json_parsed, json_string_text, json_string_value, json_text_of,
    json_u64_of, json_value_text, member, parse_json, string_to_json, text_value, value_to_json,
};

verus! {

/// Message of a `success: false` reply that carries no text.
pub const UNKNOWN_ERROR: &'static str = "알 수 없는 오류";

/// Text of the value returned for a successful reply that carries no data.
pub const SUCCESS_TEXT: &'static str = "성공";

pub open spec fn digit_char(d: nat) -> char {
    if d == 0 { '0' }
    else if d == 1 { '1' }
    else if d == 2 { '2' }
    else if d == 3 { '3' }
    else if d == 4 { '4' }
    else if d == 5 { '5' }
    else if d == 6 { '6' }
    else if d == 7 { '7' }
    else if d == 8 { '8' }
    else { '9' }
}

/// Decimal digits of `n`, most significant first, without leading zeros.
pub open spec fn decimal(n: nat) -> Seq<char>
    decreases n,
{
    if n < 10 {
        seq![digit_char(n)]
    } else {
        decimal(n / 10) + seq![digit_char(n % 10)]
    }
}

fn digit_text(d: u64) -> (r: &'static str)
    requires
        d < 10,
    ensures
        r@ == seq![digit_char(d as nat)],
{
    proof {
        reveal_strlit("0");
        reveal_strlit("1");
        reveal_strlit("2");
        reveal_strlit("3");
        reveal_strlit("4");
        reveal_strlit("5");
        reveal_strlit("6");
        reveal_strlit("7");
        reveal_strlit("8");
        reveal_strlit("9");
    }
    let r = if d == 0 { "0" }
    else if d == 1 { "1" }
    else if d == 2 { "2" }
    else if d == 3 { "3" }
    else if d == 4 { "4" }
    else if d == 5 { "5" }
    else if d == 6 { "6" }
    else if d == 7 { "7" }
    else if d == 8 { "8" }
    else { "9" };
    assert(r@ =~= seq![digit_char(d as nat)]);
    r
}

/// Appends the decimal digits of `n` to `out`.
pub fn push_decimal(out: &mut String, n: u64)
    ensures
        final(out)@ == old(out)@ + decimal(n as nat),
    decreases n,
{
    if n >= 10 {
        push_decimal(out, n / 10);
    }
    out.append(digit_text(n % 10));
    proof {
        assert(old(out)@ + decimal(n as nat) =~= old(out)@ + (if n >= 10 { decimal((n / 10) as nat) } else { seq![] }) + seq![digit_char((n % 10) as nat)]);
    }
}

/// The request line for command `id`, given the JSON texts of its action and
/// of its parameters: `{"id":<id>,"action":<action>,"params":<params>}` and a newline.
pub open spec fn command_text(id: nat, action_json: Seq<char>, params_json: Seq<char>) -> Seq<char> {
    "{\"id\":"@ + decimal(id) + ",\"action\":"@ + action_json + ",\"params\":"@ + params_json + "}\n"@
}

/// Frames one request line from the JSON texts of its parts.
pub fn command_line(id: u64, action_json: &str, params_json: &str) -> (r: String)
    ensures
        r@ == command_text(id as nat, action_json@, params_json@),
{
    let mut line = String::from_str("{\"id\":");
    push_decimal(&mut line, id);
    line.append(",\"action\":");
    line.append(action_json);
    line.append(",\"params\":");
    line.append(params_json);
    line.append("}\n");
    line
}

/// Encodes the request line of command `id`. The action is written as a JSON
/// string and the parameters as the compact JSON text of the value.
pub fn encode_command(id: u64, action: &str, params: &serde_json::Value) -> (r: Result<String, PlaywrightError>)
    ensures
        r is Ok,
        r is Ok ==> r->Ok_0@ == command_text(id as nat, json_string_text(action@), json_value_text(*params)),
{
    let action_json = match string_to_json(action) {
        Ok(s) => s,
        Err(e) => return Err(PlaywrightError::JsonError(error_text(&e))),
    };
    let params_json = match value_to_json(params) {
        Ok(s) => s,
        Err(e) => return Err(PlaywrightError::JsonError(error_text(&e))),
    };
    Ok(command_line(id, action_json.as_str(), params_json.as_str()))
}

/// One reply line of the worker, as the protocol reads it. For `id`,
/// `success`, `ready` and `error`, absent and `null` members are both `None`;
/// `data` is `None` only where the member is absent.
#[derive(Debug)]
pub struct Reply {
    pub id: Option<u64>,
    pub success: Option<bool>,
    pub data: Option<serde_json::Value>,
    /// `data` read as a JSON string, where it is one.
    pub data_text: Option<String>,
    pub ready: Option<bool>,
    pub error: Option<String>,
}

/// The worker is ready exactly when its line says `"ready": true`.
pub open spec fn is_ready(reply: Reply) -> bool {
    reply.ready == Some(true)
}

/// A reply reports failure when it carries an `error`, or says `"success": false`.
pub open spec fn reports_failure(reply: Reply) -> bool {
    reply.error is Some || reply.success == Some(false)
}

/// The worker's own message of a failing reply: the `error` text; else the
/// `data` text; else the generic message.
pub open spec fn failure_message(reply: Reply) -> Seq<char> {
    if reply.error is Some {
        reply.error->Some_0@
    } else if reply.data_text is Some {
        reply.data_text->Some_0@
    } else {
        UNKNOWN_ERROR@
    }
}

/// What a reply resolves to: its `data` (`None` where it sent none), or, where
/// it reports failure, the worker's message.
pub open spec fn outcome(reply: Reply) -> Result<Option<serde_json::Value>, Seq<char>> {
    if reports_failure(reply) {
        Err(failure_message(reply))
    } else {
        Ok(reply.data)
    }
}

/// `r` is what `outcome` gives, the message carried as a `ResponseError`.
pub open spec fn resolves_to<T>(r: Result<T, PlaywrightError>, o: Result<T, Seq<char>>) -> bool {
    match o {
        Ok(d) => r == Ok::<T, PlaywrightError>(d),
        Err(m) => r is Err && r->Err_0 is ResponseError && r->Err_0->ResponseError_0@ == m,
    }
}

pub fn resolve_reply(reply: Reply) -> (r: Result<Option<serde_json::Value>, PlaywrightError>)
    ensures
        resolves_to(r, outcome(reply)),
        reply.error is Some ==> r == Err::<Option<serde_json::Value>, _>(
            PlaywrightError::ResponseError(reply.error->Some_0),
        ),
{
    if let Some(e) = reply.error {
        return Err(PlaywrightError::ResponseError(e));
    }
    if reply.success == Some(false) {
        let message = match reply.data_text {
            Some(t) => t,
            None => String::from_str(UNKNOWN_ERROR),
        };
        return Err(PlaywrightError::ResponseError(message));
    }
    Ok(reply.data)
}

pub open spec fn opt_text(o: Option<String>) -> Option<Seq<char>> {
    match o {
        Some(s) => Some(s@),
        None => None,
    }
}

/// The member of `v` under `key`, where it is present and not `null`.
pub open spec fn present_member(v: serde_json::Value, key: Seq<char>) -> Option<serde_json::Value> {
    match json_member_of(v, key) {
        Some(m) => if json_is_null_of(m) { None } else { Some(m) },
        None => None,
    }
}

/// An optional integer member: `Some(n)` for its value, `None` where it is of
/// another type.
pub open spec fn u64_member(v: serde_json::Value, key: Seq<char>) -> Option<Option<u64>> {
    match present_member(v, key) {
        None => Some(None),
        Some(m) => match json_u64_of(m) {
            Some(n) => Some(Some(n)),
            None => None,
        },
    }
}

/// An optional boolean member, as `u64_member`.
pub open spec fn bool_member(v: serde_json::Value, key: Seq<char>) -> Option<Option<bool>> {
    match present_member(v, key) {
        None => Some(None),
        Some(m) => match json_bool_of(m) {
            Some(b) => Some(Some(b)),
            None => None,
        },
    }
}

/// An optional string member, as `u64_member`.
pub open spec fn text_member(v: serde_json::Value, key: Seq<char>) -> Option<Option<Seq<char>>> {
    match present_member(v, key) {
        None => Some(None),
        Some(m) => match json_text_of(m) {
            Some(t) => Some(Some(t)),
            None => None,
        },
    }
}

/// A line is a reply: one JSON object whose `id`, `success`, `ready` and
/// `error` members, where present and not `null`, have their types.
pub open spec fn reply_decodes(text: Seq<char>) -> bool {
    match json_parsed(text) {
        None => false,
        Some(v) => {
            &&& json_is_object_of(v)
            &&& u64_member(v, "id"@) is Some
            &&& bool_member(v, "success"@) is Some
            &&& bool_member(v, "ready"@) is Some
            &&& text_member(v, "error"@) is Some
        },
    }
}

/// `reply` is what line `text` says.
pub open spec fn decodes_to(text: Seq<char>, reply: Reply) -> bool {
    let v = json_parsed(text)->Some_0;
    &&& reply_decodes(text)
    &&& reply.id == u64_member(v, "id"@)->Some_0
    &&& reply.success == bool_member(v, "success"@)->Some_0
    &&& reply.ready == bool_member(v, "ready"@)->Some_0
    &&& opt_text(reply.error) == text_member(v, "error"@)->Some_0
    &&& reply.data == json_member_of(v, "data"@)
    &&& opt_text(reply.data_text) == match reply.data {
        Some(d) => json_text_of(d),
        None => None,
    }
}

fn wrong_type(key: &str) -> (r: PlaywrightError)
    ensures
        r is JsonError,
{
    PlaywrightError::JsonError(String::from_str("invalid type for member `").concat(key).concat("`"))
}

fn present<'a>(v: &'a serde_json::Value, key: &str) -> (r: Option<&'a serde_json::Value>)
    ensures
        r is Some <==> present_member(*v, key@) is Some,
        r is Some ==> *r->Some_0 == present_member(*v, key@)->Some_0,
{
    match member(v, key) {
        None => None,
        Some(m) => if is_null(m) { None } else { Some(m) },
    }
}

fn read_bool(v: &serde_json::Value, key: &str) -> (r: Result<Option<bool>, PlaywrightError>)
    ensures
        r is Ok <==> bool_member(*v, key@) is Some,
        r is Ok ==> r->Ok_0 == bool_member(*v, key@)->Some_0,
        r is Err ==> r->Err_0 is JsonError,
{
    match present(v, key) {
        None => Ok(None),
        Some(m) => match as_bool(m) {
            Some(b) => Ok(Some(b)),
            None => Err(wrong_type(key)),
        },
    }
}

fn read_u64(v: &serde_json::Value, key: &str) -> (r: Result<Option<u64>, PlaywrightError>)
    ensures
        r is Ok <==> u64_member(*v, key@) is Some,
        r is Ok ==> r->Ok_0 == u64_member(*v, key@)->Some_0,
        r is Err ==> r->Err_0 is JsonError,
{
    match present(v, key) {
        None => Ok(None),
        Some(m) => match as_u64(m) {
            Some(n) => Ok(Some(n)),
            None => Err(wrong_type(key)),
        },
    }
}

fn read_text(v: &serde_json::Value, key: &str) -> (r: Result<Option<String>, PlaywrightError>)
    ensures
        r is Ok <==> text_member(*v, key@) is Some,
        r is Ok ==> opt_text(r->Ok_0) == text_member(*v, key@)->Some_0,
        r is Err ==> r->Err_0 is JsonError,
{
    match present(v, key) {
        None => Ok(None),
        Some(m) => match as_text(m) {
            Some(s) => Ok(Some(s)),
            None => Err(wrong_type(key)),
        },
    }
}

/// Reads one reply line. It must be a JSON object; its members `id`,
/// `success`, `ready` and `error` must have their types where present and not
/// `null`. Any other member is ignored.
pub fn decode_reply(line: &str) -> (r: Result<Reply, PlaywrightError>)
    ensures
        r is Ok <==> reply_decodes(line@),
        r is Ok ==> decodes_to(line@, r->Ok_0),
        r is Err ==> r->Err_0 is JsonError,
{
    let v = match parse_json(line) {
        Ok(v) => v,
        Err(e) => return Err(PlaywrightError::JsonError(error_text(&e))),
    };
    if !is_object(&v) {
        return Err(PlaywrightError::JsonError(String::from_str("a reply must be a JSON object")));
    }
    let id = read_u64(&v, "id")?;
    let success = read_bool(&v, "success")?;
    let ready = read_bool(&v, "ready")?;
    let error = read_text(&v, "error")?;
    let (data, data_text) = match member(&v, "data") {
        None => (None, None),
        Some(m) => (Some(m.clone()), as_text(m)),
    };
    Ok(Reply { id, success, data, data_text, ready, error })
}

/// `r` is what a request returns for `reply`: the worker's message where the
/// reply reports failure; else its `data`; else the success text.
pub open spec fn answers(reply: Reply, r: Result<serde_json::Value, PlaywrightError>) -> bool {
    match outcome(reply) {
        Err(m) => resolves_to(r, Err(m)),
        Ok(Some(d)) => r == Ok::<_, PlaywrightError>(d),
        Ok(None) => r == Ok::<_, PlaywrightError>(json_string_value(SUCCESS_TEXT@)),
    }
}

/// What a request returns for its reply.
pub fn reply_value(reply: Reply) -> (r: Result<serde_json::Value, PlaywrightError>)
    ensures
        answers(reply, r),
{
    match resolve_reply(reply) {
        Ok(Some(v)) => Ok(v),
        Ok(None) => Ok(text_value(String::from_str(SUCCESS_TEXT))),
        Err(e) => Err(e),
    }
}

/// A reply that says `"success": true` with data `x` resolves to `x`, unchanged.
pub proof fn lemma_success_returns_data(reply: Reply, x: serde_json::Value)
    requires
        reply.success == Some(true),
        reply.error is None,
        reply.data == Some(x),
    ensures
        outcome(reply) == Ok::<_, Seq<char>>(Some(x)),
{
}

/// A reply with a non-empty `error` resolves to a failure with exactly that
/// text, whatever else it says.
pub proof fn lemma_error_text_wins(reply: Reply)
    requires
        reply.error is Some,
        reply.error->Some_0@.len() > 0,
    ensures
        outcome(reply) == Err::<Option<serde_json::Value>, _>(reply.error->Some_0@),
{
}

/// A reply with `"success": false` and no `error` resolves to a failure with
/// its `data` text, or with the generic message where `data` is no string.
pub proof fn lemma_failure_message(reply: Reply)
    requires
        reply.success == Some(false),
        reply.error is None,
    ensures
        reply.data_text is Some ==> outcome(reply) == Err::<Option<serde_json::Value>, _>(reply.data_text->Some_0@),
        reply.data_text is None ==> outcome(reply) == Err::<Option<serde_json::Value>, _>(UNKNOWN_ERROR@),
{
}

} // verus!
