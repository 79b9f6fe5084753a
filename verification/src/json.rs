//! The JSON-RPC texts exchanged with EVM providers: requests for a native
//! balance and for an ERC-20 `balanceOf` call, and the members of replies.

use vstd::prelude::*;
use crate::hexcodec::nibble_char;
use crate::text::{push_str, string_from_chars};

verus! {

/// How a JSON string literal writes one character: quote and backslash
/// escaped, the five named control characters by name, other control
/// characters as `\u00XX`, everything else as it is.
pub open spec fn json_escape_char(c: char) -> Seq<char> {
    if c == '"' {
        seq!['\\', '"']
    } else if c == '\\' {
        seq!['\\', '\\']
    } else if c == '\u{8}' {
        seq!['\\', 'b']
    } else if c == '\t' {
        seq!['\\', 't']
    } else if c == '\n' {
        seq!['\\', 'n']
    } else if c == '\u{c}' {
        seq!['\\', 'f']
    } else if c == '\r' {
        seq!['\\', 'r']
    } else if (c as u32) < 32 {
        seq!['\\', 'u', '0', '0', nibble_char((c as u32) as int / 16), nibble_char((c as u32) as int % 16)]
    } else {
        seq![c]
    }
}

/// The escaped body of a JSON string literal.
pub open spec fn json_escape(s: Seq<char>) -> Seq<char>
    decreases s.len(),
{
    if s.len() == 0 {
        seq![]
    } else {
        json_escape(s.drop_last()) + json_escape_char(s.last())
    }
}

/// A JSON string literal: the escaped text between double quotes.
pub open spec fn json_quote(s: Seq<char>) -> Seq<char> {
    seq!['"'] + json_escape(s) + seq!['"']
}

/// `serde_json::to_string` of a string slice: the quoted literal, escaped as
/// `json_escape_char` states (the escape table of `serde_json::ser`). Writing
/// into a `Vec` cannot fail, so the error arm is never taken.
#[verifier::external_body]
fn json_string_literal(s: &str) -> (res: String)
    ensures
        res@ == json_quote(s@),
{
    match serde_json::to_string(s) {
        Ok(t) => t,
        Err(_) => String::new(),
    }
}

/// The compact JSON text of the request `eth_getBalance(address, "latest")`,
/// members in key order as `serde_json` writes a map.
pub open spec fn native_balance_request_text(address: Seq<char>) -> Seq<char> {
    "{\"id\":1,\"jsonrpc\":\"2.0\",\"method\":\"eth_getBalance\",\"params\":["@ + json_quote(address)
        + ",\"latest\"]}"@
}

/// Builds the JSON-RPC request for the native balance of `address`.
pub fn native_balance_request(address: &str) -> (res: String)
    ensures
        res@ == native_balance_request_text(address@),
{
    let mut out: Vec<char> = Vec::new();
    push_str(
        &mut out,
        "{\"id\":1,\"jsonrpc\":\"2.0\",\"method\":\"eth_getBalance\",\"params\":[",
    );
    let q = json_string_literal(address);
    push_str(&mut out, q.as_str());
    push_str(&mut out, ",\"latest\"]}");
    string_from_chars(&out)
}

/// The compact JSON text of the request `eth_call({data, to}, "latest")`,
/// members in key order as `serde_json` writes a map.
pub open spec fn token_balance_request_text(contract: Seq<char>, call_data: Seq<char>) -> Seq<char> {
    "{\"id\":1,\"jsonrpc\":\"2.0\",\"method\":\"eth_call\",\"params\":[{\"data\":"@ + json_quote(
        call_data,
    ) + ",\"to\":"@ + json_quote(contract) + "},\"latest\"]}"@
}

/// Builds the JSON-RPC request that calls `call_data` on `contract`.
pub fn token_balance_request(contract: &str, call_data: &str) -> (res: String)
    ensures
        res@ == token_balance_request_text(contract@, call_data@),
{
    let mut out: Vec<char> = Vec::new();
    push_str(
        &mut out,
        "{\"id\":1,\"jsonrpc\":\"2.0\",\"method\":\"eth_call\",\"params\":[{\"data\":",
    );
    let d = json_string_literal(call_data);
    push_str(&mut out, d.as_str());
    push_str(&mut out, ",\"to\":");
    let c = json_string_literal(contract);
    push_str(&mut out, c.as_str());
    push_str(&mut out, "},\"latest\"]}");
    string_from_chars(&out)
}

/// A member of a JSON reply: its JSON text, and its content where it is a string.
#[derive(Clone, Debug)]
pub struct JsonMember {
    pub text: String,
    pub as_str: Option<String>,
}

pub open spec fn opt_text(o: Option<String>) -> Option<Seq<char>> {
    match o {
        Some(s) => Some(s@),
        None => None,
    }
}

/// A member as text: its JSON text, and its content where it is a string.
pub open spec fn member_view(m: Option<JsonMember>) -> Option<(Seq<char>, Option<Seq<char>>)> {
    match m {
        Some(m) => Some((m.text@, opt_text(m.as_str))),
        None => None,
    }
}

/// What `response`, parsed as JSON once, holds under `first` and under
/// `second`: each member's text and string content, nothing where a member
/// (or an object) is missing; or the parse error's message.
pub uninterp spec fn json_members_of(response: Seq<char>, first: Seq<char>, second: Seq<char>) -> Result<
    (Option<(Seq<char>, Option<Seq<char>>)>, Option<(Seq<char>, Option<Seq<char>>)>),
    Seq<char>,
>;

pub open spec fn members_result_view(r: Result<(Option<JsonMember>, Option<JsonMember>), String>) -> Result<
    (Option<(Seq<char>, Option<Seq<char>>)>, Option<(Seq<char>, Option<Seq<char>>)>),
    Seq<char>,
> {
    match r {
        Ok(m) => Ok((member_view(m.0), member_view(m.1))),
        Err(e) => Err(e@),
    }
}

/// `serde_json::from_str` into a `Value`, then `Value::get` of both keys with
/// each member's `to_string` and `as_str`, or the parse error's `to_string`:
/// a function of the response and keys alone.
#[verifier::external_body]
pub(crate) fn json_members(response: &str, first: &str, second: &str) -> (res: Result<(Option<JsonMember>, Option<JsonMember>), String>)
    ensures
        json_members_of(response@, first@, second@) == members_result_view(res),
{
    match serde_json::from_str::<serde_json::Value>(response) {
        Ok(v) => {
            let to_member = |m: &serde_json::Value|
                JsonMember { text: m.to_string(), as_str: m.as_str().map(String::from) };
            Ok((v.get(first).map(to_member), v.get(second).map(to_member)))
        },
        Err(e) => Err(e.to_string()),
    }
}

} // verus!
