//! The AI chat gateway: provider registry and request assembly.
//!
//! A chat invocation names a provider out of a small fixed registry,
//! a model, one user message and an API key. The gateway builds the
//! complete request — endpoint URL, JSON body with exactly one
//! user-role message, and the bearer authorization header value — or
//! rejects an unknown provider before anything else happens. Sending
//! the request is host I/O and is left to the surrounding application.

use crate::errors::CommandError;
use crate::text::{push_char, str_eq};
use vstd::prelude::*;
use vstd::string::{StrSliceExecFns, StringExecFns};

verus! {

/// The chat-completions endpoint of a registered provider, or `None`
/// for a name outside the registry.
pub open spec fn provider_endpoint(p: Seq<char>) -> Option<Seq<char>> {
    if p == "openrouter"@ {
        Option::Some("https://openrouter.ai/api/v1/chat/completions"@)
    } else if p == "groq"@ {
        Option::Some("https://api.groq.com/openai/v1/chat/completions"@)
    } else {
        Option::None
    }
}

/// The lower-case hexadecimal digit for a value below sixteen.
pub open spec fn hex_digit(n: u32) -> char {
    if n == 0 { '0' }
    else if n == 1 { '1' }
    else if n == 2 { '2' }
    else if n == 3 { '3' }
    else if n == 4 { '4' }
    else if n == 5 { '5' }
    else if n == 6 { '6' }
    else if n == 7 { '7' }
    else if n == 8 { '8' }
    else if n == 9 { '9' }
    else if n == 10 { 'a' }
    else if n == 11 { 'b' }
    else if n == 12 { 'c' }
    else if n == 13 { 'd' }
    else if n == 14 { 'e' }
    else { 'f' }
}

/// How one character appears inside a JSON string literal: quotes and
/// backslashes are escaped, control characters become `\u00XX`, and
/// every other character stands for itself.
pub open spec fn escape_char(c: char) -> Seq<char> {
    if c == '"' {
        seq!['\\', '"']
    } else if c == '\\' {
        seq!['\\', '\\']
    } else if (c as u32) < 32 {
        seq!['\\', 'u', '0', '0', hex_digit((c as u32) / 16), hex_digit((c as u32) % 16)]
    } else {
        seq![c]
    }
}

/// A whole character sequence escaped for use inside a JSON string
/// literal.
pub open spec fn json_escape(s: Seq<char>) -> Seq<char>
    decreases s.len(),
{
    if s.len() == 0 {
        Seq::empty()
    } else {
        json_escape(s.drop_last()) + escape_char(s.last())
    }
}

/// The request body built for a chat call: one user-role message,
/// tagged with the model.
pub open spec fn chat_body_view(model: Seq<char>, message: Seq<char>) -> Seq<char> {
    "{\"model\":\""@ + json_escape(model)
        + "\",\"messages\":[{\"role\":\"user\",\"content\":\""@ + json_escape(message)
        + "\"}]}"@
}

/// The bearer authorization header value for an API key.
pub open spec fn bearer_view(api_key: Seq<char>) -> Seq<char> {
    "Bearer "@ + api_key
}

/// A fully assembled chat request, ready to be sent over HTTPS.
pub struct ChatRequest {
    /// The provider's chat-completions endpoint.
    pub url: String,
    /// The JSON request body.
    pub body: String,
    /// The value of the `Authorization` header.
    pub auth: String,
}

/// Appends `hex_digit(n)` to `out`.
fn push_hex_digit(out: &mut String, n: u32)
    requires
        n < 16,
    ensures
        final(out)@ == old(out)@.push(hex_digit(n)),
{
    let c: char = if n == 0 { '0' }
    else if n == 1 { '1' }
    else if n == 2 { '2' }
    else if n == 3 { '3' }
    else if n == 4 { '4' }
    else if n == 5 { '5' }
    else if n == 6 { '6' }
    else if n == 7 { '7' }
    else if n == 8 { '8' }
    else if n == 9 { '9' }
    else if n == 10 { 'a' }
    else if n == 11 { 'b' }
    else if n == 12 { 'c' }
    else if n == 13 { 'd' }
    else if n == 14 { 'e' }
    else { 'f' };
    push_char(out, c);
}

/// Appends the JSON-escaped form of `s` to `out`.
fn append_json_escaped(out: &mut String, s: &str)
    ensures
        final(out)@ == old(out)@ + json_escape(s@),
{
    let ghost base: Seq<char> = out@;
    let n = s.unicode_len();
    assert(out@ =~= base + json_escape(s@.subrange(0, 0)));
    for i in 0..n
        invariant
            n == s@.len(),
            out@ == base + json_escape(s@.subrange(0, i as int)),
    {
        let c = s.get_char(i);
        let ghost prefix: Seq<char> = s@.subrange(0, i as int);
        let ghost extended: Seq<char> = s@.subrange(0, i + 1 as int);
        proof {
            assert(extended.drop_last() =~= prefix);
            assert(extended.last() == c);
        }
        if c == '"' {
            push_char(out, '\\');
            push_char(out, '"');
        } else if c == '\\' {
            push_char(out, '\\');
            push_char(out, '\\');
        } else {
            let u = c as u32;
            if u < 32 {
                push_char(out, '\\');
                push_char(out, 'u');
                push_char(out, '0');
                push_char(out, '0');
                push_hex_digit(out, u / 16);
                push_hex_digit(out, u % 16);
            } else {
                push_char(out, c);
            }
        }
        assert(out@ =~= base + json_escape(extended));
    }
    assert(s@.subrange(0, n as int) =~= s@);
}

/// Builds the JSON body of a chat request: exactly one user-role
/// message holding `message`, tagged with `model`.
pub fn build_chat_body(model: &str, message: &str) -> (r: String)
    ensures
        r@ == chat_body_view(model@, message@),
{
    let mut out = String::from_str("{\"model\":\"");
    append_json_escaped(&mut out, model);
    out.append("\",\"messages\":[{\"role\":\"user\",\"content\":\"");
    append_json_escaped(&mut out, message);
    out.append("\"}]}");
    proof {
        assert(out@ =~= chat_body_view(model@, message@));
    }
    out
}

/// Looks a provider name up in the registry.
pub fn endpoint_for(provider: &str) -> (r: Option<String>)
    ensures
        r is Some <==> provider_endpoint(provider@) is Some,
        r matches Some(u) ==> provider_endpoint(provider@) == Option::Some(u@),
{
    if str_eq(provider, "openrouter") {
        Option::Some(String::from_str("https://openrouter.ai/api/v1/chat/completions"))
    } else if str_eq(provider, "groq") {
        Option::Some(String::from_str("https://api.groq.com/openai/v1/chat/completions"))
    } else {
        Option::None
    }
}

/// Assembles the complete request for one chat call, or rejects an
/// unknown provider before any network work could start.
pub fn chat_request(provider: &str, model: &str, message: &str, api_key: &str) -> (r: Result<
    ChatRequest,
    CommandError,
>)
    ensures
        r is Ok <==> provider_endpoint(provider@) is Some,
        r matches Ok(req) ==> Option::Some(req.url@) == provider_endpoint(provider@)
            && req.body@ == chat_body_view(model@, message@) && req.auth@ == bearer_view(
            api_key@,
        ),
        r matches Err(e) ==> e matches CommandError::UnsupportedProviderError(_)
            && e.message_view() == "Unsupported provider"@,
{
    match endpoint_for(provider) {
        Option::Some(url) => {
            let body = build_chat_body(model, message);
            let mut auth = String::from_str("Bearer ");
            auth.append(api_key);
            Result::Ok(ChatRequest { url, body, auth })
        },
        Option::None => Result::Err(
            CommandError::UnsupportedProviderError(String::from_str("Unsupported provider")),
        ),
    }
}

} // verus!
