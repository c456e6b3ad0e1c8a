//! Diagnostic renderings of the handshake types. An auth token is never
//! shown: only its length in bytes.
use vstd::prelude::*;
use std::time::Duration;
use crate::handshake::{utf8_len, HandshakeConfig, HandshakeRequest, HandshakeResult};
use crate::text::{decimal_text, usize_text};

verus! {

/// The `Debug` rendering of a text: quoted, with escapes.
pub uninterp spec fn debug_quoted(s: Seq<char>) -> Seq<char>;

/// Relies on `str`'s `Debug` through `format!`, which depends on the text alone.
#[verifier::external_body]
fn debug_text(s: &str) -> (r: String)
    ensures
        r@ == debug_quoted(s@),
{
    format!("{:?}", s)
}

/// The rendering of a channel list: decimal ids between brackets, separated
/// by `", "`.
pub open spec fn channel_list_text(s: Seq<u16>) -> Seq<char>
    decreases s.len(),
{
    if s.len() == 0 {
        "[]"@
    } else if s.len() == 1 {
        "["@ + decimal_text(s[0] as nat) + "]"@
    } else {
        channel_list_text(s.drop_last()).drop_last() + ", "@ + decimal_text(s.last() as nat) + "]"@
    }
}

/// Relies on the `Debug` of a `u16` slice through `format!`: the ids in
/// decimal, between brackets, separated by `", "`.
#[verifier::external_body]
fn debug_channels(v: &[u16]) -> (r: String)
    ensures
        r@ == channel_list_text(v@),
{
    format!("{:?}", v)
}

/// Relies on `Duration`'s `Debug` through `format!`.
#[verifier::external_body]
fn debug_duration(d: Duration) -> (r: String) {
    format!("{:?}", d)
}

/// What stands for an auth token in a rendering.
pub open spec fn token_text(t: Option<String>) -> Seq<char> {
    match t {
        Some(s) => "<redacted:"@ + decimal_text(utf8_len(s@)) + " bytes>"@,
        None => "None"@,
    }
}

fn render_token(t: &Option<String>) -> (r: String)
    ensures
        r@ == token_text(*t),
{
    proof {
        reveal_strlit("<redacted:");
        reveal_strlit(" bytes>");
        reveal_strlit("None");
    }
    match t {
        Some(s) => {
            let mut out = "<redacted:".to_owned();
            let n = usize_text(s.as_str().as_bytes().len());
            out.append(n.as_str());
            out.append(" bytes>");
            out
        },
        None => "None".to_owned(),
    }
}

/// The rendering of a request.
pub open spec fn request_text(r: HandshakeRequest) -> Seq<char> {
    "HandshakeRequest { protocol: "@ + debug_quoted(r.protocol@) + ", version: "@ + debug_quoted(
        r.version@,
    ) + ", channels: "@ + channel_list_text(r.channels@) + ", auth_token: "@ + token_text(
        r.auth_token,
    ) + " }"@
}

/// The rendering of a result.
pub open spec fn result_text(r: HandshakeResult) -> Seq<char> {
    "HandshakeResult { peer_id: "@ + debug_quoted(r.peer_id@) + ", protocol_version: "@
        + debug_quoted(r.protocol_version@) + ", negotiated_channels: "@ + channel_list_text(
        r.negotiated_channels@,
    ) + ", client_auth_token: "@ + token_text(r.client_auth_token) + " }"@
}

impl HandshakeRequest {
    /// A diagnostic rendering that shows the token's length only.
    pub fn redacted_debug(&self) -> (r: String)
        ensures
            r@ == request_text(*self),
    {
        let mut out = "HandshakeRequest { protocol: ".to_owned();
        out.append(debug_text(self.protocol.as_str()).as_str());
        out.append(", version: ");
        out.append(debug_text(self.version.as_str()).as_str());
        out.append(", channels: ");
        out.append(debug_channels(self.channels.as_slice()).as_str());
        out.append(", auth_token: ");
        out.append(render_token(&self.auth_token).as_str());
        out.append(" }");
        out
    }
}

impl HandshakeResult {
    /// A diagnostic rendering that shows the token's length only.
    pub fn redacted_debug(&self) -> (r: String)
        ensures
            r@ == result_text(*self),
    {
        let mut out = "HandshakeResult { peer_id: ".to_owned();
        out.append(debug_text(self.peer_id.as_str()).as_str());
        out.append(", protocol_version: ");
        out.append(debug_text(self.protocol_version.as_str()).as_str());
        out.append(", negotiated_channels: ");
        out.append(debug_channels(self.negotiated_channels.as_slice()).as_str());
        out.append(", client_auth_token: ");
        out.append(render_token(&self.client_auth_token).as_str());
        out.append(" }");
        out
    }
}

impl HandshakeConfig {
    /// A diagnostic rendering that shows the token's length only; it ends
    /// with the token's stand-in.
    pub fn redacted_debug(&self) -> (r: String)
        ensures
            exists|head: Seq<char>| r@ == head + ", auth_token: "@ + token_text(self.auth_token) + " }"@,
    {
        let mut out = "HandshakeConfig { timeout: ".to_owned();
        out.append(debug_duration(self.timeout).as_str());
        out.append(", protocol_name: ");
        out.append(debug_text(self.protocol_name.as_str()).as_str());
        out.append(", protocol_version: ");
        out.append(debug_text(self.protocol_version.as_str()).as_str());
        out.append(", require_channel_overlap: ");
        out.append(if self.require_channel_overlap { "true" } else { "false" });
        out.append(", max_handshake_payload: ");
        out.append(usize_text(self.max_handshake_payload).as_str());
        let ghost head = out@;
        out.append(", auth_token: ");
        out.append(render_token(&self.auth_token).as_str());
        out.append(" }");
        assert(out@ == head + ", auth_token: "@ + token_text(self.auth_token) + " }"@);
        out
    }
}

} // verus!
