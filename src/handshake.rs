//! Handshake rules: field bounds, version compatibility, channel
//! normalisation and negotiation, and the checks that each side applies to
//! what the other sent.
//!
//! The exchange itself (one CONTROL frame each way, as JSON) is carried out
//! by the caller; the functions here decide on the values.
use vstd::prelude::*;
use vstd::utf8::encode_utf8;
use std::time::Duration;
use bytes::Bytes;
use crate::buf::{bytes_contents, bytes_len};
use crate::channel::CONTROL;
use crate::codec::Frame;
use crate::error::PeerError;
use crate::text::{concat_text, decimal_text, parse_u16, spec_parse_u16, u64_text, usize_text};
use crate::time::{duration_from_secs, secs_duration};

verus! {

/// Most channels in one handshake channel list.
pub const MAX_HANDSHAKE_CHANNELS: usize = 256;

/// Longest protocol name, in bytes.
pub const MAX_PROTOCOL_LEN: usize = 32;

/// Longest version string, in bytes.
pub const MAX_VERSION_LEN: usize = 16;

/// Longest peer id, in bytes.
pub const MAX_PEER_ID_LEN: usize = 128;

/// Longest auth token, in bytes.
pub const MAX_AUTH_TOKEN_LEN: usize = 4096;

/// Default cap on a handshake frame's payload, in bytes.
pub const DEFAULT_MAX_HANDSHAKE_PAYLOAD: usize = 16384;

/// Client handshake request, sent on CONTROL.
#[derive(Clone, PartialEq, Eq)]
pub struct HandshakeRequest {
    /// Protocol name.
    pub protocol: String,
    /// Protocol version string.
    pub version: String,
    /// Channels requested by the client.
    pub channels: Vec<u16>,
    /// Optional authentication token, opaque to the library.
    pub auth_token: Option<String>,
}

/// Server handshake response, sent on CONTROL.
#[derive(Debug, Clone, PartialEq, Eq)]
pub struct HandshakeResponse {
    /// Protocol name.
    pub protocol: String,
    /// Negotiated protocol version.
    pub version: String,
    /// Negotiated channels.
    pub channels: Vec<u16>,
    /// Server-assigned peer identifier.
    pub peer_id: String,
}

/// Result of a successful handshake, on either side.
#[derive(Clone, PartialEq, Eq)]
pub struct HandshakeResult {
    /// Server-assigned peer identifier.
    pub peer_id: String,
    /// Negotiated protocol version.
    pub protocol_version: String,
    /// Channels available after the handshake.
    pub negotiated_channels: Vec<u16>,
    /// Auth token presented by the client (server side only).
    pub client_auth_token: Option<String>,
}

/// Configuration for handshake negotiation.
#[derive(Clone)]
pub struct HandshakeConfig {
    /// Timeout for each blocking handshake step.
    pub timeout: Duration,
    /// Expected protocol name.
    pub protocol_name: String,
    /// Local protocol version.
    pub protocol_version: String,
    /// Require at least one negotiated channel.
    pub require_channel_overlap: bool,
    /// Maximum handshake frame payload, in bytes.
    pub max_handshake_payload: usize,
    /// Optional auth token sent by the client.
    pub auth_token: Option<String>,
}

impl Default for HandshakeConfig {
    fn default() -> (r: HandshakeConfig)
        ensures
            r.timeout == secs_duration(5),
            r.protocol_name@ == "ipcprims"@,
            r.protocol_version@ == "1.0"@,
            r.require_channel_overlap,
            r.max_handshake_payload == DEFAULT_MAX_HANDSHAKE_PAYLOAD,
            r.auth_token is None,
    {
        HandshakeConfig {
            timeout: duration_from_secs(5),
            protocol_name: "ipcprims".to_owned(),
            protocol_version: "1.0".to_owned(),
            require_channel_overlap: true,
            max_handshake_payload: DEFAULT_MAX_HANDSHAKE_PAYLOAD,
            auth_token: None,
        }
    }
}

/// The length of a text in UTF-8 bytes.
pub open spec fn utf8_len(s: Seq<char>) -> nat {
    encode_utf8(s).len()
}

/// A text that is not empty and at most `max` UTF-8 bytes long.
pub open spec fn bounded_text(s: Seq<char>, max: nat) -> bool {
    0 < utf8_len(s) <= max
}

/// An auth token, if present, is not empty and within its bound.
pub open spec fn token_ok(t: Option<String>) -> bool {
    match t {
        Some(s) => bounded_text(s@, MAX_AUTH_TOKEN_LEN as nat),
        None => true,
    }
}

/// The channels of `s` with later duplicates removed, first occurrences kept
/// in order.
pub open spec fn dedup(s: Seq<u16>) -> Seq<u16>
    decreases s.len(),
{
    if s.len() == 0 {
        Seq::<u16>::empty()
    } else if dedup(s.drop_last()).contains(s.last()) {
        dedup(s.drop_last())
    } else {
        dedup(s.drop_last()).push(s.last())
    }
}

/// The channels of `a` that also occur in `b`, in the order of `a`.
pub open spec fn keep_in(a: Seq<u16>, b: Seq<u16>) -> Seq<u16>
    decreases a.len(),
{
    if a.len() == 0 {
        Seq::<u16>::empty()
    } else if b.contains(a.last()) {
        keep_in(a.drop_last(), b).push(a.last())
    } else {
        keep_in(a.drop_last(), b)
    }
}

/// A channel list that a handshake accepts: at most 256 entries, no CONTROL.
pub open spec fn channels_ok(s: Seq<u16>) -> bool {
    s.len() <= MAX_HANDSHAKE_CHANNELS && !s.contains(CONTROL)
}

/// The one position of `c` in `s`, where it occurs exactly once.
pub open spec fn sole_index(s: Seq<char>, c: char, i: int) -> bool {
    0 <= i < s.len() && s[i] == c && forall|j: int| 0 <= j < s.len() && j != i ==> s[j] != c
}

/// A version string `"<major>.<minor>"` read as two `u16`s.
pub open spec fn spec_parse_version(s: Seq<char>) -> Option<(u16, u16)> {
    if exists|i: int| sole_index(s, '.', i) {
        let i = choose|i: int| sole_index(s, '.', i);
        match (spec_parse_u16(s.take(i)), spec_parse_u16(s.skip(i + 1))) {
            (Some(major), Some(minor)) => Some((major, minor)),
            _ => None,
        }
    } else {
        None
    }
}

/// A version string that is within its length bound and well formed.
pub open spec fn version_ok(s: Seq<char>) -> bool {
    bounded_text(s, MAX_VERSION_LEN as nat) && spec_parse_version(s) is Some
}

/// A remote version is compatible with the local one: same major, and a
/// remote minor at least the local minor.
pub open spec fn compatible(local: Seq<char>, remote: Seq<char>) -> bool {
    &&& spec_parse_version(local) is Some
    &&& spec_parse_version(remote) is Some
    &&& version_major(local) == version_major(remote)
    &&& version_minor(remote) >= version_minor(local)
}

/// The major part of a well-formed version string.
pub open spec fn version_major(s: Seq<char>) -> u16 {
    let (major, _) = spec_parse_version(s)->0;
    major
}

/// The minor part of a well-formed version string.
pub open spec fn version_minor(s: Seq<char>) -> u16 {
    let (_, minor) = spec_parse_version(s)->0;
    minor
}

/// The error value is a handshake failure.
pub open spec fn is_handshake_failure<T>(r: Result<T, PeerError>) -> bool {
    r matches Err(PeerError::HandshakeFailed(_))
}

fn handshake_failure(prefix: &str, n: usize) -> (r: PeerError)
    ensures
        r is HandshakeFailed,
{
    let digits = usize_text(n);
    PeerError::HandshakeFailed(concat_text(prefix, digits.as_str()))
}

/// Checks a protocol name's length.
pub fn validate_protocol_name(protocol: &str) -> (r: Result<(), PeerError>)
    ensures
        r is Ok <==> bounded_text(protocol@, MAX_PROTOCOL_LEN as nat),
        r is Err ==> is_handshake_failure(r),
{
    let n = protocol.as_bytes().len();
    if n == 0 || n > MAX_PROTOCOL_LEN {
        return Err(handshake_failure("invalid protocol name length: ", n));
    }
    Ok(())
}

/// Checks a version string's length and form.
pub fn validate_version(version: &str) -> (r: Result<(), PeerError>)
    ensures
        r is Ok <==> version_ok(version@),
        r is Err ==> is_handshake_failure(r),
{
    let n = version.as_bytes().len();
    if n == 0 || n > MAX_VERSION_LEN {
        return Err(handshake_failure("invalid protocol version length: ", n));
    }
    match parse_version(version) {
        Ok(_) => Ok(()),
        Err(e) => Err(e),
    }
}

/// Checks a peer id's length.
pub fn validate_peer_id(peer_id: &str) -> (r: Result<(), PeerError>)
    ensures
        r is Ok <==> bounded_text(peer_id@, MAX_PEER_ID_LEN as nat),
        r is Err ==> is_handshake_failure(r),
{
    let n = peer_id.as_bytes().len();
    if n == 0 || n > MAX_PEER_ID_LEN {
        return Err(handshake_failure("invalid peer_id length: ", n));
    }
    Ok(())
}

/// Checks an auth token's length, where one is present; an empty token is
/// invalid.
pub fn validate_auth_token(auth_token: Option<&str>) -> (r: Result<(), PeerError>)
    ensures
        r is Ok <==> match auth_token {
            Some(t) => bounded_text(t@, MAX_AUTH_TOKEN_LEN as nat),
            None => true,
        },
        r is Err ==> is_handshake_failure(r),
{
    if let Some(token) = auth_token {
        let n = token.as_bytes().len();
        if n == 0 || n > MAX_AUTH_TOKEN_LEN {
            return Err(handshake_failure("invalid auth_token length: ", n));
        }
    }
    Ok(())
}

/// Parses `"<major>.<minor>"`, both parts as `u16`.
pub fn parse_version(version: &str) -> (r: Result<(u16, u16), PeerError>)
    ensures
        match r {
            Ok(v) => spec_parse_version(version@) == Some(v),
            Err(_) => spec_parse_version(version@) is None && is_handshake_failure(r),
        },
{
    let ghost s = version@;
    let n = version.unicode_len();
    let mut dot: Option<usize> = None;
    let mut many = false;
    let mut i: usize = 0;
    while i < n
        invariant
            n == s.len(),
            i <= n,
            version@ == s,
            dot is None ==> forall|j: int| 0 <= j < i ==> s[j] != '.',
            dot matches Some(d) ==> d < i && s[d as int] == '.' && forall|j: int|
                0 <= j < d ==> s[j] != '.',
            !many ==> (dot matches Some(d) ==> forall|j: int| d < j < i ==> s[j] != '.'),
            many ==> dot is Some && exists|j: int| dot->0 < j < i && s[j] == '.',
        decreases n - i,
    {
        if version.get_char(i) == '.' {
            if dot.is_none() {
                dot = Some(i);
            } else {
                many = true;
            }
        }
        i = i + 1;
    }
    if many || dot.is_none() {
        proof {
            if many {
                let d = dot->0;
                let j = choose|j: int| d < j < n && s[j] == '.';
                assert forall|k: int| !sole_index(s, '.', k) by {
                    if sole_index(s, '.', k) {
                        assert(k == d as int);
                        assert(k == j);
                    }
                }
            }
        }
        return Err(PeerError::HandshakeFailed(concat_text("invalid version: ", version)));
    }
    let d = dot.unwrap();
    assert(sole_index(s, '.', d as int));
    assert forall|k: int| sole_index(s, '.', k) implies k == d as int by {}
    let major_text = version.substring_char(0, d);
    let minor_text = version.substring_char(d + 1, n);
    assert(major_text@ == s.take(d as int));
    assert(minor_text@ =~= s.skip(d + 1));
    let major = parse_u16(major_text);
    let minor = parse_u16(minor_text);
    match (major, minor) {
        (Some(a), Some(b)) => Ok((a, b)),
        _ => Err(PeerError::HandshakeFailed(concat_text("invalid version: ", version))),
    }
}

/// Whether `remote_version` is compatible with `local_version`; fails when
/// either is malformed.
pub fn is_version_compatible(local_version: &str, remote_version: &str) -> (r: Result<
    bool,
    PeerError,
>)
    ensures
        match r {
            Ok(b) => spec_parse_version(local_version@) is Some && spec_parse_version(
                remote_version@,
            ) is Some && b == compatible(local_version@, remote_version@),
            Err(_) => (spec_parse_version(local_version@) is None || spec_parse_version(
                remote_version@,
            ) is None) && is_handshake_failure(r),
        },
{
    let (local_major, local_minor) = parse_version(local_version)?;
    let (remote_major, remote_minor) = parse_version(remote_version)?;
    Ok(local_major == remote_major && remote_minor >= local_minor)
}

fn contains_channel(v: &Vec<u16>, c: u16) -> (r: bool)
    ensures
        r == v@.contains(c),
{
    let mut i: usize = 0;
    while i < v.len()
        invariant
            i <= v.len(),
            forall|j: int| 0 <= j < i ==> v@[j] != c,
        decreases v.len() - i,
    {
        if v[i] == c {
            return true;
        }
        i = i + 1;
    }
    false
}

fn slice_contains_channel(v: &[u16], c: u16) -> (r: bool)
    ensures
        r == v@.contains(c),
{
    let mut i: usize = 0;
    while i < v.len()
        invariant
            i <= v.len(),
            forall|j: int| 0 <= j < i ==> v@[j] != c,
        decreases v.len() - i,
    {
        if v[i] == c {
            return true;
        }
        i = i + 1;
    }
    false
}

/// Normalises a channel list: rejects more than 256 entries or any CONTROL
/// entry, and drops duplicates while keeping first occurrences in order.
pub fn normalize_channels(channels: &[u16]) -> (r: Result<Vec<u16>, PeerError>)
    ensures
        match r {
            Ok(v) => channels_ok(channels@) && v@ == dedup(channels@),
            Err(_) => !channels_ok(channels@) && is_handshake_failure(r),
        },
{
    let n = channels.len();
    if n > MAX_HANDSHAKE_CHANNELS {
        return Err(handshake_failure("too many channels in handshake: ", n));
    }
    let mut out: Vec<u16> = Vec::new();
    let mut i: usize = 0;
    while i < n
        invariant
            n == channels@.len(),
            i <= n,
            out@ == dedup(channels@.take(i as int)),
            forall|j: int| 0 <= j < i ==> channels@[j] != CONTROL,
        decreases n - i,
    {
        let c = channels[i];
        assert(channels@.take(i + 1).drop_last() =~= channels@.take(i as int));
        if c == CONTROL {
            return Err(
                PeerError::HandshakeFailed(
                    "CONTROL channel must not be included in negotiated channels".to_owned(),
                ),
            );
        }
        if !contains_channel(&out, c) {
            out.push(c);
        }
        i = i + 1;
    }
    assert(channels@.take(n as int) =~= channels@);
    Ok(out)
}

/// The channels of `left` that also occur in `right`, in `left`'s order.
pub fn intersect_channels(left: &[u16], right: &[u16]) -> (r: Vec<u16>)
    ensures
        r@ == keep_in(left@, right@),
{
    let mut out: Vec<u16> = Vec::new();
    let mut i: usize = 0;
    while i < left.len()
        invariant
            i <= left@.len(),
            out@ == keep_in(left@.take(i as int), right@),
        decreases left.len() - i,
    {
        assert(left@.take(i + 1).drop_last() =~= left@.take(i as int));
        if slice_contains_channel(right, left[i]) {
            out.push(left[i]);
        }
        i = i + 1;
    }
    assert(left@.take(left.len() as int) =~= left@);
    out
}

/// What a well-formed client request carries for `config` and the requested
/// channels: the local name and version, the normalised channels, the token.
pub open spec fn client_config_ok(config: HandshakeConfig, requested: Seq<u16>) -> bool {
    &&& bounded_text(config.protocol_name@, MAX_PROTOCOL_LEN as nat)
    &&& version_ok(config.protocol_version@)
    &&& token_ok(config.auth_token)
    &&& channels_ok(requested)
}

fn clone_token(t: &Option<String>) -> (r: Option<String>)
    ensures
        r == *t,
{
    match t {
        Some(s) => Some(s.clone()),
        None => None,
    }
}

fn token_text(t: &Option<String>) -> (r: Option<&str>)
    ensures
        match t {
            Some(s) => r matches Some(x) && x@ == s@,
            None => r is None,
        },
{
    match t {
        Some(s) => Some(s.as_str()),
        None => None,
    }
}

/// Client side, before anything is sent: checks the local configuration and
/// the requested channels, and builds the request to send.
pub fn client_request(config: &HandshakeConfig, requested_channels: &[u16]) -> (r: Result<
    HandshakeRequest,
    PeerError,
>)
    ensures
        r is Ok <==> client_config_ok(*config, requested_channels@),
        r is Err ==> is_handshake_failure(r),
        r matches Ok(req) ==> {
            &&& req.protocol@ == config.protocol_name@
            &&& req.version@ == config.protocol_version@
            &&& req.channels@ == dedup(requested_channels@)
            &&& req.auth_token == config.auth_token
        },
{
    validate_protocol_name(config.protocol_name.as_str())?;
    validate_version(config.protocol_version.as_str())?;
    validate_auth_token(token_text(&config.auth_token))?;
    let requested = normalize_channels(requested_channels)?;
    Ok(
        HandshakeRequest {
            protocol: config.protocol_name.clone(),
            version: config.protocol_version.clone(),
            channels: requested,
            auth_token: clone_token(&config.auth_token),
        },
    )
}

/// Whether every channel of `a` occurs in `b`.
pub open spec fn all_in(a: Seq<u16>, b: Seq<u16>) -> bool {
    forall|i: int| 0 <= i < a.len() ==> b.contains(#[trigger] a[i])
}

/// The checks of a response other than the overlap requirement.
pub open spec fn response_checks(
    config: HandshakeConfig,
    requested: Seq<u16>,
    resp: HandshakeResponse,
) -> bool {
    &&& bounded_text(resp.protocol@, MAX_PROTOCOL_LEN as nat)
    &&& version_ok(resp.version@)
    &&& bounded_text(resp.peer_id@, MAX_PEER_ID_LEN as nat)
    &&& resp.protocol@ == config.protocol_name@
    &&& compatible(config.protocol_version@, resp.version@)
    &&& channels_ok(resp.channels@)
    &&& all_in(dedup(resp.channels@), requested)
}

/// The failure message when no channel could be negotiated.
pub open spec fn no_overlap_failure<T>(r: Result<T, PeerError>) -> bool {
    r matches Err(PeerError::HandshakeFailed(m)) && m@ == "no overlapping channels"@
}

/// When a client accepts the server's response to the request it sent.
pub open spec fn response_ok(
    config: HandshakeConfig,
    requested: Seq<u16>,
    resp: HandshakeResponse,
) -> bool {
    &&& bounded_text(resp.protocol@, MAX_PROTOCOL_LEN as nat)
    &&& version_ok(resp.version@)
    &&& bounded_text(resp.peer_id@, MAX_PEER_ID_LEN as nat)
    &&& resp.protocol@ == config.protocol_name@
    &&& compatible(config.protocol_version@, resp.version@)
    &&& channels_ok(resp.channels@)
    &&& all_in(dedup(resp.channels@), requested)
    &&& !(config.require_channel_overlap && dedup(resp.channels@).len() == 0)
}

fn all_channels_in(a: &Vec<u16>, b: &[u16]) -> (r: bool)
    ensures
        r == all_in(a@, b@),
{
    let mut i: usize = 0;
    while i < a.len()
        invariant
            i <= a.len(),
            forall|j: int| 0 <= j < i ==> b@.contains(#[trigger] a@[j]),
        decreases a.len() - i,
    {
        if !slice_contains_channel(b, a[i]) {
            return false;
        }
        i = i + 1;
    }
    true
}

/// Client side, on the server's response: checks it against the
/// configuration and the channels requested, and gives the client's
/// handshake result, which never carries an auth token.
pub fn client_accept_response(
    config: &HandshakeConfig,
    requested: &[u16],
    resp: HandshakeResponse,
) -> (r: Result<HandshakeResult, PeerError>)
    ensures
        r is Ok <==> response_ok(*config, requested@, resp),
        r is Err ==> is_handshake_failure(r),
        response_checks(*config, requested@, resp) && config.require_channel_overlap && dedup(
            resp.channels@,
        ).len() == 0 ==> no_overlap_failure(r),
        r matches Ok(res) ==> {
            &&& res.peer_id@ == resp.peer_id@
            &&& res.protocol_version@ == resp.version@
            &&& res.negotiated_channels@ == dedup(resp.channels@)
            &&& res.client_auth_token is None
        },
{
    validate_protocol_name(resp.protocol.as_str())?;
    validate_version(resp.version.as_str())?;
    validate_peer_id(resp.peer_id.as_str())?;
    if resp.protocol != config.protocol_name {
        return Err(
            PeerError::HandshakeFailed(concat_text("unknown protocol: ", resp.protocol.as_str())),
        );
    }
    let ok = match is_version_compatible(
        config.protocol_version.as_str(),
        resp.version.as_str(),
    ) {
        Ok(b) => b,
        Err(e) => {
            return Err(e);
        },
    };
    if !ok {
        return Err(
            PeerError::HandshakeFailed(concat_text("incompatible version: ", resp.version.as_str())),
        );
    }
    let negotiated = normalize_channels(resp.channels.as_slice())?;
    if !all_channels_in(&negotiated, requested) {
        return Err(
            PeerError::HandshakeFailed(
                "server returned channels not requested by client".to_owned(),
            ),
        );
    }
    if config.require_channel_overlap && negotiated.len() == 0 {
        proof {
            reveal_strlit("no overlapping channels");
        }
        return Err(PeerError::HandshakeFailed("no overlapping channels".to_owned()));
    }
    Ok(
        HandshakeResult {
            peer_id: resp.peer_id,
            protocol_version: resp.version,
            negotiated_channels: negotiated,
            client_auth_token: None,
        },
    )
}

/// When a server's own settings allow it to take part in a handshake.
pub open spec fn server_config_ok(
    config: HandshakeConfig,
    supported: Seq<u16>,
    peer_id: Seq<char>,
) -> bool {
    &&& bounded_text(config.protocol_name@, MAX_PROTOCOL_LEN as nat)
    &&& version_ok(config.protocol_version@)
    &&& bounded_text(peer_id, MAX_PEER_ID_LEN as nat)
    &&& channels_ok(supported)
}

/// Server side, before anything is read: checks its own settings and gives
/// the normalised supported channels.
pub fn server_prepare(config: &HandshakeConfig, supported_channels: &[u16], peer_id: &str) -> (r:
    Result<Vec<u16>, PeerError>)
    ensures
        r is Ok <==> server_config_ok(*config, supported_channels@, peer_id@),
        r is Err ==> is_handshake_failure(r),
        r matches Ok(v) ==> v@ == dedup(supported_channels@),
{
    validate_protocol_name(config.protocol_name.as_str())?;
    validate_version(config.protocol_version.as_str())?;
    validate_peer_id(peer_id)?;
    normalize_channels(supported_channels)
}

/// The channels a server grants for a request: the requested ones, in
/// request order, that it supports.
pub open spec fn negotiated(req: HandshakeRequest, supported: Seq<u16>) -> Seq<u16> {
    keep_in(dedup(req.channels@), dedup(supported))
}

/// The checks of a request other than the overlap requirement.
pub open spec fn request_checks(
    config: HandshakeConfig,
    supported: Seq<u16>,
    peer_id: Seq<char>,
    req: HandshakeRequest,
) -> bool {
    &&& server_config_ok(config, supported, peer_id)
    &&& bounded_text(req.protocol@, MAX_PROTOCOL_LEN as nat)
    &&& version_ok(req.version@)
    &&& token_ok(req.auth_token)
    &&& req.protocol@ == config.protocol_name@
    &&& compatible(config.protocol_version@, req.version@)
    &&& channels_ok(req.channels@)
}

/// When a server accepts a client's request.
pub open spec fn request_ok(
    config: HandshakeConfig,
    supported: Seq<u16>,
    peer_id: Seq<char>,
    req: HandshakeRequest,
) -> bool {
    &&& server_config_ok(config, supported, peer_id)
    &&& bounded_text(req.protocol@, MAX_PROTOCOL_LEN as nat)
    &&& version_ok(req.version@)
    &&& token_ok(req.auth_token)
    &&& req.protocol@ == config.protocol_name@
    &&& compatible(config.protocol_version@, req.version@)
    &&& channels_ok(req.channels@)
    &&& !(config.require_channel_overlap && negotiated(req, supported).len() == 0)
}

/// Server side, on the client's request: checks it, intersects the requested
/// channels with the supported ones, and gives the response to send with the
/// server's handshake result, which carries the client's token verbatim.
pub fn server_accept_request(
    config: &HandshakeConfig,
    supported_channels: &[u16],
    peer_id: &str,
    req: HandshakeRequest,
) -> (r: Result<(HandshakeResponse, HandshakeResult), PeerError>)
    ensures
        r is Ok <==> request_ok(*config, supported_channels@, peer_id@, req),
        r is Err ==> is_handshake_failure(r),
        request_checks(*config, supported_channels@, peer_id@, req) && config.require_channel_overlap
            && negotiated(req, supported_channels@).len() == 0 ==> no_overlap_failure(r),
        r matches Ok((resp, res)) ==> {
            &&& resp.protocol@ == config.protocol_name@
            &&& resp.version@ == config.protocol_version@
            &&& resp.channels@ == negotiated(req, supported_channels@)
            &&& resp.peer_id@ == peer_id@
            &&& res.peer_id@ == peer_id@
            &&& res.protocol_version@ == config.protocol_version@
            &&& res.negotiated_channels@ == negotiated(req, supported_channels@)
            &&& res.client_auth_token == req.auth_token
        },
{
    let supported = server_prepare(config, supported_channels, peer_id)?;
    validate_protocol_name(req.protocol.as_str())?;
    validate_version(req.version.as_str())?;
    validate_auth_token(token_text(&req.auth_token))?;
    if req.protocol != config.protocol_name {
        return Err(
            PeerError::HandshakeFailed(concat_text("unknown protocol: ", req.protocol.as_str())),
        );
    }
    let ok = match is_version_compatible(config.protocol_version.as_str(), req.version.as_str()) {
        Ok(b) => b,
        Err(e) => {
            return Err(e);
        },
    };
    if !ok {
        return Err(
            PeerError::HandshakeFailed(concat_text("incompatible version: ", req.version.as_str())),
        );
    }
    let requested = normalize_channels(req.channels.as_slice())?;
    let agreed = intersect_channels(requested.as_slice(), supported.as_slice());
    if config.require_channel_overlap && agreed.len() == 0 {
        proof {
            reveal_strlit("no overlapping channels");
        }
        return Err(PeerError::HandshakeFailed("no overlapping channels".to_owned()));
    }
    let resp = HandshakeResponse {
        protocol: config.protocol_name.clone(),
        version: config.protocol_version.clone(),
        channels: agreed.clone(),
        peer_id: peer_id.to_owned(),
    };
    let res = HandshakeResult {
        peer_id: peer_id.to_owned(),
        protocol_version: config.protocol_version.clone(),
        negotiated_channels: agreed,
        client_auth_token: req.auth_token,
    };
    Ok((resp, res))
}

/// Checks a frame read during the handshake: it must be on CONTROL and
/// within the handshake payload cap. Gives its payload.
pub fn check_handshake_frame(frame: Frame, max_handshake_payload: usize) -> (r: Result<
    Bytes,
    PeerError,
>)
    ensures
        r is Ok <==> frame.channel == CONTROL && frame.payload_view().len()
            <= max_handshake_payload,
        r is Err ==> is_handshake_failure(r),
        r matches Ok(p) ==> bytes_contents(p) == frame.payload_view(),
{
    if frame.channel != CONTROL {
        return Err(
            handshake_failure("expected CONTROL channel 0, got ", frame.channel as usize),
        );
    }
    let n = bytes_len(&frame.payload);
    if n > max_handshake_payload {
        return Err(handshake_failure("handshake payload too large: ", n));
    }
    Ok(frame.payload)
}

/// The id a listener assigns to its `n`-th accepted peer.
pub open spec fn spec_auto_peer_id(n: u64) -> Seq<char> {
    "peer-"@ + decimal_text(n as nat)
}

/// The id a listener assigns to its `n`-th accepted peer: `peer-<n>`.
pub fn auto_peer_id(n: u64) -> (r: String)
    ensures
        r@ == spec_auto_peer_id(n),
{
    let digits = u64_text(n);
    concat_text("peer-", digits.as_str())
}

/// No channel occurs twice.
pub open spec fn no_dups(s: Seq<u16>) -> bool {
    forall|i: int, j: int| 0 <= i < j < s.len() ==> s[i] != s[j]
}

proof fn lemma_dedup(s: Seq<u16>)
    ensures
        no_dups(dedup(s)),
        dedup(s).len() <= s.len(),
        forall|x: u16| dedup(s).contains(x) <==> s.contains(x),
    decreases s.len(),
{
    if s.len() > 0 {
        let p = s.drop_last();
        lemma_dedup(p);
        assert(s =~= p.push(s.last()));
        assert forall|x: u16| dedup(s).contains(x) <==> s.contains(x) by {
            if s.contains(x) {
                let k = choose|k: int| 0 <= k < s.len() && s[k] == x;
                if k < p.len() {
                    assert(p[k] == x);
                    assert(p.contains(x));
                }
            }
            if dedup(s).contains(x) && !dedup(p).contains(s.last()) {
                let k = choose|k: int| 0 <= k < dedup(s).len() && dedup(s)[k] == x;
                if k < dedup(p).len() {
                    assert(dedup(p)[k] == x);
                    assert(dedup(p).contains(x));
                } else {
                    assert(x == s.last());
                    assert(s[s.len() - 1] == x);
                }
            }
            if dedup(p).contains(x) && !dedup(p).contains(s.last()) {
                let k = choose|k: int| 0 <= k < dedup(p).len() && dedup(p)[k] == x;
                assert(dedup(s)[k] == x);
            }
            if p.contains(x) {
                let k = choose|k: int| 0 <= k < p.len() && p[k] == x;
                assert(s[k] == x);
            }
            if x == s.last() {
                assert(s[s.len() - 1] == x);
                if !dedup(p).contains(s.last()) {
                    assert(dedup(s)[dedup(p).len() as int] == x);
                }
            }
        }
    }
}

proof fn lemma_dedup_of_unique(s: Seq<u16>)
    requires
        no_dups(s),
    ensures
        dedup(s) == s,
    decreases s.len(),
{
    if s.len() > 0 {
        let p = s.drop_last();
        assert(no_dups(p)) by {
            assert forall|i: int, j: int| 0 <= i < j < p.len() implies p[i] != p[j] by {
                assert(p[i] == s[i] && p[j] == s[j]);
            }
        }
        lemma_dedup_of_unique(p);
        lemma_dedup(p);
        assert(!p.contains(s.last())) by {
            if p.contains(s.last()) {
                let k = choose|k: int| 0 <= k < p.len() && p[k] == s.last();
                assert(s[k] == s[s.len() - 1]);
            }
        }
        assert(dedup(p).push(s.last()) =~= s);
    }
}

proof fn lemma_keep_in(a: Seq<u16>, b: Seq<u16>)
    ensures
        keep_in(a, b).len() <= a.len(),
        forall|x: u16| keep_in(a, b).contains(x) ==> a.contains(x) && b.contains(x),
        no_dups(a) ==> no_dups(keep_in(a, b)),
    decreases a.len(),
{
    if a.len() > 0 {
        let p = a.drop_last();
        lemma_keep_in(p, b);
        assert forall|x: u16| keep_in(a, b).contains(x) implies a.contains(x) && b.contains(x) by {
            let k = choose|k: int| 0 <= k < keep_in(a, b).len() && keep_in(a, b)[k] == x;
            if b.contains(a.last()) && k == keep_in(p, b).len() {
                assert(a[a.len() - 1] == x);
            } else {
                assert(keep_in(p, b)[k] == x);
                assert(keep_in(p, b).contains(x));
                assert(p.contains(x) && b.contains(x));
                let m = choose|m: int| 0 <= m < p.len() && p[m] == x;
                assert(a[m] == x);
            }
        }
        if no_dups(a) {
            assert(no_dups(p)) by {
                assert forall|i: int, j: int| 0 <= i < j < p.len() implies p[i] != p[j] by {
                    assert(p[i] == a[i] && p[j] == a[j]);
                }
            }
            if b.contains(a.last()) {
                let q = keep_in(p, b);
                assert(!q.contains(a.last())) by {
                    if q.contains(a.last()) {
                        let m = choose|m: int| 0 <= m < p.len() && p[m] == a.last();
                        assert(a[m] == a[a.len() - 1]);
                    }
                }
                assert forall|i: int, j: int| 0 <= i < j < q.push(a.last()).len() implies q.push(
                    a.last(),
                )[i] != q.push(a.last())[j] by {
                    if j == q.len() {
                        assert(q.contains(q[i]));
                    }
                }
            }
        }
    }
}

/// Handshake agreement: when the server accepts a request that the client
/// built from its configuration, and the two versions are compatible from
/// the client's side, the client accepts the server's response, and both
/// sides end with the same negotiated channels: the requested channels that
/// the server supports, in request order.
pub proof fn lemma_handshake_agreement(
    client_config: HandshakeConfig,
    requested: Seq<u16>,
    server_config: HandshakeConfig,
    supported: Seq<u16>,
    peer_id: Seq<char>,
    req: HandshakeRequest,
    resp: HandshakeResponse,
)
    requires
        client_config_ok(client_config, requested),
        req.protocol@ == client_config.protocol_name@,
        req.version@ == client_config.protocol_version@,
        req.channels@ == dedup(requested),
        req.auth_token == client_config.auth_token,
        request_ok(server_config, supported, peer_id, req),
        resp.protocol@ == server_config.protocol_name@,
        resp.version@ == server_config.protocol_version@,
        resp.channels@ == negotiated(req, supported),
        resp.peer_id@ == peer_id,
        compatible(client_config.protocol_version@, server_config.protocol_version@),
        client_config.require_channel_overlap ==> negotiated(req, supported).len() > 0,
    ensures
        response_ok(client_config, req.channels@, resp),
        dedup(resp.channels@) == negotiated(req, supported),
{
    let a = dedup(req.channels@);
    lemma_dedup(req.channels@);
    lemma_dedup(requested);
    lemma_keep_in(a, dedup(supported));
    lemma_dedup_of_unique(negotiated(req, supported));
    assert(!resp.channels@.contains(CONTROL)) by {
        if resp.channels@.contains(CONTROL) {
            assert(a.contains(CONTROL));
        }
    }
    assert(all_in(dedup(resp.channels@), req.channels@)) by {
        assert forall|i: int| 0 <= i < dedup(resp.channels@).len() implies req.channels@.contains(
            #[trigger] dedup(resp.channels@)[i],
        ) by {
            let x = dedup(resp.channels@)[i];
            assert(resp.channels@.contains(x));
            assert(a.contains(x));
        }
    }
}

} // verus!
