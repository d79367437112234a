//! Packet codec: pure, stateless transforms between typed values and the two
//! wire formats.
//!
//! The UDP form is `0xFFFFFFFF` followed by ASCII-framed text; the TCP form
//! is a length-prefixed binary packet.  Every function here is specified down
//! to the byte over vstd's UTF-8 and little-endian models, and none performs
//! I/O.

use vstd::bytes::*;
use vstd::prelude::*;
use vstd::slice::*;
use vstd::utf8::*;

use crate::errors::{PacketType, RCONError};

verus! {

broadcast use vstd::string::group_string_axioms;

/// The out-of-band marker that prefixes every UDP datagram.
pub open spec fn spec_marker() -> Seq<u8> {
    seq![0xffu8, 0xffu8, 0xffu8, 0xffu8]
}

/// Whether a datagram begins with the four-byte out-of-band marker.
pub open spec fn spec_has_marker(b: Seq<u8>) -> bool {
    b.len() >= 4 && b[0] == 0xffu8 && b[1] == 0xffu8 && b[2] == 0xffu8 && b[3] == 0xffu8
}

/// The text of a UDP command: `rcon `, then the challenge token and a
/// newline when one is supplied, then the password, a space, the command,
/// and a final newline.
pub open spec fn spec_udp_payload(
    password: Seq<char>,
    token: Option<Seq<char>>,
    command: Seq<char>,
) -> Seq<char> {
    seq!['r', 'c', 'o', 'n', ' '] + (match token {
        Some(t) => t + seq!['\n'],
        None => Seq::<char>::empty(),
    }) + password + seq![' '] + command + seq!['\n']
}

/// The complete UDP command datagram: the marker, then the UTF-8 encoding
/// of the payload text.
pub open spec fn spec_udp_command(
    password: Seq<char>,
    token: Option<Seq<char>>,
    command: Seq<char>,
) -> Seq<u8> {
    spec_marker() + encode_utf8(spec_udp_payload(password, token, command))
}

/// The challenge token an encoder was given, seen as a sequence of
/// characters.
pub open spec fn spec_token_view(token: Option<&String>) -> Option<Seq<char>> {
    match token {
        Some(t) => Some(t@),
        None => None,
    }
}

/// Bytes of the ASCII text `challenge rcon ` that opens a challenge-grant
/// datagram body.
pub open spec fn spec_challenge_prefix() -> Seq<u8> {
    seq![
        0x63u8, 0x68u8, 0x61u8, 0x6cu8, 0x6cu8, 0x65u8, 0x6eu8, 0x67u8, 0x65u8, 0x20u8, 0x72u8,
        0x63u8, 0x6fu8, 0x6eu8, 0x20u8,
    ]
}

/// A datagram body (the bytes after the marker) is a challenge grant when
/// splitting it on spaces yields exactly the three tokens `challenge`,
/// `rcon` and the granted token: it starts with `challenge rcon ` and no
/// further space follows.
pub open spec fn spec_is_challenge_grant(rest: Seq<u8>) -> bool {
    &&& rest.len() >= 15
    &&& (forall|i: int| 0 <= i < 15 ==> rest[i] == spec_challenge_prefix()[i])
    &&& (forall|i: int| 15 <= i < rest.len() ==> rest[i] != 0x20u8)
}

/// ASCII whitespace, as trimmed from the edges of a granted token.
pub open spec fn spec_is_ws(b: u8) -> bool {
    b == 0x09u8 || b == 0x0au8 || b == 0x0bu8 || b == 0x0cu8 || b == 0x0du8 || b == 0x20u8
}

/// The byte sequence with its leading ASCII whitespace removed.
pub open spec fn spec_trim_start(s: Seq<u8>) -> Seq<u8>
    decreases s.len(),
{
    if s.len() > 0 && spec_is_ws(s[0]) {
        spec_trim_start(s.drop_first())
    } else {
        s
    }
}

/// The byte sequence with its trailing ASCII whitespace removed.
pub open spec fn spec_trim_end(s: Seq<u8>) -> Seq<u8>
    decreases s.len(),
{
    if s.len() > 0 && spec_is_ws(s[s.len() - 1]) {
        spec_trim_end(s.drop_last())
    } else {
        s
    }
}

/// The byte sequence with ASCII whitespace removed from both edges.
pub open spec fn spec_trim(s: Seq<u8>) -> Seq<u8> {
    spec_trim_end(spec_trim_start(s))
}

/// The token bytes granted by a challenge-grant body: everything after
/// `challenge rcon `, trimmed.
pub open spec fn spec_grant_token_bytes(rest: Seq<u8>) -> Seq<u8> {
    spec_trim(rest.skip(15))
}

/// A decoded UDP datagram: either a challenge grant carrying a fresh token,
/// or ordinary response text.
#[derive(Debug)]
pub enum ParsedResponse {
    ChallengeGrant(String),
    Text(String),
}

/// The text a command ultimately produced, as returned to the caller.
#[derive(Debug)]
pub struct CommandResult {
    pub text: String,
}

/// Whether decoding the datagram fails: the marker is missing, the body is
/// not valid UTF-8, or — for an ordinary response — its text is shorter
/// than the two-character terminator it must carry.
pub open spec fn spec_udp_decode_is_malformed(b: Seq<u8>) -> bool {
    if !spec_has_marker(b) {
        true
    } else if !valid_utf8(b.skip(4)) {
        true
    } else if spec_is_challenge_grant(b.skip(4)) {
        !valid_utf8(spec_grant_token_bytes(b.skip(4)))
    } else {
        decode_utf8(b.skip(4)).len() < 2
    }
}

/// The text of an ordinary response: the decoded body with its final two
/// characters — the server's trailing terminator — removed.
pub open spec fn spec_udp_response_text(b: Seq<u8>) -> Seq<char> {
    decode_utf8(b.skip(4)).take(decode_utf8(b.skip(4)).len() - 2)
}

/// Copies `v[from..to]` into a fresh vector.
pub(crate) fn sub_bytes(v: &Vec<u8>, from: usize, to: usize) -> (r: Vec<u8>)
    requires
        from <= to <= v.len(),
    ensures
        r@ == v@.subrange(from as int, to as int),
{
    let mut r: Vec<u8> = Vec::new();
    let mut i: usize = from;
    while i < to
        invariant
            from <= i <= to <= v.len(),
            r@ == v@.subrange(from as int, i as int),
        decreases to - i,
    {
        r.push(v[i]);
        proof {
            assert(v@.subrange(from as int, i + 1 as int) =~= v@.subrange(from as int, i as int)
                + seq![v@[i as int]]);
        }
        i = i + 1;
    }
    r
}

/// Relies on `String::from_utf8`: it succeeds exactly on valid UTF-8 input,
/// and the characters of the result are vstd's `decode_utf8` of the bytes.
#[verifier::external_body]
fn bytes_to_string(v: Vec<u8>) -> (r: Option<String>)
    ensures
        r is Some <==> valid_utf8(v@),
        r matches Some(s) ==> s@ == decode_utf8(v@),
{
    String::from_utf8(v).ok()
}

/// Whether a datagram body is a challenge grant.
fn is_challenge_grant(rest: &Vec<u8>) -> (b: bool)
    ensures
        b == spec_is_challenge_grant(rest@),
{
    if rest.len() < 15 {
        return false;
    }
    let prefix_ok = rest[0] == 0x63 && rest[1] == 0x68 && rest[2] == 0x61 && rest[3] == 0x6c
        && rest[4] == 0x6c && rest[5] == 0x65 && rest[6] == 0x6e && rest[7] == 0x67 && rest[8]
        == 0x65 && rest[9] == 0x20 && rest[10] == 0x72 && rest[11] == 0x63 && rest[12] == 0x6f
        && rest[13] == 0x6e && rest[14] == 0x20;
    if !prefix_ok {
        return false;
    }
    let mut i: usize = 15;
    while i < rest.len()
        invariant
            15 <= i <= rest@.len(),
            forall|j: int| 15 <= j < i ==> rest@[j] != 0x20u8,
        decreases rest@.len() - i,
    {
        if rest[i] == 0x20 {
            return false;
        }
        i = i + 1;
    }
    true
}

/// Removes ASCII whitespace from both edges of the byte sequence.
fn trim_bytes(v: &Vec<u8>) -> (r: Vec<u8>)
    ensures
        r@ == spec_trim(v@),
{
    proof {
        assert(v@.skip(0) =~= v@);
    }
    let mut start: usize = 0;
    while start < v.len() && (v[start] == 0x09 || v[start] == 0x0a || v[start] == 0x0b || v[start]
        == 0x0c || v[start] == 0x0d || v[start] == 0x20)
        invariant
            0 <= start <= v.len(),
            spec_trim_start(v@) == spec_trim_start(v@.skip(start as int)),
        decreases v.len() - start,
    {
        proof {
            assert(v@.skip(start as int).drop_first() =~= v@.skip(start as int + 1));
        }
        start = start + 1;
    }
    proof {
        assert(spec_trim_start(v@) == v@.skip(start as int));
    }
    let mut end: usize = v.len();
    while end > start && (v[end - 1] == 0x09 || v[end - 1] == 0x0a || v[end - 1] == 0x0b || v[end
        - 1] == 0x0c || v[end - 1] == 0x0d || v[end - 1] == 0x20)
        invariant
            start <= end <= v.len(),
            spec_trim_end(v@.skip(start as int)) == spec_trim_end(
                v@.subrange(start as int, end as int),
            ),
        decreases end,
    {
        proof {
            assert(v@.subrange(start as int, end as int).drop_last() =~= v@.subrange(
                start as int,
                end as int - 1,
            ));
        }
        end = end - 1;
    }
    proof {
        assert(spec_trim_end(v@.skip(start as int)) == v@.subrange(start as int, end as int));
    }
    sub_bytes(v, start, end)
}

/// Builds a UDP command datagram: the marker, then
/// `rcon [token\n]password command\n` encoded as UTF-8.
pub fn encode_udp_command(password: &str, challenge_token: Option<&String>, command: &str) -> (r:
    Vec<u8>)
    ensures
        r@ == spec_udp_command(password@, spec_token_view(challenge_token), command@),
{
    let mut payload: String = String::from_str("rcon ");
    proof {
        reveal_strlit("rcon ");
        assert(payload@ =~= seq!['r', 'c', 'o', 'n', ' ']);
    }
    if let Some(t) = challenge_token {
        payload.append(t.as_str());
        payload.append("\n");
        proof {
            reveal_strlit("\n");
        }
    }
    payload.append(password);
    payload.append(" ");
    payload.append(command);
    payload.append("\n");
    proof {
        reveal_strlit(" ");
        reveal_strlit("\n");
        assert(payload@ =~= spec_udp_payload(
            password@,
            spec_token_view(challenge_token),
            command@,
        ));
    }
    let mut body: Vec<u8> = payload.as_str().as_bytes_vec();
    let mut r: Vec<u8> = Vec::new();
    r.push(0xff);
    r.push(0xff);
    r.push(0xff);
    r.push(0xff);
    r.append(&mut body);
    proof {
        assert(r@ =~= spec_udp_command(password@, spec_token_view(challenge_token), command@));
    }
    r
}

/// Decodes a UDP datagram.
///
/// The datagram must begin with the marker and its body must be valid
/// UTF-8, else it is `MalforedRead`.  A body of exactly three
/// space-separated tokens whose first two are `challenge` and `rcon` is a
/// challenge grant: the third token, trimmed of ASCII whitespace (the only
/// whitespace a server-issued token ever carries), is the new challenge
/// token.  Any other body is ordinary response text, returned with its
/// final two characters — the trailing terminator — stripped; text shorter
/// than that terminator is `MalforedRead`.  No input panics.
pub fn decode_udp_response(data: &Vec<u8>) -> (r: Result<ParsedResponse, RCONError>)
    ensures
        r is Err <==> spec_udp_decode_is_malformed(data@),
        r is Err ==> r == Err::<ParsedResponse, RCONError>(RCONError::MalforedRead),
        spec_has_marker(data@) && spec_is_challenge_grant(data@.skip(4)) && !spec_udp_decode_is_malformed(data@)
            ==> (r matches Ok(p) && p matches ParsedResponse::ChallengeGrant(t) && t@ == decode_utf8(
            spec_grant_token_bytes(data@.skip(4)),
        )),
        spec_has_marker(data@) && !spec_is_challenge_grant(data@.skip(4)) && !spec_udp_decode_is_malformed(data@)
            ==> (r matches Ok(p) && p matches ParsedResponse::Text(t) && t@
            == spec_udp_response_text(data@)),
{
    if data.len() < 4 {
        return Err(RCONError::MalforedRead);
    }
    if !(data[0] == 0xff && data[1] == 0xff && data[2] == 0xff && data[3] == 0xff) {
        return Err(RCONError::MalforedRead);
    }
    let rest = sub_bytes(data, 4, data.len());
    proof {
        assert(rest@ =~= data@.skip(4));
    }
    let whole = sub_bytes(&rest, 0, rest.len());
    proof {
        assert(whole@ =~= rest@);
    }
    let text = match bytes_to_string(whole) {
        None => {
            return Err(RCONError::MalforedRead);
        },
        Some(t) => t,
    };
    if is_challenge_grant(&rest) {
        let raw = sub_bytes(&rest, 15, rest.len());
        proof {
            assert(raw@ =~= rest@.skip(15));
        }
        let token = trim_bytes(&raw);
        match bytes_to_string(token) {
            Some(s) => Ok(ParsedResponse::ChallengeGrant(s)),
            None => Err(RCONError::MalforedRead),
        }
    } else {
        let chars = text.as_str().unicode_len();
        if chars < 2 {
            return Err(RCONError::MalforedRead);
        }
        let stripped = text.as_str().substring_char(0, chars - 2);
        Ok(ParsedResponse::Text(stripped.to_owned()))
    }
}

/// Law: for ASCII passwords and commands without embedded NUL or newline,
/// an encoded UDP command without a token starts with the out-of-band
/// marker and ends with a newline byte.
pub proof fn lemma_udp_command_shape(password: Seq<char>, command: Seq<char>)
    requires
        is_ascii_chars(password),
        is_ascii_chars(command),
        forall|i: int| 0 <= i < password.len() ==> password[i] != '\0' && password[i] != '\n',
        forall|i: int| 0 <= i < command.len() ==> command[i] != '\0' && command[i] != '\n',
    ensures
        ({
            let b = spec_udp_command(password, None, command);
            &&& spec_has_marker(b)
            &&& b.len() > 4
            &&& b[b.len() - 1] == 0x0au8
        }),
{
    let payload = spec_udp_payload(password, None, command);
    assert forall|i: int| 0 <= i < payload.len() implies '\0' <= #[trigger] payload[i]
        <= '\u{7f}' by {
        if i < 5 {
            assert(payload[i] == seq!['r', 'c', 'o', 'n', ' '][i]);
        } else if i < 5 + password.len() {
            assert(payload[i] == password[i - 5]);
        } else if i == 5 + password.len() {
            assert(payload[i] == ' ');
        } else if i < 6 + password.len() + command.len() {
            assert(payload[i] == command[i - 6 - password.len()]);
        } else {
            assert(payload[i] == '\n');
        }
    }
    assert(is_ascii_chars(payload));
    is_ascii_chars_encode_utf8(payload);
    let b = spec_udp_command(password, None, command);
    assert(payload[payload.len() - 1] == '\n');
    assert(encode_utf8(payload)[payload.len() - 1] == '\n' as u8);
    assert(b[b.len() - 1] == encode_utf8(payload)[payload.len() - 1]);
}

/// Law: a datagram that does not begin with the out-of-band marker —
/// the empty datagram included — always decodes to `MalforedRead`.
pub proof fn lemma_udp_decode_needs_marker(b: Seq<u8>)
    requires
        !spec_has_marker(b),
    ensures
        spec_udp_decode_is_malformed(b),
{
}

/// Law: decoding is the exact inverse of a server-side grant encoder — a
/// datagram of the marker, `challenge rcon ` and a token free of ASCII
/// whitespace decodes to a challenge grant carrying exactly that token.
pub proof fn lemma_challenge_grant_round_trip(token: Seq<u8>)
    requires
        valid_utf8(token),
        forall|i: int| 0 <= i < token.len() ==> !spec_is_ws(token[i]),
    ensures
        ({
            let b = spec_marker() + spec_challenge_prefix() + token;
            &&& spec_has_marker(b)
            &&& spec_is_challenge_grant(b.skip(4))
            &&& spec_grant_token_bytes(b.skip(4)) == token
            &&& !spec_udp_decode_is_malformed(b)
        }),
{
    let b = spec_marker() + spec_challenge_prefix() + token;
    let rest = b.skip(4);
    assert(rest =~= spec_challenge_prefix() + token);
    assert forall|i: int| 0 <= i < 15 implies rest[i] == spec_challenge_prefix()[i] by {
        assert(rest[i] == (spec_challenge_prefix() + token)[i]);
    }
    assert forall|i: int| 15 <= i < rest.len() implies rest[i] != 0x20u8 by {
        assert(rest[i] == token[i - 15]);
        assert(!spec_is_ws(token[i - 15]));
    }
    assert(spec_is_challenge_grant(rest));
    assert(rest.skip(15) =~= token);
    assert(spec_trim_start(token) == token);
    assert(spec_trim_end(token) == token);
    assert(spec_grant_token_bytes(rest) == token);
    lemma_challenge_prefix_valid_utf8();
    valid_utf8_concat(spec_challenge_prefix(), token);
    assert(valid_utf8(rest));
}

/// The ASCII bytes of `challenge rcon ` are valid UTF-8.
proof fn lemma_challenge_prefix_valid_utf8()
    ensures
        valid_utf8(spec_challenge_prefix()),
{
    let chars = seq!['c', 'h', 'a', 'l', 'l', 'e', 'n', 'g', 'e', ' ', 'r', 'c', 'o', 'n', ' '];
    assert(is_ascii_chars(chars));
    is_ascii_chars_encode_utf8(chars);
    assert(encode_utf8(chars) =~= spec_challenge_prefix());
    encode_utf8_valid_utf8(chars);
}

/// A decoded TCP packet.
#[derive(Debug)]
pub struct TcpPacket {
    /// Correlation id echoed between a request and its response.
    pub id: u32,
    /// Kind of the packet.
    pub packet_type: PacketType,
    /// Text carried by the packet.
    pub body: String,
}

/// The complete TCP packet for the given id, type and body text:
/// little-endian size of everything after the size field, little-endian id,
/// little-endian type code, the UTF-8 encoding of the body, and two NUL
/// terminators.
pub open spec fn spec_tcp_packet(id: u32, packet_type: PacketType, body: Seq<char>) -> Seq<u8> {
    spec_u32_to_le_bytes((encode_utf8(body).len() + 10) as u32) + spec_u32_to_le_bytes(id)
        + spec_u32_to_le_bytes(packet_type.spec_code()) + encode_utf8(body) + seq![0u8, 0u8]
}

/// Whether the buffer's size field covers exactly the rest of the buffer.
pub open spec fn spec_tcp_size_ok(b: Seq<u8>) -> bool {
    b.len() >= 4 && 4 + spec_u32_from_le_bytes(b.take(4)) == b.len()
}

/// The correlation id a frame carries.
pub open spec fn spec_tcp_id(b: Seq<u8>) -> u32 {
    spec_u32_from_le_bytes(b.subrange(4, 8))
}

/// The type code a frame carries.
pub open spec fn spec_tcp_type_code(b: Seq<u8>) -> u32 {
    spec_u32_from_le_bytes(b.subrange(8, 12))
}

/// The body bytes of a frame: everything between the type field and the two
/// NUL terminators.
pub open spec fn spec_tcp_body_bytes(b: Seq<u8>) -> Seq<u8> {
    b.subrange(12, b.len() - 2)
}

/// A buffer is a well-formed TCP frame when its size field covers exactly
/// the rest of the buffer, its type code is one of the three known kinds,
/// its two trailing terminators are NUL and its body is valid UTF-8.
pub open spec fn spec_tcp_frame_ok(b: Seq<u8>) -> bool {
    &&& b.len() >= 14
    &&& spec_tcp_size_ok(b)
    &&& (spec_tcp_type_code(b) == 0 || spec_tcp_type_code(b) == 2 || spec_tcp_type_code(b) == 3)
    &&& b[b.len() - 2] == 0u8
    &&& b[b.len() - 1] == 0u8
    &&& valid_utf8(spec_tcp_body_bytes(b))
}

/// Builds a TCP packet for the given id, type and body text.
///
/// The size field is 32 bits wide, which bounds the body.
pub fn encode_tcp_packet(id: u32, packet_type: PacketType, body: &str) -> (r: Vec<u8>)
    requires
        encode_utf8(body@).len() + 10 <= u32::MAX,
    ensures
        r@ == spec_tcp_packet(id, packet_type, body@),
{
    let mut payload: Vec<u8> = body.as_bytes_vec();
    let size: u32 = (payload.len() + 10) as u32;
    let mut r: Vec<u8> = u32_to_le_bytes(size);
    let mut id_bytes: Vec<u8> = u32_to_le_bytes(id);
    let mut type_bytes: Vec<u8> = u32_to_le_bytes(packet_type.code());
    r.append(&mut id_bytes);
    r.append(&mut type_bytes);
    r.append(&mut payload);
    r.push(0);
    r.push(0);
    proof {
        assert(r@ =~= spec_tcp_packet(id, packet_type, body@));
    }
    r
}

/// Total length of the frame whose size prefix opens `v`, or `None` when
/// that length cannot be represented.
pub fn tcp_frame_total_len(v: &Vec<u8>) -> (r: Option<usize>)
    requires
        v@.len() >= 4,
    ensures
        r matches Some(n) ==> n == 4 + spec_u32_from_le_bytes(v@.take(4)),
        r is None ==> 4 + spec_u32_from_le_bytes(v@.take(4)) > usize::MAX,
{
    let sl = slice_subrange(v.as_slice(), 0, 4);
    proof {
        assert(sl@ =~= v@.take(4));
    }
    let size = u32_from_le_bytes(sl);
    if size as usize <= usize::MAX - 4 {
        Some(size as usize + 4)
    } else {
        None
    }
}

/// The text of the out-of-band challenge probe.
pub open spec fn spec_challenge_probe_text() -> Seq<char> {
    seq!['c', 'h', 'a', 'l', 'l', 'e', 'n', 'g', 'e', ' ', 'r', 'c', 'o', 'n', '\n']
}

/// The challenge probe datagram: the marker, then `challenge rcon` and a
/// newline.
pub open spec fn spec_challenge_probe() -> Seq<u8> {
    spec_marker() + encode_utf8(spec_challenge_probe_text())
}

/// Builds the datagram that asks the server for a challenge token.
pub fn encode_challenge_probe() -> (r: Vec<u8>)
    ensures
        r@ == spec_challenge_probe(),
{
    let text = "challenge rcon\n";
    proof {
        reveal_strlit("challenge rcon\n");
        assert(text@ =~= spec_challenge_probe_text());
    }
    let mut body: Vec<u8> = text.as_bytes_vec();
    let mut r: Vec<u8> = Vec::new();
    r.push(0xff);
    r.push(0xff);
    r.push(0xff);
    r.push(0xff);
    r.append(&mut body);
    proof {
        assert(r@ =~= spec_challenge_probe());
    }
    r
}

/// The handshake's empty-command probe: the marker and a single NUL.
pub open spec fn spec_empty_probe() -> Seq<u8> {
    seq![0xffu8, 0xffu8, 0xffu8, 0xffu8, 0x00u8]
}

/// Builds the empty-command probe that completes the UDP handshake.
pub fn encode_empty_probe() -> (r: Vec<u8>)
    ensures
        r@ == spec_empty_probe(),
{
    let mut r: Vec<u8> = Vec::new();
    r.push(0xff);
    r.push(0xff);
    r.push(0xff);
    r.push(0xff);
    r.push(0x00);
    proof {
        assert(r@ =~= spec_empty_probe());
    }
    r
}

/// Whether a stream buffer already holds one complete frame: at least the
/// size field, and at least as many bytes as the size field announces.
pub open spec fn spec_rbuf_frame_ready(b: Seq<u8>) -> bool {
    b.len() >= 4 && 4 + spec_u32_from_le_bytes(b.take(4)) <= b.len()
}

/// The first complete frame held by a stream buffer.
pub open spec fn spec_rbuf_frame(b: Seq<u8>) -> Seq<u8> {
    b.take(4 + spec_u32_from_le_bytes(b.take(4)))
}

/// Decodes one complete TCP frame.
///
/// The buffer must hold exactly one well-formed frame; any malformation —
/// a size field that does not cover the buffer, an unknown type code,
/// missing NUL terminators, or a body that is not valid UTF-8 — is
/// `MalforedRead`, and no input panics.
pub fn decode_tcp_packet(data: &Vec<u8>) -> (r: Result<TcpPacket, RCONError>)
    ensures
        r is Ok <==> spec_tcp_frame_ok(data@),
        r matches Ok(p) ==> {
            &&& p.id == spec_tcp_id(data@)
            &&& p.packet_type.spec_code() == spec_tcp_type_code(data@)
            &&& p.body@ == decode_utf8(spec_tcp_body_bytes(data@))
        },
        r is Err ==> r == Err::<TcpPacket, RCONError>(RCONError::MalforedRead),
{
    if data.len() < 14 {
        return Err(RCONError::MalforedRead);
    }
    let size_sl = slice_subrange(data.as_slice(), 0, 4);
    proof {
        assert(size_sl@ =~= data@.take(4));
    }
    let size = u32_from_le_bytes(size_sl);
    if size as usize != data.len() - 4 {
        return Err(RCONError::MalforedRead);
    }
    let id = u32_from_le_bytes(slice_subrange(data.as_slice(), 4, 8));
    let code = u32_from_le_bytes(slice_subrange(data.as_slice(), 8, 12));
    let packet_type = match PacketType::from_code(code) {
        Some(t) => t,
        None => {
            return Err(RCONError::MalforedRead);
        },
    };
    if !(data[data.len() - 2] == 0 && data[data.len() - 1] == 0) {
        return Err(RCONError::MalforedRead);
    }
    let body = sub_bytes(data, 12, data.len() - 2);
    proof {
        assert(body@ =~= spec_tcp_body_bytes(data@));
    }
    match bytes_to_string(body) {
        Some(s) => Ok(TcpPacket { id, packet_type, body: s }),
        None => Err(RCONError::MalforedRead),
    }
}

} // verus!
