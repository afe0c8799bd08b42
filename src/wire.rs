//! The wire envelope exchanged with the host: outbound broadcast packets
//! framed as JSON text, and the inbound frame's first-level fields.
use vstd::prelude::*;
use vstd::string::*;

verus! {

/// A lowercase hexadecimal digit.
pub open spec fn hex_digit(d: u32) -> char {
    if d < 10 {
        ((d + 48) as u8) as char
    } else {
        ((d + 87) as u8) as char
    }
}

/// How serde_json writes one character inside a string literal: the
/// quote, the backslash and the control characters are escaped, the
/// five with a short form by it, the others as `\u00XX`; every other
/// character stands as it is.
pub open spec fn json_escape_char(c: char) -> Seq<char> {
    if c == '"' {
        seq!['\\', '"']
    } else if c == '\\' {
        seq!['\\', '\\']
    } else if c == '\u{8}' {
        seq!['\\', 'b']
    } else if c == '\t' {
        seq!['\\', 't']
    } else if c == '\n' {
        seq!['\\', 'n']
    } else if c == '\u{c}' {
        seq!['\\', 'f']
    } else if c == '\r' {
        seq!['\\', 'r']
    } else if (c as u32) < 32 {
        seq!['\\', 'u', '0', '0', hex_digit((c as u32) / 16), hex_digit((c as u32) % 16)]
    } else {
        seq![c]
    }
}

/// The escaped characters of `s`, in order.
pub open spec fn json_escape(s: Seq<char>) -> Seq<char>
    decreases s.len(),
{
    if s.len() == 0 {
        Seq::empty()
    } else {
        json_escape_char(s[0]) + json_escape(s.drop_first())
    }
}

/// The JSON string literal that serde_json writes for `s`: its escaped
/// characters between double quotes.
pub open spec fn json_string_of(s: Seq<char>) -> Seq<char> {
    seq!['"'] + json_escape(s) + seq!['"']
}

/// Whether serde_json reads `text` as one well-formed JSON value.
pub uninterp spec fn json_text_valid(text: Seq<char>) -> bool;

/// Relies on serde_json::to_string on a `str`: it writes the string
/// literal with serde_json's escapes. Writing a `str` into memory does not
/// fail.
#[verifier::external_body]
fn json_quote(s: &str) -> (r: String)
    ensures
        r@ == json_string_of(s@),
{
    serde_json::to_string(s).unwrap_or_default()
}

/// Relies on serde_json::from_str into a `Value`: it succeeds exactly on
/// well-formed JSON text.
#[verifier::external_body]
pub(crate) fn is_json(text: &str) -> (r: bool)
    ensures
        r == json_text_valid(text@),
{
    serde_json::from_str::<serde_json::Value>(text).is_ok()
}

/// The string held by member `key` of the JSON object that `text` encodes,
/// as serde_json reads it; `None` where `text` is not well-formed JSON, is
/// not an object, or has no such member holding a string.
pub uninterp spec fn json_str_member(text: Seq<char>, key: Seq<char>) -> Option<Seq<char>>;

/// The compact JSON text of member `key` of the JSON object that `text`
/// encodes, as serde_json writes it; `None` where there is no such member.
pub uninterp spec fn json_member_text(text: Seq<char>, key: Seq<char>) -> Option<Seq<char>>;

/// Relies on serde_json::from_str into a `Value`, then Value::get and
/// Value::as_str: the string member `key` of the object in `text`.
#[verifier::external_body]
pub(crate) fn str_member(text: &str, key: &str) -> (r: Option<String>)
    ensures
        opt_view(r) == json_str_member(text@, key@),
        !json_text_valid(text@) ==> r.is_none(),
{
    let v = serde_json::from_str::<serde_json::Value>(text).ok()?;
    v.get(key).and_then(serde_json::Value::as_str).map(String::from)
}

/// Relies on serde_json::from_str into a `Value`, then Value::get and the
/// compact `Display` of a `Value`: the text of member `key` of the object
/// in `text`.
#[verifier::external_body]
pub(crate) fn member_text(text: &str, key: &str) -> (r: Option<String>)
    ensures
        opt_view(r) == json_member_text(text@, key@),
{
    let v = serde_json::from_str::<serde_json::Value>(text).ok()?;
    v.get(key).map(|m| m.to_string())
}

/// The view of an optional string.
pub open spec fn opt_view(s: Option<String>) -> Option<Seq<char>> {
    match s {
        Some(x) => Some(x@),
        None => None,
    }
}

/// Whether `c` is a lowercase hexadecimal digit.
pub open spec fn is_lower_hex(c: char) -> bool {
    ('0' <= c && c <= '9') || ('a' <= c && c <= 'f')
}

/// The hyphenated form of a UUID: 32 lowercase hexadecimal digits in
/// groups of 8, 4, 4, 4 and 12, separated by hyphens.
pub open spec fn is_hyphenated_uuid(s: Seq<char>) -> bool {
    &&& s.len() == 36
    &&& forall|i: int|
        0 <= i < 36 ==> if i == 8 || i == 13 || i == 18 || i == 23 {
            #[trigger] s[i] == '-'
        } else {
            is_lower_hex(s[i])
        }
}

/// Relies on uuid::Uuid::new_v4 and its conversion to `String`: a random
/// identifier in the lowercase hyphenated form.
#[verifier::external_body]
fn fresh_id() -> (r: String)
    ensures
        is_hyphenated_uuid(r@),
{
    uuid::Uuid::new_v4().into()
}

/// Character-wise equality of two strings.
pub fn str_eq(a: &str, b: &str) -> (r: bool)
    ensures
        r == (a@ == b@),
{
    let n = a.unicode_len();
    if n != b.unicode_len() {
        return false;
    }
    let mut i: usize = 0;
    while i < n
        invariant
            n == a@.len(),
            n == b@.len(),
            i <= n,
            a@.subrange(0, i as int) == b@.subrange(0, i as int),
        decreases n - i,
    {
        if a.get_char(i) != b.get_char(i) {
            assert(a@[i as int] != b@[i as int]);
            return false;
        }
        assert(a@.subrange(0, i + 1) =~= a@.subrange(0, i as int).push(a@[i as int]));
        assert(b@.subrange(0, i + 1) =~= b@.subrange(0, i as int).push(b@[i as int]));
        i = i + 1;
    }
    assert(a@ =~= a@.subrange(0, n as int));
    assert(b@ =~= b@.subrange(0, n as int));
    true
}

/// An inbound envelope: the JSON text of an object with an `event`
/// member and an optional `data` member.
pub struct Envelope {
    pub text: String,
}

impl View for Envelope {
    type V = Seq<char>;

    open spec fn view(&self) -> Seq<char> {
        self.text@
    }
}

/// One named notification with a string payload.
pub struct EventMessage {
    pub event: String,
    pub data: String,
}

impl View for EventMessage {
    type V = (Seq<char>, Seq<char>);

    open spec fn view(&self) -> (Seq<char>, Seq<char>) {
        (self.event@, self.data@)
    }
}

impl EventMessage {
    pub fn new(event: &str, data: &str) -> (r: Self)
        ensures
            r@ == (event@, data@),
    {
        EventMessage { event: String::from_str(event), data: String::from_str(data) }
    }
}

/// The RPC method under which every outbound packet is broadcast.
pub open spec fn broadcast_method() -> Seq<char> {
    "app.broadcast"@
}

/// The text of an outbound frame: the envelope's fields as a compact JSON
/// object, in the order id, method, accessToken, data, with the message
/// as a nested object of event and data.
pub open spec fn packet_frame(
    id: Seq<char>,
    method: Seq<char>,
    token: Seq<char>,
    event: Seq<char>,
    data: Seq<char>,
) -> Seq<char> {
    "{\"id\":"@ + json_string_of(id) + ",\"method\":"@ + json_string_of(method)
        + ",\"accessToken\":"@ + json_string_of(token) + ",\"data\":{\"event\":"@
        + json_string_of(event) + ",\"data\":"@ + json_string_of(data) + "}}"@
}

/// The outbound envelope: a fresh identifier, the RPC method, the session
/// token and the message.
pub struct DataPacket {
    pub id: String,
    pub method: String,
    pub access_token: String,
    pub data: EventMessage,
}

impl DataPacket {
    /// A broadcast packet for `msg` under `token`, with a fresh identifier.
    pub fn broadcast(token: &str, msg: EventMessage) -> (r: Self)
        ensures
            is_hyphenated_uuid(r.id@),
            r.method@ == broadcast_method(),
            r.access_token@ == token@,
            r.data@ == msg@,
    {
        DataPacket {
            id: fresh_id(),
            method: String::from_str("app.broadcast"),
            access_token: String::from_str(token),
            data: msg,
        }
    }

    /// The frame text that carries this packet.
    pub fn encode(&self) -> (r: String)
        ensures
            r@ == packet_frame(
                self.id@,
                self.method@,
                self.access_token@,
                self.data.event@,
                self.data.data@,
            ),
    {
        let mut s = String::from_str("{\"id\":");
        s.append(json_quote(self.id.as_str()).as_str());
        s.append(",\"method\":");
        s.append(json_quote(self.method.as_str()).as_str());
        s.append(",\"accessToken\":");
        s.append(json_quote(self.access_token.as_str()).as_str());
        s.append(",\"data\":{\"event\":");
        s.append(json_quote(self.data.event.as_str()).as_str());
        s.append(",\"data\":");
        s.append(json_quote(self.data.data.as_str()).as_str());
        s.append("}}");
        s
    }
}

} // verus!
