use vstd::prelude::*;
use vstd::string::*;

verus! {

/// How the service answers a location request: with status 200 and a JSON
/// object `{"status": .., "response": ..}`, or with status 500 and no body.
#[derive(Clone, Debug, PartialEq, Eq)]
pub enum Reply {
    Json { ok: bool, response: String },
    InternalServerError,
}

pub enum ReplyView {
    Json { ok: bool, response: Seq<char> },
    InternalServerError,
}

impl View for Reply {
    type V = ReplyView;

    open spec fn view(&self) -> ReplyView {
        match self {
            Reply::Json { ok, response } => ReplyView::Json { ok: *ok, response: response@ },
            Reply::InternalServerError => ReplyView::InternalServerError,
        }
    }
}

/// The text that serde_json gives for the JSON object built by inserting
/// the entries, in order, into a `serde_json::Map` as string keys with string
/// values (a later entry replaces the value of an earlier one with its key).
pub uninterp spec fn json_object_text(entries: Seq<(Seq<char>, Seq<char>)>) -> Seq<char>;

/// The entries as pairs of texts.
pub open spec fn entry_views(entries: Seq<(String, String)>) -> Seq<(Seq<char>, Seq<char>)> {
    entries.map_values(|e: (String, String)| (e.0@, e.1@))
}

/// The lowercase hexadecimal digit of `n`, for `n` below 16.
pub open spec fn hex_digit(n: int) -> char {
    if n < 10 {
        (48 + n) as char
    } else {
        (87 + n) as char
    }
}

/// How serde_json writes one character inside a JSON string: quote and
/// backslash are escaped, the control characters below U+0020 are written as
/// `\b`, `\t`, `\n`, `\f`, `\r` or `\u00xx` (lowercase hexadecimal), and every
/// other character is written as it is.
pub open spec fn json_escaped_char(c: char) -> Seq<char> {
    if c == '"' {
        seq!['\\', '"']
    } else if c == '\\' {
        seq!['\\', '\\']
    } else if c == '\u{8}' {
        seq!['\\', 'b']
    } else if c == '\t' {
        seq!['\\', 't']
    } else if c == '\n' {
        seq!['\\', 'n']
    } else if c == '\u{c}' {
        seq!['\\', 'f']
    } else if c == '\r' {
        seq!['\\', 'r']
    } else if (c as int) < 32 {
        seq!['\\', 'u', '0', '0', hex_digit((c as int) / 16), hex_digit((c as int) % 16)]
    } else {
        seq![c]
    }
}

/// The characters of `s`, each written as inside a JSON string.
pub open spec fn json_escaped(s: Seq<char>) -> Seq<char>
    decreases s.len(),
{
    if s.len() == 0 {
        Seq::empty()
    } else {
        json_escaped_char(s[0]) + json_escaped(s.drop_first())
    }
}

/// `s` as a JSON string literal.
pub open spec fn json_string(s: Seq<char>) -> Seq<char> {
    seq!['"'] + json_escaped(s) + seq!['"']
}

/// The members of a JSON object, `"key":"value"`, separated by commas.
pub open spec fn json_members(entries: Seq<(Seq<char>, Seq<char>)>) -> Seq<char>
    decreases entries.len(),
{
    if entries.len() == 0 {
        Seq::empty()
    } else {
        let member = json_string(entries[0].0) + seq![':'] + json_string(entries[0].1);
        if entries.len() == 1 {
            member
        } else {
            member + seq![','] + json_members(entries.drop_first())
        }
    }
}

/// The compact JSON object with these members, in this order.
pub open spec fn json_object(entries: Seq<(Seq<char>, Seq<char>)>) -> Seq<char> {
    seq!['{'] + json_members(entries) + seq!['}']
}

/// Whether key `a` comes before key `b` in the order of Rust's `String`
/// (character by character, by code point; a prefix comes first).
pub open spec fn key_before(a: Seq<char>, b: Seq<char>) -> bool
    decreases a.len(),
{
    if a.len() == 0 {
        b.len() > 0
    } else if b.len() == 0 {
        false
    } else if a[0] != b[0] {
        (a[0] as int) < (b[0] as int)
    } else {
        key_before(a.drop_first(), b.drop_first())
    }
}

/// Whether the keys strictly ascend, so that a sorted map keeps the entries
/// as they are.
pub open spec fn keys_ascending(entries: Seq<(Seq<char>, Seq<char>)>) -> bool {
    forall|i: int, j: int| 0 <= i < j < entries.len() ==> key_before(entries[i].0, entries[j].0)
}

/// Serializes, with `serde_json::Value`'s `Display` (that is,
/// `serde_json::to_string`), the object whose entries are `entries`, each
/// value a JSON string, collected into a `serde_json::Map` (a map sorted by
/// key, since the `preserve_order` feature is off). The text is named in
/// general; when the keys already ascend it is the compact object with the
/// entries in that order.
#[verifier::external_body]
fn serialize_json_object(entries: &Vec<(String, String)>) -> (res: String)
    ensures
        res@ == json_object_text(entry_views(entries@)),
        keys_ascending(entry_views(entries@)) ==> res@ == json_object(entry_views(entries@)),
{
    let object: serde_json::Map<String, serde_json::Value> = entries
        .iter()
        .map(|(key, value)| (key.clone(), serde_json::Value::String(value.clone())))
        .collect();
    serde_json::Value::Object(object).to_string()
}

/// The entries of a JSON reply, in key order: its response, then its status
/// word.
pub open spec fn reply_entries(ok: bool, response: Seq<char>) -> Seq<(Seq<char>, Seq<char>)> {
    seq![("response"@, response), ("status"@, status_word(ok))]
}

pub open spec fn status_word(ok: bool) -> Seq<char> {
    if ok {
        "ok"@
    } else {
        "error"@
    }
}

/// The body of a reply, as text.
pub open spec fn body_text(r: ReplyView) -> Seq<char> {
    match r {
        ReplyView::Json { ok, response } => json_object(reply_entries(ok, response)),
        ReplyView::InternalServerError => Seq::empty(),
    }
}

/// The HTTP status code of a reply.
pub open spec fn status_code_of(r: ReplyView) -> u16 {
    match r {
        ReplyView::Json { .. } => 200,
        ReplyView::InternalServerError => 500,
    }
}

pub open spec fn malformed_json_message() -> Seq<char> {
    "Malformed location json"@
}

pub open spec fn invalid_longitude_message() -> Seq<char> {
    "Invalid longitude coordinates"@
}

pub open spec fn invalid_latitude_message() -> Seq<char> {
    "Invalid latitude coordinates"@
}

pub open spec fn no_public_address_message() -> Seq<char> {
    "Host public IP address could not be determined"@
}

pub open spec fn no_isp_location_message() -> Seq<char> {
    "ISP location could not be determined"@
}

/// An error reply with the given message.
pub open spec fn error_reply(message: Seq<char>) -> ReplyView {
    ReplyView::Json { ok: false, response: message }
}

/// Every JSON reply, whether its status is "ok" or "error" and whatever it
/// says, goes out with HTTP status 200; only the bare reply goes out with 500.
pub proof fn lemma_status_codes(ok: bool, response: Seq<char>)
    ensures
        status_code_of(ReplyView::Json { ok, response }) == 200,
        status_code_of(ReplyView::InternalServerError) == 500,
{
}

impl Reply {
    /// A JSON reply whose status is `"error"`.
    pub fn error(message: &str) -> (r: Reply)
        ensures
            r@ == error_reply(message@),
    {
        Reply::Json { ok: false, response: String::from_str(message) }
    }

    /// A JSON reply whose status is `"ok"`.
    pub fn success(response: String) -> (r: Reply)
        ensures
            r@ == (ReplyView::Json { ok: true, response: response@ }),
    {
        Reply::Json { ok: true, response }
    }

    pub fn status_code(&self) -> (code: u16)
        ensures
            code == status_code_of(self@),
            self@ is Json ==> code == 200,
            self@ is InternalServerError ==> code == 500,
    {
        match self {
            Reply::Json { .. } => 200,
            Reply::InternalServerError => 500,
        }
    }

    /// Whether the reply carries a JSON body.
    pub fn is_json(&self) -> (b: bool)
        ensures
            b == (self@ is Json),
    {
        match self {
            Reply::Json { .. } => true,
            Reply::InternalServerError => false,
        }
    }

    pub fn body(&self) -> (text: String)
        ensures
            text@ == body_text(self@),
    {
        match self {
            Reply::Json { ok, response } => {
                let word = if *ok {
                    String::from_str("ok")
                } else {
                    String::from_str("error")
                };
                let entries: Vec<(String, String)> = vec![
                    (String::from_str("response"), response.clone()),
                    (String::from_str("status"), word),
                ];
                proof {
                    assert(entry_views(entries@) =~= reply_entries(*ok, response@));
                    reveal_strlit("response");
                    reveal_strlit("status");
                    assert(key_before("response"@, "status"@));
                    assert(keys_ascending(reply_entries(*ok, response@)));
                }
                serialize_json_object(&entries)
            },
            Reply::InternalServerError => String::new(),
        }
    }
}

} // verus!

verus! {

/// A JSON reply's body is the compact object whose `"response"` member holds
/// the reply's text and whose `"status"` member holds "ok" or "error", in
/// that order.
pub proof fn lemma_reply_body(ok: bool, response: Seq<char>)
    ensures
        body_text(ReplyView::Json { ok, response }) == json_object(
            seq![("response"@, response), ("status"@, if ok { "ok"@ } else { "error"@ })],
        ),
        body_text(ReplyView::InternalServerError) == Seq::<char>::empty(),
{
}

} // verus!
