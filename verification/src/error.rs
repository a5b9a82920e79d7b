//! Errors of the library.
use vstd::prelude::*;
use vstd::string::*;
use crate::text::{decimal, owned, push_decimal};

verus! {

/// A message whose payload could not be decoded.
pub enum ParseError {
    /// The payload, as received.
    InvalidPayload(Vec<u8>),
}

/// A lower-case hexadecimal digit.
pub open spec fn hex_digit(n: u8) -> char {
    if n < 10 { (('0' as u8) + n) as char } else { (('a' as u8) + n - 10) as char }
}

/// How one byte is shown in a byte string: the escapes of Rust byte
/// literals for newline, return, tab, backslash, double quote and zero, the
/// character itself when it is printable ASCII, else "\\x" and two hex digits.
pub open spec fn escaped_byte(b: u8) -> Seq<char> {
    if b == 10 {
        seq!['\\', 'n']
    } else if b == 13 {
        seq!['\\', 'r']
    } else if b == 9 {
        seq!['\\', 't']
    } else if b == 92 || b == 34 {
        seq!['\\', b as char]
    } else if b == 0 {
        seq!['\\', '0']
    } else if 0x20 <= b < 0x7f {
        seq![b as char]
    } else {
        seq!['\\', 'x', hex_digit(b / 16), hex_digit(b % 16)]
    }
}

/// The escaped bytes, one after the other.
pub open spec fn escaped_bytes(bytes: Seq<u8>) -> Seq<char>
    decreases bytes.len(),
{
    if bytes.len() == 0 {
        seq![]
    } else {
        escaped_bytes(bytes.drop_last()) + escaped_byte(bytes.last())
    }
}

/// How `bytes::Bytes` shows itself in `Debug`: `b"…"` around the escaped
/// bytes.
pub open spec fn byte_string_text(bytes: Seq<u8>) -> Seq<char> {
    seq!['b', '"'] + escaped_bytes(bytes) + seq!['"']
}

/// `Debug` of `bytes::Bytes`. Claimed, as its source shows: the text is
/// `byte_string_text` of the bytes.
#[verifier::external_body]
fn debug_bytes(bytes: &[u8]) -> (res: String)
    ensures
        res@ == byte_string_text(bytes@),
{
    format!("{:?}", bytes::Bytes::copy_from_slice(bytes))
}

impl ParseError {
    /// The error message: "Invalid message payload received: " and the
    /// payload as a byte string.
    pub fn to_message(&self) -> (res: String)
        ensures
            match self {
                ParseError::InvalidPayload(p) => res@ == "Invalid message payload received: "@
                    + byte_string_text(p@),
            },
    {
        match self {
            ParseError::InvalidPayload(p) => {
                let mut text = owned("Invalid message payload received: ");
                let shown = debug_bytes(p.as_slice());
                text.append(shown.as_str());
                text
            },
        }
    }
}

/// A device that cannot be set up as configured.
pub enum DeviceConfigError {
    /// The device with this id lacks the trait with this name.
    MissingTrait(String, String),
    /// Subscribing to the device's topic failed; the text says why.
    MqttClientError(String),
}

impl DeviceConfigError {
    /// The error message: "Device '{id}' does not implement expected trait
    /// '{trait}'" for a missing trait, the client's own text otherwise.
    pub fn to_message(&self) -> (res: String)
        ensures
            match self {
                DeviceConfigError::MissingTrait(id, t) => res@ == "Device '"@ + id@
                    + "' does not implement expected trait '"@ + t@ + "'"@,
                DeviceConfigError::MqttClientError(why) => res@ == why@,
            },
    {
        match self {
            DeviceConfigError::MissingTrait(id, t) => {
                let mut text = owned("Device '");
                text.append(id.as_str());
                text.append("' does not implement expected trait '");
                text.append(t.as_str());
                text.append("'");
                text
            },
            DeviceConfigError::MqttClientError(why) => why.clone(),
        }
    }
}

/// Environment variables that should have been set but were not.
pub struct MissingEnv {
    keys: Vec<String>,
}

/// The names of the missing variables, each in single quotes, separated by
/// ", ".
pub open spec fn quoted_list(keys: Seq<Seq<char>>) -> Seq<char>
    decreases keys.len(),
{
    if keys.len() <= 1 {
        "'"@ + keys[0] + "'"@
    } else {
        quoted_list(keys.drop_last()) + ", '"@ + keys.last() + "'"@
    }
}

/// The message of a `MissingEnv` with these keys.
pub open spec fn missing_env_text(keys: Seq<Seq<char>>) -> Seq<char> {
    "Missing environment variable"@ + (if keys.len() == 1 { " "@ } else { "s "@ }) + quoted_list(
        keys,
    )
}

impl MissingEnv {
    /// The names of the missing variables, in the order they were added.
    pub closed spec fn keys(&self) -> Seq<Seq<char>> {
        self.keys@.map_values(|k: String| k@)
    }

    pub fn new() -> (res: Self)
        ensures
            res.keys().len() == 0,
    {
        MissingEnv { keys: Vec::new() }
    }

    pub fn add_missing(&mut self, key: &str)
        ensures
            final(self).keys() == old(self).keys().push(key@),
    {
        self.keys.push(owned(key));
        assert(self.keys() =~= old(self).keys().push(key@));
    }

    /// An error exactly when some variable is missing.
    pub fn has_missing(self) -> (res: Result<(), Self>)
        ensures
            match res {
                Ok(()) => self.keys().len() == 0,
                Err(e) => self.keys().len() > 0 && e.keys() == self.keys(),
            },
    {
        if self.keys.len() != 0 {
            Err(self)
        } else {
            Ok(())
        }
    }

    /// The error message: "Missing environment variable 'A'" for one,
    /// "Missing environment variables 'A', 'B'" for more.
    pub fn to_message(&self) -> (res: String)
        requires
            self.keys().len() > 0,
        ensures
            res@ == missing_env_text(self.keys()),
    {
        let n = self.keys.len();
        let mut text = owned("Missing environment variable");
        if n == 1 {
            text.append(" '");
        } else {
            text.append("s '");
        }
        text.append(self.keys[0].as_str());
        text.append("'");
        let ghost keys = self.keys();
        proof {
            reveal_strlit(" '");
            reveal_strlit(" ");
            reveal_strlit("'");
            reveal_strlit("s '");
            reveal_strlit("s ");
        }
        assert(keys[0] == self.keys@[0]@);
        assert(keys.take(1)[0] == keys[0]);
        assert(quoted_list(keys.take(1)) =~= "'"@ + keys[0] + "'"@);
        assert(text@ =~= "Missing environment variable"@ + (if n == 1 { " "@ } else { "s "@ })
            + quoted_list(keys.take(1)));
        let mut i: usize = 1;
        while i < n
            invariant
                n == self.keys@.len(),
                keys == self.keys(),
                1 <= i <= n,
                text@ =~= "Missing environment variable"@ + (if n == 1 { " "@ } else { "s "@ })
                    + quoted_list(keys.take(i as int)),
            decreases n - i,
        {
            text.append(", '");
            text.append(self.keys[i].as_str());
            text.append("'");
            assert(keys[i as int] == self.keys@[i as int]@);
            assert(keys.take(i as int + 1).drop_last() =~= keys.take(i as int));
            assert(keys.take(i as int + 1).last() == keys[i as int]);
            i = i + 1;
        }
        assert(keys.take(n as int) =~= keys);
        text
    }
}

impl Default for MissingEnv {
    fn default() -> (res: Self)
        ensures
            res.keys().len() == 0,
    {
        Self::new()
    }
}

/// A topic that was expected to be a wildcard topic.
pub struct MissingWildcard {
    pub topic: String,
}

impl MissingWildcard {
    pub fn new(topic: &str) -> (res: Self)
        ensures
            res.topic@ == topic@,
    {
        MissingWildcard { topic: owned(topic) }
    }

    /// "Topic '{topic}' is expected to be a wildcard topic".
    pub fn to_message(&self) -> (res: String)
        ensures
            res@ == "Topic '"@ + self.topic@ + "' is expected to be a wildcard topic"@,
    {
        let mut text = owned("Topic '");
        text.append(self.topic.as_str());
        text.append("' is expected to be a wildcard topic");
        text
    }
}

/// Setting up presence detection failed.
pub enum PresenceError {
    /// Subscribing to the topic failed; the text says why.
    SubscribeError(String),
    /// The topic is not a wildcard topic.
    MissingWildcard(MissingWildcard),
}

/// Setting up a light sensor failed.
pub enum LightSensorError {
    /// Subscribing to the topic failed; the text says why.
    SubscribeError(String),
}

/// The standard reason phrase of an HTTP status code, as the `http` crate
/// knows it (none for codes it has no phrase for).
pub uninterp spec fn canonical_reason(code: u16) -> Option<Seq<char>>;

#[verifier::external_type_specification]
#[verifier::external_body]
pub struct ExInvalidStatusCode(axum::http::status::InvalidStatusCode);

/// `http::StatusCode::from_u16`, giving back the number. Claimed, as its
/// source shows: it succeeds exactly for codes from 100 to 999, with the
/// code itself.
#[verifier::external_body]
fn status_code_from_u16(code: u16) -> (res: Result<u16, axum::http::status::InvalidStatusCode>)
    ensures
        res is Ok <==> 100 <= code <= 999,
        res matches Ok(c) ==> c == code,
{
    axum::http::StatusCode::from_u16(code).map(|status| status.as_u16())
}

/// `http::StatusCode::canonical_reason` of a valid code. Claimed: the text is
/// `canonical_reason` of the code.
#[verifier::external_body]
fn status_reason(code: u16) -> (res: Option<String>)
    requires
        100 <= code <= 999,
    ensures
        match res {
            Some(s) => canonical_reason(code) == Some(s@),
            None => canonical_reason(code) is None,
        },
{
    axum::http::StatusCode::from_u16(code).unwrap().canonical_reason().map(|r| r.to_string())
}

/// How a status code is displayed: its number, a space, and its reason
/// phrase (or "<unknown status code>").
pub open spec fn status_text(code: u16) -> Seq<char> {
    decimal(code as nat) + " "@ + match canonical_reason(code) {
        Some(r) => r,
        None => "<unknown status code>"@,
    }
}

/// An error answered to an API request: an HTTP status and the reason.
pub struct ApiError {
    status_code: u16,
    reason: String,
}

/// The body of an error answer.
pub struct ApiErrorJsonError {
    pub code: u16,
    pub status: String,
    pub reason: String,
}

/// The JSON form of an error answer.
pub struct ApiErrorJson {
    pub error: ApiErrorJsonError,
}

/// What an error answer reads back as: its code and reason when the code is
/// a valid HTTP status code (from 100 to 999), else nothing.
pub open spec fn decoded(value: ApiErrorJson) -> Option<(u16, Seq<char>)> {
    if 100 <= value.error.code <= 999 {
        Some((value.error.code, value.error.reason@))
    } else {
        None
    }
}

/// Whether `json` is the JSON form of `e`: its code, the code displayed with
/// its reason phrase, and its reason.
pub open spec fn json_form(e: ApiError, json: ApiErrorJson) -> bool {
    &&& json.error.code == e.status_code()
    &&& json.error.status@ == status_text(e.status_code())
    &&& json.error.reason@ == e.reason()
}

/// Reading back the JSON form of an error gives the same status code and
/// reason.
pub proof fn lemma_json_roundtrip(e: ApiError, json: ApiErrorJson)
    requires
        e.wf(),
        json_form(e, json),
    ensures
        decoded(json) == Some((e.status_code(), e.reason())),
{
}

impl ApiError {
    /// The HTTP status code (always from 100 to 999).
    pub closed spec fn status_code(&self) -> u16 {
        self.status_code
    }

    /// The text of the error that caused the answer.
    pub closed spec fn reason(&self) -> Seq<char> {
        self.reason@
    }

    pub closed spec fn wf(&self) -> bool {
        100 <= self.status_code <= 999
    }

    pub fn new(status_code: u16, reason: String) -> (res: Self)
        requires
            100 <= status_code <= 999,
        ensures
            res.wf(),
            res.status_code() == status_code,
            res.reason() == reason@,
    {
        ApiError { status_code, reason }
    }

    /// The HTTP status code.
    pub fn status(&self) -> (res: u16)
        ensures
            res == self.status_code(),
    {
        self.status_code
    }

    /// Reads back an error answer: fails exactly when the code is not a
    /// valid HTTP status code (from 100 to 999).
    pub fn try_from(value: ApiErrorJson) -> (res: Result<Self, axum::http::status::InvalidStatusCode>)
        ensures
            res is Ok <==> decoded(value) is Some,
            res matches Ok(e) ==> e.wf() && decoded(value) == Some((e.status_code(), e.reason())),
    {
        let status_code = match status_code_from_u16(value.error.code) {
            Ok(c) => c,
            Err(e) => {
                return Err(e);
            },
        };
        Ok(ApiError { status_code, reason: value.error.reason })
    }
}

impl ApiErrorJson {
    /// The JSON form of an error: its code, the code displayed with its
    /// reason phrase, and the reason of the error.
    pub fn from(value: ApiError) -> (res: Self)
        requires
            value.wf(),
        ensures
            json_form(value, res),
    {
        let mut status = String::new();
        push_decimal(&mut status, value.status_code as u64);
        status.append(" ");
        match status_reason(value.status_code) {
            Some(r) => status.append(r.as_str()),
            None => status.append("<unknown status code>"),
        }
        ApiErrorJson {
            error: ApiErrorJsonError { code: value.status_code, status, reason: value.reason },
        }
    }
}

} // verus!
