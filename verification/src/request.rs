//! What one request carries: its key and value, the address it goes to and
//! the body it sends.

use crate::mode::Operation;
use vstd::prelude::*;
use vstd::string::*;

verus! {

/// The decimal digit for a number below ten.
pub open spec fn digit_char(d: nat) -> char {
    if d == 0 {
        '0'
    } else if d == 1 {
        '1'
    } else if d == 2 {
        '2'
    } else if d == 3 {
        '3'
    } else if d == 4 {
        '4'
    } else if d == 5 {
        '5'
    } else if d == 6 {
        '6'
    } else if d == 7 {
        '7'
    } else if d == 8 {
        '8'
    } else {
        '9'
    }
}

/// A number in decimal, most significant digit first, without leading zeros.
pub open spec fn decimal(n: nat) -> Seq<char>
    decreases n,
{
    if n < 10 {
        seq![digit_char(n)]
    } else {
        decimal(n / 10).push(digit_char(n % 10))
    }
}

/// The key of request `index` of client `client`: `key_`, the client, `_`,
/// the index.
pub open spec fn request_key(client: nat, index: nat) -> Seq<char> {
    "key_"@ + decimal(client) + "_"@ + decimal(index)
}

/// The value of request `index` of client `client`: `value_`, the client,
/// `_`, the index.
pub open spec fn request_value(client: nat, index: nat) -> Seq<char> {
    "value_"@ + decimal(client) + "_"@ + decimal(index)
}

/// The path that an operation is posted to.
pub open spec fn operation_path(op: Operation) -> Seq<char> {
    match op {
        Operation::Write => "/write"@,
        Operation::Read => "/read"@,
    }
}

/// The body of a write, given key and value as JSON strings: an object
/// `Set` that holds them under `key` and `value`.
pub open spec fn write_frame(key_json: Seq<char>, value_json: Seq<char>) -> Seq<char> {
    "{\"Set\":{\"key\":"@ + key_json + ",\"value\":"@ + value_json + "}}"@
}

/// The JSON string literal that `serde_json::to_string` gives for a string:
/// the text in double quotes, escaped where JSON asks for it.
pub uninterp spec fn json_string_of(s: Seq<char>) -> Seq<char>;

/// Whether JSON writes a character as it stands: every character does but
/// the double quote, the backslash and the control characters below the
/// space.
pub open spec fn is_plain_char(c: char) -> bool {
    c != '"' && c != '\\' && c as u32 >= 0x20
}

/// Whether a text holds nothing that JSON escapes.
pub open spec fn is_plain_text(s: Seq<char>) -> bool {
    forall|i: int| 0 <= i < s.len() ==> is_plain_char(#[trigger] s[i])
}

/// A text between two double quotes.
pub open spec fn quoted(s: Seq<char>) -> Seq<char> {
    seq!['"'] + s + seq!['"']
}

/// The error type of `serde_json`.
#[verifier::external_type_specification]
#[verifier::external_body]
pub struct ExJsonError(serde_json::Error);

/// Why a text could not be taken as JSON.
#[derive(Clone, Copy, Debug, PartialEq, Eq, Structural)]
pub enum EncodeError {
    /// The JSON encoder returned an error in place of a text.
    Json,
}

/// One request that a worker is to issue.
#[derive(Debug)]
pub struct Request {
    pub op: Operation,
    pub key: String,
    pub value: String,
}

/// Calls `serde_json::to_string` on a string. Three things are claimed of
/// it and not proved. The call succeeds: a string is serialised by writing
/// bytes into a fresh vector, and nothing on that way returns an error. The
/// text it returns is the JSON string literal of its argument. And for a
/// text that holds no double quote, no backslash and no control character,
/// the only characters that the encoder's escape table marks, that literal
/// is the text itself between two double quotes.
#[verifier::external_body]
fn encode_json_string(s: &str) -> (r: Result<String, serde_json::Error>)
    ensures
        r is Ok,
        r matches Ok(text) ==> text@ == json_string_of(s@),
        is_plain_text(s@) ==> (r matches Ok(text) ==> text@ == quoted(s@)),
{
    serde_json::to_string(s)
}

fn digit_str(d: usize) -> (s: &'static str)
    requires
        d < 10,
    ensures
        s@ == seq![digit_char(d as nat)],
{
    proof {
        reveal_strlit("0");
        reveal_strlit("1");
        reveal_strlit("2");
        reveal_strlit("3");
        reveal_strlit("4");
        reveal_strlit("5");
        reveal_strlit("6");
        reveal_strlit("7");
        reveal_strlit("8");
        reveal_strlit("9");
    }
    let s = if d == 0 {
        "0"
    } else if d == 1 {
        "1"
    } else if d == 2 {
        "2"
    } else if d == 3 {
        "3"
    } else if d == 4 {
        "4"
    } else if d == 5 {
        "5"
    } else if d == 6 {
        "6"
    } else if d == 7 {
        "7"
    } else if d == 8 {
        "8"
    } else {
        "9"
    };
    assert(s@ =~= seq![digit_char(d as nat)]);
    s
}

/// Appends a number in decimal to a text.
pub fn append_decimal(out: &mut String, n: usize)
    ensures
        final(out)@ == old(out)@ + decimal(n as nat),
    decreases n,
{
    let ghost before = out@;
    if n >= 10 {
        append_decimal(out, n / 10);
    }
    out.append(digit_str(n % 10));
    assert(out@ =~= before + decimal(n as nat));
}

/// A number in decimal.
pub fn decimal_string(n: usize) -> (s: String)
    ensures
        s@ == decimal(n as nat),
{
    let mut s = String::new();
    append_decimal(&mut s, n);
    assert(s@ =~= decimal(n as nat));
    s
}

/// The key of a client's request.
pub fn make_key(client: usize, index: usize) -> (key: String)
    ensures
        key@ == request_key(client as nat, index as nat),
{
    let mut key = String::from_str("key_");
    append_decimal(&mut key, client);
    key.append("_");
    append_decimal(&mut key, index);
    key
}

/// The value of a client's request.
pub fn make_value(client: usize, index: usize) -> (value: String)
    ensures
        value@ == request_value(client as nat, index as nat),
{
    let mut value = String::from_str("value_");
    append_decimal(&mut value, client);
    value.append("_");
    append_decimal(&mut value, index);
    value
}

/// The address that an operation is posted to: the server's address, then
/// the operation's path.
pub fn request_url(server: &str, op: Operation) -> (url: String)
    ensures
        url@ == server@ + operation_path(op),
{
    let url = String::from_str(server);
    match op {
        Operation::Write => url.concat("/write"),
        Operation::Read => url.concat("/read"),
    }
}

/// Frames the body of a write around its key and value, both already JSON
/// strings.
pub fn frame_write_body(key_json: &str, value_json: &str) -> (body: String)
    ensures
        body@ == write_frame(key_json@, value_json@),
{
    let mut body = String::from_str("{\"Set\":{\"key\":");
    body.append(key_json);
    body.append(",\"value\":");
    body.append(value_json);
    body.append("}}");
    body
}

/// What the JSON encoder returned, with the encoder's error replaced by this
/// library's: the text where there is one, else `EncodeError::Json`.
pub fn checked_json(encoded: Result<String, serde_json::Error>) -> (r: Result<String, EncodeError>)
    ensures
        match encoded {
            Ok(text) => r matches Ok(same) && same@ == text@,
            Err(_) => r == Err::<String, EncodeError>(EncodeError::Json),
        },
{
    match encoded {
        Ok(text) => Ok(text),
        Err(_) => Err(EncodeError::Json),
    }
}

/// The body of a read: the key as a JSON string. A body is returned for
/// every key. A key that holds nothing that JSON escapes is sent as it
/// stands, between two double quotes.
pub fn read_body(key: &str) -> (r: Result<String, EncodeError>)
    ensures
        r matches Ok(body) && body@ == json_string_of(key@),
        is_plain_text(key@) ==> (r matches Ok(body) ==> body@ == quoted(key@)),
{
    checked_json(encode_json_string(key))
}

/// The body of a write from what the JSON encoder returned for the key and
/// for the value: the frame around both texts where both were encoded, else
/// `EncodeError::Json`.
pub fn write_body_from(
    key_json: Result<String, serde_json::Error>,
    value_json: Result<String, serde_json::Error>,
) -> (r: Result<String, EncodeError>)
    ensures
        match (key_json, value_json) {
            (Ok(k), Ok(v)) => r matches Ok(body) && body@ == write_frame(k@, v@),
            _ => r == Err::<String, EncodeError>(EncodeError::Json),
        },
{
    match checked_json(key_json) {
        Ok(k) => match checked_json(value_json) {
            Ok(v) => Ok(frame_write_body(k.as_str(), v.as_str())),
            Err(e) => Err(e),
        },
        Err(e) => Err(e),
    }
}

/// The body of a write: the object `Set` with the key and the value as JSON
/// strings. A body is returned for every key and value. Where neither holds
/// anything that JSON escapes, both are sent as they stand, each between two
/// double quotes.
pub fn write_body(key: &str, value: &str) -> (r: Result<String, EncodeError>)
    ensures
        r matches Ok(body) && body@ == write_frame(json_string_of(key@), json_string_of(value@)),
        is_plain_text(key@) && is_plain_text(value@) ==> (r matches Ok(body) ==> body@
            == write_frame(quoted(key@), quoted(value@))),
{
    let key_json = encode_json_string(key);
    let value_json = encode_json_string(value);
    write_body_from(key_json, value_json)
}

impl Request {
    /// The address this request is posted to on `server`.
    pub fn url(&self, server: &str) -> (url: String)
        ensures
            url@ == server@ + operation_path(self.op),
    {
        request_url(server, self.op)
    }

    /// What the body of this request is, given the JSON strings of its key
    /// and of its value: the frame of a write around both, or the key's alone
    /// for a read.
    pub open spec fn body_with(&self, key_json: Seq<char>, value_json: Seq<char>) -> Seq<char> {
        match self.op {
            Operation::Write => write_frame(key_json, value_json),
            Operation::Read => key_json,
        }
    }

    /// The body this request sends: that of a write with its key and value,
    /// or that of a read with its key. A body is returned for every request.
    /// Where key and value hold nothing that JSON escapes, as those that a
    /// worker makes, they are sent as they stand, each between two double
    /// quotes.
    pub fn body(&self) -> (r: Result<String, EncodeError>)
        ensures
            r matches Ok(body) && body@ == self.body_with(
                json_string_of(self.key@),
                json_string_of(self.value@),
            ),
            is_plain_text(self.key@) && is_plain_text(self.value@) ==> (r matches Ok(body)
                ==> body@ == self.body_with(quoted(self.key@), quoted(self.value@))),
    {
        match self.op {
            Operation::Write => write_body(self.key.as_str(), self.value.as_str()),
            Operation::Read => read_body(self.key.as_str()),
        }
    }
}

/// A number in decimal has at least one digit, has one digit exactly when
/// the number is below ten, and holds no underscore.
pub proof fn lemma_decimal_shape(n: nat)
    ensures
        decimal(n).len() >= 1,
        n < 10 <==> decimal(n).len() == 1,
        forall|i: int| 0 <= i < decimal(n).len() ==> decimal(n)[i] != '_',
    decreases n,
{
    if n >= 10 {
        lemma_decimal_shape(n / 10);
    }
}

/// A number in decimal holds nothing that JSON escapes.
pub proof fn lemma_decimal_plain(n: nat)
    ensures
        is_plain_text(decimal(n)),
    decreases n,
{
    if n >= 10 {
        lemma_decimal_plain(n / 10);
    }
}

/// The key and the value of a request hold nothing that JSON escapes, so
/// that each is sent as it stands, between two double quotes.
pub proof fn lemma_request_texts_plain(client: nat, index: nat)
    ensures
        is_plain_text(request_key(client, index)),
        is_plain_text(request_value(client, index)),
{
    reveal_strlit("key_");
    reveal_strlit("value_");
    reveal_strlit("_");
    lemma_decimal_plain(client);
    lemma_decimal_plain(index);
}

/// Different numbers have different decimals.
pub proof fn lemma_decimal_injective(a: nat, b: nat)
    requires
        decimal(a) == decimal(b),
    ensures
        a == b,
    decreases a,
{
    lemma_decimal_shape(a);
    lemma_decimal_shape(b);
    if a < 10 {
        assert(decimal(a)[0] == digit_char(a));
        assert(decimal(b)[0] == digit_char(b));
    } else {
        assert(decimal(a).drop_last() =~= decimal(a / 10));
        assert(decimal(b).drop_last() =~= decimal(b / 10));
        assert(decimal(a).last() == digit_char(a % 10));
        assert(decimal(b).last() == digit_char(b % 10));
        lemma_decimal_injective(a / 10, b / 10);
    }
}

/// Two numbers joined by an underscore behind a common prefix can be read
/// back: equal texts come from equal pairs of numbers.
pub proof fn lemma_joined_injective(prefix: Seq<char>, a1: nat, b1: nat, a2: nat, b2: nat)
    requires
        prefix + decimal(a1) + "_"@ + decimal(b1) == prefix + decimal(a2) + "_"@ + decimal(b2),
    ensures
        a1 == a2,
        b1 == b2,
{
    reveal_strlit("_");
    let left = prefix + decimal(a1) + "_"@ + decimal(b1);
    let right = prefix + decimal(a2) + "_"@ + decimal(b2);
    let n1 = decimal(a1).len() as int;
    let n2 = decimal(a2).len() as int;
    let start = prefix.len() as int;
    lemma_decimal_shape(a1);
    lemma_decimal_shape(a2);
    assert(left[start + n1] == '_');
    assert(right[start + n2] == '_');
    if n1 < n2 {
        assert(right[start + n1] == decimal(a2)[n1]);
    }
    if n2 < n1 {
        assert(left[start + n2] == decimal(a1)[n2]);
    }
    assert(n1 == n2);
    assert(decimal(a1) =~= left.subrange(start, start + n1));
    assert(decimal(a2) =~= right.subrange(start, start + n2));
    assert(decimal(b1) =~= left.subrange(start + n1 + 1, left.len() as int));
    assert(decimal(b2) =~= right.subrange(start + n2 + 1, right.len() as int));
    lemma_decimal_injective(a1, a2);
    lemma_decimal_injective(b1, b2);
}

/// No two requests of a run share a key: the key tells the client and the
/// index of its request.
pub proof fn lemma_keys_distinct(client1: nat, index1: nat, client2: nat, index2: nat)
    requires
        request_key(client1, index1) == request_key(client2, index2),
    ensures
        client1 == client2,
        index1 == index2,
{
    lemma_joined_injective("key_"@, client1, index1, client2, index2);
}

/// No two requests of a run share a value.
pub proof fn lemma_values_distinct(client1: nat, index1: nat, client2: nat, index2: nat)
    requires
        request_value(client1, index1) == request_value(client2, index2),
    ensures
        client1 == client2,
        index1 == index2,
{
    lemma_joined_injective("value_"@, client1, index1, client2, index2);
}

} // verus!
