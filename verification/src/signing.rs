//! Building a signed log-ingestion request: the shared-key signature over
//! the canonical string-to-hash, the authorization header, and the endpoint
//! URL. Getting the current date and posting the finished request over the
//! network are the caller's side; everything computed in between is here.

use vstd::prelude::*;
use vstd::string::StringExecFns;
use vstd::utf8::encode_utf8;

verus! {

/// One log record to forward: the serialized payload, the destination
/// table, the kind of check it reports, the customer identifier, and the
/// base64-encoded shared key that signs the request.
pub struct Log {
    pub input: String,
    pub table: String,
    pub check_type: String,
    pub customer: String,
    pub key: String,
}

/// Error returned when the shared key is not valid base64 and so no
/// signature can be derived from it.
#[derive(Debug, PartialEq, Eq, Structural, Clone, Copy)]
pub enum SigningError {
    InvalidKey,
}

/// What base64 decoding yields on the inputs it accepts.
pub uninterp spec fn base64_decoded(s: Seq<char>) -> Seq<u8>;

/// Whether a text is valid standard base64, that is, whether decoding
/// accepts it.
pub uninterp spec fn base64_valid(s: Seq<char>) -> bool;

/// The HMAC-SHA-256 tag of a message under a key.
pub uninterp spec fn hmac_sha256_tag(key: Seq<u8>, msg: Seq<u8>) -> Seq<u8>;

/// The base64 text of a byte string.
pub uninterp spec fn base64_encoded(b: Seq<u8>) -> Seq<char>;

/// Relies on `base64::Engine::decode` with the standard alphabet: whether
/// it accepts a text and what it then yields both depend on the input text
/// alone; invalid input is reported as an error.
#[verifier::external_body]
fn decode_base64(s: &str) -> (r: Result<Vec<u8>, SigningError>)
    ensures
        r is Ok <==> base64_valid(s@),
        r matches Ok(v) ==> v@ == base64_decoded(s@),
{
    match base64::Engine::decode(&base64::engine::general_purpose::STANDARD, s) {
        Ok(v) => Ok(v),
        Err(_) => Err(SigningError::InvalidKey),
    }
}

/// Relies on `ring::hmac::sign` with `HMAC_SHA256`: the tag depends on the
/// key and the message alone.
#[verifier::external_body]
fn hmac_sign(key: &[u8], msg: &[u8]) -> (r: Vec<u8>)
    ensures
        r@ == hmac_sha256_tag(key@, msg@),
{
    let signing_key = ring::hmac::Key::new(ring::hmac::HMAC_SHA256, key);
    let tag = ring::hmac::sign(&signing_key, msg);
    tag.as_ref().to_vec()
}

/// Relies on `data_encoding::BASE64.encode`: the padded standard base64
/// text of the input bytes.
#[verifier::external_body]
fn encode_base64(b: &[u8]) -> (r: String)
    ensures
        r@ == base64_encoded(b@),
{
    data_encoding::BASE64.encode(b)
}

/// The digit character for a value below ten.
pub open spec fn digit_char(d: nat) -> char {
    if d == 0 {
        '0'
    } else if d == 1 {
        '1'
    } else if d == 2 {
        '2'
    } else if d == 3 {
        '3'
    } else if d == 4 {
        '4'
    } else if d == 5 {
        '5'
    } else if d == 6 {
        '6'
    } else if d == 7 {
        '7'
    } else if d == 8 {
        '8'
    } else {
        '9'
    }
}

/// The decimal digits of a number, most significant first, with no sign and
/// no leading zero except for the number zero itself.
pub open spec fn decimal_digits(n: nat) -> Seq<char>
    decreases n,
{
    if n < 10 {
        seq![digit_char(n)]
    } else {
        decimal_digits(n / 10).push(digit_char(n % 10))
    }
}

fn digit_str(d: usize) -> (s: &'static str)
    requires
        d < 10,
    ensures
        s@ == seq![digit_char(d as nat)],
{
    let s: &'static str = if d == 0 {
        "0"
    } else if d == 1 {
        "1"
    } else if d == 2 {
        "2"
    } else if d == 3 {
        "3"
    } else if d == 4 {
        "4"
    } else if d == 5 {
        "5"
    } else if d == 6 {
        "6"
    } else if d == 7 {
        "7"
    } else if d == 8 {
        "8"
    } else {
        "9"
    };
    proof {
        reveal_strlit("0");
        reveal_strlit("1");
        reveal_strlit("2");
        reveal_strlit("3");
        reveal_strlit("4");
        reveal_strlit("5");
        reveal_strlit("6");
        reveal_strlit("7");
        reveal_strlit("8");
        reveal_strlit("9");
    }
    s
}

/// Writes a number in decimal.
pub fn usize_to_string(n: usize) -> (s: String)
    ensures
        s@ == decimal_digits(n as nat),
    decreases n,
{
    if n < 10 {
        digit_str(n).to_owned()
    } else {
        let mut s = usize_to_string(n / 10);
        s.append(digit_str(n % 10));
        proof {
            assert(s@ =~= decimal_digits(n as nat));
        }
        s
    }
}

/// The canonical string the shared-key scheme signs: the method, the body
/// length in bytes, the content type, the dated header, and the resource.
pub open spec fn string_to_hash_of(content_length: nat, date: Seq<char>) -> Seq<char> {
    "POST\n"@ + decimal_digits(content_length) + "\napplication/json\nx-ms-date:"@ + date
        + "\n/api/logs"@
}

/// Builds the canonical string to sign for a body of `content_length` bytes
/// sent on `date`.
pub fn build_string_to_hash(content_length: usize, date: &str) -> (s: String)
    ensures
        s@ == string_to_hash_of(content_length as nat, date@),
{
    let mut s = "POST\n".to_owned();
    let digits = usize_to_string(content_length);
    s.append(digits.as_str());
    s.append("\napplication/json\nx-ms-date:");
    s.append(date);
    s.append("\n/api/logs");
    s
}

/// The signature of `message` under the base64-encoded shared key
/// `secret`: the HMAC-SHA-256 tag of the message under the decoded key,
/// rendered as base64.
pub open spec fn signature_of(secret: Seq<char>, message: Seq<char>) -> Seq<char> {
    base64_encoded(hmac_sha256_tag(base64_decoded(secret), encode_utf8(message)))
}

/// Signs `message` with the base64-encoded shared key `secret`. Fails
/// exactly as key decoding fails; with a well-formed key the signature is
/// returned.
pub fn build_signature(message: &str, secret: &str) -> (r: Result<String, SigningError>)
    ensures
        r is Ok <==> base64_valid(secret@),
        r matches Ok(s) ==> s@ == signature_of(secret@, message@),
        r is Err ==> r == Result::<String, SigningError>::Err(SigningError::InvalidKey),
{
    let key = match decode_base64(secret) {
        Ok(k) => k,
        Err(_) => {
            return Err(SigningError::InvalidKey);
        },
    };
    let tag = hmac_sign(key.as_slice(), message.as_bytes());
    Ok(encode_base64(tag.as_slice()))
}

/// The authorization header carrying a shared-key signature.
pub open spec fn auth_header_of(customer: Seq<char>, sig: Seq<char>) -> Seq<char> {
    "SharedKey "@ + customer + ":"@ + sig
}

/// Builds the authorization header for a customer from a finished
/// signature.
pub fn build_auth_header(customer: &str, signature: &str) -> (s: String)
    ensures
        s@ == auth_header_of(customer@, signature@),
{
    let mut s = "SharedKey ".to_owned();
    s.append(customer);
    s.append(":");
    s.append(signature);
    s
}

/// The ingestion endpoint for a customer's workspace.
pub open spec fn endpoint_url_of(customer: Seq<char>) -> Seq<char> {
    "https://"@ + customer + ".ods.opinsights.azure.com/api/logs?api-version=2016-04-01"@
}

/// Builds the ingestion endpoint URL for a customer's workspace.
pub fn build_endpoint_url(customer: &str) -> (s: String)
    ensures
        s@ == endpoint_url_of(customer@),
{
    let mut s = "https://".to_owned();
    s.append(customer);
    s.append(".ods.opinsights.azure.com/api/logs?api-version=2016-04-01");
    s
}

/// Everything a sender needs to post one signed log record: where to send
/// it, the headers that authorize and date it, and the body.
pub struct LogRequest {
    pub url: String,
    pub auth: String,
    pub date: String,
    pub body: String,
    pub log_type: String,
}

/// How a prepared request relates to the record it carries and the date it
/// was prepared on: addressed to the record's customer workspace, dated as
/// given, carrying the record's payload, and authorized by the signature of
/// the canonical string over the payload's byte length and the date.
pub open spec fn prepared_for(l: Log, date: Seq<char>, req: LogRequest) -> bool {
    &&& req.url@ == endpoint_url_of(l.customer@)
    &&& req.auth@ == auth_header_of(
        l.customer@,
        signature_of(l.key@, string_to_hash_of(encode_utf8(l.input@).len(), date)),
    )
    &&& req.date@ == date
    &&& req.body@ == l.input@
    &&& req.log_type@ == l.table@
}

/// Assembles the signed request for one record as of `date`: the canonical
/// string over the body's byte length and the date is signed with the
/// record's key, and the result is addressed to the record's customer
/// workspace. Fails exactly when the record's key is not valid base64.
pub fn prepare_log_request(l: &Log, date: &str) -> (r: Result<LogRequest, SigningError>)
    requires
        encode_utf8(l.input@).len() <= usize::MAX,
    ensures
        r is Ok <==> base64_valid(l.key@),
        r matches Ok(req) ==> prepared_for(*l, date@, req),
        r is Err ==> r == Result::<LogRequest, SigningError>::Err(SigningError::InvalidKey),
{
    let content_length = l.input.as_str().len();
    let message = build_string_to_hash(content_length, date);
    let signature = match build_signature(message.as_str(), l.key.as_str()) {
        Ok(s) => s,
        Err(_) => {
            return Err(SigningError::InvalidKey);
        },
    };
    Ok(
        LogRequest {
            url: build_endpoint_url(l.customer.as_str()),
            auth: build_auth_header(l.customer.as_str(), signature.as_str()),
            date: date.to_owned(),
            body: l.input.as_str().to_owned(),
            log_type: l.table.as_str().to_owned(),
        },
    )
}

/// Relies on `chrono::Utc::now` and its formatter for the current moment
/// written as a date line; the value depends on the clock, so nothing is
/// assumed of it.
#[verifier::external_body]
fn current_date_rfc1123() -> (s: String) {
    format!("{}", chrono::Utc::now().format("%a, %e %b %Y %T GMT"))
}

/// Assembles the signed request for one record as of the moment of the
/// call. The date is read from the clock, and whatever it came back as,
/// the result is the prepared request for that date.
pub fn prepare_log_request_now(l: &Log) -> (r: Result<LogRequest, SigningError>)
    requires
        encode_utf8(l.input@).len() <= usize::MAX,
    ensures
        r is Ok <==> base64_valid(l.key@),
        r matches Ok(req) ==> exists|date: Seq<char>| prepared_for(*l, date, req),
        r is Err ==> r == Result::<LogRequest, SigningError>::Err(SigningError::InvalidKey),
{
    let date = current_date_rfc1123();
    match prepare_log_request(l, date.as_str()) {
        Ok(req) => {
            proof {
                assert(prepared_for(*l, date@, req));
            }
            Ok(req)
        },
        Err(e) => Err(e),
    }
}

} // verus!
