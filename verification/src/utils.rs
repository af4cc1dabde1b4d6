//! Request signing, response classification, and the error taxonomy.
//!
//! The [`Signer`] owns the API credentials and computes everything a request
//! needs before it goes on the wire: the full URL, the HMAC-SHA256 signature
//! over `timestamp || method || resource || body`, and the header values that
//! carry them. Once a response (or a transport failure) comes back, its status
//! is classified into the closed [`CBAdvError`] taxonomy. The network call
//! itself happens outside this crate; callers hand its outcome back as a
//! [`RequestOutcome`].

use vstd::prelude::*;

use hmac::{Hmac, KeyInit, Mac};
use sha2::Sha256;

verus! {

use vstd::string::StringExecFns;
use vstd::string::StringSliceAdditionalSpecFns;
use vstd::utf8::encode_utf8;
use crate::decimal::{dec_of, digit_char, u64_to_dec};

/// Types of errors that can occur.
#[derive(Debug)]
pub enum CBAdvError {
    /// Unable to parse JSON successfully.
    BadParse(String),
    /// Non-200 status code received.
    BadStatus(String),
    /// Could not connect to the service.
    BadConnection(String),
    /// Nothing to do.
    NothingToDo(String),
    /// Unable to locate resource.
    NotFound(String),
    /// General unknown error.
    Unknown(String),
}

impl CBAdvError {
    /// The human-readable description of an error: a fixed phrase for the
    /// kind, followed by the free-text detail it carries.
    pub open spec fn message_spec(&self) -> Seq<char> {
        match self {
            CBAdvError::Unknown(value) => "unknown error occured: "@ + value@,
            CBAdvError::BadParse(value) => "could not parse: "@ + value@,
            CBAdvError::NothingToDo(value) => "nothing to do: "@ + value@,
            CBAdvError::NotFound(value) => "could not find: "@ + value@,
            CBAdvError::BadStatus(value) => "non-zero status occurred: "@ + value@,
            CBAdvError::BadConnection(value) => "could not connect: "@ + value@,
        }
    }

    /// Renders the error for display.
    pub fn message(&self) -> (r: String)
        ensures
            r@ == self.message_spec(),
    {
        match self {
            CBAdvError::Unknown(value) => {
                let mut m = String::from_str("unknown error occured: ");
                m.append(value.as_str());
                m
            },
            CBAdvError::BadParse(value) => {
                let mut m = String::from_str("could not parse: ");
                m.append(value.as_str());
                m
            },
            CBAdvError::NothingToDo(value) => {
                let mut m = String::from_str("nothing to do: ");
                m.append(value.as_str());
                m
            },
            CBAdvError::NotFound(value) => {
                let mut m = String::from_str("could not find: ");
                m.append(value.as_str());
                m
            },
            CBAdvError::BadStatus(value) => {
                let mut m = String::from_str("non-zero status occurred: ");
                m.append(value.as_str());
                m
            },
            CBAdvError::BadConnection(value) => {
                let mut m = String::from_str("could not connect: ");
                m.append(value.as_str());
                m
            },
        }
    }
}

/// The HMAC-SHA256 digest of a message under a key. Only the trusted wrapper
/// around the `hmac` crate gives this name a value.
pub uninterp spec fn hmac_sha256_of(key: Seq<u8>, msg: Seq<u8>) -> Seq<u8>;

/// The character for a value below sixteen: decimal digits then `a` to `f`.
pub open spec fn hex_digit_char(d: nat) -> char {
    if d < 10 {
        digit_char(d)
    } else if d == 10 {
        'a'
    } else if d == 11 {
        'b'
    } else if d == 12 {
        'c'
    } else if d == 13 {
        'd'
    } else if d == 14 {
        'e'
    } else {
        'f'
    }
}

/// Lowercase hexadecimal notation of a byte sequence: two digits per byte,
/// most significant digit first.
pub open spec fn hex_of(bytes: Seq<u8>) -> Seq<char>
    decreases bytes.len(),
{
    if bytes.len() == 0 {
        Seq::<char>::empty()
    } else {
        seq![
            hex_digit_char((bytes[0] / 16) as nat),
            hex_digit_char((bytes[0] % 16) as nat),
        ] + hex_of(bytes.subrange(1, bytes.len() as int))
    }
}

/// Relies on `hmac::Hmac<sha2::Sha256>` (`new_from_slice`, `update`,
/// `finalize`): the digest is thirty-two bytes and a function of the key and
/// message alone. `new_from_slice` accepts keys of any length for HMAC, so
/// the `expect` never fires.
#[verifier::external_body]
fn hmac_sha256(key: &[u8], msg: &[u8]) -> (r: Vec<u8>)
    ensures
        r@ == hmac_sha256_of(key@, msg@),
        r@.len() == 32,
{
    let mut mac = <Hmac<Sha256> as KeyInit>::new_from_slice(key)
        .expect("Failed to generate a signature.");
    mac.update(msg);
    mac.finalize().into_bytes().to_vec()
}

/// Relies on `hex::encode`: lowercase hexadecimal, two digits per byte, most
/// significant digit first.
#[verifier::external_body]
fn hex_encode(data: &Vec<u8>) -> (r: String)
    ensures
        r@ == hex_of(data@),
{
    hex::encode(data.as_slice())
}

/// Hexadecimal notation spends exactly two characters on each byte.
pub proof fn lemma_hex_of_len(bytes: Seq<u8>)
    ensures
        hex_of(bytes).len() == 2 * bytes.len(),
    decreases bytes.len(),
{
    if bytes.len() > 0 {
        lemma_hex_of_len(bytes.subrange(1, bytes.len() as int));
    }
}

/// The signature over the joined prehash string: HMAC-SHA256 keyed by the
/// UTF-8 bytes of the secret, over the UTF-8 bytes of the prehash, in
/// lowercase hexadecimal.
pub open spec fn hmac_hex(secret: Seq<char>, prehash: Seq<char>) -> Seq<char> {
    hex_of(hmac_sha256_of(encode_utf8(secret), encode_utf8(prehash)))
}

/// The REST request signature: the prehash concatenates timestamp, method,
/// resource path and body, in that order, with no delimiters.
pub open spec fn sign_spec(
    secret: Seq<char>,
    timestamp: Seq<char>,
    method: Seq<char>,
    resource: Seq<char>,
    body: Seq<char>,
) -> Seq<char> {
    hmac_hex(secret, timestamp + method + resource + body)
}

/// The elements of a sequence joined by single commas.
pub open spec fn join_commas(ids: Seq<Seq<char>>) -> Seq<char>
    decreases ids.len(),
{
    if ids.len() == 0 {
        Seq::<char>::empty()
    } else if ids.len() == 1 {
        ids[0]
    } else {
        join_commas(ids.drop_last()) + seq![','] + ids.last()
    }
}

/// The WebSocket-channel signature: the prehash concatenates timestamp,
/// channel and the comma-joined ids — there is no method or resource.
pub open spec fn ws_sign_spec(
    secret: Seq<char>,
    timestamp: Seq<char>,
    channel: Seq<char>,
    product_ids: Seq<Seq<char>>,
) -> Seq<char> {
    hmac_hex(secret, timestamp + channel + join_commas(product_ids))
}

/// Joins strings with single commas between them.
fn join_with_commas(ids: &Vec<String>) -> (r: String)
    ensures
        r@ == join_commas(ids.deep_view()),
{
    let mut s = String::new();
    let mut i: usize = 0;
    while i < ids.len()
        invariant
            i <= ids.len(),
            s@ == join_commas(ids.deep_view().take(i as int)),
        decreases ids.len() - i,
    {
        proof {
            reveal_strlit(",");
            assert(ids.deep_view().take(i + 1).drop_last() =~= ids.deep_view().take(i as int));
            assert(ids.deep_view().take(i + 1).last() == ids.deep_view()[i as int]);
            assert(ids.deep_view()[i as int] == ids@[i as int]@);
        }
        if i > 0 {
            s.append(",");
        }
        s.append(ids[i].as_str());
        proof {
            assert(s@ =~= join_commas(ids.deep_view().take(i + 1)));
        }
        i = i + 1;
    }
    proof {
        assert(ids.deep_view().take(ids@.len() as int) =~= ids.deep_view());
    }
    s
}

/// The full URL of a request: the fixed root, the resource path, and the
/// query string after a `?` when one is given.
pub open spec fn url_of(resource: Seq<char>, params: Seq<char>) -> Seq<char> {
    if params.len() == 0 {
        "https://api.coinbase.com"@ + resource
    } else {
        "https://api.coinbase.com"@ + resource + "?"@ + params
    }
}

/// Builds the target URL from the resource path and query string.
fn build_url(resource: &str, params: &str) -> (r: String)
    ensures
        r@ == url_of(resource@, params@),
{
    let mut url = String::from_str("https://api.coinbase.com");
    url.append(resource);
    if !params.is_empty() {
        url.append("?");
        url.append(params);
    }
    url
}

/// Everything a signed request carries before it is sent: the target URL and
/// the values of the authentication headers. `json_content_type` says whether
/// a JSON content-type header is declared (it is for POST, not for GET).
pub struct SignedRequest {
    /// Full target URL, query string included.
    pub url: String,
    /// Value of the key-identifier header.
    pub api_key: String,
    /// Value of the signature header.
    pub signature: String,
    /// Value of the timestamp header.
    pub timestamp: String,
    /// Whether the request declares a JSON content type.
    pub json_content_type: bool,
}

impl SignedRequest {
    /// The headers the request carries, as name–value pairs in the order
    /// they are attached: the key identifier, the signature, the timestamp,
    /// and — only when one is declared — the JSON content type.
    pub fn header_pairs(&self) -> (r: Vec<(String, String)>)
        ensures
            r@.len() == (if self.json_content_type {
                4int
            } else {
                3int
            }),
            r@[0].0@ == "CB-ACCESS-KEY"@ && r@[0].1@ == self.api_key@,
            r@[1].0@ == "CB-ACCESS-SIGN"@ && r@[1].1@ == self.signature@,
            r@[2].0@ == "CB-ACCESS-TIMESTAMP"@ && r@[2].1@ == self.timestamp@,
            self.json_content_type ==> r@[3].0@ == "Content-Type"@ && r@[3].1@
                == "application/json"@,
    {
        let mut pairs: Vec<(String, String)> = Vec::new();
        pairs.push((String::from_str("CB-ACCESS-KEY"), self.api_key.clone()));
        pairs.push((String::from_str("CB-ACCESS-SIGN"), self.signature.clone()));
        pairs.push((String::from_str("CB-ACCESS-TIMESTAMP"), self.timestamp.clone()));
        if self.json_content_type {
            pairs.push((String::from_str("Content-Type"), String::from_str("application/json")));
        }
        pairs
    }
}

/// Creates and signs HTTP requests to the API.
#[derive(Debug, Clone)]
pub struct Signer {
    /// API Key provided by the service.
    pub api_key: String,
    /// API Secret provided by the service.
    api_secret: String,
}

impl Signer {
    /// The secret as callers' contracts may speak of it; its value never
    /// leaves the signature engine.
    pub closed spec fn secret_view(&self) -> Seq<char> {
        self.api_secret@
    }

    /// The key as contracts speak of it.
    pub closed spec fn key_view(&self) -> Seq<char> {
        self.api_key@
    }

    /// Creates a new instance of Signer.
    pub fn new(api_key: String, api_secret: String) -> (r: Self)
        ensures
            r.key_view() == api_key@,
            r.secret_view() == api_secret@,
    {
        Self { api_key, api_secret }
    }

    /// Computes the REST request signature over `(timestamp, method,
    /// resource, body)`. The timestamp must be the current Unix-epoch second,
    /// sampled immediately before signing; the resource path carries no query
    /// string; the body is empty for GET.
    pub fn sign(&self, timestamp: &str, method: &str, resource: &str, body: &str) -> (r: String)
        ensures
            r@ == sign_spec(self.secret_view(), timestamp@, method@, resource@, body@),
            r@.len() == 64,
    {
        let mut prehash = timestamp.to_owned();
        prehash.append(method);
        prehash.append(resource);
        prehash.append(body);
        proof {
            assert(prehash@ =~= timestamp@ + method@ + resource@ + body@);
        }
        let digest = hmac_sha256(self.api_secret.as_str().as_bytes(), prehash.as_str().as_bytes());
        proof {
            lemma_hex_of_len(digest@);
        }
        hex_encode(&digest)
    }

    /// Creates the signature for a websocket request over `(timestamp,
    /// channel, product_ids)`.
    pub fn get_ws_signature(
        &self,
        timestamp: &str,
        channel: &str,
        product_ids: &Vec<String>,
    ) -> (r: String)
        ensures
            r@ == ws_sign_spec(self.secret_view(), timestamp@, channel@, product_ids.deep_view()),
            r@.len() == 64,
    {
        let joined = join_with_commas(product_ids);
        let mut prehash = timestamp.to_owned();
        prehash.append(channel);
        prehash.append(joined.as_str());
        proof {
            assert(prehash@ =~= timestamp@ + channel@ + join_commas(product_ids.deep_view()));
        }
        let digest = hmac_sha256(self.api_secret.as_str().as_bytes(), prehash.as_str().as_bytes());
        proof {
            lemma_hex_of_len(digest@);
        }
        hex_encode(&digest)
    }

    /// Prepares a GET request: builds the URL and the authentication header
    /// values. The signature covers the resource path but never the query
    /// string, as the exchange's scheme defines; the body signed for GET is
    /// empty. The timestamp must be the current Unix-epoch second.
    pub fn prepare_get(&self, resource: &str, params: &str, timestamp: &str) -> (r: SignedRequest)
        ensures
            r.url@ == url_of(resource@, params@),
            r.api_key@ == self.key_view(),
            r.timestamp@ == timestamp@,
            r.signature@ == sign_spec(self.secret_view(), timestamp@, "GET"@, resource@, ""@),
            r.json_content_type == false,
    {
        let url = build_url(resource, params);
        let signature = self.sign(timestamp, "GET", resource, "");
        SignedRequest {
            url,
            api_key: self.api_key.clone(),
            signature,
            timestamp: timestamp.to_owned(),
            json_content_type: false,
        }
    }

    /// Prepares a POST request. `body` must be the exact serialized text that
    /// will be transmitted: the signature covers precisely those bytes, so
    /// the caller serializes once and sends the same text unchanged.
    pub fn prepare_post(
        &self,
        resource: &str,
        params: &str,
        body: &str,
        timestamp: &str,
    ) -> (r: SignedRequest)
        ensures
            r.url@ == url_of(resource@, params@),
            r.api_key@ == self.key_view(),
            r.timestamp@ == timestamp@,
            r.signature@ == sign_spec(self.secret_view(), timestamp@, "POST"@, resource@, body@),
            r.json_content_type == true,
    {
        let url = build_url(resource, params);
        let signature = self.sign(timestamp, "POST", resource, body);
        SignedRequest {
            url,
            api_key: self.api_key.clone(),
            signature,
            timestamp: timestamp.to_owned(),
            json_content_type: true,
        }
    }
}

/// What came of issuing a request, as the caller at the network boundary
/// reports it back for classification.
pub enum RequestOutcome {
    /// The server answered. `body` holds the response text when the caller
    /// could read it, and `None` when reading it failed.
    Delivered { status: u16, body: Option<String> },
    /// The transport could not reach the server: connection refused, name
    /// resolution failure, timeout.
    ConnectFailed { detail: String },
    /// The transport call itself errored without a distinguishable cause.
    Failed,
}

/// The detail string of a non-success status error: the status code in
/// decimal, then the response text, or a placeholder when it could not be
/// read.
pub open spec fn bad_status_message(status: u16, body: Option<String>) -> Seq<char> {
    "Status Code: "@ + dec_of(status as nat) + ", "@ + match body {
        Some(text) => text@,
        None => "could not parse error message"@,
    }
}

/// Classifies the outcome of a request. Success is exactly HTTP status 200;
/// any other status becomes `BadStatus` carrying the code and the response
/// text; a transport-level connection failure becomes `BadConnection`; an
/// undistinguishable transport error becomes `Unknown` naming the method.
pub fn classify_response(method: &str, outcome: RequestOutcome) -> (r: Result<(), CBAdvError>)
    ensures
        outcome matches RequestOutcome::Delivered { status, body } ==> (if status == 200 {
            r is Ok
        } else {
            r matches Err(CBAdvError::BadStatus(m)) && m@ == bad_status_message(status, body)
        }),
        outcome matches RequestOutcome::ConnectFailed { detail } ==> (r matches Err(
            CBAdvError::BadConnection(d),
        ) && d@ == detail@),
        outcome matches RequestOutcome::Failed ==> (r matches Err(CBAdvError::Unknown(m)) && m@
            == method@ + " request to API"@),
{
    match outcome {
        RequestOutcome::Delivered { status, body } => {
            if status == 200 {
                Ok(())
            } else {
                let mut m = String::from_str("Status Code: ");
                m.append(u64_to_dec(status as u64).as_str());
                m.append(", ");
                match body {
                    Some(text) => m.append(text.as_str()),
                    None => m.append("could not parse error message"),
                }
                Err(CBAdvError::BadStatus(m))
            }
        },
        RequestOutcome::ConnectFailed { detail } => Err(CBAdvError::BadConnection(detail)),
        RequestOutcome::Failed => {
            let mut m = method.to_owned();
            m.append(" request to API");
            Err(CBAdvError::Unknown(m))
        },
    }
}

/// Signature determinism: the signature is a function of the secret,
/// timestamp, method, resource and body alone — any two results of signing
/// the same inputs are the same hex string.
pub proof fn lemma_sign_deterministic(
    secret: Seq<char>,
    timestamp: Seq<char>,
    method: Seq<char>,
    resource: Seq<char>,
    body: Seq<char>,
    r1: Seq<char>,
    r2: Seq<char>,
)
    requires
        r1 == sign_spec(secret, timestamp, method, resource, body),
        r2 == sign_spec(secret, timestamp, method, resource, body),
    ensures
        r1 == r2,
{
}

/// Query exclusion: two GET requests prepared for the same resource at the
/// same timestamp carry identical signatures whatever their query strings —
/// the query string reaches the URL but never the prehash.
pub proof fn lemma_query_excluded_from_signature(
    r1: SignedRequest,
    r2: SignedRequest,
    secret: Seq<char>,
    timestamp: Seq<char>,
    resource: Seq<char>,
    params1: Seq<char>,
    params2: Seq<char>,
)
    requires
        r1.url@ == url_of(resource, params1),
        r1.signature@ == sign_spec(secret, timestamp, "GET"@, resource, ""@),
        r2.url@ == url_of(resource, params2),
        r2.signature@ == sign_spec(secret, timestamp, "GET"@, resource, ""@),
    ensures
        r1.signature@ == r2.signature@,
{
}

} // verus!
