//! The verifiable half of the secure transport: secret-key handling with
//! explicit wipe, HMAC request signing, constant-time signature
//! verification, and the pure decisions of client construction and request
//! assembly. The network transport itself lives with the caller, which
//! executes the plans built here.
use vstd::prelude::*;
use vstd::string::StringExecFns;
use vstd::utf8::encode_utf8;
use vstd::utf8::valid_utf8;

use zeroize::Zeroize;

use crate::config::AgentConfig;
use crate::config::SecurityConfig;

verus! {

/// A secret loaded from disk, owned by the client for its lifetime. The
/// holder wipes it explicitly when it is no longer needed.
pub struct SecretKey {
    bytes: Vec<u8>,
}

impl View for SecretKey {
    type V = Seq<u8>;

    closed spec fn view(&self) -> Seq<u8> {
        self.bytes@
    }
}

/// Relies on zeroize's `Zeroize` for `Vec<u8>`: overwrites the buffer's
/// whole capacity and truncates it to length zero.
#[verifier::external_body]
fn zeroize_bytes(v: &mut Vec<u8>)
    ensures
        final(v)@.len() == 0,
{
    v.zeroize()
}

impl SecretKey {
    /// Wrap the bytes of a secret.
    pub fn new(bytes: Vec<u8>) -> (r: Self)
        ensures
            r@ == bytes@,
    {
        SecretKey { bytes }
    }

    /// The secret's bytes.
    pub fn as_bytes(&self) -> (r: &[u8])
        ensures
            r@ == self@,
    {
        self.bytes.as_slice()
    }

    /// Overwrite and empty the secret. Every exit path that releases the
    /// key calls this; afterwards nothing of the secret remains readable.
    pub fn wipe(&mut self)
        ensures
            final(self)@.len() == 0,
    {
        zeroize_bytes(&mut self.bytes);
    }
}

/// What HMAC-SHA256 returns for a key and a message.
pub uninterp spec fn hmac_sha256_of(key: Seq<u8>, msg: Seq<u8>) -> Seq<u8>;

/// Relies on hmac's `Hmac<sha2::Sha256>`: the keyed digest is a function of
/// the key and message bytes alone. For HMAC, `new_from_slice` accepts keys
/// of any length (long keys are first hashed), so it cannot fail.
#[verifier::external_body]
fn hmac_sha256(key: &[u8], msg: &[u8]) -> (r: Vec<u8>)
    ensures
        r@ == hmac_sha256_of(key@, msg@),
{
    let mut mac = <hmac::Hmac<sha2::Sha256> as hmac::Mac>::new_from_slice(key)
        .expect("HMAC accepts keys of any length");
    hmac::Mac::update(&mut mac, msg);
    let out = hmac::Mac::finalize(mac).into_bytes();
    out.to_vec()
}

/// What the standard base64 alphabet, with padding, encodes bytes to.
pub uninterp spec fn base64_of(data: Seq<u8>) -> Seq<char>;

/// Relies on base64's `STANDARD` engine: the encoding is a function of the
/// input bytes alone.
#[verifier::external_body]
fn base64_encode(data: &[u8]) -> (r: String)
    ensures
        r@ == base64_of(data@),
{
    base64::Engine::encode(&base64::engine::general_purpose::STANDARD, data)
}

/// Relies on std's `core::str::from_utf8`: it succeeds exactly on valid
/// UTF-8, and the string it hands back reads back as the input bytes.
#[verifier::external_body]
fn bytes_to_string(data: &[u8]) -> (r: Option<String>)
    ensures
        r is Some <==> valid_utf8(data@),
        r matches Some(s) ==> encode_utf8(s@) == data@,
{
    match core::str::from_utf8(data) {
        Ok(s) => Some(s.to_owned()),
        Err(_) => None,
    }
}

/// Compare two byte strings in constant time: every byte is consulted, the
/// differences are folded together with exclusive-or, and only the folded
/// result decides, so the time taken does not depend on where the first
/// mismatch lies.
pub fn constant_time_eq(a: &[u8], b: &[u8]) -> (r: bool)
    ensures
        r == (a@ == b@),
{
    if a.len() != b.len() {
        return false;
    }
    let n = a.len();
    let mut acc: u8 = 0;
    let mut i: usize = 0;
    while i < n
        invariant
            0 <= i <= n,
            n == a@.len(),
            n == b@.len(),
            (acc == 0) <==> (forall|j: int| 0 <= j < i ==> a@[j] == b@[j]),
        decreases n - i,
    {
        let x = a[i];
        let y = b[i];
        proof {
            assert(((x ^ y) == 0) == (x == y)) by (bit_vector);
            assert(((acc | (x ^ y)) == 0) == (acc == 0 && (x ^ y) == 0)) by (bit_vector);
        }
        acc = acc | (x ^ y);
        i = i + 1;
    }
    if acc == 0 {
        proof {
            assert(a@ =~= b@);
        }
        true
    } else {
        proof {
            let j = choose|j: int| 0 <= j < n && a@[j] != b@[j];
            assert(a@[j] != b@[j]);
        }
        false
    }
}

/// The comparison that `constant_time_eq` decides, spelled out: two byte
/// strings are equal exactly when their lengths agree and every byte
/// agrees; one differing byte, or differing lengths, makes them unequal.
pub proof fn lemma_byte_equality(a: Seq<u8>, b: Seq<u8>)
    ensures
        (a == b) <==> (a.len() == b.len() && forall|i: int| 0 <= i < a.len() ==> a[i] == b[i]),
{
    if a.len() == b.len() && (forall|i: int| 0 <= i < a.len() ==> a[i] == b[i]) {
        assert(a =~= b);
    }
}

/// Why a request plan could not be assembled.
#[derive(Clone, Copy, Debug, PartialEq, Eq, Structural)]
pub enum HttpClientError {
    /// The loaded bearer key is not valid UTF-8 and cannot stand in a
    /// header.
    ApiKeyNotUtf8,
}

/// Which TLS features the transport must be built with. The mutual-TLS
/// identity is used only when both its files are configured; with either
/// missing, mutual TLS silently disables.
#[derive(Clone, Copy, Debug, PartialEq, Eq, Structural)]
pub struct TlsPlan {
    pub use_client_identity: bool,
    pub use_custom_ca: bool,
    pub accept_invalid_certs: bool,
}

/// Decide the transport's TLS features from the configuration.
pub fn tls_plan(security: &SecurityConfig) -> (r: TlsPlan)
    ensures
        r.use_client_identity == (security.use_mtls && security.cert_file is Some
            && security.key_file is Some),
        r.use_custom_ca == (security.ca_file is Some),
        r.accept_invalid_certs == !security.verify_server_cert,
{
    TlsPlan {
        use_client_identity: security.use_mtls && security.cert_file.is_some()
            && security.key_file.is_some(),
        use_custom_ca: security.ca_file.is_some(),
        accept_invalid_certs: !security.verify_server_cert,
    }
}

/// A POST request, fully assembled but not yet sent: the url, the optional
/// bearer token, the optional body signature, and the exact body bytes that
/// the signature covers.
pub struct PostPlan {
    pub url: String,
    pub bearer: Option<String>,
    pub signature: Option<String>,
    pub body: String,
}

/// A GET request, fully assembled but not yet sent.
pub struct GetPlan {
    pub url: String,
    pub bearer: Option<String>,
}

/// The client's authenticated-request state: where requests go, and which
/// secrets sign and authenticate them. The caller owns the socket-level
/// transport and executes the plans assembled here.
pub struct SecureHttpClient {
    pub base_url: String,
    pub timeout_seconds: u64,
    pub verify_server_cert: bool,
    pub api_key: Option<SecretKey>,
    pub hmac_key: Option<SecretKey>,
}

/// The views of an optional secret.
pub open spec fn opt_key_view(o: Option<SecretKey>) -> Option<Seq<u8>> {
    match o {
        Some(k) => Some(k@),
        None => None,
    }
}

impl SecureHttpClient {
    /// Build the client state from the configuration and the secrets that
    /// the caller read from the configured files; an absent file is an
    /// absent secret, not an error.
    pub fn new(config: &AgentConfig, api_key: Option<Vec<u8>>, hmac_key: Option<Vec<u8>>) -> (r:
        Self)
        ensures
            r.base_url@ == config.backend.url@,
            r.timeout_seconds == config.backend.timeout_seconds,
            r.verify_server_cert == config.security.verify_server_cert,
            match (api_key, r.api_key) {
                (Some(b), Some(k)) => k@ == b@,
                (None, None) => true,
                _ => false,
            },
            match (hmac_key, r.hmac_key) {
                (Some(b), Some(k)) => k@ == b@,
                (None, None) => true,
                _ => false,
            },
    {
        SecureHttpClient {
            base_url: config.backend.url.clone(),
            timeout_seconds: config.backend.timeout_seconds,
            verify_server_cert: config.security.verify_server_cert,
            api_key: match api_key {
                Some(b) => Some(SecretKey::new(b)),
                None => None,
            },
            hmac_key: match hmac_key {
                Some(b) => Some(SecretKey::new(b)),
                None => None,
            },
        }
    }

    /// Sign a payload: base64 of the HMAC-SHA256 of its UTF-8 bytes.
    pub fn create_hmac_signature(&self, payload: &str, key: &SecretKey) -> (r: String)
        ensures
            r@ == base64_of(hmac_sha256_of(key@, encode_utf8(payload@))),
    {
        let digest = hmac_sha256(key.as_bytes(), payload.as_bytes());
        base64_encode(digest.as_slice())
    }

    /// Check a signature against a payload, in constant time. True exactly
    /// when the presented signature is the payload's correct signature.
    pub fn verify_hmac_signature(&self, payload: &str, signature: &str, key: &SecretKey) -> (r:
        bool)
        ensures
            r == (signature@ == base64_of(hmac_sha256_of(key@, encode_utf8(payload@)))),
    {
        let expected = self.create_hmac_signature(payload, key);
        let r = constant_time_eq(signature.as_bytes(), expected.as_str().as_bytes());
        proof {
            // Equal byte encodings mean equal character strings: UTF-8
            // decoding undoes the encoding on both sides.
            if encode_utf8(signature@) == encode_utf8(expected@) {
                vstd::utf8::encode_utf8_decode_utf8(signature@);
                vstd::utf8::encode_utf8_decode_utf8(expected@);
            }
        }
        r
    }

    /// Assemble a POST: the url, the bearer header when a key is loaded,
    /// and the body signature when an HMAC key is loaded, over exactly the
    /// body bytes handed back in the plan.
    pub fn post_plan(&self, endpoint: &str, body: String) -> (r: Result<PostPlan, HttpClientError>)
        ensures
            match r {
                Ok(p) => {
                    &&& p.url@ == self.base_url@ + endpoint@
                    &&& p.body@ == body@
                    &&& match (opt_key_view(self.api_key), p.bearer) {
                        (Some(k), Some(s)) => valid_utf8(k) && encode_utf8(s@) == k,
                        (None, None) => true,
                        _ => false,
                    }
                    &&& match (opt_key_view(self.hmac_key), p.signature) {
                        (Some(k), Some(sig)) => sig@ == base64_of(
                            hmac_sha256_of(k, encode_utf8(body@)),
                        ),
                        (None, None) => true,
                        _ => false,
                    }
                },
                Err(e) => e == HttpClientError::ApiKeyNotUtf8 && (opt_key_view(self.api_key)
                    matches Some(k) && !valid_utf8(k)),
            },
    {
        let bearer = match &self.api_key {
            Some(key) => match bytes_to_string(key.as_bytes()) {
                Some(s) => Some(s),
                None => {
                    return Err(HttpClientError::ApiKeyNotUtf8);
                },
            },
            None => None,
        };
        let signature = match &self.hmac_key {
            Some(key) => Some(self.create_hmac_signature(body.as_str(), key)),
            None => None,
        };
        let url = self.base_url.clone().concat(endpoint);
        Ok(PostPlan { url, bearer, signature, body })
    }

    /// Assemble a GET: the url and the bearer header when a key is loaded.
    pub fn get_plan(&self, endpoint: &str) -> (r: Result<GetPlan, HttpClientError>)
        ensures
            match r {
                Ok(p) => {
                    &&& p.url@ == self.base_url@ + endpoint@
                    &&& match (opt_key_view(self.api_key), p.bearer) {
                        (Some(k), Some(s)) => valid_utf8(k) && encode_utf8(s@) == k,
                        (None, None) => true,
                        _ => false,
                    }
                },
                Err(e) => e == HttpClientError::ApiKeyNotUtf8 && (opt_key_view(self.api_key)
                    matches Some(k) && !valid_utf8(k)),
            },
    {
        let bearer = match &self.api_key {
            Some(key) => match bytes_to_string(key.as_bytes()) {
                Some(s) => Some(s),
                None => {
                    return Err(HttpClientError::ApiKeyNotUtf8);
                },
            },
            None => None,
        };
        let url = self.base_url.clone().concat(endpoint);
        Ok(GetPlan { url, bearer })
    }
}

} // verus!
