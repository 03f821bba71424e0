//! GitHub-side verification and request handling. The credential header is of
//! the form `sha256=<hex>`: verification rejects any credential without
//! exactly one `=`, computes the keyed hash (HMAC-SHA-256) of the raw payload
//! under the shared secret, decodes the hex suffix, and compares digest and
//! decoded bytes in constant time. A decode failure is a verification
//! failure, never a crash.

use vstd::prelude::*;

use crate::bytestr::ascii_seq;
use crate::common::{github_event_of, opt_bytes, EventType, Headers, WebhookOutcome};
use crate::dispatch::DispatchTask;
use crate::hexcode::{
    hex_decodable, hex_decode, hex_decode_spec, hex_digit_val, hex_encode_spec, is_hex_digit,
    lemma_hex_round_trip,
};

verus! {

/// ASCII `=`, the separator between scheme and hex digest in the credential.
pub const SEPARATOR: u8 = 61;

/// `i` is the position of the only `=` in `c`.
pub open spec fn is_unique_sep(c: Seq<u8>, i: int) -> bool {
    &&& 0 <= i < c.len()
    &&& c[i] == SEPARATOR
    &&& forall|j: int| 0 <= j < c.len() && #[trigger] c[j] == SEPARATOR ==> j == i
}

/// A credential is well formed iff it contains exactly one `=`.
pub open spec fn credential_well_formed(c: Seq<u8>) -> bool {
    exists|i: int| is_unique_sep(c, i)
}

/// The hex digest part of a well-formed credential: everything after the `=`.
pub open spec fn sig_hex_part(c: Seq<u8>) -> Seq<u8> {
    let i = choose|i: int| is_unique_sep(c, i);
    c.subrange(i + 1, c.len() as int)
}

/// The credential names digest `d`: it is well formed and its hex part
/// decodes to `d`.
pub open spec fn matches_digest(c: Seq<u8>, d: Seq<u8>) -> bool {
    &&& credential_well_formed(c)
    &&& hex_decodable(sig_hex_part(c))
    &&& hex_decode_spec(sig_hex_part(c)) == d
}

/// Name for the HMAC-SHA-256 digest of `data` keyed by `key`; it is a
/// function of the two arguments alone.
pub uninterp spec fn hmac_sha256_of(key: Seq<u8>, data: Seq<u8>) -> Seq<u8>;

/// The GitHub verifier accepts credential `c` for `payload` under `secret`.
pub open spec fn github_accepts(secret: Seq<u8>, c: Seq<u8>, payload: Seq<u8>) -> bool {
    matches_digest(c, hmac_sha256_of(secret, payload))
}

/// Relies on openssl: `PKey::hmac`, `Signer::new` with
/// `MessageDigest::sha256`, `update` and `sign_to_vec` together compute the
/// HMAC-SHA-256 digest of `data` keyed by `key`, a function of the two
/// arguments alone. Each step reports an OpenSSL-internal failure as an
/// error, surfaced here as `None`. `PKey::hmac` asserts that the key length
/// fits an `i32`, which the precondition rules out.
#[verifier::external_body]
fn hmac_sha256(key: &[u8], data: &[u8]) -> (r: Option<Vec<u8>>)
    requires
        key@.len() <= 0x7fff_ffff,
    ensures
        r matches Some(d) ==> d@ == hmac_sha256_of(key@, data@),
{
    let keypair = openssl::pkey::PKey::hmac(key).ok()?;
    let digest = openssl::hash::MessageDigest::sha256();
    let mut signer = openssl::sign::Signer::new(digest, &keypair).ok()?;
    signer.update(data).ok()?;
    signer.sign_to_vec().ok()
}

/// Relies on `openssl::memcmp::eq`: a constant-time comparison that returns
/// true iff the two slices hold the same bytes; it panics on unequal
/// lengths, which the precondition rules out.
#[verifier::external_body]
fn ct_eq(a: &[u8], b: &[u8]) -> (r: bool)
    requires
        a@.len() == b@.len(),
    ensures
        r == (a@ == b@),
{
    openssl::memcmp::eq(a, b)
}

/// Position of the single `=` of a credential, if there is exactly one.
fn find_unique_sep(c: &[u8]) -> (r: Option<usize>)
    ensures
        r matches Some(i) ==> is_unique_sep(c@, i as int),
        r is None ==> !credential_well_formed(c@),
{
    let n = c.len();
    let mut k: usize = 0;
    let mut found: Option<usize> = None;
    while k < n
        invariant
            n == c@.len(),
            k <= n,
            match found {
                Option::None => forall|j: int| 0 <= j < k ==> c@[j] != SEPARATOR,
                Option::Some(i) => i < k && c@[i as int] == SEPARATOR && (forall|j: int|
                    0 <= j < k && j != i ==> c@[j] != SEPARATOR),
            },
        decreases n - k,
    {
        if c[k] == SEPARATOR {
            match found {
                Some(i0) => {
                    proof {
                        assert forall|u: int| !is_unique_sep(c@, u) by {
                            if is_unique_sep(c@, u) {
                                assert(i0 as int == u);
                                assert(k as int == u);
                            }
                        }
                    }
                    return None;
                },
                None => {
                    found = Some(k);
                },
            }
        }
        k += 1;
    }
    match found {
        Some(i) => Some(i),
        None => {
            proof {
                assert forall|u: int| !is_unique_sep(c@, u) by {
                    if is_unique_sep(c@, u) {
                        assert(c@[u] != SEPARATOR);
                    }
                }
            }
            None
        },
    }
}

/// Compare a credential against an already computed digest: true iff the
/// credential is well formed and its hex part decodes to exactly that digest.
pub fn credential_matches_digest(credential: &[u8], digest: &[u8]) -> (r: bool)
    ensures
        r == matches_digest(credential@, digest@),
{
    match find_unique_sep(credential) {
        None => false,
        Some(i) => {
            proof {
                assert(credential_well_formed(credential@));
                let picked = choose|u: int| is_unique_sep(credential@, u);
                assert(is_unique_sep(credential@, picked));
                assert(picked == i as int);
            }
            let n = credential.len();
            assert(i < n);
            let suffix = &credential[i + 1..n];
            assert(suffix@ == sig_hex_part(credential@));
            match hex_decode(suffix) {
                None => false,
                Some(v) => {
                    if v.len() != digest.len() {
                        assert(v@ != digest@) by {
                            assert(v@.len() != digest@.len());
                        }
                        false
                    } else {
                        ct_eq(v.as_slice(), digest)
                    }
                },
            }
        },
    }
}

/// Verify a GitHub credential for a payload under a secret, as the provider
/// forms it: `sha256=` followed by the hex digest. The separator check comes
/// first, before any cryptographic work; a malformed credential never
/// reaches the keyed hash.
pub fn verify_signature(secret: &[u8], credential: &[u8], payload: &[u8]) -> (r: bool)
    ensures
        r ==> github_accepts(secret@, credential@, payload@),
        !credential_well_formed(credential@) ==> !r,
{
    if find_unique_sep(credential).is_none() {
        return false;
    }
    if secret.len() > 0x7fff_ffff {
        return false;
    }
    match hmac_sha256(secret, payload) {
        None => false,
        Some(d) => credential_matches_digest(credential, d.as_slice()),
    }
}

/// Extract the GitHub headers: the signature header is mandatory, a missing
/// or unrecognized event-name header degrades to `Unknown`.
pub fn github_headers(event: Option<Vec<u8>>, signature: Option<Vec<u8>>) -> (h: Option<Headers>)
    ensures
        h is Some <==> signature is Some,
        h matches Some(hh) ==> {
            &&& signature matches Some(s) && hh.signature@ == s@
            &&& hh.event_type == github_event_of(opt_bytes(event))
        },
{
    match signature {
        None => None,
        Some(sig) => {
            let event_type = match &event {
                None => EventType::Unknown,
                Some(e) => EventType::from_github(e.as_slice()),
            };
            Some(Headers { event_type, signature: sig })
        },
    }
}

/// The GitHub provider: handles requests attributed to GitHub, building
/// dispatch tasks under its script prefix.
pub struct Github {
    pub prefix: String,
}

/// What handling a GitHub-attributed request returns: a missing signature
/// header is rejected as missing headers, a credential without exactly one
/// `=` as malformed, and an accepted outcome carries a task for the raw body
/// under the provider prefix, classified by the event-name header; it exists
/// only for a credential that verifies. A verified credential is only ever
/// refused when the digest computation itself reports failure.
pub open spec fn github_post_spec(
    secret: Seq<u8>,
    prefix: Seq<char>,
    event: Option<Seq<u8>>,
    signature: Option<Seq<u8>>,
    body: Seq<u8>,
    r: WebhookOutcome,
) -> bool {
    match signature {
        Option::None => r is MissingHeaders,
        Option::Some(c) => if !credential_well_formed(c) {
            r is MalformedSignature
        } else {
            &&& (r is InvalidSignature || r is Accepted)
            &&& (r matches WebhookOutcome::Accepted(t) ==> {
                &&& github_accepts(secret, c, body)
                &&& t.prefix@ == prefix
                &&& t.event_type == github_event_of(event)
                &&& t.payload@ == body
            })
        },
    }
}

impl Github {
    /// Handle one GitHub-attributed request, given the shared secret and the
    /// raw values of the event-name and signature headers.
    pub fn webhook(
        self,
        secret: &[u8],
        event: Option<Vec<u8>>,
        signature: Option<Vec<u8>>,
        body: Vec<u8>,
    ) -> (r: WebhookOutcome)
        ensures
            github_post_spec(secret@, self.prefix@, opt_bytes(event), opt_bytes(signature), body@, r),
    {
        match github_headers(event, signature) {
            None => WebhookOutcome::MissingHeaders,
            Some(h) => {
                if find_unique_sep(h.signature.as_slice()).is_none() {
                    return WebhookOutcome::MalformedSignature;
                }
                if !verify_signature(secret, h.signature.as_slice(), body.as_slice()) {
                    return WebhookOutcome::InvalidSignature;
                }
                WebhookOutcome::Accepted(
                    DispatchTask { prefix: self.prefix, event_type: h.event_type, payload: body },
                )
            },
        }
    }
}

/// The credential a correct sender forms: `sha256=` followed by the
/// lower-case hex encoding of the keyed digest of the payload.
pub open spec fn formed_credential(secret: Seq<u8>, payload: Seq<u8>) -> Seq<u8> {
    ascii_seq("sha256="@) + hex_encode_spec(hmac_sha256_of(secret, payload))
}

/// For every payload and secret, the verifier accepts the credential a
/// correct sender forms.
pub proof fn lemma_github_accepts_formed_credential(secret: Seq<u8>, payload: Seq<u8>)
    ensures
        github_accepts(secret, formed_credential(secret, payload), payload),
{
    reveal_strlit("sha256=");
    let d = hmac_sha256_of(secret, payload);
    let c = formed_credential(secret, payload);
    let pre = ascii_seq("sha256="@);
    let enc = hex_encode_spec(d);
    lemma_hex_round_trip(d);
    assert(pre.len() == 7);
    assert(c[6] == SEPARATOR);
    assert(is_unique_sep(c, 6)) by {
        assert forall|j: int| 0 <= j < c.len() && #[trigger] c[j] == SEPARATOR implies j == 6 by {
            if j < 7 {
                assert(c[j] == pre[j]);
            } else {
                assert(c[j] == enc[j - 7]);
                assert(hex_decodable(enc));
            }
        }
    }
    assert(credential_well_formed(c));
    let picked = choose|i: int| is_unique_sep(c, i);
    assert(is_unique_sep(c, picked));
    assert(picked == 6);
    assert(sig_hex_part(c) =~= enc);
}

/// Altering any one digit of the hex part of the formed credential to a
/// digit of a different value makes the verifier reject it.
#[verifier::rlimit(60)]
pub proof fn lemma_github_rejects_altered_hex_digit(
    secret: Seq<u8>,
    payload: Seq<u8>,
    k: int,
    b: u8,
)
    requires
        7 <= k < formed_credential(secret, payload).len(),
        is_hex_digit(b),
        hex_digit_val(b) != hex_digit_val(formed_credential(secret, payload)[k]),
    ensures
        !github_accepts(secret, formed_credential(secret, payload).update(k, b), payload),
{
    reveal_strlit("sha256=");
    let d = hmac_sha256_of(secret, payload);
    let c = formed_credential(secret, payload);
    let pre = ascii_seq("sha256="@);
    let enc = hex_encode_spec(d);
    let c2 = c.update(k, b);
    lemma_hex_round_trip(d);
    assert(pre.len() == 7);
    assert(c2[6] == SEPARATOR);
    assert(is_unique_sep(c2, 6)) by {
        assert forall|j: int| 0 <= j < c2.len() && #[trigger] c2[j] == SEPARATOR implies j == 6 by {
            if j != k {
                if j < 7 {
                    assert(c2[j] == pre[j]);
                } else {
                    assert(c2[j] == enc[j - 7]);
                    assert(hex_decodable(enc));
                }
            }
        }
    }
    let picked = choose|i: int| is_unique_sep(c2, i);
    assert(is_unique_sep(c2, picked));
    assert(picked == 6);
    let e2 = sig_hex_part(c2);
    assert(e2 =~= enc.update(k - 7, b));
    assert(hex_decodable(e2)) by {
        assert(hex_decodable(enc));
        assert forall|j: int| 0 <= j < e2.len() implies is_hex_digit(#[trigger] e2[j]) by {
            if j != k - 7 {
                assert(e2[j] == enc[j]);
            }
        }
    }
    let i0 = (k - 7) / 2;
    assert(hex_decode_spec(e2)[i0] != d[i0]) by {
        assert(d[i0] == hex_decode_spec(enc)[i0]);
        assert(hex_decode_spec(enc)[i0] == (16 * hex_digit_val(enc[2 * i0]) + hex_digit_val(
            enc[2 * i0 + 1],
        )) as u8);
        assert(hex_decode_spec(e2)[i0] == (16 * hex_digit_val(e2[2 * i0]) + hex_digit_val(
            e2[2 * i0 + 1],
        )) as u8);
        assert(2 * i0 == k - 7 || 2 * i0 + 1 == k - 7);
        assert(hex_digit_val(enc[2 * i0]) < 16 && hex_digit_val(enc[2 * i0 + 1]) < 16);
        assert(hex_digit_val(e2[2 * i0]) < 16 && hex_digit_val(e2[2 * i0 + 1]) < 16);
    }
    assert(hex_decode_spec(e2) != d);
    lemma_github_rejects_other_digest(secret, payload, c2);
}

/// A well-formed credential whose hex part does not decode to the keyed
/// digest of the payload — in particular one whose decoded digest was
/// altered — is rejected.
pub proof fn lemma_github_rejects_other_digest(secret: Seq<u8>, payload: Seq<u8>, c: Seq<u8>)
    requires
        !(hex_decodable(sig_hex_part(c)) && hex_decode_spec(sig_hex_part(c)) == hmac_sha256_of(
            secret,
            payload,
        )),
    ensures
        !github_accepts(secret, c, payload),
{
}

} // verus!
