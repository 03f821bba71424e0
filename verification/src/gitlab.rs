//! GitLab-side verification and request handling. The provider transmits the
//! literal shared token, so verification is plain byte equality against the
//! configured secret; no hashing is involved.

use vstd::prelude::*;

use crate::bytestr::bytes_eq;
use crate::common::{gitlab_event_of, opt_bytes, EventType, Headers, WebhookOutcome};
use crate::dispatch::DispatchTask;

verus! {

/// The GitLab provider: handles requests attributed to GitLab, building
/// dispatch tasks under its script prefix.
pub struct Gitlab {
    pub prefix: String,
}

/// Extract the GitLab headers: the token header is mandatory, a missing
/// event-name header degrades to `Unknown`.
pub fn gitlab_headers(event: Option<Vec<u8>>, token: Option<Vec<u8>>) -> (h: Option<Headers>)
    ensures
        h is Some <==> token is Some,
        h matches Some(hh) ==> {
            &&& token matches Some(t) && hh.signature@ == t@
            &&& hh.event_type == gitlab_event_of(opt_bytes(event))
        },
{
    match token {
        None => None,
        Some(tok) => {
            let event_type = match &event {
                None => EventType::Unknown,
                Some(e) => EventType::from_gitlab(e.as_slice()),
            };
            Some(Headers { event_type, signature: tok })
        },
    }
}

/// What handling a GitLab-attributed request returns: a missing token header
/// is rejected as missing headers; otherwise the request is accepted exactly
/// when the transmitted token equals the configured secret byte for byte,
/// and the task carries the raw body under the provider prefix, classified
/// by the event-name header.
pub open spec fn gitlab_post_spec(
    secret: Seq<u8>,
    prefix: Seq<char>,
    event: Option<Seq<u8>>,
    token: Option<Seq<u8>>,
    body: Seq<u8>,
    r: WebhookOutcome,
) -> bool {
    match token {
        Option::None => r is MissingHeaders,
        Option::Some(t) => if t == secret {
            r matches WebhookOutcome::Accepted(task) && task.prefix@ == prefix
                && task.event_type == gitlab_event_of(event) && task.payload@ == body
        } else {
            r is InvalidSignature
        },
    }
}

impl Gitlab {
    /// The token verifier: accepts iff the transmitted credential is
    /// byte-equal to the configured secret.
    pub fn verify_signature(secret: &[u8], credential: &[u8]) -> (r: bool)
        ensures
            r == (credential@ == secret@),
    {
        bytes_eq(credential, secret)
    }

    /// Handle one GitLab-attributed request, given the shared secret and the
    /// raw values of the event-name and token headers.
    pub fn webhook(
        self,
        secret: &[u8],
        event: Option<Vec<u8>>,
        token: Option<Vec<u8>>,
        body: Vec<u8>,
    ) -> (r: WebhookOutcome)
        ensures
            gitlab_post_spec(secret@, self.prefix@, opt_bytes(event), opt_bytes(token), body@, r),
    {
        match gitlab_headers(event, token) {
            None => WebhookOutcome::MissingHeaders,
            Some(h) => {
                if !Gitlab::verify_signature(secret, h.signature.as_slice()) {
                    return WebhookOutcome::InvalidSignature;
                }
                WebhookOutcome::Accepted(
                    DispatchTask { prefix: self.prefix, event_type: h.event_type, payload: body },
                )
            },
        }
    }
}

} // verus!
