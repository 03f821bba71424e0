//! Shared data model: event kinds, the normalized header pair, and the
//! classification of raw event-name header values.
//!
//! Classification is total and deterministic: every byte string maps to
//! exactly one kind, unrecognized ones to `Unknown`, never to an error.

use vstd::prelude::*;

use crate::bytestr::{ascii_seq, bytes_eq, contains_bytes, contains_seq, str_to_bytes};
use crate::cli::Provider;
use crate::dispatch::DispatchTask;
use crate::github::{github_post_spec, Github};
use crate::gitlab::{gitlab_post_spec, Gitlab};
use vstd::pervasive::unreached;
use vstd::string::StringExecFns;

verus! {

/// The semantic category of a webhook notification, a closed set.
#[derive(Clone, Copy, Debug, PartialEq, Eq, Structural)]
pub enum EventType {
    Package,
    Ping,
    Push,
    Tag,
    Unknown,
}

/// The view of an optional byte buffer, used to state contracts over
/// optional header values.
pub open spec fn opt_bytes(o: Option<Vec<u8>>) -> Option<Seq<u8>> {
    match o {
        Option::None => Option::None,
        Option::Some(v) => Option::Some(v@),
    }
}

/// GitHub names events with fixed lower-case tokens, so its kind is a
/// case-sensitive exact match, `Unknown` for anything else.
pub open spec fn github_event_kind(e: Seq<u8>) -> EventType {
    if e == ascii_seq("package"@) {
        EventType::Package
    } else if e == ascii_seq("push"@) {
        EventType::Push
    } else if e == ascii_seq("ping"@) {
        EventType::Ping
    } else if e == ascii_seq("tag"@) {
        EventType::Tag
    } else {
        EventType::Unknown
    }
}

/// GitLab's event-name header is a free-form description, so its kind comes
/// from substring search over an ordered candidate list, `"Tag"` strictly
/// before `"Push"`, `Unknown` for anything else.
pub open spec fn gitlab_event_kind(e: Seq<u8>) -> EventType {
    if contains_seq(e, ascii_seq("Tag"@)) {
        EventType::Tag
    } else if contains_seq(e, ascii_seq("Push"@)) {
        EventType::Push
    } else {
        EventType::Unknown
    }
}

/// Kind of an optional GitHub event-name header: an absent header degrades to
/// `Unknown` rather than failing.
pub open spec fn github_event_of(e: Option<Seq<u8>>) -> EventType {
    match e {
        Option::None => EventType::Unknown,
        Option::Some(s) => github_event_kind(s),
    }
}

/// Kind of an optional GitLab event-name header.
pub open spec fn gitlab_event_of(e: Option<Seq<u8>>) -> EventType {
    match e {
        Option::None => EventType::Unknown,
        Option::Some(s) => gitlab_event_kind(s),
    }
}

impl EventType {
    /// Classify a GitHub event-name header value.
    pub fn from_github(e: &[u8]) -> (k: EventType)
        ensures
            k == github_event_kind(e@),
    {
        proof {
            reveal_strlit("package");
            reveal_strlit("push");
            reveal_strlit("ping");
            reveal_strlit("tag");
        }
        if bytes_eq(e, str_to_bytes("package")) {
            EventType::Package
        } else if bytes_eq(e, str_to_bytes("push")) {
            EventType::Push
        } else if bytes_eq(e, str_to_bytes("ping")) {
            EventType::Ping
        } else if bytes_eq(e, str_to_bytes("tag")) {
            EventType::Tag
        } else {
            EventType::Unknown
        }
    }

    /// Classify a GitLab event-name header value.
    pub fn from_gitlab(e: &[u8]) -> (k: EventType)
        ensures
            k == gitlab_event_kind(e@),
    {
        proof {
            reveal_strlit("Tag");
            reveal_strlit("Push");
        }
        if contains_bytes(e, str_to_bytes("Tag")) {
            EventType::Tag
        } else if contains_bytes(e, str_to_bytes("Push")) {
            EventType::Push
        } else {
            EventType::Unknown
        }
    }
}

/// The provider-specific headers of an inbound request, normalized: the
/// classified event kind and the raw credential header bytes (the signature
/// for GitHub, the shared token for GitLab).
pub struct Headers {
    pub event_type: EventType,
    pub signature: Vec<u8>,
}

/// How the endpoint answers one inbound request: either the request was
/// authenticated and a dispatch task made for it, or it was rejected at one
/// of the validation steps.
pub enum WebhookOutcome {
    Accepted(DispatchTask),
    MissingHeaders,
    MalformedSignature,
    InvalidSignature,
    UnknownUserAgent,
    MissingUserAgent,
}

impl WebhookOutcome {
    /// The HTTP status of this outcome: 202 after successful verification,
    /// 400 for missing or malformed headers, 401 for a failed credential.
    pub fn status(&self) -> (s: u16)
        ensures
            match self {
                WebhookOutcome::Accepted(_) => s == 202,
                WebhookOutcome::MissingHeaders => s == 400,
                WebhookOutcome::MalformedSignature => s == 400,
                WebhookOutcome::InvalidSignature => s == 401,
                WebhookOutcome::UnknownUserAgent => s == 400,
                WebhookOutcome::MissingUserAgent => s == 400,
            },
    {
        match self {
            WebhookOutcome::Accepted(_) => 202,
            WebhookOutcome::MissingHeaders => 400,
            WebhookOutcome::MalformedSignature => 400,
            WebhookOutcome::InvalidSignature => 401,
            WebhookOutcome::UnknownUserAgent => 400,
            WebhookOutcome::MissingUserAgent => 400,
        }
    }

    /// The fixed response body of this outcome.
    pub fn message(&self) -> (m: &'static str)
        ensures
            match self {
                WebhookOutcome::Accepted(_) => m@ == "Accepted"@,
                WebhookOutcome::MissingHeaders => m@ == "Invalid headers"@,
                WebhookOutcome::MalformedSignature => m@ == "Invalid signature format"@,
                WebhookOutcome::InvalidSignature => m@ == "Invalid signature"@,
                WebhookOutcome::UnknownUserAgent => m@ == "Unknown User-Agent header"@,
                WebhookOutcome::MissingUserAgent => m@ == "Missing User-Agent header"@,
            },
    {
        match self {
            WebhookOutcome::Accepted(_) => "Accepted",
            WebhookOutcome::MissingHeaders => "Invalid headers",
            WebhookOutcome::MalformedSignature => "Invalid signature format",
            WebhookOutcome::InvalidSignature => "Invalid signature",
            WebhookOutcome::UnknownUserAgent => "Unknown User-Agent header",
            WebhookOutcome::MissingUserAgent => "Missing User-Agent header",
        }
    }
}

/// Classification never distinguishes order of the two GitLab candidates the
/// other way round: an event name containing both `"Tag"` and `"Push"` is a
/// `Tag` event.
pub proof fn lemma_gitlab_tag_priority(e: Seq<u8>)
    requires
        contains_seq(e, ascii_seq("Tag"@)),
        contains_seq(e, ascii_seq("Push"@)),
    ensures
        gitlab_event_kind(e) == EventType::Tag,
{
}

/// The raw material of one inbound request: the client-identity header, the
/// provider-specific event-name and credential headers, and the raw body.
pub struct WebhookRequest {
    pub user_agent: Option<Vec<u8>>,
    pub github_event: Option<Vec<u8>>,
    pub github_signature: Option<Vec<u8>>,
    pub gitlab_event: Option<Vec<u8>>,
    pub gitlab_token: Option<Vec<u8>>,
    pub body: Vec<u8>,
}

/// The process-wide configuration, fixed at startup: the provider mode and
/// the per-provider shared secrets.
pub struct AppConfig {
    pub provider: Provider,
    pub github_secret: Option<Vec<u8>>,
    pub gitlab_secret: Option<Vec<u8>>,
}

impl AppConfig {
    /// A configuration is well formed when each enabled provider has its
    /// secret; a missing one is a fatal startup condition, never a
    /// per-request concern.
    pub open spec fn wf(&self) -> bool {
        &&& (self.provider == Provider::Github || self.provider == Provider::Both)
            ==> self.github_secret is Some
        &&& (self.provider == Provider::Gitlab || self.provider == Provider::Both)
            ==> self.gitlab_secret is Some
    }
}

/// What the endpoint returns for one request under a configuration. In the
/// fixed modes the request goes to that provider's rules; in `Both` mode the
/// client-identity header decides, GitLab's name checked before GitHub's,
/// an unrecognized value rejected as unknown and an absent header as missing.
pub open spec fn webhook_post_spec(config: AppConfig, req: WebhookRequest, r: WebhookOutcome) -> bool {
    match config.provider {
        Provider::Github => github_post_spec(
            config.github_secret->0@,
            "github"@,
            opt_bytes(req.github_event),
            opt_bytes(req.github_signature),
            req.body@,
            r,
        ),
        Provider::Gitlab => gitlab_post_spec(
            config.gitlab_secret->0@,
            "gitlab"@,
            opt_bytes(req.gitlab_event),
            opt_bytes(req.gitlab_token),
            req.body@,
            r,
        ),
        Provider::Both => match req.user_agent {
            Option::None => r is MissingUserAgent,
            Option::Some(ua) => if contains_seq(ua@, ascii_seq("GitLab"@)) {
                gitlab_post_spec(
                    config.gitlab_secret->0@,
                    "gitlab"@,
                    opt_bytes(req.gitlab_event),
                    opt_bytes(req.gitlab_token),
                    req.body@,
                    r,
                )
            } else if contains_seq(ua@, ascii_seq("GitHub"@)) {
                github_post_spec(
                    config.github_secret->0@,
                    "github"@,
                    opt_bytes(req.github_event),
                    opt_bytes(req.github_signature),
                    req.body@,
                    r,
                )
            } else {
                r is UnknownUserAgent
            },
        },
    }
}

/// The single inbound entry point: route the request by the configured
/// provider mode, extract and classify its headers, verify its credential,
/// and return the outcome, with a dispatch task exactly on acceptance.
pub fn webhook_request(config: &AppConfig, req: WebhookRequest) -> (r: WebhookOutcome)
    requires
        config.wf(),
    ensures
        webhook_post_spec(*config, req, r),
{
    let WebhookRequest { user_agent, github_event, github_signature, gitlab_event, gitlab_token, body } =
        req;
    match config.provider {
        Provider::Github => {
            let github = Github { prefix: String::from_str("github") };
            let secret = match &config.github_secret {
                Some(s) => s,
                None => unreached(),
            };
            github.webhook(secret.as_slice(), github_event, github_signature, body)
        },
        Provider::Gitlab => {
            let gitlab = Gitlab { prefix: String::from_str("gitlab") };
            let secret = match &config.gitlab_secret {
                Some(s) => s,
                None => unreached(),
            };
            gitlab.webhook(secret.as_slice(), gitlab_event, gitlab_token, body)
        },
        Provider::Both => match user_agent {
            None => WebhookOutcome::MissingUserAgent,
            Some(ua) => {
                proof {
                    reveal_strlit("GitLab");
                    reveal_strlit("GitHub");
                }
                if contains_bytes(ua.as_slice(), str_to_bytes("GitLab")) {
                    let gitlab = Gitlab { prefix: String::from_str("gitlab") };
                    let secret = match &config.gitlab_secret {
                        Some(s) => s,
                        None => unreached(),
                    };
                    gitlab.webhook(secret.as_slice(), gitlab_event, gitlab_token, body)
                } else if contains_bytes(ua.as_slice(), str_to_bytes("GitHub")) {
                    let github = Github { prefix: String::from_str("github") };
                    let secret = match &config.github_secret {
                        Some(s) => s,
                        None => unreached(),
                    };
                    github.webhook(secret.as_slice(), github_event, github_signature, body)
                } else {
                    WebhookOutcome::UnknownUserAgent
                }
            },
        },
    }
}

/// In `Both` mode the client-identity header alone routes the request: one
/// naming GitHub and not GitLab is handled under the GitHub rules whatever
/// other headers the request carries, and a request without the header is
/// rejected as missing it regardless of everything else.
pub proof fn lemma_both_mode_routing(config: AppConfig, req: WebhookRequest, r: WebhookOutcome)
    requires
        config.provider == Provider::Both,
        webhook_post_spec(config, req, r),
    ensures
        req.user_agent is None ==> r is MissingUserAgent,
        (req.user_agent matches Some(ua) && contains_seq(ua@, ascii_seq("GitHub"@))
            && !contains_seq(ua@, ascii_seq("GitLab"@))) ==> github_post_spec(
            config.github_secret->0@,
            "github"@,
            opt_bytes(req.github_event),
            opt_bytes(req.github_signature),
            req.body@,
            r,
        ),
{
}

} // verus!
