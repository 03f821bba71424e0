use webhook_receiver::cli::Provider;
use webhook_receiver::common::{webhook_request, AppConfig, EventType, WebhookOutcome, WebhookRequest};
use webhook_receiver::dispatch::{dispatch_plan, DispatchAction};

fn hmac_sha256(key: &[u8], data: &[u8]) -> Vec<u8> {
    let pkey = openssl::pkey::PKey::hmac(key).unwrap();
    let digest = openssl::hash::MessageDigest::sha256();
    let mut signer = openssl::sign::Signer::new(digest, &pkey).unwrap();
    signer.update(data).unwrap();
    signer.sign_to_vec().unwrap()
}

fn formed_credential(secret: &[u8], payload: &[u8]) -> Vec<u8> {
    let mut c = b"sha256=".to_vec();
    c.extend_from_slice(hex::encode(hmac_sha256(secret, payload)).as_bytes());
    c
}

fn github_only() -> AppConfig {
    AppConfig {
        provider: Provider::Github,
        github_secret: Some(b"gh-secret".to_vec()),
        gitlab_secret: None,
    }
}

fn both_providers() -> AppConfig {
    AppConfig {
        provider: Provider::Both,
        github_secret: Some(b"gh-secret".to_vec()),
        gitlab_secret: Some(b"gl-token".to_vec()),
    }
}

fn empty_request(body: &[u8]) -> WebhookRequest {
    WebhookRequest {
        user_agent: None,
        github_event: None,
        github_signature: None,
        gitlab_event: None,
        gitlab_token: None,
        body: body.to_vec(),
    }
}

#[test]
fn github_push_accepted_and_only_logged() {
    let body = b"{\"ref\":\"main\"}";
    let mut req = empty_request(body);
    req.github_event = Some(b"push".to_vec());
    req.github_signature = Some(formed_credential(b"gh-secret", body));
    let outcome = webhook_request(&github_only(), req);
    assert_eq!(outcome.status(), 202);
    assert_eq!(outcome.message(), "Accepted");
    match outcome {
        WebhookOutcome::Accepted(task) => {
            assert_eq!(task.event_type, EventType::Push);
            assert_eq!(task.prefix, "github");
            assert_eq!(task.payload, body.to_vec());
            // a push runs no handler process, it is only logged
            let action = dispatch_plan(&task);
            assert!(matches!(action, DispatchAction::LogNothing));
        },
        _ => panic!("expected acceptance"),
    }
}

#[test]
fn github_flipped_signature_unauthorized() {
    let body = b"{\"ref\":\"main\"}";
    let mut cred = formed_credential(b"gh-secret", body);
    let last = *cred.last().unwrap();
    *cred.last_mut().unwrap() = if last == b'0' { b'1' } else { b'0' };
    let mut req = empty_request(body);
    req.github_event = Some(b"push".to_vec());
    req.github_signature = Some(cred);
    let outcome = webhook_request(&github_only(), req);
    assert_eq!(outcome.status(), 401);
    assert_eq!(outcome.message(), "Invalid signature");
    assert!(!matches!(outcome, WebhookOutcome::Accepted(_)));
}

#[test]
fn github_missing_credential_header_rejected() {
    let body = b"{\"ref\":\"main\"}";
    let mut req = empty_request(body);
    req.github_event = Some(b"push".to_vec());
    let outcome = webhook_request(&github_only(), req);
    assert_eq!(outcome.status(), 400);
    assert_eq!(outcome.message(), "Invalid headers");
}

#[test]
fn github_malformed_credential_rejected_as_format() {
    let body = b"{}";
    let mut req = empty_request(body);
    req.github_signature = Some(b"sha256-no-separator".to_vec());
    let outcome = webhook_request(&github_only(), req);
    assert_eq!(outcome.status(), 400);
    assert_eq!(outcome.message(), "Invalid signature format");
}

#[test]
fn github_missing_event_header_still_accepted_as_unknown() {
    let body = b"{}";
    let mut req = empty_request(body);
    req.github_signature = Some(formed_credential(b"gh-secret", body));
    let outcome = webhook_request(&github_only(), req);
    assert_eq!(outcome.status(), 202);
    match outcome {
        WebhookOutcome::Accepted(task) => assert_eq!(task.event_type, EventType::Unknown),
        _ => panic!("expected acceptance"),
    }
}

#[test]
fn both_mode_github_agent_routes_to_github() {
    let body = b"{\"ref\":\"main\"}";
    let mut req = empty_request(body);
    req.user_agent = Some(b"GitHub-Hookshot/abc".to_vec());
    req.github_event = Some(b"push".to_vec());
    req.github_signature = Some(formed_credential(b"gh-secret", body));
    // a GitLab token is present too and must not matter
    req.gitlab_token = Some(b"gl-token".to_vec());
    let outcome = webhook_request(&both_providers(), req);
    assert_eq!(outcome.status(), 202);
    match outcome {
        WebhookOutcome::Accepted(task) => {
            assert_eq!(task.prefix, "github");
            assert_eq!(task.event_type, EventType::Push);
        },
        _ => panic!("expected acceptance"),
    }
}

#[test]
fn both_mode_gitlab_agent_routes_to_gitlab() {
    let body = b"{}";
    let mut req = empty_request(body);
    req.user_agent = Some(b"GitLab/17.0".to_vec());
    req.gitlab_event = Some(b"Tag Push Hook".to_vec());
    req.gitlab_token = Some(b"gl-token".to_vec());
    let outcome = webhook_request(&both_providers(), req);
    assert_eq!(outcome.status(), 202);
    match outcome {
        WebhookOutcome::Accepted(task) => {
            assert_eq!(task.prefix, "gitlab");
            assert_eq!(task.event_type, EventType::Tag);
        },
        _ => panic!("expected acceptance"),
    }
}

#[test]
fn both_mode_missing_agent_rejected_whatever_else_is_there() {
    let body = b"{}";
    let mut req = empty_request(body);
    req.github_signature = Some(formed_credential(b"gh-secret", body));
    req.gitlab_token = Some(b"gl-token".to_vec());
    let outcome = webhook_request(&both_providers(), req);
    assert_eq!(outcome.status(), 400);
    assert_eq!(outcome.message(), "Missing User-Agent header");
}

#[test]
fn both_mode_unknown_agent_rejected() {
    let mut req = empty_request(b"{}");
    req.user_agent = Some(b"curl/8.0".to_vec());
    let outcome = webhook_request(&both_providers(), req);
    assert_eq!(outcome.status(), 400);
    assert_eq!(outcome.message(), "Unknown User-Agent header");
}

#[test]
fn gitlab_only_wrong_token_unauthorized() {
    let mut req = empty_request(b"{}");
    req.gitlab_event = Some(b"Push Hook".to_vec());
    req.gitlab_token = Some(b"wrong".to_vec());
    let config = AppConfig {
        provider: Provider::Gitlab,
        github_secret: None,
        gitlab_secret: Some(b"gl-token".to_vec()),
    };
    let outcome = webhook_request(&config, req);
    assert_eq!(outcome.status(), 401);
    assert_eq!(outcome.message(), "Invalid signature");
}

#[test]
fn gitlab_only_tag_event_runs_handler() {
    let mut req = empty_request(b"{}");
    req.gitlab_event = Some(b"Tag Push Hook".to_vec());
    req.gitlab_token = Some(b"gl-token".to_vec());
    let config = AppConfig {
        provider: Provider::Gitlab,
        github_secret: None,
        gitlab_secret: Some(b"gl-token".to_vec()),
    };
    let outcome = webhook_request(&config, req);
    match outcome {
        WebhookOutcome::Accepted(task) => {
            let action = dispatch_plan(&task);
            match action {
                DispatchAction::RunScript(program) => assert_eq!(program, "./gitlab-package.sh"),
                _ => panic!("expected a handler run"),
            }
        },
        _ => panic!("expected acceptance"),
    }
}
