use wlctl::agent::{AuthAgent, CredentialKind, CredentialRequest, Wait, WakeSource};
use wlctl::event::Event;

#[test]
fn a_fresh_coordinator_asks_for_nothing_and_holds_nothing() {
    let agent = AuthAgent::new();
    assert!(!agent.psk_required);
    assert!(!agent.private_key_passphrase_required);
    assert!(!agent.password_required);
    assert!(!agent.username_and_password_required);
    assert!(agent.passphrases.is_empty());
    assert!(agent.credentials.is_empty());
    assert_eq!(agent.cancellations, 0);
}

#[test]
fn each_request_raises_its_flag_and_names_its_event() {
    let mut agent = AuthAgent::new();
    match agent.request_passphrase("A".to_string()) {
        Event::Auth(name) => assert_eq!(name, "A"),
        _ => panic!("wrong event"),
    }
    assert!(agent.psk_required);
    match agent.request_private_key_passphrase("B".to_string()) {
        Event::AuthReqKeyPassphrase(name) => assert_eq!(name, "B"),
        _ => panic!("wrong event"),
    }
    assert!(agent.private_key_passphrase_required);
    match agent.request_username_and_password("C".to_string()) {
        Event::AuthReqUsernameAndPassword(name) => assert_eq!(name, "C"),
        _ => panic!("wrong event"),
    }
    assert!(agent.username_and_password_required);
    match agent.request_password("D".to_string(), Some("eve".to_string())) {
        Event::AuthRequestPassword((name, user)) => {
            assert_eq!(name, "D");
            assert_eq!(user, Some("eve".to_string()));
        }
        _ => panic!("wrong event"),
    }
    assert!(agent.password_required);
}

#[test]
fn a_general_request_raises_only_the_flag_of_its_kind() {
    let mut agent = AuthAgent::new();
    let event = agent.request(CredentialRequest {
        kind: CredentialKind::Password,
        network_name: "N".to_string(),
        prefill_username: None,
    });
    assert!(matches!(event, Event::AuthRequestPassword(_)));
    assert!(agent.password_required);
    assert!(!agent.psk_required);
    assert!(!agent.private_key_passphrase_required);
    assert!(!agent.username_and_password_required);
}

#[test]
fn reset_lowers_all_flags() {
    let mut agent = AuthAgent::new();
    agent.request_passphrase("A".to_string());
    agent.request_password("A".to_string(), None);
    agent.request_private_key_passphrase("A".to_string());
    agent.request_username_and_password("A".to_string());
    agent.reset();
    assert!(!agent.psk_required);
    assert!(!agent.private_key_passphrase_required);
    assert!(!agent.password_required);
    assert!(!agent.username_and_password_required);
}

#[test]
fn a_wait_with_nothing_delivered_is_pending() {
    let mut agent = AuthAgent::new();
    assert!(matches!(agent.wait_for_passphrase(WakeSource::Value), Wait::Pending));
    assert!(matches!(agent.wait_for_passphrase(WakeSource::Cancel), Wait::Pending));
    assert!(matches!(agent.wait_for_username_password(WakeSource::Value), Wait::Pending));
}

#[test]
fn a_submitted_passphrase_ends_the_wait_once() {
    let mut agent = AuthAgent::new();
    agent.submit_passphrase("secret".to_string());
    match agent.wait_for_passphrase(WakeSource::Cancel) {
        Wait::Ready(Some(p)) => assert_eq!(p, "secret"),
        _ => panic!("wait did not resolve to the passphrase"),
    }
    assert!(matches!(agent.wait_for_passphrase(WakeSource::Value), Wait::Pending));
}

#[test]
fn passphrases_are_taken_oldest_first() {
    let mut agent = AuthAgent::new();
    agent.submit_passphrase("one".to_string());
    agent.submit_passphrase("two".to_string());
    assert!(matches!(agent.wait_for_passphrase(WakeSource::Value), Wait::Ready(Some(p)) if p == "one"));
    assert!(matches!(agent.wait_for_passphrase(WakeSource::Value), Wait::Ready(Some(p)) if p == "two"));
}

#[test]
fn cancel_resolves_a_pending_wait_to_nothing_exactly_once() {
    let mut agent = AuthAgent::new();
    agent.request_passphrase("A".to_string());
    assert!(matches!(agent.wait_for_passphrase(WakeSource::Value), Wait::Pending));
    agent.cancel();
    assert!(matches!(agent.wait_for_passphrase(WakeSource::Value), Wait::Ready(None)));
    assert!(matches!(agent.wait_for_passphrase(WakeSource::Value), Wait::Pending));
    agent.reset();
    assert!(matches!(agent.wait_for_passphrase(WakeSource::Cancel), Wait::Pending));
    assert!(!agent.psk_required);
}

#[test]
fn when_both_sources_are_ready_the_first_one_looked_at_wins() {
    let mut agent = AuthAgent::new();
    agent.submit_passphrase("p".to_string());
    agent.cancel();
    assert!(matches!(agent.wait_for_passphrase(WakeSource::Cancel), Wait::Ready(None)));
    assert_eq!(agent.passphrases.len(), 1);
    assert_eq!(agent.cancellations, 0);
    agent.cancel();
    assert!(matches!(agent.wait_for_passphrase(WakeSource::Value), Wait::Ready(Some(_))));
    assert_eq!(agent.cancellations, 1);
}

#[test]
fn credentials_resolve_a_wait_for_user_name_and_password() {
    let mut agent = AuthAgent::new();
    agent.submit_username_password("u".to_string(), "p".to_string());
    match agent.wait_for_username_password(WakeSource::Value) {
        Wait::Ready(Some((u, p))) => {
            assert_eq!(u, "u");
            assert_eq!(p, "p");
        }
        _ => panic!("wait did not resolve"),
    }
    agent.cancel();
    assert!(matches!(agent.wait_for_username_password(WakeSource::Value), Wait::Ready(None)));
    assert!(matches!(agent.wait_for_username_password(WakeSource::Value), Wait::Pending));
}

#[test]
fn cancellations_do_not_overflow() {
    let mut agent = AuthAgent::new();
    agent.cancellations = usize::MAX;
    agent.cancel();
    assert_eq!(agent.cancellations, usize::MAX);
}
