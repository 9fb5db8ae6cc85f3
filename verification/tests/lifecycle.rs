use join_gate::config::{GroupSettings, GroupsConfig};
use join_gate::errors::{GateError, ProviderRejection};
use join_gate::join_check::{complete_verification, on_deadline, on_join, on_verified,
    prepare_join, verify_path, ExpiryDecision, JoinDecision};
use join_gate::provider::ProviderVerdict;
use join_gate::registry::{JoinRequestKey, Registry};

fn config_allowing_all() -> GroupsConfig {
    GroupsConfig::new(Vec::new(), GroupSettings::default(), Vec::new())
}

fn five_second_config(group: i64) -> GroupsConfig {
    let mut settings = GroupSettings::default();
    settings.ban_after_secs = 5;
    GroupsConfig::new(Vec::new(), GroupSettings::default(), vec![(group, settings)])
}

#[test]
fn happy_path_verifies_once_then_reports_already_resolved() {
    let mut reg = Registry::new();
    let config = config_allowing_all();
    let outcome = on_join(&mut reg, &config, -42, 1001, Some(555), 0).expect("join must register");
    let k = outcome.key;
    assert_eq!(k, JoinRequestKey { group: -42, subject: 1001 });

    let done = complete_verification(&mut reg, k, ProviderVerdict::Accepted)
        .expect("an accepted proof must resolve the request");
    assert_eq!(done.subject, 1001);
    assert_eq!(done.prompt_ref, Some(555));

    let again = on_verified(&mut reg, k);
    assert_eq!(again, Err(GateError::NotFound));

    let timer = on_deadline(&mut reg, k);
    assert_eq!(timer, ExpiryDecision::AlreadyResolved);
}

#[test]
fn timeout_path_expires_then_verification_reports_already_resolved() {
    let mut reg = Registry::new();
    let config = five_second_config(-7);
    let outcome = on_join(&mut reg, &config, -7, 88, Some(91), 1000).expect("join must register");
    assert_eq!(outcome.deadline_secs, 5);
    let k = outcome.key;

    let fired = on_deadline(&mut reg, k);
    assert_eq!(fired, ExpiryDecision::Expired { subject: 88, prompt_ref: Some(91) });

    let late = on_verified(&mut reg, k);
    assert_eq!(late, Err(GateError::NotFound));

    let second_timer = on_deadline(&mut reg, k);
    assert_eq!(second_timer, ExpiryDecision::AlreadyResolved);
}

#[test]
fn rejected_proof_leaves_the_request_pending() {
    let mut reg = Registry::new();
    let config = config_allowing_all();
    let outcome = on_join(&mut reg, &config, 3, 4, None, 0).expect("join must register");
    let k = outcome.key;

    let rejected = complete_verification(
        &mut reg,
        k,
        ProviderVerdict::Rejected(ProviderRejection::AlreadyUsed),
    );
    assert_eq!(
        rejected,
        Err(GateError::ProviderRejected(ProviderRejection::AlreadyUsed))
    );

    let retry = complete_verification(&mut reg, k, ProviderVerdict::Accepted)
        .expect("a later legitimate proof must still succeed");
    assert_eq!(retry.subject, 4);
}

#[test]
fn duplicate_join_is_refused_and_changes_nothing() {
    let mut reg = Registry::new();
    let config = config_allowing_all();
    on_join(&mut reg, &config, 1, 2, Some(3), 0).expect("first join must register");
    let second = on_join(&mut reg, &config, 1, 2, Some(99), 50);
    assert_eq!(second, Err(GateError::DuplicateKey));
    let kept = reg.peek(JoinRequestKey { group: 1, subject: 2 }).unwrap();
    assert_eq!(kept.prompt_ref, Some(3));
    assert_eq!(kept.created_at, 0);
}

#[test]
fn expired_request_makes_exactly_one_expiry_decision() {
    let mut reg = Registry::new();
    let config = config_allowing_all();
    let k = on_join(&mut reg, &config, 10, 11, None, 0).unwrap().key;
    let mut expiries: usize = 0;
    for _ in 0..4 {
        if matches!(on_deadline(&mut reg, k), ExpiryDecision::Expired { .. }) {
            expiries += 1;
        }
    }
    assert_eq!(expiries, 1);
}

#[test]
fn prepare_join_refuses_a_group_off_the_allow_list() {
    let config = GroupsConfig::new(vec![-1, -2], GroupSettings::default(), Vec::new());
    let decision = prepare_join(&config, -3, 5, false, "@sam", "Club");
    match decision {
        JoinDecision::Refuse { notice } => {
            assert_eq!(notice, "❌ You can't use this bot on this group. Bye!");
        }
        other => panic!("expected a refusal, got {:?}", other),
    }
}

#[test]
fn prepare_join_ignores_bots() {
    let config = config_allowing_all();
    let decision = prepare_join(&config, -1, 5, true, "@bot", "Club");
    assert_eq!(decision, JoinDecision::Ignore);
}

#[test]
fn prepare_join_prompts_with_welcome_and_link() {
    let config = five_second_config(-1);
    let decision = prepare_join(&config, -1, 5, false, "@sam", "A <cool> Club");
    match decision {
        JoinDecision::Prompt { welcome, verify_path, deadline_secs } => {
            assert_eq!(
                welcome,
                "👋 gm @sam! Welcome to A &lt;cool&gt; Club.\nTo access the group, please verify your account with World ID."
            );
            assert_eq!(verify_path, "verify/-1/5");
            assert_eq!(deadline_secs, 5);
        }
        other => panic!("expected a prompt, got {:?}", other),
    }
}

#[test]
fn prepare_join_prefers_the_configured_chat_name() {
    let mut settings = GroupSettings::default();
    settings.chat_name = Some("The Real Name".to_string());
    let config = GroupsConfig::new(Vec::new(), GroupSettings::default(), vec![(9, settings)]);
    let decision = prepare_join(&config, 9, 5, false, "@sam", "Transport Name");
    match decision {
        JoinDecision::Prompt { welcome, .. } => {
            assert!(welcome.contains("The Real Name"));
            assert!(!welcome.contains("Transport Name"));
        }
        other => panic!("expected a prompt, got {:?}", other),
    }
}

#[test]
fn verify_path_renders_both_identifiers() {
    assert_eq!(verify_path(-100987, 4242), "verify/-100987/4242");
    assert_eq!(verify_path(0, 0), "verify/0/0");
}
