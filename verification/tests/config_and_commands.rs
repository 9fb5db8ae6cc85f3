use join_gate::commands::{command_reply, unauthorized_notice, Command};
use join_gate::config::{GroupSettings, GroupsConfig, MessagesText};
use join_gate::errors::ProviderRejection;
use join_gate::provider::{classify_provider_response, provider_call_params, ProviderVerdict};
use join_gate::registry::JoinRequestKey;

#[test]
fn default_messages_hold_the_stock_texts() {
    let messages = MessagesText::default();
    assert_eq!(
        messages.new_user_template,
        "👋 gm {TAGUSER}! Welcome to {CHATNAME}.\nTo access the group, please verify your account with World ID."
    );
    assert_eq!(messages.unauthorized_group, "❌ You can't use this bot on this group. Bye!");
    assert_eq!(
        messages.successfully_verified,
        "✅ Verified with World ID. Welcome to the group!"
    );
    assert_eq!(messages.user_doesnt_match_error, "❌ This message isn't for you");
}

#[test]
fn default_settings_use_a_five_minute_deadline() {
    let settings = GroupSettings::default();
    assert!(settings.chat_name.is_none());
    assert!(settings.admin_ids.is_none());
    assert_eq!(settings.ban_after_secs, 300);
    assert_eq!(settings.messages, MessagesText::default());
}

#[test]
fn welcome_message_fills_both_placeholders_and_escapes_the_name() {
    let messages = MessagesText::default();
    let msg = messages.create_welcome_msg("@ada", "R&D <Lab>");
    assert_eq!(
        msg,
        "👋 gm @ada! Welcome to R&amp;D &lt;Lab&gt;.\nTo access the group, please verify your account with World ID."
    );
}

#[test]
fn empty_allow_list_allows_every_group() {
    let config = GroupsConfig::new(Vec::new(), GroupSettings::default(), Vec::new());
    assert!(config.is_group_allowed(1));
    assert!(config.is_group_allowed(-999));
}

#[test]
fn non_empty_allow_list_allows_exactly_its_groups() {
    let config = GroupsConfig::new(vec![-1, -2], GroupSettings::default(), Vec::new());
    assert!(config.is_group_allowed(-1));
    assert!(config.is_group_allowed(-2));
    assert!(!config.is_group_allowed(-3));
}

#[test]
fn settings_lookup_prefers_the_configured_group() {
    let mut special = GroupSettings::default();
    special.ban_after_secs = 60;
    let config = GroupsConfig::new(Vec::new(), GroupSettings::default(), vec![(-8, special)]);
    assert_eq!(config.get(-8).ban_after_secs, 60);
    assert_eq!(config.get(-9).ban_after_secs, 300);
}

#[test]
fn later_settings_for_the_same_group_override_earlier_ones() {
    let mut first = GroupSettings::default();
    first.ban_after_secs = 10;
    let mut second = GroupSettings::default();
    second.ban_after_secs = 20;
    let config = GroupsConfig::new(
        Vec::new(),
        GroupSettings::default(),
        vec![(-8, first), (-8, second)],
    );
    assert_eq!(config.get(-8).ban_after_secs, 20);
}

#[test]
fn unauthorized_notice_for_unlisted_group_only() {
    let config = GroupsConfig::new(vec![-1], GroupSettings::default(), Vec::new());
    assert_eq!(unauthorized_notice(&config, -1), None);
    assert_eq!(
        unauthorized_notice(&config, -2),
        Some("❌ You can't use this bot on this group. Bye!".to_string())
    );
}

#[test]
fn check_command_replies_depend_on_chat_and_permissions() {
    let private = command_reply(Command::Check, true, false).unwrap();
    assert!(private.starts_with("You can only use this bot in public groups."));
    let ready = command_reply(Command::Check, false, true).unwrap();
    assert!(ready.starts_with("Bot has admin permissions"));
    let powerless = command_reply(Command::Check, false, false).unwrap();
    assert!(powerless.starts_with("Bot doesn't have admin permissions!"));
}

#[test]
fn help_and_start_reply_only_in_private_chats() {
    assert!(command_reply(Command::Help, true, false)
        .unwrap()
        .starts_with("Welcome to the World ID Telegram bot!"));
    assert!(command_reply(Command::Start, true, true).is_some());
    assert!(command_reply(Command::Help, false, true).is_none());
    assert!(command_reply(Command::Start, false, false).is_none());
}

#[test]
fn provider_classification_covers_every_verdict() {
    assert_eq!(classify_provider_response(200, None), ProviderVerdict::Accepted);
    assert_eq!(
        classify_provider_response(200, Some("max_verifications_reached")),
        ProviderVerdict::Accepted
    );
    assert_eq!(
        classify_provider_response(429, Some("max_verifications_reached")),
        ProviderVerdict::Rejected(ProviderRejection::AlreadyUsed)
    );
    assert_eq!(
        classify_provider_response(400, Some("invalid_proof")),
        ProviderVerdict::Rejected(ProviderRejection::InvalidProof)
    );
    assert_eq!(
        classify_provider_response(400, None),
        ProviderVerdict::Rejected(ProviderRejection::InvalidProof)
    );
    assert_eq!(
        classify_provider_response(500, Some("max_verifications_reached")),
        ProviderVerdict::Rejected(ProviderRejection::AlreadyUsed)
    );
    assert_eq!(
        classify_provider_response(599, None),
        ProviderVerdict::Rejected(ProviderRejection::InvalidProof)
    );
}

#[test]
fn provider_call_params_render_the_key() {
    let params = provider_call_params(JoinRequestKey { group: -100123, subject: 456 });
    assert_eq!(params.action, "-100123");
    assert_eq!(params.signal, "456");
}
