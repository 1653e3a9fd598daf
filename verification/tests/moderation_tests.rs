use std::collections::HashMap;
use bidibip::anti_spam::{spam_alert_text, AntiSpam, AntiSpamConfig, SpamDecision};
use bidibip::discord::MessageReference;
use bidibip::repost::{find_urls, message_id_from_link, vote_button_labels, vote_count_text, vote_thread_name, VoteConfig};
use bidibip::warn::{member_sanction, parse_context_command, parse_sanction_option, public_announcement, warn_modal_title, ActionType, MemberSanction, PendingWarns};
use bidibip::username::Username;
use bidibip::command::{missing_role, repost_commands, warn_commands};
use bidibip::permissions::{shown_in_help, CommandKind, PermissionData};
use bidibip::registry::ModuleRegistry;
use bidibip::ad_form::ButtonOption;
use bidibip::ad_steps::Choice;

const SECOND: i64 = 1_000_000_000;

#[test]
fn spam_across_channels_is_flagged_once() {
    let mut a = AntiSpam { history: HashMap::new(), config: AntiSpamConfig::default_config(), spammers: HashMap::new() };
    let m = |i: u64| MessageReference::new(100 + i, i);
    assert!(matches!(a.message(7, "hi", m(1), 0), SpamDecision::Recorded));
    assert!(matches!(a.message(7, "hi", m(2), SECOND), SpamDecision::Recorded));
    assert!(matches!(a.message(7, "hi", m(3), 2 * SECOND), SpamDecision::Recorded));
    match a.message(7, "hi", m(4), 3 * SECOND) {
        SpamDecision::Flag { spam_messages } => assert_eq!(spam_messages, vec![m(1), m(2), m(3)]),
        _ => panic!("expected a flag"),
    }
    assert!(matches!(a.message(7, "hi", m(5), 4 * SECOND), SpamDecision::AlreadyWarned));
    assert!(matches!(a.message(7, "hi", m(1), 5 * SECOND), SpamDecision::SameChannel));
    assert!(matches!(a.message(7, "other", m(1), 6 * SECOND), SpamDecision::Recorded));
    assert_eq!(spam_alert_text(7, "hi"), "@everyone Spam potentiel de <@7> : `hi`");
}

#[test]
fn old_copies_do_not_count() {
    let mut a = AntiSpam { history: HashMap::new(), config: AntiSpamConfig::default_config(), spammers: HashMap::new() };
    let m = |i: u64| MessageReference::new(100 + i, i);
    for i in 1..=3u64 {
        assert!(matches!(a.message(8, "x", m(i), 0), SpamDecision::Recorded));
    }
    assert!(matches!(a.message(8, "x", m(4), 61 * SECOND), SpamDecision::Recorded));
}

#[test]
fn links_of_a_post() {
    let urls = find_urls("voir http://a et https://b ici");
    assert_eq!(urls, vec!["https://b".to_string(), "http://a".to_string()]);
    assert_eq!(message_id_from_link("https://discord.com/channels/1/2/3"), Some(3));
    assert_eq!(message_id_from_link("https://discord.com/channels/1/2/x"), None);
}

#[test]
fn votes() {
    let mut v = VoteConfig {
        thread_name: "Post".to_string(),
        source_message_url: "u".to_string(),
        source_thread: 1,
        reposted_message: vec![],
        vote_message: MessageReference::new(1, 1),
        yes: HashMap::new(),
        no: HashMap::new(),
    };
    let bob = Username::from_user("bob", None, None, 5);
    v.user_vote(bob.clone(), true);
    assert!(v.yes.contains_key(&5));
    v.user_vote(bob.clone(), false);
    assert!(!v.yes.contains_key(&5));
    assert!(v.no.contains_key(&5));
    v.user_vote(bob, false);
    assert!(v.no.is_empty());
    assert_eq!(vote_thread_name(2, 1, "Post"), "[✅2-1] Post");
    assert_eq!(vote_thread_name(1, 1, "Post"), "[❌1-1] Post");
    assert_eq!(vote_button_labels(2, 3), ("Pour ✅ 2".to_string(), "Contre ❌ 3".to_string()));
    assert_eq!(vote_count_text(2, 3), "Nombre de votes : 5");
}

#[test]
fn sanctions() {
    assert_eq!(parse_sanction_option("ban"), Some(ActionType::BanVocal));
    assert_eq!(parse_sanction_option("banvoc"), Some(ActionType::BanVocal));
    assert_eq!(parse_sanction_option("exclusion 1h"), Some(ActionType::ExcludeOneHour));
    assert_eq!(parse_sanction_option("nope"), None);
    assert_eq!(parse_context_command("ban du vocal"), Some(ActionType::BanVocal));
    assert_eq!(parse_context_command("kick"), Some(ActionType::Kick));
    assert_eq!(warn_modal_title(ActionType::Kick, "bob"), "kick de bob");
    assert!(public_announcement(ActionType::Warn, "a", "b").is_none());
    let (title, duration) = public_announcement(ActionType::ExcludeOneDay, "a", "b").unwrap();
    assert_eq!(title, "a a été exclu par b");
    assert_eq!(duration, Some("une journée"));
    assert_eq!(member_sanction(ActionType::ExcludeOneHour, 9), MemberSanction::Timeout(3600));
    assert_eq!(member_sanction(ActionType::BanVocal, 9), MemberSanction::AddRole(9));
}

#[test]
fn pending_sanctions_take_the_first_free_key() {
    let mut p = PendingWarns::new();
    let bob = Username::from_user("bob", None, None, 5);
    let k0 = p.open(bob.clone(), ActionType::Warn);
    let k1 = p.open(bob.clone(), ActionType::Kick);
    assert_eq!(k0, "WarnModalId0");
    assert_eq!(k1, "WarnModalId1");
    assert_eq!(p.get("WarnModalId1").unwrap().action, ActionType::Kick);
    p.remove("WarnModalId0");
    assert!(p.get("WarnModalId0").is_none());
    assert_eq!(p.open(bob, ActionType::Ban), "WarnModalId0");
}

#[test]
fn declared_moderation_commands() {
    let p = PermissionData::from_roles(1, 3, 7);
    let w = warn_commands(&p);
    assert_eq!(w.len(), 6);
    assert_eq!(w[1].default_member_permissions, Some(3 & 7));
    assert_eq!(w[5].options[1].choices.len(), 7);
    let r = repost_commands(&p);
    assert_eq!(r[0].options.len(), 4);
    assert_eq!(missing_role("Member", 12), "Member role with id 12 does not exists");
    assert!(shown_in_help(7, Some(3), Some(CommandKind::ChatInput)));
    assert!(!shown_in_help(1, Some(3), None));
    assert!(!shown_in_help(7, None, Some(CommandKind::User)));
}

#[test]
fn command_routing_and_ready_line() {
    let mut r: ModuleRegistry<()> = ModuleRegistry::new();
    r.register("warn".to_string(), "d".to_string(), ());
    r.register("say".to_string(), "d".to_string(), ());
    r.set_commands(0, vec!["warn".to_string(), "sanction".to_string()]);
    r.set_commands(1, vec!["say".to_string()]);
    assert_eq!(r.modules_for_command("sanction"), vec![0]);
    assert_eq!(r.running_module_names(), "warn, say, ");
    r.apply_disabled(&vec!["warn".to_string()]);
    assert!(r.modules_for_command("sanction").is_empty());
    assert_eq!(r.running_module_names(), "say, ");
}

#[test]
fn choice_delete_forgets_the_question() {
    let mut b: ButtonOption<Choice> = ButtonOption::new();
    b.set_question(44, vec![("a".to_string(), Choice::Remote)]);
    let _ = b.try_set("advertising::a::");
    assert_eq!(b.delete(), Some(44));
    assert!(b.is_none());
}
