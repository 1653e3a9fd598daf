use std::collections::HashMap;

use bidibip::ad_form::{QuestionMessage, TextOption};
use bidibip::ad_steps::{Choice, MainSteps};
use bidibip::advertising::{AdCommand, AdvertisingConfig};
use bidibip::button_id::ButtonId;
use bidibip::command::{ContextKind, CreateCommandDetailed, EntryHandler, InstallKind};
use bidibip::custom_id::{get_custom_id_action, get_custom_id_data, make_custom_id};
use bidibip::discord::MessageReference;
use bidibip::migration::{
    migrate_repost, migrate_tickets, migrate_warns, read_reference, OldRepostChannels, OldRepostVotes, OldWarnItem,
};
use bidibip::modo::ModoConfig;
use bidibip::repost::{RepostChannelConfig, RepostConfig, VoteConfig};
use bidibip::username::Username;
use bidibip::warn::{UserWarn, WarnBook};

fn user(id: u64, handle: &str) -> Username {
    Username { handle: handle.to_string(), server_name: handle.to_string(), id }
}

#[test]
fn publication_stores_the_post_and_the_cleaned_form() {
    let mut config = AdvertisingConfig::default_config();
    let mut form = MainSteps::new();
    form.title.value = Some("Stage".to_string());
    form.title.edit_button = Some(ButtonId { id: 3 });
    form.title.question_message = Some(QuestionMessage { message: 9, title: "Titre".to_string(), optional: false });
    form.kind.value = Some((Choice::Internship, "stage".to_string()));
    form.edited_post = Some(MessageReference::new(1, 2));
    assert_eq!(config.start_form(7, 70, form), None);
    assert!(config.complete_publication(7, MessageReference::new(500, 50)));
    assert_eq!(config.user_ads(7), vec![50]);
    let stored = config.stored_ad(7, 50).unwrap();
    assert_eq!(stored.ad_message, MessageReference::new(500, 50));
    assert_eq!(stored.description.edited_post, None);
    assert_eq!(stored.description.title.value.as_deref(), Some("Stage"));
    assert!(stored.description.title.edit_button.is_none());
    assert!(stored.description.title.question_message.is_none());
    let copy = config.edit_copy(7, 50).unwrap();
    assert_eq!(copy.edited_post, Some(MessageReference::new(500, 50)));
    assert_eq!(copy.title.value.as_deref(), Some("Stage"));
    assert_eq!(copy.kind.value.as_ref().map(|v| v.0), Some(Choice::Internship));
    assert!(!config.complete_publication(8, MessageReference::new(600, 60)));
    assert!(!config.has_ad_entry(8));
}

#[test]
fn storing_under_a_key_replaces_only_that_entry() {
    let mut config = AdvertisingConfig::default_config();
    let mut a = MainSteps::new();
    a.title.value = Some("A".to_string());
    config.store_ad(1, MessageReference::new(10, 100), a);
    let mut b = MainSteps::new();
    b.title.value = Some("B".to_string());
    config.store_ad(2, MessageReference::new(20, 200), b);
    let mut c = MainSteps::new();
    c.title.value = Some("C".to_string());
    config.store_ad(1, MessageReference::new(11, 100), c);
    assert_eq!(config.user_ads(1), vec![100]);
    assert_eq!(config.stored_ad(1, 100).unwrap().ad_message, MessageReference::new(11, 100));
    assert_eq!(config.stored_ad(1, 100).unwrap().description.title.value.as_deref(), Some("C"));
    assert_eq!(config.stored_ad(2, 200).unwrap().description.title.value.as_deref(), Some("B"));
    assert!(config.delete_ad(1, 100));
    assert!(config.user_ads(1).is_empty());
    assert!(config.has_ad_entry(1));
    assert_eq!(config.ad_command(1), AdCommand::StartForm);
    assert_eq!(config.stored_ad(2, 200).unwrap().ad_message, MessageReference::new(20, 200));
}

#[test]
fn text_question_as_stored() {
    let mut t = TextOption::new();
    t.value = Some("x".to_string());
    t.clear_button = Some(ButtonId { id: 4 });
    t.waiting_edition_id = Some(ButtonId { id: 5 });
    t.clean_for_storage();
    assert_eq!(t.value.as_deref(), Some("x"));
    assert!(t.clear_button.is_none() && t.waiting_edition_id.is_none());
}

#[test]
fn custom_ids_with_single_colons_read_back() {
    let id = make_custom_id("a:b", "act", "c:d");
    assert_eq!(id, "a:b::act::c:d");
    assert_eq!(get_custom_id_data(&id, "a:b", "act"), Some("c:d".to_string()));
    assert_eq!(get_custom_id_data(&id, "a:b", "other"), None);
    assert_eq!(get_custom_id_data(&id, "a", "act"), None);
    assert_eq!(get_custom_id_action(&id, "a:b"), Some(("act".to_string(), "c:d".to_string())));
    let broken = make_custom_id("a:", "act", "x");
    assert_eq!(get_custom_id_data(&broken, "a:", "act"), None);
}

#[test]
fn a_new_command_has_nothing_but_its_name() {
    let c = CreateCommandDetailed::new("help");
    assert_eq!(c.name, "help");
    assert!(c.name_localizations.is_empty());
    assert!(c.description.is_none());
    assert!(c.description_localizations.is_empty());
    assert!(c.options.is_empty());
    assert!(c.default_member_permissions.is_none());
    assert!(c.dm_permission.is_none());
    assert!(c.kind.is_none());
    assert!(c.integration_types.is_none());
    assert!(c.contexts.is_none());
    assert!(!c.nsfw);
    assert!(c.handler.is_none());
}

#[test]
fn command_localizations_and_contexts() {
    let c = CreateCommandDetailed::new("help")
        .name_localized("fr", "aide")
        .name_localized("de", "hilfe")
        .name_localized("fr", "au-secours")
        .description_localized("fr", "Aide")
        .add_integration_type(InstallKind::Guild)
        .add_integration_type(InstallKind::User)
        .add_context(ContextKind::BotDm)
        .handler(EntryHandler::AppHandler);
    assert_eq!(
        c.name_localizations,
        vec![("fr".to_string(), "au-secours".to_string()), ("de".to_string(), "hilfe".to_string())]
    );
    assert_eq!(c.description_localizations, vec![("fr".to_string(), "Aide".to_string())]);
    assert_eq!(c.integration_types, Some(vec![InstallKind::Guild, InstallKind::User]));
    assert_eq!(c.contexts, Some(vec![ContextKind::BotDm]));
    assert_eq!(c.handler, Some(EntryHandler::AppHandler));
    let d = c.contexts(vec![ContextKind::Guild, ContextKind::PrivateChannel]);
    assert_eq!(d.contexts, Some(vec![ContextKind::Guild, ContextKind::PrivateChannel]));
}

fn vote(thread: u64) -> VoteConfig {
    VoteConfig {
        thread_name: "post".to_string(),
        source_message_url: "url".to_string(),
        source_thread: thread,
        reposted_message: vec![],
        vote_message: MessageReference::new(1, 2),
        yes: HashMap::new(),
        no: HashMap::new(),
    }
}

#[test]
fn what_a_new_thread_asks_of_the_repost_module() {
    let mut config = RepostConfig { forums: HashMap::new(), votes: HashMap::new() };
    config.forums.insert(10, RepostChannelConfig { repost_channel: vec![20, 21], vote_enabled: true });
    assert!(matches!(config.thread_plan(false, 1, Some(10)), Ok(None)));
    assert!(matches!(config.thread_plan(true, 1, None), Ok(None)));
    let e = config.thread_plan(true, 1, Some(11)).unwrap_err();
    assert_eq!(e.msg, "Failed to get repost config");
    assert_eq!(config.thread_plan(true, 1, Some(10)).unwrap(), Some((vec![20, 21], true)));
    let e = config.record_repost(1, MessageReference::new(5, 20)).unwrap_err();
    assert_eq!(e.msg, "Failed to register last reposted message");
    config.open_vote(1, vote(1));
    assert!(matches!(config.thread_plan(true, 1, Some(10)), Ok(None)));
    assert!(config.record_repost(1, MessageReference::new(5, 20)).is_ok());
    assert!(config.record_repost(1, MessageReference::new(5, 20)).is_ok());
    assert!(config.record_repost(1, MessageReference::new(6, 21)).is_ok());
    assert_eq!(config.votes[&1].reposted_message, vec![MessageReference::new(5, 20), MessageReference::new(6, 21)]);
}

#[test]
fn a_new_thread_replaces_the_old_one() {
    let mut c = ModoConfig { modo_channel: 3, tickets: HashMap::new() };
    c.open_ticket(5, 50);
    c.open_ticket(6, 60);
    c.open_ticket(5, 51);
    assert_eq!(c.ticket(5), Some(51));
    assert_eq!(c.ticket(6), Some(60));
    assert_eq!(c.tickets.len(), 2);
}

#[test]
fn old_sanctions_and_threads_are_converted() {
    let stand_in = user(0, "");
    let old = vec![(
        9u64,
        vec![
            OldWarnItem { date: 100, link: "l1".to_string(), message: "m1".to_string() },
            OldWarnItem { date: 200, link: "l2".to_string(), message: "m2".to_string() },
        ],
    )];
    let book: WarnBook = migrate_warns(&old, &stand_in);
    assert_eq!(book.users.len(), 1);
    assert_eq!(book.users[&9].len(), 2);
    let w: &UserWarn = &book.users[&9][1];
    assert_eq!(w.date, 200);
    assert_eq!(w.link.as_deref(), Some("l2"));
    assert_eq!(w.reason, "m2");
    assert!(w.details.is_none() && w.action.is_empty() && w.full_message_link.is_empty());
    let modo = migrate_tickets(&vec![(1, 10), (2, 20), (1, 11)]);
    assert_eq!(modo.modo_channel, 0);
    assert_eq!(modo.tickets, HashMap::from([(1, 11), (2, 20)]));
}

#[test]
fn old_reposts_are_converted() {
    assert_eq!(read_reference("12/34"), Some(MessageReference::new(34, 12)));
    assert_eq!(read_reference("12/34/56"), Some(MessageReference::new(34, 12)));
    assert_eq!(read_reference("1234"), None);
    let forums = vec![(7u64, OldRepostChannels { bound_channels: vec![1, 2, 1], vote: true })];
    let votes = vec![(
        8u64,
        OldRepostVotes {
            vote_yes: vec![user(3, "c")],
            vote_no: vec![],
            bound_messages: vec!["100/200".to_string(), "100/200".to_string(), "101/201".to_string()],
            channel_title: "titre".to_string(),
        },
    )];
    let vote_messages = vec![("5/6".to_string(), 8u64), ("9/9".to_string(), 99u64)];
    let config = migrate_repost(&forums, &votes, &vote_messages);
    assert_eq!(config.forums[&7].repost_channel, vec![1, 2]);
    assert!(config.forums[&7].vote_enabled);
    let v = &config.votes[&8];
    assert_eq!(v.thread_name, "titre");
    assert_eq!(v.source_thread, 8);
    assert_eq!(v.source_message_url, "https://discord.com/channels/293047579288272897/100/200");
    assert_eq!(v.reposted_message, vec![MessageReference::new(200, 100), MessageReference::new(201, 101)]);
    assert_eq!(v.vote_message, MessageReference::new(6, 5));
    assert_eq!(v.yes.len(), 1);
    assert_eq!(v.yes[&3].handle, "c");
    assert!(v.no.is_empty());
    assert_eq!(config.votes.len(), 1);
}

#[test]
fn join_alert_only_for_sanctioned_users() {
    let mut book = WarnBook::new();
    assert_eq!(book.join_alert(4, "x"), None);
    book.store(UserWarn {
        date: 5,
        from: user(1, "a"),
        to: user(4, "x"),
        link: None,
        reason: "r".to_string(),
        details: None,
        action: "warn".to_string(),
        full_message_link: "L".to_string(),
    });
    assert_eq!(book.join_alert(4, "X"), Some("X vient de rejoindre le serveur avec 1 warn(s) à son actif ! L".to_string()));
}

#[test]
fn a_modal_for_a_question_without_message_is_refused() {
    let mut form = MainSteps::new();
    form.title.waiting_edition_id = Some(ButtonId { id: 5 });
    let mut ids = bidibip::button_id::ButtonIds::new();
    let r = form.on_modal(&mut ids, "advertising::5::", Some(Some("x".to_string())));
    assert_eq!(r.err().unwrap().msg, "Failed to get question message");
    let mut form = MainSteps::new();
    form.title.waiting_edition_id = Some(ButtonId { id: 5 });
    form.title.question_message = Some(QuestionMessage { message: 9, title: "Titre".to_string(), optional: false });
    let r = form.on_modal(&mut ids, "advertising::5::", Some(Some("x".to_string())));
    let (field, edit) = r.ok().unwrap().unwrap();
    assert_eq!(field, bidibip::ad_steps::FieldId::Title);
    assert_eq!(edit.message, 9);
    assert_eq!(form.title.value.as_deref(), Some("x"));
    assert!(form.on_modal(&mut ids, "advertising::5::", Some(Some("y".to_string()))).ok().unwrap().is_none());
}

#[test]
fn the_preview_message_of_a_thread_is_taken_once() {
    let mut config = AdvertisingConfig::default_config();
    let mut form = MainSteps::new();
    form.demo_message = Some(9);
    assert_eq!(config.start_form(1, 10, MainSteps::new()), None);
    assert_eq!(config.start_form(2, 20, form), None);
    assert_eq!(config.take_demo_message(20).ok(), Some((2, 9)));
    assert_eq!(config.take_demo_message(20).err().unwrap().msg, "Failed to find demo_message");
    assert_eq!(config.take_demo_message(30).err().unwrap().msg, "Failed to find initial user");
}
