use bidibip::ad_form::{answer_fits, heading_text, ids_left};
use bidibip::ad_steps::{is_choice_field, FieldId, MainSteps};
use bidibip::button_id::ButtonIds;
use bidibip::history::{edit_texts, LoggedMessage};
use bidibip::json_message::{json_to_message, message_cuts_defined, message_is_empty, messages_cuts_defined, JsonEmbed, JsonMessage};
use bidibip::logger::prefix_is_defined;
use bidibip::username::Username;
use bidibip::warn::{UserWarn, WarnBook};

fn user(id: u64) -> Username {
    Username { handle: format!("u{id}"), server_name: format!("u{id}"), id }
}

fn warn(to: u64, link: &str) -> UserWarn {
    UserWarn {
        date: 1,
        from: user(1),
        to: user(to),
        link: None,
        reason: "r".to_string(),
        details: None,
        action: "warn".to_string(),
        full_message_link: link.to_string(),
    }
}

fn text(lines: &[&str]) -> JsonMessage {
    JsonMessage { textes: Some(lines.iter().map(|s| s.to_string()).collect()), embeds: None, interactions: None }
}

#[test]
fn edit_texts_take_the_event_when_the_new_message_has_none() {
    let old = LoggedMessage { author: user(2), content: String::new(), attachments: vec!["a".to_string(), "b".to_string()] };
    let (before, after) = edit_texts(Some(&old), None, Some(&"nouveau".to_string()), None);
    assert_eq!(before, "a b ");
    assert_eq!(after, "nouveau");
    let (before, after) = edit_texts(None, None, Some(&String::new()), Some(&vec!["f".to_string()]));
    assert_eq!(before, "");
    assert_eq!(after, "f ");
}

#[test]
fn sanction_history_is_found_by_its_message_link() {
    let mut book = WarnBook::new();
    book.store(warn(5, "L1"));
    book.store(warn(6, "L2"));
    book.store(warn(5, "L3"));
    let found = book.warns_with_link("L3").unwrap();
    assert_eq!(found.len(), 2);
    assert_eq!(found[0].full_message_link, "L1");
    assert!(book.warns_with_link("L9").is_none());
    assert_eq!(book.warns(6).unwrap().len(), 1);
    assert!(book.warns(7).is_none());
}

#[test]
fn described_message_cuts_are_checked_up_to_the_first_empty_message() {
    // 1997 bytes, then "é" over bytes 1997 and 1998: the cut at 1998 bytes falls inside it.
    let long = format!("{}éaaa", "a".repeat(1997));
    let bad = text(&[&long]);
    assert!(!message_cuts_defined(&bad));
    assert!(!messages_cuts_defined(&vec![text(&["ok"]), text(&[&long])]));
    // After an empty message nothing is cut: planning stops there with an error.
    let empty = JsonMessage { textes: None, embeds: Some(vec![]), interactions: None };
    assert!(message_is_empty(&empty));
    let messages = vec![text(&["ok"]), empty, text(&[&long])];
    assert!(messages_cuts_defined(&messages));
    assert!(json_to_message(&messages).is_err());
    let embed = JsonMessage { textes: None, embeds: Some(vec![JsonEmbed { titre: "T".to_string(), description: Some(format!("{}éaaa", "a".repeat(4093))) }]), interactions: None };
    assert!(!message_cuts_defined(&embed));
}

#[test]
fn log_prefix_check_follows_char_boundaries() {
    assert!(prefix_is_defined("abc", 900));
    let s = format!("{}é", "a".repeat(899));
    assert!(!prefix_is_defined(&s, 900));
    assert!(prefix_is_defined(&s, 899));
}

#[test]
fn button_ids_left() {
    let ids = ButtonIds { max: u64::MAX - 1, free: vec![] };
    assert!(ids_left(&ids, 1));
    assert!(!ids_left(&ids, 2));
    let ids = ButtonIds { max: u64::MAX, free: vec![3, 4] };
    assert!(ids_left(&ids, 2));
    assert!(!ids_left(&ids, 3));
}

#[test]
fn edited_answers_must_fit() {
    assert!(answer_fits(&None));
    assert!(answer_fits(&Some(None)));
    assert!(answer_fits(&Some(Some("court".to_string()))));
    // "`" then 1646 bytes then "é": the cut at 1648 bytes falls inside "é".
    let long = format!("{}éaaa", "a".repeat(1646));
    assert!(!answer_fits(&Some(Some(long))));
}

#[test]
fn form_questions_and_headings() {
    assert!(is_choice_field(FieldId::Kind));
    assert!(!is_choice_field(FieldId::Title));
    assert_eq!(heading_text("Titre"), "## ▶  Titre");
    let form = MainSteps::new();
    assert!(form.click_titles_fit());
    assert!(form.text_ref(FieldId::Title).value.is_none());
    assert!(form.choice_ref(FieldId::Kind).value.is_none());
}

#[test]
fn modal_for_no_question_changes_nothing() {
    let mut form = MainSteps::new();
    let mut ids = ButtonIds::new();
    let r = form.on_modal(&mut ids, "advertising:9", Some(Some("x".to_string())));
    assert!(matches!(r, Ok(None)));
    assert_eq!(ids.max, 0);
}

#[test]
fn roles_with_the_same_permissions_get_every_permission() {
    let p = bidibip::permissions::PermissionData::from_roles(5, 5, 9);
    assert_eq!(p.member_permissions, 0x7_7fff_ffff_ffff);
    assert_eq!(p.helper_permissions, 0x7_7fff_ffff_ffff);
    assert_eq!(p.administrator_permissions, 9);
}

#[test]
fn sanction_history_fields_show_dates() {
    let mut w = warn(5, "https://l");
    w.date = 86_400;
    let fields = bidibip::warn::history_fields(&vec![w]).unwrap();
    assert_eq!(fields, vec![("warn (02 January 1970)".to_string(), "r\nhttps://l".to_string())]);
}
