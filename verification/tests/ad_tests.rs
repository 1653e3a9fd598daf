use bidibip::ad_form::{chosen_style, ButtonOption, ButtonStyle, TextClick, TextOption};
use bidibip::ad_steps::{choice_options, field_title, Choice, FieldId, FormClick, FormStep, MainSteps};
use bidibip::advertising::{
    ad_channel_of, ad_custom_id, may_validate, deny_reason, invitation, post_title, approval_request, route_ad_button,
    stored_ad_line, AdAction, AdButton, AdCommand, AdvertisingConfig,
};
use bidibip::button_id::ButtonIds;
use bidibip::discord::MessageReference;

fn posted(t: &mut TextOption, ids: &mut ButtonIds, title: &str, optional: bool, message: u64) {
    let _ = t.init_post(ids, title, optional);
    t.set_question(message, title.to_string(), optional);
}

#[test]
fn text_question_asks_then_takes_an_answer() {
    let mut ids = ButtonIds::new();
    let mut t = TextOption::new();
    assert!(t.is_none());
    assert!(t.is_unset());
    let post = t.init_post(&mut ids, "Titre", true).unwrap();
    assert_eq!(post.content, "## ▶  Titre\n> *Écris ta réponse sous ce message*");
    assert_eq!(post.buttons.len(), 1);
    assert_eq!(post.buttons[0].custom_id, "advertising::1::");
    assert_eq!(post.buttons[0].label, "Ignorer");
    t.set_question(77, "Titre".to_string(), true);
    assert!(t.init_post(&mut ids, "Titre", true).is_none());
    assert!(t.is_unset());
    let edit = t.try_set(&mut ids, "Ma réponse").unwrap();
    assert_eq!(edit.message, 77);
    assert_eq!(edit.content, "## ▶  Titre\n`Ma réponse`");
    let buttons = edit.buttons.unwrap();
    assert_eq!(buttons.len(), 2);
    assert_eq!(buttons[0].label, "Modifier");
    assert_eq!(buttons[1].label, "Supprimer");
    assert_eq!(t.value().map(|s| s.as_str()), Some("Ma réponse"));
    assert!(!t.is_unset());
    // A second message is not taken.
    assert!(t.try_set(&mut ids, "autre").is_none());
    // The first clear button was given back.
    assert_eq!(ids.free, vec![1]);
}

#[test]
fn text_question_with_an_answer_shows_it_when_posted() {
    let mut ids = ButtonIds::new();
    let mut t = TextOption::new();
    t.value = Some("ancienne".to_string());
    let post = t.init_post(&mut ids, "Durée", false).unwrap();
    assert_eq!(post.content, "## ▶  Durée\n`ancienne`");
    assert_eq!(post.buttons.len(), 1);
    assert_eq!(post.buttons[0].custom_id, "advertising::1::");
    assert_eq!(t.edit_button.unwrap().raw(), 1);
    assert_eq!(t.clear_button.unwrap().raw(), 2);
}

#[test]
fn clear_and_edit_buttons() {
    let mut ids = ButtonIds::new();
    let mut t = TextOption::new();
    posted(&mut t, &mut ids, "Liens", true, 5);
    let _ = t.try_set(&mut ids, "http://x");
    let edit_id = t.edit_button.unwrap().raw();
    // The edit button opens a modal with the answer.
    let click = t.try_edit_click(&mut ids, &format!("advertising::{}::", edit_id)).unwrap();
    let modal = match click {
        TextClick::Edit(m) => m,
        _ => panic!("expected a modal"),
    };
    assert_eq!(modal.title, "Liens");
    assert!(!modal.required);
    assert_eq!(modal.value, "http://x");
    // The modal comes back empty: the answer is left out.
    let done = t.try_edit_modal(&mut ids, &modal.custom_id, Some(Some(String::new()))).unwrap().unwrap();
    assert_eq!(done.content, "## ▶  Liens\n:negative_squared_cross_mark:");
    assert!(t.skipped);
    assert!(t.value().is_none());
    assert!(t.waiting_edition_id.is_none());
    // The clear button leaves the answer out too.
    let clear_id = t.clear_button.unwrap().raw();
    let click = t.try_edit_click(&mut ids, &format!("advertising::{}::", clear_id)).unwrap();
    match click {
        TextClick::Cleared(e) => assert_eq!(e.content, "## ▶  Liens\n:negative_squared_cross_mark:"),
        _ => panic!("expected a clear"),
    }
    assert!(matches!(t.try_edit_click(&mut ids, "advertising::999::").unwrap(), TextClick::Ignored));
    assert!(matches!(t.try_edit_click(&mut ids, "warn::1::").unwrap(), TextClick::Ignored));
}

#[test]
fn edit_modal_with_text_sets_the_answer() {
    let mut ids = ButtonIds::new();
    let mut t = TextOption::new();
    posted(&mut t, &mut ids, "Q", false, 5);
    let _ = t.try_set(&mut ids, "a");
    let edit_id = t.edit_button.unwrap().raw();
    let modal = match t.try_edit_click(&mut ids, &format!("advertising::{}::", edit_id)).unwrap() {
        TextClick::Edit(m) => m,
        _ => panic!(),
    };
    assert!(modal.required);
    let e = t.try_edit_modal(&mut ids, &modal.custom_id, Some(Some("b".to_string()))).unwrap().unwrap();
    assert_eq!(e.content, "## ▶  Q\n`b`");
    assert_eq!(t.value().map(|s| s.as_str()), Some("b"));
    // Another modal is not for this question.
    assert!(t.try_edit_modal(&mut ids, "advertising::500::", Some(Some("c".to_string()))).unwrap().is_none());
}

#[test]
fn edit_without_question_is_an_error() {
    let mut ids = ButtonIds::new();
    let mut t = TextOption::new();
    t.edit_button = Some(bidibip::button_id::ButtonId::from_raw(3));
    let r = t.try_edit_click(&mut ids, "advertising::3::");
    assert_eq!(r.err().unwrap().msg, "Question message should be none");
}

#[test]
fn choice_rows_are_three_then_four() {
    let options: Vec<(String, String)> = (0..8).map(|i| (format!("k{i}"), format!("l{i}"))).collect();
    let b: ButtonOption<Choice> = ButtonOption::new();
    let rows = b.question_rows(&options);
    assert_eq!(rows.iter().map(|r| r.len()).collect::<Vec<_>>(), vec![3, 4, 1]);
    assert_eq!(rows[0][0].custom_id, "advertising::k0::");
    assert_eq!(rows[0][0].style, ButtonStyle::Primary);
    let two: Vec<(String, String)> = options[..2].to_vec();
    assert_eq!(b.question_rows(&two).len(), 1);
    let none: Vec<(String, String)> = vec![];
    assert_eq!(b.question_rows(&none).len(), 0);
}

#[test]
fn choice_click_sets_the_value() {
    let mut b: ButtonOption<Choice> = ButtonOption::new();
    assert!(b.try_set("advertising::remote::").is_none());
    b.set_question(3, vec![("remote".to_string(), Choice::Remote), ("any".to_string(), Choice::Flexible)]);
    assert!(b.try_set("advertising::unknown::").is_none());
    let previous = b.try_set("advertising::any::").unwrap();
    assert!(previous.is_none());
    assert_eq!(b.value(), Some(&Choice::Flexible));
    assert_eq!(b.chosen_key().map(|s| s.as_str()), Some("any"));
    assert!(!b.is_unset());
    let options = vec![("remote".to_string(), "R".to_string()), ("any".to_string(), "A".to_string())];
    let rows = b.question_rows(&options);
    assert_eq!(rows[0][0].style, ButtonStyle::Secondary);
    assert_eq!(rows[0][1].style, ButtonStyle::Success);
    assert_eq!(chosen_style("advertising::any::", "any"), ButtonStyle::Success);
    assert_eq!(chosen_style("advertising::remote::", "any"), ButtonStyle::Secondary);
    b.clean_for_storage();
    assert!(b.question_options.is_none());
    assert_eq!(b.value(), Some(&Choice::Flexible));
}

#[test]
fn form_asks_questions_in_order() {
    let mut ids = ButtonIds::new();
    let mut form = MainSteps::new();
    assert_eq!(form.advance_step(), FormStep::Ask { field: FieldId::Title, stop: true });
    assert_eq!(field_title(FieldId::Title), "Donne un titre à ton annonce");
    posted(form.text_mut(FieldId::Title), &mut ids, "Donne un titre à ton annonce", false, 1);
    assert_eq!(form.advance_step(), FormStep::Ask { field: FieldId::Title, stop: true });
    let (field, _) = form.receive_message(&mut ids, "Mon annonce").unwrap();
    assert_eq!(field, FieldId::Title);
    assert_eq!(form.advance_step(), FormStep::Ask { field: FieldId::Description, stop: true });
    posted(form.text_mut(FieldId::Description), &mut ids, "D", false, 2);
    let _ = form.receive_message(&mut ids, "Description");
    assert_eq!(form.advance_step(), FormStep::Ask { field: FieldId::Kind, stop: true });
    let kinds = choice_options(FieldId::Kind);
    assert_eq!(kinds.len(), 6);
    let items: Vec<(String, Choice)> = kinds.iter().map(|(k, _, c)| (k.clone(), *c)).collect();
    form.choice_mut(FieldId::Kind).set_question(3, items);
    let click = form.on_click(&mut ids, &format!("advertising::{}::", kinds[4].0)).unwrap();
    match click {
        FormClick::Choice { field, previous, .. } => {
            assert_eq!(field, FieldId::Kind);
            assert_eq!(previous, None);
        },
        _ => panic!("expected a choice"),
    }
    assert_eq!(form.advance_step(), FormStep::Ask { field: FieldId::FixedTermDuration, stop: true });
    posted(form.text_mut(FieldId::FixedTermDuration), &mut ids, "Durée du contrat", false, 4);
    let (field, _) = form.receive_message(&mut ids, "6 mois").unwrap();
    assert_eq!(field, FieldId::FixedTermDuration);
    // The pay question is asked once; the form goes on only once it is answered.
    assert_eq!(form.advance_step(), FormStep::Ask { field: FieldId::FixedTermPay, stop: true });
    posted(form.text_mut(FieldId::FixedTermPay), &mut ids, "Rémunération", false, 5);
    assert_eq!(form.advance_step(), FormStep::Wait);
    let _ = form.receive_message(&mut ids, "2000");
    assert_eq!(form.advance_step(), FormStep::Ask { field: FieldId::IsRecruiter, stop: true });
    let preview = form.create_message("Bob");
    assert_eq!(preview.title, "Mon annonce");
    assert_eq!(preview.description, "Annonce de Bob:\nDescription");
    assert!(preview.fields.is_empty());
    let fields = form.fixed_term.fill_message();
    assert_eq!(fields[0].value, "6 mois");
    assert_eq!(fields[1].value, "2000");
}

#[test]
fn new_choice_resets_the_questions_of_the_old_one() {
    let mut ids = ButtonIds::new();
    let mut form = MainSteps::new();
    let kinds = choice_options(FieldId::Kind);
    let items: Vec<(String, Choice)> = kinds.iter().map(|(k, _, c)| (k.clone(), *c)).collect();
    form.choice_mut(FieldId::Kind).set_question(3, items);
    let _ = form.on_click(&mut ids, &format!("advertising::{}::", kinds[5].0));
    posted(form.text_mut(FieldId::OpenEndedPay), &mut ids, "Rémunération", false, 9);
    let _ = form.receive_message(&mut ids, "beaucoup");
    let click = form.on_click(&mut ids, &format!("advertising::{}::", kinds[0].0)).unwrap();
    match click {
        FormClick::Choice { previous, deleted_messages, .. } => {
            assert_eq!(previous, Some(Choice::OpenEnded));
            assert_eq!(deleted_messages, vec![9]);
        },
        _ => panic!(),
    }
    assert!(form.open_ended.compensation.value().is_none());
    assert!(form.open_ended.compensation.question_message.is_none());
}

#[test]
fn stored_ads_and_the_ad_command() {
    let mut config = AdvertisingConfig::default_config();
    assert_eq!(config.max_ad_per_user, 2);
    assert_eq!(config.ad_command(1), AdCommand::StartForm);
    assert_eq!(config.start_form(1, 100, MainSteps::new()), None);
    assert_eq!(config.start_form(1, 101, MainSteps::new()), Some(100));
    assert_eq!(config.form_thread(1), Some(101));
    assert_eq!(config.publication_user(101), Some(1));
    assert!(config.complete_publication(1, MessageReference::new(500, 50)));
    assert_eq!(config.form_thread(1), None);
    assert_eq!(config.ad_command(1), AdCommand::ListAds { at_limit: false });
    let mut published = MainSteps::new();
    published.title.value = Some("Stage".to_string());
    published.kind.value = Some((Choice::Internship, "🪂 Stage".to_string()));
    config.store_ad(1, MessageReference::new(600, 60), published);
    assert_eq!(config.ad_command(1), AdCommand::ListAds { at_limit: true });
    let mut channels = config.user_ads(1);
    channels.sort();
    assert_eq!(channels, vec![50, 60]);
    let copy = config.edit_copy(1, 60).unwrap();
    assert_eq!(copy.edited_post, Some(MessageReference::new(600, 60)));
    assert_eq!(copy.title.value.as_deref(), Some("Stage"));
    assert_eq!(copy.kind.value.as_ref().map(|v| v.0), Some(Choice::Internship));
    assert!(config.delete_ad(1, 50));
    assert!(!config.delete_ad(1, 50));
    assert_eq!(config.ad_command(1), AdCommand::ListAds { at_limit: false });
    assert_eq!(config.user_ads(2), Vec::<u64>::new());
    assert!(config.has_ad_entry(1));
    assert!(!config.has_ad_entry(2));
}

#[test]
fn ad_texts_and_buttons() {
    assert_eq!(post_title(Some(Choice::Internship), "Stage Unreal"), "🪂 Stage Unreal");
    assert_eq!(post_title(None, "Titre"), "Titre");
    assert_eq!(stored_ad_line(None, "L"), "**Annonce sans titre** : L");
    assert_eq!(stored_ad_line(Some("T"), "L"), "**T** : L");
    assert_eq!(approval_request(4, &vec![7, 8]), "<@4> a terminé son annonce, nous allons procéder à quelques vérifications avant de la publier.\n<@&7><@&8>");
    assert_eq!(deny_reason(4, "spam"), "<@4>, ton annonce n'a pas été validée pour la raison suivante :\nspam\n\nTu peux encore modifier ton annonce avant de la ressoumettre pour qu'elle soit conforme aux prérequis.");
    assert_eq!(invitation(9, true), "Bien reçu, la suite se passe ici :arrow_right: <#9>\n> Note : ta précédente annonce en cours de création a été supprimée");
    assert!(may_validate(&vec![1, 2], &vec![3, 2]));
    assert!(!may_validate(&vec![1], &vec![3]));
    assert_eq!(ad_custom_id(AdAction::Edit, "60"), "advertising::edit-ad::60");
    match route_ad_button("advertising::edit-ad::60") {
        AdButton::Action(AdAction::Edit, p) => assert_eq!(ad_channel_of(&p), Some(60)),
        _ => panic!(),
    }
    assert!(matches!(route_ad_button("advertising::12::"), AdButton::Form));
    assert!(matches!(route_ad_button("advertising::validate::"), AdButton::Action(AdAction::Validate, _)));
}
