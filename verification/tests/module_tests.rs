use bidibip::registry::{commands_outdated, module_list, modules_message, ModuleRegistry};
use bidibip::utilities::{module_switch, switch_answer, up_to_date, update_available, update_plan, ModuleSwitch, UpdatePlan, UtilitiesConfig};
use bidibip::options::{CommandOption, OptionValue};
use bidibip::history::{attachments_line, deletion_report, edit_report, message_date, LoggedMessage};
use bidibip::json_message::{button_style, json_to_message, JsonButton, JsonEmbed, JsonInteraction, JsonMessage};
use bidibip::ad_form::ButtonStyle;
use bidibip::welcome::{leave_text, welcome_text, WelcomeConfig};
use bidibip::user_count::UserCount;
use bidibip::say::{say_request, user_error, SayRequest};
use bidibip::log::{button_line, command_line, i64_to_string, member_line, modal_line};
use bidibip::modo::{help_call, opening_content, opening_field, redirection, ModoConfig};
use bidibip::reglement::{is_approval, ReglementConfig};
use bidibip::help::{help_fields, CommandSummary};
use bidibip::permissions::{CommandKind, PermissionData};
use bidibip::logger::{archived_name, cut_bytes, log_line, FieldMessageVisitor, LogLevel};
use bidibip::config::{module_config_file, new_config_message, Config};
use bidibip::command::{advertising_commands, help_commands, say_commands, utilities_commands};
use bidibip::username::Username;

fn opt(name: &str, value: OptionValue) -> CommandOption {
    CommandOption { name: name.to_string(), value }
}

#[test]
fn registry_tracks_switched_off_modules() {
    let mut r: ModuleRegistry<u8> = ModuleRegistry::new();
    r.register("warn".to_string(), "Sanctions".to_string(), 1);
    r.register("say".to_string(), "Parler".to_string(), 2);
    r.set_module_enabled("say", false);
    assert!(r.contains("say"));
    assert!(!r.enabled("say"));
    assert!(r.enabled("warn"));
    let (list, on, off) = module_list(&r);
    assert_eq!((on, off), (1, 1));
    assert_eq!(list, ":white_check_mark: `warn` : Sanctions\n:x: `say` : Parler\n");
    assert_eq!(modules_message(on, off, &list), format!("# 1 / 2 modules disponibles:\n{list}"));
    r.set_module_enabled("say", true);
    assert!(r.enabled("say"));
    // A name can be switched off before a module carries it.
    r.set_module_enabled("later", false);
    r.register("later".to_string(), "Plus tard".to_string(), 3);
    assert!(!r.enabled("later"));
}

#[test]
fn commands_need_update_unless_identical_sets() {
    let a = vec!["a".to_string(), "b".to_string()];
    assert!(!commands_outdated(&a, &vec!["b".to_string(), "a".to_string()]));
    assert!(commands_outdated(&a, &vec!["a".to_string()]));
    assert!(commands_outdated(&a, &vec!["a".to_string(), "b".to_string(), "c".to_string()]));
    assert!(commands_outdated(&a, &vec!["a".to_string(), "a".to_string(), "b".to_string()]));
}

#[test]
fn module_switch_reads_its_options() {
    let mut r: ModuleRegistry<()> = ModuleRegistry::new();
    r.register("warn".to_string(), "d".to_string(), ());
    let ok = vec![opt("module", OptionValue::Text("warn".to_string())), opt("activer", OptionValue::Boolean(false))];
    assert!(matches!(module_switch(&ok, &r), Ok(ModuleSwitch::Switch { enabled: false, .. })));
    let unknown = vec![opt("module", OptionValue::Text("nope".to_string())), opt("activer", OptionValue::Boolean(true))];
    assert!(matches!(module_switch(&unknown, &r), Ok(ModuleSwitch::Unknown)));
    let invalid = vec![opt("module", OptionValue::Integer(3)), opt("activer", OptionValue::Boolean(true))];
    assert!(matches!(module_switch(&invalid, &r), Ok(ModuleSwitch::Invalid)));
    let missing = vec![opt("activer", OptionValue::Boolean(true))];
    assert_eq!(module_switch(&missing, &r).err().unwrap().msg, "missing module option");
    let missing2 = vec![opt("module", OptionValue::Text("warn".to_string()))];
    assert_eq!(module_switch(&missing2, &r).err().unwrap().msg, "missing activer option");
    assert_eq!(switch_answer("warn", true), "Module warn activé");
    assert_eq!(switch_answer("warn", false), "Module warn désactivé");
    let mut c = UtilitiesConfig::new();
    c.record_module_state("warn", false);
    assert_eq!(c.disabled_modules, vec!["warn".to_string()]);
    c.record_module_state("warn", true);
    assert!(c.disabled_modules.is_empty());
}

#[test]
fn update_plan_compares_release_dates() {
    let assets = vec!["bidibip_windows.zip".to_string(), "bidibip_linux.zip".to_string()];
    match update_plan(None, "2024-03-05T10:00:00Z", &assets, "bidibip_linux.zip").unwrap() {
        UpdatePlan::Download { asset, release } => {
            assert_eq!(asset, 1);
            let mut c = UtilitiesConfig::new();
            c.record_release(release);
            assert_eq!(c.current_version_release_date.as_deref(), Some("2024-03-05 10:00:00 UTC"));
        },
        _ => panic!("expected a download"),
    }
    // The module updates only when the known version is later than the release.
    assert!(matches!(update_plan(Some("2024-01-01T00:00:00Z"), "2024-03-05T10:00:00Z", &assets, "bidibip_linux.zip").unwrap(), UpdatePlan::UpToDate));
    assert!(matches!(update_plan(Some("2025-01-01T00:00:00Z"), "2024-03-05T10:00:00Z", &assets, "x.zip").unwrap(), UpdatePlan::NoAsset));
    assert_eq!(update_plan(None, "not a date", &assets, "x").err().unwrap().msg, "Failed to read remote date");
    assert_eq!(update_plan(Some("bad"), "2024-03-05T10:00:00Z", &assets, "x").err().unwrap().msg, "Failed to read local date");
    assert_eq!(update_available("v2"), "Mise à jour de bidibip disponible (v2). Redémarrage en cours...");
    assert_eq!(up_to_date("v2"), "La version actuelle de Bidibip est au moins aussi récente que la dernière disponible (v2)");
}

fn user(name: &str, id: u64) -> Username {
    Username::from_user(name, None, None, id)
}

#[test]
fn deletion_reports() {
    let deleted = LoggedMessage { author: user("bob", 5), content: String::new(), attachments: vec!["u1".to_string(), "u2".to_string()] };
    let e = deletion_report("05 March 2024", "L", Some(&deleted), None, 99).unwrap();
    assert_eq!(e.title, "Message du 05 March 2024 supprimé par Unknown user");
    assert_eq!(e.description, "L");
    assert_eq!(e.fields, vec![("de : bob | bob (5)".to_string(), "u1 u2 ".to_string())]);
    let empty = LoggedMessage { author: user("bob", 5), content: String::new(), attachments: vec![] };
    let mod_user = user("mod", 6);
    let e = deletion_report("d", "L", Some(&empty), Some(&mod_user), 99).unwrap();
    assert_eq!(e.title, "Message du d supprimé par mod | mod (6)");
    assert_eq!(e.fields[0].1, "Ancien message : L");
    let e = deletion_report("d", "L", None, None, 99).unwrap();
    assert_eq!(e.title, "Ancien message du d supprimé");
    assert!(e.fields.is_empty());
    let own = LoggedMessage { author: user("bot", 99), content: "x".to_string(), attachments: vec![] };
    assert!(deletion_report("d", "L", Some(&own), None, 99).is_none());
    assert_eq!(attachments_line(&vec!["a".to_string()]), "a ");
}

#[test]
fn edit_reports() {
    let old = LoggedMessage { author: user("bob", 5), content: "avant".to_string(), attachments: vec![] };
    let new = LoggedMessage { author: user("bob", 5), content: "après".to_string(), attachments: vec![] };
    let e = edit_report("L", None, Some(&old), Some(&new), None, None, 99).unwrap();
    assert_eq!(e.title, "bob | bob (5)");
    assert_eq!(e.description, "Message modifié : L");
    assert_eq!(e.fields, vec![("ancien".to_string(), "avant".to_string()), ("nouveau".to_string(), "après".to_string())]);
    let e = edit_report("L", None, None, None, Some(&"texte".to_string()), None, 99).unwrap();
    assert_eq!(e.title, "Unknown user");
    assert_eq!(e.fields, vec![("nouveau".to_string(), "texte".to_string())]);
    let e = edit_report("L", None, None, None, None, Some(&vec!["f".to_string()]), 99).unwrap();
    assert_eq!(e.fields, vec![("nouveau".to_string(), "f ".to_string())]);
    let own = LoggedMessage { author: user("bot", 99), content: "x".to_string(), attachments: vec![] };
    assert!(edit_report("L", None, None, Some(&own), None, None, 99).is_none());
}

#[test]
fn message_dates_come_from_the_id() {
    // An id made at Discord's epoch plus one day.
    let id: u64 = (86_400_000u64) << 22;
    assert_eq!(message_date(id).unwrap(), "02 January 2015");
}

#[test]
fn json_messages() {
    let ok = JsonMessage {
        textes: Some(vec!["a".to_string(), "b".to_string()]),
        embeds: Some(vec![JsonEmbed { titre: "T".to_string(), description: Some("D".to_string()) }]),
        interactions: Some(vec![
            JsonInteraction { bouton: Some(JsonButton { button_type: Some("Danger".to_string()), texte: "Go".to_string(), identifiant: "go".to_string() }) },
            JsonInteraction { bouton: None },
        ]),
    };
    let planned = json_to_message(&vec![ok]).unwrap();
    assert_eq!(planned[0].content.as_deref(), Some("a\nb\n"));
    assert_eq!(planned[0].embeds, vec![("T".to_string(), Some("D".to_string()))]);
    let buttons = planned[0].buttons.as_ref().unwrap();
    assert_eq!(buttons.len(), 1);
    assert_eq!(buttons[0].style, Some(ButtonStyle::Danger));
    let empty = JsonMessage { textes: Some(vec![]), embeds: None, interactions: None };
    assert_eq!(json_to_message(&vec![empty]).err().unwrap().msg, "Chaque message doit contenir au moins un message ou au moins un embed");
    assert_eq!(button_style("Success"), ButtonStyle::Success);
    assert_eq!(button_style("weird"), ButtonStyle::Primary);
}

#[test]
fn welcome_and_leave_texts() {
    assert_eq!(welcome_text(None, 5, 7), "Bienvenue parmi nous {} :wave: !\n> N'oublies pas de lire le <#7> pour accéder au serveur.");
    assert_eq!(welcome_text(Some("Salut {user} !".to_string()), 5, 7), "Salut <@5> !\n> N'oublies pas de lire le <#7> pour accéder au serveur.");
    assert_eq!(leave_text(Some("{user} part".to_string()), 5), "<@5> part");
    assert_eq!(leave_text(None, 5), "{} nous a quitté !");
    let config = WelcomeConfig { join_channel: 1, leave_channel: 2, reglement_channel: 3, welcome_messages: vec!["A {user}".to_string(), "B {user}".to_string()], leave_messages: vec![] };
    let m = config.welcome_message(5);
    assert!(m.starts_with("A <@5>") || m.starts_with("B <@5>"));
    assert_eq!(config.leave_message(5), "{} nous a quitté !");
}

#[test]
fn member_count_wraps() {
    let mut c = UserCount::new();
    c.member_left();
    assert_eq!(c.user_count, usize::MAX);
    c.member_joined();
    assert_eq!(c.user_count, 0);
    c.set(41);
    c.member_joined();
    assert_eq!(c.status_text(), "Nous sommes 42 membres");
}

#[test]
fn say_and_log_texts() {
    assert!(matches!(say_request(&vec![opt("message", OptionValue::Text("hi".to_string()))]), SayRequest::Text(s) if s == "hi"));
    assert!(matches!(say_request(&vec![opt("fichier", OptionValue::Attachment { url: "u".to_string() })]), SayRequest::File(u) if u == "u"));
    assert!(matches!(say_request(&vec![opt("message", OptionValue::Boolean(true))]), SayRequest::Nothing));
    assert!(matches!(say_request(&vec![]), SayRequest::Missing));
    assert_eq!(user_error("x"), ":boom: **Mince alors !**\nx");
    let u = user("bob", 5);
    let options = vec![opt("a", OptionValue::Boolean(true)), opt("b", OptionValue::Integer(-3)), opt("c", OptionValue::Role(4))];
    assert_eq!(command_line(&u, "warn", &options), "User bob | bob sent command warn with options a = true, b = -3, c = <@&4>, ");
    assert_eq!(button_line(&u, "x::y::"), "User bob | bob clicked on button x::y::");
    assert_eq!(modal_line(&u, "m"), "User bob | bob sent modal #m");
    assert_eq!(member_line(&u, true), "<@5> `bob | bob` a rejoint le serveur");
    assert_eq!(i64_to_string(i64::MIN), i64::MIN.to_string());
}

#[test]
fn moderation_threads() {
    let mut c = ModoConfig { modo_channel: 0, tickets: std::collections::HashMap::new() };
    assert_eq!(c.check().err().unwrap().msg, "Invalid modo channel id");
    c.modo_channel = 1;
    assert!(c.check().is_ok());
    assert_eq!(c.ticket(5), None);
    c.open_ticket(5, 50);
    c.open_ticket(6, 50);
    assert_eq!(c.ticket(5), Some(50));
    let mut users = c.users_of_thread(50);
    users.sort();
    assert_eq!(users, vec![5, 6]);
    c.forget_ticket(5);
    assert_eq!(c.ticket(5), None);
    assert_eq!(c.ticket(6), Some(50));
    assert_eq!(opening_field(3), "Tu es maintenant en communication directe avec les <@&3>.\nA toi de nous dire ce qui ne va pas.");
    assert_eq!(help_call("bob"), "bob < A l'aide ! 🖐");
    assert_eq!(opening_content(5, 3), "<@5> <@&3>");
    assert_eq!(redirection(9), "Parle avec la modération ici : <#9>");
}

#[test]
fn rules_and_help() {
    let r = ReglementConfig { reglement_channel: 0 };
    assert_eq!(r.check().err().unwrap().msg, "Invalid reglement channel id");
    let r = ReglementConfig { reglement_channel: 4 };
    assert!(r.replaces_rules(4, 1));
    assert!(!r.replaces_rules(4, 0));
    assert!(is_approval("reglement_approval"));
    assert!(!is_approval("other"));
    let commands = vec![
        CommandSummary { name: "a".to_string(), description: Some("A".to_string()), permissions: Some(0b10), kind: Some(CommandKind::ChatInput) },
        CommandSummary { name: "b".to_string(), description: None, permissions: None, kind: Some(CommandKind::User) },
        CommandSummary { name: "c".to_string(), description: None, permissions: None, kind: None },
    ];
    assert_eq!(help_fields(&commands, Some(Some(0b11))).unwrap(), vec![("a".to_string(), "A".to_string()), ("c".to_string(), String::new())]);
    assert_eq!(help_fields(&commands, Some(Some(0b01))).unwrap(), vec![("c".to_string(), String::new())]);
    assert_eq!(help_fields(&commands, None).err().unwrap().msg, "Failed to get member data");
    assert_eq!(help_fields(&commands, Some(None)).err().unwrap().msg, "Failed to get user permissions");
    assert!(help_fields(&vec![], None).unwrap().is_empty());
}

#[test]
fn logger_lines() {
    assert_eq!(log_line(LogLevel::Info, "bidibip", Some(12), "hello", 3).unwrap(), ":green_circle: `bidibip:12` hello");
    assert_eq!(log_line(LogLevel::Error, "t", None, "bad", 3).unwrap(), ":red_circle: `t` <@&3> bad");
    assert!(log_line(LogLevel::Debug, "t", None, "x", 3).is_none());
    let long = "x".repeat(1000);
    assert_eq!(cut_bytes(&long, 900).len(), 900);
    assert_eq!(archived_name("log", "2024-03-05 10:00:00 UTC"), "log_2024-03-05_10-00-00_UTC.log");
    let mut v = FieldMessageVisitor::new();
    v.record_debug("\"msg\"".to_string());
    assert_eq!(v.0, "\"msg\"");
}

#[test]
fn configuration_defaults() {
    let c = Config::default_config();
    assert_eq!(c.token, "PLEASE FILL APP TOKEN FIRST");
    assert_eq!(c.cache_message_size, 10000);
    assert_eq!(c.first_invalid_id(), Some("Invalid application id in config"));
    assert_eq!(module_config_file("warn"), "warn_config.json");
    assert_eq!(new_config_message("c.json"), "Created a new config file at c.json. Please fill in information first");
}

#[test]
fn declared_commands() {
    let p = PermissionData { member_permissions: 1, helper_permissions: 3, administrator_permissions: 7 };
    let u = utilities_commands(&p);
    assert_eq!(u.iter().map(|c| c.name.as_str()).collect::<Vec<_>>(), vec!["modules", "update", "set-module-enabled"]);
    assert_eq!(u[2].options.len(), 2);
    assert_eq!(u[0].default_member_permissions, Some(7));
    assert_eq!(help_commands()[0].name, "help");
    assert_eq!(advertising_commands()[0].description.as_deref(), Some("Créer une annonce d'offre ou de recherche d'emploi"));
    assert_eq!(say_commands(&p)[0].default_member_permissions, Some(1));
}
