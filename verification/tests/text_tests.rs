use bidibip::text::{
    parse_u64, replace_str, split_whitespace, truncate_str, truncation_is_defined, u64_to_string, TruncateText,
};
use bidibip::custom_id::{get_custom_id_action, get_custom_id_data, make_custom_id};
use bidibip::button_id::{is_id_zero, ButtonId, ButtonIds};
use bidibip::discord::{channel_mention, message_link, role_mention, user_mention, MessageReference};
use bidibip::username::Username;
use bidibip::error::{BidibipError, ResultDebug};

fn chars(s: &str) -> Vec<char> {
    s.chars().collect()
}

#[test]
fn truncate_keeps_short_text() {
    assert_eq!(truncate_str("abc", 10), "abc");
    assert_eq!(truncate_str("abcdefghij", 10), "abcdefghij");
}

#[test]
fn truncate_cuts_long_text_with_dots() {
    assert_eq!(truncate_str("abcdefghij", 6), "abcd..");
    assert_eq!("hello world".truncate_text(7), "hello..");
    assert_eq!(String::from("hello world").truncate_text(7), "hello..");
}

#[test]
fn truncation_check_follows_char_boundaries() {
    // "é" takes two bytes: a cut after one byte would split it.
    assert!(!truncation_is_defined("éé", 3));
    assert!(truncation_is_defined("éé", 4));
    assert!(truncation_is_defined("ééé", 4));
    assert_eq!(truncate_str("ééé", 4), "é..");
    assert!(!truncation_is_defined("abc", 1));
}

#[test]
fn parse_reads_like_from_str() {
    assert_eq!(parse_u64(&chars("123")), Some(123));
    assert_eq!(parse_u64(&chars("+7")), Some(7));
    assert_eq!(parse_u64(&chars("")), None);
    assert_eq!(parse_u64(&chars("+")), None);
    assert_eq!(parse_u64(&chars("12a")), None);
    assert_eq!(parse_u64(&chars("18446744073709551615")), Some(u64::MAX));
    assert_eq!(parse_u64(&chars("18446744073709551616")), None);
}

#[test]
fn decimal_text_then_parse_gives_back_the_number() {
    for n in [0u64, 9, 10, 12345, u64::MAX] {
        let text = u64_to_string(n);
        assert_eq!(text, n.to_string());
        assert_eq!(parse_u64(&chars(&text)), Some(n));
    }
}

#[test]
fn replace_works_left_to_right() {
    assert_eq!(replace_str("a{user}b{user}", "{user}", "X"), "aXbX");
    assert_eq!(replace_str("aaa", "aa", "b"), "ba");
    assert_eq!(replace_str("none here", "{user}", "X"), "none here");
    assert_eq!(replace_str("12:30:00 UTC", ":", "-"), "12-30-00 UTC");
}

#[test]
fn split_whitespace_gives_words() {
    let words: Vec<String> = split_whitespace(&chars("  a bb\tccc \n")).into_iter().map(|w| w.into_iter().collect()).collect();
    assert_eq!(words, vec!["a", "bb", "ccc"]);
}

#[test]
fn custom_id_round_trip() {
    let id = make_custom_id("repost", "vote-yes", "42");
    assert_eq!(id, "repost::vote-yes::42");
    assert_eq!(get_custom_id_data(&id, "repost", "vote-yes"), Some("42".to_string()));
    assert_eq!(get_custom_id_data(&id, "repost", "vote-no"), None);
    assert_eq!(get_custom_id_data(&id, "warn", "vote-yes"), None);
    assert_eq!(get_custom_id_action(&id, "repost"), Some(("vote-yes".to_string(), "42".to_string())));
    assert_eq!(get_custom_id_action("repost::only", "repost"), Some(("only".to_string(), String::new())));
    assert_eq!(get_custom_id_action("repost", "repost"), None);
}

#[test]
fn button_ids_reuse_freed_ids() {
    let mut ids = ButtonIds::new();
    let mut a = ButtonId::new(&mut ids);
    let b = ButtonId::new(&mut ids);
    assert_eq!(a.raw(), 1);
    assert_eq!(b.raw(), 2);
    a.free(&mut ids);
    assert_eq!(a.raw(), 0);
    assert!(is_id_zero(&a.raw()));
    let c = ButtonId::new(&mut ids);
    assert_eq!(c.raw(), 1);
    let d = ButtonId::new(&mut ids);
    assert_eq!(d.raw(), 3);
    assert_eq!(ButtonId::from_raw(12).custom_id("advertising"), "advertising::12::");
}

#[test]
fn mentions_and_links() {
    assert_eq!(user_mention(5), "<@5>");
    assert_eq!(role_mention(6), "<@&6>");
    assert_eq!(channel_mention(7), "<#7>");
    assert_eq!(message_link(3, 2, Some(1)), "https://discord.com/channels/1/2/3");
    assert_eq!(message_link(3, 2, None), "https://discord.com/channels/@me/2/3");
    let m = MessageReference::new(10, 20);
    assert_eq!((m.id(), m.channel()), (10, 20));
}

#[test]
fn usernames() {
    let u = Username::from_user("bob", Some(42), Some("Bobby"), 9);
    assert_eq!(u.safe_full(), "Bobby | bob#42");
    assert_eq!(u.full(), "<@9> `Bobby | bob#42`");
    let v = Username::from_user("alice", None, None, 8);
    assert_eq!(v.safe_full(), "alice | alice");
    assert_eq!(v.id(), 8);
}

#[test]
fn errors_and_results() {
    let e = BidibipError::msg("boom");
    assert_eq!(e.message(), "boom");
    let ok: Result<u8, String> = Ok(1);
    let err: Result<u8, String> = Err("x".to_string());
    assert!(ok.on_fail("never"));
    assert!(!err.on_fail("logged"));
}
