//! The say command: the bot posts a text, or the messages described in a JSON file.
use vstd::prelude::*;
use crate::options::{find_option, option_index, CommandOption, OptionValue};

verus! {

/// Name of the say module.
pub fn module_name() -> (r: &'static str)
    ensures
        r@ == "say"@,
{
    "say"
}

/// Description of the say module.
pub fn module_description() -> (r: &'static str)
    ensures
        r@ == "Fait parler bidibip"@,
{
    "Fait parler bidibip"
}

/// What the say command was asked.
pub enum SayRequest {
    /// Post this text.
    Text(String),
    /// Post the messages described in the file at this URL.
    File(String),
    /// An option was given with a value of another type: nothing is done.
    Nothing,
    /// Neither option was given: the user is told.
    Missing,
}

/// What the say command was asked: the `message` option first, else the `fichier` option.
pub open spec fn say_request_spec(options: Seq<CommandOption>) -> (int, Seq<char>) {
    match option_index(options, "message"@) {
        Some(i) => match options[i].value {
            OptionValue::Text(s) => (0, s@),
            _ => (2, Seq::empty()),
        },
        None => match option_index(options, "fichier"@) {
            Some(i) => match options[i].value {
                OptionValue::Attachment { url } => (1, url@),
                _ => (2, Seq::empty()),
            },
            None => (3, Seq::empty()),
        },
    }
}

/// What the say command was asked.
pub fn say_request(options: &Vec<CommandOption>) -> (r: SayRequest)
    ensures
        match r {
            SayRequest::Text(s) => say_request_spec(options@) == (0int, s@),
            SayRequest::File(u) => say_request_spec(options@) == (1int, u@),
            SayRequest::Nothing => say_request_spec(options@).0 == 2,
            SayRequest::Missing => say_request_spec(options@).0 == 3,
        },
{
    match find_option(options, "message") {
        Some(v) => match v {
            OptionValue::Text(s) => SayRequest::Text(s.clone()),
            _ => SayRequest::Nothing,
        },
        None => match find_option(options, "fichier") {
            Some(v) => match v {
                OptionValue::Attachment { url } => SayRequest::File(url.clone()),
                _ => SayRequest::Nothing,
            },
            None => SayRequest::Missing,
        },
    }
}

/// The answer that reports a mistake of the user.
pub open spec fn user_error_spec(message: Seq<char>) -> Seq<char> {
    ":boom: **Mince alors !**\n"@ + message
}

/// The answer that reports a mistake of the user.
pub fn user_error(message: &str) -> (r: String)
    ensures
        r@ == user_error_spec(message@),
{
    let mut r = String::new();
    r.append(":boom: **Mince alors !**\n");
    r.append(message);
    proof {
        reveal_strlit(":boom: **Mince alors !**\n");
    }
    r
}

/// What the say command answers when neither option was given.
pub fn missing_text() -> (r: &'static str)
    ensures
        r@ == "Tu n'as pas précisé ce que je dois annoncer !"@,
{
    "Tu n'as pas précisé ce que je dois annoncer !"
}

} // verus!
