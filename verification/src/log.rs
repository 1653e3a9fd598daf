//! The server log: arrivals, departures, and the commands, buttons and modals used.
use vstd::prelude::*;
use crate::discord::{role_mention, role_mention_spec};
use crate::options::{ChannelKind, CommandOption, OptionValue};
use crate::text::{decimal, u64_to_string};
use crate::username::{full_spec, safe_full_spec, Username};

verus! {

/// Name of the log module.
pub fn module_name() -> (r: &'static str)
    ensures
        r@ == "log"@,
{
    "log"
}

/// Description of the log module.
pub fn module_description() -> (r: &'static str)
    ensures
        r@ == "logs du serveur dans un channel dédié"@,
{
    "logs du serveur dans un channel dédié"
}

/// The decimal text of a signed integer.
pub open spec fn signed_decimal(i: int) -> Seq<char> {
    if i < 0 {
        "-"@ + decimal((-i) as nat)
    } else {
        decimal(i as nat)
    }
}

/// Writes a signed integer in decimal.
pub fn i64_to_string(i: i64) -> (r: String)
    ensures
        r@ == signed_decimal(i as int),
{
    if i < 0 {
        let magnitude: u64 = if i == i64::MIN {
            9223372036854775808u64
        } else {
            (-i) as u64
        };
        let mut r = String::new();
        r.append("-");
        let d = u64_to_string(magnitude);
        r.append(d.as_str());
        proof {
            reveal_strlit("-");
        }
        r
    } else {
        u64_to_string(i as u64)
    }
}

/// How the log writes the value of an option.
pub open spec fn option_value_text(v: OptionValue) -> Seq<char> {
    match v {
        OptionValue::Boolean(b) => if b {
            "true"@
        } else {
            "false"@
        },
        OptionValue::Integer(i) => signed_decimal(i as int),
        OptionValue::Number(n) => n@,
        OptionValue::Text(s) => s@,
        OptionValue::Attachment { url } => url@,
        OptionValue::Channel { id: _, kind: _, name } => match name {
            Some(n) => n@,
            None => "Unknown"@,
        },
        OptionValue::Role(r) => role_mention_spec(r),
        OptionValue::User(u) => full_spec(u.id, u.handle@, u.server_name@),
        OptionValue::Unsupported => "?"@,
    }
}

/// The options of a command as the log writes them: `name = value, ` for each.
pub open spec fn options_text(options: Seq<CommandOption>) -> Seq<char>
    decreases options.len(),
{
    if options.len() == 0 {
        Seq::empty()
    } else {
        options_text(options.drop_last()) + options.last().name@ + " = "@ + option_value_text(options.last().value) + ", "@
    }
}

fn value_text(v: &OptionValue) -> (r: String)
    ensures
        r@ == option_value_text(*v),
{
    match v {
        OptionValue::Boolean(b) => if *b {
            "true".to_owned()
        } else {
            "false".to_owned()
        },
        OptionValue::Integer(i) => i64_to_string(*i),
        OptionValue::Number(n) => n.clone(),
        OptionValue::Text(s) => s.clone(),
        OptionValue::Attachment { url } => url.clone(),
        OptionValue::Channel { id: _, kind: _, name } => match name {
            Some(n) => n.clone(),
            None => "Unknown".to_owned(),
        },
        OptionValue::Role(r) => role_mention(*r),
        OptionValue::User(u) => u.full(),
        OptionValue::Unsupported => "?".to_owned(),
    }
}

/// Writes the options of a command as the log shows them.
pub fn options_line(options: &Vec<CommandOption>) -> (r: String)
    ensures
        r@ == options_text(options@),
{
    let mut r = String::new();
    let mut i: usize = 0;
    while i < options.len()
        invariant
            i <= options@.len(),
            r@ == options_text(options@.take(i as int)),
        decreases options@.len() - i,
    {
        r.append(options[i].name.as_str());
        r.append(" = ");
        let v = value_text(&options[i].value);
        r.append(v.as_str());
        r.append(", ");
        proof {
            reveal_strlit(" = ");
            reveal_strlit(", ");
        }
        assert(options@.take(i + 1).drop_last() =~= options@.take(i as int));
        i = i + 1;
        assert(r@ =~= options_text(options@.take(i as int)));
    }
    assert(options@.take(i as int) =~= options@);
    r
}

/// The log line of a command.
pub open spec fn command_line_spec(user: Username, command: Seq<char>, options: Seq<CommandOption>) -> Seq<char> {
    "User "@ + safe_full_spec(user.handle@, user.server_name@) + " sent command "@ + command + " with options "@ + options_text(options)
}

/// The log line of a command.
pub fn command_line(user: &Username, command: &str, options: &Vec<CommandOption>) -> (r: String)
    ensures
        r@ == command_line_spec(*user, command@, options@),
{
    let mut r = String::new();
    r.append("User ");
    let name = user.safe_full();
    r.append(name.as_str());
    r.append(" sent command ");
    r.append(command);
    r.append(" with options ");
    let o = options_line(options);
    r.append(o.as_str());
    proof {
        reveal_strlit("User ");
        reveal_strlit(" sent command ");
        reveal_strlit(" with options ");
    }
    r
}

/// The log line of a button click.
pub open spec fn button_line_spec(user: Username, custom_id: Seq<char>) -> Seq<char> {
    "User "@ + safe_full_spec(user.handle@, user.server_name@) + " clicked on button "@ + custom_id
}

/// The log line of a button click.
pub fn button_line(user: &Username, custom_id: &str) -> (r: String)
    ensures
        r@ == button_line_spec(*user, custom_id@),
{
    let mut r = String::new();
    r.append("User ");
    let name = user.safe_full();
    r.append(name.as_str());
    r.append(" clicked on button ");
    r.append(custom_id);
    proof {
        reveal_strlit("User ");
        reveal_strlit(" clicked on button ");
    }
    r
}

/// The log line of a modal sent.
pub open spec fn modal_line_spec(user: Username, custom_id: Seq<char>) -> Seq<char> {
    "User "@ + safe_full_spec(user.handle@, user.server_name@) + " sent modal #"@ + custom_id
}

/// The log line of a modal sent.
pub fn modal_line(user: &Username, custom_id: &str) -> (r: String)
    ensures
        r@ == modal_line_spec(*user, custom_id@),
{
    let mut r = String::new();
    r.append("User ");
    let name = user.safe_full();
    r.append(name.as_str());
    r.append(" sent modal #");
    r.append(custom_id);
    proof {
        reveal_strlit("User ");
        reveal_strlit(" sent modal #");
    }
    r
}

/// The log line of an arrival (`true`) or a departure (`false`).
pub open spec fn member_line_spec(user: Username, joined: bool) -> Seq<char> {
    full_spec(user.id, user.handle@, user.server_name@) + if joined {
        " a rejoint le serveur"@
    } else {
        " a quitté le serveur"@
    }
}

/// The log line of an arrival (`true`) or a departure (`false`).
pub fn member_line(user: &Username, joined: bool) -> (r: String)
    ensures
        r@ == member_line_spec(*user, joined),
{
    let mut r = user.full();
    if joined {
        r.append(" a rejoint le serveur");
    } else {
        r.append(" a quitté le serveur");
    }
    proof {
        reveal_strlit(" a rejoint le serveur");
        reveal_strlit(" a quitté le serveur");
    }
    r
}

} // verus!
