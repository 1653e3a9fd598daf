//! The lines the logger posts in the log channel, and the names of archived log files.
use vstd::prelude::*;
use vstd::string::StringSliceAdditionalSpecFns;
use crate::discord::{role_mention, role_mention_spec};
use crate::text::{byte_len, decimal, replace_all, replace_str, u64_to_string};

verus! {

/// The level of a log event.
#[derive(PartialEq, Eq, Structural, Clone, Copy, Debug)]
pub enum LogLevel {
    Trace,
    Debug,
    Info,
    Warn,
    Error,
}

/// The message of an event, as the logger records it (its debug rendering).
pub struct FieldMessageVisitor(pub String);

impl FieldMessageVisitor {
    /// No message recorded yet.
    pub fn new() -> (r: FieldMessageVisitor)
        ensures
            r.0@ == Seq::<char>::empty(),
    {
        FieldMessageVisitor(String::new())
    }

    /// Records a field's rendering; the last one recorded is kept.
    pub fn record_debug(&mut self, rendered: String)
        ensures
            final(self).0@ == rendered@,
    {
        self.0 = rendered;
    }
}

/// The first `n` bytes of a text (all of it when shorter), as characters.
pub open spec fn byte_prefix(s: Seq<char>, n: nat) -> Seq<char> {
    let bytes = vstd::utf8::encode_utf8(s);
    vstd::utf8::decode_utf8(bytes.subrange(0, if n < bytes.len() { n as int } else { bytes.len() as int }))
}

/// Whether cutting a text after `n` bytes falls on a character boundary.
pub open spec fn prefix_defined(s: Seq<char>, n: nat) -> bool {
    byte_len(s) > n ==> vstd::utf8::is_char_boundary(vstd::utf8::encode_utf8(s), n as int)
}

/// Whether cutting a text after `n` bytes falls on a character boundary (see `prefix_defined`).
pub fn prefix_is_defined(s: &str, n: usize) -> (r: bool)
    ensures
        r == prefix_defined(s@, n as nat),
{
    let len: usize = s.as_bytes().len();
    proof {
        broadcast use vstd::utf8::group_utf8_lib;
    }
    assert(len == byte_len(s@));
    if len <= n {
        true
    } else {
        let r = s.is_char_boundary(n);
        assert(s.spec_bytes() == vstd::utf8::encode_utf8(s@)) by {
            broadcast use vstd::utf8::group_utf8_lib;
        }
        r
    }
}

/// The first `n` bytes of a text.
pub fn cut_bytes(s: &str, n: usize) -> (r: String)
    requires
        prefix_defined(s@, n as nat),
    ensures
        r@ == byte_prefix(s@, n as nat),
{
    let len: usize = s.as_bytes().len();
    proof {
        broadcast use vstd::utf8::group_utf8_lib;
    }
    assert(len == byte_len(s@));
    let cut: usize = if n < len { n } else { len };
    if cut == len {
        assert(vstd::utf8::encode_utf8(s@).subrange(0, len as int) =~= vstd::utf8::encode_utf8(s@));
        assert(vstd::utf8::decode_utf8(vstd::utf8::encode_utf8(s@)) == s@) by {
            broadcast use vstd::utf8::group_utf8_lib;
        }
        return s.to_owned();
    }
    let (head, _rest) = s.split_at(cut);
    proof {
        broadcast use vstd::utf8::group_utf8_lib;
        assert(head.spec_bytes() == vstd::utf8::encode_utf8(head@));
        assert(vstd::utf8::decode_utf8(vstd::utf8::encode_utf8(head@)) == head@);
    }
    head.to_owned()
}

/// The line the logger posts for an event: a colored mark by level, the target and line in code,
/// for an error the mention of the support role, then the message cut to 900 bytes. Levels below
/// info are not posted.
pub open spec fn log_line_spec(level: LogLevel, target: Seq<char>, line: Option<u32>, message: Seq<char>, support_role: u64) -> Option<Seq<char>> {
    let place = "`"@ + target + match line {
        Some(l) => ":"@ + decimal(l as nat),
        None => Seq::empty(),
    } + "` "@;
    match level {
        LogLevel::Info => Some(":green_circle: "@ + place + byte_prefix(message, 900)),
        LogLevel::Warn => Some(":yellow_circle: "@ + place + byte_prefix(message, 900)),
        LogLevel::Error => Some(":red_circle: "@ + place + role_mention_spec(support_role) + " "@ + byte_prefix(message, 900)),
        _ => None,
    }
}

/// The line the logger posts for an event, if it posts one.
pub fn log_line(level: LogLevel, target: &str, line: Option<u32>, message: &str, support_role: u64) -> (r: Option<String>)
    requires
        prefix_defined(message@, 900),
    ensures
        match r {
            Some(s) => log_line_spec(level, target@, line, message@, support_role) == Some(s@),
            None => log_line_spec(level, target@, line, message@, support_role) is None,
        },
{
    let mark = match level {
        LogLevel::Info => ":green_circle: ",
        LogLevel::Warn => ":yellow_circle: ",
        LogLevel::Error => ":red_circle: ",
        _ => {
            return None;
        },
    };
    let mut r = String::new();
    r.append(mark);
    r.append("`");
    r.append(target);
    match line {
        Some(l) => {
            r.append(":");
            let n = u64_to_string(l as u64);
            r.append(n.as_str());
        },
        None => {},
    }
    r.append("` ");
    if matches!(level, LogLevel::Error) {
        let m = role_mention(support_role);
        r.append(m.as_str());
        r.append(" ");
    }
    let cut = cut_bytes(message, 900);
    r.append(cut.as_str());
    proof {
        reveal_strlit("`");
        reveal_strlit(":");
        reveal_strlit("` ");
        reveal_strlit(" ");
    }
    assert(Some(r@) =~= log_line_spec(level, target@, line, message@, support_role));
    Some(r)
}

/// The name an old log file is archived under: its prefix, then its last write time with `:`
/// turned into `-` and spaces into `_`.
pub open spec fn archived_name_spec(prefix: Seq<char>, time: Seq<char>) -> Seq<char> {
    prefix + "_"@ + replace_all(replace_all(time, ":"@, "-"@), " "@, "_"@) + ".log"@
}

/// The name an old log file is archived under.
pub fn archived_name(prefix: &str, time: &str) -> (r: String)
    ensures
        r@ == archived_name_spec(prefix@, time@),
{
    proof {
        reveal_strlit(":");
        reveal_strlit(" ");
    }
    let a = replace_str(time, ":", "-");
    let b = replace_str(a.as_str(), " ", "_");
    let mut r = String::new();
    r.append(prefix);
    r.append("_");
    r.append(b.as_str());
    r.append(".log");
    proof {
        reveal_strlit("_");
        reveal_strlit(".log");
    }
    r
}

} // verus!
