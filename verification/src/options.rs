//! The options of a slash command, as plain values.
use vstd::prelude::*;
use crate::custom_id::chars_equal;
use crate::text::chars_of;
use crate::username::Username;

verus! {

/// The kinds of channel that the bot tells apart.
#[derive(PartialEq, Eq, Structural, Clone, Copy, Debug)]
pub enum ChannelKind {
    Text,
    Forum,
    PublicThread,
    PrivateThread,
    Other,
}

/// The value given for one option of a command.
pub enum OptionValue {
    Boolean(bool),
    Integer(i64),
    /// A floating-point number, as the client rendered it.
    Number(String),
    Text(String),
    Attachment { url: String },
    Channel { id: u64, kind: ChannelKind, name: Option<String> },
    Role(u64),
    User(Username),
    Unsupported,
}

/// One option of a command: its name and its value.
pub struct CommandOption {
    pub name: String,
    pub value: OptionValue,
}

/// The position of the first option with the given name.
pub open spec fn option_index(options: Seq<CommandOption>, name: Seq<char>) -> Option<int>
    decreases options.len(),
{
    if options.len() == 0 {
        None
    } else if options[0].name@ == name {
        Some(0)
    } else {
        match option_index(options.drop_first(), name) {
            Some(i) => Some(i + 1),
            None => None,
        }
    }
}

proof fn lemma_option_index_bounds(options: Seq<CommandOption>, name: Seq<char>)
    ensures
        option_index(options, name) matches Some(i) ==> 0 <= i < options.len() && options[i].name@ == name,
    decreases options.len(),
{
    if options.len() > 0 && options[0].name@ != name {
        lemma_option_index_bounds(options.drop_first(), name);
    }
}

/// The first option with the given name, as `OptionHelper::find` looks it up.
pub fn find_option<'a>(options: &'a Vec<CommandOption>, name: &str) -> (r: Option<&'a OptionValue>)
    ensures
        r is Some <==> option_index(options@, name@) is Some,
        r matches Some(v) ==> *v == options@[option_index(options@, name@)->0].value,
{
    let wanted = chars_of(name);
    let mut i: usize = 0;
    assert(options@.skip(0) =~= options@);
    while i < options.len()
        invariant
            i <= options@.len(),
            wanted@ == name@,
            option_index(options@, name@) == (match option_index(options@.skip(i as int), name@) {
                Some(k) => Some(k + i),
                None => None,
            }),
        decreases options@.len() - i,
    {
        let ghost rest = options@.skip(i as int);
        assert(rest[0] == options@[i as int]);
        assert(rest.drop_first() =~= options@.skip(i + 1));
        let candidate = chars_of(options[i].name.as_str());
        if chars_equal(&candidate, &wanted) {
            proof {
                lemma_option_index_bounds(options@, name@);
            }
            return Some(&options[i].value);
        }
        i = i + 1;
    }
    assert(options@.skip(i as int) =~= Seq::<CommandOption>::empty());
    None
}

} // verus!
