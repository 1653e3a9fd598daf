//! Discord ids, mentions and message links as plain values.
use vstd::prelude::*;
use crate::text::{decimal, u64_to_string};

verus! {

/// Where a message stands: its id and the id of its channel.
#[derive(Clone, Copy, PartialEq, Eq, Structural, Debug, Default, Hash)]
pub struct MessageReference {
    pub id: u64,
    pub channel: u64,
}

impl MessageReference {
    /// A reference to the message `id` in `channel`.
    pub fn new(id: u64, channel: u64) -> (r: MessageReference)
        ensures
            r.id == id,
            r.channel == channel,
    {
        MessageReference { id, channel }
    }

    /// The message id.
    pub fn id(&self) -> (r: u64)
        ensures
            r == self.id,
    {
        self.id
    }

    /// The channel id.
    pub fn channel(&self) -> (r: u64)
        ensures
            r == self.channel,
    {
        self.channel
    }
}

/// How Discord writes a mention of a user: `<@id>`.
pub open spec fn user_mention_spec(id: u64) -> Seq<char> {
    seq!['<', '@'] + decimal(id as nat) + seq!['>']
}

/// How Discord writes a mention of a role: `<@&id>`.
pub open spec fn role_mention_spec(id: u64) -> Seq<char> {
    seq!['<', '@', '&'] + decimal(id as nat) + seq!['>']
}

/// How Discord writes a mention of a channel: `<#id>`.
pub open spec fn channel_mention_spec(id: u64) -> Seq<char> {
    seq!['<', '#'] + decimal(id as nat) + seq!['>']
}

/// The mention of a user.
pub fn user_mention(id: u64) -> (r: String)
    ensures
        r@ == user_mention_spec(id),
{
    let mut r = String::new();
    r.append("<@");
    r.append(u64_to_string(id).as_str());
    r.append(">");
    proof {
        reveal_strlit("<@");
        reveal_strlit(">");
    }
    assert(r@ =~= user_mention_spec(id));
    r
}

/// The mention of a role.
pub fn role_mention(id: u64) -> (r: String)
    ensures
        r@ == role_mention_spec(id),
{
    let mut r = String::new();
    r.append("<@&");
    r.append(u64_to_string(id).as_str());
    r.append(">");
    proof {
        reveal_strlit("<@&");
        reveal_strlit(">");
    }
    assert(r@ =~= role_mention_spec(id));
    r
}

/// The mention of a channel.
pub fn channel_mention(id: u64) -> (r: String)
    ensures
        r@ == channel_mention_spec(id),
{
    let mut r = String::new();
    r.append("<#");
    r.append(u64_to_string(id).as_str());
    r.append(">");
    proof {
        reveal_strlit("<#");
        reveal_strlit(">");
    }
    assert(r@ =~= channel_mention_spec(id));
    r
}

/// The web link of a message: `https://discord.com/channels/{guild or @me}/{channel}/{message}`.
pub open spec fn message_link_spec(message: u64, channel: u64, guild: Option<u64>) -> Seq<char> {
    "https://discord.com/channels/"@ + (match guild {
        Some(g) => decimal(g as nat),
        None => "@me"@,
    }) + "/"@ + decimal(channel as nat) + "/"@ + decimal(message as nat)
}

/// The web link of a message, as Discord shows it.
pub fn message_link(message: u64, channel: u64, guild: Option<u64>) -> (r: String)
    ensures
        r@ == message_link_spec(message, channel, guild),
{
    let mut r = String::new();
    r.append("https://discord.com/channels/");
    match guild {
        Some(g) => r.append(u64_to_string(g).as_str()),
        None => r.append("@me"),
    }
    r.append("/");
    r.append(u64_to_string(channel).as_str());
    r.append("/");
    r.append(u64_to_string(message).as_str());
    assert(r@ =~= message_link_spec(message, channel, guild));
    r
}

} // verus!
