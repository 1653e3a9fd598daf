//! The messages that greet arriving members and see leaving ones off.
use vstd::prelude::*;
use rand::seq::IndexedRandom;
use crate::discord::{channel_mention, channel_mention_spec, user_mention, user_mention_spec};
use crate::text::{replace_all, replace_str};

verus! {

/// Name of the welcome module.
pub fn module_name() -> (r: &'static str)
    ensures
        r@ == "welcome"@,
{
    "welcome"
}

/// Description of the welcome module.
pub fn module_description() -> (r: &'static str)
    ensures
        r@ == "messages de bienvenue et de départ"@,
{
    "messages de bienvenue et de départ"
}

/// What the welcome module keeps: where to greet, where to see off, the rules channel, and the
/// sentences to pick from.
pub struct WelcomeConfig {
    pub join_channel: u64,
    pub leave_channel: u64,
    pub reglement_channel: u64,
    pub welcome_messages: Vec<String>,
    pub leave_messages: Vec<String>,
}

/// Picks one of the sentences at random: `messages.choose(&mut rand::rng())` (rand), cloned. The
/// contract states what holds of every outcome: nothing when there is no sentence, else one of
/// them; which one is left to chance.
#[verifier::external_body]
fn pick_sentence(messages: &Vec<String>) -> (r: Option<String>)
    ensures
        r is None <==> messages@.len() == 0,
        r matches Some(s) ==> exists|i: int| 0 <= i < messages@.len() && messages@[i]@ == s@,
{
    match messages.choose(&mut rand::rng()) {
        Some(s) => Some(s.clone()),
        None => None,
    }
}

/// The greeting built from a sentence (or the default one): the reminder of the rules is added,
/// then `{user}` becomes the member's mention and `{reglement}` the rules channel's.
pub open spec fn welcome_text_spec(sentence: Option<Seq<char>>, user: u64, reglement_channel: u64) -> Seq<char> {
    let base = match sentence {
        Some(s) => s,
        None => "Bienvenue parmi nous {} :wave: !"@,
    };
    replace_all(
        replace_all(base + "\n> N'oublies pas de lire le {reglement} pour accéder au serveur."@, "{user}"@, user_mention_spec(user)),
        "{reglement}"@,
        channel_mention_spec(reglement_channel),
    )
}

/// The farewell built from a sentence (or the default one): `{user}` becomes the member's mention.
pub open spec fn leave_text_spec(sentence: Option<Seq<char>>, user: u64) -> Seq<char> {
    let base = match sentence {
        Some(s) => s,
        None => "{} nous a quitté !"@,
    };
    replace_all(base, "{user}"@, user_mention_spec(user))
}

/// The greeting built from a sentence (or the default one).
pub fn welcome_text(sentence: Option<String>, user: u64, reglement_channel: u64) -> (r: String)
    ensures
        r@ == welcome_text_spec(
            match sentence {
                Some(s) => Some(s@),
                None => None,
            },
            user,
            reglement_channel,
        ),
{
    let mut text = match sentence {
        Some(s) => s,
        None => "Bienvenue parmi nous {} :wave: !".to_owned(),
    };
    text.append("\n> N'oublies pas de lire le {reglement} pour accéder au serveur.");
    proof {
        reveal_strlit("{user}");
        reveal_strlit("{reglement}");
    }
    let mention = user_mention(user);
    let with_user = replace_str(text.as_str(), "{user}", mention.as_str());
    let channel = channel_mention(reglement_channel);
    replace_str(with_user.as_str(), "{reglement}", channel.as_str())
}

/// The farewell built from a sentence (or the default one).
pub fn leave_text(sentence: Option<String>, user: u64) -> (r: String)
    ensures
        r@ == leave_text_spec(
            match sentence {
                Some(s) => Some(s@),
                None => None,
            },
            user,
        ),
{
    let text = match sentence {
        Some(s) => s,
        None => "{} nous a quitté !".to_owned(),
    };
    proof {
        reveal_strlit("{user}");
    }
    let mention = user_mention(user);
    replace_str(text.as_str(), "{user}", mention.as_str())
}

impl WelcomeConfig {
    /// The greeting of an arriving member, from a sentence picked at random among the configured
    /// ones (the default one when none is configured).
    pub fn welcome_message(&self, user: u64) -> (r: String)
        ensures
            self.welcome_messages@.len() == 0 ==> r@ == welcome_text_spec(None, user, self.reglement_channel),
            self.welcome_messages@.len() > 0 ==> exists|i: int| 0 <= i < self.welcome_messages@.len() && r@ == welcome_text_spec(
                Some(self.welcome_messages@[i]@),
                user,
                self.reglement_channel,
            ),
    {
        let sentence = pick_sentence(&self.welcome_messages);
        welcome_text(sentence, user, self.reglement_channel)
    }

    /// The farewell of a leaving member, from a sentence picked at random among the configured ones
    /// (the default one when none is configured).
    pub fn leave_message(&self, user: u64) -> (r: String)
        ensures
            self.leave_messages@.len() == 0 ==> r@ == leave_text_spec(None, user),
            self.leave_messages@.len() > 0 ==> exists|i: int| 0 <= i < self.leave_messages@.len() && r@ == leave_text_spec(
                Some(self.leave_messages@[i]@),
                user,
            ),
    {
        let sentence = pick_sentence(&self.leave_messages);
        leave_text(sentence, user)
    }
}

} // verus!
