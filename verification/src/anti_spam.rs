//! Detection of a message copied across channels in a short time, and the moderators' answer to it.
use vstd::prelude::*;
use std::collections::HashMap;
use crate::button_id::{ButtonId, ButtonIds};
use crate::custom_id::chars_equal;
use crate::discord::{user_mention, user_mention_spec, MessageReference};
use crate::text::chars_of;

verus! {

/// Name of the anti-spam module, used in its buttons' custom ids.
pub fn module_name() -> (r: &'static str)
    ensures
        r@ == "anti-spam"@,
{
    "anti-spam"
}

/// Description of the anti-spam module.
pub fn module_description() -> (r: &'static str)
    ensures
        r@ == "Protection contre les spams potentiels"@,
{
    "Protection contre les spams potentiels"
}

/// One sending of the repeated text: when (nanoseconds since the epoch) and where.
#[derive(Clone, Copy)]
pub struct Occurrence {
    pub time_ns: i64,
    pub message: MessageReference,
}

/// What the bot remembers of a user's last text.
pub struct LastMessage {
    pub content: String,
    pub occurrences: Vec<Occurrence>,
    pub warned: bool,
}

/// The mathematical form of a user's last text record.
pub struct LastMessageView {
    pub content: Seq<char>,
    pub occurrences: Seq<Occurrence>,
    pub warned: bool,
}

impl View for LastMessage {
    type V = LastMessageView;

    open spec fn view(&self) -> LastMessageView {
        LastMessageView { content: self.content@, occurrences: self.occurrences@, warned: self.warned }
    }
}

impl LastMessage {
    /// The record of a user who has sent nothing yet.
    pub fn empty() -> (r: LastMessage)
        ensures
            r@.content == Seq::<char>::empty(),
            r@.occurrences == Seq::<Occurrence>::empty(),
            !r@.warned,
    {
        LastMessage { content: String::new(), occurrences: Vec::new(), warned: false }
    }
}

/// The anti-spam settings.
pub struct AntiSpamConfig {
    pub min_occurrences: usize,
    pub max_delay_ms: i64,
    pub mute_role: u64,
    pub moderation_channel: u64,
}

impl AntiSpamConfig {
    /// The settings a fresh configuration file holds: 3 copies within 60 seconds.
    pub fn default_config() -> (r: AntiSpamConfig)
        ensures
            r.min_occurrences == 3,
            r.max_delay_ms == 60000,
            r.mute_role == 0,
            r.moderation_channel == 0,
    {
        AntiSpamConfig { min_occurrences: 3, max_delay_ms: 60000, mute_role: 0, moderation_channel: 0 }
    }
}

/// What the bot decides on a new message.
pub enum SpamDecision {
    /// The same text was already seen in this channel: nothing changes.
    SameChannel,
    /// The user is flagged already for this text: nothing changes.
    AlreadyWarned,
    /// The message is remembered; no action.
    Recorded,
    /// The user is flagged: mute them, alert the moderators and delete these messages,
    /// then record the new message.
    Flag { spam_messages: Vec<MessageReference> },
}

/// The earlier sendings of the text that are recent enough to count, oldest first.
pub open spec fn recent_messages(occ: Seq<Occurrence>, now_ns: i64, max_delay_ms: i64) -> Seq<MessageReference>
    decreases occ.len(),
{
    if occ.len() == 0 {
        Seq::empty()
    } else {
        let last = occ.last();
        let rest = recent_messages(occ.drop_last(), now_ns, max_delay_ms);
        if (now_ns as int) - (last.time_ns as int) < (max_delay_ms as int) * 1_000_000 {
            rest.push(last.message)
        } else {
            rest
        }
    }
}

/// Whether the text was already sent in the given channel.
pub open spec fn seen_in_channel(occ: Seq<Occurrence>, channel: u64) -> bool {
    exists|i: int| 0 <= i < occ.len() && (#[trigger] occ[i]).message.channel == channel
}

/// The decision on a new message, as a label.
pub enum SpamOutcome {
    SameChannel,
    AlreadyWarned,
    Recorded,
    Flag(Seq<MessageReference>),
}

/// How a user's record changes on a new message, and what is decided.
pub open spec fn spam_step(
    entry: LastMessageView,
    content: Seq<char>,
    msg: MessageReference,
    now_ns: i64,
    min_occurrences: usize,
    max_delay_ms: i64,
) -> (LastMessageView, SpamOutcome) {
    let fresh = Occurrence { time_ns: now_ns, message: msg };
    if entry.content == content {
        if seen_in_channel(entry.occurrences, msg.channel) {
            (entry, SpamOutcome::SameChannel)
        } else {
            let spam = recent_messages(entry.occurrences, now_ns, max_delay_ms);
            if spam.len() >= min_occurrences {
                if entry.warned {
                    (entry, SpamOutcome::AlreadyWarned)
                } else {
                    (LastMessageView { warned: true, ..entry }, SpamOutcome::Flag(spam))
                }
            } else {
                (LastMessageView { occurrences: entry.occurrences.push(fresh), ..entry }, SpamOutcome::Recorded)
            }
        }
    } else {
        (LastMessageView { content, occurrences: seq![fresh], warned: false }, SpamOutcome::Recorded)
    }
}

/// The label of a decision.
pub open spec fn outcome_of(d: SpamDecision) -> SpamOutcome {
    match d {
        SpamDecision::SameChannel => SpamOutcome::SameChannel,
        SpamDecision::AlreadyWarned => SpamOutcome::AlreadyWarned,
        SpamDecision::Recorded => SpamOutcome::Recorded,
        SpamDecision::Flag { spam_messages } => SpamOutcome::Flag(spam_messages@),
    }
}

fn is_seen_in_channel(occ: &Vec<Occurrence>, channel: u64) -> (r: bool)
    ensures
        r == seen_in_channel(occ@, channel),
{
    let mut i: usize = 0;
    while i < occ.len()
        invariant
            i <= occ@.len(),
            forall|j: int| 0 <= j < i ==> (#[trigger] occ@[j]).message.channel != channel,
        decreases occ@.len() - i,
    {
        if occ[i].message.channel == channel {
            assert(occ@[i as int].message.channel == channel);
            return true;
        }
        i = i + 1;
    }
    false
}

fn collect_recent(occ: &Vec<Occurrence>, now_ns: i64, max_delay_ms: i64) -> (r: Vec<MessageReference>)
    ensures
        r@ == recent_messages(occ@, now_ns, max_delay_ms),
{
    let mut r: Vec<MessageReference> = Vec::new();
    let mut i: usize = 0;
    let bound: i128 = (max_delay_ms as i128) * 1_000_000;
    while i < occ.len()
        invariant
            i <= occ@.len(),
            bound == (max_delay_ms as int) * 1_000_000,
            r@ == recent_messages(occ@.take(i as int), now_ns, max_delay_ms),
        decreases occ@.len() - i,
    {
        let o = occ[i];
        assert(occ@.take(i + 1).drop_last() =~= occ@.take(i as int));
        assert(occ@.take(i + 1).last() == o);
        let elapsed: i128 = (now_ns as i128) - (o.time_ns as i128);
        if elapsed < bound {
            r.push(o.message);
        }
        i = i + 1;
    }
    assert(occ@.take(i as int) =~= occ@);
    r
}

/// Applies a new message to a user's record and decides what to do.
pub fn spam_decide(
    entry: &mut LastMessage,
    content: &str,
    msg: MessageReference,
    now_ns: i64,
    config: &AntiSpamConfig,
) -> (d: SpamDecision)
    ensures
        (final(entry)@, outcome_of(d)) == spam_step(
            old(entry)@,
            content@,
            msg,
            now_ns,
            config.min_occurrences,
            config.max_delay_ms,
        ),
{
    let fresh = Occurrence { time_ns: now_ns, message: msg };
    let a = chars_of(entry.content.as_str());
    let b = chars_of(content);
    if chars_equal(&a, &b) {
        if is_seen_in_channel(&entry.occurrences, msg.channel) {
            return SpamDecision::SameChannel;
        }
        let spam = collect_recent(&entry.occurrences, now_ns, config.max_delay_ms);
        if spam.len() >= config.min_occurrences {
            if entry.warned {
                return SpamDecision::AlreadyWarned;
            }
            entry.warned = true;
            SpamDecision::Flag { spam_messages: spam }
        } else {
            entry.occurrences.push(fresh);
            SpamDecision::Recorded
        }
    } else {
        entry.content = content.to_owned();
        entry.occurrences = Vec::new();
        entry.occurrences.push(fresh);
        entry.warned = false;
        assert(entry.occurrences@ =~= seq![fresh]);
        SpamDecision::Recorded
    }
}

/// Records the message that got its author flagged, once the moderators were alerted.
pub fn record_occurrence(entry: &mut LastMessage, msg: MessageReference, now_ns: i64)
    ensures
        final(entry)@.content == old(entry)@.content,
        final(entry)@.warned == old(entry)@.warned,
        final(entry)@.occurrences == old(entry)@.occurrences.push(Occurrence { time_ns: now_ns, message: msg }),
{
    entry.occurrences.push(Occurrence { time_ns: now_ns, message: msg });
}

/// A flagged user is not flagged again for the same text: while the text stays the same,
/// every further message is ignored or recorded, and the user stays flagged.
pub proof fn lemma_flag_once(
    entry: LastMessageView,
    content: Seq<char>,
    msg: MessageReference,
    now_ns: i64,
    min_occurrences: usize,
    max_delay_ms: i64,
)
    requires
        entry.warned,
        entry.content == content,
    ensures
        !(spam_step(entry, content, msg, now_ns, min_occurrences, max_delay_ms).1 is Flag),
        spam_step(entry, content, msg, now_ns, min_occurrences, max_delay_ms).0.warned,
        spam_step(entry, content, msg, now_ns, min_occurrences, max_delay_ms).0.content == content,
{
}

/// A message in a channel where its text was already seen changes nothing and flags nobody.
pub proof fn lemma_same_channel_ignored(
    entry: LastMessageView,
    msg: MessageReference,
    now_ns: i64,
    min_occurrences: usize,
    max_delay_ms: i64,
)
    requires
        seen_in_channel(entry.occurrences, msg.channel),
    ensures
        spam_step(entry, entry.content, msg, now_ns, min_occurrences, max_delay_ms) == (entry, SpamOutcome::SameChannel),
{
}

/// A message in a channel where any earlier copy of the same text was sent (not only the first one)
/// changes nothing and flags nobody.
pub proof fn lemma_repeat_in_any_used_channel(
    entry: LastMessageView,
    msg: MessageReference,
    now_ns: i64,
    min_occurrences: usize,
    max_delay_ms: i64,
    i: int,
)
    requires
        0 <= i < entry.occurrences.len(),
        entry.occurrences[i].message.channel == msg.channel,
    ensures
        spam_step(entry, entry.content, msg, now_ns, min_occurrences, max_delay_ms) == (entry, SpamOutcome::SameChannel),
{
    assert(entry.occurrences[i].message.channel == msg.channel);
}

/// Once a text is recorded in a channel `a` and then in a channel `b`, the same text sent again in
/// `b` is ignored: it is not recorded and nobody is flagged.
pub proof fn lemma_recorded_channels_are_remembered(
    entry: LastMessageView,
    content: Seq<char>,
    first: MessageReference,
    second: MessageReference,
    third: MessageReference,
    t1: i64,
    t2: i64,
    t3: i64,
    min_occurrences: usize,
    max_delay_ms: i64,
)
    requires
        spam_step(entry, content, first, t1, min_occurrences, max_delay_ms).1 == SpamOutcome::Recorded,
        spam_step(spam_step(entry, content, first, t1, min_occurrences, max_delay_ms).0, content, second, t2, min_occurrences, max_delay_ms).1
            == SpamOutcome::Recorded,
        third.channel == second.channel,
    ensures
        ({
            let e1 = spam_step(entry, content, first, t1, min_occurrences, max_delay_ms).0;
            let e2 = spam_step(e1, content, second, t2, min_occurrences, max_delay_ms).0;
            spam_step(e2, content, third, t3, min_occurrences, max_delay_ms) == (e2, SpamOutcome::SameChannel)
        }),
{
    let e1 = spam_step(entry, content, first, t1, min_occurrences, max_delay_ms).0;
    let e2 = spam_step(e1, content, second, t2, min_occurrences, max_delay_ms).0;
    assert(e1.content == content);
    assert(e2.content == content);
    let k = e2.occurrences.len() - 1;
    assert(e2.occurrences[k].message == second);
    assert(e2.occurrences[k].message.channel == third.channel);
}

/// A new text starts the record over: only the new message is remembered and the user is not flagged.
pub proof fn lemma_new_text_resets(
    entry: LastMessageView,
    content: Seq<char>,
    msg: MessageReference,
    now_ns: i64,
    min_occurrences: usize,
    max_delay_ms: i64,
)
    requires
        entry.content != content,
    ensures
        spam_step(entry, content, msg, now_ns, min_occurrences, max_delay_ms).0 == (LastMessageView {
            content,
            occurrences: seq![Occurrence { time_ns: now_ns, message: msg }],
            warned: false,
        }),
        spam_step(entry, content, msg, now_ns, min_occurrences, max_delay_ms).1 is Recorded,
{
}

/// The text that alerts the moderators: `@everyone Spam potentiel de <@user> : `text``.
pub open spec fn spam_alert_spec(author: u64, content: Seq<char>) -> Seq<char> {
    "@everyone Spam potentiel de "@ + user_mention_spec(author) + " : `"@ + content + "`"@
}

/// The text that alerts the moderators.
pub fn spam_alert_text(author: u64, content: &str) -> (r: String)
    ensures
        r@ == spam_alert_spec(author, content@),
{
    let mut r = String::new();
    r.append("@everyone Spam potentiel de ");
    r.append(user_mention(author).as_str());
    r.append(" : `");
    r.append(content);
    r.append("`");
    assert(r@ =~= spam_alert_spec(author, content@));
    r
}

/// The buttons of one alert and the user it is about.
pub struct SpammerContext {
    pub kick_button: ButtonId,
    pub pardon_button: ButtonId,
    pub spammer: u64,
}

/// What a moderator decided about a flagged user.
#[derive(PartialEq, Eq, Structural, Clone, Copy)]
pub enum SpamVerdict {
    Kick,
    Pardon,
}

/// Which of the alert's buttons a click hit, if any.
pub fn spam_verdict(ctx: &SpammerContext, custom_id: &str) -> (r: Option<SpamVerdict>)
    ensures
        r == (if custom_id@ == crate::custom_id::custom_id_spec("anti-spam"@, crate::text::decimal(ctx.kick_button.id as nat), Seq::<char>::empty()) {
            Some(SpamVerdict::Kick)
        } else if custom_id@ == crate::custom_id::custom_id_spec("anti-spam"@, crate::text::decimal(ctx.pardon_button.id as nat), Seq::<char>::empty()) {
            Some(SpamVerdict::Pardon)
        } else {
            None
        }),
{
    let clicked = chars_of(custom_id);
    let kick = chars_of(ctx.kick_button.custom_id(module_name()).as_str());
    if chars_equal(&kick, &clicked) {
        return Some(SpamVerdict::Kick);
    }
    let pardon = chars_of(ctx.pardon_button.custom_id(module_name()).as_str());
    if chars_equal(&pardon, &clicked) {
        return Some(SpamVerdict::Pardon);
    }
    None
}

/// The anti-spam module's state: each user's last text, the settings and the open alerts,
/// keyed by the id of the alert message.
pub struct AntiSpam {
    pub history: HashMap<u64, LastMessage>,
    pub config: AntiSpamConfig,
    pub spammers: HashMap<u64, SpammerContext>,
}

impl AntiSpam {
    /// Handles a new message of `author`: the author's record changes as `spam_step` says.
    pub fn message(&mut self, author: u64, content: &str, msg: MessageReference, now_ns: i64) -> (d: SpamDecision)
        ensures
            ({
                let before = if old(self).history@.contains_key(author) {
                    old(self).history@[author]@
                } else {
                    LastMessageView { content: Seq::empty(), occurrences: Seq::empty(), warned: false }
                };
                let step = spam_step(before, content@, msg, now_ns, old(self).config.min_occurrences, old(self).config.max_delay_ms);
                &&& final(self).history@.contains_key(author)
                &&& final(self).history@[author]@ == step.0
                &&& outcome_of(d) == step.1
                &&& forall|u: u64| u != author ==> #[trigger] final(self).history@.contains_key(u) == old(self).history@.contains_key(u)
                    && (old(self).history@.contains_key(u) ==> final(self).history@[u] == old(self).history@[u])
            }),
            final(self).config == old(self).config,
            final(self).spammers@ == old(self).spammers@,
    {
        broadcast use vstd::std_specs::hash::group_hash_axioms;
        let mut entry = match self.history.remove(&author) {
            Some(e) => e,
            None => LastMessage::empty(),
        };
        let d = spam_decide(&mut entry, content, msg, now_ns, &self.config);
        self.history.insert(author, entry);
        d
    }

    /// Records the message that got `author` flagged.
    pub fn record_flagged_message(&mut self, author: u64, msg: MessageReference, now_ns: i64)
        ensures
            old(self).history@.contains_key(author) ==> final(self).history@.contains_key(author)
                && final(self).history@[author]@.occurrences == old(self).history@[author]@.occurrences.push(
                Occurrence { time_ns: now_ns, message: msg },
            ) && final(self).history@[author]@.content == old(self).history@[author]@.content
                && final(self).history@[author]@.warned == old(self).history@[author]@.warned,
            !old(self).history@.contains_key(author) ==> final(self).history@ == old(self).history@,
            final(self).config == old(self).config,
            final(self).spammers@ == old(self).spammers@,
    {
        broadcast use vstd::std_specs::hash::group_hash_axioms;
        match self.history.remove(&author) {
            Some(mut e) => {
                record_occurrence(&mut e, msg, now_ns);
                self.history.insert(author, e);
            },
            None => {},
        }
    }

    /// Opens an alert: the alert message `alert_message` carries the buttons of `ctx`.
    pub fn register_spammer(&mut self, alert_message: u64, ctx: SpammerContext)
        ensures
            final(self).spammers@ == old(self).spammers@.insert(alert_message, ctx),
            final(self).history@ == old(self).history@,
            final(self).config == old(self).config,
    {
        broadcast use vstd::std_specs::hash::group_hash_axioms;
        self.spammers.insert(alert_message, ctx);
    }

    /// What a click on a button of the alert message `alert_message` decides, and about whom.
    pub fn click(&self, alert_message: u64, custom_id: &str) -> (r: Option<(SpamVerdict, u64)>)
        ensures
            !self.spammers@.contains_key(alert_message) ==> r is None,
            self.spammers@.contains_key(alert_message) ==> ({
                let ctx = self.spammers@[alert_message];
                r == (if custom_id@ == crate::custom_id::custom_id_spec("anti-spam"@, crate::text::decimal(ctx.kick_button.id as nat), Seq::<char>::empty()) {
                    Some((SpamVerdict::Kick, ctx.spammer))
                } else if custom_id@ == crate::custom_id::custom_id_spec("anti-spam"@, crate::text::decimal(ctx.pardon_button.id as nat), Seq::<char>::empty()) {
                    Some((SpamVerdict::Pardon, ctx.spammer))
                } else {
                    None
                })
            }),
    {
        broadcast use vstd::std_specs::hash::group_hash_axioms;
        match self.spammers.get(&alert_message) {
            None => None,
            Some(ctx) => match spam_verdict(ctx, custom_id) {
                None => None,
                Some(v) => Some((v, ctx.spammer)),
            },
        }
    }

    /// Closes the alert `alert_message` after the moderators' decision: its buttons' ids are given
    /// back, and a pardoned user's record is forgotten.
    pub fn resolve(&mut self, alert_message: u64, verdict: SpamVerdict, ids: &mut ButtonIds)
        ensures
            final(self).spammers@ == old(self).spammers@.remove(alert_message),
            old(self).spammers@.contains_key(alert_message) ==> ({
                let ctx = old(self).spammers@[alert_message];
                &&& final(ids).free@ == old(ids).free@.push(ctx.kick_button.id).push(ctx.pardon_button.id)
                &&& verdict == SpamVerdict::Pardon ==> final(self).history@ == old(self).history@.remove(ctx.spammer)
                &&& verdict == SpamVerdict::Kick ==> final(self).history@ == old(self).history@
            }),
            !old(self).spammers@.contains_key(alert_message) ==> final(self).history@ == old(self).history@
                && final(ids).free@ == old(ids).free@,
            final(ids).max == old(ids).max,
            final(self).config == old(self).config,
    {
        broadcast use vstd::std_specs::hash::group_hash_axioms;
        match self.spammers.remove(&alert_message) {
            None => {},
            Some(mut ctx) => {
                ctx.kick_button.free(ids);
                ctx.pardon_button.free(ids);
                if verdict == SpamVerdict::Pardon {
                    self.history.remove(&ctx.spammer);
                }
            },
        }
    }
}

} // verus!
