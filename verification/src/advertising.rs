//! The ads of the members: the forms being filled, the published ads, and their approval.
use vstd::prelude::*;
use crate::ad_form::{module_name, ButtonSpec, ButtonStyle, buttons_view};
use crate::ad_steps::{chosen, Choice, MainSteps};
use crate::custom_id::{custom_id_data_spec, custom_id_spec, get_custom_id_data, make_custom_id};
use crate::discord::{channel_mention, channel_mention_spec, role_mention, role_mention_spec, user_mention, user_mention_spec, MessageReference};
use crate::text::{chars_of, parse_u64, parse_u64_spec, truncate_str, truncated, truncation_defined};
use std::collections::HashMap;
use vstd::std_specs::hash::spec_hash_map_iter;
use vstd::std_specs::iter::IteratorSpec;

verus! {

/// A published ad: its message, and the answers it was made from.
pub struct StoredAdData {
    pub ad_message: MessageReference,
    pub description: MainSteps,
}

/// A form being filled by a member in an edition thread.
pub struct InProgressAd {
    pub user: u64,
    pub thread: u64,
    pub form: MainSteps,
}

/// The state of the advertising module. The published ads are keyed by member, then by the
/// channel of their forum post.
pub struct AdvertisingConfig {
    pub ad_forum: u64,
    pub reviewer_roles: Vec<u64>,
    pub in_progress_ad_channel: u64,
    pub max_ad_per_user: u64,
    pub stored_ads: HashMap<u64, HashMap<u64, StoredAdData>>,
    pub in_progress_ad: Vec<InProgressAd>,
}

/// The published ads as maps: member, then channel, to the ad.
pub open spec fn ads_view(m: Map<u64, HashMap<u64, StoredAdData>>) -> Map<u64, Map<u64, StoredAdData>> {
    m.map_values(|h: HashMap<u64, StoredAdData>| h@)
}

/// The published ads of a member, by channel (none when the member has no entry).
pub open spec fn ads_of_user(v: Map<u64, Map<u64, StoredAdData>>, user: u64) -> Map<u64, StoredAdData> {
    if v.contains_key(user) {
        v[user]
    } else {
        Map::empty()
    }
}

/// Whether a member has a published ad in a channel.
pub open spec fn has_stored(v: Map<u64, Map<u64, StoredAdData>>, user: u64, channel: u64) -> bool {
    ads_of_user(v, user).contains_key(channel)
}

/// The published ads once an ad is filed for a member under a channel (the member's entry is made
/// when there is none; an ad filed there before is replaced).
pub open spec fn ads_put(v: Map<u64, Map<u64, StoredAdData>>, user: u64, channel: u64, data: StoredAdData) -> Map<
    u64,
    Map<u64, StoredAdData>,
> {
    v.insert(user, ads_of_user(v, user).insert(channel, data))
}

/// The published ads once the ad of a member in a channel is removed (the member's entry stays).
pub open spec fn ads_removed(v: Map<u64, Map<u64, StoredAdData>>, user: u64, channel: u64) -> Map<u64, Map<u64, StoredAdData>> {
    if v.contains_key(user) {
        v.insert(user, v[user].remove(channel))
    } else {
        v
    }
}

/// The members that are filling a form.
pub open spec fn in_progress_users(ads: Seq<InProgressAd>) -> Seq<u64> {
    ads.map_values(|a: InProgressAd| a.user)
}

/// Whether the state is consistent: one form per member.
pub open spec fn advertising_wf(c: AdvertisingConfig) -> bool {
    in_progress_users(c.in_progress_ad@).no_duplicates()
}

/// The number of published ads of a member.
pub open spec fn ads_of(v: Map<u64, Map<u64, StoredAdData>>, user: u64) -> nat {
    ads_of_user(v, user).len()
}

/// What the ad command does for a member.
#[derive(PartialEq, Eq, Structural, Clone, Copy, Debug)]
pub enum AdCommand {
    /// No published ad: a new form starts.
    StartForm,
    /// Published ads exist: they are listed; at the limit, no new ad can be started.
    ListAds { at_limit: bool },
}

/// What the ad command does for a member with `count` published ads.
pub open spec fn ad_command_spec(count: nat, max: u64) -> AdCommand {
    if count > 0 {
        AdCommand::ListAds { at_limit: count >= max }
    } else {
        AdCommand::StartForm
    }
}

/// The warning shown above the list of a member's ads.
pub open spec fn ad_list_warning_spec(at_limit: bool) -> Seq<char> {
    if at_limit {
        "# :warning: Tu as déjà des annonces ouvertes !\n> Note : Tu as atteint le nombre maximal d'annonces simultanées"@
    } else {
        "# :warning: Tu as déjà des annonces ouvertes !"@
    }
}

/// The warning shown above the list of a member's ads.
pub fn ad_list_warning(at_limit: bool) -> (r: &'static str)
    ensures
        r@ == ad_list_warning_spec(at_limit),
{
    if at_limit {
        "# :warning: Tu as déjà des annonces ouvertes !\n> Note : Tu as atteint le nombre maximal d'annonces simultanées"
    } else {
        "# :warning: Tu as déjà des annonces ouvertes !"
    }
}

/// The line that lists a published ad: its title (or a placeholder) cut to 300 bytes, in bold,
/// then the link of its message.
pub open spec fn stored_ad_line_spec(title: Option<Seq<char>>, link: Seq<char>) -> Seq<char> {
    "**"@ + truncated(
        match title {
            Some(t) => t,
            None => "Annonce sans titre"@,
        },
        300,
    ) + "** : "@ + link
}

/// The line that lists a published ad.
pub fn stored_ad_line(title: Option<&str>, link: &str) -> (r: String)
    requires
        truncation_defined(
            match title {
                Some(t) => t@,
                None => "Annonce sans titre"@,
            },
            300,
        ),
    ensures
        r@ == stored_ad_line_spec(
            match title {
                Some(t) => Some(t@),
                None => None,
            },
            link@,
        ),
{
    let shown = match title {
        Some(t) => truncate_str(t, 300),
        None => truncate_str("Annonce sans titre", 300),
    };
    let mut r = String::new();
    r.append("**");
    r.append(shown.as_str());
    r.append("** : ");
    r.append(link);
    proof {
        reveal_strlit("**");
        reveal_strlit("** : ");
    }
    r
}

/// A button of the advertising module, by the action its custom id carries.
#[derive(PartialEq, Eq, Structural, Clone, Copy, Debug)]
pub enum AdAction {
    Create,
    Edit,
    Delete,
    PrePublish,
    Deny,
    Validate,
}

/// The name of an action in custom ids.
pub open spec fn action_name(a: AdAction) -> Seq<char> {
    match a {
        AdAction::Create => "create-ad"@,
        AdAction::Edit => "edit-ad"@,
        AdAction::Delete => "delete-ad"@,
        AdAction::PrePublish => "pre-publish"@,
        AdAction::Deny => "deny"@,
        AdAction::Validate => "validate"@,
    }
}

/// The name of an action in custom ids.
pub fn action_name_of(a: AdAction) -> (r: &'static str)
    ensures
        r@ == action_name(a),
{
    match a {
        AdAction::Create => "create-ad",
        AdAction::Edit => "edit-ad",
        AdAction::Delete => "delete-ad",
        AdAction::PrePublish => "pre-publish",
        AdAction::Deny => "deny",
        AdAction::Validate => "validate",
    }
}

/// The custom id of a button of the advertising module.
pub fn ad_custom_id(a: AdAction, payload: &str) -> (r: String)
    ensures
        r@ == custom_id_spec("advertising"@, action_name(a), payload@),
{
    make_custom_id(module_name(), action_name_of(a), payload)
}

/// Where a click on a button goes: the actions are tried in the order create, edit, delete,
/// pre-publish, deny, validate; a custom id that carries none of them goes to the form.
pub enum AdButton {
    Action(AdAction, String),
    Form,
}

/// The first action, in the order of `AdButton`, that a custom id carries, with its payload.
pub open spec fn route_spec(custom_id: Seq<char>) -> Option<(AdAction, Seq<char>)> {
    let m = "advertising"@;
    if custom_id_data_spec(custom_id, m, "create-ad"@) is Some {
        Some((AdAction::Create, custom_id_data_spec(custom_id, m, "create-ad"@)->0))
    } else if custom_id_data_spec(custom_id, m, "edit-ad"@) is Some {
        Some((AdAction::Edit, custom_id_data_spec(custom_id, m, "edit-ad"@)->0))
    } else if custom_id_data_spec(custom_id, m, "delete-ad"@) is Some {
        Some((AdAction::Delete, custom_id_data_spec(custom_id, m, "delete-ad"@)->0))
    } else if custom_id_data_spec(custom_id, m, "pre-publish"@) is Some {
        Some((AdAction::PrePublish, custom_id_data_spec(custom_id, m, "pre-publish"@)->0))
    } else if custom_id_data_spec(custom_id, m, "deny"@) is Some {
        Some((AdAction::Deny, custom_id_data_spec(custom_id, m, "deny"@)->0))
    } else if custom_id_data_spec(custom_id, m, "validate"@) is Some {
        Some((AdAction::Validate, custom_id_data_spec(custom_id, m, "validate"@)->0))
    } else {
        None
    }
}

fn try_action(custom_id: &str, a: AdAction) -> (r: Option<String>)
    ensures
        r matches Some(p) ==> custom_id_data_spec(custom_id@, "advertising"@, action_name(a)) == Some(p@),
        r is None ==> custom_id_data_spec(custom_id@, "advertising"@, action_name(a)) is None,
{
    get_custom_id_data(custom_id, module_name(), action_name_of(a))
}

/// Where a click on a button of the module goes.
pub fn route_ad_button(custom_id: &str) -> (r: AdButton)
    ensures
        match r {
            AdButton::Action(a, p) => route_spec(custom_id@) == Some((a, p@)),
            AdButton::Form => route_spec(custom_id@) is None,
        },
{
    match try_action(custom_id, AdAction::Create) {
        Some(p) => {
            return AdButton::Action(AdAction::Create, p);
        },
        None => {},
    }
    match try_action(custom_id, AdAction::Edit) {
        Some(p) => {
            return AdButton::Action(AdAction::Edit, p);
        },
        None => {},
    }
    match try_action(custom_id, AdAction::Delete) {
        Some(p) => {
            return AdButton::Action(AdAction::Delete, p);
        },
        None => {},
    }
    match try_action(custom_id, AdAction::PrePublish) {
        Some(p) => {
            return AdButton::Action(AdAction::PrePublish, p);
        },
        None => {},
    }
    match try_action(custom_id, AdAction::Deny) {
        Some(p) => {
            return AdButton::Action(AdAction::Deny, p);
        },
        None => {},
    }
    match try_action(custom_id, AdAction::Validate) {
        Some(p) => AdButton::Action(AdAction::Validate, p),
        None => AdButton::Form,
    }
}

/// Reads the channel of an edit or delete button the way `u64::from_str` does.
pub fn ad_channel_of(payload: &str) -> (r: Option<u64>)
    ensures
        r == parse_u64_spec(payload@),
{
    let c = chars_of(payload);
    parse_u64(c.as_slice())
}

/// The emoji that opens the title of a published ad, by kind of contract.
pub open spec fn kind_emoji(kind: Choice) -> Seq<char> {
    match kind {
        Choice::Volunteering => "🤝"@,
        Choice::Internship => "🪂"@,
        Choice::Freelance => "🧐"@,
        Choice::WorkStudy => "🤓"@,
        Choice::FixedTerm => "😎"@,
        _ => "🤯"@,
    }
}

/// The title of the forum post of an ad: with a kind of contract, its emoji, a space and the title
/// cut to 100 bytes; without, the title as it is.
pub open spec fn post_title_spec(kind: Option<Choice>, title: Seq<char>) -> Seq<char> {
    match kind {
        Some(k) => kind_emoji(k) + " "@ + truncated(title, 100),
        None => title,
    }
}

/// The title of the forum post of an ad.
pub fn post_title(kind: Option<Choice>, title: &str) -> (r: String)
    requires
        kind is Some ==> truncation_defined(title@, 100),
    ensures
        r@ == post_title_spec(kind, title@),
{
    match kind {
        None => title.to_owned(),
        Some(k) => {
            let mut r = String::new();
            let emoji = match k {
                Choice::Volunteering => "🤝",
                Choice::Internship => "🪂",
                Choice::Freelance => "🧐",
                Choice::WorkStudy => "🤓",
                Choice::FixedTerm => "😎",
                _ => "🤯",
            };
            r.append(emoji);
            r.append(" ");
            let t = truncate_str(title, 100);
            r.append(t.as_str());
            proof {
                reveal_strlit(" ");
            }
            r
        },
    }
}

/// Whether a member holds one of the roles that approve ads.
pub fn may_validate(member_roles: &Vec<u64>, reviewer_roles: &Vec<u64>) -> (r: bool)
    ensures
        r == exists|i: int, j: int|
            0 <= i < member_roles@.len() && 0 <= j < reviewer_roles@.len() && member_roles@[i] == reviewer_roles@[j],
{
    let mut i: usize = 0;
    while i < member_roles.len()
        invariant
            i <= member_roles@.len(),
            forall|a: int, b: int| 0 <= a < i && 0 <= b < reviewer_roles@.len() ==> member_roles@[a] != reviewer_roles@[b],
        decreases member_roles@.len() - i,
    {
        let mut j: usize = 0;
        while j < reviewer_roles.len()
            invariant
                i < member_roles@.len(),
                j <= reviewer_roles@.len(),
                forall|a: int, b: int| 0 <= a < i && 0 <= b < reviewer_roles@.len() ==> member_roles@[a] != reviewer_roles@[b],
                forall|b: int| 0 <= b < j ==> member_roles@[i as int] != reviewer_roles@[b],
            decreases reviewer_roles@.len() - j,
        {
            if member_roles[i] == reviewer_roles[j] {
                return true;
            }
            j = j + 1;
        }
        i = i + 1;
    }
    false
}

/// The mentions of the given roles, one after the other.
pub open spec fn role_mentions(roles: Seq<u64>) -> Seq<char>
    decreases roles.len(),
{
    if roles.len() == 0 {
        Seq::empty()
    } else {
        role_mentions(roles.drop_last()) + role_mention_spec(roles.last())
    }
}

/// The message that asks the moderators who approve ads to check a finished one.
pub open spec fn approval_request_spec(user: u64, roles: Seq<u64>) -> Seq<char> {
    user_mention_spec(user) + " a terminé son annonce, nous allons procéder à quelques vérifications avant de la publier.\n"@
        + role_mentions(roles)
}

/// The message that asks the moderators who approve ads to check a finished one.
pub fn approval_request(user: u64, roles: &Vec<u64>) -> (r: String)
    ensures
        r@ == approval_request_spec(user, roles@),
{
    let mut r = user_mention(user);
    r.append(" a terminé son annonce, nous allons procéder à quelques vérifications avant de la publier.\n");
    proof {
        reveal_strlit(" a terminé son annonce, nous allons procéder à quelques vérifications avant de la publier.\n");
    }
    let ghost head = r@;
    let mut i: usize = 0;
    while i < roles.len()
        invariant
            i <= roles@.len(),
            r@ == head + role_mentions(roles@.take(i as int)),
            head == user_mention_spec(user)
                + " a terminé son annonce, nous allons procéder à quelques vérifications avant de la publier.\n"@,
        decreases roles@.len() - i,
    {
        let m = role_mention(roles[i]);
        r.append(m.as_str());
        assert(roles@.take(i + 1).drop_last() =~= roles@.take(i as int));
        i = i + 1;
        assert(r@ =~= head + role_mentions(roles@.take(i as int)));
    }
    assert(roles@.take(i as int) =~= roles@);
    r
}

/// The two buttons of the approving moderators: publish, and revoke.
pub open spec fn approval_buttons_spec() -> Seq<(Seq<char>, Seq<char>, ButtonStyle)> {
    seq![
        (custom_id_spec("advertising"@, "validate"@, Seq::<char>::empty()), "Publier"@, ButtonStyle::Success),
        (custom_id_spec("advertising"@, "deny"@, Seq::<char>::empty()), "Révoquer"@, ButtonStyle::Danger),
    ]
}

/// The two buttons of the approving moderators.
pub fn approval_buttons() -> (r: Vec<ButtonSpec>)
    ensures
        buttons_view(r@) == approval_buttons_spec(),
{
    proof {
        reveal_strlit("");
    }
    let mut r: Vec<ButtonSpec> = Vec::new();
    r.push(ButtonSpec { custom_id: ad_custom_id(AdAction::Validate, ""), label: "Publier".to_owned(), style: ButtonStyle::Success });
    r.push(ButtonSpec { custom_id: ad_custom_id(AdAction::Deny, ""), label: "Révoquer".to_owned(), style: ButtonStyle::Danger });
    assert(buttons_view(r@) =~= approval_buttons_spec());
    r
}

/// The message that tells a member why the ad was not accepted.
pub open spec fn deny_reason_spec(user: u64, reason: Seq<char>) -> Seq<char> {
    user_mention_spec(user) + ", ton annonce n'a pas été validée pour la raison suivante :\n"@ + reason
        + "\n\nTu peux encore modifier ton annonce avant de la ressoumettre pour qu'elle soit conforme aux prérequis."@
}

/// The message that tells a member why the ad was not accepted.
pub fn deny_reason(user: u64, reason: &str) -> (r: String)
    ensures
        r@ == deny_reason_spec(user, reason@),
{
    let mut r = user_mention(user);
    r.append(", ton annonce n'a pas été validée pour la raison suivante :\n");
    r.append(reason);
    r.append("\n\nTu peux encore modifier ton annonce avant de la ressoumettre pour qu'elle soit conforme aux prérequis.");
    proof {
        reveal_strlit(", ton annonce n'a pas été validée pour la raison suivante :\n");
        reveal_strlit("\n\nTu peux encore modifier ton annonce avant de la ressoumettre pour qu'elle soit conforme aux prérequis.");
    }
    r
}

/// The answer that points a member to the edition thread, noting when an unfinished form was
/// dropped.
pub open spec fn invitation_spec(thread: u64, removed_old: bool) -> Seq<char> {
    "Bien reçu, la suite se passe ici :arrow_right: "@ + channel_mention_spec(thread) + if removed_old {
        "\n> Note : ta précédente annonce en cours de création a été supprimée"@
    } else {
        Seq::empty()
    }
}

/// The answer that points a member to the edition thread.
pub fn invitation(thread: u64, removed_old: bool) -> (r: String)
    ensures
        r@ == invitation_spec(thread, removed_old),
{
    let mut r = String::new();
    r.append("Bien reçu, la suite se passe ici :arrow_right: ");
    let m = channel_mention(thread);
    r.append(m.as_str());
    if removed_old {
        r.append("\n> Note : ta précédente annonce en cours de création a été supprimée");
    }
    proof {
        reveal_strlit("Bien reçu, la suite se passe ici :arrow_right: ");
        reveal_strlit("\n> Note : ta précédente annonce en cours de création a été supprimée");
    }
    assert(r@ =~= invitation_spec(thread, removed_old));
    r
}

/// The name of the edition thread of a member.
pub open spec fn edition_thread_name_spec(safe_full: Seq<char>) -> Seq<char> {
    "Annonce de "@ + safe_full
}

/// The name of the edition thread of a member.
pub fn edition_thread_name(safe_full: &str) -> (r: String)
    ensures
        r@ == edition_thread_name_spec(safe_full@),
{
    let mut r = String::new();
    r.append("Annonce de ");
    r.append(safe_full);
    proof {
        reveal_strlit("Annonce de ");
    }
    r
}

/// The first message of an edition thread.
pub open spec fn form_welcome_spec(name: Seq<char>) -> Seq<char> {
    "# Bienvenue dans le formulaire de création d'annonce "@ + name + " !"@
}

/// The first message of an edition thread.
pub fn form_welcome(name: &str) -> (r: String)
    ensures
        r@ == form_welcome_spec(name@),
{
    let mut r = String::new();
    r.append("# Bienvenue dans le formulaire de création d'annonce ");
    r.append(name);
    r.append(" !");
    proof {
        reveal_strlit("# Bienvenue dans le formulaire de création d'annonce ");
        reveal_strlit(" !");
    }
    r
}

/// The message shown when the preview of an ad cannot be written.
pub open spec fn preview_error_spec(error: Seq<char>) -> Seq<char> {
    ":no_entry:Impossible de formater l'annonce :no_entry: \n> "@ + error
}

/// The message shown when the preview of an ad cannot be written.
pub fn preview_error(error: &str) -> (r: String)
    ensures
        r@ == preview_error_spec(error@),
{
    let mut r = String::new();
    r.append(":no_entry:Impossible de formater l'annonce :no_entry: \n> ");
    r.append(error);
    proof {
        reveal_strlit(":no_entry:Impossible de formater l'annonce :no_entry: \n> ");
    }
    r
}

/// Deleting the ad just filed for a member in a channel leaves the member's ads as they were before,
/// but for an ad filed in that channel before, which is gone too; the other members' ads are
/// untouched.
pub proof fn lemma_store_then_delete(v: Map<u64, Map<u64, StoredAdData>>, user: u64, channel: u64, data: StoredAdData)
    ensures
        ads_removed(ads_put(v, user, channel, data), user, channel) == v.insert(user, ads_of_user(v, user).remove(channel)),
{
    assert(ads_of_user(v, user).insert(channel, data).remove(channel) =~= ads_of_user(v, user).remove(channel));
}

/// The position of the form of a member, if any.
pub open spec fn form_position(ads: Seq<InProgressAd>, user: u64) -> Option<int> {
    if exists|i: int| 0 <= i < ads.len() && ads[i].user == user {
        Some(choose|i: int| 0 <= i < ads.len() && ads[i].user == user)
    } else {
        None
    }
}

/// Whether the form at position `i` is the first in a thread.
pub open spec fn first_form_in(ads: Seq<InProgressAd>, thread: u64, i: int) -> bool {
    &&& 0 <= i < ads.len()
    &&& ads[i].thread == thread
    &&& forall|j: int| 0 <= j < i ==> ads[j].thread != thread
}

/// The published ad filed by a member for a post, with the answers of its form as stored.
pub open spec fn published_data(post: MessageReference, form: MainSteps) -> StoredAdData {
    StoredAdData {
        ad_message: post,
        description: crate::ad_steps::stored_steps(MainSteps { edited_post: None, ..form }),
    }
}

/// What an edit reads back under a member and channel is what was filed there last.
pub proof fn lemma_filed_is_read(v: Map<u64, Map<u64, StoredAdData>>, user: u64, channel: u64, data: StoredAdData)
    ensures
        has_stored(ads_put(v, user, channel, data), user, channel),
        ads_of_user(ads_put(v, user, channel, data), user)[channel] == data,
{
}

impl AdvertisingConfig {
    /// The initial state: no ad, no approving role, at most two ads per member.
    pub fn default_config() -> (r: AdvertisingConfig)
        ensures
            r.ad_forum == 0,
            r.reviewer_roles@.len() == 0,
            r.in_progress_ad_channel == 0,
            r.max_ad_per_user == 2,
            r.stored_ads@ == Map::<u64, HashMap<u64, StoredAdData>>::empty(),
            r.in_progress_ad@.len() == 0,
            advertising_wf(r),
    {
        let r = AdvertisingConfig {
            ad_forum: 0,
            reviewer_roles: Vec::new(),
            in_progress_ad_channel: 0,
            max_ad_per_user: 2,
            stored_ads: HashMap::new(),
            in_progress_ad: Vec::new(),
        };
        assert(in_progress_users(r.in_progress_ad@) =~= Seq::<u64>::empty());
        r
    }

    /// The channels of the published ads of a member, each once.
    pub fn user_ads(&self, user: u64) -> (r: Vec<u64>)
        ensures
            r@.no_duplicates(),
            forall|c: u64| r@.contains(c) <==> has_stored(ads_view(self.stored_ads@), user, c),
            r@.len() == ads_of(ads_view(self.stored_ads@), user),
    {
        broadcast use vstd::std_specs::hash::group_hash_axioms;
        broadcast use vstd::std_specs::hash::axiom_spec_hash_map_iter;
        let mut r: Vec<u64> = Vec::new();
        match self.stored_ads.get(&user) {
            None => {
                assert(ads_of_user(ads_view(self.stored_ads@), user) =~= Map::<u64, StoredAdData>::empty());
            },
            Some(ads) => {
                assert(ads_of_user(ads_view(self.stored_ads@), user) == ads@);
                let ghost pairs = spec_hash_map_iter(ads).remaining();
                for entry in it: ads.iter()
                    invariant
                        pairs == it.seq(),
                        pairs.no_duplicates(),
                        pairs.len() == ads@.dom().len(),
                        forall|i: int| 0 <= i < pairs.len() ==> ads@.contains_key(*pairs[i].0) && ads@[*pairs[i].0] == *pairs[i].1,
                        forall|k: u64| #[trigger] ads@.contains_key(k) ==> pairs.contains((&k, &ads@[k])),
                        r@.len() == it.index(),
                        forall|i: int| 0 <= i < it.index() ==> r@[i] == *pairs[i].0,
                {
                    let ghost idx = it.index();
                    assert(entry == pairs[idx]);
                    r.push(*entry.0);
                }
                proof {
                    assert forall|c: u64| r@.contains(c) <==> ads@.contains_key(c) by {
                        if r@.contains(c) {
                            let i = choose|i: int| 0 <= i < r@.len() && r@[i] == c;
                            assert(*pairs[i].0 == c);
                        }
                        if ads@.contains_key(c) {
                            let i = choose|i: int| 0 <= i < pairs.len() && pairs[i] == (&c, &ads@[c]);
                            assert(r@[i] == c);
                        }
                    }
                    assert forall|a: int, b: int| 0 <= a < r@.len() && 0 <= b < r@.len() && a != b implies r@[a] != r@[b] by {
                        if r@[a] == r@[b] {
                            assert(ads@[*pairs[a].0] == *pairs[a].1);
                            assert(ads@[*pairs[b].0] == *pairs[b].1);
                            assert(pairs[a] == pairs[b]);
                        }
                    }
                }
            },
        }
        r
    }

    /// Whether a member has an entry for published ads (possibly emptied since).
    pub fn has_ad_entry(&self, user: u64) -> (r: bool)
        ensures
            r == self.stored_ads@.contains_key(user),
    {
        broadcast use vstd::std_specs::hash::group_hash_axioms;
        self.stored_ads.contains_key(&user)
    }

    /// The published ad of a member in a channel.
    pub fn stored_ad(&self, user: u64, channel: u64) -> (r: Option<&StoredAdData>)
        ensures
            r is Some <==> has_stored(ads_view(self.stored_ads@), user, channel),
            r matches Some(d) ==> *d == ads_of_user(ads_view(self.stored_ads@), user)[channel],
    {
        broadcast use vstd::std_specs::hash::group_hash_axioms;
        match self.stored_ads.get(&user) {
            None => None,
            Some(ads) => ads.get(&channel),
        }
    }

    /// What the ad command does for a member: list the published ads (noting when the limit is
    /// reached), or start a new form when there is none.
    pub fn ad_command(&self, user: u64) -> (r: AdCommand)
        ensures
            r == ad_command_spec(ads_of(ads_view(self.stored_ads@), user), self.max_ad_per_user),
    {
        broadcast use vstd::std_specs::hash::group_hash_axioms;
        let count = match self.stored_ads.get(&user) {
            Some(ads) => ads.len(),
            None => {
                assert(ads_of_user(ads_view(self.stored_ads@), user) =~= Map::<u64, StoredAdData>::empty());
                0
            },
        };
        if count > 0 {
            AdCommand::ListAds { at_limit: count as u64 >= self.max_ad_per_user }
        } else {
            AdCommand::StartForm
        }
    }

    fn form_index(&self, user: u64) -> (r: Option<usize>)
        ensures
            r matches Some(i) ==> i < self.in_progress_ad@.len() && self.in_progress_ad@[i as int].user == user,
            r is None ==> form_position(self.in_progress_ad@, user) is None,
            r is None ==> !in_progress_users(self.in_progress_ad@).contains(user),
    {
        let mut i: usize = 0;
        while i < self.in_progress_ad.len()
            invariant
                i <= self.in_progress_ad@.len(),
                forall|j: int| 0 <= j < i ==> self.in_progress_ad@[j].user != user,
            decreases self.in_progress_ad@.len() - i,
        {
            if self.in_progress_ad[i].user == user {
                return Some(i);
            }
            i = i + 1;
        }
        proof {
            if in_progress_users(self.in_progress_ad@).contains(user) {
                let j = choose|j: int| 0 <= j < in_progress_users(self.in_progress_ad@).len() && in_progress_users(self.in_progress_ad@)[j] == user;
                assert(self.in_progress_ad@[j].user == user);
            }
        }
        None
    }

    /// The edition thread of a member's form, if the member is filling one.
    pub fn form_thread(&self, user: u64) -> (r: Option<u64>)
        ensures
            r is Some <==> in_progress_users(self.in_progress_ad@).contains(user),
            r matches Some(t) ==> exists|i: int| 0 <= i < self.in_progress_ad@.len() && self.in_progress_ad@[i].user == user
                && self.in_progress_ad@[i].thread == t,
    {
        match self.form_index(user) {
            Some(i) => {
                assert(in_progress_users(self.in_progress_ad@)[i as int] == user);
                Some(self.in_progress_ad[i].thread)
            },
            None => None,
        }
    }

    /// The member whose form is filled in a thread: the first form, in order, with that thread.
    pub fn user_of_thread(&self, thread: u64) -> (r: Option<u64>)
        ensures
            r matches Some(u) ==> exists|i: int| 0 <= i < self.in_progress_ad@.len() && self.in_progress_ad@[i].thread == thread
                && self.in_progress_ad@[i].user == u && (forall|j: int| 0 <= j < i ==> self.in_progress_ad@[j].thread != thread),
            r is None ==> forall|i: int| 0 <= i < self.in_progress_ad@.len() ==> self.in_progress_ad@[i].thread != thread,
    {
        let mut i: usize = 0;
        while i < self.in_progress_ad.len()
            invariant
                i <= self.in_progress_ad@.len(),
                forall|j: int| 0 <= j < i ==> self.in_progress_ad@[j].thread != thread,
            decreases self.in_progress_ad@.len() - i,
        {
            if self.in_progress_ad[i].thread == thread {
                return Some(self.in_progress_ad[i].user);
            }
            i = i + 1;
        }
        None
    }

    /// Drops the form of a member, and returns it.
    pub fn remove_in_progress(&mut self, user: u64) -> (r: Option<InProgressAd>)
        requires
            advertising_wf(*old(self)),
        ensures
            advertising_wf(*final(self)),
            r is Some <==> in_progress_users(old(self).in_progress_ad@).contains(user),
            r is None ==> *final(self) == *old(self),
            r matches Some(a) ==> a.user == user && exists|i: int| 0 <= i < old(self).in_progress_ad@.len() && old(self).in_progress_ad@[i] == a,
            !in_progress_users(final(self).in_progress_ad@).contains(user),
            forall|u: u64| u != user ==> (#[trigger] in_progress_users(final(self).in_progress_ad@).contains(u)
                == in_progress_users(old(self).in_progress_ad@).contains(u)),
            final(self).stored_ads == old(self).stored_ads,
            final(self).max_ad_per_user == old(self).max_ad_per_user,
            final(self).reviewer_roles == old(self).reviewer_roles,
    {
        match self.form_index(user) {
            None => None,
            Some(i) => {
                let ghost before = in_progress_users(self.in_progress_ad@);
                let removed = self.in_progress_ad.remove(i);
                let ghost after = in_progress_users(self.in_progress_ad@);
                assert(after =~= before.remove(i as int));
                assert(before[i as int] == user);
                proof {
                    assert forall|a: int, b: int| 0 <= a < after.len() && 0 <= b < after.len() && a != b implies after[a] != after[b] by {
                        let a2 = if a < i { a } else { a + 1 };
                        let b2 = if b < i { b } else { b + 1 };
                        assert(after[a] == before[a2]);
                        assert(after[b] == before[b2]);
                    }
                    assert forall|u: u64| #[trigger] after.contains(u) == (before.contains(u) && u != user) by {
                        if after.contains(u) {
                            let a = choose|a: int| 0 <= a < after.len() && after[a] == u;
                            let a2 = if a < i { a } else { a + 1 };
                            assert(before[a2] == u);
                            assert(a2 != i);
                        }
                        if before.contains(u) && u != user {
                            let a = choose|a: int| 0 <= a < before.len() && before[a] == u;
                            assert(a != i);
                            let a2 = if a < i { a } else { a - 1 };
                            assert(after[a2] == u);
                        }
                    }
                    assert(before.contains(user));
                }
                assert(old(self).in_progress_ad@[i as int] == removed);
                Some(removed)
            },
        }
    }

    /// Starts the form of a member in an edition thread; a form the member had not finished is
    /// dropped, and its thread returned (to be deleted).
    pub fn start_form(&mut self, user: u64, thread: u64, form: MainSteps) -> (r: Option<u64>)
        requires
            advertising_wf(*old(self)),
        ensures
            advertising_wf(*final(self)),
            r is Some <==> in_progress_users(old(self).in_progress_ad@).contains(user),
            r matches Some(t) ==> exists|i: int| 0 <= i < old(self).in_progress_ad@.len() && old(self).in_progress_ad@[i].user == user
                && old(self).in_progress_ad@[i].thread == t,
            final(self).in_progress_ad@.last() == (InProgressAd { user, thread, form }),
            in_progress_users(final(self).in_progress_ad@).contains(user),
            forall|u: u64| u != user ==> (#[trigger] in_progress_users(final(self).in_progress_ad@).contains(u)
                == in_progress_users(old(self).in_progress_ad@).contains(u)),
            final(self).stored_ads == old(self).stored_ads,
    {
        let old_form = self.remove_in_progress(user);
        let ghost before = in_progress_users(self.in_progress_ad@);
        self.in_progress_ad.push(InProgressAd { user, thread, form });
        let ghost after = in_progress_users(self.in_progress_ad@);
        assert(after =~= before.push(user));
        proof {
            assert forall|a: int, b: int| 0 <= a < after.len() && 0 <= b < after.len() && a != b implies after[a] != after[b] by {
                if a == before.len() as int {
                    assert(!before.contains(after[b]) || b != a);
                    if b < before.len() {
                        assert(before[b] == after[b]);
                    }
                } else if b == before.len() as int {
                    assert(before[a] == after[a]);
                }
            }
            assert(after[before.len() as int] == user);
            assert forall|u: u64| u != user implies (#[trigger] after.contains(u) == before.contains(u)) by {
                if after.contains(u) {
                    let a = choose|a: int| 0 <= a < after.len() && after[a] == u;
                    assert(a != before.len() as int);
                    assert(before[a] == u);
                }
                if before.contains(u) {
                    let a = choose|a: int| 0 <= a < before.len() && before[a] == u;
                    assert(after[a] == u);
                }
            }
        }
        match old_form {
            Some(f) => Some(f.thread),
            None => None,
        }
    }

    /// Files a published ad of a member under the channel of its post; an ad filed there before is
    /// replaced, and the member's entry is made when there is none.
    pub fn store_ad(&mut self, user: u64, post: MessageReference, description: MainSteps)
        ensures
            ads_view(final(self).stored_ads@) == ads_put(
                ads_view(old(self).stored_ads@),
                user,
                post.channel,
                StoredAdData { ad_message: post, description },
            ),
            final(self).in_progress_ad == old(self).in_progress_ad,
    {
        broadcast use vstd::std_specs::hash::group_hash_axioms;
        let channel = post.channel;
        let ghost before = ads_view(self.stored_ads@);
        let mut ads = match self.stored_ads.remove(&user) {
            Some(a) => a,
            None => HashMap::new(),
        };
        assert(ads@ == ads_of_user(before, user));
        ads.insert(channel, StoredAdData { ad_message: post, description });
        self.stored_ads.insert(user, ads);
        assert(ads_view(self.stored_ads@) =~= ads_put(before, user, channel, StoredAdData { ad_message: post, description }));
    }

    /// Removes the published ad of a member in a channel (the member's entry stays); returns whether
    /// there was one.
    pub fn delete_ad(&mut self, user: u64, channel: u64) -> (r: bool)
        ensures
            r == has_stored(ads_view(old(self).stored_ads@), user, channel),
            ads_view(final(self).stored_ads@) == ads_removed(ads_view(old(self).stored_ads@), user, channel),
            final(self).stored_ads@.dom() == old(self).stored_ads@.dom(),
            final(self).in_progress_ad == old(self).in_progress_ad,
    {
        broadcast use vstd::std_specs::hash::group_hash_axioms;
        let ghost before = ads_view(self.stored_ads@);
        match self.stored_ads.remove(&user) {
            None => {
                assert(ads_view(self.stored_ads@) =~= before);
                false
            },
            Some(mut ads) => {
                let found = ads.remove(&channel).is_some();
                self.stored_ads.insert(user, ads);
                assert(ads_view(self.stored_ads@) =~= ads_removed(before, user, channel));
                assert(self.stored_ads@.dom() =~= old(self).stored_ads@.dom());
                found
            },
        }
    }
}

impl AdvertisingConfig {
    /// The position of the form of a member, if the member is filling one.
    pub fn form_index_of(&self, user: u64) -> (r: Option<usize>)
        ensures
            r matches Some(i) ==> i < self.in_progress_ad@.len() && self.in_progress_ad@[i as int].user == user,
            r is None <==> !in_progress_users(self.in_progress_ad@).contains(user),
    {
        let r = self.form_index(user);
        proof {
            if let Some(i) = r {
                assert(in_progress_users(self.in_progress_ad@)[i as int] == user);
            }
        }
        r
    }

    /// The form at a position, to work on.
    pub fn form_at_mut(&mut self, i: usize) -> (r: &mut MainSteps)
        requires
            i < old(self).in_progress_ad@.len(),
        ensures
            *r == old(self).in_progress_ad@[i as int].form,
            final(self).in_progress_ad@ == old(self).in_progress_ad@.update(
                i as int,
                InProgressAd { form: *final(r), ..old(self).in_progress_ad@[i as int] },
            ),
            final(self).stored_ads == old(self).stored_ads,
            final(self).reviewer_roles == old(self).reviewer_roles,
            final(self).max_ad_per_user == old(self).max_ad_per_user,
            final(self).ad_forum == old(self).ad_forum,
            final(self).in_progress_ad_channel == old(self).in_progress_ad_channel,
    {
        &mut self.in_progress_ad[i].form
    }

    /// A copy of a member's published ad in a channel, to be edited: it remembers the ad's message.
    pub fn edit_copy(&self, user: u64, channel: u64) -> (r: Option<MainSteps>)
        ensures
            r is Some <==> has_stored(ads_view(self.stored_ads@), user, channel),
            r matches Some(form) ==> ({
                let d = ads_of_user(ads_view(self.stored_ads@), user)[channel];
                crate::ad_steps::same_form(form, MainSteps { edited_post: Some(d.ad_message), ..d.description })
            }),
    {
        match self.stored_ad(user, channel) {
            None => None,
            Some(d) => {
                let mut form = d.description.copy();
                form.edited_post = Some(d.ad_message);
                Some(form)
            },
        }
    }

    /// The member whose finished form a moderator validates in a thread.
    pub fn publication_user(&self, thread: u64) -> (r: Option<u64>)
        ensures
            r matches Some(u) ==> exists|i: int| 0 <= i < self.in_progress_ad@.len() && self.in_progress_ad@[i].user == u
                && self.in_progress_ad@[i].thread == thread,
            r is None ==> forall|i: int| 0 <= i < self.in_progress_ad@.len() ==> self.in_progress_ad@[i].thread != thread,
    {
        self.user_of_thread(thread)
    }

    /// The title of the forum post of a member's finished form: its title, opened by the emoji of
    /// its kind of contract; an error when the form has no title.
    pub fn new_post_title(&self, i: usize) -> (r: Result<String, crate::error::BidibipError>)
        requires
            i < self.in_progress_ad@.len(),
            ({
                let f = self.in_progress_ad@[i as int].form;
                chosen(f.kind) is Some ==> (f.title.value matches Some(t) ==> truncation_defined(t@, 100))
            }),
        ensures
            ({
                let f = self.in_progress_ad@[i as int].form;
                match f.title.value {
                    Some(t) => r matches Ok(s) && s@ == post_title_spec(chosen(f.kind), t@),
                    None => r matches Err(e) && e.msg@ == "Invalid title"@,
                }
            }),
    {
        let form = &self.in_progress_ad[i].form;
        match &form.title.value {
            None => Err(crate::error::BidibipError::msg("Invalid title")),
            Some(t) => Ok(post_title(crate::ad_steps::chosen_value(&form.kind), t.as_str())),
        }
    }

    /// Ends a member's form once its ad is posted: the form is dropped, cleaned and filed under the
    /// channel of the post.
    pub fn complete_publication(&mut self, user: u64, post: MessageReference) -> (r: bool)
        requires
            advertising_wf(*old(self)),
        ensures
            advertising_wf(*final(self)),
            r == in_progress_users(old(self).in_progress_ad@).contains(user),
            !in_progress_users(final(self).in_progress_ad@).contains(user),
            r ==> exists|k: int| 0 <= k < old(self).in_progress_ad@.len() && old(self).in_progress_ad@[k].user == user
                && ads_view(final(self).stored_ads@) == ads_put(
                ads_view(old(self).stored_ads@),
                user,
                post.channel,
                published_data(post, old(self).in_progress_ad@[k].form),
            ),
            !r ==> *final(self) == *old(self),
    {
        match self.remove_in_progress(user) {
            None => false,
            Some(entry) => {
                let mut form = entry.form;
                form.edited_post = None;
                form.clean_for_storage();
                self.store_ad(user, post, form);
                true
            },
        }
    }

    /// Finds the member whose form is in a thread (the first such form) and takes the preview
    /// message of the form: an error when no form is in the thread, or when the form has no preview
    /// message.
    pub fn take_demo_message(&mut self, thread: u64) -> (r: Result<(u64, u64), crate::error::BidibipError>)
        ensures
            final(self).stored_ads == old(self).stored_ads,
            final(self).reviewer_roles == old(self).reviewer_roles,
            final(self).max_ad_per_user == old(self).max_ad_per_user,
            final(self).ad_forum == old(self).ad_forum,
            final(self).in_progress_ad_channel == old(self).in_progress_ad_channel,
            (forall|i: int| 0 <= i < old(self).in_progress_ad@.len() ==> old(self).in_progress_ad@[i].thread != thread) ==> (r matches Err(
                e,
            ) && e.msg@ == "Failed to find initial user"@ && final(self).in_progress_ad@ == old(self).in_progress_ad@),
            forall|i: int| #[trigger] first_form_in(old(self).in_progress_ad@, thread, i) ==> ({
                let a = old(self).in_progress_ad@[i];
                &&& final(self).in_progress_ad@ == old(self).in_progress_ad@.update(
                    i,
                    InProgressAd { form: MainSteps { demo_message: None, ..a.form }, ..a },
                )
                &&& match a.form.demo_message {
                    Some(d) => r == Ok::<(u64, u64), crate::error::BidibipError>((a.user, d)),
                    None => r matches Err(e) && e.msg@ == "Failed to find demo_message"@,
                }
            }),
    {
        let mut i: usize = 0;
        while i < self.in_progress_ad.len()
            invariant
                i <= self.in_progress_ad@.len(),
                *self == *old(self),
                forall|j: int| 0 <= j < i ==> self.in_progress_ad@[j].thread != thread,
            decreases self.in_progress_ad@.len() - i,
        {
            if self.in_progress_ad[i].thread == thread {
                proof {
                    assert(first_form_in(old(self).in_progress_ad@, thread, i as int));
                    assert forall|k: int| first_form_in(old(self).in_progress_ad@, thread, k) implies k == i by {
                        if k < i {
                            assert(old(self).in_progress_ad@[k].thread != thread);
                        } else if k > i {
                            assert(old(self).in_progress_ad@[i as int].thread != thread);
                        }
                    }
                }
                let user = self.in_progress_ad[i].user;
                let form = self.form_at_mut(i);
                let demo = form.demo_message.take();
                return match demo {
                    Some(d) => Ok((user, d)),
                    None => Err(crate::error::BidibipError::msg("Failed to find demo_message")),
                };
            }
            i = i + 1;
        }
        Err(crate::error::BidibipError::msg("Failed to find initial user"))
    }
}

} // verus!
