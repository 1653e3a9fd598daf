//! Messages described in a JSON file (as the say and rules commands take them), turned into
//! messages to send.
use vstd::prelude::*;
use crate::ad_form::ButtonStyle;
use crate::custom_id::chars_equal;
use crate::error::BidibipError;
use crate::text::{chars_of, truncate_str, truncated, truncation_defined};

verus! {

/// A button of a described message: its style name (`type`), its label and its custom id.
pub struct JsonButton {
    pub button_type: Option<String>,
    pub texte: String,
    pub identifiant: String,
}

/// An interaction of a described message: a button, or nothing.
pub struct JsonInteraction {
    pub bouton: Option<JsonButton>,
}

/// An embed of a described message: its title and its text.
pub struct JsonEmbed {
    pub titre: String,
    pub description: Option<String>,
}

/// A described message: its lines of text, its embeds, its buttons.
pub struct JsonMessage {
    pub textes: Option<Vec<String>>,
    pub embeds: Option<Vec<JsonEmbed>>,
    pub interactions: Option<Vec<JsonInteraction>>,
}

/// A button of a message to send: custom id, label, and the style when one is set.
pub struct PlannedButton {
    pub custom_id: String,
    pub label: String,
    pub style: Option<ButtonStyle>,
}

/// A message to send: its text, its embeds (title and text), and its rows of one button each
/// (`None` when the description had no interactions).
pub struct PlannedMessage {
    pub content: Option<String>,
    pub embeds: Vec<(String, Option<String>)>,
    pub buttons: Option<Vec<PlannedButton>>,
}

/// The style a style name stands for: the four known names, else Primary.
pub open spec fn style_of(name: Seq<char>) -> ButtonStyle {
    if name == "Primary"@ {
        ButtonStyle::Primary
    } else if name == "Secondary"@ {
        ButtonStyle::Secondary
    } else if name == "Success"@ {
        ButtonStyle::Success
    } else if name == "Danger"@ {
        ButtonStyle::Danger
    } else {
        ButtonStyle::Primary
    }
}

/// The name of each style in a JSON description.
pub open spec fn style_name(s: ButtonStyle) -> Seq<char> {
    match s {
        ButtonStyle::Primary => "Primary"@,
        ButtonStyle::Secondary => "Secondary"@,
        ButtonStyle::Success => "Success"@,
        ButtonStyle::Danger => "Danger"@,
    }
}

/// Each style's name stands for that style, and a name that is none of them stands for Primary.
pub proof fn lemma_style_names(s: ButtonStyle, name: Seq<char>)
    ensures
        style_of(style_name(s)) == s,
        (forall|t: ButtonStyle| style_name(t) != name) ==> style_of(name) == ButtonStyle::Primary,
{
    reveal_strlit("Primary");
    reveal_strlit("Secondary");
    reveal_strlit("Success");
    reveal_strlit("Danger");
    assert("Primary"@[0] != "Secondary"@[0]);
    assert("Primary"@[0] != "Success"@[0]);
    assert("Primary"@ != "Danger"@);
    assert("Secondary"@.len() != "Success"@.len());
    assert("Secondary"@ != "Danger"@);
    assert("Success"@ != "Danger"@);
    if forall|t: ButtonStyle| style_name(t) != name {
        assert(style_name(ButtonStyle::Primary) != name);
        assert(style_name(ButtonStyle::Secondary) != name);
        assert(style_name(ButtonStyle::Success) != name);
        assert(style_name(ButtonStyle::Danger) != name);
    }
}

fn equals_text(a: &str, b: &str) -> (r: bool)
    ensures
        r == (a@ == b@),
{
    let x = chars_of(a);
    let y = chars_of(b);
    chars_equal(&x, &y)
}

/// The style a style name stands for.
pub fn button_style(name: &str) -> (r: ButtonStyle)
    ensures
        r == style_of(name@),
{
    if equals_text(name, "Primary") {
        ButtonStyle::Primary
    } else if equals_text(name, "Secondary") {
        ButtonStyle::Secondary
    } else if equals_text(name, "Success") {
        ButtonStyle::Success
    } else if equals_text(name, "Danger") {
        ButtonStyle::Danger
    } else {
        ButtonStyle::Primary
    }
}

/// The lines of text joined, each followed by a line break.
pub open spec fn joined_lines(lines: Seq<Seq<char>>) -> Seq<char>
    decreases lines.len(),
{
    if lines.len() == 0 {
        Seq::empty()
    } else {
        joined_lines(lines.drop_last()) + lines.last() + "\n"@
    }
}

/// Views of strings.
pub open spec fn lines_view(v: Seq<String>) -> Seq<Seq<char>> {
    v.map_values(|s: String| s@)
}

/// Joins lines of text, each followed by a line break.
pub fn join_lines(lines: &Vec<String>) -> (r: String)
    ensures
        r@ == joined_lines(lines_view(lines@)),
{
    let mut r = String::new();
    let mut i: usize = 0;
    while i < lines.len()
        invariant
            i <= lines@.len(),
            r@ == joined_lines(lines_view(lines@).take(i as int)),
        decreases lines@.len() - i,
    {
        r.append(lines[i].as_str());
        r.append("\n");
        proof {
            reveal_strlit("\n");
        }
        assert(lines_view(lines@).take(i + 1).drop_last() =~= lines_view(lines@).take(i as int));
        i = i + 1;
        assert(r@ =~= joined_lines(lines_view(lines@).take(i as int)));
    }
    assert(lines_view(lines@).take(i as int) =~= lines_view(lines@));
    r
}

/// Whether a described message holds neither text nor embed.
pub open spec fn is_empty_message(m: JsonMessage) -> bool {
    (m.textes is None || m.textes->0@.len() == 0) && (m.embeds is None || m.embeds->0@.len() == 0)
}

/// Whether the text of an embed can be cut to 4096 bytes.
pub open spec fn description_cut_defined(e: JsonEmbed) -> bool {
    e.description matches Some(d) ==> truncation_defined(d@, 4096)
}

/// Whether every text and embed description of a described message can be cut to its limit
/// (2000 bytes for the text, 4096 for a description).
pub open spec fn cuts_defined(m: JsonMessage) -> bool {
    &&& (m.textes matches Some(t) ==> truncation_defined(joined_lines(lines_view(t@)), 2000))
    &&& (m.embeds matches Some(es) ==> forall|k: int| 0 <= k < es@.len() ==> description_cut_defined(#[trigger] es@[k]))
}

/// The text of the message to send: the lines joined, cut to 2000 bytes, when there are lines.
pub open spec fn planned_content(m: JsonMessage) -> Option<Seq<char>> {
    match m.textes {
        Some(t) => if t@.len() > 0 {
            Some(truncated(joined_lines(lines_view(t@)), 2000))
        } else {
            None
        },
        None => None,
    }
}

/// An embed to send: its title, and its text cut to 4096 bytes.
pub open spec fn json_embed_view(e: JsonEmbed) -> (Seq<char>, Option<Seq<char>>) {
    (e.titre@, match e.description {
        Some(d) => Some(truncated(d@, 4096)),
        None => None,
    })
}

/// An embed of a message to send, as plain values.
pub open spec fn embed_pair_view(e: (String, Option<String>)) -> (Seq<char>, Option<Seq<char>>) {
    (e.0@, match e.1 {
        Some(d) => Some(d@),
        None => None,
    })
}

/// The embeds of a message to send, as plain values.
pub open spec fn embeds_view(v: Seq<(String, Option<String>)>) -> Seq<(Seq<char>, Option<Seq<char>>)> {
    v.map_values(|e: (String, Option<String>)| embed_pair_view(e))
}

/// The embeds of the message to send: each title, and each text cut to 4096 bytes.
pub open spec fn planned_embeds(m: JsonMessage) -> Seq<(Seq<char>, Option<Seq<char>>)> {
    match m.embeds {
        Some(es) => es@.map_values(|e: JsonEmbed| json_embed_view(e)),
        None => Seq::empty(),
    }
}

/// The buttons of the message to send, one per interaction that holds one.
pub open spec fn planned_buttons(interactions: Seq<JsonInteraction>) -> Seq<(Seq<char>, Seq<char>, Option<ButtonStyle>)>
    decreases interactions.len(),
{
    if interactions.len() == 0 {
        Seq::empty()
    } else {
        let prev = planned_buttons(interactions.drop_last());
        match interactions.last().bouton {
            Some(b) => prev.push((b.identifiant@, b.texte@, match b.button_type {
                Some(t) => Some(style_of(t@)),
                None => None,
            })),
            None => prev,
        }
    }
}

/// Planned buttons seen as plain values.
pub open spec fn planned_buttons_view(bs: Seq<PlannedButton>) -> Seq<(Seq<char>, Seq<char>, Option<ButtonStyle>)> {
    bs.map_values(|b: PlannedButton| (b.custom_id@, b.label@, b.style))
}

fn plan_buttons(interactions: &Vec<JsonInteraction>) -> (r: Vec<PlannedButton>)
    ensures
        planned_buttons_view(r@) == planned_buttons(interactions@),
{
    let mut r: Vec<PlannedButton> = Vec::new();
    let mut i: usize = 0;
    while i < interactions.len()
        invariant
            i <= interactions@.len(),
            planned_buttons_view(r@) == planned_buttons(interactions@.take(i as int)),
        decreases interactions@.len() - i,
    {
        assert(interactions@.take(i + 1).drop_last() =~= interactions@.take(i as int));
        match &interactions[i].bouton {
            Some(b) => {
                let style = match &b.button_type {
                    Some(t) => Some(button_style(t.as_str())),
                    None => None,
                };
                let ghost before = r@;
                r.push(PlannedButton { custom_id: b.identifiant.clone(), label: b.texte.clone(), style });
                assert(planned_buttons_view(r@) =~= planned_buttons_view(before).push(
                    (b.identifiant@, b.texte@, style),
                ));
            },
            None => {},
        }
        i = i + 1;
    }
    assert(interactions@.take(i as int) =~= interactions@);
    r
}

/// What a planned message holds, as `plan_message` plans it from its description.
pub open spec fn planned_as(p: PlannedMessage, m: JsonMessage) -> bool {
    &&& (match p.content {
        Some(c) => planned_content(m) == Some(c@),
        None => planned_content(m) is None,
    })
    &&& embeds_view(p.embeds@) == planned_embeds(m)
    &&& (match m.interactions {
        Some(is) => p.buttons matches Some(bs) && planned_buttons_view(bs@) == planned_buttons(is@),
        None => p.buttons is None,
    })
}

/// Plans one described message.
pub fn plan_message(m: &JsonMessage) -> (r: Result<PlannedMessage, BidibipError>)
    requires
        !is_empty_message(*m) ==> cuts_defined(*m),
    ensures
        is_empty_message(*m) <==> r is Err,
        r matches Err(e) ==> e.msg@ == "Chaque message doit contenir au moins un message ou au moins un embed"@,
        r matches Ok(p) ==> planned_as(p, *m),
{
    let no_text = match &m.textes {
        None => true,
        Some(t) => t.len() == 0,
    };
    let no_embed = match &m.embeds {
        None => true,
        Some(e) => e.len() == 0,
    };
    if no_text && no_embed {
        return Err(BidibipError::msg("Chaque message doit contenir au moins un message ou au moins un embed"));
    }
    assert(cuts_defined(*m));
    let content = match &m.textes {
        Some(t) => {
            if t.len() > 0 {
                let full = join_lines(t);
                Some(truncate_str(full.as_str(), 2000))
            } else {
                None
            }
        },
        None => None,
    };
    let mut embeds: Vec<(String, Option<String>)> = Vec::new();
    match &m.embeds {
        Some(es) => {
            let mut k: usize = 0;
            while k < es.len()
                invariant
                    k <= es@.len(),
                    m.embeds == Some(*es),
                    cuts_defined(*m),
                    embeds_view(embeds@) == planned_embeds(*m).take(k as int),
                decreases es@.len() - k,
            {
                let description = match &es[k].description {
                    Some(d) => {
                        assert(description_cut_defined(es@[k as int]));
                        Some(truncate_str(d.as_str(), 4096))
                    },
                    None => None,
                };
                let ghost before = embeds@;
                embeds.push((es[k].titre.clone(), description));
                assert(embeds_view(embeds@) =~= embeds_view(before).push(json_embed_view(es@[k as int])));
                k = k + 1;
                assert(embeds_view(embeds@) =~= planned_embeds(*m).take(k as int));
            }
            assert(planned_embeds(*m).take(k as int) =~= planned_embeds(*m));
        },
        None => {
            assert(embeds_view(embeds@) =~= planned_embeds(*m));
        },
    }
    let buttons = match &m.interactions {
        Some(is) => Some(plan_buttons(is)),
        None => None,
    };
    Ok(PlannedMessage { content, embeds, buttons })
}

/// Whether no described message before the `i`-th one is empty.
pub open spec fn no_empty_before(ms: Seq<JsonMessage>, i: int) -> bool {
    forall|j: int| 0 <= j < i ==> !is_empty_message(#[trigger] ms[j])
}

/// Whether the cuts of a described message are defined, if it is not empty.
pub open spec fn cut_ok(m: JsonMessage) -> bool {
    !is_empty_message(m) ==> cuts_defined(m)
}

/// Whether the cuts are defined for every described message up to the first empty one: the
/// messages that planning reaches and cuts.
pub open spec fn cuts_needed(ms: Seq<JsonMessage>) -> bool {
    forall|i: int| 0 <= i < ms.len() && no_empty_before(ms, i) ==> cut_ok(#[trigger] ms[i])
}

/// Whether a described message holds neither text nor embed.
pub fn message_is_empty(m: &JsonMessage) -> (r: bool)
    ensures
        r == is_empty_message(*m),
{
    let no_text = match &m.textes {
        None => true,
        Some(t) => t.len() == 0,
    };
    let no_embed = match &m.embeds {
        None => true,
        Some(e) => e.len() == 0,
    };
    no_text && no_embed
}

/// Whether the text and the embed descriptions of a described message can be cut to their limits.
pub fn message_cuts_defined(m: &JsonMessage) -> (r: bool)
    ensures
        r == cuts_defined(*m),
{
    match &m.textes {
        Some(t) => {
            let full = join_lines(t);
            if !crate::text::truncation_is_defined(full.as_str(), 2000) {
                return false;
            }
        },
        None => {},
    }
    match &m.embeds {
        Some(es) => {
            let mut k: usize = 0;
            while k < es.len()
                invariant
                    k <= es@.len(),
                    m.embeds == Some(*es),
                    forall|j: int| 0 <= j < k ==> description_cut_defined(#[trigger] es@[j]),
                decreases es@.len() - k,
            {
                match &es[k].description {
                    Some(d) => {
                        if !crate::text::truncation_is_defined(d.as_str(), 4096) {
                            assert(!description_cut_defined(es@[k as int]));
                            assert(m.embeds->0@[k as int] == es@[k as int]);
                            assert(!(forall|j: int| 0 <= j < m.embeds->0@.len() ==> description_cut_defined(#[trigger] m.embeds->0@[j])));
                            return false;
                        }
                    },
                    None => {},
                }
                k = k + 1;
            }
        },
        None => {},
    }
    true
}

/// Whether planning the described messages cuts every text where it can (see `cuts_needed`): what
/// `json_to_message` asks of its input.
pub fn messages_cuts_defined(messages: &Vec<JsonMessage>) -> (r: bool)
    ensures
        r == cuts_needed(messages@),
{
    let mut i: usize = 0;
    while i < messages.len()
        invariant
            i <= messages@.len(),
            no_empty_before(messages@, i as int),
            forall|k: int| 0 <= k < i ==> cut_ok(#[trigger] messages@[k]),
        decreases messages@.len() - i,
    {
        if message_is_empty(&messages[i]) {
            assert forall|k: int| 0 <= k < messages@.len() && no_empty_before(messages@, k) implies cut_ok(#[trigger] messages@[k]) by {
                if k > i {
                    assert(!is_empty_message(messages@[i as int]));
                }
            }
            return true;
        }
        if !message_cuts_defined(&messages[i]) {
            assert(no_empty_before(messages@, i as int) && !cut_ok(messages@[i as int]));
            return false;
        }
        i = i + 1;
    }
    true
}

/// Plans the described messages in order; the first one that holds neither text nor embed makes
/// the whole description an error.
pub fn json_to_message(messages: &Vec<JsonMessage>) -> (r: Result<Vec<PlannedMessage>, BidibipError>)
    requires
        cuts_needed(messages@),
    ensures
        r is Err <==> exists|i: int| 0 <= i < messages@.len() && is_empty_message(#[trigger] messages@[i]),
        r matches Err(e) ==> e.msg@ == "Chaque message doit contenir au moins un message ou au moins un embed"@,
        r matches Ok(v) ==> v@.len() == messages@.len() && forall|i: int| 0 <= i < v@.len() ==> planned_as(#[trigger] v@[i], messages@[i]),
{
    let mut out: Vec<PlannedMessage> = Vec::new();
    let mut i: usize = 0;
    while i < messages.len()
        invariant
            i <= messages@.len(),
            out@.len() == i,
            cuts_needed(messages@),
            no_empty_before(messages@, i as int),
            forall|j: int| 0 <= j < i ==> planned_as(#[trigger] out@[j], messages@[j]),
        decreases messages@.len() - i,
    {
        assert(cut_ok(messages@[i as int]));
        match plan_message(&messages[i]) {
            Ok(p) => {
                out.push(p);
                assert(no_empty_before(messages@, i + 1));
            },
            Err(e) => {
                return Err(e);
            },
        }
        i = i + 1;
    }
    Ok(out)
}

} // verus!
