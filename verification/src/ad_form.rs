//! The questions of the ad form: a free text answer, or a choice among buttons.
use vstd::prelude::*;
use crate::button_id::{ButtonId, ButtonIds};
use crate::custom_id::{chars_equal, custom_id_spec, get_custom_id_action, custom_id_action_spec, make_custom_id};
use crate::error::BidibipError;
use crate::text::{chars_of, decimal, truncate_str, truncated, truncation_defined, u64_to_string};

verus! {

/// Name of the advertising module, used in its buttons' custom ids.
pub fn module_name() -> (r: &'static str)
    ensures
        r@ == "advertising"@,
{
    "advertising"
}

/// Description of the advertising module.
pub fn module_description() -> (r: &'static str)
    ensures
        r@ == "Créer une annonce d'offre ou de recherche d'emploi"@,
{
    "Créer une annonce d'offre ou de recherche d'emploi"
}

/// The look of a button.
#[derive(PartialEq, Eq, Structural, Clone, Copy, Debug)]
pub enum ButtonStyle {
    Primary,
    Secondary,
    Success,
    Danger,
}

/// A button to put under a message.
pub struct ButtonSpec {
    pub custom_id: String,
    pub label: String,
    pub style: ButtonStyle,
}

/// A button seen as plain values: custom id, label and style.
pub open spec fn button_view(b: ButtonSpec) -> (Seq<char>, Seq<char>, ButtonStyle) {
    (b.custom_id@, b.label@, b.style)
}

/// Buttons seen as plain values.
pub open spec fn buttons_view(bs: Seq<ButtonSpec>) -> Seq<(Seq<char>, Seq<char>, ButtonStyle)> {
    bs.map_values(|b: ButtonSpec| button_view(b))
}

/// The custom id of an advertising button that carries a numeric id.
pub open spec fn ad_button_id(id: u64) -> Seq<char> {
    custom_id_spec("advertising"@, decimal(id as nat), Seq::<char>::empty())
}

/// The first line of a question message.
pub open spec fn heading(title: Seq<char>) -> Seq<char> {
    "## ▶  "@ + title
}

/// The first line of a question message (the whole text of a choice question).
pub fn heading_text(title: &str) -> (r: String)
    ensures
        r@ == heading(title@),
{
    let mut r = String::new();
    r.append("## ▶  ");
    r.append(title);
    proof {
        reveal_strlit("## ▶  ");
    }
    r
}

/// Whether the answer an edition modal brings can be shown cut to 1650 bytes: what
/// `TextOption::try_edit_modal` asks of `first_input`.
pub fn answer_fits(first_input: &Option<Option<String>>) -> (r: bool)
    ensures
        r == (*first_input matches Some(t) ==> truncation_defined(shown_answer(opt_view(t)), 1650)),
{
    proof {
        reveal_strlit(":negative_squared_cross_mark:");
        reveal_strlit("`");
    }
    match first_input {
        None => true,
        Some(None) => crate::text::truncation_is_defined(":negative_squared_cross_mark:", 1650),
        Some(Some(t)) => {
            if t.as_str().unicode_len() == 0 {
                crate::text::truncation_is_defined(":negative_squared_cross_mark:", 1650)
            } else {
                let mut shown = String::new();
                shown.append("`");
                shown.append(t.as_str());
                shown.append("`");
                crate::text::truncation_is_defined(shown.as_str(), 1650)
            }
        },
    }
}

/// Where an allocator stands after handing out one id: the id, the greatest id so far and the
/// ids still free.
pub open spec fn alloc_one(max: u64, free: Seq<u64>) -> (u64, u64, Seq<u64>) {
    if free.len() > 0 {
        (free.last(), max, free.drop_last())
    } else {
        ((max + 1) as u64, (max + 1) as u64, free)
    }
}

/// Whether `n` more ids can be handed out without overflowing the counter.
pub open spec fn can_allocate_n(ids: ButtonIds, n: nat) -> bool {
    ids.free@.len() + (u64::MAX - ids.max) >= n
}

/// Whether the allocator can still give `n` button ids.
pub fn ids_left(ids: &ButtonIds, n: u64) -> (r: bool)
    ensures
        r == can_allocate_n(*ids, n as nat),
{
    let free: u128 = ids.free.len() as u128;
    let room: u128 = (u64::MAX - ids.max) as u128;
    free + room >= n as u128
}

fn take_id(ids: &mut ButtonIds) -> (r: ButtonId)
    requires
        can_allocate_n(*old(ids), 1),
    ensures
        r.id == alloc_one(old(ids).max, old(ids).free@).0,
        final(ids).max == alloc_one(old(ids).max, old(ids).free@).1,
        final(ids).free@ == alloc_one(old(ids).max, old(ids).free@).2,
{
    ButtonId::new(ids)
}

/// The question message of a text answer: its id, its title and whether the answer may be left out.
pub struct QuestionMessage {
    pub message: u64,
    pub title: String,
    pub optional: bool,
}

/// A question answered by a message: the answer, whether it was left out, its buttons, and the
/// modal that was opened to edit it.
pub struct TextOption {
    pub value: Option<String>,
    pub skipped: bool,
    pub edit_button: Option<ButtonId>,
    pub clear_button: Option<ButtonId>,
    pub question_message: Option<QuestionMessage>,
    pub waiting_edition_id: Option<ButtonId>,
}

/// A message to post: its text and its buttons.
pub struct QuestionPost {
    pub content: String,
    pub buttons: Vec<ButtonSpec>,
}

/// A new text, and new buttons, for a question message already posted.
pub struct QuestionEdit {
    pub message: u64,
    pub content: String,
    pub buttons: Option<Vec<ButtonSpec>>,
}

/// A modal to open to edit an answer: its custom id, its title, whether the answer is required
/// and the text it starts with.
pub struct EditModal {
    pub custom_id: String,
    pub title: String,
    pub required: bool,
    pub value: String,
}

/// What a click on a button of a text question leads to.
pub enum TextClick {
    Ignored,
    Cleared(QuestionEdit),
    Edit(EditModal),
}

/// The optional part of a value, by view.
pub open spec fn opt_view(o: Option<String>) -> Option<Seq<char>> {
    match o {
        Some(s) => Some(s@),
        None => None,
    }
}

/// The text shown under a question once it is answered.
pub open spec fn answered_content(title: Seq<char>, value: Seq<char>, title_max: Option<nat>, value_max: nat) -> Seq<char> {
    heading(
        match title_max {
            Some(m) => truncated(title, m),
            None => title,
        },
    ) + "\n`"@ + truncated(value, value_max) + "`"@
}

/// The edit button, then, for a question that may be left out, the clear button.
pub open spec fn answer_buttons(edit: u64, clear: u64, optional: bool, clear_label: Seq<char>) -> Seq<(Seq<char>, Seq<char>, ButtonStyle)> {
    if optional {
        seq![(ad_button_id(edit), "Modifier"@, ButtonStyle::Secondary), (ad_button_id(clear), clear_label, ButtonStyle::Secondary)]
    } else {
        seq![(ad_button_id(edit), "Modifier"@, ButtonStyle::Secondary)]
    }
}

fn secondary_button(id: ButtonId, label: &str) -> (r: ButtonSpec)
    ensures
        button_view(r) == (ad_button_id(id.id), label@, ButtonStyle::Secondary),
{
    let custom_id = id.custom_id(module_name());
    ButtonSpec { custom_id, label: label.to_owned(), style: ButtonStyle::Secondary }
}

fn answer_button_list(edit: ButtonId, clear: ButtonId, optional: bool, clear_label: &str) -> (r: Vec<ButtonSpec>)
    ensures
        buttons_view(r@) == answer_buttons(edit.id, clear.id, optional, clear_label@),
{
    proof {
        reveal_strlit("Modifier");
    }
    let mut r: Vec<ButtonSpec> = Vec::new();
    r.push(secondary_button(edit, "Modifier"));
    if optional {
        r.push(secondary_button(clear, clear_label));
    }
    assert(buttons_view(r@) =~= answer_buttons(edit.id, clear.id, optional, clear_label@));
    r
}

fn free_button(b: &mut Option<ButtonId>, ids: &mut ButtonIds)
    ensures
        final(ids).max == old(ids).max,
        match *old(b) {
            Some(id) => final(ids).free@ == old(ids).free@.push(id.id) && *final(b) == Some(ButtonId { id: 0 }),
            None => final(ids).free@ == old(ids).free@ && *final(b) == *old(b),
        },
{
    match b {
        Some(id) => {
            id.free(ids);
        },
        None => {},
    }
}

impl TextOption {
    /// A copy of the question.
    pub fn copy(&self) -> (r: TextOption)
        ensures
            r == *self,
    {
        let value = match &self.value {
            Some(v) => Some(v.clone()),
            None => None,
        };
        let question_message = match &self.question_message {
            Some(q) => Some(QuestionMessage { message: q.message, title: q.title.clone(), optional: q.optional }),
            None => None,
        };
        TextOption {
            value,
            skipped: self.skipped,
            edit_button: self.edit_button,
            clear_button: self.clear_button,
            question_message,
            waiting_edition_id: self.waiting_edition_id,
        }
    }

    /// A question not asked yet.
    pub fn new() -> (r: TextOption)
        ensures
            r.value is None,
            !r.skipped,
            r.edit_button is None,
            r.clear_button is None,
            r.question_message is None,
            r.waiting_edition_id is None,
    {
        TextOption {
            value: None,
            skipped: false,
            edit_button: None,
            clear_button: None,
            question_message: None,
            waiting_edition_id: None,
        }
    }

    /// Whether nothing was asked nor answered: no answer (or one left out) and no question posted.
    pub open spec fn is_none_spec(&self) -> bool {
        (self.value is None || self.skipped) && self.question_message is None
    }

    /// Whether the question still needs the user: no answer and not left out, or no question posted.
    pub open spec fn is_unset_spec(&self) -> bool {
        (self.value is None && !self.skipped) || self.question_message is None
    }

    /// Whether nothing was asked nor answered.
    pub fn is_none(&self) -> (r: bool)
        ensures
            r == self.is_none_spec(),
    {
        (self.value.is_none() || self.skipped) && self.question_message.is_none()
    }

    /// Whether the question still needs the user.
    pub fn is_unset(&self) -> (r: bool)
        ensures
            r == self.is_unset_spec(),
    {
        (self.value.is_none() && !self.skipped) || self.question_message.is_none()
    }

    /// The answer.
    pub fn value(&self) -> (r: Option<&String>)
        ensures
            r is Some == self.value is Some,
            r matches Some(v) ==> v@ == self.value->0@,
    {
        match &self.value {
            Some(v) => Some(v),
            None => None,
        }
    }

    /// Forgets what only the form needs (buttons, question message, pending modal); the answer stays.
    pub fn clean_for_storage(&mut self)
        ensures
            *final(self) == stored_text(*old(self)),
    {
        self.edit_button = None;
        self.clear_button = None;
        self.waiting_edition_id = None;
        self.question_message = None;
    }

    /// The part of removing a question that concerns the form: the buttons are given back (their
    /// ids become 0), and the answer and the question message are forgotten.
    pub fn delete(&mut self, ids: &mut ButtonIds)
        ensures
            final(self).value is None,
            final(self).question_message is None,
            final(self).skipped == old(self).skipped,
            final(self).waiting_edition_id == old(self).waiting_edition_id,
            final(self).edit_button == (match old(self).edit_button {
                Some(_) => Some(ButtonId { id: 0 }),
                None => None,
            }),
            final(self).clear_button == (match old(self).clear_button {
                Some(_) => Some(ButtonId { id: 0 }),
                None => None,
            }),
            final(ids).max == old(ids).max,
            final(ids).free@ == old(ids).free@ + (match old(self).edit_button {
                Some(b) => seq![b.id],
                None => Seq::empty(),
            }) + (match old(self).clear_button {
                Some(b) => seq![b.id],
                None => Seq::empty(),
            }),
    {
        let ghost free0 = ids.free@;
        free_button(&mut self.edit_button, ids);
        let ghost free1 = ids.free@;
        free_button(&mut self.clear_button, ids);
        self.value = None;
        self.question_message = None;
        assert(ids.free@ =~= free0 + (match old(self).edit_button {
            Some(b) => seq![b.id],
            None => Seq::empty(),
        }) + (match old(self).clear_button {
            Some(b) => seq![b.id],
            None => Seq::empty(),
        }));
    }
}


/// The action that a custom id of the advertising module carries, if it is one.
pub open spec fn ad_action(custom_id: Seq<char>) -> Option<Seq<char>> {
    match custom_id_action_spec(custom_id, "advertising"@) {
        Some((action, _)) => Some(action),
        None => None,
    }
}

/// Whether a custom id designates the given button.
pub open spec fn clicked(button: Option<ButtonId>, custom_id: Seq<char>) -> bool {
    button matches Some(b) && ad_action(custom_id) == Some(decimal(b.id as nat))
}

/// The free ids after giving back an optional button.
pub open spec fn freed(free: Seq<u64>, b: Option<ButtonId>) -> Seq<u64> {
    match b {
        Some(x) => free.push(x.id),
        None => free,
    }
}

/// The question text once the answer was left out.
pub open spec fn cleared_content(title: Seq<char>) -> Seq<char> {
    heading(truncated(title, 300)) + "\n:negative_squared_cross_mark:"@
}

/// The question text that asks for an answer.
pub open spec fn asking_content(title: Seq<char>) -> Seq<char> {
    heading(truncated(title, 300)) + "\n> *Écris ta réponse sous ce message*"@
}

fn ad_action_of(custom_id: &str) -> (r: Option<Vec<char>>)
    ensures
        match r {
            Some(a) => ad_action(custom_id@) == Some(a@),
            None => ad_action(custom_id@) is None,
        },
{
    match get_custom_id_action(custom_id, module_name()) {
        Some((action, _)) => Some(chars_of(action.as_str())),
        None => None,
    }
}

fn is_clicked(button: Option<ButtonId>, action: &Option<Vec<char>>) -> (r: bool)
    ensures
        r == (button matches Some(b) && action matches Some(a) && a@ == decimal(b.id as nat)),
{
    match (button, action) {
        (Some(b), Some(a)) => {
            let id_text = u64_to_string(b.id);
            let id_chars = chars_of(id_text.as_str());
            chars_equal(&id_chars, a)
        },
        _ => false,
    }
}

impl TextOption {
    /// Prepares the question message, unless it was posted already: for a question without an
    /// answer, the question and (for an optional one) an "Ignorer" button; for one that holds an
    /// answer (an ad being edited), the question, the answer and its buttons. The buttons' ids are
    /// taken from the allocator and kept.
    pub fn init_post(&mut self, ids: &mut ButtonIds, title: &str, optional: bool) -> (r: Option<QuestionPost>)
        requires
            can_allocate_n(*old(ids), 2),
            truncation_defined(title@, 300),
            old(self).value matches Some(v) ==> truncation_defined(v@, 1650),
        ensures
            opt_view(final(self).value) == opt_view(old(self).value),
            final(self).skipped == old(self).skipped,
            final(self).question_message == old(self).question_message,
            final(self).waiting_edition_id == old(self).waiting_edition_id,
            old(self).question_message is Some ==> r is None && final(self).edit_button == old(self).edit_button
                && final(self).clear_button == old(self).clear_button && final(ids).max == old(ids).max
                && final(ids).free@ == old(ids).free@,
            old(self).question_message is None && old(self).value is None ==> {
                let a = alloc_one(old(ids).max, old(ids).free@);
                &&& r matches Some(p)
                &&& p.content@ == asking_content(title@)
                &&& buttons_view(p.buttons@) == (if optional {
                    seq![(ad_button_id(a.0), "Ignorer"@, ButtonStyle::Secondary)]
                } else {
                    Seq::empty()
                })
                &&& final(self).clear_button == Some(ButtonId { id: a.0 })
                &&& final(self).edit_button == old(self).edit_button
                &&& final(ids).max == a.1 && final(ids).free@ == a.2
            },
            old(self).question_message is None ==> (old(self).value matches Some(v) ==> {
                let a = alloc_one(old(ids).max, old(ids).free@);
                let b = alloc_one(a.1, a.2);
                &&& r matches Some(p)
                &&& p.content@ == answered_content(title@, v@, Some(300), 1650)
                &&& buttons_view(p.buttons@) == answer_buttons(a.0, b.0, optional, "Supprimer"@)
                &&& final(self).edit_button == Some(ButtonId { id: a.0 })
                &&& final(self).clear_button == Some(ButtonId { id: b.0 })
                &&& final(ids).max == b.1 && final(ids).free@ == b.2
            }),
    {
        if self.question_message.is_some() {
            return None;
        }
        let shown_title = truncate_str(title, 300);
        let mut content = String::new();
        content.append("## ▶  ");
        content.append(shown_title.as_str());
        proof {
            reveal_strlit("## ▶  ");
        }
        match &self.value {
            None => {
                let skip = take_id(ids);
                self.clear_button = Some(skip);
                content.append("\n> *Écris ta réponse sous ce message*");
                proof {
                    reveal_strlit("\n> *Écris ta réponse sous ce message*");
                    reveal_strlit("Ignorer");
                }
                let mut buttons: Vec<ButtonSpec> = Vec::new();
                if optional {
                    buttons.push(secondary_button(skip, "Ignorer"));
                }
                assert(content@ =~= asking_content(title@));
                assert(buttons_view(buttons@) =~= (if optional {
                    seq![(ad_button_id(skip.id), "Ignorer"@, ButtonStyle::Secondary)]
                } else {
                    Seq::empty()
                }));
                Some(QuestionPost { content, buttons })
            },
            Some(value) => {
                let edit = take_id(ids);
                let skip = take_id(ids);
                let shown_value = truncate_str(value.as_str(), 1650);
                content.append("\n`");
                content.append(shown_value.as_str());
                content.append("`");
                proof {
                    reveal_strlit("\n`");
                    reveal_strlit("`");
                }
                let buttons = answer_button_list(edit, skip, optional, "Supprimer");
                assert(content@ =~= answered_content(title@, value@, Some(300), 1650));
                self.edit_button = Some(edit);
                self.clear_button = Some(skip);
                Some(QuestionPost { content, buttons })
            },
        }
    }

    /// Records the question message once posted.
    pub fn set_question(&mut self, message: u64, title: String, optional: bool)
        ensures
            final(self).question_message matches Some(q) && q.message == message && q.title@ == title@
                && q.optional == optional,
            opt_view(final(self).value) == opt_view(old(self).value),
            final(self).skipped == old(self).skipped,
            final(self).edit_button == old(self).edit_button,
            final(self).clear_button == old(self).clear_button,
            final(self).waiting_edition_id == old(self).waiting_edition_id,
    {
        self.question_message = Some(QuestionMessage { message, title, optional });
    }

    /// Takes a message of the user as the answer, when the question is posted and neither answered
    /// nor left out: the question message then shows the answer (cut to 1900 bytes) with an edit
    /// button and, for an optional question, a clear button; the previous clear button is given
    /// back. Otherwise nothing changes.
    pub fn try_set(&mut self, ids: &mut ButtonIds, content: &str) -> (r: Option<QuestionEdit>)
        requires
            can_allocate_n(*old(ids), 2),
            truncation_defined(content@, 1900),
        ensures
            final(self).skipped == old(self).skipped,
            final(self).waiting_edition_id == old(self).waiting_edition_id,
            final(self).question_message == old(self).question_message,
            !(old(self).question_message is Some && old(self).value is None && !old(self).skipped) ==> r is None
                && opt_view(final(self).value) == opt_view(old(self).value) && final(self).edit_button == old(
                self,
            ).edit_button && final(self).clear_button == old(self).clear_button && final(ids).max == old(ids).max
                && final(ids).free@ == old(ids).free@,
            old(self).value is None && !old(self).skipped ==> (old(self).question_message matches Some(q) ==> {
                let a = alloc_one(old(ids).max, old(ids).free@);
                let b = alloc_one(a.1, a.2);
                &&& r matches Some(e)
                &&& e.message == q.message
                &&& e.content@ == answered_content(q.title@, content@, None, 1900)
                &&& e.buttons matches Some(bs) && buttons_view(bs@) == answer_buttons(a.0, b.0, q.optional, "Supprimer"@)
                &&& opt_view(final(self).value) == Some(content@)
                &&& final(self).edit_button == Some(ButtonId { id: a.0 })
                &&& final(self).clear_button == Some(ButtonId { id: b.0 })
                &&& final(ids).max == b.1
                &&& final(ids).free@ == freed(b.2, old(self).clear_button)
            }),
    {
        if self.value.is_some() || self.skipped {
            return None;
        }
        match &self.question_message {
            None => None,
            Some(q) => {
                let edit = take_id(ids);
                let clear = take_id(ids);
                let buttons = answer_button_list(edit, clear, q.optional, "Supprimer");
                let shown = truncate_str(content, 1900);
                let mut text = String::new();
                text.append("## ▶  ");
                text.append(q.title.as_str());
                text.append("\n`");
                text.append(shown.as_str());
                text.append("`");
                proof {
                    reveal_strlit("## ▶  ");
                    reveal_strlit("\n`");
                    reveal_strlit("`");
                }
                assert(text@ =~= answered_content(q.title@, content@, None, 1900));
                let message = q.message;
                free_button(&mut self.clear_button, ids);
                self.clear_button = Some(clear);
                self.edit_button = Some(edit);
                self.value = Some(content.to_owned());
                Some(QuestionEdit { message, content: text, buttons: Some(buttons) })
            },
        }
    }
}

/// Whether a submitted modal is the awaited edition modal and holds a text input.
pub open spec fn awaited_modal(waiting: Option<ButtonId>, custom_id: Seq<char>, has_input: bool) -> bool {
    waiting matches Some(w) && ad_button_id(w.id) == custom_id && has_input
}

/// The text a question message shows after its answer was edited in a modal.
pub open spec fn edited_content(title: Seq<char>, shown: Seq<char>) -> Seq<char> {
    heading(truncated(title, 300)) + "\n"@ + truncated(shown, 1650)
}

/// What an edited answer shows: the answer in backquotes, or the mark of an answer left out.
pub open spec fn shown_answer(text: Option<Seq<char>>) -> Seq<char> {
    match text {
        Some(t) => if t.len() == 0 {
            ":negative_squared_cross_mark:"@
        } else {
            "`"@ + t + "`"@
        },
        None => ":negative_squared_cross_mark:"@,
    }
}

/// Whether a question takes a click: on its clear button once posted, or on its edit button.
pub open spec fn takes_click(t: TextOption, custom_id: Seq<char>) -> bool {
    (clicked(t.clear_button, custom_id) && t.question_message is Some) || clicked(t.edit_button, custom_id)
}

/// Whether a choice question takes a click: it is posted and one of its keys is the click's action
/// (see `ButtonOption::try_set`).
pub open spec fn takes_choice<T>(b: ButtonOption<T>, custom_id: Seq<char>) -> bool {
    b.question_options matches Some(q) && ad_action(custom_id) matches Some(a) && item_keys(q.items@).contains(a)
}

/// What the submission of an edition modal does to a text question (see
/// `TextOption::try_edit_modal`): the question before and after (`t`, `t2`), the allocator before
/// and after (`ids`, `ids2`), the modal's custom id and first input, and the outcome.
pub open spec fn edit_modal_post(
    t: TextOption,
    ids: ButtonIds,
    custom_id: Seq<char>,
    first_input: Option<Option<String>>,
    r: Result<Option<QuestionEdit>, BidibipError>,
    t2: TextOption,
    ids2: ButtonIds,
) -> bool {
    &&& t2.question_message == t.question_message
    &&& t2.edit_button == t.edit_button
    &&& t2.clear_button == t.clear_button
    &&& ids2.max == ids.max
    &&& !awaited_modal(t.waiting_edition_id, custom_id, first_input is Some) ==> (r matches Ok(None) && t2 == t && ids2 == ids)
    &&& awaited_modal(t.waiting_edition_id, custom_id, first_input is Some) ==> (match t.question_message {
        None => r matches Err(e) && e.msg@ == "Failed to get question message"@ && opt_view(t2.value) == opt_view(t.value)
            && t2.skipped == t.skipped && t2.waiting_edition_id == t.waiting_edition_id && ids2.free@ == ids.free@,
        Some(q) => {
            let a = opt_view(first_input->0);
            &&& r matches Ok(Some(e))
            &&& e.message == q.message
            &&& e.content@ == edited_content(q.title@, shown_answer(a))
            &&& e.buttons is None
            &&& (match a {
                Some(text) => if text.len() == 0 {
                    t2.value is None && t2.skipped
                } else {
                    opt_view(t2.value) == Some(text) && t2.skipped == t.skipped
                },
                None => t2.value is None && t2.skipped,
            })
            &&& t2.waiting_edition_id is None
            &&& ids2.free@ == ids.free@.push(t.waiting_edition_id->0.id)
        },
    })
}

/// What a click on a text question does (see `TextOption::try_edit_click`): the question before
/// and after (`t`, `t2`), the allocator before and after (`ids`, `ids2`), and the outcome.
pub open spec fn edit_click_post(
    t: TextOption,
    ids: ButtonIds,
    custom_id: Seq<char>,
    r: Result<TextClick, BidibipError>,
    t2: TextOption,
    ids2: ButtonIds,
) -> bool {
    &&& t2.question_message == t.question_message
    &&& clicked(t.clear_button, custom_id) && t.question_message is Some ==> ({
        let f = freed(freed(ids.free@, t.edit_button), t.clear_button);
        let a = alloc_one(ids.max, f);
        let b = alloc_one(a.1, a.2);
        &&& r matches Ok(TextClick::Cleared(e))
        &&& e.message == t.question_message->0.message
        &&& e.content@ == cleared_content(t.question_message->0.title@)
        &&& e.buttons matches Some(bs) && buttons_view(bs@) == seq![(ad_button_id(a.0), "Modifier"@, ButtonStyle::Secondary)]
        &&& t2.value is None
        &&& t2.skipped
        &&& t2.edit_button == Some(ButtonId { id: a.0 })
        &&& t2.clear_button == Some(ButtonId { id: b.0 })
        &&& t2.waiting_edition_id == t.waiting_edition_id
        &&& ids2.max == b.1 && ids2.free@ == b.2
    })
    &&& !(clicked(t.clear_button, custom_id) && t.question_message is Some) && clicked(t.edit_button, custom_id) ==> ({
        &&& match t.question_message {
            None => r matches Err(e) && e.msg@ == "Question message should be none"@ && ids2.max == ids.max
                && ids2.free@ == ids.free@ && t2.waiting_edition_id == t.waiting_edition_id,
            Some(q) => {
                let a = alloc_one(ids.max, ids.free@);
                &&& r matches Ok(TextClick::Edit(m))
                &&& m.custom_id@ == ad_button_id(a.0)
                &&& m.title@ == truncated(q.title@, 45)
                &&& m.required == !q.optional
                &&& m.value@ == (match t.value {
                    Some(v) => v@,
                    None => Seq::empty(),
                })
                &&& t2.waiting_edition_id == Some(ButtonId { id: a.0 })
                &&& ids2.max == a.1 && ids2.free@ == a.2
            },
        }
        &&& opt_view(t2.value) == opt_view(t.value)
        &&& t2.skipped == t.skipped
        &&& t2.edit_button == t.edit_button
        &&& t2.clear_button == t.clear_button
    })
    &&& r matches Ok(TextClick::Ignored) ==> t2 == t && ids2 == ids
    &&& !takes_click(t, custom_id) ==> r matches Ok(TextClick::Ignored)
}

impl TextOption {
    /// Handles a click on one of the question's buttons. The clear button (of a posted question)
    /// leaves the answer out: both buttons are given back, two new ones are taken, and the message
    /// shows the mark of a left-out answer with an edit button. The edit button opens a modal that
    /// starts with the answer; its id is taken from the allocator and awaited. Other clicks change
    /// nothing.
    pub fn try_edit_click(&mut self, ids: &mut ButtonIds, custom_id: &str) -> (r: Result<TextClick, BidibipError>)
        requires
            can_allocate_n(*old(ids), 2),
            old(self).question_message matches Some(q) ==> truncation_defined(q.title@, 300)
                && truncation_defined(q.title@, 45),
        ensures
            edit_click_post(*old(self), *old(ids), custom_id@, r, *final(self), *final(ids)),
    {
        let action = ad_action_of(custom_id);
        if is_clicked(self.clear_button, &action) {
            match &self.question_message {
                Some(q) => {
                    let ghost f0 = ids.free@;
                    free_button(&mut self.edit_button, ids);
                    free_button(&mut self.clear_button, ids);
                    let edit = take_id(ids);
                    let clear = take_id(ids);
                    self.value = None;
                    self.skipped = true;
                    let shown_title = truncate_str(q.title.as_str(), 300);
                    let mut text = String::new();
                    text.append("## ▶  ");
                    text.append(shown_title.as_str());
                    text.append("\n:negative_squared_cross_mark:");
                    proof {
                        reveal_strlit("## ▶  ");
                        reveal_strlit("\n:negative_squared_cross_mark:");
                        reveal_strlit("Modifier");
                    }
                    assert(text@ =~= cleared_content(q.title@));
                    let mut buttons: Vec<ButtonSpec> = Vec::new();
                    buttons.push(secondary_button(edit, "Modifier"));
                    assert(buttons_view(buttons@) =~= seq![(ad_button_id(edit.id), "Modifier"@, ButtonStyle::Secondary)]);
                    let message = q.message;
                    self.clear_button = Some(clear);
                    self.edit_button = Some(edit);
                    return Ok(TextClick::Cleared(QuestionEdit { message, content: text, buttons: Some(buttons) }));
                },
                None => {},
            }
        }
        if is_clicked(self.edit_button, &action) {
            match &self.question_message {
                None => {
                    return Err(BidibipError::msg("Question message should be none"));
                },
                Some(q) => {
                    let value = match &self.value {
                        None => String::new(),
                        Some(v) => v.clone(),
                    };
                    let button = take_id(ids);
                    let title = truncate_str(q.title.as_str(), 45);
                    let custom_id = button.custom_id(module_name());
                    self.waiting_edition_id = Some(button);
                    return Ok(TextClick::Edit(EditModal { custom_id, title, required: !q.optional, value }));
                },
            }
        }
        Ok(TextClick::Ignored)
    }

    /// Handles the submission of the edition modal whose custom id is awaited and whose first row
    /// holds a text input (`first_input` is that input's value; `None` when the first row holds
    /// none). An empty or missing text leaves the answer out, another text becomes the answer; the
    /// awaited id is given back and the question message shows the result. Other submissions
    /// change nothing.
    pub fn try_edit_modal(&mut self, ids: &mut ButtonIds, custom_id: &str, first_input: Option<Option<String>>) -> (r: Result<Option<QuestionEdit>, BidibipError>)
        requires
            old(self).question_message matches Some(q) ==> truncation_defined(q.title@, 300),
            first_input matches Some(t) ==> truncation_defined(shown_answer(opt_view(t)), 1650),
        ensures
            edit_modal_post(*old(self), *old(ids), custom_id@, first_input, r, *final(self), *final(ids)),
    {
        let waiting = match self.waiting_edition_id {
            Some(w) => w,
            None => {
                return Ok(None);
            },
        };
        let expected = waiting.custom_id(module_name());
        let expected_chars = chars_of(expected.as_str());
        let given_chars = chars_of(custom_id);
        if !chars_equal(&expected_chars, &given_chars) {
            return Ok(None);
        }
        let text = match first_input {
            Some(t) => t,
            None => {
                return Ok(None);
            },
        };
        let (message, shown_title) = match &self.question_message {
            None => {
                return Err(BidibipError::msg("Failed to get question message"));
            },
            Some(q) => (q.message, truncate_str(q.title.as_str(), 300)),
        };
        proof {
            reveal_strlit(":negative_squared_cross_mark:");
            reveal_strlit("`");
        }
        let shown = match text {
            None => {
                self.skipped = true;
                self.value = None;
                ":negative_squared_cross_mark:".to_owned()
            },
            Some(t) => {
                if t.as_str().unicode_len() == 0 {
                    self.skipped = true;
                    self.value = None;
                    ":negative_squared_cross_mark:".to_owned()
                } else {
                    let mut s = String::new();
                    s.append("`");
                    s.append(t.as_str());
                    s.append("`");
                    self.value = Some(t);
                    s
                }
            },
        };
        let mut given_back = waiting;
        given_back.free(ids);
        self.waiting_edition_id = None;
        let shown_cut = truncate_str(shown.as_str(), 1650);
        let mut content = String::new();
        content.append("## ▶  ");
        content.append(shown_title.as_str());
        content.append("\n");
        content.append(shown_cut.as_str());
        proof {
            reveal_strlit("## ▶  ");
            reveal_strlit("\n");
        }
        assert(content@ =~= edited_content(self.question_message->0.title@, shown@));
        Ok(Some(QuestionEdit { message, content, buttons: None }))
    }
}

/// What a form step keeps when an ad is stored: its answers, not the state of its questions.
pub trait ResetStep: Sized {
    /// The value as it is stored.
    spec fn stored_form(self) -> Self;

    /// Forgets the state of the questions.
    fn clean_for_storage(&mut self)
        ensures
            *final(self) == old(self).stored_form(),
    ;
}

/// A text question as it is stored: the answer stays; buttons, question message and pending modal
/// are forgotten.
pub open spec fn stored_text(t: TextOption) -> TextOption {
    TextOption { edit_button: None, clear_button: None, waiting_edition_id: None, question_message: None, ..t }
}

impl ResetStep for TextOption {
    open spec fn stored_form(self) -> TextOption {
        stored_text(self)
    }

    fn clean_for_storage(&mut self) {
        TextOption::clean_for_storage(self);
    }
}

/// A choice question as it is stored: the posted question is forgotten; the chosen value keeps its
/// key and is stored in turn.
pub open spec fn stored_choice<T: ResetStep>(b: ButtonOption<T>) -> ButtonOption<T> {
    ButtonOption {
        value: match b.value {
            Some(v) => Some((v.0.stored_form(), v.1)),
            None => None,
        },
        question_options: None,
    }
}

/// The posted choice question: its message and the value of each button, by key.
pub struct ButtonQuestion<T> {
    pub message: u64,
    pub items: Vec<(String, T)>,
}

/// A question answered by a button: the chosen value with its key, and the posted question.
pub struct ButtonOption<T> {
    pub value: Option<(T, String)>,
    pub question_options: Option<ButtonQuestion<T>>,
}

/// Two choice questions that agree on everything, the posted buttons' values compared by content.
pub open spec fn same_choice<T>(a: ButtonOption<T>, b: ButtonOption<T>) -> bool {
    &&& a.value == b.value
    &&& match (a.question_options, b.question_options) {
        (None, None) => true,
        (Some(x), Some(y)) => x.message == y.message && x.items@ == y.items@,
        _ => false,
    }
}

impl<T: Copy> ButtonOption<T> {
    /// A copy of the question.
    pub fn copy(&self) -> (r: ButtonOption<T>)
        ensures
            same_choice(r, *self),
    {
        let value = match &self.value {
            Some(v) => Some((v.0, v.1.clone())),
            None => None,
        };
        let question_options = match &self.question_options {
            Some(q) => {
                let mut items: Vec<(String, T)> = Vec::new();
                let mut i: usize = 0;
                while i < q.items.len()
                    invariant
                        i <= q.items@.len(),
                        items@ == q.items@.take(i as int),
                    decreases q.items@.len() - i,
                {
                    let item = (q.items[i].0.clone(), q.items[i].1);
                    items.push(item);
                    assert(items@ =~= q.items@.take(i + 1));
                    i = i + 1;
                }
                assert(q.items@.take(i as int) =~= q.items@);
                Some(ButtonQuestion { message: q.message, items })
            },
            None => None,
        };
        ButtonOption { value, question_options }
    }
}

/// The key of a chosen value.
pub open spec fn chosen_key_view<T>(value: Option<(T, String)>) -> Option<Seq<char>> {
    match value {
        Some(v) => Some(v.1@),
        None => None,
    }
}

/// The keys of the choices, in order.
pub open spec fn item_keys<T>(items: Seq<(String, T)>) -> Seq<Seq<char>> {
    items.map_values(|it: (String, T)| it.0@)
}

/// The button of a choice: Success for the chosen key, Secondary for the others, Primary when
/// nothing is chosen yet.
pub open spec fn choice_button(key: Seq<char>, label: Seq<char>, chosen: Option<Seq<char>>) -> (Seq<char>, Seq<char>, ButtonStyle) {
    (
        custom_id_spec("advertising"@, key, Seq::<char>::empty()),
        label,
        match chosen {
            Some(c) => if c == key {
                ButtonStyle::Success
            } else {
                ButtonStyle::Secondary
            },
            None => ButtonStyle::Primary,
        },
    )
}

/// The buttons of the choices, in order.
pub open spec fn choice_buttons(options: Seq<(String, String)>, chosen: Option<Seq<char>>) -> Seq<(Seq<char>, Seq<char>, ButtonStyle)> {
    options.map_values(|o: (String, String)| choice_button(o.0@, o.1@, chosen))
}

/// Groups of at most four, in order.
pub open spec fn chunks_of_four<A>(s: Seq<A>) -> Seq<Seq<A>>
    decreases s.len(),
{
    if s.len() == 0 {
        Seq::empty()
    } else if s.len() <= 4 {
        seq![s]
    } else {
        seq![s.take(4)] + chunks_of_four(s.skip(4))
    }
}

/// The rows of a choice question: the first three buttons, then rows of four.
pub open spec fn button_rows<A>(s: Seq<A>) -> Seq<Seq<A>> {
    if s.len() == 0 {
        Seq::empty()
    } else if s.len() <= 3 {
        seq![s]
    } else {
        seq![s.take(3)] + chunks_of_four(s.skip(3))
    }
}

/// Rows of buttons seen as plain values.
pub open spec fn rows_view(rows: Seq<Vec<ButtonSpec>>) -> Seq<Seq<(Seq<char>, Seq<char>, ButtonStyle)>> {
    rows.map_values(|r: Vec<ButtonSpec>| buttons_view(r@))
}

/// Grouping a multiple of four elements, then more, groups each part on its own.
pub proof fn lemma_chunks_append<A>(a: Seq<A>, b: Seq<A>)
    requires
        a.len() % 4 == 0,
    ensures
        chunks_of_four(a + b) == chunks_of_four(a) + chunks_of_four(b),
    decreases a.len(),
{
    if a.len() == 0 {
        assert(a + b =~= b);
        assert(chunks_of_four(a) =~= Seq::<Seq<A>>::empty());
        assert(chunks_of_four(a + b) =~= chunks_of_four(a) + chunks_of_four(b));
    } else {
        lemma_chunks_append(a.skip(4), b);
        assert((a + b).take(4) =~= a.take(4));
        assert((a + b).skip(4) =~= a.skip(4) + b);
        if a.len() == 4 {
            assert(a.take(4) =~= a);
            assert(a.skip(4) =~= Seq::<A>::empty());
            assert(chunks_of_four(a.skip(4)) =~= Seq::<Seq<A>>::empty());
            if b.len() == 0 {
                assert(a + b =~= a);
                assert(chunks_of_four(b) =~= Seq::<Seq<A>>::empty());
                assert(chunks_of_four(a + b) =~= chunks_of_four(a) + chunks_of_four(b));
            } else {
                assert(chunks_of_four(a.skip(4) + b) == chunks_of_four(b)) by {
                    assert(a.skip(4) + b =~= b);
                }
                assert(chunks_of_four(a + b) =~= chunks_of_four(a) + chunks_of_four(b));
            }
        } else {
            assert(chunks_of_four(a + b) =~= chunks_of_four(a) + chunks_of_four(b));
        }
    }
}

/// Rows put back one after the other.
pub open spec fn flatten_rows<A>(rows: Seq<Seq<A>>) -> Seq<A>
    decreases rows.len(),
{
    if rows.len() == 0 {
        Seq::empty()
    } else {
        rows[0] + flatten_rows(rows.drop_first())
    }
}

proof fn lemma_flatten_single<A>(x: Seq<A>)
    ensures
        flatten_rows(seq![x]) == x,
{
    assert(seq![x].drop_first() =~= Seq::<Seq<A>>::empty());
    assert(flatten_rows(seq![x].drop_first()) =~= Seq::<A>::empty());
    assert(flatten_rows(seq![x]) =~= x);
}

proof fn lemma_flatten_append<A>(a: Seq<Seq<A>>, b: Seq<Seq<A>>)
    ensures
        flatten_rows(a + b) == flatten_rows(a) + flatten_rows(b),
    decreases a.len(),
{
    if a.len() == 0 {
        assert(a + b =~= b);
        assert(flatten_rows(a) =~= Seq::<A>::empty());
        assert(flatten_rows(a + b) =~= flatten_rows(a) + flatten_rows(b));
    } else {
        lemma_flatten_append(a.drop_first(), b);
        assert((a + b).drop_first() =~= a.drop_first() + b);
        assert((a + b)[0] == a[0]);
        assert(flatten_rows(a + b) =~= flatten_rows(a) + flatten_rows(b));
    }
}

proof fn lemma_chunks_flatten<A>(s: Seq<A>)
    ensures
        flatten_rows(chunks_of_four(s)) == s,
        forall|k: int| 0 <= k < chunks_of_four(s).len() ==> 0 < #[trigger] chunks_of_four(s)[k].len() <= 4,
    decreases s.len(),
{
    if s.len() == 0 {
    } else if s.len() <= 4 {
        lemma_flatten_single(s);
    } else {
        lemma_chunks_flatten(s.skip(4));
        lemma_flatten_append(seq![s.take(4)], chunks_of_four(s.skip(4)));
        lemma_flatten_single(s.take(4));
        assert(s.take(4) + s.skip(4) =~= s);
        assert forall|k: int| 0 <= k < chunks_of_four(s).len() implies 0 < #[trigger] chunks_of_four(s)[k].len() <= 4 by {
            if k > 0 {
                assert(chunks_of_four(s)[k] == chunks_of_four(s.skip(4))[k - 1]);
            }
        }
    }
}

/// The rows of a choice question hold every button once, in order, and no row is empty or holds
/// more than four buttons (the first at most three).
pub proof fn lemma_rows_keep_buttons<A>(s: Seq<A>)
    ensures
        flatten_rows(button_rows(s)) == s,
        forall|k: int| 0 <= k < button_rows(s).len() ==> 0 < #[trigger] button_rows(s)[k].len() <= 4,
        button_rows(s).len() > 0 ==> button_rows(s)[0].len() <= 3,
{
    if s.len() == 0 {
    } else if s.len() <= 3 {
        lemma_flatten_single(s);
    } else {
        lemma_chunks_flatten(s.skip(3));
        lemma_flatten_append(seq![s.take(3)], chunks_of_four(s.skip(3)));
        lemma_flatten_single(s.take(3));
        assert(s.take(3) + s.skip(3) =~= s);
        assert forall|k: int| 0 <= k < button_rows(s).len() implies 0 < #[trigger] button_rows(s)[k].len() <= 4 by {
            if k > 0 {
                assert(button_rows(s)[k] == chunks_of_four(s.skip(3))[k - 1]);
            }
        }
    }
}

/// The style of a button of a posted choice question once `action` is chosen.
pub open spec fn chosen_style_spec(button_custom_id: Seq<char>, action: Seq<char>) -> ButtonStyle {
    if button_custom_id == custom_id_spec("advertising"@, action, Seq::<char>::empty()) {
        ButtonStyle::Success
    } else {
        ButtonStyle::Secondary
    }
}

/// The style a button of a posted choice question takes once `action` is chosen.
pub fn chosen_style(button_custom_id: &str, action: &str) -> (r: ButtonStyle)
    ensures
        r == chosen_style_spec(button_custom_id@, action@),
{
    let expected = make_custom_id(module_name(), action, "");
    proof {
        reveal_strlit("");
    }
    let a = chars_of(button_custom_id);
    let b = chars_of(expected.as_str());
    if chars_equal(&a, &b) {
        ButtonStyle::Success
    } else {
        ButtonStyle::Secondary
    }
}

fn choice_spec(key: &String, label: &String, chosen: &Option<Vec<char>>) -> (r: ButtonSpec)
    ensures
        button_view(r) == choice_button(key@, label@, match chosen {
            Some(c) => Some(c@),
            None => None,
        }),
{
    let custom_id = make_custom_id(module_name(), key.as_str(), "");
    proof {
        reveal_strlit("");
    }
    let style = match chosen {
        Some(c) => {
            let k = chars_of(key.as_str());
            if chars_equal(c, &k) {
                ButtonStyle::Success
            } else {
                ButtonStyle::Secondary
            }
        },
        None => ButtonStyle::Primary,
    };
    ButtonSpec { custom_id, label: label.clone(), style }
}

fn row_of(options: &Vec<(String, String)>, from: usize, to: usize, chosen: &Option<Vec<char>>) -> (r: Vec<ButtonSpec>)
    requires
        from <= to <= options@.len(),
    ensures
        buttons_view(r@) == choice_buttons(options@, match chosen {
            Some(c) => Some(c@),
            None => None,
        }).subrange(from as int, to as int),
{
    let ghost ch = match chosen {
        Some(c) => Some(c@),
        None => None,
    };
    let mut r: Vec<ButtonSpec> = Vec::new();
    let mut k: usize = from;
    while k < to
        invariant
            from <= k <= to <= options@.len(),
            ch == (match chosen {
                Some(c) => Some(c@),
                None => None,
            }),
            buttons_view(r@) == choice_buttons(options@, ch).subrange(from as int, k as int),
        decreases to - k,
    {
        let b = choice_spec(&options[k].0, &options[k].1, chosen);
        let ghost before = r@;
        r.push(b);
        assert(buttons_view(r@) =~= buttons_view(before).push(button_view(b)));
        k = k + 1;
        assert(buttons_view(r@) =~= choice_buttons(options@, ch).subrange(from as int, k as int));
    }
    r
}

impl<T: ResetStep + Clone> ButtonOption<T> {
    /// A choice not asked yet.
    pub fn new() -> (r: ButtonOption<T>)
        ensures
            r.value is None,
            r.question_options is None,
    {
        ButtonOption { value: None, question_options: None }
    }

    /// Whether nothing was chosen nor asked.
    pub fn is_none(&self) -> (r: bool)
        ensures
            r == (self.value is None && self.question_options is None),
    {
        self.value.is_none() && self.question_options.is_none()
    }

    /// Whether the choice still needs the user: nothing chosen, or the question not posted.
    pub fn is_unset(&self) -> (r: bool)
        ensures
            r == (self.value is None || self.question_options is None),
    {
        self.value.is_none() || self.question_options.is_none()
    }

    /// The chosen value.
    pub fn value(&self) -> (r: Option<&T>)
        ensures
            r is Some == self.value is Some,
            r matches Some(v) ==> *v == (self.value->0).0,
    {
        match &self.value {
            Some(v) => Some(&v.0),
            None => None,
        }
    }

    /// The key of the chosen value.
    pub fn chosen_key(&self) -> (r: Option<&String>)
        ensures
            r is Some == self.value is Some,
            r matches Some(k) ==> k@ == (self.value->0).1@,
    {
        match &self.value {
            Some(v) => Some(&v.1),
            None => None,
        }
    }

    /// Forgets the posted question; the chosen value forgets the state of its own questions.
    pub fn clean_for_storage(&mut self)
        ensures
            *final(self) == stored_choice(*old(self)),
    {
        let v = self.value.take();
        match v {
            Some((mut t, key)) => {
                t.clean_for_storage();
                self.value = Some((t, key));
            },
            None => {},
        }
        self.question_options = None;
    }

    /// The part of removing a choice question that concerns the form: the choice and the posted
    /// question are forgotten; the id of the question message (to delete) is returned.
    pub fn delete(&mut self) -> (r: Option<u64>)
        ensures
            final(self).value is None,
            final(self).question_options is None,
            r == (match old(self).question_options {
                Some(q) => Some(q.message),
                None => None,
            }),
    {
        let message = match &self.question_options {
            Some(q) => Some(q.message),
            None => None,
        };
        self.value = None;
        self.question_options = None;
        message
    }

    /// The rows of buttons of the question: one button per `(key, label)`, styled after the current
    /// choice; three buttons on the first row, then four per row.
    pub fn question_rows(&self, options: &Vec<(String, String)>) -> (r: Vec<Vec<ButtonSpec>>)
        ensures
            rows_view(r@) == button_rows(choice_buttons(options@, chosen_key_view(self.value))),
    {
        let chosen: Option<Vec<char>> = match &self.value {
            Some(v) => Some(chars_of(v.1.as_str())),
            None => None,
        };
        let ghost ch = chosen_key_view(self.value);
        let ghost flat = choice_buttons(options@, ch);
        let n = options.len();
        let mut rows: Vec<Vec<ButtonSpec>> = Vec::new();
        if n == 0 {
            assert(rows_view(rows@) =~= button_rows(flat));
            return rows;
        }
        let first_end: usize = if n < 3 {
            n
        } else {
            3
        };
        let first = row_of(options, 0, first_end, &chosen);
        rows.push(first);
        if n <= 3 {
            assert(flat.subrange(0, n as int) =~= flat);
            assert(rows_view(rows@) =~= button_rows(flat));
            return rows;
        }
        assert(rows_view(rows@) =~= seq![flat.take(3)] + chunks_of_four(flat.subrange(3, 3)));
        let mut start: usize = 3;
        while start < n
            invariant
                3 <= start <= n,
                n == options@.len(),
                flat.len() == n,
                flat == choice_buttons(options@, ch),
                ch == (match chosen {
                    Some(c) => Some(c@),
                    None => None,
                }),
                (start - 3) % 4 == 0 || start == n,
                rows_view(rows@) == seq![flat.take(3)] + chunks_of_four(flat.subrange(3, start as int)),
            decreases n - start,
        {
            let end: usize = if n - start < 4 {
                n
            } else {
                start + 4
            };
            let row = row_of(options, start, end, &chosen);
            let ghost before = rows@;
            rows.push(row);
            proof {
                let done = flat.subrange(3, start as int);
                let next = flat.subrange(start as int, end as int);
                lemma_chunks_append(done, next);
                assert(done + next =~= flat.subrange(3, end as int));
                assert(chunks_of_four(next) =~= seq![next]);
                assert(rows_view(rows@) =~= rows_view(before).push(buttons_view(row@)));
            }
            start = end;
        }
        assert(flat.subrange(3, n as int) =~= flat.skip(3));
        rows
    }

    /// Records the question once posted, with the value of each button by key.
    pub fn set_question(&mut self, message: u64, items: Vec<(String, T)>)
        ensures
            final(self).question_options matches Some(q) && q.message == message && q.items@ == items@,
            final(self).value == old(self).value,
    {
        self.question_options = Some(ButtonQuestion { message, items });
    }

    /// Takes a click on a button of the posted question: the first choice whose key is the
    /// button's action becomes the value (a clone of it). Returns the value it replaces, or `None`
    /// when the click is not for this question (nothing changes then).
    pub fn try_set(&mut self, custom_id: &str) -> (r: Option<Option<(T, String)>>)
        ensures
            final(self).question_options == old(self).question_options,
            r is None ==> final(self).value == old(self).value && *final(self) == *old(self),
            r is None <==> !(old(self).question_options matches Some(q) && ad_action(custom_id@) matches Some(a)
                && item_keys(q.items@).contains(a)),
            r matches Some(previous) ==> previous == old(self).value && ({
                let q = old(self).question_options->0;
                let a = ad_action(custom_id@)->0;
                exists|i: int|
                    0 <= i < q.items@.len() && q.items@[i].0@ == a && (forall|j: int| 0 <= j < i ==> q.items@[j].0@ != a)
                        && (final(self).value matches Some(v) && cloned(q.items@[i].1, v.0) && v.1@ == a)
            }),
    {
        let action = match ad_action_of(custom_id) {
            Some(a) => a,
            None => {
                return None;
            },
        };
        match &self.question_options {
            None => None,
            Some(q) => {
                let mut i: usize = 0;
                while i < q.items.len()
                    invariant
                        i <= q.items@.len(),
                        forall|j: int| 0 <= j < i ==> q.items@[j].0@ != action@,
                        self.question_options == old(self).question_options,
                        self.value == old(self).value,
                        old(self).question_options == Some(*q),
                        ad_action(custom_id@) == Some(action@),
                    decreases q.items@.len() - i,
                {
                    let k = chars_of(q.items[i].0.as_str());
                    if chars_equal(&k, &action) {
                        let chosen = q.items[i].1.clone();
                        let key = q.items[i].0.clone();
                        assert(item_keys(q.items@)[i as int] == action@);
                        let previous = self.value.take();
                        self.value = Some((chosen, key));
                        proof {
                            let a = ad_action(custom_id@)->0;
                            assert(q.items@[i as int].0@ == a);
                            assert(cloned(q.items@[i as int].1, chosen));
                            assert(self.value matches Some(v) && cloned(q.items@[i as int].1, v.0) && v.1@ == a);
                        }
                        return Some(previous);
                    }
                    i = i + 1;
                }
                proof {
                    if item_keys(q.items@).contains(action@) {
                        let j = choose|j: int| 0 <= j < item_keys(q.items@).len() && item_keys(q.items@)[j] == action@;
                        assert(q.items@[j].0@ == action@);
                    }
                }
                None
            },
        }
    }
}

} // verus!
