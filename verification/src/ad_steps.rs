//! The ad form: its questions, the order in which they are asked, and the ad it produces.
use vstd::prelude::*;
use crate::ad_form::{same_choice, stored_choice, stored_text, ButtonOption, ResetStep, TextOption};
use crate::discord::MessageReference;

verus! {

/// A value that a choice question can take.
#[derive(PartialEq, Eq, Structural, Clone, Copy, Debug)]
pub enum Choice {
    Volunteering,
    Internship,
    WorkStudy,
    Freelance,
    FixedTerm,
    OpenEnded,
    Worker,
    Recruiter,
    Discord,
    Other,
    Paid,
    Unpaid,
    Remote,
    Flexible,
    OnSite,
}

impl ResetStep for Choice {
    open spec fn stored_form(self) -> Choice {
        self
    }

    fn clean_for_storage(&mut self) {
    }
}

/// A volunteering ad asks nothing more.
pub struct VolunteeringInfos {}

/// What a freelance ad stores beyond the common questions.
pub struct FreelanceInfos {
    pub duration: Option<String>,
    pub compensation: Option<String>,
}

/// The questions of an internship ad: its length, whether it is paid, and how much.
pub struct InternshipInfos {
    pub duration: TextOption,
    pub compensation: ButtonOption<Choice>,
    pub pay: TextOption,
}

/// The questions of a work-study ad.
pub struct WorkStudyInfos {
    pub duration: TextOption,
    pub compensation: TextOption,
}

/// The questions of a fixed-term contract ad.
pub struct FixedTermInfos {
    pub duration: TextOption,
    pub compensation: TextOption,
}

/// The question of an open-ended contract ad.
pub struct OpenEndedInfos {
    pub compensation: TextOption,
}

/// The questions of a recruiter: where the work takes place, the city, the studio, the
/// responsibilities and the qualifications.
pub struct RecruiterInfos {
    pub location: ButtonOption<Choice>,
    pub city: TextOption,
    pub studio: TextOption,
    pub responsibilities: TextOption,
    pub qualifications: TextOption,
}

/// The questions of someone looking for work: where, the city, the skills.
pub struct WorkerInfos {
    pub location: ButtonOption<Choice>,
    pub city: TextOption,
    pub skills: TextOption,
}

/// The whole form: the common questions and, for each kind of contract and each side, its own
/// questions (only those of the chosen kind and side are asked).
pub struct MainSteps {
    pub title: TextOption,
    pub kind: ButtonOption<Choice>,
    pub description: TextOption,
    pub is_recruiter: ButtonOption<Choice>,
    pub contact: ButtonOption<Choice>,
    pub contact_other: TextOption,
    pub other_urls: TextOption,
    pub internship: InternshipInfos,
    pub work_study: WorkStudyInfos,
    pub fixed_term: FixedTermInfos,
    pub open_ended: OpenEndedInfos,
    pub freelance: FreelanceInfos,
    pub volunteering: VolunteeringInfos,
    pub recruiter: RecruiterInfos,
    pub worker: WorkerInfos,
    pub edited_post: Option<MessageReference>,
    pub demo_message: Option<u64>,
}

/// A question of the form.
#[derive(PartialEq, Eq, Structural, Clone, Copy, Debug)]
pub enum FieldId {
    Title,
    Description,
    Kind,
    IsRecruiter,
    Contact,
    ContactOther,
    OtherUrls,
    InternshipDuration,
    InternshipCompensation,
    InternshipPay,
    WorkStudyDuration,
    WorkStudyPay,
    FixedTermDuration,
    FixedTermPay,
    OpenEndedPay,
    RecruiterLocation,
    RecruiterCity,
    RecruiterStudio,
    RecruiterResponsibilities,
    RecruiterQualifications,
    WorkerLocation,
    WorkerCity,
    WorkerSkills,
}

/// Whether a question is answered with a button.
pub open spec fn is_choice(f: FieldId) -> bool {
    match f {
        FieldId::Kind | FieldId::IsRecruiter | FieldId::Contact | FieldId::InternshipCompensation
        | FieldId::RecruiterLocation | FieldId::WorkerLocation => true,
        _ => false,
    }
}

/// Two forms that agree on everything, the posted buttons' values of their choice questions
/// compared by content.
pub open spec fn same_form(a: MainSteps, b: MainSteps) -> bool {
    &&& a.title == b.title && a.description == b.description
    &&& a.contact_other == b.contact_other && a.other_urls == b.other_urls
    &&& same_choice(a.kind, b.kind) && same_choice(a.is_recruiter, b.is_recruiter) && same_choice(a.contact, b.contact)
    &&& a.internship.duration == b.internship.duration && a.internship.pay == b.internship.pay
    &&& same_choice(a.internship.compensation, b.internship.compensation)
    &&& a.work_study == b.work_study && a.fixed_term == b.fixed_term && a.open_ended == b.open_ended
    &&& a.freelance == b.freelance
    &&& same_choice(a.recruiter.location, b.recruiter.location) && a.recruiter.city == b.recruiter.city
    &&& a.recruiter.studio == b.recruiter.studio && a.recruiter.responsibilities == b.recruiter.responsibilities
    &&& a.recruiter.qualifications == b.recruiter.qualifications
    &&& same_choice(a.worker.location, b.worker.location) && a.worker.city == b.worker.city && a.worker.skills == b.worker.skills
    &&& a.edited_post == b.edited_post && a.demo_message == b.demo_message
}

fn copy_text_opt(o: &Option<String>) -> (r: Option<String>)
    ensures
        r == *o,
{
    match o {
        Some(v) => Some(v.clone()),
        None => None,
    }
}

impl MainSteps {
    /// A copy of the form.
    pub fn copy(&self) -> (r: MainSteps)
        ensures
            same_form(r, *self),
    {
        MainSteps {
            title: self.title.copy(),
            kind: self.kind.copy(),
            description: self.description.copy(),
            is_recruiter: self.is_recruiter.copy(),
            contact: self.contact.copy(),
            contact_other: self.contact_other.copy(),
            other_urls: self.other_urls.copy(),
            internship: InternshipInfos {
                duration: self.internship.duration.copy(),
                compensation: self.internship.compensation.copy(),
                pay: self.internship.pay.copy(),
            },
            work_study: WorkStudyInfos { duration: self.work_study.duration.copy(), compensation: self.work_study.compensation.copy() },
            fixed_term: FixedTermInfos { duration: self.fixed_term.duration.copy(), compensation: self.fixed_term.compensation.copy() },
            open_ended: OpenEndedInfos { compensation: self.open_ended.compensation.copy() },
            freelance: FreelanceInfos {
                duration: copy_text_opt(&self.freelance.duration),
                compensation: copy_text_opt(&self.freelance.compensation),
            },
            volunteering: VolunteeringInfos {  },
            recruiter: RecruiterInfos {
                location: self.recruiter.location.copy(),
                city: self.recruiter.city.copy(),
                studio: self.recruiter.studio.copy(),
                responsibilities: self.recruiter.responsibilities.copy(),
                qualifications: self.recruiter.qualifications.copy(),
            },
            worker: WorkerInfos { location: self.worker.location.copy(), city: self.worker.city.copy(), skills: self.worker.skills.copy() },
            edited_post: self.edited_post,
            demo_message: self.demo_message,
        }
    }
}

/// Whether a question is answered with a button.
pub fn is_choice_field(f: FieldId) -> (r: bool)
    ensures
        r == is_choice(f),
{
    match f {
        FieldId::Kind | FieldId::IsRecruiter | FieldId::Contact | FieldId::InternshipCompensation
        | FieldId::RecruiterLocation | FieldId::WorkerLocation => true,
        _ => false,
    }
}

/// What the form does next: post a question (and then stop, or go on to the next question),
/// wait for the user, or publish the preview.
#[derive(PartialEq, Eq, Structural, Clone, Copy, Debug)]
pub enum FormStep {
    Ask { field: FieldId, stop: bool },
    Wait,
    Finished,
}

/// The chosen value of a choice question.
pub open spec fn chosen(b: ButtonOption<Choice>) -> Option<Choice> {
    match b.value {
        Some(v) => Some(v.0),
        None => None,
    }
}

/// A text question that is posted again until answered: asked while unset, then the form stops.
pub open spec fn step_text(t: TextOption, f: FieldId) -> Option<FormStep> {
    if t.is_unset_spec() {
        Some(FormStep::Ask { field: f, stop: true })
    } else {
        None
    }
}

/// A choice question asked while unset, after which the form stops.
pub open spec fn step_choice(b: ButtonOption<Choice>, f: FieldId) -> Option<FormStep> {
    if b.value is None || b.question_options is None {
        Some(FormStep::Ask { field: f, stop: true })
    } else {
        None
    }
}

/// A text question asked once: while unset it is posted if it is not yet, and the form goes on
/// only when it already holds an answer; once posted and unanswered, the form waits.
pub open spec fn step_text_once(t: TextOption, f: FieldId) -> Option<FormStep> {
    if !t.is_unset_spec() {
        None
    } else if t.question_message is Some {
        Some(FormStep::Wait)
    } else {
        Some(FormStep::Ask { field: f, stop: t.value is None })
    }
}

/// A choice question asked once: posted while unset and not posted yet (the form goes on only
/// when it holds a value); once posted, the form goes on to the next question.
pub open spec fn step_choice_once(b: ButtonOption<Choice>, f: FieldId) -> Option<FormStep> {
    if !(b.value is None || b.question_options is None) {
        None
    } else if b.question_options is Some {
        None
    } else {
        Some(FormStep::Ask { field: f, stop: b.value is None })
    }
}

/// The first of two candidate steps.
pub open spec fn or_step(a: Option<FormStep>, b: Option<FormStep>) -> Option<FormStep> {
    if a is Some {
        a
    } else {
        b
    }
}

/// The next step of an internship ad.
pub open spec fn internship_step(i: InternshipInfos) -> Option<FormStep> {
    or_step(
        step_text(i.duration, FieldId::InternshipDuration),
        or_step(
            step_choice(i.compensation, FieldId::InternshipCompensation),
            if chosen(i.compensation) == Some(Choice::Paid) {
                step_text(i.pay, FieldId::InternshipPay)
            } else {
                None
            },
        ),
    )
}

/// Once the length of an internship is answered and its compensation is chosen as paid, the next
/// question of the internship is its pay, as long as the pay is not answered.
pub proof fn lemma_paid_internship_asks_pay(i: InternshipInfos)
    requires
        !i.duration.is_unset_spec(),
        i.compensation.value matches Some(v) && v.0 == Choice::Paid,
        i.compensation.question_options is Some,
        i.pay.is_unset_spec(),
    ensures
        internship_step(i) == Some(FormStep::Ask { field: FieldId::InternshipPay, stop: true }),
{
}

/// The pay of an internship is asked only when the internship is chosen as paid: for any other
/// choice (or none) no step of the internship asks it.
pub proof fn lemma_pay_asked_only_when_paid(i: InternshipInfos, stop: bool)
    requires
        !(i.compensation.value matches Some(v) && v.0 == Choice::Paid),
    ensures
        internship_step(i) != Some(FormStep::Ask { field: FieldId::InternshipPay, stop }),
{
}

/// The next step of a work-study ad.
pub open spec fn work_study_step(w: WorkStudyInfos) -> Option<FormStep> {
    or_step(step_text(w.duration, FieldId::WorkStudyDuration), step_text(w.compensation, FieldId::WorkStudyPay))
}

/// The next step of a fixed-term ad.
pub open spec fn fixed_term_step(f: FixedTermInfos) -> Option<FormStep> {
    or_step(step_text(f.duration, FieldId::FixedTermDuration), step_text_once(f.compensation, FieldId::FixedTermPay))
}

/// The next step of an open-ended ad.
pub open spec fn open_ended_step(o: OpenEndedInfos) -> Option<FormStep> {
    step_text(o.compensation, FieldId::OpenEndedPay)
}

/// Whether a place of work comes with a city.
pub open spec fn has_city(c: Option<Choice>) -> bool {
    c == Some(Choice::Flexible) || c == Some(Choice::OnSite)
}

/// The next step of a recruiter.
pub open spec fn recruiter_step(r: RecruiterInfos) -> Option<FormStep> {
    or_step(
        step_choice(r.location, FieldId::RecruiterLocation),
        or_step(
            if has_city(chosen(r.location)) {
                step_text(r.city, FieldId::RecruiterCity)
            } else {
                None
            },
            or_step(
                step_text(r.studio, FieldId::RecruiterStudio),
                or_step(
                    step_text(r.responsibilities, FieldId::RecruiterResponsibilities),
                    step_text(r.qualifications, FieldId::RecruiterQualifications),
                ),
            ),
        ),
    )
}

/// The next step of someone looking for work.
pub open spec fn worker_step(w: WorkerInfos) -> Option<FormStep> {
    or_step(
        step_choice_once(w.location, FieldId::WorkerLocation),
        or_step(
            if has_city(chosen(w.location)) {
                step_text_once(w.city, FieldId::WorkerCity)
            } else {
                None
            },
            step_text_once(w.skills, FieldId::WorkerSkills),
        ),
    )
}

/// The next step of the questions of the chosen kind of contract.
pub open spec fn contract_step(s: MainSteps) -> Option<FormStep> {
    match chosen(s.kind) {
        Some(Choice::Internship) => internship_step(s.internship),
        Some(Choice::WorkStudy) => work_study_step(s.work_study),
        Some(Choice::FixedTerm) => fixed_term_step(s.fixed_term),
        Some(Choice::OpenEnded) => open_ended_step(s.open_ended),
        _ => None,
    }
}

/// The next step of the questions of the chosen side.
pub open spec fn side_step(s: MainSteps) -> Option<FormStep> {
    match chosen(s.is_recruiter) {
        Some(Choice::Recruiter) => recruiter_step(s.recruiter),
        Some(Choice::Worker) => worker_step(s.worker),
        _ => None,
    }
}

/// The contact question: asked while no way of contact is chosen; "another way" asks for it, and
/// the form stops there each time.
pub open spec fn contact_step(s: MainSteps) -> Option<FormStep> {
    match chosen(s.contact) {
        None => Some(FormStep::Ask { field: FieldId::Contact, stop: true }),
        Some(Choice::Other) => Some(FormStep::Ask { field: FieldId::ContactOther, stop: true }),
        _ => None,
    }
}

/// The next step of the whole form.
pub open spec fn main_step(s: MainSteps) -> FormStep {
    match or_step(
        step_text(s.title, FieldId::Title),
        or_step(
            step_text(s.description, FieldId::Description),
            or_step(
                step_choice(s.kind, FieldId::Kind),
                or_step(
                    contract_step(s),
                    or_step(
                        step_choice(s.is_recruiter, FieldId::IsRecruiter),
                        or_step(side_step(s), or_step(contact_step(s), step_text(s.other_urls, FieldId::OtherUrls))),
                    ),
                ),
            ),
        ),
    ) {
        Some(step) => step,
        None => FormStep::Finished,
    }
}

fn text_step(t: &TextOption, f: FieldId) -> (r: Option<FormStep>)
    ensures
        r == step_text(*t, f),
{
    if t.is_unset() {
        Some(FormStep::Ask { field: f, stop: true })
    } else {
        None
    }
}

fn choice_step(b: &ButtonOption<Choice>, f: FieldId) -> (r: Option<FormStep>)
    ensures
        r == step_choice(*b, f),
{
    if b.is_unset() {
        Some(FormStep::Ask { field: f, stop: true })
    } else {
        None
    }
}

fn text_once_step(t: &TextOption, f: FieldId) -> (r: Option<FormStep>)
    ensures
        r == step_text_once(*t, f),
{
    if !t.is_unset() {
        None
    } else if t.question_message.is_some() {
        Some(FormStep::Wait)
    } else {
        Some(FormStep::Ask { field: f, stop: t.value.is_none() })
    }
}

fn choice_once_step(b: &ButtonOption<Choice>, f: FieldId) -> (r: Option<FormStep>)
    ensures
        r == step_choice_once(*b, f),
{
    if !b.is_unset() {
        None
    } else if b.question_options.is_some() {
        None
    } else {
        Some(FormStep::Ask { field: f, stop: b.value.is_none() })
    }
}

/// The chosen value of a choice question.
pub fn chosen_value(b: &ButtonOption<Choice>) -> (r: Option<Choice>)
    ensures
        r == chosen(*b),
{
    match &b.value {
        Some(v) => Some(v.0),
        None => None,
    }
}

fn city_needed(c: Option<Choice>) -> (r: bool)
    ensures
        r == has_city(c),
{
    match c {
        Some(Choice::Flexible) | Some(Choice::OnSite) => true,
        _ => false,
    }
}

impl InternshipInfos {
    /// The next step of an internship ad, if any question remains.
    pub fn next_step(&self) -> (r: Option<FormStep>)
        ensures
            r == internship_step(*self),
    {
        let a = text_step(&self.duration, FieldId::InternshipDuration);
        if a.is_some() {
            return a;
        }
        let b = choice_step(&self.compensation, FieldId::InternshipCompensation);
        if b.is_some() {
            return b;
        }
        match chosen_value(&self.compensation) {
            Some(Choice::Paid) => text_step(&self.pay, FieldId::InternshipPay),
            _ => None,
        }
    }
}

impl WorkStudyInfos {
    /// The next step of a work-study ad, if any question remains.
    pub fn next_step(&self) -> (r: Option<FormStep>)
        ensures
            r == work_study_step(*self),
    {
        let a = text_step(&self.duration, FieldId::WorkStudyDuration);
        if a.is_some() {
            return a;
        }
        text_step(&self.compensation, FieldId::WorkStudyPay)
    }
}

impl FixedTermInfos {
    /// The next step of a fixed-term ad, if any question remains.
    pub fn next_step(&self) -> (r: Option<FormStep>)
        ensures
            r == fixed_term_step(*self),
    {
        let a = text_step(&self.duration, FieldId::FixedTermDuration);
        if a.is_some() {
            return a;
        }
        text_once_step(&self.compensation, FieldId::FixedTermPay)
    }
}

impl OpenEndedInfos {
    /// The next step of an open-ended ad, if any question remains.
    pub fn next_step(&self) -> (r: Option<FormStep>)
        ensures
            r == open_ended_step(*self),
    {
        text_step(&self.compensation, FieldId::OpenEndedPay)
    }
}

impl VolunteeringInfos {
    /// A volunteering ad asks nothing more: its questions are always complete.
    pub fn advance(&self) -> (r: bool)
        ensures
            r,
    {
        true
    }
}

impl RecruiterInfos {
    /// The next step of a recruiter, if any question remains.
    pub fn next_step(&self) -> (r: Option<FormStep>)
        ensures
            r == recruiter_step(*self),
    {
        let a = choice_step(&self.location, FieldId::RecruiterLocation);
        if a.is_some() {
            return a;
        }
        if city_needed(chosen_value(&self.location)) {
            let b = text_step(&self.city, FieldId::RecruiterCity);
            if b.is_some() {
                return b;
            }
        }
        let c = text_step(&self.studio, FieldId::RecruiterStudio);
        if c.is_some() {
            return c;
        }
        let d = text_step(&self.responsibilities, FieldId::RecruiterResponsibilities);
        if d.is_some() {
            return d;
        }
        text_step(&self.qualifications, FieldId::RecruiterQualifications)
    }
}

impl WorkerInfos {
    /// The next step of someone looking for work, if any question remains.
    pub fn next_step(&self) -> (r: Option<FormStep>)
        ensures
            r == worker_step(*self),
    {
        let a = choice_once_step(&self.location, FieldId::WorkerLocation);
        if a.is_some() {
            return a;
        }
        if city_needed(chosen_value(&self.location)) {
            let b = text_once_step(&self.city, FieldId::WorkerCity);
            if b.is_some() {
                return b;
            }
        }
        text_once_step(&self.skills, FieldId::WorkerSkills)
    }
}

impl MainSteps {
    /// What the form does next: the first question that needs the user, in the order title,
    /// description, kind of contract and its questions, side and its questions, contact, other
    /// links; once all are answered, the preview is published.
    pub fn advance_step(&self) -> (r: FormStep)
        ensures
            r == main_step(*self),
    {
        let mut step = text_step(&self.title, FieldId::Title);
        if step.is_none() {
            step = text_step(&self.description, FieldId::Description);
        }
        if step.is_none() {
            step = choice_step(&self.kind, FieldId::Kind);
        }
        if step.is_none() {
            step = match chosen_value(&self.kind) {
                Some(Choice::Internship) => self.internship.next_step(),
                Some(Choice::WorkStudy) => self.work_study.next_step(),
                Some(Choice::FixedTerm) => self.fixed_term.next_step(),
                Some(Choice::OpenEnded) => self.open_ended.next_step(),
                _ => None,
            };
        }
        if step.is_none() {
            step = choice_step(&self.is_recruiter, FieldId::IsRecruiter);
        }
        if step.is_none() {
            step = match chosen_value(&self.is_recruiter) {
                Some(Choice::Recruiter) => self.recruiter.next_step(),
                Some(Choice::Worker) => self.worker.next_step(),
                _ => None,
            };
        }
        if step.is_none() {
            step = match chosen_value(&self.contact) {
                None => Some(FormStep::Ask { field: FieldId::Contact, stop: true }),
                Some(Choice::Other) => Some(FormStep::Ask { field: FieldId::ContactOther, stop: true }),
                _ => None,
            };
        }
        if step.is_none() {
            step = text_step(&self.other_urls, FieldId::OtherUrls);
        }
        match step {
            Some(s) => s,
            None => FormStep::Finished,
        }
    }
}

/// The text question of the form that a field designates.
pub open spec fn text_of(s: MainSteps, f: FieldId) -> TextOption
    recommends
        !is_choice(f),
{
    match f {
        FieldId::Title => s.title,
        FieldId::Description => s.description,
        FieldId::ContactOther => s.contact_other,
        FieldId::OtherUrls => s.other_urls,
        FieldId::InternshipDuration => s.internship.duration,
        FieldId::InternshipPay => s.internship.pay,
        FieldId::WorkStudyDuration => s.work_study.duration,
        FieldId::WorkStudyPay => s.work_study.compensation,
        FieldId::FixedTermDuration => s.fixed_term.duration,
        FieldId::FixedTermPay => s.fixed_term.compensation,
        FieldId::OpenEndedPay => s.open_ended.compensation,
        FieldId::RecruiterCity => s.recruiter.city,
        FieldId::RecruiterStudio => s.recruiter.studio,
        FieldId::RecruiterResponsibilities => s.recruiter.responsibilities,
        FieldId::RecruiterQualifications => s.recruiter.qualifications,
        FieldId::WorkerCity => s.worker.city,
        FieldId::WorkerSkills => s.worker.skills,
        _ => s.title,
    }
}

/// The form with the text question of a field replaced.
pub open spec fn with_text(s: MainSteps, f: FieldId, t: TextOption) -> MainSteps {
    match f {
        FieldId::Title => MainSteps { title: t, ..s },
        FieldId::Description => MainSteps { description: t, ..s },
        FieldId::ContactOther => MainSteps { contact_other: t, ..s },
        FieldId::OtherUrls => MainSteps { other_urls: t, ..s },
        FieldId::InternshipDuration => MainSteps { internship: InternshipInfos { duration: t, ..s.internship }, ..s },
        FieldId::InternshipPay => MainSteps { internship: InternshipInfos { pay: t, ..s.internship }, ..s },
        FieldId::WorkStudyDuration => MainSteps { work_study: WorkStudyInfos { duration: t, ..s.work_study }, ..s },
        FieldId::WorkStudyPay => MainSteps { work_study: WorkStudyInfos { compensation: t, ..s.work_study }, ..s },
        FieldId::FixedTermDuration => MainSteps { fixed_term: FixedTermInfos { duration: t, ..s.fixed_term }, ..s },
        FieldId::FixedTermPay => MainSteps { fixed_term: FixedTermInfos { compensation: t, ..s.fixed_term }, ..s },
        FieldId::OpenEndedPay => MainSteps { open_ended: OpenEndedInfos { compensation: t, ..s.open_ended }, ..s },
        FieldId::RecruiterCity => MainSteps { recruiter: RecruiterInfos { city: t, ..s.recruiter }, ..s },
        FieldId::RecruiterStudio => MainSteps { recruiter: RecruiterInfos { studio: t, ..s.recruiter }, ..s },
        FieldId::RecruiterResponsibilities => MainSteps { recruiter: RecruiterInfos { responsibilities: t, ..s.recruiter }, ..s },
        FieldId::RecruiterQualifications => MainSteps { recruiter: RecruiterInfos { qualifications: t, ..s.recruiter }, ..s },
        FieldId::WorkerCity => MainSteps { worker: WorkerInfos { city: t, ..s.worker }, ..s },
        FieldId::WorkerSkills => MainSteps { worker: WorkerInfos { skills: t, ..s.worker }, ..s },
        _ => s,
    }
}

/// The choice question of the form that a field designates.
pub open spec fn choice_of(s: MainSteps, f: FieldId) -> ButtonOption<Choice>
    recommends
        is_choice(f),
{
    match f {
        FieldId::Kind => s.kind,
        FieldId::IsRecruiter => s.is_recruiter,
        FieldId::Contact => s.contact,
        FieldId::InternshipCompensation => s.internship.compensation,
        FieldId::RecruiterLocation => s.recruiter.location,
        FieldId::WorkerLocation => s.worker.location,
        _ => s.kind,
    }
}

/// The form with the choice question of a field replaced.
pub open spec fn with_choice(s: MainSteps, f: FieldId, b: ButtonOption<Choice>) -> MainSteps {
    match f {
        FieldId::Kind => MainSteps { kind: b, ..s },
        FieldId::IsRecruiter => MainSteps { is_recruiter: b, ..s },
        FieldId::Contact => MainSteps { contact: b, ..s },
        FieldId::InternshipCompensation => MainSteps { internship: InternshipInfos { compensation: b, ..s.internship }, ..s },
        FieldId::RecruiterLocation => MainSteps { recruiter: RecruiterInfos { location: b, ..s.recruiter }, ..s },
        FieldId::WorkerLocation => MainSteps { worker: WorkerInfos { location: b, ..s.worker }, ..s },
        _ => s,
    }
}

impl MainSteps {
    /// The text question of a field, to work on.
    pub fn text_mut(&mut self, f: FieldId) -> (r: &mut TextOption)
        requires
            !is_choice(f),
        ensures
            *r == text_of(*old(self), f),
            *final(self) == with_text(*old(self), f, *final(r)),
    {
        match f {
            FieldId::Title => &mut self.title,
            FieldId::Description => &mut self.description,
            FieldId::ContactOther => &mut self.contact_other,
            FieldId::OtherUrls => &mut self.other_urls,
            FieldId::InternshipDuration => &mut self.internship.duration,
            FieldId::InternshipPay => &mut self.internship.pay,
            FieldId::WorkStudyDuration => &mut self.work_study.duration,
            FieldId::WorkStudyPay => &mut self.work_study.compensation,
            FieldId::FixedTermDuration => &mut self.fixed_term.duration,
            FieldId::FixedTermPay => &mut self.fixed_term.compensation,
            FieldId::OpenEndedPay => &mut self.open_ended.compensation,
            FieldId::RecruiterCity => &mut self.recruiter.city,
            FieldId::RecruiterStudio => &mut self.recruiter.studio,
            FieldId::RecruiterResponsibilities => &mut self.recruiter.responsibilities,
            FieldId::RecruiterQualifications => &mut self.recruiter.qualifications,
            FieldId::WorkerCity => &mut self.worker.city,
            FieldId::WorkerSkills => &mut self.worker.skills,
            _ => &mut self.title,
        }
    }

    /// The choice question of a field, to work on.
    pub fn choice_mut(&mut self, f: FieldId) -> (r: &mut ButtonOption<Choice>)
        requires
            is_choice(f),
        ensures
            *r == choice_of(*old(self), f),
            *final(self) == with_choice(*old(self), f, *final(r)),
    {
        match f {
            FieldId::Kind => &mut self.kind,
            FieldId::IsRecruiter => &mut self.is_recruiter,
            FieldId::Contact => &mut self.contact,
            FieldId::InternshipCompensation => &mut self.internship.compensation,
            FieldId::RecruiterLocation => &mut self.recruiter.location,
            FieldId::WorkerLocation => &mut self.worker.location,
            _ => &mut self.kind,
        }
    }
}

/// The title of a question.
pub open spec fn field_title_spec(f: FieldId) -> Seq<char> {
    match f {
        FieldId::Title => "Donne un titre à ton annonce"@,
        FieldId::Description => "Décris ton annonce, en quoi elle consiste, qui tu es etc..."@,
        FieldId::Kind => "Quel type de contrat recherches-tu ?"@,
        FieldId::IsRecruiter => "Quel type de contrat recherches-tu ?"@,
        FieldId::Contact => "Comment peut-on te contacter ?"@,
        FieldId::ContactOther => "Indique au moins un moyen de contact (mail etc...)"@,
        FieldId::OtherUrls => "Précises d'autres liens utils"@,
        FieldId::InternshipDuration => "Durée du stage"@,
        FieldId::InternshipCompensation => "Le stage est-il rémunéré ?"@,
        FieldId::InternshipPay => "Quelle est la gratification ? (4,35€/h minimum pour un stage de plus de 10 semaines)"@,
        FieldId::WorkStudyDuration => "Durée du contrat"@,
        FieldId::WorkStudyPay => "Rémunération"@,
        FieldId::FixedTermDuration => "Durée du contrat"@,
        FieldId::FixedTermPay => "Rémunération"@,
        FieldId::OpenEndedPay => "Rémunération"@,
        FieldId::RecruiterLocation => "Quelles sont les modalités de travail ?"@,
        FieldId::RecruiterCity => "Quelle est ta ville / région ?"@,
        FieldId::RecruiterStudio => "Quel est le nom de ton entreprise / studio ?"@,
        FieldId::RecruiterResponsibilities => "Quelles sont les responsabilitées demandées ?"@,
        FieldId::RecruiterQualifications => "Quelles sont les compétences requises ?"@,
        FieldId::WorkerLocation => "Souhaites-tu travailler à distance ou en présentiel ?"@,
        FieldId::WorkerCity => "Indique ta ville / région"@,
        FieldId::WorkerSkills => "Quelles sont tes compétences ?"@,
    }
}

/// The title of a question.
pub fn field_title(f: FieldId) -> (r: &'static str)
    ensures
        r@ == field_title_spec(f),
{
    match f {
            FieldId::Title => "Donne un titre à ton annonce",
            FieldId::Description => "Décris ton annonce, en quoi elle consiste, qui tu es etc...",
            FieldId::Kind => "Quel type de contrat recherches-tu ?",
            FieldId::IsRecruiter => "Quel type de contrat recherches-tu ?",
            FieldId::Contact => "Comment peut-on te contacter ?",
            FieldId::ContactOther => "Indique au moins un moyen de contact (mail etc...)",
            FieldId::OtherUrls => "Précises d'autres liens utils",
            FieldId::InternshipDuration => "Durée du stage",
            FieldId::InternshipCompensation => "Le stage est-il rémunéré ?",
            FieldId::InternshipPay => "Quelle est la gratification ? (4,35€/h minimum pour un stage de plus de 10 semaines)",
            FieldId::WorkStudyDuration => "Durée du contrat",
            FieldId::WorkStudyPay => "Rémunération",
            FieldId::FixedTermDuration => "Durée du contrat",
            FieldId::FixedTermPay => "Rémunération",
            FieldId::OpenEndedPay => "Rémunération",
            FieldId::RecruiterLocation => "Quelles sont les modalités de travail ?",
            FieldId::RecruiterCity => "Quelle est ta ville / région ?",
            FieldId::RecruiterStudio => "Quel est le nom de ton entreprise / studio ?",
            FieldId::RecruiterResponsibilities => "Quelles sont les responsabilitées demandées ?",
            FieldId::RecruiterQualifications => "Quelles sont les compétences requises ?",
            FieldId::WorkerLocation => "Souhaites-tu travailler à distance ou en présentiel ?",
            FieldId::WorkerCity => "Indique ta ville / région",
            FieldId::WorkerSkills => "Quelles sont tes compétences ?",
    }
}

/// The buttons of a choice question: key, label and value of each.
pub open spec fn choice_options_spec(f: FieldId) -> Seq<(Seq<char>, Seq<char>, Choice)> {
    match f {
        FieldId::Kind => seq![("🤝 Bénévolat (non rémunéré)"@, "🤝 Bénévolat (non rémunéré)"@, Choice::Volunteering), ("🪂 Stage"@, "🪂 Stage"@, Choice::Internship), ("🤓 Alternance (rémunéré)"@, "🤓 Alternance (rémunéré)"@, Choice::WorkStudy), ("🧐 Freelance"@, "🧐 Freelance"@, Choice::Freelance), ("😎 CDD (rémunéré)"@, "😎 CDD (rémunéré)"@, Choice::FixedTerm), ("🤯 CDI (rémunéré)"@, "🤯 CDI (rémunéré)"@, Choice::OpenEnded)],
        FieldId::IsRecruiter => seq![("🔧 Je cherche du travail"@, "🔧 Je cherche du travail"@, Choice::Worker), ("🕵️‍♀️ Je recrute"@, "🕵️‍♀️ Je recrute"@, Choice::Recruiter)],
        FieldId::Contact => seq![("Discord"@, "Discord"@, Choice::Discord), ("Autre"@, "Autre"@, Choice::Other)],
        FieldId::InternshipCompensation => seq![("Oui"@, "Oui"@, Choice::Paid), ("No"@, "No"@, Choice::Unpaid)],
        FieldId::RecruiterLocation => seq![("🌍 Distanciel"@, "🌍 Distanciel"@, Choice::Remote), ("🤷‍♀️ Télétravail possible"@, "🤷‍♀️ Télétravail possible"@, Choice::Flexible), ("🏣 Présentiel uniquement"@, "🏣 Présentiel uniquement"@, Choice::OnSite)],
        FieldId::WorkerLocation => seq![("remote"@, "🌍 Distanciel"@, Choice::Remote), ("any"@, "🤷‍♀️ Télétravail possible"@, Choice::Flexible), ("on_site"@, "🏣 Présentiel uniquement"@, Choice::OnSite)],
        _ => Seq::empty(),
    }
}

/// Options seen as plain values.
pub open spec fn options_view(o: Seq<(String, String, Choice)>) -> Seq<(Seq<char>, Seq<char>, Choice)> {
    o.map_values(|x: (String, String, Choice)| (x.0@, x.1@, x.2))
}

/// The buttons of a choice question: key, label and value of each.
pub fn choice_options(f: FieldId) -> (r: Vec<(String, String, Choice)>)
    ensures
        options_view(r@) == choice_options_spec(f),
{
    let mut r: Vec<(String, String, Choice)> = Vec::new();
    match f {
            FieldId::Kind => {
                r.push(("🤝 Bénévolat (non rémunéré)".to_owned(), "🤝 Bénévolat (non rémunéré)".to_owned(), Choice::Volunteering));
                r.push(("🪂 Stage".to_owned(), "🪂 Stage".to_owned(), Choice::Internship));
                r.push(("🤓 Alternance (rémunéré)".to_owned(), "🤓 Alternance (rémunéré)".to_owned(), Choice::WorkStudy));
                r.push(("🧐 Freelance".to_owned(), "🧐 Freelance".to_owned(), Choice::Freelance));
                r.push(("😎 CDD (rémunéré)".to_owned(), "😎 CDD (rémunéré)".to_owned(), Choice::FixedTerm));
                r.push(("🤯 CDI (rémunéré)".to_owned(), "🤯 CDI (rémunéré)".to_owned(), Choice::OpenEnded));
            },
            FieldId::IsRecruiter => {
                r.push(("🔧 Je cherche du travail".to_owned(), "🔧 Je cherche du travail".to_owned(), Choice::Worker));
                r.push(("🕵️‍♀️ Je recrute".to_owned(), "🕵️‍♀️ Je recrute".to_owned(), Choice::Recruiter));
            },
            FieldId::Contact => {
                r.push(("Discord".to_owned(), "Discord".to_owned(), Choice::Discord));
                r.push(("Autre".to_owned(), "Autre".to_owned(), Choice::Other));
            },
            FieldId::InternshipCompensation => {
                r.push(("Oui".to_owned(), "Oui".to_owned(), Choice::Paid));
                r.push(("No".to_owned(), "No".to_owned(), Choice::Unpaid));
            },
            FieldId::RecruiterLocation => {
                r.push(("🌍 Distanciel".to_owned(), "🌍 Distanciel".to_owned(), Choice::Remote));
                r.push(("🤷‍♀️ Télétravail possible".to_owned(), "🤷‍♀️ Télétravail possible".to_owned(), Choice::Flexible));
                r.push(("🏣 Présentiel uniquement".to_owned(), "🏣 Présentiel uniquement".to_owned(), Choice::OnSite));
            },
            FieldId::WorkerLocation => {
                r.push(("remote".to_owned(), "🌍 Distanciel".to_owned(), Choice::Remote));
                r.push(("any".to_owned(), "🤷‍♀️ Télétravail possible".to_owned(), Choice::Flexible));
                r.push(("on_site".to_owned(), "🏣 Présentiel uniquement".to_owned(), Choice::OnSite));
            },
            _ => {},
    }
    assert(options_view(r@) =~= choice_options_spec(f));
    r
}

/// Whether a text question takes the next message of the user: posted, unanswered, not left out.
pub open spec fn pending(t: TextOption) -> bool {
    t.question_message is Some && t.value is None && !t.skipped
}

/// The text questions of the chosen kind of contract.
pub open spec fn contract_fields(s: MainSteps) -> Seq<FieldId> {
    match chosen(s.kind) {
        Some(Choice::Internship) => if chosen(s.internship.compensation) == Some(Choice::Paid) {
            seq![FieldId::InternshipDuration, FieldId::InternshipPay]
        } else {
            seq![FieldId::InternshipDuration]
        },
        Some(Choice::WorkStudy) => seq![FieldId::WorkStudyDuration, FieldId::WorkStudyPay],
        Some(Choice::FixedTerm) => seq![FieldId::FixedTermDuration, FieldId::FixedTermPay],
        Some(Choice::OpenEnded) => seq![FieldId::OpenEndedPay],
        _ => Seq::empty(),
    }
}

/// The text questions of the chosen side.
pub open spec fn side_fields(s: MainSteps) -> Seq<FieldId> {
    match chosen(s.is_recruiter) {
        Some(Choice::Recruiter) => seq![
            FieldId::RecruiterStudio,
            FieldId::RecruiterQualifications,
            FieldId::RecruiterResponsibilities,
        ] + if has_city(chosen(s.recruiter.location)) {
            seq![FieldId::RecruiterCity]
        } else {
            Seq::empty()
        },
        Some(Choice::Worker) => seq![FieldId::WorkerSkills] + if has_city(chosen(s.worker.location)) {
            seq![FieldId::WorkerCity]
        } else {
            Seq::empty()
        },
        _ => Seq::empty(),
    }
}

/// The text questions that a message of the user may answer, in the order they are tried: the
/// common ones, those of the kind of contract, those of the side.
pub open spec fn message_order(s: MainSteps) -> Seq<FieldId> {
    seq![FieldId::Title, FieldId::Description] + (if chosen(s.contact) == Some(Choice::Other) {
        seq![FieldId::ContactOther]
    } else {
        Seq::empty()
    }) + seq![FieldId::OtherUrls] + contract_fields(s) + side_fields(s)
}

/// Every text question is designated by a text field.
pub proof fn lemma_message_order_text(s: MainSteps)
    ensures
        forall|i: int| 0 <= i < message_order(s).len() ==> !is_choice(#[trigger] message_order(s)[i]),
{
}

/// The choice of a side, kind or contact leaves the order of the text questions of a given form
/// unchanged when only a text question changes.
pub proof fn lemma_order_after_text(s: MainSteps, f: FieldId, t: TextOption)
    requires
        !is_choice(f),
    ensures
        message_order(with_text(s, f, t)) == message_order(s),
{
}

fn push_all(v: &mut Vec<FieldId>, extra: &[FieldId])
    ensures
        final(v)@ == old(v)@ + extra@,
{
    let mut i: usize = 0;
    let ghost start = v@;
    while i < extra.len()
        invariant
            i <= extra@.len(),
            v@ == start + extra@.take(i as int),
        decreases extra@.len() - i,
    {
        v.push(extra[i]);
        i = i + 1;
        assert(v@ =~= start + extra@.take(i as int));
    }
    assert(extra@.take(i as int) =~= extra@);
}

impl MainSteps {
    fn contract_field_list(&self) -> (r: Vec<FieldId>)
        ensures
            r@ == contract_fields(*self),
    {
        let mut r: Vec<FieldId> = Vec::new();
        match chosen_value(&self.kind) {
            Some(Choice::Internship) => {
                r.push(FieldId::InternshipDuration);
                if matches!(chosen_value(&self.internship.compensation), Some(Choice::Paid)) {
                    r.push(FieldId::InternshipPay);
                }
            },
            Some(Choice::WorkStudy) => {
                r.push(FieldId::WorkStudyDuration);
                r.push(FieldId::WorkStudyPay);
            },
            Some(Choice::FixedTerm) => {
                r.push(FieldId::FixedTermDuration);
                r.push(FieldId::FixedTermPay);
            },
            Some(Choice::OpenEnded) => {
                r.push(FieldId::OpenEndedPay);
            },
            _ => {},
        }
        assert(r@ =~= contract_fields(*self));
        r
    }

    fn side_field_list(&self) -> (r: Vec<FieldId>)
        ensures
            r@ == side_fields(*self),
    {
        let mut r: Vec<FieldId> = Vec::new();
        match chosen_value(&self.is_recruiter) {
            Some(Choice::Recruiter) => {
                r.push(FieldId::RecruiterStudio);
                r.push(FieldId::RecruiterQualifications);
                r.push(FieldId::RecruiterResponsibilities);
                if city_needed(chosen_value(&self.recruiter.location)) {
                    r.push(FieldId::RecruiterCity);
                }
            },
            Some(Choice::Worker) => {
                r.push(FieldId::WorkerSkills);
                if city_needed(chosen_value(&self.worker.location)) {
                    r.push(FieldId::WorkerCity);
                }
            },
            _ => {},
        }
        assert(r@ =~= side_fields(*self));
        r
    }

    /// The text questions that a message of the user may answer, in order.
    pub fn message_fields(&self) -> (r: Vec<FieldId>)
        ensures
            r@ == message_order(*self),
    {
        let mut r: Vec<FieldId> = Vec::new();
        r.push(FieldId::Title);
        r.push(FieldId::Description);
        if matches!(chosen_value(&self.contact), Some(Choice::Other)) {
            r.push(FieldId::ContactOther);
        }
        r.push(FieldId::OtherUrls);
        let c = self.contract_field_list();
        push_all(&mut r, c.as_slice());
        let d = self.side_field_list();
        push_all(&mut r, d.as_slice());
        assert(r@ =~= message_order(*self));
        r
    }

    /// Takes a message of the user as the answer to the first question, in `message_order`, that
    /// awaits one (see `TextOption::try_set`). Returns that question and the edit of its message;
    /// `None`, with nothing changed, when no question awaits an answer.
    pub fn receive_message(&mut self, ids: &mut crate::button_id::ButtonIds, content: &str) -> (r: Option<(FieldId, crate::ad_form::QuestionEdit)>)
        requires
            crate::ad_form::can_allocate_n(*old(ids), 2),
            crate::text::truncation_defined(content@, 1900),
        ensures
            r is None <==> (forall|i: int| 0 <= i < message_order(*old(self)).len() ==> !pending(
                #[trigger] text_of(*old(self), message_order(*old(self))[i]),
            )),
            r is None ==> *final(self) == *old(self) && final(ids).max == old(ids).max && final(ids).free@ == old(ids).free@,
            r matches Some((f, e)) ==> (exists|i: int|
                0 <= i < message_order(*old(self)).len() && message_order(*old(self))[i] == f && pending(
                    text_of(*old(self), f),
                ) && (forall|j: int| 0 <= j < i ==> !pending(#[trigger] text_of(*old(self), message_order(*old(self))[j]))))
                && *final(self) == with_text(*old(self), f, text_of(*final(self), f))
                && crate::ad_form::opt_view(text_of(*final(self), f).value) == Some(content@)
                && e.message == text_of(*old(self), f).question_message->0.message && ({
                let q = text_of(*old(self), f).question_message->0;
                let a = crate::ad_form::alloc_one(old(ids).max, old(ids).free@);
                let b = crate::ad_form::alloc_one(a.1, a.2);
                &&& e.content@ == crate::ad_form::answered_content(q.title@, content@, None, 1900)
                &&& e.buttons matches Some(bs) && crate::ad_form::buttons_view(bs@) == crate::ad_form::answer_buttons(
                    a.0,
                    b.0,
                    q.optional,
                    "Supprimer"@,
                )
                &&& final(ids).max == b.1
                &&& final(ids).free@ == crate::ad_form::freed(b.2, text_of(*old(self), f).clear_button)
            }),
    {
        let order = self.message_fields();
        proof {
            lemma_message_order_text(*self);
        }
        let mut i: usize = 0;
        while i < order.len()
            invariant
                i <= order@.len(),
                order@ == message_order(*old(self)),
                *self == *old(self),
                *ids == *old(ids),
                forall|j: int| 0 <= j < order@.len() ==> !is_choice(#[trigger] order@[j]),
                forall|j: int| 0 <= j < i ==> !pending(#[trigger] text_of(*old(self), order@[j])),
                crate::ad_form::can_allocate_n(*old(ids), 2),
                crate::text::truncation_defined(content@, 1900),
            decreases order@.len() - i,
        {
            let f = order[i];
            let t = self.text_mut(f);
            let waiting = t.question_message.is_some() && t.value.is_none() && !t.skipped;
            if waiting {
                let e = t.try_set(ids, content);
                match e {
                    Some(edit) => {
                        return Some((f, edit));
                    },
                    None => {
                        assert(false);
                    },
                }
            }
            i = i + 1;
        }
        None
    }
}

/// A text question in its initial state.
pub open spec fn fresh_text(t: TextOption) -> bool {
    &&& t.value is None
    &&& !t.skipped
    &&& t.edit_button is None
    &&& t.clear_button is None
    &&& t.question_message is None
    &&& t.waiting_edition_id is None
}

/// A choice question in its initial state.
pub open spec fn fresh_choice(b: ButtonOption<Choice>) -> bool {
    b.value is None && b.question_options is None
}

/// The choice questions that a click may answer, in the order they are tried.
pub open spec fn choice_order(s: MainSteps) -> Seq<FieldId> {
    seq![FieldId::Kind, FieldId::IsRecruiter, FieldId::Contact] + (if chosen(s.kind) == Some(Choice::Internship) {
        seq![FieldId::InternshipCompensation]
    } else {
        Seq::empty()
    }) + (if chosen(s.is_recruiter) == Some(Choice::Recruiter) {
        seq![FieldId::RecruiterLocation]
    } else {
        Seq::empty()
    }) + (if chosen(s.is_recruiter) == Some(Choice::Worker) {
        seq![FieldId::WorkerLocation]
    } else {
        Seq::empty()
    })
}

/// Whether the text question at position `k` of `message_order` is the first there to take the
/// click.
pub open spec fn first_text_taker(s: MainSteps, custom_id: Seq<char>, k: int) -> bool {
    &&& 0 <= k < message_order(s).len()
    &&& crate::ad_form::takes_click(text_of(s, message_order(s)[k]), custom_id)
    &&& forall|j: int| 0 <= j < k ==> !crate::ad_form::takes_click(#[trigger] text_of(s, message_order(s)[j]), custom_id)
}

/// Whether no text question of `message_order` takes the click.
pub open spec fn no_text_taker(s: MainSteps, custom_id: Seq<char>) -> bool {
    forall|j: int| 0 <= j < message_order(s).len() ==> !crate::ad_form::takes_click(
        #[trigger] text_of(s, message_order(s)[j]),
        custom_id,
    )
}

/// Whether the choice question at position `k` of `choice_order` is the first there to take the
/// click.
pub open spec fn first_choice_taker(s: MainSteps, custom_id: Seq<char>, k: int) -> bool {
    &&& 0 <= k < choice_order(s).len()
    &&& crate::ad_form::takes_choice(choice_of(s, choice_order(s)[k]), custom_id)
    &&& forall|j: int| 0 <= j < k ==> !crate::ad_form::takes_choice(#[trigger] choice_of(s, choice_order(s)[j]), custom_id)
}

/// Whether no choice question of `choice_order` takes the click.
pub open spec fn no_choice_taker(s: MainSteps, custom_id: Seq<char>) -> bool {
    forall|j: int| 0 <= j < choice_order(s).len() ==> !crate::ad_form::takes_choice(
        #[trigger] choice_of(s, choice_order(s)[j]),
        custom_id,
    )
}

/// Whether the text question at position `k` of `message_order` is the first there to await the
/// submitted modal.
pub open spec fn first_modal_taker(s: MainSteps, custom_id: Seq<char>, first_input: Option<Option<String>>, k: int) -> bool {
    let has_input = first_input is Some;
    &&& 0 <= k < message_order(s).len()
    &&& crate::ad_form::awaited_modal(text_of(s, message_order(s)[k]).waiting_edition_id, custom_id, has_input)
    &&& forall|j: int| 0 <= j < k ==> !crate::ad_form::awaited_modal(
        (#[trigger] text_of(s, message_order(s)[j])).waiting_edition_id,
        custom_id,
        has_input,
    )
}

/// What a click on a button of the form did.
pub enum FormClick {
    /// The click is for no question of the form.
    Ignored,
    /// A button of a text question was clicked.
    Text(FieldId, crate::ad_form::TextClick),
    /// A choice was made; the questions that depended on the previous choice were reset, and their
    /// posted messages are to be deleted.
    Choice { field: FieldId, previous: Option<Choice>, deleted_messages: Vec<u64> },
}

fn reset_text(t: &mut TextOption, ids: &mut crate::button_id::ButtonIds, deleted: &mut Vec<u64>)
    ensures
        fresh_text(*final(t)),
        final(ids).max == old(ids).max,
        final(deleted)@ == old(deleted)@ + (match old(t).question_message {
            Some(q) => seq![q.message],
            None => Seq::empty(),
        }),
{
    match &t.question_message {
        Some(q) => {
            deleted.push(q.message);
        },
        None => {},
    }
    t.delete(ids);
    *t = TextOption::new();
    assert(deleted@ =~= old(deleted)@ + (match old(t).question_message {
        Some(q) => seq![q.message],
        None => Seq::empty(),
    }));
}

fn reset_choice(b: &mut ButtonOption<Choice>, deleted: &mut Vec<u64>)
    ensures
        fresh_choice(*final(b)),
        final(deleted)@ == old(deleted)@ + (match old(b).question_options {
            Some(q) => seq![q.message],
            None => Seq::empty(),
        }),
{
    match &b.question_options {
        Some(q) => {
            deleted.push(q.message);
        },
        None => {},
    }
    *b = ButtonOption::new();
    assert(deleted@ =~= old(deleted)@ + (match old(b).question_options {
        Some(q) => seq![q.message],
        None => Seq::empty(),
    }));
}

impl MainSteps {
    /// The choice questions that a click may answer, in order.
    pub fn choice_fields(&self) -> (r: Vec<FieldId>)
        ensures
            r@ == choice_order(*self),
    {
        let mut r: Vec<FieldId> = Vec::new();
        r.push(FieldId::Kind);
        r.push(FieldId::IsRecruiter);
        r.push(FieldId::Contact);
        if matches!(chosen_value(&self.kind), Some(Choice::Internship)) {
            r.push(FieldId::InternshipCompensation);
        }
        if matches!(chosen_value(&self.is_recruiter), Some(Choice::Recruiter)) {
            r.push(FieldId::RecruiterLocation);
        }
        if matches!(chosen_value(&self.is_recruiter), Some(Choice::Worker)) {
            r.push(FieldId::WorkerLocation);
        }
        assert(r@ =~= choice_order(*self));
        r
    }

    /// Resets the questions that depended on the previous value of a choice question, and returns
    /// the question messages to delete.
    fn reset_dependents(&mut self, field: FieldId, previous: Option<Choice>, ids: &mut crate::button_id::ButtonIds) -> (r: Vec<u64>)
        ensures
            field == FieldId::Kind && previous == Some(Choice::Internship) ==> fresh_text(final(self).internship.duration)
                && fresh_choice(final(self).internship.compensation) && fresh_text(final(self).internship.pay),
            field == FieldId::Kind && previous == Some(Choice::WorkStudy) ==> fresh_text(final(self).work_study.duration)
                && fresh_text(final(self).work_study.compensation),
            field == FieldId::Kind && previous == Some(Choice::FixedTerm) ==> fresh_text(final(self).fixed_term.duration)
                && fresh_text(final(self).fixed_term.compensation),
            field == FieldId::Kind && previous == Some(Choice::OpenEnded) ==> fresh_text(final(self).open_ended.compensation),
            field == FieldId::IsRecruiter && previous == Some(Choice::Recruiter) ==> fresh_choice(final(self).recruiter.location)
                && fresh_text(final(self).recruiter.city) && fresh_text(final(self).recruiter.studio) && fresh_text(
                final(self).recruiter.responsibilities,
            ) && fresh_text(final(self).recruiter.qualifications),
            field == FieldId::IsRecruiter && previous == Some(Choice::Worker) ==> fresh_choice(final(self).worker.location)
                && fresh_text(final(self).worker.city) && fresh_text(final(self).worker.skills),
            field == FieldId::Contact && previous == Some(Choice::Other) ==> fresh_text(final(self).contact_other),
            field == FieldId::InternshipCompensation && previous == Some(Choice::Paid) ==> fresh_text(final(self).internship.pay),
            (field == FieldId::RecruiterLocation && has_city(previous)) ==> fresh_text(final(self).recruiter.city),
            (field == FieldId::WorkerLocation && has_city(previous)) ==> fresh_text(final(self).worker.city),
            final(self).title == old(self).title && final(self).description == old(self).description
                && final(self).other_urls == old(self).other_urls && final(self).kind == old(self).kind
                && final(self).is_recruiter == old(self).is_recruiter && final(self).contact == old(self).contact,
            field != FieldId::Kind ==> final(self).internship.compensation == old(self).internship.compensation,
            field != FieldId::IsRecruiter ==> final(self).recruiter.location == old(self).recruiter.location
                && final(self).worker.location == old(self).worker.location,
    {
        let mut deleted: Vec<u64> = Vec::new();
        match (field, previous) {
            (FieldId::Kind, Some(Choice::Internship)) => {
                reset_text(&mut self.internship.duration, ids, &mut deleted);
                reset_choice(&mut self.internship.compensation, &mut deleted);
                reset_text(&mut self.internship.pay, ids, &mut deleted);
            },
            (FieldId::Kind, Some(Choice::WorkStudy)) => {
                reset_text(&mut self.work_study.duration, ids, &mut deleted);
                reset_text(&mut self.work_study.compensation, ids, &mut deleted);
            },
            (FieldId::Kind, Some(Choice::FixedTerm)) => {
                reset_text(&mut self.fixed_term.duration, ids, &mut deleted);
                reset_text(&mut self.fixed_term.compensation, ids, &mut deleted);
            },
            (FieldId::Kind, Some(Choice::OpenEnded)) => {
                reset_text(&mut self.open_ended.compensation, ids, &mut deleted);
            },
            (FieldId::IsRecruiter, Some(Choice::Recruiter)) => {
                reset_choice(&mut self.recruiter.location, &mut deleted);
                reset_text(&mut self.recruiter.city, ids, &mut deleted);
                reset_text(&mut self.recruiter.studio, ids, &mut deleted);
                reset_text(&mut self.recruiter.responsibilities, ids, &mut deleted);
                reset_text(&mut self.recruiter.qualifications, ids, &mut deleted);
            },
            (FieldId::IsRecruiter, Some(Choice::Worker)) => {
                reset_choice(&mut self.worker.location, &mut deleted);
                reset_text(&mut self.worker.city, ids, &mut deleted);
                reset_text(&mut self.worker.skills, ids, &mut deleted);
            },
            (FieldId::Contact, Some(Choice::Other)) => {
                reset_text(&mut self.contact_other, ids, &mut deleted);
            },
            (FieldId::InternshipCompensation, Some(Choice::Paid)) => {
                reset_text(&mut self.internship.pay, ids, &mut deleted);
            },
            (FieldId::RecruiterLocation, Some(Choice::Flexible)) | (FieldId::RecruiterLocation, Some(Choice::OnSite)) => {
                reset_text(&mut self.recruiter.city, ids, &mut deleted);
            },
            (FieldId::WorkerLocation, Some(Choice::Flexible)) | (FieldId::WorkerLocation, Some(Choice::OnSite)) => {
                reset_text(&mut self.worker.city, ids, &mut deleted);
            },
            _ => {},
        }
        deleted
    }

    /// The text question of a field, to read.
    pub fn text_ref(&self, f: FieldId) -> (r: &TextOption)
        ensures
            *r == text_of(*self, f),
    {
        match f {
            FieldId::Title => &self.title,
            FieldId::Description => &self.description,
            FieldId::ContactOther => &self.contact_other,
            FieldId::OtherUrls => &self.other_urls,
            FieldId::InternshipDuration => &self.internship.duration,
            FieldId::InternshipPay => &self.internship.pay,
            FieldId::WorkStudyDuration => &self.work_study.duration,
            FieldId::WorkStudyPay => &self.work_study.compensation,
            FieldId::FixedTermDuration => &self.fixed_term.duration,
            FieldId::FixedTermPay => &self.fixed_term.compensation,
            FieldId::OpenEndedPay => &self.open_ended.compensation,
            FieldId::RecruiterCity => &self.recruiter.city,
            FieldId::RecruiterStudio => &self.recruiter.studio,
            FieldId::RecruiterResponsibilities => &self.recruiter.responsibilities,
            FieldId::RecruiterQualifications => &self.recruiter.qualifications,
            FieldId::WorkerCity => &self.worker.city,
            FieldId::WorkerSkills => &self.worker.skills,
            _ => &self.title,
        }
    }

    /// The choice question of a field, to read.
    pub fn choice_ref(&self, f: FieldId) -> (r: &ButtonOption<Choice>)
        ensures
            *r == choice_of(*self, f),
    {
        match f {
            FieldId::Kind => &self.kind,
            FieldId::IsRecruiter => &self.is_recruiter,
            FieldId::Contact => &self.contact,
            FieldId::InternshipCompensation => &self.internship.compensation,
            FieldId::RecruiterLocation => &self.recruiter.location,
            FieldId::WorkerLocation => &self.worker.location,
            _ => &self.kind,
        }
    }

    /// Whether the titles of the posted text questions can be cut where a click needs them (300
    /// bytes for the edit modal, 45 for its title): what `on_click` asks of the form.
    pub fn click_titles_fit(&self) -> (r: bool)
        ensures
            r == forall|i: int| 0 <= i < message_order(*self).len() ==> ({
                let t = #[trigger] text_of(*self, message_order(*self)[i]);
                t.question_message matches Some(q) ==> crate::text::truncation_defined(q.title@, 300)
                    && crate::text::truncation_defined(q.title@, 45)
            }),
    {
        let order = self.message_fields();
        let mut i: usize = 0;
        while i < order.len()
            invariant
                i <= order@.len(),
                order@ == message_order(*self),
                forall|j: int| 0 <= j < i ==> ({
                    let t = #[trigger] text_of(*self, message_order(*self)[j]);
                    t.question_message matches Some(q) ==> crate::text::truncation_defined(q.title@, 300)
                        && crate::text::truncation_defined(q.title@, 45)
                }),
            decreases order@.len() - i,
        {
            let t = self.text_ref(order[i]);
            match &t.question_message {
                Some(q) => {
                    if !crate::text::truncation_is_defined(q.title.as_str(), 300)
                        || !crate::text::truncation_is_defined(q.title.as_str(), 45) {
                        return false;
                    }
                },
                None => {},
            }
            i = i + 1;
        }
        true
    }

    /// Handles a click on a button of the form: the text questions of `message_order` are tried
    /// first (their edit and clear buttons), then the choice questions of `choice_order`; the first
    /// that takes the click handles it. A new choice resets the questions that depended on the
    /// previous one.
    pub fn on_click(&mut self, ids: &mut crate::button_id::ButtonIds, custom_id: &str) -> (r: Result<FormClick, crate::error::BidibipError>)
        requires
            crate::ad_form::can_allocate_n(*old(ids), 2),
            forall|i: int| 0 <= i < message_order(*old(self)).len() ==> ({
                let t = #[trigger] text_of(*old(self), message_order(*old(self))[i]);
                t.question_message matches Some(q) ==> crate::text::truncation_defined(q.title@, 300)
                    && crate::text::truncation_defined(q.title@, 45)
            }),
        ensures
            r matches Ok(FormClick::Ignored) ==> *final(self) == *old(self) && *final(ids) == *old(ids)
                && forall|j: int| 0 <= j < message_order(*old(self)).len() ==> !crate::ad_form::takes_click(
                #[trigger] text_of(*old(self), message_order(*old(self))[j]),
                custom_id@,
            ),
            r matches Ok(FormClick::Text(f, c)) ==> *final(self) == with_text(*old(self), f, text_of(*final(self), f))
                && exists|k: int| 0 <= k < message_order(*old(self)).len() && message_order(*old(self))[k] == f
                && (forall|j: int| 0 <= j < k ==> !crate::ad_form::takes_click(
                #[trigger] text_of(*old(self), message_order(*old(self))[j]),
                custom_id@,
            )) && crate::ad_form::edit_click_post(
                text_of(*old(self), f),
                *old(ids),
                custom_id@,
                Ok(c),
                text_of(*final(self), f),
                *final(ids),
            ),
            r matches Ok(FormClick::Choice { field, previous, deleted_messages: _ }) ==> choice_order(*old(self)).contains(field)
                && previous == chosen(choice_of(*old(self), field)) && chosen_value_key(choice_of(*final(self), field))
                == crate::ad_form::ad_action(custom_id@),
            r matches Err(e) ==> exists|k: int|
                first_text_taker(*old(self), custom_id@, k) && ({
                    let f = message_order(*old(self))[k];
                    &&& *final(self) == with_text(*old(self), f, text_of(*final(self), f))
                    &&& crate::ad_form::edit_click_post(
                        text_of(*old(self), f),
                        *old(ids),
                        custom_id@,
                        Err(e),
                        text_of(*final(self), f),
                        *final(ids),
                    )
                }),
            r is Err <==> exists|k: int|
                first_text_taker(*old(self), custom_id@, k) && text_of(*old(self), message_order(*old(self))[k]).question_message is None,
            (r matches Ok(FormClick::Text(_, _))) <==> exists|k: int|
                first_text_taker(*old(self), custom_id@, k) && text_of(*old(self), message_order(*old(self))[k]).question_message is Some,
            r matches Ok(FormClick::Choice { field, previous: _, deleted_messages: _ }) ==> no_text_taker(*old(self), custom_id@)
                && exists|k: int| first_choice_taker(*old(self), custom_id@, k) && choice_order(*old(self))[k] == field,
            (r matches Ok(FormClick::Ignored)) <==> no_text_taker(*old(self), custom_id@) && no_choice_taker(*old(self), custom_id@),
    {
        let order = self.message_fields();
        proof {
            lemma_message_order_text(*self);
        }
        let mut i: usize = 0;
        while i < order.len()
            invariant
                i <= order@.len(),
                order@ == message_order(*old(self)),
                *self == *old(self),
                *ids == *old(ids),
                forall|j: int| 0 <= j < order@.len() ==> !is_choice(#[trigger] order@[j]),
                crate::ad_form::can_allocate_n(*old(ids), 2),
                forall|j: int| 0 <= j < message_order(*old(self)).len() ==> ({
                    let t = #[trigger] text_of(*old(self), message_order(*old(self))[j]);
                    t.question_message matches Some(q) ==> crate::text::truncation_defined(q.title@, 300)
                        && crate::text::truncation_defined(q.title@, 45)
                }),
                forall|j: int| 0 <= j < i ==> !crate::ad_form::takes_click(
                    #[trigger] text_of(*old(self), message_order(*old(self))[j]),
                    custom_id@,
                ),
            decreases order@.len() - i,
        {
            let f = order[i];
            assert(message_order(*old(self))[i as int] == f);
            let t = self.text_mut(f);
            let outcome = t.try_edit_click(ids, custom_id);
            match outcome {
                Ok(crate::ad_form::TextClick::Ignored) => {},
                Ok(c) => {
                    assert(message_order(*old(self))[i as int] == f);
                    assert(first_text_taker(*old(self), custom_id@, i as int));
                    assert(text_of(*old(self), f).question_message is Some);
                    proof {
                        assert forall|k: int| first_text_taker(*old(self), custom_id@, k) implies k == i by {
                            if k < i {
                                assert(!crate::ad_form::takes_click(text_of(*old(self), message_order(*old(self))[k]), custom_id@));
                            }
                        }
                    }
                    return Ok(FormClick::Text(f, c));
                },
                Err(e) => {
                    assert(first_text_taker(*old(self), custom_id@, i as int));
                    assert(text_of(*old(self), f).question_message is None);
                    proof {
                        assert forall|k: int| first_text_taker(*old(self), custom_id@, k) implies k == i by {
                            if k < i {
                                assert(!crate::ad_form::takes_click(text_of(*old(self), message_order(*old(self))[k]), custom_id@));
                            }
                        }
                    }
                    return Err(e);
                },
            }
            i = i + 1;
        }
        assert(no_text_taker(*old(self), custom_id@));
        let choices = self.choice_fields();
        let mut k: usize = 0;
        while k < choices.len()
            invariant
                k <= choices@.len(),
                choices@ == choice_order(*old(self)),
                *self == *old(self),
                *ids == *old(ids),
                no_text_taker(*old(self), custom_id@),
                forall|j: int| 0 <= j < k ==> !crate::ad_form::takes_choice(
                    #[trigger] choice_of(*old(self), choice_order(*old(self))[j]),
                    custom_id@,
                ),
            decreases choices@.len() - k,
        {
            let f = choices[k];
            assert(choice_order(*old(self))[k as int] == f);
            assert(is_choice(f));
            let b = self.choice_mut(f);
            let previous_value = b.try_set(custom_id);
            match previous_value {
                Some(prev) => {
                    let ghost after = *self;
                    let previous = match prev {
                        Some(p) => Some(p.0),
                        None => None,
                    };
                    assert(first_choice_taker(*old(self), custom_id@, k as int));
                    let deleted_messages = self.reset_dependents(f, previous, ids);
                    assert(choice_order(*old(self)).contains(f));
                    return Ok(FormClick::Choice { field: f, previous, deleted_messages });
                },
                None => {},
            }
            k = k + 1;
        }
        assert(no_choice_taker(*old(self), custom_id@));
        Ok(FormClick::Ignored)
    }
}

impl MainSteps {
    /// Hands the submission of an edition modal to the text questions of `message_order`, in
    /// order (see `TextOption::try_edit_modal`); the first that awaits it takes it. Returns that
    /// question and the edit of its message; `None`, with nothing changed, when none awaits it.
    pub fn on_modal(
        &mut self,
        ids: &mut crate::button_id::ButtonIds,
        custom_id: &str,
        first_input: Option<Option<String>>,
    ) -> (r: Result<Option<(FieldId, crate::ad_form::QuestionEdit)>, crate::error::BidibipError>)
        requires
            forall|i: int| 0 <= i < message_order(*old(self)).len() ==> ({
                let t = #[trigger] text_of(*old(self), message_order(*old(self))[i]);
                t.question_message matches Some(q) ==> crate::text::truncation_defined(q.title@, 300)
                    && crate::text::truncation_defined(q.title@, 45)
            }),
            first_input matches Some(t) ==> crate::text::truncation_defined(
                crate::ad_form::shown_answer(crate::ad_form::opt_view(t)),
                1650,
            ),
        ensures
            r matches Ok(None) ==> *final(self) == *old(self) && *final(ids) == *old(ids)
                && forall|j: int| 0 <= j < message_order(*old(self)).len() ==> !crate::ad_form::awaited_modal(
                (#[trigger] text_of(*old(self), message_order(*old(self))[j])).waiting_edition_id,
                custom_id@,
                first_input is Some,
            ),
            r matches Ok(Some((f, e))) ==> *final(self) == with_text(*old(self), f, text_of(*final(self), f))
                && exists|k: int| 0 <= k < message_order(*old(self)).len() && message_order(*old(self))[k] == f
                && (forall|j: int| 0 <= j < k ==> !crate::ad_form::awaited_modal(
                (#[trigger] text_of(*old(self), message_order(*old(self))[j])).waiting_edition_id,
                custom_id@,
                first_input is Some,
            )) && crate::ad_form::edit_modal_post(
                text_of(*old(self), f),
                *old(ids),
                custom_id@,
                first_input,
                Ok(Some(e)),
                text_of(*final(self), f),
                *final(ids),
            ),
            final(ids).max == old(ids).max,
            r matches Err(e) ==> exists|k: int|
                first_modal_taker(*old(self), custom_id@, first_input, k) && ({
                    let f = message_order(*old(self))[k];
                    &&& *final(self) == with_text(*old(self), f, text_of(*final(self), f))
                    &&& crate::ad_form::edit_modal_post(
                        text_of(*old(self), f),
                        *old(ids),
                        custom_id@,
                        first_input,
                        Err(e),
                        text_of(*final(self), f),
                        *final(ids),
                    )
                }),
            r is Err <==> exists|k: int|
                first_modal_taker(*old(self), custom_id@, first_input, k) && text_of(
                    *old(self),
                    message_order(*old(self))[k],
                ).question_message is None,
            (r matches Ok(Some(_))) <==> exists|k: int|
                first_modal_taker(*old(self), custom_id@, first_input, k) && text_of(
                    *old(self),
                    message_order(*old(self))[k],
                ).question_message is Some,
            (r matches Ok(None)) <==> forall|j: int| 0 <= j < message_order(*old(self)).len() ==> !crate::ad_form::awaited_modal(
                (#[trigger] text_of(*old(self), message_order(*old(self))[j])).waiting_edition_id,
                custom_id@,
                first_input is Some,
            ),
    {
        let order = self.message_fields();
        proof {
            lemma_message_order_text(*self);
        }
        let mut i: usize = 0;
        while i < order.len()
            invariant
                i <= order@.len(),
                order@ == message_order(*old(self)),
                *self == *old(self),
                *ids == *old(ids),
                forall|j: int| 0 <= j < order@.len() ==> !is_choice(#[trigger] order@[j]),
                forall|j: int| 0 <= j < message_order(*old(self)).len() ==> ({
                    let t = #[trigger] text_of(*old(self), message_order(*old(self))[j]);
                    t.question_message matches Some(q) ==> crate::text::truncation_defined(q.title@, 300)
                        && crate::text::truncation_defined(q.title@, 45)
                }),
                first_input matches Some(t) ==> crate::text::truncation_defined(
                    crate::ad_form::shown_answer(crate::ad_form::opt_view(t)),
                    1650,
                ),
                forall|j: int| 0 <= j < i ==> !crate::ad_form::awaited_modal(
                    (#[trigger] text_of(*old(self), message_order(*old(self))[j])).waiting_edition_id,
                    custom_id@,
                    first_input is Some,
                ),
            decreases order@.len() - i,
        {
            let f = order[i];
            assert(message_order(*old(self))[i as int] == f);
            let t = self.text_mut(f);
            let outcome = t.try_edit_modal(ids, custom_id, first_input.clone());
            match outcome {
                Ok(None) => {},
                Ok(Some(edit)) => {
                    assert(message_order(*old(self))[i as int] == f);
                    assert(first_modal_taker(*old(self), custom_id@, first_input, i as int));
                    assert(text_of(*old(self), f).question_message is Some);
                    proof {
                        assert forall|k: int| first_modal_taker(*old(self), custom_id@, first_input, k) implies k == i by {
                            if k < i {
                                assert(!crate::ad_form::awaited_modal(
                                    text_of(*old(self), message_order(*old(self))[k]).waiting_edition_id,
                                    custom_id@,
                                    first_input is Some,
                                ));
                            }
                        }
                    }
                    return Ok(Some((f, edit)));
                },
                Err(e) => {
                    assert(first_modal_taker(*old(self), custom_id@, first_input, i as int));
                    assert(text_of(*old(self), f).question_message is None);
                    proof {
                        assert forall|k: int| first_modal_taker(*old(self), custom_id@, first_input, k) implies k == i by {
                            if k < i {
                                assert(!crate::ad_form::awaited_modal(
                                    text_of(*old(self), message_order(*old(self))[k]).waiting_edition_id,
                                    custom_id@,
                                    first_input is Some,
                                ));
                            }
                        }
                    }
                    return Err(e);
                },
            }
            i = i + 1;
        }
        Ok(None)
    }
}

/// The key of the chosen value of a choice question.
pub open spec fn chosen_value_key(b: ButtonOption<Choice>) -> Option<Seq<char>> {
    match b.value {
        Some(v) => Some(v.1@),
        None => None,
    }
}

/// The answer of a text question, or the mark of a missing one.
pub open spec fn or_missing(t: TextOption) -> Seq<char> {
    match t.value {
        Some(v) => v@,
        None => "[Donnée manquante]"@,
    }
}

/// A field of an ad's embed: name, value, and whether it stands inline.
pub struct AdField {
    pub name: String,
    pub value: String,
    pub inline: bool,
}

/// A field seen as plain values.
pub open spec fn field_view(f: AdField) -> (Seq<char>, Seq<char>, bool) {
    (f.name@, f.value@, f.inline)
}

/// Fields seen as plain values.
pub open spec fn fields_view(fs: Seq<AdField>) -> Seq<(Seq<char>, Seq<char>, bool)> {
    fs.map_values(|f: AdField| field_view(f))
}

/// A section of an ad, shown in an embed of its own: its title and its text.
pub struct AdCategory {
    pub title: String,
    pub description: String,
}

/// Sections seen as plain values.
pub open spec fn categories_view(cs: Seq<AdCategory>) -> Seq<(Seq<char>, Seq<char>)> {
    cs.map_values(|c: AdCategory| (c.title@, c.description@))
}

fn answer_or_missing(t: &TextOption) -> (r: String)
    ensures
        r@ == or_missing(*t),
{
    match &t.value {
        Some(v) => v.clone(),
        None => "[Donnée manquante]".to_owned(),
    }
}

fn inline_field(name: &str, value: String) -> (r: AdField)
    ensures
        field_view(r) == (name@, value@, true),
{
    AdField { name: name.to_owned(), value, inline: true }
}

/// Where the work takes place, as an ad shows it.
pub open spec fn location_text(location: Option<Choice>, city: TextOption) -> Seq<char> {
    match location {
        Some(Choice::Remote) => "🌍 Distanciel uniquement"@,
        Some(Choice::Flexible) => or_missing(city) + " (🤷‍♀️ Télétravail possible)"@,
        Some(Choice::OnSite) => or_missing(city) + " (🏣 sur site)"@,
        _ => "[Donnée manquante]"@,
    }
}

fn location_string(location: Option<Choice>, city: &TextOption) -> (r: String)
    ensures
        r@ == location_text(location, *city),
{
    match location {
        Some(Choice::Remote) => "🌍 Distanciel uniquement".to_owned(),
        Some(Choice::Flexible) => {
            let mut r = answer_or_missing(city);
            r.append(" (🤷‍♀️ Télétravail possible)");
            r
        },
        Some(Choice::OnSite) => {
            let mut r = answer_or_missing(city);
            r.append(" (🏣 sur site)");
            r
        },
        _ => "[Donnée manquante]".to_owned(),
    }
}

impl InternshipInfos {
    /// The fields an internship adds to an ad: its length and, unless it is unpaid, its pay.
    pub fn fill_message(&self) -> (r: Vec<AdField>)
        ensures
            fields_view(r@) == seq![("Durée"@, or_missing(self.duration), true)] + match chosen(self.compensation) {
                None => seq![("Rémunération"@, "[Donnée manquante]"@, true)],
                Some(Choice::Paid) => seq![("Rémunération"@, or_missing(self.pay), true)],
                _ => Seq::empty(),
            },
    {
        let mut r: Vec<AdField> = Vec::new();
        r.push(inline_field("Durée", answer_or_missing(&self.duration)));
        match chosen_value(&self.compensation) {
            None => {
                r.push(inline_field("Rémunération", "[Donnée manquante]".to_owned()));
            },
            Some(Choice::Paid) => {
                r.push(inline_field("Rémunération", answer_or_missing(&self.pay)));
            },
            _ => {},
        }
        assert(fields_view(r@) =~= seq![("Durée"@, or_missing(self.duration), true)] + match chosen(self.compensation) {
            None => seq![("Rémunération"@, "[Donnée manquante]"@, true)],
            Some(Choice::Paid) => seq![("Rémunération"@, or_missing(self.pay), true)],
            _ => Seq::empty(),
        });
        r
    }
}

impl FixedTermInfos {
    /// The fields a fixed-term contract adds to an ad: its length and its pay.
    pub fn fill_message(&self) -> (r: Vec<AdField>)
        ensures
            fields_view(r@) == seq![("Durée"@, or_missing(self.duration), true), ("Rémunération"@, or_missing(self.compensation), true)],
    {
        let mut r: Vec<AdField> = Vec::new();
        r.push(inline_field("Durée", answer_or_missing(&self.duration)));
        r.push(inline_field("Rémunération", answer_or_missing(&self.compensation)));
        assert(fields_view(r@) =~= seq![("Durée"@, or_missing(self.duration), true), ("Rémunération"@, or_missing(self.compensation), true)]);
        r
    }
}

impl OpenEndedInfos {
    /// The field an open-ended contract adds to an ad: its pay.
    pub fn fill_message(&self) -> (r: Vec<AdField>)
        ensures
            fields_view(r@) == seq![("Rémunération"@, or_missing(self.compensation), true)],
    {
        let mut r: Vec<AdField> = Vec::new();
        r.push(inline_field("Rémunération", answer_or_missing(&self.compensation)));
        assert(fields_view(r@) =~= seq![("Rémunération"@, or_missing(self.compensation), true)]);
        r
    }
}

impl RecruiterInfos {
    /// What a recruiter adds to an ad: the place of work and the studio as fields, the
    /// qualifications and the responsibilities as sections.
    pub fn fill_message(&self) -> (r: (Vec<AdField>, Vec<AdCategory>))
        ensures
            fields_view(r.0@) == seq![
                ("Emplacement"@, location_text(chosen(self.location), self.city), true),
                ("Entreprise"@, or_missing(self.studio), true),
            ],
            categories_view(r.1@) == seq![
                ("Qualifications"@, or_missing(self.qualifications)),
                ("Responsabilités"@, or_missing(self.responsibilities)),
            ],
    {
        let mut categories: Vec<AdCategory> = Vec::new();
        categories.push(AdCategory { title: "Qualifications".to_owned(), description: answer_or_missing(&self.qualifications) });
        categories.push(AdCategory { title: "Responsabilités".to_owned(), description: answer_or_missing(&self.responsibilities) });
        let mut fields: Vec<AdField> = Vec::new();
        fields.push(inline_field("Emplacement", location_string(chosen_value(&self.location), &self.city)));
        fields.push(inline_field("Entreprise", answer_or_missing(&self.studio)));
        assert(fields_view(fields@) =~= seq![
            ("Emplacement"@, location_text(chosen(self.location), self.city), true),
            ("Entreprise"@, or_missing(self.studio), true),
        ]);
        assert(categories_view(categories@) =~= seq![
            ("Qualifications"@, or_missing(self.qualifications)),
            ("Responsabilités"@, or_missing(self.responsibilities)),
        ]);
        (fields, categories)
    }
}

impl WorkerInfos {
    /// What someone looking for work adds to an ad: the place of work as a field, the skills as a
    /// section.
    pub fn fill_message(&self) -> (r: (Vec<AdField>, Vec<AdCategory>))
        ensures
            fields_view(r.0@) == seq![("Emplacement"@, location_text(chosen(self.location), self.city), true)],
            categories_view(r.1@) == seq![("Compétences"@, or_missing(self.skills))],
    {
        let mut categories: Vec<AdCategory> = Vec::new();
        categories.push(AdCategory { title: "Compétences".to_owned(), description: answer_or_missing(&self.skills) });
        let mut fields: Vec<AdField> = Vec::new();
        fields.push(inline_field("Emplacement", location_string(chosen_value(&self.location), &self.city)));
        assert(fields_view(fields@) =~= seq![("Emplacement"@, location_text(chosen(self.location), self.city), true)]);
        assert(categories_view(categories@) =~= seq![("Compétences"@, or_missing(self.skills))]);
        (fields, categories)
    }
}

/// The main embed of an ad: its title, its text, and the length of a freelance mission.
pub struct AdPreview {
    pub title: String,
    pub description: String,
    pub fields: Vec<AdField>,
}

/// The form as it is stored with a published ad: every question as it is stored (see
/// `ResetStep`); the answers of the freelance part, the edited post and the preview message stay.
pub open spec fn stored_steps(s: MainSteps) -> MainSteps {
    MainSteps {
        title: stored_text(s.title),
        kind: stored_choice(s.kind),
        description: stored_text(s.description),
        is_recruiter: stored_choice(s.is_recruiter),
        contact: stored_choice(s.contact),
        contact_other: stored_text(s.contact_other),
        other_urls: stored_text(s.other_urls),
        internship: InternshipInfos {
            duration: stored_text(s.internship.duration),
            compensation: stored_choice(s.internship.compensation),
            pay: stored_text(s.internship.pay),
        },
        work_study: WorkStudyInfos {
            duration: stored_text(s.work_study.duration),
            compensation: stored_text(s.work_study.compensation),
        },
        fixed_term: FixedTermInfos {
            duration: stored_text(s.fixed_term.duration),
            compensation: stored_text(s.fixed_term.compensation),
        },
        open_ended: OpenEndedInfos { compensation: stored_text(s.open_ended.compensation) },
        recruiter: RecruiterInfos {
            location: stored_choice(s.recruiter.location),
            city: stored_text(s.recruiter.city),
            studio: stored_text(s.recruiter.studio),
            responsibilities: stored_text(s.recruiter.responsibilities),
            qualifications: stored_text(s.recruiter.qualifications),
        },
        worker: WorkerInfos {
            location: stored_choice(s.worker.location),
            city: stored_text(s.worker.city),
            skills: stored_text(s.worker.skills),
        },
        ..s
    }
}

/// The title of an ad as its preview shows it.
pub open spec fn preview_title(s: MainSteps) -> Seq<char> {
    match s.title.value {
        Some(v) => v@,
        None => "[Titre manquant]"@,
    }
}

/// The text of an ad as its preview shows it.
pub open spec fn preview_description(s: MainSteps, author: Seq<char>) -> Seq<char> {
    "Annonce de "@ + author + ":\n"@ + match s.description.value {
        Some(v) => v@,
        None => "[Aucune description]"@,
    }
}

/// The fields of the main embed: for a freelance mission, its length.
pub open spec fn preview_fields(s: MainSteps) -> Seq<(Seq<char>, Seq<char>, bool)> {
    if chosen(s.kind) == Some(Choice::Freelance) {
        seq![("Durée"@, match s.freelance.duration {
            Some(d) => d@,
            None => "[non spécifié]"@,
        }, false)]
    } else {
        Seq::empty()
    }
}

impl MainSteps {
    /// An empty form.
    pub fn new() -> (r: MainSteps)
        ensures
            fresh_text(r.title) && fresh_text(r.description) && fresh_text(r.contact_other) && fresh_text(r.other_urls),
            fresh_choice(r.kind) && fresh_choice(r.is_recruiter) && fresh_choice(r.contact),
            r.edited_post is None && r.demo_message is None,
            main_step(r) == (FormStep::Ask { field: FieldId::Title, stop: true }),
    {
        MainSteps {
            title: TextOption::new(),
            kind: ButtonOption::new(),
            description: TextOption::new(),
            is_recruiter: ButtonOption::new(),
            contact: ButtonOption::new(),
            contact_other: TextOption::new(),
            other_urls: TextOption::new(),
            internship: InternshipInfos { duration: TextOption::new(), compensation: ButtonOption::new(), pay: TextOption::new() },
            work_study: WorkStudyInfos { duration: TextOption::new(), compensation: TextOption::new() },
            fixed_term: FixedTermInfos { duration: TextOption::new(), compensation: TextOption::new() },
            open_ended: OpenEndedInfos { compensation: TextOption::new() },
            freelance: FreelanceInfos { duration: None, compensation: None },
            volunteering: VolunteeringInfos {  },
            recruiter: RecruiterInfos {
                location: ButtonOption::new(),
                city: TextOption::new(),
                studio: TextOption::new(),
                responsibilities: TextOption::new(),
                qualifications: TextOption::new(),
            },
            worker: WorkerInfos { location: ButtonOption::new(), city: TextOption::new(), skills: TextOption::new() },
            edited_post: None,
            demo_message: None,
        }
    }

    /// The main embed of the ad, written for `author`.
    pub fn create_message(&self, author: &str) -> (r: AdPreview)
        ensures
            r.title@ == preview_title(*self),
            r.description@ == preview_description(*self, author@),
            fields_view(r.fields@) == preview_fields(*self),
    {
        let title = match &self.title.value {
            Some(v) => v.clone(),
            None => "[Titre manquant]".to_owned(),
        };
        let mut description = String::new();
        description.append("Annonce de ");
        description.append(author);
        description.append(":\n");
        match &self.description.value {
            Some(v) => description.append(v.as_str()),
            None => description.append("[Aucune description]"),
        }
        proof {
            reveal_strlit("Annonce de ");
            reveal_strlit(":\n");
        }
        assert(description@ =~= preview_description(*self, author@));
        let mut fields: Vec<AdField> = Vec::new();
        if matches!(chosen_value(&self.kind), Some(Choice::Freelance)) {
            let value = match &self.freelance.duration {
                Some(d) => d.clone(),
                None => "[non spécifié]".to_owned(),
            };
            fields.push(AdField { name: "Durée".to_owned(), value, inline: false });
        }
        assert(fields_view(fields@) =~= preview_fields(*self));
        AdPreview { title, description, fields }
    }

    /// Forgets the state of every question before the ad is stored; the answers stay.
    pub fn clean_for_storage(&mut self)
        ensures
            *final(self) == stored_steps(*old(self)),
    {
        self.title.clean_for_storage();
        self.kind.clean_for_storage();
        self.description.clean_for_storage();
        self.is_recruiter.clean_for_storage();
        self.contact.clean_for_storage();
        self.contact_other.clean_for_storage();
        self.other_urls.clean_for_storage();
        self.internship.duration.clean_for_storage();
        self.internship.compensation.clean_for_storage();
        self.internship.pay.clean_for_storage();
        self.work_study.duration.clean_for_storage();
        self.work_study.compensation.clean_for_storage();
        self.fixed_term.duration.clean_for_storage();
        self.fixed_term.compensation.clean_for_storage();
        self.open_ended.compensation.clean_for_storage();
        self.recruiter.location.clean_for_storage();
        self.recruiter.city.clean_for_storage();
        self.recruiter.studio.clean_for_storage();
        self.recruiter.responsibilities.clean_for_storage();
        self.recruiter.qualifications.clean_for_storage();
        self.worker.location.clean_for_storage();
        self.worker.city.clean_for_storage();
        self.worker.skills.clean_for_storage();
    }
}

} // verus!
