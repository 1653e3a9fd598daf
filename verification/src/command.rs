//! The slash and context commands the modules declare, with their options and permissions.
use vstd::prelude::*;
use crate::ad_form::opt_view;
use crate::permissions::{CommandKind, PermissionData};

verus! {

/// The type of a command option.
#[derive(PartialEq, Eq, Structural, Clone, Copy, Debug)]
pub enum OptionKind {
    Text,
    Boolean,
    Integer,
    User,
    Channel,
    Role,
    Attachment,
}

/// An option of a command: type, name, description, whether it is required, and the text choices
/// it offers (label, value).
pub struct CommandOptionSpec {
    pub kind: OptionKind,
    pub name: String,
    pub description: String,
    pub required: bool,
    pub choices: Vec<(String, String)>,
}

/// Where a command can be installed.
#[derive(PartialEq, Eq, Structural, Clone, Copy, Debug)]
pub enum InstallKind {
    Guild,
    User,
}

/// Where a command can be used.
#[derive(PartialEq, Eq, Structural, Clone, Copy, Debug)]
pub enum ContextKind {
    Guild,
    BotDm,
    PrivateChannel,
}

/// What handles a primary entry point command.
#[derive(PartialEq, Eq, Structural, Clone, Copy, Debug)]
pub enum EntryHandler {
    AppHandler,
    DiscordLaunchActivity,
}

/// A command as a module declares it. The localised names and descriptions are (locale, text)
/// pairs, one per locale.
pub struct CreateCommandDetailed {
    pub name: String,
    pub name_localizations: Vec<(String, String)>,
    pub description: Option<String>,
    pub description_localizations: Vec<(String, String)>,
    pub options: Vec<CommandOptionSpec>,
    pub default_member_permissions: Option<u64>,
    pub dm_permission: Option<bool>,
    pub kind: Option<CommandKind>,
    pub integration_types: Option<Vec<InstallKind>>,
    pub contexts: Option<Vec<ContextKind>>,
    pub nsfw: bool,
    pub handler: Option<EntryHandler>,
}

/// The locales of localised texts.
pub open spec fn locale_keys(v: Seq<(String, String)>) -> Seq<Seq<char>> {
    v.map_values(|e: (String, String)| e.0@)
}

/// Localised texts once `text` is set for `locale`: the first entry of that locale takes the new
/// text, or a new entry is added at the end when there is none; the other entries stay.
pub open spec fn localized_put(before: Seq<(String, String)>, after: Seq<(String, String)>, locale: Seq<char>, text: Seq<char>) -> bool {
    ||| exists|i: int|
        0 <= i < before.len() && before[i].0@ == locale && (forall|j: int| 0 <= j < i ==> before[j].0@ != locale)
            && after.len() == before.len() && after[i].0@ == locale && after[i].1@ == text && (forall|j: int|
            0 <= j < before.len() && j != i ==> after[j] == before[j])
    ||| !locale_keys(before).contains(locale) && after.len() == before.len() + 1 && after.take(before.len() as int) == before
        && after.last().0@ == locale && after.last().1@ == text
}

/// A list that may not be there yet, once `x` is added at its end.
pub open spec fn pushed_opt<T>(v: Option<Vec<T>>, x: T) -> Seq<T> {
    match v {
        Some(w) => w@.push(x),
        None => seq![x],
    }
}

fn put_localized(v: Vec<(String, String)>, locale: &str, text: &str) -> (r: Vec<(String, String)>)
    ensures
        localized_put(v@, r@, locale@, text@),
{
    let ghost before = v@;
    let mut w = v;
    let key = crate::text::chars_of(locale);
    let mut i: usize = 0;
    while i < w.len()
        invariant
            i <= w@.len(),
            w@ == before,
            before == v@,
            key@ == locale@,
            forall|j: int| 0 <= j < i ==> before[j].0@ != locale@,
        decreases w@.len() - i,
    {
        let k = crate::text::chars_of(w[i].0.as_str());
        if crate::custom_id::chars_equal(&k, &key) {
            w.set(i, (locale.to_owned(), text.to_owned()));
            assert(before[i as int].0@ == locale@);
            assert(w@[i as int].0@ == locale@ && w@[i as int].1@ == text@);
            assert(forall|j: int| 0 <= j < before.len() && j != i ==> w@[j] == before[j]);
            let ghost ii = i as int;
            assert(0 <= ii < before.len() && before[ii].0@ == locale@ && (forall|j: int| 0 <= j < ii ==> before[j].0@ != locale@)
                && w@.len() == before.len() && w@[ii].0@ == locale@ && w@[ii].1@ == text@ && (forall|j: int|
                0 <= j < before.len() && j != ii ==> w@[j] == before[j]));
            return w;
        }
        i = i + 1;
    }
    proof {
        if locale_keys(before).contains(locale@) {
            let j = choose|j: int| 0 <= j < locale_keys(before).len() && locale_keys(before)[j] == locale@;
            assert(before[j].0@ == locale@);
        }
    }
    w.push((locale.to_owned(), text.to_owned()));
    assert(w@.take(before.len() as int) =~= before);
    w
}

/// No choice.
pub open spec fn no_choices() -> Seq<(Seq<char>, Seq<char>)> {
    Seq::empty()
}

/// No option.
pub open spec fn no_options() -> Seq<(OptionKind, Seq<char>, Seq<char>, bool, Seq<(Seq<char>, Seq<char>)>)> {
    Seq::empty()
}

/// An option seen as plain values.
pub open spec fn option_view(o: CommandOptionSpec) -> (OptionKind, Seq<char>, Seq<char>, bool, Seq<(Seq<char>, Seq<char>)>) {
    (o.kind, o.name@, o.description@, o.required, o.choices@.map_values(|c: (String, String)| (c.0@, c.1@)))
}

/// A command seen as plain values: name, description, options, permissions, kind.
pub open spec fn command_view(c: CreateCommandDetailed) -> (
    Seq<char>,
    Option<Seq<char>>,
    Seq<(OptionKind, Seq<char>, Seq<char>, bool, Seq<(Seq<char>, Seq<char>)>)>,
    Option<u64>,
    Option<CommandKind>,
) {
    (c.name@, opt_view(c.description), c.options@.map_values(|o: CommandOptionSpec| option_view(o)), c.default_member_permissions, c.kind)
}

/// Commands seen as plain values.
pub open spec fn commands_view(v: Seq<CreateCommandDetailed>) -> Seq<(
    Seq<char>,
    Option<Seq<char>>,
    Seq<(OptionKind, Seq<char>, Seq<char>, bool, Seq<(Seq<char>, Seq<char>)>)>,
    Option<u64>,
    Option<CommandKind>,
)> {
    v.map_values(|c: CreateCommandDetailed| command_view(c))
}

impl CommandOptionSpec {
    /// An option of the given type, name and description, optional, without choices.
    pub fn new(kind: OptionKind, name: &str, description: &str) -> (r: CommandOptionSpec)
        ensures
            r.kind == kind && r.name@ == name@ && r.description@ == description@ && !r.required && r.choices@.len() == 0,
    {
        CommandOptionSpec { kind, name: name.to_owned(), description: description.to_owned(), required: false, choices: Vec::new() }
    }

    /// Marks the option required or not.
    pub fn required(self, required: bool) -> (r: CommandOptionSpec)
        ensures
            r.kind == self.kind && r.name@ == self.name@ && r.description@ == self.description@ && r.required == required
                && r.choices@ == self.choices@,
    {
        CommandOptionSpec { required, ..self }
    }

    /// Adds a text choice (label, value).
    pub fn add_string_choice(self, label: &str, value: &str) -> (r: CommandOptionSpec)
        ensures
            r.kind == self.kind && r.name@ == self.name@ && r.description@ == self.description@ && r.required == self.required
                && r.choices@.len() == self.choices@.len() + 1 && r.choices@.take(self.choices@.len() as int) == self.choices@
                && r.choices@.last().0@ == label@ && r.choices@.last().1@ == value@,
    {
        let mut s = self;
        s.choices.push((label.to_owned(), value.to_owned()));
        assert(s.choices@.take(self.choices@.len() as int) =~= self.choices@);
        s
    }
}

impl CreateCommandDetailed {
    /// A command with the given name and nothing else set.
    pub fn new(name: &str) -> (r: CreateCommandDetailed)
        ensures
            r.name@ == name@,
            r.name_localizations@.len() == 0,
            r.description is None,
            r.description_localizations@.len() == 0,
            r.options@.len() == 0,
            r.default_member_permissions is None,
            r.dm_permission is None,
            r.kind is None,
            r.integration_types is None,
            r.contexts is None,
            !r.nsfw,
            r.handler is None,
    {
        CreateCommandDetailed {
            name: name.to_owned(),
            name_localizations: Vec::new(),
            description: None,
            description_localizations: Vec::new(),
            options: Vec::new(),
            default_member_permissions: None,
            dm_permission: None,
            kind: None,
            integration_types: None,
            contexts: None,
            nsfw: false,
            handler: None,
        }
    }

    /// Replaces the name.
    pub fn name(self, name: &str) -> (r: CreateCommandDetailed)
        ensures
            r == (CreateCommandDetailed { name: r.name, ..self }),
            r.name@ == name@,
    {
        CreateCommandDetailed { name: name.to_owned(), ..self }
    }

    /// Sets the name shown for a locale, replacing the one set before for that locale.
    pub fn name_localized(self, locale: &str, name: &str) -> (r: CreateCommandDetailed)
        ensures
            r == (CreateCommandDetailed { name_localizations: r.name_localizations, ..self }),
            localized_put(self.name_localizations@, r.name_localizations@, locale@, name@),
    {
        let put = put_localized(self.name_localizations, locale, name);
        CreateCommandDetailed { name_localizations: put, ..self }
    }

    /// Sets the kind of command.
    pub fn kind(self, kind: CommandKind) -> (r: CreateCommandDetailed)
        ensures
            r == (CreateCommandDetailed { kind: Some(kind), ..self }),
    {
        CreateCommandDetailed { kind: Some(kind), ..self }
    }

    /// Sets the permissions a member needs by default.
    pub fn default_member_permissions(self, permissions: u64) -> (r: CreateCommandDetailed)
        ensures
            r == (CreateCommandDetailed { default_member_permissions: Some(permissions), ..self }),
    {
        CreateCommandDetailed { default_member_permissions: Some(permissions), ..self }
    }

    /// Sets the description.
    pub fn description(self, description: &str) -> (r: CreateCommandDetailed)
        ensures
            r == (CreateCommandDetailed { description: r.description, ..self }),
            opt_view(r.description) == Some(description@),
    {
        CreateCommandDetailed { description: Some(description.to_owned()), ..self }
    }

    /// Sets the description shown for a locale, replacing the one set before for that locale.
    pub fn description_localized(self, locale: &str, description: &str) -> (r: CreateCommandDetailed)
        ensures
            r == (CreateCommandDetailed { description_localizations: r.description_localizations, ..self }),
            localized_put(self.description_localizations@, r.description_localizations@, locale@, description@),
    {
        let put = put_localized(self.description_localizations, locale, description);
        CreateCommandDetailed { description_localizations: put, ..self }
    }

    /// Adds an option after the others.
    pub fn add_option(self, option: CommandOptionSpec) -> (r: CreateCommandDetailed)
        ensures
            r == (CreateCommandDetailed { options: r.options, ..self }),
            r.options@ == self.options@.push(option),
    {
        let mut s = self;
        s.options.push(option);
        s
    }

    /// Replaces the options.
    pub fn set_options(self, options: Vec<CommandOptionSpec>) -> (r: CreateCommandDetailed)
        ensures
            r == (CreateCommandDetailed { options, ..self }),
    {
        CreateCommandDetailed { options, ..self }
    }

    /// Adds a place where the command can be installed, after those set before.
    pub fn add_integration_type(self, integration_type: InstallKind) -> (r: CreateCommandDetailed)
        ensures
            r == (CreateCommandDetailed { integration_types: r.integration_types, ..self }),
            r.integration_types matches Some(v) && v@ == pushed_opt(self.integration_types, integration_type),
    {
        let mut v = match self.integration_types {
            Some(v) => v,
            None => Vec::new(),
        };
        v.push(integration_type);
        CreateCommandDetailed { integration_types: Some(v), ..self }
    }

    /// Replaces the places where the command can be installed.
    pub fn integration_types(self, integration_types: Vec<InstallKind>) -> (r: CreateCommandDetailed)
        ensures
            r == (CreateCommandDetailed { integration_types: Some(integration_types), ..self }),
    {
        CreateCommandDetailed { integration_types: Some(integration_types), ..self }
    }

    /// Adds a place where the command can be used, after those set before.
    pub fn add_context(self, context: ContextKind) -> (r: CreateCommandDetailed)
        ensures
            r == (CreateCommandDetailed { contexts: r.contexts, ..self }),
            r.contexts matches Some(v) && v@ == pushed_opt(self.contexts, context),
    {
        let mut v = match self.contexts {
            Some(v) => v,
            None => Vec::new(),
        };
        v.push(context);
        CreateCommandDetailed { contexts: Some(v), ..self }
    }

    /// Replaces the places where the command can be used.
    pub fn contexts(self, contexts: Vec<ContextKind>) -> (r: CreateCommandDetailed)
        ensures
            r == (CreateCommandDetailed { contexts: Some(contexts), ..self }),
    {
        CreateCommandDetailed { contexts: Some(contexts), ..self }
    }

    /// Sets whether the command is for adults only.
    pub fn nsfw(self, nsfw: bool) -> (r: CreateCommandDetailed)
        ensures
            r == (CreateCommandDetailed { nsfw, ..self }),
    {
        CreateCommandDetailed { nsfw, ..self }
    }

    /// Sets what handles the command when it is a primary entry point.
    pub fn handler(self, handler: EntryHandler) -> (r: CreateCommandDetailed)
        ensures
            r == (CreateCommandDetailed { handler: Some(handler), ..self }),
    {
        CreateCommandDetailed { handler: Some(handler), ..self }
    }

    /// Sets whether the command may be used in direct messages.
    pub fn dm_permission(self, allowed: bool) -> (r: CreateCommandDetailed)
        ensures
            r == (CreateCommandDetailed { dm_permission: Some(allowed), ..self }),
    {
        CreateCommandDetailed { dm_permission: Some(allowed), ..self }
    }
}

/// The commands of the utilities module: the module list, the update, and the module switch, all
/// for administrators.
pub fn utilities_commands(p: &PermissionData) -> (r: Vec<CreateCommandDetailed>)
    ensures
        r@.len() == 3,
        command_view(r@[0]) == ("modules"@, Some("Informations sur les modules"@), no_options(), Some(p.administrator_permissions), Some(CommandKind::ChatInput)),
        command_view(r@[1]) == ("update"@, Some("Redémarre et mets à jour Bidibip"@), no_options(), Some(p.administrator_permissions), Some(CommandKind::ChatInput)),
        command_view(r@[2]) == ("set-module-enabled"@, Some("Active ou désactive un module"@), seq![
            (OptionKind::Text, "module"@, "nom du module concerné"@, true, no_choices()),
            (OptionKind::Boolean, "activer"@, "active ou désactive le module"@, true, no_choices()),
        ], Some(p.administrator_permissions), Some(CommandKind::ChatInput)),
{
    let admin = p.at_least_admin();
    let mut r: Vec<CreateCommandDetailed> = Vec::new();
    let a = CreateCommandDetailed::new("modules").description("Informations sur les modules").kind(CommandKind::ChatInput).default_member_permissions(admin);
    assert(command_view(a) =~= ("modules"@, Some("Informations sur les modules"@), no_options(), Some(p.administrator_permissions), Some(CommandKind::ChatInput)));
    r.push(a);
    let b = CreateCommandDetailed::new("update").description("Redémarre et mets à jour Bidibip").kind(CommandKind::ChatInput).default_member_permissions(admin);
    assert(command_view(b) =~= ("update"@, Some("Redémarre et mets à jour Bidibip"@), no_options(), Some(p.administrator_permissions), Some(CommandKind::ChatInput)));
    r.push(b);
    let o1 = CommandOptionSpec::new(OptionKind::Text, "module", "nom du module concerné").required(true);
    let o2 = CommandOptionSpec::new(OptionKind::Boolean, "activer", "active ou désactive le module").required(true);
    let c = CreateCommandDetailed::new("set-module-enabled").description("Active ou désactive un module").kind(CommandKind::ChatInput).add_option(o1).add_option(o2).default_member_permissions(admin);
    assert(option_view(o1).4 =~= no_choices());
    assert(option_view(o2).4 =~= no_choices());
    assert(command_view(c).2 =~= seq![
        (OptionKind::Text, "module"@, "nom du module concerné"@, true, no_choices()),
        (OptionKind::Boolean, "activer"@, "active ou désactive le module"@, true, no_choices()),
    ]);
    r.push(c);
    r
}

/// The command of the help module.
pub fn help_commands() -> (r: Vec<CreateCommandDetailed>)
    ensures
        commands_view(r@) == seq![("help"@, Some("Liste des commandes disponibles"@), no_options(), None::<u64>, None::<CommandKind>)],
{
    let mut r: Vec<CreateCommandDetailed> = Vec::new();
    let c = CreateCommandDetailed::new("help").description("Liste des commandes disponibles");
    r.push(c);
    assert(command_view(c).2 =~= no_options());
    assert(commands_view(r@) =~= seq![("help"@, Some("Liste des commandes disponibles"@), no_options(), None::<u64>, None::<CommandKind>)]);
    r
}

/// The command of the moderation module.
pub fn modo_commands() -> (r: Vec<CreateCommandDetailed>)
    ensures
        commands_view(r@) == seq![("modo"@, Some("ouvre un canal direct avec la modération"@), no_options(), None::<u64>, None::<CommandKind>)],
{
    let mut r: Vec<CreateCommandDetailed> = Vec::new();
    let c = CreateCommandDetailed::new("modo").description("ouvre un canal direct avec la modération");
    r.push(c);
    assert(command_view(c).2 =~= no_options());
    assert(commands_view(r@) =~= seq![("modo"@, Some("ouvre un canal direct avec la modération"@), no_options(), None::<u64>, None::<CommandKind>)]);
    r
}

/// The command of the advertising module.
pub fn advertising_commands() -> (r: Vec<CreateCommandDetailed>)
    ensures
        commands_view(r@) == seq![("annonce"@, Some("Créer une annonce d'offre ou de recherche d'emploi"@), no_options(), None::<u64>, None::<CommandKind>)],
{
    let mut r: Vec<CreateCommandDetailed> = Vec::new();
    let c = CreateCommandDetailed::new("annonce").description("Créer une annonce d'offre ou de recherche d'emploi");
    r.push(c);
    assert(command_view(c).2 =~= no_options());
    assert(commands_view(r@) =~= seq![("annonce"@, Some("Créer une annonce d'offre ou de recherche d'emploi"@), no_options(), None::<u64>, None::<CommandKind>)]);
    r
}

/// The command of the say module, for members: a text, or a JSON file.
pub fn say_commands(p: &PermissionData) -> (r: Vec<CreateCommandDetailed>)
    ensures
        commands_view(r@) == seq![("say"@, Some("Ma parole sera la votre"@), seq![
            (OptionKind::Text, "message"@, "Que dois-je dire à votre place ?"@, false, no_choices()),
            (OptionKind::Attachment, "fichier"@, "Fichier json pour afficher un message formaté"@, false, no_choices()),
        ], Some(p.member_permissions & (p.helper_permissions & p.administrator_permissions)), Some(CommandKind::ChatInput))],
{
    let member = p.at_least_member();
    let o1 = CommandOptionSpec::new(OptionKind::Text, "message", "Que dois-je dire à votre place ?");
    let o2 = CommandOptionSpec::new(OptionKind::Attachment, "fichier", "Fichier json pour afficher un message formaté");
    let c = CreateCommandDetailed::new("say").default_member_permissions(member).description("Ma parole sera la votre").kind(CommandKind::ChatInput).add_option(o1).add_option(o2);
    assert(option_view(o1).4 =~= no_choices());
    assert(option_view(o2).4 =~= no_choices());
    let mut r: Vec<CreateCommandDetailed> = Vec::new();
    r.push(c);
    assert(command_view(c).2 =~= seq![
        (OptionKind::Text, "message"@, "Que dois-je dire à votre place ?"@, false, no_choices()),
        (OptionKind::Attachment, "fichier"@, "Fichier json pour afficher un message formaté"@, false, no_choices()),
    ]);
    assert(commands_view(r@) =~= seq![command_view(c)]);
    r
}

/// The commands of the sanction module: five user commands and the sanction command.
pub fn warn_commands(p: &PermissionData) -> (r: Vec<CreateCommandDetailed>)
    ensures
        r@.len() == 6,
        command_view(r@[0]) == ("warn"@, None::<Seq<char>>, no_options(), Some(p.administrator_permissions), Some(CommandKind::User)),
        command_view(r@[1]) == ("ban du vocal"@, None::<Seq<char>>, no_options(), Some(p.helper_permissions & p.administrator_permissions), Some(CommandKind::User)),
        command_view(r@[2]) == ("kick"@, None::<Seq<char>>, no_options(), Some(p.administrator_permissions), Some(CommandKind::User)),
        command_view(r@[3]) == ("exclusion 1h"@, None::<Seq<char>>, no_options(), Some(p.helper_permissions & p.administrator_permissions), Some(CommandKind::User)),
        command_view(r@[4]) == ("ban"@, None::<Seq<char>>, no_options(), Some(p.administrator_permissions), Some(CommandKind::User)),
        command_view(r@[5]) == ("sanction"@, Some("Sanctionne un utilisateur"@), seq![
            (OptionKind::User, "cible"@, "utilisateur à sanctionner"@, true, no_choices()),
            (OptionKind::Text, "action"@, "sanction à appliquer"@, true, seq![
                ("warn"@, "warn"@),
                ("ban du vocal"@, "ban du vocal"@),
                ("exclusion une heure"@, "exclusion 1h"@),
                ("exclusion un jour"@, "exclusion 1 jour"@),
                ("exclusion une semaine"@, "exclusion une semaine"@),
                ("kick"@, "kick"@),
                ("ban"@, "ban"@),
            ]),
        ], Some(p.administrator_permissions), None::<CommandKind>),
{
    let admin = p.at_least_admin();
    let helper = p.at_least_helper();
    let mut r: Vec<CreateCommandDetailed> = Vec::new();
    let c0 = CreateCommandDetailed::new("warn").kind(CommandKind::User).default_member_permissions(admin);
    let c1 = CreateCommandDetailed::new("ban du vocal").kind(CommandKind::User).default_member_permissions(helper);
    let c2 = CreateCommandDetailed::new("kick").kind(CommandKind::User).default_member_permissions(admin);
    let c3 = CreateCommandDetailed::new("exclusion 1h").kind(CommandKind::User).default_member_permissions(helper);
    let c4 = CreateCommandDetailed::new("ban").kind(CommandKind::User).default_member_permissions(admin);
    assert(command_view(c0).2 =~= no_options());
    assert(command_view(c1).2 =~= no_options());
    assert(command_view(c2).2 =~= no_options());
    assert(command_view(c3).2 =~= no_options());
    assert(command_view(c4).2 =~= no_options());
    r.push(c0);
    r.push(c1);
    r.push(c2);
    r.push(c3);
    r.push(c4);
    let target = CommandOptionSpec::new(OptionKind::User, "cible", "utilisateur à sanctionner").required(true);
    let action = CommandOptionSpec::new(OptionKind::Text, "action", "sanction à appliquer")
        .required(true)
        .add_string_choice("warn", "warn")
        .add_string_choice("ban du vocal", "ban du vocal")
        .add_string_choice("exclusion une heure", "exclusion 1h")
        .add_string_choice("exclusion un jour", "exclusion 1 jour")
        .add_string_choice("exclusion une semaine", "exclusion une semaine")
        .add_string_choice("kick", "kick")
        .add_string_choice("ban", "ban");
    assert(option_view(target).4 =~= no_choices());
    assert(option_view(action).4 =~= seq![
        ("warn"@, "warn"@),
        ("ban du vocal"@, "ban du vocal"@),
        ("exclusion une heure"@, "exclusion 1h"@),
        ("exclusion un jour"@, "exclusion 1 jour"@),
        ("exclusion une semaine"@, "exclusion une semaine"@),
        ("kick"@, "kick"@),
        ("ban"@, "ban"@),
    ]);
    let c5 = CreateCommandDetailed::new("sanction").default_member_permissions(admin).description("Sanctionne un utilisateur").add_option(target).add_option(action);
    assert(command_view(c5).2 =~= seq![option_view(target), option_view(action)]);
    r.push(c5);
    r
}

/// The commands of the repost module: linking a forum, for administrators, and reposting a
/// message, for members.
pub fn repost_commands(p: &PermissionData) -> (r: Vec<CreateCommandDetailed>)
    ensures
        r@.len() == 2,
        command_view(r@[0]) == ("set-forum-link"@, Some("Lie un forum à un channel de repost"@), seq![
            (OptionKind::Channel, "forum"@, "Forum où seront suivis les nouveaux posts"@, true, no_choices()),
            (OptionKind::Channel, "repost-channel"@, "Canal où seront repostés les évenements du forum"@, true, no_choices()),
            (OptionKind::Boolean, "vote"@, "Active les fonctionnalités de vote"@, true, no_choices()),
            (OptionKind::Boolean, "enabled"@, "Active ou désactive le lien"@, true, no_choices()),
        ], Some(p.administrator_permissions), None::<CommandKind>),
        command_view(r@[1]) == ("reposte"@, Some("Promeut le message donné dans le salon de repost"@), seq![
            (OptionKind::Text, "message"@, "lien du message à promouvoir"@, true, no_choices()),
        ], Some(p.member_permissions & (p.helper_permissions & p.administrator_permissions)), None::<CommandKind>),
{
    let o1 = CommandOptionSpec::new(OptionKind::Channel, "forum", "Forum où seront suivis les nouveaux posts").required(true);
    let o2 = CommandOptionSpec::new(OptionKind::Channel, "repost-channel", "Canal où seront repostés les évenements du forum").required(true);
    let o3 = CommandOptionSpec::new(OptionKind::Boolean, "vote", "Active les fonctionnalités de vote").required(true);
    let o4 = CommandOptionSpec::new(OptionKind::Boolean, "enabled", "Active ou désactive le lien").required(true);
    assert(option_view(o1).4 =~= no_choices());
    assert(option_view(o2).4 =~= no_choices());
    assert(option_view(o3).4 =~= no_choices());
    assert(option_view(o4).4 =~= no_choices());
    let c0 = CreateCommandDetailed::new("set-forum-link").description("Lie un forum à un channel de repost").add_option(o1).add_option(
        o2,
    ).add_option(o3).add_option(o4).default_member_permissions(p.at_least_admin());
    assert(command_view(c0).2 =~= seq![option_view(o1), option_view(o2), option_view(o3), option_view(o4)]);
    let m = CommandOptionSpec::new(OptionKind::Text, "message", "lien du message à promouvoir").required(true);
    assert(option_view(m).4 =~= no_choices());
    let c1 = CreateCommandDetailed::new("reposte").description("Promeut le message donné dans le salon de repost").add_option(m).default_member_permissions(
        p.at_least_member(),
    );
    assert(command_view(c1).2 =~= seq![option_view(m)]);
    let mut r: Vec<CreateCommandDetailed> = Vec::new();
    r.push(c0);
    r.push(c1);
    r
}

/// The message logged when a configured role does not exist on the server.
pub open spec fn missing_role_spec(kind: Seq<char>, id: u64) -> Seq<char> {
    kind + " role with id "@ + crate::text::decimal(id as nat) + " does not exists"@
}

/// The message logged when a configured role (`Member`, `Administrator` or `Helper`) does not exist.
pub fn missing_role(kind: &str, id: u64) -> (r: String)
    ensures
        r@ == missing_role_spec(kind@, id),
{
    let mut r = String::new();
    r.append(kind);
    r.append(" role with id ");
    let n = crate::text::u64_to_string(id);
    r.append(n.as_str());
    r.append(" does not exists");
    proof {
        reveal_strlit(" role with id ");
        reveal_strlit(" does not exists");
    }
    r
}

} // verus!
