//! The help command: the list of the commands a member may use.
use vstd::prelude::*;
use crate::error::BidibipError;
use crate::permissions::{shown_in_help, shown_in_help_spec, CommandKind};
use crate::text::{truncate_str, truncated, truncation_defined};

verus! {

/// Name of the help module.
pub fn module_name() -> (r: &'static str)
    ensures
        r@ == "help"@,
{
    "help"
}

/// Description of the help module.
pub fn module_description() -> (r: &'static str)
    ensures
        r@ == "Voir la liste des commandes disponibles"@,
{
    "Voir la liste des commandes disponibles"
}

/// What the help knows of a command: its name, its description, its default permissions and kind.
pub struct CommandSummary {
    pub name: String,
    pub description: Option<String>,
    pub permissions: Option<u64>,
    pub kind: Option<CommandKind>,
}

/// The field of a command in the help: its name cut to 256 bytes, its description (or nothing) cut
/// to 1024 bytes.
pub open spec fn help_field(c: CommandSummary) -> (Seq<char>, Seq<char>) {
    (truncated(c.name@, 256), truncated(match c.description {
        Some(d) => d@,
        None => Seq::empty(),
    }, 1024))
}

/// The fields of the help for a member holding `perms`, in order.
pub open spec fn help_fields_spec(commands: Seq<CommandSummary>, perms: u64) -> Seq<(Seq<char>, Seq<char>)>
    decreases commands.len(),
{
    if commands.len() == 0 {
        Seq::empty()
    } else {
        let prev = help_fields_spec(commands.drop_last(), perms);
        let c = commands.last();
        if shown_in_help_spec(perms, c.permissions, c.kind) {
            prev.push(help_field(c))
        } else {
            prev
        }
    }
}

/// Whether the name and the description of a command can be cut to their limits.
pub open spec fn help_cuts_defined(c: CommandSummary) -> bool {
    truncation_defined(c.name@, 256) && truncation_defined(
        match c.description {
            Some(d) => d@,
            None => Seq::empty(),
        },
        1024,
    )
}

/// Fields seen as plain values.
pub open spec fn help_view(v: Seq<(String, String)>) -> Seq<(Seq<char>, Seq<char>)> {
    v.map_values(|p: (String, String)| (p.0@, p.1@))
}

/// The fields of the help. `member` is the member's permissions: `None` when the member is unknown,
/// `Some(None)` when the permissions are. Either is an error as soon as there is a command to check.
pub fn help_fields(commands: &Vec<CommandSummary>, member: Option<Option<u64>>) -> (r: Result<Vec<(String, String)>, BidibipError>)
    requires
        forall|i: int| 0 <= i < commands@.len() ==> help_cuts_defined(#[trigger] commands@[i]),
    ensures
        commands@.len() == 0 ==> (r matches Ok(v) && v@.len() == 0),
        commands@.len() > 0 ==> match member {
            None => r matches Err(e) && e.msg@ == "Failed to get member data"@,
            Some(None) => r matches Err(e) && e.msg@ == "Failed to get user permissions"@,
            Some(Some(p)) => r matches Ok(v) && help_view(v@) == help_fields_spec(commands@, p),
        },
{
    let mut fields: Vec<(String, String)> = Vec::new();
    if commands.len() == 0 {
        return Ok(fields);
    }
    let perms = match member {
        None => {
            return Err(BidibipError::msg("Failed to get member data"));
        },
        Some(None) => {
            return Err(BidibipError::msg("Failed to get user permissions"));
        },
        Some(Some(p)) => p,
    };
    let mut i: usize = 0;
    while i < commands.len()
        invariant
            i <= commands@.len(),
            forall|j: int| 0 <= j < commands@.len() ==> help_cuts_defined(#[trigger] commands@[j]),
            help_view(fields@) == help_fields_spec(commands@.take(i as int), perms),
        decreases commands@.len() - i,
    {
        let c = &commands[i];
        assert(commands@.take(i + 1).drop_last() =~= commands@.take(i as int));
        assert(commands@.take(i + 1).last() == commands@[i as int]);
        assert(help_cuts_defined(commands@[i as int]));
        if shown_in_help(perms, c.permissions, c.kind) {
            proof {
                reveal_strlit("");
                assert(""@ =~= Seq::<char>::empty());
            }
            let name = truncate_str(c.name.as_str(), 256);
            let description = match &c.description {
                Some(d) => truncate_str(d.as_str(), 1024),
                None => truncate_str("", 1024),
            };
            let ghost before = fields@;
            fields.push((name, description));
            assert(help_view(fields@) =~= help_view(before).push(help_field(commands@[i as int])));
        }
        i = i + 1;
    }
    assert(commands@.take(i as int) =~= commands@);
    Ok(fields)
}

/// The title and the text of the help.
pub fn help_header() -> (r: (&'static str, &'static str))
    ensures
        r.0@ == "Aide de Bidibip"@,
        r.1@ == "Liste des commandes disponibles :"@,
{
    ("Aide de Bidibip", "Liste des commandes disponibles :")
}

} // verus!
