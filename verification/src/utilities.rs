//! The moderators' utilities: switching modules on and off, and updating the bot.
use vstd::prelude::*;
use crate::custom_id::chars_equal;
use crate::error::BidibipError;
use crate::options::{find_option, option_index, CommandOption, OptionValue};
use crate::registry::{is_available, name_list, ModuleRegistry};
use crate::text::chars_of;
use crate::time::{display_utc, parse_utc, parsed_utc, utc_display};

verus! {

/// Name of the utilities module.
pub fn module_name() -> (r: &'static str)
    ensures
        r@ == "utilities"@,
{
    "utilities"
}

/// Description of the utilities module.
pub fn module_description() -> (r: &'static str)
    ensures
        r@ == "Utilitaires de modération"@,
{
    "Utilitaires de modération"
}

/// What the utilities module keeps: the switched-off modules and the release date of the running
/// version.
pub struct UtilitiesConfig {
    pub disabled_modules: Vec<String>,
    pub current_version_release_date: Option<String>,
}

/// What the module switch command asks for.
pub enum ModuleSwitch {
    /// Switch the named module on or off.
    Switch { name: String, enabled: bool },
    /// No module carries that name.
    Unknown,
    /// The options are not a text and a boolean.
    Invalid,
}

/// The request of the module switch command: the `module` option (text) and the `activer` option
/// (boolean). A missing option is an error; options of other types are an invalid parameter; a
/// name that no loaded module carries is unknown.
pub open spec fn module_switch_spec<T>(options: Seq<CommandOption>, registry: ModuleRegistry<T>) -> Result<(Option<(Seq<char>, bool)>, bool), Seq<char>> {
    match option_index(options, "module"@) {
        None => Err("missing module option"@),
        Some(m) => match option_index(options, "activer"@) {
            None => Err("missing activer option"@),
            Some(a) => match (options[m].value, options[a].value) {
                (OptionValue::Text(name), OptionValue::Boolean(enabled)) => if is_available(registry, name@) {
                    Ok((Some((name@, enabled)), true))
                } else {
                    Ok((None, true))
                },
                _ => Ok((None, false)),
            },
        },
    }
}

/// Reads the request of the module switch command.
pub fn module_switch<T>(options: &Vec<CommandOption>, registry: &ModuleRegistry<T>) -> (r: Result<ModuleSwitch, BidibipError>)
    ensures
        match module_switch_spec(options@, *registry) {
            Err(e) => r matches Err(x) && x.msg@ == e,
            Ok((Some((name, enabled)), _)) => r matches Ok(ModuleSwitch::Switch { name: n, enabled: b }) && n@ == name && b
                == enabled,
            Ok((None, true)) => r matches Ok(ModuleSwitch::Unknown),
            Ok((None, false)) => r matches Ok(ModuleSwitch::Invalid),
        },
{
    let module = match find_option(options, "module") {
        Some(v) => v,
        None => {
            return Err(BidibipError::msg("missing module option"));
        },
    };
    let enabled = match find_option(options, "activer") {
        Some(v) => v,
        None => {
            return Err(BidibipError::msg("missing activer option"));
        },
    };
    match (module, enabled) {
        (OptionValue::Text(name), OptionValue::Boolean(on)) => {
            if registry.contains(name.as_str()) {
                Ok(ModuleSwitch::Switch { name: name.clone(), enabled: *on })
            } else {
                Ok(ModuleSwitch::Unknown)
            }
        },
        _ => Ok(ModuleSwitch::Invalid),
    }
}

/// The answer to a module switch.
pub open spec fn switch_answer_spec(name: Seq<char>, enabled: bool) -> Seq<char> {
    "Module "@ + name + if enabled {
        " activé"@
    } else {
        " désactivé"@
    }
}

/// The answer to a module switch.
pub fn switch_answer(name: &str, enabled: bool) -> (r: String)
    ensures
        r@ == switch_answer_spec(name@, enabled),
{
    let mut r = String::new();
    r.append("Module ");
    r.append(name);
    if enabled {
        r.append(" activé");
    } else {
        r.append(" désactivé");
    }
    proof {
        reveal_strlit("Module ");
        reveal_strlit(" activé");
        reveal_strlit(" désactivé");
    }
    r
}

impl UtilitiesConfig {
    /// Nothing switched off, no known version.
    pub fn new() -> (r: UtilitiesConfig)
        ensures
            r.disabled_modules@.len() == 0,
            r.current_version_release_date is None,
    {
        UtilitiesConfig { disabled_modules: Vec::new(), current_version_release_date: None }
    }

    /// Remembers that a module is switched on (its name leaves the set) or off (its name joins it).
    pub fn record_module_state(&mut self, name: &str, enabled: bool)
        ensures
            name_list(final(self).disabled_modules@).contains(name@) == !enabled,
            forall|m: Seq<char>| m != name@ ==> #[trigger] name_list(final(self).disabled_modules@).contains(m)
                == name_list(old(self).disabled_modules@).contains(m),
            final(self).current_version_release_date == old(self).current_version_release_date,
    {
        let mut registry: ModuleRegistry<()> = ModuleRegistry { available: Vec::new(), disabled: Vec::new() };
        std::mem::swap(&mut registry.disabled, &mut self.disabled_modules);
        let ghost r1 = registry;
        registry.set_module_enabled(name, enabled);
        let ghost r2 = registry;
        std::mem::swap(&mut registry.disabled, &mut self.disabled_modules);
        assert forall|m: Seq<char>| m != name@ implies #[trigger] name_list(self.disabled_modules@).contains(m)
            == name_list(old(self).disabled_modules@).contains(m) by {
            assert(crate::registry::is_disabled(r2, m) == crate::registry::is_disabled(r1, m));
        }
    }

    /// Remembers the release date of the version being installed, as chrono displays the release
    /// instant (seconds and nanoseconds since the epoch).
    pub fn record_release(&mut self, release: (i64, u32))
        ensures
            match final(self).current_version_release_date {
                Some(s) => utc_display(release.0, release.1) == Some(s@),
                None => utc_display(release.0, release.1) is None,
            },
            final(self).disabled_modules == old(self).disabled_modules,
    {
        self.current_version_release_date = display_utc(release.0, release.1);
    }
}

/// What the update command does once it read the latest release.
pub enum UpdatePlan {
    /// The running version is at least as recent: say so.
    UpToDate,
    /// Download the asset at this position, and remember the release instant (seconds and
    /// nanoseconds since the epoch; `display_utc` writes it).
    Download { asset: usize, release: (i64, u32) },
    /// No asset for this platform: nothing is done.
    NoAsset,
}

/// Whether one UTC instant (seconds, nanoseconds) comes after another.
pub open spec fn later(a: (i64, u32), b: (i64, u32)) -> bool {
    a.0 > b.0 || (a.0 == b.0 && a.1 > b.1)
}

/// The position of the last asset that carries the given name.
pub open spec fn last_asset(names: Seq<Seq<char>>, wanted: Seq<char>) -> Option<int>
    decreases names.len(),
{
    if names.len() == 0 {
        None
    } else if names.last() == wanted {
        Some(names.len() - 1)
    } else {
        last_asset(names.drop_last(), wanted)
    }
}

/// The decision of the update command: update when no version is known, or when the known version
/// is later than the latest release (the comparison the module makes); then download the last
/// asset made for this platform.
pub open spec fn update_plan_spec(
    local: Option<Seq<char>>,
    remote: Seq<char>,
    assets: Seq<Seq<char>>,
    platform_asset: Seq<char>,
) -> Result<Option<Option<int>>, Seq<char>> {
    match parsed_utc(remote) {
        None => Err("Failed to read remote date"@),
        Some(remote_date) => match local {
            None => Ok(Some(last_asset(assets, platform_asset))),
            Some(l) => match parsed_utc(l) {
                None => Err("Failed to read local date"@),
                Some(local_date) => if later(local_date, remote_date) {
                    Ok(Some(last_asset(assets, platform_asset)))
                } else {
                    Ok(None)
                },
            },
        },
    }
}

fn find_last_asset(assets: &Vec<String>, wanted: &str) -> (r: Option<usize>)
    ensures
        match r {
            Some(i) => last_asset(crate::text::strings_view(assets@), wanted@) == Some(i as int),
            None => last_asset(crate::text::strings_view(assets@), wanted@) is None,
        },
{
    let w = chars_of(wanted);
    let mut found: Option<usize> = None;
    let mut i: usize = 0;
    while i < assets.len()
        invariant
            i <= assets@.len(),
            w@ == wanted@,
            match found {
                Some(k) => last_asset(crate::text::strings_view(assets@).take(i as int), wanted@) == Some(k as int),
                None => last_asset(crate::text::strings_view(assets@).take(i as int), wanted@) is None,
            },
        decreases assets@.len() - i,
    {
        let name = chars_of(assets[i].as_str());
        assert(crate::text::strings_view(assets@).take(i + 1).drop_last() =~= crate::text::strings_view(assets@).take(i as int));
        if chars_equal(&name, &w) {
            found = Some(i);
        }
        i = i + 1;
    }
    assert(crate::text::strings_view(assets@).take(i as int) =~= crate::text::strings_view(assets@));
    found
}

/// Decides what the update command does with the latest release: its publication date, the names
/// of its assets, the release date of the running version if known, and the asset name of this
/// platform.
pub fn update_plan(local: Option<&str>, remote: &str, assets: &Vec<String>, platform_asset: &str) -> (r: Result<UpdatePlan, BidibipError>)
    ensures
        match update_plan_spec(
            match local {
                Some(l) => Some(l@),
                None => None,
            },
            remote@,
            crate::text::strings_view(assets@),
            platform_asset@,
        ) {
            Err(e) => r matches Err(x) && x.msg@ == e,
            Ok(None) => r matches Ok(UpdatePlan::UpToDate),
            Ok(Some(None)) => r matches Ok(UpdatePlan::NoAsset),
            Ok(Some(Some(i))) => r matches Ok(UpdatePlan::Download { asset, release }) && asset == i && parsed_utc(remote@)
                == Some(release),
        },
{
    let remote_date = match parse_utc(remote) {
        Some(d) => d,
        None => {
            return Err(BidibipError::msg("Failed to read remote date"));
        },
    };
    let should_update = match local {
        None => true,
        Some(l) => match parse_utc(l) {
            None => {
                return Err(BidibipError::msg("Failed to read local date"));
            },
            Some(local_date) => local_date.0 > remote_date.0 || (local_date.0 == remote_date.0 && local_date.1 > remote_date.1),
        },
    };
    if !should_update {
        return Ok(UpdatePlan::UpToDate);
    }
    match find_last_asset(assets, platform_asset) {
        None => Ok(UpdatePlan::NoAsset),
        Some(i) => Ok(UpdatePlan::Download { asset: i, release: remote_date }),
    }
}

/// The answer when a new version is being installed.
pub open spec fn update_available_spec(release: Seq<char>) -> Seq<char> {
    "Mise à jour de bidibip disponible ("@ + release + "). Redémarrage en cours..."@
}

/// The answer when a new version is being installed.
pub fn update_available(release: &str) -> (r: String)
    ensures
        r@ == update_available_spec(release@),
{
    let mut r = String::new();
    r.append("Mise à jour de bidibip disponible (");
    r.append(release);
    r.append("). Redémarrage en cours...");
    proof {
        reveal_strlit("Mise à jour de bidibip disponible (");
        reveal_strlit("). Redémarrage en cours...");
    }
    r
}

/// The answer when the running version is at least as recent as the latest release.
pub open spec fn up_to_date_spec(release: Seq<char>) -> Seq<char> {
    "La version actuelle de Bidibip est au moins aussi récente que la dernière disponible ("@ + release + ")"@
}

/// The answer when the running version is at least as recent as the latest release.
pub fn up_to_date(release: &str) -> (r: String)
    ensures
        r@ == up_to_date_spec(release@),
{
    let mut r = String::new();
    r.append("La version actuelle de Bidibip est au moins aussi récente que la dernière disponible (");
    r.append(release);
    r.append(")");
    proof {
        reveal_strlit("La version actuelle de Bidibip est au moins aussi récente que la dernière disponible (");
        reveal_strlit(")");
    }
    r
}

} // verus!
