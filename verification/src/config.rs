//! The bot's configuration: its defaults, its checks, and where each module keeps its own.
use vstd::prelude::*;

verus! {

/// The channels the bot writes to.
#[derive(Clone, Copy, PartialEq, Eq, Structural, Debug)]
pub struct Channels {
    pub log_channel: u64,
    pub staff_channel: u64,
}

/// The roles the bot knows.
#[derive(Clone, Copy, PartialEq, Eq, Structural, Debug)]
pub struct Roles {
    pub support: u64,
    pub member: u64,
    pub helper: u64,
    pub administrator: u64,
    pub mute: u64,
}

/// The bot's configuration.
pub struct Config {
    pub token: String,
    pub server_id: u64,
    pub application_id: u64,
    pub log_directory: String,
    pub button_id_config: String,
    pub module_config_directory: String,
    pub disabled_modules: Vec<String>,
    pub channels: Channels,
    pub roles: Roles,
    pub cache_message_size: usize,
}

impl Config {
    /// The configuration written when none exists: a token to fill in, unset ids, default paths,
    /// and a cache of 10000 messages.
    pub fn default_config() -> (r: Config)
        ensures
            r.token@ == "PLEASE FILL APP TOKEN FIRST"@,
            r.server_id == 0 && r.application_id == 0,
            r.log_directory@ == "saved/logs"@,
            r.button_id_config@ == "button/buttons.json"@,
            r.module_config_directory@ == "saved/config"@,
            r.disabled_modules@.len() == 0,
            r.channels == (Channels { log_channel: 0, staff_channel: 0 }),
            r.roles == (Roles { support: 0, member: 0, helper: 0, administrator: 0, mute: 0 }),
            r.cache_message_size == 10000,
    {
        Config {
            token: "PLEASE FILL APP TOKEN FIRST".to_owned(),
            server_id: 0,
            application_id: 0,
            log_directory: "saved/logs".to_owned(),
            button_id_config: "button/buttons.json".to_owned(),
            module_config_directory: "saved/config".to_owned(),
            disabled_modules: Vec::new(),
            channels: Channels { log_channel: 0, staff_channel: 0 },
            roles: Roles { support: 0, member: 0, helper: 0, administrator: 0, mute: 0 },
            cache_message_size: 10000,
        }
    }

    /// The first id left unset in a loaded configuration, by the message the bot stops with; the
    /// ids are checked in the order application, server, support, member, helper, administrator,
    /// mute, staff channel, log channel.
    pub open spec fn first_invalid_id_spec(&self) -> Option<Seq<char>> {
        if self.application_id == 0 {
            Some("Invalid application id in config"@)
        } else if self.server_id == 0 {
            Some("Invalid server id in config"@)
        } else if self.roles.support == 0 {
            Some("Invalid helper role id in config"@)
        } else if self.roles.member == 0 {
            Some("Invalid member role id in config"@)
        } else if self.roles.helper == 0 {
            Some("Invalid helper role id in config"@)
        } else if self.roles.administrator == 0 {
            Some("Invalid administrator role id in config"@)
        } else if self.roles.mute == 0 {
            Some("Invalid helper role id in config"@)
        } else if self.channels.staff_channel == 0 {
            Some("Invalid staff channel id in config"@)
        } else if self.channels.log_channel == 0 {
            Some("Invalid staff channel id in config"@)
        } else {
            None
        }
    }

    /// The message the bot stops with when an id of a loaded configuration is unset.
    pub fn first_invalid_id(&self) -> (r: Option<&'static str>)
        ensures
            match r {
                Some(m) => self.first_invalid_id_spec() == Some(m@),
                None => self.first_invalid_id_spec() is None,
            },
    {
        if self.application_id == 0 {
            Some("Invalid application id in config")
        } else if self.server_id == 0 {
            Some("Invalid server id in config")
        } else if self.roles.support == 0 {
            Some("Invalid helper role id in config")
        } else if self.roles.member == 0 {
            Some("Invalid member role id in config")
        } else if self.roles.helper == 0 {
            Some("Invalid helper role id in config")
        } else if self.roles.administrator == 0 {
            Some("Invalid administrator role id in config")
        } else if self.roles.mute == 0 {
            Some("Invalid helper role id in config")
        } else if self.channels.staff_channel == 0 {
            Some("Invalid staff channel id in config")
        } else if self.channels.log_channel == 0 {
            Some("Invalid staff channel id in config")
        } else {
            None
        }
    }
}

/// The file a module keeps its configuration in, within the modules' directory.
pub open spec fn module_config_file_spec(module: Seq<char>) -> Seq<char> {
    module + "_config.json"@
}

/// The file a module keeps its configuration in, within the modules' directory.
pub fn module_config_file(module: &str) -> (r: String)
    ensures
        r@ == module_config_file_spec(module@),
{
    let mut r = String::new();
    r.append(module);
    r.append("_config.json");
    proof {
        reveal_strlit("_config.json");
    }
    r
}

/// The file the button ids are kept in, beside the configuration file.
pub fn buttons_file_name() -> (r: &'static str)
    ensures
        r@ == "buttons.json"@,
{
    "buttons.json"
}

/// The message given after writing a fresh configuration file at a path.
pub open spec fn new_config_message_spec(path: Seq<char>) -> Seq<char> {
    "Created a new config file at "@ + path + ". Please fill in information first"@
}

/// The message given after writing a fresh configuration file at a path.
pub fn new_config_message(path: &str) -> (r: String)
    ensures
        r@ == new_config_message_spec(path@),
{
    let mut r = String::new();
    r.append("Created a new config file at ");
    r.append(path);
    r.append(". Please fill in information first");
    proof {
        reveal_strlit("Created a new config file at ");
        reveal_strlit(". Please fill in information first");
    }
    r
}

} // verus!
