//! Verified core of the Bidibip Discord moderation bot.
pub mod text;
pub mod custom_id;
pub mod button_id;
pub mod discord;
pub mod anti_spam;
pub mod username;
pub mod options;
pub mod error;
pub mod repost;
pub mod time;
pub mod warn;
pub mod permissions;
pub mod registry;
pub mod ad_form;
pub mod ad_steps;
pub mod advertising;
pub mod history;
pub mod utilities;
pub mod json_message;
pub mod welcome;
pub mod user_count;
pub mod say;
pub mod log;
pub mod modo;
pub mod reglement;
pub mod help;
pub mod logger;
pub mod config;
pub mod command;
pub mod migration;
