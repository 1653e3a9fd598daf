//! The rules channel: its messages are replaced from a JSON file, and a button grants the member
//! role.
use vstd::prelude::*;
use crate::error::BidibipError;
use crate::text::chars_of;
use crate::custom_id::chars_equal;

verus! {

/// Name of the rules module.
pub fn module_name() -> (r: &'static str)
    ensures
        r@ == "reglement"@,
{
    "reglement"
}

/// Description of the rules module.
pub fn module_description() -> (r: &'static str)
    ensures
        r@ == "Outil de mise à jour automatique du réglement"@,
{
    "Outil de mise à jour automatique du réglement"
}

/// What the rules module keeps: the rules channel.
pub struct ReglementConfig {
    pub reglement_channel: u64,
}

impl ReglementConfig {
    /// Checks the configuration when the module loads: a rules channel must be set.
    pub fn check(&self) -> (r: Result<(), BidibipError>)
        ensures
            self.reglement_channel == 0 <==> r is Err,
            r matches Err(e) ==> e.msg@ == "Invalid reglement channel id"@,
    {
        if self.reglement_channel == 0 {
            Err(BidibipError::msg("Invalid reglement channel id"))
        } else {
            Ok(())
        }
    }

    /// Whether a message replaces the rules: it is posted in the rules channel with an attachment.
    pub fn replaces_rules(&self, channel: u64, attachment_count: usize) -> (r: bool)
        ensures
            r == (channel == self.reglement_channel && attachment_count > 0),
    {
        channel == self.reglement_channel && attachment_count > 0
    }
}

/// The custom id of the button that accepts the rules.
pub fn approval_button_id() -> (r: &'static str)
    ensures
        r@ == "reglement_approval"@,
{
    "reglement_approval"
}

/// Whether a button click accepts the rules (and earns the member role).
pub fn is_approval(custom_id: &str) -> (r: bool)
    ensures
        r == (custom_id@ == "reglement_approval"@),
{
    let a = chars_of(custom_id);
    let b = chars_of(approval_button_id());
    chars_equal(&a, &b)
}

} // verus!
