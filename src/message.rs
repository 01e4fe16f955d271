//! The instruction that travels with an incoming token transfer.

use vstd::prelude::*;

verus! {

/// The message attached to a transfer: which action the vault should take.
pub struct MsgInput {
    pub action_to_execute: String,
}

/// The actions that the vault recognizes.
#[derive(PartialEq, Eq, Structural, Clone, Copy, Debug)]
pub enum Directive {
    /// Add the transferred tokens to the vault.
    IncreaseDeposit,
    /// Anything else: the vault takes no action and returns the tokens.
    Unrecognized,
}

/// The tag of the one action that the vault recognizes.
pub open spec fn increase_deposit_tag() -> Seq<char> {
    "increase_deposit"@
}

/// The directive that an action name stands for.
pub open spec fn directive_of(action: Seq<char>) -> Directive {
    if action == increase_deposit_tag() {
        Directive::IncreaseDeposit
    } else {
        Directive::Unrecognized
    }
}

impl MsgInput {
    /// The directive that this message carries.
    pub fn directive(&self) -> (r: Directive)
        ensures
            r == directive_of(self.action_to_execute@),
    {
        let tag: String = "increase_deposit".to_owned();
        if self.action_to_execute == tag {
            Directive::IncreaseDeposit
        } else {
            Directive::Unrecognized
        }
    }
}

} // verus!
