//! The capability "react to a message".
use vstd::prelude::*;

use crate::bot::{BotAPI, Message};

verus! {

/// Declares rhai::Engine, the embedded script engine, so that it can be
/// handed through every action call. Nothing inside it is read here.
#[verifier::external_type_specification]
#[verifier::external_body]
pub struct ExEngine(rhai::Engine);

/// A unit of reactive behaviour, invoked once for each message it matches.
///
/// The handles are borrowed for the call alone. Whatever the action sends
/// goes through `api`; the call itself returns nothing and cannot fail.
pub trait Action {
    fn call(&self, api: &mut BotAPI, message: &Message, rhai_engine: &rhai::Engine);
}

} // verus!
