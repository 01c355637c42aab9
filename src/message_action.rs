//! An action that answers every message with a fixed text.
use vstd::prelude::*;

use crate::action::Action;
use crate::bot::{BotAPI, Message, OutboundView};

verus! {

/// Transport flag attached to every reply; the outbound API gives it its
/// meaning, and it is passed through as it stands.
pub const REPLY_FLAG: u32 = 16;

/// Replies to the triggering message with `template`, verbatim.
pub struct MessageAction {
    pub template: String,
}

impl MessageAction {
    /// The send this action issues for `message`: the template as it
    /// stands, to the message's chat, as a reply to the message itself.
    pub open spec fn reply_for(&self, message: Message) -> OutboundView {
        OutboundView {
            chat_id: message.chat_id,
            text: self.template@,
            reply_to: message.id,
            flag: REPLY_FLAG,
        }
    }
}

impl Action for MessageAction {
    /// Issues exactly one send, `self.reply_for(*message)`, and nothing else.
    /// The script engine is not consulted: no part of the template is
    /// evaluated or substituted.
    fn call(&self, api: &mut BotAPI, message: &Message, _rhai_engine: &rhai::Engine)
        ensures
            final(api)@ == old(api)@.push(self.reply_for(*message)),
            final(api)@.len() == old(api)@.len() + 1,
            final(api)@.last().chat_id == message.chat_id,
            final(api)@.last().text == self.template@,
            final(api)@.last().reply_to == message.id,
            final(api)@.last().flag == 16,
    {
        api.send_message(message.chat_id, self.template.as_str(), message.id, REPLY_FLAG);
    }
}

/// Calling one action twice, on any two messages, queues two independent
/// sends after what was pending: each carries the same unchanged template,
/// and each goes to its own message's chat as a reply to that message.
pub proof fn lemma_repeated_calls(
    action: MessageAction,
    pending: Seq<OutboundView>,
    first: Message,
    second: Message,
)
    ensures
        ({
            let after = pending.push(action.reply_for(first)).push(action.reply_for(second));
            &&& after.len() == pending.len() + 2
            &&& after.subrange(0, pending.len() as int) == pending
            &&& after[pending.len() as int].text == action.template@
            &&& after[pending.len() as int + 1].text == action.template@
            &&& after[pending.len() as int].chat_id == first.chat_id
            &&& after[pending.len() as int].reply_to == first.id
            &&& after[pending.len() as int + 1].chat_id == second.chat_id
            &&& after[pending.len() as int + 1].reply_to == second.id
            &&& after[pending.len() as int].flag == REPLY_FLAG
            &&& after[pending.len() as int + 1].flag == REPLY_FLAG
        }),
{
    let after = pending.push(action.reply_for(first)).push(action.reply_for(second));
    assert(after.subrange(0, pending.len() as int) =~= pending);
}

} // verus!
