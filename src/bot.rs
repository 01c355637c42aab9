//! Inbound messages and the outbound-send handle.
use vstd::prelude::*;

verus! {

/// One inbound chat message, as the dispatcher hands it to an action.
#[derive(Clone, Copy, Debug, PartialEq, Eq, Structural)]
pub struct Message {
    /// The chat the message was posted in.
    pub chat_id: i64,
    /// The message's own identifier within that chat.
    pub id: i64,
}

/// Abstract value of one outbound send.
pub struct OutboundView {
    pub chat_id: i64,
    pub text: Seq<char>,
    pub reply_to: i64,
    pub flag: u32,
}

/// One outbound send: a text for a chat, as a reply to one of its messages.
#[derive(Clone, Debug)]
pub struct OutboundMessage {
    /// Destination chat.
    pub chat_id: i64,
    /// Body, sent as it stands.
    pub text: String,
    /// The message this one replies to.
    pub reply_to: i64,
    /// Transport-specific flag, passed through unchanged.
    pub flag: u32,
}

impl View for OutboundMessage {
    type V = OutboundView;

    open spec fn view(&self) -> OutboundView {
        OutboundView {
            chat_id: self.chat_id,
            text: self.text@,
            reply_to: self.reply_to,
            flag: self.flag,
        }
    }
}

/// How the transport fared with one send.
#[derive(Clone, Copy, Debug, PartialEq, Eq, Structural)]
pub enum SendOutcome {
    Delivered,
    Failed,
}

/// Handle to the bot's outbound API: the sends that actions have issued and
/// that the transport has not yet settled, oldest first.
pub struct BotAPI {
    pending: Vec<OutboundMessage>,
}

impl View for BotAPI {
    type V = Seq<OutboundView>;

    closed spec fn view(&self) -> Seq<OutboundView> {
        self.pending@.map_values(|m: OutboundMessage| m@)
    }
}

impl BotAPI {
    /// A handle with no pending sends.
    pub fn new() -> (r: BotAPI)
        ensures
            r@ == Seq::<OutboundView>::empty(),
    {
        let r = BotAPI { pending: Vec::new() };
        assert(r@ =~= Seq::<OutboundView>::empty());
        r
    }

    /// Issues one send of `text` to `chat_id`, replying to `reply_to`.
    pub fn send_message(&mut self, chat_id: i64, text: &str, reply_to: i64, flag: u32)
        ensures
            final(self)@ == old(self)@.push(
                OutboundView { chat_id: chat_id, text: text@, reply_to: reply_to, flag: flag },
            ),
    {
        let m = OutboundMessage { chat_id, text: text.to_string(), reply_to, flag };
        self.pending.push(m);
        assert(self@ =~= old(self)@.push(m@));
    }

    /// Number of pending sends.
    pub fn len(&self) -> (r: usize)
        ensures
            r == self@.len(),
    {
        self.pending.len()
    }

    /// The oldest pending send, if any: the one the transport performs next.
    pub fn next_send(&self) -> (r: Option<&OutboundMessage>)
        ensures
            self@.len() == 0 ==> r.is_none(),
            self@.len() > 0 ==> r.is_some() && r.unwrap()@ == self@[0],
    {
        if self.pending.len() == 0 {
            None
        } else {
            Some(&self.pending[0])
        }
    }

    /// Settles the oldest pending send with the transport's outcome.
    ///
    /// The send leaves the queue whatever the outcome: a failure is
    /// dropped, never retried and never reported to the action that issued
    /// it. With nothing pending the handle stays as it is.
    pub fn complete(&mut self, outcome: SendOutcome)
        ensures
            old(self)@.len() > 0 ==> final(self)@ == old(self)@.drop_first(),
            old(self)@.len() == 0 ==> final(self)@ == old(self)@,
    {
        if self.pending.len() > 0 {
            let _settled = self.pending.remove(0);
            assert(self@ =~= old(self)@.drop_first());
        }
    }
}

} // verus!
