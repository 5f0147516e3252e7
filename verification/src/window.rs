//! Consumer-side chat state: what the applet window keeps between broker
//! events, and how each event changes it.
//!
//! The widgets, the clipboard and the event loop live with the caller;
//! here is the pure part of the window's update step — the running answer
//! a generate stream accumulates, the context tokens kept for the next
//! turn, and the status line of a pull or remove.

use vstd::prelude::*;

use crate::broker::{Event, EventView};
use crate::chat::{Conversation, MessageContent, Text};
use crate::wire::context_view;

verus! {

/// Which page the window shows.
#[derive(Debug, Clone)]
pub enum Pages {
    Chat,
    Settings,
}

/// Which request the window will send once the broker hands it the
/// request channel with its `Ready` event.
#[derive(Debug, Clone)]
pub enum StreamingRequest {
    Idle,
    Ask,
    AskWithContext,
    PullModel,
    RemoveModel,
}

/// Copies a token vector.
fn copy_u64_vec(v: &Vec<u64>) -> (r: Vec<u64>)
    ensures
        r@ == v@,
{
    let mut r: Vec<u64> = Vec::new();
    let n = v.len();
    let mut i: usize = 0;
    while i < n
        invariant
            n == v@.len(),
            i <= n,
            r@ == v@.subrange(0, i as int),
        decreases n - i,
    {
        r.push(v[i]);
        assert(r@ =~= v@.subrange(0, i + 1 as int));
        i = i + 1;
    }
    assert(r@ =~= v@);
    r
}

/// The chat-relevant state of the window.
pub struct ChatState {
    pub conversation: Conversation,
    pub bot_response: String,
    pub context: Option<Vec<u64>>,
    pub images: Vec<String>,
    pub request: StreamingRequest,
    pub status_area_status: String,
}

impl ChatState {
    /// A fresh window state: empty conversation, no running answer, no
    /// context, nothing pending.
    pub fn new() -> (s: ChatState)
        ensures
            s.conversation.messages@ == Seq::<Text>::empty(),
            s.bot_response@ == Seq::<char>::empty(),
            s.context is None,
            s.images@ == Seq::<String>::empty(),
            s.request is Idle,
            s.status_area_status@ == Seq::<char>::empty(),
    {
        ChatState {
            conversation: Conversation::new(),
            bot_response: String::new(),
            context: None,
            images: Vec::new(),
            request: StreamingRequest::Idle,
            status_area_status: String::new(),
        }
    }

    /// Records the user's prompt going off: it joins the conversation as
    /// a user message, and the pending request kind follows the
    /// keep-context setting, as the window's send action does.
    pub fn send_prompt(&mut self, prompt: String, keep_context: bool)
        ensures
            final(self).conversation.messages@.len() == old(self).conversation.messages@.len()
                + 1,
            final(self).conversation.messages@ == old(self).conversation.messages@.push(
                final(self).conversation.messages@.last(),
            ),
            (final(self).conversation.messages@.last() matches Text::User(c)
                && c matches MessageContent::Text(t) && t@ == prompt@),
            keep_context ==> final(self).request is AskWithContext,
            !keep_context ==> final(self).request is Ask,
            final(self).bot_response == old(self).bot_response,
            final(self).context == old(self).context,
            final(self).images == old(self).images,
            final(self).status_area_status == old(self).status_area_status,
    {
        self.conversation.push(Text::User(MessageContent::Text(prompt)));
        self.request = if keep_context {
            StreamingRequest::AskWithContext
        } else {
            StreamingRequest::Ask
        };
    }

    /// Applies one broker event: a `Response` appends its text to the
    /// running answer and keeps its context tokens; `Done` turns the
    /// finished answer into a conversation message and clears the slate;
    /// pull and remove events drive the status line.  `Ready` changes
    /// nothing here — it is the caller's cue to send the pending request.
    pub fn apply_event(&mut self, ev: &Event)
        ensures
            match ev@ {
                EventView::Ready => *final(self) == *old(self),
                EventView::Response(g) => {
                    &&& final(self).bot_response@ == old(self).bot_response@ + g.response
                    &&& context_view(&final(self).context) == g.context
                    &&& final(self).conversation == old(self).conversation
                    &&& final(self).images == old(self).images
                    &&& final(self).request == old(self).request
                    &&& final(self).status_area_status == old(self).status_area_status
                },
                EventView::Done => {
                    &&& final(self).conversation.messages@.len() == old(
                        self,
                    ).conversation.messages@.len() + 1
                    &&& final(self).conversation.messages@ == old(
                        self,
                    ).conversation.messages@.push(final(self).conversation.messages@.last())
                    &&& (final(self).conversation.messages@.last() matches Text::Bot(c)
                        && c matches MessageContent::Text(t) && t@ == old(self).bot_response@)
                    &&& final(self).bot_response@ == Seq::<char>::empty()
                    &&& final(self).images@ == Seq::<String>::empty()
                    &&& final(self).request is Idle
                    &&& final(self).context == old(self).context
                    &&& final(self).status_area_status == old(self).status_area_status
                },
                EventView::PullResponse(g) => {
                    &&& final(self).status_area_status@ == g.status
                    &&& final(self).conversation == old(self).conversation
                    &&& final(self).bot_response == old(self).bot_response
                    &&& final(self).context == old(self).context
                    &&& final(self).images == old(self).images
                    &&& final(self).request == old(self).request
                },
                EventView::PullDone => {
                    &&& final(self).status_area_status@ == Seq::<char>::empty()
                    &&& final(self).conversation == old(self).conversation
                    &&& final(self).bot_response == old(self).bot_response
                    &&& final(self).context == old(self).context
                    &&& final(self).images == old(self).images
                    &&& final(self).request == old(self).request
                },
                EventView::RemoveStatus(m) => {
                    &&& final(self).status_area_status@ == m
                    &&& final(self).conversation == old(self).conversation
                    &&& final(self).bot_response == old(self).bot_response
                    &&& final(self).context == old(self).context
                    &&& final(self).images == old(self).images
                    &&& final(self).request == old(self).request
                },
                EventView::RemovedModel => {
                    &&& final(self).status_area_status@ == Seq::<char>::empty()
                    &&& final(self).conversation == old(self).conversation
                    &&& final(self).bot_response == old(self).bot_response
                    &&& final(self).context == old(self).context
                    &&& final(self).images == old(self).images
                    &&& final(self).request == old(self).request
                },
            },
    {
        match ev {
            Event::Ready => {},
            Event::Response(b) => {
                self.bot_response.append(b.response.as_str());
                self.context = match &b.context {
                    Some(v) => Some(copy_u64_vec(v)),
                    None => None,
                };
            },
            Event::Done => {
                let answer = self.bot_response.clone();
                self.conversation.push(Text::Bot(MessageContent::Text(answer)));
                self.bot_response = String::new();
                self.images = Vec::new();
                self.request = StreamingRequest::Idle;
            },
            Event::PullResponse(st) => {
                self.status_area_status = st.status.clone();
            },
            Event::PullDone => {
                self.status_area_status = String::new();
            },
            Event::RemoveStatus(m) => {
                self.status_area_status = m.clone();
            },
            Event::RemovedModel => {
                self.status_area_status = String::new();
            },
        }
    }
}

} // verus!
