//! The streaming request broker: requests in, events out.
//!
//! A [`Dispatcher`] owns one slot per streaming kind (generate, pull) and
//! turns each incoming [`Request`] into at most one wire action.  A slot,
//! once taken, is never freed by the broker itself — a dispatcher instance
//! stays busy until it is torn down and replaced, which is the caller's
//! only cancellation mechanism.  The listener functions turn the chunk
//! lines of one stream into the exact event sequence a consumer sees.

use vstd::prelude::*;

use crate::chunk::{
    decode_generate_chunk, decode_pull_chunk, sp_gen_chunk, sp_pull_chunk, BotResponse,
    GenChunkView, PullChunkView, PullModelResponse,
};
use crate::wire::{build_generate_body, build_name_body, generate_body_view, name_body_view};

verus! {

/// Ghost mirror of [`Event`].
pub ghost enum EventView {
    Ready,
    Response(GenChunkView),
    PullResponse(PullChunkView),
    PullDone,
    RemoveStatus(Seq<char>),
    RemovedModel,
    Done,
}

/// One event of the broker, as a consumer receives it.  `Ready` is emitted
/// exactly once per dispatcher instance, before anything else; in the
/// running system it carries the sending half of the request channel.
#[derive(Debug, Clone)]
pub enum Event {
    Ready,
    Response(BotResponse),
    PullResponse(PullModelResponse),
    PullDone,
    RemoveStatus(String),
    RemovedModel,
    Done,
}

impl View for Event {
    type V = EventView;

    open spec fn view(&self) -> EventView {
        match self {
            Event::Ready => EventView::Ready,
            Event::Response(b) => EventView::Response(b@),
            Event::PullResponse(p) => EventView::PullResponse(p@),
            Event::PullDone => EventView::PullDone,
            Event::RemoveStatus(m) => EventView::RemoveStatus(m@),
            Event::RemovedModel => EventView::RemovedModel,
            Event::Done => EventView::Done,
        }
    }
}

impl DeepView for Event {
    type V = EventView;

    open spec fn deep_view(&self) -> EventView {
        self.view()
    }
}

/// Ghost mirror of [`Request`].
pub ghost enum RequestView {
    Ask(Seq<char>, Seq<char>, Seq<Seq<char>>, Seq<char>),
    AskWithContext(Seq<char>, Seq<char>, Seq<Seq<char>>, Option<Seq<u64>>, Seq<char>),
    PullModel(Seq<char>),
    RemoveModel(Seq<char>),
}

/// One typed intent a consumer sends the broker: ask (model, prompt,
/// attached images, keep-alive), ask carrying the previous turn's context
/// tokens, pull a model, or remove one.  The keep-alive time rides along
/// with an ask but does not enter the wire format this server speaks.
#[derive(Debug)]
pub enum Request {
    Ask((String, String, Vec<String>, String)),
    AskWithContext((String, String, Vec<String>, Option<Vec<u64>>, String)),
    PullModel(String),
    RemoveModel(String),
}

impl View for Request {
    type V = RequestView;

    open spec fn view(&self) -> RequestView {
        match self {
            Request::Ask(t) => RequestView::Ask(t.0@, t.1@, t.2.deep_view(), t.3@),
            Request::AskWithContext(t) => RequestView::AskWithContext(
                t.0@,
                t.1@,
                t.2.deep_view(),
                match t.3 {
                    Some(c) => Some(c@),
                    None => None,
                },
                t.4@,
            ),
            Request::PullModel(m) => RequestView::PullModel(m@),
            Request::RemoveModel(m) => RequestView::RemoveModel(m@),
        }
    }
}

/// Ghost mirror of [`DispatchAction`].
pub ghost enum ActionView {
    StartGenerate(Seq<char>),
    StartPull(Seq<char>),
    DoRemove(Seq<char>),
    Ignore,
}

/// What the dispatcher decides for one request: open a generate stream
/// with this request body, open a pull stream, perform a remove call, or
/// do nothing at all.
#[derive(Debug, Clone)]
pub enum DispatchAction {
    StartGenerate(String),
    StartPull(String),
    DoRemove(String),
    Ignore,
}

impl View for DispatchAction {
    type V = ActionView;

    open spec fn view(&self) -> ActionView {
        match self {
            DispatchAction::StartGenerate(b) => ActionView::StartGenerate(b@),
            DispatchAction::StartPull(b) => ActionView::StartPull(b@),
            DispatchAction::DoRemove(b) => ActionView::DoRemove(b@),
            DispatchAction::Ignore => ActionView::Ignore,
        }
    }
}

/// The broker's only mutable state: whether a generate stream and whether
/// a pull stream is currently active.
pub struct Dispatcher {
    pub generate_busy: bool,
    pub pull_busy: bool,
}

/// The action [`Dispatcher::step`] decides for a request: a busy slot
/// swallows a same-kind request whole; a free slot yields the wire call
/// with the exact request body; a remove is always performed.  An `Ask`
/// carries no context; an `AskWithContext` passes its context tokens into
/// the body untouched.
pub open spec fn step_action(d: Dispatcher, req: RequestView) -> ActionView {
    match req {
        RequestView::Ask(model, prompt, images, _keep_alive) => {
            if d.generate_busy {
                ActionView::Ignore
            } else {
                ActionView::StartGenerate(generate_body_view(model, prompt, images, None))
            }
        },
        RequestView::AskWithContext(model, prompt, images, context, _keep_alive) => {
            if d.generate_busy {
                ActionView::Ignore
            } else {
                ActionView::StartGenerate(generate_body_view(model, prompt, images, context))
            }
        },
        RequestView::PullModel(model) => {
            if d.pull_busy {
                ActionView::Ignore
            } else {
                ActionView::StartPull(name_body_view(model))
            }
        },
        RequestView::RemoveModel(model) => ActionView::DoRemove(name_body_view(model)),
    }
}

impl Dispatcher {
    /// A fresh dispatcher: both slots free, and the one `Ready` event that
    /// must reach the consumer before any other.
    pub fn new() -> (r: (Dispatcher, Event))
        ensures
            !r.0.generate_busy,
            !r.0.pull_busy,
            r.1@ == EventView::Ready,
    {
        (Dispatcher { generate_busy: false, pull_busy: false }, Event::Ready)
    }

    /// Decides what to do for one request.  The state is not touched: a
    /// slot is taken only once the wire call actually opened, which the
    /// caller reports through [`Dispatcher::note_generate_started`] or
    /// [`Dispatcher::note_pull_started`] — a failed connection leaves the
    /// slot free and produces no event.
    pub fn step(&mut self, req: &Request) -> (a: DispatchAction)
        ensures
            *final(self) == *old(self),
            a@ == step_action(*old(self), req@),
    {
        match req {
            Request::Ask(t) => {
                if self.generate_busy {
                    DispatchAction::Ignore
                } else {
                    DispatchAction::StartGenerate(build_generate_body(&t.0, &t.1, &t.2, &None))
                }
            },
            Request::AskWithContext(t) => {
                if self.generate_busy {
                    DispatchAction::Ignore
                } else {
                    DispatchAction::StartGenerate(build_generate_body(&t.0, &t.1, &t.2, &t.3))
                }
            },
            Request::PullModel(m) => {
                if self.pull_busy {
                    DispatchAction::Ignore
                } else {
                    DispatchAction::StartPull(build_name_body(m))
                }
            },
            Request::RemoveModel(m) => DispatchAction::DoRemove(build_name_body(m)),
        }
    }

    /// Records that a generate stream opened; the slot stays taken for the
    /// dispatcher's whole remaining life.
    pub fn note_generate_started(&mut self)
        ensures
            final(self).generate_busy,
            final(self).pull_busy == old(self).pull_busy,
    {
        self.generate_busy = true;
    }

    /// Records that a pull stream opened.
    pub fn note_pull_started(&mut self)
        ensures
            final(self).pull_busy,
            final(self).generate_busy == old(self).generate_busy,
    {
        self.pull_busy = true;
    }
}

/// The status message a remove outcome turns into.
pub open spec fn remove_status_message(success: bool) -> Seq<char> {
    if success {
        "Removed successfully"@
    } else {
        "Can't remove model"@
    }
}

/// The two events any remove outcome produces, in order.
pub open spec fn remove_events_view(success: bool) -> Seq<EventView> {
    seq![EventView::RemoveStatus(remove_status_message(success)), EventView::RemovedModel]
}

/// Turns the outcome of a remove call (did the server answer with a
/// success status?) into the events for the consumer: one status message
/// and one `RemovedModel`, always both, in that order.
pub fn remove_events(success: bool) -> (evs: Vec<Event>)
    ensures
        evs.deep_view() == remove_events_view(success),
{
    let mut evs: Vec<Event> = Vec::new();
    if success {
        evs.push(Event::RemoveStatus(String::from_str("Removed successfully")));
    } else {
        evs.push(Event::RemoveStatus(String::from_str("Can't remove model")));
    }
    evs.push(Event::RemovedModel);
    assert(evs.deep_view() =~= remove_events_view(success));
    evs
}

/// The events a generate listener emits for a whole chunk sequence: one
/// `Response` per line that decodes, nothing for a line that does not, and
/// a single `Done` at the end.
pub open spec fn gen_events(chunks: Seq<Seq<char>>) -> Seq<EventView>
    decreases chunks.len(),
{
    if chunks.len() == 0 {
        seq![EventView::Done]
    } else {
        (match sp_gen_chunk(chunks[0]) {
            Some(g) => seq![EventView::Response(g)],
            None => Seq::empty(),
        }) + gen_events(chunks.drop_first())
    }
}

/// The events a pull listener emits, ending in a single `PullDone`.
pub open spec fn pull_events(chunks: Seq<Seq<char>>) -> Seq<EventView>
    decreases chunks.len(),
{
    if chunks.len() == 0 {
        seq![EventView::PullDone]
    } else {
        (match sp_pull_chunk(chunks[0]) {
            Some(g) => seq![EventView::PullResponse(g)],
            None => Seq::empty(),
        }) + pull_events(chunks.drop_first())
    }
}

/// Decodes a full generate stream into its events.
pub fn listener_events_generate(chunks: &Vec<String>) -> (evs: Vec<Event>)
    ensures
        evs.deep_view() == gen_events(chunks.deep_view()),
{
    let mut evs: Vec<Event> = Vec::new();
    let n = chunks.len();
    let mut i: usize = 0;
    proof {
        assert(chunks.deep_view().skip(0) =~= chunks.deep_view());
        assert(evs.deep_view() + gen_events(chunks.deep_view().skip(0)) =~= gen_events(
            chunks.deep_view(),
        ));
    }
    while i < n
        invariant
            n == chunks@.len(),
            i <= n,
            chunks.deep_view().len() == n,
            forall|j: int| 0 <= j < n ==> chunks.deep_view()[j] == chunks@[j]@,
            evs.deep_view() + gen_events(chunks.deep_view().skip(i as int)) == gen_events(
                chunks.deep_view(),
            ),
        decreases n - i,
    {
        let ghost suffix = chunks.deep_view().skip(i as int);
        proof {
            assert(suffix.len() == n - i);
            assert(suffix[0] == chunks.deep_view()[i as int]);
            assert(suffix.drop_first() =~= chunks.deep_view().skip(i + 1 as int));
        }
        match decode_generate_chunk(chunks[i].as_str()) {
            Some(b) => {
                evs.push(Event::Response(b));
            },
            None => {},
        }
        assert(evs.deep_view() + gen_events(chunks.deep_view().skip(i + 1 as int)) =~= gen_events(
            chunks.deep_view(),
        ));
        i = i + 1;
    }
    proof {
        assert(chunks.deep_view().skip(n as int) =~= Seq::<Seq<char>>::empty());
    }
    evs.push(Event::Done);
    assert(evs.deep_view() =~= gen_events(chunks.deep_view()));
    evs
}

/// Decodes a full pull stream into its events.
pub fn listener_events_pull(chunks: &Vec<String>) -> (evs: Vec<Event>)
    ensures
        evs.deep_view() == pull_events(chunks.deep_view()),
{
    let mut evs: Vec<Event> = Vec::new();
    let n = chunks.len();
    let mut i: usize = 0;
    proof {
        assert(chunks.deep_view().skip(0) =~= chunks.deep_view());
        assert(evs.deep_view() + pull_events(chunks.deep_view().skip(0)) =~= pull_events(
            chunks.deep_view(),
        ));
    }
    while i < n
        invariant
            n == chunks@.len(),
            i <= n,
            chunks.deep_view().len() == n,
            forall|j: int| 0 <= j < n ==> chunks.deep_view()[j] == chunks@[j]@,
            evs.deep_view() + pull_events(chunks.deep_view().skip(i as int)) == pull_events(
                chunks.deep_view(),
            ),
        decreases n - i,
    {
        let ghost suffix = chunks.deep_view().skip(i as int);
        proof {
            assert(suffix.len() == n - i);
            assert(suffix[0] == chunks.deep_view()[i as int]);
            assert(suffix.drop_first() =~= chunks.deep_view().skip(i + 1 as int));
        }
        match decode_pull_chunk(chunks[i].as_str()) {
            Some(b) => {
                evs.push(Event::PullResponse(b));
            },
            None => {},
        }
        assert(evs.deep_view() + pull_events(chunks.deep_view().skip(i + 1 as int)) =~= pull_events(
            chunks.deep_view(),
        ));
        i = i + 1;
    }
    proof {
        assert(chunks.deep_view().skip(n as int) =~= Seq::<Seq<char>>::empty());
    }
    evs.push(Event::PullDone);
    assert(evs.deep_view() =~= pull_events(chunks.deep_view()));
    evs
}

/// The concatenated `response` texts of a sequence of events, in order.
pub open spec fn responses_text(evs: Seq<EventView>) -> Seq<char>
    decreases evs.len(),
{
    if evs.len() == 0 {
        Seq::empty()
    } else {
        (match evs[0] {
            EventView::Response(g) => g.response,
            _ => Seq::empty(),
        }) + responses_text(evs.drop_first())
    }
}

/// [`responses_text`] distributes over concatenation.
pub proof fn lemma_responses_text_concat(a: Seq<EventView>, b: Seq<EventView>)
    ensures
        responses_text(a + b) == responses_text(a) + responses_text(b),
    decreases a.len(),
{
    if a.len() == 0 {
        assert(a + b =~= b);
        assert(responses_text(a) + responses_text(b) =~= responses_text(b));
    } else {
        assert((a + b).drop_first() =~= a.drop_first() + b);
        lemma_responses_text_concat(a.drop_first(), b);
        assert((a + b)[0] == a[0]);
        assert(responses_text(a + b) =~= responses_text(a) + responses_text(b));
    }
}

/// The full model answer carried by a chunk sequence: the `response`
/// pieces of every line that decodes, concatenated in stream order.
pub open spec fn full_answer(chunks: Seq<Seq<char>>) -> Seq<char>
    decreases chunks.len(),
{
    if chunks.len() == 0 {
        Seq::empty()
    } else {
        (match sp_gen_chunk(chunks[0]) {
            Some(g) => g.response,
            None => Seq::empty(),
        }) + full_answer(chunks.drop_first())
    }
}

/// For any generate stream: concatenating the `response` fields of the
/// emitted `Response` events, in emission order, reconstructs the full
/// model answer; every emitted event but the last is a `Response`, and the
/// last is the single `Done`.
pub proof fn lemma_generate_stream_reconstruction(chunks: Seq<Seq<char>>)
    ensures
        responses_text(gen_events(chunks)) == full_answer(chunks),
        gen_events(chunks).len() >= 1,
        gen_events(chunks).last() == EventView::Done,
        forall|k: int|
            0 <= k < gen_events(chunks).len() - 1 ==> gen_events(chunks)[k] is Response,
    decreases chunks.len(),
{
    if chunks.len() == 0 {
        assert(gen_events(chunks) =~= seq![EventView::Done]);
        assert(responses_text(gen_events(chunks)) =~= full_answer(chunks)) by {
            reveal_with_fuel(responses_text, 2);
            assert(seq![EventView::Done].drop_first() =~= Seq::<EventView>::empty());
        }
    } else {
        lemma_generate_stream_reconstruction(chunks.drop_first());
        let e0 = match sp_gen_chunk(chunks[0]) {
            Some(g) => seq![EventView::Response(g)],
            None => Seq::<EventView>::empty(),
        };
        let tail = gen_events(chunks.drop_first());
        assert(gen_events(chunks) == e0 + tail);
        lemma_responses_text_concat(e0, tail);
        assert(responses_text(e0) =~= (match sp_gen_chunk(chunks[0]) {
            Some(g) => g.response,
            None => Seq::<char>::empty(),
        })) by {
            reveal_with_fuel(responses_text, 2);
            if sp_gen_chunk(chunks[0]) is Some {
                assert(e0.drop_first() =~= Seq::<EventView>::empty());
            }
        }
        assert((e0 + tail).last() == tail.last());
        assert forall|k: int| 0 <= k < (e0 + tail).len() - 1 implies (e0 + tail)[k] is Response by {
            if k < e0.len() {
                assert((e0 + tail)[k] == e0[k]);
            } else {
                assert((e0 + tail)[k] == tail[k - e0.len()]);
            }
        }
    }
}

/// A syntactically invalid line between two valid ones yields exactly the
/// two decoded `Response` events and the terminal `Done` — the bad line
/// produces nothing and does not end the stream.
pub proof fn lemma_malformed_chunk_tolerated(a: Seq<char>, b: Seq<char>, c: Seq<char>)
    requires
        sp_gen_chunk(a) is Some,
        sp_gen_chunk(b) is None,
        sp_gen_chunk(c) is Some,
    ensures
        gen_events(seq![a, b, c]) == seq![
            EventView::Response(sp_gen_chunk(a)->0),
            EventView::Response(sp_gen_chunk(c)->0),
            EventView::Done,
        ],
{
    let s = seq![a, b, c];
    reveal_with_fuel(gen_events, 5);
    assert(s.drop_first() =~= seq![b, c]);
    assert(seq![b, c].drop_first() =~= seq![c]);
    assert(seq![c].drop_first() =~= Seq::<Seq<char>>::empty());
    assert(gen_events(seq![a, b, c]) =~= seq![
        EventView::Response(sp_gen_chunk(a)->0),
        EventView::Response(sp_gen_chunk(c)->0),
        EventView::Done,
    ]);
}

/// No event of a generate stream is `Ready`.
pub proof fn lemma_gen_events_no_ready(chunks: Seq<Seq<char>>)
    ensures
        forall|k: int|
            0 <= k < gen_events(chunks).len() ==> gen_events(chunks)[k] != EventView::Ready,
    decreases chunks.len(),
{
    if chunks.len() > 0 {
        lemma_gen_events_no_ready(chunks.drop_first());
        let e0 = match sp_gen_chunk(chunks[0]) {
            Some(g) => seq![EventView::Response(g)],
            None => Seq::<EventView>::empty(),
        };
        let tail = gen_events(chunks.drop_first());
        assert forall|k: int| 0 <= k < (e0 + tail).len() implies (e0 + tail)[k]
            != EventView::Ready by {
            if k >= e0.len() {
                assert((e0 + tail)[k] == tail[k - e0.len()]);
            }
        }
    }
}

/// No event of a pull stream is `Ready`.
pub proof fn lemma_pull_events_no_ready(chunks: Seq<Seq<char>>)
    ensures
        forall|k: int|
            0 <= k < pull_events(chunks).len() ==> pull_events(chunks)[k] != EventView::Ready,
    decreases chunks.len(),
{
    if chunks.len() > 0 {
        lemma_pull_events_no_ready(chunks.drop_first());
        let e0 = match sp_pull_chunk(chunks[0]) {
            Some(g) => seq![EventView::PullResponse(g)],
            None => Seq::<EventView>::empty(),
        };
        let tail = pull_events(chunks.drop_first());
        assert forall|k: int| 0 <= k < (e0 + tail).len() implies (e0 + tail)[k]
            != EventView::Ready by {
            if k >= e0.len() {
                assert((e0 + tail)[k] == tail[k - e0.len()]);
            }
        }
    }
}

/// `Ready` comes only from [`Dispatcher::new`], which yields exactly one:
/// nothing a running broker emits afterwards — generate events, pull
/// events or remove events — is ever `Ready`, so the first event of every
/// fresh dispatcher instance is its one and only `Ready`.
pub proof fn lemma_ready_only_at_startup(
    gen_chunks: Seq<Seq<char>>,
    pull_chunks: Seq<Seq<char>>,
    success: bool,
)
    ensures
        forall|k: int|
            0 <= k < gen_events(gen_chunks).len() ==> gen_events(gen_chunks)[k]
                != EventView::Ready,
        forall|k: int|
            0 <= k < pull_events(pull_chunks).len() ==> pull_events(pull_chunks)[k]
                != EventView::Ready,
        forall|k: int|
            0 <= k < remove_events_view(success).len() ==> remove_events_view(success)[k]
                != EventView::Ready,
{
    lemma_gen_events_no_ready(gen_chunks);
    lemma_pull_events_no_ready(pull_chunks);
}

/// Slot exclusivity: while the generate slot is taken, a further ask —
/// with or without context — is ignored outright, so no second generate
/// wire call can start.  Nothing the broker does ever frees a slot
/// ([`Dispatcher::step`] leaves the state untouched and the `note_*`
/// functions only take slots), so only a fresh dispatcher can start the
/// next stream.
pub proof fn lemma_slot_exclusivity(d: Dispatcher, req: RequestView)
    requires
        d.generate_busy,
        req is Ask || req is AskWithContext,
    ensures
        step_action(d, req) == ActionView::Ignore,
{
}

/// Remove always double-emits: whatever the outcome, exactly one
/// `RemoveStatus` and then exactly one `RemovedModel`.
pub proof fn lemma_remove_double_emits(success: bool)
    ensures
        remove_events_view(success).len() == 2,
        remove_events_view(success)[0] is RemoveStatus,
        remove_events_view(success)[1] is RemovedModel,
{
}

} // verus!
