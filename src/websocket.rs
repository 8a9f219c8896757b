use futures_channel::mpsc::{TrySendError, UnboundedSender};
pub use gloo_utils::errors::JsError;
pub use reqwasm::websocket::{futures::WebSocket, Message, WebSocketError};
use vstd::prelude::*;

verus! {

/// The cooperative stop signal that a per-message callback produces.
#[derive(Debug, Clone, Copy, PartialEq, Eq, Structural)]
pub enum ControlFlow {
    Break,
    Continue,
}

/// A callback that returns nothing has no opinion: the loop goes on.
impl From<()> for ControlFlow {
    fn from(_unit: ()) -> (r: ControlFlow)
        ensures
            r == ControlFlow::Continue,
    {
        ControlFlow::Continue
    }
}

impl vstd::std_specs::convert::FromSpecImpl<()> for ControlFlow {
    open spec fn obeys_from_spec() -> bool {
        true
    }

    open spec fn from_spec(v: ()) -> ControlFlow {
        ControlFlow::Continue
    }
}


/// Where one background loop of a session stands.
#[derive(Debug, Clone, Copy, PartialEq, Eq, Structural)]
pub enum LoopPhase {
    /// Waiting for the next item.
    Running,
    /// An item has been delivered; the callback's signal for it is owed.
    AwaitingSignal,
    /// Exited; its close handler has been asked for.
    Closed,
}

/// What the task that runs a loop must do next.
#[derive(Debug, PartialEq, Eq)]
pub enum LoopAction<M> {
    /// Handle this item (write it, or pass it to the callback), then report
    /// the callback's signal.
    Deliver(M),
    /// Wait for the next item.
    Await,
    /// Invoke the close handler and leave the loop.
    Close,
    /// Leave the loop; the close handler has already been asked for.
    Exit,
    /// The event came out of turn (an item while a signal is owed, or a
    /// signal with no item delivered): it is not acted on.
    Ignore,
}

/// The loop's answer to the next item, or to `None` when its source has ended.
pub open spec fn item_transition<M>(phase: LoopPhase, item: Option<M>) -> (LoopPhase, LoopAction<M>) {
    match (phase, item) {
        (LoopPhase::Running, Some(m)) => (LoopPhase::AwaitingSignal, LoopAction::Deliver(m)),
        (LoopPhase::Running, None) => (LoopPhase::Closed, LoopAction::Close),
        (LoopPhase::AwaitingSignal, _) => (LoopPhase::AwaitingSignal, LoopAction::Ignore),
        (LoopPhase::Closed, _) => (LoopPhase::Closed, LoopAction::Exit),
    }
}

/// The loop's answer to the signal that the callback returned for an item.
pub open spec fn signal_transition<M>(phase: LoopPhase, signal: ControlFlow) -> (LoopPhase, LoopAction<M>) {
    match (phase, signal) {
        (LoopPhase::AwaitingSignal, ControlFlow::Continue) => (LoopPhase::Running, LoopAction::Await),
        (LoopPhase::AwaitingSignal, ControlFlow::Break) => (LoopPhase::Closed, LoopAction::Close),
        (LoopPhase::Running, _) => (LoopPhase::Running, LoopAction::Ignore),
        (LoopPhase::Closed, _) => (LoopPhase::Closed, LoopAction::Exit),
    }
}

/// The observable effect of running a loop over a stretch of its input.
pub struct LoopTrace<M> {
    /// The items handed to the callback, in order.
    pub delivered: Seq<M>,
    /// How many times the close handler was asked for.
    pub closes: nat,
    /// Where the loop stands afterwards.
    pub phase: LoopPhase,
}

pub open spec fn close_count<M>(a: LoopAction<M>) -> nat {
    if a is Close { 1 } else { 0 }
}

/// Runs a loop from `phase` over `items`, the callback answering `signals[i]`
/// for `items[i]`; `ended` says whether the source ends after `items`.
pub open spec fn run_loop<M>(phase: LoopPhase, items: Seq<M>, signals: Seq<ControlFlow>, ended: bool) -> LoopTrace<M>
    decreases items.len(),
{
    if items.len() == 0 {
        if ended {
            let (p, a) = item_transition::<M>(phase, None);
            LoopTrace { delivered: Seq::empty(), closes: close_count(a), phase: p }
        } else {
            LoopTrace { delivered: Seq::empty(), closes: 0, phase }
        }
    } else {
        let (p1, a1) = item_transition(phase, Some(items[0]));
        if a1 is Deliver {
            let (p2, a2) = signal_transition::<M>(p1, signals[0]);
            let rest = run_loop(p2, items.drop_first(), signals.drop_first(), ended);
            LoopTrace {
                delivered: seq![items[0]] + rest.delivered,
                closes: close_count(a2) + rest.closes,
                phase: rest.phase,
            }
        } else {
            LoopTrace { delivered: Seq::empty(), closes: 0, phase: p1 }
        }
    }
}

/// The decision state of one background loop (the send loop or the receive
/// loop). The task that runs it performs the actions it hands back.
pub struct MessageLoop {
    pub phase: LoopPhase,
}

impl MessageLoop {
    /// A loop that has not yet taken anything.
    pub fn new() -> (r: MessageLoop)
        ensures
            r.phase == LoopPhase::Running,
    {
        MessageLoop { phase: LoopPhase::Running }
    }

    /// Reports what the loop's source yielded: an item, or `None` once it has
    /// ended.
    pub fn on_item<M>(&mut self, item: Option<M>) -> (r: LoopAction<M>)
        ensures
            (final(self).phase, r) == item_transition(old(self).phase, item),
    {
        match self.phase {
            LoopPhase::Running => match item {
                Some(m) => {
                    self.phase = LoopPhase::AwaitingSignal;
                    LoopAction::Deliver(m)
                },
                None => {
                    self.phase = LoopPhase::Closed;
                    LoopAction::Close
                },
            },
            LoopPhase::AwaitingSignal => LoopAction::Ignore,
            LoopPhase::Closed => LoopAction::Exit,
        }
    }

    /// Reports the signal that the callback returned for the delivered item.
    pub fn on_signal<M>(&mut self, signal: ControlFlow) -> (r: LoopAction<M>)
        ensures
            (final(self).phase, r) == signal_transition::<M>(old(self).phase, signal),
    {
        match self.phase {
            LoopPhase::AwaitingSignal => match signal {
                ControlFlow::Continue => {
                    self.phase = LoopPhase::Running;
                    LoopAction::Await
                },
                ControlFlow::Break => {
                    self.phase = LoopPhase::Closed;
                    LoopAction::Close
                },
            },
            LoopPhase::Running => LoopAction::Ignore,
            LoopPhase::Closed => LoopAction::Exit,
        }
    }

    /// Whether the loop has exited.
    pub fn is_closed(&self) -> (r: bool)
        ensures
            r == (self.phase == LoopPhase::Closed),
    {
        self.phase == LoopPhase::Closed
    }
}

/// A closed loop takes nothing more and closes no more.
pub proof fn lemma_closed_is_final<M>(items: Seq<M>, signals: Seq<ControlFlow>, ended: bool)
    ensures
        run_loop(LoopPhase::Closed, items, signals, ended).delivered.len() == 0,
        run_loop(LoopPhase::Closed, items, signals, ended).closes == 0,
        run_loop(LoopPhase::Closed, items, signals, ended).phase == LoopPhase::Closed,
{
}

/// Whatever the items and the callback's answers, the close handler is asked
/// for at most once, and it is asked for exactly when the loop ends up closed.
pub proof fn lemma_close_at_most_once<M>(phase: LoopPhase, items: Seq<M>, signals: Seq<ControlFlow>, ended: bool)
    ensures
        run_loop(phase, items, signals, ended).closes <= 1,
        phase == LoopPhase::Running ==> (run_loop(phase, items, signals, ended).closes == 1
            <==> run_loop(phase, items, signals, ended).phase == LoopPhase::Closed),
        phase != LoopPhase::Running ==> run_loop(phase, items, signals, ended).closes == 0,
    decreases items.len(),
{
    if items.len() > 0 && phase == LoopPhase::Running {
        let p2 = signal_transition::<M>(LoopPhase::AwaitingSignal, signals[0]).0;
        lemma_close_at_most_once(p2, items.drop_first(), signals.drop_first(), ended);
    }
}

/// When the callback answers `Continue` to every item, every item is handed
/// over, in order, and the loop closes only if its source ended.
pub proof fn lemma_continue_delivers_all<M>(items: Seq<M>, signals: Seq<ControlFlow>, ended: bool)
    requires
        signals.len() >= items.len(),
        forall|j: int| 0 <= j < items.len() ==> signals[j] == ControlFlow::Continue,
    ensures
        run_loop(LoopPhase::Running, items, signals, ended).delivered == items,
        run_loop(LoopPhase::Running, items, signals, ended).closes == (if ended { 1nat } else { 0nat }),
        run_loop(LoopPhase::Running, items, signals, ended).phase == (if ended { LoopPhase::Closed } else { LoopPhase::Running }),
    decreases items.len(),
{
    if items.len() > 0 {
        let rest_items = items.drop_first();
        let rest_signals = signals.drop_first();
        assert forall|j: int| 0 <= j < rest_items.len() implies rest_signals[j] == ControlFlow::Continue by {
            assert(rest_signals[j] == signals[j + 1]);
        }
        lemma_continue_delivers_all(rest_items, rest_signals, ended);
        assert(seq![items[0]] + rest_items =~= items);
    }
}

/// When the callback answers `Break` to the item at `k` and `Continue` to all
/// before it, the loop hands over exactly the items up to and including `k`,
/// closes exactly once, and takes nothing after, whatever else is buffered.
pub proof fn lemma_break_stops_loop<M>(items: Seq<M>, signals: Seq<ControlFlow>, ended: bool, k: int)
    requires
        0 <= k < items.len(),
        k < signals.len(),
        signals[k] == ControlFlow::Break,
        forall|j: int| 0 <= j < k ==> signals[j] == ControlFlow::Continue,
    ensures
        run_loop(LoopPhase::Running, items, signals, ended).delivered == items.take(k + 1),
        run_loop(LoopPhase::Running, items, signals, ended).closes == 1,
        run_loop(LoopPhase::Running, items, signals, ended).phase == LoopPhase::Closed,
    decreases items.len(),
{
    let rest_items = items.drop_first();
    let rest_signals = signals.drop_first();
    if k == 0 {
        lemma_closed_is_final(rest_items, rest_signals, ended);
        assert(seq![items[0]] =~= items.take(1));
    } else {
        assert forall|j: int| 0 <= j < k - 1 implies rest_signals[j] == ControlFlow::Continue by {
            assert(rest_signals[j] == signals[j + 1]);
        }
        assert(rest_signals[k - 1] == signals[k]);
        lemma_break_stops_loop(rest_items, rest_signals, ended, k - 1);
        assert(seq![items[0]] + rest_items.take(k) =~= items.take(k + 1));
    }
}

/// gloo-net's WebSocket message (re-exported by reqwasm), carried through unopened.
#[verifier::external_type_specification]
#[verifier::external_body]
pub struct ExMessage(Message);

/// The producer end of futures-channel's unbounded queue.
#[verifier::external_type_specification]
#[verifier::external_body]
#[verifier::reject_recursive_types(T)]
pub struct ExUnboundedSender<T>(UnboundedSender<T>);

/// futures-channel's error for a send on a closed queue; it holds the message back.
#[verifier::external_type_specification]
#[verifier::external_body]
#[verifier::reject_recursive_types(T)]
pub struct ExTrySendError<T>(TrySendError<T>);

/// Relies on `Clone` for `UnboundedSender` of futures-channel: the clone holds
/// the same shared channel (`Arc::clone` of its inner state).
pub assume_specification<T>[ <UnboundedSender<T> as std::clone::Clone>::clone ](
    sender: &UnboundedSender<T>,
) -> (r: UnboundedSender<T>)
    ensures
        r == *sender,
;

/// A live session: the producer end of the outbound queue that the send loop
/// drains to the socket. Every clone feeds the same queue.
pub struct WebSocketService {
    sender: UnboundedSender<Message>,
    /// The messages this handle has put on the queue, oldest first.
    sent: Ghost<Seq<Message>>,
}

impl Clone for WebSocketService {
    /// Another handle on the same outbound queue, which has sent nothing yet.
    fn clone(&self) -> (r: WebSocketService)
        ensures
            r.queue() == self.queue(),
            r.sent() == Seq::<Message>::empty(),
    {
        WebSocketService { sender: self.sender.clone(), sent: Ghost(Seq::empty()) }
    }
}

impl WebSocketService {
    /// The outbound queue that this handle feeds.
    pub closed spec fn queue(&self) -> UnboundedSender<Message> {
        self.sender
    }

    /// The messages this handle has put on the queue, oldest first.
    pub closed spec fn sent(&self) -> Seq<Message> {
        self.sent@
    }

    /// A handle on the outbound queue whose consumer runs the send loop.
    pub fn from_sender(sender: UnboundedSender<Message>) -> (r: WebSocketService)
        ensures
            r.queue() == sender,
            r.sent() == Seq::<Message>::empty(),
    {
        WebSocketService { sender, sent: Ghost(Seq::empty()) }
    }

    /// Relies on `UnboundedSender::unbounded_send` of futures-channel: it
    /// never blocks; on success the message is pushed at the tail of the
    /// queue, and on failure (the channel is closed) nothing is pushed and the
    /// message is handed back in the error. Which of the two happens depends
    /// on the channel's shared state.
    #[verifier::external_body]
    fn enqueue(&mut self, msg: Message) -> (r: Result<(), TrySendError<Message>>)
        ensures
            final(self).queue() == old(self).queue(),
            r is Ok ==> final(self).sent() == old(self).sent().push(msg),
            r is Err ==> final(self).sent() == old(self).sent(),
    {
        self.sender.unbounded_send(msg)
    }

    /// Enqueues a message for the send loop without blocking; fails when the
    /// queue has been closed, and then enqueues nothing.
    pub fn send(&mut self, msg: Message) -> (r: Result<(), TrySendError<Message>>)
        ensures
            final(self).queue() == old(self).queue(),
            r is Ok ==> final(self).sent() == old(self).sent().push(msg),
            r is Err ==> final(self).sent() == old(self).sent(),
    {
        self.enqueue(msg)
    }
}

/// When the send loop takes the messages a handle has put on the queue and
/// the send callback answers `Continue` to each, every one of them reaches
/// the write half exactly once, in the order `send` accepted them, and the
/// loop is still running unless the queue ended.
pub proof fn lemma_sent_messages_written_in_order(
    service: WebSocketService,
    signals: Seq<ControlFlow>,
    ended: bool,
)
    requires
        signals.len() >= service.sent().len(),
        forall|j: int| 0 <= j < service.sent().len() ==> signals[j] == ControlFlow::Continue,
    ensures
        run_loop(LoopPhase::Running, service.sent(), signals, ended).delivered == service.sent(),
        run_loop(LoopPhase::Running, service.sent(), signals, ended).closes == (if ended { 1nat } else { 0nat }),
{
    lemma_continue_delivers_all(service.sent(), signals, ended);
}

} // verus!
