use vstd::prelude::*;

verus! {

/// Whether a session's forwarder still passes messages on.
#[derive(Clone, Copy, Debug, PartialEq, Eq, Structural)]
pub enum ForwardPhase {
    Running,
    Stopped,
}

/// What a forwarder observes between two decisions.
pub enum ForwardEvent<O, I> {
    /// The child wrote a message on its standard output.
    FromChild(O),
    /// The client posted a message to the session.
    FromClient(I),
    /// Passing the last message on failed.
    SendFailed,
    /// The child's output or the client's input ended.
    StreamEnded,
    /// The session's cancellation token fired.
    Cancelled,
}

/// What a forwarder does next.
pub enum ForwardAction<O, I> {
    /// Write the message as an event on the client's stream.
    SendToClient(O),
    /// Write the message to the child's standard input.
    SendToChild(I),
    /// Drop both sides and end the session's task.
    Exit,
}

/// One decision of a forwarder: the phase after the event and the action.
pub open spec fn step<O, I>(phase: ForwardPhase, ev: ForwardEvent<O, I>) -> (ForwardPhase, ForwardAction<O, I>) {
    match phase {
        ForwardPhase::Stopped => (ForwardPhase::Stopped, ForwardAction::Exit),
        ForwardPhase::Running => match ev {
            ForwardEvent::FromChild(m) => (ForwardPhase::Running, ForwardAction::SendToClient(m)),
            ForwardEvent::FromClient(m) => (ForwardPhase::Running, ForwardAction::SendToChild(m)),
            _ => (ForwardPhase::Stopped, ForwardAction::Exit),
        },
    }
}

/// The actions that a forwarder in `phase` takes on `evs`, one per event.
pub open spec fn run<O, I>(phase: ForwardPhase, evs: Seq<ForwardEvent<O, I>>) -> Seq<ForwardAction<O, I>>
    decreases evs.len(),
{
    if evs.len() == 0 {
        Seq::empty()
    } else {
        let (next, act) = step(phase, evs[0]);
        seq![act] + run(next, evs.drop_first())
    }
}

/// The phase of a forwarder in `phase` after `evs`.
pub open spec fn phase_after<O, I>(phase: ForwardPhase, evs: Seq<ForwardEvent<O, I>>) -> ForwardPhase
    decreases evs.len(),
{
    if evs.len() == 0 {
        phase
    } else {
        phase_after(step(phase, evs[0]).0, evs.drop_first())
    }
}

/// The messages written to the child by `acts`, in order.
pub open spec fn to_child<O, I>(acts: Seq<ForwardAction<O, I>>) -> Seq<I>
    decreases acts.len(),
{
    if acts.len() == 0 {
        Seq::empty()
    } else {
        match acts[0] {
            ForwardAction::SendToChild(m) => seq![m] + to_child(acts.drop_first()),
            _ => to_child(acts.drop_first()),
        }
    }
}

/// The messages written to the client by `acts`, in order.
pub open spec fn to_client<O, I>(acts: Seq<ForwardAction<O, I>>) -> Seq<O>
    decreases acts.len(),
{
    if acts.len() == 0 {
        Seq::empty()
    } else {
        match acts[0] {
            ForwardAction::SendToClient(m) => seq![m] + to_client(acts.drop_first()),
            _ => to_client(acts.drop_first()),
        }
    }
}

/// The client's messages among `evs`, in order, up to the first event that
/// ends a session.
pub open spec fn client_messages<O, I>(evs: Seq<ForwardEvent<O, I>>) -> Seq<I>
    decreases evs.len(),
{
    if evs.len() == 0 {
        Seq::empty()
    } else {
        match evs[0] {
            ForwardEvent::FromClient(m) => seq![m] + client_messages(evs.drop_first()),
            ForwardEvent::FromChild(_) => client_messages(evs.drop_first()),
            _ => Seq::empty(),
        }
    }
}

/// The child's messages among `evs`, in order, up to the first event that
/// ends a session.
pub open spec fn child_messages<O, I>(evs: Seq<ForwardEvent<O, I>>) -> Seq<O>
    decreases evs.len(),
{
    if evs.len() == 0 {
        Seq::empty()
    } else {
        match evs[0] {
            ForwardEvent::FromChild(m) => seq![m] + child_messages(evs.drop_first()),
            ForwardEvent::FromClient(_) => child_messages(evs.drop_first()),
            _ => Seq::empty(),
        }
    }
}

/// The forwarder of one session.
pub struct Forwarder {
    phase: ForwardPhase,
}

impl View for Forwarder {
    type V = ForwardPhase;

    closed spec fn view(&self) -> ForwardPhase {
        self.phase
    }
}

impl Forwarder {
    /// The forwarder of a session whose child process was asked for: it runs
    /// when the child started, and has stopped when the child could not be
    /// started (the session is dropped; nothing is retried).
    pub fn after_factory(child_started: bool) -> (r: Forwarder)
        ensures
            r@ == (if child_started {
                ForwardPhase::Running
            } else {
                ForwardPhase::Stopped
            }),
    {
        if child_started {
            Forwarder { phase: ForwardPhase::Running }
        } else {
            Forwarder { phase: ForwardPhase::Stopped }
        }
    }

    /// The current phase.
    pub fn phase(&self) -> (r: ForwardPhase)
        ensures
            r == self@,
    {
        self.phase
    }

    /// Whether the forwarder still passes messages on.
    pub fn is_running(&self) -> (r: bool)
        ensures
            r == (self@ == ForwardPhase::Running),
    {
        match self.phase {
            ForwardPhase::Running => true,
            ForwardPhase::Stopped => false,
        }
    }

    /// Decides what to do on `ev`: a message from either side goes, unchanged,
    /// to the other side; a failed send, an ended stream or a cancellation
    /// stops the forwarder for good.
    pub fn on_event<O, I>(&mut self, ev: ForwardEvent<O, I>) -> (r: ForwardAction<O, I>)
        ensures
            (final(self)@, r) == step(old(self)@, ev),
    {
        match self.phase {
            ForwardPhase::Stopped => ForwardAction::Exit,
            ForwardPhase::Running => match ev {
                ForwardEvent::FromChild(m) => ForwardAction::SendToClient(m),
                ForwardEvent::FromClient(m) => ForwardAction::SendToChild(m),
                _ => {
                    self.phase = ForwardPhase::Stopped;
                    ForwardAction::Exit
                },
            },
        }
    }
}

proof fn lemma_drop_first_append<A>(a: Seq<A>, b: Seq<A>)
    requires
        a.len() > 0,
    ensures
        (a + b)[0] == a[0],
        (a + b).drop_first() == a.drop_first() + b,
{
    assert((a + b).drop_first() =~= a.drop_first() + b);
}

/// Running on two runs of events one after the other acts as on the first run
/// and then, from the phase it ended in, on the second.
pub proof fn lemma_run_append<O, I>(
    phase: ForwardPhase,
    evs: Seq<ForwardEvent<O, I>>,
    more: Seq<ForwardEvent<O, I>>,
)
    ensures
        run(phase, evs + more) == run(phase, evs) + run(phase_after(phase, evs), more),
    decreases evs.len(),
{
    if evs.len() == 0 {
        assert(evs + more =~= more);
        assert(run(phase, evs) + run(phase, more) =~= run(phase, more));
    } else {
        lemma_drop_first_append(evs, more);
        let next = step(phase, evs[0]).0;
        lemma_run_append(next, evs.drop_first(), more);
        assert(seq![step(phase, evs[0]).1] + (run(next, evs.drop_first()) + run(
            phase_after(next, evs.drop_first()),
            more,
        )) =~= (seq![step(phase, evs[0]).1] + run(next, evs.drop_first())) + run(
            phase_after(next, evs.drop_first()),
            more,
        ));
    }
}

/// A stopped forwarder answers every event with `Exit`.
pub proof fn lemma_stopped_exits<O, I>(evs: Seq<ForwardEvent<O, I>>)
    ensures
        run(ForwardPhase::Stopped, evs).len() == evs.len(),
        forall|i: int|
            0 <= i < evs.len() ==> #[trigger] run(ForwardPhase::Stopped, evs)[i] is Exit,
    decreases evs.len(),
{
    if evs.len() > 0 {
        lemma_stopped_exits(evs.drop_first());
        let r = run(ForwardPhase::Stopped, evs);
        assert forall|i: int| 0 <= i < evs.len() implies #[trigger] r[i] is Exit by {
            if i > 0 {
                assert(r[i] == run(ForwardPhase::Stopped, evs.drop_first())[i - 1]);
            }
        }
    }
}

/// Per direction, in order and without loss: the messages that a running
/// forwarder writes to the child are exactly the client's messages up to the
/// first event that ends the session, and those it writes to the client are
/// exactly the child's messages up to that event.
pub proof fn lemma_forwarding_is_fifo<O, I>(evs: Seq<ForwardEvent<O, I>>)
    ensures
        to_child(run(ForwardPhase::Running, evs)) == client_messages(evs),
        to_client(run(ForwardPhase::Running, evs)) == child_messages(evs),
    decreases evs.len(),
{
    if evs.len() > 0 {
        let acts = run(ForwardPhase::Running, evs);
        assert(acts.drop_first() =~= run(step(ForwardPhase::Running, evs[0]).0, evs.drop_first()));
        match evs[0] {
            ForwardEvent::FromChild(m) => {
                lemma_forwarding_is_fifo(evs.drop_first());
            },
            ForwardEvent::FromClient(m) => {
                lemma_forwarding_is_fifo(evs.drop_first());
            },
            _ => {
                lemma_no_messages_after_stop(evs.drop_first());
            },
        }
    }
}

/// A stopped forwarder writes no message to either side.
pub proof fn lemma_no_messages_after_stop<O, I>(evs: Seq<ForwardEvent<O, I>>)
    ensures
        to_child(run(ForwardPhase::Stopped, evs)) == Seq::<I>::empty(),
        to_client(run(ForwardPhase::Stopped, evs)) == Seq::<O>::empty(),
    decreases evs.len(),
{
    if evs.len() > 0 {
        let acts = run(ForwardPhase::Stopped, evs);
        assert(acts.drop_first() =~= run(ForwardPhase::Stopped, evs.drop_first()));
        lemma_no_messages_after_stop(evs.drop_first());
    }
}

/// Once the session's token is cancelled, the forwarder exits at that event
/// and at every later one, whatever came before and whatever comes after.
pub proof fn lemma_cancel_stops<O, I>(
    phase: ForwardPhase,
    before: Seq<ForwardEvent<O, I>>,
    after: Seq<ForwardEvent<O, I>>,
)
    ensures
        ({
            let acts = run(phase, before + seq![ForwardEvent::Cancelled] + after);
            &&& acts.len() == before.len() + 1 + after.len()
            &&& forall|i: int|
                before.len() <= i < acts.len() ==> #[trigger] acts[i] is Exit
        }),
{
    let mid = phase_after(phase, before);
    let tail = seq![ForwardEvent::Cancelled] + after;
    lemma_run_len(phase, before);
    assert(before + seq![ForwardEvent::Cancelled] + after =~= before + tail);
    lemma_run_append(phase, before, tail);
    lemma_drop_first_append(seq![ForwardEvent::<O, I>::Cancelled], after);
    assert(tail.drop_first() =~= after);
    lemma_stopped_exits(after);
    let acts = run(phase, before + tail);
    assert(run(mid, tail) == seq![ForwardAction::<O, I>::Exit] + run(ForwardPhase::Stopped, after));
    assert forall|i: int| before.len() <= i < acts.len() implies #[trigger] acts[i] is Exit by {
        assert(acts[i] == run(mid, tail)[i - before.len()]);
        if i > before.len() {
            assert(run(mid, tail)[i - before.len()] == run(ForwardPhase::Stopped, after)[i
                - before.len() - 1]);
        }
    }
}

/// A forwarder takes one action per event.
pub proof fn lemma_run_len<O, I>(phase: ForwardPhase, evs: Seq<ForwardEvent<O, I>>)
    ensures
        run(phase, evs).len() == evs.len(),
    decreases evs.len(),
{
    if evs.len() > 0 {
        lemma_run_len(step(phase, evs[0]).0, evs.drop_first());
    }
}

} // verus!
