use vstd::prelude::*;

verus! {

/// The data types the dashboard shows. They come from the scheduler's REST
/// API; this library only moves them around, so it is generic over them.
pub trait Domain {
    type SchedulerState;
    type Executor;
    type Job;
    type Metric;
    type JobDetails;
    type StagesGraph;
    type JobStagesResponse;
    /// The sort column and order of the executors table.
    type ExecutorsSort;
    /// The sort column and order of the metrics table.
    type MetricsSort;
    /// The sort column and order of the jobs table.
    type JobsSort;
}

/// Data that a background load hands back to the main loop.
pub enum UiData<D: Domain> {
    Executors(Option<D::SchedulerState>, Vec<D::Executor>, Vec<D::Job>),
    Metrics(Vec<D::Metric>),
    Jobs(Vec<D::Job>),
    JobDetails(D::JobDetails),
    JobStagesGraph(D::StagesGraph),
    JobStagesData(String, D::JobStagesResponse),
}

/// An event delivered to the main loop. `K` is the key event type of the
/// terminal backend.
pub enum Event<K, D: Domain> {
    Key(K),
    Tick,
    DataLoaded { data: UiData<D> },
}

} // verus!

verus! {

/// How a terminal reports a key: pressed, held down (repeated) or released.
#[derive(Clone, Copy, Debug, PartialEq, Eq, Structural)]
pub enum KeyKind {
    Press,
    Repeat,
    Release,
}

/// What woke the background task that feeds the main loop: the tick
/// interval elapsed, the terminal reported a key, or the terminal reported
/// something else (a resize, a mouse event, a paste, a focus change).
pub enum Wakeup<K> {
    Tick,
    Key { key: K, kind: KeyKind },
    Other,
}

/// The event, if any, that a wakeup turns into: every tick, and every key
/// press; repeats, releases and other input are dropped.
pub open spec fn forwarded_event<K, D: Domain>(w: Wakeup<K>) -> Option<Event<K, D>> {
    match w {
        Wakeup::Tick => Some(Event::Tick),
        Wakeup::Key { key, kind } => if kind == KeyKind::Press {
            Some(Event::Key(key))
        } else {
            None
        },
        Wakeup::Other => None,
    }
}

/// The state of the background task that forwards ticks and key presses to
/// the main loop. It runs until a send fails, which happens once the main
/// loop has dropped its receiving end; from then on it forwards nothing.
pub struct Forwarder {
    running: bool,
}

impl Forwarder {
    pub closed spec fn running(self) -> bool {
        self.running
    }

    /// The event forwarded for a wakeup in this state.
    pub open spec fn output<K, D: Domain>(self, w: Wakeup<K>) -> Option<Event<K, D>> {
        if self.running() {
            forwarded_event(w)
        } else {
            None
        }
    }

    /// The state after a send that was `delivered` or not.
    pub closed spec fn after_send(self, delivered: bool) -> Forwarder {
        Forwarder { running: self.running && delivered }
    }

    /// The state after a series of sends, each delivered or not.
    pub open spec fn after_sends(self, deliveries: Seq<bool>) -> Forwarder
        decreases deliveries.len(),
    {
        if deliveries.len() == 0 {
            self
        } else {
            self.after_send(deliveries[0]).after_sends(deliveries.drop_first())
        }
    }

    /// A send keeps the task running exactly when it was running and the send
    /// was delivered.
    pub proof fn lemma_after_send(self, delivered: bool)
        ensures
            self.after_send(delivered).running() == (self.running() && delivered),
    {
    }

    pub fn new() -> (f: Self)
        ensures
            f.running(),
    {
        Forwarder { running: true }
    }

    pub fn is_running(&self) -> (r: bool)
        ensures
            r == self.running(),
    {
        self.running
    }

    /// The event to send to the main loop for this wakeup, if any.
    pub fn on_wakeup<K, D: Domain>(&self, w: Wakeup<K>) -> (out: Option<Event<K, D>>)
        ensures
            out == self.output::<K, D>(w),
    {
        if !self.running {
            return None;
        }
        match w {
            Wakeup::Tick => Some(Event::Tick),
            Wakeup::Key { key, kind } => match kind {
                KeyKind::Press => Some(Event::Key(key)),
                _ => None,
            },
            Wakeup::Other => None,
        }
    }

    /// Records whether the last send reached the main loop; a failed send
    /// stops the task for good.
    pub fn on_send(&mut self, delivered: bool)
        ensures
            *final(self) == old(self).after_send(delivered),
            final(self).running() == (old(self).running() && delivered),
    {
        self.running = self.running && delivered;
    }
}

} // verus!

verus! {

/// Once a send has failed, the task stays stopped whatever happens next, and
/// forwards nothing more.
pub proof fn law_stopped_forwarder_stays_silent<K, D: Domain>(
    f: Forwarder,
    deliveries: Seq<bool>,
    w: Wakeup<K>,
)
    requires
        !f.running(),
    ensures
        !f.after_sends(deliveries).running(),
        f.after_sends(deliveries).output::<K, D>(w) == None::<Event<K, D>>,
    decreases deliveries.len(),
{
    if deliveries.len() > 0 {
        f.lemma_after_send(deliveries[0]);
        law_stopped_forwarder_stays_silent::<K, D>(
            f.after_send(deliveries[0]),
            deliveries.drop_first(),
            w,
        );
    }
}

/// While every send is delivered, the task keeps running.
pub proof fn law_delivered_sends_keep_running(f: Forwarder, deliveries: Seq<bool>)
    requires
        f.running(),
        forall|i: int| 0 <= i < deliveries.len() ==> #[trigger] deliveries[i],
    ensures
        f.after_sends(deliveries).running(),
    decreases deliveries.len(),
{
    if deliveries.len() > 0 {
        f.lemma_after_send(deliveries[0]);
        assert forall|i: int| 0 <= i < deliveries.drop_first().len() implies #[trigger] deliveries.drop_first()[i] by {
            assert(deliveries[i + 1]);
        }
        law_delivered_sends_keep_running(f.after_send(deliveries[0]), deliveries.drop_first());
    }
}

/// The only keys that reach the main loop are key presses, unchanged.
pub proof fn law_only_presses_reach_the_loop<K, D: Domain>(f: Forwarder, w: Wakeup<K>, k: K)
    requires
        f.output::<K, D>(w) == Some(Event::<K, D>::Key(k)),
    ensures
        w == (Wakeup::Key { key: k, kind: KeyKind::Press }),
{
}

/// A running task forwards every tick and every key press.
pub proof fn law_running_forwarder_passes_ticks_and_presses<K, D: Domain>(f: Forwarder, k: K)
    requires
        f.running(),
    ensures
        f.output::<K, D>(Wakeup::Tick) == Some(Event::<K, D>::Tick),
        f.output::<K, D>(Wakeup::Key { key: k, kind: KeyKind::Press }) == Some(
            Event::<K, D>::Key(k),
        ),
{
}

} // verus!
