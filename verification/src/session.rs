use crate::event::{Domain, Event};
use vstd::prelude::*;

verus! {

/// What the main loop does with the next event from the input task.
pub enum Reaction<K, D: Domain> {
    /// Hand the key to the application's key handler.
    HandleKey(K),
    /// Let the application refresh what it shows.
    HandleTick,
    /// Log the event and carry on; loaded data reaches the dashboard only
    /// through the loaders' own channel.
    Ignore(Event<K, D>),
    /// The input task has ended: leave the loop.
    Exit,
}

/// The reaction to `event`, the next item from the input task (`None` once
/// the task has ended).
pub open spec fn reaction_to<K, D: Domain>(event: Option<Event<K, D>>) -> Reaction<K, D> {
    match event {
        Some(Event::Key(key)) => Reaction::HandleKey(key),
        Some(Event::Tick) => Reaction::HandleTick,
        Some(other) => Reaction::Ignore(other),
        None => Reaction::Exit,
    }
}

/// Decides what the main loop does with the next item from the input task.
pub fn react<K, D: Domain>(event: Option<Event<K, D>>) -> (r: Reaction<K, D>)
    ensures
        r == reaction_to(event),
{
    match event {
        Some(Event::Key(key)) => Reaction::HandleKey(key),
        Some(Event::Tick) => Reaction::HandleTick,
        Some(other) => Reaction::Ignore(other),
        None => Reaction::Exit,
    }
}

/// The loop leaves exactly when the input task has ended; keys and ticks
/// reach their handlers unchanged.
pub proof fn law_exit_only_when_input_ends<K, D: Domain>(event: Option<Event<K, D>>, key: K)
    ensures
        (reaction_to(event) is Exit) <==> event is None,
        reaction_to(Some(Event::<K, D>::Key(key))) == Reaction::<K, D>::HandleKey(key),
        reaction_to(Some(Event::<K, D>::Tick)) == Reaction::<K, D>::HandleTick,
{
}

} // verus!

verus! {

/// Whether the main loop goes on: it stops for good once the input task has
/// ended or, at the end of a round, the application asks to quit.
pub struct MainLoop {
    running: bool,
}

impl MainLoop {
    pub closed spec fn running(self) -> bool {
        self.running
    }

    /// The state after the input task handed `event`.
    pub closed spec fn after_input<K, D: Domain>(self, event: Option<Event<K, D>>) -> MainLoop {
        MainLoop { running: self.running && event is Some }
    }

    /// The state after a round ended with the application asking to quit or
    /// not.
    pub closed spec fn after_round(self, quit_requested: bool) -> MainLoop {
        MainLoop { running: self.running && !quit_requested }
    }

    pub fn new() -> (l: Self)
        ensures
            l.running(),
    {
        MainLoop { running: true }
    }

    pub fn is_running(&self) -> (r: bool)
        ensures
            r == self.running(),
    {
        self.running
    }

    /// Decides what to do with the next item from the input task; the loop
    /// stops when the task has ended.
    pub fn on_input<K, D: Domain>(&mut self, event: Option<Event<K, D>>) -> (r: Reaction<K, D>)
        ensures
            r == reaction_to(event),
            *final(self) == old(self).after_input(event),
            final(self).running() == (old(self).running() && event is Some),
    {
        let r = react(event);
        if let Reaction::Exit = r {
            self.running = false;
        }
        r
    }

    /// Ends a round of the loop: the loop stops once the application asks to
    /// quit.
    pub fn end_round(&mut self, quit_requested: bool)
        ensures
            *final(self) == old(self).after_round(quit_requested),
            final(self).running() == (old(self).running() && !quit_requested),
    {
        if quit_requested {
            self.running = false;
        }
    }

    /// The loop goes on after a round that handled input exactly when it was
    /// running, the input task had not ended, and the application did not
    /// ask to quit; after a round that handled loaded data, exactly when it
    /// was running and the application did not ask to quit. Once stopped, it
    /// stays stopped.
    pub proof fn law_loop_stops_on_end_of_input_or_quit<K, D: Domain>(
        self,
        event: Option<Event<K, D>>,
        quit_requested: bool,
    )
        ensures
            self.after_input(event).after_round(quit_requested).running() <==> (self.running()
                && event is Some && !quit_requested),
            self.after_round(quit_requested).running() <==> (self.running() && !quit_requested),
            !self.running() ==> !self.after_input(event).running(),
            !self.running() ==> !self.after_round(quit_requested).running(),
    {
    }
}

} // verus!
