use vstd::prelude::*;
use crate::error::TranslatorError;

verus! {

/// An event from the hotkey listener.
#[derive(Debug, Clone, PartialEq, Eq)]
pub enum Event {
    Quit,
    /// A translation was asked for; the clipboard text as it was when the hotkey fired.
    TranslateRequested(String),
}

pub enum EventV {
    Quit,
    TranslateRequested(Seq<char>),
}

impl View for Event {
    type V = EventV;

    open spec fn view(&self) -> EventV {
        match self {
            Event::Quit => EventV::Quit,
            Event::TranslateRequested(t) => EventV::TranslateRequested(t@),
        }
    }
}

/// What the coordinator does for an event.
#[derive(Debug, Clone, PartialEq, Eq)]
pub enum Command {
    /// Stop listening and leave.
    Stop,
    /// Translate this text, to completion, before the next event.
    Translate(String),
}

pub enum CommandV {
    Stop,
    Translate(Seq<char>),
}

impl View for Command {
    type V = CommandV;

    open spec fn view(&self) -> CommandV {
        match self {
            Command::Stop => CommandV::Stop,
            Command::Translate(t) => CommandV::Translate(t@),
        }
    }
}

/// What becomes of a finished translation.
#[derive(Debug, Clone, PartialEq, Eq)]
pub enum Delivery {
    /// Put the translated text on the clipboard.
    SetClipboard(String),
    /// Leave the clipboard alone and report the failure; listening goes on.
    Report(TranslatorError),
}

pub open spec fn command_of(e: EventV) -> CommandV {
    match e {
        EventV::Quit => CommandV::Stop,
        EventV::TranslateRequested(t) => CommandV::Translate(t),
    }
}

pub open spec fn has_quit(s: Seq<EventV>) -> bool {
    exists|i: int| 0 <= i < s.len() && s[i] is Quit
}

/// The commands issued for events received in this order: one per event,
/// and none after the first quit.
pub open spec fn run(s: Seq<EventV>) -> Seq<CommandV>
    decreases s.len(),
{
    if s.len() == 0 {
        Seq::empty()
    } else if has_quit(s.drop_last()) {
        run(s.drop_last())
    } else {
        run(s.drop_last()).push(command_of(s.last()))
    }
}

/// Serves hotkey events one at a time, in the order they arrived.
pub struct Coordinator {
    stopped: bool,
    received: Ghost<Seq<EventV>>,
    issued: Ghost<Seq<CommandV>>,
}

impl Coordinator {
    pub open spec fn wf(&self) -> bool {
        &&& self.issued() == run(self.received())
        &&& self.stopped() == has_quit(self.received())
    }

    /// The events handled so far, oldest first.
    pub closed spec fn received(&self) -> Seq<EventV> {
        self.received@
    }

    /// The commands issued so far, oldest first.
    pub closed spec fn issued(&self) -> Seq<CommandV> {
        self.issued@
    }

    pub closed spec fn stopped(&self) -> bool {
        self.stopped
    }

    pub fn new() -> (r: Coordinator)
        ensures
            r.wf(),
            r.received() == Seq::<EventV>::empty(),
            !r.stopped(),
    {
        Coordinator { stopped: false, received: Ghost(Seq::empty()), issued: Ghost(Seq::empty()) }
    }

    /// Whether events are still served: false once a quit has been handled.
    pub fn is_running(&self) -> (r: bool)
        ensures
            r == !self.stopped(),
    {
        !self.stopped
    }

    /// Takes the next event and says what to do for it.
    pub fn handle(&mut self, event: Event) -> (r: Command)
        requires
            old(self).wf(),
            !old(self).stopped(),
        ensures
            final(self).wf(),
            final(self).received() == old(self).received().push(event@),
            final(self).issued() == old(self).issued().push(r@),
            r@ == command_of(event@),
            final(self).stopped() == (event is Quit),
    {
        let ghost prev = self.received@;
        let r = match event {
            Event::Quit => {
                self.stopped = true;
                Command::Stop
            },
            Event::TranslateRequested(t) => Command::Translate(t),
        };
        proof {
            let now = prev.push(event@);
            assert(now.drop_last() =~= prev);
            if event is Quit {
                assert(now[now.len() - 1] is Quit);
            } else {
                assert forall|i: int| 0 <= i < now.len() implies !(now[i] is Quit) by {
                    if i < prev.len() {
                        assert(now[i] == prev[i]);
                    }
                }
            }
            self.received = Ghost(now);
            self.issued = Ghost(self.issued@.push(r@));
        }
        r
    }

    /// A successful translation goes to the clipboard; a failed one is reported.
    pub fn deliver(result: Result<String, TranslatorError>) -> (r: Delivery)
        ensures
            result matches Ok(t) ==> (r matches Delivery::SetClipboard(s) && s == t),
            result matches Err(e) ==> (r matches Delivery::Report(f) && f == e),
    {
        match result {
            Ok(t) => Delivery::SetClipboard(t),
            Err(e) => Delivery::Report(e),
        }
    }
}

proof fn lemma_run_without_quit(s: Seq<EventV>)
    requires
        !has_quit(s),
    ensures
        run(s) == s.map_values(|e: EventV| command_of(e)),
    decreases s.len(),
{
    if s.len() > 0 {
        assert(!has_quit(s.drop_last())) by {
            assert forall|i: int| 0 <= i < s.drop_last().len() implies !(s.drop_last()[i] is Quit) by {
                assert(s.drop_last()[i] == s[i]);
            }
        }
        lemma_run_without_quit(s.drop_last());
        assert(run(s) =~= s.map_values(|e: EventV| command_of(e)));
    }
}

proof fn lemma_run_after_quit(x: Seq<EventV>, rest: Seq<EventV>)
    requires
        has_quit(x),
    ensures
        run(x + rest) == run(x),
    decreases rest.len(),
{
    if rest.len() == 0 {
        assert(x + rest =~= x);
    } else {
        lemma_run_after_quit(x, rest.drop_last());
        assert((x + rest).drop_last() =~= x + rest.drop_last());
        let i = choose|i: int| 0 <= i < x.len() && x[i] is Quit;
        assert((x + rest.drop_last())[i] == x[i]);
    }
}

/// Events are served in the order they arrived, each one before the next,
/// and serving ends at the first quit: whatever arrives after it is not served.
pub proof fn lemma_fifo_until_quit(before: Seq<EventV>, after: Seq<EventV>)
    requires
        !has_quit(before),
    ensures
        run(before.push(EventV::Quit) + after)
            == before.map_values(|e: EventV| command_of(e)).push(CommandV::Stop),
{
    let x = before.push(EventV::Quit);
    assert(x[before.len() as int] is Quit);
    lemma_run_after_quit(x, after);
    assert(x.drop_last() =~= before);
    lemma_run_without_quit(before);
}

} // verus!
