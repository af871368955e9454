//! Open/close lifecycle of the dismissible overlays (dropdown menus and modal
//! dialogs). The host turns DOM events into [`OverlayEvent`]s and carries out
//! the [`ObserverAction`] that each step returns.
use vstd::prelude::*;

verus! {

/// What the host must do with the two document observers (Escape key and
/// pointer-down) after a step.
#[derive(Clone, Copy, Debug, PartialEq, Eq, Structural)]
pub enum ObserverAction {
    /// Nothing changed: leave the observers as they are and notify nobody.
    Keep,
    /// The overlay has just opened: register both observers.
    Attach,
    /// The overlay has just closed: unregister both observers and run the
    /// close callback, if any.
    Detach,
}

/// An input to a dismissible overlay.
#[derive(Clone, Copy, Debug, PartialEq, Eq, Structural)]
pub enum OverlayEvent {
    /// An explicit request to show the overlay.
    Open,
    /// An explicit close action (close button, selecting an item).
    Close,
    /// A click on the trigger.
    Toggle,
    /// The Escape key was pressed.
    Escape,
    /// Any other key was pressed.
    OtherKey,
    /// A pointer went down; `inside` tells whether its target lies within the
    /// overlay's root element.
    PointerDown { inside: bool },
}

/// Visibility flag of one overlay instance. The document observers are
/// registered exactly while it is open.
#[derive(Clone, Copy, Debug, PartialEq, Eq, Structural)]
pub struct Overlay {
    pub open: bool,
}

impl Overlay {
    /// The state that `ev` leads to, and the action for the host.
    pub open spec fn step(self, ev: OverlayEvent) -> (Overlay, ObserverAction) {
        let opened = (Overlay { open: true }, if self.open { ObserverAction::Keep } else { ObserverAction::Attach });
        let closed = (Overlay { open: false }, if self.open { ObserverAction::Detach } else { ObserverAction::Keep });
        match ev {
            OverlayEvent::Open => opened,
            OverlayEvent::Close => closed,
            OverlayEvent::Toggle => if self.open { closed } else { opened },
            OverlayEvent::Escape => closed,
            OverlayEvent::OtherKey => (self, ObserverAction::Keep),
            OverlayEvent::PointerDown { inside } => if inside { (self, ObserverAction::Keep) } else { closed },
        }
    }

    /// The state after a sequence of events.
    pub open spec fn run(self, evs: Seq<OverlayEvent>) -> Overlay
        decreases evs.len(),
    {
        if evs.len() == 0 {
            self
        } else {
            self.run(evs.drop_last()).step(evs.last()).0
        }
    }

    /// Number of `Attach` actions minus number of `Detach` actions along a
    /// sequence of events.
    pub open spec fn observer_balance(self, evs: Seq<OverlayEvent>) -> int
        decreases evs.len(),
    {
        if evs.len() == 0 {
            0
        } else {
            let before = self.run(evs.drop_last());
            let delta = match before.step(evs.last()).1 {
                ObserverAction::Attach => 1int,
                ObserverAction::Detach => -1int,
                ObserverAction::Keep => 0int,
            };
            self.observer_balance(evs.drop_last()) + delta
        }
    }

    /// A closed overlay (dropdowns start closed).
    pub fn new() -> (r: Overlay)
        ensures
            !r.open,
    {
        Overlay { open: false }
    }

    /// An overlay whose initial visibility the caller chooses (modals).
    pub fn with_open(open: bool) -> (r: Overlay)
        ensures
            r.open == open,
    {
        Overlay { open }
    }

    pub fn is_open(&self) -> (r: bool)
        ensures
            r == self.open,
    {
        self.open
    }

    /// Applies one event.
    pub fn handle(&mut self, ev: OverlayEvent) -> (r: ObserverAction)
        ensures
            (*final(self), r) == old(self).step(ev),
    {
        let was_open = self.open;
        match ev {
            OverlayEvent::Open => {
                self.open = true;
                if was_open { ObserverAction::Keep } else { ObserverAction::Attach }
            },
            OverlayEvent::Toggle if !was_open => {
                self.open = true;
                ObserverAction::Attach
            },
            OverlayEvent::OtherKey | OverlayEvent::PointerDown { inside: true } => ObserverAction::Keep,
            _ => {
                self.open = false;
                if was_open { ObserverAction::Detach } else { ObserverAction::Keep }
            },
        }
    }

    /// Shows the overlay; registers the observers only on a real transition.
    pub fn open(&mut self) -> (r: ObserverAction)
        ensures
            (*final(self), r) == old(self).step(OverlayEvent::Open),
            final(self).open,
    {
        self.handle(OverlayEvent::Open)
    }

    /// Hides the overlay; closing a closed overlay changes nothing.
    pub fn close(&mut self) -> (r: ObserverAction)
        ensures
            (*final(self), r) == old(self).step(OverlayEvent::Close),
            !final(self).open,
            r == (if old(self).open { ObserverAction::Detach } else { ObserverAction::Keep }),
    {
        self.handle(OverlayEvent::Close)
    }

    /// Flips the visibility (a click on the trigger).
    pub fn toggle(&mut self) -> (r: ObserverAction)
        ensures
            (*final(self), r) == old(self).step(OverlayEvent::Toggle),
            final(self).open == !old(self).open,
    {
        self.handle(OverlayEvent::Toggle)
    }

    /// Feeds a key press, named as `KeyboardEvent.key` names it.
    pub fn on_key(&mut self, key: &String) -> (r: ObserverAction)
        ensures
            (*final(self), r) == old(self).step(key_event(key@)),
    {
        let ev = classify_key(key);
        self.handle(ev)
    }

    /// Feeds a pointer-down event; `inside` tells whether its target lies
    /// within the overlay's root element.
    pub fn on_pointer_down(&mut self, inside: bool) -> (r: ObserverAction)
        ensures
            (*final(self), r) == old(self).step(OverlayEvent::PointerDown { inside }),
            inside ==> *final(self) == *old(self) && r == ObserverAction::Keep,
            !inside ==> !final(self).open,
    {
        self.handle(OverlayEvent::PointerDown { inside })
    }
}

/// The event that a key press stands for.
pub open spec fn key_event(key: Seq<char>) -> OverlayEvent {
    if key == "Escape"@ {
        OverlayEvent::Escape
    } else {
        OverlayEvent::OtherKey
    }
}

/// Tells the Escape key from the others.
pub fn classify_key(key: &String) -> (r: OverlayEvent)
    ensures
        r == key_event(key@),
{
    let escape = String::from_str("Escape");
    if *key == escape {
        OverlayEvent::Escape
    } else {
        OverlayEvent::OtherKey
    }
}

/// Opening a closed overlay and then closing it gives back the closed overlay,
/// and the observers registered on opening are unregistered on closing.
pub proof fn lemma_open_then_close(s: Overlay)
    requires
        !s.open,
    ensures
        s.step(OverlayEvent::Open).0.step(OverlayEvent::Close).0 == s,
        s.step(OverlayEvent::Open).1 == ObserverAction::Attach,
        s.step(OverlayEvent::Open).0.step(OverlayEvent::Close).1 == ObserverAction::Detach,
{
}

/// While open, a pointer-down outside the root closes the overlay; a
/// pointer-down inside never changes it.
pub proof fn lemma_pointer_dismissal(s: Overlay)
    ensures
        s.open ==> s.step(OverlayEvent::PointerDown { inside: false }) == (
            Overlay { open: false },
            ObserverAction::Detach,
        ),
        s.step(OverlayEvent::PointerDown { inside: true }) == (s, ObserverAction::Keep),
{
}

/// Escape on a closed overlay changes nothing and notifies nobody.
pub proof fn lemma_escape_when_closed(s: Overlay, key: Seq<char>)
    requires
        !s.open,
    ensures
        s.step(key_event(key)) == (s, ObserverAction::Keep),
{
}

/// Along any sequence of events from a closed overlay, observers are attached
/// exactly once more than they are detached while it is open, and as often
/// as they are detached while it is closed: no observer is leaked or doubled.
pub proof fn lemma_observers_balanced(s: Overlay, evs: Seq<OverlayEvent>)
    requires
        !s.open,
    ensures
        s.observer_balance(evs) == if s.run(evs).open { 1int } else { 0int },
    decreases evs.len(),
{
    if evs.len() > 0 {
        lemma_observers_balanced(s, evs.drop_last());
    }
}

} // verus!
