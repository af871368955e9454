//! Transient notification: a single-shot timer that hides the toast and a
//! close callback that runs at most once.
use vstd::prelude::*;
use crate::classes::{class_join, class_list};

verus! {

/// Semantic colour of a toast.
#[derive(Clone, Copy, Debug, PartialEq, Eq, Structural)]
pub enum ToastVariant {
    Success,
    Error,
    Warning,
    Info,
}

impl ToastVariant {
    pub open spec fn spec_border_class(self) -> Seq<char> {
        match self {
            ToastVariant::Success => "border-bullish/30"@,
            ToastVariant::Error => "border-bearish/30"@,
            ToastVariant::Warning => "border-warning/30"@,
            ToastVariant::Info => "border-neutral/30"@,
        }
    }

    pub open spec fn spec_icon_color(self) -> Seq<char> {
        match self {
            ToastVariant::Success => "text-bullish"@,
            ToastVariant::Error => "text-bearish"@,
            ToastVariant::Warning => "text-warning"@,
            ToastVariant::Info => "text-neutral"@,
        }
    }

    pub open spec fn spec_icon_path(self) -> Seq<char> {
        match self {
            ToastVariant::Success => "M9 12l2 2 4-4m6 2a9 9 0 11-18 0 9 9 0 0118 0z"@,
            ToastVariant::Error => "M10 14l2-2m0 0l2-2m-2 2l-2-2m2 2l2 2m7-2a9 9 0 11-18 0 9 9 0 0118 0z"@,
            ToastVariant::Warning => "M12 9v2m0 4h.01m-6.938 4h13.856c1.54 0 2.502-1.667 1.732-3L13.732 4c-.77-1.333-2.694-1.333-3.464 0L3.34 16c-.77 1.333.192 3 1.732 3z"@,
            ToastVariant::Info => "M13 16h-1v-4h-1m1-4h.01M21 12a9 9 0 11-18 0 9 9 0 0118 0z"@,
        }
    }

    /// Border colour of the toast panel.
    pub fn border_class(&self) -> (r: &'static str)
        ensures
            r@ == self.spec_border_class(),
    {
        match self {
            ToastVariant::Success => "border-bullish/30",
            ToastVariant::Error => "border-bearish/30",
            ToastVariant::Warning => "border-warning/30",
            ToastVariant::Info => "border-neutral/30",
        }
    }

    /// Colour of the status icon.
    pub fn icon_color(&self) -> (r: &'static str)
        ensures
            r@ == self.spec_icon_color(),
    {
        match self {
            ToastVariant::Success => "text-bullish",
            ToastVariant::Error => "text-bearish",
            ToastVariant::Warning => "text-warning",
            ToastVariant::Info => "text-neutral",
        }
    }

    /// SVG path data of the status icon.
    pub fn icon_path(&self) -> (r: &'static str)
        ensures
            r@ == self.spec_icon_path(),
    {
        match self {
            ToastVariant::Success => "M9 12l2 2 4-4m6 2a9 9 0 11-18 0 9 9 0 0118 0z",
            ToastVariant::Error => "M10 14l2-2m0 0l2-2m-2 2l-2-2m2 2l2 2m7-2a9 9 0 11-18 0 9 9 0 0118 0z",
            ToastVariant::Warning => "M12 9v2m0 4h.01m-6.938 4h13.856c1.54 0 2.502-1.667 1.732-3L13.732 4c-.77-1.333-2.694-1.333-3.464 0L3.34 16c-.77 1.333.192 3 1.732 3z",
            ToastVariant::Info => "M13 16h-1v-4h-1m1-4h.01M21 12a9 9 0 11-18 0 9 9 0 0118 0z",
        }
    }
}

/// Default display time of a toast, in milliseconds.
pub const DEFAULT_TOAST_DURATION: u32 = 3000;

/// What a toast shows and for how long.
#[derive(Clone, Debug)]
pub struct ToastProps {
    pub message: String,
    pub variant: ToastVariant,
    pub subtitle: Option<String>,
    /// Display time in milliseconds.
    pub duration: u32,
}

/// An input to a toast's lifecycle.
#[derive(Clone, Copy, Debug, PartialEq, Eq, Structural)]
pub enum ToastEvent {
    /// Virtual time moved forward by `ms` milliseconds.
    Advance { ms: u64 },
    /// The host's timer went off.
    Expire,
    /// The close button was clicked.
    Close,
    /// The toast is being removed from the page.
    Unmount,
}

/// Visibility and pending timer of one toast.
#[derive(Clone, Copy, Debug, PartialEq, Eq, Structural)]
pub struct ToastTimer {
    pub visible: bool,
    /// Whether the single-shot timer is still armed.
    pub pending: bool,
    /// Milliseconds left before the timer goes off.
    pub remaining: u64,
}

impl ToastTimer {
    /// The toast as created: shown, with its timer armed for `duration` ms.
    pub open spec fn initial(duration: u32) -> ToastTimer {
        ToastTimer { visible: true, pending: true, remaining: duration as u64 }
    }

    /// Hides the toast and disarms the timer; the callback runs iff the
    /// toast was still shown.
    pub open spec fn dismissed(self) -> (ToastTimer, bool) {
        (ToastTimer { visible: false, pending: false, remaining: self.remaining }, self.visible)
    }

    /// The state that `ev` leads to, and whether the close callback runs.
    pub open spec fn step(self, ev: ToastEvent) -> (ToastTimer, bool) {
        match ev {
            ToastEvent::Advance { ms } => if !self.pending {
                (self, false)
            } else if ms >= self.remaining {
                self.dismissed()
            } else {
                (ToastTimer { remaining: (self.remaining - ms) as u64, ..self }, false)
            },
            ToastEvent::Expire => if self.pending { self.dismissed() } else { (self, false) },
            ToastEvent::Close => self.dismissed(),
            ToastEvent::Unmount => (ToastTimer { pending: false, ..self }, false),
        }
    }

    /// The state after a sequence of events.
    pub open spec fn run(self, evs: Seq<ToastEvent>) -> ToastTimer
        decreases evs.len(),
    {
        if evs.len() == 0 {
            self
        } else {
            self.run(evs.drop_last()).step(evs.last()).0
        }
    }

    /// How many times the close callback runs along a sequence of events.
    pub open spec fn notifications(self, evs: Seq<ToastEvent>) -> nat
        decreases evs.len(),
    {
        if evs.len() == 0 {
            0
        } else {
            let fired = self.run(evs.drop_last()).step(evs.last()).1;
            self.notifications(evs.drop_last()) + if fired { 1nat } else { 0nat }
        }
    }

    /// Creates a shown toast and arms its timer.
    pub fn new(duration: u32) -> (r: ToastTimer)
        ensures
            r == ToastTimer::initial(duration),
    {
        ToastTimer { visible: true, pending: true, remaining: duration as u64 }
    }

    pub fn is_visible(&self) -> (r: bool)
        ensures
            r == self.visible,
    {
        self.visible
    }

    fn hide_now(&mut self) -> (r: bool)
        ensures
            (*final(self), r) == old(self).dismissed(),
    {
        let was_visible = self.visible;
        self.visible = false;
        self.pending = false;
        was_visible
    }

    /// Applies one event; returns whether the close callback must run now.
    pub fn handle(&mut self, ev: ToastEvent) -> (r: bool)
        ensures
            (*final(self), r) == old(self).step(ev),
    {
        match ev {
            ToastEvent::Advance { ms } => {
                if !self.pending {
                    false
                } else if ms >= self.remaining {
                    self.hide_now()
                } else {
                    self.remaining = self.remaining - ms;
                    false
                }
            },
            ToastEvent::Expire => {
                if self.pending {
                    self.hide_now()
                } else {
                    false
                }
            },
            ToastEvent::Close => self.hide_now(),
            ToastEvent::Unmount => {
                self.pending = false;
                false
            },
        }
    }

    /// Moves virtual time forward by `ms` milliseconds.
    pub fn advance(&mut self, ms: u64) -> (r: bool)
        ensures
            (*final(self), r) == old(self).step(ToastEvent::Advance { ms }),
    {
        self.handle(ToastEvent::Advance { ms })
    }

    /// The host's timer went off.
    pub fn expire(&mut self) -> (r: bool)
        ensures
            (*final(self), r) == old(self).step(ToastEvent::Expire),
    {
        self.handle(ToastEvent::Expire)
    }

    /// Explicit close: hides the toast and cancels the pending timer.
    pub fn close(&mut self) -> (r: bool)
        ensures
            (*final(self), r) == old(self).step(ToastEvent::Close),
            !final(self).visible,
            !final(self).pending,
            r == old(self).visible,
    {
        self.handle(ToastEvent::Close)
    }

    /// Cancels the pending timer without running the callback.
    pub fn unmount(&mut self)
        ensures
            (*final(self), false) == old(self).step(ToastEvent::Unmount),
    {
        self.handle(ToastEvent::Unmount);
    }
}

/// Whatever happens to a toast, its close callback runs at most once: exactly
/// once if the toast went from shown to hidden, never otherwise. A hidden
/// toast never shows again.
pub proof fn lemma_notified_at_most_once(s: ToastTimer, evs: Seq<ToastEvent>)
    ensures
        s.notifications(evs) == if s.visible && !s.run(evs).visible { 1nat } else { 0nat },
        s.notifications(evs) <= 1,
        s.run(evs).visible ==> s.visible,
    decreases evs.len(),
{
    if evs.len() > 0 {
        lemma_notified_at_most_once(s, evs.drop_last());
        let x = s.run(evs.drop_last());
        let (y, fired) = x.step(evs.last());
        assert(y.visible ==> x.visible);
        assert(fired == (x.visible && !y.visible));
    }
}

/// A toast whose time has fully elapsed is hidden, and its callback runs on
/// that step.
pub proof fn lemma_expires_after_duration(duration: u32, ms: u64)
    requires
        ms >= duration,
    ensures
        !ToastTimer::initial(duration).step(ToastEvent::Advance { ms }).0.visible,
        ToastTimer::initial(duration).step(ToastEvent::Advance { ms }).1,
{
}

/// A toast closed before its time is up notifies on the close, and its timer
/// can no longer notify again.
pub proof fn lemma_close_cancels_timer(duration: u32, early: u64, later: u64)
    requires
        early < duration,
    ensures
        ({
            let s1 = ToastTimer::initial(duration).step(ToastEvent::Advance { ms: early }).0;
            let (s2, fired) = s1.step(ToastEvent::Close);
            &&& fired
            &&& !s2.visible
            &&& !s2.step(ToastEvent::Advance { ms: later }).1
            &&& !s2.step(ToastEvent::Expire).1
        }),
{
}

/// The render decisions of a shown toast.
#[derive(Clone, Debug)]
pub struct ToastView {
    pub panel_class: String,
    pub icon_class: String,
    pub icon_path: &'static str,
    pub message: String,
    pub subtitle: Option<String>,
}

/// Describes the toast, or nothing once it is hidden.
pub fn toast(props: &ToastProps, timer: &ToastTimer) -> (r: Option<ToastView>)
    ensures
        r is None <==> !timer.visible,
        r matches Some(v) ==> {
            &&& v.panel_class@ == class_join(seq![
                "flex"@, "items-start"@, "gap-3"@, "p-4"@, "bg-bg-elevated"@, "border"@,
                "rounded-md"@, "shadow-lg"@, props.variant.spec_border_class(),
            ])
            &&& v.icon_class@ == class_join(seq!["w-5"@, "h-5"@, props.variant.spec_icon_color()])
            &&& v.icon_path@ == props.variant.spec_icon_path()
            &&& v.message@ == props.message@
            &&& v.subtitle == props.subtitle
        },
{
    if !timer.visible {
        return None;
    }
    let parts = vec![
        "flex", "items-start", "gap-3", "p-4", "bg-bg-elevated", "border", "rounded-md",
        "shadow-lg", props.variant.border_class(),
    ];
    let panel_class = class_list(&parts);
    assert(crate::classes::fragment_views(parts@) =~= seq![
        "flex"@, "items-start"@, "gap-3"@, "p-4"@, "bg-bg-elevated"@, "border"@,
        "rounded-md"@, "shadow-lg"@, props.variant.spec_border_class(),
    ]);
    let icon_parts = vec!["w-5", "h-5", props.variant.icon_color()];
    let icon_class = class_list(&icon_parts);
    assert(crate::classes::fragment_views(icon_parts@) =~= seq![
        "w-5"@, "h-5"@, props.variant.spec_icon_color(),
    ]);
    Some(ToastView {
        panel_class,
        icon_class,
        icon_path: props.variant.icon_path(),
        message: props.message.clone(),
        subtitle: props.subtitle.clone(),
    })
}

} // verus!
