//! Collapsible section: a summary that is always shown and a content region
//! that a click on the summary shows or hides.
use vstd::prelude::*;

verus! {

/// The plain-valued properties of an accordion. The badges and the content
/// are host markup, placed by the adapter.
#[derive(Clone, Debug)]
pub struct AccordionProps {
    pub title: String,
    pub subtitle: Option<String>,
    /// Whether the content region starts expanded.
    pub default_open: bool,
}

/// Expanded/collapsed flag of one accordion.
#[derive(Clone, Copy, Debug, PartialEq, Eq, Structural)]
pub struct AccordionState {
    pub open: bool,
}

impl AccordionState {
    /// The state after a click on the summary.
    pub open spec fn toggled(self) -> AccordionState {
        AccordionState { open: !self.open }
    }

    /// The state on first render.
    pub fn new(default_open: bool) -> (r: AccordionState)
        ensures
            r.open == default_open,
    {
        AccordionState { open: default_open }
    }

    /// A click on the summary.
    pub fn toggle(&mut self)
        ensures
            *final(self) == old(self).toggled(),
    {
        self.open = !self.open;
    }
}

/// Toggling twice gives back the state one started from.
pub proof fn lemma_toggle_twice(s: AccordionState)
    ensures
        s.toggled().toggled() == s,
        s.toggled().open != s.open,
{
}

pub open spec fn spec_chevron_class(open: bool) -> Seq<char> {
    if open {
        "w-5 h-5 text-text-tertiary transition-transform rotate-180"@
    } else {
        "w-5 h-5 text-text-tertiary transition-transform"@
    }
}

/// The render decisions of an accordion.
#[derive(Clone, Debug)]
pub struct AccordionView {
    pub title: String,
    pub subtitle: Option<String>,
    /// Class of the chevron, turned upside down while expanded.
    pub chevron_class: &'static str,
    /// Whether the content region is rendered.
    pub content_visible: bool,
}

/// Describes the accordion in the given state.
pub fn accordion(props: &AccordionProps, state: &AccordionState) -> (r: AccordionView)
    ensures
        r.title@ == props.title@,
        r.subtitle == props.subtitle,
        r.chevron_class@ == spec_chevron_class(state.open),
        r.content_visible == state.open,
{
    let chevron_class = if state.open {
        "w-5 h-5 text-text-tertiary transition-transform rotate-180"
    } else {
        "w-5 h-5 text-text-tertiary transition-transform"
    };
    AccordionView {
        title: props.title.clone(),
        subtitle: props.subtitle.clone(),
        chevron_class,
        content_visible: state.open,
    }
}

} // verus!
