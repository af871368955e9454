//! Segmented switch between views; one tab is the active one.
use vstd::prelude::*;

verus! {

#[derive(Clone, Debug, PartialEq)]
pub struct Tab {
    pub id: String,
    pub label: String,
}

impl Tab {
    pub fn new(id: &str, label: &str) -> (r: Tab)
        ensures
            r.id@ == id@,
            r.label@ == label@,
    {
        Tab { id: id.to_owned(), label: label.to_owned() }
    }
}

/// The plain-valued properties of a tab strip; the change handler is the
/// host's and receives the id of the clicked tab.
#[derive(Clone, Debug)]
pub struct TabsProps {
    pub tabs: Vec<Tab>,
    /// Id of the active tab.
    pub active: String,
}

pub open spec fn spec_tab_class(active: bool) -> Seq<char> {
    if active {
        "px-4 py-2 rounded text-sm font-medium bg-bg-tertiary text-text-primary border-b-2 border-accent transition-colors"@
    } else {
        "px-4 py-2 rounded text-sm font-medium text-text-tertiary hover:bg-bg-tertiary/50 hover:text-text-primary transition-colors"@
    }
}

/// One rendered tab button.
#[derive(Clone, Debug)]
pub struct TabButton {
    /// Handed to the change handler on click.
    pub id: String,
    pub label: String,
    pub active: bool,
    pub class: &'static str,
}

/// Describes the tab strip: one button per tab, in order, highlighted when
/// its id is the active one.
pub fn tabs(props: &TabsProps) -> (r: Vec<TabButton>)
    ensures
        r@.len() == props.tabs@.len(),
        forall|i: int|
            0 <= i < r@.len() ==> {
                &&& #[trigger] r@[i].id@ == props.tabs@[i].id@
                &&& r@[i].label@ == props.tabs@[i].label@
                &&& r@[i].active == (props.tabs@[i].id@ == props.active@)
                &&& r@[i].class@ == spec_tab_class(r@[i].active)
            },
{
    let mut out: Vec<TabButton> = Vec::new();
    let mut i: usize = 0;
    while i < props.tabs.len()
        invariant
            0 <= i <= props.tabs@.len(),
            out@.len() == i,
            forall|j: int|
                0 <= j < i ==> {
                    &&& (#[trigger] out@[j]).id@ == props.tabs@[j].id@
                    &&& out@[j].label@ == props.tabs@[j].label@
                    &&& out@[j].active == (props.tabs@[j].id@ == props.active@)
                    &&& out@[j].class@ == spec_tab_class(out@[j].active)
                },
        decreases props.tabs@.len() - i,
    {
        let tab = &props.tabs[i];
        let active = tab.id == props.active;
        let class = if active {
            "px-4 py-2 rounded text-sm font-medium bg-bg-tertiary text-text-primary border-b-2 border-accent transition-colors"
        } else {
            "px-4 py-2 rounded text-sm font-medium text-text-tertiary hover:bg-bg-tertiary/50 hover:text-text-primary transition-colors"
        };
        out.push(TabButton { id: tab.id.clone(), label: tab.label.clone(), active, class });
        i = i + 1;
    }
    out
}

} // verus!
