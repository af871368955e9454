//! Menu that opens under a trigger button. Its visibility is an
//! [`Overlay`]: Escape, a pointer-down outside the root element and choosing
//! an item dismiss it.
use vstd::prelude::*;
use crate::classes::{class_join, class_list, fragment_views};
use crate::overlay::Overlay;

verus! {

/// Horizontal alignment of a dropdown menu relative to its trigger.
#[derive(Clone, Copy, Debug, PartialEq, Eq, Structural)]
pub enum DropdownPosition {
    Left,
    Right,
}

impl DropdownPosition {
    pub open spec fn spec_class(self) -> Seq<char> {
        match self {
            DropdownPosition::Left => "left-0"@,
            DropdownPosition::Right => "right-0"@,
        }
    }

    /// Utility class that anchors the menu on the chosen side.
    pub fn class(&self) -> (r: &'static str)
        ensures
            r@ == self.spec_class(),
    {
        match self {
            DropdownPosition::Left => "left-0",
            DropdownPosition::Right => "right-0",
        }
    }
}


/// The plain-valued properties of a dropdown; trigger and items are host
/// markup.
#[derive(Clone, Copy, Debug, PartialEq, Eq, Structural)]
pub struct DropdownProps {
    pub position: DropdownPosition,
}

/// Describes the dropdown: the class of its menu while open, nothing while
/// closed.
pub fn dropdown(props: &DropdownProps, overlay: &Overlay) -> (r: Option<String>)
    ensures
        r is None <==> !overlay.open,
        r matches Some(c) ==> c@ == class_join(seq![
            "absolute mt-2 min-w-[14rem] bg-bg-elevated border border-border-emphasis rounded-md shadow-xl z-50"@,
            props.position.spec_class(),
        ]),
{
    if !overlay.is_open() {
        return None;
    }
    let parts = vec![
        "absolute mt-2 min-w-[14rem] bg-bg-elevated border border-border-emphasis rounded-md shadow-xl z-50",
        props.position.class(),
    ];
    let menu_class = class_list(&parts);
    assert(fragment_views(parts@) =~= seq![
        "absolute mt-2 min-w-[14rem] bg-bg-elevated border border-border-emphasis rounded-md shadow-xl z-50"@,
        props.position.spec_class(),
    ]);
    Some(menu_class)
}

/// The plain-valued properties of a menu item; its label and click handler
/// are the host's.
#[derive(Clone, Copy, Debug, PartialEq, Eq, Structural)]
pub struct DropdownItemProps {
    /// Destructive actions are shown in red.
    pub danger: bool,
}

pub open spec fn spec_item_text_class(danger: bool) -> Seq<char> {
    if danger {
        "text-bearish hover:bg-bearish/10"@
    } else {
        "text-text-primary hover:bg-bg-tertiary"@
    }
}

/// The class of a menu item's button.
pub fn dropdown_item(props: &DropdownItemProps) -> (r: String)
    ensures
        r@ == class_join(seq![
            "w-full text-left px-4 py-2 text-sm transition-colors"@,
            spec_item_text_class(props.danger),
        ]),
{
    let text_class = if props.danger {
        "text-bearish hover:bg-bearish/10"
    } else {
        "text-text-primary hover:bg-bg-tertiary"
    };
    let parts = vec!["w-full text-left px-4 py-2 text-sm transition-colors", text_class];
    let r = class_list(&parts);
    assert(fragment_views(parts@) =~= seq![
        "w-full text-left px-4 py-2 text-sm transition-colors"@,
        spec_item_text_class(props.danger),
    ]);
    r
}

/// The class of the rule between two groups of items.
pub fn dropdown_divider() -> (r: &'static str)
    ensures
        r@ == "my-2 border-t border-border-subtle"@,
{
    "my-2 border-t border-border-subtle"
}

#[derive(Clone, Debug)]
pub struct DropdownGroupProps {
    pub title: String,
}

/// The render decisions of a titled group of items.
#[derive(Clone, Debug)]
pub struct DropdownGroupView {
    pub title: String,
    pub heading_class: &'static str,
}

/// Describes a group heading.
pub fn dropdown_group(props: &DropdownGroupProps) -> (r: DropdownGroupView)
    ensures
        r.title@ == props.title@,
        r.heading_class@ == "text-xs font-semibold text-text-tertiary uppercase tracking-wide"@,
{
    DropdownGroupView {
        title: props.title.clone(),
        heading_class: "text-xs font-semibold text-text-tertiary uppercase tracking-wide",
    }
}

} // verus!
