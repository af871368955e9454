//! Hover help bubble. It has no state: the bubble is always rendered and
//! shown by the container's hover style.
use vstd::prelude::*;
use crate::classes::{class_join, class_list, fragment_views};

verus! {

/// Side of the trigger on which the bubble appears.
#[derive(Clone, Copy, Debug, PartialEq, Eq, Structural)]
pub enum TooltipPosition {
    Top,
    Bottom,
    Left,
    Right,
}

impl TooltipPosition {
    pub open spec fn spec_container_class(self) -> Seq<char> {
        match self {
            TooltipPosition::Top => "bottom-full left-1/2 -translate-x-1/2 mb-2"@,
            TooltipPosition::Bottom => "top-full left-1/2 -translate-x-1/2 mt-2"@,
            TooltipPosition::Left => "right-full top-1/2 -translate-y-1/2 mr-2"@,
            TooltipPosition::Right => "left-full top-1/2 -translate-y-1/2 ml-2"@,
        }
    }

    pub open spec fn spec_arrow_position_class(self) -> Seq<char> {
        match self {
            TooltipPosition::Top => "top-full left-1/2 -translate-x-1/2 -mt-px"@,
            TooltipPosition::Bottom => "bottom-full left-1/2 -translate-x-1/2 mb-px"@,
            TooltipPosition::Left => "left-full top-1/2 -translate-y-1/2 ml-px"@,
            TooltipPosition::Right => "right-full top-1/2 -translate-y-1/2 mr-px"@,
        }
    }

    pub open spec fn spec_arrow_border_class(self) -> Seq<char> {
        match self {
            TooltipPosition::Top => "border-4 border-transparent border-t-bg-elevated"@,
            TooltipPosition::Bottom => "border-4 border-transparent border-b-bg-elevated"@,
            TooltipPosition::Left => "border-4 border-transparent border-l-bg-elevated"@,
            TooltipPosition::Right => "border-4 border-transparent border-r-bg-elevated"@,
        }
    }

    /// Placement of the bubble relative to the trigger.
    pub fn container_class(&self) -> (r: &'static str)
        ensures
            r@ == self.spec_container_class(),
    {
        match self {
            TooltipPosition::Top => "bottom-full left-1/2 -translate-x-1/2 mb-2",
            TooltipPosition::Bottom => "top-full left-1/2 -translate-x-1/2 mt-2",
            TooltipPosition::Left => "right-full top-1/2 -translate-y-1/2 mr-2",
            TooltipPosition::Right => "left-full top-1/2 -translate-y-1/2 ml-2",
        }
    }

    /// Placement of the arrow relative to the bubble.
    pub fn arrow_position_class(&self) -> (r: &'static str)
        ensures
            r@ == self.spec_arrow_position_class(),
    {
        match self {
            TooltipPosition::Top => "top-full left-1/2 -translate-x-1/2 -mt-px",
            TooltipPosition::Bottom => "bottom-full left-1/2 -translate-x-1/2 mb-px",
            TooltipPosition::Left => "left-full top-1/2 -translate-y-1/2 ml-px",
            TooltipPosition::Right => "right-full top-1/2 -translate-y-1/2 mr-px",
        }
    }

    /// Border triangle that points the arrow at the trigger.
    pub fn arrow_border_class(&self) -> (r: &'static str)
        ensures
            r@ == self.spec_arrow_border_class(),
    {
        match self {
            TooltipPosition::Top => "border-4 border-transparent border-t-bg-elevated",
            TooltipPosition::Bottom => "border-4 border-transparent border-b-bg-elevated",
            TooltipPosition::Left => "border-4 border-transparent border-l-bg-elevated",
            TooltipPosition::Right => "border-4 border-transparent border-r-bg-elevated",
        }
    }
}

/// The plain-valued properties of a tooltip; the trigger is host markup.
#[derive(Clone, Debug)]
pub struct TooltipProps {
    pub content: String,
    pub position: TooltipPosition,
    /// Multi-line content, wrapped at a maximum width.
    pub rich: bool,
}

/// The render decisions of a tooltip.
#[derive(Clone, Debug)]
pub struct TooltipView {
    pub content: String,
    pub bubble_class: String,
    pub content_class: String,
    pub arrow_class: String,
    pub arrow_border_class: &'static str,
}

/// Describes the tooltip.
pub fn tooltip(props: &TooltipProps) -> (r: TooltipView)
    ensures
        r.content@ == props.content@,
        r.bubble_class@ == class_join(seq![
            "invisible"@, "group-hover:visible"@, "absolute"@, "z-50"@,
            props.position.spec_container_class(),
        ]),
        r.content_class@ == class_join(seq![
            "bg-bg-elevated border border-border-default rounded px-2 py-1 shadow-lg"@,
            if props.rich { "max-w-xs"@ } else { "whitespace-nowrap"@ },
        ]),
        r.arrow_class@ == class_join(seq!["absolute"@, props.position.spec_arrow_position_class()]),
        r.arrow_border_class@ == props.position.spec_arrow_border_class(),
{
    let bubble_parts = vec!["invisible", "group-hover:visible", "absolute", "z-50", props.position.container_class()];
    let bubble_class = class_list(&bubble_parts);
    assert(fragment_views(bubble_parts@) =~= seq![
        "invisible"@, "group-hover:visible"@, "absolute"@, "z-50"@,
        props.position.spec_container_class(),
    ]);
    let width = if props.rich { "max-w-xs" } else { "whitespace-nowrap" };
    let content_parts = vec!["bg-bg-elevated border border-border-default rounded px-2 py-1 shadow-lg", width];
    let content_class = class_list(&content_parts);
    assert(fragment_views(content_parts@) =~= seq![
        "bg-bg-elevated border border-border-default rounded px-2 py-1 shadow-lg"@,
        width@,
    ]);
    let arrow_parts = vec!["absolute", props.position.arrow_position_class()];
    let arrow_class = class_list(&arrow_parts);
    assert(fragment_views(arrow_parts@) =~= seq!["absolute"@, props.position.spec_arrow_position_class()]);
    TooltipView {
        content: props.content.clone(),
        bubble_class,
        content_class,
        arrow_class,
        arrow_border_class: props.position.arrow_border_class(),
    }
}

} // verus!
