//! Compact status label.
use vstd::prelude::*;
use crate::classes::{class_join, class_list, fragment_views};

verus! {

/// Semantic colour of a badge.
#[derive(Clone, Copy, Debug, PartialEq, Eq, Structural)]
pub enum BadgeVariant {
    Bullish,
    Bearish,
    Neutral,
    Warning,
}

impl BadgeVariant {
    pub open spec fn spec_classes(self) -> Seq<char> {
        match self {
            BadgeVariant::Bullish => "bg-bullish/10 text-bullish border-bullish/30"@,
            BadgeVariant::Bearish => "bg-bearish/10 text-bearish border-bearish/30"@,
            BadgeVariant::Neutral => "bg-neutral/10 text-neutral border-neutral/30"@,
            BadgeVariant::Warning => "bg-warning/10 text-warning border-warning/30"@,
        }
    }

    /// Background, text and border colours of the variant.
    pub fn classes(&self) -> (r: &'static str)
        ensures
            r@ == self.spec_classes(),
    {
        match self {
            BadgeVariant::Bullish => "bg-bullish/10 text-bullish border-bullish/30",
            BadgeVariant::Bearish => "bg-bearish/10 text-bearish border-bearish/30",
            BadgeVariant::Neutral => "bg-neutral/10 text-neutral border-neutral/30",
            BadgeVariant::Warning => "bg-warning/10 text-warning border-warning/30",
        }
    }
}

#[derive(Clone, Debug)]
pub struct BadgeProps {
    pub variant: BadgeVariant,
    pub text: String,
}

/// The render decisions of a badge.
#[derive(Clone, Debug)]
pub struct BadgeView {
    pub class: String,
    pub text: String,
}

/// Describes the badge.
pub fn badge(props: &BadgeProps) -> (r: BadgeView)
    ensures
        r.text@ == props.text@,
        r.class@ == class_join(seq![
            "inline-flex"@, "items-center"@, "px-3"@, "py-1"@, "rounded"@, "text-xs"@,
            "font-medium"@, "border"@, props.variant.spec_classes(),
        ]),
{
    let parts = vec![
        "inline-flex", "items-center", "px-3", "py-1", "rounded", "text-xs", "font-medium",
        "border", props.variant.classes(),
    ];
    let class = class_list(&parts);
    assert(fragment_views(parts@) =~= seq![
        "inline-flex"@, "items-center"@, "px-3"@, "py-1"@, "rounded"@, "text-xs"@,
        "font-medium"@, "border"@, props.variant.spec_classes(),
    ]);
    BadgeView { class, text: props.text.clone() }
}

} // verus!
