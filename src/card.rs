//! Bordered container, optionally elevated, hoverable or clickable.
use vstd::prelude::*;
use crate::classes::{class_join, class_list, fragment_views};

verus! {

#[derive(Clone, Copy, Debug, PartialEq, Eq, Structural)]
pub enum CardPadding {
    /// Content touches the border.
    Flush,
    Small,
    Medium,
    Large,
}

impl CardPadding {
    pub open spec fn spec_class(self) -> Seq<char> {
        match self {
            CardPadding::Flush => ""@,
            CardPadding::Small => "p-3"@,
            CardPadding::Medium => "p-4"@,
            CardPadding::Large => "p-6"@,
        }
    }

    pub fn class(&self) -> (r: &'static str)
        ensures
            r@ == self.spec_class(),
    {
        match self {
            CardPadding::Flush => "",
            CardPadding::Small => "p-3",
            CardPadding::Medium => "p-4",
            CardPadding::Large => "p-6",
        }
    }
}

/// Background, border and shadow of a surface, raised or flat.
pub open spec fn spec_surface(elevated: bool) -> (Seq<char>, Seq<char>, Seq<char>) {
    if elevated {
        ("bg-bg-elevated"@, "border-border-emphasis"@, "shadow-md"@)
    } else {
        ("bg-bg-secondary"@, "border-border-default"@, ""@)
    }
}

/// Background, border and shadow classes of a surface.
pub fn surface(elevated: bool) -> (r: (&'static str, &'static str, &'static str))
    ensures
        (r.0@, r.1@, r.2@) == spec_surface(elevated),
{
    if elevated {
        ("bg-bg-elevated", "border-border-emphasis", "shadow-md")
    } else {
        ("bg-bg-secondary", "border-border-default", "")
    }
}

/// The plain-valued properties of a card; the content and the click handler
/// are the host's.
#[derive(Clone, Copy, Debug, PartialEq, Eq, Structural)]
pub struct CardProps {
    pub padding: CardPadding,
    pub elevated: bool,
    pub hoverable: bool,
    /// Whether the host supplied a click handler.
    pub clickable: bool,
}

pub open spec fn spec_card_hover(hoverable: bool) -> Seq<char> {
    if hoverable { "hover:bg-bg-tertiary transition-colors cursor-pointer"@ } else { ""@ }
}

/// The class of a card's wrapper element.
pub open spec fn spec_card_class(props: CardProps) -> Seq<char> {
    let (bg, border, shadow) = spec_surface(props.elevated);
    let lead = if props.clickable {
        seq!["border"@, "rounded-md"@, "text-left"@, "w-full"@]
    } else {
        seq!["border"@, "rounded-md"@]
    };
    class_join(lead + seq![border, bg, shadow, props.padding.spec_class(), spec_card_hover(props.hoverable)])
}

/// The render decisions of a card.
#[derive(Clone, Debug)]
pub struct CardView {
    /// The wrapper is a `<button>` when clickable, a `<div>` otherwise.
    pub as_button: bool,
    pub class: String,
}

/// Describes the card.
pub fn card(props: &CardProps) -> (r: CardView)
    ensures
        r.as_button == props.clickable,
        r.class@ == spec_card_class(*props),
{
    let (bg, border, shadow) = surface(props.elevated);
    let hover = if props.hoverable { "hover:bg-bg-tertiary transition-colors cursor-pointer" } else { "" };
    let mut parts: Vec<&str> = vec!["border", "rounded-md"];
    if props.clickable {
        parts.push("text-left");
        parts.push("w-full");
    }
    parts.push(border);
    parts.push(bg);
    parts.push(shadow);
    parts.push(props.padding.class());
    parts.push(hover);
    let class = class_list(&parts);
    proof {
        let lead = if props.clickable {
            seq!["border"@, "rounded-md"@, "text-left"@, "w-full"@]
        } else {
            seq!["border"@, "rounded-md"@]
        };
        assert(fragment_views(parts@) =~= lead + seq![
            border@, bg@, shadow@, props.padding.spec_class(), spec_card_hover(props.hoverable),
        ]);
    }
    CardView { as_button: props.clickable, class }
}

} // verus!
