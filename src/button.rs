//! Action button in four styles and three sizes.
use vstd::prelude::*;
use crate::classes::{class_join, class_list, fragment_views};

verus! {

#[derive(Clone, Copy, Debug, PartialEq, Eq, Structural)]
pub enum ButtonVariant {
    /// Main action: accent background, white text.
    Primary,
    /// Secondary action: subtle background with a border.
    Secondary,
    /// Quiet action: no background until hovered.
    Subtle,
    /// Destructive action: red background.
    Danger,
}

impl ButtonVariant {
    pub open spec fn spec_classes(self) -> Seq<char> {
        match self {
            ButtonVariant::Primary => "bg-accent text-white hover:bg-accent-hover active:bg-accent-active"@,
            ButtonVariant::Secondary => "bg-bg-tertiary text-text-primary border border-border-default hover:bg-bg-elevated"@,
            ButtonVariant::Subtle => "text-text-primary hover:bg-bg-tertiary"@,
            ButtonVariant::Danger => "bg-bearish text-white hover:bg-bearish-dark active:bg-bearish-dark"@,
        }
    }

    pub fn classes(&self) -> (r: &'static str)
        ensures
            r@ == self.spec_classes(),
    {
        match self {
            ButtonVariant::Primary => "bg-accent text-white hover:bg-accent-hover active:bg-accent-active",
            ButtonVariant::Secondary => "bg-bg-tertiary text-text-primary border border-border-default hover:bg-bg-elevated",
            ButtonVariant::Subtle => "text-text-primary hover:bg-bg-tertiary",
            ButtonVariant::Danger => "bg-bearish text-white hover:bg-bearish-dark active:bg-bearish-dark",
        }
    }
}

#[derive(Clone, Copy, Debug, PartialEq, Eq, Structural)]
pub enum ButtonSize {
    Small,
    Medium,
    Large,
}

impl ButtonSize {
    pub open spec fn spec_classes(self) -> Seq<char> {
        match self {
            ButtonSize::Small => "px-3 py-1.5 rounded text-xs"@,
            ButtonSize::Medium => "px-4 py-2 rounded-md text-sm"@,
            ButtonSize::Large => "px-6 py-3 rounded-md text-base font-semibold"@,
        }
    }

    pub fn classes(&self) -> (r: &'static str)
        ensures
            r@ == self.spec_classes(),
    {
        match self {
            ButtonSize::Small => "px-3 py-1.5 rounded text-xs",
            ButtonSize::Medium => "px-4 py-2 rounded-md text-sm",
            ButtonSize::Large => "px-6 py-3 rounded-md text-base font-semibold",
        }
    }
}

/// The plain-valued properties of a button; the click handler and the label
/// are the host's.
#[derive(Clone, Copy, Debug, PartialEq, Eq, Structural)]
pub struct ButtonProps {
    pub variant: ButtonVariant,
    pub size: ButtonSize,
    pub disabled: bool,
}

/// The render decisions of a button.
#[derive(Clone, Debug)]
pub struct ButtonView {
    pub class: String,
    pub disabled: bool,
    /// Whether a click reaches the host's handler.
    pub forwards_clicks: bool,
}

/// Describes the button; a disabled button swallows clicks.
pub fn button(props: &ButtonProps) -> (r: ButtonView)
    ensures
        r.disabled == props.disabled,
        r.forwards_clicks == !props.disabled,
        r.class@ == class_join(seq![
            "inline-flex items-center justify-center font-medium transition-colors disabled:opacity-50 disabled:cursor-not-allowed"@,
            props.variant.spec_classes(),
            props.size.spec_classes(),
        ]),
{
    let parts = vec![
        "inline-flex items-center justify-center font-medium transition-colors disabled:opacity-50 disabled:cursor-not-allowed",
        props.variant.classes(),
        props.size.classes(),
    ];
    let class = class_list(&parts);
    assert(fragment_views(parts@) =~= seq![
        "inline-flex items-center justify-center font-medium transition-colors disabled:opacity-50 disabled:cursor-not-allowed"@,
        props.variant.spec_classes(),
        props.size.spec_classes(),
    ]);
    ButtonView { class, disabled: props.disabled, forwards_clicks: !props.disabled }
}

} // verus!
