//! Native select box with a label, an optional placeholder and an error line.
use vstd::prelude::*;
use crate::classes::{class_join, class_list, fragment_views};

verus! {

/// One choice of a select box.
#[derive(Clone, Debug, PartialEq)]
pub struct SelectOption {
    pub value: String,
    pub label: String,
}

impl SelectOption {
    pub fn new(value: &str, label: &str) -> (r: SelectOption)
        ensures
            r.value@ == value@,
            r.label@ == label@,
    {
        SelectOption { value: value.to_owned(), label: label.to_owned() }
    }
}

/// The plain-valued properties of a select box; the change handler is the
/// host's.
#[derive(Clone, Debug)]
pub struct SelectProps {
    pub options: Vec<SelectOption>,
    /// The value currently selected.
    pub value: String,
    pub label: Option<String>,
    pub placeholder: Option<String>,
    pub error: Option<String>,
    pub disabled: bool,
}

/// One rendered `<option>`.
#[derive(Clone, Debug)]
pub struct OptionView {
    pub value: String,
    pub label: String,
    pub selected: bool,
}

/// The render decisions of a select box.
#[derive(Clone, Debug)]
pub struct SelectView {
    pub label: Option<String>,
    /// Text of the leading empty-valued option, if any.
    pub placeholder: Option<String>,
    /// The selectable options, in the order given.
    pub options: Vec<OptionView>,
    pub select_class: String,
    pub icon_class: String,
    pub disabled: bool,
    pub error: Option<String>,
}

/// Border and focus classes of a form field, red when it has an error.
pub open spec fn spec_field_border(has_error: bool) -> Seq<char> {
    if has_error { "border-bearish"@ } else { "border-border-default"@ }
}

pub open spec fn spec_field_focus(has_error: bool) -> Seq<char> {
    if has_error {
        "focus:border-bearish focus:ring-bearish/20"@
    } else {
        "focus:border-accent focus:ring-accent/20"@
    }
}

pub open spec fn spec_select_icon_color(has_error: bool) -> Seq<char> {
    if has_error { "text-bearish"@ } else { "text-text-tertiary"@ }
}

/// Border class of a form field.
pub fn field_border(has_error: bool) -> (r: &'static str)
    ensures
        r@ == spec_field_border(has_error),
{
    if has_error { "border-bearish" } else { "border-border-default" }
}

/// Focus ring classes of a form field.
pub fn field_focus(has_error: bool) -> (r: &'static str)
    ensures
        r@ == spec_field_focus(has_error),
{
    if has_error {
        "focus:border-bearish focus:ring-bearish/20"
    } else {
        "focus:border-accent focus:ring-accent/20"
    }
}

/// Whether option `o` is rendered as the chosen one.
pub open spec fn option_matches(o: SelectOption, value: Seq<char>) -> bool {
    o.value@ == value
}

/// Describes the select box: one `<option>` per given option, marked selected
/// exactly when its value is the current value.
pub fn select(props: &SelectProps) -> (r: SelectView)
    ensures
        r.label == props.label,
        r.placeholder == props.placeholder,
        r.error == props.error,
        r.disabled == props.disabled,
        r.options@.len() == props.options@.len(),
        forall|i: int|
            0 <= i < r.options@.len() ==> {
                &&& #[trigger] r.options@[i].value@ == props.options@[i].value@
                &&& r.options@[i].label@ == props.options@[i].label@
                &&& r.options@[i].selected == option_matches(props.options@[i], props.value@)
            },
        r.select_class@ == class_join(seq![
            "w-full px-3 py-2 pr-10 rounded-md text-sm bg-bg-input border text-text-primary focus:ring-1 focus:outline-none transition-colors appearance-none disabled:opacity-50 disabled:cursor-not-allowed"@,
            spec_field_border(props.error is Some),
            spec_field_focus(props.error is Some),
        ]),
        r.icon_class@ == class_join(seq!["h-4"@, "w-4"@, spec_select_icon_color(props.error is Some)]),
{
    let mut options: Vec<OptionView> = Vec::new();
    let mut i: usize = 0;
    while i < props.options.len()
        invariant
            0 <= i <= props.options@.len(),
            options@.len() == i,
            forall|j: int|
                0 <= j < i ==> {
                    &&& #[trigger] options@[j].value@ == props.options@[j].value@
                    &&& options@[j].label@ == props.options@[j].label@
                    &&& options@[j].selected == option_matches(props.options@[j], props.value@)
                },
        decreases props.options@.len() - i,
    {
        let opt = &props.options[i];
        let selected = opt.value == props.value;
        options.push(OptionView { value: opt.value.clone(), label: opt.label.clone(), selected });
        i = i + 1;
    }
    let has_error = props.error.is_some();
    let parts = vec![
        "w-full px-3 py-2 pr-10 rounded-md text-sm bg-bg-input border text-text-primary focus:ring-1 focus:outline-none transition-colors appearance-none disabled:opacity-50 disabled:cursor-not-allowed",
        field_border(has_error),
        field_focus(has_error),
    ];
    let select_class = class_list(&parts);
    assert(fragment_views(parts@) =~= seq![
        "w-full px-3 py-2 pr-10 rounded-md text-sm bg-bg-input border text-text-primary focus:ring-1 focus:outline-none transition-colors appearance-none disabled:opacity-50 disabled:cursor-not-allowed"@,
        spec_field_border(has_error),
        spec_field_focus(has_error),
    ]);
    let icon_color = if has_error { "text-bearish" } else { "text-text-tertiary" };
    let icon_parts = vec!["h-4", "w-4", icon_color];
    let icon_class = class_list(&icon_parts);
    assert(fragment_views(icon_parts@) =~= seq!["h-4"@, "w-4"@, spec_select_icon_color(has_error)]);
    SelectView {
        label: props.label.clone(),
        placeholder: props.placeholder.clone(),
        options,
        select_class,
        icon_class,
        disabled: props.disabled,
        error: props.error.clone(),
    }
}

} // verus!
