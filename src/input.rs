//! Single-line text field with a label and an error line.
use vstd::prelude::*;
use crate::classes::{class_join, class_list, fragment_views};
use crate::select::{field_border, field_focus, spec_field_border, spec_field_focus};

verus! {

/// The plain-valued properties of a text field; the input handler is the
/// host's.
#[derive(Clone, Debug)]
pub struct InputProps {
    /// HTML input type (`text`, `email`, `password`, ...).
    pub input_type: String,
    /// The controlled value.
    pub value: String,
    pub placeholder: Option<String>,
    pub label: Option<String>,
    pub error: Option<String>,
    pub disabled: bool,
}

impl InputProps {
    /// A plain enabled text field holding `value`.
    pub fn new(value: &str) -> (r: InputProps)
        ensures
            r.input_type@ == "text"@,
            r.value@ == value@,
            r.placeholder is None,
            r.label is None,
            r.error is None,
            !r.disabled,
    {
        InputProps {
            input_type: String::from_str("text"),
            value: value.to_owned(),
            placeholder: None,
            label: None,
            error: None,
            disabled: false,
        }
    }
}

/// The render decisions of a text field.
#[derive(Clone, Debug)]
pub struct InputView {
    pub label: Option<String>,
    pub input_type: String,
    pub value: String,
    /// Placeholder text; empty when none was given.
    pub placeholder: String,
    pub input_class: String,
    pub disabled: bool,
    pub error: Option<String>,
}

/// Describes the text field.
pub fn input(props: &InputProps) -> (r: InputView)
    ensures
        r.label == props.label,
        r.input_type@ == props.input_type@,
        r.value@ == props.value@,
        r.placeholder@ == (match props.placeholder {
            Some(p) => p@,
            None => Seq::<char>::empty(),
        }),
        r.disabled == props.disabled,
        r.error == props.error,
        r.input_class@ == class_join(seq![
            "w-full px-3 py-2 rounded-md text-sm bg-bg-input border text-text-primary placeholder-text-muted focus:ring-1 focus:outline-none transition-colors disabled:opacity-50 disabled:cursor-not-allowed"@,
            spec_field_border(props.error is Some),
            spec_field_focus(props.error is Some),
        ]),
{
    let has_error = props.error.is_some();
    let parts = vec![
        "w-full px-3 py-2 rounded-md text-sm bg-bg-input border text-text-primary placeholder-text-muted focus:ring-1 focus:outline-none transition-colors disabled:opacity-50 disabled:cursor-not-allowed",
        field_border(has_error),
        field_focus(has_error),
    ];
    let input_class = class_list(&parts);
    assert(fragment_views(parts@) =~= seq![
        "w-full px-3 py-2 rounded-md text-sm bg-bg-input border text-text-primary placeholder-text-muted focus:ring-1 focus:outline-none transition-colors disabled:opacity-50 disabled:cursor-not-allowed"@,
        spec_field_border(has_error),
        spec_field_focus(has_error),
    ]);
    let placeholder = match &props.placeholder {
        Some(p) => p.clone(),
        None => String::new(),
    };
    InputView {
        label: props.label.clone(),
        input_type: props.input_type.clone(),
        value: props.value.clone(),
        placeholder,
        input_class,
        disabled: props.disabled,
        error: props.error.clone(),
    }
}

} // verus!
