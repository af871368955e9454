//! Centred dialog over a dimmed backdrop. Its visibility is an
//! [`Overlay`]: Escape, a pointer-down on the backdrop and the close buttons
//! dismiss it.
use vstd::prelude::*;
use crate::classes::{class_join, class_list, fragment_views};
use crate::overlay::Overlay;

verus! {

/// Maximum width of the dialog.
#[derive(Clone, Copy, Debug, PartialEq, Eq, Structural)]
pub enum ModalSize {
    Small,
    Medium,
    Large,
}

impl ModalSize {
    pub open spec fn spec_class(self) -> Seq<char> {
        match self {
            ModalSize::Small => "max-w-sm"@,
            ModalSize::Medium => "max-w-md"@,
            ModalSize::Large => "max-w-2xl"@,
        }
    }

    pub fn class(&self) -> (r: &'static str)
        ensures
            r@ == self.spec_class(),
    {
        match self {
            ModalSize::Small => "max-w-sm",
            ModalSize::Medium => "max-w-md",
            ModalSize::Large => "max-w-2xl",
        }
    }
}

/// The plain-valued properties of a modal; the body and the footer are host
/// markup, and the close callback is the host's.
#[derive(Clone, Debug)]
pub struct ModalProps {
    pub title: String,
    pub size: ModalSize,
}

/// The render decisions of an open modal.
#[derive(Clone, Debug)]
pub struct ModalView {
    pub title: String,
    pub panel_class: String,
}

/// Describes the modal, or nothing while it is closed.
pub fn modal(props: &ModalProps, overlay: &Overlay) -> (r: Option<ModalView>)
    ensures
        r is None <==> !overlay.open,
        r matches Some(v) ==> {
            &&& v.title@ == props.title@
            &&& v.panel_class@ == class_join(seq![
                "bg-bg-elevated border border-border-emphasis rounded-md shadow-xl w-full mx-4 max-h-[90vh] overflow-hidden"@,
                props.size.spec_class(),
            ])
        },
{
    if !overlay.is_open() {
        return None;
    }
    let parts = vec![
        "bg-bg-elevated border border-border-emphasis rounded-md shadow-xl w-full mx-4 max-h-[90vh] overflow-hidden",
        props.size.class(),
    ];
    let panel_class = class_list(&parts);
    assert(fragment_views(parts@) =~= seq![
        "bg-bg-elevated border border-border-emphasis rounded-md shadow-xl w-full mx-4 max-h-[90vh] overflow-hidden"@,
        props.size.spec_class(),
    ]);
    Some(ModalView { title: props.title.clone(), panel_class })
}

} // verus!
