//! Loading indicators: spinner, indeterminate progress bar and skeletons.
use vstd::prelude::*;
use crate::classes::{class_join, class_list, fragment_views};

verus! {

#[derive(Clone, Copy, Debug, PartialEq, Eq, Structural)]
pub enum LoadingVariant {
    Spinner,
    ProgressBar,
    Skeleton,
}

#[derive(Clone, Copy, Debug, PartialEq, Eq, Structural)]
pub enum LoadingSize {
    Small,
    Medium,
    Large,
}

impl LoadingSize {
    pub open spec fn spec_spinner_class(self) -> Seq<char> {
        match self {
            LoadingSize::Small => "h-4 w-4"@,
            LoadingSize::Medium => "h-8 w-8"@,
            LoadingSize::Large => "h-12 w-12"@,
        }
    }

    pub open spec fn spec_text_class(self) -> Seq<char> {
        match self {
            LoadingSize::Small => "text-sm"@,
            LoadingSize::Medium => "text-sm"@,
            LoadingSize::Large => "text-base"@,
        }
    }

    /// Dimensions of the spinner.
    pub fn spinner_class(&self) -> (r: &'static str)
        ensures
            r@ == self.spec_spinner_class(),
    {
        match self {
            LoadingSize::Small => "h-4 w-4",
            LoadingSize::Medium => "h-8 w-8",
            LoadingSize::Large => "h-12 w-12",
        }
    }

    /// Size of the caption.
    pub fn text_class(&self) -> (r: &'static str)
        ensures
            r@ == self.spec_text_class(),
    {
        match self {
            LoadingSize::Small => "text-sm",
            LoadingSize::Medium => "text-sm",
            LoadingSize::Large => "text-base",
        }
    }
}

#[derive(Clone, Debug)]
pub struct LoadingProps {
    pub variant: LoadingVariant,
    pub size: LoadingSize,
    pub text: Option<String>,
    /// Cover the whole page with a backdrop.
    pub fullscreen: bool,
}

/// The render decisions of a spinner.
#[derive(Clone, Debug)]
pub struct SpinnerView {
    pub fullscreen: bool,
    pub svg_class: String,
    pub text_class: String,
    pub text: Option<String>,
    /// Whether the "may take a few seconds" line follows the caption.
    pub show_hint: bool,
}

/// Skeleton layout; the size of the props picks it.
#[derive(Clone, Copy, Debug, PartialEq, Eq, Structural)]
pub enum SkeletonLayout {
    Card,
    Stats,
    Table,
}

/// The render decisions of a loading indicator.
#[derive(Clone, Debug)]
pub enum LoadingView {
    Spinner(SpinnerView),
    /// An indeterminate bar with an optional caption.
    ProgressBar(Option<String>),
    Skeleton(SkeletonLayout),
}

pub open spec fn spec_svg_class(size: LoadingSize, fullscreen: bool) -> Seq<char> {
    class_join(seq![
        "animate-spin"@, size.spec_spinner_class(), "text-accent"@,
        if fullscreen { "mb-4"@ } else { "mb-3"@ },
    ])
}

pub open spec fn spec_caption_class(size: LoadingSize, fullscreen: bool) -> Seq<char> {
    if fullscreen {
        class_join(seq![size.spec_text_class(), "text-text-primary"@, "font-medium"@])
    } else {
        class_join(seq![size.spec_text_class(), "text-text-secondary"@])
    }
}

/// Describes a spinner, inline or covering the page.
pub fn render_spinner(props: &LoadingProps) -> (r: SpinnerView)
    ensures
        r.fullscreen == props.fullscreen,
        r.svg_class@ == spec_svg_class(props.size, props.fullscreen),
        r.text_class@ == spec_caption_class(props.size, props.fullscreen),
        r.text == props.text,
        r.show_hint == (props.fullscreen && props.text is Some),
{
    let margin = if props.fullscreen { "mb-4" } else { "mb-3" };
    let svg_parts = vec!["animate-spin", props.size.spinner_class(), "text-accent", margin];
    let svg_class = class_list(&svg_parts);
    assert(fragment_views(svg_parts@) =~= seq![
        "animate-spin"@, props.size.spec_spinner_class(), "text-accent"@, margin@,
    ]);
    let text_class = if props.fullscreen {
        let parts = vec![props.size.text_class(), "text-text-primary", "font-medium"];
        let c = class_list(&parts);
        assert(fragment_views(parts@) =~= seq![
            props.size.spec_text_class(), "text-text-primary"@, "font-medium"@,
        ]);
        c
    } else {
        let parts = vec![props.size.text_class(), "text-text-secondary"];
        let c = class_list(&parts);
        assert(fragment_views(parts@) =~= seq![props.size.spec_text_class(), "text-text-secondary"@]);
        c
    };
    SpinnerView {
        fullscreen: props.fullscreen,
        svg_class,
        text_class,
        text: props.text.clone(),
        show_hint: props.fullscreen && props.text.is_some(),
    }
}

/// The caption under the progress bar.
pub fn render_progress_bar(props: &LoadingProps) -> (r: Option<String>)
    ensures
        r == props.text,
{
    props.text.clone()
}

/// Small sizes give a card skeleton, medium a row of stats, large a table.
pub fn render_skeleton(props: &LoadingProps) -> (r: SkeletonLayout)
    ensures
        r == (match props.size {
            LoadingSize::Small => SkeletonLayout::Card,
            LoadingSize::Medium => SkeletonLayout::Stats,
            LoadingSize::Large => SkeletonLayout::Table,
        }),
{
    match props.size {
        LoadingSize::Small => SkeletonLayout::Card,
        LoadingSize::Medium => SkeletonLayout::Stats,
        LoadingSize::Large => SkeletonLayout::Table,
    }
}

/// Describes the indicator that the variant selects.
pub fn loading(props: &LoadingProps) -> (r: LoadingView)
    ensures
        props.variant == LoadingVariant::Spinner <==> r is Spinner,
        props.variant == LoadingVariant::ProgressBar <==> r is ProgressBar,
        props.variant == LoadingVariant::Skeleton <==> r is Skeleton,
        r matches LoadingView::Spinner(s) ==> {
            &&& s.fullscreen == props.fullscreen
            &&& s.svg_class@ == spec_svg_class(props.size, props.fullscreen)
            &&& s.text_class@ == spec_caption_class(props.size, props.fullscreen)
            &&& s.text == props.text
            &&& s.show_hint == (props.fullscreen && props.text is Some)
        },
        r matches LoadingView::ProgressBar(t) ==> t == props.text,
        r matches LoadingView::Skeleton(k) ==> k == (match props.size {
            LoadingSize::Small => SkeletonLayout::Card,
            LoadingSize::Medium => SkeletonLayout::Stats,
            LoadingSize::Large => SkeletonLayout::Table,
        }),
{
    match props.variant {
        LoadingVariant::Spinner => LoadingView::Spinner(render_spinner(props)),
        LoadingVariant::ProgressBar => LoadingView::ProgressBar(render_progress_bar(props)),
        LoadingVariant::Skeleton => LoadingView::Skeleton(render_skeleton(props)),
    }
}

} // verus!
