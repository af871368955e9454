//! Card for one key metric with its change and a note.
use vstd::prelude::*;
use crate::card::{spec_surface, surface};
use crate::classes::{class_join, class_list, fragment_views};

verus! {

/// Direction of a change.
#[derive(Clone, Copy, Debug, PartialEq, Eq, Structural)]
pub enum ChangeType {
    Bullish,
    Bearish,
    Neutral,
}

impl ChangeType {
    pub open spec fn spec_classes(self) -> Seq<char> {
        match self {
            ChangeType::Bullish => "bg-bullish/10 text-bullish border-bullish/30"@,
            ChangeType::Bearish => "bg-bearish/10 text-bearish border-bearish/30"@,
            ChangeType::Neutral => "bg-neutral/10 text-neutral border-neutral/30"@,
        }
    }

    pub open spec fn spec_arrow(self) -> Seq<char> {
        match self {
            ChangeType::Bullish => "↑"@,
            ChangeType::Bearish => "↓"@,
            ChangeType::Neutral => "→"@,
        }
    }

    /// Colours of the change badge.
    pub fn classes(&self) -> (r: &'static str)
        ensures
            r@ == self.spec_classes(),
    {
        match self {
            ChangeType::Bullish => "bg-bullish/10 text-bullish border-bullish/30",
            ChangeType::Bearish => "bg-bearish/10 text-bearish border-bearish/30",
            ChangeType::Neutral => "bg-neutral/10 text-neutral border-neutral/30",
        }
    }

    /// Arrow shown before the change.
    pub fn arrow(&self) -> (r: &'static str)
        ensures
            r@ == self.spec_arrow(),
    {
        match self {
            ChangeType::Bullish => "↑",
            ChangeType::Bearish => "↓",
            ChangeType::Neutral => "→",
        }
    }
}

#[derive(Clone, Debug)]
pub struct StatsCardProps {
    pub title: String,
    pub value: String,
    pub change: Option<String>,
    pub change_type: Option<ChangeType>,
    pub subtitle: Option<String>,
    pub elevated: bool,
}

/// The coloured change label of a stats card.
#[derive(Clone, Debug)]
pub struct ChangeBadgeView {
    pub class: String,
    /// The arrow, a space and the change.
    pub text: String,
}

/// The render decisions of a stats card.
#[derive(Clone, Debug)]
pub struct StatsCardView {
    pub class: String,
    pub title: String,
    pub value: String,
    /// Whether the line under the value is rendered at all.
    pub footer_visible: bool,
    pub change_badge: Option<ChangeBadgeView>,
    pub subtitle: Option<String>,
}

/// Describes the stats card. The change label needs both the change and its
/// direction; the footer line shows when the change or the note is given.
pub fn stats_card(props: &StatsCardProps) -> (r: StatsCardView)
    ensures
        r.title@ == props.title@,
        r.value@ == props.value@,
        r.subtitle == props.subtitle,
        r.footer_visible == (props.change is Some || props.subtitle is Some),
        r.class@ == class_join(seq![
            "border"@, "rounded-md"@, "p-4"@, spec_surface(props.elevated).1,
            spec_surface(props.elevated).0, spec_surface(props.elevated).2,
        ]),
        r.change_badge is Some <==> (props.change is Some && props.change_type is Some),
        r.change_badge matches Some(b) ==> {
            let t = props.change_type->0;
            &&& b.text@ == t.spec_arrow() + " "@ + props.change->0@
            &&& b.class@ == class_join(seq![
                "inline-flex items-center px-2 py-0.5 rounded text-xs font-medium border"@,
                t.spec_classes(),
            ])
        },
{
    let (bg, border, shadow) = surface(props.elevated);
    let parts = vec!["border", "rounded-md", "p-4", border, bg, shadow];
    let class = class_list(&parts);
    assert(fragment_views(parts@) =~= seq![
        "border"@, "rounded-md"@, "p-4"@, border@, bg@, shadow@,
    ]);
    let change_badge = match (&props.change, &props.change_type) {
        (Some(change), Some(t)) => {
            let badge_parts = vec![
                "inline-flex items-center px-2 py-0.5 rounded text-xs font-medium border",
                t.classes(),
            ];
            let badge_class = class_list(&badge_parts);
            assert(fragment_views(badge_parts@) =~= seq![
                "inline-flex items-center px-2 py-0.5 rounded text-xs font-medium border"@,
                t.spec_classes(),
            ]);
            let mut text = String::from_str(t.arrow());
            text.append(" ");
            text.append(change.as_str());
            Some(ChangeBadgeView { class: badge_class, text })
        },
        _ => None,
    };
    StatsCardView {
        class,
        title: props.title.clone(),
        value: props.value.clone(),
        footer_visible: props.change.is_some() || props.subtitle.is_some(),
        change_badge,
        subtitle: props.subtitle.clone(),
    }
}

} // verus!
