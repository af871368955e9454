use hubermann_ui::badge::{badge, BadgeProps, BadgeVariant};
use hubermann_ui::button::{button, ButtonProps, ButtonSize, ButtonVariant};
use hubermann_ui::card::{card, CardPadding, CardProps};
use hubermann_ui::classes::class_list;
use hubermann_ui::dropdown::{
    dropdown_divider, dropdown_group, dropdown_item, DropdownGroupProps, DropdownItemProps,
    DropdownPosition,
};
use hubermann_ui::input::{input, InputProps};
use hubermann_ui::loading::{
    loading, render_progress_bar, render_skeleton, render_spinner, LoadingProps, LoadingSize,
    LoadingVariant, LoadingView, SkeletonLayout,
};
use hubermann_ui::modal::ModalSize;
use hubermann_ui::select::{select, SelectOption, SelectProps};
use hubermann_ui::stats_card::{stats_card, ChangeType, StatsCardProps};
use hubermann_ui::table::{render_cell, table, TableCell, TableChangeType, TableProps, TableRow};
use hubermann_ui::tabs::{tabs, Tab, TabsProps};
use hubermann_ui::tooltip::{tooltip, TooltipPosition, TooltipProps};

fn select_props(value: &str, placeholder: Option<&str>, error: Option<&str>) -> SelectProps {
    SelectProps {
        options: vec![SelectOption::new("1h", "1 Hora"), SelectOption::new("1d", "Diario")],
        value: value.to_string(),
        label: None,
        placeholder: placeholder.map(|p| p.to_string()),
        error: error.map(|e| e.to_string()),
        disabled: false,
    }
}

#[test]
fn select_marks_current_value_selected() {
    let v = select(&select_props("1h", None, None));
    assert_eq!(v.options.len(), 2);
    assert!(v.placeholder.is_none());
    assert_eq!(v.options[0].value, "1h");
    assert_eq!(v.options[0].label, "1 Hora");
    assert!(v.options[0].selected);
    assert_eq!(v.options[1].value, "1d");
    assert_eq!(v.options[1].label, "Diario");
    assert!(!v.options[1].selected);
    assert_eq!(v.icon_class, "h-4 w-4 text-text-tertiary");
    assert!(v.select_class.ends_with("border-border-default focus:border-accent focus:ring-accent/20"));
}

#[test]
fn select_with_placeholder_and_error() {
    let v = select(&select_props("", Some("Seleccionar..."), Some("Requerido")));
    assert_eq!(v.placeholder.as_deref(), Some("Seleccionar..."));
    assert!(v.options.iter().all(|o| !o.selected));
    assert_eq!(v.error.as_deref(), Some("Requerido"));
    assert_eq!(v.icon_class, "h-4 w-4 text-bearish");
    assert!(v.select_class.ends_with("border-bearish focus:border-bearish focus:ring-bearish/20"));
}

#[test]
fn select_without_options() {
    let props = SelectProps {
        options: vec![],
        value: "x".to_string(),
        label: Some("Temporalidad".to_string()),
        placeholder: None,
        error: None,
        disabled: true,
    };
    let v = select(&props);
    assert!(v.options.is_empty());
    assert!(v.disabled);
    assert_eq!(v.label.as_deref(), Some("Temporalidad"));
}

#[test]
fn class_list_skips_empty_fragments() {
    assert_eq!(class_list(&vec!["a", "", "b c", ""]), "a b c");
    assert_eq!(class_list(&vec!["", ""]), "");
    assert_eq!(class_list(&vec![]), "");
}

#[test]
fn badge_classes() {
    let v = badge(&BadgeProps { variant: BadgeVariant::Warning, text: "RSI: 72".to_string() });
    assert_eq!(v.text, "RSI: 72");
    assert_eq!(
        v.class,
        "inline-flex items-center px-3 py-1 rounded text-xs font-medium border bg-warning/10 text-warning border-warning/30"
    );
    assert_eq!(BadgeVariant::Bullish.classes(), "bg-bullish/10 text-bullish border-bullish/30");
}

#[test]
fn button_disabled_swallows_clicks() {
    let props = ButtonProps { variant: ButtonVariant::Danger, size: ButtonSize::Small, disabled: true };
    let v = button(&props);
    assert!(v.disabled);
    assert!(!v.forwards_clicks);
    assert_eq!(
        v.class,
        "inline-flex items-center justify-center font-medium transition-colors disabled:opacity-50 disabled:cursor-not-allowed bg-bearish text-white hover:bg-bearish-dark active:bg-bearish-dark px-3 py-1.5 rounded text-xs"
    );
    let enabled = button(&ButtonProps { disabled: false, ..props });
    assert!(enabled.forwards_clicks);
    assert_eq!(ButtonVariant::Subtle.classes(), "text-text-primary hover:bg-bg-tertiary");
    assert_eq!(ButtonSize::Large.classes(), "px-6 py-3 rounded-md text-base font-semibold");
}

#[test]
fn card_wrapper_and_classes() {
    let flat = card(&CardProps { padding: CardPadding::Medium, elevated: false, hoverable: false, clickable: false });
    assert!(!flat.as_button);
    assert_eq!(flat.class, "border rounded-md border-border-default bg-bg-secondary p-4");
    let raised = card(&CardProps { padding: CardPadding::Flush, elevated: true, hoverable: true, clickable: true });
    assert!(raised.as_button);
    assert_eq!(
        raised.class,
        "border rounded-md text-left w-full border-border-emphasis bg-bg-elevated shadow-md hover:bg-bg-tertiary transition-colors cursor-pointer"
    );
    assert_eq!(CardPadding::Large.class(), "p-6");
}

#[test]
fn stats_card_change_badge() {
    let props = StatsCardProps {
        title: "Total Portfolio".to_string(),
        value: "$45,231.89".to_string(),
        change: Some("+12.5%".to_string()),
        change_type: Some(ChangeType::Bullish),
        subtitle: Some("vs last month".to_string()),
        elevated: false,
    };
    let v = stats_card(&props);
    assert!(v.footer_visible);
    let b = v.change_badge.unwrap();
    assert_eq!(b.text, "↑ +12.5%");
    assert_eq!(
        b.class,
        "inline-flex items-center px-2 py-0.5 rounded text-xs font-medium border bg-bullish/10 text-bullish border-bullish/30"
    );
    assert_eq!(v.class, "border rounded-md p-4 border-border-default bg-bg-secondary");
    assert_eq!(ChangeType::Bearish.arrow(), "↓");
    assert_eq!(ChangeType::Neutral.classes(), "bg-neutral/10 text-neutral border-neutral/30");
}

#[test]
fn stats_card_change_without_type_has_no_badge() {
    let props = StatsCardProps {
        title: "P&L".to_string(),
        value: "0".to_string(),
        change: Some("+1%".to_string()),
        change_type: None,
        subtitle: None,
        elevated: true,
    };
    let v = stats_card(&props);
    assert!(v.footer_visible);
    assert!(v.change_badge.is_none());
    assert_eq!(v.class, "border rounded-md p-4 border-border-emphasis bg-bg-elevated shadow-md");
    let bare = stats_card(&StatsCardProps { change: None, ..props });
    assert!(!bare.footer_visible);
}

#[test]
fn tabs_highlight_active() {
    let props = TabsProps {
        tabs: vec![Tab::new("1h", "1H"), Tab::new("4h", "4H"), Tab::new("1d", "1D")],
        active: "4h".to_string(),
    };
    let v = tabs(&props);
    assert_eq!(v.len(), 3);
    assert_eq!(v.iter().filter(|t| t.active).count(), 1);
    assert!(v[1].active);
    assert_eq!(v[1].id, "4h");
    assert_eq!(v[2].label, "1D");
    assert!(v[1].class.contains("border-accent"));
    assert!(!v[0].class.contains("border-accent"));
}

#[test]
fn table_rows_and_cells() {
    let props: TableProps<()> = TableProps {
        headers: vec!["Symbol".to_string(), "Price".to_string()],
        rows: vec![
            TableRow::new(vec![TableCell::primary("AAPL"), TableCell::change("+2.3%", TableChangeType::Bullish)]),
            TableRow::new(vec![TableCell::text("MSFT"), TableCell::secondary("$410")]),
            TableRow::new(vec![TableCell::custom(())]),
        ],
        hoverable: true,
    };
    let v = table(&props);
    assert_eq!(v.row_classes.len(), 3);
    assert_eq!(v.row_classes[0], "border-b border-border-subtle hover:bg-bg-tertiary transition-colors");
    assert_eq!(v.row_classes[2], "hover:bg-bg-tertiary transition-colors");
    assert_eq!(render_cell(&props.rows[0].cells[0]), Some("text-text-primary font-medium"));
    assert_eq!(render_cell(&props.rows[0].cells[1]), Some("text-bullish"));
    assert_eq!(render_cell(&props.rows[1].cells[0]), Some("text-text-secondary"));
    assert_eq!(render_cell(&props.rows[1].cells[1]), Some("text-text-tertiary"));
    assert_eq!(render_cell(&props.rows[2].cells[0]), None);
    assert_eq!(props.rows[2].cells[0].content, "");
}

#[test]
fn table_without_hover_or_rows() {
    let props: TableProps<()> = TableProps {
        headers: vec![],
        rows: vec![TableRow::new(vec![]), TableRow::new(vec![])],
        hoverable: false,
    };
    let v = table(&props);
    assert_eq!(v.row_classes, vec!["border-b border-border-subtle".to_string(), String::new()]);
    let empty: TableProps<()> = TableProps { headers: vec![], rows: vec![], hoverable: true };
    assert!(table(&empty).row_classes.is_empty());
}

#[test]
fn tooltip_placement() {
    let v = tooltip(&TooltipProps {
        content: "Click for more information".to_string(),
        position: TooltipPosition::Left,
        rich: false,
    });
    assert_eq!(v.bubble_class, "invisible group-hover:visible absolute z-50 right-full top-1/2 -translate-y-1/2 mr-2");
    assert_eq!(v.content_class, "bg-bg-elevated border border-border-default rounded px-2 py-1 shadow-lg whitespace-nowrap");
    assert_eq!(v.arrow_class, "absolute left-full top-1/2 -translate-y-1/2 ml-px");
    assert_eq!(v.arrow_border_class, "border-4 border-transparent border-l-bg-elevated");
    let rich = tooltip(&TooltipProps { content: "x".to_string(), position: TooltipPosition::Bottom, rich: true });
    assert!(rich.content_class.ends_with("max-w-xs"));
    assert_eq!(TooltipPosition::Top.container_class(), "bottom-full left-1/2 -translate-x-1/2 mb-2");
}

#[test]
fn loading_variants() {
    let mut props = LoadingProps {
        variant: LoadingVariant::Spinner,
        size: LoadingSize::Large,
        text: Some("Loading market data...".to_string()),
        fullscreen: true,
    };
    let s = render_spinner(&props);
    assert_eq!(s.svg_class, "animate-spin h-12 w-12 text-accent mb-4");
    assert_eq!(s.text_class, "text-base text-text-primary font-medium");
    assert!(s.show_hint);
    assert!(matches!(loading(&props), LoadingView::Spinner(_)));
    props.fullscreen = false;
    props.size = LoadingSize::Small;
    let inline = render_spinner(&props);
    assert_eq!(inline.svg_class, "animate-spin h-4 w-4 text-accent mb-3");
    assert_eq!(inline.text_class, "text-sm text-text-secondary");
    assert!(!inline.show_hint);
    props.variant = LoadingVariant::ProgressBar;
    assert_eq!(render_progress_bar(&props).as_deref(), Some("Loading market data..."));
    props.variant = LoadingVariant::Skeleton;
    assert_eq!(render_skeleton(&props), SkeletonLayout::Card);
    props.size = LoadingSize::Medium;
    assert!(matches!(loading(&props), LoadingView::Skeleton(SkeletonLayout::Stats)));
    assert_eq!(LoadingSize::Medium.spinner_class(), "h-8 w-8");
}

#[test]
fn input_defaults_and_error() {
    let v = input(&InputProps::new("abc"));
    assert_eq!(v.input_type, "text");
    assert_eq!(v.value, "abc");
    assert_eq!(v.placeholder, "");
    assert!(v.input_class.ends_with("border-border-default focus:border-accent focus:ring-accent/20"));
    let mut props = InputProps::new("");
    props.placeholder = Some("tu@email.com".to_string());
    props.error = Some("Email inválido".to_string());
    let e = input(&props);
    assert_eq!(e.placeholder, "tu@email.com");
    assert!(e.input_class.ends_with("border-bearish focus:border-bearish focus:ring-bearish/20"));
}

#[test]
fn dropdown_parts() {
    assert_eq!(
        dropdown_item(&DropdownItemProps { danger: true }),
        "w-full text-left px-4 py-2 text-sm transition-colors text-bearish hover:bg-bearish/10"
    );
    assert_eq!(dropdown_divider(), "my-2 border-t border-border-subtle");
    let g = dropdown_group(&DropdownGroupProps { title: "Cuenta".to_string() });
    assert_eq!(g.title, "Cuenta");
    assert_eq!(DropdownPosition::Left.class(), "left-0");
    assert_eq!(ModalSize::Small.class(), "max-w-sm");
}
