use hubermann_ui::accordion::{accordion, AccordionProps, AccordionState};
use hubermann_ui::dispatcher::DismissalDispatcher;
use hubermann_ui::dropdown::{dropdown, DropdownPosition, DropdownProps};
use hubermann_ui::modal::{modal, ModalProps, ModalSize};
use hubermann_ui::overlay::{classify_key, ObserverAction, Overlay, OverlayEvent};
use hubermann_ui::toast::{toast, ToastEvent, ToastProps, ToastTimer, ToastVariant, DEFAULT_TOAST_DURATION};

#[test]
fn open_then_close_restores_closed_state() {
    let mut o = Overlay::new();
    assert_eq!(o.open(), ObserverAction::Attach);
    assert!(o.is_open());
    assert_eq!(o.close(), ObserverAction::Detach);
    assert_eq!(o, Overlay::new());
}

#[test]
fn open_then_close_from_open_ends_closed() {
    let mut o = Overlay::with_open(true);
    assert_eq!(o.open(), ObserverAction::Keep);
    assert_eq!(o.close(), ObserverAction::Detach);
    assert!(!o.is_open());
}

#[test]
fn close_is_idempotent() {
    let mut o = Overlay::new();
    assert_eq!(o.close(), ObserverAction::Keep);
    assert_eq!(o.close(), ObserverAction::Keep);
    assert!(!o.is_open());
}

#[test]
fn pointer_outside_closes_open_overlay() {
    let mut o = Overlay::with_open(true);
    assert_eq!(o.on_pointer_down(false), ObserverAction::Detach);
    assert!(!o.is_open());
}

#[test]
fn pointer_inside_keeps_overlay_open() {
    let mut o = Overlay::with_open(true);
    assert_eq!(o.on_pointer_down(true), ObserverAction::Keep);
    assert!(o.is_open());
    let mut c = Overlay::new();
    assert_eq!(c.on_pointer_down(true), ObserverAction::Keep);
    assert!(!c.is_open());
}

#[test]
fn escape_when_closed_is_a_no_op() {
    let mut o = Overlay::new();
    assert_eq!(o.on_key(&"Escape".to_string()), ObserverAction::Keep);
    assert_eq!(o, Overlay::new());
}

#[test]
fn escape_closes_open_overlay_and_other_keys_do_not() {
    let mut o = Overlay::with_open(true);
    assert_eq!(o.on_key(&"Enter".to_string()), ObserverAction::Keep);
    assert!(o.is_open());
    assert_eq!(o.on_key(&"Escape".to_string()), ObserverAction::Detach);
    assert!(!o.is_open());
}

#[test]
fn key_names_are_matched_exactly() {
    assert_eq!(classify_key(&"Escape".to_string()), OverlayEvent::Escape);
    assert_eq!(classify_key(&"escape".to_string()), OverlayEvent::OtherKey);
    assert_eq!(classify_key(&"Esc".to_string()), OverlayEvent::OtherKey);
    assert_eq!(classify_key(&String::new()), OverlayEvent::OtherKey);
}

#[test]
fn toggle_flips_and_attaches_once() {
    let mut o = Overlay::new();
    assert_eq!(o.toggle(), ObserverAction::Attach);
    assert_eq!(o.handle(OverlayEvent::Open), ObserverAction::Keep);
    assert_eq!(o.toggle(), ObserverAction::Detach);
    assert!(!o.is_open());
}

#[test]
fn toast_expires_after_its_duration_and_notifies_once() {
    let mut t = ToastTimer::new(100);
    assert!(t.is_visible());
    assert!(!t.advance(99));
    assert!(t.is_visible());
    let mut t = ToastTimer::new(100);
    assert!(t.advance(100));
    assert!(!t.is_visible());
    assert!(!t.advance(100));
    assert!(!t.expire());
    assert!(!t.close());
}

#[test]
fn toast_closed_early_notifies_once() {
    let mut t = ToastTimer::new(100);
    assert!(!t.advance(50));
    assert!(t.close());
    assert!(!t.is_visible());
    assert!(!t.advance(50));
    assert!(!t.expire());
    assert!(!t.advance(1000));
}

#[test]
fn toast_timer_counts_down_in_steps() {
    let mut t = ToastTimer::new(DEFAULT_TOAST_DURATION);
    assert!(!t.advance(1000));
    assert!(!t.advance(1999));
    assert!(t.is_visible());
    assert!(t.advance(1));
    assert!(!t.is_visible());
}

#[test]
fn toast_unmount_cancels_without_notifying() {
    let mut t = ToastTimer::new(100);
    t.unmount();
    assert!(!t.advance(100));
    assert!(!t.handle(ToastEvent::Expire));
    assert!(t.is_visible());
}

#[test]
fn toast_zero_duration_expires_at_once() {
    let mut t = ToastTimer::new(0);
    assert!(t.advance(0));
    assert!(!t.is_visible());
}

#[test]
fn toast_view_follows_visibility() {
    let props = ToastProps {
        message: "Order executed successfully".to_string(),
        variant: ToastVariant::Success,
        subtitle: Some("Bought 10 shares of AAPL".to_string()),
        duration: 100,
    };
    let mut t = ToastTimer::new(props.duration);
    let v = toast(&props, &t).unwrap();
    assert_eq!(v.panel_class, "flex items-start gap-3 p-4 bg-bg-elevated border rounded-md shadow-lg border-bullish/30");
    assert_eq!(v.icon_class, "w-5 h-5 text-bullish");
    assert_eq!(v.icon_path, "M9 12l2 2 4-4m6 2a9 9 0 11-18 0 9 9 0 0118 0z");
    assert_eq!(v.message, "Order executed successfully");
    assert_eq!(v.subtitle.as_deref(), Some("Bought 10 shares of AAPL"));
    t.close();
    assert!(toast(&props, &t).is_none());
}

#[test]
fn toast_variant_styles() {
    assert_eq!(ToastVariant::Error.border_class(), "border-bearish/30");
    assert_eq!(ToastVariant::Warning.icon_color(), "text-warning");
    assert_eq!(ToastVariant::Info.icon_path(), "M13 16h-1v-4h-1m1-4h.01M21 12a9 9 0 11-18 0 9 9 0 0118 0z");
}

#[test]
fn accordion_open_by_default_toggles_content() {
    let props = AccordionProps {
        title: "Indicadores Técnicos".to_string(),
        subtitle: Some("RSI, MACD, y otros osciladores".to_string()),
        default_open: true,
    };
    let mut state = AccordionState::new(props.default_open);
    let first = accordion(&props, &state);
    assert!(first.content_visible);
    assert_eq!(first.chevron_class, "w-5 h-5 text-text-tertiary transition-transform rotate-180");
    assert_eq!(first.title, "Indicadores Técnicos");
    state.toggle();
    let second = accordion(&props, &state);
    assert!(!second.content_visible);
    assert_eq!(second.chevron_class, "w-5 h-5 text-text-tertiary transition-transform");
    state.toggle();
    assert!(accordion(&props, &state).content_visible);
}

#[test]
fn accordion_closed_by_default() {
    let props = AccordionProps { title: "T".to_string(), subtitle: None, default_open: false };
    let state = AccordionState::new(props.default_open);
    let v = accordion(&props, &state);
    assert!(!v.content_visible);
    assert_eq!(v.subtitle, None);
}

#[test]
fn dropdown_menu_shows_only_while_open() {
    let props = DropdownProps { position: DropdownPosition::Right };
    let mut o = Overlay::new();
    assert_eq!(dropdown(&props, &o), None);
    o.toggle();
    assert_eq!(
        dropdown(&props, &o).unwrap(),
        "absolute mt-2 min-w-[14rem] bg-bg-elevated border border-border-emphasis rounded-md shadow-xl z-50 right-0"
    );
    o.on_pointer_down(false);
    assert_eq!(dropdown(&props, &o), None);
}

#[test]
fn modal_renders_while_shown() {
    let props = ModalProps { title: "Confirm Order".to_string(), size: ModalSize::Large };
    let mut o = Overlay::with_open(true);
    let v = modal(&props, &o).unwrap();
    assert_eq!(v.title, "Confirm Order");
    assert_eq!(
        v.panel_class,
        "bg-bg-elevated border border-border-emphasis rounded-md shadow-xl w-full mx-4 max-h-[90vh] overflow-hidden max-w-2xl"
    );
    assert_eq!(o.on_key(&"Escape".to_string()), ObserverAction::Detach);
    assert!(modal(&props, &o).is_none());
}

#[test]
fn dispatcher_registers_each_overlay_once() {
    let mut d = DismissalDispatcher::new();
    d.register(1);
    d.register(2);
    d.register(1);
    assert_eq!(d.registered(), &vec![1, 2]);
    assert!(d.is_registered(2));
    assert!(!d.is_registered(3));
}

#[test]
fn dispatcher_pointer_closes_overlays_not_containing_target() {
    let mut d = DismissalDispatcher::new();
    d.register(1);
    d.register(2);
    d.register(3);
    let closed = d.on_pointer_down(&vec![2, 9]);
    assert_eq!(closed, vec![1, 3]);
    assert_eq!(d.registered(), &vec![2]);
    assert_eq!(d.on_pointer_down(&vec![2]), Vec::<u64>::new());
    assert_eq!(d.registered(), &vec![2]);
}

#[test]
fn dispatcher_escape_closes_all_and_unregister_is_idempotent() {
    let mut d = DismissalDispatcher::new();
    d.register(4);
    d.register(5);
    d.unregister(4);
    d.unregister(4);
    assert_eq!(d.registered(), &vec![5]);
    assert_eq!(d.on_escape(), vec![5]);
    assert!(d.registered().is_empty());
    assert_eq!(d.on_escape(), Vec::<u64>::new());
}
