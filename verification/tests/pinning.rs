use hvtt::pinning::{FocusSource, PendingPin, PinResolution};
use std::cell::RefCell;

struct MovingFocus {
    current: RefCell<Option<&'static str>>,
    reads: RefCell<usize>,
}
impl MovingFocus {
    fn on(field: &'static str) -> Self {
        MovingFocus { current: RefCell::new(Some(field)), reads: RefCell::new(0) }
    }
    fn user_clicks_into(&self, field: &'static str) {
        *self.current.borrow_mut() = Some(field);
    }
    fn reads(&self) -> usize {
        *self.reads.borrow()
    }
}
impl FocusSource for MovingFocus {
    type Handle = &'static str;
    fn focused_now(&self) -> Option<&'static str> {
        *self.reads.borrow_mut() += 1;
        *self.current.borrow()
    }
}

#[test]
fn the_pin_is_the_field_focused_when_the_shortcut_arrived() {
    let focus = MovingFocus::on("Field A");
    let pending = PendingPin::capture(&focus);
    focus.user_clicks_into("Field B");
    let resolved: Result<String, PinResolution<()>> = pending.resolve(|h| Ok(format!("pinned:{h}")));
    assert_eq!(resolved.unwrap(), "pinned:Field A");
}

#[test]
fn resolving_never_re_reads_live_focus() {
    let focus = MovingFocus::on("Field A");
    let pending = PendingPin::capture(&focus);
    assert_eq!(focus.reads(), 1, "focus is read exactly once, at capture");
    focus.user_clicks_into("Field B");
    let _: Result<&str, PinResolution<()>> = pending.resolve(Ok);
    assert_eq!(focus.reads(), 1, "resolve must not consult focus again");
}

#[test]
fn a_candidate_that_fails_validation_fails_closed() {
    let focus = MovingFocus::on("Field A");
    let pending = PendingPin::capture(&focus);
    focus.user_clicks_into("Field B");
    let resolved: Result<String, PinResolution<&str>> = pending.resolve(|_| Err("secure-field"));
    assert_eq!(resolved, Err(PinResolution::Rejected("secure-field")));
}

struct Empty;
impl FocusSource for Empty {
    type Handle = &'static str;
    fn focused_now(&self) -> Option<&'static str> {
        None
    }
}

#[test]
fn nothing_focused_at_the_keypress_is_its_own_outcome() {
    let pending = PendingPin::capture(&Empty);
    assert!(pending.is_empty());
    let resolved: Result<&str, PinResolution<()>> = pending.resolve(Ok);
    assert_eq!(resolved, Err(PinResolution::NothingWasFocused));
}

#[test]
fn the_captured_candidate_is_inspectable_before_validation() {
    let focus = MovingFocus::on("Field A");
    let pending = PendingPin::capture(&focus);
    assert_eq!(pending.candidate(), Some(&"Field A"));
}

#[test]
fn a_handle_already_held_is_a_pin() {
    let pending = PendingPin::from_handle(Some(7u32));
    assert!(!pending.is_empty());
    assert_eq!(pending.candidate(), Some(&7));
    let r: Result<u32, PinResolution<()>> = pending.resolve(|h| Ok(h * 2));
    assert_eq!(r, Ok(14));
    let none: PendingPin<u32> = PendingPin::from_handle(None);
    assert_eq!(none.candidate(), None);
}
