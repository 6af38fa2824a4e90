//! When the destination is decided.
//!
//! The pinned destination is the field that was focused at the instant the shortcut arrived:
//! not the field focused once the microphone finished opening, and not the one focused when a
//! background thread got round to asking.
//!
//! The rule is enforced by shape. `PendingPin::capture` takes the snapshot immediately and
//! stores it; `PendingPin::resolve` sees only what was captured, because it is never handed the
//! focus source. A candidate that cannot be validated is refused: there is no path that falls
//! back to whatever is focused now.

use vstd::prelude::*;

verus! {

/// Somewhere the currently focused target can be read from.
pub trait FocusSource {
    /// A cheap, immediately obtainable handle on the focused thing.
    type Handle: Clone + core::fmt::Debug;

    /// What has focus right now, if anything. This runs on the keypress path.
    fn focused_now(&self) -> Option<Self::Handle>;
}

/// A destination candidate, captured at the moment of the shortcut and not yet validated.
#[derive(Debug, Clone)]
pub struct PendingPin<H: Clone + core::fmt::Debug> {
    captured: Option<H>,
}

/// Why a captured candidate did not become a destination.
#[derive(Debug, Clone, PartialEq, Eq)]
pub enum PinResolution<E> {
    /// Nothing had focus when the shortcut was pressed.
    NothingWasFocused,
    /// Something was captured but could not be validated. Fail closed: never substitute.
    Rejected(E),
}

impl<H: Clone + core::fmt::Debug> PendingPin<H> {
    /// The handle captured at the keypress, if any.
    pub closed spec fn held(self) -> Option<H> {
        self.captured
    }

    /// Take the snapshot: focus is read exactly once, here. Call this first, before anything
    /// slow. What is held is the answer `focused_now` gave on this call.
    pub fn capture<S: FocusSource<Handle = H>>(source: &S) -> (p: Self)
        ensures
            call_ensures(S::focused_now, (source,), p.held()),
    {
        Self::from_handle(source.focused_now())
    }

    /// A pending pin holding `handle`, for callers that already hold one.
    pub fn from_handle(handle: Option<H>) -> (p: Self)
        ensures
            p.held() == handle,
    {
        PendingPin { captured: handle }
    }

    /// The captured candidate, inspectable before validation.
    pub fn candidate(&self) -> (r: Option<&H>)
        ensures
            r is None <==> self.held() is None,
            r matches Some(h) ==> self.held() == Some(*h),
    {
        match &self.captured {
            Some(h) => Some(h),
            None => None,
        }
    }

    /// Nothing was focused at the keypress.
    pub fn is_empty(&self) -> (r: bool)
        ensures
            r == (self.held() is None),
    {
        self.captured.is_none()
    }

    /// Validate the captured candidate, whenever convenient.
    ///
    /// `validate` receives only the captured handle. It cannot consult live focus, so a
    /// candidate that fails validation produces an error rather than a different field.
    pub fn resolve<D, E, F>(self, validate: F) -> (r: Result<D, PinResolution<E>>) where
        F: FnOnce(H) -> Result<D, E>,

        requires
            self.held() matches Some(h) ==> call_requires(validate, (h,)),
        ensures
            self.held() is None ==> r == Err::<D, PinResolution<E>>(
                PinResolution::NothingWasFocused,
            ),
            self.held() matches Some(h) ==> match r {
                Ok(d) => call_ensures(validate, (h,), Ok::<D, E>(d)),
                Err(PinResolution::Rejected(e)) => call_ensures(validate, (h,), Err::<D, E>(e)),
                Err(PinResolution::NothingWasFocused) => false,
            },
    {
        match self.captured {
            None => Err(PinResolution::NothingWasFocused),
            Some(h) => match validate(h) {
                Ok(d) => Ok(d),
                Err(e) => Err(PinResolution::Rejected(e)),
            },
        }
    }
}

} // verus!
