//! The input reactor: the state machine that maps one externally
//! delivered event at a time to mutations of the session, the pipeline
//! selection and the current color, and to the frame recomposed in
//! response.
//!
//! A window resize is forwarded to the session's resize rule.  The
//! designated exit triggers (the escape key, the left pointer button)
//! request a close and change nothing else.  The designated toggle key
//! advances the pipeline selection and recomposes one frame with the
//! current color.  A pointer move normalizes its position against the
//! last-known window size into a new background color — red from the
//! horizontal fraction, green from the vertical one, blue their mean,
//! alpha one — replacing the current color only when that construction
//! succeeds, and recomposes one frame.  Anything else is ignored.

use vstd::prelude::*;

use crate::bank::PipelineBank;
use crate::bank::next_selection;
use crate::color::Channel;
use crate::color::RgbaColor;
use crate::frame::FramePlan;
use crate::frame::compose;
use crate::frame::geom_index_count;
use crate::frame::plan_spec;
use crate::geometry::GeometryBuffers;
use crate::session::SurfaceSession;
use crate::session::resize_spec;

verus! {

/// The keys the reactor distinguishes: the exit trigger, the pipeline
/// toggle, and everything else.
#[derive(Clone, Copy, Debug, PartialEq, Eq, Structural)]
pub enum KeyCode {
    Escape,
    Space,
    OtherKey,
}

/// The pointer buttons the reactor distinguishes: the exit trigger and
/// everything else.
#[derive(Clone, Copy, Debug, PartialEq, Eq, Structural)]
pub enum PointerButton {
    LeftButton,
    OtherButton,
}

/// One externally delivered input event, already reduced to plain values:
/// a resize in logical pixels, a key press, a pointer-button press, a
/// pointer move in window pixel coordinates, or something unrecognized.
#[derive(Clone, Copy, Debug, PartialEq, Eq, Structural)]
pub enum InputEvent {
    WindowResized(i32, i32),
    KeyPressed(KeyCode),
    ButtonPressed(PointerButton),
    PointerMoved(i64, i64),
    Unrecognized,
}

/// What the reactor asks the surrounding loop to do in response.
#[derive(Clone, Copy, Debug, PartialEq, Eq, Structural)]
pub enum Reaction {
    CloseRequested,
    Recompose(FramePlan),
    Resized,
    Ignored,
}

/// The mutable render state threaded across frames beside the session:
/// the current background color.  The other half of the render state,
/// the pipeline selection, lives in the bank it selects from.
#[derive(Clone, Copy, Debug, PartialEq, Eq, Structural)]
pub struct RenderState {
    pub color: RgbaColor,
}

/// The reactor owns the render state and applies one event at a time.
#[derive(Clone, Copy, Debug, PartialEq, Eq, Structural)]
pub struct InputReactor {
    pub state: RenderState,
}

/// The pointer position normalizes to a well-defined color: the window
/// has positive area and the position lies inside it.
pub open spec fn pointer_in_bounds(x: i64, y: i64, w: i32, h: i32) -> bool {
    w > 0 && h > 0 && 0 <= x <= w && 0 <= y <= h
}

/// The four channels a pointer position maps to: red the horizontal
/// fraction `x / w`, green the vertical fraction `y / h`, blue their
/// mean, alpha one — each held exactly as a ratio.
pub open spec fn pointer_channels(x: i64, y: i64, w: i32, h: i32) -> (
    Channel,
    Channel,
    Channel,
    Channel,
) {
    (
        Channel { num: x, den: w as i64 },
        Channel { num: y, den: h as i64 },
        Channel {
            num: (x * (h as int) + y * (w as int)) as i64,
            den: (2 * (w as int) * (h as int)) as i64,
        },
        Channel { num: 1, den: 1 },
    )
}

/// The color a pointer position maps to, when construction succeeds.
pub open spec fn pointer_color(x: i64, y: i64, w: i32, h: i32) -> RgbaColor {
    RgbaColor {
        red: pointer_channels(x, y, w, h).0,
        green: pointer_channels(x, y, w, h).1,
        blue: pointer_channels(x, y, w, h).2,
        alpha: pointer_channels(x, y, w, h).3,
    }
}

/// Law: over a window of positive area, the pointer's channels all lie in
/// the unit interval — so the color construction succeeds — exactly when
/// the pointer lies inside the window.  In particular the blue mean needs
/// no check of its own: it is in range whenever red and green are.
pub proof fn lemma_pointer_channels_valid(x: i64, y: i64, w: i32, h: i32)
    requires
        w > 0,
        h > 0,
    ensures
        RgbaColor::all_in_unit(pointer_channels(x, y, w, h)) <==> (0 <= x <= w && 0 <= y <= h),
{
    let xi = x as int;
    let yi = y as int;
    let wi = w as int;
    let hi = h as int;
    if 0 <= xi <= wi && 0 <= yi <= hi {
        assert(0 <= xi * hi + yi * wi && xi * hi + yi * wi <= 2 * wi * hi && 1 <= 2 * wi * hi
            && 2 * wi * hi <= 0x7fff_ffff_ffff_ffff) by (nonlinear_arith)
            requires
                0 <= xi <= wi,
                0 <= yi <= hi,
                1 <= wi <= 0x7fff_ffff,
                1 <= hi <= 0x7fff_ffff,
        ;
    }
}

/// Normalize a pointer position against the window size into a validated
/// color.  Yields nothing when either dimension is non-positive (the
/// normalization would be undefined) or when the attempted construction
/// finds a channel out of range — exactly when the pointer lies outside
/// the window.
pub fn pointer_color_update(x: i64, y: i64, w: i32, h: i32) -> (r: Option<RgbaColor>)
    ensures
        pointer_in_bounds(x, y, w, h) ==> r == Some(pointer_color(x, y, w, h)),
        !pointer_in_bounds(x, y, w, h) ==> r is None,
        w > 0 && h > 0 ==> (r is Some <==> RgbaColor::all_in_unit(pointer_channels(x, y, w, h))),
    {
    if w <= 0 || h <= 0 {
        return None;
    }
    proof {
        lemma_pointer_channels_valid(x, y, w, h);
    }
    let wl: i64 = w as i64;
    let hl: i64 = h as i64;
    if x < 0 || x > wl || y < 0 || y > hl {
        return None;
    }
    proof {
        lemma_pointer_products_fit(x, y, w, h);
    }
    let channels = (
        Channel { num: x, den: wl },
        Channel { num: y, den: hl },
        Channel { num: x * hl + y * wl, den: 2 * wl * hl },
        Channel { num: 1, den: 1 },
    );
    RgbaColor::new(channels)
}

/// Inside the window the normalization's products stay within machine
/// range: the numerator and denominator of the blue mean fit.
proof fn lemma_pointer_products_fit(x: i64, y: i64, w: i32, h: i32)
    requires
        0 < w,
        0 < h,
        0 <= x <= w,
        0 <= y <= h,
    ensures
        0 <= x * (h as int) + y * (w as int) <= 2 * (w as int) * (h as int),
        2 * (w as int) * (h as int) <= 0x7fff_ffff_ffff_ffff,
        0 <= x * (h as int) <= 0x7fff_ffff_ffff_ffff,
        0 <= y * (w as int) <= 0x7fff_ffff_ffff_ffff,
        0 <= (w as int) * (h as int),
{
    let xi = x as int;
    let yi = y as int;
    let wi = w as int;
    let hi = h as int;
    assert(0 <= xi * hi + yi * wi && xi * hi + yi * wi <= 2 * wi * hi && 2 * wi * hi
        <= 0x7fff_ffff_ffff_ffff && 0 <= xi * hi && 0 <= yi * wi && 0 <= wi * hi)
        by (nonlinear_arith)
        requires
            0 <= xi <= wi,
            0 <= yi <= hi,
            1 <= wi <= 0x7fff_ffff,
            1 <= hi <= 0x7fff_ffff,
    ;
}

/// Law: in any window of positive size `(w, h)`, the pointer at the
/// top-left corner `(0, 0)` normalizes to the color `(0, 0, 0, 1)`; at
/// the bottom-right corner `(w, h)` to `(1, 1, 1, 1)`; and at the
/// top-right corner `(w, 0)` to `(1, 0, 1/2, 1)` — each channel equal as
/// an exact ratio.
pub proof fn lemma_pointer_color_corners(w: i32, h: i32)
    requires
        w > 0,
        h > 0,
    ensures
        ({
            let c = pointer_color(0, 0, w, h);
            &&& RgbaColor::all_in_unit(pointer_channels(0, 0, w, h))
            &&& c.red.rat_eq(Channel { num: 0, den: 1 })
            &&& c.green.rat_eq(Channel { num: 0, den: 1 })
            &&& c.blue.rat_eq(Channel { num: 0, den: 1 })
            &&& c.alpha.rat_eq(Channel { num: 1, den: 1 })
        }),
        ({
            let c = pointer_color(w as i64, h as i64, w, h);
            &&& RgbaColor::all_in_unit(pointer_channels(w as i64, h as i64, w, h))
            &&& c.red.rat_eq(Channel { num: 1, den: 1 })
            &&& c.green.rat_eq(Channel { num: 1, den: 1 })
            &&& c.blue.rat_eq(Channel { num: 1, den: 1 })
            &&& c.alpha.rat_eq(Channel { num: 1, den: 1 })
        }),
        ({
            let c = pointer_color(w as i64, 0, w, h);
            &&& RgbaColor::all_in_unit(pointer_channels(w as i64, 0, w, h))
            &&& c.red.rat_eq(Channel { num: 1, den: 1 })
            &&& c.green.rat_eq(Channel { num: 0, den: 1 })
            &&& c.blue.rat_eq(Channel { num: 1, den: 2 })
            &&& c.alpha.rat_eq(Channel { num: 1, den: 1 })
        }),
{
    let wi = w as int;
    let hi = h as int;
    lemma_pointer_channels_valid(0, 0, w, h);
    lemma_pointer_channels_valid(w as i64, h as i64, w, h);
    lemma_pointer_channels_valid(w as i64, 0, w, h);
    lemma_pointer_products_fit(0, 0, w, h);
    lemma_pointer_products_fit(w as i64, h as i64, w, h);
    lemma_pointer_products_fit(w as i64, 0, w, h);
    assert(0 * hi + 0 * wi == 0 && wi * hi + hi * wi == 2 * wi * hi && 2 * (wi * hi) == 2 * wi
        * hi && wi * 0 + 0 * wi == 0 && wi * hi + 0 * wi == wi * hi) by (nonlinear_arith);
}

impl InputReactor {
    /// A reactor starting from the given background color.
    pub fn new(initial: RgbaColor) -> (r: InputReactor)
        ensures
            r.state.color == initial,
    {
        InputReactor { state: RenderState { color: initial } }
    }

    /// Apply one event: mutate the session, the bank's selection and the
    /// current color as the event dictates, and say what the loop should
    /// do next.  Exit triggers change no state; a resize changes only the
    /// session; the toggle key advances only the selection and recomposes
    /// with the current color; a pointer move replaces the color only
    /// when its normalization yields a valid one, and recomposes with the
    /// color that results either way.
    pub fn handle_event(
        &mut self,
        session: &mut SurfaceSession,
        bank: &mut PipelineBank,
        geometry: Option<&GeometryBuffers>,
        event: InputEvent,
    ) -> (r: Reaction)
        requires
            old(session).wf(),
            old(bank).wf(),
            geometry matches Some(g) ==> g.wf(),
        ensures
            final(session).wf(),
            final(bank).wf(),
            match event {
                InputEvent::WindowResized(w, h) => {
                    &&& *final(session) == resize_spec(*old(session), w, h)
                    &&& *final(bank) == *old(bank)
                    &&& *final(self) == *old(self)
                    &&& r == Reaction::Resized
                },
                InputEvent::KeyPressed(key) => match key {
                    KeyCode::Escape => {
                        &&& *final(session) == *old(session)
                        &&& *final(bank) == *old(bank)
                        &&& *final(self) == *old(self)
                        &&& r == Reaction::CloseRequested
                    },
                    KeyCode::Space => {
                        &&& *final(session) == *old(session)
                        &&& *final(self) == *old(self)
                        &&& final(bank).pipelines == old(bank).pipelines
                        &&& final(bank).selection as int == next_selection(
                            old(bank).selection as int,
                            old(bank).pipelines.len() as int,
                        )
                        &&& r == Reaction::Recompose(
                            plan_spec(
                                old(self).state.color,
                                final(bank).selection,
                                geom_index_count(geometry),
                            ),
                        )
                    },
                    KeyCode::OtherKey => {
                        &&& *final(session) == *old(session)
                        &&& *final(bank) == *old(bank)
                        &&& *final(self) == *old(self)
                        &&& r == Reaction::Ignored
                    },
                },
                InputEvent::ButtonPressed(button) => match button {
                    PointerButton::LeftButton => {
                        &&& *final(session) == *old(session)
                        &&& *final(bank) == *old(bank)
                        &&& *final(self) == *old(self)
                        &&& r == Reaction::CloseRequested
                    },
                    PointerButton::OtherButton => {
                        &&& *final(session) == *old(session)
                        &&& *final(bank) == *old(bank)
                        &&& *final(self) == *old(self)
                        &&& r == Reaction::Ignored
                    },
                },
                InputEvent::PointerMoved(x, y) => {
                    &&& *final(session) == *old(session)
                    &&& *final(bank) == *old(bank)
                    &&& (if pointer_in_bounds(x, y, old(session).size.0, old(session).size.1) {
                        final(self).state.color == pointer_color(
                            x,
                            y,
                            old(session).size.0,
                            old(session).size.1,
                        )
                    } else {
                        *final(self) == *old(self)
                    })
                    &&& r == Reaction::Recompose(
                        plan_spec(
                            final(self).state.color,
                            old(bank).selection,
                            geom_index_count(geometry),
                        ),
                    )
                },
                InputEvent::Unrecognized => {
                    &&& *final(session) == *old(session)
                    &&& *final(bank) == *old(bank)
                    &&& *final(self) == *old(self)
                    &&& r == Reaction::Ignored
                },
            },
    {
        match event {
            InputEvent::WindowResized(w, h) => {
                session.resize(w, h);
                Reaction::Resized
            },
            InputEvent::KeyPressed(key) => match key {
                KeyCode::Escape => Reaction::CloseRequested,
                KeyCode::Space => {
                    bank.toggle();
                    Reaction::Recompose(compose(self.state.color, bank, geometry))
                },
                KeyCode::OtherKey => Reaction::Ignored,
            },
            InputEvent::ButtonPressed(button) => match button {
                PointerButton::LeftButton => Reaction::CloseRequested,
                PointerButton::OtherButton => Reaction::Ignored,
            },
            InputEvent::PointerMoved(x, y) => {
                let w = session.size.0;
                let h = session.size.1;
                match pointer_color_update(x, y, w, h) {
                    Some(c) => {
                        self.state.color = c;
                    },
                    None => {},
                }
                Reaction::Recompose(compose(self.state.color, bank, geometry))
            },
            InputEvent::Unrecognized => Reaction::Ignored,
        }
    }
}

} // verus!
