use vstd::prelude::*;
use crate::transform::{
    PixelPos, SurfaceSize, SceneVec, scene_at, anchored_offset, pixel_to_scene,
    rebalance_offset_for_zoom, FIXED_ONE,
};

verus! {

/// Each zoom-in step divides the zoom factor by
/// `ZOOM_DIVISOR_NUM / ZOOM_DIVISOR_DEN`, that is by 1.1.
pub const ZOOM_DIVISOR_NUM: i64 = 11;

pub const ZOOM_DIVISOR_DEN: i64 = 10;

/// The view transform and the input it depends on.
#[derive(Clone, Copy, Debug, PartialEq, Eq, Structural)]
pub struct ViewState {
    /// Scale factor in fixed-point units; always positive.
    pub zoom: i64,
    /// Scene-space translation applied after scaling.
    pub offset: SceneVec,
    /// Last observed pointer position.
    pub cursor: PixelPos,
    /// Current drawable size; equal to the size the surface was last
    /// configured with.
    pub surface: SurfaceSize,
}

/// The contents of the uniform the fragment stage reads: zoom, then the
/// offset's two coordinates, in fixed-point units.
#[derive(Clone, Copy, Debug, PartialEq, Eq, Structural)]
pub struct Uniform {
    pub zoom: i64,
    pub offset: SceneVec,
}

/// An input event, independent of any windowing library.
#[derive(Clone, Copy, Debug, PartialEq, Eq, Structural)]
pub enum Event {
    CursorMoved(PixelPos),
    Resized(SurfaceSize),
    PrimaryButtonPressed,
    CloseRequested,
}

/// What the event loop must do after an event has been handled.
#[derive(Clone, Copy, Debug, PartialEq, Eq, Structural)]
pub enum Action {
    /// Nothing visible changed.
    Nothing,
    /// Configure the surface to this size, then request a redraw.
    ReconfigureAndRedraw(SurfaceSize),
    /// Write this uniform (before anything else), then request a redraw.
    UploadAndRedraw(Uniform),
    /// Leave the event loop.
    Exit,
}

impl ViewState {
    pub open spec fn wf(self) -> bool {
        self.zoom > 0
    }
}

/// The zoom after one zoom-in step: `floor(zoom / 1.1)`, except that a zoom
/// already at the smallest positive value stays there.
pub open spec fn next_zoom(zoom: int) -> int {
    if (zoom * ZOOM_DIVISOR_DEN) / (ZOOM_DIVISOR_NUM as int) > 0 {
        (zoom * ZOOM_DIVISOR_DEN) / (ZOOM_DIVISOR_NUM as int)
    } else {
        zoom
    }
}

/// One zoom-in step anchored at the cursor: the scene point under the cursor
/// is taken at the old zoom, the zoom shrinks, and the offset is rebalanced so
/// that the point stays under the cursor. Where no anchor or no offset can be
/// computed (a degenerate surface), the offset is left as it was.
pub open spec fn zoom_step(s: ViewState) -> ViewState {
    let z = next_zoom(s.zoom as int) as i64;
    let offset = match scene_at(s.cursor, s.zoom, s.offset, s.surface) {
        Some(anchor) => match anchored_offset(anchor, s.cursor, z, s.surface) {
            Some(o) => o,
            None => s.offset,
        },
        None => s.offset,
    };
    ViewState { zoom: z, offset, ..s }
}

pub open spec fn uniform_of(s: ViewState) -> Uniform {
    Uniform { zoom: s.zoom, offset: s.offset }
}

/// The state after handling `e` in state `s`.
pub open spec fn next_state(s: ViewState, e: Event) -> ViewState {
    match e {
        Event::CursorMoved(p) => ViewState { cursor: p, ..s },
        Event::Resized(size) => ViewState { surface: size, ..s },
        Event::PrimaryButtonPressed => zoom_step(s),
        Event::CloseRequested => s,
    }
}

/// What handling `e` in state `s` asks of the event loop.
pub open spec fn action_for(s: ViewState, e: Event) -> Action {
    match e {
        Event::CursorMoved(_) => Action::Nothing,
        Event::Resized(size) => Action::ReconfigureAndRedraw(size),
        Event::PrimaryButtonPressed => Action::UploadAndRedraw(uniform_of(zoom_step(s))),
        Event::CloseRequested => Action::Exit,
    }
}

impl ViewState {
    /// The view at startup: zoom 1.0, no offset, cursor at the origin.
    pub fn new(surface: SurfaceSize) -> (r: ViewState)
        ensures
            r.wf(),
            r == (ViewState {
                zoom: FIXED_ONE,
                offset: SceneVec { x: 0, y: 0 },
                cursor: PixelPos { x: 0, y: 0 },
                surface,
            }),
    {
        ViewState {
            zoom: FIXED_ONE,
            offset: SceneVec { x: 0, y: 0 },
            cursor: PixelPos { x: 0, y: 0 },
            surface,
        }
    }

    /// The uniform contents that describe this view.
    pub fn uniform(&self) -> (r: Uniform)
        ensures
            r == uniform_of(*self),
    {
        Uniform { zoom: self.zoom, offset: self.offset }
    }

    /// Performs one zoom-in step anchored at the cursor (see `zoom_step`).
    pub fn zoom_in(&mut self)
        requires
            old(self).wf(),
        ensures
            final(self).wf(),
            *final(self) == zoom_step(*old(self)),
    {
        let scaled: u128 = (self.zoom as u128) * (ZOOM_DIVISOR_DEN as u128) / (ZOOM_DIVISOR_NUM as u128);
        let z: i64 = if scaled > 0 {
            assert(scaled <= self.zoom) by (nonlinear_arith)
                requires scaled == (self.zoom as int * 10) / 11, self.zoom > 0;
            scaled as i64
        } else {
            self.zoom
        };
        if let Some(anchor) = pixel_to_scene(self.cursor, self.zoom, self.offset, self.surface) {
            if let Some(o) = rebalance_offset_for_zoom(anchor, self.cursor, z, self.surface) {
                self.offset = o;
            }
        }
        self.zoom = z;
    }

    /// Handles one input event and says what the event loop must do next.
    /// A zoom event changes the view before its uniform is handed out, and
    /// the uniform comes before the redraw it is for.
    pub fn dispatch(&mut self, event: Event) -> (r: Action)
        requires
            old(self).wf(),
        ensures
            final(self).wf(),
            *final(self) == next_state(*old(self), event),
            r == action_for(*old(self), event),
    {
        match event {
            Event::CursorMoved(p) => {
                self.cursor = p;
                Action::Nothing
            },
            Event::Resized(size) => {
                self.surface = size;
                Action::ReconfigureAndRedraw(size)
            },
            Event::PrimaryButtonPressed => {
                self.zoom_in();
                Action::UploadAndRedraw(self.uniform())
            },
            Event::CloseRequested => Action::Exit,
        }
    }
}

/// The state after `n` zoom-in steps from `s`.
pub open spec fn zoom_steps(s: ViewState, n: nat) -> ViewState
    decreases n,
{
    if n == 0 {
        s
    } else {
        zoom_steps(zoom_step(s), (n - 1) as nat)
    }
}

/// The state after handling the events of `es` in order.
pub open spec fn run_events(s: ViewState, es: Seq<Event>) -> ViewState
    decreases es.len(),
{
    if es.len() == 0 {
        s
    } else {
        run_events(next_state(s, es[0]), es.drop_first())
    }
}

/// The uniform contents resident after handling the events of `es` in order,
/// starting from resident contents `resident`: each upload replaces them.
pub open spec fn resident_after(resident: Uniform, s: ViewState, es: Seq<Event>) -> Uniform
    decreases es.len(),
{
    if es.len() == 0 {
        resident
    } else {
        let r = match action_for(s, es[0]) {
            Action::UploadAndRedraw(u) => u,
            _ => resident,
        };
        resident_after(r, next_state(s, es[0]), es.drop_first())
    }
}

/// `n` presses of the primary button.
pub open spec fn presses(n: nat) -> Seq<Event> {
    Seq::new(n, |i: int| Event::PrimaryButtonPressed)
}

/// Each zoom-in step keeps the zoom positive and divides it by 1.1, rounded
/// down; it strictly decreases until it reaches the smallest positive
/// fixed-point value, where it stays.
pub proof fn lemma_zoom_step_decreases(s: ViewState)
    requires
        s.wf(),
    ensures
        zoom_step(s).wf(),
        s.zoom >= 2 ==> zoom_step(s).zoom * ZOOM_DIVISOR_NUM <= s.zoom * ZOOM_DIVISOR_DEN
            < (zoom_step(s).zoom + 1) * ZOOM_DIVISOR_NUM,
        s.zoom >= 2 ==> zoom_step(s).zoom < s.zoom,
        s.zoom == 1 ==> zoom_step(s).zoom == 1,
{
    let z = s.zoom as int;
    let q = (z * 10) / 11;
    vstd::arithmetic::div_mod::lemma_fundamental_div_mod(z * 10, 11);
    if z >= 2 {
        assert(q > 0 && q < z) by (nonlinear_arith)
            requires z * 10 == 11 * q + (z * 10) % 11, 0 <= (z * 10) % 11 < 11, z >= 2;
    }
}

/// Any number of zoom-in presses leaves the zoom positive, and a press
/// strictly shrinks it while it is above the smallest positive value.
pub proof fn lemma_zoom_stays_positive(s: ViewState, n: nat)
    requires
        s.wf(),
    ensures
        zoom_steps(s, n).wf(),
        run_events(s, presses(n)) == zoom_steps(s, n),
        zoom_steps(s, n).zoom <= s.zoom,
        n > 0 && s.zoom >= 2 ==> zoom_steps(s, n).zoom < s.zoom,
    decreases n,
{
    lemma_zoom_step_decreases(s);
    if n > 0 {
        assert(presses(n).drop_first() =~= presses((n - 1) as nat));
        lemma_zoom_stays_positive(zoom_step(s), (n - 1) as nat);
    }
}

/// A resize to the size already current changes neither zoom nor offset (nor
/// anything else in the view), and the surface is still reconfigured.
pub proof fn lemma_resize_idempotent(s: ViewState, size: SurfaceSize)
    requires
        s.surface == size,
    ensures
        next_state(s, Event::Resized(size)) == s,
        action_for(s, Event::Resized(size)) == Action::ReconfigureAndRedraw(size),
{
}

/// On a surface without area a zoom-in step leaves the offset as it was.
pub proof fn lemma_zoom_on_degenerate_surface(s: ViewState)
    requires
        s.surface.is_degenerate(),
    ensures
        zoom_step(s).offset == s.offset,
{
}

/// Over a run of `n` zoom presses, the `k`-th press (counting from 0) uploads
/// exactly the view after `k + 1` zoom steps, ahead of the redraw it asks
/// for; after the run the resident uniform is the view after `n` steps.
pub proof fn lemma_upload_ordering(resident: Uniform, s: ViewState, n: nat, k: nat)
    requires
        s.wf(),
        k < n,
    ensures
        action_for(run_events(s, presses(k)), Event::PrimaryButtonPressed)
            == Action::UploadAndRedraw(uniform_of(zoom_steps(s, k + 1))),
        resident_after(resident, s, presses(n)) == uniform_of(zoom_steps(s, n)),
{
    lemma_zoom_stays_positive(s, k);
    lemma_steps_split(s, k);
    lemma_resident_after_presses(resident, s, n);
}

proof fn lemma_steps_split(s: ViewState, k: nat)
    ensures
        zoom_steps(s, k + 1) == zoom_step(zoom_steps(s, k)),
    decreases k,
{
    if k > 0 {
        lemma_steps_split(zoom_step(s), (k - 1) as nat);
    } else {
        assert(zoom_steps(zoom_step(s), 0) == zoom_step(s));
    }
}

proof fn lemma_resident_after_presses(resident: Uniform, s: ViewState, n: nat)
    requires
        n > 0,
    ensures
        resident_after(resident, s, presses(n)) == uniform_of(zoom_steps(s, n)),
    decreases n,
{
    assert(presses(n).drop_first() =~= presses((n - 1) as nat));
    assert(zoom_steps(s, n) == zoom_steps(zoom_step(s), (n - 1) as nat));
    if n > 1 {
        lemma_resident_after_presses(uniform_of(zoom_step(s)), zoom_step(s), (n - 1) as nat);
    } else {
        assert(zoom_steps(zoom_step(s), 0) == zoom_step(s));
        assert(presses(n)[0] == Event::PrimaryButtonPressed);
        assert(resident_after(uniform_of(zoom_step(s)), zoom_step(s), presses(0)) == uniform_of(zoom_step(s)));
    }
}

} // verus!
