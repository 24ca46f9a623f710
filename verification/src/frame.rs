//! The frame-loop state machine: animation parameters (hue, saturation,
//! value), the clear-color override driven by pointer enter and leave,
//! the shape selector toggled by a key release, and the plan for one
//! frame's draw call.

use vstd::prelude::*;
use crate::color::{
    Rgba, UnitFrac, hsv_to_rgba, inside_color, outside_color, spec_hsv_rgba, spec_inside_color,
    spec_outside_color,
};
use crate::geometry::{spec_pentagon_indices, spec_star_indices};

verus! {

/// Which of the two precomputed shapes the next draw call uses.
#[derive(Clone, Copy, Debug, PartialEq, Eq, Structural)]
pub enum Shape {
    Pentagon,
    Star,
}

impl Shape {
    /// The other shape.
    pub open spec fn spec_flipped(self) -> Shape {
        match self {
            Shape::Pentagon => Shape::Star,
            Shape::Star => Shape::Pentagon,
        }
    }

    pub fn flipped(self) -> (r: Shape)
        ensures
            r == self.spec_flipped(),
    {
        match self {
            Shape::Pentagon => Shape::Star,
            Shape::Star => Shape::Pentagon,
        }
    }
}

/// A window size in whole pixels, well-formed when both spans are
/// positive.
#[derive(Clone, Copy, Debug, PartialEq, Eq, Structural)]
pub struct Size {
    pub width: u32,
    pub height: u32,
}

impl Size {
    pub open spec fn wf(self) -> bool {
        self.width > 0 && self.height > 0
    }
}

/// A discrete input event delivered by the window system, reduced to the
/// plain values the state machine reads.
#[derive(Clone, Copy, Debug, PartialEq, Eq, Structural)]
pub enum InputEvent {
    /// The toggle key was released.
    ToggleReleased,
    /// The pointer entered the window.
    CursorEntered,
    /// The pointer left the window.
    CursorLeft,
    /// The pointer moved to a position in whole pixels, measured from
    /// the window's top-left corner.
    CursorMoved { x: i64, y: i64 },
    /// The window was asked to close.
    CloseRequested,
    /// The quit key was pressed.
    QuitPressed,
    /// The window surface changed to a new size in whole pixels.
    Resized { width: u32, height: u32 },
    /// Any other window event.
    Other,
}

/// What the event loop does after one event is handled.
#[derive(Clone, Copy, Debug, PartialEq, Eq, Structural)]
pub enum LoopAction {
    Continue,
    Exit,
}

/// Everything the state machine owns: the animation parameters, the
/// clear-color override, the shape selector, and the window size.
#[derive(Clone, Copy, Debug, PartialEq, Eq, Structural)]
pub struct State {
    /// Hue in whole degrees, always below 360.
    pub hue: u32,
    /// Saturation as an exact unit fraction.
    pub sat: UnitFrac,
    /// Value as an exact unit fraction.
    pub val: UnitFrac,
    /// The override color set by pointer enter and leave events.
    pub clear_color: Rgba,
    /// Which shape the next draw call uses.
    pub toggle: Shape,
    /// The current window size.
    pub size: Size,
}

/// The effect one input event has on the state: a toggle flips the
/// shape, enter and leave set the fixed override colors, a pointer move
/// maps the position to saturation and value, everything else leaves the
/// state alone.
pub open spec fn input_step(s: State, e: InputEvent) -> State {
    match e {
        InputEvent::ToggleReleased => State { toggle: s.toggle.spec_flipped(), ..s },
        InputEvent::CursorEntered => State { clear_color: spec_inside_color(), ..s },
        InputEvent::CursorLeft => State { clear_color: spec_outside_color(), ..s },
        InputEvent::CursorMoved { x, y } => State {
            sat: UnitFrac::spec_clamped(x as int, s.size.width as int),
            val: UnitFrac::spec_clamped(y as int, s.size.height as int),
            ..s
        },
        _ => s,
    }
}

/// Whether an event lets the surrounding loop keep processing it: the
/// three events the state consumes outright report `false`, everything
/// else reports `true`.
pub open spec fn input_passes_on(e: InputEvent) -> bool {
    !(e is ToggleReleased || e is CursorEntered || e is CursorLeft)
}

/// The effect one event has once the loop's own handling is counted in:
/// a resize to a positive size is recorded, a resize to an empty size is
/// ignored, and every other event acts as in `input_step`.
pub open spec fn event_step(s: State, e: InputEvent) -> State {
    match e {
        InputEvent::Resized { width, height } => {
            if width > 0 && height > 0 {
                State { size: Size { width, height }, ..s }
            } else {
                s
            }
        },
        _ => input_step(s, e),
    }
}

/// Whether an event ends the loop: a close request or the quit key.
pub open spec fn event_exits(e: InputEvent) -> bool {
    e is CloseRequested || e is QuitPressed
}

/// The plan for one frame: the color to clear to and the shape and index
/// count of the single draw call.
pub struct FramePlan {
    pub clear: Rgba,
    pub shape: Shape,
    pub index_count: u32,
}

impl State {
    /// The invariant every reachable state satisfies.
    pub open spec fn wf(self) -> bool {
        &&& self.hue < 360
        &&& self.sat.wf()
        &&& self.val.wf()
        &&& self.clear_color.wf()
        &&& self.size.wf()
    }

    /// The state at startup: hue zero, saturation and value one half,
    /// the pentagon selected, and the outside override color.
    pub fn new(size: Size) -> (s: State)
        requires
            size.wf(),
        ensures
            s.wf(),
            s.hue == 0,
            s.sat == (UnitFrac { num: 1, den: 2 }),
            s.val == (UnitFrac { num: 1, den: 2 }),
            s.clear_color == spec_outside_color(),
            s.toggle is Pentagon,
            s.size == size,
    {
        State {
            hue: 0,
            sat: UnitFrac { num: 1, den: 2 },
            val: UnitFrac { num: 1, den: 2 },
            clear_color: outside_color(),
            toggle: Shape::Pentagon,
            size,
        }
    }

    /// Handles one input event and reports whether the loop should keep
    /// processing it.
    pub fn input(&mut self, event: &InputEvent) -> (pass_on: bool)
        requires
            old(self).wf(),
        ensures
            final(self).wf(),
            *final(self) == input_step(*old(self), *event),
            pass_on == input_passes_on(*event),
    {
        match event {
            InputEvent::ToggleReleased => {
                self.toggle = self.toggle.flipped();
                false
            },
            InputEvent::CursorEntered => {
                self.clear_color = inside_color();
                false
            },
            InputEvent::CursorLeft => {
                self.clear_color = outside_color();
                false
            },
            InputEvent::CursorMoved { x, y } => {
                self.sat = UnitFrac::clamped(*x, self.size.width);
                self.val = UnitFrac::clamped(*y, self.size.height);
                true
            },
            _ => true,
        }
    }

    /// Advances the hue by one degree, wrapping at a full circle.
    pub fn update(&mut self)
        requires
            old(self).wf(),
        ensures
            final(self).wf(),
            final(self).hue == (old(self).hue + 1) % 360,
            final(self).sat == old(self).sat,
            final(self).val == old(self).val,
            final(self).clear_color == old(self).clear_color,
            final(self).toggle == old(self).toggle,
            final(self).size == old(self).size,
    {
        self.hue = (self.hue + 1) % 360;
    }

    /// Records a new window size.
    pub fn resize(&mut self, new_size: Size)
        requires
            old(self).wf(),
            new_size.wf(),
        ensures
            final(self).wf(),
            *final(self) == (State { size: new_size, ..*old(self) }),
    {
        self.size = new_size;
    }

    /// Handles one window event as the event loop does: feeds it to the
    /// state, then decides whether to resize or to end the loop.
    pub fn handle_window_event(&mut self, event: &InputEvent) -> (action: LoopAction)
        requires
            old(self).wf(),
        ensures
            final(self).wf(),
            *final(self) == event_step(*old(self), *event),
            action is Exit <==> event_exits(*event),
    {
        let pass_on = self.input(event);
        if pass_on {
            match event {
                InputEvent::CloseRequested => LoopAction::Exit,
                InputEvent::QuitPressed => LoopAction::Exit,
                InputEvent::Resized { width, height } => {
                    if *width > 0 && *height > 0 {
                        self.resize(Size { width: *width, height: *height });
                    }
                    LoopAction::Continue
                },
                _ => LoopAction::Continue,
            }
        } else {
            LoopAction::Continue
        }
    }

    /// Plans one frame: the clear color is the exact HSV conversion of
    /// the current animation parameters, and the draw call covers the
    /// full index list of the selected shape.
    pub fn render_plan(&self) -> (p: FramePlan)
        requires
            self.wf(),
        ensures
            p.clear == spec_hsv_rgba(self.hue as int, self.sat, self.val),
            p.clear.wf(),
            p.shape == self.toggle,
            p.shape is Pentagon ==> p.index_count == spec_pentagon_indices().len(),
            p.shape is Star ==> p.index_count == spec_star_indices().len(),
    {
        let clear = hsv_to_rgba(self.hue, self.sat, self.val);
        let index_count: u32 = match self.toggle {
            Shape::Pentagon => 9,
            Shape::Star => 24,
        };
        FramePlan { clear, shape: self.toggle, index_count }
    }
}

/// Advancing the hue always lands back inside the circle: for every
/// starting hue, the incremented hue taken modulo 360 lies in [0, 360).
pub proof fn lemma_hue_advance_in_range(h: int)
    ensures
        0 <= (h + 1) % 360 < 360,
{
}

/// Toggling is an involution: flipping the shape twice returns the
/// original shape, so two toggle events restore the original state.
pub proof fn lemma_toggle_involution(s: State)
    ensures
        input_step(input_step(s, InputEvent::ToggleReleased), InputEvent::ToggleReleased) == s,
{
}

/// The override colors are fixed: whatever the animation state, a
/// pointer-enter event sets the one inside color and a pointer-leave
/// event sets the one outside color.
pub proof fn lemma_hover_colors_fixed(s: State)
    ensures
        input_step(s, InputEvent::CursorEntered).clear_color == spec_inside_color(),
        input_step(s, InputEvent::CursorLeft).clear_color == spec_outside_color(),
{
}

} // verus!
