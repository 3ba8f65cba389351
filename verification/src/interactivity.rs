//! The decisions an interactive element makes on input: which mouse presses
//! become clicks or drags, which key presses become keyboard clicks, and how a
//! wheel turn is split between the axes of a scrolling element.
use vstd::prelude::*;
use crate::geometry::{AxisOverflow, Overflow, Pixels, Point};
use crate::interaction::{ElementClickedState, ElementHoverState};
use crate::kbd::Keystroke;
use crate::list::FocusId;
use crate::text::str_eq;
use crate::tooltip::{ActiveTooltip, DispatchPhase};

verus! {

/// A mouse button.
#[derive(Clone, Copy, Debug, PartialEq, Eq, Structural)]
pub enum MouseButton {
    Left,
    Right,
    Middle,
    /// The "back" navigation button.
    Back,
    /// The "forward" navigation button.
    Forward,
}

/// A mouse press that may become a click or the start of a drag.
#[derive(Clone, Copy, Debug, PartialEq, Eq, Structural)]
pub struct MouseDown {
    pub button: MouseButton,
    pub position: Point,
}

/// The listeners that a completed mouse click goes to.
#[derive(Clone, Copy, Debug, PartialEq, Eq, Structural)]
pub enum ClickKind {
    /// The click listeners: the press was made with the left button.
    Primary,
    /// The auxiliary click listeners: any other button.
    Auxiliary,
}

/// How far, in logical pixels, the pointer must travel from a press before the
/// press turns into a drag.
pub const DRAG_THRESHOLD: i64 = 2;

/// The pointer at `to` is farther than the drag threshold from `from`.
pub open spec fn beyond_drag_threshold(from: Point, to: Point) -> bool {
    let dx = to.x.0 - from.x.0;
    let dy = to.y.0 - from.y.0;
    dx * dx + dy * dy > DRAG_THRESHOLD * DRAG_THRESHOLD
}

fn exceeds_drag_threshold(from: Point, to: Point) -> (r: bool)
    requires
        from.wf(),
        to.wf(),
    ensures
        r == beyond_drag_threshold(from, to),
{
    let dx: i128 = to.x.0 as i128 - from.x.0 as i128;
    let dy: i128 = to.y.0 as i128 - from.y.0 as i128;
    assert(dx * dx <= 4835703278458516698824704) by (nonlinear_arith)
        requires
            -2199023255552 <= dx <= 2199023255552,
    ;
    assert(dy * dy <= 4835703278458516698824704) by (nonlinear_arith)
        requires
            -2199023255552 <= dy <= 2199023255552,
    ;
    assert(dx * dx >= 0) by (nonlinear_arith);
    assert(dy * dy >= 0) by (nonlinear_arith);
    let threshold: i128 = DRAG_THRESHOLD as i128;
    assert(threshold == 2);
    let limit: i128 = threshold * threshold;
    dx * dx + dy * dy > limit
}

/// The listeners a press made with `button` completes into.
pub open spec fn click_kind_spec(button: MouseButton) -> ClickKind {
    if button == MouseButton::Left {
        ClickKind::Primary
    } else {
        ClickKind::Auxiliary
    }
}

/// The press that an element waits on to see whether it becomes a click or a
/// drag, and the press that the current release is completing.
#[derive(Clone, Copy, Debug, PartialEq, Eq, Structural)]
pub struct PressTracker {
    /// Set by a press over the element; cleared by a drag or a release.
    pub pending: Option<MouseDown>,
    /// Handed from the capture phase of a release over the element to its
    /// bubble phase, where the click is delivered.
    pub captured: Option<MouseDown>,
}

/// A press over the element is remembered when it arrives in the bubble phase
/// and is made with the left button, or with another button when the element
/// has auxiliary click listeners.
pub open spec fn press_down_spec(
    t: PressTracker,
    down: MouseDown,
    phase: DispatchPhase,
    hovered: bool,
    has_aux_click_listeners: bool,
) -> PressTracker {
    if phase == DispatchPhase::Bubble && (down.button == MouseButton::Left || has_aux_click_listeners)
        && hovered {
        PressTracker { pending: Some(down), ..t }
    } else {
        t
    }
}

/// A pointer move starts a drag when, in the bubble phase, a left-button press
/// is pending, nothing else is being dragged, the element can be dragged and
/// the pointer has left the drag threshold around the press.
pub open spec fn drag_starts_spec(
    t: PressTracker,
    position: Point,
    phase: DispatchPhase,
    has_active_drag: bool,
    has_drag_listener: bool,
) -> bool {
    match t.pending {
        Some(down) => phase == DispatchPhase::Bubble && !has_active_drag && has_drag_listener
            && down.button == MouseButton::Left && beyond_drag_threshold(down.position, position),
        None => false,
    }
}

/// A release: its capture phase clears the pending press and, when the pointer
/// is over the element, hands it to the bubble phase; the bubble phase turns a
/// handed-over press into a click.
pub open spec fn press_up_spec(t: PressTracker, phase: DispatchPhase, hovered: bool) -> (
    PressTracker,
    Option<ClickKind>,
) {
    match phase {
        DispatchPhase::Capture => {
            let captured = if t.pending is Some && hovered {
                t.pending
            } else {
                t.captured
            };
            (PressTracker { pending: None, captured }, None)
        },
        DispatchPhase::Bubble => match t.captured {
            Some(down) => (
                PressTracker { pending: t.pending, captured: None },
                Some(click_kind_spec(down.button)),
            ),
            None => (t, None),
        },
    }
}

/// Whether the pointer counts as over the element for its hover listener: only
/// while no press is pending and nothing is being dragged.
pub open spec fn hover_listener_hovered_spec(
    t: PressTracker,
    has_active_drag: bool,
    hovered: bool,
) -> bool {
    t.pending is None && !has_active_drag && hovered
}

impl PressTracker {
    /// No press pending.
    pub fn new() -> (r: PressTracker)
        ensures
            r.pending is None,
            r.captured is None,
    {
        PressTracker { pending: None, captured: None }
    }

    /// A mouse button goes down.
    pub fn mouse_down(
        &mut self,
        down: MouseDown,
        phase: DispatchPhase,
        hovered: bool,
        has_aux_click_listeners: bool,
    )
        ensures
            *final(self) == press_down_spec(*old(self), down, phase, hovered, has_aux_click_listeners),
    {
        let accepted = match down.button {
            MouseButton::Left => true,
            _ => has_aux_click_listeners,
        };
        let bubble = match phase {
            DispatchPhase::Bubble => true,
            DispatchPhase::Capture => false,
        };
        if bubble && accepted && hovered {
            self.pending = Some(down);
        }
    }

    /// The pointer moves; returns whether a drag of the element starts, which
    /// drops the pending press so that its release is no click.
    pub fn mouse_move(
        &mut self,
        position: Point,
        phase: DispatchPhase,
        has_active_drag: bool,
        has_drag_listener: bool,
    ) -> (drag: bool)
        requires
            position.wf(),
            (old(self).pending matches Some(d) ==> d.position.wf()),
        ensures
            drag == drag_starts_spec(
                *old(self),
                position,
                phase,
                has_active_drag,
                has_drag_listener,
            ),
            *final(self) == (if drag {
                PressTracker { pending: None, captured: old(self).captured }
            } else {
                *old(self)
            }),
    {
        let bubble = match phase {
            DispatchPhase::Bubble => true,
            DispatchPhase::Capture => false,
        };
        match self.pending {
            Some(down) => {
                let left = match down.button {
                    MouseButton::Left => true,
                    _ => false,
                };
                if bubble && !has_active_drag && has_drag_listener && left {
                    if exceeds_drag_threshold(down.position, position) {
                        self.pending = None;
                        return true;
                    }
                }
                false
            },
            None => false,
        }
    }

    /// A mouse button is released; returns the listeners that a completed
    /// click goes to.
    pub fn mouse_up(&mut self, phase: DispatchPhase, hovered: bool) -> (click: Option<ClickKind>)
        ensures
            (*final(self), click) == press_up_spec(*old(self), phase, hovered),
    {
        match phase {
            DispatchPhase::Capture => {
                if self.pending.is_some() && hovered {
                    self.captured = self.pending;
                }
                self.pending = None;
                None
            },
            DispatchPhase::Bubble => {
                match self.captured {
                    Some(down) => {
                        self.captured = None;
                        match down.button {
                            MouseButton::Left => Some(ClickKind::Primary),
                            _ => Some(ClickKind::Auxiliary),
                        }
                    },
                    None => None,
                }
            },
        }
    }

    /// Whether the pointer counts as over the element for its hover listener.
    pub fn hover_listener_hovered(&self, has_active_drag: bool, hovered: bool) -> (r: bool)
        ensures
            r == hover_listener_hovered_spec(*self, has_active_drag, hovered),
    {
        self.pending.is_none() && !has_active_drag && hovered
    }
}

/// The last hover value reported to an element's hover listener.
#[derive(Clone, Copy, Debug, PartialEq, Eq, Structural)]
pub struct HoverListenerState {
    pub was_hovered: bool,
}

impl HoverListenerState {
    /// Not hovered.
    pub fn new() -> (r: HoverListenerState)
        ensures
            !r.was_hovered,
    {
        HoverListenerState { was_hovered: false }
    }

    /// Records `is_hovered`; returns whether it differs from the last value, in
    /// which case the hover listener is called with it.
    pub fn update(&mut self, is_hovered: bool) -> (changed: bool)
        ensures
            changed == (is_hovered != old(self).was_hovered),
            final(self).was_hovered == is_hovered,
    {
        let changed = is_hovered != self.was_hovered;
        self.was_hovered = is_hovered;
        changed
    }
}

/// A press that the release completes with a click: the press must be the
/// pending one when the release arrives over the element.
pub proof fn lemma_release_over_element_clicks(t: PressTracker, down: MouseDown, has_aux: bool)
    requires
        down.button == MouseButton::Left || has_aux,
    ensures
        ({
            let pressed = press_down_spec(t, down, DispatchPhase::Bubble, true, has_aux);
            let captured = press_up_spec(pressed, DispatchPhase::Capture, true).0;
            let (after, click) = press_up_spec(captured, DispatchPhase::Bubble, true);
            &&& click == Some(click_kind_spec(down.button))
            &&& after.pending is None
            &&& after.captured is None
        }),
{
}

/// A press released away from the element is no click.
pub proof fn lemma_release_elsewhere_is_no_click(
    t: PressTracker,
    down: MouseDown,
    has_aux: bool,
    hovered_at_press: bool,
)
    requires
        t.captured is None,
    ensures
        ({
            let pressed = press_down_spec(t, down, DispatchPhase::Bubble, hovered_at_press, has_aux);
            let captured = press_up_spec(pressed, DispatchPhase::Capture, false).0;
            press_up_spec(captured, DispatchPhase::Bubble, false).1 is None
        }),
{
}

/// A press that turned into a drag is no click when it is released.
pub proof fn lemma_drag_cancels_click(
    t: PressTracker,
    down: MouseDown,
    position: Point,
    has_active_drag: bool,
    hovered: bool,
)
    requires
        t.captured is None,
        drag_starts_spec(
            press_down_spec(t, down, DispatchPhase::Bubble, true, false),
            position,
            DispatchPhase::Bubble,
            has_active_drag,
            true,
        ),
    ensures
        ({
            let pressed = press_down_spec(t, down, DispatchPhase::Bubble, true, false);
            let dragged = PressTracker { pending: None, captured: pressed.captured };
            let captured = press_up_spec(dragged, DispatchPhase::Capture, hovered).0;
            press_up_spec(captured, DispatchPhase::Bubble, hovered).1 is None
        }),
{
}

/// A key that clicks a focused element: Enter or Space.
#[derive(Clone, Copy, Debug, PartialEq, Eq, Structural)]
pub enum KeyboardButton {
    Enter,
    Space,
}

/// The activation key named `key`, if it is one.
pub open spec fn activation_key(key: Seq<char>) -> Option<KeyboardButton> {
    if key == "enter"@ {
        Some(KeyboardButton::Enter)
    } else if key == "space"@ {
        Some(KeyboardButton::Space)
    } else {
        None
    }
}

/// A key press that reaches a focused element in the bubble phase, without a
/// handler having prevented the default, records the window's focus generation
/// when it is an unmodified activation key and clears the record otherwise.
pub open spec fn key_down_spec(
    pending: Option<u64>,
    key: Seq<char>,
    modified: bool,
    focus_generation: u64,
    phase: DispatchPhase,
    default_prevented: bool,
) -> Option<u64> {
    if phase == DispatchPhase::Bubble && !default_prevented {
        if activation_key(key) is Some && !modified {
            Some(focus_generation)
        } else {
            None
        }
    } else {
        pending
    }
}

/// A key release that reaches the element in the bubble phase clears the
/// record; it clicks the element when it releases an unmodified activation key
/// and the record holds the current focus generation, so that focus did not
/// move between press and release and no other key came in between.
pub open spec fn key_up_spec(
    pending: Option<u64>,
    key: Seq<char>,
    modified: bool,
    focus_generation: u64,
    phase: DispatchPhase,
    default_prevented: bool,
) -> (Option<u64>, Option<KeyboardButton>) {
    if phase == DispatchPhase::Bubble && !default_prevented {
        if activation_key(key) is Some && !modified && pending == Some(focus_generation) {
            (None, activation_key(key))
        } else {
            (None, None)
        }
    } else {
        (pending, None)
    }
}

fn activation_key_of(key: &str) -> (r: Option<KeyboardButton>)
    ensures
        r == activation_key(key@),
{
    if str_eq(key, "enter") {
        Some(KeyboardButton::Enter)
    } else if str_eq(key, "space") {
        Some(KeyboardButton::Space)
    } else {
        None
    }
}

/// The pending Enter/Space press of a focused, clickable element, kept as the
/// window's focus generation at the time of the press.
#[derive(Clone, Copy, Debug, PartialEq, Eq, Structural)]
pub struct KeyboardActivation {
    pub pending: Option<u64>,
}

impl KeyboardActivation {
    /// No press pending.
    pub fn new() -> (r: KeyboardActivation)
        ensures
            r.pending is None,
    {
        KeyboardActivation { pending: None }
    }

    /// A key goes down while the element is focused.
    pub fn key_down(
        &mut self,
        keystroke: &Keystroke,
        focus_generation: u64,
        phase: DispatchPhase,
        default_prevented: bool,
    )
        ensures
            final(self).pending == key_down_spec(
                old(self).pending,
                keystroke.key@,
                keystroke.modifiers.modified_spec(),
                focus_generation,
                phase,
                default_prevented,
            ),
    {
        let bubble = match phase {
            DispatchPhase::Bubble => true,
            DispatchPhase::Capture => false,
        };
        if bubble && !default_prevented {
            let key = activation_key_of(keystroke.key.as_str());
            if key.is_some() && !keystroke.modifiers.modified() {
                self.pending = Some(focus_generation);
            } else {
                self.pending = None;
            }
        }
    }

    /// A key is released while the element is focused; returns the activation
    /// key when the release clicks the element.
    pub fn key_up(
        &mut self,
        keystroke: &Keystroke,
        focus_generation: u64,
        phase: DispatchPhase,
        default_prevented: bool,
    ) -> (click: Option<KeyboardButton>)
        ensures
            (final(self).pending, click) == key_up_spec(
                old(self).pending,
                keystroke.key@,
                keystroke.modifiers.modified_spec(),
                focus_generation,
                phase,
                default_prevented,
            ),
    {
        let bubble = match phase {
            DispatchPhase::Bubble => true,
            DispatchPhase::Capture => false,
        };
        if !bubble || default_prevented {
            return None;
        }
        let key = activation_key_of(keystroke.key.as_str());
        let pending = self.pending;
        self.pending = None;
        if key.is_some() && !keystroke.modifiers.modified() {
            match pending {
                Some(generation) => {
                    if generation == focus_generation {
                        key
                    } else {
                        None
                    }
                },
                None => None,
            }
        } else {
            None
        }
    }
}

/// A key release after a key press clicks the element exactly when both are
/// the same unmodified activation pair made under one focus generation (the
/// two keys may differ: Space down and Enter up click too), and the click
/// names the released key.
pub proof fn lemma_keyboard_click_needs_clean_pair(
    pending: Option<u64>,
    down_key: Seq<char>,
    down_modified: bool,
    down_generation: u64,
    up_key: Seq<char>,
    up_modified: bool,
    up_generation: u64,
)
    ensures
        ({
            let after_down = key_down_spec(
                pending,
                down_key,
                down_modified,
                down_generation,
                DispatchPhase::Bubble,
                false,
            );
            let (after_up, click) = key_up_spec(
                after_down,
                up_key,
                up_modified,
                up_generation,
                DispatchPhase::Bubble,
                false,
            );
            &&& (click is Some <==> (activation_key(down_key) is Some && !down_modified
                && activation_key(up_key) is Some && !up_modified && down_generation
                == up_generation))
            &&& (click is Some ==> click == activation_key(up_key))
            &&& after_up is None
        }),
{
}

/// A release that reaches the element always uses up the pending press, so a
/// second release never clicks.
pub proof fn lemma_release_consumes_press(
    pending: Option<u64>,
    key: Seq<char>,
    modified: bool,
    focus_generation: u64,
    second_key: Seq<char>,
    second_modified: bool,
)
    ensures
        ({
            let (after, _) = key_up_spec(
                pending,
                key,
                modified,
                focus_generation,
                DispatchPhase::Bubble,
                false,
            );
            key_up_spec(
                after,
                second_key,
                second_modified,
                focus_generation,
                DispatchPhase::Bubble,
                false,
            ).1 is None
        }),
{
}

/// The delta that a wheel turn `(dx, dy)` scrolls an element with `overflow`
/// by: each scrolling axis takes its own component, or, when that is zero and
/// scrolling is not restricted to the axis, the other axis's component if the
/// other axis does not scroll itself; without concurrent scrolling only the
/// larger of two non-zero components is kept (the vertical one on a tie).
pub open spec fn wheel_delta_spec(
    overflow: AxisOverflow,
    allow_concurrent_scroll: bool,
    restrict_scroll_to_axis: bool,
    dx: int,
    dy: int,
) -> (int, int) {
    let x = if overflow.x == Overflow::Scroll {
        if dx != 0 {
            dx
        } else if !restrict_scroll_to_axis && overflow.y != Overflow::Scroll {
            dy
        } else {
            0
        }
    } else {
        0
    };
    let y = if overflow.y == Overflow::Scroll {
        if dy != 0 {
            dy
        } else if !restrict_scroll_to_axis && overflow.x != Overflow::Scroll {
            dx
        } else {
            0
        }
    } else {
        0
    };
    if !allow_concurrent_scroll && x != 0 && y != 0 {
        if (if x < 0 { -x } else { x }) > (if y < 0 { -y } else { y }) {
            (x, 0)
        } else {
            (0, y)
        }
    } else {
        (x, y)
    }
}

/// Wheel routing treats the two axes alike: swapping the axes of the
/// overflow and of the wheel turn swaps the routed delta (apart from a tie
/// between equal components without concurrent scrolling, which the vertical
/// axis wins).
pub proof fn lemma_wheel_delta_mirrors_axes(
    overflow: AxisOverflow,
    allow_concurrent_scroll: bool,
    restrict_scroll_to_axis: bool,
    dx: int,
    dy: int,
)
    requires
        allow_concurrent_scroll || (if dx < 0 { -dx } else { dx }) != (if dy < 0 { -dy } else { dy }),
    ensures
        ({
            let r = wheel_delta_spec(overflow, allow_concurrent_scroll, restrict_scroll_to_axis, dx, dy);
            let m = wheel_delta_spec(
                AxisOverflow { x: overflow.y, y: overflow.x },
                allow_concurrent_scroll,
                restrict_scroll_to_axis,
                dy,
                dx,
            );
            m.0 == r.1 && m.1 == r.0
        }),
{
}

/// An element that scrolls along one axis only takes a whole wheel turn along
/// that axis: its own component, or the other one when its own is zero and
/// scrolling is not restricted to the axis; nothing moves along the other axis,
/// and an element that scrolls along neither axis does not move.
pub proof fn lemma_wheel_delta_single_axis(
    overflow: AxisOverflow,
    allow_concurrent_scroll: bool,
    restrict_scroll_to_axis: bool,
    dx: int,
    dy: int,
)
    ensures
        ({
            let r = wheel_delta_spec(overflow, allow_concurrent_scroll, restrict_scroll_to_axis, dx, dy);
            let sx = overflow.x == Overflow::Scroll;
            let sy = overflow.y == Overflow::Scroll;
            &&& sx && !sy ==> r == (if dx != 0 { dx } else if restrict_scroll_to_axis { 0 } else { dy }, 0int)
            &&& sy && !sx ==> r == (0int, if dy != 0 { dy } else if restrict_scroll_to_axis { 0 } else { dx })
            &&& !sx && !sy ==> r == (0int, 0int)
        }),
{
}

/// An element that scrolls along both axes takes each component on its own
/// axis; without concurrent scrolling a turn with two non-zero components
/// moves only along the axis of the larger one (the vertical one on a tie).
pub proof fn lemma_wheel_delta_both_axes(
    overflow: AxisOverflow,
    allow_concurrent_scroll: bool,
    restrict_scroll_to_axis: bool,
    dx: int,
    dy: int,
)
    requires
        overflow.x == Overflow::Scroll,
        overflow.y == Overflow::Scroll,
    ensures
        ({
            let r = wheel_delta_spec(overflow, allow_concurrent_scroll, restrict_scroll_to_axis, dx, dy);
            let ax = if dx < 0 { -dx } else { dx };
            let ay = if dy < 0 { -dy } else { dy };
            &&& (allow_concurrent_scroll || dx == 0 || dy == 0) ==> r == (dx, dy)
            &&& (!allow_concurrent_scroll && dx != 0 && dy != 0 && ax > ay) ==> r == (dx, 0int)
            &&& (!allow_concurrent_scroll && dx != 0 && dy != 0 && ax <= ay) ==> r == (0int, dy)
        }),
{
}

fn is_scroll(o: Overflow) -> (r: bool)
    ensures
        r == (o == Overflow::Scroll),
{
    match o {
        Overflow::Scroll => true,
        _ => false,
    }
}

/// The delta a wheel turn with pixel delta `delta` scrolls an element by.
pub fn wheel_scroll_delta(
    overflow: AxisOverflow,
    allow_concurrent_scroll: bool,
    restrict_scroll_to_axis: bool,
    delta: Point,
) -> (r: Point)
    requires
        delta.wf(),
    ensures
        (r.x.0 as int, r.y.0 as int) == wheel_delta_spec(
            overflow,
            allow_concurrent_scroll,
            restrict_scroll_to_axis,
            delta.x.0 as int,
            delta.y.0 as int,
        ),
        r.wf(),
{
    let scroll_x = is_scroll(overflow.x);
    let scroll_y = is_scroll(overflow.y);
    let mut x: i64 = 0;
    if scroll_x {
        if delta.x.0 != 0 {
            x = delta.x.0;
        } else if !restrict_scroll_to_axis && !scroll_y {
            x = delta.y.0;
        }
    }
    let mut y: i64 = 0;
    if scroll_y {
        if delta.y.0 != 0 {
            y = delta.y.0;
        } else if !restrict_scroll_to_axis && !scroll_x {
            y = delta.x.0;
        }
    }
    if !allow_concurrent_scroll && x != 0 && y != 0 {
        let ax: i64 = if x < 0 { -x } else { x };
        let ay: i64 = if y < 0 { -y } else { y };
        if ax > ay {
            y = 0;
        } else {
            x = 0;
        }
    }
    Point { x: Pixels(x), y: Pixels(y) }
}

/// Scrolls `offset` by a wheel turn: the offset moves by the routed delta;
/// returns whether it changed, in which case the element's view is notified.
pub fn apply_wheel_turn(
    offset: &mut Point,
    overflow: AxisOverflow,
    allow_concurrent_scroll: bool,
    restrict_scroll_to_axis: bool,
    delta: Point,
) -> (changed: bool)
    requires
        old(offset).wf(),
        delta.wf(),
    ensures
        ({
            let (dx, dy) = wheel_delta_spec(
                overflow,
                allow_concurrent_scroll,
                restrict_scroll_to_axis,
                delta.x.0 as int,
                delta.y.0 as int,
            );
            &&& final(offset).x.0 == old(offset).x.0 + dx
            &&& final(offset).y.0 == old(offset).y.0 + dy
            &&& changed == (dx != 0 || dy != 0)
        }),
{
    let d = wheel_scroll_delta(overflow, allow_concurrent_scroll, restrict_scroll_to_axis, delta);
    let old_offset = *offset;
    *offset = Point { x: Pixels(old_offset.x.0 + d.x.0), y: Pixels(old_offset.y.0 + d.y.0) };
    d.x.0 != 0 || d.y.0 != 0
}

/// The state an interactive element keeps from one frame to the next. Each part
/// is there once the element takes part in the interaction that needs it: focus,
/// pressing, hovering (styles and listener), clicking, keyboard clicks,
/// scrolling, and the tooltip (which may be absent while its slot exists).
#[derive(Clone, Copy, Debug, PartialEq, Eq, Structural)]
pub struct InteractiveElementState {
    pub focus: Option<FocusId>,
    pub clicked_state: Option<ElementClickedState>,
    pub hover_state: Option<ElementHoverState>,
    pub hover_listener_state: Option<HoverListenerState>,
    pub pending_mouse_down: Option<PressTracker>,
    pub pending_keyboard_down: Option<KeyboardActivation>,
    pub scroll_offset: Option<Point>,
    pub active_tooltip: Option<Option<ActiveTooltip>>,
}

impl InteractiveElementState {
    /// The state of an element that has not interacted yet: every part absent.
    pub fn new() -> (r: InteractiveElementState)
        ensures
            r.focus is None,
            r.clicked_state is None,
            r.hover_state is None,
            r.hover_listener_state is None,
            r.pending_mouse_down is None,
            r.pending_keyboard_down is None,
            r.scroll_offset is None,
            r.active_tooltip is None,
    {
        InteractiveElementState {
            focus: None,
            clicked_state: None,
            hover_state: None,
            hover_listener_state: None,
            pending_mouse_down: None,
            pending_keyboard_down: None,
            scroll_offset: None,
            active_tooltip: None,
        }
    }
}

impl Default for InteractiveElementState {
    fn default() -> (r: InteractiveElementState)
        ensures
            r.focus is None,
            r.clicked_state is None,
            r.hover_state is None,
            r.hover_listener_state is None,
            r.pending_mouse_down is None,
            r.pending_keyboard_down is None,
            r.scroll_offset is None,
            r.active_tooltip is None,
    {
        InteractiveElementState::new()
    }
}

/// What an element carries that can need a hitbox: settings, styles and
/// listeners (by how many of each kind are registered).
#[derive(Clone, Copy, Debug, PartialEq, Eq, Structural)]
pub struct HitboxUses {
    /// The hitbox behavior is other than normal: it blocks the mouse, or all
    /// but scrolling.
    pub special_behavior: bool,
    pub window_control: bool,
    pub mouse_cursor: bool,
    pub group: bool,
    pub scroll_offset: bool,
    pub tracked_focus: bool,
    pub hover_style: bool,
    pub group_hover_style: bool,
    pub hover_listener: bool,
    pub mouse_up_listeners: usize,
    pub mouse_pressure_listeners: usize,
    pub mouse_down_listeners: usize,
    pub mouse_move_listeners: usize,
    pub mouse_exit_listeners: usize,
    pub click_listeners: usize,
    pub aux_click_listeners: usize,
    pub scroll_wheel_listeners: usize,
    pub pinch_listeners: bool,
    pub drag_listener: bool,
    pub drop_listeners: usize,
    pub tooltip: bool,
    /// The inspector is picking an element.
    pub inspector_picking: bool,
}

/// Whether an element inserts a hitbox when painted: whenever anything it
/// carries reacts to the pointer or needs to know where the element is.
pub fn should_insert_hitbox(u: &HitboxUses) -> (r: bool)
    ensures
        r == (u.special_behavior || u.window_control || u.mouse_cursor || u.group || u.scroll_offset
            || u.tracked_focus || u.hover_style || u.group_hover_style || u.hover_listener
            || u.mouse_up_listeners > 0 || u.mouse_pressure_listeners > 0 || u.mouse_down_listeners > 0
            || u.mouse_move_listeners > 0 || u.mouse_exit_listeners > 0 || u.click_listeners > 0
            || u.aux_click_listeners > 0 || u.scroll_wheel_listeners > 0 || u.pinch_listeners
            || u.drag_listener || u.drop_listeners > 0 || u.tooltip || u.inspector_picking),
{
    u.special_behavior || u.window_control || u.mouse_cursor || u.group || u.scroll_offset
        || u.tracked_focus || u.hover_style || u.group_hover_style || u.hover_listener
        || u.mouse_up_listeners != 0 || u.mouse_pressure_listeners != 0 || u.mouse_down_listeners != 0
        || u.mouse_move_listeners != 0 || u.mouse_exit_listeners != 0 || u.click_listeners != 0
        || u.aux_click_listeners != 0 || u.scroll_wheel_listeners != 0 || u.pinch_listeners
        || u.drag_listener || u.drop_listeners != 0 || u.tooltip || u.inspector_picking
}

/// How laying an element out sets up its focus and its scroll offset.
#[derive(Clone, Copy, Debug, PartialEq, Eq)]
pub struct LayoutSetup {
    /// The focus handle the element tracks.
    pub tracked_focus: Option<FocusId>,
    /// The tab stop and tab index given to a focus handle that the element
    /// took from its state here.
    pub focus_tab: Option<(bool, Option<isize>)>,
    /// The element's scroll offset.
    pub scroll_offset: Option<Point>,
}

/// The element state after layout: while something is being dragged, a pending
/// press is dropped and the pressed state cleared; an element that takes its
/// focus from its state gets `new_focus` there unless it has a handle already;
/// an element that scrolls by its state gets a zero offset unless it has one.
pub open spec fn layout_state_spec(
    s: InteractiveElementState,
    drag_active: bool,
    takes_focus: bool,
    new_focus: FocusId,
    scrolls_here: bool,
) -> InteractiveElementState {
    let s1 = if drag_active {
        InteractiveElementState {
            pending_mouse_down: match s.pending_mouse_down {
                Some(t) => Some(PressTracker { pending: None, ..t }),
                None => None,
            },
            clicked_state: match s.clicked_state {
                Some(_) => Some(ElementClickedState { group: false, element: false }),
                None => None,
            },
            ..s
        }
    } else {
        s
    };
    let s2 = if takes_focus && s1.focus is None {
        InteractiveElementState { focus: Some(new_focus), ..s1 }
    } else {
        s1
    };
    if scrolls_here && s2.scroll_offset is None {
        InteractiveElementState { scroll_offset: Some(Point { x: Pixels(0), y: Pixels(0) }), ..s2 }
    } else {
        s2
    }
}

/// Sets up an element's focus and scroll offset as it is laid out, given its
/// state (absent for an element without identifier), whether something is
/// being dragged, whether it is focusable, the focus handle it tracks, a fresh
/// handle to use if it needs one, its tab stop and index, the offset of the
/// scroll handle it tracks, and whether its style scrolls along either axis.
/// A focusable element without a tracked handle takes the handle kept in its
/// state; an element without a tracked scroll handle that scrolls takes the
/// offset kept in its state.
pub fn layout_setup(
    state: &mut Option<InteractiveElementState>,
    drag_active: bool,
    focusable: bool,
    tracked_focus: Option<FocusId>,
    new_focus: FocusId,
    tab_stop: bool,
    tab_index: Option<isize>,
    tracked_scroll_offset: Option<Point>,
    scrolls: bool,
) -> (r: LayoutSetup)
    ensures
        match *old(state) {
            None => *final(state) is None,
            Some(s) => *final(state) == Some(layout_state_spec(
                s,
                drag_active,
                focusable && tracked_focus is None,
                new_focus,
                scrolls && tracked_scroll_offset is None,
            )),
        },
        r.tracked_focus == (if focusable && tracked_focus is None && *old(state) is Some {
            (*final(state))->0.focus
        } else {
            tracked_focus
        }),
        r.focus_tab == (if focusable && tracked_focus is None && *old(state) is Some {
            Some((tab_stop, tab_index))
        } else {
            None
        }),
        r.scroll_offset == (match tracked_scroll_offset {
            Some(o) => Some(o),
            None => if scrolls && *old(state) is Some { (*final(state))->0.scroll_offset } else { None },
        }),
{
    let takes_focus = focusable && tracked_focus.is_none();
    let scrolls_here = scrolls && tracked_scroll_offset.is_none();
    match state {
        None => LayoutSetup { tracked_focus, focus_tab: None, scroll_offset: tracked_scroll_offset },
        Some(s) => {
            if drag_active {
                if let Some(t) = &mut s.pending_mouse_down {
                    t.pending = None;
                }
                if s.clicked_state.is_some() {
                    s.clicked_state = Some(ElementClickedState::new());
                }
            }
            let mut focus = tracked_focus;
            let mut focus_tab = None;
            if takes_focus {
                if s.focus.is_none() {
                    s.focus = Some(new_focus);
                }
                focus = s.focus;
                focus_tab = Some((tab_stop, tab_index));
            }
            let scroll_offset = match tracked_scroll_offset {
                Some(o) => Some(o),
                None => {
                    if scrolls_here {
                        if s.scroll_offset.is_none() {
                            s.scroll_offset = Some(Point { x: Pixels(0), y: Pixels(0) });
                        }
                        s.scroll_offset
                    } else {
                        None
                    }
                },
            };
            LayoutSetup { tracked_focus: focus, focus_tab, scroll_offset }
        },
    }
}

/// What a mouse press does to the focus.
#[derive(Clone, Copy, Debug, PartialEq, Eq, Structural)]
pub struct PressFocus {
    /// The focus handle the press moves the focus to.
    pub focus: Option<FocusId>,
    /// Whether the press is marked handled, so that a focusable ancestor does
    /// not take the focus as well.
    pub prevent_default: bool,
}

/// A mouse press on an element that tracks a focus handle: in the bubble
/// phase, over the element, and unless an inner element already handled it,
/// the press focuses the element and marks itself handled. Otherwise nothing.
pub fn focus_on_press(
    tracked_focus: Option<FocusId>,
    phase: DispatchPhase,
    hovered: bool,
    default_prevented: bool,
) -> (r: PressFocus)
    ensures
        r == (if tracked_focus is Some && phase == DispatchPhase::Bubble && hovered && !default_prevented {
            PressFocus { focus: tracked_focus, prevent_default: true }
        } else {
            PressFocus { focus: None, prevent_default: false }
        }),
{
    let bubble = match phase {
        DispatchPhase::Bubble => true,
        DispatchPhase::Capture => false,
    };
    if tracked_focus.is_some() && bubble && hovered && !default_prevented {
        PressFocus { focus: tracked_focus, prevent_default: true }
    } else {
        PressFocus { focus: None, prevent_default: false }
    }
}

/// What releasing the mouse over an element with drop listeners does.
#[derive(Clone, Copy, Debug, PartialEq, Eq, Structural)]
pub struct DropOutcome {
    /// The drop listener run, by its index among the element's drop listeners.
    pub listener: Option<usize>,
    /// Whether the drag ends here (it is taken whether or not the drop is accepted).
    pub drag_taken: bool,
    /// Whether the window redraws and the release stops there.
    pub accepted: bool,
}

/// Whether the drop listener at `i` takes drags of type `t`.
pub open spec fn listens_for(types: Seq<u64>, i: int, t: u64) -> bool {
    0 <= i < types.len() && types[i] == t
}

/// Whether some drop listener takes drags of type `t`.
pub open spec fn has_listener(types: Seq<u64>, t: u64) -> bool {
    exists|i: int| #[trigger] listens_for(types, i, t)
}

/// A release over an element whose drop listeners take the drag types `types`
/// (in the order they were registered), while a drag of type `drag_type` is
/// active: in the bubble phase, over the element, the listener for the drag's
/// type takes the drag; it runs, the window redraws and the release stops
/// there when `can_drop` (the element's drop predicate on the drag, true
/// without one) allows it. Otherwise nothing happens. No two listeners take
/// the dragged type.
pub fn drop_on_release(
    phase: DispatchPhase,
    hovered: bool,
    drag_type: Option<u64>,
    types: &Vec<u64>,
    can_drop: bool,
) -> (r: DropOutcome)
    requires
        drag_type matches Some(t) ==> forall|i: int, j: int|
            #![trigger listens_for(types@, i, t), listens_for(types@, j, t)]
            listens_for(types@, i, t) && listens_for(types@, j, t) ==> i == j,
    ensures
        (phase == DispatchPhase::Bubble && hovered && (drag_type matches Some(t)
            && has_listener(types@, t))) ==> ({
            &&& r.drag_taken
            &&& r.accepted == can_drop
            &&& (r.listener is Some) == can_drop
            &&& (r.listener matches Some(i) ==> listens_for(types@, i as int, drag_type->0))
        }),
        !(phase == DispatchPhase::Bubble && hovered && (drag_type matches Some(t)
            && has_listener(types@, t))) ==> r == (DropOutcome {
            listener: None,
            drag_taken: false,
            accepted: false,
        }),
{
    let none = DropOutcome { listener: None, drag_taken: false, accepted: false };
    let bubble = match phase {
        DispatchPhase::Bubble => true,
        DispatchPhase::Capture => false,
    };
    if !bubble || !hovered {
        return none;
    }
    let t = match drag_type {
        Some(t) => t,
        None => { return none; },
    };
    let mut i: usize = 0;
    while i < types.len()
        invariant
            i <= types@.len(),
            phase == DispatchPhase::Bubble,
            hovered,
            drag_type == Some(t),
            forall|k: int| 0 <= k < i ==> !(#[trigger] listens_for(types@, k, t)),
        decreases types@.len() - i,
    {
        if types[i] == t {
            assert(listens_for(types@, i as int, t));
            assert(has_listener(types@, t));
            return DropOutcome {
                listener: if can_drop { Some(i) } else { None },
                drag_taken: true,
                accepted: can_drop,
            };
        }
        i = i + 1;
    }
    assert forall|k: int| !(#[trigger] listens_for(types@, k, t)) by {
        if 0 <= k < i {
        }
    }
    assert(!has_listener(types@, t));
    none
}

/// Which pointer cursor a painted element sets.
#[derive(Clone, Copy, Debug, PartialEq, Eq, Structural)]
pub enum CursorChoice {
    /// None.
    Unset,
    /// The cursor of the active drag, for the whole window.
    DragCursor,
    /// The element's own cursor, over its hitbox.
    StyleCursor,
}

/// What painting an interactive element sets up.
#[derive(Clone, Copy, Debug, PartialEq, Eq)]
pub struct PaintPlan {
    /// The tab group the element's contents are painted in.
    pub tab_group: Option<isize>,
    /// Whether the element's focus handle is registered as a tab stop.
    pub tab_stop: bool,
    pub cursor: CursorChoice,
    /// Whether the mouse and scroll listeners are registered.
    pub mouse_listeners: bool,
    /// Whether the element's hitbox is registered for its group.
    pub group_hitbox: bool,
    /// Whether the hitbox is registered as a window control area.
    pub window_control: bool,
}

/// What painting an element sets up: nothing when it is hidden; otherwise its
/// tab index as tab group when it is one, its focus handle as a tab stop when
/// it tracks one, and, only when it has a hitbox, the cursor (an active drag's
/// cursor over the whole window takes precedence over the element's own, and
/// while a drag without cursor is active neither is set), the mouse and scroll
/// listeners, its group's hitbox and its window control area.
pub fn paint_plan(
    hidden: bool,
    tab_group: bool,
    tab_index: Option<isize>,
    tracks_focus: bool,
    has_hitbox: bool,
    drag_active: bool,
    drag_cursor: bool,
    style_cursor: bool,
    group: bool,
    window_control: bool,
) -> (r: Option<PaintPlan>)
    ensures
        hidden ==> (r is None),
        !hidden ==> (r matches Some(p) && {
            &&& p.tab_group == (if tab_group { tab_index } else { None })
            &&& p.tab_stop == tracks_focus
            &&& p.cursor == (if !has_hitbox {
                CursorChoice::Unset
            } else if drag_active {
                if drag_cursor { CursorChoice::DragCursor } else { CursorChoice::Unset }
            } else if style_cursor {
                CursorChoice::StyleCursor
            } else {
                CursorChoice::Unset
            })
            &&& p.mouse_listeners == has_hitbox
            &&& p.group_hitbox == (has_hitbox && group)
            &&& p.window_control == (has_hitbox && window_control)
        }),
{
    if hidden {
        return None;
    }
    let cursor = if !has_hitbox {
        CursorChoice::Unset
    } else if drag_active {
        if drag_cursor { CursorChoice::DragCursor } else { CursorChoice::Unset }
    } else if style_cursor {
        CursorChoice::StyleCursor
    } else {
        CursorChoice::Unset
    };
    Some(PaintPlan {
        tab_group: if tab_group { tab_index } else { None },
        tab_stop: tracks_focus,
        cursor,
        mouse_listeners: has_hitbox,
        group_hitbox: has_hitbox && group,
        window_control: has_hitbox && window_control,
    })
}

} // verus!
