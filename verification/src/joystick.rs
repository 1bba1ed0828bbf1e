//! Joystick state diffing: polling hands the library a full hardware
//! snapshot, and the library emits events only for what changed, with axis
//! changes below a deadzone suppressed.

use vstd::prelude::*;

use std::collections::VecDeque;

use crate::event::Button;
use crate::event::ButtonArgs;
use crate::event::ButtonState;
use crate::event::Input;
use crate::event::Motion;

verus! {

/// How many axes or buttons one joystick can report: events number them
/// with an eight-bit index.
pub const MAX_JOYSTICK_CHANNELS: usize = 256;

/// The magnitude of an axis position.
pub open spec fn magnitude(a: i32) -> int {
    if a < 0 {
        -(a as int)
    } else {
        a as int
    }
}

/// Whether a fresh axis reading counts as a change: it must differ from the
/// stored position and lie outside the deadzone. A reading inside the
/// deadzone is dropped entirely; it does not even replace the stored
/// position.
pub open spec fn axis_changed(prev: i32, a: i32, deadzone: i32) -> bool {
    a != prev && magnitude(a) >= deadzone
}

/// Whether a raw button reading counts as pressed.
pub open spec fn button_pressed(raw: i32) -> bool {
    raw > 0
}

/// The event one changed axis emits.
pub open spec fn axis_event(id: u32, axis: u8, position: i32) -> Input {
    Input::Move(Motion::ControllerAxis { id, axis, position })
}

/// The event one changed button emits.
pub open spec fn button_event(id: u32, button: u8, pressed: bool) -> Input {
    Input::Button(
        ButtonArgs {
            state: if pressed {
                ButtonState::Press
            } else {
                ButtonState::Release
            },
            button: Button::Controller { id, button },
            scancode: None,
        },
    )
}

/// The axis-change events of a diff of `new` against `prev`, restricted to
/// the first `n` axes, in axis order.
pub open spec fn axis_events_upto(
    id: u32,
    prev: Seq<i32>,
    new: Seq<i32>,
    deadzone: i32,
    n: int,
) -> Seq<Input>
    decreases n,
{
    if n <= 0 {
        Seq::empty()
    } else {
        axis_events_upto(id, prev, new, deadzone, n - 1) + if axis_changed(
            prev[n - 1],
            new[n - 1],
            deadzone,
        ) {
            seq![axis_event(id, (n - 1) as u8, new[n - 1])]
        } else {
            Seq::empty()
        }
    }
}

/// The axis-change events of a diff of the readings `new` against the stored
/// positions `prev`, in axis order.
pub open spec fn axis_events(id: u32, prev: Seq<i32>, new: Seq<i32>, deadzone: i32) -> Seq<
    Input,
> {
    axis_events_upto(id, prev, new, deadzone, new.len() as int)
}

/// The stored axis positions after a diff against the readings `new`,
/// restricted to the first `n` axes: a changed axis takes its new position,
/// every other keeps the stored one.
pub open spec fn updated_axes_upto(prev: Seq<i32>, new: Seq<i32>, deadzone: i32, n: int) -> Seq<
    i32,
> {
    prev.map(
        |i: int, p: i32|
            if 0 <= i < n && i < new.len() && axis_changed(p, new[i], deadzone) {
                new[i]
            } else {
                p
            },
    )
}

/// The stored axis positions after a diff against the readings `new`.
pub open spec fn updated_axes(prev: Seq<i32>, new: Seq<i32>, deadzone: i32) -> Seq<i32> {
    updated_axes_upto(prev, new, deadzone, new.len() as int)
}

/// The button-change events of a diff of `new` against `prev`, restricted to
/// the first `n` buttons, in button order.
pub open spec fn button_events_upto(id: u32, prev: Seq<bool>, new: Seq<i32>, n: int) -> Seq<Input>
    decreases n,
{
    if n <= 0 {
        Seq::empty()
    } else {
        button_events_upto(id, prev, new, n - 1) + if button_pressed(new[n - 1]) != prev[n - 1] {
            seq![button_event(id, (n - 1) as u8, button_pressed(new[n - 1]))]
        } else {
            Seq::empty()
        }
    }
}

/// The button-change events of a diff of the readings `new` against the
/// stored states `prev`, in button order.
pub open spec fn button_events(id: u32, prev: Seq<bool>, new: Seq<i32>) -> Seq<Input> {
    button_events_upto(id, prev, new, new.len() as int)
}

/// The stored button states after a diff against the readings `new`,
/// restricted to the first `n` buttons.
pub open spec fn updated_buttons_upto(prev: Seq<bool>, new: Seq<i32>, n: int) -> Seq<bool> {
    prev.map(
        |i: int, p: bool|
            if 0 <= i < n && i < new.len() {
                button_pressed(new[i])
            } else {
                p
            },
    )
}

/// The stored button states after a diff against the readings `new`.
pub open spec fn updated_buttons(prev: Seq<bool>, new: Seq<i32>) -> Seq<bool> {
    updated_buttons_upto(prev, new, new.len() as int)
}

/// The button states stored when a joystick is first seen connected: a
/// positive reading counts as pressed, exactly as the steady-state diff
/// reads it, so a button held while connecting is not reported as a change
/// on the next poll.
pub open spec fn connect_buttons(new: Seq<i32>) -> Seq<bool> {
    new.map(|i: int, b: i32| button_pressed(b))
}

proof fn lemma_axis_events_upto_empty(
    id: u32,
    prev: Seq<i32>,
    new: Seq<i32>,
    deadzone: i32,
    n: int,
)
    requires
        n <= new.len(),
        forall|i: int| 0 <= i < n ==> !axis_changed(prev[i], new[i], deadzone),
    ensures
        axis_events_upto(id, prev, new, deadzone, n) == Seq::<Input>::empty(),
    decreases n,
{
    if n > 0 {
        lemma_axis_events_upto_empty(id, prev, new, deadzone, n - 1);
        assert(axis_events_upto(id, prev, new, deadzone, n) =~= Seq::<Input>::empty());
    } else {
        assert(axis_events_upto(id, prev, new, deadzone, n) =~= Seq::<Input>::empty());
    }
}

proof fn lemma_button_events_upto_empty(id: u32, prev: Seq<bool>, new: Seq<i32>, n: int)
    requires
        n <= new.len(),
        forall|i: int| 0 <= i < n ==> button_pressed(new[i]) == prev[i],
    ensures
        button_events_upto(id, prev, new, n) == Seq::<Input>::empty(),
    decreases n,
{
    if n > 0 {
        lemma_button_events_upto_empty(id, prev, new, n - 1);
        assert(button_events_upto(id, prev, new, n) =~= Seq::<Input>::empty());
    } else {
        assert(button_events_upto(id, prev, new, n) =~= Seq::<Input>::empty());
    }
}

/// The diff reports each hardware change exactly once: after one diff
/// against a snapshot, a second diff against the same snapshot emits no
/// events and leaves the stored state as it is.
pub proof fn lemma_second_diff_is_quiet(
    id: u32,
    prev_axes: Seq<i32>,
    new_axes: Seq<i32>,
    deadzone: i32,
    prev_buttons: Seq<bool>,
    new_buttons: Seq<i32>,
)
    requires
        new_axes.len() <= prev_axes.len(),
        new_buttons.len() <= prev_buttons.len(),
    ensures
        axis_events(id, updated_axes(prev_axes, new_axes, deadzone), new_axes, deadzone) == Seq::<
            Input,
        >::empty(),
        updated_axes(updated_axes(prev_axes, new_axes, deadzone), new_axes, deadzone)
            == updated_axes(prev_axes, new_axes, deadzone),
        button_events(id, updated_buttons(prev_buttons, new_buttons), new_buttons) == Seq::<
            Input,
        >::empty(),
        updated_buttons(updated_buttons(prev_buttons, new_buttons), new_buttons)
            == updated_buttons(prev_buttons, new_buttons),
{
    let ua = updated_axes(prev_axes, new_axes, deadzone);
    assert forall|i: int| 0 <= i < new_axes.len() implies !axis_changed(
        ua[i],
        new_axes[i],
        deadzone,
    ) by {
        if axis_changed(prev_axes[i], new_axes[i], deadzone) {
            assert(ua[i] == new_axes[i]);
        }
    }
    lemma_axis_events_upto_empty(id, ua, new_axes, deadzone, new_axes.len() as int);
    assert(updated_axes(ua, new_axes, deadzone) =~= ua);
    let ub = updated_buttons(prev_buttons, new_buttons);
    assert(forall|i: int|
        0 <= i < new_buttons.len() ==> button_pressed(new_buttons[i]) == ub[i]);
    lemma_button_events_upto_empty(id, ub, new_buttons, new_buttons.len() as int);
    assert(updated_buttons(ub, new_buttons) =~= ub);
}

/// The snapshot taken at connection already agrees with the hardware: a poll
/// right after it with the same readings emits no events and changes no
/// stored state, whatever was held while connecting.
pub proof fn lemma_poll_after_connect_is_quiet(
    id: u32,
    axes: Seq<i32>,
    buttons: Seq<i32>,
    deadzone: i32,
)
    ensures
        axis_events(id, axes, axes, deadzone) == Seq::<Input>::empty(),
        updated_axes(axes, axes, deadzone) == axes,
        button_events(id, connect_buttons(buttons), buttons) == Seq::<Input>::empty(),
        updated_buttons(connect_buttons(buttons), buttons) == connect_buttons(buttons),
{
    lemma_axis_events_upto_empty(id, axes, axes, deadzone, axes.len() as int);
    assert(updated_axes(axes, axes, deadzone) =~= axes);
    let cb = connect_buttons(buttons);
    lemma_button_events_upto_empty(id, cb, buttons, buttons.len() as int);
    assert(updated_buttons(cb, buttons) =~= cb);
}

/// The last known state of one joystick slot.
///
/// `update` drives it from hardware snapshots; between connection and
/// disconnection the stored axes and buttons mirror the last reported
/// readings, deadzone-filtered.
pub struct JoystickState {
    /// The identifier stamped on every event of this joystick.
    pub id: u32,
    /// The last known connected state.
    pub connected: bool,
    /// The stored axis positions, by axis number.
    pub axes: Vec<i32>,
    /// The stored button states, by button number.
    pub buttons: Vec<bool>,
}

/// The mathematical state of one joystick slot.
#[verifier::ext_equal]
pub ghost struct JoystickView {
    pub id: u32,
    pub connected: bool,
    pub axes: Seq<i32>,
    pub buttons: Seq<bool>,
}

impl View for JoystickState {
    type V = JoystickView;

    open spec fn view(&self) -> JoystickView {
        JoystickView {
            id: self.id,
            connected: self.connected,
            axes: self.axes@,
            buttons: self.buttons@,
        }
    }
}

/// The state one hardware snapshot drives a joystick slot into. A slot that
/// stays absent keeps its state; one that disappears forgets everything; one
/// that appears takes a snapshot; one that stays connected folds the
/// deadzone-filtered diff into its stored state.
pub open spec fn joystick_step(
    j: JoystickView,
    present: bool,
    axes: Seq<i32>,
    buttons: Seq<i32>,
    deadzone: i32,
) -> JoystickView {
    if !present {
        if j.connected {
            JoystickView {
                id: j.id,
                connected: false,
                axes: Seq::empty(),
                buttons: Seq::empty(),
            }
        } else {
            j
        }
    } else if !j.connected {
        JoystickView { id: j.id, connected: true, axes, buttons: connect_buttons(buttons) }
    } else {
        JoystickView {
            id: j.id,
            connected: true,
            axes: updated_axes(j.axes, axes, deadzone),
            buttons: updated_buttons(j.buttons, buttons),
        }
    }
}

/// The events one hardware snapshot makes a joystick slot emit: none unless
/// the slot was and stays connected, else the changed axes in axis order
/// followed by the changed buttons in button order.
pub open spec fn joystick_step_events(
    j: JoystickView,
    present: bool,
    axes: Seq<i32>,
    buttons: Seq<i32>,
    deadzone: i32,
) -> Seq<Input> {
    if present && j.connected {
        axis_events(j.id, j.axes, axes, deadzone) + button_events(j.id, j.buttons, buttons)
    } else {
        Seq::empty()
    }
}

impl JoystickState {
    /// A joystick slot that has never been seen connected.
    pub fn new(id: u32) -> (s: JoystickState)
        ensures
            s.id == id,
            !s.connected,
            s.axes@ == Seq::<i32>::empty(),
            s.buttons@ == Seq::<bool>::empty(),
    {
        JoystickState { id, connected: false, axes: Vec::new(), buttons: Vec::new() }
    }

    /// Feeds one hardware snapshot into the slot and appends the events it
    /// causes to `queue`.
    ///
    /// A slot that stays absent does nothing; one that disappears forgets
    /// its stored state; one that appears takes a snapshot without emitting
    /// events (so the poll on which a joystick connects never reports
    /// input); and one that stays connected emits exactly the changed axes,
    /// then the changed buttons, updating the stored state to match.
    pub fn update(
        &mut self,
        present: bool,
        axes: &Vec<i32>,
        buttons: &Vec<i32>,
        deadzone: i32,
        queue: &mut VecDeque<Input>,
    )
        requires
            axes@.len() <= MAX_JOYSTICK_CHANNELS,
            buttons@.len() <= MAX_JOYSTICK_CHANNELS,
            present && old(self).connected ==> axes@.len() <= old(self).axes@.len()
                && buttons@.len() <= old(self).buttons@.len(),
        ensures
            final(self)@ == joystick_step(old(self)@, present, axes@, buttons@, deadzone),
            final(queue)@ == old(queue)@ + joystick_step_events(
                old(self)@,
                present,
                axes@,
                buttons@,
                deadzone,
            ),
    {
        proof {
            assert(old(queue)@ + Seq::<Input>::empty() =~= old(queue)@);
        }
        if !present {
            if self.connected {
                // The joystick disappeared: forget its state.
                self.connected = false;
                self.axes = Vec::new();
                self.buttons = Vec::new();
            }
            assert(self@ =~= joystick_step(old(self)@, present, axes@, buttons@, deadzone));
            return ;
        }
        if !self.connected {
            // The joystick appeared: take a snapshot, emit nothing.
            self.connected = true;
            self.axes = Vec::new();
            self.buttons = Vec::new();
            let ghost id0 = self.id;
            let n_axes = axes.len();
            assert(self.axes@ =~= axes@.subrange(0, 0));
            for i in 0..n_axes
                invariant
                    n_axes == axes@.len(),
                    self.id == id0,
                    self.connected,
                    self.buttons@ == Seq::<bool>::empty(),
                    self.axes@ == axes@.subrange(0, i as int),
            {
                self.axes.push(axes[i]);
                assert(self.axes@ =~= axes@.subrange(0, i + 1));
            }
            assert(self.axes@ =~= axes@);
            let n_buttons = buttons.len();
            assert(self.buttons@ =~= connect_buttons(buttons@.subrange(0, 0)));
            for i in 0..n_buttons
                invariant
                    n_buttons == buttons@.len(),
                    self.id == id0,
                    self.connected,
                    self.axes@ == axes@,
                    self.buttons@ == connect_buttons(buttons@.subrange(0, i as int)),
            {
                self.buttons.push(buttons[i] > 0);
                assert(self.buttons@ =~= connect_buttons(buttons@.subrange(0, i + 1)));
            }
            assert(self.buttons@ =~= connect_buttons(buttons@));
            assert(self@ =~= joystick_step(old(self)@, present, axes@, buttons@, deadzone));
            return ;
        }
        // Still connected: diff the snapshot against the stored state.
        let ghost prev_axes = self.axes@;
        let ghost prev_buttons = self.buttons@;
        let ghost queue0 = queue@;
        let id = self.id;
        let n_axes = axes.len();
        assert(self.axes@ =~= updated_axes_upto(prev_axes, axes@, deadzone, 0));
        assert(queue@ =~= queue0 + axis_events_upto(id, prev_axes, axes@, deadzone, 0));
        for i in 0..n_axes
            invariant
                n_axes == axes@.len() <= MAX_JOYSTICK_CHANNELS,
                axes@.len() <= prev_axes.len(),
                self.id == id,
                self.connected,
                self.buttons@ == prev_buttons,
                self.axes@ == updated_axes_upto(prev_axes, axes@, deadzone, i as int),
                queue@ == queue0 + axis_events_upto(id, prev_axes, axes@, deadzone, i as int),
        {
            let a = axes[i];
            let prev = self.axes[i];
            let mag: i64 = if a < 0 {
                -(a as i64)
            } else {
                a as i64
            };
            if a != prev && mag >= deadzone as i64 {
                self.axes.set(i, a);
                queue.push_back(
                    Input::Move(Motion::ControllerAxis { id, axis: i as u8, position: a }),
                );
            }
            assert(self.axes@ =~= updated_axes_upto(prev_axes, axes@, deadzone, i + 1));
            assert(queue@ =~= queue0 + axis_events_upto(id, prev_axes, axes@, deadzone, i + 1));
        }
        assert(queue@ == queue0 + axis_events(id, prev_axes, axes@, deadzone));
        let ghost queue1 = queue@;
        let n_buttons = buttons.len();
        assert(self.buttons@ =~= updated_buttons_upto(prev_buttons, buttons@, 0));
        assert(queue@ =~= queue1 + button_events_upto(id, prev_buttons, buttons@, 0));
        for i in 0..n_buttons
            invariant
                n_buttons == buttons@.len() <= MAX_JOYSTICK_CHANNELS,
                buttons@.len() <= prev_buttons.len(),
                self.id == id,
                self.connected,
                self.axes@ == updated_axes(prev_axes, axes@, deadzone),
                self.buttons@ == updated_buttons_upto(prev_buttons, buttons@, i as int),
                queue@ == queue1 + button_events_upto(id, prev_buttons, buttons@, i as int),
        {
            let pressed = buttons[i] > 0;
            let prev = self.buttons[i];
            if pressed != prev {
                self.buttons.set(i, pressed);
                queue.push_back(
                    Input::Button(
                        ButtonArgs {
                            state: if pressed {
                                ButtonState::Press
                            } else {
                                ButtonState::Release
                            },
                            button: Button::Controller { id, button: i as u8 },
                            scancode: None,
                        },
                    ),
                );
            }
            assert(self.buttons@ =~= updated_buttons_upto(prev_buttons, buttons@, i + 1));
            assert(queue@ =~= queue1 + button_events_upto(id, prev_buttons, buttons@, i + 1));
        }
        assert(self@ =~= joystick_step(old(self)@, present, axes@, buttons@, deadzone));
        assert(queue@ =~= old(queue)@ + joystick_step_events(
            old(self)@,
            present,
            axes@,
            buttons@,
            deadzone,
        ));
    }
}

} // verus!
