//! The back-end's window state machine: an ordered queue of normalized
//! events, translation of raw native events into it, derivation of relative
//! mouse motion, joystick polling, cursor capture and the lifecycle flags.
//!
//! The unverified shell around the library drains the native event stream,
//! hands each event here as plain values, applies the close requests and
//! cursor modes this state machine decides, and pops normalized events out.

use vstd::prelude::*;

use std::collections::VecDeque;

use crate::event::Button;
use crate::event::ButtonArgs;
use crate::event::ButtonState;
use crate::event::Input;
use crate::event::Motion;
use crate::event::RawAction;
use crate::event::RawEvent;
use crate::joystick::joystick_step;
use crate::joystick::joystick_step_events;
use crate::joystick::JoystickState;
use crate::joystick::MAX_JOYSTICK_CHANNELS;
use crate::keymap::glfw_map_key;
use crate::keymap::glfw_map_mouse;
use crate::keymap::map_key;
use crate::keymap::map_mouse;
use crate::keymap::KEY_CODE_ESCAPE;

verus! {

/// How many joystick slots the native library offers.
pub const JOYSTICK_COUNT: usize = 16;

/// The cursor mode the shell must set on the native window.
#[derive(Clone, Copy, PartialEq, Eq, Debug)]
pub enum CursorMode {
    Normal,
    Disabled,
}

/// The state of one window back-end, reduced to plain values.
///
/// The shell owns the native window handles; everything the event logic
/// reads or writes lives here.
pub struct WindowState {
    /// Normalized events buffered between polls, oldest first.
    pub event_queue: VecDeque<Input>,
    /// The last cursor position seen, from which relative motion is derived;
    /// cleared when cursor capture is released.
    pub last_mouse_pos: Option<(i32, i32)>,
    /// The title given at creation. The back-end does not remember titles
    /// set later.
    pub title: String,
    /// Whether pressing escape asks the window to close.
    pub exit_on_esc: bool,
    /// Whether a native close request is honoured as it is.
    pub automatic_close: bool,
    /// Axis readings with magnitude below this are ignored.
    pub joystick_deadzone: i32,
    /// One slot per joystick the native library offers.
    pub joysticks: Vec<JoystickState>,
}

/// The button event a key transition translates to.
pub open spec fn key_button_event(key: i32, scancode: i32, state: ButtonState) -> Input {
    Input::Button(
        ButtonArgs { state, button: Button::Keyboard(map_key(key)), scancode: Some(scancode) },
    )
}

/// The button event a mouse-button transition translates to.
pub open spec fn mouse_button_event(button: i32, state: ButtonState) -> Input {
    Input::Button(ButtonArgs { state, button: Button::Mouse(map_mouse(button)), scancode: None })
}

/// The normalized events one raw event translates to, in order.
///
/// A cursor move yields the absolute position and, once a previous position
/// is known, the relative motion after it. An escape press with exit-on-esc
/// set, a repeated key or button, and every ignored native event yield
/// nothing. A file drop yields one event per file, in the order given.
pub open spec fn translated_events(s: WindowState, e: RawEvent) -> Seq<Input> {
    match e {
        RawEvent::Key { key, scancode, action } => match action {
            RawAction::Press => {
                if key == KEY_CODE_ESCAPE && s.exit_on_esc {
                    Seq::empty()
                } else {
                    seq![key_button_event(key, scancode, ButtonState::Press)]
                }
            },
            RawAction::Release => seq![key_button_event(key, scancode, ButtonState::Release)],
            RawAction::Repeat => Seq::empty(),
        },
        RawEvent::Char { ch } => seq![Input::Text(ch)],
        RawEvent::MouseButton { button, action } => match action {
            RawAction::Press => seq![mouse_button_event(button, ButtonState::Press)],
            RawAction::Release => seq![mouse_button_event(button, ButtonState::Release)],
            RawAction::Repeat => Seq::empty(),
        },
        RawEvent::CursorPos { x, y } => match s.last_mouse_pos {
            Some(last) => seq![
                Input::Move(Motion::MouseCursor { x, y }),
                Input::Move(
                    Motion::MouseRelative {
                        dx: (x - last.0) as i64,
                        dy: (y - last.1) as i64,
                    },
                ),
            ],
            None => seq![Input::Move(Motion::MouseCursor { x, y })],
        },
        RawEvent::Scroll { dx, dy } => seq![Input::Move(Motion::MouseScroll { dx, dy })],
        RawEvent::Size { width, height, draw_width, draw_height } => seq![
            Input::Resize { width, height, draw_width, draw_height },
        ],
        RawEvent::Close => seq![Input::Close],
        RawEvent::Focus { focus } => seq![Input::Focus(focus)],
        RawEvent::CursorEnter { enter } => seq![Input::Cursor(enter)],
        RawEvent::FileDrop { files } => files@.map_values(|f: String| Input::FileDrag(f)),
        RawEvent::Other => Seq::empty(),
    }
}

/// The last cursor position remembered after one raw event.
pub open spec fn next_last_mouse(s: WindowState, e: RawEvent) -> Option<(i32, i32)> {
    match e {
        RawEvent::CursorPos { x, y } => Some((x, y)),
        _ => s.last_mouse_pos,
    }
}

/// The should-close request one raw event makes the shell apply to the
/// native window: an escape press with exit-on-esc set asks it to close; a
/// native close request with automatic close off is cancelled.
pub open spec fn close_request(s: WindowState, e: RawEvent) -> Option<bool> {
    match e {
        RawEvent::Key { key, action, .. } => {
            if key == KEY_CODE_ESCAPE && action is Press && s.exit_on_esc {
                Some(true)
            } else {
                None
            }
        },
        RawEvent::Close => {
            if !s.automatic_close {
                Some(false)
            } else {
                None
            }
        },
        _ => None,
    }
}

/// Whether two states agree on everything but the event queue, the last
/// cursor position and the joysticks.
pub open spec fn same_config(a: WindowState, b: WindowState) -> bool {
    &&& a.title == b.title
    &&& a.exit_on_esc == b.exit_on_esc
    &&& a.automatic_close == b.automatic_close
    &&& a.joystick_deadzone == b.joystick_deadzone
}

fn fresh_joysticks(count: usize) -> (v: Vec<JoystickState>)
    requires
        count <= u32::MAX,
    ensures
        v@.len() == count,
        forall|k: int|
            0 <= k < count ==> v@[k]@.id == k && !v@[k]@.connected && v@[k]@.axes == Seq::<
                i32,
            >::empty() && v@[k]@.buttons == Seq::<bool>::empty(),
{
    let mut v: Vec<JoystickState> = Vec::new();
    for i in 0..count
        invariant
            count <= u32::MAX,
            v@.len() == i,
            forall|k: int|
                0 <= k < i ==> v@[k]@.id == k && !v@[k]@.connected && v@[k]@.axes == Seq::<
                    i32,
                >::empty() && v@[k]@.buttons == Seq::<bool>::empty(),
    {
        v.push(JoystickState::new(i as u32));
    }
    v
}

impl WindowState {
    /// A fresh back-end state: empty queue, no cursor position seen, a zero
    /// deadzone, and one never-connected joystick slot per native slot, or
    /// none when controller support is off.
    pub fn new(
        title: String,
        exit_on_esc: bool,
        automatic_close: bool,
        controllers: bool,
    ) -> (s: WindowState)
        ensures
            s.event_queue@ == Seq::<Input>::empty(),
            s.last_mouse_pos is None,
            s.title == title,
            s.exit_on_esc == exit_on_esc,
            s.automatic_close == automatic_close,
            s.joystick_deadzone == 0,
            s.joysticks@.len() == (if controllers {
                JOYSTICK_COUNT as int
            } else {
                0
            }),
            forall|k: int|
                0 <= k < s.joysticks@.len() ==> s.joysticks@[k]@.id == k
                    && !s.joysticks@[k]@.connected && s.joysticks@[k]@.axes == Seq::<i32>::empty()
                    && s.joysticks@[k]@.buttons == Seq::<bool>::empty(),
    {
        let joysticks = if controllers {
            fresh_joysticks(JOYSTICK_COUNT)
        } else {
            Vec::new()
        };
        WindowState {
            event_queue: VecDeque::new(),
            last_mouse_pos: None,
            title,
            exit_on_esc,
            automatic_close,
            joystick_deadzone: 0,
            joysticks,
        }
    }

    /// The state for a back-end wrapped around an existing native window:
    /// like `new` with controller support on and automatic close, but the
    /// title is unknown.
    pub fn from_pieces(exit_on_esc: bool) -> (s: WindowState)
        ensures
            s.event_queue@ == Seq::<Input>::empty(),
            s.last_mouse_pos is None,
            s.title@ == "<unknown window title, created from_pieces>"@,
            s.exit_on_esc == exit_on_esc,
            s.automatic_close,
            s.joystick_deadzone == 0,
            s.joysticks@.len() == JOYSTICK_COUNT,
            forall|k: int|
                0 <= k < s.joysticks@.len() ==> s.joysticks@[k]@.id == k
                    && !s.joysticks@[k]@.connected && s.joysticks@[k]@.axes == Seq::<i32>::empty()
                    && s.joysticks@[k]@.buttons == Seq::<bool>::empty(),
    {
        let title = String::from_str("<unknown window title, created from_pieces>");
        WindowState::new(title, exit_on_esc, true, true)
    }

    /// Feeds one raw native event into the state: appends its translation to
    /// the queue, tracks the cursor position, and returns the should-close
    /// request the shell must apply, if any.
    pub fn handle_event(&mut self, e: RawEvent) -> (close: Option<bool>)
        ensures
            close == close_request(*old(self), e),
            final(self).event_queue@ == old(self).event_queue@ + translated_events(
                *old(self),
                e,
            ),
            final(self).last_mouse_pos == next_last_mouse(*old(self), e),
            same_config(*final(self), *old(self)),
            final(self).joysticks == old(self).joysticks,
    {
        let ghost e0 = e;
        let ghost s0 = *self;
        let ghost q0 = self.event_queue@;
        let close: Option<bool> = match e {
            RawEvent::Key { key, scancode, action } => match action {
                RawAction::Press => {
                    if key == KEY_CODE_ESCAPE && self.exit_on_esc {
                        Some(true)
                    } else {
                        let k = glfw_map_key(key);
                        self.event_queue.push_back(
                            Input::Button(
                                ButtonArgs {
                                    state: ButtonState::Press,
                                    button: Button::Keyboard(k),
                                    scancode: Some(scancode),
                                },
                            ),
                        );
                        None
                    }
                },
                RawAction::Release => {
                    let k = glfw_map_key(key);
                    self.event_queue.push_back(
                        Input::Button(
                            ButtonArgs {
                                state: ButtonState::Release,
                                button: Button::Keyboard(k),
                                scancode: Some(scancode),
                            },
                        ),
                    );
                    None
                },
                RawAction::Repeat => None,
            },
            RawEvent::Char { ch } => {
                self.event_queue.push_back(Input::Text(ch));
                None
            },
            RawEvent::MouseButton { button, action } => match action {
                RawAction::Press => {
                    let b = glfw_map_mouse(button);
                    self.event_queue.push_back(
                        Input::Button(
                            ButtonArgs {
                                state: ButtonState::Press,
                                button: Button::Mouse(b),
                                scancode: None,
                            },
                        ),
                    );
                    None
                },
                RawAction::Release => {
                    let b = glfw_map_mouse(button);
                    self.event_queue.push_back(
                        Input::Button(
                            ButtonArgs {
                                state: ButtonState::Release,
                                button: Button::Mouse(b),
                                scancode: None,
                            },
                        ),
                    );
                    None
                },
                RawAction::Repeat => None,
            },
            RawEvent::CursorPos { x, y } => {
                self.event_queue.push_back(Input::Move(Motion::MouseCursor { x, y }));
                match self.last_mouse_pos {
                    Some(last) => {
                        let dx = x as i64 - last.0 as i64;
                        let dy = y as i64 - last.1 as i64;
                        self.event_queue.push_back(
                            Input::Move(Motion::MouseRelative { dx, dy }),
                        );
                    },
                    None => {},
                }
                self.last_mouse_pos = Some((x, y));
                None
            },
            RawEvent::Scroll { dx, dy } => {
                self.event_queue.push_back(Input::Move(Motion::MouseScroll { dx, dy }));
                None
            },
            RawEvent::Size { width, height, draw_width, draw_height } => {
                self.event_queue.push_back(
                    Input::Resize { width, height, draw_width, draw_height },
                );
                None
            },
            RawEvent::Close => {
                let r: Option<bool> = if !self.automatic_close {
                    Some(false)
                } else {
                    None
                };
                self.event_queue.push_back(Input::Close);
                r
            },
            RawEvent::Focus { focus } => {
                self.event_queue.push_back(Input::Focus(focus));
                None
            },
            RawEvent::CursorEnter { enter } => {
                self.event_queue.push_back(Input::Cursor(enter));
                None
            },
            RawEvent::FileDrop { files } => {
                let n = files.len();
                for i in 0..n
                    invariant
                        n == files@.len(),
                        self.event_queue@ == q0 + files@.subrange(0, i as int).map_values(
                            |f: String| Input::FileDrag(f),
                        ),
                        self.last_mouse_pos == s0.last_mouse_pos,
                        same_config(*self, s0),
                        self.joysticks == s0.joysticks,
                {
                    let f = files[i].clone();
                    self.event_queue.push_back(Input::FileDrag(f));
                    assert(self.event_queue@ =~= q0 + files@.subrange(0, i + 1).map_values(
                        |f: String| Input::FileDrag(f),
                    ));
                }
                assert(files@.subrange(0, n as int) =~= files@);
                None
            },
            RawEvent::Other => None,
        };
        proof {
            assert(self.event_queue@ =~= q0 + translated_events(s0, e0));
        }
        close
    }

    /// Feeds one hardware snapshot of the joystick in slot `i` into the
    /// state, appending the events the diff emits to the queue.
    pub fn update_joystick(&mut self, i: usize, present: bool, axes: &Vec<i32>, buttons: &Vec<i32>)
        requires
            i < old(self).joysticks@.len(),
            axes@.len() <= MAX_JOYSTICK_CHANNELS,
            buttons@.len() <= MAX_JOYSTICK_CHANNELS,
            present && old(self).joysticks@[i as int]@.connected ==> axes@.len() <= old(
                self,
            ).joysticks@[i as int]@.axes.len() && buttons@.len() <= old(
                self,
            ).joysticks@[i as int]@.buttons.len(),
        ensures
            final(self).joysticks@.len() == old(self).joysticks@.len(),
            final(self).joysticks@[i as int]@ == joystick_step(
                old(self).joysticks@[i as int]@,
                present,
                axes@,
                buttons@,
                old(self).joystick_deadzone,
            ),
            forall|k: int|
                0 <= k < old(self).joysticks@.len() && k != i ==> final(self).joysticks@[k] == old(
                    self,
                ).joysticks@[k],
            final(self).event_queue@ == old(self).event_queue@ + joystick_step_events(
                old(self).joysticks@[i as int]@,
                present,
                axes@,
                buttons@,
                old(self).joystick_deadzone,
            ),
            final(self).last_mouse_pos == old(self).last_mouse_pos,
            same_config(*final(self), *old(self)),
    {
        let deadzone = self.joystick_deadzone;
        let j = &mut self.joysticks[i];
        j.update(present, axes, buttons, deadzone, &mut self.event_queue);
    }

    /// Pops the oldest buffered event, if any.
    pub fn next_event(&mut self) -> (r: Option<Input>)
        ensures
            match r {
                Some(ev) => old(self).event_queue@.len() > 0 && ev == old(self).event_queue@[0]
                    && final(self).event_queue@ == old(self).event_queue@.subrange(
                    1,
                    old(self).event_queue@.len() as int,
                ),
                None => old(self).event_queue@.len() == 0 && final(self).event_queue@ == old(
                    self,
                ).event_queue@,
            },
            final(self).last_mouse_pos == old(self).last_mouse_pos,
            same_config(*final(self), *old(self)),
            final(self).joysticks == old(self).joysticks,
    {
        self.event_queue.pop_front()
    }

    /// Decides the cursor mode for a capture request. Releasing capture
    /// forgets the last cursor position, so the next cursor move emits no
    /// relative motion.
    pub fn set_capture_cursor(&mut self, enabled: bool) -> (mode: CursorMode)
        ensures
            mode == (if enabled {
                CursorMode::Disabled
            } else {
                CursorMode::Normal
            }),
            final(self).last_mouse_pos == (if enabled {
                old(self).last_mouse_pos
            } else {
                None::<(i32, i32)>
            }),
            final(self).event_queue@ == old(self).event_queue@,
            same_config(*final(self), *old(self)),
            final(self).joysticks == old(self).joysticks,
    {
        if enabled {
            CursorMode::Disabled
        } else {
            self.last_mouse_pos = None;
            CursorMode::Normal
        }
    }

    /// The title given at creation.
    pub fn get_title(&self) -> (t: String)
        ensures
            t == self.title,
    {
        self.title.clone()
    }

    /// Whether pressing escape asks the window to close.
    pub fn get_exit_on_esc(&self) -> (r: bool)
        ensures
            r == self.exit_on_esc,
    {
        self.exit_on_esc
    }

    /// Turns closing on escape on or off.
    pub fn set_exit_on_esc(&mut self, value: bool)
        ensures
            *final(self) == (WindowState { exit_on_esc: value, ..*old(self) }),
    {
        self.exit_on_esc = value;
    }

    /// Whether a native close request is honoured as it is.
    pub fn get_automatic_close(&self) -> (r: bool)
        ensures
            r == self.automatic_close,
    {
        self.automatic_close
    }

    /// Turns automatic close on or off.
    pub fn set_automatic_close(&mut self, value: bool)
        ensures
            *final(self) == (WindowState { automatic_close: value, ..*old(self) }),
    {
        self.automatic_close = value;
    }
}

} // verus!
