//! Event-normalization core of a GLFW window back-end for a game engine.
//!
//! The library holds the state-machine and algorithmic content of the
//! back-end: an ordered event queue, translation of raw window events into
//! normalized input events, derivation of relative mouse motion, a key-code
//! and mouse-button mapping table, joystick state diffing with deadzone
//! filtering, and the planning of window-creation parameters. All talk with
//! the native windowing library happens outside, in an unverified shell that
//! hands this library plain values and performs the actions it decides.

mod event;
mod joystick;
mod keymap;
mod settings;
mod window;

pub use event::Button;
pub use event::ButtonArgs;
pub use event::ButtonState;
pub use event::Input;
pub use event::Key;
pub use event::Motion;
pub use event::MouseButton;
pub use event::RawAction;
pub use event::RawEvent;
pub use joystick::axis_changed;
pub use joystick::axis_event;
pub use joystick::axis_events;
pub use joystick::axis_events_upto;
pub use joystick::button_event;
pub use joystick::button_events;
pub use joystick::button_events_upto;
pub use joystick::button_pressed;
pub use joystick::connect_buttons;
pub use joystick::joystick_step;
pub use joystick::joystick_step_events;
pub use joystick::lemma_poll_after_connect_is_quiet;
pub use joystick::lemma_second_diff_is_quiet;
pub use joystick::magnitude;
pub use joystick::updated_axes;
pub use joystick::updated_axes_upto;
pub use joystick::updated_buttons;
pub use joystick::updated_buttons_upto;
pub use joystick::JoystickState;
pub use joystick::JoystickView;
pub use joystick::MAX_JOYSTICK_CHANNELS;
pub use keymap::glfw_map_key;
pub use keymap::glfw_map_mouse;
pub use keymap::map_key;
pub use keymap::map_mouse;
pub use keymap::KEY_CODE_ESCAPE;
pub use settings::at_least_opengl_3_2;
pub use settings::plan_window;
pub use settings::planned;
pub use settings::requested_api_is_opengl;
pub use settings::requested_major;
pub use settings::requested_minor;
pub use settings::GraphicsApi;
pub use settings::InitSettings;
pub use settings::UnsupportedGraphicsApiError;
pub use settings::WindowPlan;
pub use window::close_request;
pub use window::key_button_event;
pub use window::mouse_button_event;
pub use window::next_last_mouse;
pub use window::same_config;
pub use window::translated_events;
pub use window::CursorMode;
pub use window::WindowState;
pub use window::JOYSTICK_COUNT;
