//! Planning of window creation: the engine's settings are turned into the
//! hints and flags the shell passes to the native library, and a request for
//! anything but an OpenGL context is rejected.

use vstd::prelude::*;

verus! {

/// A graphics API request: the API's name with a major and minor version.
#[derive(Clone, Debug)]
pub struct GraphicsApi {
    pub api: String,
    pub major: u32,
    pub minor: u32,
}

/// The window-creation settings the engine hands in, reduced to plain
/// values.
#[derive(Clone, Debug)]
pub struct InitSettings {
    /// The requested graphics API; OpenGL 3.2 when absent.
    pub graphics_api: Option<GraphicsApi>,
    pub width: u32,
    pub height: u32,
    pub title: String,
    pub exit_on_esc: bool,
    pub automatic_close: bool,
    pub resizable: bool,
    pub decorated: bool,
    pub transparent: bool,
    pub srgb: bool,
    /// Multisampling sample count; zero asks for no samples hint.
    pub samples: u8,
    pub vsync: bool,
    pub controllers: bool,
    /// Whether the platform demands forward-compatible core contexts for
    /// modern OpenGL, as macOS does.
    pub macos: bool,
}

/// The hints and flags the shell passes to the native library when it
/// creates the window.
#[derive(Clone, Copy, PartialEq, Eq, Debug)]
pub struct WindowPlan {
    pub context_major: u32,
    pub context_minor: u32,
    pub resizable: bool,
    pub decorated: bool,
    pub transparent: bool,
    pub srgb: bool,
    pub forward_compat: bool,
    pub core_profile: bool,
    /// The multisampling hint, absent when no samples were asked for.
    pub samples: Option<u32>,
    pub vsync: bool,
}

/// The rejection of a window whose settings ask for a graphics API this
/// back-end cannot provide.
#[derive(Clone, Debug)]
pub struct UnsupportedGraphicsApiError {
    /// The API that was asked for.
    pub found: String,
    /// The APIs the back-end supports.
    pub expected: Vec<String>,
}

/// The major version of the requested API, with the default applied.
pub open spec fn requested_major(s: InitSettings) -> u32 {
    match s.graphics_api {
        Some(a) => a.major,
        None => 3,
    }
}

/// The minor version of the requested API, with the default applied.
pub open spec fn requested_minor(s: InitSettings) -> u32 {
    match s.graphics_api {
        Some(a) => a.minor,
        None => 2,
    }
}

/// Whether the requested API is OpenGL; an absent request defaults to it.
pub open spec fn requested_api_is_opengl(s: InitSettings) -> bool {
    match s.graphics_api {
        Some(a) => a.api@ == "OpenGL"@,
        None => true,
    }
}

/// Whether an OpenGL version is three-two or later, ordered by major and
/// then minor version.
pub open spec fn at_least_opengl_3_2(major: u32, minor: u32) -> bool {
    major > 3 || (major == 3 && minor >= 2)
}

/// The plan an accepted request maps to: the context version as requested,
/// the window flags copied, a core (and, where the platform demands it,
/// forward-compatible) profile from OpenGL three-two on, and a samples hint
/// only when samples were asked for.
pub open spec fn planned(s: InitSettings) -> WindowPlan {
    WindowPlan {
        context_major: requested_major(s),
        context_minor: requested_minor(s),
        resizable: s.resizable,
        decorated: s.decorated,
        transparent: s.transparent,
        srgb: s.srgb,
        forward_compat: at_least_opengl_3_2(requested_major(s), requested_minor(s)) && s.macos,
        core_profile: at_least_opengl_3_2(requested_major(s), requested_minor(s)),
        samples: if s.samples != 0 {
            Some(s.samples as u32)
        } else {
            None
        },
        vsync: s.vsync,
    }
}

/// Turns the settings into the native window plan, rejecting every request
/// for a graphics API other than OpenGL and naming the API that was found.
pub fn plan_window(settings: &InitSettings) -> (r: Result<WindowPlan, UnsupportedGraphicsApiError>)
    ensures
        r is Ok <==> requested_api_is_opengl(*settings),
        r matches Ok(plan) ==> plan == planned(*settings),
        r matches Err(e) ==> settings.graphics_api matches Some(a) && e.found == a.api
            && e.expected@.len() == 1 && e.expected@[0]@ == "OpenGL"@,
{
    let major: u32;
    let minor: u32;
    match &settings.graphics_api {
        Some(a) => {
            let opengl = String::from_str("OpenGL");
            if a.api != opengl {
                return Err(
                    UnsupportedGraphicsApiError { found: a.api.clone(), expected: vec![opengl] },
                );
            }
            major = a.major;
            minor = a.minor;
        },
        None => {
            major = 3;
            minor = 2;
        },
    }
    let modern = major > 3 || (major == 3 && minor >= 2);
    Ok(
        WindowPlan {
            context_major: major,
            context_minor: minor,
            resizable: settings.resizable,
            decorated: settings.decorated,
            transparent: settings.transparent,
            srgb: settings.srgb,
            forward_compat: modern && settings.macos,
            core_profile: modern,
            samples: if settings.samples != 0 {
                Some(settings.samples as u32)
            } else {
                None
            },
            vsync: settings.vsync,
        },
    )
}

} // verus!
