use glfw_window::plan_window;
use glfw_window::GraphicsApi;
use glfw_window::InitSettings;

fn settings() -> InitSettings {
    InitSettings {
        graphics_api: None,
        width: 640,
        height: 480,
        title: "demo".to_string(),
        exit_on_esc: false,
        automatic_close: true,
        resizable: true,
        decorated: true,
        transparent: false,
        srgb: true,
        samples: 0,
        vsync: false,
        controllers: true,
        macos: false,
    }
}

fn opengl(major: u32, minor: u32) -> Option<GraphicsApi> {
    Some(GraphicsApi { api: "OpenGL".to_string(), major, minor })
}

#[test]
fn default_api_is_opengl_3_2() {
    let plan = plan_window(&settings()).unwrap();
    assert_eq!(plan.context_major, 3);
    assert_eq!(plan.context_minor, 2);
    assert!(plan.core_profile);
    // not on a platform that demands forward compatibility
    assert!(!plan.forward_compat);
}

#[test]
fn window_flags_are_copied() {
    let mut s = settings();
    s.resizable = false;
    s.decorated = false;
    s.transparent = true;
    s.srgb = false;
    s.vsync = true;
    let plan = plan_window(&s).unwrap();
    assert!(!plan.resizable);
    assert!(!plan.decorated);
    assert!(plan.transparent);
    assert!(!plan.srgb);
    assert!(plan.vsync);
}

#[test]
fn modern_context_on_macos_is_forward_compatible() {
    let mut s = settings();
    s.macos = true;
    let plan = plan_window(&s).unwrap();
    assert!(plan.core_profile);
    assert!(plan.forward_compat);
}

#[test]
fn legacy_context_gets_no_profile_hints() {
    let mut s = settings();
    s.graphics_api = opengl(2, 1);
    s.macos = true;
    let plan = plan_window(&s).unwrap();
    assert_eq!(plan.context_major, 2);
    assert_eq!(plan.context_minor, 1);
    assert!(!plan.core_profile);
    assert!(!plan.forward_compat);
}

#[test]
fn version_order_is_major_then_minor() {
    let mut s = settings();
    s.graphics_api = opengl(3, 1);
    assert!(!plan_window(&s).unwrap().core_profile);
    s.graphics_api = opengl(4, 0);
    assert!(plan_window(&s).unwrap().core_profile);
    s.graphics_api = opengl(4, 1);
    assert!(plan_window(&s).unwrap().core_profile);
}

#[test]
fn samples_hint_only_when_asked_for() {
    let mut s = settings();
    assert_eq!(plan_window(&s).unwrap().samples, None);
    s.samples = 4;
    assert_eq!(plan_window(&s).unwrap().samples, Some(4));
}

#[test]
fn other_apis_are_rejected() {
    let mut s = settings();
    s.graphics_api = Some(GraphicsApi { api: "Vulkan".to_string(), major: 1, minor: 2 });
    let err = plan_window(&s).unwrap_err();
    assert_eq!(err.found, "Vulkan".to_string());
    assert_eq!(err.expected, vec!["OpenGL".to_string()]);
}
