use windowing::window_manager_windows::{
    win32_string, window_class_name, OpenGLContext, OpenGLContextRequest, Window, WindowManager,
    CW_USEDEFAULT, WS_EX_APPWINDOW, WS_OVERLAPPEDWINDOW, WS_VISIBLE,
};

fn manager() -> WindowManager {
    WindowManager::new(0x4000, OpenGLContext { context_ptr: 0x9000, pixel_format_id: 7 })
}

#[test]
fn win32_string_ascii() {
    assert_eq!(win32_string("ab"), vec![97u16, 98, 0]);
    assert_eq!(win32_string(""), vec![0u16]);
}

#[test]
fn win32_string_non_ascii() {
    // U+00E9 is one unit, U+1F600 is a surrogate pair
    assert_eq!(win32_string("é"), vec![0x00E9u16, 0]);
    assert_eq!(win32_string("😀"), vec![0xD83Du16, 0xDE00, 0]);
    let expected: Vec<u16> = "Grüße 😀".encode_utf16().chain(std::iter::once(0)).collect();
    assert_eq!(win32_string("Grüße 😀"), expected);
}

#[test]
fn class_name_is_encoded() {
    let expected: Vec<u16> = "windowing_rust".encode_utf16().chain(std::iter::once(0)).collect();
    assert_eq!(window_class_name(), expected);
}

#[test]
fn new_window_defaults() {
    let mut m = manager();
    let b = m.new_window();
    let c = b.build_parameters();
    assert_eq!(c.x, CW_USEDEFAULT);
    assert_eq!(c.y, CW_USEDEFAULT);
    assert_eq!(c.width, CW_USEDEFAULT);
    assert_eq!(c.height, CW_USEDEFAULT);
    assert_eq!(c.title, win32_string("Untitled"));
    assert_eq!(c.class_name, window_class_name());
    assert_eq!(c.h_instance, 0x4000);
    assert_eq!(c.opengl_context, OpenGLContext { context_ptr: 0x9000, pixel_format_id: 7 });
}

#[test]
fn builder_settings_reach_the_creation() {
    let mut m = manager();
    let mut b = m.new_window();
    b.title("Window Title").position(10, 20).dimensions(800, 600);
    let c = b.build_parameters();
    assert_eq!(c.title, win32_string("Window Title"));
    assert_eq!((c.x, c.y), (10, 20));
    assert_eq!((c.width, c.height), (800, 600));
}

#[test]
fn later_settings_replace_earlier_ones() {
    let mut m = manager();
    let mut b = m.new_window();
    b.position(1, 2).title("a").position(3, 4).title("b");
    let c = b.build_parameters();
    assert_eq!((c.x, c.y), (3, 4));
    assert_eq!(c.title, win32_string("b"));
}

#[test]
fn large_coordinates_wrap_to_signed() {
    let mut m = manager();
    let mut b = m.new_window();
    b.position(u32::MAX, 0x8000_0000);
    let c = b.build_parameters();
    assert_eq!(c.x, -1);
    assert_eq!(c.y, CW_USEDEFAULT);
}

#[test]
fn window_keeps_handles() {
    let w = Window::new(11, 22);
    assert_eq!(w.handle(), 11);
    assert_eq!(w.device(), 22);
}

#[test]
fn manager_keeps_its_context() {
    let m = manager();
    assert_eq!(m.opengl_context(), OpenGLContext { context_ptr: 0x9000, pixel_format_id: 7 });
}

#[test]
fn window_styles() {
    let mut m = manager();
    let b = m.new_window();
    let c = b.build_parameters();
    assert_eq!(c.ex_style, 0x0004_0000);
    assert_eq!(c.ex_style, WS_EX_APPWINDOW);
    assert_eq!(c.style, 0x10CF_0000);
    assert_eq!(c.style, WS_OVERLAPPEDWINDOW | WS_VISIBLE);
}

#[test]
fn opengl_context_request_values() {
    assert_eq!(
        WindowManager::opengl_context_request(),
        OpenGLContextRequest {
            color_bits: 32,
            alpha_bits: 8,
            depth_bits: 16,
            stencil_bits: 0,
            msaa_samples: 2,
            srgb: false,
        }
    );
}
