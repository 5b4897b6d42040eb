use windowing::window_mac::{
    build, window_layout, ApplicationData, WindowId, WindowObjects, WindowParameters,
    WindowState, DEFAULT_WINDOW_SIZE,
};

#[test]
fn window_id_keeps_the_window_object() {
    let id = WindowId::new(0x1234);
    assert_eq!(id.inner_window(), 0x1234);
    assert!(id == WindowId::new(0x1234));
    assert!(id != WindowId::new(0x1235));
}

#[test]
fn layout_defaults() {
    let l = window_layout(WindowParameters {
        position: None,
        dimensions: None,
        resizable: false,
        title: None,
    });
    assert_eq!((l.width, l.height), (DEFAULT_WINDOW_SIZE, DEFAULT_WINDOW_SIZE));
    assert_eq!((l.width, l.height), (600, 600));
    assert_eq!(l.style_mask, 7);
    assert_eq!(l.position, None);
    assert_eq!(l.title, "Untitled");
}

#[test]
fn layout_from_parameters() {
    let l = window_layout(WindowParameters {
        position: Some((30, 40)),
        dimensions: Some((1024, 768)),
        resizable: true,
        title: Some("Hello".to_string()),
    });
    assert_eq!((l.width, l.height), (1024, 768));
    assert_eq!(l.style_mask, 15);
    assert_eq!(l.position, Some((30, 40)));
    assert_eq!(l.title, "Hello");
}

#[test]
fn build_records_windowed_window() {
    let mut data = ApplicationData { windows: Vec::new() };
    let objects = WindowObjects { ns_window: 100, ns_view: 200, window_delegate: 300, tracking_area: 400 };
    let id = build(&mut data, objects).unwrap();
    assert_eq!(id.inner_window(), 100);
    assert_eq!(data.windows.len(), 1);
    assert_eq!(data.windows[0].ns_view, 200);
    assert_eq!(data.windows[0].window_delegate, 300);
    assert_eq!(data.windows[0].tracking_area, 400);
    assert_eq!(data.windows[0].window_state, WindowState::Windowed);
    let second = build(&mut data, WindowObjects { ns_window: 101, ns_view: 201, window_delegate: 301, tracking_area: 401 }).unwrap();
    assert_eq!(second.inner_window(), 101);
    assert_eq!(data.windows.len(), 2);
    assert_eq!(data.windows[0].ns_window, 100);
}
