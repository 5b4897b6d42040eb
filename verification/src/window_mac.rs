//! Windows on macOS: what identifies a window, what the library keeps of each
//! window, and the decisions taken when a window is built.
use vstd::prelude::*;

verus! {

/// The state a window is in.
#[derive(Clone, Copy, Debug, PartialEq, Eq, Structural)]
pub enum WindowState {
    Minimized,
    /// The typical state a window is in.
    Windowed,
    Fullscreen,
}

/// The objects that make up one window, by the addresses the platform gave them.
/// All of them are released together, when the window's data is dropped.
#[derive(Debug)]
pub struct InnerWindowData {
    pub ns_window: usize,
    /// Used later by the GL context.
    pub ns_view: usize,
    pub window_delegate: usize,
    pub tracking_area: usize,
    pub window_state: WindowState,
}

/// Identifies a window by its window object, which is unique.
#[derive(Clone, Copy, PartialEq, Eq, Structural, Hash)]
pub struct WindowId {
    ns_window: usize,
}

impl WindowId {
    /// The address of the window object this id stands for.
    pub closed spec fn spec_ns_window(self) -> usize {
        self.ns_window
    }

    pub fn new(ns_window: usize) -> (id: WindowId)
        ensures
            id.spec_ns_window() == ns_window,
    {
        Self { ns_window }
    }

    /// Two ids are equal exactly when they stand for the same window object; so
    /// ids made from one address are equal, and ids made from two are not.
    pub proof fn lemma_eq_iff_same_window(a: WindowId, b: WindowId)
        ensures
            (a == b) <==> (a.spec_ns_window() == b.spec_ns_window()),
    {
    }

    /// The window object this id stands for.
    pub fn inner_window(&self) -> (ns_window: usize)
        ensures
            ns_window == self.spec_ns_window(),
    {
        self.ns_window
    }
}

/// What a program asks of a new window.
#[derive(Debug)]
pub struct WindowParameters {
    pub position: Option<(u32, u32)>,
    pub dimensions: Option<(u32, u32)>,
    pub resizable: bool,
    pub title: Option<String>,
}

/// The AppKit style mask bit of a window with a title bar.
pub const NS_WINDOW_STYLE_MASK_TITLED: u64 = 1;
/// The AppKit style mask bit of a window with a close button.
pub const NS_WINDOW_STYLE_MASK_CLOSABLE: u64 = 2;
/// The AppKit style mask bit of a window with a minimize button.
pub const NS_WINDOW_STYLE_MASK_MINIATURIZABLE: u64 = 4;
/// The AppKit style mask bit of a window that can be resized.
pub const NS_WINDOW_STYLE_MASK_RESIZABLE: u64 = 8;

/// The width and height of a window whose parameters give none.
pub const DEFAULT_WINDOW_SIZE: u32 = 600;

/// How a window is to be created: its content size, style, where it goes
/// (`None`: centered) and its title.
#[derive(Debug)]
pub struct WindowLayout {
    pub width: u32,
    pub height: u32,
    pub style_mask: u64,
    pub position: Option<(u32, u32)>,
    pub title: String,
}

/// The style mask that a window gets: titled, closable, miniaturizable, and
/// resizable where asked.
pub open spec fn spec_style_mask(resizable: bool) -> u64 {
    if resizable {
        15
    } else {
        7
    }
}

/// Every window has a title bar, a close and a minimize button, and is resizable
/// exactly when asked.
pub proof fn lemma_style_mask_bits(resizable: bool)
    ensures
        spec_style_mask(resizable) & NS_WINDOW_STYLE_MASK_TITLED != 0,
        spec_style_mask(resizable) & NS_WINDOW_STYLE_MASK_CLOSABLE != 0,
        spec_style_mask(resizable) & NS_WINDOW_STYLE_MASK_MINIATURIZABLE != 0,
        (spec_style_mask(resizable) & NS_WINDOW_STYLE_MASK_RESIZABLE != 0) == resizable,
{
    assert(15u64 & 1u64 != 0 && 15u64 & 2u64 != 0 && 15u64 & 4u64 != 0 && 15u64 & 8u64 != 0) by (bit_vector);
    assert(7u64 & 1u64 != 0 && 7u64 & 2u64 != 0 && 7u64 & 4u64 != 0 && 7u64 & 8u64 == 0) by (bit_vector);
}

/// Decides how a window is to be created from what the program asked.
pub fn window_layout(window_parameters: WindowParameters) -> (layout: WindowLayout)
    ensures
        window_parameters.dimensions matches Some((w, h)) ==> layout.width == w && layout.height == h,
        window_parameters.dimensions is None ==> layout.width == DEFAULT_WINDOW_SIZE
            && layout.height == DEFAULT_WINDOW_SIZE,
        layout.style_mask == spec_style_mask(window_parameters.resizable),
        layout.position == window_parameters.position,
        window_parameters.title matches Some(t) ==> layout.title@ == t@,
        window_parameters.title is None ==> layout.title@ == "Untitled"@,
{
    let (width, height) = match window_parameters.dimensions {
        Some((w, h)) => (w, h),
        None => (DEFAULT_WINDOW_SIZE, DEFAULT_WINDOW_SIZE),
    };
    let mut style = NS_WINDOW_STYLE_MASK_TITLED | NS_WINDOW_STYLE_MASK_CLOSABLE
        | NS_WINDOW_STYLE_MASK_MINIATURIZABLE;
    assert(1u64 | 2u64 | 4u64 == 7u64) by (bit_vector);
    if window_parameters.resizable {
        assert(7u64 | 8u64 == 15u64) by (bit_vector);
        style = style | NS_WINDOW_STYLE_MASK_RESIZABLE;
    }
    let title = match window_parameters.title {
        Some(t) => t,
        None => "Untitled".to_string(),
    };
    WindowLayout { width, height, style_mask: style, position: window_parameters.position, title }
}

/// The objects that the platform created for a new window.
#[derive(Clone, Copy, Debug)]
pub struct WindowObjects {
    pub ns_window: usize,
    pub ns_view: usize,
    pub window_delegate: usize,
    pub tracking_area: usize,
}

/// What the application keeps of its windows.
#[derive(Debug)]
pub struct ApplicationData {
    pub windows: Vec<InnerWindowData>,
}

/// The data that a new window starts with: its objects, in the windowed state.
pub open spec fn spec_new_window_data(objects: WindowObjects) -> InnerWindowData {
    InnerWindowData {
        ns_window: objects.ns_window,
        ns_view: objects.ns_view,
        window_delegate: objects.window_delegate,
        tracking_area: objects.tracking_area,
        window_state: WindowState::Windowed,
    }
}

/// Records a window whose objects the platform has created, and gives its id.
pub fn build(application_data: &mut ApplicationData, objects: WindowObjects) -> (r: Result<WindowId, ()>)
    ensures
        final(application_data).windows@ == old(application_data).windows@.push(spec_new_window_data(objects)),
        r matches Ok(id) && id.spec_ns_window() == objects.ns_window,
{
    let inner_window_data = InnerWindowData {
        ns_window: objects.ns_window,
        ns_view: objects.ns_view,
        window_delegate: objects.window_delegate,
        tracking_area: objects.tracking_area,
        window_state: WindowState::Windowed,
    };
    application_data.windows.push(inner_window_data);
    Ok(WindowId::new(objects.ns_window))
}

} // verus!
