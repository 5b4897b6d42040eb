//! Windows on Win32: the window builder and the decisions it takes before the
//! window is created. The platform calls themselves are made by the caller.
use vstd::prelude::*;

verus! {

/// The UTF-16 code units of one character.
pub open spec fn spec_utf16_of_char(c: char) -> Seq<u16> {
    let v = c as u32;
    if v < 0x10000 {
        seq![v as u16]
    } else {
        let w = (v - 0x10000) as u32;
        seq![(0xD800 + w / 0x400) as u16, (0xDC00 + w % 0x400) as u16]
    }
}

/// The UTF-16 encoding of a string.
pub open spec fn spec_utf16(s: Seq<char>) -> Seq<u16>
    decreases s.len(),
{
    if s.len() == 0 {
        seq![]
    } else {
        spec_utf16(s.drop_last()) + spec_utf16_of_char(s.last())
    }
}

/// A string as Win32 takes it: UTF-16, ended by a zero unit.
pub fn win32_string(value: &str) -> (r: Vec<u16>)
    ensures
        r@ == spec_utf16(value@).push(0u16),
{
    let mut r: Vec<u16> = Vec::new();
    let ghost chars = value@;
    for c in it: value.chars()
        invariant
            it.seq() == chars,
            r@ == spec_utf16(chars.take(it.index() as int)),
    {
        let ghost before = chars.take(it.index() as int);
        let v = c as u32;
        if v < 0x10000 {
            r.push(v as u16);
        } else {
            let w = v - 0x10000;
            r.push((0xD800 + w / 0x400) as u16);
            r.push((0xDC00 + w % 0x400) as u16);
        }
        proof {
            let after = chars.take(it.index() as int + 1);
            assert(after.drop_last() =~= before);
            assert(after.last() == c);
            assert(r@ =~= spec_utf16(before) + spec_utf16_of_char(c));
        }
    }
    assert(chars.take(chars.len() as int) =~= chars);
    r.push(0u16);
    r
}

/// The value Win32 takes for a coordinate or a size that it is to choose itself.
pub const CW_USEDEFAULT: i32 = -2147483648;

/// The extended window style of every window: shown on the taskbar.
pub const WS_EX_APPWINDOW: u32 = 0x00040000;
/// The style of an overlapped window: caption, system menu, sizing border,
/// minimize and maximize buttons.
pub const WS_OVERLAPPEDWINDOW: u32 = 0x00CF0000;
/// The style bit of a window that is shown when created.
pub const WS_VISIBLE: u32 = 0x10000000;

/// What the OpenGL context that windows share is asked to provide.
#[derive(Clone, Copy, Debug, PartialEq, Eq, Structural)]
pub struct OpenGLContextRequest {
    pub color_bits: u8,
    pub alpha_bits: u8,
    pub depth_bits: u8,
    pub stencil_bits: u8,
    pub msaa_samples: u8,
    pub srgb: bool,
}

/// The name under which the window class is registered.
pub open spec fn spec_window_class_name() -> Seq<u16> {
    spec_utf16("windowing_rust"@).push(0u16)
}

/// The name of the window class, as Win32 takes it.
pub fn window_class_name() -> (r: Vec<u16>)
    ensures
        r@ == spec_window_class_name(),
{
    win32_string("windowing_rust")
}

/// The coordinate or size Win32 is given for a setting: the value where the
/// program gave one, reinterpreted as a signed integer, and otherwise the default.
pub open spec fn spec_win32_coordinate(setting: Option<u32>) -> i32 {
    match setting {
        Some(v) => v as i32,
        None => CW_USEDEFAULT,
    }
}

fn win32_coordinate(setting: Option<u32>) -> (r: i32)
    ensures
        r == spec_win32_coordinate(setting),
{
    match setting {
        Some(v) => v as i32,
        None => CW_USEDEFAULT,
    }
}

/// The OpenGL context that every window of a manager is made current with.
#[derive(Clone, Copy, Debug, PartialEq, Eq, Structural)]
pub struct OpenGLContext {
    /// The address of the rendering context.
    pub context_ptr: usize,
    /// The pixel format that windows are given.
    pub pixel_format_id: i32,
}

/// A window, by the handles the platform gave it.
#[derive(Clone, Copy, Debug, PartialEq, Eq, Structural)]
pub struct Window {
    handle: usize,
    device: usize,
}

impl Window {
    pub closed spec fn spec_handle(self) -> usize {
        self.handle
    }

    pub closed spec fn spec_device(self) -> usize {
        self.device
    }

    /// A window made of a window handle and its device context.
    pub fn new(handle: usize, device: usize) -> (w: Window)
        ensures
            w.spec_handle() == handle,
            w.spec_device() == device,
    {
        Window { handle, device }
    }

    /// The window handle.
    pub fn handle(&self) -> (r: usize)
        ensures
            r == self.spec_handle(),
    {
        self.handle
    }

    /// The device context of the window.
    pub fn device(&self) -> (r: usize)
        ensures
            r == self.spec_device(),
    {
        self.device
    }
}

/// Everything the platform call that creates a window is given.
#[derive(Debug)]
pub struct WindowCreation {
    pub ex_style: u32,
    pub style: u32,
    pub class_name: Vec<u16>,
    pub h_instance: usize,
    pub title: Vec<u16>,
    pub x: i32,
    pub y: i32,
    pub width: i32,
    pub height: i32,
    pub opengl_context: OpenGLContext,
}

/// Collects the settings of a window before it is built.
#[derive(Debug)]
pub struct WindowBuilder<'a> {
    class_name: Vec<u16>,
    h_instance: usize,
    opengl_context: OpenGLContext,
    x: Option<u32>,
    y: Option<u32>,
    width: Option<u32>,
    height: Option<u32>,
    resizable: bool,
    title: Option<&'a str>,
}

impl<'a> WindowBuilder<'a> {
    pub closed spec fn spec_class_name(&self) -> Seq<u16> {
        self.class_name@
    }

    pub closed spec fn spec_h_instance(&self) -> usize {
        self.h_instance
    }

    pub closed spec fn spec_opengl_context(&self) -> OpenGLContext {
        self.opengl_context
    }

    /// The position asked for, each coordinate where it was given.
    pub closed spec fn spec_position(&self) -> (Option<u32>, Option<u32>) {
        (self.x, self.y)
    }

    /// The size asked for, each where it was given.
    pub closed spec fn spec_dimensions(&self) -> (Option<u32>, Option<u32>) {
        (self.width, self.height)
    }

    pub closed spec fn spec_resizable(&self) -> bool {
        self.resizable
    }

    pub closed spec fn spec_title(&self) -> Option<Seq<char>> {
        match self.title {
            Some(t) => Some(t@),
            None => None,
        }
    }

    /// Sets the title of the window.
    pub fn title(&mut self, title: &'a str) -> (r: &mut Self)
        ensures
            (*r).spec_title() == Some(title@),
            (*r).spec_position() == old(self).spec_position(),
            (*r).spec_dimensions() == old(self).spec_dimensions(),
            (*r).spec_resizable() == old(self).spec_resizable(),
            (*r).spec_class_name() == old(self).spec_class_name(),
            (*r).spec_h_instance() == old(self).spec_h_instance(),
            (*r).spec_opengl_context() == old(self).spec_opengl_context(),
            *final(self) == *final(r),
    {
        self.title = Some(title);
        self
    }

    /// Sets the position of the window.
    pub fn position(&mut self, x: u32, y: u32) -> (r: &mut Self)
        ensures
            (*r).spec_position() == (Some(x), Some(y)),
            (*r).spec_title() == old(self).spec_title(),
            (*r).spec_dimensions() == old(self).spec_dimensions(),
            (*r).spec_resizable() == old(self).spec_resizable(),
            (*r).spec_class_name() == old(self).spec_class_name(),
            (*r).spec_h_instance() == old(self).spec_h_instance(),
            (*r).spec_opengl_context() == old(self).spec_opengl_context(),
            *final(self) == *final(r),
    {
        self.x = Some(x);
        self.y = Some(y);
        self
    }

    /// Sets the size of the window.
    pub fn dimensions(&mut self, width: u32, height: u32) -> (r: &mut Self)
        ensures
            (*r).spec_dimensions() == (Some(width), Some(height)),
            (*r).spec_title() == old(self).spec_title(),
            (*r).spec_position() == old(self).spec_position(),
            (*r).spec_resizable() == old(self).spec_resizable(),
            (*r).spec_class_name() == old(self).spec_class_name(),
            (*r).spec_h_instance() == old(self).spec_h_instance(),
            (*r).spec_opengl_context() == old(self).spec_opengl_context(),
            *final(self) == *final(r),
    {
        self.width = Some(width);
        self.height = Some(height);
        self
    }

    /// What the platform call that creates the window is given: the title
    /// (`Untitled` where none was set) as Win32 takes it, and each coordinate and
    /// size where it was set, the platform's default where not.
    pub fn build_parameters(&self) -> (c: WindowCreation)
        ensures
            c.ex_style == WS_EX_APPWINDOW,
            c.style == WS_OVERLAPPEDWINDOW | WS_VISIBLE,
            c.class_name@ == self.spec_class_name(),
            c.h_instance == self.spec_h_instance(),
            c.opengl_context == self.spec_opengl_context(),
            self.spec_title() matches Some(t) ==> c.title@ == spec_utf16(t).push(0u16),
            self.spec_title() is None ==> c.title@ == spec_utf16("Untitled"@).push(0u16),
            c.x == spec_win32_coordinate(self.spec_position().0),
            c.y == spec_win32_coordinate(self.spec_position().1),
            c.width == spec_win32_coordinate(self.spec_dimensions().0),
            c.height == spec_win32_coordinate(self.spec_dimensions().1),
    {
        let title = match self.title {
            Some(t) => win32_string(t),
            None => win32_string("Untitled"),
        };
        WindowCreation {
            ex_style: WS_EX_APPWINDOW,
            style: WS_OVERLAPPEDWINDOW | WS_VISIBLE,
            class_name: self.class_name.clone(),
            h_instance: self.h_instance,
            title,
            x: win32_coordinate(self.x),
            y: win32_coordinate(self.y),
            width: win32_coordinate(self.width),
            height: win32_coordinate(self.height),
            opengl_context: self.opengl_context,
        }
    }
}

/// Creates windows that share one window class and one OpenGL context.
#[derive(Debug)]
pub struct WindowManager {
    class_name: Vec<u16>,
    h_instance: usize,
    opengl_context: OpenGLContext,
}

impl WindowManager {
    pub closed spec fn spec_class_name(&self) -> Seq<u16> {
        self.class_name@
    }

    pub closed spec fn spec_h_instance(&self) -> usize {
        self.h_instance
    }

    pub closed spec fn spec_opengl_context(&self) -> OpenGLContext {
        self.opengl_context
    }

    /// A manager for the module `h_instance`, whose window class is registered
    /// under `window_class_name()` and whose OpenGL context is `opengl_context`.
    pub fn new(h_instance: usize, opengl_context: OpenGLContext) -> (m: WindowManager)
        ensures
            m.spec_class_name() == spec_window_class_name(),
            m.spec_h_instance() == h_instance,
            m.spec_opengl_context() == opengl_context,
    {
        WindowManager { class_name: window_class_name(), h_instance, opengl_context }
    }

    /// What a manager asks of its OpenGL context: 32 colour bits, 8 alpha bits,
    /// 16 depth bits, no stencil bits, 2 samples per pixel, no sRGB.
    pub fn opengl_context_request() -> (r: OpenGLContextRequest)
        ensures
            r == (OpenGLContextRequest {
                color_bits: 32,
                alpha_bits: 8,
                depth_bits: 16,
                stencil_bits: 0,
                msaa_samples: 2,
                srgb: false,
            }),
    {
        OpenGLContextRequest {
            color_bits: 32,
            alpha_bits: 8,
            depth_bits: 16,
            stencil_bits: 0,
            msaa_samples: 2,
            srgb: false,
        }
    }

    /// The OpenGL context that the windows of this manager are made current with.
    pub fn opengl_context(&self) -> (c: OpenGLContext)
        ensures
            c == self.spec_opengl_context(),
    {
        self.opengl_context
    }

    /// A builder for a new window of this manager: no position, size or title
    /// set, resizable.
    pub fn new_window<'a>(&mut self) -> (b: WindowBuilder<'a>)
        ensures
            b.spec_class_name() == old(self).spec_class_name(),
            b.spec_h_instance() == old(self).spec_h_instance(),
            b.spec_opengl_context() == old(self).spec_opengl_context(),
            b.spec_position() == (None::<u32>, None::<u32>),
            b.spec_dimensions() == (None::<u32>, None::<u32>),
            b.spec_resizable(),
            b.spec_title() is None,
            *final(self) == *old(self),
    {
        WindowBuilder {
            class_name: self.class_name.clone(),
            h_instance: self.h_instance,
            opengl_context: self.opengl_context,
            x: None,
            y: None,
            width: None,
            height: None,
            resizable: true,
            title: None,
        }
    }
}

/// Whether a UTF-16 unit is a high (leading) surrogate.
pub open spec fn is_high_surrogate(u: u16) -> bool {
    0xD800 <= u <= 0xDBFF
}

/// Whether a UTF-16 unit is a low (trailing) surrogate.
pub open spec fn is_low_surrogate(u: u16) -> bool {
    0xDC00 <= u <= 0xDFFF
}

/// Reads UTF-16 units back into the code points they stand for, from the end:
/// a high surrogate followed by a low one is one code point, any other unit is
/// the code point of its own value.
pub open spec fn spec_utf16_decode(units: Seq<u16>) -> Seq<u32>
    decreases units.len(),
{
    if units.len() == 0 {
        seq![]
    } else if units.len() >= 2 && is_low_surrogate(units.last()) && is_high_surrogate(
        units[units.len() - 2],
    ) {
        spec_utf16_decode(units.take(units.len() - 2)) + seq![
            (0x10000 + (units[units.len() - 2] - 0xD800) * 0x400 + (units.last() - 0xDC00)) as u32,
        ]
    } else {
        spec_utf16_decode(units.drop_last()) + seq![units.last() as u32]
    }
}

/// The code points of a string.
pub open spec fn spec_code_points(s: Seq<char>) -> Seq<u32> {
    s.map_values(|c: char| c as u32)
}

/// A character below U+10000 is one unit holding its code point; any other is a
/// high surrogate followed by a low one, which together give its code point back.
pub proof fn lemma_utf16_of_char_decodes(c: char)
    ensures
        (c as u32) < 0x10000 ==> spec_utf16_of_char(c).len() == 1
            && spec_utf16_of_char(c)[0] as u32 == c as u32
            && !is_high_surrogate(spec_utf16_of_char(c)[0])
            && !is_low_surrogate(spec_utf16_of_char(c)[0]),
        (c as u32) >= 0x10000 ==> spec_utf16_of_char(c).len() == 2
            && is_high_surrogate(spec_utf16_of_char(c)[0])
            && is_low_surrogate(spec_utf16_of_char(c)[1])
            && 0x10000 + (spec_utf16_of_char(c)[0] - 0xD800) * 0x400
                + (spec_utf16_of_char(c)[1] - 0xDC00) == c as u32,
{
    let v = c as u32;
    assert(v <= 0x10FFFF);
    assert(v < 0xD800 || v > 0xDFFF);
    if v >= 0x10000 {
        let w = (v - 0x10000) as u32;
        assert(w <= 0xFFFFF);
        assert(w / 0x400 <= 0x3FF) by (nonlinear_arith)
            requires
                w <= 0xFFFFF,
        ;
        assert(w % 0x400 < 0x400) by (nonlinear_arith);
        assert((w / 0x400) * 0x400 + w % 0x400 == w) by (nonlinear_arith);
    }
}

/// The UTF-16 encoding of a string reads back to the string's code points.
pub proof fn lemma_utf16_decodes(s: Seq<char>)
    ensures
        spec_utf16_decode(spec_utf16(s)) == spec_code_points(s),
    decreases s.len(),
{
    if s.len() == 0 {
        assert(spec_code_points(s) =~= seq![]);
    } else {
        let p = s.drop_last();
        let c = s.last();
        lemma_utf16_decodes(p);
        lemma_utf16_of_char_decodes(c);
        let a = spec_utf16(p);
        let b = spec_utf16_of_char(c);
        let u = a + b;
        assert(spec_utf16(s) == u);
        assert(spec_code_points(s) =~= spec_code_points(p) + seq![c as u32]);
        if (c as u32) < 0x10000 {
            assert(u.last() == b[0]);
            assert(u.drop_last() =~= a);
            assert(spec_utf16_decode(u) == spec_utf16_decode(u.drop_last()) + seq![u.last() as u32]);
        } else {
            assert(u.last() == b[1]);
            assert(u[u.len() - 2] == b[0]);
            assert(u.take(u.len() - 2) =~= a);
        }
    }
}

/// What `win32_string` gives reads back, before its terminating zero, to the
/// code points of the string it was given.
pub proof fn lemma_win32_string_decodes(value: Seq<char>, units: Seq<u16>)
    requires
        units == spec_utf16(value).push(0u16),
    ensures
        units.last() == 0,
        spec_utf16_decode(units.drop_last()) == spec_code_points(value),
{
    assert(units.drop_last() =~= spec_utf16(value));
    lemma_utf16_decodes(value);
}

/// A coordinate or size that the program set is handed over bit for bit: read
/// back as unsigned it is the value set, and below 2^31 it is that value; the
/// default stands only where nothing was set, or where the value set has the
/// same bits as the default.
pub proof fn lemma_win32_coordinate_keeps_setting(v: u32)
    ensures
        spec_win32_coordinate(Some(v)) as u32 == v,
        v <= 0x7FFF_FFFF ==> spec_win32_coordinate(Some(v)) == v,
        spec_win32_coordinate(Some(v)) == CW_USEDEFAULT <==> v == 0x8000_0000,
        spec_win32_coordinate(None) == CW_USEDEFAULT,
{
    assert((v as i32) as u32 == v) by (bit_vector);
    assert(v <= 0x7FFF_FFFF ==> (v as i32) == v) by (bit_vector);
    assert(((v as i32) == -2147483648i32) <==> v == 0x8000_0000u32) by (bit_vector);
}

} // verus!
