use vstd::prelude::*;

use crate::text::same_text;

verus! {

/// `WM_NCHITTEST` answer: the client area, handled by the window's own content.
pub const HTCLIENT: u32 = 1;

/// `WM_NCHITTEST` answer: the title bar, which drags the window.
pub const HTCAPTION: u32 = 2;

/// `WM_NCHITTEST` answer: the left resize edge.
pub const HTLEFT: u32 = 10;

/// `WM_NCHITTEST` answer: the right resize edge.
pub const HTRIGHT: u32 = 11;

/// `WM_NCHITTEST` answer: the top resize edge.
pub const HTTOP: u32 = 12;

/// `WM_NCHITTEST` answer: the top-left resize corner.
pub const HTTOPLEFT: u32 = 13;

/// `WM_NCHITTEST` answer: the top-right resize corner.
pub const HTTOPRIGHT: u32 = 14;

/// `WM_NCHITTEST` answer: the bottom resize edge.
pub const HTBOTTOM: u32 = 15;

/// `WM_NCHITTEST` answer: the bottom-left resize corner.
pub const HTBOTTOMLEFT: u32 = 16;

/// `WM_NCHITTEST` answer: the bottom-right resize corner.
pub const HTBOTTOMRIGHT: u32 = 17;

/// The part of a borderless window under the point (`x`, `y`), relative to its top-left
/// corner: resize edges (corners first) within `border` of the window's sides, then the
/// title bar left of the caption buttons, then the client area.
pub open spec fn spec_hit_test_region(
    width: int,
    height: int,
    x: int,
    y: int,
    border: int,
    titlebar_height: int,
    titlebar_buttons_width: int,
) -> u32 {
    let left = border > 0 && 0 <= x < border;
    let right = border > 0 && width - border <= x < width;
    let top = border > 0 && 0 <= y < border;
    let bottom = border > 0 && height - border <= y < height;
    let caption_width = if width - titlebar_buttons_width > 0 {
        width - titlebar_buttons_width
    } else {
        0
    };
    if left && top {
        HTTOPLEFT
    } else if right && top {
        HTTOPRIGHT
    } else if left && bottom {
        HTBOTTOMLEFT
    } else if right && bottom {
        HTBOTTOMRIGHT
    } else if left {
        HTLEFT
    } else if right {
        HTRIGHT
    } else if top {
        HTTOP
    } else if bottom {
        HTBOTTOM
    } else if 0 <= x < caption_width && 0 <= y < titlebar_height {
        HTCAPTION
    } else {
        HTCLIENT
    }
}

/// The `WM_NCHITTEST` answer for a point of a borderless window with a custom title bar;
/// a maximized window passes a `border` of zero and has no resize edges.
pub fn hit_test_region(
    width: i32,
    height: i32,
    x: i32,
    y: i32,
    border: i32,
    titlebar_height: i32,
    titlebar_buttons_width: i32,
) -> (region: u32)
    ensures
        region == spec_hit_test_region(
            width as int,
            height as int,
            x as int,
            y as int,
            border as int,
            titlebar_height as int,
            titlebar_buttons_width as int,
        ),
{
    let width = width as i64;
    let height = height as i64;
    let x = x as i64;
    let y = y as i64;
    let border = border as i64;
    let left = border > 0 && x >= 0 && x < border;
    let right = border > 0 && x < width && x >= width - border;
    let top = border > 0 && y >= 0 && y < border;
    let bottom = border > 0 && y < height && y >= height - border;
    let caption_width = if width - (titlebar_buttons_width as i64) > 0 {
        width - titlebar_buttons_width as i64
    } else {
        0
    };
    if left && top {
        HTTOPLEFT
    } else if right && top {
        HTTOPRIGHT
    } else if left && bottom {
        HTBOTTOMLEFT
    } else if right && bottom {
        HTBOTTOMRIGHT
    } else if left {
        HTLEFT
    } else if right {
        HTRIGHT
    } else if top {
        HTTOP
    } else if bottom {
        HTBOTTOM
    } else if x >= 0 && x < caption_width && y >= 0 && y < titlebar_height as i64 {
        HTCAPTION
    } else {
        HTCLIENT
    }
}

/// Without a resize border no point is a resize edge, and the caption buttons' strip of
/// the title bar stays client area.
pub proof fn lemma_borderless_hit_test(
    width: int,
    height: int,
    x: int,
    y: int,
    titlebar_height: int,
    titlebar_buttons_width: int,
)
    ensures
        spec_hit_test_region(width, height, x, y, 0, titlebar_height, titlebar_buttons_width)
            == HTCAPTION || spec_hit_test_region(
            width,
            height,
            x,
            y,
            0,
            titlebar_height,
            titlebar_buttons_width,
        ) == HTCLIENT,
        x >= width - titlebar_buttons_width ==> spec_hit_test_region(
            width,
            height,
            x,
            y,
            0,
            titlebar_height,
            titlebar_buttons_width,
        ) == HTCLIENT,
{
}


/// Whether a hit-test answer is one of the resize edges or corners.
pub open spec fn is_resize_edge(region: u32) -> bool {
    region == HTLEFT || region == HTRIGHT || region == HTTOP || region == HTBOTTOM || region
        == HTTOPLEFT || region == HTTOPRIGHT || region == HTBOTTOMLEFT || region == HTBOTTOMRIGHT
}

/// The resize edge seen in a mirror held to the window's side: left and right trade places,
/// top and bottom stay.
pub open spec fn mirrored_edge(region: u32) -> u32 {
    if region == HTLEFT {
        HTRIGHT
    } else if region == HTRIGHT {
        HTLEFT
    } else if region == HTTOPLEFT {
        HTTOPRIGHT
    } else if region == HTTOPRIGHT {
        HTTOPLEFT
    } else if region == HTBOTTOMLEFT {
        HTBOTTOMRIGHT
    } else if region == HTBOTTOMRIGHT {
        HTBOTTOMLEFT
    } else {
        region
    }
}

/// The resize edges of a window whose borders do not overlap are mirror images: mirroring a
/// point across the window's vertical middle (`x` to `width - 1 - x`) mirrors the edge under
/// it, left to right and top-left to top-right, keeps top and bottom, and keeps a point off
/// the edges off them. In particular a point within the border of the right side only is
/// the right edge.
pub proof fn lemma_resize_edges_are_mirror_images(
    width: int,
    height: int,
    x: int,
    y: int,
    border: int,
    titlebar_height: int,
    titlebar_buttons_width: int,
)
    requires
        border > 0,
        2 * border <= width,
        2 * border <= height,
        0 <= x < width,
    ensures
        ({
            let here = spec_hit_test_region(width, height, x, y, border, titlebar_height, titlebar_buttons_width);
            let mirrored = spec_hit_test_region(
                width,
                height,
                width - 1 - x,
                y,
                border,
                titlebar_height,
                titlebar_buttons_width,
            );
            &&& is_resize_edge(here) ==> mirrored == mirrored_edge(here)
            &&& !is_resize_edge(here) ==> !is_resize_edge(mirrored)
        }),
        width - border <= x && border <= y < height - border ==> spec_hit_test_region(
            width,
            height,
            x,
            y,
            border,
            titlebar_height,
            titlebar_buttons_width,
        ) == HTRIGHT,
        x < border && border <= y < height - border ==> spec_hit_test_region(
            width,
            height,
            x,
            y,
            border,
            titlebar_height,
            titlebar_buttons_width,
        ) == HTLEFT,
{
}

/// What a borderless window shows, told apart by its title.
#[derive(Debug, Clone, Copy, PartialEq, Eq, Structural)]
pub enum WindowContentKind {
    Other,
    Preview,
    OcrPreview,
}

impl WindowContentKind {
    /// The kind of the window titled `title`: the image preview, the text-recognition preview,
    /// or another window.
    pub fn from_title(title: &str) -> (kind: WindowContentKind)
        ensures
            kind == (if title@ == "Patrick Star"@ {
                WindowContentKind::Preview
            } else if title@ == "截图预览"@ {
                WindowContentKind::OcrPreview
            } else {
                WindowContentKind::Other
            }),
    {
        if same_text(title, "Patrick Star") {
            WindowContentKind::Preview
        } else if same_text(title, "截图预览") {
            WindowContentKind::OcrPreview
        } else {
            WindowContentKind::Other
        }
    }
}

/// The system cursor over the client area of a borderless window.
#[derive(Debug, Clone, Copy, PartialEq, Eq, Structural)]
pub enum ClientCursor {
    Arrow,
    Hand,
    Crosshair,
    Text,
}

/// The physical lengths, at the window's scale, of the bands of a preview window: the title
/// bar and its caption buttons, the header with the commands, the status bar, and the text
/// panel of the recognition preview.
#[derive(Debug, Clone, Copy, PartialEq, Eq, Structural)]
pub struct ClientLayout {
    pub titlebar_height: i32,
    pub titlebar_buttons_width: i32,
    pub header_height: i32,
    pub status_height: i32,
    pub text_panel_width: i32,
}

/// `a - b` held within the `i32` range.
pub open spec fn saturating_difference(a: int, b: int) -> int {
    if a - b < i32::MIN {
        i32::MIN as int
    } else if a - b > i32::MAX {
        i32::MAX as int
    } else {
        a - b
    }
}

/// The cursor at (`x`, `y`) of a `width` by `height` client area: outside it an arrow; over
/// the caption buttons a hand; in other windows an arrow; over the command header a hand;
/// over the rest of the title bar and the status bar an arrow; over the text panel of the
/// recognition preview an I-beam; over the canvas a crosshair.
pub open spec fn spec_client_cursor(
    kind: WindowContentKind,
    width: int,
    height: int,
    x: int,
    y: int,
    layout: ClientLayout,
) -> ClientCursor {
    let buttons_left = if width - layout.titlebar_buttons_width > 0 {
        width - layout.titlebar_buttons_width
    } else {
        0
    };
    if x < 0 || y < 0 || x >= width || y >= height {
        ClientCursor::Arrow
    } else if y < layout.titlebar_height && x >= buttons_left {
        ClientCursor::Hand
    } else if kind == WindowContentKind::Other {
        ClientCursor::Arrow
    } else if y >= layout.titlebar_height && y < layout.header_height {
        ClientCursor::Hand
    } else if y < layout.header_height || y >= saturating_difference(height, layout.status_height as int) {
        ClientCursor::Arrow
    } else if kind == WindowContentKind::OcrPreview && x >= saturating_difference(
        width,
        layout.text_panel_width as int,
    ) {
        ClientCursor::Text
    } else {
        ClientCursor::Crosshair
    }
}

fn saturating_diff(a: i32, b: i32) -> (d: i64)
    ensures
        d == saturating_difference(a as int, b as int),
{
    let d = a as i64 - b as i64;
    if d < i32::MIN as i64 {
        i32::MIN as i64
    } else if d > i32::MAX as i64 {
        i32::MAX as i64
    } else {
        d
    }
}

/// The cursor that a borderless window shows at a point of its client area.
pub fn client_cursor(
    kind: WindowContentKind,
    width: i32,
    height: i32,
    x: i32,
    y: i32,
    layout: ClientLayout,
) -> (cursor: ClientCursor)
    ensures
        cursor == spec_client_cursor(kind, width as int, height as int, x as int, y as int, layout),
{
    let buttons_left: i64 = if width as i64 - layout.titlebar_buttons_width as i64 > 0 {
        width as i64 - layout.titlebar_buttons_width as i64
    } else {
        0
    };
    if x < 0 || y < 0 || x >= width || y >= height {
        ClientCursor::Arrow
    } else if y < layout.titlebar_height && x as i64 >= buttons_left {
        ClientCursor::Hand
    } else if kind == WindowContentKind::Other {
        ClientCursor::Arrow
    } else if y >= layout.titlebar_height && y < layout.header_height {
        ClientCursor::Hand
    } else if y < layout.header_height || y as i64 >= saturating_diff(height, layout.status_height) {
        ClientCursor::Arrow
    } else if kind == WindowContentKind::OcrPreview && x as i64 >= saturating_diff(
        width,
        layout.text_panel_width,
    ) {
        ClientCursor::Text
    } else {
        ClientCursor::Crosshair
    }
}

} // verus!
