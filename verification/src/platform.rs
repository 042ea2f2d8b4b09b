use vstd::prelude::*;

use crate::export::RgbaFrame;

verus! {

#[verifier::external_type_specification]
#[verifier::external_body]
pub struct ExInstant(std::time::Instant);

#[verifier::external_type_specification]
#[verifier::external_body]
pub struct ExPathBuf(std::path::PathBuf);

/// How a platform session provides a capability.
#[derive(Debug, Clone, Copy, PartialEq, Eq, Structural)]
pub enum Availability {
    Native,
    Portal,
    Unavailable,
}

/// What the current platform session can do.
#[derive(Debug, Clone, Copy, PartialEq, Eq, Structural)]
pub struct Capabilities {
    pub desktop_capture: Availability,
    pub window_detection: Availability,
    pub image_clipboard: Availability,
    pub text_clipboard: Availability,
    pub image_save: Availability,
    pub pinned_image: Availability,
    pub text_recognition: Availability,
    pub scroll_capture_source: Availability,
    pub scroll_preview: Availability,
    pub global_shortcut: Availability,
    pub tray: Availability,
    pub capture_exclusion: Availability,
    pub window_frame: Availability,
}

impl Capabilities {
    /// Every capability with the same availability.
    pub fn uniform(value: Availability) -> (c: Capabilities)
        ensures
            c == (Capabilities {
                desktop_capture: value,
                window_detection: value,
                image_clipboard: value,
                text_clipboard: value,
                image_save: value,
                pinned_image: value,
                text_recognition: value,
                scroll_capture_source: value,
                scroll_preview: value,
                global_shortcut: value,
                tray: value,
                capture_exclusion: value,
                window_frame: value,
            }),
    {
        Capabilities {
            desktop_capture: value,
            window_detection: value,
            image_clipboard: value,
            text_clipboard: value,
            image_save: value,
            pinned_image: value,
            text_recognition: value,
            scroll_capture_source: value,
            scroll_preview: value,
            global_shortcut: value,
            tray: value,
            capture_exclusion: value,
            window_frame: value,
        }
    }

    /// The Windows backend provides every capability natively.
    pub fn windows() -> (c: Capabilities)
        ensures
            c == Capabilities::spec_uniform(Availability::Native),
    {
        Capabilities::uniform(Availability::Native)
    }

    /// The Wayland backend provides nothing yet.
    pub fn wayland() -> (c: Capabilities)
        ensures
            c == Capabilities::spec_uniform(Availability::Unavailable),
    {
        Capabilities::uniform(Availability::Unavailable)
    }

    pub open spec fn spec_uniform(value: Availability) -> Capabilities {
        Capabilities {
            desktop_capture: value,
            window_detection: value,
            image_clipboard: value,
            text_clipboard: value,
            image_save: value,
            pinned_image: value,
            text_recognition: value,
            scroll_capture_source: value,
            scroll_preview: value,
            global_shortcut: value,
            tray: value,
            capture_exclusion: value,
            window_frame: value,
        }
    }
}

/// The direction in which the content under a scrolling capture moves.
#[derive(Debug, Clone, Copy, PartialEq, Eq, Structural)]
pub enum ScrollDirection {
    Up,
    Down,
    Unknown,
}

/// A frame of a scrolling capture and the input state at the moment it was grabbed.
pub struct CapturedScrollFrame {
    pub frame: RgbaFrame,
    pub captured_at: std::time::Instant,
    pub direction: ScrollDirection,
    pub wheel_sequence: u64,
    pub native_scroll_position: Option<i64>,
    pub discontinuity: bool,
}

/// What a scrolling capture reports next.
pub enum ScrollCaptureEvent {
    Frame(CapturedScrollFrame),
    Finished(ScrollCaptureIntent),
    Cancelled,
}

/// What the user chose to do with a finished scrolling capture.
#[derive(Debug, Clone, Copy, PartialEq, Eq, Structural)]
pub enum ScrollCaptureIntent {
    Edit,
    Save,
    Clipboard,
}

/// A file format for saving images.
#[derive(Debug, Clone, Copy, PartialEq, Eq, Structural)]
pub enum ImageFileFormat {
    Png,
    Jpeg,
}

/// Where and how to save an image.
pub struct ImageSaveTarget {
    pub path: std::path::PathBuf,
    pub format: ImageFileFormat,
}

/// A button of a custom window title bar.
#[derive(Debug, Clone, Copy, PartialEq, Eq, Structural)]
pub enum CaptionButton {
    Minimize,
    Maximize,
    Close,
}

/// The window edge that a title-bar client area is measured from.
#[derive(Debug, Clone, Copy, PartialEq, Eq, Structural)]
pub enum WindowFrameAnchor {
    Left,
    Right,
}

/// What a native window frame reports.
#[derive(Debug, Clone, PartialEq, Eq)]
pub enum WindowFrameEvent {
    Installed,
    CaptionHoverChanged(Option<CaptionButton>),
    Detached,
    Failed(String),
}

/// The modifier keys of a global shortcut.
#[derive(Debug, Clone, Copy, PartialEq, Eq, Hash, Structural)]
pub struct ShortcutModifiers {
    pub control: bool,
    pub alt: bool,
    pub shift: bool,
    pub logo: bool,
}

impl ShortcutModifiers {
    /// No modifier held.
    pub fn none() -> (m: ShortcutModifiers)
        ensures
            m == (ShortcutModifiers { control: false, alt: false, shift: false, logo: false }),
    {
        ShortcutModifiers { control: false, alt: false, shift: false, logo: false }
    }
}

/// The key of a global shortcut: a character key or function key F1 to F24.
#[derive(Debug, Clone, Copy, PartialEq, Eq, Hash, Structural)]
pub enum ShortcutKey {
    Character(char),
    Function(u8),
}

/// A global keyboard shortcut.
#[derive(Debug, Clone, Copy, PartialEq, Eq, Hash, Structural)]
pub struct Shortcut {
    pub modifiers: ShortcutModifiers,
    pub key: ShortcutKey,
}

} // verus!
