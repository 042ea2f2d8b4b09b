use vstd::prelude::*;

use crate::export::CaptureIntent;
use crate::geometry::RectI;
use crate::overlay::{spec_valid_for, OverlayAction};
use crate::platform::{Availability, Capabilities};
use crate::tool::Tool;

verus! {

/// What a detected capture target is.
#[derive(Debug, Clone, Copy, PartialEq, Eq, Structural)]
pub enum TargetKind {
    Window,
    Control,
}

/// A window or control under the pointer, in absolute virtual-desktop physical pixels.
#[derive(Debug, Clone, Copy, PartialEq, Eq, Structural)]
pub struct DetectedTarget {
    pub bounds: RectI,
    pub kind: TargetKind,
}

/// The output commands that the capture overlay offers.
#[derive(Debug, Clone, Copy, PartialEq, Eq, Structural)]
pub struct OverlayFeatures {
    pub extract_text: bool,
    pub scroll_capture: bool,
    pub languages: bool,
    pub save: bool,
    pub pin: bool,
}

impl OverlayFeatures {
    /// No output command besides confirm and cancel.
    pub fn none() -> (f: OverlayFeatures)
        ensures
            f == (OverlayFeatures {
                extract_text: false,
                scroll_capture: false,
                languages: false,
                save: false,
                pin: false,
            }),
    {
        OverlayFeatures { extract_text: false, scroll_capture: false, languages: false, save: false, pin: false }
    }
}

/// Whether this build carries the feature matcher that scrolling capture needs. It does not:
/// the matcher's library is not part of it, so the scrolling-capture command stays off.
pub const SCROLL_MATCHER_AVAILABLE: bool = false;

pub open spec fn available(value: Availability) -> bool {
    value != Availability::Unavailable
}

/// The commands that a platform's capabilities support: text extraction needs recognition
/// and a text clipboard, scrolling capture needs the feature matcher in this build and a
/// source and a preview, the language button stays off until it can change and persist the
/// language.
pub open spec fn spec_overlay_features(capabilities: Capabilities) -> OverlayFeatures {
    OverlayFeatures {
        extract_text: available(capabilities.text_recognition) && available(
            capabilities.text_clipboard,
        ),
        scroll_capture: SCROLL_MATCHER_AVAILABLE && available(capabilities.scroll_capture_source)
            && available(
            capabilities.scroll_preview,
        ),
        languages: false,
        save: available(capabilities.image_save),
        pin: available(capabilities.pinned_image),
    }
}

fn is_available(value: Availability) -> (r: bool)
    ensures
        r == available(value),
{
    value != Availability::Unavailable
}

pub fn overlay_features(capabilities: Capabilities) -> (features: OverlayFeatures)
    ensures
        features == spec_overlay_features(capabilities),
{
    OverlayFeatures {
        extract_text: is_available(capabilities.text_recognition) && is_available(
            capabilities.text_clipboard,
        ),
        scroll_capture: SCROLL_MATCHER_AVAILABLE && is_available(capabilities.scroll_capture_source)
            && is_available(
            capabilities.scroll_preview,
        ),
        languages: false,
        save: is_available(capabilities.image_save),
        pin: is_available(capabilities.pinned_image),
    }
}

/// Whether a toolbar command can be used: options only for the active tool, undo only with
/// something to undo, output commands only with their feature; tools, confirm and cancel always.
pub open spec fn spec_action_enabled(features: OverlayFeatures, tool: Tool, can_undo: bool, action: OverlayAction) -> bool {
    match action {
        OverlayAction::Option(option) => spec_valid_for(option, tool),
        OverlayAction::Undo => can_undo,
        OverlayAction::ExtractText => features.extract_text,
        OverlayAction::ScrollCapture => features.scroll_capture,
        OverlayAction::Languages => features.languages,
        OverlayAction::Save => features.save,
        OverlayAction::Pin => features.pin,
        _ => true,
    }
}

pub fn action_enabled(features: OverlayFeatures, tool: Tool, can_undo: bool, action: OverlayAction) -> (enabled: bool)
    ensures
        enabled == spec_action_enabled(features, tool, can_undo, action),
{
    match action {
        OverlayAction::Option(option) => option.valid_for(tool),
        OverlayAction::Undo => can_undo,
        OverlayAction::ExtractText => features.extract_text,
        OverlayAction::ScrollCapture => features.scroll_capture,
        OverlayAction::Languages => features.languages,
        OverlayAction::Save => features.save,
        OverlayAction::Pin => features.pin,
        _ => true,
    }
}

/// A platform service that the program or a capture intent cannot do without.
#[derive(Debug, Clone, Copy, PartialEq, Eq, Structural)]
pub enum MissingService {
    Tray,
    GlobalShortcut,
    DesktopCapture,
    ImageClipboard,
    ImageSave,
    PinnedImage,
    TextRecognition,
    TextClipboard,
}

impl MissingService {
    /// A sentence that describes the missing service for a log or a dialog.
    pub fn message(&self) -> (text: &'static str)
        ensures
            text@ == (match *self {
                MissingService::Tray => "the system tray is unavailable on this platform session"@,
                MissingService::GlobalShortcut =>
                    "global shortcuts are unavailable on this platform session"@,
                MissingService::DesktopCapture =>
                    "desktop capture is unavailable on this platform session"@,
                MissingService::ImageClipboard =>
                    "image clipboard is unavailable on this platform session"@,
                MissingService::ImageSave => "image save is unavailable on this platform session"@,
                MissingService::PinnedImage =>
                    "pinned images are unavailable on this platform session"@,
                MissingService::TextRecognition =>
                    "text recognition is unavailable on this platform session"@,
                MissingService::TextClipboard =>
                    "text clipboard is unavailable on this platform session"@,
            }),
    {
        match *self {
            MissingService::Tray => "the system tray is unavailable on this platform session",
            MissingService::GlobalShortcut =>
                "global shortcuts are unavailable on this platform session",
            MissingService::DesktopCapture =>
                "desktop capture is unavailable on this platform session",
            MissingService::ImageClipboard =>
                "image clipboard is unavailable on this platform session",
            MissingService::ImageSave => "image save is unavailable on this platform session",
            MissingService::PinnedImage => "pinned images are unavailable on this platform session",
            MissingService::TextRecognition =>
                "text recognition is unavailable on this platform session",
            MissingService::TextClipboard =>
                "text clipboard is unavailable on this platform session",
        }
    }
}

/// The program runs from the tray and a global shortcut: both must be there.
pub fn check_shell_services(capabilities: Capabilities) -> (r: Result<(), MissingService>)
    ensures
        !available(capabilities.tray) ==> r == Err::<(), MissingService>(MissingService::Tray),
        available(capabilities.tray) && !available(capabilities.global_shortcut) ==> r == Err::<
            (),
            MissingService,
        >(MissingService::GlobalShortcut),
        available(capabilities.tray) && available(capabilities.global_shortcut) ==> r is Ok,
{
    if !is_available(capabilities.tray) {
        return Err(MissingService::Tray);
    }
    if !is_available(capabilities.global_shortcut) {
        return Err(MissingService::GlobalShortcut);
    }
    Ok(())
}

/// A capture needs the desktop to be captured.
pub fn check_desktop_capture(capabilities: Capabilities) -> (r: Result<(), MissingService>)
    ensures
        available(capabilities.desktop_capture) <==> r is Ok,
        r is Err ==> r == Err::<(), MissingService>(MissingService::DesktopCapture),
{
    if is_available(capabilities.desktop_capture) {
        Ok(())
    } else {
        Err(MissingService::DesktopCapture)
    }
}

/// The first service that a confirmed capture's intent needs and the platform lacks:
/// the clipboard to copy, the save dialog to save, a pinned window to pin, recognition and
/// then the text clipboard to extract text; a scrolling capture checks its own services.
pub open spec fn spec_missing_for_intent(capabilities: Capabilities, intent: CaptureIntent) -> Option<
    MissingService,
> {
    match intent {
        CaptureIntent::Clipboard => if available(capabilities.image_clipboard) {
            None
        } else {
            Some(MissingService::ImageClipboard)
        },
        CaptureIntent::Save => if available(capabilities.image_save) {
            None
        } else {
            Some(MissingService::ImageSave)
        },
        CaptureIntent::Pin => if available(capabilities.pinned_image) {
            None
        } else {
            Some(MissingService::PinnedImage)
        },
        CaptureIntent::ExtractText => if !available(capabilities.text_recognition) {
            Some(MissingService::TextRecognition)
        } else if !available(capabilities.text_clipboard) {
            Some(MissingService::TextClipboard)
        } else {
            None
        },
        CaptureIntent::ScrollCapture => None,
    }
}

pub fn check_intent_services(capabilities: Capabilities, intent: CaptureIntent) -> (r: Result<
    (),
    MissingService,
>)
    ensures
        match spec_missing_for_intent(capabilities, intent) {
            Some(missing) => r == Err::<(), MissingService>(missing),
            None => r is Ok,
        },
{
    match intent {
        CaptureIntent::Clipboard => if is_available(capabilities.image_clipboard) {
            Ok(())
        } else {
            Err(MissingService::ImageClipboard)
        },
        CaptureIntent::Save => if is_available(capabilities.image_save) {
            Ok(())
        } else {
            Err(MissingService::ImageSave)
        },
        CaptureIntent::Pin => if is_available(capabilities.pinned_image) {
            Ok(())
        } else {
            Err(MissingService::PinnedImage)
        },
        CaptureIntent::ExtractText => if !is_available(capabilities.text_recognition) {
            Err(MissingService::TextRecognition)
        } else if !is_available(capabilities.text_clipboard) {
            Err(MissingService::TextClipboard)
        } else {
            Ok(())
        },
        CaptureIntent::ScrollCapture => Ok(()),
    }
}

/// Every command that the overlay enables can be carried out once confirmed: text
/// extraction is offered only where its intent finds its services.
pub proof fn lemma_enabled_extraction_has_its_services(capabilities: Capabilities)
    ensures
        spec_overlay_features(capabilities).extract_text ==> spec_missing_for_intent(
            capabilities,
            CaptureIntent::ExtractText,
        ) is None,
        spec_overlay_features(capabilities).save ==> spec_missing_for_intent(
            capabilities,
            CaptureIntent::Save,
        ) is None,
        spec_overlay_features(capabilities).pin ==> spec_missing_for_intent(
            capabilities,
            CaptureIntent::Pin,
        ) is None,
{
}

/// The pointer state of the overlay toolbar: the command under the pointer and the one pressed.
#[derive(Debug, Clone, Copy, PartialEq, Eq, Structural)]
pub struct ToolbarPointer {
    pub hovered: Option<OverlayAction>,
    pub pressed: Option<OverlayAction>,
}

impl ToolbarPointer {
    pub fn new() -> (p: ToolbarPointer)
        ensures
            p.hovered is None,
            p.pressed is None,
    {
        ToolbarPointer { hovered: None, pressed: None }
    }

    /// Hovers `action` when it is enabled, otherwise nothing; returns whether the hover changed.
    pub fn set_hovered(&mut self, action: Option<OverlayAction>, enabled: bool) -> (changed: bool)
        ensures
            ({
                let next = match action {
                    Some(a) => if enabled { Some(a) } else { None },
                    None => None,
                };
                &&& final(self).hovered == next
                &&& final(self).pressed == old(self).pressed
                &&& changed == (old(self).hovered != next)
            }),
    {
        let next = match action {
            Some(a) => if enabled {
                Some(a)
            } else {
                None
            },
            None => None,
        };
        if self.hovered == next {
            return false;
        }
        self.hovered = next;
        true
    }

    /// Presses an enabled command that is not already pressed; returns whether it did.
    pub fn press(&mut self, action: OverlayAction, enabled: bool) -> (pressed: bool)
        ensures
            pressed == (enabled && old(self).pressed != Some(action)),
            final(self).pressed == (if pressed { Some(action) } else { old(self).pressed }),
            final(self).hovered == old(self).hovered,
    {
        if !enabled || self.pressed == Some(action) {
            return false;
        }
        self.pressed = Some(action);
        true
    }

    /// Releases the press; the pressed command fires only when the pointer is released over
    /// that same command and the command is still enabled (`still_enabled` for the pressed one).
    pub fn release(&mut self, pointer_action: Option<OverlayAction>, still_enabled: bool) -> (fired:
        Option<OverlayAction>)
        ensures
            final(self).pressed is None,
            final(self).hovered == old(self).hovered,
            fired == (match old(self).pressed {
                Some(p) => if pointer_action == Some(p) && still_enabled {
                    Some(p)
                } else {
                    None
                },
                None => None,
            }),
    {
        let pressed = match self.pressed {
            Some(p) => p,
            None => {
                return None;
            },
        };
        self.pressed = None;
        if pointer_action == Some(pressed) && still_enabled {
            Some(pressed)
        } else {
            None
        }
    }
}


/// What activating a toolbar command does to the overlay window.
#[derive(Debug, Clone, Copy, PartialEq, Eq, Structural)]
pub enum ActionEffect {
    /// Close the overlay without a capture.
    Quit,
    /// Export the selection and close the overlay with this intent.
    Finish(CaptureIntent),
    /// Hand the command to the editing session (tool, option or undo).
    Session,
    /// Nothing happens.
    Nothing,
}

pub open spec fn spec_action_effect(action: OverlayAction) -> ActionEffect {
    match action {
        OverlayAction::Cancel => ActionEffect::Quit,
        OverlayAction::Confirm => ActionEffect::Finish(CaptureIntent::Clipboard),
        OverlayAction::Save => ActionEffect::Finish(CaptureIntent::Save),
        OverlayAction::Pin => ActionEffect::Finish(CaptureIntent::Pin),
        OverlayAction::ExtractText => ActionEffect::Finish(CaptureIntent::ExtractText),
        OverlayAction::ScrollCapture => ActionEffect::Finish(CaptureIntent::ScrollCapture),
        OverlayAction::Tool(_) | OverlayAction::Option(_) | OverlayAction::Undo => ActionEffect::Session,
        OverlayAction::Languages => ActionEffect::Nothing,
    }
}

/// What activating `action` does: cancel quits, the output commands finish with their intent,
/// tools, options and undo go to the session, and the language command does nothing.
pub fn action_effect(action: OverlayAction) -> (effect: ActionEffect)
    ensures
        effect == spec_action_effect(action),
{
    match action {
        OverlayAction::Cancel => ActionEffect::Quit,
        OverlayAction::Confirm => ActionEffect::Finish(CaptureIntent::Clipboard),
        OverlayAction::Save => ActionEffect::Finish(CaptureIntent::Save),
        OverlayAction::Pin => ActionEffect::Finish(CaptureIntent::Pin),
        OverlayAction::ExtractText => ActionEffect::Finish(CaptureIntent::ExtractText),
        OverlayAction::ScrollCapture => ActionEffect::Finish(CaptureIntent::ScrollCapture),
        OverlayAction::Tool(_) | OverlayAction::Option(_) | OverlayAction::Undo => ActionEffect::Session,
        OverlayAction::Languages => ActionEffect::Nothing,
    }
}

/// Each capture intent is reached from exactly one toolbar command: two commands that finish
/// the overlay finish it with different intents, and every intent has its command.
pub proof fn lemma_each_intent_has_one_command(first: OverlayAction, second: OverlayAction, intent: CaptureIntent)
    ensures
        spec_action_effect(first) is Finish && spec_action_effect(first) == spec_action_effect(second)
            ==> first == second,
        exists|action: OverlayAction| spec_action_effect(action) == ActionEffect::Finish(intent),
{
    let witness = match intent {
        CaptureIntent::Clipboard => OverlayAction::Confirm,
        CaptureIntent::Save => OverlayAction::Save,
        CaptureIntent::Pin => OverlayAction::Pin,
        CaptureIntent::ExtractText => OverlayAction::ExtractText,
        CaptureIntent::ScrollCapture => OverlayAction::ScrollCapture,
    };
    assert(spec_action_effect(witness) == ActionEffect::Finish(intent));
}

} // verus!
