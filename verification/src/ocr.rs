use vstd::prelude::*;

use crate::export::RgbaFrame;
use crate::text::{is_blank, spec_is_blank};

verus! {

/// A language that the text recognizer can read.
#[derive(Debug, Clone, PartialEq, Eq)]
pub struct OcrLanguage {
    pub tag: String,
    pub display_name: String,
    pub native_name: String,
}

/// The text of recognized lines: the lines joined by single line feeds, with none after
/// the last line.
pub open spec fn joined_lines(lines: Seq<Seq<char>>) -> Seq<char>
    decreases lines.len(),
{
    if lines.len() == 0 {
        seq![]
    } else if lines.len() == 1 {
        lines[0]
    } else {
        joined_lines(lines.drop_last()) + seq!['\n'] + lines.last()
    }
}

/// The text of a recognized document whose lines read `lines`, top to bottom.
pub fn document_text(lines: &Vec<String>) -> (text: String)
    ensures
        text@ == joined_lines(lines@.map_values(|line: String| line@)),
{
    let ghost views = lines@.map_values(|line: String| line@);
    let mut text = String::new();
    let mut index: usize = 0;
    while index < lines.len()
        invariant
            views == lines@.map_values(|line: String| line@),
            index <= lines@.len(),
            text@ == joined_lines(views.take(index as int)),
        decreases lines@.len() - index,
    {
        if index > 0 {
            text.append("\n");
        }
        text.append(lines[index].as_str());
        proof {
            let next = views.take(index + 1);
            assert(next.drop_last() =~= views.take(index as int));
            assert(next.last() == lines@[index as int]@);
            if index == 0 {
                assert(next.len() == 1);
            }
            reveal_strlit("\n");
            assert(text@ =~= joined_lines(next));
        }
        index = index + 1;
    }
    proof {
        assert(views.take(lines@.len() as int) =~= views);
    }
    text
}

/// Why an image cannot go to the text recognizer.
#[derive(Debug, Clone, Copy, PartialEq, Eq, Structural)]
pub enum OcrError {
    /// The image is wider or taller than the recognizer's limit.
    ImageTooLarge { width: u32, height: u32, maximum: u32 },
}

/// Accepts an image no wider and no taller than the recognizer's `maximum` dimension.
pub fn check_ocr_dimensions(image: &RgbaFrame, maximum: u32) -> (r: Result<(), OcrError>)
    ensures
        r is Ok <==> (image.spec_bounds().width <= maximum && image.spec_bounds().height
            <= maximum),
        r matches Err(e) ==> e == (OcrError::ImageTooLarge {
            width: image.spec_bounds().width,
            height: image.spec_bounds().height,
            maximum,
        }),
{
    let width = image.width();
    let height = image.height();
    if width <= maximum && height <= maximum {
        Ok(())
    } else {
        Err(OcrError::ImageTooLarge { width, height, maximum })
    }
}


/// The name under which a language is offered: its own name for itself, or its display name
/// when it has no non-blank own name.
pub fn language_label(language: &OcrLanguage) -> (label: &str)
    ensures
        label@ == (if spec_is_blank(language.native_name@) {
            language.display_name@
        } else {
            language.native_name@
        }),
{
    if is_blank(language.native_name.as_str()) {
        language.display_name.as_str()
    } else {
        language.native_name.as_str()
    }
}

/// What the user gets from a finished recognition: whether the text goes to the clipboard,
/// and what the result window shows.
pub struct RecognitionReport {
    pub copy_to_clipboard: bool,
    pub shown: String,
}

/// The report of a recognition that read `text`: non-blank text is copied and shown; blank
/// text is not copied, and a notice that no text was found is shown instead.
pub fn report_recognized_text(text: String) -> (report: RecognitionReport)
    ensures
        report.copy_to_clipboard == !spec_is_blank(text@),
        report.shown@ == (if spec_is_blank(text@) {
            "未识别到文字内容。"@
        } else {
            text@
        }),
{
    if is_blank(text.as_str()) {
        RecognitionReport {
            copy_to_clipboard: false,
            shown: String::from_str("未识别到文字内容。"),
        }
    } else {
        RecognitionReport { copy_to_clipboard: true, shown: text }
    }
}

/// The text that the result window shows when recognition failed with `error`.
pub fn report_recognition_failure(error: &str) -> (shown: String)
    ensures
        shown@ == "OCR 识别失败："@ + error@,
{
    let mut shown = String::from_str("OCR 识别失败：");
    shown.append(error);
    shown
}

} // verus!
