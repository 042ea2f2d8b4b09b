use vstd::prelude::*;

use crate::platform::ImageFileFormat;

verus! {

/// `c` with ASCII upper-case letters turned to lower case.
pub open spec fn ascii_lower(c: char) -> char {
    if 'A' <= c <= 'Z' {
        ((c as u32) + 32) as char
    } else {
        c
    }
}

/// Whether `text` spells the lower-case ASCII word `word` in any mix of cases.
pub open spec fn matches_ignoring_ascii_case(text: Seq<char>, word: Seq<char>) -> bool {
    &&& text.len() == word.len()
    &&& forall|i: int| 0 <= i < text.len() ==> #[trigger] ascii_lower(text[i]) == word[i]
}

/// The format that a file extension names: PNG for `png`, JPEG for `jpg` and `jpeg`, in any
/// case; no format for any other extension or none.
pub open spec fn spec_format_for_extension(extension: Option<Seq<char>>) -> Option<ImageFileFormat> {
    match extension {
        Some(e) => if matches_ignoring_ascii_case(e, "png"@) {
            Some(ImageFileFormat::Png)
        } else if matches_ignoring_ascii_case(e, "jpg"@) || matches_ignoring_ascii_case(
            e,
            "jpeg"@,
        ) {
            Some(ImageFileFormat::Jpeg)
        } else {
            None
        },
        None => None,
    }
}

fn lower_ascii(c: char) -> (lower: char)
    ensures
        lower == ascii_lower(c),
{
    if c >= 'A' && c <= 'Z' {
        proof {
            assert(((c as u32) + 32) as char == ((c as u32 + 32) as u8) as char);
        }
        ((c as u8) + 32) as char
    } else {
        c
    }
}

fn matches_word(text: &str, word: &str) -> (same: bool)
    ensures
        same == matches_ignoring_ascii_case(text@, word@),
{
    let length = text.unicode_len();
    if length != word.unicode_len() {
        return false;
    }
    let mut index: usize = 0;
    while index < length
        invariant
            length == text@.len(),
            length == word@.len(),
            index <= length,
            forall|i: int| 0 <= i < index ==> #[trigger] ascii_lower(text@[i]) == word@[i],
        decreases length - index,
    {
        if lower_ascii(text.get_char(index)) != word.get_char(index) {
            return false;
        }
        index = index + 1;
    }
    true
}

/// The format that a file extension names, if any.
pub fn format_for_extension(extension: Option<&str>) -> (format: Option<ImageFileFormat>)
    ensures
        format == spec_format_for_extension(
            match extension {
                Some(e) => Some(e@),
                None => None,
            },
        ),
{
    match extension {
        Some(e) => {
            if matches_word(e, "png") {
                Some(ImageFileFormat::Png)
            } else if matches_word(e, "jpg") || matches_word(e, "jpeg") {
                Some(ImageFileFormat::Jpeg)
            } else {
                None
            }
        },
        None => None,
    }
}

/// A saved file's extension names its format again: `png` names PNG and `jpg` and `jpeg` name
/// JPEG, in any mix of upper and lower case, so a file named after either default extension
/// keeps its name and is written in the format the extension says.
pub proof fn lemma_extensions_name_their_format(extension: Seq<char>)
    ensures
        spec_format_for_extension(Some("png"@)) == Some(ImageFileFormat::Png),
        spec_format_for_extension(Some("jpg"@)) == Some(ImageFileFormat::Jpeg),
        spec_format_for_extension(Some("jpeg"@)) == Some(ImageFileFormat::Jpeg),
        matches_ignoring_ascii_case(extension, "png"@) ==> spec_format_for_extension(Some(extension))
            == Some(ImageFileFormat::Png),
        matches_ignoring_ascii_case(extension, "jpg"@) ==> spec_format_for_extension(Some(extension))
            == Some(ImageFileFormat::Jpeg),
        matches_ignoring_ascii_case(extension, "jpeg"@) ==> spec_format_for_extension(
            Some(extension),
        ) == Some(ImageFileFormat::Jpeg),
{
    reveal_strlit("png");
    reveal_strlit("jpg");
    reveal_strlit("jpeg");
    assert(matches_ignoring_ascii_case("png"@, "png"@));
    assert(matches_ignoring_ascii_case("jpg"@, "jpg"@));
    assert(matches_ignoring_ascii_case("jpeg"@, "jpeg"@));
    if matches_ignoring_ascii_case(extension, "jpg"@) {
        assert(ascii_lower(extension[0]) == 'j');
    }
    if matches_ignoring_ascii_case(extension, "jpeg"@) {
        assert(ascii_lower(extension[0]) == 'j');
    }
    assert(ascii_lower("jpg"@[0]) == 'j');
    assert(!matches_ignoring_ascii_case("jpg"@, "png"@));
    assert(ascii_lower("jpeg"@[0]) == 'j');
    assert(!matches_ignoring_ascii_case("jpeg"@, "png"@));
}

/// The extension that a file saved in `format` gets when its name has none of its own.
pub fn default_extension(format: ImageFileFormat) -> (extension: &'static str)
    ensures
        format == ImageFileFormat::Png ==> extension@ == "png"@,
        format == ImageFileFormat::Jpeg ==> extension@ == "jpg"@,
        spec_format_for_extension(Some(extension@)) == Some(format),
{
    proof {
        lemma_extensions_name_their_format("png"@);
    }
    match format {
        ImageFileFormat::Png => "png",
        ImageFileFormat::Jpeg => "jpg",
    }
}

/// How a chosen file name is saved: a recognized extension decides the format and stays;
/// otherwise the format picked in the dialog's filter is used and the name gets its
/// extension (in place of an unrecognized one).
pub fn save_format(extension: Option<&str>, selected: ImageFileFormat) -> (r: (
    ImageFileFormat,
    Option<&'static str>,
))
    ensures
        ({
            let named = spec_format_for_extension(
                match extension {
                    Some(e) => Some(e@),
                    None => None,
                },
            );
            match named {
                Some(format) => r.0 == format && r.1 is None,
                None => r.0 == selected && (match r.1 {
                    Some(e) => (selected == ImageFileFormat::Png ==> e@ == "png"@) && (selected
                        == ImageFileFormat::Jpeg ==> e@ == "jpg"@),
                    None => false,
                }),
            }
        }),
{
    match format_for_extension(extension) {
        Some(format) => (format, None),
        None => (selected, Some(default_extension(selected))),
    }
}

} // verus!
