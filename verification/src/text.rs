use vstd::prelude::*;
use vstd::utf8::{encode_scalar, encode_utf8};

verus! {

/// The UTF-16 code units of one character: itself below U+10000, else a surrogate pair.
pub open spec fn utf16_of(c: char) -> Seq<u16> {
    let code = c as int;
    if code < 0x10000 {
        seq![code as u16]
    } else {
        let offset = code - 0x10000;
        seq![(0xD800 + offset / 0x400) as u16, (0xDC00 + offset % 0x400) as u16]
    }
}

/// The UTF-16 encoding of a sequence of characters.
pub open spec fn utf16_units(text: Seq<char>) -> Seq<u16>
    decreases text.len(),
{
    if text.len() == 0 {
        seq![]
    } else {
        utf16_units(text.drop_last()) + utf16_of(text.last())
    }
}

proof fn lemma_utf16_of_nonzero(c: char)
    requires
        c != '\0',
    ensures
        forall|j: int| 0 <= j < utf16_of(c).len() ==> #[trigger] utf16_of(c)[j] != 0,
        utf16_of(c).len() <= 2,
{
    let code = c as int;
    assert(code != 0) by {
        if code == 0 {
            assert(c == '\0');
        }
    }
}

proof fn lemma_utf16_units_nonzero(text: Seq<char>)
    requires
        forall|i: int| 0 <= i < text.len() ==> #[trigger] text[i] != '\0',
    ensures
        forall|j: int| 0 <= j < utf16_units(text).len() ==> #[trigger] utf16_units(text)[j] != 0,
    decreases text.len(),
{
    if text.len() > 0 {
        let rest = text.drop_last();
        assert forall|i: int| 0 <= i < rest.len() implies #[trigger] rest[i] != '\0' by {
            assert(rest[i] == text[i]);
        }
        lemma_utf16_units_nonzero(rest);
        assert(text[text.len() - 1] != '\0');
        lemma_utf16_of_nonzero(text.last());
        let head = utf16_units(rest);
        let tail = utf16_of(text.last());
        assert(utf16_units(text) == head + tail);
        assert forall|j: int| 0 <= j < utf16_units(text).len() implies #[trigger] utf16_units(
            text,
        )[j] != 0 by {
            if j < head.len() {
                assert(utf16_units(text)[j] == head[j]);
            } else {
                assert(utf16_units(text)[j] == tail[j - head.len()]);
            }
        }
    }
}

/// The `CF_UNICODETEXT` clipboard payload of `text`: its UTF-16 code units and one
/// terminating NUL. Text without NUL characters has no other NUL unit.
pub fn unicode_text_payload(text: &str) -> (payload: Vec<u16>)
    ensures
        payload@ == utf16_units(text@).push(0u16),
        (forall|i: int| 0 <= i < text@.len() ==> #[trigger] text@[i] != '\0') ==> forall|j: int|
            0 <= j < payload@.len() - 1 ==> #[trigger] payload@[j] != 0,
{
    let count = text.unicode_len();
    let mut payload: Vec<u16> = Vec::new();
    let mut index: usize = 0;
    while index < count
        invariant
            count == text@.len(),
            index <= count,
            payload@ == utf16_units(text@.take(index as int)),
        decreases count - index,
    {
        let c = text.get_char(index);
        let code = c as u32;
        if code < 0x10000 {
            payload.push(code as u16);
        } else {
            let offset = code - 0x10000;
            payload.push((0xD800 + offset / 0x400) as u16);
            payload.push((0xDC00 + offset % 0x400) as u16);
        }
        proof {
            let next = text@.take(index + 1);
            assert(next.drop_last() =~= text@.take(index as int));
            assert(next.last() == c);
            assert(payload@ =~= utf16_units(next));
        }
        index = index + 1;
    }
    proof {
        assert(text@.take(count as int) =~= text@);
    }
    payload.push(0);
    proof {
        if forall|i: int| 0 <= i < text@.len() ==> #[trigger] text@[i] != '\0' {
            lemma_utf16_units_nonzero(text@);
        }
    }
    payload
}

/// The number of bytes of the UTF-8 encoding of `c`.
pub open spec fn utf8_width(c: char) -> int {
    let v = c as u32;
    if v <= 0x7F {
        1
    } else if v <= 0x7FF {
        2
    } else if v <= 0xFFFF {
        3
    } else {
        4
    }
}

proof fn lemma_encode_scalar_len(c: char)
    ensures
        encode_scalar(c as u32).len() == utf8_width(c),
{
}

proof fn lemma_encode_concat(a: Seq<char>, b: Seq<char>)
    ensures
        encode_utf8(a + b) == encode_utf8(a) + encode_utf8(b),
    decreases a.len(),
{
    if a.len() == 0 {
        assert(a + b =~= b);
        assert(encode_utf8(a) =~= Seq::<u8>::empty());
        assert(encode_utf8(a) + encode_utf8(b) =~= encode_utf8(b));
    } else {
        assert((a + b)[0] == a[0]);
        assert((a + b).drop_first() =~= a.drop_first() + b);
        lemma_encode_concat(a.drop_first(), b);
        assert(encode_utf8(a + b) =~= encode_utf8(a) + encode_utf8(b));
    }
}

fn char_utf8_width(c: char) -> (width: usize)
    ensures
        width == utf8_width(c),
{
    let v = c as u32;
    if v <= 0x7F {
        1
    } else if v <= 0x7FF {
        2
    } else if v <= 0xFFFF {
        3
    } else {
        4
    }
}

/// The byte offset in `content` where its character `character_index` starts, or the byte
/// length of `content` for an index at or past its end.
pub fn byte_index(content: &str, character_index: usize) -> (index: usize)
    ensures
        index == encode_utf8(
            content@.take(
                if character_index < content@.len() {
                    character_index as int
                } else {
                    content@.len() as int
                },
            ),
        ).len(),
{
    let count = content.unicode_len();
    let bytes = content.as_bytes().len();
    let limit = if character_index < count {
        character_index
    } else {
        count
    };
    let mut index: usize = 0;
    let mut offset: usize = 0;
    while index < limit
        invariant
            count == content@.len(),
            limit <= count,
            index <= limit,
            bytes == encode_utf8(content@).len(),
            offset == encode_utf8(content@.take(index as int)).len(),
        decreases limit - index,
    {
        let c = content.get_char(index);
        proof {
            let before = content@.take(index as int);
            let after = content@.take(index + 1);
            assert(after =~= before + seq![c]);
            lemma_encode_concat(before, seq![c]);
            assert(encode_utf8(seq![c]) =~= encode_scalar(c as u32) + encode_utf8(
                seq![c].drop_first(),
            ));
            assert(seq![c].drop_first() =~= Seq::<char>::empty());
            lemma_encode_scalar_len(c);
            assert(content@ =~= after + content@.skip(index + 1));
            lemma_encode_concat(after, content@.skip(index + 1));
        }
        offset = offset + char_utf8_width(c);
        index = index + 1;
    }
    offset
}

/// The decimal digit character of `d`, for `d` below ten.
pub open spec fn digit_char(d: nat) -> char {
    if d == 0 {
        '0'
    } else if d == 1 {
        '1'
    } else if d == 2 {
        '2'
    } else if d == 3 {
        '3'
    } else if d == 4 {
        '4'
    } else if d == 5 {
        '5'
    } else if d == 6 {
        '6'
    } else if d == 7 {
        '7'
    } else if d == 8 {
        '8'
    } else {
        '9'
    }
}

/// The decimal digits of `n`, most significant first, without leading zeros.
pub open spec fn decimal(n: nat) -> Seq<char>
    decreases n,
{
    if n < 10 {
        seq![digit_char(n)]
    } else {
        decimal(n / 10).push(digit_char(n % 10))
    }
}

fn digit_text(d: usize) -> (text: &'static str)
    requires
        d < 10,
    ensures
        text@ == seq![digit_char(d as nat)],
{
    proof {
        reveal_strlit("0");
        reveal_strlit("1");
        reveal_strlit("2");
        reveal_strlit("3");
        reveal_strlit("4");
        reveal_strlit("5");
        reveal_strlit("6");
        reveal_strlit("7");
        reveal_strlit("8");
        reveal_strlit("9");
    }
    if d == 0 {
        "0"
    } else if d == 1 {
        "1"
    } else if d == 2 {
        "2"
    } else if d == 3 {
        "3"
    } else if d == 4 {
        "4"
    } else if d == 5 {
        "5"
    } else if d == 6 {
        "6"
    } else if d == 7 {
        "7"
    } else if d == 8 {
        "8"
    } else {
        "9"
    }
}

/// Appends the decimal digits of `n` to `text`.
pub fn append_decimal(text: &mut String, n: usize)
    ensures
        final(text)@ == old(text)@ + decimal(n as nat),
    decreases n,
{
    if n >= 10 {
        append_decimal(text, n / 10);
    }
    text.append(digit_text(n % 10));
}

/// `char::from_u32`: the character with scalar value `value`, or `None` for a surrogate or a
/// value above U+10FFFF, as the standard library documents it.
#[verifier::external_body]
fn char_from_u32(value: u32) -> (c: Option<char>)
    ensures
        c is Some <==> (value <= 0x10FFFF && !(0xD800 <= value <= 0xDFFF)),
        c matches Some(ch) ==> ch as u32 == value,
{
    char::from_u32(value)
}

/// Whether `unit` opens a surrogate pair.
pub open spec fn is_high_surrogate(unit: u16) -> bool {
    0xD800 <= unit <= 0xDBFF
}

/// Whether `unit` closes a surrogate pair.
pub open spec fn is_low_surrogate(unit: u16) -> bool {
    0xDC00 <= unit <= 0xDFFF
}

/// The scalar value that a surrogate pair encodes.
pub open spec fn pair_value(high: u16, low: u16) -> int {
    0x10000 + (high - 0xD800) * 0x400 + (low - 0xDC00)
}

/// Turns the UTF-16 code units of keyboard character messages back into characters: a high
/// surrogate waits for its low half; a low surrogate without one is dropped.
#[derive(Debug)]
pub struct Utf16Decoder {
    pending_high_surrogate: Option<u16>,
}

impl Utf16Decoder {
    /// Only a high surrogate waits for its low half.
    #[verifier::type_invariant]
    closed spec fn waits_for_low_half(self) -> bool {
        match self.pending_high_surrogate {
            Some(high) => is_high_surrogate(high),
            None => true,
        }
    }

    /// The high surrogate that waits for its low half.
    pub closed spec fn pending(self) -> Option<u16> {
        self.pending_high_surrogate
    }

    pub fn new() -> (decoder: Utf16Decoder)
        ensures
            decoder.pending() is None,
    {
        Utf16Decoder { pending_high_surrogate: None }
    }

    /// Takes the next code unit and returns the character it completes, if any.
    pub fn push(&mut self, unit: u16) -> (character: Option<char>)
        ensures
            is_high_surrogate(unit) ==> {
                &&& character is None
                &&& final(self).pending() == Some(unit)
            },
            is_low_surrogate(unit) ==> {
                &&& final(self).pending() is None
                &&& match old(self).pending() {
                    Some(high) => is_high_surrogate(high) && (character matches Some(c) && c as u32
                    == pair_value(high, unit)),
                    None => character is None,
                }
            },
            !is_high_surrogate(unit) && !is_low_surrogate(unit) ==> {
                &&& final(self).pending() is None
                &&& (character matches Some(c) && c as u32 == unit)
            },
    {
        proof {
            use_type_invariant(&*self);
        }
        if unit >= 0xD800 && unit <= 0xDBFF {
            self.pending_high_surrogate = Some(unit);
            return None;
        }
        if unit >= 0xDC00 && unit <= 0xDFFF {
            let high = match self.pending_high_surrogate {
                Some(high) => high,
                None => {
                    return None;
                },
            };
            self.pending_high_surrogate = None;
            let value = 0x10000u32 + (high as u32 - 0xD800) * 0x400 + (unit as u32 - 0xDC00);
            assert(0x10000 <= value <= 0x10FFFF);
            assert(value == pair_value(high, unit));
            let character = char_from_u32(value);
            return character;
        }
        self.pending_high_surrogate = None;
        char_from_u32(unit as u32)
    }
}


/// The characters with Unicode's White_Space property: the ones that trimming removes.
pub open spec fn is_white_space(c: char) -> bool {
    let u = c as u32;
    (0x09 <= u <= 0x0d) || u == 0x20 || u == 0x85 || u == 0xa0 || u == 0x1680 || (0x2000 <= u
        <= 0x200a) || u == 0x2028 || u == 0x2029 || u == 0x202f || u == 0x205f || u == 0x3000
}

pub fn white_space(c: char) -> (is: bool)
    ensures
        is == is_white_space(c),
{
    let u = c as u32;
    (0x09 <= u && u <= 0x0d) || u == 0x20 || u == 0x85 || u == 0xa0 || u == 0x1680 || (0x2000
        <= u && u <= 0x200a) || u == 0x2028 || u == 0x2029 || u == 0x202f || u == 0x205f || u
        == 0x3000
}

/// A text is blank when it has nothing but white space: trimmed, it is empty.
pub open spec fn spec_is_blank(text: Seq<char>) -> bool {
    forall|i: int| 0 <= i < text.len() ==> is_white_space(#[trigger] text[i])
}

pub fn is_blank(text: &str) -> (blank: bool)
    ensures
        blank == spec_is_blank(text@),
{
    let count = text.unicode_len();
    let mut index: usize = 0;
    while index < count
        invariant
            count == text@.len(),
            index <= count,
            forall|i: int| 0 <= i < index ==> is_white_space(#[trigger] text@[i]),
        decreases count - index,
    {
        if !white_space(text.get_char(index)) {
            return false;
        }
        index = index + 1;
    }
    true
}


/// The variation selectors that ask for text or emoji presentation of the character before
/// them; they are not glyphs of their own.
pub open spec fn is_variation_selector(c: char) -> bool {
    c == '\u{fe0e}' || c == '\u{fe0f}'
}

/// The character whose glyph an emoji string draws: its first character that is not a
/// presentation selector, or `None` when it has none.
pub fn emoji_base_character(glyph: &str) -> (base: Option<char>)
    ensures
        match base {
            Some(c) => exists|i: int|
                0 <= i < glyph@.len() && glyph@[i] == c && !is_variation_selector(c) && forall|
                    j: int,
                | 0 <= j < i ==> is_variation_selector(#[trigger] glyph@[j]),
            None => forall|i: int| 0 <= i < glyph@.len() ==> is_variation_selector(#[trigger] glyph@[i]),
        },
{
    let count = glyph.unicode_len();
    let mut index: usize = 0;
    while index < count
        invariant
            count == glyph@.len(),
            index <= count,
            forall|j: int| 0 <= j < index ==> is_variation_selector(#[trigger] glyph@[j]),
        decreases count - index,
    {
        let c = glyph.get_char(index);
        if c != '\u{fe0e}' && c != '\u{fe0f}' {
            assert(glyph@[index as int] == c);
            return Some(c);
        }
        index = index + 1;
    }
    None
}


/// Whether two texts have the same characters.
pub fn same_text(a: &str, b: &str) -> (same: bool)
    ensures
        same == (a@ == b@),
{
    let count = a.unicode_len();
    if count != b.unicode_len() {
        return false;
    }
    let mut index: usize = 0;
    while index < count
        invariant
            count == a@.len(),
            count == b@.len(),
            index <= count,
            forall|i: int| 0 <= i < index ==> a@[i] == b@[i],
        decreases count - index,
    {
        if a.get_char(index) != b.get_char(index) {
            return false;
        }
        index = index + 1;
    }
    assert(a@ =~= b@);
    true
}

} // verus!
