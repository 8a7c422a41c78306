//! The palette: its colours and how they are read from text.

use vstd::prelude::*;
use vstd::string::*;
use vstd::hash_map::StringHashMap;
use crate::json_doc::{
    distinct, json_document, json_model, member, member_names, parse_document, text_of, Json,
};
use crate::text::{ascii_bytes, str_view};

verus! {

/// Why a palette could not be loaded.
#[derive(Clone, Copy, Debug, PartialEq, Eq, Structural)]
pub enum LoadError {
    /// The palette file could not be read.
    Io,
    /// The document is not well-formed, lacks a required field, or its
    /// `alpha` is not an unsigned 8-bit number.
    Parse,
    /// A colour is not six hexadecimal digits.
    ColorFormat,
}

/// An RGB colour. Each channel is a byte; its normalised value is the byte
/// divided by 255, so it lies between 0 and 1.
#[derive(Clone, Copy, Debug, PartialEq, Eq, Structural)]
pub struct Color {
    pub red: u8,
    pub green: u8,
    pub blue: u8,
}

/// Opaque white: every channel at its full value.
pub open spec fn white() -> Color {
    Color { red: 255, green: 255, blue: 255 }
}

impl Color {
    /// Opaque white, the colour of last resort.
    pub fn white() -> (res: Color)
        ensures
            res == white(),
    {
        Color { red: 255, green: 255, blue: 255 }
    }
}

/// The three colours that a palette names rather than numbers.
#[derive(Clone, Copy, Debug, PartialEq, Eq, Structural)]
pub struct ParsedSpecial {
    pub background: Color,
    pub foreground: Color,
    pub cursor: Color,
}

/// A palette: every colour in it has been read and is valid.
pub struct Colors {
    pub checksum: String,
    pub wallpaper: String,
    pub alpha: u8,
    pub special: ParsedSpecial,
    pub colors: StringHashMap<Color>,
}

/// What a palette holds.
pub struct Palette {
    pub checksum: Seq<char>,
    pub wallpaper: Seq<char>,
    pub alpha: u8,
    pub special: ParsedSpecial,
    pub colors: Map<Seq<char>, Color>,
}

impl View for Colors {
    type V = Palette;

    open spec fn view(&self) -> Palette {
        Palette {
            checksum: self.checksum@,
            wallpaper: self.wallpaper@,
            alpha: self.alpha,
            special: self.special,
            colors: self.colors@,
        }
    }
}

/// The three named colours as the palette file spells them.
#[derive(Debug)]
pub struct Special {
    pub background: String,
    pub foreground: String,
    pub cursor: String,
}

/// A palette as the palette file spells it: every field is text, and the
/// numbered colours are pairs of a key and a colour's text.
#[derive(Debug)]
pub struct RawColors {
    pub checksum: String,
    pub wallpaper: String,
    pub alpha: String,
    pub special: Special,
    pub colors: Vec<(String, String)>,
}

/// What an unread palette holds.
pub struct RawPalette {
    pub checksum: Seq<char>,
    pub wallpaper: Seq<char>,
    pub alpha: Seq<char>,
    pub background: Seq<char>,
    pub foreground: Seq<char>,
    pub cursor: Seq<char>,
    pub colors: Seq<(Seq<char>, Seq<char>)>,
}

impl View for RawColors {
    type V = RawPalette;

    open spec fn view(&self) -> RawPalette {
        RawPalette {
            checksum: self.checksum@,
            wallpaper: self.wallpaper@,
            alpha: self.alpha@,
            background: self.special.background@,
            foreground: self.special.foreground@,
            cursor: self.special.cursor@,
            colors: Seq::new(
                self.colors@.len(),
                |i: int| (self.colors@[i].0@, self.colors@[i].1@),
            ),
        }
    }
}

/// The value of a hexadecimal digit; `None` for any other character.
pub open spec fn hex_digit(c: char) -> Option<int> {
    if '0' <= c <= '9' {
        Some(c as int - '0' as int)
    } else if 'a' <= c <= 'f' {
        Some(c as int - 'a' as int + 10)
    } else if 'A' <= c <= 'F' {
        Some(c as int - 'A' as int + 10)
    } else {
        None
    }
}

/// The text of a colour without its optional leading `#`.
pub open spec fn hex_body(text: Seq<char>) -> Seq<char> {
    if text.len() > 0 && text[0] == '#' {
        text.skip(1)
    } else {
        text
    }
}

/// Whether `text` is a colour: six hexadecimal digits after an optional `#`.
pub open spec fn is_hex_color(text: Seq<char>) -> bool {
    let body = hex_body(text);
    body.len() == 6 && forall|i: int| 0 <= i < 6 ==> (#[trigger] hex_digit(body[i])) is Some
}

/// The byte that the digit pair `pair` of `body` spells in base 16.
pub open spec fn hex_pair(body: Seq<char>, pair: int) -> int {
    16 * hex_digit(body[2 * pair]).unwrap() + hex_digit(body[2 * pair + 1]).unwrap()
}

/// The colour that `text` spells, if it is one.
pub open spec fn parsed_color(text: Seq<char>) -> Option<Color> {
    if is_hex_color(text) {
        let body = hex_body(text);
        Some(
            Color {
                red: hex_pair(body, 0) as u8,
                green: hex_pair(body, 1) as u8,
                blue: hex_pair(body, 2) as u8,
            },
        )
    } else {
        None
    }
}

/// The ASCII code of `#`.
const HASH: u8 = 0x23;

/// The ASCII code of `+`.
const PLUS: u8 = 0x2b;

/// The ASCII code of `0`.
const DIGIT_0: u8 = 0x30;

/// The ASCII code of `9`.
const DIGIT_9: u8 = 0x39;

/// The ASCII code of `A`.
const UPPER_A: u8 = 0x41;

/// The ASCII code of `F`.
const UPPER_F: u8 = 0x46;

/// The ASCII code of `a`.
const LOWER_A: u8 = 0x61;

/// The ASCII code of `f`.
const LOWER_F: u8 = 0x66;

/// The value of one hexadecimal digit given as a byte.
fn hex_digit_value(b: u8) -> (res: Option<u8>)
    ensures
        match res {
            Some(v) => hex_digit(b as char) == Some(v as int) && v < 16,
            None => hex_digit(b as char) is None,
        },
{
    if b >= DIGIT_0 && b <= DIGIT_9 {
        Some(b - DIGIT_0)
    } else if b >= LOWER_A && b <= LOWER_F {
        Some(b - LOWER_A + 10)
    } else if b >= UPPER_A && b <= UPPER_F {
        Some(b - UPPER_A + 10)
    } else {
        None
    }
}

/// Reads a colour written as six hexadecimal digits, with or without a
/// leading `#`.
pub fn hex_to_srgb(hex: &str) -> (res: Result<Color, LoadError>)
    ensures
        match parsed_color(hex@) {
            Some(color) => res == Ok::<Color, LoadError>(color),
            None => res == Err::<Color, LoadError>(LoadError::ColorFormat),
        },
{
    let bytes = match ascii_bytes(hex) {
        Some(bytes) => bytes,
        None => {
            proof {
                if is_hex_color(hex@) {
                    lemma_hex_color_is_ascii(hex@);
                }
            }
            return Err(LoadError::ColorFormat);
        },
    };
    let start: usize = if bytes.len() > 0 && bytes[0] == HASH { 1 } else { 0 };
    if bytes.len() - start != 6 {
        return Err(LoadError::ColorFormat);
    }
    let ghost body = hex_body(hex@);
    let mut digits: [u8; 6] = [0; 6];
    let mut i: usize = 0;
    while i < 6
        invariant
            0 <= i <= 6,
            start <= 1,
            bytes@.len() == start + 6,
            bytes@.len() == hex@.len(),
            body == hex_body(hex@),
            body.len() == 6,
            forall|k: int| 0 <= k < 6 ==> body[k] == hex@[start + k],
            forall|k: int| 0 <= k < hex@.len() ==> bytes@[k] as int == hex@[k] as int,
            forall|k: int|
                0 <= k < i ==> hex_digit(body[k]) == Some(digits@[k] as int) && digits@[k] < 16,
        decreases 6 - i,
    {
        let b: u8 = bytes[start + i];
        match hex_digit_value(b) {
            Some(v) => {
                digits[i] = v;
            },
            None => {
                return Err(LoadError::ColorFormat);
            },
        }
        i += 1;
    }
    Ok(
        Color {
            red: digits[0] * 16 + digits[1],
            green: digits[2] * 16 + digits[3],
            blue: digits[4] * 16 + digits[5],
        },
    )
}

/// The text of a number without its optional leading `+`.
pub open spec fn decimal_body(text: Seq<char>) -> Seq<char> {
    if text.len() > 0 && text[0] == '+' {
        text.skip(1)
    } else {
        text
    }
}

/// Whether `digits` is one or more decimal digits.
pub open spec fn is_decimal(digits: Seq<char>) -> bool {
    digits.len() > 0 && forall|i: int| 0 <= i < digits.len() ==> '0' <= #[trigger] digits[i] <= '9'
}

/// The number that the decimal digits `digits` spell.
pub open spec fn decimal_value(digits: Seq<char>) -> int
    decreases digits.len(),
{
    if digits.len() == 0 {
        0
    } else {
        10 * decimal_value(digits.drop_last()) + (digits.last() as int - '0' as int)
    }
}

/// The opacity that `text` spells: decimal digits, with or without a leading
/// `+`, whose value is at most 255.
pub open spec fn parsed_alpha(text: Seq<char>) -> Option<u8> {
    let digits = decimal_body(text);
    if is_decimal(digits) && decimal_value(digits) <= 255 {
        Some(decimal_value(digits) as u8)
    } else {
        None
    }
}

/// A number is at least the number that any of its leading digits spell.
proof fn lemma_decimal_value_grows(digits: Seq<char>, n: int)
    requires
        forall|i: int| 0 <= i < digits.len() ==> '0' <= #[trigger] digits[i] <= '9',
        0 <= n <= digits.len(),
    ensures
        0 <= decimal_value(digits.take(n)) <= decimal_value(digits),
    decreases digits.len() - n,
{
    if n == digits.len() {
        assert(digits.take(n) =~= digits);
        lemma_decimal_value_nonnegative(digits);
    } else {
        lemma_decimal_value_grows(digits, n + 1);
        let longer = digits.take(n + 1);
        assert(longer.drop_last() =~= digits.take(n));
        assert(longer.last() == digits[n]);
        lemma_decimal_value_nonnegative(digits.take(n));
    }
}

/// Decimal digits spell no negative number.
proof fn lemma_decimal_value_nonnegative(digits: Seq<char>)
    requires
        forall|i: int| 0 <= i < digits.len() ==> '0' <= #[trigger] digits[i] <= '9',
    ensures
        0 <= decimal_value(digits),
    decreases digits.len(),
{
    if digits.len() > 0 {
        lemma_decimal_value_nonnegative(digits.drop_last());
    }
}

/// Reads the palette's opacity: an unsigned 8-bit number in decimal.
pub fn parse_alpha(text: &str) -> (res: Option<u8>)
    ensures
        res == parsed_alpha(text@),
{
    let bytes = match ascii_bytes(text) {
        Some(bytes) => bytes,
        None => {
            proof {
                if parsed_alpha(text@) is Some {
                    lemma_alpha_is_ascii(text@);
                }
            }
            return None;
        },
    };
    let start: usize = if bytes.len() > 0 && bytes[0] == PLUS { 1 } else { 0 };
    if bytes.len() == start {
        return None;
    }
    let ghost digits = decimal_body(text@);
    let mut value: u32 = 0;
    let mut i: usize = start;
    while i < bytes.len()
        invariant
            start <= i <= bytes@.len(),
            start <= 1,
            bytes@.len() == text@.len(),
            digits == decimal_body(text@),
            digits.len() == bytes@.len() - start,
            forall|k: int| 0 <= k < digits.len() ==> digits[k] == text@[start + k],
            forall|k: int| 0 <= k < text@.len() ==> bytes@[k] as int == text@[k] as int,
            forall|k: int| 0 <= k < i - start ==> '0' <= #[trigger] digits[k] <= '9',
            value == decimal_value(digits.take(i - start)),
            value <= 255,
        decreases bytes@.len() - i,
    {
        let b: u8 = bytes[i];
        if b < DIGIT_0 || b > DIGIT_9 {
            assert(!('0' <= digits[i - start] <= '9'));
            return None;
        }
        let ghost longer = digits.take(i - start + 1);
        assert(longer.drop_last() =~= digits.take(i - start));
        assert(longer.last() == digits[i - start]);
        value = value * 10 + (b - DIGIT_0) as u32;
        if value > 255 {
            proof {
                if is_decimal(digits) {
                    lemma_decimal_value_grows(digits, i - start + 1);
                }
            }
            return None;
        }
        i += 1;
    }
    assert(digits.take(i - start) =~= digits);
    Some(value as u8)
}

/// An opacity is written in ASCII.
proof fn lemma_alpha_is_ascii(text: Seq<char>)
    requires
        parsed_alpha(text) is Some,
    ensures
        vstd::utf8::is_ascii_chars(text),
{
    let digits = decimal_body(text);
    assert forall|i: int| 0 <= i < text.len() implies '\0' <= #[trigger] text[i] <= '\u{7f}' by {
        if text.len() > 0 && text[0] == '+' {
            if i > 0 {
                assert(text[i] == digits[i - 1]);
            }
        } else {
            assert(text[i] == digits[i]);
        }
    }
}

/// A colour is written in ASCII.
proof fn lemma_hex_color_is_ascii(text: Seq<char>)
    requires
        is_hex_color(text),
    ensures
        vstd::utf8::is_ascii_chars(text),
{
    let body = hex_body(text);
    assert forall|i: int| 0 <= i < text.len() implies '\0' <= #[trigger] text[i] <= '\u{7f}' by {
        if text.len() > 0 && text[0] == '#' {
            if i > 0 {
                assert(text[i] == body[i - 1]);
                assert(hex_digit(body[i - 1]) is Some);
            }
        } else {
            assert(hex_digit(body[i]) is Some);
        }
    }
}

/// The table that the pairs `entries` fill in their order: a key that
/// occurs again takes the later colour.
pub open spec fn color_table(entries: Seq<(Seq<char>, Seq<char>)>) -> Map<Seq<char>, Color>
    decreases entries.len(),
{
    if entries.len() == 0 {
        Map::empty()
    } else {
        color_table(entries.drop_last()).insert(
            entries.last().0,
            parsed_color(entries.last().1).unwrap(),
        )
    }
}

/// Whether every pair of `entries` spells a colour.
pub open spec fn all_colors(entries: Seq<(Seq<char>, Seq<char>)>) -> bool {
    forall|i: int| 0 <= i < entries.len() ==> parsed_color(#[trigger] entries[i].1) is Some
}

/// The palette that `raw` spells, or why it spells none. A bad opacity is
/// reported before a bad colour.
pub open spec fn palette_of_raw(raw: RawPalette) -> Result<Palette, LoadError> {
    if parsed_alpha(raw.alpha) is None {
        Err(LoadError::Parse)
    } else if parsed_color(raw.background) is None || parsed_color(raw.foreground) is None
        || parsed_color(raw.cursor) is None || !all_colors(raw.colors) {
        Err(LoadError::ColorFormat)
    } else {
        Ok(
            Palette {
                checksum: raw.checksum,
                wallpaper: raw.wallpaper,
                alpha: parsed_alpha(raw.alpha).unwrap(),
                special: ParsedSpecial {
                    background: parsed_color(raw.background).unwrap(),
                    foreground: parsed_color(raw.foreground).unwrap(),
                    cursor: parsed_color(raw.cursor).unwrap(),
                },
                colors: color_table(raw.colors),
            },
        )
    }
}

impl Colors {
    /// Reads every field of `raw`. Nothing is returned unless all of them
    /// are valid.
    pub fn from_raw(raw: RawColors) -> (res: Result<Colors, LoadError>)
        ensures
            match palette_of_raw(raw@) {
                Ok(palette) => res matches Ok(colors) && colors@ == palette,
                Err(error) => res matches Err(e) && e == error,
            },
    {
        let ghost spelled = raw@;
        let alpha = match parse_alpha(raw.alpha.as_str()) {
            Some(alpha) => alpha,
            None => {
                return Err(LoadError::Parse);
            },
        };
        let background = match hex_to_srgb(raw.special.background.as_str()) {
            Ok(color) => color,
            Err(error) => {
                return Err(error);
            },
        };
        let foreground = match hex_to_srgb(raw.special.foreground.as_str()) {
            Ok(color) => color,
            Err(error) => {
                return Err(error);
            },
        };
        let cursor = match hex_to_srgb(raw.special.cursor.as_str()) {
            Ok(color) => color,
            Err(error) => {
                return Err(error);
            },
        };
        let mut table: StringHashMap<Color> = StringHashMap::new();
        let mut i: usize = 0;
        while i < raw.colors.len()
            invariant
                0 <= i <= raw.colors@.len(),
                spelled == raw@,
                parsed_alpha(spelled.alpha) is Some,
                parsed_color(spelled.background) is Some,
                parsed_color(spelled.foreground) is Some,
                parsed_color(spelled.cursor) is Some,
                table@ == color_table(spelled.colors.take(i as int)),
                forall|k: int| 0 <= k < i ==> parsed_color(#[trigger] spelled.colors[k].1) is Some,
            decreases raw.colors@.len() - i,
        {
            let color = match hex_to_srgb(raw.colors[i].1.as_str()) {
                Ok(color) => color,
                Err(error) => {
                    assert(parsed_color(spelled.colors[i as int].1) is None);
                    return Err(error);
                },
            };
            let key = raw.colors[i].0.clone();
            table.insert(key, color);
            proof {
                let longer = spelled.colors.take(i + 1);
                assert(longer.drop_last() =~= spelled.colors.take(i as int));
                assert(longer.last() == spelled.colors[i as int]);
            }
            i += 1;
        }
        assert(spelled.colors.take(i as int) =~= spelled.colors);
        Ok(
            Colors {
                checksum: raw.checksum,
                wallpaper: raw.wallpaper,
                alpha,
                special: ParsedSpecial { background, foreground, cursor },
                colors: table,
            },
        )
    }
}

/// Whether `doc` has the shape of a palette file: an object with the
/// strings `checksum`, `wallpaper` and `alpha`, an object `special` with the
/// strings `background`, `foreground` and `cursor`, and an object `colors`
/// whose members are all strings.
pub open spec fn is_palette_document(doc: Json) -> bool {
    &&& doc.text_member("checksum"@) is Some
    &&& doc.text_member("wallpaper"@) is Some
    &&& doc.text_member("alpha"@) is Some
    &&& doc.member("special"@) matches Some(special)
    &&& special.text_member("background"@) is Some
    &&& special.text_member("foreground"@) is Some
    &&& special.text_member("cursor"@) is Some
    &&& doc.member("colors"@) matches Some(table)
    &&& table is Object
    &&& forall|name: Seq<char>|
        (#[trigger] table.member(name)) is Some ==> table.text_member(name) is Some
}

/// Whether no two pairs of `entries` have the same key.
pub open spec fn distinct_keys(entries: Seq<(Seq<char>, Seq<char>)>) -> bool {
    forall|i: int, j: int|
        0 <= i < j < entries.len() ==> (#[trigger] entries[i]).0 != (#[trigger] entries[j]).0
}

/// Whether `raw` holds the text of `doc`, field by field: each numbered
/// colour of `doc` stands in `raw.colors` once, and nothing else does.
pub open spec fn spells(doc: Json, raw: RawPalette) -> bool {
    &&& doc.text_member("checksum"@) == Some(raw.checksum)
    &&& doc.text_member("wallpaper"@) == Some(raw.wallpaper)
    &&& doc.text_member("alpha"@) == Some(raw.alpha)
    &&& doc.member("special"@) matches Some(special)
    &&& special.text_member("background"@) == Some(raw.background)
    &&& special.text_member("foreground"@) == Some(raw.foreground)
    &&& special.text_member("cursor"@) == Some(raw.cursor)
    &&& doc.member("colors"@) matches Some(table)
    &&& table is Object
    &&& distinct_keys(raw.colors)
    &&& forall|name: Seq<char>| (#[trigger] table.member(name)) is Some <==> exists|i: int|
        0 <= i < raw.colors.len() && (#[trigger] raw.colors[i]).0 == name
    &&& forall|i: int|
        0 <= i < raw.colors.len() ==> table.text_member((#[trigger] raw.colors[i]).0) == Some(
            raw.colors[i].1,
        )
}

/// The string member `name` of `value`, copied out.
fn text_in(value: &serde_json::Value, name: &str) -> (res: Option<String>)
    ensures
        match res {
            Some(text) => json_model(*value).text_member(name@) == Some(text@),
            None => json_model(*value).text_member(name@) is None,
        },
{
    match member(value, name) {
        Some(found) => match text_of(found) {
            Some(text) => Some(text.to_owned()),
            None => None,
        },
        None => None,
    }
}

impl RawColors {
    /// Takes the text of a palette out of a parsed document. The result is
    /// `None` exactly where the document does not have a palette's shape.
    pub fn from_document(doc: &serde_json::Value) -> (res: Option<RawColors>)
        ensures
            res is Some <==> is_palette_document(json_model(*doc)),
            res matches Some(raw) ==> spells(json_model(*doc), raw@),
    {
        let checksum = match text_in(doc, "checksum") {
            Some(text) => text,
            None => {
                return None;
            },
        };
        let wallpaper = match text_in(doc, "wallpaper") {
            Some(text) => text,
            None => {
                return None;
            },
        };
        let alpha = match text_in(doc, "alpha") {
            Some(text) => text,
            None => {
                return None;
            },
        };
        let special = match member(doc, "special") {
            Some(special) => special,
            None => {
                return None;
            },
        };
        let background = match text_in(special, "background") {
            Some(text) => text,
            None => {
                return None;
            },
        };
        let foreground = match text_in(special, "foreground") {
            Some(text) => text,
            None => {
                return None;
            },
        };
        let cursor = match text_in(special, "cursor") {
            Some(text) => text,
            None => {
                return None;
            },
        };
        let table = match member(doc, "colors") {
            Some(table) => table,
            None => {
                return None;
            },
        };
        let names = match member_names(table) {
            Some(names) => names,
            None => {
                return None;
            },
        };
        let ghost entries = json_model(*table);
        let mut colors: Vec<(String, String)> = Vec::new();
        let mut i: usize = 0;
        while i < names.len()
            invariant
                0 <= i <= names@.len(),
                colors@.len() == i,
                entries == json_model(*table),
                json_model(*doc).member("colors"@) == Some(entries),
                distinct(names@),
                forall|name: Seq<char>|
                    (#[trigger] entries.member(name)) is Some <==> exists|k: int|
                        0 <= k < names@.len() && (#[trigger] names@[k])@ == name,
                forall|k: int|
                    0 <= k < i ==> (#[trigger] colors@[k]).0@ == names@[k]@ && entries.text_member(
                        names@[k]@,
                    ) == Some(colors@[k].1@),
            decreases names@.len() - i,
        {
            let text = match text_in(table, names[i].as_str()) {
                Some(text) => text,
                None => {
                    assert(entries.member(names@[i as int]@) is Some);
                    return None;
                },
            };
            let name = names[i].clone();
            colors.push((name, text));
            i += 1;
        }
        let raw = RawColors {
            checksum,
            wallpaper,
            alpha,
            special: Special { background, foreground, cursor },
            colors,
        };
        proof {
            let spelled = raw@;
            assert forall|name: Seq<char>| (#[trigger] entries.member(name)) is Some implies exists|
                k: int,
            |
                0 <= k < spelled.colors.len() && (#[trigger] spelled.colors[k]).0 == name by {
                let k = choose|k: int| 0 <= k < names@.len() && (#[trigger] names@[k])@ == name;
                assert(spelled.colors[k].0 == name);
            }
            assert forall|name: Seq<char>|
                (exists|k: int|
                    0 <= k < spelled.colors.len() && (#[trigger] spelled.colors[k]).0
                        == name) implies (#[trigger] entries.member(name)) is Some by {
                let k = choose|k: int|
                    0 <= k < spelled.colors.len() && (#[trigger] spelled.colors[k]).0 == name;
                assert(names@[k]@ == name);
            }
            assert forall|k: int| 0 <= k < spelled.colors.len() implies entries.text_member(
                (#[trigger] spelled.colors[k]).0,
            ) == Some(spelled.colors[k].1) by {
                assert(colors@[k].0@ == names@[k]@);
            }
            lemma_spelled_palette(json_model(*doc), spelled);
        }
        Some(raw)
    }
}

/// The palette that a parsed document spells, or why it spells none. A
/// wrong shape or a bad opacity is reported before a bad colour.
pub open spec fn palette_of_document(doc: Json) -> Result<Palette, LoadError> {
    if !is_palette_document(doc) {
        Err(LoadError::Parse)
    } else {
        let special = doc.member("special"@).unwrap();
        let table = doc.member("colors"@).unwrap();
        let alpha = parsed_alpha(doc.text_member("alpha"@).unwrap());
        let background = parsed_color(special.text_member("background"@).unwrap());
        let foreground = parsed_color(special.text_member("foreground"@).unwrap());
        let cursor = parsed_color(special.text_member("cursor"@).unwrap());
        if alpha is None {
            Err(LoadError::Parse)
        } else if background is None || foreground is None || cursor is None || exists|
            name: Seq<char>,
        |
            (#[trigger] table.member(name)) is Some && parsed_color(
                table.text_member(name).unwrap(),
            ) is None {
            Err(LoadError::ColorFormat)
        } else {
            Ok(
                Palette {
                    checksum: doc.text_member("checksum"@).unwrap(),
                    wallpaper: doc.text_member("wallpaper"@).unwrap(),
                    alpha: alpha.unwrap(),
                    special: ParsedSpecial {
                        background: background.unwrap(),
                        foreground: foreground.unwrap(),
                        cursor: cursor.unwrap(),
                    },
                    colors: Map::new(
                        |name: Seq<char>| table.member(name) is Some,
                        |name: Seq<char>| parsed_color(table.text_member(name).unwrap()).unwrap(),
                    ),
                },
            )
        }
    }
}

/// What loading makes of a palette file: `read` is the file's content, or
/// `None` where the file could not be read.
pub open spec fn load_outcome(read: Option<Seq<char>>) -> Result<Palette, LoadError> {
    match read {
        None => Err(LoadError::Io),
        Some(text) => match json_document(text) {
            None => Err(LoadError::Parse),
            Some(doc) => palette_of_document(doc),
        },
    }
}

/// A key is in the table exactly if a pair has it, and its colour is that
/// of such a pair.
proof fn lemma_color_table(entries: Seq<(Seq<char>, Seq<char>)>, name: Seq<char>)
    ensures
        color_table(entries).contains_key(name) <==> exists|i: int|
            0 <= i < entries.len() && (#[trigger] entries[i]).0 == name,
        color_table(entries).contains_key(name) ==> exists|i: int|
            0 <= i < entries.len() && (#[trigger] entries[i]).0 == name && color_table(
                entries,
            )[name] == parsed_color(entries[i].1).unwrap(),
    decreases entries.len(),
{
    if entries.len() > 0 {
        let front = entries.drop_last();
        let last = entries.len() - 1;
        lemma_color_table(front, name);
        if entries[last].0 == name {
            assert(entries[last].0 == name && color_table(entries)[name] == parsed_color(
                entries[last].1,
            ).unwrap());
        } else {
            if color_table(front).contains_key(name) {
                let i = choose|i: int|
                    0 <= i < front.len() && (#[trigger] front[i]).0 == name && color_table(
                        front,
                    )[name] == parsed_color(front[i].1).unwrap();
                assert(entries[i] == front[i]);
            }
            if exists|i: int| 0 <= i < entries.len() && (#[trigger] entries[i]).0 == name {
                let i = choose|i: int| 0 <= i < entries.len() && (#[trigger] entries[i]).0 == name;
                assert(front[i] == entries[i]);
            }
        }
    }
}

/// Reading the text that was taken out of a document gives what the
/// document spells.
pub proof fn lemma_spelled_palette(doc: Json, raw: RawPalette)
    requires
        spells(doc, raw),
    ensures
        is_palette_document(doc),
        palette_of_raw(raw) == palette_of_document(doc),
{
    let table = doc.member("colors"@).unwrap();
    assert forall|name: Seq<char>|
        (#[trigger] table.member(name)) is Some implies table.text_member(name) is Some by {
        let i = choose|i: int| 0 <= i < raw.colors.len() && (#[trigger] raw.colors[i]).0 == name;
        assert(table.text_member(raw.colors[i].0) == Some(raw.colors[i].1));
    }
    let bad = exists|name: Seq<char>|
        (#[trigger] table.member(name)) is Some && parsed_color(table.text_member(name).unwrap())
            is None;
    if bad {
        let name = choose|name: Seq<char>|
            (#[trigger] table.member(name)) is Some && parsed_color(
                table.text_member(name).unwrap(),
            ) is None;
        let i = choose|i: int| 0 <= i < raw.colors.len() && (#[trigger] raw.colors[i]).0 == name;
        assert(table.text_member(raw.colors[i].0) == Some(raw.colors[i].1));
        assert(parsed_color(raw.colors[i].1) is None);
        assert(!all_colors(raw.colors));
    }
    if !all_colors(raw.colors) {
        let i = choose|i: int|
            0 <= i < raw.colors.len() && !(parsed_color(#[trigger] raw.colors[i].1) is Some);
        let name = raw.colors[i].0;
        assert(table.text_member(raw.colors[i].0) == Some(raw.colors[i].1));
        assert(table.member(name) is Some);
        assert(bad);
    }
    let spelled = Map::new(
        |name: Seq<char>| table.member(name) is Some,
        |name: Seq<char>| parsed_color(table.text_member(name).unwrap()).unwrap(),
    );
    let filled = color_table(raw.colors);
    assert forall|name: Seq<char>|
        #![trigger filled.dom().contains(name)]
        #![trigger spelled.dom().contains(name)]
        filled.dom().contains(name) == spelled.dom().contains(name) && (spelled.dom().contains(
            name,
        ) ==> filled[name] == spelled[name]) by {
        lemma_color_table(raw.colors, name);
        if color_table(raw.colors).contains_key(name) {
            let i = choose|i: int|
                0 <= i < raw.colors.len() && (#[trigger] raw.colors[i]).0 == name && color_table(
                    raw.colors,
                )[name] == parsed_color(raw.colors[i].1).unwrap();
            assert(table.text_member(raw.colors[i].0) == Some(raw.colors[i].1));
            assert(table.member(name) is Some);
        }
        if table.member(name) is Some {
            let i = choose|i: int|
                0 <= i < raw.colors.len() && (#[trigger] raw.colors[i]).0 == name;
            assert(color_table(raw.colors).contains_key(name));
        }
    }
    assert(filled =~= spelled);
}

impl Colors {
    /// Loads a palette from what reading the palette file gave: its content,
    /// or `None` where it could not be read. Either the whole palette is
    /// returned or an error; nothing is returned of a file that is valid
    /// only in part.
    pub fn load(read: Option<&str>) -> (res: Result<Colors, LoadError>)
        ensures
            match load_outcome(str_view(read)) {
                Ok(palette) => res matches Ok(colors) && colors@ == palette,
                Err(error) => res matches Err(e) && e == error,
            },
    {
        let text = match read {
            Some(text) => text,
            None => {
                return Err(LoadError::Io);
            },
        };
        let doc = match parse_document(text) {
            Ok(doc) => doc,
            Err(_) => {
                return Err(LoadError::Parse);
            },
        };
        match RawColors::from_document(&doc) {
            Some(raw) => {
                proof {
                    lemma_spelled_palette(json_model(doc), raw@);
                }
                Colors::from_raw(raw)
            },
            None => Err(LoadError::Parse),
        }
    }
}

} // verus!
