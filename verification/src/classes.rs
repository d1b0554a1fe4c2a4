//! Character classes of the label grammar.
//!
//! The grammar speaks of four classes: word characters (which form the artist
//! segment), whitespace (padding around the separator and inside the title),
//! the characters that may open an album title, and the characters that may
//! continue one. Each class has a specification function, an executable test
//! proved against it, and a shared tag type so that one run-scanning loop can
//! serve every class.

use vstd::prelude::*;

verus! {

/// Word characters: ASCII letters, decimal digits, underscore, and the
/// accented Latin letters of the Latin-1 range (multiplication and division
/// signs excluded).
pub open spec fn is_word_char(c: char) -> bool {
    let u = c as u32;
    ||| 0x30 <= u && u <= 0x39
    ||| 0x41 <= u && u <= 0x5a
    ||| 0x61 <= u && u <= 0x7a
    ||| u == 0x5f
    ||| 0xc0 <= u && u <= 0xff && u != 0xd7 && u != 0xf7
}

/// Whitespace: space, tab, line feed, vertical tab, form feed, carriage
/// return.
pub open spec fn is_space_char(c: char) -> bool {
    c == ' ' || c == '\t' || c == '\n' || c == '\u{b}' || c == '\u{c}' || c == '\r'
}

/// ASCII decimal digits, the only digits the year group accepts.
pub open spec fn is_digit_char(c: char) -> bool {
    let u = c as u32;
    0x30 <= u && u <= 0x39
}

/// Characters that may open an album title: word characters, dot, comma, and
/// the acute accent.
pub open spec fn is_title_open_char(c: char) -> bool {
    is_word_char(c) || c == '.' || c == ',' || c == '\u{b4}'
}

/// Characters that may continue an album title: word characters, whitespace,
/// ampersand, acute accent, hyphen, plus sign, and parentheses.
pub open spec fn is_title_cont_char(c: char) -> bool {
    ||| is_word_char(c)
    ||| is_space_char(c)
    ||| c == '&'
    ||| c == '\u{b4}'
    ||| c == '-'
    ||| c == '+'
    ||| c == '('
    ||| c == ')'
}

/// The word-character class as a value, so that run-scanning functions can be
/// stated once over an arbitrary class.
pub open spec fn word_class() -> spec_fn(char) -> bool {
    |c: char| is_word_char(c)
}

/// The whitespace class as a value.
pub open spec fn space_class() -> spec_fn(char) -> bool {
    |c: char| is_space_char(c)
}

/// The title-opening class as a value.
pub open spec fn title_open_class() -> spec_fn(char) -> bool {
    |c: char| is_title_open_char(c)
}

/// The title-continuation class as a value.
pub open spec fn title_cont_class() -> spec_fn(char) -> bool {
    |c: char| is_title_cont_char(c)
}

/// Tags naming the four classes, for passing a class to executable code.
#[derive(Clone, Copy)]
pub enum CharClass {
    Word,
    Space,
    TitleOpen,
    TitleCont,
}

/// The class a tag names.
pub open spec fn class_spec(k: CharClass) -> spec_fn(char) -> bool {
    match k {
        CharClass::Word => word_class(),
        CharClass::Space => space_class(),
        CharClass::TitleOpen => title_open_class(),
        CharClass::TitleCont => title_cont_class(),
    }
}

/// Executable test for membership in the word-character class.
pub fn word_test(c: char) -> (r: bool)
    ensures
        r == is_word_char(c),
{
    let u = c as u32;
    (0x30 <= u && u <= 0x39) || (0x41 <= u && u <= 0x5a) || (0x61 <= u && u <= 0x7a) || u == 0x5f
        || (0xc0 <= u && u <= 0xff && u != 0xd7 && u != 0xf7)
}

/// Executable test for membership in the whitespace class.
pub fn space_test(c: char) -> (r: bool)
    ensures
        r == is_space_char(c),
{
    c == ' ' || c == '\t' || c == '\n' || c == '\u{b}' || c == '\u{c}' || c == '\r'
}

/// Executable test for an ASCII decimal digit.
pub fn digit_test(c: char) -> (r: bool)
    ensures
        r == is_digit_char(c),
{
    let u = c as u32;
    0x30 <= u && u <= 0x39
}

/// Executable test for membership in the title-opening class.
pub fn title_open_test(c: char) -> (r: bool)
    ensures
        r == is_title_open_char(c),
{
    word_test(c) || c == '.' || c == ',' || c == '\u{b4}'
}

/// Executable test for membership in the title-continuation class.
pub fn title_cont_test(c: char) -> (r: bool)
    ensures
        r == is_title_cont_char(c),
{
    word_test(c) || space_test(c) || c == '&' || c == '\u{b4}' || c == '-' || c == '+'
        || c == '(' || c == ')'
}

/// Executable test for membership in the class a tag names.
pub fn class_test(k: CharClass, c: char) -> (r: bool)
    ensures
        r == class_spec(k)(c),
{
    match k {
        CharClass::Word => word_test(c),
        CharClass::Space => space_test(c),
        CharClass::TitleOpen => title_open_test(c),
        CharClass::TitleCont => title_cont_test(c),
    }
}

} // verus!
