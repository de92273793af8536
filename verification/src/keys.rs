//! The key table: the names under which the settings write a key, the code
//! that the keyboard reports for it, and the label that the menu shows.

use crate::text::{lowercase, opt_str, opt_text, str_eq, uppercase};
use vstd::prelude::*;

verus! {

/// The code of the key that a lower-case name stands for, if the table has
/// the name. Punctuation keys answer to their sign and to a spelled-out name.
pub open spec fn key_code_of(name: Seq<char>) -> Option<u16> {
    if name == "a"@ {
        Some(0x00u16)
    } else if name == "s"@ {
        Some(0x01u16)
    } else if name == "d"@ {
        Some(0x02u16)
    } else if name == "f"@ {
        Some(0x03u16)
    } else if name == "h"@ {
        Some(0x04u16)
    } else if name == "g"@ {
        Some(0x05u16)
    } else if name == "z"@ {
        Some(0x06u16)
    } else if name == "x"@ {
        Some(0x07u16)
    } else if name == "c"@ {
        Some(0x08u16)
    } else if name == "v"@ {
        Some(0x09u16)
    } else if name == "b"@ {
        Some(0x0Bu16)
    } else if name == "q"@ {
        Some(0x0Cu16)
    } else if name == "w"@ {
        Some(0x0Du16)
    } else if name == "e"@ {
        Some(0x0Eu16)
    } else if name == "r"@ {
        Some(0x0Fu16)
    } else if name == "y"@ {
        Some(0x10u16)
    } else if name == "t"@ {
        Some(0x11u16)
    } else if name == "1"@ {
        Some(0x12u16)
    } else if name == "2"@ {
        Some(0x13u16)
    } else if name == "3"@ {
        Some(0x14u16)
    } else if name == "4"@ {
        Some(0x15u16)
    } else if name == "6"@ {
        Some(0x16u16)
    } else if name == "5"@ {
        Some(0x17u16)
    } else if name == "="@ {
        Some(0x18u16)
    } else if name == "9"@ {
        Some(0x19u16)
    } else if name == "7"@ {
        Some(0x1Au16)
    } else if name == "-"@ {
        Some(0x1Bu16)
    } else if name == "8"@ {
        Some(0x1Cu16)
    } else if name == "0"@ {
        Some(0x1Du16)
    } else if name == "]"@ {
        Some(0x1Eu16)
    } else if name == "o"@ {
        Some(0x1Fu16)
    } else if name == "u"@ {
        Some(0x20u16)
    } else if name == "["@ {
        Some(0x21u16)
    } else if name == "i"@ {
        Some(0x22u16)
    } else if name == "p"@ {
        Some(0x23u16)
    } else if name == "l"@ {
        Some(0x25u16)
    } else if name == "j"@ {
        Some(0x26u16)
    } else if name == "'"@ || name == "quote"@ {
        Some(0x27u16)
    } else if name == "k"@ {
        Some(0x28u16)
    } else if name == ";"@ || name == "semicolon"@ {
        Some(0x29u16)
    } else if name == "\\"@ || name == "backslash"@ {
        Some(0x2Au16)
    } else if name == ","@ || name == "comma"@ {
        Some(0x2Bu16)
    } else if name == "/"@ || name == "slash"@ {
        Some(0x2Cu16)
    } else if name == "n"@ {
        Some(0x2Du16)
    } else if name == "m"@ {
        Some(0x2Eu16)
    } else if name == "."@ || name == "period"@ {
        Some(0x2Fu16)
    } else if name == "`"@ || name == "grave"@ || name == "backtick"@ {
        Some(0x32u16)
    } else if name == "space"@ {
        Some(0x31u16)
    } else if name == "return"@ || name == "enter"@ {
        Some(0x24u16)
    } else if name == "tab"@ {
        Some(0x30u16)
    } else if name == "delete"@ || name == "backspace"@ {
        Some(0x33u16)
    } else if name == "escape"@ || name == "esc"@ {
        Some(0x35u16)
    } else {
        None
    }
}

/// The name under which the settings write the key with a given code, if the
/// table has the code.
pub open spec fn config_name_of(key_code: u16) -> Option<Seq<char>> {
    if key_code == 0x00 {
        Some("a"@)
    } else if key_code == 0x01 {
        Some("s"@)
    } else if key_code == 0x02 {
        Some("d"@)
    } else if key_code == 0x03 {
        Some("f"@)
    } else if key_code == 0x04 {
        Some("h"@)
    } else if key_code == 0x05 {
        Some("g"@)
    } else if key_code == 0x06 {
        Some("z"@)
    } else if key_code == 0x07 {
        Some("x"@)
    } else if key_code == 0x08 {
        Some("c"@)
    } else if key_code == 0x09 {
        Some("v"@)
    } else if key_code == 0x0B {
        Some("b"@)
    } else if key_code == 0x0C {
        Some("q"@)
    } else if key_code == 0x0D {
        Some("w"@)
    } else if key_code == 0x0E {
        Some("e"@)
    } else if key_code == 0x0F {
        Some("r"@)
    } else if key_code == 0x10 {
        Some("y"@)
    } else if key_code == 0x11 {
        Some("t"@)
    } else if key_code == 0x12 {
        Some("1"@)
    } else if key_code == 0x13 {
        Some("2"@)
    } else if key_code == 0x14 {
        Some("3"@)
    } else if key_code == 0x15 {
        Some("4"@)
    } else if key_code == 0x16 {
        Some("6"@)
    } else if key_code == 0x17 {
        Some("5"@)
    } else if key_code == 0x18 {
        Some("="@)
    } else if key_code == 0x19 {
        Some("9"@)
    } else if key_code == 0x1A {
        Some("7"@)
    } else if key_code == 0x1B {
        Some("-"@)
    } else if key_code == 0x1C {
        Some("8"@)
    } else if key_code == 0x1D {
        Some("0"@)
    } else if key_code == 0x1E {
        Some("]"@)
    } else if key_code == 0x1F {
        Some("o"@)
    } else if key_code == 0x20 {
        Some("u"@)
    } else if key_code == 0x21 {
        Some("["@)
    } else if key_code == 0x22 {
        Some("i"@)
    } else if key_code == 0x23 {
        Some("p"@)
    } else if key_code == 0x25 {
        Some("l"@)
    } else if key_code == 0x26 {
        Some("j"@)
    } else if key_code == 0x27 {
        Some("'"@)
    } else if key_code == 0x28 {
        Some("k"@)
    } else if key_code == 0x29 {
        Some("semicolon"@)
    } else if key_code == 0x2A {
        Some("backslash"@)
    } else if key_code == 0x2B {
        Some("comma"@)
    } else if key_code == 0x2C {
        Some("slash"@)
    } else if key_code == 0x2D {
        Some("n"@)
    } else if key_code == 0x2E {
        Some("m"@)
    } else if key_code == 0x2F {
        Some("period"@)
    } else if key_code == 0x32 {
        Some("grave"@)
    } else if key_code == 0x31 {
        Some("space"@)
    } else if key_code == 0x24 {
        Some("return"@)
    } else if key_code == 0x30 {
        Some("tab"@)
    } else if key_code == 0x33 {
        Some("backspace"@)
    } else if key_code == 0x35 {
        Some("escape"@)
    } else {
        None
    }
}

/// The label that the menu shows for the key with a given code, if the table
/// has the code.
pub open spec fn display_of_code(key_code: u16) -> Option<Seq<char>> {
    if key_code == 0x00 {
        Some("A"@)
    } else if key_code == 0x01 {
        Some("S"@)
    } else if key_code == 0x02 {
        Some("D"@)
    } else if key_code == 0x03 {
        Some("F"@)
    } else if key_code == 0x04 {
        Some("H"@)
    } else if key_code == 0x05 {
        Some("G"@)
    } else if key_code == 0x06 {
        Some("Z"@)
    } else if key_code == 0x07 {
        Some("X"@)
    } else if key_code == 0x08 {
        Some("C"@)
    } else if key_code == 0x09 {
        Some("V"@)
    } else if key_code == 0x0B {
        Some("B"@)
    } else if key_code == 0x0C {
        Some("Q"@)
    } else if key_code == 0x0D {
        Some("W"@)
    } else if key_code == 0x0E {
        Some("E"@)
    } else if key_code == 0x0F {
        Some("R"@)
    } else if key_code == 0x10 {
        Some("Y"@)
    } else if key_code == 0x11 {
        Some("T"@)
    } else if key_code == 0x12 {
        Some("1"@)
    } else if key_code == 0x13 {
        Some("2"@)
    } else if key_code == 0x14 {
        Some("3"@)
    } else if key_code == 0x15 {
        Some("4"@)
    } else if key_code == 0x16 {
        Some("6"@)
    } else if key_code == 0x17 {
        Some("5"@)
    } else if key_code == 0x18 {
        Some("="@)
    } else if key_code == 0x19 {
        Some("9"@)
    } else if key_code == 0x1A {
        Some("7"@)
    } else if key_code == 0x1B {
        Some("-"@)
    } else if key_code == 0x1C {
        Some("8"@)
    } else if key_code == 0x1D {
        Some("0"@)
    } else if key_code == 0x1E {
        Some("]"@)
    } else if key_code == 0x1F {
        Some("O"@)
    } else if key_code == 0x20 {
        Some("U"@)
    } else if key_code == 0x21 {
        Some("["@)
    } else if key_code == 0x22 {
        Some("I"@)
    } else if key_code == 0x23 {
        Some("P"@)
    } else if key_code == 0x25 {
        Some("L"@)
    } else if key_code == 0x26 {
        Some("J"@)
    } else if key_code == 0x27 {
        Some("'"@)
    } else if key_code == 0x28 {
        Some("K"@)
    } else if key_code == 0x29 {
        Some(";"@)
    } else if key_code == 0x2A {
        Some("\\"@)
    } else if key_code == 0x2B {
        Some(","@)
    } else if key_code == 0x2C {
        Some("/"@)
    } else if key_code == 0x2D {
        Some("N"@)
    } else if key_code == 0x2E {
        Some("M"@)
    } else if key_code == 0x2F {
        Some("."@)
    } else if key_code == 0x32 {
        Some("`"@)
    } else if key_code == 0x31 {
        Some("Space"@)
    } else if key_code == 0x24 {
        Some("↵"@)
    } else if key_code == 0x30 {
        Some("⇥"@)
    } else if key_code == 0x33 {
        Some("⌫"@)
    } else if key_code == 0x35 {
        Some("⎋"@)
    } else {
        None
    }
}

/// The label of a key that is not shown by its own name in capitals: the sign
/// of a punctuation key, and the symbol of an editing key.
pub open spec fn special_display_of(name: Seq<char>) -> Option<Seq<char>> {
    if name == "semicolon"@ || name == ";"@ {
        Some(";"@)
    } else if name == "comma"@ || name == ","@ {
        Some(","@)
    } else if name == "period"@ || name == "."@ {
        Some("."@)
    } else if name == "slash"@ || name == "/"@ {
        Some("/"@)
    } else if name == "backslash"@ || name == "\\"@ {
        Some("\\"@)
    } else if name == "quote"@ || name == "'"@ {
        Some("'"@)
    } else if name == "grave"@ || name == "backtick"@ || name == "`"@ {
        Some("`"@)
    } else if name == "space"@ {
        Some("Space"@)
    } else if name == "return"@ || name == "enter"@ {
        Some("↵"@)
    } else if name == "tab"@ {
        Some("⇥"@)
    } else if name == "delete"@ || name == "backspace"@ {
        Some("⌫"@)
    } else if name == "escape"@ || name == "esc"@ {
        Some("⎋"@)
    } else {
        None
    }
}

/// The label of a key, given its name in lower case and in capitals: its
/// special label where the name in lower case has one, else the name in
/// capitals.
pub open spec fn label_of(lowered: Seq<char>, raised: Seq<char>) -> Seq<char> {
    match special_display_of(lowered) {
        Some(label) => label,
        None => raised,
    }
}

/// The label of the key that a lower-case name stands for: its special label
/// where it has one, else the name in capitals.
pub open spec fn display_of_name(name: Seq<char>) -> Seq<char> {
    label_of(name, uppercase(name))
}

/// Looks a lower-case key name up in the table.
pub fn key_code_from_name(name: &str) -> (code: Option<u16>)
    ensures
        code == key_code_of(name@),
{
    if str_eq(name, "a") {
        Some(0x00)
    } else if str_eq(name, "s") {
        Some(0x01)
    } else if str_eq(name, "d") {
        Some(0x02)
    } else if str_eq(name, "f") {
        Some(0x03)
    } else if str_eq(name, "h") {
        Some(0x04)
    } else if str_eq(name, "g") {
        Some(0x05)
    } else if str_eq(name, "z") {
        Some(0x06)
    } else if str_eq(name, "x") {
        Some(0x07)
    } else if str_eq(name, "c") {
        Some(0x08)
    } else if str_eq(name, "v") {
        Some(0x09)
    } else if str_eq(name, "b") {
        Some(0x0B)
    } else if str_eq(name, "q") {
        Some(0x0C)
    } else if str_eq(name, "w") {
        Some(0x0D)
    } else if str_eq(name, "e") {
        Some(0x0E)
    } else if str_eq(name, "r") {
        Some(0x0F)
    } else if str_eq(name, "y") {
        Some(0x10)
    } else if str_eq(name, "t") {
        Some(0x11)
    } else if str_eq(name, "1") {
        Some(0x12)
    } else if str_eq(name, "2") {
        Some(0x13)
    } else if str_eq(name, "3") {
        Some(0x14)
    } else if str_eq(name, "4") {
        Some(0x15)
    } else if str_eq(name, "6") {
        Some(0x16)
    } else if str_eq(name, "5") {
        Some(0x17)
    } else if str_eq(name, "=") {
        Some(0x18)
    } else if str_eq(name, "9") {
        Some(0x19)
    } else if str_eq(name, "7") {
        Some(0x1A)
    } else if str_eq(name, "-") {
        Some(0x1B)
    } else if str_eq(name, "8") {
        Some(0x1C)
    } else if str_eq(name, "0") {
        Some(0x1D)
    } else if str_eq(name, "]") {
        Some(0x1E)
    } else if str_eq(name, "o") {
        Some(0x1F)
    } else if str_eq(name, "u") {
        Some(0x20)
    } else if str_eq(name, "[") {
        Some(0x21)
    } else if str_eq(name, "i") {
        Some(0x22)
    } else if str_eq(name, "p") {
        Some(0x23)
    } else if str_eq(name, "l") {
        Some(0x25)
    } else if str_eq(name, "j") {
        Some(0x26)
    } else if str_eq(name, "'") || str_eq(name, "quote") {
        Some(0x27)
    } else if str_eq(name, "k") {
        Some(0x28)
    } else if str_eq(name, ";") || str_eq(name, "semicolon") {
        Some(0x29)
    } else if str_eq(name, "\\") || str_eq(name, "backslash") {
        Some(0x2A)
    } else if str_eq(name, ",") || str_eq(name, "comma") {
        Some(0x2B)
    } else if str_eq(name, "/") || str_eq(name, "slash") {
        Some(0x2C)
    } else if str_eq(name, "n") {
        Some(0x2D)
    } else if str_eq(name, "m") {
        Some(0x2E)
    } else if str_eq(name, ".") || str_eq(name, "period") {
        Some(0x2F)
    } else if str_eq(name, "`") || str_eq(name, "grave") || str_eq(name, "backtick") {
        Some(0x32)
    } else if str_eq(name, "space") {
        Some(0x31)
    } else if str_eq(name, "return") || str_eq(name, "enter") {
        Some(0x24)
    } else if str_eq(name, "tab") {
        Some(0x30)
    } else if str_eq(name, "delete") || str_eq(name, "backspace") {
        Some(0x33)
    } else if str_eq(name, "escape") || str_eq(name, "esc") {
        Some(0x35)
    } else {
        None
    }
}

/// The code of the key that the settings name; the name is read without
/// regard to case. `None` where the table does not have the name.
pub fn key_code_from_string(key: &str) -> (code: Option<u16>)
    ensures
        code == key_code_of(lowercase(key@)),
{
    let lowered = key.to_lowercase();
    key_code_from_name(lowered.as_str())
}

/// The label that the menu shows for a key code: a letter in capitals, a sign,
/// or the symbol of an editing key. `None` where the table does not have the
/// code.
pub fn key_code_to_display(key_code: u16) -> (label: Option<String>)
    ensures
        opt_text(label) == display_of_code(key_code),
{
    match key_code {
        0x00 => Some("A".to_owned()),
        0x01 => Some("S".to_owned()),
        0x02 => Some("D".to_owned()),
        0x03 => Some("F".to_owned()),
        0x04 => Some("H".to_owned()),
        0x05 => Some("G".to_owned()),
        0x06 => Some("Z".to_owned()),
        0x07 => Some("X".to_owned()),
        0x08 => Some("C".to_owned()),
        0x09 => Some("V".to_owned()),
        0x0B => Some("B".to_owned()),
        0x0C => Some("Q".to_owned()),
        0x0D => Some("W".to_owned()),
        0x0E => Some("E".to_owned()),
        0x0F => Some("R".to_owned()),
        0x10 => Some("Y".to_owned()),
        0x11 => Some("T".to_owned()),
        0x12 => Some("1".to_owned()),
        0x13 => Some("2".to_owned()),
        0x14 => Some("3".to_owned()),
        0x15 => Some("4".to_owned()),
        0x16 => Some("6".to_owned()),
        0x17 => Some("5".to_owned()),
        0x18 => Some("=".to_owned()),
        0x19 => Some("9".to_owned()),
        0x1A => Some("7".to_owned()),
        0x1B => Some("-".to_owned()),
        0x1C => Some("8".to_owned()),
        0x1D => Some("0".to_owned()),
        0x1E => Some("]".to_owned()),
        0x1F => Some("O".to_owned()),
        0x20 => Some("U".to_owned()),
        0x21 => Some("[".to_owned()),
        0x22 => Some("I".to_owned()),
        0x23 => Some("P".to_owned()),
        0x25 => Some("L".to_owned()),
        0x26 => Some("J".to_owned()),
        0x27 => Some("'".to_owned()),
        0x28 => Some("K".to_owned()),
        0x29 => Some(";".to_owned()),
        0x2A => Some("\\".to_owned()),
        0x2B => Some(",".to_owned()),
        0x2C => Some("/".to_owned()),
        0x2D => Some("N".to_owned()),
        0x2E => Some("M".to_owned()),
        0x2F => Some(".".to_owned()),
        0x32 => Some("`".to_owned()),
        0x31 => Some("Space".to_owned()),
        0x24 => Some("↵".to_owned()),
        0x30 => Some("⇥".to_owned()),
        0x33 => Some("⌫".to_owned()),
        0x35 => Some("⎋".to_owned()),
        _ => None,
    }
}

/// The name under which the settings write a key code. `None` where the table
/// does not have the code.
pub fn key_code_to_config(key_code: u16) -> (name: Option<String>)
    ensures
        opt_text(name) == config_name_of(key_code),
{
    match key_code {
        0x00 => Some("a".to_owned()),
        0x01 => Some("s".to_owned()),
        0x02 => Some("d".to_owned()),
        0x03 => Some("f".to_owned()),
        0x04 => Some("h".to_owned()),
        0x05 => Some("g".to_owned()),
        0x06 => Some("z".to_owned()),
        0x07 => Some("x".to_owned()),
        0x08 => Some("c".to_owned()),
        0x09 => Some("v".to_owned()),
        0x0B => Some("b".to_owned()),
        0x0C => Some("q".to_owned()),
        0x0D => Some("w".to_owned()),
        0x0E => Some("e".to_owned()),
        0x0F => Some("r".to_owned()),
        0x10 => Some("y".to_owned()),
        0x11 => Some("t".to_owned()),
        0x12 => Some("1".to_owned()),
        0x13 => Some("2".to_owned()),
        0x14 => Some("3".to_owned()),
        0x15 => Some("4".to_owned()),
        0x16 => Some("6".to_owned()),
        0x17 => Some("5".to_owned()),
        0x18 => Some("=".to_owned()),
        0x19 => Some("9".to_owned()),
        0x1A => Some("7".to_owned()),
        0x1B => Some("-".to_owned()),
        0x1C => Some("8".to_owned()),
        0x1D => Some("0".to_owned()),
        0x1E => Some("]".to_owned()),
        0x1F => Some("o".to_owned()),
        0x20 => Some("u".to_owned()),
        0x21 => Some("[".to_owned()),
        0x22 => Some("i".to_owned()),
        0x23 => Some("p".to_owned()),
        0x25 => Some("l".to_owned()),
        0x26 => Some("j".to_owned()),
        0x27 => Some("'".to_owned()),
        0x28 => Some("k".to_owned()),
        0x29 => Some("semicolon".to_owned()),
        0x2A => Some("backslash".to_owned()),
        0x2B => Some("comma".to_owned()),
        0x2C => Some("slash".to_owned()),
        0x2D => Some("n".to_owned()),
        0x2E => Some("m".to_owned()),
        0x2F => Some("period".to_owned()),
        0x32 => Some("grave".to_owned()),
        0x31 => Some("space".to_owned()),
        0x24 => Some("return".to_owned()),
        0x30 => Some("tab".to_owned()),
        0x33 => Some("backspace".to_owned()),
        0x35 => Some("escape".to_owned()),
        _ => None,
    }
}

/// The special label of a lower-case key name, if it has one.
pub fn special_key_display(name: &str) -> (label: Option<&'static str>)
    ensures
        opt_str(label) == special_display_of(name@),
{
    if str_eq(name, "semicolon") || str_eq(name, ";") {
        Some(";")
    } else if str_eq(name, "comma") || str_eq(name, ",") {
        Some(",")
    } else if str_eq(name, "period") || str_eq(name, ".") {
        Some(".")
    } else if str_eq(name, "slash") || str_eq(name, "/") {
        Some("/")
    } else if str_eq(name, "backslash") || str_eq(name, "\\") {
        Some("\\")
    } else if str_eq(name, "quote") || str_eq(name, "'") {
        Some("'")
    } else if str_eq(name, "grave") || str_eq(name, "backtick") || str_eq(name, "`") {
        Some("`")
    } else if str_eq(name, "space") {
        Some("Space")
    } else if str_eq(name, "return") || str_eq(name, "enter") {
        Some("↵")
    } else if str_eq(name, "tab") {
        Some("⇥")
    } else if str_eq(name, "delete") || str_eq(name, "backspace") {
        Some("⌫")
    } else if str_eq(name, "escape") || str_eq(name, "esc") {
        Some("⎋")
    } else {
        None
    }
}

/// The label of a key, given its name in lower case and in capitals.
pub fn key_label(lowered: &str, raised: &str) -> (label: String)
    ensures
        label@ == label_of(lowered@, raised@),
{
    match special_key_display(lowered) {
        Some(text) => text.to_owned(),
        None => raised.to_owned(),
    }
}

/// The label that the menu shows for a key that the settings name; the name
/// is read without regard to case. A name without a special label is shown in
/// capitals, whether the table has it or not.
pub fn key_name_to_display(key: &str) -> (label: String)
    ensures
        label@ == display_of_name(lowercase(key@)),
{
    let lowered = key.to_lowercase();
    let raised = lowered.as_str().to_uppercase();
    key_label(lowered.as_str(), raised.as_str())
}

} // verus!

verus! {

/// The names of the table, spelled out character by character.
proof fn lemma_names_spelled()
    ensures
        "a"@.len() == 1 && "a"@[0] == 'a',
        "s"@.len() == 1 && "s"@[0] == 's',
        "d"@.len() == 1 && "d"@[0] == 'd',
        "f"@.len() == 1 && "f"@[0] == 'f',
        "h"@.len() == 1 && "h"@[0] == 'h',
        "g"@.len() == 1 && "g"@[0] == 'g',
        "z"@.len() == 1 && "z"@[0] == 'z',
        "x"@.len() == 1 && "x"@[0] == 'x',
        "c"@.len() == 1 && "c"@[0] == 'c',
        "v"@.len() == 1 && "v"@[0] == 'v',
        "b"@.len() == 1 && "b"@[0] == 'b',
        "q"@.len() == 1 && "q"@[0] == 'q',
        "w"@.len() == 1 && "w"@[0] == 'w',
        "e"@.len() == 1 && "e"@[0] == 'e',
        "r"@.len() == 1 && "r"@[0] == 'r',
        "y"@.len() == 1 && "y"@[0] == 'y',
        "t"@.len() == 1 && "t"@[0] == 't',
        "1"@.len() == 1 && "1"@[0] == '1',
        "2"@.len() == 1 && "2"@[0] == '2',
        "3"@.len() == 1 && "3"@[0] == '3',
        "4"@.len() == 1 && "4"@[0] == '4',
        "6"@.len() == 1 && "6"@[0] == '6',
        "5"@.len() == 1 && "5"@[0] == '5',
        "="@.len() == 1 && "="@[0] == '=',
        "9"@.len() == 1 && "9"@[0] == '9',
        "7"@.len() == 1 && "7"@[0] == '7',
        "-"@.len() == 1 && "-"@[0] == '-',
        "8"@.len() == 1 && "8"@[0] == '8',
        "0"@.len() == 1 && "0"@[0] == '0',
        "]"@.len() == 1 && "]"@[0] == ']',
        "o"@.len() == 1 && "o"@[0] == 'o',
        "u"@.len() == 1 && "u"@[0] == 'u',
        "["@.len() == 1 && "["@[0] == '[',
        "i"@.len() == 1 && "i"@[0] == 'i',
        "p"@.len() == 1 && "p"@[0] == 'p',
        "l"@.len() == 1 && "l"@[0] == 'l',
        "j"@.len() == 1 && "j"@[0] == 'j',
        "'"@.len() == 1 && "'"@[0] == '\'',
        "quote"@.len() == 5 && "quote"@[0] == 'q' && "quote"@[1] == 'u' && "quote"@[2] == 'o' && "quote"@[3] == 't' && "quote"@[4] == 'e',
        "k"@.len() == 1 && "k"@[0] == 'k',
        ";"@.len() == 1 && ";"@[0] == ';',
        "semicolon"@.len() == 9 && "semicolon"@[0] == 's' && "semicolon"@[1] == 'e' && "semicolon"@[2] == 'm' && "semicolon"@[3] == 'i' && "semicolon"@[4] == 'c' && "semicolon"@[5] == 'o' && "semicolon"@[6] == 'l' && "semicolon"@[7] == 'o' && "semicolon"@[8] == 'n',
        "\\"@.len() == 1 && "\\"@[0] == '\\',
        "backslash"@.len() == 9 && "backslash"@[0] == 'b' && "backslash"@[1] == 'a' && "backslash"@[2] == 'c' && "backslash"@[3] == 'k' && "backslash"@[4] == 's' && "backslash"@[5] == 'l' && "backslash"@[6] == 'a' && "backslash"@[7] == 's' && "backslash"@[8] == 'h',
        ","@.len() == 1 && ","@[0] == ',',
        "comma"@.len() == 5 && "comma"@[0] == 'c' && "comma"@[1] == 'o' && "comma"@[2] == 'm' && "comma"@[3] == 'm' && "comma"@[4] == 'a',
        "/"@.len() == 1 && "/"@[0] == '/',
        "slash"@.len() == 5 && "slash"@[0] == 's' && "slash"@[1] == 'l' && "slash"@[2] == 'a' && "slash"@[3] == 's' && "slash"@[4] == 'h',
        "n"@.len() == 1 && "n"@[0] == 'n',
        "m"@.len() == 1 && "m"@[0] == 'm',
        "."@.len() == 1 && "."@[0] == '.',
        "period"@.len() == 6 && "period"@[0] == 'p' && "period"@[1] == 'e' && "period"@[2] == 'r' && "period"@[3] == 'i' && "period"@[4] == 'o' && "period"@[5] == 'd',
        "`"@.len() == 1 && "`"@[0] == '`',
        "grave"@.len() == 5 && "grave"@[0] == 'g' && "grave"@[1] == 'r' && "grave"@[2] == 'a' && "grave"@[3] == 'v' && "grave"@[4] == 'e',
        "backtick"@.len() == 8 && "backtick"@[0] == 'b' && "backtick"@[1] == 'a' && "backtick"@[2] == 'c' && "backtick"@[3] == 'k' && "backtick"@[4] == 't' && "backtick"@[5] == 'i' && "backtick"@[6] == 'c' && "backtick"@[7] == 'k',
        "space"@.len() == 5 && "space"@[0] == 's' && "space"@[1] == 'p' && "space"@[2] == 'a' && "space"@[3] == 'c' && "space"@[4] == 'e',
        "return"@.len() == 6 && "return"@[0] == 'r' && "return"@[1] == 'e' && "return"@[2] == 't' && "return"@[3] == 'u' && "return"@[4] == 'r' && "return"@[5] == 'n',
        "enter"@.len() == 5 && "enter"@[0] == 'e' && "enter"@[1] == 'n' && "enter"@[2] == 't' && "enter"@[3] == 'e' && "enter"@[4] == 'r',
        "tab"@.len() == 3 && "tab"@[0] == 't' && "tab"@[1] == 'a' && "tab"@[2] == 'b',
        "delete"@.len() == 6 && "delete"@[0] == 'd' && "delete"@[1] == 'e' && "delete"@[2] == 'l' && "delete"@[3] == 'e' && "delete"@[4] == 't' && "delete"@[5] == 'e',
        "backspace"@.len() == 9 && "backspace"@[0] == 'b' && "backspace"@[1] == 'a' && "backspace"@[2] == 'c' && "backspace"@[3] == 'k' && "backspace"@[4] == 's' && "backspace"@[5] == 'p' && "backspace"@[6] == 'a' && "backspace"@[7] == 'c' && "backspace"@[8] == 'e',
        "escape"@.len() == 6 && "escape"@[0] == 'e' && "escape"@[1] == 's' && "escape"@[2] == 'c' && "escape"@[3] == 'a' && "escape"@[4] == 'p' && "escape"@[5] == 'e',
        "esc"@.len() == 3 && "esc"@[0] == 'e' && "esc"@[1] == 's' && "esc"@[2] == 'c',
{
    reveal_strlit("a");
    reveal_strlit("s");
    reveal_strlit("d");
    reveal_strlit("f");
    reveal_strlit("h");
    reveal_strlit("g");
    reveal_strlit("z");
    reveal_strlit("x");
    reveal_strlit("c");
    reveal_strlit("v");
    reveal_strlit("b");
    reveal_strlit("q");
    reveal_strlit("w");
    reveal_strlit("e");
    reveal_strlit("r");
    reveal_strlit("y");
    reveal_strlit("t");
    reveal_strlit("1");
    reveal_strlit("2");
    reveal_strlit("3");
    reveal_strlit("4");
    reveal_strlit("6");
    reveal_strlit("5");
    reveal_strlit("=");
    reveal_strlit("9");
    reveal_strlit("7");
    reveal_strlit("-");
    reveal_strlit("8");
    reveal_strlit("0");
    reveal_strlit("]");
    reveal_strlit("o");
    reveal_strlit("u");
    reveal_strlit("[");
    reveal_strlit("i");
    reveal_strlit("p");
    reveal_strlit("l");
    reveal_strlit("j");
    reveal_strlit("'");
    reveal_strlit("quote");
    reveal_strlit("k");
    reveal_strlit(";");
    reveal_strlit("semicolon");
    reveal_strlit("\\");
    reveal_strlit("backslash");
    reveal_strlit(",");
    reveal_strlit("comma");
    reveal_strlit("/");
    reveal_strlit("slash");
    reveal_strlit("n");
    reveal_strlit("m");
    reveal_strlit(".");
    reveal_strlit("period");
    reveal_strlit("`");
    reveal_strlit("grave");
    reveal_strlit("backtick");
    reveal_strlit("space");
    reveal_strlit("return");
    reveal_strlit("enter");
    reveal_strlit("tab");
    reveal_strlit("delete");
    reveal_strlit("backspace");
    reveal_strlit("escape");
    reveal_strlit("esc");
}

/// Reading back the name that the settings write for a key code gives the
/// code again.
pub proof fn lemma_config_name_round_trip(key_code: u16)
    requires
        config_name_of(key_code) is Some,
    ensures
        key_code_of(config_name_of(key_code)->0) == Some(key_code),
{
    lemma_names_spelled();
}

/// The table names and labels the same key codes, and no name leads to a code
/// outside them.
pub proof fn lemma_tables_agree(key_code: u16, name: Seq<char>)
    ensures
        config_name_of(key_code) is Some <==> display_of_code(key_code) is Some,
        key_code_of(name) == Some(key_code) ==> config_name_of(key_code) is Some,
{
}

/// Where the name that the settings write for a key code has a special
/// label, the label of the code is that label.
pub proof fn lemma_special_label_agrees(key_code: u16)
    requires
        config_name_of(key_code) is Some,
        special_display_of(config_name_of(key_code)->0) is Some,
    ensures
        display_of_code(key_code) == special_display_of(config_name_of(key_code)->0),
{
    lemma_names_spelled();
}

} // verus!
