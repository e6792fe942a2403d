//! The settings of an interface, as its files under `/sys/class/net` give
//! them.
//!
//! Each setting is one small file. A switch holds the word `enabled` when
//! it is on; a numeric setting holds a number. A file that cannot be read
//! gives no value; the caller puts 0 in the place of a switch and
//! not-a-number in the place of a number.

use crate::number::{
    is_number, not_a_number, not_a_number_text, number, one, one_text, zero, zero_text,
};
use crate::text::{same_chars, to_chars, to_text, trim, trimmed};
use vstd::prelude::*;
use vstd::string::StringExecFns;

verus! {

/// The word that a switch holds when it is on.
pub open spec fn enabled() -> Seq<char> {
    seq!['e', 'n', 'a', 'b', 'l', 'e', 'd']
}

/// What the content of a switch reads as: 1 for `enabled`, 0 for anything
/// else.
pub open spec fn flag_of(content: Seq<char>) -> Seq<char> {
    if trim(content) == enabled() {
        one()
    } else {
        zero()
    }
}

/// What the content of a numeric setting reads as, where it holds a
/// number.
pub open spec fn number_of(content: Seq<char>) -> Option<Seq<char>> {
    if is_number(trim(content)) {
        Some(trim(content))
    } else {
        None
    }
}

/// The reading of a switch whose file may be missing.
pub open spec fn flag_or_zero(content: Option<Seq<char>>) -> Seq<char> {
    match content {
        Some(c) => flag_of(c),
        None => zero(),
    }
}

/// The reading of a numeric setting whose file may be missing or hold no
/// number.
pub open spec fn number_or_nan(content: Option<Seq<char>>) -> Seq<char> {
    match content {
        Some(c) => match number_of(c) {
            Some(n) => n,
            None => not_a_number(),
        },
        None => not_a_number(),
    }
}

/// The path of a settings file of an interface.
pub open spec fn path_of(device: Seq<char>, file: Seq<char>) -> Seq<char> {
    "/sys/class/net/"@ + device + "/mesh/"@ + file
}

/// Reads a switch: 1 if the file holds `enabled`, 0 if it holds anything
/// else, nothing if there is no content.
pub fn decode_bool(content: Option<&str>) -> (r: Option<String>)
    ensures
        match content {
            Some(c) => r matches Some(v) && v@ == flag_of(c@),
            None => r is None,
        },
        r matches Some(v) ==> is_number(v@),
{
    match content {
        Some(c) => {
            let chars = to_chars(c);
            let word: Vec<char> = vec!['e', 'n', 'a', 'b', 'l', 'e', 'd'];
            assert(word@ =~= enabled());
            if same_chars(trimmed(chars.as_slice()), word.as_slice()) {
                Some(one_text())
            } else {
                Some(zero_text())
            }
        },
        None => None,
    }
}

/// Reads a numeric setting: the number that the file holds, nothing if
/// there is no content or the content is no number.
pub fn decode_number(content: Option<&str>) -> (r: Option<String>)
    ensures
        match content {
            Some(c) => match r {
                Some(v) => number_of(c@) == Some(v@),
                None => number_of(c@) is None,
            },
            None => r is None,
        },
        r matches Some(v) ==> is_number(v@),
{
    match content {
        Some(c) => {
            let chars = to_chars(c);
            let t = trimmed(chars.as_slice());
            if number(t) {
                Some(to_text(t))
            } else {
                None
            }
        },
        None => None,
    }
}

/// The reading of a switch, with 0 where there is no content.
pub fn flag_reading(content: Option<&str>) -> (r: String)
    ensures
        r@ == flag_or_zero(
            match content {
                Some(c) => Some(c@),
                None => None,
            },
        ),
        is_number(r@),
{
    match decode_bool(content) {
        Some(v) => v,
        None => zero_text(),
    }
}

/// The reading of a numeric setting, with not-a-number where there is no
/// content or no number in it.
pub fn number_reading(content: Option<&str>) -> (r: String)
    ensures
        r@ == number_or_nan(
            match content {
                Some(c) => Some(c@),
                None => None,
            },
        ),
        is_number(r@),
{
    match decode_number(content) {
        Some(v) => v,
        None => not_a_number_text(),
    }
}

/// The path of a settings file of an interface:
/// `/sys/class/net/<device>/mesh/<file>`.
pub fn setting_path(device: &str, file: &str) -> (r: String)
    ensures
        r@ == path_of(device@, file@),
{
    let mut path = String::from_str("/sys/class/net/");
    path.append(device);
    path.append("/mesh/");
    path.append(file);
    path
}

} // verus!
