//! What the client makes of a line that the user typed.

use vstd::prelude::*;
use vstd::utf8::encode_utf8;
use crate::text::{lowercase, to_lowercase};

verus! {

/// The answer that a lower-cased line gives to a question of yes or no:
/// the default for an empty line, yes for `y` and `yes`, no for `n` and
/// `no`, and no answer for any other line.
pub open spec fn confirm_of(lowered: Seq<char>, default: bool) -> Option<bool> {
    if lowered == ""@ {
        Some(default)
    } else if lowered == "y"@ || lowered == "yes"@ {
        Some(true)
    } else if lowered == "n"@ || lowered == "no"@ {
        Some(false)
    } else {
        None
    }
}

/// The answer that a lower-cased line gives to a question of yes or no.
pub fn read_confirm(lowered: &str, default: bool) -> (r: Option<bool>)
    ensures
        r == confirm_of(lowered@, default),
{
    let line = String::from_str(lowered);
    if line == String::from_str("") {
        Some(default)
    } else if line == String::from_str("y") || line == String::from_str("yes") {
        Some(true)
    } else if line == String::from_str("n") || line == String::from_str("no") {
        Some(false)
    } else {
        None
    }
}

/// The answer that the line `resp` gives to a question of yes or no, the
/// case of its letters set aside.
pub fn get_confirm(resp: &str, default: bool) -> (r: Option<bool>)
    ensures
        r == confirm_of(lowercase(resp@), default),
{
    let lowered = to_lowercase(resp);
    read_confirm(lowered.as_str(), default)
}

/// The line that was typed, or nothing where it is empty.
pub fn get_input_with_null(text: String) -> (r: Option<String>)
    ensures
        r == (if text@.len() == 0 {
            None
        } else {
            Some(text)
        }),
{
    if text.as_str().unicode_len() == 0 {
        None
    } else {
        Some(text)
    }
}

/// The complaint about a line that is no number of the kind `kind_name`.
pub open spec fn not_a_number(text: Seq<char>, kind_name: Seq<char>) -> Seq<char> {
    "failed to convert value "@ + text + " to "@ + kind_name + "."@
}

/// What the client makes of a line that should hold a number, `parsed`
/// being the number that the line was read as, if it could be read as
/// one: a complaint and no number for a line that could not be read, the
/// number for one that could, and neither where nothing was typed.
pub fn get_input_number<V>(text: &Option<String>, parsed: Option<V>, kind_name: &str) -> (r: (
    Option<String>,
    Option<V>,
))
    ensures
        match *text {
            None => r.0.is_none() && r.1.is_none(),
            Some(line) => match parsed {
                Some(v) => r.0.is_none() && r.1 == Some(v),
                None => r.0.is_some() && r.0.unwrap()@ == not_a_number(line@, kind_name@)
                    && r.1.is_none(),
            },
        },
{
    match text {
        None => (None, None),
        Some(line) => match parsed {
            Some(v) => (None, Some(v)),
            None => {
                let mut complaint = String::from_str("failed to convert value ");
                complaint.append(line.as_str());
                complaint.append(" to ");
                complaint.append(kind_name);
                complaint.append(".");
                (Some(complaint), None)
            },
        },
    }
}

/// The part of a secret that a prompt shows: the characters from the place
/// on that lies five before the number of bytes of the text; nothing of a
/// text of fewer than five bytes.
pub open spec fn shown_tail(value: Seq<char>) -> Seq<char> {
    let bytes = encode_utf8(value).len();
    if 5 <= bytes && bytes - 5 <= value.len() {
        value.subrange(bytes - 5, value.len() as int)
    } else {
        Seq::empty()
    }
}

/// What a prompt shows of the value that an empty line stands for: the
/// value in square brackets, a secret with ten `x` in place of all but its
/// tail, and nothing where there is no such value.
pub open spec fn default_hint(default_value: Option<Seq<char>>, is_masking_default: bool) -> Seq<
    char,
> {
    match default_value {
        None => Seq::empty(),
        Some(value) => if is_masking_default {
            " ["@ + "xxxxxxxxxx"@ + shown_tail(value) + "]"@
        } else {
            " ["@ + value + "]"@
        },
    }
}

/// The prompt for a text: the question, what an empty line stands for,
/// and a colon.
pub fn prompt_with_default(
    message_without_separator: &str,
    default_value: &Option<String>,
    is_masking_default: bool,
) -> (r: String)
    ensures
        r@ == message_without_separator@ + default_hint(
            default_value.deep_view(),
            is_masking_default,
        ) + ": "@,
{
    let mut r = String::from_str(message_without_separator);
    match default_value {
        None => {
            assert(r@ =~= message_without_separator@ + Seq::<char>::empty());
        },
        Some(value) => {
            let ghost head = message_without_separator@;
            r.append(" [");
            if is_masking_default {
                r.append("xxxxxxxxxx");
                let bytes = value.as_str().as_bytes().len();
                let chars = value.as_str().unicode_len();
                assert(bytes == encode_utf8(value@).len());
                if bytes >= 5 && bytes - 5 <= chars {
                    r.append(value.as_str().substring_char(bytes - 5, chars));
                    assert(r@ =~= head + (" ["@ + "xxxxxxxxxx"@ + shown_tail(value@)));
                } else {
                    assert(r@ =~= head + (" ["@ + "xxxxxxxxxx"@ + shown_tail(value@)));
                }
                r.append("]");
                assert(r@ =~= head + (" ["@ + "xxxxxxxxxx"@ + shown_tail(value@) + "]"@));
            } else {
                r.append(value.as_str());
                r.append("]");
                assert(r@ =~= head + (" ["@ + value@ + "]"@));
            }
        },
    }
    r.append(": ");
    r
}

/// The text that the user chose: what was typed, or the default where
/// nothing was typed.
pub fn input_str_with_null_and_default(entered: Option<String>, default_value: &Option<String>) -> (r:
    Option<String>)
    ensures
        r.deep_view() == (if entered.is_some() {
            entered.deep_view()
        } else {
            default_value.deep_view()
        }),
{
    match entered {
        Some(text) => Some(text),
        None => match default_value {
            Some(value) => Some(value.clone()),
            None => None,
        },
    }
}

/// Whether history is kept where the profile leaves it open: it is.
pub open spec fn history_default(default_flag: Option<bool>) -> bool {
    default_flag != Some(false)
}

/// The question whether history is to be kept, with the answer that an
/// empty line stands for written as the capital letter.
pub fn use_history_prompt(default_flag: &Option<bool>) -> (r: String)
    ensures
        r@ == (if history_default(*default_flag) {
            "use history [Y/n]: "@
        } else {
            "use history [y/N]: "@
        }),
{
    match default_flag {
        Some(false) => String::from_str("use history [y/N]: "),
        _ => String::from_str("use history [Y/n]: "),
    }
}

/// The answer of the line `resp` to the question whether history is to be
/// kept; no answer where the line is none, and the question is asked again.
pub fn input_use_history(default_flag: &Option<bool>, resp: &str) -> (r: Option<bool>)
    ensures
        r == confirm_of(lowercase(resp@), history_default(*default_flag)),
{
    let default = match default_flag {
        Some(false) => false,
        _ => true,
    };
    get_confirm(resp, default)
}

/// The answer of the line `resp` to the question whether the sampling
/// parameters are to be changed: an empty line says no.
pub fn input_is_default_option(resp: &str) -> (r: Option<bool>)
    ensures
        r == confirm_of(lowercase(resp@), false),
{
    get_confirm(resp, false)
}

/// The number that the user chose: the one that was typed, or the default
/// where nothing was typed.
pub fn input_number_with_default<V: Copy>(entered: Option<V>, default_value: &Option<V>) -> (r:
    Option<V>)
    ensures
        r == (if entered.is_some() {
            entered
        } else {
            *default_value
        }),
{
    match entered {
        Some(value) => Some(value),
        None => *default_value,
    }
}

} // verus!
