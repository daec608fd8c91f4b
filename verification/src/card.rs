//! What a session's card says: its title and the values of its fields.

use crate::text::{chars_of, is_prefix, starts_with, string_of_range};
use vstd::prelude::*;
use vstd::string::*;

verus! {

/// How many characters of a field's value a card shows, at most.
pub const VALUE_CHARS: usize = 25;

/// How many characters of an error the session editor shows, at most.
pub const ERROR_CHARS: usize = 40;

/// The sign before the name of a session whose terminal waits for the user.
pub const WAITING_SIGN: &'static str = " ? ";

/// The sign before the name of a session whose terminal lives.
pub const RUNNING_SIGN: &'static str = " $ ";

/// What the terminal of a session does.
#[derive(Debug, Clone, Copy, PartialEq, Eq, Structural)]
pub enum Mark {
    /// It shows a prompt that waits for the user.
    Waiting,
    /// It lives and shows no prompt.
    Running,
    /// None lives.
    Idle,
}

/// What the terminal of a session does, from whether it waits and whether it
/// lives: waiting counts before living.
pub fn mark(waiting: bool, active: bool) -> (r: Mark)
    ensures
        r == if waiting {
            Mark::Waiting
        } else if active {
            Mark::Running
        } else {
            Mark::Idle
        },
{
    if waiting {
        Mark::Waiting
    } else if active {
        Mark::Running
    } else {
        Mark::Idle
    }
}

/// The title of a card: the name between blanks, behind the sign of what
/// the terminal does.
pub open spec fn title_of(name: Seq<char>, mark: Mark) -> Seq<char> {
    match mark {
        Mark::Waiting => WAITING_SIGN@ + name + " "@,
        Mark::Running => RUNNING_SIGN@ + name + " "@,
        Mark::Idle => " "@ + name + " "@,
    }
}

/// The title of a card.
pub fn card_title(name: &str, mark: Mark) -> (r: String)
    ensures
        r@ == title_of(name@, mark),
{
    let mut r = match mark {
        Mark::Waiting => String::from_str(WAITING_SIGN),
        Mark::Running => String::from_str(RUNNING_SIGN),
        Mark::Idle => String::from_str(" "),
    };
    r.append(name);
    r.append(" ");
    r
}

/// Whether a value reads as a web address: it begins with `http://` or
/// `https://`.
pub fn is_url(value: &str) -> (r: bool)
    ensures
        r == (is_prefix("http://"@, value@) || is_prefix("https://"@, value@)),
{
    let chars = chars_of(value);
    starts_with(&chars, &chars_of("http://")) || starts_with(&chars, &chars_of("https://"))
}

/// A text cut to its first `max` characters, with an ellipsis behind them
/// where something was cut.
pub open spec fn shortened_text(value: Seq<char>, max: int) -> Seq<char> {
    if value.len() > max {
        value.subrange(0, max).push('\u{2026}')
    } else {
        value
    }
}

/// A text cut to its first `max` characters, with an ellipsis behind them
/// where something was cut.
pub fn shortened(value: &str, max: usize) -> (r: String)
    ensures
        r@ == shortened_text(value@, max as int),
{
    let chars = chars_of(value);
    if chars.len() > max {
        let mut r = string_of_range(&chars, 0, max);
        r.append("\u{2026}");
        proof {
            reveal_strlit("\u{2026}");
            assert("\u{2026}"@ =~= seq!['\u{2026}']);
        }
        r
    } else {
        String::from_str(value)
    }
}

/// The first `max` characters of a text.
pub fn first_chars(value: &str, max: usize) -> (r: String)
    ensures
        r@ == if value@.len() > max {
            value@.subrange(0, max as int)
        } else {
            value@
        },
{
    let chars = chars_of(value);
    if chars.len() > max {
        string_of_range(&chars, 0, max)
    } else {
        String::from_str(value)
    }
}

} // verus!
