//! Log timestamps.

use vstd::prelude::*;
use crate::utils::chars::push_char;

verus! {

/// The decimal digit character for `d`.
pub open spec fn digit(d: int) -> char {
    if d == 0 { '0' }
    else if d == 1 { '1' }
    else if d == 2 { '2' }
    else if d == 3 { '3' }
    else if d == 4 { '4' }
    else if d == 5 { '5' }
    else if d == 6 { '6' }
    else if d == 7 { '7' }
    else if d == 8 { '8' }
    else { '9' }
}

/// `x` in two decimal digits (for `x < 100`).
pub open spec fn two_digits(x: int) -> Seq<char> {
    seq![digit(x / 10), digit(x % 10)]
}

/// `x` in three decimal digits (for `x < 1000`).
pub open spec fn three_digits(x: int) -> Seq<char> {
    seq![digit(x / 100), digit((x / 10) % 10), digit(x % 10)]
}

/// `HH:MM:SS.mmm` for a time `ms` milliseconds after the start, with hours
/// taken modulo 24.
pub open spec fn timestamp_text(ms: int) -> Seq<char> {
    let secs = ms / 1000;
    two_digits((secs / 3600) % 24) + seq![':'] + two_digits((secs / 60) % 60) + seq![':']
        + two_digits(secs % 60) + seq!['.'] + three_digits(ms % 1000)
}

pub(crate) fn digit_char(d: u32) -> (c: char)
    requires
        d < 10,
    ensures
        c == digit(d as int),
{
    match d {
        0 => '0',
        1 => '1',
        2 => '2',
        3 => '3',
        4 => '4',
        5 => '5',
        6 => '6',
        7 => '7',
        8 => '8',
        _ => '9',
    }
}

fn push_two(s: &mut String, x: u32)
    requires
        x < 100,
    ensures
        final(s)@ == old(s)@ + two_digits(x as int),
{
    push_char(s, digit_char(x / 10));
    push_char(s, digit_char(x % 10));
}

fn push_three(s: &mut String, x: u32)
    requires
        x < 1000,
    ensures
        final(s)@ == old(s)@ + three_digits(x as int),
{
    push_char(s, digit_char(x / 100));
    push_char(s, digit_char((x / 10) % 10));
    push_char(s, digit_char(x % 10));
}

/// The timestamp `HH:MM:SS.mmm` of a moment `elapsed_ms` milliseconds after
/// program start (hours 0-23).
pub fn format_timestamp(elapsed_ms: u128) -> (r: String)
    ensures
        r@ == timestamp_text(elapsed_ms as int),
{
    let total_secs = elapsed_ms / 1000;
    let ms = (elapsed_ms % 1000) as u32;
    let secs = (total_secs % 60) as u32;
    let mins = ((total_secs / 60) % 60) as u32;
    let hours = ((total_secs / 3600) % 24) as u32;
    let mut s = String::new();
    push_two(&mut s, hours);
    push_char(&mut s, ':');
    push_two(&mut s, mins);
    push_char(&mut s, ':');
    push_two(&mut s, secs);
    push_char(&mut s, '.');
    push_three(&mut s, ms);
    assert(s@ =~= timestamp_text(elapsed_ms as int));
    s
}

} // verus!
