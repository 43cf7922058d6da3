//! Rendering dates, times, and offsets in their ISO-8601 text forms.

use vstd::prelude::*;
use vstd::string::StringExecFns;

use crate::local::{Date, DateTime, Time};
use crate::offset;
use crate::offset::{sign_split_spec, Offset};

verus! {

/// The character for a single decimal digit.
pub open spec fn digit_char_spec(d: int) -> char {
    if d == 0 {
        '0'
    } else if d == 1 {
        '1'
    } else if d == 2 {
        '2'
    } else if d == 3 {
        '3'
    } else if d == 4 {
        '4'
    } else if d == 5 {
        '5'
    } else if d == 6 {
        '6'
    } else if d == 7 {
        '7'
    } else if d == 8 {
        '8'
    } else {
        '9'
    }
}

/// The decimal digits of a number, most significant first, with no sign
/// and no padding.
pub open spec fn dec_digits_spec(n: nat) -> Seq<char>
    decreases n,
{
    if n < 10 {
        seq![digit_char_spec(n as int)]
    } else {
        dec_digits_spec(n / 10) + seq![digit_char_spec((n % 10) as int)]
    }
}

/// The decimal digits of a number, left-padded with zeroes up to the
/// given width.
pub open spec fn zero_padded_spec(n: nat, width: int) -> Seq<char> {
    let digits = dec_digits_spec(n);
    if digits.len() >= width {
        digits
    } else {
        Seq::new((width - digits.len()) as nat, |i: int| '0') + digits
    }
}

/// Appends one decimal digit.
fn push_digit(out: &mut String, digit: u8)
    requires
        digit < 10,
    ensures
        final(out)@ == old(out)@ + seq![digit_char_spec(digit as int)],
{
    proof {
        reveal_strlit("0");
        reveal_strlit("1");
        reveal_strlit("2");
        reveal_strlit("3");
        reveal_strlit("4");
        reveal_strlit("5");
        reveal_strlit("6");
        reveal_strlit("7");
        reveal_strlit("8");
        reveal_strlit("9");
    }
    match digit {
        0 => out.append("0"),
        1 => out.append("1"),
        2 => out.append("2"),
        3 => out.append("3"),
        4 => out.append("4"),
        5 => out.append("5"),
        6 => out.append("6"),
        7 => out.append("7"),
        8 => out.append("8"),
        _ => out.append("9"),
    }
    proof {
        assert(out@ =~= old(out)@ + seq![digit_char_spec(digit as int)]);
    }
}

/// Appends a number's decimal digits, most significant first.
fn push_number(out: &mut String, n: u64)
    ensures
        final(out)@ == old(out)@ + dec_digits_spec(n as nat),
    decreases n,
{
    if n < 10 {
        push_digit(out, n as u8);
    } else {
        push_number(out, n / 10);
        push_digit(out, (n % 10) as u8);
        proof {
            assert(out@ =~= old(out)@ + dec_digits_spec(n as nat));
        }
    }
}

/// How many digits small numbers print with: the thresholds the padding
/// below needs.
proof fn lemma_digit_count(n: nat)
    ensures
        n < 10 ==> dec_digits_spec(n).len() == 1,
        10 <= n < 100 ==> dec_digits_spec(n).len() == 2,
        100 <= n < 1000 ==> dec_digits_spec(n).len() == 3,
        1000 <= n < 10000 ==> dec_digits_spec(n).len() == 4,
        n >= 10000 ==> dec_digits_spec(n).len() >= 5,
    decreases n,
{
    if n >= 10 {
        lemma_digit_count(n / 10);
    }
}

/// Appends a number's decimal digits, left-padded with zeroes up to the
/// given width.
fn push_number_padded(out: &mut String, n: u64, width: u64)
    requires
        1 <= width <= 4,
    ensures
        final(out)@ == old(out)@ + zero_padded_spec(n as nat, width as int),
{
    proof {
        reveal_strlit("0");
        lemma_digit_count(n as nat);
    }
    if width == 4 && n < 1000 {
        out.append("0");
    }
    if width >= 3 && n < 100 {
        out.append("0");
    }
    if width >= 2 && n < 10 {
        out.append("0");
    }
    push_number(out, n);
    proof {
        assert(out@ =~= old(out)@ + zero_padded_spec(n as nat, width as int));
    }
}

/// The ISO-8601 text for a time: two digits each of hours, minutes, and
/// seconds, then three of milliseconds.
pub open spec fn iso_time_spec(time: Time) -> Seq<char> {
    zero_padded_spec(time.hour_spec() as nat, 2) + seq![':'] + zero_padded_spec(
        time.minute_spec() as nat,
        2,
    ) + seq![':'] + zero_padded_spec(time.second_spec() as nat, 2) + seq!['.'] + zero_padded_spec(
        time.millisecond_spec() as nat,
        3,
    )
}

/// The ISO-8601 text for a date. Years from 0 to 9999 take four digits;
/// any other year carries an explicit sign and at least four digits.
pub open spec fn iso_date_spec(date: Date) -> Seq<char> {
    let year = date.year_spec();
    let rest = seq!['-'] + zero_padded_spec((date.month_spec().index_spec() + 1) as nat, 2)
        + seq!['-'] + zero_padded_spec(date.day_spec() as nat, 2);
    if 0 <= year <= 9999 {
        zero_padded_spec(year as nat, 4) + rest
    } else if year > 9999 {
        seq!['+'] + zero_padded_spec(year as nat, 4) + rest
    } else {
        seq!['-'] + zero_padded_spec((-year) as nat, 4) + rest
    }
}

/// The ISO-8601 text for a datetime: the date, a `T`, then the time.
pub open spec fn iso_datetime_spec(datetime: DateTime) -> Seq<char> {
    iso_date_spec(datetime.date_spec()) + seq!['T'] + iso_time_spec(datetime.time_spec())
}

/// The ISO-8601 text for an offset: `Z` for UTC, otherwise a sign and the
/// non-zero tail of hours, minutes, and seconds.
pub open spec fn iso_offset_spec(o: Offset) -> Seq<char> {
    if o.seconds_opt_spec() is None {
        seq!['Z']
    } else {
        let hours = sign_split_spec(sign_split_spec(o.offset_value_spec(), 60).0, 60).0;
        let minutes = sign_split_spec(sign_split_spec(o.offset_value_spec(), 60).0, 60).1;
        let seconds = sign_split_spec(o.offset_value_spec(), 60).1;
        let sign = seq![if o.offset_value_spec() < 0 { '-' } else { '+' }];
        if minutes == 0 && seconds == 0 {
            sign + zero_padded_spec(abs_spec(hours), 2)
        } else if seconds == 0 {
            sign + zero_padded_spec(abs_spec(hours), 2) + seq![':'] + zero_padded_spec(
                abs_spec(minutes),
                2,
            )
        } else {
            sign + zero_padded_spec(abs_spec(hours), 2) + seq![':'] + zero_padded_spec(
                abs_spec(minutes),
                2,
            ) + seq![':'] + zero_padded_spec(abs_spec(seconds), 2)
        }
    }
}

/// The ISO-8601 text for an offset datetime: the local fields, then the
/// offset.
pub open spec fn iso_offset_datetime_spec(datetime: offset::DateTime) -> Seq<char> {
    iso_datetime_spec(datetime.local) + iso_offset_spec(datetime.offset)
}

/// A number's distance from zero.
pub open spec fn abs_spec(n: int) -> nat {
    if n >= 0 {
        n as nat
    } else {
        (-n) as nat
    }
}

/// An ISO-8601 rendering, ready to be taken as a `String`.
pub struct ISOString {
    text: String,
}

impl View for ISOString {
    type V = Seq<char>;

    closed spec fn view(&self) -> Seq<char> {
        self.text@
    }
}

impl ISOString {
    /// The rendered text.
    pub fn to_string(&self) -> (r: String)
        ensures
            r@ == self@,
    {
        self.text.clone()
    }
}

/// The ISO-8601 text form of a calendar value.
pub trait ISO: Sized {
    /// The exact text `iso` renders.
    spec fn iso_spec(&self) -> Seq<char>;

    /// What must hold of the value before it can be rendered.
    spec fn iso_req(&self) -> bool;

    /// Renders the value in its ISO-8601 text form.
    fn iso(&self) -> (r: ISOString)
        requires
            self.iso_req(),
        ensures
            r@ == self.iso_spec(),
    ;
}

impl ISO for Date {
    open spec fn iso_spec(&self) -> Seq<char> {
        iso_date_spec(*self)
    }

    open spec fn iso_req(&self) -> bool {
        self.wf()
    }

    fn iso(&self) -> (r: ISOString) {
        proof {
            reveal_strlit("-");
            reveal_strlit("+");
        }
        let mut text = String::new();
        let year = self.year().0;
        if year < 0 {
            text.append("-");
            push_number_padded(&mut text, (-year) as u64, 4);
        } else if year > 9999 {
            text.append("+");
            push_number_padded(&mut text, year as u64, 4);
        } else {
            push_number_padded(&mut text, year as u64, 4);
        }
        text.append("-");
        push_number_padded(&mut text, self.month().months_from_january() as u64 + 1, 2);
        text.append("-");
        push_number_padded(&mut text, self.day() as u64, 2);
        proof {
            assert(text@ =~= self.iso_spec());
        }
        ISOString { text }
    }
}

impl ISO for Time {
    open spec fn iso_spec(&self) -> Seq<char> {
        iso_time_spec(*self)
    }

    open spec fn iso_req(&self) -> bool {
        self.wf()
    }

    fn iso(&self) -> (r: ISOString) {
        proof {
            reveal_strlit(":");
            reveal_strlit(".");
        }
        let mut text = String::new();
        push_number_padded(&mut text, self.hour() as u64, 2);
        text.append(":");
        push_number_padded(&mut text, self.minute() as u64, 2);
        text.append(":");
        push_number_padded(&mut text, self.second() as u64, 2);
        text.append(".");
        push_number_padded(&mut text, self.millisecond() as u64, 3);
        proof {
            assert(text@ =~= self.iso_spec());
        }
        ISOString { text }
    }
}

impl ISO for DateTime {
    open spec fn iso_spec(&self) -> Seq<char> {
        iso_datetime_spec(*self)
    }

    open spec fn iso_req(&self) -> bool {
        self.wf()
    }

    fn iso(&self) -> (r: ISOString) {
        proof {
            reveal_strlit("T");
        }
        let mut text = self.date().iso().to_string();
        text.append("T");
        let time_part = self.time().iso().to_string();
        text.append(time_part.as_str());
        proof {
            assert(text@ =~= self.iso_spec());
        }
        ISOString { text }
    }
}

impl ISO for Offset {
    open spec fn iso_spec(&self) -> Seq<char> {
        iso_offset_spec(*self)
    }

    open spec fn iso_req(&self) -> bool {
        self.wf()
    }

    fn iso(&self) -> (r: ISOString) {
        proof {
            reveal_strlit("Z");
            reveal_strlit("-");
            reveal_strlit("+");
            reveal_strlit(":");
        }
        let mut text = String::new();
        if self.is_utc() {
            text.append("Z");
            proof {
                assert(text@ =~= self.iso_spec());
            }
            return ISOString { text };
        }

        if self.is_negative() {
            text.append("-");
        } else {
            text.append("+");
        }

        let hours = self.hours();
        let minutes = self.minutes();
        let seconds = self.seconds();
        let hours_abs: u64 = if hours < 0 {
            (-(hours as i64)) as u64
        } else {
            hours as u64
        };
        let minutes_abs: u64 = if minutes < 0 {
            (-(minutes as i64)) as u64
        } else {
            minutes as u64
        };
        let seconds_abs: u64 = if seconds < 0 {
            (-(seconds as i64)) as u64
        } else {
            seconds as u64
        };

        push_number_padded(&mut text, hours_abs, 2);
        if minutes_abs != 0 || seconds_abs != 0 {
            text.append(":");
            push_number_padded(&mut text, minutes_abs, 2);
            if seconds_abs != 0 {
                text.append(":");
                push_number_padded(&mut text, seconds_abs, 2);
            }
        }
        proof {
            assert(text@ =~= self.iso_spec());
        }
        ISOString { text }
    }
}

impl ISO for offset::DateTime {
    open spec fn iso_spec(&self) -> Seq<char> {
        iso_offset_datetime_spec(*self)
    }

    open spec fn iso_req(&self) -> bool {
        self.local.wf() && self.offset.wf()
    }

    fn iso(&self) -> (r: ISOString) {
        let mut text = self.local.iso().to_string();
        let offset_part = self.offset.iso().to_string();
        text.append(offset_part.as_str());
        proof {
            assert(text@ =~= self.iso_spec());
        }
        ISOString { text }
    }
}

} // verus!
