use vstd::prelude::*;

use crate::clock::ClockData;
use vstd::string::StringSliceAdditionalSpecFns;
use embedded_sdmmc::Timestamp;
use pcf8563::DateTime;

verus! {

/// The decimal digits of `n` in ASCII, most significant first, without
/// leading zeros.
pub open spec fn decimal(n: nat) -> Seq<u8>
    decreases n,
{
    if n < 10 {
        seq![(n + 48) as u8]
    } else {
        decimal(n / 10).push((n % 10 + 48) as u8)
    }
}

/// The digits of `n`, with a leading zero below ten.
pub open spec fn two_digits(n: nat) -> Seq<u8> {
    if n < 10 {
        seq![48u8] + decimal(n)
    } else {
        decimal(n)
    }
}

/// The name of a day of the week, counted from Sunday.
pub open spec fn day_name(weekday: u8) -> &'static str
    recommends
        weekday < 7,
{
    if weekday == 0 {
        "Sunday"
    } else if weekday == 1 {
        "Monday"
    } else if weekday == 2 {
        "Tuesday"
    } else if weekday == 3 {
        "Wednesday"
    } else if weekday == 4 {
        "Thursday"
    } else if weekday == 5 {
        "Friday"
    } else {
        "Saturday"
    }
}

/// Name of the daily log file: year, month and day, then `.log`
/// (`20240101.log`).
pub open spec fn file_name_text(t: Timestamp) -> Seq<u8> {
    decimal((t.year_since_1970 + 1970) as nat) + two_digits((t.zero_indexed_month + 1) as nat)
        + two_digits((t.zero_indexed_day + 1) as nat) + ".log".spec_bytes()
}

/// One line of the log file: `2024-1-1 12:00:05 7` and a line break.
pub open spec fn file_line_text(t: Timestamp, counter: nat) -> Seq<u8> {
    decimal((t.year_since_1970 + 1970) as nat) + "-".spec_bytes()
        + decimal((t.zero_indexed_month + 1) as nat) + "-".spec_bytes()
        + decimal((t.zero_indexed_day + 1) as nat) + " ".spec_bytes()
        + decimal(t.hours as nat) + ":".spec_bytes()
        + two_digits(t.minutes as nat) + ":".spec_bytes()
        + two_digits(t.seconds as nat) + " ".spec_bytes()
        + decimal(counter) + "\n".spec_bytes()
}

/// Date and time for the status display: `1.1.2024 12:00:05`.
pub open spec fn date_time_text(t: Timestamp) -> Seq<u8> {
    decimal((t.zero_indexed_day + 1) as nat) + ".".spec_bytes()
        + decimal((t.zero_indexed_month + 1) as nat) + ".".spec_bytes()
        + decimal((t.year_since_1970 + 1970) as nat) + " ".spec_bytes()
        + decimal(t.hours as nat) + ":".spec_bytes()
        + two_digits(t.minutes as nat) + ":".spec_bytes()
        + two_digits(t.seconds as nat)
}

/// A real-time clock reading on three lines: `01.01.2024`, `12:00:05`, and
/// the name of the day.
pub open spec fn date_text(d: DateTime) -> Seq<u8> {
    two_digits(d.day as nat) + ".".spec_bytes() + two_digits(d.month as nat) + ".20".spec_bytes()
        + two_digits(d.year as nat) + "\n".spec_bytes() + two_digits(d.hours as nat)
        + ":".spec_bytes() + two_digits(d.minutes as nat) + ":".spec_bytes() + two_digits(
        d.seconds as nat,
    ) + "\n".spec_bytes() + day_name(d.weekday).spec_bytes()
}

/// Appends the decimal digits of `n`.
pub fn write_decimal(output: &mut Vec<u8>, n: u64)
    ensures
        final(output)@ == old(output)@ + decimal(n as nat),
    decreases n,
{
    let ghost before = output@;
    if n >= 10 {
        write_decimal(output, n / 10);
    }
    output.push((n % 10) as u8 + 48);
    proof {
        if n >= 10 {
            assert(output@ =~= before + decimal(n as nat));
        } else {
            assert(output@ =~= before + decimal(n as nat));
        }
    }
}

/// Appends the digits of `n`, with a leading zero below ten.
fn write_two_digits(output: &mut Vec<u8>, n: u64)
    ensures
        final(output)@ == old(output)@ + two_digits(n as nat),
{
    let ghost before = output@;
    if n < 10 {
        output.push(48);
    }
    write_decimal(output, n);
    proof {
        if n < 10 {
            assert(output@ =~= before + two_digits(n as nat));
        }
    }
}

/// Appends the bytes of `s`.
fn write_text(output: &mut Vec<u8>, s: &str)
    ensures
        final(output)@ == old(output)@ + s.spec_bytes(),
{
    let ghost before = output@;
    let bytes = s.as_bytes();
    let mut i: usize = 0;
    while i < bytes.len()
        invariant
            i <= bytes@.len(),
            output@ == before + bytes@.take(i as int),
        decreases bytes@.len() - i,
    {
        output.push(bytes[i]);
        i += 1;
        assert(output@ =~= before + bytes@.take(i as int));
    }
    assert(bytes@.take(i as int) =~= bytes@);
}

/// Appends the name of the daily log file for the clock's date.
pub fn write_file_name(output: &mut Vec<u8>, time: &ClockData)
    ensures
        final(output)@ == old(output)@ + file_name_text(time@.0),
{
    let ghost before = output@;
    write_decimal(output, time.year() as u64);
    write_two_digits(output, time.month() as u64);
    write_two_digits(output, time.day() as u64);
    write_text(output, ".log");
    assert(output@ =~= before + file_name_text(time@.0));
}

/// Appends one log line: the clock's date and time and the counter.
pub fn write_file_line(output: &mut Vec<u8>, time: &ClockData, counter: usize)
    ensures
        final(output)@ == old(output)@ + file_line_text(time@.0, counter as nat),
{
    let ghost before = output@;
    write_decimal(output, time.year() as u64);
    write_text(output, "-");
    write_decimal(output, time.month() as u64);
    write_text(output, "-");
    write_decimal(output, time.day() as u64);
    write_text(output, " ");
    write_decimal(output, time.hours() as u64);
    write_text(output, ":");
    write_two_digits(output, time.minutes() as u64);
    write_text(output, ":");
    write_two_digits(output, time.seconds() as u64);
    write_text(output, " ");
    write_decimal(output, counter as u64);
    write_text(output, "\n");
    assert(output@ =~= before + file_line_text(time@.0, counter as nat));
}

/// Appends the clock's date and time as the status display shows them.
pub fn write_date_time(output: &mut Vec<u8>, time: &ClockData)
    ensures
        final(output)@ == old(output)@ + date_time_text(time@.0),
{
    let ghost before = output@;
    write_decimal(output, time.day() as u64);
    write_text(output, ".");
    write_decimal(output, time.month() as u64);
    write_text(output, ".");
    write_decimal(output, time.year() as u64);
    write_text(output, " ");
    write_decimal(output, time.hours() as u64);
    write_text(output, ":");
    write_two_digits(output, time.minutes() as u64);
    write_text(output, ":");
    write_two_digits(output, time.seconds() as u64);
    assert(output@ =~= before + date_time_text(time@.0));
}

/// The name of a day of the week, counted from Sunday.
pub fn weekday_name(weekday: u8) -> (r: &'static str)
    requires
        weekday < 7,
    ensures
        r == day_name(weekday),
{
    if weekday == 0 {
        "Sunday"
    } else if weekday == 1 {
        "Monday"
    } else if weekday == 2 {
        "Tuesday"
    } else if weekday == 3 {
        "Wednesday"
    } else if weekday == 4 {
        "Thursday"
    } else if weekday == 5 {
        "Friday"
    } else {
        "Saturday"
    }
}

/// Appends a real-time clock reading as the clock display shows it.
pub fn render_date(destination: &mut Vec<u8>, datetime: DateTime)
    requires
        datetime.weekday < 7,
    ensures
        final(destination)@ == old(destination)@ + date_text(datetime),
{
    let ghost before = destination@;
    write_two_digits(destination, datetime.day as u64);
    write_text(destination, ".");
    write_two_digits(destination, datetime.month as u64);
    write_text(destination, ".20");
    write_two_digits(destination, datetime.year as u64);
    write_text(destination, "\n");
    write_two_digits(destination, datetime.hours as u64);
    write_text(destination, ":");
    write_two_digits(destination, datetime.minutes as u64);
    write_text(destination, ":");
    write_two_digits(destination, datetime.seconds as u64);
    write_text(destination, "\n");
    write_text(destination, weekday_name(datetime.weekday));
    assert(destination@ =~= before + date_text(datetime));
}

/// The UTF-8 encoding of the character whose code point is the byte `b`.
pub open spec fn byte_as_char(b: u8) -> Seq<u8> {
    if b < 128 {
        seq![b]
    } else {
        seq![(192 + b / 64) as u8, (128 + b % 64) as u8]
    }
}

/// Each byte shown as the character of that code point, in UTF-8.
pub open spec fn bytes_as_chars(bytes: Seq<u8>) -> Seq<u8>
    decreases bytes.len(),
{
    if bytes.len() == 0 {
        Seq::empty()
    } else {
        bytes_as_chars(bytes.drop_last()) + byte_as_char(bytes.last())
    }
}

/// One file of a directory listing: `* NAME` on a line, then the leading
/// bytes of the file as characters, ended by a line break if there are any.
pub open spec fn file_entry_text(file_name: Seq<u8>, bytes: Seq<u8>) -> Seq<u8> {
    "* ".spec_bytes() + file_name + "\n".spec_bytes() + bytes_as_chars(bytes) + if bytes.len()
        > 0 {
        "\n".spec_bytes()
    } else {
        Seq::empty()
    }
}

/// Appends a listed file with its leading bytes.
pub fn write_file_data(file_name: &str, bytes: &[u8], out: &mut Vec<u8>)
    ensures
        final(out)@ == old(out)@ + file_entry_text(file_name.spec_bytes(), bytes@),
{
    let ghost before = out@;
    write_text(out, "* ");
    write_text(out, file_name);
    write_text(out, "\n");
    let ghost head = out@;
    let mut i: usize = 0;
    while i < bytes.len()
        invariant
            i <= bytes@.len(),
            out@ == head + bytes_as_chars(bytes@.take(i as int)),
        decreases bytes@.len() - i,
    {
        let b = bytes[i];
        if b < 128 {
            out.push(b);
        } else {
            out.push(192 + b / 64);
            out.push(128 + b % 64);
        }
        assert(bytes@.take(i + 1).drop_last() =~= bytes@.take(i as int));
        i += 1;
        assert(out@ =~= head + bytes_as_chars(bytes@.take(i as int)));
    }
    assert(bytes@.take(i as int) =~= bytes@);
    if bytes.len() > 0 {
        write_text(out, "\n");
    }
    assert(out@ =~= before + file_entry_text(file_name.spec_bytes(), bytes@));
}

} // verus!
