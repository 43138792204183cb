//! The kernel logger: messages at or above the selected level are written to the console, each
//! on its own line behind a `[seconds.millis]` timestamp.

use vstd::prelude::*;

use crate::console::lemma_write_concat;
use crate::console::write_view;
use crate::console::ConsoleView;
use crate::console::Writer;

verus! {

/// Log levels of the kernel logger, from least to most severe.
#[derive(Clone, Copy, PartialEq, Eq, Structural, PartialOrd, Ord, Debug)]
pub enum LogLevel {
    Debug,
    Info,
    Warning,
    Error,
}

/// The severity rank of a level: 0 for `Debug` up to 3 for `Error`.
pub open spec fn level_rank(l: LogLevel) -> u8 {
    match l {
        LogLevel::Debug => 0,
        LogLevel::Info => 1,
        LogLevel::Warning => 2,
        LogLevel::Error => 3,
    }
}

impl LogLevel {
    /// Returns the severity rank of this level.
    pub fn rank(&self) -> (r: u8)
        ensures
            r == level_rank(*self),
    {
        match self {
            LogLevel::Debug => 0,
            LogLevel::Info => 1,
            LogLevel::Warning => 2,
            LogLevel::Error => 3,
        }
    }
}

/// The kernel logger, which holds the minimum level of messages it writes.
pub struct Logger {
    level: LogLevel,
}

impl View for Logger {
    type V = LogLevel;

    /// The minimum level of messages written.
    closed spec fn view(&self) -> LogLevel {
        self.level
    }
}

impl Logger {
    /// Returns a logger that writes messages of every level.
    pub fn new() -> (r: Self)
        ensures
            r@ == LogLevel::Debug,
    {
        Logger { level: LogLevel::Debug }
    }
}

/// Sets the log level of the kernel logger. After calling this function, subsequent logged
/// messages will be discarded if their level is below the new setting.
pub fn set_level(logger: &mut Logger, level: LogLevel)
    ensures
        final(logger)@ == level,
{
    logger.level = level;
}

/// The decimal digit character for `d`.
pub open spec fn digit_char(d: nat) -> char {
    if d == 0 {
        '0'
    } else if d == 1 {
        '1'
    } else if d == 2 {
        '2'
    } else if d == 3 {
        '3'
    } else if d == 4 {
        '4'
    } else if d == 5 {
        '5'
    } else if d == 6 {
        '6'
    } else if d == 7 {
        '7'
    } else if d == 8 {
        '8'
    } else {
        '9'
    }
}

/// The decimal representation of `n`, without leading zeros ("0" for zero).
pub open spec fn decimal(n: nat) -> Seq<char>
    decreases n,
{
    if n < 10 {
        seq![digit_char(n)]
    } else {
        decimal(n / 10).push(digit_char(n % 10))
    }
}

/// `s` padded on the left with `fill` up to `width` characters.
pub open spec fn pad_left(s: Seq<char>, width: nat, fill: char) -> Seq<char> {
    if s.len() < width {
        Seq::new((width - s.len()) as nat, |i: int| fill) + s
    } else {
        s
    }
}

/// The log line for a message at `time` milliseconds: seconds right-aligned in five columns, a
/// dot, milliseconds zero-padded to three digits, in brackets, then the message and a newline.
pub open spec fn log_line(time: u32, message: Seq<char>) -> Seq<char> {
    seq!['['] + pad_left(decimal((time / 1000) as nat), 5, ' ') + seq!['.'] + pad_left(
        decimal((time % 1000) as nat),
        3,
        '0',
    ) + seq![']', ' '] + message + seq!['\n']
}

/// Writes one character through the console.
fn put(writer: &mut Writer, c: char)
    requires
        old(writer).wf(),
    ensures
        final(writer).wf(),
        final(writer)@ == write_view(old(writer)@, seq![c]),
{
    writer.put_char(c);
    proof {
        reveal_with_fuel(write_view, 2);
        assert(seq![c].drop_last() =~= Seq::<char>::empty());
    }
}

/// Returns the decimal digit character for `d`.
fn digit(d: u32) -> (c: char)
    requires
        d < 10,
    ensures
        c == digit_char(d as nat),
{
    match d {
        0 => '0',
        1 => '1',
        2 => '2',
        3 => '3',
        4 => '4',
        5 => '5',
        6 => '6',
        7 => '7',
        8 => '8',
        _ => '9',
    }
}

/// Ten to the power `k`.
pub open spec fn pow10(k: nat) -> nat
    decreases k,
{
    if k == 0 {
        1
    } else {
        10 * pow10((k - 1) as nat)
    }
}

/// A number below ten to the power `k` has at most `k` decimal digits.
proof fn lemma_decimal_len_bound(n: nat, k: nat)
    requires
        k >= 1,
        n < pow10(k),
    ensures
        decimal(n).len() <= k,
    decreases k,
{
    if n >= 10 {
        assert(k >= 2) by {
            if k == 1 {
                assert(pow10(1) == 10) by {
                    reveal_with_fuel(pow10, 2);
                }
            }
        }
        lemma_decimal_len_bound(n / 10, (k - 1) as nat);
    }
}

/// Returns the number of decimal digits of `n`.
fn decimal_len(n: u32) -> (r: usize)
    ensures
        r == decimal(n as nat).len(),
    decreases n,
{
    proof {
        assert(pow10(10) == 10000000000) by {
            reveal_with_fuel(pow10, 11);
        }
        lemma_decimal_len_bound(n as nat, 10);
    }
    if n < 10 {
        1
    } else {
        decimal_len(n / 10) + 1
    }
}

/// Writes the decimal representation of `n`.
fn put_decimal(writer: &mut Writer, n: u32)
    requires
        old(writer).wf(),
    ensures
        final(writer).wf(),
        final(writer)@ == write_view(old(writer)@, decimal(n as nat)),
    decreases n,
{
    let ghost v0 = writer@;
    if n >= 10 {
        put_decimal(writer, n / 10);
    }
    let ghost v1 = writer@;
    put(writer, digit(n % 10));
    proof {
        if n >= 10 {
            lemma_write_concat(v0, decimal((n / 10) as nat), seq![digit_char((n % 10) as nat)]);
            assert(decimal((n / 10) as nat) + seq![digit_char((n % 10) as nat)] =~= decimal(
                n as nat,
            ));
        } else {
            assert(v0 == v1);
        }
    }
}

/// Writes `n` in decimal, padded on the left with `fill` up to `width` characters.
fn put_padded(writer: &mut Writer, n: u32, width: usize, fill: char)
    requires
        old(writer).wf(),
    ensures
        final(writer).wf(),
        final(writer)@ == write_view(old(writer)@, pad_left(decimal(n as nat), width as nat, fill)),
{
    let ghost v0 = writer@;
    let len = decimal_len(n);
    let mut i = len;
    while i < width
        invariant
            len <= i,
            i <= width || len >= width,
            len >= width ==> i == len,
            writer.wf(),
            len == decimal(n as nat).len(),
            writer@ == write_view(v0, Seq::new((i - len) as nat, |k: int| fill)),
        decreases width - i,
    {
        let ghost before = writer@;
        put(writer, fill);
        proof {
            lemma_write_concat(v0, Seq::new((i - len) as nat, |k: int| fill), seq![fill]);
            assert(Seq::new((i - len) as nat, |k: int| fill) + seq![fill] =~= Seq::new(
                (i + 1 - len) as nat,
                |k: int| fill,
            ));
        }
        i = i + 1;
    }
    let ghost fills = Seq::new((i - len) as nat, |k: int| fill);
    put_decimal(writer, n);
    proof {
        lemma_write_concat(v0, fills, decimal(n as nat));
        if len < width {
            assert(i == width);
        } else {
            assert(fills =~= Seq::<char>::empty());
            assert(fills + decimal(n as nat) =~= decimal(n as nat));
        }
    }
}

/// Writes a message to the console as one log line, if `level` is at least the logger's level.
pub fn _log(logger: &Logger, writer: &mut Writer, level: LogLevel, message: &str)
    requires
        old(writer).wf(),
    ensures
        final(writer).wf(),
        level_rank(level) >= level_rank(logger@) ==> final(writer)@ == write_view(
            old(writer)@,
            log_line(0, message@),
        ),
        level_rank(level) < level_rank(logger@) ==> final(writer)@ == old(writer)@,
{
    // The scheduler does not keep time yet, so every line is stamped at zero.
    let time: u32 = 0;
    let secs = time / 1000;
    let millis = time % 1000;

    if level.rank() >= logger.level.rank() {
        let ghost v0 = writer@;
        let ghost p1 = seq!['['];
        let ghost p2 = pad_left(decimal(secs as nat), 5, ' ');
        let ghost p3 = seq!['.'];
        let ghost p4 = pad_left(decimal(millis as nat), 3, '0');
        let ghost p5 = seq![']', ' '];
        let ghost p6 = message@;
        let ghost p7 = seq!['\n'];
        put(writer, '[');
        put_padded(writer, secs, 5, ' ');
        proof {
            lemma_write_concat(v0, p1, p2);
        }
        put(writer, '.');
        proof {
            lemma_write_concat(v0, p1 + p2, p3);
        }
        put_padded(writer, millis, 3, '0');
        proof {
            lemma_write_concat(v0, p1 + p2 + p3, p4);
        }
        put(writer, ']');
        put(writer, ' ');
        proof {
            lemma_write_concat(write_view(v0, p1 + p2 + p3 + p4), seq![']'], seq![' ']);
            assert(seq![']'] + seq![' '] =~= p5);
            lemma_write_concat(v0, p1 + p2 + p3 + p4, p5);
        }
        crate::console::write(writer, message);
        proof {
            lemma_write_concat(v0, p1 + p2 + p3 + p4 + p5, p6);
        }
        put(writer, '\n');
        proof {
            lemma_write_concat(v0, p1 + p2 + p3 + p4 + p5 + p6, p7);
            assert(p1 + p2 + p3 + p4 + p5 + p6 + p7 =~= log_line(time, message@));
        }
    }
}

} // verus!
