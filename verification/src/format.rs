//! Flattening a log record to the single string that crosses the boundary.
//!
//! Error-level records are prefixed with their source location when it is
//! known; records at every other level cross unchanged.

use vstd::prelude::*;
use crate::level::Level;

verus! {

/// A log record as the adapter sees it: the level, the source location as
/// far as it is known, and the already-rendered message text.
pub struct LogRecord {
    pub level: Level,
    pub file: Option<String>,
    pub line: Option<u32>,
    pub message: String,
}

pub open spec fn digit_char(d: nat) -> char {
    if d == 0 {
        '0'
    } else if d == 1 {
        '1'
    } else if d == 2 {
        '2'
    } else if d == 3 {
        '3'
    } else if d == 4 {
        '4'
    } else if d == 5 {
        '5'
    } else if d == 6 {
        '6'
    } else if d == 7 {
        '7'
    } else if d == 8 {
        '8'
    } else {
        '9'
    }
}

/// The usual decimal rendering of a natural number, most significant
/// digit first, with no leading zeros (a lone zero for zero itself).
pub open spec fn dec_seq(n: nat) -> Seq<char>
    decreases n,
{
    if n < 10 {
        seq![digit_char(n)]
    } else {
        dec_seq(n / 10).push(digit_char(n % 10))
    }
}

fn digit_str(d: u32) -> (r: &'static str)
    requires
        d < 10,
    ensures
        r@ == seq![digit_char(d as nat)],
{
    proof {
        reveal_strlit("0");
        reveal_strlit("1");
        reveal_strlit("2");
        reveal_strlit("3");
        reveal_strlit("4");
        reveal_strlit("5");
        reveal_strlit("6");
        reveal_strlit("7");
        reveal_strlit("8");
        reveal_strlit("9");
    }
    let r: &'static str = if d == 0 {
        "0"
    } else if d == 1 {
        "1"
    } else if d == 2 {
        "2"
    } else if d == 3 {
        "3"
    } else if d == 4 {
        "4"
    } else if d == 5 {
        "5"
    } else if d == 6 {
        "6"
    } else if d == 7 {
        "7"
    } else if d == 8 {
        "8"
    } else {
        "9"
    };
    proof {
        assert(r@ =~= seq![digit_char(d as nat)]);
    }
    r
}

pub fn u32_to_string(n: u32) -> (r: String)
    ensures
        r@ == dec_seq(n as nat),
    decreases n,
{
    if n < 10 {
        String::from_str(digit_str(n))
    } else {
        let mut s = u32_to_string(n / 10);
        s.append(digit_str(n % 10));
        proof {
            assert(s@ =~= dec_seq(n as nat));
        }
        s
    }
}

/// What a record's message looks like after flattening: for Error-level
/// records a "file:line: " prefix when both are known, a "file: " prefix
/// when only the file is known, else the bare message; records at every
/// other level are passed through unchanged.
pub open spec fn formatted_message(
    level: Level,
    file: Option<Seq<char>>,
    line: Option<u32>,
    message: Seq<char>,
) -> Seq<char> {
    if level == Level::Error {
        match file {
            Some(f) => match line {
                Some(n) => f + seq![':'] + dec_seq(n as nat) + seq![':', ' '] + message,
                None => f + seq![':', ' '] + message,
            },
            None => message,
        }
    } else {
        message
    }
}

/// The view of a record's whole flattened form.
pub open spec fn record_message(record: LogRecord) -> Seq<char> {
    formatted_message(record.level, record.file.deep_view(), record.line, record.message@)
}

pub fn format_message(record: &LogRecord) -> (r: String)
    ensures
        r@ == record_message(*record),
{
    proof {
        reveal_strlit(":");
        reveal_strlit(": ");
    }
    match record.level {
        Level::Error => match &record.file {
            Some(file) => match record.line {
                Some(line) => {
                    let mut s = String::from_str(file.as_str());
                    s.append(":");
                    let rendered_line = u32_to_string(line);
                    s.append(rendered_line.as_str());
                    s.append(": ");
                    s.append(record.message.as_str());
                    proof {
                        assert(s@ =~= record_message(*record));
                    }
                    s
                },
                None => {
                    let mut s = String::from_str(file.as_str());
                    s.append(": ");
                    s.append(record.message.as_str());
                    proof {
                        assert(s@ =~= record_message(*record));
                    }
                    s
                },
            },
            None => String::from_str(record.message.as_str()),
        },
        _ => String::from_str(record.message.as_str()),
    }
}

} // verus!
