//! The command line: `program <interval_in_milliseconds> <key>`.

use vstd::prelude::*;
use vstd::string::is_ascii_spec_bytes;
use vstd::string::StringExecFns;
use vstd::utf8::is_ascii_chars;

verus! {

/// The configuration that the command line gives.
#[derive(Clone, Copy, Debug, PartialEq, Eq, Structural)]
pub struct Arguments {
    /// Milliseconds between two emissions while active: at least 1 in every
    /// configuration that a command line gives.
    pub interval_ms: u64,
    /// The key to press.
    pub key: char,
}

/// Why a command line gives no configuration.
#[derive(Clone, Copy, Debug, PartialEq, Eq, Structural)]
pub enum ArgumentError {
    /// Fewer than two arguments follow the program's name: a request for help.
    TooFewArguments,
    /// The key argument is not exactly one character long.
    KeyLength,
    /// The interval argument is no unsigned decimal number of 64 bits.
    IntervalNotInteger,
    /// The interval argument writes the number 0.
    IntervalNotPositive,
}

impl Arguments {
    /// The interval is positive, as that of every configuration that
    /// [`check_arguments`] gives.
    pub open spec fn is_valid(self) -> bool {
        self.interval_ms >= 1
    }
}

impl ArgumentError {
    /// What the user is told: for too few arguments the two lines of the usage
    /// message, which name the program, and else one line that names the fault.
    pub open spec fn report_text(self, program: Seq<char>) -> Seq<char> {
        match self {
            ArgumentError::TooFewArguments => "Usage: "@ + program
                + " <interval_in_milliseconds> <key>\n"@
                + "Start/stop auto key events with Shift+Ctrl+F11. Stop application with Shift+Ctrl+Q."@,
            ArgumentError::KeyLength => "Key must be 1 character long."@,
            ArgumentError::IntervalNotInteger => "Interval must be an integer number."@,
            ArgumentError::IntervalNotPositive => "Interval must be greater than 0."@,
        }
    }

    /// The status that the process exits with: 0 for a request for help, 1 for
    /// a faulty argument.
    pub open spec fn status(self) -> u8 {
        if self == ArgumentError::TooFewArguments {
            0
        } else {
            1
        }
    }

    /// The text to show the user, without a line end after it. `program` is the
    /// name that the usage message gives the program.
    pub fn report(&self, program: &str) -> (text: String)
        ensures
            text@ == self.report_text(program@),
    {
        match self {
            ArgumentError::TooFewArguments => {
                let mut text = "Usage: ".to_string();
                text.append(program);
                text.append(" <interval_in_milliseconds> <key>\n");
                text.append(
                    "Start/stop auto key events with Shift+Ctrl+F11. Stop application with Shift+Ctrl+Q.",
                );
                text
            },
            ArgumentError::KeyLength => "Key must be 1 character long.".to_string(),
            ArgumentError::IntervalNotInteger => "Interval must be an integer number.".to_string(),
            ArgumentError::IntervalNotPositive => "Interval must be greater than 0.".to_string(),
        }
    }

    /// The status to exit with after the report.
    pub fn exit_status(&self) -> (status: u8)
        ensures
            status == self.status(),
    {
        match self {
            ArgumentError::TooFewArguments => 0,
            _ => 1,
        }
    }
}

/// The byte that writes `+` in ASCII.
const ASCII_PLUS: u8 = 0x2b;

/// The byte that writes `0` in ASCII; the other digits follow it in order.
const ASCII_ZERO: u8 = 0x30;

/// The byte that writes `9` in ASCII.
const ASCII_NINE: u8 = 0x39;

/// `c` is one of the ten ASCII digits.
pub open spec fn is_digit(c: char) -> bool {
    '0' <= c && c <= '9'
}

/// The number that the digit `c` stands for.
pub open spec fn digit_value(c: char) -> nat {
    (c as u32 - '0' as u32) as nat
}

/// The number that a run of digits writes in base ten; 0 for the empty run.
pub open spec fn decimal_value(digits: Seq<char>) -> nat
    decreases digits.len(),
{
    if digits.len() == 0 {
        0
    } else {
        decimal_value(digits.drop_last()) * 10 + digit_value(digits.last())
    }
}

/// Every character of `digits` is a digit.
pub open spec fn all_digits(digits: Seq<char>) -> bool {
    forall|i: int| 0 <= i < digits.len() ==> is_digit(#[trigger] digits[i])
}

/// `text` without the one `+` that may lead it.
pub open spec fn without_plus(text: Seq<char>) -> Seq<char> {
    if text.len() > 0 && text[0] == '+' {
        text.skip(1)
    } else {
        text
    }
}

/// The number that `text` writes: an optional `+`, then one or more digits
/// and nothing else, with a value that fits in 64 bits. Leading zeros are
/// allowed; blanks, a `-` and an empty digit run are not. The number may be 0:
/// that an interval is positive is the concern of [`arguments_of`].
pub open spec fn interval_of(text: Seq<char>) -> Option<u64> {
    let digits = without_plus(text);
    if digits.len() > 0 && all_digits(digits) && decimal_value(digits) <= u64::MAX {
        Some(decimal_value(digits) as u64)
    } else {
        None
    }
}

/// What the command line `args` gives, `args[0]` being the program's name.
/// The checks come in this order: the number of arguments, the length of the
/// key, whether the interval is a number, whether that number is positive.
/// Arguments after the key are ignored.
pub open spec fn arguments_of(args: Seq<Seq<char>>) -> Result<Arguments, ArgumentError> {
    if args.len() < 3 {
        Err(ArgumentError::TooFewArguments)
    } else if args[2].len() != 1 {
        Err(ArgumentError::KeyLength)
    } else {
        match interval_of(args[1]) {
            None => Err(ArgumentError::IntervalNotInteger),
            Some(interval_ms) => if interval_ms == 0 {
                Err(ArgumentError::IntervalNotPositive)
            } else {
                Ok(Arguments { interval_ms, key: args[2][0] })
            },
        }
    }
}

/// The value of a run of digits is at least the value of each of its prefixes.
proof fn lemma_prefix_value(digits: Seq<char>, n: int)
    requires
        0 <= n <= digits.len(),
    ensures
        decimal_value(digits.take(n)) <= decimal_value(digits),
    decreases digits.len(),
{
    if n == digits.len() {
        assert(digits.take(n) =~= digits);
    } else {
        lemma_prefix_value(digits.drop_last(), n);
        assert(digits.drop_last().take(n) =~= digits.take(n));
    }
}

/// A text with a character outside ASCII writes no interval.
proof fn lemma_interval_is_ascii(text: Seq<char>)
    requires
        !is_ascii_chars(text),
    ensures
        interval_of(text) is None,
{
    let i = choose|i: int| 0 <= i < text.len() && !('\0' <= #[trigger] text[i] <= '\u{7f}');
    let digits = without_plus(text);
    if text[0] == '+' {
        assert(!is_digit(digits[i - 1]));
    } else {
        assert(!is_digit(digits[i]));
    }
}

/// Reads a number: `Some` of the number that `text` writes, 0 included, and
/// `None` where it writes none or one that does not fit in 64 bits.
pub fn parse_interval(text: &str) -> (interval: Option<u64>)
    ensures
        interval == interval_of(text@),
{
    if !text.is_ascii() {
        proof {
            lemma_interval_is_ascii(text@);
        }
        return None;
    }
    let bytes = text.as_bytes();
    proof {
        is_ascii_spec_bytes(text);
    }
    let len = bytes.len();
    let start: usize = if len > 0 && bytes[0] == ASCII_PLUS {
        1
    } else {
        0
    };
    let ghost digits = without_plus(text@);
    assert(digits =~= text@.skip(start as int));
    if start == len {
        return None;
    }
    let mut value: u64 = 0;
    let mut i: usize = start;
    while i < len
        invariant
            start <= i <= len,
            len == text@.len(),
            is_ascii_chars(text@),
            bytes@ == Seq::new(text@.len(), |k: int| text@[k] as u8),
            digits == without_plus(text@),
            digits == text@.skip(start as int),
            all_digits(digits.take(i - start)),
            value == decimal_value(digits.take(i - start)),
        decreases len - i,
    {
        let byte = bytes[i];
        assert(byte == digits[i - start] as u8);
        if byte < ASCII_ZERO || byte > ASCII_NINE {
            assert(!is_digit(digits[i - start]));
            return None;
        }
        let digit: u64 = (byte - ASCII_ZERO) as u64;
        proof {
            assert(digit == digit_value(digits[i - start]));
            lemma_prefix_value(digits, i - start + 1);
            assert(digits.take(i - start + 1).drop_last() =~= digits.take(i - start));
            assert(decimal_value(digits.take(i - start + 1)) == value * 10 + digit);
        }
        if value > (u64::MAX - digit) / 10 {
            assert(decimal_value(digits) > u64::MAX);
            return None;
        }
        value = value * 10 + digit;
        i = i + 1;
    }
    assert(digits.take(i - start) =~= digits);
    Some(value)
}

/// Checks the command line `args`, `args[0]` being the program's name, and
/// gives the configuration or the first fault found. The interval of a
/// configuration is never 0.
pub fn check_arguments(args: &Vec<String>) -> (result: Result<Arguments, ArgumentError>)
    ensures
        result == arguments_of(args@.map_values(|s: String| s@)),
        match result {
            Ok(arguments) => arguments.is_valid(),
            Err(_) => true,
        },
{
    if args.len() < 3 {
        return Err(ArgumentError::TooFewArguments);
    }
    let key_text = args[2].as_str();
    if key_text.unicode_len() != 1 {
        return Err(ArgumentError::KeyLength);
    }
    match parse_interval(args[1].as_str()) {
        None => Err(ArgumentError::IntervalNotInteger),
        Some(interval_ms) => {
            if interval_ms == 0 {
                Err(ArgumentError::IntervalNotPositive)
            } else {
                Ok(Arguments { interval_ms, key: key_text.get_char(0) })
            }
        },
    }
}

/// A command line gives a configuration exactly when it has the program's
/// name and at least two arguments, the key is one character long, and the
/// interval writes a number of at least 1. The configuration then holds that
/// number and that character.
pub proof fn lemma_configuration_is_valid(args: Seq<Seq<char>>)
    ensures
        arguments_of(args) is Ok <==> args.len() >= 3 && args[2].len() == 1 && interval_of(args[1])
            is Some && interval_of(args[1])->Some_0 >= 1,
        arguments_of(args) is Ok ==> arguments_of(args)->Ok_0.is_valid(),
        arguments_of(args) is Ok ==> arguments_of(args)->Ok_0 == (Arguments {
            interval_ms: interval_of(args[1])->Some_0,
            key: args[2][0],
        }),
        arguments_of(args) == Err::<Arguments, ArgumentError>(ArgumentError::IntervalNotPositive)
            <==> args.len() >= 3 && args[2].len() == 1 && interval_of(args[1]) == Some(0u64),
{
}

} // verus!
