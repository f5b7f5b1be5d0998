//! Numeral systems a number can be written in, by name.

use vstd::prelude::*;

verus! {

/// What `char::to_uppercase` makes of a character: one character or more.
pub uninterp spec fn char_uppercase(c: char) -> Seq<char>;

/// `char::to_uppercase`, collected into a text: the uppercase equivalent of
/// `c` as Unicode defines it, which depends on nothing but the character.
#[verifier::external_body]
fn char_to_uppercase(c: char) -> (upper: String)
    ensures
        upper@ == char_uppercase(c),
{
    c.to_uppercase().to_string()
}

/// `core::num::ParseIntError`: why a text is no number, of which nothing is
/// known here.
#[verifier::external_type_specification]
#[verifier::external_body]
pub struct ExParseIntError(core::num::ParseIntError);

/// The number that `i128::from_str_radix` reads from `text` in base
/// `radix`, where it reads one.
pub uninterp spec fn int_parsed(text: Seq<char>, radix: u32) -> Option<i128>;

/// `i128::from_str_radix`. The call fails or gives a number, and which of
/// the two, and which number, depends on the text and the base alone. It
/// panics on a base outside 2 to 36.
#[verifier::external_body]
fn parse_int(text: &str, radix: u32) -> (number: Result<i128, core::num::ParseIntError>)
    requires
        2 <= radix <= 36,
    ensures
        match number {
            Ok(found) => int_parsed(text@, radix) == Some(found),
            Err(_) => int_parsed(text@, radix).is_none(),
        },
{
    i128::from_str_radix(text, radix)
}

/// The numeral systems known, and `Invalid` for a name that stands for
/// none.
#[derive(Clone, Copy, Debug, PartialEq, Eq, Structural)]
pub enum Numeral {
    Binary,
    Octal,
    Decimal,
    Hexadecimal,
    Invalid,
}

/// A numeral system's name and base.
#[derive(Clone, Copy, Debug)]
pub struct NumeralInfo {
    pub name: &'static str,
    pub base: u32,
}

/// The numeral system that `name` stands for: each goes by a short and a
/// long name, and no name at all means decimal.
pub open spec fn numeral_named(name: Seq<char>) -> Numeral {
    if name == "bin"@ || name == "binary"@ {
        Numeral::Binary
    } else if name == "oct"@ || name == "octal"@ {
        Numeral::Octal
    } else if name == ""@ || name == "dec"@ || name == "decimal"@ {
        Numeral::Decimal
    } else if name == "hex"@ || name == "hexadecimal"@ {
        Numeral::Hexadecimal
    } else {
        Numeral::Invalid
    }
}

fn is(text: &String, word: &str) -> (same: bool)
    ensures
        same == (text@ == word@),
{
    *text == String::from_str(word)
}

impl Numeral {
    /// The numeral system that goes by the name `num_type`.
    pub fn new(num_type: &str) -> (numeral: Numeral)
        ensures
            numeral == numeral_named(num_type@),
    {
        let name: String = String::from_str(num_type);
        if is(&name, "bin") || is(&name, "binary") {
            Numeral::Binary
        } else if is(&name, "oct") || is(&name, "octal") {
            Numeral::Octal
        } else if is(&name, "") || is(&name, "dec") || is(&name, "decimal") {
            Numeral::Decimal
        } else if is(&name, "hex") || is(&name, "hexadecimal") {
            Numeral::Hexadecimal
        } else {
            Numeral::Invalid
        }
    }

    /// The base of a numeral system.
    pub open spec fn base(self) -> Option<u32> {
        match self {
            Numeral::Binary => Some(2u32),
            Numeral::Octal => Some(8u32),
            Numeral::Decimal => Some(10u32),
            Numeral::Hexadecimal => Some(16u32),
            Numeral::Invalid => None,
        }
    }

    /// The long name of a numeral system.
    pub open spec fn name(self) -> Seq<char> {
        match self {
            Numeral::Binary => "binary"@,
            Numeral::Octal => "octal"@,
            Numeral::Decimal => "decimal"@,
            Numeral::Hexadecimal => "hexadecimal"@,
            Numeral::Invalid => "invalid"@,
        }
    }

    /// Name and base of a numeral system; an error for `Invalid`, which has
    /// neither.
    pub fn info(&self) -> (info: Result<NumeralInfo, &'static str>)
        ensures
            match info {
                Ok(found) => self.base() == Some(found.base) && found.name@ == self.name(),
                Err(message) => *self == Numeral::Invalid && message@ == "Invalid numeral type"@,
            },
    {
        match self {
            Numeral::Binary => Ok(NumeralInfo { name: "binary", base: 2 }),
            Numeral::Octal => Ok(NumeralInfo { name: "octal", base: 8 }),
            Numeral::Decimal => Ok(NumeralInfo { name: "decimal", base: 10 }),
            Numeral::Hexadecimal => Ok(NumeralInfo { name: "hexadecimal", base: 16 }),
            Numeral::Invalid => Err("Invalid numeral type"),
        }
    }
}

/// `word` with its first character in uppercase.
pub open spec fn capitalized(word: Seq<char>) -> Seq<char> {
    if word.len() == 0 {
        word
    } else {
        char_uppercase(word[0]) + word.subrange(1, word.len() as int)
    }
}

/// Puts the first character of `word` in uppercase.
pub fn capitalize(word: &str) -> (capital: String)
    ensures
        capital@ == capitalized(word@),
{
    let n: usize = word.unicode_len();
    if n == 0 {
        String::from_str(word)
    } else {
        let mut capital: String = char_to_uppercase(word.get_char(0));
        capital.append(word.substring_char(1, n));
        capital
    }
}

/// A number as text, and the name of the numeral system it is written in.
pub struct Config {
    pub number: String,
    pub number_type: String,
}

/// Reads the command line: the program's name, the number, and the name of
/// its numeral system, which is decimal where none is given.
pub fn parse_config(args: &[String]) -> (config: Result<Config, &'static str>)
    requires
        args@.len() >= 1,
    ensures
        match config {
            Ok(found) => args@.len() >= 2 && found.number@ == args@[1]@ && found.number_type@ == if args@.len()
                >= 3 {
                args@[2]@
            } else {
                "decimal"@
            },
            Err(message) => args@.len() == 1 && message@ == "Argument(s) required"@,
        },
{
    if args.len() == 1 {
        return Err("Argument(s) required");
    }
    let number: String = args[1].clone();
    let number_type: String = if args.len() > 2 {
        args[2].clone()
    } else {
        String::from_str("decimal")
    };
    Ok(Config { number, number_type })
}

/// The digit that stands for `value`, below sixteen.
pub open spec fn digit_char(value: nat) -> char {
    if value == 0 {
        '0'
    } else if value == 1 {
        '1'
    } else if value == 2 {
        '2'
    } else if value == 3 {
        '3'
    } else if value == 4 {
        '4'
    } else if value == 5 {
        '5'
    } else if value == 6 {
        '6'
    } else if value == 7 {
        '7'
    } else if value == 8 {
        '8'
    } else if value == 9 {
        '9'
    } else if value == 10 {
        'a'
    } else if value == 11 {
        'b'
    } else if value == 12 {
        'c'
    } else if value == 13 {
        'd'
    } else if value == 14 {
        'e'
    } else {
        'f'
    }
}

/// `value` written in base `base`, most significant digit first, with no
/// leading zero but for zero itself.
pub open spec fn digits(value: nat, base: nat) -> Seq<char>
    recommends
        2 <= base <= 16,
    decreases value,
    via digits_end
{
    if value < base || base < 2 {
        seq![digit_char(value)]
    } else {
        digits(value / base, base).push(digit_char(value % base))
    }
}

#[via_fn]
proof fn digits_end(value: nat, base: nat) {
    if value >= base && base >= 2 {
        assert(value / base < value) by (nonlinear_arith)
            requires
                value >= base,
                base >= 2,
        ;
    }
}

/// The pattern of 128 bits that stands for `value` in two's complement, as
/// a number.
pub open spec fn bits(value: i128) -> nat {
    if value >= 0 {
        value as nat
    } else {
        (value + 0x1_0000_0000_0000_0000_0000_0000_0000_0000) as nat
    }
}

/// The digits of `value` in `numeral`: binary, octal and hexadecimal show
/// the bits, so a negative number appears in two's complement; decimal
/// shows the sign.
pub open spec fn plain(value: i128, numeral: Numeral) -> Seq<char> {
    match numeral {
        Numeral::Binary => digits(bits(value), 2),
        Numeral::Octal => digits(bits(value), 8),
        Numeral::Hexadecimal => digits(bits(value), 16),
        _ => if value < 0 {
            seq!['-'] + digits((-value) as nat, 10)
        } else {
            digits(value as nat, 10)
        },
    }
}

/// The mark that tells an octal or a hexadecimal number from a decimal one.
pub open spec fn mark(numeral: Numeral) -> Seq<char> {
    match numeral {
        Numeral::Octal => seq!['0', 'o'],
        Numeral::Hexadecimal => seq!['0', 'x'],
        _ => Seq::empty(),
    }
}

/// `value` as it is written in `numeral`: its mark, then its digits.
pub open spec fn written(value: i128, numeral: Numeral) -> Seq<char> {
    mark(numeral) + plain(value, numeral)
}

fn digit_str(value: u128) -> (digit: &'static str)
    requires
        value < 16,
    ensures
        digit@ == seq![digit_char(value as nat)],
{
    proof {
        reveal_strlit("0");
        reveal_strlit("1");
        reveal_strlit("2");
        reveal_strlit("3");
        reveal_strlit("4");
        reveal_strlit("5");
        reveal_strlit("6");
        reveal_strlit("7");
        reveal_strlit("8");
        reveal_strlit("9");
        reveal_strlit("a");
        reveal_strlit("b");
        reveal_strlit("c");
        reveal_strlit("d");
        reveal_strlit("e");
        reveal_strlit("f");
    }
    let digit: &'static str = if value == 0 {
        "0"
    } else if value == 1 {
        "1"
    } else if value == 2 {
        "2"
    } else if value == 3 {
        "3"
    } else if value == 4 {
        "4"
    } else if value == 5 {
        "5"
    } else if value == 6 {
        "6"
    } else if value == 7 {
        "7"
    } else if value == 8 {
        "8"
    } else if value == 9 {
        "9"
    } else if value == 10 {
        "a"
    } else if value == 11 {
        "b"
    } else if value == 12 {
        "c"
    } else if value == 13 {
        "d"
    } else if value == 14 {
        "e"
    } else {
        "f"
    };
    assert(digit@ =~= seq![digit_char(value as nat)]);
    digit
}

proof fn lemma_last_digit(value: nat, base: nat)
    requires
        base >= 2,
    ensures
        value % base < base,
        value < base ==> value / base == 0 && value % base == value,
        value >= base ==> 0 < value / base < value,
{
    assert(value % base < base && (value < base ==> value / base == 0 && value % base == value)
        && (value >= base ==> 0 < value / base < value)) by (nonlinear_arith)
        requires
            base >= 2,
    ;
}

/// Writes `value` in base `base`.
fn write_digits(value: u128, base: u128) -> (text: String)
    requires
        2 <= base <= 16,
    ensures
        text@ == digits(value as nat, base as nat),
{
    proof {
        lemma_last_digit(value as nat, base as nat);
    }
    let mut rest: u128 = value / base;
    let mut text: String = String::from_str(digit_str(value % base));
    proof {
        if value >= base {
            assert(digits(value as nat, base as nat) =~= digits(rest as nat, base as nat) + text@);
        }
    }
    while rest > 0
        invariant
            2 <= base <= 16,
            digits(value as nat, base as nat) == if rest > 0 {
                digits(rest as nat, base as nat) + text@
            } else {
                text@
            },
        decreases rest,
    {
        proof {
            lemma_last_digit(rest as nat, base as nat);
        }
        let mut head: String = String::from_str(digit_str(rest % base));
        head.append(text.as_str());
        proof {
            let next = (rest / base) as nat;
            if rest >= base {
                assert(digits(rest as nat, base as nat) + text@ =~= digits(next, base as nat)
                    + head@);
            } else {
                assert(digits(rest as nat, base as nat) + text@ =~= head@);
            }
        }
        text = head;
        rest = rest / base;
    }
    text
}

/// The bits of `value` as an unsigned number.
fn bits_of(value: i128) -> (pattern: u128)
    ensures
        pattern == bits(value),
{
    if value >= 0 {
        value as u128
    } else {
        ((value + i128::MAX) + 1) as u128 + 0x8000_0000_0000_0000_0000_0000_0000_0000u128
    }
}

/// Writes the digits of `value` in `numeral`, without a mark. Asked for
/// `Invalid`, which has no way of writing, it gives nothing.
pub fn write_plain(value: i128, numeral: Numeral) -> (text: Option<String>)
    ensures
        match text {
            Some(found) => numeral != Numeral::Invalid && found@ == plain(value, numeral),
            None => numeral == Numeral::Invalid,
        },
{
    match numeral {
        Numeral::Binary => Some(write_digits(bits_of(value), 2)),
        Numeral::Octal => Some(write_digits(bits_of(value), 8)),
        Numeral::Hexadecimal => Some(write_digits(bits_of(value), 16)),
        Numeral::Decimal => {
            if value < 0 {
                let size: u128 = (-(value + 1)) as u128 + 1;
                let mut text: String = String::from_str("-");
                text.append(write_digits(size, 10).as_str());
                proof {
                    reveal_strlit("-");
                    assert("-"@ =~= seq!['-']);
                }
                Some(text)
            } else {
                Some(write_digits(value as u128, 10))
            }
        },
        Numeral::Invalid => None,
    }
}

/// Writes `value` in `numeral`, behind the numeral's mark. Asked for
/// `Invalid`, it gives nothing.
pub fn write_in(value: i128, numeral: Numeral) -> (text: Option<String>)
    ensures
        match text {
            Some(found) => numeral != Numeral::Invalid && found@ == written(value, numeral),
            None => numeral == Numeral::Invalid,
        },
{
    let digits: String = match write_plain(value, numeral) {
        Some(digits) => digits,
        None => {
            return None;
        },
    };
    let mut text: String = match numeral {
        Numeral::Octal => String::from_str("0o"),
        Numeral::Hexadecimal => String::from_str("0x"),
        _ => String::new(),
    };
    proof {
        reveal_strlit("0o");
        reveal_strlit("0x");
        assert(text@ =~= mark(numeral));
    }
    text.append(digits.as_str());
    Some(text)
}

/// Why a number could not be converted.
pub enum ConvertError {
    /// The numeral system the number is said to be written in is none.
    InvalidNumeral,
    /// The text is no number in its numeral system.
    InvalidValue(core::num::ParseIntError),
}

/// Reads `number` as written in `from` and writes it in `to`. The numeral
/// system read from is looked at first, then the text, then the one written
/// in.
pub fn convert(number: &str, from: Numeral, to: Numeral) -> (text: Result<String, ConvertError>)
    ensures
        match text {
            Ok(found) => from.base().is_some() && to != Numeral::Invalid && int_parsed(
                number@,
                from.base().unwrap(),
            ).is_some() && found@ == written(
                int_parsed(number@, from.base().unwrap()).unwrap(),
                to,
            ),
            Err(ConvertError::InvalidNumeral) => from == Numeral::Invalid || (to
                == Numeral::Invalid && int_parsed(number@, from.base().unwrap()).is_some()),
            Err(ConvertError::InvalidValue(_)) => from.base().is_some() && int_parsed(
                number@,
                from.base().unwrap(),
            ).is_none(),
        },
{
    let info: NumeralInfo = match from.info() {
        Ok(info) => info,
        Err(_) => {
            return Err(ConvertError::InvalidNumeral);
        },
    };
    match parse_int(number, info.base) {
        Ok(value) => match write_in(value, to) {
            Some(text) => Ok(text),
            None => Err(ConvertError::InvalidNumeral),
        },
        Err(error) => Err(ConvertError::InvalidValue(error)),
    }
}

} // verus!
