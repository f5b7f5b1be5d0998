//! Lines of the hours log: a job, a date and a number of hours, parted by
//! white space.

use crate::dates::{date_parsed, parse_date, Date};
use chrono::format::ParseError;
use vstd::prelude::*;

verus! {

/// White space as Unicode has it.
pub open spec fn is_space(c: char) -> bool {
    let code = c as u32;
    ||| 0x09 <= code <= 0x0d
    ||| code == 0x20
    ||| code == 0x85
    ||| code == 0xa0
    ||| code == 0x1680
    ||| 0x2000 <= code <= 0x200a
    ||| code == 0x2028
    ||| code == 0x2029
    ||| code == 0x202f
    ||| code == 0x205f
    ||| code == 0x3000
}

/// Tells whether `c` is white space.
pub fn is_white_space(c: char) -> (space: bool)
    ensures
        space == is_space(c),
{
    let code: u32 = c as u32;
    (0x09 <= code && code <= 0x0d) || code == 0x20 || code == 0x85 || code == 0xa0 || code
        == 0x1680 || (0x2000 <= code && code <= 0x200a) || code == 0x2028 || code == 0x2029
        || code == 0x202f || code == 0x205f || code == 0x3000
}

/// The words of `text`: its longest runs of characters that are not white
/// space, in order.
pub open spec fn words(text: Seq<char>) -> Seq<Seq<char>>
    decreases text.len(),
{
    if text.len() == 0 {
        Seq::empty()
    } else {
        let before = words(text.drop_last());
        if is_space(text.last()) {
            before
        } else if text.len() >= 2 && !is_space(text[text.len() - 2]) {
            before.drop_last().push(before.last().push(text.last()))
        } else {
            before.push(seq![text.last()])
        }
    }
}

/// The texts of a list of strings.
pub open spec fn texts(list: Seq<String>) -> Seq<Seq<char>> {
    Seq::new(list.len(), |i: int| list[i]@)
}

/// Parts `line` into its words.
pub fn split_words(line: &str) -> (list: Vec<String>)
    ensures
        texts(list@) == words(line@),
{
    let n: usize = line.unicode_len();
    let mut list: Vec<String> = Vec::new();
    let mut start: usize = 0;
    let mut inside: bool = false;
    let mut i: usize = 0;
    proof {
        assert(line@.take(0) =~= Seq::<char>::empty());
        assert(texts(list@) =~= words(line@.take(0)));
    }
    while i < n
        invariant
            n == line@.len(),
            i <= n,
            inside ==> start < i && !is_space(line@[i - 1]),
            !inside ==> i == 0 || is_space(line@[i - 1]),
            words(line@.take(i as int)) == if inside {
                texts(list@).push(line@.subrange(start as int, i as int))
            } else {
                texts(list@)
            },
        decreases n - i,
    {
        let c: char = line.get_char(i);
        proof {
            let next = line@.take(i + 1);
            assert(next.drop_last() =~= line@.take(i as int));
            assert(next.last() == c);
            if i >= 1 {
                assert(next[next.len() - 2] == line@[i - 1]);
            }
            if inside && !is_space(c) {
                let known = texts(list@).push(line@.subrange(start as int, i as int));
                assert(known.drop_last() =~= texts(list@));
                assert(known.last().push(c) =~= line@.subrange(start as int, i + 1));
            }
            if !inside && !is_space(c) {
                assert(seq![c] =~= line@.subrange(i as int, i + 1));
            }
        }
        if is_white_space(c) {
            if inside {
                let ghost before = texts(list@);
                list.push(String::from_str(line.substring_char(start, i)));
                proof {
                    assert(texts(list@) =~= before.push(line@.subrange(start as int, i as int)));
                }
                inside = false;
            }
        } else if !inside {
            start = i;
            inside = true;
        }
        i = i + 1;
    }
    proof {
        assert(line@.take(n as int) =~= line@);
    }
    if inside {
        let ghost before = texts(list@);
        list.push(String::from_str(line.substring_char(start, n)));
        proof {
            assert(texts(list@) =~= before.push(line@.subrange(start as int, n as int)));
        }
    }
    list
}

/// One line of the log. The hours are kept as they are written.
#[derive(Debug)]
pub struct Entry {
    pub job: String,
    pub date: Date,
    pub hours: String,
}

/// Why a line is no entry.
pub enum EntryError {
    /// The line has words, but fewer than three.
    Incomplete,
    /// The second word is no date.
    Date(ParseError),
}

/// What a line of the log says.
pub enum Reading {
    /// Nothing: the line is blank.
    Blank,
    /// Too little: the line has words, but fewer than three.
    Incomplete,
    /// Its second word is no date.
    NoDate,
    /// Job, date and hours.
    Entry(Seq<char>, Date, Seq<char>),
}

/// What `line` says under the date format `format`: its first three words
/// are job, date and hours, and further words are passed over.
pub open spec fn reading_of(line: Seq<char>, format: Seq<char>) -> Reading {
    let found = words(line);
    if found.len() == 0 {
        Reading::Blank
    } else if found.len() < 3 {
        Reading::Incomplete
    } else {
        match date_parsed(found[1], format) {
            Some(date) => Reading::Entry(found[0], date, found[2]),
            None => Reading::NoDate,
        }
    }
}

/// Reads one line of the log.
pub fn entry_from_line(line: String, date_fmt_str: &str) -> (entry: Result<
    Option<Entry>,
    EntryError,
>)
    ensures
        reading_of(line@, date_fmt_str@) == match entry {
            Ok(None) => Reading::Blank,
            Ok(Some(found)) => Reading::Entry(found.job@, found.date, found.hours@),
            Err(EntryError::Incomplete) => Reading::Incomplete,
            Err(EntryError::Date(_)) => Reading::NoDate,
        },
{
    let found: Vec<String> = split_words(line.as_str());
    if found.len() == 0 {
        return Ok(None);
    }
    if found.len() < 3 {
        return Err(EntryError::Incomplete);
    }
    proof {
        assert(texts(found@)[0] == found@[0]@);
        assert(texts(found@)[1] == found@[1]@);
        assert(texts(found@)[2] == found@[2]@);
    }
    match parse_date(found[1].as_str(), date_fmt_str) {
        Ok(date) => Ok(Some(Entry { job: found[0].clone(), date, hours: found[2].clone() })),
        Err(error) => Err(EntryError::Date(error)),
    }
}

/// Whether a line for `job` counts when the hours of `wanted` are asked
/// for: every job counts where none is named.
pub fn counts_for(wanted: &Option<String>, job: &String) -> (counts: bool)
    ensures
        counts == match *wanted {
            Some(name) => name@ == job@,
            None => true,
        },
{
    match wanted {
        Some(name) => *name == *job,
        None => true,
    }
}

} // verus!
