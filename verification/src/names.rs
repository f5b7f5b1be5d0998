//! Picking given names at random from a list, one name and its kind to a
//! line, the two parted by a tab.

use rand::Rng;
use vstd::prelude::*;

verus! {

/// `rand::Rng::gen_range` on the generator of the thread, over the range
/// from zero up to, but not including, `limit`: some number of that range,
/// and nothing says which. The call panics on an empty range.
#[verifier::external_body]
fn random_below(limit: usize) -> (index: usize)
    requires
        limit > 0,
    ensures
        index < limit,
{
    rand::thread_rng().gen_range(0..limit)
}

/// Names longer than this many bytes are passed over.
pub const LONGEST_NAME: usize = 8;

/// After this many names a new block begins.
pub const BLOCK: u16 = 5;

/// Draws one of the first `pool` lines.
pub fn draw(lines: &Vec<String>, pool: usize) -> (line: &String)
    requires
        0 < pool <= lines@.len(),
    ensures
        exists|i: int| 0 <= i < pool && #[trigger] lines@[i] == *line,
{
    let index: usize = random_below(pool);
    &lines[index]
}

/// Draws one of the first `pool` lines, where there are that many and
/// `pool` is not zero.
pub fn try_draw(lines: &Vec<String>, pool: usize) -> (line: Option<&String>)
    ensures
        line.is_some() <==> 0 < pool <= lines@.len(),
        match line {
            Some(drawn) => exists|i: int| 0 <= i < pool && #[trigger] lines@[i] == *drawn,
            None => true,
        },
{
    if 0 < pool && pool <= lines.len() {
        Some(draw(lines, pool))
    } else {
        None
    }
}

/// The place of the first tab of `text` at or after `from`, or the length of
/// `text` where there is none.
pub open spec fn tab_from(text: Seq<char>, from: int) -> int
    decreases text.len() - from,
{
    if from >= text.len() {
        text.len() as int
    } else if text[from] == '\t' {
        from
    } else {
        tab_from(text, from + 1)
    }
}

/// The first two fields of a line whose fields are parted by tabs, where it
/// has two.
pub open spec fn fields_of(line: Seq<char>) -> Option<(Seq<char>, Seq<char>)> {
    let first = tab_from(line, 0);
    if first >= line.len() {
        None
    } else {
        Some((line.subrange(0, first), line.subrange(first + 1, tab_from(line, first + 1))))
    }
}

fn find_tab(line: &str, from: usize) -> (at: usize)
    requires
        from <= line@.len(),
    ensures
        at == tab_from(line@, from as int),
        from <= at <= line@.len(),
{
    let n: usize = line.unicode_len();
    let mut at: usize = from;
    while at < n && line.get_char(at) != '\t'
        invariant
            n == line@.len(),
            from <= at <= n,
            tab_from(line@, from as int) == tab_from(line@, at as int),
        decreases n - at,
    {
        at = at + 1;
    }
    at
}

/// Parts a line into name and kind.
pub fn split_fields(line: &str) -> (fields: Option<(String, String)>)
    ensures
        match fields {
            Some((name, kind)) => fields_of(line@) == Some((name@, kind@)),
            None => fields_of(line@).is_none(),
        },
{
    let first: usize = find_tab(line, 0);
    if first >= line.unicode_len() {
        None
    } else {
        let second: usize = find_tab(line, first + 1);
        let name: String = String::from_str(line.substring_char(0, first));
        let kind: String = String::from_str(line.substring_char(first + 1, second));
        Some((name, kind))
    }
}

/// Whether `name` is passed over: it is too long, or holds one of `marks`.
/// Without marks nothing is passed over.
pub open spec fn ignored(name: &str, marks: Seq<char>) -> bool {
    marks.len() > 0 && (name.len() > LONGEST_NAME || exists|i: int, j: int|
        0 <= i < name@.len() && 0 <= j < marks.len() && name@[i] == marks[j])
}

/// Tells whether `name` is passed over.
pub fn is_ignored(name: &str, marks: &Vec<char>) -> (passed_over: bool)
    ensures
        passed_over == ignored(name, marks@),
{
    if marks.len() == 0 {
        return false;
    }
    if name.len() > LONGEST_NAME {
        return true;
    }
    let n: usize = name.unicode_len();
    let mut i: usize = 0;
    while i < n
        invariant
            n == name@.len(),
            i <= n,
            marks@.len() > 0,
            name.len() <= LONGEST_NAME,
            forall|a: int, b: int| 0 <= a < i && 0 <= b < marks@.len() ==> name@[a] != marks@[b],
        decreases n - i,
    {
        let c: char = name.get_char(i);
        let mut j: usize = 0;
        while j < marks.len()
            invariant
                j <= marks@.len(),
                i < n,
                n == name@.len(),
                c == name@[i as int],
                forall|b: int| 0 <= b < j ==> c != marks@[b],
            decreases marks@.len() - j,
        {
            if marks[j] == c {
                return true;
            }
            j = j + 1;
        }
        i = i + 1;
    }
    false
}

/// For whom a name of kind `kind` is: a kind of two bytes is for either, the
/// kind `f` for a girl, any other for a boy.
pub open spec fn label_of(kind: &str) -> Seq<char> {
    if kind.len() == 2 {
        "either"@
    } else if kind@ == "f"@ {
        "girl"@
    } else {
        "boy"@
    }
}

/// Says for whom a name of kind `kind` is.
pub fn label(kind: &str) -> (label: &'static str)
    ensures
        label@ == label_of(kind),
{
    if kind.len() == 2 {
        "either"
    } else if String::from_str(kind) == String::from_str("f") {
        "girl"
    } else {
        "boy"
    }
}

/// Whether a new block begins before the name that comes after `count`
/// others.
pub fn begins_block(count: u16) -> (begins: bool)
    ensures
        begins == (count % BLOCK == 0),
{
    count % BLOCK == 0
}

} // verus!
