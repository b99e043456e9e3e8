//! Lines of text as the transaction log is read: splitting a text into its
//! lines, and telling blank lines apart.

use vstd::prelude::*;
use vstd::slice::slice_subrange;

verus! {

/// Whether `c` has the Unicode `White_Space` property (what
/// `char::is_whitespace` tests).
pub open spec fn is_white_space(c: char) -> bool {
    let v = c as u32;
    ||| 0x09 <= v <= 0x0d
    ||| v == 0x20
    ||| v == 0x85
    ||| v == 0xa0
    ||| v == 0x1680
    ||| 0x2000 <= v <= 0x200a
    ||| v == 0x2028
    ||| v == 0x2029
    ||| v == 0x202f
    ||| v == 0x205f
    ||| v == 0x3000
}

/// Whether a line holds nothing but white space (what `line.trim().is_empty()` tests).
pub open spec fn is_blank(line: Seq<char>) -> bool {
    forall|i: int| 0 <= i < line.len() ==> is_white_space(#[trigger] line[i])
}

/// A line without the carriage return that ended it, if any.
pub open spec fn without_cr(line: Seq<char>) -> Seq<char> {
    if line.len() > 0 && line.last() == '\r' {
        line.drop_last()
    } else {
        line
    }
}

/// The lines of `text` from position `i` on, where the current line began
/// at `start`: each line ended by `\n` loses the `\n` and a `\r` just before
/// it; a last line without `\n` is kept whole, and an empty rest gives no line.
pub open spec fn lines_from(text: Seq<char>, start: int, i: int) -> Seq<Seq<char>>
    decreases text.len() - i,
{
    if i >= text.len() {
        if start < text.len() {
            seq![text.subrange(start, text.len() as int)]
        } else {
            Seq::empty()
        }
    } else if text[i] == '\n' {
        seq![without_cr(text.subrange(start, i))] + lines_from(text, i + 1, i + 1)
    } else {
        lines_from(text, start, i + 1)
    }
}

/// The lines of `text`, as `BufRead::lines` reads them.
pub open spec fn spec_lines(text: Seq<char>) -> Seq<Seq<char>> {
    lines_from(text, 0, 0)
}

/// The lines of `lines` that are not blank, in their order.
pub open spec fn non_blank(lines: Seq<Seq<char>>) -> Seq<Seq<char>>
    decreases lines.len(),
{
    if lines.len() == 0 {
        Seq::empty()
    } else {
        let rest = non_blank(lines.drop_last());
        if is_blank(lines.last()) {
            rest
        } else {
            rest.push(lines.last())
        }
    }
}

/// The views of a vector of strings.
pub open spec fn views(v: Seq<String>) -> Seq<Seq<char>> {
    v.map_values(|s: String| s@)
}

/// Whether `c` is white space.
pub fn is_white_space_char(c: char) -> (b: bool)
    ensures
        b == is_white_space(c),
{
    let v = c as u32;
    (0x09 <= v && v <= 0x0d) || v == 0x20 || v == 0x85 || v == 0xa0 || v == 0x1680 || (0x2000 <= v
        && v <= 0x200a) || v == 0x2028 || v == 0x2029 || v == 0x202f || v == 0x205f || v == 0x3000
}

/// The characters of `text`.
pub fn chars_of(text: &str) -> (v: Vec<char>)
    ensures
        v@ == text@,
{
    let mut v: Vec<char> = Vec::new();
    for c in it: text.chars()
        invariant
            v@ == it.seq().take(it.index() as int),
    {
        v.push(c);
    }
    v
}

/// `String::from_iter` over the characters of `chars` (collecting characters
/// into a `String` keeps them, in order).
#[verifier::external_body]
fn string_of(chars: &[char]) -> (s: String)
    ensures
        s@ == chars@,
{
    String::from_iter(chars)
}

/// Whether a line is blank.
pub fn is_blank_line(line: &str) -> (b: bool)
    ensures
        b == is_blank(line@),
{
    let mut blank = true;
    for c in it: line.chars()
        invariant
            blank == (forall|k: int| 0 <= k < it.index() ==> is_white_space(#[trigger] it.seq()[k])),
    {
        if !is_white_space_char(c) {
            blank = false;
        }
    }
    blank
}

/// The lines of `text`, as `BufRead::lines` reads them.
pub fn lines(text: &str) -> (out: Vec<String>)
    ensures
        views(out@) == spec_lines(text@),
{
    let chars = chars_of(text);
    let n = chars.len();
    let mut out: Vec<String> = Vec::new();
    let mut start: usize = 0;
    let mut i: usize = 0;
    while i < n
        invariant
            n == chars@.len(),
            chars@ == text@,
            start <= i <= n,
            views(out@) + lines_from(text@, start as int, i as int) == spec_lines(text@),
        decreases n - i,
    {
        if chars[i] == '\n' {
            let mut end = i;
            if end > start && chars[end - 1] == '\r' {
                end = end - 1;
            }
            let line = string_of(slice_subrange(chars.as_slice(), start, end));
            proof {
                let whole = text@.subrange(start as int, i as int);
                assert(without_cr(whole) =~= line@);
                assert(views(out@.push(line)) =~= views(out@).push(line@));
                assert(views(out@.push(line)) + lines_from(text@, (i + 1) as int, (i + 1) as int)
                    =~= views(out@) + lines_from(text@, start as int, i as int));
            }
            out.push(line);
            start = i + 1;
        }
        i = i + 1;
    }
    if start < n {
        let line = string_of(slice_subrange(chars.as_slice(), start, n));
        proof {
            assert(views(out@.push(line)) =~= views(out@).push(line@));
            assert(views(out@.push(line)) =~= views(out@) + lines_from(text@, start as int, n as int));
        }
        out.push(line);
    } else {
        assert(views(out@) =~= views(out@) + lines_from(text@, start as int, n as int));
    }
    out
}

/// The lines of `text` that are not blank, in their order: the records of
/// the transaction log.
pub fn non_blank_lines(text: &str) -> (out: Vec<String>)
    ensures
        views(out@) == non_blank(spec_lines(text@)),
{
    let all = lines(text);
    let mut out: Vec<String> = Vec::new();
    let mut i: usize = 0;
    while i < all.len()
        invariant
            i <= all@.len(),
            views(all@) == spec_lines(text@),
            views(out@) == non_blank(views(all@).take(i as int)),
        decreases all@.len() - i,
    {
        proof {
            assert(views(all@).take(i + 1).drop_last() =~= views(all@).take(i as int));
        }
        if !is_blank_line(all[i].as_str()) {
            let line = all[i].clone();
            proof {
                assert(views(out@.push(line)) =~= views(out@).push(line@));
            }
            out.push(line);
        }
        i = i + 1;
    }
    assert(views(all@).take(all@.len() as int) =~= views(all@));
    out
}

} // verus!

verus! {

/// Whether `part` occurs in `text`.
pub open spec fn occurs_in(part: Seq<char>, text: Seq<char>) -> bool {
    exists|i: int| 0 <= i && i + part.len() <= text.len() && #[trigger] text.subrange(i, i + part.len()) == part
}

fn matches_at(text: &Vec<char>, part: &Vec<char>, i: usize) -> (b: bool)
    requires
        i + part@.len() <= text@.len(),
    ensures
        b == (text@.subrange(i as int, i + part@.len()) == part@),
{
    let n = text.len();
    let mut k: usize = 0;
    while k < part.len()
        invariant
            n == text@.len(),
            i + part@.len() <= text@.len(),
            k <= part@.len(),
            forall|j: int| 0 <= j < k ==> text@[i + j] == part@[j],
        decreases part@.len() - k,
    {
        if text[i + k] != part[k] {
            assert(text@.subrange(i as int, i + part@.len())[k as int] != part@[k as int]);
            return false;
        }
        k = k + 1;
    }
    assert(text@.subrange(i as int, i + part@.len()) =~= part@);
    true
}

/// Whether `part` occurs in `text` (what `text.contains(part)` tests).
pub fn contains_text(text: &str, part: &str) -> (b: bool)
    ensures
        b == occurs_in(part@, text@),
{
    let t = chars_of(text);
    let p = chars_of(part);
    if p.len() > t.len() {
        return false;
    }
    if p.len() == 0 {
        assert(text@.subrange(0int, 0int + part@.len()) =~= part@);
        return true;
    }
    let tn = t.len();
    let last = tn - p.len();
    let mut i: usize = 0;
    while i <= last
        invariant
            t@ == text@,
            p@ == part@,
            last == t@.len() - p@.len(),
            p@.len() > 0,
            tn == t@.len(),
            i <= last + 1,
            forall|j: int| 0 <= j < i ==> #[trigger] t@.subrange(j, j + p@.len()) != p@,
        decreases last + 1 - i,
    {
        if matches_at(&t, &p, i) {
            return true;
        }
        i = i + 1;
    }
    false
}

} // verus!

verus! {

/// The records of the log are exactly its lines that are not blank, in
/// their order.
pub proof fn law_records_are_the_non_blank_lines(lines: Seq<Seq<char>>)
    ensures
        non_blank(lines) == lines.filter(|l: Seq<char>| !is_blank(l)),
    decreases lines.len(),
{
    reveal(Seq::filter);
    if lines.len() > 0 {
        law_records_are_the_non_blank_lines(lines.drop_last());
    }
}

proof fn lemma_lines_from_have_no_newline(text: Seq<char>, start: int, i: int)
    requires
        0 <= start <= i <= text.len(),
        forall|k: int| start <= k < i ==> text[k] != '\n',
    ensures
        forall|j: int, k: int|
            0 <= j < lines_from(text, start, i).len() && 0 <= k < lines_from(text, start, i)[j].len()
                ==> #[trigger] lines_from(text, start, i)[j][k] != '\n',
    decreases text.len() - i,
{
    if i >= text.len() {
        if start < text.len() {
            let only = text.subrange(start, text.len() as int);
            assert forall|j: int, k: int|
                0 <= j < lines_from(text, start, i).len() && 0 <= k < lines_from(text, start, i)[j].len()
                    implies #[trigger] lines_from(text, start, i)[j][k] != '\n' by {
                assert(lines_from(text, start, i)[j] == only);
                assert(only[k] == text[start + k]);
            }
        }
    } else if text[i] == '\n' {
        lemma_lines_from_have_no_newline(text, i + 1, i + 1);
        let first = without_cr(text.subrange(start, i));
        let rest = lines_from(text, i + 1, i + 1);
        assert(lines_from(text, start, i) == seq![first] + rest);
        assert forall|j: int, k: int|
            0 <= j < lines_from(text, start, i).len() && 0 <= k < lines_from(text, start, i)[j].len()
                implies #[trigger] lines_from(text, start, i)[j][k] != '\n' by {
            if j == 0 {
                assert(lines_from(text, start, i)[0] == first);
                assert(first[k] == text[start + k]);
            } else {
                assert(lines_from(text, start, i)[j] == rest[j - 1]);
            }
        }
    } else {
        lemma_lines_from_have_no_newline(text, start, i + 1);
        assert(lines_from(text, start, i) == lines_from(text, start, i + 1));
    }
}

/// No line of a text holds a line break.
pub proof fn law_lines_hold_no_line_break(text: Seq<char>)
    ensures
        forall|j: int, k: int|
            0 <= j < spec_lines(text).len() && 0 <= k < spec_lines(text)[j].len()
                ==> #[trigger] spec_lines(text)[j][k] != '\n',
{
    lemma_lines_from_have_no_newline(text, 0, 0);
}

} // verus!

verus! {

/// Lines put back together, each followed by a line break.
pub open spec fn joined(lines: Seq<Seq<char>>) -> Seq<char>
    decreases lines.len(),
{
    if lines.len() == 0 {
        Seq::empty()
    } else {
        lines[0] + seq!['\n'] + joined(lines.drop_first())
    }
}

/// A text from position `start` on, ended by a line break if it is not
/// empty and does not end with one.
pub open spec fn terminated_from(text: Seq<char>, start: int) -> Seq<char> {
    let rest = text.subrange(start, text.len() as int);
    if rest.len() == 0 || rest.last() == '\n' {
        rest
    } else {
        rest.push('\n')
    }
}

proof fn lemma_joined_lines_from(text: Seq<char>, start: int, i: int)
    requires
        0 <= start <= i <= text.len(),
        forall|k: int| start <= k < i ==> text[k] != '\n',
        forall|k: int| 0 <= k < text.len() ==> text[k] != '\r',
    ensures
        joined(lines_from(text, start, i)) == terminated_from(text, start),
    decreases text.len() - i,
{
    if i >= text.len() {
        if start < text.len() {
            let only = text.subrange(start, text.len() as int);
            assert(lines_from(text, start, i) == seq![only]);
            assert(seq![only].drop_first() =~= Seq::<Seq<char>>::empty());
            assert(only.last() == text[text.len() - 1]);
            assert(text[text.len() - 1] != '\n');
            assert(joined(Seq::<Seq<char>>::empty()) =~= Seq::<char>::empty());
            assert(joined(seq![only]) == only + seq!['\n'] + joined(Seq::<Seq<char>>::empty()));
            assert(joined(seq![only]) =~= terminated_from(text, start));
        } else {
            assert(terminated_from(text, start) =~= Seq::<char>::empty());
        }
    } else if text[i] == '\n' {
        lemma_joined_lines_from(text, i + 1, i + 1);
        let line = text.subrange(start, i);
        if line.len() > 0 {
            assert(line.last() == text[i - 1]);
        }
        assert(without_cr(line) == line);
        let ls = lines_from(text, start, i);
        assert(ls == seq![line] + lines_from(text, i + 1, i + 1));
        assert(ls[0] == line);
        assert(ls.drop_first() =~= lines_from(text, i + 1, i + 1));
        let rest = text.subrange(i + 1, text.len() as int);
        let whole = text.subrange(start, text.len() as int);
        assert(whole =~= line + seq!['\n'] + rest);
        if rest.len() == 0 {
            assert(whole.last() == '\n');
            assert(joined(ls) =~= terminated_from(text, start));
        } else {
            assert(whole.last() == rest.last());
            assert(joined(ls) =~= terminated_from(text, start));
        }
    } else {
        lemma_joined_lines_from(text, start, i + 1);
        assert(lines_from(text, start, i) == lines_from(text, start, i + 1));
    }
}

/// Reading a text as lines loses nothing but the line breaks: a text without
/// carriage returns is its lines put back together with line breaks (with a
/// line break added at its end if it did not end with one).
pub proof fn law_lines_join_back(text: Seq<char>)
    requires
        forall|k: int| 0 <= k < text.len() ==> text[k] != '\r',
    ensures
        joined(spec_lines(text)) == (if text.len() == 0 || text.last() == '\n' {
            text
        } else {
            text.push('\n')
        }),
{
    lemma_joined_lines_from(text, 0, 0);
    assert(text.subrange(0, text.len() as int) =~= text);
}

} // verus!
