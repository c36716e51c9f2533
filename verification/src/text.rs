//! Text that the library compares, joins and prints in decimal.

use vstd::prelude::*;
use vstd::string::{StrSliceExecFns, StringExecFns};

verus! {

/// The text of an optional string.
pub open spec fn opt_text(text: Option<String>) -> Option<Seq<char>> {
    match text {
        Some(t) => Some(t@),
        None => None,
    }
}

/// The texts of a run of strings.
pub open spec fn texts(strings: Seq<String>) -> Seq<Seq<char>> {
    strings.map_values(|s: String| s@)
}

/// The views of a run of records.
pub open spec fn views<T: View>(records: Seq<T>) -> Seq<T::V> {
    records.map_values(|r: T| r@)
}

/// Whether two strings hold the same characters.
pub fn str_eq(a: &str, b: &str) -> (r: bool)
    ensures
        r == (a@ == b@),
{
    a.to_owned() == b.to_owned()
}

/// An owned string that starts with `head` and goes on with `tail`.
pub fn joined(head: &str, tail: &str) -> (r: String)
    ensures
        r@ == head@ + tail@,
{
    let mut r = head.to_owned();
    r.append(tail);
    r
}

/// The character that stands for a digit below ten.
pub open spec fn digit_char(d: nat) -> char {
    if d == 0 {
        '0'
    } else if d == 1 {
        '1'
    } else if d == 2 {
        '2'
    } else if d == 3 {
        '3'
    } else if d == 4 {
        '4'
    } else if d == 5 {
        '5'
    } else if d == 6 {
        '6'
    } else if d == 7 {
        '7'
    } else if d == 8 {
        '8'
    } else {
        '9'
    }
}

/// A number in decimal, without sign or leading zeros.
pub open spec fn decimal(n: nat) -> Seq<char>
    decreases n,
{
    if n < 10 {
        seq![digit_char(n)]
    } else {
        decimal(n / 10).push(digit_char(n % 10))
    }
}

fn digit_text(d: u32) -> (r: &'static str)
    requires
        d < 10,
    ensures
        r@ == seq![digit_char(d as nat)],
{
    proof {
        reveal_strlit("0");
        reveal_strlit("1");
        reveal_strlit("2");
        reveal_strlit("3");
        reveal_strlit("4");
        reveal_strlit("5");
        reveal_strlit("6");
        reveal_strlit("7");
        reveal_strlit("8");
        reveal_strlit("9");
    }
    let r = if d == 0 {
        "0"
    } else if d == 1 {
        "1"
    } else if d == 2 {
        "2"
    } else if d == 3 {
        "3"
    } else if d == 4 {
        "4"
    } else if d == 5 {
        "5"
    } else if d == 6 {
        "6"
    } else if d == 7 {
        "7"
    } else if d == 8 {
        "8"
    } else {
        "9"
    };
    assert(r@ =~= seq![digit_char(d as nat)]);
    r
}

/// Prints `n` in decimal, as an argument of a worker takes it.
pub fn decimal_string(n: u32) -> (r: String)
    ensures
        r@ == decimal(n as nat),
    decreases n,
{
    if n < 10 {
        digit_text(n).to_owned()
    } else {
        let mut r = decimal_string(n / 10);
        r.append(digit_text(n % 10));
        assert(r@ =~= decimal(n as nat));
        r
    }
}

/// How many characters stand before the first line feed of a text; its
/// length, where it has none.
pub open spec fn line_length(text: Seq<char>) -> nat
    decreases text.len(),
{
    if text.len() == 0 || text[0] == '\n' {
        0
    } else {
        1 + line_length(text.skip(1))
    }
}

/// A line without the carriage return that may end it.
pub open spec fn without_cr(line: Seq<char>) -> Seq<char> {
    if line.len() > 0 && line.last() == '\r' {
        line.drop_last()
    } else {
        line
    }
}

/// The lines of a text. A line ends at a line feed, or at a carriage return
/// followed by one, neither of which belongs to it; the last line needs no
/// line feed, and a text that ends in one has no further, empty line.
pub open spec fn lines(text: Seq<char>) -> Seq<Seq<char>>
    decreases text.len(),
{
    if text.len() == 0 {
        Seq::empty()
    } else {
        let n = line_length(text) as int;
        if n >= text.len() {
            seq![text]
        } else {
            seq![without_cr(text.take(n))] + lines(text.skip(n + 1))
        }
    }
}

/// Whether a line may hold a JSON document: its first character that is no
/// space opens an object or an array.
pub open spec fn is_json_candidate(line: Seq<char>) -> bool {
    exists|i: int|
        0 <= i < line.len() && (#[trigger] line[i] == '{' || line[i] == '[') && forall|j: int|
            0 <= j < i ==> line[j] == ' '
}

/// The last of the lines that may hold a JSON document.
pub open spec fn last_json_line(lines: Seq<Seq<char>>) -> Option<Seq<char>>
    decreases lines.len(),
{
    if lines.len() == 0 {
        None
    } else if is_json_candidate(lines.last()) {
        Some(lines.last())
    } else {
        last_json_line(lines.drop_last())
    }
}

/// The line of a worker's output that holds its result: the last line that
/// may hold a JSON document, whatever the worker printed before and after.
pub open spec fn json_line(output: Seq<char>) -> Option<Seq<char>> {
    last_json_line(lines(output))
}

proof fn lemma_line_length(text: Seq<char>, n: int)
    requires
        0 <= n <= text.len(),
        forall|j: int| 0 <= j < n ==> text[j] != '\n',
        n == text.len() || text[n] == '\n',
    ensures
        line_length(text) == n,
    decreases n,
{
    if n > 0 {
        let rest = text.skip(1);
        assert forall|j: int| 0 <= j < n - 1 implies rest[j] != '\n' by {
            assert(rest[j] == text[j + 1]);
        }
        lemma_line_length(rest, n - 1);
    }
}

proof fn lemma_candidate(line: Seq<char>, first: int)
    requires
        0 <= first < line.len(),
        line[first] != ' ',
        forall|j: int| 0 <= j < first ==> line[j] == ' ',
    ensures
        is_json_candidate(line) == (line[first] == '{' || line[first] == '['),
{
    if is_json_candidate(line) {
        let i = choose|i: int|
            0 <= i < line.len() && (#[trigger] line[i] == '{' || line[i] == '[') && forall|j: int|
                0 <= j < i ==> line[j] == ' ';
        assert(i == first) by {
            if i < first {
                assert(line[i] == ' ');
            }
            if first < i {
                assert(line[first] == ' ');
            }
        }
    }
    if line[first] == '{' || line[first] == '[' {
        assert(line[first] == '{' || line[first] == '[');
    }
}

proof fn lemma_blank_is_no_candidate(line: Seq<char>)
    requires
        forall|j: int| 0 <= j < line.len() ==> line[j] == ' ',
    ensures
        !is_json_candidate(line),
{
}

/// The length of the first line lies within the text; no line feed stands
/// before it, and one stands at it unless the text ends there.
pub proof fn lemma_line_length_bounds(text: Seq<char>)
    ensures
        line_length(text) <= text.len(),
        forall|j: int| 0 <= j < line_length(text) ==> text[j] != '\n',
        line_length(text) < text.len() ==> text[line_length(text) as int] == '\n',
    decreases text.len(),
{
    if text.len() > 0 && text[0] != '\n' {
        let rest = text.skip(1);
        lemma_line_length_bounds(rest);
        assert forall|j: int| 0 <= j < line_length(text) implies text[j] != '\n' by {
            if j > 0 {
                assert(rest[j - 1] == text[j]);
            }
        }
        if line_length(text) < text.len() {
            assert(rest[line_length(rest) as int] == text[line_length(text) as int]);
        }
    }
}

/// The lines of a text that follows complete lines are the lines of what
/// stands before it, and then its own.
pub proof fn lemma_lines_concat(head: Seq<char>, tail: Seq<char>)
    requires
        head.len() == 0 || head.last() == '\n',
    ensures
        lines(head + tail) == lines(head) + lines(tail),
    decreases head.len(),
{
    if head.len() == 0 {
        assert(head + tail =~= tail);
        assert(lines(head) + lines(tail) =~= lines(tail));
    } else {
        let whole = head + tail;
        let n = line_length(head) as int;
        lemma_line_length_bounds(head);
        assert(n < head.len()) by {
            if n >= head.len() {
                assert(head[head.len() - 1] != '\n');
            }
        }
        assert forall|j: int| 0 <= j < n implies whole[j] != '\n' by {
            assert(whole[j] == head[j]);
        }
        assert(whole[n] == head[n]);
        lemma_line_length(whole, n);
        assert(whole.take(n) =~= head.take(n));
        let rest = head.skip(n + 1);
        assert(whole.skip(n + 1) =~= rest + tail);
        if rest.len() > 0 {
            assert(rest.last() == head.last());
        }
        lemma_lines_concat(rest, tail);
        assert(lines(whole) =~= lines(head) + lines(tail));
    }
}

/// The result line is a line that may hold JSON and after which no such
/// line comes; there is none exactly where no line may hold JSON.
pub proof fn lemma_last_json_line(all: Seq<Seq<char>>)
    ensures
        match last_json_line(all) {
            Some(line) => exists|i: int|
                0 <= i < all.len() && #[trigger] all[i] == line && is_json_candidate(line)
                    && forall|j: int| i < j < all.len() ==> !is_json_candidate(#[trigger] all[j]),
            None => forall|i: int| 0 <= i < all.len() ==> !is_json_candidate(#[trigger] all[i]),
        },
    decreases all.len(),
{
    if all.len() > 0 {
        if is_json_candidate(all.last()) {
            assert(all[all.len() - 1] == all.last());
        } else {
            let before = all.drop_last();
            lemma_last_json_line(before);
            match last_json_line(before) {
                Some(line) => {
                    let i = choose|i: int|
                        0 <= i < before.len() && #[trigger] before[i] == line && is_json_candidate(
                            line,
                        ) && forall|j: int|
                            i < j < before.len() ==> !is_json_candidate(#[trigger] before[j]);
                    assert(all[i] == line);
                    assert forall|j: int| i < j < all.len() implies !is_json_candidate(
                        #[trigger] all[j],
                    ) by {
                        if j < before.len() {
                            assert(before[j] == all[j]);
                        }
                    }
                },
                None => {
                    assert forall|i: int| 0 <= i < all.len() implies !is_json_candidate(
                        #[trigger] all[i],
                    ) by {
                        if i < before.len() {
                            assert(before[i] == all[i]);
                        }
                    }
                },
            }
        }
    }
}

/// Whatever a worker printed on the lines before it, a last line that may
/// hold JSON is the result line, with or without a line feed after it.
pub proof fn lemma_json_after_other_lines(before: Seq<char>, json: Seq<char>)
    requires
        before.len() == 0 || before.last() == '\n',
        forall|i: int| 0 <= i < json.len() ==> json[i] != '\n',
        is_json_candidate(json),
    ensures
        json_line(before + json) == Some(json),
        is_json_candidate(without_cr(json)) ==> json_line(before + json + seq!['\n']) == Some(
            without_cr(json),
        ),
{
    lemma_lines_concat(before, json);
    lemma_line_length(json, json.len() as int);
    assert(lines(json) =~= seq![json]);
    assert(lines(before) + seq![json] =~= lines(before).push(json));
    assert(lines(before).push(json).last() == json);

    let ended = json + seq!['\n'];
    assert(before + json + seq!['\n'] =~= before + ended);
    lemma_lines_concat(before, ended);
    assert forall|j: int| 0 <= j < json.len() implies ended[j] != '\n' by {
        assert(ended[j] == json[j]);
    }
    lemma_line_length(ended, json.len() as int);
    assert(ended.take(json.len() as int) =~= json);
    assert(ended.skip(json.len() as int + 1) =~= Seq::<char>::empty());
    assert(lines(ended.skip(json.len() as int + 1)) =~= Seq::<Seq<char>>::empty());
    assert(lines(ended) =~= seq![without_cr(json)]);
    assert(lines(before) + seq![without_cr(json)] =~= lines(before).push(without_cr(json)));
    assert(lines(before).push(without_cr(json)).last() == without_cr(json));
}

/// Finds the line of a worker's output that holds its result.
pub fn find_json_line(output: &str) -> (r: Option<&str>)
    ensures
        match r {
            Some(line) => json_line(output@) == Some(line@),
            None => json_line(output@) is None,
        },
{
    let len = output.unicode_len();
    let ghost text = output@;
    let ghost mut done: Seq<Seq<char>> = Seq::empty();
    let ghost mut first: int = 0;
    let mut best: Option<(usize, usize)> = None;
    let mut line_start: usize = 0;
    let mut seen = false;
    let mut candidate = false;
    let mut prev_cr = false;
    let mut k: usize = 0;
    proof {
        assert(text.skip(0) =~= text);
        assert(done + lines(text.skip(0)) =~= lines(text));
    }
    for c in it: output.chars()
        invariant
            it.seq() == text,
            text == output@,
            len == text.len(),
            k == it.index(),
            line_start <= k <= len,
            lines(text) == done + lines(text.skip(line_start as int)),
            forall|j: int| line_start <= j < k ==> text[j] != '\n',
            match best {
                Some((a, b)) => a <= b <= len && last_json_line(done) == Some(
                    text.subrange(a as int, b as int),
                ),
                None => last_json_line(done) is None,
            },
            seen ==> line_start <= first < k && text[first] != ' ' && candidate == (text[first]
                == '{' || text[first] == '[') && forall|j: int|
                line_start <= j < first ==> text[j] == ' ',
            !seen ==> !candidate && forall|j: int| line_start <= j < k ==> text[j] == ' ',
            prev_cr == (k > line_start && text[k - 1] == '\r'),
    {
        if c == '\n' {
            let end = if prev_cr {
                k - 1
            } else {
                k
            };
            proof {
                let tail = text.skip(line_start as int);
                let n = k - line_start;
                assert forall|j: int| 0 <= j < n implies tail[j] != '\n' by {
                    assert(tail[j] == text[line_start + j]);
                }
                lemma_line_length(tail, n);
                let raw = text.subrange(line_start as int, k as int);
                assert(tail.take(n) =~= raw);
                assert(tail.skip(n + 1) =~= text.skip(k + 1));
                let line = text.subrange(line_start as int, end as int);
                assert(line =~= without_cr(raw));
                assert(lines(tail) == seq![line] + lines(text.skip(k + 1)));
                assert(done + (seq![line] + lines(text.skip(k + 1))) =~= done.push(line) + lines(
                    text.skip(k + 1),
                ));
                assert(done.push(line).drop_last() =~= done);
                if seen && first < end {
                    lemma_candidate(line, first - line_start);
                } else {
                    lemma_blank_is_no_candidate(line);
                    if seen {
                        assert(text[first] == '\r');
                    }
                }
                assert(is_json_candidate(line) == candidate);
                done = done.push(line);
            }
            if candidate {
                best = Some((line_start, end));
            }
            line_start = k + 1;
            seen = false;
            candidate = false;
            prev_cr = false;
        } else {
            if !seen && c != ' ' {
                seen = true;
                candidate = c == '{' || c == '[';
                proof {
                    first = k as int;
                }
            }
            prev_cr = c == '\r';
        }
        k += 1;
    }
    if line_start < len {
        proof {
            let tail = text.skip(line_start as int);
            assert forall|j: int| 0 <= j < tail.len() implies tail[j] != '\n' by {
                assert(tail[j] == text[line_start + j]);
            }
            lemma_line_length(tail, tail.len() as int);
            assert(tail =~= text.subrange(line_start as int, len as int));
            assert(lines(tail) =~= seq![tail]);
            assert(done + seq![tail] =~= done.push(tail));
            assert(done.push(tail).drop_last() =~= done);
            if seen {
                lemma_candidate(tail, first - line_start);
            } else {
                lemma_blank_is_no_candidate(tail);
            }
            done = done.push(tail);
        }
        if candidate {
            best = Some((line_start, len));
        }
    } else {
        assert(done + lines(text.skip(line_start as int)) =~= done);
    }
    match best {
        Some((a, b)) => Some(output.substring_char(a, b)),
        None => None,
    }
}

/// Whether a character is white space, as Unicode defines it: a tab, a line
/// feed, a vertical tab, a form feed, a carriage return, a space, a next
/// line, a no-break space, an Ogham space mark, one of the spaces from the en
/// quad to the hair space, a line or paragraph separator, a narrow no-break
/// space, a medium mathematical space or an ideographic space.
pub open spec fn is_whitespace(c: char) -> bool {
    let code = c as u32;
    ||| 0x0009 <= code <= 0x000D
    ||| code == 0x0020
    ||| code == 0x0085
    ||| code == 0x00A0
    ||| code == 0x1680
    ||| 0x2000 <= code <= 0x200A
    ||| code == 0x2028
    ||| code == 0x2029
    ||| code == 0x202F
    ||| code == 0x205F
    ||| code == 0x3000
}

/// Whether a character is white space.
pub fn is_space(c: char) -> (r: bool)
    ensures
        r == is_whitespace(c),
{
    let code: u32 = c as u32;
    (0x0009 <= code && code <= 0x000D) || code == 0x0020 || code == 0x0085 || code == 0x00A0
        || code == 0x1680 || (0x2000 <= code && code <= 0x200A) || code == 0x2028 || code
        == 0x2029 || code == 0x202F || code == 0x205F || code == 0x3000
}

/// Whether `trimmed` is `text` without the white space at its two ends.
pub open spec fn is_trimmed_from(trimmed: Seq<char>, text: Seq<char>) -> bool {
    exists|from: int, to: int|
        {
            &&& 0 <= from <= to <= text.len()
            &&& #[trigger] text.subrange(from, to) == trimmed
            &&& forall|k: int| 0 <= k < from ==> is_whitespace(#[trigger] text[k])
            &&& forall|k: int| to <= k < text.len() ==> is_whitespace(#[trigger] text[k])
            &&& from < to ==> !is_whitespace(text[from]) && !is_whitespace(text[to - 1])
        }
}

/// A text has one trimmed form only.
pub proof fn lemma_trimmed_is_unique(first: Seq<char>, second: Seq<char>, text: Seq<char>)
    requires
        is_trimmed_from(first, text),
        is_trimmed_from(second, text),
    ensures
        first == second,
{
    let (f1, t1) = choose|from: int, to: int|
        {
            &&& 0 <= from <= to <= text.len()
            &&& #[trigger] text.subrange(from, to) == first
            &&& forall|k: int| 0 <= k < from ==> is_whitespace(#[trigger] text[k])
            &&& forall|k: int| to <= k < text.len() ==> is_whitespace(#[trigger] text[k])
            &&& from < to ==> !is_whitespace(text[from]) && !is_whitespace(text[to - 1])
        };
    let (f2, t2) = choose|from: int, to: int|
        {
            &&& 0 <= from <= to <= text.len()
            &&& #[trigger] text.subrange(from, to) == second
            &&& forall|k: int| 0 <= k < from ==> is_whitespace(#[trigger] text[k])
            &&& forall|k: int| to <= k < text.len() ==> is_whitespace(#[trigger] text[k])
            &&& from < to ==> !is_whitespace(text[from]) && !is_whitespace(text[to - 1])
        };
    if f1 < t1 && f2 < t2 {
        if f1 < f2 {
            assert(is_whitespace(text[f1]));
        }
        if f2 < f1 {
            assert(is_whitespace(text[f2]));
        }
        if t1 < t2 {
            assert(is_whitespace(text[t2 - 1]));
        }
        if t2 < t1 {
            assert(is_whitespace(text[t1 - 1]));
        }
    } else if f1 < t1 {
        if f1 < f2 {
            assert(is_whitespace(text[f1]));
        } else {
            assert(is_whitespace(text[f1]));
        }
    } else if f2 < t2 {
        if f2 < f1 {
            assert(is_whitespace(text[f2]));
        } else {
            assert(is_whitespace(text[f2]));
        }
    } else {
        assert(text.subrange(f1, t1) =~= text.subrange(f2, t2));
    }
}

/// The text without the white space at its two ends.
pub fn trimmed(text: &str) -> (r: &str)
    ensures
        is_trimmed_from(r@, text@),
{
    let len = text.unicode_len();
    let ghost all = text@;
    let mut from: usize = 0;
    let mut to: usize = 0;
    let mut found = false;
    let mut k: usize = 0;
    for c in it: text.chars()
        invariant
            it.seq() == all,
            all == text@,
            len == all.len(),
            k == it.index(),
            k <= len,
            !found ==> from == 0 && to == 0 && forall|j: int|
                0 <= j < k ==> is_whitespace(#[trigger] all[j]),
            found ==> from < to <= k && !is_whitespace(all[from as int]) && !is_whitespace(
                all[to - 1],
            ) && (forall|j: int| 0 <= j < from ==> is_whitespace(#[trigger] all[j])) && (forall|
                j: int,
            |
                to <= j < k ==> is_whitespace(#[trigger] all[j])),
    {
        if !is_space(c) {
            if !found {
                found = true;
                from = k;
            }
            to = k + 1;
        }
        k += 1;
    }
    let r = text.substring_char(from, to);
    assert(all.subrange(from as int, to as int) == r@);
    r
}

} // verus!
