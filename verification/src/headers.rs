//! Header rows as text, one `Key: Value` per line.

use vstd::prelude::*;
use crate::http::{KeyValue, KeyValueModel, text_row};
use crate::text::{
    all_white, chars_of, is_blank, is_white_space, lemma_trimmed_core, lemma_trimmed_is_core,
    lemma_trimmed_tight, trim, trimmed,
};

verus! {

/// The pieces of `text` between the occurrences of `c`.
pub open spec fn split_at(text: Seq<char>, c: char) -> Seq<Seq<char>>
    decreases text.len(),
{
    if text.len() == 0 {
        seq![Seq::empty()]
    } else {
        let before = split_at(text.drop_last(), c);
        if text.last() == c {
            before.push(Seq::empty())
        } else {
            before.drop_last().push(before.last().push(text.last()))
        }
    }
}

/// The index of the first `c` in `text`, or the length of `text`.
pub open spec fn index_of_char(text: Seq<char>, c: char) -> int
    decreases text.len(),
{
    if text.len() == 0 || text[0] == c {
        0
    } else {
        1 + index_of_char(text.drop_first(), c)
    }
}

/// What stands before and after the first `c` in `text`.
pub open spec fn split_once(text: Seq<char>, c: char) -> Option<(Seq<char>, Seq<char>)> {
    let i = index_of_char(text, c);
    if i < text.len() {
        Some((text.take(i), text.skip(i + 1)))
    } else {
        None
    }
}

proof fn lemma_index_of_char(text: Seq<char>, c: char, i: int)
    requires
        0 <= i <= text.len(),
        forall|k: int| 0 <= k < i ==> #[trigger] text[k] != c,
        i < text.len() ==> text[i] == c,
    ensures
        index_of_char(text, c) == i,
    decreases text.len(),
{
    if i > 0 {
        let rest = text.drop_first();
        assert(text[0] != c);
        assert forall|k: int| 0 <= k < i - 1 implies #[trigger] rest[k] != c by {
            assert(rest[k] == text[k + 1]);
        }
        lemma_index_of_char(rest, c, i - 1);
    }
}

/// The rows that lines of headers stand for, or the first line (without the white
/// space around it) that has no colon. Blank lines stand for nothing.
pub open spec fn parsed_lines(lines: Seq<Seq<char>>) -> Result<Seq<KeyValueModel>, Seq<char>>
    decreases lines.len(),
{
    if lines.len() == 0 {
        Ok(Seq::empty())
    } else {
        match parsed_lines(lines.drop_last()) {
            Err(line) => Err(line),
            Ok(rows) => {
                let line = trimmed(lines.last());
                if line.len() == 0 {
                    Ok(rows)
                } else {
                    match split_once(line, ':') {
                        Some((key, value)) => Ok(rows.push(text_row(trimmed(key), trimmed(value)))),
                        None => Err(line),
                    }
                }
            },
        }
    }
}

/// The rows that a text of headers stands for, or its first line without a colon.
pub open spec fn parsed_headers(text: Seq<char>) -> Result<Seq<KeyValueModel>, Seq<char>> {
    parsed_lines(split_at(text, '\n'))
}

/// Reads one line: `Ok(None)` for a blank one, an error for one without a colon.
fn parse_line(line: &str) -> (r: Result<Option<KeyValue>, String>)
    ensures
        ({
            let t = trimmed(line@);
            match r {
                Ok(None) => t.len() == 0,
                Ok(Some(row)) => t.len() > 0 && (split_once(t, ':') matches Some((key, value))
                    && row.deep_view() == text_row(trimmed(key), trimmed(value))),
                Err(e) => t.len() > 0 && split_once(t, ':') is None && e@ == t,
            }
        }),
{
    let t = trim(line);
    let chars = chars_of(t);
    if chars.len() == 0 {
        return Ok(None);
    }
    let mut i: usize = 0;
    while i < chars.len() && chars[i] != ':'
        invariant
            chars@ == t@,
            i <= chars.len(),
            forall|k: int| 0 <= k < i ==> #[trigger] t@[k] != ':',
        decreases chars.len() - i,
    {
        i = i + 1;
    }
    proof {
        lemma_index_of_char(t@, ':', i as int);
    }
    if i == chars.len() {
        return Err(t.to_owned());
    }
    let key = t.substring_char(0, i);
    let value = t.substring_char(i + 1, chars.len());
    assert(key@ =~= t@.take(i as int));
    assert(value@ =~= t@.skip(i + 1));
    Ok(Some(KeyValue::new(trim(key), trim(value))))
}

/// Reads a text of headers, one `Key: Value` per line. Fails with the first line
/// that has no colon.
pub fn parse_headers(text: &str) -> (r: Result<Vec<KeyValue>, String>)
    ensures
        match r {
            Ok(rows) => parsed_headers(text@) == Ok::<Seq<KeyValueModel>, Seq<char>>(rows.deep_view()),
            Err(line) => parsed_headers(text@) == Err::<Seq<KeyValueModel>, Seq<char>>(line@),
        },
{
    let chars = chars_of(text);
    let n = chars.len();
    let mut rows: Vec<KeyValue> = Vec::new();
    let mut start: usize = 0;
    let mut i: usize = 0;
    let ghost mut done: Seq<Seq<char>> = Seq::empty();
    let ghost lines = split_at(text@, '\n');
    assert(text@.take(0) =~= Seq::<char>::empty());
    assert(split_at(text@.take(0), '\n') =~= done.push(text@.subrange(0, 0)));
    assert(rows.deep_view() =~= Seq::<KeyValueModel>::empty());
    proof {
        lemma_split_prefix(text@, '\n', 0);
    }
    while i < n
        invariant
            n == chars.len(),
            chars@ == text@,
            lines == split_at(text@, '\n'),
            start <= i <= n,
            split_at(text@.take(i as int), '\n') == done.push(text@.subrange(start as int, i as int)),
            parsed_lines(done) == Ok::<Seq<KeyValueModel>, Seq<char>>(rows.deep_view()),
        decreases n - i,
    {
        let ghost before = text@.take(i as int);
        let ghost after = text@.take(i + 1);
        assert(after.drop_last() =~= before);
        assert(after.last() == chars@[i as int]);
        let ghost piece = text@.subrange(start as int, i as int);
        proof {
            assert(done.push(piece).drop_last() =~= done);
            assert(done.push(piece).last() == piece);
        }
        if chars[i] == '\n' {
            let line = text.substring_char(start, i);
            let ghost held = rows.deep_view();
            match parse_line(line) {
                Ok(None) => {},
                Ok(Some(row)) => {
                    rows.push(row);
                    assert(rows.deep_view() =~= held.push(row.deep_view()));
                },
                Err(e) => {
                    proof {
                        assert(parsed_lines(done.push(piece)) is Err);
                        lemma_split_prefix(text@, '\n', i + 1);
                        assert(done.push(piece).push(Seq::empty()).drop_last() =~= done.push(piece));
                        lemma_error_stays(done.push(piece), lines);
                    }
                    return Err(e);
                },
            }
            proof {
                done = done.push(piece);
                assert(text@.subrange(i + 1, i + 1) =~= Seq::<char>::empty());
            }
            start = i + 1;
        } else {
            assert(piece.push(chars@[i as int]) =~= text@.subrange(start as int, i + 1));
        }
        i = i + 1;
    }
    assert(text@.take(n as int) =~= text@);
    let line = text.substring_char(start, n);
    let ghost held = rows.deep_view();
    proof {
        assert(done.push(line@).drop_last() =~= done);
        assert(done.push(line@).last() == line@);
    }
    match parse_line(line) {
        Ok(None) => {},
        Ok(Some(row)) => {
            rows.push(row);
            assert(rows.deep_view() =~= held.push(row.deep_view()));
        },
        Err(e) => {
            return Err(e);
        },
    }
    Ok(rows)
}

/// Reading more text keeps the pieces that are already closed.
proof fn lemma_split_prefix(text: Seq<char>, c: char, n: int)
    requires
        0 <= n <= text.len(),
    ensures
        split_at(text.take(n), c).len() >= 1,
        split_at(text, c).len() >= split_at(text.take(n), c).len(),
        split_at(text, c).take(split_at(text.take(n), c).len() - 1) == split_at(
            text.take(n),
            c,
        ).drop_last(),
    decreases text.len() - n,
{
    lemma_split_not_empty(text.take(n), c);
    let some = split_at(text.take(n), c);
    if n == text.len() {
        assert(text.take(n) =~= text);
        assert(split_at(text, c).take(some.len() - 1) =~= some.drop_last());
    } else {
        lemma_split_prefix(text, c, n + 1);
        let more = split_at(text.take(n + 1), c);
        assert(text.take(n + 1).drop_last() =~= text.take(n));
        assert(more.drop_last().take(some.len() - 1) =~= some.drop_last());
        assert(split_at(text, c).take(some.len() - 1) =~= split_at(text, c).take(
            more.len() - 1,
        ).take(some.len() - 1));
    }
}

proof fn lemma_split_not_empty(text: Seq<char>, c: char)
    ensures
        split_at(text, c).len() >= 1,
    decreases text.len(),
{
    if text.len() > 0 {
        lemma_split_not_empty(text.drop_last(), c);
    }
}

/// An error in the first lines is the error of all the lines.
proof fn lemma_error_stays(first: Seq<Seq<char>>, lines: Seq<Seq<char>>)
    requires
        first.len() <= lines.len(),
        lines.take(first.len() as int) == first,
        parsed_lines(first) is Err,
    ensures
        parsed_lines(lines) == parsed_lines(first),
    decreases lines.len(),
{
    if first.len() == lines.len() {
        assert(lines.take(first.len() as int) =~= lines);
    } else {
        assert(lines.drop_last().take(first.len() as int) =~= lines.take(first.len() as int));
        lemma_error_stays(first, lines.drop_last());
    }
}

/// The line that a row is written as.
pub open spec fn header_line(row: KeyValueModel) -> Seq<char> {
    trimmed(row.key) + seq![':', ' '] + trimmed(row.value)
}

/// The lines that rows are written as: one for each row whose key is not blank.
pub open spec fn header_lines(rows: Seq<KeyValueModel>) -> Seq<Seq<char>>
    decreases rows.len(),
{
    if rows.len() == 0 {
        Seq::empty()
    } else if trimmed(rows.last().key).len() > 0 {
        header_lines(rows.drop_last()).push(header_line(rows.last()))
    } else {
        header_lines(rows.drop_last())
    }
}

/// Lines with a line feed between each two.
pub open spec fn joined_lines(lines: Seq<Seq<char>>) -> Seq<char>
    decreases lines.len(),
{
    if lines.len() == 0 {
        Seq::empty()
    } else if lines.len() == 1 {
        lines[0]
    } else {
        joined_lines(lines.drop_last()) + seq!['\n'] + lines.last()
    }
}

/// The rows whose key is not blank, as text: one `Key: Value` per line.
pub fn kv_text(rows: &[KeyValue]) -> (r: String)
    ensures
        r@ == joined_lines(header_lines(rows.deep_view())),
{
    let ghost model = rows.deep_view();
    let mut r = String::new();
    let mut first = true;
    let mut i: usize = 0;
    assert(model.take(0) =~= Seq::<KeyValueModel>::empty());
    while i < rows.len()
        invariant
            model == rows.deep_view(),
            i <= rows.len(),
            first == (header_lines(model.take(i as int)).len() == 0),
            r@ == joined_lines(header_lines(model.take(i as int))),
        decreases rows.len() - i,
    {
        let row = &rows[i];
        let ghost lines = header_lines(model.take(i as int));
        assert(model[i as int] == row.deep_view());
        assert(model.take(i + 1).drop_last() =~= model.take(i as int));
        assert(model.take(i + 1).last() == row.deep_view());
        if !is_blank(row.key.as_str()) {
            proof {
                reveal_strlit("\n");
                reveal_strlit(": ");
                let next = lines.push(header_line(row.deep_view()));
                assert(next.drop_last() =~= lines);
                assert("\n"@ =~= seq!['\n']);
                assert(": "@ =~= seq![':', ' ']);
            }
            let ghost held = r@;
            if !first {
                r.append("\n");
            }
            r.append(trim(row.key.as_str()));
            r.append(": ");
            r.append(trim(row.value.as_str()));
            proof {
                let line = header_line(row.deep_view());
                if lines.len() == 0 {
                    assert(r@ =~= line);
                } else {
                    assert(r@ =~= held + seq!['\n'] + line);
                }
            }
            first = false;
        }
        i = i + 1;
    }
    assert(model.take(model.len() as int) =~= model);
    r
}

/// Whether a row survives being written and read back: its key has no colon and no
/// line feed, and its value has no line feed.
pub open spec fn fits_a_line(row: KeyValueModel) -> bool {
    &&& !row.key.contains(':')
    &&& !row.key.contains('\n')
    &&& !row.value.contains('\n')
}

/// The rows that are written, without the white space around keys and values.
pub open spec fn written_rows(rows: Seq<KeyValueModel>) -> Seq<KeyValueModel>
    decreases rows.len(),
{
    if rows.len() == 0 {
        Seq::empty()
    } else if trimmed(rows.last().key).len() > 0 {
        written_rows(rows.drop_last()).push(
            text_row(trimmed(rows.last().key), trimmed(rows.last().value)),
        )
    } else {
        written_rows(rows.drop_last())
    }
}

proof fn lemma_split_line(text: Seq<char>, c: char)
    requires
        !text.contains(c),
    ensures
        split_at(text, c) == seq![text],
    decreases text.len(),
{
    if text.len() > 0 {
        assert forall|k: int| 0 <= k < text.drop_last().len() implies text.drop_last()[k] != c by {
            assert(text.contains(text[k]));
        }
        lemma_split_line(text.drop_last(), c);
        assert(text.contains(text.last()));
        assert(text.drop_last().push(text.last()) =~= text);
        assert(split_at(text, c) =~= seq![text]);
    } else {
        assert(text =~= Seq::<char>::empty());
    }
}

/// Splitting what was split before, then a separator and a piece without one.
proof fn lemma_split_append(text: Seq<char>, c: char, piece: Seq<char>)
    requires
        !piece.contains(c),
    ensures
        split_at(text + seq![c] + piece, c) == split_at(text, c).push(piece),
    decreases piece.len(),
{
    let whole = text + seq![c] + piece;
    if piece.len() == 0 {
        assert(whole.drop_last() =~= text);
        assert(whole.last() == c);
        assert(piece =~= Seq::<char>::empty());
    } else {
        let shorter = piece.drop_last();
        assert forall|k: int| 0 <= k < shorter.len() implies shorter[k] != c by {
            assert(piece.contains(piece[k]));
        }
        lemma_split_append(text, c, shorter);
        assert(piece.contains(piece.last()));
        assert(whole.drop_last() =~= text + seq![c] + shorter);
        assert(whole.last() == piece.last());
        assert(shorter.push(piece.last()) =~= piece);
        let before = split_at(text, c).push(shorter);
        assert(before.drop_last() =~= split_at(text, c));
    }
}

proof fn lemma_split_joined(lines: Seq<Seq<char>>)
    requires
        lines.len() > 0,
        forall|i: int| 0 <= i < lines.len() ==> !(#[trigger] lines[i]).contains('\n'),
    ensures
        split_at(joined_lines(lines), '\n') == lines,
    decreases lines.len(),
{
    if lines.len() == 1 {
        lemma_split_line(lines[0], '\n');
        assert(seq![lines[0]] =~= lines);
    } else {
        let fewer = lines.drop_last();
        assert forall|i: int| 0 <= i < fewer.len() implies !(#[trigger] fewer[i]).contains(
            '\n',
        ) by {
            assert(fewer[i] == lines[i]);
        }
        lemma_split_joined(fewer);
        assert(!lines[lines.len() - 1].contains('\n'));
        lemma_split_append(joined_lines(fewer), '\n', lines.last());
        assert(fewer.push(lines.last()) =~= lines);
    }
}

/// Trimming takes characters away and adds none.
proof fn lemma_trimmed_subset(s: Seq<char>, c: char)
    requires
        !s.contains(c),
    ensures
        !trimmed(s).contains(c),
{
    lemma_trimmed_is_core(s);
    let (before, after) = choose|before: Seq<char>, after: Seq<char>|
        all_white(before) && all_white(after) && #[trigger] (before + trimmed(s) + after) == s;
    let t = trimmed(s);
    if t.contains(c) {
        let i = choose|i: int| 0 <= i < t.len() && t[i] == c;
        assert(s[before.len() + i] == c);
        assert(s.contains(c));
    }
}

proof fn lemma_line_read_back(row: KeyValueModel)
    requires
        fits_a_line(row),
        trimmed(row.key).len() > 0,
    ensures
        !header_line(row).contains('\n'),
        trimmed(header_line(row)).len() > 0,
        split_once(trimmed(header_line(row)), ':') matches Some((k, v)) && trimmed(k) == trimmed(
            row.key,
        ) && trimmed(v) == trimmed(row.value),
{
    let key = trimmed(row.key);
    let value = trimmed(row.value);
    let line = header_line(row);
    lemma_trimmed_subset(row.key, ':');
    lemma_trimmed_subset(row.key, '\n');
    lemma_trimmed_subset(row.value, '\n');
    lemma_trimmed_is_core(row.key);
    lemma_trimmed_is_core(row.value);
    assert forall|i: int| 0 <= i < line.len() implies #[trigger] line[i] != '\n' by {
        if i < key.len() {
            assert(key.contains(key[i]));
        } else if i >= key.len() + 2 {
            assert(value.contains(value[i - key.len() - 2]));
        }
    }
    let none = Seq::<char>::empty();
    let space = seq![' '];
    assert(all_white(space)) by {
        assert(is_white_space(' '));
    }
    let core = if value.len() > 0 {
        line
    } else {
        key + seq![':']
    };
    if value.len() > 0 {
        assert(core[0] == key[0]);
        assert(core.last() == value.last());
        lemma_trimmed_tight(line);
    } else {
        assert(core[0] == key[0]);
        assert(core.last() == ':');
        assert(none + core + space =~= line);
        lemma_trimmed_core(none, core, space);
    }
    assert forall|k: int| 0 <= k < key.len() implies #[trigger] core[k] != ':' by {
        assert(key.contains(key[k]));
    }
    lemma_index_of_char(core, ':', key.len() as int);
    assert(core.take(key.len() as int) =~= key);
    lemma_trimmed_tight(key);
    let tail = core.skip(key.len() as int + 1);
    if value.len() > 0 {
        assert(tail =~= space + value + none);
        lemma_trimmed_core(space, value, none);
    } else {
        assert(tail =~= value);
        lemma_trimmed_tight(value);
    }
}

proof fn lemma_lines_read_back(rows: Seq<KeyValueModel>)
    requires
        forall|i: int| 0 <= i < rows.len() && trimmed((#[trigger] rows[i]).key).len() > 0
            ==> fits_a_line(rows[i]),
    ensures
        parsed_lines(header_lines(rows)) == Ok::<Seq<KeyValueModel>, Seq<char>>(written_rows(rows)),
        forall|i: int| 0 <= i < header_lines(rows).len() ==> !(#[trigger] header_lines(
            rows,
        )[i]).contains('\n'),
    decreases rows.len(),
{
    if rows.len() > 0 {
        let fewer = rows.drop_last();
        assert forall|i: int| 0 <= i < fewer.len() && trimmed((#[trigger] fewer[i]).key).len()
            > 0 implies fits_a_line(fewer[i]) by {
            assert(fewer[i] == rows[i]);
        }
        lemma_lines_read_back(fewer);
        let row = rows[rows.len() - 1];
        if trimmed(row.key).len() > 0 {
            lemma_line_read_back(row);
            let lines = header_lines(fewer).push(header_line(row));
            assert(lines.drop_last() =~= header_lines(fewer));
            assert forall|i: int| 0 <= i < lines.len() implies !(#[trigger] lines[i]).contains(
                '\n',
            ) by {
                if i < header_lines(fewer).len() {
                    assert(lines[i] == header_lines(fewer)[i]);
                }
            }
        }
    }
}

/// Reading what was written gives back every row with a key, enabled and without the
/// white space around its key and value. It takes keys without a colon, and keys and
/// values without a line feed.
pub proof fn law_headers_read_back(rows: Seq<KeyValueModel>)
    requires
        forall|i: int| 0 <= i < rows.len() && trimmed((#[trigger] rows[i]).key).len() > 0
            ==> fits_a_line(rows[i]),
    ensures
        parsed_headers(joined_lines(header_lines(rows))) == Ok::<Seq<KeyValueModel>, Seq<char>>(
            written_rows(rows),
        ),
{
    lemma_lines_read_back(rows);
    let lines = header_lines(rows);
    if lines.len() > 0 {
        lemma_split_joined(lines);
    } else {
        let none = Seq::<char>::empty();
        lemma_split_line(none, '\n');
        lemma_trimmed_tight(none);
        let blank = seq![none];
        assert(blank.drop_last() =~= lines);
        assert(blank.last() == none);
        assert(parsed_lines(blank) == parsed_lines(lines));
    }
}

/// White space around a text does not change what trimming leaves of it.
proof fn lemma_trimmed_around(before: Seq<char>, text: Seq<char>, after: Seq<char>)
    requires
        all_white(before),
        all_white(after),
    ensures
        trimmed(before + text + after) == trimmed(text),
{
    lemma_trimmed_is_core(text);
    let core = trimmed(text);
    let (a, b) = choose|a: Seq<char>, b: Seq<char>|
        all_white(a) && all_white(b) && #[trigger] (a + core + b) == text;
    let left = before + a;
    let right = b + after;
    assert forall|i: int| 0 <= i < left.len() implies is_white_space(#[trigger] left[i]) by {
        if i < before.len() {
            assert(left[i] == before[i]);
        } else {
            assert(left[i] == a[i - before.len()]);
        }
    }
    assert forall|i: int| 0 <= i < right.len() implies is_white_space(#[trigger] right[i]) by {
        if i < b.len() {
            assert(right[i] == b[i]);
        } else {
            assert(right[i] == after[i - b.len()]);
        }
    }
    assert(before + text + after =~= left + core + right);
    lemma_trimmed_core(left, core, right);
}

/// A line is split at its first colon, whatever white space is around it.
proof fn lemma_line_split(key: Seq<char>, value: Seq<char>)
    requires
        !key.contains(':'),
    ensures
        ({
            let line = trimmed(key + seq![':'] + value);
            &&& line.len() > 0
            &&& split_once(line, ':') matches Some((k, v)) && trimmed(k) == trimmed(key)
                && trimmed(v) == trimmed(value)
        }),
{
    let whole = key + seq![':'] + value;
    let line = trimmed(whole);
    lemma_trimmed_is_core(whole);
    let (before, after) = choose|a: Seq<char>, b: Seq<char>|
        all_white(a) && all_white(b) && #[trigger] (a + line + b) == whole;
    let p = key.len() as int;
    let b = before.len() as int;
    let n = line.len() as int;
    assert(!is_white_space(':'));
    assert(whole[p] == ':');
    if b > p {
        assert(before[p] == whole[p]);
        assert(is_white_space(before[p]));
    }
    if p >= b + n {
        assert(after[p - b - n] == whole[p]);
        assert(is_white_space(after[p - b - n]));
    }
    let at = p - b;
    assert(line[at] == whole[p]);
    assert forall|k: int| 0 <= k < at implies #[trigger] line[k] != ':' by {
        assert(line[k] == whole[b + k]);
        assert(whole[b + k] == key[b + k]);
        assert(key.contains(key[b + k]));
    }
    lemma_index_of_char(line, ':', at);
    let none = Seq::<char>::empty();
    let k = line.take(at);
    let v = line.skip(at + 1);
    assert forall|i: int| 0 <= i < key.len() implies #[trigger] (before + k)[i] == key[i] by {
        assert(whole[i] == key[i]);
        assert((before + line + after)[i] == whole[i]);
    }
    assert(before + k + none =~= key);
    assert forall|i: int| 0 <= i < value.len() implies #[trigger] (v + after)[i] == value[i] by {
        assert(whole[p + 1 + i] == value[i]);
        assert((before + line + after)[p + 1 + i] == whole[p + 1 + i]);
    }
    assert(none + v + after =~= value);
    lemma_trimmed_around(before, k, none);
    lemma_trimmed_around(none, v, after);
}

/// How a text of headers is read, line by line. One more line changes nothing of an error
/// before it. A blank one adds nothing, one without a colon is the error, without the white
/// space around it, and one with a colon adds an enabled text row: its key is what stands
/// before the first colon and its value all that stands behind it, without the white space
/// around them.
pub proof fn law_headers_are_read_by_lines(text: Seq<char>, key: Seq<char>, value: Seq<char>)
    requires
        !key.contains('\n'),
        !value.contains('\n'),
        !key.contains(':'),
    ensures
        ({
            let before = parsed_headers(text);
            let bare = parsed_headers(text + seq!['\n'] + key);
            let full = parsed_headers(text + seq!['\n'] + (key + seq![':'] + value));
            &&& before is Err ==> bare == before && full == before
            &&& before is Ok && trimmed(key).len() == 0 ==> bare == before
            &&& before is Ok && trimmed(key).len() > 0 ==> bare
                == Err::<Seq<KeyValueModel>, Seq<char>>(trimmed(key))
            &&& before is Ok ==> {
                &&& full is Ok
                &&& full->Ok_0.len() == before->Ok_0.len() + 1
                &&& full->Ok_0.drop_last() == before->Ok_0
                &&& full->Ok_0.last().key == trimmed(key)
                &&& full->Ok_0.last().value == trimmed(value)
                &&& full->Ok_0.last().enabled
                &&& full->Ok_0.last().field_type is Text
                &&& full->Ok_0.last().file_path is None
            }
        }),
{
    let line = key + seq![':'] + value;
    assert forall|i: int| 0 <= i < line.len() implies #[trigger] line[i] != '\n' by {
        if i < key.len() {
            assert(key.contains(key[i]));
        } else if i > key.len() {
            assert(value.contains(value[i - key.len() - 1]));
        }
    }
    lemma_split_append(text, '\n', key);
    lemma_split_append(text, '\n', line);
    let lines = split_at(text, '\n');
    assert(lines.push(key).drop_last() =~= lines);
    assert(lines.push(line).drop_last() =~= lines);
    lemma_line_split(key, value);
    let bare = trimmed(key);
    assert forall|k: int| 0 <= k < bare.len() implies #[trigger] bare[k] != ':' by {
        if bare.contains(':') {
            lemma_trimmed_subset(key, ':');
        }
        assert(bare.contains(bare[k]));
    }
    lemma_index_of_char(bare, ':', bare.len() as int);
    if let Ok(rows) = parsed_headers(text) {
        let row = text_row(trimmed(key), trimmed(value));
        assert(rows.push(row).drop_last() =~= rows);
    }
}

/// A text of a single line is read as that line is behind a text of nothing.
pub proof fn law_one_header_line(line: Seq<char>)
    requires
        !line.contains('\n'),
    ensures
        parsed_headers(line) == parsed_headers(Seq::<char>::empty() + seq!['\n'] + line),
        parsed_headers(Seq::<char>::empty()) == Ok::<Seq<KeyValueModel>, Seq<char>>(Seq::empty()),
{
    let none = Seq::<char>::empty();
    lemma_split_line(line, '\n');
    lemma_split_append(none, '\n', line);
    assert(split_at(none, '\n') == seq![none]);
    let one = seq![line];
    let two = seq![none].push(line);
    assert(two.drop_last() =~= seq![none]);
    assert(one.drop_last() =~= Seq::<Seq<char>>::empty());
    assert(seq![none].drop_last() =~= Seq::<Seq<char>>::empty());
    let empty = Seq::<Seq<char>>::empty();
    assert(parsed_lines(empty) == Ok::<Seq<KeyValueModel>, Seq<char>>(Seq::empty()));
    lemma_trimmed_tight(none);
    assert(seq![none].last() == none);
    assert(parsed_lines(seq![none]) == parsed_lines(empty));
    assert(one.last() == line && two.last() == line);
}

/// How rows are written as text, row by row. A row with a blank key is left out. Any other is
/// a line of its own: its key, a colon, a space and its value, without the white space around
/// them, behind a line feed where there is a line before it.
pub proof fn law_headers_are_written_by_rows(rows: Seq<KeyValueModel>, row: KeyValueModel)
    ensures
        ({
            let before = joined_lines(header_lines(rows));
            let after = joined_lines(header_lines(rows.push(row)));
            let line = trimmed(row.key) + seq![':', ' '] + trimmed(row.value);
            let first = forall|i: int|
                0 <= i < rows.len() ==> trimmed((#[trigger] rows[i]).key).len() == 0;
            &&& trimmed(row.key).len() == 0 ==> after == before
            &&& trimmed(row.key).len() > 0 && first ==> after == line
            &&& trimmed(row.key).len() > 0 && !first ==> after == before + seq!['\n'] + line
        }),
{
    let more = rows.push(row);
    let line = trimmed(row.key) + seq![':', ' '] + trimmed(row.value);
    assert(more.drop_last() =~= rows);
    assert(more.last() == row);
    lemma_no_line(rows);
    assert(header_line(row) =~= line);
    if trimmed(row.key).len() > 0 {
        let lines = header_lines(rows).push(header_line(row));
        assert(header_lines(more) == lines);
        assert(lines.drop_last() =~= header_lines(rows));
        assert(lines.last() == header_line(row));
    }
}

proof fn lemma_no_line(rows: Seq<KeyValueModel>)
    ensures
        header_lines(rows).len() == 0 <==> forall|i: int|
            0 <= i < rows.len() ==> trimmed((#[trigger] rows[i]).key).len() == 0,
    decreases rows.len(),
{
    if rows.len() > 0 {
        let fewer = rows.drop_last();
        lemma_no_line(fewer);
        assert(rows.last() == rows[rows.len() - 1]);
        assert(forall|i: int| 0 <= i < fewer.len() ==> #[trigger] fewer[i] == rows[i]);
        if header_lines(rows).len() == 0 {
            assert forall|i: int| 0 <= i < rows.len() implies trimmed(
                (#[trigger] rows[i]).key,
            ).len() == 0 by {
                if i < fewer.len() {
                    assert(fewer[i] == rows[i]);
                }
            }
        }
        if forall|i: int| 0 <= i < rows.len() ==> trimmed((#[trigger] rows[i]).key).len() == 0 {
            assert forall|i: int| 0 <= i < fewer.len() implies trimmed(
                (#[trigger] fewer[i]).key,
            ).len() == 0 by {
                assert(fewer[i] == rows[i]);
            }
            assert(trimmed(rows[rows.len() - 1].key).len() == 0);
        }
    }
}

} // verus!
