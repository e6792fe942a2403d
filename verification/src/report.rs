//! The report that `batctl` prints for one interface, read as a mapping
//! from counter names to values.
//!
//! The report is a text of lines `key: number`. A line that has no colon,
//! or whose value is no number, is left out; the rest of the report still
//! counts. Where a key occurs twice, the later line wins.

use crate::number::{is_number, lemma_number_chars, number};
use crate::text::{
    find, free_of, is_whitespace, lemma_position_is, lemma_trim_edges, lemma_trim_fixed, position,
    to_chars, to_text, trim, trim_start, trimmed,
};
use vstd::hash_map::StringHashMap;
use vstd::prelude::*;
use vstd::slice::slice_subrange;

verus! {

/// The lines of `s`: the stretches between its line feeds.
pub open spec fn split_lines(s: Seq<char>) -> Seq<Seq<char>>
    decreases s.len(),
{
    let i = position(s, '\n');
    if 0 <= i < s.len() {
        seq![s.take(i)] + split_lines(s.skip(i + 1))
    } else {
        seq![s]
    }
}

/// The lines joined by line feeds.
pub open spec fn join_lines(lines: Seq<Seq<char>>) -> Seq<char>
    decreases lines.len(),
{
    if lines.len() == 0 {
        Seq::empty()
    } else if lines.len() == 1 {
        lines[0]
    } else {
        lines[0] + seq!['\n'] + join_lines(lines.skip(1))
    }
}

/// The key and the value that a line gives, if it gives any: the line is
/// trimmed and cut at its first colon, both parts are trimmed, and the
/// second must be a number.
pub open spec fn line_entry(line: Seq<char>) -> Option<(Seq<char>, Seq<char>)> {
    let t = trim(line);
    let i = position(t, ':');
    if 0 <= i < t.len() {
        let value = trim(t.skip(i + 1));
        if is_number(value) {
            Some((trim(t.take(i)), value))
        } else {
            None
        }
    } else {
        None
    }
}

/// The mapping `m` after one more line.
pub open spec fn apply_line(m: Map<Seq<char>, Seq<char>>, line: Seq<char>) -> Map<
    Seq<char>,
    Seq<char>,
> {
    match line_entry(line) {
        Some((key, value)) => m.insert(key, value),
        None => m,
    }
}

/// The mapping `m` after the lines, taken in their order.
pub open spec fn fold_entries(m: Map<Seq<char>, Seq<char>>, lines: Seq<Seq<char>>) -> Map<
    Seq<char>,
    Seq<char>,
>
    decreases lines.len(),
{
    if lines.len() == 0 {
        m
    } else {
        fold_entries(apply_line(m, lines[0]), lines.skip(1))
    }
}

/// The mapping that a sequence of lines gives.
pub open spec fn entries(lines: Seq<Seq<char>>) -> Map<Seq<char>, Seq<char>> {
    fold_entries(Map::empty(), lines)
}

/// The mapping that a report gives.
pub open spec fn report_map(text: Seq<char>) -> Map<Seq<char>, Seq<char>> {
    entries(split_lines(text))
}

/// Line `i` gives an entry for `key`.
pub open spec fn gives_key(lines: Seq<Seq<char>>, i: int, key: Seq<char>) -> bool {
    0 <= i < lines.len() && match line_entry(lines[i]) {
        Some((k, _)) => k == key,
        None => false,
    }
}

/// The value that a line gives; empty where it gives none.
pub open spec fn line_value(line: Seq<char>) -> Seq<char> {
    match line_entry(line) {
        Some((_, value)) => value,
        None => Seq::empty(),
    }
}

/// Folding over two runs of lines is folding over the first and then over
/// the second.
pub proof fn lemma_fold_concat(
    m: Map<Seq<char>, Seq<char>>,
    a: Seq<Seq<char>>,
    b: Seq<Seq<char>>,
)
    ensures
        fold_entries(m, a + b) == fold_entries(fold_entries(m, a), b),
    decreases a.len(),
{
    if a.len() == 0 {
        assert(a + b =~= b);
    } else {
        assert((a + b).skip(1) =~= a.skip(1) + b);
        lemma_fold_concat(apply_line(m, a[0]), a.skip(1), b);
    }
}

/// A line that gives no entry changes nothing, wherever it stands among
/// the others.
pub proof fn lemma_malformed_line_is_dropped(
    before: Seq<Seq<char>>,
    line: Seq<char>,
    after: Seq<Seq<char>>,
)
    requires
        line_entry(line) is None,
    ensures
        entries(before + seq![line] + after) == entries(before + after),
{
    let m = Map::<Seq<char>, Seq<char>>::empty();
    lemma_fold_concat(m, before + seq![line], after);
    lemma_fold_concat(m, before, seq![line]);
    lemma_fold_concat(m, before, after);
    let mid = fold_entries(m, before);
    assert(seq![line].skip(1) =~= Seq::<Seq<char>>::empty());
    assert(fold_entries(mid, seq![line]) == fold_entries(apply_line(mid, line), seq![line].skip(1)));
}

/// The mapping holds the key of every line that gives an entry, and holds
/// no other key. The value under a key is the one of the last line that
/// gives that key.
pub proof fn lemma_entries(lines: Seq<Seq<char>>, key: Seq<char>)
    ensures
        entries(lines).contains_key(key) <==> exists|i: int| gives_key(lines, i, key),
        forall|i: int|
            #![trigger gives_key(lines, i, key)]
            gives_key(lines, i, key) && (forall|j: int| i < j ==> !gives_key(lines, j, key))
                ==> entries(lines)[key] == line_value(lines[i]),
    decreases lines.len(),
{
    let m = Map::<Seq<char>, Seq<char>>::empty();
    if lines.len() == 0 {
    } else {
        let init = lines.drop_last();
        let last = lines.last();
        lemma_entries(init, key);
        assert(lines =~= init + seq![last]);
        lemma_fold_concat(m, init, seq![last]);
        assert(seq![last].skip(1) =~= Seq::<Seq<char>>::empty());
        assert(fold_entries(entries(init), seq![last]) == fold_entries(
            apply_line(entries(init), last),
            seq![last].skip(1),
        ));
        assert(entries(lines) == apply_line(entries(init), last));
        let n = lines.len() - 1;
        if entries(lines).contains_key(key) {
            if gives_key(lines, n, key) {
            } else {
                assert(entries(init).contains_key(key));
                let i = choose|i: int| gives_key(init, i, key);
                assert(gives_key(lines, i, key));
            }
        }
        if exists|i: int| gives_key(lines, i, key) {
            let i = choose|i: int| gives_key(lines, i, key);
            if i < n {
                assert(gives_key(init, i, key));
            }
        }
        assert forall|i: int|
            #![trigger gives_key(lines, i, key)]
            gives_key(lines, i, key) && (forall|j: int|
                i < j ==> !gives_key(lines, j, key)) implies entries(lines)[key] == line_value(
            lines[i],
        ) by {
            if i < n {
                assert(!gives_key(lines, n, key));
                assert(gives_key(init, i, key));
                assert forall|j: int| i < j implies !gives_key(init, j, key) by {
                    if gives_key(init, j, key) {
                        assert(gives_key(lines, j, key));
                    }
                }
            }
        }
    }
}

/// Every value of the mapping is a number.
pub proof fn lemma_values_are_numbers(m: Map<Seq<char>, Seq<char>>, lines: Seq<Seq<char>>)
    requires
        forall|k: Seq<char>| #![trigger m.contains_key(k)] m.contains_key(k) ==> is_number(m[k]),
    ensures
        forall|k: Seq<char>|
            #![trigger fold_entries(m, lines).contains_key(k)]
            fold_entries(m, lines).contains_key(k) ==> is_number(fold_entries(m, lines)[k]),
    decreases lines.len(),
{
    if lines.len() > 0 {
        let next = apply_line(m, lines[0]);
        assert forall|k: Seq<char>| #![trigger next.contains_key(k)] next.contains_key(k) implies is_number(next[k]) by {
            if !m.contains_key(k) || next[k] != m[k] {
                assert(line_entry(lines[0]) is Some);
            }
        }
        lemma_values_are_numbers(next, lines.skip(1));
        assert(fold_entries(m, lines) == fold_entries(next, lines.skip(1)));
    } else {
        assert(fold_entries(m, lines) == m);
    }
}

/// Lines that hold no line feed come back from the text that joins them.
pub proof fn lemma_split_join(lines: Seq<Seq<char>>)
    requires
        lines.len() >= 1,
        forall|i: int| 0 <= i < lines.len() ==> free_of(#[trigger] lines[i], '\n'),
    ensures
        split_lines(join_lines(lines)) == lines,
    decreases lines.len(),
{
    let s = join_lines(lines);
    let first = lines[0];
    if lines.len() == 1 {
        assert(s.take(s.len() as int) =~= s);
        lemma_position_is(s, '\n', s.len() as int);
        assert(seq![s] =~= lines);
    } else {
        let rest = lines.skip(1);
        let k = first.len() as int;
        assert(s.take(k) =~= first);
        assert(s[k] == '\n');
        lemma_position_is(s, '\n', k);
        assert(s.skip(k + 1) =~= join_lines(rest));
        assert forall|i: int| 0 <= i < rest.len() implies free_of(#[trigger] rest[i], '\n') by {
            assert(rest[i] == lines[i + 1]);
        }
        lemma_split_join(rest);
        assert(seq![first] + rest =~= lines);
    }
}

/// The mapping of a report made of lines is the mapping of those lines.
pub proof fn lemma_report_of_lines(lines: Seq<Seq<char>>)
    requires
        forall|i: int| 0 <= i < lines.len() ==> free_of(#[trigger] lines[i], '\n'),
    ensures
        report_map(join_lines(lines)) == entries(lines),
{
    if lines.len() == 0 {
        let none = Seq::<char>::empty();
        assert(split_lines(none) =~= seq![none]);
        assert(seq![none].skip(1) =~= Seq::<Seq<char>>::empty());
        assert(trim(none) =~= none);
        assert(line_entry(none) is None);
        assert(entries(seq![none]) == fold_entries(
            apply_line(Map::empty(), seq![none][0]),
            seq![none].skip(1),
        ));
    } else {
        lemma_split_join(lines);
    }
}

/// In a report made of lines, a line that reads `key: number` puts its key
/// into the mapping. The number stands under the key unless a later line
/// gives the same key again.
pub proof fn lemma_well_formed_line_is_kept(
    lines: Seq<Seq<char>>,
    i: int,
    key: Seq<char>,
    value: Seq<char>,
)
    requires
        forall|j: int| 0 <= j < lines.len() ==> free_of(#[trigger] lines[j], '\n'),
        0 <= i < lines.len(),
        lines[i] == key + seq![':', ' '] + value,
        free_of(key, ':'),
        trim(key) == key,
        is_number(value),
    ensures
        report_map(join_lines(lines)).contains_key(key),
        (forall|j: int| i < j ==> !gives_key(lines, j, key)) ==> report_map(join_lines(lines))[key]
            == value,
{
    lemma_report_of_lines(lines);
    lemma_plain_line(key, value);
    lemma_entries(lines, key);
    assert(gives_key(lines, i, key));
}

/// In a report made of lines, a line that is no `key: number` changes
/// nothing: the mapping is the one of the report without that line.
pub proof fn lemma_malformed_line_in_report(
    before: Seq<Seq<char>>,
    line: Seq<char>,
    after: Seq<Seq<char>>,
)
    requires
        line_entry(line) is None,
        free_of(line, '\n'),
        forall|j: int| 0 <= j < before.len() ==> free_of(#[trigger] before[j], '\n'),
        forall|j: int| 0 <= j < after.len() ==> free_of(#[trigger] after[j], '\n'),
    ensures
        report_map(join_lines(before + seq![line] + after)) == report_map(
            join_lines(before + after),
        ),
{
    lemma_report_of_lines(before + seq![line] + after);
    lemma_report_of_lines(before + after);
    lemma_malformed_line_is_dropped(before, line, after);
}

/// A line `key: value` gives exactly that key and that value, where the
/// value is a number and the key holds no colon and has no whitespace at
/// its ends.
pub proof fn lemma_plain_line(key: Seq<char>, value: Seq<char>)
    requires
        free_of(key, ':'),
        trim(key) == key,
        is_number(value),
    ensures
        line_entry(key + seq![':', ' '] + value) == Some((key, value)),
        line_entry(key + seq![':'] + value) == Some((key, value)),
{
    lemma_number_chars(value);
    lemma_value_is_trimmed(value);
    let spaced = key + seq![':', ' '] + value;
    let tight = key + seq![':'] + value;
    let k = key.len() as int;
    assert(spaced.take(k) =~= key);
    assert(tight.take(k) =~= key);
    lemma_line_is_trimmed(key, spaced);
    lemma_line_is_trimmed(key, tight);
    lemma_position_is(spaced, ':', k);
    lemma_position_is(tight, ':', k);
    assert(tight.skip(k + 1) =~= value);
    let after = spaced.skip(k + 1);
    assert(after =~= seq![' '] + value);
    assert(after.skip(1) =~= value);
    assert(is_whitespace(after[0]));
    assert(trim_start(after) == trim_start(value));
}

/// A number has no whitespace in it, so trimming leaves it as it is.
proof fn lemma_value_is_trimmed(value: Seq<char>)
    requires
        is_number(value),
    ensures
        trim(value) == value,
        trim_start(value) == value,
{
    lemma_number_chars(value);
    assert(!is_whitespace(value[0]));
    assert(!is_whitespace(value.last()));
    lemma_trim_fixed(value);
}

/// A line that starts with a trimmed key or a colon and ends with the last
/// character of a number is its own trim.
proof fn lemma_line_is_trimmed(key: Seq<char>, line: Seq<char>)
    requires
        trim(key) == key,
        line.len() > key.len(),
        line.take(key.len() as int) == key,
        line[key.len() as int] == ':',
        !is_whitespace(line.last()),
    ensures
        trim(line) == line,
{
    if key.len() > 0 {
        lemma_trim_edges(key);
        assert(line.take(key.len() as int)[0] == line[0]);
    }
    lemma_trim_fixed(line);
}

/// The statistics of one report: a value for each key that the report gave.
pub struct Statistics {
    values: StringHashMap<String>,
}

impl View for Statistics {
    type V = Map<Seq<char>, Seq<char>>;

    closed spec fn view(&self) -> Map<Seq<char>, Seq<char>> {
        Map::new(|k: Seq<char>| self.values@.contains_key(k), |k: Seq<char>| self.values@[k]@)
    }
}

impl Statistics {
    /// Statistics without any entry.
    pub fn new() -> (r: Statistics)
        ensures
            r@ == Map::<Seq<char>, Seq<char>>::empty(),
    {
        let r = Statistics { values: StringHashMap::new() };
        assert(r@ =~= Map::<Seq<char>, Seq<char>>::empty());
        r
    }

    /// Sets the value under `key`, in place of an earlier one.
    pub fn insert(&mut self, key: String, value: String)
        ensures
            final(self)@ == old(self)@.insert(key@, value@),
    {
        self.values.insert(key, value);
        assert(self@ =~= old(self)@.insert(key@, value@));
    }

    /// The value under `key`, if the report gave one.
    pub fn get(&self, key: &str) -> (r: Option<&String>)
        ensures
            match r {
                Some(value) => self@.contains_key(key@) && value@ == self@[key@],
                None => !self@.contains_key(key@),
            },
    {
        self.values.get(key)
    }

    /// Tells whether the report gave a value under `key`.
    pub fn contains_key(&self, key: &str) -> (r: bool)
        ensures
            r == self@.contains_key(key@),
    {
        self.values.contains_key(key)
    }
}

/// The key and the value of one line, if it gives any.
pub fn line_fields<'a>(line: &'a [char]) -> (r: Option<(&'a [char], &'a [char])>)
    ensures
        match r {
            Some((key, value)) => line_entry(line@) == Some((key@, value@)),
            None => line_entry(line@) is None,
        },
{
    let t = trimmed(line);
    let n: usize = t.len();
    let i: usize = find(t, ':');
    if i >= n {
        return None;
    }
    let head = slice_subrange(t, 0, i);
    let tail = slice_subrange(t, i + 1, n);
    assert(head@ =~= t@.take(i as int));
    assert(tail@ =~= t@.skip(i + 1));
    let key = trimmed(head);
    let value = trimmed(tail);
    if number(value) {
        Some((key, value))
    } else {
        None
    }
}

/// Reads a report: every line `key: number` gives an entry, every other
/// line is passed over.
pub fn parse_batctl_statistics(stats: &str) -> (r: Statistics)
    ensures
        r@ == report_map(stats@),
{
    let chars = to_chars(stats);
    let all = chars.as_slice();
    let n: usize = all.len();
    let mut out = Statistics::new();
    let mut start: usize = 0;
    let mut done = false;
    assert(all@.skip(0) =~= stats@);
    while !done
        invariant
            all@ == stats@,
            n == all@.len(),
            start <= n,
            !done ==> report_map(stats@) == fold_entries(
                out@,
                split_lines(all@.skip(start as int)),
            ),
            done ==> out@ == report_map(stats@),
        decreases
                (if done {
                    0
                } else {
                    1 + n - start
                }),
    {
        let rest = slice_subrange(all, start, n);
        assert(rest@ =~= all@.skip(start as int));
        let i: usize = find(rest, '\n');
        let line = slice_subrange(rest, 0, i);
        assert(line@ =~= rest@.take(i as int));
        let ghost before = out@;
        match line_fields(line) {
            Some((key, value)) => {
                out.insert(to_text(key), to_text(value));
            },
            None => {},
        }
        assert(out@ == apply_line(before, line@));
        if i == rest.len() {
            proof {
                assert(line@ =~= rest@);
                let lines = split_lines(rest@);
                assert(lines =~= seq![rest@]);
                assert(lines.skip(1) =~= Seq::<Seq<char>>::empty());
                assert(fold_entries(before, lines) == fold_entries(
                    apply_line(before, lines[0]),
                    lines.skip(1),
                ));
            }
            done = true;
        } else {
            proof {
                let lines = split_lines(rest@);
                let tail = split_lines(rest@.skip(i + 1));
                assert(lines =~= seq![line@] + tail);
                assert(lines.skip(1) =~= tail);
                assert(rest@.skip(i + 1) =~= all@.skip(start + i + 1));
            }
            start = start + i + 1;
        }
    }
    out
}

} // verus!
