//! Strings as sequences of characters: lines, first occurrences, trailing
//! white space and suffixes.
use vstd::prelude::*;

verus! {

/// The Unicode `White_Space` property.
pub open spec fn is_white_space(c: char) -> bool {
    ||| '\u{9}' <= c <= '\u{d}'
    ||| c == '\u{20}'
    ||| c == '\u{85}'
    ||| c == '\u{a0}'
    ||| c == '\u{1680}'
    ||| '\u{2000}' <= c <= '\u{200a}'
    ||| c == '\u{2028}'
    ||| c == '\u{2029}'
    ||| c == '\u{202f}'
    ||| c == '\u{205f}'
    ||| c == '\u{3000}'
}

/// `s` without its trailing white space.
pub open spec fn trim_end(s: Seq<char>) -> Seq<char>
    decreases s.len(),
{
    if s.len() > 0 && is_white_space(s.last()) {
        trim_end(s.drop_last())
    } else {
        s
    }
}

/// `pattern` stands in `s` at position `at`.
pub open spec fn occurs_at(s: Seq<char>, pattern: Seq<char>, at: int) -> bool {
    &&& 0 <= at <= at + pattern.len() <= s.len()
    &&& s.subrange(at, at + pattern.len()) == pattern
}

/// `at` is the first position at which `pattern` stands in `s`.
pub open spec fn occurs_first_at(s: Seq<char>, pattern: Seq<char>, at: int) -> bool {
    &&& occurs_at(s, pattern, at)
    &&& forall|before: int| 0 <= before < at ==> !occurs_at(s, pattern, before)
}

/// The first position at which `pattern` stands in `s`, if there is one.
pub open spec fn find(s: Seq<char>, pattern: Seq<char>) -> Option<int> {
    if exists|at: int| occurs_first_at(s, pattern, at) {
        Some(choose|at: int| occurs_first_at(s, pattern, at))
    } else {
        None
    }
}

/// `s` ends in `suffix`.
pub open spec fn ends_with(s: Seq<char>, suffix: Seq<char>) -> bool {
    suffix.len() <= s.len() && s.skip(s.len() - suffix.len()) == suffix
}

/// What stands before `suffix` in `s`, if `s` ends in `suffix`.
pub open spec fn strip_suffix(s: Seq<char>, suffix: Seq<char>) -> Option<Seq<char>> {
    if ends_with(s, suffix) {
        Some(s.take(s.len() - suffix.len()))
    } else {
        None
    }
}

/// `line` without the carriage return that belonged to its line ending.
pub open spec fn without_cr(line: Seq<char>) -> Seq<char> {
    if line.len() > 0 && line.last() == '\r' {
        line.drop_last()
    } else {
        line
    }
}

/// The lines of `s`. A line ends at `\n` or `\r\n`, neither of which is part
/// of it; the ending of the last line is optional.
pub open spec fn lines(s: Seq<char>) -> Seq<Seq<char>>
    decreases s.len(),
{
    match s.index_of_first('\n') {
        Some(end) => {
            proof {
                s.index_of_first_ensures('\n');
            }
            seq![without_cr(s.take(end))] + lines(s.skip(end + 1))
        },
        None => if s.len() == 0 {
            Seq::empty()
        } else {
            seq![s]
        },
    }
}

/// The texts in order, with `separator` between each two.
pub open spec fn join(texts: Seq<Seq<char>>, separator: Seq<char>) -> Seq<char>
    decreases texts.len(),
{
    if texts.len() == 0 {
        Seq::empty()
    } else if texts.len() == 1 {
        texts[0]
    } else {
        texts[0] + separator + join(texts.drop_first(), separator)
    }
}

/// The first occurrence is the one that no other precedes.
pub proof fn lemma_find(s: Seq<char>, pattern: Seq<char>, at: int)
    requires
        occurs_first_at(s, pattern, at),
    ensures
        find(s, pattern) == Some(at),
{
    let found = choose|at: int| occurs_first_at(s, pattern, at);
    assert(occurs_first_at(s, pattern, found));
    assert(!(found < at) && !(at < found));
}

/// The first occurrence of a character is the one that no other precedes.
pub proof fn lemma_index_of_first(s: Seq<char>, c: char, end: int)
    requires
        0 <= end < s.len(),
        s[end] == c,
        forall|j: int| 0 <= j < end ==> s[j] != c,
    ensures
        s.index_of_first(c) == Some(end),
{
    s.index_of_first_ensures(c);
    assert(s.contains(c));
}

/// Text that ends a line splits into its own lines and those of what follows.
pub proof fn lemma_lines_concat(above: Seq<char>, below: Seq<char>)
    ensures
        lines(above.push('\n') + below) == lines(above.push('\n')) + lines(below),
    decreases above.len(),
{
    let ended = above.push('\n');
    let whole = ended + below;
    ended.index_of_first_ensures('\n');
    assert(ended[above.len() as int] == '\n');
    let end = ended.index_of_first('\n').unwrap();
    assert forall|j: int| 0 <= j < end implies whole[j] != '\n' by {
        assert(whole[j] == ended[j]);
    }
    lemma_index_of_first(whole, '\n', end);
    assert(whole.take(end) =~= ended.take(end));
    let line = seq![without_cr(ended.take(end))];
    if end < above.len() {
        let rest = above.skip(end + 1);
        lemma_lines_concat(rest, below);
        assert(ended.skip(end + 1) =~= rest.push('\n'));
        assert(whole.skip(end + 1) =~= rest.push('\n') + below);
    } else {
        let none = ended.skip(end + 1);
        assert(none.len() == 0);
        none.index_of_first_ensures('\n');
        assert(lines(none) =~= Seq::empty());
        assert(whole.skip(end + 1) =~= below);
    }
    assert(lines(whole) =~= lines(ended) + lines(below));
}

/// Text without a line ending is a line, and what follows an ending adds lines
/// after it.
pub proof fn lemma_first_line(line: Seq<char>, ending: Seq<char>)
    requires
        line.len() > 0,
        !line.contains('\n'),
        ending.len() > 0 ==> ending[0] == '\n',
    ensures
        lines(line + ending).len() > 0,
        lines(line + ending)[0] == if ending.len() > 0 {
            without_cr(line)
        } else {
            line
        },
{
    let whole = line + ending;
    if ending.len() > 0 {
        assert forall|j: int| 0 <= j < line.len() implies whole[j] != '\n' by {
            assert(line.contains(line[j]));
        }
        lemma_index_of_first(whole, '\n', line.len() as int);
        assert(whole.take(line.len() as int) =~= line);
    } else {
        assert(whole =~= line);
        whole.index_of_first_ensures('\n');
    }
}

/// Every line of `s` stands in `s` and holds no line feed.
pub proof fn lemma_line_stands_in_text(s: Seq<char>, i: int)
    requires
        0 <= i < lines(s).len(),
    ensures
        !lines(s)[i].contains('\n'),
        exists|at: int| occurs_at(s, lines(s)[i], at),
    decreases s.len(),
{
    s.index_of_first_ensures('\n');
    let line = lines(s)[i];
    match s.index_of_first('\n') {
        Some(end) => {
            let first = without_cr(s.take(end));
            let rest = s.skip(end + 1);
            assert(lines(s) == seq![first] + lines(rest));
            if i == 0 {
                assert(line == first);
                assert(occurs_at(s, line, 0)) by {
                    assert(line =~= s.subrange(0, line.len() as int));
                }
                assert(!line.contains('\n')) by {
                    assert forall|j: int| 0 <= j < line.len() implies line[j] != '\n' by {
                        assert(line[j] == s[j]);
                    }
                }
            } else {
                assert(line == lines(rest)[i - 1]);
                lemma_line_stands_in_text(rest, i - 1);
                let at = choose|at: int| occurs_at(rest, line, at);
                lemma_occurs_in_rest(s, end + 1, line, at);
            }
        },
        None => {
            assert(lines(s) == seq![s]);
            assert(line == s);
            assert(occurs_at(s, line, 0)) by {
                assert(line =~= s.subrange(0, s.len() as int));
            }
        },
    }
}

proof fn lemma_occurs_in_rest(s: Seq<char>, from: int, pattern: Seq<char>, at: int)
    requires
        0 <= from <= s.len(),
        occurs_at(s.skip(from), pattern, at),
    ensures
        occurs_at(s, pattern, from + at),
{
    assert(s.subrange(from + at, from + at + pattern.len()) =~= s.skip(from).subrange(
        at,
        at + pattern.len(),
    ));
}

/// What stands in a part of `s` stands in `s`.
pub proof fn lemma_occurs_in_part(
    s: Seq<char>,
    part: Seq<char>,
    start: int,
    pattern: Seq<char>,
    at: int,
)
    requires
        occurs_at(s, part, start),
        occurs_at(part, pattern, at),
    ensures
        occurs_at(s, pattern, start + at),
{
    assert(part =~= s.subrange(start, start + part.len()));
    assert(s.subrange(start + at, start + at + pattern.len()) =~= part.subrange(
        at,
        at + pattern.len(),
    ));
}

/// Exactly the white space that was put at the end goes.
pub proof fn lemma_trim_end(s: Seq<char>, blank: Seq<char>)
    requires
        s.len() > 0 ==> !is_white_space(s.last()),
        forall|i: int| 0 <= i < blank.len() ==> is_white_space(#[trigger] blank[i]),
    ensures
        trim_end(s + blank) == s,
    decreases blank.len(),
{
    if blank.len() == 0 {
        assert(s + blank =~= s);
    } else {
        assert((s + blank).last() == blank[blank.len() - 1]);
        assert((s + blank).drop_last() =~= s + blank.drop_last());
        lemma_trim_end(s, blank.drop_last());
    }
}

/// What is left is the beginning of the text.
pub proof fn lemma_trim_end_is_prefix(s: Seq<char>)
    ensures
        trim_end(s).is_prefix_of(s),
    decreases s.len(),
{
    if s.len() > 0 && is_white_space(s.last()) {
        lemma_trim_end_is_prefix(s.drop_last());
    }
}

/// What goes is white space.
pub proof fn lemma_trim_end_drops_white_space(s: Seq<char>, k: int)
    requires
        trim_end(s).len() <= k < s.len(),
    ensures
        is_white_space(s[k]),
    decreases s.len(),
{
    if s.len() > 0 && is_white_space(s.last()) && k < s.len() - 1 {
        lemma_trim_end_drops_white_space(s.drop_last(), k);
    }
}

/// White space is the five controls from tab to carriage return, the space, the
/// next line and the no-break space, the Ogham space, the typographic spaces,
/// the line and paragraph separators, the narrow no-break space, the
/// mathematical space and the ideographic space, by their code points.
pub proof fn law_white_space(c: char)
    ensures
        is_white_space(c) <==> {
            ||| 9 <= c as int <= 13
            ||| c as int == 32
            ||| c as int == 133
            ||| c as int == 160
            ||| c as int == 5760
            ||| 8192 <= c as int <= 8202
            ||| 8232 <= c as int <= 8233
            ||| c as int == 8239
            ||| c as int == 8287
            ||| c as int == 12288
        },
{
}

/// Joined, one text is itself, and two lists are joined with the separator
/// between them.
pub proof fn law_join(one: Seq<Seq<char>>, other: Seq<Seq<char>>, separator: Seq<char>)
    ensures
        one.len() == 0 ==> join(one, separator).len() == 0,
        one.len() == 1 ==> join(one, separator) == one[0],
        one.len() > 0 && other.len() > 0 ==> join(one + other, separator) == join(one, separator)
            + separator + join(other, separator),
    decreases one.len(),
{
    if one.len() > 0 && other.len() > 0 {
        let whole = one + other;
        assert(whole.drop_first() =~= one.drop_first() + other);
        if one.len() == 1 {
            assert(whole.drop_first() =~= other);
        } else {
            law_join(one.drop_first(), other, separator);
        }
        assert(join(whole, separator) =~= join(one, separator) + separator + join(
            other,
            separator,
        ));
    }
}

/// The characters of `s`.
pub(crate) fn char_vec(s: &str) -> (chars: Vec<char>)
    ensures
        chars@ == s@,
{
    let mut chars: Vec<char> = Vec::new();
    for c in rest: s.chars()
        invariant
            chars@ == rest.seq().take(rest.index()),
            rest.seq() == s@,
    {
        chars.push(c);
    }
    chars
}

/// Whether `c` is white space.
pub(crate) fn white_space(c: char) -> (answer: bool)
    ensures
        answer == is_white_space(c),
{
    ('\u{9}' <= c && c <= '\u{d}') || c == '\u{20}' || c == '\u{85}' || c == '\u{a0}' || c
        == '\u{1680}' || ('\u{2000}' <= c && c <= '\u{200a}') || c == '\u{2028}' || c
        == '\u{2029}' || c == '\u{202f}' || c == '\u{205f}' || c == '\u{3000}'
}

/// Whether `pattern` stands at `at` in the part of `chars` that ends at `to`.
fn stands_at(chars: &Vec<char>, at: usize, to: usize, pattern: &Vec<char>) -> (answer: bool)
    requires
        at <= to <= chars@.len(),
    ensures
        answer <==> at + pattern@.len() <= to && chars@.subrange(at as int, at + pattern@.len())
            == pattern@,
{
    if pattern.len() > to - at {
        return false;
    }
    let mut i: usize = 0;
    while i < pattern.len()
        invariant
            i <= pattern@.len(),
            at + pattern@.len() <= to <= chars@.len(),
            forall|j: int| 0 <= j < i ==> chars@[at + j] == pattern@[j],
        decreases pattern@.len() - i,
    {
        if chars[at + i] != pattern[i] {
            assert(chars@.subrange(at as int, at + pattern@.len())[i as int] != pattern@[i as int]);
            return false;
        }
        i = i + 1;
    }
    assert(chars@.subrange(at as int, at + pattern@.len()) =~= pattern@);
    true
}

/// The first position in `chars`, from `from` up to `to`, at which `pattern`
/// stands.
pub(crate) fn find_in(chars: &Vec<char>, from: usize, to: usize, pattern: &Vec<char>) -> (found:
    Option<usize>)
    requires
        from <= to <= chars@.len(),
    ensures
        match found {
            Some(at) => {
                &&& from <= at
                &&& at + pattern@.len() <= to
                &&& find(chars@.subrange(from as int, to as int), pattern@) == Some(at - from)
            },
            None => find(chars@.subrange(from as int, to as int), pattern@) is None,
        },
{
    let ghost part = chars@.subrange(from as int, to as int);
    let mut at: usize = from;
    loop
        invariant
            from <= at <= to <= chars@.len(),
            part == chars@.subrange(from as int, to as int),
            forall|before: int| 0 <= before < at - from ==> !occurs_at(part, pattern@, before),
        decreases to - at,
    {
        let here: bool = stands_at(chars, at, to, pattern);
        proof {
            if at + pattern@.len() <= to {
                assert(part.subrange(at - from, at - from + pattern@.len()) =~= chars@.subrange(
                    at as int,
                    at + pattern@.len(),
                ));
            }
            assert(here == occurs_at(part, pattern@, at - from));
        }
        if here {
            proof {
                lemma_find(part, pattern@, at - from);
            }
            return Some(at);
        }
        if at == to {
            return None;
        }
        at = at + 1;
    }
}

/// The end of the part of `chars` from `from` to `to` once its trailing white
/// space is gone.
pub(crate) fn trim_end_in(chars: &Vec<char>, from: usize, to: usize) -> (end: usize)
    requires
        from <= to <= chars@.len(),
    ensures
        from <= end <= to,
        trim_end(chars@.subrange(from as int, to as int)) == chars@.subrange(
            from as int,
            end as int,
        ),
{
    let mut end: usize = to;
    while end > from && white_space(chars[end - 1])
        invariant
            from <= end <= to <= chars@.len(),
            trim_end(chars@.subrange(from as int, to as int)) == trim_end(
                chars@.subrange(from as int, end as int),
            ),
        decreases end,
    {
        proof {
            let part = chars@.subrange(from as int, end as int);
            assert(part.last() == chars@[end - 1]);
            assert(part.drop_last() =~= chars@.subrange(from as int, end - 1));
        }
        end = end - 1;
    }
    proof {
        let part = chars@.subrange(from as int, end as int);
        assert(end > from ==> part.last() == chars@[end - 1]);
    }
    end
}

/// Where `suffix` begins, if the part of `chars` from `from` to `to` ends in
/// it.
pub(crate) fn strip_suffix_in(
    chars: &Vec<char>,
    from: usize,
    to: usize,
    suffix: &Vec<char>,
) -> (stripped: Option<usize>)
    requires
        from <= to <= chars@.len(),
    ensures
        match stripped {
            Some(end) => {
                &&& from <= end <= to
                &&& strip_suffix(chars@.subrange(from as int, to as int), suffix@) == Some(
                    chars@.subrange(from as int, end as int),
                )
            },
            None => strip_suffix(chars@.subrange(from as int, to as int), suffix@) is None,
        },
{
    if suffix.len() > to - from {
        return None;
    }
    let end: usize = to - suffix.len();
    let ghost part = chars@.subrange(from as int, to as int);
    proof {
        assert(part.skip(part.len() - suffix@.len()) =~= chars@.subrange(end as int, to as int));
        assert(part.take(part.len() - suffix@.len()) =~= chars@.subrange(from as int, end as int));
    }
    if stands_at(chars, end, to, suffix) {
        Some(end)
    } else {
        None
    }
}

/// The position of the first `\n` in `chars` from `from` on, or the length of
/// `chars` where there is none.
pub(crate) fn newline_in(chars: &Vec<char>, from: usize) -> (end: usize)
    requires
        from <= chars@.len(),
    ensures
        from <= end <= chars@.len(),
        chars@.skip(from as int).index_of_first('\n') == if end < chars@.len() {
            Some(end - from)
        } else {
            None
        },
{
    let mut end: usize = from;
    let ghost part = chars@.skip(from as int);
    while end < chars.len() && chars[end] != '\n'
        invariant
            from <= end <= chars@.len(),
            part == chars@.skip(from as int),
            forall|j: int| 0 <= j < end - from ==> part[j] != '\n',
        decreases chars@.len() - end,
    {
        end = end + 1;
    }
    proof {
        if end < chars@.len() {
            lemma_index_of_first(part, '\n', end - from);
        } else {
            part.index_of_first_ensures('\n');
        }
    }
    end
}

} // verus!
