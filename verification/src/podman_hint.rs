//! Explain podman failures caused by podman not seeing bcvk's filesystem.
//!
//! To launch a VM, bcvk asks podman to bind-mount paths from its own
//! filesystem, including its own binary. When podman runs somewhere else,
//! e.g. bcvk runs in a toolbox or distrobox with podman forwarded to the host,
//! or podman is a remote client, those paths are resolved on podman's side,
//! and one that only exists on bcvk's side fails with an obscure
//! `statfs /usr/bin/bcvk: no such file or directory`.
//!
//! See <https://github.com/bootc-dev/bcvk/issues/5>.
use crate::external::{
    collects_help, help_sections, note, path_text, report_chain, suggestion, utf8_path, wrap_err,
};
use crate::text::{
    char_vec, ends_with, find, find_in, is_white_space, join, lemma_find, lemma_first_line,
    lemma_index_of_first, lemma_line_stands_in_text, lemma_lines_concat, lemma_occurs_in_part,
    lemma_trim_end, lemma_trim_end_is_prefix, lines, newline_in, occurs_at, occurs_first_at,
    strip_suffix, strip_suffix_in, trim_end, trim_end_in, without_cr,
};
use camino::Utf8Path;
use color_eyre::eyre::Report;
use vstd::prelude::*;

verus! {

/// Documentation for running bcvk from a toolbox, distrobox or with a remote podman.
pub const DOCS_URL: &'static str =
    "https://github.com/bootc-dev/bcvk/blob/main/docs/src/installation.md#toolbox-distrobox-and-remote-podman";

/// How podman reports a bind mount source that doesn't exist, e.g.
/// `Error: statfs /usr/bin/bcvk: no such file or directory`.
pub const PODMAN_STATFS_PREFIX: &'static str = "statfs ";

/// How the line ends in which podman reports such a source.
pub const ENOENT_SUFFIX: &'static str = ": no such file or directory";

/// What stands before the path in the message of a hint.
pub const HINT_PREFIX: &'static str = "podman could not find ";

/// What stands after the path in the message of a hint.
pub const HINT_SUFFIX: &'static str =
    ", but bcvk can see it: podman is not seeing bcvk's filesystem";

/// The note that a hint adds.
pub const HINT_NOTE: &'static str =
    "This happens when bcvk runs in a toolbox or distrobox container and podman is forwarded to the host, or when podman is a remote client. bcvk needs to run where podman runs.";

/// The suggestion that a hint adds, up to the address of the documentation.
pub const HINT_ADVICE: &'static str =
    "Install bcvk on the host alongside podman and QEMU (e.g. `sudo dnf install bcvk`, or add it to your image on image-based systems) and run it there; from a toolbox you can use `flatpak-spawn --host bcvk ...`, and from a distrobox `distrobox-host-exec bcvk ...`. See ";

/// The bind mount source that one line of podman's output reports missing: what
/// stands between the first `statfs ` and the final `: no such file or
/// directory`, white space at the end of the line aside.
pub open spec fn line_source(line: Seq<char>) -> Option<Seq<char>> {
    match find(line, PODMAN_STATFS_PREFIX@) {
        Some(at) => strip_suffix(
            trim_end(line.skip(at + PODMAN_STATFS_PREFIX@.len())),
            ENOENT_SUFFIX@,
        ),
        None => None,
    }
}

/// The source that the first of the lines to report one reports.
pub open spec fn first_source(lines: Seq<Seq<char>>) -> Option<Seq<char>>
    decreases lines.len(),
{
    if lines.len() == 0 {
        None
    } else if line_source(lines[0]) is Some {
        line_source(lines[0])
    } else {
        first_source(lines.drop_first())
    }
}

/// The bind mount source that podman's output reports missing, if any.
pub open spec fn missing_source(stderr: Seq<char>) -> Option<Seq<char>> {
    first_source(lines(stderr))
}

/// The message that explains that podman cannot see `path`.
pub open spec fn hint_message(path: Seq<char>) -> Seq<char> {
    HINT_PREFIX@ + path + HINT_SUFFIX@
}

/// What a hint suggests to do about it.
pub open spec fn hint_suggestion() -> Seq<char> {
    HINT_ADVICE@ + DOCS_URL@
}

/// `after` is `before` with the explanation that podman cannot see `path`: one
/// more message, of which `before` is the cause, and a note and a suggestion
/// where the report collects them.
pub open spec fn hinted(before: Report, path: Seq<char>, after: Report) -> bool {
    &&& report_chain(after) == seq![hint_message(path)] + report_chain(before)
    &&& collects_help(after) == collects_help(before)
    &&& help_sections(after) == if collects_help(before) {
        help_sections(before) + seq![("Note"@, HINT_NOTE@), ("Suggestion"@, hint_suggestion())]
    } else {
        help_sections(before)
    }
}

/// Where the path stands in the line of `chars` from `from` to `to`, if the
/// line reports a missing bind mount source.
fn source_in(
    chars: &Vec<char>,
    from: usize,
    to: usize,
    prefix: &Vec<char>,
    suffix: &Vec<char>,
) -> (found: Option<(usize, usize)>)
    requires
        from <= to <= chars@.len(),
        prefix@ == PODMAN_STATFS_PREFIX@,
        suffix@ == ENOENT_SUFFIX@,
    ensures
        match found {
            Some((start, end)) => {
                &&& start <= end <= chars@.len()
                &&& line_source(chars@.subrange(from as int, to as int)) == Some(
                    chars@.subrange(start as int, end as int),
                )
            },
            None => line_source(chars@.subrange(from as int, to as int)) is None,
        },
{
    let ghost line = chars@.subrange(from as int, to as int);
    match find_in(chars, from, to, prefix) {
        Some(at) => {
            let start: usize = at + prefix.len();
            proof {
                assert(line.skip(at - from + prefix@.len()) =~= chars@.subrange(
                    start as int,
                    to as int,
                ));
            }
            let trimmed: usize = trim_end_in(chars, start, to);
            match strip_suffix_in(chars, start, trimmed, suffix) {
                Some(end) => Some((start, end)),
                None => None,
            }
        },
        None => None,
    }
}

/// The bind mount source that podman reported missing, if any.
pub fn missing_bind_source(stderr: &str) -> (missing: Option<&Utf8Path>)
    ensures
        match missing {
            Some(path) => missing_source(stderr@) == Some(path_text(path)),
            None => missing_source(stderr@) is None,
        },
{
    let chars: Vec<char> = char_vec(stderr);
    let prefix: Vec<char> = char_vec(PODMAN_STATFS_PREFIX);
    let suffix: Vec<char> = char_vec(ENOENT_SUFFIX);
    let mut start: usize = 0;
    proof {
        assert(chars@.skip(0) =~= chars@);
    }
    while start < chars.len()
        invariant
            start <= chars@.len(),
            chars@ == stderr@,
            prefix@ == PODMAN_STATFS_PREFIX@,
            suffix@ == ENOENT_SUFFIX@,
            missing_source(stderr@) == first_source(lines(chars@.skip(start as int))),
        decreases chars@.len() - start,
    {
        let newline: usize = newline_in(&chars, start);
        let end: usize = if newline < chars.len() && newline > start && chars[newline - 1]
            == '\r' {
            newline - 1
        } else {
            newline
        };
        let next: usize = if newline < chars.len() {
            newline + 1
        } else {
            newline
        };
        proof {
            let rest = chars@.skip(start as int);
            let line = chars@.subrange(start as int, end as int);
            let below = lines(chars@.skip(next as int));
            if newline < chars@.len() {
                let raw = rest.take(newline - start);
                assert(raw =~= chars@.subrange(start as int, newline as int));
                assert(newline > start ==> raw.last() == chars@[newline - 1]);
                assert(without_cr(raw) =~= line);
                assert(rest.skip(newline - start + 1) =~= chars@.skip(next as int));
            } else {
                assert(rest =~= line);
                chars@.skip(next as int).index_of_first_ensures('\n');
                assert(below =~= Seq::empty());
            }
            assert(lines(rest) =~= seq![line] + below);
            assert(lines(rest).drop_first() =~= below);
        }
        match source_in(&chars, start, end, &prefix, &suffix) {
            Some((from, to)) => {
                return Some(utf8_path(stderr.substring_char(from, to)));
            },
            None => {},
        }
        start = next;
    }
    proof {
        chars@.skip(start as int).index_of_first_ensures('\n');
        assert(lines(chars@.skip(start as int)) =~= Seq::empty());
    }
    None
}

/// Wrap `err` with the explanation that podman cannot see `path`.
pub fn explain(err: Report, path: &Utf8Path) -> (explained: Report)
    ensures
        hinted(err, path_text(path), explained),
{
    let mut message: String = String::new();
    message.append(HINT_PREFIX);
    message.append(path.as_str());
    message.append(HINT_SUFFIX);
    let mut advice: String = String::new();
    advice.append(HINT_ADVICE);
    advice.append(DOCS_URL);
    proof {
        assert(message@ =~= hint_message(path_text(path)));
        assert(advice@ =~= hint_suggestion());
    }
    let explained = suggestion(note(wrap_err(err, message), HINT_NOTE), advice);
    proof {
        if collects_help(err) {
            assert(help_sections(explained) =~= help_sections(err) + seq![
                ("Note"@, HINT_NOTE@),
                ("Suggestion"@, hint_suggestion()),
            ]);
        }
    }
    explained
}

/// Wrap `err` with an explanation if podman's `stderr` says a bind mount
/// source is missing, but `visible` says bcvk can see it.
pub fn with_hint_if(err: Report, stderr: &str, visible: impl Fn(&Utf8Path) -> bool) -> (report:
    Report)
    requires
        forall|path: &Utf8Path| call_requires(visible, (path,)),
    ensures
        match missing_source(stderr@) {
            None => report == err,
            Some(source) => exists|path: &Utf8Path, seen: bool|
                {
                    &&& path_text(path) == source
                    &&& #[trigger] call_ensures(visible, (path,), seen)
                    &&& if seen {
                        hinted(err, source, report)
                    } else {
                        report == err
                    }
                },
        },
{
    match missing_bind_source(stderr) {
        Some(path) => {
            if visible(path) {
                explain(err, path)
            } else {
                err
            }
        },
        None => err,
    }
}

/// The line in which podman reports that `path` is missing, after `lead` and
/// before white space.
pub open spec fn statfs_line(lead: Seq<char>, path: Seq<char>, blank: Seq<char>) -> Seq<char> {
    lead + PODMAN_STATFS_PREFIX@ + path + ENOENT_SUFFIX@ + blank
}

/// A path that podman reports missing in its first line is found, whatever the
/// path, what precedes the report in that line, white space at the end of the
/// line and any lines after it. What precedes the report does not hold one of
/// its own.
pub proof fn law_reported_source_is_found(
    lead: Seq<char>,
    path: Seq<char>,
    blank: Seq<char>,
    ending: Seq<char>,
)
    requires
        occurs_first_at(lead + PODMAN_STATFS_PREFIX@, PODMAN_STATFS_PREFIX@, lead.len() as int),
        forall|i: int| 0 <= i < blank.len() ==> is_white_space(#[trigger] blank[i]),
        !statfs_line(lead, path, blank).contains('\n'),
        ending.len() > 0 ==> ending[0] == '\n',
    ensures
        missing_source(statfs_line(lead, path, blank) + ending) == Some(path),
{
    reveal_strlit("statfs ");
    reveal_strlit(": no such file or directory");
    let line = statfs_line(lead, path, blank);
    lemma_first_line(line, ending);
    lemma_statfs_line(lead, path, blank);
    if line.last() == '\r' {
        if blank.len() > 0 {
            assert(line.last() == blank.last());
            assert(without_cr(line) =~= statfs_line(lead, path, blank.drop_last()));
            lemma_statfs_line(lead, path, blank.drop_last());
        } else {
            assert(line.last() == ENOENT_SUFFIX@.last());
        }
    }
}

proof fn lemma_statfs_line(lead: Seq<char>, path: Seq<char>, blank: Seq<char>)
    requires
        occurs_first_at(lead + PODMAN_STATFS_PREFIX@, PODMAN_STATFS_PREFIX@, lead.len() as int),
        forall|i: int| 0 <= i < blank.len() ==> is_white_space(#[trigger] blank[i]),
    ensures
        line_source(statfs_line(lead, path, blank)) == Some(path),
{
    reveal_strlit("statfs ");
    reveal_strlit(": no such file or directory");
    let prefix = PODMAN_STATFS_PREFIX@;
    let suffix = ENOENT_SUFFIX@;
    let line = statfs_line(lead, path, blank);
    let at = lead.len() as int;
    assert(line.subrange(at, at + prefix.len()) =~= prefix);
    assert forall|before: int| 0 <= before < at implies !occurs_at(line, prefix, before) by {
        assert(line.subrange(before, before + prefix.len()) =~= (lead + prefix).subrange(
            before,
            before + prefix.len(),
        ));
        assert(!occurs_at(lead + prefix, prefix, before));
    }
    lemma_find(line, prefix, at);
    let report = path + suffix;
    assert(line.skip(at + prefix.len()) =~= report + blank);
    assert(report.last() == suffix.last());
    lemma_trim_end(report, blank);
    assert(report.skip(report.len() - suffix.len()) =~= suffix);
    assert(report.take(report.len() - suffix.len()) =~= path);
}

/// The first line to report a missing source decides; lines above it that
/// report none change nothing.
pub proof fn law_first_report_decides(above: Seq<char>, below: Seq<char>)
    ensures
        missing_source(above.push('\n') + below) == match missing_source(above) {
            Some(path) => Some(path),
            None => missing_source(below),
        },
{
    lemma_line_ending_reports_nothing(above);
    lemma_lines_concat(above, below);
    lemma_first_source_concat(lines(above.push('\n')), lines(below));
}

/// Whether the last line is ended changes nothing.
proof fn lemma_line_ending_reports_nothing(stderr: Seq<char>)
    ensures
        missing_source(stderr.push('\n')) == missing_source(stderr),
    decreases stderr.len(),
{
    let ended = stderr.push('\n');
    stderr.index_of_first_ensures('\n');
    match stderr.index_of_first('\n') {
        Some(end) => {
            let rest = stderr.skip(end + 1);
            assert forall|j: int| 0 <= j < end implies ended[j] != '\n' by {
                assert(ended[j] == stderr[j]);
            }
            lemma_index_of_first(ended, '\n', end);
            assert(ended.take(end) =~= stderr.take(end));
            assert(ended.skip(end + 1) =~= rest.push('\n'));
            lemma_line_ending_reports_nothing(rest);
            assert(lines(ended).drop_first() =~= lines(rest.push('\n')));
            assert(lines(stderr).drop_first() =~= lines(rest));
        },
        None => {
            let end = stderr.len() as int;
            let none = ended.skip(end + 1);
            assert forall|j: int| 0 <= j < end implies ended[j] != '\n' by {
                assert(stderr.contains(stderr[j]));
            }
            lemma_index_of_first(ended, '\n', end);
            assert(ended.take(end) =~= stderr);
            none.index_of_first_ensures('\n');
            assert(lines(none) =~= Seq::empty());
            assert(lines(ended) =~= seq![without_cr(stderr)]);
            assert(lines(ended).drop_first() =~= Seq::empty());
            assert(lines(stderr).len() > 0 ==> lines(stderr).drop_first() =~= Seq::empty());
            lemma_carriage_return_reports_nothing(stderr);
            if stderr.len() == 0 {
                reveal_strlit("statfs ");
                assert(forall|at: int| !occurs_at(stderr, PODMAN_STATFS_PREFIX@, at));
            }
        },
    }
}

/// Nor does a carriage return at the end of a line.
proof fn lemma_carriage_return_reports_nothing(line: Seq<char>)
    ensures
        line_source(without_cr(line)) == line_source(line),
{
    if line.len() > 0 && line.last() == '\r' {
        reveal_strlit("statfs ");
        let prefix = PODMAN_STATFS_PREFIX@;
        let short = line.drop_last();
        assert forall|at: int| occurs_at(line, prefix, at) == occurs_at(short, prefix, at) by {
            if 0 <= at && at + prefix.len() == line.len() {
                assert(line.subrange(at, at + prefix.len()).last() == '\r');
                assert(prefix.last() == ' ');
            } else if 0 <= at && at + prefix.len() < line.len() {
                assert(line.subrange(at, at + prefix.len()) =~= short.subrange(
                    at,
                    at + prefix.len(),
                ));
            }
        }
        if find(line, prefix) is Some {
            let at = find(line, prefix).unwrap();
            assert(occurs_first_at(line, prefix, at));
            assert(occurs_first_at(short, prefix, at));
            lemma_find(short, prefix, at);
            let rest = line.skip(at + prefix.len());
            assert(rest.last() == '\r');
            assert(rest.drop_last() =~= short.skip(at + prefix.len()));
        } else if find(short, prefix) is Some {
            let at = find(short, prefix).unwrap();
            assert(occurs_first_at(short, prefix, at));
            assert(occurs_first_at(line, prefix, at));
        }
    }
}

proof fn lemma_first_source_concat(above: Seq<Seq<char>>, below: Seq<Seq<char>>)
    ensures
        first_source(above + below) == match first_source(above) {
            Some(path) => Some(path),
            None => first_source(below),
        },
    decreases above.len(),
{
    if above.len() == 0 {
        assert(above + below =~= below);
    } else {
        assert((above + below).drop_first() =~= above.drop_first() + below);
        lemma_first_source_concat(above.drop_first(), below);
    }
}

/// A path is reported only if podman's output holds it, in full and on one
/// line, between `statfs ` and `: no such file or directory`.
pub proof fn law_source_stands_in_output(stderr: Seq<char>)
    ensures
        missing_source(stderr) matches Some(path) ==> !path.contains('\n') && exists|at: int|
            occurs_at(stderr, PODMAN_STATFS_PREFIX@ + path + ENOENT_SUFFIX@, at),
{
    if missing_source(stderr) is Some {
        let path = missing_source(stderr).unwrap();
        let i = lemma_source_line(lines(stderr));
        let line = lines(stderr)[i];
        let report = PODMAN_STATFS_PREFIX@ + path + ENOENT_SUFFIX@;
        lemma_line_stands_in_text(stderr, i);
        let start = choose|at: int| occurs_at(stderr, line, at);
        let at = lemma_line_source_stands(line);
        lemma_occurs_in_part(stderr, line, start, report, at);
        assert forall|j: int| 0 <= j < path.len() implies path[j] != '\n' by {
            let k = PODMAN_STATFS_PREFIX@.len() + j;
            assert(report[k] == path[j]);
            assert(line.subrange(at, at + report.len())[k] == line[at + k]);
            assert(line.contains(line[at + k]));
        }
    }
}

proof fn lemma_source_line(lines: Seq<Seq<char>>) -> (i: int)
    requires
        first_source(lines) is Some,
    ensures
        0 <= i < lines.len(),
        line_source(lines[i]) == first_source(lines),
    decreases lines.len(),
{
    if line_source(lines[0]) is Some {
        0
    } else {
        let i = lemma_source_line(lines.drop_first());
        i + 1
    }
}

proof fn lemma_line_source_stands(line: Seq<char>) -> (at: int)
    requires
        line_source(line) is Some,
    ensures
        occurs_at(line, PODMAN_STATFS_PREFIX@ + line_source(line).unwrap() + ENOENT_SUFFIX@, at),
{
    let prefix = PODMAN_STATFS_PREFIX@;
    let suffix = ENOENT_SUFFIX@;
    let path = line_source(line).unwrap();
    let at = find(line, prefix).unwrap();
    assert(occurs_first_at(line, prefix, at));
    let rest = line.skip(at + prefix.len());
    let trimmed = trim_end(rest);
    lemma_trim_end_is_prefix(rest);
    assert(ends_with(trimmed, suffix));
    assert(trimmed =~= path + suffix);
    let report = prefix + path + suffix;
    assert(line.subrange(at, at + prefix.len()) == prefix);
    assert(rest.take(trimmed.len() as int) =~= trimmed);
    assert(line.subrange(at, at + report.len()) =~= line.subrange(at, at + prefix.len())
        + rest.take(trimmed.len() as int));
    assert(line.subrange(at, at + report.len()) =~= report);
    at
}

/// Output that nowhere says `statfs `, or nowhere says `: no such file or
/// directory`, reports no missing source.
pub proof fn law_other_failures_report_nothing(stderr: Seq<char>)
    requires
        (forall|at: int| !occurs_at(stderr, PODMAN_STATFS_PREFIX@, at)) || (forall|at: int|
            !occurs_at(stderr, ENOENT_SUFFIX@, at)),
    ensures
        missing_source(stderr) is None,
{
    law_source_stands_in_output(stderr);
    if missing_source(stderr) is Some {
        let prefix = PODMAN_STATFS_PREFIX@;
        let suffix = ENOENT_SUFFIX@;
        let path = missing_source(stderr).unwrap();
        let report = prefix + path + suffix;
        let end = report.len() - suffix.len();
        let at = choose|at: int| occurs_at(stderr, report, at);
        assert(report.subrange(0, prefix.len() as int) =~= prefix);
        assert(report.subrange(end, report.len() as int) =~= suffix);
        lemma_occurs_in_part(stderr, report, at, prefix, 0);
        lemma_occurs_in_part(stderr, report, at, suffix, end);
    }
}

/// A hint keeps the error that it explains: the new report has one message
/// more, which names the path, and the chain below it is the one that was
/// there. Printed with its causes it reads as the hint, then the error.
pub proof fn law_hint_keeps_the_error(before: Report, path: Seq<char>, after: Report)
    requires
        hinted(before, path, after),
    ensures
        report_chain(after).len() == report_chain(before).len() + 1,
        occurs_at(report_chain(after)[0], path, HINT_PREFIX@.len() as int),
        report_chain(after).skip(1) == report_chain(before),
        report_chain(before).len() > 0 ==> join(report_chain(after), ": "@) == hint_message(path)
            + ": "@ + join(report_chain(before), ": "@),
{
    let message = hint_message(path);
    let at = HINT_PREFIX@.len() as int;
    assert(message.subrange(at, at + path.len()) =~= path);
    assert(report_chain(after).skip(1) =~= report_chain(before));
    assert(report_chain(after).drop_first() =~= report_chain(before));
}

} // verus!
