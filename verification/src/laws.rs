//! What can be relied on of each operation, call by call.
//!
//! Each law speaks of the calls that can take place: of arguments and a result
//! that a call of the operation can have. What it promises is said of these
//! alone, in terms of plain values.
use crate::activation::{
    served, try_activated_listener, try_serve_varlink, ActivatedListener, ServeEvent, ServeStep,
};
use crate::external::{
    collects_help, help_sections, join_error_text, path_buf_text, path_text, quoted, report_chain,
    report_text, report_text_with_causes, sd_error_text,
};
use crate::launch::{Format, RunEphemeralOpts, RunOutcome, ToDiskOpts};
use crate::podman_hint::{
    explain, first_source, law_first_report_decides, law_reported_source_is_found, line_source,
    missing_bind_source, missing_source, statfs_line, with_hint_if,
};
use crate::text::{
    find, is_white_space, join, lemma_trim_end_drops_white_space, lemma_trim_end_is_prefix, lines,
    occurs_at, occurs_first_at, trim_end,
};
use crate::varlink_ipc::{
    disk_format, ephemeral_join_err, instance_type, law_image_names_concat,
    law_image_names_of_one, tells, unknown_instance_type_error, unsupported_format_error,
    BcvkService, ContainerListEntry, EphemeralError, EphemeralRunOpts, GetSshConnectionInfoReply,
    ImageListEntry, ImagesError, ListReply, PsReply, RunReply, ToDiskError, ToDiskReply,
};
use camino::Utf8Path;
use color_eyre::eyre::Report;
use libsystemd::errors::SdError;
use tokio::task::JoinError;
use vstd::prelude::*;

verus! {

// ---------------------------------------------------------------------------
// Reading podman's output
// ---------------------------------------------------------------------------

/// In a single line, a path is found only where it stands after the first
/// `statfs ` and is followed by `: no such file or directory` and then by white
/// space alone, up to the end of the line.
pub proof fn law_line_is_a_report(stderr: &str, missing: Option<&Utf8Path>)
    requires
        call_ensures(missing_bind_source, (stderr,), missing),
        !stderr@.contains('\n'),
    ensures
        missing matches Some(path) ==> exists|at: int, end: int|
            #![trigger stderr@.skip(at), stderr@.skip(end)]
            {
                &&& 0 <= at
                &&& at + "statfs "@.len() <= end <= stderr@.len()
                &&& "statfs "@.is_prefix_of(stderr@.skip(at))
                &&& forall|before: int|
                    0 <= before < at ==> !"statfs "@.is_prefix_of(#[trigger] stderr@.skip(before))
                &&& path_text(path) == stderr@.subrange(at + "statfs "@.len(), end)
                &&& ": no such file or directory"@.is_prefix_of(stderr@.skip(end))
                &&& forall|k: int|
                    end + ": no such file or directory"@.len() <= k < stderr@.len()
                        ==> is_white_space(#[trigger] stderr@[k])
            },
{
    if missing is Some {
        let (at, end) = lemma_report_in_line(stderr@);
    }
}

/// A single line in which a path stands after the first `statfs ` and is
/// followed by `: no such file or directory` and then by white space alone
/// gives that path.
pub proof fn law_report_is_found(stderr: &str, missing: Option<&Utf8Path>, at: int, end: int)
    requires
        call_ensures(missing_bind_source, (stderr,), missing),
        !stderr@.contains('\n'),
        0 <= at,
        at + "statfs "@.len() <= end <= stderr@.len(),
        "statfs "@.is_prefix_of(stderr@.skip(at)),
        forall|before: int|
            0 <= before < at ==> !"statfs "@.is_prefix_of(#[trigger] stderr@.skip(before)),
        ": no such file or directory"@.is_prefix_of(stderr@.skip(end)),
        forall|k: int|
            end + ": no such file or directory"@.len() <= k < stderr@.len() ==> is_white_space(
                #[trigger] stderr@[k],
            ),
    ensures
        missing matches Some(path) && path_text(path) == stderr@.subrange(
            at + "statfs "@.len(),
            end,
        ),
{
    let s = stderr@;
    let prefix = "statfs "@;
    let suffix = ": no such file or directory"@;
    let lead = s.take(at);
    let path = s.subrange(at + prefix.len(), end);
    let blank = s.skip(end + suffix.len());
    reveal_strlit("statfs ");
    reveal_strlit(": no such file or directory");
    assert(s.skip(at).subrange(0, prefix.len() as int) =~= s.subrange(at, at + prefix.len()));
    assert(s.skip(end).subrange(0, suffix.len() as int) =~= s.subrange(end, end + suffix.len()));
    assert(s =~= statfs_line(lead, path, blank));
    assert(occurs_at(lead + prefix, prefix, at)) by {
        assert((lead + prefix).subrange(at, at + prefix.len()) =~= prefix);
    }
    assert forall|before: int| 0 <= before < at implies !occurs_at(
        lead + prefix,
        prefix,
        before,
    ) by {
        if occurs_at(lead + prefix, prefix, before) {
            assert(lead + prefix =~= s.take(at + prefix.len()));
            assert(s.skip(before).subrange(0, prefix.len() as int) =~= (lead + prefix).subrange(
                before,
                before + prefix.len(),
            ));
            assert(prefix.is_prefix_of(s.skip(before)));
        }
    }
    assert forall|i: int| 0 <= i < blank.len() implies is_white_space(#[trigger] blank[i]) by {
        assert(blank[i] == s[end + suffix.len() + i]);
    }
    law_reported_source_is_found(lead, path, blank, Seq::empty());
    assert(s + Seq::<char>::empty() =~= s);
}

/// A line that does not end in `: no such file or directory`, white space
/// aside, reports nothing, whatever else it holds. Here `body` is the line
/// without the white space at its end.
pub proof fn law_line_without_ending_reports_nothing(
    stderr: &str,
    missing: Option<&Utf8Path>,
    body: Seq<char>,
    blank: Seq<char>,
)
    requires
        call_ensures(missing_bind_source, (stderr,), missing),
        !stderr@.contains('\n'),
        stderr@ == body + blank,
        forall|k: int| 0 <= k < blank.len() ==> is_white_space(#[trigger] blank[k]),
        body.len() > 0 ==> !is_white_space(body.last()),
        !": no such file or directory"@.is_suffix_of(body),
    ensures
        missing is None,
{
    if missing is Some {
        let s = stderr@;
        let suffix = ": no such file or directory"@;
        reveal_strlit(": no such file or directory");
        let (at, end) = lemma_report_in_line(s);
        let stop = end + suffix.len();
        assert(s.skip(end).subrange(0, suffix.len() as int) =~= s.subrange(end, stop));
        assert(suffix[suffix.len() - 1] == 'y');
        assert(s.subrange(end, stop)[suffix.len() - 1] == s[stop - 1]);
        if body.len() > stop {
            assert(body.last() == s[body.len() - 1]);
        } else if body.len() < stop {
            assert(blank[stop - 1 - body.len()] == s[stop - 1]);
        } else {
            assert(body.subrange(body.len() - suffix.len(), body.len() as int) =~= s.subrange(
                end,
                stop,
            ));
        }
    }
}

/// Of output that is put together from two parts, each of whole lines, the
/// first part decides if it reports a path, and otherwise the second.
pub proof fn law_earlier_lines_decide(
    stderr: &str,
    missing: Option<&Utf8Path>,
    above: &str,
    missing_above: Option<&Utf8Path>,
    below: &str,
    missing_below: Option<&Utf8Path>,
)
    requires
        call_ensures(missing_bind_source, (stderr,), missing),
        call_ensures(missing_bind_source, (above,), missing_above),
        call_ensures(missing_bind_source, (below,), missing_below),
        stderr@ == above@ + seq!['\n'] + below@,
    ensures
        missing_above matches Some(first) ==> (missing matches Some(path) && path_text(path)
            == path_text(first)),
        missing_above is None ==> match missing_below {
            Some(second) => missing matches Some(path) && path_text(path) == path_text(second),
            None => missing is None,
        },
{
    law_first_report_decides(above@, below@);
    assert(stderr@ =~= above@.push('\n') + below@);
}

/// No output reports nothing.
pub proof fn law_no_output_reports_nothing(stderr: &str, missing: Option<&Utf8Path>)
    requires
        call_ensures(missing_bind_source, (stderr,), missing),
        stderr@.len() == 0,
    ensures
        missing is None,
{
    if missing is Some {
        reveal_strlit("statfs ");
        let (at, end) = lemma_report_in_line(stderr@);
    }
}

proof fn lemma_single_line(line: Seq<char>)
    requires
        !line.contains('\n'),
    ensures
        missing_source(line) == if line.len() == 0 {
            None
        } else {
            line_source(line)
        },
{
    line.index_of_first_ensures('\n');
    if line.len() > 0 {
        assert(lines(line) =~= seq![line]);
        assert(lines(line).drop_first() =~= Seq::empty());
        assert(first_source(lines(line).drop_first()) is None);
    } else {
        assert(lines(line) =~= Seq::empty());
    }
}

proof fn lemma_report_in_line(line: Seq<char>) -> (found: (int, int))
    requires
        missing_source(line) is Some,
        !line.contains('\n'),
    ensures
        ({
            let (at, end) = found;
            &&& 0 <= at
            &&& at + "statfs "@.len() <= end <= line.len()
            &&& "statfs "@.is_prefix_of(line.skip(at))
            &&& forall|before: int|
                0 <= before < at ==> !"statfs "@.is_prefix_of(#[trigger] line.skip(before))
            &&& missing_source(line).unwrap() == line.subrange(at + "statfs "@.len(), end)
            &&& ": no such file or directory"@.is_prefix_of(line.skip(end))
            &&& forall|k: int|
                end + ": no such file or directory"@.len() <= k < line.len() ==> is_white_space(
                    #[trigger] line[k],
                )
        }),
{
    let prefix = "statfs "@;
    let suffix = ": no such file or directory"@;
    lemma_single_line(line);
    let path = line_source(line).unwrap();
    let at = find(line, prefix).unwrap();
    assert(occurs_first_at(line, prefix, at));
    let start = at + prefix.len();
    let rest = line.skip(start);
    let trimmed = trim_end(rest);
    let end = start + path.len();
    lemma_trim_end_is_prefix(rest);
    assert(trimmed =~= rest.subrange(0, trimmed.len() as int));
    assert(trimmed =~= path + suffix);
    assert(line.skip(at).subrange(0, prefix.len() as int) =~= line.subrange(at, start));
    assert forall|before: int| 0 <= before < at implies !prefix.is_prefix_of(
        #[trigger] line.skip(before),
    ) by {
        if prefix.is_prefix_of(line.skip(before)) {
            assert(line.skip(before).subrange(0, prefix.len() as int) =~= line.subrange(
                before,
                before + prefix.len(),
            ));
            assert(occurs_at(line, prefix, before));
        }
    }
    assert(line.subrange(start, end) =~= trimmed.take(path.len() as int));
    assert(line.subrange(start, end) =~= path);
    assert(line.skip(end).subrange(0, suffix.len() as int) =~= trimmed.skip(path.len() as int));
    assert(trimmed.skip(path.len() as int) =~= suffix);
    assert forall|k: int| end + suffix.len() <= k < line.len() implies is_white_space(
        #[trigger] line[k],
    ) by {
        assert(line[k] == rest[k - start]);
        lemma_trim_end_drops_white_space(rest, k - start);
    }
    (at, end)
}

// ---------------------------------------------------------------------------
// Explaining a failure
// ---------------------------------------------------------------------------

/// An explanation is one message in front of the error, which names the path,
/// and, where the report collects help, a note and a suggestion after the help
/// that was there.
pub proof fn law_explanation(err: Report, path: &Utf8Path, explained: Report)
    requires
        call_ensures(explain, (err, path), explained),
    ensures
        report_chain(explained).len() == report_chain(err).len() + 1,
        report_chain(explained)[0] == "podman could not find "@ + path_text(path)
            + ", but bcvk can see it: podman is not seeing bcvk's filesystem"@,
        forall|i: int|
            0 <= i < report_chain(err).len() ==> report_chain(explained)[i + 1]
                == #[trigger] report_chain(err)[i],
        collects_help(explained) == collects_help(err),
        !collects_help(err) ==> help_sections(explained) == help_sections(err),
        collects_help(err) ==> {
            &&& help_sections(explained).len() == help_sections(err).len() + 2
            &&& forall|i: int|
                0 <= i < help_sections(err).len() ==> help_sections(explained)[i]
                    == #[trigger] help_sections(err)[i]
            &&& help_sections(explained)[help_sections(err).len() as int] == (
                "Note"@,
                "This happens when bcvk runs in a toolbox or distrobox container and podman is forwarded to the host, or when podman is a remote client. bcvk needs to run where podman runs."@,
            )
            &&& help_sections(explained)[help_sections(err).len() as int + 1] == (
                "Suggestion"@,
                "Install bcvk on the host alongside podman and QEMU (e.g. `sudo dnf install bcvk`, or add it to your image on image-based systems) and run it there; from a toolbox you can use `flatpak-spawn --host bcvk ...`, and from a distrobox `distrobox-host-exec bcvk ...`. See "@
                    + "https://github.com/bootc-dev/bcvk/blob/main/docs/src/installation.md#toolbox-distrobox-and-remote-podman"@,
            )
        },
{
}

/// An error is left as it is where podman's output reports no path.
pub proof fn law_no_hint_without_report<F: Fn(&Utf8Path) -> bool>(
    err: Report,
    stderr: &str,
    visible: F,
    report: Report,
    missing: Option<&Utf8Path>,
)
    requires
        call_ensures(with_hint_if, (err, stderr, visible), report),
        call_ensures(missing_bind_source, (stderr,), missing),
        missing is None,
    ensures
        report == err,
{
}

/// An error is left as it is where bcvk does not see the reported path either.
pub proof fn law_no_hint_unless_visible<F: Fn(&Utf8Path) -> bool>(
    err: Report,
    stderr: &str,
    visible: F,
    report: Report,
    missing: &Utf8Path,
)
    requires
        call_ensures(with_hint_if, (err, stderr, visible), report),
        call_ensures(missing_bind_source, (stderr,), Some(missing)),
        forall|path: &Utf8Path, seen: bool|
            path_text(path) == path_text(missing) && #[trigger] call_ensures(
                visible,
                (path,),
                seen,
            ) ==> !seen,
    ensures
        report == err,
{
}

/// An error is explained where bcvk sees the reported path: whatever explaining
/// it can come to shows in its chain and its help.
pub proof fn law_hint_if_visible<F: Fn(&Utf8Path) -> bool>(
    err: Report,
    stderr: &str,
    visible: F,
    report: Report,
    missing: &Utf8Path,
    explained: Report,
)
    requires
        call_ensures(with_hint_if, (err, stderr, visible), report),
        call_ensures(missing_bind_source, (stderr,), Some(missing)),
        forall|path: &Utf8Path, seen: bool|
            path_text(path) == path_text(missing) && #[trigger] call_ensures(
                visible,
                (path,),
                seen,
            ) ==> seen,
        call_ensures(explain, (err, missing), explained),
    ensures
        report_chain(report) == report_chain(explained),
        report_chain(report).len() == report_chain(err).len() + 1,
        report_chain(report)[0] == "podman could not find "@ + path_text(missing)
            + ", but bcvk can see it: podman is not seeing bcvk's filesystem"@,
        report_chain(report).skip(1) == report_chain(err),
        collects_help(report) == collects_help(err),
        help_sections(report) == help_sections(explained),
        collects_help(err) ==> help_sections(report).len() == help_sections(err).len() + 2,
{
    assert(report_chain(report).skip(1) =~= report_chain(err));
}

// ---------------------------------------------------------------------------
// Listing
// ---------------------------------------------------------------------------

/// The list of one image is all its names in their order; one without names,
/// or no image at all, makes an empty list.
pub proof fn law_list_of_one_image(
    service: &BcvkService,
    entries: Vec<ImageListEntry>,
    reply: Result<ListReply, ImagesError>,
)
    requires
        call_ensures(BcvkService::list, (service, Ok(Ok(entries))), reply),
        entries@.len() <= 1,
    ensures
        reply matches Ok(list) && {
            &&& entries@.len() == 0 ==> list.images@.len() == 0
            &&& entries@.len() == 1 ==> match entries@[0].names {
                Some(names) => list.images@ == names@,
                None => list.images@.len() == 0,
            }
        },
{
    if entries@.len() == 0 {
        assert(entries@ =~= Seq::empty());
        law_image_names_of_one(arbitrary());
    } else {
        assert(entries@ =~= seq![entries@[0]]);
        law_image_names_of_one(entries@[0]);
    }
}

/// The list of more images is the list of the first ones, then that of the
/// others.
pub proof fn law_list_of_more_images(
    service: &BcvkService,
    entries: Vec<ImageListEntry>,
    reply: Result<ListReply, ImagesError>,
    first: Vec<ImageListEntry>,
    first_reply: Result<ListReply, ImagesError>,
    others: Vec<ImageListEntry>,
    others_reply: Result<ListReply, ImagesError>,
)
    requires
        call_ensures(BcvkService::list, (service, Ok(Ok(entries))), reply),
        call_ensures(BcvkService::list, (service, Ok(Ok(first))), first_reply),
        call_ensures(BcvkService::list, (service, Ok(Ok(others))), others_reply),
        entries@ == first@ + others@,
    ensures
        reply is Ok,
        first_reply is Ok,
        others_reply is Ok,
        reply->Ok_0.images@ == first_reply->Ok_0.images@ + others_reply->Ok_0.images@,
{
    law_image_names_concat(first@, others@);
}

/// If the images could not be listed, the client is told why.
pub proof fn law_list_failure(
    service: &BcvkService,
    report: Report,
    reply: Result<ListReply, ImagesError>,
    crash: JoinError,
    crash_reply: Result<ListReply, ImagesError>,
)
    requires
        call_ensures(BcvkService::list, (service, Ok(Err(report))), reply),
        call_ensures(BcvkService::list, (service, Err(crash)), crash_reply),
    ensures
        reply matches Err(ImagesError::PodmanError { message }) && {
            &&& message@ == report_text(report)
            &&& collects_help(report) ==> report_chain(report).len() > 0 && message@
                == report_chain(report)[0]
        },
        crash_reply matches Err(ImagesError::PodmanError { message }) && message@
            == join_error_text(crash),
{
    lemma_told(reply->Err_0->PodmanError_message@, report);
}

/// The list of containers has the ID of each, in their order.
pub proof fn law_ps_lists_every_container(
    service: &BcvkService,
    containers: Vec<ContainerListEntry>,
    reply: Result<PsReply, EphemeralError>,
)
    requires
        call_ensures(BcvkService::ps, (service, Ok(Ok(containers))), reply),
    ensures
        reply matches Ok(list) && {
            &&& list.container_ids@.len() == containers@.len()
            &&& forall|i: int|
                0 <= i < containers@.len() ==> #[trigger] list.container_ids@[i]
                    == containers@[i].id
        },
{
}

/// If the containers could not be listed, the client is told why.
pub proof fn law_ps_failure(
    service: &BcvkService,
    report: Report,
    reply: Result<PsReply, EphemeralError>,
    crash: JoinError,
    crash_reply: Result<PsReply, EphemeralError>,
)
    requires
        call_ensures(BcvkService::ps, (service, Ok(Err(report))), reply),
        call_ensures(BcvkService::ps, (service, Err(crash)), crash_reply),
    ensures
        reply matches Err(EphemeralError::PodmanError { message }) && {
            &&& message@ == report_text(report)
            &&& collects_help(report) ==> report_chain(report).len() > 0 && message@
                == report_chain(report)[0]
        },
        crash_reply matches Err(EphemeralError::PodmanError { message }) && message@
            == join_error_text(crash),
{
    lemma_told(reply->Err_0->PodmanError_message@, report);
}

proof fn lemma_told(message: Seq<char>, report: Report)
    requires
        tells(message, report),
    ensures
        collects_help(report) ==> report_chain(report).len() > 0 && message == report_chain(
            report,
        )[0],
{
    assert(seq![message][0] == message);
}

// ---------------------------------------------------------------------------
// Launching
// ---------------------------------------------------------------------------

/// A launch has what the options give, each of them by itself: whatever the
/// others are, a given one is passed on as it is, and one that is not given is
/// the default memory, an empty list, off or absent. The VM boots the image
/// that was asked for, runs detached, and has nothing that a client cannot ask
/// for.
pub proof fn law_launch_has_the_given_options<I, E, F: Fn(&str) -> Result<I, E>>(
    service: &BcvkService,
    image: String,
    given: EphemeralRunOpts,
    parse: F,
    launch: RunEphemeralOpts<I>,
)
    requires
        call_ensures(BcvkService::run, (service, image, Some(given), parse), Ok(launch)),
    ensures
        launch.image == image,
        given.itype is None ==> launch.common.itype is None,
        given.itype matches Some(name) ==> exists|asked: &str, known: I|
            {
                &&& asked@ == name@
                &&& #[trigger] call_ensures(parse, (asked,), Ok::<I, E>(known))
                &&& launch.common.itype == Some(known)
            },
        given.memory matches Some(memory) ==> launch.common.memory.memory@ == memory@,
        given.memory is None ==> launch.common.memory.memory@ == service.default_memory@,
        launch.common.vcpus == given.vcpus,
        given.console matches Some(on) ==> launch.common.console == on,
        given.console is None ==> !launch.common.console,
        given.ssh_keygen matches Some(on) ==> launch.common.ssh_keygen == on,
        given.ssh_keygen is None ==> !launch.common.ssh_keygen,
        launch.podman.detach,
        launch.podman.name == given.name,
        given.label matches Some(labels) ==> launch.podman.label@ == labels@,
        given.label is None ==> launch.podman.label@.len() == 0,
        launch.podman.network == given.network,
        given.env matches Some(variables) ==> launch.podman.env@ == variables@,
        given.env is None ==> launch.podman.env@.len() == 0,
        given.rm matches Some(on) ==> launch.podman.rm == on,
        given.rm is None ==> !launch.podman.rm,
        launch.debug_entrypoint is None,
        given.bind matches Some(mounts) ==> launch.bind_mounts@ == mounts@,
        given.bind is None ==> launch.bind_mounts@.len() == 0,
        given.ro_bind matches Some(mounts) ==> launch.ro_bind_mounts@ == mounts@,
        given.ro_bind is None ==> launch.ro_bind_mounts@.len() == 0,
        launch.systemd_units_dir is None,
        !launch.bind_storage_ro,
        launch.add_swap == given.add_swap,
        given.mount_disk_files matches Some(files) ==> launch.mount_disk_files@ == files@,
        given.mount_disk_files is None ==> launch.mount_disk_files@.len() == 0,
        given.kargs matches Some(arguments) ==> launch.kernel_args@ == arguments@,
        given.kargs is None ==> launch.kernel_args@.len() == 0,
        launch.ignition_config is None,
        launch.host_dns_servers is None,
{
}

/// A call without an instance type is never refused.
pub proof fn law_run_without_instance_type<I, E, F: Fn(&str) -> Result<I, E>>(
    service: &BcvkService,
    image: String,
    opts: Option<EphemeralRunOpts>,
    parse: F,
    request: Result<RunEphemeralOpts<I>, EphemeralError>,
)
    requires
        call_ensures(BcvkService::run, (service, image, opts, parse), request),
        opts matches Some(given) ==> given.itype is None,
    ensures
        request is Ok,
{
}

/// A call with an instance type that is known is not refused, and the VM has
/// that type, whatever else the call asks for.
pub proof fn law_run_with_known_instance_type<I, E, F: Fn(&str) -> Result<I, E>>(
    service: &BcvkService,
    image: String,
    given: EphemeralRunOpts,
    parse: F,
    request: Result<RunEphemeralOpts<I>, EphemeralError>,
    known: I,
)
    requires
        call_ensures(BcvkService::run, (service, image, Some(given), parse), request),
        given.itype is Some,
        forall|asked: &str, parsed: Result<I, E>|
            asked@ == given.itype->0@ && #[trigger] call_ensures(parse, (asked,), parsed)
                ==> parsed == Ok::<I, E>(known),
    ensures
        request matches Ok(launch) && launch.common.itype == Some(known),
{
}

/// A call with an instance type that is not known is refused, and the client is
/// told the name that it gave.
pub proof fn law_run_with_unknown_instance_type<I, E, F: Fn(&str) -> Result<I, E>>(
    service: &BcvkService,
    image: String,
    given: EphemeralRunOpts,
    parse: F,
    request: Result<RunEphemeralOpts<I>, EphemeralError>,
)
    requires
        call_ensures(BcvkService::run, (service, image, Some(given), parse), request),
        given.itype is Some,
        forall|asked: &str, parsed: Result<I, E>|
            asked@ == given.itype->0@ && #[trigger] call_ensures(parse, (asked,), parsed)
                ==> parsed is Err,
    ensures
        request matches Err(EphemeralError::PodmanError { message }) && message@
            == "unknown instance type: "@ + quoted(given.itype->0@)
            + ", try e.g. \"u1.small\""@,
{
}

/// A launch without options has the default memory, and all that a client can
/// ask for is off, empty or absent.
pub proof fn law_launch_without_options<I, E, F: Fn(&str) -> Result<I, E>>(
    service: &BcvkService,
    image: String,
    parse: F,
    launch: RunEphemeralOpts<I>,
)
    requires
        call_ensures(BcvkService::run, (service, image, None, parse), Ok(launch)),
    ensures
        launch.image == image,
        launch.podman.detach,
        launch.common.memory.memory@ == service.default_memory@,
        launch.common.itype is None && launch.common.vcpus is None,
        !launch.common.console && !launch.common.ssh_keygen,
        launch.podman.name is None && launch.podman.network is None,
        launch.podman.label@.len() == 0 && launch.podman.env@.len() == 0,
        !launch.podman.rm,
        launch.bind_mounts@.len() == 0 && launch.ro_bind_mounts@.len() == 0,
        launch.mount_disk_files@.len() == 0 && launch.kernel_args@.len() == 0,
        launch.add_swap is None,
        launch.debug_entrypoint is None && launch.systemd_units_dir is None,
        !launch.bind_storage_ro,
        launch.ignition_config is None && launch.host_dns_servers is None,
{
}

/// Options that were left at their defaults give nothing.
pub proof fn law_default_options_give_nothing(opts: EphemeralRunOpts)
    requires
        call_ensures(EphemeralRunOpts::default, (), opts),
    ensures
        opts.ssh_keygen is None && opts.name is None && opts.label is None,
        opts.network is None && opts.env is None && opts.rm is None,
        opts.itype is None && opts.memory is None && opts.vcpus is None,
        opts.console is None && opts.bind is None && opts.ro_bind is None,
        opts.mount_disk_files is None && opts.kargs is None && opts.add_swap is None,
{
}

/// A name that parses is the type that it parses to; for another the client is
/// told the name.
pub proof fn law_instance_type<I, E>(
    name: &str,
    parsed: Result<I, E>,
    itype: Result<I, EphemeralError>,
)
    requires
        call_ensures(instance_type, (name, parsed), itype),
    ensures
        parsed matches Ok(known) ==> (itype matches Ok(found) && found == known),
        parsed is Err ==> (itype matches Err(EphemeralError::PodmanError { message }) && message@
            == "unknown instance type: "@ + quoted(name@) + ", try e.g. \"u1.small\""@),
{
}

/// The reply to a launch is the ID of the container, or why it failed.
pub proof fn law_run_reply(
    service: &BcvkService,
    id: String,
    reply: Result<RunReply, EphemeralError>,
    report: Report,
    failure_reply: Result<RunReply, EphemeralError>,
    crash: JoinError,
    crash_reply: Result<RunReply, EphemeralError>,
)
    requires
        call_ensures(BcvkService::run_reply, (service, Ok(Ok(id))), reply),
        call_ensures(BcvkService::run_reply, (service, Ok(Err(report))), failure_reply),
        call_ensures(BcvkService::run_reply, (service, Err(crash)), crash_reply),
    ensures
        reply matches Ok(launched) && launched.container_id == id,
        failure_reply matches Err(EphemeralError::PodmanError { message }) && {
            &&& message@ == report_text(report)
            &&& collects_help(report) ==> report_chain(report).len() > 0 && message@
                == report_chain(report)[0]
        },
        crash_reply matches Err(EphemeralError::PodmanError { message }) && message@
            == join_error_text(crash),
{
    lemma_told(failure_reply->Err_0->PodmanError_message@, report);
}

/// To reach a VM by SSH, one connects as root to a fixed port of the local host
/// of its own container, with the key that lies in bcvk's directory there.
pub proof fn law_ssh_connection(
    service: &BcvkService,
    container_id: String,
    reply: Result<GetSshConnectionInfoReply, EphemeralError>,
)
    requires
        call_ensures(BcvkService::get_ssh_connection_info, (service, container_id), reply),
    ensures
        reply matches Ok(info) && {
            &&& info.container_id == container_id
            &&& info.key_path@ == "/run/tmproot"@ + service.container_statedir@ + "/ssh"@
            &&& info.user@ == "root"@
            &&& info.host@ == "127.0.0.1"@
            &&& info.port == 2222
        },
{
}

/// What a client is told of an instance type that does not exist, and of a task
/// that did not end.
pub proof fn law_ephemeral_errors(
    quotation: &str,
    refusal: EphemeralError,
    crash: JoinError,
    failure: EphemeralError,
)
    requires
        call_ensures(unknown_instance_type_error, (quotation,), refusal),
        call_ensures(ephemeral_join_err, (crash,), failure),
    ensures
        refusal matches EphemeralError::PodmanError { message } && message@
            == "unknown instance type: "@ + quotation@ + ", try e.g. \"u1.small\""@,
        failure matches EphemeralError::PodmanError { message } && message@ == join_error_text(
            crash,
        ),
{
}

// ---------------------------------------------------------------------------
// Creating disk images
// ---------------------------------------------------------------------------

/// A disk image is created as the parameters say, each of them by itself: the
/// size, the filesystem, the size of the root partition and the kernel
/// arguments are those that were given, in every format.
pub proof fn law_disk_has_the_given_parameters(
    service: &BcvkService,
    source_image: String,
    target_disk: &str,
    format: Option<String>,
    disk_size: Option<String>,
    filesystem: Option<String>,
    root_size: Option<String>,
    kargs: Option<Vec<String>>,
    opts: ToDiskOpts,
)
    requires
        call_ensures(
            BcvkService::to_disk,
            (
                service,
                source_image,
                target_disk,
                format,
                disk_size,
                filesystem,
                root_size,
                kargs,
            ),
            Ok(opts),
        ),
    ensures
        opts.source_image == source_image,
        path_buf_text(opts.target_disk) == target_disk@,
        opts.additional.disk_size == disk_size,
        opts.install.filesystem == filesystem,
        opts.install.root_size == root_size,
        kargs matches Some(arguments) ==> opts.install.karg@ == arguments@,
        kargs is None ==> opts.install.karg@.len() == 0,
        opts.additional.memory.memory@ == service.default_memory@,
        format is None ==> opts.additional.format == Format::Raw,
        format matches Some(name) ==> {
            ||| name@ == "raw"@ && opts.additional.format == Format::Raw
            ||| name@ == "qcow2"@ && opts.additional.format == Format::Qcow2
        },
{
}

/// Another format changes the format of the disk image, and nothing else.
pub proof fn law_format_changes_only_the_format(
    service: &BcvkService,
    source_image: String,
    target_disk: &str,
    format: Option<String>,
    other_format: Option<String>,
    disk_size: Option<String>,
    filesystem: Option<String>,
    root_size: Option<String>,
    kargs: Option<Vec<String>>,
    opts: ToDiskOpts,
    other_opts: ToDiskOpts,
)
    requires
        call_ensures(
            BcvkService::to_disk,
            (
                service,
                source_image,
                target_disk,
                format,
                disk_size,
                filesystem,
                root_size,
                kargs,
            ),
            Ok(opts),
        ),
        call_ensures(
            BcvkService::to_disk,
            (
                service,
                source_image,
                target_disk,
                other_format,
                disk_size,
                filesystem,
                root_size,
                kargs,
            ),
            Ok(other_opts),
        ),
    ensures
        opts.source_image == other_opts.source_image,
        path_buf_text(opts.target_disk) == path_buf_text(other_opts.target_disk),
        opts.install.filesystem == other_opts.install.filesystem,
        opts.install.root_size == other_opts.install.root_size,
        opts.install.karg@ == other_opts.install.karg@,
        opts.additional.disk_size == other_opts.additional.disk_size,
        opts.additional.memory.memory@ == other_opts.additional.memory.memory@,
{
}

/// A call that names no format, `raw` or `qcow2` is not refused. One that names
/// another is, and the client is told the name and what it may be.
pub proof fn law_disk_formats_of_calls(
    service: &BcvkService,
    source_image: String,
    target_disk: &str,
    format: Option<String>,
    disk_size: Option<String>,
    filesystem: Option<String>,
    root_size: Option<String>,
    kargs: Option<Vec<String>>,
    request: Result<ToDiskOpts, ToDiskError>,
)
    requires
        call_ensures(
            BcvkService::to_disk,
            (
                service,
                source_image,
                target_disk,
                format,
                disk_size,
                filesystem,
                root_size,
                kargs,
            ),
            request,
        ),
    ensures
        format is None ==> request is Ok,
        format matches Some(name) ==> if name@ == "raw"@ || name@ == "qcow2"@ {
            request is Ok
        } else {
            request matches Err(ToDiskError::Failed { message }) && message@
                == "unsupported disk format: "@ + quoted(name@)
                + ", expected \"raw\" or \"qcow2\""@
        },
{
}

/// The formats have the names `raw`, which is also what no name stands for, and
/// `qcow2`; for another name the client is told the name and what it may be.
pub proof fn law_disk_format(name: Option<String>, format: Result<Format, ToDiskError>)
    requires
        call_ensures(disk_format, (name,), format),
    ensures
        name is None ==> format == Ok::<Format, ToDiskError>(Format::Raw),
        name matches Some(text) && text@ == "raw"@ ==> format == Ok::<Format, ToDiskError>(
            Format::Raw,
        ),
        name matches Some(text) && text@ == "qcow2"@ ==> format == Ok::<Format, ToDiskError>(
            Format::Qcow2,
        ),
        name is Some && name->0@ != "raw"@ && name->0@ != "qcow2"@ ==> (format matches Err(
            ToDiskError::Failed { message },
        ) && message@ == "unsupported disk format: "@ + quoted(name->0@)
            + ", expected \"raw\" or \"qcow2\""@),
{
    reveal_strlit("raw");
    reveal_strlit("qcow2");
    assert("raw"@.len() != "qcow2"@.len());
}

/// What a client is told of a disk format that does not exist.
pub proof fn law_unsupported_format_error(quotation: &str, refusal: ToDiskError)
    requires
        call_ensures(unsupported_format_error, (quotation,), refusal),
    ensures
        refusal matches ToDiskError::Failed { message } && message@
            == "unsupported disk format: "@ + quotation@ + ", expected \"raw\" or \"qcow2\""@,
{
}

/// The reply to a call for a disk image is its path, with whether it was there
/// already, or why it failed, with all the causes.
pub proof fn law_to_disk_reply(
    service: &BcvkService,
    target_disk: String,
    done: RunOutcome,
    reply: Result<ToDiskReply, ToDiskError>,
    report: Report,
    failure_reply: Result<ToDiskReply, ToDiskError>,
    crash: JoinError,
    crash_reply: Result<ToDiskReply, ToDiskError>,
)
    requires
        call_ensures(BcvkService::to_disk_reply, (service, target_disk, Ok(Ok(done))), reply),
        call_ensures(
            BcvkService::to_disk_reply,
            (service, target_disk, Ok(Err(report))),
            failure_reply,
        ),
        call_ensures(
            BcvkService::to_disk_reply,
            (service, target_disk, Err(crash)),
            crash_reply,
        ),
    ensures
        reply matches Ok(disk) && disk.path == target_disk && (disk.cached <==> done is Cached),
        failure_reply matches Err(ToDiskError::Failed { message }) && {
            &&& message@ == report_text_with_causes(report)
            &&& collects_help(report) ==> message@ == join(report_chain(report), ": "@)
        },
        crash_reply matches Err(ToDiskError::Failed { message }) && message@ == join_error_text(
            crash,
        ),
{
}

// ---------------------------------------------------------------------------
// Socket activation
// ---------------------------------------------------------------------------

/// The first of the passed descriptors is served, if there is one; if they could
/// not be received, the report says why.
pub proof fn law_first_descriptor_is_served<F>(
    fds: Vec<F>,
    activated: Result<Option<F>, Report>,
    error: SdError,
    failed: Result<Option<F>, Report>,
)
    requires
        call_ensures(try_activated_listener, (Ok(fds),), activated),
        call_ensures(try_activated_listener, (Err(error),), failed),
    ensures
        fds@.len() > 0 ==> activated == Ok::<Option<F>, Report>(Some(fds@[0])),
        fds@.len() == 0 ==> activated == Ok::<Option<F>, Report>(None),
        failed matches Err(report) && {
            &&& report_chain(report).len() == 1
            &&& report_chain(report)[0] == "Failed to receive activation fds: "@ + sd_error_text(
                error,
            )
            &&& collects_help(report) ==> help_sections(report).len() == 0
        },
{
}

/// Varlink is served where there is a listener, and only there; where there is
/// none the answer is that it was not served, and an error is passed on.
pub proof fn law_varlink_is_served_on_a_listener<L, E>(
    listener: Result<Option<L>, E>,
    step: ServeStep<L, E>,
)
    requires
        call_ensures(try_serve_varlink, (listener,), step),
    ensures
        listener matches Ok(Some(activated)) ==> step == ServeStep::<L, E>::Serve(activated),
        listener matches Ok(None) ==> step == ServeStep::<L, E>::Done(Ok(false)),
        listener matches Err(error) ==> step == ServeStep::<L, E>::Done(Err(error)),
{
}

/// Once it was served the answer is that it was, unless the server failed.
pub proof fn law_served<E>(event: ServeEvent<E>, answer: Result<bool, E>)
    requires
        call_ensures(served, (event,), answer),
    ensures
        event matches ServeEvent::Stopped(Err(error)) ==> answer == Err::<bool, E>(error),
        !(event is Stopped && event->Stopped_0 is Err) ==> answer == Ok::<bool, E>(true),
{
}

/// A new listener holds the connection that it was given.
pub proof fn law_new_listener<C>(conn: C, listener: ActivatedListener<C>)
    requires
        call_ensures(ActivatedListener::<C>::new, (conn,), listener),
    ensures
        listener@ == Some(conn),
{
}

/// Accepting yields what the listener holds, and leaves it with nothing: the
/// call after that has to block.
pub proof fn law_accept_takes_the_connection<C>(
    listener: &mut ActivatedListener<C>,
    yielded: Option<C>,
)
    requires
        call_ensures(ActivatedListener::<C>::accept, (listener,), yielded),
    ensures
        yielded == old(listener)@,
        final(listener)@ is None,
{
}

} // verus!
