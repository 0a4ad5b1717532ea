//! What this library takes from other crates, and what it relies on there.
//!
//! Nothing in this module is proved: each contract states what the named
//! function of the other crate does.
use crate::text::join;
use camino::{Utf8Path, Utf8PathBuf};
use color_eyre::eyre::Report;
use color_eyre::Section;
use libsystemd::errors::SdError;
use tokio::task::JoinError;
use vstd::prelude::*;

verus! {

/// A borrowed UTF-8 path of `camino`. All this library knows of one is its
/// text.
#[verifier::external_type_specification]
#[verifier::external_body]
pub struct ExUtf8Path(camino::Utf8Path);

/// The characters that the path holds, as `camino::Utf8Path::as_str` gives
/// them.
pub uninterp spec fn path_text(path: &Utf8Path) -> Seq<char>;

/// `camino::Utf8Path::new` wraps a string slice and keeps its text.
#[verifier::external_body]
pub(crate) fn utf8_path(text: &str) -> (path: &Utf8Path)
    ensures
        path_text(path) == text@,
{
    Utf8Path::new(text)
}

/// `camino::Utf8Path::as_str` gives the text of the path, which is also what
/// the path prints as.
pub assume_specification[ camino::Utf8Path::as_str ](path: &Utf8Path) -> (text: &str)
    ensures
        text@ == path_text(path),
;

/// An owned UTF-8 path of `camino`. All this library knows of one is its text.
#[verifier::external_type_specification]
#[verifier::external_body]
pub struct ExUtf8PathBuf(camino::Utf8PathBuf);

/// The characters that the path holds.
pub uninterp spec fn path_buf_text(path: Utf8PathBuf) -> Seq<char>;

/// `camino::Utf8PathBuf::from` copies a string slice and keeps its text.
#[verifier::external_body]
pub(crate) fn utf8_path_buf(text: &str) -> (path: Utf8PathBuf)
    ensures
        path_buf_text(path) == text@,
{
    Utf8PathBuf::from(text)
}

/// An error report of `eyre`: an error, the chain of its causes, and the
/// handler that prints them.
#[verifier::external_type_specification]
#[verifier::external_body]
pub struct ExReport(color_eyre::eyre::Report);

/// What each error in `Report::chain` prints as: the error itself first, then
/// its cause, and so on down to the root cause. An error is taken to print
/// alike whenever it is asked.
pub uninterp spec fn report_chain(report: Report) -> Seq<Seq<char>>;

/// The handler of the report is the one of `color_eyre`. That is so of every
/// report made after `color_eyre::install`.
pub uninterp spec fn collects_help(report: Report) -> bool;

/// The help sections that `color_eyre`'s handler prints after the chain, in
/// order, each with its heading.
pub uninterp spec fn help_sections(report: Report) -> Seq<(Seq<char>, Seq<char>)>;

/// `eyre::Report::wrap_err` puts a message in front of the chain. The report
/// that is wrapped becomes the cause, and its handler goes on to serve the new
/// one.
#[verifier::external_body]
pub(crate) fn wrap_err(report: Report, message: String) -> (wrapped: Report)
    ensures
        report_chain(wrapped) == seq![message@] + report_chain(report),
        collects_help(wrapped) == collects_help(report),
        help_sections(wrapped) == help_sections(report),
{
    report.wrap_err(message)
}

/// `color_eyre::Section::note` adds a note after the sections that are there,
/// if the handler is `color_eyre`'s, and otherwise drops it. The chain stays as
/// it is.
#[verifier::external_body]
pub(crate) fn note(report: Report, text: &'static str) -> (noted: Report)
    ensures
        report_chain(noted) == report_chain(report),
        collects_help(noted) == collects_help(report),
        help_sections(noted) == if collects_help(report) {
            help_sections(report).push(("Note"@, text@))
        } else {
            help_sections(report)
        },
{
    report.note(text)
}

/// `color_eyre::Section::suggestion` adds a suggestion after the sections that
/// are there, if the handler is `color_eyre`'s, and otherwise drops it. The
/// chain stays as it is.
#[verifier::external_body]
pub(crate) fn suggestion(report: Report, text: String) -> (advised: Report)
    ensures
        report_chain(advised) == report_chain(report),
        collects_help(advised) == collects_help(report),
        help_sections(advised) == if collects_help(report) {
            help_sections(report).push(("Suggestion"@, text@))
        } else {
            help_sections(report)
        },
{
    report.suggestion(text)
}

/// `eyre::Report::msg` makes a report of a message that has no cause. Which
/// handler it gets is decided by the hook that the process has installed, so
/// that is left unsaid; `color_eyre`'s starts without help sections.
#[verifier::external_body]
pub(crate) fn report_msg(message: String) -> (report: Report)
    ensures
        report_chain(report) == seq![message@],
        collects_help(report) ==> help_sections(report).len() == 0,
{
    Report::msg(message)
}

/// What `Display` prints of the report.
pub uninterp spec fn report_text(report: Report) -> Seq<char>;

/// `Display` for `eyre::Report`. What is printed is up to the handler;
/// `color_eyre`'s prints the first error of the chain.
#[verifier::external_body]
pub(crate) fn report_to_string(report: &Report) -> (text: String)
    ensures
        text@ == report_text(*report),
        collects_help(*report) ==> seq![text@].is_prefix_of(report_chain(*report)),
{
    report.to_string()
}

/// What `Display` prints of the report in its alternate form, `{:#}`.
pub uninterp spec fn report_text_with_causes(report: Report) -> Seq<char>;

/// `Display` for `eyre::Report` in its alternate form. What is printed is up to
/// the handler; `color_eyre`'s prints the whole chain, with `: ` between each
/// error and its cause.
#[verifier::external_body]
pub(crate) fn report_to_string_with_causes(report: &Report) -> (text: String)
    ensures
        text@ == report_text_with_causes(*report),
        collects_help(*report) ==> text@ == join(report_chain(*report), ": "@),
{
    format!("{report:#}")
}

/// Why a task of `tokio` has no result: it panicked or was cancelled.
#[verifier::external_type_specification]
#[verifier::external_body]
pub struct ExJoinError(tokio::task::JoinError);

/// What `Display` prints of the error: the number of the task, and whether it
/// panicked, with its message, or was cancelled.
pub uninterp spec fn join_error_text(error: JoinError) -> Seq<char>;

/// `Display` for `tokio::task::JoinError`.
#[verifier::external_body]
pub(crate) fn join_error_to_string(error: &JoinError) -> (text: String)
    ensures
        text@ == join_error_text(*error),
{
    error.to_string()
}

/// Why `libsystemd` could not hand over the descriptors of the service manager.
#[verifier::external_type_specification]
#[verifier::external_body]
pub struct ExSdError(libsystemd::errors::SdError);

/// What `Display` prints of the error.
pub uninterp spec fn sd_error_text(error: SdError) -> Seq<char>;

/// `Display` for `libsystemd::errors::SdError`.
#[verifier::external_body]
pub(crate) fn sd_error_to_string(error: &SdError) -> (text: String)
    ensures
        text@ == sd_error_text(*error),
{
    error.to_string()
}

/// The text between quotation marks, with special characters escaped, as
/// `Debug` for `str` prints it.
pub uninterp spec fn quoted(text: Seq<char>) -> Seq<char>;

/// `Debug` for `str`. Which characters are escaped, and how, is left unsaid.
#[verifier::external_body]
pub(crate) fn quote(text: &str) -> (quotation: String)
    ensures
        quotation@ == quoted(text@),
{
    format!("{text:?}")
}

} // verus!
