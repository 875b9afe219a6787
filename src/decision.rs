use vstd::prelude::*;
use crate::fingerprint::{fingerprint_after, fingerprint_status, WriteFileStatus};
use crate::json_deps::{
    listed_includes,
    opt_list_view,
    opt_str_view,
    parsed_json,
    structured_dependencies,
    structured_dependency_list,
};
use crate::make_deps::{make_dependencies, make_dependency_list};
use crate::timestamps::{input_not_older, is_any_input_newer_then_output, is_stale, FileTime};

verus! {

/// The dependencies that a unit's side-channel record lists. `record` is the
/// record's text, `None` where it is not a regular file or cannot be read;
/// `msvc` selects the structured format over the Makefile-style one; `src`
/// is the unit's source path in text form, where it has one.
pub open spec fn dependency_list(record: Option<Seq<char>>, msvc: bool, src: Option<Seq<char>>) -> Option<
    Seq<Seq<char>>,
> {
    match record {
        None => None,
        Some(text) => if msvc {
            match parsed_json(text) {
                Some(doc) => structured_dependency_list(doc, src),
                None => None,
            }
        } else {
            Some(make_dependency_list(text))
        },
    }
}

/// Whether a unit must be rebuilt, from what was observed of it, in order:
/// the fingerprint update (`Err` where the sidecar could not be written),
/// whether the output is a regular file, the output's time, and the times of
/// the recorded dependencies (`None` where no reliable record exists).
pub open spec fn run_needed(
    fingerprint: Result<WriteFileStatus, ()>,
    output_is_file: bool,
    out_time: Option<FileTime>,
    dependency_times: Option<Seq<Option<FileTime>>>,
) -> bool {
    if fingerprint != Ok::<WriteFileStatus, ()>(WriteFileStatus::NoWrite) {
        true
    } else if !output_is_file {
        true
    } else {
        match dependency_times {
            None => true,
            Some(times) => is_stale(out_time, times),
        }
    }
}

/// The view of an optional list of times.
pub open spec fn opt_times_view(t: Option<&Vec<Option<FileTime>>>) -> Option<Seq<Option<FileTime>>> {
    match t {
        Some(v) => Some(v@),
        None => None,
    }
}

/// Takes the dependencies from a unit's side-channel record, in the format
/// that `msvc` selects; `None` where no reliable record exists.
pub fn get_dependencies(record: Option<&str>, msvc: bool, src: Option<&str>) -> (r: Option<
    Vec<String>,
>)
    ensures
        opt_list_view(r) == dependency_list(opt_str_view(record), msvc, opt_str_view(src)),
{
    match record {
        None => None,
        Some(text) => {
            if msvc {
                structured_dependencies(text, src)
            } else {
                Some(make_dependencies(text))
            }
        },
    }
}

/// Decides whether a unit must be rebuilt; the first reason found wins: the
/// command changed or its sidecar could not be written, the output is
/// missing, the dependencies are unknown, or one of them is not strictly
/// older than the output.
pub fn is_run_needed(
    fingerprint: Result<WriteFileStatus, ()>,
    output_is_file: bool,
    out_time: Option<FileTime>,
    dependency_times: Option<&Vec<Option<FileTime>>>,
) -> (r: bool)
    ensures
        r == run_needed(fingerprint, output_is_file, out_time, opt_times_view(dependency_times)),
        !output_is_file ==> r,
        dependency_times is None ==> r,
{
    match fingerprint {
        Ok(WriteFileStatus::NoWrite) => {},
        _ => return true,
    }
    if !output_is_file {
        return true;
    }
    match dependency_times {
        Some(times) => is_any_input_newer_then_output(out_time, times),
        None => true,
    }
}

/// A unit whose output is missing is always rebuilt, whatever its command
/// and dependencies.
pub proof fn missing_output_forces_rebuild(
    fingerprint: Result<WriteFileStatus, ()>,
    out_time: Option<FileTime>,
    dependency_times: Option<Seq<Option<FileTime>>>,
)
    ensures
        run_needed(fingerprint, false, out_time, dependency_times),
{
}

/// A command text that differs from the stored fingerprint, or meets none,
/// forces a rebuild, and leaves the fingerprint holding exactly the new text;
/// a fingerprint that could not be written forces a rebuild too.
pub proof fn changed_command_forces_rebuild(
    stored: Option<Seq<char>>,
    command: Seq<char>,
    output_is_file: bool,
    out_time: Option<FileTime>,
    dependency_times: Option<Seq<Option<FileTime>>>,
)
    requires
        stored != Some(command),
    ensures
        run_needed(
            Ok(fingerprint_status(stored, command)),
            output_is_file,
            out_time,
            dependency_times,
        ),
        run_needed(Err(()), output_is_file, out_time, dependency_times),
        fingerprint_after(stored, command) == Some(command),
{
}

/// With the command unchanged and the output present, a dependency whose
/// time is unknown, equal to or later than the output's forces a rebuild;
/// when every dependency is strictly older than the output, nothing does.
pub proof fn dependency_times_decide(out: FileTime, dependency_times: Seq<Option<FileTime>>)
    ensures
        (exists|i: int|
            0 <= i < dependency_times.len() && #[trigger] input_not_older(out, dependency_times[i]))
            ==> run_needed(Ok(WriteFileStatus::NoWrite), true, Some(out), Some(dependency_times)),
        (forall|i: int|
            0 <= i < dependency_times.len() ==> #[trigger] dependency_times[i] is Some
                && !dependency_times[i]->0.at_or_after(out)) ==> !run_needed(
            Ok(WriteFileStatus::NoWrite),
            true,
            Some(out),
            Some(dependency_times),
        ),
{
}

/// An absent side-channel record, a structured one that does not parse, or
/// one that lacks the include list, leaves the dependencies unknown, and
/// unknown dependencies force a rebuild even with the output present and the
/// command unchanged.
pub proof fn unknown_dependencies_force_rebuild(
    record: Option<Seq<char>>,
    msvc: bool,
    src: Option<Seq<char>>,
    out_time: Option<FileTime>,
)
    ensures
        record is None ==> dependency_list(record, msvc, src) is None,
        (msvc && record is Some && (parsed_json(record->0) is None || listed_includes(
            parsed_json(record->0)->0,
        ) is None)) ==> dependency_list(record, msvc, src) is None,
        run_needed(Ok(WriteFileStatus::NoWrite), true, out_time, None),
{
}

} // verus!
