//! What holds of every run of the pipeline.

use vstd::prelude::*;
use crate::artifact::{first_absent, first_absent_is_least, reported};
use crate::bindings::{header_paths, include_dir};
use crate::error::{message_names_subject, message_text, ErrorView, ExtractionCause};
use crate::extract::directories;
use crate::invoke::{exited_cleanly, BuildStyleView};
use crate::link::archive_paths;
use crate::paths::joined;
use crate::pipeline::{advanced, pending, ConfigView, EventView, StageView};
use crate::scan::DirEntryView;

verus! {

/// The stage reached from `s` after the events `events`, in order.
pub open spec fn run(c: ConfigView, s: StageView, events: Seq<EventView>) -> StageView
    decreases events.len(),
{
    if events.len() == 0 {
        s
    } else {
        run(c, advanced(c, s, events.first()), events.drop_first())
    }
}

/// The native build is behind the run: its last subprocess exited cleanly.
pub open spec fn past_build(s: StageView) -> bool {
    s is Built || s is Linked || s is BoundGenerated || s is Done
}

/// A failed run stays failed, whatever happens next, and asks for nothing more.
pub proof fn failure_is_final(c: ConfigView, s: StageView, events: Seq<EventView>)
    requires
        s is Failed,
    ensures
        run(c, s, events) == s,
        pending(c, run(c, s, events)) is Halt,
    decreases events.len(),
{
    if events.len() > 0 {
        failure_is_final(c, s, events.drop_first());
    }
}

/// A completed run stays completed and asks for nothing more.
pub proof fn done_is_final(c: ConfigView, events: Seq<EventView>)
    ensures
        run(c, StageView::Done, events) == StageView::Done,
        pending(c, run(c, StageView::Done, events)) is Halt,
    decreases events.len(),
{
    if events.len() > 0 {
        done_is_final(c, events.drop_first());
    }
}

/// A build subprocess that does not exit cleanly fails the run on the spot,
/// naming the subprocess; after that no event brings the run back, so no link
/// directive is emitted and no binding generator is run.
pub proof fn failed_build_stops_the_run(
    c: ConfigView,
    source: Seq<char>,
    configured: bool,
    code: Option<i32>,
    rest: Seq<EventView>,
)
    requires
        !exited_cleanly(code),
    ensures
        advanced(c, StageView::Extracted { source, configured }, EventView::Exited { code })
            == StageView::Failed(
            ErrorView::NativeBuildFailure { program: c.build_step(source, configured).program, code },
        ),
        run(
            c,
            advanced(c, StageView::Extracted { source, configured }, EventView::Exited { code }),
            rest,
        ) is Failed,
        pending(
            c,
            run(
                c,
                advanced(c, StageView::Extracted { source, configured }, EventView::Exited { code }),
                rest,
            ),
        ) is Halt,
{
    let failed = advanced(c, StageView::Extracted { source, configured }, EventView::Exited { code });
    failure_is_final(c, failed, rest);
}

/// The only way past the native build is a clean exit of its last subprocess.
pub proof fn only_a_clean_build_is_passed(c: ConfigView, s: StageView, e: EventView)
    requires
        !past_build(s),
        past_build(advanced(c, s, e)),
    ensures
        s matches StageView::Extracted { configured, .. } && c.last_build_step(configured),
        e matches EventView::Exited { code } && exited_cleanly(code),
        advanced(c, s, e) == (StageView::Built { checked: false }),
{
}

/// Link directives are due only once the native build is behind and its
/// libraries were found installed; the generator is due only once the link
/// directives are out and every header was found installed.
pub proof fn work_is_due_only_when_checked(c: ConfigView, s: StageView)
    ensures
        pending(c, s) is Emit ==> s == (StageView::Built { checked: true }),
        pending(c, s) is Generate ==> s == (StageView::Linked { checked: true }),
{
}

/// The headers count as checked only after a probe that found each of them.
pub proof fn headers_are_checked_by_a_full_probe(c: ConfigView, s: StageView, e: EventView)
    requires
        s != (StageView::Linked { checked: true }),
        advanced(c, s, e) == (StageView::Linked { checked: true }),
    ensures
        s == (StageView::Linked { checked: false }),
        e matches EventView::Probed { present } && forall|j: int|
            0 <= j < c.headers.len() ==> reported(present, j),
{
    match e {
        EventView::Probed { present } => {
            first_absent_is_least(present, c.headers.len());
        },
        _ => {},
    }
}

/// When a header is absent from the install prefix, the run fails before the
/// generator is due: the failure is a missing artifact, it names the path of
/// the first absent header, its message ends with that path, and nothing
/// follows it.
pub proof fn missing_header_stops_generation(c: ConfigView, present: Seq<bool>, rest: Seq<EventView>)
    requires
        exists|j: int| 0 <= j < c.headers.len() && !reported(present, j),
    ensures
        first_absent(present, c.headers.len()) matches Some(i) && {
            let path = joined(include_dir(c.install_prefix()), c.headers[i]);
            let failure = ErrorView::MissingArtifact { path };
            let failed = advanced(
                c,
                StageView::Linked { checked: false },
                EventView::Probed { present },
            );
            &&& 0 <= i < c.headers.len()
            &&& !reported(present, i)
            &&& failed == StageView::Failed(failure)
            &&& path.is_suffix_of(message_text(failure))
            &&& !(pending(c, failed) is Generate)
            &&& run(c, failed, rest) == failed
            &&& pending(c, run(c, failed, rest)) is Halt
        },
{
    first_absent_is_least(present, c.headers.len());
    let i = first_absent(present, c.headers.len())->0;
    let path = joined(include_dir(c.install_prefix()), c.headers[i]);
    let failure = ErrorView::MissingArtifact { path };
    let failed = advanced(c, StageView::Linked { checked: false }, EventView::Probed { present });
    assert(header_paths(c.install_prefix(), c.headers)[i] == path);
    message_names_subject(failure);
    failure_is_final(c, failed, rest);
}

/// The same holds of the libraries: an absent archive fails the run before
/// any link directive is due.
pub proof fn missing_library_stops_linking(c: ConfigView, present: Seq<bool>, rest: Seq<EventView>)
    requires
        exists|j: int| 0 <= j < c.static_libs.len() && !reported(present, j),
    ensures
        first_absent(present, c.static_libs.len()) matches Some(i) && {
            let path = archive_paths(c.install_prefix(), c.static_libs)[i];
            let failed = advanced(
                c,
                StageView::Built { checked: false },
                EventView::Probed { present },
            );
            &&& failed == StageView::Failed(ErrorView::MissingArtifact { path })
            &&& !(pending(c, failed) is Emit)
            &&& run(c, failed, rest) == failed
        },
{
    first_absent_is_least(present, c.static_libs.len());
    let failed = advanced(c, StageView::Built { checked: false }, EventView::Probed { present });
    failure_is_final(c, failed, rest);
}

/// An extraction that does not leave exactly one top-level directory fails the
/// run, and the failure tells none from several.
pub proof fn ambiguous_extraction_is_rejected(c: ConfigView, listing: Seq<DirEntryView>)
    requires
        directories(listing).len() != 1,
    ensures
        advanced(c, StageView::Init, EventView::Unpacked { listing }) == StageView::Failed(
            ErrorView::ExtractionFailure {
                dest: c.work_dir,
                cause: if directories(listing).len() == 0 {
                    ExtractionCause::NoDirectory
                } else {
                    ExtractionCause::ManyDirectories
                },
            },
        ),
{
}

/// An extraction that leaves exactly one top-level directory is accepted, and
/// that directory is where the native build runs.
pub proof fn single_root_extraction_is_accepted(c: ConfigView, listing: Seq<DirEntryView>)
    requires
        directories(listing).len() == 1,
    ensures
        advanced(c, StageView::Init, EventView::Unpacked { listing }) == (StageView::Extracted {
            source: directories(listing)[0],
            configured: false,
        }),
{
}

/// The events of a run in which everything succeeds.
pub open spec fn clean_events(
    c: ConfigView,
    listing: Seq<DirEntryView>,
    libs_present: Seq<bool>,
    headers_present: Seq<bool>,
) -> Seq<EventView> {
    let exit = EventView::Exited { code: Some(0i32) };
    let build = match c.style {
        BuildStyleView::Configure => seq![exit, exit],
        BuildStyleView::Makefile { .. } => seq![exit],
    };
    seq![EventView::Unpacked { listing }] + build + seq![
        EventView::Probed { present: libs_present },
        EventView::Emitted,
        EventView::Probed { present: headers_present },
        EventView::Generated,
        EventView::Finished,
    ]
}

/// A run in which the archive unpacks to a single directory, every subprocess
/// exits cleanly, every library and header is found and the generator
/// succeeds ends in `Done`.
pub proof fn clean_run_reaches_done(
    c: ConfigView,
    listing: Seq<DirEntryView>,
    libs_present: Seq<bool>,
    headers_present: Seq<bool>,
)
    requires
        directories(listing).len() == 1,
        forall|j: int| 0 <= j < c.static_libs.len() ==> reported(libs_present, j),
        forall|j: int| 0 <= j < c.headers.len() ==> reported(headers_present, j),
    ensures
        run(c, StageView::Init, clean_events(c, listing, libs_present, headers_present))
            == StageView::Done,
{
    first_absent_is_least(libs_present, c.static_libs.len());
    first_absent_is_least(headers_present, c.headers.len());
    let events = clean_events(c, listing, libs_present, headers_present);
    let source = directories(listing)[0];
    let exit = EventView::Exited { code: Some(0i32) };
    let tail = seq![
        EventView::Probed { present: libs_present },
        EventView::Emitted,
        EventView::Probed { present: headers_present },
        EventView::Generated,
        EventView::Finished,
    ];
    assert(run(c, StageView::Built { checked: false }, tail) == StageView::Done) by {
        let t1 = tail.drop_first();
        let t2 = t1.drop_first();
        let t3 = t2.drop_first();
        let t4 = t3.drop_first();
        let t5 = t4.drop_first();
        assert(t5.len() == 0);
        assert(run(c, StageView::Done, t5) == StageView::Done);
        assert(run(c, StageView::BoundGenerated, t4) == StageView::Done);
        assert(run(c, StageView::Linked { checked: true }, t3) == StageView::Done);
        assert(run(c, StageView::Linked { checked: false }, t2) == StageView::Done);
        assert(run(c, StageView::Built { checked: true }, t1) == StageView::Done);
    }
    match c.style {
        BuildStyleView::Configure => {
            let e1 = events.drop_first();
            let e2 = e1.drop_first();
            let e3 = e2.drop_first();
            assert(e3 =~= tail);
            assert(run(c, StageView::Extracted { source, configured: true }, e2) == StageView::Done);
            assert(run(c, StageView::Extracted { source, configured: false }, e1) == StageView::Done);
        },
        BuildStyleView::Makefile { .. } => {
            let e1 = events.drop_first();
            let e2 = e1.drop_first();
            assert(e2 =~= tail);
            assert(run(c, StageView::Extracted { source, configured: false }, e1) == StageView::Done);
        },
    }
}

} // verus!
