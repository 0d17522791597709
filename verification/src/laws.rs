//! What holds of the pipeline as a whole, stated over the transition
//! function and the naming rules.

use crate::event::{spec_classify, ActionView, WatchEventView};
use crate::namer::{
    ends_with, html_suffix, is_hyphen_place, is_identifier, is_lower_hex, pdf_suffix,
    processed_suffix, spec_join, spec_output_path, spec_processed_file_name, spec_processed_path,
    spec_staged_path,
};
use crate::path::{
    extension_of_name, final_component, lemma_after_last_unique, names_no_file,
    spec_extension, spec_file_name, spec_has_html_extension, spec_is_html_extension,
};
use crate::pipeline::{
    spec_advance, spec_idle, spec_run, CommandView, ConfigView, Failure, OutcomeView, PhaseView,
    RenderResultView, StagedFileView,
};
use vstd::prelude::*;

verus! {

/// `c` does not occur in `s`.
pub open spec fn free_of(s: Seq<char>, c: char) -> bool {
    forall|i: int| 0 <= i < s.len() ==> s[i] != c
}

/// The final component of a directory joined with a name that holds no `/`
/// is that name.
pub proof fn lemma_final_component_of_join(dir: Seq<char>, name: Seq<char>)
    requires
        free_of(name, '/'),
    ensures
        final_component(spec_join(dir, name)) == name,
{
    let p = spec_join(dir, name);
    let k = dir.len() + 1;
    assert(p[k - 1] == '/');
    assert forall|j: int| k <= j < p.len() implies p[j] != '/' by {
        assert(p[j] == name[j - k]);
    }
    lemma_after_last_unique(p, '/', k as int);
    assert(p.subrange(k as int, p.len() as int) =~= name);
}

/// A name made of a stem that is not empty, a `.`, and a tail that holds no
/// `.` has that tail as its extension.
pub proof fn lemma_extension_of_dotted(stem: Seq<char>, tail: Seq<char>)
    requires
        stem.len() >= 1,
        free_of(tail, '.'),
    ensures
        extension_of_name(stem + seq!['.'] + tail) == Some(tail),
{
    let name = stem + seq!['.'] + tail;
    let k = stem.len() + 1;
    assert(name[k - 1] == '.');
    assert forall|j: int| k <= j < name.len() implies name[j] != '.' by {
        assert(name[j] == tail[j - k]);
    }
    lemma_after_last_unique(name, '.', k as int);
    assert(name.subrange(k as int, name.len() as int) =~= tail);
}

/// The text of an identifier holds neither `/` nor `.`.
pub proof fn lemma_identifier_is_plain(id: Seq<char>)
    requires
        is_identifier(id),
    ensures
        free_of(id, '/'),
        free_of(id, '.'),
{
    assert forall|i: int| 0 <= i < id.len() implies id[i] != '/' && id[i] != '.' by {
        if is_hyphen_place(i) {
            assert(id[i] == '-');
        } else {
            assert(is_lower_hex(id[i]));
        }
    }
}

/// A marker is commanded only in answer to a completed write, and a write
/// only in answer to a finished render: no document is marked as processed
/// whose PDF was not written, and no PDF is written that was not rendered.
pub proof fn law_marker_follows_output(
    config: ConfigView,
    phase: PhaseView,
    outcome: OutcomeView,
    id: Seq<char>,
)
    ensures
        spec_advance(config, phase, outcome, id).command is MarkProcessed ==> phase is Writing
            && outcome is Completed,
        spec_advance(config, phase, outcome, id).command is WriteOutput ==> phase is Rendering
            && outcome is Rendered,
        spec_advance(config, phase, outcome, id).command is Render ==> phase is Resolving
            && outcome is Resolved,
{
}

/// A document whose render succeeded is written under the name it arrived
/// with, and marked under that same name once the write is done; where the
/// render or the write fails, nothing further is commanded for it, so the
/// staged file stays as it is, and the machine is idle again.
pub proof fn law_document_is_marked_or_left_staged(
    config: ConfigView,
    file: StagedFileView,
    bytes: Seq<u8>,
    id: Seq<char>,
)
    ensures
        ({
            let rendering = PhaseView::Rendering(file);
            let written = spec_advance(config, rendering, OutcomeView::Rendered(bytes), id);
            let marked = spec_advance(config, written.phase, OutcomeView::Completed, id);
            let result = RenderResultView {
                path: spec_output_path(config.output_dir, file.basename),
                bytes,
            };
            let marker = spec_processed_path(config.input_dir, file.basename);
            &&& written.command == CommandView::WriteOutput(result)
            &&& marked.command == (CommandView::MarkProcessed { from: file.path, to: marker })
            &&& spec_advance(config, written.phase, OutcomeView::Failed, id) == spec_idle(
                Some(Failure::TransientIo),
            )
            &&& spec_advance(config, rendering, OutcomeView::Failed, id) == spec_idle(
                Some(Failure::RenderFailure),
            )
        }),
{
}

/// A run has one transition for each outcome, and each is the answer to its
/// outcome in the phase that the transition before it led to.
pub proof fn lemma_run_unfolds(
    config: ConfigView,
    phase: PhaseView,
    outcomes: Seq<OutcomeView>,
    ids: Seq<Seq<char>>,
    i: int,
)
    requires
        0 <= i < outcomes.len(),
    ensures
        spec_run(config, phase, outcomes, ids).len() == outcomes.len(),
        spec_run(config, phase, outcomes, ids)[i] == spec_advance(
            config,
            if i == 0 {
                phase
            } else {
                spec_run(config, phase, outcomes, ids)[i - 1].phase
            },
            outcomes[i],
            ids[i],
        ),
    decreases outcomes.len(),
{
    let shorter = outcomes.drop_last();
    let before = spec_run(config, phase, shorter, ids);
    if shorter.len() > 0 {
        lemma_run_unfolds(config, phase, shorter, ids, shorter.len() - 1);
    }
    if i < shorter.len() {
        lemma_run_unfolds(config, phase, shorter, ids, i);
        assert(shorter[i] == outcomes[i]);
    }
}

/// In every run that starts idle, whatever the driver reports: a marker is
/// commanded only directly after the write of the PDF of the same document
/// was commanded and reported as completed. So no document is ever marked
/// as processed without its PDF.
pub proof fn law_every_marker_follows_its_output(
    config: ConfigView,
    outcomes: Seq<OutcomeView>,
    ids: Seq<Seq<char>>,
    i: int,
)
    requires
        0 <= i < outcomes.len(),
        spec_run(config, PhaseView::Idle, outcomes, ids)[i].command is MarkProcessed,
    ensures
        i >= 1,
        outcomes[i] is Completed,
        spec_run(config, PhaseView::Idle, outcomes, ids)[i - 1].command is WriteOutput,
        ({
            let run = spec_run(config, PhaseView::Idle, outcomes, ids);
            exists|basename: Seq<char>|
                {
                    &&& run[i - 1].command->WriteOutput_0.path == #[trigger] spec_output_path(
                        config.output_dir,
                        basename,
                    )
                    &&& run[i].command->MarkProcessed_to == spec_processed_path(
                        config.input_dir,
                        basename,
                    )
                }
        }),
{
    let run = spec_run(config, PhaseView::Idle, outcomes, ids);
    lemma_run_unfolds(config, PhaseView::Idle, outcomes, ids, i);
    if i >= 1 {
        lemma_run_unfolds(config, PhaseView::Idle, outcomes, ids, i - 1);
        let basename = run[i - 1].phase->Writing_0.basename;
        assert(run[i - 1].command->WriteOutput_0.path == spec_output_path(
            config.output_dir,
            basename,
        ));
    }
}

/// Whatever the phase and the outcome, a failure leaves the machine idle
/// and waiting for the next event: no failure ends the machine, and none
/// commands a write or a rename.
pub proof fn law_failure_returns_to_idle(
    config: ConfigView,
    phase: PhaseView,
    outcome: OutcomeView,
    id: Seq<char>,
)
    ensures
        spec_advance(config, phase, outcome, id).failure.is_some() ==> spec_advance(
            config,
            phase,
            outcome,
            id,
        ) == spec_idle(spec_advance(config, phase, outcome, id).failure),
        outcome is Failed ==> spec_advance(config, phase, outcome, id).phase is Idle,
{
}

/// For a document that arrived as `<stem>.html`, the PDF is `<stem>.pdf` in
/// the output directory and the marker is `<stem>.html.processed` in the
/// input directory.
pub proof fn law_names_share_the_stem(
    input_dir: Seq<char>,
    output_dir: Seq<char>,
    stem: Seq<char>,
)
    ensures
        spec_output_path(output_dir, stem + html_suffix()) == spec_join(
            output_dir,
            stem + pdf_suffix(),
        ),
        spec_processed_path(input_dir, stem + html_suffix()) == spec_join(
            input_dir,
            stem + html_suffix() + processed_suffix(),
        ),
{
    let basename = stem + html_suffix();
    assert(basename.subrange(basename.len() - 5, basename.len() as int) =~= html_suffix());
    assert(basename.subrange(0, basename.len() - 5) =~= stem);
}

/// Distinct identifiers give distinct staged paths in one directory.
pub proof fn law_staged_paths_distinct(input_dir: Seq<char>, id_a: Seq<char>, id_b: Seq<char>)
    requires
        id_a != id_b,
    ensures
        spec_staged_path(input_dir, id_a) != spec_staged_path(input_dir, id_b),
{
    let a = spec_staged_path(input_dir, id_a);
    let b = spec_staged_path(input_dir, id_b);
    let k = input_dir.len() + 1;
    if a == b {
        assert(a.len() == k + id_a.len() + 5);
        assert(b.len() == k + id_b.len() + 5);
        assert forall|i: int| 0 <= i < id_a.len() implies id_a[i] == id_b[i] by {
            assert(a[k + i] == id_a[i]);
            assert(b[k + i] == id_b[i]);
        }
        assert(id_a =~= id_b);
    }
}

/// The rename that claims a raw file is itself the signal to render it: the
/// event of a rename from `raw` to a staged path is classified as a render
/// of that staged path under the file name of `raw`.
pub proof fn law_claim_leads_to_render(input_dir: Seq<char>, raw: Seq<char>, id: Seq<char>)
    requires
        is_identifier(id),
        spec_file_name(raw).is_some(),
    ensures
        spec_classify(WatchEventView::FileRenamed(raw, spec_staged_path(input_dir, id))) == (
        ActionView::Render(spec_staged_path(input_dir, id), spec_file_name(raw).unwrap())),
{
    let tail = seq!['h', 't', 'm', 'l'];
    let name = id + html_suffix();
    lemma_identifier_is_plain(id);
    assert(name =~= id + seq!['.'] + tail);
    assert(free_of(name, '/')) by {
        assert forall|i: int| 0 <= i < name.len() implies name[i] != '/' by {
            if i < id.len() {
                assert(name[i] == id[i]);
            }
        }
    }
    lemma_final_component_of_join(input_dir, name);
    lemma_extension_of_dotted(id, tail);
    assert(spec_is_html_extension(tail));
}

/// A created file whose path has no HTML extension is left alone: the
/// machine stays idle and commands nothing for it.
pub proof fn law_other_files_untouched(config: ConfigView, path: Seq<char>, id: Seq<char>)
    requires
        !spec_has_html_extension(path),
    ensures
        spec_classify(WatchEventView::FileCreated(path)) == ActionView::Ignore,
        spec_advance(
            config,
            PhaseView::Idle,
            OutcomeView::Event(WatchEventView::FileCreated(path)),
            id,
        ) == spec_idle(None),
{
}

/// A claim is commanded only for a created file whose path has an HTML
/// extension, and it renames that very path.
pub proof fn law_claims_only_html(
    config: ConfigView,
    phase: PhaseView,
    outcome: OutcomeView,
    id: Seq<char>,
)
    requires
        spec_advance(config, phase, outcome, id).command is Claim,
    ensures
        phase is Idle,
        outcome is Event,
        outcome->Event_0 is FileCreated,
        spec_has_html_extension(outcome->Event_0->FileCreated_0),
        spec_advance(config, phase, outcome, id).command->Claim_from
            == outcome->Event_0->FileCreated_0,
{
}

/// A rename event that is delivered again after its document was marked
/// finds the staged file gone. The machine then asks only to resolve the
/// path, and on the failure of that returns to idle: it commands no write
/// and no rename, so the PDF and the marker stay as they are.
pub proof fn law_redelivery_is_harmless(
    config: ConfigView,
    from: Seq<char>,
    to: Seq<char>,
    id: Seq<char>,
)
    ensures
        ({
            let first = spec_advance(
                config,
                PhaseView::Idle,
                OutcomeView::Event(WatchEventView::FileRenamed(from, to)),
                id,
            );
            let second = spec_advance(config, first.phase, OutcomeView::Failed, id);
            &&& first.command is Resolve || first.command is AwaitEvent
            &&& first.command is Resolve ==> first.command->Resolve_path == to
            &&& second.phase is Idle
            &&& second.command is AwaitEvent
        }),
{
}

/// The rename that marks a document does not bring it back: an event whose
/// path is the marker of a name that ends in `.html` is ignored, whether it
/// is reported as a creation or as the destination of a rename.
pub proof fn law_marker_is_ignored(input_dir: Seq<char>, basename: Seq<char>, from: Seq<char>)
    requires
        ends_with(basename, html_suffix()),
        free_of(basename, '/'),
    ensures
        spec_classify(
            WatchEventView::FileRenamed(from, spec_processed_path(input_dir, basename)),
        ) == ActionView::Ignore,
        spec_classify(WatchEventView::FileCreated(spec_processed_path(input_dir, basename)))
            == ActionView::Ignore,
{
    let tail = seq!['p', 'r', 'o', 'c', 'e', 's', 's', 'e', 'd'];
    let name = spec_processed_file_name(basename);
    assert(name =~= basename + seq!['.'] + tail);
    assert(free_of(name, '/')) by {
        assert forall|i: int| 0 <= i < name.len() implies name[i] != '/' by {
            if i < basename.len() {
                assert(name[i] == basename[i]);
            }
        }
    }
    lemma_final_component_of_join(input_dir, name);
    lemma_extension_of_dotted(basename, tail);
    assert(!names_no_file(name));
    assert(spec_extension(spec_processed_path(input_dir, basename)) == Some(tail));
    assert(tail[tail.len() - 1] == 'd');
    assert(!spec_is_html_extension(tail));
}

} // verus!
