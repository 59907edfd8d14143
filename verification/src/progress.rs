//! Progress bridge: translates each pipeline callback invocation into the
//! structured event published to the UI, enriching the finished event with
//! the output path resolved for the invocation (the pipeline itself does
//! not know that path).
//!
//! A fractional percentage travels as its raw 32-bit pattern, carried
//! through untouched, so the published value is exactly the one the
//! pipeline reported.
use crate::paths::ResolvedOutputPath;
use vstd::prelude::*;

verus! {

/// One invocation of the pipeline's stage/write progress callback, as
/// plain values: a stage label, a per-stem write report, completion, or
/// any variant this layer does not recognize.
pub enum PipelineProgress {
    Stage { label: String },
    Writing { stem: String, percent_bits: u32 },
    Finished,
    Other,
}

/// The event published to the UI.
pub enum ProgressEvent {
    Download { downloaded: u64, total: u64 },
    Stage { stage: String },
    Writing { stem: String, percent_bits: u32 },
    Finished { output_path: Vec<u8> },
    Noop,
}

/// Variant-for-variant correspondence between one callback invocation and
/// the event published for it: stage labels and stem/percent pairs are
/// preserved, completion is enriched with the resolved output path, and an
/// unrecognized variant becomes a noop event rather than a failure.
pub open spec fn corresponds(p: PipelineProgress, out: Seq<u8>, e: ProgressEvent) -> bool {
    match (p, e) {
        (PipelineProgress::Stage { label }, ProgressEvent::Stage { stage }) => stage@ == label@,
        (
            PipelineProgress::Writing { stem, percent_bits },
            ProgressEvent::Writing { stem: s, percent_bits: b },
        ) => s@ == stem@ && b == percent_bits,
        (PipelineProgress::Finished, ProgressEvent::Finished { output_path }) => output_path@
            == out,
        (PipelineProgress::Other, ProgressEvent::Noop) => true,
        _ => false,
    }
}

/// Translates one callback invocation into the event to publish.
pub fn translate_progress(p: PipelineProgress, output_path: &Vec<u8>) -> (e: ProgressEvent)
    ensures
        corresponds(p, output_path@, e),
{
    match p {
        PipelineProgress::Stage { label } => ProgressEvent::Stage { stage: label },
        PipelineProgress::Writing { stem, percent_bits } => ProgressEvent::Writing {
            stem,
            percent_bits,
        },
        PipelineProgress::Finished => ProgressEvent::Finished {
            output_path: vstd::slice::slice_to_vec(output_path.as_slice()),
        },
        PipelineProgress::Other => ProgressEvent::Noop,
    }
}

/// The event published for one download-progress callback invocation.
pub fn download_event(downloaded: u64, total: u64) -> (e: ProgressEvent)
    ensures
        e == (ProgressEvent::Download { downloaded, total }),
{
    ProgressEvent::Download { downloaded, total }
}

/// Translates a whole sequence of callback invocations: the published
/// events correspond one-for-one and in order — no reordering, no
/// batching, no dropped or invented variant.
pub fn translate_all(invocations: Vec<PipelineProgress>, output_path: &Vec<u8>) -> (es: Vec<
    ProgressEvent,
>)
    ensures
        es@.len() == invocations@.len(),
        forall|i: int|
            0 <= i < invocations@.len() ==> corresponds(invocations@[i], output_path@, es@[i]),
{
    let ghost orig = invocations@;
    let mut rest = invocations;
    let mut es: Vec<ProgressEvent> = Vec::new();
    while rest.len() > 0
        invariant
            es@.len() + rest@.len() == orig.len(),
            rest@ =~= orig.skip(es@.len() as int),
            forall|i: int| 0 <= i < es@.len() ==> corresponds(orig[i], output_path@, es@[i]),
        decreases rest@.len(),
    {
        let ghost k: int = es@.len() as int;
        let p = rest.remove(0);
        proof {
            assert(p == orig[k]);
            assert(orig.skip(k).remove(0) =~= orig.skip(k + 1));
        }
        let e = translate_progress(p, output_path);
        es.push(e);
    }
    es
}

/// A finished event built for an invocation always carries the resolved
/// output path — a strict descendant of the caller-supplied base
/// directory, never that base directory itself.
pub proof fn lemma_finished_carries_resolved_path(r: ResolvedOutputPath, e: ProgressEvent)
    requires
        r.wf(),
        corresponds(PipelineProgress::Finished, r.full_path@, e),
    ensures
        e matches ProgressEvent::Finished { output_path } && output_path@ == r.full_path@
            && output_path@ != r.base_dir@,
{
    crate::paths::lemma_full_path_strict_descendant(r);
}

} // verus!
