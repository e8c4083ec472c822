//! The batch pipeline: turning per-object download and analysis
//! outcomes into the ordered record list, and planning the per-result
//! transformation work.
//!
//! The front end enumerates the objects under a prefix, downloads each
//! one, and calls the analysis service; the pipeline here receives those
//! outcomes as plain values, so its guarantees hold for every outcome
//! the services can produce.

use vstd::prelude::*;

use crate::analysis::{attr_lookup, AnalysisResult, BatchRecord, ObjectRef};

verus! {

/// What downloading and analyzing one object came to.
#[derive(Debug)]
pub enum ObjectOutcome {
    /// The object could not be downloaded; the failure is absorbed into
    /// an absence record and the batch continues.
    DownloadFailed,
    /// The object was analyzed, to zero or more results.
    Analyzed(Vec<AnalysisResult>),
}

/// The records one object contributes: one per analysis result, or one
/// absence record when the download failed or analysis found nothing.
pub open spec fn records_for(object: ObjectRef, outcome: ObjectOutcome) -> Seq<BatchRecord> {
    match outcome {
        ObjectOutcome::DownloadFailed => seq![
            BatchRecord { object: object, result: None },
        ],
        ObjectOutcome::Analyzed(results) => if results@.len() == 0 {
            seq![BatchRecord { object: object, result: None }]
        } else {
            results@.map_values(
                |res: AnalysisResult| BatchRecord { object: object, result: Some(res) },
            )
        },
    }
}

/// All records of a batch run, in enumeration order: the records of the
/// first object, then those of the rest.
pub open spec fn run_spec(objects: Seq<ObjectRef>, outcomes: Seq<ObjectOutcome>) -> Seq<
    BatchRecord,
>
    decreases objects.len(),
{
    if objects.len() == 0 {
        Seq::empty()
    } else {
        records_for(objects[0], outcomes[0]) + run_spec(objects.drop_first(), outcomes.drop_first())
    }
}

/// Splitting off the last object splits off its records.
proof fn lemma_run_spec_snoc(objects: Seq<ObjectRef>, outcomes: Seq<ObjectOutcome>)
    requires
        objects.len() == outcomes.len(),
        objects.len() > 0,
    ensures
        run_spec(objects, outcomes) == run_spec(objects.drop_last(), outcomes.drop_last())
            + records_for(objects.last(), outcomes.last()),
    decreases objects.len(),
{
    if objects.len() == 1 {
        assert(run_spec(objects.drop_first(), outcomes.drop_first()).len() == 0) by {
            assert(objects.drop_first().len() == 0);
        }
        assert(run_spec(objects.drop_last(), outcomes.drop_last()).len() == 0) by {
            assert(objects.drop_last().len() == 0);
        }
        assert(run_spec(objects, outcomes) =~= records_for(objects[0], outcomes[0]));
        assert(run_spec(objects.drop_last(), outcomes.drop_last()) + records_for(
            objects.last(),
            outcomes.last(),
        ) =~= records_for(objects[0], outcomes[0]));
    } else {
        lemma_run_spec_snoc(objects.drop_first(), outcomes.drop_first());
        assert(objects.drop_first().drop_last() =~= objects.drop_last().drop_first());
        assert(outcomes.drop_first().drop_last() =~= outcomes.drop_last().drop_first());
        assert(objects.drop_first().last() == objects.last());
        assert(outcomes.drop_first().last() == outcomes.last());
        assert(run_spec(objects, outcomes) =~= run_spec(objects.drop_last(), outcomes.drop_last())
            + records_for(objects.last(), outcomes.last()));
    }
}

/// Runs the record-collection step of a batch over the enumerated
/// objects and what downloading and analyzing each of them came to.
/// Every object contributes its records in enumeration order; a download
/// failure is recorded and never aborts the rest of the batch.
pub fn run_batch(objects: &Vec<ObjectRef>, outcomes: Vec<ObjectOutcome>) -> (records: Vec<
    BatchRecord,
>)
    requires
        objects@.len() == outcomes@.len(),
    ensures
        records@ == run_spec(objects@, outcomes@),
{
    let ghost g_objects = objects@;
    let ghost g_outcomes = outcomes@;
    let mut outcomes = outcomes;
    let mut records: Vec<BatchRecord> = Vec::new();
    let n = objects.len();
    let mut i: usize = 0;
    proof {
        assert(g_outcomes.skip(0) =~= g_outcomes);
        assert(run_spec(g_objects.take(0), g_outcomes.take(0)) =~= Seq::<BatchRecord>::empty());
    }
    while i < n
        invariant
            n == g_objects.len() == g_outcomes.len(),
            i <= n,
            objects@ == g_objects,
            outcomes@ == g_outcomes.skip(i as int),
            records@ == run_spec(g_objects.take(i as int), g_outcomes.take(i as int)),
        decreases n - i,
    {
        proof {
            assert(g_outcomes.skip(i as int)[0] == g_outcomes[i as int]);
            assert(g_outcomes.skip(i as int).remove(0) =~= g_outcomes.skip(i as int + 1));
        }
        let outcome = outcomes.remove(0);
        let object = &objects[i];
        let ghost records_before = records@;
        match outcome {
            ObjectOutcome::DownloadFailed => {
                records.push(BatchRecord { object: object.duplicate(), result: None });
                proof {
                    assert(records@ =~= records_before + records_for(
                        g_objects[i as int],
                        g_outcomes[i as int],
                    ));
                }
            },
            ObjectOutcome::Analyzed(results) => {
                if results.len() == 0 {
                    records.push(BatchRecord { object: object.duplicate(), result: None });
                    proof {
                        assert(records@ =~= records_before + records_for(
                            g_objects[i as int],
                            g_outcomes[i as int],
                        ));
                    }
                } else {
                    let ghost g_results = results@;
                    let ghost to_record = |res: AnalysisResult| BatchRecord {
                        object: g_objects[i as int],
                        result: Some(res),
                    };
                    let mut results = results;
                    let m = results.len();
                    let mut j: usize = 0;
                    proof {
                        assert(g_results.skip(0) =~= g_results);
                        assert(g_results.take(0).map_values(to_record) =~= Seq::<
                            BatchRecord,
                        >::empty());
                        assert(records@ =~= records_before + g_results.take(0).map_values(
                            to_record,
                        ));
                    }
                    while j < m
                        invariant
                            m == g_results.len(),
                            j <= m,
                            objects@ == g_objects,
                            i < g_objects.len(),
                            *object == g_objects[i as int],
                            results@ == g_results.skip(j as int),
                            to_record == (|res: AnalysisResult| BatchRecord {
                                object: g_objects[i as int],
                                result: Some(res),
                            }),
                            records@ == records_before + g_results.take(j as int).map_values(
                                to_record,
                            ),
                        decreases m - j,
                    {
                        proof {
                            assert(g_results.skip(j as int)[0] == g_results[j as int]);
                            assert(g_results.skip(j as int).remove(0) =~= g_results.skip(
                                j as int + 1,
                            ));
                        }
                        let res = results.remove(0);
                        let dup = object.duplicate();
                        proof {
                            assert(dup == g_objects[i as int]);
                            assert(res == g_results[j as int]);
                            assert(BatchRecord { object: dup, result: Some(res) } == to_record(
                                g_results[j as int],
                            ));
                        }
                        records.push(BatchRecord { object: dup, result: Some(res) });
                        proof {
                            assert(g_results.take(j as int + 1).map_values(to_record)
                                =~= g_results.take(j as int).map_values(to_record).push(
                                to_record(g_results[j as int]),
                            ));
                            assert(records@ =~= records_before + g_results.take(j as int + 1)
                                .map_values(to_record));
                        }
                        j += 1;
                    }
                    proof {
                        assert(g_results.take(m as int) =~= g_results);
                        assert(records@ =~= records_before + records_for(
                            g_objects[i as int],
                            g_outcomes[i as int],
                        ));
                    }
                }
            },
        }
        proof {
            lemma_run_spec_snoc(g_objects.take(i as int + 1), g_outcomes.take(i as int + 1));
            assert(g_objects.take(i as int + 1).drop_last() =~= g_objects.take(i as int));
            assert(g_outcomes.take(i as int + 1).drop_last() =~= g_outcomes.take(i as int));
            assert(g_objects.take(i as int + 1).last() == g_objects[i as int]);
            assert(g_outcomes.take(i as int + 1).last() == g_outcomes[i as int]);
        }
        i += 1;
    }
    proof {
        assert(g_objects.take(n as int) =~= g_objects);
        assert(g_outcomes.take(n as int) =~= g_outcomes);
    }
    records
}

/// Whether an outcome is a download failure.
pub open spec fn is_download_failure(outcome: ObjectOutcome) -> bool {
    outcome is DownloadFailed
}

/// No early abort: whatever the outcomes, every object of a batch
/// contributes at least one record, so a failure never cuts the records
/// of the objects after it.
pub proof fn lemma_every_object_contributes(
    objects: Seq<ObjectRef>,
    outcomes: Seq<ObjectOutcome>,
)
    requires
        objects.len() == outcomes.len(),
    ensures
        run_spec(objects, outcomes).len() >= objects.len(),
    decreases objects.len(),
{
    if objects.len() > 0 {
        lemma_every_object_contributes(objects.drop_first(), outcomes.drop_first());
        assert(records_for(objects[0], outcomes[0]).len() >= 1) by {
            match outcomes[0] {
                ObjectOutcome::DownloadFailed => {},
                ObjectOutcome::Analyzed(results) => {},
            }
        }
    }
}

/// Partial-failure tolerance: over a batch of objects whose successful
/// analyses yield exactly one result each, the run produces exactly one
/// record per object — no failure aborts the batch early — and exactly
/// the failed downloads carry the absence marker.
pub proof fn lemma_run_counts_with_single_results(
    objects: Seq<ObjectRef>,
    outcomes: Seq<ObjectOutcome>,
)
    requires
        objects.len() == outcomes.len(),
        forall|i: int|
            0 <= i < outcomes.len() ==> ((#[trigger] outcomes[i]) matches ObjectOutcome::Analyzed(
                results,
            ) ==> results@.len() == 1),
    ensures
        run_spec(objects, outcomes).len() == objects.len(),
        run_spec(objects, outcomes).filter(|r: BatchRecord| r.is_absence_spec()).len()
            == outcomes.filter(|c: ObjectOutcome| is_download_failure(c)).len(),
    decreases objects.len(),
{
    let absent = |r: BatchRecord| r.is_absence_spec();
    let failed = |c: ObjectOutcome| is_download_failure(c);
    if objects.len() == 0 {
        assert(run_spec(objects, outcomes).filter(absent) =~= Seq::<BatchRecord>::empty());
        assert(outcomes.filter(failed) =~= Seq::<ObjectOutcome>::empty());
    } else {
        lemma_run_counts_with_single_results(objects.drop_first(), outcomes.drop_first());
        let head = records_for(objects[0], outcomes[0]);
        let tail = run_spec(objects.drop_first(), outcomes.drop_first());
        assert(head.len() == 1) by {
            match outcomes[0] {
                ObjectOutcome::DownloadFailed => {},
                ObjectOutcome::Analyzed(results) => {
                    assert(results@.len() == 1);
                },
            }
        }
        Seq::filter_distributes_over_add(head, tail, absent);
        assert(head.filter(absent).len() == (if failed(outcomes[0]) {
            1int
        } else {
            0int
        })) by {
            match outcomes[0] {
                ObjectOutcome::DownloadFailed => {
                    assert(head =~= seq![BatchRecord { object: objects[0], result: None }]);
                    reveal_with_fuel(Seq::filter, 2);
                },
                ObjectOutcome::Analyzed(results) => {
                    assert(head =~= seq![
                        BatchRecord { object: objects[0], result: Some(results@[0]) },
                    ]);
                    reveal_with_fuel(Seq::filter, 2);
                },
            }
        }
        assert(outcomes =~= seq![outcomes[0]] + outcomes.drop_first());
        Seq::filter_distributes_over_add(seq![outcomes[0]], outcomes.drop_first(), failed);
        assert(seq![outcomes[0]].filter(failed).len() == (if failed(outcomes[0]) {
            1int
        } else {
            0int
        })) by {
            reveal_with_fuel(Seq::filter, 2);
        }
    }
}

/// The target width the transform normalizes images to.
pub const TARGET_WIDTH: u32 = 800;

/// The target height the transform normalizes images to.
pub const TARGET_HEIGHT: u32 = 600;

/// Whether an object must be resized before the transform: only when its
/// dimensions differ from the target, so an object already at the target
/// is never degraded by a needless resize.
pub fn needs_resize(width: u32, height: u32, target_width: u32, target_height: u32) -> (r: bool)
    ensures
        r == !(width == target_width && height == target_height),
{
    !(width == target_width && height == target_height)
}

/// Vertical spacing between annotation lines, in pixels.
pub const LINE_SPACING: u32 = 50;

/// Text scale of the annotation overlay, in pixels.
pub const TEXT_SCALE: u32 = 30;

/// Red component of the annotation overlay color.
pub const OVERLAY_RED: u8 = 255;

/// Green component of the annotation overlay color.
pub const OVERLAY_GREEN: u8 = 0;

/// Blue component of the annotation overlay color.
pub const OVERLAY_BLUE: u8 = 0;

/// Alpha component of the annotation overlay color.
pub const OVERLAY_ALPHA: u8 = 127;

/// One line of the annotation overlay, drawn at a vertical offset.
#[derive(Debug)]
pub struct AnnotationLine {
    pub text: String,
    pub y_offset: u32,
}

/// The text of one annotation line: the attribute's name, a separator,
/// and its value.
pub open spec fn annotation_line_text(attrs: Seq<crate::analysis::Attribute>, name: Seq<char>) -> Seq<
    char,
> {
    name + ": "@ + attr_lookup(attrs, name).unwrap().value@
}

/// Plans the annotation overlay for one analysis result: one line per
/// required attribute, top to bottom in the given order. A transform
/// runs only when every required attribute is present, so a result
/// missing one yields no plan — the record is still kept, only the
/// transformation is skipped.
pub fn plan_annotation(result: &AnalysisResult, required: &Vec<String>) -> (r: Option<
    Vec<AnnotationLine>,
>)
    requires
        50 * required@.len() <= u32::MAX,
    ensures
        r is Some <==> result.has_all_spec(required@.map_values(|s: String| s@)),
        r matches Some(lines) ==> {
            &&& lines@.len() == required@.len()
            &&& forall|j: int|
                0 <= j < lines@.len() ==> (#[trigger] lines@[j]).text@ == annotation_line_text(
                    result.attributes@,
                    required@[j]@,
                ) && lines@[j].y_offset == 50 * j
        },
{
    let ghost req = required@.map_values(|s: String| s@);
    if !result.has_all_attributes(required) {
        return None;
    }
    let n = required.len();
    let mut lines: Vec<AnnotationLine> = Vec::new();
    let mut j: usize = 0;
    while j < n
        invariant
            n == required@.len(),
            j <= n,
            50 * n <= u32::MAX,
            req == required@.map_values(|s: String| s@),
            result.has_all_spec(req),
            lines@.len() == j,
            forall|k: int|
                0 <= k < j ==> (#[trigger] lines@[k]).text@ == annotation_line_text(
                    result.attributes@,
                    required@[k]@,
                ) && lines@[k].y_offset == 50 * k,
        decreases n - j,
    {
        proof {
            assert(req[j as int] == required@[j as int]@);
        }
        let found = result.find_attribute(required[j].as_str());
        match found {
            Some(attribute) => {
                let mut text = required[j].clone();
                text.append(": ");
                text.append(attribute.value.as_str());
                let y_offset: u32 = 50 * (j as u32);
                lines.push(AnnotationLine { text, y_offset });
            },
            None => {
                proof {
                    assert(attr_lookup(result.attributes@, req[j as int]) is Some);
                }
                // unreachable: every required attribute is present
                return None;
            },
        }
        j += 1;
    }
    Some(lines)
}

pub uninterp spec fn merged_file_name(path: Seq<char>) -> Seq<char>;

/// Relies on regex::Regex::find_iter with the fixed pattern
/// `([^./]+)\.([^/]+)`: the concatenation of its non-overlapping
/// matches in the path — for an ordinary object path, the file name
/// with its directories stripped. The result is a function of the path
/// alone.
#[verifier::external_body]
fn merged_name(path: &str) -> (r: String)
    ensures
        r@ == merged_file_name(path@),
{
    let pattern = regex::Regex::new(r#"([^./]+)\.([^/]+)"#).expect("the file-name pattern is valid");
    let pieces: Vec<&str> = pattern.find_iter(path).map(|m| m.as_str()).collect();
    pieces.join("")
}

/// Derives the storage key under which a transformed artifact is
/// re-uploaded: the bucket path prefix followed by the artifact's
/// merged file name.
pub fn derive_object_key(bucket_prefix: &str, local_path: &str) -> (r: String)
    ensures
        r@ == bucket_prefix@ + merged_file_name(local_path@),
{
    let mut key = bucket_prefix.to_owned();
    let name = merged_name(local_path);
    key.append(name.as_str());
    key
}

} // verus!
