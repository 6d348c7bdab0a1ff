//! Interpretation of one page or form, from decoded content to a materialized scene.

use vstd::prelude::*;

use crate::bytes::model::{ByteSource, SourceSnapshot};
use crate::content::accounting::reserve_exact_slots;
use crate::content::error::{content_failure, ContentErrorCode};
use crate::content::form_plan::FormBox;
use crate::content::guard::{is_guard_stop, is_memory_stop, RunStop, RuntimeGuard};
use crate::content::limits::{ContentLimitConfig, ContentLimits};
use crate::content::model::{ContentProgram, ContentScanStats, DecodedContentStream, ObjectRef};
use crate::content::plan_builder::indexed;
use crate::content::scan_laws::{operators_are_evidenced, scan_work_is_linear};
use crate::content::scan_model::{scanned, Input, StreamView};
use crate::content::scanner::{
    charged, in_order, is_outside_failure, scan_with_work, stream_views, work_of,
    ContentCancellation,
};
use crate::content::scene::Matrix;
use crate::content::view::{operator_view, operator_views};
use crate::content::vm_error::{ContentVmFailure, ContentVmLimitKind};
use crate::content::vm_limits::ContentVmLimits;

verus! {

/// One decoded content stream.
pub struct OwnedStream {
    pub object: ObjectRef,
    pub ordinal: u32,
    pub decoded: Vec<u8>,
}

/// What frames the content of a form.
#[derive(Clone, Copy, Debug, PartialEq, Eq, Structural)]
pub struct FormFrame {
    pub bbox: FormBox,
    pub simple_transparency_group: bool,
}

/// Decoded content of one page or form.
pub struct ContentInput {
    pub snapshot: SourceSnapshot,
    pub streams: Vec<OwnedStream>,
    pub initial_ctm: Matrix,
    pub form: Option<FormFrame>,
}

/// The values of owned streams.
pub open spec fn owned_views(streams: Seq<OwnedStream>) -> Seq<StreamView> {
    streams.map_values(
        |stream: OwnedStream|
            StreamView {
                object: stream.object,
                ordinal: stream.ordinal,
                bytes: stream.decoded@,
            },
    )
}

/// Decoded bytes of the first `count` streams.
pub open spec fn owned_bytes(streams: Seq<OwnedStream>, count: int) -> int
    decreases count,
{
    if count <= 0 {
        0
    } else {
        owned_bytes(streams, count - 1) + streams[count - 1].decoded@.len()
    }
}

/// Whether every stream carries its place.
pub open spec fn owned_in_order(streams: Seq<OwnedStream>) -> bool {
    forall|i: int| 0 <= i < streams.len() ==> (#[trigger] streams[i]).ordinal == i
}

impl ContentInput {
    /// The content of a page.
    pub fn page(snapshot: SourceSnapshot, streams: Vec<OwnedStream>) -> (input: Self)
        ensures
            input.snapshot == snapshot,
            input.streams == streams,
            input.initial_ctm == crate::content::scene::identity_matrix(),
            input.form is None,
    {
        Self { snapshot, streams, initial_ctm: Matrix::identity(), form: None }
    }

    /// The content of a form. Its one stream comes first.
    pub fn form(
        snapshot: SourceSnapshot,
        object: ObjectRef,
        decoded: Vec<u8>,
        initial_ctm: Matrix,
        frame: FormFrame,
    ) -> (input: Self)
        ensures
            input.snapshot == snapshot,
            input.streams@ == seq![OwnedStream { object, ordinal: 0, decoded }],
            input.initial_ctm == initial_ctm,
            input.form == Some(frame),
    {
        let mut streams: Vec<OwnedStream> = Vec::new();
        streams.push(OwnedStream { object, ordinal: 0, decoded });
        assert(streams@ =~= seq![OwnedStream { object, ordinal: 0, decoded }]);
        Self { snapshot, streams, initial_ctm, form: Some(frame) }
    }

    /// Returns the decoded bytes, or the most there are where they do not fit.
    pub fn decoded_bytes(&self) -> (bytes: u64)
        ensures
            ({
                let total = owned_bytes(self.streams@, self.streams@.len() as int);
                &&& total >= 0
                &&& bytes == (if total < u64::MAX {
                    total as u64
                } else {
                    u64::MAX
                })
            }),
    {
        let mut total: u64 = 0;
        let mut i: usize = 0;
        while i < self.streams.len()
            invariant
                i <= self.streams@.len(),
                total == owned_bytes(self.streams@, i as int),
            decreases self.streams@.len() - i,
        {
            total = match total.checked_add(self.streams[i].decoded.len() as u64) {
                Some(sum) => sum,
                None => {
                    proof {
                        owned_bytes_grow(self.streams@, i + 1, self.streams@.len() as int);
                    }
                    return u64::MAX;
                },
            };
            i = i + 1;
        }
        total
    }
}

proof fn owned_bytes_grow(streams: Seq<OwnedStream>, low: int, high: int)
    requires
        0 <= low <= high,
    ensures
        owned_bytes(streams, low) <= owned_bytes(streams, high),
    decreases high - low,
{
    if low < high {
        owned_bytes_grow(streams, low, high - 1);
    }
}

/// A scan with the work that it took, whatever came of it.
pub struct ScanReport {
    pub content: Result<ContentProgram, RunStop>,
    pub stats: ContentScanStats,
    /// What the descriptors of the streams and the program retained together.
    pub peak_retained: u64,
    /// What of it counts toward the peak of the interpretation.
    pub observed: u64,
}

/// Whether a report of a failed scan keeps the work that was charged: it is within the budgets, and
/// a failure of the content itself reports its charges.
pub open spec fn work_reported(report: ScanReport, limits: ContentLimitConfig, stop: RunStop) -> bool {
    let stats = report.stats;
    &&& stats.tokens <= limits.max_tokens
    &&& stats.operators <= limits.max_operators
    &&& stats.fuel <= limits.max_fuel
    &&& stats.retained_bytes <= limits.max_retained_bytes
    &&& stats.retained_bytes <= report.peak_retained
    &&& report.observed == 0 || report.observed == report.peak_retained
    &&& stop matches RunStop::Failed(ContentVmFailure::Content(error)) ==> charged(error, stats)
        && report.observed == report.peak_retained
}

/// Scans the content of an input. The outcome is the model's, unless cancellation or memory
/// decides; a source that changed or a cancellation comes before any other failure.
pub fn scan_input_content<S: ByteSource, C: ContentCancellation>(
    input: &ContentInput,
    scan_limits: ContentLimits,
    vm_limits: ContentVmLimits,
    guard: &RuntimeGuard<'_, S, C>,
) -> (report: ScanReport)
    ensures
        ({
            let expected = scanned(
                Input { streams: owned_views(input.streams@), limits: scan_limits@ },
            );
            match report.content {
                Ok(program) => {
                    &&& guard@.clear()
                    &&& owned_in_order(input.streams@)
                    &&& expected is Ok
                    &&& operator_views(program.spec_operators()) == expected->Ok_0.0
                    &&& work_of(program.spec_stats()) == expected->Ok_0.1
                    &&& indexed(program.spec_operators())
                    &&& report.stats == program.spec_stats()
                    &&& report.stats.retained_bytes <= report.peak_retained
                        <= vm_limits@.max_retained_bytes
                    &&& report.observed == report.peak_retained
                },
                Err(stop) => {
                    &&& work_reported(report, scan_limits@, stop)
                    &&& {
                        ||| is_guard_stop(stop, None, guard@)
                        ||| guard@.clear() && is_memory_stop(stop)
                        ||| guard@.clear() && (stop matches RunStop::Failed(
                            ContentVmFailure::Content(error),
                        ) && (
                        if !owned_in_order(input.streams@) {
                            error == content_failure(ContentErrorCode::InvalidStreamOrder, None)
                        } else {
                            is_outside_failure(error, scan_limits@, guard@.cancelled) || (expected is Err
                                && expected->Err_0 == error)
                        }))
                    }
                },
            }
        }),
{
    let mut descriptors: Vec<DecodedContentStream<'_>> = Vec::new();
    let mut peak: u64 = 0;
    let descriptor_bytes: u64 = match reserve_exact_slots(
        &mut descriptors,
        input.streams.len(),
        0,
        vm_limits,
        None,
        &mut peak,
    ) {
        Ok(bytes) => bytes,
        Err(error) => {
            return ScanReport {
                content: Err(guard.prioritize(None, RunStop::Failed(ContentVmFailure::Vm(error)))),
                stats: ContentScanStats::default(),
                peak_retained: 0,
                observed: 0,
            };
        },
    };
    let mut i: usize = 0;
    while i < input.streams.len()
        invariant
            i <= input.streams@.len(),
            descriptors@.len() == i,
            forall|k: int|
                0 <= k < i ==> {
                    &&& (#[trigger] descriptors@[k]).object == input.streams@[k].object
                    &&& descriptors@[k].ordinal == input.streams@[k].ordinal
                    &&& descriptors@[k].decoded@ == input.streams@[k].decoded@
                },
        decreases input.streams@.len() - i,
    {
        let stream = &input.streams[i];
        descriptors.push(
            DecodedContentStream::new(stream.object, stream.ordinal, stream.decoded.as_slice()),
        );
        i = i + 1;
    }
    proof {
        assert(stream_views(descriptors@) =~= owned_views(input.streams@));
        if owned_in_order(input.streams@) {
            assert(in_order(descriptors@)) by {
                assert forall|k: int| 0 <= k < descriptors@.len() implies (
                #[trigger] descriptors@[k]).ordinal == k by {
                    assert(input.streams@[k].ordinal == k);
                }
            }
        }
        if in_order(descriptors@) {
            assert(owned_in_order(input.streams@)) by {
                assert forall|k: int| 0 <= k < input.streams@.len() implies (
                #[trigger] input.streams@[k]).ordinal == k by {
                    assert(descriptors@[k].ordinal == k);
                }
            }
        }
    }
    let (scan, stats) = scan_with_work(descriptors.as_slice(), scan_limits, guard.cancellation);
    let retained: u64 = stats.retained_bytes();
    let peak_retained: u64 = descriptor_bytes.saturating_add(retained);
    let program = match scan {
        Ok(program) => program,
        Err(error) => {
            let stop = guard.prioritize(None, RunStop::Failed(ContentVmFailure::Content(error)));
            return ScanReport {
                content: Err(stop),
                stats,
                peak_retained,
                observed: peak_retained,
            };
        },
    };
    let _ceiling: u64 = scan_limits.max_operators();
    proof {
        let content = Input { streams: owned_views(input.streams@), limits: scan_limits@ };
        let operators = program.spec_operators();
        scan_work_is_linear(content);
        assert forall|k: int| 0 <= k < operators.len() implies (
        #[trigger] operators[k]).source.page_operator_ordinal <= u32::MAX by {
            operators_are_evidenced(content, k);
            assert(operator_views(operators)[k] == operator_view(operators[k]));
        }
    }
    match vm_limits.preflight(
        ContentVmLimitKind::RetainedBytes,
        descriptor_bytes,
        retained,
        None,
    ) {
        Ok(_) => {},
        Err(error) => {
            let stop = guard.prioritize(None, RunStop::Failed(ContentVmFailure::Vm(error)));
            return ScanReport { content: Err(stop), stats, peak_retained, observed: 0 };
        },
    }
    match guard.probe(None) {
        Ok(_) => {},
        Err(stop) => {
            return ScanReport { content: Err(stop), stats, peak_retained, observed: 0 };
        },
    }
    ScanReport { content: Ok(program), stats, peak_retained, observed: peak_retained }
}

} // verus!
