//! Plain values of the byte layer: snapshots, exact ranges, tickets and reads.

use std::sync::Arc;

use vstd::prelude::*;

use crate::bytes::error::{source_failure, SourceError, SourceErrorCode};
use crate::memory::{capacity_of, share};

verus! {

/// Stable identity of one immutable source.
#[derive(Clone, Copy, Debug, PartialEq, Eq, Hash, Structural)]
pub struct SourceIdentity {
    pub value: u128,
}

/// Host validator of one source generation.
#[derive(Clone, Copy, Debug, PartialEq, Eq, Hash, Structural)]
pub struct SourceValidator {
    pub value: u128,
}

/// Identity, validator and, once known, total length of one immutable source.
#[derive(Clone, Copy, Debug, PartialEq, Eq, Hash, Structural)]
pub struct SourceSnapshot {
    pub identity: SourceIdentity,
    pub len: Option<u64>,
    pub validator: SourceValidator,
}

impl SourceSnapshot {
    /// Creates a snapshot description.
    pub fn new(identity: SourceIdentity, len: Option<u64>, validator: SourceValidator) -> (snapshot:
        Self)
        ensures
            snapshot == (SourceSnapshot { identity, len, validator }),
    {
        Self { identity, len, validator }
    }

    /// Whether both snapshots name one source generation, whatever is known of its length.
    pub open spec fn same_source(self, other: SourceSnapshot) -> bool {
        self.identity == other.identity && self.validator == other.validator
    }
}

/// One nonempty byte range whose exclusive end fits in `u64`.
#[derive(Clone, Copy, Debug, PartialEq, Eq, Hash, Structural)]
pub struct ByteRange {
    start: u64,
    len: u64,
}

/// The range of `len` bytes from `start`, where there is one.
pub closed spec fn byte_range(start: int, len: int) -> ByteRange {
    ByteRange { start: start as u64, len: len as u64 }
}

impl ByteRange {
    /// Every range is nonempty and ends within `u64`.
    #[verifier::type_invariant]
    pub closed spec fn well_formed(self) -> bool {
        self.len > 0 && self.start + self.len <= u64::MAX
    }

    /// First offset, as a value.
    pub closed spec fn first(self) -> int {
        self.start as int
    }

    /// Offset one past the last byte, as a value.
    pub closed spec fn end(self) -> int {
        self.start + self.len
    }

    /// Whether `offset` lies in the range.
    pub open spec fn contains(self, offset: int) -> bool {
        self.first() <= offset < self.end()
    }

    /// Creates a range; refused when it is empty or its end does not fit in `u64`.
    pub fn new(start: u64, len: u64) -> (range: Result<Self, SourceError>)
        ensures
            range is Ok <==> len > 0 && start + len <= u64::MAX,
            range matches Ok(value) ==> value.first() == start && value.end() == start + len
                && value == byte_range(start as int, len as int),
            range matches Err(error) ==> error == source_failure(SourceErrorCode::InvalidRange),
    {
        if len == 0 || start.checked_add(len).is_none() {
            return Err(SourceError::for_code(SourceErrorCode::InvalidRange));
        }
        Ok(Self { start, len })
    }

    /// Creates the range between two distinct offsets.
    pub(crate) fn between(start: u64, end_exclusive: u64) -> (range: Self)
        requires
            start < end_exclusive,
        ensures
            range == byte_range(start as int, end_exclusive - start),
            range.first() == start,
            range.end() == end_exclusive,
    {
        Self { start, len: end_exclusive - start }
    }

    /// Returns the first offset.
    pub fn start(self) -> (start: u64)
        ensures
            start == self.first(),
            self.first() < self.end() <= u64::MAX,
    {
        proof {
            use_type_invariant(self);
        }
        self.start
    }

    /// Returns the number of bytes.
    pub fn len(self) -> (len: u64)
        ensures
            len == self.end() - self.first(),
            len > 0,
    {
        proof {
            use_type_invariant(self);
        }
        self.len
    }

    /// Returns the offset one past the last byte.
    pub fn end_exclusive(self) -> (end: u64)
        ensures
            end == self.end(),
            self.first() < self.end(),
    {
        proof {
            use_type_invariant(self);
        }
        self.start + self.len
    }
}

/// Two ranges with the same ends are the same range.
pub proof fn ranges_are_their_ends(left: ByteRange, right: ByteRange)
    requires
        left.first() == right.first(),
        left.end() == right.end(),
    ensures
        left == right,
{
}

/// The ends of a described range.
pub proof fn byte_range_ends(start: int, end: int)
    requires
        0 <= start < end <= u64::MAX,
    ensures
        byte_range(start, end - start).first() == start,
        byte_range(start, end - start).end() == end,
{
}

/// Handle of one data request that waits for absent bytes.
#[derive(Clone, Copy, Debug, PartialEq, Eq, Hash, Structural)]
pub struct DataTicket(pub u64);

/// Runtime job that reads.
#[derive(Clone, Copy, Debug, PartialEq, Eq, Hash, Structural)]
pub struct JobId(pub u64);

/// Point from which a job resumes once its bytes arrived.
#[derive(Clone, Copy, Debug, PartialEq, Eq, Hash, Structural)]
pub struct ResumeCheckpoint(pub u64);

/// One job waiting at one checkpoint.
#[derive(Clone, Copy, Debug, PartialEq, Eq, Hash, Structural)]
pub struct ResumeSubscription {
    pub job: JobId,
    pub checkpoint: ResumeCheckpoint,
}

/// One exact read on behalf of a job.
#[derive(Clone, Copy, Debug, PartialEq, Eq, Hash, Structural)]
pub struct ReadRequest {
    pub range: ByteRange,
    pub job: JobId,
    pub checkpoint: ResumeCheckpoint,
}

/// Missing ranges of one request: ascending, disjoint, and never adjacent.
#[derive(Debug)]
pub struct SmallRanges {
    pub(crate) ranges: Arc<Vec<ByteRange>>,
}

/// Whether the ranges ascend with a gap between any two neighbours.
pub open spec fn canonical_ranges(ranges: Seq<ByteRange>) -> bool {
    forall|i: int, j: int|
        #![trigger ranges[i], ranges[j]]
        0 <= i < j < ranges.len() ==> ranges[i].end() < ranges[j].first()
}

/// Whether some of the ranges holds `offset`.
pub open spec fn in_ranges(ranges: Seq<ByteRange>, offset: int) -> bool {
    exists|i: int| 0 <= i < ranges.len() && (#[trigger] ranges[i]).contains(offset)
}

impl View for SmallRanges {
    type V = Seq<ByteRange>;

    closed spec fn view(&self) -> Seq<ByteRange> {
        self.ranges@
    }
}

impl SmallRanges {
    pub(crate) fn from_vec(ranges: Vec<ByteRange>) -> (missing: Self)
        ensures
            missing@ == ranges@,
    {
        Self { ranges: Arc::new(ranges) }
    }

    /// Borrows the ranges in ascending order.
    pub fn as_slice(&self) -> (ranges: &[ByteRange])
        ensures
            ranges@ == self@,
    {
        self.ranges.as_slice()
    }

    /// Shares the list.
    pub fn duplicate(&self) -> (copy: Self)
        ensures
            copy@ == self@,
    {
        Self { ranges: share(&self.ranges) }
    }
}

/// A complete host response for one exact range of one observed snapshot.
#[derive(Debug)]
pub struct RangeResponse {
    snapshot: SourceSnapshot,
    range: ByteRange,
    bytes: Vec<u8>,
    capacity: u64,
}

impl RangeResponse {
    /// The byte count is that of the range, which lies within the source where its length is known.
    #[verifier::type_invariant]
    pub closed spec fn well_formed(self) -> bool {
        &&& self.bytes@.len() == self.range.end() - self.range.first()
        &&& self.snapshot.len matches Some(len) ==> self.range.end() <= len
        &&& self.bytes@.len() <= self.capacity
    }

    /// The observed snapshot, as a value.
    pub closed spec fn spec_snapshot(self) -> SourceSnapshot {
        self.snapshot
    }

    /// The range, as a value.
    pub closed spec fn spec_range(self) -> ByteRange {
        self.range
    }

    /// The bytes, as a value.
    pub closed spec fn spec_bytes(self) -> Seq<u8> {
        self.bytes@
    }

    /// The capacity that the bytes occupy, as a value.
    pub closed spec fn spec_capacity(self) -> u64 {
        self.capacity
    }

    /// Binds bytes to their range; refused when the length differs from the range's, or the range
    /// ends beyond the known source length.
    pub fn new(snapshot: SourceSnapshot, range: ByteRange, bytes: Vec<u8>) -> (response: Result<
        Self,
        SourceError,
    >)
        ensures
            response matches Ok(value) ==> {
                &&& value.spec_snapshot() == snapshot
                &&& value.spec_range() == range
                &&& value.spec_bytes() == bytes@
                &&& value.spec_capacity() >= bytes@.len()
                &&& bytes@.len() == range.end() - range.first()
                &&& snapshot.len matches Some(len) ==> range.end() <= len
            },
            response matches Err(error) ==> if bytes@.len() != range.end() - range.first() {
                error == source_failure(SourceErrorCode::ResponseLengthMismatch)
            } else {
                &&& snapshot.len matches Some(len) && range.end() > len
                &&& error == source_failure(SourceErrorCode::ResponseOutOfBounds)
            },
    {
        if bytes.len() as u64 != range.len() {
            return Err(SourceError::for_code(SourceErrorCode::ResponseLengthMismatch));
        }
        if let Some(len) = snapshot.len {
            if range.end_exclusive() > len {
                return Err(SourceError::for_code(SourceErrorCode::ResponseOutOfBounds));
            }
        }
        let capacity: u64 = capacity_of(&bytes) as u64;
        Ok(Self { snapshot, range, bytes, capacity })
    }

    /// Returns the capacity that the bytes occupy.
    pub fn capacity(&self) -> (capacity: u64)
        ensures
            capacity == self.spec_capacity(),
            capacity >= self.spec_bytes().len(),
    {
        proof {
            use_type_invariant(self);
        }
        self.capacity
    }

    /// Separates the response into its snapshot, range and bytes.
    pub fn into_parts(self) -> (parts: (SourceSnapshot, ByteRange, Vec<u8>))
        ensures
            parts.0 == self.spec_snapshot(),
            parts.1 == self.spec_range(),
            parts.2@ == self.spec_bytes(),
            parts.2@.len() == parts.1.end() - parts.1.first(),
            parts.0.len matches Some(len) ==> parts.1.end() <= len,
    {
        proof {
            use_type_invariant(&self);
        }
        (self.snapshot, self.range, self.bytes)
    }
}

/// Bytes of one exact range, owned by the reader.
#[derive(Debug)]
pub struct ByteSlice {
    pub(crate) identity: SourceIdentity,
    pub(crate) range: ByteRange,
    pub(crate) bytes: Vec<u8>,
}

impl ByteSlice {
    /// Source that the bytes belong to, as a value.
    pub closed spec fn spec_identity(self) -> SourceIdentity {
        self.identity
    }

    /// Range of the bytes, as a value.
    pub closed spec fn spec_range(self) -> ByteRange {
        self.range
    }

    /// The bytes, as a value.
    pub closed spec fn spec_bytes(self) -> Seq<u8> {
        self.bytes@
    }

    pub(crate) fn from_parts(identity: SourceIdentity, range: ByteRange, bytes: Vec<u8>) -> (slice:
        Self)
        ensures
            slice.spec_identity() == identity,
            slice.spec_range() == range,
            slice.spec_bytes() == bytes@,
    {
        Self { identity, range, bytes }
    }

    /// Returns the source identity.
    pub fn identity(&self) -> (identity: SourceIdentity)
        ensures
            identity == self.spec_identity(),
    {
        self.identity
    }

    /// Returns the range.
    pub fn range(&self) -> (range: ByteRange)
        ensures
            range == self.spec_range(),
    {
        self.range
    }

    /// Borrows the bytes.
    pub fn bytes(&self) -> (bytes: &[u8])
        ensures
            bytes@ == self.spec_bytes(),
    {
        self.bytes.as_slice()
    }
}

/// Outcome of one exact read.
#[derive(Debug)]
pub enum ReadPoll<T> {
    /// The complete range.
    Ready(T),
    /// Bytes are absent; the ticket completes once they arrive.
    Pending {
        /// Handle of the data request.
        ticket: DataTicket,
        /// Exact ranges still missing.
        missing: SmallRanges,
    },
    /// The range ends beyond the known source length.
    EndOfFile,
    /// The read was refused.
    Failed(SourceError),
}

/// A source whose current snapshot can be observed.
pub trait ByteSource {
    /// Returns the snapshot that the source is bound to.
    fn snapshot(&self) -> SourceSnapshot;
}

} // verus!
