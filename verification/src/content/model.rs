//! Owned content programs: positions, operands and operators.

use vstd::prelude::*;

use crate::content::limits::ContentLimits;
use crate::content::operator::OperatorKind;

verus! {

/// Identity of one indirect object.
#[derive(Clone, Copy, Debug, PartialEq, Eq, PartialOrd, Ord, Hash, Structural)]
pub struct ObjectRef {
    pub number: u32,
    pub generation: u16,
}

impl ObjectRef {
    /// Creates an identity; object number zero names no object.
    pub fn new(number: u32, generation: u16) -> (reference: Option<Self>)
        ensures
            reference == (if number == 0 {
                None
            } else {
                Some(ObjectRef { number, generation })
            }),
    {
        if number == 0 {
            None
        } else {
            Some(Self { number, generation })
        }
    }
}

/// One borrowed, already-decoded content stream in exact page order.
#[derive(Clone, Copy)]
pub struct DecodedContentStream<'a> {
    pub object: ObjectRef,
    pub ordinal: u32,
    pub decoded: &'a [u8],
}

impl<'a> DecodedContentStream<'a> {
    /// Creates a borrowed stream descriptor.
    pub fn new(object: ObjectRef, ordinal: u32, decoded: &'a [u8]) -> (stream: Self)
        ensures
            stream == (DecodedContentStream { object, ordinal, decoded }),
    {
        Self { object, ordinal, decoded }
    }

    /// Returns the indirect stream object identity.
    pub fn object(self) -> (object: ObjectRef)
        ensures
            object == self.object,
    {
        self.object
    }

    /// Returns the caller-declared zero-based stream ordinal.
    pub fn ordinal(self) -> (ordinal: u32)
        ensures
            ordinal == self.ordinal,
    {
        self.ordinal
    }

    /// Borrows the complete decoded stream bytes.
    pub fn decoded(self) -> (decoded: &'a [u8])
        ensures
            decoded == self.decoded,
    {
        self.decoded
    }
}

/// Exact decoded byte position in one page content stream.
#[derive(Clone, Copy, Debug, PartialEq, Eq, PartialOrd, Ord, Hash, Structural)]
pub struct ContentPosition {
    pub object: ObjectRef,
    pub stream_ordinal: u32,
    pub decoded_offset: u64,
}

impl ContentPosition {
    pub(crate) fn new(object: ObjectRef, stream_ordinal: u32, decoded_offset: u64) -> (position:
        Self)
        ensures
            position == (ContentPosition { object, stream_ordinal, decoded_offset }),
    {
        Self { object, stream_ordinal, decoded_offset }
    }

    /// Returns the stream object identity.
    pub fn object(self) -> (object: ObjectRef)
        ensures
            object == self.object,
    {
        self.object
    }

    /// Returns the zero-based stream ordinal.
    pub fn stream_ordinal(self) -> (ordinal: u32)
        ensures
            ordinal == self.stream_ordinal,
    {
        self.stream_ordinal
    }

    /// Returns the zero-based decoded byte offset.
    pub fn decoded_offset(self) -> (offset: u64)
        ensures
            offset == self.decoded_offset,
    {
        self.decoded_offset
    }
}

/// Checked decoded span contained in exactly one stream.
#[derive(Clone, Copy, Debug, PartialEq, Eq, PartialOrd, Ord, Hash, Structural)]
pub struct DecodedSpan {
    object: ObjectRef,
    stream_ordinal: u32,
    decoded_start: u64,
    decoded_len: u64,
}

/// The span of `len` bytes from `start`.
pub closed spec fn decoded_span(
    object: ObjectRef,
    stream_ordinal: u32,
    start: int,
    len: int,
) -> DecodedSpan {
    DecodedSpan {
        object,
        stream_ordinal,
        decoded_start: start as u64,
        decoded_len: len as u64,
    }
}

/// What a described span is made of.
pub broadcast proof fn decoded_span_parts(
    object: ObjectRef,
    stream_ordinal: u32,
    start: int,
    len: int,
)
    requires
        0 <= start <= u64::MAX,
        0 <= len <= u64::MAX,
    ensures
        (#[trigger] decoded_span(object, stream_ordinal, start, len)).spec_object() == object,
        decoded_span(object, stream_ordinal, start, len).spec_ordinal() == stream_ordinal,
        decoded_span(object, stream_ordinal, start, len).spec_start() == start,
        decoded_span(object, stream_ordinal, start, len).spec_len() == len,
{
}

/// A span is its parts.
pub proof fn spans_are_their_parts(left: DecodedSpan, right: DecodedSpan)
    requires
        left.spec_object() == right.spec_object(),
        left.spec_ordinal() == right.spec_ordinal(),
        left.spec_start() == right.spec_start(),
        left.spec_len() == right.spec_len(),
    ensures
        left == right,
{
}

impl DecodedSpan {
    /// Every span ends within `u64`.
    #[verifier::type_invariant]
    pub closed spec fn well_formed(self) -> bool {
        self.decoded_start + self.decoded_len <= u64::MAX
    }

    /// The stream object, as a value.
    pub closed spec fn spec_object(self) -> ObjectRef {
        self.object
    }

    /// The stream ordinal, as a value.
    pub closed spec fn spec_ordinal(self) -> u32 {
        self.stream_ordinal
    }

    /// The start offset, as a value.
    pub closed spec fn spec_start(self) -> u64 {
        self.decoded_start
    }

    /// The length, as a value.
    pub closed spec fn spec_len(self) -> u64 {
        self.decoded_len
    }

    /// The first position, as a value.
    pub open spec fn spec_start_position(self) -> ContentPosition {
        ContentPosition {
            object: self.spec_object(),
            stream_ordinal: self.spec_ordinal(),
            decoded_offset: self.spec_start(),
        }
    }

    /// The exclusive end position, as a value.
    pub open spec fn spec_end_position(self) -> ContentPosition {
        ContentPosition {
            object: self.spec_object(),
            stream_ordinal: self.spec_ordinal(),
            decoded_offset: (self.spec_start() + self.spec_len()) as u64,
        }
    }

    /// Creates a span whose end fits in `u64`.
    pub fn new(object: ObjectRef, stream_ordinal: u32, decoded_start: u64, decoded_len: u64) -> (span:
        Self)
        requires
            decoded_start + decoded_len <= u64::MAX,
        ensures
            span == decoded_span(object, stream_ordinal, decoded_start as int, decoded_len as int),
            span.spec_object() == object,
            span.spec_ordinal() == stream_ordinal,
            span.spec_start() == decoded_start,
            span.spec_len() == decoded_len,
    {
        Self { object, stream_ordinal, decoded_start, decoded_len }
    }

    /// Returns the stream object identity.
    pub fn object(self) -> (object: ObjectRef)
        ensures
            object == self.spec_object(),
    {
        self.object
    }

    /// Returns the zero-based stream ordinal.
    pub fn stream_ordinal(self) -> (ordinal: u32)
        ensures
            ordinal == self.spec_ordinal(),
    {
        self.stream_ordinal
    }

    /// Returns the zero-based decoded start offset.
    pub fn decoded_start(self) -> (start: u64)
        ensures
            start == self.spec_start(),
            self.spec_start() + self.spec_len() <= u64::MAX,
    {
        proof {
            use_type_invariant(self);
        }
        self.decoded_start
    }

    /// Returns the decoded byte length.
    pub fn decoded_len(self) -> (len: u64)
        ensures
            len == self.spec_len(),
    {
        self.decoded_len
    }

    /// Returns the checked exclusive decoded end.
    pub fn decoded_end_exclusive(self) -> (end: u64)
        ensures
            end == self.spec_start() + self.spec_len(),
    {
        proof {
            use_type_invariant(self);
        }
        self.decoded_start + self.decoded_len
    }

    /// Returns the first decoded position.
    pub fn start(self) -> (position: ContentPosition)
        ensures
            position == self.spec_start_position(),
    {
        ContentPosition::new(self.object, self.stream_ordinal, self.decoded_start)
    }

    /// Returns the exclusive-end decoded position.
    pub fn end_exclusive(self) -> (position: ContentPosition)
        ensures
            position == self.spec_end_position(),
            position.decoded_offset == self.spec_start() + self.spec_len(),
    {
        proof {
            use_type_invariant(self);
        }
        ContentPosition::new(
            self.object,
            self.stream_ordinal,
            self.decoded_start + self.decoded_len,
        )
    }
}

/// Start and exclusive-end positions for an operand that may span streams.
#[derive(Clone, Copy, Debug, PartialEq, Eq, Hash, Structural)]
pub struct ContentExtent {
    pub start: ContentPosition,
    pub end_exclusive: ContentPosition,
}

impl ContentExtent {
    pub(crate) fn new(start: ContentPosition, end_exclusive: ContentPosition) -> (extent: Self)
        ensures
            extent == (ContentExtent { start, end_exclusive }),
    {
        Self { start, end_exclusive }
    }

    pub(crate) fn from_span(span: DecodedSpan) -> (extent: Self)
        ensures
            extent == span_extent(span),
    {
        Self::new(span.start(), span.end_exclusive())
    }

    /// Returns the first decoded position.
    pub fn start(self) -> (position: ContentPosition)
        ensures
            position == self.start,
    {
        self.start
    }

    /// Returns the exclusive decoded end position.
    pub fn end_exclusive(self) -> (position: ContentPosition)
        ensures
            position == self.end_exclusive,
    {
        self.end_exclusive
    }

    /// Returns a single-stream span when both boundaries belong to the same stream.
    pub fn single_stream_span(self) -> (span: Option<DecodedSpan>)
        ensures
            span == (if self.start.object == self.end_exclusive.object && self.start.stream_ordinal
                == self.end_exclusive.stream_ordinal && self.end_exclusive.decoded_offset
                >= self.start.decoded_offset {
                Some(
                    decoded_span(
                        self.start.object,
                        self.start.stream_ordinal,
                        self.start.decoded_offset as int,
                        self.end_exclusive.decoded_offset - self.start.decoded_offset,
                    ),
                )
            } else {
                None
            }),
    {
        if self.start.object == self.end_exclusive.object && self.start.stream_ordinal
            == self.end_exclusive.stream_ordinal && self.end_exclusive.decoded_offset
            >= self.start.decoded_offset {
            Some(
                DecodedSpan::new(
                    self.start.object,
                    self.start.stream_ordinal,
                    self.start.decoded_offset,
                    self.end_exclusive.decoded_offset - self.start.decoded_offset,
                ),
            )
        } else {
            None
        }
    }
}

/// The extent of a span.
pub open spec fn span_extent(span: DecodedSpan) -> ContentExtent {
    ContentExtent {
        start: span.spec_start_position(),
        end_exclusive: span.spec_end_position(),
    }
}

/// A span survives the way through its extent.
pub proof fn span_extent_round_trip(
    object: ObjectRef,
    stream_ordinal: u32,
    start: u64,
    len: u64,
)
    requires
        start + len <= u64::MAX,
    ensures
        ({
            let span = decoded_span(object, stream_ordinal, start as int, len as int);
            let extent = span_extent(span);
            &&& extent.start.object == extent.end_exclusive.object
            &&& extent.start.stream_ordinal == extent.end_exclusive.stream_ordinal
            &&& span == decoded_span(
                extent.start.object,
                extent.start.stream_ordinal,
                extent.start.decoded_offset as int,
                extent.end_exclusive.decoded_offset - extent.start.decoded_offset,
            )
        }),
{
}

/// Decoded PDF name bytes owned by a scanned program.
#[derive(PartialEq, Eq, PartialOrd, Ord, Hash)]
pub struct ContentName(pub Vec<u8>);

impl View for ContentName {
    type V = Seq<u8>;

    open spec fn view(&self) -> Seq<u8> {
        self.0@
    }
}

impl ContentName {
    /// Wraps decoded name bytes.
    pub fn new(bytes: Vec<u8>) -> (name: Self)
        ensures
            name@ == bytes@,
    {
        Self(bytes)
    }

    /// Borrows decoded name bytes without assuming UTF-8.
    pub fn bytes(&self) -> (bytes: &[u8])
        ensures
            bytes@ == self@,
    {
        self.0.as_slice()
    }
}

/// Retained lexical notation for a scanned PDF real.
#[derive(PartialEq, Eq)]
pub struct ContentReal(pub Vec<u8>);

impl View for ContentReal {
    type V = Seq<u8>;

    open spec fn view(&self) -> Seq<u8> {
        self.0@
    }
}

impl ContentReal {
    /// Wraps a real-number lexeme.
    pub fn new(raw: Vec<u8>) -> (lexeme: Self)
        ensures
            lexeme@ == raw@,
    {
        Self(raw)
    }

    /// Borrows the validated original real-number lexeme.
    pub fn raw(&self) -> (raw: &[u8])
        ensures
            raw@ == self@,
    {
        self.0.as_slice()
    }
}

/// Source notation of a decoded PDF string operand.
#[derive(Clone, Copy, Debug, PartialEq, Eq, Structural)]
pub enum ContentStringKind {
    /// Parenthesized literal syntax.
    Literal,
    /// Angle-bracket hexadecimal syntax.
    Hexadecimal,
}

/// Decoded PDF string bytes owned by a scanned program.
#[derive(PartialEq, Eq)]
pub struct ContentString {
    pub bytes: Vec<u8>,
    pub kind: ContentStringKind,
}

impl ContentString {
    /// Wraps decoded string bytes.
    pub fn new(bytes: Vec<u8>, kind: ContentStringKind) -> (string: Self)
        ensures
            string == (ContentString { bytes, kind }),
    {
        Self { bytes, kind }
    }

    /// Borrows decoded bytes without assuming a text encoding.
    pub fn bytes(&self) -> (bytes: &[u8])
        ensures
            bytes@ == self.bytes@,
    {
        self.bytes.as_slice()
    }

    /// Returns the source string notation.
    pub fn kind(&self) -> (kind: ContentStringKind)
        ensures
            kind == self.kind,
    {
        self.kind
    }
}

/// One ordered PDF dictionary key/value pair.
#[derive(PartialEq, Eq)]
pub struct ContentDictionaryEntry {
    pub key_span: DecodedSpan,
    pub key: ContentName,
    pub value: LocatedOperand,
}

impl ContentDictionaryEntry {
    /// Pairs a key with its value.
    pub fn new(key_span: DecodedSpan, key: ContentName, value: LocatedOperand) -> (entry: Self)
        ensures
            entry == (ContentDictionaryEntry { key_span, key, value }),
    {
        Self { key_span, key, value }
    }

    /// Returns the exact encoded name token span.
    pub fn key_span(&self) -> (span: DecodedSpan)
        ensures
            span == self.key_span,
    {
        self.key_span
    }

    /// Returns the decoded key.
    pub fn key(&self) -> (key: &ContentName)
        ensures
            *key == self.key,
    {
        &self.key
    }

    /// Returns the ordered value.
    pub fn value(&self) -> (value: &LocatedOperand)
        ensures
            *value == self.value,
    {
        &self.value
    }
}

/// Owned direct PDF operand accepted by the content scanner.
#[derive(PartialEq, Eq)]
pub enum ContentOperand {
    /// The `null` object.
    Null,
    /// A boolean object.
    Boolean(bool),
    /// A signed integer object.
    Integer(i64),
    /// A validated real retaining its exact lexical bytes.
    Real(ContentReal),
    /// A decoded PDF name.
    Name(ContentName),
    /// A decoded literal or hexadecimal string.
    String(ContentString),
    /// An ordered array preserving duplicate and nested values.
    Array(Vec<LocatedOperand>),
    /// An ordered dictionary preserving duplicate keys.
    Dictionary(Vec<ContentDictionaryEntry>),
}

/// One owned operand paired with decoded coordinate evidence.
#[derive(PartialEq, Eq)]
pub struct LocatedOperand {
    pub extent: ContentExtent,
    pub value: ContentOperand,
}

impl LocatedOperand {
    /// Pairs an operand with its extent.
    pub fn new(extent: ContentExtent, value: ContentOperand) -> (operand: Self)
        ensures
            operand == (LocatedOperand { extent, value }),
    {
        Self { extent, value }
    }

    /// Returns the complete decoded extent.
    pub fn extent(&self) -> (extent: ContentExtent)
        ensures
            extent == self.extent,
    {
        self.extent
    }

    /// Borrows the owned operand.
    pub fn value(&self) -> (value: &ContentOperand)
        ensures
            *value == self.value,
    {
        &self.value
    }

    /// Consumes the location wrapper.
    pub fn into_parts(self) -> (parts: (ContentExtent, ContentOperand))
        ensures
            parts == (self.extent, self.value),
    {
        (self.extent, self.value)
    }
}

/// Known or lexically valid unknown content operator.
#[derive(PartialEq, Eq)]
pub enum ContentOperator {
    /// An operator represented in the stable initial table.
    Known(OperatorKind),
    /// A syntactically valid regular token not present in the stable table.
    Unknown(Vec<u8>),
}

impl ContentOperator {
    /// The token bytes, as a value.
    pub open spec fn spec_token(self) -> Seq<u8> {
        match self {
            ContentOperator::Known(kind) => kind.spec_token(),
            ContentOperator::Unknown(token) => token@,
        }
    }

    /// Returns the known identity when this is a table operator.
    pub fn known(&self) -> (kind: Option<OperatorKind>)
        ensures
            kind == (match self {
                ContentOperator::Known(kind) => Some(*kind),
                ContentOperator::Unknown(_) => None,
            }),
    {
        match self {
            ContentOperator::Known(kind) => Some(*kind),
            ContentOperator::Unknown(_) => None,
        }
    }

    /// Returns the exact operator token bytes.
    pub fn token(&self) -> (token: &[u8])
        ensures
            token@ == self.spec_token(),
    {
        match self {
            ContentOperator::Known(kind) => kind.spec().token(),
            ContentOperator::Unknown(token) => token.as_slice(),
        }
    }

    /// Reports whether the scanner classified this as unknown rather than malformed.
    pub fn is_unknown(&self) -> (unknown: bool)
        ensures
            unknown == (self is Unknown),
    {
        matches!(self, ContentOperator::Unknown(_))
    }
}

/// Exact decoded source evidence for one operator token.
#[derive(Clone, Copy, Debug, PartialEq, Eq, Hash, Structural)]
pub struct ContentOperatorSource {
    pub span: DecodedSpan,
    pub page_operator_ordinal: u64,
}

impl ContentOperatorSource {
    /// Creates operator evidence.
    pub fn new(span: DecodedSpan, page_operator_ordinal: u64) -> (source: Self)
        ensures
            source == (ContentOperatorSource { span, page_operator_ordinal }),
    {
        Self { span, page_operator_ordinal }
    }

    /// Returns the exact operator-token decoded span.
    pub fn span(self) -> (span: DecodedSpan)
        ensures
            span == self.span,
    {
        self.span
    }

    /// Returns the zero-based page-global operator ordinal.
    pub fn page_operator_ordinal(self) -> (ordinal: u64)
        ensures
            ordinal == self.page_operator_ordinal,
    {
        self.page_operator_ordinal
    }
}

/// One scanned operator and all immediately preceding top-level operands.
#[derive(PartialEq, Eq)]
pub struct ScannedOperator {
    pub operator: ContentOperator,
    pub operands: Vec<LocatedOperand>,
    pub source: ContentOperatorSource,
}

impl ScannedOperator {
    /// Pairs an operator with its operands and its evidence.
    pub fn new(
        operator: ContentOperator,
        operands: Vec<LocatedOperand>,
        source: ContentOperatorSource,
    ) -> (scanned: Self)
        ensures
            scanned == (ScannedOperator { operator, operands, source }),
    {
        Self { operator, operands, source }
    }

    /// Returns the known-or-unknown operator identity.
    pub fn operator(&self) -> (operator: &ContentOperator)
        ensures
            *operator == self.operator,
    {
        &self.operator
    }

    /// Returns operands in source order.
    pub fn operands(&self) -> (operands: &[LocatedOperand])
        ensures
            operands@ == self.operands@,
    {
        self.operands.as_slice()
    }

    /// Returns exact operator-token provenance.
    pub fn source(&self) -> (source: ContentOperatorSource)
        ensures
            source == self.source,
    {
        self.source
    }
}

/// Deterministic complete-scan work and ownership statistics.
#[derive(Clone, Copy, Debug, PartialEq, Eq, Structural)]
pub struct ContentScanStats {
    pub streams: u32,
    pub total_decoded_bytes: u64,
    pub tokens: u64,
    pub max_token_bytes: u64,
    pub operands: u64,
    pub max_operands_per_operator: u32,
    pub max_nesting_depth: u16,
    pub operators: u64,
    pub unknown_operators: u64,
    pub fuel: u64,
    pub retained_bytes: u64,
}

/// Statistics of a scan that has not begun.
pub open spec fn no_scan_work() -> ContentScanStats {
    ContentScanStats {
        streams: 0,
        total_decoded_bytes: 0,
        tokens: 0,
        max_token_bytes: 0,
        operands: 0,
        max_operands_per_operator: 0,
        max_nesting_depth: 0,
        operators: 0,
        unknown_operators: 0,
        fuel: 0,
        retained_bytes: 0,
    }
}

impl Default for ContentScanStats {
    fn default() -> (stats: Self)
        ensures
            stats == no_scan_work(),
    {
        Self {
            streams: 0,
            total_decoded_bytes: 0,
            tokens: 0,
            max_token_bytes: 0,
            operands: 0,
            max_operands_per_operator: 0,
            max_nesting_depth: 0,
            operators: 0,
            unknown_operators: 0,
            fuel: 0,
            retained_bytes: 0,
        }
    }
}

impl ContentScanStats {
    /// Returns the admitted stream count.
    pub fn streams(self) -> (value: u32)
        ensures
            value == self.streams,
    {
        self.streams
    }

    /// Returns the aggregate decoded byte count.
    pub fn total_decoded_bytes(self) -> (value: u64)
        ensures
            value == self.total_decoded_bytes,
    {
        self.total_decoded_bytes
    }

    /// Returns the lexical token count.
    pub fn tokens(self) -> (value: u64)
        ensures
            value == self.tokens,
    {
        self.tokens
    }

    /// Returns the largest raw token length.
    pub fn max_token_bytes(self) -> (value: u64)
        ensures
            value == self.max_token_bytes,
    {
        self.max_token_bytes
    }

    /// Returns the complete direct and nested operand count.
    pub fn operands(self) -> (value: u64)
        ensures
            value == self.operands,
    {
        self.operands
    }

    /// Returns the largest top-level operand group.
    pub fn max_operands_per_operator(self) -> (value: u32)
        ensures
            value == self.max_operands_per_operator,
    {
        self.max_operands_per_operator
    }

    /// Returns the deepest array/dictionary nesting reached.
    pub fn max_nesting_depth(self) -> (value: u16)
        ensures
            value == self.max_nesting_depth,
    {
        self.max_nesting_depth
    }

    /// Returns the published operator count.
    pub fn operators(self) -> (value: u64)
        ensures
            value == self.operators,
    {
        self.operators
    }

    /// Returns the lexically valid unknown operator count.
    pub fn unknown_operators(self) -> (value: u64)
        ensures
            value == self.unknown_operators,
    {
        self.unknown_operators
    }

    /// Returns deterministic scanner work units.
    pub fn fuel(self) -> (value: u64)
        ensures
            value == self.fuel,
    {
        self.fuel
    }

    /// Returns allocator-reported capacity retained by the program.
    pub fn retained_bytes(self) -> (value: u64)
        ensures
            value == self.retained_bytes,
    {
        self.retained_bytes
    }
}

/// Immutable owned output of one complete ordered content scan.
pub struct ContentProgram {
    operators: Vec<ScannedOperator>,
    limits: ContentLimits,
    stats: ContentScanStats,
}

impl ContentProgram {
    /// The operators, as a value.
    pub closed spec fn spec_operators(self) -> Seq<ScannedOperator> {
        self.operators@
    }

    /// The limit profile, as a value.
    pub closed spec fn spec_limits(self) -> ContentLimits {
        self.limits
    }

    /// The statistics, as a value.
    pub closed spec fn spec_stats(self) -> ContentScanStats {
        self.stats
    }

    pub(crate) fn new(
        operators: Vec<ScannedOperator>,
        limits: ContentLimits,
        stats: ContentScanStats,
    ) -> (program: Self)
        ensures
            program.spec_operators() == operators@,
            program.spec_limits() == limits,
            program.spec_stats() == stats,
    {
        Self { operators, limits, stats }
    }

    /// Returns operators in exact page execution order.
    pub fn operators(&self) -> (operators: &[ScannedOperator])
        ensures
            operators@ == self.spec_operators(),
    {
        self.operators.as_slice()
    }

    /// Returns the validated limit profile used for construction.
    pub fn limits(&self) -> (limits: ContentLimits)
        ensures
            limits == self.spec_limits(),
    {
        self.limits
    }

    /// Returns complete deterministic scan statistics.
    pub fn stats(&self) -> (stats: ContentScanStats)
        ensures
            stats == self.spec_stats(),
    {
        self.stats
    }
}

} // verus!
