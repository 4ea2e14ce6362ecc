//! Records of the second kernel ABI generation (`GPIO_V2_*`). Wire forms write and
//! read each field in turn, integers little-endian.
use vstd::prelude::*;
use vstd::string::StringSliceAdditionalSpecFns;
use crate::types::{
    decode_line_info, line_info_decodes, line_info_matches, Active, Bias, BitId, Direction,
    Drive, Edge, EdgeDetect, Event, LineFlags, LineId, LineInfo, LineMap,
};
use crate::utils::{
    check_len, check_size, invalid_data, is_error, is_set, le_bytes_u32, le_bytes_u32s, le_bytes_u64,
    le_u32, le_u64, push_bytes, push_u32, push_u32s, push_u64, push_zeros, read_array, read_u32,
    read_u64, safe_set_str, time_from_nanos, zeros, ErrorKind, Result,
};
use crate::utils::lemma_le_bytes_u32s_len;
use crate::values::Masked;
use crate::values::Values;

verus! {

/// Largest number of lines in one request.
pub const GPIO_LINES_MAX: usize = 64;

/// Size of the name and consumer buffers.
pub const GPIO_MAX_NAME_SIZE: usize = 32;

/// Number of attribute slots in a line configuration.
pub const GPIO_LINE_NUM_ATTRS_MAX: usize = 10;

pub const GPIO_LINE_FLAG_USED: u64 = 1;
pub const GPIO_LINE_FLAG_ACTIVE_LOW: u64 = 2;
pub const GPIO_LINE_FLAG_INPUT: u64 = 4;
pub const GPIO_LINE_FLAG_OUTPUT: u64 = 8;
pub const GPIO_LINE_FLAG_EDGE_RISING: u64 = 16;
pub const GPIO_LINE_FLAG_EDGE_FALLING: u64 = 32;
pub const GPIO_LINE_FLAG_EDGE_BOTH: u64 = 48;
pub const GPIO_LINE_FLAG_OPEN_DRAIN: u64 = 64;
pub const GPIO_LINE_FLAG_OPEN_SOURCE: u64 = 128;
pub const GPIO_LINE_FLAG_BIAS_PULL_UP: u64 = 256;
pub const GPIO_LINE_FLAG_BIAS_PULL_DOWN: u64 = 512;
pub const GPIO_LINE_FLAG_BIAS_DISABLED: u64 = 1024;

/// Attribute id of output values.
pub const GPIO_LINE_ATTR_ID_OUTPUT_VALUES: u32 = 2;

pub const GPIO_LINE_EVENT_RISING_EDGE: u32 = 1;
pub const GPIO_LINE_EVENT_FALLING_EDGE: u32 = 2;

/// Size in bytes of an event record.
pub const GPIO_LINE_EVENT_SIZE: usize = 48;

/// Size in bytes of a line request record.
pub const GPIO_LINE_REQUEST_SIZE: usize = 592;

/// Size in bytes of a line information record.
pub const GPIO_LINE_INFO_SIZE: usize = 256;

/// Size in bytes of a line values record.
pub const GPIO_LINE_VALUES_SIZE: usize = 16;

/// A line attribute: an id and its value.
#[derive(Debug, Clone, Copy, PartialEq, Eq, Structural)]
pub struct GpioLineAttribute {
    pub id: u32,
    pub value: u64,
}

/// A line attribute with the mask of the lines it applies to.
#[derive(Debug, Clone, Copy, PartialEq, Eq, Structural)]
pub struct GpioLineConfigAttribute {
    pub attr: GpioLineAttribute,
    pub mask: u64,
}

/// Configuration of the lines of a request.
#[derive(Debug, Clone, Copy)]
pub struct GpioLineConfig {
    pub flags: u64,
    pub num_attrs: u32,
    pub attrs: [GpioLineConfigAttribute; GPIO_LINE_NUM_ATTRS_MAX],
}

/// Line request record.
#[derive(Debug, Clone, Copy)]
pub struct GpioLineRequest {
    pub offsets: [LineId; GPIO_LINES_MAX],
    pub consumer: [u8; GPIO_MAX_NAME_SIZE],
    pub config: GpioLineConfig,
    pub num_lines: u32,
    pub event_buffer_size: u32,
    pub fd: i32,
}

/// Line information record.
#[derive(Debug, Clone, Copy)]
pub struct GpioLineInfo {
    pub name: [u8; GPIO_MAX_NAME_SIZE],
    pub consumer: [u8; GPIO_MAX_NAME_SIZE],
    pub offset: LineId,
    pub num_attrs: u32,
    pub flags: u64,
}

/// Line event record.
#[derive(Debug, Clone, Copy, PartialEq, Eq, Structural)]
pub struct GpioLineEvent {
    pub timestamp_ns: u64,
    pub id: u32,
    pub offset: LineId,
    pub seqno: u32,
    pub line_seqno: u32,
}

/// Flag bits of the direction: input alone, or input and output together.
pub open spec fn direction_flags(direction: Direction) -> u64 {
    match direction {
        Direction::Input => GPIO_LINE_FLAG_INPUT,
        Direction::Output => GPIO_LINE_FLAG_INPUT | GPIO_LINE_FLAG_OUTPUT,
    }
}

/// Flag bits of edge detection; none unless the lines are inputs.
pub open spec fn edge_flags(direction: Direction, edge: Option<EdgeDetect>) -> u64 {
    match (direction, edge) {
        (Direction::Input, Some(EdgeDetect::Rising)) => GPIO_LINE_FLAG_EDGE_RISING,
        (Direction::Input, Some(EdgeDetect::Falling)) => GPIO_LINE_FLAG_EDGE_FALLING,
        (Direction::Input, Some(EdgeDetect::Both)) => GPIO_LINE_FLAG_EDGE_BOTH,
        _ => 0,
    }
}

/// Flag bits of the bias.
pub open spec fn bias_flags(bias: Option<Bias>) -> u64 {
    match bias {
        Some(Bias::PullUp) => GPIO_LINE_FLAG_BIAS_PULL_UP,
        Some(Bias::PullDown) => GPIO_LINE_FLAG_BIAS_PULL_DOWN,
        Some(Bias::Disable) => GPIO_LINE_FLAG_BIAS_DISABLED,
        None => 0,
    }
}

/// Flag bits of the drive; none unless the lines are outputs.
pub open spec fn drive_flags(direction: Direction, drive: Option<Drive>) -> u64 {
    match (direction, drive) {
        (Direction::Output, Some(Drive::OpenDrain)) => GPIO_LINE_FLAG_OPEN_DRAIN,
        (Direction::Output, Some(Drive::OpenSource)) => GPIO_LINE_FLAG_OPEN_SOURCE,
        _ => 0,
    }
}

/// Flags of a request.
pub open spec fn request_flags(
    direction: Direction,
    active: Active,
    edge: Option<EdgeDetect>,
    bias: Option<Bias>,
    drive: Option<Drive>,
) -> u64 {
    direction_flags(direction) | (if active == Active::Low { GPIO_LINE_FLAG_ACTIVE_LOW } else { 0 })
        | edge_flags(direction, edge) | bias_flags(bias) | drive_flags(direction, drive)
}

/// Whether `q` is the request for these lines, options and consumer text.
pub open spec fn request_matches(
    q: GpioLineRequest,
    lines: Seq<LineId>,
    direction: Direction,
    active: Active,
    edge: Option<EdgeDetect>,
    bias: Option<Bias>,
    drive: Option<Drive>,
    values: Option<Values>,
    consumer: Seq<u8>,
) -> bool {
    let n = lines.len() as int;
    let attached = direction == Direction::Output && values is Some;
    &&& q.num_lines == n
    &&& q.offsets@.subrange(0, n) == lines
    &&& forall|k: int| n <= k < GPIO_LINES_MAX ==> q.offsets@[k] == 0
    &&& q.config.flags == request_flags(direction, active, edge, bias, drive)
    &&& q.config.num_attrs == (if attached { 1u32 } else { 0u32 })
    &&& attached ==> q.config.attrs@[0] == (GpioLineConfigAttribute {
        attr: GpioLineAttribute { id: GPIO_LINE_ATTR_ID_OUTPUT_VALUES, value: values->Some_0.bits },
        mask: values->Some_0.mask,
    })
    &&& q.consumer@.subrange(0, consumer.len() as int) == consumer
    &&& forall|k: int| consumer.len() <= k < GPIO_MAX_NAME_SIZE ==> q.consumer@[k] == 0u8
    &&& q.event_buffer_size == 0
    &&& q.fd == 0
    &&& forall|k: int| #![trigger q.config.attrs@[k]] q.config.num_attrs <= k < GPIO_LINE_NUM_ATTRS_MAX ==> q.config.attrs@[k] == empty_attribute()
}

/// An attribute slot that holds nothing.
pub open spec fn empty_attribute() -> GpioLineConfigAttribute {
    GpioLineConfigAttribute { attr: GpioLineAttribute { id: 0, value: 0 }, mask: 0 }
}

impl GpioLineInfo {
    /// Flag bits that the record reports.
    pub open spec fn line_flags(&self) -> LineFlags {
        LineFlags {
            output: self.flags & GPIO_LINE_FLAG_OUTPUT == GPIO_LINE_FLAG_OUTPUT,
            active_low: self.flags & GPIO_LINE_FLAG_ACTIVE_LOW == GPIO_LINE_FLAG_ACTIVE_LOW,
            edge_rising: self.flags & GPIO_LINE_FLAG_EDGE_RISING == GPIO_LINE_FLAG_EDGE_RISING,
            edge_falling: self.flags & GPIO_LINE_FLAG_EDGE_FALLING == GPIO_LINE_FLAG_EDGE_FALLING,
            used: self.flags & GPIO_LINE_FLAG_USED == GPIO_LINE_FLAG_USED,
            pull_up: self.flags & GPIO_LINE_FLAG_BIAS_PULL_UP == GPIO_LINE_FLAG_BIAS_PULL_UP,
            pull_down: self.flags & GPIO_LINE_FLAG_BIAS_PULL_DOWN == GPIO_LINE_FLAG_BIAS_PULL_DOWN,
            open_drain: self.flags & GPIO_LINE_FLAG_OPEN_DRAIN == GPIO_LINE_FLAG_OPEN_DRAIN,
            open_source: self.flags & GPIO_LINE_FLAG_OPEN_SOURCE == GPIO_LINE_FLAG_OPEN_SOURCE,
        }
    }

    /// Decodes the record; fails with `InvalidData` where the name or consumer is not
    /// UTF-8.
    pub fn as_info(&self) -> (r: Result<LineInfo>)
        ensures
            r is Ok <==> line_info_decodes(self.name@, self.consumer@),
            r is Ok ==> line_info_matches(r->Ok_0, self.line_flags(), self.name@, self.consumer@),
            r is Err ==> is_error(r->Err_0, ErrorKind::InvalidData, "Invalid UTF-8"),
    {
        let flags = LineFlags {
            output: is_set(self.flags, GPIO_LINE_FLAG_OUTPUT),
            active_low: is_set(self.flags, GPIO_LINE_FLAG_ACTIVE_LOW),
            edge_rising: is_set(self.flags, GPIO_LINE_FLAG_EDGE_RISING),
            edge_falling: is_set(self.flags, GPIO_LINE_FLAG_EDGE_FALLING),
            used: is_set(self.flags, GPIO_LINE_FLAG_USED),
            pull_up: is_set(self.flags, GPIO_LINE_FLAG_BIAS_PULL_UP),
            pull_down: is_set(self.flags, GPIO_LINE_FLAG_BIAS_PULL_DOWN),
            open_drain: is_set(self.flags, GPIO_LINE_FLAG_OPEN_DRAIN),
            open_source: is_set(self.flags, GPIO_LINE_FLAG_OPEN_SOURCE),
        };
        decode_line_info(flags, self.name.as_slice(), self.consumer.as_slice())
    }
}

impl GpioLineRequest {
    /// Builds the request for `lines` with the given options. Edge detection is
    /// encoded for inputs only, drive and initial values for outputs only. Fails with
    /// `InvalidInput` on more than 64 lines or a consumer text of 32 bytes or more.
    pub fn new(
        lines: &[LineId],
        direction: Direction,
        active: Active,
        edge: Option<EdgeDetect>,
        bias: Option<Bias>,
        drive: Option<Drive>,
        values: Option<Values>,
        consumer: &str,
    ) -> (r: Result<Self>)
        ensures
            r is Ok <==> lines@.len() <= GPIO_LINES_MAX && consumer.spec_bytes().len() < GPIO_MAX_NAME_SIZE,
            r is Ok ==> request_matches(r->Ok_0, lines@, direction, active, edge, bias, drive, values, consumer.spec_bytes()),
            r is Err && lines@.len() > GPIO_LINES_MAX ==> is_error(r->Err_0, ErrorKind::InvalidInput, "Too many lines"),
            r is Err && lines@.len() <= GPIO_LINES_MAX ==> is_error(r->Err_0, ErrorKind::InvalidInput, "String too long"),
    {
        let empty_attr = GpioLineConfigAttribute { attr: GpioLineAttribute { id: 0, value: 0 }, mask: 0 };
        let mut request = GpioLineRequest {
            offsets: [0u32; GPIO_LINES_MAX],
            consumer: [0u8; GPIO_MAX_NAME_SIZE],
            config: GpioLineConfig { flags: 0, num_attrs: 0, attrs: [empty_attr; GPIO_LINE_NUM_ATTRS_MAX] },
            num_lines: 0,
            event_buffer_size: 0,
            fd: 0,
        };

        assert(forall|k: int| 0 <= k < GPIO_LINES_MAX ==> request.offsets@[k] == 0u32);
        assert(forall|k: int| 0 <= k < GPIO_LINE_NUM_ATTRS_MAX ==> #[trigger] request.config.attrs@[k] == empty_attribute());
        check_len(lines, GPIO_LINES_MAX)?;

        request.num_lines = lines.len() as u32;

        let n = lines.len();
        let mut i: usize = 0;
        while i < n
            invariant
                n == lines@.len(),
                n <= GPIO_LINES_MAX,
                i <= n,
                request.offsets@.len() == GPIO_LINES_MAX,
                request.num_lines == n,
                request.event_buffer_size == 0,
                request.config.num_attrs == 0,
                request.fd == 0,
                forall|k: int| 0 <= k < GPIO_LINE_NUM_ATTRS_MAX ==> #[trigger] request.config.attrs@[k] == empty_attribute(),
                forall|k: int| 0 <= k < GPIO_MAX_NAME_SIZE ==> request.consumer@[k] == 0u8,
                forall|k: int| 0 <= k < i ==> request.offsets@[k] == lines@[k],
                forall|k: int| i <= k < GPIO_LINES_MAX ==> request.offsets@[k] == 0,
            decreases n - i,
        {
            request.offsets[i] = lines[i];
            i = i + 1;
        }
        assert(request.offsets@.subrange(0, n as int) =~= lines@);

        let mut flags: u64 = match direction {
            Direction::Input => GPIO_LINE_FLAG_INPUT,
            // Kernel quirk kept on purpose: outputs carry the input bit as well.
            Direction::Output => GPIO_LINE_FLAG_INPUT | GPIO_LINE_FLAG_OUTPUT,
        };

        if active == Active::Low {
            flags = flags | GPIO_LINE_FLAG_ACTIVE_LOW;
        } else {
            flags = flags | 0;
        }

        let edge_bits: u64 = if direction == Direction::Input {
            match edge {
                Some(EdgeDetect::Rising) => GPIO_LINE_FLAG_EDGE_RISING,
                Some(EdgeDetect::Falling) => GPIO_LINE_FLAG_EDGE_FALLING,
                Some(EdgeDetect::Both) => GPIO_LINE_FLAG_EDGE_BOTH,
                _ => 0,
            }
        } else {
            0
        };
        flags = flags | edge_bits;

        let bias_bits: u64 = match bias {
            Some(Bias::PullUp) => GPIO_LINE_FLAG_BIAS_PULL_UP,
            Some(Bias::PullDown) => GPIO_LINE_FLAG_BIAS_PULL_DOWN,
            Some(Bias::Disable) => GPIO_LINE_FLAG_BIAS_DISABLED,
            None => 0,
        };
        flags = flags | bias_bits;

        let mut drive_bits: u64 = 0;
        if direction == Direction::Output {
            drive_bits = match drive {
                Some(Drive::OpenDrain) => GPIO_LINE_FLAG_OPEN_DRAIN,
                Some(Drive::OpenSource) => GPIO_LINE_FLAG_OPEN_SOURCE,
                _ => 0,
            };
            if let Some(v) = values {
                request.config.num_attrs = 1;
                request.config.attrs[0] = GpioLineConfigAttribute {
                    attr: GpioLineAttribute { id: GPIO_LINE_ATTR_ID_OUTPUT_VALUES, value: v.bits },
                    mask: v.mask,
                };
            }
        }
        flags = flags | drive_bits;
        request.config.flags = flags;

        let ghost before = request.consumer@;
        safe_set_str(&mut request.consumer, consumer)?;
        proof {
            let m = consumer.spec_bytes().len() as int;
            assert forall|k: int| m <= k < GPIO_MAX_NAME_SIZE implies request.consumer@[k] == 0u8 by {
                if k > m {
                    assert(request.consumer@[k] == request.consumer@.subrange(m + 1, GPIO_MAX_NAME_SIZE as int)[k - m - 1]);
                }
            }
        }

        Ok(request)
    }
}

proof fn lemma_no_drive_bits(a: u64, b: u64, c: u64, d: u64, e: u64)
    requires
        a == 4 || a == 12,
        b == 0 || b == 2,
        c == 0 || c == 16 || c == 32 || c == 48,
        d == 0 || d == 256 || d == 512 || d == 1024,
        e == 0,
    ensures
        (a | b | c | d | e) & 192u64 == 0,
{
    assert((a | b | c | d | e) & 192u64 == 0) by (bit_vector)
        requires
            a == 4 || a == 12,
            b == 0 || b == 2,
            c == 0 || c == 16 || c == 32 || c == 48,
            d == 0 || d == 256 || d == 512 || d == 1024,
            e == 0,
    ;
}

/// A request sets neither the open-drain nor the open-source bit where the lines are
/// inputs, whatever drive is given, nor where they are push-pull outputs.
pub proof fn law_drive_bits(active: Active, edge: Option<EdgeDetect>, bias: Option<Bias>, drive: Option<Drive>)
    ensures
        request_flags(Direction::Input, active, edge, bias, drive) & (GPIO_LINE_FLAG_OPEN_DRAIN
            | GPIO_LINE_FLAG_OPEN_SOURCE) == 0,
        request_flags(Direction::Output, active, edge, bias, Some(Drive::PushPull)) & (
        GPIO_LINE_FLAG_OPEN_DRAIN | GPIO_LINE_FLAG_OPEN_SOURCE) == 0,
{
    assert(GPIO_LINE_FLAG_OPEN_DRAIN | GPIO_LINE_FLAG_OPEN_SOURCE == 192u64) by (bit_vector);
    assert(GPIO_LINE_FLAG_INPUT | GPIO_LINE_FLAG_OUTPUT == 12u64) by (bit_vector);
    let b: u64 = if active == Active::Low { GPIO_LINE_FLAG_ACTIVE_LOW } else { 0 };
    lemma_no_drive_bits(
        direction_flags(Direction::Input),
        b,
        edge_flags(Direction::Input, edge),
        bias_flags(bias),
        drive_flags(Direction::Input, drive),
    );
    lemma_no_drive_bits(
        direction_flags(Direction::Output),
        b,
        edge_flags(Direction::Output, edge),
        bias_flags(bias),
        drive_flags(Direction::Output, Some(Drive::PushPull)),
    );
}

/// Bytes of a configuration attribute: id, 4 bytes of padding, value, mask.
pub open spec fn attribute_bytes(a: GpioLineConfigAttribute) -> Seq<u8> {
    le_bytes_u32(a.attr.id) + zeros(4) + le_bytes_u64(a.attr.value) + le_bytes_u64(a.mask)
}

/// Bytes of each attribute of `s`, in order.
pub open spec fn attributes_bytes(s: Seq<GpioLineConfigAttribute>) -> Seq<u8>
    decreases s.len(),
{
    if s.len() == 0 {
        Seq::empty()
    } else {
        attributes_bytes(s.drop_last()) + attribute_bytes(s.last())
    }
}

proof fn lemma_attributes_bytes_len(s: Seq<GpioLineConfigAttribute>)
    ensures
        attributes_bytes(s).len() == 24 * s.len(),
    decreases s.len(),
{
    if s.len() > 0 {
        lemma_attributes_bytes_len(s.drop_last());
    }
}

impl GpioLineRequest {
    /// Wire form of the record; integers are little-endian.
    pub open spec fn wire_bytes(self) -> Seq<u8> {
        le_bytes_u32s(self.offsets@) + self.consumer@ + le_bytes_u64(self.config.flags) + le_bytes_u32(
            self.config.num_attrs,
        ) + zeros(20) + attributes_bytes(self.config.attrs@) + le_bytes_u32(self.num_lines)
            + le_bytes_u32(self.event_buffer_size) + zeros(20) + le_bytes_u32(self.fd as u32)
    }

    /// Writes the record field by field.
    pub fn to_bytes(&self) -> (r: Vec<u8>)
        ensures
            r@ == self.wire_bytes(),
            r@.len() == GPIO_LINE_REQUEST_SIZE,
    {
        proof {
            lemma_le_bytes_u32s_len(self.offsets@);
            lemma_attributes_bytes_len(self.config.attrs@);
        }
        let mut out: Vec<u8> = Vec::new();
        push_u32s(&mut out, self.offsets.as_slice());
        push_bytes(&mut out, self.consumer.as_slice());
        push_u64(&mut out, self.config.flags);
        push_u32(&mut out, self.config.num_attrs);
        push_zeros(&mut out, 20);
        let ghost head = out@;
        let attrs = self.config.attrs.as_slice();
        let mut i: usize = 0;
        assert(attrs@.subrange(0, 0) =~= Seq::<GpioLineConfigAttribute>::empty());
        assert(out@ =~= head + attributes_bytes(attrs@.subrange(0, 0)));
        while i < attrs.len()
            invariant
                i <= attrs@.len(),
                out@ == head + attributes_bytes(attrs@.subrange(0, i as int)),
            decreases attrs@.len() - i,
        {
            let a = attrs[i];
            let ghost before = out@;
            push_u32(&mut out, a.attr.id);
            push_zeros(&mut out, 4);
            push_u64(&mut out, a.attr.value);
            push_u64(&mut out, a.mask);
            assert(out@ =~= before + attribute_bytes(a));
            assert(attrs@.subrange(0, i + 1).drop_last() =~= attrs@.subrange(0, i as int));
            i = i + 1;
            assert(out@ =~= head + attributes_bytes(attrs@.subrange(0, i as int)));
        }
        assert(attrs@.subrange(0, attrs@.len() as int) =~= attrs@);
        push_u32(&mut out, self.num_lines);
        push_u32(&mut out, self.event_buffer_size);
        push_zeros(&mut out, 20);
        push_u32(&mut out, #[verifier::truncate] (self.fd as u32));
        assert(out@ =~= self.wire_bytes());
        out
    }
}

impl GpioLineInfo {
    /// The record that asks the kernel about line `offset`.
    pub fn query(offset: LineId) -> (r: Self)
        ensures
            r.offset == offset,
            r.flags == 0,
            r.num_attrs == 0,
            r.name@ == zeros(32),
            r.consumer@ == zeros(32),
    {
        let r = GpioLineInfo {
            name: [0u8; GPIO_MAX_NAME_SIZE],
            consumer: [0u8; GPIO_MAX_NAME_SIZE],
            offset,
            num_attrs: 0,
            flags: 0,
        };
        assert(r.name@ =~= zeros(32));
        assert(r.consumer@ =~= zeros(32));
        r
    }

    /// Wire form of the record; integers are little-endian, attributes and padding
    /// are zero.
    pub open spec fn wire_bytes(self) -> Seq<u8> {
        self.name@ + self.consumer@ + le_bytes_u32(self.offset) + le_bytes_u32(self.num_attrs)
            + le_bytes_u64(self.flags) + zeros(176)
    }

    /// Writes the record field by field.
    pub fn to_bytes(&self) -> (r: Vec<u8>)
        ensures
            r@ == self.wire_bytes(),
            r@.len() == GPIO_LINE_INFO_SIZE,
    {
        let mut out: Vec<u8> = Vec::new();
        push_bytes(&mut out, self.name.as_slice());
        push_bytes(&mut out, self.consumer.as_slice());
        push_u32(&mut out, self.offset);
        push_u32(&mut out, self.num_attrs);
        push_u64(&mut out, self.flags);
        push_zeros(&mut out, 176);
        assert(out@ =~= self.wire_bytes());
        out
    }

    /// Reads the record field by field; fails with `InvalidData` unless there are
    /// exactly `GPIO_LINE_INFO_SIZE` bytes.
    pub fn from_bytes(b: &[u8]) -> (r: Result<Self>)
        ensures
            r is Ok <==> b@.len() == GPIO_LINE_INFO_SIZE,
            r is Ok ==> {
                let i = r->Ok_0;
                &&& i.name@ == b@.subrange(0, 32)
                &&& i.consumer@ == b@.subrange(32, 64)
                &&& i.offset == le_u32(b@, 64)
                &&& i.num_attrs == le_u32(b@, 68)
                &&& i.flags == le_u64(b@, 72)
            },
            r is Err ==> is_error(r->Err_0, ErrorKind::InvalidData, "Unexpected size"),
    {
        check_size(b.len(), GPIO_LINE_INFO_SIZE)?;
        Ok(GpioLineInfo {
            name: read_array(b, 0),
            consumer: read_array(b, 32),
            offset: read_u32(b, 64),
            num_attrs: read_u32(b, 68),
            flags: read_u64(b, 72),
        })
    }
}

/// Wire form of line values: bits, then mask, little-endian.
pub fn values_to_bytes(v: &Values) -> (r: Vec<u8>)
    ensures
        r@ == le_bytes_u64(v.bits) + le_bytes_u64(v.mask),
        r@.len() == GPIO_LINE_VALUES_SIZE,
{
    let mut out: Vec<u8> = Vec::new();
    push_u64(&mut out, v.bits);
    push_u64(&mut out, v.mask);
    assert(out@ =~= le_bytes_u64(v.bits) + le_bytes_u64(v.mask));
    out
}

/// Line values from their wire form; fails with `InvalidData` unless there are
/// exactly `GPIO_LINE_VALUES_SIZE` bytes.
pub fn values_from_bytes(b: &[u8]) -> (r: Result<Values>)
    ensures
        r is Ok <==> b@.len() == GPIO_LINE_VALUES_SIZE,
        r is Ok ==> r->Ok_0 == (Masked { bits: le_u64(b@, 0), mask: le_u64(b@, 8) }),
        r is Err ==> is_error(r->Err_0, ErrorKind::InvalidData, "Unexpected size"),
{
    check_size(b.len(), GPIO_LINE_VALUES_SIZE)?;
    Ok(Masked { bits: read_u64(b, 0), mask: read_u64(b, 8) })
}

impl GpioLineEvent {
    /// Reads an event record from the bytes of one read; fails with `InvalidData`
    /// unless there are exactly `GPIO_LINE_EVENT_SIZE` of them.
    pub fn from_bytes(b: &[u8]) -> (r: Result<Self>)
        ensures
            r is Ok <==> b@.len() == GPIO_LINE_EVENT_SIZE,
            r is Ok ==> r->Ok_0 == (GpioLineEvent {
                timestamp_ns: le_u64(b@, 0),
                id: le_u32(b@, 8),
                offset: le_u32(b@, 12),
                seqno: le_u32(b@, 16),
                line_seqno: le_u32(b@, 20),
            }),
            r is Err ==> is_error(r->Err_0, ErrorKind::InvalidData, "Unexpected size"),
    {
        check_size(b.len(), GPIO_LINE_EVENT_SIZE)?;
        Ok(GpioLineEvent {
            timestamp_ns: read_u64(b, 0),
            id: read_u32(b, 8),
            offset: read_u32(b, 12),
            seqno: read_u32(b, 16),
            line_seqno: read_u32(b, 20),
        })
    }

    /// Decodes the event, resolving the kernel line offset to the request-local bit
    /// position. Fails with `InvalidData` on an unknown edge code or an offset that the
    /// request does not hold.
    pub fn as_event(&self, line_map: &LineMap) -> (r: Result<Event>)
        ensures
            r is Ok <==> (self.id == GPIO_LINE_EVENT_RISING_EDGE || self.id == GPIO_LINE_EVENT_FALLING_EDGE)
                && line_map.lookup(self.offset) is Some,
            r is Ok ==> r->Ok_0 == (Event {
                line: line_map.lookup(self.offset)->Some_0,
                edge: if self.id == GPIO_LINE_EVENT_RISING_EDGE { Edge::Rising } else { Edge::Falling },
                time: crate::utils::Time { nanos: self.timestamp_ns },
            }),
            r is Err && !(self.id == GPIO_LINE_EVENT_RISING_EDGE || self.id == GPIO_LINE_EVENT_FALLING_EDGE)
                ==> is_error(r->Err_0, ErrorKind::InvalidData, "Unknown edge"),
            r is Err && (self.id == GPIO_LINE_EVENT_RISING_EDGE || self.id == GPIO_LINE_EVENT_FALLING_EDGE)
                ==> is_error(r->Err_0, ErrorKind::InvalidData, "Unknown line offset"),
    {
        let edge = if self.id == GPIO_LINE_EVENT_RISING_EDGE {
            Edge::Rising
        } else if self.id == GPIO_LINE_EVENT_FALLING_EDGE {
            Edge::Falling
        } else {
            return Err(invalid_data("Unknown edge"));
        };

        let line: BitId = line_map.get(self.offset)?;

        let time = time_from_nanos(self.timestamp_ns);

        Ok(Event { line, edge, time })
    }
}

} // verus!
