//! Records of the first kernel ABI generation (`GPIOHANDLE_*`, `GPIOEVENT_*`). Wire
//! forms write and read each field in turn, integers little-endian.
use vstd::prelude::*;
use vstd::string::StringSliceAdditionalSpecFns;
use crate::types::{
    decode_line_info, line_info_decodes, line_info_matches, Active, Bias, BitId, Direction,
    Drive, Edge, Event, LineFlags, LineId, LineInfo,
};
use crate::utils::{
    check_len, check_size, invalid_data, is_error, is_set, le_bytes_u32, le_bytes_u32s, le_u32,
    le_u64, push_bytes, push_u32, push_u32s, read_array, read_u32, read_u64, safe_set_str,
    time_from_nanos, zeros, ErrorKind, Result,
};
use crate::utils::lemma_le_bytes_u32s_len;
use crate::values::{AsValues, AsValuesMut};

verus! {

/// Largest number of lines in one request.
pub const GPIOHANDLES_MAX: usize = 64;

/// Size of the name, consumer and label buffers.
pub const GPIO_MAX_NAME_SIZE: usize = 32;

pub const GPIOLINE_FLAG_KERNEL: u32 = 1;
pub const GPIOLINE_FLAG_IS_OUT: u32 = 2;
pub const GPIOLINE_FLAG_ACTIVE_LOW: u32 = 4;
pub const GPIOLINE_FLAG_OPEN_DRAIN: u32 = 8;
pub const GPIOLINE_FLAG_OPEN_SOURCE: u32 = 16;
pub const GPIOLINE_FLAG_BIAS_PULL_UP: u32 = 32;
pub const GPIOLINE_FLAG_BIAS_PULL_DOWN: u32 = 64;
pub const GPIOLINE_FLAG_BIAS_DISABLE: u32 = 128;

pub const GPIOHANDLE_REQUEST_INPUT: u32 = 1;
pub const GPIOHANDLE_REQUEST_OUTPUT: u32 = 2;
pub const GPIOHANDLE_REQUEST_ACTIVE_LOW: u32 = 4;
pub const GPIOHANDLE_REQUEST_OPEN_DRAIN: u32 = 8;
pub const GPIOHANDLE_REQUEST_OPEN_SOURCE: u32 = 16;
pub const GPIOHANDLE_REQUEST_BIAS_PULL_UP: u32 = 32;
pub const GPIOHANDLE_REQUEST_BIAS_PULL_DOWN: u32 = 64;
pub const GPIOHANDLE_REQUEST_BIAS_DISABLE: u32 = 128;

pub const GPIOEVENT_EVENT_RISING_EDGE: u32 = 1;
pub const GPIOEVENT_EVENT_FALLING_EDGE: u32 = 2;

/// Size in bytes of an event record.
pub const GPIOEVENT_DATA_SIZE: usize = 16;

/// Size in bytes of a line information record.
pub const GPIOLINE_INFO_SIZE: usize = 72;

/// Size in bytes of a handle request record.
pub const GPIOHANDLE_REQUEST_SIZE: usize = 364;

/// Size in bytes of a line values record.
pub const GPIOHANDLE_DATA_SIZE: usize = 64;

/// Line information record.
#[derive(Debug, Clone, Copy)]
pub struct GpioLineInfo {
    pub line_offset: LineId,
    pub flags: u32,
    pub name: [u8; GPIO_MAX_NAME_SIZE],
    pub consumer: [u8; GPIO_MAX_NAME_SIZE],
}

/// Line handle request record.
#[derive(Debug, Clone, Copy)]
pub struct GpioHandleRequest {
    pub line_offsets: [LineId; GPIOHANDLES_MAX],
    pub flags: u32,
    pub default_values: [u8; GPIOHANDLES_MAX],
    pub consumer_label: [u8; GPIO_MAX_NAME_SIZE],
    pub lines: u32,
    pub fd: i32,
}

/// Line values record: one byte, `0` or `1`, per requested line.
#[derive(Debug, Clone, Copy)]
pub struct GpioHandleData {
    pub values: [u8; GPIOHANDLES_MAX],
}

/// Event record.
#[derive(Debug, Clone, Copy, PartialEq, Eq, Structural)]
pub struct GpioEventData {
    pub timestamp: u64,
    pub id: u32,
}

/// Flag bit of the direction: input or output, never both.
pub open spec fn direction_flags(direction: Direction) -> u32 {
    match direction {
        Direction::Input => GPIOHANDLE_REQUEST_INPUT,
        Direction::Output => GPIOHANDLE_REQUEST_OUTPUT,
    }
}

/// Flag bits of the bias.
pub open spec fn bias_flags(bias: Option<Bias>) -> u32 {
    match bias {
        Some(Bias::PullUp) => GPIOHANDLE_REQUEST_BIAS_PULL_UP,
        Some(Bias::PullDown) => GPIOHANDLE_REQUEST_BIAS_PULL_DOWN,
        Some(Bias::Disable) => GPIOHANDLE_REQUEST_BIAS_DISABLE,
        None => 0,
    }
}

/// Flag bits of the drive; none unless the lines are outputs.
pub open spec fn drive_flags(direction: Direction, drive: Option<Drive>) -> u32 {
    match (direction, drive) {
        (Direction::Output, Some(Drive::OpenDrain)) => GPIOHANDLE_REQUEST_OPEN_DRAIN,
        (Direction::Output, Some(Drive::OpenSource)) => GPIOHANDLE_REQUEST_OPEN_SOURCE,
        _ => 0,
    }
}

/// Flags of a request.
pub open spec fn request_flags(direction: Direction, active: Active, bias: Option<Bias>, drive: Option<Drive>) -> u32 {
    direction_flags(direction) | (if active == Active::Low { GPIOHANDLE_REQUEST_ACTIVE_LOW } else { 0 })
        | bias_flags(bias) | drive_flags(direction, drive)
}

/// Whether `q` is the request for these lines, options and consumer text.
pub open spec fn request_matches(
    q: GpioHandleRequest,
    lines: Seq<LineId>,
    direction: Direction,
    active: Active,
    bias: Option<Bias>,
    drive: Option<Drive>,
    consumer: Seq<u8>,
) -> bool {
    let n = lines.len() as int;
    &&& q.lines == n
    &&& q.line_offsets@.subrange(0, n) == lines
    &&& forall|k: int| n <= k < GPIOHANDLES_MAX ==> q.line_offsets@[k] == 0
    &&& q.flags == request_flags(direction, active, bias, drive)
    &&& forall|k: int| 0 <= k < GPIOHANDLES_MAX ==> q.default_values@[k] == 0
    &&& q.consumer_label@.subrange(0, consumer.len() as int) == consumer
    &&& forall|k: int| consumer.len() <= k < GPIO_MAX_NAME_SIZE ==> q.consumer_label@[k] == 0u8
    &&& q.fd == 0
}

impl GpioLineInfo {
    /// Flag bits that the record reports; this generation reports no edge detection.
    pub open spec fn line_flags(&self) -> LineFlags {
        LineFlags {
            output: self.flags & GPIOLINE_FLAG_IS_OUT == GPIOLINE_FLAG_IS_OUT,
            active_low: self.flags & GPIOLINE_FLAG_ACTIVE_LOW == GPIOLINE_FLAG_ACTIVE_LOW,
            edge_rising: false,
            edge_falling: false,
            used: self.flags & GPIOLINE_FLAG_KERNEL == GPIOLINE_FLAG_KERNEL,
            pull_up: self.flags & GPIOLINE_FLAG_BIAS_PULL_UP == GPIOLINE_FLAG_BIAS_PULL_UP,
            pull_down: self.flags & GPIOLINE_FLAG_BIAS_PULL_DOWN == GPIOLINE_FLAG_BIAS_PULL_DOWN,
            open_drain: self.flags & GPIOLINE_FLAG_OPEN_DRAIN == GPIOLINE_FLAG_OPEN_DRAIN,
            open_source: self.flags & GPIOLINE_FLAG_OPEN_SOURCE == GPIOLINE_FLAG_OPEN_SOURCE,
        }
    }

    /// Decodes the record; fails with `InvalidData` where the name or consumer is not
    /// UTF-8.
    pub fn as_info(&self) -> (r: Result<LineInfo>)
        ensures
            r is Ok <==> line_info_decodes(self.name@, self.consumer@),
            r is Ok ==> line_info_matches(r->Ok_0, self.line_flags(), self.name@, self.consumer@),
            r is Err ==> is_error(r->Err_0, ErrorKind::InvalidData, "Invalid UTF-8"),
    {
        let f = self.flags;
        proof {
            lemma_flag_widen(f, GPIOLINE_FLAG_IS_OUT);
            lemma_flag_widen(f, GPIOLINE_FLAG_ACTIVE_LOW);
            lemma_flag_widen(f, GPIOLINE_FLAG_KERNEL);
            lemma_flag_widen(f, GPIOLINE_FLAG_BIAS_PULL_UP);
            lemma_flag_widen(f, GPIOLINE_FLAG_BIAS_PULL_DOWN);
            lemma_flag_widen(f, GPIOLINE_FLAG_OPEN_DRAIN);
            lemma_flag_widen(f, GPIOLINE_FLAG_OPEN_SOURCE);
        }
        let flags = LineFlags {
            output: is_set(f as u64, GPIOLINE_FLAG_IS_OUT as u64),
            active_low: is_set(f as u64, GPIOLINE_FLAG_ACTIVE_LOW as u64),
            edge_rising: false,
            edge_falling: false,
            used: is_set(f as u64, GPIOLINE_FLAG_KERNEL as u64),
            pull_up: is_set(f as u64, GPIOLINE_FLAG_BIAS_PULL_UP as u64),
            pull_down: is_set(f as u64, GPIOLINE_FLAG_BIAS_PULL_DOWN as u64),
            open_drain: is_set(f as u64, GPIOLINE_FLAG_OPEN_DRAIN as u64),
            open_source: is_set(f as u64, GPIOLINE_FLAG_OPEN_SOURCE as u64),
        };
        decode_line_info(flags, self.name.as_slice(), self.consumer.as_slice())
    }
}

impl GpioLineInfo {
    /// The record that asks the kernel about line `offset`.
    pub fn query(offset: LineId) -> (r: Self)
        ensures
            r.line_offset == offset,
            r.flags == 0,
            r.name@ == zeros(32),
            r.consumer@ == zeros(32),
    {
        let r = GpioLineInfo {
            line_offset: offset,
            flags: 0,
            name: [0u8; GPIO_MAX_NAME_SIZE],
            consumer: [0u8; GPIO_MAX_NAME_SIZE],
        };
        assert(r.name@ =~= zeros(32));
        assert(r.consumer@ =~= zeros(32));
        r
    }

    /// Wire form of the record; integers are little-endian.
    pub open spec fn wire_bytes(self) -> Seq<u8> {
        le_bytes_u32(self.line_offset) + le_bytes_u32(self.flags) + self.name@ + self.consumer@
    }

    /// Writes the record field by field.
    pub fn to_bytes(&self) -> (r: Vec<u8>)
        ensures
            r@ == self.wire_bytes(),
            r@.len() == GPIOLINE_INFO_SIZE,
    {
        let mut out: Vec<u8> = Vec::new();
        push_u32(&mut out, self.line_offset);
        push_u32(&mut out, self.flags);
        push_bytes(&mut out, self.name.as_slice());
        push_bytes(&mut out, self.consumer.as_slice());
        assert(out@ =~= self.wire_bytes());
        out
    }

    /// Reads the record field by field; fails with `InvalidData` unless there are
    /// exactly `GPIOLINE_INFO_SIZE` bytes.
    pub fn from_bytes(b: &[u8]) -> (r: Result<Self>)
        ensures
            r is Ok <==> b@.len() == GPIOLINE_INFO_SIZE,
            r is Ok ==> {
                let i = r->Ok_0;
                &&& i.line_offset == le_u32(b@, 0)
                &&& i.flags == le_u32(b@, 4)
                &&& i.name@ == b@.subrange(8, 40)
                &&& i.consumer@ == b@.subrange(40, 72)
            },
            r is Err ==> is_error(r->Err_0, ErrorKind::InvalidData, "Unexpected size"),
    {
        check_size(b.len(), GPIOLINE_INFO_SIZE)?;
        Ok(GpioLineInfo {
            line_offset: read_u32(b, 0),
            flags: read_u32(b, 4),
            name: read_array(b, 8),
            consumer: read_array(b, 40),
        })
    }
}

impl GpioHandleRequest {
    /// Wire form of the record; integers are little-endian.
    pub open spec fn wire_bytes(self) -> Seq<u8> {
        le_bytes_u32s(self.line_offsets@) + le_bytes_u32(self.flags) + self.default_values@
            + self.consumer_label@ + le_bytes_u32(self.lines) + le_bytes_u32(self.fd as u32)
    }

    /// Writes the record field by field.
    pub fn to_bytes(&self) -> (r: Vec<u8>)
        ensures
            r@ == self.wire_bytes(),
            r@.len() == GPIOHANDLE_REQUEST_SIZE,
    {
        proof {
            lemma_le_bytes_u32s_len(self.line_offsets@);
        }
        let mut out: Vec<u8> = Vec::new();
        push_u32s(&mut out, self.line_offsets.as_slice());
        push_u32(&mut out, self.flags);
        push_bytes(&mut out, self.default_values.as_slice());
        push_bytes(&mut out, self.consumer_label.as_slice());
        push_u32(&mut out, self.lines);
        push_u32(&mut out, #[verifier::truncate] (self.fd as u32));
        assert(out@ =~= self.wire_bytes());
        out
    }
}

impl GpioHandleData {
    /// Writes the record.
    pub fn to_bytes(&self) -> (r: Vec<u8>)
        ensures
            r@ == self.values@,
    {
        let mut out: Vec<u8> = Vec::new();
        push_bytes(&mut out, self.values.as_slice());
        assert(out@ =~= self.values@);
        out
    }

    /// Reads the record; fails with `InvalidData` unless there are exactly
    /// `GPIOHANDLE_DATA_SIZE` bytes.
    pub fn from_bytes(b: &[u8]) -> (r: Result<Self>)
        ensures
            r is Ok <==> b@.len() == GPIOHANDLE_DATA_SIZE,
            r is Ok ==> r->Ok_0.values@ == b@,
            r is Err ==> is_error(r->Err_0, ErrorKind::InvalidData, "Unexpected size"),
    {
        check_size(b.len(), GPIOHANDLE_DATA_SIZE)?;
        let values: [u8; GPIOHANDLES_MAX] = read_array(b, 0);
        assert(b@.subrange(0, 64) =~= b@);
        Ok(GpioHandleData { values })
    }
}

proof fn lemma_flag_widen(f: u32, flag: u32)
    ensures
        ((f as u64) & (flag as u64) == (flag as u64)) == (f & flag == flag),
{
    assert(((f as u64) & (flag as u64) == (flag as u64)) == (f & flag == flag)) by (bit_vector);
}

impl GpioHandleRequest {
    /// Builds the request for `lines` with the given options; drive is encoded for
    /// outputs only. Fails with `InvalidInput` on more than 64 lines or a consumer text
    /// of 32 bytes or more.
    pub fn new(
        lines: &[LineId],
        direction: Direction,
        active: Active,
        bias: Option<Bias>,
        drive: Option<Drive>,
        consumer: &str,
    ) -> (r: Result<Self>)
        ensures
            r is Ok <==> lines@.len() <= GPIOHANDLES_MAX && consumer.spec_bytes().len() < GPIO_MAX_NAME_SIZE,
            r is Ok ==> request_matches(r->Ok_0, lines@, direction, active, bias, drive, consumer.spec_bytes()),
            r is Err && lines@.len() > GPIOHANDLES_MAX ==> is_error(r->Err_0, ErrorKind::InvalidInput, "Too many lines"),
            r is Err && lines@.len() <= GPIOHANDLES_MAX ==> is_error(r->Err_0, ErrorKind::InvalidInput, "String too long"),
    {
        let mut request = GpioHandleRequest {
            line_offsets: [0u32; GPIOHANDLES_MAX],
            flags: 0,
            default_values: [0u8; GPIOHANDLES_MAX],
            consumer_label: [0u8; GPIO_MAX_NAME_SIZE],
            lines: 0,
            fd: 0,
        };
        assert(forall|k: int| 0 <= k < GPIOHANDLES_MAX ==> request.line_offsets@[k] == 0u32);
        assert(forall|k: int| 0 <= k < GPIOHANDLES_MAX ==> request.default_values@[k] == 0u8);

        check_len(lines, GPIOHANDLES_MAX)?;

        request.lines = lines.len() as u32;

        let n = lines.len();
        let mut i: usize = 0;
        while i < n
            invariant
                n == lines@.len(),
                n <= GPIOHANDLES_MAX,
                i <= n,
                request.line_offsets@.len() == GPIOHANDLES_MAX,
                request.lines == n,
                request.flags == 0,
                request.fd == 0,
                forall|k: int| 0 <= k < GPIOHANDLES_MAX ==> request.default_values@[k] == 0u8,
                forall|k: int| 0 <= k < GPIO_MAX_NAME_SIZE ==> request.consumer_label@[k] == 0u8,
                forall|k: int| 0 <= k < i ==> request.line_offsets@[k] == lines@[k],
                forall|k: int| i <= k < GPIOHANDLES_MAX ==> request.line_offsets@[k] == 0,
            decreases n - i,
        {
            request.line_offsets[i] = lines[i];
            i = i + 1;
        }
        assert(request.line_offsets@.subrange(0, n as int) =~= lines@);

        let mut flags: u32 = match direction {
            Direction::Input => GPIOHANDLE_REQUEST_INPUT,
            // Input and output bits are never mixed.
            Direction::Output => GPIOHANDLE_REQUEST_OUTPUT,
        };

        if active == Active::Low {
            flags = flags | GPIOHANDLE_REQUEST_ACTIVE_LOW;
        } else {
            flags = flags | 0;
        }

        let bias_bits: u32 = match bias {
            Some(Bias::PullUp) => GPIOHANDLE_REQUEST_BIAS_PULL_UP,
            Some(Bias::PullDown) => GPIOHANDLE_REQUEST_BIAS_PULL_DOWN,
            Some(Bias::Disable) => GPIOHANDLE_REQUEST_BIAS_DISABLE,
            None => 0,
        };
        flags = flags | bias_bits;

        let drive_bits: u32 = if direction == Direction::Output {
            match drive {
                Some(Drive::OpenDrain) => GPIOHANDLE_REQUEST_OPEN_DRAIN,
                Some(Drive::OpenSource) => GPIOHANDLE_REQUEST_OPEN_SOURCE,
                _ => 0,
            }
        } else {
            0
        };
        flags = flags | drive_bits;
        request.flags = flags;

        safe_set_str(&mut request.consumer_label, consumer)?;
        proof {
            let m = consumer.spec_bytes().len() as int;
            assert forall|k: int| m <= k < GPIO_MAX_NAME_SIZE implies request.consumer_label@[k] == 0u8 by {
                if k > m {
                    assert(request.consumer_label@[k] == request.consumer_label@.subrange(m + 1, GPIO_MAX_NAME_SIZE as int)[k - m - 1]);
                }
            }
        }

        Ok(request)
    }
}

impl GpioHandleData {
    /// Sets positions `0..len` of `values` from the record: `true` where the byte is
    /// not `0`.
    pub fn fill_values<T: AsValuesMut>(&self, len: usize, values: &mut T)
        requires
            len <= GPIOHANDLES_MAX,
        ensures
            final(values).spec_bits() == old(values).spec_bits(),
            forall|j: int|
                0 <= j < len && j < old(values).spec_bits() ==> #[trigger] final(values).spec_get(j)
                    == Some(self.values@[j] != 0u8),
            forall|j: int| !(0 <= j < len) ==> #[trigger] final(values).spec_get(j) == old(values).spec_get(j),
    {
        let mut id: usize = 0;
        while id < len
            invariant
                len <= GPIOHANDLES_MAX,
                id <= len,
                values.spec_bits() == old(values).spec_bits(),
                forall|j: int|
                    0 <= j < id && j < old(values).spec_bits() ==> #[trigger] values.spec_get(j) == Some(
                        self.values@[j] != 0u8,
                    ),
                forall|j: int| !(0 <= j < id) ==> #[trigger] values.spec_get(j) == old(values).spec_get(j),
            decreases len - id,
        {
            values.set(id as BitId, Some(self.values[id] != 0));
            id = id + 1;
        }
    }

    /// The record for positions `0..len` of `values`: `1` where the value is `1`, and
    /// `0` where it is `0` or not set.
    pub fn from_values<T: AsValues>(len: usize, values: &T) -> (r: Self)
        requires
            len <= GPIOHANDLES_MAX,
        ensures
            forall|j: int| 0 <= j < GPIOHANDLES_MAX ==> #[trigger] r.values@[j] == if j < len
                && values.spec_get(j) == Some(true) {
                1u8
            } else {
                0u8
            },
    {
        let mut data = GpioHandleData { values: [0u8; GPIOHANDLES_MAX] };
        assert(forall|k: int| 0 <= k < GPIOHANDLES_MAX ==> data.values@[k] == 0u8);
        let mut i: usize = 0;
        while i < len
            invariant
                len <= GPIOHANDLES_MAX,
                i <= len,
                data.values@.len() == GPIOHANDLES_MAX,
                forall|j: int| 0 <= j < GPIOHANDLES_MAX ==> #[trigger] data.values@[j] == if j < i
                    && values.spec_get(j) == Some(true) {
                    1u8
                } else {
                    0u8
                },
            decreases len - i,
        {
            data.values[i] = if values.get(i as BitId) == Some(true) {
                1
            } else {
                0
            };
            i = i + 1;
        }
        data
    }
}

impl GpioEventData {
    /// Reads an event record from the bytes of one read; fails with `InvalidData`
    /// unless there are exactly `GPIOEVENT_DATA_SIZE` of them.
    pub fn from_bytes(b: &[u8]) -> (r: Result<Self>)
        ensures
            r is Ok <==> b@.len() == GPIOEVENT_DATA_SIZE,
            r is Ok ==> r->Ok_0 == (GpioEventData { timestamp: le_u64(b@, 0), id: le_u32(b@, 8) }),
            r is Err ==> is_error(r->Err_0, ErrorKind::InvalidData, "Unexpected size"),
    {
        check_size(b.len(), GPIOEVENT_DATA_SIZE)?;
        Ok(GpioEventData { timestamp: read_u64(b, 0), id: read_u32(b, 8) })
    }

    /// Decodes the event of the line at bit position `line`; fails with `InvalidData`
    /// on an unknown edge code.
    pub fn as_event(&self, line: BitId) -> (r: Result<Event>)
        ensures
            r is Ok <==> self.id == GPIOEVENT_EVENT_RISING_EDGE || self.id == GPIOEVENT_EVENT_FALLING_EDGE,
            r is Ok ==> r->Ok_0 == (Event {
                line,
                edge: if self.id == GPIOEVENT_EVENT_RISING_EDGE { Edge::Rising } else { Edge::Falling },
                time: crate::utils::Time { nanos: self.timestamp },
            }),
            r is Err ==> is_error(r->Err_0, ErrorKind::InvalidData, "Unknown edge"),
    {
        let edge = if self.id == GPIOEVENT_EVENT_RISING_EDGE {
            Edge::Rising
        } else if self.id == GPIOEVENT_EVENT_FALLING_EDGE {
            Edge::Falling
        } else {
            return Err(invalid_data("Unknown edge"));
        };

        let time = time_from_nanos(self.timestamp);

        Ok(Event { line, edge, time })
    }
}


/// A request sets neither the open-drain nor the open-source bit where the lines are
/// inputs, whatever drive is given, nor where they are push-pull outputs.
pub proof fn law_drive_bits(active: Active, bias: Option<Bias>, drive: Option<Drive>)
    ensures
        request_flags(Direction::Input, active, bias, drive) & (GPIOHANDLE_REQUEST_OPEN_DRAIN
            | GPIOHANDLE_REQUEST_OPEN_SOURCE) == 0,
        request_flags(Direction::Output, active, bias, Some(Drive::PushPull)) & (
        GPIOHANDLE_REQUEST_OPEN_DRAIN | GPIOHANDLE_REQUEST_OPEN_SOURCE) == 0,
{
    assert(GPIOHANDLE_REQUEST_OPEN_DRAIN | GPIOHANDLE_REQUEST_OPEN_SOURCE == 24u32) by (bit_vector);
    let b: u32 = if active == Active::Low { GPIOHANDLE_REQUEST_ACTIVE_LOW } else { 0 };
    let c: u32 = bias_flags(bias);
    let a: u32 = direction_flags(Direction::Input);
    let o: u32 = direction_flags(Direction::Output);
    assert((a | b | c | 0u32) & 24u32 == 0 && (o | b | c | 0u32) & 24u32 == 0) by (bit_vector)
        requires
            a == 1,
            o == 2,
            b == 0 || b == 4,
            c == 0 || c == 32 || c == 64 || c == 128,
    ;
}

} // verus!
