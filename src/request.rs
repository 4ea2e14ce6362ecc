//! Line request options, their encoding under either ABI generation, and the
//! information that a chip or a granted request carries.
use vstd::prelude::*;
use crate::types::{
    last_index_of, Active, Bias, Direction, Drive, Edge, EdgeDetect, Event, LineId, LineMap,
};
use crate::utils::{
    decimal, decimal_list, debug_quoted, push_debug_quoted, push_decimal, push_decimal_list,
    push_text, check_size, is_error, le_u32, read_array, read_u32, safe_get_str, trim_nul, unsupported, ErrorKind,
    Result, Time,
};
use crate::values::Values;
use crate::{v1, v2};
use vstd::utf8::{decode_utf8, valid_utf8};

verus! {

/// Kernel ABI generation that requests and records follow.
#[derive(Debug, Clone, Copy, PartialEq, Eq, Structural)]
pub enum AbiGeneration {
    /// `GPIOHANDLE` / `GPIOEVENT` records
    V1,
    /// `GPIO_V2_LINE` records
    V2,
}

/// Direction chosen by a type
pub trait DirectionType {
    /// The direction of the type.
    spec fn spec_direction() -> Direction;

    /// The direction of the type.
    fn direction() -> (r: Direction)
        ensures
            r == Self::spec_direction(),
    ;
}

/// Input direction
pub struct Input;

impl DirectionType for Input {
    open spec fn spec_direction() -> Direction {
        Direction::Input
    }

    fn direction() -> (r: Direction) {
        Direction::Input
    }
}

/// Output direction
pub struct Output;

impl DirectionType for Output {
    open spec fn spec_direction() -> Direction {
        Direction::Output
    }

    fn direction() -> (r: Direction) {
        Direction::Output
    }
}

/// GPIO line values request options
#[derive(Debug, Clone)]
pub struct Options {
    /// Offsets of the requested lines, in the order of their bit positions
    pub lines: Vec<LineId>,
    /// Direction of all lines
    pub direction: Direction,
    /// Active state of all lines
    pub active: Active,
    /// Edge detection; encoded for inputs only
    pub edge: Option<EdgeDetect>,
    /// Input bias
    pub bias: Option<Bias>,
    /// Output drive; encoded for outputs only
    pub drive: Option<Drive>,
    /// Initial values; encoded for outputs only
    pub values: Option<Values>,
    /// Consumer label
    pub consumer: String,
}

/// A copy of the offsets.
fn copy_lines(lines: &[LineId]) -> (r: Vec<LineId>)
    ensures
        r@ == lines@,
{
    let mut r: Vec<LineId> = Vec::new();
    let mut i: usize = 0;
    while i < lines.len()
        invariant
            i <= lines@.len(),
            r@ == lines@.subrange(0, i as int),
        decreases lines@.len() - i,
    {
        r.push(lines[i]);
        i = i + 1;
        assert(r@ =~= lines@.subrange(0, i as int));
    }
    assert(lines@.subrange(0, lines@.len() as int) =~= lines@);
    r
}

impl Options {
    /// Whether the options are the defaults for `lines` in `direction`.
    pub open spec fn is_default_for(self, lines: Seq<LineId>, direction: Direction) -> bool {
        &&& self.lines@ == lines
        &&& self.direction == direction
        &&& self.active == Active::High
        &&& self.edge is None
        &&& self.bias is None
        &&& self.drive is None
        &&& self.values is None
        &&& self.consumer@ == Seq::<char>::empty()
    }

    /// Input options for `lines`, with the defaults otherwise.
    pub fn input(lines: &[LineId]) -> (r: Options)
        ensures
            r.is_default_for(lines@, Direction::Input),
    {
        Options {
            lines: copy_lines(lines),
            direction: Direction::Input,
            active: Active::High,
            edge: None,
            bias: None,
            drive: None,
            values: None,
            consumer: String::new(),
        }
    }

    /// Output options for `lines`, with the defaults otherwise.
    pub fn output(lines: &[LineId]) -> (r: Options)
        ensures
            r.is_default_for(lines@, Direction::Output),
    {
        Options {
            lines: copy_lines(lines),
            direction: Direction::Output,
            active: Active::High,
            edge: None,
            bias: None,
            drive: None,
            values: None,
            consumer: String::new(),
        }
    }

    /// Options for `lines` in the direction of `D`, with the defaults otherwise.
    pub fn for_direction<D: DirectionType>(lines: &[LineId]) -> (r: Options)
        ensures
            r.is_default_for(lines@, D::spec_direction()),
    {
        let direction = D::direction();
        if direction == Direction::Input {
            Options::input(lines)
        } else {
            Options::output(lines)
        }
    }

    /// Sets the consumer label.
    pub fn consumer(self, consumer: &str) -> (r: Options)
        ensures
            r == (Options { consumer: r.consumer, ..self }),
            r.consumer@ == consumer@,
    {
        Options { consumer: consumer.to_owned(), ..self }
    }

    /// Sets the active state.
    pub fn active(self, active: Active) -> (r: Options)
        ensures
            r == (Options { active, ..self }),
    {
        Options { active, ..self }
    }

    /// Sets the bias.
    pub fn bias(self, bias: Bias) -> (r: Options)
        ensures
            r == (Options { bias: Some(bias), ..self }),
    {
        Options { bias: Some(bias), ..self }
    }

    /// Sets edge detection, which only inputs encode.
    pub fn edge(self, edge: EdgeDetect) -> (r: Options)
        ensures
            r == (Options { edge: Some(edge), ..self }),
    {
        Options { edge: Some(edge), ..self }
    }

    /// Sets the drive, which only outputs encode.
    pub fn drive(self, drive: Drive) -> (r: Options)
        ensures
            r == (Options { drive: Some(drive), ..self }),
    {
        Options { drive: Some(drive), ..self }
    }

    /// Sets initial values, which only outputs encode.
    pub fn values(self, values: Values) -> (r: Options)
        ensures
            r == (Options { values: Some(values), ..self }),
    {
        Options { values: Some(values), ..self }
    }

    /// Whether the options ask for edge detection on inputs, which the first ABI
    /// generation cannot express.
    pub open spec fn needs_edge_detection(self) -> bool {
        self.direction == Direction::Input && self.edge is Some && self.edge != Some(EdgeDetect::Disable)
    }

    /// Whether these options encode under `abi`.
    pub open spec fn encodes(self, abi: AbiGeneration) -> bool {
        &&& !(abi == AbiGeneration::V1 && self.needs_edge_detection())
        &&& self.lines@.len() <= 64
        &&& vstd::utf8::encode_utf8(self.consumer@).len() < 32
    }

    /// Encodes the options as the request record of `abi`, with the initial values
    /// that the first generation sets by a separate call, and the offset index of the
    /// request.
    pub fn encode(&self, abi: AbiGeneration) -> (r: Result<EncodedRequest>)
        ensures
            r is Ok <==> self.encodes(abi),
            r is Err && abi == AbiGeneration::V1 && self.needs_edge_detection() ==> r->Err_0.kind
                == ErrorKind::Unsupported,
            r is Err && !(abi == AbiGeneration::V1 && self.needs_edge_detection()) ==> r->Err_0.kind
                == ErrorKind::InvalidInput,
            r is Ok ==> r->Ok_0.matches(*self, abi),
    {
        let consumer = self.consumer.as_str();
        match abi {
            AbiGeneration::V1 => {
                if self.direction == Direction::Input {
                    match self.edge {
                        Some(EdgeDetect::Rising) | Some(EdgeDetect::Falling) | Some(EdgeDetect::Both) => {
                            return Err(unsupported("Edge detection needs the second ABI generation"));
                        },
                        _ => {},
                    }
                }
                let request = v1::GpioHandleRequest::new(
                    self.lines.as_slice(),
                    self.direction,
                    self.active,
                    self.bias,
                    self.drive,
                    consumer,
                )?;
                let initial_values = match self.values {
                    Some(v) => if self.direction == Direction::Output {
                        Some(v1::GpioHandleData::from_values(self.lines.len(), &v))
                    } else {
                        None
                    },
                    None => None,
                };
                Ok(EncodedRequest {
                    request: RawLineRequest::V1(request),
                    initial_values,
                    index: LineMap::new(self.lines.as_slice()),
                })
            },
            AbiGeneration::V2 => {
                let request = v2::GpioLineRequest::new(
                    self.lines.as_slice(),
                    self.direction,
                    self.active,
                    self.edge,
                    self.bias,
                    self.drive,
                    self.values,
                    consumer,
                )?;
                Ok(EncodedRequest {
                    request: RawLineRequest::V2(request),
                    initial_values: None,
                    index: LineMap::new(self.lines.as_slice()),
                })
            },
        }
    }
}

/// Request record of either ABI generation.
#[derive(Debug, Clone, Copy)]
pub enum RawLineRequest {
    V1(v1::GpioHandleRequest),
    V2(v2::GpioLineRequest),
}

/// An encoded request: the record to hand to the kernel, the values to set right
/// after it was granted (first generation only), and the offset index.
#[derive(Debug, Clone)]
pub struct EncodedRequest {
    pub request: RawLineRequest,
    pub initial_values: Option<v1::GpioHandleData>,
    pub index: LineMap,
}

impl EncodedRequest {
    /// Whether this is the encoding of `o` under `abi`.
    pub open spec fn matches(self, o: Options, abi: AbiGeneration) -> bool {
        let consumer = vstd::utf8::encode_utf8(o.consumer@);
        &&& match (abi, self.request) {
            (AbiGeneration::V1, RawLineRequest::V1(q)) => v1::request_matches(
                q,
                o.lines@,
                o.direction,
                o.active,
                o.bias,
                o.drive,
                consumer,
            ),
            (AbiGeneration::V2, RawLineRequest::V2(q)) => v2::request_matches(
                q,
                o.lines@,
                o.direction,
                o.active,
                o.edge,
                o.bias,
                o.drive,
                o.values,
                consumer,
            ),
            _ => false,
        }
        &&& (self.initial_values is Some <==> (abi == AbiGeneration::V1 && o.direction
            == Direction::Output && o.values is Some))
        &&& self.initial_values is Some ==> forall|j: int| 0 <= j < 64 ==> #[trigger] self.initial_values->Some_0.values@[j] == if j < o.lines@.len()
            && o.values->Some_0.value_at(j) == Some(true) {
            1u8
        } else {
            0u8
        }
        &&& forall|line: LineId| #[trigger]
            self.index.lookup(line) == match last_index_of(o.lines@, line) {
                Some(i) => Some(i as u8),
                None => None,
            }
    }
}

/// Decodes the bytes of one event read under `abi`. The first generation carries no
/// line offset in its event records, so it reports `Unsupported`.
pub fn decode_event(abi: AbiGeneration, bytes: &[u8], index: &LineMap) -> (r: Result<Event>)
    ensures
        abi == AbiGeneration::V1 ==> r is Err && r->Err_0.kind == ErrorKind::Unsupported,
        abi == AbiGeneration::V2 ==> (r is Ok <==> bytes@.len() == v2::GPIO_LINE_EVENT_SIZE && {
            let id = crate::utils::le_u32(bytes@, 8);
            (id == v2::GPIO_LINE_EVENT_RISING_EDGE || id == v2::GPIO_LINE_EVENT_FALLING_EDGE)
                && index.lookup(crate::utils::le_u32(bytes@, 12)) is Some
        }),
        abi == AbiGeneration::V2 && r is Ok ==> r->Ok_0 == (Event {
            line: index.lookup(crate::utils::le_u32(bytes@, 12))->Some_0,
            edge: if crate::utils::le_u32(bytes@, 8) == v2::GPIO_LINE_EVENT_RISING_EDGE {
                Edge::Rising
            } else {
                Edge::Falling
            },
            time: Time { nanos: crate::utils::le_u64(bytes@, 0) },
        }),
        abi == AbiGeneration::V2 && r is Err ==> r->Err_0.kind == ErrorKind::InvalidData,
{
    match abi {
        AbiGeneration::V1 => Err(unsupported("Line events need the second ABI generation")),
        AbiGeneration::V2 => {
            let raw = v2::GpioLineEvent::from_bytes(bytes)?;
            raw.as_event(index)
        },
    }
}

/// GPIO lines values interface info
#[derive(Debug, Clone)]
pub struct ValuesInfo {
    chip_name: String,
    consumer: String,
    lines: Vec<LineId>,
    index: LineMap,
}

impl ValuesInfo {
    /// Name of the chip.
    pub closed spec fn spec_chip_name(&self) -> Seq<char> {
        self.chip_name@
    }

    /// Consumer label.
    pub closed spec fn spec_consumer(&self) -> Seq<char> {
        self.consumer@
    }

    /// Offsets of the requested lines.
    pub closed spec fn spec_lines(&self) -> Seq<LineId> {
        self.lines@
    }

    /// Offset to bit position mapping.
    pub closed spec fn spec_index(&self) -> LineMap {
        self.index
    }

    /// Information on granted lines of chip `chip_name`.
    pub fn new(chip_name: &str, consumer: &str, lines: &[LineId]) -> (r: Self)
        requires
            lines@.len() <= 64,
        ensures
            r.spec_chip_name() == chip_name@,
            r.spec_consumer() == consumer@,
            r.spec_lines() == lines@,
            forall|line: LineId| #[trigger]
                r.spec_index().lookup(line) == match last_index_of(lines@, line) {
                    Some(i) => Some(i as u8),
                    None => None,
                },
    {
        ValuesInfo {
            chip_name: chip_name.to_owned(),
            consumer: consumer.to_owned(),
            lines: copy_lines(lines),
            index: LineMap::new(lines),
        }
    }

    /// Text form: chip name, quoted consumer and the list of offsets.
    pub open spec fn text(&self) -> Seq<char> {
        self.spec_chip_name() + " "@ + debug_quoted(self.spec_consumer()) + " "@ + "["@ + decimal_list(
            self.spec_lines(),
        ) + "]"@
    }

    /// The text form.
    pub fn to_string(&self) -> (r: String)
        ensures
            r@ == self.text(),
    {
        let mut r = String::new();
        push_text(&mut r, self.chip_name.as_str());
        push_text(&mut r, " ");
        push_debug_quoted(&mut r, self.consumer.as_str());
        push_text(&mut r, " ");
        push_decimal_list(&mut r, self.lines.as_slice());
        assert(r@ =~= self.text());
        r
    }

    /// Get associated chip name
    pub fn chip_name(&self) -> (r: &str)
        ensures
            r@ == self.spec_chip_name(),
    {
        self.chip_name.as_str()
    }

    /// Get consumer string
    pub fn consumer(&self) -> (r: &str)
        ensures
            r@ == self.spec_consumer(),
    {
        self.consumer.as_str()
    }

    /// Get offsets of requested lines
    pub fn lines(&self) -> (r: &[LineId])
        ensures
            r@ == self.spec_lines(),
    {
        self.lines.as_slice()
    }

    /// Get offset to bit position mapping
    pub fn index(&self) -> (r: &LineMap)
        ensures
            *r == self.spec_index(),
    {
        &self.index
    }
}

/// Chip information record.
#[derive(Debug, Clone, Copy)]
pub struct GpioChipInfo {
    pub name: [u8; 32],
    pub label: [u8; 32],
    pub lines: u32,
}

/// Size in bytes of a chip information record.
pub const GPIO_CHIP_INFO_SIZE: usize = 68;

impl GpioChipInfo {
    /// Reads the record field by field; fails with `InvalidData` unless there are
    /// exactly `GPIO_CHIP_INFO_SIZE` bytes.
    pub fn from_bytes(b: &[u8]) -> (r: Result<Self>)
        ensures
            r is Ok <==> b@.len() == GPIO_CHIP_INFO_SIZE,
            r is Ok ==> {
                let c = r->Ok_0;
                &&& c.name@ == b@.subrange(0, 32)
                &&& c.label@ == b@.subrange(32, 64)
                &&& c.lines == le_u32(b@, 64)
            },
            r is Err ==> is_error(r->Err_0, ErrorKind::InvalidData, "Unexpected size"),
    {
        check_size(b.len(), GPIO_CHIP_INFO_SIZE)?;
        Ok(GpioChipInfo { name: read_array(b, 0), label: read_array(b, 32), lines: read_u32(b, 64) })
    }
}

/// GPIO chip interface info
#[derive(Debug, Clone)]
pub struct ChipInfo {
    name: String,
    label: String,
    num_lines: LineId,
}

impl ChipInfo {
    /// Chip name.
    pub closed spec fn spec_name(&self) -> Seq<char> {
        self.name@
    }

    /// Chip label.
    pub closed spec fn spec_label(&self) -> Seq<char> {
        self.label@
    }

    /// Number of lines.
    pub closed spec fn spec_num_lines(&self) -> LineId {
        self.num_lines
    }

    /// Decodes a chip information record; fails with `InvalidData` where the name or
    /// label is not UTF-8.
    pub fn from_raw(raw: &GpioChipInfo) -> (r: Result<ChipInfo>)
        ensures
            r is Ok <==> valid_utf8(trim_nul(raw.name@)) && valid_utf8(trim_nul(raw.label@)),
            r is Ok ==> r->Ok_0.spec_name() == decode_utf8(trim_nul(raw.name@))
                && r->Ok_0.spec_label() == decode_utf8(trim_nul(raw.label@))
                && r->Ok_0.spec_num_lines() == raw.lines,
            r is Err ==> is_error(r->Err_0, ErrorKind::InvalidData, "Invalid UTF-8"),
    {
        let name = safe_get_str(raw.name.as_slice())?;
        let label = safe_get_str(raw.label.as_slice())?;
        proof {
            vstd::utf8::encode_utf8_decode_utf8(name@);
            vstd::utf8::encode_utf8_decode_utf8(label@);
        }
        Ok(ChipInfo { name: name.to_owned(), label: label.to_owned(), num_lines: raw.lines })
    }

    /// Text form: name, label in brackets and the number of lines.
    pub open spec fn text(&self) -> Seq<char> {
        self.spec_name() + " ["@ + self.spec_label() + "] ("@ + decimal(self.spec_num_lines() as nat)
            + " lines)"@
    }

    /// The text form.
    pub fn to_string(&self) -> (r: String)
        ensures
            r@ == self.text(),
    {
        let mut r = String::new();
        push_text(&mut r, self.name.as_str());
        push_text(&mut r, " [");
        push_text(&mut r, self.label.as_str());
        push_text(&mut r, "] (");
        push_decimal(&mut r, self.num_lines as u64);
        push_text(&mut r, " lines)");
        assert(r@ =~= self.text());
        r
    }

    /// Get chip name
    pub fn name(&self) -> (r: &str)
        ensures
            r@ == self.spec_name(),
    {
        self.name.as_str()
    }

    /// Get chip label
    pub fn label(&self) -> (r: &str)
        ensures
            r@ == self.spec_label(),
    {
        self.label.as_str()
    }

    /// Get number of GPIO lines
    pub fn num_lines(&self) -> (r: LineId)
        ensures
            r == self.spec_num_lines(),
    {
        self.num_lines
    }
}

} // verus!
