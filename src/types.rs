use vstd::prelude::*;
use crate::utils::{
    decimal, debug_quoted, invalid_data, invalid_input, is_error, push_debug_quoted, push_decimal,
    push_text, safe_get_str, trim_nul, Error, ErrorKind, Result, Time,
};
use vstd::utf8::{decode_utf8, valid_utf8};

verus! {

/// Line offset
pub type LineId = u32;

/// Bit offset
pub type BitId = u8;

/// Marks an offset that no requested line has.
pub const NOT_LINE: BitId = 64;

/// Whether two texts hold the same characters.
pub fn text_eq(a: &str, b: &str) -> (r: bool)
    ensures
        r == (a@ == b@),
{
    let n = a.unicode_len();
    if n != b.unicode_len() {
        return false;
    }
    let mut i: usize = 0;
    while i < n
        invariant
            n == a@.len(),
            n == b@.len(),
            i <= n,
            forall|k: int| 0 <= k < i ==> a@[k] == b@[k],
        decreases n - i,
    {
        if a.get_char(i) != b.get_char(i) {
            return false;
        }
        i = i + 1;
    }
    assert(a@ =~= b@);
    true
}

/// Direction of a GPIO line
#[derive(Debug, Clone, Copy, PartialEq, Eq, Hash, Structural)]
pub enum Direction {
    /// Line acts as input (default)
    Input,
    /// Line acts as output
    Output,
}

/// The direction that a text token names.
pub open spec fn direction_token(t: Seq<char>) -> Option<Direction> {
    if t == "i"@ || t == "in"@ || t == "input"@ {
        Some(Direction::Input)
    } else if t == "o"@ || t == "out"@ || t == "output"@ {
        Some(Direction::Output)
    } else {
        None
    }
}

impl Direction {
    /// Name of the value.
    pub open spec fn spec_name(self) -> Seq<char> {
        match self {
            Direction::Input => "input"@,
            Direction::Output => "output"@,
        }
    }

    /// Name of the value.
    pub fn as_str(&self) -> (r: &'static str)
        ensures
            r@ == self.spec_name(),
    {
        match self {
            Direction::Input => "input",
            Direction::Output => "output",
        }
    }

    /// Reads a token; fails with `InvalidInput` on a text that names no value.
    pub fn parse(s: &str) -> (r: Result<Direction>)
        ensures
            r is Ok <==> direction_token(s@) is Some,
            r is Ok ==> r->Ok_0 == direction_token(s@)->Some_0,
            r is Err ==> is_error(r->Err_0, ErrorKind::InvalidInput, "Not recognized direction"),
    {
        if text_eq(s, "i") || text_eq(s, "in") || text_eq(s, "input") {
            Ok(Direction::Input)
        } else if text_eq(s, "o") || text_eq(s, "out") || text_eq(s, "output") {
            Ok(Direction::Output)
        } else {
            Err(invalid_input("Not recognized direction"))
        }
    }
}

impl core::str::FromStr for Direction {
    type Err = Error;

    fn from_str(s: &str) -> core::result::Result<Direction, Error> {
        Direction::parse(s)
    }
}

impl Default for Direction {
    fn default() -> (r: Direction)
        ensures
            r == Direction::Input,
    {
        Direction::Input
    }
}

/// Active state condition of a line
///
/// If active state of line is **high** then physical and logical levels is same.
/// Otherwise if it is **low** then physical level will be inverted from logical.
#[derive(Debug, Clone, Copy, PartialEq, Eq, Hash, Structural)]
pub enum Active {
    /// Active level is low
    Low,
    /// Active level is high (default)
    High,
}

/// The active state that a text token names.
pub open spec fn active_token(t: Seq<char>) -> Option<Active> {
    if t == "l"@ || t == "lo"@ || t == "low"@ || t == "active-low"@ {
        Some(Active::Low)
    } else if t == "h"@ || t == "hi"@ || t == "high"@ || t == "active-high"@ {
        Some(Active::High)
    } else {
        None
    }
}

impl Active {
    /// Name of the value.
    pub open spec fn spec_name(self) -> Seq<char> {
        match self {
            Active::Low => "low"@,
            Active::High => "high"@,
        }
    }

    /// Name of the value.
    pub fn as_str(&self) -> (r: &'static str)
        ensures
            r@ == self.spec_name(),
    {
        match self {
            Active::Low => "low",
            Active::High => "high",
        }
    }

    /// Reads a token; fails with `InvalidInput` on a text that names no value.
    pub fn parse(s: &str) -> (r: Result<Active>)
        ensures
            r is Ok <==> active_token(s@) is Some,
            r is Ok ==> r->Ok_0 == active_token(s@)->Some_0,
            r is Err ==> is_error(r->Err_0, ErrorKind::InvalidInput, "Not recognized active state"),
    {
        if text_eq(s, "l") || text_eq(s, "lo") || text_eq(s, "low") || text_eq(s, "active-low") {
            Ok(Active::Low)
        } else if text_eq(s, "h") || text_eq(s, "hi") || text_eq(s, "high") || text_eq(s, "active-high") {
            Ok(Active::High)
        } else {
            Err(invalid_input("Not recognized active state"))
        }
    }
}

impl core::str::FromStr for Active {
    type Err = Error;

    fn from_str(s: &str) -> core::result::Result<Active, Error> {
        Active::parse(s)
    }
}

impl Default for Active {
    fn default() -> (r: Active)
        ensures
            r == Active::High,
    {
        Active::High
    }
}

/// Signal edge or level transition of a GPIO line
#[derive(Debug, Clone, Copy, PartialEq, Eq, Hash, Structural)]
pub enum Edge {
    /// Rising edge detected
    Rising,
    /// Falling edge detected
    Falling,
}

/// The edge that a text token names.
pub open spec fn edge_token(t: Seq<char>) -> Option<Edge> {
    if t == "r"@ || t == "rise"@ || t == "rising"@ {
        Some(Edge::Rising)
    } else if t == "f"@ || t == "fall"@ || t == "falling"@ {
        Some(Edge::Falling)
    } else {
        None
    }
}

impl Edge {
    /// Name of the value.
    pub open spec fn spec_name(self) -> Seq<char> {
        match self {
            Edge::Rising => "rising"@,
            Edge::Falling => "falling"@,
        }
    }

    /// Name of the value.
    pub fn as_str(&self) -> (r: &'static str)
        ensures
            r@ == self.spec_name(),
    {
        match self {
            Edge::Rising => "rising",
            Edge::Falling => "falling",
        }
    }

    /// Reads a token; fails with `InvalidInput` on a text that names no value.
    pub fn parse(s: &str) -> (r: Result<Edge>)
        ensures
            r is Ok <==> edge_token(s@) is Some,
            r is Ok ==> r->Ok_0 == edge_token(s@)->Some_0,
            r is Err ==> is_error(r->Err_0, ErrorKind::InvalidInput, "Not recognized edge"),
    {
        if text_eq(s, "r") || text_eq(s, "rise") || text_eq(s, "rising") {
            Ok(Edge::Rising)
        } else if text_eq(s, "f") || text_eq(s, "fall") || text_eq(s, "falling") {
            Ok(Edge::Falling)
        } else {
            Err(invalid_input("Not recognized edge"))
        }
    }
}

impl core::str::FromStr for Edge {
    type Err = Error;

    fn from_str(s: &str) -> core::result::Result<Edge, Error> {
        Edge::parse(s)
    }
}

/// Edge detection setting for GPIO line
#[derive(Debug, Clone, Copy, PartialEq, Eq, Hash, Structural)]
pub enum EdgeDetect {
    /// Detection disabled (default)
    Disable,
    /// Detect rising edge only
    Rising,
    /// Detect falling edge only
    Falling,
    /// Detect both rising and falling edges
    Both,
}

/// The edge-detect that a text token names.
pub open spec fn edge_detect_token(t: Seq<char>) -> Option<EdgeDetect> {
    if t == "d"@ || t == "dis"@ || t == "disable"@ {
        Some(EdgeDetect::Disable)
    } else if t == "r"@ || t == "rise"@ || t == "rising"@ {
        Some(EdgeDetect::Rising)
    } else if t == "f"@ || t == "fall"@ || t == "falling"@ {
        Some(EdgeDetect::Falling)
    } else if t == "b"@ || t == "both"@ || t == "rise-fall"@ || t == "rising-falling"@ {
        Some(EdgeDetect::Both)
    } else {
        None
    }
}

impl EdgeDetect {
    /// Name of the value.
    pub open spec fn spec_name(self) -> Seq<char> {
        match self {
            EdgeDetect::Disable => "disable"@,
            EdgeDetect::Rising => "rising"@,
            EdgeDetect::Falling => "falling"@,
            EdgeDetect::Both => "both"@,
        }
    }

    /// Name of the value.
    pub fn as_str(&self) -> (r: &'static str)
        ensures
            r@ == self.spec_name(),
    {
        match self {
            EdgeDetect::Disable => "disable",
            EdgeDetect::Rising => "rising",
            EdgeDetect::Falling => "falling",
            EdgeDetect::Both => "both",
        }
    }

    /// Reads a token; fails with `InvalidInput` on a text that names no value.
    pub fn parse(s: &str) -> (r: Result<EdgeDetect>)
        ensures
            r is Ok <==> edge_detect_token(s@) is Some,
            r is Ok ==> r->Ok_0 == edge_detect_token(s@)->Some_0,
            r is Err ==> is_error(r->Err_0, ErrorKind::InvalidInput, "Not recognized edge-detect"),
    {
        if text_eq(s, "d") || text_eq(s, "dis") || text_eq(s, "disable") {
            Ok(EdgeDetect::Disable)
        } else if text_eq(s, "r") || text_eq(s, "rise") || text_eq(s, "rising") {
            Ok(EdgeDetect::Rising)
        } else if text_eq(s, "f") || text_eq(s, "fall") || text_eq(s, "falling") {
            Ok(EdgeDetect::Falling)
        } else if text_eq(s, "b") || text_eq(s, "both") || text_eq(s, "rise-fall") || text_eq(s, "rising-falling") {
            Ok(EdgeDetect::Both)
        } else {
            Err(invalid_input("Not recognized edge-detect"))
        }
    }
}

impl core::str::FromStr for EdgeDetect {
    type Err = Error;

    fn from_str(s: &str) -> core::result::Result<EdgeDetect, Error> {
        EdgeDetect::parse(s)
    }
}

impl Default for EdgeDetect {
    fn default() -> (r: EdgeDetect)
        ensures
            r == EdgeDetect::Disable,
    {
        EdgeDetect::Disable
    }
}

/// Input bias of a GPIO line
///
/// Lines may be pulled up (power rail) or down (ground) through a resistor to avoid
/// a floating level.
#[derive(Debug, Clone, Copy, PartialEq, Eq, Hash, Structural)]
pub enum Bias {
    /// Disabled bias (default)
    Disable,
    /// Pull line up
    PullUp,
    /// Pull line down
    PullDown,
}

/// The input bias that a text token names.
pub open spec fn bias_token(t: Seq<char>) -> Option<Bias> {
    if t == "d"@ || t == "dis"@ || t == "disable"@ {
        Some(Bias::Disable)
    } else if t == "pu"@ || t == "pull-up"@ {
        Some(Bias::PullUp)
    } else if t == "pd"@ || t == "pull-down"@ {
        Some(Bias::PullDown)
    } else {
        None
    }
}

impl Bias {
    /// Name of the value.
    pub open spec fn spec_name(self) -> Seq<char> {
        match self {
            Bias::Disable => "disable"@,
            Bias::PullUp => "pull-up"@,
            Bias::PullDown => "pull-down"@,
        }
    }

    /// Name of the value.
    pub fn as_str(&self) -> (r: &'static str)
        ensures
            r@ == self.spec_name(),
    {
        match self {
            Bias::Disable => "disable",
            Bias::PullUp => "pull-up",
            Bias::PullDown => "pull-down",
        }
    }

    /// Reads a token; fails with `InvalidInput` on a text that names no value.
    pub fn parse(s: &str) -> (r: Result<Bias>)
        ensures
            r is Ok <==> bias_token(s@) is Some,
            r is Ok ==> r->Ok_0 == bias_token(s@)->Some_0,
            r is Err ==> is_error(r->Err_0, ErrorKind::InvalidInput, "Not recognized input bias"),
    {
        if text_eq(s, "d") || text_eq(s, "dis") || text_eq(s, "disable") {
            Ok(Bias::Disable)
        } else if text_eq(s, "pu") || text_eq(s, "pull-up") {
            Ok(Bias::PullUp)
        } else if text_eq(s, "pd") || text_eq(s, "pull-down") {
            Ok(Bias::PullDown)
        } else {
            Err(invalid_input("Not recognized input bias"))
        }
    }
}

impl core::str::FromStr for Bias {
    type Err = Error;

    fn from_str(s: &str) -> core::result::Result<Bias, Error> {
        Bias::parse(s)
    }
}

impl Default for Bias {
    fn default() -> (r: Bias)
        ensures
            r == Bias::Disable,
    {
        Bias::Disable
    }
}

/// Output drive mode of a GPIO line
#[derive(Debug, Clone, Copy, PartialEq, Eq, Hash, Structural)]
pub enum Drive {
    /// Drive push-pull (default)
    PushPull,
    /// Drive with open-drain
    OpenDrain,
    /// Drive with open-source
    OpenSource,
}

/// The output drive that a text token names.
pub open spec fn drive_token(t: Seq<char>) -> Option<Drive> {
    if t == "pp"@ || t == "push-pull"@ {
        Some(Drive::PushPull)
    } else if t == "od"@ || t == "open-drain"@ {
        Some(Drive::OpenDrain)
    } else if t == "os"@ || t == "open-source"@ {
        Some(Drive::OpenSource)
    } else {
        None
    }
}

impl Drive {
    /// Name of the value.
    pub open spec fn spec_name(self) -> Seq<char> {
        match self {
            Drive::PushPull => "push-pull"@,
            Drive::OpenDrain => "open-drain"@,
            Drive::OpenSource => "open-source"@,
        }
    }

    /// Name of the value.
    pub fn as_str(&self) -> (r: &'static str)
        ensures
            r@ == self.spec_name(),
    {
        match self {
            Drive::PushPull => "push-pull",
            Drive::OpenDrain => "open-drain",
            Drive::OpenSource => "open-source",
        }
    }

    /// Reads a token; fails with `InvalidInput` on a text that names no value.
    pub fn parse(s: &str) -> (r: Result<Drive>)
        ensures
            r is Ok <==> drive_token(s@) is Some,
            r is Ok ==> r->Ok_0 == drive_token(s@)->Some_0,
            r is Err ==> is_error(r->Err_0, ErrorKind::InvalidInput, "Not recognized output drive"),
    {
        if text_eq(s, "pp") || text_eq(s, "push-pull") {
            Ok(Drive::PushPull)
        } else if text_eq(s, "od") || text_eq(s, "open-drain") {
            Ok(Drive::OpenDrain)
        } else if text_eq(s, "os") || text_eq(s, "open-source") {
            Ok(Drive::OpenSource)
        } else {
            Err(invalid_input("Not recognized output drive"))
        }
    }
}

impl core::str::FromStr for Drive {
    type Err = Error;

    fn from_str(s: &str) -> core::result::Result<Drive, Error> {
        Drive::parse(s)
    }
}

impl Default for Drive {
    fn default() -> (r: Drive)
        ensures
            r == Drive::PushPull,
    {
        Drive::PushPull
    }
}

/// The information of a specific GPIO line
#[derive(Debug, Clone)]
pub struct LineInfo {
    /// GPIO line direction
    pub direction: Direction,
    /// GPIO line active state
    pub active: Active,
    /// GPIO line edge detection
    pub edge: EdgeDetect,
    /// GPIO line usage status: `true` where the kernel uses the line
    pub used: bool,
    /// GPIO line input bias
    pub bias: Bias,
    /// GPIO line output drive mode
    pub drive: Drive,
    /// GPIO line name
    pub name: String,
    /// GPIO line consumer name
    pub consumer: String,
}

/// Bias that a pair of pull-up / pull-down bits states; both set is no valid state
/// and reads as disabled.
pub open spec fn bias_of(pull_up: bool, pull_down: bool) -> Bias {
    if pull_up && !pull_down {
        Bias::PullUp
    } else if !pull_up && pull_down {
        Bias::PullDown
    } else {
        Bias::Disable
    }
}

/// Drive that a pair of open-drain / open-source bits states; neither or both read
/// as push-pull.
pub open spec fn drive_of(open_drain: bool, open_source: bool) -> Drive {
    if open_drain && !open_source {
        Drive::OpenDrain
    } else if !open_drain && open_source {
        Drive::OpenSource
    } else {
        Drive::PushPull
    }
}

/// Edge detection that a pair of rising / falling bits states.
pub open spec fn edge_detect_of(rising: bool, falling: bool) -> EdgeDetect {
    if rising && falling {
        EdgeDetect::Both
    } else if rising {
        EdgeDetect::Rising
    } else if falling {
        EdgeDetect::Falling
    } else {
        EdgeDetect::Disable
    }
}

/// Flag bits of a line as both ABI generations report them.
#[derive(Debug, Clone, Copy, PartialEq, Eq, Structural)]
pub struct LineFlags {
    pub output: bool,
    pub active_low: bool,
    pub edge_rising: bool,
    pub edge_falling: bool,
    pub used: bool,
    pub pull_up: bool,
    pub pull_down: bool,
    pub open_drain: bool,
    pub open_source: bool,
}

/// Whether a kernel line record with these flags and text buffers decodes.
pub open spec fn line_info_decodes(name: Seq<u8>, consumer: Seq<u8>) -> bool {
    valid_utf8(trim_nul(name)) && valid_utf8(trim_nul(consumer))
}

/// Whether `info` is what the flags and text buffers of a kernel line record state.
pub open spec fn line_info_matches(info: LineInfo, f: LineFlags, name: Seq<u8>, consumer: Seq<u8>) -> bool {
    &&& info.direction == (if f.output { Direction::Output } else { Direction::Input })
    &&& info.active == (if f.active_low { Active::Low } else { Active::High })
    &&& info.edge == edge_detect_of(f.edge_rising, f.edge_falling)
    &&& info.used == f.used
    &&& info.bias == bias_of(f.pull_up, f.pull_down)
    &&& info.drive == drive_of(f.open_drain, f.open_source)
    &&& info.name@ == decode_utf8(trim_nul(name))
    &&& info.consumer@ == decode_utf8(trim_nul(consumer))
}

/// An owned copy of the text.
fn owned_text(s: &str) -> (r: String)
    ensures
        r@ == s@,
{
    s.to_owned()
}

/// Decodes the flags and the NUL-padded name and consumer buffers of a kernel line
/// record; fails with `InvalidData` where a buffer is not UTF-8.
pub fn decode_line_info(f: LineFlags, name: &[u8], consumer: &[u8]) -> (r: Result<LineInfo>)
    ensures
        r is Ok <==> line_info_decodes(name@, consumer@),
        r is Ok ==> line_info_matches(r->Ok_0, f, name@, consumer@),
        r is Err ==> is_error(r->Err_0, ErrorKind::InvalidData, "Invalid UTF-8"),
{
    let direction = if f.output {
        Direction::Output
    } else {
        Direction::Input
    };
    let active = if f.active_low {
        Active::Low
    } else {
        Active::High
    };
    let edge = match (f.edge_rising, f.edge_falling) {
        (true, false) => EdgeDetect::Rising,
        (false, true) => EdgeDetect::Falling,
        (true, true) => EdgeDetect::Both,
        _ => EdgeDetect::Disable,
    };
    let bias = match (f.pull_up, f.pull_down) {
        (true, false) => Bias::PullUp,
        (false, true) => Bias::PullDown,
        _ => Bias::Disable,
    };
    let drive = match (f.open_drain, f.open_source) {
        (true, false) => Drive::OpenDrain,
        (false, true) => Drive::OpenSource,
        _ => Drive::PushPull,
    };
    let name_text = safe_get_str(name)?;
    let consumer_text = safe_get_str(consumer)?;
    proof {
        vstd::utf8::encode_utf8_decode_utf8(name_text@);
        vstd::utf8::encode_utf8_decode_utf8(consumer_text@);
    }
    Ok(LineInfo {
        direction,
        active,
        edge,
        used: f.used,
        bias,
        drive,
        name: owned_text(name_text),
        consumer: owned_text(consumer_text),
    })
}

/// `"\t "` and the quoted text, or `absent` where the text is empty.
pub open spec fn quoted_or(t: Seq<char>, absent: Seq<char>) -> Seq<char> {
    if t.len() == 0 {
        absent
    } else {
        "\t "@ + debug_quoted(t)
    }
}

/// `"\t "` and `name` followed by `suffix` where `shown`, else nothing.
pub open spec fn shown_if(shown: bool, name: Seq<char>, suffix: Seq<char>) -> Seq<char> {
    if shown {
        "\t "@ + name + suffix
    } else {
        Seq::empty()
    }
}

/// Appends `"\t "` and the quoted text, or `absent` where the text is empty.
fn push_quoted_or(r: &mut String, t: &str, absent: &str)
    ensures
        final(r)@ == old(r)@ + quoted_or(t@, absent@),
{
    if t.is_empty() {
        push_text(r, absent);
    } else {
        push_text(r, "\t ");
        push_debug_quoted(r, t);
        proof {
            reveal_strlit("\t ");
        }
        assert(r@ =~= old(r)@ + quoted_or(t@, absent@));
    }
}

/// Appends `"\t "`, `name` and `suffix` where `shown`.
fn push_shown_if(r: &mut String, shown: bool, name: &str, suffix: &str)
    ensures
        final(r)@ == old(r)@ + shown_if(shown, name@, suffix@),
{
    if shown {
        push_text(r, "\t ");
        push_text(r, name);
        push_text(r, suffix);
        assert(r@ =~= old(r)@ + shown_if(shown, name@, suffix@));
    } else {
        assert(r@ =~= old(r)@ + shown_if(shown, name@, suffix@));
    }
}

impl LineInfo {
    /// Text form: tab-separated name, consumer, direction, active state, and the edge
    /// detection, bias, drive and use where they differ from the defaults.
    pub open spec fn text(self) -> Seq<char> {
        quoted_or(self.name@, "\t unnamed"@) + quoted_or(self.consumer@, "\t unused"@) + "\t "@
            + self.direction.spec_name() + "\t active-"@ + self.active.spec_name() + shown_if(
            self.edge != EdgeDetect::Disable,
            self.edge.spec_name(),
            "-edge"@,
        ) + shown_if(self.bias != Bias::Disable, self.bias.spec_name(), ""@) + shown_if(
            self.drive != Drive::PushPull,
            self.drive.spec_name(),
            ""@,
        ) + shown_if(self.used, "[used]"@, ""@)
    }

    /// The text form.
    pub fn to_string(&self) -> (r: String)
        ensures
            r@ == self.text(),
    {
        let mut r = String::new();
        push_quoted_or(&mut r, self.name.as_str(), "\t unnamed");
        push_quoted_or(&mut r, self.consumer.as_str(), "\t unused");
        push_text(&mut r, "\t ");
        push_text(&mut r, self.direction.as_str());
        push_text(&mut r, "\t active-");
        push_text(&mut r, self.active.as_str());
        push_shown_if(&mut r, self.edge != EdgeDetect::Disable, self.edge.as_str(), "-edge");
        push_shown_if(&mut r, self.bias != Bias::Disable, self.bias.as_str(), "");
        push_shown_if(&mut r, self.drive != Drive::PushPull, self.drive.as_str(), "");
        push_shown_if(&mut r, self.used, "[used]", "");
        assert(r@ =~= self.text());
        r
    }
}

impl Event {
    /// Text form: `#`, the bit position, the edge and the time in nanoseconds.
    pub open spec fn text(self) -> Seq<char> {
        "#"@ + decimal(self.line as nat) + " "@ + self.edge.spec_name() + " "@ + decimal(
            self.time.nanos as nat,
        )
    }

    /// The text form.
    pub fn to_string(&self) -> (r: String)
        ensures
            r@ == self.text(),
    {
        let mut r = String::new();
        push_text(&mut r, "#");
        push_decimal(&mut r, self.line as u64);
        push_text(&mut r, " ");
        push_text(&mut r, self.edge.as_str());
        push_text(&mut r, " ");
        push_decimal(&mut r, self.time.nanos);
        assert(r@ =~= self.text());
        r
    }
}

/// Signal edge detection event
#[derive(Debug, Clone, Copy, PartialEq, Eq, Structural)]
pub struct Event {
    /// Request-local bit position of the line where the edge was detected
    pub line: BitId,
    /// Detected edge or level transition
    pub edge: Edge,
    /// Time when the edge was detected
    pub time: Time,
}

/// Index of the last occurrence of `x` in `s`.
pub open spec fn last_index_of(s: Seq<LineId>, x: LineId) -> Option<int>
    decreases s.len(),
{
    if s.len() == 0 {
        None
    } else if s.last() == x {
        Some(s.len() - 1)
    } else {
        last_index_of(s.drop_last(), x)
    }
}

/// Line offset to bit position mapping
#[derive(Debug, Clone)]
pub struct LineMap {
    map: Vec<BitId>,
}

impl LineMap {
    /// Bit position of `line`, if it was requested.
    pub closed spec fn lookup(&self, line: LineId) -> Option<BitId> {
        if (line as int) < self.map@.len() && self.map@[line as int] != NOT_LINE {
            Some(self.map@[line as int])
        } else {
            None
        }
    }

    /// Maps each offset of `lines` to its position there; an offset given twice maps
    /// to its last position.
    pub fn new(lines: &[LineId]) -> (r: Self)
        requires
            lines@.len() <= 64,
        ensures
            forall|line: LineId| #[trigger]
                r.lookup(line) == match last_index_of(lines@, line) {
                    Some(i) => Some(i as BitId),
                    None => None,
                },
    {
        let mut max: LineId = 0;
        let mut i: usize = 0;
        while i < lines.len()
            invariant
                i <= lines@.len(),
                forall|k: int| 0 <= k < i ==> lines@[k] <= max,
            decreases lines@.len() - i,
        {
            if lines[i] > max {
                max = lines[i];
            }
            i = i + 1;
        }
        let mut map: Vec<BitId> = vec![NOT_LINE; max as usize];
        map.push(NOT_LINE);
        let mut i: usize = 0;
        assert(lines@.subrange(0, 0) =~= Seq::<LineId>::empty());
        while i < lines.len()
            invariant
                i <= lines@.len(),
                lines@.len() <= 64,
                map@.len() == max + 1,
                forall|k: int| 0 <= k < lines@.len() ==> lines@[k] <= max,
                forall|l: int| 0 <= l < map@.len() ==> (#[trigger] map@[l] == NOT_LINE
                    <==> last_index_of(lines@.subrange(0, i as int), l as LineId) is None),
                forall|l: int| 0 <= l < map@.len() && map@[l] != NOT_LINE ==> last_index_of(
                    lines@.subrange(0, i as int),
                    l as LineId,
                ) == Some(#[trigger] map@[l] as int),
            decreases lines@.len() - i,
        {
            let ghost prev = lines@.subrange(0, i as int);
            assert(lines@.subrange(0, i + 1).drop_last() =~= prev);
            map.set(lines[i] as usize, i as BitId);
            i = i + 1;
        }
        assert(lines@.subrange(0, lines@.len() as int) =~= lines@);
        let r = LineMap { map };
        assert forall|line: LineId| #[trigger]
            r.lookup(line) == match last_index_of(lines@, line) {
                Some(i) => Some(i as BitId),
                None => None,
            } by {
            if (line as int) >= r.map@.len() {
                lemma_last_index_absent(lines@, line);
            }
        }
        r
    }

    /// Bit position of `line`; fails where `line` was not requested.
    pub fn get(&self, line: LineId) -> (r: Result<BitId>)
        ensures
            r is Ok <==> self.lookup(line) is Some,
            r is Ok ==> r->Ok_0 == self.lookup(line)->Some_0,
            r is Err ==> is_error(r->Err_0, ErrorKind::InvalidData, "Unknown line offset"),
    {
        let l = line as usize;
        if l < self.map.len() {
            let val = self.map[l];
            if val != NOT_LINE {
                return Ok(val);
            }
        }
        Err(invalid_data("Unknown line offset"))
    }
}

proof fn lemma_last_index_absent(s: Seq<LineId>, x: LineId)
    requires
        forall|k: int| 0 <= k < s.len() ==> s[k] != x,
    ensures
        last_index_of(s, x) is None,
    decreases s.len(),
{
    if s.len() > 0 {
        lemma_last_index_absent(s.drop_last(), x);
    }
}

proof fn lemma_last_index_distinct(s: Seq<LineId>, i: int)
    requires
        0 <= i < s.len(),
        forall|a: int, b: int| 0 <= a < b < s.len() ==> s[a] != s[b],
    ensures
        last_index_of(s, s[i]) == Some(i),
    decreases s.len(),
{
    if i < s.len() - 1 {
        lemma_last_index_distinct(s.drop_last(), i);
    }
}

/// In the index of distinct offsets, the offset at position `i` maps to `i`, and an
/// offset that is not among them maps to nothing.
pub proof fn law_line_index(lines: Seq<LineId>, i: int, other: LineId)
    requires
        forall|a: int, b: int| 0 <= a < b < lines.len() ==> lines[a] != lines[b],
        0 <= i < lines.len(),
        forall|k: int| 0 <= k < lines.len() ==> lines[k] != other,
    ensures
        last_index_of(lines, lines[i]) == Some(i),
        last_index_of(lines, other) is None,
{
    lemma_last_index_distinct(lines, i);
    lemma_last_index_absent(lines, other);
}

} // verus!
