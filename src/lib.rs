//! Encoding and decoding layer for Linux GPIO character devices: line values with a
//! validity mask, the offset-to-bit index of a line request, and the binary request,
//! line-info and event records of both kernel ABI generations.

pub mod request;
pub mod types;
pub mod utils;
pub mod v1;
pub mod v2;
pub mod values;

pub use request::{
    decode_event, AbiGeneration, ChipInfo, DirectionType, EncodedRequest, GpioChipInfo, Input, Options,
    Output, RawLineRequest, ValuesInfo, GPIO_CHIP_INFO_SIZE,
};
pub use types::{
    decode_line_info, text_eq, Active, Bias, BitId, Direction, Drive, Edge, EdgeDetect, Event,
    LineFlags, LineId, LineInfo, LineMap,
};
pub use utils::{
    check_len, check_len_str, check_size, invalid_data, invalid_input, is_set, major, minor,
    safe_get_str, safe_set_str, time_from_nanos, unsupported, Error, ErrorKind, Result, Time,
};
pub use values::{
    copy_values, Alignment, AsValues, AsValuesMut, Bits, FormatSpec, Masked, Values, MAX_BITS,
    MAX_VALUES,
};
