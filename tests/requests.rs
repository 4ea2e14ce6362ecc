use gpiod_core::v1::{
    GpioHandleData, GpioHandleRequest, GPIOHANDLE_REQUEST_ACTIVE_LOW,
    GPIOHANDLE_REQUEST_BIAS_PULL_UP, GPIOHANDLE_REQUEST_INPUT, GPIOHANDLE_REQUEST_OPEN_DRAIN,
    GPIOHANDLE_REQUEST_OUTPUT,
};
use gpiod_core::v2::{
    GpioLineRequest, GPIO_LINE_ATTR_ID_OUTPUT_VALUES, GPIO_LINE_FLAG_ACTIVE_LOW,
    GPIO_LINE_FLAG_BIAS_DISABLED, GPIO_LINE_FLAG_BIAS_PULL_DOWN,
    GPIO_LINE_FLAG_BIAS_PULL_UP, GPIO_LINE_FLAG_EDGE_FALLING, GPIO_LINE_FLAG_EDGE_RISING,
    GPIO_LINE_FLAG_INPUT, GPIO_LINE_FLAG_OPEN_DRAIN, GPIO_LINE_FLAG_OPEN_SOURCE,
    GPIO_LINE_FLAG_OUTPUT,
};
use gpiod_core::{Input, Output};
use gpiod_core::{
    AbiGeneration, Active, Bias, Direction, Drive, EdgeDetect, ErrorKind, LineMap, Options,
    RawLineRequest, Values,
};

#[test]
fn input_options() {
    let o = Options::input(&[27, 1, 19])
        .bias(Bias::PullUp)
        .active(Active::Low)
        .edge(EdgeDetect::Both)
        .consumer("gpin");
    assert_eq!(o.lines, vec![27, 1, 19]);
    assert_eq!(o.direction, Direction::Input);
    assert_eq!(o.active, Active::Low);
    assert_eq!(o.edge, Some(EdgeDetect::Both));
    assert_eq!(o.bias, Some(Bias::PullUp));
    assert_eq!(o.consumer, "gpin");
}

#[test]
fn output_options() {
    let o = Options::output(&[11, 2])
        .bias(Bias::PullUp)
        .active(Active::Low)
        .consumer("gpout")
        .drive(Drive::OpenDrain)
        .values(Values::from_bools(&[true, false]));
    assert_eq!(o.lines, vec![11, 2]);
    assert_eq!(o.direction, Direction::Output);
    assert_eq!(o.drive, Some(Drive::OpenDrain));
    assert_eq!(o.values, Some(Values { bits: 0b10, mask: 0b11 }));
    assert_eq!(o.consumer, "gpout");
}

fn drive_bits() -> u64 {
    GPIO_LINE_FLAG_OPEN_DRAIN | GPIO_LINE_FLAG_OPEN_SOURCE
}

#[test]
fn encode_input_scenario() {
    let o = Options::input(&[27, 1, 19])
        .bias(Bias::PullUp)
        .active(Active::Low)
        .edge(EdgeDetect::Both)
        .consumer("gpin");
    let enc = o.encode(AbiGeneration::V2).unwrap();
    let q = match enc.request {
        RawLineRequest::V2(q) => q,
        RawLineRequest::V1(_) => panic!("wrong generation"),
    };
    let f = q.config.flags;
    assert_eq!(f & GPIO_LINE_FLAG_BIAS_PULL_UP, GPIO_LINE_FLAG_BIAS_PULL_UP);
    assert_eq!(f & GPIO_LINE_FLAG_ACTIVE_LOW, GPIO_LINE_FLAG_ACTIVE_LOW);
    assert_eq!(f & GPIO_LINE_FLAG_EDGE_RISING, GPIO_LINE_FLAG_EDGE_RISING);
    assert_eq!(f & GPIO_LINE_FLAG_EDGE_FALLING, GPIO_LINE_FLAG_EDGE_FALLING);
    assert_eq!(f & drive_bits(), 0);
    assert_eq!(f & GPIO_LINE_FLAG_OUTPUT, 0);
    assert_eq!(
        f,
        GPIO_LINE_FLAG_INPUT
            | GPIO_LINE_FLAG_ACTIVE_LOW
            | GPIO_LINE_FLAG_EDGE_RISING
            | GPIO_LINE_FLAG_EDGE_FALLING
            | GPIO_LINE_FLAG_BIAS_PULL_UP
    );
    assert_eq!(q.num_lines, 3);
    assert_eq!(&q.offsets[..4], &[27, 1, 19, 0]);
    assert_eq!(&q.consumer[..5], b"gpin\0");
    assert_eq!(q.config.num_attrs, 0);
    assert!(enc.initial_values.is_none());
    assert_eq!(enc.index.get(27).unwrap(), 0);
    assert_eq!(enc.index.get(1).unwrap(), 1);
    assert_eq!(enc.index.get(19).unwrap(), 2);
    assert!(enc.index.get(2).is_err());
}

#[test]
fn encode_output_with_values() {
    let v = Values::from_bools(&[true, false]);
    let q = GpioLineRequest::new(
        &[11, 2],
        Direction::Output,
        Active::High,
        Some(EdgeDetect::Both),
        Some(Bias::Disable),
        Some(Drive::OpenDrain),
        Some(v),
        "gpout",
    )
    .unwrap();
    let f = q.config.flags;
    assert_eq!(
        f,
        GPIO_LINE_FLAG_INPUT
            | GPIO_LINE_FLAG_OUTPUT
            | GPIO_LINE_FLAG_BIAS_DISABLED
            | GPIO_LINE_FLAG_OPEN_DRAIN
    );
    assert_eq!(q.config.num_attrs, 1);
    assert_eq!(q.config.attrs[0].attr.id, GPIO_LINE_ATTR_ID_OUTPUT_VALUES);
    assert_eq!(q.config.attrs[0].attr.value, 0b10);
    assert_eq!(q.config.attrs[0].mask, 0b11);
}

#[test]
fn encode_drive_bits_only_for_non_push_pull_outputs() {
    for drive in [None, Some(Drive::PushPull), Some(Drive::OpenDrain), Some(Drive::OpenSource)] {
        let q = GpioLineRequest::new(&[1], Direction::Input, Active::High, None, None, drive, None, "")
            .unwrap();
        assert_eq!(q.config.flags & drive_bits(), 0);
    }
    let q = GpioLineRequest::new(
        &[1],
        Direction::Output,
        Active::High,
        None,
        Some(Bias::PullDown),
        Some(Drive::PushPull),
        None,
        "",
    )
    .unwrap();
    assert_eq!(q.config.flags & drive_bits(), 0);
    assert_eq!(q.config.flags & GPIO_LINE_FLAG_BIAS_PULL_DOWN, GPIO_LINE_FLAG_BIAS_PULL_DOWN);
    let q = GpioLineRequest::new(
        &[1],
        Direction::Output,
        Active::High,
        None,
        None,
        Some(Drive::OpenSource),
        None,
        "",
    )
    .unwrap();
    assert_eq!(q.config.flags & drive_bits(), GPIO_LINE_FLAG_OPEN_SOURCE);
}

#[test]
fn encode_input_ignores_initial_values() {
    let q = GpioLineRequest::new(
        &[1],
        Direction::Input,
        Active::High,
        None,
        None,
        None,
        Some(Values::from(1u8)),
        "",
    )
    .unwrap();
    assert_eq!(q.config.num_attrs, 0);
}

#[test]
fn encode_too_many_lines() {
    let lines: Vec<u32> = (0..65).collect();
    for abi in [AbiGeneration::V1, AbiGeneration::V2] {
        let e = Options::input(&lines).encode(abi).unwrap_err();
        assert_eq!(e.kind, ErrorKind::InvalidInput);
        assert_eq!(e.message, "Too many lines");
    }
    let lines: Vec<u32> = (0..64).collect();
    assert!(Options::output(&lines).encode(AbiGeneration::V2).is_ok());
}

#[test]
fn encode_consumer_too_long() {
    let label = "c".repeat(32);
    let e = Options::input(&[1]).consumer(&label).encode(AbiGeneration::V2).unwrap_err();
    assert_eq!(e.kind, ErrorKind::InvalidInput);
    assert_eq!(e.message, "String too long");
    let label = "c".repeat(31);
    let enc = Options::input(&[1]).consumer(&label).encode(AbiGeneration::V1).unwrap();
    match enc.request {
        RawLineRequest::V1(q) => {
            assert_eq!(&q.consumer_label[..31], label.as_bytes());
            assert_eq!(q.consumer_label[31], 0);
        }
        RawLineRequest::V2(_) => panic!("wrong generation"),
    }
}

#[test]
fn encode_first_generation() {
    let q = GpioHandleRequest::new(
        &[5, 7],
        Direction::Output,
        Active::Low,
        Some(Bias::PullUp),
        Some(Drive::OpenDrain),
        "out",
    )
    .unwrap();
    assert_eq!(
        q.flags,
        GPIOHANDLE_REQUEST_OUTPUT
            | GPIOHANDLE_REQUEST_ACTIVE_LOW
            | GPIOHANDLE_REQUEST_BIAS_PULL_UP
            | GPIOHANDLE_REQUEST_OPEN_DRAIN
    );
    assert_eq!(q.lines, 2);
    assert_eq!(&q.line_offsets[..3], &[5, 7, 0]);
    let q = GpioHandleRequest::new(&[5], Direction::Input, Active::High, None, Some(Drive::OpenDrain), "")
        .unwrap();
    assert_eq!(q.flags, GPIOHANDLE_REQUEST_INPUT);
}

#[test]
fn first_generation_rejects_edge_detection() {
    let o = Options::input(&[3]).edge(EdgeDetect::Rising);
    let e = o.encode(AbiGeneration::V1).unwrap_err();
    assert_eq!(e.kind, ErrorKind::Unsupported);
    assert!(Options::input(&[3]).edge(EdgeDetect::Disable).encode(AbiGeneration::V1).is_ok());
    assert!(o.encode(AbiGeneration::V2).is_ok());
}

#[test]
fn first_generation_initial_values() {
    let o = Options::output(&[4, 9, 6]).values(Values::from_bools(&[true, false, true]));
    let enc = o.encode(AbiGeneration::V1).unwrap();
    let data = enc.initial_values.unwrap();
    assert_eq!(&data.values[..4], &[1, 0, 1, 0]);
    let mut back = Values::default();
    data.fill_values(3, &mut back);
    assert_eq!(back, Values { bits: 0b101, mask: 0b111 });
    let v = Values { bits: 0b11, mask: 0b01 };
    assert_eq!(&GpioHandleData::from_values(3, &v).values[..3], &[1, 0, 0]);
}

#[test]
fn line_index_resolves_offsets() {
    let lines = [27u32, 1, 19, 100];
    let map = LineMap::new(&lines);
    for (i, l) in lines.iter().enumerate() {
        assert_eq!(map.get(*l).unwrap(), i as u8);
    }
    for other in [0u32, 2, 18, 20, 99, 101, u32::MAX] {
        let e = map.get(other).unwrap_err();
        assert_eq!(e.kind, ErrorKind::InvalidData);
        assert_eq!(e.message, "Unknown line offset");
    }
    let empty = LineMap::new(&[]);
    assert!(empty.get(0).is_err());
    let dup = LineMap::new(&[4, 4]);
    assert_eq!(dup.get(4).unwrap(), 1);
}

#[test]
fn options_for_direction_type() {
    let o = Options::for_direction::<Output>(&[1, 2]);
    assert_eq!(o.direction, Direction::Output);
    assert_eq!(o.lines, vec![1, 2]);
    assert_eq!(Options::for_direction::<Input>(&[7]).direction, Direction::Input);
}
