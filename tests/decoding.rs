use gpiod_core::v1::{GpioEventData, GpioLineInfo as GpioLineInfoV1, GPIOLINE_FLAG_BIAS_PULL_DOWN, GPIOLINE_FLAG_IS_OUT, GPIOLINE_FLAG_KERNEL, GPIOLINE_FLAG_OPEN_SOURCE};
use gpiod_core::v2::{
    GpioLineEvent, GpioLineInfo, GPIO_LINE_EVENT_SIZE, GPIO_LINE_FLAG_ACTIVE_LOW,
    GPIO_LINE_FLAG_BIAS_PULL_DOWN, GPIO_LINE_FLAG_BIAS_PULL_UP, GPIO_LINE_FLAG_EDGE_FALLING,
    GPIO_LINE_FLAG_EDGE_RISING, GPIO_LINE_FLAG_OPEN_DRAIN, GPIO_LINE_FLAG_OPEN_SOURCE,
    GPIO_LINE_FLAG_OUTPUT, GPIO_LINE_FLAG_USED,
};
use gpiod_core::{
    decode_event, AbiGeneration, Active, Bias, ChipInfo, Direction, Drive, Edge, EdgeDetect,
    ErrorKind, GpioChipInfo, LineMap,
};

fn buf(s: &[u8]) -> [u8; 32] {
    let mut b = [0u8; 32];
    b[..s.len()].copy_from_slice(s);
    b
}

fn event_bytes(ts: u64, id: u32, offset: u32) -> Vec<u8> {
    let mut b = vec![0u8; GPIO_LINE_EVENT_SIZE];
    b[..8].copy_from_slice(&ts.to_le_bytes());
    b[8..12].copy_from_slice(&id.to_le_bytes());
    b[12..16].copy_from_slice(&offset.to_le_bytes());
    b
}

#[test]
fn unknown_edge_is_invalid_data() {
    let map = LineMap::new(&[3, 5]);
    for id in [0u32, 3, 7, u32::MAX] {
        let ev = GpioLineEvent { timestamp_ns: 10, id, offset: 5, seqno: 0, line_seqno: 0 };
        let e = ev.as_event(&map).unwrap_err();
        assert_eq!(e.kind, ErrorKind::InvalidData);
        assert_eq!(e.message, "Unknown edge");
        let ev = GpioLineEvent { timestamp_ns: 10, id, offset: 99, seqno: 0, line_seqno: 0 };
        assert_eq!(ev.as_event(&map).unwrap_err().message, "Unknown edge");
    }
    let e = GpioEventData { timestamp: 1, id: 9 }.as_event(0).unwrap_err();
    assert_eq!(e.kind, ErrorKind::InvalidData);
    assert_eq!(e.message, "Unknown edge");
}

#[test]
fn event_decoding() {
    let map = LineMap::new(&[3, 5]);
    let ev = GpioLineEvent { timestamp_ns: 1234, id: 1, offset: 5, seqno: 0, line_seqno: 0 };
    let e = ev.as_event(&map).unwrap();
    assert_eq!(e.line, 1);
    assert_eq!(e.edge, Edge::Rising);
    assert_eq!(e.time.as_nanos(), 1234);
    let ev = GpioLineEvent { timestamp_ns: 7, id: 2, offset: 3, seqno: 0, line_seqno: 0 };
    assert_eq!(ev.as_event(&map).unwrap().edge, Edge::Falling);
    let ev = GpioLineEvent { timestamp_ns: 7, id: 2, offset: 4, seqno: 0, line_seqno: 0 };
    assert_eq!(ev.as_event(&map).unwrap_err().message, "Unknown line offset");
    let e = GpioEventData { timestamp: 99, id: 2 }.as_event(6).unwrap();
    assert_eq!((e.line, e.edge, e.time.nanos), (6, Edge::Falling, 99));
}

#[test]
fn event_from_bytes() {
    let map = LineMap::new(&[8, 13]);
    let bytes = event_bytes(0x0102_0304_0506_0708, 2, 13);
    let raw = GpioLineEvent::from_bytes(&bytes).unwrap();
    assert_eq!(raw.timestamp_ns, 0x0102_0304_0506_0708);
    assert_eq!(raw.id, 2);
    assert_eq!(raw.offset, 13);
    let e = decode_event(AbiGeneration::V2, &bytes, &map).unwrap();
    assert_eq!((e.line, e.edge, e.time.nanos), (1, Edge::Falling, 0x0102_0304_0506_0708));
    let e = decode_event(AbiGeneration::V2, &bytes[..47], &map).unwrap_err();
    assert_eq!(e.kind, ErrorKind::InvalidData);
    assert_eq!(e.message, "Unexpected size");
    let e = decode_event(AbiGeneration::V1, &bytes, &map).unwrap_err();
    assert_eq!(e.kind, ErrorKind::Unsupported);
    let raw = GpioEventData::from_bytes(&bytes[..16]).unwrap();
    assert_eq!((raw.timestamp, raw.id), (0x0102_0304_0506_0708, 2));
    assert!(GpioEventData::from_bytes(&bytes).is_err());
}

#[test]
fn line_info_second_generation() {
    let info = GpioLineInfo {
        name: buf(b"led0"),
        consumer: buf(b"kernel"),
        offset: 4,
        num_attrs: 0,
        flags: GPIO_LINE_FLAG_OUTPUT
            | GPIO_LINE_FLAG_ACTIVE_LOW
            | GPIO_LINE_FLAG_USED
            | GPIO_LINE_FLAG_EDGE_FALLING
            | GPIO_LINE_FLAG_BIAS_PULL_UP
            | GPIO_LINE_FLAG_OPEN_SOURCE,
    }
    .as_info()
    .unwrap();
    assert_eq!(info.direction, Direction::Output);
    assert_eq!(info.active, Active::Low);
    assert_eq!(info.edge, EdgeDetect::Falling);
    assert!(info.used);
    assert_eq!(info.bias, Bias::PullUp);
    assert_eq!(info.drive, Drive::OpenSource);
    assert_eq!(info.name, "led0");
    assert_eq!(info.consumer, "kernel");

    let info = GpioLineInfo {
        name: [0; 32],
        consumer: [0; 32],
        offset: 0,
        num_attrs: 0,
        flags: GPIO_LINE_FLAG_EDGE_RISING
            | GPIO_LINE_FLAG_EDGE_FALLING
            | GPIO_LINE_FLAG_BIAS_PULL_UP
            | GPIO_LINE_FLAG_BIAS_PULL_DOWN
            | GPIO_LINE_FLAG_OPEN_DRAIN
            | GPIO_LINE_FLAG_OPEN_SOURCE,
    }
    .as_info()
    .unwrap();
    assert_eq!(info.direction, Direction::Input);
    assert_eq!(info.active, Active::High);
    assert_eq!(info.edge, EdgeDetect::Both);
    assert!(!info.used);
    assert_eq!(info.bias, Bias::Disable);
    assert_eq!(info.drive, Drive::PushPull);
    assert_eq!(info.name, "");
}

#[test]
fn line_info_first_generation() {
    let info = GpioLineInfoV1 {
        line_offset: 2,
        flags: GPIOLINE_FLAG_IS_OUT | GPIOLINE_FLAG_KERNEL | GPIOLINE_FLAG_BIAS_PULL_DOWN | GPIOLINE_FLAG_OPEN_SOURCE,
        name: buf(b"button"),
        consumer: buf(b""),
    }
    .as_info()
    .unwrap();
    assert_eq!(info.direction, Direction::Output);
    assert_eq!(info.edge, EdgeDetect::Disable);
    assert!(info.used);
    assert_eq!(info.bias, Bias::PullDown);
    assert_eq!(info.drive, Drive::OpenSource);
    assert_eq!(info.name, "button");
    assert_eq!(info.consumer, "");
}

#[test]
fn line_info_rejects_invalid_utf8() {
    let mut name = buf(b"ab");
    name[2] = 0xff;
    let e = GpioLineInfo { name, consumer: [0; 32], offset: 0, num_attrs: 0, flags: 0 }
        .as_info()
        .unwrap_err();
    assert_eq!(e.kind, ErrorKind::InvalidData);
    assert_eq!(e.message, "Invalid UTF-8");
    let e = GpioLineInfoV1 { line_offset: 0, flags: 0, name: [0; 32], consumer: name }
        .as_info()
        .unwrap_err();
    assert_eq!(e.kind, ErrorKind::InvalidData);
}

#[test]
fn chip_info_decoding() {
    let c = ChipInfo::from_raw(&GpioChipInfo { name: buf(b"gpiochip0"), label: buf(b"pinctrl"), lines: 54 })
        .unwrap();
    assert_eq!(c.name(), "gpiochip0");
    assert_eq!(c.label(), "pinctrl");
    assert_eq!(c.num_lines(), 54);
    let mut bad = [0u8; 32];
    bad[0] = 0xc3;
    assert!(ChipInfo::from_raw(&GpioChipInfo { name: bad, label: [0; 32], lines: 1 }).is_err());
}

#[test]
fn text_forms() {
    let info = GpioLineInfo {
        name: buf(b"led\"0"),
        consumer: [0; 32],
        offset: 4,
        num_attrs: 0,
        flags: GPIO_LINE_FLAG_OUTPUT
            | GPIO_LINE_FLAG_ACTIVE_LOW
            | GPIO_LINE_FLAG_USED
            | GPIO_LINE_FLAG_EDGE_FALLING
            | GPIO_LINE_FLAG_BIAS_PULL_UP
            | GPIO_LINE_FLAG_OPEN_SOURCE,
    }
    .as_info()
    .unwrap();
    assert_eq!(
        info.to_string(),
        "\t \"led\\\"0\"\t unused\t output\t active-low\t falling-edge\t pull-up\t open-source\t [used]"
    );
    let plain = GpioLineInfo { name: [0; 32], consumer: buf(b"me"), offset: 0, num_attrs: 0, flags: 0 }
        .as_info()
        .unwrap();
    assert_eq!(plain.to_string(), "\t unnamed\t \"me\"\t input\t active-high");

    let map = LineMap::new(&[3, 5]);
    let ev = GpioLineEvent { timestamp_ns: 1234567, id: 2, offset: 5, seqno: 0, line_seqno: 0 };
    assert_eq!(ev.as_event(&map).unwrap().to_string(), "#1 falling 1234567");
    let ev = GpioLineEvent { timestamp_ns: 0, id: 1, offset: 3, seqno: 0, line_seqno: 0 };
    assert_eq!(ev.as_event(&map).unwrap().to_string(), "#0 rising 0");

    let c = ChipInfo::from_raw(&GpioChipInfo { name: buf(b"gpiochip0"), label: buf(b"pinctrl"), lines: 54 })
        .unwrap();
    assert_eq!(c.to_string(), "gpiochip0 [pinctrl] (54 lines)");

    let v = gpiod_core::ValuesInfo::new("gpiochip0", "me", &[17, 3, 100]);
    assert_eq!(v.to_string(), "gpiochip0 \"me\" [17, 3, 100]");
    assert_eq!(gpiod_core::ValuesInfo::new("c", "", &[]).to_string(), "c \"\" []");
}
