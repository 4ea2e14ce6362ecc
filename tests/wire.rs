use gpiod_core::v1::{
    GpioHandleData, GpioHandleRequest, GpioLineInfo as GpioLineInfoV1, GPIOHANDLE_DATA_SIZE,
    GPIOHANDLE_REQUEST_SIZE, GPIOLINE_INFO_SIZE,
};
use gpiod_core::v2::{
    values_from_bytes, values_to_bytes, GpioLineInfo, GpioLineRequest, GPIO_LINE_INFO_SIZE,
    GPIO_LINE_REQUEST_SIZE,
};
use gpiod_core::{
    Active, Bias, Direction, Drive, ErrorKind, GpioChipInfo, Values, GPIO_CHIP_INFO_SIZE,
};

fn u32_at(b: &[u8], at: usize) -> u32 {
    u32::from_le_bytes([b[at], b[at + 1], b[at + 2], b[at + 3]])
}

fn u64_at(b: &[u8], at: usize) -> u64 {
    let mut a = [0u8; 8];
    a.copy_from_slice(&b[at..at + 8]);
    u64::from_le_bytes(a)
}

#[test]
fn line_request_wire_layout() {
    let v = Values { bits: 0b10, mask: 0b11 };
    let q = GpioLineRequest::new(
        &[11, 2],
        Direction::Output,
        Active::Low,
        None,
        Some(Bias::PullUp),
        Some(Drive::OpenDrain),
        Some(v),
        "gpout",
    )
    .unwrap();
    let b = q.to_bytes();
    assert_eq!(b.len(), GPIO_LINE_REQUEST_SIZE);
    assert_eq!(u32_at(&b, 0), 11);
    assert_eq!(u32_at(&b, 4), 2);
    assert_eq!(u32_at(&b, 8), 0);
    assert_eq!(&b[256..262], b"gpout\0");
    assert_eq!(u64_at(&b, 288), q.config.flags);
    assert_eq!(u32_at(&b, 296), 1);
    assert_eq!(u32_at(&b, 320), 2);
    assert_eq!(u64_at(&b, 328), 0b10);
    assert_eq!(u64_at(&b, 336), 0b11);
    assert_eq!(u32_at(&b, 560), 2);
    assert_eq!(u32_at(&b, 588), 0);
}

#[test]
fn line_info_wire_round_trip() {
    let mut q = GpioLineInfo::query(17);
    assert_eq!(q.offset, 17);
    q.name[..3].copy_from_slice(b"abc");
    q.flags = 0x0102;
    let b = q.to_bytes();
    assert_eq!(b.len(), GPIO_LINE_INFO_SIZE);
    let back = GpioLineInfo::from_bytes(&b).unwrap();
    assert_eq!(back.offset, 17);
    assert_eq!(back.flags, 0x0102);
    assert_eq!(&back.name[..4], b"abc\0");
    assert_eq!(back.as_info().unwrap().name, "abc");
    let e = GpioLineInfo::from_bytes(&b[..255]).unwrap_err();
    assert_eq!(e.kind, ErrorKind::InvalidData);

    let mut q = GpioLineInfoV1::query(5);
    q.consumer[..2].copy_from_slice(b"me");
    let b = q.to_bytes();
    assert_eq!(b.len(), GPIOLINE_INFO_SIZE);
    let back = GpioLineInfoV1::from_bytes(&b).unwrap();
    assert_eq!(back.line_offset, 5);
    assert_eq!(back.as_info().unwrap().consumer, "me");
    assert!(GpioLineInfoV1::from_bytes(&b[1..]).is_err());
}

#[test]
fn handle_request_wire_layout() {
    let q = GpioHandleRequest::new(&[3, 4, 5], Direction::Input, Active::High, None, None, "in")
        .unwrap();
    let b = q.to_bytes();
    assert_eq!(b.len(), GPIOHANDLE_REQUEST_SIZE);
    assert_eq!(u32_at(&b, 8), 5);
    assert_eq!(u32_at(&b, 256), q.flags);
    assert_eq!(&b[324..327], b"in\0");
    assert_eq!(u32_at(&b, 356), 3);
}

#[test]
fn values_wire_forms() {
    let v = Values { bits: 0x0102_0304, mask: 0xffff_ffff_0000_0000 };
    let b = values_to_bytes(&v);
    assert_eq!(b.len(), 16);
    assert_eq!(b[0], 0x04);
    assert_eq!(values_from_bytes(&b).unwrap(), v);
    assert!(values_from_bytes(&b[..8]).is_err());
    let d = GpioHandleData::from_values(2, &Values { bits: 0b01, mask: 0b11 });
    let b = d.to_bytes();
    assert_eq!(b.len(), GPIOHANDLE_DATA_SIZE);
    assert_eq!(GpioHandleData::from_bytes(&b).unwrap().values, d.values);
    assert!(GpioHandleData::from_bytes(&b[..10]).is_err());
}

#[test]
fn chip_info_from_bytes() {
    let mut b = vec![0u8; GPIO_CHIP_INFO_SIZE];
    b[..9].copy_from_slice(b"gpiochip1");
    b[32..35].copy_from_slice(b"abc");
    b[64] = 32;
    let raw = GpioChipInfo::from_bytes(&b).unwrap();
    assert_eq!(raw.lines, 32);
    let c = gpiod_core::ChipInfo::from_raw(&raw).unwrap();
    assert_eq!(c.name(), "gpiochip1");
    assert_eq!(c.label(), "abc");
    assert!(GpioChipInfo::from_bytes(&b[..67]).is_err());
}
