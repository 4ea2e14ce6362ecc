use gpiod_core::{
    check_len, check_len_str, check_size, major, minor, safe_get_str, safe_set_str, text_eq,
    Active, Bias, Direction, Drive, Edge, EdgeDetect, ErrorKind, ValuesInfo,
};

#[test]
fn tokens_parse() {
    assert_eq!("in".parse::<Direction>().unwrap(), Direction::Input);
    assert_eq!("o".parse::<Direction>().unwrap(), Direction::Output);
    assert_eq!("active-low".parse::<Active>().unwrap(), Active::Low);
    assert_eq!("hi".parse::<Active>().unwrap(), Active::High);
    assert_eq!("fall".parse::<Edge>().unwrap(), Edge::Falling);
    assert_eq!("rising-falling".parse::<EdgeDetect>().unwrap(), EdgeDetect::Both);
    assert_eq!("dis".parse::<EdgeDetect>().unwrap(), EdgeDetect::Disable);
    assert_eq!("pu".parse::<Bias>().unwrap(), Bias::PullUp);
    assert_eq!("pd".parse::<Bias>().unwrap(), Bias::PullDown);
    assert_eq!("pull-down".parse::<Bias>().unwrap(), Bias::PullDown);
    assert_eq!("od".parse::<Drive>().unwrap(), Drive::OpenDrain);
    assert_eq!("open-source".parse::<Drive>().unwrap(), Drive::OpenSource);
    let e = "sideways".parse::<Direction>().unwrap_err();
    assert_eq!(e.kind, ErrorKind::InvalidInput);
    assert_eq!(e.message, "Not recognized direction");
    assert!("".parse::<Bias>().is_err());
    assert!("Input".parse::<Direction>().is_err());
}

#[test]
fn names_and_defaults() {
    assert_eq!(Direction::Output.as_str(), "output");
    assert_eq!(Active::Low.as_str(), "low");
    assert_eq!(Edge::Rising.as_str(), "rising");
    assert_eq!(EdgeDetect::Both.as_str(), "both");
    assert_eq!(Bias::PullDown.as_str(), "pull-down");
    assert_eq!(Drive::PushPull.as_str(), "push-pull");
    assert_eq!(Direction::default(), Direction::Input);
    assert_eq!(Active::default(), Active::High);
    assert_eq!(EdgeDetect::default(), EdgeDetect::Disable);
    assert_eq!(Bias::default(), Bias::Disable);
    assert_eq!(Drive::default(), Drive::PushPull);
}

#[test]
fn device_numbers() {
    let dev: u64 = (0x123 << 8) | 0x45 | (0xabcde << 44) | (0x6789a << 20);
    assert_eq!(major(dev), 0x123 | (0xabcde << 12));
    assert_eq!(minor(dev), 0x45 | (0x6789a << 8));
    assert_eq!(major(0xfe05), 0xfe);
    assert_eq!(minor(0xfe05), 0x05);
}

#[test]
fn size_and_length_checks() {
    assert!(check_size(16, 16).is_ok());
    let e = check_size(15, 16).unwrap_err();
    assert_eq!(e.kind, ErrorKind::InvalidData);
    assert_eq!(e.message, "Unexpected size");
    assert!(check_len(&[1u32, 2], 2).is_ok());
    assert_eq!(check_len(&[1u32, 2, 3], 2).unwrap_err().message, "Too many lines");
    assert!(check_len_str("abc", 4).is_ok());
    assert_eq!(check_len_str("abcd", 4).unwrap_err().message, "String too long");
}

#[test]
fn text_buffers() {
    let mut dst = [0xaau8; 8];
    safe_set_str(&mut dst, "abc").unwrap();
    assert_eq!(dst, [b'a', b'b', b'c', 0, 0xaa, 0xaa, 0xaa, 0xaa]);
    let mut small = [0u8; 3];
    assert_eq!(safe_set_str(&mut small, "abc").unwrap_err().kind, ErrorKind::InvalidInput);
    assert_eq!(small, [0, 0, 0]);
    assert_eq!(safe_get_str(b"name\0\0\0").unwrap(), "name");
    assert_eq!(safe_get_str(b"a\0b\0").unwrap(), "a\0b");
    assert_eq!(safe_get_str(b"").unwrap(), "");
    assert_eq!(safe_get_str(&[0x61, 0xff, 0]).unwrap_err().kind, ErrorKind::InvalidData);
    assert!(text_eq("gpio", "gpio"));
    assert!(!text_eq("gpio", "gpi"));
}

#[test]
fn values_info_accessors() {
    let info = ValuesInfo::new("gpiochip0", "me", &[17, 3]);
    assert_eq!(info.chip_name(), "gpiochip0");
    assert_eq!(info.consumer(), "me");
    assert_eq!(info.lines(), &[17, 3]);
    assert_eq!(info.index().get(3).unwrap(), 1);
    assert!(info.index().get(4).is_err());
}
