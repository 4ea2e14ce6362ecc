use gpiod_core::{copy_values, AsValues, AsValuesMut};
use gpiod_core::{Alignment, Bits, ErrorKind, FormatSpec, Masked, Values};

fn spec(alternate: bool, width: Option<usize>, align: Option<Alignment>, fill: char) -> FormatSpec {
    FormatSpec { alternate, width, align, fill }
}

#[test]
fn format_masked() {
    assert_eq!(Masked::<u8>::from(0b1000u8).to_string(), "00001000");

    assert_eq!(
        Values {
            bits: 0b1000,
            mask: 0b1111,
        }
        .to_string(),
        "1000"
    );

    assert_eq!(
        Values {
            bits: 0b0011,
            mask: 0b0111,
        }
        .to_string(),
        "011"
    );

    assert_eq!(
        Values {
            bits: 0b0011,
            mask: 0b1111,
        }
        .to_string(),
        "0011"
    );

    assert_eq!(
        Values {
            bits: 0b11000,
            mask: 0b00011,
        }
        .to_string(),
        "00"
    );

    assert_eq!(
        Values {
            bits: 0b100001,
            mask: 0b110011,
        }
        .to_string(),
        "10xx01"
    );
}

#[test]
fn format_masked_advanced() {
    assert_eq!(
        Masked::<u8>::from(0b1000u8).format_with(&spec(true, None, None, ' ')),
        "0b00001000"
    );

    assert_eq!(format!("{:#08b}", 0b1000u8), "0b001000");

    assert_eq!(
        Masked::<u8>::from(0b1000u8).format_with(&spec(false, Some(11), None, ' ')),
        "   00001000"
    );

    assert_eq!(
        Masked::<u8>::from(0b1000u8).format_with(&spec(false, Some(11), Some(Alignment::Left), '-')),
        "00001000---"
    );

    assert_eq!(
        Masked::<u8>::from(0b1000u8).format_with(&spec(false, Some(11), Some(Alignment::Right), '-')),
        "---00001000"
    );

    assert_eq!(
        Masked::<u8>::from(0b1000u8).format_with(&spec(false, Some(11), Some(Alignment::Center), '-')),
        "--00001000-"
    );
}

#[test]
fn parse_masked() {
    assert_eq!(
        "0110".parse::<Values>().unwrap(),
        Values {
            bits: 0b0110,
            mask: 0b1111,
        }
    );

    assert_eq!(
        "00110".parse::<Values>().unwrap(),
        Values {
            bits: 0b00110,
            mask: 0b11111,
        }
    );

    assert_eq!(
        "0b10101".parse::<Values>().unwrap(),
        Values {
            bits: 0b10101,
            mask: 0b11111,
        }
    );

    assert_eq!(
        "1x10x".parse::<Values>().unwrap(),
        Values {
            bits: 0b10100,
            mask: 0b10110,
        }
    );

    assert_eq!(
        "xx0x010".parse::<Values>().unwrap(),
        Values {
            bits: 0b00010,
            mask: 0b10111,
        }
    );

    assert_eq!(
        "0bxxxxxxxxxxxxxxxxxxxxxxxxxxxxxxxxxxxxxxxxxxxxxxxxxxxxxxxxxxxxxxxx"
            .parse::<Values>()
            .unwrap(),
        Values::default()
    );

    assert_eq!(
        "0b1111111111111111111111111111111111111111111111111111111111111111"
            .parse::<Values>()
            .unwrap(),
        Values {
            bits: Bits::MAX,
            mask: Bits::MAX,
        }
    );

    assert_eq!(
        "0b0000000000000000000000000000000000000000000000000000000000000000"
            .parse::<Values>()
            .unwrap(),
        Values {
            bits: 0,
            mask: Bits::MAX,
        }
    );

    assert!(
        "xxxxxxxxxxxxxxxxxxxxxxxxxxxxxxxxxxxxxxxxxxxxxxxxxxxxxxxxxxxxxxxxx"
            .parse::<Values>()
            .is_err()
    );

    assert!("0b10xy".parse::<Values>().is_err());
}

#[test]
fn format_values() {
    let prefixed = spec(true, None, None, ' ');

    assert_eq!(Values::from(0b1000u8).format_with(&prefixed), "0b00001000");

    assert_eq!(
        Values {
            bits: 0b0011,
            mask: 0b0111,
        }
        .format_with(&prefixed),
        "0b011"
    );

    assert_eq!(
        Values {
            bits: 0b11000,
            mask: 0b00011,
        }
        .format_with(&prefixed),
        "0b00"
    );

    assert_eq!(
        Values {
            bits: 0b100001,
            mask: 0b110011,
        }
        .format_with(&prefixed),
        "0b10xx01"
    );
}

#[test]
fn parse_values() {
    assert_eq!(
        "0110".parse::<Values>().unwrap(),
        Values {
            bits: 0b0110,
            mask: 0b1111,
        }
    );

    assert_eq!(
        "0b10101".parse::<Values>().unwrap(),
        Values {
            bits: 0b10101,
            mask: 0b11111,
        }
    );

    assert_eq!(
        "1x10x".parse::<Values>().unwrap(),
        Values {
            bits: 0b10100,
            mask: 0b10110,
        }
    );

    assert_eq!(
        "xx0x010".parse::<Values>().unwrap(),
        Values {
            bits: 0b00010,
            mask: 0b10111,
        }
    );

    assert_eq!(
        "0bxxxxxxxxxxxxxxxxxxxxxxxxxxxxxxxxxxxxxxxxxxxxxxxxxxxxxxxxxxxxxxxx"
            .parse::<Values>()
            .unwrap(),
        Values::default()
    );

    assert_eq!(
        "0b1111111111111111111111111111111111111111111111111111111111111111"
            .parse::<Values>()
            .unwrap(),
        Values {
            bits: u64::MAX,
            mask: u64::MAX,
        }
    );

    assert_eq!(
        "0b0000000000000000000000000000000000000000000000000000000000000000"
            .parse::<Values>()
            .unwrap(),
        Values {
            bits: 0,
            mask: u64::MAX,
        }
    );

    assert!(
        "xxxxxxxxxxxxxxxxxxxxxxxxxxxxxxxxxxxxxxxxxxxxxxxxxxxxxxxxxxxxxxxxx"
            .parse::<Values>()
            .is_err()
    );

    assert!("0b10xy".parse::<Values>().is_err());
}

#[test]
fn parse_errors_are_invalid_input() {
    let long = "1".repeat(65);
    let e = Values::parse(&long).unwrap_err();
    assert_eq!(e.kind, ErrorKind::InvalidInput);
    assert_eq!(e.message, "Too many line values");
    let e = Values::parse("10y").unwrap_err();
    assert_eq!(e.kind, ErrorKind::InvalidInput);
    assert_eq!(e.message, "Unexpected char in line value");
    assert_eq!(Values::parse("").unwrap(), Values::default());
    assert_eq!(Values::parse("0b").unwrap(), Values::default());
    assert!(Values::parse("0é").is_err());
}

#[test]
fn format_of_empty_values_is_one_undefined_digit() {
    assert_eq!(Values::default().to_string(), "x");
    assert_eq!(Values { bits: 0, mask: 1 }.to_string(), "0");
    assert_eq!(Values::from(u64::MAX).to_string(), "1".repeat(64));
}

#[test]
fn format_then_parse_round_trip() {
    for v in [
        Values { bits: 0b100001, mask: 0b110011 },
        Values { bits: 0b1, mask: 0b1 },
        Values { bits: 0, mask: 0 },
        Values { bits: 0, mask: 1 },
        Values { bits: 0b1010, mask: 0b1110 },
        Values { bits: 0b0011, mask: 0b1111 },
        Values { bits: 0, mask: 0b1111 },
        Values::from(u64::MAX),
    ] {
        assert_eq!(Values::parse(&v.to_string()).unwrap(), v);
    }
}

#[test]
fn parse_then_format_scenarios() {
    let v = Values::parse("1x10x").unwrap();
    assert_eq!(v, Values { bits: 0b10100, mask: 0b10110 });
    assert_eq!(v.to_string(), "1x10x");
    assert_eq!(Values::parse("0110").unwrap().to_string(), "0110");
    assert_eq!(Values::parse("x01").unwrap().to_string(), "01");
    assert_eq!(Values { bits: 0b100001, mask: 0b110011 }.to_string(), "10xx01");
}

#[test]
fn set_then_get() {
    for b in 0u8..64 {
        let v = Values::default();
        assert_eq!(v.with(b, Some(true)).get(b), Some(true));
        assert_eq!(v.with(b, Some(false)).get(b), Some(false));
        assert_eq!(Values::from(u64::MAX).with(b, None).get(b), None);
        let mut w = Values::from(u64::MAX);
        w.set(b, None);
        assert_eq!(w.bits & (1 << b), 0);
        assert_eq!(w.mask & (1 << b), 0);
    }
    let mut v = Values::default();
    v.set(64, Some(true));
    v.set(200, Some(true));
    assert_eq!(v, Values::default());
    assert_eq!(v.get(64), None);
    assert_eq!(v.get(255), None);
    assert_eq!(Values { bits: 0b10, mask: 0b01 }.get(1), None);
    assert_eq!(v.bits(), 64);
}

#[test]
fn truncate_clears_high_positions() {
    let mut v = Values::from(u64::MAX);
    v.truncate(4);
    assert_eq!(v, Values { bits: 0b1111, mask: 0b1111 });
    let mut w = Values::from(0b1010u8);
    w.truncate(64);
    assert_eq!(w, Values::from(0b1010u8));
}

#[test]
fn bools_round_trip() {
    let cases: Vec<Vec<bool>> = vec![
        vec![],
        vec![false],
        vec![true],
        vec![false, false, true],
        vec![true, false, true, true, false],
        (0..64).map(|i| i % 3 == 0).collect(),
        vec![false; 64],
    ];
    for bits in cases {
        let v = Values::from_bools(&bits);
        assert_eq!(v.to_bools(), bits);
    }
}

#[test]
fn from_bools_is_most_significant_first_and_capped() {
    assert_eq!(Values::from_bools(&[true, false, false]), Values { bits: 0b100, mask: 0b111 });
    let many: Vec<bool> = (0..70).map(|i| i < 1).collect();
    let v = Values::from_bools(&many);
    assert_eq!(v.mask, u64::MAX);
    assert_eq!(v.bits, 1 << 63);
    let mut e = Values::from_bools(&[true]);
    e.extend(&[false, true]);
    assert_eq!(e, Values { bits: 0b101, mask: 0b111 });
    assert_eq!(Values { bits: 0b01, mask: 0b11 }.to_bools(), vec![false, true]);
}

#[test]
fn integer_conversions() {
    assert_eq!(Values::from(0xabu8), Values { bits: 0xab, mask: 0xff });
    assert_eq!(Values::from(0xabcdu16), Values { bits: 0xabcd, mask: 0xffff });
    assert_eq!(Values::from(7u32), Values { bits: 7, mask: 0xffff_ffff });
    assert_eq!(Values::from(7u64), Values { bits: 7, mask: u64::MAX });
    let v = Values { bits: 0x1_0000_01ff, mask: 0x1_0000_00f0 };
    assert_eq!(u64::from(v), 0x1_0000_00f0);
    assert_eq!(u32::from(v), 0xf0);
    assert_eq!(u16::from(v), 0xf0);
    assert_eq!(u8::from(v), 0xf0);
}

#[test]
fn value_containers_copy() {
    let v = Values { bits: 0b0101, mask: 0b0111 };
    let mut bools = vec![true; 4];
    copy_values(&v, &mut bools);
    assert_eq!(bools, vec![true, false, true, true]);
    let mut opts: Vec<Option<bool>> = vec![None; 5];
    copy_values(&v, &mut opts);
    assert_eq!(opts, vec![Some(true), Some(false), Some(true), None, None]);
    let mut n: u64 = 0;
    copy_values(&bools, &mut n);
    assert_eq!(n, 0b1101);
    assert_eq!(AsValues::get(&n, 3), Some(true));
    assert_eq!(AsValues::get(&n, 64), None);
    AsValuesMut::set(&mut n, 0, None);
    assert_eq!(n, 0b1100);
    let mut w = Values::default();
    copy_values(&opts, &mut w);
    assert_eq!(w, Values { bits: 0b101, mask: 0b111 });
    assert_eq!(AsValues::bits(&opts), 5);
}

#[test]
fn narrow_value_sets() {
    let v = Masked::<u8>::parse("1x10x").unwrap();
    assert_eq!(v, Masked::<u8> { bits: 0b10100, mask: 0b10110 });
    assert_eq!(v.to_string(), "1x10x");
    assert!(Masked::<u8>::parse("xxxxxxxxx").is_err());
    assert!(Masked::<u8>::parse("0b11111111").is_ok());
    assert!(Masked::<u8>::parse("12").is_err());
    assert_eq!("0b0110".parse::<Masked<u16>>().unwrap(), Masked::<u16> { bits: 0b0110, mask: 0b1111 });
    assert!(Masked::<u16>::parse(&"1".repeat(17)).is_err());
    assert_eq!(Masked::<u32>::parse(&"1".repeat(32)).unwrap(), Masked::<u32>::from(u32::MAX));

    let mut w = Masked::<u8>::default();
    w.set(7, Some(true));
    w.set(8, Some(true));
    assert_eq!(w, Masked::<u8> { bits: 0x80, mask: 0x80 });
    assert_eq!(w.get(7), Some(true));
    assert_eq!(w.get(8), None);
    assert_eq!(w.bits(), 8);
    w.set(7, None);
    assert_eq!(w, Masked::<u8>::default());
    assert_eq!(Masked::<u16>::default().with(15, Some(false)).get(15), Some(false));
    assert_eq!(Masked::<u32>::from(5u32).get(31), Some(false));
    assert_eq!(Masked::<u16>::from(0xabcdu16).to_string(), "1010101111001101");

    assert_eq!(u8::from(Masked::<u8> { bits: 0xff, mask: 0x0f }), 0x0f);
    assert_eq!(u16::from(Masked::<u16> { bits: 0x1234, mask: 0xff00 }), 0x1200);
    assert_eq!(u32::from(Masked::<u32>::from(9u32)), 9);
    assert_eq!(Masked::<u8>::from(3u8).to_values(), Values { bits: 3, mask: 0xff });
}
