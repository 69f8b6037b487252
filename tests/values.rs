use toktx::args::{decimal_string, ArgValue};
use toktx::enc::{ASTCBlockDimension, ASTCMode};
use toktx::{Decimal, Filter, Primaries, Swizzle, SwizzleChar, TargetType, TransferFunction, WMode, XY, XYZ};

#[test]
fn two_dimensions_render_with_x() {
    assert_eq!(XY(6u8, 6u8).to_string(), "6x6");
    assert_eq!(XY(1024u32, 512u32).to_string(), "1024x512");
    assert_eq!(XY(0u16, 65535u16).to_string(), "0x65535");
}

#[test]
fn three_dimensions_render_with_x() {
    assert_eq!(XYZ(5u8, 5u8, 5u8).to_string(), "5x5x5");
    assert_eq!(XYZ(256u32, 256u32, 256u32).to_string(), "256x256x256");
    assert_eq!(XYZ(6u8, 5u8, 4u8).to_string(), "6x5x4");
}

#[test]
fn vector_getters_and_conversions() {
    let v = XY::from((3u32, 4u32));
    assert_eq!((v.x(), v.y()), (3, 4));
    assert_eq!(XY::from([7u8, 8u8]), XY(7, 8));
    let w = XYZ::from((1u8, 2u8, 3u8));
    assert_eq!((w.x(), w.y(), w.z()), (1, 2, 3));
    assert_eq!(XYZ::from([9u8, 8u8, 7u8]), XYZ(9, 8, 7));
}

#[test]
fn decimal_text_of_integers() {
    assert_eq!(decimal_string(0), "0");
    assert_eq!(decimal_string(7), "7");
    assert_eq!(decimal_string(10), "10");
    assert_eq!(decimal_string(4096), "4096");
    assert_eq!(decimal_string(u64::MAX), "18446744073709551615");
    assert_eq!(255u8.to_arg(), "255");
    assert_eq!(4294967295u32.to_arg(), "4294967295");
}

#[test]
fn block_dimensions_render_as_their_vector() {
    assert_eq!(ASTCBlockDimension::from(XY(6u8, 5u8)).to_string(), "6x5");
    assert_eq!(ASTCBlockDimension::from(XYZ(3u8, 3u8, 3u8)).to_string(), "3x3x3");
}

#[test]
fn swizzle_round_trip() {
    let alphabet = ['r', 'g', 'b', 'a', '0', '1'];
    for a in alphabet {
        for b in alphabet {
            for c in alphabet {
                for d in alphabet {
                    let text: String = [a, b, c, d].iter().collect();
                    let parsed: Swizzle = text.parse().unwrap();
                    assert_eq!(parsed.to_string(), text);
                }
            }
        }
    }
}

#[test]
fn swizzle_rejects_bad_character() {
    assert_eq!(Swizzle::parse("rgbx"), Err(Some(3)));
    assert_eq!(Swizzle::parse("xgba"), Err(Some(0)));
    assert_eq!(Swizzle::parse("r2b3"), Err(Some(1)));
    assert_eq!("RGBA".parse::<Swizzle>(), Err(Some(0)));
}

#[test]
fn swizzle_rejects_wrong_length() {
    assert_eq!(Swizzle::parse(""), Err(None));
    assert_eq!(Swizzle::parse("rgb"), Err(None));
    assert_eq!(Swizzle::parse("rgbar"), Err(None));
    assert_eq!(Swizzle::parse("xxxxx"), Err(None));
}

#[test]
fn swizzle_chars() {
    assert_eq!(SwizzleChar::try_from('g'), Ok(SwizzleChar::g()));
    assert_eq!(SwizzleChar::try_from('q'), Err('q'));
    assert_eq!(char::from(SwizzleChar::one()), '1');
    assert_eq!(SwizzleChar::zero().as_char(), '0');
    let s = Swizzle::from([SwizzleChar::a(), SwizzleChar::b(), SwizzleChar::g(), SwizzleChar::r()]);
    assert_eq!(s.to_string(), "abgr");
    assert!(SwizzleChar::new('1').is_some());
    assert!(SwizzleChar::new('2').is_none());
}

#[test]
fn enum_tokens() {
    assert_eq!(Filter::BSpline.as_str(), "b-spline");
    assert_eq!(Filter::QuadraticInterp.to_string(), "quadratic_interp");
    assert_eq!(Filter::Lanczos12.as_str(), "lanczos12");
    assert_eq!(Primaries::Bt709.as_str(), "bt709");
    assert_eq!(Primaries::Unspecified.as_str(), "none");
    assert_eq!(WMode::Reflect.as_str(), "reflect");
    assert_eq!(TransferFunction::Srgb.as_str(), "srgb");
    assert_eq!(ASTCMode::Hdr.as_str(), "hdr");
}

#[test]
fn target_type_is_tagged() {
    assert_eq!(TargetType::RGBA.to_string(), "@c RGBA");
    assert_eq!(TargetType::R.to_string(), "@c R");
    assert_eq!(TargetType::RG.as_str(), "RG");
}

#[test]
fn decimal_accepts_decimal_text() {
    for text in ["0", "1.25", "-3", "10.0", "0.001", "-0.5", "65536"] {
        let d = Decimal::parse(text).unwrap();
        assert_eq!(d.to_string(), text);
    }
}

#[test]
fn decimal_refuses_other_text() {
    for text in ["", "-", "1.", ".5", "1.2.3", "abc", "1e5", "NaN", "inf", "--1", "1-2", " 1"] {
        assert!(Decimal::parse(text).is_none(), "{}", text);
    }
}
