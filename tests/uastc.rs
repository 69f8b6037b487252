use toktx::enc::UASTCQuality;

#[test]
fn to_and_from_repr() {
    let cases = [
        (UASTCQuality::Fastest, 0u8),
        (UASTCQuality::Faster, 1),
        (UASTCQuality::Default, 2),
        (UASTCQuality::Slower, 3),
        (UASTCQuality::VerySlow, 4),
    ];

    for (inst, repr) in cases {
        assert_eq!((inst as u8), repr, "inst as u8 ({})", repr);
        assert_eq!(UASTCQuality::try_from(repr), Ok(inst), "try_from ({})", repr);
    }
}

#[test]
fn quality_numbers_round_trip() {
    for v in 0u8..=4 {
        let q = UASTCQuality::try_from(v).unwrap();
        assert_eq!(u8::from(q), v);
        assert_eq!(q.as_u8(), v);
        assert_eq!(UASTCQuality::from_u8(v), Some(q));
    }
}

#[test]
fn quality_numbers_out_of_range_fail() {
    for v in 5u8..=255 {
        assert_eq!(UASTCQuality::try_from(v), Err("Only values 0..=4 are valid"));
        assert_eq!(UASTCQuality::from_u8(v), None);
    }
}
