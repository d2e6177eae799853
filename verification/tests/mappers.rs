use governance_core::big_nat::BigNat;
use governance_core::mappers::{
    biguint_outcome, parse_u64, uuid_outcome, HelperMapper, MapperError,
};

#[test]
fn uuid_is_parsed_from_its_hyphenated_text() {
    let mapper = HelperMapper::default();
    assert_eq!(
        mapper.uuid_from_str("a1a2a3a4-b1b2-c1c2-d1d2-d3d4d5d6d7d8".to_string()),
        Ok([
            0xa1, 0xa2, 0xa3, 0xa4, 0xb1, 0xb2, 0xc1, 0xc2, 0xd1, 0xd2, 0xd3, 0xd4, 0xd5, 0xd6,
            0xd7, 0xd8
        ])
    );
    assert_eq!(
        mapper.uuid_from_str("00000000000000000000000000000001".to_string()),
        Ok([0, 0, 0, 0, 0, 0, 0, 0, 0, 0, 0, 0, 0, 0, 0, 1])
    );
}

#[test]
fn malformed_uuid_is_reported_with_its_text() {
    let mapper = HelperMapper::default();
    assert_eq!(
        mapper.uuid_from_str("not-a-uuid".to_string()),
        Err(MapperError::MalformedUuid {
            malformed_uuid: "not-a-uuid".to_string()
        })
    );
    assert_eq!(
        mapper.uuid_from_str(String::new()),
        Err(MapperError::MalformedUuid {
            malformed_uuid: String::new()
        })
    );
}

#[test]
fn uuid_outcome_follows_the_parser() {
    assert_eq!(uuid_outcome("x".to_string(), Some([7; 16])), Ok([7; 16]));
    assert_eq!(
        uuid_outcome("x".to_string(), None),
        Err(MapperError::MalformedUuid {
            malformed_uuid: "x".to_string()
        })
    );
}

#[test]
fn big_number_that_fits_becomes_a_u64() {
    let mapper = HelperMapper::default();
    assert_eq!(mapper.biguint_to_u64(&BigNat::from_digits(vec![])), Ok(0));
    assert_eq!(mapper.biguint_to_u64(&BigNat::from_u64(1125)), Ok(1125));
    assert_eq!(
        mapper.biguint_to_u64(&BigNat::from_digits(vec![830850304, 26])),
        Ok(112_500_000_000)
    );
    assert_eq!(
        mapper.biguint_to_u64(&BigNat::from_digits(vec![u32::MAX, u32::MAX])),
        Ok(u64::MAX)
    );
    assert_eq!(
        mapper.biguint_to_u64(&BigNat::from_digits(vec![5, 0, 0, 0])),
        Ok(5)
    );
}

#[test]
fn big_number_that_does_not_fit_is_reported_in_decimal() {
    let mapper = HelperMapper::default();
    assert_eq!(
        mapper.biguint_to_u64(&BigNat::from_digits(vec![0, 0, 1])),
        Err(MapperError::BigUintConversionError {
            biguint: "18446744073709551616".to_string()
        })
    );
    assert_eq!(
        mapper.biguint_to_u64(&BigNat::from_digits(vec![1, 2, 3])),
        Err(MapperError::BigUintConversionError {
            biguint: "55340232229718589441".to_string()
        })
    );
}

#[test]
fn biguint_outcome_follows_the_conversion() {
    assert_eq!(biguint_outcome(Some(3), "3".to_string()), Ok(3));
    assert_eq!(
        biguint_outcome(None, "99".to_string()),
        Err(MapperError::BigUintConversionError {
            biguint: "99".to_string()
        })
    );
}

#[test]
fn decimal_numerals_become_numbers() {
    let mapper = HelperMapper::default();
    assert_eq!(mapper.str_to_u64("0"), Ok(0));
    assert_eq!(mapper.str_to_u64("42"), Ok(42));
    assert_eq!(mapper.str_to_u64("+7"), Ok(7));
    assert_eq!(mapper.str_to_u64("007"), Ok(7));
    assert_eq!(mapper.str_to_u64("18446744073709551615"), Ok(u64::MAX));
    assert_eq!(
        mapper.str_to_u64("00000000000000000000000000000018446744073709551615"),
        Ok(u64::MAX)
    );
}

#[test]
fn what_is_no_numeral_is_reported_with_the_input() {
    let mapper = HelperMapper::default();
    for input in [
        "",
        "+",
        "-",
        "-1",
        "++1",
        "1_000",
        " 1",
        "1 ",
        "12a",
        "0x10",
        "1.5",
        "١٢",
        "18446744073709551616",
        "99999999999999999999999",
        "184467440737095516150",
    ] {
        assert_eq!(
            mapper.str_to_u64(input),
            Err(MapperError::StringToNumberConversionError {
                input: input.to_string()
            })
        );
    }
}

#[test]
fn numerals_are_read_as_the_standard_parser_reads_them() {
    let mapper = HelperMapper::default();
    for input in [
        "0", "1", "+0", "+18446744073709551615", "+18446744073709551616", "9", "10", "-0", "+-1",
        "4294967296", "18446744073709551609", "18446744073709551610", "1844674407370955161",
        "28446744073709551615", "+", "", "0000", "+0009",
    ] {
        assert_eq!(mapper.str_to_u64(input).ok(), input.parse::<u64>().ok());
        assert_eq!(parse_u64(input.as_bytes()), input.parse::<u64>().ok());
    }
}
