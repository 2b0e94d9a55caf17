use bitflip_detector::config::{
    parse_si_prefix, parse_size_request, AllocationMode, Cli, SiPrefix, SizeError, SizeRequest,
    Unit,
};
use bitflip_detector::detector::{DetectorError, ScanMode};
use core::time::Duration;

fn scaled(number_len: usize, prefix: Option<SiPrefix>, unit: Unit) -> Result<SizeRequest, SizeError> {
    Ok(SizeRequest::Scaled {
        number_len,
        prefix,
        unit,
    })
}

fn settings(memory_to_monitor: Option<usize>, use_all: Option<AllocationMode>) -> Cli {
    Cli {
        memory_to_monitor,
        use_all,
        delay: Duration::from_secs(30),
        verbose: false,
        log_format: false,
        jobs: None,
    }
}

#[test]
fn whole_numbers_are_bytes() {
    for exponent in 0..10u32 {
        let bytes = 2usize.pow(exponent);
        assert_eq!(
            parse_size_request(&format!("{bytes}")),
            Ok(SizeRequest::Bytes(bytes))
        );
    }
    assert_eq!(parse_size_request("200"), Ok(SizeRequest::Bytes(200)));
    assert_eq!(parse_size_request("+200"), Ok(SizeRequest::Bytes(200)));
    assert_eq!(parse_size_request("007"), Ok(SizeRequest::Bytes(7)));
    assert_eq!(
        parse_size_request(&format!("{}", usize::MAX)),
        Ok(SizeRequest::Bytes(usize::MAX))
    );
    assert_eq!(
        parse_size_request(&format!("000000000000000000000000{}", usize::MAX)),
        Ok(SizeRequest::Bytes(usize::MAX))
    );
}

#[test]
fn whole_numbers_agree_with_the_standard_parser() {
    for text in ["1", "+1", "0", "+0", "00", "18446744073709551615", "4294967295", "12345"] {
        let expected = text.parse::<usize>().expect("a whole number");
        let read = parse_size_request(text);
        if expected == 0 {
            assert_eq!(read, Err(SizeError::Zero));
        } else {
            assert_eq!(read, Ok(SizeRequest::Bytes(expected)));
        }
    }
}

#[test]
fn zero_is_refused() {
    assert_eq!(parse_size_request("0"), Err(SizeError::Zero));
    assert_eq!(parse_size_request("+0"), Err(SizeError::Zero));
    assert_eq!(parse_size_request("0000"), Err(SizeError::Zero));
}

#[test]
fn numbers_without_a_suffix_need_one() {
    assert_eq!(parse_size_request(""), Err(SizeError::MissingSuffix));
    assert_eq!(parse_size_request("1.5"), Err(SizeError::MissingSuffix));
    assert_eq!(parse_size_request("."), Err(SizeError::MissingSuffix));
    assert_eq!(parse_size_request("1.2.3"), Err(SizeError::MissingSuffix));
    assert_eq!(
        parse_size_request("340282366920938463463374607431768211456"),
        Err(SizeError::MissingSuffix)
    );
}

#[test]
fn units_and_prefixes_are_read() {
    for exponent in 0..10u32 {
        let number = format!("{}", 2usize.pow(exponent));
        let digits = number.len();
        assert_eq!(
            parse_size_request(&format!("{number}B")),
            scaled(digits, None, Unit::Bytes)
        );
        assert_eq!(
            parse_size_request(&format!("{number}kB")),
            scaled(digits, Some(SiPrefix::Kilo), Unit::Bytes)
        );
        assert_eq!(
            parse_size_request(&format!("{number}MB")),
            scaled(digits, Some(SiPrefix::Mega), Unit::Bytes)
        );
        assert_eq!(
            parse_size_request(&format!("{number}GB")),
            scaled(digits, Some(SiPrefix::Giga), Unit::Bytes)
        );
        assert_eq!(
            parse_size_request(&format!("{number}TB")),
            scaled(digits, Some(SiPrefix::Tera), Unit::Bytes)
        );
        assert_eq!(
            parse_size_request(&format!("{number}PB")),
            scaled(digits, Some(SiPrefix::Peta), Unit::Bytes)
        );
    }
    assert_eq!(parse_size_request("3Mb"), scaled(1, Some(SiPrefix::Mega), Unit::Bits));
    assert_eq!(parse_size_request("16b"), scaled(2, None, Unit::Bits));
    assert_eq!(parse_size_request("1.5kB"), scaled(3, Some(SiPrefix::Kilo), Unit::Bytes));
    assert_eq!(parse_size_request(".5GB"), scaled(2, Some(SiPrefix::Giga), Unit::Bytes));
    assert_eq!(parse_size_request("5.EB"), scaled(2, Some(SiPrefix::Exa), Unit::Bytes));
    assert_eq!(parse_size_request("1ZB"), scaled(1, Some(SiPrefix::Zetta), Unit::Bytes));
    assert_eq!(parse_size_request("1Yb"), scaled(1, Some(SiPrefix::Yotta), Unit::Bits));
    assert_eq!(
        parse_size_request("99999999999999999999999B"),
        scaled(23, None, Unit::Bytes)
    );
}

#[test]
fn number_part_is_what_the_float_parser_accepts() {
    for text in ["1", "1.5", ".5", "5.", "0.000", "123456789.123456789"] {
        assert!(text.parse::<f64>().is_ok());
        assert_eq!(
            parse_size_request(&format!("{text}B")),
            scaled(text.len(), None, Unit::Bytes)
        );
    }
    for text in ["", ".", "1.2.3", "..", "1..", "..1"] {
        assert!(text.parse::<f64>().is_err());
        assert_eq!(
            parse_size_request(&format!("{text}B")),
            Err(SizeError::InvalidNumber {
                number_len: text.len()
            })
        );
    }
}

#[test]
fn malformed_numbers_are_refused_before_the_suffix_is_read() {
    assert_eq!(
        parse_size_request("kB"),
        Err(SizeError::InvalidNumber { number_len: 0 })
    );
    assert_eq!(
        parse_size_request("+5kB"),
        Err(SizeError::InvalidNumber { number_len: 0 })
    );
    assert_eq!(
        parse_size_request("+"),
        Err(SizeError::InvalidNumber { number_len: 0 })
    );
    assert_eq!(
        parse_size_request("-5"),
        Err(SizeError::InvalidNumber { number_len: 0 })
    );
    assert_eq!(
        parse_size_request("1.2.3 gigabytes"),
        Err(SizeError::InvalidNumber { number_len: 5 })
    );
    assert_eq!(
        parse_size_request(".kB"),
        Err(SizeError::InvalidNumber { number_len: 1 })
    );
}

#[test]
fn long_suffixes_are_refused() {
    assert_eq!(parse_size_request("5kiB"), Err(SizeError::SuffixTooLong));
    assert_eq!(parse_size_request("5 kB"), Err(SizeError::SuffixTooLong));
    assert_eq!(parse_size_request("5bytes"), Err(SizeError::SuffixTooLong));
    assert_eq!(parse_size_request("5\u{20ac}"), Err(SizeError::SuffixTooLong));
    assert_eq!(parse_size_request("5\u{b5}B"), Err(SizeError::SuffixTooLong));
    assert_eq!(parse_size_request("5k\u{e9}"), Err(SizeError::SuffixTooLong));
    assert_eq!(parse_size_request("5\u{1f4a5}"), Err(SizeError::SuffixTooLong));
}

#[test]
fn suffix_must_end_in_a_unit() {
    assert_eq!(parse_size_request("5k"), Err(SizeError::InvalidEnding('k')));
    assert_eq!(parse_size_request("5Bk"), Err(SizeError::InvalidEnding('k')));
    assert_eq!(parse_size_request("5xy"), Err(SizeError::InvalidEnding('y')));
    assert_eq!(parse_size_request("5 "), Err(SizeError::InvalidEnding(' ')));
    assert_eq!(parse_size_request("12e3"), Err(SizeError::InvalidEnding('3')));
    assert_eq!(
        parse_size_request("5\u{e9}"),
        Err(SizeError::InvalidEnding('\u{e9}'))
    );
    assert_eq!(parse_size_request("0x10"), Err(SizeError::SuffixTooLong));
}

#[test]
fn unknown_prefixes_are_refused() {
    assert_eq!(parse_size_request("5KB"), Err(SizeError::UnsupportedPrefix('K')));
    assert_eq!(parse_size_request("5mB"), Err(SizeError::UnsupportedPrefix('m')));
    assert_eq!(parse_size_request("5Bb"), Err(SizeError::UnsupportedPrefix('B')));
    assert_eq!(parse_size_request("5 B"), Err(SizeError::UnsupportedPrefix(' ')));
}

#[test]
fn si_prefixes_have_their_letters() {
    assert_eq!(parse_si_prefix('k'), Ok(SiPrefix::Kilo));
    assert_eq!(parse_si_prefix('M'), Ok(SiPrefix::Mega));
    assert_eq!(parse_si_prefix('G'), Ok(SiPrefix::Giga));
    assert_eq!(parse_si_prefix('T'), Ok(SiPrefix::Tera));
    assert_eq!(parse_si_prefix('P'), Ok(SiPrefix::Peta));
    assert_eq!(parse_si_prefix('E'), Ok(SiPrefix::Exa));
    assert_eq!(parse_si_prefix('Z'), Ok(SiPrefix::Zetta));
    assert_eq!(parse_si_prefix('Y'), Ok(SiPrefix::Yotta));
    for c in ['K', 'm', 'g', 'B', 'b', ' ', '1', '\u{b5}'] {
        assert_eq!(parse_si_prefix(c), Err(SizeError::UnsupportedPrefix(c)));
    }
}

#[test]
fn settings_with_a_size_build_a_detector_of_that_size() {
    let detector = settings(Some(2048), None)
        .detector(0)
        .expect("a small block can be allocated");
    assert_eq!(detector.len(), 2048);
    assert_eq!(detector.default(), 0);
    assert_eq!(detector.scan_mode(), ScanMode::Parallel);
    assert!(detector.is_intact());
    assert_eq!(
        settings(Some(usize::MAX), None).detector(0).err(),
        Some(DetectorError::AllocationFailed)
    );
}

#[test]
fn allocation_modes_differ() {
    assert_ne!(AllocationMode::Available, AllocationMode::Free);
    assert_eq!(settings(None, Some(AllocationMode::Free)).use_all, Some(AllocationMode::Free));
}
