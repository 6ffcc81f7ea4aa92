use optrs::abi::{
    check_count_setting, engine_from_i32, require_non_null, size_handshake, CountSetting, OptKind,
    OptStatus, OptStyle, OPT_ABI_VERSION,
};
use optrs::last_error::{last_message, LastError};
use optrs::engine::Engine;
use optrs::error::Error;
use optrs::option::OptionType;

#[test]
fn abi_version_is_one() {
    assert_eq!(OPT_ABI_VERSION, 1);
}

#[test]
fn status_codes() {
    let all = [
        OptStatus::Success,
        OptStatus::Domain,
        OptStatus::NoSolution,
        OptStatus::Unsupported,
        OptStatus::NotConverged,
        OptStatus::NullPointer,
        OptStatus::BadSize,
        OptStatus::BufferTooSmall,
        OptStatus::Panic,
    ];
    for (i, s) in all.iter().enumerate() {
        assert_eq!(s.code(), i as i32);
    }
}

#[test]
fn error_codes_and_statuses_agree() {
    let errors = [
        Error::Domain("d"),
        Error::NoSolution("n"),
        Error::Unsupported { engine: "cos", reason: "r" },
        Error::NotConverged { last_bits: 1.5f64.to_bits(), delta_bits: f64::NAN.to_bits() },
    ];
    let statuses = [
        OptStatus::Domain,
        OptStatus::NoSolution,
        OptStatus::Unsupported,
        OptStatus::NotConverged,
    ];
    for (i, (e, s)) in errors.iter().zip(statuses.iter()).enumerate() {
        assert_eq!(e.code(), i as i32 + 1);
        assert_eq!(OptStatus::from_error(e), *s);
        assert_eq!(OptStatus::from_error(e).code(), e.code());
    }
}

#[test]
fn kind_and_style_codes() {
    assert_eq!(OptKind::Call.code(), 0);
    assert_eq!(OptKind::Put.code(), 1);
    assert_eq!(OptKind::Call.option_type(), OptionType::Call);
    assert_eq!(OptKind::Put.option_type(), OptionType::Put);
    assert_eq!(OptStyle::European.code(), 0);
    assert_eq!(OptStyle::American.code(), 1);
    assert_eq!(OptStyle::Bermudan.code(), 2);
    assert!(!OptStyle::European.is_early_exercise());
    assert!(OptStyle::American.is_early_exercise());
    assert!(OptStyle::Bermudan.is_early_exercise());
}

#[test]
fn null_pointer_is_reported() {
    let mut e = LastError::new();
    assert_eq!(require_non_null(&mut e, true, "pricer"), Err(OptStatus::NullPointer));
    assert_eq!(last_message(&e).unwrap(), b"null pointer for pricer\0");
}

#[test]
fn non_null_pointer_leaves_the_channel_alone() {
    let mut e = LastError::new();
    assert_eq!(require_non_null(&mut e, false, "option"), Ok(()));
    assert!(last_message(&e).is_none());
    optrs::last_error::set(&mut e, b"earlier");
    assert_eq!(require_non_null(&mut e, false, "option"), Ok(()));
    assert_eq!(last_message(&e).unwrap(), b"earlier\0");
}

#[test]
fn engine_ids_round_trip() {
    let mut e = LastError::new();
    for engine in Engine::ALL {
        assert_eq!(engine_from_i32(&mut e, engine.id()), Ok(engine));
    }
    assert_eq!(engine_from_i32(&mut e, 0), Ok(Engine::Analytic));
    assert_eq!(engine_from_i32(&mut e, 5), Ok(Engine::MonteCarlo));
    assert!(last_message(&e).is_none());
}

#[test]
fn unknown_engine_id_is_a_domain_error() {
    let mut e = LastError::new();
    assert_eq!(engine_from_i32(&mut e, -1), Err(OptStatus::Domain));
    assert_eq!(last_message(&e).unwrap(), b"unknown engine id -1\0");
    assert_eq!(engine_from_i32(&mut e, 6), Err(OptStatus::Domain));
    assert_eq!(last_message(&e).unwrap(), b"unknown engine id 6\0");
    assert_eq!(engine_from_i32(&mut e, i32::MAX), Err(OptStatus::Domain));
    assert_eq!(last_message(&e).unwrap(), b"unknown engine id 2147483647\0");
    assert_eq!(engine_from_i32(&mut e, i32::MIN), Err(OptStatus::Domain));
    assert_eq!(last_message(&e).unwrap(), b"unknown engine id -2147483648\0");
    assert_eq!(engine_from_i32(&mut e, 120), Err(OptStatus::Domain));
    assert_eq!(last_message(&e).unwrap(), b"unknown engine id 120\0");
}

#[test]
fn setter_limits() {
    let mut e = LastError::new();
    assert_eq!(check_count_setting(&mut e, CountSetting::TreeSteps, 1), Err(OptStatus::Domain));
    assert_eq!(last_message(&e).unwrap(), b"tree steps must be at least 3\0");
    optrs::last_error::clear(&mut e);
    assert_eq!(check_count_setting(&mut e, CountSetting::TreeSteps, 501), Ok(()));
    assert!(last_message(&e).is_none());
    assert_eq!(check_count_setting(&mut e, CountSetting::FdSpaceSteps, 3), Err(OptStatus::Domain));
    assert_eq!(last_message(&e).unwrap(), b"fd space steps must be at least 4\0");
    assert_eq!(check_count_setting(&mut e, CountSetting::FdTimeSteps, 3), Ok(()));
    assert_eq!(check_count_setting(&mut e, CountSetting::McPaths, 1), Err(OptStatus::Domain));
    assert_eq!(check_count_setting(&mut e, CountSetting::McSteps, 0), Err(OptStatus::Domain));
    assert_eq!(last_message(&e).unwrap(), b"mc steps must be at least 1\0");
    assert_eq!(check_count_setting(&mut e, CountSetting::CosTerms, 7), Err(OptStatus::Domain));
    assert_eq!(check_count_setting(&mut e, CountSetting::CosTerms, 8), Ok(()));
    assert_eq!(check_count_setting(&mut e, CountSetting::MaxRefinements, 0), Err(OptStatus::Domain));
    assert_eq!(last_message(&e).unwrap(), b"max refinements must be at least 1\0");
}

#[test]
fn stale_struct_size_is_rejected() {
    // An ancient caller declaring 8 bytes for a 96-byte struct.
    match size_handshake(8, 96, "opt_option_t size smaller than expected") {
        Err(Error::Domain(msg)) => assert_eq!(msg, "opt_option_t size smaller than expected"),
        other => panic!("unexpected {other:?}"),
    }
    assert!(size_handshake(96, 96, "m").is_ok());
    assert!(size_handshake(200, 96, "m").is_ok());
    assert!(size_handshake(95, 96, "m").is_err());
}

#[test]
fn kind_and_style_decode() {
    assert_eq!(OptKind::from_code(0), Some(OptKind::Call));
    assert_eq!(OptKind::from_code(1), Some(OptKind::Put));
    assert_eq!(OptKind::from_code(2), None);
    assert_eq!(OptStyle::from_code(2), Some(OptStyle::Bermudan));
    assert_eq!(OptStyle::from_code(-1), None);
    assert_eq!(OptStyle::from_code(3), None);
}
