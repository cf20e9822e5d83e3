use doca::error::{errcode_to_result, u32_decimal, DOCA_SUCCESS};

#[test]
fn success_code_maps_to_ok() {
    assert!(errcode_to_result(DOCA_SUCCESS).is_ok());
    assert!(errcode_to_result(0).is_ok());
}

#[test]
fn failure_codes_keep_their_code() {
    for code in [1u32, 2, 6, 7, 22, 23, 100, u32::MAX] {
        let e = errcode_to_result(code).unwrap_err();
        assert_eq!(e.code(), code);
    }
}

#[test]
fn description_is_nonempty_for_every_enumerated_code() {
    for code in 1u32..=22 {
        let e = errcode_to_result(code).unwrap_err();
        assert!(!e.description().is_empty());
    }
}

#[test]
fn description_is_nonempty_for_unrecognized_codes() {
    for code in [23u32, 999, u32::MAX] {
        let e = errcode_to_result(code).unwrap_err();
        assert!(!e.description().is_empty());
    }
}

#[test]
fn message_embeds_code_and_description() {
    for code in 1u32..=22 {
        let e = errcode_to_result(code).unwrap_err();
        let m = e.message();
        assert!(m.contains(&code.to_string()));
        assert!(m.contains(e.description()));
        assert!(!e.description().is_empty());
    }
}

#[test]
fn message_of_invalid_input() {
    let e = errcode_to_result(6).unwrap_err();
    assert_eq!(e.description(), "invalid input");
    assert_eq!(e.message(), "error code 6: invalid input");
}

#[test]
fn message_of_unrecognized_code() {
    let e = errcode_to_result(99999).unwrap_err();
    assert_eq!(e.message(), "error code 99999: unrecognized status code");
}

#[test]
fn decimal_rendering_is_exact() {
    assert_eq!(u32_decimal(0), "0");
    assert_eq!(u32_decimal(7), "7");
    assert_eq!(u32_decimal(10), "10");
    assert_eq!(u32_decimal(40960), "40960");
    assert_eq!(u32_decimal(u32::MAX), "4294967295");
}
