//! Which function codes are known.

use oms_modbus::frame::is_known_function_code;

#[test]
fn known_function_codes_accepted() {
    // Standard FCs: 1-6, 8, 15, 16, 22, 23
    for fc in [1u8, 2, 3, 4, 5, 6, 8, 15, 16, 22, 23] {
        assert!(
            is_known_function_code(fc),
            "standard FC {fc} should be known"
        );
    }
    // Exception variants: standard + 0x80
    for fc in [
        0x81u8, 0x82, 0x83, 0x84, 0x85, 0x86, 0x88, 0x8F, 0x90, 0x96, 0x97,
    ] {
        assert!(
            is_known_function_code(fc),
            "exception FC 0x{fc:02X} should be known"
        );
    }
}

#[test]
fn unknown_function_codes_rejected() {
    for fc in [0u8, 7, 9, 14, 18, 24, 0x80, 0x87, 0xFF] {
        assert!(
            !is_known_function_code(fc),
            "unknown FC {fc} should NOT be known"
        );
    }
}
