use mathimage::ids::{is_lower_hex_char, is_random_id_text};

#[test]
fn the_form_of_a_random_identifier_is_told() {
    assert!(is_random_id_text("67e55044-10b1-426f-9247-bb680e5fe0c8"));
    assert!(is_random_id_text("00000000-0000-4000-8000-000000000000"));
    assert!(is_random_id_text("ffffffff-ffff-4fff-bfff-ffffffffffff"));
    assert!(!is_random_id_text(""));
    assert!(!is_random_id_text("67e55044-10b1-426f-9247-bb680e5fe0c"));
    assert!(!is_random_id_text("67e55044-10b1-426f-9247-bb680e5fe0c80"));
    assert!(!is_random_id_text("67E55044-10B1-426F-9247-BB680E5FE0C8"));
    assert!(!is_random_id_text("67e55044-10b1-126f-9247-bb680e5fe0c8"));
    assert!(!is_random_id_text("67e55044-10b1-426f-c247-bb680e5fe0c8"));
    assert!(!is_random_id_text("67e55044-10b1-426f-7247-bb680e5fe0c8"));
    assert!(!is_random_id_text("67e55044x10b1-426f-9247-bb680e5fe0c8"));
    assert!(!is_random_id_text("67e5504--10b1-426f-9247-bb680e5fe0c8"));
    assert!(!is_random_id_text("67e55044-10b1-426f-9247-bb680e5fe0cg"));
    assert!(!is_random_id_text("67e55044010b10426f092470bb680e5fe0c8"));
}

#[test]
fn lower_case_hexadecimal_digits_are_told() {
    for c in "0123456789abcdef".chars() {
        assert!(is_lower_hex_char(c));
    }
    for c in "ABCDEFg/:`- ".chars() {
        assert!(!is_lower_hex_char(c));
    }
}
