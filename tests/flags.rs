use lapack_array2::error::LapackError;
use lapack_array2::flags::{flag_code, flip_layout, flip_side, flip_trans, flip_uplo, to_upper, LapackLayout};

fn is_invalid_flag<T>(r: Result<T, LapackError>) -> bool {
    matches!(r, Err(LapackError::InvalidFlag(_)))
}

#[test]
fn layout_flip_swaps_major_orders() {
    assert_eq!(LapackLayout::RowMajor.flip(), Ok(LapackLayout::ColMajor));
    assert_eq!(LapackLayout::ColMajor.flip(), Ok(LapackLayout::RowMajor));
    assert!(is_invalid_flag(LapackLayout::Sequential.flip()));
    assert!(is_invalid_flag(LapackLayout::NonContiguous.flip()));
    assert!(is_invalid_flag(LapackLayout::Undefined.flip()));
}

#[test]
fn layout_preferences() {
    assert!(LapackLayout::RowMajor.is_cpref());
    assert!(!LapackLayout::RowMajor.is_fpref());
    assert!(LapackLayout::ColMajor.is_fpref());
    assert!(!LapackLayout::ColMajor.is_cpref());
    assert!(LapackLayout::Sequential.is_cpref());
    assert!(LapackLayout::Sequential.is_fpref());
    assert!(!LapackLayout::NonContiguous.is_cpref());
    assert!(!LapackLayout::NonContiguous.is_fpref());
    assert!(!LapackLayout::Undefined.is_fpref());
    assert_eq!(LapackLayout::default(), LapackLayout::Undefined);
}

#[test]
fn layout_characters() {
    assert_eq!(LapackLayout::from_char('r'), LapackLayout::RowMajor);
    assert_eq!(LapackLayout::from_char('R'), LapackLayout::RowMajor);
    assert_eq!(LapackLayout::from_char('c'), LapackLayout::ColMajor);
    assert_eq!(LapackLayout::from_char('x'), LapackLayout::Undefined);
    assert_eq!(LapackLayout::RowMajor.to_char(), Ok('R'));
    assert_eq!(LapackLayout::ColMajor.to_char(), Ok('C'));
    assert!(is_invalid_flag(LapackLayout::Sequential.to_char()));
    assert_eq!(LapackLayout::RowMajor.to_c_char(), Ok(b'R' as i8));
    assert_eq!(LapackLayout::ColMajor.to_c_char(), Ok(b'C' as i8));
    assert!(is_invalid_flag(LapackLayout::Undefined.to_c_char()));
}

#[test]
fn flag_flips() {
    assert_eq!(flip_uplo('U'), Ok('L'));
    assert_eq!(flip_uplo('L'), Ok('U'));
    assert!(is_invalid_flag(flip_uplo('u')));
    assert_eq!(flip_side('R'), Ok('L'));
    assert_eq!(flip_side('L'), Ok('R'));
    assert!(is_invalid_flag(flip_side('X')));
    assert_eq!(flip_layout('R'), Ok('C'));
    assert_eq!(flip_layout('C'), Ok('R'));
    assert!(is_invalid_flag(flip_layout('N')));
    assert_eq!(flip_trans('N', true), Ok('C'));
    assert_eq!(flip_trans('N', false), Ok('T'));
    assert_eq!(flip_trans('T', false), Ok('N'));
    assert_eq!(flip_trans('C', true), Ok('N'));
    assert!(is_invalid_flag(flip_trans('Q', true)));
}

#[test]
fn upper_case_of_ascii_letters_only() {
    assert_eq!(to_upper('a'), 'A');
    assert_eq!(to_upper('z'), 'Z');
    assert_eq!(to_upper('Q'), 'Q');
    assert_eq!(to_upper('1'), '1');
    assert_eq!(to_upper('é'), 'é');
}

#[test]
fn every_flag_character_is_checked() {
    let jobz = ['N', 'V'];
    let uplo = ['U', 'L'];
    for b in 0u8..128 {
        let c = b as char;
        let up = c.to_ascii_uppercase();
        let r = flag_code(c, &jobz);
        if up == 'N' || up == 'V' {
            assert_eq!(r, Ok(up as u8 as i8));
        } else {
            assert!(is_invalid_flag(r), "{:?} accepted as a job flag", c);
        }
        let r = flag_code(c, &uplo);
        if up == 'U' || up == 'L' {
            assert_eq!(r, Ok(up as u8 as i8));
        } else {
            assert!(is_invalid_flag(r), "{:?} accepted as a triangle flag", c);
        }
    }
    assert!(is_invalid_flag(flag_code('ü', &jobz)));
    assert_eq!(flag_code('v', &jobz), Ok(86));
    assert_eq!(flag_code('n', &jobz), Ok(78));
    assert_eq!(flag_code('l', &uplo), Ok(76));
}

#[test]
fn layout_from_character() {
    assert_eq!(LapackLayout::from('r'), LapackLayout::RowMajor);
    assert_eq!(LapackLayout::from('C'), LapackLayout::ColMajor);
    let l: LapackLayout = 'q'.into();
    assert_eq!(l, LapackLayout::Undefined);
}

#[test]
fn flag_errors_name_the_value_and_the_legal_set() {
    let r = flag_code('x', &['N', 'V']);
    assert_eq!(r, Err(LapackError::InvalidFlag(String::from("invalid flag x, where valid values are NV"))));
    let r = flag_code('T', &['U', 'L']);
    assert_eq!(r, Err(LapackError::InvalidFlag(String::from("invalid flag T, where valid values are UL"))));
}
