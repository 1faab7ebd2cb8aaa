use zephyr::dfu::write_semver;

#[test]
fn semver_fits_with_nul() {
    let mut out = [0xAAu8; 32];
    write_semver(&mut out, 1, 2, 3, 4);
    assert_eq!(&out[..8], b"1.2.3+4\0");
    assert!(out[8..].iter().all(|&b| b == 0xAA));
}

#[test]
fn semver_multi_digit_fields() {
    let mut out = [0xAAu8; 32];
    write_semver(&mut out, 10, 200, 3000, 123456);
    assert_eq!(&out[..19], b"10.200.3000+123456\0");
    assert_eq!(out[19], 0xAA);
}

#[test]
fn semver_zero_version() {
    let mut out = [0xAAu8; 10];
    write_semver(&mut out, 0, 0, 0, 0);
    assert_eq!(&out[..8], b"0.0.0+0\0");
    assert_eq!(&out[8..], &[0xAA, 0xAA]);
}

#[test]
fn semver_largest_version_fits_in_25_bytes() {
    let mut out = [0xAAu8; 25];
    write_semver(&mut out, 255, 255, 65535, 4294967295);
    assert_eq!(&out[..], b"255.255.65535+4294967295\0");
}

#[test]
fn semver_truncated_to_buffer() {
    let mut out = [0xAAu8; 5];
    write_semver(&mut out, 1, 2, 3, 4);
    assert_eq!(&out, b"1.2.\0");
}

#[test]
fn semver_text_exactly_buffer_length_loses_last_byte() {
    let mut out = [0xAAu8; 7];
    write_semver(&mut out, 1, 2, 3, 4);
    assert_eq!(&out, b"1.2.3+\0");
}

#[test]
fn semver_one_byte_buffer_is_empty_string() {
    let mut out = [0xAAu8; 1];
    write_semver(&mut out, 9, 9, 9, 9);
    assert_eq!(out, [0]);
}

#[test]
fn semver_empty_buffer_untouched() {
    let mut out: [u8; 0] = [];
    write_semver(&mut out, 1, 2, 3, 4);
    assert_eq!(out.len(), 0);
}

#[test]
fn semver_reads_back_as_c_string() {
    let mut out = [0xAAu8; 40];
    write_semver(&mut out, 3, 14, 159, 2653);
    let end = out.iter().position(|&b| b == 0).unwrap();
    assert_eq!(std::str::from_utf8(&out[..end]).unwrap(), "3.14.159+2653");
}
