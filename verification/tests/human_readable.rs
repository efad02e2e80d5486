use gpu_streams::bytes_to_human_readable;

#[test]
fn bytes_under_a_unit_stay_in_bytes() {
    assert_eq!(bytes_to_human_readable(0), "0.00 B");
    assert_eq!(bytes_to_human_readable(1), "1.00 B");
    assert_eq!(bytes_to_human_readable(999), "999.00 B");
    assert_eq!(bytes_to_human_readable(1023), "1023.00 B");
}

#[test]
fn each_unit_boundary_switches_suffix() {
    assert_eq!(bytes_to_human_readable(1024), "1.00 KB");
    assert_eq!(bytes_to_human_readable(1048576), "1.00 MB");
    assert_eq!(bytes_to_human_readable(1073741824), "1.00 GB");
    assert_eq!(bytes_to_human_readable(1099511627776), "1.00 TB");
    assert_eq!(bytes_to_human_readable(1125899906842624), "1.00 PB");
}

#[test]
fn fractions_round_to_nearest_to_two_digits() {
    assert_eq!(bytes_to_human_readable(1536), "1.50 KB");
    assert_eq!(bytes_to_human_readable(123456789), "117.74 MB");
    assert_eq!(bytes_to_human_readable(6047313952768), "5.50 TB");
    assert_eq!(bytes_to_human_readable(3377699720527872), "3.00 PB");
}

#[test]
fn exact_midpoints_round_to_the_even_neighbour() {
    // x.xx5 exactly: down to an even hundredth...
    assert_eq!(bytes_to_human_readable(1152), "1.12 KB");
    assert_eq!(bytes_to_human_readable(1664), "1.62 KB");
    assert_eq!(bytes_to_human_readable(2176), "2.12 KB");
    // ...and up to an even hundredth
    assert_eq!(bytes_to_human_readable(1408), "1.38 KB");
}

#[test]
fn small_fractions_keep_their_leading_zero() {
    assert_eq!(bytes_to_human_readable(1034), "1.01 KB");
}

#[test]
fn just_under_a_boundary_rounds_within_the_smaller_unit() {
    assert_eq!(bytes_to_human_readable(1048575), "1024.00 KB");
}
