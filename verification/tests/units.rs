use disk_timer::units::to_gigabytes;
use disk_timer::units::to_kilobytes;
use disk_timer::units::to_megabytes;

#[test]
fn kilobytes_exact() {
    assert_eq!(to_kilobytes(0), 0);
    assert_eq!(to_kilobytes(1), 1024);
    assert_eq!(to_kilobytes(8), 8192);
}

#[test]
fn megabytes_exact() {
    assert_eq!(to_megabytes(0), 0);
    assert_eq!(to_megabytes(1), 1048576);
    assert_eq!(to_megabytes(3), 3145728);
}

#[test]
fn gigabytes_exact() {
    assert_eq!(to_gigabytes(0), 0);
    assert_eq!(to_gigabytes(1), 1073741824);
    assert_eq!(to_gigabytes(2), 2147483648);
}

#[test]
fn units_consistent_scenarios() {
    let counts: [i32; 4] = [0, 1, 7, 100];
    for n in counts {
        assert_eq!(to_megabytes(n), to_kilobytes(n) * 1024);
        assert_eq!(to_gigabytes(n), to_megabytes(n) * 1024);
    }
}
