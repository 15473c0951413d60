use ppc750cl::sweep::{is_progress_point, partition};

#[test]
fn one_part_covers_everything() {
    assert_eq!(partition(1), vec![(0, 0xffff_ffff)]);
}

#[test]
fn parts_are_contiguous() {
    assert_eq!(partition(2), vec![(0, 0x7fff_ffff), (0x7fff_ffff, 0xffff_ffff)]);
    assert_eq!(
        partition(3),
        vec![(0, 0x5555_5555), (0x5555_5555, 0xaaaa_aaaa), (0xaaaa_aaaa, 0xffff_ffff)]
    );
    let r = partition(4);
    assert_eq!(r.len(), 4);
    assert_eq!(r[3], (0xbfff_fffd, 0xffff_ffff));
    for n in [5u32, 7, 16, 1000] {
        let r = partition(n);
        assert_eq!(r[0].0, 0);
        assert_eq!(r.last().unwrap().1, 0xffff_ffff);
        for w in r.windows(2) {
            assert_eq!(w[0].1, w[1].0);
        }
    }
}

#[test]
fn progress_points() {
    assert!(is_progress_point(0));
    assert!(is_progress_point(0x80000));
    assert!(!is_progress_point(0x80001));
}
