use kabi::sched::CpuSet;

#[test]
fn test_cpuset() {
    let test = CpuSet::full();

    assert_eq!(test, CpuSet { bits: [u64::MAX; 16] });

    let test = CpuSet::empty();
    assert_eq!(test, CpuSet { bits: [0; 16] });

    let test = CpuSet::empty().set(1);

    assert_eq!(
        test,
        CpuSet {
            bits: [2, 0, 0, 0, 0, 0, 0, 0, 0, 0, 0, 0, 0, 0, 0, 0],
        }
    );
}

#[test]
fn test_cpuset_ops() {
    let test = CpuSet {
        bits: [0xFFFF, 0, 0, 0, 0, 0, 0, 0, 0, 0, 0, 0, 0, 0, 0, 0],
    }
    .clear(0);
    assert_eq!(test.bits[0], 0xFFFE);
    let test = test.clear(7).clear(9).clear(8).clear(4);
    assert_eq!(test.bits[0], 0xFC6E);
    assert_eq!(CpuSet::empty().set(63).bits[0], 0x8000000000000000);

    assert_eq!(CpuSet::empty().set(64).bits[1], 1);

    assert_eq!(
        CpuSet::from_bitmask(0x808000841000410).bits[0],
        0x808000841000410
    );
}

#[test]
fn test_cpuset_membership() {
    // Setting one index on the empty mask marks exactly that index.
    let marked: usize = 130;
    let cs = CpuSet::empty().set(marked);
    for core in 0..1024usize {
        assert_eq!(cs.is_set(core), core == marked);
    }

    // The full mask has every index; the empty mask has none.
    let full = CpuSet::full();
    let empty = CpuSet::empty();
    for core in 0..1024usize {
        assert!(full.is_set(core));
        assert!(!empty.is_set(core));
    }

    // Clearing gives back the empty mask.
    let cs = cs.clear(marked);
    assert_eq!(cs, empty);
}

#[test]
fn test_cpuset_from_bitmask_bits() {
    let mask: u64 = 0x808000841000410;
    let cs = CpuSet::from_bitmask(mask);
    for core in 0..1024usize {
        let expected = core < 64 && (mask >> core) & 1 == 1;
        assert_eq!(cs.is_set(core), expected);
    }
}

#[test]
fn test_cpuset_size_of() {
    assert_eq!(CpuSet::size_of(), 128);
    assert_eq!(CpuSet::size_of(), core::mem::size_of::<CpuSet>());
}
