use kabi::mman::MmanFlags;

#[test]
fn test_mman_flags() {
    let mut flags = MmanFlags::default();
    assert_eq!(flags.bits(), 0);
    assert!(!flags.is_set(MmanFlags::MCL_CURRENT));
    flags.set(MmanFlags::MCL_CURRENT);
    flags.set(MmanFlags::MCL_ONFAULT);
    assert!(flags.is_set(MmanFlags::MCL_CURRENT));
    assert!(flags.is_set(MmanFlags::MCL_ONFAULT));
    assert!(flags.is_set(MmanFlags::MCL_CURRENT | MmanFlags::MCL_ONFAULT));
    assert!(!flags.is_set(MmanFlags::MCL_FUTURE));
    assert_eq!(flags.bits(), 0x05);
    assert_eq!(MmanFlags::from_bits(0x05), flags);
}
