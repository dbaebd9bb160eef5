use sumatra_parser::flags::{ClassAccessFlags, MethodAccessFlags, MethodParamAccessFlags, RequiresFlags};

#[test]
fn from_bits_accepts_defined_flags_only() {
    let f = MethodAccessFlags::from_bits(0x0009).unwrap();
    assert!(f.contains(MethodAccessFlags::STATIC));
    assert!(f.contains(MethodAccessFlags::PUBLIC));
    assert!(!f.contains(MethodAccessFlags::NATIVE));
    assert_eq!(f.bits(), 9);
    assert!(MethodAccessFlags::from_bits(0x0200).is_none());
    assert!(ClassAccessFlags::from_bits(0x0002).is_none());
    assert!(ClassAccessFlags::from_bits(0xF631).is_some());
    assert!(MethodParamAccessFlags::from_bits(0x8010).is_some());
    assert!(RequiresFlags::from_bits(0x0001).is_none());
    assert_eq!(ClassAccessFlags::empty().bits(), 0);
    assert!(ClassAccessFlags::empty().contains(0));
}
