use sumatra_parser::natives::{
    arraycopy, arraycopy_within, available_processors, primitive_class_name, processors_as_int,
};

#[test]
fn arraycopy_replaces_only_the_target_range() {
    let src = vec![1, 2, 3, 4, 5];
    let mut dest = vec![0, 0, 0, 0, 0, 0];
    arraycopy(&src, 1, &mut dest, 2, 3);
    assert_eq!(dest, vec![0, 0, 2, 3, 4, 0]);
}

#[test]
fn arraycopy_of_nothing_changes_nothing() {
    let src: Vec<u8> = vec![7, 8];
    let mut dest = vec![1, 2, 3];
    arraycopy(&src, 2, &mut dest, 3, 0);
    assert_eq!(dest, vec![1, 2, 3]);
}

#[test]
fn arraycopy_whole_array() {
    let src = vec![9i64, -9, 10];
    let mut dest = vec![0i64; 3];
    arraycopy(&src, 0, &mut dest, 0, 3);
    assert_eq!(dest, src);
}

#[test]
fn primitive_class_name_reads_latin1_bytes() {
    let bytes: Vec<i8> = "int".bytes().map(|b| b as i8).collect();
    assert_eq!(primitive_class_name(&bytes), "int");
    assert_eq!(primitive_class_name(&[]), "");
    assert_eq!(primitive_class_name(&[-23i8]), "\u{e9}");
}

#[test]
fn arraycopy_within_overlapping_ranges() {
    let mut a = vec![1, 2, 3, 4, 5, 6];
    arraycopy_within(&mut a, 0, 2, 4);
    assert_eq!(a, vec![1, 2, 1, 2, 3, 4]);
    let mut b = vec![1, 2, 3, 4, 5, 6];
    arraycopy_within(&mut b, 2, 0, 4);
    assert_eq!(b, vec![3, 4, 5, 6, 5, 6]);
}

#[test]
fn processor_counts_as_java_ints() {
    assert_eq!(processors_as_int(4), 4);
    assert_eq!(processors_as_int(1), 1);
    assert!(available_processors() >= 1);
}
