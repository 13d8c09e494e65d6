use husk::syntax::{Pos, COL_MAX, LINE_MAX};

#[test]
fn new_keeps_what_fits() {
    let pos = Pos::new(12, 3, 7);
    assert_eq!(pos.offset(), 12);
    assert_eq!(pos.line(), 3);
    assert_eq!(pos.col(), 7);
}

#[test]
fn later_offset_is_after() {
    let p1 = Pos::new(5, 900, 1);
    let p2 = Pos::new(6, 1, 900);
    assert!(p2.after(&p1));
    assert!(!p1.after(&p2));
}

#[test]
fn equal_offsets_are_not_after_each_other() {
    let p1 = Pos::new(5, 1, 1);
    let p2 = Pos::new(5, 2, 2);
    assert!(!p1.after(&p2));
    assert!(!p2.after(&p1));
}

#[test]
fn line_beyond_range_reads_as_zero() {
    assert_eq!(LINE_MAX, 262143);
    assert_eq!(Pos::new(0, LINE_MAX, 1).line(), 262143);
    assert_eq!(Pos::new(0, LINE_MAX + 1, 1).line(), 0);
    assert_eq!(Pos::new(0, u32::MAX, 1).line(), 0);
    assert_eq!(Pos::new(0, u32::MAX, 1).col(), 1);
}

#[test]
fn column_beyond_range_reads_as_zero() {
    assert_eq!(COL_MAX, 16383);
    assert_eq!(Pos::new(0, 1, COL_MAX).col(), 16383);
    assert_eq!(Pos::new(0, 1, COL_MAX + 1).col(), 0);
    assert_eq!(Pos::new(0, 1, u32::MAX).col(), 0);
    assert_eq!(Pos::new(0, 1, u32::MAX).line(), 1);
}

#[test]
fn offset_is_kept_whole() {
    assert_eq!(Pos::new(u32::MAX, 1, 1).offset(), u32::MAX);
}

#[test]
fn only_the_zero_position_is_invalid() {
    assert!(!Pos::new(0, 0, 0).is_valid());
    assert!(Pos::new(1, 0, 0).is_valid());
    assert!(Pos::new(0, 1, 0).is_valid());
    assert!(Pos::new(0, 0, 1).is_valid());
    assert!(!Pos::new(0, LINE_MAX + 1, COL_MAX + 1).is_valid());
}
