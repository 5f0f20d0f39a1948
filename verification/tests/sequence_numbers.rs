use demitcp::seq_number::SeqNumber;

#[test]
fn arithmetic_wraps_around() {
    let last = SeqNumber::new(u32::MAX);
    assert_eq!(last.plus(1), SeqNumber::new(0));
    assert_eq!(last.plus(11), SeqNumber::new(10));
    assert_eq!(SeqNumber::new(10).minus(last), 11);
    assert_eq!(SeqNumber::new(5).plus_len(7), SeqNumber::new(12));
    assert_eq!(SeqNumber::new(5).plus_len(0x1_0000_0003), SeqNumber::new(8));
}

#[test]
fn order_follows_the_circle() {
    let low = SeqNumber::new(1);
    let high = SeqNumber::new(u32::MAX);
    assert!(high.lt(low));
    assert!(!low.lt(high));
    assert!(!low.lt(low));
    assert!(low.lt(SeqNumber::new(2)));
}

#[test]
fn opposite_numbers_come_before_each_other() {
    let a = SeqNumber::new(0);
    let b = SeqNumber::new(0x8000_0000);
    assert!(a.lt(b));
    assert!(b.lt(a));
    assert!(!a.lt(SeqNumber::new(0x8000_0001)));
}
