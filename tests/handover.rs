use doublecross::{bounded, unbounded};

#[test]
fn simultaneous_handover() {
    let (left, right) = bounded(1);
    assert!(left.send(10).is_ok());
    assert!(right.send(20).is_ok());
    assert_eq!(left.recv(), Some(20));
    assert_eq!(right.recv(), Some(10));
}

#[test]
fn asymmetric_message_types() {
    let (left, right) = unbounded::<u8, i16>();
    assert!(left.send(0i16).is_ok());
    assert_eq!(right.recv().unwrap(), 0i16);
    assert!(right.send(0u8).is_ok());
    assert_eq!(left.recv().unwrap(), 0u8);
}
