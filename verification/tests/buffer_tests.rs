use aodata::buffer::IntakeBuffer;

#[test]
fn new_buffer_is_empty() {
    let buffer: IntakeBuffer<u32> = IntakeBuffer::new();
    assert_eq!(buffer.len(), 0);
    assert!(buffer.is_empty());
}

#[test]
fn drain_hands_out_in_push_order() {
    let mut buffer = IntakeBuffer::new();
    buffer.push("a".to_string());
    buffer.push("b".to_string());
    buffer.push("c".to_string());
    assert_eq!(buffer.len(), 3);
    assert!(!buffer.is_empty());
    assert_eq!(buffer.drain_all(), vec!["a".to_string(), "b".to_string(), "c".to_string()]);
    assert_eq!(buffer.len(), 0);
    assert!(buffer.is_empty());
}

#[test]
fn drain_of_empty_buffer_is_empty() {
    let mut buffer: IntakeBuffer<Vec<u8>> = IntakeBuffer::new();
    assert!(buffer.drain_all().is_empty());
    assert!(buffer.drain_all().is_empty());
}

#[test]
fn every_push_is_drained_exactly_once() {
    let mut buffer = IntakeBuffer::new();
    let mut handed_out: Vec<u32> = Vec::new();
    let mut next: u32 = 0;
    for round in 0..20u32 {
        for _ in 0..(round % 5) {
            buffer.push(next);
            next += 1;
        }
        if round % 3 == 0 {
            handed_out.extend(buffer.drain_all());
        }
    }
    handed_out.extend(buffer.drain_all());
    let expected: Vec<u32> = (0..next).collect();
    assert_eq!(handed_out, expected);
    assert!(buffer.is_empty());
}

#[test]
fn a_push_after_a_drain_waits_for_the_next_drain() {
    let mut buffer = IntakeBuffer::new();
    buffer.push(1u8);
    let first = buffer.drain_all();
    buffer.push(2u8);
    let second = buffer.drain_all();
    assert_eq!(first, vec![1u8]);
    assert_eq!(second, vec![2u8]);
}
