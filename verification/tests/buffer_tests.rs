use cpu_hash::Workload;

fn expected_buffer(tag: &[u8], counter: u64) -> Vec<u8> {
    let mut buf = Vec::new();
    buf.extend_from_slice(tag);
    buf.resize(24, 0u8);
    buf.extend_from_slice(&counter.to_le_bytes());
    buf
}

#[test]
fn buffer_layout_counter_zero() {
    let w = Workload::standard();
    let buf = w.buffer_for(0);
    assert_eq!(buf.len(), 32);
    assert_eq!(buf, expected_buffer(b"cpu-hash-benchmark", 0));
    assert_eq!(&buf[18..32], &[0u8; 14]);
}

#[test]
fn buffer_layout_counter_spans_byte_four() {
    let w = Workload::standard();
    let counter: u64 = 1 << 32;
    let buf = w.buffer_for(counter);
    assert_eq!(buf, expected_buffer(b"cpu-hash-benchmark", counter));
    assert_eq!(&buf[24..32], &[0, 0, 0, 0, 1, 0, 0, 0]);
}

#[test]
fn buffer_layout_short_tag() {
    let w = Workload::new(b"ab".to_vec()).unwrap();
    let buf = w.buffer_for(7);
    let mut expected = vec![b'a', b'b'];
    expected.resize(24, 0u8);
    expected.extend_from_slice(&7u64.to_le_bytes());
    assert_eq!(buf, expected);
}

#[test]
fn buffer_layout_full_tag() {
    let tag = vec![9u8; 24];
    let w = Workload::new(tag.clone()).unwrap();
    let buf = w.buffer_for(u64::MAX);
    let mut expected = tag;
    expected.extend_from_slice(&u64::MAX.to_le_bytes());
    assert_eq!(buf, expected);
}
