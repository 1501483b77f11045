use marshal_stubs::host::{ResultBuffer, SENTINEL};
use marshal_stubs::wire::EncodeFailure;

#[test]
fn a_new_buffer_is_empty() {
    assert_eq!(ResultBuffer::new().len(), 0);
}

#[test]
fn sentinel_is_minus_one() {
    assert_eq!(SENTINEL, -1);
}

#[test]
fn host_reports_the_length_and_keeps_the_bytes() {
    let mut buffer = ResultBuffer::new();
    assert_eq!(buffer.publish(&(2i32 + 3)), 4);
    assert_eq!(buffer.len(), 4);
    assert_eq!(buffer.get_mem(0), 5);
    assert_eq!(buffer.get_mem(1), 0);
    assert_eq!(buffer.get_mem(2), 0);
    assert_eq!(buffer.get_mem(3), 0);
}

#[test]
fn host_reports_a_string_by_its_bytes() {
    let mut buffer = ResultBuffer::new();
    assert_eq!(buffer.publish(&"h\u{e9}".to_string()), 3);
    assert_eq!(buffer.get_mem(0), b'h');
    assert_eq!(buffer.get_mem(1), 0xc3);
    assert_eq!(buffer.get_mem(2), 0xa9);
}

#[test]
fn store_reports_the_number_of_bytes() {
    let mut buffer = ResultBuffer::new();
    assert_eq!(buffer.store(Ok(vec![])), 0);
    assert_eq!(buffer.len(), 0);
    assert_eq!(buffer.store(Ok(vec![9; 300])), 300);
    assert_eq!(buffer.len(), 300);
    assert_eq!(buffer.get_mem(299), 9);
}

#[test]
fn failed_encoding_is_reported_by_the_sentinel() {
    let mut buffer = ResultBuffer::new();
    assert_eq!(buffer.store(Err(EncodeFailure)), -1);
    assert_eq!(buffer.len(), 0);
}

#[test]
fn failed_encoding_leaves_the_buffer_as_it_was() {
    let mut buffer = ResultBuffer::new();
    assert_eq!(buffer.store(Ok(vec![1, 2, 3])), 3);
    assert_eq!(buffer.store(Err(EncodeFailure)), -1);
    assert_eq!(buffer.len(), 3);
    assert_eq!(buffer.get_mem(0), 1);
    assert_eq!(buffer.get_mem(2), 3);
}

#[test]
fn a_result_replaces_the_one_before() {
    let mut buffer = ResultBuffer::new();
    assert_eq!(buffer.publish(&"a long result".to_string()), 13);
    assert_eq!(buffer.publish(&7i32), 4);
    assert_eq!(buffer.len(), 4);
    assert_eq!(buffer.get_mem(0), 7);
}
