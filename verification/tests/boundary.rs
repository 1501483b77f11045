use marshal_stubs::boundary::{deliver, exchange};
use marshal_stubs::guest::{announced_size, proxy_return, Readback, Reader};
use marshal_stubs::host::ResultBuffer;
use marshal_stubs::wire::{DecodeFailure, EncodeFailure};

fn host_add(buffer: &mut ResultBuffer, a: i32, b: i32) -> i32 {
    buffer.publish(&(a + b))
}

fn guest_add(buffer: &mut ResultBuffer, a: i32, b: i32) -> Option<i32> {
    let rval = host_add(buffer, a, b);
    let mut reader = Reader::new(|addr| buffer.get_mem(addr));
    proxy_return(rval as isize, &mut reader).unwrap()
}

#[test]
fn add_two_and_three_is_present_five() {
    let mut buffer = ResultBuffer::new();
    assert_eq!(guest_add(&mut buffer, 2, 3), Some(5));
}

#[test]
fn failed_encoding_is_absent() {
    let mut buffer = ResultBuffer::new();
    let rval = buffer.store(Err(EncodeFailure));
    assert_eq!(rval, -1);
    let mut reader = Reader::new(|_| panic!("a byte was read"));
    let r: Result<Option<i32>, DecodeFailure> = proxy_return(rval as isize, &mut reader);
    assert_eq!(r, Ok(None));
    assert_eq!(deliver::<i32>(&buffer, rval as isize), Ok(None));
}

#[test]
fn two_calls_in_a_row_each_round_trip() {
    let mut buffer = ResultBuffer::new();
    assert_eq!(guest_add(&mut buffer, 1, 1), Some(2));
    assert_eq!(guest_add(&mut buffer, 2, 2), Some(4));
}

#[test]
fn a_shorter_result_leaves_nothing_of_a_longer_one() {
    let mut buffer = ResultBuffer::new();
    let rval = buffer.publish(&"a long result".to_string());
    assert_eq!(rval, 13);
    let rval = buffer.publish(&7i32);
    assert_eq!(rval, 4);
    assert_eq!(deliver::<i32>(&buffer, rval as isize), Ok(Some(7)));
}

#[test]
fn a_string_crosses() {
    let mut buffer = ResultBuffer::new();
    let rval = buffer.publish(&"h\u{e9}llo".to_string());
    assert_eq!(rval, 6);
    let mut reader = Reader::new(|addr| buffer.get_mem(addr));
    let r: Result<Option<String>, DecodeFailure> = proxy_return(rval as isize, &mut reader);
    assert_eq!(r, Ok(Some("h\u{e9}llo".to_string())));
}

#[test]
fn bytes_of_another_type_do_not_decode() {
    let mut buffer = ResultBuffer::new();
    let rval = buffer.publish(&5i64);
    assert_eq!(deliver::<i32>(&buffer, rval as isize), Err(DecodeFailure));
    assert_eq!(deliver::<i64>(&buffer, rval as isize), Ok(Some(5)));
}

#[test]
fn deliver_reads_no_more_than_the_word_says() {
    let mut buffer = ResultBuffer::new();
    assert_eq!(buffer.store(Ok(vec![7, 0, 0, 0, 9, 9, 9, 9])), 8);
    assert_eq!(deliver::<i32>(&buffer, 4), Ok(Some(7)));
    assert_eq!(deliver::<i64>(&buffer, 8), Ok(Some(0x0909_0909_0000_0007)));
    assert_eq!(deliver::<String>(&buffer, 0), Ok(Some(String::new())));
}

#[test]
fn exchange_hands_the_value_through() {
    let mut buffer = ResultBuffer::new();
    assert_eq!(exchange(&mut buffer, &5i32), Ok(Some(5)));
    assert_eq!(buffer.len(), 4);
    assert_eq!(exchange(&mut buffer, &-5i64), Ok(Some(-5)));
    assert_eq!(buffer.len(), 8);
    assert_eq!(exchange(&mut buffer, &u32::MAX), Ok(Some(u32::MAX)));
    assert_eq!(exchange(&mut buffer, &(1u64 << 40)), Ok(Some(1u64 << 40)));
    assert_eq!(exchange(&mut buffer, &"add".to_string()), Ok(Some("add".to_string())));
    assert_eq!(buffer.len(), 3);
}

#[test]
fn a_readback_by_hand_gives_what_the_proxy_gives() {
    let mut buffer = ResultBuffer::new();
    let rval = buffer.publish(&-7i32) as isize;
    let mut state = Readback::begin(announced_size(rval).unwrap());
    while let Some(addr) = state.pending() {
        state = state.accept(buffer.get_mem(addr));
    }
    assert_eq!(state.finish(), vec![249, 255, 255, 255]);
    assert_eq!(deliver::<i32>(&buffer, rval), Ok(Some(-7)));
}
