use tinycoro::{
    running, yield_current, Coroutine, CoroutineError, CoroutineState, Registry,
    DEFAULT_STORAGE_SIZE, MIN_STACK_SIZE,
};

fn pattern(len: usize, seed: u8) -> Vec<u8> {
    let mut out: Vec<u8> = Vec::with_capacity(len);
    let mut i: usize = 0;
    while i < len {
        out.push(((i * 31 + 7) % 251) as u8 ^ seed);
        i += 1;
    }
    out
}

#[test]
fn push_then_pop_returns_the_same_bytes() {
    let mut reg = Registry::new();
    let mut co = Coroutine::new(&mut reg, MIN_STACK_SIZE).unwrap();
    let lens: [usize; 7] = [0, 1, 2, 4, 100, 1023, DEFAULT_STORAGE_SIZE];
    for len in lens.iter() {
        let data = pattern(*len, 0x5a);
        assert_eq!(co.push(&mut reg, &data), Ok(()));
        assert_eq!(co.bytes_stored(&reg), *len);
        assert_eq!(co.pop(&mut reg, *len).unwrap(), data);
        assert_eq!(co.bytes_stored(&reg), 0);
    }
}

#[test]
fn push_past_the_capacity_changes_nothing() {
    let mut reg = Registry::new();
    let mut co = Coroutine::new(&mut reg, MIN_STACK_SIZE).unwrap();
    let big = pattern(DEFAULT_STORAGE_SIZE + 1, 0);
    assert_eq!(co.push(&mut reg, &big), Err(CoroutineError::NotEnoughSpace));
    assert_eq!(co.bytes_stored(&reg), 0);

    let head = pattern(1000, 1);
    co.push(&mut reg, &head).unwrap();
    assert_eq!(co.push(&mut reg, &pattern(25, 2)), Err(CoroutineError::NotEnoughSpace));
    assert_eq!(co.bytes_stored(&reg), 1000);
    assert_eq!(co.peek(&reg, 1000).unwrap(), head);
    assert_eq!(co.push(&mut reg, &pattern(24, 3)), Ok(()));
    assert_eq!(co.bytes_stored(&reg), DEFAULT_STORAGE_SIZE);
    assert_eq!(co.push(&mut reg, &[0]), Err(CoroutineError::NotEnoughSpace));
    assert_eq!(co.push(&mut reg, &[]), Ok(()));
    assert_eq!(co.bytes_stored(&reg), DEFAULT_STORAGE_SIZE);
}

#[test]
fn pop_of_more_than_is_stored_changes_nothing() {
    let mut reg = Registry::new();
    let mut co = Coroutine::new(&mut reg, MIN_STACK_SIZE).unwrap();
    assert_eq!(co.pop(&mut reg, 1), Err(CoroutineError::NotEnoughSpace));
    co.push(&mut reg, &[1, 2, 3]).unwrap();
    assert_eq!(co.pop(&mut reg, 4), Err(CoroutineError::NotEnoughSpace));
    assert_eq!(co.peek(&reg, 4), Err(CoroutineError::NotEnoughSpace));
    assert_eq!(co.bytes_stored(&reg), 3);
    assert_eq!(co.pop(&mut reg, 3).unwrap(), vec![1, 2, 3]);
}

#[test]
fn pop_takes_from_the_tail() {
    let mut reg = Registry::new();
    let mut co = Coroutine::new(&mut reg, MIN_STACK_SIZE).unwrap();
    co.push(&mut reg, &[1, 2, 3, 4, 5]).unwrap();
    assert_eq!(co.pop(&mut reg, 2).unwrap(), vec![4, 5]);
    assert_eq!(co.bytes_stored(&reg), 3);
    assert_eq!(co.pop(&mut reg, 0).unwrap(), Vec::<u8>::new());
    assert_eq!(co.pop(&mut reg, 1).unwrap(), vec![3]);
    assert_eq!(co.pop(&mut reg, 2).unwrap(), vec![1, 2]);
    assert_eq!(co.bytes_stored(&reg), 0);
}

#[test]
fn peek_copies_and_keeps() {
    let mut reg = Registry::new();
    let mut co = Coroutine::new(&mut reg, MIN_STACK_SIZE).unwrap();
    co.push(&mut reg, &[10, 20, 30]).unwrap();
    assert_eq!(co.peek(&reg, 2).unwrap(), vec![20, 30]);
    assert_eq!(co.peek(&reg, 3).unwrap(), vec![10, 20, 30]);
    assert_eq!(co.peek(&reg, 0).unwrap(), Vec::<u8>::new());
    assert_eq!(co.bytes_stored(&reg), 3);
    assert_eq!(co.pop(&mut reg, 3).unwrap(), vec![10, 20, 30]);
}

#[test]
fn values_come_back_last_in_first_out() {
    let mut reg = Registry::new();
    let mut co = Coroutine::new(&mut reg, 64 * 1024).unwrap();
    let number: u32 = 42;
    let text: &str = "Hello, coroutines!";
    let point: (i32, i32) = (10, 20);
    co.push(&mut reg, &number.to_le_bytes()).unwrap();
    assert_eq!(co.bytes_stored(&reg), 4);
    co.push(&mut reg, text.as_bytes()).unwrap();
    co.push(&mut reg, &point.0.to_le_bytes()).unwrap();
    co.push(&mut reg, &point.1.to_le_bytes()).unwrap();
    assert_eq!(co.bytes_stored(&reg), 4 + 18 + 8);

    assert_eq!(co.pop(&mut reg, 4).unwrap(), 20i32.to_le_bytes().to_vec());
    assert_eq!(co.pop(&mut reg, 4).unwrap(), 10i32.to_le_bytes().to_vec());
    assert_eq!(co.pop(&mut reg, text.len()).unwrap(), text.as_bytes().to_vec());
    assert_eq!(co.pop(&mut reg, 4).unwrap(), vec![42, 0, 0, 0]);
    assert_eq!(co.bytes_stored(&reg), 0);
}

#[test]
fn payloads_cross_the_switch_in_order() {
    let mut reg = Registry::new();
    let mut co = Coroutine::new(&mut reg, MIN_STACK_SIZE).unwrap();

    // the resumer passes two arguments
    co.push(&mut reg, &[1, 1]).unwrap();
    co.push(&mut reg, &[2, 2, 2]).unwrap();
    co.resume(&mut reg).unwrap();

    // the coroutine, addressed by what the registry reports, takes them
    let me: usize = running(&reg).unwrap();
    assert_eq!(me, co.id());
    assert_eq!(reg.pop(me, 3).unwrap(), vec![2, 2, 2]);
    assert_eq!(reg.pop(me, 2).unwrap(), vec![1, 1]);
    assert_eq!(reg.bytes_stored(me), 0);

    // and leaves two results before it yields
    reg.push(me, &[7]).unwrap();
    reg.push(me, &[8, 9]).unwrap();
    yield_current(&mut reg).unwrap();

    // the resumer finds them, the last one first
    assert_eq!(co.status(&reg), CoroutineState::Suspended);
    assert_eq!(co.bytes_stored(&reg), 3);
    assert_eq!(co.pop(&mut reg, 2).unwrap(), vec![8, 9]);
    assert_eq!(co.pop(&mut reg, 1).unwrap(), vec![7]);
}

#[test]
fn channel_survives_the_whole_life() {
    let mut reg = Registry::new();
    let mut co = Coroutine::new(&mut reg, 64 * 1024).unwrap();
    let data: u32 = 42;
    co.push(&mut reg, &data.to_le_bytes()).unwrap();
    assert_eq!(co.bytes_stored(&reg), 4);
    assert_eq!(co.storage_size(&reg), 1024);
    co.resume(&mut reg).unwrap();
    yield_current(&mut reg).unwrap();
    co.resume(&mut reg).unwrap();
    yield_current(&mut reg).unwrap();
    co.resume(&mut reg).unwrap();
    reg.finish_current().unwrap();
    assert_eq!(co.status(&reg), CoroutineState::Dead);
    let back = co.pop(&mut reg, 4).unwrap();
    assert_eq!(u32::from_le_bytes([back[0], back[1], back[2], back[3]]), 42);
    assert_eq!(co.bytes_stored(&reg), 0);
}

#[test]
fn channels_are_separate() {
    let mut reg = Registry::new();
    let mut a = Coroutine::new(&mut reg, MIN_STACK_SIZE).unwrap();
    let mut b = Coroutine::with_storage(&mut reg, MIN_STACK_SIZE, 4).unwrap();
    assert_eq!(b.storage_size(&reg), 4);
    a.push(&mut reg, &[1, 2, 3, 4, 5]).unwrap();
    assert_eq!(b.push(&mut reg, &[1, 2, 3, 4, 5]), Err(CoroutineError::NotEnoughSpace));
    b.push(&mut reg, &[6, 7, 8, 9]).unwrap();
    assert_eq!(a.bytes_stored(&reg), 5);
    assert_eq!(b.bytes_stored(&reg), 4);
    assert_eq!(a.pop(&mut reg, 5).unwrap(), vec![1, 2, 3, 4, 5]);
    assert_eq!(b.pop(&mut reg, 4).unwrap(), vec![6, 7, 8, 9]);
}

#[test]
fn channel_of_no_capacity_takes_nothing() {
    let mut reg = Registry::new();
    let mut co = Coroutine::with_storage(&mut reg, MIN_STACK_SIZE, 0).unwrap();
    assert_eq!(co.storage_size(&reg), 0);
    assert_eq!(co.push(&mut reg, &[1]), Err(CoroutineError::NotEnoughSpace));
    assert_eq!(co.push(&mut reg, &[]), Ok(()));
    assert_eq!(co.pop(&mut reg, 0).unwrap(), Vec::<u8>::new());
}
