use std::cell::Cell;

use std::cell::RefCell;
use std::rc::Rc;

use porkg::BufferPool;
use porkg::OwnedPooled;
use porkg::PoolReturn;
use porkg::Pool;
use porkg::PoolBuilder;
use porkg::Pooled;
use porkg::MAX_SINGLE_BUFFER;

#[test]
fn take_return() {
    let mut pool = PoolBuilder::new(16).build(|| 0u64);
    let v = pool.take();
    pool.return_value(v);
}

#[test]
fn forget() {
    let counter = Cell::new(1u64);
    let mut pool: Pool<u64, _> = PoolBuilder::new(16).build(|| {
        let v = counter.get();
        counter.set(v + 1);
        v
    });
    let first = Pooled::new(pool.take());
    std::hint::black_box(first.forget());
    for _ in 0..pool.get_capacity() {
        let v = pool.take();
        assert!(v > 1);
    }
}

#[test]
fn take_prefers_pooled_values() {
    let mut pool = PoolBuilder::new(4).build(|| 0u32);
    pool.return_value(7);
    let mut seen_seven = false;
    for _ in 0..4 {
        if pool.take() == 7 {
            seen_seven = true;
        }
    }
    assert!(seen_seven);
}

#[test]
fn return_drops_when_full() {
    let mut pool = PoolBuilder::new(2).with_max_search(2).build(|| 0u32);
    pool.return_value(1);
    pool.return_value(2);
    pool.return_value(3);
    let mut values = vec![pool.take(), pool.take(), pool.take()];
    values.sort();
    // Two pooled values come back; the third take creates a fresh zero.
    assert_eq!(values, vec![0, 1, 2]);
}

#[test]
fn pooled_accessors() {
    let mut p = Pooled::new(5u64);
    assert_eq!(*p.get(), 5);
    *p.get_mut() = 6;
    assert_eq!(p.forget(), 6);
}

#[test]
fn pooled_apply_result() {
    let p = Pooled::new(5u64);
    let p = p.apply_result(|v| Ok::<u64, ()>(v + 1)).unwrap();
    assert_eq!(*p.get(), 6);
    let r = p.apply_result(|_| Err::<u64, u32>(9));
    assert_eq!(r.unwrap_err(), 9);
}

#[test]
fn buffer_pool_keeps_small_buffers() {
    let mut pool = BufferPool::new(4);
    pool.return_buffer(vec![1, 2, 3, 4, 5]);
    assert_eq!(pool.stored_count(), 1);
    assert_eq!(pool.stored_bytes(), 5);
    let buf = pool.take();
    assert_eq!(buf.len(), 0);
    assert_eq!(pool.stored_count(), 0);
    assert_eq!(pool.stored_bytes(), 0);
}

#[test]
fn buffer_pool_drops_oversized_buffer() {
    let mut pool = BufferPool::new(4);
    let big = vec![0u8; MAX_SINGLE_BUFFER + 1];
    pool.return_buffer(big);
    assert_eq!(pool.stored_count(), 0);
    assert_eq!(pool.stored_bytes(), 0);
}

#[test]
fn buffer_pool_drops_when_slots_full() {
    let mut pool = BufferPool::new(1);
    pool.return_buffer(vec![1]);
    pool.return_buffer(vec![2, 2]);
    assert_eq!(pool.stored_count(), 1);
    assert_eq!(pool.stored_bytes(), 1);
}

#[test]
fn return_hook() {
    let mut pool = PoolBuilder::new(16)
        .with_return_hook(|v: u64| if v % 2 == 0 { Some(v) } else { None })
        .build(|| 0u64);

    for i in 0..(pool.get_capacity() * 2) {
        pool.return_value(i as u64);
    }

    for _ in 0..pool.get_capacity() {
        let v = Pooled::new(pool.take());
        assert!(v.forget() % 2 == 0);
    }
}

#[test]
fn take_hook() {
    let counter = Cell::new(1u64);
    let mut pool = PoolBuilder::new(16)
        .with_take_hook(|_: u64| {
            let v = counter.get();
            counter.set(v + 1);
            v
        })
        .build(|| 0u64);

    for _ in 0..(pool.get_capacity() * 2) {
        pool.return_value(0);
    }

    for _ in 0..pool.get_capacity() {
        let v = Pooled::new(pool.take());
        assert_ne!(v.forget(), 0);
    }

    for _ in 0..pool.get_capacity() {
        let v = Pooled::new(pool.take());
        assert_eq!(0, v.forget());
    }
}

struct Recorder(Rc<RefCell<Vec<Vec<u8>>>>);

impl PoolReturn<Vec<u8>> for Recorder {
    fn return_value(&mut self, value: Vec<u8>) {
        self.0.borrow_mut().push(value);
    }
}

#[test]
fn owned_pooled_release_hands_the_value_back() {
    let returned: Rc<RefCell<Vec<Vec<u8>>>> = Rc::new(RefCell::new(Vec::new()));
    let mut owned = OwnedPooled::new(vec![1u8, 2, 3], Recorder(returned.clone()));
    owned.get_mut().push(4);
    owned.release();
    assert_eq!(*returned.borrow(), vec![vec![1u8, 2, 3, 4]]);

    let kept = OwnedPooled::new(vec![9u8], Recorder(returned.clone()));
    assert_eq!(kept.forget(), vec![9u8]);
    assert_eq!(returned.borrow().len(), 1);
}
