use ckb_std::bitmap_alloc::{BitmapAlloc, MEMORY_SIZE, MIN_MEMORY_BLOCK};
use ckb_std::block_list_alloc::{BlockListAllocInner, BLOCK_SIZE};

fn with_allocator<F: FnOnce(BitmapAlloc)>(f: F) {
    f(BitmapAlloc::default());
}

#[test]
fn test_basic_malloc() {
    // alloc a min block
    with_allocator(|mut allocator| {
        let p = allocator.malloc(512);
        assert!(p.is_some());
        let p = p.unwrap();
        let p_addr = p;
        // memory writeable
        allocator.write_byte(p, 42);
        assert_eq!(p_addr, p);
        assert_eq!(allocator.read_byte(p), 42);
    });
}

#[test]
fn test_multiple_malloc() {
    with_allocator(|mut allocator| {
        let mut available_bytes = MEMORY_SIZE;
        // alloc several sized blocks
        while available_bytes >= MIN_MEMORY_BLOCK {
            let bytes = MIN_MEMORY_BLOCK;
            assert!(allocator.malloc(bytes).is_some());
            available_bytes -= bytes;
        }
    });
}

#[test]
fn test_small_size_malloc() {
    with_allocator(|mut allocator| {
        let mut available_bytes = MEMORY_SIZE;
        while available_bytes >= MIN_MEMORY_BLOCK {
            assert!(allocator.malloc(MIN_MEMORY_BLOCK).is_some());
            available_bytes -= MIN_MEMORY_BLOCK;
        }
        // memory should be drained, we can't allocate even 1 byte
        assert!(allocator.malloc(1).is_none());
    });
}

#[test]
fn test_malloc_maximum() {
    with_allocator(|mut allocator| {
        let p = allocator.malloc(MEMORY_SIZE);
        assert!(p.is_some());
    });
}

#[test]
fn test_fail_malloc() {
    // not enough memory: the arena holds MEMORY_SIZE bytes in all
    with_allocator(|mut allocator| {
        let p = allocator.malloc(MEMORY_SIZE + 1);
        assert!(p.is_none());
    });
}

#[test]
fn test_malloc_and_free() {
    fn _test_malloc_and_free(times: usize) {
        with_allocator(|mut allocator| {
            for _i in 0..times {
                let mut available_bytes = MEMORY_SIZE;
                let mut ptrs = Vec::new();
                // alloc several sized blocks
                while available_bytes >= MIN_MEMORY_BLOCK {
                    let bytes = MIN_MEMORY_BLOCK;
                    let p = allocator.malloc(bytes);
                    assert!(p.is_some());
                    ptrs.push((p.unwrap(), bytes));
                    available_bytes -= bytes;
                }
                // space is drained
                assert!(allocator.malloc(1).is_none());
                // free allocated blocks
                for (ptr, bytes) in ptrs {
                    assert!(allocator.contains_ptr(ptr));
                    allocator.free(ptr, bytes);
                }
            }
        });
    }
    _test_malloc_and_free(10);
}

#[test]
fn test_free_bug() {
    with_allocator(|mut allocator| {
        let p1 = allocator.malloc(32).unwrap();
        allocator.free(p1, 32);
        let p2 = allocator.malloc(4096).unwrap();
        let p3 = allocator.malloc(138).unwrap();
        allocator.free(p2, 4096);
        allocator.free(p3, 138);
    });
}

#[test]
fn test_block_list_lifo() {
    let mut alloc = BlockListAllocInner::new(4 * BLOCK_SIZE);
    // the four blocks come out from the top of the arena down
    let a = alloc.malloc(BLOCK_SIZE).unwrap();
    let b = alloc.malloc(1).unwrap();
    assert_eq!(a, 3 * BLOCK_SIZE);
    assert_eq!(b, 2 * BLOCK_SIZE);
    assert!(alloc.contains_ptr(a));
    assert!(!alloc.contains_ptr(4 * BLOCK_SIZE));
    // a freed block is handed out again first
    alloc.free(a);
    assert_eq!(alloc.malloc(8).unwrap(), a);
    // too-wide requests are refused
    assert!(alloc.malloc(BLOCK_SIZE + 1).is_none());
}

#[test]
fn test_block_list_drain() {
    let mut alloc = BlockListAllocInner::new(2 * BLOCK_SIZE);
    assert!(alloc.malloc(1).is_some());
    assert!(alloc.malloc(1).is_some());
    assert!(alloc.malloc(1).is_none());
    alloc.free(0);
    assert_eq!(alloc.malloc(1), Some(0));
}
