use realbox::RealBox;
use realbox::System;

#[test]
fn test_naive_i32() {
    let t = RealBox::<i32>::new();
    assert_ne!(t.ptr(), 0);
}

#[test]
fn test_alloc_with_system() {
    let t = RealBox::<i32, System>::new_with_allocator(System::new());
    assert_ne!(t.ptr(), 0);
}

#[test]
fn test_pure_big() {
    let t = RealBox::<[[i32; 100]; 1000]>::new();
    assert_ne!(t.ptr(), 0);
}

struct DummyStruct;

#[test]
fn test_zero() {
    let t = RealBox::<DummyStruct>::new();
    assert_eq!(t.ptr(), core::mem::align_of::<DummyStruct>());
}

#[test]
fn test_drop() {
    let mut t = RealBox::<[[i32; 10000]; 1000]>::new();
    let first = t.ptr();
    assert_ne!(first, 0);
    t.dealloc_buffer();
    assert_eq!(t.alloc_ref().outstanding(), 0);
    let t2 = RealBox::<[[i32; 10000]; 1000]>::new();
    assert_ne!(t2.ptr(), 0);
}

#[derive(Debug, PartialEq)]
struct Obj {
    x: u32,
    y: f64,
    a: [u8; 4],
}

#[test]
fn test_heap_init() {
    let stack_obj = Obj {
        x: 12,
        y: 0.9,
        a: [0xff, 0xfe, 0xfd, 0xfc],
    };

    let heap_obj = RealBox::<Obj>::heap_init(|| Obj {
        x: 12,
        y: 0.9,
        a: [0xff, 0xfe, 0xfd, 0xfc],
    });

    assert_eq!(&stack_obj, heap_obj.value());
}
