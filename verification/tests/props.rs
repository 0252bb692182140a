use realbox::Alloc;
use realbox::Global;
use realbox::Layout;
use realbox::RealBox;
use realbox::System;

struct Marker;

#[test]
fn default_construction_address_is_aligned() {
    let t = RealBox::<u32>::new();
    assert_ne!(t.ptr(), 0);
    assert_eq!(t.ptr() % core::mem::align_of::<u32>(), 0);
    assert_ne!(t.ptr(), core::mem::align_of::<u32>());
}

#[test]
fn zero_sized_construction_never_calls_allocator() {
    let a = Global::new();
    let mut t = RealBox::<Marker, Global>::new_with_allocator(a);
    assert_eq!(t.ptr(), core::mem::align_of::<Marker>());
    assert_eq!(t.alloc_ref().calls(), 0);
    assert_eq!(t.alloc_ref().outstanding(), 0);
    t.dealloc_buffer();
    assert_eq!(t.alloc_ref().calls(), 0);
    assert_eq!(t.alloc_ref().frees(), 0);
}

#[test]
fn heap_init_stores_initializer_result() {
    let h = RealBox::<u64>::heap_init(|| 42u64);
    assert_eq!(*h.value(), 42);
    let a = h.free();
    assert_eq!(a.outstanding(), 0);
}

#[test]
fn convert_then_free_releases_exactly_once() {
    let t = RealBox::<u64>::new();
    let p = t.ptr();
    let h = t.into_box();
    assert_eq!(h.ptr(), p);
    assert_eq!(h.alloc_ref().calls(), 1);
    assert_eq!(h.alloc_ref().frees(), 0);
    let a = h.free();
    assert_eq!(a.calls(), 1);
    assert_eq!(a.frees(), 1);
    assert_eq!(a.outstanding(), 0);
}

#[test]
fn construct_and_drop_never_leaks() {
    let mut i: usize = 0;
    while i < 100 {
        let mut t = RealBox::<i32>::new();
        t.dealloc_buffer();
        assert_eq!(t.alloc_ref().outstanding(), 0);
        assert_eq!(t.alloc_ref().calls(), 1);
        assert_eq!(t.alloc_ref().frees(), 1);
        i += 1;
    }
}

#[test]
fn adoption_from_buffer_does_not_allocate() {
    let t = RealBox::<u16>::new();
    let p = t.ptr();
    let h = t.into_box();
    let calls_before = h.alloc_ref().calls();
    let mut t2 = RealBox::<u16, Global>::from_box(h);
    assert_eq!(t2.ptr(), p);
    assert_eq!(t2.alloc_ref().calls(), calls_before);
    t2.dealloc_buffer();
    assert_eq!(t2.alloc_ref().outstanding(), 0);
    assert_eq!(t2.alloc_ref().frees(), 1);
}

#[test]
fn four_byte_scenario() {
    let mut t = RealBox::<u32>::new();
    assert_ne!(t.ptr(), 0);
    assert_eq!(t.ptr() % 4, 0);
    t.write(42);
    assert_eq!(*t.read(), 42);
    t.dealloc_buffer();
    assert_eq!(t.alloc_ref().outstanding(), 0);
}

#[test]
fn adopt_raw_parts_roundtrip() {
    let mut a = Global::new();
    let p = a.allocate(Layout::of::<u32>());
    let mut t = RealBox::<u32, Global>::from_raw_parts(p, a);
    assert_eq!(t.ptr(), p);
    t.write(7);
    assert_eq!(*t.read(), 7);
    t.dealloc_buffer();
    assert_eq!(t.alloc_ref().outstanding(), 0);
}

#[test]
fn adopt_raw_parts_zero_sized() {
    let a = Global::new();
    let t = RealBox::<Marker, Global>::from_raw_parts(core::mem::align_of::<Marker>(), a);
    assert_eq!(t.ptr(), core::mem::align_of::<Marker>());
    assert_eq!(t.alloc_ref().calls(), 0);
}

#[test]
fn allocator_access_through_box() {
    let mut t = RealBox::<u32>::new();
    let second = t.alloc_mut().allocate(Layout::of::<u8>());
    assert_ne!(second, 0);
    assert_ne!(second, t.ptr());
    assert_eq!(t.alloc_ref().outstanding(), 2);
    t.alloc_mut().deallocate(second, Layout::of::<u8>());
    t.dealloc_buffer();
    assert_eq!(t.alloc_ref().outstanding(), 0);
}

#[test]
fn system_allocator_counts() {
    let mut t = RealBox::<i64, System>::new_with_allocator(System::new());
    assert_eq!(t.alloc_ref().calls(), 1);
    assert_eq!(t.alloc_ref().outstanding(), 1);
    assert_eq!(t.ptr() % core::mem::align_of::<i64>(), 0);
    t.dealloc_buffer();
    assert_eq!(t.alloc_ref().outstanding(), 0);
    assert_eq!(t.alloc_ref().frees(), 1);
}

#[test]
fn zero_sized_handle_free_does_nothing() {
    let t = RealBox::<Marker>::new();
    let h = t.into_box();
    let a = h.free();
    assert_eq!(a.calls(), 0);
    assert_eq!(a.frees(), 0);
}

#[test]
fn written_value_survives_conversion() {
    let mut t = RealBox::<u32>::new();
    t.write(5);
    let h = t.into_box();
    assert_eq!(*h.value(), 5);
    let t2 = RealBox::<u32, Global>::from_box(h);
    assert_eq!(*t2.read(), 5);
}

#[test]
fn layout_of_scalars() {
    let l = Layout::of::<u32>();
    assert_eq!(l.size, 4);
    assert_eq!(l.align, 4);
    let l2 = Layout::of::<[u8; 3]>();
    assert_eq!(l2.size, 3);
    assert_eq!(l2.align, 1);
}

#[test]
fn repeated_cycles_on_fixed_allocator() {
    let mut t = RealBox::<u32>::new();
    let mut i: usize = 0;
    while i < 50 {
        let p = t.alloc_mut().allocate(Layout::of::<u16>());
        assert_ne!(p, 0);
        assert_eq!(t.alloc_ref().outstanding(), 2);
        t.alloc_mut().deallocate(p, Layout::of::<u16>());
        assert_eq!(t.alloc_ref().outstanding(), 1);
        i += 1;
    }
    t.dealloc_buffer();
    assert_eq!(t.alloc_ref().outstanding(), 0);
    assert_eq!(t.alloc_ref().calls(), 51);
    assert_eq!(t.alloc_ref().frees(), 51);
}
