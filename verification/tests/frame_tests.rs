use frame_handoff::frame::repack;
use frame_handoff::pool::BufferPool;

#[test]
fn repack_copies_in_order() {
    let src: Vec<u8> = vec![10, 20, 30, 255, 11, 21, 31, 254];
    let mut dest: Vec<u8> = vec![0; 8];
    assert!(repack(&src, &mut dest));
    assert_eq!(dest, vec![10, 20, 30, 255, 11, 21, 31, 254]);
}

#[test]
fn repack_refuses_another_length() {
    let src: Vec<u8> = vec![1, 2, 3, 4];
    let mut short: Vec<u8> = vec![9, 9, 9];
    assert!(!repack(&src, &mut short));
    assert_eq!(short, vec![9, 9, 9]);
    let mut long: Vec<u8> = vec![9, 9, 9, 9, 9];
    assert!(!repack(&src, &mut long));
    assert_eq!(long, vec![9, 9, 9, 9, 9]);
}

#[test]
fn repack_of_nothing() {
    let src: Vec<u8> = Vec::new();
    let mut dest: Vec<u8> = Vec::new();
    assert!(repack(&src, &mut dest));
    assert!(dest.is_empty());
}

#[test]
fn new_buffers_are_zeroed() {
    let mut pool = BufferPool::new(2, 6).unwrap();
    let b = pool.acquire_free().unwrap();
    assert_eq!(b.slot(), 0);
    assert_eq!(b.len(), 6);
    assert_eq!(b.pixels(), &[0u8, 0, 0, 0, 0, 0][..]);
}

#[test]
fn fill_sets_every_byte() {
    let mut pool = BufferPool::new(1, 4).unwrap();
    let mut b = pool.acquire_free().unwrap();
    b.fill(200);
    assert_eq!(b.pixels(), &[200u8, 200, 200, 200][..]);
    assert_eq!(b.slot(), 0);
}

#[test]
fn write_takes_a_whole_frame_only() {
    let mut pool = BufferPool::new(1, 4).unwrap();
    let mut b = pool.acquire_free().unwrap();
    assert!(b.write(&[1, 2, 3, 4]));
    assert_eq!(b.pixels(), &[1u8, 2, 3, 4][..]);
    assert!(!b.write(&[5, 6, 7]));
    assert_eq!(b.pixels(), &[1u8, 2, 3, 4][..]);
    assert!(!b.write(&[5, 6, 7, 8, 9]));
    assert_eq!(b.pixels(), &[1u8, 2, 3, 4][..]);
}
