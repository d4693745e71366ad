use socks5_core::buffer::Buffer;

#[test]
fn extend_and_len() {
    let mut b = Buffer::new();
    assert_eq!(b.len(), 0);
    b.extend(&vec![1, 2, 3]);
    b.extend(&vec![4]);
    assert_eq!(b.len(), 4);
    assert_eq!(b.to_vec(), vec![1, 2, 3, 4]);
}

#[test]
fn get_and_slice() {
    let mut b = Buffer::new();
    b.extend(&vec![9, 8, 7, 6]);
    assert_eq!(b.get(0), 9);
    assert_eq!(b.get(3), 6);
    assert_eq!(b.slice(1, 3), vec![8, 7]);
    // Slicing does not consume.
    assert_eq!(b.len(), 4);
}

#[test]
fn skip_drops_oldest() {
    let mut b = Buffer::new();
    b.extend(&vec![1, 2, 3, 4, 5]);
    b.skip(2);
    assert_eq!(b.to_vec(), vec![3, 4, 5]);
    b.skip(3);
    assert_eq!(b.len(), 0);
}

#[test]
fn read_exact_takes_prefix() {
    let mut b = Buffer::new();
    b.extend(&vec![10, 20, 30, 40]);
    let taken = b.read_exact(3);
    assert_eq!(taken, vec![10, 20, 30]);
    assert_eq!(b.to_vec(), vec![40]);
}

#[test]
fn read_u16_is_big_endian() {
    let mut b = Buffer::new();
    b.extend(&vec![0x1F, 0x90, 0xAA]);
    assert_eq!(b.read_u16(), 8080);
    assert_eq!(b.to_vec(), vec![0xAA]);
    let mut c = Buffer::new();
    c.extend(&vec![0x00, 0x50]);
    assert_eq!(c.read_u16(), 80);
}

#[test]
fn write_u8_appends() {
    let mut b = Buffer::new();
    b.write_u8(0x05);
    b.write_u8(0x00);
    assert_eq!(b.to_vec(), vec![0x05, 0x00]);
}
