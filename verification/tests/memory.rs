use win32emu::fault::Fault;
use win32emu::mem::{Bound, Mem};

fn buffer() -> Vec<u8> {
    (0..32u8).collect()
}

#[test]
fn get_is_little_endian_and_unaligned() {
    let buf = buffer();
    let mem = Mem::from_slice(&buf);
    assert_eq!(mem.len(), 32);
    assert_eq!(mem.get::<u8>(&buf, 5), Ok(5));
    assert_eq!(mem.get::<u16>(&buf, 5), Ok(0x0605));
    assert_eq!(mem.get::<u32>(&buf, 5), Ok(0x0807_0605));
    assert_eq!(mem.get::<u32>(&buf, 28), Ok(0x1F1E_1D1C));
}

#[test]
fn get_past_the_end_faults() {
    let buf = buffer();
    let mem = Mem::from_slice(&buf);
    assert_eq!(mem.get::<u32>(&buf, 29), Err(Fault::MemoryFault { addr: 29, len: 4 }));
    assert_eq!(mem.get::<u16>(&buf, 31), Err(Fault::MemoryFault { addr: 31, len: 2 }));
    assert_eq!(mem.get::<u8>(&buf, 32), Err(Fault::MemoryFault { addr: 32, len: 1 }));
    assert_eq!(
        mem.get::<u32>(&buf, 0xFFFF_FFFF),
        Err(Fault::MemoryFault { addr: 0xFFFF_FFFF, len: 4 })
    );
}

#[test]
fn put_then_get() {
    let mut buf = buffer();
    let mem = Mem::from_slice(&buf);
    assert_eq!(mem.put::<u32>(&mut buf, 0x10, 0xDEAD_BEEF), Ok(()));
    assert_eq!(&buf[0x10..0x14], &[0xEF, 0xBE, 0xAD, 0xDE]);
    assert_eq!(mem.get::<u32>(&buf, 0x10), Ok(0xDEAD_BEEF));
    assert_eq!(mem.put::<u16>(&mut buf, 3, 0xABCD), Ok(()));
    assert_eq!(mem.get::<u16>(&buf, 3), Ok(0xABCD));
    assert_eq!(mem.put::<u8>(&mut buf, 31, 0x77), Ok(()));
    assert_eq!(mem.get::<u8>(&buf, 31), Ok(0x77));
    assert_eq!(buf[2], 2);
    assert_eq!(buf[5], 5);
}

#[test]
fn put_past_the_end_changes_nothing() {
    let mut buf = buffer();
    let mem = Mem::from_slice(&buf);
    assert_eq!(
        mem.put::<u32>(&mut buf, 30, 0xFFFF_FFFF),
        Err(Fault::MemoryFault { addr: 30, len: 4 })
    );
    assert_eq!(buf, buffer());
}

#[test]
fn two_views_of_the_same_bytes_see_each_others_writes() {
    let mut buf = buffer();
    let whole = Mem::from_slice(&buf);
    let first = whole.sub(8, 8).unwrap();
    let second = whole.slice(Bound::Included(4), Bound::Excluded(16)).unwrap();
    assert_eq!(first.put::<u32>(&mut buf, 2, 0x1122_3344), Ok(()));
    assert_eq!(second.get::<u32>(&buf, 6), Ok(0x1122_3344));
    assert_eq!(whole.get::<u32>(&buf, 10), Ok(0x1122_3344));
    assert_eq!(second.put::<u16>(&mut buf, 4, 0xAABB), Ok(()));
    assert_eq!(first.get::<u16>(&buf, 0), Ok(0xAABB));
}

#[test]
fn a_view_is_checked_against_its_own_length() {
    let buf = buffer();
    let whole = Mem::from_slice(&buf);
    let part = whole.sub(8, 4).unwrap();
    assert_eq!(part.len(), 4);
    assert_eq!(part.start(), 8);
    assert_eq!(part.get::<u32>(&buf, 0), Ok(0x0B0A_0908));
    assert_eq!(part.get::<u32>(&buf, 1), Err(Fault::MemoryFault { addr: 1, len: 4 }));
}

#[test]
fn a_view_is_checked_against_the_buffer() {
    let buf = buffer();
    let whole = Mem::from_slice(&buf);
    let part = whole.sub(16, 16).unwrap();
    let short = &buf[..24];
    assert_eq!(part.get::<u8>(short, 0), Err(Fault::MemoryFault { addr: 0, len: 1 }));
    assert_eq!(part.as_slice_todo(short), Err(Fault::MemoryFault { addr: 0, len: 16 }));
    assert_eq!(part.slicez(short, 0), None);
    assert_eq!(part.to_ascii(short), None);
}

#[test]
fn slice_bounds() {
    let buf = buffer();
    let whole = Mem::from_slice(&buf);
    let all = whole.slice(Bound::Unbounded, Bound::Unbounded).unwrap();
    assert_eq!((all.start(), all.len()), (0, 32));
    let tail = whole.slice(Bound::Included(30), Bound::Unbounded).unwrap();
    assert_eq!((tail.start(), tail.len()), (30, 2));
    let inner = whole.slice(Bound::Excluded(3), Bound::Included(5)).unwrap();
    assert_eq!((inner.start(), inner.len()), (4, 2));
    let empty = whole.slice(Bound::Included(32), Bound::Excluded(32)).unwrap();
    assert_eq!((empty.start(), empty.len()), (32, 0));
    assert_eq!(
        whole.slice(Bound::Included(0), Bound::Excluded(33)).map(|m| m.len()),
        Err(Fault::MemoryFault { addr: 0, len: 33 })
    );
    assert_eq!(
        whole.slice(Bound::Included(5), Bound::Excluded(4)).map(|m| m.len()),
        Err(Fault::MemoryFault { addr: 5, len: 0 })
    );
    assert_eq!(
        whole.slice(Bound::Excluded(u32::MAX), Bound::Unbounded).map(|m| m.len()),
        Err(Fault::MemoryFault { addr: u32::MAX, len: 0 })
    );
    assert_eq!(
        whole.slice(Bound::Unbounded, Bound::Included(u32::MAX)).map(|m| m.len()),
        Err(Fault::MemoryFault { addr: 0, len: u32::MAX })
    );
    assert_eq!(
        whole.slice(Bound::Excluded(29), Bound::Included(32)).map(|m| m.len()),
        Err(Fault::MemoryFault { addr: 30, len: 3 })
    );
}

#[test]
fn sub_and_typed_views() {
    let buf = buffer();
    let whole = Mem::from_slice(&buf);
    assert_eq!(
        whole.sub(30, 3).map(|m| m.len()),
        Err(Fault::MemoryFault { addr: 30, len: 3 })
    );
    assert_eq!(
        whole.sub(u32::MAX, u32::MAX).map(|m| m.len()),
        Err(Fault::MemoryFault { addr: u32::MAX, len: u32::MAX })
    );
    let dword = whole.view::<u32>(28).unwrap();
    assert_eq!((dword.start(), dword.len()), (28, 4));
    assert_eq!(
        whole.view::<u32>(29).map(|m| m.len()),
        Err(Fault::MemoryFault { addr: 29, len: 4 })
    );
    let words = whole.view_n::<u16>(2, 15).unwrap();
    assert_eq!((words.start(), words.len()), (2, 30));
    assert_eq!(words.get::<u16>(&buf, 2 * 14), Ok(0x1F1E));
    assert_eq!(
        whole.view_n::<u16>(2, 16).map(|m| m.len()),
        Err(Fault::MemoryFault { addr: 2, len: 32 })
    );
    assert_eq!(
        whole.view_n::<u32>(0, u32::MAX).map(|m| m.len()),
        Err(Fault::MemoryFault { addr: 0, len: u32::MAX })
    );
}

#[test]
fn c_strings() {
    let buf = b"ab\0cde\0fg".to_vec();
    let whole = Mem::from_slice(&buf);
    let first = whole.slicez(&buf, 0).unwrap();
    assert_eq!((first.start(), first.len()), (0, 2));
    assert_eq!(first.to_ascii(&buf), Some("ab"));
    let second = whole.slicez(&buf, 1).unwrap();
    assert_eq!(second.to_ascii(&buf), Some("b"));
    let empty = whole.slicez(&buf, 2).unwrap();
    assert_eq!(empty.len(), 0);
    assert_eq!(empty.to_ascii(&buf), Some(""));
    let third = whole.slicez(&buf, 3).unwrap();
    assert_eq!(third.as_slice_todo(&buf), Ok(&b"cde"[..]));
    assert_eq!(whole.slicez(&buf, 7), None);
    assert_eq!(whole.slicez(&buf, 9), None);
    assert_eq!(whole.slicez(&buf, 100), None);
}

#[test]
fn text_must_be_utf8() {
    let buf = vec![0x68, 0x69, 0xC3, 0xA9, 0xFF, 0x41];
    let whole = Mem::from_slice(&buf);
    assert_eq!(whole.sub(0, 4).unwrap().to_ascii(&buf), Some("hi\u{e9}"));
    assert_eq!(whole.sub(0, 3).unwrap().to_ascii(&buf), None);
    assert_eq!(whole.sub(4, 1).unwrap().to_ascii(&buf), None);
    assert_eq!(whole.sub(5, 1).unwrap().to_ascii(&buf), Some("A"));
    assert_eq!(whole.to_ascii(&buf), None);
}

#[test]
fn an_empty_buffer() {
    let buf: Vec<u8> = Vec::new();
    let whole = Mem::from_slice(&buf);
    assert_eq!(whole.len(), 0);
    assert_eq!(whole.get::<u8>(&buf, 0), Err(Fault::MemoryFault { addr: 0, len: 1 }));
    assert_eq!(whole.as_slice_todo(&buf), Ok(&[][..]));
    assert_eq!(whole.sub(0, 0).map(|m| m.len()), Ok(0));
}

#[test]
fn a_mutable_slice_writes_to_the_buffer() {
    let mut buf = buffer();
    let part = Mem::from_slice(&buf).sub(4, 3).unwrap();
    let bytes = part.as_mut_slice_todo(&mut buf).unwrap();
    assert_eq!(bytes, &[4, 5, 6]);
    bytes[1] = 0xEE;
    assert_eq!(&buf[3..8], &[3, 4, 0xEE, 6, 7]);
    assert_eq!(
        part.as_mut_slice_todo(&mut buf[..6]),
        Err(Fault::MemoryFault { addr: 0, len: 3 })
    );
    let dword = Mem::from_slice(&buf).view_mut::<u32>(8).unwrap();
    assert_eq!(dword, Mem::from_slice(&buf).view::<u32>(8).unwrap());
    let mut buf = buf;
    assert_eq!(dword.put::<u32>(&mut buf, 0, 0x0102_0304), Ok(()));
    assert_eq!(&buf[8..12], &[4, 3, 2, 1]);
}
