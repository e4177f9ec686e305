use memory_map::{Backing, FileAccess, MapError, Mmap, Protection, WriteBack};

#[test]
fn anonymous_is_zeroed_for_several_lengths() {
    for n in [1usize, 2, 7, 4096] {
        let mmap = Mmap::anonymous(n, Protection::ReadWrite).unwrap();
        assert_eq!(n, mmap.len());
        assert!(mmap.as_slice().iter().all(|b| *b == 0));
        assert_eq!(Backing::Anonymous, mmap.backing());
    }
}

#[test]
fn anonymous_zero_length_is_invalid_argument() {
    for prot in [Protection::Read, Protection::ReadWrite, Protection::ReadCopy] {
        let err = Mmap::anonymous(0, prot).err().unwrap();
        assert_eq!(MapError::ZeroLength, err);
        assert!(err.is_invalid_argument());
    }
}

#[test]
fn anonymous_read_only_is_legal() {
    let mmap = Mmap::anonymous(16, Protection::Read).unwrap();
    assert_eq!(16, mmap.len());
    assert_eq!(Protection::Read, mmap.protection());
    assert_eq!(WriteBack::Skip, mmap.flush());
}

#[test]
fn open_keeps_file_length_and_contents() {
    let contents = vec![5u8, 6, 7];
    let mmap = Mmap::open(contents.clone(), Protection::Read).unwrap();
    assert_eq!(3, mmap.len());
    assert_eq!(&contents[..], mmap.as_slice());
    assert_eq!(Backing::File, mmap.backing());
    assert_eq!(Err(MapError::ZeroLength), Mmap::open(Vec::new(), Protection::Read).map(|m| m.len()));
}

#[test]
fn round_trip_keeps_trailing_bytes() {
    let contents = vec![9u8; 10];
    let mut mmap = Mmap::open(contents, Protection::ReadWrite).unwrap();
    mmap.write_all(0, &[1, 2, 3]).unwrap();
    assert_eq!(WriteBack::Blocking, mmap.flush());
    assert_eq!(WriteBack::Background, mmap.flush_async());
    assert_eq!(&[1u8, 2, 3, 9, 9, 9, 9, 9, 9, 9][..], mmap.as_slice());
}

#[test]
fn copy_on_write_never_writes_back() {
    let mut mmap = Mmap::open(vec![1u8; 8], Protection::ReadCopy).unwrap();
    mmap.write_all(2, &[7, 7]).unwrap();
    assert_eq!(WriteBack::Skip, mmap.flush());
    assert_eq!(WriteBack::Skip, mmap.flush_async());
    let anon = Mmap::anonymous(8, Protection::ReadWrite).unwrap();
    assert_eq!(WriteBack::Skip, anon.flush());
}

#[test]
fn partial_write_reports_truncated_count() {
    let mut mmap = Mmap::anonymous(5, Protection::ReadWrite).unwrap();
    assert_eq!(Ok(2), mmap.write(3, &[1, 2, 3, 4]));
    assert_eq!(&[0u8, 0, 0, 1, 2][..], mmap.as_slice());
    assert_eq!(Ok(0), mmap.write(5, &[8]));
    assert_eq!(Err(MapError::OutOfBounds), mmap.write(6, &[8]));
    assert_eq!(Err(MapError::WriteZero), mmap.write_all(4, &[6, 6]));
    assert_eq!(&[0u8, 0, 0, 1, 6][..], mmap.as_slice());
    assert_eq!(Err(MapError::OutOfBounds), mmap.write_all(6, &[]));
}

#[test]
fn whole_file_scenario() {
    let mut mmap = Mmap::open(vec![0u8; 128], Protection::ReadWrite).unwrap();
    assert!(mmap.as_slice().iter().all(|b| *b == 0));
    let incr = (0..128usize).map(|k| (k % 256) as u8).collect::<Vec<_>>();
    mmap.write_all(0, &incr).unwrap();
    assert_eq!(WriteBack::Blocking, mmap.flush());
    let reopened = Mmap::open(mmap.as_slice().to_vec(), Protection::Read).unwrap();
    for k in 0..128usize {
        assert_eq!((k % 256) as u8, reopened.get(k).unwrap());
    }
}

#[test]
fn out_of_bounds_access_fails() {
    let mut mmap = Mmap::anonymous(4, Protection::ReadWrite).unwrap();
    assert_eq!(Err(MapError::OutOfBounds), mmap.get(4));
    assert_eq!(Err(MapError::OutOfBounds), mmap.set(4, 1));
    assert!(mmap.range(2, 5).is_err());
    assert!(mmap.range(3, 2).is_err());
    assert!(mmap.range_from(5).is_err());
    assert!(mmap.range_to(5).is_err());
    assert_eq!(Ok(&[0u8, 0][..]), mmap.range(2, 4));
    assert_eq!(Ok(&[][..]), mmap.range_from(4));
    assert_eq!(
        "index out of bounds of the memory map",
        MapError::OutOfBounds.description()
    );
}

#[test]
fn protection_write_and_open_options() {
    assert!(!Protection::Read.write());
    assert!(Protection::ReadWrite.write());
    assert!(Protection::ReadCopy.write());
    assert_eq!(FileAccess { read: true, write: false }, Protection::Read.as_open_options());
    assert_eq!(FileAccess { read: true, write: true }, Protection::ReadCopy.as_open_options());
    assert_eq!(FileAccess { read: true, write: true }, Protection::ReadWrite.as_open_options());
}
