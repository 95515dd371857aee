use kernio::display::Display;
use kernio::display::DisplayResource;
use kernio::display::DisplayScheme;
use kernio::resource::Resource;
use kernio::resource::ResourceSeek;

fn open_device(size: usize) -> DisplayResource {
    let mut scheme = DisplayScheme;
    scheme.open("display://", Display::new(size)).unwrap()
}

#[test]
fn scheme_name_and_open() {
    let scheme = DisplayScheme;
    assert_eq!(scheme.scheme().as_str(), "display");
    let res = open_device(64);
    assert_eq!(res.seek, 0);
    assert_eq!(res.display.offscreen.len(), 64);
    assert_eq!(res.display.onscreen.len(), 64);
}

#[test]
fn url_is_canonical() {
    let res = open_device(16);
    assert_eq!(res.url().as_str(), "display://");
}

#[test]
fn dup_unsupported() {
    let res = open_device(16);
    assert!(res.dup().is_none());
}

#[test]
fn read_unsupported() {
    let mut res = open_device(16);
    let mut buf: Vec<u8> = vec![0; 4];
    assert!(res.read(&mut buf).is_none());
    assert_eq!(buf, vec![0; 4]);
}

#[test]
fn write_copies_at_offset() {
    let mut res = open_device(10);
    assert_eq!(res.seek(ResourceSeek::Start(2)), Some(2));
    let n = res.write(&vec![1, 2, 3]);
    assert_eq!(n, Some(3));
    assert_eq!(res.seek, 5);
    assert_eq!(res.display.offscreen, vec![0, 0, 1, 2, 3, 0, 0, 0, 0, 0]);
    // Nothing is visible until a sync flips the buffers.
    assert_eq!(res.display.onscreen, vec![0; 10]);
}

#[test]
fn write_truncates_at_capacity() {
    // Capacity 100, offset 90, a 20-byte request: 10 bytes land, the offset
    // stops at the bound, and the return value reports 10.
    let mut res = open_device(100);
    assert_eq!(res.seek(ResourceSeek::Start(90)), Some(90));
    let buf: Vec<u8> = (0..20).collect();
    assert_eq!(res.write(&buf), Some(10));
    assert_eq!(res.seek, 100);
    assert_eq!(&res.display.offscreen[90..100], &buf[0..10]);
    // A further write at the bound reports zero bytes.
    assert_eq!(res.write(&buf), Some(0));
    assert_eq!(res.seek, 100);
}

#[test]
fn seek_clamps_to_device_range() {
    // Device size 100: an end-relative +50 clamps to 100; a current-relative
    // -1000 from offset 10 clamps to 0.
    let mut res = open_device(100);
    assert_eq!(res.seek(ResourceSeek::End(50)), Some(100));
    assert_eq!(res.seek(ResourceSeek::Start(10)), Some(10));
    assert_eq!(res.seek(ResourceSeek::Current(-1000)), Some(0));
}

#[test]
fn seek_all_origins() {
    let mut res = open_device(100);
    assert_eq!(res.seek(ResourceSeek::Start(40)), Some(40));
    assert_eq!(res.seek(ResourceSeek::Current(15)), Some(55));
    assert_eq!(res.seek(ResourceSeek::Current(-5)), Some(50));
    assert_eq!(res.seek(ResourceSeek::End(-30)), Some(70));
    assert_eq!(res.seek(ResourceSeek::Start(1000)), Some(100));
    assert_eq!(res.seek(ResourceSeek::End(isize::MIN)), Some(0));
    assert_eq!(res.seek(ResourceSeek::Current(isize::MAX)), Some(100));
}

#[test]
fn sync_flips_and_succeeds() {
    let mut res = open_device(4);
    res.write(&vec![9, 8, 7, 6]);
    assert_eq!(res.display.onscreen, vec![0; 4]);
    assert!(res.sync());
    assert_eq!(res.display.onscreen, vec![9, 8, 7, 6]);
    assert_eq!(res.display.offscreen, vec![9, 8, 7, 6]);
}
