use starry::errno::SysError;
use starry::syscall::net::conv::{Duration, Int, IntBool, RawCredentials, Ucred, UnixCredentials};
use starry::time::{IrqCounter, TimeValue, TimeValueLike, Timespec, Timeval};
use starry::vfs::dev::card1::Card1;
use starry::vfs::dev::rknpu::{copy_status, ioc_nr, ioctl_request, NpuRequest, Rknpu, RknpuCmd};
use starry::vfs::error::VfsError;
use starry::vfs::file::{
    read_window, resized, written, ReadFile, RwFile, SimpleFile, SimpleFileOperation,
    SimpleFileOps,
};
use std::cell::RefCell;

#[test]
fn timespec_conversion() {
    let ok = Timespec { tv_sec: 12, tv_nsec: 999_999_999 };
    assert_eq!(ok.try_into_time_value(), Ok(TimeValue { secs: 12, nanos: 999_999_999 }));
    for bad in [
        Timespec { tv_sec: 0, tv_nsec: 1_000_000_000 },
        Timespec { tv_sec: 0, tv_nsec: -1 },
        Timespec { tv_sec: -1, tv_nsec: 0 },
        Timespec { tv_sec: i64::MIN, tv_nsec: i64::MAX },
    ] {
        assert_eq!(bad.try_into_time_value(), Err(SysError::InvalidArgument));
    }
    let tv = TimeValue { secs: 5, nanos: 1_234_567 };
    assert_eq!(Timespec::from_time_value(tv), Timespec { tv_sec: 5, tv_nsec: 1_234_567 });
    assert_eq!(
        Timespec::from_time_value(TimeValue { secs: u64::MAX, nanos: 0 }),
        Timespec { tv_sec: -1, tv_nsec: 0 }
    );
    assert_eq!(TimeValue::from_time_value(tv), tv);
    assert_eq!(tv.try_into_time_value(), Ok(tv));
    assert_eq!(
        TimeValue { secs: 0, nanos: 1_000_000_000 }.try_into_time_value(),
        Err(SysError::InvalidArgument)
    );
}

#[test]
fn timeval_conversion() {
    let ok = Timeval { tv_sec: 7, tv_usec: 999_999 };
    assert_eq!(ok.try_into_time_value(), Ok(TimeValue { secs: 7, nanos: 999_999_000 }));
    assert_eq!(
        Timeval { tv_sec: 0, tv_usec: 0 }.try_into_time_value(),
        Ok(TimeValue { secs: 0, nanos: 0 })
    );
    for bad in [
        Timeval { tv_sec: 0, tv_usec: 1_000_000 },
        Timeval { tv_sec: 0, tv_usec: -1 },
        Timeval { tv_sec: -1, tv_usec: 0 },
    ] {
        assert_eq!(bad.try_into_time_value(), Err(SysError::InvalidArgument));
    }
    assert_eq!(
        Timeval::from_time_value(TimeValue { secs: 5, nanos: 1_234_567 }),
        Timeval { tv_sec: 5, tv_usec: 1_234 }
    );
}

#[test]
fn interrupt_counter_wraps() {
    let mut counter = IrqCounter::new();
    assert_eq!(counter.irq_cnt(), 0);
    counter.inc_irq_cnt();
    counter.inc_irq_cnt();
    assert_eq!(counter.irq_cnt(), 2);
}

#[test]
fn socket_option_conversions() {
    assert_eq!(Int::<usize>::sys_to_rust(5), Ok(5usize));
    assert_eq!(Int::<usize>::sys_to_rust(-1), Err(SysError::InvalidArgument));
    assert_eq!(Int::<u8>::sys_to_rust(255), Ok(255u8));
    assert_eq!(Int::<u8>::sys_to_rust(256), Err(SysError::InvalidArgument));
    assert_eq!(Int::<usize>::rust_to_sys(7), Ok(7));
    assert_eq!(Int::<usize>::rust_to_sys(1 << 31), Err(SysError::InvalidArgument));
    assert_eq!(Int::<u8>::rust_to_sys(200), Ok(200));
    assert_eq!(IntBool::sys_to_rust(0), Ok(false));
    assert_eq!(IntBool::sys_to_rust(-3), Ok(true));
    assert_eq!(IntBool::rust_to_sys(true), Ok(1));
    assert_eq!(IntBool::rust_to_sys(false), Ok(0));
    assert_eq!(
        Duration::sys_to_rust(Timeval { tv_sec: 1, tv_usec: 5 }),
        Ok(TimeValue { secs: 1, nanos: 5000 })
    );
    assert_eq!(
        Duration::sys_to_rust(Timeval { tv_sec: 1, tv_usec: 1_000_000 }),
        Err(SysError::InvalidArgument)
    );
    assert_eq!(
        Duration::rust_to_sys(TimeValue { secs: 2, nanos: 999_999_999 }),
        Ok(Timeval { tv_sec: 2, tv_usec: 999_999 })
    );
    let raw = RawCredentials { pid: 1, uid: 2, gid: 3 };
    assert_eq!(Ucred::sys_to_rust(raw), Ok(UnixCredentials { pid: 1, uid: 2, gid: 3 }));
    assert_eq!(Ucred::rust_to_sys(UnixCredentials { pid: 1, uid: 2, gid: 3 }), Ok(raw));
}

#[test]
fn npu_command_decoding() {
    assert_eq!(ioc_nr(0x4010_6401), 1);
    assert_eq!(ioc_nr(0xffff_ffff), 0xff);
    assert_eq!(RknpuCmd::try_from(0), Ok(RknpuCmd::Action));
    assert_eq!(RknpuCmd::try_from(0xc010_6401), Ok(RknpuCmd::Submit));
    assert_eq!(RknpuCmd::try_from(2), Ok(RknpuCmd::MemCreate));
    assert_eq!(RknpuCmd::try_from(3), Ok(RknpuCmd::MemMap));
    assert_eq!(RknpuCmd::try_from(4), Ok(RknpuCmd::MemDestroy));
    assert_eq!(RknpuCmd::try_from(0x105), Ok(RknpuCmd::MemSync));
    assert_eq!(RknpuCmd::try_from(6), Err(()));
    assert_eq!(RknpuCmd::try_from(0xff), Err(()));
    assert_eq!(RknpuCmd::MemSync.number(), 5);
    assert_eq!(RknpuCmd::Action.number(), 0);
}

#[test]
fn npu_ioctl_decisions() {
    assert_eq!(ioctl_request(0, 0), Err(VfsError::InvalidData));
    assert_eq!(ioctl_request(0xff, 0), Err(VfsError::InvalidData));
    assert_eq!(ioctl_request(0, 0x1000), Ok(NpuRequest::Action));
    assert_eq!(ioctl_request(1, 0x1000), Ok(NpuRequest::Submit));
    assert_eq!(ioctl_request(2, 0x1000), Ok(NpuRequest::MemCreate));
    assert_eq!(ioctl_request(3, 0x1000), Ok(NpuRequest::Nothing));
    assert_eq!(ioctl_request(5, 0x1000), Ok(NpuRequest::Nothing));
    assert_eq!(ioctl_request(6, 0x1000), Err(VfsError::BadIoctl));
    assert_eq!(copy_status(0), Ok(()));
    assert_eq!(copy_status(3), Err(VfsError::InvalidData));
    let card = Card1::new();
    assert_eq!(card.read_at(16, 0), Err(VfsError::InvalidInput));
    assert_eq!(card.write_at(16, 0), Err(VfsError::InvalidInput));
    assert_eq!(card.ioctl(1, 8), Ok(NpuRequest::Submit));
    assert_eq!(card.flags(), 2);
    let npu = Rknpu;
    assert_eq!(npu.read_at(16, 4), Ok(0));
    assert_eq!(npu.write_at(16, 4), Ok(0));
    assert_eq!(npu.ioctl(9, 8), Err(VfsError::BadIoctl));
    assert_eq!(npu.flags(), 3);
    let _ = Card1::default();
}

#[test]
fn simple_file_content_arithmetic() {
    let data = b"hello world";
    assert_eq!(read_window(data, 0, 5), b"hello".to_vec());
    assert_eq!(read_window(data, 6, 100), b"world".to_vec());
    assert_eq!(read_window(data, 11, 4), Vec::<u8>::new());
    assert_eq!(read_window(data, u64::MAX, 4), Vec::<u8>::new());
    assert_eq!(read_window(data, 3, 0), Vec::<u8>::new());
    assert_eq!(written(data, b"HELLO", 0), Some(b"HELLO world".to_vec()));
    assert_eq!(written(data, b"a longer text", 0), Some(b"a longer text".to_vec()));
    assert_eq!(written(data, b"!!", 10), Some(b"hello worl!!".to_vec()));
    assert_eq!(written(b"ab", b"z", 4), Some(vec![b'a', b'b', 0, 0, b'z']));
    assert_eq!(written(b"ab", b"", 0), Some(b"ab".to_vec()));
    assert_eq!(written(b"", b"", 0), Some(Vec::new()));
    assert_eq!(written(data, b"x", u64::MAX), None);
    assert_eq!(resized(data, 5), b"hello".to_vec());
    assert_eq!(resized(b"ab", 4), vec![b'a', b'b', 0, 0]);
    assert_eq!(resized(b"ab", 0), Vec::<u8>::new());
}

fn backed_file(
    store: &RefCell<Vec<u8>>,
) -> SimpleFile<RwFile<impl Fn(SimpleFileOperation) -> Result<Option<Vec<u8>>, VfsError> + '_>> {
    SimpleFile::new(RwFile::new(move |op: SimpleFileOperation| match op {
        SimpleFileOperation::Read => Ok(Some(store.borrow().clone())),
        SimpleFileOperation::Write(data) => {
            *store.borrow_mut() = data.to_vec();
            Ok(None)
        }
    }))
}

#[test]
fn simple_file_over_a_function() {
    let store = RefCell::new(b"abc".to_vec());
    let file = backed_file(&store);
    assert_eq!(file.len(), Ok(3));
    assert_eq!(file.read_at(2, 1), Ok(b"bc".to_vec()));
    assert_eq!(file.read_at(10, 3), Ok(vec![]));
    assert_eq!(file.write_at(b"XY", 2), Ok(2));
    assert_eq!(*store.borrow(), b"abXY".to_vec());
    assert_eq!(file.append(b"!"), Ok((1, 5)));
    assert_eq!(*store.borrow(), b"abXY!".to_vec());
    assert_eq!(file.set_len(2), Ok(()));
    assert_eq!(*store.borrow(), b"ab".to_vec());
    assert_eq!(file.set_len(4), Ok(()));
    assert_eq!(*store.borrow(), vec![b'a', b'b', 0, 0]);
    assert_eq!(file.set_len(4), Ok(()));
    assert_eq!(file.set_symlink("/tmp/x"), Ok(()));
    assert_eq!(*store.borrow(), b"/tmp/x".to_vec());
    assert_eq!(file.write_at(b"whole new content", 0), Ok(17));
    assert_eq!(*store.borrow(), b"whole new content".to_vec());
}

#[test]
fn simple_file_passes_errors_on() {
    let file = SimpleFile::new(RwFile::new(|op: SimpleFileOperation| match op {
        SimpleFileOperation::Read => Err::<Option<Vec<u8>>, VfsError>(VfsError::NotFound),
        SimpleFileOperation::Write(_) => Err(VfsError::BadFileDescriptor),
    }));
    assert_eq!(file.len(), Err(VfsError::NotFound));
    assert_eq!(file.read_at(1, 0), Err(VfsError::NotFound));
    assert_eq!(file.write_at(b"x", 0), Err(VfsError::NotFound));
    assert_eq!(file.append(b"x"), Err(VfsError::NotFound));
    assert_eq!(file.set_len(0), Err(VfsError::NotFound));
    assert_eq!(file.set_symlink("x"), Err(VfsError::BadFileDescriptor));
    let ops = RwFile::new(|op: SimpleFileOperation| match op {
        SimpleFileOperation::Read => Ok(Some(b"ro".to_vec())),
        SimpleFileOperation::Write(_) => Err(VfsError::BadFileDescriptor),
    });
    assert_eq!(ops.read_all(), Ok(b"ro".to_vec()));
    assert_eq!(ops.write_all(b"x"), Err(VfsError::BadFileDescriptor));
}

#[test]
fn read_only_file_over_a_function() {
    let file = SimpleFile::new(ReadFile::new(|| Ok::<&str, VfsError>("generated")));
    assert_eq!(file.len(), Ok(9));
    assert_eq!(file.read_at(3, 2), Ok(b"ner".to_vec()));
    assert_eq!(file.write_at(b"x", 0), Err(VfsError::BadFileDescriptor));
    assert_eq!(file.append(b"x"), Err(VfsError::BadFileDescriptor));
    assert_eq!(file.set_len(9), Ok(()));
    assert_eq!(file.set_len(3), Err(VfsError::BadFileDescriptor));
    assert_eq!(file.set_symlink("t"), Err(VfsError::BadFileDescriptor));
    let failing = ReadFile::new(|| Err::<Vec<u8>, VfsError>(VfsError::NotFound));
    assert_eq!(failing.read_all(), Err(VfsError::NotFound));
    assert_eq!(failing.write_all(b""), Err(VfsError::BadFileDescriptor));
}

#[test]
fn pointers_from_addresses() {
    use_pointer(starry::mm::ptr::UserPtr::<u32>::from(0x40), 0x40);
    let c: starry::mm::ptr::UserConstPtr<u8> = 7usize.into();
    assert_eq!(c.address(), 7);
}

fn use_pointer(ptr: starry::mm::ptr::UserPtr<u32>, addr: usize) {
    assert_eq!(ptr.address(), addr);
    assert!(ptr == ptr.clone());
}
