use starry::errno::SysError;
use starry::mm::fault::{handle_page_fault, read_byte, AccessSpan};
use starry::mm::paged::PagedMemory;
use starry::mm::ptr::{vm_load_string, UserConstPtr, UserPtr};
use starry::mm::region::{check_region, read_region, write_region};
use starry::mm::scan::check_null_terminated;
use starry::mm::space::{AccessFlags, UserMemory};

const PAGE: usize = 4096;

fn space(pages: usize) -> PagedMemory {
    PagedMemory::with_pages(pages).unwrap()
}

fn poke_all(mem: &mut PagedMemory, addr: usize, bytes: &[u8]) {
    for (i, b) in bytes.iter().enumerate() {
        assert!(mem.poke(addr + i, *b));
    }
}

#[test]
fn page_size_matches_memory_addr() {
    assert_eq!(starry::addr::PAGE_SIZE, memory_addr::PAGE_SIZE_4K);
    assert_eq!(starry::addr::page_floor(0x12345678), 0x12345000);
    assert_eq!(starry::addr::page_ceil(0x12345678), Some(0x12346000));
    assert_eq!(starry::addr::page_ceil(0x12345000), Some(0x12345000));
    assert_eq!(starry::addr::page_ceil(usize::MAX), None);
    assert_eq!(starry::addr::page_ceil(usize::MAX - 4095), Some(usize::MAX - 4095));
}

#[test]
fn validated_read_returns_stored_bytes() {
    let mut mem = space(4);
    assert!(mem.map(1, 2, AccessFlags::read_only()));
    poke_all(&mut mem, PAGE + 8, &[0xde, 0xad, 0xbe, 0xef]);
    let ptr = UserConstPtr::<u32>::new(PAGE + 8);
    assert_eq!(ptr.get_as_ref(&mut mem), Ok(vec![0xde, 0xad, 0xbe, 0xef]));
}

#[test]
fn validated_read_populates_only_covering_pages() {
    let mut mem = space(4);
    assert!(mem.map(0, 4, AccessFlags::read_only()));
    assert!(!mem.is_present(PAGE));
    let ptr = UserConstPtr::<u8>::new(PAGE + 4090);
    let got = ptr.get_as_slice(&mut mem, 10).unwrap();
    assert_eq!(got, vec![0u8; 10]);
    assert!(!mem.is_present(0));
    assert!(mem.is_present(PAGE));
    assert!(mem.is_present(2 * PAGE));
    assert!(!mem.is_present(3 * PAGE));
}

#[test]
fn misaligned_read_fails_whatever_the_permission() {
    let mut mem = space(2);
    assert!(mem.map(0, 2, AccessFlags::read_write()));
    for addr in [1usize, 2, 3, 5, 4097, 4098] {
        assert_eq!(UserConstPtr::<u32>::new(addr).get_as_ref(&mut mem), Err(SysError::InvalidAddress));
        assert_eq!(UserPtr::<u32>::new(addr).get_as_mut(&mut mem), Err(SysError::InvalidAddress));
        assert_eq!(
            UserConstPtr::<u32>::new(addr).get_as_slice(&mut mem, 1),
            Err(SysError::InvalidAddress)
        );
    }
    let mut bare = space(2);
    assert_eq!(UserConstPtr::<u32>::new(2).get_as_ref(&mut bare), Err(SysError::InvalidAddress));
    assert!(!mem.is_present(0));
}

#[test]
fn out_of_range_and_denied_regions_fail() {
    let mut mem = space(2);
    assert!(mem.map(0, 1, AccessFlags::read_only()));
    assert_eq!(UserConstPtr::<u32>::new(PAGE).get_as_ref(&mut mem), Err(SysError::InvalidAddress));
    assert_eq!(UserConstPtr::<u32>::new(2 * PAGE).get_as_ref(&mut mem), Err(SysError::InvalidAddress));
    assert_eq!(
        UserConstPtr::<u32>::new(usize::MAX - 3).get_as_ref(&mut mem),
        Err(SysError::InvalidAddress)
    );
    assert_eq!(UserPtr::<u32>::new(0).get_as_mut(&mut mem), Err(SysError::InvalidAddress));
    assert_eq!(UserConstPtr::<u32>::new(0).get_as_ref(&mut mem), Ok(vec![0, 0, 0, 0]));
    assert_eq!(
        UserConstPtr::<u8>::new(PAGE - 2).get_as_slice(&mut mem, 3),
        Err(SysError::InvalidAddress)
    );
    assert_eq!(
        UserConstPtr::<u64>::new(8).get_as_slice(&mut mem, usize::MAX / 4),
        Err(SysError::InvalidAddress)
    );
}

#[test]
fn empty_slice_needs_no_valid_address() {
    let mut mem = space(1);
    assert_eq!(UserConstPtr::<u32>::new(0x7000_0000).get_as_slice(&mut mem, 0), Ok(vec![]));
    assert_eq!(UserConstPtr::<u32>::new(3).get_as_slice(&mut mem, 0), Ok(vec![]));
    assert_eq!(UserPtr::<u64>::new(usize::MAX).get_as_mut_slice(&mut mem, 0), Ok(vec![]));
}

#[test]
fn validated_write_then_read_round_trips() {
    let mut mem = space(3);
    assert!(mem.map(1, 2, AccessFlags::read_write()));
    let ptr = UserPtr::<u16>::new(2 * PAGE - 2);
    assert_eq!(ptr.write_bytes(&mut mem, &[1, 2, 3, 4]), Ok(()));
    assert_eq!(mem.peek(2 * PAGE - 2), Some(1));
    assert_eq!(mem.peek(2 * PAGE + 1), Some(4));
    assert_eq!(ptr.get_as_mut_slice(&mut mem, 2), Ok(vec![1, 2, 3, 4]));
    assert_eq!(ptr.cast::<u8>().get_as_mut_slice(&mut mem, 4), Ok(vec![1, 2, 3, 4]));
}

#[test]
fn write_to_read_only_memory_changes_nothing() {
    let mut mem = space(1);
    assert!(mem.map(0, 1, AccessFlags::read_only()));
    assert_eq!(UserPtr::<u8>::new(16).write_bytes(&mut mem, &[9]), Err(SysError::InvalidAddress));
    assert_eq!(mem.peek(16), Some(0));
    assert!(!mem.is_present(16));
    assert_eq!(write_region(&mut mem, 16, &[9], 1), Err(SysError::InvalidAddress));
}

#[test]
fn check_region_alone() {
    let mut mem = space(2);
    assert!(mem.map(0, 2, AccessFlags::read_only()));
    assert_eq!(check_region(&mut mem, 4, 8, 4, AccessFlags::read_only()), Ok(()));
    assert!(mem.is_present(0));
    assert!(!mem.is_present(PAGE));
    assert_eq!(check_region(&mut mem, 6, 8, 4, AccessFlags::read_only()), Err(SysError::InvalidAddress));
    assert_eq!(check_region(&mut mem, 4, 8, 4, AccessFlags::read_write()), Err(SysError::InvalidAddress));
    assert_eq!(check_region(&mut mem, 3 * PAGE, 0, 4, AccessFlags::read_write()), Ok(()));
    assert_eq!(read_region(&mut mem, PAGE, 2, 1, AccessFlags::read_only()), Ok(vec![0, 0]));
}

#[test]
fn scanning_a_b_c_nul_gives_three() {
    let mut mem = space(2);
    assert!(mem.map(0, 2, AccessFlags::read_only()));
    poke_all(&mut mem, 100, b"ABC\0");
    let mut span = AccessSpan::new();
    assert_eq!(check_null_terminated(&mut mem, &mut span, 100, 1, 1, AccessFlags::read_only()), Ok(3));
    assert!(!span.is_accessing_user_memory());
    let got = UserConstPtr::<u8>::new(100).get_as_null_terminated(&mut mem, &mut span);
    assert_eq!(got, Ok(b"ABC".to_vec()));
    assert_eq!(UserConstPtr::<u8>::new(100).get_as_str(&mut mem, &mut span), Ok("ABC".to_string()));
    assert_eq!(vm_load_string(&mut mem, &mut span, 101), Ok("BC".to_string()));
    assert_eq!(vm_load_string(&mut mem, &mut span, 103), Ok(String::new()));
}

#[test]
fn scan_crosses_pages_and_backs_them_on_touch() {
    let mut mem = space(3);
    assert!(mem.map(0, 3, AccessFlags::read_only()));
    let text: Vec<u8> = (0..5000).map(|i| b'a' + (i % 26) as u8).collect();
    poke_all(&mut mem, PAGE - 10, &text);
    let mut span = AccessSpan::new();
    let got = UserConstPtr::<u8>::new(PAGE - 10).get_as_null_terminated(&mut mem, &mut span);
    assert_eq!(got, Ok(text));
    assert!(mem.is_present(0));
    assert!(mem.is_present(PAGE));
    assert!(mem.is_present(2 * PAGE));
    assert!(!span.is_accessing_user_memory());
}

#[test]
fn scan_without_terminator_fails_at_the_unmapped_page() {
    let mut mem = space(3);
    assert!(mem.map(0, 1, AccessFlags::read_only()));
    for a in 4000..PAGE {
        assert!(mem.poke(a, b'x'));
    }
    let mut span = AccessSpan::new();
    assert_eq!(
        check_null_terminated(&mut mem, &mut span, 4000, 1, 1, AccessFlags::read_only()),
        Err(SysError::InvalidAddress)
    );
    assert!(!span.is_accessing_user_memory());
    assert_eq!(
        UserConstPtr::<u8>::new(4000).get_as_str(&mut mem, &mut span),
        Err(SysError::InvalidAddress)
    );
    // the last page of the space: the scan runs off its end
    assert!(mem.map(2, 1, AccessFlags::read_only()));
    for a in 2 * PAGE..3 * PAGE {
        assert!(mem.poke(a, 1));
    }
    assert_eq!(
        vm_load_string(&mut mem, &mut span, 2 * PAGE + 17),
        Err(SysError::InvalidAddress)
    );
}

#[test]
fn scan_of_wide_elements() {
    let mut mem = space(2);
    assert!(mem.map(0, 2, AccessFlags::read_write()));
    // three u16 elements, the second with a zero low byte, then the sentinel
    poke_all(&mut mem, PAGE - 4, &[1, 0, 0, 2, 3, 3, 0, 0]);
    let mut span = AccessSpan::new();
    assert_eq!(
        check_null_terminated(&mut mem, &mut span, PAGE - 4, 2, 2, AccessFlags::read_write()),
        Ok(3)
    );
    assert_eq!(
        UserPtr::<u16>::new(PAGE - 4).get_as_mut_null_terminated(&mut mem, &mut span),
        Ok(vec![1, 0, 0, 2, 3, 3])
    );
    assert_eq!(
        UserPtr::<u16>::new(PAGE - 3).get_as_mut_null_terminated(&mut mem, &mut span),
        Err(SysError::InvalidAddress)
    );
}

#[test]
fn invalid_utf8_is_an_encoding_error() {
    let mut mem = space(1);
    assert!(mem.map(0, 1, AccessFlags::read_only()));
    poke_all(&mut mem, 0, &[b'o', b'k', 0xff, 0xfe, 0]);
    let mut span = AccessSpan::new();
    assert_eq!(UserConstPtr::<u8>::new(0).get_as_str(&mut mem, &mut span), Err(SysError::InvalidEncoding));
    poke_all(&mut mem, 64, "h\u{e9}llo \u{4e16}\u{754c}\0".as_bytes());
    assert_eq!(
        vm_load_string(&mut mem, &mut span, 64),
        Ok("h\u{e9}llo \u{4e16}\u{754c}".to_string())
    );
}

#[test]
fn fault_outside_span_is_not_handled() {
    let mut mem = space(1);
    assert!(mem.map(0, 1, AccessFlags::read_only()));
    let span = AccessSpan::new();
    assert!(!handle_page_fault(&span, Some(&mut mem), 8, AccessFlags::read_only()));
    assert!(!mem.is_present(8));
    assert_eq!(read_byte(&mut mem, &span, 8), None);
}

#[test]
fn fault_without_process_is_not_handled() {
    let mut span = AccessSpan::new();
    span.begin();
    assert!(!handle_page_fault::<PagedMemory>(&span, None, 8, AccessFlags::read_only()));
}

#[test]
fn fault_inside_span_is_resolved_by_the_address_space() {
    let mut mem = space(2);
    assert!(mem.map(0, 1, AccessFlags::read_only()));
    assert!(mem.poke(8, 42));
    let mut span = AccessSpan::new();
    span.begin();
    assert!(span.is_accessing_user_memory());
    assert_eq!(mem.load(8), None);
    assert!(!handle_page_fault(&span, Some(&mut mem), 8, AccessFlags::read_write()));
    assert!(!mem.is_present(8));
    assert!(handle_page_fault(&span, Some(&mut mem), 8, AccessFlags::read_only()));
    assert!(mem.is_present(8));
    assert_eq!(mem.load(8), Some(42));
    assert!(!handle_page_fault(&span, Some(&mut mem), PAGE + 8, AccessFlags::read_only()));
    assert_eq!(read_byte(&mut mem, &span, PAGE + 8), None);
    span.end();
    assert!(!span.is_accessing_user_memory());
}

#[test]
fn pointer_basics() {
    let p = UserPtr::<u32>::new(0x1000);
    assert!(!p.is_null());
    assert_eq!(p.address(), 0x1000);
    assert_eq!(p.cast::<u8>().address(), 0x1000);
    assert!(UserPtr::<u32>::default().is_null());
    assert!(UserConstPtr::<u64>::default().is_null());
    let c = UserConstPtr::<u64>::new(0);
    assert!(c.is_null());
    assert!(c.cast::<u16>().is_null());
    let q = p;
    assert!(q == p);
}

#[test]
fn memory_model_backdoor() {
    assert!(PagedMemory::with_pages(usize::MAX).is_none());
    let mut mem = space(1);
    assert!(!mem.map(0, 2, AccessFlags::read_only()));
    assert!(!mem.map(1, 1, AccessFlags::read_only()));
    assert!(mem.map(1, 0, AccessFlags::read_only()));
    assert!(!mem.poke(PAGE, 1));
    assert_eq!(mem.peek(PAGE), None);
    assert_eq!(mem.peek(PAGE - 1), Some(0));
    assert!(!mem.can_access_range(0, 1, AccessFlags::read_only()));
    assert!(mem.map(0, 1, AccessFlags { read: true, write: false, execute: true }));
    assert!(mem.can_access_range(0, PAGE, AccessFlags::read_only()));
    assert!(!mem.can_access_range(0, PAGE + 1, AccessFlags::read_only()));
    assert!(!mem.can_access_range(1, usize::MAX, AccessFlags::read_only()));
    assert!(!mem.store(0, 1));
    assert!(mem.populate(0, PAGE, AccessFlags::read_only()).is_ok());
    assert!(!mem.store(0, 1));
    assert_eq!(mem.load(0), Some(0));
}

#[test]
fn scan_for_writing_needs_write_permission() {
    let mut mem = space(1);
    assert!(mem.map(0, 1, AccessFlags::read_only()));
    poke_all(&mut mem, 8, b"hi\0");
    let mut span = AccessSpan::new();
    assert_eq!(
        UserPtr::<u8>::new(8).get_as_mut_null_terminated(&mut mem, &mut span),
        Err(SysError::InvalidAddress)
    );
    assert!(!mem.is_present(8));
    assert_eq!(
        UserConstPtr::<u8>::new(8).get_as_null_terminated(&mut mem, &mut span),
        Ok(b"hi".to_vec())
    );
    assert!(mem.is_present(8));
}

#[test]
fn failed_scan_backs_the_pages_before_the_gap() {
    let mut mem = space(4);
    assert!(mem.map(0, 2, AccessFlags::read_only()));
    for a in 100..2 * PAGE {
        assert!(mem.poke(a, 7));
    }
    let mut span = AccessSpan::new();
    assert_eq!(
        check_null_terminated(&mut mem, &mut span, 100, 4, 4, AccessFlags::read_only()),
        Err(SysError::InvalidAddress)
    );
    assert!(mem.is_present(0));
    assert!(mem.is_present(PAGE));
    assert!(!mem.is_present(2 * PAGE));
    assert!(!span.is_accessing_user_memory());
}

#[test]
fn wide_element_across_a_page_boundary() {
    let mut mem = space(3);
    assert!(mem.map(0, 2, AccessFlags::read_only()));
    // an eight-byte element whose second half lies in the next page
    poke_all(&mut mem, PAGE - 12, &[1, 0, 0, 0, 0, 0, 0, 0, 0, 0, 0, 0, 0, 0, 0, 9]);
    poke_all(&mut mem, PAGE + 4, &[0; 8]);
    let mut span = AccessSpan::new();
    assert_eq!(
        check_null_terminated(&mut mem, &mut span, PAGE - 12, 8, 4, AccessFlags::read_only()),
        Ok(2)
    );
    // the same run with the second page unmapped cannot be read to its end
    let mut short = space(3);
    assert!(short.map(0, 1, AccessFlags::read_only()));
    poke_all(&mut short, PAGE - 12, &[1, 0, 0, 0, 0, 0, 0, 0, 0, 0, 0, 0]);
    assert_eq!(
        check_null_terminated(&mut short, &mut span, PAGE - 12, 8, 4, AccessFlags::read_only()),
        Err(SysError::InvalidAddress)
    );
    // a sentinel that ends right at the end of the mapped page is found
    let mut exact = space(3);
    assert!(exact.map(0, 1, AccessFlags::read_only()));
    poke_all(&mut exact, PAGE - 16, &[1, 0, 0, 0, 0, 0, 0, 0]);
    assert_eq!(
        check_null_terminated(&mut exact, &mut span, PAGE - 16, 8, 8, AccessFlags::read_only()),
        Ok(1)
    );
}

#[test]
fn elements_of_no_bytes_make_an_empty_run() {
    let mut mem = space(1);
    let mut span = AccessSpan::new();
    assert_eq!(UserConstPtr::<()>::new(5).get_as_null_terminated(&mut mem, &mut span), Ok(vec![]));
    assert_eq!(UserConstPtr::<()>::new(5).get_as_ref(&mut mem), Ok(vec![]));
    assert_eq!(UserConstPtr::<[u32; 0]>::new(6).get_as_ref(&mut mem), Err(SysError::InvalidAddress));
    assert_eq!(UserConstPtr::<[u32; 0]>::new(8).get_as_ref(&mut mem), Ok(vec![]));
}
