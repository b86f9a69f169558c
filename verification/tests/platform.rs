use pvmfw::entry::{can_jump, is_zeroable, kernel_range, RebootReason};
use pvmfw::fdt::{fdt_err, fdt_err_expect_zero, fdt_err_or_option, Fdt, FdtError};
use pvmfw::hyp::hvc::{
    call_args, hyp_meminfo, mem_share, mem_unshare, mmio_guard_enroll, mmio_guard_info,
    mmio_guard_map, mmio_guard_unmap,
};
use pvmfw::hyp::mmio_guard;
use pvmfw::hyp::smccc::{check_return, checked_hvc64, checked_hvc64_expect_zero, Error};
use pvmfw::mem::{page_4kb_of, unchecked_align_down, SIZE_4KB};
use pvmfw::vmbase::fdt::{DmaPoolNode, Reg, SwiotlbInfo};
use pvmfw::vmbase::layout::{console_uart_page, LinkerSymbols};
use pvmfw::vmbase::rand::{
    fill_with_entropy, init, random_array, rnd64, trng_rnd64, Error as RandError, PlatformError,
    TrngError, Version,
};
use std::cell::RefCell;

/// A hypervisor that answers every call with `x0` and records the calls.
fn hypervisor<'a>(
    calls: &'a RefCell<Vec<(u32, u64)>>,
    x0: u64,
) -> impl Fn(u32, [u64; 17]) -> [u64; 18] + 'a {
    move |function, args| {
        assert!(args[1..].iter().all(|a| *a == 0));
        calls.borrow_mut().push((function, args[0]));
        let mut ret = [0xdead_beef; 18];
        ret[0] = x0;
        ret
    }
}

#[test]
fn return_values_are_read_as_signed() {
    assert_eq!(check_return(0), Ok(0));
    assert_eq!(check_return(4096), Ok(4096));
    assert_eq!(check_return(i64::MAX as u64), Ok(i64::MAX as u64));
    assert_eq!(check_return(-1i64 as u64), Err(Error::NotSupported));
    assert_eq!(check_return(-2i64 as u64), Err(Error::NotRequired));
    assert_eq!(check_return(-3i64 as u64), Err(Error::InvalidParameter));
    assert_eq!(check_return(-4i64 as u64), Err(Error::Unknown(-4)));
    assert_eq!(check_return(i64::MIN as u64), Err(Error::Unknown(i64::MIN)));
    for x0 in [0u64, 1, 77, u64::MAX, u64::MAX - 5, 1 << 63, (1 << 63) - 1, 0xffff_ffff] {
        let expected = match x0 as i64 {
            ret if ret >= 0 => Ok(ret as u64),
            -1 => Err(Error::NotSupported),
            -2 => Err(Error::NotRequired),
            -3 => Err(Error::InvalidParameter),
            ret => Err(Error::Unknown(ret)),
        };
        assert_eq!(check_return(x0), expected);
    }
}

#[test]
fn calls_are_made_with_their_function_and_arguments() {
    let calls = RefCell::new(vec![]);
    let mut args = [0u64; 17];
    args[0] = 5;
    assert_eq!(checked_hvc64(&hypervisor(&calls, 9), 0xc600_0002, args), Ok(9));
    assert_eq!(
        checked_hvc64_expect_zero(&hypervisor(&calls, 9), 0xc600_0003, args),
        Err(Error::Unexpected(9))
    );
    assert_eq!(checked_hvc64_expect_zero(&hypervisor(&calls, 0), 0xc600_0003, args), Ok(()));
    assert_eq!(
        checked_hvc64_expect_zero(&hypervisor(&calls, u64::MAX), 0xc600_0003, args),
        Err(Error::NotSupported)
    );
    assert_eq!(
        calls.into_inner(),
        vec![(0xc600_0002, 5), (0xc600_0003, 5), (0xc600_0003, 5), (0xc600_0003, 5)]
    );
    let mut expected = [0u64; 17];
    expected[0] = 0x1234;
    assert_eq!(call_args(0x1234), expected);
}

#[test]
fn hypervisor_calls_use_their_function_ids() {
    let calls = RefCell::new(vec![]);
    assert_eq!(hyp_meminfo(&hypervisor(&calls, 4096)), Ok(4096));
    assert_eq!(mem_share(&hypervisor(&calls, 0), 0x8000_0000), Ok(()));
    assert_eq!(mem_unshare(&hypervisor(&calls, 0), 0x8000_1000), Ok(()));
    assert_eq!(mmio_guard_info(&hypervisor(&calls, 4096)), Ok(4096));
    assert_eq!(mmio_guard_enroll(&hypervisor(&calls, 0)), Ok(()));
    assert_eq!(mmio_guard_map(&hypervisor(&calls, 0), 0x3000), Ok(()));
    assert_eq!(mmio_guard_unmap(&hypervisor(&calls, 0), 0x4000), Ok(()));
    assert_eq!(
        calls.into_inner(),
        vec![
            (0xc600_0002, 0),
            (0xc600_0003, 0x8000_0000),
            (0xc600_0004, 0x8000_1000),
            (0xc600_0005, 0),
            (0xc600_0006, 0),
            (0xc600_0007, 0x3000),
            (0xc600_0008, 0x4000),
        ]
    );
    let calls = RefCell::new(vec![]);
    assert_eq!(mem_share(&hypervisor(&calls, 1), 0), Err(Error::Unexpected(1)));
    assert_eq!(mem_unshare(&hypervisor(&calls, -3i64 as u64), 0), Err(Error::InvalidParameter));
    assert_eq!(hyp_meminfo(&hypervisor(&calls, -2i64 as u64)), Err(Error::NotRequired));
}

#[test]
fn map_reads_error_codes_of_32_bits() {
    let calls = RefCell::new(vec![]);
    let map = |x0: u64| mmio_guard_map(&hypervisor(&calls, x0), 0);
    assert_eq!(map(0xffff_ffff), Err(Error::NotSupported));
    assert_eq!(map(0xffff_fffe), Err(Error::NotRequired));
    assert_eq!(map(0xffff_fffd), Err(Error::InvalidParameter));
    assert_eq!(map(0xffff_fffc), Err(Error::Unknown(-4)));
    assert_eq!(map(0x8000_0000), Err(Error::Unknown(i64::from(i32::MIN))));
    assert_eq!(map(0x7fff_ffff), Err(Error::Unexpected(0x7fff_ffff)));
    assert_eq!(map(0x1_0000_0000), Err(Error::Unexpected(0x1_0000_0000)));
    assert_eq!(map(0x1_ffff_ffff), Err(Error::Unexpected(0x1_ffff_ffff)));
    assert_eq!(map(u64::MAX), Err(Error::NotSupported));
    assert_eq!(map(-7i64 as u64), Err(Error::Unknown(-7)));
    assert_eq!(map(0), Ok(()));
}

#[test]
fn unmap_takes_not_supported_for_success() {
    let calls = RefCell::new(vec![]);
    let unmap = |x0: u64| mmio_guard_unmap(&hypervisor(&calls, x0), 0);
    assert_eq!(unmap(0), Ok(()));
    assert_eq!(unmap(u64::MAX), Ok(()));
    assert_eq!(unmap(-2i64 as u64), Err(Error::NotRequired));
    assert_eq!(unmap(3), Err(Error::Unexpected(3)));
}

#[test]
fn mmio_guard_needs_a_granule_of_4_kib() {
    let answers = |enroll: u64, info: u64| {
        move |function: u32, _: [u64; 17]| {
            let mut ret = [0u64; 18];
            ret[0] = match function {
                0xc600_0006 => enroll,
                0xc600_0005 => info,
                _ => panic!("unexpected call {function:#x}"),
            };
            ret
        }
    };
    assert_eq!(mmio_guard::init(&answers(0, 4096)), Ok(()));
    assert_eq!(
        mmio_guard::init(&answers(0, 16384)),
        Err(mmio_guard::Error::UnsupportedGranule(16384))
    );
    assert_eq!(
        mmio_guard::init(&answers(u64::MAX, 4096)),
        Err(mmio_guard::Error::EnrollFailed(Error::NotSupported))
    );
    assert_eq!(
        mmio_guard::init(&answers(1, 4096)),
        Err(mmio_guard::Error::EnrollFailed(Error::Unexpected(1)))
    );
    assert_eq!(
        mmio_guard::init(&answers(0, -3i64 as u64)),
        Err(mmio_guard::Error::InfoFailed(Error::InvalidParameter))
    );
}

#[test]
fn mmio_guard_maps_whole_pages() {
    let calls = RefCell::new(vec![]);
    assert_eq!(mmio_guard::map(&hypervisor(&calls, 0), 0x3f8), Ok(()));
    assert_eq!(mmio_guard::map(&hypervisor(&calls, 0), 0x1fff), Ok(()));
    assert_eq!(mmio_guard::unmap(&hypervisor(&calls, 0), 0x2000), Ok(()));
    assert_eq!(
        mmio_guard::map(&hypervisor(&calls, 0xffff_fffd), 0x5123),
        Err(mmio_guard::Error::MapFailed(Error::InvalidParameter))
    );
    assert_eq!(
        mmio_guard::unmap(&hypervisor(&calls, 5), 0x5123),
        Err(mmio_guard::Error::UnmapFailed(Error::Unexpected(5)))
    );
    assert_eq!(
        calls.into_inner(),
        vec![
            (0xc600_0007, 0),
            (0xc600_0007, 0x1000),
            (0xc600_0008, 0x2000),
            (0xc600_0007, 0x5000),
            (0xc600_0008, 0x5000)
        ]
    );
}

#[test]
fn addresses_are_aligned_down() {
    assert_eq!(SIZE_4KB, 4096);
    assert_eq!(page_4kb_of(0), 0);
    assert_eq!(page_4kb_of(4095), 0);
    assert_eq!(page_4kb_of(4096), 4096);
    assert_eq!(page_4kb_of(0x1234_5678), 0x1234_5000);
    assert_eq!(page_4kb_of(usize::MAX), usize::MAX - 4095);
    assert_eq!(unchecked_align_down(0x1234, 0x100), 0x1200);
    assert_eq!(unchecked_align_down(0x1234, 1), 0x1234);
    assert_eq!(unchecked_align_down(0xffff, 0x8000), 0x8000);
    assert_eq!(unchecked_align_down(17, 16), 16);
}

#[test]
fn return_values_of_the_device_tree_library_are_read() {
    assert_eq!(fdt_err(0), Ok(0));
    assert_eq!(fdt_err(48), Ok(48));
    let errors = [
        FdtError::NotFound,
        FdtError::Exists,
        FdtError::NoSpace,
        FdtError::BadOffset,
        FdtError::BadPath,
        FdtError::BadPhandle,
        FdtError::BadState,
        FdtError::Truncated,
        FdtError::BadMagic,
        FdtError::BadVersion,
        FdtError::BadStructure,
        FdtError::BadLayout,
        FdtError::Internal,
        FdtError::BadNCells,
        FdtError::BadValue,
        FdtError::BadOverlay,
        FdtError::NoPhandles,
        FdtError::BadFlags,
        FdtError::Alignment,
    ];
    for (i, e) in errors.iter().enumerate() {
        assert_eq!(fdt_err(-(i as i32) - 1), Err(*e));
    }
    assert_eq!(fdt_err(-20), Err(FdtError::Unknown(-20)));
    assert_eq!(fdt_err(i32::MIN), Err(FdtError::Unknown(i32::MIN)));
    assert_eq!(fdt_err_expect_zero(0), Ok(()));
    assert_eq!(fdt_err_expect_zero(3), Err(FdtError::Unknown(3)));
    assert_eq!(fdt_err_expect_zero(-1), Err(FdtError::NotFound));
    assert_eq!(fdt_err_or_option(7), Ok(Some(7)));
    assert_eq!(fdt_err_or_option(-1), Ok(None));
    assert_eq!(fdt_err_or_option(-4), Err(FdtError::BadOffset));
}

#[test]
fn device_tree_is_as_large_as_its_header_says() {
    let mut buffer = vec![0xd0, 0x0d, 0xfe, 0xed, 0, 0, 0, 12];
    buffer.extend_from_slice(&[1, 2, 3, 4, 5, 6, 7, 8]);
    let fdt = Fdt::new(buffer.clone()).ok().unwrap();
    assert_eq!(fdt.totalsize(), 12);
    assert_eq!(fdt.capacity(), 16);
    assert_eq!(fdt.as_slice(), &buffer[..12]);

    buffer[6] = 1;
    assert_eq!(Fdt::new(buffer.clone()).err(), Some(FdtError::Truncated));
    buffer[6] = 0;
    buffer[7] = 16;
    assert_eq!(Fdt::new(buffer.clone()).ok().unwrap().as_slice(), &buffer[..]);
    buffer[7] = 17;
    assert_eq!(Fdt::new(buffer).err(), Some(FdtError::Truncated));
    assert_eq!(Fdt::new(vec![0; 7]).err(), Some(FdtError::Truncated));
    let big = {
        let mut b = vec![0u8; 0x0102_0304];
        b[4..8].copy_from_slice(&[1, 2, 3, 4]);
        b
    };
    assert_eq!(Fdt::new(big).ok().unwrap().totalsize(), 0x0102_0304);
}

fn node(
    reg: Result<Option<Option<Reg>>, FdtError>,
    size: Result<Option<u64>, FdtError>,
    alignment: Result<Option<u64>, FdtError>,
) -> Result<Option<DmaPoolNode>, FdtError> {
    Ok(Some(DmaPoolNode { reg, size, alignment }))
}

#[test]
fn swiotlb_is_fixed_or_sized() {
    let fixed = SwiotlbInfo::new_from_fdt(node(
        Ok(Some(Some(Reg { addr: 0x9000_0000, size: Some(0x40_0000) }))),
        Err(FdtError::Internal),
        Err(FdtError::Internal),
    ));
    let fixed = fixed.unwrap().unwrap();
    assert_eq!(fixed, SwiotlbInfo { addr: Some(0x9000_0000), size: 0x40_0000, align: None });
    assert_eq!(fixed.fixed_range(), Some(0x9000_0000..0x9040_0000));

    let sized = SwiotlbInfo::new_from_fdt(node(Ok(None), Ok(Some(0x10_0000)), Ok(Some(0x1000))));
    let sized = sized.unwrap().unwrap();
    assert_eq!(sized, SwiotlbInfo { addr: None, size: 0x10_0000, align: Some(0x1000) });
    assert_eq!(sized.fixed_range(), None);

    assert_eq!(SwiotlbInfo::new_from_fdt(Ok(None)), Ok(None));
    assert_eq!(SwiotlbInfo::new_from_fdt(Err(FdtError::BadPath)), Err(FdtError::BadPath));
}

#[test]
fn incomplete_swiotlb_nodes_are_errors() {
    let new = SwiotlbInfo::new_from_fdt;
    assert_eq!(new(node(Ok(Some(None)), Ok(Some(1)), Ok(Some(1)))), Err(FdtError::BadValue));
    assert_eq!(
        new(node(Ok(Some(Some(Reg { addr: 1, size: None }))), Ok(Some(1)), Ok(Some(1)))),
        Err(FdtError::BadValue)
    );
    assert_eq!(new(node(Err(FdtError::BadNCells), Ok(Some(1)), Ok(Some(1)))), Err(FdtError::BadNCells));
    assert_eq!(new(node(Ok(None), Ok(None), Ok(Some(1)))), Err(FdtError::NotFound));
    assert_eq!(new(node(Ok(None), Ok(Some(1)), Ok(None))), Err(FdtError::NotFound));
    assert_eq!(new(node(Ok(None), Err(FdtError::BadValue), Ok(None))), Err(FdtError::BadValue));
    assert_eq!(new(node(Ok(None), Ok(Some(1)), Err(FdtError::Truncated))), Err(FdtError::Truncated));
}

fn symbols() -> LinkerSymbols {
    LinkerSymbols {
        text_begin: 0x1000,
        text_end: 0x2000,
        rodata_begin: 0x2000,
        rodata_end: 0x3000,
        image_footer_begin: 0x3000,
        image_footer_end: 0x4000,
        data_begin: 0x5000,
        data_end: 0x6000,
        bss_begin: 0x6000,
        bss_end: 0x7000,
        stack_limit: 0x8000,
        init_stack_pointer: 0x1_0000,
        eh_stack_limit: 0x1_0000,
        init_eh_stack_pointer: 0x1_1000,
        data_lma: 0x4800,
        bin_end: 0x5800,
    }
}

#[test]
fn layout_follows_the_linker() {
    let s = symbols();
    assert_eq!(s.text_range(), 0x1000..0x2000);
    assert_eq!(s.rodata_range(), 0x2000..0x3000);
    assert_eq!(s.image_footer_range(), 0x3000..0x4000);
    assert_eq!(s.data_range(), 0x5000..0x6000);
    assert_eq!(s.bss_range(), 0x6000..0x7000);
    assert_eq!(s.data_bss_range(), 0x5000..0x7000);
    assert_eq!(s.eh_stack_range(), 0x1_0000..0x1_1000);
    assert_eq!(s.data_load_address(), 0x4800);
    assert_eq!(s.binary_end(), 0x5800);
    assert_eq!(console_uart_page(), 0..4096);
}

#[test]
fn stack_is_limited_from_the_top() {
    let s = symbols();
    assert_eq!(s.stack_range(None), 0x8000..0x1_0000);
    assert_eq!(s.stack_range(Some(0x3000)), 0xd000..0x1_0000);
    assert_eq!(s.stack_range(Some(0x8000)), 0x8000..0x1_0000);
    assert_eq!(s.stack_range(Some(0)), 0x1_0000..0x1_0000);
}

#[test]
fn platform_must_offer_the_generator() {
    let ok = |major, minor| move || Ok(Version { major, minor });
    let features = |r: Result<u64, TrngError>| {
        move |function: u32| {
            assert_eq!(function, 0xc400_0053);
            r
        }
    };
    let trng = |major, minor| move || Ok(Version { major, minor });
    assert_eq!(init(ok(1, 1), trng(1, 0), features(Ok(0))), Ok(()));
    assert_eq!(init(ok(1, 5), trng(1, 9), features(Ok(3))), Ok(()));
    assert_eq!(
        init(ok(1, 0), trng(1, 0), features(Ok(0))),
        Err(RandError::Platform(PlatformError::UnsupportedSmcccVersion(Version {
            major: 1,
            minor: 0
        })))
    );
    assert_eq!(
        init(ok(2, 1), trng(1, 0), features(Ok(0))),
        Err(RandError::Platform(PlatformError::UnsupportedSmcccVersion(Version {
            major: 2,
            minor: 1
        })))
    );
    assert_eq!(
        init(ok(1, 1), trng(2, 0), features(Ok(0))),
        Err(RandError::Platform(PlatformError::UnsupportedTrngVersion(Version {
            major: 2,
            minor: 0
        })))
    );
    assert_eq!(
        init(ok(1, 1), trng(1, 0), features(Err(TrngError::NotSupported))),
        Err(RandError::NoEntropySource)
    );
    assert_eq!(
        init(ok(1, 1), trng(1, 0), features(Err(TrngError::InvalidParameter))),
        Err(RandError::Platform(PlatformError::Trng(TrngError::InvalidParameter)))
    );
    assert_eq!(
        init(|| Err(Error::NotSupported), trng(1, 0), features(Ok(0))),
        Err(RandError::Platform(PlatformError::Smccc(Error::NotSupported)))
    );
    assert_eq!(
        init(ok(1, 1), || Err(TrngError::Unknown(-9)), features(Ok(0))),
        Err(RandError::Platform(PlatformError::Trng(TrngError::Unknown(-9))))
    );
}

#[test]
fn entropy_comes_out_of_the_registers_lowest_first() {
    let trng = |bits: u64| {
        assert_eq!(bits, 24 * 8);
        Ok([0x1716_1514_1312_1110, 0x0f0e_0d0c_0b0a_0908, 0x0706_0504_0302_0100])
    };
    let entropy = rnd64(24, &trng).unwrap().unwrap();
    assert_eq!(entropy.to_vec(), (0..24).collect::<Vec<u8>>());
    assert_eq!(rnd64(3, &|bits: u64| {
        assert_eq!(bits, 24);
        Err(TrngError::NoEntropy)
    }), Ok(None));
    assert_eq!(
        rnd64(3, &|_: u64| Err(TrngError::NotSupported)),
        Err(RandError::Platform(PlatformError::Trng(TrngError::NotSupported)))
    );
}

#[test]
fn buffers_are_filled_in_chunks() {
    let asked = RefCell::new(vec![]);
    let source = |n: usize| {
        let mut entropy = [0xeeu8; 24];
        let call = asked.borrow().len() as u8;
        for (i, b) in entropy.iter_mut().enumerate().take(n) {
            *b = call * 32 + i as u8;
        }
        asked.borrow_mut().push(n);
        Ok(entropy)
    };
    let mut buffer = [0u8; 50];
    assert_eq!(fill_with_entropy(&mut buffer, &source), Ok(()));
    assert_eq!(asked.borrow().as_slice(), &[24, 24, 2]);
    let mut expected: Vec<u8> = (0..24).collect();
    expected.extend(32..56);
    expected.extend(64..66);
    assert_eq!(buffer.to_vec(), expected);

    asked.borrow_mut().clear();
    let mut empty: [u8; 0] = [];
    assert_eq!(fill_with_entropy(&mut empty, &source), Ok(()));
    assert!(asked.borrow().is_empty());

    let array: [u8; 48] = random_array(&source).unwrap();
    assert_eq!(asked.borrow().as_slice(), &[24, 24]);
    assert_eq!(array[47], 32 + 23);
}

#[test]
fn failing_source_leaves_the_rest_of_the_buffer() {
    let calls = RefCell::new(0);
    let source = |_: usize| {
        *calls.borrow_mut() += 1;
        if *calls.borrow() == 2 {
            Err(RandError::NoEntropySource)
        } else {
            Ok([7u8; 24])
        }
    };
    let mut buffer = [1u8; 60];
    assert_eq!(fill_with_entropy(&mut buffer, &source), Err(RandError::NoEntropySource));
    assert_eq!(&buffer[..24], &[7u8; 24]);
    assert_eq!(&buffer[24..], &[1u8; 36]);
    let r: Result<[u8; 30], RandError> = random_array(&|_: usize| Err(RandError::NoEntropySource));
    assert_eq!(r, Err(RandError::NoEntropySource));
}

#[test]
fn generator_is_called_for_a_number_of_bits() {
    let answer = |x0: u64| {
        move |function: u32, args: [u64; 17]| {
            assert_eq!(function, 0xc400_0053);
            assert_eq!(args[0], 192);
            assert!(args[1..].iter().all(|a| *a == 0));
            let mut ret = [0u64; 18];
            ret[..4].copy_from_slice(&[x0, 11, 22, 33]);
            ret
        }
    };
    assert_eq!(trng_rnd64(&answer(0), 192), Ok([11, 22, 33]));
    assert_eq!(trng_rnd64(&answer(-1i64 as u64), 192), Err(TrngError::NotSupported));
    assert_eq!(trng_rnd64(&answer(-2i64 as u64), 192), Err(TrngError::InvalidParameter));
    assert_eq!(trng_rnd64(&answer(-3i64 as u64), 192), Err(TrngError::NoEntropy));
    assert_eq!(trng_rnd64(&answer(-4i64 as u64), 192), Err(TrngError::Unknown(-4)));
    assert_eq!(trng_rnd64(&answer(5), 192), Err(TrngError::Unknown(5)));
    assert_eq!(trng_rnd64(&answer(i64::MIN as u64), 192), Err(TrngError::Unknown(i64::MIN)));
}

#[test]
fn guest_is_entered_with_aligned_memory() {
    assert!(is_zeroable(&(0x1000..0x2000)));
    assert!(!is_zeroable(&(0x1000..0x1000)));
    assert!(!is_zeroable(&(0x1008..0x2000)));
    assert!(!is_zeroable(&(0x1000..0x2008)));
    let scratch = 0x1000..0x9000;
    let stack = 0xa000..0xb000;
    assert!(can_jump(&scratch, &(0x2000..0x3000), &stack, &stack));
    assert!(can_jump(&scratch, &(0x1000..0x9000), &stack, &stack));
    assert!(!can_jump(&scratch, &(0x800..0x3000), &stack, &stack));
    assert!(!can_jump(&scratch, &(0x2000..0x9010), &stack, &stack));
    assert!(!can_jump(&scratch, &(0x2004..0x3000), &stack, &stack));
    assert!(!can_jump(&scratch, &(0x2000..0x3000), &(0xa000..0xa000), &stack));
    assert!(!can_jump(&scratch, &(0x2000..0x3000), &stack, &(0xa001..0xb000)));
    assert!(!can_jump(&(0x1001..0x9000), &(0x2000..0x3000), &stack, &stack));
}

#[test]
fn kernel_is_located_by_the_device_tree_first() {
    assert_eq!(kernel_range(Some(0x100..0x200), false, 0x8000, 0x10), Ok(0x100..0x200));
    assert_eq!(kernel_range(Some(0x100..0x200), true, 0x8000, 0x10), Ok(0x100..0x200));
    assert_eq!(kernel_range(None, true, 0x8000, 0x10), Ok(0x8000..0x8010));
    assert_eq!(kernel_range(None, true, 0x8000, 0), Err(RebootReason::InvalidPayload));
    assert_eq!(kernel_range(None, false, 0x8000, 0x10), Err(RebootReason::InvalidPayload));
}
