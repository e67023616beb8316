use destroyer::args::ArgError;
use destroyer::dev::block_sizes_from_attrs;
use destroyer::dev::busy_help;
use destroyer::dev::busy_verdict;
use destroyer::dev::compose_open_flags;
use destroyer::dev::disables_cache_after_open;
use destroyer::dev::full_sync;
use destroyer::dev::geometry_or_default;
use destroyer::dev::hard_sync_verdict;
use destroyer::dev::is_device_busy;
use destroyer::dev::open_flags;
use destroyer::dev::path_is_passable;
use destroyer::dev::safe_sync;
use destroyer::dev::size_from_blocks;
use destroyer::dev::size_from_query;
use destroyer::dev::size_from_sector_count;
use destroyer::dev::soft_sync_verdict;
use destroyer::dev::AllocError;
use destroyer::dev::BlockSizes;
use destroyer::dev::HardSync;
use destroyer::dev::IoFailure;
use destroyer::dev::SyncMode;
use destroyer::dev::UnsupportedCodes;
use destroyer::failure::RunError;
use destroyer::platform::Platform;
use destroyer::text::is_whitespace;
use destroyer::text::parse_trimmed_unsigned;
use destroyer::text::parse_unsigned;
use destroyer::text::same_text;
use destroyer::text::starts_as_flag;
use destroyer::wipe::engine::PassError;
use destroyer::wipe::plan::fill_for_pass;
use destroyer::wipe::plan::pass_layout;
use destroyer::wipe::plan::Fill;
use destroyer::wipe::plan::PassStep;
use destroyer::wipe::Buffers;
use destroyer::wipe::PassPlan;

fn failed(code: i32) -> Result<(), IoFailure> {
    Err(IoFailure { os_code: Some(code) })
}

#[test]
fn sync_mode_labels_and_axes() {
    assert_eq!(SyncMode::Fast.label(), "fast");
    assert_eq!(SyncMode::Durable.label(), "durable");
    assert_eq!(SyncMode::Direct.label(), "direct");
    assert!(!SyncMode::Fast.is_durable());
    assert!(SyncMode::Durable.is_durable());
    assert!(!SyncMode::Direct.is_durable());
    assert!(!SyncMode::Fast.is_direct());
    assert!(!SyncMode::Durable.is_direct());
    assert!(SyncMode::Direct.is_direct());
}

#[test]
fn open_flags_follow_the_mode_on_linux() {
    assert_eq!(open_flags(Platform::Linux, SyncMode::Fast), libc::O_WRONLY);
    assert_eq!(
        open_flags(Platform::Linux, SyncMode::Durable),
        libc::O_WRONLY | libc::O_SYNC
    );
    assert_eq!(
        open_flags(Platform::Linux, SyncMode::Direct),
        libc::O_WRONLY | libc::O_DIRECT
    );
    assert_ne!(open_flags(Platform::Linux, SyncMode::Direct), open_flags(Platform::Linux, SyncMode::Durable));
}

#[test]
fn open_flags_are_write_only_on_macos() {
    for mode in [SyncMode::Fast, SyncMode::Durable, SyncMode::Direct] {
        assert_eq!(open_flags(Platform::MacOs, mode), libc::O_WRONLY);
    }
    assert!(disables_cache_after_open(Platform::MacOs));
    assert!(!disables_cache_after_open(Platform::Linux));
}

#[test]
fn compose_open_flags_ors_the_mode_flag_in() {
    assert_eq!(compose_open_flags(Platform::Linux, SyncMode::Fast, 1, 0x1000, 0x4000), 1);
    assert_eq!(compose_open_flags(Platform::Linux, SyncMode::Durable, 1, 0x1000, 0x4000), 0x1001);
    assert_eq!(compose_open_flags(Platform::Linux, SyncMode::Direct, 1, 0x1000, 0x4000), 0x4001);
    assert_eq!(compose_open_flags(Platform::MacOs, SyncMode::Durable, 1, 0x1000, 0x4000), 1);
    assert_eq!(compose_open_flags(Platform::MacOs, SyncMode::Direct, 1, 0x1000, 0x4000), 1);
}

#[test]
fn safe_sync_swallows_what_is_not_supported() {
    assert_eq!(safe_sync(Ok(())), Ok(()));
    assert_eq!(safe_sync(failed(libc::ENOTTY)), Ok(()));
    assert_eq!(safe_sync(failed(libc::ENOTSUP)), Ok(()));
    assert_eq!(safe_sync(failed(libc::EINVAL)), Ok(()));
    assert_eq!(safe_sync(failed(libc::EIO)), failed(libc::EIO));
    assert_eq!(safe_sync(failed(libc::ENOSPC)), failed(libc::ENOSPC));
    assert_eq!(safe_sync(failed(libc::EBUSY)), failed(libc::EBUSY));
    let nameless: Result<(), IoFailure> = Err(IoFailure { os_code: None });
    assert_eq!(safe_sync(nameless), nameless);
}

#[test]
fn full_sync_falls_back_only_on_what_is_not_supported() {
    assert_eq!(full_sync(Ok(())), HardSync::Done);
    assert_eq!(full_sync(failed(libc::ENOTTY)), HardSync::FallBack);
    assert_eq!(full_sync(failed(libc::ENOTSUP)), HardSync::FallBack);
    assert_eq!(full_sync(failed(libc::EINVAL)), HardSync::FallBack);
    assert_eq!(
        full_sync(failed(libc::EIO)),
        HardSync::Fatal(IoFailure { os_code: Some(libc::EIO) })
    );
    assert_eq!(
        full_sync(Err(IoFailure { os_code: None })),
        HardSync::Fatal(IoFailure { os_code: None })
    );
}

#[test]
fn sync_verdicts_for_given_codes() {
    let codes = UnsupportedCodes { not_a_tty: 1, not_supported: 2, invalid: 3 };
    for code in [1, 2, 3] {
        assert!(codes.is_unsupported(IoFailure { os_code: Some(code) }));
        assert_eq!(soft_sync_verdict(failed(code), &codes), Ok(()));
        assert_eq!(hard_sync_verdict(failed(code), &codes), HardSync::FallBack);
    }
    for code in [0, 4, -1, 25, 95, 22] {
        assert!(!codes.is_unsupported(IoFailure { os_code: Some(code) }));
        assert_eq!(soft_sync_verdict(failed(code), &codes), failed(code));
        assert_eq!(
            hard_sync_verdict(failed(code), &codes),
            HardSync::Fatal(IoFailure { os_code: Some(code) })
        );
    }
    assert!(!codes.is_unsupported(IoFailure { os_code: None }));
    assert_eq!(soft_sync_verdict(Ok(()), &codes), Ok(()));
    assert_eq!(hard_sync_verdict(Ok(()), &codes), HardSync::Done);
}

#[test]
fn platform_codes_are_those_of_libc() {
    let codes = UnsupportedCodes::platform();
    assert_eq!(codes.not_a_tty, libc::ENOTTY);
    assert_eq!(codes.not_supported, libc::ENOTSUP);
    assert_eq!(codes.invalid, libc::EINVAL);
}

#[test]
fn busy_is_told_by_its_code() {
    assert!(is_device_busy(IoFailure { os_code: Some(libc::EBUSY) }));
    assert!(!is_device_busy(IoFailure { os_code: Some(libc::EIO) }));
    assert!(!is_device_busy(IoFailure { os_code: Some(libc::ENOTTY) }));
    assert!(!is_device_busy(IoFailure { os_code: None }));
    assert!(busy_verdict(IoFailure { os_code: Some(7) }, 7));
    assert!(!busy_verdict(IoFailure { os_code: Some(7) }, 8));
    assert!(!busy_verdict(IoFailure { os_code: None }, 0));
}

#[test]
fn busy_help_names_the_device_in_each_step() {
    let text = busy_help("/dev/sdz");
    assert_eq!(
        text,
        "Device /dev/sdz is busy (it may be mounted).\n\
         macOS:  diskutil unmountDisk /dev/sdz\n\
         Linux:  sudo umount <mount point or /dev/..>\n        \
         lsblk -f | grep $(basename /dev/sdz)\n        \
         sudo lsof /dev/sdz  | head\n        \
         sudo fuser -mv /dev/sdz\n        \
         sudo swapoff -a\n        \
         sudo dmsetup ls\n"
    );
    assert_eq!(busy_help("").matches('\n').count(), 8);
}

#[test]
fn run_errors_exit_with_one_and_help_with_zero() {
    let busy = IoFailure { os_code: Some(libc::EBUSY) };
    let other = IoFailure { os_code: Some(libc::EACCES) };
    assert_eq!(RunError::Configuration(ArgError::Help).exit_code(), 0);
    assert_eq!(RunError::Configuration(ArgError::NoDevice).exit_code(), 1);
    assert_eq!(RunError::DeviceQuery(busy).exit_code(), 1);
    assert_eq!(RunError::DeviceOpen(other).exit_code(), 1);
    assert_eq!(RunError::Allocation(AllocError::BadAlignment).exit_code(), 1);
    assert_eq!(RunError::Rewind(other).exit_code(), 1);
    let pass = RunError::Pass { index: 2, fill: Fill::Random, error: PassError::RandomSourceDry };
    assert_eq!(pass.exit_code(), 1);

    assert!(RunError::DeviceQuery(busy).needs_busy_help());
    assert!(RunError::DeviceOpen(busy).needs_busy_help());
    assert!(!RunError::DeviceQuery(other).needs_busy_help());
    assert!(!RunError::DeviceOpen(IoFailure { os_code: None }).needs_busy_help());
    assert!(!RunError::Rewind(busy).needs_busy_help());
    assert!(!pass.needs_busy_help());
    assert!(!RunError::Pass { index: 1, fill: Fill::Zero, error: PassError::Io(busy) }
        .needs_busy_help());
    assert_eq!(destroyer::failure::GRACE_SECONDS, 5);
}

#[test]
fn block_sizes_from_the_kernel_attributes() {
    let sizes = block_sizes_from_attrs(Some("512\n"), Some("4096\n"));
    assert_eq!((sizes.logical, sizes.physical), (512, 4096));
    let sizes = block_sizes_from_attrs(Some(" 4096 "), Some("\t4096\r\n"));
    assert_eq!((sizes.logical, sizes.physical), (4096, 4096));
    // a missing logical size counts as 512
    let sizes = block_sizes_from_attrs(None, Some("4096"));
    assert_eq!((sizes.logical, sizes.physical), (512, 4096));
    let sizes = block_sizes_from_attrs(Some("garbage"), Some("4096"));
    assert_eq!((sizes.logical, sizes.physical), (512, 4096));
    let sizes = block_sizes_from_attrs(Some("4294967296"), None);
    assert_eq!((sizes.logical, sizes.physical), (512, 512));
    // a missing physical size counts as the logical one, but no less than 512
    let sizes = block_sizes_from_attrs(Some("4096"), None);
    assert_eq!((sizes.logical, sizes.physical), (4096, 4096));
    let sizes = block_sizes_from_attrs(Some("256"), Some(""));
    assert_eq!((sizes.logical, sizes.physical), (256, 512));
    let sizes = block_sizes_from_attrs(None, None);
    assert_eq!((sizes.logical, sizes.physical), (512, 512));
    let sizes = block_sizes_from_attrs(Some("0"), Some("0"));
    assert_eq!((sizes.logical, sizes.physical), (0, 0));
    let sizes = block_sizes_from_attrs(Some("4294967295"), Some("+1"));
    assert_eq!((sizes.logical, sizes.physical), (4294967295, 1));
}

#[test]
fn geometry_falls_back_to_512_and_4096() {
    let fallback = geometry_or_default(None);
    assert_eq!((fallback.logical, fallback.physical), (512, 4096));
    assert_eq!(fallback.sector(), 4096);
    let kept = geometry_or_default(Some(BlockSizes { logical: 520, physical: 520 }));
    assert_eq!((kept.logical, kept.physical), (520, 520));
}

#[test]
fn device_size_from_the_query_or_the_sector_count() {
    assert_eq!(size_from_query(0, 1000), Some(1000));
    assert_eq!(size_from_query(0, u64::MAX), Some(u64::MAX));
    assert_eq!(size_from_query(0, 0), None);
    assert_eq!(size_from_query(-1, 1000), None);
    assert_eq!(size_from_query(1, 1000), None);

    assert_eq!(size_from_sector_count("2048\n"), Some(1048576));
    assert_eq!(size_from_sector_count("0"), Some(0));
    assert_eq!(size_from_sector_count("  1  "), Some(512));
    assert_eq!(size_from_sector_count("36028797018963967"), Some(u64::MAX - 511));
    assert_eq!(size_from_sector_count("36028797018963968"), Some(u64::MAX));
    assert_eq!(size_from_sector_count("18446744073709551615"), Some(u64::MAX));
    assert_eq!(size_from_sector_count("18446744073709551616"), None);
    assert_eq!(size_from_sector_count(""), None);
    assert_eq!(size_from_sector_count("12 34"), None);
    assert_eq!(size_from_sector_count("-5"), None);
    assert_eq!(size_from_sector_count("0x10"), None);

    assert_eq!(size_from_blocks(1000, 512), 512000);
    assert_eq!(size_from_blocks(0, 4096), 0);
    assert_eq!(size_from_blocks(u64::MAX, 1), u64::MAX);
    assert_eq!(size_from_blocks(u64::MAX, 2), u64::MAX);
    assert_eq!(size_from_blocks(1 << 40, 1 << 24), u64::MAX);
    assert_eq!(size_from_blocks(1 << 40, 1 << 23), 1 << 63);
}

#[test]
fn paths_with_a_nul_cannot_be_passed_on() {
    assert!(path_is_passable("/dev/sda"));
    assert!(path_is_passable(""));
    assert!(path_is_passable("/dev/диск"));
    assert!(!path_is_passable("/dev/\0sda"));
    assert!(!path_is_passable("\0"));
    assert!(!path_is_passable("/dev/sda\0"));
}

#[test]
fn parse_unsigned_reads_what_the_standard_library_reads() {
    let texts = [
        "0", "1", "+1", "007", "+0", "42", "65536", "18446744073709551615",
        "18446744073709551616", "99999999999999999999999", "", "+", "-", "-1", "-0", "++1",
        "+-1", "1+", " 1", "1 ", "1_000", "0x10", "1e3", "١٢٣", "12a", "a12", "+ 1",
    ];
    for text in texts {
        assert_eq!(parse_unsigned(text, u64::MAX), text.parse::<u64>().ok(), "{:?}", text);
        assert_eq!(
            parse_unsigned(text, u32::MAX as u64),
            text.parse::<u32>().ok().map(|n| n as u64),
            "{:?}",
            text
        );
        assert_eq!(
            parse_trimmed_unsigned(text, u64::MAX),
            text.trim().parse::<u64>().ok(),
            "{:?}",
            text
        );
    }
    assert_eq!(parse_unsigned("255", 255), Some(255));
    assert_eq!(parse_unsigned("256", 255), None);
    assert_eq!(parse_unsigned("0", 0), Some(0));
    assert_eq!(parse_unsigned("1", 0), None);
}

#[test]
fn parse_trimmed_unsigned_sets_white_space_aside() {
    let texts = [
        "4096\n", "\n4096", " \t\r\n4096\u{a0}\u{2003}\u{3000}", "\u{85}7\u{2028}",
        "\u{1680}8\u{202f}\u{205f}\u{2029}", " ", "", "\n\n", "4 096", "\u{200b}5", "5\u{200b}",
        "\u{feff}5", " +12 ", " + 12 ", "\u{b}\u{c}3",
    ];
    for text in texts {
        assert_eq!(
            parse_trimmed_unsigned(text, u64::MAX),
            text.trim().parse::<u64>().ok(),
            "{:?}",
            text
        );
    }
    assert_eq!(parse_trimmed_unsigned(" 4096\n", u64::MAX), Some(4096));
    assert_eq!(parse_trimmed_unsigned(" 4096\n", 4095), None);
}

#[test]
fn white_space_is_what_the_standard_library_takes_for_it() {
    for code in 0..=0x10FFFFu32 {
        if let Some(c) = char::from_u32(code) {
            assert_eq!(is_whitespace(c), c.is_whitespace(), "U+{:04X}", code);
        }
    }
}

#[test]
fn text_comparisons() {
    assert!(same_text("--mode", "--mode"));
    assert!(same_text("", ""));
    assert!(!same_text("--mode", "--mod"));
    assert!(!same_text("--mode", "--modes"));
    assert!(!same_text("--mode", "--modE"));
    assert!(same_text("проход", "проход"));
    assert!(!same_text("проход", "прохоД"));
    assert!(starts_as_flag("--"));
    assert!(starts_as_flag("--x"));
    assert!(!starts_as_flag("-"));
    assert!(!starts_as_flag("-x-"));
    assert!(!starts_as_flag(""));
    assert!(!starts_as_flag("x--"));
}

#[test]
fn layout_of_10000_bytes_in_sectors_of_4096() {
    let layout = pass_layout(10000, 4096, true);
    assert_eq!(layout.full_limit, 8192);
    assert_eq!(layout.tail, 1808);
    let layout = pass_layout(10000, 4096, false);
    assert_eq!(layout.full_limit, 10000);
    assert_eq!(layout.tail, 0);
}

#[test]
fn layout_parts_make_up_the_device() {
    let sizes: [u64; 9] = [0, 1, 511, 512, 513, 4096, 10000, 1 << 40, u64::MAX];
    let sectors: [usize; 6] = [1, 2, 512, 520, 4096, 1 << 20];
    for &size in sizes.iter() {
        for &sector in sectors.iter() {
            let direct = pass_layout(size, sector, true);
            assert_eq!(direct.full_limit + direct.tail, size);
            assert!(direct.tail < sector as u64);
            assert_eq!(direct.full_limit % sector as u64, 0);
            let plain = pass_layout(size, sector, false);
            assert_eq!(plain.full_limit, size);
            assert_eq!(plain.tail, 0);
        }
        let plain = pass_layout(size, 0, false);
        assert_eq!((plain.full_limit, plain.tail), (size, 0));
    }
}

#[test]
fn eight_passes_are_seven_random_and_one_of_zeros() {
    let mut plan = PassPlan::new(8, SyncMode::Fast, 512).expect("plan");
    assert_eq!(plan.total_passes(), 8);
    let mut steps: Vec<PassStep> = Vec::new();
    while let Some(step) = plan.next_pass() {
        steps.push(step);
    }
    assert_eq!(steps.len(), 8);
    for (i, step) in steps.iter().enumerate() {
        assert_eq!(step.index, i + 1);
        let fill = if i < 7 { Fill::Random } else { Fill::Zero };
        assert_eq!(step.fill, fill);
        assert_eq!(fill_for_pass(i + 1, 8), fill);
    }
    assert_eq!(plan.next_pass(), None);
    assert_eq!(plan.next_pass(), None);
}

#[test]
fn a_single_pass_writes_zeros() {
    let mut plan = PassPlan::new(1, SyncMode::Durable, 4096).expect("plan");
    assert_eq!(plan.next_pass(), Some(PassStep { index: 1, fill: Fill::Zero }));
    assert_eq!(plan.next_pass(), None);
    assert!(plan.durable());
    assert!(!plan.direct());
    assert_eq!(plan.sector(), 4096);
    assert_eq!(fill_for_pass(1, 1), Fill::Zero);
    assert_eq!(fill_for_pass(1, 2), Fill::Random);
    assert_eq!(fill_for_pass(2, 2), Fill::Zero);
}

#[test]
fn a_plan_needs_a_pass() {
    assert!(PassPlan::new(0, SyncMode::Fast, 512).is_none());
    let plan = PassPlan::new(2, SyncMode::Direct, 512).expect("plan");
    assert!(plan.direct());
    assert!(!plan.durable());
}

#[test]
fn buffers_for_plain_writes() {
    let mut buffers = Buffers::new(1000, false, 4096).expect("buffers");
    assert!(!buffers.use_direct());
    assert_eq!(buffers.main_len(), 1000);
    assert_eq!(buffers.main().len(), 1000);
    assert!(buffers.main().iter().all(|&b| b == 0));
    assert_eq!(buffers.tail_len(), 0);
    assert_eq!(buffers.main_mut().len(), 1000);
    // the sector plays no part
    assert!(Buffers::new(1000, false, 0).is_ok());
    assert!(Buffers::new(1000, false, 3).is_ok());
    assert!(Buffers::new(0, false, 3).is_ok());
}

#[test]
fn buffers_for_direct_writes_are_aligned() {
    for sector in [512usize, 4096, 65536] {
        let mut buffers = Buffers::new(sector * 4, true, sector).expect("buffers");
        assert!(buffers.use_direct());
        assert_eq!(buffers.main_len(), sector * 4);
        assert_eq!(buffers.main().as_ptr() as usize % sector, 0);
        assert_eq!(buffers.main_len() % sector, 0);
        assert_eq!(buffers.tail_len(), sector);
        assert!(buffers.tail().iter().all(|&b| b == 0));
        let main = buffers.main_mut();
        assert_eq!(main.as_ptr() as usize % sector, 0);
        main[0] = 1;
        main[sector * 4 - 1] = 2;
        assert_eq!(buffers.main()[0], 1);
        assert_eq!(buffers.main()[sector * 4 - 1], 2);
        assert_eq!(buffers.main().as_ptr() as usize % sector, 0);
        buffers.fill_main_zero();
        assert!(buffers.main().iter().all(|&b| b == 0));
        assert_eq!(buffers.main_len(), sector * 4);
    }
}

#[test]
fn buffers_refuse_what_direct_writes_cannot_use() {
    assert_eq!(Buffers::new(4096, true, 0).err(), Some(AllocError::BadAlignment));
    assert_eq!(Buffers::new(4096, true, 3).err(), Some(AllocError::BadAlignment));
    assert_eq!(Buffers::new(4096, true, 4097).err(), Some(AllocError::BadAlignment));
    assert_eq!(Buffers::new(1000, true, 512).err(), Some(AllocError::UnalignedLength));
    assert_eq!(Buffers::new(4097, true, 4096).err(), Some(AllocError::UnalignedLength));
    let big: usize = (isize::MAX as usize + 1) - 4096;
    assert_eq!(Buffers::new(big, true, 4096).err(), Some(AllocError::TooLarge));
    assert_eq!(Buffers::new(isize::MAX as usize, false, 4096).err(), Some(AllocError::TooLarge));
    assert_eq!(Buffers::new(usize::MAX, false, 1).err(), Some(AllocError::TooLarge));
}

#[test]
fn tail_buffer_grows_on_demand_and_keeps_what_lies_behind() {
    let mut buffers = Buffers::new(512, true, 512).expect("buffers");
    {
        let tail = buffers.tail_buf(512);
        assert_eq!(tail.len(), 512);
        for byte in tail.iter_mut() {
            *byte = 9;
        }
    }
    {
        let tail = buffers.tail_buf(100);
        assert_eq!(tail.len(), 100);
        assert!(tail.iter().all(|&b| b == 9));
        for byte in tail.iter_mut() {
            *byte = 3;
        }
    }
    assert_eq!(buffers.tail_len(), 512);
    assert!(buffers.tail()[..100].iter().all(|&b| b == 3));
    assert!(buffers.tail()[100..].iter().all(|&b| b == 9));
    {
        let tail = buffers.tail_buf(1000);
        assert_eq!(tail.len(), 1000);
        assert!(tail[512..].iter().all(|&b| b == 0));
    }
    assert_eq!(buffers.tail_len(), 1000);
    buffers.fill_tail_zero(200);
    assert!(buffers.tail()[..200].iter().all(|&b| b == 0));
    assert!(buffers.tail()[200..512].iter().all(|&b| b == 9));
    buffers.fill_tail_zero(2000);
    assert_eq!(buffers.tail_len(), 2000);
    assert!(buffers.tail().iter().all(|&b| b == 0));
    buffers.reserve_tail(10);
    assert_eq!(buffers.tail_len(), 2000);
    buffers.reserve_tail(3000);
    assert_eq!(buffers.tail_len(), 3000);

    let mut plain = Buffers::new(512, false, 512).expect("buffers");
    assert_eq!(plain.tail_buf(0).len(), 0);
    assert_eq!(plain.tail_buf(7).len(), 7);
    assert_eq!(plain.tail_len(), 7);
}
