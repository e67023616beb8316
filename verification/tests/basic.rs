use destroyer::args::ArgError;
use destroyer::args::Config;
use destroyer::dev::alloc_aligned;
use destroyer::dev::choose_buffer_size;
use destroyer::dev::AllocError;
use destroyer::dev::BlockSizes;
use destroyer::dev::SyncMode;
use destroyer::platform::Platform;

fn argv(words: &[&str]) -> Vec<Option<String>> {
    words.iter().map(|w| Some(w.to_string())).collect()
}

#[test]
fn parse_minimal_ok() {
    let args = argv(&["destroyer", "/tmp/fake_device", "2"]);
    let cfg: Config = Config::parse(&args, Platform::Linux).expect("parse");
    assert_eq!(cfg.device_path, "/tmp/fake_device");
    assert_eq!(cfg.passes, 2);
    assert_eq!(cfg.buf_size, None);
    match cfg.mode {
        SyncMode::Fast => {}
        _ => panic!("expected SyncMode::Fast"),
    }
}

#[test]
fn parse_with_flags_ok() {
    let args = argv(&[
        "destroyer",
        "/dev/sda",
        "3",
        "--mode",
        "durable",
        "--buf",
        "65536",
    ]);
    let cfg: Config = Config::parse(&args, Platform::Linux).expect("parse");
    assert_eq!(cfg.device_path, "/dev/sda");
    assert_eq!(cfg.passes, 3);
    assert_eq!(cfg.buf_size, Some(65536));
    match cfg.mode {
        SyncMode::Durable => {}
        _ => panic!("expected SyncMode::Durable"),
    }
}

#[test]
fn choose_buffer_size_respects_min_max_and_alignment() {
    let sizes = BlockSizes {
        logical: 4096,
        physical: 4096,
    };

    let b0: usize = choose_buffer_size(sizes, None);
    assert_eq!(b0, 64 * 1024);
    assert_eq!(b0 % sizes.sector() as usize, 0);

    let b1: usize = choose_buffer_size(sizes, Some(1));
    assert_eq!(b1, 16 * 1024);
    assert_eq!(b1 % sizes.sector() as usize, 0);

    let b2: usize = choose_buffer_size(sizes, Some(10 * 1024 * 1024));
    assert_eq!(b2, 1024 * 1024);
    assert_eq!(b2 % sizes.sector() as usize, 0);

    let b3: usize = choose_buffer_size(sizes, Some(70 * 1024));
    assert_eq!(b3 % sizes.sector() as usize, 0);
    assert!(b3 >= 70 * 1024);
}

#[test]
fn alloc_aligned_returns_aligned_buffer() {
    let align: usize = 4096usize;
    let len: usize = 8192usize;
    let buf = alloc_aligned(len, align).expect("alloc_aligned failed");
    assert_eq!(buf.len(), len);

    let ptr: usize = buf.as_slice().as_ptr() as usize;
    assert_eq!(ptr % align, 0);
}

#[test]
fn alloc_aligned_gives_zeroed_bytes_for_every_power_of_two() {
    for shift in 0..16 {
        let align: usize = 1usize << shift;
        let mut buf = alloc_aligned(100, align).expect("alloc_aligned failed");
        assert_eq!(buf.len(), 100);
        assert_eq!(buf.align(), align);
        assert!(buf.as_slice().iter().all(|&b| b == 0));
        assert_eq!(buf.as_slice().as_ptr() as usize % align, 0);
        buf.as_mut_slice()[99] = 7;
        assert_eq!(buf.as_slice()[99], 7);
        assert_eq!(buf.as_slice().as_ptr() as usize % align, 0);
        buf.fill_zero();
        assert!(buf.as_slice().iter().all(|&b| b == 0));
        assert_eq!(buf.len(), 100);
    }
}

#[test]
fn alloc_aligned_refuses_what_is_no_power_of_two() {
    assert_eq!(alloc_aligned(1024, 0).err(), Some(AllocError::BadAlignment));
    assert_eq!(alloc_aligned(1024, 3).err(), Some(AllocError::BadAlignment));
    assert_eq!(alloc_aligned(1024, 4097).err(), Some(AllocError::BadAlignment));
    assert_eq!(alloc_aligned(0, 6).err(), Some(AllocError::BadAlignment));
}

#[test]
fn alloc_aligned_refuses_what_is_too_large() {
    let limit: usize = isize::MAX as usize;
    assert_eq!(alloc_aligned(limit, 1).err(), Some(AllocError::TooLarge));
    assert_eq!(alloc_aligned(usize::MAX, 4096).err(), Some(AllocError::TooLarge));
    assert_eq!(alloc_aligned(limit - 4095, 4096).err(), Some(AllocError::TooLarge));
}

#[test]
fn alloc_aligned_of_nothing_is_empty() {
    let buf = alloc_aligned(0, 1).expect("alloc_aligned failed");
    assert_eq!(buf.len(), 0);
    let buf = alloc_aligned(0, 512).expect("alloc_aligned failed");
    assert_eq!(buf.len(), 0);
    assert_eq!(buf.as_slice().len(), 0);
}

#[test]
fn is_power_of_two_agrees_with_the_standard_library() {
    for n in 0..5000usize {
        assert_eq!(destroyer::dev::aligned::is_power_of_two(n), n.is_power_of_two());
    }
    assert!(destroyer::dev::aligned::is_power_of_two(1usize << 40));
    assert!(!destroyer::dev::aligned::is_power_of_two((1usize << 40) + 1));
    assert!(!destroyer::dev::aligned::is_power_of_two(usize::MAX));
}

#[test]
fn sector_is_the_larger_block_size() {
    assert_eq!(BlockSizes { logical: 512, physical: 4096 }.sector(), 4096);
    assert_eq!(BlockSizes { logical: 4096, physical: 512 }.sector(), 4096);
    assert_eq!(BlockSizes { logical: 512, physical: 512 }.sector(), 512);
    assert_eq!(BlockSizes { logical: 0, physical: 0 }.sector(), 0);
}

#[test]
fn choose_buffer_size_exact_values() {
    let small = BlockSizes { logical: 512, physical: 512 };
    assert_eq!(choose_buffer_size(small, None), 65536);
    assert_eq!(choose_buffer_size(small, Some(16384)), 16384);
    assert_eq!(choose_buffer_size(small, Some(16385)), 16896);
    assert_eq!(choose_buffer_size(small, Some(1048576)), 1048576);
    assert_eq!(choose_buffer_size(small, Some(1048577)), 1048576);
    assert_eq!(choose_buffer_size(small, Some(0)), 16384);
    assert_eq!(choose_buffer_size(small, Some(usize::MAX)), 1048576);

    let odd = BlockSizes { logical: 512, physical: 3000 };
    assert_eq!(choose_buffer_size(odd, None), 66000);
    assert_eq!(choose_buffer_size(odd, Some(1)), 18000);
    assert_eq!(choose_buffer_size(odd, Some(usize::MAX)), 1050000);

    let huge = BlockSizes { logical: 512, physical: 3 * 1024 * 1024 };
    assert_eq!(choose_buffer_size(huge, None), 3 * 1024 * 1024);
    assert_eq!(choose_buffer_size(huge, Some(1)), 3 * 1024 * 1024);

    let byte = BlockSizes { logical: 1, physical: 1 };
    assert_eq!(choose_buffer_size(byte, Some(70001)), 70001);
}

#[test]
fn choose_buffer_size_is_a_multiple_within_one_sector_of_the_clamp() {
    let sectors: [u32; 7] = [1, 7, 512, 520, 4096, 65536, 1000000];
    let requests: [Option<usize>; 7] = [
        None,
        Some(0),
        Some(1),
        Some(16384),
        Some(100000),
        Some(1048576),
        Some(5000000),
    ];
    for &sector in sectors.iter() {
        for &requested in requests.iter() {
            let sizes = BlockSizes { logical: sector, physical: 1 };
            let size = choose_buffer_size(sizes, requested);
            let clamped = requested.unwrap_or(65536).clamp(16384, 1048576);
            assert_eq!(size % sector as usize, 0);
            assert!(size >= clamped);
            assert!(size < clamped + sector as usize);
        }
    }
}

#[test]
fn parse_reports_each_error() {
    let linux = Platform::Linux;
    let err = |words: &[&str]| Config::parse(&argv(words), linux).err().expect("an error");
    assert_eq!(Config::parse(&Vec::new(), linux).err(), Some(ArgError::NoProgramName));
    assert_eq!(Config::parse(&vec![None], linux).err(), Some(ArgError::NoProgramName));
    assert_eq!(err(&["destroyer"]), ArgError::NoDevice);
    assert_eq!(err(&["destroyer", "--quiet"]), ArgError::NoDevice);
    assert_eq!(err(&["destroyer", "--help"]), ArgError::Help);
    assert_eq!(err(&["destroyer", "/dev/sda", "-h"]), ArgError::Help);
    assert_eq!(err(&["destroyer", "/dev/sda", "--mode"]), ArgError::ModeNeedsValue);
    assert_eq!(
        err(&["destroyer", "/dev/sda", "--mode", "wat"]),
        ArgError::UnknownMode { at: 3 }
    );
    assert_eq!(err(&["destroyer", "/dev/sda", "--buf"]), ArgError::BufNeedsValue);
    assert_eq!(err(&["destroyer", "/dev/sda", "--buf", "x"]), ArgError::BufNotNumber);
    assert_eq!(err(&["destroyer", "/dev/sda", "--buf", "-1"]), ArgError::BufNotNumber);
    assert_eq!(err(&["destroyer", "/dev/sda", "--buf", ""]), ArgError::BufNotNumber);
    assert_eq!(
        err(&["destroyer", "/dev/sda", "--buf", "18446744073709551616"]),
        ArgError::BufNotNumber
    );
    assert_eq!(err(&["destroyer", "/dev/sda", "--buf", "0"]), ArgError::BufIsZero);
    assert_eq!(err(&["destroyer", "/dev/sda", "--fast"]), ArgError::UnknownFlag { at: 2 });
    assert_eq!(err(&["destroyer", "--", "/dev/sda"]), ArgError::UnknownFlag { at: 1 });
    assert_eq!(err(&["destroyer", "/dev/sda", "many"]), ArgError::PassesNotNumber);
    assert_eq!(err(&["destroyer", "/dev/sda", "1.5"]), ArgError::PassesNotNumber);
    assert_eq!(err(&["destroyer", "/dev/sda", "0"]), ArgError::PassesIsZero);
    assert_eq!(
        err(&["destroyer", "/dev/sda", "3", "4"]),
        ArgError::ExtraArgument { at: 3 }
    );
    let broken = vec![Some("destroyer".to_string()), Some("/dev/sda".to_string()), None];
    assert_eq!(Config::parse(&broken, linux).err(), Some(ArgError::NotUtf8 { at: 2 }));
    let broken = vec![
        Some("destroyer".to_string()),
        Some("--mode".to_string()),
        None,
    ];
    assert_eq!(Config::parse(&broken, linux).err(), Some(ArgError::ModeNotUtf8));
    let broken = vec![Some("destroyer".to_string()), Some("--buf".to_string()), None];
    assert_eq!(Config::parse(&broken, linux).err(), Some(ArgError::BufNotUtf8));
}

#[test]
fn parse_stops_at_the_first_argument_at_fault() {
    let linux = Platform::Linux;
    let args = argv(&["destroyer", "--bogus", "--mode", "wat"]);
    assert_eq!(Config::parse(&args, linux).err(), Some(ArgError::UnknownFlag { at: 1 }));
    let args = argv(&["destroyer", "--mode", "wat", "--bogus"]);
    assert_eq!(Config::parse(&args, linux).err(), Some(ArgError::UnknownMode { at: 2 }));
    let args = argv(&["destroyer", "/dev/sda", "0", "--help"]);
    assert_eq!(Config::parse(&args, linux).err(), Some(ArgError::PassesIsZero));
}

#[test]
fn parse_takes_flags_anywhere_and_the_last_one_wins() {
    let args = argv(&[
        "destroyer",
        "--quiet",
        "--mode",
        "durable",
        "/dev/nvme0n1",
        "--mode",
        "direct",
        "--buf",
        "+4096",
        "12",
        "--buf",
        "8192",
    ]);
    let cfg = Config::parse(&args, Platform::Linux).expect("parse");
    assert_eq!(cfg.device_path, "/dev/nvme0n1");
    assert_eq!(cfg.passes, 12);
    assert_eq!(cfg.buf_size, Some(8192));
    assert_eq!(cfg.mode, SyncMode::Direct);
    assert!(cfg.quiet);
}

#[test]
fn parse_defaults_to_eight_passes_fast_and_not_quiet() {
    let cfg = Config::parse(&argv(&["destroyer", "/dev/sdb"]), Platform::MacOs).expect("parse");
    assert_eq!(cfg.device_path, "/dev/sdb");
    assert_eq!(cfg.passes, 8);
    assert_eq!(cfg.buf_size, None);
    assert_eq!(cfg.mode, SyncMode::Fast);
    assert!(!cfg.quiet);
}

#[test]
fn parse_knows_direct_mode_only_on_linux() {
    let words = ["destroyer", "/dev/disk2", "--mode", "direct"];
    let cfg = Config::parse(&argv(&words), Platform::Linux).expect("parse");
    assert_eq!(cfg.mode, SyncMode::Direct);
    assert_eq!(
        Config::parse(&argv(&words), Platform::MacOs).err(),
        Some(ArgError::ModeUnavailable { mode: SyncMode::Direct })
    );
    let words = ["destroyer", "/dev/disk2", "--mode", "durable"];
    let cfg = Config::parse(&argv(&words), Platform::MacOs).expect("parse");
    assert_eq!(cfg.mode, SyncMode::Durable);
}

#[test]
fn cli_non_numeric_passes_fails() {
    let out = Config::parse(&argv(&["destroyer", "/dev/null", "notanumber"]), Platform::Linux);
    assert_eq!(out.err(), Some(ArgError::PassesNotNumber));
    assert_eq!(ArgError::PassesNotNumber.exit_code(), 1);
}

#[test]
fn cli_zero_passes_fails() {
    let out = Config::parse(&argv(&["destroyer", "/dev/null", "0"]), Platform::Linux);
    assert_eq!(out.err(), Some(ArgError::PassesIsZero));
    assert_eq!(ArgError::PassesIsZero.exit_code(), 1);
}

#[test]
fn cli_invalid_mode_fails() {
    let out = Config::parse(
        &argv(&["destroyer", "/dev/null", "1", "--mode", "wat"]),
        Platform::Linux,
    );
    assert_eq!(out.err(), Some(ArgError::UnknownMode { at: 4 }));
    assert_eq!(ArgError::UnknownMode { at: 4 }.exit_code(), 1);
}

#[test]
fn cli_negative_buf_fails() {
    let out = Config::parse(
        &argv(&["destroyer", "/dev/null", "1", "--buf", "-1"]),
        Platform::Linux,
    );
    assert_eq!(out.err(), Some(ArgError::BufNotNumber));
    assert_eq!(ArgError::BufNotNumber.exit_code(), 1);
}

#[test]
fn only_help_exits_with_zero() {
    assert_eq!(ArgError::Help.exit_code(), 0);
    assert_eq!(ArgError::NoDevice.exit_code(), 1);
    assert_eq!(ArgError::NoProgramName.exit_code(), 1);
    assert_eq!(ArgError::ExtraArgument { at: 3 }.exit_code(), 1);
    assert!(ArgError::Help.shows_usage());
    assert!(ArgError::NoDevice.shows_usage());
    assert!(ArgError::NoProgramName.shows_usage());
    assert!(!ArgError::BufIsZero.shows_usage());
}

#[test]
fn usage_names_the_program_in_each_example() {
    let text = Config::usage("wipe-it");
    assert!(text.starts_with("Usage:\n  wipe-it <device> [passes]"));
    assert_eq!(text.matches("wipe-it").count(), 5);
    assert!(text.contains("sudo wipe-it /dev/sdX 8 --mode durable --buf 65536\n"));
    assert!(text.ends_with("--quiet          Do not print the progress line (faster)."));
    assert_eq!(Config::usage("").matches("sudo  /dev").count(), 4);
}

#[test]
fn platform_names() {
    assert_eq!(Platform::Linux.name(), "Linux");
    assert_eq!(Platform::MacOs.name(), "macOS");
    assert!(Platform::Linux.supports_direct());
    assert!(!Platform::MacOs.supports_direct());
}
