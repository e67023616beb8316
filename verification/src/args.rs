//! The command line: what a run is configured with and how the arguments
//! spell it.
//!
//! ```text
//! destroyer <device> [passes] [--mode fast|durable|direct] [--buf BYTES] [--quiet]
//! ```

use vstd::prelude::*;
use vstd::string::*;
use crate::dev::SyncMode;
use crate::platform::Platform;
use crate::text::is_flag;
use crate::text::parse_unsigned;
use crate::text::parsed_unsigned;
use crate::text::same_text;
use crate::text::starts_as_flag;

verus! {

/// Number of passes when the command line names none.
pub const DEFAULT_PASSES: usize = 8;

/// The configuration of a run.
pub struct Config {
    /// Path of the device to wipe.
    pub device_path: String,
    /// Number of passes, at least one; the last one writes zeros.
    pub passes: usize,
    /// The buffer size asked for with `--buf`; when absent, the size is
    /// chosen from the device's block sizes.
    pub buf_size: Option<usize>,
    /// The sync mode.
    pub mode: SyncMode,
    /// Whether the progress line is suppressed.
    pub quiet: bool,
}

/// A [`Config`] with its path as a sequence of characters.
pub struct ConfigView {
    pub device_path: Seq<char>,
    pub passes: usize,
    pub buf_size: Option<usize>,
    pub mode: SyncMode,
    pub quiet: bool,
}

impl View for Config {
    type V = ConfigView;

    open spec fn view(&self) -> ConfigView {
        ConfigView {
            device_path: self.device_path@,
            passes: self.passes,
            buf_size: self.buf_size,
            mode: self.mode,
            quiet: self.quiet,
        }
    }
}

/// Why the arguments give no configuration. Where an argument is at
/// fault, `at` is its index in the argument list.
#[derive(Clone, Copy, Debug, PartialEq, Eq, Structural)]
pub enum ArgError {
    /// Help was asked for: the usage is to be shown, and this is no failure.
    Help,
    /// The list does not begin with a program name.
    NoProgramName,
    /// An argument is not valid UTF-8.
    NotUtf8 { at: usize },
    /// `--mode` is the last argument.
    ModeNeedsValue,
    /// The value of `--mode` is not valid UTF-8.
    ModeNotUtf8,
    /// The value of `--mode` names no mode.
    UnknownMode { at: usize },
    /// The mode is not to be had on this platform.
    ModeUnavailable { mode: SyncMode },
    /// `--buf` is the last argument.
    BufNeedsValue,
    /// The value of `--buf` is not valid UTF-8.
    BufNotUtf8,
    /// The value of `--buf` is not an unsigned number that fits.
    BufNotNumber,
    /// The value of `--buf` is zero.
    BufIsZero,
    /// An argument begins with `--` and is no known flag.
    UnknownFlag { at: usize },
    /// The pass count is not an unsigned number that fits.
    PassesNotNumber,
    /// The pass count is zero.
    PassesIsZero,
    /// There is a third positional argument.
    ExtraArgument { at: usize },
    /// No device is named.
    NoDevice,
}

impl ArgError {
    /// The exit code that goes with the error: zero where help was asked
    /// for, one otherwise.
    pub fn exit_code(&self) -> (code: i32)
        ensures
            code == (if *self == ArgError::Help {
                0i32
            } else {
                1i32
            }),
    {
        match self {
            ArgError::Help => 0,
            _ => 1,
        }
    }

    /// Whether the usage text is what the user is to be shown.
    pub fn shows_usage(&self) -> (b: bool)
        ensures
            b == (*self == ArgError::Help || *self == ArgError::NoProgramName || *self
                == ArgError::NoDevice),
    {
        match self {
            ArgError::Help => true,
            ArgError::NoProgramName => true,
            ArgError::NoDevice => true,
            _ => false,
        }
    }
}

/// What has been read of the command line so far.
pub struct Draft {
    pub device_path: Option<Seq<char>>,
    pub passes: Option<usize>,
    pub buf_size: Option<usize>,
    pub mode: SyncMode,
    pub quiet: bool,
}

impl Draft {
    /// Nothing read yet: fast mode, not quiet.
    pub open spec fn empty() -> Draft {
        Draft {
            device_path: None,
            passes: None,
            buf_size: None,
            mode: SyncMode::Fast,
            quiet: false,
        }
    }

    /// The configuration once every argument is read: a device must have
    /// been named, and the pass count defaults to eight.
    pub open spec fn finish(self) -> Result<ConfigView, ArgError> {
        match self.device_path {
            Some(path) => Ok(
                ConfigView {
                    device_path: path,
                    passes: match self.passes {
                        Some(n) => n,
                        None => DEFAULT_PASSES,
                    },
                    buf_size: self.buf_size,
                    mode: self.mode,
                    quiet: self.quiet,
                },
            ),
            None => Err(ArgError::NoDevice),
        }
    }
}

/// The arguments as texts; `None` stands for an argument that is not valid
/// UTF-8.
pub open spec fn arg_texts(args: Seq<Option<String>>) -> Seq<Option<Seq<char>>> {
    Seq::new(
        args.len(),
        |i: int|
            match args[i] {
                Some(text) => Some(text@),
                None => None,
            },
    )
}

/// The mode that `name` names on `platform`, for the value at index `at`.
/// Direct mode is only to be had where the platform supports it.
pub open spec fn mode_named(name: Seq<char>, platform: Platform, at: usize) -> Result<
    SyncMode,
    ArgError,
> {
    if name == "fast"@ {
        Ok(SyncMode::Fast)
    } else if name == "durable"@ {
        Ok(SyncMode::Durable)
    } else if name == "direct"@ {
        if platform == Platform::Linux {
            Ok(SyncMode::Direct)
        } else {
            Err(ArgError::ModeUnavailable { mode: SyncMode::Direct })
        }
    } else {
        Err(ArgError::UnknownMode { at })
    }
}

/// The count that `text` spells: an unsigned number that fits and is not
/// zero.
pub open spec fn count_named(text: Seq<char>, not_number: ArgError, zero: ArgError) -> Result<
    usize,
    ArgError,
> {
    match parsed_unsigned(text, usize::MAX as nat) {
        Some(n) => if n == 0 {
            Err(zero)
        } else {
            Ok(n as usize)
        },
        None => Err(not_number),
    }
}

/// The configuration that the arguments from index `at` on give, on top of
/// what was read before. Arguments are read from left to right, and the
/// first one at fault decides the error.
pub open spec fn parsed_from(
    args: Seq<Option<Seq<char>>>,
    at: nat,
    draft: Draft,
    platform: Platform,
) -> Result<ConfigView, ArgError>
    decreases args.len() - at,
{
    if at >= args.len() {
        draft.finish()
    } else {
        match args[at as int] {
            None => Err(ArgError::NotUtf8 { at: at as usize }),
            Some(arg) => if arg == "--help"@ || arg == "-h"@ {
                Err(ArgError::Help)
            } else if arg == "--mode"@ {
                if at + 1 >= args.len() {
                    Err(ArgError::ModeNeedsValue)
                } else {
                    match args[at as int + 1] {
                        None => Err(ArgError::ModeNotUtf8),
                        Some(value) => match mode_named(value, platform, (at + 1) as usize) {
                            Ok(mode) => parsed_from(
                                args,
                                at + 2,
                                Draft { mode, ..draft },
                                platform,
                            ),
                            Err(e) => Err(e),
                        },
                    }
                }
            } else if arg == "--buf"@ {
                if at + 1 >= args.len() {
                    Err(ArgError::BufNeedsValue)
                } else {
                    match args[at as int + 1] {
                        None => Err(ArgError::BufNotUtf8),
                        Some(value) => match count_named(
                            value,
                            ArgError::BufNotNumber,
                            ArgError::BufIsZero,
                        ) {
                            Ok(size) => parsed_from(
                                args,
                                at + 2,
                                Draft { buf_size: Some(size), ..draft },
                                platform,
                            ),
                            Err(e) => Err(e),
                        },
                    }
                }
            } else if arg == "--quiet"@ {
                parsed_from(args, at + 1, Draft { quiet: true, ..draft }, platform)
            } else if is_flag(arg) {
                Err(ArgError::UnknownFlag { at: at as usize })
            } else if draft.device_path is None {
                parsed_from(
                    args,
                    at + 1,
                    Draft { device_path: Some(arg), ..draft },
                    platform,
                )
            } else if draft.passes is None {
                match count_named(arg, ArgError::PassesNotNumber, ArgError::PassesIsZero) {
                    Ok(passes) => parsed_from(
                        args,
                        at + 1,
                        Draft { passes: Some(passes), ..draft },
                        platform,
                    ),
                    Err(e) => Err(e),
                }
            } else {
                Err(ArgError::ExtraArgument { at: at as usize })
            },
        }
    }
}

/// The configuration that a whole argument list gives. The list begins
/// with the program's name; the device and then the pass count are the
/// arguments that are no flags; flags may stand anywhere.
pub open spec fn parsed_config(args: Seq<Option<Seq<char>>>, platform: Platform) -> Result<
    ConfigView,
    ArgError,
> {
    if args.len() == 0 || args[0] is None {
        Err(ArgError::NoProgramName)
    } else {
        parsed_from(args, 1, Draft::empty(), platform)
    }
}

impl ConfigView {
    /// What holds of every configuration that the command line gives: it
    /// has at least one pass, a buffer size that is asked for is not zero,
    /// and direct mode is only chosen where the platform has it.
    pub open spec fn valid_on(self, platform: Platform) -> bool {
        &&& self.passes >= 1
        &&& self.buf_size matches Some(size) ==> size >= 1
        &&& self.mode == SyncMode::Direct ==> platform == Platform::Linux
    }
}

impl Draft {
    /// What is read so far can become a valid configuration.
    pub open spec fn valid_on(self, platform: Platform) -> bool {
        &&& self.passes matches Some(passes) ==> passes >= 1
        &&& self.buf_size matches Some(size) ==> size >= 1
        &&& self.mode == SyncMode::Direct ==> platform == Platform::Linux
    }
}

/// Reading on from a valid draft gives a valid configuration or an error.
proof fn lemma_parsed_from_is_valid(
    args: Seq<Option<Seq<char>>>,
    at: nat,
    draft: Draft,
    platform: Platform,
)
    requires
        draft.valid_on(platform),
    ensures
        parsed_from(args, at, draft, platform) matches Ok(config) ==> config.valid_on(platform),
    decreases args.len() - at,
{
    if at < args.len() {
        if let Some(arg) = args[at as int] {
            if arg == "--help"@ || arg == "-h"@ {
            } else if arg == "--mode"@ {
                if at + 1 < args.len() {
                    if let Some(value) = args[at as int + 1] {
                        if let Ok(mode) = mode_named(value, platform, (at + 1) as usize) {
                            lemma_parsed_from_is_valid(
                                args,
                                at + 2,
                                Draft { mode, ..draft },
                                platform,
                            );
                        }
                    }
                }
            } else if arg == "--buf"@ {
                if at + 1 < args.len() {
                    if let Some(value) = args[at as int + 1] {
                        if let Ok(size) = count_named(
                            value,
                            ArgError::BufNotNumber,
                            ArgError::BufIsZero,
                        ) {
                            lemma_parsed_from_is_valid(
                                args,
                                at + 2,
                                Draft { buf_size: Some(size), ..draft },
                                platform,
                            );
                        }
                    }
                }
            } else if arg == "--quiet"@ {
                lemma_parsed_from_is_valid(args, at + 1, Draft { quiet: true, ..draft }, platform);
            } else if is_flag(arg) {
            } else if draft.device_path is None {
                lemma_parsed_from_is_valid(
                    args,
                    at + 1,
                    Draft { device_path: Some(arg), ..draft },
                    platform,
                );
            } else if draft.passes is None {
                if let Ok(passes) = count_named(
                    arg,
                    ArgError::PassesNotNumber,
                    ArgError::PassesIsZero,
                ) {
                    lemma_parsed_from_is_valid(
                        args,
                        at + 1,
                        Draft { passes: Some(passes), ..draft },
                        platform,
                    );
                }
            }
        }
    }
}

/// Every configuration that a command line gives is valid: no invalid pass
/// count, buffer size or mode gets past the parser.
pub proof fn lemma_config_is_valid(args: Seq<Option<Seq<char>>>, platform: Platform)
    ensures
        parsed_config(args, platform) matches Ok(config) ==> config.valid_on(platform),
{
    if args.len() > 0 && args[0] is Some {
        lemma_parsed_from_is_valid(args, 1, Draft::empty(), platform);
    }
}

/// The mode that the value of `--mode` names.
fn read_mode(value: &str, platform: Platform, at: usize) -> (r: Result<SyncMode, ArgError>)
    ensures
        r == mode_named(value@, platform, at),
{
    if same_text(value, "fast") {
        Ok(SyncMode::Fast)
    } else if same_text(value, "durable") {
        Ok(SyncMode::Durable)
    } else if same_text(value, "direct") {
        if platform.supports_direct() {
            Ok(SyncMode::Direct)
        } else {
            Err(ArgError::ModeUnavailable { mode: SyncMode::Direct })
        }
    } else {
        Err(ArgError::UnknownMode { at })
    }
}

/// The count that a text spells.
fn read_count(text: &str, not_number: ArgError, zero: ArgError) -> (r: Result<usize, ArgError>)
    ensures
        r == count_named(text@, not_number, zero),
{
    match parse_unsigned(text, usize::MAX as u64) {
        Some(n) => {
            if n == 0 {
                Err(zero)
            } else {
                Ok(n as usize)
            }
        },
        None => Err(not_number),
    }
}

impl Config {
    /// Reads the configuration from the argument list; `None` stands for an
    /// argument that is not valid UTF-8. The result is what
    /// [`parsed_config`] gives, and a configuration that comes out is valid
    /// on the platform.
    #[verifier::rlimit(40)]
    pub fn parse(args: &Vec<Option<String>>, platform: Platform) -> (r: Result<Config, ArgError>)
        ensures
            match r {
                Ok(config) => parsed_config(arg_texts(args@), platform) == Ok::<
                    ConfigView,
                    ArgError,
                >(config@),
                Err(e) => parsed_config(arg_texts(args@), platform) == Err::<ConfigView, ArgError>(
                    e,
                ),
            },
            r matches Ok(config) ==> config@.valid_on(platform),
    {
        let ghost texts: Seq<Option<Seq<char>>> = arg_texts(args@);
        proof {
            lemma_config_is_valid(texts, platform);
        }
        let n: usize = args.len();
        if n == 0 {
            return Err(ArgError::NoProgramName);
        }
        if args[0].is_none() {
            return Err(ArgError::NoProgramName);
        }
        let mut device_path: Option<String> = None;
        let mut passes: Option<usize> = None;
        let mut buf_size: Option<usize> = None;
        let mut mode: SyncMode = SyncMode::Fast;
        let mut quiet: bool = false;
        let mut i: usize = 1;
        while i < n
            invariant
                1 <= i <= n,
                n == args@.len(),
                texts == arg_texts(args@),
                parsed_config(texts, platform) == parsed_from(
                    texts,
                    i as nat,
                    Draft {
                        device_path: match device_path {
                            Some(path) => Some(path@),
                            None => None,
                        },
                        passes,
                        buf_size,
                        mode,
                        quiet,
                    },
                    platform,
                ),
            decreases n - i,
        {
            let arg: &str = match &args[i] {
                Some(text) => text.as_str(),
                None => {
                    return Err(ArgError::NotUtf8 { at: i });
                },
            };
            assert(texts[i as int] == Some(arg@));
            if same_text(arg, "--help") || same_text(arg, "-h") {
                return Err(ArgError::Help);
            } else if same_text(arg, "--mode") {
                if i + 1 >= n {
                    return Err(ArgError::ModeNeedsValue);
                }
                let value: &str = match &args[i + 1] {
                    Some(text) => text.as_str(),
                    None => {
                        return Err(ArgError::ModeNotUtf8);
                    },
                };
                assert(texts[i + 1] == Some(value@));
                match read_mode(value, platform, i + 1) {
                    Ok(named) => {
                        mode = named;
                    },
                    Err(e) => {
                        return Err(e);
                    },
                }
                i = i + 2;
            } else if same_text(arg, "--buf") {
                if i + 1 >= n {
                    return Err(ArgError::BufNeedsValue);
                }
                let value: &str = match &args[i + 1] {
                    Some(text) => text.as_str(),
                    None => {
                        return Err(ArgError::BufNotUtf8);
                    },
                };
                assert(texts[i + 1] == Some(value@));
                match read_count(value, ArgError::BufNotNumber, ArgError::BufIsZero) {
                    Ok(size) => {
                        buf_size = Some(size);
                    },
                    Err(e) => {
                        return Err(e);
                    },
                }
                i = i + 2;
            } else if same_text(arg, "--quiet") {
                quiet = true;
                i = i + 1;
            } else if starts_as_flag(arg) {
                return Err(ArgError::UnknownFlag { at: i });
            } else if device_path.is_none() {
                device_path = Some(arg.to_owned());
                i = i + 1;
            } else if passes.is_none() {
                match read_count(arg, ArgError::PassesNotNumber, ArgError::PassesIsZero) {
                    Ok(count) => {
                        passes = Some(count);
                    },
                    Err(e) => {
                        return Err(e);
                    },
                }
                i = i + 1;
            } else {
                return Err(ArgError::ExtraArgument { at: i });
            }
        }
        match device_path {
            Some(path) => Ok(
                Config {
                    device_path: path,
                    passes: match passes {
                        Some(count) => count,
                        None => DEFAULT_PASSES,
                    },
                    buf_size,
                    mode,
                    quiet,
                },
            ),
            None => Err(ArgError::NoDevice),
        }
    }

    /// The usage text for a program called `prog`.
    pub fn usage(prog: &str) -> (text: String)
        ensures
            text@ == usage_text(prog@),
    {
        let mut text: String = String::new();
        text.append("Usage:\n  ");
        text.append(prog);
        text.append(
            " <device> [passes] [--mode fast|durable|direct] [--buf BYTES] [--quiet]\n\nExamples:\n  sudo ",
        );
        text.append(prog);
        text.append(" /dev/sdX 8\n  sudo ");
        text.append(prog);
        text.append(" /dev/sdX 8 --mode durable --buf 65536\n  sudo ");
        text.append(prog);
        text.append(" /dev/sdX 8 --mode direct\n  sudo ");
        text.append(prog);
        text.append(
            " /dev/diskN 3 --mode fast\n\nNotes:\n  <device>         Path to the block device (Linux: /dev/sdX|nvme0n1; macOS: /dev/diskN)\n  [passes]         Number of passes (the last one writes zeros). Default: 8\n  --mode           fast | durable (strongest flush) | direct (Linux, O_DIRECT: no page cache)\n  --buf BYTES      Buffer size. When absent, it is chosen from the device's\n                   block sizes (a multiple of the sector, about 64 KiB)\n  --quiet          Do not print the progress line (faster).",
        );
        assert(text@ =~= usage_text(prog@));
        text
    }
}

/// The usage text for a program called `prog`.
pub open spec fn usage_text(prog: Seq<char>) -> Seq<char> {
    "Usage:\n  "@ + prog
        + " <device> [passes] [--mode fast|durable|direct] [--buf BYTES] [--quiet]\n\nExamples:\n  sudo "@
        + prog + " /dev/sdX 8\n  sudo "@ + prog
        + " /dev/sdX 8 --mode durable --buf 65536\n  sudo "@ + prog
        + " /dev/sdX 8 --mode direct\n  sudo "@ + prog
        + " /dev/diskN 3 --mode fast\n\nNotes:\n  <device>         Path to the block device (Linux: /dev/sdX|nvme0n1; macOS: /dev/diskN)\n  [passes]         Number of passes (the last one writes zeros). Default: 8\n  --mode           fast | durable (strongest flush) | direct (Linux, O_DIRECT: no page cache)\n  --buf BYTES      Buffer size. When absent, it is chosen from the device's\n                   block sizes (a multiple of the sector, about 64 KiB)\n  --quiet          Do not print the progress line (faster)."@
}

} // verus!
