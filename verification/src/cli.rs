//! The command line as plain values, and the run configuration that each command stands for.

use crate::framework::traits::{ModuleConfig, ModuleConfigView};
use crate::modules::registry::ModuleKind;
use crate::utils::format::{bool_text, bool_to_string, decimal_text, u64_to_string};
use vstd::prelude::*;

verus! {

/// Output format of the `all` command.
#[derive(Debug, Clone, Copy, PartialEq, Eq, Structural, Hash)]
pub enum OutputFormat {
    Terminal,
    Json,
    Html,
}

/// Shell to generate completions for.
#[derive(Debug, Clone, Copy, PartialEq, Eq, Structural, Hash)]
pub enum Shell {
    Bash,
    Zsh,
    Fish,
    PowerShell,
}

/// The command that was given, with its options.
#[derive(Debug, Clone)]
pub enum Commands {
    /// Analyze boot performance and slow services
    Boot { blame: bool, critical: bool, time: bool, top: usize },
    /// Explain high CPU usage
    Cpu { watch: bool, top: usize, interval: u64, by_user: bool },
    /// Explain memory usage
    Mem { detailed: bool, swap: bool, top: usize, cache: bool },
    /// Analyze disk space usage
    Disk { path: Option<String>, depth: usize, old: Option<u64>, large: Option<String>, hidden: bool },
    /// Explain high disk I/O
    Io { watch: bool, device: Option<String>, top: usize, interval: u64 },
    /// Diagnose network issues
    Net { host: String, full: bool, dns_only: bool, count: usize, interfaces: bool },
    /// Explain fan activity; the temperature threshold is held as its text
    Fan { watch: bool, interval: u64, threshold: Option<String>, all_sensors: bool },
    /// Analyze system temperature
    Temp { watch: bool, all_sensors: bool, critical: bool, interval: u64 },
    /// Analyze GPU usage
    Gpu { watch: bool, nvidia: bool, amd: bool, intel: bool, processes: bool },
    /// Explain battery drain
    Batt { watch: bool, detailed: bool, wakeups: bool, history: bool },
    /// Diagnose sleep/suspend issues
    Sleep { inhibitors: bool, wake_sources: bool, history: Option<usize>, test: bool },
    /// Diagnose USB device issues
    Usb { device: Option<String>, tree: bool, dmesg: bool, power: bool },
    /// Diagnose mount point issues
    Mount { mountpoint: Option<String>, all: bool, nfs: bool, check: bool, options: bool },
    /// Run all diagnostic modules
    All { quick: bool, format: OutputFormat },
    /// Generate shell completions
    Completions { shell: Shell },
}

/// The command line.
#[derive(Debug, Clone)]
pub struct Cli {
    pub command: Commands,
    /// Output in JSON format
    pub json: bool,
    /// Verbose output with additional details
    pub verbose: bool,
    /// Disable colored output
    pub no_color: bool,
    /// Suppress non-essential output
    pub quiet: bool,
}

/// A command that runs no single module.
#[derive(Debug, Clone, Copy, PartialEq, Eq, Structural, Hash)]
pub enum CliError {
    /// The command runs all modules or generates completions.
    NotAModule,
}

/// The configuration that every command starts from: what the command line
/// says of verbosity and JSON output, no watching, an interval of 2
/// seconds, 10 top entries, and no module-specific options.
pub open spec fn base_config(cli: Cli) -> ModuleConfigView {
    ModuleConfigView {
        verbose: cli.verbose,
        watch: false,
        interval: 2,
        top_n: 10,
        json_output: cli.json,
        extra_args: Map::empty(),
    }
}

/// The options with `key` set to the text, where there is one.
pub open spec fn with_optional(
    options: Map<Seq<char>, Seq<char>>,
    key: Seq<char>,
    value: Option<String>,
) -> Map<Seq<char>, Seq<char>> {
    match value {
        Some(text) => options.insert(key, text@),
        None => options,
    }
}

/// The module that a command runs and the configuration of the run, where
/// the command runs a single module.
pub open spec fn run_of(cli: Cli) -> Option<(ModuleKind, ModuleConfigView)> {
    let base = base_config(cli);
    let none = Map::<Seq<char>, Seq<char>>::empty();
    match cli.command {
        Commands::Boot { top, .. } => Some(
            (ModuleKind::Boot, ModuleConfigView { top_n: top, ..base }),
        ),
        Commands::Cpu { watch, top, interval, .. } => Some(
            (ModuleKind::Cpu, ModuleConfigView { watch, top_n: top, interval, ..base }),
        ),
        Commands::Mem { top, .. } => Some((ModuleKind::Mem, ModuleConfigView { top_n: top, ..base })),
        Commands::Disk { path, depth, old, large, hidden } => Some(
            (
                ModuleKind::Disk,
                ModuleConfigView {
                    extra_args: with_optional(
                        (match old {
                            Some(days) => none.insert(
                                "path"@,
                                match path {
                                    Some(p) => p@,
                                    None => "/"@,
                                },
                            ).insert("depth"@, decimal_text(depth as nat)).insert(
                                "old"@,
                                decimal_text(days as nat),
                            ),
                            None => none.insert(
                                "path"@,
                                match path {
                                    Some(p) => p@,
                                    None => "/"@,
                                },
                            ).insert("depth"@, decimal_text(depth as nat)),
                        }),
                        "large"@,
                        large,
                    ).insert("hidden"@, bool_text(hidden)),
                    ..base
                },
            ),
        ),
        Commands::Io { watch, device, top, interval } => Some(
            (
                ModuleKind::Io,
                ModuleConfigView {
                    watch,
                    top_n: top,
                    interval,
                    extra_args: with_optional(none, "device"@, device),
                    ..base
                },
            ),
        ),
        Commands::Net { host, .. } => Some(
            (ModuleKind::Net, ModuleConfigView { extra_args: none.insert("host"@, host@), ..base }),
        ),
        Commands::Fan { watch, interval, threshold, .. } => Some(
            (
                ModuleKind::Fan,
                ModuleConfigView {
                    watch,
                    interval,
                    extra_args: with_optional(none, "threshold"@, threshold),
                    ..base
                },
            ),
        ),
        Commands::Temp { watch, interval, critical, .. } => Some(
            (
                ModuleKind::Temp,
                ModuleConfigView {
                    watch,
                    interval,
                    extra_args: none.insert("critical"@, bool_text(critical)),
                    ..base
                },
            ),
        ),
        Commands::Gpu { .. } => Some((ModuleKind::Gpu, base)),
        Commands::Batt { detailed, .. } => Some(
            (
                ModuleKind::Batt,
                ModuleConfigView {
                    extra_args: none.insert("detailed"@, bool_text(detailed)),
                    ..base
                },
            ),
        ),
        Commands::Sleep { inhibitors, .. } => Some(
            (
                ModuleKind::Sleep,
                ModuleConfigView {
                    extra_args: none.insert("inhibitors"@, bool_text(inhibitors)),
                    ..base
                },
            ),
        ),
        Commands::Usb { device, dmesg, .. } => Some(
            (
                ModuleKind::Usb,
                ModuleConfigView {
                    extra_args: with_optional(none, "device"@, device).insert(
                        "dmesg"@,
                        bool_text(dmesg),
                    ),
                    ..base
                },
            ),
        ),
        Commands::Mount { mountpoint, nfs, options, .. } => Some(
            (
                ModuleKind::Mount,
                ModuleConfigView {
                    extra_args: with_optional(none, "mountpoint"@, mountpoint).insert(
                        "nfs"@,
                        bool_text(nfs),
                    ).insert("options"@, bool_text(options)),
                    ..base
                },
            ),
        ),
        Commands::All { .. } => None,
        Commands::Completions { .. } => None,
    }
}

/// The configuration of a full run: what the command line says of
/// verbosity and JSON output, and the defaults otherwise.
pub fn all_config(cli: &Cli) -> (r: ModuleConfig)
    ensures
        r@ == base_config(*cli),
{
    ModuleConfig {
        verbose: cli.verbose,
        watch: false,
        interval: 2,
        top_n: 10,
        json_output: cli.json,
        extra_args: Vec::new(),
    }
}

/// Sets the option `key` where there is a value for it.
fn set_optional(config: &mut ModuleConfig, key: &str, value: &Option<String>)
    ensures
        final(config)@ == (ModuleConfigView {
            extra_args: with_optional(old(config)@.extra_args, key@, *value),
            ..old(config)@
        }),
{
    if let Some(text) = value {
        config.set_extra(key, text.as_str());
    }
}

/// The module that the command runs, by name, and the configuration of its
/// run; an error for the commands that run no single module.
pub fn command_to_module_config(cli: &Cli) -> (r: Result<(String, ModuleConfig), CliError>)
    ensures
        match run_of(*cli) {
            Some(run) => r matches Ok(got) && got.0@ == run.0.name_text() && got.1@ == run.1,
            None => r == Err::<(String, ModuleConfig), CliError>(CliError::NotAModule),
        },
{
    let mut config = all_config(cli);
    let kind = match &cli.command {
        Commands::Boot { top, .. } => {
            config.top_n = *top;
            ModuleKind::Boot
        },
        Commands::Cpu { watch, top, interval, .. } => {
            config.watch = *watch;
            config.top_n = *top;
            config.interval = *interval;
            ModuleKind::Cpu
        },
        Commands::Mem { top, .. } => {
            config.top_n = *top;
            ModuleKind::Mem
        },
        Commands::Disk { path, depth, old, large, hidden } => {
            match path {
                Some(p) => config.set_extra("path", p.as_str()),
                None => config.set_extra("path", "/"),
            }
            config.set_extra("depth", u64_to_string(*depth as u64).as_str());
            if let Some(days) = old {
                config.set_extra("old", u64_to_string(*days).as_str());
            }
            set_optional(&mut config, "large", large);
            config.set_extra("hidden", bool_to_string(*hidden).as_str());
            ModuleKind::Disk
        },
        Commands::Io { watch, device, top, interval } => {
            config.watch = *watch;
            config.top_n = *top;
            config.interval = *interval;
            set_optional(&mut config, "device", device);
            ModuleKind::Io
        },
        Commands::Net { host, .. } => {
            config.set_extra("host", host.as_str());
            ModuleKind::Net
        },
        Commands::Fan { watch, interval, threshold, .. } => {
            config.watch = *watch;
            config.interval = *interval;
            set_optional(&mut config, "threshold", threshold);
            ModuleKind::Fan
        },
        Commands::Temp { watch, interval, critical, .. } => {
            config.watch = *watch;
            config.interval = *interval;
            config.set_extra("critical", bool_to_string(*critical).as_str());
            ModuleKind::Temp
        },
        Commands::Gpu { .. } => ModuleKind::Gpu,
        Commands::Batt { detailed, .. } => {
            config.set_extra("detailed", bool_to_string(*detailed).as_str());
            ModuleKind::Batt
        },
        Commands::Sleep { inhibitors, .. } => {
            config.set_extra("inhibitors", bool_to_string(*inhibitors).as_str());
            ModuleKind::Sleep
        },
        Commands::Usb { device, dmesg, .. } => {
            set_optional(&mut config, "device", device);
            config.set_extra("dmesg", bool_to_string(*dmesg).as_str());
            ModuleKind::Usb
        },
        Commands::Mount { mountpoint, nfs, options, .. } => {
            set_optional(&mut config, "mountpoint", mountpoint);
            config.set_extra("nfs", bool_to_string(*nfs).as_str());
            config.set_extra("options", bool_to_string(*options).as_str());
            ModuleKind::Mount
        },
        Commands::All { .. } => {
            return Err(CliError::NotAModule);
        },
        Commands::Completions { .. } => {
            return Err(CliError::NotAModule);
        },
    };
    Ok((kind.name().to_owned(), config))
}

} // verus!
