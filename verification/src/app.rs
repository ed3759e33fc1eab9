//! SPDK application framework: the application builder and the conversion
//! of its settings into the options SPDK's application start takes.
//!
//! Starting the application, its reactors and its shutdown are SPDK calls
//! made outside this crate; what is decided before and after them is here.

use crate::cstr::{c_string_opt, first_nul_at, no_nul};
use crate::error::Error;
use crate::text::{decimal_i32, signed_decimal};
use vstd::prelude::*;
use vstd::string::StringSliceAdditionalSpecFns;
use vstd::utf8::encode_utf8;

verus! {

/// Log level of SPDK's messages.
#[derive(Debug, Clone, Copy, PartialEq, Eq, Structural)]
pub enum LogLevel {
    /// No messages.
    Disabled,
    /// Errors only.
    Error,
    /// Warnings and errors.
    Warn,
    /// Notices and above.
    Notice,
    /// Informational messages and above.
    Info,
    /// Everything, debug messages included.
    Debug,
}

/// SPDK's numeric print level of a log level.
pub open spec fn print_level_of(level: LogLevel) -> i32 {
    match level {
        LogLevel::Disabled => -1i32,
        LogLevel::Error => 0,
        LogLevel::Warn => 1,
        LogLevel::Notice => 2,
        LogLevel::Info => 3,
        LogLevel::Debug => 4,
    }
}

impl LogLevel {
    /// SPDK's numeric print level.
    pub fn as_print_level(&self) -> (r: i32)
        ensures
            r == print_level_of(*self),
    {
        match self {
            LogLevel::Disabled => -1,
            LogLevel::Error => 0,
            LogLevel::Warn => 1,
            LogLevel::Notice => 2,
            LogLevel::Info => 3,
            LogLevel::Debug => 4,
        }
    }
}

/// SPDK Application Framework handle.
///
/// It holds no state; starting and stopping the application are SPDK calls.
#[derive(Debug)]
pub struct SpdkApp {
    _private: (),
}

impl SpdkApp {
    /// Create a new application builder.
    pub fn builder() -> (b: SpdkAppBuilder)
        ensures
            b@ == AppConfig::empty(),
    {
        SpdkAppBuilder::new()
    }
}

/// What an application builder holds.
pub struct AppConfig {
    pub name: Option<Seq<char>>,
    pub config_file: Option<Seq<char>>,
    pub json_data: Option<Seq<u8>>,
    pub json_config_ignore_errors: bool,
    pub reactor_mask: Option<Seq<char>>,
    pub rpc_addr: Option<Seq<char>>,
    pub main_core: Option<i32>,
    pub mem_size_mb: Option<i32>,
    pub shm_id: Option<i32>,
    pub no_pci: bool,
    pub no_huge: bool,
    pub log_level: Option<LogLevel>,
}

impl AppConfig {
    /// A builder with nothing set.
    pub open spec fn empty() -> AppConfig {
        AppConfig {
            name: None,
            config_file: None,
            json_data: None,
            json_config_ignore_errors: false,
            reactor_mask: None,
            rpc_addr: None,
            main_core: None,
            mem_size_mb: None,
            shm_id: None,
            no_pci: false,
            no_huge: false,
            log_level: None,
        }
    }
}

/// The text of an optional string.
pub open spec fn opt_text(o: Option<String>) -> Option<Seq<char>> {
    match o {
        Some(s) => Some(s@),
        None => None,
    }
}

/// The bytes of an optional byte vector.
pub open spec fn opt_bytes(o: Option<Vec<u8>>) -> Option<Seq<u8>> {
    match o {
        Some(v) => Some(v@),
        None => None,
    }
}

/// The C-string bytes of an optional text.
pub open spec fn opt_c_bytes(o: Option<Seq<char>>) -> Option<Seq<u8>> {
    match o {
        Some(s) => Some(encode_utf8(s)),
        None => None,
    }
}

/// The bytes of an optional text when they hold a NUL, else nothing.
pub open spec fn bytes_with_nul(o: Option<Seq<char>>) -> Option<Seq<u8>> {
    match o {
        Some(s) => if no_nul(encode_utf8(s)) {
            None
        } else {
            Some(encode_utf8(s))
        },
        None => None,
    }
}

/// The first of the name, configuration file, reactor mask and RPC address
/// whose bytes hold a NUL, as those bytes.
pub open spec fn first_text_with_nul(c: AppConfig) -> Option<Seq<u8>> {
    if bytes_with_nul(c.name) is Some {
        bytes_with_nul(c.name)
    } else if bytes_with_nul(c.config_file) is Some {
        bytes_with_nul(c.config_file)
    } else if bytes_with_nul(c.reactor_mask) is Some {
        bytes_with_nul(c.reactor_mask)
    } else {
        bytes_with_nul(c.rpc_addr)
    }
}

/// The print level an optional log level sets.
pub open spec fn opt_print_level(o: Option<LogLevel>) -> Option<i32> {
    match o {
        Some(l) => Some(print_level_of(l)),
        None => None,
    }
}

/// The options handed to SPDK's application start. A field that is `None`
/// keeps SPDK's default; the texts are C-string bytes without the
/// terminating NUL.
#[derive(Debug)]
pub struct AppLaunch {
    pub name: Option<Vec<u8>>,
    pub json_config_file: Option<Vec<u8>>,
    pub json_data: Option<Vec<u8>>,
    pub json_config_ignore_errors: bool,
    pub reactor_mask: Option<Vec<u8>>,
    pub rpc_addr: Option<Vec<u8>>,
    pub main_core: Option<i32>,
    pub mem_size: Option<i32>,
    pub shm_id: Option<i32>,
    pub no_pci: bool,
    pub no_huge: bool,
    pub print_level: Option<i32>,
}

/// The launch options that a builder's settings give.
pub open spec fn launch_matches(l: AppLaunch, c: AppConfig) -> bool {
    &&& opt_bytes(l.name) == opt_c_bytes(c.name)
    &&& opt_bytes(l.json_config_file) == opt_c_bytes(c.config_file)
    &&& opt_bytes(l.json_data) == c.json_data
    &&& l.json_config_ignore_errors == c.json_config_ignore_errors
    &&& opt_bytes(l.reactor_mask) == opt_c_bytes(c.reactor_mask)
    &&& opt_bytes(l.rpc_addr) == opt_c_bytes(c.rpc_addr)
    &&& l.main_core == c.main_core
    &&& l.mem_size == c.mem_size_mb
    &&& l.shm_id == c.shm_id
    &&& l.no_pci == c.no_pci
    &&& l.no_huge == c.no_huge
    &&& l.print_level == opt_print_level(c.log_level)
}

/// The message of an application start that failed.
pub open spec fn start_failure_message(rc: int) -> Seq<char> {
    "spdk_app_start failed with error code "@ + signed_decimal(rc)
}

/// Builder for configuring and running an SPDK application.
#[derive(Debug)]
pub struct SpdkAppBuilder {
    name: Option<String>,
    config_file: Option<String>,
    json_data: Option<Vec<u8>>,
    json_config_ignore_errors: bool,
    reactor_mask: Option<String>,
    rpc_addr: Option<String>,
    main_core: Option<i32>,
    mem_size_mb: Option<i32>,
    shm_id: Option<i32>,
    no_pci: bool,
    no_huge: bool,
    log_level: Option<LogLevel>,
}

impl View for SpdkAppBuilder {
    type V = AppConfig;

    closed spec fn view(&self) -> AppConfig {
        AppConfig {
            name: opt_text(self.name),
            config_file: opt_text(self.config_file),
            json_data: opt_bytes(self.json_data),
            json_config_ignore_errors: self.json_config_ignore_errors,
            reactor_mask: opt_text(self.reactor_mask),
            rpc_addr: opt_text(self.rpc_addr),
            main_core: self.main_core,
            mem_size_mb: self.mem_size_mb,
            shm_id: self.shm_id,
            no_pci: self.no_pci,
            no_huge: self.no_huge,
            log_level: self.log_level,
        }
    }
}

/// Converts an optional owned text into an optional C string.
fn opt_c_string(o: &Option<String>) -> (r: Result<Option<Vec<u8>>, Error>)
    ensures
        match r {
            Ok(v) => bytes_with_nul(opt_text(*o)) is None && opt_bytes(v) == opt_c_bytes(
                opt_text(*o),
            ),
            Err(e) => bytes_with_nul(opt_text(*o)) matches Some(b) && (e matches Error::NulError(
                ne,
            ) && first_nul_at(b, ne.nul_position as int) && ne.bytes@ == b),
        },
{
    let t: Option<&str> = match o {
        Some(s) => Some(s.as_str()),
        None => None,
    };
    c_string_opt(t)
}

impl SpdkAppBuilder {
    /// Create a new builder with default options.
    pub fn new() -> (b: SpdkAppBuilder)
        ensures
            b@ == AppConfig::empty(),
    {
        SpdkAppBuilder {
            name: None,
            config_file: None,
            json_data: None,
            json_config_ignore_errors: false,
            reactor_mask: None,
            rpc_addr: None,
            main_core: None,
            mem_size_mb: None,
            shm_id: None,
            no_pci: false,
            no_huge: false,
            log_level: None,
        }
    }

    /// Set the application name, used for hugepage file names, logs and
    /// identification.
    pub fn name(self, name: &str) -> (b: SpdkAppBuilder)
        ensures
            b@ == (AppConfig { name: Some(name@), ..self@ }),
    {
        SpdkAppBuilder { name: Some(String::from_str(name)), ..self }
    }

    /// Set the path to the JSON configuration file.
    pub fn config_file(self, path: &str) -> (b: SpdkAppBuilder)
        ensures
            b@ == (AppConfig { config_file: Some(path@), ..self@ }),
    {
        SpdkAppBuilder { config_file: Some(String::from_str(path)), ..self }
    }

    /// Set JSON configuration data directly, in place of a file.
    pub fn json_data(self, json: &str) -> (b: SpdkAppBuilder)
        ensures
            b@ == (AppConfig { json_data: Some(json.spec_bytes()), ..self@ }),
    {
        SpdkAppBuilder { json_data: Some(json.as_bytes_vec()), ..self }
    }

    /// Continue initialization even when some JSON configuration entries
    /// fail to apply.
    pub fn json_config_ignore_errors(self, ignore: bool) -> (b: SpdkAppBuilder)
        ensures
            b@ == (AppConfig { json_config_ignore_errors: ignore, ..self@ }),
    {
        SpdkAppBuilder { json_config_ignore_errors: ignore, ..self }
    }

    /// Set the CPU core mask for SPDK reactors, such as `0x3` or `0-3,5`.
    pub fn reactor_mask(self, mask: &str) -> (b: SpdkAppBuilder)
        ensures
            b@ == (AppConfig { reactor_mask: Some(mask@), ..self@ }),
    {
        SpdkAppBuilder { reactor_mask: Some(String::from_str(mask)), ..self }
    }

    /// Set the JSON-RPC server address: a Unix socket path or an IP address
    /// with port.
    pub fn rpc_addr(self, addr: &str) -> (b: SpdkAppBuilder)
        ensures
            b@ == (AppConfig { rpc_addr: Some(addr@), ..self@ }),
    {
        SpdkAppBuilder { rpc_addr: Some(String::from_str(addr)), ..self }
    }

    /// Set the main (first) reactor core.
    pub fn main_core(self, core: i32) -> (b: SpdkAppBuilder)
        ensures
            b@ == (AppConfig { main_core: Some(core), ..self@ }),
    {
        SpdkAppBuilder { main_core: Some(core), ..self }
    }

    /// Set the amount of hugepage memory to reserve, in MB.
    pub fn mem_size_mb(self, mb: i32) -> (b: SpdkAppBuilder)
        ensures
            b@ == (AppConfig { mem_size_mb: Some(mb), ..self@ }),
    {
        SpdkAppBuilder { mem_size_mb: Some(mb), ..self }
    }

    /// Set the shared memory ID for multi-process mode (-1 disables it).
    pub fn shm_id(self, id: i32) -> (b: SpdkAppBuilder)
        ensures
            b@ == (AppConfig { shm_id: Some(id), ..self@ }),
    {
        SpdkAppBuilder { shm_id: Some(id), ..self }
    }

    /// Disable PCI device scanning.
    pub fn no_pci(self, no_pci: bool) -> (b: SpdkAppBuilder)
        ensures
            b@ == (AppConfig { no_pci, ..self@ }),
    {
        SpdkAppBuilder { no_pci, ..self }
    }

    /// Disable hugepage allocation (use regular memory).
    pub fn no_huge(self, no_huge: bool) -> (b: SpdkAppBuilder)
        ensures
            b@ == (AppConfig { no_huge, ..self@ }),
    {
        SpdkAppBuilder { no_huge, ..self }
    }

    /// Set the log level for SPDK messages.
    pub fn log_level(self, level: LogLevel) -> (b: SpdkAppBuilder)
        ensures
            b@ == (AppConfig { log_level: Some(level), ..self@ }),
    {
        SpdkAppBuilder { log_level: Some(level), ..self }
    }

    /// The options SPDK's application start is given for these settings.
    ///
    /// The name, configuration file, reactor mask and RPC address are
    /// converted to C strings in that order; the first that holds a NUL byte
    /// makes this fail with [`Error::NulError`].
    pub fn launch_options(&self) -> (r: Result<AppLaunch, Error>)
        ensures
            match r {
                Ok(l) => first_text_with_nul(self@) is None && launch_matches(l, self@),
                Err(e) => first_text_with_nul(self@) matches Some(b) && (e matches Error::NulError(
                    ne,
                ) && first_nul_at(b, ne.nul_position as int) && ne.bytes@ == b),
            },
    {
        let name = match opt_c_string(&self.name) {
            Ok(v) => v,
            Err(e) => return Err(e),
        };
        let json_config_file = match opt_c_string(&self.config_file) {
            Ok(v) => v,
            Err(e) => return Err(e),
        };
        let reactor_mask = match opt_c_string(&self.reactor_mask) {
            Ok(v) => v,
            Err(e) => return Err(e),
        };
        let rpc_addr = match opt_c_string(&self.rpc_addr) {
            Ok(v) => v,
            Err(e) => return Err(e),
        };
        let json_data = match &self.json_data {
            Some(d) => Some(d.clone()),
            None => None,
        };
        let print_level = match &self.log_level {
            Some(l) => Some(l.as_print_level()),
            None => None,
        };
        Ok(
            AppLaunch {
                name,
                json_config_file,
                json_data,
                json_config_ignore_errors: self.json_config_ignore_errors,
                reactor_mask,
                rpc_addr,
                main_core: self.main_core,
                mem_size: self.mem_size_mb,
                shm_id: self.shm_id,
                no_pci: self.no_pci,
                no_huge: self.no_huge,
                print_level,
            },
        )
    }
}

impl Default for SpdkAppBuilder {
    fn default() -> (b: SpdkAppBuilder)
        ensures
            b@ == AppConfig::empty(),
    {
        SpdkAppBuilder::new()
    }
}

/// The outcome of SPDK's application start: a non-zero return code is a
/// failure.
pub fn start_outcome(rc: i32) -> (r: Result<(), Error>)
    ensures
        rc == 0 ==> r is Ok,
        rc != 0 ==> (r matches Err(Error::EnvInit(m)) && m@ == start_failure_message(rc as int)),
{
    if rc != 0 {
        let mut m = String::from_str("spdk_app_start failed with error code ");
        m.append(decimal_i32(rc).as_str());
        Err(Error::EnvInit(m))
    } else {
        Ok(())
    }
}

/// Law: setting one builder option leaves every other option as it was, and
/// a later setting of the same option replaces an earlier one.
pub proof fn lemma_builder_settings_independent(c: AppConfig, n1: Seq<char>, n2: Seq<char>, core: i32)
    ensures
        (AppConfig { name: Some(n2), ..(AppConfig { name: Some(n1), ..c }) }) == (AppConfig {
            name: Some(n2),
            ..c
        }),
        (AppConfig { main_core: Some(core), ..(AppConfig { name: Some(n1), ..c }) }) == (
        AppConfig { name: Some(n1), ..(AppConfig { main_core: Some(core), ..c }) }),
{
}

} // verus!
