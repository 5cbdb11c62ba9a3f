//! Diagnostic modules: what each reads from the host, and the report it makes of it.

pub mod batt;
pub mod boot;
pub mod cpu;
pub mod disk;
pub mod fan;
pub mod gpu;
pub mod hwmon;
pub mod io;
pub mod mem;
pub mod mount;
pub mod net;
pub mod registry;
pub mod sleep;
pub mod temp;
pub mod usb;

pub use batt::module as batt_module;
pub use boot::module as boot_module;
pub use cpu::module as cpu_module;
pub use disk::module as disk_module;
pub use fan::module as fan_module;
pub use gpu::module as gpu_module;
pub use io::module as io_module;
pub use mem::module as mem_module;
pub use mount::module as mount_module;
pub use net::module as net_module;
pub use registry::{all_modules, get_module, kind_of, Host, Module, ModuleKind};
pub use sleep::module as sleep_module;
pub use temp::module as temp_module;
pub use usb::module as usb_module;
