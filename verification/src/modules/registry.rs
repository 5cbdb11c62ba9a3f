//! The closed set of diagnostic modules: lookup by name and the fixed order of a full run.

use crate::framework::report::{DiagnosticReport, ReportView};
use crate::framework::traits::{
    DiagnosticModule, ExecutionError, ExecutionErrorView, ModuleConfig, ModuleConfigView,
    Permission,
};
use crate::modules::batt::{BattModule, BattProbe};
use crate::modules::boot::{BootModule, BootProbe};
use crate::modules::cpu::{CpuModule, CpuProbe};
use crate::modules::disk::{DiskModule, DiskProbe};
use crate::modules::fan::{FanModule, FanProbe};
use crate::modules::gpu::{GpuModule, GpuProbe};
use crate::modules::io::{IoModule, IoProbe};
use crate::modules::mem::{MemModule, MemProbe};
use crate::modules::mount::{MountModule, MountProbe};
use crate::modules::net::{NetModule, NetProbe};
use crate::modules::sleep::{SleepModule, SleepProbe};
use crate::modules::temp::{TempModule, TempProbe};
use crate::modules::usb::{UsbModule, UsbProbe};
use crate::utils::text::str_eq;
use vstd::prelude::*;

verus! {

/// Which of the diagnostic modules.
#[derive(Debug, Clone, Copy, PartialEq, Eq, Structural, Hash)]
pub enum ModuleKind {
    Boot,
    Cpu,
    Mem,
    Disk,
    Io,
    Net,
    Fan,
    Temp,
    Gpu,
    Batt,
    Sleep,
    Usb,
    Mount,
}

impl ModuleKind {
    /// The stable short machine name of the module.
    pub open spec fn name_text(self) -> Seq<char> {
        match self {
            ModuleKind::Boot => "boot"@,
            ModuleKind::Cpu => "cpu"@,
            ModuleKind::Mem => "mem"@,
            ModuleKind::Disk => "disk"@,
            ModuleKind::Io => "io"@,
            ModuleKind::Net => "net"@,
            ModuleKind::Fan => "fan"@,
            ModuleKind::Temp => "temp"@,
            ModuleKind::Gpu => "gpu"@,
            ModuleKind::Batt => "batt"@,
            ModuleKind::Sleep => "sleep"@,
            ModuleKind::Usb => "usb"@,
            ModuleKind::Mount => "mount"@,
        }
    }

    /// The stable short machine name of the module.
    pub fn name(self) -> (r: &'static str)
        ensures
            r@ == self.name_text(),
    {
        match self {
            ModuleKind::Boot => "boot",
            ModuleKind::Cpu => "cpu",
            ModuleKind::Mem => "mem",
            ModuleKind::Disk => "disk",
            ModuleKind::Io => "io",
            ModuleKind::Net => "net",
            ModuleKind::Fan => "fan",
            ModuleKind::Temp => "temp",
            ModuleKind::Gpu => "gpu",
            ModuleKind::Batt => "batt",
            ModuleKind::Sleep => "sleep",
            ModuleKind::Usb => "usb",
            ModuleKind::Mount => "mount",
        }
    }
}

/// The modules in the order of a full run.
pub open spec fn run_order() -> Seq<ModuleKind> {
    seq![
        ModuleKind::Boot,
        ModuleKind::Cpu,
        ModuleKind::Mem,
        ModuleKind::Disk,
        ModuleKind::Io,
        ModuleKind::Net,
        ModuleKind::Fan,
        ModuleKind::Temp,
        ModuleKind::Gpu,
        ModuleKind::Batt,
        ModuleKind::Sleep,
        ModuleKind::Usb,
        ModuleKind::Mount,
    ]
}

/// The module of the given name: the first in the order of a full run that
/// bears it, if there is one.
pub open spec fn kind_named(name: Seq<char>) -> Option<ModuleKind> {
    if name == "boot"@ {
        Some(ModuleKind::Boot)
    } else if name == "cpu"@ {
        Some(ModuleKind::Cpu)
    } else if name == "mem"@ {
        Some(ModuleKind::Mem)
    } else if name == "disk"@ {
        Some(ModuleKind::Disk)
    } else if name == "io"@ {
        Some(ModuleKind::Io)
    } else if name == "net"@ {
        Some(ModuleKind::Net)
    } else if name == "fan"@ {
        Some(ModuleKind::Fan)
    } else if name == "temp"@ {
        Some(ModuleKind::Temp)
    } else if name == "gpu"@ {
        Some(ModuleKind::Gpu)
    } else if name == "batt"@ {
        Some(ModuleKind::Batt)
    } else if name == "sleep"@ {
        Some(ModuleKind::Sleep)
    } else if name == "usb"@ {
        Some(ModuleKind::Usb)
    } else if name == "mount"@ {
        Some(ModuleKind::Mount)
    } else {
        None
    }
}

/// A lookup by name yields a module of that name.
pub proof fn lemma_lookup_bears_name(name: Seq<char>)
    ensures
        kind_named(name) matches Some(kind) ==> kind.name_text() == name,
{
}

/// Which module the given name stands for, if any.
pub fn kind_of(name: &str) -> (r: Option<ModuleKind>)
    ensures
        r == kind_named(name@),
{
    if str_eq(name, "boot") {
        Some(ModuleKind::Boot)
    } else if str_eq(name, "cpu") {
        Some(ModuleKind::Cpu)
    } else if str_eq(name, "mem") {
        Some(ModuleKind::Mem)
    } else if str_eq(name, "disk") {
        Some(ModuleKind::Disk)
    } else if str_eq(name, "io") {
        Some(ModuleKind::Io)
    } else if str_eq(name, "net") {
        Some(ModuleKind::Net)
    } else if str_eq(name, "fan") {
        Some(ModuleKind::Fan)
    } else if str_eq(name, "temp") {
        Some(ModuleKind::Temp)
    } else if str_eq(name, "gpu") {
        Some(ModuleKind::Gpu)
    } else if str_eq(name, "batt") {
        Some(ModuleKind::Batt)
    } else if str_eq(name, "sleep") {
        Some(ModuleKind::Sleep)
    } else if str_eq(name, "usb") {
        Some(ModuleKind::Usb)
    } else if str_eq(name, "mount") {
        Some(ModuleKind::Mount)
    } else {
        None
    }
}

/// What the modules read from the host, one probe for each module.
#[derive(Debug, Clone)]
pub struct Host {
    pub boot: BootProbe,
    pub cpu: CpuProbe,
    pub mem: MemProbe,
    pub disk: DiskProbe,
    pub io: IoProbe,
    pub net: NetProbe,
    pub fan: FanProbe,
    pub temp: TempProbe,
    pub gpu: GpuProbe,
    pub batt: BattProbe,
    pub sleep: SleepProbe,
    pub usb: UsbProbe,
    pub mount: MountProbe,
}

/// One of the diagnostic modules, on what it read.
#[derive(Debug, Clone)]
pub enum Module {
    Boot(BootModule),
    Cpu(CpuModule),
    Mem(MemModule),
    Disk(DiskModule),
    Io(IoModule),
    Net(NetModule),
    Fan(FanModule),
    Temp(TempModule),
    Gpu(GpuModule),
    Batt(BattModule),
    Sleep(SleepModule),
    Usb(UsbModule),
    Mount(MountModule),
}

impl Module {
    /// Which of the modules this is.
    pub open spec fn spec_kind(self) -> ModuleKind {
        match self {
            Module::Boot(_) => ModuleKind::Boot,
            Module::Cpu(_) => ModuleKind::Cpu,
            Module::Mem(_) => ModuleKind::Mem,
            Module::Disk(_) => ModuleKind::Disk,
            Module::Io(_) => ModuleKind::Io,
            Module::Net(_) => ModuleKind::Net,
            Module::Fan(_) => ModuleKind::Fan,
            Module::Temp(_) => ModuleKind::Temp,
            Module::Gpu(_) => ModuleKind::Gpu,
            Module::Batt(_) => ModuleKind::Batt,
            Module::Sleep(_) => ModuleKind::Sleep,
            Module::Usb(_) => ModuleKind::Usb,
            Module::Mount(_) => ModuleKind::Mount,
        }
    }

    /// Which of the modules this is.
    pub fn kind(&self) -> (r: ModuleKind)
        ensures
            r == self.spec_kind(),
    {
        match self {
            Module::Boot(_) => ModuleKind::Boot,
            Module::Cpu(_) => ModuleKind::Cpu,
            Module::Mem(_) => ModuleKind::Mem,
            Module::Disk(_) => ModuleKind::Disk,
            Module::Io(_) => ModuleKind::Io,
            Module::Net(_) => ModuleKind::Net,
            Module::Fan(_) => ModuleKind::Fan,
            Module::Temp(_) => ModuleKind::Temp,
            Module::Gpu(_) => ModuleKind::Gpu,
            Module::Batt(_) => ModuleKind::Batt,
            Module::Sleep(_) => ModuleKind::Sleep,
            Module::Usb(_) => ModuleKind::Usb,
            Module::Mount(_) => ModuleKind::Mount,
        }
    }
}

/// The module of the given kind on what was read from the host.
pub open spec fn module_on(kind: ModuleKind, host: Host) -> Module {
    match kind {
        ModuleKind::Boot => Module::Boot(BootModule { probe: host.boot }),
        ModuleKind::Cpu => Module::Cpu(CpuModule { probe: host.cpu }),
        ModuleKind::Mem => Module::Mem(MemModule { probe: host.mem }),
        ModuleKind::Disk => Module::Disk(DiskModule { probe: host.disk }),
        ModuleKind::Io => Module::Io(IoModule { probe: host.io }),
        ModuleKind::Net => Module::Net(NetModule { probe: host.net }),
        ModuleKind::Fan => Module::Fan(FanModule { probe: host.fan }),
        ModuleKind::Temp => Module::Temp(TempModule { probe: host.temp }),
        ModuleKind::Gpu => Module::Gpu(GpuModule { probe: host.gpu }),
        ModuleKind::Batt => Module::Batt(BattModule { probe: host.batt }),
        ModuleKind::Sleep => Module::Sleep(SleepModule { probe: host.sleep }),
        ModuleKind::Usb => Module::Usb(UsbModule { probe: host.usb }),
        ModuleKind::Mount => Module::Mount(MountModule { probe: host.mount }),
    }
}

impl DiagnosticModule for Module {
    open spec fn name_text(&self) -> Seq<char> {
        self.spec_kind().name_text()
    }

    open spec fn description_text(&self) -> Seq<char> {
        match *self {
            Module::Boot(m) => m.description_text(),
            Module::Cpu(m) => m.description_text(),
            Module::Mem(m) => m.description_text(),
            Module::Disk(m) => m.description_text(),
            Module::Io(m) => m.description_text(),
            Module::Net(m) => m.description_text(),
            Module::Fan(m) => m.description_text(),
            Module::Temp(m) => m.description_text(),
            Module::Gpu(m) => m.description_text(),
            Module::Batt(m) => m.description_text(),
            Module::Sleep(m) => m.description_text(),
            Module::Usb(m) => m.description_text(),
            Module::Mount(m) => m.description_text(),
        }
    }

    open spec fn available(&self) -> bool {
        match *self {
            Module::Boot(m) => m.available(),
            Module::Gpu(m) => m.available(),
            _ => true,
        }
    }

    open spec fn run_allows(
        &self,
        config: ModuleConfigView,
        outcome: Result<ReportView, ExecutionErrorView>,
    ) -> bool {
        match *self {
            Module::Boot(m) => m.run_allows(config, outcome),
            Module::Cpu(m) => m.run_allows(config, outcome),
            Module::Mem(m) => m.run_allows(config, outcome),
            Module::Disk(m) => m.run_allows(config, outcome),
            Module::Io(m) => m.run_allows(config, outcome),
            Module::Net(m) => m.run_allows(config, outcome),
            Module::Fan(m) => m.run_allows(config, outcome),
            Module::Temp(m) => m.run_allows(config, outcome),
            Module::Gpu(m) => m.run_allows(config, outcome),
            Module::Batt(m) => m.run_allows(config, outcome),
            Module::Sleep(m) => m.run_allows(config, outcome),
            Module::Usb(m) => m.run_allows(config, outcome),
            Module::Mount(m) => m.run_allows(config, outcome),
        }
    }

    fn name(&self) -> (r: &'static str) {
        self.kind().name()
    }

    fn description(&self) -> (r: &'static str) {
        match self {
            Module::Boot(m) => m.description(),
            Module::Cpu(m) => m.description(),
            Module::Mem(m) => m.description(),
            Module::Disk(m) => m.description(),
            Module::Io(m) => m.description(),
            Module::Net(m) => m.description(),
            Module::Fan(m) => m.description(),
            Module::Temp(m) => m.description(),
            Module::Gpu(m) => m.description(),
            Module::Batt(m) => m.description(),
            Module::Sleep(m) => m.description(),
            Module::Usb(m) => m.description(),
            Module::Mount(m) => m.description(),
        }
    }

    fn is_available(&self) -> (b: bool) {
        match self {
            Module::Boot(m) => m.is_available(),
            Module::Gpu(m) => m.is_available(),
            _ => true,
        }
    }

    fn run(&self, config: &ModuleConfig) -> (r: Result<DiagnosticReport, ExecutionError>) {
        match self {
            Module::Boot(m) => m.run(config),
            Module::Cpu(m) => m.run(config),
            Module::Mem(m) => m.run(config),
            Module::Disk(m) => m.run(config),
            Module::Io(m) => m.run(config),
            Module::Net(m) => m.run(config),
            Module::Fan(m) => m.run(config),
            Module::Temp(m) => m.run(config),
            Module::Gpu(m) => m.run(config),
            Module::Batt(m) => m.run(config),
            Module::Sleep(m) => m.run(config),
            Module::Usb(m) => m.run(config),
            Module::Mount(m) => m.run(config),
        }
    }
}

/// Return the module for the given name, if any, on what was read from the host.
pub fn get_module(name: &str, host: Host) -> (r: Option<Module>)
    ensures
        r == match kind_named(name@) {
            Some(kind) => Some(module_on(kind, host)),
            None => None,
        },
{
    match kind_of(name) {
        Some(ModuleKind::Boot) => Some(Module::Boot(BootModule { probe: host.boot })),
        Some(ModuleKind::Cpu) => Some(Module::Cpu(CpuModule { probe: host.cpu })),
        Some(ModuleKind::Mem) => Some(Module::Mem(MemModule { probe: host.mem })),
        Some(ModuleKind::Disk) => Some(Module::Disk(DiskModule { probe: host.disk })),
        Some(ModuleKind::Io) => Some(Module::Io(IoModule { probe: host.io })),
        Some(ModuleKind::Net) => Some(Module::Net(NetModule { probe: host.net })),
        Some(ModuleKind::Fan) => Some(Module::Fan(FanModule { probe: host.fan })),
        Some(ModuleKind::Temp) => Some(Module::Temp(TempModule { probe: host.temp })),
        Some(ModuleKind::Gpu) => Some(Module::Gpu(GpuModule { probe: host.gpu })),
        Some(ModuleKind::Batt) => Some(Module::Batt(BattModule { probe: host.batt })),
        Some(ModuleKind::Sleep) => Some(Module::Sleep(SleepModule { probe: host.sleep })),
        Some(ModuleKind::Usb) => Some(Module::Usb(UsbModule { probe: host.usb })),
        Some(ModuleKind::Mount) => Some(Module::Mount(MountModule { probe: host.mount })),
        None => None,
    }
}

/// Return all diagnostic modules in a fixed order, on what was read from the host.
pub fn all_modules(host: Host) -> (r: Vec<Module>)
    ensures
        r@ == run_order().map_values(|kind: ModuleKind| module_on(kind, host)),
{
    let mut all: Vec<Module> = Vec::new();
    all.push(Module::Boot(BootModule { probe: host.boot }));
    all.push(Module::Cpu(CpuModule { probe: host.cpu }));
    all.push(Module::Mem(MemModule { probe: host.mem }));
    all.push(Module::Disk(DiskModule { probe: host.disk }));
    all.push(Module::Io(IoModule { probe: host.io }));
    all.push(Module::Net(NetModule { probe: host.net }));
    all.push(Module::Fan(FanModule { probe: host.fan }));
    all.push(Module::Temp(TempModule { probe: host.temp }));
    all.push(Module::Gpu(GpuModule { probe: host.gpu }));
    all.push(Module::Batt(BattModule { probe: host.batt }));
    all.push(Module::Sleep(SleepModule { probe: host.sleep }));
    all.push(Module::Usb(UsbModule { probe: host.usb }));
    all.push(Module::Mount(MountModule { probe: host.mount }));
    assert(all@ =~= run_order().map_values(|kind: ModuleKind| module_on(kind, host)));
    all
}

/// No module of this library fails: whatever its run may return is a report.
pub proof fn lemma_modules_never_fail(
    module: Module,
    config: ModuleConfigView,
    outcome: Result<ReportView, ExecutionErrorView>,
)
    requires
        module.run_allows(config, outcome),
    ensures
        outcome is Ok,
{
}

/// The order of a full run names each module once.
pub proof fn lemma_run_order_is_complete(kind: ModuleKind)
    ensures
        run_order().len() == 13,
        exists|i: int| 0 <= i < 13 && run_order()[i] == kind,
        forall|i: int, j: int| 0 <= i < j < 13 ==> run_order()[i] != run_order()[j],
{
    let order = run_order();
    match kind {
        ModuleKind::Boot => assert(order[0] == kind),
        ModuleKind::Cpu => assert(order[1] == kind),
        ModuleKind::Mem => assert(order[2] == kind),
        ModuleKind::Disk => assert(order[3] == kind),
        ModuleKind::Io => assert(order[4] == kind),
        ModuleKind::Net => assert(order[5] == kind),
        ModuleKind::Fan => assert(order[6] == kind),
        ModuleKind::Temp => assert(order[7] == kind),
        ModuleKind::Gpu => assert(order[8] == kind),
        ModuleKind::Batt => assert(order[9] == kind),
        ModuleKind::Sleep => assert(order[10] == kind),
        ModuleKind::Usb => assert(order[11] == kind),
        ModuleKind::Mount => assert(order[12] == kind),
    }
}

} // verus!
