//! Compute-device selection: prefer the CPU when asked, otherwise the first
//! accelerator that is available, otherwise fall back to the CPU.
use vstd::prelude::*;

verus! {

/// The kind of compute device inference runs on.
#[derive(Clone, Copy, PartialEq, Eq, Structural, Debug)]
pub enum DeviceKind {
    Cpu,
    Cuda,
    Metal,
}

impl DeviceKind {
    pub fn is_cpu(&self) -> (r: bool)
        ensures
            r == (*self is Cpu),
    {
        match self {
            DeviceKind::Cpu => true,
            _ => false,
        }
    }
}

/// Probes for the accelerators the host offers. The default implementation
/// asks the compute library; other implementations stand in where the probe
/// itself must be controlled.
pub trait DeviceUtils {
    fn cuda_is_available(&self) -> bool;

    fn metal_is_available(&self) -> bool;
}

/// Probes the host through the compute library.
pub struct DefaultDeviceUtils;

/// Relies on candle_core::utils::cuda_is_available: whether a CUDA device can
/// be used on this host. The answer is the machine's, so nothing is promised
/// of it.
#[verifier::external_body]
fn candle_cuda_is_available() -> bool {
    candle_core::utils::cuda_is_available()
}

/// Relies on candle_core::utils::metal_is_available: whether a Metal device
/// can be used on this host. The answer is the machine's, so nothing is
/// promised of it.
#[verifier::external_body]
fn candle_metal_is_available() -> bool {
    candle_core::utils::metal_is_available()
}

impl DeviceUtils for DefaultDeviceUtils {
    fn cuda_is_available(&self) -> bool {
        candle_cuda_is_available()
    }

    fn metal_is_available(&self) -> bool {
        candle_metal_is_available()
    }
}

/// The device the service runs on, given the caller's CPU preference and the
/// two availability probes: the CPU when preferred, else CUDA when available,
/// else Metal when available, else the CPU.
pub open spec fn chosen_device(cpu: bool, cuda: bool, metal: bool) -> DeviceKind {
    if cpu {
        DeviceKind::Cpu
    } else if cuda {
        DeviceKind::Cuda
    } else if metal {
        DeviceKind::Metal
    } else {
        DeviceKind::Cpu
    }
}

/// Picks the device from a CPU preference and the two probe answers.
pub fn choose_device(cpu: bool, cuda: bool, metal: bool) -> (r: DeviceKind)
    ensures
        r == chosen_device(cpu, cuda, metal),
{
    if cpu {
        DeviceKind::Cpu
    } else if cuda {
        DeviceKind::Cuda
    } else if metal {
        DeviceKind::Metal
    } else {
        DeviceKind::Cpu
    }
}

/// Selects the computing device: the CPU when preferred (without probing),
/// otherwise whatever `choose_device` picks from the given probes' answers.
pub fn select_computing_device<U: DeviceUtils>(cpu: bool, utils: &U) -> (r: DeviceKind)
    ensures
        cpu ==> r is Cpu,
{
    if cpu {
        return DeviceKind::Cpu;
    }
    let cuda = utils.cuda_is_available();
    let metal = utils.metal_is_available();
    choose_device(false, cuda, metal)
}

} // verus!
