//! The GPU-vendor probe's decision.
//!
//! At startup the surrounding application enumerates the machine's GPU
//! adapters and, when a rendering-capable adapter from the affected vendor
//! is found, toggles an environment flag that works around a known
//! rendering defect.  The enumeration and the flag are the application's
//! business; the decision — which adapters call for the workaround — is
//! verified here.

use vstd::prelude::*;

use crate::text;

verus! {

/// The class of a GPU adapter, as the enumeration reports it.
#[derive(Clone, Copy, Debug, PartialEq, Eq, Structural)]
pub enum GpuDeviceType {
    DiscreteGpu,
    IntegratedGpu,
    VirtualGpu,
    Cpu,
    Other,
}

/// What the enumeration reports about one adapter.
#[derive(Debug)]
pub struct GpuAdapterInfo {
    pub device_type: GpuDeviceType,
    pub name: String,
}

/// Mathematical image of a [`GpuAdapterInfo`].
pub ghost struct GpuAdapterView {
    pub device_type: GpuDeviceType,
    pub name: Seq<char>,
}

impl View for GpuAdapterInfo {
    type V = GpuAdapterView;

    open spec fn view(&self) -> GpuAdapterView {
        GpuAdapterView { device_type: self.device_type, name: self.name@ }
    }
}

impl DeepView for GpuAdapterInfo {
    type V = GpuAdapterView;

    open spec fn deep_view(&self) -> GpuAdapterView {
        self.view()
    }
}

/// The adapter renders: it is a discrete, integrated or virtual GPU.
pub open spec fn is_rendering_gpu(t: GpuDeviceType) -> bool {
    t is DiscreteGpu || t is IntegratedGpu || t is VirtualGpu
}

/// The marker of the affected vendor in an adapter's name.
pub open spec fn affected_vendor_marker() -> Seq<char> {
    "NVIDIA"@
}

/// The adapter calls for the rendering workaround: it renders and its name
/// carries the affected vendor's marker.
pub open spec fn workaround_needed(a: GpuAdapterView) -> bool {
    is_rendering_gpu(a.device_type) && text::contains_seq(a.name, affected_vendor_marker())
}

/// Decides whether one adapter calls for the rendering workaround.
pub fn adapter_needs_workaround(a: &GpuAdapterInfo) -> (r: bool)
    ensures
        r == workaround_needed(a@),
{
    let renders = match a.device_type {
        GpuDeviceType::DiscreteGpu => true,
        GpuDeviceType::IntegratedGpu => true,
        GpuDeviceType::VirtualGpu => true,
        _ => false,
    };
    renders && text::str_contains(a.name.as_str(), "NVIDIA")
}

/// Decides whether any enumerated adapter calls for the rendering
/// workaround; the environment flag is set exactly in that case.
pub fn any_adapter_needs_workaround(adapters: &Vec<GpuAdapterInfo>) -> (r: bool)
    ensures
        r == exists|i: int|
            0 <= i < adapters.deep_view().len() && workaround_needed(
                #[trigger] adapters.deep_view()[i],
            ),
{
    let n = adapters.len();
    let mut i: usize = 0;
    while i < n
        invariant
            n == adapters.len(),
            0 <= i <= n,
            forall|j: int| 0 <= j < i ==> !workaround_needed(#[trigger] adapters.deep_view()[j]),
        decreases n - i,
    {
        assert(adapters.deep_view()[i as int] == adapters@[i as int].deep_view());
        if adapter_needs_workaround(&adapters[i]) {
            return true;
        }
        i = i + 1;
    }
    false
}

} // verus!
