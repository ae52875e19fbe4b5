//! Proc-address resolution: deciding, for a queried entry-point name, whether
//! the layer answers with one of its own implementations or defers to the next
//! link in the chain.

use vstd::prelude::*;

verus! {

/// The entry points this layer intercepts.
#[derive(Clone, Copy, PartialEq, Eq, Structural, Debug)]
pub enum LayerFn {
    GetInstanceProcAddr,
    GetDeviceProcAddr,
    CreateInstance,
    DestroyInstance,
    CreateDevice,
    DestroyDevice,
    EnumerateInstanceLayerProperties,
    EnumerateDeviceLayerProperties,
    QueuePresentKHR,
}

/// The outcome of a proc-address query.
#[derive(Clone, Copy, PartialEq, Eq, Structural, Debug)]
pub enum Resolution {
    /// The name pointer was null: an error, answered with a null address and
    /// no further action.
    NullName,
    /// The name is one of the layer's own entry points; the layer's
    /// implementation of exactly that function is returned.
    Layer(LayerFn),
    /// Any other name: the answer is whatever the next link in the chain
    /// returns, unmodified.
    Chain,
}

/// Which of the layer's own entry points a name denotes, if any.
///
/// The two proc-address query functions come first: a query for the resolver
/// itself must answer with the layer's own query function before the general
/// intercepted set is consulted, so the loader can keep calling through the
/// layer if it requeries its own entry point mid-chain.
pub open spec fn intercepted_of(name: Seq<char>) -> Option<LayerFn> {
    if name == "vkGetInstanceProcAddr"@ {
        Some(LayerFn::GetInstanceProcAddr)
    } else if name == "vkGetDeviceProcAddr"@ {
        Some(LayerFn::GetDeviceProcAddr)
    } else if name == "vkCreateInstance"@ {
        Some(LayerFn::CreateInstance)
    } else if name == "vkDestroyInstance"@ {
        Some(LayerFn::DestroyInstance)
    } else if name == "vkCreateDevice"@ {
        Some(LayerFn::CreateDevice)
    } else if name == "vkDestroyDevice"@ {
        Some(LayerFn::DestroyDevice)
    } else if name == "vkEnumerateInstanceLayerProperties"@ {
        Some(LayerFn::EnumerateInstanceLayerProperties)
    } else if name == "vkEnumerateDeviceLayerProperties"@ {
        Some(LayerFn::EnumerateDeviceLayerProperties)
    } else if name == "vkQueuePresentKHR"@ {
        Some(LayerFn::QueuePresentKHR)
    } else {
        None
    }
}

/// What a proc-address query resolves to.
pub open spec fn resolution_of(name: Option<Seq<char>>) -> Resolution {
    match name {
        None => Resolution::NullName,
        Some(n) => match intercepted_of(n) {
            Some(f) => Resolution::Layer(f),
            None => Resolution::Chain,
        },
    }
}

/// Byte-exact string equality, the equality FunctionName is compared under.
fn str_eq(a: &str, b: &str) -> (r: bool)
    ensures
        r == (a@ == b@),
{
    let oa = a.to_owned();
    let ob = b.to_owned();
    oa == ob
}

/// Resolve a proc-address query for `name` (`None` stands for a null name
/// pointer). Both the instance-level and the device-level query use this
/// decision; only the chain they fall back to differs.
pub fn resolve(name: Option<&str>) -> (r: Resolution)
    ensures
        r == resolution_of(match name {
            Some(n) => Some(n@),
            None => None,
        }),
{
    let n = match name {
        None => { return Resolution::NullName; },
        Some(n) => n,
    };
    if str_eq(n, "vkGetInstanceProcAddr") {
        Resolution::Layer(LayerFn::GetInstanceProcAddr)
    } else if str_eq(n, "vkGetDeviceProcAddr") {
        Resolution::Layer(LayerFn::GetDeviceProcAddr)
    } else if str_eq(n, "vkCreateInstance") {
        Resolution::Layer(LayerFn::CreateInstance)
    } else if str_eq(n, "vkDestroyInstance") {
        Resolution::Layer(LayerFn::DestroyInstance)
    } else if str_eq(n, "vkCreateDevice") {
        Resolution::Layer(LayerFn::CreateDevice)
    } else if str_eq(n, "vkDestroyDevice") {
        Resolution::Layer(LayerFn::DestroyDevice)
    } else if str_eq(n, "vkEnumerateInstanceLayerProperties") {
        Resolution::Layer(LayerFn::EnumerateInstanceLayerProperties)
    } else if str_eq(n, "vkEnumerateDeviceLayerProperties") {
        Resolution::Layer(LayerFn::EnumerateDeviceLayerProperties)
    } else if str_eq(n, "vkQueuePresentKHR") {
        Resolution::Layer(LayerFn::QueuePresentKHR)
    } else {
        Resolution::Chain
    }
}

/// The addresses of the layer's own implementations of the intercepted entry
/// points, as the surrounding ABI code installed them. An address of 0 stands
/// for a null ProcAddress.
pub struct LayerAddresses {
    pub get_instance_proc_addr: usize,
    pub get_device_proc_addr: usize,
    pub create_instance: usize,
    pub destroy_instance: usize,
    pub create_device: usize,
    pub destroy_device: usize,
    pub enumerate_instance_layer_properties: usize,
    pub enumerate_device_layer_properties: usize,
    pub queue_present_khr: usize,
}

impl LayerAddresses {
    /// A table is well formed when every intercepted entry point has a
    /// non-null implementation installed.
    pub open spec fn wf(&self) -> bool {
        &&& self.get_instance_proc_addr != 0
        &&& self.get_device_proc_addr != 0
        &&& self.create_instance != 0
        &&& self.destroy_instance != 0
        &&& self.create_device != 0
        &&& self.destroy_device != 0
        &&& self.enumerate_instance_layer_properties != 0
        &&& self.enumerate_device_layer_properties != 0
        &&& self.queue_present_khr != 0
    }

    /// The address recorded for one intercepted entry point.
    pub open spec fn spec_addr_of(&self, f: LayerFn) -> usize {
        match f {
            LayerFn::GetInstanceProcAddr => self.get_instance_proc_addr,
            LayerFn::GetDeviceProcAddr => self.get_device_proc_addr,
            LayerFn::CreateInstance => self.create_instance,
            LayerFn::DestroyInstance => self.destroy_instance,
            LayerFn::CreateDevice => self.create_device,
            LayerFn::DestroyDevice => self.destroy_device,
            LayerFn::EnumerateInstanceLayerProperties => self.enumerate_instance_layer_properties,
            LayerFn::EnumerateDeviceLayerProperties => self.enumerate_device_layer_properties,
            LayerFn::QueuePresentKHR => self.queue_present_khr,
        }
    }

    /// Look up the layer's own implementation of an intercepted entry point;
    /// in a well-formed table the answer is never null.
    pub fn addr_of(&self, f: LayerFn) -> (r: usize)
        ensures
            r == self.spec_addr_of(f),
            self.wf() ==> r != 0,
    {
        match f {
            LayerFn::GetInstanceProcAddr => self.get_instance_proc_addr,
            LayerFn::GetDeviceProcAddr => self.get_device_proc_addr,
            LayerFn::CreateInstance => self.create_instance,
            LayerFn::DestroyInstance => self.destroy_instance,
            LayerFn::CreateDevice => self.create_device,
            LayerFn::DestroyDevice => self.destroy_device,
            LayerFn::EnumerateInstanceLayerProperties => self.enumerate_instance_layer_properties,
            LayerFn::EnumerateDeviceLayerProperties => self.enumerate_device_layer_properties,
            LayerFn::QueuePresentKHR => self.queue_present_khr,
        }
    }
}

/// Law: a query for any name in the intercepted set resolves to the layer's
/// own implementation of that name, which is non-null in a well-formed
/// address table; a query for any other name falls through to the chain, so
/// the caller sees exactly what the chain returns (null, in a chain of
/// length one).
pub proof fn lemma_resolution_covers_intercepted_set(table: LayerAddresses, name: Seq<char>)
    requires
        table.wf(),
    ensures
        intercepted_of(name) matches Some(f) ==> resolution_of(Some(name)) == Resolution::Layer(f)
            && table.spec_addr_of(f) != 0,
        intercepted_of(name) is None ==> resolution_of(Some(name)) == Resolution::Chain,
{
    match intercepted_of(name) {
        Some(f) => {
            assert(table.spec_addr_of(f) != 0);
        },
        None => {},
    }
}

} // verus!
