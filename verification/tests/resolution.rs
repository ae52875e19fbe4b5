use goopinator::resolver::{resolve, LayerAddresses, LayerFn, Resolution};

fn sample_table() -> LayerAddresses {
    LayerAddresses {
        get_instance_proc_addr: 0x1000,
        get_device_proc_addr: 0x1001,
        create_instance: 0x1002,
        destroy_instance: 0x1003,
        create_device: 0x1004,
        destroy_device: 0x1005,
        enumerate_instance_layer_properties: 0x1006,
        enumerate_device_layer_properties: 0x1007,
        queue_present_khr: 0x1008,
    }
}

#[test]
fn intercepted_names_resolve_to_layer() {
    let cases = [
        ("vkGetInstanceProcAddr", LayerFn::GetInstanceProcAddr),
        ("vkGetDeviceProcAddr", LayerFn::GetDeviceProcAddr),
        ("vkCreateInstance", LayerFn::CreateInstance),
        ("vkDestroyInstance", LayerFn::DestroyInstance),
        ("vkCreateDevice", LayerFn::CreateDevice),
        ("vkDestroyDevice", LayerFn::DestroyDevice),
        (
            "vkEnumerateInstanceLayerProperties",
            LayerFn::EnumerateInstanceLayerProperties,
        ),
        (
            "vkEnumerateDeviceLayerProperties",
            LayerFn::EnumerateDeviceLayerProperties,
        ),
        ("vkQueuePresentKHR", LayerFn::QueuePresentKHR),
    ];
    for (name, expected) in cases {
        assert_eq!(resolve(Some(name)), Resolution::Layer(expected));
    }
}

#[test]
fn intercepted_names_have_non_null_addresses() {
    let table = sample_table();
    let fns = [
        LayerFn::GetInstanceProcAddr,
        LayerFn::GetDeviceProcAddr,
        LayerFn::CreateInstance,
        LayerFn::DestroyInstance,
        LayerFn::CreateDevice,
        LayerFn::DestroyDevice,
        LayerFn::EnumerateInstanceLayerProperties,
        LayerFn::EnumerateDeviceLayerProperties,
        LayerFn::QueuePresentKHR,
    ];
    for f in fns {
        assert_ne!(table.addr_of(f), 0);
    }
    assert_eq!(table.addr_of(LayerFn::QueuePresentKHR), 0x1008);
    assert_eq!(table.addr_of(LayerFn::GetInstanceProcAddr), 0x1000);
}

#[test]
fn unknown_name_falls_through_to_chain() {
    assert_eq!(resolve(Some("vkCmdDraw")), Resolution::Chain);
    assert_eq!(resolve(Some("vkQueuePresentKH")), Resolution::Chain);
    assert_eq!(resolve(Some("")), Resolution::Chain);
}

#[test]
fn name_equality_is_byte_exact() {
    // No case folding, no prefix matching.
    assert_eq!(resolve(Some("VKCREATEINSTANCE")), Resolution::Chain);
    assert_eq!(resolve(Some("vkcreateinstance")), Resolution::Chain);
    assert_eq!(resolve(Some("vkCreateInstanc")), Resolution::Chain);
    assert_eq!(resolve(Some("vkCreateInstanceX")), Resolution::Chain);
}

#[test]
fn null_name_is_an_error() {
    assert_eq!(resolve(None), Resolution::NullName);
}

#[test]
fn query_functions_resolve_to_themselves() {
    // The resolver's own query entry points answer with the layer's
    // implementation of exactly the queried function.
    assert_eq!(
        resolve(Some("vkGetInstanceProcAddr")),
        Resolution::Layer(LayerFn::GetInstanceProcAddr)
    );
    assert_eq!(
        resolve(Some("vkGetDeviceProcAddr")),
        Resolution::Layer(LayerFn::GetDeviceProcAddr)
    );
}
