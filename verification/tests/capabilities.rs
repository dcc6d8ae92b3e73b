use graphics::capabilities::{bytes_eq, check_instance_capabilities, contains_name, find_missing};
use graphics::error::{GraphicsError, InitError};

fn names(xs: &[&str]) -> Vec<Vec<u8>> {
    xs.iter().map(|s| s.as_bytes().to_vec()).collect()
}

#[test]
fn byte_names_compare_by_content() {
    assert!(bytes_eq(&b"VK_KHR_surface".to_vec(), &b"VK_KHR_surface".to_vec()));
    assert!(!bytes_eq(&b"VK_KHR_surface".to_vec(), &b"VK_KHR_surfac".to_vec()));
    assert!(!bytes_eq(&b"VK_KHR_surface".to_vec(), &b"VK_KHR_surfacf".to_vec()));
    assert!(bytes_eq(&Vec::new(), &Vec::new()));
}

#[test]
fn membership_is_by_content() {
    let list = names(&["VK_KHR_surface", "VK_EXT_debug_utils"]);
    assert!(contains_name(&list, &b"VK_EXT_debug_utils".to_vec()));
    assert!(!contains_name(&list, &b"VK_KHR_swapchain".to_vec()));
}

#[test]
fn all_required_present_is_accepted() {
    let req = names(&["VK_KHR_surface", "VK_EXT_debug_utils"]);
    let avail = names(&["VK_EXT_debug_utils", "VK_KHR_surface", "VK_KHR_swapchain"]);
    assert!(find_missing(&req, &avail).is_none());
    let layers_req = names(&["VK_LAYER_KHRONOS_validation"]);
    let layers_avail = names(&["VK_LAYER_KHRONOS_validation"]);
    assert!(check_instance_capabilities(&req, &avail, &layers_req, &layers_avail).is_ok());
}

#[test]
fn first_missing_extension_is_named() {
    let req = names(&["VK_KHR_surface", "VK_KHR_wayland_surface", "VK_KHR_xlib_surface"]);
    let avail = names(&["VK_KHR_surface"]);
    assert_eq!(find_missing(&req, &avail), Some(1));
    let layers = names(&[]);
    match check_instance_capabilities(&req, &avail, &layers, &layers) {
        Err(InitError::MissingCapability(n)) => {
            assert_eq!(n, b"VK_KHR_wayland_surface".to_vec());
        }
        other => panic!("expected a missing capability, got {:?}", other),
    }
}

#[test]
fn missing_layer_is_named_after_extensions_pass() {
    let ext_req = names(&["VK_KHR_surface"]);
    let ext_avail = names(&["VK_KHR_surface"]);
    let layer_req = names(&["VK_LAYER_KHRONOS_validation"]);
    let layer_avail = names(&[]);
    match check_instance_capabilities(&ext_req, &ext_avail, &layer_req, &layer_avail) {
        Err(InitError::MissingCapability(n)) => {
            assert_eq!(n, b"VK_LAYER_KHRONOS_validation".to_vec());
        }
        other => panic!("expected a missing capability, got {:?}", other),
    }
}

#[test]
fn wrapper_error_carries_its_message() {
    let e = GraphicsError::DeviceInitializationFailed(String::from("no adapter"));
    assert_eq!(e.into_message(), "no adapter");
}
