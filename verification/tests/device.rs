use stream_intro::device::{Device, DeviceCatalog, DeviceEnumerationError};

fn device(id: &str, name: &str, supports_capture: bool) -> Device {
    Device { id: id.to_string(), name: name.to_string(), supports_capture }
}

#[test]
fn host_without_capture_devices_lists_nothing() {
    let host = vec![device("hdmi", "HDMI Output", false), device("spk", "Speakers", false)];
    assert_eq!(DeviceCatalog::list_capture_devices(Some(host)), Ok(Vec::new()));
}

#[test]
fn host_without_devices_lists_nothing() {
    assert_eq!(DeviceCatalog::list_capture_devices(Some(Vec::new())), Ok(Vec::new()));
}

#[test]
fn host_that_cannot_be_asked_is_an_error() {
    assert_eq!(DeviceCatalog::list_capture_devices(None), Err(DeviceEnumerationError));
}

#[test]
fn listing_keeps_capture_devices_in_host_order() {
    let host = vec![
        device("mic", "Built-in Microphone", true),
        device("spk", "Speakers", false),
        device("usb", "USB Interface", true),
        device("mon", "Monitor of Speakers", true),
    ];
    assert_eq!(
        DeviceCatalog::list_capture_devices(Some(host)),
        Ok(vec![
            device("mic", "Built-in Microphone", true),
            device("usb", "USB Interface", true),
            device("mon", "Monitor of Speakers", true),
        ])
    );
}

#[test]
fn capture_devices_of_a_borrowed_listing() {
    let host = vec![device("a", "A", false), device("b", "B", true)];
    assert_eq!(DeviceCatalog::capture_devices(&host), vec![device("b", "B", true)]);
    assert_eq!(host.len(), 2);
}

#[test]
fn find_gives_the_first_device_with_the_identifier() {
    let devices = vec![
        device("mic", "Built-in Microphone", true),
        device("usb", "USB Interface", true),
        device("usb", "USB Interface (2)", true),
    ];
    assert_eq!(DeviceCatalog::find(&devices, &"mic".to_string()), Some(0));
    assert_eq!(DeviceCatalog::find(&devices, &"usb".to_string()), Some(1));
}

#[test]
fn find_does_not_know_other_identifiers() {
    let devices = vec![device("mic", "Built-in Microphone", true)];
    assert_eq!(DeviceCatalog::find(&devices, &"Built-in Microphone".to_string()), None);
    assert_eq!(DeviceCatalog::find(&devices, &"".to_string()), None);
    assert_eq!(DeviceCatalog::find(&Vec::new(), &"mic".to_string()), None);
}

#[test]
fn clone_of_a_device_is_equal_to_it() {
    let original = device("mic", "Built-in Microphone", true);
    let copy = original.clone();
    assert_eq!(copy, original);
    assert_eq!(copy.name, "Built-in Microphone");
}
