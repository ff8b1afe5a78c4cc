use pipper::camera::describe;
use pipper::camera::list_cameras;
use pipper::camera::CameraDevice;

fn device(index: &str, human_name: &str, description: &str) -> CameraDevice {
    CameraDevice {
        index: index.to_string(),
        human_name: human_name.to_string(),
        description: description.to_string(),
    }
}

#[test]
fn descriptor_combines_index_name_and_description() {
    let d = device("0", "Integrated Camera", "USB 2.0");
    assert_eq!(describe(&d), "0 - Integrated Camera: USB 2.0");
}

#[test]
fn zero_devices_give_an_empty_list_not_an_error() {
    let descriptors = list_cameras(&vec![]);
    assert!(descriptors.is_empty());
}

#[test]
fn devices_are_listed_in_backend_order() {
    let devices = vec![
        device("0", "Front", "built-in"),
        device("1", "Rear", "usb"),
    ];
    let descriptors = list_cameras(&devices);
    assert_eq!(descriptors, vec!["0 - Front: built-in", "1 - Rear: usb"]);
}
