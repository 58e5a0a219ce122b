use volkeys::locator::{locate, target_device_name, DeviceEntry};
use volkeys::text::contains_substr;

fn entry(path: &str, name: Option<&str>) -> DeviceEntry {
    DeviceEntry {
        path: path.to_string(),
        name: name.map(|n| n.to_string()),
    }
}

#[test]
fn locator_picks_matching_device() {
    let devices = vec![
        entry("/dev/input/event3", Some("Generic Mouse")),
        entry("/dev/input/event7", Some("Corne Keyboard Pro")),
    ];
    let r = locate(&devices, target_device_name());
    assert_eq!(r, Some("/dev/input/event7".to_string()));
}

#[test]
fn locator_picks_first_match_in_enumeration_order() {
    let devices = vec![
        entry("/dev/input/event1", Some("Corne Keyboard")),
        entry("/dev/input/event2", Some("Corne Keyboard Pro")),
    ];
    let r = locate(&devices, target_device_name());
    assert_eq!(r, Some("/dev/input/event1".to_string()));
}

#[test]
fn locator_skips_devices_without_readable_name() {
    let devices = vec![
        entry("/dev/input/event0", None),
        entry("/dev/input/event1", Some("Corne Keyboard")),
    ];
    let r = locate(&devices, target_device_name());
    assert_eq!(r, Some("/dev/input/event1".to_string()));
}

#[test]
fn locator_signals_absence_when_nothing_matches() {
    let devices = vec![
        entry("/dev/input/event3", Some("Generic Mouse")),
        entry("/dev/input/event4", Some("Webcam")),
        entry("/dev/input/event5", None),
    ];
    let r = locate(&devices, target_device_name());
    assert_eq!(r, None);
}

#[test]
fn locator_on_empty_device_list() {
    let devices: Vec<DeviceEntry> = Vec::new();
    assert_eq!(locate(&devices, target_device_name()), None);
}

#[test]
fn substring_match_is_by_containment() {
    assert!(contains_substr("Corne Keyboard Pro", "Corne Keyboard"));
    assert!(contains_substr("Corne Keyboard", "Corne Keyboard"));
    assert!(contains_substr("anything", ""));
    assert!(!contains_substr("Corne Keyboar", "Corne Keyboard"));
    assert!(!contains_substr("", "Corne Keyboard"));
    assert!(!contains_substr("corne keyboard", "Corne Keyboard"));
}
