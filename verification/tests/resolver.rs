use uvc_gadget::resolver::bound_gadget_entry;
use uvc_gadget::resolver::gadget_name_from_components;
use uvc_gadget::resolver::libcomposite_driver_dir;
use uvc_gadget::resolver::name_starts_with;
use uvc_gadget::resolver::video_device_path;
use uvc_gadget::resolver::DirEntry;
use uvc_gadget::resolver::UvcError;

#[test]
fn missing_driver_directory_means_not_bound() {
    assert_eq!(bound_gadget_entry(None), Err(UvcError::NotBound));
}

#[test]
fn listing_without_gadget_entry_means_not_bound() {
    let listing = vec!["unrelated".to_string(), "module".to_string()];
    assert_eq!(bound_gadget_entry(Some(&listing)), Err(UvcError::NotBound));
    let empty: Vec<String> = Vec::new();
    assert_eq!(bound_gadget_entry(Some(&empty)), Err(UvcError::NotBound));
}

#[test]
fn first_gadget_entry_wins() {
    let listing = vec![
        "bind".to_string(),
        "gadget.5".to_string(),
        "gadget.7".to_string(),
    ];
    assert_eq!(bound_gadget_entry(Some(&listing)), Ok("gadget.5".to_string()));
}

#[test]
fn missing_video4linux_means_not_bound() {
    assert_eq!(video_device_path(None), Err(UvcError::NotBound));
}

#[test]
fn first_video_directory_maps_to_dev() {
    let listing = vec![
        DirEntry { name: "video3".to_string(), is_dir: false },
        DirEntry { name: "uevent".to_string(), is_dir: true },
        DirEntry { name: "video1".to_string(), is_dir: true },
        DirEntry { name: "video2".to_string(), is_dir: true },
    ];
    assert_eq!(video_device_path(Some(&listing)), Ok("/dev/video1".to_string()));
}

#[test]
fn no_video_directory_means_not_bound() {
    let listing = vec![DirEntry { name: "power".to_string(), is_dir: true }];
    assert_eq!(video_device_path(Some(&listing)), Err(UvcError::NotBound));
}

#[test]
fn gadget_name_is_two_levels_up() {
    let comps: Vec<String> = ["sys", "kernel", "config", "usb_gadget", "g1", "functions", "uvc.0"]
        .iter()
        .map(|s| s.to_string())
        .collect();
    assert_eq!(gadget_name_from_components(&comps), Ok("g1".to_string()));
}

#[test]
fn short_ancestry_is_malformed() {
    let comps = vec!["uvc.0".to_string(), "functions".to_string()];
    assert_eq!(gadget_name_from_components(&comps), Err(UvcError::MalformedPath));
}

#[test]
fn driver_dir_is_derived_from_gadget_name() {
    assert_eq!(
        libcomposite_driver_dir("g1"),
        "/sys/module/libcomposite/drivers/gadget:configfs-gadget.g1"
    );
}

#[test]
fn prefix_test_matches_str_starts_with() {
    assert!(name_starts_with("gadget.5", "gadget."));
    assert!(name_starts_with("video0", "video"));
    assert!(name_starts_with("video", "video"));
    assert!(!name_starts_with("vide", "video"));
    assert!(!name_starts_with("avideo0", "video"));
    assert!(name_starts_with("anything", ""));
}
