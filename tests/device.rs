use aurelay_engine::device::{
    contains_chars, is_preferred_name, is_preferred_name_folded, select_device,
    select_device_folded, DeviceChoice,
};

fn names(list: &[Option<&str>]) -> Vec<Option<String>> {
    list.iter().map(|n| n.map(|s| s.to_string())).collect()
}

fn chars(s: &str) -> Vec<char> {
    s.chars().collect()
}

#[test]
fn monitor_source_is_preferred_over_earlier_microphone() {
    let list = names(&[Some("Built-in Microphone"), Some("Monitor of Built-in Audio")]);
    assert_eq!(select_device(&list), DeviceChoice::Listed(1));
}

#[test]
fn analog_stereo_matches_case_insensitively() {
    let list = names(&[Some("USB Mic"), Some("Built-in Audio ANALOG STEREO"), Some("x.monitor")]);
    assert_eq!(select_device(&list), DeviceChoice::Listed(1));
}

#[test]
fn unreadable_names_are_skipped() {
    let list = names(&[None, Some("webcam"), None, Some("speakers.monitor")]);
    assert_eq!(select_device(&list), DeviceChoice::Listed(3));
}

#[test]
fn no_preferred_device_falls_back_to_default() {
    let list = names(&[Some("Headset Microphone"), None, Some("Line In")]);
    assert_eq!(select_device(&list), DeviceChoice::SystemDefault);
    assert_eq!(select_device(&Vec::new()), DeviceChoice::SystemDefault);
}

#[test]
fn preferred_name_needs_lowercasing() {
    assert!(is_preferred_name("MONITOR of Speakers"));
    assert!(!is_preferred_name_folded("MONITOR of Speakers"));
    assert!(is_preferred_name_folded("monitor of speakers"));
    assert!(!is_preferred_name("Analog Mono"));
    assert!(!is_preferred_name(""));
}

#[test]
fn folded_selection_uses_names_as_given() {
    let list = names(&[Some("Monitor"), Some("analog stereo")]);
    assert_eq!(select_device_folded(&list), DeviceChoice::Listed(1));
}

#[test]
fn substring_search_edges() {
    assert!(contains_chars(&chars("abc"), &chars("")));
    assert!(contains_chars(&chars(""), &chars("")));
    assert!(!contains_chars(&chars("ab"), &chars("abc")));
    assert!(contains_chars(&chars("xxabc"), &chars("abc")));
    assert!(!contains_chars(&chars("abxc"), &chars("abc")));
    assert!(contains_chars(&chars("ünïcode monitor"), &chars("monitor")));
}
