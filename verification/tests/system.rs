use scrcpy_gui_lib::commands::system::{
    list_v4l2_devices_impl, parse_version_parts, read_scrcpy_version,
};

#[test]
fn parse_standard_version() {
    assert_eq!(parse_version_parts("3.3.4"), (3, 3, 4));
}

#[test]
fn parse_major_minor_only() {
    assert_eq!(parse_version_parts("2.1"), (2, 1, 0));
}

#[test]
fn parse_major_only() {
    assert_eq!(parse_version_parts("4"), (4, 0, 0));
}

#[test]
fn parse_empty_string() {
    assert_eq!(parse_version_parts(""), (0, 0, 0));
}

#[test]
fn parse_non_numeric() {
    assert_eq!(parse_version_parts("abc.def.ghi"), (0, 0, 0));
}

#[test]
fn parse_large_version() {
    assert_eq!(parse_version_parts("10.20.30"), (10, 20, 30));
}

#[test]
fn parse_version_edge_cases() {
    assert_eq!(parse_version_parts("1.2.3.4"), (1, 2, 3));
    assert_eq!(parse_version_parts("1..3"), (1, 0, 3));
    assert_eq!(parse_version_parts(".5"), (0, 5, 0));
    assert_eq!(parse_version_parts("7."), (7, 0, 0));
    assert_eq!(parse_version_parts("+2.03.x"), (2, 3, 0));
    assert_eq!(parse_version_parts("-1.2.3"), (0, 2, 3));
    assert_eq!(parse_version_parts("4294967295.4294967296.1"), (4294967295, 0, 1));
    assert_eq!(parse_version_parts("3.3.4-beta"), (3, 3, 0));
}

fn names(list: &[&str]) -> Vec<String> {
    list.iter().map(|n| n.to_string()).collect()
}

#[test]
fn v4l2_impl_returns_sorted_list() {
    let devices = list_v4l2_devices_impl(&names(&[
        "video2", "tty0", "video10", "sda", "video0", "null", "video1",
    ]));
    // Verify sorted
    for w in devices.windows(2) {
        assert!(w[0] <= w[1], "devices should be sorted");
    }
}

#[test]
fn v4l2_impl_returns_empty_on_non_linux() {
    // Where /dev holds no video devices, none are listed.
    let devices = list_v4l2_devices_impl(&names(&[]));
    assert!(devices.is_empty());
    let devices = list_v4l2_devices_impl(&names(&["tty0", "sda", "vide", "Video0", "myvideo1"]));
    assert!(devices.is_empty());
}

#[test]
fn v4l2_devices_are_the_video_entries_in_the_order_of_strings() {
    let devices = list_v4l2_devices_impl(&names(&[
        "video2", "tty0", "video10", "video", "video0", "video1", "video2", "videoé", "video-z",
    ]));
    let mut expected = vec![
        "/dev/video2", "/dev/video10", "/dev/video", "/dev/video0", "/dev/video1", "/dev/video2",
        "/dev/videoé", "/dev/video-z",
    ];
    expected.sort();
    assert_eq!(devices, expected);
    assert_eq!(devices[0], "/dev/video");
    assert_eq!(devices[1], "/dev/video-z");
    assert_eq!(devices[3], "/dev/video1");
    assert_eq!(devices[4], "/dev/video10");
}

#[test]
fn scrcpy_version_is_the_second_word_of_the_first_line() {
    let info = read_scrcpy_version("scrcpy 3.3.4 <https://github.com/Genymobile/scrcpy>\n\nDependencies:\n", "").unwrap();
    assert_eq!((info.major, info.minor, info.patch), (3, 3, 4));
    assert_eq!(info.raw, "3.3.4");
    // Printed to the error stream.
    let info = read_scrcpy_version(" \n", "scrcpy v2.1-beta\n").unwrap();
    assert_eq!((info.major, info.minor, info.patch), (0, 0, 0));
    assert_eq!(info.raw, "v2.1-beta");
    let info = read_scrcpy_version(" \n", "scrcpy 2.1.x\n").unwrap();
    assert_eq!((info.major, info.minor, info.patch), (2, 1, 0));
    // Standard output wins when it holds anything.
    let info = read_scrcpy_version("x 1.2.3", "scrcpy 9.9.9").unwrap();
    assert_eq!(info.raw, "1.2.3");
}

#[test]
fn scrcpy_version_failures_quote_the_first_line() {
    assert_eq!(
        read_scrcpy_version("scrcpy\n3.3.4\n", "").unwrap_err(),
        "Cannot parse version from: scrcpy"
    );
    assert_eq!(
        read_scrcpy_version("", "").unwrap_err(),
        "Cannot parse version from: "
    );
    assert_eq!(
        read_scrcpy_version("\n", "  lonely \r\nmore words").unwrap_err(),
        "Cannot parse version from:   lonely "
    );
}
