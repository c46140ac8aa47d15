//! The SDK and its virtual devices.

use android_emulator::error::EmulatorError;
use android_emulator::sdk::{
    adb_server, adb_tool, avds_in, check_tool, get_android_home, list_avds, BaseDir, Platform,
    SdkHome, ADB_PORT,
};

fn given(home: Result<SdkHome, EmulatorError>) -> String {
    match home {
        Ok(SdkHome::Given(path)) => path,
        _ => panic!("not given"),
    }
}

fn below(home: Result<SdkHome, EmulatorError>) -> Vec<&'static str> {
    match home {
        Ok(SdkHome::Below(parts)) => parts,
        _ => panic!("not below the base directory"),
    }
}

#[test]
fn the_environment_comes_first() {
    let s = |s: &str| Some(s.to_string());
    let all = vec![true, true];
    assert_eq!(given(get_android_home(Platform::Linux, s("/a"), s("/b"), Some(&all))), "/a");
    assert_eq!(given(get_android_home(Platform::Linux, None, s("/b"), Some(&all))), "/b");
    assert_eq!(given(get_android_home(Platform::Other, s(""), None, None)), "");
}

#[test]
fn default_locations_are_tried_in_order() {
    let home = |p, e: &Vec<bool>| get_android_home(p, None, None, Some(e));
    assert_eq!(below(home(Platform::Linux, &vec![true, true])), ["Android", "sdk"]);
    assert_eq!(below(home(Platform::Linux, &vec![false, true])), ["Android", "Sdk"]);
    assert_eq!(below(home(Platform::MacOs, &vec![true])), ["Library", "Android", "sdk"]);
    assert_eq!(below(home(Platform::Windows, &vec![true])), ["Android", "Sdk"]);
    for (p, e) in [
        (Platform::Linux, vec![false, false]),
        (Platform::MacOs, vec![false]),
        (Platform::Windows, vec![false]),
        (Platform::Other, vec![]),
    ] {
        assert!(matches!(home(p, &e), Err(EmulatorError::AndroidHomeNotFound)));
    }
    assert!(matches!(
        get_android_home(Platform::Linux, None, None, None),
        Err(EmulatorError::AndroidHomeNotFound)
    ));
}

#[test]
fn platforms_differ() {
    assert_eq!(Platform::Linux.base_dir(), BaseDir::Home);
    assert_eq!(Platform::MacOs.base_dir(), BaseDir::Home);
    assert_eq!(Platform::Windows.base_dir(), BaseDir::LocalData);
    assert_eq!(Platform::Linux.locations(), [["Android", "sdk"], ["Android", "Sdk"]]);
    assert_eq!(Platform::Linux.emulator_tool(), ["emulator", "emulator"]);
    assert_eq!(Platform::Windows.emulator_tool(), ["emulator", "emulator.exe"]);
}

#[test]
fn tools_are_found() {
    assert_eq!(adb_tool(), ["platform-tools", "adb"]);
    assert_eq!(ADB_PORT, 5037);
    assert_eq!(adb_server(Some("/sdk/adb".to_string())).unwrap(), "/sdk/adb");
    match adb_server(None) {
        Err(e) => assert_eq!(
            e.message(),
            "Failed to spawn or connect to ADB server: Invalid Android home path"
        ),
        Ok(_) => panic!("accepted"),
    }
    assert!(check_tool(true, "/x".to_string()).is_ok());
    match check_tool(false, "/x".to_string()) {
        Err(e) => assert_eq!(e.message(), "Android SDK emulator tool not found at path: /x"),
        Ok(_) => panic!("found"),
    }
}

#[test]
fn virtual_devices_are_listed() {
    assert_eq!(list_avds(b"Pixel_7\r\n\n  test \n").unwrap(), ["Pixel_7", "test"]);
    assert_eq!(avds_in("a\nb").unwrap(), ["a", "b"]);
    assert!(matches!(list_avds(b""), Err(EmulatorError::NoAvdsFound)));
    assert!(matches!(list_avds(b" \n\t\r\n"), Err(EmulatorError::NoAvdsFound)));
}

#[test]
fn bytes_that_are_no_text_are_replaced() {
    assert_eq!(list_avds("Téléphone\n".as_bytes()).unwrap(), ["Téléphone"]);
    assert_eq!(list_avds(b"a\xffb\n").unwrap(), ["a\u{fffd}b"]);
}
