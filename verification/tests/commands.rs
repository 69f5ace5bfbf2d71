use std::path::PathBuf;
use wallpaper_engine::decimal::to_decimal;
use wallpaper_engine::{
    mute_all, open_wallpaper, pause_all, resume_all, stop_all, unmute_all, Invocation,
    WindowSettings,
};

fn exe() -> PathBuf {
    PathBuf::from("C:\\WE\\wallpaper64.exe")
}

fn args_of(call: &Invocation) -> Vec<&str> {
    call.args.iter().map(|arg| arg.as_str()).collect()
}

#[test]
fn pause_all_is_control_pause() {
    let call = pause_all(exe());
    assert_eq!(call.program, exe());
    assert_eq!(args_of(&call), vec!["-control", "pause"]);
}

#[test]
fn resume_all_is_control_play() {
    let call = resume_all(exe());
    assert_eq!(call.program, exe());
    assert_eq!(args_of(&call), vec!["-control", "play"]);
}

#[test]
fn stop_all_is_control_stop() {
    let call = stop_all(exe());
    assert_eq!(call.program, exe());
    assert_eq!(args_of(&call), vec!["-control", "stop"]);
}

#[test]
fn mute_all_is_control_mute() {
    let call = mute_all(exe());
    assert_eq!(call.program, exe());
    assert_eq!(args_of(&call), vec!["-control", "mute"]);
}

#[test]
fn unmute_all_is_control_unmute() {
    let call = unmute_all(exe());
    assert_eq!(call.program, exe());
    assert_eq!(args_of(&call), vec!["-control", "unmute"]);
}

#[test]
fn open_with_file_alone() {
    let call = open_wallpaper(exe(), "scene.pkg".to_string(), None, None, None, None);
    assert_eq!(call.program, exe());
    assert_eq!(args_of(&call), vec!["-control", "openWallpaper", "-file", "scene.pkg"]);
}

#[test]
fn open_on_a_monitor() {
    let call = open_wallpaper(exe(), "x.pkg".to_string(), None, Some(2), None, None);
    assert_eq!(
        args_of(&call),
        vec!["-control", "openWallpaper", "-file", "x.pkg", "-monitor", "2"]
    );
}

#[test]
fn open_in_an_unnamed_window() {
    let window = WindowSettings {
        name: None,
        width: Some(800),
        height: Some(600),
        x: None,
        y: None,
        activate: true,
        borderless: false,
    };
    let call = open_wallpaper(exe(), "f.json".to_string(), None, None, None, Some(window));
    assert_eq!(
        args_of(&call),
        vec![
            "-control",
            "openWallpaper",
            "-file",
            "f.json",
            "-playInWindow",
            "-width",
            "800",
            "-height",
            "600",
            "-activate"
        ]
    );
}

#[test]
fn open_in_a_bare_window() {
    let window = WindowSettings {
        name: None,
        width: None,
        height: None,
        x: None,
        y: None,
        activate: false,
        borderless: false,
    };
    let call = open_wallpaper(exe(), "f.json".to_string(), None, None, None, Some(window));
    assert_eq!(
        args_of(&call),
        vec!["-control", "openWallpaper", "-file", "f.json", "-playInWindow"]
    );
}

#[test]
fn open_with_every_option() {
    let window = WindowSettings {
        name: Some("Gallery".to_string()),
        width: Some(1920),
        height: Some(1080),
        x: Some(0),
        y: Some(65535),
        activate: true,
        borderless: true,
    };
    let call = open_wallpaper(
        exe(),
        "C:\\items\\1\\project.json".to_string(),
        Some("1".to_string()),
        Some(255),
        Some("night".to_string()),
        Some(window),
    );
    assert_eq!(call.program, exe());
    assert_eq!(
        args_of(&call),
        vec![
            "-control",
            "openWallpaper",
            "-file",
            "C:\\items\\1\\project.json",
            "-location",
            "1",
            "-monitor",
            "255",
            "-preset",
            "night",
            "-playInWindow",
            "Gallery",
            "-width",
            "1920",
            "-height",
            "1080",
            "-x",
            "0",
            "-y",
            "65535",
            "-activate",
            "-borderless"
        ]
    );
}

#[test]
fn open_with_location_and_preset_only() {
    let call = open_wallpaper(
        exe(),
        "f".to_string(),
        Some("left".to_string()),
        None,
        Some("calm".to_string()),
        None,
    );
    assert_eq!(
        args_of(&call),
        vec!["-control", "openWallpaper", "-file", "f", "-location", "left", "-preset", "calm"]
    );
}

#[test]
fn open_passes_values_on_unchecked() {
    let window = WindowSettings {
        name: Some(String::new()),
        width: Some(0),
        height: None,
        x: None,
        y: None,
        activate: false,
        borderless: true,
    };
    let call =
        open_wallpaper(exe(), String::new(), Some("-file".to_string()), None, None, Some(window));
    assert_eq!(
        args_of(&call),
        vec![
            "-control",
            "openWallpaper",
            "-file",
            "",
            "-location",
            "-file",
            "-playInWindow",
            "",
            "-width",
            "0",
            "-borderless"
        ]
    );
}

#[test]
fn decimal_of_single_digits() {
    let digits: [&str; 10] = ["0", "1", "2", "3", "4", "5", "6", "7", "8", "9"];
    let mut n: u16 = 0;
    while n < 10 {
        assert_eq!(to_decimal(n), digits[n as usize]);
        n += 1;
    }
}

#[test]
fn decimal_of_larger_numbers() {
    assert_eq!(to_decimal(10), "10");
    assert_eq!(to_decimal(99), "99");
    assert_eq!(to_decimal(100), "100");
    assert_eq!(to_decimal(255), "255");
    assert_eq!(to_decimal(800), "800");
    assert_eq!(to_decimal(1080), "1080");
    assert_eq!(to_decimal(40960), "40960");
    assert_eq!(to_decimal(65535), "65535");
}

#[test]
fn decimal_agrees_with_std_everywhere() {
    let mut n: u16 = 0;
    loop {
        assert_eq!(to_decimal(n), n.to_string());
        if n == u16::MAX {
            break;
        }
        n += 1;
    }
}
