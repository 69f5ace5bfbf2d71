//! Locating an installed wallpaper engine and phrasing the commands that control it.
//!
//! The library itself touches neither the file system nor any process. A caller
//! looks where [`autodetect`] tells it to look and reports back what it saw;
//! the functions of this module say which program to start with which
//! arguments, and leave the starting to the caller.
//!
//! A path that the library composes is a text. A path that it is handed, that
//! of a listed file or of the executable to start, is a `PathBuf`, which it
//! passes on unread.

pub mod autodetect;
pub mod decimal;
pub mod json;

use crate::decimal::{decimal, to_decimal};
use std::path::PathBuf;
use vstd::prelude::*;

verus! {

/// `std::path::PathBuf`: a path as the operating system holds it. Nothing is
/// claimed of what is inside one: the library hands such a path on unread.
#[verifier::external_type_specification]
#[verifier::external_body]
pub struct ExPathBuf(PathBuf);

/// `Clone::clone` on a `PathBuf`: the copy is the path that was copied. The
/// derived `Clone` of the types below that hold a path calls it.
pub assume_specification[ <PathBuf as Clone>::clone ](path: &PathBuf) -> (copy: PathBuf)
    ensures
        copy == *path,
;

/// An installed workshop item.
#[derive(Debug, Clone)]
pub struct Wallpaper {
    /// The title that the item's descriptor gives.
    pub name: String,
    /// The kind of item, as the descriptor words it.
    pub _type: String,
    /// The descriptor's own path.
    pub path: PathBuf,
}

/// What a [`Wallpaper`] holds, with its texts as sequences of characters.
pub struct WallpaperView {
    pub name: Seq<char>,
    pub kind: Seq<char>,
    pub path: PathBuf,
}

impl View for Wallpaper {
    type V = WallpaperView;

    open spec fn view(&self) -> WallpaperView {
        WallpaperView { name: self.name@, kind: self._type@, path: self.path }
    }
}

impl DeepView for Wallpaper {
    type V = WallpaperView;

    open spec fn deep_view(&self) -> WallpaperView {
        self@
    }
}

/// How the window is to be placed when a wallpaper is opened in one.
#[derive(Debug, Clone)]
pub struct WindowSettings {
    /// The window's title. A window without one is opened by the bare flag.
    pub name: Option<String>,
    pub width: Option<u16>,
    pub height: Option<u16>,
    pub x: Option<u16>,
    pub y: Option<u16>,
    pub activate: bool,
    pub borderless: bool,
}

/// What a [`WindowSettings`] holds, with its title as a sequence of characters.
pub struct WindowSettingsView {
    pub name: Option<Seq<char>>,
    pub width: Option<u16>,
    pub height: Option<u16>,
    pub x: Option<u16>,
    pub y: Option<u16>,
    pub activate: bool,
    pub borderless: bool,
}

impl View for WindowSettings {
    type V = WindowSettingsView;

    open spec fn view(&self) -> WindowSettingsView {
        WindowSettingsView {
            name: self.name.deep_view(),
            width: self.width,
            height: self.height,
            x: self.x,
            y: self.y,
            activate: self.activate,
            borderless: self.borderless,
        }
    }
}

impl DeepView for WindowSettings {
    type V = WindowSettingsView;

    open spec fn deep_view(&self) -> WindowSettingsView {
        self@
    }
}

/// A program and the arguments to start it with, in order.
#[derive(Debug, Clone)]
pub struct Invocation {
    pub program: PathBuf,
    pub args: Vec<String>,
}

/// The two arguments that every command starts with.
pub open spec fn control_args(verb: Seq<char>) -> Seq<Seq<char>> {
    seq!["-control"@, verb]
}

/// `value` as one argument, or nothing where there is none.
pub open spec fn bare(value: Option<Seq<char>>) -> Seq<Seq<char>> {
    match value {
        Some(text) => seq![text],
        None => seq![],
    }
}

/// `flag` and its value, or nothing where no value is given.
pub open spec fn valued(flag: Seq<char>, value: Option<Seq<char>>) -> Seq<Seq<char>> {
    match value {
        Some(text) => seq![flag, text],
        None => seq![],
    }
}

/// `flag` and its number in decimal notation, or nothing where no number is given.
pub open spec fn numbered(flag: Seq<char>, value: Option<u16>) -> Seq<Seq<char>> {
    match value {
        Some(n) => seq![flag, decimal(n as nat)],
        None => seq![],
    }
}

/// `flag` alone where `on` holds, else nothing.
pub open spec fn switched(flag: Seq<char>, on: bool) -> Seq<Seq<char>> {
    if on {
        seq![flag]
    } else {
        seq![]
    }
}

/// The arguments that place the window: `-playInWindow`, directly followed by
/// the window's title where it has one, then width, height, x and y as far as
/// they are given, then the two switches as far as they are set.
pub open spec fn window_args(window: WindowSettingsView) -> Seq<Seq<char>> {
    seq!["-playInWindow"@]
        + bare(window.name)
        + numbered("-width"@, window.width)
        + numbered("-height"@, window.height)
        + numbered("-x"@, window.x)
        + numbered("-y"@, window.y)
        + switched("-activate"@, window.activate)
        + switched("-borderless"@, window.borderless)
}

/// The arguments that place the window, or nothing where no window is asked for.
pub open spec fn placement_args(window: Option<WindowSettingsView>) -> Seq<Seq<char>> {
    match window {
        Some(placement) => window_args(placement),
        None => seq![],
    }
}

/// A monitor's index, as wide as the numbers that [`numbered`] takes.
pub open spec fn monitor_number(monitor: Option<u8>) -> Option<u16> {
    match monitor {
        Some(index) => Some(index as u16),
        None => None,
    }
}

/// The arguments that open the wallpaper `file`: the verb, the file, then
/// location, monitor and preset as far as they are given, then the window's
/// placement.
pub open spec fn open_args(
    file: Seq<char>,
    location: Option<Seq<char>>,
    monitor: Option<u8>,
    preset: Option<Seq<char>>,
    window: Option<WindowSettingsView>,
) -> Seq<Seq<char>> {
    control_args("openWallpaper"@)
        + seq!["-file"@, file]
        + valued("-location"@, location)
        + numbered("-monitor"@, monitor_number(monitor))
        + valued("-preset"@, preset)
        + placement_args(window)
}

/// Whatever is asked for, the command to open a wallpaper starts with
/// `-control openWallpaper -file` and the file.
pub proof fn lemma_open_starts_with_file(
    file: Seq<char>,
    location: Option<Seq<char>>,
    monitor: Option<u8>,
    preset: Option<Seq<char>>,
    window: Option<WindowSettingsView>,
)
    ensures
        open_args(file, location, monitor, preset, window).len() >= 4,
        open_args(file, location, monitor, preset, window).take(4) == seq![
            "-control"@,
            "openWallpaper"@,
            "-file"@,
            file,
        ],
{
}

fn push_text(args: &mut Vec<String>, text: String)
    ensures
        final(args).deep_view() == old(args).deep_view().push(text@),
{
    args.push(text);
}

fn push_valued(args: &mut Vec<String>, flag: &str, value: Option<String>)
    ensures
        final(args).deep_view() == old(args).deep_view() + valued(flag@, value.deep_view()),
{
    if let Some(text) = value {
        push_text(args, flag.to_string());
        push_text(args, text);
    }
}

fn push_numbered(args: &mut Vec<String>, flag: &str, value: Option<u16>)
    ensures
        final(args).deep_view() == old(args).deep_view() + numbered(flag@, value),
{
    if let Some(n) = value {
        push_text(args, flag.to_string());
        push_text(args, to_decimal(n));
    }
}

fn push_switched(args: &mut Vec<String>, flag: &str, on: bool)
    ensures
        final(args).deep_view() == old(args).deep_view() + switched(flag@, on),
{
    if on {
        push_text(args, flag.to_string());
    }
}

fn push_window(args: &mut Vec<String>, window: WindowSettings)
    ensures
        final(args).deep_view() == old(args).deep_view() + window_args(window@),
{
    // `placed` is what has been added so far.
    let ghost before = args.deep_view();
    let ghost mut placed = seq!["-playInWindow"@];
    push_text(args, "-playInWindow".to_string());
    if let Some(title) = window.name {
        push_text(args, title);
    }
    proof {
        placed = placed + bare(window.name.deep_view());
        assert(args.deep_view() =~= before + placed);
    }
    push_numbered(args, "-width", window.width);
    proof {
        placed = placed + numbered("-width"@, window.width);
        assert(args.deep_view() =~= before + placed);
    }
    push_numbered(args, "-height", window.height);
    proof {
        placed = placed + numbered("-height"@, window.height);
        assert(args.deep_view() =~= before + placed);
    }
    push_numbered(args, "-x", window.x);
    proof {
        placed = placed + numbered("-x"@, window.x);
        assert(args.deep_view() =~= before + placed);
    }
    push_numbered(args, "-y", window.y);
    proof {
        placed = placed + numbered("-y"@, window.y);
        assert(args.deep_view() =~= before + placed);
    }
    push_switched(args, "-activate", window.activate);
    proof {
        placed = placed + switched("-activate"@, window.activate);
        assert(args.deep_view() =~= before + placed);
    }
    push_switched(args, "-borderless", window.borderless);
    proof {
        placed = placed + switched("-borderless"@, window.borderless);
        assert(args.deep_view() =~= before + placed);
    }
}

fn control(exe_path: PathBuf, verb: &str) -> (call: Invocation)
    ensures
        call.program == exe_path,
        call.args.deep_view() == control_args(verb@),
{
    let mut args: Vec<String> = Vec::new();
    push_text(&mut args, "-control".to_string());
    push_text(&mut args, verb.to_string());
    Invocation { program: exe_path, args }
}

/// Pauses all wallpapers: `-control pause`.
pub fn pause_all(exe_path: PathBuf) -> (call: Invocation)
    ensures
        call.program == exe_path,
        call.args.deep_view() == control_args("pause"@),
{
    control(exe_path, "pause")
}

/// Resumes all wallpapers: `-control play`.
pub fn resume_all(exe_path: PathBuf) -> (call: Invocation)
    ensures
        call.program == exe_path,
        call.args.deep_view() == control_args("play"@),
{
    control(exe_path, "play")
}

/// Stops all wallpapers: `-control stop`.
pub fn stop_all(exe_path: PathBuf) -> (call: Invocation)
    ensures
        call.program == exe_path,
        call.args.deep_view() == control_args("stop"@),
{
    control(exe_path, "stop")
}

/// Mutes all wallpapers: `-control mute`.
pub fn mute_all(exe_path: PathBuf) -> (call: Invocation)
    ensures
        call.program == exe_path,
        call.args.deep_view() == control_args("mute"@),
{
    control(exe_path, "mute")
}

/// Unmutes all wallpapers: `-control unmute`.
pub fn unmute_all(exe_path: PathBuf) -> (call: Invocation)
    ensures
        call.program == exe_path,
        call.args.deep_view() == control_args("unmute"@),
{
    control(exe_path, "unmute")
}

/// Opens a wallpaper, given its file. Allows you to select a monitor by index,
/// or play in a window. No value is looked at: each is passed on as it is, a
/// number in decimal notation.
pub fn open_wallpaper(
    exe_path: PathBuf,
    file: String,
    location: Option<String>,
    monitor: Option<u8>,
    preset: Option<String>,
    play_in_window: Option<WindowSettings>,
) -> (call: Invocation)
    ensures
        call.program == exe_path,
        call.args.deep_view() == open_args(
            file@,
            location.deep_view(),
            monitor,
            preset.deep_view(),
            play_in_window.deep_view(),
        ),
{
    let mut args: Vec<String> = Vec::new();
    push_text(&mut args, "-control".to_string());
    push_text(&mut args, "openWallpaper".to_string());
    push_text(&mut args, "-file".to_string());
    push_text(&mut args, file);
    push_valued(&mut args, "-location", location);
    let index: Option<u16> = match monitor {
        Some(index) => Some(index as u16),
        None => None,
    };
    push_numbered(&mut args, "-monitor", index);
    push_valued(&mut args, "-preset", preset);
    if let Some(window) = play_in_window {
        push_window(&mut args, window);
    }
    Invocation { program: exe_path, args }
}

} // verus!
