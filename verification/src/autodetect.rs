//! Where the engine, its configuration and its workshop content are looked for,
//! and what follows from what was seen there.
//!
//! Every search goes in two moves. A function named `..._candidate`, or
//! [`descriptor_pattern`], says where to look. The caller looks, and hands what
//! it saw to the function that decides. Only the two default places of a 32-bit
//! and of a 64-bit machine are tried. Nothing here is an error: a search that
//! does not succeed gives `None`, whatever went wrong.

use crate::json::{ProjectJson, WallpaperEngineConfigJson};
use crate::{Wallpaper, WallpaperView};
use std::path::PathBuf;
use vstd::prelude::*;
use vstd::string::*;

verus! {

/// A choice between detecting 32-bit and 64-bit program folders and executables.
#[derive(Clone, Copy, Debug)]
pub enum AutodetectType {
    Default64BitMachine,
    Default32BitMachine,
}

/// What a look at one path showed.
#[derive(Clone, Copy, Debug)]
pub enum Probe {
    /// Something is there.
    Found,
    /// Nothing is there.
    Missing,
    /// The look itself failed, so that it is not known what is there.
    Failed,
}

/// What became of reading one JSON file.
#[derive(Clone, Debug)]
pub enum Loaded<T> {
    /// The file could not be read.
    Unreadable,
    /// The file was read, but it is no JSON of the shape asked for.
    Malformed,
    /// What the file holds.
    Parsed(T),
}

/// A file that was listed as the descriptor of a workshop item, and what
/// became of reading it.
#[derive(Clone, Debug)]
pub struct Candidate {
    pub path: PathBuf,
    pub descriptor: Loaded<ProjectJson>,
}

impl AutodetectType {
    /// The file name of the engine's executable.
    pub open spec fn exe_name_text(self) -> Seq<char> {
        match self {
            AutodetectType::Default32BitMachine => "wallpaper32.exe"@,
            AutodetectType::Default64BitMachine => "wallpaper64.exe"@,
        }
    }

    /// The folder under which Steam is installed. On a 32-bit machine all
    /// programs share one such folder, so ` (x86)` is no part of its name there.
    pub open spec fn program_files_text(self) -> Seq<char> {
        match self {
            AutodetectType::Default32BitMachine => "C:\\Program Files"@,
            AutodetectType::Default64BitMachine => "C:\\Program Files (x86)"@,
        }
    }

    /// The file name of the engine's executable: `wallpaper32.exe` or
    /// `wallpaper64.exe`.
    pub fn exe_name(&self) -> (name: String)
        ensures
            name@ == self.exe_name_text(),
    {
        match self {
            Self::Default32BitMachine => "wallpaper32.exe".to_string(),
            Self::Default64BitMachine => "wallpaper64.exe".to_string(),
        }
    }

    fn program_files(&self) -> (folder: String)
        ensures
            folder@ == self.program_files_text(),
    {
        match self {
            Self::Default32BitMachine => "C:\\Program Files".to_string(),
            Self::Default64BitMachine => "C:\\Program Files (x86)".to_string(),
        }
    }
}

/// The folder that holds the engine's workshop content.
pub open spec fn workshop_text(loc: AutodetectType) -> Seq<char> {
    loc.program_files_text() + "\\Steam\\steamapps\\workshop\\content\\431960"@
}

/// The pattern that matches the descriptor of every item in the workshop folder.
pub open spec fn descriptor_pattern_text(loc: AutodetectType) -> Seq<char> {
    workshop_text(loc) + "/*/project.json"@
}

/// The engine's configuration file.
pub open spec fn config_text(loc: AutodetectType) -> Seq<char> {
    loc.program_files_text() + "\\Steam\\steamapps\\common\\wallpaper_engine\\config.json"@
}

/// The engine's executable in the folder `folder`.
pub open spec fn exe_text(folder: Seq<char>, loc: AutodetectType) -> Seq<char> {
    folder + "\\"@ + loc.exe_name_text()
}

/// `text`, where the look at it found something.
pub open spec fn found_at(text: Seq<char>, probe: Probe) -> Option<Seq<char>> {
    match probe {
        Probe::Found => Some(text),
        _ => None,
    }
}

/// The folder that the configuration names as the one the engine is installed in.
pub open spec fn install_directory_text(config: Loaded<WallpaperEngineConfigJson>) -> Option<
    Seq<char>,
> {
    match config {
        Loaded::Parsed(settings) => Some(settings.install_directory@),
        _ => None,
    }
}

/// The engine's folder: the one that the configuration names, where the look
/// at it found something.
pub open spec fn folder_text(config: Loaded<WallpaperEngineConfigJson>, folder: Probe) -> Option<
    Seq<char>,
> {
    match install_directory_text(config) {
        Some(named) => found_at(named, folder),
        None => None,
    }
}

/// Where the executable is looked for: in the engine's folder, where there is one.
pub open spec fn exe_candidate_text(
    config: Loaded<WallpaperEngineConfigJson>,
    loc: AutodetectType,
    folder: Probe,
) -> Option<Seq<char>> {
    match folder_text(config, folder) {
        Some(found) => Some(exe_text(found, loc)),
        None => None,
    }
}

/// The engine's executable: the one in the engine's folder, where that folder
/// was found and the look at the executable found something too.
pub open spec fn exe_in_folder_text(
    config: Loaded<WallpaperEngineConfigJson>,
    loc: AutodetectType,
    folder: Probe,
    exe: Probe,
) -> Option<Seq<char>> {
    match exe_candidate_text(config, loc, folder) {
        Some(candidate) => found_at(candidate, exe),
        None => None,
    }
}

impl Candidate {
    /// The workshop item that this file describes, where it was read as a
    /// descriptor: the item has the descriptor's title and type, and the
    /// file's path.
    pub open spec fn wallpaper(self) -> Option<WallpaperView> {
        match self.descriptor {
            Loaded::Parsed(project) => Some(
                WallpaperView { name: project.title@, kind: project._type@, path: self.path },
            ),
            _ => None,
        }
    }
}

/// The workshop items that `candidates` describe, in the order of `candidates`.
pub open spec fn installed(candidates: Seq<Candidate>) -> Seq<WallpaperView> {
    candidates.filter_map(|candidate: Candidate| candidate.wallpaper())
}

/// The installed workshop items: those that `candidates` describe, where the
/// look at the workshop folder found something.
pub open spec fn installed_in_workshop(workshop: Probe, candidates: Seq<Candidate>) -> Option<
    Seq<WallpaperView>,
> {
    match workshop {
        Probe::Found => Some(installed(candidates)),
        _ => None,
    }
}

/// The candidates that were read as descriptors, in the order of `candidates`.
pub open spec fn described(candidates: Seq<Candidate>) -> Seq<Candidate> {
    candidates.filter(|candidate: Candidate| candidate.descriptor is Parsed)
}

/// The places that are looked at, written out. The two machines differ by
/// ` (x86)` behind `Program Files` and by nothing else.
pub proof fn lemma_default_places()
    ensures
        workshop_text(AutodetectType::Default64BitMachine)
            == "C:\\Program Files (x86)\\Steam\\steamapps\\workshop\\content\\431960"@,
        workshop_text(AutodetectType::Default32BitMachine)
            == "C:\\Program Files\\Steam\\steamapps\\workshop\\content\\431960"@,
        config_text(AutodetectType::Default64BitMachine)
            == "C:\\Program Files (x86)\\Steam\\steamapps\\common\\wallpaper_engine\\config.json"@,
        config_text(AutodetectType::Default32BitMachine)
            == "C:\\Program Files\\Steam\\steamapps\\common\\wallpaper_engine\\config.json"@,
        AutodetectType::Default64BitMachine.program_files_text()
            == AutodetectType::Default32BitMachine.program_files_text() + " (x86)"@,
{
    reveal_strlit("C:\\Program Files");
    reveal_strlit("C:\\Program Files (x86)");
    reveal_strlit(" (x86)");
    reveal_strlit("\\Steam\\steamapps\\workshop\\content\\431960");
    reveal_strlit("\\Steam\\steamapps\\common\\wallpaper_engine\\config.json");
    reveal_strlit("C:\\Program Files (x86)\\Steam\\steamapps\\workshop\\content\\431960");
    reveal_strlit("C:\\Program Files\\Steam\\steamapps\\workshop\\content\\431960");
    reveal_strlit(
        "C:\\Program Files (x86)\\Steam\\steamapps\\common\\wallpaper_engine\\config.json",
    );
    reveal_strlit("C:\\Program Files\\Steam\\steamapps\\common\\wallpaper_engine\\config.json");
}

/// Where the look at the workshop folder found nothing, or failed, neither the
/// folder nor any list of installed items is given, whatever files were
/// listed. Where it found the folder and no file was listed, the list of
/// installed items is given, and it is empty.
pub proof fn lemma_workshop_decides(loc: AutodetectType, probe: Probe, candidates: Seq<Candidate>)
    ensures
        !(probe is Found) ==> found_at(workshop_text(loc), probe) is None && installed_in_workshop(
            probe,
            candidates,
        ) is None,
        probe is Found ==> installed_in_workshop(probe, Seq::<Candidate>::empty()) == Some(
            Seq::<WallpaperView>::empty(),
        ),
{
}

/// There is one installed item for each candidate that was read as a
/// descriptor, and none for any other. The items stand in the order of those
/// candidates, and each has the title, the type and the path of its candidate.
pub proof fn lemma_installed_are_the_described(candidates: Seq<Candidate>)
    ensures
        installed(candidates).len() == described(candidates).len(),
        forall|k: int|
            0 <= k < described(candidates).len() ==> (#[trigger] described(
                candidates,
            )[k]).wallpaper() == Some(installed(candidates)[k]),
    decreases candidates.len(),
{
    reveal(Seq::filter);
    if candidates.len() > 0 {
        lemma_installed_are_the_described(candidates.drop_last());
    }
}

/// The engine's folder is given exactly where the configuration was read and
/// the folder that it names was found. It is then the folder that the
/// configuration names.
pub proof fn lemma_folder_needs_config_and_directory(
    config: Loaded<WallpaperEngineConfigJson>,
    folder: Probe,
)
    ensures
        folder_text(config, folder) is Some <==> config is Parsed && folder is Found,
        config matches Loaded::Parsed(settings) ==> (folder is Found ==> folder_text(config, folder)
            == Some(settings.install_directory@)),
{
}

/// The executable is given exactly where the engine's folder is given and
/// the look at the executable found something. Its path is then the folder's,
/// a backslash, and the file name that goes with the machine.
pub proof fn lemma_exe_is_in_folder(
    config: Loaded<WallpaperEngineConfigJson>,
    loc: AutodetectType,
    folder: Probe,
    exe: Probe,
)
    ensures
        exe_in_folder_text(config, loc, folder, exe) is Some <==> folder_text(config, folder)
            is Some && exe is Found,
        folder_text(config, folder) matches Some(found) ==> (exe is Found ==> exe_in_folder_text(
            config,
            loc,
            folder,
            exe,
        ) == Some(found + "\\"@ + loc.exe_name_text())),
{
}

/// Where the workshop folder is looked for.
pub fn workshop_candidate(loc: AutodetectType) -> (path: String)
    ensures
        path@ == workshop_text(loc),
{
    loc.program_files().concat("\\Steam\\steamapps\\workshop\\content\\431960")
}

/// Tries to autodetect the Wallpaper Engine workshop content folder: it is the
/// candidate, where `probe`, the look at [`workshop_candidate`], found it.
pub fn autodetect_wallpaper_engine_workshop(loc: AutodetectType, probe: Probe) -> (found: Option<
    String,
>)
    ensures
        found.deep_view() == found_at(workshop_text(loc), probe),
{
    match probe {
        Probe::Found => Some(workshop_candidate(loc)),
        _ => None,
    }
}

/// The pattern under which the descriptors of the installed items are listed:
/// `project.json` in every folder directly under the workshop folder. There is
/// nothing to list unless `workshop`, the look at [`workshop_candidate`], found
/// that folder.
pub fn descriptor_pattern(loc: AutodetectType, workshop: Probe) -> (pattern: Option<String>)
    ensures
        pattern.deep_view() == found_at(descriptor_pattern_text(loc), workshop),
{
    match workshop {
        Probe::Found => Some(workshop_candidate(loc).concat("/*/project.json")),
        _ => None,
    }
}

/// Tries to autodetect the installed Wallpaper Engine workshop wallpapers.
/// `workshop` is what the look at [`workshop_candidate`] showed, `candidates`
/// are the files that [`descriptor_pattern`] matched, in the order in which
/// they were listed. Where the workshop folder was found, every candidate that
/// was read as a descriptor gives one wallpaper, in that order, and the others
/// are passed over in silence.
pub fn autodetect_wallpaper_engine_wallpapers(
    loc: AutodetectType,
    workshop: Probe,
    candidates: Vec<Candidate>,
) -> (found: Option<Vec<Wallpaper>>)
    ensures
        found.deep_view() == installed_in_workshop(workshop, candidates@),
{
    if autodetect_wallpaper_engine_workshop(loc, workshop).is_none() {
        return None;
    }
    let ghost all = candidates@;
    let mut wallpapers: Vec<Wallpaper> = Vec::new();
    for candidate in listed: candidates.into_iter()
        invariant
            listed.seq() == all,
            wallpapers.deep_view() == installed(all.take(listed.index() as int)),
    {
        proof {
            all.lemma_filter_map_take_succ(
                |candidate: Candidate| candidate.wallpaper(),
                listed.index() as int,
            );
        }
        if let Loaded::Parsed(project) = candidate.descriptor {
            wallpapers.push(
                Wallpaper { name: project.title, _type: project._type, path: candidate.path },
            );
        }
    }
    assert(all.take(all.len() as int) =~= all);
    Some(wallpapers)
}

/// Where the engine's configuration file is looked for.
pub fn config_candidate(loc: AutodetectType) -> (path: String)
    ensures
        path@ == config_text(loc),
{
    loc.program_files().concat("\\Steam\\steamapps\\common\\wallpaper_engine\\config.json")
}

/// Tries to autodetect the Wallpaper Engine config file: it is the candidate,
/// where `probe`, the look at [`config_candidate`], found it.
pub fn autodetect_wallpaper_engine_config(loc: AutodetectType, probe: Probe) -> (found: Option<
    String,
>)
    ensures
        found.deep_view() == found_at(config_text(loc), probe),
{
    match probe {
        Probe::Found => Some(config_candidate(loc)),
        _ => None,
    }
}

/// Where the engine's folder is looked for: where the configuration says, and
/// nowhere unless the configuration was read.
pub fn folder_candidate(config: &Loaded<WallpaperEngineConfigJson>) -> (path: Option<String>)
    ensures
        path.deep_view() == install_directory_text(*config),
{
    match config {
        Loaded::Parsed(settings) => Some(settings.install_directory.clone()),
        _ => None,
    }
}

/// Tries to autodetect the Wallpaper Engine main folder. `config` is what
/// became of reading the configuration file, `folder` what the look at
/// [`folder_candidate`] showed (it counts for nothing where there was no
/// candidate). A file that could not be read and one that is no configuration
/// end alike, and so does a folder that is not there: in `None`.
pub fn autodetect_wallpaper_engine_folder_from_config(
    config: Loaded<WallpaperEngineConfigJson>,
    folder: Probe,
) -> (found: Option<String>)
    ensures
        found.is_some() <==> config is Parsed && folder is Found,
        found.deep_view() == folder_text(config, folder),
{
    match config {
        Loaded::Parsed(settings) => match folder {
            Probe::Found => Some(settings.install_directory),
            _ => None,
        },
        _ => None,
    }
}

fn exe_in(folder: String, loc: AutodetectType) -> (path: String)
    ensures
        path@ == exe_text(folder@, loc),
{
    let name = loc.exe_name();
    folder.concat("\\").concat(name.as_str())
}

/// Where the engine's executable is looked for: under its name in the engine's
/// folder, and nowhere unless that folder was found. `config` and `folder` are
/// as in [`autodetect_wallpaper_engine_folder_from_config`].
pub fn exe_candidate(
    config: &Loaded<WallpaperEngineConfigJson>,
    loc: AutodetectType,
    folder: Probe,
) -> (path: Option<String>)
    ensures
        path.deep_view() == exe_candidate_text(*config, loc, folder),
{
    match folder {
        Probe::Found => match folder_candidate(config) {
            Some(found) => Some(exe_in(found, loc)),
            None => None,
        },
        _ => None,
    }
}

/// Tries to autodetect the Wallpaper Engine executable. `config` and `folder`
/// are as in [`autodetect_wallpaper_engine_folder_from_config`]; `exe` is what
/// the look at [`exe_candidate`] showed (it counts for nothing where there was
/// no candidate).
pub fn autodetect_wallpaper_engine_exe_from_config(
    config: Loaded<WallpaperEngineConfigJson>,
    loc: AutodetectType,
    folder: Probe,
    exe: Probe,
) -> (found: Option<String>)
    ensures
        found.is_some() <==> config is Parsed && folder is Found && exe is Found,
        found.deep_view() == exe_in_folder_text(config, loc, folder, exe),
{
    match autodetect_wallpaper_engine_folder_from_config(config, folder) {
        Some(found) => match exe {
            Probe::Found => Some(exe_in(found, loc)),
            _ => None,
        },
        None => None,
    }
}

} // verus!
