//! The runner for Wine: its invocation, and the libraries that it copies into
//! the prefix.

use vstd::prelude::*;

use crate::command::{bare_command, opt_command, Command, CommandView};
use crate::config::{
    conforms, given, has_kind, resolved, setting_bool, setting_list, setting_text, text, toggle,
    CValue, CValueView, Cfg, Defaults, Kind,
};
use crate::order::{sorted_texts, sorted_unique};
use crate::paths::{file_stem, join_path, joined_path, parent_dir, path_parent, stem_of};
use crate::strmap::StrMap;
use crate::text::{
    copy_opt_text, copy_texts, join_texts, joined_with, opt, opt_text, same_text, texts,
};

verus! {

/// Runner for Windows programs with Wine. It can add the libraries of vkd3d,
/// dxvk and dxvk-nvapi to the prefix.
pub struct WineRunner;

/// A program set up to run with Wine.
#[derive(Debug)]
pub struct WineRunnerInstance {
    pub path: String,
    pub path_to_wine: String,
    pub wineprefix: Option<String>,
    pub use_vkd3d: bool,
    pub vkd3d_path: Option<String>,
    pub use_dxvk: bool,
    pub dxvk_path: Option<String>,
    pub use_dxvk_nvapi: bool,
    pub dxvk_nvapi_path: Option<String>,
    pub fsync: bool,
    pub esync: bool,
    pub use_fsr: bool,
    pub fsr_strength: String,
    pub args: Vec<String>,
}

/// A `WineRunnerInstance` as mathematical values.
pub struct WineRunnerInstanceView {
    pub path: Seq<char>,
    pub path_to_wine: Seq<char>,
    pub wineprefix: Option<Seq<char>>,
    pub use_vkd3d: bool,
    pub vkd3d_path: Option<Seq<char>>,
    pub use_dxvk: bool,
    pub dxvk_path: Option<Seq<char>>,
    pub use_dxvk_nvapi: bool,
    pub dxvk_nvapi_path: Option<Seq<char>>,
    pub fsync: bool,
    pub esync: bool,
    pub use_fsr: bool,
    pub fsr_strength: Seq<char>,
    pub args: Seq<Seq<char>>,
}

impl View for WineRunnerInstance {
    type V = WineRunnerInstanceView;

    open spec fn view(&self) -> WineRunnerInstanceView {
        WineRunnerInstanceView {
            path: self.path@,
            path_to_wine: self.path_to_wine@,
            wineprefix: opt_text(self.wineprefix),
            use_vkd3d: self.use_vkd3d,
            vkd3d_path: opt_text(self.vkd3d_path),
            use_dxvk: self.use_dxvk,
            dxvk_path: opt_text(self.dxvk_path),
            use_dxvk_nvapi: self.use_dxvk_nvapi,
            dxvk_nvapi_path: opt_text(self.dxvk_nvapi_path),
            fsync: self.fsync,
            esync: self.esync,
            use_fsr: self.use_fsr,
            fsr_strength: self.fsr_strength@,
            args: texts(self.args@),
        }
    }
}

impl Clone for WineRunnerInstance {
    fn clone(&self) -> (r: Self)
        ensures
            r@ == self@,
    {
        WineRunnerInstance {
            path: self.path.clone(),
            path_to_wine: self.path_to_wine.clone(),
            wineprefix: copy_opt_text(&self.wineprefix),
            use_vkd3d: self.use_vkd3d,
            vkd3d_path: copy_opt_text(&self.vkd3d_path),
            use_dxvk: self.use_dxvk,
            dxvk_path: copy_opt_text(&self.dxvk_path),
            use_dxvk_nvapi: self.use_dxvk_nvapi,
            dxvk_nvapi_path: copy_opt_text(&self.dxvk_nvapi_path),
            fsync: self.fsync,
            esync: self.esync,
            use_fsr: self.use_fsr,
            fsr_strength: self.fsr_strength.clone(),
            args: copy_texts(&self.args),
        }
    }
}

impl WineRunner {
    /// The settings of this runner with their labels and defaults.
    pub open spec fn default_settings() -> Map<Seq<char>, (Seq<char>, CValueView)> {
        Map::empty().insert("wine:args"@, ("arguments"@, CValueView::StrArr(Seq::empty()))).insert(
            "wine:path_to_wine"@,
            ("path to wine executable"@, CValueView::PickFile("wine"@)),
        ).insert(
            "wine:wineprefix"@,
            ("path to wineprefix"@, CValueView::PickFolder(Seq::empty())),
        ).insert("wine:use_vkd3d"@, ("enable vkd3d"@, CValueView::Bool(false))).insert(
            "wine:vkd3d_path"@,
            ("path to vkd3d"@, CValueView::PickFolder(Seq::empty())),
        ).insert("wine:use_dxvk"@, ("enable dxvk"@, CValueView::Bool(false))).insert(
            "wine:dxvk_path"@,
            ("path to dxvk"@, CValueView::PickFolder(Seq::empty())),
        ).insert("wine:use_dxvk_nvapi"@, ("enable dxvk_nvapi"@, CValueView::Bool(false))).insert(
            "wine:dxvk_nvapi_path"@,
            ("path to dxvk_nvapi"@, CValueView::PickFolder(Seq::empty())),
        ).insert("wine:esync"@, ("enable esync"@, CValueView::Bool(false))).insert(
            "wine:fsync"@,
            ("enable fsync"@, CValueView::Bool(false)),
        ).insert("wine:use_fsr"@, ("enable FSR upscaling"@, CValueView::Bool(false))).insert(
            "wine:fsr_strength"@,
            ("FSR strength"@, CValueView::Str(Seq::empty())),
        )
    }

    /// The defaults have what this runner reads.
    pub open spec fn supplied(d: Map<Seq<char>, (Seq<char>, CValueView)>) -> bool {
        &&& has_kind(d, "wine:args"@, Kind::StrArr)
        &&& has_kind(d, "wine:path_to_wine"@, Kind::PickFile)
        &&& has_kind(d, "wine:wineprefix"@, Kind::PickFolder)
        &&& has_kind(d, "wine:use_vkd3d"@, Kind::Bool)
        &&& has_kind(d, "wine:vkd3d_path"@, Kind::PickFolder)
        &&& has_kind(d, "wine:use_dxvk"@, Kind::Bool)
        &&& has_kind(d, "wine:dxvk_path"@, Kind::PickFolder)
        &&& has_kind(d, "wine:use_dxvk_nvapi"@, Kind::Bool)
        &&& has_kind(d, "wine:dxvk_nvapi_path"@, Kind::PickFolder)
        &&& has_kind(d, "wine:esync"@, Kind::Bool)
        &&& has_kind(d, "wine:fsync"@, Kind::Bool)
        &&& has_kind(d, "wine:use_fsr"@, Kind::Bool)
        &&& has_kind(d, "wine:fsr_strength"@, Kind::Str)
    }

    /// The program as the settings describe it: each field is what the
    /// setting of its own name resolves to. A path that is left empty counts
    /// as not given.
    pub open spec fn instance(
        cfg: Map<Seq<char>, CValueView>,
        d: Map<Seq<char>, (Seq<char>, CValueView)>,
        path: Seq<char>,
    ) -> WineRunnerInstanceView {
        WineRunnerInstanceView {
            path,
            path_to_wine: text(cfg, d, "wine:path_to_wine"@),
            wineprefix: given(text(cfg, d, "wine:wineprefix"@)),
            use_vkd3d: toggle(cfg, d, "wine:use_vkd3d"@),
            vkd3d_path: given(text(cfg, d, "wine:vkd3d_path"@)),
            use_dxvk: toggle(cfg, d, "wine:use_dxvk"@),
            dxvk_path: given(text(cfg, d, "wine:dxvk_path"@)),
            use_dxvk_nvapi: toggle(cfg, d, "wine:use_dxvk_nvapi"@),
            dxvk_nvapi_path: given(text(cfg, d, "wine:dxvk_nvapi_path"@)),
            fsync: toggle(cfg, d, "wine:fsync"@),
            esync: toggle(cfg, d, "wine:esync"@),
            use_fsr: toggle(cfg, d, "wine:use_fsr"@),
            fsr_strength: text(cfg, d, "wine:fsr_strength"@),
            args: resolved(cfg, d, "wine:args"@)->StrArr_0,
        }
    }

    /// Sets a program up from its path and the settings that hold for it.
    pub fn create_instance(&self, cfg: &Cfg, path: String, default: &Defaults) -> (r:
        WineRunnerInstance)
        requires
            Self::supplied(default@),
            conforms(cfg@, default@),
        ensures
            r@ == Self::instance(cfg@, default@, path@),
    {
        WineRunnerInstance {
            path,
            path_to_wine: setting_text(cfg, default, "wine:path_to_wine"),
            wineprefix: opt(setting_text(cfg, default, "wine:wineprefix")),
            use_vkd3d: setting_bool(cfg, default, "wine:use_vkd3d"),
            vkd3d_path: opt(setting_text(cfg, default, "wine:vkd3d_path")),
            use_dxvk: setting_bool(cfg, default, "wine:use_dxvk"),
            dxvk_path: opt(setting_text(cfg, default, "wine:dxvk_path")),
            use_dxvk_nvapi: setting_bool(cfg, default, "wine:use_dxvk_nvapi"),
            dxvk_nvapi_path: opt(setting_text(cfg, default, "wine:dxvk_nvapi_path")),
            fsync: setting_bool(cfg, default, "wine:fsync"),
            esync: setting_bool(cfg, default, "wine:esync"),
            use_fsr: setting_bool(cfg, default, "wine:use_fsr"),
            fsr_strength: setting_text(cfg, default, "wine:fsr_strength"),
            args: setting_list(cfg, default, "wine:args"),
        }
    }

    /// The keys of this runner's settings in the order of its section.
    pub open spec fn setting_order() -> Seq<Seq<char>> {
        seq![
            "wine:path_to_wine"@,
            "wine:wineprefix"@,
            "wine:use_dxvk"@,
            "wine:dxvk_path"@,
            "wine:use_vkd3d"@,
            "wine:vkd3d_path"@,
            "wine:use_dxvk_nvapi"@,
            "wine:dxvk_nvapi_path"@,
            "wine:esync"@,
            "wine:fsync"@,
            "wine:use_fsr"@,
            "wine:fsr_strength"@,
            "wine:args"@,
        ]
    }

    /// The section of this runner in a settings file, and the keys of its
    /// settings in their order.
    pub open spec fn config_section() -> (Seq<char>, Seq<Seq<char>>) {
        ("wine:wine"@, Self::setting_order())
    }

    /// The section of this runner and the order of its settings in it.
    pub fn get_config_order(&self) -> (r: (String, Vec<String>))
        ensures
            (r.0@, texts(r.1@)) == Self::config_section(),
    {
        let mut keys: Vec<String> = Vec::new();
        keys.push("wine:path_to_wine".to_owned());
        keys.push("wine:wineprefix".to_owned());
        keys.push("wine:use_dxvk".to_owned());
        keys.push("wine:dxvk_path".to_owned());
        keys.push("wine:use_vkd3d".to_owned());
        keys.push("wine:vkd3d_path".to_owned());
        keys.push("wine:use_dxvk_nvapi".to_owned());
        keys.push("wine:dxvk_nvapi_path".to_owned());
        keys.push("wine:esync".to_owned());
        keys.push("wine:fsync".to_owned());
        keys.push("wine:use_fsr".to_owned());
        keys.push("wine:fsr_strength".to_owned());
        keys.push("wine:args".to_owned());
        assert(texts(keys@) =~= Self::setting_order());
        ("wine:wine".to_owned(), keys)
    }

    /// The settings of this runner with their labels and defaults.
    pub fn get_default_config(&self) -> (r: Defaults)
        ensures
            r@ == Self::default_settings(),
    {
        let mut out: Defaults = StrMap::new();
        let none: Vec<String> = Vec::new();
        assert(texts(none@) =~= Seq::<Seq<char>>::empty());
        out.insert("wine:args".to_owned(), ("arguments".to_owned(), CValue::StrArr(none)));
        out.insert(
            "wine:path_to_wine".to_owned(),
            ("path to wine executable".to_owned(), CValue::PickFile("wine".to_owned())),
        );
        out.insert(
            "wine:wineprefix".to_owned(),
            ("path to wineprefix".to_owned(), CValue::PickFolder(String::new())),
        );
        out.insert("wine:use_vkd3d".to_owned(), ("enable vkd3d".to_owned(), CValue::Bool(false)));
        out.insert(
            "wine:vkd3d_path".to_owned(),
            ("path to vkd3d".to_owned(), CValue::PickFolder(String::new())),
        );
        out.insert("wine:use_dxvk".to_owned(), ("enable dxvk".to_owned(), CValue::Bool(false)));
        out.insert(
            "wine:dxvk_path".to_owned(),
            ("path to dxvk".to_owned(), CValue::PickFolder(String::new())),
        );
        out.insert(
            "wine:use_dxvk_nvapi".to_owned(),
            ("enable dxvk_nvapi".to_owned(), CValue::Bool(false)),
        );
        out.insert(
            "wine:dxvk_nvapi_path".to_owned(),
            ("path to dxvk_nvapi".to_owned(), CValue::PickFolder(String::new())),
        );
        out.insert("wine:esync".to_owned(), ("enable esync".to_owned(), CValue::Bool(false)));
        out.insert("wine:fsync".to_owned(), ("enable fsync".to_owned(), CValue::Bool(false)));
        out.insert(
            "wine:use_fsr".to_owned(),
            ("enable FSR upscaling".to_owned(), CValue::Bool(false)),
        );
        out.insert(
            "wine:fsr_strength".to_owned(),
            ("FSR strength".to_owned(), CValue::Str(String::new())),
        );
        out
    }

    /// The name under which settings select this runner.
    pub fn get_runner_id(&self) -> (r: String)
        ensures
            r@ == "wine"@,
    {
        "wine".to_owned()
    }
}

/// The names of the files found in the two folders of a set of libraries.
pub struct DllListing {
    /// The names in the folder of the 64-bit libraries.
    pub wide: Vec<String>,
    /// The names in the folder of the 32-bit libraries.
    pub narrow: Vec<String>,
}

/// A `DllListing` as mathematical values.
pub struct DllListingView {
    pub wide: Seq<Seq<char>>,
    pub narrow: Seq<Seq<char>>,
}

impl View for DllListing {
    type V = DllListingView;

    open spec fn view(&self) -> DllListingView {
        DllListingView { wide: texts(self.wide@), narrow: texts(self.narrow@) }
    }
}

/// What was found on disk for a program: whether its prefix is a 32-bit
/// one, and the files of each set of libraries. A set that is not in use, or
/// whose folders could not be read, has an empty listing.
pub struct WineSurvey {
    pub is_32bit: bool,
    pub vkd3d: DllListing,
    pub dxvk: DllListing,
    pub dxvk_nvapi: DllListing,
}

/// A `WineSurvey` as mathematical values.
pub struct WineSurveyView {
    pub is_32bit: bool,
    pub vkd3d: DllListingView,
    pub dxvk: DllListingView,
    pub dxvk_nvapi: DllListingView,
}

impl View for WineSurvey {
    type V = WineSurveyView;

    open spec fn view(&self) -> WineSurveyView {
        WineSurveyView {
            is_32bit: self.is_32bit,
            vkd3d: self.vkd3d@,
            dxvk: self.dxvk@,
            dxvk_nvapi: self.dxvk_nvapi@,
        }
    }
}

/// The two folders of a set of libraries.
pub struct DllFolders {
    pub wide: String,
    pub narrow: String,
}

impl View for DllFolders {
    type V = (Seq<char>, Seq<char>);

    open spec fn view(&self) -> (Seq<char>, Seq<char>) {
        (self.wide@, self.narrow@)
    }
}

/// The view of optional folders.
pub open spec fn opt_folders(o: Option<DllFolders>) -> Option<(Seq<char>, Seq<char>)> {
    match o {
        Some(f) => Some(f@),
        None => None,
    }
}

/// The two folders of a set of libraries that is in use and whose path is
/// given: `x64` for the 64-bit libraries, and the folder named by `narrow`
/// for the 32-bit ones.
pub open spec fn library_folders(used: bool, path: Option<Seq<char>>, narrow: Seq<char>) -> Option<
    (Seq<char>, Seq<char>),
> {
    match path {
        Some(p) => if used {
            Some((p + "/x64"@, p + narrow))
        } else {
            None
        },
        None => None,
    }
}

/// The folder of a prefix that holds its system libraries.
pub open spec fn system32(prefix: Seq<char>) -> Seq<char> {
    prefix + "/drive_c/windows/system32/"@
}

/// The folder of a 64-bit prefix that holds its 32-bit libraries.
pub open spec fn syswow64(prefix: Seq<char>) -> Seq<char> {
    prefix + "/drive_c/windows/syswow64/"@
}

/// The copies that bring the named files of a folder into a target folder.
pub open spec fn copies_into(folder: Seq<char>, names: Seq<Seq<char>>, target: Seq<char>) -> Seq<
    (Seq<char>, Seq<char>),
> {
    Seq::new(names.len(), |i: int| (joined_path(folder, names[i]), target + names[i]))
}

/// The copies for one set of libraries. In a 64-bit prefix the 64-bit
/// libraries go to `system32` and the 32-bit ones to `syswow64`; in a 32-bit
/// prefix only the 32-bit ones are copied, to `system32`.
pub open spec fn library_copies(
    prefix: Seq<char>,
    is_32bit: bool,
    folders: Option<(Seq<char>, Seq<char>)>,
    l: DllListingView,
) -> Seq<(Seq<char>, Seq<char>)> {
    match folders {
        Some(f) => if is_32bit {
            copies_into(f.1, l.narrow, system32(prefix))
        } else {
            copies_into(f.0, l.wide, system32(prefix)) + copies_into(
                f.1,
                l.narrow,
                syswow64(prefix),
            )
        },
        None => Seq::empty(),
    }
}

/// All copies to make before Wine starts: for vkd3d, dxvk and dxvk-nvapi, in
/// this order.
pub open spec fn planned_copies(v: WineRunnerInstanceView, prefix: Seq<char>, s: WineSurveyView) -> Seq<
    (Seq<char>, Seq<char>),
> {
    library_copies(prefix, s.is_32bit, library_folders(v.use_vkd3d, v.vkd3d_path, "/x86"@), s.vkd3d)
        + library_copies(
        prefix,
        s.is_32bit,
        library_folders(v.use_dxvk, v.dxvk_path, "/x32"@),
        s.dxvk,
    ) + library_copies(
        prefix,
        s.is_32bit,
        library_folders(v.use_dxvk_nvapi, v.dxvk_nvapi_path, "/x32"@),
        s.dxvk_nvapi,
    )
}

/// A file to copy, and where to.
pub struct FileCopy {
    pub from: String,
    pub to: String,
}

impl View for FileCopy {
    type V = (Seq<char>, Seq<char>);

    open spec fn view(&self) -> (Seq<char>, Seq<char>) {
        (self.from@, self.to@)
    }
}

/// The views of a list of copies.
pub open spec fn copies(v: Seq<FileCopy>) -> Seq<(Seq<char>, Seq<char>)> {
    Seq::new(v.len(), |i: int| v[i]@)
}

/// The stems of a sequence of file names.
pub open spec fn stems(names: Seq<Seq<char>>) -> Seq<Seq<char>> {
    Seq::new(names.len(), |i: int| stem_of(names[i]))
}

/// The names that count for a prefix: those of the 32-bit folder, and for a
/// 64-bit prefix those of the 64-bit folder before them.
pub open spec fn counted(is_32bit: bool, l: DllListingView) -> Seq<Seq<char>> {
    if is_32bit {
        l.narrow
    } else {
        l.wide + l.narrow
    }
}

/// The override for a set of libraries: the stems of its files, sorted and
/// each once, with commas between them, marked as native.
pub open spec fn override_entry(is_32bit: bool, l: DllListingView) -> Seq<char> {
    joined_with(sorted_texts(stems(counted(is_32bit, l))), ","@) + "=n"@
}

/// The overrides of the sets in use: vkd3d, dxvk, dxvk-nvapi, in this order.
pub open spec fn dll_overrides(v: WineRunnerInstanceView, s: WineSurveyView) -> Seq<Seq<char>> {
    (if v.use_vkd3d {
        seq![override_entry(s.is_32bit, s.vkd3d)]
    } else {
        Seq::empty()
    }) + (if v.use_dxvk {
        seq![override_entry(s.is_32bit, s.dxvk)]
    } else {
        Seq::empty()
    }) + (if v.use_dxvk_nvapi {
        seq![override_entry(s.is_32bit, s.dxvk_nvapi)]
    } else {
        Seq::empty()
    })
}

/// The variables that Wine is started with.
pub open spec fn variables(v: WineRunnerInstanceView, s: WineSurveyView) -> Map<
    Seq<char>,
    Seq<char>,
> {
    let overrides = dll_overrides(v, s);
    let a = if overrides.len() > 0 {
        Map::empty().insert("WINEDLLOVERRIDES"@, joined_with(overrides, ";"@))
    } else {
        Map::empty()
    };
    let b = if v.use_dxvk_nvapi {
        a.insert("DXVK_ENABLE_NVAPI"@, "1"@)
    } else {
        a
    };
    let c = if v.fsync {
        b.insert("WINEFSYNC"@, "1"@)
    } else {
        b
    };
    let d = if v.esync {
        c.insert("WINEESYNC"@, "1"@)
    } else {
        c
    };
    let e = match v.wineprefix {
        Some(prefix) => d.insert("WINEPREFIX"@, prefix),
        None => d,
    };
    let f = if v.use_fsr {
        e.insert("WINE_FULLSCREEN_FSR"@, "1"@).insert(
            "WINE_FULLSCREEN_FSR_STRENGTH"@,
            v.fsr_strength,
        )
    } else {
        e
    };
    f.insert("WINE_LARGE_ADDRESS_AWARE"@, "1"@)
}

/// The invocation of Wine in the working directory `cwd`: for the program
/// with its arguments, or for the command that is to run in its place.
pub open spec fn command_with(
    v: WineRunnerInstanceView,
    command_override: Option<Seq<char>>,
    s: WineSurveyView,
    cwd: Option<Seq<char>>,
) -> CommandView {
    CommandView {
        program: v.path_to_wine,
        cwd,
        args: match command_override {
            Some(a) => seq![a],
            None => seq![v.path] + v.args,
        },
        envs: variables(v, s),
    }
}

/// The invocation of Wine, in the folder that holds the program.
pub open spec fn wine_command(
    v: WineRunnerInstanceView,
    command_override: Option<Seq<char>>,
    s: WineSurveyView,
) -> CommandView {
    command_with(v, command_override, s, path_parent(v.path))
}

/// The invocation behind the name of an auxiliary command.
pub open spec fn wine_subcommand(v: WineRunnerInstanceView, name: Seq<char>, s: WineSurveyView) -> Option<
    CommandView,
> {
    if name == "Wine Control Panel"@ {
        Some(wine_command(v, Some("control"@), s))
    } else if name == "winecfg"@ {
        Some(wine_command(v, Some("winecfg"@), s))
    } else if name == "cmd"@ {
        Some(wine_command(v, Some("cmd"@), s))
    } else if name == "pkill wineserver"@ {
        Some(bare_command("pkill"@, seq!["wineserver"@]))
    } else {
        None
    }
}

/// The stems of a list of file names.
fn stem_list(names: &Vec<String>, out: &mut Vec<String>)
    ensures
        texts(final(out)@) == texts(old(out)@) + stems(texts(names@)),
{
    let ghost start = texts(out@);
    let ghost all = stems(texts(names@));
    let mut i: usize = 0;
    assert(start + all.take(0) =~= start);
    while i < names.len()
        invariant
            all == stems(texts(names@)),
            i <= names@.len(),
            texts(out@) == start + all.take(i as int),
        decreases names@.len() - i,
    {
        let ghost before = texts(out@);
        out.push(file_stem(names[i].as_str()));
        proof {
            assert(all[i as int] == stem_of(names@[i as int]@));
            assert(texts(out@) =~= before.push(all[i as int]));
            assert(all.take(i + 1) =~= all.take(i as int).push(all[i as int]));
            assert(texts(out@) =~= start + all.take(i + 1));
        }
        i += 1;
    }
    assert(all.take(i as int) =~= all);
}

/// The override for a set of libraries.
fn entry_for(is_32bit: bool, listing: &DllListing) -> (r: String)
    ensures
        r@ == override_entry(is_32bit, listing@),
{
    let mut dlls: Vec<String> = Vec::new();
    assert(texts(dlls@) =~= Seq::<Seq<char>>::empty());
    if !is_32bit {
        stem_list(&listing.wide, &mut dlls);
    }
    stem_list(&listing.narrow, &mut dlls);
    assert(texts(dlls@) =~= stems(counted(is_32bit, listing@)));
    let sorted = sorted_unique(&dlls);
    join_texts(&sorted, ",").concat("=n")
}

/// The folders of a set of libraries.
fn folders_for(used: bool, path: &Option<String>, narrow: &str) -> (r: Option<DllFolders>)
    ensures
        opt_folders(r) == library_folders(used, opt_text(*path), narrow@),
{
    match path {
        Some(p) => {
            if used {
                Some(
                    DllFolders {
                        wide: p.clone().concat("/x64"),
                        narrow: p.clone().concat(narrow),
                    },
                )
            } else {
                None
            }
        },
        None => None,
    }
}

/// Adds the copies that bring the named files of a folder into a target
/// folder.
fn add_copies(folder: &str, names: &Vec<String>, target: &str, out: &mut Vec<FileCopy>)
    ensures
        copies(final(out)@) == copies(old(out)@) + copies_into(folder@, texts(names@), target@),
{
    let ghost start = copies(out@);
    let ghost all = copies_into(folder@, texts(names@), target@);
    let mut i: usize = 0;
    assert(start + all.take(0) =~= start);
    while i < names.len()
        invariant
            all == copies_into(folder@, texts(names@), target@),
            i <= names@.len(),
            copies(out@) == start + all.take(i as int),
        decreases names@.len() - i,
    {
        let ghost before = copies(out@);
        let name = &names[i];
        out.push(
            FileCopy {
                from: join_path(folder, name.as_str()),
                to: target.to_owned().concat(name.as_str()),
            },
        );
        proof {
            assert(copies(out@) =~= before.push(all[i as int]));
            assert(all.take(i + 1) =~= all.take(i as int).push(all[i as int]));
            assert(copies(out@) =~= start + all.take(i + 1));
        }
        i += 1;
    }
    assert(all.take(i as int) =~= all);
}

/// Adds the copies for one set of libraries.
fn add_library_copies(
    prefix: &str,
    is_32bit: bool,
    folders: &Option<DllFolders>,
    listing: &DllListing,
    out: &mut Vec<FileCopy>,
)
    ensures
        copies(final(out)@) == copies(old(out)@) + library_copies(
            prefix@,
            is_32bit,
            opt_folders(*folders),
            listing@,
        ),
{
    let ghost start = copies(out@);
    match folders {
        Some(f) => {
            let system32 = prefix.to_owned().concat("/drive_c/windows/system32/");
            if is_32bit {
                add_copies(f.narrow.as_str(), &listing.narrow, system32.as_str(), out);
            } else {
                let syswow64 = prefix.to_owned().concat("/drive_c/windows/syswow64/");
                add_copies(f.wide.as_str(), &listing.wide, system32.as_str(), out);
                add_copies(f.narrow.as_str(), &listing.narrow, syswow64.as_str(), out);
                assert(copies(out@) =~= start + library_copies(
                    prefix@,
                    is_32bit,
                    opt_folders(*folders),
                    listing@,
                ));
            }
        },
        None => {
            assert(start + Seq::<(Seq<char>, Seq<char>)>::empty() =~= start);
        },
    }
}

impl WineRunnerInstance {
    /// The folders to list for vkd3d, if it is in use and its path is given.
    pub fn vkd3d_folders(&self) -> (r: Option<DllFolders>)
        ensures
            opt_folders(r) == library_folders(self.use_vkd3d, self@.vkd3d_path, "/x86"@),
    {
        folders_for(self.use_vkd3d, &self.vkd3d_path, "/x86")
    }

    /// The folders to list for dxvk, if it is in use and its path is given.
    pub fn dxvk_folders(&self) -> (r: Option<DllFolders>)
        ensures
            opt_folders(r) == library_folders(self.use_dxvk, self@.dxvk_path, "/x32"@),
    {
        folders_for(self.use_dxvk, &self.dxvk_path, "/x32")
    }

    /// The folders to list for dxvk-nvapi, if it is in use and its path is
    /// given.
    pub fn dxvk_nvapi_folders(&self) -> (r: Option<DllFolders>)
        ensures
            opt_folders(r) == library_folders(
                self.use_dxvk_nvapi,
                self@.dxvk_nvapi_path,
                "/x32"@,
            ),
    {
        folders_for(self.use_dxvk_nvapi, &self.dxvk_nvapi_path, "/x32")
    }

    /// The copies to make before Wine starts, for the files that the survey
    /// found.
    pub fn copy_plan(&self, prefix: &str, survey: &WineSurvey) -> (r: Vec<FileCopy>)
        ensures
            copies(r@) == planned_copies(self@, prefix@, survey@),
    {
        let mut out: Vec<FileCopy> = Vec::new();
        assert(copies(out@) =~= Seq::<(Seq<char>, Seq<char>)>::empty());
        let a = self.vkd3d_folders();
        add_library_copies(prefix, survey.is_32bit, &a, &survey.vkd3d, &mut out);
        let b = self.dxvk_folders();
        add_library_copies(prefix, survey.is_32bit, &b, &survey.dxvk, &mut out);
        let c = self.dxvk_nvapi_folders();
        add_library_copies(prefix, survey.is_32bit, &c, &survey.dxvk_nvapi, &mut out);
        assert(copies(out@) =~= planned_copies(self@, prefix@, survey@));
        out
    }

    /// The prefix that Wine uses: the one that is set, or `.wine` in the
    /// home directory.
    pub fn prefix_or_default(&self, home: &str) -> (r: String)
        ensures
            r@ == (match self@.wineprefix {
                Some(prefix) => prefix,
                None => joined_path(home@, ".wine"@),
            }),
    {
        match &self.wineprefix {
            Some(prefix) => prefix.clone(),
            None => join_path(home, ".wine"),
        }
    }

    /// The folder whose presence tells a 64-bit prefix from a 32-bit one.
    pub fn syswow64_dir(prefix: &str) -> (r: String)
        ensures
            r@ == prefix@ + "/drive_c/windows/syswow64"@,
    {
        prefix.to_owned().concat("/drive_c/windows/syswow64")
    }

    /// The overrides of the sets in use.
    pub fn overrides(&self, survey: &WineSurvey) -> (r: Vec<String>)
        ensures
            texts(r@) == dll_overrides(self@, survey@),
    {
        let mut out: Vec<String> = Vec::new();
        if self.use_vkd3d {
            out.push(entry_for(survey.is_32bit, &survey.vkd3d));
        }
        if self.use_dxvk {
            out.push(entry_for(survey.is_32bit, &survey.dxvk));
        }
        if self.use_dxvk_nvapi {
            out.push(entry_for(survey.is_32bit, &survey.dxvk_nvapi));
        }
        assert(texts(out@) =~= dll_overrides(self@, survey@));
        out
    }

    /// The invocation of Wine in the given working directory.
    pub fn command_in(
        &self,
        command_override: Option<String>,
        survey: &WineSurvey,
        cwd: Option<String>,
    ) -> (r: Command)
        ensures
            r@ == command_with(self@, opt_text(command_override), survey@, opt_text(cwd)),
    {
        let dlloverrides = self.overrides(survey);
        let mut envs: StrMap<String> = StrMap::new();
        if dlloverrides.len() > 0 {
            envs.insert("WINEDLLOVERRIDES".to_owned(), join_texts(&dlloverrides, ";"));
        }
        if self.use_dxvk_nvapi {
            envs.insert("DXVK_ENABLE_NVAPI".to_owned(), "1".to_owned());
        }
        if self.fsync {
            envs.insert("WINEFSYNC".to_owned(), "1".to_owned());
        }
        if self.esync {
            envs.insert("WINEESYNC".to_owned(), "1".to_owned());
        }
        match &self.wineprefix {
            Some(prefix) => {
                envs.insert("WINEPREFIX".to_owned(), prefix.clone());
            },
            None => {},
        }
        if self.use_fsr {
            envs.insert("WINE_FULLSCREEN_FSR".to_owned(), "1".to_owned());
            envs.insert("WINE_FULLSCREEN_FSR_STRENGTH".to_owned(), self.fsr_strength.clone());
        }
        envs.insert("WINE_LARGE_ADDRESS_AWARE".to_owned(), "1".to_owned());
        let mut args: Vec<String> = Vec::new();
        match command_override {
            Some(a) => {
                args.push(a);
                assert(texts(args@) =~= seq![a@]);
            },
            None => {
                args.push(self.path.clone());
                let mut more = copy_texts(&self.args);
                args.append(&mut more);
                assert(texts(args@) =~= seq![self.path@] + texts(self.args@));
            },
        }
        Command { program: self.path_to_wine.clone(), cwd, args, envs }
    }

    /// The invocation of Wine, in the folder that holds the program: for the
    /// program with its arguments, or for the command that is to run in its
    /// place.
    pub fn real_get_command(&self, command_override: Option<String>, survey: &WineSurvey) -> (r:
        Command)
        ensures
            r@ == wine_command(self@, opt_text(command_override), survey@),
    {
        let cwd = parent_dir(self.path.as_str());
        self.command_in(command_override, survey, cwd)
    }

    /// The invocation that runs the program.
    pub fn get_command(&self, survey: &WineSurvey) -> (r: Command)
        ensures
            r@ == wine_command(self@, None, survey@),
    {
        self.real_get_command(None, survey)
    }

    /// The names of the auxiliary commands.
    pub fn get_subcommands(&self) -> (r: Vec<String>)
        ensures
            texts(r@) == seq!["Wine Control Panel"@, "winecfg"@, "cmd"@, "pkill wineserver"@],
    {
        let mut names: Vec<String> = Vec::new();
        names.push("Wine Control Panel".to_owned());
        names.push("winecfg".to_owned());
        names.push("cmd".to_owned());
        names.push("pkill wineserver".to_owned());
        assert(texts(names@) =~= seq![
            "Wine Control Panel"@,
            "winecfg"@,
            "cmd"@,
            "pkill wineserver"@,
        ]);
        names
    }

    /// The invocation behind the name of an auxiliary command, if the name
    /// is one.
    pub fn get_subcommand_command(&self, command: String, survey: &WineSurvey) -> (r: Option<
        Command,
    >)
        ensures
            opt_command(r) == wine_subcommand(self@, command@, survey@),
    {
        if same_text(command.as_str(), "Wine Control Panel") {
            Some(self.real_get_command(Some("control".to_owned()), survey))
        } else if same_text(command.as_str(), "winecfg") {
            Some(self.real_get_command(Some("winecfg".to_owned()), survey))
        } else if same_text(command.as_str(), "cmd") {
            Some(self.real_get_command(Some("cmd".to_owned()), survey))
        } else if same_text(command.as_str(), "pkill wineserver") {
            let mut args: Vec<String> = Vec::new();
            args.push("wineserver".to_owned());
            assert(texts(args@) =~= seq!["wineserver"@]);
            Some(Command::bare("pkill".to_owned(), args))
        } else {
            None
        }
    }
}

} // verus!
