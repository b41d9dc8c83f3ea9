//! The runner for MAME.

use vstd::prelude::*;

use crate::command::{bare_command, opt_command, Command, CommandView};
use crate::config::{
    conforms, has_kind, resolved, setting_bool, setting_text, text_of, CValue, CValueView, Cfg,
    Defaults, Kind,
};
use crate::paths::{join_path, joined_path};
use crate::strmap::StrMap;
use crate::text::{same_text, texts};

verus! {

/// Runner for arcade games with the MAME emulator.
pub struct MameRunner;

/// A machine set up to run with MAME. Its path is that of the folder that
/// holds the machine's ROMs.
#[derive(Debug)]
pub struct MameRunnerInstance {
    pub path: String,
    pub machine_name: String,
    pub path_to_mame: String,
    pub fullscreen: bool,
    /// The launcher's data directory; MAME works in its `mame` folder.
    pub data_dir: String,
}

/// A `MameRunnerInstance` as mathematical values.
pub struct MameRunnerInstanceView {
    pub path: Seq<char>,
    pub machine_name: Seq<char>,
    pub path_to_mame: Seq<char>,
    pub fullscreen: bool,
    pub data_dir: Seq<char>,
}

impl View for MameRunnerInstance {
    type V = MameRunnerInstanceView;

    open spec fn view(&self) -> MameRunnerInstanceView {
        MameRunnerInstanceView {
            path: self.path@,
            machine_name: self.machine_name@,
            path_to_mame: self.path_to_mame@,
            fullscreen: self.fullscreen,
            data_dir: self.data_dir@,
        }
    }
}

impl Clone for MameRunnerInstance {
    fn clone(&self) -> (r: Self)
        ensures
            r@ == self@,
    {
        MameRunnerInstance {
            path: self.path.clone(),
            machine_name: self.machine_name.clone(),
            path_to_mame: self.path_to_mame.clone(),
            fullscreen: self.fullscreen,
            data_dir: self.data_dir.clone(),
        }
    }
}

impl MameRunner {
    /// The settings of this runner with their labels and defaults.
    pub open spec fn default_settings() -> Map<Seq<char>, (Seq<char>, CValueView)> {
        Map::empty().insert(
            "mame:path_to_mame"@,
            ("path to mame"@, CValueView::PickFile(Seq::empty())),
        ).insert("mame:machine_name"@, ("machine name"@, CValueView::Str(Seq::empty()))).insert(
            "mame:fullscreen"@,
            ("fullscreen"@, CValueView::Bool(false)),
        )
    }

    /// The defaults have what this runner reads.
    pub open spec fn supplied(d: Map<Seq<char>, (Seq<char>, CValueView)>) -> bool {
        &&& has_kind(d, "mame:path_to_mame"@, Kind::PickFile)
        &&& has_kind(d, "mame:machine_name"@, Kind::Str)
        &&& has_kind(d, "mame:fullscreen"@, Kind::Bool)
    }

    /// Sets a machine up from the path of its ROM folder, the settings that
    /// hold for it, and the launcher's data directory.
    pub fn create_instance(
        &self,
        cfg: &Cfg,
        path: String,
        default: &Defaults,
        data_dir: String,
    ) -> (r: MameRunnerInstance)
        requires
            Self::supplied(default@),
            conforms(cfg@, default@),
        ensures
            r@ == (MameRunnerInstanceView {
                path: path@,
                machine_name: text_of(resolved(cfg@, default@, "mame:machine_name"@)),
                path_to_mame: text_of(resolved(cfg@, default@, "mame:path_to_mame"@)),
                fullscreen: resolved(cfg@, default@, "mame:fullscreen"@)->Bool_0,
                data_dir: data_dir@,
            }),
    {
        MameRunnerInstance {
            path,
            machine_name: setting_text(cfg, default, "mame:machine_name"),
            path_to_mame: setting_text(cfg, default, "mame:path_to_mame"),
            fullscreen: setting_bool(cfg, default, "mame:fullscreen"),
            data_dir,
        }
    }

    /// The section of this runner in a settings file, and the keys of its
    /// settings in their order.
    pub open spec fn config_section() -> (Seq<char>, Seq<Seq<char>>) {
        ("mame:mame"@, seq!["mame:path_to_mame"@, "mame:machine_name"@, "mame:fullscreen"@])
    }

    /// The section of this runner and the order of its settings in it.
    pub fn get_config_order(&self) -> (r: (String, Vec<String>))
        ensures
            (r.0@, texts(r.1@)) == Self::config_section(),
    {
        let mut keys: Vec<String> = Vec::new();
        keys.push("mame:path_to_mame".to_owned());
        keys.push("mame:machine_name".to_owned());
        keys.push("mame:fullscreen".to_owned());
        assert(texts(keys@) =~= seq![
            "mame:path_to_mame"@,
            "mame:machine_name"@,
            "mame:fullscreen"@,
        ]);
        ("mame:mame".to_owned(), keys)
    }

    /// The settings of this runner with their labels and defaults.
    pub fn get_default_config(&self) -> (r: Defaults)
        ensures
            r@ == Self::default_settings(),
    {
        let mut out: Defaults = StrMap::new();
        out.insert(
            "mame:path_to_mame".to_owned(),
            ("path to mame".to_owned(), CValue::PickFile(String::new())),
        );
        out.insert(
            "mame:machine_name".to_owned(),
            ("machine name".to_owned(), CValue::Str(String::new())),
        );
        out.insert("mame:fullscreen".to_owned(), ("fullscreen".to_owned(), CValue::Bool(false)));
        out
    }

    /// The name under which settings select this runner.
    pub fn get_runner_id(&self) -> (r: String)
        ensures
            r@ == "mame"@,
    {
        "mame".to_owned()
    }
}

impl MameRunnerInstance {
    /// The flag that chooses between full screen and a window.
    pub open spec fn screen_flag(fullscreen: bool) -> Seq<char> {
        if fullscreen {
            "-now"@
        } else {
            "-w"@
        }
    }

    /// The invocation that runs the machine, from the `mame` folder of the
    /// data directory.
    pub open spec fn command(v: MameRunnerInstanceView) -> CommandView {
        CommandView {
            program: v.path_to_mame,
            cwd: Some(joined_path(v.data_dir, "mame"@)),
            args: seq![Self::screen_flag(v.fullscreen), "-rompath"@, v.path, v.machine_name],
            envs: Map::empty(),
        }
    }

    /// The invocation behind the name of an auxiliary command.
    pub open spec fn subcommand(v: MameRunnerInstanceView, name: Seq<char>) -> Option<
        CommandView,
    > {
        if name == "MAME"@ {
            Some(bare_command(v.path_to_mame, seq![Self::screen_flag(v.fullscreen)]))
        } else {
            None
        }
    }

    fn flag(&self) -> (r: String)
        ensures
            r@ == Self::screen_flag(self.fullscreen),
    {
        if self.fullscreen {
            "-now".to_owned()
        } else {
            "-w".to_owned()
        }
    }

    /// The invocation that runs the machine.
    pub fn get_command(&self) -> (r: Command)
        ensures
            r@ == Self::command(self@),
    {
        let mut args: Vec<String> = Vec::new();
        args.push(self.flag());
        args.push("-rompath".to_owned());
        args.push(self.path.clone());
        args.push(self.machine_name.clone());
        assert(texts(args@) =~= Self::command(self@).args);
        Command {
            program: self.path_to_mame.clone(),
            cwd: Some(join_path(self.data_dir.as_str(), "mame")),
            args,
            envs: StrMap::new(),
        }
    }

    /// The names of the auxiliary commands.
    pub fn get_subcommands(&self) -> (r: Vec<String>)
        ensures
            texts(r@) == seq!["MAME"@],
    {
        let mut names: Vec<String> = Vec::new();
        names.push("MAME".to_owned());
        assert(texts(names@) =~= seq!["MAME"@]);
        names
    }

    /// The invocation behind the name of an auxiliary command, if the name
    /// is one.
    pub fn get_subcommand_command(&self, command: String) -> (r: Option<Command>)
        ensures
            opt_command(r) == Self::subcommand(self@, command@),
    {
        if same_text(command.as_str(), "MAME") {
            let mut args: Vec<String> = Vec::new();
            args.push(self.flag());
            assert(texts(args@) =~= seq![Self::screen_flag(self.fullscreen)]);
            Some(Command::bare(self.path_to_mame.clone(), args))
        } else {
            None
        }
    }
}

} // verus!
