//! The runner for Citra.

use vstd::prelude::*;

use crate::command::{bare_command, opt_command, Command, CommandView};
use crate::config::{
    conforms, has_kind, resolved, setting_bool, setting_text, text_of, CValue, CValueView, Cfg,
    Defaults, Kind,
};
use crate::strmap::StrMap;
use crate::text::{same_text, texts};

verus! {

/// Runner for Nintendo 3DS games with the Citra emulator, and with its forks.
/// It expects the Qt build of the executable.
pub struct CitraRunner;

/// A game set up to run with Citra.
#[derive(Debug)]
pub struct CitraRunnerInstance {
    pub path: String,
    pub path_to_citra: String,
    pub fullscreen: bool,
}

/// A `CitraRunnerInstance` as mathematical values.
pub struct CitraRunnerInstanceView {
    pub path: Seq<char>,
    pub path_to_citra: Seq<char>,
    pub fullscreen: bool,
}

impl View for CitraRunnerInstance {
    type V = CitraRunnerInstanceView;

    open spec fn view(&self) -> CitraRunnerInstanceView {
        CitraRunnerInstanceView {
            path: self.path@,
            path_to_citra: self.path_to_citra@,
            fullscreen: self.fullscreen,
        }
    }
}

impl Clone for CitraRunnerInstance {
    fn clone(&self) -> (r: Self)
        ensures
            r@ == self@,
    {
        CitraRunnerInstance {
            path: self.path.clone(),
            path_to_citra: self.path_to_citra.clone(),
            fullscreen: self.fullscreen,
        }
    }
}

impl CitraRunner {
    /// The settings of this runner with their labels and defaults.
    pub open spec fn default_settings() -> Map<Seq<char>, (Seq<char>, CValueView)> {
        Map::empty().insert(
            "citra:path_to_citra"@,
            ("path to citra"@, CValueView::PickFile(Seq::empty())),
        ).insert("citra:fullscreen"@, ("fullscreen"@, CValueView::Bool(false)))
    }

    /// The defaults have what this runner reads.
    pub open spec fn supplied(d: Map<Seq<char>, (Seq<char>, CValueView)>) -> bool {
        &&& has_kind(d, "citra:path_to_citra"@, Kind::PickFile)
        &&& has_kind(d, "citra:fullscreen"@, Kind::Bool)
    }

    /// Sets a game up from its path and the settings that hold for it.
    pub fn create_instance(&self, cfg: &Cfg, path: String, default: &Defaults) -> (r:
        CitraRunnerInstance)
        requires
            Self::supplied(default@),
            conforms(cfg@, default@),
        ensures
            r@ == (CitraRunnerInstanceView {
                path: path@,
                path_to_citra: text_of(resolved(cfg@, default@, "citra:path_to_citra"@)),
                fullscreen: resolved(cfg@, default@, "citra:fullscreen"@)->Bool_0,
            }),
    {
        CitraRunnerInstance {
            path,
            path_to_citra: setting_text(cfg, default, "citra:path_to_citra"),
            fullscreen: setting_bool(cfg, default, "citra:fullscreen"),
        }
    }

    /// The section of this runner in a settings file, and the keys of its
    /// settings in their order.
    pub open spec fn config_section() -> (Seq<char>, Seq<Seq<char>>) {
        ("citra:citra"@, seq!["citra:path_to_citra"@, "citra:fullscreen"@])
    }

    /// The section of this runner and the order of its settings in it.
    pub fn get_config_order(&self) -> (r: (String, Vec<String>))
        ensures
            (r.0@, texts(r.1@)) == Self::config_section(),
    {
        let mut keys: Vec<String> = Vec::new();
        keys.push("citra:path_to_citra".to_owned());
        keys.push("citra:fullscreen".to_owned());
        assert(texts(keys@) =~= seq!["citra:path_to_citra"@, "citra:fullscreen"@]);
        ("citra:citra".to_owned(), keys)
    }

    /// The settings of this runner with their labels and defaults.
    pub fn get_default_config(&self) -> (r: Defaults)
        ensures
            r@ == Self::default_settings(),
    {
        let mut out: Defaults = StrMap::new();
        out.insert(
            "citra:path_to_citra".to_owned(),
            ("path to citra".to_owned(), CValue::PickFile(String::new())),
        );
        out.insert("citra:fullscreen".to_owned(), ("fullscreen".to_owned(), CValue::Bool(false)));
        out
    }

    /// The name under which settings select this runner.
    pub fn get_runner_id(&self) -> (r: String)
        ensures
            r@ == "citra"@,
    {
        "citra".to_owned()
    }
}

impl CitraRunnerInstance {
    /// The invocation that runs the game.
    pub open spec fn command(v: CitraRunnerInstanceView) -> CommandView {
        bare_command(
            v.path_to_citra,
            if v.fullscreen {
                seq!["-f"@, v.path]
            } else {
                seq![v.path]
            },
        )
    }

    /// The invocation behind the name of an auxiliary command.
    pub open spec fn subcommand(v: CitraRunnerInstanceView, name: Seq<char>) -> Option<
        CommandView,
    > {
        if name == "citra"@ {
            Some(bare_command(v.path_to_citra, Seq::empty()))
        } else {
            None
        }
    }

    /// The invocation that runs the game.
    pub fn get_command(&self) -> (r: Command)
        ensures
            r@ == Self::command(self@),
    {
        let mut args: Vec<String> = Vec::new();
        if self.fullscreen {
            args.push("-f".to_owned());
        }
        args.push(self.path.clone());
        assert(texts(args@) =~= Self::command(self@).args);
        Command::bare(self.path_to_citra.clone(), args)
    }

    /// The names of the auxiliary commands.
    pub fn get_subcommands(&self) -> (r: Vec<String>)
        ensures
            texts(r@) == seq!["citra"@],
    {
        let mut names: Vec<String> = Vec::new();
        names.push("citra".to_owned());
        assert(texts(names@) =~= seq!["citra"@]);
        names
    }

    /// The invocation behind the name of an auxiliary command, if the name
    /// is one.
    pub fn get_subcommand_command(&self, command: String) -> (r: Option<Command>)
        ensures
            opt_command(r) == Self::subcommand(self@, command@),
    {
        if same_text(command.as_str(), "citra") {
            let args: Vec<String> = Vec::new();
            assert(texts(args@) =~= Seq::<Seq<char>>::empty());
            Some(Command::bare(self.path_to_citra.clone(), args))
        } else {
            None
        }
    }
}

} // verus!
