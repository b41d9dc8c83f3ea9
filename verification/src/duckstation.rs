//! The runner for DuckStation.

use vstd::prelude::*;

use crate::command::{bare_command, opt_command, Command, CommandView};
use crate::config::{
    conforms, has_kind, resolved, setting_bool, setting_text, text_of, CValue, CValueView, Cfg,
    Defaults, Kind,
};
use crate::strmap::StrMap;
use crate::text::{same_text, texts};

verus! {

/// Runner for Sony PlayStation games with the DuckStation emulator.
pub struct DuckStationRunner;

/// A game set up to run with DuckStation.
#[derive(Debug)]
pub struct DuckStationRunnerInstance {
    pub path: String,
    pub path_to_duckstation: String,
    pub fullscreen: bool,
}

/// A `DuckStationRunnerInstance` as mathematical values.
pub struct DuckStationRunnerInstanceView {
    pub path: Seq<char>,
    pub path_to_duckstation: Seq<char>,
    pub fullscreen: bool,
}

impl View for DuckStationRunnerInstance {
    type V = DuckStationRunnerInstanceView;

    open spec fn view(&self) -> DuckStationRunnerInstanceView {
        DuckStationRunnerInstanceView {
            path: self.path@,
            path_to_duckstation: self.path_to_duckstation@,
            fullscreen: self.fullscreen,
        }
    }
}

impl Clone for DuckStationRunnerInstance {
    fn clone(&self) -> (r: Self)
        ensures
            r@ == self@,
    {
        DuckStationRunnerInstance {
            path: self.path.clone(),
            path_to_duckstation: self.path_to_duckstation.clone(),
            fullscreen: self.fullscreen,
        }
    }
}

impl DuckStationRunner {
    /// The settings of this runner with their labels and defaults.
    pub open spec fn default_settings() -> Map<Seq<char>, (Seq<char>, CValueView)> {
        Map::empty().insert(
            "duckstation:path_to_duckstation"@,
            ("path to duckstation"@, CValueView::PickFile(Seq::empty())),
        ).insert("duckstation:fullscreen"@, ("fullscreen"@, CValueView::Bool(false)))
    }

    /// The defaults have what this runner reads.
    pub open spec fn supplied(d: Map<Seq<char>, (Seq<char>, CValueView)>) -> bool {
        &&& has_kind(d, "duckstation:path_to_duckstation"@, Kind::PickFile)
        &&& has_kind(d, "duckstation:fullscreen"@, Kind::Bool)
    }

    /// Sets a game up from its path and the settings that hold for it.
    pub fn create_instance(&self, cfg: &Cfg, path: String, default: &Defaults) -> (r:
        DuckStationRunnerInstance)
        requires
            Self::supplied(default@),
            conforms(cfg@, default@),
        ensures
            r@ == (DuckStationRunnerInstanceView {
                path: path@,
                path_to_duckstation: text_of(resolved(cfg@, default@, "duckstation:path_to_duckstation"@)),
                fullscreen: resolved(cfg@, default@, "duckstation:fullscreen"@)->Bool_0,
            }),
    {
        DuckStationRunnerInstance {
            path,
            path_to_duckstation: setting_text(cfg, default, "duckstation:path_to_duckstation"),
            fullscreen: setting_bool(cfg, default, "duckstation:fullscreen"),
        }
    }

    /// The section of this runner in a settings file, and the keys of its
    /// settings in their order.
    pub open spec fn config_section() -> (Seq<char>, Seq<Seq<char>>) {
        ("duckstation:duckstation"@, seq!["duckstation:path_to_duckstation"@, "duckstation:fullscreen"@])
    }

    /// The section of this runner and the order of its settings in it.
    pub fn get_config_order(&self) -> (r: (String, Vec<String>))
        ensures
            (r.0@, texts(r.1@)) == Self::config_section(),
    {
        let mut keys: Vec<String> = Vec::new();
        keys.push("duckstation:path_to_duckstation".to_owned());
        keys.push("duckstation:fullscreen".to_owned());
        assert(texts(keys@) =~= seq!["duckstation:path_to_duckstation"@, "duckstation:fullscreen"@]);
        ("duckstation:duckstation".to_owned(), keys)
    }

    /// The settings of this runner with their labels and defaults.
    pub fn get_default_config(&self) -> (r: Defaults)
        ensures
            r@ == Self::default_settings(),
    {
        let mut out: Defaults = StrMap::new();
        out.insert(
            "duckstation:path_to_duckstation".to_owned(),
            ("path to duckstation".to_owned(), CValue::PickFile(String::new())),
        );
        out.insert("duckstation:fullscreen".to_owned(), ("fullscreen".to_owned(), CValue::Bool(false)));
        out
    }

    /// The name under which settings select this runner.
    pub fn get_runner_id(&self) -> (r: String)
        ensures
            r@ == "duckstation"@,
    {
        "duckstation".to_owned()
    }
}

impl DuckStationRunnerInstance {
    /// The invocation that runs the game.
    pub open spec fn command(v: DuckStationRunnerInstanceView) -> CommandView {
        bare_command(
            v.path_to_duckstation,
            if v.fullscreen {
                seq!["-fullscreen"@, "--"@, v.path]
            } else {
                seq!["--"@, v.path]
            },
        )
    }

    /// The invocation behind the name of an auxiliary command.
    pub open spec fn subcommand(v: DuckStationRunnerInstanceView, name: Seq<char>) -> Option<
        CommandView,
    > {
        if name == "duckstation"@ {
            Some(bare_command(v.path_to_duckstation, Seq::empty()))
        } else {
            None
        }
    }

    /// The invocation that runs the game.
    pub fn get_command(&self) -> (r: Command)
        ensures
            r@ == Self::command(self@),
    {
        let mut args: Vec<String> = Vec::new();
        if self.fullscreen {
            args.push("-fullscreen".to_owned());
        }
        args.push("--".to_owned());
        args.push(self.path.clone());
        assert(texts(args@) =~= Self::command(self@).args);
        Command::bare(self.path_to_duckstation.clone(), args)
    }

    /// The names of the auxiliary commands.
    pub fn get_subcommands(&self) -> (r: Vec<String>)
        ensures
            texts(r@) == seq!["duckstation"@],
    {
        let mut names: Vec<String> = Vec::new();
        names.push("duckstation".to_owned());
        assert(texts(names@) =~= seq!["duckstation"@]);
        names
    }

    /// The invocation behind the name of an auxiliary command, if the name
    /// is one.
    pub fn get_subcommand_command(&self, command: String) -> (r: Option<Command>)
        ensures
            opt_command(r) == Self::subcommand(self@, command@),
    {
        if same_text(command.as_str(), "duckstation") {
            let args: Vec<String> = Vec::new();
            assert(texts(args@) =~= Seq::<Seq<char>>::empty());
            Some(Command::bare(self.path_to_duckstation.clone(), args))
        } else {
            None
        }
    }
}

} // verus!
