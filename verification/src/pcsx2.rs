//! The runner for PCSX2.

use vstd::prelude::*;

use crate::command::{bare_command, opt_command, Command, CommandView};
use crate::config::{
    conforms, has_kind, resolved, setting_bool, setting_text, text_of, CValue, CValueView, Cfg,
    Defaults, Kind,
};
use crate::strmap::StrMap;
use crate::text::{same_text, texts};

verus! {

/// Runner for PlayStation 2 games with PCSX2, in its newer Qt-based versions.
pub struct Pcsx2Runner;

/// A game set up to run with PCSX2.
#[derive(Debug)]
pub struct Pcsx2RunnerInstance {
    pub path: String,
    pub path_to_pcsx2: String,
    pub fullscreen: bool,
}

/// A `Pcsx2RunnerInstance` as mathematical values.
pub struct Pcsx2RunnerInstanceView {
    pub path: Seq<char>,
    pub path_to_pcsx2: Seq<char>,
    pub fullscreen: bool,
}

impl View for Pcsx2RunnerInstance {
    type V = Pcsx2RunnerInstanceView;

    open spec fn view(&self) -> Pcsx2RunnerInstanceView {
        Pcsx2RunnerInstanceView {
            path: self.path@,
            path_to_pcsx2: self.path_to_pcsx2@,
            fullscreen: self.fullscreen,
        }
    }
}

impl Clone for Pcsx2RunnerInstance {
    fn clone(&self) -> (r: Self)
        ensures
            r@ == self@,
    {
        Pcsx2RunnerInstance {
            path: self.path.clone(),
            path_to_pcsx2: self.path_to_pcsx2.clone(),
            fullscreen: self.fullscreen,
        }
    }
}

impl Pcsx2Runner {
    /// The settings of this runner with their labels and defaults.
    pub open spec fn default_settings() -> Map<Seq<char>, (Seq<char>, CValueView)> {
        Map::empty().insert(
            "pcsx2:path_to_pcsx2"@,
            ("path to pcsx2"@, CValueView::PickFile(Seq::empty())),
        ).insert("pcsx2:fullscreen"@, ("fullscreen"@, CValueView::Bool(false)))
    }

    /// The defaults have what this runner reads.
    pub open spec fn supplied(d: Map<Seq<char>, (Seq<char>, CValueView)>) -> bool {
        &&& has_kind(d, "pcsx2:path_to_pcsx2"@, Kind::PickFile)
        &&& has_kind(d, "pcsx2:fullscreen"@, Kind::Bool)
    }

    /// Sets a game up from its path and the settings that hold for it.
    pub fn create_instance(&self, cfg: &Cfg, path: String, default: &Defaults) -> (r:
        Pcsx2RunnerInstance)
        requires
            Self::supplied(default@),
            conforms(cfg@, default@),
        ensures
            r@ == (Pcsx2RunnerInstanceView {
                path: path@,
                path_to_pcsx2: text_of(resolved(cfg@, default@, "pcsx2:path_to_pcsx2"@)),
                fullscreen: resolved(cfg@, default@, "pcsx2:fullscreen"@)->Bool_0,
            }),
    {
        Pcsx2RunnerInstance {
            path,
            path_to_pcsx2: setting_text(cfg, default, "pcsx2:path_to_pcsx2"),
            fullscreen: setting_bool(cfg, default, "pcsx2:fullscreen"),
        }
    }

    /// The section of this runner in a settings file, and the keys of its
    /// settings in their order.
    pub open spec fn config_section() -> (Seq<char>, Seq<Seq<char>>) {
        ("pcsx2:pcsx2"@, seq!["pcsx2:path_to_pcsx2"@, "pcsx2:fullscreen"@])
    }

    /// The section of this runner and the order of its settings in it.
    pub fn get_config_order(&self) -> (r: (String, Vec<String>))
        ensures
            (r.0@, texts(r.1@)) == Self::config_section(),
    {
        let mut keys: Vec<String> = Vec::new();
        keys.push("pcsx2:path_to_pcsx2".to_owned());
        keys.push("pcsx2:fullscreen".to_owned());
        assert(texts(keys@) =~= seq!["pcsx2:path_to_pcsx2"@, "pcsx2:fullscreen"@]);
        ("pcsx2:pcsx2".to_owned(), keys)
    }

    /// The settings of this runner with their labels and defaults.
    pub fn get_default_config(&self) -> (r: Defaults)
        ensures
            r@ == Self::default_settings(),
    {
        let mut out: Defaults = StrMap::new();
        out.insert(
            "pcsx2:path_to_pcsx2".to_owned(),
            ("path to pcsx2".to_owned(), CValue::PickFile(String::new())),
        );
        out.insert("pcsx2:fullscreen".to_owned(), ("fullscreen".to_owned(), CValue::Bool(false)));
        out
    }

    /// The name under which settings select this runner.
    pub fn get_runner_id(&self) -> (r: String)
        ensures
            r@ == "pcsx2"@,
    {
        "pcsx2".to_owned()
    }
}

impl Pcsx2RunnerInstance {
    /// The invocation that runs the game.
    pub open spec fn command(v: Pcsx2RunnerInstanceView) -> CommandView {
        bare_command(
            v.path_to_pcsx2,
            if v.fullscreen {
                seq!["-fullscreen"@, "--"@, v.path]
            } else {
                seq!["--"@, v.path]
            },
        )
    }

    /// The invocation behind the name of an auxiliary command.
    pub open spec fn subcommand(v: Pcsx2RunnerInstanceView, name: Seq<char>) -> Option<
        CommandView,
    > {
        if name == "pcsx2"@ {
            Some(bare_command(v.path_to_pcsx2, Seq::empty()))
        } else {
            None
        }
    }

    /// The invocation that runs the game.
    pub fn get_command(&self) -> (r: Command)
        ensures
            r@ == Self::command(self@),
    {
        let mut args: Vec<String> = Vec::new();
        if self.fullscreen {
            args.push("-fullscreen".to_owned());
        }
        args.push("--".to_owned());
        args.push(self.path.clone());
        assert(texts(args@) =~= Self::command(self@).args);
        Command::bare(self.path_to_pcsx2.clone(), args)
    }

    /// The names of the auxiliary commands.
    pub fn get_subcommands(&self) -> (r: Vec<String>)
        ensures
            texts(r@) == seq!["pcsx2"@],
    {
        let mut names: Vec<String> = Vec::new();
        names.push("pcsx2".to_owned());
        assert(texts(names@) =~= seq!["pcsx2"@]);
        names
    }

    /// The invocation behind the name of an auxiliary command, if the name
    /// is one.
    pub fn get_subcommand_command(&self, command: String) -> (r: Option<Command>)
        ensures
            opt_command(r) == Self::subcommand(self@, command@),
    {
        if same_text(command.as_str(), "pcsx2") {
            let args: Vec<String> = Vec::new();
            assert(texts(args@) =~= Seq::<Seq<char>>::empty());
            Some(Command::bare(self.path_to_pcsx2.clone(), args))
        } else {
            None
        }
    }
}

} // verus!
