//! The runner for Vita3K.

use vstd::prelude::*;

use crate::command::{bare_command, opt_command, Command, CommandView};
use crate::config::{
    conforms, has_kind, resolved, setting_bool, setting_text, text_of, CValue, CValueView, Cfg,
    Defaults, Kind,
};
use crate::strmap::StrMap;
use crate::text::{same_text, texts};

verus! {

/// Runner for PlayStation Vita games with the Vita3K emulator.
pub struct Vita3kRunner;

/// A game set up to run with Vita3K.
#[derive(Debug)]
pub struct Vita3kRunnerInstance {
    pub path: String,
    pub path_to_vita3k: String,
    pub fullscreen: bool,
}

/// A `Vita3kRunnerInstance` as mathematical values.
pub struct Vita3kRunnerInstanceView {
    pub path: Seq<char>,
    pub path_to_vita3k: Seq<char>,
    pub fullscreen: bool,
}

impl View for Vita3kRunnerInstance {
    type V = Vita3kRunnerInstanceView;

    open spec fn view(&self) -> Vita3kRunnerInstanceView {
        Vita3kRunnerInstanceView {
            path: self.path@,
            path_to_vita3k: self.path_to_vita3k@,
            fullscreen: self.fullscreen,
        }
    }
}

impl Clone for Vita3kRunnerInstance {
    fn clone(&self) -> (r: Self)
        ensures
            r@ == self@,
    {
        Vita3kRunnerInstance {
            path: self.path.clone(),
            path_to_vita3k: self.path_to_vita3k.clone(),
            fullscreen: self.fullscreen,
        }
    }
}

impl Vita3kRunner {
    /// The settings of this runner with their labels and defaults.
    pub open spec fn default_settings() -> Map<Seq<char>, (Seq<char>, CValueView)> {
        Map::empty().insert(
            "vita3k:path_to_vita3k"@,
            ("path to vita3k"@, CValueView::PickFile(Seq::empty())),
        ).insert("vita3k:fullscreen"@, ("fullscreen"@, CValueView::Bool(false)))
    }

    /// The defaults have what this runner reads.
    pub open spec fn supplied(d: Map<Seq<char>, (Seq<char>, CValueView)>) -> bool {
        &&& has_kind(d, "vita3k:path_to_vita3k"@, Kind::PickFile)
        &&& has_kind(d, "vita3k:fullscreen"@, Kind::Bool)
    }

    /// Sets a game up from its path and the settings that hold for it.
    pub fn create_instance(&self, cfg: &Cfg, path: String, default: &Defaults) -> (r:
        Vita3kRunnerInstance)
        requires
            Self::supplied(default@),
            conforms(cfg@, default@),
        ensures
            r@ == (Vita3kRunnerInstanceView {
                path: path@,
                path_to_vita3k: text_of(resolved(cfg@, default@, "vita3k:path_to_vita3k"@)),
                fullscreen: resolved(cfg@, default@, "vita3k:fullscreen"@)->Bool_0,
            }),
    {
        Vita3kRunnerInstance {
            path,
            path_to_vita3k: setting_text(cfg, default, "vita3k:path_to_vita3k"),
            fullscreen: setting_bool(cfg, default, "vita3k:fullscreen"),
        }
    }

    /// The section of this runner in a settings file, and the keys of its
    /// settings in their order.
    pub open spec fn config_section() -> (Seq<char>, Seq<Seq<char>>) {
        ("vita3k:vita3k"@, seq!["vita3k:path_to_vita3k"@, "vita3k:fullscreen"@])
    }

    /// The section of this runner and the order of its settings in it.
    pub fn get_config_order(&self) -> (r: (String, Vec<String>))
        ensures
            (r.0@, texts(r.1@)) == Self::config_section(),
    {
        let mut keys: Vec<String> = Vec::new();
        keys.push("vita3k:path_to_vita3k".to_owned());
        keys.push("vita3k:fullscreen".to_owned());
        assert(texts(keys@) =~= seq!["vita3k:path_to_vita3k"@, "vita3k:fullscreen"@]);
        ("vita3k:vita3k".to_owned(), keys)
    }

    /// The settings of this runner with their labels and defaults.
    pub fn get_default_config(&self) -> (r: Defaults)
        ensures
            r@ == Self::default_settings(),
    {
        let mut out: Defaults = StrMap::new();
        out.insert(
            "vita3k:path_to_vita3k".to_owned(),
            ("path to vita3k".to_owned(), CValue::PickFile(String::new())),
        );
        out.insert("vita3k:fullscreen".to_owned(), ("fullscreen".to_owned(), CValue::Bool(false)));
        out
    }

    /// The name under which settings select this runner.
    pub fn get_runner_id(&self) -> (r: String)
        ensures
            r@ == "vita3k"@,
    {
        "vita3k".to_owned()
    }
}

impl Vita3kRunnerInstance {
    /// The invocation that runs the game.
    pub open spec fn command(v: Vita3kRunnerInstanceView) -> CommandView {
        bare_command(
            v.path_to_vita3k,
            if v.fullscreen {
                seq!["--fullscreen"@, "-r"@, v.path]
            } else {
                seq!["-r"@, v.path]
            },
        )
    }

    /// The invocation behind the name of an auxiliary command.
    pub open spec fn subcommand(v: Vita3kRunnerInstanceView, name: Seq<char>) -> Option<
        CommandView,
    > {
        if name == "vita3k"@ {
            Some(bare_command(v.path_to_vita3k, Seq::empty()))
        } else {
            None
        }
    }

    /// The invocation that runs the game.
    pub fn get_command(&self) -> (r: Command)
        ensures
            r@ == Self::command(self@),
    {
        let mut args: Vec<String> = Vec::new();
        if self.fullscreen {
            args.push("--fullscreen".to_owned());
        }
        args.push("-r".to_owned());
        args.push(self.path.clone());
        assert(texts(args@) =~= Self::command(self@).args);
        Command::bare(self.path_to_vita3k.clone(), args)
    }

    /// The names of the auxiliary commands.
    pub fn get_subcommands(&self) -> (r: Vec<String>)
        ensures
            texts(r@) == seq!["vita3k"@],
    {
        let mut names: Vec<String> = Vec::new();
        names.push("vita3k".to_owned());
        assert(texts(names@) =~= seq!["vita3k"@]);
        names
    }

    /// The invocation behind the name of an auxiliary command, if the name
    /// is one.
    pub fn get_subcommand_command(&self, command: String) -> (r: Option<Command>)
        ensures
            opt_command(r) == Self::subcommand(self@, command@),
    {
        if same_text(command.as_str(), "vita3k") {
            let args: Vec<String> = Vec::new();
            assert(texts(args@) =~= Seq::<Seq<char>>::empty());
            Some(Command::bare(self.path_to_vita3k.clone(), args))
        } else {
            None
        }
    }
}

} // verus!
