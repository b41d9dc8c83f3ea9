//! The runner for RPCS3.

use vstd::prelude::*;

use crate::command::{bare_command, opt_command, Command, CommandView};
use crate::config::{
    conforms, has_kind, resolved, setting_text, text_of, CValue, CValueView, Cfg,
    Defaults, Kind,
};
use crate::strmap::StrMap;
use crate::text::{same_text, texts};

verus! {

/// Runner for PlayStation 3 games with RPCS3.
pub struct Rpcs3Runner;

/// A game set up to run with RPCS3.
#[derive(Debug)]
pub struct Rpcs3RunnerInstance {
    pub path: String,
    pub path_to_rpcs3: String,
}

/// A `Rpcs3RunnerInstance` as mathematical values.
pub struct Rpcs3RunnerInstanceView {
    pub path: Seq<char>,
    pub path_to_rpcs3: Seq<char>,
}

impl View for Rpcs3RunnerInstance {
    type V = Rpcs3RunnerInstanceView;

    open spec fn view(&self) -> Rpcs3RunnerInstanceView {
        Rpcs3RunnerInstanceView {
            path: self.path@,
            path_to_rpcs3: self.path_to_rpcs3@,
        }
    }
}

impl Clone for Rpcs3RunnerInstance {
    fn clone(&self) -> (r: Self)
        ensures
            r@ == self@,
    {
        Rpcs3RunnerInstance {
            path: self.path.clone(),
            path_to_rpcs3: self.path_to_rpcs3.clone(),
        }
    }
}

impl Rpcs3Runner {
    /// The settings of this runner with their labels and defaults.
    pub open spec fn default_settings() -> Map<Seq<char>, (Seq<char>, CValueView)> {
        Map::empty().insert(
            "rpcs3:path_to_rpcs3"@,
            ("path to rpcs3"@, CValueView::PickFile(Seq::empty())),
        )
    }

    /// The defaults have what this runner reads.
    pub open spec fn supplied(d: Map<Seq<char>, (Seq<char>, CValueView)>) -> bool {
        &&& has_kind(d, "rpcs3:path_to_rpcs3"@, Kind::PickFile)
    }

    /// Sets a game up from its path and the settings that hold for it.
    pub fn create_instance(&self, cfg: &Cfg, path: String, default: &Defaults) -> (r:
        Rpcs3RunnerInstance)
        requires
            Self::supplied(default@),
            conforms(cfg@, default@),
        ensures
            r@ == (Rpcs3RunnerInstanceView {
                path: path@,
                path_to_rpcs3: text_of(resolved(cfg@, default@, "rpcs3:path_to_rpcs3"@)),
            }),
    {
        Rpcs3RunnerInstance {
            path,
            path_to_rpcs3: setting_text(cfg, default, "rpcs3:path_to_rpcs3"),
        }
    }

    /// The section of this runner in a settings file, and the keys of its
    /// settings in their order.
    pub open spec fn config_section() -> (Seq<char>, Seq<Seq<char>>) {
        ("rpcs3:rpcs3"@, seq!["rpcs3:path_to_rpcs3"@])
    }

    /// The section of this runner and the order of its settings in it.
    pub fn get_config_order(&self) -> (r: (String, Vec<String>))
        ensures
            (r.0@, texts(r.1@)) == Self::config_section(),
    {
        let mut keys: Vec<String> = Vec::new();
        keys.push("rpcs3:path_to_rpcs3".to_owned());
        assert(texts(keys@) =~= seq!["rpcs3:path_to_rpcs3"@]);
        ("rpcs3:rpcs3".to_owned(), keys)
    }

    /// The settings of this runner with their labels and defaults.
    pub fn get_default_config(&self) -> (r: Defaults)
        ensures
            r@ == Self::default_settings(),
    {
        let mut out: Defaults = StrMap::new();
        out.insert(
            "rpcs3:path_to_rpcs3".to_owned(),
            ("path to rpcs3".to_owned(), CValue::PickFile(String::new())),
        );
        out
    }

    /// The name under which settings select this runner.
    pub fn get_runner_id(&self) -> (r: String)
        ensures
            r@ == "rpcs3"@,
    {
        "rpcs3".to_owned()
    }
}

impl Rpcs3RunnerInstance {
    /// The invocation that runs the game.
    pub open spec fn command(v: Rpcs3RunnerInstanceView) -> CommandView {
        CommandView {
            program: v.path_to_rpcs3,
            cwd: None,
            args: seq!["--no-gui"@, v.path],
            envs: Map::empty().insert("QT_QPA_PLATFORM"@, "xcb"@),
        }
    }

    /// The invocation behind the name of an auxiliary command.
    pub open spec fn subcommand(v: Rpcs3RunnerInstanceView, name: Seq<char>) -> Option<
        CommandView,
    > {
        if name == "rpcs3"@ {
            Some(bare_command(v.path_to_rpcs3, Seq::empty()))
        } else {
            None
        }
    }

    /// The invocation that runs the game.
    pub fn get_command(&self) -> (r: Command)
        ensures
            r@ == Self::command(self@),
    {
        let mut envs: StrMap<String> = StrMap::new();
        envs.insert("QT_QPA_PLATFORM".to_owned(), "xcb".to_owned());
        let mut args: Vec<String> = Vec::new();
        args.push("--no-gui".to_owned());
        args.push(self.path.clone());
        assert(texts(args@) =~= Self::command(self@).args);
        Command { program: self.path_to_rpcs3.clone(), cwd: None, args, envs }
    }

    /// The names of the auxiliary commands.
    pub fn get_subcommands(&self) -> (r: Vec<String>)
        ensures
            texts(r@) == seq!["rpcs3"@],
    {
        let mut names: Vec<String> = Vec::new();
        names.push("rpcs3".to_owned());
        assert(texts(names@) =~= seq!["rpcs3"@]);
        names
    }

    /// The invocation behind the name of an auxiliary command, if the name
    /// is one.
    pub fn get_subcommand_command(&self, command: String) -> (r: Option<Command>)
        ensures
            opt_command(r) == Self::subcommand(self@, command@),
    {
        if same_text(command.as_str(), "rpcs3") {
            let args: Vec<String> = Vec::new();
            assert(texts(args@) =~= Seq::<Seq<char>>::empty());
            Some(Command::bare(self.path_to_rpcs3.clone(), args))
        } else {
            None
        }
    }
}

} // verus!
