//! The runner for Ryujinx.

use vstd::prelude::*;

use crate::command::{bare_command, opt_command, Command, CommandView};
use crate::config::{
    conforms, has_kind, resolved, setting_text, text_of, CValue, CValueView, Cfg,
    Defaults, Kind,
};
use crate::strmap::StrMap;
use crate::text::{same_text, texts};

verus! {

/// Runner for Nintendo Switch games with the Ryujinx emulator.
pub struct RyujinxRunner;

/// A game set up to run with Ryujinx.
#[derive(Debug)]
pub struct RyujinxRunnerInstance {
    pub path: String,
    pub path_to_ryujinx: String,
}

/// A `RyujinxRunnerInstance` as mathematical values.
pub struct RyujinxRunnerInstanceView {
    pub path: Seq<char>,
    pub path_to_ryujinx: Seq<char>,
}

impl View for RyujinxRunnerInstance {
    type V = RyujinxRunnerInstanceView;

    open spec fn view(&self) -> RyujinxRunnerInstanceView {
        RyujinxRunnerInstanceView {
            path: self.path@,
            path_to_ryujinx: self.path_to_ryujinx@,
        }
    }
}

impl Clone for RyujinxRunnerInstance {
    fn clone(&self) -> (r: Self)
        ensures
            r@ == self@,
    {
        RyujinxRunnerInstance {
            path: self.path.clone(),
            path_to_ryujinx: self.path_to_ryujinx.clone(),
        }
    }
}

impl RyujinxRunner {
    /// The settings of this runner with their labels and defaults.
    pub open spec fn default_settings() -> Map<Seq<char>, (Seq<char>, CValueView)> {
        Map::empty().insert(
            "ryujinx:path_to_ryujinx"@,
            ("path to ryujinx executable"@, CValueView::PickFile("ryujinx"@)),
        )
    }

    /// The defaults have what this runner reads.
    pub open spec fn supplied(d: Map<Seq<char>, (Seq<char>, CValueView)>) -> bool {
        &&& has_kind(d, "ryujinx:path_to_ryujinx"@, Kind::PickFile)
    }

    /// Sets a game up from its path and the settings that hold for it.
    pub fn create_instance(&self, cfg: &Cfg, path: String, default: &Defaults) -> (r:
        RyujinxRunnerInstance)
        requires
            Self::supplied(default@),
            conforms(cfg@, default@),
        ensures
            r@ == (RyujinxRunnerInstanceView {
                path: path@,
                path_to_ryujinx: text_of(resolved(cfg@, default@, "ryujinx:path_to_ryujinx"@)),
            }),
    {
        RyujinxRunnerInstance {
            path,
            path_to_ryujinx: setting_text(cfg, default, "ryujinx:path_to_ryujinx"),
        }
    }

    /// The section of this runner in a settings file, and the keys of its
    /// settings in their order.
    pub open spec fn config_section() -> (Seq<char>, Seq<Seq<char>>) {
        ("ryujinx:ryujinx"@, seq!["ryujinx:path_to_ryujinx"@])
    }

    /// The section of this runner and the order of its settings in it.
    pub fn get_config_order(&self) -> (r: (String, Vec<String>))
        ensures
            (r.0@, texts(r.1@)) == Self::config_section(),
    {
        let mut keys: Vec<String> = Vec::new();
        keys.push("ryujinx:path_to_ryujinx".to_owned());
        assert(texts(keys@) =~= seq!["ryujinx:path_to_ryujinx"@]);
        ("ryujinx:ryujinx".to_owned(), keys)
    }

    /// The settings of this runner with their labels and defaults.
    pub fn get_default_config(&self) -> (r: Defaults)
        ensures
            r@ == Self::default_settings(),
    {
        let mut out: Defaults = StrMap::new();
        out.insert(
            "ryujinx:path_to_ryujinx".to_owned(),
            ("path to ryujinx executable".to_owned(), CValue::PickFile("ryujinx".to_owned())),
        );
        out
    }

    /// The name under which settings select this runner.
    pub fn get_runner_id(&self) -> (r: String)
        ensures
            r@ == "ryujinx"@,
    {
        "ryujinx".to_owned()
    }
}

impl RyujinxRunnerInstance {
    /// The invocation that runs the game.
    pub open spec fn command(v: RyujinxRunnerInstanceView) -> CommandView {
        bare_command(
            v.path_to_ryujinx,
            seq![v.path],
        )
    }

    /// The invocation behind the name of an auxiliary command.
    pub open spec fn subcommand(v: RyujinxRunnerInstanceView, name: Seq<char>) -> Option<
        CommandView,
    > {
        if name == "ryujinx"@ {
            Some(bare_command(v.path_to_ryujinx, Seq::empty()))
        } else {
            None
        }
    }

    /// The invocation that runs the game.
    pub fn get_command(&self) -> (r: Command)
        ensures
            r@ == Self::command(self@),
    {
        let mut args: Vec<String> = Vec::new();
        args.push(self.path.clone());
        assert(texts(args@) =~= Self::command(self@).args);
        Command::bare(self.path_to_ryujinx.clone(), args)
    }

    /// The names of the auxiliary commands.
    pub fn get_subcommands(&self) -> (r: Vec<String>)
        ensures
            texts(r@) == seq!["ryujinx"@],
    {
        let mut names: Vec<String> = Vec::new();
        names.push("ryujinx".to_owned());
        assert(texts(names@) =~= seq!["ryujinx"@]);
        names
    }

    /// The invocation behind the name of an auxiliary command, if the name
    /// is one.
    pub fn get_subcommand_command(&self, command: String) -> (r: Option<Command>)
        ensures
            opt_command(r) == Self::subcommand(self@, command@),
    {
        if same_text(command.as_str(), "ryujinx") {
            let args: Vec<String> = Vec::new();
            assert(texts(args@) =~= Seq::<Seq<char>>::empty());
            Some(Command::bare(self.path_to_ryujinx.clone(), args))
        } else {
            None
        }
    }
}

} // verus!
