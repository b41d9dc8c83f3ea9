//! The runner for Yuzu.

use vstd::prelude::*;

use crate::command::{bare_command, opt_command, Command, CommandView};
use crate::config::{
    conforms, has_kind, resolved, setting_bool, setting_text, text_of, CValue, CValueView, Cfg,
    Defaults, Kind,
};
use crate::strmap::StrMap;
use crate::text::{same_text, texts};

verus! {

/// Runner for Nintendo Switch games with the Yuzu emulator, and with its
/// forks.
pub struct YuzuRunner;

/// A game set up to run with Yuzu.
#[derive(Debug)]
pub struct YuzuRunnerInstance {
    pub path: String,
    pub path_to_yuzu: String,
    pub fullscreen: bool,
}

/// A `YuzuRunnerInstance` as mathematical values.
pub struct YuzuRunnerInstanceView {
    pub path: Seq<char>,
    pub path_to_yuzu: Seq<char>,
    pub fullscreen: bool,
}

impl View for YuzuRunnerInstance {
    type V = YuzuRunnerInstanceView;

    open spec fn view(&self) -> YuzuRunnerInstanceView {
        YuzuRunnerInstanceView {
            path: self.path@,
            path_to_yuzu: self.path_to_yuzu@,
            fullscreen: self.fullscreen,
        }
    }
}

impl Clone for YuzuRunnerInstance {
    fn clone(&self) -> (r: Self)
        ensures
            r@ == self@,
    {
        YuzuRunnerInstance {
            path: self.path.clone(),
            path_to_yuzu: self.path_to_yuzu.clone(),
            fullscreen: self.fullscreen,
        }
    }
}

impl YuzuRunner {
    /// The settings of this runner with their labels and defaults.
    pub open spec fn default_settings() -> Map<Seq<char>, (Seq<char>, CValueView)> {
        Map::empty().insert(
            "yuzu:path_to_yuzu"@,
            ("path to yuzu"@, CValueView::PickFile(Seq::empty())),
        ).insert("yuzu:fullscreen"@, ("fullscreen"@, CValueView::Bool(false)))
    }

    /// The defaults have what this runner reads.
    pub open spec fn supplied(d: Map<Seq<char>, (Seq<char>, CValueView)>) -> bool {
        &&& has_kind(d, "yuzu:path_to_yuzu"@, Kind::PickFile)
        &&& has_kind(d, "yuzu:fullscreen"@, Kind::Bool)
    }

    /// Sets a game up from its path and the settings that hold for it.
    pub fn create_instance(&self, cfg: &Cfg, path: String, default: &Defaults) -> (r:
        YuzuRunnerInstance)
        requires
            Self::supplied(default@),
            conforms(cfg@, default@),
        ensures
            r@ == (YuzuRunnerInstanceView {
                path: path@,
                path_to_yuzu: text_of(resolved(cfg@, default@, "yuzu:path_to_yuzu"@)),
                fullscreen: resolved(cfg@, default@, "yuzu:fullscreen"@)->Bool_0,
            }),
    {
        YuzuRunnerInstance {
            path,
            path_to_yuzu: setting_text(cfg, default, "yuzu:path_to_yuzu"),
            fullscreen: setting_bool(cfg, default, "yuzu:fullscreen"),
        }
    }

    /// The section of this runner in a settings file, and the keys of its
    /// settings in their order.
    pub open spec fn config_section() -> (Seq<char>, Seq<Seq<char>>) {
        ("yuzu:yuzu"@, seq!["yuzu:path_to_yuzu"@, "yuzu:fullscreen"@])
    }

    /// The section of this runner and the order of its settings in it.
    pub fn get_config_order(&self) -> (r: (String, Vec<String>))
        ensures
            (r.0@, texts(r.1@)) == Self::config_section(),
    {
        let mut keys: Vec<String> = Vec::new();
        keys.push("yuzu:path_to_yuzu".to_owned());
        keys.push("yuzu:fullscreen".to_owned());
        assert(texts(keys@) =~= seq!["yuzu:path_to_yuzu"@, "yuzu:fullscreen"@]);
        ("yuzu:yuzu".to_owned(), keys)
    }

    /// The settings of this runner with their labels and defaults.
    pub fn get_default_config(&self) -> (r: Defaults)
        ensures
            r@ == Self::default_settings(),
    {
        let mut out: Defaults = StrMap::new();
        out.insert(
            "yuzu:path_to_yuzu".to_owned(),
            ("path to yuzu".to_owned(), CValue::PickFile(String::new())),
        );
        out.insert("yuzu:fullscreen".to_owned(), ("fullscreen".to_owned(), CValue::Bool(false)));
        out
    }

    /// The name under which settings select this runner.
    pub fn get_runner_id(&self) -> (r: String)
        ensures
            r@ == "yuzu"@,
    {
        "yuzu".to_owned()
    }
}

impl YuzuRunnerInstance {
    /// The invocation that runs the game.
    pub open spec fn command(v: YuzuRunnerInstanceView) -> CommandView {
        bare_command(
            v.path_to_yuzu,
            if v.fullscreen {
                seq!["-f"@, "-g"@, v.path]
            } else {
                seq!["-g"@, v.path]
            },
        )
    }

    /// The invocation behind the name of an auxiliary command.
    pub open spec fn subcommand(v: YuzuRunnerInstanceView, name: Seq<char>) -> Option<
        CommandView,
    > {
        if name == "yuzu"@ {
            Some(bare_command(v.path_to_yuzu, Seq::empty()))
        } else {
            None
        }
    }

    /// The invocation that runs the game.
    pub fn get_command(&self) -> (r: Command)
        ensures
            r@ == Self::command(self@),
    {
        let mut args: Vec<String> = Vec::new();
        if self.fullscreen {
            args.push("-f".to_owned());
        }
        args.push("-g".to_owned());
        args.push(self.path.clone());
        assert(texts(args@) =~= Self::command(self@).args);
        Command::bare(self.path_to_yuzu.clone(), args)
    }

    /// The names of the auxiliary commands.
    pub fn get_subcommands(&self) -> (r: Vec<String>)
        ensures
            texts(r@) == seq!["yuzu"@],
    {
        let mut names: Vec<String> = Vec::new();
        names.push("yuzu".to_owned());
        assert(texts(names@) =~= seq!["yuzu"@]);
        names
    }

    /// The invocation behind the name of an auxiliary command, if the name
    /// is one.
    pub fn get_subcommand_command(&self, command: String) -> (r: Option<Command>)
        ensures
            opt_command(r) == Self::subcommand(self@, command@),
    {
        if same_text(command.as_str(), "yuzu") {
            let args: Vec<String> = Vec::new();
            assert(texts(args@) =~= Seq::<Seq<char>>::empty());
            Some(Command::bare(self.path_to_yuzu.clone(), args))
        } else {
            None
        }
    }
}

} // verus!
