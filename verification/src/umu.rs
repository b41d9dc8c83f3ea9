//! The runner for umu.

use vstd::prelude::*;

use crate::command::{Command, CommandView};
use crate::config::{
    conforms, has_kind, resolved, setting_text, text_of, CValue, CValueView, Cfg, Defaults, Kind,
};
use crate::strmap::StrMap;
use crate::text::texts;

verus! {

/// Runner for Windows games with umu, the Proton-based launcher.
pub struct UmuRunner;

/// A game set up to run with umu.
#[derive(Debug)]
pub struct UmuRunnerInstance {
    pub path: String,
    pub path_to_umu: String,
    pub path_to_proton: String,
    pub gameid: String,
    pub store: String,
}

/// A `UmuRunnerInstance` as mathematical values.
pub struct UmuRunnerInstanceView {
    pub path: Seq<char>,
    pub path_to_umu: Seq<char>,
    pub path_to_proton: Seq<char>,
    pub gameid: Seq<char>,
    pub store: Seq<char>,
}

impl View for UmuRunnerInstance {
    type V = UmuRunnerInstanceView;

    open spec fn view(&self) -> UmuRunnerInstanceView {
        UmuRunnerInstanceView {
            path: self.path@,
            path_to_umu: self.path_to_umu@,
            path_to_proton: self.path_to_proton@,
            gameid: self.gameid@,
            store: self.store@,
        }
    }
}

impl Clone for UmuRunnerInstance {
    fn clone(&self) -> (r: Self)
        ensures
            r@ == self@,
    {
        UmuRunnerInstance {
            path: self.path.clone(),
            path_to_umu: self.path_to_umu.clone(),
            path_to_proton: self.path_to_proton.clone(),
            gameid: self.gameid.clone(),
            store: self.store.clone(),
        }
    }
}

impl UmuRunner {
    /// The settings of this runner with their labels and defaults.
    pub open spec fn default_settings() -> Map<Seq<char>, (Seq<char>, CValueView)> {
        Map::empty().insert(
            "umu:path_to_umu"@,
            ("path to umu"@, CValueView::PickFile(Seq::empty())),
        ).insert(
            "umu:path_to_proton"@,
            ("path to proton"@, CValueView::PickFolder(Seq::empty())),
        ).insert("umu:gameid"@, ("gameid"@, CValueView::Str("0"@))).insert(
            "umu:store"@,
            ("store"@, CValueView::Str(Seq::empty())),
        )
    }

    /// The defaults have what this runner reads.
    pub open spec fn supplied(d: Map<Seq<char>, (Seq<char>, CValueView)>) -> bool {
        &&& has_kind(d, "umu:path_to_umu"@, Kind::PickFile)
        &&& has_kind(d, "umu:path_to_proton"@, Kind::PickFolder)
        &&& has_kind(d, "umu:gameid"@, Kind::Str)
        &&& has_kind(d, "umu:store"@, Kind::Str)
    }

    /// Sets a game up from its path and the settings that hold for it.
    pub fn create_instance(&self, cfg: &Cfg, path: String, default: &Defaults) -> (r:
        UmuRunnerInstance)
        requires
            Self::supplied(default@),
            conforms(cfg@, default@),
        ensures
            r@ == (UmuRunnerInstanceView {
                path: path@,
                path_to_umu: text_of(resolved(cfg@, default@, "umu:path_to_umu"@)),
                path_to_proton: text_of(resolved(cfg@, default@, "umu:path_to_proton"@)),
                gameid: text_of(resolved(cfg@, default@, "umu:gameid"@)),
                store: text_of(resolved(cfg@, default@, "umu:store"@)),
            }),
    {
        UmuRunnerInstance {
            path,
            path_to_umu: setting_text(cfg, default, "umu:path_to_umu"),
            path_to_proton: setting_text(cfg, default, "umu:path_to_proton"),
            gameid: setting_text(cfg, default, "umu:gameid"),
            store: setting_text(cfg, default, "umu:store"),
        }
    }

    /// The section of this runner in a settings file, and the keys of its
    /// settings in their order.
    pub open spec fn config_section() -> (Seq<char>, Seq<Seq<char>>) {
        ("umu:umu"@, seq![
            "umu:path_to_umu"@,
            "umu:path_to_proton"@,
            "umu:gameid"@,
            "umu:store"@,
        ])
    }

    /// The section of this runner and the order of its settings in it.
    pub fn get_config_order(&self) -> (r: (String, Vec<String>))
        ensures
            (r.0@, texts(r.1@)) == Self::config_section(),
    {
        let mut keys: Vec<String> = Vec::new();
        keys.push("umu:path_to_umu".to_owned());
        keys.push("umu:path_to_proton".to_owned());
        keys.push("umu:gameid".to_owned());
        keys.push("umu:store".to_owned());
        assert(texts(keys@) =~= seq![
            "umu:path_to_umu"@,
            "umu:path_to_proton"@,
            "umu:gameid"@,
            "umu:store"@,
        ]);
        ("umu:umu".to_owned(), keys)
    }

    /// The settings of this runner with their labels and defaults.
    pub fn get_default_config(&self) -> (r: Defaults)
        ensures
            r@ == Self::default_settings(),
    {
        let mut out: Defaults = StrMap::new();
        out.insert(
            "umu:path_to_umu".to_owned(),
            ("path to umu".to_owned(), CValue::PickFile(String::new())),
        );
        out.insert(
            "umu:path_to_proton".to_owned(),
            ("path to proton".to_owned(), CValue::PickFolder(String::new())),
        );
        out.insert("umu:gameid".to_owned(), ("gameid".to_owned(), CValue::Str("0".to_owned())));
        out.insert("umu:store".to_owned(), ("store".to_owned(), CValue::Str(String::new())));
        out
    }

    /// The name under which settings select this runner.
    pub fn get_runner_id(&self) -> (r: String)
        ensures
            r@ == "umu"@,
    {
        "umu".to_owned()
    }
}

impl UmuRunnerInstance {
    /// The variables that umu reads: the game's identifier, the Proton to
    /// use, and the store if one is named.
    pub open spec fn variables(v: UmuRunnerInstanceView) -> Map<Seq<char>, Seq<char>> {
        let a = Map::empty().insert("GAMEID"@, v.gameid);
        let b = if v.store.len() > 0 {
            a.insert("STORE"@, v.store)
        } else {
            a
        };
        b.insert("PROTONPATH"@, v.path_to_proton)
    }

    /// The invocation that runs the game.
    pub open spec fn command(v: UmuRunnerInstanceView) -> CommandView {
        CommandView {
            program: v.path_to_umu,
            cwd: None,
            args: seq![v.path],
            envs: Self::variables(v),
        }
    }

    /// The invocation that runs the game.
    pub fn get_command(&self) -> (r: Command)
        ensures
            r@ == Self::command(self@),
    {
        let mut envs: StrMap<String> = StrMap::new();
        envs.insert("GAMEID".to_owned(), self.gameid.clone());
        if !self.store.as_str().is_empty() {
            envs.insert("STORE".to_owned(), self.store.clone());
        }
        envs.insert("PROTONPATH".to_owned(), self.path_to_proton.clone());
        let mut args: Vec<String> = Vec::new();
        args.push(self.path.clone());
        assert(texts(args@) =~= seq![self.path@]);
        Command { program: self.path_to_umu.clone(), cwd: None, args, envs }
    }

    /// The names of the auxiliary commands: there is none.
    pub fn get_subcommands(&self) -> (r: Vec<String>)
        ensures
            r@.len() == 0,
    {
        Vec::new()
    }

    /// The invocation behind the name of an auxiliary command: there is
    /// none.
    pub fn get_subcommand_command(&self, command: String) -> (r: Option<Command>)
        ensures
            r is None,
    {
        None
    }
}

} // verus!
