//! The runner for Steam.

use vstd::prelude::*;

use crate::command::{bare_command, opt_command, Command, CommandView};
use crate::config::{CValueView, Cfg, Defaults};
use crate::strmap::StrMap;
use crate::text::{same_text, texts};

verus! {

/// Runner for games of a Steam library.
pub struct SteamRunner;

/// A Steam game; its path is its identifier in the library.
#[derive(Debug)]
pub struct SteamRunnerInstance {
    pub path: String,
}

/// A `SteamRunnerInstance` as mathematical values.
pub struct SteamRunnerInstanceView {
    pub path: Seq<char>,
}

impl View for SteamRunnerInstance {
    type V = SteamRunnerInstanceView;

    open spec fn view(&self) -> SteamRunnerInstanceView {
        SteamRunnerInstanceView { path: self.path@ }
    }
}

impl Clone for SteamRunnerInstance {
    fn clone(&self) -> (r: Self)
        ensures
            r@ == self@,
    {
        SteamRunnerInstance {
            path: self.path.clone(),
        }
    }
}

impl SteamRunner {
    /// The settings of this runner: it has none.
    pub open spec fn default_settings() -> Map<Seq<char>, (Seq<char>, CValueView)> {
        Map::empty()
    }

    /// Sets a game up from its identifier. No setting is read.
    pub fn create_instance(&self, cfg: &Cfg, path: String, default: &Defaults) -> (r:
        SteamRunnerInstance)
        ensures
            r@ == (SteamRunnerInstanceView { path: path@ }),
    {
        SteamRunnerInstance { path }
    }

    /// The section of this runner in a settings file, and the keys of its
    /// settings in their order.
    pub open spec fn config_section() -> (Seq<char>, Seq<Seq<char>>) {
        ("steam:steam"@, Seq::empty())
    }

    /// The section of this runner, which holds no setting.
    pub fn get_config_order(&self) -> (r: (String, Vec<String>))
        ensures
            (r.0@, texts(r.1@)) == Self::config_section(),
    {
        let keys: Vec<String> = Vec::new();
        assert(texts(keys@) =~= Seq::<Seq<char>>::empty());
        ("steam:steam".to_owned(), keys)
    }

    /// The settings of this runner: it has none.
    pub fn get_default_config(&self) -> (r: Defaults)
        ensures
            r@ == Self::default_settings(),
    {
        StrMap::new()
    }

    /// The name under which settings select this runner.
    pub fn get_runner_id(&self) -> (r: String)
        ensures
            r@ == "steam"@,
    {
        "steam".to_owned()
    }
}

impl SteamRunnerInstance {
    /// The invocation that runs the game: the launcher, with the address of
    /// the game.
    pub open spec fn command(v: SteamRunnerInstanceView) -> CommandView {
        bare_command("steam"@, seq!["steam://rungameid/"@ + v.path])
    }

    /// The invocation behind the name of an auxiliary command.
    pub open spec fn subcommand(v: SteamRunnerInstanceView, name: Seq<char>) -> Option<
        CommandView,
    > {
        if name == "steam"@ {
            Some(bare_command("steam"@, seq!["steam://open/main"@]))
        } else {
            None
        }
    }

    /// The invocation that runs the game.
    pub fn get_command(&self) -> (r: Command)
        ensures
            r@ == Self::command(self@),
    {
        let mut args: Vec<String> = Vec::new();
        args.push("steam://rungameid/".to_owned().concat(self.path.as_str()));
        assert(texts(args@) =~= Self::command(self@).args);
        Command::bare("steam".to_owned(), args)
    }

    /// The names of the auxiliary commands.
    pub fn get_subcommands(&self) -> (r: Vec<String>)
        ensures
            texts(r@) == seq!["steam"@],
    {
        let mut names: Vec<String> = Vec::new();
        names.push("steam".to_owned());
        assert(texts(names@) =~= seq!["steam"@]);
        names
    }

    /// The invocation behind the name of an auxiliary command, if the name
    /// is one.
    pub fn get_subcommand_command(&self, command: String) -> (r: Option<Command>)
        ensures
            opt_command(r) == Self::subcommand(self@, command@),
    {
        if same_text(command.as_str(), "steam") {
            let mut args: Vec<String> = Vec::new();
            args.push("steam://open/main".to_owned());
            assert(texts(args@) =~= seq!["steam://open/main"@]);
            Some(Command::bare("steam".to_owned(), args))
        } else {
            None
        }
    }
}

} // verus!
