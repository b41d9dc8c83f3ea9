//! The runner for native programs.

use vstd::prelude::*;

use crate::command::{bare_command, Command, CommandView};
use crate::config::{
    conforms, has_kind, resolved, setting_list, CValue, CValueView, Cfg, Defaults, Kind,
};
use crate::strmap::StrMap;
use crate::text::{copy_texts, texts};

verus! {

/// Runner for native programs.
pub struct NativeRunner;

/// A program set up to run as it is.
#[derive(Debug)]
pub struct NativeRunnerInstance {
    pub path: String,
    pub args: Vec<String>,
}

/// A `NativeRunnerInstance` as mathematical values.
pub struct NativeRunnerInstanceView {
    pub path: Seq<char>,
    pub args: Seq<Seq<char>>,
}

impl View for NativeRunnerInstance {
    type V = NativeRunnerInstanceView;

    open spec fn view(&self) -> NativeRunnerInstanceView {
        NativeRunnerInstanceView { path: self.path@, args: texts(self.args@) }
    }
}

impl Clone for NativeRunnerInstance {
    fn clone(&self) -> (r: Self)
        ensures
            r@ == self@,
    {
        NativeRunnerInstance {
            path: self.path.clone(),
            args: copy_texts(&self.args),
        }
    }
}

impl NativeRunner {
    /// The settings of this runner with their labels and defaults.
    pub open spec fn default_settings() -> Map<Seq<char>, (Seq<char>, CValueView)> {
        Map::empty().insert(
            "native:args"@,
            ("additional arguments"@, CValueView::StrArr(Seq::empty())),
        )
    }

    /// The defaults have what this runner reads.
    pub open spec fn supplied(d: Map<Seq<char>, (Seq<char>, CValueView)>) -> bool {
        has_kind(d, "native:args"@, Kind::StrArr)
    }

    /// Sets a program up from its path and the settings that hold for it.
    pub fn create_instance(&self, cfg: &Cfg, path: String, default: &Defaults) -> (r:
        NativeRunnerInstance)
        requires
            Self::supplied(default@),
            conforms(cfg@, default@),
        ensures
            r@ == (NativeRunnerInstanceView {
                path: path@,
                args: resolved(cfg@, default@, "native:args"@)->StrArr_0,
            }),
    {
        NativeRunnerInstance { path, args: setting_list(cfg, default, "native:args") }
    }

    /// The section of this runner in a settings file, and the keys of its
    /// settings in their order.
    pub open spec fn config_section() -> (Seq<char>, Seq<Seq<char>>) {
        ("native:native"@, seq!["native:args"@])
    }

    /// The section of this runner and the order of its settings in it.
    pub fn get_config_order(&self) -> (r: (String, Vec<String>))
        ensures
            (r.0@, texts(r.1@)) == Self::config_section(),
    {
        let mut keys: Vec<String> = Vec::new();
        keys.push("native:args".to_owned());
        assert(texts(keys@) =~= seq!["native:args"@]);
        ("native:native".to_owned(), keys)
    }

    /// The settings of this runner with their labels and defaults.
    pub fn get_default_config(&self) -> (r: Defaults)
        ensures
            r@ == Self::default_settings(),
    {
        let mut out: Defaults = StrMap::new();
        let none: Vec<String> = Vec::new();
        assert(texts(none@) =~= Seq::<Seq<char>>::empty());
        out.insert("native:args".to_owned(), ("additional arguments".to_owned(), CValue::StrArr(none)));
        out
    }

    /// The name under which settings select this runner.
    pub fn get_runner_id(&self) -> (r: String)
        ensures
            r@ == "native"@,
    {
        "native".to_owned()
    }
}

impl NativeRunnerInstance {
    /// The invocation that runs the program: the program itself with the
    /// additional arguments.
    pub open spec fn command(v: NativeRunnerInstanceView) -> CommandView {
        bare_command(v.path, v.args)
    }

    /// The invocation that runs the program.
    pub fn get_command(&self) -> (r: Command)
        ensures
            r@ == Self::command(self@),
    {
        Command::bare(self.path.clone(), copy_texts(&self.args))
    }

    /// The names of the auxiliary commands: there is none.
    pub fn get_subcommands(&self) -> (r: Vec<String>)
        ensures
            r@.len() == 0,
    {
        Vec::new()
    }

    /// The invocation behind the name of an auxiliary command: there is
    /// none.
    pub fn get_subcommand_command(&self, command: String) -> (r: Option<Command>)
        ensures
            r is None,
    {
        None
    }
}

} // verus!
