//! The runners as one closed set, and the games of the catalog.

use vstd::prelude::*;

use crate::citra::{CitraRunner, CitraRunnerInstance, CitraRunnerInstanceView};
use crate::command::{empty_command, opt_command, Command, CommandView};
use crate::config::{
    conforms, given, paired, resolved, setting_bool, setting_list, setting_text, text, toggle,
    CValueView, Cfg, Defaults,
};
use crate::environment::{applied, Config, ConfigView};
use crate::format::{parse_isize, parsed_isize};
use crate::text::{opt, opt_text, same_text, texts};
use crate::defaults::is_complete;
use crate::duckstation::{
    DuckStationRunner, DuckStationRunnerInstance, DuckStationRunnerInstanceView,
};
use crate::mame::{MameRunner, MameRunnerInstance, MameRunnerInstanceView};
use crate::native::{NativeRunner, NativeRunnerInstance, NativeRunnerInstanceView};
use crate::pcsx2::{Pcsx2Runner, Pcsx2RunnerInstance, Pcsx2RunnerInstanceView};
use crate::rpcs3::{Rpcs3Runner, Rpcs3RunnerInstance, Rpcs3RunnerInstanceView};
use crate::ryujinx::{RyujinxRunner, RyujinxRunnerInstance, RyujinxRunnerInstanceView};
use crate::steam::{SteamRunner, SteamRunnerInstance, SteamRunnerInstanceView};
use crate::strmap::StrMap;
use crate::umu::{UmuRunner, UmuRunnerInstance, UmuRunnerInstanceView};
use crate::vita3k::{Vita3kRunner, Vita3kRunnerInstance, Vita3kRunnerInstanceView};
use crate::wine::{
    wine_command, wine_subcommand, WineRunner, WineRunnerInstance, WineRunnerInstanceView,
    WineSurvey, WineSurveyView,
};
use crate::yuzu::{YuzuRunner, YuzuRunnerInstance, YuzuRunnerInstanceView};

verus! {

/// The runner that runs nothing: its invocation is the empty one.
pub struct DummyRunner();

impl DummyRunner {
    /// The settings of this runner: it has none.
    pub open spec fn default_settings() -> Map<Seq<char>, (Seq<char>, CValueView)> {
        Map::empty()
    }

    /// The section of this runner in a settings file, and the keys of its
    /// settings in their order.
    pub open spec fn config_section() -> (Seq<char>, Seq<Seq<char>>) {
        ("dummy:dummy"@, Seq::empty())
    }

    /// The section of this runner, which holds no setting.
    pub fn get_config_order(&self) -> (r: (String, Vec<String>))
        ensures
            (r.0@, texts(r.1@)) == Self::config_section(),
    {
        let keys: Vec<String> = Vec::new();
        assert(texts(keys@) =~= Seq::<Seq<char>>::empty());
        ("dummy:dummy".to_owned(), keys)
    }

    /// The settings of this runner: it has none.
    pub fn get_default_config(&self) -> (r: Defaults)
        ensures
            r@ == Self::default_settings(),
    {
        StrMap::new()
    }

    /// The name under which settings select this runner.
    pub fn get_runner_id(&self) -> (r: String)
        ensures
            r@ == "dummy"@,
    {
        "dummy".to_owned()
    }

    /// The empty invocation.
    pub fn get_command(&self) -> (r: Command)
        ensures
            r@ == empty_command(),
    {
        Command::new()
    }

    /// The names of the auxiliary commands: there is none.
    pub fn get_subcommands(&self) -> (r: Vec<String>)
        ensures
            r@.len() == 0,
    {
        Vec::new()
    }

    /// The invocation behind the name of an auxiliary command: there is
    /// none.
    pub fn get_subcommand_command(&self, command: String) -> (r: Option<Command>)
        ensures
            r is None,
    {
        None
    }
}

/// A game set up for one of the runners.
pub enum RunnerInstance {
    Dummy(DummyRunner),
    Native(NativeRunnerInstance),
    Wine(WineRunnerInstance),
    Ryujinx(RyujinxRunnerInstance),
    Rpcs3(Rpcs3RunnerInstance),
    Mame(MameRunnerInstance),
    Pcsx2(Pcsx2RunnerInstance),
    Yuzu(YuzuRunnerInstance),
    Citra(CitraRunnerInstance),
    Vita3k(Vita3kRunnerInstance),
    Steam(SteamRunnerInstance),
    DuckStation(DuckStationRunnerInstance),
    Umu(UmuRunnerInstance),
}

/// A `RunnerInstance` as mathematical values.
pub enum RunnerInstanceView {
    Dummy,
    Native(NativeRunnerInstanceView),
    Wine(WineRunnerInstanceView),
    Ryujinx(RyujinxRunnerInstanceView),
    Rpcs3(Rpcs3RunnerInstanceView),
    Mame(MameRunnerInstanceView),
    Pcsx2(Pcsx2RunnerInstanceView),
    Yuzu(YuzuRunnerInstanceView),
    Citra(CitraRunnerInstanceView),
    Vita3k(Vita3kRunnerInstanceView),
    Steam(SteamRunnerInstanceView),
    DuckStation(DuckStationRunnerInstanceView),
    Umu(UmuRunnerInstanceView),
}

impl View for RunnerInstance {
    type V = RunnerInstanceView;

    open spec fn view(&self) -> RunnerInstanceView {
        match self {
            RunnerInstance::Dummy(_) => RunnerInstanceView::Dummy,
            RunnerInstance::Native(r) => RunnerInstanceView::Native(r@),
            RunnerInstance::Wine(r) => RunnerInstanceView::Wine(r@),
            RunnerInstance::Ryujinx(r) => RunnerInstanceView::Ryujinx(r@),
            RunnerInstance::Rpcs3(r) => RunnerInstanceView::Rpcs3(r@),
            RunnerInstance::Mame(r) => RunnerInstanceView::Mame(r@),
            RunnerInstance::Pcsx2(r) => RunnerInstanceView::Pcsx2(r@),
            RunnerInstance::Yuzu(r) => RunnerInstanceView::Yuzu(r@),
            RunnerInstance::Citra(r) => RunnerInstanceView::Citra(r@),
            RunnerInstance::Vita3k(r) => RunnerInstanceView::Vita3k(r@),
            RunnerInstance::Steam(r) => RunnerInstanceView::Steam(r@),
            RunnerInstance::DuckStation(r) => RunnerInstanceView::DuckStation(r@),
            RunnerInstance::Umu(r) => RunnerInstanceView::Umu(r@),
        }
    }
}

/// The view of an optional runner instance.
pub open spec fn opt_runner(o: Option<RunnerInstance>) -> Option<RunnerInstanceView> {
    match o {
        Some(r) => Some(r@),
        None => None,
    }
}

/// The game at `path` set up for the runner named `id`, as the settings
/// describe it; nothing where no runner has that name.
pub open spec fn runner_for(
    id: Seq<char>,
    cfg: Map<Seq<char>, CValueView>,
    d: Map<Seq<char>, (Seq<char>, CValueView)>,
    path: Seq<char>,
    data_dir: Seq<char>,
) -> Option<RunnerInstanceView> {
    if id == "dummy"@ {
        Some(RunnerInstanceView::Dummy)
    } else if id == "native"@ {
        Some(
            RunnerInstanceView::Native(
                NativeRunnerInstanceView {
                    path,
                    args: crate::config::resolved(cfg, d, "native:args"@)->StrArr_0,
                },
            ),
        )
    } else if id == "wine"@ {
        Some(RunnerInstanceView::Wine(WineRunner::instance(cfg, d, path)))
    } else if id == "ryujinx"@ {
        Some(
            RunnerInstanceView::Ryujinx(
                RyujinxRunnerInstanceView {
                    path,
                    path_to_ryujinx: crate::config::text(cfg, d, "ryujinx:path_to_ryujinx"@),
                },
            ),
        )
    } else if id == "rpcs3"@ {
        Some(
            RunnerInstanceView::Rpcs3(
                Rpcs3RunnerInstanceView {
                    path,
                    path_to_rpcs3: crate::config::text(cfg, d, "rpcs3:path_to_rpcs3"@),
                },
            ),
        )
    } else if id == "mame"@ {
        Some(
            RunnerInstanceView::Mame(
                MameRunnerInstanceView {
                    path,
                    machine_name: crate::config::text(cfg, d, "mame:machine_name"@),
                    path_to_mame: crate::config::text(cfg, d, "mame:path_to_mame"@),
                    fullscreen: crate::config::toggle(cfg, d, "mame:fullscreen"@),
                    data_dir,
                },
            ),
        )
    } else if id == "pcsx2"@ {
        Some(
            RunnerInstanceView::Pcsx2(
                Pcsx2RunnerInstanceView {
                    path,
                    path_to_pcsx2: crate::config::text(cfg, d, "pcsx2:path_to_pcsx2"@),
                    fullscreen: crate::config::toggle(cfg, d, "pcsx2:fullscreen"@),
                },
            ),
        )
    } else if id == "yuzu"@ {
        Some(
            RunnerInstanceView::Yuzu(
                YuzuRunnerInstanceView {
                    path,
                    path_to_yuzu: crate::config::text(cfg, d, "yuzu:path_to_yuzu"@),
                    fullscreen: crate::config::toggle(cfg, d, "yuzu:fullscreen"@),
                },
            ),
        )
    } else if id == "citra"@ {
        Some(
            RunnerInstanceView::Citra(
                CitraRunnerInstanceView {
                    path,
                    path_to_citra: crate::config::text(cfg, d, "citra:path_to_citra"@),
                    fullscreen: crate::config::toggle(cfg, d, "citra:fullscreen"@),
                },
            ),
        )
    } else if id == "vita3k"@ {
        Some(
            RunnerInstanceView::Vita3k(
                Vita3kRunnerInstanceView {
                    path,
                    path_to_vita3k: crate::config::text(cfg, d, "vita3k:path_to_vita3k"@),
                    fullscreen: crate::config::toggle(cfg, d, "vita3k:fullscreen"@),
                },
            ),
        )
    } else if id == "steam"@ {
        Some(RunnerInstanceView::Steam(SteamRunnerInstanceView { path }))
    } else if id == "duckstation"@ {
        Some(
            RunnerInstanceView::DuckStation(
                DuckStationRunnerInstanceView {
                    path,
                    path_to_duckstation: crate::config::text(
                        cfg,
                        d,
                        "duckstation:path_to_duckstation"@,
                    ),
                    fullscreen: crate::config::toggle(cfg, d, "duckstation:fullscreen"@),
                },
            ),
        )
    } else if id == "umu"@ {
        Some(
            RunnerInstanceView::Umu(
                UmuRunnerInstanceView {
                    path,
                    path_to_umu: crate::config::text(cfg, d, "umu:path_to_umu"@),
                    path_to_proton: crate::config::text(cfg, d, "umu:path_to_proton"@),
                    gameid: crate::config::text(cfg, d, "umu:gameid"@),
                    store: crate::config::text(cfg, d, "umu:store"@),
                },
            ),
        )
    } else {
        None
    }
}

/// The invocation that runs the game. Only Wine looks at the survey.
pub open spec fn command_of(r: RunnerInstanceView, s: WineSurveyView) -> CommandView {
    match r {
        RunnerInstanceView::Dummy => empty_command(),
        RunnerInstanceView::Native(v) => NativeRunnerInstance::command(v),
        RunnerInstanceView::Wine(v) => wine_command(v, None, s),
        RunnerInstanceView::Ryujinx(v) => RyujinxRunnerInstance::command(v),
        RunnerInstanceView::Rpcs3(v) => Rpcs3RunnerInstance::command(v),
        RunnerInstanceView::Mame(v) => MameRunnerInstance::command(v),
        RunnerInstanceView::Pcsx2(v) => Pcsx2RunnerInstance::command(v),
        RunnerInstanceView::Yuzu(v) => YuzuRunnerInstance::command(v),
        RunnerInstanceView::Citra(v) => CitraRunnerInstance::command(v),
        RunnerInstanceView::Vita3k(v) => Vita3kRunnerInstance::command(v),
        RunnerInstanceView::Steam(v) => SteamRunnerInstance::command(v),
        RunnerInstanceView::DuckStation(v) => DuckStationRunnerInstance::command(v),
        RunnerInstanceView::Umu(v) => UmuRunnerInstance::command(v),
    }
}

/// The invocation behind the name of an auxiliary command of the runner, if
/// the name is one.
pub open spec fn subcommand_of(r: RunnerInstanceView, name: Seq<char>, s: WineSurveyView) -> Option<
    CommandView,
> {
    match r {
        RunnerInstanceView::Dummy => None,
        RunnerInstanceView::Native(_) => None,
        RunnerInstanceView::Wine(v) => wine_subcommand(v, name, s),
        RunnerInstanceView::Ryujinx(v) => RyujinxRunnerInstance::subcommand(v, name),
        RunnerInstanceView::Rpcs3(v) => Rpcs3RunnerInstance::subcommand(v, name),
        RunnerInstanceView::Mame(v) => MameRunnerInstance::subcommand(v, name),
        RunnerInstanceView::Pcsx2(v) => Pcsx2RunnerInstance::subcommand(v, name),
        RunnerInstanceView::Yuzu(v) => YuzuRunnerInstance::subcommand(v, name),
        RunnerInstanceView::Citra(v) => CitraRunnerInstance::subcommand(v, name),
        RunnerInstanceView::Vita3k(v) => Vita3kRunnerInstance::subcommand(v, name),
        RunnerInstanceView::Steam(v) => SteamRunnerInstance::subcommand(v, name),
        RunnerInstanceView::DuckStation(v) => DuckStationRunnerInstance::subcommand(v, name),
        RunnerInstanceView::Umu(_) => None,
    }
}

/// The names of the auxiliary commands of the runner.
pub open spec fn subcommands_of(r: RunnerInstanceView) -> Seq<Seq<char>> {
    match r {
        RunnerInstanceView::Dummy => Seq::empty(),
        RunnerInstanceView::Native(_) => Seq::empty(),
        RunnerInstanceView::Wine(_) => seq![
            "Wine Control Panel"@,
            "winecfg"@,
            "cmd"@,
            "pkill wineserver"@,
        ],
        RunnerInstanceView::Ryujinx(_) => seq!["ryujinx"@],
        RunnerInstanceView::Rpcs3(_) => seq!["rpcs3"@],
        RunnerInstanceView::Mame(_) => seq!["MAME"@],
        RunnerInstanceView::Pcsx2(_) => seq!["pcsx2"@],
        RunnerInstanceView::Yuzu(_) => seq!["yuzu"@],
        RunnerInstanceView::Citra(_) => seq!["citra"@],
        RunnerInstanceView::Vita3k(_) => seq!["vita3k"@],
        RunnerInstanceView::Steam(_) => seq!["steam"@],
        RunnerInstanceView::DuckStation(_) => seq!["duckstation"@],
        RunnerInstanceView::Umu(_) => Seq::empty(),
    }
}

impl RunnerInstance {
    /// Sets the game at `path` up for the runner named `id`; nothing where
    /// no runner has that name. `data_dir` is the launcher's data directory.
    pub fn create(id: &str, cfg: &Cfg, path: String, default: &Defaults, data_dir: String) -> (r:
        Option<RunnerInstance>)
        requires
            is_complete(default@),
            conforms(cfg@, default@),
        ensures
            opt_runner(r) == runner_for(id@, cfg@, default@, path@, data_dir@),
    {
        if same_text(id, "dummy") {
            Some(RunnerInstance::Dummy(DummyRunner()))
        } else if same_text(id, "native") {
            Some(RunnerInstance::Native(NativeRunner.create_instance(cfg, path, default)))
        } else if same_text(id, "wine") {
            Some(RunnerInstance::Wine(WineRunner.create_instance(cfg, path, default)))
        } else if same_text(id, "ryujinx") {
            Some(RunnerInstance::Ryujinx(RyujinxRunner.create_instance(cfg, path, default)))
        } else if same_text(id, "rpcs3") {
            Some(RunnerInstance::Rpcs3(Rpcs3Runner.create_instance(cfg, path, default)))
        } else if same_text(id, "mame") {
            Some(RunnerInstance::Mame(MameRunner.create_instance(cfg, path, default, data_dir)))
        } else if same_text(id, "pcsx2") {
            Some(RunnerInstance::Pcsx2(Pcsx2Runner.create_instance(cfg, path, default)))
        } else if same_text(id, "yuzu") {
            Some(RunnerInstance::Yuzu(YuzuRunner.create_instance(cfg, path, default)))
        } else if same_text(id, "citra") {
            Some(RunnerInstance::Citra(CitraRunner.create_instance(cfg, path, default)))
        } else if same_text(id, "vita3k") {
            Some(RunnerInstance::Vita3k(Vita3kRunner.create_instance(cfg, path, default)))
        } else if same_text(id, "steam") {
            Some(RunnerInstance::Steam(SteamRunner.create_instance(cfg, path, default)))
        } else if same_text(id, "duckstation") {
            Some(
                RunnerInstance::DuckStation(DuckStationRunner.create_instance(cfg, path, default)),
            )
        } else if same_text(id, "umu") {
            Some(RunnerInstance::Umu(UmuRunner.create_instance(cfg, path, default)))
        } else {
            None
        }
    }

    /// The invocation that runs the game.
    pub fn get_command(&self, survey: &WineSurvey) -> (r: Command)
        ensures
            r@ == command_of(self@, survey@),
    {
        match self {
            RunnerInstance::Dummy(r) => r.get_command(),
            RunnerInstance::Native(r) => r.get_command(),
            RunnerInstance::Wine(r) => r.get_command(survey),
            RunnerInstance::Ryujinx(r) => r.get_command(),
            RunnerInstance::Rpcs3(r) => r.get_command(),
            RunnerInstance::Mame(r) => r.get_command(),
            RunnerInstance::Pcsx2(r) => r.get_command(),
            RunnerInstance::Yuzu(r) => r.get_command(),
            RunnerInstance::Citra(r) => r.get_command(),
            RunnerInstance::Vita3k(r) => r.get_command(),
            RunnerInstance::Steam(r) => r.get_command(),
            RunnerInstance::DuckStation(r) => r.get_command(),
            RunnerInstance::Umu(r) => r.get_command(),
        }
    }

    /// The names of the auxiliary commands.
    pub fn get_subcommands(&self) -> (r: Vec<String>)
        ensures
            texts(r@) == subcommands_of(self@),
    {
        let names = match self {
            RunnerInstance::Dummy(r) => r.get_subcommands(),
            RunnerInstance::Native(r) => r.get_subcommands(),
            RunnerInstance::Wine(r) => r.get_subcommands(),
            RunnerInstance::Ryujinx(r) => r.get_subcommands(),
            RunnerInstance::Rpcs3(r) => r.get_subcommands(),
            RunnerInstance::Mame(r) => r.get_subcommands(),
            RunnerInstance::Pcsx2(r) => r.get_subcommands(),
            RunnerInstance::Yuzu(r) => r.get_subcommands(),
            RunnerInstance::Citra(r) => r.get_subcommands(),
            RunnerInstance::Vita3k(r) => r.get_subcommands(),
            RunnerInstance::Steam(r) => r.get_subcommands(),
            RunnerInstance::DuckStation(r) => r.get_subcommands(),
            RunnerInstance::Umu(r) => r.get_subcommands(),
        };
        assert(texts(names@) =~= subcommands_of(self@));
        names
    }

    /// The invocation behind the name of an auxiliary command, if the name
    /// is one.
    pub fn get_subcommand_command(&self, command: String, survey: &WineSurvey) -> (r: Option<
        Command,
    >)
        ensures
            opt_command(r) == subcommand_of(self@, command@, survey@),
    {
        match self {
            RunnerInstance::Dummy(r) => r.get_subcommand_command(command),
            RunnerInstance::Native(r) => r.get_subcommand_command(command),
            RunnerInstance::Wine(r) => r.get_subcommand_command(command, survey),
            RunnerInstance::Ryujinx(r) => r.get_subcommand_command(command),
            RunnerInstance::Rpcs3(r) => r.get_subcommand_command(command),
            RunnerInstance::Mame(r) => r.get_subcommand_command(command),
            RunnerInstance::Pcsx2(r) => r.get_subcommand_command(command),
            RunnerInstance::Yuzu(r) => r.get_subcommand_command(command),
            RunnerInstance::Citra(r) => r.get_subcommand_command(command),
            RunnerInstance::Vita3k(r) => r.get_subcommand_command(command),
            RunnerInstance::Steam(r) => r.get_subcommand_command(command),
            RunnerInstance::DuckStation(r) => r.get_subcommand_command(command),
            RunnerInstance::Umu(r) => r.get_subcommand_command(command),
        }
    }
}

/// A game of the catalog: what the settings say of it, and where its
/// process stands.
pub struct Game {
    pub name: String,
    pub box_art: Option<String>,
    pub release_year: Option<isize>,
    pub path_to_game: String,
    pub runner_id: String,
    pub runner: RunnerInstance,
    pub config: Config,
    /// The settings that the game was made from.
    pub bare_config: Cfg,
    /// The output of the game's process since it was last started.
    pub current_log: String,
    /// Whether a process of the game is to run: set when it is launched,
    /// cleared when its supervisor reports the end, and taken back when the
    /// process could not be spawned.
    pub is_running: bool,
    /// The invocation that the supervisor of this game is to spawn; none
    /// after a launch whose process could not be spawned.
    pub cmd_to_run: Option<Command>,
    /// Whether the caller holds the control channel of the game's
    /// supervisor: from its `Ready` to its `ProcessEnded`.
    pub attached: bool,
}

/// A `Game` as mathematical values.
pub struct GameView {
    pub name: Seq<char>,
    pub box_art: Option<Seq<char>>,
    pub release_year: Option<isize>,
    pub path_to_game: Seq<char>,
    pub runner_id: Seq<char>,
    pub runner: RunnerInstanceView,
    pub config: ConfigView,
    pub bare_config: Map<Seq<char>, CValueView>,
    pub current_log: Seq<char>,
    pub is_running: bool,
    pub cmd_to_run: Option<CommandView>,
    pub attached: bool,
}

impl View for Game {
    type V = GameView;

    open spec fn view(&self) -> GameView {
        GameView {
            name: self.name@,
            box_art: opt_text(self.box_art),
            release_year: self.release_year,
            path_to_game: self.path_to_game@,
            runner_id: self.runner_id@,
            runner: self.runner@,
            config: self.config@,
            bare_config: self.bare_config@,
            current_log: self.current_log@,
            is_running: self.is_running,
            cmd_to_run: opt_command(self.cmd_to_run),
            attached: self.attached,
        }
    }
}

/// The launch options that the settings describe.
pub open spec fn launch_options(
    cfg: Map<Seq<char>, CValueView>,
    d: Map<Seq<char>, (Seq<char>, CValueView)>,
) -> ConfigView {
    ConfigView {
        mangohud: toggle(cfg, d, "mangohud"@),
        mesa_prime: toggle(cfg, d, "mesa_prime"@),
        nv_prime: toggle(cfg, d, "nv_prime"@),
        vk_icd_loader: given(text(cfg, d, "vk_icd_loader"@)),
        envs: paired(resolved(cfg, d, "env_variables"@)->StrArr_0),
        no_sleep_enabled: toggle(cfg, d, "no_sleep_enabled"@),
        gamescope: toggle(cfg, d, "gamescope"@),
        gamescope_params: resolved(cfg, d, "gamescope_params"@)->StrArr_0,
        gamemode: toggle(cfg, d, "gamemode"@),
    }
}

/// The settings name a runner.
pub open spec fn names_runner(
    cfg: Map<Seq<char>, CValueView>,
    d: Map<Seq<char>, (Seq<char>, CValueView)>,
) -> bool {
    runner_for(text(cfg, d, "runner"@), cfg, d, Seq::empty(), Seq::empty()) is Some
}

/// The game that the settings describe, before it is ever started.
pub open spec fn game_from(
    cfg: Map<Seq<char>, CValueView>,
    d: Map<Seq<char>, (Seq<char>, CValueView)>,
    data_dir: Seq<char>,
) -> GameView {
    GameView {
        name: text(cfg, d, "name"@),
        box_art: given(text(cfg, d, "box_art"@)),
        release_year: parsed_isize(text(cfg, d, "release_year"@)),
        path_to_game: text(cfg, d, "path_to_game"@),
        runner_id: text(cfg, d, "runner"@),
        runner: runner_for(
            text(cfg, d, "runner"@),
            cfg,
            d,
            text(cfg, d, "path_to_game"@),
            data_dir,
        ).unwrap(),
        config: launch_options(cfg, d),
        bare_config: cfg,
        current_log: Seq::empty(),
        is_running: false,
        cmd_to_run: None,
        attached: false,
    }
}

impl Cfg {
    /// Whether the settings name a runner.
    pub fn names_known_runner(&self, default: &Defaults) -> (r: bool)
        requires
            is_complete(default@),
            conforms(self@, default@),
        ensures
            r == names_runner(self@, default@),
    {
        let id = setting_text(self, default, "runner");
        RunnerInstance::create(id.as_str(), self, String::new(), default, String::new()).is_some()
    }

    /// The launch options that the settings describe.
    pub fn launch_config(&self, default: &Defaults) -> (r: Config)
        requires
            is_complete(default@),
            conforms(self@, default@),
        ensures
            r@ == launch_options(self@, default@),
    {
        Config {
            mangohud: setting_bool(self, default, "mangohud"),
            mesa_prime: setting_bool(self, default, "mesa_prime"),
            nv_prime: setting_bool(self, default, "nv_prime"),
            vk_icd_loader: opt(setting_text(self, default, "vk_icd_loader")),
            envs: self.get_or_default("env_variables", default).as_hashmap(),
            no_sleep_enabled: setting_bool(self, default, "no_sleep_enabled"),
            gamescope: setting_bool(self, default, "gamescope"),
            gamescope_params: setting_list(self, default, "gamescope_params"),
            gamemode: setting_bool(self, default, "gamemode"),
        }
    }

    /// Makes the game that the settings describe. `default` holds the
    /// defaults with the launcher's own settings entered; `data_dir` is the
    /// launcher's data directory.
    pub fn into_game(self, default: &Defaults, data_dir: String) -> (r: Game)
        requires
            is_complete(default@),
            conforms(self@, default@),
            names_runner(self@, default@),
        ensures
            r@ == game_from(self@, default@, data_dir@),
    {
        let box_art = setting_text(&self, default, "box_art");
        let path = setting_text(&self, default, "path_to_game");
        let runner_id = setting_text(&self, default, "runner");
        let runner = RunnerInstance::create(
            runner_id.as_str(),
            &self,
            path.clone(),
            default,
            data_dir,
        );
        let year = setting_text(&self, default, "release_year");
        let config = self.launch_config(default);
        Game {
            name: setting_text(&self, default, "name"),
            box_art: opt(box_art),
            release_year: parse_isize(year.as_str()),
            path_to_game: path,
            runner_id,
            runner: runner.unwrap(),
            config,
            bare_config: self,
            current_log: String::new(),
            is_running: false,
            cmd_to_run: None,
            attached: false,
        }
    }
}

impl Game {
    /// Prepares the launch of the game: its invocation, with the launch
    /// options applied, is what the supervisor is to spawn. `gpu` is the
    /// answer of the hardware query, where the options call for one. The
    /// mark `is_running` asks for a supervisor; where the spawn fails,
    /// `launch_failed` takes it back.
    pub fn run(&mut self, survey: &WineSurvey, gpu: Option<String>)
        ensures
            final(self)@ == (GameView {
                cmd_to_run: Some(
                    applied(command_of(old(self)@.runner, survey@), old(self)@.config, opt_text(gpu)),
                ),
                is_running: true,
                ..old(self)@
            }),
    {
        let mut cmd = self.runner.get_command(survey);
        cmd.apply_config(&self.config, gpu);
        self.cmd_to_run = Some(cmd);
        self.is_running = true;
    }

    /// Prepares the launch of an auxiliary command of the game's runner, as
    /// `run` does for the game. Nothing changes where the runner has no
    /// command of that name.
    pub fn run_subcommand(&mut self, a: String, survey: &WineSurvey, gpu: Option<String>)
        ensures
            final(self)@ == (match subcommand_of(old(self)@.runner, a@, survey@) {
                Some(c) => GameView {
                    cmd_to_run: Some(applied(c, old(self)@.config, opt_text(gpu))),
                    is_running: true,
                    ..old(self)@
                },
                None => old(self)@,
            }),
    {
        match self.runner.get_subcommand_command(a, survey) {
            Some(cmd) => {
                let mut cmd = cmd;
                cmd.apply_config(&self.config, gpu);
                self.cmd_to_run = Some(cmd);
                self.is_running = true;
            },
            None => {},
        }
    }

    /// The names of the auxiliary commands of the game's runner.
    pub fn get_subcommands(&self) -> (r: Vec<String>)
        ensures
            texts(r@) == subcommands_of(self@.runner),
    {
        self.runner.get_subcommands()
    }
}

/// The invocation of a game is determined by what it is made from: the same
/// runner, the same settings, the same folders and the same findings on disk
/// give the same invocation.
pub proof fn lemma_launch_is_determined(
    id: Seq<char>,
    cfg: Map<Seq<char>, CValueView>,
    d: Map<Seq<char>, (Seq<char>, CValueView)>,
    path: Seq<char>,
    data_dir: Seq<char>,
    survey: WineSurveyView,
    gpu: Option<Seq<char>>,
    first: GameView,
    second: GameView,
)
    requires
        runner_for(id, cfg, d, path, data_dir) is Some,
        first.runner == runner_for(id, cfg, d, path, data_dir).unwrap(),
        second.runner == runner_for(id, cfg, d, path, data_dir).unwrap(),
        first.config == launch_options(cfg, d),
        second.config == launch_options(cfg, d),
    ensures
        applied(command_of(first.runner, survey), first.config, gpu) == applied(
            command_of(second.runner, survey),
            second.config,
            gpu,
        ),
{
}

/// Only Wine looks at what is found on disk: the invocation of any other
/// runner is the same whatever the survey holds.
pub proof fn lemma_survey_matters_to_wine_only(
    r: RunnerInstanceView,
    s: WineSurveyView,
    t: WineSurveyView,
    name: Seq<char>,
)
    requires
        !(r is Wine),
    ensures
        command_of(r, s) == command_of(r, t),
        subcommand_of(r, name, s) == subcommand_of(r, name, t),
{
}

/// The auxiliary commands of a runner are those whose names it lists: a
/// name that is not listed has no invocation.
pub proof fn lemma_unlisted_subcommand(r: RunnerInstanceView, name: Seq<char>, s: WineSurveyView)
    requires
        !subcommands_of(r).contains(name),
    ensures
        subcommand_of(r, name, s) is None,
{
    let names = subcommands_of(r);
    if names.len() == 1 {
        assert(names[0] != name);
    }
    if names.len() == 4 {
        assert(names[0] != name);
        assert(names[1] != name);
        assert(names[2] != name);
        assert(names[3] != name);
    }
}

} // verus!
