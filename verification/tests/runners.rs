use game_handler::citra::{CitraRunner, CitraRunnerInstance};
use game_handler::command::Command;
use game_handler::config::{CValue, Cfg};
use game_handler::defaults::{default_config, runner_ids};
use game_handler::duckstation::{DuckStationRunner, DuckStationRunnerInstance};
use game_handler::games::{DummyRunner, RunnerInstance};
use game_handler::mame::{MameRunner, MameRunnerInstance};
use game_handler::native::{NativeRunner, NativeRunnerInstance};
use game_handler::pcsx2::{Pcsx2Runner, Pcsx2RunnerInstance};
use game_handler::rpcs3::{Rpcs3Runner, Rpcs3RunnerInstance};
use game_handler::ryujinx::{RyujinxRunner, RyujinxRunnerInstance};
use game_handler::steam::{SteamRunner, SteamRunnerInstance};
use game_handler::umu::{UmuRunner, UmuRunnerInstance};
use game_handler::vita3k::{Vita3kRunner, Vita3kRunnerInstance};
use game_handler::wine::{DllListing, WineSurvey};
use game_handler::yuzu::{YuzuRunner, YuzuRunnerInstance};

fn text(s: &str) -> String {
    s.to_string()
}

fn texts(items: &[&str]) -> Vec<String> {
    items.iter().map(|s| s.to_string()).collect()
}

fn no_survey() -> WineSurvey {
    let none = || DllListing { wide: Vec::new(), narrow: Vec::new() };
    WineSurvey { is_32bit: false, vkd3d: none(), dxvk: none(), dxvk_nvapi: none() }
}

fn is_bare(cmd: &Command, program: &str, args: &[&str]) {
    assert_eq!(cmd.program, program);
    assert_eq!(cmd.args, texts(args));
    assert!(cmd.cwd.is_none());
    assert!(cmd.envs.is_empty());
}

fn settings(pairs: Vec<(&str, CValue)>) -> Cfg {
    let mut cfg = Cfg::new();
    for (k, v) in pairs {
        cfg.0.insert(text(k), v);
    }
    cfg
}

#[test]
fn the_runners_are_offered_in_their_order() {
    assert_eq!(
        runner_ids(),
        texts(&[
            "dummy",
            "native",
            "wine",
            "ryujinx",
            "rpcs3",
            "mame",
            "pcsx2",
            "yuzu",
            "citra",
            "vita3k",
            "steam",
            "duckstation",
            "umu"
        ])
    );
    assert_eq!(DummyRunner().get_runner_id(), "dummy");
    assert_eq!(NativeRunner.get_runner_id(), "native");
    assert_eq!(RyujinxRunner.get_runner_id(), "ryujinx");
    assert_eq!(Rpcs3Runner.get_runner_id(), "rpcs3");
    assert_eq!(MameRunner.get_runner_id(), "mame");
    assert_eq!(Pcsx2Runner.get_runner_id(), "pcsx2");
    assert_eq!(YuzuRunner.get_runner_id(), "yuzu");
    assert_eq!(CitraRunner.get_runner_id(), "citra");
    assert_eq!(Vita3kRunner.get_runner_id(), "vita3k");
    assert_eq!(SteamRunner.get_runner_id(), "steam");
    assert_eq!(DuckStationRunner.get_runner_id(), "duckstation");
    assert_eq!(UmuRunner.get_runner_id(), "umu");
}

#[test]
fn the_dummy_runner_runs_nothing() {
    let dummy = DummyRunner();
    let cmd = dummy.get_command();
    is_bare(&cmd, "", &[]);
    assert!(dummy.get_subcommands().is_empty());
    assert!(dummy.get_subcommand_command(text("dummy")).is_none());
    assert!(dummy.get_default_config().is_empty());
    let (section, keys) = dummy.get_config_order();
    assert_eq!(section, "dummy:dummy");
    assert!(keys.is_empty());
}

#[test]
fn native_runs_the_program_with_its_arguments() {
    let inst = NativeRunnerInstance { path: text("/usr/bin/game"), args: texts(&["-v", "--fast"]) };
    is_bare(&inst.get_command(), "/usr/bin/game", &["-v", "--fast"]);
    assert!(inst.get_subcommands().is_empty());
    assert!(inst.get_subcommand_command(text("native")).is_none());
    let (section, keys) = NativeRunner.get_config_order();
    assert_eq!(section, "native:native");
    assert_eq!(keys, texts(&["native:args"]));
    let defaults = NativeRunner.get_default_config();
    assert_eq!(defaults.len(), 1);
    let (label, value) = defaults.get("native:args").unwrap();
    assert_eq!(label, "additional arguments");
    assert!(value.as_strarr().is_empty());
}

#[test]
fn citra_takes_the_game_last() {
    let mut inst = CitraRunnerInstance {
        path: text("/roms/game.3ds"),
        path_to_citra: text("/usr/bin/citra-qt"),
        fullscreen: false,
    };
    is_bare(&inst.get_command(), "/usr/bin/citra-qt", &["/roms/game.3ds"]);
    inst.fullscreen = true;
    is_bare(&inst.get_command(), "/usr/bin/citra-qt", &["-f", "/roms/game.3ds"]);
    assert_eq!(inst.get_subcommands(), texts(&["citra"]));
    is_bare(&inst.get_subcommand_command(text("citra")).unwrap(), "/usr/bin/citra-qt", &[]);
    assert!(inst.get_subcommand_command(text("Citra")).is_none());
    assert!(inst.get_subcommand_command(text("")).is_none());
}

#[test]
fn duckstation_separates_the_game_from_the_flags() {
    let mut inst = DuckStationRunnerInstance {
        path: text("/roms/game.cue"),
        path_to_duckstation: text("duckstation-qt"),
        fullscreen: false,
    };
    is_bare(&inst.get_command(), "duckstation-qt", &["--", "/roms/game.cue"]);
    inst.fullscreen = true;
    is_bare(&inst.get_command(), "duckstation-qt", &["-fullscreen", "--", "/roms/game.cue"]);
    assert_eq!(inst.get_subcommands(), texts(&["duckstation"]));
    is_bare(&inst.get_subcommand_command(text("duckstation")).unwrap(), "duckstation-qt", &[]);
    assert!(inst.get_subcommand_command(text("pcsx2")).is_none());
}

#[test]
fn pcsx2_separates_the_game_from_the_flags() {
    let mut inst = Pcsx2RunnerInstance {
        path: text("/roms/game.iso"),
        path_to_pcsx2: text("pcsx2-qt"),
        fullscreen: true,
    };
    is_bare(&inst.get_command(), "pcsx2-qt", &["-fullscreen", "--", "/roms/game.iso"]);
    inst.fullscreen = false;
    is_bare(&inst.get_command(), "pcsx2-qt", &["--", "/roms/game.iso"]);
    assert_eq!(inst.get_subcommands(), texts(&["pcsx2"]));
    is_bare(&inst.get_subcommand_command(text("pcsx2")).unwrap(), "pcsx2-qt", &[]);
    assert!(inst.get_subcommand_command(text("other")).is_none());
}

#[test]
fn vita3k_names_the_game_by_a_flag() {
    let mut inst = Vita3kRunnerInstance {
        path: text("PCSE00001"),
        path_to_vita3k: text("Vita3K"),
        fullscreen: true,
    };
    is_bare(&inst.get_command(), "Vita3K", &["--fullscreen", "-r", "PCSE00001"]);
    inst.fullscreen = false;
    is_bare(&inst.get_command(), "Vita3K", &["-r", "PCSE00001"]);
    assert_eq!(inst.get_subcommands(), texts(&["vita3k"]));
    is_bare(&inst.get_subcommand_command(text("vita3k")).unwrap(), "Vita3K", &[]);
    assert!(inst.get_subcommand_command(text("-r")).is_none());
}

#[test]
fn yuzu_names_the_game_by_a_flag() {
    let mut inst = YuzuRunnerInstance {
        path: text("/roms/game.nsp"),
        path_to_yuzu: text("yuzu"),
        fullscreen: true,
    };
    is_bare(&inst.get_command(), "yuzu", &["-f", "-g", "/roms/game.nsp"]);
    inst.fullscreen = false;
    is_bare(&inst.get_command(), "yuzu", &["-g", "/roms/game.nsp"]);
    assert_eq!(inst.get_subcommands(), texts(&["yuzu"]));
    is_bare(&inst.get_subcommand_command(text("yuzu")).unwrap(), "yuzu", &[]);
    assert!(inst.get_subcommand_command(text("suyu")).is_none());
}

#[test]
fn ryujinx_takes_the_game_alone() {
    let inst =
        RyujinxRunnerInstance { path: text("/roms/game.xci"), path_to_ryujinx: text("Ryujinx") };
    is_bare(&inst.get_command(), "Ryujinx", &["/roms/game.xci"]);
    assert_eq!(inst.get_subcommands(), texts(&["ryujinx"]));
    is_bare(&inst.get_subcommand_command(text("ryujinx")).unwrap(), "Ryujinx", &[]);
    assert!(inst.get_subcommand_command(text("x")).is_none());
    let defaults = RyujinxRunner.get_default_config();
    let (label, value) = defaults.get("ryujinx:path_to_ryujinx").unwrap();
    assert_eq!(label, "path to ryujinx executable");
    assert_eq!(value.as_string(), "ryujinx");
}

#[test]
fn rpcs3_runs_without_its_window_on_xcb() {
    let inst = Rpcs3RunnerInstance { path: text("/games/BLES0001"), path_to_rpcs3: text("rpcs3") };
    let cmd = inst.get_command();
    assert_eq!(cmd.program, "rpcs3");
    assert_eq!(cmd.args, texts(&["--no-gui", "/games/BLES0001"]));
    assert!(cmd.cwd.is_none());
    assert_eq!(cmd.envs.len(), 1);
    assert_eq!(cmd.envs.get("QT_QPA_PLATFORM"), Some(&text("xcb")));
    assert_eq!(inst.get_subcommands(), texts(&["rpcs3"]));
    is_bare(&inst.get_subcommand_command(text("rpcs3")).unwrap(), "rpcs3", &[]);
    assert!(inst.get_subcommand_command(text("rpcs")).is_none());
}

#[test]
fn steam_addresses_the_game_by_its_number() {
    let inst = SteamRunnerInstance { path: text("620") };
    is_bare(&inst.get_command(), "steam", &["steam://rungameid/620"]);
    assert_eq!(inst.get_subcommands(), texts(&["steam"]));
    is_bare(&inst.get_subcommand_command(text("steam")).unwrap(), "steam", &["steam://open/main"]);
    assert!(inst.get_subcommand_command(text("620")).is_none());
    assert!(SteamRunner.get_default_config().is_empty());
    let (section, keys) = SteamRunner.get_config_order();
    assert_eq!(section, "steam:steam");
    assert!(keys.is_empty());
}

#[test]
fn mame_works_in_its_data_folder() {
    let mut inst = MameRunnerInstance {
        path: text("/roms/mame"),
        machine_name: text("pacman"),
        path_to_mame: text("mame"),
        fullscreen: false,
        data_dir: text("/home/u/.local/share/game_handler"),
    };
    let cmd = inst.get_command();
    assert_eq!(cmd.program, "mame");
    assert_eq!(cmd.args, texts(&["-w", "-rompath", "/roms/mame", "pacman"]));
    assert_eq!(cmd.cwd, Some(text("/home/u/.local/share/game_handler/mame")));
    assert!(cmd.envs.is_empty());
    inst.fullscreen = true;
    inst.data_dir = text("/data/");
    let cmd = inst.get_command();
    assert_eq!(cmd.args, texts(&["-now", "-rompath", "/roms/mame", "pacman"]));
    assert_eq!(cmd.cwd, Some(text("/data/mame")));
    assert_eq!(inst.get_subcommands(), texts(&["MAME"]));
    is_bare(&inst.get_subcommand_command(text("MAME")).unwrap(), "mame", &["-now"]);
    assert!(inst.get_subcommand_command(text("mame")).is_none());
}

#[test]
fn umu_is_told_the_game_by_variables() {
    let mut inst = UmuRunnerInstance {
        path: text("/games/g/game.exe"),
        path_to_umu: text("umu-run"),
        path_to_proton: text("/opt/proton"),
        gameid: text("umu-620"),
        store: text("gog"),
    };
    let cmd = inst.get_command();
    assert_eq!(cmd.program, "umu-run");
    assert_eq!(cmd.args, texts(&["/games/g/game.exe"]));
    assert!(cmd.cwd.is_none());
    assert_eq!(cmd.envs.len(), 3);
    assert_eq!(cmd.envs.get("GAMEID"), Some(&text("umu-620")));
    assert_eq!(cmd.envs.get("STORE"), Some(&text("gog")));
    assert_eq!(cmd.envs.get("PROTONPATH"), Some(&text("/opt/proton")));
    inst.store = String::new();
    let cmd = inst.get_command();
    assert_eq!(cmd.envs.len(), 2);
    assert!(cmd.envs.get("STORE").is_none());
    assert!(inst.get_subcommands().is_empty());
    assert!(inst.get_subcommand_command(text("umu")).is_none());
    let defaults = UmuRunner.get_default_config();
    assert_eq!(defaults.len(), 4);
    assert_eq!(defaults.get("umu:gameid").unwrap().1.as_string(), "0");
}

#[test]
fn instances_are_made_from_settings_and_defaults() {
    let defaults = default_config();
    let cfg = settings(vec![
        ("citra:path_to_citra", CValue::PickFile(text("/opt/citra"))),
        ("citra:fullscreen", CValue::Bool(true)),
        ("mame:machine_name", CValue::Str(text("galaga"))),
    ]);
    let citra = CitraRunner.create_instance(&cfg, text("/roms/a.3ds"), &defaults);
    assert_eq!(citra.path, "/roms/a.3ds");
    assert_eq!(citra.path_to_citra, "/opt/citra");
    assert!(citra.fullscreen);
    let mame = MameRunner.create_instance(&cfg, text("/roms"), &defaults, text("/data"));
    assert_eq!(mame.machine_name, "galaga");
    assert_eq!(mame.path_to_mame, "");
    assert!(!mame.fullscreen);
    assert_eq!(mame.data_dir, "/data");
    let ryujinx = RyujinxRunner.create_instance(&Cfg::new(), text("/roms/b.xci"), &defaults);
    assert_eq!(ryujinx.path_to_ryujinx, "ryujinx");
    let umu = UmuRunner.create_instance(&Cfg::new(), text("/g.exe"), &defaults);
    assert_eq!(umu.gameid, "0");
    assert_eq!(umu.store, "");
    let native = NativeRunner.create_instance(&Cfg::new(), text("/bin/true"), &defaults);
    assert!(native.args.is_empty());
}

#[test]
fn a_runner_is_found_by_its_name() {
    let defaults = default_config();
    let cfg = settings(vec![("yuzu:fullscreen", CValue::Bool(true))]);
    for id in runner_ids() {
        let runner =
            RunnerInstance::create(&id, &cfg, text("/roms/game"), &defaults, text("/data"));
        assert!(runner.is_some(), "no runner for {}", id);
    }
    assert!(RunnerInstance::create("", &cfg, text("/g"), &defaults, text("/d")).is_none());
    assert!(RunnerInstance::create("Wine", &cfg, text("/g"), &defaults, text("/d")).is_none());
    assert!(RunnerInstance::create("proton", &cfg, text("/g"), &defaults, text("/d")).is_none());

    let yuzu = RunnerInstance::create("yuzu", &cfg, text("/roms/a.nsp"), &defaults, text("/d"))
        .unwrap();
    let cmd = yuzu.get_command(&no_survey());
    is_bare(&cmd, "", &["-f", "-g", "/roms/a.nsp"]);
    assert_eq!(yuzu.get_subcommands(), texts(&["yuzu"]));
    assert!(yuzu.get_subcommand_command(text("yuzu"), &no_survey()).is_some());
    assert!(yuzu.get_subcommand_command(text("citra"), &no_survey()).is_none());

    let dummy =
        RunnerInstance::create("dummy", &cfg, text("/x"), &defaults, text("/d")).unwrap();
    is_bare(&dummy.get_command(&no_survey()), "", &[]);
    assert!(dummy.get_subcommands().is_empty());
}

#[test]
fn equal_instances_give_equal_commands() {
    let defaults = default_config();
    let cfg = settings(vec![("pcsx2:path_to_pcsx2", CValue::PickFile(text("/opt/pcsx2")))]);
    for id in runner_ids() {
        let a = RunnerInstance::create(&id, &cfg, text("/roms/game"), &defaults, text("/data"))
            .unwrap();
        let b = RunnerInstance::create(&id, &cfg, text("/roms/game"), &defaults, text("/data"))
            .unwrap();
        let x = a.get_command(&no_survey());
        let y = b.get_command(&no_survey());
        let z = a.get_command(&no_survey());
        for other in [&y, &z] {
            assert_eq!(x.program, other.program);
            assert_eq!(x.args, other.args);
            assert_eq!(x.cwd, other.cwd);
            assert_eq!(x.envs.len(), other.envs.len());
            for i in 0..x.envs.len() {
                assert_eq!(x.envs.key_at(i), other.envs.key_at(i));
                assert_eq!(x.envs.value_at(i), other.envs.value_at(i));
            }
        }
    }
}
