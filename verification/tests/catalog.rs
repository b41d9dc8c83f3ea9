use game_handler::bridge::{
    dispatch, launch_failed, poll_targets, supervised_slots, terminate_target,
};
use game_handler::supervisor::{Reply, Request, Supervisor};
use game_handler::config::{CValue, Cfg};
use game_handler::defaults::{default_config, get_default_config_with_vals, runner_ids};
use game_handler::games::{Game, RunnerInstance};
use game_handler::sort::{sort, sort_none_selected, Sorts};
use game_handler::supervisor::Event;
use game_handler::wine::{DllListing, WineSurvey};

fn text(s: &str) -> String {
    s.to_string()
}

fn texts(items: &[&str]) -> Vec<String> {
    items.iter().map(|s| s.to_string()).collect()
}

fn no_survey() -> WineSurvey {
    let none = || DllListing { wide: Vec::new(), narrow: Vec::new() };
    WineSurvey { is_32bit: false, vkd3d: none(), dxvk: none(), dxvk_nvapi: none() }
}

fn settings(pairs: Vec<(&str, CValue)>) -> Cfg {
    let mut cfg = Cfg::new();
    for (k, v) in pairs {
        cfg.0.insert(text(k), v);
    }
    cfg
}

fn runner(name: &str) -> CValue {
    let ids = runner_ids();
    let at = ids.iter().position(|id| id == name).unwrap();
    CValue::OneOff(ids, at)
}

fn game(name: &str, year: &str) -> Game {
    let cfg = settings(vec![
        ("name", CValue::Str(text(name))),
        ("release_year", CValue::Str(text(year))),
        ("runner", runner("native")),
        ("path_to_game", CValue::PickFile(text("/bin/true"))),
    ]);
    cfg.into_game(&default_config(), text("/data"))
}

#[test]
fn a_game_is_made_from_its_settings() {
    let cfg = settings(vec![
        ("name", CValue::Str(text("Pac-Man"))),
        ("box_art", CValue::PickFile(text("/art/pacman.png"))),
        ("release_year", CValue::Str(text("1980"))),
        ("path_to_game", CValue::PickFile(text("/roms/mame"))),
        ("runner", runner("mame")),
        ("mame:machine_name", CValue::Str(text("pacman"))),
        ("mangohud", CValue::Bool(true)),
        ("gamemode", CValue::Bool(false)),
        ("env_variables", CValue::StrArr(texts(&["A", "1", "B"]))),
        ("gamescope_params", CValue::StrArr(texts(&["-f"]))),
        ("vk_icd_loader", CValue::PickFile(text("/icd.json"))),
    ]);
    let defaults = default_config();
    assert!(cfg.names_known_runner(&defaults));
    let game = cfg.into_game(&defaults, text("/data"));
    assert_eq!(game.name, "Pac-Man");
    assert_eq!(game.box_art, Some(text("/art/pacman.png")));
    assert_eq!(game.release_year, Some(1980));
    assert_eq!(game.path_to_game, "/roms/mame");
    assert_eq!(game.runner_id, "mame");
    match &game.runner {
        RunnerInstance::Mame(m) => {
            assert_eq!(m.path, "/roms/mame");
            assert_eq!(m.machine_name, "pacman");
            assert_eq!(m.data_dir, "/data");
        }
        _ => panic!("the runner is mame"),
    }
    assert!(game.config.mangohud);
    assert!(!game.config.gamemode);
    assert!(!game.config.mesa_prime);
    assert!(!game.config.nv_prime);
    assert!(!game.config.gamescope);
    assert!(!game.config.no_sleep_enabled);
    assert_eq!(game.config.vk_icd_loader, Some(text("/icd.json")));
    assert_eq!(game.config.gamescope_params, texts(&["-f"]));
    assert_eq!(game.config.envs.len(), 2);
    assert_eq!(game.config.envs.get("A"), Some(&text("1")));
    assert_eq!(game.config.envs.get("B"), Some(&String::new()));
    assert_eq!(game.bare_config.0.len(), 11);
    assert_eq!(game.current_log, "");
    assert!(!game.is_running);
    assert!(game.cmd_to_run.is_none());
    assert!(!game.attached);
}

#[test]
fn a_game_without_settings_has_the_defaults() {
    let defaults = default_config();
    assert!(Cfg::minimal().names_known_runner(&defaults));
    let game = Cfg::minimal().into_game(&defaults, text("/data"));
    assert_eq!(game.name, "");
    assert_eq!(game.box_art, None);
    assert_eq!(game.release_year, None);
    assert_eq!(game.runner_id, "dummy");
    assert!(matches!(game.runner, RunnerInstance::Dummy(_)));
    assert!(game.config.gamemode);
    assert!(game.config.envs.is_empty());
    assert_eq!(game.config.vk_icd_loader, None);
}

#[test]
fn the_year_is_read_as_a_number() {
    assert_eq!(game("a", "1998").release_year, Some(1998));
    assert_eq!(game("a", "-5").release_year, Some(-5));
    assert_eq!(game("a", "+12").release_year, Some(12));
    assert_eq!(game("a", "").release_year, None);
    assert_eq!(game("a", "19 98").release_year, None);
    assert_eq!(game("a", "MCMXCVIII").release_year, None);
    assert_eq!(game("a", "99999999999999999999999").release_year, None);
}

#[test]
fn a_runner_that_is_not_known_is_told_apart() {
    let defaults = default_config();
    let cfg = settings(vec![("runner", CValue::OneOff(texts(&["proton", "wine"]), 0))]);
    assert!(!cfg.names_known_runner(&defaults));
    let cfg = settings(vec![("runner", CValue::OneOff(texts(&["proton", "wine"]), 1))]);
    assert!(cfg.names_known_runner(&defaults));
}

#[test]
fn the_launchers_own_settings_serve_as_defaults() {
    let global = settings(vec![
        ("wine:path_to_wine", CValue::PickFile(text("/opt/wine/bin/wine"))),
        ("gamemode", CValue::Bool(false)),
    ]);
    let defaults = get_default_config_with_vals(&global);
    let cfg = settings(vec![
        ("runner", runner("wine")),
        ("path_to_game", CValue::PickFile(text("/g/game.exe"))),
    ]);
    let game = cfg.into_game(&defaults, text("/data"));
    assert!(!game.config.gamemode);
    match &game.runner {
        RunnerInstance::Wine(w) => assert_eq!(w.path_to_wine, "/opt/wine/bin/wine"),
        _ => panic!("the runner is wine"),
    }
}

#[test]
fn running_prepares_the_invocation() {
    let cfg = settings(vec![
        ("runner", runner("native")),
        ("path_to_game", CValue::PickFile(text("/usr/bin/game"))),
        ("native:args", CValue::StrArr(texts(&["-v"]))),
        ("mangohud", CValue::Bool(true)),
        ("env_variables", CValue::StrArr(texts(&["A", "1"]))),
    ]);
    let mut game = cfg.into_game(&default_config(), text("/data"));
    game.run(&no_survey(), None);
    assert!(game.is_running);
    assert!(!game.attached);
    let cmd = game.cmd_to_run.as_ref().unwrap();
    assert_eq!(cmd.program, "mangohud");
    assert_eq!(cmd.args, texts(&["--dlsym", "/usr/bin/game", "-v"]));
    assert_eq!(cmd.envs.get("A"), Some(&text("1")));
    assert_eq!(cmd.envs.get("LD_PRELOAD"), Some(&text("libgamemodeauto.so.0")));
    assert_eq!(cmd.envs.len(), 2);
    assert_eq!(game.name, "");
    assert_eq!(game.runner_id, "native");
}

#[test]
fn an_auxiliary_command_is_prepared_like_the_game() {
    let cfg = settings(vec![
        ("runner", runner("citra")),
        ("path_to_game", CValue::PickFile(text("/roms/a.3ds"))),
        ("citra:path_to_citra", CValue::PickFile(text("citra-qt"))),
        ("gamemode", CValue::Bool(false)),
        ("gamescope", CValue::Bool(true)),
    ]);
    let mut game = cfg.into_game(&default_config(), text("/data"));
    assert_eq!(game.get_subcommands(), texts(&["citra"]));
    game.run_subcommand(text("no such command"), &no_survey(), None);
    assert!(!game.is_running);
    assert!(game.cmd_to_run.is_none());
    game.run_subcommand(text("citra"), &no_survey(), None);
    assert!(game.is_running);
    let cmd = game.cmd_to_run.as_ref().unwrap();
    assert_eq!(cmd.program, "gamescope");
    assert_eq!(cmd.args, texts(&["--", "citra-qt"]));
    assert!(cmd.envs.is_empty());
}

#[test]
fn events_reach_the_game_in_their_slot() {
    let mut games = vec![game("a", ""), game("b", ""), game("c", "")];
    games[1].run(&no_survey(), None);
    assert_eq!(supervised_slots(&games), vec![1]);
    assert!(poll_targets(&games).is_empty());
    assert_eq!(terminate_target(&games, Some(1)), None);

    assert!(dispatch(&mut games, Event::Ready(1)));
    assert!(games[1].attached);
    assert!(!games[0].attached && !games[2].attached);
    assert_eq!(poll_targets(&games), vec![1]);
    assert_eq!(terminate_target(&games, Some(1)), Some(1));
    assert_eq!(terminate_target(&games, Some(0)), None);
    assert_eq!(terminate_target(&games, Some(3)), None);
    assert_eq!(terminate_target(&games, None), None);

    assert!(dispatch(&mut games, Event::GotLogs(1, text("hello\n"))));
    assert!(dispatch(&mut games, Event::GotLogs(1, text("world\n"))));
    assert_eq!(games[1].current_log, "hello\nworld\n");
    assert_eq!(games[0].current_log, "");
    assert_eq!(games[2].current_log, "");

    assert!(dispatch(&mut games, Event::ProcessEnded(1)));
    assert!(!games[1].attached);
    assert!(!games[1].is_running);
    assert_eq!(games[1].current_log, "hello\nworld\n");
    assert!(poll_targets(&games).is_empty());
    assert!(supervised_slots(&games).is_empty());
    assert_eq!(terminate_target(&games, Some(1)), None);
    assert_eq!(games.len(), 3);
    assert_eq!(games[0].name, "a");
    assert_eq!(games[1].name, "b");
    assert_eq!(games[2].name, "c");
}

#[test]
fn an_event_for_an_unknown_slot_changes_nothing() {
    let mut games = vec![game("a", "")];
    assert!(!dispatch(&mut games, Event::Ready(1)));
    assert!(!dispatch(&mut games, Event::GotLogs(7, text("lost"))));
    assert!(!dispatch(&mut games, Event::ProcessEnded(usize::MAX)));
    assert_eq!(games.len(), 1);
    assert!(!games[0].attached);
    assert_eq!(games[0].current_log, "");
    let mut none: Vec<Game> = Vec::new();
    assert!(!dispatch(&mut none, Event::Ready(0)));
    assert!(poll_targets(&none).is_empty());
}

#[test]
fn several_games_run_side_by_side() {
    let mut games = vec![game("a", ""), game("b", ""), game("c", ""), game("d", "")];
    for i in [0, 2, 3] {
        games[i].run(&no_survey(), None);
    }
    assert_eq!(supervised_slots(&games), vec![0, 2, 3]);
    dispatch(&mut games, Event::Ready(3));
    dispatch(&mut games, Event::Ready(0));
    assert_eq!(poll_targets(&games), vec![0, 3]);
    dispatch(&mut games, Event::GotLogs(3, text("three")));
    dispatch(&mut games, Event::GotLogs(0, text("zero")));
    dispatch(&mut games, Event::ProcessEnded(0));
    assert_eq!(poll_targets(&games), vec![3]);
    assert_eq!(supervised_slots(&games), vec![2, 3]);
    assert_eq!(games[0].current_log, "zero");
    assert_eq!(games[3].current_log, "three");
}

#[test]
fn the_log_is_emptied_before_a_launch() {
    let mut g = game("a", "");
    g.on_event(Event::GotLogs(0, text("old output")));
    assert_eq!(g.current_log, "old output");
    g.clear_log();
    assert_eq!(g.current_log, "");
    g.on_event(Event::Ready(0));
    assert!(g.attached);
    g.on_event(Event::ProcessEnded(0));
    assert!(!g.attached && !g.is_running);
}

#[test]
fn names_are_compared_without_regard_to_case() {
    let apple = game("apple", "2001");
    let banana = game("Banana", "1999");
    let cherry = game("CHERRY", "");
    assert!(Sorts::Name.precedes(&apple, &banana));
    assert!(!Sorts::Name.precedes(&banana, &apple));
    assert!(Sorts::Name.precedes(&banana, &cherry));
    assert!(Sorts::Name.precedes(&apple, &cherry));
    assert!(!Sorts::Name.precedes(&apple, &apple));
    let other = game("APPLE", "1");
    assert!(!Sorts::Name.precedes(&apple, &other));
    assert!(!Sorts::Name.precedes(&other, &apple));
    assert!(Sorts::Name.compare_keys("B", None, "a", None));
    assert!(!Sorts::Name.compare_keys("a", None, "B", None));
}

#[test]
fn games_without_a_year_come_last() {
    let apple = game("apple", "2001");
    let banana = game("Banana", "1999");
    let cherry = game("CHERRY", "");
    assert!(Sorts::ReleaseDate.precedes(&banana, &apple));
    assert!(!Sorts::ReleaseDate.precedes(&apple, &banana));
    assert!(Sorts::ReleaseDate.precedes(&apple, &cherry));
    assert!(!Sorts::ReleaseDate.precedes(&cherry, &apple));
    assert!(!Sorts::ReleaseDate.precedes(&cherry, &cherry));
    assert!(!Sorts::ReleaseDate.compare_keys("", Some(isize::MAX), "", None));
    assert!(!Sorts::ReleaseDate.compare_keys("", None, "", Some(isize::MAX)));
    assert!(Sorts::ReleaseDate.compare_keys("", Some(isize::MIN), "", Some(0)));
}

fn names(games: &[Game]) -> Vec<&str> {
    games.iter().map(|g| g.name.as_str()).collect()
}

#[test]
fn the_catalog_is_put_in_order_by_name() {
    let mut games = vec![
        game("delta", "2004"),
        game("Alpha", "2001"),
        game("charlie", ""),
        game("Bravo", "2002"),
        game("alpha 2", "2003"),
    ];
    sort_none_selected(&mut games, Sorts::Name);
    assert_eq!(names(&games), vec!["Alpha", "alpha 2", "Bravo", "charlie", "delta"]);
    sort_none_selected(&mut games, Sorts::Name);
    assert_eq!(names(&games), vec!["Alpha", "alpha 2", "Bravo", "charlie", "delta"]);
    let mut none: Vec<Game> = Vec::new();
    sort_none_selected(&mut none, Sorts::Name);
    assert!(none.is_empty());
    let mut one = vec![game("solo", "")];
    sort_none_selected(&mut one, Sorts::ReleaseDate);
    assert_eq!(names(&one), vec!["solo"]);
}

#[test]
fn the_catalog_is_put_in_order_by_year() {
    let mut games = vec![
        game("d", "2004"),
        game("n1", ""),
        game("a", "1999"),
        game("n2", "unknown"),
        game("c", "2004"),
        game("b", "-3"),
    ];
    sort_none_selected(&mut games, Sorts::ReleaseDate);
    assert_eq!(names(&games), vec!["b", "a", "d", "c", "n1", "n2"]);
}

#[test]
fn the_selected_game_is_followed_through_the_sort() {
    let given = ["delta", "Alpha", "charlie", "Bravo", "echo"];
    for selected in 0..given.len() {
        let mut games: Vec<Game> = given.iter().map(|n| game(n, "")).collect();
        let now = sort(&mut games, Sorts::Name, selected);
        assert_eq!(names(&games), vec!["Alpha", "Bravo", "charlie", "delta", "echo"]);
        assert_eq!(games[now].name, given[selected]);
    }
    let mut games = vec![game("same", "2000"), game("same", "1990"), game("same", "2010")];
    let now = sort(&mut games, Sorts::ReleaseDate, 0);
    assert_eq!(now, 1);
    assert_eq!(games[now].release_year, Some(2000));
    let now = sort(&mut games, Sorts::Name, 2);
    assert_eq!(now, 2);
    assert_eq!(games[now].release_year, Some(2010));
}

#[test]
fn a_failed_spawn_takes_the_launch_back() {
    let mut games = vec![game("a", ""), game("b", ""), game("c", "")];
    games[0].run(&no_survey(), None);
    games[1].run(&no_survey(), None);
    dispatch(&mut games, Event::Ready(0));
    assert!(games[1].is_running);
    assert!(games[1].cmd_to_run.is_some());
    assert_eq!(supervised_slots(&games), vec![0, 1]);

    let mut supervisor = Supervisor::new(1, 8);
    assert_eq!(supervisor.pending_request(), Request::Spawn);
    let step = supervisor.advance(Reply::Spawned(false));
    assert!(step.emit.is_none());
    assert_eq!(step.request, Request::Stop);
    assert!(supervisor.has_ended());

    assert!(launch_failed(&mut games, 1));
    assert!(!games[1].is_running);
    assert!(games[1].cmd_to_run.is_none());
    assert!(!games[1].attached);
    assert_eq!(games[1].name, "b");
    assert_eq!(supervised_slots(&games), vec![0]);
    assert_eq!(poll_targets(&games), vec![0]);
    assert_eq!(terminate_target(&games, Some(1)), None);
    assert!(games[0].is_running && games[0].attached);
    assert!(games[0].cmd_to_run.is_some());
    assert!(!games[2].is_running);

    games[1].run(&no_survey(), None);
    assert!(games[1].is_running);
    assert_eq!(supervised_slots(&games), vec![0, 1]);
}

#[test]
fn a_failed_spawn_in_an_unknown_slot_changes_nothing() {
    let mut games = vec![game("a", "")];
    games[0].run(&no_survey(), None);
    assert!(!launch_failed(&mut games, 1));
    assert!(!launch_failed(&mut games, usize::MAX));
    assert!(games[0].is_running);
    assert!(games[0].cmd_to_run.is_some());
    let mut none: Vec<Game> = Vec::new();
    assert!(!launch_failed(&mut none, 0));
}

#[test]
fn a_game_takes_its_own_failed_launch() {
    let mut g = game("a", "");
    g.on_event(Event::GotLogs(0, text("kept")));
    g.run(&no_survey(), None);
    g.launch_failed();
    assert!(!g.is_running);
    assert!(g.cmd_to_run.is_none());
    assert!(!g.attached);
    assert_eq!(g.current_log, "kept");
    assert_eq!(g.runner_id, "native");
}
