use game_handler::command::Command;
use game_handler::environment::Config;
use game_handler::strmap::StrMap;

fn text(s: &str) -> String {
    s.to_string()
}

fn texts(items: &[&str]) -> Vec<String> {
    items.iter().map(|s| s.to_string()).collect()
}

fn base() -> Command {
    Command::bare(text("/opt/game/run"), texts(&["--level", "3"]))
}

fn env_of(cmd: &Command, key: &str) -> Option<String> {
    cmd.envs.get(key).cloned()
}

#[test]
fn plain_options_leave_the_command_alone() {
    let mut cmd = base();
    cmd.apply_config(&Config::default(), None);
    assert_eq!(cmd.program, "/opt/game/run");
    assert_eq!(cmd.args, texts(&["--level", "3"]));
    assert!(cmd.cwd.is_none());
    assert!(cmd.envs.is_empty());
}

#[test]
fn overlay_wraps_the_program() {
    let mut cfg = Config::default();
    cfg.mangohud = true;
    let mut cmd = base();
    cmd.apply_config(&cfg, None);
    assert_eq!(cmd.program, "mangohud");
    assert_eq!(cmd.args, texts(&["--dlsym", "/opt/game/run", "--level", "3"]));
}

#[test]
fn compositor_wraps_the_program() {
    let mut cfg = Config::default();
    cfg.gamescope = true;
    cfg.gamescope_params = texts(&["-f", "-W", "1920"]);
    let mut cmd = base();
    cmd.apply_config(&cfg, None);
    assert_eq!(cmd.program, "gamescope");
    assert_eq!(cmd.args, texts(&["-f", "-W", "1920", "--", "/opt/game/run", "--level", "3"]));
}

#[test]
fn compositor_wraps_the_overlay() {
    let mut cfg = Config::default();
    cfg.mangohud = true;
    cfg.gamescope = true;
    cfg.gamescope_params = texts(&["-f"]);
    let mut cmd = base();
    cmd.cwd = Some(text("/opt/game"));
    cmd.apply_config(&cfg, None);
    assert_eq!(cmd.program, "gamescope");
    assert_eq!(
        cmd.args,
        texts(&["-f", "--", "mangohud", "--dlsym", "/opt/game/run", "--level", "3"])
    );
    assert_eq!(cmd.cwd, Some(text("/opt/game")));
}

#[test]
fn compositor_without_parameters_starts_with_the_separator() {
    let mut cfg = Config::default();
    cfg.gamescope = true;
    let mut cmd = Command::bare(text("game"), Vec::new());
    cmd.apply_config(&cfg, None);
    assert_eq!(cmd.program, "gamescope");
    assert_eq!(cmd.args, texts(&["--", "game"]));
}

#[test]
fn mesa_offload_sets_its_variable() {
    let mut cfg = Config::default();
    cfg.mesa_prime = true;
    let mut cmd = base();
    cmd.apply_config(&cfg, None);
    assert_eq!(env_of(&cmd, "DRI_PRIME"), Some(text("1")));
    assert_eq!(cmd.envs.len(), 1);
}

#[test]
fn nvidia_offload_sets_its_variables() {
    let mut cfg = Config::default();
    cfg.nv_prime = true;
    let mut cmd = base();
    cmd.apply_config(&cfg, Some(text("10de:1c8d")));
    assert_eq!(env_of(&cmd, "__NV_PRIME_RENDER_OFFLOAD"), Some(text("1")));
    assert_eq!(env_of(&cmd, "__GLX_VENDOR_LIBRARY_NAME"), Some(text("nvidia")));
    assert_eq!(env_of(&cmd, "__VK_LAYER_NV_optimus"), Some(text("NVIDIA_only")));
    assert_eq!(env_of(&cmd, "MESA__VK_DEVICE_SELECT"), None);
    assert_eq!(cmd.envs.len(), 3);
}

#[test]
fn device_selector_needs_offload_and_compositor_and_an_answer() {
    let mut cfg = Config::default();
    cfg.nv_prime = true;
    cfg.gamescope = true;
    assert!(cfg.wants_gpu_query());

    let mut cmd = base();
    cmd.apply_config(&cfg, Some(text("10de:1c8d\n")));
    assert_eq!(env_of(&cmd, "MESA__VK_DEVICE_SELECT"), Some(text("10de:1c8d\n")));

    let mut cmd = base();
    cmd.apply_config(&cfg, Some(String::new()));
    assert_eq!(env_of(&cmd, "MESA__VK_DEVICE_SELECT"), None);

    let mut cmd = base();
    cmd.apply_config(&cfg, None);
    assert_eq!(env_of(&cmd, "MESA__VK_DEVICE_SELECT"), None);
    assert_eq!(cmd.envs.len(), 3);

    cfg.nv_prime = false;
    assert!(!cfg.wants_gpu_query());
    let mut cmd = base();
    cmd.apply_config(&cfg, Some(text("10de:1c8d")));
    assert!(cmd.envs.is_empty());
}

#[test]
fn the_driver_file_is_passed_on() {
    let mut cfg = Config::default();
    cfg.vk_icd_loader = Some(text("/usr/share/vulkan/icd.d/radeon.json"));
    let mut cmd = base();
    cmd.apply_config(&cfg, None);
    assert_eq!(
        env_of(&cmd, "VK_DRIVER_FILES"),
        Some(text("/usr/share/vulkan/icd.d/radeon.json"))
    );
}

#[test]
fn user_variables_come_last() {
    let mut cfg = Config::default();
    cfg.mesa_prime = true;
    cfg.envs.insert(text("DRI_PRIME"), text("0"));
    cfg.envs.insert(text("FOO"), text("bar"));
    let mut cmd = base();
    cmd.envs.insert(text("FOO"), text("from the runner"));
    cmd.envs.insert(text("KEPT"), text("yes"));
    cmd.apply_config(&cfg, None);
    assert_eq!(env_of(&cmd, "DRI_PRIME"), Some(text("0")));
    assert_eq!(env_of(&cmd, "FOO"), Some(text("bar")));
    assert_eq!(env_of(&cmd, "KEPT"), Some(text("yes")));
    assert_eq!(cmd.envs.len(), 3);
}

#[test]
fn boost_alone_sets_the_preload_list() {
    let mut cfg = Config::default();
    cfg.gamemode = true;
    let mut cmd = base();
    cmd.apply_config(&cfg, None);
    assert_eq!(env_of(&cmd, "LD_PRELOAD"), Some(text("libgamemodeauto.so.0")));
    assert_eq!(cmd.envs.len(), 1);
}

#[test]
fn boost_goes_before_the_users_preload_list() {
    let mut cfg = Config::default();
    cfg.gamemode = true;
    cfg.envs.insert(text("LD_PRELOAD"), text("/usr/lib/libfoo.so"));
    cfg.envs.insert(text("OTHER"), text("1"));
    let mut cmd = base();
    cmd.apply_config(&cfg, None);
    assert_eq!(
        env_of(&cmd, "LD_PRELOAD"),
        Some(text("libgamemodeauto.so.0:/usr/lib/libfoo.so"))
    );
    assert_eq!(env_of(&cmd, "OTHER"), Some(text("1")));
    assert_eq!(cmd.envs.len(), 2);
}

#[test]
fn without_boost_the_users_preload_list_is_taken_as_it_is() {
    let mut cfg = Config::default();
    cfg.envs.insert(text("LD_PRELOAD"), text("/usr/lib/libfoo.so"));
    let mut cmd = base();
    cmd.apply_config(&cfg, None);
    assert_eq!(env_of(&cmd, "LD_PRELOAD"), Some(text("/usr/lib/libfoo.so")));
}

#[test]
fn applying_twice_to_equal_commands_gives_equal_commands() {
    let mut cfg = Config::default();
    cfg.mangohud = true;
    cfg.gamescope = true;
    cfg.gamemode = true;
    cfg.gamescope_params = texts(&["-f"]);
    cfg.envs.insert(text("A"), text("1"));
    let mut first = base();
    let mut second = first.clone();
    first.apply_config(&cfg, None);
    second.apply_config(&cfg, None);
    assert_eq!(first.program, second.program);
    assert_eq!(first.args, second.args);
    assert_eq!(first.cwd, second.cwd);
    assert_eq!(first.envs.len(), second.envs.len());
    for i in 0..first.envs.len() {
        let key = first.envs.key_at(i);
        assert_eq!(second.envs.get(key), Some(first.envs.value_at(i)));
    }
}

#[test]
fn a_map_keeps_one_value_for_each_key() {
    let mut map: StrMap<String> = StrMap::new();
    assert!(map.is_empty());
    map.insert(text("a"), text("1"));
    map.insert(text("b"), text("2"));
    map.insert(text("a"), text("3"));
    assert_eq!(map.len(), 2);
    assert_eq!(map.get("a"), Some(&text("3")));
    assert_eq!(map.get("b"), Some(&text("2")));
    assert_eq!(map.get("c"), None);
    assert!(map.contains_key("b"));
    assert!(!map.contains_key("c"));
    assert_eq!(map.position("a"), Some(0));
    assert_eq!(map.position("b"), Some(1));
    assert_eq!(map.key_at(1), "b");
    assert_eq!(map.value_at(0), "3");
}
