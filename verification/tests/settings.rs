use game_handler::config::{override_defaults, CValue, Cfg, Kind};
use game_handler::defaults::{
    config_order, default_config, get_default_config_with_vals, runner_ids,
};
use game_handler::document::{Section, TomlValue};
use game_handler::text::opt;

fn text(s: &str) -> String {
    s.to_string()
}

fn texts(items: &[&str]) -> Vec<String> {
    items.iter().map(|s| s.to_string()).collect()
}

fn pairs_of(value: &CValue) -> Vec<(String, String)> {
    let map = value.as_hashmap();
    let mut out = Vec::new();
    for i in 0..map.len() {
        out.push((map.key_at(i).clone(), map.value_at(i).clone()));
    }
    out.sort();
    out
}

fn same(a: &CValue, b: &CValue) -> bool {
    match (a, b) {
        (CValue::Str(x), CValue::Str(y)) => x == y,
        (CValue::Bool(x), CValue::Bool(y)) => x == y,
        (CValue::StrArr(x), CValue::StrArr(y)) => x == y,
        (CValue::OneOff(c, i), CValue::OneOff(d, j)) => c == d && i == j,
        (CValue::PickFile(x), CValue::PickFile(y)) => x == y,
        (CValue::PickFolder(x), CValue::PickFolder(y)) => x == y,
        _ => false,
    }
}

fn same_toml(a: &TomlValue, b: &TomlValue) -> bool {
    match (a, b) {
        (TomlValue::String(x), TomlValue::String(y)) => x == y,
        (TomlValue::Integer(x), TomlValue::Integer(y)) => x == y,
        (TomlValue::Float(x), TomlValue::Float(y)) => x == y,
        (TomlValue::Boolean(x), TomlValue::Boolean(y)) => x == y,
        (TomlValue::Datetime(x), TomlValue::Datetime(y)) => x == y,
        (TomlValue::Array(x), TomlValue::Array(y)) => x == y,
        _ => false,
    }
}

#[test]
fn an_empty_text_is_no_text() {
    assert_eq!(opt(String::new()), None);
    assert_eq!(opt(text("x")), Some(text("x")));
    assert_eq!(opt(text(" ")), Some(text(" ")));
}

#[test]
fn textual_values_are_read_as_text() {
    assert_eq!(CValue::Str(text("a")).as_string(), "a");
    assert_eq!(CValue::PickFile(text("/f")).as_string(), "/f");
    assert_eq!(CValue::PickFolder(text("/d")).as_string(), "/d");
    assert_eq!(CValue::OneOff(texts(&["x", "y", "z"]), 1).as_string(), "y");
    assert_eq!(CValue::OneOff(texts(&["x", "y", "z"]), 2).as_string(), "z");
    assert_eq!(CValue::Str(String::new()).as_string(), "");
}

#[test]
fn toggles_and_lists_are_read_as_they_are() {
    assert!(CValue::Bool(true).as_bool());
    assert!(!CValue::Bool(false).as_bool());
    assert_eq!(CValue::StrArr(texts(&["a", "b"])).as_strarr(), texts(&["a", "b"]));
    assert!(CValue::StrArr(Vec::new()).as_strarr().is_empty());
}

#[test]
fn values_know_their_kind() {
    assert_eq!(CValue::Str(text("a")).kind(), Kind::Str);
    assert_eq!(CValue::Bool(true).kind(), Kind::Bool);
    assert_eq!(CValue::StrArr(Vec::new()).kind(), Kind::StrArr);
    assert_eq!(CValue::OneOff(texts(&["a"]), 0).kind(), Kind::OneOff);
    assert_eq!(CValue::PickFile(text("a")).kind(), Kind::PickFile);
    assert_eq!(CValue::PickFolder(text("a")).kind(), Kind::PickFolder);
}

#[test]
fn a_list_is_read_as_keys_and_values_in_turn() {
    let list = CValue::StrArr(texts(&["A", "1", "B", "2"]));
    assert_eq!(pairs_of(&list), vec![(text("A"), text("1")), (text("B"), text("2"))]);
    assert!(pairs_of(&CValue::StrArr(Vec::new())).is_empty());
}

#[test]
fn a_key_without_a_value_gets_the_empty_text() {
    let list = CValue::StrArr(texts(&["A", "1", "B"]));
    assert_eq!(pairs_of(&list), vec![(text("A"), text("1")), (text("B"), String::new())]);
    let list = CValue::StrArr(texts(&["ONLY"]));
    assert_eq!(pairs_of(&list), vec![(text("ONLY"), String::new())]);
}

#[test]
fn a_key_that_comes_again_replaces_its_value() {
    let list = CValue::StrArr(texts(&["A", "1", "A", "2", "A"]));
    assert_eq!(pairs_of(&list), vec![(text("A"), String::new())]);
    let list = CValue::StrArr(texts(&["A", "1", "A", "2"]));
    assert_eq!(pairs_of(&list), vec![(text("A"), text("2"))]);
}

#[test]
fn a_value_of_the_expected_kind_stays() {
    let got = CValue::Bool(true).try_coerce(&CValue::Bool(false)).unwrap();
    assert!(same(&got, &CValue::Bool(true)));
    let got = CValue::Str(text("x")).try_coerce(&CValue::Str(String::new())).unwrap();
    assert!(same(&got, &CValue::Str(text("x"))));
    let got = CValue::StrArr(texts(&["a"])).try_coerce(&CValue::StrArr(Vec::new())).unwrap();
    assert!(same(&got, &CValue::StrArr(texts(&["a"]))));
    let got = CValue::OneOff(texts(&["p", "q"]), 1)
        .try_coerce(&CValue::OneOff(texts(&["a", "b"]), 0))
        .unwrap();
    assert!(same(&got, &CValue::OneOff(texts(&["p", "q"]), 1)));
}

#[test]
fn a_text_becomes_a_path_or_a_choice() {
    let got = CValue::Str(text("/f")).try_coerce(&CValue::PickFile(String::new())).unwrap();
    assert!(same(&got, &CValue::PickFile(text("/f"))));
    let got = CValue::Str(text("/d")).try_coerce(&CValue::PickFolder(String::new())).unwrap();
    assert!(same(&got, &CValue::PickFolder(text("/d"))));
    let choices = CValue::OneOff(texts(&["a", "b", "c", "b"]), 0);
    let got = CValue::Str(text("b")).try_coerce(&choices).unwrap();
    assert!(same(&got, &CValue::OneOff(texts(&["a", "b", "c", "b"]), 1)));
    let got = CValue::Str(text("a")).try_coerce(&choices).unwrap();
    assert!(same(&got, &CValue::OneOff(texts(&["a", "b", "c", "b"]), 0)));
}

#[test]
fn what_does_not_fit_is_refused() {
    let choices = CValue::OneOff(texts(&["a", "b"]), 0);
    assert!(CValue::Str(text("z")).try_coerce(&choices).is_none());
    assert!(CValue::Str(text("A")).try_coerce(&choices).is_none());
    assert!(CValue::Bool(true).try_coerce(&choices).is_none());
    assert!(CValue::Bool(true).try_coerce(&CValue::Str(String::new())).is_none());
    assert!(CValue::Bool(true).try_coerce(&CValue::PickFile(String::new())).is_none());
    assert!(CValue::StrArr(Vec::new()).try_coerce(&CValue::PickFolder(String::new())).is_none());
    assert!(CValue::Str(text("true")).try_coerce(&CValue::Bool(false)).is_none());
    assert!(CValue::Str(text("a")).try_coerce(&CValue::StrArr(Vec::new())).is_none());
    assert!(CValue::PickFile(text("a")).try_coerce(&CValue::PickFolder(String::new())).is_none());
    assert!(CValue::PickFile(text("a")).try_coerce(&CValue::Str(String::new())).is_none());
}

#[test]
fn a_set_value_wins_over_its_default() {
    let defaults = default_config();
    let mut cfg = Cfg::new();
    cfg.0.insert(text("name"), CValue::Str(text("Tetris")));
    assert_eq!(cfg.get_or_default("name", &defaults).as_string(), "Tetris");
    assert_eq!(cfg.get_or_default("box_art", &defaults).as_string(), "");
    assert!(cfg.get_or_default("gamemode", &defaults).as_bool());
    assert!(!cfg.get_or_default("mangohud", &defaults).as_bool());
    assert_eq!(cfg.get_or_default("runner", &defaults).as_string(), "dummy");
    cfg.0.insert(text("only here"), CValue::Bool(true));
    assert!(cfg.get_or_default("only here", &defaults).as_bool());
}

#[test]
fn the_defaults_know_every_setting() {
    let defaults = default_config();
    assert_eq!(defaults.len(), 48);
    let (label, value) = defaults.get("runner").unwrap();
    assert_eq!(label, "runner");
    assert!(same(value, &CValue::OneOff(runner_ids(), 0)));
    let (label, value) = defaults.get("mesa_prime").unwrap();
    assert_eq!(label, "use prime render offload (for amd gpus)");
    assert!(same(value, &CValue::Bool(false)));
    let (label, value) = defaults.get("wine:path_to_wine").unwrap();
    assert_eq!(label, "path to wine executable");
    assert!(same(value, &CValue::PickFile(text("wine"))));
    let (label, value) = defaults.get("launcher:sgdb_api_key").unwrap();
    assert_eq!(label, "SteamGridDB API key");
    assert!(same(value, &CValue::Str(String::new())));
    let (_, value) = defaults.get("gamemode").unwrap();
    assert!(same(value, &CValue::Bool(true)));
    assert!(defaults.get("steam:anything").is_none());
    for (section, keys) in config_order() {
        assert!(!keys.is_empty(), "section {} is empty", section);
        for key in keys {
            assert!(defaults.contains_key(&key), "no default for {}", key);
        }
    }
}

#[test]
fn the_sections_come_in_their_order() {
    let order = config_order();
    let names: Vec<&str> = order.iter().map(|s| s.0.as_str()).collect();
    assert_eq!(
        names,
        vec![
            "launcher:launcher",
            "metadata",
            "general",
            "native:native",
            "wine:wine",
            "ryujinx:ryujinx",
            "rpcs3:rpcs3",
            "mame:mame",
            "pcsx2:pcsx2",
            "yuzu:yuzu",
            "citra:citra",
            "vita3k:vita3k",
            "duckstation:duckstation",
            "umu:umu"
        ]
    );
    assert_eq!(order[1].1, texts(&["name", "box_art", "release_year", "path_to_game", "runner"]));
    assert_eq!(order[2].1[0], "mangohud");
    assert_eq!(order[2].1[8], "gamemode");
}

#[test]
fn minimal_settings_set_only_the_runner() {
    let cfg = Cfg::minimal();
    assert_eq!(cfg.0.len(), 1);
    assert!(same(cfg.0.get("runner").unwrap(), &CValue::OneOff(runner_ids(), 0)));
}

#[test]
fn set_values_replace_defaults_under_the_same_label() {
    let mut cfg = Cfg::new();
    cfg.0.insert(text("mangohud"), CValue::Bool(true));
    cfg.0.insert(text("wine:path_to_wine"), CValue::PickFile(text("/opt/wine")));
    let defaults = get_default_config_with_vals(&cfg);
    assert_eq!(defaults.len(), 48);
    let (label, value) = defaults.get("mangohud").unwrap();
    assert_eq!(label, "mangohud");
    assert!(same(value, &CValue::Bool(true)));
    let (label, value) = defaults.get("wine:path_to_wine").unwrap();
    assert_eq!(label, "path to wine executable");
    assert!(same(value, &CValue::PickFile(text("/opt/wine"))));
    let (_, value) = defaults.get("gamescope").unwrap();
    assert!(same(value, &CValue::Bool(false)));

    let again = override_defaults(defaults, &Cfg::new());
    assert!(same(&again.get("mangohud").unwrap().1, &CValue::Bool(true)));
}

fn section(name: &str, entries: Vec<(&str, TomlValue)>) -> Section {
    Section {
        name: text(name),
        entries: entries.into_iter().map(|(k, v)| (text(k), v)).collect(),
    }
}

#[test]
fn file_values_become_settings_values() {
    assert!(same(&CValue::from_toml_value(&TomlValue::String(text("s"))), &CValue::Str(text("s"))));
    assert!(same(&CValue::from_toml_value(&TomlValue::Integer(1998)), &CValue::Str(text("1998"))));
    assert!(same(&CValue::from_toml_value(&TomlValue::Integer(0)), &CValue::Str(text("0"))));
    assert!(same(&CValue::from_toml_value(&TomlValue::Integer(-42)), &CValue::Str(text("-42"))));
    assert!(same(
        &CValue::from_toml_value(&TomlValue::Integer(i64::MIN)),
        &CValue::Str(text("-9223372036854775808"))
    ));
    assert!(same(
        &CValue::from_toml_value(&TomlValue::Integer(i64::MAX)),
        &CValue::Str(text("9223372036854775807"))
    ));
    assert!(same(&CValue::from_toml_value(&TomlValue::Float(text("1.5"))), &CValue::Str(text("1.5"))));
    assert!(same(&CValue::from_toml_value(&TomlValue::Boolean(true)), &CValue::Bool(true)));
    assert!(same(
        &CValue::from_toml_value(&TomlValue::Datetime(text("1979-05-27"))),
        &CValue::Str(text("1979-05-27"))
    ));
    let array = TomlValue::Array(vec![Some(text("a")), None, Some(text("b")), None]);
    assert!(same(&CValue::from_toml_value(&array), &CValue::StrArr(texts(&["a", "b"]))));
    assert!(same(&CValue::from_toml_value(&TomlValue::Array(Vec::new())), &CValue::StrArr(Vec::new())));
}

#[test]
fn settings_values_are_written_as_file_values() {
    assert!(same_toml(&CValue::Str(text("s")).to_toml_value(), &TomlValue::String(text("s"))));
    assert!(same_toml(&CValue::Bool(false).to_toml_value(), &TomlValue::Boolean(false)));
    assert!(same_toml(
        &CValue::StrArr(texts(&["a", "b"])).to_toml_value(),
        &TomlValue::Array(vec![Some(text("a")), Some(text("b"))])
    ));
    assert!(same_toml(
        &CValue::OneOff(texts(&["x", "y"]), 1).to_toml_value(),
        &TomlValue::String(text("y"))
    ));
    assert!(same_toml(&CValue::PickFile(text("/f")).to_toml_value(), &TomlValue::String(text("/f"))));
    assert!(same_toml(&CValue::PickFolder(text("/d")).to_toml_value(), &TomlValue::String(text("/d"))));
}

#[test]
fn a_file_is_read_against_the_defaults() {
    let doc = vec![
        section(
            "metadata",
            vec![
                ("name", TomlValue::String(text("Halo"))),
                ("release_year", TomlValue::Integer(2001)),
                ("runner", TomlValue::String(text("wine"))),
                ("path_to_game", TomlValue::String(text("/g/halo.exe"))),
                ("unknown", TomlValue::String(text("x"))),
            ],
        ),
        section(
            "general",
            vec![
                ("mangohud", TomlValue::Boolean(true)),
                ("gamemode", TomlValue::String(text("yes"))),
                ("env_variables", TomlValue::Array(vec![Some(text("A")), Some(text("1"))])),
            ],
        ),
        section(
            "wine",
            vec![
                ("use_dxvk", TomlValue::Boolean(true)),
                ("dxvk_path", TomlValue::String(text("/opt/dxvk"))),
                ("name", TomlValue::String(text("not the game's name"))),
            ],
        ),
        section("nowhere", vec![("key", TomlValue::Boolean(true))]),
    ];
    let cfg = Cfg::from_toml(&doc);
    assert_eq!(cfg.0.len(), 8);
    assert!(same(cfg.0.get("name").unwrap(), &CValue::Str(text("Halo"))));
    assert!(same(cfg.0.get("release_year").unwrap(), &CValue::Str(text("2001"))));
    assert!(same(cfg.0.get("runner").unwrap(), &CValue::OneOff(runner_ids(), 2)));
    assert!(same(cfg.0.get("path_to_game").unwrap(), &CValue::PickFile(text("/g/halo.exe"))));
    assert!(same(cfg.0.get("mangohud").unwrap(), &CValue::Bool(true)));
    assert!(same(cfg.0.get("env_variables").unwrap(), &CValue::StrArr(texts(&["A", "1"]))));
    assert!(same(cfg.0.get("wine:use_dxvk").unwrap(), &CValue::Bool(true)));
    assert!(same(cfg.0.get("wine:dxvk_path").unwrap(), &CValue::PickFolder(text("/opt/dxvk"))));
    assert!(cfg.0.get("gamemode").is_none());
    assert!(cfg.0.get("unknown").is_none());
    assert!(cfg.0.get("wine:name").is_none());
    assert!(cfg.0.get("nowhere:key").is_none());
}

#[test]
fn an_unknown_runner_in_a_file_is_passed_over() {
    let doc = vec![section("metadata", vec![("runner", TomlValue::String(text("proton")))])];
    assert!(Cfg::from_toml(&doc).0.is_empty());
    assert!(Cfg::from_toml(&Vec::new()).0.is_empty());
}

#[test]
fn a_later_entry_replaces_an_earlier_one() {
    let doc = vec![
        section("metadata", vec![("name", TomlValue::String(text("first")))]),
        section("general", vec![("name", TomlValue::String(text("second")))]),
    ];
    let cfg = Cfg::from_toml(&doc);
    assert_eq!(cfg.0.len(), 1);
    assert!(same(cfg.0.get("name").unwrap(), &CValue::Str(text("second"))));
}

#[test]
fn settings_are_written_section_by_section() {
    let mut cfg = Cfg::new();
    cfg.0.insert(text("wine:args"), CValue::StrArr(texts(&["-w"])));
    cfg.0.insert(text("runner"), CValue::OneOff(runner_ids(), 2));
    cfg.0.insert(text("name"), CValue::Str(text("Halo")));
    cfg.0.insert(text("launcher:sgdb_api_key"), CValue::Str(text("key")));
    cfg.0.insert(text("wine:path_to_wine"), CValue::PickFile(text("/opt/wine")));
    cfg.0.insert(text("gamemode"), CValue::Bool(false));
    cfg.0.insert(text("not in the order"), CValue::Bool(true));
    let doc = cfg.to_toml();
    let names: Vec<&str> = doc.iter().map(|s| s.name.as_str()).collect();
    assert_eq!(names, vec!["launcher", "metadata", "general", "wine"]);
    let keys = |i: usize| -> Vec<&str> { doc[i].entries.iter().map(|e| e.0.as_str()).collect() };
    assert_eq!(keys(0), vec!["sgdb_api_key"]);
    assert_eq!(keys(1), vec!["name", "runner"]);
    assert_eq!(keys(2), vec!["gamemode"]);
    assert_eq!(keys(3), vec!["path_to_wine", "args"]);
    assert!(same_toml(&doc[1].entries[1].1, &TomlValue::String(text("wine"))));
    assert!(same_toml(&doc[3].entries[1].1, &TomlValue::Array(vec![Some(text("-w"))])));
    assert!(Cfg::new().to_toml().is_empty());
}

#[test]
fn what_is_written_is_read_back() {
    let mut cfg = Cfg::new();
    cfg.0.insert(text("name"), CValue::Str(text("Halo")));
    cfg.0.insert(text("runner"), CValue::OneOff(runner_ids(), 5));
    cfg.0.insert(text("box_art"), CValue::PickFile(text("/art.png")));
    cfg.0.insert(text("mangohud"), CValue::Bool(true));
    cfg.0.insert(text("gamescope_params"), CValue::StrArr(texts(&["-f", "-W", "1920"])));
    cfg.0.insert(text("mame:machine_name"), CValue::Str(text("pacman")));
    cfg.0.insert(text("umu:path_to_proton"), CValue::PickFolder(text("/opt/proton")));
    let back = Cfg::from_toml(&cfg.to_toml());
    assert_eq!(back.0.len(), cfg.0.len());
    for i in 0..cfg.0.len() {
        let key = cfg.0.key_at(i);
        assert!(same(back.0.get(key).unwrap(), cfg.0.value_at(i)), "differs at {}", key);
    }
}

#[test]
fn a_custom_order_is_followed() {
    let mut cfg = Cfg::new();
    cfg.0.insert(text("a:b:c"), CValue::Str(text("1")));
    cfg.0.insert(text("plain"), CValue::Bool(true));
    let order = vec![
        (text("x:y:z"), texts(&["plain", "missing", "a:b:c"])),
        (text("empty"), texts(&["missing"])),
        (text("tail:"), texts(&["a:b:c"])),
    ];
    let doc = cfg.to_sections(&order);
    assert_eq!(doc.len(), 2);
    assert_eq!(doc[0].name, "z");
    assert_eq!(doc[0].entries.len(), 2);
    assert_eq!(doc[0].entries[0].0, "plain");
    assert_eq!(doc[0].entries[1].0, "c");
    assert_eq!(doc[1].name, "");
    assert_eq!(doc[1].entries[0].0, "c");
}

#[test]
fn a_setting_is_set_back_to_its_default_or_pinned_to_it() {
    let defaults = default_config();
    let mut cfg = Cfg::new();
    cfg.0.insert(text("gamemode"), CValue::Bool(false));
    cfg.0.insert(text("name"), CValue::Str(text("Halo")));
    cfg.set_default(text("gamemode"), true, &defaults);
    assert!(cfg.0.get("gamemode").is_none());
    assert_eq!(cfg.0.len(), 1);
    assert!(cfg.get_or_default("gamemode", &defaults).as_bool());
    cfg.set_default(text("gamemode"), true, &defaults);
    assert_eq!(cfg.0.len(), 1);
    cfg.set_default(text("wine:path_to_wine"), false, &defaults);
    assert!(same(cfg.0.get("wine:path_to_wine").unwrap(), &CValue::PickFile(text("wine"))));
    cfg.set_default(text("name"), false, &defaults);
    assert!(same(cfg.0.get("name").unwrap(), &CValue::Str(String::new())));
    assert_eq!(cfg.0.len(), 2);
}

#[test]
fn entries_are_taken_out_of_a_map() {
    let mut map: game_handler::strmap::StrMap<String> = game_handler::strmap::StrMap::new();
    map.insert(text("a"), text("1"));
    map.insert(text("b"), text("2"));
    map.insert(text("c"), text("3"));
    assert_eq!(map.remove("b"), Some(text("2")));
    assert_eq!(map.remove("b"), None);
    assert_eq!(map.remove("z"), None);
    assert_eq!(map.len(), 2);
    assert_eq!(map.key_at(0), "a");
    assert_eq!(map.key_at(1), "c");
    assert_eq!(map.get("c"), Some(&text("3")));
    assert!(!map.contains_key("b"));
    let copy = map.clone();
    assert_eq!(map.remove("a"), Some(text("1")));
    assert_eq!(map.remove("c"), Some(text("3")));
    assert!(map.is_empty());
    assert_eq!(copy.len(), 2);
    assert_eq!(copy.get("a"), Some(&text("1")));
}

#[test]
fn a_choice_is_read_back_among_the_choices_of_its_default() {
    let mut cfg = Cfg::new();
    cfg.0.insert(text("runner"), CValue::OneOff(texts(&["wine", "native"]), 0));
    let back = Cfg::from_toml(&cfg.to_toml());
    assert!(same(back.0.get("runner").unwrap(), &CValue::OneOff(runner_ids(), 2)));

    let mut cfg = Cfg::new();
    cfg.0.insert(text("runner"), CValue::OneOff(texts(&["proton"]), 0));
    assert!(Cfg::from_toml(&cfg.to_toml()).0.is_empty());
}

#[test]
fn every_setting_is_read_back_under_its_own_key() {
    let defaults = default_config();
    let mut cfg = Cfg::new();
    for i in 0..defaults.len() {
        cfg.0.insert(defaults.key_at(i).clone(), defaults.value_at(i).1.clone());
    }
    let back = Cfg::from_toml(&cfg.to_toml());
    assert_eq!(back.0.len(), 48);
    for i in 0..cfg.0.len() {
        let key = cfg.0.key_at(i);
        assert!(same(back.0.get(key).unwrap(), cfg.0.value_at(i)), "differs at {}", key);
    }
}
