//! The settings that the launcher knows, with their labels, their defaults and
//! their order.

use vstd::prelude::*;

use crate::citra::CitraRunner;
use crate::config::{
    conforms, has_kind, kind_of, with_vals, CValue, CValueView, Cfg, Defaults, Kind,
};
use crate::duckstation::DuckStationRunner;
use crate::games::DummyRunner;
use crate::mame::MameRunner;
use crate::native::NativeRunner;
use crate::pcsx2::Pcsx2Runner;
use crate::rpcs3::Rpcs3Runner;
use crate::ryujinx::RyujinxRunner;
use crate::steam::SteamRunner;
use crate::strmap::{assoc_map, StrMap};
use crate::text::texts;
use crate::umu::UmuRunner;
use crate::vita3k::Vita3kRunner;
use crate::wine::WineRunner;
use crate::yuzu::YuzuRunner;

verus! {

/// The names of the runners, in the order in which the settings offer them.
pub open spec fn runner_names() -> Seq<Seq<char>> {
    seq![
        "dummy"@,
        "native"@,
        "wine"@,
        "ryujinx"@,
        "rpcs3"@,
        "mame"@,
        "pcsx2"@,
        "yuzu"@,
        "citra"@,
        "vita3k"@,
        "steam"@,
        "duckstation"@,
        "umu"@,
    ]
}

/// The names of the runners, in the order in which the settings offer them.
pub fn runner_ids() -> (r: Vec<String>)
    ensures
        texts(r@) == runner_names(),
{
    let mut ids: Vec<String> = Vec::new();
    ids.push(DummyRunner().get_runner_id());
    ids.push(NativeRunner.get_runner_id());
    ids.push(WineRunner.get_runner_id());
    ids.push(RyujinxRunner.get_runner_id());
    ids.push(Rpcs3Runner.get_runner_id());
    ids.push(MameRunner.get_runner_id());
    ids.push(Pcsx2Runner.get_runner_id());
    ids.push(YuzuRunner.get_runner_id());
    ids.push(CitraRunner.get_runner_id());
    ids.push(Vita3kRunner.get_runner_id());
    ids.push(SteamRunner.get_runner_id());
    ids.push(DuckStationRunner.get_runner_id());
    ids.push(UmuRunner.get_runner_id());
    assert(texts(ids@) =~= runner_names());
    ids
}

/// The settings that do not belong to a runner, with their labels and
/// defaults.
pub open spec fn general_settings() -> Map<Seq<char>, (Seq<char>, CValueView)> {
    Map::empty().insert(
        "launcher:sgdb_api_key"@,
        ("SteamGridDB API key"@, CValueView::Str(Seq::empty())),
    ).insert("name"@, ("name"@, CValueView::Str(Seq::empty()))).insert(
        "box_art"@,
        ("box art"@, CValueView::PickFile(Seq::empty())),
    ).insert("release_year"@, ("release year"@, CValueView::Str(Seq::empty()))).insert(
        "path_to_game"@,
        ("path to game"@, CValueView::PickFile(Seq::empty())),
    ).insert("runner"@, ("runner"@, CValueView::OneOff(runner_names(), 0))).insert(
        "vk_icd_loader"@,
        ("path to vulkan icd loader"@, CValueView::PickFile(Seq::empty())),
    ).insert("mangohud"@, ("mangohud"@, CValueView::Bool(false))).insert(
        "mesa_prime"@,
        ("use prime render offload (for amd gpus)"@, CValueView::Bool(false)),
    ).insert(
        "nv_prime"@,
        ("use prime render offload (for nvidia gpus)"@, CValueView::Bool(false)),
    ).insert(
        "env_variables"@,
        ("additional environment variables"@, CValueView::StrArr(Seq::empty())),
    ).insert("no_sleep_enabled"@, ("disable sleep"@, CValueView::Bool(false))).insert(
        "gamescope"@,
        ("enable gamescope"@, CValueView::Bool(false)),
    ).insert("gamescope_params"@, ("gamescope parameters"@, CValueView::StrArr(Seq::empty()))).insert(
        "gamemode"@,
        ("gamemode"@, CValueView::Bool(true)),
    )
}

/// The defaults have the settings that do not belong to a runner.
pub open spec fn general_supplied(d: Map<Seq<char>, (Seq<char>, CValueView)>) -> bool {
    &&& has_kind(d, "launcher:sgdb_api_key"@, Kind::Str)
    &&& has_kind(d, "name"@, Kind::Str)
    &&& has_kind(d, "box_art"@, Kind::PickFile)
    &&& has_kind(d, "release_year"@, Kind::Str)
    &&& has_kind(d, "path_to_game"@, Kind::PickFile)
    &&& has_kind(d, "runner"@, Kind::OneOff)
    &&& has_kind(d, "vk_icd_loader"@, Kind::PickFile)
    &&& has_kind(d, "mangohud"@, Kind::Bool)
    &&& has_kind(d, "mesa_prime"@, Kind::Bool)
    &&& has_kind(d, "nv_prime"@, Kind::Bool)
    &&& has_kind(d, "env_variables"@, Kind::StrArr)
    &&& has_kind(d, "no_sleep_enabled"@, Kind::Bool)
    &&& has_kind(d, "gamescope"@, Kind::Bool)
    &&& has_kind(d, "gamescope_params"@, Kind::StrArr)
    &&& has_kind(d, "gamemode"@, Kind::Bool)
}

/// All settings with their labels and defaults: the general ones, then those
/// of each runner.
pub open spec fn default_settings() -> Map<Seq<char>, (Seq<char>, CValueView)> {
    general_settings().union_prefer_right(DummyRunner::default_settings()).union_prefer_right(
        NativeRunner::default_settings(),
    ).union_prefer_right(WineRunner::default_settings()).union_prefer_right(
        RyujinxRunner::default_settings(),
    ).union_prefer_right(Rpcs3Runner::default_settings()).union_prefer_right(
        MameRunner::default_settings(),
    ).union_prefer_right(Pcsx2Runner::default_settings()).union_prefer_right(
        YuzuRunner::default_settings(),
    ).union_prefer_right(CitraRunner::default_settings()).union_prefer_right(
        Vita3kRunner::default_settings(),
    ).union_prefer_right(SteamRunner::default_settings()).union_prefer_right(
        DuckStationRunner::default_settings(),
    ).union_prefer_right(UmuRunner::default_settings())
}

/// The defaults have every setting that the launcher and its runners read,
/// each with a sound value of its kind.
pub open spec fn is_complete(d: Map<Seq<char>, (Seq<char>, CValueView)>) -> bool {
    &&& general_supplied(d)
    &&& NativeRunner::supplied(d)
    &&& WineRunner::supplied(d)
    &&& RyujinxRunner::supplied(d)
    &&& Rpcs3Runner::supplied(d)
    &&& MameRunner::supplied(d)
    &&& Pcsx2Runner::supplied(d)
    &&& YuzuRunner::supplied(d)
    &&& CitraRunner::supplied(d)
    &&& Vita3kRunner::supplied(d)
    &&& DuckStationRunner::supplied(d)
    &&& UmuRunner::supplied(d)
}

/// What tells one key from another: its length, its first character, and
/// its sixth where it has one.
pub open spec fn key_mark(k: Seq<char>) -> (nat, char, char) {
    (
        k.len(),
        k[0],
        if k.len() > 5 {
            k[5]
        } else {
            ' '
        },
    )
}

/// The defaults that `default_config` returns are complete. No two settings
/// share a key: each key has a mark of its own.
pub proof fn lemma_defaults_complete()
    ensures
        is_complete(default_settings()),
{
    reveal_strlit("launcher:sgdb_api_key");
    reveal_strlit("name");
    reveal_strlit("box_art");
    reveal_strlit("release_year");
    reveal_strlit("path_to_game");
    reveal_strlit("runner");
    reveal_strlit("vk_icd_loader");
    reveal_strlit("mangohud");
    reveal_strlit("mesa_prime");
    reveal_strlit("nv_prime");
    reveal_strlit("env_variables");
    reveal_strlit("no_sleep_enabled");
    reveal_strlit("gamescope");
    reveal_strlit("gamescope_params");
    reveal_strlit("gamemode");
    reveal_strlit("native:args");
    reveal_strlit("wine:args");
    reveal_strlit("wine:path_to_wine");
    reveal_strlit("wine:wineprefix");
    reveal_strlit("wine:use_vkd3d");
    reveal_strlit("wine:vkd3d_path");
    reveal_strlit("wine:use_dxvk");
    reveal_strlit("wine:dxvk_path");
    reveal_strlit("wine:use_dxvk_nvapi");
    reveal_strlit("wine:dxvk_nvapi_path");
    reveal_strlit("wine:esync");
    reveal_strlit("wine:fsync");
    reveal_strlit("wine:use_fsr");
    reveal_strlit("wine:fsr_strength");
    reveal_strlit("ryujinx:path_to_ryujinx");
    reveal_strlit("rpcs3:path_to_rpcs3");
    reveal_strlit("mame:path_to_mame");
    reveal_strlit("mame:machine_name");
    reveal_strlit("mame:fullscreen");
    reveal_strlit("pcsx2:path_to_pcsx2");
    reveal_strlit("pcsx2:fullscreen");
    reveal_strlit("yuzu:path_to_yuzu");
    reveal_strlit("yuzu:fullscreen");
    reveal_strlit("citra:path_to_citra");
    reveal_strlit("citra:fullscreen");
    reveal_strlit("vita3k:path_to_vita3k");
    reveal_strlit("vita3k:fullscreen");
    reveal_strlit("duckstation:path_to_duckstation");
    reveal_strlit("duckstation:fullscreen");
    reveal_strlit("umu:path_to_umu");
    reveal_strlit("umu:path_to_proton");
    reveal_strlit("umu:gameid");
    reveal_strlit("umu:store");
    assert(key_mark("launcher:sgdb_api_key"@) == (21nat, 'l', 'h'));
    assert(key_mark("name"@) == (4nat, 'n', ' '));
    assert(key_mark("box_art"@) == (7nat, 'b', 'r'));
    assert(key_mark("release_year"@) == (12nat, 'r', 's'));
    assert(key_mark("path_to_game"@) == (12nat, 'p', 't'));
    assert(key_mark("runner"@) == (6nat, 'r', 'r'));
    assert(key_mark("vk_icd_loader"@) == (13nat, 'v', 'd'));
    assert(key_mark("mangohud"@) == (8nat, 'm', 'h'));
    assert(key_mark("mesa_prime"@) == (10nat, 'm', 'p'));
    assert(key_mark("nv_prime"@) == (8nat, 'n', 'i'));
    assert(key_mark("env_variables"@) == (13nat, 'e', 'a'));
    assert(key_mark("no_sleep_enabled"@) == (16nat, 'n', 'e'));
    assert(key_mark("gamescope"@) == (9nat, 'g', 'c'));
    assert(key_mark("gamescope_params"@) == (16nat, 'g', 'c'));
    assert(key_mark("gamemode"@) == (8nat, 'g', 'o'));
    assert(key_mark("native:args"@) == (11nat, 'n', 'e'));
    assert(key_mark("wine:args"@) == (9nat, 'w', 'a'));
    assert(key_mark("wine:path_to_wine"@) == (17nat, 'w', 'p'));
    assert(key_mark("wine:wineprefix"@) == (15nat, 'w', 'w'));
    assert(key_mark("wine:use_vkd3d"@) == (14nat, 'w', 'u'));
    assert(key_mark("wine:vkd3d_path"@) == (15nat, 'w', 'v'));
    assert(key_mark("wine:use_dxvk"@) == (13nat, 'w', 'u'));
    assert(key_mark("wine:dxvk_path"@) == (14nat, 'w', 'd'));
    assert(key_mark("wine:use_dxvk_nvapi"@) == (19nat, 'w', 'u'));
    assert(key_mark("wine:dxvk_nvapi_path"@) == (20nat, 'w', 'd'));
    assert(key_mark("wine:esync"@) == (10nat, 'w', 'e'));
    assert(key_mark("wine:fsync"@) == (10nat, 'w', 'f'));
    assert(key_mark("wine:use_fsr"@) == (12nat, 'w', 'u'));
    assert(key_mark("wine:fsr_strength"@) == (17nat, 'w', 'f'));
    assert(key_mark("ryujinx:path_to_ryujinx"@) == (23nat, 'r', 'n'));
    assert(key_mark("rpcs3:path_to_rpcs3"@) == (19nat, 'r', ':'));
    assert(key_mark("mame:path_to_mame"@) == (17nat, 'm', 'p'));
    assert(key_mark("mame:machine_name"@) == (17nat, 'm', 'm'));
    assert(key_mark("mame:fullscreen"@) == (15nat, 'm', 'f'));
    assert(key_mark("pcsx2:path_to_pcsx2"@) == (19nat, 'p', ':'));
    assert(key_mark("pcsx2:fullscreen"@) == (16nat, 'p', ':'));
    assert(key_mark("yuzu:path_to_yuzu"@) == (17nat, 'y', 'p'));
    assert(key_mark("yuzu:fullscreen"@) == (15nat, 'y', 'f'));
    assert(key_mark("citra:path_to_citra"@) == (19nat, 'c', ':'));
    assert(key_mark("citra:fullscreen"@) == (16nat, 'c', ':'));
    assert(key_mark("vita3k:path_to_vita3k"@) == (21nat, 'v', 'k'));
    assert(key_mark("vita3k:fullscreen"@) == (17nat, 'v', 'k'));
    assert(key_mark("duckstation:path_to_duckstation"@) == (31nat, 'd', 't'));
    assert(key_mark("duckstation:fullscreen"@) == (22nat, 'd', 't'));
    assert(key_mark("umu:path_to_umu"@) == (15nat, 'u', 'a'));
    assert(key_mark("umu:path_to_proton"@) == (18nat, 'u', 'a'));
    assert(key_mark("umu:gameid"@) == (10nat, 'u', 'a'));
    assert(key_mark("umu:store"@) == (9nat, 'u', 't'));
}

/// Enters the settings of `more` into `out`, over those that `out` has.
fn extend(out: &mut Defaults, more: &Defaults)
    ensures
        final(out)@ == old(out)@.union_prefer_right(more@),
{
    let ghost start = out@;
    let ghost ps = more.pairs();
    let n = more.len();
    let mut i: usize = 0;
    assert(out@ =~= start.union_prefer_right(assoc_map(ps.take(0))));
    while i < n
        invariant
            n == ps.len(),
            ps == more.pairs(),
            i <= n,
            out@ == start.union_prefer_right(assoc_map(ps.take(i as int))),
        decreases n - i,
    {
        let k = more.key_at(i);
        let v = more.value_at(i);
        out.insert(k.clone(), (v.0.clone(), v.1.clone()));
        proof {
            let t0 = ps.take(i as int);
            let t1 = ps.take(i + 1);
            assert(t1.drop_last() =~= t0);
            assert(out@ =~= start.union_prefer_right(assoc_map(t1)));
        }
        i += 1;
    }
    assert(ps.take(n as int) =~= ps);
}

/// The general settings with their labels and defaults.
fn general_config() -> (r: Defaults)
    ensures
        r@ == general_settings(),
{
    let mut out: Defaults = StrMap::new();
    let none: Vec<String> = Vec::new();
    let no_params: Vec<String> = Vec::new();
    assert(texts(none@) =~= Seq::<Seq<char>>::empty());
    assert(texts(no_params@) =~= Seq::<Seq<char>>::empty());
    out.insert(
        "launcher:sgdb_api_key".to_owned(),
        ("SteamGridDB API key".to_owned(), CValue::Str(String::new())),
    );
    out.insert("name".to_owned(), ("name".to_owned(), CValue::Str(String::new())));
    out.insert("box_art".to_owned(), ("box art".to_owned(), CValue::PickFile(String::new())));
    out.insert(
        "release_year".to_owned(),
        ("release year".to_owned(), CValue::Str(String::new())),
    );
    out.insert(
        "path_to_game".to_owned(),
        ("path to game".to_owned(), CValue::PickFile(String::new())),
    );
    out.insert("runner".to_owned(), ("runner".to_owned(), CValue::OneOff(runner_ids(), 0)));
    out.insert(
        "vk_icd_loader".to_owned(),
        ("path to vulkan icd loader".to_owned(), CValue::PickFile(String::new())),
    );
    out.insert("mangohud".to_owned(), ("mangohud".to_owned(), CValue::Bool(false)));
    out.insert(
        "mesa_prime".to_owned(),
        ("use prime render offload (for amd gpus)".to_owned(), CValue::Bool(false)),
    );
    out.insert(
        "nv_prime".to_owned(),
        ("use prime render offload (for nvidia gpus)".to_owned(), CValue::Bool(false)),
    );
    out.insert(
        "env_variables".to_owned(),
        ("additional environment variables".to_owned(), CValue::StrArr(none)),
    );
    out.insert("no_sleep_enabled".to_owned(), ("disable sleep".to_owned(), CValue::Bool(false)));
    out.insert("gamescope".to_owned(), ("enable gamescope".to_owned(), CValue::Bool(false)));
    out.insert(
        "gamescope_params".to_owned(),
        ("gamescope parameters".to_owned(), CValue::StrArr(no_params)),
    );
    out.insert("gamemode".to_owned(), ("gamemode".to_owned(), CValue::Bool(true)));
    out
}

/// All settings with their labels and defaults.
pub fn default_config() -> (r: Defaults)
    ensures
        r@ == default_settings(),
        is_complete(r@),
{
    proof {
        lemma_defaults_complete();
    }
    let mut out = general_config();
    extend(&mut out, &DummyRunner().get_default_config());
    extend(&mut out, &NativeRunner.get_default_config());
    extend(&mut out, &WineRunner.get_default_config());
    extend(&mut out, &RyujinxRunner.get_default_config());
    extend(&mut out, &Rpcs3Runner.get_default_config());
    extend(&mut out, &MameRunner.get_default_config());
    extend(&mut out, &Pcsx2Runner.get_default_config());
    extend(&mut out, &YuzuRunner.get_default_config());
    extend(&mut out, &CitraRunner.get_default_config());
    extend(&mut out, &Vita3kRunner.get_default_config());
    extend(&mut out, &SteamRunner.get_default_config());
    extend(&mut out, &DuckStationRunner.get_default_config());
    extend(&mut out, &UmuRunner.get_default_config());
    out
}

/// Defaults stay complete when values that conform to them are entered in
/// place of their defaults.
pub proof fn lemma_with_vals_complete(
    d: Map<Seq<char>, (Seq<char>, CValueView)>,
    cfg: Map<Seq<char>, CValueView>,
)
    requires
        is_complete(d),
        conforms(cfg, d),
    ensures
        is_complete(with_vals(d, cfg)),
{
    assert forall|k: Seq<char>, kind: Kind| has_kind(d, k, kind) implies #[trigger] has_kind(
        with_vals(d, cfg),
        k,
        kind,
    ) by {}
}

/// Settings that conform to the defaults conform as well to the defaults
/// with conforming values entered.
pub proof fn lemma_with_vals_conforms(
    d: Map<Seq<char>, (Seq<char>, CValueView)>,
    cfg: Map<Seq<char>, CValueView>,
    other: Map<Seq<char>, CValueView>,
)
    requires
        conforms(cfg, d),
        conforms(other, d),
    ensures
        conforms(other, with_vals(d, cfg)),
{
    assert forall|k: Seq<char>| #[trigger] other.contains_key(k) implies with_vals(
        d,
        cfg,
    ).contains_key(k) && kind_of(other[k]) == kind_of(with_vals(d, cfg)[k].1) by {
        assert(d.contains_key(k));
        if cfg.contains_key(k) {
        }
    }
}

/// The defaults with the values of `cfg` in place of the defaults that they
/// replace. Every key that is set must be a known one.
pub fn get_default_config_with_vals(cfg: &Cfg) -> (r: Defaults)
    requires
        forall|k: Seq<char>| cfg@.contains_key(k) ==> default_settings().contains_key(k),
    ensures
        r@ == with_vals(default_settings(), cfg@),
        conforms(cfg@, default_settings()) ==> is_complete(r@),
        conforms(cfg@, default_settings()) ==> forall|other: Map<Seq<char>, CValueView>|
            conforms(other, default_settings()) ==> #[trigger] conforms(other, r@),
{
    proof {
        if conforms(cfg@, default_settings()) {
            lemma_defaults_complete();
            lemma_with_vals_complete(default_settings(), cfg@);
            assert forall|other: Map<Seq<char>, CValueView>|
                conforms(other, default_settings()) implies #[trigger] conforms(
                other,
                with_vals(default_settings(), cfg@),
            ) by {
                lemma_with_vals_conforms(default_settings(), cfg@, other);
            }
        }
    }
    crate::config::override_defaults(default_config(), cfg)
}

impl Cfg {
    /// The settings in which only the runner is set, to the first of the
    /// runners.
    pub fn minimal() -> (r: Self)
        ensures
            r@ == Map::<Seq<char>, CValueView>::empty().insert(
                "runner"@,
                CValueView::OneOff(runner_names(), 0),
            ),
    {
        let mut out: StrMap<CValue> = StrMap::new();
        out.insert("runner".to_owned(), CValue::OneOff(runner_ids(), 0));
        Cfg(out)
    }
}

/// The sections that are always there: the launcher's, the game's
/// description, and the launch options.
pub open spec fn general_sections() -> Seq<(Seq<char>, Seq<Seq<char>>)> {
    seq![
        ("launcher:launcher"@, seq!["launcher:sgdb_api_key"@]),
        ("metadata"@, seq!["name"@, "box_art"@, "release_year"@, "path_to_game"@, "runner"@]),
        (
            "general"@,
            seq![
                "mangohud"@,
                "vk_icd_loader"@,
                "mesa_prime"@,
                "nv_prime"@,
                "env_variables"@,
                "no_sleep_enabled"@,
                "gamescope"@,
                "gamescope_params"@,
                "gamemode"@,
            ],
        ),
    ]
}

/// The order with the section of one runner at its end, unless the runner
/// has no setting.
pub open spec fn with_section(
    order: Seq<(Seq<char>, Seq<Seq<char>>)>,
    section: (Seq<char>, Seq<Seq<char>>),
) -> Seq<(Seq<char>, Seq<Seq<char>>)> {
    if section.1.len() > 0 {
        order.push(section)
    } else {
        order
    }
}

/// The order of the sections and of the keys in them, as a settings file is
/// written and shown: the general sections, then the section of each runner
/// that has settings.
pub open spec fn section_order() -> Seq<(Seq<char>, Seq<Seq<char>>)> {
    with_section(
        with_section(
            with_section(
                with_section(
                    with_section(
                        with_section(
                            with_section(
                                with_section(
                                    with_section(
                                        with_section(
                                            with_section(
                                                with_section(
                                                    with_section(
                                                        general_sections(),
                                                        DummyRunner::config_section(),
                                                    ),
                                                    NativeRunner::config_section(),
                                                ),
                                                WineRunner::config_section(),
                                            ),
                                            RyujinxRunner::config_section(),
                                        ),
                                        Rpcs3Runner::config_section(),
                                    ),
                                    MameRunner::config_section(),
                                ),
                                Pcsx2Runner::config_section(),
                            ),
                            YuzuRunner::config_section(),
                        ),
                        CitraRunner::config_section(),
                    ),
                    Vita3kRunner::config_section(),
                ),
                SteamRunner::config_section(),
            ),
            DuckStationRunner::config_section(),
        ),
        UmuRunner::config_section(),
    )
}

/// The views of an order of sections.
pub open spec fn order_of(v: Seq<(String, Vec<String>)>) -> Seq<(Seq<char>, Seq<Seq<char>>)> {
    Seq::new(v.len(), |i: int| (v[i].0@, texts(v[i].1@)))
}

/// Adds the section of a runner to the order, unless it has no setting.
fn add_section(out: &mut Vec<(String, Vec<String>)>, section: (String, Vec<String>))
    ensures
        order_of(final(out)@) == with_section(order_of(old(out)@), (section.0@, texts(section.1@))),
{
    let ghost before = order_of(out@);
    if section.1.len() > 0 {
        out.push(section);
        assert(order_of(out@) =~= before.push((section.0@, texts(section.1@))));
    }
}

fn keys_of(names: Vec<&str>) -> (r: Vec<String>)
    ensures
        r@.len() == names@.len(),
        forall|i: int| 0 <= i < names@.len() ==> r@[i]@ == names@[i]@,
{
    let mut out: Vec<String> = Vec::new();
    let mut i: usize = 0;
    while i < names.len()
        invariant
            i <= names@.len(),
            out@.len() == i,
            forall|j: int| 0 <= j < i ==> out@[j]@ == names@[j]@,
        decreases names@.len() - i,
    {
        out.push(names[i].to_owned());
        i += 1;
    }
    out
}

/// The order of the sections and of the keys in them.
pub fn config_order() -> (r: Vec<(String, Vec<String>)>)
    ensures
        order_of(r@) == section_order(),
{
    let mut out: Vec<(String, Vec<String>)> = Vec::new();
    let launcher = keys_of(vec!["launcher:sgdb_api_key"]);
    let metadata = keys_of(vec!["name", "box_art", "release_year", "path_to_game", "runner"]);
    let general = keys_of(
        vec![
            "mangohud",
            "vk_icd_loader",
            "mesa_prime",
            "nv_prime",
            "env_variables",
            "no_sleep_enabled",
            "gamescope",
            "gamescope_params",
            "gamemode",
        ],
    );
    out.push(("launcher:launcher".to_owned(), launcher));
    out.push(("metadata".to_owned(), metadata));
    out.push(("general".to_owned(), general));
    proof {
        assert(texts(launcher@) =~= general_sections()[0].1);
        assert(texts(metadata@) =~= general_sections()[1].1);
        assert(texts(general@) =~= general_sections()[2].1);
        assert(order_of(out@) =~= general_sections());
    }
    add_section(&mut out, DummyRunner().get_config_order());
    add_section(&mut out, NativeRunner.get_config_order());
    add_section(&mut out, WineRunner.get_config_order());
    add_section(&mut out, RyujinxRunner.get_config_order());
    add_section(&mut out, Rpcs3Runner.get_config_order());
    add_section(&mut out, MameRunner.get_config_order());
    add_section(&mut out, Pcsx2Runner.get_config_order());
    add_section(&mut out, YuzuRunner.get_config_order());
    add_section(&mut out, CitraRunner.get_config_order());
    add_section(&mut out, Vita3kRunner.get_config_order());
    add_section(&mut out, SteamRunner.get_config_order());
    add_section(&mut out, DuckStationRunner.get_config_order());
    add_section(&mut out, UmuRunner.get_config_order());
    out
}

/// Whether the defaults have the key, with a sound value of the given kind.
pub fn has_setting(d: &Defaults, key: &str, kind: Kind) -> (r: bool)
    ensures
        r == has_kind(d@, key@, kind),
{
    match d.get(key) {
        Some(entry) => entry.1.kind() == kind && entry.1.is_valid(),
        None => false,
    }
}

/// Whether the defaults have every setting that the launcher and its runners
/// read.
pub fn is_complete_config(d: &Defaults) -> (r: bool)
    ensures
        r == is_complete(d@),
{
    has_setting(d, "launcher:sgdb_api_key", Kind::Str)
        && has_setting(d, "name", Kind::Str)
        && has_setting(d, "box_art", Kind::PickFile)
        && has_setting(d, "release_year", Kind::Str)
        && has_setting(d, "path_to_game", Kind::PickFile)
        && has_setting(d, "runner", Kind::OneOff)
        && has_setting(d, "vk_icd_loader", Kind::PickFile)
        && has_setting(d, "mangohud", Kind::Bool)
        && has_setting(d, "mesa_prime", Kind::Bool)
        && has_setting(d, "nv_prime", Kind::Bool)
        && has_setting(d, "env_variables", Kind::StrArr)
        && has_setting(d, "no_sleep_enabled", Kind::Bool)
        && has_setting(d, "gamescope", Kind::Bool)
        && has_setting(d, "gamescope_params", Kind::StrArr)
        && has_setting(d, "gamemode", Kind::Bool)
        && has_setting(d, "native:args", Kind::StrArr)
        && has_setting(d, "wine:args", Kind::StrArr)
        && has_setting(d, "wine:path_to_wine", Kind::PickFile)
        && has_setting(d, "wine:wineprefix", Kind::PickFolder)
        && has_setting(d, "wine:use_vkd3d", Kind::Bool)
        && has_setting(d, "wine:vkd3d_path", Kind::PickFolder)
        && has_setting(d, "wine:use_dxvk", Kind::Bool)
        && has_setting(d, "wine:dxvk_path", Kind::PickFolder)
        && has_setting(d, "wine:use_dxvk_nvapi", Kind::Bool)
        && has_setting(d, "wine:dxvk_nvapi_path", Kind::PickFolder)
        && has_setting(d, "wine:esync", Kind::Bool)
        && has_setting(d, "wine:fsync", Kind::Bool)
        && has_setting(d, "wine:use_fsr", Kind::Bool)
        && has_setting(d, "wine:fsr_strength", Kind::Str)
        && has_setting(d, "ryujinx:path_to_ryujinx", Kind::PickFile)
        && has_setting(d, "rpcs3:path_to_rpcs3", Kind::PickFile)
        && has_setting(d, "mame:path_to_mame", Kind::PickFile)
        && has_setting(d, "mame:machine_name", Kind::Str)
        && has_setting(d, "mame:fullscreen", Kind::Bool)
        && has_setting(d, "pcsx2:path_to_pcsx2", Kind::PickFile)
        && has_setting(d, "pcsx2:fullscreen", Kind::Bool)
        && has_setting(d, "yuzu:path_to_yuzu", Kind::PickFile)
        && has_setting(d, "yuzu:fullscreen", Kind::Bool)
        && has_setting(d, "citra:path_to_citra", Kind::PickFile)
        && has_setting(d, "citra:fullscreen", Kind::Bool)
        && has_setting(d, "vita3k:path_to_vita3k", Kind::PickFile)
        && has_setting(d, "vita3k:fullscreen", Kind::Bool)
        && has_setting(d, "duckstation:path_to_duckstation", Kind::PickFile)
        && has_setting(d, "duckstation:fullscreen", Kind::Bool)
        && has_setting(d, "umu:path_to_umu", Kind::PickFile)
        && has_setting(d, "umu:path_to_proton", Kind::PickFolder)
        && has_setting(d, "umu:gameid", Kind::Str)
        && has_setting(d, "umu:store", Kind::Str)
}

} // verus!
