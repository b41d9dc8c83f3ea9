//! What holds of settings that are written to a file and read back.

use vstd::prelude::*;

use crate::citra::CitraRunner;
use crate::config::{coerced, conforms, is_sound, kind_of, position_from, CValueView};
use crate::defaults::{
    default_settings, general_sections, general_settings, section_order, with_section,
};
use crate::document::{
    from_toml, is_listed, is_rebuilt, lemma_key_read_back, lemma_plain_key_read_back,
    lemma_value_read_back, lemma_written_is_read_back, reads_back, rebuilds_keys, sections_added,
    to_toml, written_sections,
};
use crate::duckstation::DuckStationRunner;
use crate::games::DummyRunner;
use crate::mame::MameRunner;
use crate::native::NativeRunner;
use crate::paths::lemma_part_after_last;
use crate::pcsx2::Pcsx2Runner;
use crate::rpcs3::Rpcs3Runner;
use crate::ryujinx::RyujinxRunner;
use crate::steam::SteamRunner;
use crate::umu::UmuRunner;
use crate::vita3k::Vita3kRunner;
use crate::wine::WineRunner;
use crate::yuzu::YuzuRunner;

verus! {

/// Every key of the section is read back from where it is written.
pub open spec fn is_rebuilt_section(section: (Seq<char>, Seq<Seq<char>>)) -> bool {
    forall|j: int| 0 <= j < section.1.len() ==> is_rebuilt(section.0, #[trigger] section.1[j])
}

/// Every setting of the defaults stands in the section.
pub open spec fn lists_all(
    section: (Seq<char>, Seq<Seq<char>>),
    d: Map<Seq<char>, (Seq<char>, CValueView)>,
) -> bool {
    forall|k: Seq<char>| d.contains_key(k) ==> section.1.contains(k)
}

/// A choice is written by its text, so it is read back as itself only where
/// its choices are those of its default and its text does not stand earlier
/// among them. Any other value is read back as itself.
pub open spec fn is_canonical(v: CValueView, default: CValueView) -> bool {
    v is OneOff ==> v->OneOff_0 == default->OneOff_0 && position_from(
        v->OneOff_0,
        v->OneOff_0[v->OneOff_1 as int],
        0,
    ) == Some(v->OneOff_1 as int)
}

/// An order stays one that rebuilds its keys when a section that does so is
/// added.
pub proof fn lemma_with_section(
    order: Seq<(Seq<char>, Seq<Seq<char>>)>,
    section: (Seq<char>, Seq<Seq<char>>),
)
    requires
        rebuilds_keys(order),
        is_rebuilt_section(section),
    ensures
        rebuilds_keys(with_section(order, section)),
{
    let after = with_section(order, section);
    assert forall|i: int, j: int|
        0 <= i < after.len() && 0 <= j < after[i].1.len() implies is_rebuilt(
        after[i].0,
        #[trigger] after[i].1[j],
    ) by {
        if i < order.len() {
            assert(is_rebuilt(order[i].0, order[i].1[j]));
        } else {
            assert(is_rebuilt(section.0, section.1[j]));
        }
    }
}

/// A key that is listed stays listed when a section is added, and the keys
/// of the added section are listed then.
pub proof fn lemma_listed_with_section(
    order: Seq<(Seq<char>, Seq<Seq<char>>)>,
    section: (Seq<char>, Seq<Seq<char>>),
    k: Seq<char>,
)
    requires
        is_listed(order, k) || section.1.contains(k),
    ensures
        is_listed(with_section(order, section), k),
{
    let after = with_section(order, section);
    if is_listed(order, k) {
        let (i, j) = choose|i: int, j: int|
            0 <= i < order.len() && 0 <= j < order[i].1.len() && #[trigger] order[i].1[j] == k;
        assert(after[i].1[j] == k);
    } else {
        let j = choose|j: int| 0 <= j < section.1.len() && section.1[j] == k;
        assert(after[after.len() - 1].1[j] == k);
    }
}

/// The sections that are always there rebuild their keys, and list every
/// setting that does not belong to a runner.
pub proof fn lemma_general_sections()
    ensures
        rebuilds_keys(general_sections()),
        forall|k: Seq<char>|
            general_settings().contains_key(k) ==> is_listed(general_sections(), k),
{
    reveal_strlit("box_art");
    reveal_strlit("env_variables");
    reveal_strlit("gamemode");
    reveal_strlit("gamescope");
    reveal_strlit("gamescope_params");
    reveal_strlit("general");
    reveal_strlit("launcher");
    reveal_strlit("launcher:launcher");
    reveal_strlit("launcher:sgdb_api_key");
    reveal_strlit("mangohud");
    reveal_strlit("mesa_prime");
    reveal_strlit("metadata");
    reveal_strlit("name");
    reveal_strlit("no_sleep_enabled");
    reveal_strlit("nv_prime");
    reveal_strlit("path_to_game");
    reveal_strlit("release_year");
    reveal_strlit("runner");
    reveal_strlit("sgdb_api_key");
    reveal_strlit("vk_icd_loader");
    assert("launcher"@.len() == 8 && "metadata"@.len() == 8 && "general"@.len() == 7);
    assert("launcher"@[0] == 'l' && "metadata"@[0] == 'm');
    assert("launcher:launcher"@ =~= "launcher"@.push(':') + "launcher"@);
    assert("launcher:sgdb_api_key"@ =~= "launcher"@.push(':') + "sgdb_api_key"@);
    lemma_part_after_last("launcher"@, ':', "launcher"@);
    lemma_key_read_back("launcher:launcher"@, "launcher"@, "sgdb_api_key"@);
    lemma_plain_key_read_back("metadata"@, "name"@);
    lemma_plain_key_read_back("metadata"@, "box_art"@);
    lemma_plain_key_read_back("metadata"@, "release_year"@);
    lemma_plain_key_read_back("metadata"@, "path_to_game"@);
    lemma_plain_key_read_back("metadata"@, "runner"@);
    lemma_plain_key_read_back("general"@, "mangohud"@);
    lemma_plain_key_read_back("general"@, "vk_icd_loader"@);
    lemma_plain_key_read_back("general"@, "mesa_prime"@);
    lemma_plain_key_read_back("general"@, "nv_prime"@);
    lemma_plain_key_read_back("general"@, "env_variables"@);
    lemma_plain_key_read_back("general"@, "no_sleep_enabled"@);
    lemma_plain_key_read_back("general"@, "gamescope"@);
    lemma_plain_key_read_back("general"@, "gamescope_params"@);
    lemma_plain_key_read_back("general"@, "gamemode"@);
    let order = general_sections();
    assert forall|i: int, j: int|
        0 <= i < order.len() && 0 <= j < order[i].1.len() implies is_rebuilt(
        order[i].0,
        #[trigger] order[i].1[j],
    ) by {}
    assert forall|k: Seq<char>| general_settings().contains_key(k) implies is_listed(order, k) by {
        if k == "launcher:sgdb_api_key"@ {
            assert(order[0].1[0] == k);
        }         else if k == "name"@ {
            assert(order[1].1[0] == k);
        }         else if k == "box_art"@ {
            assert(order[1].1[1] == k);
        }         else if k == "release_year"@ {
            assert(order[1].1[2] == k);
        }         else if k == "path_to_game"@ {
            assert(order[1].1[3] == k);
        }         else if k == "runner"@ {
            assert(order[1].1[4] == k);
        }         else if k == "mangohud"@ {
            assert(order[2].1[0] == k);
        }         else if k == "vk_icd_loader"@ {
            assert(order[2].1[1] == k);
        }         else if k == "mesa_prime"@ {
            assert(order[2].1[2] == k);
        }         else if k == "nv_prime"@ {
            assert(order[2].1[3] == k);
        }         else if k == "env_variables"@ {
            assert(order[2].1[4] == k);
        }         else if k == "no_sleep_enabled"@ {
            assert(order[2].1[5] == k);
        }         else if k == "gamescope"@ {
            assert(order[2].1[6] == k);
        }         else if k == "gamescope_params"@ {
            assert(order[2].1[7] == k);
        }         else if k == "gamemode"@ {
            assert(order[2].1[8] == k);
        }
    }
}

/// The section of this runner rebuilds its keys and lists its settings.
pub proof fn lemma_dummy_section()
    ensures
        is_rebuilt_section(DummyRunner::config_section()),
        lists_all(DummyRunner::config_section(), DummyRunner::default_settings()),
{
}

/// The section of this runner rebuilds its keys and lists its settings.
pub proof fn lemma_native_section()
    ensures
        is_rebuilt_section(NativeRunner::config_section()),
        lists_all(NativeRunner::config_section(), NativeRunner::default_settings()),
{
    reveal_strlit("args");
    reveal_strlit("general");
    reveal_strlit("metadata");
    reveal_strlit("native");
    reveal_strlit("native:args");
    reveal_strlit("native:native");
    assert("native"@.len() == 6 && "metadata"@.len() == 8 && "general"@.len() == 7);
    assert("native:native"@ =~= "native"@.push(':') + "native"@);
    lemma_part_after_last("native"@, ':', "native"@);
    assert("native:args"@ =~= "native"@.push(':') + "args"@);
    lemma_key_read_back("native:native"@, "native"@, "args"@);
    let section = NativeRunner::config_section();
    assert forall|k: Seq<char>| NativeRunner::default_settings().contains_key(k) implies section.1.contains(
        k,
    ) by {
        if k == "native:args"@ {
            assert(section.1[0] == k);
        }
    }
}

/// The section of this runner rebuilds its keys and lists its settings.
pub proof fn lemma_wine_section()
    ensures
        is_rebuilt_section(WineRunner::config_section()),
        lists_all(WineRunner::config_section(), WineRunner::default_settings()),
{
    reveal_strlit("args");
    reveal_strlit("dxvk_nvapi_path");
    reveal_strlit("dxvk_path");
    reveal_strlit("esync");
    reveal_strlit("fsr_strength");
    reveal_strlit("fsync");
    reveal_strlit("general");
    reveal_strlit("metadata");
    reveal_strlit("path_to_wine");
    reveal_strlit("use_dxvk");
    reveal_strlit("use_dxvk_nvapi");
    reveal_strlit("use_fsr");
    reveal_strlit("use_vkd3d");
    reveal_strlit("vkd3d_path");
    reveal_strlit("wine");
    reveal_strlit("wine:args");
    reveal_strlit("wine:dxvk_nvapi_path");
    reveal_strlit("wine:dxvk_path");
    reveal_strlit("wine:esync");
    reveal_strlit("wine:fsr_strength");
    reveal_strlit("wine:fsync");
    reveal_strlit("wine:path_to_wine");
    reveal_strlit("wine:use_dxvk");
    reveal_strlit("wine:use_dxvk_nvapi");
    reveal_strlit("wine:use_fsr");
    reveal_strlit("wine:use_vkd3d");
    reveal_strlit("wine:vkd3d_path");
    reveal_strlit("wine:wine");
    reveal_strlit("wine:wineprefix");
    reveal_strlit("wineprefix");
    assert("wine"@.len() == 4 && "metadata"@.len() == 8 && "general"@.len() == 7);
    assert("wine:wine"@ =~= "wine"@.push(':') + "wine"@);
    lemma_part_after_last("wine"@, ':', "wine"@);
    assert("wine:path_to_wine"@ =~= "wine"@.push(':') + "path_to_wine"@);
    lemma_key_read_back("wine:wine"@, "wine"@, "path_to_wine"@);
    assert("wine:wineprefix"@ =~= "wine"@.push(':') + "wineprefix"@);
    lemma_key_read_back("wine:wine"@, "wine"@, "wineprefix"@);
    assert("wine:use_dxvk"@ =~= "wine"@.push(':') + "use_dxvk"@);
    lemma_key_read_back("wine:wine"@, "wine"@, "use_dxvk"@);
    assert("wine:dxvk_path"@ =~= "wine"@.push(':') + "dxvk_path"@);
    lemma_key_read_back("wine:wine"@, "wine"@, "dxvk_path"@);
    assert("wine:use_vkd3d"@ =~= "wine"@.push(':') + "use_vkd3d"@);
    lemma_key_read_back("wine:wine"@, "wine"@, "use_vkd3d"@);
    assert("wine:vkd3d_path"@ =~= "wine"@.push(':') + "vkd3d_path"@);
    lemma_key_read_back("wine:wine"@, "wine"@, "vkd3d_path"@);
    assert("wine:use_dxvk_nvapi"@ =~= "wine"@.push(':') + "use_dxvk_nvapi"@);
    lemma_key_read_back("wine:wine"@, "wine"@, "use_dxvk_nvapi"@);
    assert("wine:dxvk_nvapi_path"@ =~= "wine"@.push(':') + "dxvk_nvapi_path"@);
    lemma_key_read_back("wine:wine"@, "wine"@, "dxvk_nvapi_path"@);
    assert("wine:esync"@ =~= "wine"@.push(':') + "esync"@);
    lemma_key_read_back("wine:wine"@, "wine"@, "esync"@);
    assert("wine:fsync"@ =~= "wine"@.push(':') + "fsync"@);
    lemma_key_read_back("wine:wine"@, "wine"@, "fsync"@);
    assert("wine:use_fsr"@ =~= "wine"@.push(':') + "use_fsr"@);
    lemma_key_read_back("wine:wine"@, "wine"@, "use_fsr"@);
    assert("wine:fsr_strength"@ =~= "wine"@.push(':') + "fsr_strength"@);
    lemma_key_read_back("wine:wine"@, "wine"@, "fsr_strength"@);
    assert("wine:args"@ =~= "wine"@.push(':') + "args"@);
    lemma_key_read_back("wine:wine"@, "wine"@, "args"@);
    let section = WineRunner::config_section();
    assert forall|k: Seq<char>| WineRunner::default_settings().contains_key(k) implies section.1.contains(
        k,
    ) by {
        if k == "wine:path_to_wine"@ {
            assert(section.1[0] == k);
        }         else if k == "wine:wineprefix"@ {
            assert(section.1[1] == k);
        }         else if k == "wine:use_dxvk"@ {
            assert(section.1[2] == k);
        }         else if k == "wine:dxvk_path"@ {
            assert(section.1[3] == k);
        }         else if k == "wine:use_vkd3d"@ {
            assert(section.1[4] == k);
        }         else if k == "wine:vkd3d_path"@ {
            assert(section.1[5] == k);
        }         else if k == "wine:use_dxvk_nvapi"@ {
            assert(section.1[6] == k);
        }         else if k == "wine:dxvk_nvapi_path"@ {
            assert(section.1[7] == k);
        }         else if k == "wine:esync"@ {
            assert(section.1[8] == k);
        }         else if k == "wine:fsync"@ {
            assert(section.1[9] == k);
        }         else if k == "wine:use_fsr"@ {
            assert(section.1[10] == k);
        }         else if k == "wine:fsr_strength"@ {
            assert(section.1[11] == k);
        }         else if k == "wine:args"@ {
            assert(section.1[12] == k);
        }
    }
}

/// The section of this runner rebuilds its keys and lists its settings.
pub proof fn lemma_ryujinx_section()
    ensures
        is_rebuilt_section(RyujinxRunner::config_section()),
        lists_all(RyujinxRunner::config_section(), RyujinxRunner::default_settings()),
{
    reveal_strlit("general");
    reveal_strlit("metadata");
    reveal_strlit("path_to_ryujinx");
    reveal_strlit("ryujinx");
    reveal_strlit("ryujinx:path_to_ryujinx");
    reveal_strlit("ryujinx:ryujinx");
    assert("ryujinx"@.len() == 7 && "metadata"@.len() == 8 && "general"@.len() == 7);
    assert("ryujinx"@[0] == 'r' && "general"@[0] == 'g');
    assert("ryujinx:ryujinx"@ =~= "ryujinx"@.push(':') + "ryujinx"@);
    lemma_part_after_last("ryujinx"@, ':', "ryujinx"@);
    assert("ryujinx:path_to_ryujinx"@ =~= "ryujinx"@.push(':') + "path_to_ryujinx"@);
    lemma_key_read_back("ryujinx:ryujinx"@, "ryujinx"@, "path_to_ryujinx"@);
    let section = RyujinxRunner::config_section();
    assert forall|k: Seq<char>| RyujinxRunner::default_settings().contains_key(k) implies section.1.contains(
        k,
    ) by {
        if k == "ryujinx:path_to_ryujinx"@ {
            assert(section.1[0] == k);
        }
    }
}

/// The section of this runner rebuilds its keys and lists its settings.
pub proof fn lemma_rpcs3_section()
    ensures
        is_rebuilt_section(Rpcs3Runner::config_section()),
        lists_all(Rpcs3Runner::config_section(), Rpcs3Runner::default_settings()),
{
    reveal_strlit("general");
    reveal_strlit("metadata");
    reveal_strlit("path_to_rpcs3");
    reveal_strlit("rpcs3");
    reveal_strlit("rpcs3:path_to_rpcs3");
    reveal_strlit("rpcs3:rpcs3");
    assert("rpcs3"@.len() == 5 && "metadata"@.len() == 8 && "general"@.len() == 7);
    assert("rpcs3:rpcs3"@ =~= "rpcs3"@.push(':') + "rpcs3"@);
    lemma_part_after_last("rpcs3"@, ':', "rpcs3"@);
    assert("rpcs3:path_to_rpcs3"@ =~= "rpcs3"@.push(':') + "path_to_rpcs3"@);
    lemma_key_read_back("rpcs3:rpcs3"@, "rpcs3"@, "path_to_rpcs3"@);
    let section = Rpcs3Runner::config_section();
    assert forall|k: Seq<char>| Rpcs3Runner::default_settings().contains_key(k) implies section.1.contains(
        k,
    ) by {
        if k == "rpcs3:path_to_rpcs3"@ {
            assert(section.1[0] == k);
        }
    }
}

/// The section of this runner rebuilds its keys and lists its settings.
pub proof fn lemma_mame_section()
    ensures
        is_rebuilt_section(MameRunner::config_section()),
        lists_all(MameRunner::config_section(), MameRunner::default_settings()),
{
    reveal_strlit("fullscreen");
    reveal_strlit("general");
    reveal_strlit("machine_name");
    reveal_strlit("mame");
    reveal_strlit("mame:fullscreen");
    reveal_strlit("mame:machine_name");
    reveal_strlit("mame:mame");
    reveal_strlit("mame:path_to_mame");
    reveal_strlit("metadata");
    reveal_strlit("path_to_mame");
    assert("mame"@.len() == 4 && "metadata"@.len() == 8 && "general"@.len() == 7);
    assert("mame:mame"@ =~= "mame"@.push(':') + "mame"@);
    lemma_part_after_last("mame"@, ':', "mame"@);
    assert("mame:path_to_mame"@ =~= "mame"@.push(':') + "path_to_mame"@);
    lemma_key_read_back("mame:mame"@, "mame"@, "path_to_mame"@);
    assert("mame:machine_name"@ =~= "mame"@.push(':') + "machine_name"@);
    lemma_key_read_back("mame:mame"@, "mame"@, "machine_name"@);
    assert("mame:fullscreen"@ =~= "mame"@.push(':') + "fullscreen"@);
    lemma_key_read_back("mame:mame"@, "mame"@, "fullscreen"@);
    let section = MameRunner::config_section();
    assert forall|k: Seq<char>| MameRunner::default_settings().contains_key(k) implies section.1.contains(
        k,
    ) by {
        if k == "mame:path_to_mame"@ {
            assert(section.1[0] == k);
        }         else if k == "mame:machine_name"@ {
            assert(section.1[1] == k);
        }         else if k == "mame:fullscreen"@ {
            assert(section.1[2] == k);
        }
    }
}

/// The section of this runner rebuilds its keys and lists its settings.
pub proof fn lemma_pcsx2_section()
    ensures
        is_rebuilt_section(Pcsx2Runner::config_section()),
        lists_all(Pcsx2Runner::config_section(), Pcsx2Runner::default_settings()),
{
    reveal_strlit("fullscreen");
    reveal_strlit("general");
    reveal_strlit("metadata");
    reveal_strlit("path_to_pcsx2");
    reveal_strlit("pcsx2");
    reveal_strlit("pcsx2:fullscreen");
    reveal_strlit("pcsx2:path_to_pcsx2");
    reveal_strlit("pcsx2:pcsx2");
    assert("pcsx2"@.len() == 5 && "metadata"@.len() == 8 && "general"@.len() == 7);
    assert("pcsx2:pcsx2"@ =~= "pcsx2"@.push(':') + "pcsx2"@);
    lemma_part_after_last("pcsx2"@, ':', "pcsx2"@);
    assert("pcsx2:path_to_pcsx2"@ =~= "pcsx2"@.push(':') + "path_to_pcsx2"@);
    lemma_key_read_back("pcsx2:pcsx2"@, "pcsx2"@, "path_to_pcsx2"@);
    assert("pcsx2:fullscreen"@ =~= "pcsx2"@.push(':') + "fullscreen"@);
    lemma_key_read_back("pcsx2:pcsx2"@, "pcsx2"@, "fullscreen"@);
    let section = Pcsx2Runner::config_section();
    assert forall|k: Seq<char>| Pcsx2Runner::default_settings().contains_key(k) implies section.1.contains(
        k,
    ) by {
        if k == "pcsx2:path_to_pcsx2"@ {
            assert(section.1[0] == k);
        }         else if k == "pcsx2:fullscreen"@ {
            assert(section.1[1] == k);
        }
    }
}

/// The section of this runner rebuilds its keys and lists its settings.
pub proof fn lemma_yuzu_section()
    ensures
        is_rebuilt_section(YuzuRunner::config_section()),
        lists_all(YuzuRunner::config_section(), YuzuRunner::default_settings()),
{
    reveal_strlit("fullscreen");
    reveal_strlit("general");
    reveal_strlit("metadata");
    reveal_strlit("path_to_yuzu");
    reveal_strlit("yuzu");
    reveal_strlit("yuzu:fullscreen");
    reveal_strlit("yuzu:path_to_yuzu");
    reveal_strlit("yuzu:yuzu");
    assert("yuzu"@.len() == 4 && "metadata"@.len() == 8 && "general"@.len() == 7);
    assert("yuzu:yuzu"@ =~= "yuzu"@.push(':') + "yuzu"@);
    lemma_part_after_last("yuzu"@, ':', "yuzu"@);
    assert("yuzu:path_to_yuzu"@ =~= "yuzu"@.push(':') + "path_to_yuzu"@);
    lemma_key_read_back("yuzu:yuzu"@, "yuzu"@, "path_to_yuzu"@);
    assert("yuzu:fullscreen"@ =~= "yuzu"@.push(':') + "fullscreen"@);
    lemma_key_read_back("yuzu:yuzu"@, "yuzu"@, "fullscreen"@);
    let section = YuzuRunner::config_section();
    assert forall|k: Seq<char>| YuzuRunner::default_settings().contains_key(k) implies section.1.contains(
        k,
    ) by {
        if k == "yuzu:path_to_yuzu"@ {
            assert(section.1[0] == k);
        }         else if k == "yuzu:fullscreen"@ {
            assert(section.1[1] == k);
        }
    }
}

/// The section of this runner rebuilds its keys and lists its settings.
pub proof fn lemma_citra_section()
    ensures
        is_rebuilt_section(CitraRunner::config_section()),
        lists_all(CitraRunner::config_section(), CitraRunner::default_settings()),
{
    reveal_strlit("citra");
    reveal_strlit("citra:citra");
    reveal_strlit("citra:fullscreen");
    reveal_strlit("citra:path_to_citra");
    reveal_strlit("fullscreen");
    reveal_strlit("general");
    reveal_strlit("metadata");
    reveal_strlit("path_to_citra");
    assert("citra"@.len() == 5 && "metadata"@.len() == 8 && "general"@.len() == 7);
    assert("citra:citra"@ =~= "citra"@.push(':') + "citra"@);
    lemma_part_after_last("citra"@, ':', "citra"@);
    assert("citra:path_to_citra"@ =~= "citra"@.push(':') + "path_to_citra"@);
    lemma_key_read_back("citra:citra"@, "citra"@, "path_to_citra"@);
    assert("citra:fullscreen"@ =~= "citra"@.push(':') + "fullscreen"@);
    lemma_key_read_back("citra:citra"@, "citra"@, "fullscreen"@);
    let section = CitraRunner::config_section();
    assert forall|k: Seq<char>| CitraRunner::default_settings().contains_key(k) implies section.1.contains(
        k,
    ) by {
        if k == "citra:path_to_citra"@ {
            assert(section.1[0] == k);
        }         else if k == "citra:fullscreen"@ {
            assert(section.1[1] == k);
        }
    }
}

/// The section of this runner rebuilds its keys and lists its settings.
pub proof fn lemma_vita3k_section()
    ensures
        is_rebuilt_section(Vita3kRunner::config_section()),
        lists_all(Vita3kRunner::config_section(), Vita3kRunner::default_settings()),
{
    reveal_strlit("fullscreen");
    reveal_strlit("general");
    reveal_strlit("metadata");
    reveal_strlit("path_to_vita3k");
    reveal_strlit("vita3k");
    reveal_strlit("vita3k:fullscreen");
    reveal_strlit("vita3k:path_to_vita3k");
    reveal_strlit("vita3k:vita3k");
    assert("vita3k"@.len() == 6 && "metadata"@.len() == 8 && "general"@.len() == 7);
    assert("vita3k:vita3k"@ =~= "vita3k"@.push(':') + "vita3k"@);
    lemma_part_after_last("vita3k"@, ':', "vita3k"@);
    assert("vita3k:path_to_vita3k"@ =~= "vita3k"@.push(':') + "path_to_vita3k"@);
    lemma_key_read_back("vita3k:vita3k"@, "vita3k"@, "path_to_vita3k"@);
    assert("vita3k:fullscreen"@ =~= "vita3k"@.push(':') + "fullscreen"@);
    lemma_key_read_back("vita3k:vita3k"@, "vita3k"@, "fullscreen"@);
    let section = Vita3kRunner::config_section();
    assert forall|k: Seq<char>| Vita3kRunner::default_settings().contains_key(k) implies section.1.contains(
        k,
    ) by {
        if k == "vita3k:path_to_vita3k"@ {
            assert(section.1[0] == k);
        }         else if k == "vita3k:fullscreen"@ {
            assert(section.1[1] == k);
        }
    }
}

/// The section of this runner rebuilds its keys and lists its settings.
pub proof fn lemma_steam_section()
    ensures
        is_rebuilt_section(SteamRunner::config_section()),
        lists_all(SteamRunner::config_section(), SteamRunner::default_settings()),
{
}

/// The section of this runner rebuilds its keys and lists its settings.
pub proof fn lemma_duckstation_section()
    ensures
        is_rebuilt_section(DuckStationRunner::config_section()),
        lists_all(DuckStationRunner::config_section(), DuckStationRunner::default_settings()),
{
    reveal_strlit("duckstation");
    reveal_strlit("duckstation:duckstation");
    reveal_strlit("duckstation:fullscreen");
    reveal_strlit("duckstation:path_to_duckstation");
    reveal_strlit("fullscreen");
    reveal_strlit("general");
    reveal_strlit("metadata");
    reveal_strlit("path_to_duckstation");
    assert("duckstation"@.len() == 11 && "metadata"@.len() == 8 && "general"@.len() == 7);
    assert("duckstation:duckstation"@ =~= "duckstation"@.push(':') + "duckstation"@);
    lemma_part_after_last("duckstation"@, ':', "duckstation"@);
    assert("duckstation:path_to_duckstation"@ =~= "duckstation"@.push(':') + "path_to_duckstation"@);
    lemma_key_read_back("duckstation:duckstation"@, "duckstation"@, "path_to_duckstation"@);
    assert("duckstation:fullscreen"@ =~= "duckstation"@.push(':') + "fullscreen"@);
    lemma_key_read_back("duckstation:duckstation"@, "duckstation"@, "fullscreen"@);
    let section = DuckStationRunner::config_section();
    assert forall|k: Seq<char>| DuckStationRunner::default_settings().contains_key(k) implies section.1.contains(
        k,
    ) by {
        if k == "duckstation:path_to_duckstation"@ {
            assert(section.1[0] == k);
        }         else if k == "duckstation:fullscreen"@ {
            assert(section.1[1] == k);
        }
    }
}

/// The section of this runner rebuilds its keys and lists its settings.
pub proof fn lemma_umu_section()
    ensures
        is_rebuilt_section(UmuRunner::config_section()),
        lists_all(UmuRunner::config_section(), UmuRunner::default_settings()),
{
    reveal_strlit("gameid");
    reveal_strlit("general");
    reveal_strlit("metadata");
    reveal_strlit("path_to_proton");
    reveal_strlit("path_to_umu");
    reveal_strlit("store");
    reveal_strlit("umu");
    reveal_strlit("umu:gameid");
    reveal_strlit("umu:path_to_proton");
    reveal_strlit("umu:path_to_umu");
    reveal_strlit("umu:store");
    reveal_strlit("umu:umu");
    assert("umu"@.len() == 3 && "metadata"@.len() == 8 && "general"@.len() == 7);
    assert("umu:umu"@ =~= "umu"@.push(':') + "umu"@);
    lemma_part_after_last("umu"@, ':', "umu"@);
    assert("umu:path_to_umu"@ =~= "umu"@.push(':') + "path_to_umu"@);
    lemma_key_read_back("umu:umu"@, "umu"@, "path_to_umu"@);
    assert("umu:path_to_proton"@ =~= "umu"@.push(':') + "path_to_proton"@);
    lemma_key_read_back("umu:umu"@, "umu"@, "path_to_proton"@);
    assert("umu:gameid"@ =~= "umu"@.push(':') + "gameid"@);
    lemma_key_read_back("umu:umu"@, "umu"@, "gameid"@);
    assert("umu:store"@ =~= "umu"@.push(':') + "store"@);
    lemma_key_read_back("umu:umu"@, "umu"@, "store"@);
    let section = UmuRunner::config_section();
    assert forall|k: Seq<char>| UmuRunner::default_settings().contains_key(k) implies section.1.contains(
        k,
    ) by {
        if k == "umu:path_to_umu"@ {
            assert(section.1[0] == k);
        }         else if k == "umu:path_to_proton"@ {
            assert(section.1[1] == k);
        }         else if k == "umu:gameid"@ {
            assert(section.1[2] == k);
        }         else if k == "umu:store"@ {
            assert(section.1[3] == k);
        }
    }
}

/// The launcher's order of sections rebuilds its keys and lists every
/// setting that the launcher knows.
pub proof fn lemma_order_is_whole()
    ensures
        rebuilds_keys(section_order()),
        forall|k: Seq<char>| default_settings().contains_key(k) ==> is_listed(section_order(), k),
{
    lemma_general_sections();
    let o0 = general_sections();
    lemma_dummy_section();
    lemma_with_section(o0, DummyRunner::config_section());
    let o1 = with_section(o0, DummyRunner::config_section());
    lemma_native_section();
    lemma_with_section(o1, NativeRunner::config_section());
    let o2 = with_section(o1, NativeRunner::config_section());
    lemma_wine_section();
    lemma_with_section(o2, WineRunner::config_section());
    let o3 = with_section(o2, WineRunner::config_section());
    lemma_ryujinx_section();
    lemma_with_section(o3, RyujinxRunner::config_section());
    let o4 = with_section(o3, RyujinxRunner::config_section());
    lemma_rpcs3_section();
    lemma_with_section(o4, Rpcs3Runner::config_section());
    let o5 = with_section(o4, Rpcs3Runner::config_section());
    lemma_mame_section();
    lemma_with_section(o5, MameRunner::config_section());
    let o6 = with_section(o5, MameRunner::config_section());
    lemma_pcsx2_section();
    lemma_with_section(o6, Pcsx2Runner::config_section());
    let o7 = with_section(o6, Pcsx2Runner::config_section());
    lemma_yuzu_section();
    lemma_with_section(o7, YuzuRunner::config_section());
    let o8 = with_section(o7, YuzuRunner::config_section());
    lemma_citra_section();
    lemma_with_section(o8, CitraRunner::config_section());
    let o9 = with_section(o8, CitraRunner::config_section());
    lemma_vita3k_section();
    lemma_with_section(o9, Vita3kRunner::config_section());
    let o10 = with_section(o9, Vita3kRunner::config_section());
    lemma_steam_section();
    lemma_with_section(o10, SteamRunner::config_section());
    let o11 = with_section(o10, SteamRunner::config_section());
    lemma_duckstation_section();
    lemma_with_section(o11, DuckStationRunner::config_section());
    let o12 = with_section(o11, DuckStationRunner::config_section());
    lemma_umu_section();
    lemma_with_section(o12, UmuRunner::config_section());
    let o13 = with_section(o12, UmuRunner::config_section());
    assert(o13 == section_order());
    assert forall|k: Seq<char>| default_settings().contains_key(k) implies is_listed(o13, k) by {
        if general_settings().contains_key(k) {
            assert(is_listed(o0, k));
        }
        if is_listed(o0, k) || DummyRunner::default_settings().contains_key(k) {
            lemma_listed_with_section(o0, DummyRunner::config_section(), k);
        }
        if is_listed(o1, k) || NativeRunner::default_settings().contains_key(k) {
            lemma_listed_with_section(o1, NativeRunner::config_section(), k);
        }
        if is_listed(o2, k) || WineRunner::default_settings().contains_key(k) {
            lemma_listed_with_section(o2, WineRunner::config_section(), k);
        }
        if is_listed(o3, k) || RyujinxRunner::default_settings().contains_key(k) {
            lemma_listed_with_section(o3, RyujinxRunner::config_section(), k);
        }
        if is_listed(o4, k) || Rpcs3Runner::default_settings().contains_key(k) {
            lemma_listed_with_section(o4, Rpcs3Runner::config_section(), k);
        }
        if is_listed(o5, k) || MameRunner::default_settings().contains_key(k) {
            lemma_listed_with_section(o5, MameRunner::config_section(), k);
        }
        if is_listed(o6, k) || Pcsx2Runner::default_settings().contains_key(k) {
            lemma_listed_with_section(o6, Pcsx2Runner::config_section(), k);
        }
        if is_listed(o7, k) || YuzuRunner::default_settings().contains_key(k) {
            lemma_listed_with_section(o7, YuzuRunner::config_section(), k);
        }
        if is_listed(o8, k) || CitraRunner::default_settings().contains_key(k) {
            lemma_listed_with_section(o8, CitraRunner::config_section(), k);
        }
        if is_listed(o9, k) || Vita3kRunner::default_settings().contains_key(k) {
            lemma_listed_with_section(o9, Vita3kRunner::config_section(), k);
        }
        if is_listed(o10, k) || SteamRunner::default_settings().contains_key(k) {
            lemma_listed_with_section(o10, SteamRunner::config_section(), k);
        }
        if is_listed(o11, k) || DuckStationRunner::default_settings().contains_key(k) {
            lemma_listed_with_section(o11, DuckStationRunner::config_section(), k);
        }
        if is_listed(o12, k) || UmuRunner::default_settings().contains_key(k) {
            lemma_listed_with_section(o12, UmuRunner::config_section(), k);
        }
    }
}

/// Settings that conform to the defaults are read back as themselves, value
/// by value, where their choices are canonical.
pub proof fn lemma_conforming_reads_back(
    cfg: Map<Seq<char>, CValueView>,
    d: Map<Seq<char>, (Seq<char>, CValueView)>,
)
    requires
        conforms(cfg, d),
        forall|k: Seq<char>| cfg.contains_key(k) ==> is_canonical(#[trigger] cfg[k], d[k].1),
    ensures
        reads_back(cfg, d),
{
    assert forall|k: Seq<char>| #[trigger] cfg.contains_key(k) implies d.contains_key(k)
        && coerced(from_toml(to_toml(cfg[k])), d[k].1) == Some(cfg[k]) by {
        assert(is_canonical(cfg[k], d[k].1));
        assert(is_sound(cfg[k]) && kind_of(cfg[k]) == kind_of(d[k].1));
        lemma_value_read_back(cfg[k], d[k].1);
    }
}

/// Writing settings and reading them back gives the same settings: for
/// settings that conform to the launcher's defaults and whose choices are
/// canonical, what `Cfg::from_toml` reads from what `Cfg::to_toml` wrote is
/// what was written.
pub proof fn lemma_settings_round_trip(cfg: Map<Seq<char>, CValueView>)
    requires
        conforms(cfg, default_settings()),
        forall|k: Seq<char>|
            cfg.contains_key(k) ==> is_canonical(#[trigger] cfg[k], default_settings()[k].1),
    ensures
        sections_added(Map::empty(), default_settings(), written_sections(cfg, section_order()))
            == cfg,
{
    lemma_order_is_whole();
    lemma_conforming_reads_back(cfg, default_settings());
    lemma_written_is_read_back(cfg, default_settings(), section_order());
}

} // verus!
