//! The launch options of a game and the steps by which they change its
//! invocation. The order of the steps decides which program wraps which.

use vstd::prelude::*;

use crate::command::{Command, CommandView};
use crate::strmap::{assoc_map, StrMap};
use crate::text::{copy_opt_text, copy_texts, opt_text, same_text, texts};

verus! {

/// What a `Config` holds, as mathematical values.
pub struct ConfigView {
    pub mangohud: bool,
    pub mesa_prime: bool,
    pub nv_prime: bool,
    pub vk_icd_loader: Option<Seq<char>>,
    pub envs: Map<Seq<char>, Seq<char>>,
    pub no_sleep_enabled: bool,
    pub gamescope: bool,
    pub gamescope_params: Seq<Seq<char>>,
    pub gamemode: bool,
}

/// The launch options of one game: feature toggles and the environment
/// variables that the user adds.
#[derive(Debug)]
pub struct Config {
    /// Run the program under the performance overlay.
    pub mangohud: bool,
    /// Render offload for Mesa drivers.
    pub mesa_prime: bool,
    /// Render offload for the NVIDIA proprietary driver.
    pub nv_prime: bool,
    /// The Vulkan driver file to load, if one is chosen.
    pub vk_icd_loader: Option<String>,
    /// Environment variables supplied by the user.
    pub envs: StrMap<String>,
    pub no_sleep_enabled: bool,
    /// Run the program inside the display compositor.
    pub gamescope: bool,
    /// The compositor's own parameters.
    pub gamescope_params: Vec<String>,
    /// Preload the priority-boost library.
    pub gamemode: bool,
}

impl View for Config {
    type V = ConfigView;

    open spec fn view(&self) -> ConfigView {
        ConfigView {
            mangohud: self.mangohud,
            mesa_prime: self.mesa_prime,
            nv_prime: self.nv_prime,
            vk_icd_loader: opt_text(self.vk_icd_loader),
            envs: self.envs@,
            no_sleep_enabled: self.no_sleep_enabled,
            gamescope: self.gamescope,
            gamescope_params: texts(self.gamescope_params@),
            gamemode: self.gamemode,
        }
    }
}

/// All toggles off, nothing chosen, no variable.
pub open spec fn plain_config() -> ConfigView {
    ConfigView {
        mangohud: false,
        mesa_prime: false,
        nv_prime: false,
        vk_icd_loader: None,
        envs: Map::empty(),
        no_sleep_enabled: false,
        gamescope: false,
        gamescope_params: Seq::empty(),
        gamemode: false,
    }
}

impl Default for Config {
    fn default() -> (r: Self)
        ensures
            r@ == plain_config(),
    {
        let r = Config {
            mangohud: false,
            mesa_prime: false,
            nv_prime: false,
            vk_icd_loader: None,
            envs: StrMap::new(),
            no_sleep_enabled: false,
            gamescope: false,
            gamescope_params: Vec::new(),
            gamemode: false,
        };
        assert(r@.gamescope_params =~= Seq::empty());
        r
    }
}

impl Clone for Config {
    fn clone(&self) -> (r: Self)
        ensures
            r@ == self@,
    {
        Config {
            mangohud: self.mangohud,
            mesa_prime: self.mesa_prime,
            nv_prime: self.nv_prime,
            vk_icd_loader: copy_opt_text(&self.vk_icd_loader),
            envs: self.envs.clone(),
            no_sleep_enabled: self.no_sleep_enabled,
            gamescope: self.gamescope,
            gamescope_params: copy_texts(&self.gamescope_params),
            gamemode: self.gamemode,
        }
    }
}

/// The name of the variable that lists the libraries to preload.
pub open spec fn preload_key() -> Seq<char> {
    "LD_PRELOAD"@
}

/// The priority-boost library.
pub open spec fn boost_library() -> Seq<char> {
    "libgamemodeauto.so.0"@
}

/// First step: the overlay becomes the program, and the former program its
/// second argument, behind the overlay's compatibility flag.
pub open spec fn with_overlay(c: CommandView) -> CommandView {
    CommandView { program: "mangohud"@, args: seq!["--dlsym"@, c.program] + c.args, ..c }
}

/// Second and third step: the variables for render offload and for the
/// driver file. `gpu` is what the hardware query answered, where it was
/// made and succeeded; it is used only for NVIDIA offload inside the
/// compositor, and only when it is not empty.
pub open spec fn with_driver_envs(
    envs: Map<Seq<char>, Seq<char>>,
    cfg: ConfigView,
    gpu: Option<Seq<char>>,
) -> Map<Seq<char>, Seq<char>> {
    let a = if cfg.mesa_prime {
        envs.insert("DRI_PRIME"@, "1"@)
    } else {
        envs
    };
    let b = if cfg.nv_prime {
        let n = a.insert("__NV_PRIME_RENDER_OFFLOAD"@, "1"@).insert(
            "__GLX_VENDOR_LIBRARY_NAME"@,
            "nvidia"@,
        ).insert("__VK_LAYER_NV_optimus"@, "NVIDIA_only"@);
        if cfg.gamescope && gpu is Some && gpu.unwrap().len() > 0 {
            n.insert("MESA__VK_DEVICE_SELECT"@, gpu.unwrap())
        } else {
            n
        }
    } else {
        a
    };
    match cfg.vk_icd_loader {
        Some(path) => b.insert("VK_DRIVER_FILES"@, path),
        None => b,
    }
}

/// Fourth step: the compositor becomes the program; its arguments are its own
/// parameters, the separator `--`, the former program and the former
/// arguments.
pub open spec fn with_compositor(c: CommandView, params: Seq<Seq<char>>) -> CommandView {
    CommandView { program: "gamescope"@, args: params + seq!["--"@, c.program] + c.args, ..c }
}

/// The value that a variable of the user gets: with the priority boost on,
/// the preload list starts with the boost library.
pub open spec fn user_value(k: Seq<char>, v: Seq<char>, gamemode: bool) -> Seq<char> {
    if gamemode && k == preload_key() {
        boost_library() + ":"@ + v
    } else {
        v
    }
}

/// The variables of `envs` with those of the user entered over them, each
/// with the value that `user_value` gives it.
pub open spec fn overlaid(
    envs: Map<Seq<char>, Seq<char>>,
    user: Map<Seq<char>, Seq<char>>,
    gamemode: bool,
) -> Map<Seq<char>, Seq<char>> {
    Map::new(
        |k: Seq<char>| envs.contains_key(k) || user.contains_key(k),
        |k: Seq<char>|
            if user.contains_key(k) {
                user_value(k, user[k], gamemode)
            } else {
                envs[k]
            },
    )
}

/// Fifth step: the user's variables win over those set before. With the
/// priority boost on, the preload list is the boost library followed by the
/// user's list, or the boost library alone where the user gave none.
pub open spec fn with_user_envs(
    envs: Map<Seq<char>, Seq<char>>,
    user: Map<Seq<char>, Seq<char>>,
    gamemode: bool,
) -> Map<Seq<char>, Seq<char>> {
    let merged = overlaid(envs, user, gamemode);
    if gamemode && !user.contains_key(preload_key()) {
        merged.insert(preload_key(), boost_library())
    } else {
        merged
    }
}

/// The invocation that results from applying the launch options to `c`: the
/// five steps in their order.
pub open spec fn applied(c: CommandView, cfg: ConfigView, gpu: Option<Seq<char>>) -> CommandView {
    let c1 = if cfg.mangohud {
        with_overlay(c)
    } else {
        c
    };
    let c2 = CommandView { envs: with_driver_envs(c1.envs, cfg, gpu), ..c1 };
    let c3 = if cfg.gamescope {
        with_compositor(c2, cfg.gamescope_params)
    } else {
        c2
    };
    CommandView { envs: with_user_envs(c3.envs, cfg.envs, cfg.gamemode), ..c3 }
}

impl Config {
    /// Whether the options call for the hardware query whose answer
    /// `Command::apply_config` takes: NVIDIA offload inside the compositor.
    pub fn wants_gpu_query(&self) -> (r: bool)
        ensures
            r == (self.nv_prime && self.gamescope),
    {
        self.nv_prime && self.gamescope
    }
}

impl Command {
    /// Applies the launch options to the invocation. `gpu` is the answer of
    /// the hardware query, or `None` where it was not made or failed.
    pub fn apply_config(&mut self, cfg: &Config, gpu: Option<String>)
        ensures
            final(self)@ == applied(old(self)@, cfg@, opt_text(gpu)),
    {
        let ghost c0 = self@;
        if cfg.mangohud {
            self.args.insert(0, self.program.clone());
            self.args.insert(0, "--dlsym".to_owned());
            self.program = "mangohud".to_owned();
            assert(self@.args =~= with_overlay(c0).args);
        }
        let ghost c1 = self@;
        if cfg.mesa_prime {
            self.envs.insert("DRI_PRIME".to_owned(), "1".to_owned());
        }
        if cfg.nv_prime {
            self.envs.insert("__NV_PRIME_RENDER_OFFLOAD".to_owned(), "1".to_owned());
            self.envs.insert("__GLX_VENDOR_LIBRARY_NAME".to_owned(), "nvidia".to_owned());
            self.envs.insert("__VK_LAYER_NV_optimus".to_owned(), "NVIDIA_only".to_owned());
            if cfg.gamescope {
                match gpu {
                    Some(a) => {
                        if !a.as_str().is_empty() {
                            self.envs.insert("MESA__VK_DEVICE_SELECT".to_owned(), a);
                        }
                    },
                    None => {},
                }
            }
        }
        match &cfg.vk_icd_loader {
            Some(path) => {
                self.envs.insert("VK_DRIVER_FILES".to_owned(), path.clone());
            },
            None => {},
        }
        assert(self@.envs == with_driver_envs(c1.envs, cfg@, opt_text(gpu)));
        let ghost c2 = self@;
        assert(c2 == (CommandView { envs: with_driver_envs(c1.envs, cfg@, opt_text(gpu)), ..c1 }));
        if cfg.gamescope {
            let mut args = copy_texts(&cfg.gamescope_params);
            args.push("--".to_owned());
            args.push(self.program.clone());
            args.append(&mut self.args);
            self.args = args;
            self.program = "gamescope".to_owned();
            assert(self@.args =~= with_compositor(c2, cfg@.gamescope_params).args);
        }
        merge_user_envs(&mut self.envs, &cfg.envs, cfg.gamemode);
    }
}

/// Enters the user's variables into `envs` as the fifth step says.
fn merge_user_envs(envs: &mut StrMap<String>, user: &StrMap<String>, gamemode: bool)
    ensures
        final(envs)@ == with_user_envs(old(envs)@, user@, gamemode),
{
    let ghost e0 = envs@;
    let ghost ps = user.pairs();
    let n = user.len();
    let mut i: usize = 0;
    assert(envs@ =~= overlaid(e0, assoc_map(ps.take(0)), gamemode));
    while i < n
        invariant
            n == ps.len(),
            ps == user.pairs(),
            i <= n,
            envs@ == overlaid(e0, assoc_map(ps.take(i as int)), gamemode),
        decreases n - i,
    {
        let k = user.key_at(i);
        let v = user.value_at(i);
        let value = if gamemode && same_text(k.as_str(), "LD_PRELOAD") {
            "libgamemodeauto.so.0".to_owned().concat(":").concat(v.as_str())
        } else {
            v.clone()
        };
        envs.insert(k.clone(), value);
        proof {
            let t0 = ps.take(i as int);
            let t1 = ps.take(i + 1);
            assert(t1.drop_last() =~= t0);
            assert(assoc_map(t1) == assoc_map(t0).insert(k@, v@));
            assert(envs@ =~= overlaid(e0, assoc_map(t1), gamemode));
        }
        i += 1;
    }
    assert(ps.take(n as int) =~= ps);
    if gamemode && !user.contains_key("LD_PRELOAD") {
        envs.insert("LD_PRELOAD".to_owned(), "libgamemodeauto.so.0".to_owned());
    }
}

/// Nested wrapping: with the overlay and the compositor both on, the
/// compositor is the program, and its arguments are its own parameters, the
/// separator, the overlay with its flag, the program as it was and its
/// arguments as they were. The working directory is left as it was.
pub proof fn lemma_nested_wrapping(c: CommandView, cfg: ConfigView, gpu: Option<Seq<char>>)
    requires
        cfg.mangohud,
        cfg.gamescope,
    ensures
        applied(c, cfg, gpu).program == "gamescope"@,
        applied(c, cfg, gpu).args == cfg.gamescope_params + seq![
            "--"@,
            "mangohud"@,
            "--dlsym"@,
            c.program,
        ] + c.args,
        applied(c, cfg, gpu).cwd == c.cwd,
{
    assert(applied(c, cfg, gpu).args =~= cfg.gamescope_params + seq![
        "--"@,
        "mangohud"@,
        "--dlsym"@,
        c.program,
    ] + c.args);
}

/// With the overlay alone, the overlay is the program and the former
/// program follows the overlay's flag.
pub proof fn lemma_overlay_alone(c: CommandView, cfg: ConfigView, gpu: Option<Seq<char>>)
    requires
        cfg.mangohud,
        !cfg.gamescope,
    ensures
        applied(c, cfg, gpu).program == "mangohud"@,
        applied(c, cfg, gpu).args == seq!["--dlsym"@, c.program] + c.args,
        applied(c, cfg, gpu).cwd == c.cwd,
{
}

/// With the compositor alone, the former program follows the compositor's
/// parameters and the separator.
pub proof fn lemma_compositor_alone(c: CommandView, cfg: ConfigView, gpu: Option<Seq<char>>)
    requires
        !cfg.mangohud,
        cfg.gamescope,
    ensures
        applied(c, cfg, gpu).program == "gamescope"@,
        applied(c, cfg, gpu).args == cfg.gamescope_params + seq!["--"@, c.program] + c.args,
        applied(c, cfg, gpu).cwd == c.cwd,
{
}

/// Without a wrapper, the program, its arguments and the working directory
/// are left as they were.
pub proof fn lemma_unwrapped(c: CommandView, cfg: ConfigView, gpu: Option<Seq<char>>)
    requires
        !cfg.mangohud,
        !cfg.gamescope,
    ensures
        applied(c, cfg, gpu).program == c.program,
        applied(c, cfg, gpu).args == c.args,
        applied(c, cfg, gpu).cwd == c.cwd,
{
}

/// The user's variables come last: each one is in the result, with the value
/// that the user gave it, but for the preload list under the priority boost,
/// which starts with the boost library.
pub proof fn lemma_user_envs_win(
    c: CommandView,
    cfg: ConfigView,
    gpu: Option<Seq<char>>,
    k: Seq<char>,
)
    requires
        cfg.envs.contains_key(k),
    ensures
        applied(c, cfg, gpu).envs.contains_key(k),
        applied(c, cfg, gpu).envs[k] == user_value(k, cfg.envs[k], cfg.gamemode),
{
}

/// Under the priority boost the preload list is always set, and the boost
/// library comes first in it.
pub proof fn lemma_boost_preloads(c: CommandView, cfg: ConfigView, gpu: Option<Seq<char>>)
    requires
        cfg.gamemode,
    ensures
        applied(c, cfg, gpu).envs.contains_key(preload_key()),
        applied(c, cfg, gpu).envs[preload_key()] == (if cfg.envs.contains_key(preload_key()) {
            boost_library() + ":"@ + cfg.envs[preload_key()]
        } else {
            boost_library()
        }),
{
}

/// The name of the variable that selects the GPU inside the compositor.
pub open spec fn device_key() -> Seq<char> {
    "MESA__VK_DEVICE_SELECT"@
}

/// With NVIDIA offload inside the compositor, the GPU is selected by what
/// the hardware query answered, where it answered anything. The user's own
/// variables come last, so a selector that the user sets wins over it.
pub proof fn lemma_device_selector(c: CommandView, cfg: ConfigView, gpu: Seq<char>)
    requires
        cfg.nv_prime,
        cfg.gamescope,
        gpu.len() > 0,
    ensures
        applied(c, cfg, Some(gpu)).envs.contains_key(device_key()),
        applied(c, cfg, Some(gpu)).envs[device_key()] == (if cfg.envs.contains_key(device_key()) {
            cfg.envs[device_key()]
        } else {
            gpu
        }),
{
    reveal_strlit("MESA__VK_DEVICE_SELECT");
    reveal_strlit("VK_DRIVER_FILES");
    reveal_strlit("LD_PRELOAD");
    assert("MESA__VK_DEVICE_SELECT"@.len() == 22);
    assert("VK_DRIVER_FILES"@.len() == 15);
    assert("LD_PRELOAD"@.len() == 10);
}

/// Without an answer of the hardware query, or outside the compositor, or
/// without NVIDIA offload, the pipeline sets no selector: the variable is
/// there only if the command or the user had it.
pub proof fn lemma_no_device_selector(c: CommandView, cfg: ConfigView, gpu: Option<Seq<char>>)
    requires
        !cfg.nv_prime || !cfg.gamescope || gpu is None || gpu.unwrap().len() == 0,
    ensures
        applied(c, cfg, gpu).envs.contains_key(device_key()) <==> (c.envs.contains_key(
            device_key(),
        ) || cfg.envs.contains_key(device_key())),
{
    reveal_strlit("MESA__VK_DEVICE_SELECT");
    reveal_strlit("VK_DRIVER_FILES");
    reveal_strlit("LD_PRELOAD");
    reveal_strlit("DRI_PRIME");
    reveal_strlit("__NV_PRIME_RENDER_OFFLOAD");
    reveal_strlit("__GLX_VENDOR_LIBRARY_NAME");
    reveal_strlit("__VK_LAYER_NV_optimus");
    assert("MESA__VK_DEVICE_SELECT"@.len() == 22);
    assert("VK_DRIVER_FILES"@.len() == 15);
    assert("LD_PRELOAD"@.len() == 10);
    assert("DRI_PRIME"@.len() == 9);
    assert("__NV_PRIME_RENDER_OFFLOAD"@.len() == 25);
    assert("__GLX_VENDOR_LIBRARY_NAME"@.len() == 25);
    assert("__VK_LAYER_NV_optimus"@.len() == 21);
    assert("MESA__VK_DEVICE_SELECT"@[0] == 'M');
    assert("__NV_PRIME_RENDER_OFFLOAD"@[0] == '_');
    assert("__GLX_VENDOR_LIBRARY_NAME"@[0] == '_');
}

} // verus!
