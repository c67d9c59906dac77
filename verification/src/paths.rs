//! Where the tool keeps its files: one configuration directory, chosen from
//! the environment, and fixed names below it.

use crate::host::{
    ExchangeView, bind, done, failed, owned, Fault, FaultKind, Halt, HostEnv, HostEnvView, Ran,
    Replay,
};
use crate::text::{chars_of, concat, concat3};
use crate::tun::guard::{is_root_user, or_no, root_user};
use vstd::prelude::*;

verus! {

/// The configuration directory of root unless one is set.
pub const SYSTEM_CONFIG_DIR: &'static str = "/etc/clash-cli";

/// The files and directories of the tool.
#[derive(Debug)]
pub struct AppPaths {
    pub config_dir: String,
    pub state_file: String,
    pub env_file: String,
    pub profile_dir: String,
    pub profile_index_file: String,
    pub profile_mixin_file: String,
    pub core_dir: String,
    pub core_versions_dir: String,
    pub core_current_link: String,
    pub core_meta_file: String,
    pub runtime_dir: String,
    pub runtime_config_file: String,
    pub runtime_tun_state_file: String,
}

pub struct AppPathsView {
    pub config_dir: Seq<char>,
    pub state_file: Seq<char>,
    pub env_file: Seq<char>,
    pub profile_dir: Seq<char>,
    pub profile_index_file: Seq<char>,
    pub profile_mixin_file: Seq<char>,
    pub core_dir: Seq<char>,
    pub core_versions_dir: Seq<char>,
    pub core_current_link: Seq<char>,
    pub core_meta_file: Seq<char>,
    pub runtime_dir: Seq<char>,
    pub runtime_config_file: Seq<char>,
    pub runtime_tun_state_file: Seq<char>,
}

impl View for AppPaths {
    type V = AppPathsView;

    open spec fn view(&self) -> AppPathsView {
        AppPathsView {
            config_dir: self.config_dir@,
            state_file: self.state_file@,
            env_file: self.env_file@,
            profile_dir: self.profile_dir@,
            profile_index_file: self.profile_index_file@,
            profile_mixin_file: self.profile_mixin_file@,
            core_dir: self.core_dir@,
            core_versions_dir: self.core_versions_dir@,
            core_current_link: self.core_current_link@,
            core_meta_file: self.core_meta_file@,
            runtime_dir: self.runtime_dir@,
            runtime_config_file: self.runtime_config_file@,
            runtime_tun_state_file: self.runtime_tun_state_file@,
        }
    }
}

/// The path `part` below `base`: an absolute `part` stands alone, and a
/// separator is put between the two where `base` does not end in one.
pub open spec fn joined(base: Seq<char>, part: Seq<char>) -> Seq<char> {
    if part.len() > 0 && part[0] == '/' {
        part
    } else if base.len() == 0 || base.last() == '/' {
        base + part
    } else {
        base + "/"@ + part
    }
}

/// The files and directories below a configuration directory.
pub open spec fn layout(config_dir: Seq<char>) -> AppPathsView {
    let core = joined(config_dir, "core"@);
    let profiles = joined(config_dir, "profiles"@);
    let runtime = joined(config_dir, "runtime"@);
    AppPathsView {
        config_dir,
        state_file: joined(config_dir, "proxy.state"@),
        env_file: joined(config_dir, "proxy.env"@),
        profile_dir: profiles,
        profile_index_file: joined(profiles, "index.json"@),
        profile_mixin_file: joined(profiles, "mixin.yaml"@),
        core_dir: core,
        core_versions_dir: joined(core, "versions"@),
        core_current_link: joined(core, "mihomo"@),
        core_meta_file: joined(core, "current.meta"@),
        runtime_dir: runtime,
        runtime_config_file: joined(runtime, "config.yaml"@),
        runtime_tun_state_file: joined(runtime, "tun.state"@),
    }
}

/// The configuration directory: the override if one is set; else the system
/// directory for root; else `clash-cli` below the XDG configuration
/// directory, or below `.config` in the home directory.
pub open spec fn config_dir_of(env: HostEnvView, is_root: bool) -> Option<Seq<char>> {
    match env.home_override {
        Some(custom) => Some(custom),
        None => if is_root {
            Some(SYSTEM_CONFIG_DIR@)
        } else {
            match env.xdg_config_home {
                Some(xdg) => Some(joined(xdg, "clash-cli"@)),
                None => match env.home_dir {
                    Some(home) => Some(joined(joined(home, ".config"@), "clash-cli"@)),
                    None => None,
                },
            }
        },
    }
}

/// The tool's paths. Whether the process is root is asked only where no
/// override is set; a failure to find out counts as "no".
#[verifier::opaque]
pub open spec fn located(env: HostEnvView, log: Seq<ExchangeView>, at: int) -> Ran<AppPathsView> {
    match env.home_override {
        Some(custom) => done(layout(custom), at),
        None => bind(
            or_no(root_user(log, at)),
            |is_root: bool, at1: int|
                match config_dir_of(env, is_root) {
                    Some(dir) => done(layout(dir), at1),
                    None => failed(FaultKind::HomeUnknown, Seq::empty(), at1),
                },
        ),
    }
}

/// The view of a result over paths.
pub open spec fn ran_paths(r: Result<AppPaths, Halt>, at: int) -> Ran<AppPathsView> {
    Ran {
        out: match r {
            Ok(p) => Ok(p@),
            Err(h) => Err(h@),
        },
        at,
    }
}

/// What `Path::file_name` gives for a path: its last component, if it has
/// one that is no `..`.
pub uninterp spec fn file_name_of(path: Seq<char>) -> Option<Seq<char>>;

/// What `Path::parent` gives for a path: the path without its last
/// component, if it has one.
pub uninterp spec fn parent_of(path: Seq<char>) -> Option<Seq<char>>;

/// `Path::file_name` on the path that a text writes. The contract names the
/// result.
#[verifier::external_body]
pub(crate) fn path_file_name(path: &str) -> (r: Option<String>)
    ensures
        crate::host::text_view(r) == file_name_of(path@),
{
    std::path::Path::new(path).file_name().map(|s| s.to_string_lossy().into_owned())
}

/// `Path::parent` on the path that a text writes. The contract names the
/// result.
#[verifier::external_body]
pub(crate) fn path_parent(path: &str) -> (r: Option<String>)
    ensures
        crate::host::text_view(r) == parent_of(path@),
{
    std::path::Path::new(path).parent().map(|p| p.to_string_lossy().into_owned())
}

/// What `Path::with_extension` gives for a path and an extension: the path
/// with the extension of its last component replaced.
pub uninterp spec fn with_extension_of(path: Seq<char>, extension: Seq<char>) -> Seq<char>;

/// `Path::with_extension` on the path that a text writes. The contract
/// names the result. `Path::with_extension` panics on an extension that
/// holds a path separator, so such an extension is left out.
#[verifier::external_body]
pub(crate) fn path_with_extension(path: &str, extension: &str) -> (r: String)
    requires
        forall|i: int| 0 <= i < extension@.len() ==> extension@[i] != '/',
    ensures
        r@ == with_extension_of(path@, extension@),
{
    std::path::Path::new(path).with_extension(extension).to_string_lossy().into_owned()
}

/// The path `part` below `base`.
pub fn join_path(base: &str, part: &str) -> (r: String)
    ensures
        r@ == joined(base@, part@),
{
    let b = chars_of(base);
    let p = chars_of(part);
    if p.len() > 0 && p[0] == '/' {
        owned(part)
    } else if b.len() == 0 || b[b.len() - 1] == '/' {
        concat(base, part)
    } else {
        concat3(base, "/", part)
    }
}

/// The files and directories below a configuration directory.
pub fn paths_below(config_dir: String) -> (r: AppPaths)
    ensures
        r@ == layout(config_dir@),
{
    let core_dir = join_path(config_dir.as_str(), "core");
    let profile_dir = join_path(config_dir.as_str(), "profiles");
    let runtime_dir = join_path(config_dir.as_str(), "runtime");
    AppPaths {
        state_file: join_path(config_dir.as_str(), "proxy.state"),
        env_file: join_path(config_dir.as_str(), "proxy.env"),
        profile_index_file: join_path(profile_dir.as_str(), "index.json"),
        profile_mixin_file: join_path(profile_dir.as_str(), "mixin.yaml"),
        profile_dir,
        runtime_config_file: join_path(runtime_dir.as_str(), "config.yaml"),
        runtime_tun_state_file: join_path(runtime_dir.as_str(), "tun.state"),
        runtime_dir,
        config_dir,
        core_versions_dir: join_path(core_dir.as_str(), "versions"),
        core_current_link: join_path(core_dir.as_str(), "mihomo"),
        core_meta_file: join_path(core_dir.as_str(), "current.meta"),
        core_dir,
    }
}

/// The tool's paths for this process.
pub fn app_paths(env: &HostEnv, host: &mut Replay) -> (r: Result<AppPaths, Halt>)
    ensures
        final(host).seen() == old(host).seen(),
        ran_paths(r, final(host).pos()) == located(env@, old(host).seen(), old(host).pos()),
{
    proof {
        reveal(located);
    }
    match &env.home_override {
        Some(custom) => {
            return Ok(paths_below(custom.clone()));
        },
        None => {},
    }
    let is_root = match is_root_user(host) {
        Ok(b) => b,
        Err(Halt::Need(e)) => {
            return Err(Halt::Need(e));
        },
        Err(Halt::Fail(_)) => false,
    };
    if is_root {
        return Ok(paths_below(owned(SYSTEM_CONFIG_DIR)));
    }
    match &env.xdg_config_home {
        Some(xdg) => {
            return Ok(paths_below(join_path(xdg.as_str(), "clash-cli")));
        },
        None => {},
    }
    match &env.home_dir {
        Some(home) => {
            let dot = join_path(home.as_str(), ".config");
            Ok(paths_below(join_path(dot.as_str(), "clash-cli")))
        },
        None => Err(Halt::Fail(Fault { kind: FaultKind::HomeUnknown, detail: String::new(), rolled_back: false })),
    }
}

} // verus!
