//! Where the engine finds its data and its plugins.

use crate::utils::initialization::NixDisplay;
use crate::utils::obs_string::{ObsPath, ObsString};
use crate::utils::path::{
    ancestor_is_named, has_ancestor_named, join_path, parent_of, path_join, path_parent,
};
use vstd::prelude::*;
use vstd::string::*;

verus! {

/// The three paths that the engine is started with.
#[derive(Clone, Debug)]
pub struct StartupPaths {
    libobs_data_path: ObsString,
    plugin_bin_path: ObsString,
    plugin_data_path: ObsString,
}

/// What a set of start-up paths holds.
pub struct StartupPathsView {
    pub libobs_data_path: Seq<char>,
    pub plugin_bin_path: Seq<char>,
    pub plugin_data_path: Seq<char>,
}

impl View for StartupPaths {
    type V = StartupPathsView;

    closed spec fn view(&self) -> StartupPathsView {
        StartupPathsView {
            libobs_data_path: self.libobs_data_path@,
            plugin_bin_path: self.plugin_bin_path@,
            plugin_data_path: self.plugin_data_path@,
        }
    }
}

impl StartupPaths {
    /// The start-up paths made of the three given paths.
    pub fn new(libobs_data_path: ObsPath, plugin_bin_path: ObsPath, plugin_data_path: ObsPath) -> (paths:
        StartupPaths)
        ensures
            paths@ == (StartupPathsView {
                libobs_data_path: libobs_data_path@,
                plugin_bin_path: plugin_bin_path@,
                plugin_data_path: plugin_data_path@,
            }),
    {
        StartupPaths {
            libobs_data_path: libobs_data_path.build(),
            plugin_bin_path: plugin_bin_path.build(),
            plugin_data_path: plugin_data_path.build(),
        }
    }

    /// Where the engine's own data lies.
    pub fn libobs_data_path(&self) -> (path: &ObsString)
        ensures
            path@ == self@.libobs_data_path,
    {
        &self.libobs_data_path
    }

    /// Where the plugins' binaries lie.
    pub fn plugin_bin_path(&self) -> (path: &ObsString)
        ensures
            path@ == self@.plugin_bin_path,
    {
        &self.plugin_bin_path
    }

    /// Where the plugins' data lies.
    pub fn plugin_data_path(&self) -> (path: &ObsString)
        ensures
            path@ == self@.plugin_data_path,
    {
        &self.plugin_data_path
    }
}

/// Start-up paths that are still being chosen.
#[derive(Clone, Debug)]
pub struct StartupPathsBuilder {
    libobs_data_path: ObsPath,
    plugin_bin_path: ObsPath,
    plugin_data_path: ObsPath,
}

impl View for StartupPathsBuilder {
    type V = StartupPathsView;

    closed spec fn view(&self) -> StartupPathsView {
        StartupPathsView {
            libobs_data_path: self.libobs_data_path@,
            plugin_bin_path: self.plugin_bin_path@,
            plugin_data_path: self.plugin_data_path@,
        }
    }
}

/// The directory with the system's libraries for the machine architecture
/// `arch`.
pub open spec fn system_lib_dir(arch: Seq<char>) -> Seq<char> {
    if arch == "x86_64"@ {
        "/usr/lib/x86_64-linux-gnu"@
    } else if arch == "aarch64"@ {
        "/usr/lib/aarch64-linux-gnu"@
    } else if arch == "arm"@ {
        "/usr/lib/arm-linux-gnueabihf"@
    } else {
        "/usr/lib"@
    }
}

/// The paths of an engine that the system's package manager installed, on a
/// machine of architecture `arch`.
pub open spec fn system_layout(arch: Seq<char>) -> StartupPathsView {
    StartupPathsView {
        libobs_data_path: "/usr/share/obs/libobs"@,
        plugin_bin_path: system_lib_dir(arch) + "/obs-plugins/%module%"@,
        plugin_data_path: "/usr/share/obs/obs-plugins/%module%"@,
    }
}

/// The root of the installation that the binary `obs_binary` belongs to: two
/// levels above the binary.
pub open spec fn installation_root(obs_binary: Seq<char>) -> Option<Seq<char>> {
    match path_parent(obs_binary) {
        Some(bin_dir) => path_parent(bin_dir),
        None => None,
    }
}

/// The engine's own data below the installation root `root`.
pub open spec fn share_dir(root: Seq<char>) -> Seq<char> {
    path_join(path_join(path_join(root, "share"@), "obs"@), "libobs"@)
}

/// The paths of an engine that is installed below `root`, as a Nix store
/// lays it out.
pub open spec fn store_layout(root: Seq<char>) -> StartupPathsView {
    StartupPathsView {
        libobs_data_path: share_dir(root),
        plugin_bin_path: path_join(
            path_join(path_join(root, "lib"@), "obs-plugins"@),
            "%module%"@,
        ),
        plugin_data_path: path_join(path_join(share_dir(root), "obs-plugins"@), "%module%"@),
    }
}

/// The paths that go with the engine's binary `obs_binary` on a machine of
/// architecture `arch`: those of its own installation where the binary lies
/// below a directory named `nix` and has an installation root, and the
/// system's otherwise.
pub open spec fn default_layout(obs_binary: Seq<char>, arch: Seq<char>) -> StartupPathsView {
    if has_ancestor_named(obs_binary, "nix"@) && installation_root(obs_binary).is_some() {
        store_layout(installation_root(obs_binary).unwrap())
    } else {
        system_layout(arch)
    }
}

/// The paths of an engine that lies beside the application, below the
/// directory `base`.
pub open spec fn portable_layout(base: Seq<char>) -> StartupPathsView {
    StartupPathsView {
        libobs_data_path: path_join(path_join(base, "data"@), "libobs"@),
        plugin_bin_path: path_join(path_join(base, "obs-plugins"@), "64bit"@),
        plugin_data_path: path_join(
            path_join(path_join(base, "data"@), "obs-plugins"@),
            "%module%"@,
        ),
    }
}

/// The directory with the system's libraries for the machine architecture
/// `arch`.
fn lib_dir_for(arch: &str) -> (dir: String)
    ensures
        dir@ == system_lib_dir(arch@),
{
    let arch = arch.to_string();
    if arch == "x86_64".to_string() {
        "/usr/lib/x86_64-linux-gnu".to_string()
    } else if arch == "aarch64".to_string() {
        "/usr/lib/aarch64-linux-gnu".to_string()
    } else if arch == "arm".to_string() {
        "/usr/lib/arm-linux-gnueabihf".to_string()
    } else {
        "/usr/lib".to_string()
    }
}

/// The installation root of the binary `obs_binary`.
fn root_of(obs_binary: &str) -> (root: Option<String>)
    ensures
        match root {
            Some(r) => installation_root(obs_binary@) == Some(r@),
            None => installation_root(obs_binary@).is_none(),
        },
{
    match parent_of(obs_binary) {
        Some(bin_dir) => parent_of(bin_dir.as_str()),
        None => None,
    }
}

impl StartupPathsBuilder {
    /// The paths to start from, given where the engine's binary lies and the
    /// machine's architecture.
    pub fn new(obs_binary: &str, arch: &str) -> (builder: StartupPathsBuilder)
        ensures
            builder@ == default_layout(obs_binary@, arch@),
    {
        if ancestor_is_named(obs_binary, "nix") {
            match root_of(obs_binary) {
                Some(root) => {
                    let share = ObsPath::new(root.as_str()).push("share").push("obs").push(
                        "libobs",
                    );
                    let plugin_bin = ObsPath::new(root.as_str()).push("lib").push(
                        "obs-plugins",
                    ).push("%module%");
                    let plugin_data = ObsPath::new(root.as_str()).push("share").push("obs").push(
                        "libobs",
                    ).push("obs-plugins").push("%module%");
                    return StartupPathsBuilder {
                        libobs_data_path: share,
                        plugin_bin_path: plugin_bin,
                        plugin_data_path: plugin_data,
                    };
                },
                None => {},
            }
        }
        let plugin_bin = lib_dir_for(arch).concat("/obs-plugins/%module%");
        StartupPathsBuilder {
            libobs_data_path: ObsPath::new("/usr/share/obs/libobs"),
            plugin_bin_path: ObsPath::new(plugin_bin.as_str()),
            plugin_data_path: ObsPath::new("/usr/share/obs/obs-plugins/%module%"),
        }
    }

    /// The paths to start from where the engine lies beside the
    /// application, below the directory `base`: the layout off Linux.
    pub fn portable(base: &str) -> (builder: StartupPathsBuilder)
        ensures
            builder@ == portable_layout(base@),
    {
        StartupPathsBuilder {
            libobs_data_path: ObsPath::new(base).push("data").push("libobs"),
            plugin_bin_path: ObsPath::new(base).push("obs-plugins").push("64bit"),
            plugin_data_path: ObsPath::new(base).push("data").push("obs-plugins").push("%module%"),
        }
    }

    /// The start-up paths as chosen.
    pub fn build(self) -> (paths: StartupPaths)
        ensures
            paths@ == self@,
    {
        StartupPaths {
            libobs_data_path: self.libobs_data_path.build(),
            plugin_bin_path: self.plugin_bin_path.build(),
            plugin_data_path: self.plugin_data_path.build(),
        }
    }

    /// Replaces the path of the engine's own data.
    pub fn libobs_data_path(self, value: ObsPath) -> (builder: StartupPathsBuilder)
        ensures
            builder@ == (StartupPathsView { libobs_data_path: value@, ..self@ }),
    {
        let mut builder = self;
        builder.libobs_data_path = value;
        builder
    }

    /// Replaces the path of the plugins' binaries.
    pub fn plugin_bin_path(self, value: ObsPath) -> (builder: StartupPathsBuilder)
        ensures
            builder@ == (StartupPathsView { plugin_bin_path: value@, ..self@ }),
    {
        let mut builder = self;
        builder.plugin_bin_path = value;
        builder
    }

    /// Replaces the path of the plugins' data.
    pub fn plugin_data_path(self, value: ObsPath) -> (builder: StartupPathsBuilder)
        ensures
            builder@ == (StartupPathsView { plugin_data_path: value@, ..self@ }),
    {
        let mut builder = self;
        builder.plugin_data_path = value;
        builder
    }
}

/// What an engine is started with.
///
/// On Linux an application that shows the engine's preview in a window of
/// its own hands the engine its connection to the display server. A Wayland
/// compositor needs that; an X11 server does without.
#[derive(Clone, Debug)]
pub struct StartupInfo {
    startup_paths: StartupPaths,
    start_glib_loop: bool,
    nix_display: Option<NixDisplay>,
}

/// What a start-up configuration holds.
pub struct StartupInfoView {
    pub startup_paths: StartupPathsView,
    pub start_glib_loop: bool,
    pub nix_display: Option<NixDisplay>,
}

impl View for StartupInfo {
    type V = StartupInfoView;

    closed spec fn view(&self) -> StartupInfoView {
        StartupInfoView {
            startup_paths: self.startup_paths@,
            start_glib_loop: self.start_glib_loop,
            nix_display: self.nix_display,
        }
    }
}

impl StartupInfo {
    /// The configuration to start from: the given paths, a main loop of the
    /// engine's own, and no display connection.
    pub fn new(startup_paths: StartupPaths) -> (info: StartupInfo)
        ensures
            info@ == (StartupInfoView {
                startup_paths: startup_paths@,
                start_glib_loop: true,
                nix_display: None,
            }),
    {
        StartupInfo { startup_paths, start_glib_loop: true, nix_display: None }
    }

    /// Replaces the start-up paths.
    pub fn set_startup_paths(self, paths: StartupPaths) -> (info: StartupInfo)
        ensures
            info@ == (StartupInfoView { startup_paths: paths@, ..self@ }),
    {
        let mut info = self;
        info.startup_paths = paths;
        info
    }

    /// Says whether the engine is to run a main loop of its own.
    pub fn set_start_glib_loop(self, start: bool) -> (info: StartupInfo)
        ensures
            info@ == (StartupInfoView { start_glib_loop: start, ..self@ }),
    {
        let mut info = self;
        info.start_glib_loop = start;
        info
    }

    /// Hands the engine a connection to the display server. The connection
    /// must stay open until the engine is gone.
    pub fn set_nix_display(self, display: NixDisplay) -> (info: StartupInfo)
        ensures
            info@ == (StartupInfoView { nix_display: Some(display), ..self@ }),
    {
        let mut info = self;
        info.nix_display = Some(display);
        info
    }

    /// The start-up paths.
    pub fn startup_paths(&self) -> (paths: &StartupPaths)
        ensures
            paths@ == self@.startup_paths,
    {
        &self.startup_paths
    }

    /// Whether the engine is to run a main loop of its own.
    pub fn start_glib_loop(&self) -> (start: bool)
        ensures
            start == self@.start_glib_loop,
    {
        self.start_glib_loop
    }

    /// The display connection that the engine is to use, if one was given.
    pub fn nix_display(&self) -> (display: Option<NixDisplay>)
        ensures
            display == self@.nix_display,
    {
        self.nix_display
    }
}

} // verus!
