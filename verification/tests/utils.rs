use libobs_wrapper::handle::SafeHandle;
use libobs_wrapper::utils::bytes::{c_string_end, find_bytes, matches_at};
use libobs_wrapper::utils::initialization::{
    failure_is_reported, platform_specific_setup, DpiSetup, InitOnce, NixDisplay,
    PlatformSpecificGuard, PlatformType, Privilege, SetupStep,
};
use libobs_wrapper::utils::linux::{
    find_obs_binary, get_linux_opengl_lib_name, plain_binary_in, search_path_dirs,
    wrapped_binary_in, JoinVerdict, LinuxGlibLoop, LoopTeardown, ProbedDir,
};
use libobs_wrapper::utils::obs_string::{ObsPath, ObsString};
use libobs_wrapper::utils::path::{ancestor_is_named, split_text};
use libobs_wrapper::utils::startup::{StartupInfo, StartupPaths, StartupPathsBuilder};

fn dir(path: &str, has_wrapped: bool, has_obs: bool) -> ProbedDir {
    ProbedDir { dir: path.to_string(), has_wrapped, has_obs }
}

#[test]
fn the_opengl_library_is_read_out_of_the_binary() {
    let mut binary = b"\x7fELF\0\0junk\0libobs.so.30\0".to_vec();
    binary.extend_from_slice(b"libobs-opengl.so.30\0more\0");
    assert_eq!(get_linux_opengl_lib_name(&binary), "libobs-opengl.so.30");
}

#[test]
fn a_binary_without_the_name_gives_the_default() {
    assert_eq!(get_linux_opengl_lib_name(b""), "libobs-opengl.so");
    assert_eq!(get_linux_opengl_lib_name(b"nothing of interest\0here"), "libobs-opengl.so");
    assert_eq!(get_linux_opengl_lib_name(b"libobs-openg"), "libobs-opengl.so");
}

#[test]
fn a_name_without_so_is_passed_over() {
    let binary = b"libobs-opengl-error\0xx libobs-opengl.so.1\0";
    assert_eq!(get_linux_opengl_lib_name(binary), "libobs-opengl.so.1");
    assert_eq!(get_linux_opengl_lib_name(b"libobs-opengl\0.so"), "libobs-opengl.so");
}

#[test]
fn a_name_that_is_not_utf8_is_passed_over() {
    let mut binary = b"libobs-opengl.so\xff\xfe\0".to_vec();
    binary.extend_from_slice(b"libobs-opengl.so.2");
    assert_eq!(get_linux_opengl_lib_name(&binary), "libobs-opengl.so.2");
    assert_eq!(get_linux_opengl_lib_name(b"libobs-opengl.so\xff"), "libobs-opengl.so");
}

#[test]
fn the_name_runs_to_the_end_of_the_data_without_a_nul() {
    assert_eq!(get_linux_opengl_lib_name(b"xxlibobs-opengl.so.7"), "libobs-opengl.so.7");
    assert_eq!(
        get_linux_opengl_lib_name("libobs-opengl-\u{e9}.so".as_bytes()),
        "libobs-opengl-\u{e9}.so"
    );
}

#[test]
fn byte_search() {
    assert!(matches_at(b"hello", b"ell", 1));
    assert!(!matches_at(b"hello", b"ell", 2));
    assert!(!matches_at(b"hello", b"lo", 4));
    assert!(matches_at(b"hello", b"", 5));
    assert!(!matches_at(b"hello", b"", 6));
    assert_eq!(find_bytes(b"abcabc", b"bc"), Some(1));
    assert_eq!(find_bytes(b"abcabc", b"cb"), None);
    assert_eq!(find_bytes(b"abc", b""), Some(0));
    assert_eq!(find_bytes(b"", b""), Some(0));
    assert_eq!(find_bytes(b"", b"a"), None);
    assert_eq!(find_bytes(b"ab", b"abc"), None);
    assert_eq!(c_string_end(b"ab\0cd", 0), 2);
    assert_eq!(c_string_end(b"ab\0cd", 2), 2);
    assert_eq!(c_string_end(b"ab\0cd", 3), 5);
    assert_eq!(c_string_end(b"ab", 2), 2);
}

#[test]
fn a_search_path_falls_into_its_directories() {
    assert_eq!(search_path_dirs("/usr/bin:/bin:/opt/obs/bin"), vec!["/usr/bin", "/bin", "/opt/obs/bin"]);
    assert_eq!(search_path_dirs("/usr/bin"), vec!["/usr/bin"]);
    assert_eq!(search_path_dirs(""), vec![""]);
    assert_eq!(search_path_dirs(":/bin:"), vec!["", "/bin", ""]);
    assert_eq!(search_path_dirs("a::b"), vec!["a", "", "b"]);
    assert_eq!(split_text("\u{e9}t\u{e9},x", ','), vec!["\u{e9}t\u{e9}", "x"]);
}

#[test]
fn a_wrapped_binary_below_nix_is_taken_first() {
    let dirs = vec![
        dir("/usr/bin", false, true),
        dir("/home/u/bin", true, false),
        dir("/nix/store/abc-obs/bin", true, true),
        dir("/nix/store/def-obs/bin", true, true),
    ];
    assert_eq!(find_obs_binary(&dirs), "/nix/store/abc-obs/bin/.obs-wrapped");
}

#[test]
fn otherwise_the_first_plain_binary_is_taken() {
    let dirs = vec![
        dir("/home/u/bin", true, false),
        dir("/usr/local/bin", false, true),
        dir("/usr/bin", false, true),
        dir("/nix/store/abc-obs/bin", false, true),
    ];
    assert_eq!(find_obs_binary(&dirs), "/usr/local/bin/obs");
}

#[test]
fn without_any_binary_the_usual_place_is_assumed() {
    assert_eq!(find_obs_binary(&vec![]), "/usr/bin/obs");
    assert_eq!(find_obs_binary(&vec![dir("/a", false, false), dir("/b", true, false)]), "/usr/bin/obs");
}

#[test]
fn candidates_lie_in_their_directory() {
    assert_eq!(wrapped_binary_in("/nix/store/x/bin"), "/nix/store/x/bin/.obs-wrapped");
    assert_eq!(plain_binary_in("/usr/bin"), "/usr/bin/obs");
    assert_eq!(plain_binary_in("/usr/bin/"), "/usr/bin/obs");
}

#[test]
fn ancestors_are_found_by_name() {
    assert!(ancestor_is_named("/nix/store/x/bin/obs", "nix"));
    assert!(ancestor_is_named("/nix/store/x/bin/obs", "obs"));
    assert!(ancestor_is_named("/nix/store/x/bin/obs", "store"));
    assert!(!ancestor_is_named("/nixos/store/x/bin/obs", "nix"));
    assert!(!ancestor_is_named("/usr/bin/obs", "nix"));
    assert!(!ancestor_is_named("", "nix"));
    assert!(ancestor_is_named("nix", "nix"));
}

#[test]
fn paths_of_a_system_installation() {
    let paths = StartupPathsBuilder::new("/usr/bin/obs", "x86_64").build();
    assert_eq!(paths.libobs_data_path().as_str(), "/usr/share/obs/libobs");
    assert_eq!(paths.plugin_bin_path().as_str(), "/usr/lib/x86_64-linux-gnu/obs-plugins/%module%");
    assert_eq!(paths.plugin_data_path().as_str(), "/usr/share/obs/obs-plugins/%module%");
    let paths = StartupPathsBuilder::new("/usr/bin/obs", "aarch64").build();
    assert_eq!(paths.plugin_bin_path().as_str(), "/usr/lib/aarch64-linux-gnu/obs-plugins/%module%");
    let paths = StartupPathsBuilder::new("/usr/bin/obs", "arm").build();
    assert_eq!(paths.plugin_bin_path().as_str(), "/usr/lib/arm-linux-gnueabihf/obs-plugins/%module%");
    let paths = StartupPathsBuilder::new("/usr/bin/obs", "riscv64").build();
    assert_eq!(paths.plugin_bin_path().as_str(), "/usr/lib/obs-plugins/%module%");
}

#[test]
fn paths_of_a_nix_installation() {
    let paths = StartupPathsBuilder::new("/nix/store/abc-obs/bin/.obs-wrapped", "x86_64").build();
    assert_eq!(paths.libobs_data_path().as_str(), "/nix/store/abc-obs/share/obs/libobs");
    assert_eq!(paths.plugin_bin_path().as_str(), "/nix/store/abc-obs/lib/obs-plugins/%module%");
    assert_eq!(
        paths.plugin_data_path().as_str(),
        "/nix/store/abc-obs/share/obs/libobs/obs-plugins/%module%"
    );
}

#[test]
fn a_nix_binary_without_a_root_gets_the_systems_paths() {
    let paths = StartupPathsBuilder::new("nix", "x86_64").build();
    assert_eq!(paths.libobs_data_path().as_str(), "/usr/share/obs/libobs");
}

#[test]
fn startup_paths_can_be_replaced_one_by_one() {
    let paths = StartupPathsBuilder::new("/usr/bin/obs", "x86_64")
        .libobs_data_path(ObsPath::new("/data"))
        .plugin_bin_path(ObsPath::new("/plugins").push("bin"))
        .plugin_data_path(ObsPath::new("/plugins").push("data").push("%module%"))
        .build();
    assert_eq!(paths.libobs_data_path().as_str(), "/data");
    assert_eq!(paths.plugin_bin_path().as_str(), "/plugins/bin");
    assert_eq!(paths.plugin_data_path().as_str(), "/plugins/data/%module%");
    let direct = StartupPaths::new(ObsPath::new("a"), ObsPath::new("b"), ObsPath::new("c"));
    assert_eq!(direct.libobs_data_path().as_str(), "a");
    assert_eq!(direct.plugin_bin_path().as_str(), "b");
    assert_eq!(direct.plugin_data_path().as_str(), "c");
}

#[test]
fn obs_strings_and_paths() {
    let s = ObsString::new("text");
    assert_eq!(s.as_str(), "text");
    assert!(s.same_text(&ObsString::new("text")));
    assert!(!s.same_text(&ObsString::new("Text")));
    assert_eq!(ObsPath::new("/a").push("b").build().as_str(), "/a/b");
    assert_eq!(ObsPath::new("/a").push("/b").build().as_str(), "/b");
    assert_eq!(ObsPath::new("").push("b").build().as_str(), "b");
}

#[test]
fn startup_info_defaults_and_setters() {
    let paths = StartupPathsBuilder::new("/usr/bin/obs", "x86_64").build();
    let info = StartupInfo::new(paths);
    assert!(info.start_glib_loop());
    assert_eq!(info.nix_display(), None);
    assert_eq!(info.startup_paths().libobs_data_path().as_str(), "/usr/share/obs/libobs");
    let display = NixDisplay::Wayland(SafeHandle::new(0x5000));
    let info = info
        .set_start_glib_loop(false)
        .set_nix_display(display)
        .set_startup_paths(StartupPaths::new(ObsPath::new("a"), ObsPath::new("b"), ObsPath::new("c")));
    assert!(!info.start_glib_loop());
    assert_eq!(info.nix_display(), Some(display));
    assert_eq!(info.startup_paths().plugin_bin_path().as_str(), "b");
    assert_eq!(display.platform(), PlatformType::Wayland);
    assert_eq!(display.handle(), SafeHandle::new(0x5000));
    assert_eq!(NixDisplay::X11(SafeHandle::new(1)).platform(), PlatformType::X11);
}

#[test]
fn the_platform_setup_is_made_once() {
    let mut once = InitOnce::new();
    assert!(!once.done());
    assert_eq!(PlatformSpecificGuard::enable_dpi_awareness(&mut once), DpiSetup::SetContext);
    assert!(once.done());
    let idle = PlatformSpecificGuard { previous_dpi_context: None };
    assert_eq!(PlatformSpecificGuard::enable_dpi_awareness(&mut once), DpiSetup::AlreadyDone(idle));
    assert_eq!(PlatformSpecificGuard::enable_dpi_awareness(&mut once), DpiSetup::AlreadyDone(idle));
    assert!(!once.claim());
    assert_eq!(idle.unset_dpi_awareness(), None);
}

#[test]
fn the_guard_puts_the_previous_context_back() {
    let previous = SafeHandle::new(0xfff0);
    let guard = PlatformSpecificGuard::from_previous_context(previous, true);
    assert_eq!(guard.unset_dpi_awareness(), Some(previous));
    let guard = PlatformSpecificGuard::from_previous_context(SafeHandle::null(), false);
    assert_eq!(guard.unset_dpi_awareness(), None);
}

fn run_setup(outcomes: &[bool]) -> Vec<SetupStep> {
    let mut steps = vec![SetupStep::OpenProcessToken];
    let mut i = 0;
    loop {
        let current = *steps.last().unwrap();
        if current == SetupStep::Done {
            return steps;
        }
        let next = platform_specific_setup(current, outcomes[i]);
        steps.push(next);
        i += 1;
    }
}

#[test]
fn the_privilege_setup_step_by_step() {
    let debug = Privilege::Debug;
    let priority = Privilege::IncreaseBasePriority;
    assert_eq!(
        run_setup(&[true, true, true, true, true, true]),
        vec![
            SetupStep::OpenProcessToken,
            SetupStep::LookupPrivilege(debug),
            SetupStep::AdjustPrivilege(debug),
            SetupStep::LookupPrivilege(priority),
            SetupStep::AdjustPrivilege(priority),
            SetupStep::CloseToken,
            SetupStep::Done
        ]
    );
    assert_eq!(run_setup(&[false]), vec![SetupStep::OpenProcessToken, SetupStep::Done]);
    assert_eq!(
        run_setup(&[true, false, false, true]),
        vec![
            SetupStep::OpenProcessToken,
            SetupStep::LookupPrivilege(debug),
            SetupStep::LookupPrivilege(priority),
            SetupStep::CloseToken,
            SetupStep::Done
        ]
    );
    assert_eq!(
        run_setup(&[true, true, false, true, false, false]),
        vec![
            SetupStep::OpenProcessToken,
            SetupStep::LookupPrivilege(debug),
            SetupStep::AdjustPrivilege(debug),
            SetupStep::LookupPrivilege(priority),
            SetupStep::AdjustPrivilege(priority),
            SetupStep::CloseToken,
            SetupStep::Done
        ]
    );
    assert_eq!(platform_specific_setup(SetupStep::Done, true), SetupStep::Done);
    assert!(failure_is_reported(SetupStep::AdjustPrivilege(debug)));
    assert!(failure_is_reported(SetupStep::AdjustPrivilege(priority)));
    assert!(!failure_is_reported(SetupStep::LookupPrivilege(debug)));
    assert!(!failure_is_reported(SetupStep::OpenProcessToken));
    assert!(!failure_is_reported(SetupStep::CloseToken));
}

#[test]
fn the_main_loop_is_quit_and_joined_once() {
    let mut glib_loop = LinuxGlibLoop::new();
    assert_eq!(glib_loop.teardown(true), LoopTeardown { quit: true, join: true });
    assert_eq!(glib_loop.teardown(false), LoopTeardown { quit: false, join: false });
    let mut stopped = LinuxGlibLoop::new();
    assert_eq!(stopped.teardown(false), LoopTeardown { quit: false, join: true });
    assert_eq!(LinuxGlibLoop::after_join(false), JoinVerdict::Clean);
    assert_eq!(LinuxGlibLoop::after_join(true), JoinVerdict::Logged);
}

#[test]
fn paths_of_an_engine_beside_the_application() {
    let paths = StartupPathsBuilder::portable("/opt/app").build();
    assert_eq!(paths.libobs_data_path().as_str(), "/opt/app/data/libobs");
    assert_eq!(paths.plugin_bin_path().as_str(), "/opt/app/obs-plugins/64bit");
    assert_eq!(paths.plugin_data_path().as_str(), "/opt/app/data/obs-plugins/%module%");
}
