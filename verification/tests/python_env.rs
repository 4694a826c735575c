use versioned_api::discovery::{
    detect_simics_major_version_from_base, mini_python_path, select_discovered_environment,
    select_latest_python_package, select_libpython, select_python_subdir, strip_include_flag,
    InstalledPackage, HOST_DIRNAME,
};
use versioned_api::environment::{
    EnvironmentProbe, PackageSource, PathKind, PythonEnvironment,
};
use versioned_api::error::DiscoveryError;
use versioned_api::version::PythonVersion;

fn strings(v: &[&str]) -> Vec<String> {
    v.iter().map(|s| s.to_string()).collect()
}

fn sample_environment() -> PythonEnvironment {
    PythonEnvironment::new(
        "/base/linux64/bin/mini-python".to_string(),
        "/base/linux64/include/python3.9".to_string(),
        "/base/linux64/sys/lib".to_string(),
        "/base/linux64/sys/lib/libpython3.9.so.1.0".to_string(),
        "/base/linux64/sys/lib".to_string(),
        PythonVersion::new(3, 9, 10),
        PackageSource::Bundled,
    )
}

fn good_probe() -> EnvironmentProbe {
    EnvironmentProbe {
        mini_python: PathKind::File,
        include_dir: PathKind::Directory,
        lib_dir: PathKind::Directory,
        lib_path: PathKind::File,
    }
}

#[test]
fn test_detect_simics_major_version_from_base() {
    let major = detect_simics_major_version_from_base("/opt/simics/simics-7.38.0").unwrap();
    assert_eq!(major, 7);
}

#[test]
fn detection_ignores_a_trailing_slash() {
    let major = detect_simics_major_version_from_base("/opt/simics/simics-7.38.0/").unwrap();
    assert_eq!(major, 7);
}

#[test]
fn test_detect_simics_major_version_from_base_invalid() {
    let err = detect_simics_major_version_from_base("/opt/simics/current").unwrap_err();
    assert!(err
        .message()
        .contains("expected directory name like simics-x.x.x"));
}

#[test]
fn test_py_limited_api_hex() {
    let version = PythonVersion::new(3, 9, 10);
    assert_eq!(version.py_limited_api_hex(), "0x03090000");

    let version = PythonVersion::new(3, 8, 0);
    assert_eq!(version.py_limited_api_hex(), "0x03080000");
}

#[test]
fn test_parse_from_include_dir() {
    // Two-component version.
    let version = PythonVersion::parse_from_include_dir("/some/path/python3.9").unwrap();
    assert_eq!(version, PythonVersion::new(3, 9, 0));

    // Three-component version.
    let version = PythonVersion::parse_from_include_dir("/some/path/python3.9.10").unwrap();
    assert_eq!(version, PythonVersion::new(3, 9, 10));
}

#[test]
fn test_display() {
    let version = PythonVersion::new(3, 9, 0);
    assert_eq!(version.to_version_string(), "3.9");

    let version = PythonVersion::new(3, 9, 10);
    assert_eq!(version.to_version_string(), "3.9.10");
}

#[test]
fn parse_from_include_dir_ignores_a_trailing_slash() {
    let version = PythonVersion::parse_from_include_dir("/some/path/python3.9/").unwrap();
    assert_eq!(version, PythonVersion::new(3, 9, 0));
}

#[test]
fn parse_from_include_dir_rejects_non_python_names() {
    let err = PythonVersion::parse_from_include_dir("/some/path/ruby3.9").unwrap_err();
    assert_eq!(
        err,
        DiscoveryError::IncludeDirNotPython {
            name: "ruby3.9".to_string(),
        }
    );
}

#[test]
fn parse_from_include_dir_rejects_bad_components() {
    let err = PythonVersion::parse_from_include_dir("/some/path/python3.x").unwrap_err();
    assert_eq!(
        err,
        DiscoveryError::BadVersionComponent {
            component: "x".to_string(),
        }
    );
    assert!(err.message().contains("Failed to parse version component 'x'"));
}

#[test]
fn parse_from_include_dir_rejects_wrong_component_counts() {
    let err = PythonVersion::parse_from_include_dir("/some/path/python3").unwrap_err();
    assert_eq!(
        err,
        DiscoveryError::BadVersionFormat {
            version: "3".to_string(),
        }
    );
    let err = PythonVersion::parse_from_include_dir("/some/path/python3.9.10.1").unwrap_err();
    assert_eq!(
        err,
        DiscoveryError::BadVersionFormat {
            version: "3.9.10.1".to_string(),
        }
    );
}

#[test]
fn parse_from_include_dir_needs_a_final_component() {
    let err = PythonVersion::parse_from_include_dir("/some/path/..").unwrap_err();
    assert_eq!(err, DiscoveryError::IncludeDirNameUnavailable);
}

#[test]
fn environment_derives_the_include_flag() {
    let env = sample_environment();
    assert_eq!(env.include_flag, "-I/base/linux64/include/python3.9");
}

#[test]
fn environment_renders_version_strings_and_defines() {
    let env = sample_environment();
    assert_eq!(env.major_version_str(), "3");
    assert_eq!(env.minor_version_str(), "9");
    assert_eq!(env.py_limited_api_define(), "-DPy_LIMITED_API=0x03090000");
    assert_eq!(env.import_lib_path(), "/base/linux64/sys/lib/python3.lib");
    assert_eq!(env.lib_filename().unwrap(), "libpython3.9.so.1.0");
}

#[test]
fn describing_an_environment_names_every_piece() {
    let env = sample_environment();
    assert_eq!(
        env.describe(),
        "PythonEnvironment { version: 3.9.10, source: Bundled, \
         mini_python: /base/linux64/bin/mini-python, \
         include: /base/linux64/include/python3.9, \
         lib: /base/linux64/sys/lib/libpython3.9.so.1.0, \
         import_lib: /base/linux64/sys/lib }"
    );
}

#[test]
fn lib_filename_ignores_a_trailing_slash() {
    let mut env = sample_environment();
    env.lib_path = "/base/linux64/sys/lib/libpython3.9.so.1.0/".to_string();
    assert_eq!(env.lib_filename().unwrap(), "libpython3.9.so.1.0");
}

#[test]
fn the_mini_python_path_sits_under_bin() {
    assert_eq!(
        mini_python_path("/base/linux64"),
        "/base/linux64/bin/mini-python"
    );
}

#[test]
fn include_overrides_lose_their_flag_prefix() {
    assert_eq!(strip_include_flag("-I/base/include/python3.9"), "/base/include/python3.9");
    assert_eq!(strip_include_flag("/base/include/python3.9"), "/base/include/python3.9");
}

#[test]
fn lib_filename_fails_without_a_final_component() {
    let mut env = sample_environment();
    env.lib_path = "/base/..".to_string();
    assert_eq!(
        env.lib_filename().unwrap_err(),
        DiscoveryError::LibFilenameUnavailable {
            path: "/base/..".to_string(),
        }
    );
}

#[test]
fn with_source_replaces_only_the_source() {
    let env = sample_environment().with_source(PackageSource::SeparatePackage);
    assert_eq!(env.package_source, PackageSource::SeparatePackage);
    assert_eq!(env.version, PythonVersion::new(3, 9, 10));
}

#[test]
fn validation_accepts_a_complete_environment() {
    let env = sample_environment();
    assert_eq!(env.validate(&good_probe()), Ok(()));
}

#[test]
fn validation_reports_the_first_failing_check() {
    let env = sample_environment();

    let mut probe = good_probe();
    probe.mini_python = PathKind::Missing;
    let err = env.validate(&probe).unwrap_err();
    assert_eq!(
        err,
        DiscoveryError::MiniPythonMissing {
            path: env.mini_python.clone(),
        }
    );
    assert!(err.message().starts_with("Mini-python executable not found: "));

    let mut probe = good_probe();
    probe.mini_python = PathKind::Directory;
    assert_eq!(
        env.validate(&probe).unwrap_err(),
        DiscoveryError::MiniPythonNotFile {
            path: env.mini_python.clone(),
        }
    );

    let mut probe = good_probe();
    probe.include_dir = PathKind::Missing;
    assert_eq!(
        env.validate(&probe).unwrap_err(),
        DiscoveryError::IncludeDirMissing {
            path: env.include_dir.clone(),
        }
    );

    let mut probe = good_probe();
    probe.include_dir = PathKind::File;
    assert_eq!(
        env.validate(&probe).unwrap_err(),
        DiscoveryError::IncludeDirNotDirectory {
            path: env.include_dir.clone(),
        }
    );

    let mut probe = good_probe();
    probe.lib_dir = PathKind::Missing;
    assert_eq!(
        env.validate(&probe).unwrap_err(),
        DiscoveryError::LibDirMissing {
            path: env.lib_dir.clone(),
        }
    );

    let mut probe = good_probe();
    probe.lib_dir = PathKind::Other;
    assert_eq!(
        env.validate(&probe).unwrap_err(),
        DiscoveryError::LibDirNotDirectory {
            path: env.lib_dir.clone(),
        }
    );

    let mut probe = good_probe();
    probe.lib_path = PathKind::Missing;
    assert_eq!(
        env.validate(&probe).unwrap_err(),
        DiscoveryError::LibFileMissing {
            path: env.lib_path.clone(),
        }
    );

    let mut probe = good_probe();
    probe.lib_path = PathKind::Directory;
    assert_eq!(
        env.validate(&probe).unwrap_err(),
        DiscoveryError::LibFileNotFile {
            path: env.lib_path.clone(),
        }
    );
}

#[test]
fn one_python_subdirectory_is_selected() {
    let names = strings(&["cheese", "python3.9"]);
    let name = select_python_subdir("/base/include", &names).unwrap();
    assert_eq!(name, "python3.9");
}

#[test]
fn no_python_subdirectory_is_an_error() {
    let err = select_python_subdir("/base/include", &strings(&["cheese"])).unwrap_err();
    assert_eq!(
        err,
        DiscoveryError::NoPythonSubdir {
            dir: "/base/include".to_string(),
        }
    );
    assert!(err.message().contains("No python* subdirectory found in"));
}

#[test]
fn multiple_python_subdirectories_are_an_error() {
    let names = strings(&["python3.9", "python3.10"]);
    let err = select_python_subdir("/base/include", &names).unwrap_err();
    assert_eq!(
        err,
        DiscoveryError::MultiplePythonSubdirs {
            dir: "/base/include".to_string(),
        }
    );
    assert!(err.message().contains("Multiple python* subdirectories"));
}

#[test]
fn one_libpython_file_is_selected() {
    let names = strings(&["libffi.so", "libpython3.9.so.1.0"]);
    let name = select_libpython("/base/sys/lib", &names).unwrap();
    assert_eq!(name, "libpython3.9.so.1.0");
}

#[test]
fn the_generic_libpython_link_is_dropped_first() {
    let names = strings(&["libpython3.so", "libpython3.9.so"]);
    let name = select_libpython("/base/sys/lib", &names).unwrap();
    assert_eq!(name, "libpython3.9.so");
}

#[test]
fn plain_so_names_lose_to_fully_versioned_ones() {
    let names = strings(&["libpython3.9.so", "libpython3.9.so.1.0"]);
    let name = select_libpython("/base/sys/lib", &names).unwrap();
    assert_eq!(name, "libpython3.9.so.1.0");
}

#[test]
fn no_libpython_file_is_an_error() {
    let err = select_libpython("/base/sys/lib", &strings(&["readme.txt"])).unwrap_err();
    assert_eq!(
        err,
        DiscoveryError::NoLibPython {
            dir: "/base/sys/lib".to_string(),
        }
    );
    assert!(err.message().contains("No libpython3.x.so file found in"));
}

#[test]
fn multiple_libpython_files_are_an_error() {
    let names = strings(&["libpython3.9.so.1.0", "libpython3.10.so.1.0"]);
    let err = select_libpython("/base/sys/lib", &names).unwrap_err();
    assert_eq!(
        err,
        DiscoveryError::MultipleLibPython {
            dir: "/base/sys/lib".to_string(),
        }
    );
    assert!(err.message().contains("Multiple libpython files"));
}

#[test]
fn absent_directory_errors_name_their_location() {
    let err = DiscoveryError::IncludeDirAbsent {
        dir: "/base/include".to_string(),
    };
    assert_eq!(err.message(), "Include directory does not exist: /base/include");
    let err = DiscoveryError::LibDirAbsent {
        dir: "/base/sys/lib".to_string(),
    };
    assert_eq!(err.message(), "Library directory does not exist: /base/sys/lib");
}

fn package(number: i64, name: &str, version: &str) -> InstalledPackage {
    InstalledPackage {
        package_number: number,
        name: name.to_string(),
        version: version.to_string(),
        paths: strings(&["/opt/simics/pkg"]),
    }
}

#[test]
fn the_newest_matching_python_package_is_selected() {
    let packages = vec![
        package(1033, "Python", "7.0.0"),
        package(1033, "Python", "7.1.0"),
        package(1033, "Python", "6.0.1"),
        package(1000, "Simics-Base", "7.9.9"),
        package(1033, "NotPython", "7.9.9"),
    ];
    let p = select_latest_python_package(&packages, 7).unwrap();
    assert_eq!(p.version, "7.1.0");
    assert_eq!(p.name, "Python");

    let p = select_latest_python_package(&packages, 6).unwrap();
    assert_eq!(p.version, "6.0.1");
}

#[test]
fn equally_new_packages_resolve_to_the_later_entry() {
    let mut a = package(1033, "Python", "7.1.0");
    a.paths = strings(&["/first"]);
    let mut b = package(1033, "Python", "7.1.0");
    b.paths = strings(&["/second"]);
    let p = select_latest_python_package(&vec![a, b], 7).unwrap();
    assert_eq!(p.paths, strings(&["/second"]));
}

#[test]
fn no_matching_python_package_is_an_error() {
    let packages = vec![package(1000, "Simics-Base", "7.9.9")];
    let err = select_latest_python_package(&packages, 7).unwrap_err();
    assert_eq!(err, DiscoveryError::NoPythonPackages { major_version: 7 });
    assert_eq!(
        err.message(),
        "No Python packages found for Simics major version 7"
    );
}

#[test]
fn traditional_discovery_wins_and_is_tagged_bundled() {
    let env = sample_environment().with_source(PackageSource::SeparatePackage);
    let r = select_discovered_environment(
        "/opt/simics/simics-7.38.0",
        Ok(env),
        Err("unused".to_string()),
    )
    .unwrap();
    assert_eq!(r.package_source, PackageSource::Bundled);
}

#[test]
fn dynamic_discovery_is_second_and_is_tagged_separate_package() {
    let env = sample_environment();
    let r = select_discovered_environment(
        "/opt/simics/simics-7.38.0",
        Err("no traditional layout".to_string()),
        Ok(env),
    )
    .unwrap();
    assert_eq!(r.package_source, PackageSource::SeparatePackage);
}

#[test]
fn failing_both_strategies_reports_both_failures() {
    let err = select_discovered_environment(
        "/opt/simics/simics-7.38.0",
        Err("no mini-python".to_string()),
        Err("ispm empty".to_string()),
    )
    .unwrap_err();
    assert_eq!(
        err,
        DiscoveryError::EnvironmentNotFound {
            searched: format!("/opt/simics/simics-7.38.0/{}", HOST_DIRNAME),
            traditional: "no mini-python".to_string(),
            dynamic: "ispm empty".to_string(),
        }
    );
    let message = err.message();
    assert!(message.contains("Python environment not found in traditional location"));
    assert!(message.contains("Traditional error: no mini-python"));
    assert!(message.contains("Dynamic error: ispm empty"));
}
