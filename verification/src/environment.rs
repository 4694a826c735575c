//! A discovered Python environment: the paths the simulator's Python
//! ships under, the parsed version, and which package the environment
//! came from.
//!
//! Paths are plain `/`-separated strings.  Whether a path exists on disk,
//! and as what, is the caller's to find out; [`PythonEnvironment::validate`]
//! takes those findings as a [`EnvironmentProbe`] and applies the checks
//! in a fixed order.

use vstd::prelude::*;
use vstd::string::*;

use crate::error::DiscoveryError;
use crate::text::{dec_str_u32, path_join, spec_dec_digits, spec_join};
use crate::version::PythonVersion;

verus! {

/// Which package the Python environment was found in.
#[derive(Debug, Clone, Copy, PartialEq, Eq, Structural)]
pub enum PackageSource {
    /// Found in the bundled simulator base package.
    Bundled,
    /// Found in the separate Python package shipped beside newer bases.
    SeparatePackage,
}

/// What a path turned out to be when probed on disk.
#[derive(Debug, Clone, Copy, PartialEq, Eq, Structural)]
pub enum PathKind {
    /// Nothing exists at the path.
    Missing,
    /// A regular file.
    File,
    /// A directory.
    Directory,
    /// Something else (a device, a dangling link, ...).
    Other,
}

/// The probe results validation consumes: what each of the environment's
/// paths turned out to be.
#[derive(Debug, Clone, Copy, PartialEq, Eq, Structural)]
pub struct EnvironmentProbe {
    /// What the mini-python path is.
    pub mini_python: PathKind,
    /// What the include directory path is.
    pub include_dir: PathKind,
    /// What the library directory path is.
    pub lib_dir: PathKind,
    /// What the library file path is.
    pub lib_path: PathKind,
}

/// Complete Python environment information.
#[derive(Debug, Clone, PartialEq, Eq)]
pub struct PythonEnvironment {
    /// Path to the mini-python executable.
    pub mini_python: String,
    /// Path to the Python include directory (the `python3.X`
    /// subdirectory).
    pub include_dir: String,
    /// Include flag for C compilation, e.g.
    /// `-I/path/to/include/python3.9`.
    pub include_flag: String,
    /// Directory holding the `libpython*.so` files.
    pub lib_dir: String,
    /// Full path to the specific `libpython*.so` file.
    pub lib_path: String,
    /// Directory holding the `python3.lib` import library (Windows
    /// hosts); mirrors `lib_dir` elsewhere and is unused there.
    pub import_lib_dir: String,
    /// The parsed Python version.
    pub version: PythonVersion,
    /// Which package the environment was found in.
    pub package_source: PackageSource,
}

impl PackageSource {
    /// The name of this source.
    pub open spec fn spec_name(self) -> Seq<char> {
        match self {
            PackageSource::Bundled => "Bundled"@,
            PackageSource::SeparatePackage => "SeparatePackage"@,
        }
    }

    /// Render the name of this source.
    pub fn name(&self) -> (r: &'static str)
        ensures
            r@ == self.spec_name(),
    {
        match self {
            PackageSource::Bundled => "Bundled",
            PackageSource::SeparatePackage => "SeparatePackage",
        }
    }
}

/// Whether two environments hold the same data.
pub open spec fn env_eq(a: PythonEnvironment, b: PythonEnvironment) -> bool {
    &&& a.mini_python@ == b.mini_python@
    &&& a.include_dir@ == b.include_dir@
    &&& a.include_flag@ == b.include_flag@
    &&& a.lib_dir@ == b.lib_dir@
    &&& a.lib_path@ == b.lib_path@
    &&& a.import_lib_dir@ == b.import_lib_dir@
    &&& a.version == b.version
    &&& a.package_source == b.package_source
}

impl PythonEnvironment {
    /// Assemble an environment; the include flag is derived as `-I`
    /// followed by the include directory.
    pub fn new(
        mini_python: String,
        include_dir: String,
        lib_dir: String,
        lib_path: String,
        import_lib_dir: String,
        version: PythonVersion,
        package_source: PackageSource,
    ) -> (r: PythonEnvironment)
        ensures
            r.mini_python == mini_python,
            r.include_dir == include_dir,
            r.include_flag@ == "-I"@ + include_dir@,
            r.lib_dir == lib_dir,
            r.lib_path == lib_path,
            r.import_lib_dir == import_lib_dir,
            r.version == version,
            r.package_source == package_source,
    {
        let mut include_flag = "-I".to_owned();
        include_flag.append(include_dir.as_str());
        PythonEnvironment {
            mini_python,
            include_dir,
            include_flag,
            lib_dir,
            lib_path,
            import_lib_dir,
            version,
            package_source,
        }
    }

    /// The same environment with its package source replaced.
    pub fn with_source(self, source: PackageSource) -> (r: PythonEnvironment)
        ensures
            r == (PythonEnvironment { package_source: source, ..self }),
    {
        PythonEnvironment { package_source: source, ..self }
    }

    /// Check the probed kinds of the environment's paths, in a fixed
    /// order: the mini-python executable must be a file, the include
    /// directory a directory, the library directory a directory, and the
    /// library path a file.  The first failing check decides the error.
    pub fn validate(&self, probe: &EnvironmentProbe) -> (r: Result<(), DiscoveryError>)
        ensures
            r is Ok <==> (probe.mini_python is File && probe.include_dir is Directory
                && probe.lib_dir is Directory && probe.lib_path is File),
            probe.mini_python is Missing ==> (r matches Result::Err(
                DiscoveryError::MiniPythonMissing { path },
            ) && path@ == self.mini_python@),
            (!(probe.mini_python is Missing) && !(probe.mini_python is File)) ==> (r matches
                Result::Err(DiscoveryError::MiniPythonNotFile { path }) && path@
                == self.mini_python@),
            (probe.mini_python is File && probe.include_dir is Missing) ==> (r matches Result::Err(
                DiscoveryError::IncludeDirMissing { path },
            ) && path@ == self.include_dir@),
            (probe.mini_python is File && !(probe.include_dir is Missing) && !(probe.include_dir
                is Directory)) ==> (r matches Result::Err(
                DiscoveryError::IncludeDirNotDirectory { path },
            ) && path@ == self.include_dir@),
            (probe.mini_python is File && probe.include_dir is Directory && probe.lib_dir
                is Missing) ==> (r matches Result::Err(DiscoveryError::LibDirMissing { path })
                && path@ == self.lib_dir@),
            (probe.mini_python is File && probe.include_dir is Directory && !(probe.lib_dir
                is Missing) && !(probe.lib_dir is Directory)) ==> (r matches Result::Err(
                DiscoveryError::LibDirNotDirectory { path },
            ) && path@ == self.lib_dir@),
            (probe.mini_python is File && probe.include_dir is Directory && probe.lib_dir
                is Directory && probe.lib_path is Missing) ==> (r matches Result::Err(
                DiscoveryError::LibFileMissing { path },
            ) && path@ == self.lib_path@),
            (probe.mini_python is File && probe.include_dir is Directory && probe.lib_dir
                is Directory && !(probe.lib_path is Missing) && !(probe.lib_path is File)) ==> (r
                matches Result::Err(DiscoveryError::LibFileNotFile { path }) && path@
                == self.lib_path@),
    {
        if matches!(probe.mini_python, PathKind::Missing) {
            return Result::Err(
                DiscoveryError::MiniPythonMissing { path: self.mini_python.clone() },
            );
        }
        if !matches!(probe.mini_python, PathKind::File) {
            return Result::Err(
                DiscoveryError::MiniPythonNotFile { path: self.mini_python.clone() },
            );
        }
        if matches!(probe.include_dir, PathKind::Missing) {
            return Result::Err(
                DiscoveryError::IncludeDirMissing { path: self.include_dir.clone() },
            );
        }
        if !matches!(probe.include_dir, PathKind::Directory) {
            return Result::Err(
                DiscoveryError::IncludeDirNotDirectory { path: self.include_dir.clone() },
            );
        }
        if matches!(probe.lib_dir, PathKind::Missing) {
            return Result::Err(DiscoveryError::LibDirMissing { path: self.lib_dir.clone() });
        }
        if !matches!(probe.lib_dir, PathKind::Directory) {
            return Result::Err(DiscoveryError::LibDirNotDirectory { path: self.lib_dir.clone() });
        }
        if matches!(probe.lib_path, PathKind::Missing) {
            return Result::Err(DiscoveryError::LibFileMissing { path: self.lib_path.clone() });
        }
        if !matches!(probe.lib_path, PathKind::File) {
            return Result::Err(DiscoveryError::LibFileNotFile { path: self.lib_path.clone() });
        }
        Result::Ok(())
    }

    /// The Python major version, rendered in decimal.
    pub fn major_version_str(&self) -> (r: String)
        ensures
            r@ == spec_dec_digits(self.version.major as int),
    {
        dec_str_u32(self.version.major)
    }

    /// The Python minor version, rendered in decimal.
    pub fn minor_version_str(&self) -> (r: String)
        ensures
            r@ == spec_dec_digits(self.version.minor as int),
    {
        dec_str_u32(self.version.minor)
    }

    /// The `Py_LIMITED_API` define for C compilation:
    /// `-DPy_LIMITED_API=` followed by the version's hex value.
    pub fn py_limited_api_define(&self) -> (r: String)
        ensures
            r@ == "-DPy_LIMITED_API="@ + self.version.spec_py_limited_api_hex(),
    {
        let mut r = "-DPy_LIMITED_API=".to_owned();
        let hex = self.version.py_limited_api_hex();
        r.append(hex.as_str());
        r
    }

    /// The path of the `python3.lib` import library under the import
    /// library directory.
    pub fn import_lib_path(&self) -> (r: String)
        ensures
            r@ == spec_join(self.import_lib_dir@, "python3.lib"@),
    {
        path_join(self.import_lib_dir.as_str(), "python3.lib")
    }

    /// The one-line summary [`Self::describe`] renders.
    pub open spec fn spec_describe(self) -> Seq<char> {
        "PythonEnvironment { version: "@ + self.version.spec_display() + ", source: "@
            + self.package_source.spec_name() + ", mini_python: "@ + self.mini_python@
            + ", include: "@ + self.include_dir@ + ", lib: "@ + self.lib_path@ + ", import_lib: "@
            + self.import_lib_dir@ + " }"@
    }

    /// Render the environment as one line, for logs and diagnostics.
    pub fn describe(&self) -> (r: String)
        ensures
            r@ == self.spec_describe(),
    {
        let mut r = "PythonEnvironment { version: ".to_owned();
        let version = self.version.to_version_string();
        r.append(version.as_str());
        r.append(", source: ");
        r.append(self.package_source.name());
        r.append(", mini_python: ");
        r.append(self.mini_python.as_str());
        r.append(", include: ");
        r.append(self.include_dir.as_str());
        r.append(", lib: ");
        r.append(self.lib_path.as_str());
        r.append(", import_lib: ");
        r.append(self.import_lib_dir.as_str());
        r.append(" }");
        r
    }

    /// The file name of the library path (its part after the last `/`),
    /// or an error when the path has no usable final component.
    pub fn lib_filename(&self) -> (r: Result<String, DiscoveryError>)
        ensures
            match crate::text::spec_file_name(self.lib_path@) {
                Option::Some(n) => r matches Result::Ok(f) && f@ == n,
                Option::None => r matches Result::Err(
                    DiscoveryError::LibFilenameUnavailable { path },
                ) && path@ == self.lib_path@,
            },
    {
        match crate::text::path_file_name(self.lib_path.as_str()) {
            Option::Some(f) => Result::Ok(f),
            Option::None => Result::Err(
                DiscoveryError::LibFilenameUnavailable { path: self.lib_path.clone() },
            ),
        }
    }
}

} // verus!
