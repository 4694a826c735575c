//! Error types: configuration defects and gate refusals on the version
//! gate side, generation-time misuse, and the errors of the Python
//! environment search.

use vstd::prelude::*;
use vstd::string::*;

verus! {

/// A configuration defect discovered while a gate warms up: one of the
/// version strings baked into a declaration does not parse.  Such a defect
/// can never heal at runtime, so callers are expected to treat it as fatal
/// (a startup self-check failure), unlike the ordinary
/// [`UnsupportedCall`] refusal.
#[derive(Debug, Clone, PartialEq, Eq)]
pub enum ConfigDefect {
    /// The resolved version of the running host product is malformed.
    ParseVersion { version: String },
    /// A declared `valid` or `invalid` requirement literal is malformed.
    ParseRequirement { requirement: String },
}

/// The refusal a gated call returns when its gate is closed: the resolved
/// host version together with copies of both requirement lists, so the
/// caller can render a precise diagnostic without re-deriving anything.
#[derive(Debug, Clone, PartialEq, Eq)]
pub struct UnsupportedCall {
    /// The resolved version of the running host product.
    pub version: String,
    /// The declared requirements under which the call is supported.
    pub valid: Vec<String>,
    /// The declared requirements under which the call is unsupported.
    pub invalid: Vec<String>,
}

/// The failure side of the uniform outcome type every gated call returns.
#[derive(Debug, Clone, PartialEq, Eq)]
pub enum Error {
    /// A fatal configuration defect found during gate warm-up.
    Config(ConfigDefect),
    /// The expected steady-state refusal: a closed gate for the
    /// running host version.
    Unsupported(UnsupportedCall),
}

/// A misuse of the wrapper generator that is detectable from the
/// declaration alone; it is reported at generation time and never reaches
/// runtime.
#[derive(Debug, Clone, PartialEq, Eq)]
pub enum GenerateError {
    /// The declared function has a receiver parameter; only free
    /// functions can be gated.
    ReceiverNotSupported,
}

impl GenerateError {
    /// What this generation failure means.
    pub open spec fn spec_message(self) -> Seq<char> {
        "Methods with a receiver are not supported"@
    }

    /// Render the generation failure for a diagnostic.
    pub fn message(&self) -> (r: String)
        ensures
            r@ == self.spec_message(),
    {
        "Methods with a receiver are not supported".to_owned()
    }
}

/// An error of the Python environment search or of environment
/// validation.
#[derive(Debug, Clone, PartialEq, Eq)]
pub enum DiscoveryError {
    /// The mini-python executable is not present.
    MiniPythonMissing { path: String },
    /// The mini-python path exists but is not a regular file.
    MiniPythonNotFile { path: String },
    /// The Python include directory is not present.
    IncludeDirMissing { path: String },
    /// The Python include path exists but is not a directory.
    IncludeDirNotDirectory { path: String },
    /// The Python library directory is not present.
    LibDirMissing { path: String },
    /// The Python library directory path exists but is not a directory.
    LibDirNotDirectory { path: String },
    /// The Python library file is not present.
    LibFileMissing { path: String },
    /// The Python library path exists but is not a regular file.
    LibFileNotFile { path: String },
    /// The library path has no usable final component.
    LibFilenameUnavailable { path: String },
    /// The include directory path has no usable final component.
    IncludeDirNameUnavailable,
    /// The include directory name does not start with `python`.
    IncludeDirNotPython { name: String },
    /// A version component is not a number.
    BadVersionComponent { component: String },
    /// A version string has the wrong number of components.
    BadVersionFormat { version: String },
    /// The include directory that should hold a `python*` subdirectory
    /// does not exist.
    IncludeDirAbsent { dir: String },
    /// No `python*` subdirectory was found.
    NoPythonSubdir { dir: String },
    /// More than one `python*` subdirectory was found.
    MultiplePythonSubdirs { dir: String },
    /// The directory that should hold `libpython*` files does not exist.
    LibDirAbsent { dir: String },
    /// No `libpython*` file was found.
    NoLibPython { dir: String },
    /// More than one `libpython*` file was left after filtering.
    MultipleLibPython { dir: String },
    /// The base path does not name a `simics-<version>` directory.
    BadSimicsBasePath { path: String },
    /// Neither discovery strategy found a Python environment; carries the
    /// traditional location searched and what each strategy reported.
    EnvironmentNotFound { searched: String, traditional: String, dynamic: String },
    /// No installed Python package matches the wanted major version.
    NoPythonPackages { major_version: u32 },
}

impl DiscoveryError {
    /// What this error means, as one line of text.
    pub open spec fn spec_message(self) -> Seq<char> {
        match self {
            DiscoveryError::MiniPythonMissing { path } => "Mini-python executable not found: "@
                + path@,
            DiscoveryError::MiniPythonNotFile { path } => "Mini-python path is not a file: "@
                + path@,
            DiscoveryError::IncludeDirMissing { path } => "Python include directory not found: "@
                + path@,
            DiscoveryError::IncludeDirNotDirectory { path } => {
                "Python include path is not a directory: "@ + path@
            },
            DiscoveryError::LibDirMissing { path } => "Python library directory not found: "@
                + path@,
            DiscoveryError::LibDirNotDirectory { path } => {
                "Python library path is not a directory: "@ + path@
            },
            DiscoveryError::LibFileMissing { path } => "Python library file not found: "@ + path@,
            DiscoveryError::LibFileNotFile { path } => "Python library path is not a file: "@
                + path@,
            DiscoveryError::LibFilenameUnavailable { path } => {
                "Failed to get library filename from "@ + path@
            },
            DiscoveryError::IncludeDirNameUnavailable => {
                "Failed to get include directory filename"@
            },
            DiscoveryError::IncludeDirNotPython { name } => {
                "Include directory name does not start with 'python': "@ + name@
            },
            DiscoveryError::BadVersionComponent { component } => {
                "Failed to parse version component '"@ + component@ + "'"@
            },
            DiscoveryError::BadVersionFormat { version } => "Invalid Python version format '"@
                + version@ + "', expected 'X.Y' or 'X.Y.Z'"@,
            DiscoveryError::IncludeDirAbsent { dir } => "Include directory does not exist: "@
                + dir@,
            DiscoveryError::NoPythonSubdir { dir } => "No python* subdirectory found in "@ + dir@,
            DiscoveryError::MultiplePythonSubdirs { dir } => {
                "Multiple python* subdirectories found in "@ + dir@ + ", expected exactly one"@
            },
            DiscoveryError::LibDirAbsent { dir } => "Library directory does not exist: "@ + dir@,
            DiscoveryError::NoLibPython { dir } => "No libpython3.x.so file found in "@ + dir@,
            DiscoveryError::MultipleLibPython { dir } => "Multiple libpython files found in "@
                + dir@ + ", expected exactly one"@,
            DiscoveryError::BadSimicsBasePath { path } => {
                "Unable to determine Simics major version from SIMICS base path "@ + path@
                    + "; expected directory name like simics-x.x.x"@
            },
            DiscoveryError::NoPythonPackages { major_version } => {
                "No Python packages found for Simics major version "@ + crate::text::spec_dec_digits(
                    major_version as int,
                )
            },
            DiscoveryError::EnvironmentNotFound { searched, traditional, dynamic } => {
                "Python environment not found in traditional location ("@ + searched@
                    + ") or through dynamic package discovery\nTraditional error: "@ + traditional@
                    + "\nDynamic error: "@ + dynamic@
            },
        }
    }

    /// Render the error for a diagnostic.
    pub fn message(&self) -> (r: String)
        ensures
            r@ == self.spec_message(),
    {
        match self {
            DiscoveryError::MiniPythonMissing { path } => {
                let mut r = "Mini-python executable not found: ".to_owned();
                r.append(path.as_str());
                r
            },
            DiscoveryError::MiniPythonNotFile { path } => {
                let mut r = "Mini-python path is not a file: ".to_owned();
                r.append(path.as_str());
                r
            },
            DiscoveryError::IncludeDirMissing { path } => {
                let mut r = "Python include directory not found: ".to_owned();
                r.append(path.as_str());
                r
            },
            DiscoveryError::IncludeDirNotDirectory { path } => {
                let mut r = "Python include path is not a directory: ".to_owned();
                r.append(path.as_str());
                r
            },
            DiscoveryError::LibDirMissing { path } => {
                let mut r = "Python library directory not found: ".to_owned();
                r.append(path.as_str());
                r
            },
            DiscoveryError::LibDirNotDirectory { path } => {
                let mut r = "Python library path is not a directory: ".to_owned();
                r.append(path.as_str());
                r
            },
            DiscoveryError::LibFileMissing { path } => {
                let mut r = "Python library file not found: ".to_owned();
                r.append(path.as_str());
                r
            },
            DiscoveryError::LibFileNotFile { path } => {
                let mut r = "Python library path is not a file: ".to_owned();
                r.append(path.as_str());
                r
            },
            DiscoveryError::LibFilenameUnavailable { path } => {
                let mut r = "Failed to get library filename from ".to_owned();
                r.append(path.as_str());
                r
            },
            DiscoveryError::IncludeDirNameUnavailable => {
                "Failed to get include directory filename".to_owned()
            },
            DiscoveryError::IncludeDirNotPython { name } => {
                let mut r = "Include directory name does not start with 'python': ".to_owned();
                r.append(name.as_str());
                r
            },
            DiscoveryError::BadVersionComponent { component } => {
                let mut r = "Failed to parse version component '".to_owned();
                r.append(component.as_str());
                r.append("'");
                r
            },
            DiscoveryError::BadVersionFormat { version } => {
                let mut r = "Invalid Python version format '".to_owned();
                r.append(version.as_str());
                r.append("', expected 'X.Y' or 'X.Y.Z'");
                r
            },
            DiscoveryError::IncludeDirAbsent { dir } => {
                let mut r = "Include directory does not exist: ".to_owned();
                r.append(dir.as_str());
                r
            },
            DiscoveryError::NoPythonSubdir { dir } => {
                let mut r = "No python* subdirectory found in ".to_owned();
                r.append(dir.as_str());
                r
            },
            DiscoveryError::MultiplePythonSubdirs { dir } => {
                let mut r = "Multiple python* subdirectories found in ".to_owned();
                r.append(dir.as_str());
                r.append(", expected exactly one");
                r
            },
            DiscoveryError::LibDirAbsent { dir } => {
                let mut r = "Library directory does not exist: ".to_owned();
                r.append(dir.as_str());
                r
            },
            DiscoveryError::NoLibPython { dir } => {
                let mut r = "No libpython3.x.so file found in ".to_owned();
                r.append(dir.as_str());
                r
            },
            DiscoveryError::MultipleLibPython { dir } => {
                let mut r = "Multiple libpython files found in ".to_owned();
                r.append(dir.as_str());
                r.append(", expected exactly one");
                r
            },
            DiscoveryError::BadSimicsBasePath { path } => {
                let mut r =
                    "Unable to determine Simics major version from SIMICS base path ".to_owned();
                r.append(path.as_str());
                r.append("; expected directory name like simics-x.x.x");
                r
            },
            DiscoveryError::NoPythonPackages { major_version } => {
                let mut r = "No Python packages found for Simics major version ".to_owned();
                let d = crate::text::dec_str_u32(*major_version);
                r.append(d.as_str());
                r
            },
            DiscoveryError::EnvironmentNotFound { searched, traditional, dynamic } => {
                let mut r = "Python environment not found in traditional location (".to_owned();
                r.append(searched.as_str());
                r.append(") or through dynamic package discovery\nTraditional error: ");
                r.append(traditional.as_str());
                r.append("\nDynamic error: ");
                r.append(dynamic.as_str());
                r
            },
        }
    }
}

} // verus!
