//! The name-level logic of the Python environment search: reading the
//! simulator major version off the base directory name, picking the one
//! `python*` include subdirectory, picking the one `libpython*` library
//! file, choosing the newest installed Python package, and combining the
//! two discovery strategies.
//!
//! Everything here works on plain names and lists of names; reading
//! directories, probing paths and querying the package manager is the
//! caller's work.

use vstd::prelude::*;
use vstd::string::*;

use crate::environment::{env_eq, PackageSource, PythonEnvironment};
use crate::error::DiscoveryError;
use crate::requirement::{version_at_least, version_geq};
use crate::text::{
    clone_strings, dec_str_u32, parse_u32, path_file_name, path_join, spec_dec_digits,
    spec_ends_with, spec_file_name, spec_join, spec_split, spec_starts_with, split_string,
    str_eq, str_ends_with, str_starts_with, str_views, u32_numeral_val, is_u32_numeral,
};

verus! {

/// The name of the binary/library/object subdirectory of a base package.
pub const HOST_DIRNAME: &'static str = "linux64";

/// Environment variable name for a Python include path override.
pub const PYTHON3_INCLUDE_ENV: &'static str = "PYTHON3_INCLUDE";

/// Environment variable name for a Python library path override.
pub const PYTHON3_LDFLAGS_ENV: &'static str = "PYTHON3_LDFLAGS";

/// The package number under which the separate Python package ships.
pub const PYTHON_PACKAGE_NUMBER: i64 = 1033;

/// The subsequence of `s` whose elements satisfy `pred`, in order.
pub open spec fn matching<A>(s: Seq<A>, pred: spec_fn(A) -> bool) -> Seq<A>
    decreases s.len(),
{
    if s.len() == 0 {
        Seq::empty()
    } else {
        let rest = matching(s.drop_last(), pred);
        if pred(s.last()) {
            rest.push(s.last())
        } else {
            rest
        }
    }
}

/// Read the simulator major version off the base directory name: the
/// final path component must look like `simics-7.38.0`, and the number
/// between `simics-` and the first `.` is the major version.
pub fn detect_simics_major_version_from_base(simics_base: &str) -> (r: Result<
    u32,
    DiscoveryError,
>)
    ensures
        match spec_file_name(simics_base@) {
            Option::Some(n) => if spec_starts_with(n, "simics-"@) && is_u32_numeral(
                spec_split(n.skip("simics-"@.len() as int), '.').first(),
            ) {
                r matches Result::Ok(v) && v == u32_numeral_val(
                    spec_split(n.skip("simics-"@.len() as int), '.').first(),
                )
            } else {
                r matches Result::Err(DiscoveryError::BadSimicsBasePath { path }) && path@
                    == simics_base@
            },
            Option::None => r matches Result::Err(DiscoveryError::BadSimicsBasePath { path })
                && path@ == simics_base@,
        },
{
    let name = match path_file_name(simics_base) {
        Option::None => {
            return Result::Err(DiscoveryError::BadSimicsBasePath { path: simics_base.to_owned() });
        },
        Option::Some(n) => n,
    };
    if !str_starts_with(name.as_str(), "simics-") {
        return Result::Err(DiscoveryError::BadSimicsBasePath { path: simics_base.to_owned() });
    }
    proof {
        reveal_strlit("simics-");
    }
    let name_len = name.as_str().unicode_len();
    let version_part = name.as_str().substring_char(7, name_len);
    proof {
        assert(version_part@ =~= name@.skip("simics-"@.len() as int));
    }
    let comps = split_string(version_part, '.');
    proof {
        assert(str_views(comps@)[0] == comps@[0]@);
    }
    match parse_u32(comps[0].as_str()) {
        Option::Some(v) => Result::Ok(v),
        Option::None => Result::Err(
            DiscoveryError::BadSimicsBasePath { path: simics_base.to_owned() },
        ),
    }
}

/// Where the mini-python executable lives under a host subdirectory.
pub fn mini_python_path(base_path: &str) -> (r: String)
    ensures
        r@ == spec_join(spec_join(base_path@, "bin"@), "mini-python"@),
{
    let bin = path_join(base_path, "bin");
    path_join(bin.as_str(), "mini-python")
}

/// The include path named by an override variable: a leading `-I` flag
/// prefix is dropped, anything else is kept as written.
pub fn strip_include_flag(value: &str) -> (r: String)
    ensures
        r@ == (if spec_starts_with(value@, "-I"@) {
            value@.skip("-I"@.len() as int)
        } else {
            value@
        }),
{
    if str_starts_with(value, "-I") {
        proof {
            reveal_strlit("-I");
        }
        let n = value.unicode_len();
        value.substring_char(2, n).to_owned()
    } else {
        value.to_owned()
    }
}

/// The entries of `names` that start with `python`.
pub open spec fn python_dir_candidates(names: Seq<Seq<char>>) -> Seq<Seq<char>> {
    matching(names, |s: Seq<char>| spec_starts_with(s, "python"@))
}

/// Pick the one `python*` entry out of the subdirectory names of
/// `include_dir`.  `dir_names` holds the names of the entries of
/// `include_dir` that are themselves directories; reading the directory
/// is the caller's work.  None of them, or more than one, is an error.
pub fn select_python_subdir(include_dir: &str, dir_names: &Vec<String>) -> (r: Result<
    String,
    DiscoveryError,
>)
    ensures
        ({
            let cands = python_dir_candidates(str_views(dir_names@));
            if cands.len() == 0 {
                r matches Result::Err(DiscoveryError::NoPythonSubdir { dir }) && dir@
                    == include_dir@
            } else if cands.len() == 1 {
                r matches Result::Ok(name) && name@ == cands[0]
            } else {
                r matches Result::Err(DiscoveryError::MultiplePythonSubdirs { dir }) && dir@
                    == include_dir@
            }
        }),
{
    let ghost nv = str_views(dir_names@);
    let mut found: Vec<String> = Vec::new();
    let mut i: usize = 0;
    proof {
        assert(nv.take(0) =~= Seq::<Seq<char>>::empty());
        assert(str_views(found@) =~= python_dir_candidates(nv.take(0)));
    }
    while i < dir_names.len()
        invariant
            i <= dir_names@.len(),
            nv == str_views(dir_names@),
            str_views(found@) == python_dir_candidates(nv.take(i as int)),
        decreases dir_names@.len() - i,
    {
        proof {
            assert(nv.take(i + 1).drop_last() =~= nv.take(i as int));
            assert(nv.take(i + 1).last() == dir_names@[i as int]@);
        }
        if str_starts_with(dir_names[i].as_str(), "python") {
            found.push(dir_names[i].clone());
            proof {
                assert(str_views(found@) =~= str_views(found@.drop_last()).push(
                    dir_names@[i as int]@,
                ));
            }
        }
        i += 1;
    }
    proof {
        assert(nv.take(dir_names@.len() as int) =~= nv);
    }
    if found.len() == 0 {
        Result::Err(DiscoveryError::NoPythonSubdir { dir: include_dir.to_owned() })
    } else if found.len() == 1 {
        proof {
            assert(str_views(found@)[0] == found@[0]@);
        }
        Result::Ok(found[0].clone())
    } else {
        Result::Err(DiscoveryError::MultiplePythonSubdirs { dir: include_dir.to_owned() })
    }
}

/// The entries of `names` that start with `libpython`.
pub open spec fn libpython_all(names: Seq<Seq<char>>) -> Seq<Seq<char>> {
    matching(names, |s: Seq<char>| spec_starts_with(s, "libpython"@))
}

/// The `libpython*` entries left after the narrowing cascade: when more
/// than one `libpython*` entry is present, the generic `libpython3.so`
/// link is dropped; when still more than one is left, the plain `.so`
/// names are dropped in favour of fully versioned ones.
pub open spec fn libpython_candidates(names: Seq<Seq<char>>) -> Seq<Seq<char>> {
    let l1 = libpython_all(names);
    let l2 = if l1.len() > 1 {
        matching(l1, |s: Seq<char>| s != "libpython3.so"@)
    } else {
        l1
    };
    if l2.len() > 1 {
        matching(l2, |s: Seq<char>| !spec_ends_with(s, ".so"@))
    } else {
        l2
    }
}

/// Pick the one `libpython*` entry out of the file names of `lib_dir`,
/// narrowing as [`libpython_candidates`] describes.  `file_names` holds
/// the names of the entries of `lib_dir` that are regular files; reading
/// the directory is the caller's work.
pub fn select_libpython(lib_dir: &str, file_names: &Vec<String>) -> (r: Result<
    String,
    DiscoveryError,
>)
    ensures
        ({
            let cands = libpython_candidates(str_views(file_names@));
            if cands.len() == 0 {
                r matches Result::Err(DiscoveryError::NoLibPython { dir }) && dir@ == lib_dir@
            } else if cands.len() == 1 {
                r matches Result::Ok(name) && name@ == cands[0]
            } else {
                r matches Result::Err(DiscoveryError::MultipleLibPython { dir }) && dir@
                    == lib_dir@
            }
        }),
{
    let ghost nv = str_views(file_names@);
    let mut stage1: Vec<String> = Vec::new();
    let mut i: usize = 0;
    proof {
        assert(nv.take(0) =~= Seq::<Seq<char>>::empty());
        assert(str_views(stage1@) =~= libpython_all(nv.take(0)));
    }
    while i < file_names.len()
        invariant
            i <= file_names@.len(),
            nv == str_views(file_names@),
            str_views(stage1@) == libpython_all(nv.take(i as int)),
        decreases file_names@.len() - i,
    {
        proof {
            assert(nv.take(i + 1).drop_last() =~= nv.take(i as int));
            assert(nv.take(i + 1).last() == file_names@[i as int]@);
        }
        if str_starts_with(file_names[i].as_str(), "libpython") {
            stage1.push(file_names[i].clone());
            proof {
                assert(str_views(stage1@) =~= str_views(stage1@.drop_last()).push(
                    file_names@[i as int]@,
                ));
            }
        }
        i += 1;
    }
    proof {
        assert(nv.take(file_names@.len() as int) =~= nv);
    }

    let ghost l1 = libpython_all(nv);
    let stage2: Vec<String> = if stage1.len() > 1 {
        let mut kept: Vec<String> = Vec::new();
        let mut j: usize = 0;
        proof {
            assert(l1.take(0) =~= Seq::<Seq<char>>::empty());
            assert(str_views(kept@) =~= matching(
                l1.take(0),
                |s: Seq<char>| s != "libpython3.so"@,
            ));
        }
        while j < stage1.len()
            invariant
                j <= stage1@.len(),
                l1 == str_views(stage1@),
                str_views(kept@) == matching(l1.take(j as int), |s: Seq<char>| s != "libpython3.so"@),
            decreases stage1@.len() - j,
        {
            proof {
                assert(l1.take(j + 1).drop_last() =~= l1.take(j as int));
                assert(l1.take(j + 1).last() == stage1@[j as int]@);
            }
            if !str_eq(stage1[j].as_str(), "libpython3.so") {
                kept.push(stage1[j].clone());
                proof {
                    assert(str_views(kept@) =~= str_views(kept@.drop_last()).push(
                        stage1@[j as int]@,
                    ));
                }
            }
            j += 1;
        }
        proof {
            assert(l1.take(stage1@.len() as int) =~= l1);
        }
        kept
    } else {
        stage1
    };

    let ghost l2 = if l1.len() > 1 {
        matching(l1, |s: Seq<char>| s != "libpython3.so"@)
    } else {
        l1
    };
    proof {
        assert(str_views(stage2@) == l2);
    }

    let stage3: Vec<String> = if stage2.len() > 1 {
        let mut kept: Vec<String> = Vec::new();
        let mut j: usize = 0;
        proof {
            assert(l2.take(0) =~= Seq::<Seq<char>>::empty());
            assert(str_views(kept@) =~= matching(
                l2.take(0),
                |s: Seq<char>| !spec_ends_with(s, ".so"@),
            ));
        }
        while j < stage2.len()
            invariant
                j <= stage2@.len(),
                l2 == str_views(stage2@),
                str_views(kept@) == matching(
                    l2.take(j as int),
                    |s: Seq<char>| !spec_ends_with(s, ".so"@),
                ),
            decreases stage2@.len() - j,
        {
            proof {
                assert(l2.take(j + 1).drop_last() =~= l2.take(j as int));
                assert(l2.take(j + 1).last() == stage2@[j as int]@);
            }
            if !str_ends_with(stage2[j].as_str(), ".so") {
                kept.push(stage2[j].clone());
                proof {
                    assert(str_views(kept@) =~= str_views(kept@.drop_last()).push(
                        stage2@[j as int]@,
                    ));
                }
            }
            j += 1;
        }
        proof {
            assert(l2.take(stage2@.len() as int) =~= l2);
        }
        kept
    } else {
        stage2
    };

    proof {
        assert(str_views(stage3@) == libpython_candidates(nv));
    }
    if stage3.len() == 0 {
        Result::Err(DiscoveryError::NoLibPython { dir: lib_dir.to_owned() })
    } else if stage3.len() == 1 {
        proof {
            assert(str_views(stage3@)[0] == stage3@[0]@);
        }
        Result::Ok(stage3[0].clone())
    } else {
        Result::Err(DiscoveryError::MultipleLibPython { dir: lib_dir.to_owned() })
    }
}

/// An installed package, as the package manager lists it.
#[derive(Debug, Clone, PartialEq, Eq)]
pub struct InstalledPackage {
    /// The package number.
    pub package_number: i64,
    /// The package name.
    pub name: String,
    /// The package version.
    pub version: String,
    /// Paths to this installed package.
    pub paths: Vec<String>,
}

/// Whether two packages hold the same data.
pub open spec fn pkg_eq(a: InstalledPackage, b: InstalledPackage) -> bool {
    &&& a.package_number == b.package_number
    &&& a.name@ == b.name@
    &&& a.version@ == b.version@
    &&& a.paths@ == b.paths@
}

/// Whether `p` is a Python package for the given simulator major
/// version: the Python package number, the name `Python`, and a version
/// starting `major.`.
pub open spec fn is_python_package_for(p: InstalledPackage, major: int) -> bool {
    &&& p.package_number == 1033
    &&& p.name@ == "Python"@
    &&& spec_starts_with(p.version@, spec_dec_digits(major) + "."@)
}

/// The packages that are Python packages for the given major version.
pub open spec fn python_package_candidates(
    pkgs: Seq<InstalledPackage>,
    major: int,
) -> Seq<InstalledPackage> {
    matching(pkgs, |p: InstalledPackage| is_python_package_for(p, major))
}

/// The package a left-to-right fold keeps as newest: each package
/// replaces the best so far when its version is at least the best's
/// under the version order, so the last of equally new packages wins.
pub open spec fn latest_of(pkgs: Seq<InstalledPackage>) -> InstalledPackage
    recommends
        pkgs.len() > 0,
    decreases pkgs.len(),
{
    if pkgs.len() <= 1 {
        pkgs[0]
    } else {
        let best = latest_of(pkgs.drop_last());
        if version_geq(pkgs.last().version@, best.version@) {
            pkgs.last()
        } else {
            best
        }
    }
}

/// Copy a package.
fn clone_package(p: &InstalledPackage) -> (r: InstalledPackage)
    ensures
        pkg_eq(r, *p),
{
    InstalledPackage {
        package_number: p.package_number,
        name: p.name.clone(),
        version: p.version.clone(),
        paths: clone_strings(&p.paths),
    }
}

/// Pick the newest installed Python package for the given simulator
/// major version: among the packages with the Python package number, the
/// name `Python` and a version starting `major.`, the one
/// [`latest_of`] keeps; an error when there is none.
pub fn select_latest_python_package(
    packages: &Vec<InstalledPackage>,
    simics_major_version: u32,
) -> (r: Result<InstalledPackage, DiscoveryError>)
    ensures
        ({
            let cands = python_package_candidates(packages@, simics_major_version as int);
            if cands.len() == 0 {
                r matches Result::Err(DiscoveryError::NoPythonPackages { major_version })
                    && major_version == simics_major_version
            } else {
                r matches Result::Ok(p) && pkg_eq(p, latest_of(cands))
            }
        }),
{
    let ghost cands = python_package_candidates(packages@, simics_major_version as int);
    let mut major_prefix = dec_str_u32(simics_major_version);
    major_prefix.append(".");

    let mut idxs: Vec<usize> = Vec::new();
    let mut i: usize = 0;
    proof {
        assert(packages@.take(0) =~= Seq::<InstalledPackage>::empty());
        assert(idxs@.map_values(|j: usize| packages@[j as int]) =~= python_package_candidates(
            packages@.take(0),
            simics_major_version as int,
        ));
    }
    while i < packages.len()
        invariant
            i <= packages@.len(),
            major_prefix@ == spec_dec_digits(simics_major_version as int) + "."@,
            forall|k: int| 0 <= k < idxs@.len() ==> idxs@[k] < i,
            idxs@.map_values(|j: usize| packages@[j as int]) == python_package_candidates(
                packages@.take(i as int),
                simics_major_version as int,
            ),
        decreases packages@.len() - i,
    {
        proof {
            assert(packages@.take(i + 1).drop_last() =~= packages@.take(i as int));
            assert(packages@.take(i + 1).last() == packages@[i as int]);
        }
        let p = &packages[i];
        if p.package_number == 1033 && str_eq(p.name.as_str(), "Python") && str_starts_with(
            p.version.as_str(),
            major_prefix.as_str(),
        ) {
            idxs.push(i);
            proof {
                assert(idxs@.map_values(|j: usize| packages@[j as int]) =~= idxs@.drop_last()
                    .map_values(|j: usize| packages@[j as int]).push(packages@[i as int]));
            }
        }
        i += 1;
    }
    proof {
        assert(packages@.take(packages@.len() as int) =~= packages@);
    }

    if idxs.len() == 0 {
        return Result::Err(
            DiscoveryError::NoPythonPackages { major_version: simics_major_version },
        );
    }

    let mut best: usize = idxs[0];
    let mut k: usize = 1;
    proof {
        assert(cands.take(1).len() == 1);
        assert(cands.take(1)[0] == cands[0]);
        assert(cands[0] == packages@[idxs@[0] as int]);
        assert(packages@[best as int] == latest_of(cands.take(1)));
    }
    while k < idxs.len()
        invariant
            1 <= k <= idxs@.len(),
            forall|m: int| 0 <= m < idxs@.len() ==> idxs@[m] < packages@.len(),
            cands == idxs@.map_values(|j: usize| packages@[j as int]),
            best < packages@.len(),
            packages@[best as int] == latest_of(cands.take(k as int)),
        decreases idxs@.len() - k,
    {
        proof {
            assert(cands.take(k + 1).drop_last() =~= cands.take(k as int));
            assert(cands.take(k + 1).last() == cands[k as int]);
            assert(cands[k as int] == packages@[idxs@[k as int] as int]);
        }
        let j = idxs[k];
        if version_at_least(packages[j].version.as_str(), packages[best].version.as_str()) {
            best = j;
        }
        k += 1;
    }
    proof {
        assert(cands.take(idxs@.len() as int) =~= cands);
    }
    Result::Ok(clone_package(&packages[best]))
}

/// Combine the two discovery strategies the way the search runs them:
/// an environment found in the traditional base-package layout wins and
/// is tagged [`PackageSource::Bundled`]; otherwise one found through
/// dynamic package discovery is tagged
/// [`PackageSource::SeparatePackage`]; when both strategies failed, the
/// error names the traditional location searched and both failures.
pub fn select_discovered_environment(
    simics_base: &str,
    traditional: Result<PythonEnvironment, String>,
    dynamic: Result<PythonEnvironment, String>,
) -> (r: Result<PythonEnvironment, DiscoveryError>)
    ensures
        traditional matches Result::Ok(e) ==> (r matches Result::Ok(out) && env_eq(
            out,
            PythonEnvironment { package_source: PackageSource::Bundled, ..e },
        )),
        traditional is Err ==> (dynamic matches Result::Ok(e) ==> (r matches Result::Ok(out)
            && env_eq(
            out,
            PythonEnvironment { package_source: PackageSource::SeparatePackage, ..e },
        ))),
        traditional matches Result::Err(t) ==> (dynamic matches Result::Err(d) ==> (r matches
            Result::Err(DiscoveryError::EnvironmentNotFound { searched, traditional: t2, dynamic: d2 })
            && searched@ == spec_join(simics_base@, "linux64"@) && t2@ == t@ && d2@ == d@)),
{
    match traditional {
        Result::Ok(e) => Result::Ok(e.with_source(PackageSource::Bundled)),
        Result::Err(traditional_error) => match dynamic {
            Result::Ok(e) => Result::Ok(e.with_source(PackageSource::SeparatePackage)),
            Result::Err(dynamic_error) => Result::Err(
                DiscoveryError::EnvironmentNotFound {
                    searched: path_join(simics_base, HOST_DIRNAME),
                    traditional: traditional_error,
                    dynamic: dynamic_error,
                },
            ),
        },
    }
}

} // verus!
