//! The Python version parsed out of an include directory name such as
//! `python3.9` or `python3.9.10`.

use vstd::prelude::*;
use vstd::string::*;

use crate::error::DiscoveryError;
use crate::text::{
    hex2_str_u32, dec_str_u32, is_u32_numeral, parse_u32, path_file_name, spec_dec_digits,
    spec_file_name, spec_hex2, spec_split, spec_starts_with, split_string, str_starts_with,
    str_views, u32_numeral_val,
};

verus! {

/// A Python version: major, minor and patch numbers.
#[derive(Debug, Clone, Copy, PartialEq, Eq, Structural)]
pub struct PythonVersion {
    /// Major version number (e.g., 3).
    pub major: u32,
    /// Minor version number (e.g., 9).
    pub minor: u32,
    /// Patch version number (e.g., 10).
    pub patch: u32,
}

/// The index of the first entry of `comps` that is not a `u32` numeral
/// (`comps.len()` when every entry is one).
pub open spec fn first_bad_component(comps: Seq<Seq<char>>) -> int
    decreases comps.len(),
{
    if comps.len() == 0 {
        0
    } else if !is_u32_numeral(comps.first()) {
        0
    } else {
        1 + first_bad_component(comps.drop_first())
    }
}

proof fn lemma_first_bad_component(comps: Seq<Seq<char>>, j: int)
    requires
        0 <= j <= comps.len(),
        forall|k: int| 0 <= k < j ==> is_u32_numeral(comps[k]),
        j < comps.len() ==> !is_u32_numeral(comps[j]),
    ensures
        j < comps.len() ==> first_bad_component(comps) == j,
        j == comps.len() ==> first_bad_component(comps) == comps.len(),
    decreases comps.len(),
{
    if comps.len() > 0 {
        if j == 0 {
            if j < comps.len() {
                assert(comps.first() == comps[0]);
            }
        } else {
            assert(is_u32_numeral(comps[0]));
            assert(comps.first() == comps[0]);
            let rest = comps.drop_first();
            assert(forall|k: int| 0 <= k < j - 1 ==> #[trigger] rest[k] == comps[k + 1]);
            assert(j - 1 < rest.len() ==> !is_u32_numeral(rest[j - 1]));
            lemma_first_bad_component(rest, j - 1);
        }
    }
}

impl PythonVersion {
    /// A version from its three numbers.
    pub fn new(major: u32, minor: u32, patch: u32) -> (r: PythonVersion)
        ensures
            r == (PythonVersion { major, minor, patch }),
    {
        PythonVersion { major, minor, patch }
    }

    /// The `Py_LIMITED_API` hex value for this version: `0x`, the major
    /// and minor numbers as two-digit lower-case hexadecimal, then
    /// `0000` — the patch number is truncated to zero for API
    /// compatibility.
    pub open spec fn spec_py_limited_api_hex(self) -> Seq<char> {
        "0x"@ + spec_hex2(self.major as int) + spec_hex2(self.minor as int) + "0000"@
    }

    /// Render the `Py_LIMITED_API` hex value, e.g. `0x03090000` for
    /// Python 3.9.10.
    pub fn py_limited_api_hex(&self) -> (r: String)
        ensures
            r@ == self.spec_py_limited_api_hex(),
    {
        let mut r = "0x".to_owned();
        let major_hex = hex2_str_u32(self.major);
        r.append(major_hex.as_str());
        let minor_hex = hex2_str_u32(self.minor);
        r.append(minor_hex.as_str());
        r.append("0000");
        r
    }

    /// The display form: `major.minor`, with `.patch` appended only when
    /// the patch number is non-zero.
    pub open spec fn spec_display(self) -> Seq<char> {
        if self.patch == 0 {
            spec_dec_digits(self.major as int) + "."@ + spec_dec_digits(self.minor as int)
        } else {
            spec_dec_digits(self.major as int) + "."@ + spec_dec_digits(self.minor as int) + "."@
                + spec_dec_digits(self.patch as int)
        }
    }

    /// Render the version for display, as [`Self::spec_display`] gives
    /// it.
    pub fn to_version_string(&self) -> (r: String)
        ensures
            r@ == self.spec_display(),
    {
        let mut r = dec_str_u32(self.major);
        r.append(".");
        let minor = dec_str_u32(self.minor);
        r.append(minor.as_str());
        if self.patch != 0 {
            r.append(".");
            let patch = dec_str_u32(self.patch);
            r.append(patch.as_str());
        }
        proof {
            assert(r@ =~= self.spec_display());
        }
        r
    }

    /// Parse a version from the name of an include directory such as
    /// `/some/path/python3.9` or `/some/path/python3.9.10`: the final
    /// path component must start with `python`, and the rest must be two
    /// or three dot-separated numbers (a missing patch number is zero).
    pub fn parse_from_include_dir(include_dir: &str) -> (r: Result<PythonVersion, DiscoveryError>)
        ensures
            match spec_file_name(include_dir@) {
                Option::None => r == Result::<PythonVersion, DiscoveryError>::Err(
                    DiscoveryError::IncludeDirNameUnavailable,
                ),
                Option::Some(n) => if !spec_starts_with(n, "python"@) {
                    r matches Result::Err(DiscoveryError::IncludeDirNotPython { name }) && name@
                        == n
                } else {
                    let comps = spec_split(n.skip("python"@.len() as int), '.');
                    let bad = first_bad_component(comps);
                    if bad < comps.len() {
                        r matches Result::Err(DiscoveryError::BadVersionComponent { component })
                            && component@ == comps[bad]
                    } else if comps.len() == 2 {
                        r matches Result::Ok(v) && v.major == u32_numeral_val(comps[0]) && v.minor
                            == u32_numeral_val(comps[1]) && v.patch == 0
                    } else if comps.len() == 3 {
                        r matches Result::Ok(v) && v.major == u32_numeral_val(comps[0]) && v.minor
                            == u32_numeral_val(comps[1]) && v.patch == u32_numeral_val(comps[2])
                    } else {
                        r matches Result::Err(DiscoveryError::BadVersionFormat { version })
                            && version@ == n.skip("python"@.len() as int)
                    }
                },
            },
    {
        let name = match path_file_name(include_dir) {
            Option::None => {
                return Result::Err(DiscoveryError::IncludeDirNameUnavailable);
            },
            Option::Some(n) => n,
        };
        if !str_starts_with(name.as_str(), "python") {
            return Result::Err(DiscoveryError::IncludeDirNotPython { name });
        }
        proof {
            reveal_strlit("python");
        }
        let name_len = name.as_str().unicode_len();
        let version_str = name.as_str().substring_char(6, name_len);
        let ghost n = name@;
        proof {
            assert(version_str@ =~= n.skip("python"@.len() as int));
        }
        let comps = split_string(version_str, '.');
        let ghost comp_views = spec_split(n.skip("python"@.len() as int), '.');
        let mut vals: Vec<u32> = Vec::new();
        let mut j: usize = 0;
        while j < comps.len()
            invariant
                j <= comps@.len(),
                vals@.len() == j,
                spec_file_name(include_dir@) == Option::Some(n),
                spec_starts_with(n, "python"@),
                comp_views == spec_split(n.skip("python"@.len() as int), '.'),
                comp_views == str_views(comps@),
                forall|k: int| 0 <= k < j ==> is_u32_numeral(comp_views[k]),
                forall|k: int| 0 <= k < j ==> vals@[k] == u32_numeral_val(comp_views[k]),
            decreases comps@.len() - j,
        {
            match parse_u32(comps[j].as_str()) {
                Option::None => {
                    proof {
                        assert(comp_views[j as int] == comps@[j as int]@);
                        lemma_first_bad_component(comp_views, j as int);
                    }
                    return Result::Err(
                        DiscoveryError::BadVersionComponent { component: comps[j].clone() },
                    );
                },
                Option::Some(v) => {
                    vals.push(v);
                },
            }
            j += 1;
        }
        proof {
            lemma_first_bad_component(comp_views, comp_views.len() as int);
        }
        if vals.len() == 2 {
            Result::Ok(PythonVersion { major: vals[0], minor: vals[1], patch: 0 })
        } else if vals.len() == 3 {
            Result::Ok(PythonVersion { major: vals[0], minor: vals[1], patch: vals[2] })
        } else {
            Result::Err(DiscoveryError::BadVersionFormat { version: version_str.to_owned() })
        }
    }
}

} // verus!
