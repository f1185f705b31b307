//! Home-relative path expansion and the fixed candidate file locations of
//! each configuration tier.

use vstd::prelude::*;
use vstd::string::StrSliceExecFns;
use vstd::string::StringExecFns;

verus! {

/// True of a path that begins with a tilde component (`~` alone, or `~/...`),
/// i.e. one that must be rewritten against the user's home directory before
/// it can be used.
pub open spec fn needs_home(p: Seq<char>) -> bool {
    p.len() >= 1 && p[0] == '~' && (p.len() == 1 || p[1] == '/')
}

/// The path after tilde expansion against `home`: the leading `~` is replaced
/// by `home`; a path without a leading tilde component is left unchanged.
pub open spec fn expanded(p: Seq<char>, home: Seq<char>) -> Seq<char> {
    if needs_home(p) {
        home + p.subrange(1, p.len() as int)
    } else {
        p
    }
}

/// The characters of an optional home directory argument.
pub open spec fn opt_home_view(home: Option<&String>) -> Option<Seq<char>> {
    match home {
        Some(h) => Some(h@),
        None => None,
    }
}

/// What tilde expansion yields: `None` exactly when the path needs a home
/// directory and none is available.
pub open spec fn expand_home_spec(p: Seq<char>, home: Option<Seq<char>>) -> Option<Seq<char>> {
    if needs_home(p) {
        match home {
            Some(h) => Some(expanded(p, h)),
            None => None,
        }
    } else {
        Some(p)
    }
}

/// Rewrites a leading `~` component of `path` against `home`; a path without
/// one is returned unchanged. `None` means the path needed a home directory
/// and none was available.
pub fn expand_home(path: &String, home: Option<&String>) -> (r: Option<String>)
    ensures
        match (r, expand_home_spec(path@, opt_home_view(home))) {
            (Some(a), Some(b)) => a@ == b,
            (None, None) => true,
            _ => false,
        },
{
    let s: &str = path.as_str();
    let n = s.unicode_len();
    if n >= 1 && s.get_char(0) == '~' && (n == 1 || s.get_char(1) == '/') {
        match home {
            Some(h) => {
                let rest = s.substring_char(1, n);
                Some(h.clone().concat(rest))
            },
            None => None,
        }
    } else {
        Some(path.clone())
    }
}

/// The fixed trusted-tier candidate files under the acting user's home
/// directory, in priority order; the whole tier is empty when no home is
/// known.
pub fn trusted_candidate_paths(user_home: Option<&String>) -> (r: Vec<String>)
    ensures
        match user_home {
            Some(h) => r@.len() == 3 && r@[0]@ == h@ + "/.config/vagga/settings.yaml"@ && r@[1]@
                == h@ + "/.vagga/settings.yaml"@ && r@[2]@ == h@ + "/.vagga.yaml"@,
            None => r@.len() == 0,
        },
{
    let mut r: Vec<String> = Vec::new();
    if let Some(h) = user_home {
        r.push(h.clone().concat("/.config/vagga/settings.yaml"));
        r.push(h.clone().concat("/.vagga/settings.yaml"));
        r.push(h.clone().concat("/.vagga.yaml"));
    }
    r
}

/// The fixed project-tier candidate files under the project root, in
/// priority order.
pub fn project_candidate_paths(project_root: &String) -> (r: Vec<String>)
    ensures
        r@.len() == 2,
        r@[0]@ == project_root@ + "/.vagga.settings.yaml"@,
        r@[1]@ == project_root@ + "/.vagga/settings.yaml"@,
{
    let mut r: Vec<String> = Vec::new();
    r.push(project_root.clone().concat("/.vagga.settings.yaml"));
    r.push(project_root.clone().concat("/.vagga/settings.yaml"));
    r
}

} // verus!
