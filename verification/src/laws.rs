//! The trust-tier guarantees of the resolution model, stated and proved once
//! and for all inputs.

use vstd::prelude::*;

use crate::paths::expand_home_spec;
use crate::records::ProjectSourceV;
use crate::records::SiteOverrideV;
use crate::records::TrustedRecordV;
use crate::records::TrustedSourceV;
use crate::settings::apply_project_spec;
use crate::settings::apply_trusted_spec;
use crate::settings::default_internal;
use crate::settings::default_merged;
use crate::settings::fold_dirs;
use crate::settings::lookup_override;
use crate::settings::resolve_project_spec;
use crate::settings::resolve_spec;
use crate::settings::resolve_trusted_spec;
use crate::settings::MergedV;
use crate::settings::SettingsV;

verus! {

/// The list names `k` in some entry.
pub open spec fn has_key(dirs: Seq<(Seq<char>, Seq<char>)>, k: Seq<char>) -> bool {
    exists|i: int| 0 <= i < dirs.len() && dirs[i].0 == k
}

/// The path of the last entry naming `k`.
pub open spec fn last_value(dirs: Seq<(Seq<char>, Seq<char>)>, k: Seq<char>) -> Seq<char>
    decreases dirs.len(),
{
    if dirs.len() == 0 {
        Seq::empty()
    } else if dirs.last().0 == k {
        dirs.last().1
    } else {
        last_value(dirs.drop_last(), k)
    }
}

/// Folding a directory list touches exactly the keys the list names: a named
/// key ends at the last path given for it, every other key keeps its prior
/// mapping.
pub proof fn lemma_fold_dirs(
    m: Map<Seq<char>, Seq<char>>,
    dirs: Seq<(Seq<char>, Seq<char>)>,
    k: Seq<char>,
)
    ensures
        fold_dirs(m, dirs).contains_key(k) <==> (m.contains_key(k) || has_key(dirs, k)),
        has_key(dirs, k) ==> fold_dirs(m, dirs)[k] == last_value(dirs, k),
        !has_key(dirs, k) && m.contains_key(k) ==> fold_dirs(m, dirs)[k] == m[k],
    decreases dirs.len(),
{
    if dirs.len() > 0 {
        lemma_fold_dirs(m, dirs.drop_last(), k);
        if dirs.last().0 == k {
            assert(dirs[dirs.len() - 1].0 == k);
        } else {
            if has_key(dirs, k) {
                let i = choose|i: int| 0 <= i < dirs.len() && dirs[i].0 == k;
                assert(dirs.drop_last()[i].0 == k);
            }
            if has_key(dirs.drop_last(), k) {
                let i = choose|i: int|
                    0 <= i < dirs.drop_last().len() && dirs.drop_last()[i].0 == k;
                assert(dirs[i].0 == k);
            }
        }
    }
}

/// The union rule for the directory allow-list of two trusted sources folded
/// in order: a key the later list names takes the later list's last path for
/// it; a key only the earlier list names keeps the earlier list's last path;
/// and the result carries a key exactly when the prior mapping or either list
/// does.
pub proof fn lemma_dirs_union_later_wins(
    m: Map<Seq<char>, Seq<char>>,
    earlier: Seq<(Seq<char>, Seq<char>)>,
    later: Seq<(Seq<char>, Seq<char>)>,
    k: Seq<char>,
)
    ensures
        ({
            let out = fold_dirs(fold_dirs(m, earlier), later);
            &&& (has_key(later, k) ==> out.contains_key(k) && out[k] == last_value(later, k))
            &&& (!has_key(later, k) && has_key(earlier, k) ==> out.contains_key(k) && out[k]
                == last_value(earlier, k))
            &&& (out.contains_key(k) <==> (m.contains_key(k) || has_key(earlier, k) || has_key(
                later,
                k,
            )))
        }),
{
    lemma_fold_dirs(m, earlier, k);
    lemma_fold_dirs(fold_dirs(m, earlier), later, k);
}

/// The union rule for two whole trusted records folded in order (neither
/// carrying an override for `root`): a directory name the later record
/// defines ends at the later record's path, one only the earlier record
/// defines keeps the earlier record's path, and the result's allow-list names
/// exactly what the accumulator or either record names.
pub proof fn lemma_later_trusted_record_wins(
    acc: (MergedV, SettingsV),
    r1: TrustedRecordV,
    r2: TrustedRecordV,
    root: Seq<char>,
    home: Option<Seq<char>>,
    f1: Seq<char>,
    f2: Seq<char>,
    k: Seq<char>,
)
    requires
        lookup_override(r1.site_overrides, root) is None,
        lookup_override(r2.site_overrides, root) is None,
        apply_trusted_spec(acc, r1, root, home, f1) is Ok,
    ensures
        ({
            let a1 = apply_trusted_spec(acc, r1, root, home, f1)->Ok_0;
            apply_trusted_spec(a1, r2, root, home, f2) matches Ok(a2) ==> {
                &&& (has_key(r2.allowed_dirs, k) ==> a2.0.allowed_dirs.contains_key(k)
                    && a2.0.allowed_dirs[k] == last_value(r2.allowed_dirs, k))
                &&& (!has_key(r2.allowed_dirs, k) && has_key(r1.allowed_dirs, k)
                    ==> a2.0.allowed_dirs.contains_key(k) && a2.0.allowed_dirs[k] == last_value(
                    r1.allowed_dirs,
                    k,
                ))
                &&& (a2.0.allowed_dirs.contains_key(k) <==> (acc.0.allowed_dirs.contains_key(k)
                    || has_key(r1.allowed_dirs, k) || has_key(r2.allowed_dirs, k)))
            }
        }),
{
    let a1 = apply_trusted_spec(acc, r1, root, home, f1)->Ok_0;
    assert(a1.0.allowed_dirs == fold_dirs(acc.0.allowed_dirs, r1.allowed_dirs));
    if apply_trusted_spec(a1, r2, root, home, f2) is Ok {
        let a2 = apply_trusted_spec(a1, r2, root, home, f2)->Ok_0;
        assert(a2.0.allowed_dirs == fold_dirs(a1.0.allowed_dirs, r2.allowed_dirs));
        lemma_dirs_union_later_wins(acc.0.allowed_dirs, r1.allowed_dirs, r2.allowed_dirs, k);
    }
}

/// No project-tier source can change a security-relevant field: folding any
/// project sources into any accumulator leaves `allowed_dirs`,
/// `allowed_files`, `storage_dir` and `cache_dir` exactly as the trusted tier
/// left them.
pub proof fn lemma_project_tier_preserves_paths(
    acc: (MergedV, SettingsV),
    sources: Seq<(Seq<char>, ProjectSourceV)>,
)
    ensures
        resolve_project_spec(acc, sources) matches Ok(out) ==> out.0.allowed_dirs
            == acc.0.allowed_dirs && out.0.allowed_files == acc.0.allowed_files
            && out.0.storage_dir == acc.0.storage_dir && out.0.cache_dir == acc.0.cache_dir,
    decreases sources.len(),
{
    if sources.len() > 0 {
        match sources[0].1 {
            ProjectSourceV::Absent => {
                lemma_project_tier_preserves_paths(acc, sources.drop_first());
            },
            ProjectSourceV::Malformed(_) => {},
            ProjectSourceV::Parsed(r) => {
                lemma_project_tier_preserves_paths(
                    apply_project_spec(acc, r),
                    sources.drop_first(),
                );
            },
        }
    }
}

/// The same guarantee at the top level: whenever a whole resolution succeeds,
/// its security-relevant fields equal those of the trusted tier alone,
/// whatever the project tier's sources said.
pub proof fn lemma_paths_owned_by_trusted_tier(
    root: Seq<char>,
    home: Option<Seq<char>>,
    trusted: Seq<(Seq<char>, TrustedSourceV)>,
    project: Seq<(Seq<char>, ProjectSourceV)>,
)
    ensures
        ({
            let from_trusted = resolve_trusted_spec(
                (default_merged(), default_internal()),
                trusted,
                root,
                home,
            );
            resolve_spec(root, home, trusted, project) matches Ok(out) ==> from_trusted matches Ok(
                tacc,
            ) && out.0.allowed_dirs == tacc.0.allowed_dirs && out.0.allowed_files
                == tacc.0.allowed_files && out.0.storage_dir == tacc.0.storage_dir
                && out.0.cache_dir == tacc.0.cache_dir
        }),
{
    let from_trusted = resolve_trusted_spec(
        (default_merged(), default_internal()),
        trusted,
        root,
        home,
    );
    if from_trusted is Ok {
        lemma_project_tier_preserves_paths(from_trusted->Ok_0, project);
    }
}

/// An override list none of whose keys is `root` yields no override.
pub proof fn lemma_lookup_override_exact(s: Seq<(Seq<char>, SiteOverrideV)>, root: Seq<char>)
    ensures
        lookup_override(s, root) is Some <==> exists|i: int| 0 <= i < s.len() && s[i].0 == root,
    decreases s.len(),
{
    if s.len() > 0 {
        lemma_lookup_override_exact(s.drop_first(), root);
        if s[0].0 == root {
        } else {
            if lookup_override(s, root) is Some {
                let i = choose|i: int|
                    0 <= i < s.drop_first().len() && s.drop_first()[i].0 == root;
                assert(s[i + 1].0 == root);
            }
            if exists|i: int| 0 <= i < s.len() && s[i].0 == root {
                let i = choose|i: int| 0 <= i < s.len() && s[i].0 == root;
                assert(s.drop_first()[i - 1].0 == root);
            }
        }
    }
}

/// A site override is picked up only on an exact project-root match: a
/// trusted record none of whose override keys equals `root` folds exactly as
/// the same record carrying no overrides at all.
pub proof fn lemma_override_needs_exact_root(
    acc: (MergedV, SettingsV),
    r: TrustedRecordV,
    root: Seq<char>,
    home: Option<Seq<char>>,
    file: Seq<char>,
)
    requires
        forall|i: int| 0 <= i < r.site_overrides.len() ==> r.site_overrides[i].0 != root,
    ensures
        apply_trusted_spec(acc, r, root, home, file) == apply_trusted_spec(
            acc,
            TrustedRecordV {
                allowed_dirs: r.allowed_dirs,
                storage_dir: r.storage_dir,
                cache_dir: r.cache_dir,
                version_check: r.version_check,
                proxy_env_vars: r.proxy_env_vars,
                ubuntu_mirror: r.ubuntu_mirror,
                alpine_mirror: r.alpine_mirror,
                site_overrides: Seq::empty(),
            },
            root,
            home,
            file,
        ),
{
    lemma_lookup_override_exact(r.site_overrides, root);
}

/// Setting `cache_dir` from one trusted source, and nothing else anywhere,
/// yields `shared_cache = true` beside the expanded cache path, with every
/// other field at its default.
pub proof fn lemma_cache_dir_turns_sharing_on(
    d: Seq<char>,
    home: Option<Seq<char>>,
    root: Seq<char>,
    file: Seq<char>,
)
    requires
        expand_home_spec(d, home) is Some,
    ensures
        ({
            let r = TrustedRecordV {
                allowed_dirs: Seq::empty(),
                storage_dir: None,
                cache_dir: Some(d),
                version_check: None,
                proxy_env_vars: None,
                ubuntu_mirror: None,
                alpine_mirror: None,
                site_overrides: Seq::empty(),
            };
            let out = resolve_spec(
                root,
                home,
                seq![(file, TrustedSourceV::Parsed(r))],
                Seq::empty(),
            );
            out matches Ok(v) && v.0.shared_cache == true && v.0.cache_dir == Some(
                expand_home_spec(d, home)->0,
            ) && v.0.allowed_dirs == default_merged().allowed_dirs && v.0.allowed_files
                == default_merged().allowed_files && v.0.storage_dir is None && v.1
                == default_internal()
        }),
{
    let r = TrustedRecordV {
        allowed_dirs: Seq::empty(),
        storage_dir: None,
        cache_dir: Some(d),
        version_check: None,
        proxy_env_vars: None,
        ubuntu_mirror: None,
        alpine_mirror: None,
        site_overrides: Seq::empty(),
    };
    let sources = seq![(file, TrustedSourceV::Parsed(r))];
    assert(sources.drop_first() =~= Seq::<(Seq<char>, TrustedSourceV)>::empty());
    assert(sources[0] == (file, TrustedSourceV::Parsed(r)));
    assert(lookup_override(r.site_overrides, root) is None);
    let step = apply_trusted_spec((default_merged(), default_internal()), r, root, home, file);
    assert(fold_dirs(default_merged().allowed_dirs, r.allowed_dirs) == default_merged().allowed_dirs);
    assert(step is Ok);
    let acc2 = step->Ok_0;
    assert(resolve_trusted_spec((default_merged(), default_internal()), sources, root, home)
        == resolve_trusted_spec(acc2, sources.drop_first(), root, home));
    assert(resolve_spec(root, home, sources, Seq::empty()) == resolve_project_spec(
        acc2,
        Seq::empty(),
    ));
    assert(acc2.1 =~= default_internal());
}

} // verus!
