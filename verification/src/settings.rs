//! The settings-resolution engine: folds the decoded records of both trust
//! tiers into one resolved value under strict per-field trust rules.
//!
//! Security-relevant fields (`allowed_dirs`, `storage_dir`, `cache_dir`) are
//! written only while trusted-tier records (and their per-project overrides)
//! are folded; project-tier records can touch only the operational fields
//! their record type carries. Tilde paths of a trusted file's top level are
//! expanded against the user's home directory; paths inside a site override
//! are taken verbatim, already expanded by whoever wrote the trusted file.

use vstd::prelude::*;
use vstd::string::StringExecFns;

use crate::pathmap::PathMap;
use crate::paths::expand_home;
use crate::paths::expand_home_spec;
use crate::paths::opt_home_view;
use crate::records::opt_view;
use crate::records::overrides_view;
use crate::records::pairs_view;
use crate::records::project_sources_view;
use crate::records::trusted_sources_view;
use crate::records::ProjectRecord;
use crate::records::ProjectRecordV;
use crate::records::ProjectSource;
use crate::records::ProjectSourceV;
use crate::records::SiteOverride;
use crate::records::SiteOverrideV;
use crate::records::TrustedRecord;
use crate::records::TrustedRecordV;
use crate::records::TrustedSource;
use crate::records::TrustedSourceV;

verus! {

/// Identity-range data for a container; resolution only carries the slot and
/// never populates it.
#[derive(Debug)]
pub struct UidMap {
    pub uid_ranges: Vec<(u32, u32)>,
    pub gid_ranges: Vec<(u32, u32)>,
}

/// The external half of the resolved settings, consumed by the caller's
/// filesystem-access policy. `allowed_files` is a reserved extension point
/// that no source populates.
#[derive(Debug)]
pub struct MergedSettings {
    pub allowed_dirs: PathMap,
    pub allowed_files: PathMap,
    pub storage_dir: Option<String>,
    pub cache_dir: Option<String>,
    pub shared_cache: bool,
}

/// The internal half of the resolved settings, consumed by the tool's own
/// runtime behavior.
#[derive(Debug)]
pub struct Settings {
    pub proxy_env_vars: bool,
    pub version_check: bool,
    pub uid_map: Option<UidMap>,
    pub ubuntu_mirror: String,
    pub alpine_mirror: Option<String>,
}

/// Why a resolution attempt failed as a whole.
#[derive(Debug)]
pub enum ConfigError {
    /// A candidate file existed but could not be decoded: the file's path and
    /// the decoder's message.
    Parse(String, String),
    /// A trusted path needed tilde expansion and no home directory could be
    /// resolved: the field's name and the file it came from.
    NoHome(String, String),
}

/// Mathematical content of `MergedSettings`.
pub struct MergedV {
    pub allowed_dirs: Map<Seq<char>, Seq<char>>,
    pub allowed_files: Map<Seq<char>, Seq<char>>,
    pub storage_dir: Option<Seq<char>>,
    pub cache_dir: Option<Seq<char>>,
    pub shared_cache: bool,
}

/// Mathematical content of `UidMap`.
pub struct UidMapV {
    pub uid_ranges: Seq<(u32, u32)>,
    pub gid_ranges: Seq<(u32, u32)>,
}

/// Mathematical content of `Settings`.
pub struct SettingsV {
    pub proxy_env_vars: bool,
    pub version_check: bool,
    pub uid_map: Option<UidMapV>,
    pub ubuntu_mirror: Seq<char>,
    pub alpine_mirror: Option<Seq<char>>,
}

/// Mathematical content of `ConfigError`.
pub enum ConfigErrorV {
    Parse(Seq<char>, Seq<char>),
    NoHome(Seq<char>, Seq<char>),
}

impl View for UidMap {
    type V = UidMapV;

    open spec fn view(&self) -> UidMapV {
        UidMapV { uid_ranges: self.uid_ranges@, gid_ranges: self.gid_ranges@ }
    }
}

/// The view of an optional `UidMap`.
pub open spec fn opt_uid_map_view(o: Option<UidMap>) -> Option<UidMapV> {
    match o {
        Some(m) => Some(m@),
        None => None,
    }
}

impl MergedSettings {
    /// Both path mappings are well formed.
    pub open spec fn wf(&self) -> bool {
        self.allowed_dirs.wf() && self.allowed_files.wf()
    }
}

impl View for MergedSettings {
    type V = MergedV;

    open spec fn view(&self) -> MergedV {
        MergedV {
            allowed_dirs: self.allowed_dirs@,
            allowed_files: self.allowed_files@,
            storage_dir: opt_view(self.storage_dir),
            cache_dir: opt_view(self.cache_dir),
            shared_cache: self.shared_cache,
        }
    }
}

impl View for Settings {
    type V = SettingsV;

    open spec fn view(&self) -> SettingsV {
        SettingsV {
            proxy_env_vars: self.proxy_env_vars,
            version_check: self.version_check,
            uid_map: opt_uid_map_view(self.uid_map),
            ubuntu_mirror: self.ubuntu_mirror@,
            alpine_mirror: opt_view(self.alpine_mirror),
        }
    }
}

impl View for ConfigError {
    type V = ConfigErrorV;

    open spec fn view(&self) -> ConfigErrorV {
        match self {
            ConfigError::Parse(file, detail) => ConfigErrorV::Parse(file@, detail@),
            ConfigError::NoHome(field, file) => ConfigErrorV::NoHome(field@, file@),
        }
    }
}

/// The defaults of the external half: everything unset, cache not shared.
pub open spec fn default_merged() -> MergedV {
    MergedV {
        allowed_dirs: Map::empty(),
        allowed_files: Map::empty(),
        storage_dir: None,
        cache_dir: None,
        shared_cache: false,
    }
}

/// The defaults of the internal half: checks on, the well-known Ubuntu
/// mirror list, no Alpine mirror.
pub open spec fn default_internal() -> SettingsV {
    SettingsV {
        proxy_env_vars: true,
        version_check: true,
        uid_map: None,
        ubuntu_mirror: "mirror://mirrors.ubuntu.com/mirrors.txt"@,
        alpine_mirror: None,
    }
}

/// Inserts each entry of `dirs` in order into `m`, so a later entry with the
/// same name overwrites only that name.
pub open spec fn fold_dirs(
    m: Map<Seq<char>, Seq<char>>,
    dirs: Seq<(Seq<char>, Seq<char>)>,
) -> Map<Seq<char>, Seq<char>>
    decreases dirs.len(),
{
    if dirs.len() == 0 {
        m
    } else {
        fold_dirs(m, dirs.drop_last()).insert(dirs.last().0, dirs.last().1)
    }
}

/// A present value overwrites the accumulator; an absent one leaves it.
pub open spec fn set_opt(cur: Option<Seq<char>>, new: Option<Seq<char>>) -> Option<Seq<char>> {
    match new {
        Some(s) => Some(s),
        None => cur,
    }
}

/// A present boolean overwrites the accumulator; an absent one leaves it.
pub open spec fn set_bool(cur: bool, new: Option<bool>) -> bool {
    match new {
        Some(b) => b,
        None => cur,
    }
}

/// A present string overwrites the accumulator; an absent one leaves it.
pub open spec fn set_str(cur: Seq<char>, new: Option<Seq<char>>) -> Seq<char> {
    match new {
        Some(s) => s,
        None => cur,
    }
}

/// The site override whose key equals `root` exactly, if one exists; an
/// override keyed by any other path never takes part.
pub open spec fn lookup_override(
    s: Seq<(Seq<char>, SiteOverrideV)>,
    root: Seq<char>,
) -> Option<SiteOverrideV>
    decreases s.len(),
{
    if s.len() == 0 {
        None
    } else if s[0].0 == root {
        Some(s[0].1)
    } else {
        lookup_override(s.drop_first(), root)
    }
}

/// Folds one site override into the accumulator: the same per-field rules as
/// a trusted file's top level, but paths are taken verbatim.
pub open spec fn apply_override_spec(
    acc: (MergedV, SettingsV),
    ov: SiteOverrideV,
) -> (MergedV, SettingsV) {
    let e = acc.0;
    let rt = acc.1;
    (
        MergedV {
            allowed_dirs: fold_dirs(e.allowed_dirs, ov.allowed_dirs),
            allowed_files: e.allowed_files,
            storage_dir: set_opt(e.storage_dir, ov.storage_dir),
            cache_dir: set_opt(e.cache_dir, ov.cache_dir),
            shared_cache: if ov.cache_dir is Some {
                true
            } else {
                e.shared_cache
            },
        },
        SettingsV {
            proxy_env_vars: set_bool(rt.proxy_env_vars, ov.proxy_env_vars),
            version_check: set_bool(rt.version_check, ov.version_check),
            uid_map: rt.uid_map,
            ubuntu_mirror: set_str(rt.ubuntu_mirror, ov.ubuntu_mirror),
            alpine_mirror: set_opt(rt.alpine_mirror, ov.alpine_mirror),
        },
    )
}

/// Folds one trusted record into the accumulator: directory entries are
/// unioned name by name, scalar fields overwrite when present, top-level
/// paths are tilde-expanded, and setting `cache_dir` turns the shared cache
/// on. A site override keyed exactly by `root` is folded immediately after
/// the top-level fields. Fails when a tilde path cannot be expanded.
pub open spec fn apply_trusted_spec(
    acc: (MergedV, SettingsV),
    r: TrustedRecordV,
    root: Seq<char>,
    home: Option<Seq<char>>,
    file: Seq<char>,
) -> Result<(MergedV, SettingsV), ConfigErrorV> {
    let e = acc.0;
    let rt = acc.1;
    if r.storage_dir is Some && expand_home_spec(r.storage_dir->0, home) is None {
        Err(ConfigErrorV::NoHome("storage_dir"@, file))
    } else if r.cache_dir is Some && expand_home_spec(r.cache_dir->0, home) is None {
        Err(ConfigErrorV::NoHome("cache_dir"@, file))
    } else {
        let e1 = MergedV {
            allowed_dirs: fold_dirs(e.allowed_dirs, r.allowed_dirs),
            allowed_files: e.allowed_files,
            storage_dir: match r.storage_dir {
                Some(d) => Some(expand_home_spec(d, home)->0),
                None => e.storage_dir,
            },
            cache_dir: match r.cache_dir {
                Some(d) => Some(expand_home_spec(d, home)->0),
                None => e.cache_dir,
            },
            shared_cache: if r.cache_dir is Some {
                true
            } else {
                e.shared_cache
            },
        };
        let rt1 = SettingsV {
            proxy_env_vars: set_bool(rt.proxy_env_vars, r.proxy_env_vars),
            version_check: set_bool(rt.version_check, r.version_check),
            uid_map: rt.uid_map,
            ubuntu_mirror: set_str(rt.ubuntu_mirror, r.ubuntu_mirror),
            alpine_mirror: set_opt(rt.alpine_mirror, r.alpine_mirror),
        };
        match lookup_override(r.site_overrides, root) {
            Some(ov) => Ok(apply_override_spec((e1, rt1), ov)),
            None => Ok((e1, rt1)),
        }
    }
}

/// Folds one project record into the accumulator: only the operational
/// fields the project tier owns; `shared_cache` is a plain overwrite.
pub open spec fn apply_project_spec(
    acc: (MergedV, SettingsV),
    r: ProjectRecordV,
) -> (MergedV, SettingsV) {
    let e = acc.0;
    let rt = acc.1;
    (
        MergedV {
            allowed_dirs: e.allowed_dirs,
            allowed_files: e.allowed_files,
            storage_dir: e.storage_dir,
            cache_dir: e.cache_dir,
            shared_cache: set_bool(e.shared_cache, r.shared_cache),
        },
        SettingsV {
            proxy_env_vars: rt.proxy_env_vars,
            version_check: set_bool(rt.version_check, r.version_check),
            uid_map: rt.uid_map,
            ubuntu_mirror: set_str(rt.ubuntu_mirror, r.ubuntu_mirror),
            alpine_mirror: set_opt(rt.alpine_mirror, r.alpine_mirror),
        },
    )
}

/// Folds the trusted-tier sources in priority order: a missing file is
/// skipped, the first malformed file aborts the whole resolution, a decoded
/// record is folded.
pub open spec fn resolve_trusted_spec(
    acc: (MergedV, SettingsV),
    sources: Seq<(Seq<char>, TrustedSourceV)>,
    root: Seq<char>,
    home: Option<Seq<char>>,
) -> Result<(MergedV, SettingsV), ConfigErrorV>
    decreases sources.len(),
{
    if sources.len() == 0 {
        Ok(acc)
    } else {
        match sources[0].1 {
            TrustedSourceV::Absent => resolve_trusted_spec(acc, sources.drop_first(), root, home),
            TrustedSourceV::Malformed(detail) => Err(ConfigErrorV::Parse(sources[0].0, detail)),
            TrustedSourceV::Parsed(r) => match apply_trusted_spec(acc, r, root, home, sources[0].0) {
                Ok(acc2) => resolve_trusted_spec(acc2, sources.drop_first(), root, home),
                Err(err) => Err(err),
            },
        }
    }
}

/// Folds the project-tier sources in priority order, after all trusted ones.
pub open spec fn resolve_project_spec(
    acc: (MergedV, SettingsV),
    sources: Seq<(Seq<char>, ProjectSourceV)>,
) -> Result<(MergedV, SettingsV), ConfigErrorV>
    decreases sources.len(),
{
    if sources.len() == 0 {
        Ok(acc)
    } else {
        match sources[0].1 {
            ProjectSourceV::Absent => resolve_project_spec(acc, sources.drop_first()),
            ProjectSourceV::Malformed(detail) => Err(ConfigErrorV::Parse(sources[0].0, detail)),
            ProjectSourceV::Parsed(r) => resolve_project_spec(
                apply_project_spec(acc, r),
                sources.drop_first(),
            ),
        }
    }
}

/// The whole resolution: defaults, then the trusted tier, then the project
/// tier; the first failure aborts with no partial result.
pub open spec fn resolve_spec(
    root: Seq<char>,
    home: Option<Seq<char>>,
    trusted: Seq<(Seq<char>, TrustedSourceV)>,
    project: Seq<(Seq<char>, ProjectSourceV)>,
) -> Result<(MergedV, SettingsV), ConfigErrorV> {
    match resolve_trusted_spec((default_merged(), default_internal()), trusted, root, home) {
        Ok(acc) => resolve_project_spec(acc, project),
        Err(err) => Err(err),
    }
}

/// The documented defaults that every resolution starts from.
pub fn default_settings() -> (r: (MergedSettings, Settings))
    ensures
        r.0@ == default_merged(),
        r.1@ == default_internal(),
        r.0.wf(),
{
    (
        MergedSettings {
            allowed_dirs: PathMap::new(),
            allowed_files: PathMap::new(),
            storage_dir: None,
            cache_dir: None,
            shared_cache: false,
        },
        Settings {
            proxy_env_vars: true,
            version_check: true,
            uid_map: None,
            ubuntu_mirror: String::from_str("mirror://mirrors.ubuntu.com/mirrors.txt"),
            alpine_mirror: None,
        },
    )
}

/// Inserts each entry of `dirs` in order into the mapping.
#[verifier::loop_isolation(false)]
fn fold_allowed_dirs(m: PathMap, dirs: &Vec<(String, String)>) -> (r: PathMap)
    requires
        m.wf(),
    ensures
        r.wf(),
        r@ == fold_dirs(m@, pairs_view(dirs@)),
{
    let ghost m0 = m@;
    let ghost dv = pairs_view(dirs@);
    let mut acc = m;
    let n = dirs.len();
    let mut i: usize = 0;
    while i < n
        invariant
            i <= n,
            acc.wf(),
            acc@ == fold_dirs(m0, dv.take(i as int)),
        decreases n - i,
    {
        proof {
            assert(dv.take(i as int + 1).drop_last() =~= dv.take(i as int));
            assert(dv.take(i as int + 1).last() == dv[i as int]);
            assert(dv[i as int] == (dirs@[i as int].0@, dirs@[i as int].1@));
        }
        let entry = &dirs[i];
        acc.insert(entry.0.clone(), entry.1.clone());
        i = i + 1;
    }
    proof {
        assert(dv.take(n as int) =~= dv);
    }
    acc
}

/// The site override keyed exactly by `root`, if the record carries one.
#[verifier::loop_isolation(false)]
fn find_override<'a>(list: &'a Vec<(String, SiteOverride)>, root: &String) -> (r: Option<
    &'a SiteOverride,
>)
    ensures
        match r {
            Some(ov) => lookup_override(overrides_view(list@), root@) == Some(ov@),
            None => lookup_override(overrides_view(list@), root@) is None,
        },
{
    let ghost sv = overrides_view(list@);
    proof {
        assert(sv.skip(0) =~= sv);
    }
    let n = list.len();
    let mut i: usize = 0;
    while i < n
        invariant
            i <= n,
            lookup_override(sv, root@) == lookup_override(sv.skip(i as int), root@),
        decreases n - i,
    {
        proof {
            assert(sv.skip(i as int)[0] == sv[i as int]);
            assert(sv[i as int] == (list@[i as int].0@, list@[i as int].1@));
            assert(sv.skip(i as int).drop_first() =~= sv.skip(i as int + 1));
        }
        let entry = &list[i];
        if entry.0 == *root {
            return Some(&entry.1);
        }
        i = i + 1;
    }
    proof {
        assert(sv.skip(n as int) =~= Seq::<(Seq<char>, SiteOverrideV)>::empty());
    }
    None
}

/// Folds one site override into the accumulator: the same per-field rules as
/// a trusted file's top level, with paths taken verbatim.
pub fn apply_override(acc: (MergedSettings, Settings), ov: &SiteOverride) -> (r: (
    MergedSettings,
    Settings,
))
    requires
        acc.0.wf(),
    ensures
        r.0.wf(),
        (r.0@, r.1@) == apply_override_spec((acc.0@, acc.1@), ov@),
{
    let (ext, rt) = acc;
    let MergedSettings { allowed_dirs, allowed_files, storage_dir, cache_dir, shared_cache } = ext;
    let Settings { proxy_env_vars, version_check, uid_map, ubuntu_mirror, alpine_mirror } = rt;
    let allowed_dirs = fold_allowed_dirs(allowed_dirs, &ov.allowed_dirs);
    let storage_dir = match &ov.storage_dir {
        Some(d) => Some(d.clone()),
        None => storage_dir,
    };
    let (cache_dir, shared_cache) = match &ov.cache_dir {
        Some(d) => (Some(d.clone()), true),
        None => (cache_dir, shared_cache),
    };
    let proxy_env_vars = match ov.proxy_env_vars {
        Some(b) => b,
        None => proxy_env_vars,
    };
    let version_check = match ov.version_check {
        Some(b) => b,
        None => version_check,
    };
    let ubuntu_mirror = match &ov.ubuntu_mirror {
        Some(s) => s.clone(),
        None => ubuntu_mirror,
    };
    let alpine_mirror = match &ov.alpine_mirror {
        Some(s) => Some(s.clone()),
        None => alpine_mirror,
    };
    (
        MergedSettings { allowed_dirs, allowed_files, storage_dir, cache_dir, shared_cache },
        Settings { proxy_env_vars, version_check, uid_map, ubuntu_mirror, alpine_mirror },
    )
}

/// Folds one trusted record into the accumulator, then any site override
/// keyed exactly by `project_root`. Fails when a top-level tilde path cannot
/// be expanded against `home`.
pub fn apply_trusted(
    acc: (MergedSettings, Settings),
    rec: &TrustedRecord,
    project_root: &String,
    home: Option<&String>,
    file: &String,
) -> (r: Result<(MergedSettings, Settings), ConfigError>)
    requires
        acc.0.wf(),
    ensures
        match (
            r,
            apply_trusted_spec(
                (acc.0@, acc.1@),
                rec@,
                project_root@,
                opt_home_view(home),
                file@,
            ),
        ) {
            (Ok(v), Ok(sv)) => v.0.wf() && (v.0@, v.1@) == sv,
            (Err(e), Err(se)) => e@ == se,
            _ => false,
        },
{
    let (ext, rt) = acc;
    let MergedSettings { allowed_dirs, allowed_files, storage_dir, cache_dir, shared_cache } = ext;
    let Settings { proxy_env_vars, version_check, uid_map, ubuntu_mirror, alpine_mirror } = rt;
    let storage_dir = match &rec.storage_dir {
        Some(d) => match expand_home(d, home) {
            Some(p) => Some(p),
            None => {
                return Err(ConfigError::NoHome("storage_dir".to_owned(), file.clone()));
            },
        },
        None => storage_dir,
    };
    let (cache_dir, shared_cache) = match &rec.cache_dir {
        Some(d) => match expand_home(d, home) {
            Some(p) => (Some(p), true),
            None => {
                return Err(ConfigError::NoHome("cache_dir".to_owned(), file.clone()));
            },
        },
        None => (cache_dir, shared_cache),
    };
    let allowed_dirs = fold_allowed_dirs(allowed_dirs, &rec.allowed_dirs);
    let proxy_env_vars = match rec.proxy_env_vars {
        Some(b) => b,
        None => proxy_env_vars,
    };
    let version_check = match rec.version_check {
        Some(b) => b,
        None => version_check,
    };
    let ubuntu_mirror = match &rec.ubuntu_mirror {
        Some(s) => s.clone(),
        None => ubuntu_mirror,
    };
    let alpine_mirror = match &rec.alpine_mirror {
        Some(s) => Some(s.clone()),
        None => alpine_mirror,
    };
    let folded = (
        MergedSettings { allowed_dirs, allowed_files, storage_dir, cache_dir, shared_cache },
        Settings { proxy_env_vars, version_check, uid_map, ubuntu_mirror, alpine_mirror },
    );
    match find_override(&rec.site_overrides, project_root) {
        Some(ov) => Ok(apply_override(folded, ov)),
        None => Ok(folded),
    }
}

/// Folds one project record into the accumulator: only the operational
/// fields the project tier owns.
pub fn apply_project(acc: (MergedSettings, Settings), rec: &ProjectRecord) -> (r: (
    MergedSettings,
    Settings,
))
    requires
        acc.0.wf(),
    ensures
        r.0.wf(),
        (r.0@, r.1@) == apply_project_spec((acc.0@, acc.1@), rec@),
{
    let (ext, rt) = acc;
    let MergedSettings { allowed_dirs, allowed_files, storage_dir, cache_dir, shared_cache } = ext;
    let Settings { proxy_env_vars, version_check, uid_map, ubuntu_mirror, alpine_mirror } = rt;
    let shared_cache = match rec.shared_cache {
        Some(b) => b,
        None => shared_cache,
    };
    let version_check = match rec.version_check {
        Some(b) => b,
        None => version_check,
    };
    let ubuntu_mirror = match &rec.ubuntu_mirror {
        Some(s) => s.clone(),
        None => ubuntu_mirror,
    };
    let alpine_mirror = match &rec.alpine_mirror {
        Some(s) => Some(s.clone()),
        None => alpine_mirror,
    };
    (
        MergedSettings { allowed_dirs, allowed_files, storage_dir, cache_dir, shared_cache },
        Settings { proxy_env_vars, version_check, uid_map, ubuntu_mirror, alpine_mirror },
    )
}

/// Resolves the effective settings for `project_root` from the named sources
/// of both tiers, in their priority order: the documented defaults, then each
/// trusted file (with its exact-match site override), then each project file.
/// A missing file is skipped; the first malformed file or failed tilde
/// expansion aborts the whole resolution with no partial result.
#[verifier::loop_isolation(false)]
pub fn read_settings(
    project_root: &String,
    home: Option<&String>,
    trusted: &Vec<(String, TrustedSource)>,
    project: &Vec<(String, ProjectSource)>,
) -> (r: Result<(MergedSettings, Settings), ConfigError>)
    ensures
        match (
            r,
            resolve_spec(
                project_root@,
                opt_home_view(home),
                trusted_sources_view(trusted@),
                project_sources_view(project@),
            ),
        ) {
            (Ok(v), Ok(sv)) => v.0.wf() && (v.0@, v.1@) == sv,
            (Err(e), Err(se)) => e@ == se,
            _ => false,
        },
{
    let ghost tv = trusted_sources_view(trusted@);
    let ghost pv = project_sources_view(project@);
    let ghost homev = opt_home_view(home);
    let ghost full_trusted = resolve_trusted_spec(
        (default_merged(), default_internal()),
        tv,
        project_root@,
        homev,
    );
    let mut acc = default_settings();
    proof {
        assert(tv.skip(0) =~= tv);
    }
    let n = trusted.len();
    let mut i: usize = 0;
    while i < n
        invariant
            i <= n,
            acc.0.wf(),
            resolve_trusted_spec((acc.0@, acc.1@), tv.skip(i as int), project_root@, homev)
                == full_trusted,
        decreases n - i,
    {
        proof {
            assert(tv.skip(i as int)[0] == tv[i as int]);
            assert(tv[i as int] == (trusted@[i as int].0@, trusted@[i as int].1@));
            assert(tv.skip(i as int).drop_first() =~= tv.skip(i as int + 1));
        }
        let entry = &trusted[i];
        match &entry.1 {
            TrustedSource::Absent => {},
            TrustedSource::Malformed(detail) => {
                return Err(ConfigError::Parse(entry.0.clone(), detail.clone()));
            },
            TrustedSource::Parsed(rec) => {
                match apply_trusted(acc, rec, project_root, home, &entry.0) {
                    Ok(acc2) => {
                        acc = acc2;
                    },
                    Err(err) => {
                        return Err(err);
                    },
                }
            },
        }
        i = i + 1;
    }
    proof {
        assert(tv.skip(n as int) =~= Seq::<(Seq<char>, TrustedSourceV)>::empty());
        assert(full_trusted == Ok::<(MergedV, SettingsV), ConfigErrorV>((acc.0@, acc.1@)));
        assert(resolve_spec(project_root@, homev, tv, pv) == resolve_project_spec(
            (acc.0@, acc.1@),
            pv,
        ));
        assert(pv.skip(0) =~= pv);
    }
    let m = project.len();
    let mut j: usize = 0;
    while j < m
        invariant
            j <= m,
            acc.0.wf(),
            resolve_project_spec((acc.0@, acc.1@), pv.skip(j as int)) == resolve_spec(
                project_root@,
                homev,
                tv,
                pv,
            ),
        decreases m - j,
    {
        proof {
            assert(pv.skip(j as int)[0] == pv[j as int]);
            assert(pv[j as int] == (project@[j as int].0@, project@[j as int].1@));
            assert(pv.skip(j as int).drop_first() =~= pv.skip(j as int + 1));
        }
        let entry = &project[j];
        match &entry.1 {
            ProjectSource::Absent => {},
            ProjectSource::Malformed(detail) => {
                return Err(ConfigError::Parse(entry.0.clone(), detail.clone()));
            },
            ProjectSource::Parsed(rec) => {
                acc = apply_project(acc, rec);
            },
        }
        j = j + 1;
    }
    proof {
        assert(pv.skip(m as int) =~= Seq::<(Seq<char>, ProjectSourceV)>::empty());
    }
    Ok(acc)
}

} // verus!
