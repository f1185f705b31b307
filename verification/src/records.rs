//! The typed records decoded from one configuration file of each tier, and
//! their mathematical views. Trust-tier separation is structural: a project
//! file's record type has no path-valued or directory-allow-listing fields at
//! all, so the untrusted tier cannot even express a security-relevant
//! setting.

use vstd::prelude::*;

verus! {

/// The fields a trusted file's per-project override may set: the same shape
/// as the top level of a trusted file, without further nesting.
pub struct SiteOverride {
    pub allowed_dirs: Vec<(String, String)>,
    pub storage_dir: Option<String>,
    pub cache_dir: Option<String>,
    pub version_check: Option<bool>,
    pub proxy_env_vars: Option<bool>,
    pub ubuntu_mirror: Option<String>,
    pub alpine_mirror: Option<String>,
}

/// One decoded trusted-tier file. `site_overrides` pairs an exact project
/// root path with the override record that applies only to that root.
pub struct TrustedRecord {
    pub allowed_dirs: Vec<(String, String)>,
    pub storage_dir: Option<String>,
    pub cache_dir: Option<String>,
    pub version_check: Option<bool>,
    pub proxy_env_vars: Option<bool>,
    pub ubuntu_mirror: Option<String>,
    pub alpine_mirror: Option<String>,
    pub site_overrides: Vec<(String, SiteOverride)>,
}

/// One decoded project-tier file. By construction it carries only the
/// operational fields the project tier is allowed to override.
pub struct ProjectRecord {
    pub version_check: Option<bool>,
    pub shared_cache: Option<bool>,
    pub ubuntu_mirror: Option<String>,
    pub alpine_mirror: Option<String>,
}

/// The characters of an optional string field.
pub open spec fn opt_view(o: Option<String>) -> Option<Seq<char>> {
    match o {
        Some(s) => Some(s@),
        None => None,
    }
}

/// The character-level pairs of a name-to-path entry list.
pub open spec fn pairs_view(s: Seq<(String, String)>) -> Seq<(Seq<char>, Seq<char>)> {
    s.map_values(|p: (String, String)| (p.0@, p.1@))
}

/// Mathematical content of a `SiteOverride`.
pub struct SiteOverrideV {
    pub allowed_dirs: Seq<(Seq<char>, Seq<char>)>,
    pub storage_dir: Option<Seq<char>>,
    pub cache_dir: Option<Seq<char>>,
    pub version_check: Option<bool>,
    pub proxy_env_vars: Option<bool>,
    pub ubuntu_mirror: Option<Seq<char>>,
    pub alpine_mirror: Option<Seq<char>>,
}

impl View for SiteOverride {
    type V = SiteOverrideV;

    open spec fn view(&self) -> SiteOverrideV {
        SiteOverrideV {
            allowed_dirs: pairs_view(self.allowed_dirs@),
            storage_dir: opt_view(self.storage_dir),
            cache_dir: opt_view(self.cache_dir),
            version_check: self.version_check,
            proxy_env_vars: self.proxy_env_vars,
            ubuntu_mirror: opt_view(self.ubuntu_mirror),
            alpine_mirror: opt_view(self.alpine_mirror),
        }
    }
}

/// The character-level pairs of a site-override list.
pub open spec fn overrides_view(s: Seq<(String, SiteOverride)>) -> Seq<(Seq<char>, SiteOverrideV)> {
    s.map_values(|p: (String, SiteOverride)| (p.0@, p.1@))
}

/// Mathematical content of a `TrustedRecord`.
pub struct TrustedRecordV {
    pub allowed_dirs: Seq<(Seq<char>, Seq<char>)>,
    pub storage_dir: Option<Seq<char>>,
    pub cache_dir: Option<Seq<char>>,
    pub version_check: Option<bool>,
    pub proxy_env_vars: Option<bool>,
    pub ubuntu_mirror: Option<Seq<char>>,
    pub alpine_mirror: Option<Seq<char>>,
    pub site_overrides: Seq<(Seq<char>, SiteOverrideV)>,
}

impl View for TrustedRecord {
    type V = TrustedRecordV;

    open spec fn view(&self) -> TrustedRecordV {
        TrustedRecordV {
            allowed_dirs: pairs_view(self.allowed_dirs@),
            storage_dir: opt_view(self.storage_dir),
            cache_dir: opt_view(self.cache_dir),
            version_check: self.version_check,
            proxy_env_vars: self.proxy_env_vars,
            ubuntu_mirror: opt_view(self.ubuntu_mirror),
            alpine_mirror: opt_view(self.alpine_mirror),
            site_overrides: overrides_view(self.site_overrides@),
        }
    }
}

/// Mathematical content of a `ProjectRecord`.
pub struct ProjectRecordV {
    pub version_check: Option<bool>,
    pub shared_cache: Option<bool>,
    pub ubuntu_mirror: Option<Seq<char>>,
    pub alpine_mirror: Option<Seq<char>>,
}

impl View for ProjectRecord {
    type V = ProjectRecordV;

    open spec fn view(&self) -> ProjectRecordV {
        ProjectRecordV {
            version_check: self.version_check,
            shared_cache: self.shared_cache,
            ubuntu_mirror: opt_view(self.ubuntu_mirror),
            alpine_mirror: opt_view(self.alpine_mirror),
        }
    }
}

/// What looking at one trusted candidate file yielded: missing (silently
/// skipped), present but malformed (the decoder's message), or decoded.
pub enum TrustedSource {
    Absent,
    Malformed(String),
    Parsed(TrustedRecord),
}

/// Mathematical content of a `TrustedSource`.
pub enum TrustedSourceV {
    Absent,
    Malformed(Seq<char>),
    Parsed(TrustedRecordV),
}

impl View for TrustedSource {
    type V = TrustedSourceV;

    open spec fn view(&self) -> TrustedSourceV {
        match self {
            TrustedSource::Absent => TrustedSourceV::Absent,
            TrustedSource::Malformed(m) => TrustedSourceV::Malformed(m@),
            TrustedSource::Parsed(r) => TrustedSourceV::Parsed(r@),
        }
    }
}

/// What looking at one project candidate file yielded.
pub enum ProjectSource {
    Absent,
    Malformed(String),
    Parsed(ProjectRecord),
}

/// Mathematical content of a `ProjectSource`.
pub enum ProjectSourceV {
    Absent,
    Malformed(Seq<char>),
    Parsed(ProjectRecordV),
}

impl View for ProjectSource {
    type V = ProjectSourceV;

    open spec fn view(&self) -> ProjectSourceV {
        match self {
            ProjectSource::Absent => ProjectSourceV::Absent,
            ProjectSource::Malformed(m) => ProjectSourceV::Malformed(m@),
            ProjectSource::Parsed(r) => ProjectSourceV::Parsed(r@),
        }
    }
}

/// The named sources of one tier, each candidate file path paired with what
/// reading it yielded.
pub open spec fn trusted_sources_view(s: Seq<(String, TrustedSource)>) -> Seq<
    (Seq<char>, TrustedSourceV),
> {
    s.map_values(|p: (String, TrustedSource)| (p.0@, p.1@))
}

/// The named sources of the project tier.
pub open spec fn project_sources_view(s: Seq<(String, ProjectSource)>) -> Seq<
    (Seq<char>, ProjectSourceV),
> {
    s.map_values(|p: (String, ProjectSource)| (p.0@, p.1@))
}

} // verus!
