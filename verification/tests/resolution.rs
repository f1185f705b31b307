use vagga_settings::pathmap::PathMap;
use vagga_settings::paths::expand_home;
use vagga_settings::paths::project_candidate_paths;
use vagga_settings::paths::trusted_candidate_paths;
use vagga_settings::records::ProjectRecord;
use vagga_settings::records::ProjectSource;
use vagga_settings::records::SiteOverride;
use vagga_settings::records::TrustedRecord;
use vagga_settings::records::TrustedSource;
use vagga_settings::settings::default_settings;
use vagga_settings::settings::read_settings;
use vagga_settings::settings::ConfigError;

fn empty_trusted() -> TrustedRecord {
    TrustedRecord {
        allowed_dirs: vec![],
        storage_dir: None,
        cache_dir: None,
        version_check: None,
        proxy_env_vars: None,
        ubuntu_mirror: None,
        alpine_mirror: None,
        site_overrides: vec![],
    }
}

fn empty_override() -> SiteOverride {
    SiteOverride {
        allowed_dirs: vec![],
        storage_dir: None,
        cache_dir: None,
        version_check: None,
        proxy_env_vars: None,
        ubuntu_mirror: None,
        alpine_mirror: None,
    }
}

fn empty_project() -> ProjectRecord {
    ProjectRecord {
        version_check: None,
        shared_cache: None,
        ubuntu_mirror: None,
        alpine_mirror: None,
    }
}

fn s(text: &str) -> String {
    text.to_string()
}

#[test]
fn defaults_without_any_source() {
    let root = s("/work/proj");
    let out = read_settings(&root, None, &vec![], &vec![]).unwrap();
    assert!(out.0.allowed_dirs.is_empty());
    assert!(out.0.allowed_files.is_empty());
    assert!(out.0.storage_dir.is_none());
    assert!(out.0.cache_dir.is_none());
    assert!(!out.0.shared_cache);
    assert!(out.1.proxy_env_vars);
    assert!(out.1.version_check);
    assert!(out.1.uid_map.is_none());
    assert_eq!(out.1.ubuntu_mirror, "mirror://mirrors.ubuntu.com/mirrors.txt");
    assert!(out.1.alpine_mirror.is_none());
}

#[test]
fn default_settings_match_resolution_defaults() {
    let d = default_settings();
    assert!(!d.0.shared_cache);
    assert_eq!(d.1.ubuntu_mirror, "mirror://mirrors.ubuntu.com/mirrors.txt");
    assert!(d.1.version_check && d.1.proxy_env_vars);
}

#[test]
fn project_file_cannot_touch_security_fields() {
    let root = s("/work/proj");
    let mut trusted = empty_trusted();
    trusted.allowed_dirs = vec![(s("build"), s("/tmp/build"))];
    trusted.storage_dir = Some(s("/var/storage"));
    trusted.cache_dir = Some(s("/var/cache/x"));
    // A project record setting every field it structurally has.
    let project = ProjectRecord {
        version_check: Some(false),
        shared_cache: Some(true),
        ubuntu_mirror: Some(s("http://mirror.example/ubuntu")),
        alpine_mirror: Some(s("http://mirror.example/alpine")),
    };
    let out = read_settings(
        &root,
        Some(&s("/home/user")),
        &vec![(s("trusted.yaml"), TrustedSource::Parsed(trusted))],
        &vec![(s("project.yaml"), ProjectSource::Parsed(project))],
    )
    .unwrap();
    assert_eq!(out.0.allowed_dirs.get(&s("build")).unwrap().as_str(), "/tmp/build");
    assert_eq!(out.0.storage_dir.as_deref(), Some("/var/storage"));
    assert_eq!(out.0.cache_dir.as_deref(), Some("/var/cache/x"));
    // The operational fields did move.
    assert!(!out.1.version_check);
    assert_eq!(out.1.ubuntu_mirror, "http://mirror.example/ubuntu");
    assert_eq!(out.1.alpine_mirror.as_deref(), Some("http://mirror.example/alpine"));
    assert!(out.0.shared_cache);
}

#[test]
fn later_trusted_file_wins_and_keys_union() {
    let root = s("/work/proj");
    let mut t1 = empty_trusted();
    t1.allowed_dirs = vec![(s("build"), s("/first/build")), (s("docs"), s("/first/docs"))];
    let mut t2 = empty_trusted();
    t2.allowed_dirs = vec![(s("build"), s("/second/build"))];
    let out = read_settings(
        &root,
        None,
        &vec![
            (s("one.yaml"), TrustedSource::Parsed(t1)),
            (s("two.yaml"), TrustedSource::Parsed(t2)),
        ],
        &vec![],
    )
    .unwrap();
    assert_eq!(out.0.allowed_dirs.get(&s("build")).unwrap().as_str(), "/second/build");
    assert_eq!(out.0.allowed_dirs.get(&s("docs")).unwrap().as_str(), "/first/docs");
    assert!(out.0.allowed_dirs.get(&s("other")).is_none());
}

#[test]
fn site_override_applies_only_on_exact_root() {
    let mut ov = empty_override();
    ov.storage_dir = Some(s("/override/storage"));
    ov.version_check = Some(false);
    let mut trusted = empty_trusted();
    trusted.storage_dir = Some(s("/top/storage"));
    trusted.site_overrides = vec![(s("/work/proj"), ov)];

    let sources = vec![(s("trusted.yaml"), TrustedSource::Parsed(trusted))];
    let out = read_settings(&s("/work/proj"), None, &sources, &vec![]).unwrap();
    assert_eq!(out.0.storage_dir.as_deref(), Some("/override/storage"));
    assert!(!out.1.version_check);
}

#[test]
fn site_override_ignored_for_other_roots() {
    let mut ov = empty_override();
    ov.storage_dir = Some(s("/override/storage"));
    let mut trusted = empty_trusted();
    trusted.storage_dir = Some(s("/top/storage"));
    trusted.site_overrides = vec![(s("/work/proj"), ov)];

    // A prefix of the override key is not an exact match.
    let sources = vec![(s("trusted.yaml"), TrustedSource::Parsed(trusted))];
    let out = read_settings(&s("/work"), None, &sources, &vec![]).unwrap();
    assert_eq!(out.0.storage_dir.as_deref(), Some("/top/storage"));
    assert!(out.1.version_check);
}

#[test]
fn site_override_fields_follow_top_level_rules() {
    let mut ov = empty_override();
    ov.allowed_dirs = vec![(s("build"), s("/pinned/build")), (s("extra"), s("/pinned/extra"))];
    ov.cache_dir = Some(s("/pinned/cache"));
    ov.proxy_env_vars = Some(false);
    ov.ubuntu_mirror = Some(s("http://pinned.example/ubuntu"));
    let mut trusted = empty_trusted();
    trusted.allowed_dirs = vec![(s("build"), s("/top/build")), (s("docs"), s("/top/docs"))];
    trusted.site_overrides = vec![(s("/work/proj"), ov)];

    let sources = vec![(s("trusted.yaml"), TrustedSource::Parsed(trusted))];
    let out = read_settings(&s("/work/proj"), None, &sources, &vec![]).unwrap();
    // The override's entries land after the same file's top-level entries.
    assert_eq!(out.0.allowed_dirs.get(&s("build")).unwrap().as_str(), "/pinned/build");
    assert_eq!(out.0.allowed_dirs.get(&s("docs")).unwrap().as_str(), "/top/docs");
    assert_eq!(out.0.allowed_dirs.get(&s("extra")).unwrap().as_str(), "/pinned/extra");
    // An override path is taken verbatim, and still turns sharing on.
    assert_eq!(out.0.cache_dir.as_deref(), Some("/pinned/cache"));
    assert!(out.0.shared_cache);
    assert!(!out.1.proxy_env_vars);
    assert_eq!(out.1.ubuntu_mirror, "http://pinned.example/ubuntu");
}

#[test]
fn trusted_cache_dir_turns_shared_cache_on() {
    let root = s("/work/proj");
    let mut trusted = empty_trusted();
    trusted.cache_dir = Some(s("~/cache"));
    let home = s("/home/user");
    let out = read_settings(
        &root,
        Some(&home),
        &vec![(s("trusted.yaml"), TrustedSource::Parsed(trusted))],
        &vec![],
    )
    .unwrap();
    assert!(out.0.shared_cache);
    assert_eq!(out.0.cache_dir.as_deref(), Some("/home/user/cache"));
    assert!(out.0.storage_dir.is_none());
    assert!(out.0.allowed_dirs.is_empty());
    assert!(out.1.version_check);
}

#[test]
fn project_shared_cache_alone() {
    let root = s("/work/proj");
    let mut project = empty_project();
    project.shared_cache = Some(true);
    let out = read_settings(
        &root,
        None,
        &vec![],
        &vec![(s("project.yaml"), ProjectSource::Parsed(project))],
    )
    .unwrap();
    assert!(out.0.shared_cache);
    assert!(out.0.allowed_dirs.is_empty());
    assert!(out.0.cache_dir.is_none());
    assert!(out.1.version_check);
    assert_eq!(out.1.ubuntu_mirror, "mirror://mirrors.ubuntu.com/mirrors.txt");
    assert!(out.1.alpine_mirror.is_none());
}

#[test]
fn project_shared_cache_overwrites_trusted_value() {
    let root = s("/work/proj");
    let mut trusted = empty_trusted();
    trusted.cache_dir = Some(s("/var/cache/x"));
    let mut project = empty_project();
    project.shared_cache = Some(false);
    let out = read_settings(
        &root,
        None,
        &vec![(s("trusted.yaml"), TrustedSource::Parsed(trusted))],
        &vec![(s("project.yaml"), ProjectSource::Parsed(project))],
    )
    .unwrap();
    // The cache path itself stays; the sharing flag is a plain overwrite.
    assert_eq!(out.0.cache_dir.as_deref(), Some("/var/cache/x"));
    assert!(!out.0.shared_cache);
}

#[test]
fn malformed_trusted_file_aborts_resolution() {
    let root = s("/work/proj");
    let mut later = empty_trusted();
    later.storage_dir = Some(s("/var/storage"));
    let err = read_settings(
        &root,
        None,
        &vec![
            (s("a.yaml"), TrustedSource::Absent),
            (s("b.yaml"), TrustedSource::Malformed(s("bad scalar"))),
            (s("c.yaml"), TrustedSource::Parsed(later)),
        ],
        &vec![],
    )
    .unwrap_err();
    match err {
        ConfigError::Parse(file, detail) => {
            assert_eq!(file, "b.yaml");
            assert_eq!(detail, "bad scalar");
        },
        other => panic!("wrong error: {:?}", other),
    }
}

#[test]
fn malformed_project_file_aborts_resolution() {
    let root = s("/work/proj");
    let err = read_settings(
        &root,
        None,
        &vec![],
        &vec![(s("p.yaml"), ProjectSource::Malformed(s("unknown field")))],
    )
    .unwrap_err();
    match err {
        ConfigError::Parse(file, detail) => {
            assert_eq!(file, "p.yaml");
            assert_eq!(detail, "unknown field");
        },
        other => panic!("wrong error: {:?}", other),
    }
}

#[test]
fn tilde_without_home_is_a_distinct_fatal_error() {
    let root = s("/work/proj");
    let mut trusted = empty_trusted();
    trusted.cache_dir = Some(s("~/cache"));
    let err = read_settings(
        &root,
        None,
        &vec![(s("t.yaml"), TrustedSource::Parsed(trusted))],
        &vec![],
    )
    .unwrap_err();
    match err {
        ConfigError::NoHome(field, file) => {
            assert_eq!(field, "cache_dir");
            assert_eq!(file, "t.yaml");
        },
        other => panic!("wrong error: {:?}", other),
    }
}

#[test]
fn expand_home_rewrites_only_tilde_components() {
    let home = s("/home/user");
    assert_eq!(
        expand_home(&s("~/data"), Some(&home)).unwrap(),
        "/home/user/data"
    );
    assert_eq!(expand_home(&s("~"), Some(&home)).unwrap(), "/home/user");
    assert_eq!(expand_home(&s("/abs/path"), Some(&home)).unwrap(), "/abs/path");
    assert_eq!(expand_home(&s("~tilde-user/x"), None).unwrap(), "~tilde-user/x");
    assert!(expand_home(&s("~/data"), None).is_none());
}

#[test]
fn candidate_lists_follow_the_fixed_order() {
    let home = s("/home/user");
    let trusted = trusted_candidate_paths(Some(&home));
    assert_eq!(
        trusted,
        vec![
            s("/home/user/.config/vagga/settings.yaml"),
            s("/home/user/.vagga/settings.yaml"),
            s("/home/user/.vagga.yaml"),
        ]
    );
    assert!(trusted_candidate_paths(None).is_empty());
    let project = project_candidate_paths(&s("/work/proj"));
    assert_eq!(
        project,
        vec![s("/work/proj/.vagga.settings.yaml"), s("/work/proj/.vagga/settings.yaml")]
    );
}

#[test]
fn pathmap_insert_overwrites_single_key() {
    let mut m = PathMap::new();
    assert!(m.is_empty());
    m.insert(s("build"), s("/a"));
    m.insert(s("docs"), s("/d"));
    m.insert(s("build"), s("/b"));
    assert!(!m.is_empty());
    assert_eq!(m.get(&s("build")).unwrap().as_str(), "/b");
    assert_eq!(m.get(&s("docs")).unwrap().as_str(), "/d");
    assert!(m.get(&s("missing")).is_none());
}
