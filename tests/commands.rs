use farm::alias::{alias_remove, alias_set, visible_names, AliasError, StoredAlias};
use farm::install::{FarmError as InstallError, Install, InstallAction, InstallEvent, InstallStage};
use farm::layout::Layout;
use farm::local::{FarmError, Global, GlobalError, Local};
use farm::resolve::{resolve, ResolveError};
use farm::switch::{replace_symlink, LinkState, SwapError};
use farm::version::Version;

fn layout() -> Layout {
    Layout { base: "/base".to_string() }
}

fn names(list: &[&str]) -> Vec<String> {
    list.iter().map(|s| s.to_string()).collect()
}

#[test]
fn layout_paths() {
    let l = layout();
    assert_eq!(l.versions_dir(), "/base/versions");
    assert_eq!(l.aliases_dir(), "/base/aliases");
    assert_eq!(l.downloads_dir(), "/base/versions/.downloads");
    assert_eq!(l.default_version_dir(), "/base/default");
    assert_eq!(l.current_link(), "/base/current");
    let v = Version::parse("2.6.4").unwrap();
    assert_eq!(v.installation_path(&l), Some("/base/versions/v2.6.4".to_string()));
    let a = Version::parse("Stable").unwrap();
    assert_eq!(a.installation_path(&l), Some("/base/aliases/stable".to_string()));
}

#[test]
fn resolve_priority() {
    let files = vec![Some("2.7.0\n".to_string()), None];
    let explicit = resolve(Some("3.0.0"), &files).unwrap();
    assert_eq!(explicit, Version::parse("3.0.0").unwrap());
    let from_file = resolve(None, &files).unwrap();
    assert_eq!(from_file, Version::parse("2.7.0").unwrap());
    let from_empty_arg = resolve(Some(""), &files).unwrap();
    assert_eq!(from_empty_arg, Version::parse("2.7.0").unwrap());
    assert!(matches!(resolve(None, &vec![None, None]), Err(ResolveError::CantInferVersion)));
    assert!(matches!(resolve(None, &vec![]), Err(ResolveError::CantInferVersion)));
}

#[test]
fn resolve_stops_at_nearest() {
    let files = vec![None, Some("  2.5.1 ".to_string()), Some("2.7.0".to_string())];
    assert_eq!(resolve(None, &files).unwrap(), Version::parse("2.5.1").unwrap());
    let files = vec![Some("2.6.0".to_string()), Some("2.7.0".to_string())];
    assert_eq!(resolve(None, &files).unwrap(), Version::parse("2.6.0").unwrap());
}

#[test]
fn resolve_reports_parse_error() {
    assert!(matches!(resolve(Some("1.x"), &vec![]), Err(ResolveError::Parse(_))));
}

#[test]
fn failed_switch_keeps_link() {
    let mut link = LinkState { target: Some("/base/versions/v2.6.4".to_string()) };
    let r = replace_symlink(&mut link, "/base/versions/v3.0.0", Ok(()), Err("denied".to_string()));
    assert!(matches!(r, Err(SwapError::Create(ref c)) if c == "denied"));
    assert_eq!(link.target, Some("/base/versions/v2.6.4".to_string()));
    let r = replace_symlink(&mut link, "/base/versions/v3.0.0", Err("busy".to_string()), Err("denied".to_string()));
    match r {
        Err(SwapError::Combined { removal, creation }) => {
            assert_eq!(removal, "busy");
            assert_eq!(creation, "denied");
        }
        _ => panic!("expected a combined failure"),
    }
    assert_eq!(link.target, Some("/base/versions/v2.6.4".to_string()));
}

#[test]
fn successful_switch_moves_link() {
    let mut link = LinkState { target: None };
    let r = replace_symlink(&mut link, "/base/versions/v3.0.0", Err("gone".to_string()), Ok(()));
    assert!(r.is_ok());
    assert_eq!(link.target, Some("/base/versions/v3.0.0".to_string()));
    assert!(farm::switch::points_at(&link, "/base/versions/v3.0.0"));
}

#[test]
fn alias_set_needs_installed_target() {
    let l = layout();
    let target = Version::parse("2.6.4").unwrap();
    assert!(matches!(alias_set(&l, "stable", &target, &names(&[])), Err(AliasError::AliasTargetNotInstalled)));
    let link = alias_set(&l, "stable", &target, &names(&["v2.6.4"])).unwrap();
    assert_eq!(link.from, "/base/versions/v2.6.4");
    assert_eq!(link.to, "/base/aliases/stable");
}

#[test]
fn alias_remove_and_find() {
    let l = layout();
    let stored = vec![
        StoredAlias { name: "stable".to_string(), target: "v2.6.4".to_string() },
        StoredAlias { name: "old".to_string(), target: "v2.5.0".to_string() },
        StoredAlias { name: "lts".to_string(), target: "v2.6.4".to_string() },
    ];
    assert_eq!(alias_remove(&l, "old", &stored).unwrap(), "/base/aliases/old");
    assert!(matches!(alias_remove(&l, "none", &stored), Err(AliasError::AliasNotFound)));
    let found = Version::parse("2.6.4").unwrap().find_aliases(&stored);
    let found: Vec<String> = found.iter().map(|a| a.name.clone()).collect();
    assert_eq!(found, vec!["stable".to_string(), "lts".to_string()]);
    assert_eq!(stored[1].s_ver(), "v2.5.0");
}

#[test]
fn hidden_entries_are_skipped() {
    let listed = visible_names(&names(&[".downloads", "v2.6.4", ".x", "v3.0.0"]));
    assert_eq!(listed, names(&["v2.6.4", "v3.0.0"]));
}

#[test]
fn test_not_found_version() {
    let plan = Local { version: Some("2.6.4".to_string()) }.apply(&layout(), &vec![], &vec![]);
    assert!(plan.relink.is_none());
    match plan.result {
        Ok(_) => assert!(false),
        Err(FarmError::VersionNotFound { .. }) => assert!(true),
        _ => assert!(false),
    }
}

#[test]
fn test_local_specified_version() {
    let l = layout();
    let installed = names(&["v2.6.4"]);
    let links = Global { version: "2.6.4".to_string() }.apply(&l, &installed).unwrap();
    assert_eq!(links.len(), 2);
    let plan = Local { version: Some("2.6.4".to_string()) }.apply(&l, &vec![], &installed);
    let relink = plan.relink.expect("failed to install");
    assert_eq!(relink.from, "/base/versions/v2.6.4");
    assert_eq!(relink.to, "/base/current");
    assert_eq!(plan.result.unwrap(), Version::parse("2.6.4").unwrap());
}

#[test]
fn global_needs_exact_installed_version() {
    let l = layout();
    assert!(matches!(Global { version: "stable".to_string() }.apply(&l, &names(&["stable"])), Err(GlobalError::Parse(_))));
    assert!(matches!(Global { version: "1.x".to_string() }.apply(&l, &names(&[])), Err(GlobalError::Parse(_))));
    assert!(matches!(Global { version: "2.6.4".to_string() }.apply(&l, &names(&[])), Err(GlobalError::VersionNotFound { .. })));
}

#[test]
fn local_parse_error_repoints_nothing() {
    let plan = Local { version: Some("3.x".to_string()) }.apply(&layout(), &vec![], &vec![]);
    assert!(plan.relink.is_none());
    assert!(matches!(plan.result, Err(FarmError::Parse(_))));
}

#[test]
fn install_404_is_version_not_found() {
    let l = layout();
    let install = Install { version: "9.9.9".to_string() };
    let (stage, action) = install.apply(&l, InstallStage::Downloading, InstallEvent::Response { status: 404 });
    assert!(matches!(stage, InstallStage::Failed));
    match action {
        InstallAction::Abort(InstallError::VersionNotFound { version }) => assert_eq!(version, "9.9.9"),
        other => panic!("unexpected {:?}", other),
    }
}

#[test]
fn install_failures_abort() {
    let l = layout();
    let install = Install { version: "2.6.4".to_string() };
    let (_, a) = install.apply(&l, InstallStage::Downloading, InstallEvent::Response { status: 500 });
    assert!(matches!(a, InstallAction::Abort(InstallError::DownloadFailed)));
    let (_, a) = install.apply(&l, InstallStage::Downloading, InstallEvent::TransportFailed);
    assert!(matches!(a, InstallAction::Abort(InstallError::DownloadFailed)));
    let (_, a) = install.apply(&l, InstallStage::Extracting, InstallEvent::Extracted { staging: "/t".to_string(), entries: vec![] });
    assert!(matches!(a, InstallAction::Abort(InstallError::ArchiveEmpty)));
    let (_, a) = install.apply(&l, InstallStage::Extracting, InstallEvent::Extracted { staging: "/t".to_string(), entries: names(&["a", "b"]) });
    assert!(matches!(a, InstallAction::Abort(InstallError::ArchiveLayoutUnexpected)));
    let (_, a) = install.apply(&l, InstallStage::Extracting, InstallEvent::ExtractFailed);
    assert!(matches!(a, InstallAction::Abort(InstallError::Io)));
    let (_, a) = install.apply(&l, InstallStage::Building { source: "/t/a".to_string() }, InstallEvent::Built { success: false });
    assert!(matches!(a, InstallAction::Abort(InstallError::BuildFailed)));
    let (_, a) = install.apply(&l, InstallStage::Promoting { source: "/t/a".to_string() }, InstallEvent::Promoted { success: false });
    assert!(matches!(a, InstallAction::Abort(InstallError::PromotionFailed)));
    let (_, a) = install.apply(&l, InstallStage::Installed, InstallEvent::Started);
    assert!(matches!(a, InstallAction::Abort(InstallError::Io)));
    let bad = Install { version: "stable".to_string() };
    let (_, a) = bad.apply(&l, InstallStage::Requested, InstallEvent::Started);
    assert!(matches!(a, InstallAction::Abort(InstallError::Parse(_))));
}

#[test]
fn end_to_end_install_global_local() {
    let l = layout();
    let install = Install { version: "2.6.4".to_string() };
    let (stage, action) = install.apply(&l, InstallStage::Requested, InstallEvent::Started);
    match action {
        InstallAction::Download { version } => assert_eq!(version, "2.6.4"),
        other => panic!("unexpected {:?}", other),
    }
    let (stage, action) = install.apply(&l, stage, InstallEvent::Response { status: 200 });
    match action {
        InstallAction::Extract { staging_root } => assert_eq!(staging_root, "/base/versions/.downloads"),
        other => panic!("unexpected {:?}", other),
    }
    let extracted = InstallEvent::Extracted {
        staging: "/base/versions/.downloads/tmp1".to_string(),
        entries: names(&["ruby-2.6.4"]),
    };
    let (stage, action) = install.apply(&l, stage, extracted);
    match action {
        InstallAction::Build { source, prefix } => {
            assert_eq!(source, "/base/versions/.downloads/tmp1/ruby-2.6.4");
            assert_eq!(prefix, "/base/versions/v2.6.4");
        }
        other => panic!("unexpected {:?}", other),
    }
    let (stage, action) = install.apply(&l, stage, InstallEvent::Built { success: true });
    match action {
        InstallAction::Promote { from, to } => {
            assert_eq!(from, "/base/versions/.downloads/tmp1/ruby-2.6.4");
            assert_eq!(to, "/base/versions/v2.6.4");
        }
        other => panic!("unexpected {:?}", other),
    }
    let (stage, action) = install.apply(&l, stage, InstallEvent::Promoted { success: true });
    assert!(matches!(stage, InstallStage::Installed));
    assert!(matches!(action, InstallAction::Finish));

    let installed = names(&["v2.6.4"]);
    let links = Global { version: "2.6.4".to_string() }.apply(&l, &installed).unwrap();
    assert_eq!(links[0].from, "/base/versions/v2.6.4");
    assert_eq!(links[0].to, "/base/default");
    assert_eq!(links[1].to, "/base/current");

    let plan = Local { version: None }.apply(&l, &vec![None, None], &installed);
    assert!(matches!(plan.result, Err(FarmError::CantInferVersion)));
    let relink = plan.relink.unwrap();
    assert_eq!(relink.from, "/base/default");
    assert_eq!(relink.to, "/base/current");
}

#[test]
fn package_url_joins_onto_mirror() {
    let u = farm::install::package_url("https://cache.ruby-lang.org/pub/ruby/", "2.6.4");
    assert_eq!(u, Some("https://cache.ruby-lang.org/pub/ruby/ruby-2.6.4.tar.xz".to_string()));
    let u = farm::install::package_url("https://example.org/a/b", "2.6.4");
    assert_eq!(u, Some("https://example.org/a/ruby-2.6.4.tar.xz".to_string()));
    assert_eq!(farm::install::package_url("not a url", "2.6.4"), None);
}
