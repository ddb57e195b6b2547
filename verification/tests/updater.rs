use akagi::updater::{
    copy_tree, find_binary, BinaryPlace, CopyAction, CopyEvent, Download, EntryProbe,
    FrontendCopy, ReleaseInfo, Source, UpdateAction, UpdateError, UpdateEvent, UpdateFlow,
};

/// What there is in a directory: its entries, each a file or a directory with
/// its own.
enum Node {
    File,
    Dir(Vec<(&'static str, Node)>),
}

fn has_file(entries: &[(&'static str, Node)], name: &str) -> bool {
    entries.iter().any(|(n, node)| *n == name && matches!(node, Node::File))
}

/// The path at which the program is found.
fn locate(entries: &[(&'static str, Node)], name: &str) -> Option<String> {
    let probes: Vec<EntryProbe> = entries
        .iter()
        .map(|(_, node)| match node {
            Node::File => EntryProbe::NotADirectory,
            Node::Dir(inner) => EntryProbe::Directory { holds_binary: has_file(inner, name) },
        })
        .collect();
    match find_binary(has_file(entries, name), Some(&probes))? {
        BinaryPlace::Top => Some(name.to_string()),
        BinaryPlace::Inside(i) => Some(format!("{}/{name}", entries[i].0)),
    }
}

#[test]
fn find_binary_locates_inside_wrapped_dir() {
    let tree = [(
        "akagi-3.0.12-linux-x64",
        Node::Dir(vec![
            ("akagi", Node::File),
            ("README.txt", Node::File),
            ("runtime", Node::Dir(vec![("python", Node::Dir(vec![("keep.txt", Node::File)]))])),
        ]),
    )];
    let found = locate(&tree, "akagi").expect("should find the binary one level down");
    assert!(found.ends_with("akagi-3.0.12-linux-x64/akagi"));
}

#[test]
fn find_binary_returns_none_when_absent() {
    let tree = [("akagi-3.0.12-linux-x64", Node::Dir(vec![("README.txt", Node::File)]))];
    assert!(locate(&tree, "akagi").is_none());
}

#[test]
fn find_binary_prefers_direct_hit() {
    let tree = [("akagi", Node::File), ("subdir", Node::Dir(vec![("akagi", Node::File)]))];
    assert_eq!(locate(&tree, "akagi").unwrap(), "akagi");
}

#[test]
fn find_binary_gives_up_where_it_cannot_tell() {
    let hit = EntryProbe::Directory { holds_binary: true };
    let miss = EntryProbe::Directory { holds_binary: false };
    assert_eq!(find_binary(false, None), None);
    assert_eq!(
        find_binary(false, Some(&[EntryProbe::Unreadable, miss, EntryProbe::NotADirectory, hit])),
        Some(BinaryPlace::Inside(3))
    );
    assert_eq!(find_binary(false, Some(&[miss, EntryProbe::UnknownType, hit])), None);
    assert_eq!(find_binary(false, Some(&[hit, hit])), Some(BinaryPlace::Inside(0)));
}

/// Copies a Web UI as the actions say, and lists what was copied in order.
fn copy(entries: &[(&'static str, Node)]) -> Vec<String> {
    fn tree(path: &str, entries: &[(&'static str, Node)], out: &mut Vec<String>) {
        for (name, node) in entries {
            let path = format!("{path}/{name}");
            match (copy_tree(matches!(node, Node::Dir(_))), node) {
                (CopyAction::CopyTree, Node::Dir(inner)) => tree(&path, inner, out),
                (CopyAction::CopyFile, Node::File) => out.push(path),
                _ => unreachable!(),
            }
        }
    }
    let mut out = Vec::new();
    let mut flow = FrontendCopy::new();
    for (name, node) in entries {
        let is_dir = matches!(node, Node::Dir(_));
        match (flow.copy_frontend(CopyEvent::Entry { name: name.to_string(), is_dir }), node) {
            (CopyAction::CopyTree, Node::Dir(inner)) => tree(name, inner, &mut out),
            (CopyAction::CopyFile, Node::File) => out.push(name.to_string()),
            (CopyAction::Leave, Node::File) => {}
            _ => unreachable!(),
        }
    }
    assert_eq!(flow.copy_frontend(CopyEvent::End), CopyAction::CopyIndex);
    out.push("index.html".to_string());
    assert_eq!(flow.copy_frontend(CopyEvent::End), CopyAction::Ignore);
    out
}

#[test]
fn copy_frontend_handles_nested_assets() {
    let source = [
        ("index.html", Node::File),
        ("assets", Node::Dir(vec![("app.js", Node::File)])),
    ];
    assert_eq!(copy(&source), vec!["assets/app.js", "index.html"]);
}

#[test]
fn only_the_top_entry_page_waits() {
    let source = [
        ("index.html", Node::File),
        ("favicon.ico", Node::File),
        ("docs", Node::Dir(vec![("index.html", Node::File)])),
    ];
    assert_eq!(copy(&source), vec!["favicon.ico", "docs/index.html", "index.html"]);
    let mut flow = FrontendCopy::new();
    assert_eq!(
        flow.copy_frontend(CopyEvent::Entry { name: "index.html".into(), is_dir: true }),
        CopyAction::CopyTree
    );
}

fn info(digest: Option<&str>, signed: bool, meta_source: Source) -> ReleaseInfo {
    ReleaseInfo {
        latest_version: "3.0.12".into(),
        asset_digest_sha256: digest.map(str::to_string),
        signed,
        meta_source,
    }
}

fn downloaded(source: Source, digest: &str) -> UpdateEvent {
    UpdateEvent::Downloaded(Some(Download { source, digest: digest.into() }))
}

/// What an update does once its archive is there.
fn judged(info: ReleaseInfo, source: Source, digest: &str) -> UpdateAction {
    let mut flow = UpdateFlow::new(info);
    assert_eq!(
        flow.download_and_apply(UpdateEvent::Probed(Some(true))),
        UpdateAction::Download
    );
    flow.download_and_apply(downloaded(source, digest))
}

#[test]
fn the_digest_is_compared_without_case() {
    let direct = |d| info(d, false, Source::Direct);
    assert_eq!(judged(direct(Some("AB12")), Source::Direct, "ab12"), UpdateAction::Extract);
    assert_eq!(judged(direct(None), Source::Direct, "ab12"), UpdateAction::Extract);
    for digest in ["ab13", "ab1", "ab123", ""] {
        assert_eq!(
            judged(direct(Some("AB12")), Source::Direct, digest),
            UpdateAction::Fail(UpdateError::DigestMismatch)
        );
    }
}

#[test]
fn a_mirror_demands_a_signature() {
    for (meta, zip) in [
        (Source::Mirror, Source::Direct),
        (Source::Direct, Source::Mirror),
        (Source::Mirror, Source::Mirror),
    ] {
        assert_eq!(
            judged(info(None, false, meta), zip, "ab"),
            UpdateAction::Fail(UpdateError::SignatureMissing)
        );
        assert_eq!(judged(info(None, true, meta), zip, "ab"), UpdateAction::FetchSignature);
    }
    assert_eq!(
        judged(info(None, true, Source::Direct), Source::Direct, "ab"),
        UpdateAction::FetchSignature
    );
}

/// A signed update in all its steps, with the answer that lets it go on and
/// what comes next.
fn signed_steps() -> Vec<(UpdateEvent, UpdateAction)> {
    vec![
        (UpdateEvent::Probed(Some(true)), UpdateAction::Download),
        (downloaded(Source::Mirror, "ab"), UpdateAction::FetchSignature),
        (UpdateEvent::SignatureFetched { ok: true }, UpdateAction::FindPlatform),
        (
            UpdateEvent::PlatformFound { triple: Some("linux-x64".into()) },
            UpdateAction::NameAsset { version: "3.0.12".into(), triple: "linux-x64".into() },
        ),
        (
            UpdateEvent::AssetNamed { name: "akagi-3.0.12-linux-x64.zip".into() },
            UpdateAction::VerifySignature { name: "akagi-3.0.12-linux-x64.zip".into() },
        ),
        (UpdateEvent::Verified { ok: true }, UpdateAction::Extract),
        (UpdateEvent::Extracted { ok: true }, UpdateAction::FindBinary),
        (UpdateEvent::BinaryFound { found: true }, UpdateAction::FindFrontend),
        (UpdateEvent::FrontendFound { found: true }, UpdateAction::CopyFrontend),
        (UpdateEvent::FrontendCopied { ok: true }, UpdateAction::ReplaceBinary),
        (UpdateEvent::BinaryReplaced { ok: true }, UpdateAction::Restart),
        (UpdateEvent::Restarted { ok: true }, UpdateAction::Exit),
    ]
}

#[test]
fn a_signed_update_goes_all_the_way() {
    let mut flow = UpdateFlow::new(info(Some("AB"), true, Source::Mirror));
    for (ev, action) in signed_steps() {
        assert_eq!(flow.download_and_apply(ev), action);
    }
    assert_eq!(
        flow.download_and_apply(UpdateEvent::Restarted { ok: true }),
        UpdateAction::Ignore
    );
}

#[test]
fn every_step_of_an_update_can_fail() {
    // How many steps come before, what fails, and why.
    let failures = [
        (0, UpdateEvent::Probed(Some(false)), UpdateError::ReadOnlyInstall),
        (1, UpdateEvent::Downloaded(None), UpdateError::Failed),
        (2, UpdateEvent::SignatureFetched { ok: false }, UpdateError::Failed),
        (3, UpdateEvent::PlatformFound { triple: None }, UpdateError::UnsupportedPlatform),
        (5, UpdateEvent::Verified { ok: false }, UpdateError::SignatureInvalid),
        (6, UpdateEvent::Extracted { ok: false }, UpdateError::Failed),
        (7, UpdateEvent::BinaryFound { found: false }, UpdateError::NoMatchingAsset),
        (8, UpdateEvent::FrontendFound { found: false }, UpdateError::NoMatchingAsset),
        (9, UpdateEvent::FrontendCopied { ok: false }, UpdateError::Failed),
        (10, UpdateEvent::BinaryReplaced { ok: false }, UpdateError::Failed),
        (11, UpdateEvent::Restarted { ok: false }, UpdateError::Failed),
    ];
    for (n, bad, error) in failures {
        let mut flow = UpdateFlow::new(info(Some("AB"), true, Source::Mirror));
        for (ev, _) in signed_steps().into_iter().take(n) {
            flow.download_and_apply(ev);
        }
        assert_eq!(flow.download_and_apply(bad), UpdateAction::Fail(error));
        assert_eq!(
            flow.download_and_apply(UpdateEvent::Verified { ok: true }),
            UpdateAction::Ignore
        );
    }
    let mut unknown = UpdateFlow::new(info(None, true, Source::Direct));
    assert_eq!(
        unknown.download_and_apply(UpdateEvent::Probed(None)),
        UpdateAction::Fail(UpdateError::Failed)
    );
}

#[test]
fn events_out_of_turn_earn_no_trust() {
    let mut flow = UpdateFlow::new(info(None, true, Source::Mirror));
    assert_eq!(
        flow.download_and_apply(UpdateEvent::Verified { ok: true }),
        UpdateAction::Ignore
    );
    flow.download_and_apply(UpdateEvent::Probed(Some(true)));
    flow.download_and_apply(downloaded(Source::Mirror, "ab"));
    assert_eq!(
        flow.download_and_apply(UpdateEvent::Verified { ok: true }),
        UpdateAction::Ignore
    );
    assert_eq!(
        flow.download_and_apply(UpdateEvent::SignatureFetched { ok: true }),
        UpdateAction::FindPlatform
    );
}

#[test]
fn nothing_is_copied_after_the_entry_page() {
    let mut flow = FrontendCopy::new();
    assert_eq!(flow.copy_frontend(CopyEvent::End), CopyAction::CopyIndex);
    for (name, is_dir) in [("index.html", false), ("app.js", false), ("assets", true)] {
        assert_eq!(
            flow.copy_frontend(CopyEvent::Entry { name: name.into(), is_dir }),
            CopyAction::Ignore
        );
    }
}
