use bootc_status::host::assemble_host;
use bootc_status::imgref::OstreeImageReference;
use bootc_status::model::BootEntry;
use bootc_status::model::BootEntryOstree;
use bootc_status::model::Host;
use bootc_status::model::ImageReference;
use bootc_status::model::ImageSignature;
use bootc_status::model::ImageStatus;
use bootc_status::model::Store;
use bootc_status::render::human_readable_output;
use bootc_status::timestamp::parse_timestamp;

fn image_entry(
    image: &str,
    transport: &str,
    digest: &str,
    arch: &str,
    version: Option<&str>,
    created: Option<&str>,
    pinned: bool,
    ostree: Option<(&str, u64, &str)>,
) -> BootEntry {
    BootEntry {
        image: Some(ImageStatus {
            image: ImageReference {
                image: image.to_string(),
                transport: transport.to_string(),
                signature: None,
            },
            version: version.map(|v| v.to_string()),
            timestamp: created.and_then(parse_timestamp),
            image_digest: digest.to_string(),
            architecture: arch.to_string(),
        }),
        cached_update: None,
        incompatible: false,
        soft_reboot_capable: false,
        store: Some(Store::OstreeContainer),
        pinned,
        ostree: ostree.map(|(checksum, serial, stateroot)| BootEntryOstree {
            checksum: checksum.to_string(),
            deploy_serial: serial,
            stateroot: stateroot.to_string(),
        }),
        composefs: None,
    }
}

fn ostree_entry(commit: &str, serial: u64, stateroot: &str, pinned: bool) -> BootEntry {
    BootEntry {
        image: None,
        cached_update: None,
        incompatible: false,
        soft_reboot_capable: false,
        store: Some(Store::OstreeContainer),
        pinned,
        ostree: Some(BootEntryOstree {
            checksum: commit.to_string(),
            deploy_serial: serial,
            stateroot: stateroot.to_string(),
        }),
        composefs: None,
    }
}

fn render(host: &Host, verbose: bool) -> String {
    let mut out = String::new();
    human_readable_output(&mut out, host, verbose);
    out
}

#[test]
fn test_human_readable_base_spec() {
    // Staged and booted image entries, null rollback.
    let staged = image_entry(
        "quay.io/example/someimage:latest",
        "registry",
        "sha256:16dc2b6256b4ff0d2ec18d2dbfb06d117904010c8cf9732cdb022818cf7a7566",
        "arm64",
        Some("nightly"),
        Some("2023-10-14T19:22:15Z"),
        false,
        None,
    );
    let booted = image_entry(
        "quay.io/example/someimage:latest",
        "registry",
        "sha256:736b359467c9437c1ac915acaae952aad854e07eb4a16a94999a48af08c83c34",
        "arm64",
        Some("nightly"),
        Some("2023-09-30T19:22:16Z"),
        false,
        None,
    );
    let host = assemble_host(Some(staged), Some(booted), None, Vec::new(), false);
    let expected = "  Staged image: quay.io/example/someimage:latest\n        Digest: sha256:16dc2b6256b4ff0d2ec18d2dbfb06d117904010c8cf9732cdb022818cf7a7566 (arm64)\n       Version: nightly (2023-10-14T19:22:15Z)\n\n\u{25cf} Booted image: quay.io/example/someimage:latest\n        Digest: sha256:736b359467c9437c1ac915acaae952aad854e07eb4a16a94999a48af08c83c34 (arm64)\n       Version: nightly (2023-09-30T19:22:16Z)\n";
    assert_eq!(render(&host, false), expected);
}

#[test]
fn test_human_readable_rfe_spec() {
    // A plain deployment-store install with no image anywhere.
    let staged = ostree_entry(
        "1c24260fdd1be20f72a4a97a75c582834ee3431fbb0fa8e4f482bb219d633a45",
        0,
        "default",
        false,
    );
    let booted = ostree_entry(
        "f9fa3a553ceaaaf30cf85bfe7eed46a822f7b8fd7e14c1e3389cbc3f6d27f791",
        0,
        "default",
        false,
    );
    let host = assemble_host(Some(staged), Some(booted), None, Vec::new(), false);
    let expected = "  Staged ostree\n         Commit: 1c24260fdd1be20f72a4a97a75c582834ee3431fbb0fa8e4f482bb219d633a45\n\n\u{25cf} Booted ostree\n         Commit: f9fa3a553ceaaaf30cf85bfe7eed46a822f7b8fd7e14c1e3389cbc3f6d27f791\n";
    assert_eq!(render(&host, false), expected);
}

#[test]
fn test_human_readable_staged_spec() {
    // A staged image over a plain deployment-store boot.
    let staged = image_entry(
        "quay.io/centos-bootc/centos-bootc:stream9",
        "registry",
        "sha256:47e5ed613a970b6574bfa954ab25bb6e85656552899aa518b5961d9645102b38",
        "s390x",
        Some("stream9.20240807.0"),
        None,
        false,
        None,
    );
    let booted = ostree_entry(
        "f9fa3a553ceaaaf30cf85bfe7eed46a822f7b8fd7e14c1e3389cbc3f6d27f791",
        0,
        "default",
        false,
    );
    let host = assemble_host(Some(staged), Some(booted), None, Vec::new(), false);
    let expected = "  Staged image: quay.io/centos-bootc/centos-bootc:stream9\n        Digest: sha256:47e5ed613a970b6574bfa954ab25bb6e85656552899aa518b5961d9645102b38 (s390x)\n       Version: stream9.20240807.0\n\n\u{25cf} Booted ostree\n         Commit: f9fa3a553ceaaaf30cf85bfe7eed46a822f7b8fd7e14c1e3389cbc3f6d27f791\n";
    assert_eq!(render(&host, false), expected);
}

#[test]
fn test_human_readable_booted_spec() {
    // A booted image, no staged or rollback.
    let booted = image_entry(
        "quay.io/centos-bootc/centos-bootc:stream9",
        "registry",
        "sha256:47e5ed613a970b6574bfa954ab25bb6e85656552899aa518b5961d9645102b38",
        "arm64",
        Some("stream9.20240807.0"),
        None,
        false,
        None,
    );
    let host = assemble_host(None, Some(booted), None, Vec::new(), false);
    let expected = "\u{25cf} Booted image: quay.io/centos-bootc/centos-bootc:stream9\n        Digest: sha256:47e5ed613a970b6574bfa954ab25bb6e85656552899aa518b5961d9645102b38 (arm64)\n       Version: stream9.20240807.0\n";
    assert_eq!(render(&host, false), expected);
}

#[test]
fn test_human_readable_staged_rollback_spec() {
    // Staged and rollback images with no booted deployment.
    let staged = image_entry(
        "quay.io/centos-bootc/centos-bootc:stream9",
        "registry",
        "sha256:47e5ed613a970b6574bfa954ab25bb6e85656552899aa518b5961d9645102b38",
        "arm64",
        Some("stream9.20240807.0"),
        None,
        false,
        None,
    );
    let rollback = image_entry(
        "quay.io/centos-bootc/centos-bootc:stream9",
        "registry",
        "sha256:47e5ed613a970b6574bfa954ab25bb6e85656552899aa518b5961d9645102b37",
        "arm64",
        Some("stream9.20240807.0"),
        None,
        false,
        None,
    );
    let host = assemble_host(Some(staged), None, Some(rollback), Vec::new(), false);
    let expected = "System is not deployed via bootc.\n";
    assert_eq!(render(&host, false), expected);
}

#[test]
fn test_via_oci() {
    // A booted image from a local OCI directory.
    let booted = image_entry(
        "/var/mnt/osupdate",
        "oci",
        "sha256:47e5ed613a970b6574bfa954ab25bb6e85656552899aa518b5961d9645102b38",
        "amd64",
        Some("stream9.20240807.0"),
        None,
        false,
        None,
    );
    let host = assemble_host(None, Some(booted), None, Vec::new(), false);
    let expected = "\u{25cf} Booted image: oci:/var/mnt/osupdate\n        Digest: sha256:47e5ed613a970b6574bfa954ab25bb6e85656552899aa518b5961d9645102b38 (amd64)\n       Version: stream9.20240807.0\n";
    assert_eq!(render(&host, false), expected);
}

#[test]
fn test_convert_signatures() {
    let ir_unverified = OstreeImageReference::parse(
        "ostree-unverified-registry:quay.io/someexample/foo:latest",
    )
    .unwrap();
    let ir_ostree = OstreeImageReference::parse(
        "ostree-remote-registry:fedora:quay.io/fedora/fedora-coreos:stable",
    )
    .unwrap();

    let ir = ImageReference::from(ir_unverified.clone());
    assert_eq!(ir.image, "quay.io/someexample/foo:latest");
    assert_eq!(ir.signature, None);

    let ir = ImageReference::from(ir_ostree.clone());
    assert_eq!(ir.image, "quay.io/fedora/fedora-coreos:stable");
    assert_eq!(
        ir.signature,
        Some(ImageSignature::OstreeRemote("fedora".into()))
    );
}

#[test]
fn test_human_readable_booted_pinned_spec() {
    // A pinned booted image plus a pinned other deployment.
    let booted = image_entry(
        "quay.io/centos-bootc/centos-bootc:stream9",
        "registry",
        "sha256:47e5ed613a970b6574bfa954ab25bb6e85656552899aa518b5961d9645102b38",
        "arm64",
        Some("stream9.20240807.0"),
        None,
        true,
        None,
    );
    let other = image_entry(
        "quay.io/centos-bootc/centos-bootc:stream9",
        "registry",
        "sha256:47e5ed613a970b6574bfa954ab25bb6e85656552899aa518b5961d9645102b37",
        "arm64",
        Some("stream9.20240807.0"),
        None,
        true,
        None,
    );
    let host = assemble_host(None, Some(booted), None, vec![other], false);
    let expected = "\u{25cf} Booted image: quay.io/centos-bootc/centos-bootc:stream9\n        Digest: sha256:47e5ed613a970b6574bfa954ab25bb6e85656552899aa518b5961d9645102b38 (arm64)\n       Version: stream9.20240807.0\n        Pinned: yes\n\n   Other image: quay.io/centos-bootc/centos-bootc:stream9\n        Digest: sha256:47e5ed613a970b6574bfa954ab25bb6e85656552899aa518b5961d9645102b37 (arm64)\n       Version: stream9.20240807.0\n        Pinned: yes\n";
    assert_eq!(render(&host, false), expected);
}

#[test]
fn rendering_is_repeatable() {
    // Rendering the same snapshot twice yields byte-identical output.
    let booted = image_entry(
        "quay.io/example/someimage:latest",
        "registry",
        "sha256:16dc2b6256b4ff0d2ec18d2dbfb06d117904010c8cf9732cdb022818cf7a7566",
        "arm64",
        Some("nightly"),
        Some("2023-10-14T19:22:15Z"),
        true,
        Some(("f9fa3a553ceaaaf30cf85bfe7eed46a822f7b8fd7e14c1e3389cbc3f6d27f791", 1, "default")),
    );
    let host = assemble_host(None, Some(booted), None, Vec::new(), false);
    assert_eq!(render(&host, true), render(&host, true));
    assert_eq!(render(&host, false), render(&host, false));
}

#[test]
fn unknown_state_line() {
    // A booted entry with no image, backend or composefs data.
    let booted = BootEntry {
        image: None,
        cached_update: None,
        incompatible: false,
        soft_reboot_capable: false,
        store: None,
        pinned: false,
        ostree: None,
        composefs: None,
    };
    let host = assemble_host(None, Some(booted), None, Vec::new(), false);
    assert_eq!(render(&host, false), "Current booted state is unknown\n");
}

#[test]
fn unknown_other_entry_line() {
    // An other deployment with neither an image nor backend metadata still
    // gets its own block: the unknown-state line after the separator.
    let booted = ostree_entry(
        "f9fa3a553ceaaaf30cf85bfe7eed46a822f7b8fd7e14c1e3389cbc3f6d27f791",
        0,
        "default",
        false,
    );
    let bare = BootEntry {
        image: None,
        cached_update: None,
        incompatible: false,
        soft_reboot_capable: false,
        store: None,
        pinned: false,
        ostree: None,
        composefs: None,
    };
    let host = assemble_host(None, Some(booted), None, vec![bare], false);
    let expected = "\u{25cf} Booted ostree\n         Commit: f9fa3a553ceaaaf30cf85bfe7eed46a822f7b8fd7e14c1e3389cbc3f6d27f791\n\nCurrent other state is unknown\n";
    assert_eq!(render(&host, false), expected);
}

#[test]
fn composefs_slot_block() {
    let booted = BootEntry {
        image: None,
        cached_update: None,
        incompatible: false,
        soft_reboot_capable: false,
        store: None,
        pinned: false,
        ostree: None,
        composefs: Some(bootc_status::model::BootEntryComposefs {
            verity: "c0ffee".to_string(),
        }),
    };
    let host = assemble_host(None, Some(booted), None, Vec::new(), false);
    let expected = "\u{25cf} Booted composefs\n            Commit: c0ffee\n";
    assert_eq!(render(&host, false), expected);
}

#[test]
fn verbose_store_only_block() {
    let booted = ostree_entry(
        "f9fa3a553ceaaaf30cf85bfe7eed46a822f7b8fd7e14c1e3389cbc3f6d27f791",
        3,
        "default",
        true,
    );
    let host = assemble_host(None, Some(booted), None, Vec::new(), false);
    let w = render(&host, true);
    assert!(w.contains("Pinned: yes"));
    assert!(w.contains("StateRoot: default"));
    assert!(w.contains("Deploy serial: 3"));
    assert!(w.contains("Staged: no"));
    assert!(w.contains("Soft-reboot: no"));
}

#[test]
fn test_human_readable_verbose_spec() {
    // Verbose output carries the backend rows.
    let booted = image_entry(
        "quay.io/centos-bootc/centos-bootc:stream9",
        "registry",
        "sha256:47e5ed613a970b6574bfa954ab25bb6e85656552899aa518b5961d9645102b38",
        "arm64",
        Some("stream9.20240807.0"),
        None,
        false,
        Some((
            "f9fa3a553ceaaaf30cf85bfe7eed46a822f7b8fd7e14c1e3389cbc3f6d27f791",
            0,
            "default",
        )),
    );
    let host = assemble_host(None, Some(booted), None, Vec::new(), false);
    let w = render(&host, true);
    assert!(w.contains("StateRoot:"));
    assert!(w.contains("Deploy serial:"));
    assert!(w.contains("Staged:"));
    assert!(w.contains("Commit:"));
    assert!(w.contains("Soft-reboot:"));
}
