use bootc_status::classify::classify_deployments;
use bootc_status::classify::rollback_queued;
use bootc_status::deployment::Deployment;
use bootc_status::deployment::Origin;
use bootc_status::deployment::OriginEntry;
use bootc_status::deployment::OriginGroup;
use bootc_status::entry::boot_entry_from_deployment;
use bootc_status::entry::categorize_origin;
use bootc_status::entry::soft_reboot_capability;
use bootc_status::entry::soft_reboot_eligible;
use bootc_status::entry::CachedImageUpdate;
use bootc_status::entry::ImageConfig;
use bootc_status::entry::ImageState;
use bootc_status::entry::Label;
use bootc_status::entry::OriginCategory;
use bootc_status::host::assemble_host;
use bootc_status::host::select_format;
use bootc_status::host::validate_format_version;
use bootc_status::host::OutputFormat;
use bootc_status::imgref::parse_transport;
use bootc_status::imgref::transport_to_string;
use bootc_status::imgref::ContainerImageReference;
use bootc_status::imgref::OstreeImageReference;
use bootc_status::imgref::SignatureSource;
use bootc_status::imgref::Transport;
use bootc_status::model::BootEntry;
use bootc_status::model::BootOrder;
use bootc_status::model::HostType;
use bootc_status::model::ImageReference;
use bootc_status::model::ImageStatus;
use bootc_status::model::StatusError;
use bootc_status::model::Store;
use bootc_status::model::Timestamp;
use bootc_status::timestamp::parse_timestamp;
use bootc_status::Slot;

fn dep(stateroot: &str, index: u64, staged: bool, checksum: &str, serial: u64) -> Deployment {
    Deployment {
        stateroot: stateroot.to_string(),
        index,
        is_staged: staged,
        is_pinned: false,
        checksum: checksum.to_string(),
        deploy_serial: serial,
        origin: None,
        bootconfig_options: None,
    }
}

fn origin_with(groups: Vec<(&str, Vec<(&str, &str)>)>) -> Origin {
    Origin {
        groups: groups
            .into_iter()
            .map(|(name, entries)| OriginGroup {
                name: name.to_string(),
                entries: entries
                    .into_iter()
                    .map(|(k, v)| OriginEntry {
                        key: k.to_string(),
                        value: v.to_string(),
                    })
                    .collect(),
            })
            .collect(),
    }
}

#[test]
fn classify_basic_slots() {
    let booted = dep("default", 1, false, "bbb", 1);
    let all = vec![
        dep("default", 0, true, "sss", 2),
        dep("default", 1, false, "bbb", 1),
        dep("default", 2, false, "rrr", 0),
        dep("other-os", 3, false, "ooo", 0),
    ];
    let r = classify_deployments(all, Some(&booted));
    assert_eq!(r.staged.as_ref().map(|d| d.checksum.as_str()), Some("sss"));
    assert_eq!(r.rollback.as_ref().map(|d| d.checksum.as_str()), Some("rrr"));
    assert_eq!(r.other.len(), 1);
    assert_eq!(r.other[0].checksum, "ooo");
    let queued = rollback_queued(Some(&booted), r.rollback.as_ref());
    assert!(!queued);
}

#[test]
fn classify_rollback_queued() {
    // The rollback's index is lower: it boots first.
    let booted = dep("default", 1, false, "bbb", 1);
    let all = vec![
        dep("default", 0, false, "rrr", 2),
        dep("default", 1, false, "bbb", 1),
    ];
    let r = classify_deployments(all, Some(&booted));
    assert_eq!(r.rollback.as_ref().map(|d| d.checksum.as_str()), Some("rrr"));
    assert!(rollback_queued(Some(&booted), r.rollback.as_ref()));
    assert!(!rollback_queued(Some(&booted), None));
    assert!(!rollback_queued(None, r.rollback.as_ref()));
}

#[test]
fn classify_empty_store() {
    let r = classify_deployments(Vec::new(), None);
    assert!(r.staged.is_none());
    assert!(r.rollback.is_none());
    assert!(r.other.is_empty());
}

#[test]
fn classify_no_booted_all_related() {
    // With no booted deployment the state-root filter degenerates: every
    // deployment is related and the first non-staged one is the rollback.
    let all = vec![
        dep("a", 0, true, "sss", 0),
        dep("b", 1, false, "rrr", 0),
        dep("c", 2, false, "xxx", 0),
    ];
    let r = classify_deployments(all, None);
    assert_eq!(r.staged.as_ref().map(|d| d.checksum.as_str()), Some("sss"));
    assert_eq!(r.rollback.as_ref().map(|d| d.checksum.as_str()), Some("rrr"));
    assert_eq!(r.other.len(), 1);
    assert_eq!(r.other[0].checksum, "xxx");
}

#[test]
fn classify_two_staged_first_wins() {
    // Two deployments carry the staged flag: the first is honoured, the
    // second lands among the others.
    let booted = dep("default", 2, false, "bbb", 0);
    let all = vec![
        dep("default", 0, true, "s1", 1),
        dep("default", 1, true, "s2", 2),
        dep("default", 2, false, "bbb", 0),
    ];
    let r = classify_deployments(all, Some(&booted));
    assert_eq!(r.staged.as_ref().map(|d| d.checksum.as_str()), Some("s1"));
    assert_eq!(r.rollback.as_ref().map(|d| d.checksum.as_str()), Some("s2"));
    assert!(r.other.is_empty());
}

#[test]
fn parse_timestamp_exact() {
    let t = parse_timestamp("2023-10-14T19:22:15Z").unwrap();
    assert_eq!(
        t,
        Timestamp { year: 2023, month: 10, day: 14, hour: 19, minute: 22, second: 15 }
    );
    // Fractional seconds are accepted and dropped.
    let t = parse_timestamp("2023-10-14T19:22:15.123456789Z").unwrap();
    assert_eq!(t.second, 15);
    // A numeric offset is normalized to UTC, borrowing across the leap day.
    let t = parse_timestamp("2024-03-01T00:10:00+05:30").unwrap();
    assert_eq!(
        t,
        Timestamp { year: 2024, month: 2, day: 29, hour: 18, minute: 40, second: 0 }
    );
    let t = parse_timestamp("2023-12-31T23:30:00-01:00").unwrap();
    assert_eq!(
        t,
        Timestamp { year: 2024, month: 1, day: 1, hour: 0, minute: 30, second: 0 }
    );
    // A leap second is kept as second sixty.
    let t = parse_timestamp("1998-12-31T23:59:60Z").unwrap();
    assert_eq!(t.second, 60);
    let mut rendered = String::new();
    bootc_status::timestamp::push_timestamp(&mut rendered, &t);
    assert_eq!(rendered, "1998-12-31T23:59:60Z");
}

#[test]
fn parse_timestamp_rejects() {
    assert!(parse_timestamp("not a timestamp").is_none());
    assert!(parse_timestamp("2023-13-01T00:00:00Z").is_none());
    assert!(parse_timestamp("2023-02-29T00:00:00Z").is_none());
    assert!(parse_timestamp("2023-10-14T19:22:15").is_none());
    assert!(parse_timestamp("2023-10-14T19:22:15.Z").is_none());
    assert!(parse_timestamp("2023-10-14 19:22:15Z").is_some());
}

#[test]
fn transports_round() {
    assert_eq!(parse_transport("registry"), Some(Transport::Registry));
    assert_eq!(parse_transport("docker"), Some(Transport::Registry));
    assert_eq!(parse_transport("oci"), Some(Transport::OciDir));
    assert_eq!(parse_transport("oci-archive"), Some(Transport::OciArchive));
    assert_eq!(parse_transport("docker-archive"), Some(Transport::DockerArchive));
    assert_eq!(
        parse_transport("containers-storage"),
        Some(Transport::ContainerStorage)
    );
    assert_eq!(parse_transport("dir"), Some(Transport::Dir));
    assert_eq!(parse_transport("carrier-pigeon"), None);
    assert_eq!(transport_to_string(&Transport::Registry), "registry");
    assert_eq!(transport_to_string(&Transport::OciDir), "oci");
    assert_eq!(transport_to_string(&Transport::ContainerStorage), "containers-storage");
}

#[test]
fn parse_container_reference_docker_alias() {
    let r = ContainerImageReference::parse("docker://quay.io/example/foo").unwrap();
    assert_eq!(r.transport, Transport::Registry);
    assert_eq!(r.name, "quay.io/example/foo");
    assert!(ContainerImageReference::parse("docker:quay.io/example/foo").is_err());
    assert!(ContainerImageReference::parse("registry:").is_err());
    assert!(ContainerImageReference::parse("nosuch:name").is_err());
    let r = ContainerImageReference::parse("oci:/var/mnt/osupdate").unwrap();
    assert_eq!(r.transport, Transport::OciDir);
    assert_eq!(r.name, "/var/mnt/osupdate");
}

#[test]
fn parse_signed_scheme() {
    let r = OstreeImageReference::parse("ostree-image-signed:registry:quay.io/e/f:v1").unwrap();
    assert_eq!(r.sigverify, SignatureSource::ContainerPolicy);
    assert_eq!(r.imgref.transport, Transport::Registry);
    assert_eq!(r.imgref.name, "quay.io/e/f:v1");
    let r = OstreeImageReference::parse("ostree-remote-image:fedora:oci:/some/dir").unwrap();
    assert_eq!(r.sigverify, SignatureSource::OstreeRemote("fedora".into()));
    assert_eq!(r.imgref.transport, Transport::OciDir);
    assert_eq!(r.imgref.name, "/some/dir");
    match OstreeImageReference::parse("whatever:quay.io/e/f") {
        Err(StatusError::InvalidImageReference(m)) => assert_eq!(m, "whatever:quay.io/e/f"),
        _ => panic!("expected an invalid-reference error"),
    }
}

#[test]
fn origin_categories() {
    // No origin at all.
    let d = dep("default", 0, false, "ccc", 0);
    assert!(matches!(categorize_origin(&d), Ok(OriginCategory::NoOrigin)));

    // Packaging-tool markers win over the container key.
    let mut d = dep("default", 0, false, "ccc", 0);
    d.origin = Some(origin_with(vec![
        ("packages", vec![]),
        (
            "origin",
            vec![(
                "container-image-reference",
                "ostree-unverified-registry:quay.io/e/f",
            )],
        ),
    ]));
    assert!(matches!(categorize_origin(&d), Ok(OriginCategory::Incompatible)));

    // An origin without the container key is a plain deployment.
    let mut d = dep("default", 0, false, "ccc", 0);
    d.origin = Some(origin_with(vec![("origin", vec![("refspec", "some/ref")])]));
    assert!(matches!(categorize_origin(&d), Ok(OriginCategory::NonContainer)));

    // The container key parses into the image reference.
    let mut d = dep("default", 0, false, "ccc", 0);
    d.origin = Some(origin_with(vec![(
        "origin",
        vec![(
            "container-image-reference",
            "ostree-unverified-registry:quay.io/e/f:latest",
        )],
    )]));
    match categorize_origin(&d) {
        Ok(OriginCategory::Container(img)) => {
            assert_eq!(img.imgref.transport, Transport::Registry);
            assert_eq!(img.imgref.name, "quay.io/e/f:latest");
        }
        _ => panic!("expected a container origin"),
    }

    // An unparseable container key is an error naming the text.
    let mut d = dep("default", 0, false, "ccc", 0);
    d.origin = Some(origin_with(vec![(
        "origin",
        vec![("container-image-reference", "garbage")],
    )]));
    match categorize_origin(&d) {
        Err(StatusError::InvalidImageReference(m)) => assert_eq!(m, "garbage"),
        _ => panic!("expected an invalid-reference error"),
    }
}

fn config(
    arch: &str,
    created: Option<&str>,
    labels: Option<Vec<(&str, &str)>>,
) -> ImageConfig {
    ImageConfig {
        architecture: arch.to_string(),
        created: created.map(|c| c.to_string()),
        labels: labels.map(|ls| {
            ls.into_iter()
                .map(|(n, v)| Label { name: n.to_string(), value: v.to_string() })
                .collect()
        }),
    }
}

#[test]
fn boot_entry_container() {
    let d = dep("default", 0, false, "ccc", 7);
    let img = OstreeImageReference::parse("ostree-unverified-registry:quay.io/e/f:latest")
        .unwrap();
    let state = ImageState {
        manifest_digest: "sha256:aaa".to_string(),
        configuration: config(
            "amd64",
            Some("2020-01-01T00:00:00Z"),
            Some(vec![("version", "v7"), ("org.opencontainers.image.version", "v8")]),
        ),
        cached_update: Some(CachedImageUpdate {
            manifest_digest: "sha256:bbb".to_string(),
            config: config("amd64", None, Some(vec![("version", "v9")])),
        }),
    };
    let e = boot_entry_from_deployment(&d, OriginCategory::Container(img), Some(&state), true);
    let st = e.image.expect("an image status");
    assert_eq!(st.image.image, "quay.io/e/f:latest");
    assert_eq!(st.image.transport, "registry");
    assert_eq!(st.image.signature, None);
    // The standard version label overrides the plain one.
    assert_eq!(st.version.as_deref(), Some("v8"));
    assert_eq!(
        st.timestamp,
        Some(Timestamp { year: 2020, month: 1, day: 1, hour: 0, minute: 0, second: 0 })
    );
    assert_eq!(st.image_digest, "sha256:aaa");
    assert_eq!(st.architecture, "amd64");
    let cu = e.cached_update.expect("a cached update");
    assert_eq!(cu.image_digest, "sha256:bbb");
    assert_eq!(cu.version.as_deref(), Some("v9"));
    assert_eq!(cu.timestamp, None);
    assert!(!e.incompatible);
    assert!(e.soft_reboot_capable);
    assert_eq!(e.store, Some(Store::OstreeContainer));
    let o = e.ostree.expect("backend metadata");
    assert_eq!(o.checksum, "ccc");
    assert_eq!(o.deploy_serial, 7);
    assert_eq!(o.stateroot, "default");
}

#[test]
fn boot_entry_incompatible_has_no_image() {
    // An incompatible deployment is never described as a container image.
    let d = dep("default", 0, false, "ccc", 0);
    let e = boot_entry_from_deployment(&d, OriginCategory::Incompatible, None, false);
    assert!(e.incompatible);
    assert!(e.image.is_none());
    assert!(e.cached_update.is_none());
}

#[test]
fn soft_reboot_decision() {
    let plain = dep("default", 0, false, "ccc", 0);
    let mut with_karg = dep("default", 0, false, "ccc", 0);
    with_karg.bootconfig_options = Some("rw quiet ostree=/ostree/boot.1".to_string());
    assert!(!soft_reboot_eligible(false, true, &plain));
    assert!(soft_reboot_eligible(true, true, &plain));
    assert!(!soft_reboot_eligible(true, false, &plain));
    assert!(soft_reboot_eligible(true, false, &with_karg));
    // The capability is the guard conjoined with the probe's answer; the
    // probe is consulted exactly when the guard allows.
    assert!(soft_reboot_capability(true, true, &plain, Some(true)));
    assert!(!soft_reboot_capability(true, true, &plain, Some(false)));
    assert!(!soft_reboot_capability(true, false, &plain, None));
    assert!(!soft_reboot_capability(false, true, &plain, None));
    assert!(soft_reboot_capability(true, false, &with_karg, Some(true)));
}

fn bare_image_entry(name: &str) -> BootEntry {
    BootEntry {
        image: Some(ImageStatus {
            image: ImageReference {
                image: name.to_string(),
                transport: "registry".to_string(),
                signature: None,
            },
            version: None,
            timestamp: None,
            image_digest: "sha256:x".to_string(),
            architecture: "amd64".to_string(),
        }),
        cached_update: None,
        incompatible: false,
        soft_reboot_capable: false,
        store: Some(Store::OstreeContainer),
        pinned: false,
        ostree: None,
        composefs: None,
    }
}

fn imageless_entry() -> BootEntry {
    BootEntry {
        image: None,
        cached_update: None,
        incompatible: false,
        soft_reboot_capable: false,
        store: Some(Store::OstreeContainer),
        pinned: false,
        ostree: None,
        composefs: None,
    }
}

#[test]
fn host_type_iff_booted_image() {
    let h = assemble_host(None, Some(bare_image_entry("img")), None, Vec::new(), false);
    assert_eq!(h.status.ty, Some(HostType::BootcHost));
    let h = assemble_host(None, Some(imageless_entry()), None, Vec::new(), false);
    assert_eq!(h.status.ty, None);
    let h = assemble_host(Some(bare_image_entry("img")), None, None, Vec::new(), false);
    assert_eq!(h.status.ty, None);
}

#[test]
fn host_spec_image_precedence() {
    // The staged entry's image wins; an imageless staged entry falls back
    // to the booted entry's image.
    let h = assemble_host(
        Some(bare_image_entry("staged-img")),
        Some(bare_image_entry("booted-img")),
        None,
        Vec::new(),
        false,
    );
    assert_eq!(h.spec.image.as_deref(), Some("staged-img"));
    let h = assemble_host(
        Some(imageless_entry()),
        Some(bare_image_entry("booted-img")),
        None,
        Vec::new(),
        false,
    );
    assert_eq!(h.spec.image.as_deref(), Some("booted-img"));
    assert_eq!(h.spec.boot_order, BootOrder::Default);
    let h = assemble_host(None, None, None, Vec::new(), true);
    assert_eq!(h.spec.image, None);
    assert_eq!(h.spec.boot_order, BootOrder::Rollback);
}

#[test]
fn filter_to_booted_slot() {
    let mut h = assemble_host(
        Some(bare_image_entry("s")),
        Some(bare_image_entry("b")),
        Some(bare_image_entry("r")),
        vec![bare_image_entry("o")],
        false,
    );
    h.filter_to_slot(Slot::Booted);
    assert!(h.status.staged.is_none());
    assert!(h.status.booted.is_some());
    assert!(h.status.rollback.is_none());
    assert!(h.status.other_deployments.is_empty());
}

#[test]
fn format_selection() {
    assert_eq!(
        select_format(Some(OutputFormat::Yaml), true, true),
        OutputFormat::Yaml
    );
    assert_eq!(select_format(None, true, true), OutputFormat::Json);
    assert_eq!(select_format(None, false, true), OutputFormat::HumanReadable);
    assert_eq!(select_format(None, false, false), OutputFormat::Yaml);
}

#[test]
fn reference_conversion_both_ways() {
    let img = ImageReference {
        image: "quay.io/e/f:latest".to_string(),
        transport: "registry".to_string(),
        signature: Some(bootc_status::model::ImageSignature::ContainerPolicy),
    };
    let o = OstreeImageReference::from_image_reference(img).unwrap();
    assert_eq!(o.imgref.transport, Transport::Registry);
    assert_eq!(o.imgref.name, "quay.io/e/f:latest");
    assert_eq!(o.sigverify, SignatureSource::ContainerPolicy);
    let back = ImageReference::from(o);
    assert_eq!(back.image, "quay.io/e/f:latest");
    assert_eq!(back.transport, "registry");
    let bad = ImageReference {
        image: "x".to_string(),
        transport: "carrier-pigeon".to_string(),
        signature: None,
    };
    assert!(OstreeImageReference::from_image_reference(bad).is_err());
}

#[test]
fn query_image_checksum_decision() {
    let d = dep("default", 0, false, "ccc", 0);
    let plain = boot_entry_from_deployment(&d, OriginCategory::NonContainer, None, false);
    // An imageless entry has nothing to look up, backend metadata or not.
    assert!(plain.query_image_checksum().is_none());
    let img = OstreeImageReference::parse("ostree-unverified-registry:quay.io/e/f").unwrap();
    let state = ImageState {
        manifest_digest: "sha256:aaa".to_string(),
        configuration: config("amd64", None, None),
        cached_update: None,
    };
    let e = boot_entry_from_deployment(&d, OriginCategory::Container(img), Some(&state), false);
    assert_eq!(e.query_image_checksum().map(|c| c.as_str()), Some("ccc"));
}

#[test]
fn timestamp_text_round_trips() {
    // The rendered wire form of a timestamp parses back to the same value.
    for text in [
        "2023-10-14T19:22:15Z",
        "0001-01-01T00:00:00Z",
        "9999-12-31T23:59:59Z",
        "2024-02-29T12:00:00Z",
    ] {
        let t = parse_timestamp(text).unwrap();
        let mut rendered = String::new();
        bootc_status::timestamp::push_timestamp(&mut rendered, &t);
        assert_eq!(rendered, text);
        assert_eq!(parse_timestamp(&rendered), Some(t));
    }
}

#[test]
fn format_version_gate() {
    assert!(validate_format_version(0).is_ok());
    assert!(validate_format_version(1).is_ok());
    match validate_format_version(2) {
        Err(StatusError::UnsupportedFormatVersion(v)) => assert_eq!(v, 2),
        _ => panic!("expected an unsupported-version error"),
    }
}
