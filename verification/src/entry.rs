//! The boot entry extractor: decide what kind of deployment an origin
//! describes, resolve image metadata from the store's answer, probe
//! soft-reboot eligibility, and assemble one `BootEntry`.

use vstd::prelude::*;
use vstd::pervasive::unreached;
use vstd::string::StringExecFns;

use crate::deployment::Deployment;
use crate::deployment::Origin;
use crate::imgref::converted_ref;
use crate::imgref::parsed_oref;
use crate::imgref::oref_ok;
use crate::imgref::OstreeImageReference;
use crate::model::BootEntry;
use crate::model::BootEntryOstree;
use crate::model::CachedImageStatus;
use crate::model::ImageReference;
use crate::model::ImageStatus;
use crate::model::StatusError;
use crate::model::Store;
use crate::model::Timestamp;
use crate::textutil::contains_seq;
use crate::textutil::str_contains;
use crate::timestamp::parse_rfc3339;
use crate::timestamp::parse_timestamp;

verus! {

/// One `name=value` label of an image configuration.
#[derive(Clone, Debug, PartialEq, Eq)]
pub struct Label {
    pub name: String,
    pub value: String,
}

/// The part of an image configuration this library reads: architecture,
/// creation time, and labels (absent when the configuration carries none).
#[derive(Clone, Debug, PartialEq, Eq)]
pub struct ImageConfig {
    pub architecture: String,
    pub created: Option<String>,
    pub labels: Option<Vec<Label>>,
}

/// A cached, previously fetched update to an image.
#[derive(Clone, Debug, PartialEq, Eq)]
pub struct CachedImageUpdate {
    pub manifest_digest: String,
    pub config: ImageConfig,
}

/// What the image store knows of a deployed image: the manifest digest and
/// configuration as deployed, and a cached update, if any.
#[derive(Clone, Debug, PartialEq, Eq)]
pub struct ImageState {
    pub manifest_digest: String,
    pub configuration: ImageConfig,
    pub cached_update: Option<CachedImageUpdate>,
}

/// The first label at or after `i` with the given name, or the number of
/// labels when there is none.
pub open spec fn first_label_from(labels: Seq<Label>, name: Seq<char>, i: int) -> int
    decreases labels.len() - i,
{
    if i < labels.len() {
        if labels[i].name@ == name {
            i
        } else {
            first_label_from(labels, name, i + 1)
        }
    } else {
        i
    }
}

/// The value of the label `name`, if the configuration carries it.
pub open spec fn config_label(c: ImageConfig, name: Seq<char>) -> Option<Seq<char>> {
    match c.labels {
        Some(ls) => {
            let i = first_label_from(ls@, name, 0);
            if i < ls@.len() {
                Some(ls@[i].value@)
            } else {
                None
            }
        },
        None => None,
    }
}

/// The version of an image configuration: the standard version label,
/// falling back to the plain `version` label.
pub open spec fn version_of_config(c: ImageConfig) -> Option<Seq<char>> {
    if config_label(c, "org.opencontainers.image.version"@) is Some {
        config_label(c, "org.opencontainers.image.version"@)
    } else {
        config_label(c, "version"@)
    }
}

/// The creation-time text of an image configuration: the standard
/// creation label, falling back to the configuration's own creation field.
pub open spec fn created_text_of(c: ImageConfig) -> Option<Seq<char>> {
    if config_label(c, "org.opencontainers.image.created"@) is Some {
        config_label(c, "org.opencontainers.image.created"@)
    } else {
        match c.created {
            Some(s) => Some(s@),
            None => None,
        }
    }
}

/// The creation time of an image configuration; an unparseable text
/// degrades to absence, not to an error.
pub open spec fn timestamp_of_config(c: ImageConfig) -> Option<Timestamp> {
    match created_text_of(c) {
        Some(t) => parse_rfc3339(t),
        None => None,
    }
}

/// The view of an optional string.
pub open spec fn opt_chars(o: Option<String>) -> Option<Seq<char>> {
    match o {
        Some(s) => Some(s@),
        None => None,
    }
}

/// The metadata of an image status: version and creation time from the
/// configuration, the manifest digest, and the architecture.
pub open spec fn status_meta_of(st: ImageStatus, digest: Seq<char>, config: ImageConfig) -> bool {
    &&& opt_chars(st.version) == version_of_config(config)
    &&& st.timestamp == timestamp_of_config(config)
    &&& st.image_digest@ == digest
    &&& st.architecture@ == config.architecture@
}

/// The value of the label `name`, if the configuration carries it.
pub fn lookup_label<'a>(c: &'a ImageConfig, name: &str) -> (r: Option<&'a String>)
    ensures
        match r {
            Some(v) => config_label(*c, name@) == Some(v@),
            None => config_label(*c, name@) is None,
        },
{
    match &c.labels {
        Some(ls) => {
            let n = ls.len();
            let mut i: usize = 0;
            while i < n
                invariant
                    c.labels matches Some(l) && l@ == ls@,
                    n == ls@.len(),
                    i <= n,
                    first_label_from(ls@, name@, 0) == first_label_from(ls@, name@, i as int),
                decreases n - i,
            {
                if crate::textutil::str_eq(ls[i].name.as_str(), name) {
                    assert(first_label_from(ls@, name@, i as int) == i);
                    return Some(&ls[i].value);
                }
                assert(first_label_from(ls@, name@, i as int) == first_label_from(
                    ls@,
                    name@,
                    i + 1,
                ));
                i += 1;
            }
            None
        },
        None => None,
    }
}

/// The version of an image configuration.
pub fn version_for_config<'a>(c: &'a ImageConfig) -> (r: Option<&'a String>)
    ensures
        match r {
            Some(v) => version_of_config(*c) == Some(v@),
            None => version_of_config(*c) is None,
        },
{
    match lookup_label(c, "org.opencontainers.image.version") {
        Some(v) => Some(v),
        None => lookup_label(c, "version"),
    }
}

/// The creation-time text of an image configuration.
fn created_text<'a>(c: &'a ImageConfig) -> (r: Option<&'a String>)
    ensures
        match r {
            Some(v) => created_text_of(*c) == Some(v@),
            None => created_text_of(*c) is None,
        },
{
    match lookup_label(c, "org.opencontainers.image.created") {
        Some(v) => Some(v),
        None => c.created.as_ref(),
    }
}

/// Build one image status from a reference, a manifest digest and an
/// image configuration.
pub fn create_imagestatus(
    image: ImageReference,
    manifest_digest: &String,
    config: &ImageConfig,
) -> (r: ImageStatus)
    ensures
        r.image == image,
        status_meta_of(r, manifest_digest@, *config),
{
    let version = match version_for_config(config) {
        Some(v) => Some(v.clone()),
        None => None,
    };
    let timestamp = match created_text(config) {
        Some(t) => parse_timestamp(t.as_str()),
        None => None,
    };
    ImageStatus {
        image,
        version,
        timestamp,
        image_digest: manifest_digest.clone(),
        architecture: config.architecture.clone(),
    }
}

/// Resolve the deployed image status and the cached update, if any, from
/// what the image store reports.
pub fn image_status_from_state(image: &ImageReference, state: &ImageState) -> (r:
    CachedImageStatus)
    ensures
        r.image matches Some(st) && st.image == *image && status_meta_of(
            st,
            state.manifest_digest@,
            state.configuration,
        ),
        match state.cached_update {
            Some(cu) => r.cached_update matches Some(c) && c.image == *image && status_meta_of(
                c,
                cu.manifest_digest@,
                cu.config,
            ),
            None => r.cached_update is None,
        },
{
    let cached = match &state.cached_update {
        Some(cu) => Some(create_imagestatus(image.clone(), &cu.manifest_digest, &cu.config)),
        None => None,
    };
    let current = create_imagestatus(image.clone(), &state.manifest_digest, &state.configuration);
    CachedImageStatus { image: Some(current), cached_update: cached }
}

impl BootEntry {
    /// The commit checksum under which the entry's image state can be
    /// looked up in the image store: present exactly when the entry is
    /// image-based and carries backend metadata.
    pub fn query_image_checksum(&self) -> (r: Option<&String>)
        ensures
            match r {
                Some(c) => self.image is Some && (self.ostree matches Some(o) && c@
                    == o.checksum@),
                None => self.image is None || self.ostree is None,
            },
    {
        if self.image.is_none() {
            return None;
        }
        match &self.ostree {
            Some(o) => Some(&o.checksum),
            None => None,
        }
    }
}

/// What a deployment's origin says it is.
pub enum OriginCategory {
    /// The deployment has no origin at all.
    NoOrigin,
    /// The origin carries markers of an incompatible external tool.
    Incompatible,
    /// The origin describes no container image.
    NonContainer,
    /// The origin names this container image.
    Container(OstreeImageReference),
}

/// Whether the origin carries the groups the package-layering tool
/// records; such a deployment cannot be described as a container image.
pub open spec fn origin_markers(o: Origin) -> bool {
    ||| o.spec_has_group("rpmostree"@)
    ||| o.spec_has_group("packages"@)
    ||| o.spec_has_group("overrides"@)
    ||| o.spec_has_group("modules"@)
}

/// The origin's container image reference text, if any.
pub open spec fn container_key_of(o: Origin) -> Option<Seq<char>> {
    o.spec_value("origin"@, "container-image-reference"@)
}

/// Decide what kind of deployment the origin describes. The marker check
/// comes first, deliberately: an origin with external-tool markers is
/// incompatible whatever other keys it carries, and its image key is then
/// never parsed.
pub fn categorize_origin(d: &Deployment) -> (r: Result<OriginCategory, StatusError>)
    ensures
        match r {
            Ok(OriginCategory::NoOrigin) => d.origin is None,
            Ok(OriginCategory::Incompatible) => d.origin matches Some(o) && origin_markers(o),
            Ok(OriginCategory::NonContainer) => d.origin matches Some(o) && !origin_markers(o)
                && container_key_of(o) is None,
            Ok(OriginCategory::Container(img)) => d.origin matches Some(o) && !origin_markers(o)
                && (container_key_of(o) matches Some(txt) && parsed_oref(img, txt)),
            Err(e) => d.origin matches Some(o) && !origin_markers(o) && (container_key_of(o)
                matches Some(txt) && !oref_ok(txt)) && (e
                matches StatusError::InvalidImageReference(m) && m@ == container_key_of(
                o,
            ).unwrap()),
        },
{
    match &d.origin {
        None => Ok(OriginCategory::NoOrigin),
        Some(o) => {
            if o.has_group("rpmostree") || o.has_group("packages") || o.has_group("overrides")
                || o.has_group("modules") {
                Ok(OriginCategory::Incompatible)
            } else {
                match o.lookup("origin", "container-image-reference") {
                    None => Ok(OriginCategory::NonContainer),
                    Some(txt) => match OstreeImageReference::parse(txt.as_str()) {
                        Ok(img) => Ok(OriginCategory::Container(img)),
                        Err(e) => Err(e),
                    },
                }
            }
        },
    }
}

/// Whether the deployment's boot configuration carries the store-tracking
/// kernel argument.
pub open spec fn has_ostree_karg(d: Deployment) -> bool {
    match d.bootconfig_options {
        Some(o) => contains_seq(o@, "ostree="@),
        None => false,
    }
}

/// Whether the store's live soft-reboot probe may be consulted for this
/// deployment: the runtime must support soft reboot, and either the store
/// is recent enough or the deployment carries the tracking kernel
/// argument. The probe is known to fault on deployments missing that
/// argument under older store versions, so it must only run when this
/// returns true; the deployment is soft-reboot capable exactly when this
/// holds and the probe then answers yes.
pub fn soft_reboot_eligible(
    systemd_supports: bool,
    store_version_recent: bool,
    d: &Deployment,
) -> (r: bool)
    ensures
        r == (systemd_supports && (store_version_recent || has_ostree_karg(*d))),
{
    if !systemd_supports {
        return false;
    }
    let karg = match &d.bootconfig_options {
        Some(o) => str_contains(o.as_str(), "ostree="),
        None => false,
    };
    if !store_version_recent && !karg {
        return false;
    }
    true
}

/// The deployment's soft-reboot capability: the runtime must support soft
/// reboot, the store must be recent enough or the deployment must carry
/// the tracking kernel argument, and the store's live probe must answer
/// yes. The probe's answer is supplied exactly when `soft_reboot_eligible`
/// allows consulting it (it faults otherwise), so the capability is the
/// three-way conjunction, and false whenever the guard fails.
pub fn soft_reboot_capability(
    systemd_supports: bool,
    store_version_recent: bool,
    d: &Deployment,
    probe_answer: Option<bool>,
) -> (r: bool)
    requires
        (probe_answer is Some) == (systemd_supports && (store_version_recent || has_ostree_karg(
            *d,
        ))),
    ensures
        r == (systemd_supports && (store_version_recent || has_ostree_karg(*d)) && probe_answer
            == Some(true)),
{
    let eligible = soft_reboot_eligible(systemd_supports, store_version_recent, d);
    match probe_answer {
        Some(p) => eligible && p,
        None => false,
    }
}

/// Assemble the boot entry of one deployment from its origin category, the
/// image store's answer (exactly when the origin names a container image),
/// and the soft-reboot decision.
///
/// An incompatible deployment is never described as a container image,
/// whatever its other origin keys say.
pub fn boot_entry_from_deployment(
    d: &Deployment,
    category: OriginCategory,
    image_state: Option<&ImageState>,
    soft_reboot_capable: bool,
) -> (r: BootEntry)
    requires
        (category is Container) <==> (image_state is Some),
    ensures
        r.wf(),
        r.incompatible == (category is Incompatible),
        match category {
            OriginCategory::Container(img) => {
                let state = image_state.unwrap();
                &&& r.image matches Some(st) && converted_ref(st.image, img) && status_meta_of(
                    st,
                    state.manifest_digest@,
                    state.configuration,
                )
                &&& match state.cached_update {
                    Some(cu) => r.cached_update matches Some(c) && converted_ref(c.image, img)
                        && status_meta_of(c, cu.manifest_digest@, cu.config),
                    None => r.cached_update is None,
                }
            },
            _ => r.image is None && r.cached_update is None,
        },
        r.soft_reboot_capable == soft_reboot_capable,
        r.store == Some(Store::OstreeContainer),
        r.pinned == d.is_pinned,
        r.ostree matches Some(o) && o.checksum == d.checksum && o.deploy_serial == d.deploy_serial
            && o.stateroot == d.stateroot,
        r.composefs is None,
{
    let incompatible = matches!(category, OriginCategory::Incompatible);
    let status = match category {
        OriginCategory::Container(img) => {
            let state = match image_state {
                Some(state) => state,
                None => unreached(),
            };
            let image = ImageReference::from(img);
            image_status_from_state(&image, state)
        },
        _ => Default::default(),
    };
    BootEntry {
        image: status.image,
        cached_update: status.cached_update,
        incompatible,
        soft_reboot_capable,
        store: Some(Store::OstreeContainer),
        pinned: d.is_pinned,
        ostree: Some(
            BootEntryOstree {
                checksum: d.checksum.clone(),
                deploy_serial: d.deploy_serial,
                stateroot: d.stateroot.clone(),
            },
        ),
        composefs: None,
    }
}

} // verus!
