//! The data model of a host status snapshot.

use vstd::prelude::*;
use vstd::string::StringExecFns;

verus! {

/// Why a status query was rejected.
#[derive(Clone, Debug, PartialEq, Eq)]
pub enum StatusError {
    /// A deployment origin names a container image reference that does not
    /// parse; the payload is the offending text.
    InvalidImageReference(String),
    /// The caller asked for an unsupported status format version.
    UnsupportedFormatVersion(u64),
}

impl StatusError {
    /// The text of the error.
    pub open spec fn message_chars(self) -> Seq<char> {
        match self {
            StatusError::InvalidImageReference(m) => "Invalid image reference: "@ + m@,
            StatusError::UnsupportedFormatVersion(v) => "Unsupported format version: "@
                + crate::textutil::dec_digits(v as nat),
        }
    }

    /// The text of the error.
    pub fn message(&self) -> (r: String)
        ensures
            r@ == self.message_chars(),
    {
        let mut out = String::new();
        match self {
            StatusError::InvalidImageReference(m) => {
                out.append("Invalid image reference: ");
                out.append(m.as_str());
            },
            StatusError::UnsupportedFormatVersion(v) => {
                out.append("Unsupported format version: ");
                crate::textutil::push_dec(&mut out, *v);
            },
        }
        assert(out@ =~= self.message_chars());
        out
    }
}

/// How an image's signature is (or is not) verified.
#[derive(Debug, PartialEq, Eq)]
pub enum ImageSignature {
    /// Fetched via the named remote of the deployment store, with its
    /// GPG verification.
    OstreeRemote(String),
    /// Verified by the container runtime's signature policy.
    ContainerPolicy,
    /// No verification.
    Insecure,
}

/// A reference to a container image together with its verification policy.
#[derive(Debug, PartialEq, Eq)]
pub struct ImageReference {
    /// The image name, e.g. `quay.io/example/someimage:latest`.
    pub image: String,
    /// The transport the image is fetched over, e.g. `registry`.
    pub transport: String,
    /// The signature verification policy; `None` means "allow insecure".
    pub signature: Option<ImageSignature>,
}

impl Clone for ImageSignature {
    /// An equal signature.
    fn clone(&self) -> (r: Self)
        ensures
            r == *self,
    {
        match self {
            ImageSignature::OstreeRemote(s) => ImageSignature::OstreeRemote(s.clone()),
            ImageSignature::ContainerPolicy => ImageSignature::ContainerPolicy,
            ImageSignature::Insecure => ImageSignature::Insecure,
        }
    }
}

impl Clone for ImageReference {
    /// An equal reference.
    fn clone(&self) -> (r: Self)
        ensures
            r == *self,
    {
        ImageReference {
            image: self.image.clone(),
            transport: self.transport.clone(),
            signature: match &self.signature {
                Some(v) => Some(v.clone()),
                None => None,
            },
        }
    }
}

/// A point in time on the UTC clock, to second precision.
#[derive(Clone, Copy, Debug, PartialEq, Eq)]
pub struct Timestamp {
    pub year: u32,
    pub month: u32,
    pub day: u32,
    pub hour: u32,
    pub minute: u32,
    pub second: u32,
}

/// The status of a resolved container image.
#[derive(Clone, Debug, PartialEq, Eq)]
pub struct ImageStatus {
    /// The image reference as configured.
    pub image: ImageReference,
    /// The image's version, from its configuration labels, if any.
    pub version: Option<String>,
    /// The image's creation time, if present and parseable.
    pub timestamp: Option<Timestamp>,
    /// The digest of the image manifest.
    pub image_digest: String,
    /// The architecture the image was built for.
    pub architecture: String,
}

/// The image status of a deployment as currently deployed, along with a
/// locally cached newer status for the same logical image, if one exists.
#[derive(Clone, Debug, PartialEq, Eq)]
pub struct CachedImageStatus {
    /// The status of the image as deployed.
    pub image: Option<ImageStatus>,
    /// The status of a pre-fetched update to the image, if any.
    pub cached_update: Option<ImageStatus>,
}

impl Default for CachedImageStatus {
    /// Both statuses absent.
    fn default() -> (r: Self)
        ensures
            r.image is None,
            r.cached_update is None,
    {
        CachedImageStatus { image: None, cached_update: None }
    }
}

/// Which backing store a deployment's image lives in.
#[derive(Clone, Copy, Debug, PartialEq, Eq)]
pub enum Store {
    /// Images stored in the deployment store's container-image layer store.
    OstreeContainer,
}

/// Metadata of the deployment-store generation backing a boot entry.
#[derive(Clone, Debug, PartialEq, Eq)]
pub struct BootEntryOstree {
    /// The checksum of the deployed commit.
    pub checksum: String,
    /// The serial number of this deployment within its state root.
    pub deploy_serial: u64,
    /// The state root (OS instance group) the deployment belongs to.
    pub stateroot: String,
}

/// Metadata of a composefs-backed boot entry.
#[derive(Clone, Debug, PartialEq, Eq)]
pub struct BootEntryComposefs {
    /// The erofs verity digest of the deployment.
    pub verity: String,
}

/// One boot slot's extracted status.
#[derive(Clone, Debug, PartialEq, Eq)]
pub struct BootEntry {
    /// The image as deployed, if the deployment is image-based.
    pub image: Option<ImageStatus>,
    /// A locally cached newer image status, if any.
    pub cached_update: Option<ImageStatus>,
    /// True when the deployment was produced by an incompatible external
    /// tool and cannot be described as a container image.
    pub incompatible: bool,
    /// Whether this deployment can be switched to with a soft reboot.
    pub soft_reboot_capable: bool,
    /// The backing store of the image, when known.
    pub store: Option<Store>,
    /// Whether the deployment is pinned against garbage collection.
    pub pinned: bool,
    /// Backend metadata of the deployment-store generation, if that backend
    /// produced this entry.
    pub ostree: Option<BootEntryOstree>,
    /// Backend metadata of a composefs deployment, if that backend produced
    /// this entry.
    pub composefs: Option<BootEntryComposefs>,
}

impl BootEntry {
    /// An incompatible deployment is never described as a container image.
    pub open spec fn wf(self) -> bool {
        self.incompatible ==> self.image is None && self.cached_update is None
    }
}

/// Whether the rollback deployment is configured to boot ahead of the
/// booted one.
#[derive(Clone, Copy, Debug, PartialEq, Eq)]
pub enum BootOrder {
    /// The booted deployment boots first.
    Default,
    /// The rollback deployment boots first.
    Rollback,
}

impl Default for BootOrder {
    fn default() -> (r: Self)
        ensures
            r is Default,
    {
        BootOrder::Default
    }
}

/// The declared intent of the host: which image it should be running.
#[derive(Clone, Debug, PartialEq, Eq)]
pub struct HostSpec {
    /// The name of the image the host should boot, if image-based.
    pub image: Option<String>,
    /// The configured boot order.
    pub boot_order: BootOrder,
}

impl Default for HostSpec {
    fn default() -> (r: Self)
        ensures
            r.image is None,
            r.boot_order is Default,
    {
        HostSpec { image: None, boot_order: BootOrder::Default }
    }
}

/// The kind of host, when one can be declared.
#[derive(Clone, Copy, Debug, PartialEq, Eq)]
pub enum HostType {
    /// The host booted via a container image managed by this system.
    BootcHost,
}

/// The observed status of all boot slots.
#[derive(Clone, Debug, PartialEq, Eq)]
pub struct HostStatus {
    /// The deployment staged to boot next, if any.
    pub staged: Option<BootEntry>,
    /// The currently booted deployment, if the host booted via the
    /// supported mechanism.
    pub booted: Option<BootEntry>,
    /// The most-preferred non-booted, non-staged deployment in the same
    /// state root, if any.
    pub rollback: Option<BootEntry>,
    /// All remaining deployments, in preference order.
    pub other_deployments: Vec<BootEntry>,
    /// True when the rollback deployment is queued to boot before the
    /// booted one.
    pub rollback_queued: bool,
    /// The host type, when one can be declared.
    pub ty: Option<HostType>,
}

impl Default for HostStatus {
    fn default() -> (r: Self)
        ensures
            r.staged is None,
            r.booted is None,
            r.rollback is None,
            r.other_deployments@ =~= Seq::<BootEntry>::empty(),
            r.rollback_queued == false,
            r.ty is None,
    {
        HostStatus {
            staged: None,
            booted: None,
            rollback: None,
            other_deployments: Vec::new(),
            rollback_queued: false,
            ty: None,
        }
    }
}

/// The single externally visible snapshot: declared intent plus observed
/// status.
#[derive(Clone, Debug, PartialEq, Eq)]
pub struct Host {
    /// The declared intent.
    pub spec: HostSpec,
    /// The observed status.
    pub status: HostStatus,
}

impl Host {
    /// A host snapshot with the given intent and an empty status.
    pub fn new(spec: HostSpec) -> (r: Self)
        ensures
            r.spec == spec,
            r.status.staged is None,
            r.status.booted is None,
            r.status.rollback is None,
            r.status.other_deployments@ =~= Seq::<BootEntry>::empty(),
            r.status.rollback_queued == false,
            r.status.ty is None,
    {
        Host { spec, status: Default::default() }
    }
}

impl Default for Host {
    fn default() -> (r: Self)
        ensures
            r.spec.image is None,
            r.spec.boot_order is Default,
            r.status.staged is None,
            r.status.booted is None,
            r.status.rollback is None,
            r.status.other_deployments@ =~= Seq::<BootEntry>::empty(),
            r.status.rollback_queued == false,
            r.status.ty is None,
    {
        Host { spec: Default::default(), status: Default::default() }
    }
}

} // verus!
