//! Image references as the deployment store writes them into a
//! deployment's origin: a signature-verification scheme, a transport, and
//! an image name, e.g. `ostree-unverified-registry:quay.io/example/foo`.
//!
//! The grammar follows the store's container layer: the reference splits at
//! the first `:` into a scheme and a remainder; `ostree-unverified-registry`
//! and `ostree-remote-registry` are shorthands for the `registry` transport;
//! the remote-verified schemes carry the remote's name before a second `:`.

use vstd::prelude::*;
use vstd::string::StrSliceExecFns;
use vstd::string::StringExecFns;

#[allow(unused_imports)]
use vstd::string::group_string_axioms;

use crate::model::ImageReference;
use crate::model::ImageSignature;
use crate::model::StatusError;
use crate::textutil::find_first;
use crate::textutil::first_index_from;
use crate::textutil::str_eq;

verus! {

/// The transport an image is fetched over.
#[derive(Clone, Copy, Debug, PartialEq, Eq)]
pub enum Transport {
    /// A remote registry.
    Registry,
    /// A local OCI directory.
    OciDir,
    /// A local OCI archive tarball.
    OciArchive,
    /// A local Docker archive tarball.
    DockerArchive,
    /// Local container storage.
    ContainerStorage,
    /// A local directory.
    Dir,
}

/// A transport together with an image name.
#[derive(Clone, Debug, PartialEq, Eq)]
pub struct ContainerImageReference {
    pub transport: Transport,
    pub name: String,
}

/// The signature verification scheme an origin demands.
#[derive(Clone, Debug, PartialEq, Eq)]
pub enum SignatureSource {
    /// Verify with the named remote of the deployment store.
    OstreeRemote(String),
    /// Defer to the container runtime's signature policy.
    ContainerPolicy,
    /// Defer to the policy's default, usually "accept anything".
    ContainerPolicyAllowInsecure,
}

/// A signature verification scheme together with a container image
/// reference.
#[derive(Clone, Debug, PartialEq, Eq)]
pub struct OstreeImageReference {
    pub sigverify: SignatureSource,
    pub imgref: ContainerImageReference,
}

/// The transport a bare transport name denotes, if any (`docker` is an
/// alias of `registry`).
pub open spec fn transport_of(t: Seq<char>) -> Option<Transport> {
    if t == "registry"@ || t == "docker"@ {
        Some(Transport::Registry)
    } else if t == "oci"@ {
        Some(Transport::OciDir)
    } else if t == "oci-archive"@ {
        Some(Transport::OciArchive)
    } else if t == "docker-archive"@ {
        Some(Transport::DockerArchive)
    } else if t == "containers-storage"@ {
        Some(Transport::ContainerStorage)
    } else if t == "dir"@ {
        Some(Transport::Dir)
    } else {
        None
    }
}

/// The serialized name of a transport, with `registry` as the canonical
/// name of the registry transport. A closed, total mapping.
pub open spec fn transport_chars(t: Transport) -> Seq<char> {
    match t {
        Transport::Registry => "registry"@,
        Transport::OciDir => "oci"@,
        Transport::OciArchive => "oci-archive"@,
        Transport::DockerArchive => "docker-archive"@,
        Transport::ContainerStorage => "containers-storage"@,
        Transport::Dir => "dir"@,
    }
}

/// Where a container image reference splits: the first `:`.
pub open spec fn cref_colon(s: Seq<char>) -> int {
    first_index_from(s, ':', 0)
}

/// A well-formed `transport:name` reference: the transport is known, the
/// part after the `:` is non-empty, and the `docker` alias is followed by
/// `//`.
pub open spec fn cref_ok(s: Seq<char>) -> bool {
    let i = cref_colon(s);
    &&& i < s.len()
    &&& transport_of(s.subrange(0, i)) is Some
    &&& i + 1 < s.len()
    &&& (s.subrange(0, i) == "docker"@ ==> i + 3 <= s.len() && s[i + 1] == '/' && s[i + 2] == '/')
}

/// The transport of a well-formed reference.
pub open spec fn cref_transport(s: Seq<char>) -> Transport {
    transport_of(s.subrange(0, cref_colon(s))).unwrap()
}

/// The image name of a well-formed reference (after the `//` of the
/// `docker` alias).
pub open spec fn cref_name(s: Seq<char>) -> Seq<char> {
    let i = cref_colon(s);
    if s.subrange(0, i) == "docker"@ {
        s.subrange(i + 3, s.len() as int)
    } else {
        s.subrange(i + 1, s.len() as int)
    }
}

/// The transport a bare transport name denotes, if any.
pub fn parse_transport(t: &str) -> (r: Option<Transport>)
    ensures
        r == transport_of(t@),
{
    if str_eq(t, "registry") || str_eq(t, "docker") {
        Some(Transport::Registry)
    } else if str_eq(t, "oci") {
        Some(Transport::OciDir)
    } else if str_eq(t, "oci-archive") {
        Some(Transport::OciArchive)
    } else if str_eq(t, "docker-archive") {
        Some(Transport::DockerArchive)
    } else if str_eq(t, "containers-storage") {
        Some(Transport::ContainerStorage)
    } else if str_eq(t, "dir") {
        Some(Transport::Dir)
    } else {
        None
    }
}

/// The serialized name of a transport, with `registry` canonical.
pub fn transport_to_string(t: &Transport) -> (r: String)
    ensures
        r@ == transport_chars(*t),
{
    let s = match t {
        Transport::Registry => "registry",
        Transport::OciDir => "oci",
        Transport::OciArchive => "oci-archive",
        Transport::DockerArchive => "docker-archive",
        Transport::ContainerStorage => "containers-storage",
        Transport::Dir => "dir",
    };
    String::from_str(s)
}

impl ContainerImageReference {
    /// Parse a `transport:name` reference.
    pub fn parse(s: &str) -> (r: Result<ContainerImageReference, StatusError>)
        ensures
            match r {
                Ok(ir) => cref_ok(s@) && ir.transport == cref_transport(s@) && ir.name@
                    == cref_name(s@),
                Err(e) => !cref_ok(s@) && (e matches StatusError::InvalidImageReference(m) && m@
                    == s@),
            },
    {
        let n = s.unicode_len();
        let i = match find_first(s, ':') {
            Some(i) => i,
            None => {
                return Err(StatusError::InvalidImageReference(String::from_str(s)));
            },
        };
        let ttxt = s.substring_char(0, i);
        let transport = match parse_transport(ttxt) {
            Some(t) => t,
            None => {
                return Err(StatusError::InvalidImageReference(String::from_str(s)));
            },
        };
        if i + 1 >= n {
            return Err(StatusError::InvalidImageReference(String::from_str(s)));
        }
        if str_eq(ttxt, "docker") {
            if n - i < 3 || !(s.get_char(i + 1) == '/' && s.get_char(i + 2) == '/') {
                return Err(StatusError::InvalidImageReference(String::from_str(s)));
            }
            let name = s.substring_char(i + 3, n);
            Ok(ContainerImageReference { transport, name: String::from_str(name) })
        } else {
            let name = s.substring_char(i + 1, n);
            Ok(ContainerImageReference { transport, name: String::from_str(name) })
        }
    }
}

/// Where an origin image reference splits: the first `:`.
pub open spec fn oref_colon(s: Seq<char>) -> int {
    first_index_from(s, ':', 0)
}

/// The scheme of an origin image reference.
pub open spec fn oref_scheme(s: Seq<char>) -> Seq<char> {
    s.subrange(0, oref_colon(s))
}

/// What follows the scheme.
pub open spec fn oref_second(s: Seq<char>) -> Seq<char> {
    s.subrange(oref_colon(s) + 1, s.len() as int)
}

/// Where the remote name of a remote-verified scheme ends.
pub open spec fn rem_colon(second: Seq<char>) -> int {
    first_index_from(second, ':', 0)
}

/// The remote name of a remote-verified scheme.
pub open spec fn rem_remote(second: Seq<char>) -> Seq<char> {
    second.subrange(0, rem_colon(second))
}

/// What follows the remote name.
pub open spec fn rem_rest(second: Seq<char>) -> Seq<char> {
    second.subrange(rem_colon(second) + 1, second.len() as int)
}

/// A well-formed origin image reference.
pub open spec fn oref_ok(s: Seq<char>) -> bool {
    let i = oref_colon(s);
    &&& i < s.len()
    &&& {
        let sch = s.subrange(0, i);
        let second = oref_second(s);
        if sch == "ostree-image-signed"@ || sch == "ostree-unverified-image"@ {
            cref_ok(second)
        } else if sch == "ostree-unverified-registry"@ {
            second.len() > 0
        } else if sch == "ostree-remote-registry"@ {
            rem_colon(second) < second.len() && rem_rest(second).len() > 0
        } else if sch == "ostree-remote-image"@ {
            rem_colon(second) < second.len() && cref_ok(rem_rest(second))
        } else {
            false
        }
    }
}

/// The transport of a well-formed origin image reference.
pub open spec fn oref_transport(s: Seq<char>) -> Transport {
    let sch = oref_scheme(s);
    let second = oref_second(s);
    if sch == "ostree-image-signed"@ || sch == "ostree-unverified-image"@ {
        cref_transport(second)
    } else if sch == "ostree-remote-image"@ {
        cref_transport(rem_rest(second))
    } else {
        Transport::Registry
    }
}

/// The image name of a well-formed origin image reference.
pub open spec fn oref_name(s: Seq<char>) -> Seq<char> {
    let sch = oref_scheme(s);
    let second = oref_second(s);
    if sch == "ostree-image-signed"@ || sch == "ostree-unverified-image"@ {
        cref_name(second)
    } else if sch == "ostree-unverified-registry"@ {
        second
    } else if sch == "ostree-remote-registry"@ {
        rem_rest(second)
    } else {
        cref_name(rem_rest(second))
    }
}

/// Whether the scheme carries an ostree remote for verification.
pub open spec fn oref_sig_remote(s: Seq<char>) -> bool {
    oref_scheme(s) == "ostree-remote-registry"@ || oref_scheme(s) == "ostree-remote-image"@
}

/// The remote name carried by a remote-verified scheme.
pub open spec fn oref_remote(s: Seq<char>) -> Seq<char> {
    rem_remote(oref_second(s))
}

/// Whether the scheme defers to the container signature policy.
pub open spec fn oref_sig_policy(s: Seq<char>) -> bool {
    oref_scheme(s) == "ostree-image-signed"@
}

/// What parsing the origin image reference text `s` yields.
pub open spec fn parsed_oref(o: OstreeImageReference, s: Seq<char>) -> bool {
    &&& oref_ok(s)
    &&& o.imgref.transport == oref_transport(s)
    &&& o.imgref.name@ == oref_name(s)
    &&& match o.sigverify {
        SignatureSource::OstreeRemote(rem) => oref_sig_remote(s) && rem@ == oref_remote(s),
        SignatureSource::ContainerPolicy => oref_sig_policy(s),
        SignatureSource::ContainerPolicyAllowInsecure => !oref_sig_remote(s) && !oref_sig_policy(
            s,
        ),
    }
}

impl OstreeImageReference {
    /// Parse an origin image reference such as
    /// `ostree-remote-registry:fedora:quay.io/fedora/fedora-coreos:stable`.
    pub fn parse(s: &str) -> (r: Result<OstreeImageReference, StatusError>)
        ensures
            match r {
                Ok(o) => parsed_oref(o, s@),
                Err(e) => !oref_ok(s@) && (e matches StatusError::InvalidImageReference(m) && m@
                    == s@),
            },
    {
        proof {
            broadcast use group_string_axioms;

            reveal_strlit("ostree-image-signed");
            reveal_strlit("ostree-unverified-image");
            reveal_strlit("ostree-unverified-registry");
            reveal_strlit("ostree-remote-registry");
            reveal_strlit("ostree-remote-image");
            assert("ostree-image-signed"@.len() == 19);
            assert("ostree-unverified-image"@.len() == 23);
            assert("ostree-unverified-registry"@.len() == 26);
            assert("ostree-remote-registry"@.len() == 22);
            assert("ostree-remote-image"@.len() == 19);
            assert("ostree-image-signed"@[7] != "ostree-remote-image"@[7]);
            assert("ostree-image-signed"@ != "ostree-remote-image"@);
        }
        let n = s.unicode_len();
        let i = match find_first(s, ':') {
            Some(i) => i,
            None => {
                return Err(StatusError::InvalidImageReference(String::from_str(s)));
            },
        };
        let scheme = s.substring_char(0, i);
        let second = s.substring_char(i + 1, n);
        if str_eq(scheme, "ostree-image-signed") || str_eq(scheme, "ostree-unverified-image") {
            let sigverify = if str_eq(scheme, "ostree-image-signed") {
                SignatureSource::ContainerPolicy
            } else {
                SignatureSource::ContainerPolicyAllowInsecure
            };
            match ContainerImageReference::parse(second) {
                Ok(imgref) => Ok(OstreeImageReference { sigverify, imgref }),
                Err(_) => Err(StatusError::InvalidImageReference(String::from_str(s))),
            }
        } else if str_eq(scheme, "ostree-unverified-registry") {
            if i + 1 >= n {
                return Err(StatusError::InvalidImageReference(String::from_str(s)));
            }
            Ok(
                OstreeImageReference {
                    sigverify: SignatureSource::ContainerPolicyAllowInsecure,
                    imgref: ContainerImageReference {
                        transport: Transport::Registry,
                        name: String::from_str(second),
                    },
                },
            )
        } else if str_eq(scheme, "ostree-remote-registry") || str_eq(
            scheme,
            "ostree-remote-image",
        ) {
            let m = second.unicode_len();
            let j = match find_first(second, ':') {
                Some(j) => j,
                None => {
                    return Err(StatusError::InvalidImageReference(String::from_str(s)));
                },
            };
            let remote = String::from_str(second.substring_char(0, j));
            let rest = second.substring_char(j + 1, m);
            if str_eq(scheme, "ostree-remote-registry") {
                if j + 1 >= m {
                    return Err(StatusError::InvalidImageReference(String::from_str(s)));
                }
                Ok(
                    OstreeImageReference {
                        sigverify: SignatureSource::OstreeRemote(remote),
                        imgref: ContainerImageReference {
                            transport: Transport::Registry,
                            name: String::from_str(rest),
                        },
                    },
                )
            } else {
                match ContainerImageReference::parse(rest) {
                    Ok(imgref) => Ok(
                        OstreeImageReference {
                            sigverify: SignatureSource::OstreeRemote(remote),
                            imgref,
                        },
                    ),
                    Err(_) => Err(StatusError::InvalidImageReference(String::from_str(s))),
                }
            }
        } else {
            Err(StatusError::InvalidImageReference(String::from_str(s)))
        }
    }
}

/// The transport mapping is closed and total: every canonical transport
/// name parses back to the transport it names.
pub proof fn lemma_transport_name_round_trip(t: Transport)
    ensures
        transport_of(transport_chars(t)) == Some(t),
{
    reveal_strlit("registry");
    reveal_strlit("docker");
    reveal_strlit("oci");
    reveal_strlit("oci-archive");
    reveal_strlit("docker-archive");
    reveal_strlit("containers-storage");
    reveal_strlit("dir");
    assert("registry"@.len() == 8);
    assert("docker"@.len() == 6);
    assert("oci"@.len() == 3);
    assert("oci-archive"@.len() == 11);
    assert("docker-archive"@.len() == 14);
    assert("containers-storage"@.len() == 18);
    assert("dir"@.len() == 3);
    assert("dir"@[0] != "oci"@[0]);
    assert("dir"@ != "oci"@);
}

/// Converting a store-level image reference to the exposed form and back
/// yields the original reference: the canonical transport name re-parses,
/// the name is kept, and the absent-signature encoding of "allow insecure"
/// maps back to it.
pub proof fn lemma_reference_round_trip(
    o: OstreeImageReference,
    r: ImageReference,
    o2: OstreeImageReference,
)
    requires
        converted_ref(r, o),
        transport_of(r.transport@) == Some(o2.imgref.transport),
        o2.imgref.name == r.image,
        o2.sigverify == (match r.signature {
            Some(v) => sig_signature_source(v),
            None => SignatureSource::ContainerPolicyAllowInsecure,
        }),
    ensures
        o2.imgref.transport == o.imgref.transport,
        o2.imgref.name == o.imgref.name,
        o2.sigverify == o.sigverify,
{
    lemma_transport_name_round_trip(o.imgref.transport);
}

/// The exposed signature variant a store-level scheme maps to.
pub open spec fn sig_image_signature(s: SignatureSource) -> ImageSignature {
    match s {
        SignatureSource::OstreeRemote(r) => ImageSignature::OstreeRemote(r),
        SignatureSource::ContainerPolicy => ImageSignature::ContainerPolicy,
        SignatureSource::ContainerPolicyAllowInsecure => ImageSignature::Insecure,
    }
}

/// The store-level scheme an exposed signature variant maps to.
pub open spec fn sig_signature_source(s: ImageSignature) -> SignatureSource {
    match s {
        ImageSignature::OstreeRemote(r) => SignatureSource::OstreeRemote(r),
        ImageSignature::ContainerPolicy => SignatureSource::ContainerPolicy,
        ImageSignature::Insecure => SignatureSource::ContainerPolicyAllowInsecure,
    }
}

/// The exposed optional signature of a store-level scheme: "allow
/// insecure" becomes absence.
pub open spec fn sig_opt_of(s: SignatureSource) -> Option<ImageSignature> {
    match s {
        SignatureSource::ContainerPolicyAllowInsecure => None,
        v => Some(sig_image_signature(v)),
    }
}

impl ImageSignature {
    /// The exposed signature variant of a store-level scheme.
    pub fn from(sig: SignatureSource) -> (r: Self)
        ensures
            r == sig_image_signature(sig),
    {
        match sig {
            SignatureSource::OstreeRemote(r) => ImageSignature::OstreeRemote(r),
            SignatureSource::ContainerPolicy => ImageSignature::ContainerPolicy,
            SignatureSource::ContainerPolicyAllowInsecure => ImageSignature::Insecure,
        }
    }
}

impl SignatureSource {
    /// The store-level scheme of an exposed signature variant.
    pub fn from(sig: ImageSignature) -> (r: Self)
        ensures
            r == sig_signature_source(sig),
    {
        match sig {
            ImageSignature::OstreeRemote(r) => SignatureSource::OstreeRemote(r),
            ImageSignature::ContainerPolicy => SignatureSource::ContainerPolicy,
            ImageSignature::Insecure => SignatureSource::ContainerPolicyAllowInsecure,
        }
    }
}

/// The exposed image reference a store-level one converts to: the
/// transport serialized to its canonical name, "allow insecure"
/// verification becoming an absent signature.
pub open spec fn converted_ref(r: ImageReference, o: OstreeImageReference) -> bool {
    &&& r.image == o.imgref.name
    &&& r.transport@ == transport_chars(o.imgref.transport)
    &&& r.signature == sig_opt_of(o.sigverify)
}

impl ImageReference {
    /// The exposed image reference of a store-level one: the transport
    /// serialized to its canonical name, "allow insecure" verification
    /// becoming an absent signature.
    pub fn from(imgref: OstreeImageReference) -> (r: Self)
        ensures
            converted_ref(r, imgref),
    {
        let signature = match imgref.sigverify {
            SignatureSource::ContainerPolicyAllowInsecure => None,
            v => Some(ImageSignature::from(v)),
        };
        ImageReference {
            signature,
            transport: transport_to_string(&imgref.imgref.transport),
            image: imgref.imgref.name,
        }
    }
}

impl OstreeImageReference {
    /// The store-level image reference of an exposed one; fails when the
    /// transport name is not a known transport.
    pub fn from_image_reference(img: ImageReference) -> (r: Result<Self, StatusError>)
        ensures
            match r {
                Ok(o) => {
                    &&& transport_of(img.transport@) is Some
                    &&& o.imgref.transport == transport_of(img.transport@).unwrap()
                    &&& o.imgref.name == img.image
                    &&& o.sigverify == match img.signature {
                        Some(v) => sig_signature_source(v),
                        None => SignatureSource::ContainerPolicyAllowInsecure,
                    }
                },
                Err(e) => transport_of(img.transport@) is None && (e
                    matches StatusError::InvalidImageReference(m) && m@ == img.transport@),
            },
    {
        let transport = match parse_transport(img.transport.as_str()) {
            Some(t) => t,
            None => {
                return Err(StatusError::InvalidImageReference(img.transport));
            },
        };
        let sigverify = match img.signature {
            Some(v) => SignatureSource::from(v),
            None => SignatureSource::ContainerPolicyAllowInsecure,
        };
        Ok(
            OstreeImageReference {
                sigverify,
                imgref: ContainerImageReference { transport, name: img.image },
            },
        )
    }
}

} // verus!
