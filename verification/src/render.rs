//! The human-readable renderer: one block per occupied slot in the fixed
//! order staged, booted, rollback, then the other deployments, with
//! right-aligned label rows and one blank line between blocks. Label
//! widths follow the header's display length; the booted slot's header
//! carries a distinguishing glyph, and the other headers carry matching
//! leading spaces so the label columns align across blocks.

use vstd::prelude::*;
use vstd::string::StrSliceExecFns;
use vstd::string::StringExecFns;

use crate::model::BootEntry;
use crate::model::BootEntryOstree;
use crate::model::Host;
use crate::model::ImageReference;
use crate::model::ImageSignature;
use crate::model::ImageStatus;
use crate::model::Timestamp;
use crate::textutil::dec_digits;
use crate::textutil::push_dec;
use crate::textutil::str_eq;
use crate::timestamp::push_timestamp;
use crate::timestamp::timestamp_chars;
use crate::Slot;

verus! {

/// `n` spaces.
pub open spec fn spaces(n: nat) -> Seq<char> {
    Seq::new(n, |i: int| ' ')
}

/// A row label, right-aligned to the block's prefix width and followed by
/// a colon and a space.
pub open spec fn row_name_text(name: Seq<char>, prefix_len: int) -> Seq<char> {
    let pad = if name.len() <= prefix_len {
        (prefix_len - name.len()) as nat
    } else {
        0
    };
    spaces(pad) + name + ": "@
}

/// One full label row: the aligned label, the value, a newline.
pub open spec fn row_text(name: Seq<char>, value: Seq<char>, prefix_len: int) -> Seq<char> {
    row_name_text(name, prefix_len) + value + "\n"@
}

/// `yes` or `no`.
pub open spec fn yes_no(b: bool) -> Seq<char> {
    if b {
        "yes"@
    } else {
        "no"@
    }
}

/// How an image reference is shown: the registry transport is the default
/// and is elided; any other transport prefixes the name.
pub open spec fn image_ref_text(img: ImageReference) -> Seq<char> {
    if img.transport@ == "registry"@ {
        img.image@
    } else {
        img.transport@ + ":"@ + img.image@
    }
}

/// How a signature is shown in verbose mode.
pub open spec fn sig_text(s: ImageSignature) -> Seq<char> {
    match s {
        ImageSignature::OstreeRemote(r) => "ostree-remote:"@ + r@,
        ImageSignature::ContainerPolicy => "container-policy"@,
        ImageSignature::Insecure => "insecure"@,
    }
}

/// The verbose backend rows: state root, deploy serial, and whether this
/// is the staged slot.
pub open spec fn verbose_ostree_text(
    o: BootEntryOstree,
    slot: Option<Slot>,
    prefix_len: int,
) -> Seq<char> {
    row_text("StateRoot"@, o.stateroot@, prefix_len) + row_text(
        "Deploy serial"@,
        dec_digits(o.deploy_serial as nat),
        prefix_len,
    ) + row_text("Staged"@, yes_no(slot matches Some(Slot::Staged)), prefix_len)
}

/// The verbose soft-reboot row.
pub open spec fn soft_reboot_text(e: BootEntry, prefix_len: int) -> Seq<char> {
    row_text("Soft-reboot"@, yes_no(e.soft_reboot_capable), prefix_len)
}

/// The header of an image block, and its display width.
pub open spec fn image_prefix(slot: Option<Slot>) -> Seq<char> {
    match slot {
        Some(Slot::Staged) => "  Staged image"@,
        Some(Slot::Booted) => "● Booted image"@,
        Some(Slot::Rollback) => "  Rollback image"@,
        None => "   Other image"@,
    }
}

/// The character count of an image block's header.
pub open spec fn image_prefix_len(slot: Option<Slot>) -> int {
    match slot {
        Some(Slot::Staged) => 14,
        Some(Slot::Booted) => 14,
        Some(Slot::Rollback) => 16,
        None => 14,
    }
}

/// The version and timestamp rows: a version with a timestamp in
/// parentheses, a bare version, a bare timestamp, or nothing.
pub open spec fn version_ts_text(
    version: Option<String>,
    timestamp: Option<Timestamp>,
    prefix_len: int,
) -> Seq<char> {
    match (version, timestamp) {
        (Some(v), Some(t)) => row_text(
            "Version"@,
            v@ + " ("@ + timestamp_chars(t) + ")"@,
            prefix_len,
        ),
        (Some(v), None) => row_text("Version"@, v@, prefix_len),
        (None, Some(t)) => row_text("Timestamp"@, timestamp_chars(t), prefix_len),
        (None, None) => Seq::empty(),
    }
}

/// A container-image block: header, digest row, version and timestamp
/// rows, a pinned row when pinned, and in verbose mode the backend rows,
/// the commit, the signature, and the soft-reboot row.
pub open spec fn image_block_text(
    slot: Option<Slot>,
    e: BootEntry,
    img: ImageStatus,
    verbose: bool,
) -> Seq<char> {
    let plen = image_prefix_len(slot);
    image_prefix(slot) + ": "@ + image_ref_text(img.image) + "\n"@ + row_text(
        "Digest"@,
        img.image_digest@ + " ("@ + img.architecture@ + ")"@,
        plen,
    ) + version_ts_text(img.version, img.timestamp, plen) + (if e.pinned {
        row_text("Pinned"@, "yes"@, plen)
    } else {
        Seq::empty()
    }) + (if verbose {
        image_verbose_text(slot, e, img, plen)
    } else {
        Seq::empty()
    })
}

/// The verbose tail of an image block: backend rows and commit, the
/// signature, and the soft-reboot row.
pub open spec fn image_verbose_text(
    slot: Option<Slot>,
    e: BootEntry,
    img: ImageStatus,
    plen: int,
) -> Seq<char> {
    (match e.ostree {
        Some(o) => verbose_ostree_text(o, slot, plen) + row_text("Commit"@, o.checksum@, plen),
        None => Seq::empty(),
    }) + (match img.image.signature {
        Some(sg) => row_text("Signature"@, sig_text(sg), plen),
        None => Seq::empty(),
    }) + soft_reboot_text(e, plen)
}

/// The header of a plain deployment-store block.
pub open spec fn ostree_prefix(slot: Option<Slot>) -> Seq<char> {
    match slot {
        Some(Slot::Staged) => "  Staged ostree"@,
        Some(Slot::Booted) => "● Booted ostree"@,
        Some(Slot::Rollback) => "  Rollback ostree"@,
        None => " Other ostree"@,
    }
}

/// The display width of a plain deployment-store block's header.
pub open spec fn ostree_prefix_len(slot: Option<Slot>) -> int {
    match slot {
        Some(Slot::Staged) => 15,
        Some(Slot::Booted) => 15,
        Some(Slot::Rollback) => 17,
        None => 13,
    }
}

/// A plain deployment-store block: header, commit row, a pinned row when
/// pinned, and in verbose mode the backend rows and the soft-reboot row.
pub open spec fn ostree_block_text(
    slot: Option<Slot>,
    e: BootEntry,
    commit: Seq<char>,
    verbose: bool,
) -> Seq<char> {
    let plen = ostree_prefix_len(slot);
    ostree_prefix(slot) + "\n"@ + row_text("Commit"@, commit, plen) + (if e.pinned {
        row_text("Pinned"@, "yes"@, plen)
    } else {
        Seq::empty()
    }) + (if verbose {
        (match e.ostree {
            Some(o) => verbose_ostree_text(o, slot, plen),
            None => Seq::empty(),
        }) + soft_reboot_text(e, plen)
    } else {
        Seq::empty()
    })
}

/// The header of a composefs block.
pub open spec fn composefs_prefix(slot: Slot) -> Seq<char> {
    match slot {
        Slot::Staged => "  Staged composefs"@,
        Slot::Booted => "● Booted composefs"@,
        Slot::Rollback => "  Rollback composefs"@,
    }
}

/// The display width of a composefs block's header.
pub open spec fn composefs_prefix_len(slot: Slot) -> int {
    match slot {
        Slot::Staged => 18,
        Slot::Booted => 18,
        Slot::Rollback => 20,
    }
}

/// A composefs block: header and the verity commit row.
pub open spec fn composefs_block_text(slot: Slot, verity: Seq<char>) -> Seq<char> {
    composefs_prefix(slot) + "\n"@ + row_text("Commit"@, verity, composefs_prefix_len(slot))
}

/// One occupied slot's block: an image block, else a deployment-store
/// block, else a composefs block, else the unknown-state line.
pub open spec fn slot_block_text(slot: Slot, e: BootEntry, verbose: bool) -> Seq<char> {
    match e.image {
        Some(img) => image_block_text(Some(slot), e, img, verbose),
        None => match e.ostree {
            Some(o) => ostree_block_text(Some(slot), e, o.checksum@, verbose),
            None => match e.composefs {
                Some(c) => composefs_block_text(slot, c.verity@),
                None => "Current "@ + slot.name() + " state is unknown\n"@,
            },
        },
    }
}

/// One other deployment's block: an image or deployment-store block, or
/// the unknown-state line when the entry carries neither (the composefs
/// backend has no other-deployments block format, so such an entry also
/// reports unknown state).
pub open spec fn other_block_text(e: BootEntry, verbose: bool) -> Seq<char> {
    match e.image {
        Some(img) => image_block_text(None, e, img, verbose),
        None => match e.ostree {
            Some(o) => ostree_block_text(None, e, o.checksum@, verbose),
            None => "Current other state is unknown\n"@,
        },
    }
}

/// The slot blocks in their fixed order, separated by one blank line.
pub open spec fn slots_text(h: Host, verbose: bool) -> Seq<char> {
    let s1 = match h.status.staged {
        Some(e) => slot_block_text(Slot::Staged, e, verbose),
        None => Seq::empty(),
    };
    let s2 = match h.status.booted {
        Some(e) => (if h.status.staged is Some {
            "\n"@
        } else {
            Seq::empty()
        }) + slot_block_text(Slot::Booted, e, verbose),
        None => Seq::empty(),
    };
    let s3 = match h.status.rollback {
        Some(e) => (if h.status.staged is Some || h.status.booted is Some {
            "\n"@
        } else {
            Seq::empty()
        }) + slot_block_text(Slot::Rollback, e, verbose),
        None => Seq::empty(),
    };
    s1 + s2 + s3
}

/// The other deployments' blocks, each preceded by one blank line.
pub open spec fn others_text(os: Seq<BootEntry>, verbose: bool) -> Seq<char>
    decreases os.len(),
{
    if os.len() == 0 {
        Seq::empty()
    } else {
        others_text(os.drop_last(), verbose) + "\n"@ + other_block_text(os.last(), verbose)
    }
}

/// The whole human-readable text: the slot and other-deployment blocks,
/// or the single not-deployed line when nothing is booted via the
/// supported mechanism.
pub open spec fn human_text(h: Host, verbose: bool) -> Seq<char> {
    if h.status.booted is Some {
        slots_text(h, verbose) + others_text(h.status.other_deployments@, verbose)
    } else {
        "System is not deployed via bootc.\n"@
    }
}

/// Append a row label, right-aligned to the block's prefix width.
pub fn write_row_name(out: &mut String, s: &str, prefix_len: usize)
    ensures
        final(out)@ == old(out)@ + row_name_text(s@, prefix_len as int),
{
    proof {
        reveal_strlit(" ");
    }
    let sl = s.unicode_len();
    let n = if sl >= prefix_len {
        0
    } else {
        prefix_len - sl
    };
    let mut j: usize = 0;
    while j < n
        invariant
            j <= n,
            out@ == old(out)@ + spaces(j as nat),
        decreases n - j,
    {
        out.append(" ");
        proof {
            reveal_strlit(" ");
            assert(out@ =~= old(out)@ + spaces((j + 1) as nat));
        }
        j += 1;
    }
    out.append(s);
    out.append(": ");
    assert(final(out)@ =~= old(out)@ + row_name_text(s@, prefix_len as int));
}

fn write_row(out: &mut String, name: &str, value: &str, prefix_len: usize)
    ensures
        final(out)@ == old(out)@ + row_text(name@, value@, prefix_len as int),
{
    write_row_name(out, name, prefix_len);
    out.append(value);
    out.append("\n");
    assert(final(out)@ =~= old(out)@ + row_text(name@, value@, prefix_len as int));
}

/// Append the verbose backend rows.
pub fn render_verbose_ostree_info(
    out: &mut String,
    ostree: &BootEntryOstree,
    slot: Option<Slot>,
    prefix_len: usize,
)
    ensures
        final(out)@ == old(out)@ + verbose_ostree_text(*ostree, slot, prefix_len as int),
{
    write_row(out, "StateRoot", ostree.stateroot.as_str(), prefix_len);
    write_row_name(out, "Deploy serial", prefix_len);
    push_dec(out, ostree.deploy_serial);
    out.append("\n");
    let is_staged = matches!(slot, Some(Slot::Staged));
    write_row(out, "Staged", if is_staged { "yes" } else { "no" }, prefix_len);
    assert(final(out)@ =~= old(out)@ + verbose_ostree_text(*ostree, slot, prefix_len as int));
}

/// Append the verbose soft-reboot row.
pub fn write_soft_reboot(out: &mut String, entry: &BootEntry, prefix_len: usize)
    ensures
        final(out)@ == old(out)@ + soft_reboot_text(*entry, prefix_len as int),
{
    write_row(
        out,
        "Soft-reboot",
        if entry.soft_reboot_capable { "yes" } else { "no" },
        prefix_len,
    );
}

/// Append the version and timestamp rows.
#[verifier::rlimit(100)]
#[verifier::spinoff_prover]
fn write_version_ts(
    out: &mut String,
    version: &Option<String>,
    timestamp: &Option<Timestamp>,
    prefix_len: usize,
)
    ensures
        final(out)@ == old(out)@ + version_ts_text(*version, *timestamp, prefix_len as int),
{
    match (version, timestamp) {
        (Some(v), Some(t)) => {
            write_row_name(out, "Version", prefix_len);
            out.append(v.as_str());
            out.append(" (");
            push_timestamp(out, t);
            out.append(")");
            out.append("\n");
            assert(final(out)@ =~= old(out)@ + version_ts_text(
                *version,
                *timestamp,
                prefix_len as int,
            ));
        },
        (Some(v), None) => {
            write_row(out, "Version", v.as_str(), prefix_len);
        },
        (None, Some(t)) => {
            write_row_name(out, "Timestamp", prefix_len);
            push_timestamp(out, t);
            out.append("\n");
            assert(final(out)@ =~= old(out)@ + version_ts_text(
                *version,
                *timestamp,
                prefix_len as int,
            ));
        },
        (None, None) => {},
    }
}

/// Append the verbose tail of an image block.
#[verifier::rlimit(100)]
#[verifier::spinoff_prover]
fn write_image_verbose(
    out: &mut String,
    slot: Option<Slot>,
    entry: &BootEntry,
    image: &ImageStatus,
    prefix_len: usize,
)
    ensures
        final(out)@ == old(out)@ + image_verbose_text(slot, *entry, *image, prefix_len as int),
{
    match &entry.ostree {
        Some(o) => {
            render_verbose_ostree_info(out, o, slot, prefix_len);
            write_row(out, "Commit", o.checksum.as_str(), prefix_len);
        },
        None => {},
    }
    match &image.image.signature {
        Some(sg) => {
            write_row_name(out, "Signature", prefix_len);
            match sg {
                ImageSignature::OstreeRemote(remote) => {
                    out.append("ostree-remote:");
                    out.append(remote.as_str());
                    out.append("\n");
                },
                ImageSignature::ContainerPolicy => {
                    out.append("container-policy");
                    out.append("\n");
                },
                ImageSignature::Insecure => {
                    out.append("insecure");
                    out.append("\n");
                },
            }
        },
        None => {},
    }
    write_soft_reboot(out, entry, prefix_len);
    assert(final(out)@ =~= old(out)@ + image_verbose_text(slot, *entry, *image, prefix_len as int));
}

/// Append an image block's header line and digest row.
#[verifier::rlimit(100)]
#[verifier::spinoff_prover]
fn write_image_head(out: &mut String, slot: Option<Slot>, image: &ImageStatus)
    ensures
        final(out)@ == old(out)@ + (image_prefix(slot) + ": "@ + image_ref_text(image.image)
            + "\n"@ + row_text(
            "Digest"@,
            image.image_digest@ + " ("@ + image.architecture@ + ")"@,
            image_prefix_len(slot),
        )),
{
    let (prefix, prefix_len): (&str, usize) = match slot {
        Some(Slot::Staged) => ("  Staged image", 14),
        Some(Slot::Booted) => ("● Booted image", 14),
        Some(Slot::Rollback) => ("  Rollback image", 16),
        None => ("   Other image", 14),
    };
    out.append(prefix);
    out.append(": ");
    if str_eq(image.image.transport.as_str(), "registry") {
        out.append(image.image.image.as_str());
    } else {
        out.append(image.image.transport.as_str());
        out.append(":");
        out.append(image.image.image.as_str());
    }
    out.append("\n");
    write_row_name(out, "Digest", prefix_len);
    out.append(image.image_digest.as_str());
    out.append(" (");
    out.append(image.architecture.as_str());
    out.append(")");
    out.append("\n");
    assert(final(out)@ =~= old(out)@ + (image_prefix(slot) + ": "@ + image_ref_text(image.image)
        + "\n"@ + row_text(
        "Digest"@,
        image.image_digest@ + " ("@ + image.architecture@ + ")"@,
        image_prefix_len(slot),
    )));
}

/// Append one container-image block.
#[verifier::rlimit(100)]
#[verifier::spinoff_prover]
pub fn human_render_slot(
    out: &mut String,
    slot: Option<Slot>,
    entry: &BootEntry,
    image: &ImageStatus,
    verbose: bool,
)
    ensures
        final(out)@ == old(out)@ + image_block_text(slot, *entry, *image, verbose),
{
    let prefix_len: usize = match slot {
        Some(Slot::Staged) => 14,
        Some(Slot::Booted) => 14,
        Some(Slot::Rollback) => 16,
        None => 14,
    };
    write_image_head(out, slot, image);
    write_version_ts(out, &image.version, &image.timestamp, prefix_len);
    if entry.pinned {
        write_row(out, "Pinned", "yes", prefix_len);
    }
    if verbose {
        write_image_verbose(out, slot, entry, image, prefix_len);
    }
    assert(final(out)@ =~= old(out)@ + image_block_text(slot, *entry, *image, verbose));
}

/// Append one plain deployment-store block.
#[verifier::rlimit(100)]
#[verifier::spinoff_prover]
pub fn human_render_slot_ostree(
    out: &mut String,
    slot: Option<Slot>,
    entry: &BootEntry,
    ostree_commit: &str,
    verbose: bool,
)
    ensures
        final(out)@ == old(out)@ + ostree_block_text(slot, *entry, ostree_commit@, verbose),
{
    let (prefix, prefix_len): (&str, usize) = match slot {
        Some(Slot::Staged) => ("  Staged ostree", 15),
        Some(Slot::Booted) => ("● Booted ostree", 15),
        Some(Slot::Rollback) => ("  Rollback ostree", 17),
        None => (" Other ostree", 13),
    };
    out.append(prefix);
    out.append("\n");
    write_row(out, "Commit", ostree_commit, prefix_len);
    if entry.pinned {
        write_row(out, "Pinned", "yes", prefix_len);
    }
    if verbose {
        match &entry.ostree {
            Some(o) => {
                render_verbose_ostree_info(out, o, slot, prefix_len);
            },
            None => {},
        }
        write_soft_reboot(out, entry, prefix_len);
    }
    assert(final(out)@ =~= old(out)@ + ostree_block_text(slot, *entry, ostree_commit@, verbose));
}

/// Append one composefs block.
pub fn human_render_slot_composefs(
    out: &mut String,
    slot: Slot,
    _entry: &BootEntry,
    erofs_verity: &str,
)
    ensures
        final(out)@ == old(out)@ + composefs_block_text(slot, erofs_verity@),
{
    let (prefix, prefix_len): (&str, usize) = match slot {
        Slot::Staged => ("  Staged composefs", 18),
        Slot::Booted => ("● Booted composefs", 18),
        Slot::Rollback => ("  Rollback composefs", 20),
    };
    out.append(prefix);
    out.append("\n");
    write_row(out, "Commit", erofs_verity, prefix_len);
    assert(final(out)@ =~= old(out)@ + composefs_block_text(slot, erofs_verity@));
}

fn render_slot_entry(out: &mut String, slot: Slot, entry: &BootEntry, verbose: bool)
    ensures
        final(out)@ == old(out)@ + slot_block_text(slot, *entry, verbose),
{
    if let Some(image) = &entry.image {
        human_render_slot(out, Some(slot), entry, image, verbose);
    } else if let Some(ostree) = &entry.ostree {
        human_render_slot_ostree(out, Some(slot), entry, ostree.checksum.as_str(), verbose);
    } else if let Some(composefs) = &entry.composefs {
        human_render_slot_composefs(out, slot, entry, composefs.verity.as_str());
    } else {
        out.append("Current ");
        out.append(slot.as_str());
        out.append(" state is unknown\n");
        assert(final(out)@ =~= old(out)@ + slot_block_text(slot, *entry, verbose));
    }
}

/// Append the blocks of a snapshot whose booted slot is occupied.
#[verifier::rlimit(100)]
#[verifier::spinoff_prover]
pub fn human_readable_output_booted(out: &mut String, host: &Host, verbose: bool)
    ensures
        final(out)@ == old(out)@ + slots_text(*host, verbose) + others_text(
            host.status.other_deployments@,
            verbose,
        ),
{
    let mut first = true;
    if let Some(e) = &host.status.staged {
        render_slot_entry(out, Slot::Staged, e, verbose);
        first = false;
    }
    if let Some(e) = &host.status.booted {
        if !first {
            out.append("\n");
        }
        render_slot_entry(out, Slot::Booted, e, verbose);
        first = false;
    }
    if let Some(e) = &host.status.rollback {
        if !first {
            out.append("\n");
        }
        render_slot_entry(out, Slot::Rollback, e, verbose);
    }
    assert(out@ =~= old(out)@ + slots_text(*host, verbose));
    let ghost base = out@;
    let ods = &host.status.other_deployments;
    let n = ods.len();
    let mut i: usize = 0;
    while i < n
        invariant
            n == ods@.len(),
            i <= n,
            out@ == base + others_text(ods@.take(i as int), verbose),
        decreases n - i,
    {
        out.append("\n");
        let entry = &ods[i];
        if let Some(image) = &entry.image {
            human_render_slot(out, None, entry, image, verbose);
        } else if let Some(ostree) = &entry.ostree {
            human_render_slot_ostree(out, None, entry, ostree.checksum.as_str(), verbose);
        } else {
            out.append("Current other state is unknown\n");
        }
        proof {
            assert(ods@.take(i + 1).drop_last() =~= ods@.take(i as int));
            assert(ods@.take(i + 1).last() == ods@[i as int]);
            assert(out@ =~= base + others_text(ods@.take(i + 1), verbose));
        }
        i += 1;
    }
    proof {
        assert(ods@.take(n as int) =~= ods@);
    }
}

/// Render the snapshot for human consumption: the slot and
/// other-deployment blocks, or the single not-deployed line when nothing
/// is booted via the supported mechanism.
pub fn human_readable_output(out: &mut String, host: &Host, verbose: bool)
    ensures
        final(out)@ == old(out)@ + human_text(*host, verbose),
{
    if host.status.booted.is_some() {
        human_readable_output_booted(out, host, verbose);
    } else {
        out.append("System is not deployed via bootc.\n");
    }
    assert(final(out)@ =~= old(out)@ + human_text(*host, verbose));
}

/// Rendering is deterministic: two renderings of the same snapshot in the
/// same mode are byte-identical. Any two outputs of
/// `human_readable_output` on equal inputs both equal `human_text` of the
/// snapshot, hence each other.
pub proof fn lemma_render_idempotent(h: Host, verbose: bool, a: Seq<char>, b: Seq<char>)
    requires
        a == human_text(h, verbose),
        b == human_text(h, verbose),
    ensures
        a == b,
{
}

} // verus!
