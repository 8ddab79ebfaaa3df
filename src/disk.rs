use vstd::prelude::*;
use crate::memory::{gb_centi, spec_gb_centi};
use crate::text::{centi_text, push_centi, push_signed, signed_text};

verus! {

/// Storage medium of a disk.
#[derive(Clone, Copy, Debug, PartialEq, Eq, Structural)]
pub enum DiskKind {
    HDD,
    SSD,
    Unknown(i64),
}

/// One mounted volume.
#[derive(Clone, Debug)]
pub struct DiskReading {
    pub name: String,
    pub file_system: String,
    pub kind: DiskKind,
    pub removable: bool,
    pub available_bytes: u64,
    pub total_bytes: u64,
    pub mount_point: String,
}

/// The name of a disk kind.
pub open spec fn kind_text(k: DiskKind) -> Seq<char> {
    match k {
        DiskKind::HDD => "HDD"@,
        DiskKind::SSD => "SSD"@,
        DiskKind::Unknown(n) => "Unknown("@ + signed_text(n as int) + ")"@,
    }
}

/// The lines of one disk: name, file system, kind, removable flag, and
/// available over total space in gigabytes at its mount point.
pub open spec fn disk_entry(d: DiskReading) -> Seq<char> {
    "Disk("@ + d.name@ + ")\n  [FS: "@ + d.file_system@ + "]\n  [Type: "@ + kind_text(d.kind)
        + "]\n  [Removable: "@ + (if d.removable { "yes"@ } else { "no"@ })
        + "]\n  [Mounted on "@ + d.mount_point@ + ": "@ + centi_text(
        spec_gb_centi(d.available_bytes as int),
    ) + "/"@ + centi_text(spec_gb_centi(d.total_bytes as int)) + " GB]\n"@
}

/// The entries of all disks, in the order given.
pub open spec fn disk_text(ds: Seq<DiskReading>) -> Seq<char>
    decreases ds.len(),
{
    if ds.len() == 0 {
        Seq::empty()
    } else {
        disk_text(ds.drop_last()) + disk_entry(ds.last())
    }
}

/// Appends the name of a disk kind.
fn push_kind(s: &mut String, k: DiskKind)
    ensures
        final(s)@ == old(s)@ + kind_text(k),
{
    match k {
        DiskKind::HDD => s.append("HDD"),
        DiskKind::SSD => s.append("SSD"),
        DiskKind::Unknown(n) => {
            s.append("Unknown(");
            push_signed(s, n);
            s.append(")");
            assert(final(s)@ =~= old(s)@ + kind_text(k));
        },
    }
}

/// Appends the lines of one disk.
fn push_disk_entry(text: &mut String, d: &DiskReading)
    ensures
        final(text)@ == old(text)@ + disk_entry(*d),
{
    text.append("Disk(");
    text.append(d.name.as_str());
    text.append(")\n  [FS: ");
    text.append(d.file_system.as_str());
    text.append("]\n  [Type: ");
    push_kind(text, d.kind);
    text.append("]\n  [Removable: ");
    if d.removable {
        text.append("yes");
    } else {
        text.append("no");
    }
    text.append("]\n  [Mounted on ");
    text.append(d.mount_point.as_str());
    text.append(": ");
    push_centi(text, gb_centi(d.available_bytes));
    text.append("/");
    push_centi(text, gb_centi(d.total_bytes));
    text.append(" GB]\n");
    assert(final(text)@ =~= old(text)@ + disk_entry(*d));
}

/// Formats the disks as a text panel, one entry per disk.
pub fn render_disk_info(ds: &Vec<DiskReading>) -> (r: String)
    ensures
        r@ == disk_text(ds@),
{
    let mut text = String::new();
    let mut i: usize = 0;
    while i < ds.len()
        invariant
            i <= ds@.len(),
            text@ == disk_text(ds@.take(i as int)),
        decreases ds@.len() - i,
    {
        push_disk_entry(&mut text, &ds[i]);
        proof {
            let p = ds@.take(i + 1);
            assert(p.drop_last() =~= ds@.take(i as int));
        }
        i = i + 1;
        assert(text@ =~= disk_text(ds@.take(i as int)));
    }
    assert(ds@.take(i as int) =~= ds@);
    text
}

} // verus!
