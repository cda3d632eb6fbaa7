//! The sequential tape format: entries are read in order, and an entry that
//! cannot be parsed or read is skipped rather than failing the decode.

use std::io::Read;

use vstd::prelude::*;

use vstd::pervasive::VecAdditionalExecFns;

use crate::archive::{opt_str_model, entries_model, EnclosedFile, EntryModel};

verus! {

/// What one step of the tape scan produced.
///
/// `BadHeader` is a slot whose header did not parse (the scan stops there);
/// `BadRead` parsed a header but could not read the content behind it;
/// `Good` is a fully recovered entry.
pub enum TarSlot {
    BadHeader,
    BadRead { path: Option<String> },
    Good { path: Option<String>, bytes: Vec<u8> },
}

/// The mathematical value of one scanned slot.
pub enum TarSlotModel {
    BadHeader,
    BadRead { path: Option<Seq<char>> },
    Good { path: Option<Seq<char>>, data: Seq<u8> },
}

impl TarSlot {
    /// The mathematical value of this slot.
    pub open spec fn model(self) -> TarSlotModel {
        match self {
            TarSlot::BadHeader => TarSlotModel::BadHeader,
            TarSlot::BadRead { path } => TarSlotModel::BadRead { path: opt_str_model(path) },
            TarSlot::Good { path, bytes } => TarSlotModel::Good {
                path: opt_str_model(path),
                data: bytes@,
            },
        }
    }
}

/// The mathematical value of a run of scanned slots.
pub open spec fn slot_models(v: Seq<TarSlot>) -> Seq<TarSlotModel> {
    v.map_values(|s: TarSlot| s.model())
}

/// What scanning a byte sequence as a tape archive yields: one slot per
/// enumerated entry, in order. A function of the bytes alone.
pub uninterp spec fn tar_scan_of(b: Seq<u8>) -> Seq<TarSlotModel>;

/// Relies on tar::Archive: enumerating the entries of the byte sequence
/// yields, in order, a parse failure, an entry whose content could not be
/// read, or an entry with its declared path and full content.
#[verifier::external_body]
pub(crate) fn tar_scan(data: &Vec<u8>) -> (r: Vec<TarSlot>)
    ensures
        slot_models(r@) == tar_scan_of(data@),
{
    let mut archive = tar::Archive::new(data.as_slice());
    let entries = match archive.entries() { Ok(e) => e, Err(_) => return Vec::new() };
    entries.map(|e| match e {
        Err(_) => TarSlot::BadHeader,
        Ok(mut ent) => {
            let path = ent.path().ok().and_then(|p| p.to_str().map(str::to_string));
            let mut bytes = Vec::new();
            match ent.read_to_end(&mut bytes) {
                Ok(_) => TarSlot::Good { path, bytes },
                Err(_) => TarSlot::BadRead { path },
            }
        },
    }).collect()
}

/// The entry a `Good` slot holds.
pub open spec fn good_entry(s: TarSlotModel) -> EntryModel {
    match s {
        TarSlotModel::Good { path, data } => EntryModel { path: path, bytes: data },
        _ => arbitrary(),
    }
}

/// The recovered entries of a scan: the `Good` slots in order, each reduced
/// to its path and payload; every other slot is skipped.
pub open spec fn tar_entries(t: Seq<TarSlotModel>) -> Seq<EntryModel>
    decreases t.len(),
{
    if t.len() == 0 {
        Seq::empty()
    } else if t.last() is Good {
        tar_entries(t.drop_last()).push(good_entry(t.last()))
    } else {
        tar_entries(t.drop_last())
    }
}

/// A scan without `Good` slots recovers nothing.
pub proof fn lemma_tar_no_good(t: Seq<TarSlotModel>)
    requires
        forall|j: int| 0 <= j < t.len() ==> !((#[trigger] t[j]) is Good),
    ensures
        tar_entries(t) == Seq::<EntryModel>::empty(),
    decreases t.len(),
{
    if t.len() > 0 {
        lemma_tar_no_good(t.drop_last());
    }
}

/// Tolerance of the tape decoder: a scan holding exactly one fully readable
/// slot recovers exactly that slot's entry, whatever the other slots hold.
pub proof fn lemma_tar_single_good(t: Seq<TarSlotModel>, k: int)
    requires
        0 <= k < t.len(),
        t[k] is Good,
        forall|j: int| 0 <= j < t.len() && j != k ==> !((#[trigger] t[j]) is Good),
    ensures
        tar_entries(t) =~= seq![good_entry(t[k])],
    decreases t.len(),
{
    if k == t.len() - 1 {
        lemma_tar_no_good(t.drop_last());
    } else {
        lemma_tar_single_good(t.drop_last(), k);
    }
}

/// Reduce a run of scanned slots to the entries of its `Good` slots, in
/// order.
pub fn collect_tar_entries(slots: Vec<TarSlot>) -> (r: Vec<EnclosedFile>)
    ensures
        entries_model(r@) == tar_entries(slot_models(slots@)),
{
    let ghost scan = slot_models(slots@);
    let mut slots = slots;
    let mut out: Vec<EnclosedFile> = Vec::new();
    let mut i: usize = 0;
    let n = slots.len();
    assert(scan.take(0) =~= Seq::empty());
    while i < n
        invariant
            i <= n == slots@.len(),
            forall|j: int| i <= j < n ==> (#[trigger] slots@[j]).model() == scan[j],
            scan.len() == n,
            entries_model(out@) == tar_entries(scan.take(i as int)),
        decreases n - i,
    {
        let mut slot = TarSlot::BadHeader;
        slots.set_and_swap(i, &mut slot);
        proof {
            assert(scan.take(i + 1).drop_last() =~= scan.take(i as int));
            assert(scan.take(i + 1).last() == scan[i as int]);
        }
        match slot {
            TarSlot::Good { path, bytes } => {
                let file = EnclosedFile { path, bytes };
                proof {
                    assert(file.model() == good_entry(scan[i as int]));
                }
                out.push(file);
                proof {
                    assert(entries_model(out@) =~= tar_entries(scan.take(i + 1)));
                }
            },
            _ => {
                proof {
                    assert(entries_model(out@) =~= tar_entries(scan.take(i + 1)));
                }
            },
        }
        i = i + 1;
    }
    proof {
        assert(scan.take(n as int) =~= scan);
    }
    out
}

/// Decode a tape archive: every fully readable entry, in encounter order,
/// with its declared path (absent when the path did not resolve) and its
/// full content; unreadable or unparseable slots are silently skipped.
pub fn get_files_from_tar(data: &Vec<u8>) -> (r: Vec<EnclosedFile>)
    ensures
        entries_model(r@) == tar_entries(tar_scan_of(data@)),
{
    let slots = tar_scan(data);
    collect_tar_entries(slots)
}

/// A tape archive's bytes, read as the entries they hold.
pub trait ReadTarArchive {
    /// The entries recoverable from these bytes as a tape archive.
    fn get_files_from_tar(self) -> Vec<EnclosedFile>;
}

impl ReadTarArchive for Vec<u8> {
    /// The tape decode of this byte buffer.
    fn get_files_from_tar(self) -> (r: Vec<EnclosedFile>)
        ensures
            entries_model(r@) == tar_entries(tar_scan_of(self@)),
    {
        let slots = tar_scan(&self);
        collect_tar_entries(slots)
    }
}

} // verus!
