//! The solid streaming format: entries are compressed together and must be
//! traversed in the format's own order, and both the encryption signal and
//! a wrong password only show up while entry content is being read.
//!
//! The decoder never prompts or aborts: the password-required signal is
//! reported as `PasswordRequired`, and once the caller supplies a password
//! a full read-through under it either yields every entry or reports the
//! password refused (the format cannot tell a wrong password apart from
//! corruption at that point).

use std::io::Read;

use sevenz_rust2::Error::{MaybeBadPassword, PasswordRequired};
use sevenz_rust2::{ArchiveReader, Password};

use vstd::prelude::*;

use vstd::pervasive::VecAdditionalExecFns;

use crate::archive::{entries_model, pw_model, DecodeError, EnclosedFile, EntryModel};

verus! {

/// One entry of a solid archive; the format always records a name.
pub struct SzEntry {
    pub name: String,
    pub bytes: Vec<u8>,
}

/// The mathematical value of one solid-archive entry.
pub struct SzEntryModel {
    pub name: Seq<char>,
    pub data: Seq<u8>,
}

impl SzEntry {
    /// The mathematical value of this entry.
    pub open spec fn model(self) -> SzEntryModel {
        SzEntryModel { name: self.name@, data: self.bytes@ }
    }
}

/// What one full read-through of a solid archive produced.
pub enum SzOutcome {
    Entries(Vec<SzEntry>),
    NeedsPassword,
    BadPassword,
    Failed,
}

/// The mathematical value of one read-through outcome.
pub enum SzOutcomeModel {
    Entries(Seq<SzEntryModel>),
    NeedsPassword,
    BadPassword,
    Failed,
}

/// The mathematical value of a run of solid-archive entries.
pub open spec fn sz_models(v: Seq<SzEntry>) -> Seq<SzEntryModel> {
    v.map_values(|e: SzEntry| e.model())
}

impl SzOutcome {
    /// The mathematical value of this outcome.
    pub open spec fn model(self) -> SzOutcomeModel {
        match self {
            SzOutcome::Entries(v) => SzOutcomeModel::Entries(sz_models(v@)),
            SzOutcome::NeedsPassword => SzOutcomeModel::NeedsPassword,
            SzOutcome::BadPassword => SzOutcomeModel::BadPassword,
            SzOutcome::Failed => SzOutcomeModel::Failed,
        }
    }
}

/// What opening a byte sequence as a solid archive under a password and
/// reading every entry's content yields: the entries in traversal order, or
/// the distinguished password-required or maybe-bad-password signal, or a
/// plain failure at open or read time. A function of the bytes and the
/// password alone.
pub uninterp spec fn sz_read_of(b: Seq<u8>, pw: Seq<char>) -> SzOutcomeModel;

/// Relies on sevenz_rust2::ArchiveReader::new and for_each_entries: the
/// traversal visits every entry (solid blocks and empty files included),
/// reading each one's content, and a malformed header is an error, never a
/// panic; Error::PasswordRequired and Error::MaybeBadPassword are told
/// apart from every other failure, at open time or while reading.
#[verifier::external_body]
fn sz_read(data: &Vec<u8>, pw: &str) -> (r: SzOutcome)
    ensures
        r.model() == sz_read_of(data@, pw@),
{
    let opened = ArchiveReader::new(std::io::Cursor::new(data.as_slice()), Password::from(pw));
    let mut out: Vec<SzEntry> = Vec::new();
    let res = opened.and_then(|mut szr| szr.for_each_entries(|entry, reader| {
        let mut bytes = Vec::new();
        reader.read_to_end(&mut bytes)?;
        out.push(SzEntry { name: entry.name.clone(), bytes });
        Ok(true)
    }));
    match res {
        Ok(_) => SzOutcome::Entries(out),
        Err(PasswordRequired) => SzOutcome::NeedsPassword,
        Err(MaybeBadPassword(_)) => SzOutcome::BadPassword,
        Err(_) => SzOutcome::Failed,
    }
}

/// The extracted form of a run of solid-archive entries: each under its
/// recorded name.
pub open spec fn sz_entry_models(v: Seq<SzEntryModel>) -> Seq<EntryModel> {
    v.map_values(|e: SzEntryModel| EntryModel { path: Some(e.name), bytes: e.data })
}

/// What decoding `b` as a solid archive under an optional password yields.
/// Without a password the archive is read under the empty one: the
/// password-required signal asks the caller for a password, and any other
/// failure is fatal for the whole archive. With a password, anything short
/// of a full clean read-through counts as the password being refused.
pub open spec fn sz_decode_spec(b: Seq<u8>, pw: Option<Seq<char>>) -> Result<
    Seq<EntryModel>,
    DecodeError,
> {
    match pw {
        None => match sz_read_of(b, Seq::empty()) {
            SzOutcomeModel::Entries(es) => Ok(sz_entry_models(es)),
            SzOutcomeModel::NeedsPassword => Err(DecodeError::PasswordRequired),
            SzOutcomeModel::BadPassword => Err(DecodeError::EntryReadFailure),
            SzOutcomeModel::Failed => Err(DecodeError::BadArchive),
        },
        Some(p) => match sz_read_of(b, p) {
            SzOutcomeModel::Entries(es) => Ok(sz_entry_models(es)),
            _ => Err(DecodeError::PasswordIncorrect),
        },
    }
}

fn sz_to_files(v: Vec<SzEntry>) -> (r: Vec<EnclosedFile>)
    ensures
        entries_model(r@) == sz_entry_models(sz_models(v@)),
{
    let ghost scan = sz_models(v@);
    let mut v = v;
    let mut out: Vec<EnclosedFile> = Vec::new();
    let mut i: usize = 0;
    let n = v.len();
    while i < n
        invariant
            i <= n == v@.len(),
            out@.len() == i,
            scan.len() == n,
            forall|j: int| i <= j < n ==> (#[trigger] v@[j]).model() == scan[j],
            entries_model(out@) == sz_entry_models(scan.take(i as int)),
        decreases n - i,
    {
        let mut entry = SzEntry { name: String::new(), bytes: Vec::new() };
        v.set_and_swap(i, &mut entry);
        let SzEntry { name, bytes } = entry;
        let file = EnclosedFile { path: Some(name), bytes };
        proof {
            assert(file.model() == EntryModel { path: Some(scan[i as int].name), bytes: scan[i as int].data });
        }
        let ghost pre = out@;
        out.push(file);
        proof {
            assert forall|j: int| 0 <= j < out@.len() implies entries_model(out@)[j]
                == sz_entry_models(scan.take(i + 1))[j] by {
                if j < i {
                    assert(entries_model(pre)[j] == sz_entry_models(scan.take(i as int))[j]);
                    assert(out@[j] == pre[j]);
                } else {
                    assert(out@[j] == file);
                }
            }
            assert(entries_model(out@) =~= sz_entry_models(scan.take(i + 1)));
        }
        i = i + 1;
    }
    proof {
        assert(scan.take(n as int) =~= scan);
    }
    out
}

/// Decode a solid archive under the blank password, with no password
/// protocol: the password-less entry point.
pub fn get_file_from_7z_archive(data: &Vec<u8>) -> (r: Result<Vec<EnclosedFile>, DecodeError>)
    ensures
        r is Ok <==> sz_decode_spec(data@, None) is Ok,
        r matches Ok(v) ==> sz_decode_spec(data@, None) == Ok::<_, DecodeError>(entries_model(v@)),
        r matches Err(e) ==> sz_decode_spec(data@, None) == Err::<Seq<EntryModel>, _>(e),
{
    get_files_from_7z_archive(data, None)
}

/// Decode a solid archive, given its bytes and an optional password.
pub fn get_files_from_7z_archive(data: &Vec<u8>, password: Option<&String>) -> (r: Result<
    Vec<EnclosedFile>,
    DecodeError,
>)
    ensures
        r is Ok <==> sz_decode_spec(data@, pw_model(password)) is Ok,
        r matches Ok(v) ==> sz_decode_spec(data@, pw_model(password)) == Ok::<_, DecodeError>(
            entries_model(v@),
        ),
        r matches Err(e) ==> sz_decode_spec(data@, pw_model(password)) == Err::<
            Seq<EntryModel>,
            _,
        >(e),
{
    match password {
        None => {
            let outcome = sz_read(data, "");
            proof {
                reveal_strlit("");
                assert(""@ =~= Seq::<char>::empty());
            }
            match outcome {
                SzOutcome::Entries(v) => Ok(sz_to_files(v)),
                SzOutcome::NeedsPassword => Err(DecodeError::PasswordRequired),
                SzOutcome::BadPassword => Err(DecodeError::EntryReadFailure),
                SzOutcome::Failed => Err(DecodeError::BadArchive),
            }
        },
        Some(p) => {
            let outcome = sz_read(data, p.as_str());
            match outcome {
                SzOutcome::Entries(v) => Ok(sz_to_files(v)),
                _ => Err(DecodeError::PasswordIncorrect),
            }
        },
    }
}

} // verus!
