//! The indexed random-access format: a central index with one slot per
//! entry, probed for encryption at entry zero, read entry by entry.
//!
//! The decoder never prompts or aborts: an encrypted container without a
//! password is reported as `PasswordRequired`, and the caller supplies one
//! through a second call; a refused password is `PasswordIncorrect`.

use std::io::Read;

use zip::result::ZipError;

use vstd::prelude::*;

use crate::archive::{entries_model, opt_str_model, pw_model, DecodeError, EnclosedFile, EntryModel};

verus! {

/// What opening one indexed slot produced.
pub enum ZipSlot {
    Good { path: Option<String>, bytes: Vec<u8> },
    NeedsPassword,
    BadPassword,
    Failed,
}

/// The mathematical value of one opened slot.
pub enum ZipSlotModel {
    Good { path: Option<Seq<char>>, data: Seq<u8> },
    NeedsPassword,
    BadPassword,
    Failed,
}

impl ZipSlot {
    /// The mathematical value of this slot.
    pub open spec fn model(self) -> ZipSlotModel {
        match self {
            ZipSlot::Good { path, bytes } => ZipSlotModel::Good {
                path: opt_str_model(path),
                data: bytes@,
            },
            ZipSlot::NeedsPassword => ZipSlotModel::NeedsPassword,
            ZipSlot::BadPassword => ZipSlotModel::BadPassword,
            ZipSlot::Failed => ZipSlotModel::Failed,
        }
    }
}

/// The number of slots in the central index of a byte sequence, or nothing
/// when the bytes do not parse as an indexed archive. A function of the
/// bytes alone.
pub uninterp spec fn zip_count_of(b: Seq<u8>) -> Option<nat>;

/// What opening slot `i` without a password and reading it fully yields. A
/// function of the bytes and the index alone.
pub uninterp spec fn zip_slot_of(b: Seq<u8>, i: nat) -> ZipSlotModel;

/// What opening slot `i` under password `pw` and reading it fully yields. A
/// function of the bytes, the index and the password alone.
pub uninterp spec fn zip_slot_pw_of(b: Seq<u8>, i: nat, pw: Seq<char>) -> ZipSlotModel;

/// Relies on zip::ZipArchive::new and zip::ZipArchive::len: the central
/// index parses or not, and has a fixed slot count, on the bytes alone.
#[verifier::external_body]
fn zip_count(data: &Vec<u8>) -> (r: Option<usize>)
    ensures
        match r {
            Some(n) => zip_count_of(data@) == Some(n as nat),
            None => zip_count_of(data@) is None,
        },
{
    match zip::ZipArchive::new(std::io::Cursor::new(data.as_slice())) {
        Ok(a) => Some(a.len()),
        Err(_) => None,
    }
}

/// Relies on zip::ZipArchive::by_index and reading the returned entry: the
/// outcome is a function of the bytes and the index, and the distinguished
/// password-required error is told apart from every other failure.
#[verifier::external_body]
fn zip_slot(data: &Vec<u8>, i: usize) -> (r: ZipSlot)
    ensures
        r.model() == zip_slot_of(data@, i as nat),
{
    let res = zip::ZipArchive::new(std::io::Cursor::new(data.as_slice())).and_then(|mut a| {
        let mut f = a.by_index(i)?;
        let path = f.enclosed_name().and_then(|p| p.to_str().map(str::to_string));
        let mut bytes = Vec::new();
        f.read_to_end(&mut bytes).map_err(ZipError::Io)?;
        Ok(ZipSlot::Good { path, bytes })
    });
    match res {
        Ok(slot) => slot,
        Err(ZipError::UnsupportedArchive(m)) if m == ZipError::PASSWORD_REQUIRED => ZipSlot::NeedsPassword,
        Err(_) => ZipSlot::Failed,
    }
}

/// Relies on zip::ZipArchive::by_index_decrypt and reading the returned
/// entry: the outcome is a function of the bytes, the index and the
/// password, and the distinguished invalid-password error is told apart
/// from every other failure.
#[verifier::external_body]
fn zip_slot_decrypt(data: &Vec<u8>, i: usize, pw: &String) -> (r: ZipSlot)
    ensures
        r.model() == zip_slot_pw_of(data@, i as nat, pw@),
{
    let res = zip::ZipArchive::new(std::io::Cursor::new(data.as_slice())).and_then(|mut a| {
        let mut f = a.by_index_decrypt(i, pw.as_bytes())?;
        let path = f.enclosed_name().and_then(|p| p.to_str().map(str::to_string));
        let mut bytes = Vec::new();
        f.read_to_end(&mut bytes).map_err(ZipError::Io)?;
        Ok(ZipSlot::Good { path, bytes })
    });
    match res {
        Ok(slot) => slot,
        Err(ZipError::InvalidPassword) => ZipSlot::BadPassword,
        Err(_) => ZipSlot::Failed,
    }
}

/// The slot outcome under an optional password: probed plainly without one,
/// decrypted with one.
pub open spec fn zip_slot_sel(b: Seq<u8>, i: nat, pw: Option<Seq<char>>) -> ZipSlotModel {
    match pw {
        Some(p) => zip_slot_pw_of(b, i, p),
        None => zip_slot_of(b, i),
    }
}

/// The entry a fully read slot holds.
pub open spec fn zip_good_entry(s: ZipSlotModel) -> EntryModel {
    match s {
        ZipSlotModel::Good { path, data } => EntryModel { path: path, bytes: data },
        _ => arbitrary(),
    }
}

/// Every slot below `n` opens and reads fully under the given password.
pub open spec fn zip_all_good(b: Seq<u8>, n: nat, pw: Option<Seq<char>>) -> bool {
    forall|i: nat| i < n ==> (#[trigger] zip_slot_sel(b, i, pw)) is Good
}

/// The entries of the first `n` slots, in index order.
pub open spec fn zip_entries(b: Seq<u8>, n: nat, pw: Option<Seq<char>>) -> Seq<EntryModel> {
    Seq::new(n, |i: int| zip_good_entry(zip_slot_sel(b, i as nat, pw)))
}

/// Whether the archive is password-protected: probing slot zero without a
/// password reports, and only it reports, the password-required signal.
pub open spec fn zip_encrypted(b: Seq<u8>) -> bool {
    zip_slot_of(b, 0) is NeedsPassword
}

/// What decoding `b` as an indexed archive under an optional password
/// yields. An unencrypted archive returns every entry, or the first read
/// failure fatally; an encrypted one asks for a password, and with one
/// either returns every entry or reports the password refused.
pub open spec fn zip_decode_spec(b: Seq<u8>, pw: Option<Seq<char>>) -> Result<
    Seq<EntryModel>,
    DecodeError,
> {
    match zip_count_of(b) {
        None => Err(DecodeError::BadArchive),
        Some(n) => if !zip_encrypted(b) {
            if zip_all_good(b, n, None) {
                Ok(zip_entries(b, n, None))
            } else {
                Err(DecodeError::EntryReadFailure)
            }
        } else {
            match pw {
                None => Err(DecodeError::PasswordRequired),
                Some(p) => if zip_all_good(b, n, Some(p)) {
                    Ok(zip_entries(b, n, Some(p)))
                } else {
                    Err(DecodeError::PasswordIncorrect)
                },
            }
        },
    }
}

/// Whether the archive's bytes show the password-required probe signal on
/// the first index slot.
pub fn zip_archive_is_encrypted(data: &Vec<u8>) -> (r: bool)
    ensures
        r == zip_encrypted(data@),
{
    let probe = zip_slot(data, 0);
    match probe {
        ZipSlot::NeedsPassword => true,
        _ => false,
    }
}

/// The payload a fully read slot carries; empty for any other outcome.
pub open spec fn zip_slot_bytes(s: ZipSlotModel) -> Seq<u8> {
    match s {
        ZipSlotModel::Good { data, .. } => data,
        _ => Seq::empty(),
    }
}

/// The bytes behind one opened slot: the full payload when the slot was
/// read, the empty payload otherwise.
pub fn get_bytes_from_zip_file(file: ZipSlot) -> (r: Vec<u8>)
    ensures
        r@ == zip_slot_bytes(file.model()),
{
    match file {
        ZipSlot::Good { path: _, bytes } => bytes,
        _ => Vec::new(),
    }
}

fn zip_read_slot(data: &Vec<u8>, i: usize, password: Option<&String>) -> (r: ZipSlot)
    ensures
        r.model() == zip_slot_sel(data@, i as nat, pw_model(password)),
{
    match password {
        Some(p) => zip_slot_decrypt(data, i, p),
        None => zip_slot(data, i),
    }
}

fn zip_collect(data: &Vec<u8>, n: usize, password: Option<&String>) -> (r: Option<
    Vec<EnclosedFile>,
>)
    ensures
        r is Some <==> zip_all_good(data@, n as nat, pw_model(password)),
        r matches Some(v) ==> entries_model(v@) == zip_entries(data@, n as nat, pw_model(password)),
{
    let ghost pwm = pw_model(password);
    let mut out: Vec<EnclosedFile> = Vec::new();
    let mut i: usize = 0;
    assert(entries_model(out@) =~= zip_entries(data@, 0, pwm));
    while i < n
        invariant
            i <= n,
            out@.len() == i,
            pwm == pw_model(password),
            forall|j: nat| j < i ==> (#[trigger] zip_slot_sel(data@, j, pwm)) is Good,
            entries_model(out@) == zip_entries(data@, i as nat, pwm),
        decreases n - i,
    {
        match zip_read_slot(data, i, password) {
            ZipSlot::Good { path, bytes } => {
                let file = EnclosedFile { path, bytes };
                proof {
                    assert(file.model() == zip_good_entry(zip_slot_sel(data@, i as nat, pwm)));
                }
                let ghost pre = out@;
                out.push(file);
                proof {
                    assert(out@ == pre.push(file));
                    assert forall|j: int| 0 <= j < out@.len() implies entries_model(out@)[j]
                        == zip_entries(data@, (i + 1) as nat, pwm)[j] by {
                        if j < i {
                            assert(entries_model(pre)[j] == zip_entries(data@, i as nat, pwm)[j]);
                            assert(out@[j] == pre[j]);
                        } else {
                            assert(out@[j] == file);
                        }
                    }
                    assert(entries_model(out@) =~= zip_entries(data@, (i + 1) as nat, pwm));
                }
            },
            _ => {
                proof {
                    assert(!(zip_slot_sel(data@, i as nat, pwm) is Good));
                }
                return None;
            },
        }
        i = i + 1;
    }
    Some(out)
}

/// Decode an indexed archive, given its bytes and an optional password.
///
/// The probe at slot zero decides whether the archive is encrypted; an
/// encrypted archive without a password is answered `PasswordRequired`, and
/// with one every slot is opened under it, any refusal reported as
/// `PasswordIncorrect`. For an unencrypted archive any slot failure is
/// fatal.
pub fn get_files_from_zip_archive(data: &Vec<u8>, password: Option<&String>) -> (r: Result<
    Vec<EnclosedFile>,
    DecodeError,
>)
    ensures
        r is Ok <==> zip_decode_spec(data@, pw_model(password)) is Ok,
        r matches Ok(v) ==> zip_decode_spec(data@, pw_model(password)) == Ok::<_, DecodeError>(
            entries_model(v@),
        ),
        r matches Err(e) ==> zip_decode_spec(data@, pw_model(password)) == Err::<
            Seq<EntryModel>,
            _,
        >(e),
{
    let n = match zip_count(data) {
        Some(n) => n,
        None => {
            return Err(DecodeError::BadArchive);
        },
    };
    if !zip_archive_is_encrypted(data) {
        match zip_collect(data, n, None) {
            Some(v) => Ok(v),
            None => Err(DecodeError::EntryReadFailure),
        }
    } else {
        match password {
            None => Err(DecodeError::PasswordRequired),
            Some(p) => {
                match zip_collect(data, n, Some(p)) {
                    Some(v) => Ok(v),
                    None => Err(DecodeError::PasswordIncorrect),
                }
            },
        }
    }
}

} // verus!
