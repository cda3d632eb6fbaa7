//! The container classifier: maps a candidate file's content to a supported
//! container kind, or rejects it with a precise reason.
//!
//! Classification is by content signature, never by file extension. A file
//! whose signature is unknown is told apart further: readable as plain text
//! (rejected as such) or not (rejected as undeterminable). The caller hands
//! the file's bytes in, `None` standing for a path that could not be read.

use vstd::prelude::*;

use vstd::string::StringExecFns;
use vstd::utf8::{decode_utf8, valid_utf8};

use crate::archive::ArchiveType;

verus! {

/// What content sniffing reports for one file: whether the matched
/// signature is an archive signature, and its MIME label.
pub struct SniffKind {
    pub is_archive: bool,
    pub mime: String,
}

/// The mathematical value of one sniffing report.
pub struct SniffModel {
    pub is_archive: bool,
    pub mime: Seq<char>,
}

/// What signature sniffing yields on a byte sequence: nothing when no known
/// signature matches. A function of the bytes alone.
pub uninterp spec fn sniff_of(b: Seq<u8>) -> Option<SniffModel>;

/// Relies on infer::get (with Type::matcher_type and Type::mime_type):
/// signature matching is a function of the bytes alone; the report carries
/// whether the matcher type is the archive one, and the MIME label.
#[verifier::external_body]
fn sniff(data: &Vec<u8>) -> (r: Option<SniffKind>)
    ensures
        match r {
            Some(k) => sniff_of(data@) == Some(
                SniffModel { is_archive: k.is_archive, mime: k.mime@ },
            ),
            None => sniff_of(data@) is None,
        },
{
    infer::get(data.as_slice()).map(|t| SniffKind {
        is_archive: matches!(t.matcher_type(), infer::MatcherType::Archive),
        mime: t.mime_type().to_string(),
    })
}

/// Whether a character counts as whitespace.
pub uninterp spec fn whitespace_char(c: char) -> bool;

/// Whether a character is a control character.
pub uninterp spec fn control_char(c: char) -> bool;

/// Relies on char::is_whitespace: the result depends on the character alone.
#[verifier::external_body]
fn char_is_whitespace(c: char) -> (r: bool)
    ensures
        r == whitespace_char(c),
{
    c.is_whitespace()
}

/// Relies on char::is_control: the result depends on the character alone.
#[verifier::external_body]
fn char_is_control(c: char) -> (r: bool)
    ensures
        r == control_char(c),
{
    c.is_control()
}

/// Relies on core::str::from_utf8: it accepts exactly the well-formed
/// UTF-8 byte sequences and yields their decoded characters.
#[verifier::external_body]
fn utf8_chars(data: &Vec<u8>) -> (r: Option<Vec<char>>)
    ensures
        match r {
            Some(v) => valid_utf8(data@) && v@ == decode_utf8(data@),
            None => !valid_utf8(data@),
        },
{
    match core::str::from_utf8(data.as_slice()) {
        Ok(s) => Some(s.chars().collect()),
        Err(_) => None,
    }
}

/// A character acceptable in plain text: whitespace, or anything that is
/// not a control character.
pub open spec fn acceptable_char(c: char) -> bool {
    whitespace_char(c) || !control_char(c)
}

/// Whether a byte sequence reads as plain text: well-formed UTF-8 whose
/// every character is whitespace or a non-control character.
pub open spec fn plain_text(b: Seq<u8>) -> bool {
    valid_utf8(b) && forall|i: int|
        0 <= i < decode_utf8(b).len() ==> acceptable_char(#[trigger] decode_utf8(b)[i])
}

/// Whether the file content reads as plain text (not necessarily ASCII).
pub fn is_plain_text(data: &Vec<u8>) -> (r: bool)
    ensures
        r == plain_text(data@),
{
    match utf8_chars(data) {
        None => false,
        Some(cs) => {
            let n = cs.len();
            let mut i: usize = 0;
            while i < n
                invariant
                    i <= n == cs@.len(),
                    cs@ == decode_utf8(data@),
                    valid_utf8(data@),
                    forall|j: int| 0 <= j < i ==> acceptable_char(#[trigger] decode_utf8(data@)[j]),
                decreases n - i,
            {
                let c = cs[i];
                if !(char_is_whitespace(c) || !char_is_control(c)) {
                    proof {
                        assert(!acceptable_char(decode_utf8(data@)[i as int]));
                    }
                    return false;
                }
                i = i + 1;
            }
            true
        },
    }
}

/// The comma-joined labels of the supported container kinds.
pub open spec fn supported_kinds_list() -> Seq<char> {
    "zip"@ + ", "@ + "7zip"@ + ", "@ + "gzip"@ + ", "@ + "tar"@
}

fn supported_kinds_string() -> (r: String)
    ensures
        r@ == supported_kinds_list(),
{
    let mut s = ArchiveType::Zip.label();
    s.append(", ");
    s.append(ArchiveType::SevenZip.label().as_str());
    s.append(", ");
    s.append(ArchiveType::Gzip.label().as_str());
    s.append(", ");
    s.append(ArchiveType::Tar.label().as_str());
    s
}

/// Whether sniffed content classifies as a supported container: an archive
/// signature whose MIME label maps to a supported kind.
pub open spec fn classify_valid(b: Seq<u8>) -> bool {
    match sniff_of(b) {
        Some(m) => m.is_archive && ArchiveType::kind_of_mime(m.mime) is Some,
        None => false,
    }
}

/// The reason content is rejected (meaningful only when it is): no
/// signature tells plain text apart from an undeterminable type; a
/// non-archive signature and an unsupported archive signature each name the
/// MIME label, the latter with the supported kinds enumerated.
pub open spec fn classify_reason(b: Seq<u8>) -> Seq<char> {
    match sniff_of(b) {
        None => if plain_text(b) {
            "file is plain text"@
        } else {
            "cannot get file type"@
        },
        Some(m) => if !m.is_archive {
            "invalid file type \""@ + m.mime + "\""@
        } else if ArchiveType::kind_of_mime(m.mime) is None {
            "unsupported archive type \""@ + m.mime + "\"; supported types: "@
                + supported_kinds_list()
        } else {
            Seq::empty()
        },
    }
}

/// The outcome of classifying one candidate file: valid, or invalid with a
/// reason.
pub struct PathValid {
    pub is_valid: bool,
    pub reason: Option<String>,
}

impl PathValid {
    /// The valid outcome: no reason attached.
    pub fn valid() -> (r: PathValid)
        ensures
            r.is_valid,
            r.reason is None,
    {
        PathValid { is_valid: true, reason: None }
    }

    /// An invalid outcome carrying its reason.
    pub fn invalid(reason: &str) -> (r: PathValid)
        ensures
            !r.is_valid,
            r.reason matches Some(s) && s@ == reason@,
    {
        PathValid { is_valid: false, reason: Some(reason.to_owned()) }
    }
}

/// The mathematical value of an optional byte buffer.
pub open spec fn content_model(o: Option<Vec<u8>>) -> Option<Seq<u8>> {
    match o {
        Some(v) => Some(v@),
        None => None,
    }
}

/// Whether a candidate file is valid input: its content was readable and
/// classifies as a supported container.
pub open spec fn path_valid_spec(content: Option<Seq<u8>>) -> bool {
    content matches Some(b) && classify_valid(b)
}

/// The reason a candidate file is rejected: unreadable content stands for a
/// missing path; otherwise the content's own classification reason.
pub open spec fn path_reason_spec(content: Option<Seq<u8>>) -> Seq<char> {
    match content {
        None => "path does not exist"@,
        Some(b) => classify_reason(b),
    }
}

/// Classify one candidate file from its content; `None` stands for a path
/// that is not a readable regular file.
pub fn classify(content: &Option<Vec<u8>>) -> (r: PathValid)
    ensures
        r.is_valid == path_valid_spec(content_model(*content)),
        !r.is_valid ==> (r.reason matches Some(s) && s@ == path_reason_spec(
            content_model(*content),
        )),
        r.is_valid ==> r.reason is None,
{
    match content {
        None => PathValid::invalid("path does not exist"),
        Some(data) => match sniff(data) {
            None => if is_plain_text(data) {
                PathValid::invalid("file is plain text")
            } else {
                PathValid::invalid("cannot get file type")
            },
            Some(kind) => {
                if !kind.is_archive {
                    let mut msg: String = "invalid file type \"".to_owned();
                    msg.append(kind.mime.as_str());
                    msg.append("\"");
                    PathValid { is_valid: false, reason: Some(msg) }
                } else {
                    match ArchiveType::from_mime(&kind.mime) {
                        Some(_) => PathValid::valid(),
                        None => {
                            let mut msg: String = "unsupported archive type \"".to_owned();
                            msg.append(kind.mime.as_str());
                            msg.append("\"; supported types: ");
                            msg.append(supported_kinds_string().as_str());
                            PathValid { is_valid: false, reason: Some(msg) }
                        },
                    }
                }
            },
        },
    }
}

/// Whether the candidate file is valid input for extraction.
pub fn path_is_valid(content: &Option<Vec<u8>>) -> (r: bool)
    ensures
        r == path_valid_spec(content_model(*content)),
{
    classify(content).is_valid
}

/// The reason the candidate file is rejected; empty for a valid one.
pub fn path_invalid_reason(content: &Option<Vec<u8>>) -> (r: String)
    ensures
        path_valid_spec(content_model(*content)) ==> r@ == Seq::<char>::empty(),
        !path_valid_spec(content_model(*content)) ==> r@ == path_reason_spec(
            content_model(*content),
        ),
{
    let outcome = classify(content);
    if outcome.is_valid {
        String::new()
    } else {
        match outcome.reason {
            Some(s) => s,
            None => String::new(),
        }
    }
}

/// The supported container kind sniffed from content that classifies as a
/// supported archive; nothing otherwise.
pub open spec fn archive_type_spec(b: Seq<u8>) -> Option<ArchiveType> {
    match sniff_of(b) {
        Some(m) => if m.is_archive {
            ArchiveType::kind_of_mime(m.mime)
        } else {
            None
        },
        None => None,
    }
}

/// The container kind of classified content; `Some` exactly on content that
/// classifies as valid.
pub fn archive_type(data: &Vec<u8>) -> (r: Option<ArchiveType>)
    ensures
        r == archive_type_spec(data@),
        r is Some <==> classify_valid(data@),
{
    match sniff(data) {
        Some(kind) => {
            if kind.is_archive {
                ArchiveType::from_mime(&kind.mime)
            } else {
                None
            }
        },
        None => None,
    }
}

/// A sniffed file whose signature is not a supported archive signature
/// (whether not an archive at all, or an archive of an unsupported kind)
/// classifies as invalid, and its reason is never empty.
pub proof fn lemma_sniffed_not_supported_rejected(b: Seq<u8>)
    requires
        sniff_of(b) matches Some(m) && !(m.is_archive && ArchiveType::kind_of_mime(m.mime) is Some),
    ensures
        !classify_valid(b),
        classify_reason(b).len() > 0,
{
    reveal_strlit("invalid file type \"");
    reveal_strlit("unsupported archive type \"");
}

/// A file without a recognizable signature that reads as plain text is
/// rejected with the plain-text reason specifically, not with the generic
/// undeterminable-type reason.
pub proof fn lemma_plain_text_rejected(b: Seq<u8>)
    requires
        sniff_of(b) is None,
        plain_text(b),
    ensures
        !classify_valid(b),
        classify_reason(b) == "file is plain text"@,
        classify_reason(b) != "cannot get file type"@,
{
    reveal_strlit("file is plain text");
    reveal_strlit("cannot get file type");
    assert(classify_reason(b).len() == "file is plain text"@.len());
}

} // verus!
