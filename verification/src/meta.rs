//! Typed decode of the fetch tool's metadata document into a
//! [`VideoInfo`]: required fields are validated explicitly, defective
//! catalog entries are dropped.

use vstd::prelude::*;
use vstd::string::*;
use crate::format::{Format, VideoInfo};

verus! {

/// The diagnostic for a metadata query the tool answered with a failure:
/// its captured standard-error and standard-output texts, labelled.
pub open spec fn sp_metadata_failure_message(err: Seq<char>, out: Seq<char>) -> Seq<char> {
    "Failed to get video info: "@ + err + "\nOutput: "@ + out
}

/// Builds the diagnostic for a failed metadata query.
pub fn metadata_failure_message(stderr_text: &String, stdout_text: &String) -> (r: String)
    ensures
        r@ == sp_metadata_failure_message(stderr_text@, stdout_text@),
{
    let mut r = String::new();
    r.append("Failed to get video info: ");
    r.append(stderr_text.as_str());
    r.append("\nOutput: ");
    r.append(stdout_text.as_str());
    proof {
        assert(r@ =~= sp_metadata_failure_message(stderr_text@, stdout_text@));
    }
    r
}

pub open spec fn sp_no_metadata_message() -> Seq<char> {
    "No video information received from the fetch tool"@
}

/// The diagnostic for a metadata query that returned nothing.
pub fn no_metadata_message() -> (r: String)
    ensures
        r@ == sp_no_metadata_message(),
{
    "No video information received from the fetch tool".to_owned()
}

pub open spec fn sp_bad_metadata_message() -> Seq<char> {
    "Video metadata is missing a required field"@
}

/// The diagnostic for a metadata document that did not decode.
pub fn bad_metadata_message() -> (r: String)
    ensures
        r@ == sp_bad_metadata_message(),
{
    "Video metadata is missing a required field".to_owned()
}

/// What the metadata document text holds, depending on the text alone:
/// nothing for an unparseable document or a missing or ill-typed `title` or
/// `formats` field, else the title characters and each catalog entry's raw
/// fields, in order.
pub uninterp spec fn sp_video_fields(text: Seq<char>) -> Option<(Seq<char>, Seq<RawFormatFields>)>;

/// Relies on `serde_json::from_str::<Value>` and `Value::{get, as_str,
/// as_array, as_u64}`: parsing is deterministic and each accessor is a pure
/// reading of the parsed tree, so the extracted fields are a function of
/// the document text alone.
#[verifier::external_body]
fn extract_video_fields(text: &str) -> (r: Option<(String, Vec<RawFormatFields>)>)
    ensures
        r matches Some(p) ==> sp_video_fields(text@) == Some((p.0@, p.1@)),
        r is None ==> sp_video_fields(text@) is None,
{
    let root: serde_json::Value = serde_json::from_str(text).ok()?;
    let title = root.get("title")?.as_str()?.to_string();
    let s = |v: &serde_json::Value, k| v.get(k).and_then(|x| x.as_str()).map(String::from);
    let u = |v: &serde_json::Value, k| v.get(k).and_then(|x| x.as_u64());
    let raws = root.get("formats")?.as_array()?.iter().map(|v| RawFormatFields {
        format_id: s(v, "format_id"), ext: s(v, "ext"), quality: u(v, "quality"),
        filesize: u(v, "filesize"), vcodec: s(v, "vcodec"), acodec: s(v, "acodec"),
    }).collect();
    Some((title, raws))
}

/// The raw fields of one catalog entry, each as the tool may or may not
/// have supplied it.
pub struct RawFormatFields {
    pub format_id: Option<String>,
    pub ext: Option<String>,
    pub quality: Option<u64>,
    pub filesize: Option<u64>,
    pub vcodec: Option<String>,
    pub acodec: Option<String>,
}

/// A codec field that names no track: present and literally `none`.
pub open spec fn sp_codec_absent(c: Option<String>) -> bool {
    c matches Some(s) && s@ == "none"@
}

fn codec_absent(c: &Option<String>) -> (r: bool)
    ensures
        r == sp_codec_absent(*c),
{
    match c {
        Some(s) => crate::strutil::str_eq(s.as_str(), "none"),
        None => false,
    }
}

/// The raw fields hold everything a descriptor requires: the id and the
/// container are present, and at least one codec names a track.
pub open spec fn sp_format_ok(raw: RawFormatFields) -> bool {
    &&& raw.format_id is Some
    &&& raw.ext is Some
    &&& !(sp_codec_absent(raw.vcodec) && sp_codec_absent(raw.acodec))
}

/// The descriptor built from complete raw fields: a codec naming no track
/// clears the matching flag, and a missing quality field ranks lowest.
pub open spec fn sp_format_of(raw: RawFormatFields) -> Format {
    Format {
        format_id: raw.format_id->0,
        ext: raw.ext->0,
        quality: if raw.quality is Some {
            raw.quality->0
        } else {
            0u64
        },
        filesize: raw.filesize,
        has_video: !sp_codec_absent(raw.vcodec),
        has_audio: !sp_codec_absent(raw.acodec),
    }
}

impl Clone for RawFormatFields {
    fn clone(&self) -> (r: Self)
        ensures
            r == *self,
    {
        RawFormatFields {
            format_id: match &self.format_id {
                Some(s) => Some(s.clone()),
                None => None,
            },
            ext: match &self.ext {
                Some(s) => Some(s.clone()),
                None => None,
            },
            quality: self.quality,
            filesize: self.filesize,
            vcodec: match &self.vcodec {
                Some(s) => Some(s.clone()),
                None => None,
            },
            acodec: match &self.acodec {
                Some(s) => Some(s.clone()),
                None => None,
            },
        }
    }
}

/// Builds one descriptor out of raw fields: the id and the container are
/// required; an entry whose two codec fields both name no track carries no
/// stream at all and is rejected.
pub fn format_from_fields(raw: RawFormatFields) -> (r: Option<Format>)
    ensures
        r == (if sp_format_ok(raw) {
            Some(sp_format_of(raw))
        } else {
            None::<Format>
        }),
        r matches Some(f) ==> f.wf(),
{
    let has_video = !codec_absent(&raw.vcodec);
    let has_audio = !codec_absent(&raw.acodec);
    if !has_video && !has_audio {
        return None;
    }
    let format_id = match raw.format_id {
        Some(s) => s,
        None => {
            return None;
        },
    };
    let ext = match raw.ext {
        Some(s) => s,
        None => {
            return None;
        },
    };
    let quality: u64 = match raw.quality {
        Some(q) => q,
        None => 0,
    };
    Some(Format { format_id, ext, quality, filesize: raw.filesize, has_video, has_audio })
}

/// The catalog distilled from a list of raw entries: each complete entry's
/// descriptor, in order; defective entries leave no trace.
pub open spec fn sp_collect(rs: Seq<RawFormatFields>) -> Seq<Format>
    decreases rs.len(),
{
    if rs.len() == 0 {
        Seq::empty()
    } else if sp_format_ok(rs[0]) {
        seq![sp_format_of(rs[0])] + sp_collect(rs.drop_first())
    } else {
        sp_collect(rs.drop_first())
    }
}

/// Every descriptor the collection keeps is well-formed.
pub proof fn lemma_collect_wf(rs: Seq<RawFormatFields>)
    ensures
        forall|j: int| 0 <= j < sp_collect(rs).len() ==> #[trigger] sp_collect(rs)[j].wf(),
    decreases rs.len(),
{
    if rs.len() > 0 {
        lemma_collect_wf(rs.drop_first());
        if sp_format_ok(rs[0]) {
            assert(sp_format_of(rs[0]).wf());
            assert forall|j: int| 0 <= j < sp_collect(rs).len()
                implies #[trigger] sp_collect(rs)[j].wf() by {
                if j == 0 {
                    assert(sp_collect(rs)[0] == sp_format_of(rs[0]));
                } else {
                    assert(sp_collect(rs)[j] == sp_collect(rs.drop_first())[j - 1]);
                }
            }
        } else {
            assert(sp_collect(rs) == sp_collect(rs.drop_first()));
        }
    }
}

/// Builds the catalog out of raw entries, dropping the defective ones.
pub fn collect_formats(raws: &Vec<RawFormatFields>) -> (r: Vec<Format>)
    ensures
        r@ == sp_collect(raws@),
{
    let n = raws.len();
    let mut out: Vec<Format> = Vec::new();
    let mut i: usize = 0;
    proof {
        assert(raws@.skip(0) =~= raws@);
        assert(out@ + sp_collect(raws@) =~= sp_collect(raws@));
    }
    while i < n
        invariant
            n == raws.len(),
            i <= n,
            sp_collect(raws@) == out@ + sp_collect(raws@.skip(i as int)),
        decreases n - i,
    {
        proof {
            assert(raws@.skip(i as int)[0] == raws@[i as int]);
            assert(raws@.skip(i as int).drop_first() =~= raws@.skip(i as int + 1));
        }
        let raw = raws[i].clone();
        match format_from_fields(raw) {
            Some(f) => {
                let ghost out_old = out@;
                let ghost fv = f;
                out.push(f);
                proof {
                    assert(out@ =~= out_old.push(fv));
                    assert((out_old + seq![fv]) + sp_collect(raws@.skip(i as int + 1))
                        =~= out_old + (seq![fv] + sp_collect(raws@.skip(i as int + 1))));
                }
            },
            None => {},
        }
        i = i + 1;
    }
    proof {
        assert(raws@.skip(n as int) =~= Seq::<RawFormatFields>::empty());
        assert(out@ + Seq::<Format>::empty() =~= out@);
    }
    out
}

/// Decodes the metadata document. It yields a value exactly when the
/// document holds a title and a formats array; the catalog is then the
/// collection of the complete entries, every one a well-formed descriptor.
/// A document missing a required field yields nothing — the caller reports
/// the metadata fetch as failed.
pub fn decode_video_info(text: &str) -> (r: Option<VideoInfo>)
    ensures
        r is Some <==> sp_video_fields(text@) is Some,
        r matches Some(info) ==> sp_video_fields(text@) matches Some(p) && info.title@ == p.0
            && info.formats@ == sp_collect(p.1) && info.wf(),
{
    match extract_video_fields(text) {
        Some((title, raws)) => {
            let formats = collect_formats(&raws);
            proof {
                lemma_collect_wf(raws@);
            }
            Some(VideoInfo { title, formats })
        },
        None => None,
    }
}

} // verus!
