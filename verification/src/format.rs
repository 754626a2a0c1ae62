//! The format catalog: descriptors of the streams available for a video.

use vstd::prelude::*;

verus! {

/// One available stream. `quality` is the comparable rank the selector
/// maximizes (pixel height for video streams, bitrate-like rank for audio
/// streams). At least one of the two track flags is set in a well-formed
/// descriptor.
pub struct Format {
    pub format_id: String,
    pub ext: String,
    pub quality: u64,
    pub filesize: Option<u64>,
    pub has_video: bool,
    pub has_audio: bool,
}

impl Format {
    /// A descriptor carries at least one track.
    pub open spec fn wf(&self) -> bool {
        self.has_video || self.has_audio
    }
}

impl Clone for Format {
    fn clone(&self) -> (r: Self)
        ensures
            r == *self,
    {
        Format {
            format_id: self.format_id.clone(),
            ext: self.ext.clone(),
            quality: self.quality,
            filesize: self.filesize,
            has_video: self.has_video,
            has_audio: self.has_audio,
        }
    }
}

/// Metadata of one video: its title and the catalog of available formats,
/// fetched once per download attempt.
pub struct VideoInfo {
    pub title: String,
    pub formats: Vec<Format>,
}

impl VideoInfo {
    /// Every descriptor of the catalog is well-formed.
    pub open spec fn wf(&self) -> bool {
        forall|i: int| 0 <= i < self.formats.len() ==> #[trigger] self.formats[i].wf()
    }
}

} // verus!
