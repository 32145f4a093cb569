//! User preferences for a run of the pipeline: download root, preferred
//! audio quality, cover-art handling and the existence-check flag.

use vstd::prelude::*;
use vstd::string::StringExecFns;

verus! {

/// The catalog's audio quality tiers.
#[derive(Debug, Clone, Copy, PartialEq, Eq, Structural)]
pub enum AudioQuality {
    Normal,
    High,
    Master,
}

/// The cover-art sizes a user may prefer.
#[derive(Debug, Clone, Copy, PartialEq, Eq, Structural)]
pub enum CoverSize {
    Small,
    Normal,
    Big,
}

/// Per-run preferences, read-only during a batch.
#[derive(Debug, Clone)]
pub struct Config {
    pub download_path: String,
    pub audio_quality: AudioQuality,
    pub save_cover: bool,
    pub cover_size: CoverSize,
    pub exist_check: bool,
}

impl Config {
    /// The default preferences: download beside the process, high quality,
    /// big covers saved, and skip files that already exist.
    pub fn new() -> (r: Config)
        ensures
            r.download_path@ == "./"@,
            r.audio_quality == AudioQuality::High,
            r.save_cover == true,
            r.cover_size == CoverSize::Big,
            r.exist_check == true,
    {
        Config {
            download_path: String::from_str("./"),
            audio_quality: AudioQuality::High,
            save_cover: true,
            cover_size: CoverSize::Big,
            exist_check: true,
        }
    }
}

/// Parses the name of an audio quality tier; any other text is rejected
/// with a message naming it.
pub fn parse_audio_quality(s: &str) -> (r: Result<AudioQuality, String>)
    ensures
        r is Ok <==> (s@ == "Normal"@ || s@ == "High"@ || s@ == "Master"@),
        r matches Ok(q) ==> q == (if s@ == "Normal"@ {
            AudioQuality::Normal
        } else if s@ == "High"@ {
            AudioQuality::High
        } else {
            AudioQuality::Master
        }),
        r matches Err(e) ==> e@ == "invalid AudioQuality enum type: "@ + s@,
{
    if crate::strutil::str_eq(s, "Normal") {
        Ok(AudioQuality::Normal)
    } else if crate::strutil::str_eq(s, "High") {
        Ok(AudioQuality::High)
    } else if crate::strutil::str_eq(s, "Master") {
        Ok(AudioQuality::Master)
    } else {
        Err(String::from_str("invalid AudioQuality enum type: ").concat(s))
    }
}

/// Parses the name of a cover size; any other text is rejected with a
/// message naming it.
pub fn parse_cover_size(s: &str) -> (r: Result<CoverSize, String>)
    ensures
        r is Ok <==> (s@ == "Small"@ || s@ == "Normal"@ || s@ == "Big"@),
        r matches Ok(c) ==> c == (if s@ == "Small"@ {
            CoverSize::Small
        } else if s@ == "Normal"@ {
            CoverSize::Normal
        } else {
            CoverSize::Big
        }),
        r matches Err(e) ==> e@ == "invalid CoverSize enum type: "@ + s@,
{
    if crate::strutil::str_eq(s, "Small") {
        Ok(CoverSize::Small)
    } else if crate::strutil::str_eq(s, "Normal") {
        Ok(CoverSize::Normal)
    } else if crate::strutil::str_eq(s, "Big") {
        Ok(CoverSize::Big)
    } else {
        Err(String::from_str("invalid CoverSize enum type: ").concat(s))
    }
}

impl core::str::FromStr for AudioQuality {
    type Err = String;

    fn from_str(s: &str) -> Result<AudioQuality, String> {
        parse_audio_quality(s)
    }
}

impl core::str::FromStr for CoverSize {
    type Err = String;

    fn from_str(s: &str) -> Result<CoverSize, String> {
        parse_cover_size(s)
    }
}

} // verus!
