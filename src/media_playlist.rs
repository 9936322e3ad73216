use vstd::prelude::*;
use crate::attr::{body, lemma_body, lemma_decimal_value, strip_prefix};
use crate::decimal::Duration;
use crate::error::Error;

use crate::text::{append_decimal, decimal, parse_u64, str_eq};
use crate::tokens::PlaylistType;
use crate::value::DecimalInteger;

verus! {

broadcast use vstd::string::group_string_axioms;

/// `#EXT-X-TARGETDURATION`: the longest duration of a media segment, in whole seconds.
#[derive(Debug, Clone, Copy, PartialEq, Eq, Structural)]
pub struct ExtXTargetDuration {
    pub duration: Duration,
}

/// A decimal number of whole seconds after the prefix.
pub open spec fn parse_target_duration(line: Seq<char>) -> Option<ExtXTargetDuration> {
    match body(line, "#EXT-X-TARGETDURATION:"@) {
        Some(b) => match parse_u64(b) {
            Some(n) => Some(ExtXTargetDuration { duration: Duration { secs: n, nanos: 0 } }),
            None => None,
        },
        None => None,
    }
}

/// Only the whole seconds are written.
pub open spec fn target_duration_text(v: ExtXTargetDuration) -> Seq<char> {
    "#EXT-X-TARGETDURATION:"@ + decimal(v.duration.secs as nat)
}

/// A target duration of whole seconds written out reads back as itself.
pub proof fn lemma_target_duration_round_trip(v: ExtXTargetDuration)
    requires
        v.wf(),
    ensures
        parse_target_duration(target_duration_text(v)) == Some(v),
{
    lemma_body("#EXT-X-TARGETDURATION:"@, decimal(v.duration.secs as nat));
    lemma_decimal_value(v.duration.secs);
}

impl ExtXTargetDuration {
    /// A target duration is a whole number of seconds.
    pub open spec fn wf(&self) -> bool {
        self.duration.nanos == 0
    }

    pub fn from_str(s: &str) -> (r: Result<ExtXTargetDuration, Error>)
        ensures
            match r {
                Ok(v) => parse_target_duration(s@) == Some(v) && v.wf(),
                Err(_) => parse_target_duration(s@) is None,
            },
    {
        let b = match strip_prefix(s, "#EXT-X-TARGETDURATION:") {
            Some(b) => b,
            None => {
                return Err(Error::invalid_input(s));
            },
        };
        let n = DecimalInteger::from_str(b)?;
        Ok(ExtXTargetDuration { duration: Duration::from_secs(n.0) })
    }

    pub fn to_string(&self) -> (r: String)
        ensures
            r@ == target_duration_text(*self),
    {
        let mut out = String::new();
        out.append("#EXT-X-TARGETDURATION:");
        append_decimal(&mut out, self.duration.as_secs());
        out
    }
}

/// `#EXT-X-MEDIA-SEQUENCE`: the sequence number of the first media segment.
#[derive(Debug, Clone, Copy, PartialEq, Eq, Structural)]
pub struct ExtXMediaSequence {
    pub seq_num: u64,
}

/// A decimal integer after the prefix.
pub open spec fn parse_media_sequence(line: Seq<char>) -> Option<ExtXMediaSequence> {
    match body(line, "#EXT-X-MEDIA-SEQUENCE:"@) {
        Some(b) => match parse_u64(b) {
            Some(n) => Some(ExtXMediaSequence { seq_num: n }),
            None => None,
        },
        None => None,
    }
}

pub open spec fn media_sequence_text(v: ExtXMediaSequence) -> Seq<char> {
    "#EXT-X-MEDIA-SEQUENCE:"@ + decimal(v.seq_num as nat)
}

/// `#EXT-X-MEDIA-SEQUENCE` written out reads back as itself.
pub proof fn lemma_media_sequence_round_trip(v: ExtXMediaSequence)
    ensures
        parse_media_sequence(media_sequence_text(v)) == Some(v),
{
    lemma_body("#EXT-X-MEDIA-SEQUENCE:"@, decimal(v.seq_num as nat));
    lemma_decimal_value(v.seq_num);
}

impl ExtXMediaSequence {
    pub fn from_str(s: &str) -> (r: Result<ExtXMediaSequence, Error>)
        ensures
            match r {
                Ok(v) => parse_media_sequence(s@) == Some(v),
                Err(_) => parse_media_sequence(s@) is None,
            },
    {
        let b = match strip_prefix(s, "#EXT-X-MEDIA-SEQUENCE:") {
            Some(b) => b,
            None => {
                return Err(Error::invalid_input(s));
            },
        };
        let n = DecimalInteger::from_str(b)?;
        Ok(ExtXMediaSequence { seq_num: n.0 })
    }

    pub fn to_string(&self) -> (r: String)
        ensures
            r@ == media_sequence_text(*self),
    {
        let mut out = String::new();
        out.append("#EXT-X-MEDIA-SEQUENCE:");
        append_decimal(&mut out, self.seq_num);
        out
    }
}

/// `#EXT-X-DISCONTINUITY-SEQUENCE`: the discontinuity number of the first media segment.
#[derive(Debug, Clone, Copy, PartialEq, Eq, Structural)]
pub struct ExtXDiscontinuitySequence {
    pub seq_num: u64,
}

/// A decimal integer after the prefix.
pub open spec fn parse_discontinuity_sequence(line: Seq<char>) -> Option<ExtXDiscontinuitySequence> {
    match body(line, "#EXT-X-DISCONTINUITY-SEQUENCE:"@) {
        Some(b) => match parse_u64(b) {
            Some(n) => Some(ExtXDiscontinuitySequence { seq_num: n }),
            None => None,
        },
        None => None,
    }
}

pub open spec fn discontinuity_sequence_text(v: ExtXDiscontinuitySequence) -> Seq<char> {
    "#EXT-X-DISCONTINUITY-SEQUENCE:"@ + decimal(v.seq_num as nat)
}

/// `#EXT-X-DISCONTINUITY-SEQUENCE` written out reads back as itself.
pub proof fn lemma_discontinuity_sequence_round_trip(v: ExtXDiscontinuitySequence)
    ensures
        parse_discontinuity_sequence(discontinuity_sequence_text(v)) == Some(v),
{
    lemma_body("#EXT-X-DISCONTINUITY-SEQUENCE:"@, decimal(v.seq_num as nat));
    lemma_decimal_value(v.seq_num);
}

impl ExtXDiscontinuitySequence {
    pub fn from_str(s: &str) -> (r: Result<ExtXDiscontinuitySequence, Error>)
        ensures
            match r {
                Ok(v) => parse_discontinuity_sequence(s@) == Some(v),
                Err(_) => parse_discontinuity_sequence(s@) is None,
            },
    {
        let b = match strip_prefix(s, "#EXT-X-DISCONTINUITY-SEQUENCE:") {
            Some(b) => b,
            None => {
                return Err(Error::invalid_input(s));
            },
        };
        let n = DecimalInteger::from_str(b)?;
        Ok(ExtXDiscontinuitySequence { seq_num: n.0 })
    }

    pub fn to_string(&self) -> (r: String)
        ensures
            r@ == discontinuity_sequence_text(*self),
    {
        let mut out = String::new();
        out.append("#EXT-X-DISCONTINUITY-SEQUENCE:");
        append_decimal(&mut out, self.seq_num);
        out
    }
}

/// `#EXT-X-ENDLIST`: no more media segments will be added.
#[derive(Debug, Clone, Copy, PartialEq, Eq, Structural)]
pub struct ExtXEndList;

/// Exactly the line `#EXT-X-ENDLIST`.
pub open spec fn parse_end_list(line: Seq<char>) -> Option<ExtXEndList> {
    if line == "#EXT-X-ENDLIST"@ {
        Some(ExtXEndList)
    } else {
        None
    }
}

pub open spec fn end_list_text() -> Seq<char> {
    "#EXT-X-ENDLIST"@
}

impl ExtXEndList {
    pub fn from_str(s: &str) -> (r: Result<ExtXEndList, Error>)
        ensures
            match r {
                Ok(v) => parse_end_list(s@) == Some(v),
                Err(_) => parse_end_list(s@) is None,
            },
    {
        if str_eq(s, "#EXT-X-ENDLIST") {
            Ok(ExtXEndList)
        } else {
            Err(Error::invalid_input(s))
        }
    }

    pub fn to_string(&self) -> (r: String)
        ensures
            r@ == end_list_text(),
    {
        "#EXT-X-ENDLIST".to_owned()
    }
}

/// `#EXT-X-PLAYLIST-TYPE`: whether the media playlist may still change.
#[derive(Debug, Clone, Copy, PartialEq, Eq, Structural)]
pub struct ExtXPlaylistType {
    pub playlist_type: PlaylistType,
}

/// `EVENT` or `VOD` after the prefix.
pub open spec fn parse_playlist_type(line: Seq<char>) -> Option<ExtXPlaylistType> {
    match body(line, "#EXT-X-PLAYLIST-TYPE:"@) {
        Some(b) => match PlaylistType::spec_parse(b) {
            Some(t) => Some(ExtXPlaylistType { playlist_type: t }),
            None => None,
        },
        None => None,
    }
}

pub open spec fn playlist_type_text(v: ExtXPlaylistType) -> Seq<char> {
    "#EXT-X-PLAYLIST-TYPE:"@ + v.playlist_type.text()
}

/// A playlist type written out reads back as itself.
pub proof fn lemma_playlist_type_round_trip(v: ExtXPlaylistType)
    ensures
        parse_playlist_type(playlist_type_text(v)) == Some(v),
{
    lemma_body("#EXT-X-PLAYLIST-TYPE:"@, v.playlist_type.text());
    v.playlist_type.lemma_text();
}

impl ExtXPlaylistType {
    pub fn from_str(s: &str) -> (r: Result<ExtXPlaylistType, Error>)
        ensures
            match r {
                Ok(v) => parse_playlist_type(s@) == Some(v),
                Err(_) => parse_playlist_type(s@) is None,
            },
    {
        let b = match strip_prefix(s, "#EXT-X-PLAYLIST-TYPE:") {
            Some(b) => b,
            None => {
                return Err(Error::invalid_input(s));
            },
        };
        let t = PlaylistType::from_str(b)?;
        Ok(ExtXPlaylistType { playlist_type: t })
    }

    pub fn to_string(&self) -> (r: String)
        ensures
            r@ == playlist_type_text(*self),
    {
        let mut out = String::new();
        out.append("#EXT-X-PLAYLIST-TYPE:");
        out.append(self.playlist_type.as_str());
        out
    }
}

/// `#EXT-X-I-FRAMES-ONLY`: each media segment holds a single I-frame.
#[derive(Debug, Clone, Copy, PartialEq, Eq, Structural)]
pub struct ExtXIFramesOnly;

/// Exactly the line `#EXT-X-I-FRAMES-ONLY`.
pub open spec fn parse_i_frames_only(line: Seq<char>) -> Option<ExtXIFramesOnly> {
    if line == "#EXT-X-I-FRAMES-ONLY"@ {
        Some(ExtXIFramesOnly)
    } else {
        None
    }
}

pub open spec fn i_frames_only_text() -> Seq<char> {
    "#EXT-X-I-FRAMES-ONLY"@
}

impl ExtXIFramesOnly {
    pub fn from_str(s: &str) -> (r: Result<ExtXIFramesOnly, Error>)
        ensures
            match r {
                Ok(v) => parse_i_frames_only(s@) == Some(v),
                Err(_) => parse_i_frames_only(s@) is None,
            },
    {
        if str_eq(s, "#EXT-X-I-FRAMES-ONLY") {
            Ok(ExtXIFramesOnly)
        } else {
            Err(Error::invalid_input(s))
        }
    }

    pub fn to_string(&self) -> (r: String)
        ensures
            r@ == i_frames_only_text(),
    {
        "#EXT-X-I-FRAMES-ONLY".to_owned()
    }
}

} // verus!
