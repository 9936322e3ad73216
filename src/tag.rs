use vstd::prelude::*;
use crate::basic::{
    ExtM3u, ExtXIndependentSegments, ExtXStart, ExtXStartView, ExtXVersion,
    independent_segments_text, lemma_start_parsed_ok, lemma_start_round_trip,
    lemma_version_round_trip, m3u_text, parse_start, parse_version, start_ok, start_text,
    version_text,
};
use crate::master::{
    ExtXIFrameStreamInf, ExtXIFrameStreamInfView, ExtXMedia, ExtXMediaView, ExtXSessionData,
    ExtXSessionDataView, ExtXSessionKey, ExtXSessionKeyView, ExtXStreamInf, ExtXStreamInfView,
    i_frame_stream_inf_ok, i_frame_stream_inf_text, lemma_i_frame_stream_inf_parsed_ok,
    lemma_i_frame_stream_inf_round_trip, lemma_media_parsed_ok, lemma_media_round_trip,
    lemma_session_data_parsed_ok, lemma_session_data_round_trip, lemma_session_key_parsed_ok,
    lemma_session_key_round_trip, lemma_stream_inf_parsed_ok, lemma_stream_inf_round_trip, media_ok,
    media_text, parse_i_frame_stream_inf, parse_media, parse_session_data, parse_session_key,
    parse_stream_inf, session_data_ok, session_data_text, session_key_ok, session_key_text,
    stream_inf_ok, stream_inf_text,
};
use crate::media_playlist::{
    ExtXDiscontinuitySequence, ExtXEndList, ExtXIFramesOnly, ExtXMediaSequence, ExtXPlaylistType,
    ExtXTargetDuration, discontinuity_sequence_text, end_list_text, i_frames_only_text,
    lemma_discontinuity_sequence_round_trip, lemma_media_sequence_round_trip,
    lemma_playlist_type_round_trip, lemma_target_duration_round_trip, media_sequence_text,
    parse_discontinuity_sequence, parse_media_sequence, parse_playlist_type, parse_target_duration,
    playlist_type_text, target_duration_text,
};
use crate::segment::{
    ExtInf, ExtInfView, ExtXByteRange, ExtXDateRange, ExtXDateRangeView, ExtXDiscontinuity, ExtXKey,
    ExtXKeyView, ExtXMap, ExtXMapView, ExtXProgramDateTime, byte_range_text, date_range_ok,
    date_range_text, discontinuity_text, inf_ok, inf_text, key_ok, key_text,
    lemma_byte_range_round_trip, lemma_date_range_parsed_ok, lemma_date_range_round_trip,
    lemma_inf_parsed_ok, lemma_inf_round_trip, lemma_key_parsed_ok, lemma_key_round_trip,
    lemma_map_parsed_ok, lemma_map_round_trip, lemma_program_date_time_round_trip, map_ok, map_text,
    parse_byte_range, parse_date_range, parse_inf, parse_key, parse_map, parse_program_date_time,
    program_date_time_text,
};
use crate::error::Error;
use crate::text::{is_prefix, str_eq};
use crate::tokens::ProtocolVersion;
use crate::attr::strip_prefix;

verus! {

broadcast use vstd::string::group_string_axioms;

/// Where a tag may stand: in any playlist, with a media segment, in a media
/// playlist, in a master playlist, or in either kind of playlist.
#[derive(Debug, Clone, Copy, PartialEq, Eq, Structural)]
pub enum TagKind {
    Basic,
    MediaSegment,
    MediaPlaylist,
    MasterPlaylist,
    MediaOrMasterPlaylist,
}

/// The number of tags that a line can be.
pub const TAG_COUNT: usize = 22;

/// The literal that opens each tag, in the order lines are tried.
pub open spec fn tag_prefix(i: int) -> Seq<char> {
    if i == 0 {
        "#EXTM3U"@
    } else if i == 1 {
        "#EXT-X-VERSION:"@
    } else if i == 2 {
        "#EXTINF:"@
    } else if i == 3 {
        "#EXT-X-BYTERANGE:"@
    } else if i == 4 {
        "#EXT-X-DISCONTINUITY"@
    } else if i == 5 {
        "#EXT-X-KEY:"@
    } else if i == 6 {
        "#EXT-X-MAP:"@
    } else if i == 7 {
        "#EXT-X-PROGRAM-DATE-TIME:"@
    } else if i == 8 {
        "#EXT-X-TARGETDURATION:"@
    } else if i == 9 {
        "#EXT-X-DATERANGE:"@
    } else if i == 10 {
        "#EXT-X-MEDIA-SEQUENCE:"@
    } else if i == 11 {
        "#EXT-X-DISCONTINUITY-SEQUENCE:"@
    } else if i == 12 {
        "#EXT-X-ENDLIST"@
    } else if i == 13 {
        "#EXT-X-PLAYLIST-TYPE:"@
    } else if i == 14 {
        "#EXT-X-I-FRAMES-ONLY"@
    } else if i == 15 {
        "#EXT-X-MEDIA:"@
    } else if i == 16 {
        "#EXT-X-STREAM-INF:"@
    } else if i == 17 {
        "#EXT-X-I-FRAME-STREAM-INF:"@
    } else if i == 18 {
        "#EXT-X-SESSION-DATA:"@
    } else if i == 19 {
        "#EXT-X-SESSION-KEY:"@
    } else if i == 20 {
        "#EXT-X-INDEPENDENT-SEGMENTS"@
    } else if i == 21 {
        "#EXT-X-START:"@
    } else {
        seq![]
    }
}

/// Tags without a value are the whole line; the others end in a colon.
pub open spec fn is_marker(i: int) -> bool {
    i == 0 || i == 4 || i == 12 || i == 14 || i == 20
}

/// Whether `line` is, or begins, the tag with index `i`.
pub open spec fn recognizes(i: int, line: Seq<char>) -> bool {
    if is_marker(i) {
        line == tag_prefix(i)
    } else {
        is_prefix(tag_prefix(i), line)
    }
}

pub open spec fn no_colon(p: Seq<char>) -> bool {
    forall|k: int| 0 <= k < p.len() ==> p[k] != ':'
}

pub open spec fn colon_at_end_only(p: Seq<char>) -> bool {
    p.len() > 0 && p[p.len() - 1] == ':' && forall|k: int| 0 <= k < p.len() - 1 ==> p[k] != ':'
}

proof fn lemma_prefix_shape(i: int)
    requires
        0 <= i < TAG_COUNT,
    ensures
        is_marker(i) ==> no_colon(tag_prefix(i)),
        !is_marker(i) ==> colon_at_end_only(tag_prefix(i)),
{
    reveal_strlit("#EXTM3U");
    reveal_strlit("#EXT-X-VERSION:");
    reveal_strlit("#EXTINF:");
    reveal_strlit("#EXT-X-BYTERANGE:");
    reveal_strlit("#EXT-X-DISCONTINUITY");
    reveal_strlit("#EXT-X-KEY:");
    reveal_strlit("#EXT-X-MAP:");
    reveal_strlit("#EXT-X-PROGRAM-DATE-TIME:");
    reveal_strlit("#EXT-X-TARGETDURATION:");
    reveal_strlit("#EXT-X-DATERANGE:");
    reveal_strlit("#EXT-X-MEDIA-SEQUENCE:");
    reveal_strlit("#EXT-X-DISCONTINUITY-SEQUENCE:");
    reveal_strlit("#EXT-X-ENDLIST");
    reveal_strlit("#EXT-X-PLAYLIST-TYPE:");
    reveal_strlit("#EXT-X-I-FRAMES-ONLY");
    reveal_strlit("#EXT-X-MEDIA:");
    reveal_strlit("#EXT-X-STREAM-INF:");
    reveal_strlit("#EXT-X-I-FRAME-STREAM-INF:");
    reveal_strlit("#EXT-X-SESSION-DATA:");
    reveal_strlit("#EXT-X-SESSION-KEY:");
    reveal_strlit("#EXT-X-INDEPENDENT-SEGMENTS");
    reveal_strlit("#EXT-X-START:");
}

/// The index of the tag that opens with `p`.
pub open spec fn prefix_index(p: Seq<char>) -> int {
    if p == "#EXTM3U"@ {
        0
    } else if p == "#EXT-X-VERSION:"@ {
        1
    } else if p == "#EXTINF:"@ {
        2
    } else if p == "#EXT-X-BYTERANGE:"@ {
        3
    } else if p == "#EXT-X-DISCONTINUITY"@ {
        4
    } else if p == "#EXT-X-KEY:"@ {
        5
    } else if p == "#EXT-X-MAP:"@ {
        6
    } else if p == "#EXT-X-PROGRAM-DATE-TIME:"@ {
        7
    } else if p == "#EXT-X-TARGETDURATION:"@ {
        8
    } else if p == "#EXT-X-DATERANGE:"@ {
        9
    } else if p == "#EXT-X-MEDIA-SEQUENCE:"@ {
        10
    } else if p == "#EXT-X-DISCONTINUITY-SEQUENCE:"@ {
        11
    } else if p == "#EXT-X-ENDLIST"@ {
        12
    } else if p == "#EXT-X-PLAYLIST-TYPE:"@ {
        13
    } else if p == "#EXT-X-I-FRAMES-ONLY"@ {
        14
    } else if p == "#EXT-X-MEDIA:"@ {
        15
    } else if p == "#EXT-X-STREAM-INF:"@ {
        16
    } else if p == "#EXT-X-I-FRAME-STREAM-INF:"@ {
        17
    } else if p == "#EXT-X-SESSION-DATA:"@ {
        18
    } else if p == "#EXT-X-SESSION-KEY:"@ {
        19
    } else if p == "#EXT-X-INDEPENDENT-SEGMENTS"@ {
        20
    } else if p == "#EXT-X-START:"@ {
        21
    } else {
        -1
    }
}

proof fn lemma_prefix_index(i: int)
    requires
        0 <= i < TAG_COUNT,
    ensures
        prefix_index(tag_prefix(i)) == i,
{
    if i == 0 {
        reveal_strlit("#EXTM3U");
    } else if i == 1 {
        reveal_strlit("#EXT-X-VERSION:");
        reveal_strlit("#EXTM3U");
        assert("#EXT-X-VERSION:"@.len() != "#EXTM3U"@.len());
    } else if i == 2 {
        reveal_strlit("#EXTINF:");
        reveal_strlit("#EXTM3U");
        assert("#EXTINF:"@.len() != "#EXTM3U"@.len());
        reveal_strlit("#EXT-X-VERSION:");
        assert("#EXTINF:"@.len() != "#EXT-X-VERSION:"@.len());
    } else if i == 3 {
        reveal_strlit("#EXT-X-BYTERANGE:");
        reveal_strlit("#EXTM3U");
        assert("#EXT-X-BYTERANGE:"@.len() != "#EXTM3U"@.len());
        reveal_strlit("#EXT-X-VERSION:");
        assert("#EXT-X-BYTERANGE:"@.len() != "#EXT-X-VERSION:"@.len());
        reveal_strlit("#EXTINF:");
        assert("#EXT-X-BYTERANGE:"@.len() != "#EXTINF:"@.len());
    } else if i == 4 {
        reveal_strlit("#EXT-X-DISCONTINUITY");
        reveal_strlit("#EXTM3U");
        assert("#EXT-X-DISCONTINUITY"@.len() != "#EXTM3U"@.len());
        reveal_strlit("#EXT-X-VERSION:");
        assert("#EXT-X-DISCONTINUITY"@.len() != "#EXT-X-VERSION:"@.len());
        reveal_strlit("#EXTINF:");
        assert("#EXT-X-DISCONTINUITY"@.len() != "#EXTINF:"@.len());
        reveal_strlit("#EXT-X-BYTERANGE:");
        assert("#EXT-X-DISCONTINUITY"@.len() != "#EXT-X-BYTERANGE:"@.len());
    } else if i == 5 {
        reveal_strlit("#EXT-X-KEY:");
        reveal_strlit("#EXTM3U");
        assert("#EXT-X-KEY:"@.len() != "#EXTM3U"@.len());
        reveal_strlit("#EXT-X-VERSION:");
        assert("#EXT-X-KEY:"@.len() != "#EXT-X-VERSION:"@.len());
        reveal_strlit("#EXTINF:");
        assert("#EXT-X-KEY:"@.len() != "#EXTINF:"@.len());
        reveal_strlit("#EXT-X-BYTERANGE:");
        assert("#EXT-X-KEY:"@.len() != "#EXT-X-BYTERANGE:"@.len());
        reveal_strlit("#EXT-X-DISCONTINUITY");
        assert("#EXT-X-KEY:"@.len() != "#EXT-X-DISCONTINUITY"@.len());
    } else if i == 6 {
        reveal_strlit("#EXT-X-MAP:");
        reveal_strlit("#EXTM3U");
        assert("#EXT-X-MAP:"@.len() != "#EXTM3U"@.len());
        reveal_strlit("#EXT-X-VERSION:");
        assert("#EXT-X-MAP:"@.len() != "#EXT-X-VERSION:"@.len());
        reveal_strlit("#EXTINF:");
        assert("#EXT-X-MAP:"@.len() != "#EXTINF:"@.len());
        reveal_strlit("#EXT-X-BYTERANGE:");
        assert("#EXT-X-MAP:"@.len() != "#EXT-X-BYTERANGE:"@.len());
        reveal_strlit("#EXT-X-DISCONTINUITY");
        assert("#EXT-X-MAP:"@.len() != "#EXT-X-DISCONTINUITY"@.len());
        reveal_strlit("#EXT-X-KEY:");
        assert("#EXT-X-MAP:"@[7] != "#EXT-X-KEY:"@[7]);
    } else if i == 7 {
        reveal_strlit("#EXT-X-PROGRAM-DATE-TIME:");
        reveal_strlit("#EXTM3U");
        assert("#EXT-X-PROGRAM-DATE-TIME:"@.len() != "#EXTM3U"@.len());
        reveal_strlit("#EXT-X-VERSION:");
        assert("#EXT-X-PROGRAM-DATE-TIME:"@.len() != "#EXT-X-VERSION:"@.len());
        reveal_strlit("#EXTINF:");
        assert("#EXT-X-PROGRAM-DATE-TIME:"@.len() != "#EXTINF:"@.len());
        reveal_strlit("#EXT-X-BYTERANGE:");
        assert("#EXT-X-PROGRAM-DATE-TIME:"@.len() != "#EXT-X-BYTERANGE:"@.len());
        reveal_strlit("#EXT-X-DISCONTINUITY");
        assert("#EXT-X-PROGRAM-DATE-TIME:"@.len() != "#EXT-X-DISCONTINUITY"@.len());
        reveal_strlit("#EXT-X-KEY:");
        assert("#EXT-X-PROGRAM-DATE-TIME:"@.len() != "#EXT-X-KEY:"@.len());
        reveal_strlit("#EXT-X-MAP:");
        assert("#EXT-X-PROGRAM-DATE-TIME:"@.len() != "#EXT-X-MAP:"@.len());
    } else if i == 8 {
        reveal_strlit("#EXT-X-TARGETDURATION:");
        reveal_strlit("#EXTM3U");
        assert("#EXT-X-TARGETDURATION:"@.len() != "#EXTM3U"@.len());
        reveal_strlit("#EXT-X-VERSION:");
        assert("#EXT-X-TARGETDURATION:"@.len() != "#EXT-X-VERSION:"@.len());
        reveal_strlit("#EXTINF:");
        assert("#EXT-X-TARGETDURATION:"@.len() != "#EXTINF:"@.len());
        reveal_strlit("#EXT-X-BYTERANGE:");
        assert("#EXT-X-TARGETDURATION:"@.len() != "#EXT-X-BYTERANGE:"@.len());
        reveal_strlit("#EXT-X-DISCONTINUITY");
        assert("#EXT-X-TARGETDURATION:"@.len() != "#EXT-X-DISCONTINUITY"@.len());
        reveal_strlit("#EXT-X-KEY:");
        assert("#EXT-X-TARGETDURATION:"@.len() != "#EXT-X-KEY:"@.len());
        reveal_strlit("#EXT-X-MAP:");
        assert("#EXT-X-TARGETDURATION:"@.len() != "#EXT-X-MAP:"@.len());
        reveal_strlit("#EXT-X-PROGRAM-DATE-TIME:");
        assert("#EXT-X-TARGETDURATION:"@.len() != "#EXT-X-PROGRAM-DATE-TIME:"@.len());
    } else if i == 9 {
        reveal_strlit("#EXT-X-DATERANGE:");
        reveal_strlit("#EXTM3U");
        assert("#EXT-X-DATERANGE:"@.len() != "#EXTM3U"@.len());
        reveal_strlit("#EXT-X-VERSION:");
        assert("#EXT-X-DATERANGE:"@.len() != "#EXT-X-VERSION:"@.len());
        reveal_strlit("#EXTINF:");
        assert("#EXT-X-DATERANGE:"@.len() != "#EXTINF:"@.len());
        reveal_strlit("#EXT-X-BYTERANGE:");
        assert("#EXT-X-DATERANGE:"@[7] != "#EXT-X-BYTERANGE:"@[7]);
        reveal_strlit("#EXT-X-DISCONTINUITY");
        assert("#EXT-X-DATERANGE:"@.len() != "#EXT-X-DISCONTINUITY"@.len());
        reveal_strlit("#EXT-X-KEY:");
        assert("#EXT-X-DATERANGE:"@.len() != "#EXT-X-KEY:"@.len());
        reveal_strlit("#EXT-X-MAP:");
        assert("#EXT-X-DATERANGE:"@.len() != "#EXT-X-MAP:"@.len());
        reveal_strlit("#EXT-X-PROGRAM-DATE-TIME:");
        assert("#EXT-X-DATERANGE:"@.len() != "#EXT-X-PROGRAM-DATE-TIME:"@.len());
        reveal_strlit("#EXT-X-TARGETDURATION:");
        assert("#EXT-X-DATERANGE:"@.len() != "#EXT-X-TARGETDURATION:"@.len());
    } else if i == 10 {
        reveal_strlit("#EXT-X-MEDIA-SEQUENCE:");
        reveal_strlit("#EXTM3U");
        assert("#EXT-X-MEDIA-SEQUENCE:"@.len() != "#EXTM3U"@.len());
        reveal_strlit("#EXT-X-VERSION:");
        assert("#EXT-X-MEDIA-SEQUENCE:"@.len() != "#EXT-X-VERSION:"@.len());
        reveal_strlit("#EXTINF:");
        assert("#EXT-X-MEDIA-SEQUENCE:"@.len() != "#EXTINF:"@.len());
        reveal_strlit("#EXT-X-BYTERANGE:");
        assert("#EXT-X-MEDIA-SEQUENCE:"@.len() != "#EXT-X-BYTERANGE:"@.len());
        reveal_strlit("#EXT-X-DISCONTINUITY");
        assert("#EXT-X-MEDIA-SEQUENCE:"@.len() != "#EXT-X-DISCONTINUITY"@.len());
        reveal_strlit("#EXT-X-KEY:");
        assert("#EXT-X-MEDIA-SEQUENCE:"@.len() != "#EXT-X-KEY:"@.len());
        reveal_strlit("#EXT-X-MAP:");
        assert("#EXT-X-MEDIA-SEQUENCE:"@.len() != "#EXT-X-MAP:"@.len());
        reveal_strlit("#EXT-X-PROGRAM-DATE-TIME:");
        assert("#EXT-X-MEDIA-SEQUENCE:"@.len() != "#EXT-X-PROGRAM-DATE-TIME:"@.len());
        reveal_strlit("#EXT-X-TARGETDURATION:");
        assert("#EXT-X-MEDIA-SEQUENCE:"@[7] != "#EXT-X-TARGETDURATION:"@[7]);
        reveal_strlit("#EXT-X-DATERANGE:");
        assert("#EXT-X-MEDIA-SEQUENCE:"@.len() != "#EXT-X-DATERANGE:"@.len());
    } else if i == 11 {
        reveal_strlit("#EXT-X-DISCONTINUITY-SEQUENCE:");
        reveal_strlit("#EXTM3U");
        assert("#EXT-X-DISCONTINUITY-SEQUENCE:"@.len() != "#EXTM3U"@.len());
        reveal_strlit("#EXT-X-VERSION:");
        assert("#EXT-X-DISCONTINUITY-SEQUENCE:"@.len() != "#EXT-X-VERSION:"@.len());
        reveal_strlit("#EXTINF:");
        assert("#EXT-X-DISCONTINUITY-SEQUENCE:"@.len() != "#EXTINF:"@.len());
        reveal_strlit("#EXT-X-BYTERANGE:");
        assert("#EXT-X-DISCONTINUITY-SEQUENCE:"@.len() != "#EXT-X-BYTERANGE:"@.len());
        reveal_strlit("#EXT-X-DISCONTINUITY");
        assert("#EXT-X-DISCONTINUITY-SEQUENCE:"@.len() != "#EXT-X-DISCONTINUITY"@.len());
        reveal_strlit("#EXT-X-KEY:");
        assert("#EXT-X-DISCONTINUITY-SEQUENCE:"@.len() != "#EXT-X-KEY:"@.len());
        reveal_strlit("#EXT-X-MAP:");
        assert("#EXT-X-DISCONTINUITY-SEQUENCE:"@.len() != "#EXT-X-MAP:"@.len());
        reveal_strlit("#EXT-X-PROGRAM-DATE-TIME:");
        assert("#EXT-X-DISCONTINUITY-SEQUENCE:"@.len() != "#EXT-X-PROGRAM-DATE-TIME:"@.len());
        reveal_strlit("#EXT-X-TARGETDURATION:");
        assert("#EXT-X-DISCONTINUITY-SEQUENCE:"@.len() != "#EXT-X-TARGETDURATION:"@.len());
        reveal_strlit("#EXT-X-DATERANGE:");
        assert("#EXT-X-DISCONTINUITY-SEQUENCE:"@.len() != "#EXT-X-DATERANGE:"@.len());
        reveal_strlit("#EXT-X-MEDIA-SEQUENCE:");
        assert("#EXT-X-DISCONTINUITY-SEQUENCE:"@.len() != "#EXT-X-MEDIA-SEQUENCE:"@.len());
    } else if i == 12 {
        reveal_strlit("#EXT-X-ENDLIST");
        reveal_strlit("#EXTM3U");
        assert("#EXT-X-ENDLIST"@.len() != "#EXTM3U"@.len());
        reveal_strlit("#EXT-X-VERSION:");
        assert("#EXT-X-ENDLIST"@.len() != "#EXT-X-VERSION:"@.len());
        reveal_strlit("#EXTINF:");
        assert("#EXT-X-ENDLIST"@.len() != "#EXTINF:"@.len());
        reveal_strlit("#EXT-X-BYTERANGE:");
        assert("#EXT-X-ENDLIST"@.len() != "#EXT-X-BYTERANGE:"@.len());
        reveal_strlit("#EXT-X-DISCONTINUITY");
        assert("#EXT-X-ENDLIST"@.len() != "#EXT-X-DISCONTINUITY"@.len());
        reveal_strlit("#EXT-X-KEY:");
        assert("#EXT-X-ENDLIST"@.len() != "#EXT-X-KEY:"@.len());
        reveal_strlit("#EXT-X-MAP:");
        assert("#EXT-X-ENDLIST"@.len() != "#EXT-X-MAP:"@.len());
        reveal_strlit("#EXT-X-PROGRAM-DATE-TIME:");
        assert("#EXT-X-ENDLIST"@.len() != "#EXT-X-PROGRAM-DATE-TIME:"@.len());
        reveal_strlit("#EXT-X-TARGETDURATION:");
        assert("#EXT-X-ENDLIST"@.len() != "#EXT-X-TARGETDURATION:"@.len());
        reveal_strlit("#EXT-X-DATERANGE:");
        assert("#EXT-X-ENDLIST"@.len() != "#EXT-X-DATERANGE:"@.len());
        reveal_strlit("#EXT-X-MEDIA-SEQUENCE:");
        assert("#EXT-X-ENDLIST"@.len() != "#EXT-X-MEDIA-SEQUENCE:"@.len());
        reveal_strlit("#EXT-X-DISCONTINUITY-SEQUENCE:");
        assert("#EXT-X-ENDLIST"@.len() != "#EXT-X-DISCONTINUITY-SEQUENCE:"@.len());
    } else if i == 13 {
        reveal_strlit("#EXT-X-PLAYLIST-TYPE:");
        reveal_strlit("#EXTM3U");
        assert("#EXT-X-PLAYLIST-TYPE:"@.len() != "#EXTM3U"@.len());
        reveal_strlit("#EXT-X-VERSION:");
        assert("#EXT-X-PLAYLIST-TYPE:"@.len() != "#EXT-X-VERSION:"@.len());
        reveal_strlit("#EXTINF:");
        assert("#EXT-X-PLAYLIST-TYPE:"@.len() != "#EXTINF:"@.len());
        reveal_strlit("#EXT-X-BYTERANGE:");
        assert("#EXT-X-PLAYLIST-TYPE:"@.len() != "#EXT-X-BYTERANGE:"@.len());
        reveal_strlit("#EXT-X-DISCONTINUITY");
        assert("#EXT-X-PLAYLIST-TYPE:"@.len() != "#EXT-X-DISCONTINUITY"@.len());
        reveal_strlit("#EXT-X-KEY:");
        assert("#EXT-X-PLAYLIST-TYPE:"@.len() != "#EXT-X-KEY:"@.len());
        reveal_strlit("#EXT-X-MAP:");
        assert("#EXT-X-PLAYLIST-TYPE:"@.len() != "#EXT-X-MAP:"@.len());
        reveal_strlit("#EXT-X-PROGRAM-DATE-TIME:");
        assert("#EXT-X-PLAYLIST-TYPE:"@.len() != "#EXT-X-PROGRAM-DATE-TIME:"@.len());
        reveal_strlit("#EXT-X-TARGETDURATION:");
        assert("#EXT-X-PLAYLIST-TYPE:"@.len() != "#EXT-X-TARGETDURATION:"@.len());
        reveal_strlit("#EXT-X-DATERANGE:");
        assert("#EXT-X-PLAYLIST-TYPE:"@.len() != "#EXT-X-DATERANGE:"@.len());
        reveal_strlit("#EXT-X-MEDIA-SEQUENCE:");
        assert("#EXT-X-PLAYLIST-TYPE:"@.len() != "#EXT-X-MEDIA-SEQUENCE:"@.len());
        reveal_strlit("#EXT-X-DISCONTINUITY-SEQUENCE:");
        assert("#EXT-X-PLAYLIST-TYPE:"@.len() != "#EXT-X-DISCONTINUITY-SEQUENCE:"@.len());
        reveal_strlit("#EXT-X-ENDLIST");
        assert("#EXT-X-PLAYLIST-TYPE:"@.len() != "#EXT-X-ENDLIST"@.len());
    } else if i == 14 {
        reveal_strlit("#EXT-X-I-FRAMES-ONLY");
        reveal_strlit("#EXTM3U");
        assert("#EXT-X-I-FRAMES-ONLY"@.len() != "#EXTM3U"@.len());
        reveal_strlit("#EXT-X-VERSION:");
        assert("#EXT-X-I-FRAMES-ONLY"@.len() != "#EXT-X-VERSION:"@.len());
        reveal_strlit("#EXTINF:");
        assert("#EXT-X-I-FRAMES-ONLY"@.len() != "#EXTINF:"@.len());
        reveal_strlit("#EXT-X-BYTERANGE:");
        assert("#EXT-X-I-FRAMES-ONLY"@.len() != "#EXT-X-BYTERANGE:"@.len());
        reveal_strlit("#EXT-X-DISCONTINUITY");
        assert("#EXT-X-I-FRAMES-ONLY"@[7] != "#EXT-X-DISCONTINUITY"@[7]);
        reveal_strlit("#EXT-X-KEY:");
        assert("#EXT-X-I-FRAMES-ONLY"@.len() != "#EXT-X-KEY:"@.len());
        reveal_strlit("#EXT-X-MAP:");
        assert("#EXT-X-I-FRAMES-ONLY"@.len() != "#EXT-X-MAP:"@.len());
        reveal_strlit("#EXT-X-PROGRAM-DATE-TIME:");
        assert("#EXT-X-I-FRAMES-ONLY"@.len() != "#EXT-X-PROGRAM-DATE-TIME:"@.len());
        reveal_strlit("#EXT-X-TARGETDURATION:");
        assert("#EXT-X-I-FRAMES-ONLY"@.len() != "#EXT-X-TARGETDURATION:"@.len());
        reveal_strlit("#EXT-X-DATERANGE:");
        assert("#EXT-X-I-FRAMES-ONLY"@.len() != "#EXT-X-DATERANGE:"@.len());
        reveal_strlit("#EXT-X-MEDIA-SEQUENCE:");
        assert("#EXT-X-I-FRAMES-ONLY"@.len() != "#EXT-X-MEDIA-SEQUENCE:"@.len());
        reveal_strlit("#EXT-X-DISCONTINUITY-SEQUENCE:");
        assert("#EXT-X-I-FRAMES-ONLY"@.len() != "#EXT-X-DISCONTINUITY-SEQUENCE:"@.len());
        reveal_strlit("#EXT-X-ENDLIST");
        assert("#EXT-X-I-FRAMES-ONLY"@.len() != "#EXT-X-ENDLIST"@.len());
        reveal_strlit("#EXT-X-PLAYLIST-TYPE:");
        assert("#EXT-X-I-FRAMES-ONLY"@.len() != "#EXT-X-PLAYLIST-TYPE:"@.len());
    } else if i == 15 {
        reveal_strlit("#EXT-X-MEDIA:");
        reveal_strlit("#EXTM3U");
        assert("#EXT-X-MEDIA:"@.len() != "#EXTM3U"@.len());
        reveal_strlit("#EXT-X-VERSION:");
        assert("#EXT-X-MEDIA:"@.len() != "#EXT-X-VERSION:"@.len());
        reveal_strlit("#EXTINF:");
        assert("#EXT-X-MEDIA:"@.len() != "#EXTINF:"@.len());
        reveal_strlit("#EXT-X-BYTERANGE:");
        assert("#EXT-X-MEDIA:"@.len() != "#EXT-X-BYTERANGE:"@.len());
        reveal_strlit("#EXT-X-DISCONTINUITY");
        assert("#EXT-X-MEDIA:"@.len() != "#EXT-X-DISCONTINUITY"@.len());
        reveal_strlit("#EXT-X-KEY:");
        assert("#EXT-X-MEDIA:"@.len() != "#EXT-X-KEY:"@.len());
        reveal_strlit("#EXT-X-MAP:");
        assert("#EXT-X-MEDIA:"@.len() != "#EXT-X-MAP:"@.len());
        reveal_strlit("#EXT-X-PROGRAM-DATE-TIME:");
        assert("#EXT-X-MEDIA:"@.len() != "#EXT-X-PROGRAM-DATE-TIME:"@.len());
        reveal_strlit("#EXT-X-TARGETDURATION:");
        assert("#EXT-X-MEDIA:"@.len() != "#EXT-X-TARGETDURATION:"@.len());
        reveal_strlit("#EXT-X-DATERANGE:");
        assert("#EXT-X-MEDIA:"@.len() != "#EXT-X-DATERANGE:"@.len());
        reveal_strlit("#EXT-X-MEDIA-SEQUENCE:");
        assert("#EXT-X-MEDIA:"@.len() != "#EXT-X-MEDIA-SEQUENCE:"@.len());
        reveal_strlit("#EXT-X-DISCONTINUITY-SEQUENCE:");
        assert("#EXT-X-MEDIA:"@.len() != "#EXT-X-DISCONTINUITY-SEQUENCE:"@.len());
        reveal_strlit("#EXT-X-ENDLIST");
        assert("#EXT-X-MEDIA:"@.len() != "#EXT-X-ENDLIST"@.len());
        reveal_strlit("#EXT-X-PLAYLIST-TYPE:");
        assert("#EXT-X-MEDIA:"@.len() != "#EXT-X-PLAYLIST-TYPE:"@.len());
        reveal_strlit("#EXT-X-I-FRAMES-ONLY");
        assert("#EXT-X-MEDIA:"@.len() != "#EXT-X-I-FRAMES-ONLY"@.len());
    } else if i == 16 {
        reveal_strlit("#EXT-X-STREAM-INF:");
        reveal_strlit("#EXTM3U");
        assert("#EXT-X-STREAM-INF:"@.len() != "#EXTM3U"@.len());
        reveal_strlit("#EXT-X-VERSION:");
        assert("#EXT-X-STREAM-INF:"@.len() != "#EXT-X-VERSION:"@.len());
        reveal_strlit("#EXTINF:");
        assert("#EXT-X-STREAM-INF:"@.len() != "#EXTINF:"@.len());
        reveal_strlit("#EXT-X-BYTERANGE:");
        assert("#EXT-X-STREAM-INF:"@.len() != "#EXT-X-BYTERANGE:"@.len());
        reveal_strlit("#EXT-X-DISCONTINUITY");
        assert("#EXT-X-STREAM-INF:"@.len() != "#EXT-X-DISCONTINUITY"@.len());
        reveal_strlit("#EXT-X-KEY:");
        assert("#EXT-X-STREAM-INF:"@.len() != "#EXT-X-KEY:"@.len());
        reveal_strlit("#EXT-X-MAP:");
        assert("#EXT-X-STREAM-INF:"@.len() != "#EXT-X-MAP:"@.len());
        reveal_strlit("#EXT-X-PROGRAM-DATE-TIME:");
        assert("#EXT-X-STREAM-INF:"@.len() != "#EXT-X-PROGRAM-DATE-TIME:"@.len());
        reveal_strlit("#EXT-X-TARGETDURATION:");
        assert("#EXT-X-STREAM-INF:"@.len() != "#EXT-X-TARGETDURATION:"@.len());
        reveal_strlit("#EXT-X-DATERANGE:");
        assert("#EXT-X-STREAM-INF:"@.len() != "#EXT-X-DATERANGE:"@.len());
        reveal_strlit("#EXT-X-MEDIA-SEQUENCE:");
        assert("#EXT-X-STREAM-INF:"@.len() != "#EXT-X-MEDIA-SEQUENCE:"@.len());
        reveal_strlit("#EXT-X-DISCONTINUITY-SEQUENCE:");
        assert("#EXT-X-STREAM-INF:"@.len() != "#EXT-X-DISCONTINUITY-SEQUENCE:"@.len());
        reveal_strlit("#EXT-X-ENDLIST");
        assert("#EXT-X-STREAM-INF:"@.len() != "#EXT-X-ENDLIST"@.len());
        reveal_strlit("#EXT-X-PLAYLIST-TYPE:");
        assert("#EXT-X-STREAM-INF:"@.len() != "#EXT-X-PLAYLIST-TYPE:"@.len());
        reveal_strlit("#EXT-X-I-FRAMES-ONLY");
        assert("#EXT-X-STREAM-INF:"@.len() != "#EXT-X-I-FRAMES-ONLY"@.len());
        reveal_strlit("#EXT-X-MEDIA:");
        assert("#EXT-X-STREAM-INF:"@.len() != "#EXT-X-MEDIA:"@.len());
    } else if i == 17 {
        reveal_strlit("#EXT-X-I-FRAME-STREAM-INF:");
        reveal_strlit("#EXTM3U");
        assert("#EXT-X-I-FRAME-STREAM-INF:"@.len() != "#EXTM3U"@.len());
        reveal_strlit("#EXT-X-VERSION:");
        assert("#EXT-X-I-FRAME-STREAM-INF:"@.len() != "#EXT-X-VERSION:"@.len());
        reveal_strlit("#EXTINF:");
        assert("#EXT-X-I-FRAME-STREAM-INF:"@.len() != "#EXTINF:"@.len());
        reveal_strlit("#EXT-X-BYTERANGE:");
        assert("#EXT-X-I-FRAME-STREAM-INF:"@.len() != "#EXT-X-BYTERANGE:"@.len());
        reveal_strlit("#EXT-X-DISCONTINUITY");
        assert("#EXT-X-I-FRAME-STREAM-INF:"@.len() != "#EXT-X-DISCONTINUITY"@.len());
        reveal_strlit("#EXT-X-KEY:");
        assert("#EXT-X-I-FRAME-STREAM-INF:"@.len() != "#EXT-X-KEY:"@.len());
        reveal_strlit("#EXT-X-MAP:");
        assert("#EXT-X-I-FRAME-STREAM-INF:"@.len() != "#EXT-X-MAP:"@.len());
        reveal_strlit("#EXT-X-PROGRAM-DATE-TIME:");
        assert("#EXT-X-I-FRAME-STREAM-INF:"@.len() != "#EXT-X-PROGRAM-DATE-TIME:"@.len());
        reveal_strlit("#EXT-X-TARGETDURATION:");
        assert("#EXT-X-I-FRAME-STREAM-INF:"@.len() != "#EXT-X-TARGETDURATION:"@.len());
        reveal_strlit("#EXT-X-DATERANGE:");
        assert("#EXT-X-I-FRAME-STREAM-INF:"@.len() != "#EXT-X-DATERANGE:"@.len());
        reveal_strlit("#EXT-X-MEDIA-SEQUENCE:");
        assert("#EXT-X-I-FRAME-STREAM-INF:"@.len() != "#EXT-X-MEDIA-SEQUENCE:"@.len());
        reveal_strlit("#EXT-X-DISCONTINUITY-SEQUENCE:");
        assert("#EXT-X-I-FRAME-STREAM-INF:"@.len() != "#EXT-X-DISCONTINUITY-SEQUENCE:"@.len());
        reveal_strlit("#EXT-X-ENDLIST");
        assert("#EXT-X-I-FRAME-STREAM-INF:"@.len() != "#EXT-X-ENDLIST"@.len());
        reveal_strlit("#EXT-X-PLAYLIST-TYPE:");
        assert("#EXT-X-I-FRAME-STREAM-INF:"@.len() != "#EXT-X-PLAYLIST-TYPE:"@.len());
        reveal_strlit("#EXT-X-I-FRAMES-ONLY");
        assert("#EXT-X-I-FRAME-STREAM-INF:"@.len() != "#EXT-X-I-FRAMES-ONLY"@.len());
        reveal_strlit("#EXT-X-MEDIA:");
        assert("#EXT-X-I-FRAME-STREAM-INF:"@.len() != "#EXT-X-MEDIA:"@.len());
        reveal_strlit("#EXT-X-STREAM-INF:");
        assert("#EXT-X-I-FRAME-STREAM-INF:"@.len() != "#EXT-X-STREAM-INF:"@.len());
    } else if i == 18 {
        reveal_strlit("#EXT-X-SESSION-DATA:");
        reveal_strlit("#EXTM3U");
        assert("#EXT-X-SESSION-DATA:"@.len() != "#EXTM3U"@.len());
        reveal_strlit("#EXT-X-VERSION:");
        assert("#EXT-X-SESSION-DATA:"@.len() != "#EXT-X-VERSION:"@.len());
        reveal_strlit("#EXTINF:");
        assert("#EXT-X-SESSION-DATA:"@.len() != "#EXTINF:"@.len());
        reveal_strlit("#EXT-X-BYTERANGE:");
        assert("#EXT-X-SESSION-DATA:"@.len() != "#EXT-X-BYTERANGE:"@.len());
        reveal_strlit("#EXT-X-DISCONTINUITY");
        assert("#EXT-X-SESSION-DATA:"@[7] != "#EXT-X-DISCONTINUITY"@[7]);
        reveal_strlit("#EXT-X-KEY:");
        assert("#EXT-X-SESSION-DATA:"@.len() != "#EXT-X-KEY:"@.len());
        reveal_strlit("#EXT-X-MAP:");
        assert("#EXT-X-SESSION-DATA:"@.len() != "#EXT-X-MAP:"@.len());
        reveal_strlit("#EXT-X-PROGRAM-DATE-TIME:");
        assert("#EXT-X-SESSION-DATA:"@.len() != "#EXT-X-PROGRAM-DATE-TIME:"@.len());
        reveal_strlit("#EXT-X-TARGETDURATION:");
        assert("#EXT-X-SESSION-DATA:"@.len() != "#EXT-X-TARGETDURATION:"@.len());
        reveal_strlit("#EXT-X-DATERANGE:");
        assert("#EXT-X-SESSION-DATA:"@.len() != "#EXT-X-DATERANGE:"@.len());
        reveal_strlit("#EXT-X-MEDIA-SEQUENCE:");
        assert("#EXT-X-SESSION-DATA:"@.len() != "#EXT-X-MEDIA-SEQUENCE:"@.len());
        reveal_strlit("#EXT-X-DISCONTINUITY-SEQUENCE:");
        assert("#EXT-X-SESSION-DATA:"@.len() != "#EXT-X-DISCONTINUITY-SEQUENCE:"@.len());
        reveal_strlit("#EXT-X-ENDLIST");
        assert("#EXT-X-SESSION-DATA:"@.len() != "#EXT-X-ENDLIST"@.len());
        reveal_strlit("#EXT-X-PLAYLIST-TYPE:");
        assert("#EXT-X-SESSION-DATA:"@.len() != "#EXT-X-PLAYLIST-TYPE:"@.len());
        reveal_strlit("#EXT-X-I-FRAMES-ONLY");
        assert("#EXT-X-SESSION-DATA:"@[7] != "#EXT-X-I-FRAMES-ONLY"@[7]);
        reveal_strlit("#EXT-X-MEDIA:");
        assert("#EXT-X-SESSION-DATA:"@.len() != "#EXT-X-MEDIA:"@.len());
        reveal_strlit("#EXT-X-STREAM-INF:");
        assert("#EXT-X-SESSION-DATA:"@.len() != "#EXT-X-STREAM-INF:"@.len());
        reveal_strlit("#EXT-X-I-FRAME-STREAM-INF:");
        assert("#EXT-X-SESSION-DATA:"@.len() != "#EXT-X-I-FRAME-STREAM-INF:"@.len());
    } else if i == 19 {
        reveal_strlit("#EXT-X-SESSION-KEY:");
        reveal_strlit("#EXTM3U");
        assert("#EXT-X-SESSION-KEY:"@.len() != "#EXTM3U"@.len());
        reveal_strlit("#EXT-X-VERSION:");
        assert("#EXT-X-SESSION-KEY:"@.len() != "#EXT-X-VERSION:"@.len());
        reveal_strlit("#EXTINF:");
        assert("#EXT-X-SESSION-KEY:"@.len() != "#EXTINF:"@.len());
        reveal_strlit("#EXT-X-BYTERANGE:");
        assert("#EXT-X-SESSION-KEY:"@.len() != "#EXT-X-BYTERANGE:"@.len());
        reveal_strlit("#EXT-X-DISCONTINUITY");
        assert("#EXT-X-SESSION-KEY:"@.len() != "#EXT-X-DISCONTINUITY"@.len());
        reveal_strlit("#EXT-X-KEY:");
        assert("#EXT-X-SESSION-KEY:"@.len() != "#EXT-X-KEY:"@.len());
        reveal_strlit("#EXT-X-MAP:");
        assert("#EXT-X-SESSION-KEY:"@.len() != "#EXT-X-MAP:"@.len());
        reveal_strlit("#EXT-X-PROGRAM-DATE-TIME:");
        assert("#EXT-X-SESSION-KEY:"@.len() != "#EXT-X-PROGRAM-DATE-TIME:"@.len());
        reveal_strlit("#EXT-X-TARGETDURATION:");
        assert("#EXT-X-SESSION-KEY:"@.len() != "#EXT-X-TARGETDURATION:"@.len());
        reveal_strlit("#EXT-X-DATERANGE:");
        assert("#EXT-X-SESSION-KEY:"@.len() != "#EXT-X-DATERANGE:"@.len());
        reveal_strlit("#EXT-X-MEDIA-SEQUENCE:");
        assert("#EXT-X-SESSION-KEY:"@.len() != "#EXT-X-MEDIA-SEQUENCE:"@.len());
        reveal_strlit("#EXT-X-DISCONTINUITY-SEQUENCE:");
        assert("#EXT-X-SESSION-KEY:"@.len() != "#EXT-X-DISCONTINUITY-SEQUENCE:"@.len());
        reveal_strlit("#EXT-X-ENDLIST");
        assert("#EXT-X-SESSION-KEY:"@.len() != "#EXT-X-ENDLIST"@.len());
        reveal_strlit("#EXT-X-PLAYLIST-TYPE:");
        assert("#EXT-X-SESSION-KEY:"@.len() != "#EXT-X-PLAYLIST-TYPE:"@.len());
        reveal_strlit("#EXT-X-I-FRAMES-ONLY");
        assert("#EXT-X-SESSION-KEY:"@.len() != "#EXT-X-I-FRAMES-ONLY"@.len());
        reveal_strlit("#EXT-X-MEDIA:");
        assert("#EXT-X-SESSION-KEY:"@.len() != "#EXT-X-MEDIA:"@.len());
        reveal_strlit("#EXT-X-STREAM-INF:");
        assert("#EXT-X-SESSION-KEY:"@.len() != "#EXT-X-STREAM-INF:"@.len());
        reveal_strlit("#EXT-X-I-FRAME-STREAM-INF:");
        assert("#EXT-X-SESSION-KEY:"@.len() != "#EXT-X-I-FRAME-STREAM-INF:"@.len());
        reveal_strlit("#EXT-X-SESSION-DATA:");
        assert("#EXT-X-SESSION-KEY:"@.len() != "#EXT-X-SESSION-DATA:"@.len());
    } else if i == 20 {
        reveal_strlit("#EXT-X-INDEPENDENT-SEGMENTS");
        reveal_strlit("#EXTM3U");
        assert("#EXT-X-INDEPENDENT-SEGMENTS"@.len() != "#EXTM3U"@.len());
        reveal_strlit("#EXT-X-VERSION:");
        assert("#EXT-X-INDEPENDENT-SEGMENTS"@.len() != "#EXT-X-VERSION:"@.len());
        reveal_strlit("#EXTINF:");
        assert("#EXT-X-INDEPENDENT-SEGMENTS"@.len() != "#EXTINF:"@.len());
        reveal_strlit("#EXT-X-BYTERANGE:");
        assert("#EXT-X-INDEPENDENT-SEGMENTS"@.len() != "#EXT-X-BYTERANGE:"@.len());
        reveal_strlit("#EXT-X-DISCONTINUITY");
        assert("#EXT-X-INDEPENDENT-SEGMENTS"@.len() != "#EXT-X-DISCONTINUITY"@.len());
        reveal_strlit("#EXT-X-KEY:");
        assert("#EXT-X-INDEPENDENT-SEGMENTS"@.len() != "#EXT-X-KEY:"@.len());
        reveal_strlit("#EXT-X-MAP:");
        assert("#EXT-X-INDEPENDENT-SEGMENTS"@.len() != "#EXT-X-MAP:"@.len());
        reveal_strlit("#EXT-X-PROGRAM-DATE-TIME:");
        assert("#EXT-X-INDEPENDENT-SEGMENTS"@.len() != "#EXT-X-PROGRAM-DATE-TIME:"@.len());
        reveal_strlit("#EXT-X-TARGETDURATION:");
        assert("#EXT-X-INDEPENDENT-SEGMENTS"@.len() != "#EXT-X-TARGETDURATION:"@.len());
        reveal_strlit("#EXT-X-DATERANGE:");
        assert("#EXT-X-INDEPENDENT-SEGMENTS"@.len() != "#EXT-X-DATERANGE:"@.len());
        reveal_strlit("#EXT-X-MEDIA-SEQUENCE:");
        assert("#EXT-X-INDEPENDENT-SEGMENTS"@.len() != "#EXT-X-MEDIA-SEQUENCE:"@.len());
        reveal_strlit("#EXT-X-DISCONTINUITY-SEQUENCE:");
        assert("#EXT-X-INDEPENDENT-SEGMENTS"@.len() != "#EXT-X-DISCONTINUITY-SEQUENCE:"@.len());
        reveal_strlit("#EXT-X-ENDLIST");
        assert("#EXT-X-INDEPENDENT-SEGMENTS"@.len() != "#EXT-X-ENDLIST"@.len());
        reveal_strlit("#EXT-X-PLAYLIST-TYPE:");
        assert("#EXT-X-INDEPENDENT-SEGMENTS"@.len() != "#EXT-X-PLAYLIST-TYPE:"@.len());
        reveal_strlit("#EXT-X-I-FRAMES-ONLY");
        assert("#EXT-X-INDEPENDENT-SEGMENTS"@.len() != "#EXT-X-I-FRAMES-ONLY"@.len());
        reveal_strlit("#EXT-X-MEDIA:");
        assert("#EXT-X-INDEPENDENT-SEGMENTS"@.len() != "#EXT-X-MEDIA:"@.len());
        reveal_strlit("#EXT-X-STREAM-INF:");
        assert("#EXT-X-INDEPENDENT-SEGMENTS"@.len() != "#EXT-X-STREAM-INF:"@.len());
        reveal_strlit("#EXT-X-I-FRAME-STREAM-INF:");
        assert("#EXT-X-INDEPENDENT-SEGMENTS"@.len() != "#EXT-X-I-FRAME-STREAM-INF:"@.len());
        reveal_strlit("#EXT-X-SESSION-DATA:");
        assert("#EXT-X-INDEPENDENT-SEGMENTS"@.len() != "#EXT-X-SESSION-DATA:"@.len());
        reveal_strlit("#EXT-X-SESSION-KEY:");
        assert("#EXT-X-INDEPENDENT-SEGMENTS"@.len() != "#EXT-X-SESSION-KEY:"@.len());
    } else if i == 21 {
        reveal_strlit("#EXT-X-START:");
        reveal_strlit("#EXTM3U");
        assert("#EXT-X-START:"@.len() != "#EXTM3U"@.len());
        reveal_strlit("#EXT-X-VERSION:");
        assert("#EXT-X-START:"@.len() != "#EXT-X-VERSION:"@.len());
        reveal_strlit("#EXTINF:");
        assert("#EXT-X-START:"@.len() != "#EXTINF:"@.len());
        reveal_strlit("#EXT-X-BYTERANGE:");
        assert("#EXT-X-START:"@.len() != "#EXT-X-BYTERANGE:"@.len());
        reveal_strlit("#EXT-X-DISCONTINUITY");
        assert("#EXT-X-START:"@.len() != "#EXT-X-DISCONTINUITY"@.len());
        reveal_strlit("#EXT-X-KEY:");
        assert("#EXT-X-START:"@.len() != "#EXT-X-KEY:"@.len());
        reveal_strlit("#EXT-X-MAP:");
        assert("#EXT-X-START:"@.len() != "#EXT-X-MAP:"@.len());
        reveal_strlit("#EXT-X-PROGRAM-DATE-TIME:");
        assert("#EXT-X-START:"@.len() != "#EXT-X-PROGRAM-DATE-TIME:"@.len());
        reveal_strlit("#EXT-X-TARGETDURATION:");
        assert("#EXT-X-START:"@.len() != "#EXT-X-TARGETDURATION:"@.len());
        reveal_strlit("#EXT-X-DATERANGE:");
        assert("#EXT-X-START:"@.len() != "#EXT-X-DATERANGE:"@.len());
        reveal_strlit("#EXT-X-MEDIA-SEQUENCE:");
        assert("#EXT-X-START:"@.len() != "#EXT-X-MEDIA-SEQUENCE:"@.len());
        reveal_strlit("#EXT-X-DISCONTINUITY-SEQUENCE:");
        assert("#EXT-X-START:"@.len() != "#EXT-X-DISCONTINUITY-SEQUENCE:"@.len());
        reveal_strlit("#EXT-X-ENDLIST");
        assert("#EXT-X-START:"@.len() != "#EXT-X-ENDLIST"@.len());
        reveal_strlit("#EXT-X-PLAYLIST-TYPE:");
        assert("#EXT-X-START:"@.len() != "#EXT-X-PLAYLIST-TYPE:"@.len());
        reveal_strlit("#EXT-X-I-FRAMES-ONLY");
        assert("#EXT-X-START:"@.len() != "#EXT-X-I-FRAMES-ONLY"@.len());
        reveal_strlit("#EXT-X-MEDIA:");
        assert("#EXT-X-START:"@[7] != "#EXT-X-MEDIA:"@[7]);
        reveal_strlit("#EXT-X-STREAM-INF:");
        assert("#EXT-X-START:"@.len() != "#EXT-X-STREAM-INF:"@.len());
        reveal_strlit("#EXT-X-I-FRAME-STREAM-INF:");
        assert("#EXT-X-START:"@.len() != "#EXT-X-I-FRAME-STREAM-INF:"@.len());
        reveal_strlit("#EXT-X-SESSION-DATA:");
        assert("#EXT-X-START:"@.len() != "#EXT-X-SESSION-DATA:"@.len());
        reveal_strlit("#EXT-X-SESSION-KEY:");
        assert("#EXT-X-START:"@.len() != "#EXT-X-SESSION-KEY:"@.len());
        reveal_strlit("#EXT-X-INDEPENDENT-SEGMENTS");
        assert("#EXT-X-START:"@.len() != "#EXT-X-INDEPENDENT-SEGMENTS"@.len());
    }
}

/// No line is claimed by two tags: every prefix that takes a value ends in its only
/// colon, and a tag without a value, which holds no colon, must match the whole line.
pub proof fn lemma_dispatch_unambiguous(line: Seq<char>, i: int, j: int)
    requires
        0 <= i < TAG_COUNT,
        0 <= j < TAG_COUNT,
        recognizes(i, line),
        recognizes(j, line),
    ensures
        i == j,
{
    lemma_prefix_shape(i);
    lemma_prefix_shape(j);
    let p = tag_prefix(i);
    let q = tag_prefix(j);
    if is_marker(i) && !is_marker(j) {
        assert(line[q.len() - 1] == q[q.len() - 1]);
    } else if !is_marker(i) && is_marker(j) {
        assert(line[p.len() - 1] == p[p.len() - 1]);
    } else if !is_marker(i) && !is_marker(j) {
        if p.len() < q.len() {
            assert(q[p.len() - 1] == line[p.len() - 1]);
        } else if q.len() < p.len() {
            assert(p[q.len() - 1] == line[q.len() - 1]);
        } else {
            assert(p =~= q);
        }
    }
    lemma_prefix_index(i);
    lemma_prefix_index(j);
}

/// One tag line of a playlist.
#[derive(Debug, Clone)]
pub enum Tag {
    ExtM3u(ExtM3u),
    ExtXVersion(ExtXVersion),
    ExtInf(ExtInf),
    ExtXByteRange(ExtXByteRange),
    ExtXDiscontinuity(ExtXDiscontinuity),
    ExtXKey(ExtXKey),
    ExtXMap(ExtXMap),
    ExtXProgramDateTime(ExtXProgramDateTime),
    ExtXTargetDuration(ExtXTargetDuration),
    ExtXDateRange(ExtXDateRange),
    ExtXMediaSequence(ExtXMediaSequence),
    ExtXDiscontinuitySequence(ExtXDiscontinuitySequence),
    ExtXEndList(ExtXEndList),
    ExtXPlaylistType(ExtXPlaylistType),
    ExtXIFramesOnly(ExtXIFramesOnly),
    ExtXMedia(ExtXMedia),
    ExtXStreamInf(ExtXStreamInf),
    ExtXIFrameStreamInf(ExtXIFrameStreamInf),
    ExtXSessionData(ExtXSessionData),
    ExtXSessionKey(ExtXSessionKey),
    ExtXIndependentSegments(ExtXIndependentSegments),
    ExtXStart(ExtXStart),
}

pub enum TagView {
    ExtM3u,
    ExtXVersion(ProtocolVersion),
    ExtInf(ExtInfView),
    ExtXByteRange(ExtXByteRange),
    ExtXDiscontinuity,
    ExtXKey(ExtXKeyView),
    ExtXMap(ExtXMapView),
    ExtXProgramDateTime(Seq<char>),
    ExtXTargetDuration(ExtXTargetDuration),
    ExtXDateRange(ExtXDateRangeView),
    ExtXMediaSequence(ExtXMediaSequence),
    ExtXDiscontinuitySequence(ExtXDiscontinuitySequence),
    ExtXEndList,
    ExtXPlaylistType(ExtXPlaylistType),
    ExtXIFramesOnly,
    ExtXMedia(ExtXMediaView),
    ExtXStreamInf(ExtXStreamInfView),
    ExtXIFrameStreamInf(ExtXIFrameStreamInfView),
    ExtXSessionData(ExtXSessionDataView),
    ExtXSessionKey(ExtXSessionKeyView),
    ExtXIndependentSegments,
    ExtXStart(ExtXStartView),
}

impl View for Tag {
    type V = TagView;

    open spec fn view(&self) -> TagView {
        match self {
            Tag::ExtM3u(_) => TagView::ExtM3u,
            Tag::ExtXVersion(t) => TagView::ExtXVersion(t@),
            Tag::ExtInf(t) => TagView::ExtInf(t@),
            Tag::ExtXByteRange(t) => TagView::ExtXByteRange(*t),
            Tag::ExtXDiscontinuity(_) => TagView::ExtXDiscontinuity,
            Tag::ExtXKey(t) => TagView::ExtXKey(t@),
            Tag::ExtXMap(t) => TagView::ExtXMap(t@),
            Tag::ExtXProgramDateTime(t) => TagView::ExtXProgramDateTime(t@),
            Tag::ExtXTargetDuration(t) => TagView::ExtXTargetDuration(*t),
            Tag::ExtXDateRange(t) => TagView::ExtXDateRange(t@),
            Tag::ExtXMediaSequence(t) => TagView::ExtXMediaSequence(*t),
            Tag::ExtXDiscontinuitySequence(t) => TagView::ExtXDiscontinuitySequence(*t),
            Tag::ExtXEndList(_) => TagView::ExtXEndList,
            Tag::ExtXPlaylistType(t) => TagView::ExtXPlaylistType(*t),
            Tag::ExtXIFramesOnly(_) => TagView::ExtXIFramesOnly,
            Tag::ExtXMedia(t) => TagView::ExtXMedia(t@),
            Tag::ExtXStreamInf(t) => TagView::ExtXStreamInf(t@),
            Tag::ExtXIFrameStreamInf(t) => TagView::ExtXIFrameStreamInf(t@),
            Tag::ExtXSessionData(t) => TagView::ExtXSessionData(t@),
            Tag::ExtXSessionKey(t) => TagView::ExtXSessionKey(t@),
            Tag::ExtXIndependentSegments(_) => TagView::ExtXIndependentSegments,
            Tag::ExtXStart(t) => TagView::ExtXStart(t@),
        }
    }
}

pub open spec fn tag_kind(t: TagView) -> TagKind {
    match t {
        TagView::ExtM3u => TagKind::Basic,
        TagView::ExtXVersion(_) => TagKind::Basic,
        TagView::ExtInf(_) => TagKind::MediaSegment,
        TagView::ExtXByteRange(_) => TagKind::MediaSegment,
        TagView::ExtXDiscontinuity => TagKind::MediaSegment,
        TagView::ExtXKey(_) => TagKind::MediaSegment,
        TagView::ExtXMap(_) => TagKind::MediaSegment,
        TagView::ExtXProgramDateTime(_) => TagKind::MediaSegment,
        TagView::ExtXTargetDuration(_) => TagKind::MediaPlaylist,
        TagView::ExtXDateRange(_) => TagKind::MediaSegment,
        TagView::ExtXMediaSequence(_) => TagKind::MediaPlaylist,
        TagView::ExtXDiscontinuitySequence(_) => TagKind::MediaPlaylist,
        TagView::ExtXEndList => TagKind::MediaPlaylist,
        TagView::ExtXPlaylistType(_) => TagKind::MediaPlaylist,
        TagView::ExtXIFramesOnly => TagKind::MediaPlaylist,
        TagView::ExtXMedia(_) => TagKind::MasterPlaylist,
        TagView::ExtXStreamInf(_) => TagKind::MasterPlaylist,
        TagView::ExtXIFrameStreamInf(_) => TagKind::MasterPlaylist,
        TagView::ExtXSessionData(_) => TagKind::MasterPlaylist,
        TagView::ExtXSessionKey(_) => TagKind::MasterPlaylist,
        TagView::ExtXIndependentSegments => TagKind::MediaOrMasterPlaylist,
        TagView::ExtXStart(_) => TagKind::MediaOrMasterPlaylist,
    }
}

/// Each tag well formed, as its own parser leaves it.
pub open spec fn tag_ok(t: TagView) -> bool {
    match t {
        TagView::ExtInf(v) => inf_ok(v),
        TagView::ExtXKey(v) => key_ok(v),
        TagView::ExtXMap(v) => map_ok(v),
        TagView::ExtXTargetDuration(v) => v.wf(),
        TagView::ExtXDateRange(v) => date_range_ok(v),
        TagView::ExtXMedia(v) => media_ok(v),
        TagView::ExtXStreamInf(v) => stream_inf_ok(v),
        TagView::ExtXIFrameStreamInf(v) => i_frame_stream_inf_ok(v),
        TagView::ExtXSessionData(v) => session_data_ok(v),
        TagView::ExtXSessionKey(v) => session_key_ok(v),
        TagView::ExtXStart(v) => start_ok(v),
        _ => true,
    }
}

pub open spec fn tag_text(t: TagView) -> Seq<char> {
    match t {
        TagView::ExtM3u => m3u_text(),
        TagView::ExtXVersion(v) => version_text(v),
        TagView::ExtInf(v) => inf_text(v),
        TagView::ExtXByteRange(v) => byte_range_text(v),
        TagView::ExtXDiscontinuity => discontinuity_text(),
        TagView::ExtXKey(v) => key_text(v),
        TagView::ExtXMap(v) => map_text(v),
        TagView::ExtXProgramDateTime(v) => program_date_time_text(v),
        TagView::ExtXTargetDuration(v) => target_duration_text(v),
        TagView::ExtXDateRange(v) => date_range_text(v),
        TagView::ExtXMediaSequence(v) => media_sequence_text(v),
        TagView::ExtXDiscontinuitySequence(v) => discontinuity_sequence_text(v),
        TagView::ExtXEndList => end_list_text(),
        TagView::ExtXPlaylistType(v) => playlist_type_text(v),
        TagView::ExtXIFramesOnly => i_frames_only_text(),
        TagView::ExtXMedia(v) => media_text(v),
        TagView::ExtXStreamInf(v) => stream_inf_text(v),
        TagView::ExtXIFrameStreamInf(v) => i_frame_stream_inf_text(v),
        TagView::ExtXSessionData(v) => session_data_text(v),
        TagView::ExtXSessionKey(v) => session_key_text(v),
        TagView::ExtXIndependentSegments => independent_segments_text(),
        TagView::ExtXStart(v) => start_text(v),
    }
}

/// The first tag, in the order of `tag_prefix`, that claims the line decides how it is read.
/// A line that no tag claims is an error.
pub open spec fn parse_tag(line: Seq<char>) -> Option<TagView> {
    if recognizes(0, line) {
        Some(TagView::ExtM3u)
    } else if recognizes(1, line) {
        match parse_version(line) {
            Some(v) => Some(TagView::ExtXVersion(v)),
            None => None,
        }
    } else if recognizes(2, line) {
        match parse_inf(line) {
            Some(v) => Some(TagView::ExtInf(v)),
            None => None,
        }
    } else if recognizes(3, line) {
        match parse_byte_range(line) {
            Some(v) => Some(TagView::ExtXByteRange(v)),
            None => None,
        }
    } else if recognizes(4, line) {
        Some(TagView::ExtXDiscontinuity)
    } else if recognizes(5, line) {
        match parse_key(line) {
            Some(v) => Some(TagView::ExtXKey(v)),
            None => None,
        }
    } else if recognizes(6, line) {
        match parse_map(line) {
            Some(v) => Some(TagView::ExtXMap(v)),
            None => None,
        }
    } else if recognizes(7, line) {
        match parse_program_date_time(line) {
            Some(v) => Some(TagView::ExtXProgramDateTime(v)),
            None => None,
        }
    } else if recognizes(8, line) {
        match parse_target_duration(line) {
            Some(v) => Some(TagView::ExtXTargetDuration(v)),
            None => None,
        }
    } else if recognizes(9, line) {
        match parse_date_range(line) {
            Some(v) => Some(TagView::ExtXDateRange(v)),
            None => None,
        }
    } else if recognizes(10, line) {
        match parse_media_sequence(line) {
            Some(v) => Some(TagView::ExtXMediaSequence(v)),
            None => None,
        }
    } else if recognizes(11, line) {
        match parse_discontinuity_sequence(line) {
            Some(v) => Some(TagView::ExtXDiscontinuitySequence(v)),
            None => None,
        }
    } else if recognizes(12, line) {
        Some(TagView::ExtXEndList)
    } else if recognizes(13, line) {
        match parse_playlist_type(line) {
            Some(v) => Some(TagView::ExtXPlaylistType(v)),
            None => None,
        }
    } else if recognizes(14, line) {
        Some(TagView::ExtXIFramesOnly)
    } else if recognizes(15, line) {
        match parse_media(line) {
            Some(v) => Some(TagView::ExtXMedia(v)),
            None => None,
        }
    } else if recognizes(16, line) {
        match parse_stream_inf(line) {
            Some(v) => Some(TagView::ExtXStreamInf(v)),
            None => None,
        }
    } else if recognizes(17, line) {
        match parse_i_frame_stream_inf(line) {
            Some(v) => Some(TagView::ExtXIFrameStreamInf(v)),
            None => None,
        }
    } else if recognizes(18, line) {
        match parse_session_data(line) {
            Some(v) => Some(TagView::ExtXSessionData(v)),
            None => None,
        }
    } else if recognizes(19, line) {
        match parse_session_key(line) {
            Some(v) => Some(TagView::ExtXSessionKey(v)),
            None => None,
        }
    } else if recognizes(20, line) {
        Some(TagView::ExtXIndependentSegments)
    } else if recognizes(21, line) {
        match parse_start(line) {
            Some(v) => Some(TagView::ExtXStart(v)),
            None => None,
        }
    } else {
        None
    }
}

pub open spec fn tag_index(t: TagView) -> int {
    match t {
        TagView::ExtM3u => 0,
        TagView::ExtXVersion(_) => 1,
        TagView::ExtInf(_) => 2,
        TagView::ExtXByteRange(_) => 3,
        TagView::ExtXDiscontinuity => 4,
        TagView::ExtXKey(_) => 5,
        TagView::ExtXMap(_) => 6,
        TagView::ExtXProgramDateTime(_) => 7,
        TagView::ExtXTargetDuration(_) => 8,
        TagView::ExtXDateRange(_) => 9,
        TagView::ExtXMediaSequence(_) => 10,
        TagView::ExtXDiscontinuitySequence(_) => 11,
        TagView::ExtXEndList => 12,
        TagView::ExtXPlaylistType(_) => 13,
        TagView::ExtXIFramesOnly => 14,
        TagView::ExtXMedia(_) => 15,
        TagView::ExtXStreamInf(_) => 16,
        TagView::ExtXIFrameStreamInf(_) => 17,
        TagView::ExtXSessionData(_) => 18,
        TagView::ExtXSessionKey(_) => 19,
        TagView::ExtXIndependentSegments => 20,
        TagView::ExtXStart(_) => 21,
    }
}

/// Any well-formed tag, written out, reads back as itself.
pub proof fn lemma_tag_round_trip(t: TagView)
    requires
        tag_ok(t),
    ensures
        parse_tag(tag_text(t)) == Some(t),
{
    let line = tag_text(t);
    let i = tag_index(t);
    match t {
        TagView::ExtM3u => {},
        TagView::ExtXVersion(v) => {
            lemma_version_round_trip(v);
            assert(line.subrange(0, tag_prefix(1).len() as int) =~= tag_prefix(1));
        },
        TagView::ExtInf(v) => {
            lemma_inf_round_trip(v);
            assert(line.subrange(0, tag_prefix(2).len() as int) =~= tag_prefix(2));
        },
        TagView::ExtXByteRange(v) => {
            lemma_byte_range_round_trip(v);
            assert(line.subrange(0, tag_prefix(3).len() as int) =~= tag_prefix(3));
        },
        TagView::ExtXDiscontinuity => {},
        TagView::ExtXKey(v) => {
            lemma_key_round_trip(v);
            assert(line.subrange(0, tag_prefix(5).len() as int) =~= tag_prefix(5));
        },
        TagView::ExtXMap(v) => {
            lemma_map_round_trip(v);
            assert(line.subrange(0, tag_prefix(6).len() as int) =~= tag_prefix(6));
        },
        TagView::ExtXProgramDateTime(v) => {
            lemma_program_date_time_round_trip(v);
            assert(line.subrange(0, tag_prefix(7).len() as int) =~= tag_prefix(7));
        },
        TagView::ExtXTargetDuration(v) => {
            lemma_target_duration_round_trip(v);
            assert(line.subrange(0, tag_prefix(8).len() as int) =~= tag_prefix(8));
        },
        TagView::ExtXDateRange(v) => {
            lemma_date_range_round_trip(v);
            assert(line.subrange(0, tag_prefix(9).len() as int) =~= tag_prefix(9));
        },
        TagView::ExtXMediaSequence(v) => {
            lemma_media_sequence_round_trip(v);
            assert(line.subrange(0, tag_prefix(10).len() as int) =~= tag_prefix(10));
        },
        TagView::ExtXDiscontinuitySequence(v) => {
            lemma_discontinuity_sequence_round_trip(v);
            assert(line.subrange(0, tag_prefix(11).len() as int) =~= tag_prefix(11));
        },
        TagView::ExtXEndList => {},
        TagView::ExtXPlaylistType(v) => {
            lemma_playlist_type_round_trip(v);
            assert(line.subrange(0, tag_prefix(13).len() as int) =~= tag_prefix(13));
        },
        TagView::ExtXIFramesOnly => {},
        TagView::ExtXMedia(v) => {
            lemma_media_round_trip(v);
            assert(line.subrange(0, tag_prefix(15).len() as int) =~= tag_prefix(15));
        },
        TagView::ExtXStreamInf(v) => {
            lemma_stream_inf_round_trip(v);
            assert(line.subrange(0, tag_prefix(16).len() as int) =~= tag_prefix(16));
        },
        TagView::ExtXIFrameStreamInf(v) => {
            lemma_i_frame_stream_inf_round_trip(v);
            assert(line.subrange(0, tag_prefix(17).len() as int) =~= tag_prefix(17));
        },
        TagView::ExtXSessionData(v) => {
            lemma_session_data_round_trip(v);
            assert(line.subrange(0, tag_prefix(18).len() as int) =~= tag_prefix(18));
        },
        TagView::ExtXSessionKey(v) => {
            lemma_session_key_round_trip(v);
            assert(line.subrange(0, tag_prefix(19).len() as int) =~= tag_prefix(19));
        },
        TagView::ExtXIndependentSegments => {},
        TagView::ExtXStart(v) => {
            lemma_start_round_trip(v);
            assert(line.subrange(0, tag_prefix(21).len() as int) =~= tag_prefix(21));
        },
    }
    assert(recognizes(i, line));
    assert forall|j: int| 0 <= j < TAG_COUNT && j != i implies !recognizes(j, line) by {
        if recognizes(j, line) {
            lemma_dispatch_unambiguous(line, i, j);
        }
    }
}

/// What parses as a tag is well formed.
pub proof fn lemma_tag_parsed_ok(line: Seq<char>)
    requires
        parse_tag(line) is Some,
    ensures
        tag_ok(parse_tag(line)->0),
{
    match parse_tag(line)->0 {
        TagView::ExtInf(_) => lemma_inf_parsed_ok(line),
        TagView::ExtXKey(_) => lemma_key_parsed_ok(line),
        TagView::ExtXMap(_) => lemma_map_parsed_ok(line),
        TagView::ExtXDateRange(_) => lemma_date_range_parsed_ok(line),
        TagView::ExtXMedia(_) => lemma_media_parsed_ok(line),
        TagView::ExtXStreamInf(_) => lemma_stream_inf_parsed_ok(line),
        TagView::ExtXIFrameStreamInf(_) => lemma_i_frame_stream_inf_parsed_ok(line),
        TagView::ExtXSessionData(_) => lemma_session_data_parsed_ok(line),
        TagView::ExtXSessionKey(_) => lemma_session_key_parsed_ok(line),
        TagView::ExtXStart(_) => lemma_start_parsed_ok(line),
        _ => {},
    }
}

/// A line that parses, written out again, reads back as the same tag.
pub proof fn lemma_tag_reparse(line: Seq<char>)
    requires
        parse_tag(line) is Some,
    ensures
        parse_tag(tag_text(parse_tag(line)->0)) == parse_tag(line),
{
    lemma_tag_parsed_ok(line);
    lemma_tag_round_trip(parse_tag(line)->0);
}

fn starts_with(s: &str, prefix: &str) -> (r: bool)
    ensures
        r == is_prefix(prefix@, s@),
{
    strip_prefix(s, prefix).is_some()
}

impl Tag {
    pub open spec fn wf(&self) -> bool {
        tag_ok(self@)
    }

    /// Where this tag may stand.
    pub fn kind(&self) -> (r: TagKind)
        ensures
            r == tag_kind(self@),
    {
        match self {
            Tag::ExtM3u(_)
            | Tag::ExtXVersion(_) => TagKind::Basic,
            Tag::ExtInf(_)
            | Tag::ExtXByteRange(_)
            | Tag::ExtXDiscontinuity(_)
            | Tag::ExtXKey(_)
            | Tag::ExtXMap(_)
            | Tag::ExtXProgramDateTime(_)
            | Tag::ExtXDateRange(_) => TagKind::MediaSegment,
            Tag::ExtXTargetDuration(_)
            | Tag::ExtXMediaSequence(_)
            | Tag::ExtXDiscontinuitySequence(_)
            | Tag::ExtXEndList(_)
            | Tag::ExtXPlaylistType(_)
            | Tag::ExtXIFramesOnly(_) => TagKind::MediaPlaylist,
            Tag::ExtXMedia(_)
            | Tag::ExtXStreamInf(_)
            | Tag::ExtXIFrameStreamInf(_)
            | Tag::ExtXSessionData(_)
            | Tag::ExtXSessionKey(_) => TagKind::MasterPlaylist,
            Tag::ExtXIndependentSegments(_)
            | Tag::ExtXStart(_) => TagKind::MediaOrMasterPlaylist,
        }
    }

    /// Reads one tag line.
    pub fn from_str(s: &str) -> (r: Result<Tag, Error>)
        ensures
            match r {
                Ok(t) => parse_tag(s@) == Some(t@) && t.wf(),
                Err(_) => parse_tag(s@) is None,
            },
    {
        proof {
            if parse_tag(s@) is Some {
                lemma_tag_parsed_ok(s@);
            }
        }
        if str_eq(s, "#EXTM3U") {
            Ok(Tag::ExtM3u(ExtM3u::from_str(s)?))
        } else if starts_with(s, "#EXT-X-VERSION:") {
            Ok(Tag::ExtXVersion(ExtXVersion::from_str(s)?))
        } else if starts_with(s, "#EXTINF:") {
            Ok(Tag::ExtInf(ExtInf::from_str(s)?))
        } else if starts_with(s, "#EXT-X-BYTERANGE:") {
            Ok(Tag::ExtXByteRange(ExtXByteRange::from_str(s)?))
        } else if str_eq(s, "#EXT-X-DISCONTINUITY") {
            Ok(Tag::ExtXDiscontinuity(ExtXDiscontinuity::from_str(s)?))
        } else if starts_with(s, "#EXT-X-KEY:") {
            Ok(Tag::ExtXKey(ExtXKey::from_str(s)?))
        } else if starts_with(s, "#EXT-X-MAP:") {
            Ok(Tag::ExtXMap(ExtXMap::from_str(s)?))
        } else if starts_with(s, "#EXT-X-PROGRAM-DATE-TIME:") {
            Ok(Tag::ExtXProgramDateTime(ExtXProgramDateTime::from_str(s)?))
        } else if starts_with(s, "#EXT-X-TARGETDURATION:") {
            Ok(Tag::ExtXTargetDuration(ExtXTargetDuration::from_str(s)?))
        } else if starts_with(s, "#EXT-X-DATERANGE:") {
            Ok(Tag::ExtXDateRange(ExtXDateRange::from_str(s)?))
        } else if starts_with(s, "#EXT-X-MEDIA-SEQUENCE:") {
            Ok(Tag::ExtXMediaSequence(ExtXMediaSequence::from_str(s)?))
        } else if starts_with(s, "#EXT-X-DISCONTINUITY-SEQUENCE:") {
            Ok(Tag::ExtXDiscontinuitySequence(ExtXDiscontinuitySequence::from_str(s)?))
        } else if str_eq(s, "#EXT-X-ENDLIST") {
            Ok(Tag::ExtXEndList(ExtXEndList::from_str(s)?))
        } else if starts_with(s, "#EXT-X-PLAYLIST-TYPE:") {
            Ok(Tag::ExtXPlaylistType(ExtXPlaylistType::from_str(s)?))
        } else if str_eq(s, "#EXT-X-I-FRAMES-ONLY") {
            Ok(Tag::ExtXIFramesOnly(ExtXIFramesOnly::from_str(s)?))
        } else if starts_with(s, "#EXT-X-MEDIA:") {
            Ok(Tag::ExtXMedia(ExtXMedia::from_str(s)?))
        } else if starts_with(s, "#EXT-X-STREAM-INF:") {
            Ok(Tag::ExtXStreamInf(ExtXStreamInf::from_str(s)?))
        } else if starts_with(s, "#EXT-X-I-FRAME-STREAM-INF:") {
            Ok(Tag::ExtXIFrameStreamInf(ExtXIFrameStreamInf::from_str(s)?))
        } else if starts_with(s, "#EXT-X-SESSION-DATA:") {
            Ok(Tag::ExtXSessionData(ExtXSessionData::from_str(s)?))
        } else if starts_with(s, "#EXT-X-SESSION-KEY:") {
            Ok(Tag::ExtXSessionKey(ExtXSessionKey::from_str(s)?))
        } else if str_eq(s, "#EXT-X-INDEPENDENT-SEGMENTS") {
            Ok(Tag::ExtXIndependentSegments(ExtXIndependentSegments::from_str(s)?))
        } else if starts_with(s, "#EXT-X-START:") {
            Ok(Tag::ExtXStart(ExtXStart::from_str(s)?))
        } else {
            Err(Error::invalid_input(s))
        }
    }

    /// The tag written as one line.
    pub fn to_string(&self) -> (r: String)
        requires
            self.wf(),
        ensures
            r@ == tag_text(self@),
    {
        match self {
            Tag::ExtM3u(t) => t.to_string(),
            Tag::ExtXVersion(t) => t.to_string(),
            Tag::ExtInf(t) => t.to_string(),
            Tag::ExtXByteRange(t) => t.to_string(),
            Tag::ExtXDiscontinuity(t) => t.to_string(),
            Tag::ExtXKey(t) => t.to_string(),
            Tag::ExtXMap(t) => t.to_string(),
            Tag::ExtXProgramDateTime(t) => t.to_string(),
            Tag::ExtXTargetDuration(t) => t.to_string(),
            Tag::ExtXDateRange(t) => t.to_string(),
            Tag::ExtXMediaSequence(t) => t.to_string(),
            Tag::ExtXDiscontinuitySequence(t) => t.to_string(),
            Tag::ExtXEndList(t) => t.to_string(),
            Tag::ExtXPlaylistType(t) => t.to_string(),
            Tag::ExtXIFramesOnly(t) => t.to_string(),
            Tag::ExtXMedia(t) => t.to_string(),
            Tag::ExtXStreamInf(t) => t.to_string(),
            Tag::ExtXIFrameStreamInf(t) => t.to_string(),
            Tag::ExtXSessionData(t) => t.to_string(),
            Tag::ExtXSessionKey(t) => t.to_string(),
            Tag::ExtXIndependentSegments(t) => t.to_string(),
            Tag::ExtXStart(t) => t.to_string(),
        }
    }
}

/// A tag that belongs to one media segment.
#[derive(Debug, Clone)]
pub enum MediaSegmentTag {
    ExtInf(ExtInf),
    ExtXByteRange(ExtXByteRange),
    ExtXDateRange(ExtXDateRange),
    ExtXDiscontinuity(ExtXDiscontinuity),
    ExtXKey(ExtXKey),
    ExtXMap(ExtXMap),
    ExtXProgramDateTime(ExtXProgramDateTime),
}

impl MediaSegmentTag {
    /// The same tag as one of all tags.
    pub open spec fn as_tag(&self) -> Tag {
        match self {
            MediaSegmentTag::ExtInf(t) => Tag::ExtInf(*t),
            MediaSegmentTag::ExtXByteRange(t) => Tag::ExtXByteRange(*t),
            MediaSegmentTag::ExtXDateRange(t) => Tag::ExtXDateRange(*t),
            MediaSegmentTag::ExtXDiscontinuity(t) => Tag::ExtXDiscontinuity(*t),
            MediaSegmentTag::ExtXKey(t) => Tag::ExtXKey(*t),
            MediaSegmentTag::ExtXMap(t) => Tag::ExtXMap(*t),
            MediaSegmentTag::ExtXProgramDateTime(t) => Tag::ExtXProgramDateTime(*t),
        }
    }

    pub open spec fn wf(&self) -> bool {
        self.as_tag().wf()
    }

    pub fn as_inf(&self) -> (r: Option<&ExtInf>)
        ensures
            r is Some <==> self is ExtInf,
            r matches Some(t) ==> *self == MediaSegmentTag::ExtInf(*t),
    {
        match self {
            MediaSegmentTag::ExtInf(t) => Some(t),
            _ => None,
        }
    }

    pub fn as_byte_range(&self) -> (r: Option<&ExtXByteRange>)
        ensures
            r is Some <==> self is ExtXByteRange,
            r matches Some(t) ==> *self == MediaSegmentTag::ExtXByteRange(*t),
    {
        match self {
            MediaSegmentTag::ExtXByteRange(t) => Some(t),
            _ => None,
        }
    }

    pub fn as_date_range(&self) -> (r: Option<&ExtXDateRange>)
        ensures
            r is Some <==> self is ExtXDateRange,
            r matches Some(t) ==> *self == MediaSegmentTag::ExtXDateRange(*t),
    {
        match self {
            MediaSegmentTag::ExtXDateRange(t) => Some(t),
            _ => None,
        }
    }

    pub fn as_discontinuity(&self) -> (r: Option<&ExtXDiscontinuity>)
        ensures
            r is Some <==> self is ExtXDiscontinuity,
            r matches Some(t) ==> *self == MediaSegmentTag::ExtXDiscontinuity(*t),
    {
        match self {
            MediaSegmentTag::ExtXDiscontinuity(t) => Some(t),
            _ => None,
        }
    }

    pub fn as_key(&self) -> (r: Option<&ExtXKey>)
        ensures
            r is Some <==> self is ExtXKey,
            r matches Some(t) ==> *self == MediaSegmentTag::ExtXKey(*t),
    {
        match self {
            MediaSegmentTag::ExtXKey(t) => Some(t),
            _ => None,
        }
    }

    pub fn as_map(&self) -> (r: Option<&ExtXMap>)
        ensures
            r is Some <==> self is ExtXMap,
            r matches Some(t) ==> *self == MediaSegmentTag::ExtXMap(*t),
    {
        match self {
            MediaSegmentTag::ExtXMap(t) => Some(t),
            _ => None,
        }
    }

    pub fn as_program_date_time(&self) -> (r: Option<&ExtXProgramDateTime>)
        ensures
            r is Some <==> self is ExtXProgramDateTime,
            r matches Some(t) ==> *self == MediaSegmentTag::ExtXProgramDateTime(*t),
    {
        match self {
            MediaSegmentTag::ExtXProgramDateTime(t) => Some(t),
            _ => None,
        }
    }

    /// The tag written as one line.
    pub fn to_string(&self) -> (r: String)
        requires
            self.wf(),
        ensures
            r@ == tag_text(self.as_tag()@),
    {
        match self {
            MediaSegmentTag::ExtInf(t) => t.to_string(),
            MediaSegmentTag::ExtXByteRange(t) => t.to_string(),
            MediaSegmentTag::ExtXDateRange(t) => t.to_string(),
            MediaSegmentTag::ExtXDiscontinuity(t) => t.to_string(),
            MediaSegmentTag::ExtXKey(t) => t.to_string(),
            MediaSegmentTag::ExtXMap(t) => t.to_string(),
            MediaSegmentTag::ExtXProgramDateTime(t) => t.to_string(),
        }
    }
}

impl From<ExtInf> for MediaSegmentTag {
    fn from(t: ExtInf) -> (r: MediaSegmentTag)
        ensures
            r == MediaSegmentTag::ExtInf(t),
    {
        MediaSegmentTag::ExtInf(t)
    }
}

impl vstd::std_specs::convert::FromSpecImpl<ExtInf> for MediaSegmentTag {
    open spec fn obeys_from_spec() -> bool {
        true
    }

    open spec fn from_spec(t: ExtInf) -> MediaSegmentTag {
        MediaSegmentTag::ExtInf(t)
    }
}

impl From<ExtXByteRange> for MediaSegmentTag {
    fn from(t: ExtXByteRange) -> (r: MediaSegmentTag)
        ensures
            r == MediaSegmentTag::ExtXByteRange(t),
    {
        MediaSegmentTag::ExtXByteRange(t)
    }
}

impl vstd::std_specs::convert::FromSpecImpl<ExtXByteRange> for MediaSegmentTag {
    open spec fn obeys_from_spec() -> bool {
        true
    }

    open spec fn from_spec(t: ExtXByteRange) -> MediaSegmentTag {
        MediaSegmentTag::ExtXByteRange(t)
    }
}

impl From<ExtXDateRange> for MediaSegmentTag {
    fn from(t: ExtXDateRange) -> (r: MediaSegmentTag)
        ensures
            r == MediaSegmentTag::ExtXDateRange(t),
    {
        MediaSegmentTag::ExtXDateRange(t)
    }
}

impl vstd::std_specs::convert::FromSpecImpl<ExtXDateRange> for MediaSegmentTag {
    open spec fn obeys_from_spec() -> bool {
        true
    }

    open spec fn from_spec(t: ExtXDateRange) -> MediaSegmentTag {
        MediaSegmentTag::ExtXDateRange(t)
    }
}

impl From<ExtXDiscontinuity> for MediaSegmentTag {
    fn from(t: ExtXDiscontinuity) -> (r: MediaSegmentTag)
        ensures
            r == MediaSegmentTag::ExtXDiscontinuity(t),
    {
        MediaSegmentTag::ExtXDiscontinuity(t)
    }
}

impl vstd::std_specs::convert::FromSpecImpl<ExtXDiscontinuity> for MediaSegmentTag {
    open spec fn obeys_from_spec() -> bool {
        true
    }

    open spec fn from_spec(t: ExtXDiscontinuity) -> MediaSegmentTag {
        MediaSegmentTag::ExtXDiscontinuity(t)
    }
}

impl From<ExtXKey> for MediaSegmentTag {
    fn from(t: ExtXKey) -> (r: MediaSegmentTag)
        ensures
            r == MediaSegmentTag::ExtXKey(t),
    {
        MediaSegmentTag::ExtXKey(t)
    }
}

impl vstd::std_specs::convert::FromSpecImpl<ExtXKey> for MediaSegmentTag {
    open spec fn obeys_from_spec() -> bool {
        true
    }

    open spec fn from_spec(t: ExtXKey) -> MediaSegmentTag {
        MediaSegmentTag::ExtXKey(t)
    }
}

impl From<ExtXMap> for MediaSegmentTag {
    fn from(t: ExtXMap) -> (r: MediaSegmentTag)
        ensures
            r == MediaSegmentTag::ExtXMap(t),
    {
        MediaSegmentTag::ExtXMap(t)
    }
}

impl vstd::std_specs::convert::FromSpecImpl<ExtXMap> for MediaSegmentTag {
    open spec fn obeys_from_spec() -> bool {
        true
    }

    open spec fn from_spec(t: ExtXMap) -> MediaSegmentTag {
        MediaSegmentTag::ExtXMap(t)
    }
}

impl From<ExtXProgramDateTime> for MediaSegmentTag {
    fn from(t: ExtXProgramDateTime) -> (r: MediaSegmentTag)
        ensures
            r == MediaSegmentTag::ExtXProgramDateTime(t),
    {
        MediaSegmentTag::ExtXProgramDateTime(t)
    }
}

impl vstd::std_specs::convert::FromSpecImpl<ExtXProgramDateTime> for MediaSegmentTag {
    open spec fn obeys_from_spec() -> bool {
        true
    }

    open spec fn from_spec(t: ExtXProgramDateTime) -> MediaSegmentTag {
        MediaSegmentTag::ExtXProgramDateTime(t)
    }
}

impl core::str::FromStr for ExtM3u {
    type Err = Error;

    fn from_str(s: &str) -> Result<ExtM3u, Error> {
        ExtM3u::from_str(s)
    }
}

impl core::str::FromStr for ExtXVersion {
    type Err = Error;

    fn from_str(s: &str) -> Result<ExtXVersion, Error> {
        ExtXVersion::from_str(s)
    }
}

impl core::str::FromStr for ExtInf {
    type Err = Error;

    fn from_str(s: &str) -> Result<ExtInf, Error> {
        ExtInf::from_str(s)
    }
}

impl core::str::FromStr for ExtXByteRange {
    type Err = Error;

    fn from_str(s: &str) -> Result<ExtXByteRange, Error> {
        ExtXByteRange::from_str(s)
    }
}

impl core::str::FromStr for ExtXDiscontinuity {
    type Err = Error;

    fn from_str(s: &str) -> Result<ExtXDiscontinuity, Error> {
        ExtXDiscontinuity::from_str(s)
    }
}

impl core::str::FromStr for ExtXKey {
    type Err = Error;

    fn from_str(s: &str) -> Result<ExtXKey, Error> {
        ExtXKey::from_str(s)
    }
}

impl core::str::FromStr for ExtXMap {
    type Err = Error;

    fn from_str(s: &str) -> Result<ExtXMap, Error> {
        ExtXMap::from_str(s)
    }
}

impl core::str::FromStr for ExtXProgramDateTime {
    type Err = Error;

    fn from_str(s: &str) -> Result<ExtXProgramDateTime, Error> {
        ExtXProgramDateTime::from_str(s)
    }
}

impl core::str::FromStr for ExtXTargetDuration {
    type Err = Error;

    fn from_str(s: &str) -> Result<ExtXTargetDuration, Error> {
        ExtXTargetDuration::from_str(s)
    }
}

impl core::str::FromStr for ExtXDateRange {
    type Err = Error;

    fn from_str(s: &str) -> Result<ExtXDateRange, Error> {
        ExtXDateRange::from_str(s)
    }
}

impl core::str::FromStr for ExtXMediaSequence {
    type Err = Error;

    fn from_str(s: &str) -> Result<ExtXMediaSequence, Error> {
        ExtXMediaSequence::from_str(s)
    }
}

impl core::str::FromStr for ExtXDiscontinuitySequence {
    type Err = Error;

    fn from_str(s: &str) -> Result<ExtXDiscontinuitySequence, Error> {
        ExtXDiscontinuitySequence::from_str(s)
    }
}

impl core::str::FromStr for ExtXEndList {
    type Err = Error;

    fn from_str(s: &str) -> Result<ExtXEndList, Error> {
        ExtXEndList::from_str(s)
    }
}

impl core::str::FromStr for ExtXPlaylistType {
    type Err = Error;

    fn from_str(s: &str) -> Result<ExtXPlaylistType, Error> {
        ExtXPlaylistType::from_str(s)
    }
}

impl core::str::FromStr for ExtXIFramesOnly {
    type Err = Error;

    fn from_str(s: &str) -> Result<ExtXIFramesOnly, Error> {
        ExtXIFramesOnly::from_str(s)
    }
}

impl core::str::FromStr for ExtXMedia {
    type Err = Error;

    fn from_str(s: &str) -> Result<ExtXMedia, Error> {
        ExtXMedia::from_str(s)
    }
}

impl core::str::FromStr for ExtXStreamInf {
    type Err = Error;

    fn from_str(s: &str) -> Result<ExtXStreamInf, Error> {
        ExtXStreamInf::from_str(s)
    }
}

impl core::str::FromStr for ExtXIFrameStreamInf {
    type Err = Error;

    fn from_str(s: &str) -> Result<ExtXIFrameStreamInf, Error> {
        ExtXIFrameStreamInf::from_str(s)
    }
}

impl core::str::FromStr for ExtXSessionData {
    type Err = Error;

    fn from_str(s: &str) -> Result<ExtXSessionData, Error> {
        ExtXSessionData::from_str(s)
    }
}

impl core::str::FromStr for ExtXSessionKey {
    type Err = Error;

    fn from_str(s: &str) -> Result<ExtXSessionKey, Error> {
        ExtXSessionKey::from_str(s)
    }
}

impl core::str::FromStr for ExtXIndependentSegments {
    type Err = Error;

    fn from_str(s: &str) -> Result<ExtXIndependentSegments, Error> {
        ExtXIndependentSegments::from_str(s)
    }
}

impl core::str::FromStr for ExtXStart {
    type Err = Error;

    fn from_str(s: &str) -> Result<ExtXStart, Error> {
        ExtXStart::from_str(s)
    }
}

impl core::str::FromStr for Tag {
    type Err = Error;

    fn from_str(s: &str) -> Result<Tag, Error> {
        Tag::from_str(s)
    }
}

} // verus!
