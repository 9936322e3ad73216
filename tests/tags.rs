use hls_m3u8::basic::{ExtM3u, ExtXStart, ExtXVersion};
use hls_m3u8::decimal::{Duration, SignedDecimalFloatingPoint};
use hls_m3u8::error::ErrorKind;
use hls_m3u8::master::{
    ExtXIFrameStreamInf, ExtXMedia, ExtXSessionData, ExtXSessionKey, ExtXStreamInf, SessionData,
};
use hls_m3u8::media_playlist::{
    ExtXDiscontinuitySequence, ExtXMediaSequence, ExtXPlaylistType, ExtXTargetDuration,
};
use hls_m3u8::segment::{
    ExtInf, ExtXByteRange, ExtXDateRange, ExtXKey, ExtXMap, ExtXProgramDateTime,
};
use hls_m3u8::tag::{MediaSegmentTag, Tag, TagKind};
use hls_m3u8::tokens::{MediaType, PlaylistType, ProtocolVersion, YesOrNo};

fn reparsed(line: &str) -> String {
    let t = Tag::from_str(line).unwrap();
    let out = t.to_string();
    let again = Tag::from_str(&out).unwrap();
    assert_eq!(again.to_string(), out);
    out
}

#[test]
fn byte_range_with_offset() {
    let b = ExtXByteRange::from_str("#EXT-X-BYTERANGE:1024@512").unwrap();
    assert_eq!(b, ExtXByteRange { length: 1024, offset: Some(512) });
    assert_eq!(b.to_string(), "#EXT-X-BYTERANGE:1024@512");
}

#[test]
fn byte_range_without_offset() {
    let b = ExtXByteRange::from_str("#EXT-X-BYTERANGE:1024").unwrap();
    assert_eq!(b, ExtXByteRange { length: 1024, offset: None });
    assert_eq!(b.to_string(), "#EXT-X-BYTERANGE:1024");
    assert!(ExtXByteRange::from_str("#EXT-X-BYTERANGE:1024@").is_err());
    assert!(ExtXByteRange::from_str("#EXT-X-BYTERANGE:@5").is_err());
}

#[test]
fn key_versions_grow_with_attributes() {
    let k = ExtXKey::from_str("#EXT-X-KEY:METHOD=AES-128,URI=\"https://x/k\"").unwrap();
    assert_eq!(k.compatibility_version(), ProtocolVersion::V1);
    let k = ExtXKey::from_str(
        "#EXT-X-KEY:METHOD=AES-128,URI=\"https://x/k\",IV=0x0102030405060708090a0b0c0d0e0f10",
    )
    .unwrap();
    assert_eq!(k.iv.as_ref().unwrap().as_bytes().len(), 16);
    assert_eq!(k.compatibility_version(), ProtocolVersion::V2);
    let k = ExtXKey::from_str(
        "#EXT-X-KEY:METHOD=AES-128,URI=\"https://x/k\",IV=0x0102030405060708090a0b0c0d0e0f10,KEYFORMAT=\"id\"",
    )
    .unwrap();
    assert_eq!(k.compatibility_version(), ProtocolVersion::V5);
    assert_eq!(
        k.to_string(),
        "#EXT-X-KEY:METHOD=AES-128,URI=\"https://x/k\",IV=0x0102030405060708090A0B0C0D0E0F10,KEYFORMAT=\"id\""
    );
}

#[test]
fn key_method_and_uri_go_together() {
    assert!(ExtXKey::from_str("#EXT-X-KEY:METHOD=NONE").is_ok());
    assert!(ExtXKey::from_str("#EXT-X-KEY:METHOD=NONE,URI=\"k\"").is_err());
    assert!(ExtXKey::from_str("#EXT-X-KEY:METHOD=AES-128").is_err());
    assert!(ExtXKey::from_str("#EXT-X-KEY:URI=\"k\"").is_err());
    assert!(ExtXKey::from_str("#EXT-X-KEY:METHOD=AES-128,URI=\"k\",URI=\"j\"").is_err());
    assert!(ExtXKey::from_str("#EXT-X-KEY:METHOD=RSA,URI=\"k\"").is_err());
}

#[test]
fn session_data_needs_value_or_uri() {
    let e = ExtXSessionData::from_str("#EXT-X-SESSION-DATA:DATA-ID=\"x\"").unwrap_err();
    assert_eq!(e.kind(), ErrorKind::InvalidInput);
    let e = ExtXSessionData::from_str("#EXT-X-SESSION-DATA:DATA-ID=\"x\",VALUE=\"v\",URI=\"u\"")
        .unwrap_err();
    assert_eq!(e.kind(), ErrorKind::InvalidInput);
    let d = ExtXSessionData::from_str("#EXT-X-SESSION-DATA:DATA-ID=\"x\",VALUE=\"v\"").unwrap();
    assert!(matches!(d.data, SessionData::Value(_)));
    let d = ExtXSessionData::from_str(
        "#EXT-X-SESSION-DATA:URI=\"u\",DATA-ID=\"x\",LANGUAGE=\"en\"",
    )
    .unwrap();
    assert_eq!(
        d.to_string(),
        "#EXT-X-SESSION-DATA:DATA-ID=\"x\",URI=\"u\",LANGUAGE=\"en\""
    );
}

#[test]
fn start_omits_default_precise() {
    let off = SignedDecimalFloatingPoint::from_str("1.5").unwrap();
    let s = ExtXStart { time_offset: off, precise: YesOrNo::No };
    assert_eq!(s.to_string(), "#EXT-X-START:TIME-OFFSET=1.5");
    let s = ExtXStart { time_offset: off, precise: YesOrNo::Yes };
    assert_eq!(s.to_string(), "#EXT-X-START:TIME-OFFSET=1.5,PRECISE=YES");
    let p = ExtXStart::from_str("#EXT-X-START:TIME-OFFSET=-2,PRECISE=NO").unwrap();
    assert_eq!(p.precise, YesOrNo::No);
    assert_eq!(p.to_string(), "#EXT-X-START:TIME-OFFSET=-2");
    assert!(ExtXStart::from_str("#EXT-X-START:PRECISE=YES").is_err());
}

#[test]
fn inf_duration_keeps_milliseconds() {
    let i = ExtInf::from_str("#EXTINF:6.006,").unwrap();
    assert_eq!(i.duration, Duration::new(6, 6_000_000));
    assert_eq!(i.title.as_ref().unwrap().as_str(), "");
    assert_eq!(i.to_string(), "#EXTINF:6.006,");
    let j = ExtInf::from_str(&i.to_string()).unwrap();
    assert_eq!(j.duration, i.duration);
}

#[test]
fn inf_whole_duration_has_no_trailing_zero() {
    let i = ExtInf::from_str("#EXTINF:6.0").unwrap();
    assert_eq!(i.duration, Duration::new(6, 0));
    assert!(i.title.is_none());
    assert_eq!(i.to_string(), "#EXTINF:6");
    let j = ExtInf::from_str(&i.to_string()).unwrap();
    assert_eq!(j.duration, i.duration);
    let t = ExtInf::from_str("#EXTINF:10,Title, with comma").unwrap();
    assert_eq!(t.title.as_ref().unwrap().as_str(), "Title, with comma");
    assert!(ExtInf::from_str("#EXTINF:abc").is_err());
}

#[test]
fn dispatch_tells_similar_prefixes_apart() {
    assert!(matches!(
        Tag::from_str("#EXT-X-MEDIA-SEQUENCE:5").unwrap(),
        Tag::ExtXMediaSequence(ExtXMediaSequence { seq_num: 5 })
    ));
    assert!(matches!(
        Tag::from_str("#EXT-X-DISCONTINUITY-SEQUENCE:3").unwrap(),
        Tag::ExtXDiscontinuitySequence(ExtXDiscontinuitySequence { seq_num: 3 })
    ));
    assert!(matches!(
        Tag::from_str("#EXT-X-DISCONTINUITY").unwrap(),
        Tag::ExtXDiscontinuity(_)
    ));
    assert!(matches!(
        Tag::from_str("#EXT-X-MEDIA:TYPE=AUDIO,GROUP-ID=\"a\",NAME=\"n\"").unwrap(),
        Tag::ExtXMedia(_)
    ));
    assert!(matches!(
        Tag::from_str("#EXT-X-I-FRAMES-ONLY").unwrap(),
        Tag::ExtXIFramesOnly(_)
    ));
    assert!(matches!(
        Tag::from_str("#EXT-X-I-FRAME-STREAM-INF:URI=\"i.m3u8\",BANDWIDTH=1").unwrap(),
        Tag::ExtXIFrameStreamInf(_)
    ));
}

#[test]
fn unknown_tags_fail() {
    assert!(Tag::from_str("#EXT-X-UNKNOWN:1").is_err());
    assert!(Tag::from_str("#EXTM3U extra").is_err());
    assert!(Tag::from_str("").is_err());
    assert!(Tag::from_str("#EXT-X-ENDLIST:").is_err());
}

#[test]
fn tag_kinds() {
    assert_eq!(Tag::from_str("#EXTM3U").unwrap().kind(), TagKind::Basic);
    assert_eq!(Tag::from_str("#EXT-X-VERSION:3").unwrap().kind(), TagKind::Basic);
    assert_eq!(Tag::from_str("#EXTINF:5").unwrap().kind(), TagKind::MediaSegment);
    assert_eq!(Tag::from_str("#EXT-X-ENDLIST").unwrap().kind(), TagKind::MediaPlaylist);
    assert_eq!(
        Tag::from_str("#EXT-X-STREAM-INF:BANDWIDTH=1").unwrap().kind(),
        TagKind::MasterPlaylist
    );
    assert_eq!(
        Tag::from_str("#EXT-X-INDEPENDENT-SEGMENTS").unwrap().kind(),
        TagKind::MediaOrMasterPlaylist
    );
}

#[test]
fn media_rules() {
    assert!(ExtXMedia::from_str(
        "#EXT-X-MEDIA:TYPE=CLOSED-CAPTIONS,GROUP-ID=\"cc\",NAME=\"n\",URI=\"u\""
    )
    .is_err());
    assert!(ExtXMedia::from_str(
        "#EXT-X-MEDIA:TYPE=CLOSED-CAPTIONS,GROUP-ID=\"cc\",NAME=\"n\",URI=\"u\",INSTREAM-ID=\"CC1\""
    )
    .is_ok());
    assert!(ExtXMedia::from_str(
        "#EXT-X-MEDIA:TYPE=AUDIO,GROUP-ID=\"a\",NAME=\"n\",INSTREAM-ID=\"CC1\""
    )
    .is_err());
    assert!(ExtXMedia::from_str("#EXT-X-MEDIA:TYPE=AUDIO,GROUP-ID=\"a\",NAME=\"n\",FORCED=NO")
        .is_err());
    assert!(ExtXMedia::from_str(
        "#EXT-X-MEDIA:TYPE=SUBTITLES,GROUP-ID=\"s\",NAME=\"n\",FORCED=YES"
    )
    .is_ok());
    assert!(ExtXMedia::from_str("#EXT-X-MEDIA:TYPE=AUDIO,NAME=\"n\"").is_err());
}

#[test]
fn media_canonical_form() {
    let m = ExtXMedia::from_str(
        "#EXT-X-MEDIA:NAME=\"English\",DEFAULT=NO,AUTOSELECT=YES,TYPE=AUDIO,GROUP-ID=\"aud\",LANGUAGE=\"en\",X-CUSTOM=1",
    )
    .unwrap();
    assert_eq!(m.media_type, MediaType::Audio);
    assert_eq!(m.default, YesOrNo::No);
    assert_eq!(
        m.to_string(),
        "#EXT-X-MEDIA:TYPE=AUDIO,GROUP-ID=\"aud\",LANGUAGE=\"en\",NAME=\"English\",AUTOSELECT=YES"
    );
}

#[test]
fn date_range_rules_and_form() {
    assert!(ExtXDateRange::from_str(
        "#EXT-X-DATERANGE:ID=\"a\",START-DATE=\"2020-01-01\",END-ON-NEXT=YES"
    )
    .is_err());
    let d = ExtXDateRange::from_str(
        "#EXT-X-DATERANGE:END-ON-NEXT=YES,CLASS=\"c\",ID=\"a\",START-DATE=\"2020-01-01\",DURATION=10.5,PLANNED-DURATION=12",
    )
    .unwrap();
    assert_eq!(d.duration, Some(Duration::new(10, 500_000_000)));
    assert_eq!(
        d.to_string(),
        "#EXT-X-DATERANGE:ID=\"a\",CLASS=\"c\",START-DATE=\"2020-01-01\",DURATION=10.5,PLANNED-DURATION=12,END-ON-NEXT=YES"
    );
    assert!(ExtXDateRange::from_str("#EXT-X-DATERANGE:ID=\"a\"").is_err());
}

#[test]
fn stream_inf_canonical_form() {
    let line = "#EXT-X-STREAM-INF:BANDWIDTH=1280000,AVERAGE-BANDWIDTH=1000000,CODECS=\"avc1.4d401f,mp4a.40.2\",RESOLUTION=1280x720,FRAME-RATE=29.97,HDCP-LEVEL=NONE,AUDIO=\"aud\",CLOSED-CAPTIONS=NONE";
    let s = ExtXStreamInf::from_str(line).unwrap();
    assert_eq!(s.bandwidth.0, 1280000);
    assert_eq!(s.to_string(), line);
    assert!(ExtXStreamInf::from_str("#EXT-X-STREAM-INF:CODECS=\"a\"").is_err());
    assert!(ExtXStreamInf::from_str("#EXT-X-STREAM-INF:BANDWIDTH=x").is_err());
}

#[test]
fn i_frame_stream_inf_form() {
    let line = "#EXT-X-I-FRAME-STREAM-INF:URI=\"iframe.m3u8\",BANDWIDTH=86000,RESOLUTION=640x360,VIDEO=\"v\"";
    let s = ExtXIFrameStreamInf::from_str(line).unwrap();
    assert_eq!(s.to_string(), line);
    assert!(ExtXIFrameStreamInf::from_str("#EXT-X-I-FRAME-STREAM-INF:BANDWIDTH=1").is_err());
}

#[test]
fn session_key_form() {
    let k = ExtXSessionKey::from_str("#EXT-X-SESSION-KEY:URI=\"k\",METHOD=SAMPLE-AES").unwrap();
    assert_eq!(k.to_string(), "#EXT-X-SESSION-KEY:METHOD=SAMPLE-AES,URI=\"k\"");
    assert!(ExtXSessionKey::from_str("#EXT-X-SESSION-KEY:METHOD=AES-128").is_err());
    assert!(ExtXSessionKey::from_str("#EXT-X-SESSION-KEY:METHOD=NONE,URI=\"k\"").is_err());
}

#[test]
fn map_ignores_unknown_attributes() {
    let m = ExtXMap::from_str("#EXT-X-MAP:URI=\"init.mp4\",X-FOO=bar").unwrap();
    assert_eq!(m.uri.as_str(), "init.mp4");
    assert_eq!(m.to_string(), "#EXT-X-MAP:URI=\"init.mp4\"");
    let m = ExtXMap::from_str("#EXT-X-MAP:BYTERANGE=\"100@0\",URI=\"i\"").unwrap();
    assert_eq!(m.to_string(), "#EXT-X-MAP:URI=\"i\",BYTERANGE=\"100@0\"");
}

#[test]
fn scalar_tags() {
    let v = ExtXVersion::from_str("#EXT-X-VERSION:3").unwrap();
    assert_eq!(v.value(), ProtocolVersion::V3);
    assert_eq!(ExtXVersion::new(ProtocolVersion::V6).to_string(), "#EXT-X-VERSION:6");
    assert!(ExtXVersion::from_str("#EXT-X-VERSION:9").is_err());
    let t = ExtXTargetDuration::from_str("#EXT-X-TARGETDURATION:10").unwrap();
    assert_eq!(t.duration, Duration::from_secs(10));
    assert_eq!(t.to_string(), "#EXT-X-TARGETDURATION:10");
    assert!(ExtXTargetDuration::from_str("#EXT-X-TARGETDURATION:1.5").is_err());
    let p = ExtXPlaylistType::from_str("#EXT-X-PLAYLIST-TYPE:VOD").unwrap();
    assert_eq!(p.playlist_type, PlaylistType::Vod);
    assert_eq!(p.to_string(), "#EXT-X-PLAYLIST-TYPE:VOD");
    let d = ExtXProgramDateTime::from_str("#EXT-X-PROGRAM-DATE-TIME:2010-02-19T14:54:23.031+08:00")
        .unwrap();
    assert_eq!(d.date_time_msec, "2010-02-19T14:54:23.031+08:00");
    assert_eq!(d.to_string(), "#EXT-X-PROGRAM-DATE-TIME:2010-02-19T14:54:23.031+08:00");
    assert!(ExtM3u::from_str("#EXTM3U").is_ok());
    assert_eq!(ExtM3u.to_string(), "#EXTM3U");
}

#[test]
fn lines_reparse_to_the_same_text() {
    assert_eq!(reparsed("#EXT-X-KEY:URI=\"k\",METHOD=AES-128"), "#EXT-X-KEY:METHOD=AES-128,URI=\"k\"");
    assert_eq!(reparsed("#EXTINF:9.009000,a"), "#EXTINF:9.009,a");
    assert_eq!(reparsed("#EXT-X-MEDIA-SEQUENCE:007"), "#EXT-X-MEDIA-SEQUENCE:7");
    assert_eq!(reparsed("#EXT-X-START:PRECISE=YES,TIME-OFFSET=-0.50"), "#EXT-X-START:TIME-OFFSET=-0.5,PRECISE=YES");
    assert_eq!(reparsed("#EXT-X-ENDLIST"), "#EXT-X-ENDLIST");
}

#[test]
fn media_segment_tag_accessors() {
    let t = MediaSegmentTag::ExtInf(ExtInf::from_str("#EXTINF:4,x").unwrap());
    assert!(t.as_inf().is_some());
    assert!(t.as_key().is_none());
    assert!(t.as_byte_range().is_none());
    assert!(t.as_date_range().is_none());
    assert!(t.as_discontinuity().is_none());
    assert!(t.as_map().is_none());
    assert!(t.as_program_date_time().is_none());
    assert_eq!(t.to_string(), "#EXTINF:4,x");
    let b = MediaSegmentTag::ExtXByteRange(ExtXByteRange { length: 3, offset: None });
    assert_eq!(b.as_byte_range(), Some(&ExtXByteRange { length: 3, offset: None }));
    assert_eq!(b.to_string(), "#EXT-X-BYTERANGE:3");
}

#[test]
fn std_parse_and_from() {
    let t: Tag = "#EXT-X-ENDLIST".parse().unwrap();
    assert_eq!(t.kind(), TagKind::MediaPlaylist);
    let k: ExtXKey = "#EXT-X-KEY:METHOD=NONE".parse().unwrap();
    assert!(k.uri.is_none());
    let m: MediaSegmentTag = ExtXByteRange { length: 7, offset: Some(1) }.into();
    assert_eq!(m.to_string(), "#EXT-X-BYTERANGE:7@1");
    assert!("#EXT-X-KEY:METHOD=AES-128".parse::<ExtXKey>().is_err());
}
