use vstd::prelude::*;
use crate::attr::{
    body, ccv, dv, dv_exec, field_cc, field_float, field_hdcp_level, field_media_type, field_quoted,
    field_resolution, field_session_encryption_method, field_u64, field_yes_or_no, hv,
    lemma_field_cc, lemma_field_float, lemma_field_hdcp_level, lemma_field_hex,
    lemma_field_media_type, lemma_field_quoted, lemma_field_resolution,
    lemma_field_session_encryption_method, lemma_field_u64, lemma_field_yes_or_no,
    opt_hdcp_level_text, opt_yes_or_no_text, yes_only, field_hex, lemma_body, opt_cc_string,
    opt_cc_text, opt_decimal_string, opt_decimal_text, opt_float_string, opt_float_text,
    opt_hex_string, opt_hex_text, opt_quotable, opt_quoted_string, opt_quoted_text,
    opt_resolution_string, opt_resolution_text, qv, strip_prefix,
};
use crate::decimal::{DecimalFloatingPoint, DecimalResolution, lemma_parsed_float_wf, parse_float};
use crate::error::Error;
use crate::pairs::{
    attribute_pairs, attrs_text, canon_ok, canon_view, find_attr, name_ok, lemma_canon_round_trip,
    lookup, present, tokenize, value_ok, write_attrs,
};
use crate::text::decimal;
use crate::tokens::{
    ClosedCaptions, HdcpLevel, MediaType, SessionEncryptionMethod, YesOrNo, closed_captions_ok,
};
use crate::value::{DecimalInteger, HexadecimalSequence, QuotedString, quotable, quoted_text};

verus! {

broadcast use vstd::string::group_string_axioms;

/// `#EXT-X-STREAM-INF`: a variant stream of a master playlist.
#[derive(Debug, Clone)]
pub struct ExtXStreamInf {
    pub bandwidth: DecimalInteger,
    pub average_bandwidth: Option<DecimalInteger>,
    pub codecs: Option<QuotedString>,
    pub resolution: Option<DecimalResolution>,
    pub frame_rate: Option<DecimalFloatingPoint>,
    pub hdcp_level: Option<HdcpLevel>,
    pub audio: Option<QuotedString>,
    pub video: Option<QuotedString>,
    pub subtitles: Option<QuotedString>,
    pub closed_captions: Option<ClosedCaptions>,
}

pub struct ExtXStreamInfView {
    pub bandwidth: u64,
    pub average_bandwidth: Option<u64>,
    pub codecs: Option<Seq<char>>,
    pub resolution: Option<DecimalResolution>,
    pub frame_rate: Option<DecimalFloatingPoint>,
    pub hdcp_level: Option<HdcpLevel>,
    pub audio: Option<Seq<char>>,
    pub video: Option<Seq<char>>,
    pub subtitles: Option<Seq<char>>,
    pub closed_captions: Option<Option<Seq<char>>>,
}

impl View for ExtXStreamInf {
    type V = ExtXStreamInfView;

    open spec fn view(&self) -> ExtXStreamInfView {
        ExtXStreamInfView {
            bandwidth: self.bandwidth.0,
            average_bandwidth: dv(self.average_bandwidth),
            codecs: qv(self.codecs),
            resolution: self.resolution,
            frame_rate: self.frame_rate,
            hdcp_level: self.hdcp_level,
            audio: qv(self.audio),
            video: qv(self.video),
            subtitles: qv(self.subtitles),
            closed_captions: ccv(self.closed_captions),
        }
    }
}

/// The attributes of `#EXT-X-STREAM-INF`, in the order they are written.
pub open spec fn stream_inf_canon(v: ExtXStreamInfView) -> Seq<(Seq<char>, Option<Seq<char>>)> {
    seq![
        ("BANDWIDTH"@, Some(decimal(v.bandwidth as nat))),
        ("AVERAGE-BANDWIDTH"@, opt_decimal_text(v.average_bandwidth)),
        ("CODECS"@, opt_quoted_text(v.codecs)),
        ("RESOLUTION"@, opt_resolution_text(v.resolution)),
        ("FRAME-RATE"@, opt_float_text(v.frame_rate)),
        ("HDCP-LEVEL"@, opt_hdcp_level_text(v.hdcp_level)),
        ("AUDIO"@, opt_quoted_text(v.audio)),
        ("VIDEO"@, opt_quoted_text(v.video)),
        ("SUBTITLES"@, opt_quoted_text(v.subtitles)),
        ("CLOSED-CAPTIONS"@, opt_cc_text(v.closed_captions)),
    ]
}

pub open spec fn stream_inf_text(v: ExtXStreamInfView) -> Seq<char> {
    "#EXT-X-STREAM-INF:"@ + attrs_text(present(stream_inf_canon(v)))
}

pub open spec fn stream_inf_ok(v: ExtXStreamInfView) -> bool {
    &&& opt_quotable(v.codecs)
    &&& (v.resolution matches Some(r) ==> r.wf())
    &&& (v.frame_rate matches Some(f) ==> f.wf())
    &&& opt_quotable(v.audio)
    &&& opt_quotable(v.video)
    &&& opt_quotable(v.subtitles)
    &&& (v.closed_captions matches Some(c) ==> closed_captions_ok(c))
}

pub open spec fn stream_inf_from_pairs(
    ps: Seq<(Seq<char>, Seq<char>)>,
) -> Option<ExtXStreamInfView> {
    let bandwidth = field_u64(lookup(ps, "BANDWIDTH"@));
    let average_bandwidth = field_u64(lookup(ps, "AVERAGE-BANDWIDTH"@));
    let codecs = field_quoted(lookup(ps, "CODECS"@));
    let resolution = field_resolution(lookup(ps, "RESOLUTION"@));
    let frame_rate = field_float(lookup(ps, "FRAME-RATE"@));
    let hdcp_level = field_hdcp_level(lookup(ps, "HDCP-LEVEL"@));
    let audio = field_quoted(lookup(ps, "AUDIO"@));
    let video = field_quoted(lookup(ps, "VIDEO"@));
    let subtitles = field_quoted(lookup(ps, "SUBTITLES"@));
    let closed_captions = field_cc(lookup(ps, "CLOSED-CAPTIONS"@));
    if bandwidth is Some && bandwidth->0 is Some && average_bandwidth is Some && codecs is Some
        && resolution is Some && frame_rate is Some && hdcp_level is Some && audio is Some
        && video is Some && subtitles is Some && closed_captions is Some {
        let v = ExtXStreamInfView {
            bandwidth: bandwidth->0->0,
            average_bandwidth: average_bandwidth->0,
            codecs: codecs->0,
            resolution: resolution->0,
            frame_rate: frame_rate->0,
            hdcp_level: hdcp_level->0,
            audio: audio->0,
            video: video->0,
            subtitles: subtitles->0,
            closed_captions: closed_captions->0,
        };
        Some(v)
    } else {
        None
    }
}

pub open spec fn parse_stream_inf(line: Seq<char>) -> Option<ExtXStreamInfView> {
    match body(line, "#EXT-X-STREAM-INF:"@) {
        Some(b) => match tokenize(b) {
            Some(ps) => stream_inf_from_pairs(ps),
            None => None,
        },
        None => None,
    }
}

proof fn lemma_stream_inf_canon_ok(v: ExtXStreamInfView)
    requires
        stream_inf_ok(v),
    ensures
        canon_ok(stream_inf_canon(v)),
{
    reveal_strlit("AUDIO");
    reveal_strlit("AVERAGE-BANDWIDTH");
    reveal_strlit("BANDWIDTH");
    reveal_strlit("CLOSED-CAPTIONS");
    reveal_strlit("CODECS");
    reveal_strlit("FRAME-RATE");
    reveal_strlit("HDCP-LEVEL");
    reveal_strlit("RESOLUTION");
    reveal_strlit("SUBTITLES");
    reveal_strlit("VIDEO");
    let c = stream_inf_canon(v);
    lemma_field_u64(Some(v.bandwidth));
    lemma_field_u64(v.average_bandwidth);
    lemma_field_quoted(v.codecs);
    lemma_field_resolution(v.resolution);
    lemma_field_float(v.frame_rate);
    lemma_field_hdcp_level(v.hdcp_level);
    lemma_field_quoted(v.audio);
    lemma_field_quoted(v.video);
    lemma_field_quoted(v.subtitles);
    lemma_field_cc(v.closed_captions);
    assert("BANDWIDTH"@[0] != "SUBTITLES"@[0]);
    assert("RESOLUTION"@[0] != "FRAME-RATE"@[0]);
    assert("RESOLUTION"@[0] != "HDCP-LEVEL"@[0]);
    assert("FRAME-RATE"@[0] != "HDCP-LEVEL"@[0]);
    assert("AUDIO"@[0] != "VIDEO"@[0]);
    assert(forall|i: int| 0 <= i < c.len() ==> name_ok(#[trigger] c[i].0));
    assert(forall|i: int|
        0 <= i < c.len() ==> (#[trigger] c[i].1 is Some ==> value_ok(c[i].1->0)));
    assert(forall|i: int, j: int| 0 <= i < j < c.len() ==> c[i].0 != c[j].0);
}

/// A well-formed `#EXT-X-STREAM-INF` written out reads back as itself.
pub proof fn lemma_stream_inf_round_trip(v: ExtXStreamInfView)
    requires
        stream_inf_ok(v),
    ensures
        parse_stream_inf(stream_inf_text(v)) == Some(v),
{
    let c = stream_inf_canon(v);
    lemma_stream_inf_canon_ok(v);
    lemma_canon_round_trip(c);
    lemma_field_u64(Some(v.bandwidth));
    lemma_field_u64(v.average_bandwidth);
    lemma_field_quoted(v.codecs);
    lemma_field_resolution(v.resolution);
    lemma_field_float(v.frame_rate);
    lemma_field_hdcp_level(v.hdcp_level);
    lemma_field_quoted(v.audio);
    lemma_field_quoted(v.video);
    lemma_field_quoted(v.subtitles);
    lemma_field_cc(v.closed_captions);
    lemma_body("#EXT-X-STREAM-INF:"@, attrs_text(present(c)));
    let ps = present(c);
    assert(lookup(ps, c[0].0) == c[0].1);
    assert(lookup(ps, c[1].0) == c[1].1);
    assert(lookup(ps, c[2].0) == c[2].1);
    assert(lookup(ps, c[3].0) == c[3].1);
    assert(lookup(ps, c[4].0) == c[4].1);
    assert(lookup(ps, c[5].0) == c[5].1);
    assert(lookup(ps, c[6].0) == c[6].1);
    assert(lookup(ps, c[7].0) == c[7].1);
    assert(lookup(ps, c[8].0) == c[8].1);
    assert(lookup(ps, c[9].0) == c[9].1);
}

/// What parses as `#EXT-X-STREAM-INF` is well formed.
pub proof fn lemma_stream_inf_parsed_ok(line: Seq<char>)
    requires
        parse_stream_inf(line) is Some,
    ensures
        stream_inf_ok(parse_stream_inf(line)->0),
{
    let ps = tokenize(body(line, "#EXT-X-STREAM-INF:"@)->0)->0;
    if let Some(s) = lookup(ps, "FRAME-RATE"@) {
        if parse_float(s) is Some {
            lemma_parsed_float_wf(s);
        }
    }
}

impl ExtXStreamInf {
    pub open spec fn wf(&self) -> bool {
        stream_inf_ok(self@)
    }

    pub fn from_str(s: &str) -> (r: Result<ExtXStreamInf, Error>)
        ensures
            match r {
                Ok(v) => parse_stream_inf(s@) == Some(v@) && v.wf(),
                Err(_) => parse_stream_inf(s@) is None,
            },
    {
        let b = match strip_prefix(s, "#EXT-X-STREAM-INF:") {
            Some(b) => b,
            None => {
                return Err(Error::invalid_input(s));
            },
        };
        let pairs = attribute_pairs(b)?;
        let bandwidth = match find_attr(&pairs, "BANDWIDTH") {
            Some(raw) => Some(DecimalInteger::from_str(raw)?),
            None => None,
        };
        let average_bandwidth = match find_attr(&pairs, "AVERAGE-BANDWIDTH") {
            Some(raw) => Some(DecimalInteger::from_str(raw)?),
            None => None,
        };
        let codecs = match find_attr(&pairs, "CODECS") {
            Some(raw) => Some(QuotedString::from_str(raw)?),
            None => None,
        };
        let resolution = match find_attr(&pairs, "RESOLUTION") {
            Some(raw) => Some(DecimalResolution::from_str(raw)?),
            None => None,
        };
        let frame_rate = match find_attr(&pairs, "FRAME-RATE") {
            Some(raw) => Some(DecimalFloatingPoint::from_str(raw)?),
            None => None,
        };
        let hdcp_level = match find_attr(&pairs, "HDCP-LEVEL") {
            Some(raw) => Some(HdcpLevel::from_str(raw)?),
            None => None,
        };
        let audio = match find_attr(&pairs, "AUDIO") {
            Some(raw) => Some(QuotedString::from_str(raw)?),
            None => None,
        };
        let video = match find_attr(&pairs, "VIDEO") {
            Some(raw) => Some(QuotedString::from_str(raw)?),
            None => None,
        };
        let subtitles = match find_attr(&pairs, "SUBTITLES") {
            Some(raw) => Some(QuotedString::from_str(raw)?),
            None => None,
        };
        let closed_captions = match find_attr(&pairs, "CLOSED-CAPTIONS") {
            Some(raw) => Some(ClosedCaptions::from_str(raw)?),
            None => None,
        };
        let bandwidth = match bandwidth {
            Some(x) => x,
            None => {
                return Err(Error::invalid_input("BANDWIDTH"));
            },
        };
        let v = ExtXStreamInf {
            bandwidth,
            average_bandwidth,
            codecs,
            resolution,
            frame_rate,
            hdcp_level,
            audio,
            video,
            subtitles,
            closed_captions,
        };
        proof {
            lemma_stream_inf_parsed_ok(s@);
        }
        Ok(v)
    }

    pub fn to_string(&self) -> (r: String)
        requires
            self.wf(),
        ensures
            r@ == stream_inf_text(self@),
    {
        let mut c: Vec<(&str, Option<String>)> = Vec::new();
        c.push(("BANDWIDTH", Some(self.bandwidth.to_string())));
        c.push(("AVERAGE-BANDWIDTH", opt_decimal_string(dv_exec(self.average_bandwidth))));
        c.push(("CODECS", opt_quoted_string(&self.codecs)));
        c.push(("RESOLUTION", opt_resolution_string(self.resolution)));
        c.push(("FRAME-RATE", opt_float_string(self.frame_rate)));
        c.push(("HDCP-LEVEL", match &self.hdcp_level {
            Some(x) => Some(x.to_string()),
            None => None,
        }));
        c.push(("AUDIO", opt_quoted_string(&self.audio)));
        c.push(("VIDEO", opt_quoted_string(&self.video)));
        c.push(("SUBTITLES", opt_quoted_string(&self.subtitles)));
        c.push(("CLOSED-CAPTIONS", opt_cc_string(&self.closed_captions)));
        let mut out = String::new();
        out.append("#EXT-X-STREAM-INF:");
        write_attrs(&mut out, &c);
        assert(canon_view(c@) =~= stream_inf_canon(self@));
        out
    }
}

/// `#EXT-X-I-FRAME-STREAM-INF`: a stream of I-frames only.
#[derive(Debug, Clone)]
pub struct ExtXIFrameStreamInf {
    pub uri: QuotedString,
    pub bandwidth: DecimalInteger,
    pub average_bandwidth: Option<DecimalInteger>,
    pub codecs: Option<QuotedString>,
    pub resolution: Option<DecimalResolution>,
    pub hdcp_level: Option<HdcpLevel>,
    pub video: Option<QuotedString>,
}

pub struct ExtXIFrameStreamInfView {
    pub uri: Seq<char>,
    pub bandwidth: u64,
    pub average_bandwidth: Option<u64>,
    pub codecs: Option<Seq<char>>,
    pub resolution: Option<DecimalResolution>,
    pub hdcp_level: Option<HdcpLevel>,
    pub video: Option<Seq<char>>,
}

impl View for ExtXIFrameStreamInf {
    type V = ExtXIFrameStreamInfView;

    open spec fn view(&self) -> ExtXIFrameStreamInfView {
        ExtXIFrameStreamInfView {
            uri: self.uri@,
            bandwidth: self.bandwidth.0,
            average_bandwidth: dv(self.average_bandwidth),
            codecs: qv(self.codecs),
            resolution: self.resolution,
            hdcp_level: self.hdcp_level,
            video: qv(self.video),
        }
    }
}

/// The attributes of `#EXT-X-I-FRAME-STREAM-INF`, in the order they are written.
pub open spec fn i_frame_stream_inf_canon(v: ExtXIFrameStreamInfView) -> Seq<
    (Seq<char>, Option<Seq<char>>),
> {
    seq![
        ("URI"@, Some(quoted_text(v.uri))),
        ("BANDWIDTH"@, Some(decimal(v.bandwidth as nat))),
        ("AVERAGE-BANDWIDTH"@, opt_decimal_text(v.average_bandwidth)),
        ("CODECS"@, opt_quoted_text(v.codecs)),
        ("RESOLUTION"@, opt_resolution_text(v.resolution)),
        ("HDCP-LEVEL"@, opt_hdcp_level_text(v.hdcp_level)),
        ("VIDEO"@, opt_quoted_text(v.video)),
    ]
}

pub open spec fn i_frame_stream_inf_text(v: ExtXIFrameStreamInfView) -> Seq<char> {
    "#EXT-X-I-FRAME-STREAM-INF:"@ + attrs_text(present(i_frame_stream_inf_canon(v)))
}

pub open spec fn i_frame_stream_inf_ok(v: ExtXIFrameStreamInfView) -> bool {
    &&& quotable(v.uri)
    &&& opt_quotable(v.codecs)
    &&& (v.resolution matches Some(r) ==> r.wf())
    &&& opt_quotable(v.video)
}

pub open spec fn i_frame_stream_inf_from_pairs(
    ps: Seq<(Seq<char>, Seq<char>)>,
) -> Option<ExtXIFrameStreamInfView> {
    let uri = field_quoted(lookup(ps, "URI"@));
    let bandwidth = field_u64(lookup(ps, "BANDWIDTH"@));
    let average_bandwidth = field_u64(lookup(ps, "AVERAGE-BANDWIDTH"@));
    let codecs = field_quoted(lookup(ps, "CODECS"@));
    let resolution = field_resolution(lookup(ps, "RESOLUTION"@));
    let hdcp_level = field_hdcp_level(lookup(ps, "HDCP-LEVEL"@));
    let video = field_quoted(lookup(ps, "VIDEO"@));
    if uri is Some && uri->0 is Some && bandwidth is Some && bandwidth->0 is Some
        && average_bandwidth is Some && codecs is Some && resolution is Some
        && hdcp_level is Some && video is Some {
        let v = ExtXIFrameStreamInfView {
            uri: uri->0->0,
            bandwidth: bandwidth->0->0,
            average_bandwidth: average_bandwidth->0,
            codecs: codecs->0,
            resolution: resolution->0,
            hdcp_level: hdcp_level->0,
            video: video->0,
        };
        Some(v)
    } else {
        None
    }
}

pub open spec fn parse_i_frame_stream_inf(line: Seq<char>) -> Option<ExtXIFrameStreamInfView> {
    match body(line, "#EXT-X-I-FRAME-STREAM-INF:"@) {
        Some(b) => match tokenize(b) {
            Some(ps) => i_frame_stream_inf_from_pairs(ps),
            None => None,
        },
        None => None,
    }
}

proof fn lemma_i_frame_stream_inf_canon_ok(v: ExtXIFrameStreamInfView)
    requires
        i_frame_stream_inf_ok(v),
    ensures
        canon_ok(i_frame_stream_inf_canon(v)),
{
    reveal_strlit("AVERAGE-BANDWIDTH");
    reveal_strlit("BANDWIDTH");
    reveal_strlit("CODECS");
    reveal_strlit("HDCP-LEVEL");
    reveal_strlit("RESOLUTION");
    reveal_strlit("URI");
    reveal_strlit("VIDEO");
    let c = i_frame_stream_inf_canon(v);
    lemma_field_quoted(Some(v.uri));
    lemma_field_u64(Some(v.bandwidth));
    lemma_field_u64(v.average_bandwidth);
    lemma_field_quoted(v.codecs);
    lemma_field_resolution(v.resolution);
    lemma_field_hdcp_level(v.hdcp_level);
    lemma_field_quoted(v.video);
    assert("RESOLUTION"@[0] != "HDCP-LEVEL"@[0]);
    assert(forall|i: int| 0 <= i < c.len() ==> name_ok(#[trigger] c[i].0));
    assert(forall|i: int|
        0 <= i < c.len() ==> (#[trigger] c[i].1 is Some ==> value_ok(c[i].1->0)));
    assert(forall|i: int, j: int| 0 <= i < j < c.len() ==> c[i].0 != c[j].0);
}

/// A well-formed `#EXT-X-I-FRAME-STREAM-INF` written out reads back as itself.
pub proof fn lemma_i_frame_stream_inf_round_trip(v: ExtXIFrameStreamInfView)
    requires
        i_frame_stream_inf_ok(v),
    ensures
        parse_i_frame_stream_inf(i_frame_stream_inf_text(v)) == Some(v),
{
    let c = i_frame_stream_inf_canon(v);
    lemma_i_frame_stream_inf_canon_ok(v);
    lemma_canon_round_trip(c);
    lemma_field_quoted(Some(v.uri));
    lemma_field_u64(Some(v.bandwidth));
    lemma_field_u64(v.average_bandwidth);
    lemma_field_quoted(v.codecs);
    lemma_field_resolution(v.resolution);
    lemma_field_hdcp_level(v.hdcp_level);
    lemma_field_quoted(v.video);
    lemma_body("#EXT-X-I-FRAME-STREAM-INF:"@, attrs_text(present(c)));
    let ps = present(c);
    assert(lookup(ps, c[0].0) == c[0].1);
    assert(lookup(ps, c[1].0) == c[1].1);
    assert(lookup(ps, c[2].0) == c[2].1);
    assert(lookup(ps, c[3].0) == c[3].1);
    assert(lookup(ps, c[4].0) == c[4].1);
    assert(lookup(ps, c[5].0) == c[5].1);
    assert(lookup(ps, c[6].0) == c[6].1);
}

/// What parses as `#EXT-X-I-FRAME-STREAM-INF` is well formed.
pub proof fn lemma_i_frame_stream_inf_parsed_ok(line: Seq<char>)
    requires
        parse_i_frame_stream_inf(line) is Some,
    ensures
        i_frame_stream_inf_ok(parse_i_frame_stream_inf(line)->0),
{
}

impl ExtXIFrameStreamInf {
    pub open spec fn wf(&self) -> bool {
        i_frame_stream_inf_ok(self@)
    }

    pub fn from_str(s: &str) -> (r: Result<ExtXIFrameStreamInf, Error>)
        ensures
            match r {
                Ok(v) => parse_i_frame_stream_inf(s@) == Some(v@) && v.wf(),
                Err(_) => parse_i_frame_stream_inf(s@) is None,
            },
    {
        let b = match strip_prefix(s, "#EXT-X-I-FRAME-STREAM-INF:") {
            Some(b) => b,
            None => {
                return Err(Error::invalid_input(s));
            },
        };
        let pairs = attribute_pairs(b)?;
        let uri = match find_attr(&pairs, "URI") {
            Some(raw) => Some(QuotedString::from_str(raw)?),
            None => None,
        };
        let bandwidth = match find_attr(&pairs, "BANDWIDTH") {
            Some(raw) => Some(DecimalInteger::from_str(raw)?),
            None => None,
        };
        let average_bandwidth = match find_attr(&pairs, "AVERAGE-BANDWIDTH") {
            Some(raw) => Some(DecimalInteger::from_str(raw)?),
            None => None,
        };
        let codecs = match find_attr(&pairs, "CODECS") {
            Some(raw) => Some(QuotedString::from_str(raw)?),
            None => None,
        };
        let resolution = match find_attr(&pairs, "RESOLUTION") {
            Some(raw) => Some(DecimalResolution::from_str(raw)?),
            None => None,
        };
        let hdcp_level = match find_attr(&pairs, "HDCP-LEVEL") {
            Some(raw) => Some(HdcpLevel::from_str(raw)?),
            None => None,
        };
        let video = match find_attr(&pairs, "VIDEO") {
            Some(raw) => Some(QuotedString::from_str(raw)?),
            None => None,
        };
        let uri = match uri {
            Some(x) => x,
            None => {
                return Err(Error::invalid_input("URI"));
            },
        };
        let bandwidth = match bandwidth {
            Some(x) => x,
            None => {
                return Err(Error::invalid_input("BANDWIDTH"));
            },
        };
        let v = ExtXIFrameStreamInf {
            uri,
            bandwidth,
            average_bandwidth,
            codecs,
            resolution,
            hdcp_level,
            video,
        };
        proof {
            lemma_i_frame_stream_inf_parsed_ok(s@);
        }
        Ok(v)
    }

    pub fn to_string(&self) -> (r: String)
        ensures
            r@ == i_frame_stream_inf_text(self@),
    {
        let mut c: Vec<(&str, Option<String>)> = Vec::new();
        c.push(("URI", Some(self.uri.to_string())));
        c.push(("BANDWIDTH", Some(self.bandwidth.to_string())));
        c.push(("AVERAGE-BANDWIDTH", opt_decimal_string(dv_exec(self.average_bandwidth))));
        c.push(("CODECS", opt_quoted_string(&self.codecs)));
        c.push(("RESOLUTION", opt_resolution_string(self.resolution)));
        c.push(("HDCP-LEVEL", match &self.hdcp_level {
            Some(x) => Some(x.to_string()),
            None => None,
        }));
        c.push(("VIDEO", opt_quoted_string(&self.video)));
        let mut out = String::new();
        out.append("#EXT-X-I-FRAME-STREAM-INF:");
        write_attrs(&mut out, &c);
        assert(canon_view(c@) =~= i_frame_stream_inf_canon(self@));
        out
    }
}

/// `#EXT-X-MEDIA`: an alternative rendition of the content.
#[derive(Debug, Clone)]
pub struct ExtXMedia {
    pub media_type: MediaType,
    pub uri: Option<QuotedString>,
    pub group_id: QuotedString,
    pub language: Option<QuotedString>,
    pub assoc_language: Option<QuotedString>,
    pub name: QuotedString,
    pub default: YesOrNo,
    pub autoselect: YesOrNo,
    pub forced: Option<YesOrNo>,
    pub instream_id: Option<QuotedString>,
    pub characteristics: Option<QuotedString>,
    pub channels: Option<QuotedString>,
}

pub struct ExtXMediaView {
    pub media_type: MediaType,
    pub uri: Option<Seq<char>>,
    pub group_id: Seq<char>,
    pub language: Option<Seq<char>>,
    pub assoc_language: Option<Seq<char>>,
    pub name: Seq<char>,
    pub default: YesOrNo,
    pub autoselect: YesOrNo,
    pub forced: Option<YesOrNo>,
    pub instream_id: Option<Seq<char>>,
    pub characteristics: Option<Seq<char>>,
    pub channels: Option<Seq<char>>,
}

impl View for ExtXMedia {
    type V = ExtXMediaView;

    open spec fn view(&self) -> ExtXMediaView {
        ExtXMediaView {
            media_type: self.media_type,
            uri: qv(self.uri),
            group_id: self.group_id@,
            language: qv(self.language),
            assoc_language: qv(self.assoc_language),
            name: self.name@,
            default: self.default,
            autoselect: self.autoselect,
            forced: self.forced,
            instream_id: qv(self.instream_id),
            characteristics: qv(self.characteristics),
            channels: qv(self.channels),
        }
    }
}

/// The attributes of `#EXT-X-MEDIA`, in the order they are written.
pub open spec fn media_canon(v: ExtXMediaView) -> Seq<(Seq<char>, Option<Seq<char>>)> {
    seq![
        ("TYPE"@, Some(v.media_type.text())),
        ("URI"@, opt_quoted_text(v.uri)),
        ("GROUP-ID"@, Some(quoted_text(v.group_id))),
        ("LANGUAGE"@, opt_quoted_text(v.language)),
        ("ASSOC-LANGUAGE"@, opt_quoted_text(v.assoc_language)),
        ("NAME"@, Some(quoted_text(v.name))),
        ("DEFAULT"@, opt_yes_or_no_text(yes_only(v.default))),
        ("AUTOSELECT"@, opt_yes_or_no_text(yes_only(v.autoselect))),
        ("FORCED"@, opt_yes_or_no_text(v.forced)),
        ("INSTREAM-ID"@, opt_quoted_text(v.instream_id)),
        ("CHARACTERISTICS"@, opt_quoted_text(v.characteristics)),
        ("CHANNELS"@, opt_quoted_text(v.channels)),
    ]
}

pub open spec fn media_text(v: ExtXMediaView) -> Seq<char> {
    "#EXT-X-MEDIA:"@ + attrs_text(present(media_canon(v)))
}

/// Closed captions need a URI and an in-stream id, which no other type may have;
/// only subtitles may be forced.
pub open spec fn media_rules(v: ExtXMediaView) -> bool {
    &&& (v.media_type == MediaType::ClosedCaptions ==> v.uri is Some && v.instream_id is Some)
    &&& (v.media_type != MediaType::ClosedCaptions ==> v.instream_id is None)
    &&& (v.media_type != MediaType::Subtitles ==> v.forced is None)
}

pub open spec fn media_ok(v: ExtXMediaView) -> bool {
    &&& opt_quotable(v.uri)
    &&& quotable(v.group_id)
    &&& opt_quotable(v.language)
    &&& opt_quotable(v.assoc_language)
    &&& quotable(v.name)
    &&& opt_quotable(v.instream_id)
    &&& opt_quotable(v.characteristics)
    &&& opt_quotable(v.channels)
    &&& media_rules(v)
}

pub open spec fn media_from_pairs(ps: Seq<(Seq<char>, Seq<char>)>) -> Option<ExtXMediaView> {
    let media_type = field_media_type(lookup(ps, "TYPE"@));
    let uri = field_quoted(lookup(ps, "URI"@));
    let group_id = field_quoted(lookup(ps, "GROUP-ID"@));
    let language = field_quoted(lookup(ps, "LANGUAGE"@));
    let assoc_language = field_quoted(lookup(ps, "ASSOC-LANGUAGE"@));
    let name = field_quoted(lookup(ps, "NAME"@));
    let default = field_yes_or_no(lookup(ps, "DEFAULT"@));
    let autoselect = field_yes_or_no(lookup(ps, "AUTOSELECT"@));
    let forced = field_yes_or_no(lookup(ps, "FORCED"@));
    let instream_id = field_quoted(lookup(ps, "INSTREAM-ID"@));
    let characteristics = field_quoted(lookup(ps, "CHARACTERISTICS"@));
    let channels = field_quoted(lookup(ps, "CHANNELS"@));
    if media_type is Some && media_type->0 is Some && uri is Some && group_id is Some
        && group_id->0 is Some && language is Some && assoc_language is Some && name is Some
        && name->0 is Some && default is Some && autoselect is Some && forced is Some
        && instream_id is Some && characteristics is Some && channels is Some {
        let v = ExtXMediaView {
            media_type: media_type->0->0,
            uri: uri->0,
            group_id: group_id->0->0,
            language: language->0,
            assoc_language: assoc_language->0,
            name: name->0->0,
            default: match default->0 { Some(y) => y, None => YesOrNo::No },
            autoselect: match autoselect->0 { Some(y) => y, None => YesOrNo::No },
            forced: forced->0,
            instream_id: instream_id->0,
            characteristics: characteristics->0,
            channels: channels->0,
        };
        if media_rules(v) {
            Some(v)
        } else {
            None
        }
    } else {
        None
    }
}

pub open spec fn parse_media(line: Seq<char>) -> Option<ExtXMediaView> {
    match body(line, "#EXT-X-MEDIA:"@) {
        Some(b) => match tokenize(b) {
            Some(ps) => media_from_pairs(ps),
            None => None,
        },
        None => None,
    }
}

proof fn lemma_media_canon_ok(v: ExtXMediaView)
    requires
        media_ok(v),
    ensures
        canon_ok(media_canon(v)),
{
    reveal_strlit("ASSOC-LANGUAGE");
    reveal_strlit("AUTOSELECT");
    reveal_strlit("CHANNELS");
    reveal_strlit("CHARACTERISTICS");
    reveal_strlit("DEFAULT");
    reveal_strlit("FORCED");
    reveal_strlit("GROUP-ID");
    reveal_strlit("INSTREAM-ID");
    reveal_strlit("LANGUAGE");
    reveal_strlit("NAME");
    reveal_strlit("TYPE");
    reveal_strlit("URI");
    let c = media_canon(v);
    lemma_field_media_type(Some(v.media_type));
    lemma_field_quoted(v.uri);
    lemma_field_quoted(Some(v.group_id));
    lemma_field_quoted(v.language);
    lemma_field_quoted(v.assoc_language);
    lemma_field_quoted(Some(v.name));
    lemma_field_yes_or_no(yes_only(v.default));
    lemma_field_yes_or_no(yes_only(v.autoselect));
    lemma_field_yes_or_no(v.forced);
    lemma_field_quoted(v.instream_id);
    lemma_field_quoted(v.characteristics);
    lemma_field_quoted(v.channels);
    assert("TYPE"@[0] != "NAME"@[0]);
    assert("GROUP-ID"@[0] != "LANGUAGE"@[0]);
    assert("GROUP-ID"@[0] != "CHANNELS"@[0]);
    assert("LANGUAGE"@[0] != "CHANNELS"@[0]);
    assert(forall|i: int| 0 <= i < c.len() ==> name_ok(#[trigger] c[i].0));
    assert(forall|i: int|
        0 <= i < c.len() ==> (#[trigger] c[i].1 is Some ==> value_ok(c[i].1->0)));
    assert(forall|i: int, j: int| 0 <= i < j < c.len() ==> c[i].0 != c[j].0);
}

/// A well-formed `#EXT-X-MEDIA` written out reads back as itself.
pub proof fn lemma_media_round_trip(v: ExtXMediaView)
    requires
        media_ok(v),
    ensures
        parse_media(media_text(v)) == Some(v),
{
    let c = media_canon(v);
    lemma_media_canon_ok(v);
    lemma_canon_round_trip(c);
    lemma_field_media_type(Some(v.media_type));
    lemma_field_quoted(v.uri);
    lemma_field_quoted(Some(v.group_id));
    lemma_field_quoted(v.language);
    lemma_field_quoted(v.assoc_language);
    lemma_field_quoted(Some(v.name));
    lemma_field_yes_or_no(yes_only(v.default));
    lemma_field_yes_or_no(yes_only(v.autoselect));
    lemma_field_yes_or_no(v.forced);
    lemma_field_quoted(v.instream_id);
    lemma_field_quoted(v.characteristics);
    lemma_field_quoted(v.channels);
    lemma_body("#EXT-X-MEDIA:"@, attrs_text(present(c)));
    let ps = present(c);
    assert(lookup(ps, c[0].0) == c[0].1);
    assert(lookup(ps, c[1].0) == c[1].1);
    assert(lookup(ps, c[2].0) == c[2].1);
    assert(lookup(ps, c[3].0) == c[3].1);
    assert(lookup(ps, c[4].0) == c[4].1);
    assert(lookup(ps, c[5].0) == c[5].1);
    assert(lookup(ps, c[6].0) == c[6].1);
    assert(lookup(ps, c[7].0) == c[7].1);
    assert(lookup(ps, c[8].0) == c[8].1);
    assert(lookup(ps, c[9].0) == c[9].1);
    assert(lookup(ps, c[10].0) == c[10].1);
    assert(lookup(ps, c[11].0) == c[11].1);
}

/// What parses as `#EXT-X-MEDIA` is well formed.
pub proof fn lemma_media_parsed_ok(line: Seq<char>)
    requires
        parse_media(line) is Some,
    ensures
        media_ok(parse_media(line)->0),
{
}

impl ExtXMedia {
    pub open spec fn wf(&self) -> bool {
        media_ok(self@)
    }

    pub fn from_str(s: &str) -> (r: Result<ExtXMedia, Error>)
        ensures
            match r {
                Ok(v) => parse_media(s@) == Some(v@) && v.wf(),
                Err(_) => parse_media(s@) is None,
            },
    {
        let b = match strip_prefix(s, "#EXT-X-MEDIA:") {
            Some(b) => b,
            None => {
                return Err(Error::invalid_input(s));
            },
        };
        let pairs = attribute_pairs(b)?;
        let media_type = match find_attr(&pairs, "TYPE") {
            Some(raw) => Some(MediaType::from_str(raw)?),
            None => None,
        };
        let uri = match find_attr(&pairs, "URI") {
            Some(raw) => Some(QuotedString::from_str(raw)?),
            None => None,
        };
        let group_id = match find_attr(&pairs, "GROUP-ID") {
            Some(raw) => Some(QuotedString::from_str(raw)?),
            None => None,
        };
        let language = match find_attr(&pairs, "LANGUAGE") {
            Some(raw) => Some(QuotedString::from_str(raw)?),
            None => None,
        };
        let assoc_language = match find_attr(&pairs, "ASSOC-LANGUAGE") {
            Some(raw) => Some(QuotedString::from_str(raw)?),
            None => None,
        };
        let name = match find_attr(&pairs, "NAME") {
            Some(raw) => Some(QuotedString::from_str(raw)?),
            None => None,
        };
        let default = match find_attr(&pairs, "DEFAULT") {
            Some(raw) => Some(YesOrNo::from_str(raw)?),
            None => None,
        };
        let autoselect = match find_attr(&pairs, "AUTOSELECT") {
            Some(raw) => Some(YesOrNo::from_str(raw)?),
            None => None,
        };
        let forced = match find_attr(&pairs, "FORCED") {
            Some(raw) => Some(YesOrNo::from_str(raw)?),
            None => None,
        };
        let instream_id = match find_attr(&pairs, "INSTREAM-ID") {
            Some(raw) => Some(QuotedString::from_str(raw)?),
            None => None,
        };
        let characteristics = match find_attr(&pairs, "CHARACTERISTICS") {
            Some(raw) => Some(QuotedString::from_str(raw)?),
            None => None,
        };
        let channels = match find_attr(&pairs, "CHANNELS") {
            Some(raw) => Some(QuotedString::from_str(raw)?),
            None => None,
        };
        let media_type = match media_type {
            Some(x) => x,
            None => {
                return Err(Error::invalid_input("TYPE"));
            },
        };
        let group_id = match group_id {
            Some(x) => x,
            None => {
                return Err(Error::invalid_input("GROUP-ID"));
            },
        };
        let name = match name {
            Some(x) => x,
            None => {
                return Err(Error::invalid_input("NAME"));
            },
        };
        let default = match default {
            Some(x) => x,
            None => YesOrNo::No,
        };
        let autoselect = match autoselect {
            Some(x) => x,
            None => YesOrNo::No,
        };
        let v = ExtXMedia {
            media_type,
            uri,
            group_id,
            language,
            assoc_language,
            name,
            default,
            autoselect,
            forced,
            instream_id,
            characteristics,
            channels,
        };
        let captions = v.media_type == MediaType::ClosedCaptions;
        if (captions && (v.uri.is_none() || v.instream_id.is_none())) || (!captions
            && v.instream_id.is_some()) {
            return Err(Error::invalid_input("INSTREAM-ID"));
        }
        if v.media_type != MediaType::Subtitles && v.forced.is_some() {
            return Err(Error::invalid_input("FORCED"));
        }
        proof {
            lemma_media_parsed_ok(s@);
        }
        Ok(v)
    }

    pub fn to_string(&self) -> (r: String)
        ensures
            r@ == media_text(self@),
    {
        let mut c: Vec<(&str, Option<String>)> = Vec::new();
        c.push(("TYPE", Some(self.media_type.to_string())));
        c.push(("URI", opt_quoted_string(&self.uri)));
        c.push(("GROUP-ID", Some(self.group_id.to_string())));
        c.push(("LANGUAGE", opt_quoted_string(&self.language)));
        c.push(("ASSOC-LANGUAGE", opt_quoted_string(&self.assoc_language)));
        c.push(("NAME", Some(self.name.to_string())));
        c.push(("DEFAULT", if self.default == YesOrNo::Yes {
            Some(self.default.to_string())
        } else {
            None
        }));
        c.push(("AUTOSELECT", if self.autoselect == YesOrNo::Yes {
            Some(self.autoselect.to_string())
        } else {
            None
        }));
        c.push(("FORCED", match &self.forced {
            Some(x) => Some(x.to_string()),
            None => None,
        }));
        c.push(("INSTREAM-ID", opt_quoted_string(&self.instream_id)));
        c.push(("CHARACTERISTICS", opt_quoted_string(&self.characteristics)));
        c.push(("CHANNELS", opt_quoted_string(&self.channels)));
        let mut out = String::new();
        out.append("#EXT-X-MEDIA:");
        write_attrs(&mut out, &c);
        assert(canon_view(c@) =~= media_canon(self@));
        out
    }
}

/// `#EXT-X-SESSION-KEY`: an encryption key that a master playlist announces ahead.
#[derive(Debug, Clone)]
pub struct ExtXSessionKey {
    pub method: SessionEncryptionMethod,
    pub uri: QuotedString,
    pub iv: Option<HexadecimalSequence>,
    pub key_format: Option<QuotedString>,
    pub key_format_versions: Option<QuotedString>,
}

pub struct ExtXSessionKeyView {
    pub method: SessionEncryptionMethod,
    pub uri: Seq<char>,
    pub iv: Option<Seq<u8>>,
    pub key_format: Option<Seq<char>>,
    pub key_format_versions: Option<Seq<char>>,
}

impl View for ExtXSessionKey {
    type V = ExtXSessionKeyView;

    open spec fn view(&self) -> ExtXSessionKeyView {
        ExtXSessionKeyView {
            method: self.method,
            uri: self.uri@,
            iv: hv(self.iv),
            key_format: qv(self.key_format),
            key_format_versions: qv(self.key_format_versions),
        }
    }
}

/// The attributes of `#EXT-X-SESSION-KEY`, in the order they are written.
pub open spec fn session_key_canon(v: ExtXSessionKeyView) -> Seq<(Seq<char>, Option<Seq<char>>)> {
    seq![
        ("METHOD"@, Some(v.method.text())),
        ("URI"@, Some(quoted_text(v.uri))),
        ("IV"@, opt_hex_text(v.iv)),
        ("KEYFORMAT"@, opt_quoted_text(v.key_format)),
        ("KEYFORMATVERSIONS"@, opt_quoted_text(v.key_format_versions)),
    ]
}

pub open spec fn session_key_text(v: ExtXSessionKeyView) -> Seq<char> {
    "#EXT-X-SESSION-KEY:"@ + attrs_text(present(session_key_canon(v)))
}

pub open spec fn session_key_ok(v: ExtXSessionKeyView) -> bool {
    &&& quotable(v.uri)
    &&& opt_quotable(v.key_format)
    &&& opt_quotable(v.key_format_versions)
}

pub open spec fn session_key_from_pairs(
    ps: Seq<(Seq<char>, Seq<char>)>,
) -> Option<ExtXSessionKeyView> {
    let method = field_session_encryption_method(lookup(ps, "METHOD"@));
    let uri = field_quoted(lookup(ps, "URI"@));
    let iv = field_hex(lookup(ps, "IV"@));
    let key_format = field_quoted(lookup(ps, "KEYFORMAT"@));
    let key_format_versions = field_quoted(lookup(ps, "KEYFORMATVERSIONS"@));
    if method is Some && method->0 is Some && uri is Some && uri->0 is Some && iv is Some
        && key_format is Some && key_format_versions is Some {
        let v = ExtXSessionKeyView {
            method: method->0->0,
            uri: uri->0->0,
            iv: iv->0,
            key_format: key_format->0,
            key_format_versions: key_format_versions->0,
        };
        Some(v)
    } else {
        None
    }
}

pub open spec fn parse_session_key(line: Seq<char>) -> Option<ExtXSessionKeyView> {
    match body(line, "#EXT-X-SESSION-KEY:"@) {
        Some(b) => match tokenize(b) {
            Some(ps) => session_key_from_pairs(ps),
            None => None,
        },
        None => None,
    }
}

proof fn lemma_session_key_canon_ok(v: ExtXSessionKeyView)
    requires
        session_key_ok(v),
    ensures
        canon_ok(session_key_canon(v)),
{
    reveal_strlit("IV");
    reveal_strlit("KEYFORMAT");
    reveal_strlit("KEYFORMATVERSIONS");
    reveal_strlit("METHOD");
    reveal_strlit("URI");
    let c = session_key_canon(v);
    lemma_field_session_encryption_method(Some(v.method));
    lemma_field_quoted(Some(v.uri));
    lemma_field_hex(v.iv);
    lemma_field_quoted(v.key_format);
    lemma_field_quoted(v.key_format_versions);
    assert(forall|i: int| 0 <= i < c.len() ==> name_ok(#[trigger] c[i].0));
    assert(forall|i: int|
        0 <= i < c.len() ==> (#[trigger] c[i].1 is Some ==> value_ok(c[i].1->0)));
    assert(forall|i: int, j: int| 0 <= i < j < c.len() ==> c[i].0 != c[j].0);
}

/// A well-formed `#EXT-X-SESSION-KEY` written out reads back as itself.
pub proof fn lemma_session_key_round_trip(v: ExtXSessionKeyView)
    requires
        session_key_ok(v),
    ensures
        parse_session_key(session_key_text(v)) == Some(v),
{
    let c = session_key_canon(v);
    lemma_session_key_canon_ok(v);
    lemma_canon_round_trip(c);
    lemma_field_session_encryption_method(Some(v.method));
    lemma_field_quoted(Some(v.uri));
    lemma_field_hex(v.iv);
    lemma_field_quoted(v.key_format);
    lemma_field_quoted(v.key_format_versions);
    lemma_body("#EXT-X-SESSION-KEY:"@, attrs_text(present(c)));
    let ps = present(c);
    assert(lookup(ps, c[0].0) == c[0].1);
    assert(lookup(ps, c[1].0) == c[1].1);
    assert(lookup(ps, c[2].0) == c[2].1);
    assert(lookup(ps, c[3].0) == c[3].1);
    assert(lookup(ps, c[4].0) == c[4].1);
}

/// What parses as `#EXT-X-SESSION-KEY` is well formed.
pub proof fn lemma_session_key_parsed_ok(line: Seq<char>)
    requires
        parse_session_key(line) is Some,
    ensures
        session_key_ok(parse_session_key(line)->0),
{
}

impl ExtXSessionKey {
    pub open spec fn wf(&self) -> bool {
        session_key_ok(self@)
    }

    pub fn from_str(s: &str) -> (r: Result<ExtXSessionKey, Error>)
        ensures
            match r {
                Ok(v) => parse_session_key(s@) == Some(v@) && v.wf(),
                Err(_) => parse_session_key(s@) is None,
            },
    {
        let b = match strip_prefix(s, "#EXT-X-SESSION-KEY:") {
            Some(b) => b,
            None => {
                return Err(Error::invalid_input(s));
            },
        };
        let pairs = attribute_pairs(b)?;
        let method = match find_attr(&pairs, "METHOD") {
            Some(raw) => Some(SessionEncryptionMethod::from_str(raw)?),
            None => None,
        };
        let uri = match find_attr(&pairs, "URI") {
            Some(raw) => Some(QuotedString::from_str(raw)?),
            None => None,
        };
        let iv = match find_attr(&pairs, "IV") {
            Some(raw) => Some(HexadecimalSequence::from_str(raw)?),
            None => None,
        };
        let key_format = match find_attr(&pairs, "KEYFORMAT") {
            Some(raw) => Some(QuotedString::from_str(raw)?),
            None => None,
        };
        let key_format_versions = match find_attr(&pairs, "KEYFORMATVERSIONS") {
            Some(raw) => Some(QuotedString::from_str(raw)?),
            None => None,
        };
        let method = match method {
            Some(x) => x,
            None => {
                return Err(Error::invalid_input("METHOD"));
            },
        };
        let uri = match uri {
            Some(x) => x,
            None => {
                return Err(Error::invalid_input("URI"));
            },
        };
        let v = ExtXSessionKey { method, uri, iv, key_format, key_format_versions };
        proof {
            lemma_session_key_parsed_ok(s@);
        }
        Ok(v)
    }

    pub fn to_string(&self) -> (r: String)
        ensures
            r@ == session_key_text(self@),
    {
        let mut c: Vec<(&str, Option<String>)> = Vec::new();
        c.push(("METHOD", Some(self.method.to_string())));
        c.push(("URI", Some(self.uri.to_string())));
        c.push(("IV", opt_hex_string(&self.iv)));
        c.push(("KEYFORMAT", opt_quoted_string(&self.key_format)));
        c.push(("KEYFORMATVERSIONS", opt_quoted_string(&self.key_format_versions)));
        let mut out = String::new();
        out.append("#EXT-X-SESSION-KEY:");
        write_attrs(&mut out, &c);
        assert(canon_view(c@) =~= session_key_canon(self@));
        out
    }
}

/// The payload of a session data entry: a value, or a URI where it can be fetched.
#[derive(Debug, Clone)]
pub enum SessionData {
    Value(QuotedString),
    Uri(QuotedString),
}

pub enum SessionDataView {
    Value(Seq<char>),
    Uri(Seq<char>),
}

impl View for SessionData {
    type V = SessionDataView;

    open spec fn view(&self) -> SessionDataView {
        match self {
            SessionData::Value(q) => SessionDataView::Value(q@),
            SessionData::Uri(q) => SessionDataView::Uri(q@),
        }
    }
}

/// `#EXT-X-SESSION-DATA`: a piece of data carried by a master playlist.
#[derive(Debug, Clone)]
pub struct ExtXSessionData {
    pub data_id: QuotedString,
    pub data: SessionData,
    pub language: Option<QuotedString>,
}

pub struct ExtXSessionDataView {
    pub data_id: Seq<char>,
    pub data: SessionDataView,
    pub language: Option<Seq<char>>,
}

impl View for ExtXSessionData {
    type V = ExtXSessionDataView;

    open spec fn view(&self) -> ExtXSessionDataView {
        ExtXSessionDataView { data_id: self.data_id@, data: self.data@, language: qv(self.language) }
    }
}

pub open spec fn data_value(d: SessionDataView) -> Option<Seq<char>> {
    match d {
        SessionDataView::Value(q) => Some(q),
        SessionDataView::Uri(_) => None,
    }
}

pub open spec fn data_uri(d: SessionDataView) -> Option<Seq<char>> {
    match d {
        SessionDataView::Value(_) => None,
        SessionDataView::Uri(q) => Some(q),
    }
}

/// The attributes of `#EXT-X-SESSION-DATA`, in the order they are written.
pub open spec fn session_data_canon(v: ExtXSessionDataView) -> Seq<(Seq<char>, Option<Seq<char>>)> {
    seq![
        ("DATA-ID"@, Some(quoted_text(v.data_id))),
        ("VALUE"@, opt_quoted_text(data_value(v.data))),
        ("URI"@, opt_quoted_text(data_uri(v.data))),
        ("LANGUAGE"@, opt_quoted_text(v.language)),
    ]
}

pub open spec fn session_data_text(v: ExtXSessionDataView) -> Seq<char> {
    "#EXT-X-SESSION-DATA:"@ + attrs_text(present(session_data_canon(v)))
}

pub open spec fn session_data_ok(v: ExtXSessionDataView) -> bool {
    &&& quotable(v.data_id)
    &&& opt_quotable(data_value(v.data))
    &&& opt_quotable(data_uri(v.data))
    &&& opt_quotable(v.language)
}

/// Exactly one of `VALUE` and `URI` must be given.
pub open spec fn session_data_from_pairs(ps: Seq<(Seq<char>, Seq<char>)>) -> Option<
    ExtXSessionDataView,
> {
    let data_id = field_quoted(lookup(ps, "DATA-ID"@));
    let value = field_quoted(lookup(ps, "VALUE"@));
    let uri = field_quoted(lookup(ps, "URI"@));
    let language = field_quoted(lookup(ps, "LANGUAGE"@));
    if data_id is Some && data_id->0 is Some && value is Some && uri is Some && language is Some
        && (value->0 is Some) != (uri->0 is Some) {
        Some(
            ExtXSessionDataView {
                data_id: data_id->0->0,
                data: if value->0 is Some {
                    SessionDataView::Value(value->0->0)
                } else {
                    SessionDataView::Uri(uri->0->0)
                },
                language: language->0,
            },
        )
    } else {
        None
    }
}

pub open spec fn parse_session_data(line: Seq<char>) -> Option<ExtXSessionDataView> {
    match body(line, "#EXT-X-SESSION-DATA:"@) {
        Some(b) => match tokenize(b) {
            Some(ps) => session_data_from_pairs(ps),
            None => None,
        },
        None => None,
    }
}

proof fn lemma_session_data_canon_ok(v: ExtXSessionDataView)
    requires
        session_data_ok(v),
    ensures
        canon_ok(session_data_canon(v)),
{
    reveal_strlit("DATA-ID");
    reveal_strlit("VALUE");
    reveal_strlit("URI");
    reveal_strlit("LANGUAGE");
    let c = session_data_canon(v);
    lemma_field_quoted(Some(v.data_id));
    lemma_field_quoted(data_value(v.data));
    lemma_field_quoted(data_uri(v.data));
    lemma_field_quoted(v.language);
    assert(forall|i: int| 0 <= i < c.len() ==> name_ok(#[trigger] c[i].0));
    assert(forall|i: int| 0 <= i < c.len() ==> (#[trigger] c[i].1 is Some ==> value_ok(c[i].1->0)));
    assert(forall|i: int, j: int| 0 <= i < j < c.len() ==> c[i].0 != c[j].0);
}

/// A well-formed `#EXT-X-SESSION-DATA` written out reads back as itself.
pub proof fn lemma_session_data_round_trip(v: ExtXSessionDataView)
    requires
        session_data_ok(v),
    ensures
        parse_session_data(session_data_text(v)) == Some(v),
{
    let c = session_data_canon(v);
    lemma_session_data_canon_ok(v);
    lemma_canon_round_trip(c);
    lemma_field_quoted(Some(v.data_id));
    lemma_field_quoted(data_value(v.data));
    lemma_field_quoted(data_uri(v.data));
    lemma_field_quoted(v.language);
    lemma_body("#EXT-X-SESSION-DATA:"@, attrs_text(present(c)));
    let ps = present(c);
    assert(lookup(ps, c[0].0) == c[0].1);
    assert(lookup(ps, c[1].0) == c[1].1);
    assert(lookup(ps, c[2].0) == c[2].1);
    assert(lookup(ps, c[3].0) == c[3].1);
}

/// What parses as `#EXT-X-SESSION-DATA` is well formed.
pub proof fn lemma_session_data_parsed_ok(line: Seq<char>)
    requires
        parse_session_data(line) is Some,
    ensures
        session_data_ok(parse_session_data(line)->0),
{
}

impl ExtXSessionData {
    pub open spec fn wf(&self) -> bool {
        session_data_ok(self@)
    }

    pub fn from_str(s: &str) -> (r: Result<ExtXSessionData, Error>)
        ensures
            match r {
                Ok(v) => parse_session_data(s@) == Some(v@) && v.wf(),
                Err(_) => parse_session_data(s@) is None,
            },
    {
        let b = match strip_prefix(s, "#EXT-X-SESSION-DATA:") {
            Some(b) => b,
            None => {
                return Err(Error::invalid_input(s));
            },
        };
        let pairs = attribute_pairs(b)?;
        let data_id = match find_attr(&pairs, "DATA-ID") {
            Some(raw) => Some(QuotedString::from_str(raw)?),
            None => None,
        };
        let value = match find_attr(&pairs, "VALUE") {
            Some(raw) => Some(QuotedString::from_str(raw)?),
            None => None,
        };
        let uri = match find_attr(&pairs, "URI") {
            Some(raw) => Some(QuotedString::from_str(raw)?),
            None => None,
        };
        let language = match find_attr(&pairs, "LANGUAGE") {
            Some(raw) => Some(QuotedString::from_str(raw)?),
            None => None,
        };
        let data_id = match data_id {
            Some(x) => x,
            None => {
                return Err(Error::invalid_input("DATA-ID"));
            },
        };
        let data = match (value, uri) {
            (Some(x), None) => SessionData::Value(x),
            (None, Some(x)) => SessionData::Uri(x),
            _ => {
                return Err(Error::invalid_input("VALUE"));
            },
        };
        let v = ExtXSessionData { data_id, data, language };
        proof {
            lemma_session_data_parsed_ok(s@);
        }
        Ok(v)
    }

    pub fn to_string(&self) -> (r: String)
        ensures
            r@ == session_data_text(self@),
    {
        let mut c: Vec<(&str, Option<String>)> = Vec::new();
        c.push(("DATA-ID", Some(self.data_id.to_string())));
        match &self.data {
            SessionData::Value(x) => {
                c.push(("VALUE", Some(x.to_string())));
                c.push(("URI", None));
            },
            SessionData::Uri(x) => {
                c.push(("VALUE", None));
                c.push(("URI", Some(x.to_string())));
            },
        }
        c.push(("LANGUAGE", opt_quoted_string(&self.language)));
        let mut out = String::new();
        out.append("#EXT-X-SESSION-DATA:");
        write_attrs(&mut out, &c);
        assert(canon_view(c@) =~= session_data_canon(self@));
        out
    }
}

} // verus!
