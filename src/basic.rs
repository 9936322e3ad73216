use vstd::prelude::*;
use crate::attr::{
    body, field_signed, field_yes_or_no, lemma_body, lemma_field_signed, lemma_field_yes_or_no,
    opt_yes_or_no_text, strip_prefix, yes_only,
};
use crate::decimal::{
    SignedDecimalFloatingPoint, lemma_parsed_float_wf, parse_float, signed_float_text,
};
use crate::error::Error;
use crate::pairs::{
    attribute_pairs, attrs_text, canon_ok, canon_view, find_attr, name_ok, lemma_canon_round_trip,
    lookup, present, tokenize, value_ok, write_attrs,
};
use crate::text::{append_decimal, decimal, str_eq};
use crate::tokens::{ProtocolVersion, Yes, YesOrNo};

verus! {

broadcast use vstd::string::group_string_axioms;

/// `#EXTM3U`: the first line of every playlist.
#[derive(Debug, Clone, Copy, PartialEq, Eq, Structural)]
pub struct ExtM3u;

/// Exactly the line `#EXTM3U`.
pub open spec fn parse_m3u(line: Seq<char>) -> Option<ExtM3u> {
    if line == "#EXTM3U"@ {
        Some(ExtM3u)
    } else {
        None
    }
}

pub open spec fn m3u_text() -> Seq<char> {
    "#EXTM3U"@
}

impl ExtM3u {
    pub fn from_str(s: &str) -> (r: Result<ExtM3u, Error>)
        ensures
            match r {
                Ok(v) => parse_m3u(s@) == Some(v),
                Err(_) => parse_m3u(s@) is None,
            },
    {
        if str_eq(s, "#EXTM3U") {
            Ok(ExtM3u)
        } else {
            Err(Error::invalid_input(s))
        }
    }

    pub fn to_string(&self) -> (r: String)
        ensures
            r@ == m3u_text(),
    {
        "#EXTM3U".to_owned()
    }
}

/// `#EXT-X-VERSION`: the protocol version that the playlist needs.
#[derive(Debug, Clone, Copy, PartialEq, Eq, Structural)]
pub struct ExtXVersion {
    version: ProtocolVersion,
}

impl View for ExtXVersion {
    type V = ProtocolVersion;

    closed spec fn view(&self) -> ProtocolVersion {
        self.version
    }
}

/// A version number from 1 to 7 after the prefix.
pub open spec fn parse_version(line: Seq<char>) -> Option<ProtocolVersion> {
    match body(line, "#EXT-X-VERSION:"@) {
        Some(b) => ProtocolVersion::spec_parse(b),
        None => None,
    }
}

pub open spec fn version_text(v: ProtocolVersion) -> Seq<char> {
    "#EXT-X-VERSION:"@ + v.text()
}

/// A version written out reads back as itself.
pub proof fn lemma_version_round_trip(v: ProtocolVersion)
    ensures
        parse_version(version_text(v)) == Some(v),
{
    lemma_body("#EXT-X-VERSION:"@, v.text());
    v.lemma_text();
}

impl ExtXVersion {
    pub fn new(version: ProtocolVersion) -> (r: ExtXVersion)
        ensures
            r@ == version,
    {
        ExtXVersion { version }
    }

    pub fn value(&self) -> (r: ProtocolVersion)
        ensures
            r == self@,
    {
        self.version
    }

    pub fn from_str(s: &str) -> (r: Result<ExtXVersion, Error>)
        ensures
            match r {
                Ok(v) => parse_version(s@) == Some(v@),
                Err(_) => parse_version(s@) is None,
            },
    {
        let b = match strip_prefix(s, "#EXT-X-VERSION:") {
            Some(b) => b,
            None => {
                return Err(Error::invalid_input(s));
            },
        };
        let version = ProtocolVersion::from_str(b)?;
        Ok(ExtXVersion { version })
    }

    pub fn to_string(&self) -> (r: String)
        ensures
            r@ == version_text(self@),
    {
        let mut out = String::new();
        out.append("#EXT-X-VERSION:");
        append_decimal(&mut out, self.version.number_of());
        out
    }
}

/// `#EXT-X-INDEPENDENT-SEGMENTS`: each media segment can be decoded on its own.
#[derive(Debug, Clone, Copy, PartialEq, Eq, Structural)]
pub struct ExtXIndependentSegments;

/// Exactly the line `#EXT-X-INDEPENDENT-SEGMENTS`.
pub open spec fn parse_independent_segments(line: Seq<char>) -> Option<ExtXIndependentSegments> {
    if line == "#EXT-X-INDEPENDENT-SEGMENTS"@ {
        Some(ExtXIndependentSegments)
    } else {
        None
    }
}

pub open spec fn independent_segments_text() -> Seq<char> {
    "#EXT-X-INDEPENDENT-SEGMENTS"@
}

impl ExtXIndependentSegments {
    pub fn from_str(s: &str) -> (r: Result<ExtXIndependentSegments, Error>)
        ensures
            match r {
                Ok(v) => parse_independent_segments(s@) == Some(v),
                Err(_) => parse_independent_segments(s@) is None,
            },
    {
        if str_eq(s, "#EXT-X-INDEPENDENT-SEGMENTS") {
            Ok(ExtXIndependentSegments)
        } else {
            Err(Error::invalid_input(s))
        }
    }

    pub fn to_string(&self) -> (r: String)
        ensures
            r@ == independent_segments_text(),
    {
        "#EXT-X-INDEPENDENT-SEGMENTS".to_owned()
    }
}

/// `#EXT-X-START`: where playback should preferably start.
#[derive(Debug, Clone)]
pub struct ExtXStart {
    pub time_offset: SignedDecimalFloatingPoint,
    pub precise: YesOrNo,
}

pub struct ExtXStartView {
    pub time_offset: SignedDecimalFloatingPoint,
    pub precise: YesOrNo,
}

impl View for ExtXStart {
    type V = ExtXStartView;

    open spec fn view(&self) -> ExtXStartView {
        ExtXStartView {
            time_offset: self.time_offset,
            precise: self.precise,
        }
    }
}

/// The attributes of `#EXT-X-START`, in the order they are written.
pub open spec fn start_canon(v: ExtXStartView) -> Seq<(Seq<char>, Option<Seq<char>>)> {
    seq![
        ("TIME-OFFSET"@, Some(signed_float_text(v.time_offset))),
        ("PRECISE"@, opt_yes_or_no_text(yes_only(v.precise))),
    ]
}

pub open spec fn start_text(v: ExtXStartView) -> Seq<char> {
    "#EXT-X-START:"@ + attrs_text(present(start_canon(v)))
}

pub open spec fn start_ok(v: ExtXStartView) -> bool {
    &&& v.time_offset.wf()
}

pub open spec fn start_from_pairs(ps: Seq<(Seq<char>, Seq<char>)>) -> Option<ExtXStartView> {
    let time_offset = field_signed(lookup(ps, "TIME-OFFSET"@));
    let precise = field_yes_or_no(lookup(ps, "PRECISE"@));
    if time_offset is Some && time_offset->0 is Some && precise is Some {
        let v = ExtXStartView {
            time_offset: time_offset->0->0,
            precise: match precise->0 { Some(y) => y, None => YesOrNo::No },
        };
        Some(v)
    } else {
        None
    }
}

pub open spec fn parse_start(line: Seq<char>) -> Option<ExtXStartView> {
    match body(line, "#EXT-X-START:"@) {
        Some(b) => match tokenize(b) {
            Some(ps) => start_from_pairs(ps),
            None => None,
        },
        None => None,
    }
}

proof fn lemma_start_canon_ok(v: ExtXStartView)
    requires
        start_ok(v),
    ensures
        canon_ok(start_canon(v)),
{
    reveal_strlit("PRECISE");
    reveal_strlit("TIME-OFFSET");
    let c = start_canon(v);
    lemma_field_signed(Some(v.time_offset));
    lemma_field_yes_or_no(yes_only(v.precise));
    assert(forall|i: int| 0 <= i < c.len() ==> name_ok(#[trigger] c[i].0));
    assert(forall|i: int|
        0 <= i < c.len() ==> (#[trigger] c[i].1 is Some ==> value_ok(c[i].1->0)));
    assert(forall|i: int, j: int| 0 <= i < j < c.len() ==> c[i].0 != c[j].0);
}

/// A well-formed `#EXT-X-START` written out reads back as itself.
pub proof fn lemma_start_round_trip(v: ExtXStartView)
    requires
        start_ok(v),
    ensures
        parse_start(start_text(v)) == Some(v),
{
    let c = start_canon(v);
    lemma_start_canon_ok(v);
    lemma_canon_round_trip(c);
    lemma_field_signed(Some(v.time_offset));
    lemma_field_yes_or_no(yes_only(v.precise));
    lemma_body("#EXT-X-START:"@, attrs_text(present(c)));
    let ps = present(c);
    assert(lookup(ps, c[0].0) == c[0].1);
    assert(lookup(ps, c[1].0) == c[1].1);
}

/// What parses as `#EXT-X-START` is well formed.
pub proof fn lemma_start_parsed_ok(line: Seq<char>)
    requires
        parse_start(line) is Some,
    ensures
        start_ok(parse_start(line)->0),
{
    let ps = tokenize(body(line, "#EXT-X-START:"@)->0)->0;
    if let Some(s) = lookup(ps, "TIME-OFFSET"@) {
        if s.len() > 0 && s[0] == '-' {
            if parse_float(s.skip(1)) is Some {
                lemma_parsed_float_wf(s.skip(1));
            }
        } else if parse_float(s) is Some {
            lemma_parsed_float_wf(s);
        }
    }
}

impl ExtXStart {
    pub open spec fn wf(&self) -> bool {
        start_ok(self@)
    }

    pub fn from_str(s: &str) -> (r: Result<ExtXStart, Error>)
        ensures
            match r {
                Ok(v) => parse_start(s@) == Some(v@) && v.wf(),
                Err(_) => parse_start(s@) is None,
            },
    {
        let b = match strip_prefix(s, "#EXT-X-START:") {
            Some(b) => b,
            None => {
                return Err(Error::invalid_input(s));
            },
        };
        let pairs = attribute_pairs(b)?;
        let time_offset = match find_attr(&pairs, "TIME-OFFSET") {
            Some(raw) => Some(SignedDecimalFloatingPoint::from_str(raw)?),
            None => None,
        };
        let precise = match find_attr(&pairs, "PRECISE") {
            Some(raw) => Some(YesOrNo::from_str(raw)?),
            None => None,
        };
        let time_offset = match time_offset {
            Some(x) => x,
            None => {
                return Err(Error::invalid_input("TIME-OFFSET"));
            },
        };
        let precise = match precise {
            Some(x) => x,
            None => YesOrNo::No,
        };
        let v = ExtXStart { time_offset, precise };
        proof {
            lemma_start_parsed_ok(s@);
        }
        Ok(v)
    }

    pub fn to_string(&self) -> (r: String)
        requires
            self.wf(),
        ensures
            r@ == start_text(self@),
    {
        let mut c: Vec<(&str, Option<String>)> = Vec::new();
        c.push(("TIME-OFFSET", Some(self.time_offset.to_string())));
        c.push(("PRECISE", if self.precise == YesOrNo::Yes {
            Some(self.precise.to_string())
        } else {
            None
        }));
        let mut out = String::new();
        out.append("#EXT-X-START:");
        write_attrs(&mut out, &c);
        assert(canon_view(c@) =~= start_canon(self@));
        out
    }
}

/// A start offset that is not precise is written without a `PRECISE` attribute;
/// a precise one is written with `PRECISE=YES`.
pub proof fn lemma_start_precise_written(v: ExtXStartView)
    requires
        start_ok(v),
    ensures
        tokenize(body(start_text(v), "#EXT-X-START:"@)->0) matches Some(ps) && lookup(
            ps,
            "PRECISE"@,
        ) == if v.precise == YesOrNo::Yes {
            Some("YES"@)
        } else {
            None::<Seq<char>>
        },
{
    let c = start_canon(v);
    lemma_start_canon_ok(v);
    lemma_canon_round_trip(c);
    lemma_body("#EXT-X-START:"@, attrs_text(present(c)));
    assert(lookup(present(c), c[1].0) == c[1].1);
}

} // verus!
