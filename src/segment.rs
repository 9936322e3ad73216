use vstd::prelude::*;
use crate::attr::{
    body, field_duration, field_encryption_method, field_hex, field_quoted, field_yes, hv,
    lemma_body, lemma_field_duration, lemma_field_encryption_method, lemma_field_hex,
    lemma_field_quoted, lemma_field_yes, opt_duration_string, opt_duration_text, opt_hex_string,
    opt_hex_text, opt_quotable, opt_quoted_string, opt_quoted_text, opt_yes_text, qv, strip_prefix,
};
use crate::decimal::{
    DecimalFloatingPoint, Duration, duration_string, duration_text, lemma_parsed_float_wf,
    parse_duration, parse_duration_exec, parse_float,
};
use crate::error::Error;
use crate::pairs::{
    attribute_pairs, attrs_text, canon_ok, canon_view, find_attr, name_ok, lemma_canon_round_trip,
    lookup, present, tokenize, value_ok, write_attrs,
};
use crate::text::{
    append_decimal, char_vec, decimal, find_char, find_from, is_digit, lemma_decimal,
    lemma_find_from, parse_u64, parse_u64_at, str_eq,
};
use crate::tokens::{EncryptionMethod, ProtocolVersion, Yes};
use crate::value::{HexadecimalSequence, QuotedString, quotable, quoted_text, M3u8String, line_safe};

verus! {

broadcast use vstd::string::group_string_axioms;

/// `#EXTINF`: the duration of the next media segment, and an optional title.
#[derive(Debug, Clone)]
pub struct ExtInf {
    pub duration: Duration,
    pub title: Option<M3u8String>,
}

pub struct ExtInfView {
    pub duration: Duration,
    pub title: Option<Seq<char>>,
}

pub open spec fn title_view(o: Option<M3u8String>) -> Option<Seq<char>> {
    match o {
        Some(t) => Some(t@),
        None => None,
    }
}

impl View for ExtInf {
    type V = ExtInfView;

    open spec fn view(&self) -> ExtInfView {
        ExtInfView { duration: self.duration, title: title_view(self.title) }
    }
}

/// The duration in seconds, then a comma and the title where there is one.
pub open spec fn inf_text(v: ExtInfView) -> Seq<char> {
    "#EXTINF:"@ + duration_text(v.duration) + match v.title {
        Some(t) => seq![','] + t,
        None => seq![],
    }
}

pub open spec fn inf_ok(v: ExtInfView) -> bool {
    v.duration.wf() && (v.title matches Some(t) ==> line_safe(t))
}

/// A duration up to the first comma; what follows that comma is the title.
pub open spec fn parse_inf(line: Seq<char>) -> Option<ExtInfView> {
    match body(line, "#EXTINF:"@) {
        Some(b) => {
            let c = find_from(b, ',', 0);
            match parse_duration(b.take(c)) {
                Some(d) => if c < b.len() {
                    if line_safe(b.skip(c + 1)) {
                        Some(ExtInfView { duration: d, title: Some(b.skip(c + 1)) })
                    } else {
                        None
                    }
                } else {
                    Some(ExtInfView { duration: d, title: None })
                },
                None => None,
            }
        },
        None => None,
    }
}

/// A well-formed `#EXTINF` written out reads back as itself.
pub proof fn lemma_inf_round_trip(v: ExtInfView)
    requires
        inf_ok(v),
    ensures
        parse_inf(inf_text(v)) == Some(v),
{
    let d = duration_text(v.duration);
    let tail: Seq<char> = match v.title {
        Some(t) => seq![','] + t,
        None => seq![],
    };
    lemma_body("#EXTINF:"@, d + tail);
    assert(inf_text(v) =~= "#EXTINF:"@ + (d + tail));
    crate::attr::lemma_float_value(DecimalFloatingPoint { secs: v.duration.secs, nanos: v.duration.nanos });
    crate::attr::lemma_duration_value(v.duration);
    let b = d + tail;
    assert forall|k: int| 0 <= k < d.len() implies b[k] != ',' by {
        assert(b[k] == d[k]);
    }
    lemma_find_from(b, ',', 0, d.len() as int);
    assert(b.take(d.len() as int) =~= d);
    if let Some(t) = v.title {
        assert(b.skip(d.len() as int + 1) =~= t);
    }
}

/// What parses as `#EXTINF` is well formed.
pub proof fn lemma_inf_parsed_ok(line: Seq<char>)
    requires
        parse_inf(line) is Some,
    ensures
        inf_ok(parse_inf(line)->0),
{
    let b = body(line, "#EXTINF:"@)->0;
    let c = find_from(b, ',', 0);
    lemma_parsed_float_wf(b.take(c));
}

impl ExtInf {
    pub open spec fn wf(&self) -> bool {
        inf_ok(self@)
    }

    pub fn from_str(s: &str) -> (r: Result<ExtInf, Error>)
        ensures
            match r {
                Ok(v) => parse_inf(s@) == Some(v@) && v.wf(),
                Err(_) => parse_inf(s@) is None,
            },
    {
        let b = match strip_prefix(s, "#EXTINF:") {
            Some(b) => b,
            None => {
                return Err(Error::invalid_input(s));
            },
        };
        let cs = char_vec(b);
        let n = cs.len();
        let c = find_char(&cs, ',', 0);
        let head = b.substring_char(0, c);
        assert(head@ =~= b@.take(c as int));
        let duration = parse_duration_exec(head)?;
        let title = if c < n {
            let t = b.substring_char(c + 1, n);
            assert(t@ =~= b@.skip(c + 1));
            Some(M3u8String::new(t)?)
        } else {
            None
        };
        Ok(ExtInf { duration, title })
    }

    pub fn to_string(&self) -> (r: String)
        requires
            self.wf(),
        ensures
            r@ == inf_text(self@),
    {
        proof {
            reveal_strlit(",");
        }
        let mut out = String::new();
        out.append("#EXTINF:");
        out.append(duration_string(self.duration).as_str());
        match &self.title {
            Some(t) => {
                out.append(",");
                out.append(t.as_str());
            },
            None => {},
        }
        assert(out@ =~= inf_text(self@));
        out
    }
}

/// `#EXT-X-BYTERANGE`: the next media segment is a sub-range of its resource.
#[derive(Debug, Clone, Copy, PartialEq, Eq, Structural)]
pub struct ExtXByteRange {
    pub length: usize,
    pub offset: Option<usize>,
}

/// The length, then `@` and the offset where there is one.
pub open spec fn byte_range_text(v: ExtXByteRange) -> Seq<char> {
    "#EXT-X-BYTERANGE:"@ + decimal(v.length as nat) + match v.offset {
        Some(o) => seq!['@'] + decimal(o as nat),
        None => seq![],
    }
}

/// A decimal length, optionally followed by `@` and a decimal offset.
pub open spec fn parse_byte_range(line: Seq<char>) -> Option<ExtXByteRange> {
    match body(line, "#EXT-X-BYTERANGE:"@) {
        Some(b) => {
            let a = find_from(b, '@', 0);
            match parse_u64(b.take(a)) {
                Some(l) => if l > usize::MAX {
                    None
                } else if a < b.len() {
                    match parse_u64(b.skip(a + 1)) {
                        Some(o) => if o <= usize::MAX {
                            Some(ExtXByteRange { length: l as usize, offset: Some(o as usize) })
                        } else {
                            None
                        },
                        None => None,
                    }
                } else {
                    Some(ExtXByteRange { length: l as usize, offset: None })
                },
                None => None,
            }
        },
        None => None,
    }
}

/// A byte range written out reads back as itself.
pub proof fn lemma_byte_range_round_trip(v: ExtXByteRange)
    ensures
        parse_byte_range(byte_range_text(v)) == Some(v),
{
    let d = decimal(v.length as nat);
    let tail: Seq<char> = match v.offset {
        Some(o) => seq!['@'] + decimal(o as nat),
        None => seq![],
    };
    lemma_body("#EXT-X-BYTERANGE:"@, d + tail);
    assert(byte_range_text(v) =~= "#EXT-X-BYTERANGE:"@ + (d + tail));
    lemma_decimal(v.length as nat);
    let b = d + tail;
    assert forall|k: int| 0 <= k < d.len() implies b[k] != '@' by {
        assert(b[k] == d[k]);
        assert(is_digit(d[k]));
    }
    lemma_find_from(b, '@', 0, d.len() as int);
    assert(b.take(d.len() as int) =~= d);
    if let Some(o) = v.offset {
        lemma_decimal(o as nat);
        assert(b.skip(d.len() as int + 1) =~= decimal(o as nat));
    }
}

impl ExtXByteRange {
    pub fn from_str(s: &str) -> (r: Result<ExtXByteRange, Error>)
        ensures
            match r {
                Ok(v) => parse_byte_range(s@) == Some(v),
                Err(_) => parse_byte_range(s@) is None,
            },
    {
        let b = match strip_prefix(s, "#EXT-X-BYTERANGE:") {
            Some(b) => b,
            None => {
                return Err(Error::invalid_input(s));
            },
        };
        let cs = char_vec(b);
        let n = cs.len();
        let a = find_char(&cs, '@', 0);
        assert(cs@.subrange(0, a as int) =~= b@.take(a as int));
        let length = match parse_u64_at(&cs, 0, a) {
            Some(l) => l,
            None => {
                return Err(Error::invalid_input(b));
            },
        };
        if length > usize::MAX as u64 {
            return Err(Error::invalid_input(b));
        }
        if a == n {
            return Ok(ExtXByteRange { length: length as usize, offset: None });
        }
        assert(cs@.subrange(a + 1, n as int) =~= b@.skip(a + 1));
        match parse_u64_at(&cs, a + 1, n) {
            Some(o) => {
                if o <= usize::MAX as u64 {
                    Ok(ExtXByteRange { length: length as usize, offset: Some(o as usize) })
                } else {
                    Err(Error::invalid_input(b))
                }
            },
            None => Err(Error::invalid_input(b)),
        }
    }

    pub fn to_string(&self) -> (r: String)
        ensures
            r@ == byte_range_text(*self),
    {
        proof {
            reveal_strlit("@");
        }
        let mut out = String::new();
        out.append("#EXT-X-BYTERANGE:");
        append_decimal(&mut out, self.length as u64);
        match self.offset {
            Some(o) => {
                out.append("@");
                append_decimal(&mut out, o as u64);
            },
            None => {},
        }
        assert(out@ =~= byte_range_text(*self));
        out
    }
}

/// `#EXT-X-DISCONTINUITY`: the next media segment breaks with the one before.
#[derive(Debug, Clone, Copy, PartialEq, Eq, Structural)]
pub struct ExtXDiscontinuity;

/// Exactly the line `#EXT-X-DISCONTINUITY`.
pub open spec fn parse_discontinuity(line: Seq<char>) -> Option<ExtXDiscontinuity> {
    if line == "#EXT-X-DISCONTINUITY"@ {
        Some(ExtXDiscontinuity)
    } else {
        None
    }
}

pub open spec fn discontinuity_text() -> Seq<char> {
    "#EXT-X-DISCONTINUITY"@
}

impl ExtXDiscontinuity {
    pub fn from_str(s: &str) -> (r: Result<ExtXDiscontinuity, Error>)
        ensures
            match r {
                Ok(v) => parse_discontinuity(s@) == Some(v),
                Err(_) => parse_discontinuity(s@) is None,
            },
    {
        if str_eq(s, "#EXT-X-DISCONTINUITY") {
            Ok(ExtXDiscontinuity)
        } else {
            Err(Error::invalid_input(s))
        }
    }

    pub fn to_string(&self) -> (r: String)
        ensures
            r@ == discontinuity_text(),
    {
        "#EXT-X-DISCONTINUITY".to_owned()
    }
}

/// `#EXT-X-KEY`: how the media segments that follow are encrypted.
#[derive(Debug, Clone)]
pub struct ExtXKey {
    pub method: EncryptionMethod,
    pub uri: Option<QuotedString>,
    pub iv: Option<HexadecimalSequence>,
    pub key_format: Option<QuotedString>,
    pub key_format_versions: Option<QuotedString>,
}

pub struct ExtXKeyView {
    pub method: EncryptionMethod,
    pub uri: Option<Seq<char>>,
    pub iv: Option<Seq<u8>>,
    pub key_format: Option<Seq<char>>,
    pub key_format_versions: Option<Seq<char>>,
}

impl View for ExtXKey {
    type V = ExtXKeyView;

    open spec fn view(&self) -> ExtXKeyView {
        ExtXKeyView {
            method: self.method,
            uri: qv(self.uri),
            iv: hv(self.iv),
            key_format: qv(self.key_format),
            key_format_versions: qv(self.key_format_versions),
        }
    }
}

/// The attributes of `#EXT-X-KEY`, in the order they are written.
pub open spec fn key_canon(v: ExtXKeyView) -> Seq<(Seq<char>, Option<Seq<char>>)> {
    seq![
        ("METHOD"@, Some(v.method.text())),
        ("URI"@, opt_quoted_text(v.uri)),
        ("IV"@, opt_hex_text(v.iv)),
        ("KEYFORMAT"@, opt_quoted_text(v.key_format)),
        ("KEYFORMATVERSIONS"@, opt_quoted_text(v.key_format_versions)),
    ]
}

pub open spec fn key_text(v: ExtXKeyView) -> Seq<char> {
    "#EXT-X-KEY:"@ + attrs_text(present(key_canon(v)))
}

/// Method `NONE` goes without a URI; every other method needs one.
pub open spec fn key_rules(v: ExtXKeyView) -> bool {
    (v.method == EncryptionMethod::NoEncryption) == (v.uri is None)
}

pub open spec fn key_ok(v: ExtXKeyView) -> bool {
    &&& opt_quotable(v.uri)
    &&& opt_quotable(v.key_format)
    &&& opt_quotable(v.key_format_versions)
    &&& key_rules(v)
}

pub open spec fn key_from_pairs(ps: Seq<(Seq<char>, Seq<char>)>) -> Option<ExtXKeyView> {
    let method = field_encryption_method(lookup(ps, "METHOD"@));
    let uri = field_quoted(lookup(ps, "URI"@));
    let iv = field_hex(lookup(ps, "IV"@));
    let key_format = field_quoted(lookup(ps, "KEYFORMAT"@));
    let key_format_versions = field_quoted(lookup(ps, "KEYFORMATVERSIONS"@));
    if method is Some && method->0 is Some && uri is Some && iv is Some && key_format is Some
        && key_format_versions is Some {
        let v = ExtXKeyView {
            method: method->0->0,
            uri: uri->0,
            iv: iv->0,
            key_format: key_format->0,
            key_format_versions: key_format_versions->0,
        };
        if key_rules(v) {
            Some(v)
        } else {
            None
        }
    } else {
        None
    }
}

pub open spec fn parse_key(line: Seq<char>) -> Option<ExtXKeyView> {
    match body(line, "#EXT-X-KEY:"@) {
        Some(b) => match tokenize(b) {
            Some(ps) => key_from_pairs(ps),
            None => None,
        },
        None => None,
    }
}

proof fn lemma_key_canon_ok(v: ExtXKeyView)
    requires
        key_ok(v),
    ensures
        canon_ok(key_canon(v)),
{
    reveal_strlit("IV");
    reveal_strlit("KEYFORMAT");
    reveal_strlit("KEYFORMATVERSIONS");
    reveal_strlit("METHOD");
    reveal_strlit("URI");
    let c = key_canon(v);
    lemma_field_encryption_method(Some(v.method));
    lemma_field_quoted(v.uri);
    lemma_field_hex(v.iv);
    lemma_field_quoted(v.key_format);
    lemma_field_quoted(v.key_format_versions);
    assert(forall|i: int| 0 <= i < c.len() ==> name_ok(#[trigger] c[i].0));
    assert(forall|i: int|
        0 <= i < c.len() ==> (#[trigger] c[i].1 is Some ==> value_ok(c[i].1->0)));
    assert(forall|i: int, j: int| 0 <= i < j < c.len() ==> c[i].0 != c[j].0);
}

/// A well-formed `#EXT-X-KEY` written out reads back as itself.
pub proof fn lemma_key_round_trip(v: ExtXKeyView)
    requires
        key_ok(v),
    ensures
        parse_key(key_text(v)) == Some(v),
{
    let c = key_canon(v);
    lemma_key_canon_ok(v);
    lemma_canon_round_trip(c);
    lemma_field_encryption_method(Some(v.method));
    lemma_field_quoted(v.uri);
    lemma_field_hex(v.iv);
    lemma_field_quoted(v.key_format);
    lemma_field_quoted(v.key_format_versions);
    lemma_body("#EXT-X-KEY:"@, attrs_text(present(c)));
    let ps = present(c);
    assert(lookup(ps, c[0].0) == c[0].1);
    assert(lookup(ps, c[1].0) == c[1].1);
    assert(lookup(ps, c[2].0) == c[2].1);
    assert(lookup(ps, c[3].0) == c[3].1);
    assert(lookup(ps, c[4].0) == c[4].1);
}

/// What parses as `#EXT-X-KEY` is well formed.
pub proof fn lemma_key_parsed_ok(line: Seq<char>)
    requires
        parse_key(line) is Some,
    ensures
        key_ok(parse_key(line)->0),
{
}

impl ExtXKey {
    pub open spec fn wf(&self) -> bool {
        key_ok(self@)
    }

    pub fn from_str(s: &str) -> (r: Result<ExtXKey, Error>)
        ensures
            match r {
                Ok(v) => parse_key(s@) == Some(v@) && v.wf(),
                Err(_) => parse_key(s@) is None,
            },
    {
        let b = match strip_prefix(s, "#EXT-X-KEY:") {
            Some(b) => b,
            None => {
                return Err(Error::invalid_input(s));
            },
        };
        let pairs = attribute_pairs(b)?;
        let method = match find_attr(&pairs, "METHOD") {
            Some(raw) => Some(EncryptionMethod::from_str(raw)?),
            None => None,
        };
        let uri = match find_attr(&pairs, "URI") {
            Some(raw) => Some(QuotedString::from_str(raw)?),
            None => None,
        };
        let iv = match find_attr(&pairs, "IV") {
            Some(raw) => Some(HexadecimalSequence::from_str(raw)?),
            None => None,
        };
        let key_format = match find_attr(&pairs, "KEYFORMAT") {
            Some(raw) => Some(QuotedString::from_str(raw)?),
            None => None,
        };
        let key_format_versions = match find_attr(&pairs, "KEYFORMATVERSIONS") {
            Some(raw) => Some(QuotedString::from_str(raw)?),
            None => None,
        };
        let method = match method {
            Some(x) => x,
            None => {
                return Err(Error::invalid_input("METHOD"));
            },
        };
        let v = ExtXKey { method, uri, iv, key_format, key_format_versions };
        if (v.method == EncryptionMethod::NoEncryption) != v.uri.is_none() {
            return Err(Error::invalid_input("URI"));
        }
        proof {
            lemma_key_parsed_ok(s@);
        }
        Ok(v)
    }

    pub fn to_string(&self) -> (r: String)
        ensures
            r@ == key_text(self@),
    {
        let mut c: Vec<(&str, Option<String>)> = Vec::new();
        c.push(("METHOD", Some(self.method.to_string())));
        c.push(("URI", opt_quoted_string(&self.uri)));
        c.push(("IV", opt_hex_string(&self.iv)));
        c.push(("KEYFORMAT", opt_quoted_string(&self.key_format)));
        c.push(("KEYFORMATVERSIONS", opt_quoted_string(&self.key_format_versions)));
        let mut out = String::new();
        out.append("#EXT-X-KEY:");
        write_attrs(&mut out, &c);
        assert(canon_view(c@) =~= key_canon(self@));
        out
    }
}

/// The version a key needs: 5 with a key format, else 2 with an IV, else 1.
pub open spec fn key_version(v: ExtXKeyView) -> ProtocolVersion {
    if v.key_format is Some || v.key_format_versions is Some {
        ProtocolVersion::V5
    } else if v.iv is Some {
        ProtocolVersion::V2
    } else {
        ProtocolVersion::V1
    }
}

impl ExtXKey {
    /// The lowest protocol version that this key needs.
    pub fn compatibility_version(&self) -> (r: ProtocolVersion)
        ensures
            r == key_version(self@),
    {
        if self.key_format.is_some() || self.key_format_versions.is_some() {
            ProtocolVersion::V5
        } else if self.iv.is_some() {
            ProtocolVersion::V2
        } else {
            ProtocolVersion::V1
        }
    }
}

/// `#EXT-X-MAP`: where the media initialization section of the segments is found.
#[derive(Debug, Clone)]
pub struct ExtXMap {
    pub uri: QuotedString,
    pub byte_range: Option<QuotedString>,
}

pub struct ExtXMapView {
    pub uri: Seq<char>,
    pub byte_range: Option<Seq<char>>,
}

impl View for ExtXMap {
    type V = ExtXMapView;

    open spec fn view(&self) -> ExtXMapView {
        ExtXMapView {
            uri: self.uri@,
            byte_range: qv(self.byte_range),
        }
    }
}

/// The attributes of `#EXT-X-MAP`, in the order they are written.
pub open spec fn map_canon(v: ExtXMapView) -> Seq<(Seq<char>, Option<Seq<char>>)> {
    seq![
        ("URI"@, Some(quoted_text(v.uri))),
        ("BYTERANGE"@, opt_quoted_text(v.byte_range)),
    ]
}

pub open spec fn map_text(v: ExtXMapView) -> Seq<char> {
    "#EXT-X-MAP:"@ + attrs_text(present(map_canon(v)))
}

pub open spec fn map_ok(v: ExtXMapView) -> bool {
    &&& quotable(v.uri)
    &&& opt_quotable(v.byte_range)
}

pub open spec fn map_from_pairs(ps: Seq<(Seq<char>, Seq<char>)>) -> Option<ExtXMapView> {
    let uri = field_quoted(lookup(ps, "URI"@));
    let byte_range = field_quoted(lookup(ps, "BYTERANGE"@));
    if uri is Some && uri->0 is Some && byte_range is Some {
        let v = ExtXMapView {
            uri: uri->0->0,
            byte_range: byte_range->0,
        };
        Some(v)
    } else {
        None
    }
}

pub open spec fn parse_map(line: Seq<char>) -> Option<ExtXMapView> {
    match body(line, "#EXT-X-MAP:"@) {
        Some(b) => match tokenize(b) {
            Some(ps) => map_from_pairs(ps),
            None => None,
        },
        None => None,
    }
}

proof fn lemma_map_canon_ok(v: ExtXMapView)
    requires
        map_ok(v),
    ensures
        canon_ok(map_canon(v)),
{
    reveal_strlit("BYTERANGE");
    reveal_strlit("URI");
    let c = map_canon(v);
    lemma_field_quoted(Some(v.uri));
    lemma_field_quoted(v.byte_range);
    assert(forall|i: int| 0 <= i < c.len() ==> name_ok(#[trigger] c[i].0));
    assert(forall|i: int|
        0 <= i < c.len() ==> (#[trigger] c[i].1 is Some ==> value_ok(c[i].1->0)));
    assert(forall|i: int, j: int| 0 <= i < j < c.len() ==> c[i].0 != c[j].0);
}

/// A well-formed `#EXT-X-MAP` written out reads back as itself.
pub proof fn lemma_map_round_trip(v: ExtXMapView)
    requires
        map_ok(v),
    ensures
        parse_map(map_text(v)) == Some(v),
{
    let c = map_canon(v);
    lemma_map_canon_ok(v);
    lemma_canon_round_trip(c);
    lemma_field_quoted(Some(v.uri));
    lemma_field_quoted(v.byte_range);
    lemma_body("#EXT-X-MAP:"@, attrs_text(present(c)));
    let ps = present(c);
    assert(lookup(ps, c[0].0) == c[0].1);
    assert(lookup(ps, c[1].0) == c[1].1);
}

/// What parses as `#EXT-X-MAP` is well formed.
pub proof fn lemma_map_parsed_ok(line: Seq<char>)
    requires
        parse_map(line) is Some,
    ensures
        map_ok(parse_map(line)->0),
{
}

impl ExtXMap {
    pub open spec fn wf(&self) -> bool {
        map_ok(self@)
    }

    pub fn from_str(s: &str) -> (r: Result<ExtXMap, Error>)
        ensures
            match r {
                Ok(v) => parse_map(s@) == Some(v@) && v.wf(),
                Err(_) => parse_map(s@) is None,
            },
    {
        let b = match strip_prefix(s, "#EXT-X-MAP:") {
            Some(b) => b,
            None => {
                return Err(Error::invalid_input(s));
            },
        };
        let pairs = attribute_pairs(b)?;
        let uri = match find_attr(&pairs, "URI") {
            Some(raw) => Some(QuotedString::from_str(raw)?),
            None => None,
        };
        let byte_range = match find_attr(&pairs, "BYTERANGE") {
            Some(raw) => Some(QuotedString::from_str(raw)?),
            None => None,
        };
        let uri = match uri {
            Some(x) => x,
            None => {
                return Err(Error::invalid_input("URI"));
            },
        };
        let v = ExtXMap { uri, byte_range };
        proof {
            lemma_map_parsed_ok(s@);
        }
        Ok(v)
    }

    pub fn to_string(&self) -> (r: String)
        ensures
            r@ == map_text(self@),
    {
        let mut c: Vec<(&str, Option<String>)> = Vec::new();
        c.push(("URI", Some(self.uri.to_string())));
        c.push(("BYTERANGE", opt_quoted_string(&self.byte_range)));
        let mut out = String::new();
        out.append("#EXT-X-MAP:");
        write_attrs(&mut out, &c);
        assert(canon_view(c@) =~= map_canon(self@));
        out
    }
}

/// `#EXT-X-PROGRAM-DATE-TIME`: the date and time of the first sample of the next segment.
#[derive(Debug, Clone)]
pub struct ExtXProgramDateTime {
    pub date_time_msec: String,
}

impl View for ExtXProgramDateTime {
    type V = Seq<char>;

    open spec fn view(&self) -> Seq<char> {
        self.date_time_msec@
    }
}

/// Whatever follows the prefix is the date and time, kept as text.
pub open spec fn parse_program_date_time(line: Seq<char>) -> Option<Seq<char>> {
    body(line, "#EXT-X-PROGRAM-DATE-TIME:"@)
}

pub open spec fn program_date_time_text(v: Seq<char>) -> Seq<char> {
    "#EXT-X-PROGRAM-DATE-TIME:"@ + v
}

/// A date and time written out reads back as itself.
pub proof fn lemma_program_date_time_round_trip(v: Seq<char>)
    ensures
        parse_program_date_time(program_date_time_text(v)) == Some(v),
{
    lemma_body("#EXT-X-PROGRAM-DATE-TIME:"@, v);
}

impl ExtXProgramDateTime {
    pub fn from_str(s: &str) -> (r: Result<ExtXProgramDateTime, Error>)
        ensures
            match r {
                Ok(v) => parse_program_date_time(s@) == Some(v@),
                Err(_) => parse_program_date_time(s@) is None,
            },
    {
        match strip_prefix(s, "#EXT-X-PROGRAM-DATE-TIME:") {
            Some(b) => Ok(ExtXProgramDateTime { date_time_msec: b.to_owned() }),
            None => Err(Error::invalid_input(s)),
        }
    }

    pub fn to_string(&self) -> (r: String)
        ensures
            r@ == program_date_time_text(self@),
    {
        let mut out = String::new();
        out.append("#EXT-X-PROGRAM-DATE-TIME:");
        out.append(self.date_time_msec.as_str());
        assert(out@ =~= program_date_time_text(self@));
        out
    }
}

/// `#EXT-X-DATERANGE`: a range of time with attributes of its own.
#[derive(Debug, Clone)]
pub struct ExtXDateRange {
    pub id: QuotedString,
    pub class: Option<QuotedString>,
    pub start_date: QuotedString,
    pub end_date: Option<QuotedString>,
    pub duration: Option<Duration>,
    pub planned_duration: Option<Duration>,
    pub scte35_cmd: Option<QuotedString>,
    pub scte35_out: Option<QuotedString>,
    pub scte35_in: Option<QuotedString>,
    pub end_on_next: Option<Yes>,
}

pub struct ExtXDateRangeView {
    pub id: Seq<char>,
    pub class: Option<Seq<char>>,
    pub start_date: Seq<char>,
    pub end_date: Option<Seq<char>>,
    pub duration: Option<Duration>,
    pub planned_duration: Option<Duration>,
    pub scte35_cmd: Option<Seq<char>>,
    pub scte35_out: Option<Seq<char>>,
    pub scte35_in: Option<Seq<char>>,
    pub end_on_next: Option<Yes>,
}

impl View for ExtXDateRange {
    type V = ExtXDateRangeView;

    open spec fn view(&self) -> ExtXDateRangeView {
        ExtXDateRangeView {
            id: self.id@,
            class: qv(self.class),
            start_date: self.start_date@,
            end_date: qv(self.end_date),
            duration: self.duration,
            planned_duration: self.planned_duration,
            scte35_cmd: qv(self.scte35_cmd),
            scte35_out: qv(self.scte35_out),
            scte35_in: qv(self.scte35_in),
            end_on_next: self.end_on_next,
        }
    }
}

/// The attributes of `#EXT-X-DATERANGE`, in the order they are written.
pub open spec fn date_range_canon(v: ExtXDateRangeView) -> Seq<(Seq<char>, Option<Seq<char>>)> {
    seq![
        ("ID"@, Some(quoted_text(v.id))),
        ("CLASS"@, opt_quoted_text(v.class)),
        ("START-DATE"@, Some(quoted_text(v.start_date))),
        ("END-DATE"@, opt_quoted_text(v.end_date)),
        ("DURATION"@, opt_duration_text(v.duration)),
        ("PLANNED-DURATION"@, opt_duration_text(v.planned_duration)),
        ("SCTE35-CMD"@, opt_quoted_text(v.scte35_cmd)),
        ("SCTE35-OUT"@, opt_quoted_text(v.scte35_out)),
        ("SCTE35-IN"@, opt_quoted_text(v.scte35_in)),
        ("END-ON-NEXT"@, opt_yes_text(v.end_on_next)),
    ]
}

pub open spec fn date_range_text(v: ExtXDateRangeView) -> Seq<char> {
    "#EXT-X-DATERANGE:"@ + attrs_text(present(date_range_canon(v)))
}

/// `END-ON-NEXT` needs a `CLASS`.
pub open spec fn date_range_rules(v: ExtXDateRangeView) -> bool {
    v.end_on_next is Some ==> v.class is Some
}

pub open spec fn date_range_ok(v: ExtXDateRangeView) -> bool {
    &&& quotable(v.id)
    &&& opt_quotable(v.class)
    &&& quotable(v.start_date)
    &&& opt_quotable(v.end_date)
    &&& (v.duration matches Some(d) ==> d.wf())
    &&& (v.planned_duration matches Some(d) ==> d.wf())
    &&& opt_quotable(v.scte35_cmd)
    &&& opt_quotable(v.scte35_out)
    &&& opt_quotable(v.scte35_in)
    &&& date_range_rules(v)
}

pub open spec fn date_range_from_pairs(
    ps: Seq<(Seq<char>, Seq<char>)>,
) -> Option<ExtXDateRangeView> {
    let id = field_quoted(lookup(ps, "ID"@));
    let class = field_quoted(lookup(ps, "CLASS"@));
    let start_date = field_quoted(lookup(ps, "START-DATE"@));
    let end_date = field_quoted(lookup(ps, "END-DATE"@));
    let duration = field_duration(lookup(ps, "DURATION"@));
    let planned_duration = field_duration(lookup(ps, "PLANNED-DURATION"@));
    let scte35_cmd = field_quoted(lookup(ps, "SCTE35-CMD"@));
    let scte35_out = field_quoted(lookup(ps, "SCTE35-OUT"@));
    let scte35_in = field_quoted(lookup(ps, "SCTE35-IN"@));
    let end_on_next = field_yes(lookup(ps, "END-ON-NEXT"@));
    if id is Some && id->0 is Some && class is Some && start_date is Some
        && start_date->0 is Some && end_date is Some && duration is Some
        && planned_duration is Some && scte35_cmd is Some && scte35_out is Some
        && scte35_in is Some && end_on_next is Some {
        let v = ExtXDateRangeView {
            id: id->0->0,
            class: class->0,
            start_date: start_date->0->0,
            end_date: end_date->0,
            duration: duration->0,
            planned_duration: planned_duration->0,
            scte35_cmd: scte35_cmd->0,
            scte35_out: scte35_out->0,
            scte35_in: scte35_in->0,
            end_on_next: end_on_next->0,
        };
        if date_range_rules(v) {
            Some(v)
        } else {
            None
        }
    } else {
        None
    }
}

pub open spec fn parse_date_range(line: Seq<char>) -> Option<ExtXDateRangeView> {
    match body(line, "#EXT-X-DATERANGE:"@) {
        Some(b) => match tokenize(b) {
            Some(ps) => date_range_from_pairs(ps),
            None => None,
        },
        None => None,
    }
}

proof fn lemma_date_range_canon_ok(v: ExtXDateRangeView)
    requires
        date_range_ok(v),
    ensures
        canon_ok(date_range_canon(v)),
{
    reveal_strlit("CLASS");
    reveal_strlit("DURATION");
    reveal_strlit("END-DATE");
    reveal_strlit("END-ON-NEXT");
    reveal_strlit("ID");
    reveal_strlit("PLANNED-DURATION");
    reveal_strlit("SCTE35-CMD");
    reveal_strlit("SCTE35-IN");
    reveal_strlit("SCTE35-OUT");
    reveal_strlit("START-DATE");
    let c = date_range_canon(v);
    lemma_field_quoted(Some(v.id));
    lemma_field_quoted(v.class);
    lemma_field_quoted(Some(v.start_date));
    lemma_field_quoted(v.end_date);
    lemma_field_duration(v.duration);
    lemma_field_duration(v.planned_duration);
    lemma_field_quoted(v.scte35_cmd);
    lemma_field_quoted(v.scte35_out);
    lemma_field_quoted(v.scte35_in);
    lemma_field_yes(v.end_on_next);
    assert("START-DATE"@[1] != "SCTE35-CMD"@[1]);
    assert("START-DATE"@[1] != "SCTE35-OUT"@[1]);
    assert("END-DATE"@[0] != "DURATION"@[0]);
    assert("SCTE35-CMD"@[7] != "SCTE35-OUT"@[7]);
    assert(forall|i: int| 0 <= i < c.len() ==> name_ok(#[trigger] c[i].0));
    assert(forall|i: int|
        0 <= i < c.len() ==> (#[trigger] c[i].1 is Some ==> value_ok(c[i].1->0)));
    assert(forall|i: int, j: int| 0 <= i < j < c.len() ==> c[i].0 != c[j].0);
}

/// A well-formed `#EXT-X-DATERANGE` written out reads back as itself.
pub proof fn lemma_date_range_round_trip(v: ExtXDateRangeView)
    requires
        date_range_ok(v),
    ensures
        parse_date_range(date_range_text(v)) == Some(v),
{
    let c = date_range_canon(v);
    lemma_date_range_canon_ok(v);
    lemma_canon_round_trip(c);
    lemma_field_quoted(Some(v.id));
    lemma_field_quoted(v.class);
    lemma_field_quoted(Some(v.start_date));
    lemma_field_quoted(v.end_date);
    lemma_field_duration(v.duration);
    lemma_field_duration(v.planned_duration);
    lemma_field_quoted(v.scte35_cmd);
    lemma_field_quoted(v.scte35_out);
    lemma_field_quoted(v.scte35_in);
    lemma_field_yes(v.end_on_next);
    lemma_body("#EXT-X-DATERANGE:"@, attrs_text(present(c)));
    let ps = present(c);
    assert(lookup(ps, c[0].0) == c[0].1);
    assert(lookup(ps, c[1].0) == c[1].1);
    assert(lookup(ps, c[2].0) == c[2].1);
    assert(lookup(ps, c[3].0) == c[3].1);
    assert(lookup(ps, c[4].0) == c[4].1);
    assert(lookup(ps, c[5].0) == c[5].1);
    assert(lookup(ps, c[6].0) == c[6].1);
    assert(lookup(ps, c[7].0) == c[7].1);
    assert(lookup(ps, c[8].0) == c[8].1);
    assert(lookup(ps, c[9].0) == c[9].1);
}

/// What parses as `#EXT-X-DATERANGE` is well formed.
pub proof fn lemma_date_range_parsed_ok(line: Seq<char>)
    requires
        parse_date_range(line) is Some,
    ensures
        date_range_ok(parse_date_range(line)->0),
{
    let ps = tokenize(body(line, "#EXT-X-DATERANGE:"@)->0)->0;
    if let Some(s) = lookup(ps, "DURATION"@) {
        if parse_float(s) is Some {
            lemma_parsed_float_wf(s);
        }
    }
    if let Some(s) = lookup(ps, "PLANNED-DURATION"@) {
        if parse_float(s) is Some {
            lemma_parsed_float_wf(s);
        }
    }
}

impl ExtXDateRange {
    pub open spec fn wf(&self) -> bool {
        date_range_ok(self@)
    }

    pub fn from_str(s: &str) -> (r: Result<ExtXDateRange, Error>)
        ensures
            match r {
                Ok(v) => parse_date_range(s@) == Some(v@) && v.wf(),
                Err(_) => parse_date_range(s@) is None,
            },
    {
        let b = match strip_prefix(s, "#EXT-X-DATERANGE:") {
            Some(b) => b,
            None => {
                return Err(Error::invalid_input(s));
            },
        };
        let pairs = attribute_pairs(b)?;
        let id = match find_attr(&pairs, "ID") {
            Some(raw) => Some(QuotedString::from_str(raw)?),
            None => None,
        };
        let class = match find_attr(&pairs, "CLASS") {
            Some(raw) => Some(QuotedString::from_str(raw)?),
            None => None,
        };
        let start_date = match find_attr(&pairs, "START-DATE") {
            Some(raw) => Some(QuotedString::from_str(raw)?),
            None => None,
        };
        let end_date = match find_attr(&pairs, "END-DATE") {
            Some(raw) => Some(QuotedString::from_str(raw)?),
            None => None,
        };
        let duration = match find_attr(&pairs, "DURATION") {
            Some(raw) => Some(parse_duration_exec(raw)?),
            None => None,
        };
        let planned_duration = match find_attr(&pairs, "PLANNED-DURATION") {
            Some(raw) => Some(parse_duration_exec(raw)?),
            None => None,
        };
        let scte35_cmd = match find_attr(&pairs, "SCTE35-CMD") {
            Some(raw) => Some(QuotedString::from_str(raw)?),
            None => None,
        };
        let scte35_out = match find_attr(&pairs, "SCTE35-OUT") {
            Some(raw) => Some(QuotedString::from_str(raw)?),
            None => None,
        };
        let scte35_in = match find_attr(&pairs, "SCTE35-IN") {
            Some(raw) => Some(QuotedString::from_str(raw)?),
            None => None,
        };
        let end_on_next = match find_attr(&pairs, "END-ON-NEXT") {
            Some(raw) => Some(Yes::from_str(raw)?),
            None => None,
        };
        let id = match id {
            Some(x) => x,
            None => {
                return Err(Error::invalid_input("ID"));
            },
        };
        let start_date = match start_date {
            Some(x) => x,
            None => {
                return Err(Error::invalid_input("START-DATE"));
            },
        };
        let v = ExtXDateRange {
            id,
            class,
            start_date,
            end_date,
            duration,
            planned_duration,
            scte35_cmd,
            scte35_out,
            scte35_in,
            end_on_next,
        };
        if v.end_on_next.is_some() && v.class.is_none() {
            return Err(Error::invalid_input("CLASS"));
        }
        proof {
            lemma_date_range_parsed_ok(s@);
        }
        Ok(v)
    }

    pub fn to_string(&self) -> (r: String)
        requires
            self.wf(),
        ensures
            r@ == date_range_text(self@),
    {
        let mut c: Vec<(&str, Option<String>)> = Vec::new();
        c.push(("ID", Some(self.id.to_string())));
        c.push(("CLASS", opt_quoted_string(&self.class)));
        c.push(("START-DATE", Some(self.start_date.to_string())));
        c.push(("END-DATE", opt_quoted_string(&self.end_date)));
        c.push(("DURATION", opt_duration_string(self.duration)));
        c.push(("PLANNED-DURATION", opt_duration_string(self.planned_duration)));
        c.push(("SCTE35-CMD", opt_quoted_string(&self.scte35_cmd)));
        c.push(("SCTE35-OUT", opt_quoted_string(&self.scte35_out)));
        c.push(("SCTE35-IN", opt_quoted_string(&self.scte35_in)));
        c.push(("END-ON-NEXT", match &self.end_on_next {
            Some(x) => Some(x.to_string()),
            None => None,
        }));
        let mut out = String::new();
        out.append("#EXT-X-DATERANGE:");
        write_attrs(&mut out, &c);
        assert(canon_view(c@) =~= date_range_canon(self@));
        out
    }
}

} // verus!
