use vstd::prelude::*;
use crate::error::Error;
use crate::pairs::value_ok;
use crate::text::{char_vec, decimal, lemma_decimal, parse_u64, parse_u64_at, str_eq};
use crate::value::{QuotedString, lemma_quoted_round_trip, parse_quoted, quotable, quoted_text};

verus! {

broadcast use vstd::string::group_string_axioms;
/// How a media segment is encrypted.
#[derive(Debug, Clone, Copy, PartialEq, Eq, Hash, Structural)]
pub enum EncryptionMethod {
    NoEncryption,
    Aes128,
    SampleAes,
}

impl EncryptionMethod {
    pub open spec fn text(self) -> Seq<char> {
        match self {
            EncryptionMethod::NoEncryption => "NONE"@,
            EncryptionMethod::Aes128 => "AES-128"@,
            EncryptionMethod::SampleAes => "SAMPLE-AES"@,
        }
    }

    /// Exactly one of the names, case included.
    pub open spec fn spec_parse(s: Seq<char>) -> Option<EncryptionMethod> {
        if s == "NONE"@ {
            Some(EncryptionMethod::NoEncryption)
        } else if s == "AES-128"@ {
            Some(EncryptionMethod::Aes128)
        } else if s == "SAMPLE-AES"@ {
            Some(EncryptionMethod::SampleAes)
        } else {
            None
        }
    }

    pub proof fn lemma_text(self)
        ensures
            EncryptionMethod::spec_parse(self.text()) == Some(self),
            value_ok(self.text()),
    {
        reveal_strlit("AES-128");
        reveal_strlit("NONE");
        reveal_strlit("SAMPLE-AES");
    }

    pub fn from_str(s: &str) -> (r: Result<EncryptionMethod, Error>)
        ensures
            match r {
                Ok(v) => EncryptionMethod::spec_parse(s@) == Some(v),
                Err(_) => EncryptionMethod::spec_parse(s@) is None,
            },
    {
        if str_eq(s, "NONE") {
            Ok(EncryptionMethod::NoEncryption)
        } else if str_eq(s, "AES-128") {
            Ok(EncryptionMethod::Aes128)
        } else if str_eq(s, "SAMPLE-AES") {
            Ok(EncryptionMethod::SampleAes)
        } else {
            Err(Error::invalid_input(s))
        }
    }

    pub fn as_str(&self) -> (r: &'static str)
        ensures
            r@ == self.text(),
    {
        match self {
            EncryptionMethod::NoEncryption => "NONE",
            EncryptionMethod::Aes128 => "AES-128",
            EncryptionMethod::SampleAes => "SAMPLE-AES",
        }
    }

    pub fn to_string(&self) -> (r: String)
        ensures
            r@ == self.text(),
    {
        self.as_str().to_owned()
    }
}
/// How the media segments of a session key are encrypted.
#[derive(Debug, Clone, Copy, PartialEq, Eq, Hash, Structural)]
pub enum SessionEncryptionMethod {
    Aes128,
    SampleAes,
}

impl SessionEncryptionMethod {
    pub open spec fn text(self) -> Seq<char> {
        match self {
            SessionEncryptionMethod::Aes128 => "AES-128"@,
            SessionEncryptionMethod::SampleAes => "SAMPLE-AES"@,
        }
    }

    /// Exactly one of the names, case included.
    pub open spec fn spec_parse(s: Seq<char>) -> Option<SessionEncryptionMethod> {
        if s == "AES-128"@ {
            Some(SessionEncryptionMethod::Aes128)
        } else if s == "SAMPLE-AES"@ {
            Some(SessionEncryptionMethod::SampleAes)
        } else {
            None
        }
    }

    pub proof fn lemma_text(self)
        ensures
            SessionEncryptionMethod::spec_parse(self.text()) == Some(self),
            value_ok(self.text()),
    {
        reveal_strlit("AES-128");
        reveal_strlit("SAMPLE-AES");
    }

    pub fn from_str(s: &str) -> (r: Result<SessionEncryptionMethod, Error>)
        ensures
            match r {
                Ok(v) => SessionEncryptionMethod::spec_parse(s@) == Some(v),
                Err(_) => SessionEncryptionMethod::spec_parse(s@) is None,
            },
    {
        if str_eq(s, "AES-128") {
            Ok(SessionEncryptionMethod::Aes128)
        } else if str_eq(s, "SAMPLE-AES") {
            Ok(SessionEncryptionMethod::SampleAes)
        } else {
            Err(Error::invalid_input(s))
        }
    }

    pub fn as_str(&self) -> (r: &'static str)
        ensures
            r@ == self.text(),
    {
        match self {
            SessionEncryptionMethod::Aes128 => "AES-128",
            SessionEncryptionMethod::SampleAes => "SAMPLE-AES",
        }
    }

    pub fn to_string(&self) -> (r: String)
        ensures
            r@ == self.text(),
    {
        self.as_str().to_owned()
    }
}
/// Whether a media playlist may still grow or is fixed.
#[derive(Debug, Clone, Copy, PartialEq, Eq, Hash, Structural)]
pub enum PlaylistType {
    Event,
    Vod,
}

impl PlaylistType {
    pub open spec fn text(self) -> Seq<char> {
        match self {
            PlaylistType::Event => "EVENT"@,
            PlaylistType::Vod => "VOD"@,
        }
    }

    /// Exactly one of the names, case included.
    pub open spec fn spec_parse(s: Seq<char>) -> Option<PlaylistType> {
        if s == "EVENT"@ {
            Some(PlaylistType::Event)
        } else if s == "VOD"@ {
            Some(PlaylistType::Vod)
        } else {
            None
        }
    }

    pub proof fn lemma_text(self)
        ensures
            PlaylistType::spec_parse(self.text()) == Some(self),
            value_ok(self.text()),
    {
        reveal_strlit("EVENT");
        reveal_strlit("VOD");
    }

    pub fn from_str(s: &str) -> (r: Result<PlaylistType, Error>)
        ensures
            match r {
                Ok(v) => PlaylistType::spec_parse(s@) == Some(v),
                Err(_) => PlaylistType::spec_parse(s@) is None,
            },
    {
        if str_eq(s, "EVENT") {
            Ok(PlaylistType::Event)
        } else if str_eq(s, "VOD") {
            Ok(PlaylistType::Vod)
        } else {
            Err(Error::invalid_input(s))
        }
    }

    pub fn as_str(&self) -> (r: &'static str)
        ensures
            r@ == self.text(),
    {
        match self {
            PlaylistType::Event => "EVENT",
            PlaylistType::Vod => "VOD",
        }
    }

    pub fn to_string(&self) -> (r: String)
        ensures
            r@ == self.text(),
    {
        self.as_str().to_owned()
    }
}
/// The kind of an alternative rendition.
#[derive(Debug, Clone, Copy, PartialEq, Eq, Hash, Structural)]
pub enum MediaType {
    Audio,
    Video,
    Subtitles,
    ClosedCaptions,
}

impl MediaType {
    pub open spec fn text(self) -> Seq<char> {
        match self {
            MediaType::Audio => "AUDIO"@,
            MediaType::Video => "VIDEO"@,
            MediaType::Subtitles => "SUBTITLES"@,
            MediaType::ClosedCaptions => "CLOSED-CAPTIONS"@,
        }
    }

    /// Exactly one of the names, case included.
    pub open spec fn spec_parse(s: Seq<char>) -> Option<MediaType> {
        if s == "AUDIO"@ {
            Some(MediaType::Audio)
        } else if s == "VIDEO"@ {
            Some(MediaType::Video)
        } else if s == "SUBTITLES"@ {
            Some(MediaType::Subtitles)
        } else if s == "CLOSED-CAPTIONS"@ {
            Some(MediaType::ClosedCaptions)
        } else {
            None
        }
    }

    pub proof fn lemma_text(self)
        ensures
            MediaType::spec_parse(self.text()) == Some(self),
            value_ok(self.text()),
    {
        reveal_strlit("AUDIO");
        reveal_strlit("CLOSED-CAPTIONS");
        reveal_strlit("SUBTITLES");
        reveal_strlit("VIDEO");
    }

    pub fn from_str(s: &str) -> (r: Result<MediaType, Error>)
        ensures
            match r {
                Ok(v) => MediaType::spec_parse(s@) == Some(v),
                Err(_) => MediaType::spec_parse(s@) is None,
            },
    {
        if str_eq(s, "AUDIO") {
            Ok(MediaType::Audio)
        } else if str_eq(s, "VIDEO") {
            Ok(MediaType::Video)
        } else if str_eq(s, "SUBTITLES") {
            Ok(MediaType::Subtitles)
        } else if str_eq(s, "CLOSED-CAPTIONS") {
            Ok(MediaType::ClosedCaptions)
        } else {
            Err(Error::invalid_input(s))
        }
    }

    pub fn as_str(&self) -> (r: &'static str)
        ensures
            r@ == self.text(),
    {
        match self {
            MediaType::Audio => "AUDIO",
            MediaType::Video => "VIDEO",
            MediaType::Subtitles => "SUBTITLES",
            MediaType::ClosedCaptions => "CLOSED-CAPTIONS",
        }
    }

    pub fn to_string(&self) -> (r: String)
        ensures
            r@ == self.text(),
    {
        self.as_str().to_owned()
    }
}
/// An enumerated `YES` or `NO`.
#[derive(Debug, Clone, Copy, PartialEq, Eq, Hash, Structural)]
pub enum YesOrNo {
    Yes,
    No,
}

impl YesOrNo {
    pub open spec fn text(self) -> Seq<char> {
        match self {
            YesOrNo::Yes => "YES"@,
            YesOrNo::No => "NO"@,
        }
    }

    /// Exactly one of the names, case included.
    pub open spec fn spec_parse(s: Seq<char>) -> Option<YesOrNo> {
        if s == "YES"@ {
            Some(YesOrNo::Yes)
        } else if s == "NO"@ {
            Some(YesOrNo::No)
        } else {
            None
        }
    }

    pub proof fn lemma_text(self)
        ensures
            YesOrNo::spec_parse(self.text()) == Some(self),
            value_ok(self.text()),
    {
        reveal_strlit("NO");
        reveal_strlit("YES");
    }

    pub fn from_str(s: &str) -> (r: Result<YesOrNo, Error>)
        ensures
            match r {
                Ok(v) => YesOrNo::spec_parse(s@) == Some(v),
                Err(_) => YesOrNo::spec_parse(s@) is None,
            },
    {
        if str_eq(s, "YES") {
            Ok(YesOrNo::Yes)
        } else if str_eq(s, "NO") {
            Ok(YesOrNo::No)
        } else {
            Err(Error::invalid_input(s))
        }
    }

    pub fn as_str(&self) -> (r: &'static str)
        ensures
            r@ == self.text(),
    {
        match self {
            YesOrNo::Yes => "YES",
            YesOrNo::No => "NO",
        }
    }

    pub fn to_string(&self) -> (r: String)
        ensures
            r@ == self.text(),
    {
        self.as_str().to_owned()
    }
}
/// The output protection that a variant stream needs.
#[derive(Debug, Clone, Copy, PartialEq, Eq, Hash, Structural)]
pub enum HdcpLevel {
    Type0,
    NoHdcp,
}

impl HdcpLevel {
    pub open spec fn text(self) -> Seq<char> {
        match self {
            HdcpLevel::Type0 => "TYPE-0"@,
            HdcpLevel::NoHdcp => "NONE"@,
        }
    }

    /// Exactly one of the names, case included.
    pub open spec fn spec_parse(s: Seq<char>) -> Option<HdcpLevel> {
        if s == "TYPE-0"@ {
            Some(HdcpLevel::Type0)
        } else if s == "NONE"@ {
            Some(HdcpLevel::NoHdcp)
        } else {
            None
        }
    }

    pub proof fn lemma_text(self)
        ensures
            HdcpLevel::spec_parse(self.text()) == Some(self),
            value_ok(self.text()),
    {
        reveal_strlit("NONE");
        reveal_strlit("TYPE-0");
    }

    pub fn from_str(s: &str) -> (r: Result<HdcpLevel, Error>)
        ensures
            match r {
                Ok(v) => HdcpLevel::spec_parse(s@) == Some(v),
                Err(_) => HdcpLevel::spec_parse(s@) is None,
            },
    {
        if str_eq(s, "TYPE-0") {
            Ok(HdcpLevel::Type0)
        } else if str_eq(s, "NONE") {
            Ok(HdcpLevel::NoHdcp)
        } else {
            Err(Error::invalid_input(s))
        }
    }

    pub fn as_str(&self) -> (r: &'static str)
        ensures
            r@ == self.text(),
    {
        match self {
            HdcpLevel::Type0 => "TYPE-0",
            HdcpLevel::NoHdcp => "NONE",
        }
    }

    pub fn to_string(&self) -> (r: String)
        ensures
            r@ == self.text(),
    {
        self.as_str().to_owned()
    }
}
/// The single value `YES`.
#[derive(Debug, Clone, Copy, PartialEq, Eq, Hash, Structural)]
pub struct Yes;

impl Yes {
    pub open spec fn text(self) -> Seq<char> {
        "YES"@
    }

    pub open spec fn spec_parse(s: Seq<char>) -> Option<Yes> {
        if s == "YES"@ {
            Some(Yes)
        } else {
            None
        }
    }

    pub proof fn lemma_text(self)
        ensures
            Yes::spec_parse(self.text()) == Some(self),
            value_ok(self.text()),
    {
        reveal_strlit("YES");
    }

    pub fn from_str(s: &str) -> (r: Result<Yes, Error>)
        ensures
            match r {
                Ok(v) => Yes::spec_parse(s@) == Some(v),
                Err(_) => Yes::spec_parse(s@) is None,
            },
    {
        if str_eq(s, "YES") {
            Ok(Yes)
        } else {
            Err(Error::invalid_input(s))
        }
    }

    pub fn to_string(&self) -> (r: String)
        ensures
            r@ == self.text(),
    {
        "YES".to_owned()
    }
}

/// The closed-captions rendition group of a variant stream, or none at all.
#[derive(Debug, Clone)]
pub enum ClosedCaptions {
    GroupId(QuotedString),
    NoCaptions,
}

impl View for ClosedCaptions {
    type V = Option<Seq<char>>;

    open spec fn view(&self) -> Option<Seq<char>> {
        match self {
            ClosedCaptions::GroupId(q) => Some(q@),
            ClosedCaptions::NoCaptions => None,
        }
    }
}

/// `NONE`, or a quoted group id.
pub open spec fn parse_closed_captions(s: Seq<char>) -> Option<Option<Seq<char>>> {
    if s == "NONE"@ {
        Some(None)
    } else {
        match parse_quoted(s) {
            Some(q) => Some(Some(q)),
            None => None,
        }
    }
}

pub open spec fn closed_captions_text(v: Option<Seq<char>>) -> Seq<char> {
    match v {
        Some(g) => quoted_text(g),
        None => "NONE"@,
    }
}

pub open spec fn closed_captions_ok(v: Option<Seq<char>>) -> bool {
    v matches Some(g) ==> quotable(g)
}

pub proof fn lemma_closed_captions_round_trip(v: Option<Seq<char>>)
    requires
        closed_captions_ok(v),
    ensures
        parse_closed_captions(closed_captions_text(v)) == Some(v),
        value_ok(closed_captions_text(v)),
{
    reveal_strlit("NONE");
    if let Some(g) = v {
        lemma_quoted_round_trip(g);
        let t = quoted_text(g);
        assert(t[0] == '"');
        assert(t[t.len() - 1] == '"');
        assert forall|i: int| 1 <= i < t.len() - 1 implies #[trigger] t[i] != '"' by {
            assert(t[i] == g[i - 1]);
        }
    }
}

impl ClosedCaptions {
    pub open spec fn wf(&self) -> bool {
        closed_captions_ok(self@)
    }

    pub fn from_str(s: &str) -> (r: Result<ClosedCaptions, Error>)
        ensures
            match r {
                Ok(v) => parse_closed_captions(s@) == Some(v@) && v.wf(),
                Err(_) => parse_closed_captions(s@) is None,
            },
    {
        if str_eq(s, "NONE") {
            Ok(ClosedCaptions::NoCaptions)
        } else {
            let q = QuotedString::from_str(s)?;
            Ok(ClosedCaptions::GroupId(q))
        }
    }

    pub fn to_string(&self) -> (r: String)
        ensures
            r@ == closed_captions_text(self@),
    {
        match self {
            ClosedCaptions::GroupId(q) => q.to_string(),
            ClosedCaptions::NoCaptions => "NONE".to_owned(),
        }
    }
}

/// A version of the playlist format; later versions allow more.
#[derive(Debug, Clone, Copy, PartialEq, Eq, PartialOrd, Ord, Hash, Structural)]
pub enum ProtocolVersion {
    V1,
    V2,
    V3,
    V4,
    V5,
    V6,
    V7,
}

impl ProtocolVersion {
    pub open spec fn number(self) -> u64 {
        match self {
            ProtocolVersion::V1 => 1,
            ProtocolVersion::V2 => 2,
            ProtocolVersion::V3 => 3,
            ProtocolVersion::V4 => 4,
            ProtocolVersion::V5 => 5,
            ProtocolVersion::V6 => 6,
            ProtocolVersion::V7 => 7,
        }
    }

    pub open spec fn text(self) -> Seq<char> {
        decimal(self.number() as nat)
    }

    /// A decimal integer from 1 to 7.
    pub open spec fn spec_parse(s: Seq<char>) -> Option<ProtocolVersion> {
        match parse_u64(s) {
            Some(n) => if n == 1 {
                Some(ProtocolVersion::V1)
            } else if n == 2 {
                Some(ProtocolVersion::V2)
            } else if n == 3 {
                Some(ProtocolVersion::V3)
            } else if n == 4 {
                Some(ProtocolVersion::V4)
            } else if n == 5 {
                Some(ProtocolVersion::V5)
            } else if n == 6 {
                Some(ProtocolVersion::V6)
            } else if n == 7 {
                Some(ProtocolVersion::V7)
            } else {
                None
            },
            None => None,
        }
    }

    pub proof fn lemma_text(self)
        ensures
            ProtocolVersion::spec_parse(self.text()) == Some(self),
    {
        lemma_decimal(self.number() as nat);
    }

    pub fn number_of(&self) -> (r: u64)
        ensures
            r == self.number(),
    {
        match self {
            ProtocolVersion::V1 => 1,
            ProtocolVersion::V2 => 2,
            ProtocolVersion::V3 => 3,
            ProtocolVersion::V4 => 4,
            ProtocolVersion::V5 => 5,
            ProtocolVersion::V6 => 6,
            ProtocolVersion::V7 => 7,
        }
    }

    pub fn from_str(s: &str) -> (r: Result<ProtocolVersion, Error>)
        ensures
            match r {
                Ok(v) => ProtocolVersion::spec_parse(s@) == Some(v),
                Err(_) => ProtocolVersion::spec_parse(s@) is None,
            },
    {
        let cs = char_vec(s);
        assert(cs@.subrange(0, cs@.len() as int) =~= s@);
        match parse_u64_at(&cs, 0, cs.len()) {
            Some(1) => Ok(ProtocolVersion::V1),
            Some(2) => Ok(ProtocolVersion::V2),
            Some(3) => Ok(ProtocolVersion::V3),
            Some(4) => Ok(ProtocolVersion::V4),
            Some(5) => Ok(ProtocolVersion::V5),
            Some(6) => Ok(ProtocolVersion::V6),
            Some(7) => Ok(ProtocolVersion::V7),
            _ => Err(Error::invalid_input(s)),
        }
    }
}

} // verus!
