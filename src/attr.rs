use vstd::prelude::*;
use crate::decimal::{
    Duration, duration_string, duration_text, parse_duration, DecimalFloatingPoint,
    DecimalResolution, SignedDecimalFloatingPoint, float_text, lemma_float_round_trip,
    lemma_float_text_start, lemma_resolution_round_trip, lemma_signed_float_round_trip, parse_float,
    parse_resolution, parse_signed_float, resolution_text, signed_float_text,
};
use crate::pairs::value_ok;
use crate::tokens::{
    EncryptionMethod, HdcpLevel, MediaType, SessionEncryptionMethod, Yes, YesOrNo, ClosedCaptions,
    closed_captions_ok, closed_captions_text, lemma_closed_captions_round_trip,
    parse_closed_captions,
};
use crate::value::DecimalInteger;
use crate::text::{
    all_digits, char_vec, decimal, is_digit, is_prefix, lemma_decimal, parse_u64, range_eq,
};
use crate::value::{
    HexadecimalSequence, QuotedString, hex_text, lemma_hex_round_trip, lemma_quoted_round_trip,
    parse_hex, parse_quoted, quotable, quoted_text,
};

verus! {

broadcast use vstd::string::group_string_axioms;

/// What follows `prefix` in `line`, if `line` starts with it.
pub open spec fn body(line: Seq<char>, prefix: Seq<char>) -> Option<Seq<char>> {
    if is_prefix(prefix, line) {
        Some(line.skip(prefix.len() as int))
    } else {
        None
    }
}

pub open spec fn opt_quotable(o: Option<Seq<char>>) -> bool {
    o matches Some(q) ==> quotable(q)
}

pub open spec fn qv(o: Option<QuotedString>) -> Option<Seq<char>> {
    match o {
        Some(q) => Some(q@),
        None => None,
    }
}

pub open spec fn hv(o: Option<HexadecimalSequence>) -> Option<Seq<u8>> {
    match o {
        Some(h) => Some(h@),
        None => None,
    }
}

pub proof fn lemma_body(prefix: Seq<char>, rest: Seq<char>)
    ensures
        body(prefix + rest, prefix) == Some(rest),
{
    assert((prefix + rest).subrange(0, prefix.len() as int) =~= prefix);
    assert((prefix + rest).skip(prefix.len() as int) =~= rest);
}

/// What follows `prefix` in `line`, if `line` starts with it.
pub fn strip_prefix<'a>(line: &'a str, prefix: &str) -> (r: Option<&'a str>)
    ensures
        match r {
            Some(b) => body(line@, prefix@) == Some(b@),
            None => body(line@, prefix@) is None,
        },
{
    let cs = char_vec(line);
    let ps = char_vec(prefix);
    if ps.len() > cs.len() {
        return None;
    }
    if !range_eq(&cs, 0, ps.len(), &ps) {
        return None;
    }
    let b = line.substring_char(ps.len(), cs.len());
    assert(b@ =~= line@.skip(prefix@.len() as int));
    Some(b)
}

pub proof fn lemma_quoted_value(q: Seq<char>)
    requires
        quotable(q),
    ensures
        value_ok(quoted_text(q)),
        parse_quoted(quoted_text(q)) == Some(q),
{
    lemma_quoted_round_trip(q);
    let t = quoted_text(q);
    assert(t[0] == '"');
    assert(t[t.len() - 1] == '"');
    assert forall|i: int| 1 <= i < t.len() - 1 implies #[trigger] t[i] != '"' by {
        assert(t[i] == q[i - 1]);
    }
}

pub proof fn lemma_digits_value_ok(s: Seq<char>)
    requires
        all_digits(s),
    ensures
        value_ok(s),
{
    assert forall|i: int| 0 <= i < s.len() implies #[trigger] s[i] != ',' by {
        assert(is_digit(s[i]));
    }
    if s.len() > 0 {
        assert(is_digit(s[0]));
    }
}

pub proof fn lemma_decimal_value(n: u64)
    ensures
        value_ok(decimal(n as nat)),
        parse_u64(decimal(n as nat)) == Some(n),
{
    lemma_decimal(n as nat);
    lemma_digits_value_ok(decimal(n as nat));
}

pub proof fn lemma_hex_value(b: Seq<u8>)
    ensures
        value_ok(hex_text(b)),
        parse_hex(hex_text(b)) == Some(b),
{
    lemma_hex_round_trip(b);
    let t = hex_text(b);
    assert(t[0] == '0');
    assert forall|i: int| 0 <= i < t.len() implies #[trigger] t[i] != ',' by {
        if i >= 2 {
            let j = i - 2;
            let d = if j % 2 == 0 {
                b[j / 2] / 16
            } else {
                b[j / 2] % 16
            } as int;
            assert(0 <= d < 16);
        }
    }
}

pub proof fn lemma_float_value(v: DecimalFloatingPoint)
    requires
        v.wf(),
    ensures
        value_ok(float_text(v)),
        parse_float(float_text(v)) == Some(v),
        forall|i: int| 0 <= i < float_text(v).len() ==> #[trigger] float_text(v)[i] != ',',
        float_text(v).len() > 0 && is_digit(float_text(v)[0]),
{
    lemma_float_round_trip(v);
    lemma_float_text_start(v);
    lemma_decimal(v.secs as nat);
    let t = float_text(v);
    let d = decimal(v.secs as nat);
    if v.nanos == 0 {
        assert forall|i: int| 0 <= i < t.len() implies #[trigger] t[i] != ',' by {
            assert(is_digit(d[i]));
        }
    } else {
        crate::decimal::lemma_fraction(v.nanos as nat);
        let f = crate::decimal::fraction_text(v.nanos as nat);
        assert(t =~= d + seq!['.'] + f);
        assert forall|i: int| 0 <= i < t.len() implies #[trigger] t[i] != ',' by {
            if i < d.len() {
                assert(t[i] == d[i]);
                assert(is_digit(d[i]));
            } else if i > d.len() {
                assert(t[i] == f[i - d.len() - 1]);
                assert(is_digit(f[i - d.len() - 1]));
            } else {
                assert(t[i] == '.');
            }
        }
    }
}

pub proof fn lemma_signed_float_value(v: SignedDecimalFloatingPoint)
    requires
        v.wf(),
    ensures
        value_ok(signed_float_text(v)),
        parse_signed_float(signed_float_text(v)) == Some(v),
{
    lemma_signed_float_round_trip(v);
    lemma_float_value(v.magnitude);
    let t = signed_float_text(v);
    if v.negative {
        assert forall|i: int| 0 <= i < t.len() implies #[trigger] t[i] != ',' by {
            if i > 0 {
                assert(t[i] == float_text(v.magnitude)[i - 1]);
            }
        }
    }
}

pub proof fn lemma_resolution_value(v: DecimalResolution)
    requires
        v.wf(),
    ensures
        value_ok(resolution_text(v)),
        parse_resolution(resolution_text(v)) == Some(v),
{
    lemma_resolution_round_trip(v);
    lemma_decimal(v.width as nat);
    lemma_decimal(v.height as nat);
    let t = resolution_text(v);
    let w = decimal(v.width as nat);
    assert(is_digit(w[0]));
    assert forall|i: int| 0 <= i < t.len() implies #[trigger] t[i] != ',' by {
        if i < w.len() {
            assert(is_digit(w[i]));
        } else if i > w.len() {
            assert(t[i] == decimal(v.height as nat)[i - w.len() - 1]);
            assert(is_digit(decimal(v.height as nat)[i - w.len() - 1]));
        }
    }
}

pub open spec fn opt_quoted_text(o: Option<Seq<char>>) -> Option<Seq<char>> {
    match o {
        Some(q) => Some(quoted_text(q)),
        None => None,
    }
}

pub open spec fn opt_hex_text(o: Option<Seq<u8>>) -> Option<Seq<char>> {
    match o {
        Some(b) => Some(hex_text(b)),
        None => None,
    }
}

pub open spec fn opt_decimal_text(o: Option<u64>) -> Option<Seq<char>> {
    match o {
        Some(n) => Some(decimal(n as nat)),
        None => None,
    }
}

pub open spec fn opt_float_text(o: Option<DecimalFloatingPoint>) -> Option<Seq<char>> {
    match o {
        Some(v) => Some(float_text(v)),
        None => None,
    }
}

pub open spec fn opt_resolution_text(o: Option<DecimalResolution>) -> Option<Seq<char>> {
    match o {
        Some(v) => Some(resolution_text(v)),
        None => None,
    }
}

/// The quoted text of an optional quoted string.
pub fn opt_quoted_string(o: &Option<QuotedString>) -> (r: Option<String>)
    ensures
        crate::pairs::opt_view(r) == opt_quoted_text(qv(*o)),
{
    match o {
        Some(q) => Some(q.to_string()),
        None => None,
    }
}

pub fn opt_hex_string(o: &Option<HexadecimalSequence>) -> (r: Option<String>)
    ensures
        crate::pairs::opt_view(r) == opt_hex_text(hv(*o)),
{
    match o {
        Some(h) => Some(h.to_string()),
        None => None,
    }
}

pub fn opt_decimal_string(o: Option<u64>) -> (r: Option<String>)
    ensures
        crate::pairs::opt_view(r) == opt_decimal_text(o),
{
    match o {
        Some(n) => {
            let mut out = String::new();
            crate::text::append_decimal(&mut out, n);
            assert(out@ =~= decimal(n as nat));
            Some(out)
        },
        None => None,
    }
}

pub fn opt_float_string(o: Option<DecimalFloatingPoint>) -> (r: Option<String>)
    requires
        o matches Some(v) ==> v.wf(),
    ensures
        crate::pairs::opt_view(r) == opt_float_text(o),
{
    match o {
        Some(v) => Some(v.to_string()),
        None => None,
    }
}

pub fn opt_resolution_string(o: Option<DecimalResolution>) -> (r: Option<String>)
    ensures
        crate::pairs::opt_view(r) == opt_resolution_text(o),
{
    match o {
        Some(v) => Some(v.to_string()),
        None => None,
    }
}

pub open spec fn dv(o: Option<DecimalInteger>) -> Option<u64> {
    match o {
        Some(n) => Some(n.0),
        None => None,
    }
}

pub fn dv_exec(o: Option<DecimalInteger>) -> (r: Option<u64>)
    ensures
        r == dv(o),
{
    match o {
        Some(n) => Some(n.0),
        None => None,
    }
}

pub open spec fn ccv(o: Option<ClosedCaptions>) -> Option<Option<Seq<char>>> {
    match o {
        Some(c) => Some(c@),
        None => None,
    }
}

pub open spec fn opt_cc_text(o: Option<Option<Seq<char>>>) -> Option<Seq<char>> {
    match o {
        Some(c) => Some(closed_captions_text(c)),
        None => None,
    }
}

pub fn opt_cc_string(o: &Option<ClosedCaptions>) -> (r: Option<String>)
    ensures
        crate::pairs::opt_view(r) == opt_cc_text(ccv(*o)),
{
    match o {
        Some(c) => Some(c.to_string()),
        None => None,
    }
}

pub open spec fn opt_duration_text(o: Option<Duration>) -> Option<Seq<char>> {
    match o {
        Some(d) => Some(duration_text(d)),
        None => None,
    }
}

pub proof fn lemma_duration_value(d: Duration)
    requires
        d.wf(),
    ensures
        value_ok(duration_text(d)),
        parse_duration(duration_text(d)) == Some(d),
{
    lemma_float_value(DecimalFloatingPoint { secs: d.secs, nanos: d.nanos });
}

pub fn opt_duration_string(o: Option<Duration>) -> (r: Option<String>)
    requires
        o matches Some(d) ==> d.wf(),
    ensures
        crate::pairs::opt_view(r) == opt_duration_text(o),
{
    match o {
        Some(d) => Some(duration_string(d)),
        None => None,
    }
}

pub proof fn lemma_closed_captions_value(c: Option<Seq<char>>)
    requires
        closed_captions_ok(c),
    ensures
        value_ok(closed_captions_text(c)),
        parse_closed_captions(closed_captions_text(c)) == Some(c),
{
    lemma_closed_captions_round_trip(c);
}

/// What an optional attribute of this kind reads as: `Some(None)` when it is
/// absent, `None` when its value does not parse.
pub open spec fn field_quoted(o: Option<Seq<char>>) -> Option<Option<Seq<char>>> {
    match o {
        None => Some(None),
        Some(raw) => match parse_quoted(raw) {
            Some(x) => Some(Some(x)),
            None => None,
        },
    }
}

pub proof fn lemma_field_quoted(o: Option<Seq<char>>)
    requires
        o matches Some(x) ==> quotable(x),
    ensures
        field_quoted(opt_quoted_text(o)) == Some(o),
        o matches Some(x) ==> value_ok(quoted_text(x)),
{
    if let Some(x) = o {
        lemma_quoted_value(x);
    }
}

/// What an optional attribute of this kind reads as: `Some(None)` when it is
/// absent, `None` when its value does not parse.
pub open spec fn field_hex(o: Option<Seq<char>>) -> Option<Option<Seq<u8>>> {
    match o {
        None => Some(None),
        Some(raw) => match parse_hex(raw) {
            Some(x) => Some(Some(x)),
            None => None,
        },
    }
}

pub proof fn lemma_field_hex(o: Option<Seq<u8>>)
    ensures
        field_hex(opt_hex_text(o)) == Some(o),
        o matches Some(x) ==> value_ok(hex_text(x)),
{
    if let Some(x) = o {
        lemma_hex_value(x);
    }
}

/// What an optional attribute of this kind reads as: `Some(None)` when it is
/// absent, `None` when its value does not parse.
pub open spec fn field_u64(o: Option<Seq<char>>) -> Option<Option<u64>> {
    match o {
        None => Some(None),
        Some(raw) => match parse_u64(raw) {
            Some(x) => Some(Some(x)),
            None => None,
        },
    }
}

pub proof fn lemma_field_u64(o: Option<u64>)
    ensures
        field_u64(opt_decimal_text(o)) == Some(o),
        o matches Some(x) ==> value_ok(decimal(x as nat)),
{
    if let Some(x) = o {
        lemma_decimal_value(x);
    }
}

/// What an optional attribute of this kind reads as: `Some(None)` when it is
/// absent, `None` when its value does not parse.
pub open spec fn field_float(o: Option<Seq<char>>) -> Option<Option<DecimalFloatingPoint>> {
    match o {
        None => Some(None),
        Some(raw) => match parse_float(raw) {
            Some(x) => Some(Some(x)),
            None => None,
        },
    }
}

pub proof fn lemma_field_float(o: Option<DecimalFloatingPoint>)
    requires
        o matches Some(x) ==> x.wf(),
    ensures
        field_float(opt_float_text(o)) == Some(o),
        o matches Some(x) ==> value_ok(float_text(x)),
{
    if let Some(x) = o {
        lemma_float_value(x);
    }
}

/// What an optional attribute of this kind reads as: `Some(None)` when it is
/// absent, `None` when its value does not parse.
pub open spec fn field_signed(o: Option<Seq<char>>) -> Option<Option<SignedDecimalFloatingPoint>> {
    match o {
        None => Some(None),
        Some(raw) => match parse_signed_float(raw) {
            Some(x) => Some(Some(x)),
            None => None,
        },
    }
}

pub open spec fn opt_signed_text(o: Option<SignedDecimalFloatingPoint>) -> Option<Seq<char>> {
    match o {
        Some(x) => Some(signed_float_text(x)),
        None => None,
    }
}

pub proof fn lemma_field_signed(o: Option<SignedDecimalFloatingPoint>)
    requires
        o matches Some(x) ==> x.wf(),
    ensures
        field_signed(opt_signed_text(o)) == Some(o),
        o matches Some(x) ==> value_ok(signed_float_text(x)),
{
    if let Some(x) = o {
        lemma_signed_float_value(x);
    }
}

/// What an optional attribute of this kind reads as: `Some(None)` when it is
/// absent, `None` when its value does not parse.
pub open spec fn field_resolution(o: Option<Seq<char>>) -> Option<Option<DecimalResolution>> {
    match o {
        None => Some(None),
        Some(raw) => match parse_resolution(raw) {
            Some(x) => Some(Some(x)),
            None => None,
        },
    }
}

pub proof fn lemma_field_resolution(o: Option<DecimalResolution>)
    requires
        o matches Some(x) ==> x.wf(),
    ensures
        field_resolution(opt_resolution_text(o)) == Some(o),
        o matches Some(x) ==> value_ok(resolution_text(x)),
{
    if let Some(x) = o {
        lemma_resolution_value(x);
    }
}

/// What an optional attribute of this kind reads as: `Some(None)` when it is
/// absent, `None` when its value does not parse.
pub open spec fn field_duration(o: Option<Seq<char>>) -> Option<Option<Duration>> {
    match o {
        None => Some(None),
        Some(raw) => match parse_duration(raw) {
            Some(x) => Some(Some(x)),
            None => None,
        },
    }
}

pub proof fn lemma_field_duration(o: Option<Duration>)
    requires
        o matches Some(x) ==> x.wf(),
    ensures
        field_duration(opt_duration_text(o)) == Some(o),
        o matches Some(x) ==> value_ok(duration_text(x)),
{
    if let Some(x) = o {
        lemma_duration_value(x);
    }
}

/// What an optional attribute of this kind reads as: `Some(None)` when it is
/// absent, `None` when its value does not parse.
pub open spec fn field_cc(o: Option<Seq<char>>) -> Option<Option<Option<Seq<char>>>> {
    match o {
        None => Some(None),
        Some(raw) => match parse_closed_captions(raw) {
            Some(x) => Some(Some(x)),
            None => None,
        },
    }
}

pub proof fn lemma_field_cc(o: Option<Option<Seq<char>>>)
    requires
        o matches Some(x) ==> closed_captions_ok(x),
    ensures
        field_cc(opt_cc_text(o)) == Some(o),
        o matches Some(x) ==> value_ok(closed_captions_text(x)),
{
    if let Some(x) = o {
        lemma_closed_captions_value(x);
    }
}

/// What an optional attribute of this kind reads as: `Some(None)` when it is
/// absent, `None` when its value does not parse.
pub open spec fn field_encryption_method(o: Option<Seq<char>>) -> Option<Option<EncryptionMethod>> {
    match o {
        None => Some(None),
        Some(raw) => match EncryptionMethod::spec_parse(raw) {
            Some(x) => Some(Some(x)),
            None => None,
        },
    }
}

pub open spec fn opt_encryption_method_text(o: Option<EncryptionMethod>) -> Option<Seq<char>> {
    match o {
        Some(x) => Some(x.text()),
        None => None,
    }
}

pub proof fn lemma_field_encryption_method(o: Option<EncryptionMethod>)
    ensures
        field_encryption_method(opt_encryption_method_text(o)) == Some(o),
        o matches Some(x) ==> value_ok(x.text()),
{
    if let Some(x) = o {
        x.lemma_text();
    }
}

/// What an optional attribute of this kind reads as: `Some(None)` when it is
/// absent, `None` when its value does not parse.
pub open spec fn field_session_encryption_method(o: Option<Seq<char>>) -> Option<Option<SessionEncryptionMethod>> {
    match o {
        None => Some(None),
        Some(raw) => match SessionEncryptionMethod::spec_parse(raw) {
            Some(x) => Some(Some(x)),
            None => None,
        },
    }
}

pub open spec fn opt_session_encryption_method_text(o: Option<SessionEncryptionMethod>) -> Option<Seq<char>> {
    match o {
        Some(x) => Some(x.text()),
        None => None,
    }
}

pub proof fn lemma_field_session_encryption_method(o: Option<SessionEncryptionMethod>)
    ensures
        field_session_encryption_method(opt_session_encryption_method_text(o)) == Some(o),
        o matches Some(x) ==> value_ok(x.text()),
{
    if let Some(x) = o {
        x.lemma_text();
    }
}

/// What an optional attribute of this kind reads as: `Some(None)` when it is
/// absent, `None` when its value does not parse.
pub open spec fn field_media_type(o: Option<Seq<char>>) -> Option<Option<MediaType>> {
    match o {
        None => Some(None),
        Some(raw) => match MediaType::spec_parse(raw) {
            Some(x) => Some(Some(x)),
            None => None,
        },
    }
}

pub open spec fn opt_media_type_text(o: Option<MediaType>) -> Option<Seq<char>> {
    match o {
        Some(x) => Some(x.text()),
        None => None,
    }
}

pub proof fn lemma_field_media_type(o: Option<MediaType>)
    ensures
        field_media_type(opt_media_type_text(o)) == Some(o),
        o matches Some(x) ==> value_ok(x.text()),
{
    if let Some(x) = o {
        x.lemma_text();
    }
}

/// What an optional attribute of this kind reads as: `Some(None)` when it is
/// absent, `None` when its value does not parse.
pub open spec fn field_yes_or_no(o: Option<Seq<char>>) -> Option<Option<YesOrNo>> {
    match o {
        None => Some(None),
        Some(raw) => match YesOrNo::spec_parse(raw) {
            Some(x) => Some(Some(x)),
            None => None,
        },
    }
}

pub open spec fn opt_yes_or_no_text(o: Option<YesOrNo>) -> Option<Seq<char>> {
    match o {
        Some(x) => Some(x.text()),
        None => None,
    }
}

pub proof fn lemma_field_yes_or_no(o: Option<YesOrNo>)
    ensures
        field_yes_or_no(opt_yes_or_no_text(o)) == Some(o),
        o matches Some(x) ==> value_ok(x.text()),
{
    if let Some(x) = o {
        x.lemma_text();
    }
}

/// What an optional attribute of this kind reads as: `Some(None)` when it is
/// absent, `None` when its value does not parse.
pub open spec fn field_hdcp_level(o: Option<Seq<char>>) -> Option<Option<HdcpLevel>> {
    match o {
        None => Some(None),
        Some(raw) => match HdcpLevel::spec_parse(raw) {
            Some(x) => Some(Some(x)),
            None => None,
        },
    }
}

pub open spec fn opt_hdcp_level_text(o: Option<HdcpLevel>) -> Option<Seq<char>> {
    match o {
        Some(x) => Some(x.text()),
        None => None,
    }
}

pub proof fn lemma_field_hdcp_level(o: Option<HdcpLevel>)
    ensures
        field_hdcp_level(opt_hdcp_level_text(o)) == Some(o),
        o matches Some(x) ==> value_ok(x.text()),
{
    if let Some(x) = o {
        x.lemma_text();
    }
}

/// What an optional attribute of this kind reads as: `Some(None)` when it is
/// absent, `None` when its value does not parse.
pub open spec fn field_yes(o: Option<Seq<char>>) -> Option<Option<Yes>> {
    match o {
        None => Some(None),
        Some(raw) => match Yes::spec_parse(raw) {
            Some(x) => Some(Some(x)),
            None => None,
        },
    }
}

pub open spec fn opt_yes_text(o: Option<Yes>) -> Option<Seq<char>> {
    match o {
        Some(x) => Some(x.text()),
        None => None,
    }
}

pub proof fn lemma_field_yes(o: Option<Yes>)
    ensures
        field_yes(opt_yes_text(o)) == Some(o),
        o matches Some(x) ==> value_ok(x.text()),
{
    if let Some(x) = o {
        x.lemma_text();
    }
}

/// A defaulted `YES`/`NO` attribute is written only when it is `YES`.
pub open spec fn yes_only(y: YesOrNo) -> Option<YesOrNo> {
    if y == YesOrNo::Yes {
        Some(y)
    } else {
        None
    }
}

} // verus!
