use vstd::prelude::*;
use crate::error::Error;
use crate::text::{append_decimal, char_vec, decimal, parse_u64, parse_u64_at};

verus! {

broadcast use vstd::string::group_string_axioms;

pub open spec fn is_control(c: char) -> bool {
    (c as u32) < 0x20 || (0x7f <= (c as u32) && (c as u32) <= 0x9f)
}

/// Text that may stand between double quotes: no quote and no control character.
pub open spec fn quotable(s: Seq<char>) -> bool {
    forall|i: int| 0 <= i < s.len() ==> #[trigger] s[i] != '"' && !is_control(s[i])
}

pub open spec fn quoted_text(s: Seq<char>) -> Seq<char> {
    seq!['"'] + s + seq!['"']
}

/// A quoted string: a double quote, quotable text, a double quote.
pub open spec fn parse_quoted(s: Seq<char>) -> Option<Seq<char>> {
    if s.len() >= 2 && s[0] == '"' && s[s.len() - 1] == '"' && quotable(
        s.subrange(1, s.len() - 1),
    ) {
        Some(s.subrange(1, s.len() - 1))
    } else {
        None
    }
}

/// Text that fits on one line.
pub open spec fn line_safe(s: Seq<char>) -> bool {
    forall|i: int| 0 <= i < s.len() ==> #[trigger] s[i] != '\n' && s[i] != '\r'
}

pub proof fn lemma_quoted_round_trip(s: Seq<char>)
    requires
        quotable(s),
    ensures
        parse_quoted(quoted_text(s)) == Some(s),
{
    let t = quoted_text(s);
    assert(t.subrange(1, t.len() - 1) =~= s);
}

fn is_quotable_char(c: char) -> (r: bool)
    ensures
        r == (c != '"' && !is_control(c)),
{
    let u = c as u32;
    c != '"' && !(u < 0x20 || (0x7f <= u && u <= 0x9f))
}

fn quotable_range(cs: &Vec<char>, start: usize, end: usize) -> (r: bool)
    requires
        start <= end <= cs@.len(),
    ensures
        r == quotable(cs@.subrange(start as int, end as int)),
{
    let ghost s = cs@.subrange(start as int, end as int);
    let mut i: usize = start;
    while i < end
        invariant
            start <= i <= end <= cs@.len(),
            s == cs@.subrange(start as int, end as int),
            forall|k: int| start <= k < i ==> cs@[k] != '"' && !is_control(cs@[k]),
        decreases end - i,
    {
        if !is_quotable_char(cs[i]) {
            assert(s[i - start] == cs@[i as int]);
            return false;
        }
        i = i + 1;
    }
    assert forall|k: int| 0 <= k < s.len() implies #[trigger] s[k] != '"' && !is_control(s[k]) by {
        assert(s[k] == cs@[start + k]);
    }
    true
}

/// Text between double quotes, without the quotes.
#[derive(Debug, Clone)]
pub struct QuotedString {
    value: String,
}

impl View for QuotedString {
    type V = Seq<char>;

    closed spec fn view(&self) -> Seq<char> {
        self.value@
    }
}

impl QuotedString {
    pub open spec fn wf(&self) -> bool {
        quotable(self@)
    }

    /// Wraps `s`, which must hold no double quote and no control character.
    pub fn new(s: &str) -> (r: Result<QuotedString, Error>)
        ensures
            r is Ok <==> quotable(s@),
            r matches Ok(q) ==> q@ == s@,
    {
        let cs = char_vec(s);
        if quotable_range(&cs, 0, cs.len()) {
            assert(cs@.subrange(0, cs@.len() as int) =~= s@);
            Ok(QuotedString { value: s.to_owned() })
        } else {
            assert(cs@.subrange(0, cs@.len() as int) =~= s@);
            Err(Error::invalid_input(s))
        }
    }

    /// Reads a quoted string, quotes included.
    pub fn from_str(s: &str) -> (r: Result<QuotedString, Error>)
        ensures
            match r {
                Ok(q) => parse_quoted(s@) == Some(q@),
                Err(_) => parse_quoted(s@) is None,
            },
    {
        let cs = char_vec(s);
        let n = cs.len();
        if n < 2 || cs[0] != '"' || cs[n - 1] != '"' || !quotable_range(&cs, 1, n - 1) {
            return Err(Error::invalid_input(s));
        }
        let inner = s.substring_char(1, n - 1);
        Ok(QuotedString { value: inner.to_owned() })
    }

    pub fn as_str(&self) -> (r: &str)
        ensures
            r@ == self@,
    {
        self.value.as_str()
    }

    /// The quoted form: the text between two double quotes.
    pub fn to_string(&self) -> (r: String)
        ensures
            r@ == quoted_text(self@),
    {
        proof {
            reveal_strlit("\"");
        }
        let mut out = String::new();
        out.append("\"");
        out.append(self.value.as_str());
        out.append("\"");
        assert(out@ =~= quoted_text(self@));
        out
    }
}

/// Text without line breaks.
#[derive(Debug, Clone)]
pub struct M3u8String {
    value: String,
}

impl View for M3u8String {
    type V = Seq<char>;

    closed spec fn view(&self) -> Seq<char> {
        self.value@
    }
}

impl M3u8String {
    pub open spec fn wf(&self) -> bool {
        line_safe(self@)
    }

    /// Wraps `s`, which must hold no line feed and no carriage return.
    pub fn new(s: &str) -> (r: Result<M3u8String, Error>)
        ensures
            r is Ok <==> line_safe(s@),
            r matches Ok(m) ==> m@ == s@,
    {
        let cs = char_vec(s);
        let mut i: usize = 0;
        while i < cs.len()
            invariant
                cs@ == s@,
                0 <= i <= cs@.len(),
                forall|k: int| 0 <= k < i ==> cs@[k] != '\n' && cs@[k] != '\r',
            decreases cs@.len() - i,
        {
            if cs[i] == '\n' || cs[i] == '\r' {
                return Err(Error::invalid_input(s));
            }
            i = i + 1;
        }
        Ok(M3u8String { value: s.to_owned() })
    }

    pub fn as_str(&self) -> (r: &str)
        ensures
            r@ == self@,
    {
        self.value.as_str()
    }

    pub fn to_string(&self) -> (r: String)
        ensures
            r@ == self@,
    {
        self.value.clone()
    }
}

/// An unsigned decimal integer of at most 64 bits.
#[derive(Debug, Clone, Copy, PartialEq, Eq, Structural)]
pub struct DecimalInteger(pub u64);

impl DecimalInteger {
    pub fn from_str(s: &str) -> (r: Result<DecimalInteger, Error>)
        ensures
            match r {
                Ok(v) => parse_u64(s@) == Some(v.0),
                Err(_) => parse_u64(s@) is None,
            },
    {
        let cs = char_vec(s);
        assert(cs@.subrange(0, cs@.len() as int) =~= s@);
        match parse_u64_at(&cs, 0, cs.len()) {
            Some(n) => Ok(DecimalInteger(n)),
            None => Err(Error::invalid_input(s)),
        }
    }

    pub fn to_string(&self) -> (r: String)
        ensures
            r@ == decimal(self.0 as nat),
    {
        let mut out = String::new();
        append_decimal(&mut out, self.0);
        assert(out@ =~= decimal(self.0 as nat));
        out
    }
}

pub open spec fn hex_value(c: char) -> int {
    if '0' <= c && c <= '9' {
        c as int - '0' as int
    } else if 'a' <= c && c <= 'f' {
        c as int - 'a' as int + 10
    } else if 'A' <= c && c <= 'F' {
        c as int - 'A' as int + 10
    } else {
        -1
    }
}

pub open spec fn upper_hex(d: int) -> char {
    if d < 10 {
        (d + 48) as char
    } else {
        (d + 55) as char
    }
}

/// `0x` and two upper-case hexadecimal digits per byte.
pub open spec fn hex_text(b: Seq<u8>) -> Seq<char> {
    seq!['0', 'x'] + Seq::new(
        2 * b.len(),
        |i: int|
            upper_hex(
                if i % 2 == 0 {
                    b[i / 2] / 16
                } else {
                    b[i / 2] % 16
                } as int,
            ),
    )
}

/// `0x` or `0X`, then an even number of hexadecimal digits of either case.
pub open spec fn parse_hex(s: Seq<char>) -> Option<Seq<u8>> {
    if s.len() >= 2 && s[0] == '0' && (s[1] == 'x' || s[1] == 'X') && (s.len() - 2) % 2 == 0
        && forall|i: int| 2 <= i < s.len() ==> hex_value(#[trigger] s[i]) >= 0 {
        Some(
            Seq::new(
                ((s.len() - 2) / 2) as nat,
                |i: int| (hex_value(s[2 + 2 * i]) * 16 + hex_value(s[3 + 2 * i])) as u8,
            ),
        )
    } else {
        None
    }
}

pub proof fn lemma_hex_round_trip(b: Seq<u8>)
    ensures
        parse_hex(hex_text(b)) == Some(b),
{
    let t = hex_text(b);
    assert forall|i: int| 2 <= i < t.len() implies hex_value(#[trigger] t[i]) >= 0 by {
        let j = i - 2;
        let d = if j % 2 == 0 {
            b[j / 2] / 16
        } else {
            b[j / 2] % 16
        } as int;
        assert(0 <= d < 16);
        assert(t[i] == upper_hex(d));
    }
    let r = parse_hex(t)->0;
    assert forall|i: int| 0 <= i < b.len() implies r[i] == b[i] by {
        let hi = (b[i] / 16) as int;
        let lo = (b[i] % 16) as int;
        assert(t[2 + 2 * i] == upper_hex(hi));
        assert(t[3 + 2 * i] == upper_hex(lo));
        assert(hex_value(upper_hex(hi)) == hi);
        assert(hex_value(upper_hex(lo)) == lo);
    }
    assert(r =~= b);
}

fn hex_digit_str(d: u8) -> (r: &'static str)
    requires
        d < 16,
    ensures
        r@ == seq![upper_hex(d as int)],
{
    proof {
        reveal_strlit("0");
        reveal_strlit("1");
        reveal_strlit("2");
        reveal_strlit("3");
        reveal_strlit("4");
        reveal_strlit("5");
        reveal_strlit("6");
        reveal_strlit("7");
        reveal_strlit("8");
        reveal_strlit("9");
        reveal_strlit("A");
        reveal_strlit("B");
        reveal_strlit("C");
        reveal_strlit("D");
        reveal_strlit("E");
        reveal_strlit("F");
    }
    let r = match d {
        0 => "0",
        1 => "1",
        2 => "2",
        3 => "3",
        4 => "4",
        5 => "5",
        6 => "6",
        7 => "7",
        8 => "8",
        9 => "9",
        10 => "A",
        11 => "B",
        12 => "C",
        13 => "D",
        14 => "E",
        _ => "F",
    };
    assert(r@ =~= seq![upper_hex(d as int)]);
    r
}

fn hex_digit_value(c: char) -> (r: Option<u8>)
    ensures
        match r {
            Some(d) => hex_value(c) == d as int && d < 16,
            None => hex_value(c) < 0,
        },
{
    if '0' <= c && c <= '9' {
        Some((c as u32 - '0' as u32) as u8)
    } else if 'a' <= c && c <= 'f' {
        Some((c as u32 - 'a' as u32 + 10) as u8)
    } else if 'A' <= c && c <= 'F' {
        Some((c as u32 - 'A' as u32 + 10) as u8)
    } else {
        None
    }
}

/// A run of bytes written in hexadecimal.
#[derive(Debug, Clone)]
pub struct HexadecimalSequence {
    bytes: Vec<u8>,
}

impl View for HexadecimalSequence {
    type V = Seq<u8>;

    closed spec fn view(&self) -> Seq<u8> {
        self.bytes@
    }
}

impl HexadecimalSequence {
    pub fn new(bytes: Vec<u8>) -> (r: HexadecimalSequence)
        ensures
            r@ == bytes@,
    {
        HexadecimalSequence { bytes }
    }

    pub fn as_bytes(&self) -> (r: &[u8])
        ensures
            r@ == self@,
    {
        self.bytes.as_slice()
    }

    pub fn from_str(s: &str) -> (r: Result<HexadecimalSequence, Error>)
        ensures
            match r {
                Ok(h) => parse_hex(s@) == Some(h@),
                Err(_) => parse_hex(s@) is None,
            },
    {
        let cs = char_vec(s);
        let n = cs.len();
        if n < 2 || cs[0] != '0' || !(cs[1] == 'x' || cs[1] == 'X') || (n - 2) % 2 != 0 {
            return Err(Error::invalid_input(s));
        }
        let mut bytes: Vec<u8> = Vec::new();
        let mut i: usize = 2;
        while i < n
            invariant
                cs@ == s@,
                n == cs@.len(),
                2 <= i <= n,
                (i - 2) % 2 == 0,
                (n - 2) % 2 == 0,
                forall|k: int| 2 <= k < i ==> hex_value(#[trigger] cs@[k]) >= 0,
                bytes@.len() == (i - 2) / 2,
                forall|k: int|
                    0 <= k < bytes@.len() ==> #[trigger] bytes@[k] == (hex_value(cs@[2 + 2 * k])
                        * 16 + hex_value(cs@[3 + 2 * k])) as u8,
            decreases n - i,
        {
            let hi = hex_digit_value(cs[i]);
            let lo = hex_digit_value(cs[i + 1]);
            match (hi, lo) {
                (Some(h), Some(l)) => {
                    bytes.push(h * 16 + l);
                },
                _ => {
                    return Err(Error::invalid_input(s));
                },
            }
            i = i + 2;
        }
        let h = HexadecimalSequence { bytes };
        assert(h@ =~= parse_hex(s@)->0);
        Ok(h)
    }

    /// `0x` and the bytes in upper-case hexadecimal.
    pub fn to_string(&self) -> (r: String)
        ensures
            r@ == hex_text(self@),
    {
        proof {
            reveal_strlit("0x");
        }
        let mut out = String::new();
        out.append("0x");
        let mut i: usize = 0;
        while i < self.bytes.len()
            invariant
                0 <= i <= self@.len(),
                out@ =~= seq!['0', 'x'] + hex_text(self@).subrange(2, 2 + 2 * i),
            decreases self@.len() - i,
        {
            let b = self.bytes[i];
            out.append(hex_digit_str(b / 16));
            out.append(hex_digit_str(b % 16));
            i = i + 1;
            assert(out@ =~= seq!['0', 'x'] + hex_text(self@).subrange(2, 2 + 2 * i));
        }
        assert(hex_text(self@).subrange(2, 2 + 2 * i) =~= hex_text(self@).subrange(
            2,
            hex_text(self@).len() as int,
        ));
        assert(out@ =~= hex_text(self@));
        out
    }
}

} // verus!
