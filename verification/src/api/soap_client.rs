//! The SOAP fallback client: fixed-template XML envelopes for the
//! operations the REST API does not expose, and tag-level parsing of their
//! responses.
//!
//! Responses are read by locating known tag names, tolerating several
//! namespace prefixes, rather than through a full XML object model: the
//! response shapes are small and fixed.

use crate::text::{
    chars_of, find_first, parse_i64, spec_find, spec_parse_i64, string_of, sub_chars,
    spec_trim_end_char, trim_end_char,
};
use vstd::prelude::*;

verus! {

/// The SOAP endpoint path on the target server.
pub const SOAP_ENDPOINT: &'static str = "/dms2/services2/ServerEI2";

/// A SOAP operation failure.
#[derive(Debug, Clone)]
pub enum SoapError {
    /// The HTTP exchange failed.
    HttpError(String),
    /// The server answered with a SOAP fault.
    SoapFault {
        /// The fault code.
        code: String,
        /// The fault message.
        message: String,
    },
    /// The response could not be read.
    ParseError(String),
    /// The credentials were refused.
    AuthError(String),
}

/// The data of a user-creation call.
#[derive(Debug, Clone)]
pub struct UserAddInfo {
    /// Email address.
    pub email: String,
    /// First name.
    pub first_name: String,
    /// Last name.
    pub last_name: String,
    /// Phone number.
    pub phone: Option<String>,
    /// Department.
    pub department: Option<String>,
    /// Location.
    pub location: Option<String>,
    /// Whether the account starts enabled.
    pub is_enabled: bool,
    /// Customer org unit the user is created under.
    pub customer_id: i64,
    /// Roles to assign.
    pub role_ids: Vec<i64>,
    /// Access groups to assign.
    pub access_group_ids: Vec<i64>,
}

// ---------------------------------------------------------------------------
// XML escaping
// ---------------------------------------------------------------------------

/// The escape of one character: the five XML-special characters become
/// entities, everything else stays.
pub open spec fn xml_escape_char(c: char) -> Seq<char> {
    if c == '&' {
        seq!['&', 'a', 'm', 'p', ';']
    } else if c == '<' {
        seq!['&', 'l', 't', ';']
    } else if c == '>' {
        seq!['&', 'g', 't', ';']
    } else if c == '"' {
        seq!['&', 'q', 'u', 'o', 't', ';']
    } else if c == '\'' {
        seq!['&', 'a', 'p', 'o', 's', ';']
    } else {
        seq![c]
    }
}

/// The XML escape of a sequence: each character escaped, in order.
pub open spec fn spec_xml_escape(s: Seq<char>) -> Seq<char>
    decreases s.len(),
{
    if s.len() == 0 {
        Seq::empty()
    } else {
        spec_xml_escape(s.drop_last()) + xml_escape_char(s.last())
    }
}

/// Escapes the five XML-special characters.
pub fn xml_escape(s: &str) -> (r: String)
    ensures
        r@ == spec_xml_escape(s@),
{
    let v = chars_of(s);
    let mut out = String::new();
    let mut i: usize = 0;
    while i < v.len()
        invariant
            i <= v@.len(),
            v@ == s@,
            out@ == spec_xml_escape(s@.take(i as int)),
        decreases v@.len() - i,
    {
        let c = v[i];
        if c == '&' {
            out.append("&amp;");
            proof {
                reveal_strlit("&amp;");
                assert("&amp;"@ =~= xml_escape_char('&'));
            }
        } else if c == '<' {
            out.append("&lt;");
            proof {
                reveal_strlit("&lt;");
                assert("&lt;"@ =~= xml_escape_char('<'));
            }
        } else if c == '>' {
            out.append("&gt;");
            proof {
                reveal_strlit("&gt;");
                assert("&gt;"@ =~= xml_escape_char('>'));
            }
        } else if c == '"' {
            out.append("&quot;");
            proof {
                reveal_strlit("&quot;");
                assert("&quot;"@ =~= xml_escape_char('"'));
            }
        } else if c == '\'' {
            out.append("&apos;");
            proof {
                reveal_strlit("&apos;");
                assert("&apos;"@ =~= xml_escape_char('\''));
            }
        } else {
            out.push(c);
            assert(seq![c] =~= xml_escape_char(c));
        }
        proof {
            assert(s@.take(i + 1).drop_last() =~= s@.take(i as int));
            assert(s@.take(i + 1).last() == s@[i as int]);
        }
        i += 1;
    }
    assert(s@.take(v@.len() as int) =~= s@);
    out
}

// ---------------------------------------------------------------------------
// Tag-level XML value extraction
// ---------------------------------------------------------------------------

/// The text between `open` and the next `close` after it, if both occur.
pub open spec fn spec_extract_between(x: Seq<char>, open: Seq<char>, close: Seq<char>) -> Option<
    Seq<char>,
> {
    match spec_find(x, open) {
        None => None,
        Some(st) => {
            let rest = x.skip(st + open.len());
            match spec_find(rest, close) {
                None => None,
                Some(e) => Some(rest.take(e)),
            }
        },
    }
}

/// The open tag `<prefix tag>` of a tag name.
pub open spec fn spec_open_tag(prefix: Seq<char>, tag: Seq<char>) -> Seq<char> {
    seq!['<'] + prefix + tag + seq!['>']
}

/// The close tag `</prefix tag>` of a tag name.
pub open spec fn spec_close_tag(prefix: Seq<char>, tag: Seq<char>) -> Seq<char> {
    seq!['<', '/'] + prefix + tag + seq!['>']
}

/// The value of the first of the namespace prefixes (none, `ns1:`, `ei2:`,
/// `soap:`) under which both tags of `tag` are found.
pub open spec fn spec_extract_xml_value(x: Seq<char>, tag: Seq<char>) -> Option<Seq<char>> {
    let empty = Seq::<char>::empty();
    let p1 = seq!['n', 's', '1', ':'];
    let p2 = seq!['e', 'i', '2', ':'];
    let p3 = seq!['s', 'o', 'a', 'p', ':'];
    if spec_extract_between(x, spec_open_tag(empty, tag), spec_close_tag(empty, tag)) is Some {
        spec_extract_between(x, spec_open_tag(empty, tag), spec_close_tag(empty, tag))
    } else if spec_extract_between(x, spec_open_tag(p1, tag), spec_close_tag(p1, tag)) is Some {
        spec_extract_between(x, spec_open_tag(p1, tag), spec_close_tag(p1, tag))
    } else if spec_extract_between(x, spec_open_tag(p2, tag), spec_close_tag(p2, tag)) is Some {
        spec_extract_between(x, spec_open_tag(p2, tag), spec_close_tag(p2, tag))
    } else if spec_extract_between(x, spec_open_tag(p3, tag), spec_close_tag(p3, tag)) is Some {
        spec_extract_between(x, spec_open_tag(p3, tag), spec_close_tag(p3, tag))
    } else {
        None
    }
}

fn build_tag(lead: &str, prefix: &str, tag: &[char]) -> (r: Vec<char>)
    ensures
        r@ == lead@ + prefix@ + tag@ + seq!['>'],
{
    let mut r = chars_of(lead);
    let mut p = chars_of(prefix);
    let mut t = Vec::new();
    let mut i: usize = 0;
    while i < tag.len()
        invariant
            i <= tag@.len(),
            t@ == tag@.take(i as int),
        decreases tag@.len() - i,
    {
        t.push(tag[i]);
        assert(t@ =~= tag@.take(i + 1));
        i += 1;
    }
    assert(t@ =~= tag@);
    r.append(&mut p);
    r.append(&mut t);
    r.push('>');
    assert(r@ =~= lead@ + prefix@ + tag@ + seq!['>']);
    r
}

fn extract_between(x: &[char], open: &[char], close: &[char]) -> (r: Option<Vec<char>>)
    ensures
        match r {
            Some(v) => spec_extract_between(x@, open@, close@) == Some(v@),
            None => spec_extract_between(x@, open@, close@) is None,
        },
{
    let xn: usize = x.len();
    match find_first(x, open) {
        None => None,
        Some(st) => {
            proof {
                crate::text::lemma_find_props(x@, open@);
                assert(crate::text::match_at(x@, open@, st as int));
                assert(st + open@.len() <= x@.len());
            }
            let from = st + open.len();
            let rest = sub_chars(x, from, xn);
            assert(rest@ =~= x@.skip(st + open@.len()));
            match find_first(rest.as_slice(), close) {
                None => None,
                Some(e) => {
                    proof {
                        crate::text::lemma_find_props(rest@, close@);
                    }
                    let value = sub_chars(rest.as_slice(), 0, e);
                    assert(value@ =~= rest@.take(e as int));
                    Some(value)
                },
            }
        },
    }
}

/// Finds the text of the first `tag` element, trying each known namespace
/// prefix in order.
pub fn extract_xml_value(xml: &str, tag: &str) -> (r: Option<String>)
    ensures
        match r {
            Some(v) => spec_extract_xml_value(xml@, tag@) == Some(v@),
            None => spec_extract_xml_value(xml@, tag@) is None,
        },
{
    let x = chars_of(xml);
    let t = chars_of(tag);
    proof {
        reveal_strlit("");
        reveal_strlit("ns1:");
        reveal_strlit("ei2:");
        reveal_strlit("soap:");
        reveal_strlit("<");
        reveal_strlit("</");
        assert(""@ =~= Seq::<char>::empty());
        assert("ns1:"@ =~= seq!['n', 's', '1', ':']);
        assert("ei2:"@ =~= seq!['e', 'i', '2', ':']);
        assert("soap:"@ =~= seq!['s', 'o', 'a', 'p', ':']);
        assert("<"@ =~= seq!['<']);
        assert("</"@ =~= seq!['<', '/']);
    }
    let o0 = build_tag("<", "", t.as_slice());
    let c0 = build_tag("</", "", t.as_slice());
    match extract_between(x.as_slice(), o0.as_slice(), c0.as_slice()) {
        Some(v) => {
            return Some(string_of(v.as_slice()));
        },
        None => {},
    }
    let o1 = build_tag("<", "ns1:", t.as_slice());
    let c1 = build_tag("</", "ns1:", t.as_slice());
    match extract_between(x.as_slice(), o1.as_slice(), c1.as_slice()) {
        Some(v) => {
            return Some(string_of(v.as_slice()));
        },
        None => {},
    }
    let o2 = build_tag("<", "ei2:", t.as_slice());
    let c2 = build_tag("</", "ei2:", t.as_slice());
    match extract_between(x.as_slice(), o2.as_slice(), c2.as_slice()) {
        Some(v) => {
            return Some(string_of(v.as_slice()));
        },
        None => {},
    }
    let o3 = build_tag("<", "soap:", t.as_slice());
    let c3 = build_tag("</", "soap:", t.as_slice());
    match extract_between(x.as_slice(), o3.as_slice(), c3.as_slice()) {
        Some(v) => {
            return Some(string_of(v.as_slice()));
        },
        None => {},
    }
    None
}

// ---------------------------------------------------------------------------
// Fault and response parsing
// ---------------------------------------------------------------------------

/// Whether a response body carries one of the fault markers.
pub open spec fn spec_has_fault_marker(body: Seq<char>) -> bool {
    spec_find(body, "<faultcode>"@) is Some || spec_find(body, "<soap:Fault>"@) is Some
        || spec_find(body, "<Fault>"@) is Some
}

/// Detects a SOAP fault: when a fault marker is present, the fault code and
/// message are extracted (with fallbacks) and returned as a `SoapFault`.
pub fn parse_soap_fault(body: &str) -> (r: Option<SoapError>)
    ensures
        r is Some <==> spec_has_fault_marker(body@),
        match r {
            Some(e) => e is SoapFault && e->SoapFault_code@ == (match spec_extract_xml_value(
                body@,
                "faultcode"@,
            ) {
                Some(c) => c,
                None => "Unknown"@,
            }) && e->SoapFault_message@ == (match spec_extract_xml_value(body@, "faultstring"@) {
                Some(m) => m,
                None => "Unknown error"@,
            }),
            None => true,
        },
{
    let b = chars_of(body);
    let m1 = chars_of("<faultcode>");
    let m2 = chars_of("<soap:Fault>");
    let m3 = chars_of("<Fault>");
    let has_marker = crate::text::contains_seq(b.as_slice(), m1.as_slice())
        || crate::text::contains_seq(b.as_slice(), m2.as_slice()) || crate::text::contains_seq(
        b.as_slice(),
        m3.as_slice(),
    );
    if has_marker {
        let code: String = match extract_xml_value(body, "faultcode") {
            Some(c) => c,
            None => "Unknown".to_owned(),
        };
        let message: String = match extract_xml_value(body, "faultstring") {
            Some(m) => m,
            None => "Unknown error".to_owned(),
        };
        Some(SoapError::SoapFault { code, message })
    } else {
        None
    }
}

/// What a user-creation response yields: the integer text of the first
/// `return` element, or of the first `userAddReturn` element.
pub open spec fn spec_user_add_result(body: Seq<char>) -> Option<int> {
    match spec_extract_xml_value(body, "return"@) {
        Some(v) => spec_parse_i64(v),
        None => match spec_extract_xml_value(body, "userAddReturn"@) {
            Some(v) => spec_parse_i64(v),
            None => None,
        },
    }
}

/// Reads the created user's id out of a user-creation response; a missing
/// or non-numeric id is a `ParseError`.
pub fn parse_user_add_response(body: &str) -> (r: Result<i64, SoapError>)
    ensures
        match r {
            Ok(id) => spec_user_add_result(body@) == Some(id as int),
            Err(e) => spec_user_add_result(body@) is None && e is ParseError,
        },
{
    match extract_xml_value(body, "return") {
        Some(id_str) => {
            let cs = chars_of(id_str.as_str());
            match parse_i64(cs.as_slice()) {
                Some(id) => Ok(id),
                None => Err(SoapError::ParseError("Failed to parse user ID".to_owned())),
            }
        },
        None => {
            match extract_xml_value(body, "userAddReturn") {
                Some(id_str) => {
                    let cs = chars_of(id_str.as_str());
                    match parse_i64(cs.as_slice()) {
                        Some(id) => Ok(id),
                        None => Err(SoapError::ParseError("Failed to parse user ID".to_owned())),
                    }
                },
                None => Err(
                    SoapError::ParseError("Could not find user ID in response".to_owned()),
                ),
            }
        },
    }
}


// ---------------------------------------------------------------------------
// Throwaway password generation
// ---------------------------------------------------------------------------

/// Whether `c` is an ASCII uppercase letter.
pub open spec fn is_upper_char(c: char) -> bool {
    'A' <= c && c <= 'Z'
}

/// Whether `c` is an ASCII lowercase letter.
pub open spec fn is_lower_char(c: char) -> bool {
    'a' <= c && c <= 'z'
}

/// Whether `c` is one of the special characters the password generator
/// draws from.
pub open spec fn is_special_char(c: char) -> bool {
    c == '!' || c == '@' || c == '#' || c == '$' || c == '%' || c == '^' || c == '&' || c == '*' || c == '(' || c == ')' || c == '_' || c == '+' || c == '-' || c == '=' || c == '[' || c == ']' || c == '{' || c == '}' || c == '|' || c == ';' || c == ':' || c == ',' || c == '.' || c == '<' || c == '>' || c == '?'
}

/// Whether `c` belongs to one of the four character classes the password
/// generator draws from.
pub open spec fn password_char_ok(c: char) -> bool {
    ||| is_upper_char(c)
    ||| is_lower_char(c)
    ||| crate::text::is_digit_char(c)
    ||| is_special_char(c)
}

/// The target platform's password policy, as the generator meets it: twelve
/// characters, all drawn from the four classes, with at least one uppercase
/// letter, one lowercase letter, one digit and one special character.
pub open spec fn password_ok(s: Seq<char>) -> bool {
    &&& s.len() == 12
    &&& forall|i: int| 0 <= i < s.len() ==> password_char_ok(#[trigger] s[i])
    &&& exists|i: int| 0 <= i < s.len() && is_upper_char(#[trigger] s[i])
    &&& exists|i: int| 0 <= i < s.len() && is_lower_char(#[trigger] s[i])
    &&& exists|i: int| 0 <= i < s.len() && crate::text::is_digit_char(#[trigger] s[i])
    &&& exists|i: int| 0 <= i < s.len() && is_special_char(#[trigger] s[i])
}

fn upper_at(j: u64) -> (c: char)
    requires
        j < 26,
    ensures
        is_upper_char(c),
{
    match j {
        0 => 'A',
        1 => 'B',
        2 => 'C',
        3 => 'D',
        4 => 'E',
        5 => 'F',
        6 => 'G',
        7 => 'H',
        8 => 'I',
        9 => 'J',
        10 => 'K',
        11 => 'L',
        12 => 'M',
        13 => 'N',
        14 => 'O',
        15 => 'P',
        16 => 'Q',
        17 => 'R',
        18 => 'S',
        19 => 'T',
        20 => 'U',
        21 => 'V',
        22 => 'W',
        23 => 'X',
        24 => 'Y',
        _ => 'Z',
    }
}

fn lower_at(j: u64) -> (c: char)
    requires
        j < 26,
    ensures
        is_lower_char(c),
{
    match j {
        0 => 'a',
        1 => 'b',
        2 => 'c',
        3 => 'd',
        4 => 'e',
        5 => 'f',
        6 => 'g',
        7 => 'h',
        8 => 'i',
        9 => 'j',
        10 => 'k',
        11 => 'l',
        12 => 'm',
        13 => 'n',
        14 => 'o',
        15 => 'p',
        16 => 'q',
        17 => 'r',
        18 => 's',
        19 => 't',
        20 => 'u',
        21 => 'v',
        22 => 'w',
        23 => 'x',
        24 => 'y',
        _ => 'z',
    }
}

fn special_at(j: u64) -> (c: char)
    requires
        j < 26,
    ensures
        is_special_char(c),
{
    match j {
        0 => '!',
        1 => '@',
        2 => '#',
        3 => '$',
        4 => '%',
        5 => '^',
        6 => '&',
        7 => '*',
        8 => '(',
        9 => ')',
        10 => '_',
        11 => '+',
        12 => '-',
        13 => '=',
        14 => '[',
        15 => ']',
        16 => '{',
        17 => '}',
        18 => '|',
        19 => ';',
        20 => ':',
        21 => ',',
        22 => '.',
        23 => '<',
        24 => '>',
        _ => '?',
    }
}

fn any_charset_at(j: u64) -> (c: char)
    requires
        j < 88,
    ensures
        password_char_ok(c),
{
    if j < 26 {
        upper_at(j)
    } else if j < 52 {
        lower_at(j - 26)
    } else if j < 62 {
        crate::text::digit_char_of(j - 52)
    } else {
        special_at(j - 62)
    }
}

/// A linear congruential generator (Numerical Recipes parameters) seeded
/// from the clock.  It is deliberately not cryptographic: the password it
/// feeds is invalidated by a forced reset at first login.
struct Lcg {
    seed: u128,
}

impl Lcg {
    fn next(&mut self) -> (r: u64)
        ensures
            r < 4294967296,
    {
        self.seed = (self.seed.wrapping_mul(1664525).wrapping_add(1013904223)) % 4294967296;
        (self.seed % 4294967296) as u64
    }
}

proof fn lemma_swap_keeps_upper(s: Seq<char>, t: Seq<char>, i: int, j: int)
    requires
        0 <= i < s.len(),
        0 <= j < s.len(),
        t == s.update(i, s[j]).update(j, s[i]),
        exists|k: int| 0 <= k < s.len() && is_upper_char(#[trigger] s[k]),
    ensures
        exists|k: int| 0 <= k < t.len() && is_upper_char(#[trigger] t[k]),
{
    let w = choose|k: int| 0 <= k < s.len() && is_upper_char(#[trigger] s[k]);
    if w == i {
        assert(t[j] == s[i]);
        assert(is_upper_char(t[j]));
    } else if w == j {
        if i == j {
            assert(t[w] == s[w]);
            assert(is_upper_char(t[w]));
        } else {
            assert(t[i] == s[j]);
            assert(is_upper_char(t[i]));
        }
    } else {
        assert(t[w] == s[w]);
        assert(is_upper_char(t[w]));
    }
}

proof fn lemma_swap_keeps_lower(s: Seq<char>, t: Seq<char>, i: int, j: int)
    requires
        0 <= i < s.len(),
        0 <= j < s.len(),
        t == s.update(i, s[j]).update(j, s[i]),
        exists|k: int| 0 <= k < s.len() && is_lower_char(#[trigger] s[k]),
    ensures
        exists|k: int| 0 <= k < t.len() && is_lower_char(#[trigger] t[k]),
{
    let w = choose|k: int| 0 <= k < s.len() && is_lower_char(#[trigger] s[k]);
    if w == i {
        assert(t[j] == s[i]);
        assert(is_lower_char(t[j]));
    } else if w == j {
        if i == j {
            assert(t[w] == s[w]);
            assert(is_lower_char(t[w]));
        } else {
            assert(t[i] == s[j]);
            assert(is_lower_char(t[i]));
        }
    } else {
        assert(t[w] == s[w]);
        assert(is_lower_char(t[w]));
    }
}

proof fn lemma_swap_keeps_digit(s: Seq<char>, t: Seq<char>, i: int, j: int)
    requires
        0 <= i < s.len(),
        0 <= j < s.len(),
        t == s.update(i, s[j]).update(j, s[i]),
        exists|k: int| 0 <= k < s.len() && crate::text::is_digit_char(#[trigger] s[k]),
    ensures
        exists|k: int| 0 <= k < t.len() && crate::text::is_digit_char(#[trigger] t[k]),
{
    let w = choose|k: int| 0 <= k < s.len() && crate::text::is_digit_char(#[trigger] s[k]);
    if w == i {
        assert(t[j] == s[i]);
        assert(crate::text::is_digit_char(t[j]));
    } else if w == j {
        if i == j {
            assert(t[w] == s[w]);
            assert(crate::text::is_digit_char(t[w]));
        } else {
            assert(t[i] == s[j]);
            assert(crate::text::is_digit_char(t[i]));
        }
    } else {
        assert(t[w] == s[w]);
        assert(crate::text::is_digit_char(t[w]));
    }
}

proof fn lemma_swap_keeps_special(s: Seq<char>, t: Seq<char>, i: int, j: int)
    requires
        0 <= i < s.len(),
        0 <= j < s.len(),
        t == s.update(i, s[j]).update(j, s[i]),
        exists|k: int| 0 <= k < s.len() && is_special_char(#[trigger] s[k]),
    ensures
        exists|k: int| 0 <= k < t.len() && is_special_char(#[trigger] t[k]),
{
    let w = choose|k: int| 0 <= k < s.len() && is_special_char(#[trigger] s[k]);
    if w == i {
        assert(t[j] == s[i]);
        assert(is_special_char(t[j]));
    } else if w == j {
        if i == j {
            assert(t[w] == s[w]);
            assert(is_special_char(t[w]));
        } else {
            assert(t[i] == s[j]);
            assert(is_special_char(t[i]));
        }
    } else {
        assert(t[w] == s[w]);
        assert(is_special_char(t[w]));
    }
}

/// Generates a password meeting the complexity policy from the given seed:
/// one character from each required class, eight filler characters, then a
/// loose shuffle.
pub fn generate_password_from_seed(seed: u128) -> (r: String)
    ensures
        password_ok(r@),
{
    let mut lcg = Lcg { seed };
    let mut pwd: Vec<char> = Vec::new();
    let c0 = upper_at(lcg.next() % 26);
    pwd.push(c0);
    let c1 = lower_at(lcg.next() % 26);
    pwd.push(c1);
    let c2 = crate::text::digit_char_of(lcg.next() % 10);
    pwd.push(c2);
    let c3 = special_at(lcg.next() % 26);
    pwd.push(c3);
    assert(pwd@[0] == c0 && pwd@[1] == c1 && pwd@[2] == c2 && pwd@[3] == c3);
    assert(forall|k: int| 0 <= k < pwd@.len() ==> password_char_ok(#[trigger] pwd@[k]));
    let mut fill: u64 = 0;
    while fill < 8
        invariant
            fill <= 8,
            pwd@.len() == 4 + fill,
            pwd@[0] == c0 && pwd@[1] == c1 && pwd@[2] == c2 && pwd@[3] == c3,
            forall|k: int| 0 <= k < pwd@.len() ==> password_char_ok(#[trigger] pwd@[k]),
        decreases 8 - fill,
    {
        pwd.push(any_charset_at(lcg.next() % 88));
        fill += 1;
    }
    assert(password_ok(pwd@));
    let mut i: usize = 0;
    while i < 12
        invariant
            pwd@.len() == 12,
            password_ok(pwd@),
        decreases 12 - i,
    {
        let j: usize = (lcg.next() % 12) as usize;
        let ghost before = pwd@;
        let a: char = pwd[i];
        let b: char = pwd[j];
        let slot_i = &mut pwd[i];
        *slot_i = b;
        let slot_j = &mut pwd[j];
        *slot_j = a;
        proof {
            assert(pwd@ == before.update(i as int, before[j as int]).update(
                j as int,
                before[i as int],
            ));
            lemma_swap_keeps_upper(before, pwd@, i as int, j as int);
            lemma_swap_keeps_lower(before, pwd@, i as int, j as int);
            lemma_swap_keeps_digit(before, pwd@, i as int, j as int);
            lemma_swap_keeps_special(before, pwd@, i as int, j as int);
            assert forall|k: int| 0 <= k < pwd@.len() implies password_char_ok(
                #[trigger] pwd@[k],
            ) by {
                if k == j as int {
                    assert(pwd@[k] == before[i as int]);
                } else if k == i as int {
                    assert(pwd@[k] == before[j as int]);
                } else {
                    assert(pwd@[k] == before[k]);
                }
            }
        }
        i += 1;
    }
    crate::text::string_of(pwd.as_slice())
}

/// Generates a strong throwaway password for a SOAP-created account,
/// seeding the generator from the clock.  The account is flagged to force a
/// password change at first login.
pub fn generate_strong_password() -> (r: String)
    ensures
        password_ok(r@),
{
    generate_password_from_seed(crate::trusted::unix_nanos())
}

// ---------------------------------------------------------------------------
// The SOAP client and its user-creation envelope
// ---------------------------------------------------------------------------

/// The envelope text up to the API username.
pub const ENV_HEAD: &'static str = "<?xml version=\"1.0\" encoding=\"UTF-8\"?>\n<soapenv:Envelope xmlns:soapenv=\"http://schemas.xmlsoap.org/soap/envelope/\" \n                  xmlns:ei2=\"http://ei2.nobj.nable.com/\">\n   <soapenv:Header/>\n   <soapenv:Body>\n      <ei2:userAdd>\n         <ei2:username>";

/// The envelope text between the API username and the API password.
pub const ENV_MID1: &'static str = "</ei2:username>\n         <ei2:password>";

/// The envelope text between the API password and the settings.
pub const ENV_MID2: &'static str = "</ei2:password>\n         ";

/// The envelope text after the settings.
pub const ENV_TAIL: &'static str = "\n      </ei2:userAdd>\n   </soapenv:Body>\n</soapenv:Envelope>";

/// The text before a setting's key.
pub const SET_HEAD: &'static str = "<ei2:settings>\n                <ei2:key>";

/// The text between a setting's key and its value.
pub const SET_MID: &'static str = "</ei2:key>\n                <ei2:value>";

/// The text after a setting's value.
pub const SET_TAIL: &'static str = "</ei2:value>\n            </ei2:settings>";

/// The separator between two rendered settings.
pub const SET_SEP: &'static str = "\n         ";

/// One rendered `settings` element, with the key and the value escaped.
pub open spec fn spec_settings_entry(k: Seq<char>, v: Seq<char>) -> Seq<char> {
    SET_HEAD@ + spec_xml_escape(k) + SET_MID@ + spec_xml_escape(v) + SET_TAIL@
}

/// The rendered settings, joined by the separator.
pub open spec fn spec_settings_xml(settings: Seq<(Seq<char>, Seq<char>)>) -> Seq<char>
    decreases settings.len(),
{
    if settings.len() == 0 {
        Seq::empty()
    } else if settings.len() == 1 {
        spec_settings_entry(settings[0].0, settings[0].1)
    } else {
        spec_settings_entry(settings[0].0, settings[0].1) + SET_SEP@ + spec_settings_xml(
            settings.skip(1),
        )
    }
}

/// The comma-joined decimal renderings of the ids.
pub open spec fn spec_ids_join(ids: Seq<i64>) -> Seq<char> {
    crate::text::spec_join(ids.map_values(|id: i64| crate::text::spec_int_dec(id as int)), ',')
}

/// The key/value settings of a user-creation envelope, in order: the
/// mandatory fields, the enable flag, the optional contact fields, the
/// comma-joined role and access-group ids (when nonempty), and the forced
/// password change.
pub open spec fn spec_user_add_settings(
    username: Seq<char>,
    info: UserAddInfo,
    password: Seq<char>,
) -> Seq<(Seq<char>, Seq<char>)> {
    let base = seq![
        ("email"@, info.email@),
        ("password"@, password),
        ("customerID"@, crate::text::spec_int_dec(info.customer_id as int)),
        ("firstname"@, info.first_name@),
        ("lastname"@, info.last_name@),
        ("username"@, username),
        ("status"@, if info.is_enabled { "enabled"@ } else { "disabled"@ }),
    ];
    let s1 = if info.phone is Some { base.push(("phone"@, info.phone->0@)) } else { base };
    let s2 = if info.department is Some { s1.push(("department"@, info.department->0@)) } else { s1 };
    let s3 = if info.location is Some { s2.push(("location"@, info.location->0@)) } else { s2 };
    let s4 = if info.role_ids@.len() > 0 { s3.push(("userroleID"@, spec_ids_join(info.role_ids@))) } else { s3 };
    let s5 = if info.access_group_ids@.len() > 0 { s4.push(("accessgroupids"@, spec_ids_join(info.access_group_ids@))) } else { s4 };
    s5.push(("mustchangepassword"@, "true"@))
}

/// The whole user-creation envelope for the given API credentials and
/// settings.
pub open spec fn spec_user_add_envelope(
    api_user: Seq<char>,
    api_pass: Seq<char>,
    settings: Seq<(Seq<char>, Seq<char>)>,
) -> Seq<char> {
    ENV_HEAD@ + spec_xml_escape(api_user) + ENV_MID1@ + spec_xml_escape(api_pass) + ENV_MID2@
        + spec_settings_xml(settings) + ENV_TAIL@
}

/// The view-level pairs of a settings vector.
pub open spec fn settings_views(s: Seq<(String, String)>) -> Seq<(Seq<char>, Seq<char>)> {
    s.map_values(|p: (String, String)| (p.0@, p.1@))
}

/// Joins ids with commas, in decimal.
pub fn ids_join(ids: &Vec<i64>) -> (r: String)
    ensures
        r@ == spec_ids_join(ids@),
{
    let ghost mapped = ids@.map_values(|id: i64| crate::text::spec_int_dec(id as int));
    let mut parts: Vec<Vec<char>> = Vec::new();
    let mut i: usize = 0;
    while i < ids.len()
        invariant
            i <= ids@.len(),
            parts@.len() == i,
            forall|j: int|
                0 <= j < i ==> #[trigger] parts@[j]@ == crate::text::spec_int_dec(ids@[j] as int),
        decreases ids@.len() - i,
    {
        let text = crate::text::i64_to_string(ids[i]);
        parts.push(crate::text::chars_of(text.as_str()));
        i += 1;
    }
    assert(crate::text::views(parts@) =~= mapped) by {
        assert forall|j: int| 0 <= j < parts@.len() implies crate::text::views(parts@)[j]
            == mapped[j] by {
            assert(crate::text::views(parts@)[j] == parts@[j]@);
            assert(mapped[j] == crate::text::spec_int_dec(ids@[j] as int));
        }
    }
    let joined = crate::text::join_chars(&parts, ',');
    string_of(joined.as_slice())
}

/// Builds the settings of a user-creation envelope.
pub fn build_user_add_settings(username: &str, info: &UserAddInfo, password: &str) -> (r: Vec<
    (String, String),
>)
    ensures
        settings_views(r@) == spec_user_add_settings(username@, *info, password@),
{
    let mut s: Vec<(String, String)> = Vec::new();
    s.push(("email".to_owned(), info.email.clone()));
    s.push(("password".to_owned(), password.to_owned()));
    s.push(("customerID".to_owned(), crate::text::i64_to_string(info.customer_id)));
    s.push(("firstname".to_owned(), info.first_name.clone()));
    s.push(("lastname".to_owned(), info.last_name.clone()));
    s.push(("username".to_owned(), username.to_owned()));
    if info.is_enabled {
        s.push(("status".to_owned(), "enabled".to_owned()));
    } else {
        s.push(("status".to_owned(), "disabled".to_owned()));
    }
    match &info.phone {
        Some(phone) => {
            s.push(("phone".to_owned(), phone.clone()));
        },
        None => {},
    }
    match &info.department {
        Some(dept) => {
            s.push(("department".to_owned(), dept.clone()));
        },
        None => {},
    }
    match &info.location {
        Some(loc) => {
            s.push(("location".to_owned(), loc.clone()));
        },
        None => {},
    }
    if info.role_ids.len() > 0 {
        s.push(("userroleID".to_owned(), ids_join(&info.role_ids)));
    }
    if info.access_group_ids.len() > 0 {
        s.push(("accessgroupids".to_owned(), ids_join(&info.access_group_ids)));
    }
    s.push(("mustchangepassword".to_owned(), "true".to_owned()));
    assert(settings_views(s@) =~= spec_user_add_settings(username@, *info, password@));
    s
}

fn render_settings_entry(kv: &(String, String)) -> (r: String)
    ensures
        r@ == spec_settings_entry(kv.0@, kv.1@),
{
    let mut out: String = SET_HEAD.to_owned();
    let ek = xml_escape(kv.0.as_str());
    out.append(ek.as_str());
    out.append(SET_MID);
    let ev = xml_escape(kv.1.as_str());
    out.append(ev.as_str());
    out.append(SET_TAIL);
    out
}

fn render_settings_from(settings: &Vec<(String, String)>, i: usize) -> (r: String)
    requires
        i <= settings@.len(),
    ensures
        r@ == spec_settings_xml(settings_views(settings@).skip(i as int)),
    decreases settings@.len() - i,
{
    let ghost vs = settings_views(settings@);
    if i >= settings.len() {
        let r = String::new();
        assert(vs.skip(i as int) =~= Seq::<(Seq<char>, Seq<char>)>::empty());
        r
    } else {
        assert(vs[i as int] == (settings@[i as int].0@, settings@[i as int].1@));
        let mut entry = render_settings_entry(&settings[i]);
        if i + 1 == settings.len() {
            assert(vs.skip(i as int) =~= seq![vs[i as int]]);
            entry
        } else {
            entry.append(SET_SEP);
            let rest = render_settings_from(settings, i + 1);
            entry.append(rest.as_str());
            proof {
                let tail = vs.skip(i as int);
                assert(tail[0] == vs[i as int]);
                assert(tail.skip(1) =~= vs.skip(i + 1));
                assert(tail.len() >= 2);
            }
            entry
        }
    }
}

/// The SOAP fallback client: the server base, the bearer credential, and
/// the API username SOAP authentication needs.
#[derive(Debug, Clone)]
pub struct NcSoapClient {
    /// Server base, without a trailing slash.
    pub base_url: String,
    /// The bearer credential; SOAP uses it as the password.
    pub jwt: String,
    /// API username; without it, user creation is expected to fail.
    pub username: Option<String>,
}

impl NcSoapClient {
    /// A client for the given server and credential.
    pub fn new(base_url: &str, jwt: &str) -> (r: Self)
        ensures
            r.base_url@ == spec_trim_end_char(base_url@, '/'),
            r.jwt@ == jwt@,
            r.username is None,
    {
        NcSoapClient {
            base_url: trim_end_char(base_url, '/'),
            jwt: jwt.to_owned(),
            username: None,
        }
    }

    /// Sets the API username used for SOAP authentication.
    pub fn set_username(&mut self, username: &str)
        ensures
            final(self).username matches Some(u) && u@ == username@,
            final(self).base_url == old(self).base_url,
            final(self).jwt == old(self).jwt,
    {
        self.username = Some(username.to_owned());
    }

    /// The full SOAP endpoint address.
    pub fn endpoint_url(&self) -> (r: String)
        ensures
            r@ == self.base_url@ + SOAP_ENDPOINT@,
    {
        let mut r = self.base_url.clone();
        r.append(SOAP_ENDPOINT);
        r
    }

    /// Builds the user-creation envelope.  SOAP authentication wants the
    /// API username with the bearer credential as password; without a
    /// username, empty credentials are sent (and user creation is expected
    /// to fail).
    pub fn build_user_add_envelope(&self, username: &str, info: &UserAddInfo, password: &str) -> (r:
        String)
        ensures
            r@ == match self.username {
                Some(u) => spec_user_add_envelope(
                    u@,
                    self.jwt@,
                    spec_user_add_settings(username@, *info, password@),
                ),
                None => spec_user_add_envelope(
                    Seq::<char>::empty(),
                    self.jwt@,
                    spec_user_add_settings(username@, *info, password@),
                ),
            },
    {
        let settings = build_user_add_settings(username, info, password);
        let settings_xml = render_settings_from(&settings, 0);
        assert(settings_views(settings@).skip(0) =~= settings_views(settings@));
        let mut out: String = ENV_HEAD.to_owned();
        let api_user_esc: String = match &self.username {
            Some(u) => xml_escape(u.as_str()),
            None => {
                proof {
                    reveal_strlit("");
                    assert(""@ =~= Seq::<char>::empty());
                }
                xml_escape("")
            },
        };
        out.append(api_user_esc.as_str());
        out.append(ENV_MID1);
        let api_pass_esc = xml_escape(self.jwt.as_str());
        out.append(api_pass_esc.as_str());
        out.append(ENV_MID2);
        out.append(settings_xml.as_str());
        out.append(ENV_TAIL);
        out
    }

    /// Classifies a user-creation response: on a non-success status a SOAP
    /// fault is surfaced when one is present, else an HTTP error with the
    /// status and the start of the body; on success the created user's id
    /// is parsed out.
    pub fn classify_user_add_response(&self, status: u16, body: &str) -> (r: Result<
        i64,
        SoapError,
    >)
        ensures
            crate::api::client::spec_is_success(status) ==> match r {
                Ok(id) => spec_user_add_result(body@) == Some(id as int),
                Err(e) => spec_user_add_result(body@) is None && e is ParseError,
            },
            !crate::api::client::spec_is_success(status) ==> match r {
                Ok(_) => false,
                Err(e) => if spec_has_fault_marker(body@) {
                    e is SoapFault && e->SoapFault_code@ == (match spec_extract_xml_value(
                        body@,
                        "faultcode"@,
                    ) {
                        Some(c) => c,
                        None => "Unknown"@,
                    }) && e->SoapFault_message@ == (match spec_extract_xml_value(
                        body@,
                        "faultstring"@,
                    ) {
                        Some(m) => m,
                        None => "Unknown error"@,
                    })
                } else {
                    e is HttpError && e->HttpError_0@ == "HTTP "@ + crate::text::spec_dec_digits(
                        status as nat,
                    ) + ": "@ + (if body@.len() < 200 {
                        body@
                    } else {
                        body@.take(200)
                    })
                },
            },
    {
        if !crate::api::client::is_success(status) {
            match parse_soap_fault(body) {
                Some(fault) => Err(fault),
                None => {
                    let mut msg: String = "HTTP ".to_owned();
                    let code = crate::text::u64_to_string(status as u64);
                    msg.append(code.as_str());
                    msg.append(": ");
                    let b = chars_of(body);
                    let cut: usize = if b.len() < 200 {
                        b.len()
                    } else {
                        200
                    };
                    let head = sub_chars(b.as_slice(), 0, cut);
                    let head_text = string_of(head.as_slice());
                    msg.append(head_text.as_str());
                    Err(SoapError::HttpError(msg))
                },
            }
        } else {
            parse_user_add_response(body)
        }
    }
}

} // verus!
