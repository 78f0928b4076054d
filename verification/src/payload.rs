//! The payload decoder: from the text of a fetched body to video records.
//!
//! The endpoint serves a JSON array of objects. Each object must hold the
//! members `id` (an unsigned decimal integer), `title`, `speaker` and `url`
//! (strings), each exactly once, in any order; a member under any other
//! name is read and ignored, its value still validated as JSON. Strings —
//! values and member names alike — follow the JSON string rule: a raw
//! control character fails the parse, the eight single-character escapes
//! and `\uXXXX` are decoded, a character beyond the basic plane is written
//! as a surrogate pair, and a lone surrogate fails. The grammar is written
//! out below as specification functions — `spec_parse_videos` is the whole
//! format — and the executable decoder is proved to return exactly what the
//! grammar denotes.

use vstd::prelude::*;
use vstd::utf8::char_u32_cast;

use crate::video::{Video, VideoView};

verus! {

/// Blank space accepted between tokens.
pub open spec fn is_ws(c: char) -> bool {
    c == ' ' || c == '\t' || c == '\n' || c == '\r'
}

/// The first position at or after `i` holding no blank space.
pub open spec fn ws_end(s: Seq<char>, i: int) -> int
    decreases s.len() - i,
{
    if 0 <= i < s.len() && is_ws(s[i]) {
        ws_end(s, i + 1)
    } else {
        i
    }
}

/// A decimal digit.
pub open spec fn is_digit(c: char) -> bool {
    48 <= c as u32 <= 57
}

/// The value of one decimal digit.
pub open spec fn digit_val(c: char) -> u64 {
    (c as u32 - 48) as u64
}

/// Decimal digits from `i` onwards, folded onto `acc`; fails on a value
/// beyond `u64::MAX`, ends at the first non-digit.
pub open spec fn parse_digits(s: Seq<char>, i: int, acc: u64) -> Option<(u64, int)>
    decreases s.len() - i,
{
    if 0 <= i < s.len() && is_digit(s[i]) {
        if acc <= (u64::MAX - digit_val(s[i])) / 10 {
            parse_digits(s, i + 1, (acc * 10 + digit_val(s[i])) as u64)
        } else {
            None
        }
    } else {
        Some((acc, i))
    }
}

/// The `id` member's value at `i`: either the single digit `0`, or a
/// nonzero digit followed by digits — a leading zero never opens a longer
/// number. A sign, fraction or exponent fails here, as it would fail an
/// unsigned-integer reader.
pub open spec fn parse_number(s: Seq<char>, i: int) -> Option<(u64, int)> {
    if 0 <= i < s.len() && is_digit(s[i]) {
        if s[i] == '0' {
            Some((0, i + 1))
        } else {
            parse_digits(s, i, 0)
        }
    } else {
        None
    }
}

/// A hexadecimal digit, either case.
pub open spec fn is_hex(c: char) -> bool {
    is_digit(c) || 97 <= c as u32 <= 102 || 65 <= c as u32 <= 70
}

/// The value of one hexadecimal digit.
pub open spec fn hex_val(c: char) -> u32 {
    if 48 <= c as u32 <= 57 {
        (c as u32 - 48) as u32
    } else if 97 <= c as u32 <= 102 {
        (c as u32 - 87) as u32
    } else {
        (c as u32 - 55) as u32
    }
}

/// Whether four hexadecimal digits stand at `j`.
pub open spec fn hex4_at(s: Seq<char>, j: int) -> bool {
    j >= 0 && j + 4 <= s.len() && is_hex(s[j]) && is_hex(s[j + 1]) && is_hex(s[j + 2]) && is_hex(
        s[j + 3],
    )
}

/// The value of the four hexadecimal digits at `j`.
pub open spec fn hex4_val(s: Seq<char>, j: int) -> u32 {
    ((hex_val(s[j]) * 4096 + hex_val(s[j + 1]) * 256 + hex_val(s[j + 2]) * 16 + hex_val(
        s[j + 3],
    )) as u32)
}

/// A high (leading) surrogate code unit.
pub open spec fn is_high_surrogate(x: u32) -> bool {
    0xD800 <= x <= 0xDBFF
}

/// A low (trailing) surrogate code unit.
pub open spec fn is_low_surrogate(x: u32) -> bool {
    0xDC00 <= x <= 0xDFFF
}

/// The character a surrogate pair stands for.
pub open spec fn combined_scalar(hi: u32, lo: u32) -> u32 {
    ((0x10000 + (hi - 0xD800) * 0x400 + (lo - 0xDC00)) as u32)
}

/// The character a single-character escape stands for, nothing else.
pub open spec fn unescaped(c: char) -> Option<char> {
    if c == '"' {
        Some('"')
    } else if c == '\\' {
        Some('\\')
    } else if c == '/' {
        Some('/')
    } else if c == 'b' {
        Some('\u{8}')
    } else if c == 'f' {
        Some('\u{c}')
    } else if c == 'n' {
        Some('\n')
    } else if c == 'r' {
        Some('\r')
    } else if c == 't' {
        Some('\t')
    } else {
        None
    }
}

/// The content of a string from `j` to its closing quote, decoded onto
/// `acc`: a raw control character, an unknown escape, a lone surrogate or
/// an unterminated string fails.
pub open spec fn parse_string_body(s: Seq<char>, j: int, acc: Seq<char>) -> Option<
    (Seq<char>, int),
>
    decreases s.len() - j,
{
    if 0 <= j < s.len() {
        if s[j] == '"' {
            Some((acc, j + 1))
        } else if s[j] == '\\' {
            if j + 2 <= s.len() && s[j + 1] == 'u' {
                if hex4_at(s, j + 2) {
                    let x = hex4_val(s, j + 2);
                    if is_high_surrogate(x) {
                        if j + 8 <= s.len() && s[j + 6] == '\\' && s[j + 7] == 'u' && hex4_at(
                            s,
                            j + 8,
                        ) && is_low_surrogate(hex4_val(s, j + 8)) {
                            parse_string_body(
                                s,
                                j + 12,
                                acc.push(combined_scalar(x, hex4_val(s, j + 8)) as char),
                            )
                        } else {
                            None
                        }
                    } else if is_low_surrogate(x) {
                        None
                    } else {
                        parse_string_body(s, j + 6, acc.push(x as char))
                    }
                } else {
                    None
                }
            } else if j + 1 < s.len() {
                match unescaped(s[j + 1]) {
                    Some(c) => parse_string_body(s, j + 2, acc.push(c)),
                    None => None,
                }
            } else {
                None
            }
        } else if (s[j] as u32) < 32 {
            None
        } else {
            parse_string_body(s, j + 1, acc.push(s[j]))
        }
    } else {
        None
    }
}

/// A quoted string at `i`: its decoded content, and the position past the
/// closing quote.
pub open spec fn parse_string(s: Seq<char>, i: int) -> Option<(Seq<char>, int)> {
    if 0 <= i < s.len() && s[i] == '"' {
        parse_string_body(s, i + 1, Seq::empty())
    } else {
        None
    }
}

/// The first position at or after `i` holding no decimal digit.
pub open spec fn digits_end(s: Seq<char>, i: int) -> int
    decreases s.len() - i,
{
    if 0 <= i < s.len() && is_digit(s[i]) {
        digits_end(s, i + 1)
    } else {
        i
    }
}

/// The end of a number's optional fraction part at `i`: a point must carry
/// at least one digit.
pub open spec fn frac_end(s: Seq<char>, i: int) -> Option<int> {
    if 0 <= i < s.len() && s[i] == '.' {
        if i + 1 < s.len() && is_digit(s[i + 1]) {
            Some(digits_end(s, i + 1))
        } else {
            None
        }
    } else {
        Some(i)
    }
}

/// The end of a number's optional exponent part at `i`: a marker must carry
/// at least one digit after its optional sign.
pub open spec fn exp_end(s: Seq<char>, i: int) -> Option<int> {
    if 0 <= i < s.len() && (s[i] == 'e' || s[i] == 'E') {
        let j = if i + 1 < s.len() && (s[i + 1] == '+' || s[i + 1] == '-') {
            i + 2
        } else {
            i + 1
        };
        if 0 <= j < s.len() && is_digit(s[j]) {
            Some(digits_end(s, j))
        } else {
            None
        }
    } else {
        Some(i)
    }
}

/// The end of a JSON number token at `i`: an optional minus, an integer
/// part with no leading zero, then optional fraction and exponent. Used
/// only where a value is read to be ignored.
pub open spec fn number_end(s: Seq<char>, i: int) -> Option<int> {
    let j = if 0 <= i < s.len() && s[i] == '-' {
        i + 1
    } else {
        i
    };
    if 0 <= j < s.len() && is_digit(s[j]) {
        let j2 = if s[j] == '0' {
            j + 1
        } else {
            digits_end(s, j)
        };
        match frac_end(s, j2) {
            Some(j3) => exp_end(s, j3),
            None => None,
        }
    } else {
        None
    }
}

/// Whether `lit` stands verbatim at `i`.
pub open spec fn at_lit(s: Seq<char>, i: int, lit: Seq<char>) -> bool {
    0 <= i && i + lit.len() <= s.len() && s.subrange(i, i + lit.len()) == lit
}

/// The end of any JSON value at `i`, read to be ignored: an object, an
/// array, a string, a number, or one of the three literal names. The fuel
/// only bounds the recursion; every nested read starts strictly further
/// into the input, so the top-level call's fuel of one per input character
/// never runs out first.
pub open spec fn skip_value(s: Seq<char>, i: int, fuel: nat) -> Option<int>
    decreases fuel,
{
    if fuel == 0 {
        None
    } else if 0 <= i < s.len() {
        if s[i] == '"' {
            match parse_string(s, i) {
                Some((_, e)) => Some(e),
                None => None,
            }
        } else if s[i] == '{' {
            let k = ws_end(s, i + 1);
            if 0 <= k < s.len() && s[k] == '}' {
                Some(k + 1)
            } else {
                skip_object_items(s, k, (fuel - 1) as nat)
            }
        } else if s[i] == '[' {
            let k = ws_end(s, i + 1);
            if 0 <= k < s.len() && s[k] == ']' {
                Some(k + 1)
            } else {
                skip_array_items(s, k, (fuel - 1) as nat)
            }
        } else if s[i] == '-' || is_digit(s[i]) {
            number_end(s, i)
        } else if at_lit(s, i, "true"@) {
            Some(i + 4)
        } else if at_lit(s, i, "false"@) {
            Some(i + 5)
        } else if at_lit(s, i, "null"@) {
            Some(i + 4)
        } else {
            None
        }
    } else {
        None
    }
}

/// The members of an ignored object from `k` to its closing brace: each a
/// string name, a colon, and any value.
pub open spec fn skip_object_items(s: Seq<char>, k: int, fuel: nat) -> Option<int>
    decreases fuel,
{
    if fuel == 0 {
        None
    } else {
        match parse_string(s, k) {
            Some((_, j)) => {
                let c = ws_end(s, j);
                if 0 <= c < s.len() && s[c] == ':' {
                    match skip_value(s, ws_end(s, c + 1), (fuel - 1) as nat) {
                        Some(e) => {
                            let k2 = ws_end(s, e);
                            if 0 <= k2 < s.len() && s[k2] == '}' {
                                Some(k2 + 1)
                            } else if 0 <= k2 < s.len() && s[k2] == ',' {
                                skip_object_items(s, ws_end(s, k2 + 1), (fuel - 1) as nat)
                            } else {
                                None
                            }
                        }
                        None => None,
                    }
                } else {
                    None
                }
            }
            None => None,
        }
    }
}

/// The items of an ignored array from `k` to its closing bracket.
pub open spec fn skip_array_items(s: Seq<char>, k: int, fuel: nat) -> Option<int>
    decreases fuel,
{
    if fuel == 0 {
        None
    } else {
        match skip_value(s, k, (fuel - 1) as nat) {
            Some(e) => {
                let k2 = ws_end(s, e);
                if 0 <= k2 < s.len() && s[k2] == ']' {
                    Some(k2 + 1)
                } else if 0 <= k2 < s.len() && s[k2] == ',' {
                    skip_array_items(s, ws_end(s, k2 + 1), (fuel - 1) as nat)
                } else {
                    None
                }
            }
            None => None,
        }
    }
}

/// An object's named members gathered so far: each at most once.
pub struct PartialVideo {
    pub id: Option<u64>,
    pub title: Option<Seq<char>>,
    pub speaker: Option<Seq<char>>,
    pub url: Option<Seq<char>>,
}

/// No named member seen yet.
pub open spec fn empty_partial() -> PartialVideo {
    PartialVideo { id: None, title: None, speaker: None, url: None }
}

/// The record denoted by a finished object: all four named members present.
pub open spec fn video_of(p: PartialVideo) -> Option<VideoView> {
    match (p.id, p.title, p.speaker, p.url) {
        (Some(id), Some(title), Some(speaker), Some(url)) => Some(
            VideoView { id, title, speaker, url },
        ),
        _ => None,
    }
}

/// One `"name": value` member at `i`, folded onto `acc`: one of the four
/// field names takes a value of the field's type and must not repeat; any
/// other name has its value read as JSON and ignored.
pub open spec fn parse_member(s: Seq<char>, i: int, acc: PartialVideo) -> Option<
    (PartialVideo, int),
> {
    match parse_string(s, i) {
        Some((key, j)) => {
            let k = ws_end(s, j);
            if 0 <= k < s.len() && s[k] == ':' {
                let m = ws_end(s, k + 1);
                if key == "id"@ {
                    if acc.id is Some {
                        None
                    } else {
                        match parse_number(s, m) {
                            Some((v, e)) => Some(
                                (
                                    PartialVideo {
                                        id: Some(v),
                                        title: acc.title,
                                        speaker: acc.speaker,
                                        url: acc.url,
                                    },
                                    e,
                                ),
                            ),
                            None => None,
                        }
                    }
                } else if key == "title"@ {
                    if acc.title is Some {
                        None
                    } else {
                        match parse_string(s, m) {
                            Some((v, e)) => Some(
                                (
                                    PartialVideo {
                                        id: acc.id,
                                        title: Some(v),
                                        speaker: acc.speaker,
                                        url: acc.url,
                                    },
                                    e,
                                ),
                            ),
                            None => None,
                        }
                    }
                } else if key == "speaker"@ {
                    if acc.speaker is Some {
                        None
                    } else {
                        match parse_string(s, m) {
                            Some((v, e)) => Some(
                                (
                                    PartialVideo {
                                        id: acc.id,
                                        title: acc.title,
                                        speaker: Some(v),
                                        url: acc.url,
                                    },
                                    e,
                                ),
                            ),
                            None => None,
                        }
                    }
                } else if key == "url"@ {
                    if acc.url is Some {
                        None
                    } else {
                        match parse_string(s, m) {
                            Some((v, e)) => Some(
                                (
                                    PartialVideo {
                                        id: acc.id,
                                        title: acc.title,
                                        speaker: acc.speaker,
                                        url: Some(v),
                                    },
                                    e,
                                ),
                            ),
                            None => None,
                        }
                    }
                } else {
                    match skip_value(s, m, s.len()) {
                        Some(e) => Some((acc, e)),
                        None => None,
                    }
                }
            } else {
                None
            }
        }
        None => None,
    }
}

/// The members of a record object from `i` to its closing brace, folded
/// into `acc`: the object must end holding all four named members. The fuel
/// only bounds the recursion and never runs out first, as each member takes
/// at least one character.
pub open spec fn parse_members(s: Seq<char>, i: int, acc: PartialVideo, fuel: nat) -> Option<
    (VideoView, int),
>
    decreases fuel,
{
    if fuel == 0 {
        None
    } else {
        match parse_member(s, i, acc) {
            Some((acc2, j)) => {
                let k = ws_end(s, j);
                if 0 <= k < s.len() && s[k] == '}' {
                    match video_of(acc2) {
                        Some(v) => Some((v, k + 1)),
                        None => None,
                    }
                } else if 0 <= k < s.len() && s[k] == ',' {
                    parse_members(s, ws_end(s, k + 1), acc2, (fuel - 1) as nat)
                } else {
                    None
                }
            }
            None => None,
        }
    }
}

/// One record object at `i`.
pub open spec fn parse_object(s: Seq<char>, i: int) -> Option<(VideoView, int)> {
    if 0 <= i < s.len() && s[i] == '{' {
        parse_members(s, ws_end(s, i + 1), empty_partial(), s.len())
    } else {
        None
    }
}

/// A comma-separated run of record objects from `i` to the closing bracket.
/// The fuel only bounds the recursion; each element takes at least two
/// characters, so the top-level call's fuel of one per input character
/// never runs out first.
pub open spec fn parse_elements(s: Seq<char>, i: int, fuel: nat) -> Option<(Seq<VideoView>, int)>
    decreases fuel,
{
    if fuel == 0 {
        None
    } else {
        match parse_object(s, i) {
            Some((v, j)) => {
                let k = ws_end(s, j);
                if 0 <= k < s.len() && s[k] == ']' {
                    Some((seq![v], k + 1))
                } else if 0 <= k < s.len() && s[k] == ',' {
                    match parse_elements(s, ws_end(s, k + 1), (fuel - 1) as nat) {
                        Some((rest, e)) => Some((seq![v] + rest, e)),
                        None => None,
                    }
                } else {
                    None
                }
            }
            None => None,
        }
    }
}

/// A bracketed array of record objects at `i`: possibly empty.
pub open spec fn parse_array(s: Seq<char>, i: int) -> Option<(Seq<VideoView>, int)> {
    if 0 <= i < s.len() && s[i] == '[' {
        let k = ws_end(s, i + 1);
        if 0 <= k < s.len() && s[k] == ']' {
            Some((Seq::empty(), k + 1))
        } else {
            parse_elements(s, k, s.len())
        }
    } else {
        None
    }
}

/// The whole payload grammar: one array, nothing but blank space around it.
/// `Some(l)` exactly when `s` is a well-formed payload denoting the records
/// `l`, in order.
pub open spec fn spec_parse_videos(s: Seq<char>) -> Option<Seq<VideoView>> {
    match parse_array(s, ws_end(s, 0)) {
        Some((l, j)) => if ws_end(s, j) == s.len() {
            Some(l)
        } else {
            None
        },
        None => None,
    }
}

/// An object's named members gathered so far, as owned values.
pub struct PartialRecord {
    pub id: Option<u64>,
    pub title: Option<String>,
    pub speaker: Option<String>,
    pub url: Option<String>,
}

impl View for PartialRecord {
    type V = PartialVideo;

    open spec fn view(&self) -> PartialVideo {
        PartialVideo {
            id: self.id,
            title: match self.title {
                Some(t) => Some(t@),
                None => None,
            },
            speaker: match self.speaker {
                Some(t) => Some(t@),
                None => None,
            },
            url: match self.url {
                Some(t) => Some(t@),
                None => None,
            },
        }
    }
}

/// Relies on char::from_u32: `Some` holds the character with code `x`, and
/// comes exactly when `x` is neither a surrogate code unit nor above the
/// last code point.
#[verifier::external_body]
fn char_from_u32(x: u32) -> (r: Option<char>)
    ensures
        r is Some <==> (x < 0xD800 || (0xDFFF < x && x <= 0x10FFFF)),
        r matches Some(c) ==> c as u32 == x,
{
    char::from_u32(x)
}

/// Relies on String::push: appends exactly the given character.
#[verifier::external_body]
fn push_char(buf: &mut String, c: char)
    ensures
        final(buf)@ == old(buf)@.push(c),
{
    buf.push(c);
}

/// Moves `i` past blank space.
fn skip_ws_x(s: &str, i: usize, n: usize) -> (r: usize)
    requires
        i <= n,
        n == s@.len(),
    ensures
        r == ws_end(s@, i as int),
        i <= r <= n,
    decreases n - i,
{
    if i < n {
        let c = s.get_char(i);
        if c == ' ' || c == '\t' || c == '\n' || c == '\r' {
            return skip_ws_x(s, i + 1, n);
        }
    }
    i
}

/// The character a single-character escape stands for, as `unescaped`
/// describes.
fn unescaped_x(e: char) -> (r: Option<char>)
    ensures
        r == unescaped(e),
{
    match e {
        '"' => Some('"'),
        '\\' => Some('\\'),
        '/' => Some('/'),
        'b' => Some('\u{8}'),
        'f' => Some('\u{c}'),
        'n' => Some('\n'),
        'r' => Some('\r'),
        't' => Some('\t'),
        _ => None,
    }
}

/// The value of one hexadecimal digit, as `hex_val` describes.
fn hex_val_x(c: char) -> (r: Option<u32>)
    ensures
        r is Some <==> is_hex(c),
        r matches Some(x) ==> (x == hex_val(c) && x < 16),
{
    let u = c as u32;
    if 48 <= u && u <= 57 {
        Some(u - 48)
    } else if 97 <= u && u <= 102 {
        Some(u - 87)
    } else if 65 <= u && u <= 70 {
        Some(u - 55)
    } else {
        None
    }
}

/// Reads four hexadecimal digits at `j`, as `hex4_at` and `hex4_val`
/// describe.
fn hex4_x(s: &str, j: usize, n: usize) -> (r: Option<u32>)
    requires
        j <= n,
        n == s@.len(),
    ensures
        r is Some <==> hex4_at(s@, j as int),
        r matches Some(x) ==> (x == hex4_val(s@, j as int) && x <= 0xFFFF && j + 4 <= n),
{
    if n - j >= 4 {
        let a = hex_val_x(s.get_char(j));
        let b = hex_val_x(s.get_char(j + 1));
        let c = hex_val_x(s.get_char(j + 2));
        let d = hex_val_x(s.get_char(j + 3));
        match (a, b, c, d) {
            (Some(a), Some(b), Some(c), Some(d)) => Some(a * 4096 + b * 256 + c * 16 + d),
            _ => None,
        }
    } else {
        None
    }
}

/// Reads a string's content to its closing quote, as `parse_string_body`
/// describes.
fn parse_string_body_x(s: &str, j: usize, n: usize, acc: String) -> (r: Option<(String, usize)>)
    requires
        j <= n,
        n == s@.len(),
    ensures
        r is Some <==> parse_string_body(s@, j as int, acc@) is Some,
        r matches Some((v, e)) ==> (parse_string_body(s@, j as int, acc@) == Some((v@, e as int))
            && e <= n),
    decreases n - j,
{
    if j < n {
        let c = s.get_char(j);
        if c == '"' {
            return Some((acc, j + 1));
        }
        let mut buf = acc;
        if c == '\\' {
            if j + 1 < n {
                let e = s.get_char(j + 1);
                if e == 'u' {
                    let x = match hex4_x(s, j + 2, n) {
                        Some(x) => x,
                        None => { return None },
                    };
                    if 0xD800 <= x && x <= 0xDBFF {
                        if n - j >= 8 && s.get_char(j + 6) == '\\' && s.get_char(j + 7) == 'u' {
                            let y = match hex4_x(s, j + 8, n) {
                                Some(y) => y,
                                None => { return None },
                            };
                            if 0xDC00 <= y && y <= 0xDFFF {
                                let cp = 0x10000 + (x - 0xD800) * 0x400 + (y - 0xDC00);
                                match char_from_u32(cp) {
                                    Some(ch) => {
                                        proof {
                                            char_u32_cast(ch, cp);
                                        }
                                        push_char(&mut buf, ch);
                                        return parse_string_body_x(s, j + 12, n, buf);
                                    }
                                    None => { return None },
                                }
                            }
                        }
                        return None;
                    }
                    if 0xDC00 <= x && x <= 0xDFFF {
                        return None;
                    }
                    match char_from_u32(x) {
                        Some(ch) => {
                            proof {
                                char_u32_cast(ch, x);
                            }
                            push_char(&mut buf, ch);
                            return parse_string_body_x(s, j + 6, n, buf);
                        }
                        None => { return None },
                    }
                }
                match unescaped_x(e) {
                    Some(ch) => {
                        push_char(&mut buf, ch);
                        return parse_string_body_x(s, j + 2, n, buf);
                    }
                    None => { return None },
                }
            }
            return None;
        }
        if (c as u32) < 32 {
            return None;
        }
        push_char(&mut buf, c);
        return parse_string_body_x(s, j + 1, n, buf);
    }
    None
}

/// Reads a quoted string, as `parse_string` describes.
fn parse_string_x(s: &str, i: usize, n: usize) -> (r: Option<(String, usize)>)
    requires
        i <= n,
        n == s@.len(),
    ensures
        r is Some <==> parse_string(s@, i as int) is Some,
        r matches Some((v, e)) ==> (parse_string(s@, i as int) == Some((v@, e as int)) && e <= n),
{
    if i < n && s.get_char(i) == '"' {
        parse_string_body_x(s, i + 1, n, String::new())
    } else {
        None
    }
}

/// Whether the member name read as `key` is `name`.
fn key_is(key: &String, name: &str) -> (r: bool)
    ensures
        r == (key@ == name@),
{
    let owned = name.to_owned();
    key.eq(&owned)
}

/// Whether `pat` stands verbatim at `i`, as `at_lit` describes.
fn lit_at(s: &str, i: usize, n: usize, pat: &str) -> (r: bool)
    requires
        i <= n,
        n == s@.len(),
    ensures
        r == at_lit(s@, i as int, pat@),
{
    let np = pat.unicode_len();
    if n - i < np {
        proof {
            assert(!at_lit(s@, i as int, pat@));
        }
        return false;
    }
    let mut k: usize = 0;
    while k < np
        invariant
            i <= n,
            n == s@.len(),
            np == pat@.len(),
            n - i >= np,
            k <= np,
            forall|t: int| 0 <= t < k ==> s@[i + t] == pat@[t],
        decreases np - k,
    {
        if s.get_char(i + k) != pat.get_char(k) {
            proof {
                assert(s@.subrange(i as int, i + pat@.len())[k as int] != pat@[k as int]);
            }
            return false;
        }
        k = k + 1;
    }
    proof {
        assert(s@.subrange(i as int, i + pat@.len()) =~= pat@);
    }
    true
}

/// Accumulates digits, as `parse_digits` describes.
fn parse_digits_x(s: &str, i: usize, n: usize, acc: u64) -> (r: Option<(u64, usize)>)
    requires
        i <= n,
        n == s@.len(),
    ensures
        r is Some <==> parse_digits(s@, i as int, acc) is Some,
        r matches Some((v, e)) ==> (parse_digits(s@, i as int, acc) == Some((v, e as int)) && e
            <= n),
    decreases n - i,
{
    if i < n {
        let c = s.get_char(i);
        let cu = c as u32;
        if 48 <= cu && cu <= 57 {
            let d = (cu - 48) as u64;
            if acc <= (u64::MAX - d) / 10 {
                let acc2 = acc * 10 + d;
                return parse_digits_x(s, i + 1, n, acc2);
            }
            return None;
        }
    }
    Some((acc, i))
}

/// Reads the `id` member's value, as `parse_number` describes.
fn parse_number_x(s: &str, i: usize, n: usize) -> (r: Option<(u64, usize)>)
    requires
        i <= n,
        n == s@.len(),
    ensures
        r is Some <==> parse_number(s@, i as int) is Some,
        r matches Some((v, e)) ==> (parse_number(s@, i as int) == Some((v, e as int)) && e <= n),
{
    if i < n {
        let c = s.get_char(i);
        let cu = c as u32;
        if 48 <= cu && cu <= 57 {
            if c == '0' {
                return Some((0, i + 1));
            }
            return parse_digits_x(s, i, n, 0);
        }
    }
    None
}

/// Moves `i` past digits, as `digits_end` describes.
fn digits_end_x(s: &str, i: usize, n: usize) -> (r: usize)
    requires
        i <= n,
        n == s@.len(),
    ensures
        r == digits_end(s@, i as int),
        i <= r <= n,
    decreases n - i,
{
    if i < n {
        let u = s.get_char(i) as u32;
        if 48 <= u && u <= 57 {
            return digits_end_x(s, i + 1, n);
        }
    }
    i
}

/// Reads a number's optional fraction part, as `frac_end` describes.
fn frac_end_x(s: &str, i: usize, n: usize) -> (r: Option<usize>)
    requires
        i <= n,
        n == s@.len(),
    ensures
        r is Some <==> frac_end(s@, i as int) is Some,
        r matches Some(e) ==> (frac_end(s@, i as int) == Some(e as int) && e <= n),
{
    if i < n && s.get_char(i) == '.' {
        if i + 1 < n {
            let u = s.get_char(i + 1) as u32;
            if 48 <= u && u <= 57 {
                return Some(digits_end_x(s, i + 1, n));
            }
        }
        return None;
    }
    Some(i)
}

/// Reads a number's optional exponent part, as `exp_end` describes.
fn exp_end_x(s: &str, i: usize, n: usize) -> (r: Option<usize>)
    requires
        i <= n,
        n == s@.len(),
    ensures
        r is Some <==> exp_end(s@, i as int) is Some,
        r matches Some(e) ==> (exp_end(s@, i as int) == Some(e as int) && e <= n),
{
    if i < n {
        let c = s.get_char(i);
        if c == 'e' || c == 'E' {
            let mut j = i + 1;
            if i + 1 < n {
                let c2 = s.get_char(i + 1);
                if c2 == '+' || c2 == '-' {
                    j = i + 2;
                }
            }
            if j < n {
                let u = s.get_char(j) as u32;
                if 48 <= u && u <= 57 {
                    return Some(digits_end_x(s, j, n));
                }
            }
            return None;
        }
    }
    Some(i)
}

/// Reads an ignored number token, as `number_end` describes.
fn number_end_x(s: &str, i: usize, n: usize) -> (r: Option<usize>)
    requires
        i <= n,
        n == s@.len(),
    ensures
        r is Some <==> number_end(s@, i as int) is Some,
        r matches Some(e) ==> (number_end(s@, i as int) == Some(e as int) && e <= n),
{
    let mut j = i;
    if i < n && s.get_char(i) == '-' {
        j = i + 1;
    }
    if j < n {
        let c = s.get_char(j);
        let u = c as u32;
        if 48 <= u && u <= 57 {
            let j2 = if c == '0' {
                j + 1
            } else {
                digits_end_x(s, j, n)
            };
            match frac_end_x(s, j2, n) {
                Some(j3) => {
                    return exp_end_x(s, j3, n);
                }
                None => {
                    return None;
                }
            }
        }
    }
    None
}

/// Reads any ignored JSON value, as `skip_value` describes.
fn skip_value_x(s: &str, i: usize, n: usize, fuel: usize) -> (r: Option<usize>)
    requires
        i <= n,
        n == s@.len(),
    ensures
        r is Some <==> skip_value(s@, i as int, fuel as nat) is Some,
        r matches Some(e) ==> (skip_value(s@, i as int, fuel as nat) == Some(e as int) && e <= n),
    decreases fuel,
{
    if fuel == 0 {
        return None;
    }
    if i < n {
        let c = s.get_char(i);
        if c == '"' {
            return match parse_string_x(s, i, n) {
                Some((_, e)) => Some(e),
                None => None,
            };
        }
        if c == '{' {
            let k = skip_ws_x(s, i + 1, n);
            if k < n && s.get_char(k) == '}' {
                return Some(k + 1);
            }
            return skip_object_items_x(s, k, n, fuel - 1);
        }
        if c == '[' {
            let k = skip_ws_x(s, i + 1, n);
            if k < n && s.get_char(k) == ']' {
                return Some(k + 1);
            }
            return skip_array_items_x(s, k, n, fuel - 1);
        }
        let u = c as u32;
        if c == '-' || (48 <= u && u <= 57) {
            return number_end_x(s, i, n);
        }
        if lit_at(s, i, n, "true") {
            proof {
                reveal_strlit("true");
            }
            return Some(i + 4);
        }
        if lit_at(s, i, n, "false") {
            proof {
                reveal_strlit("false");
            }
            return Some(i + 5);
        }
        if lit_at(s, i, n, "null") {
            proof {
                reveal_strlit("null");
            }
            return Some(i + 4);
        }
    }
    None
}

/// Reads an ignored object's members, as `skip_object_items` describes.
fn skip_object_items_x(s: &str, k: usize, n: usize, fuel: usize) -> (r: Option<usize>)
    requires
        k <= n,
        n == s@.len(),
    ensures
        r is Some <==> skip_object_items(s@, k as int, fuel as nat) is Some,
        r matches Some(e) ==> (skip_object_items(s@, k as int, fuel as nat) == Some(e as int) && e
            <= n),
    decreases fuel,
{
    if fuel == 0 {
        return None;
    }
    let j = match parse_string_x(s, k, n) {
        Some((_, j)) => j,
        None => { return None },
    };
    let c = skip_ws_x(s, j, n);
    if !(c < n && s.get_char(c) == ':') {
        return None;
    }
    let m = skip_ws_x(s, c + 1, n);
    let e = match skip_value_x(s, m, n, fuel - 1) {
        Some(e) => e,
        None => { return None },
    };
    let k2 = skip_ws_x(s, e, n);
    if k2 < n {
        let c2 = s.get_char(k2);
        if c2 == '}' {
            return Some(k2 + 1);
        }
        if c2 == ',' {
            let m2 = skip_ws_x(s, k2 + 1, n);
            return skip_object_items_x(s, m2, n, fuel - 1);
        }
    }
    None
}

/// Reads an ignored array's items, as `skip_array_items` describes.
fn skip_array_items_x(s: &str, k: usize, n: usize, fuel: usize) -> (r: Option<usize>)
    requires
        k <= n,
        n == s@.len(),
    ensures
        r is Some <==> skip_array_items(s@, k as int, fuel as nat) is Some,
        r matches Some(e) ==> (skip_array_items(s@, k as int, fuel as nat) == Some(e as int) && e
            <= n),
    decreases fuel,
{
    if fuel == 0 {
        return None;
    }
    let e = match skip_value_x(s, k, n, fuel - 1) {
        Some(e) => e,
        None => { return None },
    };
    let k2 = skip_ws_x(s, e, n);
    if k2 < n {
        let c2 = s.get_char(k2);
        if c2 == ']' {
            return Some(k2 + 1);
        }
        if c2 == ',' {
            let m2 = skip_ws_x(s, k2 + 1, n);
            return skip_array_items_x(s, m2, n, fuel - 1);
        }
    }
    None
}

/// Reads one member, as `parse_member` describes.
fn parse_member_x(s: &str, i: usize, n: usize, acc: PartialRecord) -> (r: Option<
    (PartialRecord, usize),
>)
    requires
        i <= n,
        n == s@.len(),
    ensures
        r is Some <==> parse_member(s@, i as int, acc@) is Some,
        r matches Some((acc2, e)) ==> (parse_member(s@, i as int, acc@) == Some((acc2@, e as int))
            && e <= n),
{
    let (key, j) = match parse_string_x(s, i, n) {
        Some(p) => p,
        None => { return None },
    };
    let k = skip_ws_x(s, j, n);
    if !(k < n && s.get_char(k) == ':') {
        return None;
    }
    let m = skip_ws_x(s, k + 1, n);
    if key_is(&key, "id") {
        if acc.id.is_some() {
            return None;
        }
        match parse_number_x(s, m, n) {
            Some((v, e)) => Some(
                (
                    PartialRecord {
                        id: Some(v),
                        title: acc.title,
                        speaker: acc.speaker,
                        url: acc.url,
                    },
                    e,
                ),
            ),
            None => None,
        }
    } else if key_is(&key, "title") {
        if acc.title.is_some() {
            return None;
        }
        match parse_string_x(s, m, n) {
            Some((v, e)) => Some(
                (
                    PartialRecord {
                        id: acc.id,
                        title: Some(v),
                        speaker: acc.speaker,
                        url: acc.url,
                    },
                    e,
                ),
            ),
            None => None,
        }
    } else if key_is(&key, "speaker") {
        if acc.speaker.is_some() {
            return None;
        }
        match parse_string_x(s, m, n) {
            Some((v, e)) => Some(
                (
                    PartialRecord {
                        id: acc.id,
                        title: acc.title,
                        speaker: Some(v),
                        url: acc.url,
                    },
                    e,
                ),
            ),
            None => None,
        }
    } else if key_is(&key, "url") {
        if acc.url.is_some() {
            return None;
        }
        match parse_string_x(s, m, n) {
            Some((v, e)) => Some(
                (
                    PartialRecord {
                        id: acc.id,
                        title: acc.title,
                        speaker: acc.speaker,
                        url: Some(v),
                    },
                    e,
                ),
            ),
            None => None,
        }
    } else {
        match skip_value_x(s, m, n, n) {
            Some(e) => Some((acc, e)),
            None => None,
        }
    }
}

/// Reads a record object's members to its closing brace, as `parse_members`
/// describes.
fn parse_members_x(s: &str, i: usize, n: usize, acc: PartialRecord, fuel: usize) -> (r: Option<
    (Video, usize),
>)
    requires
        i <= n,
        n == s@.len(),
    ensures
        r is Some <==> parse_members(s@, i as int, acc@, fuel as nat) is Some,
        r matches Some((v, e)) ==> (parse_members(s@, i as int, acc@, fuel as nat) == Some(
            (v@, e as int),
        ) && e <= n),
    decreases fuel,
{
    if fuel == 0 {
        return None;
    }
    let (acc2, j) = match parse_member_x(s, i, n, acc) {
        Some(p) => p,
        None => { return None },
    };
    let k = skip_ws_x(s, j, n);
    if k < n {
        let c = s.get_char(k);
        if c == '}' {
            return match (acc2.id, acc2.title, acc2.speaker, acc2.url) {
                (Some(id), Some(title), Some(speaker), Some(url)) => Some(
                    (Video { id, title, speaker, url }, k + 1),
                ),
                _ => None,
            };
        }
        if c == ',' {
            let m = skip_ws_x(s, k + 1, n);
            return parse_members_x(s, m, n, acc2, fuel - 1);
        }
    }
    None
}

/// Reads one record object, as `parse_object` describes.
fn parse_object_x(s: &str, i: usize, n: usize) -> (r: Option<(Video, usize)>)
    requires
        i <= n,
        n == s@.len(),
    ensures
        r is Some <==> parse_object(s@, i as int) is Some,
        r matches Some((v, e)) ==> (parse_object(s@, i as int) == Some((v@, e as int)) && e <= n),
{
    if i < n && s.get_char(i) == '{' {
        let k = skip_ws_x(s, i + 1, n);
        let acc = PartialRecord { id: None, title: None, speaker: None, url: None };
        parse_members_x(s, k, n, acc, n)
    } else {
        None
    }
}

/// Reads a run of record objects to the closing bracket, as
/// `parse_elements` describes.
fn parse_elements_x(s: &str, i: usize, n: usize, fuel: usize) -> (r: Option<(Vec<Video>, usize)>)
    requires
        i <= n,
        n == s@.len(),
    ensures
        r is Some <==> parse_elements(s@, i as int, fuel as nat) is Some,
        r matches Some((vids, e)) ==> (parse_elements(s@, i as int, fuel as nat) matches Some(
            (l, ee),
        ) && ee == e as int && e <= n && vids@.len() == l.len() && (forall|k: int|
            0 <= k < l.len() ==> #[trigger] vids@[k]@ == l[k])),
    decreases fuel,
{
    if fuel == 0 {
        return None;
    }
    let (v, j) = match parse_object_x(s, i, n) {
        Some(p) => p,
        None => { return None },
    };
    let k = skip_ws_x(s, j, n);
    if k < n {
        let c = s.get_char(k);
        if c == ']' {
            let mut vids: Vec<Video> = Vec::new();
            vids.push(v);
            return Some((vids, k + 1));
        }
        if c == ',' {
            let m = skip_ws_x(s, k + 1, n);
            match parse_elements_x(s, m, n, fuel - 1) {
                Some((rest, e)) => {
                    let mut vids = rest;
                    vids.insert(0, v);
                    return Some((vids, e));
                }
                None => { return None },
            }
        }
    }
    None
}

/// Reads the array, as `parse_array` describes.
fn parse_array_x(s: &str, i: usize, n: usize) -> (r: Option<(Vec<Video>, usize)>)
    requires
        i <= n,
        n == s@.len(),
    ensures
        r is Some <==> parse_array(s@, i as int) is Some,
        r matches Some((vids, e)) ==> (parse_array(s@, i as int) matches Some((l, ee)) && ee == e
            as int && e <= n && vids@.len() == l.len() && (forall|k: int|
            0 <= k < l.len() ==> #[trigger] vids@[k]@ == l[k])),
{
    if i < n && s.get_char(i) == '[' {
        let k = skip_ws_x(s, i + 1, n);
        if k < n && s.get_char(k) == ']' {
            let vids: Vec<Video> = Vec::new();
            Some((vids, k + 1))
        } else {
            parse_elements_x(s, k, n, n)
        }
    } else {
        None
    }
}

/// Decodes a fetched body. Returns the records, in payload order, exactly
/// when the body is a well-formed payload under the grammar
/// `spec_parse_videos`; returns `None` on every malformed body.
pub fn parse_videos(s: &str) -> (r: Option<Vec<Video>>)
    ensures
        r is Some <==> spec_parse_videos(s@) is Some,
        r matches Some(vids) ==> (spec_parse_videos(s@) matches Some(l) && vids@.len() == l.len()
            && (forall|k: int| 0 <= k < l.len() ==> #[trigger] vids@[k]@ == l[k])),
{
    let n = s.unicode_len();
    let k = skip_ws_x(s, 0, n);
    match parse_array_x(s, k, n) {
        Some((vids, j)) => {
            let e = skip_ws_x(s, j, n);
            if e == n {
                Some(vids)
            } else {
                None
            }
        }
        None => None,
    }
}

} // verus!
