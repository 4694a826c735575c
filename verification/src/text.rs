//! Verified text utilities shared by the rest of the crate: string
//! comparison and slicing, `/`-separated path names, decimal and
//! hexadecimal rendering of numbers, and decimal parsing.

use vstd::prelude::*;
use vstd::string::*;

verus! {

/// The views of a sequence of strings.
pub open spec fn str_views(v: Seq<String>) -> Seq<Seq<char>> {
    v.map_values(|s: String| s@)
}

/// Whether `p` is a prefix of `s`.
pub open spec fn spec_starts_with(s: Seq<char>, p: Seq<char>) -> bool {
    p.len() <= s.len() && s.subrange(0, p.len() as int) == p
}

/// Whether two strings hold the same characters.
pub fn str_eq(a: &str, b: &str) -> (r: bool)
    ensures
        r == (a@ == b@),
{
    let a_len = a.unicode_len();
    let b_len = b.unicode_len();
    if a_len != b_len {
        assert(a@ != b@) by {
            assert(a@.len() != b@.len());
        }
        return false;
    }
    let mut i: usize = 0;
    while i < a_len
        invariant
            i <= a_len,
            a_len == a@.len(),
            a_len == b@.len(),
            forall|j: int| 0 <= j < i ==> a@[j] == b@[j],
        decreases a_len - i,
    {
        if a.get_char(i) != b.get_char(i) {
            assert(a@ != b@);
            return false;
        }
        i += 1;
    }
    assert(a@ =~= b@);
    true
}

/// Whether `s` starts with the prefix `p`.
pub fn str_starts_with(s: &str, p: &str) -> (r: bool)
    ensures
        r == spec_starts_with(s@, p@),
{
    let s_len = s.unicode_len();
    let p_len = p.unicode_len();
    if p_len > s_len {
        return false;
    }
    let mut i: usize = 0;
    while i < p_len
        invariant
            i <= p_len,
            p_len == p@.len(),
            p_len <= s@.len(),
            forall|j: int| 0 <= j < i ==> s@[j] == p@[j],
        decreases p_len - i,
    {
        if s.get_char(i) != p.get_char(i) {
            assert(s@.subrange(0, p@.len() as int)[i as int] != p@[i as int]);
            return false;
        }
        i += 1;
    }
    assert(s@.subrange(0, p@.len() as int) =~= p@);
    true
}

/// Whether `p` is a suffix of `s`.
pub open spec fn spec_ends_with(s: Seq<char>, p: Seq<char>) -> bool {
    p.len() <= s.len() && s.subrange(s.len() - p.len(), s.len() as int) == p
}

/// Whether `s` ends with the suffix `p`.
pub fn str_ends_with(s: &str, p: &str) -> (r: bool)
    ensures
        r == spec_ends_with(s@, p@),
{
    let s_len = s.unicode_len();
    let p_len = p.unicode_len();
    if p_len > s_len {
        return false;
    }
    let off = s_len - p_len;
    let mut i: usize = 0;
    while i < p_len
        invariant
            i <= p_len,
            p_len == p@.len(),
            p_len <= s@.len(),
            s_len == s@.len(),
            off == s_len - p_len,
            forall|j: int| 0 <= j < i ==> s@[off + j] == p@[j],
        decreases p_len - i,
    {
        if s.get_char(off + i) != p.get_char(i) {
            assert(s@.subrange(s@.len() - p@.len(), s@.len() as int)[i as int] != p@[i as int]);
            return false;
        }
        i += 1;
    }
    assert(s@.subrange(s@.len() - p@.len(), s@.len() as int) =~= p@);
    true
}

/// ASCII upper-casing of one character: `'a'..='z'` shift down by 32,
/// everything else unchanged.
pub open spec fn upper_char(c: char) -> char {
    if 'a' <= c && c <= 'z' {
        ((c as u32) - 32) as char
    } else {
        c
    }
}

/// ASCII upper-casing of a character sequence.
pub open spec fn upper_seq(s: Seq<char>) -> Seq<char> {
    s.map_values(|c: char| upper_char(c))
}

/// The upper-case letter for one lower-case ASCII letter, as a string.
fn upper_letter(c: char) -> (r: &'static str)
    requires
        'a' <= c && c <= 'z',
    ensures
        r@ == seq![upper_char(c)],
{
    proof {
        reveal_strlit("A");
        reveal_strlit("B");
        reveal_strlit("C");
        reveal_strlit("D");
        reveal_strlit("E");
        reveal_strlit("F");
        reveal_strlit("G");
        reveal_strlit("H");
        reveal_strlit("I");
        reveal_strlit("J");
        reveal_strlit("K");
        reveal_strlit("L");
        reveal_strlit("M");
        reveal_strlit("N");
        reveal_strlit("O");
        reveal_strlit("P");
        reveal_strlit("Q");
        reveal_strlit("R");
        reveal_strlit("S");
        reveal_strlit("T");
        reveal_strlit("U");
        reveal_strlit("V");
        reveal_strlit("W");
        reveal_strlit("X");
        reveal_strlit("Y");
        reveal_strlit("Z");
    }
    if c == 'a' {
        assert("A"@ =~= seq![upper_char('a')]);
        "A"
    } else if c == 'b' {
        assert("B"@ =~= seq![upper_char('b')]);
        "B"
    } else if c == 'c' {
        assert("C"@ =~= seq![upper_char('c')]);
        "C"
    } else if c == 'd' {
        assert("D"@ =~= seq![upper_char('d')]);
        "D"
    } else if c == 'e' {
        assert("E"@ =~= seq![upper_char('e')]);
        "E"
    } else if c == 'f' {
        assert("F"@ =~= seq![upper_char('f')]);
        "F"
    } else if c == 'g' {
        assert("G"@ =~= seq![upper_char('g')]);
        "G"
    } else if c == 'h' {
        assert("H"@ =~= seq![upper_char('h')]);
        "H"
    } else if c == 'i' {
        assert("I"@ =~= seq![upper_char('i')]);
        "I"
    } else if c == 'j' {
        assert("J"@ =~= seq![upper_char('j')]);
        "J"
    } else if c == 'k' {
        assert("K"@ =~= seq![upper_char('k')]);
        "K"
    } else if c == 'l' {
        assert("L"@ =~= seq![upper_char('l')]);
        "L"
    } else if c == 'm' {
        assert("M"@ =~= seq![upper_char('m')]);
        "M"
    } else if c == 'n' {
        assert("N"@ =~= seq![upper_char('n')]);
        "N"
    } else if c == 'o' {
        assert("O"@ =~= seq![upper_char('o')]);
        "O"
    } else if c == 'p' {
        assert("P"@ =~= seq![upper_char('p')]);
        "P"
    } else if c == 'q' {
        assert("Q"@ =~= seq![upper_char('q')]);
        "Q"
    } else if c == 'r' {
        assert("R"@ =~= seq![upper_char('r')]);
        "R"
    } else if c == 's' {
        assert("S"@ =~= seq![upper_char('s')]);
        "S"
    } else if c == 't' {
        assert("T"@ =~= seq![upper_char('t')]);
        "T"
    } else if c == 'u' {
        assert("U"@ =~= seq![upper_char('u')]);
        "U"
    } else if c == 'v' {
        assert("V"@ =~= seq![upper_char('v')]);
        "V"
    } else if c == 'w' {
        assert("W"@ =~= seq![upper_char('w')]);
        "W"
    } else if c == 'x' {
        assert("X"@ =~= seq![upper_char('x')]);
        "X"
    } else if c == 'y' {
        assert("Y"@ =~= seq![upper_char('y')]);
        "Y"
    } else {
        assert("Z"@ =~= seq![upper_char('z')]);
        "Z"
    }
}

/// ASCII upper-casing of a whole string.
pub fn to_ascii_upper(s: &str) -> (r: String)
    ensures
        r@ == upper_seq(s@),
{
    let n = s.unicode_len();
    let mut out = String::new();
    let mut i: usize = 0;
    while i < n
        invariant
            i <= n,
            n == s@.len(),
            out@ == upper_seq(s@.take(i as int)),
        decreases n - i,
    {
        let c = s.get_char(i);
        if 'a' <= c && c <= 'z' {
            out.append(upper_letter(c));
        } else {
            out.append(s.substring_char(i, i + 1));
            assert(s@.subrange(i as int, i + 1) =~= seq![s@[i as int]]);
        }
        assert(upper_seq(s@.take(i + 1)) =~= upper_seq(s@.take(i as int)).push(
            upper_char(s@[i as int]),
        ));
        i += 1;
    }
    assert(s@.take(n as int) =~= s@);
    out
}

/// The decimal digit character for a value below ten.
pub open spec fn dec_digit_char(d: int) -> char {
    (d + '0' as int) as char
}

/// The lower-case hexadecimal digit character for a value below sixteen.
pub open spec fn hex_digit_char(d: int) -> char {
    if d < 10 {
        dec_digit_char(d)
    } else {
        (d - 10 + 'a' as int) as char
    }
}

/// The decimal rendering of a non-negative number, most significant digit
/// first, without leading zeros (a single `'0'` for zero).
pub open spec fn spec_dec_digits(n: int) -> Seq<char>
    decreases n,
{
    if n < 10 {
        seq![dec_digit_char(n)]
    } else {
        spec_dec_digits(n / 10).push(dec_digit_char(n % 10))
    }
}

/// The hexadecimal rendering of a non-negative number, most significant
/// digit first, without leading zeros (a single `'0'` for zero).
pub open spec fn spec_hex_digits(n: int) -> Seq<char>
    decreases n,
{
    if n < 16 {
        seq![hex_digit_char(n)]
    } else {
        spec_hex_digits(n / 16).push(hex_digit_char(n % 16))
    }
}

/// The hexadecimal rendering of a non-negative number, zero-padded on the
/// left to at least two digits.
pub open spec fn spec_hex2(n: int) -> Seq<char> {
    if n < 16 {
        seq!['0'] + spec_hex_digits(n)
    } else {
        spec_hex_digits(n)
    }
}

/// One decimal digit as a string.
fn dec_digit_str(d: u32) -> (r: &'static str)
    requires
        d < 10,
    ensures
        r@ == seq![dec_digit_char(d as int)],
{
    proof {
        reveal_strlit("0");
        reveal_strlit("1");
        reveal_strlit("2");
        reveal_strlit("3");
        reveal_strlit("4");
        reveal_strlit("5");
        reveal_strlit("6");
        reveal_strlit("7");
        reveal_strlit("8");
        reveal_strlit("9");
    }
    if d == 0 {
        assert("0"@ =~= seq![dec_digit_char(0)]);
        "0"
    } else if d == 1 {
        assert("1"@ =~= seq![dec_digit_char(1)]);
        "1"
    } else if d == 2 {
        assert("2"@ =~= seq![dec_digit_char(2)]);
        "2"
    } else if d == 3 {
        assert("3"@ =~= seq![dec_digit_char(3)]);
        "3"
    } else if d == 4 {
        assert("4"@ =~= seq![dec_digit_char(4)]);
        "4"
    } else if d == 5 {
        assert("5"@ =~= seq![dec_digit_char(5)]);
        "5"
    } else if d == 6 {
        assert("6"@ =~= seq![dec_digit_char(6)]);
        "6"
    } else if d == 7 {
        assert("7"@ =~= seq![dec_digit_char(7)]);
        "7"
    } else if d == 8 {
        assert("8"@ =~= seq![dec_digit_char(8)]);
        "8"
    } else {
        assert("9"@ =~= seq![dec_digit_char(9)]);
        "9"
    }
}

/// One lower-case hexadecimal digit as a string.
fn hex_digit_str(d: u32) -> (r: &'static str)
    requires
        d < 16,
    ensures
        r@ == seq![hex_digit_char(d as int)],
{
    proof {
        reveal_strlit("a");
        reveal_strlit("b");
        reveal_strlit("c");
        reveal_strlit("d");
        reveal_strlit("e");
        reveal_strlit("f");
    }
    if d < 10 {
        dec_digit_str(d)
    } else if d == 10 {
        assert("a"@ =~= seq![hex_digit_char(10)]);
        "a"
    } else if d == 11 {
        assert("b"@ =~= seq![hex_digit_char(11)]);
        "b"
    } else if d == 12 {
        assert("c"@ =~= seq![hex_digit_char(12)]);
        "c"
    } else if d == 13 {
        assert("d"@ =~= seq![hex_digit_char(13)]);
        "d"
    } else if d == 14 {
        assert("e"@ =~= seq![hex_digit_char(14)]);
        "e"
    } else {
        assert("f"@ =~= seq![hex_digit_char(15)]);
        "f"
    }
}

/// The decimal rendering of `n`.
pub fn dec_str_u32(n: u32) -> (r: String)
    ensures
        r@ == spec_dec_digits(n as int),
    decreases n,
{
    if n < 10 {
        dec_digit_str(n).to_owned()
    } else {
        let mut r = dec_str_u32(n / 10);
        r.append(dec_digit_str(n % 10));
        r
    }
}

/// The hexadecimal rendering of `n`, without padding.
fn hex_str_u32(n: u32) -> (r: String)
    ensures
        r@ == spec_hex_digits(n as int),
    decreases n,
{
    if n < 16 {
        hex_digit_str(n).to_owned()
    } else {
        let mut r = hex_str_u32(n / 16);
        r.append(hex_digit_str(n % 16));
        r
    }
}

/// The hexadecimal rendering of `n`, zero-padded to at least two digits.
pub fn hex2_str_u32(n: u32) -> (r: String)
    ensures
        r@ == spec_hex2(n as int),
{
    if n < 16 {
        let mut r = "0".to_owned();
        proof {
            reveal_strlit("0");
        }
        assert("0"@ =~= seq!['0']);
        let h = hex_str_u32(n);
        r.append(h.as_str());
        r
    } else {
        hex_str_u32(n)
    }
}

/// Whether `c` is a decimal digit.
pub open spec fn is_dec_digit(c: char) -> bool {
    '0' <= c && c <= '9'
}

/// The value of a decimal digit character.
pub open spec fn dec_val(c: char) -> int {
    c as int - '0' as int
}

/// Whether every character of `s` is a decimal digit.
pub open spec fn all_dec_digits(s: Seq<char>) -> bool {
    forall|i: int| 0 <= i < s.len() ==> is_dec_digit(s[i])
}

/// The number denoted by a digit sequence read in base ten (junk for
/// sequences holding non-digits).
pub open spec fn digits_val(s: Seq<char>) -> int
    decreases s.len(),
{
    if s.len() == 0 {
        0
    } else {
        digits_val(s.drop_last()) * 10 + dec_val(s.last())
    }
}

/// A numeral may carry one leading `'+'`; this is the part after it.
pub open spec fn numeral_body(s: Seq<char>) -> Seq<char> {
    if s.len() > 0 && s[0] == '+' {
        s.subrange(1, s.len() as int)
    } else {
        s
    }
}

/// Whether `s` denotes a `u32`: an optional `'+'`, then one or more
/// decimal digits, with a value of at most `u32::MAX`.
pub open spec fn is_u32_numeral(s: Seq<char>) -> bool {
    let b = numeral_body(s);
    b.len() > 0 && all_dec_digits(b) && digits_val(b) <= u32::MAX
}

/// The value a `u32` numeral denotes.
pub open spec fn u32_numeral_val(s: Seq<char>) -> int {
    digits_val(numeral_body(s))
}

proof fn lemma_digits_val_nonneg(s: Seq<char>)
    requires
        all_dec_digits(s),
    ensures
        digits_val(s) >= 0,
    decreases s.len(),
{
    if s.len() > 0 {
        assert(all_dec_digits(s.drop_last()));
        lemma_digits_val_nonneg(s.drop_last());
    }
}

proof fn lemma_digits_val_prefix_bound(s: Seq<char>, k: int)
    requires
        all_dec_digits(s),
        0 <= k <= s.len(),
    ensures
        digits_val(s) >= digits_val(s.take(k)),
    decreases s.len() - k,
{
    if k == s.len() {
        assert(s.take(k) =~= s);
    } else {
        assert(s.take(k + 1).drop_last() =~= s.take(k));
        assert(all_dec_digits(s.take(k + 1)));
        lemma_digits_val_nonneg(s.take(k));
        assert(digits_val(s.take(k + 1)) >= digits_val(s.take(k)));
        lemma_digits_val_prefix_bound(s, k + 1);
    }
}

/// Parse a `u32` from its decimal rendering (an optional leading `'+'`
/// is accepted); `None` when `s` is not such a numeral, including on
/// overflow.
pub fn parse_u32(s: &str) -> (r: Option<u32>)
    ensures
        r is Some <==> is_u32_numeral(s@),
        r matches Some(v) ==> v == u32_numeral_val(s@),
{
    let n = s.unicode_len();
    if n == 0 {
        return None;
    }
    let start: usize = if s.get_char(0) == '+' {
        1
    } else {
        0
    };
    if start == n {
        return None;
    }
    let ghost body = numeral_body(s@);
    proof {
        assert(body =~= s@.subrange(start as int, n as int));
    }
    let mut val: u32 = 0;
    let mut i: usize = start;
    while i < n
        invariant
            start <= i <= n,
            n == s@.len(),
            start < n,
            body == numeral_body(s@),
            body == s@.subrange(start as int, n as int),
            all_dec_digits(body.take(i - start)),
            val == digits_val(body.take(i - start)),
        decreases n - i,
    {
        let c = s.get_char(i);
        if c < '0' || c > '9' {
            proof {
                assert(body[i - start] == s@[i as int]);
                assert(!all_dec_digits(body));
            }
            return None;
        }
        let d: u32 = (c as u32) - ('0' as u32);
        let wide: u64 = (val as u64) * 10 + (d as u64);
        proof {
            assert(body.take(i - start + 1).drop_last() =~= body.take(i - start));
        }
        if wide > u32::MAX as u64 {
            proof {
                if all_dec_digits(body) {
                    assert(digits_val(body.take(i - start + 1)) == val * 10 + d);
                    lemma_digits_val_prefix_bound(body, i - start + 1);
                    assert(digits_val(body) > u32::MAX);
                }
            }
            return None;
        }
        val = wide as u32;
        i += 1;
    }
    proof {
        assert(body.take(n - start) =~= body);
    }
    Some(val)
}

/// The last entry of `comps` that is a real path component: empty
/// entries (from doubled or trailing slashes) and `"."` entries are
/// skipped from the end; `".."`, or nothing else left, gives none.
pub open spec fn spec_last_real_component(comps: Seq<Seq<char>>) -> Option<Seq<char>>
    decreases comps.len(),
{
    if comps.len() == 0 {
        None
    } else if comps.last().len() == 0 || comps.last() == "."@ {
        spec_last_real_component(comps.drop_last())
    } else if comps.last() == ".."@ {
        None
    } else {
        Some(comps.last())
    }
}

/// The final component of a `/`-separated path, read the way
/// `std::path::Path::file_name` reads it: trailing slashes and trailing
/// `"."` components are ignored (so `"/usr/bin/"` ends in `"bin"`), and a
/// path that ends in `".."` — or holds no real component at all — has
/// none.
pub open spec fn spec_file_name(s: Seq<char>) -> Option<Seq<char>> {
    spec_last_real_component(spec_split(s, '/'))
}

/// The final path component as [`spec_file_name`] gives it.
pub fn path_file_name(s: &str) -> (r: Option<String>)
    ensures
        r is Some <==> spec_file_name(s@) is Some,
        r matches Some(p) ==> spec_file_name(s@) == Some(p@),
{
    let comps = split_string(s, '/');
    let ghost cv = str_views(comps@);
    let mut i: usize = comps.len();
    proof {
        assert(cv.take(comps@.len() as int) =~= cv);
    }
    while i > 0
        invariant
            i <= comps@.len(),
            cv == str_views(comps@),
            cv == spec_split(s@, '/'),
            spec_last_real_component(cv.take(i as int)) == spec_file_name(s@),
        decreases i,
    {
        proof {
            assert(cv.take(i as int).last() == comps@[i - 1]@);
            assert(cv.take(i as int).drop_last() =~= cv.take(i - 1));
        }
        let c = &comps[i - 1];
        if c.as_str().unicode_len() == 0 || str_eq(c.as_str(), ".") {
            i -= 1;
        } else if str_eq(c.as_str(), "..") {
            return None;
        } else {
            return Some(c.clone());
        }
    }
    proof {
        assert(cv.take(0) =~= Seq::<Seq<char>>::empty());
    }
    None
}

/// Appending a relative name to a directory path: a `'/'` is put between
/// the two unless the directory is empty or already ends with one.
pub open spec fn spec_join(dir: Seq<char>, name: Seq<char>) -> Seq<char> {
    if dir.len() == 0 {
        name
    } else if dir.last() == '/' {
        dir + name
    } else {
        dir + seq!['/'] + name
    }
}

/// Join a directory path and a relative name.
pub fn path_join(dir: &str, name: &str) -> (r: String)
    ensures
        r@ == spec_join(dir@, name@),
{
    let n = dir.unicode_len();
    if n == 0 {
        return name.to_owned();
    }
    let mut r = dir.to_owned();
    if dir.get_char(n - 1) != '/' {
        r.append("/");
        proof {
            reveal_strlit("/");
            assert("/"@ =~= seq!['/']);
        }
    }
    r.append(name);
    r
}

/// Splitting on a separator character; the result always has at least one
/// element, and splitting the empty string gives one empty component.
pub open spec fn spec_split(s: Seq<char>, sep: char) -> Seq<Seq<char>>
    decreases s.len(),
{
    if s.len() == 0 {
        seq![Seq::<char>::empty()]
    } else if s.last() == sep {
        spec_split(s.drop_last(), sep).push(Seq::empty())
    } else {
        let r = spec_split(s.drop_last(), sep);
        r.drop_last().push(r.last().push(s.last()))
    }
}

pub proof fn lemma_split_nonempty(s: Seq<char>, sep: char)
    ensures
        spec_split(s, sep).len() >= 1,
    decreases s.len(),
{
    if s.len() > 0 {
        lemma_split_nonempty(s.drop_last(), sep);
    }
}

/// Split `s` on the separator `sep`.
pub fn split_string(s: &str, sep: char) -> (r: Vec<String>)
    ensures
        str_views(r@) == spec_split(s@, sep),
        r@.len() >= 1,
{
    let n = s.unicode_len();
    let mut parts: Vec<String> = Vec::new();
    let mut start: usize = 0;
    let mut i: usize = 0;
    proof {
        assert(spec_split(s@.take(0), sep) =~~= str_views(parts@).push(s@.subrange(0, 0)));
    }
    while i < n
        invariant
            start <= i <= n,
            n == s@.len(),
            spec_split(s@.take(i as int), sep) == str_views(parts@).push(
                s@.subrange(start as int, i as int),
            ),
        decreases n - i,
    {
        proof {
            assert(s@.take(i + 1).drop_last() =~= s@.take(i as int));
        }
        if s.get_char(i) == sep {
            let piece = s.substring_char(start, i);
            parts.push(piece.to_owned());
            proof {
                assert(str_views(parts@) =~= str_views(parts@.drop_last()).push(
                    s@.subrange(start as int, i as int),
                ));
                assert(spec_split(s@.take(i + 1), sep) =~~= str_views(parts@).push(
                    s@.subrange(i + 1, i + 1),
                ));
            }
            start = i + 1;
        } else {
            proof {
                let q = spec_split(s@.take(i as int), sep);
                assert(q.drop_last() =~~= str_views(parts@));
                assert(s@.subrange(start as int, i as int).push(s@[i as int]) =~= s@.subrange(
                    start as int,
                    i + 1,
                ));
                assert(spec_split(s@.take(i + 1), sep) =~~= str_views(parts@).push(
                    s@.subrange(start as int, i + 1),
                ));
            }
        }
        i += 1;
    }
    let piece = s.substring_char(start, n);
    parts.push(piece.to_owned());
    proof {
        assert(s@.take(n as int) =~= s@);
        assert(str_views(parts@) =~~= str_views(parts@.drop_last()).push(
            s@.subrange(start as int, n as int),
        ));
        lemma_split_nonempty(s@, sep);
    }
    parts
}

/// Copy a vector of strings.
pub fn clone_strings(v: &Vec<String>) -> (r: Vec<String>)
    ensures
        r@ == v@,
{
    let mut r: Vec<String> = Vec::new();
    let mut i: usize = 0;
    while i < v.len()
        invariant
            i <= v@.len(),
            r@ == v@.take(i as int),
        decreases v@.len() - i,
    {
        r.push(v[i].clone());
        proof {
            assert(r@ =~= v@.take(i + 1));
        }
        i += 1;
    }
    proof {
        assert(v@.take(v@.len() as int) =~= v@);
    }
    r
}

} // verus!
