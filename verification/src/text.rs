//! Small operations on strings, stated over their characters.

use vstd::prelude::*;
use vstd::string::*;

verus! {

/// Appends one character with `String::push`: afterwards the string holds what
/// it held before, followed by `c`.
#[verifier::external_body]
pub(crate) fn push_char(s: &mut String, c: char)
    ensures
        final(s)@ == old(s)@.push(c),
{
    s.push(c)
}

/// `a` followed by `b`.
pub fn concat2(a: &str, b: &str) -> (r: String)
    ensures
        r@ == a@ + b@,
{
    let mut r = String::from_str(a);
    r.append(b);
    r
}

/// `a`, `b` and `c` in a row.
pub fn concat3(a: &str, b: &str, c: &str) -> (r: String)
    ensures
        r@ == a@ + b@ + c@,
{
    let mut r = String::from_str(a);
    r.append(b);
    r.append(c);
    r
}

/// What joining the path `name` onto the path `base` gives: an absolute `name`
/// replaces `base`; otherwise the two are put together with one separator
/// between them, unless `base` is empty or already ends in one.
pub open spec fn spec_path_join(base: Seq<char>, name: Seq<char>) -> Seq<char> {
    if name.len() > 0 && name[0] == '/' {
        name
    } else if base.len() == 0 || base.last() == '/' {
        base + name
    } else {
        base + seq!['/'] + name
    }
}

/// Joins the path `name` onto the path `base`.
pub fn path_join(base: &str, name: &str) -> (r: String)
    ensures
        r@ == spec_path_join(base@, name@),
{
    let nb = base.unicode_len();
    let nn = name.unicode_len();
    if nn > 0 && name.get_char(0) == '/' {
        String::from_str(name)
    } else if nb == 0 || base.get_char(nb - 1) == '/' {
        concat2(base, name)
    } else {
        let mut r = String::from_str(base);
        push_char(&mut r, '/');
        r.append(name);
        r
    }
}

/// Whether `a` and `b` hold the same characters.
pub fn str_eq(a: &str, b: &str) -> (r: bool)
    ensures
        r == (a@ == b@),
{
    let x = String::from_str(a);
    let y = String::from_str(b);
    x == y
}

/// Index of the first `c` in `s` at or behind `from`; the length of `s` where
/// there is none.
pub open spec fn spec_find_from(s: Seq<char>, c: char, from: int) -> int
    decreases s.len() - from,
{
    if from >= s.len() {
        s.len() as int
    } else if from >= 0 && s[from] == c {
        from
    } else {
        spec_find_from(s, c, from + 1)
    }
}

/// Index of the first `c` in `s`.
pub open spec fn spec_find(s: Seq<char>, c: char) -> Option<int> {
    if spec_find_from(s, c, 0) < s.len() {
        Some(spec_find_from(s, c, 0))
    } else {
        None
    }
}

/// Whether `c` occurs in `s`.
pub open spec fn spec_contains(s: Seq<char>, c: char) -> bool {
    spec_find(s, c) is Some
}

/// Index of the last `c` in the first `end` characters of `s`; `-1` where there
/// is none.
pub open spec fn spec_rfind_before(s: Seq<char>, c: char, end: int) -> int
    decreases end,
{
    if end <= 0 {
        -1
    } else if end <= s.len() && s[end - 1] == c {
        end - 1
    } else {
        spec_rfind_before(s, c, end - 1)
    }
}

/// Index of the last `c` in `s`.
pub open spec fn spec_rfind(s: Seq<char>, c: char) -> Option<int> {
    if spec_rfind_before(s, c, s.len() as int) >= 0 {
        Some(spec_rfind_before(s, c, s.len() as int))
    } else {
        None
    }
}

/// What stands before the first `c` and what stands behind it.
pub open spec fn spec_split_once(s: Seq<char>, c: char) -> Option<(Seq<char>, Seq<char>)> {
    match spec_find(s, c) {
        Some(i) => Some((s.take(i), s.skip(i + 1))),
        None => None,
    }
}

/// What stands before the last `c` and what stands behind it.
pub open spec fn spec_rsplit_once(s: Seq<char>, c: char) -> Option<(Seq<char>, Seq<char>)> {
    match spec_rfind(s, c) {
        Some(i) => Some((s.take(i), s.skip(i + 1))),
        None => None,
    }
}

/// The first `c` in `s` is where the search says, and nowhere before.
pub proof fn lemma_find_from(s: Seq<char>, c: char, from: int)
    requires
        0 <= from <= s.len(),
    ensures
        from <= spec_find_from(s, c, from) <= s.len(),
        spec_find_from(s, c, from) < s.len() ==> s[spec_find_from(s, c, from)] == c,
        forall|j: int| from <= j < spec_find_from(s, c, from) ==> s[j] != c,
    decreases s.len() - from,
{
    if from < s.len() && s[from] != c {
        lemma_find_from(s, c, from + 1);
    }
}

/// The last `c` in `s` is where the search says, and nowhere behind.
pub proof fn lemma_rfind_before(s: Seq<char>, c: char, end: int)
    requires
        0 <= end <= s.len(),
    ensures
        -1 <= spec_rfind_before(s, c, end) < end,
        spec_rfind_before(s, c, end) >= 0 ==> s[spec_rfind_before(s, c, end)] == c,
        forall|j: int| spec_rfind_before(s, c, end) < j < end ==> s[j] != c,
    decreases end,
{
    if end > 0 && s[end - 1] != c {
        lemma_rfind_before(s, c, end - 1);
    }
}

/// Finds the first `c` in `s`.
pub fn find_char(s: &str, c: char) -> (r: Option<usize>)
    ensures
        match spec_find(s@, c) {
            Some(i) => r is Some && r->Some_0 == i,
            None => r is None,
        },
{
    let n = s.unicode_len();
    let mut i: usize = 0;
    while i < n
        invariant
            n == s@.len(),
            i <= n,
            spec_find_from(s@, c, i as int) == spec_find_from(s@, c, 0),
        decreases n - i,
    {
        if s.get_char(i) == c {
            return Some(i);
        }
        i += 1;
    }
    None
}

/// Finds the last `c` in `s`.
pub fn rfind_char(s: &str, c: char) -> (r: Option<usize>)
    ensures
        match spec_rfind(s@, c) {
            Some(i) => r is Some && r->Some_0 == i,
            None => r is None,
        },
{
    let n = s.unicode_len();
    let mut i: usize = n;
    while i > 0
        invariant
            n == s@.len(),
            i <= n,
            spec_rfind_before(s@, c, i as int) == spec_rfind_before(s@, c, n as int),
        decreases i,
    {
        if s.get_char(i - 1) == c {
            return Some(i - 1);
        }
        i -= 1;
    }
    None
}

/// Whether `c` occurs in `s`.
pub fn contains_char(s: &str, c: char) -> (r: bool)
    ensures
        r == spec_contains(s@, c),
{
    find_char(s, c).is_some()
}

/// Splits `s` at its first `c`.
pub fn split_once(s: &str, c: char) -> (r: Option<(&str, &str)>)
    ensures
        match spec_split_once(s@, c) {
            Some((a, b)) => r is Some && r->Some_0.0@ == a && r->Some_0.1@ == b,
            None => r is None,
        },
{
    match find_char(s, c) {
        Some(i) => {
            proof {
                lemma_find_from(s@, c, 0);
            }
            let n = s.unicode_len();
            let a = s.substring_char(0, i);
            let b = s.substring_char(i + 1, n);
            Some((a, b))
        },
        None => None,
    }
}

/// Splits `s` at its last `c`.
pub fn rsplit_once(s: &str, c: char) -> (r: Option<(&str, &str)>)
    ensures
        match spec_rsplit_once(s@, c) {
            Some((a, b)) => r is Some && r->Some_0.0@ == a && r->Some_0.1@ == b,
            None => r is None,
        },
{
    match rfind_char(s, c) {
        Some(i) => {
            proof {
                lemma_rfind_before(s@, c, s@.len() as int);
            }
            let n = s.unicode_len();
            let a = s.substring_char(0, i);
            let b = s.substring_char(i + 1, n);
            Some((a, b))
        },
        None => None,
    }
}

/// Whether `c` is white space: a character with the Unicode property
/// `White_Space`.
pub open spec fn spec_is_whitespace(c: char) -> bool {
    let u = c as u32;
    ||| (0x09 <= u <= 0x0d)
    ||| u == 0x20
    ||| u == 0x85
    ||| u == 0xa0
    ||| u == 0x1680
    ||| (0x2000 <= u <= 0x200a)
    ||| u == 0x2028
    ||| u == 0x2029
    ||| u == 0x202f
    ||| u == 0x205f
    ||| u == 0x3000
}

/// Whether `c` is white space.
pub fn is_whitespace(c: char) -> (r: bool)
    ensures
        r == spec_is_whitespace(c),
{
    let u: u32 = c as u32;
    (0x09 <= u && u <= 0x0d) || u == 0x20 || u == 0x85 || u == 0xa0 || u == 0x1680 || (0x2000 <= u
        && u <= 0x200a) || u == 0x2028 || u == 0x2029 || u == 0x202f || u == 0x205f || u == 0x3000
}

/// Index of the first character of `s` at or behind `from` that is no white
/// space; the length of `s` where all are.
pub open spec fn spec_trim_start_from(s: Seq<char>, from: int) -> int
    decreases s.len() - from,
{
    if from >= s.len() {
        s.len() as int
    } else if from >= 0 && !spec_is_whitespace(s[from]) {
        from
    } else {
        spec_trim_start_from(s, from + 1)
    }
}

/// End of the last character that is no white space among those between
/// `start` and `end`; `start` where all are white space.
pub open spec fn spec_trim_end_before(s: Seq<char>, start: int, end: int) -> int
    decreases end - start,
{
    if end <= start {
        start
    } else if end <= s.len() && end >= 1 && !spec_is_whitespace(s[end - 1]) {
        end
    } else {
        spec_trim_end_before(s, start, end - 1)
    }
}

/// `s` without the white space at its start and at its end.
pub open spec fn spec_trim(s: Seq<char>) -> Seq<char> {
    let start = spec_trim_start_from(s, 0);
    let end = spec_trim_end_before(s, start, s.len() as int);
    s.subrange(start, end)
}

/// Removes the white space at the start and at the end of `s`.
pub fn trim(s: &str) -> (r: &str)
    ensures
        r@ == spec_trim(s@),
{
    let n = s.unicode_len();
    let mut start: usize = 0;
    while start < n && is_whitespace(s.get_char(start))
        invariant
            n == s@.len(),
            start <= n,
            spec_trim_start_from(s@, start as int) == spec_trim_start_from(s@, 0),
        decreases n - start,
    {
        start += 1;
    }
    let mut end: usize = n;
    while end > start && is_whitespace(s.get_char(end - 1))
        invariant
            n == s@.len(),
            start <= end <= n,
            spec_trim_end_before(s@, start as int, end as int) == spec_trim_end_before(
                s@,
                start as int,
                n as int,
            ),
        decreases end,
    {
        end -= 1;
    }
    s.substring_char(start, end)
}

/// `s` with each character replaced by what `spec_swap` makes of it.
pub open spec fn spec_replace_chars(s: Seq<char>, a: char, b: char, with: char) -> Seq<char> {
    Seq::new(
        s.len(),
        |i: int|
            if s[i] == a || s[i] == b {
                with
            } else {
                s[i]
            },
    )
}

/// Replaces every `a` and every `b` in `s` by `with`.
pub fn replace_chars(s: &str, a: char, b: char, with: char) -> (r: String)
    ensures
        r@ == spec_replace_chars(s@, a, b, with),
{
    let n = s.unicode_len();
    let mut out = String::new();
    let mut i: usize = 0;
    while i < n
        invariant
            n == s@.len(),
            i <= n,
            out@ == spec_replace_chars(s@, a, b, with).take(i as int),
        decreases n - i,
    {
        let c = s.get_char(i);
        let d = if c == a || c == b {
            with
        } else {
            c
        };
        push_char(&mut out, d);
        i += 1;
        assert(out@ =~= spec_replace_chars(s@, a, b, with).take(i as int));
    }
    assert(out@ =~= spec_replace_chars(s@, a, b, with));
    out
}

/// Whether `s` begins with `prefix`.
pub open spec fn spec_starts_with(s: Seq<char>, prefix: Seq<char>) -> bool {
    prefix.len() <= s.len() && s.take(prefix.len() as int) == prefix
}

/// Whether `s` ends with `suffix`.
pub open spec fn spec_ends_with(s: Seq<char>, suffix: Seq<char>) -> bool {
    suffix.len() <= s.len() && s.skip(s.len() - suffix.len()) == suffix
}

/// Whether `s` begins with `prefix`.
pub fn starts_with(s: &str, prefix: &str) -> (r: bool)
    ensures
        r == spec_starts_with(s@, prefix@),
{
    let n = s.unicode_len();
    let m = prefix.unicode_len();
    if m > n {
        return false;
    }
    str_eq(s.substring_char(0, m), prefix)
}

/// Whether `s` ends with `suffix`.
pub fn ends_with(s: &str, suffix: &str) -> (r: bool)
    ensures
        r == spec_ends_with(s@, suffix@),
{
    let n = s.unicode_len();
    let m = suffix.unicode_len();
    if m > n {
        return false;
    }
    str_eq(s.substring_char(n - m, n), suffix)
}

/// The strings of a list, as plain data.
pub open spec fn strings_view(v: Seq<String>) -> Seq<Seq<char>> {
    Seq::new(v.len(), |i: int| v[i]@)
}

/// A copy of `v`.
pub fn clone_strings(v: &Vec<String>) -> (r: Vec<String>)
    ensures
        r@ == v@,
{
    let r = v.clone();
    assert(r@ =~= v@);
    r
}

/// The strings of `v` in a list of their own.
pub fn strings_to_vec(v: &[String]) -> (r: Vec<String>)
    ensures
        r@ == v@,
{
    let mut out: Vec<String> = Vec::new();
    let mut i: usize = 0;
    while i < v.len()
        invariant
            i <= v@.len(),
            out@ == v@.take(i as int),
        decreases v@.len() - i,
    {
        out.push(v[i].clone());
        i += 1;
        assert(out@ =~= v@.take(i as int));
    }
    assert(v@.take(v@.len() as int) =~= v@);
    out
}

/// The strings of an optional list, as plain data.
pub open spec fn opt_strings_view(v: Option<Vec<String>>) -> Option<Seq<Seq<char>>> {
    match v {
        Some(list) => Some(strings_view(list@)),
        None => None,
    }
}

/// The characters of an optional string.
pub open spec fn opt_string_view(v: Option<String>) -> Option<Seq<char>> {
    match v {
        Some(s) => Some(s@),
        None => None,
    }
}

/// A copy of `v`.
pub fn clone_opt_strings(v: &Option<Vec<String>>) -> (r: Option<Vec<String>>)
    ensures
        opt_strings_view(r) == opt_strings_view(*v),
{
    match v {
        Some(list) => Some(clone_strings(list)),
        None => None,
    }
}

/// A copy of `v`.
pub fn clone_opt_string(v: &Option<String>) -> (r: Option<String>)
    ensures
        r == *v,
        opt_string_view(r) == opt_string_view(*v),
{
    match v {
        Some(s) => Some(s.clone()),
        None => None,
    }
}

/// The digit `d` as a character.
pub open spec fn spec_digit(d: int) -> char
    recommends
        0 <= d < 16,
{
    if d < 10 {
        (d + 0x30) as char
    } else {
        (d - 10 + 0x61) as char
    }
}

/// `n` in decimal, without leading zeros; `0` has one digit.
pub open spec fn spec_decimal(n: nat) -> Seq<char>
    decreases n,
{
    if n < 10 {
        seq![spec_digit(n as int)]
    } else {
        spec_decimal(n / 10).push(spec_digit((n % 10) as int))
    }
}

/// `n` in lower-case hexadecimal, without leading zeros; `0` has one digit.
pub open spec fn spec_hex(n: nat) -> Seq<char>
    decreases n,
{
    if n < 16 {
        seq![spec_digit(n as int)]
    } else {
        spec_hex(n / 16).push(spec_digit((n % 16) as int))
    }
}

/// `n` in lower-case hexadecimal, with zeros in front up to `width` digits.
pub open spec fn spec_hex_padded(n: nat, width: nat) -> Seq<char> {
    let digits = spec_hex(n);
    if digits.len() >= width {
        digits
    } else {
        Seq::new((width - digits.len()) as nat, |i: int| '0') + digits
    }
}

fn digit_char(d: u8) -> (c: char)
    requires
        d < 16,
    ensures
        c == spec_digit(d as int),
{
    if d < 10 {
        (d + 0x30) as char
    } else {
        (d - 10 + 0x61) as char
    }
}

fn decimal_digits(n: u64) -> (r: Vec<char>)
    ensures
        r@ == spec_decimal(n as nat),
    decreases n,
{
    if n < 10 {
        let mut v: Vec<char> = Vec::new();
        v.push(digit_char(n as u8));
        v
    } else {
        let mut v = decimal_digits(n / 10);
        v.push(digit_char((n % 10) as u8));
        v
    }
}

fn hex_digits(n: u64) -> (r: Vec<char>)
    ensures
        r@ == spec_hex(n as nat),
    decreases n,
{
    if n < 16 {
        let mut v: Vec<char> = Vec::new();
        v.push(digit_char(n as u8));
        v
    } else {
        let mut v = hex_digits(n / 16);
        v.push(digit_char((n % 16) as u8));
        v
    }
}

/// The characters of `v` as a string.
pub fn chars_to_string(v: &Vec<char>) -> (r: String)
    ensures
        r@ == v@,
{
    let mut out = String::new();
    let mut i: usize = 0;
    while i < v.len()
        invariant
            i <= v@.len(),
            out@ == v@.take(i as int),
        decreases v@.len() - i,
    {
        push_char(&mut out, v[i]);
        i += 1;
        assert(out@ =~= v@.take(i as int));
    }
    assert(v@.take(v@.len() as int) =~= v@);
    out
}

/// Writes `n` in decimal.
pub fn decimal(n: u64) -> (r: String)
    ensures
        r@ == spec_decimal(n as nat),
{
    let digits = decimal_digits(n);
    chars_to_string(&digits)
}

/// Writes `n` in lower-case hexadecimal, with zeros in front up to `width`
/// digits.
pub fn hex_padded(n: u64, width: usize) -> (r: String)
    ensures
        r@ == spec_hex_padded(n as nat, width as nat),
{
    let digits = hex_digits(n);
    let mut out = String::new();
    if digits.len() < width {
        let pad = width - digits.len();
        let mut i: usize = 0;
        while i < pad
            invariant
                i <= pad,
                out@ == Seq::new(i as nat, |k: int| '0'),
            decreases pad - i,
        {
            push_char(&mut out, '0');
            i += 1;
            assert(out@ =~= Seq::new(i as nat, |k: int| '0'));
        }
    }
    let tail = chars_to_string(&digits);
    out.append(tail.as_str());
    assert(out@ =~= spec_hex_padded(n as nat, width as nat));
    out
}

/// `c` in lower case, if it is an ASCII capital; `c` itself otherwise.
pub open spec fn spec_ascii_lower(c: char) -> char {
    if 'A' <= c <= 'Z' {
        ((c as u32) + 32) as char
    } else {
        c
    }
}

/// `c` in upper case, if it is an ASCII small letter; `c` itself otherwise.
pub open spec fn spec_ascii_upper(c: char) -> char {
    if 'a' <= c <= 'z' {
        ((c as u32) - 32) as char
    } else {
        c
    }
}

/// `s` with its ASCII capitals in lower case.
pub open spec fn spec_to_ascii_lowercase(s: Seq<char>) -> Seq<char> {
    Seq::new(s.len(), |i: int| spec_ascii_lower(s[i]))
}

/// `s` with its ASCII small letters in upper case.
pub open spec fn spec_to_ascii_uppercase(s: Seq<char>) -> Seq<char> {
    Seq::new(s.len(), |i: int| spec_ascii_upper(s[i]))
}

/// Puts the ASCII capitals of `s` into lower case.
pub fn to_ascii_lowercase(s: &str) -> (r: String)
    ensures
        r@ == spec_to_ascii_lowercase(s@),
{
    let n = s.unicode_len();
    let mut out = String::new();
    let mut i: usize = 0;
    while i < n
        invariant
            n == s@.len(),
            i <= n,
            out@ == spec_to_ascii_lowercase(s@).take(i as int),
        decreases n - i,
    {
        let c = s.get_char(i);
        let u: u32 = c as u32;
        let d = if 0x41 <= u && u <= 0x5a {
            (u + 32) as u8 as char
        } else {
            c
        };
        push_char(&mut out, d);
        i += 1;
        assert(out@ =~= spec_to_ascii_lowercase(s@).take(i as int));
    }
    assert(out@ =~= spec_to_ascii_lowercase(s@));
    out
}

/// Puts the ASCII small letters of `s` into upper case.
pub fn to_ascii_uppercase(s: &str) -> (r: String)
    ensures
        r@ == spec_to_ascii_uppercase(s@),
{
    let n = s.unicode_len();
    let mut out = String::new();
    let mut i: usize = 0;
    while i < n
        invariant
            n == s@.len(),
            i <= n,
            out@ == spec_to_ascii_uppercase(s@).take(i as int),
        decreases n - i,
    {
        let c = s.get_char(i);
        let u: u32 = c as u32;
        let d = if 0x61 <= u && u <= 0x7a {
            (u - 32) as u8 as char
        } else {
            c
        };
        push_char(&mut out, d);
        i += 1;
        assert(out@ =~= spec_to_ascii_uppercase(s@).take(i as int));
    }
    assert(out@ =~= spec_to_ascii_uppercase(s@));
    out
}

/// The bytes in lower-case hexadecimal, two digits each.
pub open spec fn spec_hex_bytes(data: Seq<u8>) -> Seq<char>
    decreases data.len(),
{
    if data.len() == 0 {
        Seq::empty()
    } else {
        spec_hex_bytes(data.drop_last()).push(spec_digit((data.last() / 16) as int)).push(
            spec_digit((data.last() % 16) as int),
        )
    }
}

/// Writes the bytes in lower-case hexadecimal, two digits each.
pub fn hex_bytes(data: &[u8]) -> (r: String)
    ensures
        r@ == spec_hex_bytes(data@),
{
    let mut out = String::new();
    let mut i: usize = 0;
    assert(data@.take(0) =~= Seq::<u8>::empty());
    while i < data.len()
        invariant
            i <= data@.len(),
            out@ == spec_hex_bytes(data@.take(i as int)),
        decreases data@.len() - i,
    {
        let b = data[i];
        assert(data@.take(i + 1).drop_last() =~= data@.take(i as int));
        push_char(&mut out, digit_char(b / 16));
        push_char(&mut out, digit_char(b % 16));
        i += 1;
    }
    assert(data@.take(data@.len() as int) =~= data@);
    out
}

/// Index of the string `s` in `list` at or behind `from`; the length of the
/// list where it is not in it.
pub open spec fn spec_find_str(list: Seq<Seq<char>>, s: Seq<char>, from: int) -> int
    decreases list.len() - from,
{
    if from >= list.len() {
        list.len() as int
    } else if from >= 0 && list[from] == s {
        from
    } else {
        spec_find_str(list, s, from + 1)
    }
}

/// Whether the string `s` is in `list`.
pub open spec fn spec_in_list(list: Seq<Seq<char>>, s: Seq<char>) -> bool {
    spec_find_str(list, s, 0) < list.len()
}

/// The search for a string ends at that string, and passes none like it.
pub proof fn lemma_find_str(list: Seq<Seq<char>>, s: Seq<char>, from: int)
    requires
        0 <= from <= list.len(),
    ensures
        from <= spec_find_str(list, s, from) <= list.len(),
        spec_find_str(list, s, from) < list.len() ==> list[spec_find_str(list, s, from)] == s,
        forall|k: int| from <= k < spec_find_str(list, s, from) ==> #[trigger] list[k] != s,
    decreases list.len() - from,
{
    if from < list.len() && list[from] != s {
        lemma_find_str(list, s, from + 1);
    }
}

/// Whether the string `s` is in `list`.
pub fn in_list(list: &[String], s: &str) -> (r: bool)
    ensures
        r == spec_in_list(strings_view(list@), s@),
{
    let ghost views = strings_view(list@);
    let mut i: usize = 0;
    while i < list.len()
        invariant
            i <= list@.len(),
            views == strings_view(list@),
            spec_find_str(views, s@, i as int) == spec_find_str(views, s@, 0),
        decreases list@.len() - i,
    {
        if str_eq(list[i].as_str(), s) {
            return true;
        }
        i += 1;
    }
    false
}

/// The strings of `list` without those that occurred before.
pub open spec fn spec_dedup(list: Seq<Seq<char>>) -> Seq<Seq<char>>
    decreases list.len(),
{
    if list.len() == 0 {
        Seq::empty()
    } else {
        let before = spec_dedup(list.drop_last());
        if spec_in_list(before, list.last()) {
            before
        } else {
            before.push(list.last())
        }
    }
}

/// Copies `list` without the strings that occurred before.
pub fn dedup(list: &[String]) -> (r: Vec<String>)
    ensures
        strings_view(r@) == spec_dedup(strings_view(list@)),
{
    let ghost views = strings_view(list@);
    let mut out: Vec<String> = Vec::new();
    let mut i: usize = 0;
    assert(views.take(0) =~= Seq::<Seq<char>>::empty());
    assert(strings_view(out@) =~= Seq::<Seq<char>>::empty());
    while i < list.len()
        invariant
            i <= list@.len(),
            views == strings_view(list@),
            strings_view(out@) == spec_dedup(views.take(i as int)),
        decreases list@.len() - i,
    {
        assert(views.take(i + 1).drop_last() =~= views.take(i as int));
        assert(views.take(i + 1).last() == list@[i as int]@);
        if !in_list(out.as_slice(), list[i].as_str()) {
            let ghost before = strings_view(out@);
            out.push(list[i].clone());
            assert(strings_view(out@) =~= before.push(list@[i as int]@));
        }
        i += 1;
    }
    assert(views.take(views.len() as int) =~= views);
    out
}

/// `n` in decimal, with a minus sign where it is negative.
pub open spec fn spec_decimal_signed(n: int) -> Seq<char> {
    if n < 0 {
        seq!['-'] + spec_decimal((-n) as nat)
    } else {
        spec_decimal(n as nat)
    }
}

/// Writes `n` in decimal, with a minus sign where it is negative.
pub fn decimal_signed(n: i64) -> (r: String)
    ensures
        r@ == spec_decimal_signed(n as int),
{
    if n < 0 {
        let magnitude: u64 = if n == i64::MIN {
            0x8000_0000_0000_0000u64
        } else {
            (-n) as u64
        };
        let digits = decimal(magnitude);
        let mut out = String::new();
        push_char(&mut out, '-');
        out.append(digits.as_str());
        assert(out@ =~= spec_decimal_signed(n as int));
        out
    } else {
        decimal(n as u64)
    }
}

/// Whether `c` is a decimal digit.
pub open spec fn spec_is_digit(c: char) -> bool {
    '0' <= c <= '9'
}

/// Whether `s` is made of decimal digits alone.
pub open spec fn spec_all_digits(s: Seq<char>) -> bool {
    forall|i: int| 0 <= i < s.len() ==> spec_is_digit(#[trigger] s[i])
}

/// The number that the decimal digits `s` spell.
pub open spec fn spec_digits_value(s: Seq<char>) -> nat
    decreases s.len(),
{
    if s.len() == 0 {
        0
    } else {
        (spec_digits_value(s.drop_last()) * 10 + (s.last() as u32 - 0x30)) as nat
    }
}

/// The number that `s` spells, if it is at least one decimal digit, with or
/// without a plus sign before it, and not above `max`.
pub open spec fn spec_parse_unsigned(s: Seq<char>, max: nat) -> Option<nat> {
    let body = if s.len() > 0 && s[0] == '+' {
        s.skip(1)
    } else {
        s
    };
    if body.len() == 0 || !spec_all_digits(body) || spec_digits_value(body) > max {
        None
    } else {
        Some(spec_digits_value(body))
    }
}

/// The number that `s` spells, if it is at least one decimal digit, with or
/// without a sign before it, and between `min` and `max`.
pub open spec fn spec_parse_signed(s: Seq<char>, min: int, max: int) -> Option<int> {
    let negative = s.len() > 0 && s[0] == '-';
    let body = if s.len() > 0 && (s[0] == '+' || s[0] == '-') {
        s.skip(1)
    } else {
        s
    };
    if body.len() == 0 || !spec_all_digits(body) {
        None
    } else if negative {
        if -(spec_digits_value(body) as int) < min {
            None
        } else {
            Some(-(spec_digits_value(body) as int))
        }
    } else if spec_digits_value(body) > max {
        None
    } else {
        Some(spec_digits_value(body) as int)
    }
}

/// Digits that follow can only make a number larger.
pub proof fn lemma_digits_value_grows(s: Seq<char>, i: int)
    requires
        0 <= i <= s.len(),
        spec_all_digits(s),
    ensures
        spec_digits_value(s.take(i)) <= spec_digits_value(s),
    decreases s.len() - i,
{
    if i < s.len() {
        assert(s.take(i + 1).drop_last() =~= s.take(i));
        assert(spec_is_digit(s[i]));
        assert(s.take(i + 1).last() == s[i]);
        lemma_digits_value_grows(s, i + 1);
    } else {
        assert(s.take(i) =~= s);
    }
}

#[verifier::rlimit(40)]
fn parse_digits(s: &str, from: usize, max: u64) -> (r: Option<u64>)
    requires
        from <= s@.len(),
    ensures
        ({
            let body = s@.skip(from as int);
            if body.len() == 0 || !spec_all_digits(body) || spec_digits_value(body) > max {
                r is None
            } else {
                r is Some && r->Some_0 == spec_digits_value(body)
            }
        }),
{
    let n = s.unicode_len();
    if from >= n {
        return None;
    }
    let ghost body = s@.skip(from as int);
    let mut acc: u64 = 0;
    let mut i: usize = from;
    assert(body.take(0) =~= Seq::<char>::empty());
    while i < n
        invariant
            n == s@.len(),
            from <= i <= n,
            body == s@.skip(from as int),
            spec_all_digits(body.take(i - from)),
            acc == spec_digits_value(body.take(i - from)),
            acc <= max,
        decreases n - i,
    {
        let c = s.get_char(i);
        let u: u32 = c as u32;
        assert(body[i - from] == c);
        if u < 0x30 || u > 0x39 {
            assert(!spec_is_digit(body[i - from]));
            return None;
        }
        let d: u64 = (u - 0x30) as u64;
        proof {
            assert(body.take(i - from + 1).drop_last() =~= body.take(i - from));
            assert(body.take(i - from + 1).last() == c);
            assert(spec_all_digits(body.take(i - from + 1))) by {
                assert forall|k: int| 0 <= k < i - from + 1 implies spec_is_digit(
                    #[trigger] body.take(i - from + 1)[k],
                ) by {
                    if k < i - from {
                        assert(body.take(i - from + 1)[k] == body.take(i - from)[k]);
                    }
                }
            }
        }
        if d > max || acc > (max - d) / 10 {
            proof {
                // The digits read so far spell more than `max`, and so does
                // every continuation, digits or not.
                if spec_all_digits(body) {
                    lemma_digits_value_grows(body, i - from + 1);
                }
            }
            return None;
        }
        acc = acc * 10 + d;
        i += 1;
    }
    assert(body.take(n - from) =~= body);
    Some(acc)
}

/// Reads a number of at most `max`: decimal digits, with or without a plus
/// sign before them.
pub fn parse_unsigned(s: &str, max: u64) -> (r: Option<u64>)
    ensures
        match spec_parse_unsigned(s@, max as nat) {
            Some(v) => r is Some && r->Some_0 == v,
            None => r is None,
        },
{
    let n = s.unicode_len();
    let from: usize = if n > 0 && s.get_char(0) == '+' {
        1
    } else {
        0
    };
    assert(s@.skip(0) =~= s@);
    parse_digits(s, from, max)
}

/// Reads a 32-bit number: decimal digits, with or without a sign before
/// them.
pub fn parse_i32(s: &str) -> (r: Option<i32>)
    ensures
        match spec_parse_signed(s@, i32::MIN as int, i32::MAX as int) {
            Some(v) => r is Some && r->Some_0 == v,
            None => r is None,
        },
{
    let n = s.unicode_len();
    assert(s@.skip(0) =~= s@);
    if n > 0 && s.get_char(0) == '-' {
        match parse_digits(s, 1, 0x8000_0000) {
            Some(v) => {
                if v == 0x8000_0000 {
                    Some(i32::MIN)
                } else {
                    Some(-(v as i32))
                }
            },
            None => None,
        }
    } else {
        let from: usize = if n > 0 && s.get_char(0) == '+' {
            1
        } else {
            0
        };
        match parse_digits(s, from, 0x7fff_ffff) {
            Some(v) => Some(v as i32),
            None => None,
        }
    }
}

} // verus!
