//! Character-level text helpers: conversions between strings and character
//! vectors, ASCII case folding, and decimal/hexadecimal number text.
use vstd::prelude::*;

verus! {

/// Copies the characters of a string slice into a vector.
pub fn chars_of(s: &str) -> (v: Vec<char>)
    ensures
        v@ == s@,
{
    let mut v: Vec<char> = Vec::new();
    for c in it: s.chars()
        invariant
            v@ == it.seq().take(it.index() as int),
    {
        v.push(c);
    }
    v
}


/// Builds a `String` from a slice of characters.
///
/// Trusted: `FromIterator<&char>` for `String` (std) appends the characters
/// in order, so the string's characters are exactly the slice's.
#[verifier::external_body]
pub(crate) fn string_of(v: &[char]) -> (s: String)
    ensures
        s@ == v@,
{
    v.iter().collect()
}

/// Whether two character vectors hold the same characters.
pub fn chars_eq(a: &[char], b: &[char]) -> (r: bool)
    ensures
        r == (a@ == b@),
{
    if a.len() != b.len() {
        return false;
    }
    let mut i: usize = 0;
    while i < a.len()
        invariant
            a.len() == b.len(),
            i <= a.len(),
            forall|j: int| 0 <= j < i ==> a@[j] == b@[j],
        decreases a.len() - i,
    {
        if a[i] != b[i] {
            return false;
        }
        i = i + 1;
    }
    assert(a@ =~= b@);
    true
}

/// Whether two string slices hold the same characters.
pub fn str_eq(a: &str, b: &str) -> (r: bool)
    ensures
        r == (a@ == b@),
{
    let va = chars_of(a);
    let vb = chars_of(b);
    chars_eq(va.as_slice(), vb.as_slice())
}

/// Copies a string slice into a fresh `String`.
pub fn owned(s: &str) -> (r: String)
    ensures
        r@ == s@,
{
    let v = chars_of(s);
    string_of(v.as_slice())
}

/// Concatenation of two string slices.
pub fn concat2(a: &str, b: &str) -> (r: String)
    ensures
        r@ == a@ + b@,
{
    let mut v = chars_of(a);
    let mut w = chars_of(b);
    v.append(&mut w);
    string_of(v.as_slice())
}

/// ASCII upper-case letters fold to lower case; every other character is kept.
pub open spec fn fold(c: char) -> char {
    if 'A' <= c && c <= 'Z' {
        ((c as u32) + 32) as char
    } else {
        c
    }
}

/// Executable ASCII lower-case folding of one character.
pub fn fold_char(c: char) -> (r: char)
    ensures
        r == fold(c),
{
    if 'A' <= c && c <= 'Z' {
        let b: u8 = (c as u8) + 32;
        b as char
    } else {
        c
    }
}

/// Two character sequences are equal up to ASCII case.
pub open spec fn eq_ci(a: Seq<char>, b: Seq<char>) -> bool {
    &&& a.len() == b.len()
    &&& forall|j: int| 0 <= j < a.len() ==> fold(#[trigger] a[j]) == fold(b[j])
}

/// `needle` occurs in `haystack` at position `i`, up to ASCII case.
pub open spec fn occurs_ci_at(haystack: Seq<char>, needle: Seq<char>, i: int) -> bool {
    &&& 0 <= i
    &&& i + needle.len() <= haystack.len()
    &&& forall|j: int| 0 <= j < needle.len() ==> fold(#[trigger] haystack[i + j]) == fold(needle[j])
}

/// `needle` is a substring of `haystack` up to ASCII case (the empty needle
/// occurs everywhere).
pub open spec fn contains_ci_spec(haystack: Seq<char>, needle: Seq<char>) -> bool {
    exists|i: int| occurs_ci_at(haystack, needle, i)
}

/// Whether `needle` occurs in `haystack` at position `i`, up to ASCII case.
fn occurs_at(haystack: &[char], needle: &[char], i: usize) -> (r: bool)
    requires
        i + needle.len() <= haystack.len(),
    ensures
        r == occurs_ci_at(haystack@, needle@, i as int),
{
    let mut j: usize = 0;
    while j < needle.len()
        invariant
            i + needle.len() <= haystack.len(),
            j <= needle.len(),
            forall|k: int| 0 <= k < j ==> fold(#[trigger] haystack@[i + k]) == fold(needle@[k]),
        decreases needle.len() - j,
    {
        if fold_char(haystack[i + j]) != fold_char(needle[j]) {
            return false;
        }
        j = j + 1;
    }
    true
}

/// Character-vector form of [`contains_ci`].
pub fn chars_contain_ci(haystack: &[char], needle: &[char]) -> (r: bool)
    ensures
        r == contains_ci_spec(haystack@, needle@),
{
    if needle.len() == 0 {
        assert(occurs_ci_at(haystack@, needle@, 0));
        return true;
    }
    if needle.len() > haystack.len() {
        return false;
    }
    let last = haystack.len() - needle.len();
    let mut i: usize = 0;
    while i <= last
        invariant
            last + needle.len() == haystack.len(),
            i <= last + 1,
            forall|k: int| 0 <= k < i ==> !occurs_ci_at(haystack@, needle@, k),
        decreases last + 1 - i,
    {
        if occurs_at(haystack, needle, i) {
            return true;
        }
        i = i + 1;
    }
    assert forall|k: int| !occurs_ci_at(haystack@, needle@, k) by {
        if 0 <= k && k + needle@.len() <= haystack@.len() {
            assert(k < i);
        }
    }
    false
}

/// Case-insensitive (ASCII) substring test; an empty needle always matches.
pub fn contains_ci(haystack: &str, needle: &str) -> (r: bool)
    ensures
        r == contains_ci_spec(haystack@, needle@),
{
    let h = chars_of(haystack);
    let n = chars_of(needle);
    chars_contain_ci(h.as_slice(), n.as_slice())
}

/// `needle` occurs in `haystack` at position `i`.
pub open spec fn occurs_exact_at(haystack: Seq<char>, needle: Seq<char>, i: int) -> bool {
    &&& 0 <= i
    &&& i + needle.len() <= haystack.len()
    &&& haystack.subrange(i, i + needle.len()) == needle
}

/// `needle` is a substring of `haystack` (the empty needle occurs everywhere).
pub open spec fn contains_spec(haystack: Seq<char>, needle: Seq<char>) -> bool {
    exists|i: int| occurs_exact_at(haystack, needle, i)
}

/// Whether `needle` occurs in `haystack` at position `i`.
fn occurs_exact(haystack: &[char], needle: &[char], i: usize) -> (r: bool)
    requires
        i + needle.len() <= haystack.len(),
    ensures
        r == occurs_exact_at(haystack@, needle@, i as int),
{
    let mut j: usize = 0;
    while j < needle.len()
        invariant
            i + needle.len() <= haystack.len(),
            j <= needle.len(),
            forall|k: int| 0 <= k < j ==> #[trigger] haystack@[i + k] == needle@[k],
        decreases needle.len() - j,
    {
        if haystack[i + j] != needle[j] {
            assert(haystack@.subrange(i as int, i + needle.len())[j as int] != needle@[j as int]);
            return false;
        }
        j = j + 1;
    }
    assert forall|k: int| 0 <= k < needle.len() implies haystack@.subrange(i as int, i + needle.len())[k] == needle@[k] by {
        assert(haystack@[i + k] == needle@[k]);
    }
    assert(haystack@.subrange(i as int, i + needle.len()) =~= needle@);
    true
}

/// Substring test, exact in every character; an empty needle always matches.
pub fn contains(haystack: &str, needle: &str) -> (r: bool)
    ensures
        r == contains_spec(haystack@, needle@),
{
    let h = chars_of(haystack);
    let n = chars_of(needle);
    if n.len() == 0 {
        assert(haystack@.subrange(0, 0) =~= needle@);
        assert(occurs_exact_at(haystack@, needle@, 0));
        return true;
    }
    if n.len() > h.len() {
        return false;
    }
    let last = h.len() - n.len();
    let mut i: usize = 0;
    while i <= last
        invariant
            h@ == haystack@,
            n@ == needle@,
            n.len() > 0,
            last + n.len() == h.len(),
            i <= last + 1,
            forall|k: int| 0 <= k < i ==> !occurs_exact_at(haystack@, needle@, k),
        decreases last + 1 - i,
    {
        if occurs_exact(h.as_slice(), n.as_slice(), i) {
            return true;
        }
        i = i + 1;
    }
    assert forall|k: int| !occurs_exact_at(haystack@, needle@, k) by {
        if 0 <= k && k + needle@.len() <= haystack@.len() {
            assert(k < i);
        }
    }
    false
}

/// What `str::to_lowercase` gives for a text: its Unicode lower-case mapping.
pub uninterp spec fn lowercase(s: Seq<char>) -> Seq<char>;

/// The lower-case form of a text.
///
/// Trusted: `str::to_lowercase` (std), whose result depends on the text
/// alone; it is named [`lowercase`] and not stated further.
#[verifier::external_body]
pub(crate) fn to_lowercase(s: &str) -> (r: String)
    ensures
        r@ == lowercase(s@),
{
    s.to_lowercase()
}

/// Equality of two strings up to ASCII case.
pub fn eq_ignore_ascii_case(a: &str, b: &str) -> (r: bool)
    ensures
        r == eq_ci(a@, b@),
{
    let va = chars_of(a);
    let vb = chars_of(b);
    if va.len() != vb.len() {
        return false;
    }
    let mut i: usize = 0;
    while i < va.len()
        invariant
            va@ == a@,
            vb@ == b@,
            va.len() == vb.len(),
            i <= va.len(),
            forall|j: int| 0 <= j < i ==> fold(#[trigger] va@[j]) == fold(vb@[j]),
        decreases va.len() - i,
    {
        if fold_char(va[i]) != fold_char(vb[i]) {
            return false;
        }
        i = i + 1;
    }
    true
}


/// The character of a digit value below 16 (lower-case letters past 9).
pub open spec fn digit_char(d: nat) -> char {
    if d < 10 {
        (('0' as u32) + d) as char
    } else {
        (('a' as u32) + (d - 10)) as char
    }
}

/// Decimal text of a natural number, without leading zeros.
pub open spec fn decimal(n: nat) -> Seq<char>
    decreases n,
{
    if n < 10 {
        seq![digit_char(n)]
    } else {
        decimal(n / 10).push(digit_char(n % 10))
    }
}

/// Lower-case hexadecimal text of a natural number, without leading zeros.
pub open spec fn hex(n: nat) -> Seq<char>
    decreases n,
{
    if n < 16 {
        seq![digit_char(n)]
    } else {
        hex(n / 16).push(digit_char(n % 16))
    }
}

fn digit_to_char(d: u64) -> (c: char)
    requires
        d < 16,
    ensures
        c == digit_char(d as nat),
{
    if d < 10 {
        let b: u8 = 48u8 + (d as u8);
        b as char
    } else {
        let b: u8 = 97u8 + ((d - 10) as u8);
        b as char
    }
}

fn push_radix_digits(n: u64, radix: u64, out: &mut Vec<char>)
    requires
        radix == 10 || radix == 16,
    ensures
        final(out)@ == old(out)@ + (if radix == 10 { decimal(n as nat) } else { hex(n as nat) }),
    decreases n,
{
    if n >= radix {
        push_radix_digits(n / radix, radix, out);
    }
    out.push(digit_to_char(n % radix));
    proof {
        if radix == 10 {
            assert(decimal(n as nat) == if n < 10 {
                seq![digit_char(n as nat)]
            } else {
                decimal((n / 10) as nat).push(digit_char((n % 10) as nat))
            });
        } else {
            assert(hex(n as nat) == if n < 16 {
                seq![digit_char(n as nat)]
            } else {
                hex((n / 16) as nat).push(digit_char((n % 16) as nat))
            });
        }
    }
}

/// Decimal text of an unsigned integer, as `Display` writes it.
pub fn u64_to_decimal(n: u64) -> (s: String)
    ensures
        s@ == decimal(n as nat),
{
    let mut v: Vec<char> = Vec::new();
    push_radix_digits(n, 10, &mut v);
    assert(v@ =~= decimal(n as nat));
    string_of(v.as_slice())
}

/// Lower-case hexadecimal text of an unsigned integer, as `{:x}` writes it.
pub fn u64_to_hex(n: u64) -> (s: String)
    ensures
        s@ == hex(n as nat),
{
    let mut v: Vec<char> = Vec::new();
    push_radix_digits(n, 16, &mut v);
    assert(v@ =~= hex(n as nat));
    string_of(v.as_slice())
}

/// Lower-case ASCII letters map to upper case; every other character is kept.
pub open spec fn upper(c: char) -> char {
    if 'a' <= c && c <= 'z' {
        ((c as u32) - 32) as char
    } else {
        c
    }
}

/// Upper-case hexadecimal text of a natural number, without leading zeros.
pub open spec fn upper_hex(n: nat) -> Seq<char> {
    hex(n).map_values(|c: char| upper(c))
}

/// Upper-case hexadecimal text of a number.
pub fn u64_to_upper_hex(n: u64) -> (s: String)
    ensures
        s@ == upper_hex(n as nat),
{
    let lower = u64_to_hex(n);
    let v = chars_of(lower.as_str());
    let mut out: Vec<char> = Vec::new();
    let mut i: usize = 0;
    while i < v.len()
        invariant
            i <= v.len(),
            v@ == hex(n as nat),
            out@ == v@.take(i as int).map_values(|c: char| upper(c)),
        decreases v.len() - i,
    {
        let c = v[i];
        let u = if 'a' <= c && c <= 'z' {
            let b: u8 = (c as u8) - 32;
            b as char
        } else {
            c
        };
        out.push(u);
        assert(v@.take(i + 1).map_values(|c: char| upper(c)) =~= v@.take(i as int).map_values(|c: char| upper(c)).push(upper(c)));
        i = i + 1;
    }
    assert(v@.take(v@.len() as int) =~= v@);
    string_of(out.as_slice())
}

/// The texts joined with the separator between each two.
pub open spec fn joined(items: Seq<Seq<char>>, sep: Seq<char>) -> Seq<char>
    decreases items.len(),
{
    if items.len() == 0 {
        Seq::empty()
    } else if items.len() == 1 {
        items[0]
    } else {
        joined(items.drop_last(), sep) + sep + items.last()
    }
}

/// Joins strings with a separator, as `join` on a slice of strings does.
pub fn join(items: &Vec<String>, sep: &str) -> (r: String)
    ensures
        r@ == joined(items@.map_values(|s: String| s@), sep@),
{
    let ghost views = items@.map_values(|s: String| s@);
    if items.len() == 0 {
        return String::new();
    }
    let mut acc: Vec<char> = chars_of(items[0].as_str());
    assert(views.take(1).drop_last() =~= Seq::<Seq<char>>::empty());
    let sepc = chars_of(sep);
    let mut i: usize = 1;
    while i < items.len()
        invariant
            1 <= i <= items.len(),
            views == items@.map_values(|s: String| s@),
            sepc@ == sep@,
            acc@ == joined(views.take(i as int), sep@),
        decreases items.len() - i,
    {
        let mut s1 = sepc.clone();
        let mut item = chars_of(items[i].as_str());
        acc.append(&mut s1);
        acc.append(&mut item);
        assert(views.take(i + 1).drop_last() =~= views.take(i as int));
        assert(views.take(i + 1).last() == views[i as int]);
        i = i + 1;
    }
    assert(views.take(items.len() as int) =~= views);
    string_of(acc.as_slice())
}

/// The value of a digit character in the given radix (10 or 16), if it is one.
pub open spec fn digit_value(c: char, radix: nat) -> Option<nat> {
    if '0' <= c && c <= '9' {
        Some((c as u32 - '0' as u32) as nat)
    } else if radix == 16 && 'a' <= c && c <= 'f' {
        Some((c as u32 - 'a' as u32 + 10) as nat)
    } else if radix == 16 && 'A' <= c && c <= 'F' {
        Some((c as u32 - 'A' as u32 + 10) as nat)
    } else {
        None
    }
}

/// Every character of `s` is a digit in the radix.
pub open spec fn all_digits(s: Seq<char>, radix: nat) -> bool {
    forall|i: int| 0 <= i < s.len() ==> (#[trigger] digit_value(s[i], radix)) is Some
}

/// The value of a string of digits, most significant first.
pub open spec fn digits_value(s: Seq<char>, radix: nat) -> nat
    decreases s.len(),
{
    if s.len() == 0 {
        0
    } else {
        digits_value(s.drop_last(), radix) * radix + digit_value(s.last(), radix).unwrap_or(0)
    }
}

/// The digits that `from_str_radix` reads: one leading `+` is dropped when
/// something follows it.
pub open spec fn unsigned_digits(s: Seq<char>) -> Seq<char> {
    if s.len() > 1 && s[0] == '+' {
        s.drop_first()
    } else {
        s
    }
}

/// The number that `from_str_radix` reads for an unsigned type, before the
/// range check: `None` for empty text or a character that is not a digit.
pub open spec fn parse_unsigned(s: Seq<char>, radix: nat) -> Option<nat> {
    let d = unsigned_digits(s);
    if d.len() == 0 || !all_digits(d, radix) {
        None
    } else {
        Some(digits_value(d, radix))
    }
}

/// A value that fits under `max` read from text; `None` on overflow.
pub open spec fn parse_bounded(s: Seq<char>, radix: nat, max: nat) -> Option<nat> {
    match parse_unsigned(s, radix) {
        Some(v) => if v <= max { Some(v) } else { None },
        None => None,
    }
}

fn char_digit(c: char, radix: u64) -> (r: Option<u64>)
    requires
        radix == 10 || radix == 16,
    ensures
        r matches Some(d) ==> digit_value(c, radix as nat) == Some(d as nat) && d < radix,
        r is None ==> digit_value(c, radix as nat) is None,
{
    if '0' <= c && c <= '9' {
        Some((c as u32 - '0' as u32) as u64)
    } else if radix == 16 && 'a' <= c && c <= 'f' {
        Some((c as u32 - 'a' as u32 + 10) as u64)
    } else if radix == 16 && 'A' <= c && c <= 'F' {
        Some((c as u32 - 'A' as u32 + 10) as u64)
    } else {
        None
    }
}

proof fn lemma_digits_value_take(s: Seq<char>, radix: nat, i: int)
    requires
        0 <= i < s.len(),
    ensures
        digits_value(s.take(i + 1), radix) == digits_value(s.take(i), radix) * radix
            + digit_value(s[i], radix).unwrap_or(0),
{
    assert(s.take(i + 1).drop_last() =~= s.take(i));
}

proof fn lemma_digits_value_monotone(s: Seq<char>, radix: nat, i: int)
    requires
        0 <= i <= s.len(),
        radix >= 1,
    ensures
        digits_value(s.take(i), radix) <= digits_value(s, radix),
    decreases s.len() - i,
{
    if i < s.len() {
        lemma_digits_value_take(s, radix, i);
        let a = digits_value(s.take(i), radix);
        assert(a * radix >= a) by (nonlinear_arith)
            requires
                radix >= 1,
        ;
        lemma_digits_value_monotone(s, radix, i + 1);
    } else {
        assert(s.take(i) =~= s);
    }
}

/// Reads an unsigned number in radix 10 or 16 with the rules of
/// `from_str_radix`: an optional leading `+`, at least one digit, and a value
/// no larger than `max`.
pub fn parse_radix(s: &[char], radix: u64, max: u64) -> (r: Option<u64>)
    requires
        radix == 10 || radix == 16,
    ensures
        r matches Some(v) ==> parse_bounded(s@, radix as nat, max as nat) == Some(v as nat),
        r is None ==> parse_bounded(s@, radix as nat, max as nat) is None,
{
    let start: usize = if s.len() > 1 && s[0] == '+' { 1 } else { 0 };
    let ghost d = unsigned_digits(s@);
    assert(d =~= s@.subrange(start as int, s@.len() as int));
    if start == s.len() {
        return None;
    }
    let mut value: u64 = 0;
    let mut i: usize = start;
    while i < s.len()
        invariant
            radix == 10 || radix == 16,
            start <= i <= s.len(),
            d =~= s@.subrange(start as int, s@.len() as int),
            d == unsigned_digits(s@),
            value as nat == digits_value(d.take(i - start), radix as nat),
            all_digits(d.take(i - start), radix as nat),
            value <= max,
        decreases s.len() - i,
    {
        let ghost k: int = i - start;
        proof {
            lemma_digits_value_take(d, radix as nat, k);
        }
        assert(d[k] == s@[i as int]);
        match char_digit(s[i], radix) {
            None => {
                assert(!all_digits(d, radix as nat)) by {
                    assert(digit_value(d[k], radix as nat) is None);
                }
                return None;
            },
            Some(dv) => {
                if dv > max {
                    proof {
                        assert(value * radix + dv > max) by (nonlinear_arith)
                            requires
                                dv > max,
                        ;
                        lemma_digits_value_monotone(d, radix as nat, k + 1);
                    }
                    return None;
                }
                let q: u64 = (max - dv) / radix;
                if value > q {
                    proof {
                        assert(value * radix + dv > max) by (nonlinear_arith)
                            requires
                                value > q,
                                q == (max - dv) as int / (radix as int),
                                radix > 0,
                                dv <= max,
                        ;
                        lemma_digits_value_monotone(d, radix as nat, k + 1);
                    }
                    return None;
                }
                assert(value * radix + dv <= max) by (nonlinear_arith)
                    requires
                        value <= q,
                        q == (max - dv) as int / (radix as int),
                        radix > 0,
                        dv <= max,
                ;
                value = value * radix + dv;
                assert(d.take(k + 1) =~= d.take(k).push(d[k]));
                i = i + 1;
            },
        }
    }
    assert(d.take(i - start) =~= d);
    Some(value)
}


proof fn lemma_digit_roundtrip(d: nat, radix: nat)
    requires
        radix == 10 || radix == 16,
        d < radix,
    ensures
        digit_value(digit_char(d), radix) == Some(d),
        digit_char(d) != '+',
{
}

/// Reading back the hexadecimal text of a number gives the number.
pub proof fn lemma_hex_roundtrip(n: nat)
    ensures
        parse_unsigned(hex(n), 16) == Some(n),
        hex(n).len() > 0,
        hex(n)[0] != '+',
    decreases n,
{
    lemma_hex_digits(n);
}

proof fn lemma_hex_digits(n: nat)
    ensures
        all_digits(hex(n), 16),
        digits_value(hex(n), 16) == n,
        hex(n).len() > 0,
        hex(n)[0] != '+',
    decreases n,
{
    if n < 16 {
        lemma_digit_roundtrip(n, 16);
        assert(hex(n).drop_last() =~= Seq::<char>::empty());
        assert(digits_value(hex(n), 16) == digits_value(Seq::<char>::empty(), 16) * 16 + n);
    } else {
        lemma_hex_digits(n / 16);
        lemma_digit_roundtrip(n % 16, 16);
        let h = hex(n);
        assert(h.drop_last() =~= hex(n / 16));
        assert(digits_value(h, 16) == digits_value(hex(n / 16), 16) * 16 + n % 16);
        assert((n / 16) * 16 + n % 16 == n) by (nonlinear_arith);
        assert forall|i: int| 0 <= i < h.len() implies (#[trigger] digit_value(h[i], 16)) is Some by {
            if i < h.len() - 1 {
                assert(h[i] == hex(n / 16)[i]);
            }
        }
    }
}

/// Reading back the decimal text of a number gives the number.
pub proof fn lemma_decimal_roundtrip(n: nat)
    ensures
        parse_unsigned(decimal(n), 10) == Some(n),
        decimal(n).len() > 0,
        decimal(n)[0] != '+',
    decreases n,
{
    lemma_decimal_digits(n);
}

proof fn lemma_decimal_digits(n: nat)
    ensures
        all_digits(decimal(n), 10),
        digits_value(decimal(n), 10) == n,
        decimal(n).len() > 0,
        decimal(n)[0] != '+',
    decreases n,
{
    if n < 10 {
        lemma_digit_roundtrip(n, 10);
        assert(decimal(n).drop_last() =~= Seq::<char>::empty());
        assert(digits_value(decimal(n), 10) == digits_value(Seq::<char>::empty(), 10) * 10 + n);
    } else {
        lemma_decimal_digits(n / 10);
        lemma_digit_roundtrip(n % 10, 10);
        let h = decimal(n);
        assert(h.drop_last() =~= decimal(n / 10));
        assert(digits_value(h, 10) == digits_value(decimal(n / 10), 10) * 10 + n % 10);
        assert((n / 10) * 10 + n % 10 == n) by (nonlinear_arith);
        assert forall|i: int| 0 <= i < h.len() implies (#[trigger] digit_value(h[i], 10)) is Some by {
            if i < h.len() - 1 {
                assert(h[i] == decimal(n / 10)[i]);
            }
        }
    }
}



/// The pieces of `s` between occurrences of `sep`, as `str::split` gives them
/// (there is always at least one piece).
pub open spec fn split_spec(s: Seq<char>, sep: char) -> Seq<Seq<char>>
    decreases s.len(),
{
    if s.len() == 0 {
        seq![Seq::<char>::empty()]
    } else {
        let prev = split_spec(s.drop_last(), sep);
        if s.last() == sep {
            prev.push(Seq::<char>::empty())
        } else {
            prev.update(prev.len() - 1, prev.last().push(s.last()))
        }
    }
}

proof fn lemma_split_nonempty(s: Seq<char>, sep: char)
    ensures
        split_spec(s, sep).len() >= 1,
    decreases s.len(),
{
    if s.len() > 0 {
        lemma_split_nonempty(s.drop_last(), sep);
    }
}

/// The character vectors' contents.
pub open spec fn views_of(v: Seq<Vec<char>>) -> Seq<Seq<char>> {
    v.map_values(|x: Vec<char>| x@)
}

/// Splits `s` at every `sep`, as `str::split` with a character pattern does.
pub fn split_chars(s: &[char], sep: char) -> (r: Vec<Vec<char>>)
    ensures
        views_of(r@) == split_spec(s@, sep),
{
    let mut parts: Vec<Vec<char>> = Vec::new();
    let mut cur: Vec<char> = Vec::new();
    let mut i: usize = 0;
    assert(s@.take(0) =~= Seq::<char>::empty());
    assert(views_of(parts@).push(cur@) =~= split_spec(s@.take(0), sep));
    while i < s.len()
        invariant
            i <= s.len(),
            views_of(parts@).push(cur@) == split_spec(s@.take(i as int), sep),
        decreases s.len() - i,
    {
        let ghost prev = split_spec(s@.take(i as int), sep);
        assert(s@.take(i + 1).drop_last() =~= s@.take(i as int));
        proof {
            lemma_split_nonempty(s@.take(i as int), sep);
        }
        let c = s[i];
        if c == sep {
            let done = cur;
            parts.push(done);
            cur = Vec::new();
            assert(views_of(parts@).push(cur@) =~= prev.push(Seq::<char>::empty()));
        } else {
            let ghost old_parts = parts@;
            cur.push(c);
            assert(views_of(parts@).push(cur@) =~= prev.update(prev.len() - 1, prev.last().push(c)));
        }
        i = i + 1;
    }
    assert(s@.take(s.len() as int) =~= s@);
    parts.push(cur);
    assert(views_of(parts@) =~= split_spec(s@, sep));
    parts
}

/// A line without one trailing carriage return.
pub open spec fn strip_cr(line: Seq<char>) -> Seq<char> {
    if line.len() > 0 && line.last() == '\r' {
        line.drop_last()
    } else {
        line
    }
}

/// The lines of a text as `str::lines` gives them: split at `\n`, a `\r`
/// before the `\n` dropped, and no empty line after a final `\n`.
pub open spec fn lines_spec(s: Seq<char>) -> Seq<Seq<char>> {
    let p = split_spec(s, '\n');
    let body = p.take(p.len() - 1).map_values(|l: Seq<char>| strip_cr(l));
    if p.last().len() == 0 {
        body
    } else {
        body.push(p.last())
    }
}

/// Splits a text into lines, as `str::lines` does.
pub fn lines(s: &str) -> (r: Vec<Vec<char>>)
    ensures
        views_of(r@) == lines_spec(s@),
{
    let chars = chars_of(s);
    let mut parts = split_chars(chars.as_slice(), '\n');
    proof {
        lemma_split_nonempty(s@, '\n');
    }
    let ghost p = split_spec(s@, '\n');
    let last = parts.pop().unwrap();
    let ghost body_src = parts@;
    assert(views_of(body_src) =~= p.take(p.len() - 1));
    let mut r: Vec<Vec<char>> = Vec::new();
    let mut i: usize = 0;
    while i < parts.len()
        invariant
            i <= parts.len(),
            parts@ == body_src,
            views_of(body_src) == p.take(p.len() - 1),
            views_of(r@) == views_of(body_src).take(i as int).map_values(|l: Seq<char>| strip_cr(l)),
        decreases parts.len() - i,
    {
        let mut line: Vec<char> = Vec::new();
        let n = parts[i].len();
        let keep = if n > 0 && parts[i][n - 1] == '\r' { n - 1 } else { n };
        let mut j: usize = 0;
        while j < keep
            invariant
                i < parts.len(),
                j <= keep,
                keep <= n,
                n == parts@[i as int]@.len(),
                line@ == parts@[i as int]@.take(j as int),
            decreases keep - j,
        {
            line.push(parts[i][j]);
            assert(parts@[i as int]@.take(j + 1) =~= parts@[i as int]@.take(j as int).push(
                parts@[i as int]@[j as int],
            ));
            j = j + 1;
        }
        assert(line@ =~= strip_cr(parts@[i as int]@));
        let ghost before = views_of(r@);
        let ghost vb = views_of(body_src);
        assert(vb[i as int] == parts@[i as int]@);
        assert(vb.take(i + 1) =~= vb.take(i as int).push(vb[i as int]));
        assert(vb.take(i + 1).map_values(|l: Seq<char>| strip_cr(l)) =~= vb.take(i as int).map_values(
            |l: Seq<char>| strip_cr(l),
        ).push(strip_cr(vb[i as int])));
        r.push(line);
        assert(views_of(r@) =~= views_of(body_src).take(i + 1).map_values(
            |l: Seq<char>| strip_cr(l),
        ));
        i = i + 1;
    }
    assert(views_of(body_src).take(parts.len() as int) =~= views_of(body_src));
    if last.len() > 0 {
        r.push(last);
    }
    assert(views_of(r@) =~= lines_spec(s@));
    r
}

} // verus!
