//! Character-level helpers shared by the pipeline and the tool-invocation
//! builders: decimal rendering and parsing, literal matching, trimming and
//! line splitting.

use vstd::prelude::*;

verus! {

/// Digit value of `c`, or -1 when `c` is no decimal digit.
pub open spec fn spec_digit_val(c: char) -> int {
    if c == '0' { 0 }
    else if c == '1' { 1 }
    else if c == '2' { 2 }
    else if c == '3' { 3 }
    else if c == '4' { 4 }
    else if c == '5' { 5 }
    else if c == '6' { 6 }
    else if c == '7' { 7 }
    else if c == '8' { 8 }
    else if c == '9' { 9 }
    else { -1 }
}

pub open spec fn spec_is_digit(c: char) -> bool {
    spec_digit_val(c) >= 0
}

/// The digit character for `d`, defined on 0 through 9.
pub open spec fn spec_digit_char(d: int) -> char {
    if d == 0 { '0' }
    else if d == 1 { '1' }
    else if d == 2 { '2' }
    else if d == 3 { '3' }
    else if d == 4 { '4' }
    else if d == 5 { '5' }
    else if d == 6 { '6' }
    else if d == 7 { '7' }
    else if d == 8 { '8' }
    else { '9' }
}

/// Value of a digit string, most significant digit first.
pub open spec fn spec_dec_val(s: Seq<char>) -> int
    decreases s.len(),
{
    if s.len() == 0 {
        0
    } else {
        spec_dec_val(s.drop_last()) * 10 + spec_digit_val(s.last())
    }
}

pub open spec fn all_digits(s: Seq<char>) -> bool {
    forall|i: int| 0 <= i < s.len() ==> spec_is_digit(s[i])
}

/// Decimal rendering of `n`, without leading zeros (a single zero for 0).
pub open spec fn spec_dec_digits(n: nat) -> Seq<char>
    decreases n,
{
    if n < 10 {
        seq![spec_digit_char(n as int)]
    } else {
        spec_dec_digits(n / 10).push(spec_digit_char((n % 10) as int))
    }
}

pub fn is_digit(c: char) -> (r: bool)
    ensures
        r == spec_is_digit(c),
{
    c == '0' || c == '1' || c == '2' || c == '3' || c == '4' || c == '5' || c == '6' || c == '7'
        || c == '8' || c == '9'
}

pub fn digit_val(c: char) -> (d: u64)
    requires
        spec_is_digit(c),
    ensures
        d as int == spec_digit_val(c),
{
    if c == '0' { 0 }
    else if c == '1' { 1 }
    else if c == '2' { 2 }
    else if c == '3' { 3 }
    else if c == '4' { 4 }
    else if c == '5' { 5 }
    else if c == '6' { 6 }
    else if c == '7' { 7 }
    else if c == '8' { 8 }
    else { 9 }
}

fn digit_str(d: u64) -> (s: &'static str)
    requires
        d < 10,
    ensures
        s@ =~= seq![spec_digit_char(d as int)],
{
    proof {
        reveal_strlit("0");
        reveal_strlit("1");
        reveal_strlit("2");
        reveal_strlit("3");
        reveal_strlit("4");
        reveal_strlit("5");
        reveal_strlit("6");
        reveal_strlit("7");
        reveal_strlit("8");
        reveal_strlit("9");
    }
    if d == 0 { "0" }
    else if d == 1 { "1" }
    else if d == 2 { "2" }
    else if d == 3 { "3" }
    else if d == 4 { "4" }
    else if d == 5 { "5" }
    else if d == 6 { "6" }
    else if d == 7 { "7" }
    else if d == 8 { "8" }
    else { "9" }
}

/// Renders `n` in decimal.
pub fn u64_to_dec(n: u64) -> (s: String)
    ensures
        s@ == spec_dec_digits(n as nat),
    decreases n,
{
    if n < 10 {
        let s = String::from_str(digit_str(n));
        proof {
            assert(s@ =~= spec_dec_digits(n as nat));
        }
        s
    } else {
        let mut s = u64_to_dec(n / 10);
        s.append(digit_str(n % 10));
        proof {
            assert(s@ =~= spec_dec_digits(n as nat));
        }
        s
    }
}

/// Rendering of `n` in decimal, left-padded with zeros to at least five
/// digits.
pub open spec fn spec_zero_pad5(n: nat) -> Seq<char> {
    let d = spec_dec_digits(n);
    if d.len() >= 5 {
        d
    } else {
        Seq::new((5 - d.len()) as nat, |i: int| '0') + d
    }
}

/// Renders `n` in decimal, zero-padded to a width of at least five.
pub fn u32_zero_pad5(n: u32) -> (s: String)
    ensures
        s@ == spec_zero_pad5(n as nat),
{
    let digits = u64_to_dec(n as u64);
    let dlen = digits.as_str().unicode_len();
    let mut s = String::new();
    let mut pad: usize = 0;
    let need: usize = if dlen >= 5 { 0 } else { 5 - dlen };
    while pad < need
        invariant
            pad <= need,
            s@ =~= Seq::new(pad as nat, |i: int| '0'),
        decreases need - pad,
    {
        proof {
            reveal_strlit("0");
        }
        s.append("0");
        proof {
            assert(s@ =~= Seq::new((pad + 1) as nat, |i: int| '0'));
        }
        pad += 1;
    }
    s.append(digits.as_str());
    proof {
        assert(s@ =~= spec_zero_pad5(n as nat));
    }
    s
}

/// A rendered decimal is made of digits, is non-empty, has no leading
/// zero, and reads back to the rendered value.
pub proof fn lemma_dec_digits_props(n: nat)
    ensures
        all_digits(spec_dec_digits(n)),
        spec_dec_digits(n).len() >= 1,
        spec_dec_digits(n).len() > 1 ==> spec_dec_digits(n)[0] != '0',
        spec_dec_val(spec_dec_digits(n)) == n,
    decreases n,
{
    let dd = spec_dec_digits(n);
    if n < 10 {
        reveal_with_fuel(spec_dec_val, 2);
        assert(dd =~= seq![spec_digit_char(n as int)]);
        assert(dd.drop_last() =~= Seq::<char>::empty());
        assert(dd.last() == spec_digit_char(n as int));
        assert(spec_digit_val(spec_digit_char(n as int)) == n);
    } else {
        lemma_dec_digits_props(n / 10);
        let prev = spec_dec_digits(n / 10);
        assert(dd == prev.push(spec_digit_char((n % 10) as int)));
        assert(dd.drop_last() =~= prev);
        assert(dd.last() == spec_digit_char((n % 10) as int));
        assert(spec_digit_val(spec_digit_char((n % 10) as int)) == (n % 10) as int);
        assert(spec_dec_val(dd) == spec_dec_val(prev) * 10 + (n % 10));
        assert(dd[0] == prev[0]);
        assert(n / 10 >= 1);
        if n / 10 < 10 {
            assert(prev =~= seq![spec_digit_char((n / 10) as int)]);
            assert(prev[0] == spec_digit_char((n / 10) as int));
            assert(prev[0] != '0');
        } else {
            lemma_dec_digits_props(n / 10 / 10);
            assert(prev == spec_dec_digits(n / 10 / 10).push(
                spec_digit_char((n / 10 % 10) as int),
            ));
            assert(prev.len() > 1);
        }
        assert(forall|i: int| 0 <= i < dd.len() ==> spec_is_digit(dd[i])) by {
            assert(forall|i: int| 0 <= i < prev.len() ==> spec_is_digit(#[trigger] dd[i]));
            assert(spec_is_digit(dd[dd.len() - 1]));
        }
    }
}

/// A digit string with a positive leading digit has a positive value.
proof fn lemma_dec_val_positive(s: Seq<char>)
    requires
        all_digits(s),
        s.len() >= 1,
        s[0] != '0',
    ensures
        spec_dec_val(s) >= 1,
    decreases s.len(),
{
    if s.len() == 1 {
        assert(spec_dec_val(s.drop_last()) == 0) by {
            assert(s.drop_last() =~= Seq::<char>::empty());
        }
    } else {
        let t = s.drop_last();
        assert(t[0] == s[0]);
        lemma_dec_val_positive(t);
        assert(spec_dec_val(t) * 10 >= 10) by (nonlinear_arith)
            requires spec_dec_val(t) >= 1,
        ;
    }
}

/// A non-empty digit string without a leading zero is exactly the decimal
/// rendering of its value.
pub proof fn lemma_dec_digits_canonical(s: Seq<char>)
    requires
        all_digits(s),
        s.len() >= 1,
        s.len() > 1 ==> s[0] != '0',
    ensures
        spec_dec_val(s) >= 0,
        spec_dec_digits(spec_dec_val(s) as nat) == s,
    decreases s.len(),
{
    if s.len() == 1 {
        let c = s[0];
        reveal_with_fuel(spec_dec_val, 2);
        assert(s.last() == c);
        assert(s.drop_last() =~= Seq::<char>::empty());
        assert(spec_dec_val(s) == spec_digit_val(c));
        assert(spec_dec_digits(spec_digit_val(c) as nat) =~= seq![spec_digit_char(spec_digit_val(c))]);
        assert(spec_digit_char(spec_digit_val(c)) == c);
        assert(spec_dec_digits(spec_dec_val(s) as nat) =~= s);
    } else {
        let t = s.drop_last();
        let d = spec_digit_val(s.last());
        assert(t[0] == s[0]);
        lemma_dec_digits_canonical(t);
        lemma_dec_val_positive(t);
        let v = spec_dec_val(t);
        assert(spec_dec_val(s) == v * 10 + d);
        assert(v * 10 + d >= 10) by (nonlinear_arith)
            requires v >= 1, d >= 0,
        ;
        assert((v * 10 + d) / 10 == v && (v * 10 + d) % 10 == d) by (nonlinear_arith)
            requires 0 <= d < 10, v >= 0,
        ;
        assert(spec_dec_digits((v * 10 + d) as nat) == spec_dec_digits(v as nat).push(
            spec_digit_char(d),
        ));
        assert(spec_digit_char(d) == s.last());
        assert(spec_dec_digits(spec_dec_val(s) as nat) =~= s);
    }
}

/// The value of a digit string only grows as more digits are appended.
proof fn lemma_dec_val_extend(s: Seq<char>, i: int)
    requires
        0 <= i <= s.len(),
        all_digits(s),
        spec_dec_val(s.take(i)) >= 0,
    ensures
        spec_dec_val(s) >= spec_dec_val(s.take(i)),
        spec_dec_val(s) >= 0,
    decreases s.len() - i,
{
    if i == s.len() {
        assert(s.take(i) =~= s);
    } else {
        let t = s.take(i + 1);
        assert(t.drop_last() =~= s.take(i));
        assert(t.last() == s[i]);
        let a = spec_dec_val(s.take(i));
        let b = spec_dec_val(t);
        assert(b == a * 10 + spec_digit_val(s[i]));
        assert(a * 10 >= a) by (nonlinear_arith)
            requires a >= 0,
        ;
        lemma_dec_val_extend(s, i + 1);
    }
}

/// Parses a non-empty all-digit string as a `u64`; anything else, and any
/// value exceeding `u64::MAX`, is rejected.
pub fn parse_u64(s: &str) -> (r: Option<u64>)
    ensures
        match r {
            Some(v) => s@.len() > 0 && all_digits(s@) && v as int == spec_dec_val(s@),
            None => s@.len() == 0 || !all_digits(s@) || spec_dec_val(s@) > u64::MAX,
        },
{
    let len = s.unicode_len();
    if len == 0 {
        return None;
    }
    let mut n: u64 = 0;
    let mut i: usize = 0;
    while i < len
        invariant
            i <= len,
            len == s@.len(),
            forall|j: int| 0 <= j < i ==> spec_is_digit(s@[j]),
            n as int == spec_dec_val(s@.take(i as int)),
        decreases len - i,
    {
        let c = s.get_char(i);
        if !is_digit(c) {
            return None;
        }
        let d = digit_val(c);
        let ghost prefix = s@.take(i as int);
        proof {
            assert(s@.take(i + 1).drop_last() =~= prefix);
            assert(s@.take(i + 1).last() == s@[i as int]);
        }
        n = match n.checked_mul(10) {
            Some(m) => match m.checked_add(d) {
                Some(t) => t,
                None => {
                    proof {
                        assert(spec_dec_val(s@.take(i + 1)) > u64::MAX);
                        if all_digits(s@) {
                            lemma_dec_val_extend(s@, i + 1);
                        }
                    }
                    return None;
                },
            },
            None => {
                proof {
                    assert(spec_dec_val(s@.take(i + 1)) == n * 10 + spec_digit_val(s@[i as int]));
                    assert(n * 10 > u64::MAX ==> n * 10 + spec_digit_val(s@[i as int]) > u64::MAX);
                    if all_digits(s@) {
                        lemma_dec_val_extend(s@, i + 1);
                    }
                }
                return None;
            },
        };
        i += 1;
    }
    proof {
        assert(s@.take(len as int) =~= s@);
    }
    Some(n)
}

/// Decoding of possibly invalid UTF-8, as the standard library's lossy
/// decoder defines it.
pub uninterp spec fn utf8_lossy_of(b: Seq<u8>) -> Seq<char>;

/// Relies on String::from_utf8_lossy: the decoding depends on the bytes
/// alone, and its documentation promises that valid UTF-8 decodes
/// unchanged.
#[verifier::external_body]
pub(crate) fn utf8_lossy(b: &[u8]) -> (r: String)
    ensures
        r@ == utf8_lossy_of(b@),
        vstd::utf8::valid_utf8(b@) ==> r@ == vstd::utf8::decode_utf8(b@),
{
    String::from_utf8_lossy(b).into_owned()
}

/// `base` and `name` joined by the path separator.
pub open spec fn spec_join_path(base: Seq<char>, name: Seq<char>) -> Seq<char> {
    base + "/"@ + name
}

/// Joins a directory and an entry name into one path.
pub fn join_path(base: &str, name: &str) -> (p: String)
    ensures
        p@ == spec_join_path(base@, name@),
{
    let mut p = String::from_str(base);
    p.append("/");
    p.append(name);
    p
}

/// Whether `pat` occurs in `s` starting at character position `pos`.
pub fn match_lit(s: &str, pos: usize, pat: &str) -> (r: bool)
    requires
        pos <= s@.len(),
    ensures
        r == (pos + pat@.len() <= s@.len()
            && s@.subrange(pos as int, pos as int + pat@.len() as int) == pat@),
{
    let plen = pat.unicode_len();
    let slen = s.unicode_len();
    if slen - pos < plen {
        return false;
    }
    let mut i: usize = 0;
    while i < plen
        invariant
            i <= plen,
            plen == pat@.len(),
            slen == s@.len(),
            pos + plen <= slen,
            forall|j: int| 0 <= j < i ==> s@[pos + j] == pat@[j],
        decreases plen - i,
    {
        if s.get_char(pos + i) != pat.get_char(i) {
            proof {
                let sub = s@.subrange(pos as int, pos as int + pat@.len() as int);
                assert(sub[i as int] == s@[pos + i]);
            }
            return false;
        }
        i += 1;
    }
    proof {
        assert(s@.subrange(pos as int, pos as int + pat@.len() as int) =~= pat@);
    }
    true
}

/// Position of the first occurrence of `c` at or after `from`.
pub fn find_char(s: &str, from: usize, c: char) -> (r: Option<usize>)
    requires
        from <= s@.len(),
    ensures
        match r {
            Some(i) => from <= i < s@.len() && s@[i as int] == c
                && forall|j: int| from <= j < i ==> s@[j] != c,
            None => forall|j: int| from <= j < s@.len() ==> s@[j] != c,
        },
{
    let len = s.unicode_len();
    let mut i: usize = from;
    while i < len
        invariant
            from <= i <= len,
            len == s@.len(),
            forall|j: int| from <= j < i ==> s@[j] != c,
        decreases len - i,
    {
        if s.get_char(i) == c {
            return Some(i);
        }
        i += 1;
    }
    None
}

/// `i` is the position of the last occurrence of `c` in `s`.
pub open spec fn is_last_at(s: Seq<char>, c: char, i: int) -> bool {
    &&& 0 <= i < s.len()
    &&& s[i] == c
    &&& forall|j: int| i < j < s.len() ==> s[j] != c
}

/// Position of the last occurrence of `c` in `s`, if any.
pub open spec fn spec_rfind(s: Seq<char>, c: char) -> Option<int> {
    if exists|i: int| is_last_at(s, c, i) {
        Some(choose|i: int| is_last_at(s, c, i))
    } else {
        None
    }
}

/// Position of the last occurrence of `c` in `s`.
pub fn rfind_char(s: &str, c: char) -> (r: Option<usize>)
    ensures
        match r {
            Some(i) => is_last_at(s@, c, i as int) && spec_rfind(s@, c) == Some(i as int),
            None => spec_rfind(s@, c) is None
                && forall|j: int| 0 <= j < s@.len() ==> s@[j] != c,
        },
{
    let len = s.unicode_len();
    let mut i: usize = len;
    while i > 0
        invariant
            i <= len,
            len == s@.len(),
            forall|j: int| i <= j < len ==> s@[j] != c,
        decreases i,
    {
        i -= 1;
        if s.get_char(i) == c {
            proof {
                assert(is_last_at(s@, c, i as int));
                let w = choose|k: int| is_last_at(s@, c, k);
                assert(is_last_at(s@, c, w));
                assert(w == i as int);
            }
            return Some(i);
        }
    }
    proof {
        if exists|k: int| is_last_at(s@, c, k) {
            let w = choose|k: int| is_last_at(s@, c, k);
            assert(s@[w] != c);
        }
    }
    None
}

/// End of the run of digit characters starting at `pos`.
pub fn scan_digits(s: &str, pos: usize) -> (end: usize)
    requires
        pos <= s@.len(),
    ensures
        pos <= end <= s@.len(),
        forall|j: int| pos <= j < end ==> spec_is_digit(s@[j]),
        end < s@.len() ==> !spec_is_digit(s@[end as int]),
{
    let len = s.unicode_len();
    let mut i: usize = pos;
    while i < len
        invariant
            pos <= i <= len,
            len == s@.len(),
            forall|j: int| pos <= j < i ==> spec_is_digit(s@[j]),
        decreases len - i,
    {
        if !is_digit(s.get_char(i)) {
            return i;
        }
        i += 1;
    }
    len
}

/// ASCII whitespace.
pub open spec fn spec_is_space(c: char) -> bool {
    c == ' ' || c == '\t' || c == '\r' || c == '\n'
}

pub fn is_space(c: char) -> (r: bool)
    ensures
        r == spec_is_space(c),
{
    c == ' ' || c == '\t' || c == '\r' || c == '\n'
}

pub open spec fn spec_trim_front(s: Seq<char>) -> Seq<char>
    decreases s.len(),
{
    if s.len() > 0 && spec_is_space(s[0]) {
        spec_trim_front(s.drop_first())
    } else {
        s
    }
}

pub open spec fn spec_trim_back(s: Seq<char>) -> Seq<char>
    decreases s.len(),
{
    if s.len() > 0 && spec_is_space(s.last()) {
        spec_trim_back(s.drop_last())
    } else {
        s
    }
}

/// `s` with ASCII whitespace removed from both ends.
pub open spec fn spec_trim(s: Seq<char>) -> Seq<char> {
    spec_trim_back(spec_trim_front(s))
}

proof fn lemma_trim_front_skip(s: Seq<char>, i: int)
    requires
        0 <= i <= s.len(),
        forall|j: int| 0 <= j < i ==> spec_is_space(s[j]),
        i == s.len() || !spec_is_space(s[i]),
    ensures
        spec_trim_front(s) == s.skip(i),
    decreases i,
{
    if i == 0 {
        assert(s.skip(0) =~= s);
    } else {
        let t = s.drop_first();
        assert(forall|j: int| 0 <= j < i - 1 ==> spec_is_space(t[j]));
        lemma_trim_front_skip(t, i - 1);
        assert(t.skip(i - 1) =~= s.skip(i));
    }
}

proof fn lemma_trim_back_take(s: Seq<char>, k: int)
    requires
        0 <= k <= s.len(),
        forall|j: int| k <= j < s.len() ==> spec_is_space(s[j]),
        k == 0 || !spec_is_space(s[k - 1]),
    ensures
        spec_trim_back(s) == s.take(k),
    decreases s.len() - k,
{
    if k == s.len() {
        assert(s.take(k) =~= s);
    } else {
        let t = s.drop_last();
        assert(forall|j: int| k <= j < t.len() ==> spec_is_space(t[j]));
        lemma_trim_back_take(t, k);
        assert(t.take(k) =~= s.take(k));
    }
}

/// Removes ASCII whitespace from both ends of `s`.
pub fn trim_str<'a>(s: &'a str) -> (r: &'a str)
    ensures
        r@ == spec_trim(s@),
{
    let len = s.unicode_len();
    let mut start: usize = 0;
    while start < len && is_space(s.get_char(start))
        invariant
            start <= len,
            len == s@.len(),
            forall|j: int| 0 <= j < start ==> spec_is_space(s@[j]),
        decreases len - start,
    {
        start += 1;
    }
    let mut end: usize = len;
    while end > start && is_space(s.get_char(end - 1))
        invariant
            start <= end <= len,
            len == s@.len(),
            forall|j: int| end <= j < len ==> spec_is_space(s@[j]),
        decreases end,
    {
        end -= 1;
    }
    let r = s.substring_char(start, end);
    proof {
        lemma_trim_front_skip(s@, start as int);
        let t = s@.skip(start as int);
        assert(forall|j: int| end - start <= j < t.len() ==> spec_is_space(t[j]));
        lemma_trim_back_take(t, end - start);
        assert(t.take(end - start) =~= s@.subrange(start as int, end as int));
    }
    r
}

/// `i` is the position of the first occurrence of `c` in `s`.
pub open spec fn is_first_at(s: Seq<char>, c: char, i: int) -> bool {
    &&& 0 <= i < s.len()
    &&& s[i] == c
    &&& forall|j: int| 0 <= j < i ==> s[j] != c
}

/// Position of the first occurrence of `c` in `s`, if any.
pub open spec fn spec_find(s: Seq<char>, c: char) -> Option<int> {
    if exists|i: int| is_first_at(s, c, i) {
        Some(choose|i: int| is_first_at(s, c, i))
    } else {
        None
    }
}

/// A line with its terminator's carriage return removed.
pub open spec fn spec_strip_cr(l: Seq<char>) -> Seq<char> {
    if l.len() > 0 && l.last() == '\r' {
        l.drop_last()
    } else {
        l
    }
}

/// The lines of `s`: split at `'\n'`, a carriage return before the newline
/// dropped, and no empty line after a final newline.
pub open spec fn spec_lines(s: Seq<char>) -> Seq<Seq<char>>
    decreases s.len(),
{
    if s.len() == 0 {
        Seq::empty()
    } else {
        match spec_find(s, '\n') {
            Some(i) => seq![spec_strip_cr(s.take(i))] + spec_lines(s.skip(i + 1)),
            None => seq![s],
        }
    }
}

/// Splits `s` into lines.
pub fn split_lines(s: &str) -> (r: Vec<String>)
    ensures
        r.deep_view() == spec_lines(s@),
{
    let mut out: Vec<String> = Vec::new();
    let len = s.unicode_len();
    let mut pos: usize = 0;
    proof {
        assert(out.deep_view() =~= Seq::<Seq<char>>::empty());
        assert(s@.skip(0) =~= s@);
        assert(out.deep_view() + spec_lines(s@) =~= spec_lines(s@));
    }
    while pos < len
        invariant
            pos <= len,
            len == s@.len(),
            out.deep_view() + spec_lines(s@.skip(pos as int)) == spec_lines(s@),
        decreases len - pos,
    {
        let ghost t = s@.skip(pos as int);
        let nl = find_char(s, pos, '\n');
        let lineend: usize = match nl {
            Some(j) => j,
            None => len,
        };
        let stripped: usize = if lineend > pos && lineend < len && s.get_char(lineend - 1) == '\r' {
            lineend - 1
        } else {
            lineend
        };
        let line = String::from_str(s.substring_char(pos, stripped));
        let ghost prev = out.deep_view();
        out.push(line);
        proof {
            assert(out.deep_view() =~= prev.push(line@));
            match nl {
                Some(j) => {
                    assert(is_first_at(t, '\n', j - pos));
                    let w = choose|k: int| is_first_at(t, '\n', k);
                    assert(w == j - pos);
                    assert(spec_find(t, '\n') == Some(j - pos));
                    assert(t.take(j - pos) =~= s@.subrange(pos as int, j as int));
                    assert(spec_strip_cr(t.take(j - pos)) =~= s@.subrange(pos as int, stripped as int));
                    assert(t.skip(j - pos + 1) =~= s@.skip(j + 1));
                    assert(spec_lines(t) =~= seq![spec_strip_cr(t.take(j - pos))] + spec_lines(t.skip(j - pos + 1)));
                    assert(out.deep_view() + spec_lines(s@.skip(j + 1)) =~= spec_lines(s@));
                },
                None => {
                    assert(forall|j: int| 0 <= j < t.len() ==> t[j] != '\n');
                    assert(spec_find(t, '\n') is None) by {
                        if exists|k: int| is_first_at(t, '\n', k) {
                            let w = choose|k: int| is_first_at(t, '\n', k);
                            assert(t[w] != '\n');
                        }
                    }
                    assert(stripped == lineend);
                    assert(t =~= s@.subrange(pos as int, len as int));
                    assert(spec_lines(t) =~= seq![t]);
                    assert(spec_lines(s@.skip(len as int)) =~= Seq::<Seq<char>>::empty());
                    assert(out.deep_view() + spec_lines(s@.skip(len as int)) =~= spec_lines(s@));
                },
            }
        }
        pos = if lineend < len { lineend + 1 } else { len };
    }
    proof {
        assert(spec_lines(s@.skip(pos as int)) =~= Seq::<Seq<char>>::empty());
        assert(out.deep_view() =~= spec_lines(s@));
    }
    out
}

} // verus!
