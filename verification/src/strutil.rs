//! Verified string building: decimal rendering of integers, boolean words,
//! comma joining, and JSON string escaping. Every public function states
//! exactly which sequence of characters it appends.

use vstd::prelude::*;
use vstd::string::StrSliceExecFns;
use vstd::string::StringExecFns;

verus! {

/// The character for one decimal digit.
pub open spec fn spec_digit(d: int) -> char {
    if d == 0 {
        '0'
    } else if d == 1 {
        '1'
    } else if d == 2 {
        '2'
    } else if d == 3 {
        '3'
    } else if d == 4 {
        '4'
    } else if d == 5 {
        '5'
    } else if d == 6 {
        '6'
    } else if d == 7 {
        '7'
    } else if d == 8 {
        '8'
    } else {
        '9'
    }
}

/// The decimal rendering of a natural number, most significant digit first.
pub open spec fn spec_dec(n: nat) -> Seq<char>
    decreases n,
{
    if n < 10 {
        seq![spec_digit(n as int)]
    } else {
        spec_dec(n / 10) + seq![spec_digit((n % 10) as int)]
    }
}

/// The decimal rendering of an integer: a minus sign before the digits
/// when it is negative.
pub open spec fn spec_dec_int(n: int) -> Seq<char> {
    if n >= 0 {
        spec_dec(n as nat)
    } else {
        seq!['-'] + spec_dec((-n) as nat)
    }
}

/// The word std's formatter writes for a boolean.
pub open spec fn spec_bool(b: bool) -> Seq<char> {
    if b {
        seq!['t', 'r', 'u', 'e']
    } else {
        seq!['f', 'a', 'l', 's', 'e']
    }
}

fn digit_char(d: u64) -> (c: char)
    requires
        d < 10,
    ensures
        c == spec_digit(d as int),
{
    if d == 0 {
        '0'
    } else if d == 1 {
        '1'
    } else if d == 2 {
        '2'
    } else if d == 3 {
        '3'
    } else if d == 4 {
        '4'
    } else if d == 5 {
        '5'
    } else if d == 6 {
        '6'
    } else if d == 7 {
        '7'
    } else if d == 8 {
        '8'
    } else {
        '9'
    }
}

/// Relies on std's String::push: appends exactly the given character.
#[verifier::external_body]
pub fn push_char(s: &mut String, c: char)
    ensures
        final(s)@ == old(s)@ + seq![c],
{
    s.push(c);
}

/// Appends the decimal rendering of `n`.
pub fn push_u64(s: &mut String, n: u64)
    ensures
        final(s)@ == old(s)@ + spec_dec(n as nat),
    decreases n,
{
    if n < 10 {
        push_char(s, digit_char(n));
    } else {
        push_u64(s, n / 10);
        push_char(s, digit_char(n % 10));
        assert(final(s)@ =~= old(s)@ + spec_dec(n as nat));
    }
}

/// Appends the decimal rendering of `n`, with a minus sign when negative.
pub fn push_i64(s: &mut String, n: i64)
    ensures
        final(s)@ == old(s)@ + spec_dec_int(n as int),
{
    if n < 0 {
        push_char(s, '-');
        let m: u64 = (-(n as i128)) as u64;
        push_u64(s, m);
        assert(final(s)@ =~= old(s)@ + spec_dec_int(n as int));
    } else {
        push_u64(s, n as u64);
    }
}

/// Appends `true` or `false`.
pub fn push_bool(s: &mut String, b: bool)
    ensures
        final(s)@ == old(s)@ + spec_bool(b),
{
    if b {
        s.append("true");
        proof {
            reveal_strlit("true");
            assert(final(s)@ =~= old(s)@ + spec_bool(b));
        }
    } else {
        s.append("false");
        proof {
            reveal_strlit("false");
            assert(final(s)@ =~= old(s)@ + spec_bool(b));
        }
    }
}

/// The items joined with a comma between neighbours, in order.
pub open spec fn spec_join(items: Seq<String>) -> Seq<char> {
    spec_join_from(items, 0)
}

/// The items from position `i` on, joined with commas.
pub open spec fn spec_join_from(items: Seq<String>, i: int) -> Seq<char>
    decreases items.len() - i,
{
    if i < 0 || i >= items.len() {
        Seq::empty()
    } else if i == items.len() - 1 {
        items[i]@
    } else {
        items[i]@ + seq![','] + spec_join_from(items, i + 1)
    }
}

fn push_join_from(out: &mut String, items: &Vec<String>, i: usize)
    requires
        i <= items@.len(),
    ensures
        final(out)@ == old(out)@ + spec_join_from(items@, i as int),
    decreases items@.len() - i,
{
    if i < items.len() {
        out.append(items[i].as_str());
        if i + 1 < items.len() {
            push_char(out, ',');
            push_join_from(out, items, i + 1);
            assert(final(out)@ =~= old(out)@ + spec_join_from(items@, i as int));
        }
    }
}

/// Appends the items joined with commas, as `join(",")` writes them.
pub fn push_join(out: &mut String, items: &Vec<String>)
    ensures
        final(out)@ == old(out)@ + spec_join(items@),
{
    push_join_from(out, items, 0);
}

/// The character for one hexadecimal digit, lower case.
pub open spec fn spec_hex_digit(d: int) -> char {
    if d < 10 {
        spec_digit(d)
    } else if d == 10 {
        'a'
    } else if d == 11 {
        'b'
    } else if d == 12 {
        'c'
    } else if d == 13 {
        'd'
    } else if d == 14 {
        'e'
    } else {
        'f'
    }
}

/// How one character is written inside a JSON string: quote, backslash
/// and the named control characters get a two-character escape, the other
/// control characters a `\u00xx` escape, everything else stands as it is.
pub open spec fn spec_escape_char(c: char) -> Seq<char> {
    if c == '"' {
        seq!['\\', '"']
    } else if c == '\\' {
        seq!['\\', '\\']
    } else if c == '\u{8}' {
        seq!['\\', 'b']
    } else if c == '\t' {
        seq!['\\', 't']
    } else if c == '\n' {
        seq!['\\', 'n']
    } else if c == '\u{c}' {
        seq!['\\', 'f']
    } else if c == '\r' {
        seq!['\\', 'r']
    } else if (c as u32) < 0x20 {
        seq!['\\', 'u', '0', '0', spec_hex_digit((c as u32) as int / 16), spec_hex_digit(
            (c as u32) as int % 16,
        )]
    } else {
        seq![c]
    }
}

/// A whole string written inside JSON quotes, from position `i` on.
pub open spec fn spec_escape_from(s: Seq<char>, i: int) -> Seq<char>
    decreases s.len() - i,
{
    if i < 0 || i >= s.len() {
        Seq::empty()
    } else {
        spec_escape_char(s[i]) + spec_escape_from(s, i + 1)
    }
}

/// The body of a JSON string literal holding exactly the characters of `s`.
pub open spec fn spec_escape(s: Seq<char>) -> Seq<char> {
    spec_escape_from(s, 0)
}

fn hex_digit_char(d: u32) -> (c: char)
    requires
        d < 16,
    ensures
        c == spec_hex_digit(d as int),
{
    if d < 10 {
        digit_char(d as u64)
    } else if d == 10 {
        'a'
    } else if d == 11 {
        'b'
    } else if d == 12 {
        'c'
    } else if d == 13 {
        'd'
    } else if d == 14 {
        'e'
    } else {
        'f'
    }
}

fn push_escaped_char(out: &mut String, c: char)
    ensures
        final(out)@ == old(out)@ + spec_escape_char(c),
{
    if c == '"' {
        push_char(out, '\\');
        push_char(out, '"');
    } else if c == '\\' {
        push_char(out, '\\');
        push_char(out, '\\');
    } else if c == '\u{8}' {
        push_char(out, '\\');
        push_char(out, 'b');
    } else if c == '\t' {
        push_char(out, '\\');
        push_char(out, 't');
    } else if c == '\n' {
        push_char(out, '\\');
        push_char(out, 'n');
    } else if c == '\u{c}' {
        push_char(out, '\\');
        push_char(out, 'f');
    } else if c == '\r' {
        push_char(out, '\\');
        push_char(out, 'r');
    } else if (c as u32) < 0x20 {
        push_char(out, '\\');
        push_char(out, 'u');
        push_char(out, '0');
        push_char(out, '0');
        push_char(out, hex_digit_char((c as u32) / 16));
        push_char(out, hex_digit_char((c as u32) % 16));
    } else {
        push_char(out, c);
    }
    assert(final(out)@ =~= old(out)@ + spec_escape_char(c));
}

fn push_escaped_from(out: &mut String, s: &str, i: usize)
    requires
        i <= s@.len(),
    ensures
        final(out)@ == old(out)@ + spec_escape_from(s@, i as int),
    decreases s@.len() - i,
{
    let n = s.unicode_len();
    if i < n {
        push_escaped_char(out, s.get_char(i));
        push_escaped_from(out, s, i + 1);
        assert(final(out)@ =~= old(out)@ + spec_escape_from(s@, i as int));
    }
}

/// Appends `s` written as the body of a JSON string literal.
pub fn push_escaped(out: &mut String, s: &str)
    ensures
        final(out)@ == old(out)@ + spec_escape(s@),
{
    push_escaped_from(out, s, 0);
}

/// A whole JSON string literal: quotes around the escaped body.
pub open spec fn spec_json_str(s: Seq<char>) -> Seq<char> {
    seq!['"'] + spec_escape(s) + seq!['"']
}

/// A named JSON object member holding a string, when it is set.
pub open spec fn opt_json_member(name: Seq<char>, v: Option<String>) -> Seq<char> {
    match v {
        Some(s) => name + spec_json_str(s@),
        None => Seq::empty(),
    }
}

/// Appends a complete JSON string literal holding the characters of `s`.
pub fn push_json_string(out: &mut String, s: &str)
    ensures
        final(out)@ == old(out)@ + spec_json_str(s@),
{
    push_char(out, '"');
    push_escaped(out, s);
    push_char(out, '"');
    assert(final(out)@ =~= old(out)@ + spec_json_str(s@));
}

/// Appends an optional JSON object member holding a string.
pub fn push_opt_member(out: &mut String, name: &str, v: &Option<String>)
    ensures
        final(out)@ == old(out)@ + opt_json_member(name@, *v),
{
    if let Some(s) = v {
        out.append(name);
        push_json_string(out, s.as_str());
        assert(final(out)@ =~= old(out)@ + opt_json_member(name@, *v));
    }
}

/// A named query parameter when it is set, nothing when it is not.
pub open spec fn opt_field(name: Seq<char>, v: Option<String>) -> Seq<char> {
    match v {
        Some(s) => name + s@,
        None => Seq::empty(),
    }
}

/// A named integer query parameter when it is set.
pub open spec fn opt_int_field(name: Seq<char>, v: Option<int>) -> Seq<char> {
    match v {
        Some(n) => name + spec_dec_int(n),
        None => Seq::empty(),
    }
}

/// A named boolean query parameter when it is set.
pub open spec fn opt_bool_field(name: Seq<char>, v: Option<bool>) -> Seq<char> {
    match v {
        Some(b) => name + spec_bool(b),
        None => Seq::empty(),
    }
}

/// The sort suffix of a query: ascending wins over descending, neither
/// leaves the query bare.
pub open spec fn spec_sort(asc: bool, desc: bool) -> Seq<char> {
    if asc {
        "&sort=asc"@
    } else if desc {
        "&sort=desc"@
    } else {
        Seq::empty()
    }
}

/// Appends an optional named parameter.
pub fn push_opt(out: &mut String, name: &str, v: &Option<String>)
    ensures
        final(out)@ == old(out)@ + opt_field(name@, *v),
{
    if let Some(s) = v {
        out.append(name);
        out.append(s.as_str());
        assert(final(out)@ =~= old(out)@ + opt_field(name@, *v));
    }
}

/// Appends the sort suffix.
pub fn push_sort(out: &mut String, asc: bool, desc: bool)
    ensures
        final(out)@ == old(out)@ + spec_sort(asc, desc),
{
    if asc {
        out.append("&sort=asc");
    } else if desc {
        out.append("&sort=desc");
    }
}

/// Whether the string is one or more decimal digits and nothing else.
pub open spec fn spec_is_digits(s: Seq<char>) -> bool {
    s.len() > 0 && forall|i: int| 0 <= i < s.len() ==> '0' <= #[trigger] s[i] && s[i] <= '9'
}

/// The value of a string of decimal digits, most significant first.
pub open spec fn spec_dec_val(s: Seq<char>) -> int
    decreases s.len(),
{
    if s.len() == 0 {
        0
    } else {
        spec_dec_val(s.drop_last()) * 10 + (s.last() as int - '0' as int)
    }
}

/// Whether the string is an optional minus sign before decimal digits.
pub open spec fn spec_is_int_text(s: Seq<char>) -> bool {
    if s.len() > 0 && s[0] == '-' {
        spec_is_digits(s.skip(1))
    } else {
        spec_is_digits(s)
    }
}

/// The signed value of an integer written in decimal.
pub open spec fn spec_int_val(s: Seq<char>) -> int {
    if s.len() > 0 && s[0] == '-' {
        -spec_dec_val(s.skip(1))
    } else {
        spec_dec_val(s)
    }
}

proof fn lemma_dec_val_nonneg(s: Seq<char>, k: int)
    requires
        0 <= k <= s.len(),
        forall|i: int| 0 <= i < s.len() ==> '0' <= #[trigger] s[i] && s[i] <= '9',
    ensures
        spec_dec_val(s.take(k)) >= 0,
    decreases k,
{
    if k > 0 {
        lemma_dec_val_nonneg(s, k - 1);
        assert(s.take(k).drop_last() =~= s.take(k - 1));
        assert(s.take(k).last() == s[k - 1]);
    }
}

proof fn lemma_dec_val_prefix_bound(s: Seq<char>, k: int)
    requires
        0 <= k <= s.len(),
        forall|i: int| 0 <= i < s.len() ==> '0' <= #[trigger] s[i] && s[i] <= '9',
    ensures
        spec_dec_val(s) >= spec_dec_val(s.take(k)),
    decreases s.len() - k,
{
    if k == s.len() {
        assert(s.take(k) =~= s);
    } else {
        lemma_dec_val_nonneg(s, k);
        assert(s.take(k + 1).drop_last() =~= s.take(k));
        assert(s.take(k + 1).last() == s[k]);
        assert(spec_dec_val(s.take(k + 1)) >= spec_dec_val(s.take(k)));
        lemma_dec_val_prefix_bound(s, k + 1);
    }
}

/// Reads an unsigned decimal number that starts at position `from` and
/// runs to the end of the string: the digits' value when they all are
/// digits and the value fits in the type, nothing otherwise.
fn parse_mag_from(s: &str, from: usize) -> (r: Option<u64>)
    requires
        from <= s@.len(),
    ensures
        match r {
            Some(v) => spec_is_digits(s@.skip(from as int)) && v == spec_dec_val(
                s@.skip(from as int),
            ),
            None => !(spec_is_digits(s@.skip(from as int)) && spec_dec_val(s@.skip(from as int))
                <= u64::MAX),
        },
{
    let ghost t = s@.skip(from as int);
    let n = s.unicode_len();
    if from == n {
        return None;
    }
    let mut val: u64 = 0;
    let mut i: usize = from;
    while i < n
        invariant
            from <= i <= n,
            n == s@.len(),
            from < n,
            t == s@.skip(from as int),
            forall|j: int| 0 <= j < i - from ==> '0' <= #[trigger] t[j] && t[j] <= '9',
            val == spec_dec_val(t.take(i - from)),
        decreases n - i,
    {
        let c = s.get_char(i);
        let cv = c as u32;
        proof {
            assert(t[i - from] == s@[i as int]);
        }
        if cv < 48 || cv > 57 {
            return None;
        }
        let d = (cv - 48) as u64;
        if val > (u64::MAX - d) / 10 {
            proof {
                assert(t.take(i - from + 1).drop_last() =~= t.take(i - from));
                assert(t.take(i - from + 1).last() == t[i - from]);
                assert(spec_dec_val(t.take(i - from + 1)) > u64::MAX);
                if spec_is_digits(t) {
                    lemma_dec_val_prefix_bound(t, i - from + 1);
                }
            }
            return None;
        }
        let newval = val * 10 + d;
        proof {
            assert(t.take(i - from + 1).drop_last() =~= t.take(i - from));
            assert(t.take(i - from + 1).last() == t[i - from]);
        }
        val = newval;
        i = i + 1;
    }
    proof {
        assert(t.take(n - from) =~= t);
    }
    Some(val)
}

/// Reads a whole string as an unsigned decimal number, when it is one
/// and its value fits.
pub fn parse_u32(s: &str) -> (r: Option<u32>)
    ensures
        match r {
            Some(v) => spec_is_digits(s@) && v == spec_dec_val(s@),
            None => !(spec_is_digits(s@) && spec_dec_val(s@) <= u32::MAX),
        },
{
    proof {
        assert(s@.skip(0) =~= s@);
    }
    match parse_mag_from(s, 0) {
        Some(v) => {
            if v <= 0xffff_ffff {
                Some(v as u32)
            } else {
                None
            }
        },
        None => None,
    }
}

/// Reads a whole string as a signed decimal number, when it is one and
/// its value fits.
pub fn parse_i64(s: &str) -> (r: Option<i64>)
    ensures
        match r {
            Some(v) => spec_is_int_text(s@) && v == spec_int_val(s@),
            None => !(spec_is_int_text(s@) && i64::MIN <= spec_int_val(s@) <= i64::MAX),
        },
{
    let n = s.unicode_len();
    if n > 0 && s.get_char(0) == '-' {
        match parse_mag_from(s, 1) {
            Some(m) => {
                if m <= 0x8000_0000_0000_0000 {
                    proof {
                        lemma_dec_val_nonneg(s@.skip(1), s@.len() - 1);
                        assert(s@.skip(1).take(s@.len() - 1) =~= s@.skip(1));
                    }
                    Some((-(m as i128)) as i64)
                } else {
                    None
                }
            },
            None => None,
        }
    } else {
        match parse_mag_from(s, 0) {
            Some(m) => {
                proof {
                    assert(s@.skip(0) =~= s@);
                }
                if m <= 0x7fff_ffff_ffff_ffff {
                    Some(m as i64)
                } else {
                    proof {
                        lemma_dec_val_nonneg(s@, s@.len() as int);
                        assert(s@.take(s@.len() as int) =~= s@);
                    }
                    None
                }
            },
            None => {
                proof {
                    assert(s@.skip(0) =~= s@);
                }
                None
            },
        }
    }
}

/// Turns borrowed strings into owned ones, keeping order and content.
pub fn to_owned_vec(items: Vec<&str>) -> (r: Vec<String>)
    ensures
        r@.len() == items@.len(),
        forall|i: int| 0 <= i < items@.len() ==> r@[i]@ == items@[i]@,
{
    let mut r: Vec<String> = Vec::new();
    let mut k: usize = 0;
    while k < items.len()
        invariant
            k <= items@.len(),
            r@.len() == k,
            forall|i: int| 0 <= i < k ==> r@[i]@ == items@[i]@,
        decreases items@.len() - k,
    {
        r.push(items[k].to_owned());
        k = k + 1;
    }
    r
}

} // verus!
