//! String helpers used throughout the crate, each with an exact specification.

use vstd::prelude::*;
use vstd::string::*;

verus! {

/// The decimal digits of `n`, most significant first, with no leading zeros (`0` is `"0"`).
pub open spec fn decimal(n: nat) -> Seq<char>
    decreases n,
{
    if n < 10 {
        seq![digit_char(n)]
    } else {
        decimal(n / 10).push(digit_char(n % 10))
    }
}

/// The ASCII character of a decimal digit.
pub open spec fn digit_char(d: nat) -> char {
    if d == 0 { '0' }
    else if d == 1 { '1' }
    else if d == 2 { '2' }
    else if d == 3 { '3' }
    else if d == 4 { '4' }
    else if d == 5 { '5' }
    else if d == 6 { '6' }
    else if d == 7 { '7' }
    else if d == 8 { '8' }
    else { '9' }
}

fn digit_str(d: u8) -> (r: &'static str)
    requires
        d < 10,
    ensures
        r@ == seq![digit_char(d as nat)],
{
    let digits = "0123456789";
    proof {
        reveal_strlit("0123456789");
    }
    digits.substring_char(d as usize, d as usize + 1)
}

/// Decimal representation of an unsigned integer.
pub fn u128_to_string(n: u128) -> (r: String)
    ensures
        r@ == decimal(n as nat),
    decreases n,
{
    if n < 10 {
        digit_str(n as u8).to_string()
    } else {
        let mut r = u128_to_string(n / 10);
        r.append(digit_str((n % 10) as u8));
        r
    }
}

/// Decimal representation of a `u64`.
pub fn u64_to_string(n: u64) -> (r: String)
    ensures
        r@ == decimal(n as nat),
{
    u128_to_string(n as u128)
}

/// Equality of two string slices.
pub fn str_eq(a: &str, b: &str) -> (r: bool)
    ensures
        r == (a@ == b@),
{
    a.to_string() == b.to_string()
}


/// The views of a sequence of strings.
pub open spec fn views(v: Seq<String>) -> Seq<Seq<char>> {
    v.map_values(|s: String| s@)
}

/// `parts` with `sep` between each two consecutive parts.
pub open spec fn join_with(parts: Seq<Seq<char>>, sep: Seq<char>) -> Seq<char>
    decreases parts.len(),
{
    if parts.len() == 0 {
        seq![]
    } else if parts.len() == 1 {
        parts[0]
    } else {
        join_with(parts.drop_last(), sep) + sep + parts.last()
    }
}

/// Join strings with a separator, like `[String]::join`.
pub fn join_strings(parts: &[String], sep: &str) -> (r: String)
    ensures
        r@ == join_with(views(parts@), sep@),
{
    let mut r = String::new();
    let n = parts.len();
    let mut i: usize = 0;
    while i < n
        invariant
            n == parts@.len(),
            i <= n,
            r@ == join_with(views(parts@.take(i as int)), sep@),
        decreases n - i,
    {
        if i != 0 {
            r.append(sep);
        }
        r.append(parts[i].as_str());
        proof {
            assert(views(parts@.take(i + 1)).drop_last() =~= views(parts@.take(i as int)));
            assert(views(parts@.take(i + 1)).last() == parts@[i as int]@);
        }
        i = i + 1;
    }
    assert(parts@.take(n as int) =~= parts@);
    r
}

/// The pieces of `s` between the occurrences of `d`, from left to right, as `str::split` gives
/// them (so there is always at least one piece, possibly empty).
pub open spec fn split_on(s: Seq<char>, d: char) -> Seq<Seq<char>>
    decreases s.len(),
{
    if s.len() == 0 {
        seq![seq![]]
    } else {
        let rest = split_on(s.drop_last(), d);
        if s.last() == d {
            rest.push(seq![])
        } else {
            rest.update(rest.len() - 1, rest.last().push(s.last()))
        }
    }
}

/// `split_on` always yields at least one piece.
pub proof fn lemma_split_on_nonempty(s: Seq<char>, d: char)
    ensures
        split_on(s, d).len() >= 1,
    decreases s.len(),
{
    if s.len() > 0 {
        lemma_split_on_nonempty(s.drop_last(), d);
    }
}

/// The non-empty elements of `ps`, in order.
pub open spec fn nonempty(ps: Seq<Seq<char>>) -> Seq<Seq<char>>
    decreases ps.len(),
{
    if ps.len() == 0 {
        seq![]
    } else if ps.last().len() == 0 {
        nonempty(ps.drop_last())
    } else {
        nonempty(ps.drop_last()).push(ps.last())
    }
}

/// Split a string at every occurrence of a character.
pub fn split_char(s: &str, d: char) -> (r: Vec<String>)
    ensures
        views(r@) == split_on(s@, d),
{
    let n = s.unicode_len();
    let mut pieces: Vec<String> = Vec::new();
    let mut start: usize = 0;
    let mut i: usize = 0;
    proof {
        assert(s@.take(0) =~= Seq::<char>::empty());
        assert(s@.subrange(0, 0) =~= Seq::<char>::empty());
        assert(views(pieces@).push(Seq::<char>::empty()) =~= seq![Seq::<char>::empty()]);
    }
    while i < n
        invariant
            n == s@.len(),
            start <= i <= n,
            views(pieces@).push(s@.subrange(start as int, i as int)) == split_on(
                s@.take(i as int),
                d,
            ),
        decreases n - i,
    {
        let c = s.get_char(i);
        proof {
            assert(s@.take(i + 1).drop_last() =~= s@.take(i as int));
            assert(s@.take(i + 1).last() == c);
            lemma_split_on_nonempty(s@.take(i as int), d);
        }
        if c == d {
            let piece = s.substring_char(start, i).to_string();
            pieces.push(piece);
            start = i + 1;
            proof {
                assert(views(pieces@) =~= views(pieces@.drop_last()).push(piece@));
                assert(s@.subrange(start as int, (i + 1) as int) =~= Seq::<char>::empty());
            }
        } else {
            proof {
                assert(s@.subrange(start as int, (i + 1) as int) =~= s@.subrange(
                    start as int,
                    i as int,
                ).push(c));
            }
        }
        i = i + 1;
    }
    let last = s.substring_char(start, n).to_string();
    pieces.push(last);
    proof {
        assert(views(pieces@) =~= views(pieces@.drop_last()).push(last@));
        assert(s@.take(n as int) =~= s@);
    }
    pieces
}

/// The elements of `pieces` that are not empty.
pub fn keep_nonempty(pieces: Vec<String>) -> (r: Vec<String>)
    ensures
        views(r@) == nonempty(views(pieces@)),
{
    let mut r: Vec<String> = Vec::new();
    let n = pieces.len();
    let mut i: usize = 0;
    while i < n
        invariant
            n == pieces@.len(),
            i <= n,
            views(r@) == nonempty(views(pieces@.take(i as int))),
        decreases n - i,
    {
        proof {
            assert(views(pieces@.take(i + 1)).drop_last() =~= views(pieces@.take(i as int)));
        }
        let p = pieces[i].clone();
        if p.unicode_len() != 0 {
            r.push(p);
            proof {
                assert(views(r@) =~= views(r@.drop_last()).push(p@));
            }
        }
        i = i + 1;
    }
    assert(pieces@.take(n as int) =~= pieces@);
    r
}


/// Why a string is not an unsigned integer, as the standard library reports it.
#[derive(Clone, Copy, Debug, PartialEq, Eq, Structural)]
pub enum IntErrorKind {
    Empty,
    InvalidDigit,
    PosOverflow,
}

impl IntErrorKind {
    /// The message the standard library gives for this error.
    pub open spec fn spec_message(self) -> Seq<char> {
        match self {
            IntErrorKind::Empty => "cannot parse integer from empty string"@,
            IntErrorKind::InvalidDigit => "invalid digit found in string"@,
            IntErrorKind::PosOverflow => "number too large to fit in target type"@,
        }
    }

    /// The message the standard library gives for this error.
    pub fn message(self) -> (r: String)
        ensures
            r@ == self.spec_message(),
    {
        match self {
            IntErrorKind::Empty => "cannot parse integer from empty string".to_string(),
            IntErrorKind::InvalidDigit => "invalid digit found in string".to_string(),
            IntErrorKind::PosOverflow => "number too large to fit in target type".to_string(),
        }
    }
}

/// The value of `c` as a digit in base `radix` (10 or 16), if it is one.
pub open spec fn digit_value(c: char, radix: nat) -> Option<nat> {
    let k = c as int;
    if '0' as int <= k <= '9' as int {
        Some((k - '0' as int) as nat)
    } else if radix == 16 && 'a' as int <= k <= 'f' as int {
        Some((k - 'a' as int + 10) as nat)
    } else if radix == 16 && 'A' as int <= k <= 'F' as int {
        Some((k - 'A' as int + 10) as nat)
    } else {
        None
    }
}

/// Reading digits from left to right, stopping at the first character that is not a digit or
/// at the first digit that takes the value above `max`.
pub open spec fn scan_digits(s: Seq<char>, radix: nat, max: nat) -> Result<nat, IntErrorKind>
    decreases s.len(),
{
    if s.len() == 0 {
        Ok(0)
    } else {
        match scan_digits(s.drop_last(), radix, max) {
            Err(e) => Err(e),
            Ok(v) => match digit_value(s.last(), radix) {
                None => Err(IntErrorKind::InvalidDigit),
                Some(d) => if v * radix + d > max {
                    Err(IntErrorKind::PosOverflow)
                } else {
                    Ok(v * radix + d)
                },
            },
        }
    }
}

/// Reading the decimal digits of a number gives the number back.
#[verifier::spinoff_prover]
pub proof fn lemma_scan_decimal(n: nat, max: nat)
    requires
        n <= max,
    ensures
        scan_digits(decimal(n), 10, max) == Ok::<nat, IntErrorKind>(n),
        decimal(n).len() > 0,
        digit_value(decimal(n)[0], 10) is Some,
    decreases n,
{
    if n < 10 {
        assert(decimal(n).drop_last() =~= Seq::<char>::empty());
        assert(digit_value(digit_char(n), 10) == Some(n));
    } else {
        lemma_scan_decimal(n / 10, max);
        let d = decimal(n);
        assert(d == decimal(n / 10).push(digit_char(n % 10)));
        assert(d.drop_last() =~= decimal(n / 10));
        assert(d.last() == digit_char(n % 10));
        assert(digit_value(digit_char(n % 10), 10) == Some(n % 10));
        assert((n / 10) * 10 + n % 10 == n);
        assert(scan_digits(d, 10, max) == Ok::<nat, IntErrorKind>(n));
        assert(d[0] == decimal(n / 10)[0]);
    }
}

/// Parsing the decimal digits of a number gives the number back.
pub proof fn lemma_parse_decimal(n: nat, max: nat)
    requires
        n <= max,
    ensures
        parse_uint(decimal(n), 10, max) == Ok::<nat, IntErrorKind>(n),
{
    lemma_scan_decimal(n, max);
    if decimal(n).len() == 1 {
        assert(decimal(n)[0] != '+' && decimal(n)[0] != '-');
    }
    assert(decimal(n)[0] != '+');
}

/// Parsing an unsigned integer of at most `max` in base `radix`, as `from_str_radix` does for
/// unsigned types: an optional leading `+`, then at least one digit.
pub open spec fn parse_uint(s: Seq<char>, radix: nat, max: nat) -> Result<nat, IntErrorKind> {
    if s.len() == 0 {
        Err(IntErrorKind::Empty)
    } else if s.len() == 1 && (s[0] == '+' || s[0] == '-') {
        Err(IntErrorKind::InvalidDigit)
    } else if s[0] == '+' {
        scan_digits(s.skip(1), radix, max)
    } else {
        scan_digits(s, radix, max)
    }
}

fn digit_of(c: char, radix: u32) -> (r: Option<u32>)
    requires
        radix == 10 || radix == 16,
    ensures
        match digit_value(c, radix as nat) {
            Some(d) => r == Some(d as u32),
            None => r.is_none(),
        },
{
    let k = c as u32;
    if '0' as u32 <= k && k <= '9' as u32 {
        Some(k - '0' as u32)
    } else if radix == 16 && 'a' as u32 <= k && k <= 'f' as u32 {
        Some(k - 'a' as u32 + 10)
    } else if radix == 16 && 'A' as u32 <= k && k <= 'F' as u32 {
        Some(k - 'A' as u32 + 10)
    } else {
        None
    }
}

fn scan_digits_exec(s: &str, from: usize, radix: u32, max: u128) -> (r: Result<u128, IntErrorKind>)
    requires
        radix == 10 || radix == 16,
        from <= s@.len(),
        max >= 16,
    ensures
        match scan_digits(s@.skip(from as int), radix as nat, max as nat) {
            Ok(v) => r == Ok::<u128, IntErrorKind>(v as u128),
            Err(e) => r == Err::<u128, IntErrorKind>(e),
        },
{
    let n = s.unicode_len();
    let mut v: u128 = 0;
    let mut i: usize = from;
    proof {
        assert(s@.skip(from as int).take(0) =~= Seq::<char>::empty());
    }
    while i < n
        invariant
            n == s@.len(),
            from <= i <= n,
            radix == 10 || radix == 16,
            max >= 16,
            v <= max,
            scan_digits(s@.skip(from as int).take(i - from), radix as nat, max as nat) == Ok::<
                nat,
                IntErrorKind,
            >(v as nat),
        decreases n - i,
    {
        let c = s.get_char(i);
        let ghost t = s@.skip(from as int).take(i + 1 - from);
        proof {
            assert(t.drop_last() =~= s@.skip(from as int).take(i - from));
            assert(t.last() == c);
        }
        match digit_of(c, radix) {
            None => {
                proof {
                    lemma_scan_digits_stops(s@.skip(from as int), (i + 1 - from) as int, radix as nat, max as nat);
                }
                return Err(IntErrorKind::InvalidDigit);
            },
            Some(d) => {
                let too_big = v > (max - d as u128) / radix as u128;
                proof {
                    lemma_overflow_test(v as nat, radix as nat, d as nat, max as nat);
                }
                if too_big {
                    proof {
                        lemma_scan_digits_stops(s@.skip(from as int), (i + 1 - from) as int, radix as nat, max as nat);
                    }
                    return Err(IntErrorKind::PosOverflow);
                }
                v = v * radix as u128 + d as u128;
            },
        }
        i = i + 1;
    }
    proof {
        assert(s@.skip(from as int).take(n - from) =~= s@.skip(from as int));
    }
    Ok(v)
}

proof fn lemma_overflow_test(v: nat, radix: nat, d: nat, max: nat)
    requires
        radix == 10 || radix == 16,
        d < 16,
        max >= 16,
        v <= max,
    ensures
        (v > (max - d) / (radix as int)) <==> (v * radix + d > max),
{
    assert((v > (max - d) / (radix as int)) <==> (v * radix + d > max)) by (nonlinear_arith)
        requires
            radix > 0,
            d <= max,
    ;
}

/// Once the scan of a prefix fails, the scan of the whole string fails the same way.
proof fn lemma_scan_digits_stops(s: Seq<char>, k: int, radix: nat, max: nat)
    requires
        0 < k <= s.len(),
        scan_digits(s.take(k), radix, max) is Err,
    ensures
        scan_digits(s, radix, max) == scan_digits(s.take(k), radix, max),
    decreases s.len(),
{
    if k < s.len() {
        assert(s.drop_last().take(k) =~= s.take(k));
        lemma_scan_digits_stops(s.drop_last(), k, radix, max);
    } else {
        assert(s.take(k) =~= s);
    }
}

/// Parse an unsigned integer no larger than `max`, in base 10 or 16, as the standard library's
/// `from_str_radix` does.
pub fn parse_uint_exec(s: &str, radix: u32, max: u128) -> (r: Result<u128, IntErrorKind>)
    requires
        radix == 10 || radix == 16,
        max >= 16,
    ensures
        match parse_uint(s@, radix as nat, max as nat) {
            Ok(v) => r == Ok::<u128, IntErrorKind>(v as u128),
            Err(e) => r == Err::<u128, IntErrorKind>(e),
        },
{
    let n = s.unicode_len();
    if n == 0 {
        return Err(IntErrorKind::Empty);
    }
    let c = s.get_char(0);
    if n == 1 && (c == '+' || c == '-') {
        return Err(IntErrorKind::InvalidDigit);
    }
    if c == '+' {
        scan_digits_exec(s, 1, radix, max)
    } else {
        proof {
            assert(s@.skip(0) =~= s@);
        }
        scan_digits_exec(s, 0, radix, max)
    }
}

/// Parsing a boolean as the standard library does: exactly `true` or `false`.
pub open spec fn parse_bool(s: Seq<char>) -> Option<bool> {
    if s == "true"@ {
        Some(true)
    } else if s == "false"@ {
        Some(false)
    } else {
        None
    }
}

/// The message of the standard library's error for a string that is not a boolean.
pub open spec fn bool_error_message() -> Seq<char> {
    "provided string was not `true` or `false`"@
}

/// Parse a boolean as the standard library does.
pub fn parse_bool_exec(s: &str) -> (r: Option<bool>)
    ensures
        r == parse_bool(s@),
{
    if str_eq(s, "true") {
        Some(true)
    } else if str_eq(s, "false") {
        Some(false)
    } else {
        None
    }
}

/// The message of the standard library's error for a string that is not a boolean.
pub fn bool_error_message_exec() -> (r: String)
    ensures
        r@ == bool_error_message(),
{
    "provided string was not `true` or `false`".to_string()
}


/// `s` without its first character if that is `c`, as `str::strip_prefix` gives it, else `s`.
pub open spec fn strip_prefix_char(s: Seq<char>, c: char) -> Seq<char> {
    if s.len() > 0 && s[0] == c {
        s.skip(1)
    } else {
        s
    }
}

/// `s` without its last character if that is `c`, else `s`.
pub open spec fn strip_suffix_char(s: Seq<char>, c: char) -> Seq<char> {
    if s.len() > 0 && s.last() == c {
        s.drop_last()
    } else {
        s
    }
}

/// Remove one leading occurrence of `c`, if there is one.
pub fn strip_prefix_exec(s: &str, c: char) -> (r: String)
    ensures
        r@ == strip_prefix_char(s@, c),
{
    let n = s.unicode_len();
    if n > 0 && s.get_char(0) == c {
        s.substring_char(1, n).to_string()
    } else {
        proof {
            assert(s@.subrange(0, n as int) =~= s@);
        }
        s.substring_char(0, n).to_string()
    }
}

/// Remove one trailing occurrence of `c`, if there is one.
pub fn strip_suffix_exec(s: &str, c: char) -> (r: String)
    ensures
        r@ == strip_suffix_char(s@, c),
{
    let n = s.unicode_len();
    if n > 0 && s.get_char(n - 1) == c {
        proof {
            assert(s@.subrange(0, n - 1) =~= s@.drop_last());
        }
        s.substring_char(0, n - 1).to_string()
    } else {
        proof {
            assert(s@.subrange(0, n as int) =~= s@);
        }
        s.substring_char(0, n).to_string()
    }
}

/// Copy of the strings of `parts` from index `from` on.
pub fn tail_strings(parts: &[String], from: usize) -> (r: Vec<String>)
    requires
        from <= parts@.len(),
    ensures
        views(r@) == views(parts@).skip(from as int),
{
    let mut r: Vec<String> = Vec::new();
    let n = parts.len();
    let mut i = from;
    while i < n
        invariant
            n == parts@.len(),
            from <= i <= n,
            views(r@) == views(parts@).subrange(from as int, i as int),
        decreases n - i,
    {
        let p = parts[i].clone();
        let ghost old_r = r@;
        r.push(p);
        proof {
            assert(r@ =~= old_r.push(p));
            assert(views(r@) =~= views(old_r).push(p@));
            assert(views(r@) =~= views(parts@).subrange(from as int, i + 1));
        }
        i = i + 1;
    }
    proof {
        assert(views(parts@).subrange(from as int, n as int) =~= views(parts@).skip(from as int));
    }
    r
}

/// Copy of a list of strings.
pub fn clone_strings(parts: &[String]) -> (r: Vec<String>)
    ensures
        views(r@) == views(parts@),
        r@.len() == parts@.len(),
{
    let r = tail_strings(parts, 0);
    proof {
        assert(views(parts@).skip(0) =~= views(parts@));
    }
    r
}


/// `s` with every occurrence of `pat` replaced by `rep`, the occurrences taken from left to
/// right without overlap, as `str::replace` does.
pub open spec fn replace_all(s: Seq<char>, pat: Seq<char>, rep: Seq<char>) -> Seq<char>
    decreases s.len(),
{
    if s.len() == 0 || pat.len() == 0 {
        s
    } else if pat.len() <= s.len() && s.take(pat.len() as int) == pat {
        rep + replace_all(s.skip(pat.len() as int), pat, rep)
    } else {
        seq![s[0]] + replace_all(s.skip(1), pat, rep)
    }
}

/// Replace every occurrence of a non-empty pattern.
pub fn replace_str(s: &str, pat: &str, rep: &str) -> (r: String)
    requires
        pat@.len() > 0,
    ensures
        r@ == replace_all(s@, pat@, rep@),
{
    let n = s.unicode_len();
    let m = pat.unicode_len();
    let mut r = String::new();
    let mut i: usize = 0;
    proof {
        assert(s@.skip(0) =~= s@);
    }
    while i < n
        invariant
            n == s@.len(),
            m == pat@.len(),
            m > 0,
            i <= n,
            r@ + replace_all(s@.skip(i as int), pat@, rep@) == replace_all(s@, pat@, rep@),
        decreases n - i,
    {
        let ghost rest = s@.skip(i as int);
        if m <= n - i && str_eq(s.substring_char(i, i + m), pat) {
            proof {
                assert(rest.take(m as int) =~= s@.subrange(i as int, (i + m) as int));
                assert(rest.skip(m as int) =~= s@.skip((i + m) as int));
                assert(replace_all(rest, pat@, rep@) == rep@ + replace_all(
                    rest.skip(m as int),
                    pat@,
                    rep@,
                ));
            }
            let ghost old_r = r@;
            r.append(rep);
            proof {
                assert(old_r + (rep@ + replace_all(s@.skip((i + m) as int), pat@, rep@)) =~= r@
                    + replace_all(s@.skip((i + m) as int), pat@, rep@));
            }
            i = i + m;
        } else {
            proof {
                if m <= n - i {
                    assert(rest.take(m as int) =~= s@.subrange(i as int, (i + m) as int));
                }
                assert(rest.skip(1) =~= s@.skip((i + 1) as int));
                assert(rest[0] == s@[i as int]);
                assert(replace_all(rest, pat@, rep@) == seq![rest[0]] + replace_all(
                    rest.skip(1),
                    pat@,
                    rep@,
                ));
            }
            let ghost old_r = r@;
            r.append(s.substring_char(i, i + 1));
            proof {
                assert(s@.subrange(i as int, (i + 1) as int) =~= seq![s@[i as int]]);
                assert(old_r + (seq![s@[i as int]] + replace_all(
                    s@.skip((i + 1) as int),
                    pat@,
                    rep@,
                )) =~= r@ + replace_all(s@.skip((i + 1) as int), pat@, rep@));
            }
            i = i + 1;
        }
    }
    proof {
        assert(s@.skip(n as int) =~= Seq::<char>::empty());
        assert(r@ + Seq::<char>::empty() =~= r@);
    }
    r
}


/// Whether `pat` occurs in `s`.
pub open spec fn occurs_in(s: Seq<char>, pat: Seq<char>) -> bool {
    exists|i: int| 0 <= i && i + pat.len() <= s.len() && #[trigger] s.subrange(i, i + pat.len()) == pat
}

/// Whether `pat` occurs in `s`.
pub fn contains_str(s: &str, pat: &str) -> (r: bool)
    ensures
        r == occurs_in(s@, pat@),
{
    let n = s.unicode_len();
    let m = pat.unicode_len();
    if m > n {
        return false;
    }
    if m == 0 {
        assert(s@.subrange(0, 0 + pat@.len() as int) =~= pat@);
        return true;
    }
    let mut i: usize = 0;
    while i <= n - m
        invariant
            n == s@.len(),
            m == pat@.len(),
            0 < m <= n,
            i <= n - m + 1,
            forall|j: int| 0 <= j < i ==> #[trigger] s@.subrange(j, j + pat@.len()) != pat@,
        decreases n - m + 1 - i,
    {
        if str_eq(s.substring_char(i, i + m), pat) {
            return true;
        }
        i = i + 1;
    }
    proof {
        assert forall|j: int| 0 <= j && j + pat@.len() <= s@.len() implies #[trigger] s@.subrange(
            j,
            j + pat@.len(),
        ) != pat@ by {
            assert(j < i);
        }
    }
    false
}


/// `s` without the prefix `p` if it starts with it, as `str::strip_prefix` gives it, else `s`.
pub open spec fn strip_prefix_seq(s: Seq<char>, p: Seq<char>) -> Seq<char> {
    if p.len() <= s.len() && s.take(p.len() as int) == p {
        s.skip(p.len() as int)
    } else {
        s
    }
}

/// `s` without the suffix `p` if it ends with it, else `s`.
pub open spec fn strip_suffix_seq(s: Seq<char>, p: Seq<char>) -> Seq<char> {
    if p.len() <= s.len() && s.skip(s.len() - p.len()) == p {
        s.take(s.len() - p.len())
    } else {
        s
    }
}

/// Remove a prefix, if the string starts with it.
pub fn strip_prefix_str(s: &str, p: &str) -> (r: String)
    ensures
        r@ == strip_prefix_seq(s@, p@),
{
    let n = s.unicode_len();
    let m = p.unicode_len();
    if m <= n && str_eq(s.substring_char(0, m), p) {
        proof {
            assert(s@.subrange(0, m as int) =~= s@.take(m as int));
            assert(s@.subrange(m as int, n as int) =~= s@.skip(m as int));
        }
        s.substring_char(m, n).to_string()
    } else {
        proof {
            if m <= n {
                assert(s@.subrange(0, m as int) =~= s@.take(m as int));
            }
            assert(s@.subrange(0, n as int) =~= s@);
        }
        s.substring_char(0, n).to_string()
    }
}

/// Remove a suffix, if the string ends with it.
pub fn strip_suffix_str(s: &str, p: &str) -> (r: String)
    ensures
        r@ == strip_suffix_seq(s@, p@),
{
    let n = s.unicode_len();
    let m = p.unicode_len();
    if m <= n && str_eq(s.substring_char(n - m, n), p) {
        proof {
            assert(s@.subrange(n - m, n as int) =~= s@.skip(n - m));
            assert(s@.subrange(0, n - m) =~= s@.take(n - m));
        }
        s.substring_char(0, n - m).to_string()
    } else {
        proof {
            if m <= n {
                assert(s@.subrange(n - m, n as int) =~= s@.skip(n - m));
            }
            assert(s@.subrange(0, n as int) =~= s@);
        }
        s.substring_char(0, n).to_string()
    }
}

/// Whether every character of a text is ASCII.
pub open spec fn ascii_text(s: Seq<char>) -> bool {
    forall|i: int| 0 <= i < s.len() ==> (#[trigger] s[i] as u32) < 128
}

/// Whether every character of a text is ASCII.
pub fn is_ascii_text(s: &str) -> (r: bool)
    ensures
        r == ascii_text(s@),
{
    let n = s.unicode_len();
    let mut i: usize = 0;
    while i < n
        invariant
            n == s@.len(),
            i <= n,
            forall|k: int| 0 <= k < i ==> (#[trigger] s@[k] as u32) < 128,
        decreases n - i,
    {
        let c = s.get_char(i);
        if c as u32 >= 128 {
            return false;
        }
        i = i + 1;
    }
    true
}

/// A text with every leading `c` removed.
pub open spec fn trim_leading(s: Seq<char>, c: char) -> Seq<char>
    decreases s.len(),
{
    if s.len() > 0 && s[0] == c {
        trim_leading(s.drop_first(), c)
    } else {
        s
    }
}

/// A text with every trailing `c` removed.
pub open spec fn trim_trailing(s: Seq<char>, c: char) -> Seq<char>
    decreases s.len(),
{
    if s.len() > 0 && s.last() == c {
        trim_trailing(s.drop_last(), c)
    } else {
        s
    }
}

/// What trimming leading characters leaves does not start with one.
pub proof fn lemma_trim_leading(s: Seq<char>, c: char)
    ensures
        trim_leading(s, c).len() == 0 || trim_leading(s, c)[0] != c,
    decreases s.len(),
{
    if s.len() > 0 && s[0] == c {
        lemma_trim_leading(s.drop_first(), c);
    }
}

/// What trimming trailing characters leaves is a prefix of the text that does not end with one.
pub proof fn lemma_trim_trailing(s: Seq<char>, c: char)
    ensures
        trim_trailing(s, c).len() <= s.len(),
        trim_trailing(s, c) == s.take(trim_trailing(s, c).len() as int),
        trim_trailing(s, c).len() == 0 || trim_trailing(s, c).last() != c,
    decreases s.len(),
{
    if s.len() > 0 && s.last() == c {
        lemma_trim_trailing(s.drop_last(), c);
        let t = trim_trailing(s.drop_last(), c);
        assert(s.drop_last().take(t.len() as int) =~= s.take(t.len() as int));
    } else {
        assert(s.take(s.len() as int) =~= s);
    }
}

/// A text with every leading `c` removed.
pub fn trim_start_char(s: &str, c: char) -> (r: String)
    ensures
        r@ == trim_leading(s@, c),
{
    let n = s.unicode_len();
    let mut i: usize = 0;
    proof {
        assert(s@.skip(0) =~= s@);
    }
    while i < n && s.get_char(i) == c
        invariant
            n == s@.len(),
            i <= n,
            trim_leading(s@, c) == trim_leading(s@.skip(i as int), c),
        decreases n - i,
    {
        proof {
            assert(s@.skip(i as int).drop_first() =~= s@.skip(i + 1));
        }
        i = i + 1;
    }
    proof {
        assert(s@.subrange(i as int, n as int) =~= s@.skip(i as int));
    }
    s.substring_char(i, n).to_string()
}

/// A text with every trailing `c` removed.
pub fn trim_end_char(s: &str, c: char) -> (r: String)
    ensures
        r@ == trim_trailing(s@, c),
{
    let n = s.unicode_len();
    let mut j: usize = n;
    proof {
        assert(s@.take(n as int) =~= s@);
    }
    while j > 0 && s.get_char(j - 1) == c
        invariant
            n == s@.len(),
            j <= n,
            trim_trailing(s@, c) == trim_trailing(s@.take(j as int), c),
        decreases j,
    {
        proof {
            assert(s@.take(j as int).drop_last() =~= s@.take(j - 1));
        }
        j = j - 1;
    }
    proof {
        assert(s@.subrange(0, j as int) =~= s@.take(j as int));
    }
    s.substring_char(0, j).to_string()
}

} // verus!
