//! Text helpers shared by the wire protocols: character access, searching
//! and splitting on a delimiter, and unsigned decimal numbers.
//!
//! All specifications are stated over `Seq<char>`, the view of a string.

use vstd::prelude::*;

verus! {

/// Appends one character to a string.
pub assume_specification[ String::push ](s: &mut String, c: char)
    ensures
        final(s)@ == old(s)@.push(c),
;

/// The characters of `s`, in order.
#[verifier::loop_isolation(false)]
pub fn chars_of(s: &str) -> (v: Vec<char>)
    ensures
        v@ == s@,
{
    let mut v: Vec<char> = Vec::new();
    let chars_it = s.chars();
    for c in it: chars_it
        invariant
            it.seq() == s@,
            v@ == it.seq().take(it.index() as int),
    {
        v.push(c);
    }
    assert(v@ == s@);
    v
}

/// The string made of the characters `cs[from..to]`.
pub fn string_of(cs: &Vec<char>, from: usize, to: usize) -> (s: String)
    requires
        from <= to <= cs.len(),
    ensures
        s@ == cs@.subrange(from as int, to as int),
{
    let mut s = String::new();
    let mut i: usize = from;
    while i < to
        invariant
            from <= i <= to <= cs.len(),
            s@ == cs@.subrange(from as int, i as int),
        decreases to - i,
    {
        s.push(cs[i]);
        i += 1;
        assert(s@ == cs@.subrange(from as int, i as int));
    }
    s
}

/// The string made of the characters of `cs`.
pub fn to_string(cs: &Vec<char>) -> (s: String)
    ensures
        s@ == cs@,
{
    let s = string_of(cs, 0, cs.len());
    assert(cs@.subrange(0, cs@.len() as int) == cs@);
    s
}

/// Appends the characters of `cs` to `out`.
pub fn append_chars(out: &mut String, cs: &Vec<char>)
    ensures
        final(out)@ == old(out)@ + cs@,
{
    let mut i: usize = 0;
    while i < cs.len()
        invariant
            i <= cs.len(),
            out@ == old(out)@ + cs@.take(i as int),
        decreases cs.len() - i,
    {
        out.push(cs[i]);
        i += 1;
        assert(out@ == old(out)@ + cs@.take(i as int));
    }
    assert(cs@.take(cs@.len() as int) == cs@);
}

/// Whether `pat` stands in `s` at index `i`.
pub open spec fn occurs_at(s: Seq<char>, pat: Seq<char>, i: int) -> bool {
    0 <= i && i + pat.len() <= s.len() && s.subrange(i, i + pat.len()) == pat
}

/// Whether `i` is the leftmost index at which `pat` stands in `s`.
pub open spec fn is_first_occurrence(s: Seq<char>, pat: Seq<char>, i: int) -> bool {
    occurs_at(s, pat, i) && forall|j: int| 0 <= j < i ==> !occurs_at(s, pat, j)
}

/// The leftmost index at which `pat` stands in `s`, if it stands anywhere.
pub open spec fn first_occurrence(s: Seq<char>, pat: Seq<char>) -> Option<int> {
    if exists|i: int| is_first_occurrence(s, pat, i) {
        Some(choose|i: int| is_first_occurrence(s, pat, i))
    } else {
        None
    }
}

/// The pieces of `s` between successive, non-overlapping occurrences of the
/// delimiter `pat`, found from the left. A string without the delimiter is
/// its own single piece, and so is any string where the delimiter is empty;
/// pieces may be empty.
pub open spec fn split_on(s: Seq<char>, pat: Seq<char>) -> Seq<Seq<char>>
    decreases s.len(),
{
    match first_occurrence(s, pat) {
        // The guard repeats what `first_occurrence` promises, so that the
        // recursion is seen to shorten `s`.
        Some(i) if pat.len() > 0 && occurs_at(s, pat, i) => seq![s.take(i)] + split_on(
            s.skip(i + pat.len()),
            pat,
        ),
        _ => seq![s],
    }
}

/// A leftmost occurrence is the first occurrence.
pub proof fn lemma_first_occurrence(s: Seq<char>, pat: Seq<char>, i: int)
    requires
        is_first_occurrence(s, pat, i),
    ensures
        first_occurrence(s, pat) == Some(i),
{
    let c = choose|c: int| is_first_occurrence(s, pat, c);
    assert(is_first_occurrence(s, pat, c));
    if c < i {
        assert(occurs_at(s, pat, c));
    } else if i < c {
        assert(occurs_at(s, pat, i));
    }
}

/// Without any occurrence there is no first one.
pub proof fn lemma_no_occurrence(s: Seq<char>, pat: Seq<char>)
    requires
        forall|j: int| !occurs_at(s, pat, j),
    ensures
        first_occurrence(s, pat) is None,
        split_on(s, pat) == seq![s],
{
    assert forall|i: int| !is_first_occurrence(s, pat, i) by {
        assert(!occurs_at(s, pat, i));
    }
}

/// Occurrences in a suffix are the occurrences of the whole, shifted.
pub proof fn lemma_occurs_in_suffix(s: Seq<char>, pat: Seq<char>, start: int, i: int)
    requires
        0 <= start <= s.len(),
        0 <= i,
    ensures
        occurs_at(s.skip(start), pat, i) == occurs_at(s, pat, start + i),
{
    if i + pat.len() <= s.len() - start {
        assert(s.skip(start).subrange(i, i + pat.len()) == s.subrange(
            start + i,
            start + i + pat.len(),
        ));
    }
}

/// Whether `pat` stands in `s` at index `i`.
pub fn matches_at(s: &Vec<char>, pat: &Vec<char>, i: usize) -> (b: bool)
    ensures
        b == occurs_at(s@, pat@, i as int),
{
    if pat.len() > s.len() || i > s.len() - pat.len() {
        return false;
    }
    let mut k: usize = 0;
    while k < pat.len()
        invariant
            k <= pat.len(),
            i + pat.len() <= s.len(),
            forall|m: int| 0 <= m < k ==> s@[i + m] == pat@[m],
        decreases pat.len() - k,
    {
        if s[i + k] != pat[k] {
            assert(s@.subrange(i as int, i + pat.len())[k as int] != pat@[k as int]);
            return false;
        }
        k += 1;
    }
    assert(s@.subrange(i as int, i + pat.len()) =~= pat@);
    true
}

/// Whether `s` begins with `prefix`.
pub fn starts_with(s: &Vec<char>, prefix: &Vec<char>) -> (b: bool)
    ensures
        b == prefix@.is_prefix_of(s@),
{
    let b = matches_at(s, prefix, 0);
    proof {
        if prefix@.len() <= s@.len() {
            assert(s@.subrange(0, prefix@.len() as int) =~= s@.take(prefix@.len() as int));
        }
        if prefix@.is_prefix_of(s@) {
            assert(s@.subrange(0, prefix@.len() as int) =~= prefix@);
        }
    }
    b
}

/// Whether `a` and `b` hold the same characters.
pub fn same_text(a: &Vec<char>, b: &Vec<char>) -> (r: bool)
    ensures
        r == (a@ == b@),
{
    if a.len() != b.len() {
        return false;
    }
    let r = matches_at(a, b, 0);
    assert(a@.subrange(0, a@.len() as int) == a@);
    r
}

/// The leftmost occurrence of `pat` in `s` at or after `from`.
pub fn find(s: &Vec<char>, pat: &Vec<char>, from: usize) -> (r: Option<usize>)
    requires
        from <= s.len(),
    ensures
        match r {
            Some(i) => from <= i && occurs_at(s@, pat@, i as int) && forall|j: int|
                from <= j < i ==> !occurs_at(s@, pat@, j),
            None => forall|j: int| from <= j ==> !occurs_at(s@, pat@, j),
        },
{
    let mut i: usize = from;
    while i < s.len()
        invariant
            from <= i <= s.len(),
            forall|j: int| from <= j < i ==> !occurs_at(s@, pat@, j),
        decreases s.len() - i,
    {
        if matches_at(s, pat, i) {
            return Some(i);
        }
        i += 1;
    }
    if matches_at(s, pat, i) {
        return Some(i);
    }
    None
}

/// The characters `s[from..to]`.
pub fn copy_range(s: &Vec<char>, from: usize, to: usize) -> (r: Vec<char>)
    requires
        from <= to <= s.len(),
    ensures
        r@ == s@.subrange(from as int, to as int),
{
    let mut r: Vec<char> = Vec::new();
    let mut i: usize = from;
    while i < to
        invariant
            from <= i <= to <= s.len(),
            r@ == s@.subrange(from as int, i as int),
        decreases to - i,
    {
        r.push(s[i]);
        i += 1;
        assert(r@ == s@.subrange(from as int, i as int));
    }
    r
}

/// The views of a list of character vectors.
pub open spec fn views(pieces: Seq<Vec<char>>) -> Seq<Seq<char>> {
    pieces.map_values(|p: Vec<char>| p@)
}

/// Splits `s` on the delimiter `pat`. An empty delimiter splits nothing.
pub fn split(s: &Vec<char>, pat: &Vec<char>) -> (pieces: Vec<Vec<char>>)
    ensures
        views(pieces@) == split_on(s@, pat@),
{
    let mut pieces: Vec<Vec<char>> = Vec::new();
    if pat.len() == 0 {
        pieces.push(copy_range(s, 0, s.len()));
        assert(s@.subrange(0, s@.len() as int) == s@);
        assert(views(pieces@) == seq![s@]);
        return pieces;
    }
    let mut start: usize = 0;
    proof {
        assert(s@.skip(0) == s@);
        assert(views(pieces@) + split_on(s@, pat@) == split_on(s@, pat@));
    }
    loop
        invariant
            pat.len() > 0,
            start <= s.len(),
            split_on(s@, pat@) == views(pieces@) + split_on(s@.skip(start as int), pat@),
        decreases s.len() - start,
    {
        let ghost rest = s@.skip(start as int);
        let ghost done = views(pieces@);
        match find(s, pat, start) {
            Some(i) => {
                proof {
                    assert forall|j: int| 0 <= j < i - start implies !occurs_at(rest, pat@, j) by {
                        lemma_occurs_in_suffix(s@, pat@, start as int, j);
                    }
                    lemma_occurs_in_suffix(s@, pat@, start as int, i - start);
                    lemma_first_occurrence(rest, pat@, i - start);
                    assert(rest.take(i - start) == s@.subrange(start as int, i as int));
                    assert(rest.skip(i - start + pat@.len()) == s@.skip(i + pat@.len()));
                }
                pieces.push(copy_range(s, start, i));
                proof {
                    assert(views(pieces@) == done + seq![rest.take(i - start)]);
                }
                start = i + pat.len();
            },
            None => {
                proof {
                    assert forall|j: int| !occurs_at(rest, pat@, j) by {
                        if 0 <= j {
                            lemma_occurs_in_suffix(s@, pat@, start as int, j);
                        }
                    }
                    lemma_no_occurrence(rest, pat@);
                    assert(rest == s@.subrange(start as int, s@.len() as int));
                }
                pieces.push(copy_range(s, start, s.len()));
                proof {
                    assert(views(pieces@) == done + seq![rest]);
                }
                return pieces;
            },
        }
    }
}

/// The value of `c` where it is one of the ten decimal digits.
pub open spec fn digit_of(c: char) -> Option<nat> {
    if c == '0' {
        Some(0)
    } else if c == '1' {
        Some(1)
    } else if c == '2' {
        Some(2)
    } else if c == '3' {
        Some(3)
    } else if c == '4' {
        Some(4)
    } else if c == '5' {
        Some(5)
    } else if c == '6' {
        Some(6)
    } else if c == '7' {
        Some(7)
    } else if c == '8' {
        Some(8)
    } else if c == '9' {
        Some(9)
    } else {
        None
    }
}

/// Whether `c` is one of the ten decimal digits.
pub open spec fn is_digit(c: char) -> bool {
    digit_of(c) is Some
}

/// The value of a decimal digit, and 0 for any other character.
pub open spec fn digit_value(c: char) -> nat {
    match digit_of(c) {
        Some(d) => d,
        None => 0,
    }
}

fn read_digit(c: char) -> (r: Option<u64>)
    ensures
        match r {
            Some(d) => digit_of(c) == Some(d as nat) && d < 10,
            None => digit_of(c) is None,
        },
{
    if c == '0' {
        Some(0)
    } else if c == '1' {
        Some(1)
    } else if c == '2' {
        Some(2)
    } else if c == '3' {
        Some(3)
    } else if c == '4' {
        Some(4)
    } else if c == '5' {
        Some(5)
    } else if c == '6' {
        Some(6)
    } else if c == '7' {
        Some(7)
    } else if c == '8' {
        Some(8)
    } else if c == '9' {
        Some(9)
    } else {
        None
    }
}

/// The number that a string of decimal digits writes.
pub open spec fn digits_value(s: Seq<char>) -> nat
    decreases s.len(),
{
    if s.len() == 0 {
        0
    } else {
        digits_value(s.drop_last()) * 10 + digit_value(s.last())
    }
}

/// Whether every character of `s` is a decimal digit.
pub open spec fn all_digits(s: Seq<char>) -> bool {
    forall|i: int| 0 <= i < s.len() ==> is_digit(#[trigger] s[i])
}

/// The number that `s` writes as an unsigned decimal: an optional `+`, then
/// one digit or more. Anything else writes no number.
pub open spec fn unsigned_decimal(s: Seq<char>) -> Option<nat> {
    let digits = if s.len() > 0 && s[0] == '+' {
        s.skip(1)
    } else {
        s
    };
    if digits.len() > 0 && all_digits(digits) {
        Some(digits_value(digits))
    } else {
        None
    }
}

/// The number that `s` writes, where it writes one that does not exceed `max`.
pub open spec fn bounded_decimal(s: Seq<char>, max: nat) -> Option<nat> {
    match unsigned_decimal(s) {
        Some(n) if n <= max => Some(n),
        _ => None,
    }
}

/// Reads `s[from..]` as a run of decimal digits; a number above `cap` is
/// given as `cap`.
fn parse_digits(s: &Vec<char>, from: usize, cap: u64) -> (r: Option<u64>)
    requires
        from <= s.len(),
    ensures
        r is Some <==> (from < s.len() && all_digits(s@.skip(from as int))),
        r matches Some(n) ==> n == capped(digits_value(s@.skip(from as int)), cap as nat),
{
    let ghost digits = s@.skip(from as int);
    if from == s.len() {
        return None;
    }
    let mut acc: u64 = 0;
    let mut over = false;
    let mut i: usize = from;
    while i < s.len()
        invariant
            from <= i <= s.len(),
            digits == s@.skip(from as int),
            all_digits(digits.take(i - from)),
            over ==> digits_value(digits.take(i - from)) > cap,
            !over ==> acc == digits_value(digits.take(i - from)) && acc <= cap,
        decreases s.len() - i,
    {
        let c = s[i];
        assert(digits[i - from] == c);
        let d: u64 = match read_digit(c) {
            Some(d) => d,
            None => {
                assert(!is_digit(digits[i - from]));
                return None;
            },
        };
        proof {
            assert(digits.take(i - from + 1).drop_last() == digits.take(i - from));
            assert(digits.take(i - from + 1).last() == c);
            assert(digits_value(digits.take(i - from + 1)) == digits_value(
                digits.take(i - from),
            ) * 10 + d);
        }
        if !over {
            if d > cap || acc > (cap - d) / 10 {
                over = true;
            } else {
                acc = acc * 10 + d;
            }
        }
        i += 1;
        assert(all_digits(digits.take(i - from))) by {
            assert forall|k: int| 0 <= k < i - from implies is_digit(
                #[trigger] digits.take(i - from)[k],
            ) by {
                if k < i - from - 1 {
                    assert(is_digit(digits.take(i - from - 1)[k]));
                }
            }
        }
    }
    assert(digits.take(i - from) == digits);
    if over {
        Some(cap)
    } else {
        Some(acc)
    }
}

/// The smaller of `n` and `cap`.
pub open spec fn capped(n: nat, cap: nat) -> nat {
    if n <= cap {
        n
    } else {
        cap
    }
}

/// Reads `s` as an unsigned decimal; a number above `cap` is given as `cap`.
pub fn parse_capped(s: &Vec<char>, cap: u64) -> (r: Option<u64>)
    ensures
        match r {
            Some(n) => unsigned_decimal(s@) matches Some(m) && n == capped(m, cap as nat),
            None => unsigned_decimal(s@) is None,
        },
{
    let from: usize = if s.len() > 0 && s[0] == '+' {
        1
    } else {
        0
    };
    proof {
        if from == 0 {
            assert(s@.skip(0) == s@);
        }
    }
    parse_digits(s, from, cap)
}

/// Reads `s` as an unsigned decimal that fits in 32 bits.
pub fn parse_u32(s: &Vec<char>) -> (r: Option<u32>)
    ensures
        match r {
            Some(n) => bounded_decimal(s@, u32::MAX as nat) == Some(n as nat),
            None => bounded_decimal(s@, u32::MAX as nat) is None,
        },
{
    match parse_capped(s, 0x1_0000_0000) {
        Some(n) => if n <= 0xffff_ffff {
            Some(n as u32)
        } else {
            None
        },
        None => None,
    }
}

/// The character that writes the digit `d`.
pub open spec fn digit_char(d: nat) -> char {
    if d == 0 {
        '0'
    } else if d == 1 {
        '1'
    } else if d == 2 {
        '2'
    } else if d == 3 {
        '3'
    } else if d == 4 {
        '4'
    } else if d == 5 {
        '5'
    } else if d == 6 {
        '6'
    } else if d == 7 {
        '7'
    } else if d == 8 {
        '8'
    } else {
        '9'
    }
}

/// The shortest decimal writing of `n`: no sign, no leading zero but for 0.
pub open spec fn decimal_text(n: nat) -> Seq<char>
    decreases n,
{
    if n < 10 {
        seq![digit_char(n)]
    } else {
        decimal_text(n / 10).push(digit_char(n % 10))
    }
}

fn digit_to_char(d: u64) -> (c: char)
    requires
        d < 10,
    ensures
        c == digit_char(d as nat),
{
    if d == 0 {
        '0'
    } else if d == 1 {
        '1'
    } else if d == 2 {
        '2'
    } else if d == 3 {
        '3'
    } else if d == 4 {
        '4'
    } else if d == 5 {
        '5'
    } else if d == 6 {
        '6'
    } else if d == 7 {
        '7'
    } else if d == 8 {
        '8'
    } else {
        '9'
    }
}

/// Appends the decimal writing of `n` to `out`.
pub fn push_decimal(out: &mut String, n: u64)
    ensures
        final(out)@ == old(out)@ + decimal_text(n as nat),
    decreases n,
{
    if n >= 10 {
        push_decimal(out, n / 10);
    }
    out.push(digit_to_char(n % 10));
    assert(final(out)@ == old(out)@ + decimal_text(n as nat));
}

} // verus!
