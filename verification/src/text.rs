//! Character-sequence helpers: trimming, searching, splitting, and decimal
//! conversion of integers, each proved against a mathematical statement.
//!
//! Text is handled as `Vec<char>` inside the library; `String` appears at the
//! edges of public functions.

use vstd::prelude::*;

verus! {

// ---------------------------------------------------------------------------
// Conversions between `str`/`String` and character vectors
// ---------------------------------------------------------------------------

/// Collects the characters of a string slice (std `str::chars` + `collect`).
/// Trusted: the result holds the characters of `s` in order.
#[verifier::external_body]
pub(crate) fn chars_of(s: &str) -> (r: Vec<char>)
    ensures
        r@ == s@,
{
    s.chars().collect()
}

/// Builds a `String` from characters (std `FromIterator<&char> for String`).
/// Trusted: the string holds exactly the given characters.
#[verifier::external_body]
pub(crate) fn string_of(v: &[char]) -> (r: String)
    ensures
        r@ == v@,
{
    v.iter().collect()
}

/// `a` followed by `b`.
pub fn concat2(a: &str, b: &str) -> (r: String)
    ensures
        r@ == a@ + b@,
{
    let mut v = chars_of(a);
    push_str(&mut v, b);
    string_of(v.as_slice())
}

/// `a`, `b` and `c` one after another.
pub fn concat3(a: &str, b: &str, c: &str) -> (r: String)
    ensures
        r@ == a@ + b@ + c@,
{
    let mut v = chars_of(a);
    push_str(&mut v, b);
    push_str(&mut v, c);
    string_of(v.as_slice())
}

/// Characters of a `String`.
pub fn chars_of_string(s: &String) -> (r: Vec<char>)
    ensures
        r@ == s@,
{
    chars_of(s.as_str())
}

/// Appends `s` to `v`.
pub fn push_all(v: &mut Vec<char>, s: &[char])
    ensures
        final(v)@ == old(v)@ + s@,
{
    let ghost start = v@;
    let mut i: usize = 0;
    while i < s.len()
        invariant
            0 <= i <= s@.len(),
            v@ == start + s@.take(i as int),
        decreases s@.len() - i,
    {
        v.push(s[i]);
        i = i + 1;
        assert(s@.take(i as int) == s@.take((i - 1) as int).push(s@[i - 1]));
    }
    assert(s@.take(s@.len() as int) == s@);
}

/// Appends the characters of a string slice to `v`.
pub fn push_str(v: &mut Vec<char>, s: &str)
    ensures
        final(v)@ == old(v)@ + s@,
{
    let c = chars_of(s);
    push_all(v, c.as_slice());
}

/// Concatenation of two character sequences.
pub fn concat(a: &[char], b: &[char]) -> (r: Vec<char>)
    ensures
        r@ == a@ + b@,
{
    let mut v: Vec<char> = Vec::new();
    push_all(&mut v, a);
    push_all(&mut v, b);
    assert(v@ == a@ + b@);
    v
}

/// Copy of a character slice.
pub fn to_vec(a: &[char]) -> (r: Vec<char>)
    ensures
        r@ == a@,
{
    let mut v: Vec<char> = Vec::new();
    push_all(&mut v, a);
    assert(v@ == a@);
    v
}

/// Equality of two character sequences.
pub fn chars_eq(a: &[char], b: &[char]) -> (r: bool)
    ensures
        r == (a@ == b@),
{
    if a.len() != b.len() {
        return false;
    }
    let mut i: usize = 0;
    while i < a.len()
        invariant
            a@.len() == b@.len(),
            0 <= i <= a@.len(),
            forall|j: int| 0 <= j < i ==> a@[j] == b@[j],
        decreases a@.len() - i,
    {
        if a[i] != b[i] {
            return false;
        }
        i = i + 1;
    }
    assert(a@ =~= b@);
    true
}

/// Equality of a character sequence and a string slice.
pub fn chars_eq_str(a: &[char], b: &str) -> (r: bool)
    ensures
        r == (a@ == b@),
{
    let bc = chars_of(b);
    chars_eq(a, bc.as_slice())
}

// ---------------------------------------------------------------------------
// Whitespace and trimming
// ---------------------------------------------------------------------------

/// The Unicode `White_Space` property, which `char::is_whitespace` tests.
pub open spec fn is_ws(c: char) -> bool {
    let u = c as u32;
    ||| (0x09 <= u && u <= 0x0d)
    ||| u == 0x20
    ||| u == 0x85
    ||| u == 0xa0
    ||| u == 0x1680
    ||| (0x2000 <= u && u <= 0x200a)
    ||| u == 0x2028
    ||| u == 0x2029
    ||| u == 0x202f
    ||| u == 0x205f
    ||| u == 0x3000
}

/// Whether `c` is Unicode whitespace.
pub fn is_whitespace(c: char) -> (b: bool)
    ensures
        b == is_ws(c),
{
    let u = c as u32;
    (0x09 <= u && u <= 0x0d) || u == 0x20 || u == 0x85 || u == 0xa0 || u == 0x1680 || (0x2000
        <= u && u <= 0x200a) || u == 0x2028 || u == 0x2029 || u == 0x202f || u == 0x205f || u
        == 0x3000
}

/// `s` without its leading whitespace.
pub open spec fn trim_start(s: Seq<char>) -> Seq<char>
    decreases s.len(),
{
    if s.len() > 0 && is_ws(s[0]) {
        trim_start(s.drop_first())
    } else {
        s
    }
}

/// `s` without its trailing whitespace.
pub open spec fn trim_end(s: Seq<char>) -> Seq<char>
    decreases s.len(),
{
    if s.len() > 0 && is_ws(s.last()) {
        trim_end(s.drop_last())
    } else {
        s
    }
}

/// `s` without leading and trailing whitespace (`str::trim`).
pub open spec fn trimmed(s: Seq<char>) -> Seq<char> {
    trim_end(trim_start(s))
}

proof fn lemma_trim_start_step(s: Seq<char>, i: int)
    requires
        0 <= i < s.len(),
        is_ws(s[i]),
    ensures
        trim_start(s.subrange(i, s.len() as int)) == trim_start(s.subrange(i + 1, s.len() as int)),
{
    let t = s.subrange(i, s.len() as int);
    assert(t.drop_first() =~= s.subrange(i + 1, s.len() as int));
}

proof fn lemma_trim_end_step(s: Seq<char>, j: int)
    requires
        0 < j <= s.len(),
        is_ws(s[j - 1]),
    ensures
        trim_end(s.subrange(0, j)) == trim_end(s.subrange(0, j - 1)),
{
    let t = s.subrange(0, j);
    assert(t.drop_last() =~= s.subrange(0, j - 1));
}

/// Removes leading and trailing whitespace.
pub fn trim(s: &[char]) -> (r: Vec<char>)
    ensures
        r@ == trimmed(s@),
{
    let n = s.len();
    let mut i: usize = 0;
    assert(s@.subrange(0, n as int) =~= s@);
    while i < n && is_whitespace(s[i])
        invariant
            n == s@.len(),
            0 <= i <= n,
            trim_start(s@) == trim_start(s@.subrange(i as int, n as int)),
        decreases n - i,
    {
        proof {
            lemma_trim_start_step(s@, i as int);
        }
        i = i + 1;
    }
    let ghost front = s@.subrange(i as int, n as int);
    assert(trim_start(s@) == front);
    let mut j: usize = n;
    assert(front.subrange(0, (n - i) as int) =~= front);
    while j > i && is_whitespace(s[j - 1])
        invariant
            n == s@.len(),
            0 <= i <= j <= n,
            front == s@.subrange(i as int, n as int),
            trim_end(front) == trim_end(front.subrange(0, (j - i) as int)),
        decreases j,
    {
        proof {
            assert(front[(j - i) - 1] == s@[j - 1]);
            lemma_trim_end_step(front, (j - i) as int);
        }
        j = j - 1;
    }
    let ghost core = front.subrange(0, (j - i) as int);
    assert(trim_end(front) == core);
    let mut out: Vec<char> = Vec::new();
    let mut k: usize = i;
    while k < j
        invariant
            n == s@.len(),
            0 <= i <= k <= j <= n,
            out@ == s@.subrange(i as int, k as int),
        decreases j - k,
    {
        out.push(s[k]);
        k = k + 1;
        assert(out@ =~= s@.subrange(i as int, k as int));
    }
    assert(core =~= s@.subrange(i as int, j as int));
    out
}

/// `s` with every trailing occurrence of `c` removed (`str::trim_end_matches`).
pub open spec fn trim_end_char(s: Seq<char>, c: char) -> Seq<char>
    decreases s.len(),
{
    if s.len() > 0 && s.last() == c {
        trim_end_char(s.drop_last(), c)
    } else {
        s
    }
}

/// Removes every trailing occurrence of `c`.
pub fn trim_end_matches(s: &[char], c: char) -> (r: Vec<char>)
    ensures
        r@ == trim_end_char(s@, c),
{
    let mut j: usize = s.len();
    assert(s@.subrange(0, j as int) =~= s@);
    while j > 0 && s[j - 1] == c
        invariant
            0 <= j <= s@.len(),
            trim_end_char(s@, c) == trim_end_char(s@.subrange(0, j as int), c),
        decreases j,
    {
        assert(s@.subrange(0, j as int).drop_last() =~= s@.subrange(0, j - 1));
        j = j - 1;
    }
    let mut out: Vec<char> = Vec::new();
    let mut k: usize = 0;
    while k < j
        invariant
            0 <= k <= j <= s@.len(),
            out@ == s@.subrange(0, k as int),
        decreases j - k,
    {
        out.push(s[k]);
        k = k + 1;
        assert(out@ =~= s@.subrange(0, k as int));
    }
    out
}

// ---------------------------------------------------------------------------
// Prefixes and occurrences
// ---------------------------------------------------------------------------

/// `p` is a prefix of `s`.
pub open spec fn has_prefix(s: Seq<char>, p: Seq<char>) -> bool {
    p.len() <= s.len() && s.subrange(0, p.len() as int) == p
}

/// Whether `p` is a prefix of `s` (`str::starts_with`).
pub fn starts_with(s: &[char], p: &[char]) -> (r: bool)
    ensures
        r == has_prefix(s@, p@),
{
    if p.len() > s.len() {
        return false;
    }
    let mut i: usize = 0;
    while i < p.len()
        invariant
            p@.len() <= s@.len(),
            0 <= i <= p@.len(),
            forall|j: int| 0 <= j < i ==> s@[j] == p@[j],
        decreases p@.len() - i,
    {
        if s[i] != p[i] {
            assert(s@.subrange(0, p@.len() as int)[i as int] != p@[i as int]);
            return false;
        }
        i = i + 1;
    }
    assert(s@.subrange(0, p@.len() as int) =~= p@);
    true
}

/// `p` occurs in `s` starting at index `i`.
pub open spec fn occurs_at(s: Seq<char>, p: Seq<char>, i: int) -> bool {
    0 <= i && i + p.len() <= s.len() && s.subrange(i, i + p.len()) == p
}

/// `p` occurs somewhere in `s` (`str::contains`).
pub open spec fn contains_seq(s: Seq<char>, p: Seq<char>) -> bool {
    exists|i: int| occurs_at(s, p, i)
}

/// The greatest start index below `k` at which `p` occurs in `s`, or -1.
pub open spec fn last_occ_below(s: Seq<char>, p: Seq<char>, k: int) -> int
    decreases k,
{
    if k <= 0 {
        -1
    } else if occurs_at(s, p, k - 1) {
        k - 1
    } else {
        last_occ_below(s, p, k - 1)
    }
}

/// The greatest start index at which `p` occurs in `s`, or -1.
pub open spec fn last_occurrence(s: Seq<char>, p: Seq<char>) -> int {
    last_occ_below(s, p, s.len() as int + 1)
}

proof fn lemma_last_occ_below(s: Seq<char>, p: Seq<char>, k: int)
    ensures
        last_occ_below(s, p, k) == -1 ==> forall|i: int| 0 <= i < k ==> !occurs_at(s, p, i),
        last_occ_below(s, p, k) != -1 ==> {
            let m = last_occ_below(s, p, k);
            &&& 0 <= m < k
            &&& occurs_at(s, p, m)
            &&& forall|i: int| m < i < k ==> !occurs_at(s, p, i)
        },
    decreases k,
{
    if k > 0 {
        lemma_last_occ_below(s, p, k - 1);
    }
}

/// Facts that characterise `last_occurrence`.
pub proof fn lemma_last_occurrence(s: Seq<char>, p: Seq<char>)
    ensures
        last_occurrence(s, p) == -1 <==> !contains_seq(s, p),
        last_occurrence(s, p) != -1 ==> {
            let m = last_occurrence(s, p);
            &&& occurs_at(s, p, m)
            &&& forall|i: int| m < i ==> !occurs_at(s, p, i)
        },
{
    lemma_last_occ_below(s, p, s.len() as int + 1);
    if last_occurrence(s, p) == -1 {
        assert forall|i: int| !occurs_at(s, p, i) by {
            if 0 <= i && i < s.len() + 1 {
            } else {
            }
        }
    } else {
        let m = last_occurrence(s, p);
        assert forall|i: int| m < i implies !occurs_at(s, p, i) by {
            if i < s.len() + 1 {
            }
        }
    }
}

/// Whether `p` occurs in `s` at index `i`.
fn occurs_at_exec(s: &[char], p: &[char], i: usize) -> (r: bool)
    ensures
        r == occurs_at(s@, p@, i as int),
{
    if i > s.len() || p.len() > s.len() - i {
        return false;
    }
    let mut j: usize = 0;
    while j < p.len()
        invariant
            i + p.len() <= s.len(),
            0 <= j <= p@.len(),
            forall|t: int| 0 <= t < j ==> s@[i + t] == p@[t],
        decreases p@.len() - j,
    {
        assert(i + j < s@.len());
        let k: usize = i + j;
        if s[k] != p[j] {
            assert(s@.subrange(i as int, i + p@.len())[j as int] != p@[j as int]);
            return false;
        }
        j = j + 1;
    }
    assert(s@.subrange(i as int, i + p@.len()) =~= p@);
    true
}

/// The greatest index at which `p` occurs in `s`.
pub fn find_last(s: &[char], p: &[char]) -> (r: Option<usize>)
    ensures
        r is None <==> last_occurrence(s@, p@) == -1,
        r matches Some(i) ==> i as int == last_occurrence(s@, p@),
{
    proof {
        lemma_last_occurrence(s@, p@);
    }
    // scan downwards from the last possible start
    let mut i: usize = s.len();
    loop
        invariant
            0 <= i <= s@.len(),
            forall|t: int| i < t ==> !occurs_at(s@, p@, t),
        decreases i,
    {
        if occurs_at_exec(s, p, i) {
            proof {
                lemma_last_occurrence(s@, p@);
                let m = last_occurrence(s@, p@);
                assert(m != -1);
                if m < i {
                }
                if m > i {
                }
            }
            return Some(i);
        }
        if i == 0 {
            proof {
                assert forall|t: int| !occurs_at(s@, p@, t) by {
                    if t < 0 {
                    }
                }
                assert(!contains_seq(s@, p@));
                lemma_last_occurrence(s@, p@);
            }
            return None;
        }
        i = i - 1;
    }
}

/// Whether `p` occurs in `s`.
pub fn contains(s: &[char], p: &[char]) -> (r: bool)
    ensures
        r == contains_seq(s@, p@),
{
    proof {
        lemma_last_occurrence(s@, p@);
    }
    find_last(s, p).is_some()
}

// ---------------------------------------------------------------------------
// Splitting on whitespace
// ---------------------------------------------------------------------------

/// Length of the run of non-whitespace characters at the front of `s`.
pub open spec fn word_len(s: Seq<char>) -> nat
    decreases s.len(),
{
    if s.len() > 0 && !is_ws(s[0]) {
        1 + word_len(s.drop_first())
    } else {
        0
    }
}

/// The whitespace-separated words of `s` (`str::split_whitespace`).
pub open spec fn words(s: Seq<char>) -> Seq<Seq<char>>
    decreases s.len(),
{
    let t = trim_start(s);
    if t.len() == 0 {
        Seq::empty()
    } else {
        proof {
            lemma_trim_start_len(s);
        }
        let n = word_len(t);
        if 0 < n <= t.len() {
            seq![t.subrange(0, n as int)] + words(t.subrange(n as int, t.len() as int))
        } else {
            Seq::empty()
        }
    }
}

pub proof fn lemma_trim_start_len(s: Seq<char>)
    ensures
        trim_start(s).len() <= s.len(),
        trim_start(s).len() > 0 ==> !is_ws(trim_start(s)[0]),
        exists|k: int| 0 <= k <= s.len() && trim_start(s) == s.subrange(k, s.len() as int),
    decreases s.len(),
{
    if s.len() > 0 && is_ws(s[0]) {
        lemma_trim_start_len(s.drop_first());
        let k = choose|k: int|
            0 <= k <= s.drop_first().len() && trim_start(s.drop_first()) == s.drop_first().subrange(
                k,
                s.drop_first().len() as int,
            );
        assert(s.drop_first().subrange(k, s.drop_first().len() as int) =~= s.subrange(
            k + 1,
            s.len() as int,
        ));
    } else {
        assert(s.subrange(0, s.len() as int) =~= s);
    }
}

pub proof fn lemma_word_len(s: Seq<char>)
    ensures
        word_len(s) <= s.len(),
        forall|i: int| 0 <= i < word_len(s) ==> !is_ws(s[i]),
        word_len(s) < s.len() ==> is_ws(s[word_len(s) as int]),
        s.len() > 0 && !is_ws(s[0]) ==> word_len(s) > 0,
    decreases s.len(),
{
    if s.len() > 0 && !is_ws(s[0]) {
        lemma_word_len(s.drop_first());
        assert forall|i: int| 0 <= i < word_len(s) implies !is_ws(s[i]) by {
            if i > 0 {
                assert(s[i] == s.drop_first()[i - 1]);
            }
        }
    }
}

/// Splits `s` into its whitespace-separated words.
pub fn split_whitespace(s: &[char]) -> (r: Vec<Vec<char>>)
    ensures
        r@.len() == words(s@).len(),
        forall|i: int| 0 <= i < r@.len() ==> #[trigger] r@[i]@ == words(s@)[i],
{
    let mut out: Vec<Vec<char>> = Vec::new();
    let mut pos: usize = 0;
    let n = s.len();
    assert(s@.subrange(0, n as int) =~= s@);
    while pos < n
        invariant
            n == s@.len(),
            0 <= pos <= n,
            words(s@) == {
                let done = Seq::new(out@.len(), |i: int| out@[i]@);
                done + words(s@.subrange(pos as int, n as int))
            },
        decreases n - pos,
    {
        let ghost rest = s@.subrange(pos as int, n as int);
        if is_whitespace(s[pos]) {
            proof {
                lemma_trim_start_step(s@, pos as int);
                assert(rest.len() > 0 && is_ws(rest[0]));
                assert(trim_start(rest) == trim_start(rest.drop_first()));
                assert(rest.drop_first() =~= s@.subrange(pos + 1, n as int));
                assert(words(rest) == words(rest.drop_first()));
            }
            pos = pos + 1;
        } else {
            let start = pos;
            let mut w: Vec<char> = Vec::new();
            while pos < n && !is_whitespace(s[pos])
                invariant
                    n == s@.len(),
                    start <= pos <= n,
                    w@ == s@.subrange(start as int, pos as int),
                    forall|i: int| start <= i < pos ==> !is_ws(s@[i]),
                decreases n - pos,
            {
                w.push(s[pos]);
                pos = pos + 1;
                assert(w@ =~= s@.subrange(start as int, pos as int));
            }
            proof {
                assert(trim_start(rest) == rest);
                lemma_word_len(rest);
                let wl = word_len(rest);
                // the word found is exactly the leading run of `rest`
                if wl < (pos - start) {
                    assert(rest[wl as int] == s@[start + wl]);
                }
                if wl > (pos - start) {
                    assert(rest[(pos - start) as int] == s@[pos as int]);
                }
                assert(wl == pos - start);
                assert(rest.subrange(0, wl as int) =~= w@);
                assert(rest.subrange(wl as int, rest.len() as int) =~= s@.subrange(
                    pos as int,
                    n as int,
                ));
                let done = Seq::new(out@.len(), |i: int| out@[i]@);
                let done2 = Seq::new((out@.len() + 1) as nat, |i: int| out@.push(w)[i]@);
                assert(done2 =~= done.push(w@));
                assert(done + words(rest) =~= done2 + words(
                    s@.subrange(pos as int, n as int),
                ));
            }
            out.push(w);
        }
    }
    proof {
        let done = Seq::new(out@.len(), |i: int| out@[i]@);
        let e = s@.subrange(n as int, n as int);
        assert(trim_start(e) =~= e);
        assert(words(e) =~= Seq::<Seq<char>>::empty());
        assert(words(s@) =~= done);
    }
    out
}

// ---------------------------------------------------------------------------
// Decimal integers
// ---------------------------------------------------------------------------

/// The ASCII digit for `d < 10`.
pub open spec fn digit_char(d: nat) -> char {
    if d == 0 {
        '0'
    } else if d == 1 {
        '1'
    } else if d == 2 {
        '2'
    } else if d == 3 {
        '3'
    } else if d == 4 {
        '4'
    } else if d == 5 {
        '5'
    } else if d == 6 {
        '6'
    } else if d == 7 {
        '7'
    } else if d == 8 {
        '8'
    } else {
        '9'
    }
}

/// Decimal representation of a natural number, without leading zeros.
pub open spec fn dec_nat(n: nat) -> Seq<char>
    decreases n,
{
    if n < 10 {
        seq![digit_char(n)]
    } else {
        dec_nat(n / 10) + seq![digit_char(n % 10)]
    }
}

/// Decimal representation of an integer, with a leading `-` when negative.
pub open spec fn dec_int(i: int) -> Seq<char> {
    if i < 0 {
        seq!['-'] + dec_nat((-i) as nat)
    } else {
        dec_nat(i as nat)
    }
}

fn digit_of(d: u64) -> (c: char)
    requires
        d < 10,
    ensures
        c == digit_char(d as nat),
{
    if d == 0 {
        '0'
    } else if d == 1 {
        '1'
    } else if d == 2 {
        '2'
    } else if d == 3 {
        '3'
    } else if d == 4 {
        '4'
    } else if d == 5 {
        '5'
    } else if d == 6 {
        '6'
    } else if d == 7 {
        '7'
    } else if d == 8 {
        '8'
    } else {
        '9'
    }
}

/// Decimal digits of `n`.
pub fn dec_u64(n: u64) -> (r: Vec<char>)
    ensures
        r@ == dec_nat(n as nat),
    decreases n,
{
    if n < 10 {
        let mut v: Vec<char> = Vec::new();
        v.push(digit_of(n));
        assert(v@ =~= seq![digit_char(n as nat)]);
        v
    } else {
        let mut v = dec_u64(n / 10);
        v.push(digit_of(n % 10));
        assert(v@ =~= dec_nat((n / 10) as nat) + seq![digit_char((n % 10) as nat)]);
        v
    }
}

/// Decimal representation of `n`, with a leading `-` when negative.
pub fn dec_i64(n: i64) -> (r: Vec<char>)
    ensures
        r@ == dec_int(n as int),
{
    if n < 0 {
        let m: u64 = if n == i64::MIN {
            9223372036854775808u64
        } else {
            (-n) as u64
        };
        let d = dec_u64(m);
        let mut v: Vec<char> = Vec::new();
        v.push('-');
        push_all(&mut v, d.as_slice());
        assert(v@ =~= seq!['-'] + dec_nat((-(n as int)) as nat));
        v
    } else {
        dec_u64(n as u64)
    }
}

/// A digit character has the value it was made for.
proof fn lemma_digit_char(d: nat)
    requires
        d < 10,
    ensures
        is_digit(digit_char(d)),
        digit_value(digit_char(d)) == d,
{
}

/// The decimal text of a natural number is a non-empty run of digits whose
/// value is the number.
pub proof fn lemma_dec_nat(n: nat)
    ensures
        dec_nat(n).len() >= 1,
        all_digits(dec_nat(n)),
        digits_value(dec_nat(n)) == n,
    decreases n,
{
    if n < 10 {
        lemma_digit_char(n);
        let s = dec_nat(n);
        assert(s.drop_last() =~= Seq::<char>::empty());
        assert(digits_value(s.drop_last()) == 0);
        assert(s.last() == digit_char(n));
        assert(digits_value(s) == digits_value(s.drop_last()) * 10 + digit_value(s.last()));
    } else {
        lemma_dec_nat(n / 10);
        lemma_digit_char(n % 10);
        let s = dec_nat(n);
        assert(s.drop_last() =~= dec_nat(n / 10));
        assert(s.last() == digit_char(n % 10));
        assert(digits_value(s) == digits_value(dec_nat(n / 10)) * 10 + digit_value(s.last()));
        assert((n / 10) * 10 + n % 10 == n);
        assert(forall|i: int| 0 <= i < s.len() ==> is_digit(#[trigger] s[i])) by {
            assert forall|i: int| 0 <= i < s.len() implies is_digit(#[trigger] s[i]) by {
                if i < s.len() - 1 {
                    assert(s[i] == dec_nat(n / 10)[i]);
                }
            }
        }
    }
}

/// Reading back the decimal text of an integer in range gives the integer,
/// as `str::parse` does.
pub proof fn lemma_parse_dec_int(i: int, signed: bool, lo: int, hi: int)
    requires
        lo <= i <= hi,
        signed || i >= 0,
    ensures
        parse_int_spec(dec_int(i), signed, lo, hi) == Some(i),
{
    if i < 0 {
        let m = (-i) as nat;
        lemma_dec_nat(m);
        let s = dec_int(i);
        assert(s.drop_first() =~= dec_nat(m));
    } else {
        lemma_dec_nat(i as nat);
        let s = dec_int(i);
        assert(is_digit(s[0]));
    }
}

/// Different natural numbers have different decimal texts.
pub proof fn lemma_dec_nat_injective(a: nat, b: nat)
    requires
        a != b,
    ensures
        dec_nat(a) != dec_nat(b),
{
    lemma_dec_nat(a);
    lemma_dec_nat(b);
}

/// Whether `c` is an ASCII digit.
pub open spec fn is_digit(c: char) -> bool {
    '0' <= c && c <= '9'
}

/// Value of an ASCII digit.
pub open spec fn digit_value(c: char) -> nat {
    (c as u32 - '0' as u32) as nat
}

/// All characters of `s` are ASCII digits.
pub open spec fn all_digits(s: Seq<char>) -> bool {
    forall|i: int| 0 <= i < s.len() ==> is_digit(#[trigger] s[i])
}

/// Value of a string of ASCII digits, read most significant first.
pub open spec fn digits_value(s: Seq<char>) -> nat
    decreases s.len(),
{
    if s.len() == 0 {
        0
    } else {
        digits_value(s.drop_last()) * 10 + digit_value(s.last())
    }
}

/// The integer that `str::parse` gives for a signed type with range
/// `[lo, hi]`: an optional `+` or `-`, then one or more ASCII digits, with the
/// value in range. For an unsigned type (`signed == false`) a `-` is no sign.
pub open spec fn parse_int_spec(s: Seq<char>, signed: bool, lo: int, hi: int) -> Option<int> {
    if s.len() == 0 {
        None
    } else {
        let neg = signed && s[0] == '-';
        let body = if s[0] == '+' || neg {
            s.drop_first()
        } else {
            s
        };
        if body.len() == 0 || !all_digits(body) {
            None
        } else {
            let v: int = if neg {
                -(digits_value(body) as int)
            } else {
                digits_value(body) as int
            };
            if lo <= v && v <= hi {
                Some(v)
            } else {
                None
            }
        }
    }
}

proof fn lemma_digits_value_mono(s: Seq<char>, i: int, j: int)
    requires
        0 <= i <= j <= s.len(),
    ensures
        digits_value(s.subrange(0, i)) <= digits_value(s.subrange(0, j)),
    decreases j - i,
{
    if i < j {
        lemma_digits_value_mono(s, i, j - 1);
        assert(s.subrange(0, j).drop_last() =~= s.subrange(0, j - 1));
        let a = digits_value(s.subrange(0, j - 1));
        assert(a <= a * 10) by (nonlinear_arith);
    }
}

/// Reads the ASCII digits of `body`; `None` when a character is not a digit
/// or the value exceeds `cap`.
fn read_digits(body: &[char], cap: u64) -> (r: Option<u64>)
    ensures
        r matches Some(v) ==> all_digits(body@) && v as nat == digits_value(body@) && v <= cap,
        r is None ==> !all_digits(body@) || digits_value(body@) > cap,
{
    let n = body.len();
    let mut acc: u64 = 0;
    let mut i: usize = 0;
    assert(body@.subrange(0, 0) =~= Seq::<char>::empty());
    while i < n
        invariant
            n == body@.len(),
            0 <= i <= n,
            all_digits(body@.subrange(0, i as int)),
            acc as nat == digits_value(body@.subrange(0, i as int)),
            acc <= cap,
        decreases n - i,
    {
        let c = body[i];
        if !('0' <= c && c <= '9') {
            return None;
        }
        let d = (c as u32 - '0' as u32) as u64;
        proof {
            assert(body@.subrange(0, i + 1).drop_last() =~= body@.subrange(0, i as int));
            assert(body@.subrange(0, i + 1).last() == c);
        }
        if d > cap || acc > (cap - d) / 10 {
            proof {
                assert(digits_value(body@.subrange(0, i + 1)) == acc * 10 + d);
                assert(acc * 10 + d > cap) by (nonlinear_arith)
                    requires
                        d > cap || acc > (cap - d) / 10,
                ;
                lemma_digits_value_mono(body@, i + 1, n as int);
                assert(body@.subrange(0, n as int) =~= body@);
            }
            return None;
        }
        proof {
            assert(acc * 10 + d <= cap) by (nonlinear_arith)
                requires
                    acc <= (cap - d) / 10,
                    d <= 9,
            ;
        }
        acc = acc * 10 + d;
        i = i + 1;
        proof {
            assert forall|t: int| 0 <= t < i implies is_digit(#[trigger] body@.subrange(0, i as int)[t]) by {
                if t < i - 1 {
                    assert(body@.subrange(0, i as int)[t] == body@.subrange(0, i - 1)[t]);
                }
            }
        }
    }
    assert(body@.subrange(0, n as int) =~= body@);
    Some(acc)
}

/// Shared parser for the integer types.
fn parse_int(s: &[char], signed: bool, lo: i64, hi: u64) -> (r: Option<(bool, u64)>)
    requires
        lo <= 0,
    ensures
        parse_int_spec(s@, signed, lo as int, hi as int) matches Some(v) ==> r matches Some(
            p,
        ) && (if p.0 {
            v == -(p.1 as int)
        } else {
            v == p.1 as int
        }),
        parse_int_spec(s@, signed, lo as int, hi as int) is None ==> r is None,
{
    if s.len() == 0 {
        return None;
    }
    let neg = signed && s[0] == '-';
    let skip: usize = if s[0] == '+' || neg {
        1
    } else {
        0
    };
    let mut body: Vec<char> = Vec::new();
    let mut i: usize = skip;
    while i < s.len()
        invariant
            skip <= i <= s@.len(),
            body@ == s@.subrange(skip as int, i as int),
        decreases s@.len() - i,
    {
        body.push(s[i]);
        i = i + 1;
        assert(body@ =~= s@.subrange(skip as int, i as int));
    }
    proof {
        if skip == 1 {
            assert(s@.drop_first() =~= s@.subrange(1, s@.len() as int));
        } else {
            assert(s@ =~= s@.subrange(0, s@.len() as int));
        }
    }
    if body.len() == 0 {
        return None;
    }
    let cap: u64 = if neg {
        (-(lo as i128)) as u64
    } else {
        hi
    };
    match read_digits(body.as_slice(), cap) {
        None => None,
        Some(v) => Some((neg, v)),
    }
}

/// Parses a decimal `i64` as `str::parse::<i64>` does.
pub fn parse_i64(s: &[char]) -> (r: Option<i64>)
    ensures
        r matches Some(v) ==> parse_int_spec(s@, true, i64::MIN as int, i64::MAX as int) == Some(
            v as int,
        ),
        r is None ==> parse_int_spec(s@, true, i64::MIN as int, i64::MAX as int) is None,
{
    match parse_int(s, true, i64::MIN, i64::MAX as u64) {
        None => None,
        Some((neg, v)) => {
            if neg {
                if v == 9223372036854775808u64 {
                    Some(i64::MIN)
                } else {
                    Some(-(v as i64))
                }
            } else {
                Some(v as i64)
            }
        },
    }
}

/// Parses a decimal `i32` as `str::parse::<i32>` does.
pub fn parse_i32(s: &[char]) -> (r: Option<i32>)
    ensures
        r matches Some(v) ==> parse_int_spec(s@, true, i32::MIN as int, i32::MAX as int) == Some(
            v as int,
        ),
        r is None ==> parse_int_spec(s@, true, i32::MIN as int, i32::MAX as int) is None,
{
    match parse_int(s, true, i32::MIN as i64, i32::MAX as u64) {
        None => None,
        Some((neg, v)) => {
            if neg {
                Some((-(v as i64)) as i32)
            } else {
                Some(v as i32)
            }
        },
    }
}

/// Parses a decimal `u64` as `str::parse::<u64>` does.
pub fn parse_u64(s: &[char]) -> (r: Option<u64>)
    ensures
        r matches Some(v) ==> parse_int_spec(s@, false, 0, u64::MAX as int) == Some(v as int),
        r is None ==> parse_int_spec(s@, false, 0, u64::MAX as int) is None,
{
    match parse_int(s, false, 0, u64::MAX) {
        None => None,
        Some((_, v)) => Some(v),
    }
}

/// Parses a decimal `u16` as `str::parse::<u16>` does.
pub fn parse_u16(s: &[char]) -> (r: Option<u16>)
    ensures
        r matches Some(v) ==> parse_int_spec(s@, false, 0, u16::MAX as int) == Some(v as int),
        r is None ==> parse_int_spec(s@, false, 0, u16::MAX as int) is None,
{
    match parse_int(s, false, 0, u16::MAX as u64) {
        None => None,
        Some((_, v)) => Some(v as u16),
    }
}

// ---------------------------------------------------------------------------
// Case
// ---------------------------------------------------------------------------

/// Lower-case form of a character sequence under Unicode case mapping, as
/// `str::to_lowercase` computes it.
pub uninterp spec fn spec_to_lowercase(s: Seq<char>) -> Seq<char>;

/// Unicode lower-casing (std `str::to_lowercase`). Trusted: the result is the
/// Unicode lower-case mapping of `s`; nothing further is stated.
#[verifier::external_body]
pub(crate) fn to_lowercase(s: &str) -> (r: String)
    ensures
        r@ == spec_to_lowercase(s@),
{
    s.to_lowercase()
}

/// ASCII lower-case of one character.
pub open spec fn ascii_lower(c: char) -> char {
    if 'A' <= c && c <= 'Z' {
        ((c as u32) + 32) as char
    } else {
        c
    }
}

/// ASCII-case-insensitive equality (`str::eq_ignore_ascii_case`).
pub open spec fn eq_ignore_ascii_case_spec(a: Seq<char>, b: Seq<char>) -> bool {
    a.len() == b.len() && forall|i: int| 0 <= i < a.len() ==> ascii_lower(a[i]) == ascii_lower(b[i])
}

fn ascii_lower_exec(c: char) -> (r: char)
    ensures
        r == ascii_lower(c),
{
    if 'A' <= c && c <= 'Z' {
        let u = (c as u32) + 32;
        assert(0x61 <= u <= 0x7a);
        u as u8 as char
    } else {
        c
    }
}

/// Whether `a` and `b` are equal when ASCII letters are compared without case.
pub fn eq_ignore_ascii_case(a: &[char], b: &[char]) -> (r: bool)
    ensures
        r == eq_ignore_ascii_case_spec(a@, b@),
{
    if a.len() != b.len() {
        return false;
    }
    let mut i: usize = 0;
    while i < a.len()
        invariant
            a@.len() == b@.len(),
            0 <= i <= a@.len(),
            forall|j: int| 0 <= j < i ==> ascii_lower(a@[j]) == ascii_lower(b@[j]),
        decreases a@.len() - i,
    {
        if ascii_lower_exec(a[i]) != ascii_lower_exec(b[i]) {
            return false;
        }
        i = i + 1;
    }
    true
}

// ---------------------------------------------------------------------------
// Joining
// ---------------------------------------------------------------------------

/// `parts` joined with `sep` between consecutive parts (`[String]::join`).
pub open spec fn join_seq(parts: Seq<Seq<char>>, sep: Seq<char>) -> Seq<char>
    decreases parts.len(),
{
    if parts.len() == 0 {
        Seq::empty()
    } else if parts.len() == 1 {
        parts[0]
    } else {
        join_seq(parts.drop_last(), sep) + sep + parts.last()
    }
}

/// Views of a vector of strings.
pub open spec fn strings_view(v: Seq<String>) -> Seq<Seq<char>> {
    Seq::new(v.len(), |i: int| v[i]@)
}

/// Joins strings with a separator.
pub fn join_strings(parts: &[String], sep: &str) -> (r: Vec<char>)
    ensures
        r@ == join_seq(strings_view(parts@), sep@),
{
    let sepc = chars_of(sep);
    let mut out: Vec<char> = Vec::new();
    let mut i: usize = 0;
    while i < parts.len()
        invariant
            0 <= i <= parts@.len(),
            sepc@ == sep@,
            out@ == join_seq(strings_view(parts@.subrange(0, i as int)), sep@),
        decreases parts@.len() - i,
    {
        let p = chars_of_string(&parts[i]);
        proof {
            let prev = strings_view(parts@.subrange(0, i as int));
            let next = strings_view(parts@.subrange(0, i + 1));
            assert(next.drop_last() =~= prev);
            assert(next.last() == parts@[i as int]@);
        }
        if i > 0 {
            push_all(&mut out, sepc.as_slice());
        }
        push_all(&mut out, p.as_slice());
        i = i + 1;
        proof {
            let next = strings_view(parts@.subrange(0, i as int));
            if i == 1 {
                assert(next.len() == 1);
                assert(out@ =~= next[0]);
            }
        }
    }
    assert(parts@.subrange(0, parts@.len() as int) =~= parts@);
    out
}

} // verus!
