//! Text primitives shared by the rest of the crate: byte-wise ordering of
//! strings, case folding, trimming, suffix stripping and substring rewriting.
//!
//! Strings are modelled by their sequence of characters (`s@`). Ordering is
//! defined on the UTF-8 bytes of that sequence, which is how strings compare.

use vstd::prelude::*;
use vstd::string::*;
use vstd::utf8::*;

verus! {

/// Result of a three-way comparison.
#[derive(Clone, Copy, Debug, PartialEq, Eq, Structural)]
pub enum Order {
    Less,
    Equal,
    Greater,
}

impl Order {
    /// The opposite outcome: `Less` and `Greater` trade places.
    pub open spec fn reversed(self) -> Order {
        match self {
            Order::Less => Order::Greater,
            Order::Equal => Order::Equal,
            Order::Greater => Order::Less,
        }
    }

    /// Swaps `Less` and `Greater`, keeps `Equal`.
    pub fn reverse(self) -> (r: Order)
        ensures
            r == self.reversed(),
    {
        match self {
            Order::Less => Order::Greater,
            Order::Equal => Order::Equal,
            Order::Greater => Order::Less,
        }
    }
}

/// Three-way comparison of two integers.
pub open spec fn int_order(a: int, b: int) -> Order {
    if a < b {
        Order::Less
    } else if a > b {
        Order::Greater
    } else {
        Order::Equal
    }
}

/// Lexicographic comparison of `a` and `b` from position `i` on, given that
/// they agree before `i`.
pub open spec fn lex_order_from(a: Seq<u8>, b: Seq<u8>, i: int) -> Order
    decreases a.len() - i,
{
    if i >= a.len() && i >= b.len() {
        Order::Equal
    } else if i >= a.len() {
        Order::Less
    } else if i >= b.len() {
        Order::Greater
    } else if a[i] < b[i] {
        Order::Less
    } else if a[i] > b[i] {
        Order::Greater
    } else {
        lex_order_from(a, b, i + 1)
    }
}

/// Lexicographic comparison of two byte sequences: the first differing byte
/// decides, and a proper prefix sorts before the longer sequence.
pub open spec fn lex_order(a: Seq<u8>, b: Seq<u8>) -> Order {
    lex_order_from(a, b, 0)
}

/// Byte-wise comparison of two strings, given by their characters.
pub open spec fn str_order(a: Seq<char>, b: Seq<char>) -> Order {
    lex_order(encode_utf8(a), encode_utf8(b))
}

/// From position `i` on, a sequence compares equal to itself.
pub proof fn lemma_lex_order_from_reflexive(a: Seq<u8>, i: int)
    requires
        0 <= i,
    ensures
        lex_order_from(a, a, i) == Order::Equal,
    decreases a.len() - i,
{
    if i < a.len() {
        lemma_lex_order_from_reflexive(a, i + 1);
    }
}

/// Sequences that agree before `i` and compare equal from `i` on are equal.
pub proof fn lemma_lex_order_from_equal(a: Seq<u8>, b: Seq<u8>, i: int)
    requires
        0 <= i,
        i <= a.len(),
        i <= b.len(),
        forall|k: int| 0 <= k < i ==> a[k] == b[k],
        lex_order_from(a, b, i) == Order::Equal,
    ensures
        a == b,
    decreases a.len() - i,
{
    if i >= a.len() && i >= b.len() {
        assert(a =~= b);
    } else if i < a.len() && i < b.len() {
        lemma_lex_order_from_equal(a, b, i + 1);
    }
}

/// Swapping the arguments reverses the outcome.
pub proof fn lemma_lex_order_from_antisymmetric(a: Seq<u8>, b: Seq<u8>, i: int)
    requires
        0 <= i,
    ensures
        lex_order_from(b, a, i) == lex_order_from(a, b, i).reversed(),
    decreases a.len() - i,
{
    if i < a.len() && i < b.len() && a[i] == b[i] {
        lemma_lex_order_from_antisymmetric(a, b, i + 1);
    }
}

/// The comparison composes: the outcome for `a` against `c` follows from
/// those for `a` against `b` and `b` against `c` whenever neither says `Greater`.
pub proof fn lemma_lex_order_from_transitive(a: Seq<u8>, b: Seq<u8>, c: Seq<u8>, i: int)
    requires
        0 <= i,
        lex_order_from(a, b, i) != Order::Greater,
        lex_order_from(b, c, i) != Order::Greater,
    ensures
        lex_order_from(a, c, i) != Order::Greater,
        lex_order_from(a, b, i) == Order::Less || lex_order_from(b, c, i) == Order::Less
            ==> lex_order_from(a, c, i) == Order::Less,
    decreases a.len() - i,
{
    if i < a.len() && i < b.len() && i < c.len() && a[i] == b[i] && b[i] == c[i] {
        lemma_lex_order_from_transitive(a, b, c, i + 1);
    }
}

/// A string compares equal to itself.
pub proof fn lemma_str_order_reflexive(a: Seq<char>)
    ensures
        str_order(a, a) == Order::Equal,
{
    lemma_lex_order_from_reflexive(encode_utf8(a), 0);
}

/// Two strings compare equal exactly when they are the same string.
pub proof fn lemma_str_order_equal(a: Seq<char>, b: Seq<char>)
    ensures
        str_order(a, b) == Order::Equal <==> a == b,
{
    if str_order(a, b) == Order::Equal {
        lemma_lex_order_from_equal(encode_utf8(a), encode_utf8(b), 0);
        encode_utf8_decode_utf8(a);
        encode_utf8_decode_utf8(b);
    }
    if a == b {
        lemma_str_order_reflexive(a);
    }
}

/// Swapping the two strings reverses the outcome.
pub proof fn lemma_str_order_antisymmetric(a: Seq<char>, b: Seq<char>)
    ensures
        str_order(b, a) == str_order(a, b).reversed(),
{
    lemma_lex_order_from_antisymmetric(encode_utf8(a), encode_utf8(b), 0);
}

/// Byte-wise string order is transitive.
pub proof fn lemma_str_order_transitive(a: Seq<char>, b: Seq<char>, c: Seq<char>)
    requires
        str_order(a, b) != Order::Greater,
        str_order(b, c) != Order::Greater,
    ensures
        str_order(a, c) != Order::Greater,
        str_order(a, b) == Order::Less || str_order(b, c) == Order::Less ==> str_order(a, c)
            == Order::Less,
{
    lemma_lex_order_from_transitive(encode_utf8(a), encode_utf8(b), encode_utf8(c), 0);
}

/// Compares two byte slices lexicographically.
pub fn compare_bytes(a: &[u8], b: &[u8]) -> (o: Order)
    ensures
        o == lex_order(a@, b@),
{
    let mut i: usize = 0;
    while i < a.len() && i < b.len()
        invariant
            0 <= i <= a.len(),
            i <= b.len(),
            lex_order(a@, b@) == lex_order_from(a@, b@, i as int),
        decreases a.len() - i,
    {
        if a[i] < b[i] {
            return Order::Less;
        } else if a[i] > b[i] {
            return Order::Greater;
        }
        i += 1;
    }
    if i < b.len() {
        Order::Less
    } else if i < a.len() {
        Order::Greater
    } else {
        Order::Equal
    }
}

/// Compares two strings byte by byte, as strings order themselves.
pub fn compare_str(a: &str, b: &str) -> (o: Order)
    ensures
        o == str_order(a@, b@),
{
    compare_bytes(a.as_bytes(), b.as_bytes())
}

/// Whether two strings hold the same characters.
pub fn str_eq(a: &str, b: &str) -> (r: bool)
    ensures
        r == (a@ == b@),
{
    proof {
        lemma_str_order_equal(a@, b@);
    }
    compare_str(a, b) == Order::Equal
}

/// Collects the characters of a string slice.
pub fn chars_of(s: &str) -> (v: Vec<char>)
    ensures
        v@ == s@,
{
    let mut v: Vec<char> = Vec::new();
    for c in it: s.chars()
        invariant
            v@ == it.seq().take(it.index() as int),
            it.seq() == s@,
    {
        v.push(c);
    }
    v
}

/// Appends one character to a string. Wraps `String::push`, which appends
/// the given character to the end of the string.
#[verifier::external_body]
pub(crate) fn append_char(s: &mut String, c: char)
    ensures
        final(s)@ == old(s)@.push(c),
{
    s.push(c)
}

/// Builds a string from characters.
pub fn string_of(v: &Vec<char>) -> (s: String)
    ensures
        s@ == v@,
{
    let mut s = String::new();
    let mut i: usize = 0;
    while i < v.len()
        invariant
            i <= v.len(),
            s@ == v@.take(i as int),
        decreases v.len() - i,
    {
        append_char(&mut s, v[i]);
        proof {
            assert(v@.take(i as int).push(v@[i as int]) =~= v@.take(i + 1));
        }
        i += 1;
    }
    proof {
        assert(v@.take(v.len() as int) =~= v@);
    }
    s
}

/// An owned copy of a string slice.
pub fn owned(s: &str) -> (r: String)
    ensures
        r@ == s@,
{
    s.to_owned()
}

/// The concatenation of two strings.
pub fn concat2(a: &str, b: &str) -> (r: String)
    ensures
        r@ == a@ + b@,
{
    let mut r = a.to_owned();
    r.append(b);
    r
}

/// The concatenation of three strings.
pub fn concat3(a: &str, b: &str, c: &str) -> (r: String)
    ensures
        r@ == a@ + b@ + c@,
{
    let mut r = a.to_owned();
    r.append(b);
    r.append(c);
    r
}


/// A sub-range of a character vector.
pub fn subvec(v: &Vec<char>, from: usize, to: usize) -> (r: Vec<char>)
    requires
        from <= to <= v.len(),
    ensures
        r@ == v@.subrange(from as int, to as int),
{
    let mut r: Vec<char> = Vec::new();
    let mut i: usize = from;
    while i < to
        invariant
            from <= i <= to,
            to <= v.len(),
            r@ == v@.subrange(from as int, i as int),
        decreases to - i,
    {
        r.push(v[i]);
        proof {
            assert(v@.subrange(from as int, i as int).push(v@[i as int]) =~= v@.subrange(
                from as int,
                i + 1,
            ));
        }
        i += 1;
    }
    r
}

/// Appends the characters of `tail` to `out`.
pub fn push_all(out: &mut Vec<char>, tail: &Vec<char>)
    ensures
        final(out)@ == old(out)@ + tail@,
{
    let ghost start = out@;
    let mut i: usize = 0;
    while i < tail.len()
        invariant
            i <= tail.len(),
            out@ == start + tail@.take(i as int),
        decreases tail.len() - i,
    {
        out.push(tail[i]);
        proof {
            assert(tail@.take(i as int).push(tail@[i as int]) =~= tail@.take(i + 1));
            assert((start + tail@.take(i as int)).push(tail@[i as int]) =~= start + tail@.take(
                i + 1,
            ));
        }
        i += 1;
    }
    proof {
        assert(tail@.take(tail.len() as int) =~= tail@);
    }
}

/// The characters with the Unicode property White_Space.
pub open spec fn is_white_space(c: char) -> bool {
    let u = c as u32;
    ||| 0x09 <= u <= 0x0D
    ||| u == 0x20
    ||| u == 0x85
    ||| u == 0xA0
    ||| u == 0x1680
    ||| 0x2000 <= u <= 0x200A
    ||| u == 0x2028
    ||| u == 0x2029
    ||| u == 0x202F
    ||| u == 0x205F
    ||| u == 0x3000
}

/// Whether `c` is white space.
pub fn white_space(c: char) -> (b: bool)
    ensures
        b == is_white_space(c),
{
    let u: u32 = c as u32;
    (0x09 <= u && u <= 0x0D) || u == 0x20 || u == 0x85 || u == 0xA0 || u == 0x1680 || (0x2000 <= u
        && u <= 0x200A) || u == 0x2028 || u == 0x2029 || u == 0x202F || u == 0x205F || u == 0x3000
}

/// `s` without its leading white space.
pub open spec fn trim_start(s: Seq<char>) -> Seq<char>
    decreases s.len(),
{
    if s.len() > 0 && is_white_space(s[0]) {
        trim_start(s.drop_first())
    } else {
        s
    }
}

/// `s` without its trailing white space.
pub open spec fn trim_end(s: Seq<char>) -> Seq<char>
    decreases s.len(),
{
    if s.len() > 0 && is_white_space(s.last()) {
        trim_end(s.drop_last())
    } else {
        s
    }
}

/// `s` without leading and trailing white space.
pub open spec fn trimmed(s: Seq<char>) -> Seq<char> {
    trim_end(trim_start(s))
}

/// Removes leading and trailing white space.
pub fn trim(v: &Vec<char>) -> (r: Vec<char>)
    ensures
        r@ == trimmed(v@),
{
    let mut a: usize = 0;
    proof {
        assert(v@.skip(0) =~= v@);
    }
    while a < v.len() && white_space(v[a])
        invariant
            a <= v.len(),
            trim_start(v@) == trim_start(v@.skip(a as int)),
        decreases v.len() - a,
    {
        proof {
            assert(v@.skip(a as int).drop_first() =~= v@.skip(a + 1));
        }
        a += 1;
    }
    let mut b: usize = v.len();
    proof {
        assert(v@.subrange(a as int, b as int) =~= v@.skip(a as int));
    }
    while b > a && white_space(v[b - 1])
        invariant
            a <= b <= v.len(),
            trimmed(v@) == trim_end(v@.subrange(a as int, b as int)),
        decreases b,
    {
        proof {
            assert(v@.subrange(a as int, b as int).drop_last() =~= v@.subrange(a as int, b - 1));
        }
        b -= 1;
    }
    subvec(v, a, b)
}

/// Whether `s` ends with `suffix`.
pub open spec fn ends_with(s: Seq<char>, suffix: Seq<char>) -> bool {
    suffix.len() <= s.len() && s.skip(s.len() - suffix.len()) == suffix
}

/// Whether `s` starts with `prefix`.
pub open spec fn starts_with(s: Seq<char>, prefix: Seq<char>) -> bool {
    prefix.len() <= s.len() && s.take(prefix.len() as int) == prefix
}

/// Whether `pat` stands in `s` at position `at`.
pub open spec fn matches_at(s: Seq<char>, pat: Seq<char>, at: int) -> bool {
    0 <= at && at + pat.len() <= s.len() && s.subrange(at, at + pat.len()) == pat
}

/// A pattern stands at the start of `s` exactly when `s` starts with it.
pub proof fn lemma_matches_at_start(s: Seq<char>, pat: Seq<char>)
    ensures
        matches_at(s, pat, 0) == starts_with(s, pat),
{
    if pat.len() <= s.len() {
        assert(s.subrange(0, pat.len() as int) =~= s.take(pat.len() as int));
    }
}

/// Decides whether `pat` stands in the first `len` characters of `v` at `at`.
pub fn match_at(v: &Vec<char>, len: usize, pat: &Vec<char>, at: usize) -> (r: bool)
    requires
        len <= v.len(),
    ensures
        r == matches_at(v@.take(len as int), pat@, at as int),
{
    if at > len || pat.len() > len - at {
        return false;
    }
    let ghost s = v@.take(len as int);
    let mut k: usize = 0;
    while k < pat.len()
        invariant
            k <= pat.len(),
            at + pat.len() <= len,
            len <= v.len(),
            s == v@.take(len as int),
            forall|t: int| 0 <= t < k ==> v@[at + t] == pat@[t],
        decreases pat.len() - k,
    {
        if v[at + k] != pat[k] {
            proof {
                assert(s.subrange(at as int, at + pat.len())[k as int] == v@[at + k]);
            }
            return false;
        }
        k += 1;
    }
    proof {
        assert(s.subrange(at as int, at + pat.len()) =~= pat@);
    }
    true
}

/// `s` with every trailing repetition of `suffix` removed.
pub open spec fn strip_suffix_all(s: Seq<char>, suffix: Seq<char>) -> Seq<char>
    decreases s.len(),
{
    if suffix.len() > 0 && ends_with(s, suffix) {
        strip_suffix_all(s.take(s.len() - suffix.len()), suffix)
    } else {
        s
    }
}

/// `s` with every leading repetition of `prefix` removed.
pub open spec fn strip_prefix_all(s: Seq<char>, prefix: Seq<char>) -> Seq<char>
    decreases s.len(),
{
    if prefix.len() > 0 && starts_with(s, prefix) {
        strip_prefix_all(s.skip(prefix.len() as int), prefix)
    } else {
        s
    }
}

/// Removes `suffix` from the end of `v` as often as it stands there.
pub fn trim_end_matches(v: &Vec<char>, suffix: &Vec<char>) -> (r: Vec<char>)
    ensures
        r@ == strip_suffix_all(v@, suffix@),
{
    let mut len: usize = v.len();
    proof {
        assert(v@.take(len as int) =~= v@);
    }
    if suffix.len() > 0 {
        while len >= suffix.len() && match_at(v, len, suffix, len - suffix.len())
            invariant
                len <= v.len(),
                suffix.len() > 0,
                strip_suffix_all(v@, suffix@) == strip_suffix_all(v@.take(len as int), suffix@),
            decreases len,
        {
            proof {
                let s = v@.take(len as int);
                assert(s.skip(s.len() - suffix@.len()) =~= s.subrange(
                    len - suffix@.len(),
                    len as int,
                ));
                assert(s.take(s.len() - suffix@.len()) =~= v@.take(len - suffix@.len()));
            }
            len -= suffix.len();
        }
        proof {
            let s = v@.take(len as int);
            if suffix@.len() <= s.len() {
                assert(s.skip(s.len() - suffix@.len()) =~= s.subrange(
                    len - suffix@.len(),
                    len as int,
                ));
            }
        }
    }
    proof {
        assert(v@.subrange(0, len as int) =~= v@.take(len as int));
    }
    subvec(v, 0, len)
}

/// Removes `prefix` from the start of `v` as often as it stands there.
pub fn trim_start_matches(v: &Vec<char>, prefix: &Vec<char>) -> (r: Vec<char>)
    ensures
        r@ == strip_prefix_all(v@, prefix@),
{
    let mut at: usize = 0;
    proof {
        assert(v@.skip(0) =~= v@);
        assert(v@.take(v.len() as int) =~= v@);
    }
    if prefix.len() > 0 {
        while match_at(v, v.len(), prefix, at)
            invariant
                at <= v.len(),
                prefix.len() > 0,
                v@.take(v.len() as int) == v@,
                strip_prefix_all(v@, prefix@) == strip_prefix_all(v@.skip(at as int), prefix@),
            decreases v.len() - at,
        {
            proof {
                let s = v@.skip(at as int);
                assert(s.take(prefix@.len() as int) =~= v@.subrange(
                    at as int,
                    at + prefix@.len(),
                ));
                assert(s.skip(prefix@.len() as int) =~= v@.skip(at + prefix@.len()));
            }
            at += prefix.len();
        }
        proof {
            let s = v@.skip(at as int);
            if prefix@.len() <= s.len() {
                assert(s.take(prefix@.len() as int) =~= v@.subrange(
                    at as int,
                    at + prefix@.len(),
                ));
            }
        }
    }
    proof {
        assert(v@.subrange(at as int, v.len() as int) =~= v@.skip(at as int));
    }
    subvec(v, at, v.len())
}

/// The position of the first `c` in `s`, or the length of `s` where `s`
/// holds no `c`.
pub open spec fn index_of(s: Seq<char>, c: char) -> int
    decreases s.len(),
{
    if s.len() == 0 {
        0
    } else if s[0] == c {
        0
    } else {
        1 + index_of(s.drop_first(), c)
    }
}

/// What `index_of` gives: a position at which `c` stands and before which
/// it does not, or the length.
pub proof fn lemma_index_of(s: Seq<char>, c: char)
    ensures
        0 <= index_of(s, c) <= s.len(),
        forall|k: int| 0 <= k < index_of(s, c) ==> s[k] != c,
        index_of(s, c) < s.len() ==> s[index_of(s, c)] == c,
    decreases s.len(),
{
    if s.len() > 0 && s[0] != c {
        let rest = s.drop_first();
        lemma_index_of(rest, c);
        assert forall|k: int| 0 <= k < index_of(s, c) implies s[k] != c by {
            if k > 0 {
                assert(rest[k - 1] != c);
            }
        }
    }
}

/// Where `c` does not stand before `k`, its first position is `k` if it
/// stands there, and behind `k` if it does not.
pub proof fn lemma_index_of_from(s: Seq<char>, c: char, k: int)
    requires
        0 <= k <= s.len(),
        forall|i: int| 0 <= i < k ==> s[i] != c,
    ensures
        index_of(s, c) == k + index_of(s.skip(k), c),
    decreases k,
{
    if k == 0 {
        assert(s.skip(0) =~= s);
    } else {
        let rest = s.drop_first();
        assert forall|i: int| 0 <= i < k - 1 implies rest[i] != c by {
            assert(s[i + 1] != c);
        }
        lemma_index_of_from(rest, c, k - 1);
        assert(rest.skip(k - 1) =~= s.skip(k));
    }
}

/// Finds the first `c` in `v` from position `from` on.
pub fn find_char(v: &Vec<char>, from: usize, c: char) -> (r: usize)
    requires
        from <= v.len(),
    ensures
        r == from + index_of(v@.skip(from as int), c),
        from <= r <= v.len(),
{
    let ghost tail = v@.skip(from as int);
    let mut i: usize = from;
    proof {
        lemma_index_of(tail, c);
    }
    while i < v.len() && v[i] != c
        invariant
            from <= i <= v.len(),
            tail == v@.skip(from as int),
            forall|k: int| 0 <= k < i - from ==> tail[k] != c,
        decreases v.len() - i,
    {
        i += 1;
    }
    proof {
        lemma_index_of_from(tail, c, i - from);
        if i < v.len() {
            assert(tail.skip(i - from)[0] == v@[i as int]);
        } else {
            assert(tail.skip(i - from) =~= Seq::<char>::empty());
        }
    }
    i
}

/// The pieces of `s` between occurrences of `sep`: one more than there are
/// separators, empty pieces included.
pub open spec fn split_on(s: Seq<char>, sep: char) -> Seq<Seq<char>>
    decreases s.len(),
{
    if s.len() == 0 {
        seq![Seq::<char>::empty()]
    } else {
        let before = split_on(s.drop_last(), sep);
        if s.last() == sep {
            before.push(Seq::<char>::empty())
        } else {
            before.drop_last().push(before.last().push(s.last()))
        }
    }
}

/// The model of a list of character vectors.
pub open spec fn pieces(v: Seq<Vec<char>>) -> Seq<Seq<char>> {
    Seq::new(v.len(), |i: int| v[i]@)
}

/// Splits `v` at every occurrence of `sep`.
pub fn split(v: &Vec<char>, sep: char) -> (r: Vec<Vec<char>>)
    ensures
        pieces(r@) == split_on(v@, sep),
        r@.len() >= 1,
{
    let mut done: Vec<Vec<char>> = Vec::new();
    let mut current: Vec<char> = Vec::new();
    let mut i: usize = 0;
    proof {
        assert(v@.take(0) =~= Seq::<char>::empty());
        assert(pieces(done@).push(current@) =~= seq![Seq::<char>::empty()]);
    }
    while i < v.len()
        invariant
            i <= v.len(),
            pieces(done@).push(current@) == split_on(v@.take(i as int), sep),
        decreases v.len() - i,
    {
        let ghost prev = pieces(done@).push(current@);
        proof {
            assert(v@.take(i + 1).drop_last() =~= v@.take(i as int));
            assert(prev.drop_last() =~= pieces(done@));
        }
        if v[i] == sep {
            done.push(current);
            current = Vec::new();
            proof {
                assert(pieces(done@) =~= prev);
            }
        } else {
            current.push(v[i]);
        }
        i += 1;
    }
    proof {
        assert(v@.take(v.len() as int) =~= v@);
    }
    let ghost head = pieces(done@);
    let ghost tail = current@;
    done.push(current);
    proof {
        assert(pieces(done@) =~= head.push(tail));
    }
    done
}

/// The lower-case form of a string under the Unicode case mapping, as
/// `str::to_lowercase` computes it.
pub uninterp spec fn unicode_lowercase(s: Seq<char>) -> Seq<char>;

/// Lower-cases a string. Wraps `str::to_lowercase`: the result is the
/// lower-case form of the input under the Unicode case mapping.
#[verifier::external_body]
pub(crate) fn lowercase(s: &str) -> (r: String)
    ensures
        r@ == unicode_lowercase(s@),
{
    s.to_lowercase()
}

/// The text by which a string is ordered when case is to be ignored.
pub open spec fn folded(s: Seq<char>) -> Seq<char> {
    unicode_lowercase(s)
}

/// Compares two strings by their lower-case forms, byte by byte.
pub fn compare_folded(a: &str, b: &str) -> (o: Order)
    ensures
        o == str_order(folded(a@), folded(b@)),
{
    let la = lowercase(a);
    let lb = lowercase(b);
    compare_str(la.as_str(), lb.as_str())
}

/// The ASCII lower-case form of a byte.
pub open spec fn ascii_lower_byte(b: u8) -> u8 {
    if 65 <= b <= 90 {
        (b + 32) as u8
    } else {
        b
    }
}

/// Whether two byte sequences agree up to the case of ASCII letters.
pub open spec fn bytes_eq_ignore_ascii_case(a: Seq<u8>, b: Seq<u8>) -> bool {
    a.len() == b.len() && forall|i: int|
        0 <= i < a.len() ==> ascii_lower_byte(#[trigger] a[i]) == ascii_lower_byte(b[i])
}

/// Whether two strings agree up to the case of ASCII letters.
pub open spec fn str_eq_ignore_ascii_case(a: Seq<char>, b: Seq<char>) -> bool {
    bytes_eq_ignore_ascii_case(encode_utf8(a), encode_utf8(b))
}

/// Decides whether two strings agree up to the case of ASCII letters.
pub fn eq_ignore_ascii_case(a: &str, b: &str) -> (r: bool)
    ensures
        r == str_eq_ignore_ascii_case(a@, b@),
{
    let x = a.as_bytes();
    let y = b.as_bytes();
    if x.len() != y.len() {
        return false;
    }
    let mut i: usize = 0;
    while i < x.len()
        invariant
            i <= x.len(),
            x.len() == y.len(),
            x@ == encode_utf8(a@),
            y@ == encode_utf8(b@),
            forall|k: int|
                0 <= k < i ==> ascii_lower_byte(#[trigger] x@[k]) == ascii_lower_byte(y@[k]),
        decreases x.len() - i,
    {
        let p: u8 = if 65 <= x[i] && x[i] <= 90 { x[i] + 32 } else { x[i] };
        let q: u8 = if 65 <= y[i] && y[i] <= 90 { y[i] + 32 } else { y[i] };
        if p != q {
            proof {
                assert(ascii_lower_byte(x@[i as int]) != ascii_lower_byte(y@[i as int]));
            }
            return false;
        }
        i += 1;
    }
    true
}

/// The decimal digit for a value below ten.
pub open spec fn digit_char(d: nat) -> char {
    ((48 + d) as u8) as char
}

/// The decimal numeral of `n`, without sign or leading zeros.
pub open spec fn decimal(n: nat) -> Seq<char>
    decreases n,
{
    if n < 10 {
        seq![digit_char(n)]
    } else {
        decimal(n / 10).push(digit_char(n % 10))
    }
}

/// Appends the decimal numeral of `n` to `out`.
pub fn push_decimal(out: &mut Vec<char>, n: u64)
    ensures
        final(out)@ == old(out)@ + decimal(n as nat),
    decreases n,
{
    if n >= 10 {
        push_decimal(out, n / 10);
    }
    let d: u8 = (n % 10) as u8;
    out.push((48 + d) as char);
    proof {
        if n >= 10 {
            assert(old(out)@ + decimal(n as nat) =~= (old(out)@ + decimal((n / 10) as nat)).push(
                digit_char((n % 10) as nat),
            ));
        } else {
            assert(old(out)@ + decimal(n as nat) =~= old(out)@.push(digit_char(n as nat)));
        }
    }
}

/// The decimal numeral of `n` as a string.
pub fn decimal_string(n: u64) -> (r: String)
    ensures
        r@ == decimal(n as nat),
{
    let mut out: Vec<char> = Vec::new();
    push_decimal(&mut out, n);
    proof {
        assert(Seq::<char>::empty() + decimal(n as nat) =~= decimal(n as nat));
    }
    string_of(&out)
}


/// The first position of `c` in a front piece of `s` is its first
/// position in `s` where that lies in the piece, and the length of the
/// piece where it does not.
pub proof fn lemma_index_of_take(s: Seq<char>, c: char, k: int)
    requires
        0 <= k <= s.len(),
    ensures
        index_of(s.take(k), c) == if index_of(s, c) < k {
            index_of(s, c)
        } else {
            k
        },
{
    let t = s.take(k);
    let i = index_of(s, c);
    lemma_index_of(s, c);
    if i < k {
        lemma_index_of_from(t, c, i);
        assert(t.skip(i)[0] == c);
    } else {
        lemma_index_of_from(t, c, k);
        assert(t.skip(k).len() == 0);
    }
}

/// What is left after removing trailing white space is a front piece of
/// the text.
pub proof fn lemma_trim_end_is_head(s: Seq<char>)
    ensures
        trim_end(s).len() <= s.len(),
        trim_end(s) == s.take(trim_end(s).len() as int),
        s.len() > 0 && is_white_space(s.last()) ==> trim_end(s).len() < s.len(),
    decreases s.len(),
{
    if s.len() > 0 && is_white_space(s.last()) {
        lemma_trim_end_is_head(s.drop_last());
        assert(s.drop_last().take(trim_end(s).len() as int) =~= s.take(trim_end(s).len() as int));
    } else {
        assert(s.take(s.len() as int) =~= s);
    }
}

/// What is left after removing a suffix as often as it stands at the end
/// is a front piece of the text.
pub proof fn lemma_strip_suffix_is_head(s: Seq<char>, suffix: Seq<char>)
    ensures
        strip_suffix_all(s, suffix).len() <= s.len(),
        strip_suffix_all(s, suffix) == s.take(strip_suffix_all(s, suffix).len() as int),
    decreases s.len(),
{
    if suffix.len() > 0 && ends_with(s, suffix) {
        let front = s.take(s.len() - suffix.len());
        lemma_strip_suffix_is_head(front, suffix);
        let n = strip_suffix_all(s, suffix).len() as int;
        assert(front.take(n) =~= s.take(n));
    } else {
        assert(s.take(s.len() as int) =~= s);
    }
}

/// A text that is empty or starts with something other than white space.
pub open spec fn starts_clean(s: Seq<char>) -> bool {
    s.len() == 0 || !is_white_space(s[0])
}

/// What is left after removing leading white space starts with none.
pub proof fn lemma_trim_start_starts_clean(s: Seq<char>)
    ensures
        starts_clean(trim_start(s)),
        starts_clean(s) ==> trim_start(s) == s,
    decreases s.len(),
{
    if s.len() > 0 && is_white_space(s[0]) {
        lemma_trim_start_starts_clean(s.drop_first());
    }
}

/// Removing trailing white space makes a text no longer, leaves its start
/// as it is, and leaves no white space at its end.
pub proof fn lemma_trim_end_keeps_start(s: Seq<char>)
    ensures
        trim_end(s).len() <= s.len(),
        starts_clean(s) ==> starts_clean(trim_end(s)),
        trim_end(s).len() == 0 || !is_white_space(trim_end(s).last()),
    decreases s.len(),
{
    if s.len() > 0 && is_white_space(s.last()) {
        lemma_trim_end_keeps_start(s.drop_last());
    }
}

/// Removing a suffix as often as it stands at the end leaves the start of
/// the text as it is, and leaves a text that does not end with the suffix.
pub proof fn lemma_strip_suffix_keeps_start(s: Seq<char>, suffix: Seq<char>)
    requires
        suffix.len() > 0,
    ensures
        starts_clean(s) ==> starts_clean(strip_suffix_all(s, suffix)),
        !ends_with(strip_suffix_all(s, suffix), suffix),
    decreases s.len(),
{
    if ends_with(s, suffix) {
        lemma_strip_suffix_keeps_start(s.take(s.len() - suffix.len()), suffix);
    }
}

/// Trailing white space is removed behind a prefix that ends in other text.
pub proof fn lemma_trim_end_behind(p: Seq<char>, r: Seq<char>)
    requires
        p.len() > 0,
        !is_white_space(p.last()),
    ensures
        trim_end(p + r) == p + trim_end(r),
    decreases r.len(),
{
    if r.len() == 0 {
        assert(p + r =~= p);
    } else if is_white_space(r.last()) {
        assert((p + r).drop_last() =~= p + r.drop_last());
        lemma_trim_end_behind(p, r.drop_last());
    }
}

/// What is left after removing leading white space is an end piece of the text.
pub proof fn lemma_trim_start_is_tail(s: Seq<char>)
    ensures
        exists|k: int| 0 <= k <= s.len() && trim_start(s) == #[trigger] s.skip(k),
    decreases s.len(),
{
    if s.len() > 0 && is_white_space(s[0]) {
        lemma_trim_start_is_tail(s.drop_first());
        let k = choose|k: int|
            0 <= k <= s.drop_first().len() && trim_start(s.drop_first()) == #[trigger] s.drop_first().skip(
                k,
            );
        assert(s.drop_first().skip(k) =~= s.skip(k + 1));
    } else {
        assert(s.skip(0) =~= s);
    }
}

/// Leading white space is removed in front of text that follows other text.
pub proof fn lemma_trim_start_before(u: Seq<char>, g: Seq<char>)
    requires
        u.len() > 0,
        !is_white_space(u.last()),
    ensures
        trim_start(u + g) == trim_start(u) + g,
    decreases u.len(),
{
    if is_white_space(u[0]) {
        assert(u.len() > 1);
        assert((u + g).drop_first() =~= u.drop_first() + g);
        lemma_trim_start_before(u.drop_first(), g);
    }
}

/// A suffix is stripped behind a prefix into which no match can reach.
pub proof fn lemma_strip_suffix_behind(p: Seq<char>, x: Seq<char>, suffix: Seq<char>)
    requires
        p.len() > 0,
        forall|j: int| 0 <= j < suffix.len() ==> #[trigger] suffix[j] != p.last(),
    ensures
        strip_suffix_all(p + x, suffix) == p + strip_suffix_all(x, suffix),
    decreases x.len(),
{
    let s = p + x;
    if suffix.len() > 0 && ends_with(s, suffix) {
        if x.len() < suffix.len() {
            let j = suffix.len() - x.len() - 1;
            assert(s.skip(s.len() - suffix.len())[j] == p.last());
            assert(suffix[j] != p.last());
        }
        assert(x.skip(x.len() - suffix.len()) =~= s.skip(s.len() - suffix.len()));
        assert(s.take(s.len() - suffix.len()) =~= p + x.take(x.len() - suffix.len()));
        lemma_strip_suffix_behind(p, x.take(x.len() - suffix.len()), suffix);
    } else if suffix.len() > 0 && ends_with(x, suffix) {
        assert(x.skip(x.len() - suffix.len()) =~= s.skip(s.len() - suffix.len()));
    }
}


/// `s` without one carriage return at its end, if it has one.
pub open spec fn without_cr(s: Seq<char>) -> Seq<char> {
    if s.len() > 0 && s.last() == '\r' {
        s.drop_last()
    } else {
        s
    }
}

/// The lines of a text. Lines end at a line feed; a carriage return before
/// the line feed belongs to the line ending. What follows the last line
/// feed is a line of its own unless it is empty.
pub open spec fn lines_of(s: Seq<char>) -> Seq<Seq<char>> {
    let parts = split_on(s, '\n');
    let ended = Seq::new((parts.len() - 1) as nat, |i: int| without_cr(parts[i]));
    if parts.last().len() == 0 {
        ended
    } else {
        ended.push(parts.last())
    }
}

/// Splits a text into its lines.
pub fn split_lines(s: &str) -> (r: Vec<String>)
    ensures
        r.deep_view() == lines_of(s@),
{
    let chars = chars_of(s);
    let parts = split(&chars, '\n');
    let ghost model = split_on(s@, '\n');
    let mut out: Vec<String> = Vec::new();
    let mut i: usize = 0;
    while i + 1 < parts.len()
        invariant
            i + 1 <= parts.len(),
            parts@.len() >= 1,
            pieces(parts@) == model,
            out.deep_view() == Seq::new(i as nat, |k: int| without_cr(model[k])),
        decreases parts.len() - i,
    {
        let ghost before = out.deep_view();
        let part = &parts[i];
        proof {
            assert(model[i as int] == parts@[i as int]@);
        }
        let line = if part.len() > 0 && part[part.len() - 1] == '\r' {
            let cut = subvec(part, 0, part.len() - 1);
            proof {
                assert(part@.subrange(0, part.len() - 1) =~= part@.drop_last());
            }
            string_of(&cut)
        } else {
            string_of(part)
        };
        out.push(line);
        proof {
            assert(out.deep_view() =~= before.push(without_cr(model[i as int])));
            assert(before.push(without_cr(model[i as int])) =~= Seq::new(
                (i + 1) as nat,
                |k: int| without_cr(model[k]),
            ));
        }
        i += 1;
    }
    let last = &parts[parts.len() - 1];
    proof {
        assert(model.last() == parts@[parts.len() - 1]@);
    }
    if last.len() > 0 {
        let ghost before = out.deep_view();
        out.push(string_of(last));
        proof {
            assert(out.deep_view() =~= before.push(model.last()));
        }
    }
    out
}


/// Appends one character to a string.
pub fn push_char(s: &mut String, c: char)
    ensures
        final(s)@ == old(s)@.push(c),
{
    append_char(s, c);
}

/// Removes the last character of a string, if it has one.
pub fn pop_char(s: &mut String)
    ensures
        final(s)@ == if old(s)@.len() > 0 {
            old(s)@.drop_last()
        } else {
            old(s)@
        },
{
    let chars = chars_of(s.as_str());
    if chars.len() > 0 {
        let kept = subvec(&chars, 0, chars.len() - 1);
        proof {
            assert(chars@.subrange(0, chars.len() - 1) =~= chars@.drop_last());
        }
        *s = string_of(&kept);
    }
}

/// `parts` joined with `sep` between every two of them.
pub open spec fn joined(parts: Seq<Seq<char>>, sep: Seq<char>) -> Seq<char>
    decreases parts.len(),
{
    if parts.len() == 0 {
        Seq::empty()
    } else if parts.len() == 1 {
        parts[0]
    } else {
        joined(parts.drop_last(), sep) + sep + parts.last()
    }
}

/// Joins strings with a separator between every two of them.
pub fn join(parts: &Vec<String>, sep: &str) -> (r: String)
    ensures
        r@ == joined(parts.deep_view(), sep@),
{
    let mut out = String::new();
    let mut i: usize = 0;
    proof {
        assert(parts.deep_view().take(0) =~= Seq::<Seq<char>>::empty());
    }
    while i < parts.len()
        invariant
            i <= parts.len(),
            out@ == joined(parts.deep_view().take(i as int), sep@),
        decreases parts.len() - i,
    {
        proof {
            let now = parts.deep_view().take(i + 1);
            assert(now.drop_last() =~= parts.deep_view().take(i as int));
            assert(now.last() == parts@[i as int]@);
            if i == 0 {
                assert(Seq::<char>::empty() + parts@[i as int]@ =~= parts@[i as int]@);
            }
        }
        if i > 0 {
            out = concat3(out.as_str(), sep, parts[i].as_str());
        } else {
            out = concat2(out.as_str(), parts[i].as_str());
        }
        i += 1;
    }
    proof {
        assert(parts.deep_view().take(parts.len() as int) =~= parts.deep_view());
    }
    out
}

/// The pieces of `parts` that are not empty, in order.
pub open spec fn non_empty(parts: Seq<Seq<char>>) -> Seq<Seq<char>>
    decreases parts.len(),
{
    if parts.len() == 0 {
        parts
    } else if parts.last().len() == 0 {
        non_empty(parts.drop_last())
    } else {
        non_empty(parts.drop_last()).push(parts.last())
    }
}

/// Splits `s` at every `sep` and keeps the pieces that are not empty.
pub fn split_non_empty(s: &str, sep: char) -> (r: Vec<String>)
    ensures
        r.deep_view() == non_empty(split_on(s@, sep)),
{
    let chars = chars_of(s);
    let parts = split(&chars, sep);
    let ghost model = split_on(s@, sep);
    let mut out: Vec<String> = Vec::new();
    let mut i: usize = 0;
    proof {
        assert(model.take(0) =~= Seq::<Seq<char>>::empty());
    }
    while i < parts.len()
        invariant
            i <= parts.len(),
            pieces(parts@) == model,
            out.deep_view() == non_empty(model.take(i as int)),
        decreases parts.len() - i,
    {
        let ghost before = out.deep_view();
        proof {
            assert(model.take(i + 1).drop_last() =~= model.take(i as int));
            assert(model.take(i + 1).last() == parts@[i as int]@);
        }
        if parts[i].len() > 0 {
            out.push(string_of(&parts[i]));
            proof {
                assert(out.deep_view() =~= before.push(parts@[i as int]@));
            }
        }
        i += 1;
    }
    proof {
        assert(model.take(parts.len() as int) =~= model);
    }
    out
}

/// Whether `s` starts with `prefix`.
pub fn str_starts_with(s: &str, prefix: &str) -> (r: bool)
    ensures
        r == starts_with(s@, prefix@),
{
    let a = chars_of(s);
    let b = chars_of(prefix);
    proof {
        assert(a@.take(a.len() as int) =~= a@);
        lemma_matches_at_start(a@, b@);
    }
    match_at(&a, a.len(), &b, 0)
}

/// `s` without every leading repetition of `prefix`.
pub fn str_trim_start_matches(s: &str, prefix: &str) -> (r: String)
    ensures
        r@ == strip_prefix_all(s@, prefix@),
{
    let a = chars_of(s);
    let b = chars_of(prefix);
    let c = trim_start_matches(&a, &b);
    string_of(&c)
}

/// `s` without leading and trailing white space.
pub fn str_trim(s: &str) -> (r: String)
    ensures
        r@ == trimmed(s@),
{
    let a = chars_of(s);
    let b = trim(&a);
    string_of(&b)
}


/// Whether `c` is one of the digits `0` to `9`.
pub open spec fn is_digit(c: char) -> bool {
    '0' <= c <= '9'
}

/// Whether `s` consists of digits, at least one.
pub open spec fn is_numeral(s: Seq<char>) -> bool {
    s.len() > 0 && forall|i: int| 0 <= i < s.len() ==> is_digit(#[trigger] s[i])
}

/// The number that the digits of `s` denote in base ten.
pub open spec fn numeral_value(s: Seq<char>) -> nat
    decreases s.len(),
{
    if s.len() == 0 {
        0
    } else {
        numeral_value(s.drop_last()) * 10 + ((s.last() as u32 - 48) as nat)
    }
}

/// The number that a longer numeral denotes is no smaller than that of its
/// beginning.
pub proof fn lemma_numeral_value_grows(s: Seq<char>, i: int)
    requires
        0 <= i <= s.len(),
        forall|k: int| 0 <= k < s.len() ==> is_digit(#[trigger] s[k]),
    ensures
        numeral_value(s.take(i)) <= numeral_value(s),
    decreases s.len() - i,
{
    if i < s.len() {
        lemma_numeral_value_grows(s, i + 1);
        assert(s.take(i + 1).drop_last() =~= s.take(i));
    } else {
        assert(s.take(i) =~= s);
    }
}

/// The magnitude of the decimal number `s` if it is a numeral denoting at
/// most `limit`.
pub open spec fn bounded_numeral(s: Seq<char>, limit: nat) -> Option<nat> {
    if is_numeral(s) && numeral_value(s) <= limit {
        Some(numeral_value(s))
    } else {
        None
    }
}

/// Reads the numeral in `v` from `from` on, if it denotes at most `limit`.
pub fn parse_numeral(v: &Vec<char>, from: usize, limit: u64) -> (r: Option<u64>)
    requires
        from <= v.len(),
    ensures
        match r {
            Some(n) => bounded_numeral(v@.skip(from as int), limit as nat) == Some(n as nat),
            None => bounded_numeral(v@.skip(from as int), limit as nat) is None,
        },
{
    let ghost body = v@.skip(from as int);
    if from == v.len() {
        return None;
    }
    let mut acc: u64 = 0;
    let mut i: usize = from;
    proof {
        assert(body.take(0) =~= Seq::<char>::empty());
    }
    while i < v.len()
        invariant
            from <= i <= v.len(),
            from < v.len(),
            body == v@.skip(from as int),
            forall|k: int| 0 <= k < i - from ==> is_digit(#[trigger] body[k]),
            acc == numeral_value(body.take(i - from)),
            acc <= limit,
        decreases v.len() - i,
    {
        let c = v[i];
        proof {
            assert(body[i - from] == c);
            assert(body.take(i - from + 1).drop_last() =~= body.take(i - from));
        }
        if !('0' <= c && c <= '9') {
            return None;
        }
        let d: u64 = (c as u32 - 48) as u64;
        if d > limit || acc > (limit - d) / 10 {
            proof {
                assert(numeral_value(body.take(i - from + 1)) > limit);
                if is_numeral(body) {
                    lemma_numeral_value_grows(body, i - from + 1);
                }
            }
            return None;
        }
        acc = acc * 10 + d;
        i += 1;
    }
    proof {
        assert(body.take(i - from) =~= body);
    }
    Some(acc)
}

/// The number that `s` denotes as an unsigned decimal number of 32 bits:
/// digits, with a plus sign in front if one likes.
pub open spec fn parsed_u32(s: Seq<char>) -> Option<u32> {
    let body = if s.len() > 0 && s[0] == '+' {
        s.skip(1)
    } else {
        s
    };
    match bounded_numeral(body, u32::MAX as nat) {
        Some(n) => Some(n as u32),
        None => None,
    }
}

/// Reads an unsigned decimal number of 32 bits.
pub fn parse_u32(s: &str) -> (r: Option<u32>)
    ensures
        r == parsed_u32(s@),
{
    let v = chars_of(s);
    let from: usize = if v.len() > 0 && v[0] == '+' {
        1
    } else {
        0
    };
    proof {
        assert(v@.skip(0) =~= v@);
    }
    match parse_numeral(&v, from, u32::MAX as u64) {
        Some(n) => Some(n as u32),
        None => None,
    }
}

/// The number that `s` denotes as a signed decimal number of 64 bits:
/// digits, with a plus or minus sign in front if one likes.
pub open spec fn parsed_i64(s: Seq<char>) -> Option<i64> {
    if s.len() > 0 && s[0] == '-' {
        match bounded_numeral(s.skip(1), 0x8000_0000_0000_0000) {
            Some(n) => Some((-(n as int)) as i64),
            None => None,
        }
    } else {
        let body = if s.len() > 0 && s[0] == '+' {
            s.skip(1)
        } else {
            s
        };
        match bounded_numeral(body, i64::MAX as nat) {
            Some(n) => Some(n as i64),
            None => None,
        }
    }
}

/// Reads a signed decimal number of 64 bits.
pub fn parse_i64(s: &str) -> (r: Option<i64>)
    ensures
        r == parsed_i64(s@),
{
    let v = chars_of(s);
    proof {
        assert(v@.skip(0) =~= v@);
    }
    if v.len() > 0 && v[0] == '-' {
        match parse_numeral(&v, 1, 0x8000_0000_0000_0000) {
            Some(n) => {
                if n == 0x8000_0000_0000_0000 {
                    Some(i64::MIN)
                } else {
                    Some(-(n as i64))
                }
            },
            None => None,
        }
    } else {
        let from: usize = if v.len() > 0 && v[0] == '+' {
            1
        } else {
            0
        };
        match parse_numeral(&v, from, i64::MAX as u64) {
            Some(n) => Some(n as i64),
            None => None,
        }
    }
}

} // verus!
