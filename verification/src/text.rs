//! Text helpers: prefixes, splitting at a separator, and UTF-8 decoding.
use vstd::prelude::*;
use vstd::string::*;
use vstd::utf8::*;

verus! {

/// `s` begins with `p`.
pub open spec fn has_prefix(s: Seq<char>, p: Seq<char>) -> bool {
    p.len() <= s.len() && s.take(p.len() as int) == p
}

/// The pieces of `s` between the occurrences of `sep`, as `str::split`
/// gives them: one piece more than there are separators, empty pieces kept.
pub open spec fn split_on(s: Seq<char>, sep: char) -> Seq<Seq<char>>
    decreases s.len(),
{
    if s.len() == 0 {
        seq![Seq::<char>::empty()]
    } else {
        let r = split_on(s.drop_last(), sep);
        if s.last() == sep {
            r.push(Seq::<char>::empty())
        } else {
            r.update(r.len() - 1, r.last().push(s.last()))
        }
    }
}

/// The number of occurrences of `sep` in `s`.
pub open spec fn count_char(s: Seq<char>, sep: char) -> nat
    decreases s.len(),
{
    if s.len() == 0 {
        0
    } else {
        count_char(s.drop_last(), sep) + if s.last() == sep { 1nat } else { 0nat }
    }
}

/// `s` holds no `sep`.
pub open spec fn lacks(s: Seq<char>, sep: char) -> bool {
    forall|i: int| 0 <= i < s.len() ==> s[i] != sep
}

/// Splitting gives one piece more than there are separators.
pub proof fn lemma_split_len(s: Seq<char>, sep: char)
    ensures
        split_on(s, sep).len() == count_char(s, sep) + 1,
    decreases s.len(),
{
    if s.len() > 0 {
        lemma_split_len(s.drop_last(), sep);
    }
}

/// A text without the separator is a single piece.
pub proof fn lemma_split_lacks(x: Seq<char>, sep: char)
    requires
        lacks(x, sep),
    ensures
        split_on(x, sep) == seq![x],
    decreases x.len(),
{
    if x.len() > 0 {
        lemma_split_lacks(x.drop_last(), sep);
        assert(x.drop_last().push(x.last()) =~= x);
        assert(seq![x.drop_last()].update(0, x.drop_last().push(x.last())) =~= seq![x]);
    } else {
        assert(x =~= Seq::<char>::empty());
    }
}

/// A first piece without the separator is split off at the first separator.
pub proof fn lemma_split_first(x: Seq<char>, y: Seq<char>, sep: char)
    requires
        lacks(x, sep),
    ensures
        split_on(x + seq![sep] + y, sep) == seq![x] + split_on(y, sep),
    decreases y.len(),
{
    let s = x + seq![sep] + y;
    if y.len() == 0 {
        assert(s.drop_last() =~= x);
        lemma_split_lacks(x, sep);
        assert(y =~= Seq::<char>::empty());
        assert(seq![x].push(Seq::<char>::empty()) =~= seq![x] + seq![Seq::<char>::empty()]);
    } else {
        let y1 = y.drop_last();
        assert(s.drop_last() =~= x + seq![sep] + y1);
        assert(s.last() == y.last());
        lemma_split_first(x, y1, sep);
        lemma_split_len(y1, sep);
        let r = split_on(y1, sep);
        if y.last() == sep {
            assert((seq![x] + r).push(Seq::<char>::empty()) =~= seq![x] + r.push(Seq::<char>::empty()));
        } else {
            let q = seq![x] + r;
            assert(q.update(q.len() - 1, q.last().push(y.last())) =~= seq![x] + r.update(
                r.len() - 1,
                r.last().push(y.last()),
            ));
        }
    }
}

/// Three pieces joined by two separators split back into those pieces.
pub proof fn lemma_split_three(a: Seq<char>, b: Seq<char>, c: Seq<char>, sep: char)
    requires
        lacks(a, sep),
        lacks(b, sep),
        lacks(c, sep),
    ensures
        split_on(a + seq![sep] + b + seq![sep] + c, sep) == seq![a, b, c],
{
    let bc = b + seq![sep] + c;
    assert(a + seq![sep] + b + seq![sep] + c =~= a + seq![sep] + bc);
    lemma_split_first(a, bc, sep);
    lemma_split_first(b, c, sep);
    lemma_split_lacks(c, sep);
    assert(seq![a] + (seq![b] + seq![c]) =~= seq![a, b, c]);
}

/// A text with separators at `p1` and `p2` and none elsewhere splits into
/// the three pieces around them.
pub proof fn lemma_split_at(s: Seq<char>, p1: int, p2: int, sep: char)
    requires
        0 <= p1 < p2 < s.len(),
        s[p1] == sep,
        s[p2] == sep,
        lacks(s.take(p1), sep),
        lacks(s.subrange(p1 + 1, p2), sep),
        lacks(s.skip(p2 + 1), sep),
    ensures
        split_on(s, sep) == seq![s.take(p1), s.subrange(p1 + 1, p2), s.skip(p2 + 1)],
{
    assert(s =~= s.take(p1) + seq![sep] + s.subrange(p1 + 1, p2) + seq![sep] + s.skip(p2 + 1));
    lemma_split_three(s.take(p1), s.subrange(p1 + 1, p2), s.skip(p2 + 1), sep);
}

/// The UTF-8 of a text is at most four bytes per character.
pub proof fn lemma_encode_utf8_len(s: Seq<char>)
    ensures
        encode_utf8(s).len() <= 4 * s.len(),
    decreases s.len(),
{
    if s.len() > 0 {
        lemma_encode_utf8_len(s.drop_first());
        assert(encode_scalar(s[0] as u32).len() <= 4);
    }
}

/// Strips `prefix` from the front of `s`, as `str::strip_prefix` does.
pub fn strip_prefix<'a>(s: &'a str, prefix: &str) -> (res: Option<&'a str>)
    ensures
        match res {
            Some(r) => has_prefix(s@, prefix@) && r@ == s@.skip(prefix@.len() as int),
            None => !has_prefix(s@, prefix@),
        },
{
    let n = prefix.unicode_len();
    let m = s.unicode_len();
    if n > m {
        return None;
    }
    let mut i: usize = 0;
    while i < n
        invariant
            n == prefix@.len(),
            m == s@.len(),
            n <= m,
            i <= n,
            forall|j: int| 0 <= j < i ==> s@[j] == prefix@[j],
        decreases n - i,
    {
        if s.get_char(i) != prefix.get_char(i) {
            assert(s@.take(n as int)[i as int] != prefix@[i as int]);
            return None;
        }
        i = i + 1;
    }
    assert(s@.take(n as int) =~= prefix@);
    Some(s.substring_char(n, m))
}

/// Splits `s` at `sep` when it holds exactly two occurrences of it.
pub fn split_three<'a>(s: &'a str, sep: char) -> (res: Option<(&'a str, &'a str, &'a str)>)
    ensures
        match res {
            Some((a, b, c)) => split_on(s@, sep) == seq![a@, b@, c@],
            None => split_on(s@, sep).len() != 3,
        },
{
    let m = s.unicode_len();
    let mut count: usize = 0;
    let mut p1: usize = 0;
    let mut p2: usize = 0;
    let mut i: usize = 0;
    while i < m
        invariant
            m == s@.len(),
            i <= m,
            count <= i,
            count == count_char(s@.take(i as int), sep),
            count >= 1 ==> p1 < i && s@[p1 as int] == sep && lacks(s@.take(p1 as int), sep),
            count >= 2 ==> p1 < p2 < i && s@[p2 as int] == sep && lacks(
                s@.subrange(p1 + 1, p2 as int),
                sep,
            ),
            count == 0 ==> lacks(s@.take(i as int), sep),
            count == 1 ==> lacks(s@.subrange(p1 + 1, i as int), sep),
            count == 2 ==> lacks(s@.subrange(p2 + 1, i as int), sep),
        decreases m - i,
    {
        let ch = s.get_char(i);
        assert(s@.take(i + 1).drop_last() =~= s@.take(i as int));
        if ch == sep {
            if count == 0 {
                p1 = i;
            } else if count == 1 {
                p2 = i;
            }
            count = count + 1;
        }
        i = i + 1;
    }
    assert(s@.take(m as int) =~= s@);
    proof {
        lemma_split_len(s@, sep);
    }
    if count != 2 {
        return None;
    }
    assert(s@.subrange(p2 + 1, m as int) =~= s@.skip(p2 + 1));
    let a = s.substring_char(0, p1);
    let b = s.substring_char(p1 + 1, p2);
    let c = s.substring_char(p2 + 1, m);
    proof {
        lemma_split_at(s@, p1 as int, p2 as int, sep);
        assert(a@ =~= s@.take(p1 as int));
        assert(c@ =~= s@.skip(p2 + 1));
    }
    Some((a, b, c))
}


#[verifier::external_type_specification]
#[verifier::external_body]
pub struct ExFromUtf8Error(std::string::FromUtf8Error);

/// Calls `String::from_utf8`. Trusted: as std documents, it succeeds exactly
/// when the bytes are valid UTF-8, and the text is then what they encode.
#[verifier::external_body]
pub fn string_from_utf8(bytes: Vec<u8>) -> (res: Result<String, std::string::FromUtf8Error>)
    ensures
        res is Ok <==> valid_utf8(bytes@),
        res matches Ok(s) ==> s@ == decode_utf8(bytes@),
{
    String::from_utf8(bytes)
}

/// Whether two texts are equal, as `==` on `str` tells.
pub fn str_eq(a: &str, b: &str) -> (res: bool)
    ensures
        res == (a@ == b@),
{
    let n = a.unicode_len();
    if n != b.unicode_len() {
        return false;
    }
    let mut i: usize = 0;
    while i < n
        invariant
            n == a@.len(),
            n == b@.len(),
            i <= n,
            forall|j: int| 0 <= j < i ==> a@[j] == b@[j],
        decreases n - i,
    {
        if a.get_char(i) != b.get_char(i) {
            return false;
        }
        i = i + 1;
    }
    assert(a@ =~= b@);
    true
}

/// What `String::from_utf8_lossy` gives for bytes that are not valid UTF-8:
/// the text they encode, each invalid sequence replaced by U+FFFD.
pub uninterp spec fn utf8_lossy_of_invalid(bytes: Seq<u8>) -> Seq<char>;

/// The text of some bytes read as UTF-8 with replacement: valid UTF-8 reads
/// as what it encodes.
pub open spec fn utf8_lossy(bytes: Seq<u8>) -> Seq<char> {
    if valid_utf8(bytes) {
        decode_utf8(bytes)
    } else {
        utf8_lossy_of_invalid(bytes)
    }
}

/// Calls `String::from_utf8_lossy` and takes the owned text. Trusted: as std
/// documents, valid UTF-8 comes back as the text it encodes; on other bytes
/// the result is `utf8_lossy_of_invalid` of them.
#[verifier::external_body]
pub fn string_from_utf8_lossy(bytes: &[u8]) -> (res: String)
    ensures
        valid_utf8(bytes@) ==> res@ == decode_utf8(bytes@),
        !valid_utf8(bytes@) ==> res@ == utf8_lossy_of_invalid(bytes@),
{
    String::from_utf8_lossy(bytes).into_owned()
}

} // verus!
