//! Text helpers for TLE records: whitespace trimming, splitting on newlines
//! and decimal rendering of lengths and counts.
use vstd::prelude::*;
use vstd::string::StrSliceExecFns;
use vstd::string::StringExecFns;

verus! {

/// The characters with the Unicode `White_Space` property.
pub open spec fn is_white_space(c: char) -> bool {
    ('\u{9}' <= c && c <= '\u{d}') || c == ' ' || c == '\u{85}' || c == '\u{a0}' || c
        == '\u{1680}' || ('\u{2000}' <= c && c <= '\u{200a}') || c == '\u{2028}' || c
        == '\u{2029}' || c == '\u{202f}' || c == '\u{205f}' || c == '\u{3000}'
}

/// `s` without its leading white space.
pub open spec fn strip_start(s: Seq<char>) -> Seq<char>
    decreases s.len(),
{
    if s.len() > 0 && is_white_space(s[0]) {
        strip_start(s.drop_first())
    } else {
        s
    }
}

/// `s` without its trailing white space.
pub open spec fn strip_end(s: Seq<char>) -> Seq<char>
    decreases s.len(),
{
    if s.len() > 0 && is_white_space(s.last()) {
        strip_end(s.drop_last())
    } else {
        s
    }
}

/// `s` without leading and trailing white space.
pub open spec fn trimmed(s: Seq<char>) -> Seq<char> {
    strip_end(strip_start(s))
}

/// Relies on `str::trim`: the sub-slice with leading and trailing characters of
/// the Unicode `White_Space` property removed.
#[verifier::external_body]
pub(crate) fn trim_text(s: &str) -> (r: &str)
    ensures
        r@ == trimmed(s@),
{
    s.trim()
}

/// The pieces of `s` between newline characters, in order; a text without a
/// newline is a single piece, and each newline adds one.
pub open spec fn segments(s: Seq<char>) -> Seq<Seq<char>>
    decreases s.len(),
{
    if s.len() == 0 {
        seq![Seq::<char>::empty()]
    } else {
        let p = segments(s.drop_last());
        if s.last() == '\n' {
            p.push(Seq::<char>::empty())
        } else {
            p.update(p.len() - 1, p.last().push(s.last()))
        }
    }
}

pub proof fn lemma_segments_nonempty(s: Seq<char>)
    ensures
        segments(s).len() >= 1,
    decreases s.len(),
{
    if s.len() > 0 {
        lemma_segments_nonempty(s.drop_last());
    }
}

/// A text without a newline is one segment, the text itself.
pub proof fn lemma_segments_single(s: Seq<char>)
    requires
        !s.contains('\n'),
    ensures
        segments(s) == seq![s],
    decreases s.len(),
{
    if s.len() > 0 {
        let d = s.drop_last();
        assert(!d.contains('\n')) by {
            if d.contains('\n') {
                let i = choose|i: int| 0 <= i < d.len() && d[i] == '\n';
                assert(s[i] == '\n');
            }
        }
        lemma_segments_single(d);
        assert(s[s.len() - 1] != '\n');
        assert(d.push(s.last()) =~= s);
        assert(segments(s) =~= seq![s]);
    } else {
        assert(s =~= Seq::<char>::empty());
    }
}

/// Joining two texts with a newline joins their segment lists.
pub proof fn lemma_segments_join(a: Seq<char>, b: Seq<char>)
    ensures
        segments(a + seq!['\n'] + b) == segments(a) + segments(b),
    decreases b.len(),
{
    let x = a + seq!['\n'];
    assert(a + seq!['\n'] + b =~= x + b);
    if b.len() == 0 {
        assert(x + b =~= x);
        assert(x.drop_last() =~= a);
        assert(segments(a).push(Seq::<char>::empty()) =~= segments(a) + segments(b));
    } else {
        let bd = b.drop_last();
        assert((x + b).drop_last() =~= a + seq!['\n'] + bd);
        assert((x + b).last() == b.last());
        lemma_segments_join(a, bd);
        lemma_segments_nonempty(bd);
        lemma_segments_nonempty(a);
        let p = segments(a) + segments(bd);
        let q = segments(bd);
        if b.last() == '\n' {
            assert(p.push(Seq::<char>::empty()) =~= segments(a) + q.push(Seq::<char>::empty()));
        } else {
            assert(p.update(p.len() - 1, p.last().push(b.last())) =~= segments(a) + q.update(
                q.len() - 1,
                q.last().push(b.last()),
            ));
        }
    }
}

/// Splits `s` at each newline character.
pub fn split_lines(s: &str) -> (r: Vec<&str>)
    ensures
        r@.len() == segments(s@).len(),
        forall|k: int| 0 <= k < r@.len() ==> (#[trigger] r@[k])@ == segments(s@)[k],
{
    let n = s.unicode_len();
    let mut out: Vec<&str> = Vec::new();
    let mut start: usize = 0;
    let mut i: usize = 0;
    while i < n
        invariant
            n == s@.len(),
            start <= i <= n,
            out@.len() + 1 == segments(s@.take(i as int)).len(),
            forall|k: int| 0 <= k < out@.len() ==> (#[trigger] out@[k])@ == segments(
                s@.take(i as int),
            )[k],
            segments(s@.take(i as int)).last() == s@.subrange(start as int, i as int),
        decreases n - i,
    {
        let c = s.get_char(i);
        let ghost before = s@.take(i as int);
        let ghost after = s@.take(i + 1);
        assert(after.drop_last() =~= before);
        assert(after.last() == c);
        proof {
            lemma_segments_nonempty(before);
        }
        if c == '\n' {
            let piece = s.substring_char(start, i);
            out.push(piece);
            start = i + 1;
            assert(s@.subrange(start as int, start as int) =~= Seq::<char>::empty());
        } else {
            assert(s@.subrange(start as int, i as int).push(c) =~= s@.subrange(
                start as int,
                i + 1,
            ));
        }
        i = i + 1;
    }
    assert(s@.take(n as int) =~= s@);
    let last = s.substring_char(start, n);
    out.push(last);
    out
}

/// The decimal digits, in order.
pub open spec fn digit_chars() -> Seq<char> {
    seq!['0', '1', '2', '3', '4', '5', '6', '7', '8', '9']
}

/// The decimal notation of `n`, without leading zeros.
pub open spec fn decimal(n: nat) -> Seq<char>
    decreases n,
{
    if n < 10 {
        seq![digit_chars()[n as int]]
    } else {
        decimal(n / 10).push(digit_chars()[(n % 10) as int])
    }
}

fn digit_text(d: usize) -> (r: &'static str)
    requires
        d < 10,
    ensures
        r@ == seq![digit_chars()[d as int]],
{
    let digits = "0123456789";
    proof {
        reveal_strlit("0123456789");
    }
    let r = digits.substring_char(d, d + 1);
    assert(r@ =~= seq![digit_chars()[d as int]]);
    r
}

/// Appends the decimal notation of `n` to `out`.
pub fn push_decimal(out: &mut String, n: usize)
    ensures
        final(out)@ == old(out)@ + decimal(n as nat),
    decreases n,
{
    if n < 10 {
        out.append(digit_text(n));
    } else {
        push_decimal(out, n / 10);
        out.append(digit_text(n % 10));
        assert(old(out)@ + decimal((n / 10) as nat) + seq![digit_chars()[(n % 10) as int]]
            =~= old(out)@ + decimal(n as nat));
    }
}

} // verus!
