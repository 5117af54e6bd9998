//! Whitespace normalization of a recovery phrase.
use vstd::prelude::*;

verus! {

/// The characters that separate the words of a phrase: Unicode's `White_Space` set,
/// the characters on which `str::split_whitespace` splits.
pub open spec fn is_separator(c: char) -> bool {
    let u = c as u32;
    ||| 0x09 <= u <= 0x0d
    ||| u == 0x20
    ||| u == 0x85
    ||| u == 0xa0
    ||| u == 0x1680
    ||| 0x2000 <= u <= 0x200a
    ||| u == 0x2028
    ||| u == 0x2029
    ||| u == 0x202f
    ||| u == 0x205f
    ||| u == 0x3000
}

/// The normalized form of `s`: its words in order, each pair separated by one
/// ASCII space, with nothing before the first word or after the last.
///
/// Read left to right: a separator is dropped, and a word character is copied,
/// preceded by a single space when it starts a word that is not the first.
pub open spec fn normalized(s: Seq<char>) -> Seq<char>
    decreases s.len(),
{
    if s.len() == 0 {
        s
    } else {
        let prev = s.drop_last();
        let c = s.last();
        if is_separator(c) {
            normalized(prev)
        } else if normalized(prev).len() > 0 && is_separator(prev.last()) {
            normalized(prev) + seq![' ', c]
        } else {
            normalized(prev).push(c)
        }
    }
}

/// Whether `c` separates words.
pub fn separates_words(c: char) -> (r: bool)
    ensures
        r == is_separator(c),
{
    let u = c as u32;
    (0x09 <= u && u <= 0x0d) || u == 0x20 || u == 0x85 || u == 0xa0 || u == 0x1680 || (0x2000
        <= u && u <= 0x200a) || u == 0x2028 || u == 0x2029 || u == 0x202f || u == 0x205f || u
        == 0x3000
}

/// Relies on `String::with_capacity`: an empty string. Reserving room up front keeps
/// the text from being moved, which would leave an unwiped copy behind.
#[verifier::external_body]
fn empty_text(capacity: usize) -> (r: String)
    ensures
        r@ == Seq::<char>::empty(),
{
    String::with_capacity(capacity)
}

/// Relies on `String::push`: appends one character.
#[verifier::external_body]
fn push_char(s: &mut String, c: char)
    ensures
        final(s)@ == old(s)@.push(c),
{
    s.push(c)
}

/// Collapses every run of separators in `input` to one ASCII space and drops
/// those at either end.
pub fn normalize_phrase(input: &str) -> (r: String)
    ensures
        r@ == normalized(input@),
{
    let mut out = empty_text(input.len());
    let mut after_separator = false;
    let mut started = false;
    let ghost mut seen: Seq<char> = Seq::empty();
    for c in it: input.chars()
        invariant
            it.seq() == input@,
            seen == input@.subrange(0, it.index() as int),
            out@ == normalized(seen),
            after_separator == (seen.len() > 0 && is_separator(seen.last())),
            started == (out@.len() > 0),
    {
        proof {
            let next = seen.push(c);
            assert(next.drop_last() == seen);
            assert(next == input@.subrange(0, it.index() + 1));
        }
        if separates_words(c) {
            after_separator = true;
        } else {
            if after_separator && started {
                push_char(&mut out, ' ');
            }
            push_char(&mut out, c);
            after_separator = false;
            started = true;
        }
        proof {
            seen = seen.push(c);
        }
    }
    proof {
        assert(seen == input@);
    }
    out
}

/// Every character of `w` is a separator.
pub open spec fn all_separators(w: Seq<char>) -> bool {
    forall|i: int| 0 <= i < w.len() ==> is_separator(#[trigger] w[i])
}

/// `t` is already in normalized form: each separator in it is a single ASCII space
/// with a word character on both sides.
pub open spec fn is_normal_form(t: Seq<char>) -> bool {
    forall|i: int|
        0 <= i < t.len() && is_separator(#[trigger] t[i]) ==> {
            &&& t[i] == ' '
            &&& 0 < i < t.len() - 1
            &&& !is_separator(t[i - 1])
            &&& !is_separator(t[i + 1])
        }
}

/// Like `is_normal_form`, except that `t` may end in the space that opens a new word.
spec fn is_open_normal_form(t: Seq<char>) -> bool {
    forall|i: int|
        0 <= i < t.len() && is_separator(#[trigger] t[i]) ==> {
            &&& t[i] == ' '
            &&& 0 < i
            &&& !is_separator(t[i - 1])
            &&& i + 1 < t.len() ==> !is_separator(t[i + 1])
        }
}

proof fn lemma_open_normal_form_fixed(t: Seq<char>)
    requires
        is_open_normal_form(t),
    ensures
        normalized(t) == (if t.len() > 0 && is_separator(t.last()) {
            t.drop_last()
        } else {
            t
        }),
    decreases t.len(),
{
    if t.len() > 0 {
        let prev = t.drop_last();
        let n = t.len() as int;
        assert forall|i: int| 0 <= i < prev.len() && is_separator(#[trigger] prev[i]) implies {
            &&& prev[i] == ' '
            &&& 0 < i
            &&& !is_separator(prev[i - 1])
            &&& i + 1 < prev.len() ==> !is_separator(prev[i + 1])
        } by {
            assert(is_separator(t[i]));
        }
        lemma_open_normal_form_fixed(prev);
        if is_separator(t.last()) {
            assert(is_separator(t[n - 1]));
            assert(!is_separator(prev.last()));
        } else if prev.len() > 0 && is_separator(prev.last()) {
            assert(is_separator(t[n - 2]));
            assert(n - 2 > 0);
            assert(prev.drop_last() + seq![' ', t.last()] =~= t);
        } else {
            assert(prev.push(t.last()) =~= t);
        }
    }
}

proof fn lemma_normalized_is_normal_form(s: Seq<char>)
    ensures
        is_normal_form(normalized(s)),
    decreases s.len(),
{
    if s.len() > 0 {
        let prev = s.drop_last();
        let c = s.last();
        let np = normalized(prev);
        lemma_normalized_is_normal_form(prev);
        if np.len() > 0 {
            let k = np.len() - 1;
            if is_separator(np[k]) {
                assert(false);
            }
        }
        if is_separator(c) {
        } else {
            let t = normalized(s);
            assert forall|i: int| 0 <= i < t.len() && is_separator(#[trigger] t[i]) implies {
                &&& t[i] == ' '
                &&& 0 < i < t.len() - 1
                &&& !is_separator(t[i - 1])
                &&& !is_separator(t[i + 1])
            } by {
                assert(i < np.len() || (i == np.len() && t[i] == ' '));
                if i < np.len() {
                    assert(t[i] == np[i]);
                    assert(is_separator(np[i]));
                }
            }
        }
    }
}

/// Normalizing twice gives what normalizing once gives.
pub proof fn lemma_normalize_idempotent(s: Seq<char>)
    ensures
        normalized(normalized(s)) == normalized(s),
{
    let t = normalized(s);
    lemma_normalized_is_normal_form(s);
    if t.len() > 0 {
        assert(!is_separator(t[t.len() - 1]));
    }
    lemma_open_normal_form_fixed(t);
}

/// Separators after the last word leave the normalized form unchanged.
pub proof fn lemma_trailing_separators(s: Seq<char>, w: Seq<char>)
    requires
        all_separators(w),
    ensures
        normalized(s + w) == normalized(s),
    decreases w.len(),
{
    if w.len() > 0 {
        let w0 = w.drop_last();
        assert(all_separators(w0)) by {
            assert forall|i: int| 0 <= i < w0.len() implies is_separator(#[trigger] w0[i]) by {
                assert(w0[i] == w[i]);
            }
        }
        assert((s + w).drop_last() =~= s + w0);
        assert(is_separator(w[w.len() - 1]));
        lemma_trailing_separators(s, w0);
    } else {
        assert(s + w =~= s);
    }
}

/// Separators before the first word leave the normalized form unchanged.
pub proof fn lemma_leading_separators(w: Seq<char>, s: Seq<char>)
    requires
        all_separators(w),
    ensures
        normalized(w + s) == normalized(s),
    decreases s.len(),
{
    if s.len() == 0 {
        assert(w + s =~= Seq::<char>::empty() + w);
        lemma_trailing_separators(Seq::<char>::empty(), w);
    } else {
        let prev = s.drop_last();
        assert((w + s).drop_last() =~= w + prev);
        assert((w + s).last() == s.last());
        lemma_leading_separators(w, prev);
        if prev.len() == 0 {
            assert(w + prev =~= w);
            assert(Seq::<char>::empty() + w =~= w);
            lemma_trailing_separators(Seq::<char>::empty(), w);
        } else {
            assert((w + prev).last() == prev.last());
        }
    }
}

/// Any nonempty run of separators between two pieces of text may be replaced by any
/// other nonempty run: a doubled space, a tab or a line break changes nothing.
pub proof fn lemma_separator_runs(a: Seq<char>, w1: Seq<char>, w2: Seq<char>, b: Seq<char>)
    requires
        all_separators(w1),
        all_separators(w2),
        w1.len() > 0,
        w2.len() > 0,
    ensures
        normalized(a + w1 + b) == normalized(a + w2 + b),
    decreases b.len(),
{
    if b.len() == 0 {
        assert(a + w1 + b =~= a + w1);
        assert(a + w2 + b =~= a + w2);
        lemma_trailing_separators(a, w1);
        lemma_trailing_separators(a, w2);
    } else {
        let prev = b.drop_last();
        assert((a + w1 + b).drop_last() =~= a + w1 + prev);
        assert((a + w2 + b).drop_last() =~= a + w2 + prev);
        assert((a + w1 + b).last() == b.last());
        assert((a + w2 + b).last() == b.last());
        lemma_separator_runs(a, w1, w2, prev);
        if prev.len() == 0 {
            assert((a + w1 + prev).last() == w1[w1.len() - 1]);
            assert((a + w2 + prev).last() == w2[w2.len() - 1]);
        } else {
            assert((a + w1 + prev).last() == prev.last());
            assert((a + w2 + prev).last() == prev.last());
        }
    }
}

} // verus!
