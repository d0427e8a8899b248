//! Text as sequences of characters: the primitives that the assembler's line
//! pipeline is built from.

use vstd::prelude::*;
use vstd::string::*;

verus! {

/// The characters of `s`, in order.
pub fn str_to_chars(s: &str) -> (chars: Vec<char>)
    ensures
        chars@ == s@,
{
    let mut chars: Vec<char> = Vec::new();
    for c in iter: s.chars()
        invariant
            iter.seq() == s@,
            chars@ == iter.seq().take(iter.index() as int),
    {
        chars.push(c);
        proof {
            assert(chars@ =~= iter.seq().take(iter.index() + 1));
        }
    }
    proof {
        assert(chars@ =~= s@);
    }
    chars
}

/// `String::push`: appends one character to the end of the text.
#[verifier::external_body]
pub(crate) fn string_push(s: &mut String, c: char)
    ensures
        final(s)@ == old(s)@.push(c),
{
    s.push(c)
}

/// The text made of `chars[from..to]`.
pub fn chars_to_string(chars: &Vec<char>, from: usize, to: usize) -> (s: String)
    requires
        from <= to <= chars@.len(),
    ensures
        s@ == chars@.subrange(from as int, to as int),
{
    let mut s = String::new();
    let mut i: usize = from;
    while i < to
        invariant
            from <= i <= to <= chars@.len(),
            s@ == chars@.subrange(from as int, i as int),
        decreases to - i,
    {
        string_push(&mut s, chars[i]);
        i += 1;
        proof {
            assert(s@ =~= chars@.subrange(from as int, i as int));
        }
    }
    s
}

/// Whether `c` is white space: the Unicode code points with the property `White_Space`.
pub open spec fn is_whitespace(c: char) -> bool {
    let u = c as u32;
    ||| 0x09 <= u <= 0x0D
    ||| u == 0x20
    ||| u == 0x85
    ||| u == 0xA0
    ||| u == 0x1680
    ||| 0x2000 <= u <= 0x200A
    ||| u == 0x2028
    ||| u == 0x2029
    ||| u == 0x202F
    ||| u == 0x205F
    ||| u == 0x3000
}

/// Tells whether `c` is white space.
pub fn char_is_whitespace(c: char) -> (b: bool)
    ensures
        b == is_whitespace(c),
{
    let u: u32 = c as u32;
    (0x09 <= u && u <= 0x0D) || u == 0x20 || u == 0x85 || u == 0xA0 || u == 0x1680 || (0x2000 <= u
        && u <= 0x200A) || u == 0x2028 || u == 0x2029 || u == 0x202F || u == 0x205F || u == 0x3000
}

/// `s` without its leading white space.
pub open spec fn trim_start(s: Seq<char>) -> Seq<char>
    decreases s.len(),
{
    if s.len() > 0 && is_whitespace(s[0]) {
        trim_start(s.drop_first())
    } else {
        s
    }
}

/// `s` without its trailing white space.
pub open spec fn trim_end(s: Seq<char>) -> Seq<char>
    decreases s.len(),
{
    if s.len() > 0 && is_whitespace(s.last()) {
        trim_end(s.drop_last())
    } else {
        s
    }
}

/// `s` without the white space at either end.
pub open spec fn trimmed(s: Seq<char>) -> Seq<char> {
    trim_end(trim_start(s))
}

/// Leading white space of known length `a`: trimming the start skips it.
pub proof fn lemma_trim_start(s: Seq<char>, a: int)
    requires
        0 <= a <= s.len(),
        forall|j: int| 0 <= j < a ==> is_whitespace(s[j]),
        a == s.len() || !is_whitespace(s[a]),
    ensures
        trim_start(s) == s.skip(a),
    decreases a,
{
    if a == 0 {
        assert(s.skip(0) =~= s);
    } else {
        lemma_trim_start(s.drop_first(), a - 1);
        assert(s.drop_first().skip(a - 1) =~= s.skip(a));
    }
}

/// Trailing white space from index `b` on: trimming the end keeps what is before it.
pub proof fn lemma_trim_end(s: Seq<char>, b: int)
    requires
        0 <= b <= s.len(),
        forall|j: int| b <= j < s.len() ==> is_whitespace(s[j]),
        b == 0 || !is_whitespace(s[b - 1]),
    ensures
        trim_end(s) == s.take(b),
    decreases s.len() - b,
{
    if b == s.len() {
        assert(s.take(b) =~= s);
    } else {
        lemma_trim_end(s.drop_last(), b);
        assert(s.drop_last().take(b) =~= s.take(b));
    }
}

/// Trimming takes characters away and adds none.
pub proof fn lemma_trimmed_len(s: Seq<char>)
    ensures
        trimmed(s).len() <= s.len(),
{
    lemma_trim_start_len(s);
    lemma_trim_end_len(trim_start(s));
}

/// Trimming the start adds no character.
pub proof fn lemma_trim_start_len(s: Seq<char>)
    ensures
        trim_start(s).len() <= s.len(),
    decreases s.len(),
{
    if s.len() > 0 && is_whitespace(s[0]) {
        lemma_trim_start_len(s.drop_first());
    }
}

/// Trimming the end adds no character.
pub proof fn lemma_trim_end_len(s: Seq<char>)
    ensures
        trim_end(s).len() <= s.len(),
    decreases s.len(),
{
    if s.len() > 0 && is_whitespace(s.last()) {
        lemma_trim_end_len(s.drop_last());
    }
}

/// A copy of `chars[from..to]`.
pub fn slice_chars(chars: &Vec<char>, from: usize, to: usize) -> (out: Vec<char>)
    requires
        from <= to <= chars@.len(),
    ensures
        out@ == chars@.subrange(from as int, to as int),
{
    let mut out: Vec<char> = Vec::new();
    let mut i: usize = from;
    while i < to
        invariant
            from <= i <= to <= chars@.len(),
            out@ == chars@.subrange(from as int, i as int),
        decreases to - i,
    {
        out.push(chars[i]);
        i += 1;
        proof {
            assert(out@ =~= chars@.subrange(from as int, i as int));
        }
    }
    out
}

/// `chars` without the white space at either end.
pub fn trim(chars: &Vec<char>) -> (out: Vec<char>)
    ensures
        out@ == trimmed(chars@),
{
    let mut start: usize = 0;
    while start < chars.len() && char_is_whitespace(chars[start])
        invariant
            start <= chars@.len(),
            forall|j: int| 0 <= j < start ==> is_whitespace(chars@[j]),
        decreases chars@.len() - start,
    {
        start += 1;
    }
    let mut end: usize = chars.len();
    while end > start && char_is_whitespace(chars[end - 1])
        invariant
            start <= end <= chars@.len(),
            forall|j: int| end <= j < chars@.len() ==> is_whitespace(chars@[j]),
        decreases end,
    {
        end -= 1;
    }
    proof {
        lemma_trim_start(chars@, start as int);
        let rest = chars@.skip(start as int);
        assert forall|j: int| end - start <= j < rest.len() implies is_whitespace(rest[j]) by {
            assert(rest[j] == chars@[j + start]);
        }
        lemma_trim_end(rest, end - start);
        assert(rest.take(end - start) =~= chars@.subrange(start as int, end as int));
    }
    slice_chars(chars, start, end)
}

/// The length of the run of characters at the start of `t` that are no white space.
pub open spec fn word_len(t: Seq<char>) -> nat
    decreases t.len(),
{
    if t.len() > 0 && !is_whitespace(t[0]) {
        1 + word_len(t.drop_first())
    } else {
        0
    }
}

/// A run of `n` characters that are no white space, ended by white space or
/// by the end of the text, is the first run.
pub proof fn lemma_word_len(t: Seq<char>, n: int)
    requires
        0 <= n <= t.len(),
        forall|j: int| 0 <= j < n ==> !is_whitespace(t[j]),
        n == t.len() || is_whitespace(t[n]),
    ensures
        word_len(t) == n,
    decreases n,
{
    if n > 0 {
        lemma_word_len(t.drop_first(), n - 1);
    }
}

/// The first run is no longer than the text.
pub proof fn lemma_word_len_bound(t: Seq<char>)
    ensures
        word_len(t) <= t.len(),
    decreases t.len(),
{
    if t.len() > 0 && !is_whitespace(t[0]) {
        lemma_word_len_bound(t.drop_first());
    }
}

/// The first word of `s`: what stands between its leading white space and
/// the next white space. Empty where `s` holds no word.
pub open spec fn first_word(s: Seq<char>) -> Seq<char> {
    let t = trim_start(s);
    t.take(word_len(t) as int)
}

/// What follows the first word of `s`.
pub open spec fn after_first_word(s: Seq<char>) -> Seq<char> {
    let t = trim_start(s);
    t.skip(word_len(t) as int)
}

/// The words of `s`: its maximal runs of characters that are no white space.
pub open spec fn words(s: Seq<char>) -> Seq<Seq<char>>
    decreases s.len(),
    via words_decreases
{
    if first_word(s).len() == 0 {
        Seq::empty()
    } else {
        seq![first_word(s)] + words(after_first_word(s))
    }
}

#[via_fn]
proof fn words_decreases(s: Seq<char>) {
    lemma_trim_start_len(s);
    lemma_word_len_bound(trim_start(s));
}

/// `parts` with `sep` between each two.
pub open spec fn joined(parts: Seq<Seq<char>>, sep: char) -> Seq<char>
    decreases parts.len(),
{
    if parts.len() == 0 {
        Seq::empty()
    } else if parts.len() == 1 {
        parts[0]
    } else {
        joined(parts.drop_last(), sep) + seq![sep] + parts.last()
    }
}

/// The character sequences that `parts` hold.
pub open spec fn views(parts: Seq<Vec<char>>) -> Seq<Seq<char>> {
    Seq::new(parts.len(), |i: int| parts[i]@)
}

/// The first word of `chars` and what follows it.
pub fn split_first_word(chars: &Vec<char>) -> (r: (Vec<char>, Vec<char>))
    ensures
        r.0@ == first_word(chars@),
        r.1@ == after_first_word(chars@),
        r.0@.len() + r.1@.len() <= chars@.len(),
{
    let mut start: usize = 0;
    while start < chars.len() && char_is_whitespace(chars[start])
        invariant
            start <= chars@.len(),
            forall|j: int| 0 <= j < start ==> is_whitespace(chars@[j]),
        decreases chars@.len() - start,
    {
        start += 1;
    }
    let mut end: usize = start;
    while end < chars.len() && !char_is_whitespace(chars[end])
        invariant
            start <= end <= chars@.len(),
            forall|j: int| start <= j < end ==> !is_whitespace(chars@[j]),
        decreases chars@.len() - end,
    {
        end += 1;
    }
    proof {
        lemma_trim_start(chars@, start as int);
        let t = chars@.skip(start as int);
        assert forall|j: int| 0 <= j < end - start implies !is_whitespace(t[j]) by {
            assert(t[j] == chars@[j + start]);
        }
        lemma_word_len(t, end - start);
        assert(t.take(end - start) =~= chars@.subrange(start as int, end as int));
        assert(t.skip(end - start) =~= chars@.subrange(end as int, chars@.len() as int));
    }
    (slice_chars(chars, start, end), slice_chars(chars, end, chars.len()))
}

/// The words of `chars`.
pub fn split_words(chars: &Vec<char>) -> (out: Vec<Vec<char>>)
    ensures
        views(out@) == words(chars@),
{
    let mut out: Vec<Vec<char>> = Vec::new();
    let (mut word, mut rest) = split_first_word(chars);
    proof {
        assert(views(out@) =~= Seq::<Seq<char>>::empty());
    }
    while word.len() > 0
        invariant
            views(out@) + (if word@.len() == 0 {
                Seq::<Seq<char>>::empty()
            } else {
                seq![word@] + words(rest@)
            }) == words(chars@),
        decreases rest@.len() + word@.len(),
    {
        let ghost before = views(out@);
        let ghost w = word@;
        let (next_word, next_rest) = split_first_word(&rest);
        out.push(word);
        proof {
            assert(views(out@) =~= before.push(w));
            assert(before.push(w) + words(rest@) =~= before + (seq![w] + words(rest@)));
        }
        word = next_word;
        rest = next_rest;
    }
    proof {
        assert(views(out@) + Seq::<Seq<char>>::empty() =~= views(out@));
    }
    out
}

/// The parts from index `from` on, with `sep` between each two.
pub fn join_from(parts: &Vec<Vec<char>>, from: usize, sep: char) -> (out: Vec<char>)
    requires
        from <= parts@.len(),
    ensures
        out@ == joined(views(parts@).skip(from as int), sep),
{
    let mut out: Vec<char> = Vec::new();
    let mut i: usize = from;
    proof {
        assert(views(parts@).skip(from as int).take(0) =~= Seq::<Seq<char>>::empty());
    }
    while i < parts.len()
        invariant
            from <= i <= parts@.len(),
            out@ == joined(views(parts@).skip(from as int).take(i - from), sep),
        decreases parts@.len() - i,
    {
        proof {
            let all = views(parts@).skip(from as int);
            let next = all.take(i - from + 1);
            assert(next.drop_last() =~= all.take(i - from));
            assert(next.last() == parts@[i as int]@);
        }
        if i > from {
            out.push(sep);
        }
        let part = &parts[i];
        let mut k: usize = 0;
        let ghost base = out@;
        while k < part.len()
            invariant
                k <= part@.len(),
                out@ == base + part@.take(k as int),
            decreases part@.len() - k,
        {
            out.push(part[k]);
            k += 1;
            proof {
                assert(out@ =~= base + part@.take(k as int));
            }
        }
        proof {
            assert(part@.take(k as int) =~= part@);
            assert(base + part@ =~= joined(
                views(parts@).skip(from as int).take(i - from + 1),
                sep,
            ));
        }
        i += 1;
    }
    proof {
        let all = views(parts@).skip(from as int);
        assert(all.take(i - from) =~= all);
    }
    out
}

} // verus!
