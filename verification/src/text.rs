//! Operations on character sequences, each stated over `Seq<char>`.

use vstd::prelude::*;
use vstd::std_specs::iter::IteratorSpec;

verus! {

/// Whether `c` counts as whitespace when a text is trimmed: whether it
/// has the Unicode property White_Space. These are the tab, the line
/// feed, the vertical tab, the form feed, the carriage return, the space,
/// the next-line control, the no-break space, the Ogham space mark, the
/// spaces from the en quad to the hair space, the line and the paragraph
/// separator, the narrow no-break space, the medium mathematical space and
/// the ideographic space.
pub open spec fn whitespace(c: char) -> bool {
    let code = c as u32;
    ||| 0x09 <= code <= 0x0D
    ||| code == 0x20
    ||| code == 0x85
    ||| code == 0xA0
    ||| code == 0x1680
    ||| 0x2000 <= code <= 0x200A
    ||| code == 0x2028
    ||| code == 0x2029
    ||| code == 0x202F
    ||| code == 0x205F
    ||| code == 0x3000
}

/// `char::is_whitespace`: tells whether `c` has the Unicode property
/// White_Space, whose members `whitespace` lists.
#[verifier::external_body]
pub(crate) fn is_whitespace(c: char) -> (answer: bool)
    ensures
        answer == whitespace(c),
{
    c.is_whitespace()
}

/// `String::from_iter` over the characters of a slice: the string that
/// holds exactly these characters, in this order.
#[verifier::external_body]
pub(crate) fn string_of(chars: &[char]) -> (text: String)
    ensures
        text@ == chars@,
{
    String::from_iter(chars.iter())
}

/// The characters of `s`, in order.
pub fn chars_of(s: &str) -> (chars: Vec<char>)
    ensures
        chars@ == s@,
{
    let mut chars: Vec<char> = Vec::new();
    for c in it: s.chars()
        invariant
            it.seq() == s@,
            chars@ == it.seq().take(it.index()),
    {
        chars.push(c);
    }
    chars
}

/// Whether `s` begins with `pattern`.
pub open spec fn starts_with(s: Seq<char>, pattern: Seq<char>) -> bool {
    pattern.len() <= s.len() && s.subrange(0, pattern.len() as int) == pattern
}

/// Whether `s` ends with `pattern`.
pub open spec fn ends_with(s: Seq<char>, pattern: Seq<char>) -> bool {
    pattern.len() <= s.len() && s.subrange(s.len() - pattern.len(), s.len() as int) == pattern
}

/// `s` without its leading whitespace.
pub open spec fn skip_whitespace(s: Seq<char>) -> Seq<char>
    decreases s.len(),
{
    if s.len() > 0 && whitespace(s.first()) {
        skip_whitespace(s.drop_first())
    } else {
        s
    }
}

/// `s` without its trailing whitespace.
pub open spec fn drop_trailing_whitespace(s: Seq<char>) -> Seq<char>
    decreases s.len(),
{
    if s.len() > 0 && whitespace(s.last()) {
        drop_trailing_whitespace(s.drop_last())
    } else {
        s
    }
}

/// `s` without leading and trailing whitespace.
pub open spec fn trimmed(s: Seq<char>) -> Seq<char> {
    drop_trailing_whitespace(skip_whitespace(s))
}

/// `s` after `pattern` has been taken from its front as often as it
/// stands there. An empty pattern takes nothing.
pub open spec fn without_prefixes(s: Seq<char>, pattern: Seq<char>) -> Seq<char>
    decreases s.len(),
{
    if pattern.len() > 0 && starts_with(s, pattern) {
        without_prefixes(s.skip(pattern.len() as int), pattern)
    } else {
        s
    }
}

/// `s` after `pattern` has been taken from its end as often as it stands
/// there. An empty pattern takes nothing.
pub open spec fn without_suffixes(s: Seq<char>, pattern: Seq<char>) -> Seq<char>
    decreases s.len(),
{
    if pattern.len() > 0 && ends_with(s, pattern) {
        without_suffixes(s.take(s.len() - pattern.len()), pattern)
    } else {
        s
    }
}

/// `s` with every occurrence of `from` replaced by `to`, the occurrences
/// found from left to right without overlap. With an empty `from` the
/// text is unchanged.
pub open spec fn replaced(s: Seq<char>, from: Seq<char>, to: Seq<char>) -> Seq<char>
    decreases s.len(),
{
    if s.len() == 0 || from.len() == 0 {
        s
    } else if starts_with(s, from) {
        to + replaced(s.skip(from.len() as int), from, to)
    } else {
        seq![s.first()] + replaced(s.drop_first(), from, to)
    }
}

/// Whether `pattern` stands in `text` at index `at`.
pub open spec fn occurs_at(text: Seq<char>, at: int, pattern: Seq<char>) -> bool {
    0 <= at && at + pattern.len() <= text.len() && text.subrange(at, at + pattern.len())
        == pattern
}

/// Whether `pattern` stands somewhere in `text`.
pub open spec fn occurs_in(text: Seq<char>, pattern: Seq<char>) -> bool {
    exists|at: int| occurs_at(text, at, pattern)
}

/// What stands in a part of a text stands in the text.
pub proof fn lemma_occurs_in_part(text: Seq<char>, from: int, to: int, pattern: Seq<char>)
    requires
        0 <= from <= to <= text.len(),
        occurs_in(text.subrange(from, to), pattern),
    ensures
        occurs_in(text, pattern),
{
    let part = text.subrange(from, to);
    let at = choose|at: int| occurs_at(part, at, pattern);
    assert(text.subrange(from + at, from + at + pattern.len()) =~= part.subrange(
        at,
        at + pattern.len(),
    ));
    assert(occurs_at(text, from + at, pattern));
}

/// What stands at the front of a text that stands somewhere in another
/// stands in that other text too.
pub proof fn lemma_front_occurs(text: Seq<char>, whole: Seq<char>, front: Seq<char>)
    requires
        occurs_in(text, whole),
        starts_with(whole, front),
    ensures
        occurs_in(text, front),
{
    let at = choose|at: int| occurs_at(text, at, whole);
    assert(text.subrange(at, at + front.len()) =~= text.subrange(at, at + whole.len()).subrange(
        0,
        front.len() as int,
    ));
    assert(occurs_at(text, at, front));
}

/// Trimming adds nothing: what stands in the trimmed text stands in the
/// text.
pub proof fn lemma_trimmed_adds_nothing(s: Seq<char>, pattern: Seq<char>)
    requires
        occurs_in(trimmed(s), pattern),
    ensures
        occurs_in(s, pattern),
{
    lemma_skip_whitespace_is_a_tail(s);
    let from = choose|from: int| 0 <= from <= s.len() && skip_whitespace(s) == s.skip(from);
    let tail = s.skip(from);
    lemma_drop_trailing_whitespace_is_a_head(tail);
    let to = choose|to: int|
        0 <= to <= tail.len() && drop_trailing_whitespace(tail) == tail.take(to);
    assert(tail.take(to) =~= s.subrange(from, from + to));
    lemma_occurs_in_part(s, from, from + to, pattern);
}

/// Without its leading whitespace a text is one of its own tails.
pub proof fn lemma_skip_whitespace_is_a_tail(s: Seq<char>)
    ensures
        exists|from: int| 0 <= from <= s.len() && skip_whitespace(s) == s.skip(from),
    decreases s.len(),
{
    if s.len() > 0 && whitespace(s.first()) {
        let rest = s.drop_first();
        lemma_skip_whitespace_is_a_tail(rest);
        let from = choose|from: int|
            0 <= from <= rest.len() && skip_whitespace(rest) == rest.skip(from);
        assert(rest.skip(from) =~= s.skip(from + 1));
        assert(0 <= from + 1 <= s.len() && skip_whitespace(s) == s.skip(from + 1));
    } else {
        assert(s.skip(0) =~= s);
        assert(0 <= 0 <= s.len() && skip_whitespace(s) == s.skip(0));
    }
}

/// Without its trailing whitespace a text is one of its own heads.
pub proof fn lemma_drop_trailing_whitespace_is_a_head(s: Seq<char>)
    ensures
        exists|to: int| 0 <= to <= s.len() && drop_trailing_whitespace(s) == s.take(to),
    decreases s.len(),
{
    if s.len() > 0 && whitespace(s.last()) {
        let rest = s.drop_last();
        lemma_drop_trailing_whitespace_is_a_head(rest);
        let to = choose|to: int|
            0 <= to <= rest.len() && drop_trailing_whitespace(rest) == rest.take(to);
        assert(rest.take(to) =~= s.take(to));
        assert(0 <= to <= s.len() && drop_trailing_whitespace(s) == s.take(to));
    } else {
        assert(s.take(s.len() as int) =~= s);
        assert(0 <= s.len() <= s.len() && drop_trailing_whitespace(s) == s.take(s.len() as int));
    }
}

/// Taking a pattern from the front adds nothing: what stands in the
/// rest stands in the text.
pub proof fn lemma_without_prefixes_adds_nothing(
    s: Seq<char>,
    prefix: Seq<char>,
    pattern: Seq<char>,
)
    requires
        occurs_in(without_prefixes(s, prefix), pattern),
    ensures
        occurs_in(s, pattern),
    decreases s.len(),
{
    if prefix.len() > 0 && starts_with(s, prefix) {
        let rest = s.skip(prefix.len() as int);
        lemma_without_prefixes_adds_nothing(rest, prefix, pattern);
        assert(rest =~= s.subrange(prefix.len() as int, s.len() as int));
        lemma_occurs_in_part(s, prefix.len() as int, s.len() as int, pattern);
    }
}

/// Taking a pattern from the end adds nothing: what stands in the rest
/// stands in the text.
pub proof fn lemma_without_suffixes_adds_nothing(
    s: Seq<char>,
    suffix: Seq<char>,
    pattern: Seq<char>,
)
    requires
        occurs_in(without_suffixes(s, suffix), pattern),
    ensures
        occurs_in(s, pattern),
    decreases s.len(),
{
    if suffix.len() > 0 && ends_with(s, suffix) {
        let rest = s.take(s.len() - suffix.len());
        lemma_without_suffixes_adds_nothing(rest, suffix, pattern);
        assert(rest =~= s.subrange(0, s.len() - suffix.len()));
        lemma_occurs_in_part(s, 0, s.len() - suffix.len(), pattern);
    }
}

/// Whether no character of `pattern` is a character of `other`.
pub open spec fn shares_no_character(pattern: Seq<char>, other: Seq<char>) -> bool {
    forall|i: int, j: int|
        0 <= i < pattern.len() && 0 <= j < other.len() ==> pattern[i] != other[j]
}

/// A pattern that shares no character with `to` stands at the front of
/// the replaced text only where it stood at the front of the text.
pub proof fn lemma_replaced_keeps_front(
    s: Seq<char>,
    from: Seq<char>,
    to: Seq<char>,
    pattern: Seq<char>,
)
    requires
        to.len() > 0,
        shares_no_character(pattern, to),
        starts_with(replaced(s, from, to), pattern),
    ensures
        starts_with(s, pattern),
    decreases s.len(),
{
    let out = replaced(s, from, to);
    if pattern.len() == 0 {
        assert(s.subrange(0, 0) =~= pattern);
    } else if s.len() == 0 || from.len() == 0 {
    } else if starts_with(s, from) {
        assert(out.subrange(0, pattern.len() as int)[0] == pattern[0]);
        assert(out[0] == to[0]);
    } else {
        let rest = s.drop_first();
        let later = pattern.drop_first();
        assert(out.subrange(0, pattern.len() as int)[0] == pattern[0]);
        assert(replaced(rest, from, to).subrange(0, later.len() as int) =~= out.subrange(
            0,
            pattern.len() as int,
        ).drop_first());
        assert forall|i: int, j: int| 0 <= i < later.len() && 0 <= j < to.len() implies later[i]
            != to[j] by {
            assert(later[i] == pattern[i + 1]);
        }
        lemma_replaced_keeps_front(rest, from, to, later);
        assert(s.subrange(0, pattern.len() as int) =~= seq![s.first()] + rest.subrange(
            0,
            later.len() as int,
        ));
        assert(pattern =~= seq![pattern[0]] + later);
    }
}

/// Replacing adds no pattern that shares no character with `to`: where
/// such a pattern stands in the replaced text, it stood in the text.
pub proof fn lemma_replaced_adds_nothing(
    s: Seq<char>,
    from: Seq<char>,
    to: Seq<char>,
    pattern: Seq<char>,
)
    requires
        to.len() > 0,
        shares_no_character(pattern, to),
        occurs_in(replaced(s, from, to), pattern),
    ensures
        occurs_in(s, pattern),
    decreases s.len(),
{
    let out = replaced(s, from, to);
    let at = choose|at: int| occurs_at(out, at, pattern);
    if pattern.len() == 0 {
        assert(s.subrange(0, 0) =~= pattern);
        assert(occurs_at(s, 0, pattern));
    } else if s.len() == 0 || from.len() == 0 {
    } else if at == 0 {
        lemma_replaced_keeps_front(s, from, to, pattern);
        assert(occurs_at(s, 0, pattern));
    } else if starts_with(s, from) {
        let rest = s.skip(from.len() as int);
        let later = replaced(rest, from, to);
        if at < to.len() {
            assert(out.subrange(at, at + pattern.len())[0] == pattern[0]);
            assert(out[at] == to[at]);
        } else {
            assert(later.subrange(at - to.len(), at - to.len() + pattern.len()) =~= out.subrange(
                at,
                at + pattern.len(),
            ));
            assert(occurs_at(later, at - to.len(), pattern));
            lemma_replaced_adds_nothing(rest, from, to, pattern);
            assert(rest =~= s.subrange(from.len() as int, s.len() as int));
            lemma_occurs_in_part(s, from.len() as int, s.len() as int, pattern);
        }
    } else {
        let rest = s.drop_first();
        let later = replaced(rest, from, to);
        assert(later.subrange(at - 1, at - 1 + pattern.len()) =~= out.subrange(
            at,
            at + pattern.len(),
        ));
        assert(occurs_at(later, at - 1, pattern));
        lemma_replaced_adds_nothing(rest, from, to, pattern);
        assert(rest =~= s.subrange(1, s.len() as int));
        lemma_occurs_in_part(s, 1, s.len() as int, pattern);
    }
}

/// Up to the first occurrence of `from` the text stays as it is, there
/// `to` stands whole, and replacing goes on behind the occurrence.
pub proof fn lemma_replaced_at_first_occurrence(
    s: Seq<char>,
    from: Seq<char>,
    to: Seq<char>,
    at: int,
)
    requires
        from.len() > 0,
        occurs_at(s, at, from),
        forall|i: int| 0 <= i < at ==> !occurs_at(s, i, from),
    ensures
        replaced(s, from, to) == s.take(at) + to + replaced(s.skip(at + from.len()), from, to),
    decreases at,
{
    if at == 0 {
        assert(s.take(0) + to =~= to);
    } else {
        assert(!occurs_at(s, 0, from));
        let rest = s.drop_first();
        assert(occurs_at(rest, at - 1, from)) by {
            assert(rest.subrange(at - 1, at - 1 + from.len()) =~= s.subrange(at, at + from.len()));
        }
        assert forall|i: int| 0 <= i < at - 1 implies !occurs_at(rest, i, from) by {
            assert(!occurs_at(s, i + 1, from));
            if i + from.len() <= rest.len() {
                assert(rest.subrange(i, i + from.len()) =~= s.subrange(i + 1, i + 1 + from.len()));
            }
        }
        lemma_replaced_at_first_occurrence(rest, from, to, at - 1);
        assert(rest.skip(at - 1 + from.len()) =~= s.skip(at + from.len()));
        assert(seq![s.first()] + (rest.take(at - 1) + to + replaced(
            s.skip(at + from.len()),
            from,
            to,
        )) =~= s.take(at) + to + replaced(s.skip(at + from.len()), from, to));
    }
}

/// A text in which `from` does not occur stays as it is.
pub proof fn lemma_replaced_without_occurrence(s: Seq<char>, from: Seq<char>, to: Seq<char>)
    requires
        forall|i: int| 0 <= i <= s.len() ==> !occurs_at(s, i, from),
    ensures
        replaced(s, from, to) == s,
    decreases s.len(),
{
    if s.len() > 0 && from.len() > 0 {
        assert(!occurs_at(s, 0, from));
        let rest = s.drop_first();
        assert forall|i: int| 0 <= i <= rest.len() implies !occurs_at(rest, i, from) by {
            assert(!occurs_at(s, i + 1, from));
            if i + from.len() <= rest.len() {
                assert(rest.subrange(i, i + from.len()) =~= s.subrange(i + 1, i + 1 + from.len()));
            }
        }
        lemma_replaced_without_occurrence(rest, from, to);
        assert(seq![s.first()] + rest =~= s);
    }
}

/// Tells whether `pattern` stands in `text` at index `at`.
pub fn matches_at(text: &Vec<char>, at: usize, pattern: &Vec<char>) -> (found: bool)
    ensures
        found == occurs_at(text@, at as int, pattern@),
{
    if at > text.len() || pattern.len() > text.len() - at {
        return false;
    }
    let mut k: usize = 0;
    while k < pattern.len()
        invariant
            at + pattern.len() <= text.len(),
            k <= pattern.len(),
            forall|j: int| 0 <= j < k ==> text@[at + j] == pattern@[j],
        decreases pattern.len() - k,
    {
        if text[at + k] != pattern[k] {
            assert(text@.subrange(at as int, at + pattern.len())[k as int] != pattern@[k as int]);
            return false;
        }
        k += 1;
    }
    assert(text@.subrange(at as int, at + pattern.len()) =~= pattern@);
    true
}

/// The characters of `text` from index `from` up to, not including, `to`.
pub fn slice_of(text: &Vec<char>, from: usize, to: usize) -> (part: Vec<char>)
    requires
        from <= to <= text.len(),
    ensures
        part@ == text@.subrange(from as int, to as int),
{
    let mut part: Vec<char> = Vec::new();
    let mut i: usize = from;
    while i < to
        invariant
            from <= i <= to <= text.len(),
            part@ == text@.subrange(from as int, i as int),
        decreases to - i,
    {
        part.push(text[i]);
        assert(part@ =~= text@.subrange(from as int, i + 1));
        i += 1;
    }
    part
}

/// `text` without leading and trailing whitespace.
pub fn trim(text: &Vec<char>) -> (out: Vec<char>)
    ensures
        out@ == trimmed(text@),
{
    let mut lo: usize = 0;
    assert(text@.skip(0) =~= text@);
    while lo < text.len() && is_whitespace(text[lo])
        invariant
            lo <= text.len(),
            skip_whitespace(text@) == skip_whitespace(text@.skip(lo as int)),
        decreases text.len() - lo,
    {
        assert(text@.skip(lo as int).drop_first() =~= text@.skip(lo + 1));
        lo += 1;
    }
    assert(text@.skip(lo as int) =~= text@.subrange(lo as int, text.len() as int));
    let ghost body = text@.skip(lo as int);
    let mut hi: usize = text.len();
    while hi > lo && is_whitespace(text[hi - 1])
        invariant
            lo <= hi <= text.len(),
            body == text@.skip(lo as int),
            drop_trailing_whitespace(body) == drop_trailing_whitespace(
                text@.subrange(lo as int, hi as int),
            ),
        decreases hi - lo,
    {
        assert(text@.subrange(lo as int, hi as int).drop_last() =~= text@.subrange(
            lo as int,
            hi - 1,
        ));
        hi -= 1;
    }
    slice_of(text, lo, hi)
}

/// `text` with `pattern` taken from its front as often as it stands there.
pub fn trim_start_matches(text: &Vec<char>, pattern: &Vec<char>) -> (out: Vec<char>)
    ensures
        out@ == without_prefixes(text@, pattern@),
{
    let mut lo: usize = 0;
    assert(text@.skip(0) =~= text@);
    if pattern.len() > 0 {
        while matches_at(text, lo, pattern)
            invariant
                pattern.len() > 0,
                lo <= text.len(),
                without_prefixes(text@, pattern@) == without_prefixes(
                    text@.skip(lo as int),
                    pattern@,
                ),
            decreases text.len() - lo,
        {
            assert(text@.skip(lo as int).subrange(0, pattern.len() as int) =~= text@.subrange(
                lo as int,
                lo + pattern.len(),
            ));
            assert(text@.skip(lo as int).skip(pattern.len() as int) =~= text@.skip(
                lo + pattern.len(),
            ));
            lo += pattern.len();
        }
        assert(!starts_with(text@.skip(lo as int), pattern@)) by {
            if pattern.len() <= text.len() - lo {
                assert(text@.skip(lo as int).subrange(0, pattern.len() as int) =~= text@.subrange(
                    lo as int,
                    lo + pattern.len(),
                ));
            }
        }
    }
    assert(text@.skip(lo as int) =~= text@.subrange(lo as int, text.len() as int));
    slice_of(text, lo, text.len())
}

/// `text` with `pattern` taken from its end as often as it stands there.
pub fn trim_end_matches(text: &Vec<char>, pattern: &Vec<char>) -> (out: Vec<char>)
    ensures
        out@ == without_suffixes(text@, pattern@),
{
    let mut hi: usize = text.len();
    assert(text@.take(hi as int) =~= text@);
    if pattern.len() > 0 {
        while hi >= pattern.len() && matches_at(text, hi - pattern.len(), pattern)
            invariant
                pattern.len() > 0,
                hi <= text.len(),
                without_suffixes(text@, pattern@) == without_suffixes(
                    text@.take(hi as int),
                    pattern@,
                ),
            decreases hi,
        {
            assert(text@.take(hi as int).subrange(hi - pattern.len(), hi as int) =~= text@.subrange(
                hi - pattern.len(),
                hi as int,
            ));
            assert(text@.take(hi as int).take(hi - pattern.len()) =~= text@.take(
                hi - pattern.len(),
            ));
            hi -= pattern.len();
        }
        assert(!ends_with(text@.take(hi as int), pattern@)) by {
            if pattern.len() <= hi {
                assert(text@.take(hi as int).subrange(hi - pattern.len(), hi as int)
                    =~= text@.subrange(hi - pattern.len(), hi as int));
            }
        }
    }
    assert(text@.take(hi as int) =~= text@.subrange(0, hi as int));
    slice_of(text, 0, hi)
}

/// Appends the characters of `extra` to `out`.
pub fn push_all(out: &mut Vec<char>, extra: &Vec<char>)
    ensures
        final(out)@ == old(out)@ + extra@,
{
    let mut k: usize = 0;
    while k < extra.len()
        invariant
            k <= extra.len(),
            out@ == old(out)@ + extra@.take(k as int),
        decreases extra.len() - k,
    {
        out.push(extra[k]);
        assert(out@ =~= old(out)@ + extra@.take(k + 1));
        k += 1;
    }
    assert(extra@.take(k as int) =~= extra@);
}

/// `text` with every occurrence of `from` replaced by `to`, found from
/// left to right without overlap. An empty `from` changes nothing.
pub fn replace(text: &Vec<char>, from: &Vec<char>, to: &Vec<char>) -> (out: Vec<char>)
    ensures
        out@ == replaced(text@, from@, to@),
{
    let mut out: Vec<char> = Vec::new();
    if from.len() == 0 {
        push_all(&mut out, text);
        assert(out@ =~= text@);
        return out;
    }
    let mut i: usize = 0;
    assert(text@.skip(0) =~= text@);
    while i < text.len()
        invariant
            from.len() > 0,
            i <= text.len(),
            replaced(text@, from@, to@) == out@ + replaced(text@.skip(i as int), from@, to@),
        decreases text.len() - i,
    {
        let ghost rest = text@.skip(i as int);
        let ghost before = out@;
        if matches_at(text, i, from) {
            assert(rest.subrange(0, from.len() as int) =~= text@.subrange(
                i as int,
                i + from.len(),
            ));
            assert(rest.skip(from.len() as int) =~= text@.skip(i + from.len()));
            push_all(&mut out, to);
            assert(out@ + replaced(text@.skip(i + from.len()), from@, to@) =~= before + (to@
                + replaced(rest.skip(from.len() as int), from@, to@)));
            i += from.len();
        } else {
            assert(!starts_with(rest, from@)) by {
                if from.len() <= rest.len() {
                    assert(rest.subrange(0, from.len() as int) =~= text@.subrange(
                        i as int,
                        i + from.len(),
                    ));
                }
            }
            assert(rest.drop_first() =~= text@.skip(i + 1));
            out.push(text[i]);
            assert(out@ + replaced(text@.skip(i + 1), from@, to@) =~= before + (seq![rest.first()]
                + replaced(rest.drop_first(), from@, to@)));
            i += 1;
        }
    }
    assert(out@ + replaced(text@.skip(i as int), from@, to@) =~= out@);
    out
}

} // verus!
