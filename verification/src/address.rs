//! Cleaning the text an IP-echo service returns.
//!
//! The service is expected to answer with a bare address, possibly wrapped
//! in whitespace or split by newlines. The resolver keeps whatever text
//! remains once surrounding whitespace is trimmed and every newline is
//! removed; it does not parse or validate the address itself.

use vstd::prelude::*;
use vstd::string::StrSliceExecFns;

verus! {

/// Relies on `alloc::string::String::push`: appends the given character to
/// the end of the string.
pub assume_specification[ String::push ](s: &mut String, ch: char)
    ensures
        final(s)@ == old(s)@.push(ch),
;

/// Whether `c` has Unicode's `White_Space` property, the set that
/// `str::trim` removes from either end.
pub open spec fn is_space(c: char) -> bool {
    let n = c as u32;
    ||| n == 0x9
    ||| n == 0xA
    ||| n == 0xB
    ||| n == 0xC
    ||| n == 0xD
    ||| n == 0x20
    ||| n == 0x85
    ||| n == 0xA0
    ||| n == 0x1680
    ||| (0x2000 <= n && n <= 0x200A)
    ||| n == 0x2028
    ||| n == 0x2029
    ||| n == 0x202F
    ||| n == 0x205F
    ||| n == 0x3000
}

/// Executable test for [`is_space`].
pub fn is_space_char(c: char) -> (r: bool)
    ensures
        r == is_space(c),
{
    let n = c as u32;
    n == 0x9 || n == 0xA || n == 0xB || n == 0xC || n == 0xD || n == 0x20 || n == 0x85
        || n == 0xA0 || n == 0x1680 || (0x2000 <= n && n <= 0x200A) || n == 0x2028
        || n == 0x2029 || n == 0x202F || n == 0x205F || n == 0x3000
}

/// `s` with its leading whitespace removed.
pub open spec fn trim_start(s: Seq<char>) -> Seq<char>
    decreases s.len(),
{
    if s.len() > 0 && is_space(s[0]) {
        trim_start(s.drop_first())
    } else {
        s
    }
}

/// `s` with its trailing whitespace removed.
pub open spec fn trim_end(s: Seq<char>) -> Seq<char>
    decreases s.len(),
{
    if s.len() > 0 && is_space(s.last()) {
        trim_end(s.drop_last())
    } else {
        s
    }
}

/// `s` with whitespace removed from both ends.
pub open spec fn trimmed(s: Seq<char>) -> Seq<char> {
    trim_end(trim_start(s))
}

/// `s` with every newline character removed.
pub open spec fn without_newlines(s: Seq<char>) -> Seq<char>
    decreases s.len(),
{
    if s.len() == 0 {
        Seq::empty()
    } else if s[0] == '\n' {
        without_newlines(s.drop_first())
    } else {
        seq![s[0]] + without_newlines(s.drop_first())
    }
}

/// The address kept from a raw response body: surrounding whitespace
/// trimmed, then every remaining newline removed.
pub open spec fn cleaned(s: Seq<char>) -> Seq<char> {
    without_newlines(trimmed(s))
}

proof fn lemma_trim_start_skip(s: Seq<char>, i: int)
    requires
        0 <= i <= s.len(),
        forall|k: int| 0 <= k < i ==> is_space(s[k]),
        i == s.len() || !is_space(s[i]),
    ensures
        trim_start(s) == s.skip(i),
    decreases i,
{
    if i == 0 {
        assert(s.skip(0) =~= s);
    } else {
        let t = s.drop_first();
        assert(forall|k: int| 0 <= k < i - 1 ==> is_space(#[trigger] t[k]));
        lemma_trim_start_skip(t, i - 1);
        assert(t.skip(i - 1) =~= s.skip(i));
    }
}

proof fn lemma_trim_end_take(s: Seq<char>, j: int)
    requires
        0 <= j <= s.len(),
        forall|k: int| j <= k < s.len() ==> is_space(s[k]),
        j == 0 || !is_space(s[j - 1]),
    ensures
        trim_end(s) == s.take(j),
    decreases s.len() - j,
{
    if j == s.len() {
        assert(s.take(j) =~= s);
    } else {
        let t = s.drop_last();
        assert(is_space(s.last()));
        assert(forall|k: int| j <= k < t.len() ==> is_space(#[trigger] t[k]));
        lemma_trim_end_take(t, j);
        assert(t.take(j) =~= s.take(j));
    }
}

proof fn lemma_without_newlines_push(s: Seq<char>, c: char)
    ensures
        c == '\n' ==> without_newlines(s.push(c)) == without_newlines(s),
        c != '\n' ==> without_newlines(s.push(c)) == without_newlines(s).push(c),
    decreases s.len(),
{
    if s.len() == 0 {
        assert(s.push(c).drop_first() =~= s);
        if c != '\n' {
            assert(without_newlines(s.push(c)) =~= without_newlines(s).push(c));
        }
    } else {
        assert(s.push(c).drop_first() =~= s.drop_first().push(c));
        lemma_without_newlines_push(s.drop_first(), c);
        if c != '\n' {
            if s[0] == '\n' {
                assert(without_newlines(s.push(c)) == without_newlines(s.drop_first().push(c)));
            } else {
                assert(without_newlines(s.push(c)) =~= without_newlines(s).push(c));
            }
        }
    }
}

/// Turns a raw response body into the address used for the record:
/// whatever text remains after the trim and the newline removal, verbatim.
pub fn clean_address(raw: &str) -> (r: String)
    ensures
        r@ == cleaned(raw@),
{
    let n = raw.unicode_len();
    let mut start: usize = 0;
    while start < n && is_space_char(raw.get_char(start))
        invariant
            n == raw@.len(),
            0 <= start <= n,
            forall|k: int| 0 <= k < start ==> is_space(raw@[k]),
        decreases n - start,
    {
        start = start + 1;
    }
    let mut end: usize = n;
    while end > start && is_space_char(raw.get_char(end - 1))
        invariant
            n == raw@.len(),
            start <= end <= n,
            forall|k: int| end <= k < n ==> is_space(raw@[k]),
        decreases end,
    {
        end = end - 1;
    }
    proof {
        lemma_trim_start_skip(raw@, start as int);
        let t = raw@.skip(start as int);
        assert(forall|k: int| end - start <= k < t.len() ==> is_space(#[trigger] t[k]));
        lemma_trim_end_take(t, end - start);
        assert(t.take(end - start) =~= raw@.subrange(start as int, end as int));
    }
    let mut out = String::new();
    let mut j = start;
    while j < end
        invariant
            n == raw@.len(),
            start <= j <= end <= n,
            out@ == without_newlines(raw@.subrange(start as int, j as int)),
        decreases end - j,
    {
        let c = raw.get_char(j);
        proof {
            lemma_without_newlines_push(raw@.subrange(start as int, j as int), c);
            assert(raw@.subrange(start as int, j + 1) =~= raw@.subrange(
                start as int,
                j as int,
            ).push(c));
        }
        if c != '\n' {
            out.push(c);
        }
        j = j + 1;
    }
    out
}

/// The cleaned text holds no newline, and, unless it is empty, neither
/// starts nor ends with whitespace.
pub proof fn lemma_cleaned_well_formed(s: Seq<char>)
    ensures
        forall|i: int| 0 <= i < cleaned(s).len() ==> cleaned(s)[i] != '\n',
        cleaned(s).len() > 0 ==> !is_space(cleaned(s).first()),
        cleaned(s).len() > 0 ==> !is_space(cleaned(s).last()),
{
    let t = trimmed(s);
    lemma_without_newlines_no_newline(t);
    lemma_trim_start_first(s);
    lemma_trim_end_last(trim_start(s));
    lemma_trim_end_prefix(trim_start(s));
    if cleaned(s).len() > 0 {
        assert(t.len() > 0);
        assert(!is_space(t.first())) by {
            assert(t[0] == trim_start(s)[0]);
        }
        lemma_without_newlines_ends(t);
    }
}

proof fn lemma_without_newlines_no_newline(s: Seq<char>)
    ensures
        forall|i: int| 0 <= i < without_newlines(s).len() ==> without_newlines(s)[i] != '\n',
        without_newlines(s).len() <= s.len(),
    decreases s.len(),
{
    if s.len() > 0 {
        lemma_without_newlines_no_newline(s.drop_first());
    }
}

proof fn lemma_without_newlines_ends(s: Seq<char>)
    requires
        s.len() > 0,
        !is_space(s.first()),
        !is_space(s.last()),
    ensures
        without_newlines(s).len() > 0,
        without_newlines(s).first() == s.first(),
        without_newlines(s).last() == s.last(),
    decreases s.len(),
{
    assert(s.first() != '\n');
    assert(s.last() != '\n');
    if s.len() == 1 {
        assert(s.drop_first().len() == 0);
        assert(without_newlines(s.drop_first()) == Seq::<char>::empty());
        assert(without_newlines(s) == seq![s[0]] + without_newlines(s.drop_first()));
        assert(without_newlines(s) =~= seq![s[0]]);
    } else {
        let init = s.drop_last();
        assert(init.push(s.last()) =~= s);
        lemma_without_newlines_push(init, s.last());
        assert(without_newlines(s) == without_newlines(init).push(s.last()));
        assert(!is_space(init.first()));
        lemma_without_newlines_first(init);
        assert(without_newlines(init).len() > 0);
        assert(without_newlines(s).first() == without_newlines(init).first());
    }
}

proof fn lemma_without_newlines_first(s: Seq<char>)
    requires
        s.len() > 0,
        s.first() != '\n',
    ensures
        without_newlines(s).len() > 0,
        without_newlines(s).first() == s.first(),
{
    assert(without_newlines(s) == seq![s[0]] + without_newlines(s.drop_first()));
}

proof fn lemma_trim_start_first(s: Seq<char>)
    ensures
        trim_start(s).len() > 0 ==> !is_space(trim_start(s).first()),
    decreases s.len(),
{
    if s.len() > 0 && is_space(s[0]) {
        lemma_trim_start_first(s.drop_first());
    }
}

proof fn lemma_trim_end_last(s: Seq<char>)
    ensures
        trim_end(s).len() > 0 ==> !is_space(trim_end(s).last()),
    decreases s.len(),
{
    if s.len() > 0 && is_space(s.last()) {
        lemma_trim_end_last(s.drop_last());
    }
}

proof fn lemma_trim_end_prefix(s: Seq<char>)
    ensures
        trim_end(s).len() <= s.len(),
        forall|i: int| 0 <= i < trim_end(s).len() ==> trim_end(s)[i] == s[i],
    decreases s.len(),
{
    if s.len() > 0 && is_space(s.last()) {
        let t = s.drop_last();
        lemma_trim_end_prefix(t);
        assert(forall|i: int| 0 <= i < t.len() ==> t[i] == s[i]);
    }
}

} // verus!
