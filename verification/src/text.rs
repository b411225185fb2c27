//! Text utilities the policy rests on: splitting a report into
//! separator-delimited fields, suffix matching for executable paths, and
//! trimming the percent sign off a report field. Each executable function
//! is proved against a direct mathematical model of the operation.

use vstd::prelude::*;

verus! {

/// No occurrence of the separator anywhere in the sequence.
pub open spec fn sep_free(s: Seq<char>, sep: char) -> bool {
    forall|i: int| 0 <= i < s.len() ==> #[trigger] s[i] != sep
}

/// Splitting on a separator, as the standard split does: n separators
/// give n + 1 fields, and an empty text gives one empty field.
pub open spec fn split_on(s: Seq<char>, sep: char) -> Seq<Seq<char>>
    decreases s.len(),
{
    if s.len() == 0 {
        seq![s]
    } else if s[0] == sep {
        seq![Seq::<char>::empty()] + split_on(s.drop_first(), sep)
    } else {
        let rest = split_on(s.drop_first(), sep);
        seq![seq![s[0]] + rest[0]] + rest.drop_first()
    }
}

/// The views of a vector of owned strings.
pub open spec fn views_of(parts: Seq<String>) -> Seq<Seq<char>> {
    parts.map_values(|p: String| p@)
}

/// A text without the separator splits into exactly itself.
pub proof fn lemma_split_sep_free(s: Seq<char>, sep: char)
    requires
        sep_free(s, sep),
    ensures
        split_on(s, sep) == seq![s],
    decreases s.len(),
{
    if s.len() > 0 {
        assert(s[0] != sep);
        assert(sep_free(s.drop_first(), sep)) by {
            assert(forall|i: int|
                0 <= i < s.drop_first().len() ==> #[trigger] s.drop_first()[i] == s[i + 1]);
        }
        lemma_split_sep_free(s.drop_first(), sep);
        let rest = split_on(s.drop_first(), sep);
        assert(rest[0] == s.drop_first());
        assert(seq![s[0]] + rest[0] =~= s);
        assert(split_on(s, sep) =~= seq![s]);
    }
}

/// Splitting at the first separator: the text up to it is the first
/// field, and the rest of the split is the split of what follows it.
pub proof fn lemma_split_at_first(s: Seq<char>, sep: char, i: int)
    requires
        0 <= i < s.len(),
        s[i] == sep,
        sep_free(s.take(i), sep),
    ensures
        split_on(s, sep) == seq![s.take(i)] + split_on(s.skip(i + 1), sep),
    decreases i,
{
    if i == 0 {
        assert(s[0] == sep);
        assert(s.take(0) =~= Seq::<char>::empty());
        assert(s.drop_first() =~= s.skip(1));
        assert(split_on(s, sep) =~= seq![s.take(0)] + split_on(s.skip(1), sep));
    } else {
        assert(s.take(i)[0] == s[0]);
        assert(s[0] != sep);
        let t = s.drop_first();
        assert(t[i - 1] == sep);
        assert(sep_free(t.take(i - 1), sep)) by {
            assert(forall|j: int|
                0 <= j < i - 1 ==> #[trigger] t.take(i - 1)[j] == s.take(i)[j + 1]);
        }
        lemma_split_at_first(t, sep, i - 1);
        let rest = split_on(t, sep);
        assert(rest == seq![t.take(i - 1)] + split_on(t.skip(i), sep));
        assert(rest[0] == t.take(i - 1));
        assert(seq![s[0]] + rest[0] =~= s.take(i));
        assert(rest.drop_first() =~= split_on(t.skip(i), sep));
        assert(t.skip(i) =~= s.skip(i + 1));
        assert(split_on(s, sep) =~= seq![s.take(i)] + split_on(s.skip(i + 1), sep));
    }
}

/// Splits a text on a separator character into owned fields.
pub fn split_str(s: &str, sep: char) -> (parts: Vec<String>)
    ensures
        views_of(parts@) == split_on(s@, sep),
{
    let n = s.unicode_len();
    let mut parts: Vec<String> = Vec::new();
    let mut start: usize = 0;
    let mut i: usize = 0;
    proof {
        assert(s@.subrange(0, n as int) =~= s@);
        assert(views_of(parts@) + split_on(s@, sep) =~= split_on(s@, sep));
    }
    while i < n
        invariant
            start <= i <= n,
            n == s@.len(),
            sep_free(s@.subrange(start as int, i as int), sep),
            split_on(s@, sep) == views_of(parts@) + split_on(
                s@.subrange(start as int, n as int),
                sep,
            ),
        decreases n - i,
    {
        if s.get_char(i) == sep {
            let piece = String::from_str(s.substring_char(start, i));
            proof {
                let ghost old_parts = parts@;
                let tail = s@.subrange(start as int, n as int);
                assert(tail.take(i - start) =~= s@.subrange(start as int, i as int));
                assert(tail[i - start] == sep);
                lemma_split_at_first(tail, sep, i - start);
                assert(tail.skip(i - start + 1) =~= s@.subrange(i + 1, n as int));
            }
            let ghost old_views = views_of(parts@);
            parts.push(piece);
            proof {
                assert(views_of(parts@) =~= old_views.push(piece@));
                assert(views_of(parts@) + split_on(s@.subrange(i + 1, n as int), sep)
                    =~= old_views + (seq![s@.subrange(start as int, i as int)] + split_on(
                    s@.subrange(i + 1, n as int),
                    sep,
                )));
            }
            start = i + 1;
            proof {
                assert(sep_free(s@.subrange(start as int, start as int), sep));
            }
        } else {
            proof {
                assert(forall|k: int|
                    start <= k < i + 1 ==> #[trigger] s@[k] == s@.subrange(
                        start as int,
                        i + 1,
                    )[k - start]);
                assert(sep_free(s@.subrange(start as int, i + 1), sep)) by {
                    assert(forall|k: int|
                        0 <= k < i + 1 - start ==> #[trigger] s@.subrange(start as int, i + 1)[k]
                            == s@[k + start]);
                }
            }
        }
        i += 1;
    }
    let piece = String::from_str(s.substring_char(start, n));
    let ghost old_views = views_of(parts@);
    proof {
        lemma_split_sep_free(s@.subrange(start as int, n as int), sep);
    }
    parts.push(piece);
    proof {
        assert(views_of(parts@) =~= old_views.push(piece@));
        assert(views_of(parts@) =~= old_views + seq![s@.subrange(start as int, n as int)]);
    }
    parts
}

/// Does the text end with the given suffix?
pub open spec fn spec_ends_with(s: Seq<char>, suffix: Seq<char>) -> bool {
    &&& suffix.len() <= s.len()
    &&& forall|k: int|
        0 <= k < suffix.len() ==> s[s.len() - suffix.len() + k] == #[trigger] suffix[k]
}

/// Suffix test over characters, as the standard ends-with does.
pub fn str_ends_with(s: &str, suffix: &str) -> (r: bool)
    ensures
        r == spec_ends_with(s@, suffix@),
{
    let n = s.unicode_len();
    let m = suffix.unicode_len();
    if m > n {
        return false;
    }
    let mut j: usize = 0;
    while j < m
        invariant
            j <= m <= n,
            n == s@.len(),
            m == suffix@.len(),
            forall|k: int| 0 <= k < j ==> s@[n - m + k] == #[trigger] suffix@[k],
        decreases m - j,
    {
        if s.get_char(n - m + j) != suffix.get_char(j) {
            return false;
        }
        j += 1;
    }
    true
}

/// The text with every trailing percent sign removed.
pub open spec fn trim_pct(s: Seq<char>) -> Seq<char>
    decreases s.len(),
{
    if s.len() > 0 && s.last() == '%' {
        trim_pct(s.drop_last())
    } else {
        s
    }
}

/// Removes every trailing percent sign, as the standard trim of matching
/// end characters does.
pub fn trim_trailing_pct<'a>(s: &'a str) -> (r: &'a str)
    ensures
        r@ == trim_pct(s@),
{
    let n = s.unicode_len();
    let mut end: usize = n;
    proof {
        assert(s@.take(n as int) =~= s@);
    }
    while end > 0 && s.get_char(end - 1) == '%'
        invariant
            end <= n,
            n == s@.len(),
            trim_pct(s@) == trim_pct(s@.take(end as int)),
        decreases end,
    {
        proof {
            let cur = s@.take(end as int);
            assert(cur.last() == s@[end - 1]);
            assert(cur.drop_last() =~= s@.take(end - 1));
        }
        end -= 1;
    }
    proof {
        let cur = s@.take(end as int);
        if end > 0 {
            assert(cur.last() == s@[end - 1]);
        }
        assert(trim_pct(cur) == cur);
    }
    s.substring_char(0, end)
}

} // verus!
