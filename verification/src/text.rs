//! White space, and what trimming a line leaves.

use vstd::prelude::*;

verus! {

/// Whether `c` has the Unicode property `White_Space`.
pub open spec fn is_white_space(c: char) -> bool {
    ||| '\u{0009}' <= c <= '\u{000D}'
    ||| c == '\u{0020}'
    ||| c == '\u{0085}'
    ||| c == '\u{00A0}'
    ||| c == '\u{1680}'
    ||| '\u{2000}' <= c <= '\u{200A}'
    ||| c == '\u{2028}'
    ||| c == '\u{2029}'
    ||| c == '\u{202F}'
    ||| c == '\u{205F}'
    ||| c == '\u{3000}'
}

/// `s` without its leading white space.
pub open spec fn trim_start(s: Seq<char>) -> Seq<char>
    decreases s.len(),
{
    if s.len() > 0 && is_white_space(s.first()) {
        trim_start(s.drop_first())
    } else {
        s
    }
}

/// `s` without its trailing white space.
pub open spec fn trim_end(s: Seq<char>) -> Seq<char>
    decreases s.len(),
{
    if s.len() > 0 && is_white_space(s.last()) {
        trim_end(s.drop_last())
    } else {
        s
    }
}

/// `s` without its leading and trailing white space.
pub open spec fn trimmed(s: Seq<char>) -> Seq<char> {
    trim_end(trim_start(s))
}

/// `str::trim` is taken on trust: it returns the slice of `s` that is left
/// when the leading and the trailing white space are removed, where white
/// space is every character with the Unicode property `White_Space`.
pub assume_specification[ str::trim ](s: &str) -> (r: &str)
    ensures
        r@ == trimmed(s@),
;

/// Whether `s` holds nothing but white space.
pub open spec fn is_blank(s: Seq<char>) -> bool {
    forall|k: int| 0 <= k < s.len() ==> is_white_space(#[trigger] s[k])
}

/// Whether `s` neither begins nor ends with white space. The empty sequence
/// does neither.
pub open spec fn is_tight(s: Seq<char>) -> bool {
    s.len() > 0 ==> !is_white_space(s.first()) && !is_white_space(s.last())
}

/// Where trimming cuts: the result `(from, to)` bounds what is left of `s`.
/// All before `from` and all from `to` on is white space, and what lies
/// between neither begins nor ends with white space.
pub proof fn trimmed_bounds(s: Seq<char>) -> (cut: (int, int))
    ensures
        0 <= cut.0 <= cut.1 <= s.len(),
        trimmed(s) == s.subrange(cut.0, cut.1),
        is_blank(s.take(cut.0)),
        is_blank(s.skip(cut.1)),
        is_tight(trimmed(s)),
{
    let from = trim_start_cut(s);
    let rest = s.skip(from);
    let kept = trim_end_cut(rest);
    assert(rest.take(kept) == s.subrange(from, from + kept));
    assert forall|k: int| 0 <= k < s.skip(from + kept).len() implies is_white_space(
        #[trigger] s.skip(from + kept)[k],
    ) by {
        assert(s.skip(from + kept)[k] == rest.skip(kept)[k]);
    }
    if kept > 0 {
        assert(trimmed(s).first() == rest[0]);
        assert(trimmed(s).last() == rest[kept - 1]);
    }
    (from, from + kept)
}

/// Trimming undoes padding: where `core` neither begins nor ends with white
/// space, and `before` and `after` hold nothing else, trimming
/// `before + core + after` gives `core`.
pub proof fn trimmed_of_padded(before: Seq<char>, core: Seq<char>, after: Seq<char>)
    requires
        is_blank(before),
        is_blank(after),
        is_tight(core),
    ensures
        trimmed(before + core + after) == core,
{
    if core.len() == 0 {
        assert(before + core + after == (before + after) + Seq::<char>::empty());
        assert forall|k: int| 0 <= k < (before + after).len() implies is_white_space(
            #[trigger] (before + after)[k],
        ) by {
            if k >= before.len() {
                assert((before + after)[k] == after[k - before.len()]);
            } else {
                assert((before + after)[k] == before[k]);
            }
        }
        trim_start_of_padded(before + after, Seq::empty());
    } else {
        assert(before + core + after == before + (core + after));
        assert((core + after).first() == core.first());
        trim_start_of_padded(before, core + after);
        trim_end_of_padded(core, after);
    }
}

/// Trimming twice is trimming once.
pub proof fn trimmed_is_idempotent(s: Seq<char>)
    ensures
        trimmed(trimmed(s)) == trimmed(s),
{
    let _ = trimmed_bounds(s);
    let core = trimmed(s);
    assert(Seq::<char>::empty() + core + Seq::<char>::empty() == core);
    trimmed_of_padded(Seq::empty(), core, Seq::empty());
}

proof fn trim_start_cut(s: Seq<char>) -> (from: int)
    ensures
        0 <= from <= s.len(),
        trim_start(s) == s.skip(from),
        is_blank(s.take(from)),
        from < s.len() ==> !is_white_space(s[from]),
    decreases s.len(),
{
    if s.len() > 0 && is_white_space(s.first()) {
        let inner = trim_start_cut(s.drop_first());
        assert(s.drop_first().skip(inner) == s.skip(inner + 1));
        assert forall|k: int| 0 <= k < inner + 1 implies is_white_space(
            #[trigger] s.take(inner + 1)[k],
        ) by {
            if k > 0 {
                assert(s.take(inner + 1)[k] == s.drop_first().take(inner)[k - 1]);
            }
        }
        inner + 1
    } else {
        assert(s.skip(0) == s);
        0
    }
}

proof fn trim_end_cut(s: Seq<char>) -> (to: int)
    ensures
        0 <= to <= s.len(),
        trim_end(s) == s.take(to),
        is_blank(s.skip(to)),
        to > 0 ==> !is_white_space(s[to - 1]),
    decreases s.len(),
{
    if s.len() > 0 && is_white_space(s.last()) {
        let inner = trim_end_cut(s.drop_last());
        assert(s.drop_last().take(inner) == s.take(inner));
        assert forall|k: int| 0 <= k < s.skip(inner).len() implies is_white_space(
            #[trigger] s.skip(inner)[k],
        ) by {
            if inner + k < s.len() - 1 {
                assert(s.skip(inner)[k] == s.drop_last().skip(inner)[k]);
            }
        }
        inner
    } else {
        assert(s.take(s.len() as int) == s);
        s.len() as int
    }
}

proof fn trim_start_of_padded(before: Seq<char>, rest: Seq<char>)
    requires
        is_blank(before),
        rest.len() > 0 ==> !is_white_space(rest.first()),
    ensures
        trim_start(before + rest) == rest,
    decreases before.len(),
{
    if before.len() == 0 {
        assert(before + rest == rest);
    } else {
        assert((before + rest).first() == before[0]);
        assert((before + rest).drop_first() == before.drop_first() + rest);
        assert forall|k: int| 0 <= k < before.drop_first().len() implies is_white_space(
            #[trigger] before.drop_first()[k],
        ) by {
            assert(before.drop_first()[k] == before[k + 1]);
        }
        trim_start_of_padded(before.drop_first(), rest);
    }
}

proof fn trim_end_of_padded(rest: Seq<char>, after: Seq<char>)
    requires
        is_blank(after),
        rest.len() > 0 ==> !is_white_space(rest.last()),
    ensures
        trim_end(rest + after) == rest,
    decreases after.len(),
{
    if after.len() == 0 {
        assert(rest + after == rest);
    } else {
        assert((rest + after).last() == after[after.len() - 1]);
        assert((rest + after).drop_last() == rest + after.drop_last());
        assert forall|k: int| 0 <= k < after.drop_last().len() implies is_white_space(
            #[trigger] after.drop_last()[k],
        ) by {
            assert(after.drop_last()[k] == after[k]);
        }
        trim_end_of_padded(rest, after.drop_last());
    }
}

} // verus!
