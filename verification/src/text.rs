//! White space at the ends of labels.
use vstd::prelude::*;
use vstd::string::*;

verus! {

/// Whether `c` has Unicode's property `White_Space`.
pub open spec fn is_white_space(c: char) -> bool {
    ||| '\u{9}' <= c <= '\u{d}'
    ||| c == '\u{20}'
    ||| c == '\u{85}'
    ||| c == '\u{a0}'
    ||| c == '\u{1680}'
    ||| '\u{2000}' <= c <= '\u{200a}'
    ||| c == '\u{2028}'
    ||| c == '\u{2029}'
    ||| c == '\u{202f}'
    ||| c == '\u{205f}'
    ||| c == '\u{3000}'
}

/// `s` without the white space at its start and at its end.
pub open spec fn trimmed(s: Seq<char>) -> Seq<char>
    decreases s.len(),
{
    if s.len() == 0 {
        s
    } else if is_white_space(s.first()) {
        trimmed(s.drop_first())
    } else if is_white_space(s.last()) {
        trimmed(s.drop_last())
    } else {
        s
    }
}

/// Whether `s` holds nothing but white space.
pub open spec fn is_blank(s: Seq<char>) -> bool {
    forall|i: int| 0 <= i < s.len() ==> is_white_space(#[trigger] s[i])
}

/// Trimming leaves nothing exactly where the text is blank, leaves no white space
/// at either end, and changes nothing when done again.
pub proof fn law_trimming(s: Seq<char>)
    ensures
        trimmed(s).len() == 0 <==> is_blank(s),
        trimmed(s).len() > 0 ==> !is_white_space(trimmed(s).first()) && !is_white_space(
            trimmed(s).last(),
        ),
        trimmed(trimmed(s)) == trimmed(s),
    decreases s.len(),
{
    if s.len() > 0 {
        if is_white_space(s.first()) {
            let rest = s.drop_first();
            law_trimming(rest);
            if is_blank(rest) {
                assert forall|i: int| 0 <= i < s.len() implies is_white_space(#[trigger] s[i]) by {
                    if i > 0 {
                        assert(rest[i - 1] == s[i]);
                    }
                }
            }
            if is_blank(s) {
                assert forall|i: int| 0 <= i < rest.len() implies is_white_space(
                    #[trigger] rest[i],
                ) by {
                    assert(rest[i] == s[i + 1]);
                }
            }
        } else {
            assert(!is_blank(s)) by {
                assert(!is_white_space(s[0]));
            }
            if is_white_space(s.last()) {
                let rest = s.drop_last();
                law_trimming(rest);
                assert(!is_white_space(rest[0]));
            }
        }
    }
}

proof fn lemma_trim_front(s: Seq<char>, lo: int)
    requires
        0 <= lo <= s.len(),
        forall|i: int| 0 <= i < lo ==> is_white_space(#[trigger] s[i]),
    ensures
        trimmed(s) == trimmed(s.skip(lo)),
    decreases lo,
{
    if lo == 0 {
        assert(s.skip(0) =~= s);
    } else {
        let rest = s.drop_first();
        assert forall|i: int| 0 <= i < lo - 1 implies is_white_space(#[trigger] rest[i]) by {
            assert(rest[i] == s[i + 1]);
        }
        assert(is_white_space(s[0]));
        lemma_trim_front(rest, lo - 1);
        assert(rest.skip(lo - 1) =~= s.skip(lo));
    }
}

proof fn lemma_trim_back(s: Seq<char>, hi: int)
    requires
        0 < hi <= s.len(),
        !is_white_space(s.first()),
        forall|i: int| hi <= i < s.len() ==> is_white_space(#[trigger] s[i]),
    ensures
        trimmed(s) == trimmed(s.take(hi)),
    decreases s.len() - hi,
{
    if hi == s.len() {
        assert(s.take(hi) =~= s);
    } else {
        let rest = s.drop_last();
        assert(is_white_space(s[s.len() - 1]));
        assert(rest[0] == s[0]);
        lemma_trim_back(rest, hi);
        assert(rest.take(hi) =~= s.take(hi));
    }
}

/// Tells whether a character is white space.
pub fn char_is_white_space(c: char) -> (blank: bool)
    ensures
        blank == is_white_space(c),
{
    ('\u{9}' <= c && c <= '\u{d}') || c == '\u{20}' || c == '\u{85}' || c == '\u{a0}' || c
        == '\u{1680}' || ('\u{2000}' <= c && c <= '\u{200a}') || c == '\u{2028}' || c == '\u{2029}'
        || c == '\u{202f}' || c == '\u{205f}' || c == '\u{3000}'
}

/// Cuts the white space off both ends of `s`.
pub fn trim(s: &str) -> (r: &str)
    ensures
        r@ == trimmed(s@),
{
    let n: usize = s.unicode_len();
    let mut lo: usize = 0;
    while lo < n && char_is_white_space(s.get_char(lo))
        invariant
            n == s@.len(),
            lo <= n,
            forall|i: int| 0 <= i < lo ==> is_white_space(#[trigger] s@[i]),
        decreases n - lo,
    {
        lo = lo + 1;
    }
    proof {
        lemma_trim_front(s@, lo as int);
    }
    let mut hi: usize = n;
    while lo < hi && char_is_white_space(s.get_char(hi - 1))
        invariant
            n == s@.len(),
            lo <= hi <= n,
            lo < n ==> !is_white_space(s@[lo as int]),
            forall|i: int| hi <= i < n ==> is_white_space(#[trigger] s@[i]),
        decreases hi,
    {
        hi = hi - 1;
    }
    proof {
        let rest = s@.skip(lo as int);
        if lo < n {
            if lo == hi {
                assert(is_white_space(s@[lo as int]));
            }
            assert(rest.first() == s@[lo as int]);
            lemma_trim_back(rest, hi - lo);
            let kept = rest.take(hi - lo);
            assert(kept =~= s@.subrange(lo as int, hi as int));
            assert(kept.last() == s@[hi - 1]);
        } else {
            assert(rest =~= s@.subrange(lo as int, hi as int));
        }
    }
    s.substring_char(lo, hi)
}

/// Which characters are white space, by their code points.
pub proof fn law_white_space(c: char)
    ensures
        is_white_space(c) <==> {
            let n = c as int;
            ||| 9 <= n <= 13
            ||| n == 32
            ||| n == 0x85
            ||| n == 0xa0
            ||| n == 0x1680
            ||| 0x2000 <= n <= 0x200a
            ||| n == 0x2028
            ||| n == 0x2029
            ||| n == 0x202f
            ||| n == 0x205f
            ||| n == 0x3000
        },
{
}

/// Where the stretch that trimming leaves begins and ends.
proof fn lemma_trimmed_stretch(s: Seq<char>) -> (ends: (int, int))
    ensures
        0 <= ends.0 <= ends.1 <= s.len(),
        trimmed(s) == s.subrange(ends.0, ends.1),
        forall|i: int|
            0 <= i < ends.0 || ends.1 <= i < s.len() ==> is_white_space(#[trigger] s[i]),
    decreases s.len(),
{
    if s.len() > 0 && is_white_space(s.first()) {
        let rest = s.drop_first();
        let (lo, hi) = lemma_trimmed_stretch(rest);
        assert(s.subrange(lo + 1, hi + 1) =~= rest.subrange(lo, hi));
        assert forall|i: int| 0 <= i < lo + 1 || hi + 1 <= i < s.len() implies is_white_space(
            #[trigger] s[i],
        ) by {
            if i > 0 {
                assert(rest[i - 1] == s[i]);
            }
        }
        (lo + 1, hi + 1)
    } else if s.len() > 0 && is_white_space(s.last()) {
        let rest = s.drop_last();
        let (lo, hi) = lemma_trimmed_stretch(rest);
        assert(s.subrange(lo, hi) =~= rest.subrange(lo, hi));
        assert forall|i: int| 0 <= i < lo || hi <= i < s.len() implies is_white_space(
            #[trigger] s[i],
        ) by {
            if i < rest.len() {
                assert(rest[i] == s[i]);
            }
        }
        (lo, hi)
    } else {
        assert(s.subrange(0, s.len() as int) =~= s);
        (0, s.len() as int)
    }
}

/// Trimming takes white space off the ends and nothing else: what is left is a stretch of the
/// text, and all that stood before it and behind it is white space.
pub proof fn law_trimming_cuts_the_ends_off(s: Seq<char>)
    ensures
        exists|lo: int, hi: int|
            {
                &&& 0 <= lo <= hi <= s.len()
                &&& trimmed(s) == #[trigger] s.subrange(lo, hi)
                &&& forall|i: int|
                    0 <= i < lo || hi <= i < s.len() ==> is_white_space(#[trigger] s[i])
            },
{
    let (lo, hi) = lemma_trimmed_stretch(s);
    assert(trimmed(s) == s.subrange(lo, hi));
}

} // verus!
