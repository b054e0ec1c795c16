//! The reaction decorator's decisions: whether a chat message mentions the
//! keyword, and which decorative reactions to attach.
//!
//! A message qualifies when, after lowercasing, it contains `"madi"` as a
//! word of its own — non-letters trimmed from the word's ends — or contains
//! the phrase `"madi parsons"`. Posting the reactions is the runtime's
//! business; drawing them is done here, behind a trusted random source.

use vstd::prelude::*;
use rand::Rng;

verus! {

/// What `str::to_lowercase` returns for the given characters.
pub uninterp spec fn spec_lowercase(s: Seq<char>) -> Seq<char>;

/// What `char::is_whitespace` returns for the given character.
pub uninterp spec fn spec_whitespace(c: char) -> bool;

/// What `char::is_alphabetic` returns for the given character.
pub uninterp spec fn spec_alphabetic(c: char) -> bool;

/// Relies on str::to_lowercase: the result depends on the characters alone.
#[verifier::external_body]
fn lowercase(s: &str) -> (r: String)
    ensures
        r@ == spec_lowercase(s@),
{
    s.to_lowercase()
}

/// Relies on char::is_whitespace: the result depends on the character alone.
#[verifier::external_body]
fn char_is_whitespace(c: char) -> (r: bool)
    ensures
        r == spec_whitespace(c),
{
    c.is_whitespace()
}

/// Relies on char::is_alphabetic: the result depends on the character alone.
#[verifier::external_body]
fn char_is_alphabetic(c: char) -> (r: bool)
    ensures
        r == spec_alphabetic(c),
{
    c.is_alphabetic()
}

/// `pat` occurs in `s` starting at position `i`.
pub open spec fn spec_match_at(s: Seq<char>, pat: Seq<char>, i: int) -> bool {
    0 <= i && i + pat.len() <= s.len() && s.subrange(i, i + pat.len()) == pat
}

/// `pat` occurs somewhere in `s`.
pub open spec fn spec_contains(s: Seq<char>, pat: Seq<char>) -> bool {
    exists|i: int| spec_match_at(s, pat, i)
}

/// No whitespace anywhere in `s[lo..hi]`.
pub open spec fn spec_no_ws(s: Seq<char>, lo: int, hi: int) -> bool {
    forall|m: int| lo <= m < hi ==> !spec_whitespace(#[trigger] s[m])
}

/// Every character left of `i` that has no whitespace between itself and
/// `i` is a non-letter: within its word, nothing but trimmable characters
/// precede position `i`.
pub open spec fn spec_clear_left(s: Seq<char>, i: int) -> bool {
    forall|k: int| (0 <= k < i && spec_no_ws(s, k, i)) ==> !spec_alphabetic(#[trigger] s[k])
}

/// Every character from `j` on that has no whitespace between `j` and
/// itself is a non-letter: within its word, nothing but trimmable
/// characters follow position `j`.
pub open spec fn spec_clear_right(s: Seq<char>, j: int) -> bool {
    forall|k: int|
        (j <= k < s.len() && spec_no_ws(s, j, k + 1)) ==> !spec_alphabetic(#[trigger] s[k])
}

/// The keyword stands at `i` as a word of its own: it matches there, and
/// trimming the non-letters off its word's ends leaves exactly the keyword.
pub open spec fn spec_word_hit(s: Seq<char>, i: int) -> bool {
    spec_match_at(s, "madi"@, i) && spec_clear_left(s, i) && spec_clear_right(s, i + 4)
}

/// Some word of `s`, with non-letters trimmed from both ends, is the keyword.
pub open spec fn spec_has_madi_word(s: Seq<char>) -> bool {
    exists|i: int| spec_word_hit(s, i)
}

/// The decorator's whole test on a raw message.
pub open spec fn spec_should_react(s: Seq<char>) -> bool {
    spec_has_madi_word(spec_lowercase(s)) || spec_contains(spec_lowercase(s), "madi parsons"@)
}

fn match_at(s: &str, pat: &str, i: usize) -> (r: bool)
    requires
        i + pat@.len() <= s@.len(),
    ensures
        r == spec_match_at(s@, pat@, i as int),
{
    let slen = s.unicode_len();
    let plen = pat.unicode_len();
    let mut j: usize = 0;
    while j < plen
        invariant
            slen == s@.len(),
            plen == pat@.len(),
            i + plen <= slen,
            j <= plen,
            forall|m: int| 0 <= m < j ==> s@[i + m] == pat@[m],
        decreases plen - j,
    {
        if s.get_char(i + j) != pat.get_char(j) {
            proof {
                assert(s@.subrange(i as int, i + pat@.len()) != pat@) by {
                    if s@.subrange(i as int, i + pat@.len()) == pat@ {
                        assert(s@.subrange(i as int, i + pat@.len())[j as int] == s@[i + j]);
                    }
                }
            }
            return false;
        }
        j += 1;
    }
    proof {
        assert(s@.subrange(i as int, i + pat@.len()) =~= pat@);
    }
    true
}

/// Whether `s` contains `pat` (as character sequences).
pub fn contains_pat(s: &str, pat: &str) -> (r: bool)
    ensures
        r == spec_contains(s@, pat@),
{
    let slen = s.unicode_len();
    let plen = pat.unicode_len();
    if plen > slen {
        proof {
            assert(forall|i: int| !spec_match_at(s@, pat@, i));
        }
        return false;
    }
    if plen == 0 {
        proof {
            assert(s@.subrange(0, 0) =~= pat@);
            assert(spec_match_at(s@, pat@, 0));
        }
        return true;
    }
    let mut i: usize = 0;
    while i <= slen - plen
        invariant
            slen == s@.len(),
            plen == pat@.len(),
            1 <= plen <= slen,
            i <= slen - plen + 1,
            forall|k: int| 0 <= k < i ==> !spec_match_at(s@, pat@, k),
        decreases slen - plen + 1 - i,
    {
        if match_at(s, pat, i) {
            return true;
        }
        i += 1;
    }
    proof {
        assert(forall|k: int| !spec_match_at(s@, pat@, k));
    }
    false
}

fn clear_left(s: &str, i: usize) -> (r: bool)
    requires
        i <= s@.len(),
    ensures
        r == spec_clear_left(s@, i as int),
{
    let mut j: usize = i;
    loop
        invariant
            j <= i,
            i <= s@.len(),
            spec_no_ws(s@, j as int, i as int),
            forall|m: int| j <= m < i ==> !spec_alphabetic(#[trigger] s@[m]),
        decreases j,
    {
        if j == 0 {
            return true;
        }
        let c = s.get_char(j - 1);
        if char_is_whitespace(c) {
            proof {
                assert forall|k: int|
                    (0 <= k < i && spec_no_ws(s@, k, i as int)) implies !spec_alphabetic(
                    s@[k],
                ) by {
                    if k < j {
                        assert(!spec_whitespace(s@[j - 1]));
                        assert(false);
                    }
                }
            }
            return true;
        }
        if char_is_alphabetic(c) {
            proof {
                assert(spec_no_ws(s@, j - 1, i as int));
                if spec_clear_left(s@, i as int) {
                    assert(!spec_alphabetic(s@[j - 1]));
                }
            }
            return false;
        }
        j -= 1;
    }
}

fn clear_right(s: &str, j0: usize) -> (r: bool)
    requires
        j0 <= s@.len(),
    ensures
        r == spec_clear_right(s@, j0 as int),
{
    let slen = s.unicode_len();
    let mut j: usize = j0;
    loop
        invariant
            j0 <= j <= slen,
            slen == s@.len(),
            spec_no_ws(s@, j0 as int, j as int),
            forall|m: int| j0 <= m < j ==> !spec_alphabetic(#[trigger] s@[m]),
        decreases slen - j,
    {
        if j == slen {
            return true;
        }
        let c = s.get_char(j);
        if char_is_whitespace(c) {
            proof {
                assert forall|k: int|
                    (j0 <= k < s@.len() && spec_no_ws(s@, j0 as int, k + 1)) implies !spec_alphabetic(
                    s@[k],
                ) by {
                    if k >= j {
                        assert(!spec_whitespace(s@[j as int]));
                        assert(false);
                    }
                }
            }
            return true;
        }
        if char_is_alphabetic(c) {
            proof {
                assert(spec_no_ws(s@, j0 as int, j + 1));
                if spec_clear_right(s@, j0 as int) {
                    assert(!spec_alphabetic(s@[j as int]));
                }
            }
            return false;
        }
        j += 1;
    }
}

fn word_hit_at(s: &str, i: usize) -> (r: bool)
    ensures
        r == spec_word_hit(s@, i as int),
{
    proof {
        reveal_strlit("madi");
    }
    let slen = s.unicode_len();
    if slen < 4 || i > slen - 4 {
        return false;
    }
    if !match_at(s, "madi", i) {
        return false;
    }
    if !clear_left(s, i) {
        return false;
    }
    clear_right(s, i + 4)
}

/// Whether some word of `s`, with non-letters trimmed from both ends, is
/// the keyword `"madi"`.
pub fn has_madi_word(s: &str) -> (r: bool)
    ensures
        r == spec_has_madi_word(s@),
{
    proof {
        reveal_strlit("madi");
    }
    let slen = s.unicode_len();
    if slen < 4 {
        proof {
            assert(forall|i: int| !spec_word_hit(s@, i));
        }
        return false;
    }
    let mut i: usize = 0;
    while i <= slen - 4
        invariant
            slen == s@.len(),
            slen >= 4,
            "madi"@.len() == 4,
            i <= slen - 4 + 1,
            forall|k: int| 0 <= k < i ==> !spec_word_hit(s@, k),
        decreases slen - 4 + 1 - i,
    {
        if word_hit_at(s, i) {
            return true;
        }
        i += 1;
    }
    proof {
        assert(forall|k: int| !spec_word_hit(s@, k));
    }
    false
}

/// The match decision on text that is already lowercase: a keyword word of
/// its own, or the full phrase.
pub fn message_matches(lowered: &str) -> (r: bool)
    ensures
        r == (spec_has_madi_word(lowered@) || spec_contains(lowered@, "madi parsons"@)),
{
    if has_madi_word(lowered) {
        true
    } else {
        contains_pat(lowered, "madi parsons")
    }
}

/// The decorator's whole test on a raw message: lowercase it, then match.
pub fn should_react(msg: &str) -> (r: bool)
    ensures
        r == spec_should_react(msg@),
{
    let lowered = lowercase(msg);
    message_matches(lowered.as_str())
}

/// The fixed table of reaction sets, one set of characters per option.
pub open spec fn spec_reactions() -> Seq<Seq<char>> {
    seq![
        seq!['\u{1f975}'],
        seq!['\u{1f60d}'],
        seq!['\u{1f496}'],
        seq!['\u{1f979}'],
        seq!['\u{1f924}'],
        seq!['\u{1f60b}'],
        seq!['\u{1f920}'],
        seq!['\u{1f4aa}'],
        seq!['\u{1f1f2}', '\u{1f1e6}', '\u{1f1e9}', '\u{1f1ee}'],
        seq!['\u{1f1fe}', '\u{1f1ea}', '\u{1f1f8}'],
    ]
}

/// The reaction set at index `k` of the table.
pub fn reaction_option_at(k: usize) -> (v: Vec<char>)
    requires
        k < 10,
    ensures
        v@ == spec_reactions()[k as int],
{
    let mut v: Vec<char> = Vec::new();
    if k == 0 {
        v.push('\u{1f975}');
    } else if k == 1 {
        v.push('\u{1f60d}');
    } else if k == 2 {
        v.push('\u{1f496}');
    } else if k == 3 {
        v.push('\u{1f979}');
    } else if k == 4 {
        v.push('\u{1f924}');
    } else if k == 5 {
        v.push('\u{1f60b}');
    } else if k == 6 {
        v.push('\u{1f920}');
    } else if k == 7 {
        v.push('\u{1f4aa}');
    } else if k == 8 {
        v.push('\u{1f1f2}');
        v.push('\u{1f1e6}');
        v.push('\u{1f1e9}');
        v.push('\u{1f1ee}');
    } else {
        v.push('\u{1f1fe}');
        v.push('\u{1f1ea}');
        v.push('\u{1f1f8}');
    }
    proof {
        assert(v@ =~= spec_reactions()[k as int]);
    }
    v
}

/// The whole table, in order.
pub fn reaction_options() -> (r: Vec<Vec<char>>)
    ensures
        r@.len() == spec_reactions().len(),
        forall|i: int| 0 <= i < r@.len() ==> (#[trigger] r@[i])@ == spec_reactions()[i],
{
    let mut v: Vec<Vec<char>> = Vec::new();
    let mut k: usize = 0;
    while k < 10
        invariant
            v@.len() == k,
            k <= 10,
            forall|i: int| 0 <= i < k ==> (#[trigger] v@[i])@ == spec_reactions()[i],
        decreases 10 - k,
    {
        let set = reaction_option_at(k);
        v.push(set);
        k += 1;
    }
    v
}

/// Relies on rand::Rng::gen_range on the thread-local generator from
/// rand::thread_rng(): a value drawn from `lo..hi`. The call panics on an
/// empty range, which `lo < hi` rules out; every draw lies in the range.
#[verifier::external_body]
fn rand_range(lo: usize, hi: usize) -> (r: usize)
    requires
        lo < hi,
    ensures
        lo <= r < hi,
{
    rand::thread_rng().gen_range(lo..hi)
}

/// Draws how many reaction sets to attach — one to three — and which:
/// every outcome holds pairwise-distinct valid option indices. Drawing
/// without replacement from a pool of the ten indices keeps them distinct.
pub fn choose_reaction_indices() -> (r: Vec<usize>)
    ensures
        1 <= r@.len() <= 3,
        forall|i: int| 0 <= i < r@.len() ==> r@[i] < 10,
        forall|i: int, j: int| 0 <= i < j < r@.len() ==> r@[i] != r@[j],
{
    let count = rand_range(1, 4);
    let mut pool: Vec<usize> = Vec::new();
    let mut k: usize = 0;
    while k < 10
        invariant
            pool@.len() == k,
            k <= 10,
            forall|i: int| 0 <= i < k ==> pool@[i] == i,
        decreases 10 - k,
    {
        pool.push(k);
        k += 1;
    }
    let mut selected: Vec<usize> = Vec::new();
    while selected.len() < count
        invariant
            1 <= count <= 3,
            selected@.len() <= count,
            pool@.len() + selected@.len() == 10,
            forall|i: int| 0 <= i < pool@.len() ==> pool@[i] < 10,
            forall|i: int| 0 <= i < selected@.len() ==> selected@[i] < 10,
            forall|i: int, j: int| 0 <= i < j < pool@.len() ==> pool@[i] != pool@[j],
            forall|i: int, j: int| 0 <= i < j < selected@.len() ==> selected@[i] != selected@[j],
            forall|i: int, j: int|
                0 <= i < pool@.len() && 0 <= j < selected@.len() ==> pool@[i] != selected@[j],
        decreases count - selected@.len(),
    {
        let pos = rand_range(0, pool.len());
        let ghost oldpool = pool@;
        let idx = pool.remove(pos);
        proof {
            oldpool.remove_ensures(pos as int);
        }
        selected.push(idx);
    }
    selected
}

/// No two entries of the reaction table are the same set.
proof fn lemma_reaction_table_distinct()
    ensures
        forall|i: int, j: int|
            0 <= i < j < 10 ==> #[trigger] spec_reactions()[i] != #[trigger] spec_reactions()[j],
{
    assert forall|i: int, j: int| 0 <= i < j < 10 implies #[trigger] spec_reactions()[i]
        != #[trigger] spec_reactions()[j] by {
        if spec_reactions()[i] == spec_reactions()[j] {
            assert(spec_reactions()[i].len() == spec_reactions()[j].len());
            assert(spec_reactions()[i][0] == spec_reactions()[j][0]);
        }
    }
}

/// Draws the reactions themselves: one to three sets out of the table, no
/// set twice.
pub fn pick_reactions() -> (r: Vec<Vec<char>>)
    ensures
        1 <= r@.len() <= 3,
        forall|i: int| 0 <= i < r@.len() ==> spec_reactions().contains((#[trigger] r@[i])@),
        forall|i: int, j: int| 0 <= i < j < r@.len() ==> (#[trigger] r@[i])@ != (#[trigger] r@[j])@,
{
    let picked = choose_reaction_indices();
    let mut out: Vec<Vec<char>> = Vec::new();
    let mut i: usize = 0;
    while i < picked.len()
        invariant
            1 <= picked@.len() <= 3,
            forall|k: int| 0 <= k < picked@.len() ==> picked@[k] < 10,
            forall|k: int, l: int| 0 <= k < l < picked@.len() ==> picked@[k] != picked@[l],
            out@.len() == i,
            i <= picked@.len(),
            forall|k: int| 0 <= k < i ==> (#[trigger] out@[k])@ == spec_reactions()[picked@[k] as int],
            forall|k: int| 0 <= k < i ==> spec_reactions().contains((#[trigger] out@[k])@),
        decreases picked@.len() - i,
    {
        let idx = picked[i];
        let set = reaction_option_at(idx);
        out.push(set);
        proof {
            assert(out@[i as int]@ == spec_reactions()[idx as int]);
            assert(spec_reactions().contains(out@[i as int]@));
        }
        i += 1;
    }
    proof {
        lemma_reaction_table_distinct();
        assert forall|i: int, j: int| 0 <= i < j < out@.len() implies (#[trigger] out@[i])@
            != (#[trigger] out@[j])@ by {
            let a = picked@[i] as int;
            let b = picked@[j] as int;
            assert(a != b);
            if a < b {
                assert(spec_reactions()[a] != spec_reactions()[b]);
            } else {
                assert(spec_reactions()[b] != spec_reactions()[a]);
            }
        }
    }
    out
}

} // verus!
