//! Longest-correct-prefix matching.
//!
//! Given the player's input and the active target phrase, both as sequences
//! of Unicode scalar values, the matcher returns the length of the longest
//! leading run of the input that matches the phrase character for character.
//! Comparison stops at the first mismatching pair or when either sequence is
//! exhausted, whichever comes first; the two sequences need not have the
//! same length.

use vstd::prelude::*;

verus! {

/// Length of the longest common prefix of `input` and `phrase`:
/// the largest `k` such that the first `k` characters of `input` equal the
/// first `k` characters of `phrase`.
pub open spec fn correct_prefix_len(input: Seq<char>, phrase: Seq<char>) -> nat
    decreases input.len(),
{
    if input.len() == 0 || phrase.len() == 0 || input[0] != phrase[0] {
        0
    } else {
        correct_prefix_len(input.drop_first(), phrase.drop_first()) + 1
    }
}

/// For all phrases and inputs, the longest correct prefix is no longer than
/// either sequence: `correct_prefix_len(input, phrase) <= min(|input|, |phrase|)`.
pub proof fn lemma_prefix_len_bound(input: Seq<char>, phrase: Seq<char>)
    ensures
        correct_prefix_len(input, phrase) <= input.len(),
        correct_prefix_len(input, phrase) <= phrase.len(),
    decreases input.len(),
{
    if input.len() == 0 || phrase.len() == 0 || input[0] != phrase[0] {
    } else {
        lemma_prefix_len_bound(input.drop_first(), phrase.drop_first());
    }
}

/// The characters below the longest correct prefix all match, and the first
/// characters beyond it (when both sequences have one) differ.
pub proof fn lemma_prefix_len_matches(input: Seq<char>, phrase: Seq<char>)
    ensures
        correct_prefix_len(input, phrase) <= input.len(),
        correct_prefix_len(input, phrase) <= phrase.len(),
        forall|j: int| 0 <= j < correct_prefix_len(input, phrase) ==> input[j] == phrase[j],
        correct_prefix_len(input, phrase) < input.len() && correct_prefix_len(input, phrase)
            < phrase.len() ==> input[correct_prefix_len(input, phrase) as int]
            != phrase[correct_prefix_len(input, phrase) as int],
    decreases input.len(),
{
    lemma_prefix_len_bound(input, phrase);
    if input.len() == 0 || phrase.len() == 0 || input[0] != phrase[0] {
    } else {
        lemma_prefix_len_matches(input.drop_first(), phrase.drop_first());
        let k = correct_prefix_len(input, phrase) as int;
        assert forall|j: int| 0 <= j < k implies input[j] == phrase[j] by {
            if j > 0 {
                assert(input.drop_first()[j - 1] == input[j]);
                assert(phrase.drop_first()[j - 1] == phrase[j]);
            }
        }
        if k < input.len() && k < phrase.len() {
            assert(input.drop_first()[k - 1] == input[k]);
            assert(phrase.drop_first()[k - 1] == phrase[k]);
        }
    }
}

/// An index `k` with all characters below it matching and a mismatch or an
/// exhausted sequence at it is exactly the longest correct prefix.
pub proof fn lemma_prefix_len_from_scan(input: Seq<char>, phrase: Seq<char>, k: int)
    requires
        0 <= k <= input.len(),
        k <= phrase.len(),
        forall|j: int| 0 <= j < k ==> input[j] == phrase[j],
        k == input.len() || k == phrase.len() || input[k] != phrase[k],
    ensures
        correct_prefix_len(input, phrase) == k,
    decreases input.len(),
{
    if k == 0 {
        if input.len() > 0 && phrase.len() > 0 {
            assert(input[0] != phrase[0]);
        }
    } else {
        assert(input[0] == phrase[0]);
        let di = input.drop_first();
        let dp = phrase.drop_first();
        assert forall|j: int| 0 <= j < k - 1 implies di[j] == dp[j] by {
            assert(input[j + 1] == phrase[j + 1]);
        }
        if k < input.len() && k < phrase.len() {
            assert(di[k - 1] == input[k]);
            assert(dp[k - 1] == phrase[k]);
        }
        lemma_prefix_len_from_scan(di, dp, k - 1);
    }
}

/// An input that equals the phrase matches it in full.
pub proof fn lemma_prefix_len_refl(s: Seq<char>)
    ensures
        correct_prefix_len(s, s) == s.len(),
    decreases s.len(),
{
    if s.len() > 0 {
        lemma_prefix_len_refl(s.drop_first());
    }
}

/// Appending a character to the input never decreases the longest correct
/// prefix; once the input holds a mismatch, appending more characters never
/// changes it.
pub proof fn lemma_prefix_len_append(input: Seq<char>, phrase: Seq<char>, c: char)
    ensures
        correct_prefix_len(input.push(c), phrase) >= correct_prefix_len(input, phrase),
        correct_prefix_len(input, phrase) < input.len() ==> correct_prefix_len(
            input.push(c),
            phrase,
        ) == correct_prefix_len(input, phrase),
    decreases input.len(),
{
    if input.len() == 0 {
        assert(input.push(c)[0] == c);
    } else if phrase.len() == 0 {
    } else {
        assert(input.push(c)[0] == input[0]);
        if input[0] != phrase[0] {
        } else {
            assert(input.push(c).drop_first() =~= input.drop_first().push(c));
            lemma_prefix_len_append(input.drop_first(), phrase.drop_first(), c);
        }
    }
}

/// Longest correct prefix of the typed input against the active phrase,
/// counted in characters.
pub fn longest_correct_prefix(input: &Vec<char>, phrase: &Vec<char>) -> (k: usize)
    ensures
        k == correct_prefix_len(input@, phrase@),
{
    let mut i: usize = 0;
    while i < input.len() && i < phrase.len() && input[i] == phrase[i]
        invariant
            i <= input@.len(),
            i <= phrase@.len(),
            forall|j: int| 0 <= j < i ==> input@[j] == phrase@[j],
        decreases input@.len() - i,
    {
        i = i + 1;
    }
    proof {
        lemma_prefix_len_from_scan(input@, phrase@, i as int);
    }
    i
}

} // verus!
