//! Whitespace tokenization of one input line.
//!
//! The dispatcher splits a line into tokens on whitespace: a fixed, simple
//! policy with no quoting or escaping of its own. A line is *blank* when it
//! holds nothing but whitespace; blank lines produce no tokens and the
//! dispatcher treats them as a trivial success.

use vstd::prelude::*;
use vstd::string::StrSliceExecFns;
use vstd::string::StringExecFns;

verus! {

/// Whether the code point `u` has the Unicode `White_Space` property: the
/// tokenizer's whitespace alphabet.
pub open spec fn is_ws_code(u: u32) -> bool {
    ||| u == 0x20
    ||| u == 0x09
    ||| u == 0x0A
    ||| u == 0x0B
    ||| u == 0x0C
    ||| u == 0x0D
    ||| u == 0x85
    ||| u == 0xA0
    ||| u == 0x1680
    ||| (0x2000 <= u && u <= 0x200A)
    ||| u == 0x2028
    ||| u == 0x2029
    ||| u == 0x202F
    ||| u == 0x205F
    ||| u == 0x3000
}

/// Whether `c` is a whitespace character.
pub open spec fn is_ws_char(c: char) -> bool {
    is_ws_code(c as u32)
}

/// Whether `s` is empty or holds nothing but whitespace.
pub open spec fn blank(s: Seq<char>) -> bool {
    forall|i: int| 0 <= i < s.len() ==> is_ws_char(#[trigger] s[i])
}

/// Executable whitespace test, equal to [`is_ws_char`].
pub fn ws_char(c: char) -> (b: bool)
    ensures
        b == is_ws_char(c),
{
    let u = c as u32;
    u == 0x20 || u == 0x09 || u == 0x0A || u == 0x0B || u == 0x0C || u == 0x0D || u == 0x85
        || u == 0xA0 || u == 0x1680 || (0x2000 <= u && u <= 0x200A) || u == 0x2028 || u == 0x2029
        || u == 0x202F || u == 0x205F || u == 0x3000
}

/// One left-to-right pass of the splitter over `s`: returns the tokens
/// completed so far and the partial token under construction (empty when
/// the last character seen was whitespace or nothing was seen yet).
pub open spec fn tok_fold(s: Seq<char>) -> (Seq<Seq<char>>, Seq<char>)
    decreases s.len(),
{
    if s.len() == 0 {
        (Seq::empty(), Seq::empty())
    } else {
        let (ts, cur) = tok_fold(s.drop_last());
        let c = s.last();
        if is_ws_char(c) {
            if cur.len() == 0 {
                (ts, cur)
            } else {
                (ts.push(cur), Seq::empty())
            }
        } else {
            (ts, cur.push(c))
        }
    }
}

/// The tokens of `s`: the maximal runs of non-whitespace characters, in
/// order.
pub open spec fn spec_tokens(s: Seq<char>) -> Seq<Seq<char>> {
    let (ts, cur) = tok_fold(s);
    if cur.len() == 0 {
        ts
    } else {
        ts.push(cur)
    }
}

/// A line has no tokens exactly when it is blank.
pub proof fn lemma_blank_iff_no_tokens(s: Seq<char>)
    ensures
        blank(s) <==> spec_tokens(s).len() == 0,
    decreases s.len(),
{
    if s.len() == 0 {
    } else {
        lemma_blank_iff_no_tokens(s.drop_last());
        if blank(s) {
            assert(blank(s.drop_last())) by {
                assert(forall|i: int|
                    0 <= i < s.len() - 1 ==> is_ws_char(#[trigger] s.drop_last()[i]));
            }
            assert(is_ws_char(s.last()));
        } else {
            if !blank(s.drop_last()) {
            } else {
                // the only non-whitespace character is the last one
                let i = choose|i: int| 0 <= i < s.len() && !is_ws_char(s[i]);
                if i < s.len() - 1 {
                    assert(!is_ws_char(s.drop_last()[i]));
                    assert(false);
                }
                assert(!is_ws_char(s.last()));
            }
        }
    }
}

/// Every token is non-empty and free of whitespace.
pub proof fn lemma_tokens_well_formed(s: Seq<char>)
    ensures
        forall|k: int| 0 <= k < spec_tokens(s).len() ==> #[trigger] spec_tokens(s)[k].len() > 0,
        forall|k: int, j: int|
            0 <= k < spec_tokens(s).len() && 0 <= j < spec_tokens(s)[k].len()
                ==> !is_ws_char(#[trigger] spec_tokens(s)[k][j]),
{
    lemma_fold_well_formed(s);
}

/// Invariant of the fold: completed tokens are non-empty and whitespace
/// free, and so is the partial token.
proof fn lemma_fold_well_formed(s: Seq<char>)
    ensures
        forall|k: int| 0 <= k < tok_fold(s).0.len() ==> #[trigger] tok_fold(s).0[k].len() > 0,
        forall|k: int, j: int|
            0 <= k < tok_fold(s).0.len() && 0 <= j < tok_fold(s).0[k].len()
                ==> !is_ws_char(#[trigger] tok_fold(s).0[k][j]),
        forall|j: int| 0 <= j < tok_fold(s).1.len() ==> !is_ws_char(#[trigger] tok_fold(s).1[j]),
    decreases s.len(),
{
    if s.len() == 0 {
    } else {
        lemma_fold_well_formed(s.drop_last());
        let (ts, cur) = tok_fold(s.drop_last());
        if is_ws_char(s.last()) && cur.len() != 0 {
            assert forall|k: int| 0 <= k < tok_fold(s).0.len() implies #[trigger] tok_fold(
                s,
            ).0[k].len() > 0 by {
                if k < ts.len() {
                    assert(tok_fold(s).0[k] == ts[k]);
                } else {
                    assert(tok_fold(s).0[k] == cur);
                }
            }
            assert forall|k: int, j: int|
                0 <= k < tok_fold(s).0.len() && 0 <= j < tok_fold(s).0[k].len() implies !is_ws_char(
                #[trigger] tok_fold(s).0[k][j],
            ) by {
                if k < ts.len() {
                    assert(tok_fold(s).0[k] == ts[k]);
                } else {
                    assert(tok_fold(s).0[k] == cur);
                }
            }
        }
    }
}

/// The non-whitespace characters of `s`, in order.
pub open spec fn non_ws_chars(s: Seq<char>) -> Seq<char>
    decreases s.len(),
{
    if s.len() == 0 {
        Seq::empty()
    } else if is_ws_char(s.last()) {
        non_ws_chars(s.drop_last())
    } else {
        non_ws_chars(s.drop_last()).push(s.last())
    }
}

/// Tokenization loses exactly the whitespace: the tokens, joined in
/// order, are the input's non-whitespace characters.
pub proof fn lemma_tokens_join_to_input(s: Seq<char>)
    ensures
        spec_tokens(s).flatten() == non_ws_chars(s),
{
    lemma_fold_join(s);
    let (ts, cur) = tok_fold(s);
    if cur.len() == 0 {
        ts.lemma_flatten_and_flatten_alt_are_equivalent();
        assert(ts.flatten_alt() + cur =~= ts.flatten_alt());
    } else {
        ts.push(cur).lemma_flatten_and_flatten_alt_are_equivalent();
        assert(ts.push(cur).drop_last() =~= ts);
        assert(ts.push(cur).flatten_alt() == ts.flatten_alt() + cur);
    }
}

/// Invariant of the fold: the completed tokens and the partial token,
/// joined, are the non-whitespace characters seen so far.
proof fn lemma_fold_join(s: Seq<char>)
    ensures
        tok_fold(s).0.flatten_alt() + tok_fold(s).1 == non_ws_chars(s),
    decreases s.len(),
{
    if s.len() == 0 {
        assert(tok_fold(s).0.flatten_alt() + tok_fold(s).1 =~= non_ws_chars(s));
    } else {
        lemma_fold_join(s.drop_last());
        let (ts, cur) = tok_fold(s.drop_last());
        let c = s.last();
        if is_ws_char(c) {
            if cur.len() == 0 {
            } else {
                assert(ts.push(cur).drop_last() =~= ts);
                assert(tok_fold(s).0.flatten_alt() + tok_fold(s).1 =~= ts.flatten_alt() + cur);
            }
        } else {
            assert(ts.flatten_alt() + cur.push(c) =~= (ts.flatten_alt() + cur).push(c));
        }
    }
}

/// The character sequences of a list of tokens.
pub open spec fn token_views(tokens: Seq<String>) -> Seq<Seq<char>> {
    tokens.map_values(|t: String| t@)
}

/// Split `line` into its whitespace-separated tokens.
///
/// Returns exactly the tokens of [`spec_tokens`]; in particular the result
/// is empty if and only if the line is blank.
pub fn tokenize(line: &str) -> (tokens: Vec<String>)
    ensures
        token_views(tokens@) == spec_tokens(line@),
        tokens.len() == 0 <==> blank(line@),
{
    let ghost s = line@;
    let n = line.unicode_len();
    let mut tokens: Vec<String> = Vec::new();
    let mut i: usize = 0;
    let mut start: usize = 0;
    while i < n
        invariant
            n == s.len(),
            line@ == s,
            start <= i <= n,
            token_views(tokens@) == tok_fold(s.take(i as int)).0,
            tok_fold(s.take(i as int)).1 == s.subrange(start as int, i as int),
        decreases n - i,
    {
        let c = line.get_char(i);
        proof {
            assert(s.take(i + 1).drop_last() =~= s.take(i as int));
            assert(s.take(i + 1).last() == s[i as int]);
        }
        if ws_char(c) {
            if start < i {
                let t = String::from_str(line.substring_char(start, i));
                tokens.push(t);
                proof {
                    assert(token_views(tokens@) =~= tok_fold(s.take(i + 1)).0);
                }
            }
            i = i + 1;
            start = i;
            proof {
                assert(tok_fold(s.take(i as int)).1 =~= s.subrange(start as int, i as int));
            }
        } else {
            i = i + 1;
            proof {
                assert(s.subrange(start as int, i as int) =~= s.subrange(
                    start as int,
                    i - 1,
                ).push(s[i - 1]));
            }
        }
    }
    proof {
        assert(s.take(n as int) =~= s);
    }
    if start < n {
        let t = String::from_str(line.substring_char(start, n));
        tokens.push(t);
        proof {
            assert(token_views(tokens@) =~= spec_tokens(s));
        }
    } else {
        proof {
            assert(s.subrange(start as int, n as int).len() == 0);
        }
    }
    proof {
        lemma_blank_iff_no_tokens(s);
    }
    tokens
}

} // verus!
