//! Runs of tokens: where a punctuation character first stands in one, and
//! how tokens are taken off a queue.
//!
//! Only the tokens of the run itself are looked at. What stands inside a
//! group is part of that group, one token of the run.

use crate::token::{emit, Token, TokenView};
use std::collections::VecDeque;
use vstd::prelude::*;

verus! {

/// The place of the first token of `ts` that is the punctuation character
/// `ch`; `ts.len()` if there is none. Only the tokens of `ts` itself count,
/// not those inside its groups.
pub open spec fn first_punct(ts: Seq<TokenView>, ch: char) -> int
    decreases ts.len(),
{
    if ts.len() == 0 {
        0
    } else if ts[0].is_punct(ch) {
        0
    } else {
        1 + first_punct(ts.drop_first(), ch)
    }
}

/// `first_punct` is the least index that holds the character, and stays
/// within the sequence.
pub proof fn lemma_first_punct(ts: Seq<TokenView>, ch: char)
    ensures
        0 <= first_punct(ts, ch) <= ts.len(),
        first_punct(ts, ch) < ts.len() ==> ts[first_punct(ts, ch)].is_punct(ch),
        forall|j: int| 0 <= j < first_punct(ts, ch) ==> !(#[trigger] ts[j]).is_punct(ch),
    decreases ts.len(),
{
    if ts.len() > 0 && !ts[0].is_punct(ch) {
        let rest = ts.drop_first();
        lemma_first_punct(rest, ch);
        assert forall|j: int| 0 <= j < first_punct(ts, ch) implies !(#[trigger] ts[j]).is_punct(
            ch,
        ) by {
            if j > 0 {
                assert(ts[j] == rest[j - 1]);
            }
        }
    }
}

/// An index that holds the character, with none before it, is `first_punct`.
pub proof fn lemma_first_punct_is(ts: Seq<TokenView>, ch: char, at: int)
    requires
        0 <= at <= ts.len(),
        at < ts.len() ==> ts[at].is_punct(ch),
        forall|j: int| 0 <= j < at ==> !(#[trigger] ts[j]).is_punct(ch),
    ensures
        first_punct(ts, ch) == at,
{
    lemma_first_punct(ts, ch);
    let found = first_punct(ts, ch);
    if found < at {
        assert(!ts[found].is_punct(ch));
    }
}

/// What follows the token at `at`: nothing, if `at` is not a place in `ts`.
pub open spec fn after(ts: Seq<TokenView>, at: int) -> Seq<TokenView> {
    if 0 <= at < ts.len() {
        ts.skip(at + 1)
    } else {
        Seq::empty()
    }
}

/// Takes the first token off `input`.
pub fn take_front(input: &mut VecDeque<Token>) -> (r: Option<Token>)
    ensures
        match r {
            Some(t) => {
                &&& old(input).deep_view().len() > 0
                &&& t@ == old(input).deep_view()[0]
                &&& final(input).deep_view() == old(input).deep_view().drop_first()
            },
            None => old(input).deep_view().len() == 0 && final(input).deep_view().len() == 0,
        },
{
    let r = input.pop_front();
    assert(r is Some ==> input.deep_view() =~= old(input).deep_view().drop_first());
    r
}

/// Takes the last token off `input`.
pub fn take_back(input: &mut VecDeque<Token>) -> (r: Option<Token>)
    ensures
        match r {
            Some(t) => {
                &&& old(input).deep_view().len() > 0
                &&& t@ == old(input).deep_view().last()
                &&& final(input).deep_view() == old(input).deep_view().drop_last()
            },
            None => old(input).deep_view().len() == 0 && final(input).deep_view().len() == 0,
        },
{
    let r = input.pop_back();
    assert(r is Some ==> input.deep_view() =~= old(input).deep_view().drop_last());
    r
}

/// Moves tokens from the front of `input` to the end of `out` until the
/// punctuation character `stop` comes. That token is taken off `input` too,
/// and returned; without one, all of `input` is moved and nothing returned.
pub fn collect_until(out: &mut Vec<Token>, input: &mut VecDeque<Token>, stop: char) -> (r: Option<
    Token,
>)
    ensures
        final(out).deep_view() == old(out).deep_view() + old(input).deep_view().take(
            first_punct(old(input).deep_view(), stop),
        ),
        final(input).deep_view() == after(
            old(input).deep_view(),
            first_punct(old(input).deep_view(), stop),
        ),
        match r {
            Some(t) => {
                &&& first_punct(old(input).deep_view(), stop) < old(input).deep_view().len()
                &&& t@ == old(input).deep_view()[first_punct(old(input).deep_view(), stop)]
            },
            None => first_punct(old(input).deep_view(), stop) == old(input).deep_view().len(),
        },
{
    let ghost all = input.deep_view();
    let ghost before = out.deep_view();
    let ghost mut moved: int = 0;
    loop
        invariant
            0 <= moved <= all.len(),
            input.deep_view() == all.skip(moved),
            out.deep_view() == before + all.take(moved),
            forall|j: int| 0 <= j < moved ==> !(#[trigger] all[j]).is_punct(stop),
            all == old(input).deep_view(),
            before == old(out).deep_view(),
        decreases all.len() - moved,
    {
        match take_front(input) {
            None => {
                proof {
                    lemma_first_punct_is(all, stop, moved);
                    assert(all.take(moved) =~= all);
                }
                return None;
            },
            Some(t) => {
                if t.is_punct(stop) {
                    proof {
                        lemma_first_punct_is(all, stop, moved);
                        assert(all.skip(moved).drop_first() =~= all.skip(moved + 1));
                    }
                    return Some(t);
                }
                emit(out, t);
                proof {
                    assert(all.skip(moved).drop_first() =~= all.skip(moved + 1));
                    assert(all.take(moved + 1) =~= all.take(moved).push(all[moved]));
                    assert(out.deep_view() =~= before + all.take(moved + 1));
                    moved = moved + 1;
                }
            },
        }
    }
}

/// The tokens of `input`, in the same order, as a vector.
pub fn drain(input: VecDeque<Token>) -> (r: Vec<Token>)
    ensures
        r.deep_view() == input.deep_view(),
{
    let mut rest = input;
    let mut out: Vec<Token> = Vec::new();
    loop
        invariant
            out.deep_view() + rest.deep_view() == input.deep_view(),
        decreases rest.deep_view().len(),
    {
        let ghost before = rest.deep_view();
        match take_front(&mut rest) {
            None => {
                assert(out.deep_view() + rest.deep_view() =~= out.deep_view());
                return out;
            },
            Some(t) => {
                let ghost moved = out.deep_view();
                emit(&mut out, t);
                assert(out.deep_view() + rest.deep_view() =~= moved + before);
            },
        }
    }
}

/// The tokens of `input`, in the same order, as a queue.
pub fn queue(input: Vec<Token>) -> (r: VecDeque<Token>)
    ensures
        r.deep_view() == input.deep_view(),
{
    let mut rest = input;
    let mut out: VecDeque<Token> = VecDeque::new();
    loop
        invariant
            rest.deep_view() + out.deep_view() == input.deep_view(),
        decreases rest.len(),
    {
        let ghost before = rest.deep_view();
        let ghost moved = out.deep_view();
        match rest.pop() {
            None => {
                assert(rest.deep_view() + out.deep_view() =~= out.deep_view());
                return out;
            },
            Some(t) => {
                out.push_front(t);
                assert(rest.deep_view() =~= before.drop_last());
                assert(out.deep_view() =~= seq![before.last()] + moved);
                assert(rest.deep_view() + out.deep_view() =~= before + moved);
            },
        }
    }
}

} // verus!
