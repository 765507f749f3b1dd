//! The argument parser: splits the attribute's argument tokens into one
//! group per strategy expression.
//!
//! The split happens on commas that stand outside every bracket pair, so a
//! comma nested in a call such as `prop_oneof![1..3, 7..9]` never starts a
//! new group.  An empty argument list yields no groups at all, which the
//! binder later reads as "use the default strategy for every parameter".

use vstd::prelude::*;

use crate::token::deep;
use crate::token::deep2;
use crate::token::Token;
use crate::token::TokenView;

verus! {

/// How one token changes the bracket nesting depth.
pub open spec fn depth_delta(t: TokenView) -> int {
    match t {
        TokenView::Open(_) => 1,
        TokenView::Close(_) => -1,
        _ => 0,
    }
}

/// The net bracket nesting depth after reading all of `s`.
pub open spec fn depth_after(s: Seq<TokenView>) -> int
    decreases s.len(),
{
    if s.len() == 0 {
        0
    } else {
        depth_after(s.drop_last()) + depth_delta(s.last())
    }
}

/// Whether the last token of `s` is a comma standing outside every bracket
/// pair of `s`.
pub open spec fn ends_in_top_comma(s: Seq<TokenView>) -> bool {
    s.len() > 0 && s.last() is Comma && depth_after(s.drop_last()) == 0
}

/// How many commas of `s` stand outside every bracket pair.
pub open spec fn count_top_commas(s: Seq<TokenView>) -> nat
    decreases s.len(),
{
    if s.len() == 0 {
        0
    } else {
        count_top_commas(s.drop_last()) + (if ends_in_top_comma(s) {
            1nat
        } else {
            0nat
        })
    }
}

/// The groups of a non-empty argument list (also defined, as one empty
/// group, for the empty list).  Reading the tokens left to right, a comma
/// outside every bracket pair closes the current group and opens a new one;
/// every other token joins the current group.
pub open spec fn split_complete(s: Seq<TokenView>) -> Seq<Seq<TokenView>>
    decreases s.len(),
{
    if s.len() == 0 {
        seq![Seq::<TokenView>::empty()]
    } else if ends_in_top_comma(s) {
        split_complete(s.drop_last()).push(Seq::<TokenView>::empty())
    } else {
        let r = split_complete(s.drop_last());
        r.update(r.len() - 1, r.last().push(s.last()))
    }
}

/// The groups of an argument list: none for the empty list, otherwise one
/// group per stretch between commas that stand outside every bracket pair.
pub open spec fn split_groups(s: Seq<TokenView>) -> Seq<Seq<TokenView>> {
    if s.len() == 0 {
        Seq::empty()
    } else {
        split_complete(s)
    }
}

/// A split always yields one more group than there are splitting commas.
pub proof fn lemma_split_complete_len(s: Seq<TokenView>)
    ensures
        split_complete(s).len() == count_top_commas(s) + 1,
    decreases s.len(),
{
    if s.len() > 0 {
        lemma_split_complete_len(s.drop_last());
    }
}

/// Groups rejoined with a comma between each two.
pub open spec fn joined(gs: Seq<Seq<TokenView>>) -> Seq<TokenView>
    decreases gs.len(),
{
    if gs.len() == 0 {
        Seq::empty()
    } else if gs.len() == 1 {
        gs[0]
    } else {
        joined(gs.drop_last()) + seq![TokenView::Comma] + gs.last()
    }
}

/// What holds of every split: the bracket depth of the whole input is the
/// depth of the last group alone, and no group keeps a comma that stands
/// outside every bracket pair.
proof fn lemma_split_complete_shape(s: Seq<TokenView>)
    ensures
        split_complete(s).len() >= 1,
        depth_after(s) == depth_after(split_complete(s).last()),
        forall|i: int|
            0 <= i < split_complete(s).len() ==> count_top_commas(
                #[trigger] split_complete(s)[i],
            ) == 0,
    decreases s.len(),
{
    lemma_split_complete_len(s);
    if s.len() == 0 {
        assert(split_complete(s).last() =~= Seq::<TokenView>::empty());
    } else {
        lemma_split_complete_shape(s.drop_last());
        lemma_split_complete_len(s.drop_last());
        let r = split_complete(s.drop_last());
        if ends_in_top_comma(s) {
            assert(split_complete(s).last() =~= Seq::<TokenView>::empty());
            assert(forall|i: int|
                0 <= i < r.len() ==> #[trigger] split_complete(s)[i] == r[i]);
        } else {
            let g = r.last();
            let g2 = g.push(s.last());
            assert(split_complete(s).last() == g2);
            assert(g2.drop_last() =~= g);
            assert(depth_after(g2) == depth_after(g) + depth_delta(s.last()));
            assert(!ends_in_top_comma(g2));
            assert(count_top_commas(g2) == count_top_commas(g));
            assert(forall|i: int|
                0 <= i < r.len() - 1 ==> #[trigger] split_complete(s)[i] == r[i]);
        }
    }
}

/// Splitting drops and reorders nothing: rejoining the groups with commas
/// gives back the input, token for token.
pub proof fn lemma_split_rejoins(s: Seq<TokenView>)
    ensures
        joined(split_groups(s)) == s,
    decreases s.len(),
{
    if s.len() == 0 {
        assert(joined(split_groups(s)) =~= s);
    } else {
        lemma_split_rejoins_complete(s);
    }
}

/// The rejoin property for `split_complete`.
proof fn lemma_split_rejoins_complete(s: Seq<TokenView>)
    ensures
        joined(split_complete(s)) == s,
    decreases s.len(),
{
    if s.len() == 0 {
        assert(joined(split_complete(s)) =~= s);
    } else {
        lemma_split_rejoins_complete(s.drop_last());
        lemma_split_complete_len(s.drop_last());
        let r = split_complete(s.drop_last());
        if ends_in_top_comma(s) {
            let r2 = r.push(Seq::<TokenView>::empty());
            assert(r2.drop_last() =~= r);
            assert(joined(r2) == joined(r) + seq![TokenView::Comma] + Seq::<TokenView>::empty());
            assert(joined(r2) =~= s);
        } else {
            let g2 = r.last().push(s.last());
            let r2 = r.update(r.len() - 1, g2);
            assert(r2.last() == g2);
            if r.len() == 1 {
                assert(joined(r) == r.last());
                assert(r.last() =~= s.drop_last());
                assert(g2 =~= s);
                assert(r2.len() == 1);
                assert(joined(r2) == r2[0]);
                assert(r2[0] == g2);
            } else {
                assert(r2.drop_last() =~= r.drop_last());
                assert(joined(r2) == joined(r.drop_last()) + seq![TokenView::Comma] + g2);
                assert(joined(r) == joined(r.drop_last()) + seq![TokenView::Comma] + r.last());
                assert(joined(r.drop_last()) + seq![TokenView::Comma] + g2 =~= (joined(
                    r.drop_last(),
                ) + seq![TokenView::Comma] + r.last()).push(s.last()));
                assert(joined(r2) == joined(r).push(s.last()));
                assert(joined(r).push(s.last()) =~= s);
            }
        }
    }
}

/// A split never invents a split point inside a group: no group of a split
/// keeps a comma that stands outside every bracket pair, so a comma nested
/// in brackets never separates strategies.
pub proof fn lemma_split_no_top_commas(s: Seq<TokenView>)
    ensures
        forall|i: int|
            0 <= i < split_groups(s).len() ==> count_top_commas(#[trigger] split_groups(s)[i])
                == 0,
{
    if s.len() != 0 {
        lemma_split_complete_shape(s);
    }
}

/// An empty argument list yields no groups, and a non-empty one yields one
/// group more than it has commas outside every bracket pair.
pub proof fn lemma_split_group_count(s: Seq<TokenView>)
    ensures
        s.len() == 0 ==> split_groups(s).len() == 0,
        s.len() > 0 ==> split_groups(s).len() == count_top_commas(s) + 1,
{
    if s.len() > 0 {
        lemma_split_complete_len(s);
    }
}

/// Splits the attribute's argument tokens into one group per strategy
/// expression, on commas that stand outside every bracket pair.
pub fn split_args(toks: &Vec<Token>) -> (groups: Vec<Vec<Token>>)
    ensures
        deep2(groups@) == split_groups(deep(toks@)),
{
    let ghost s = deep(toks@);
    let mut groups: Vec<Vec<Token>> = Vec::new();
    if toks.len() == 0 {
        proof {
            assert(deep2(groups@) =~= split_groups(s));
        }
        return groups;
    }
    let mut cur: Vec<Token> = Vec::new();
    let mut depth: i128 = 0;
    let mut i: usize = 0;
    proof {
        assert(s.take(0) =~= Seq::<TokenView>::empty());
        assert(split_complete(s.take(0)) =~~= deep2(groups@).push(deep(cur@)));
    }
    while i < toks.len()
        invariant
            i <= toks.len(),
            s == deep(toks@),
            s.len() == toks@.len(),
            depth == depth_after(s.take(i as int)),
            -(i as int) <= depth <= i as int,
            split_complete(s.take(i as int)) == deep2(groups@).push(deep(cur@)),
        decreases toks.len() - i,
    {
        let ghost pre = s.take(i as int);
        let ghost post = s.take(i as int + 1);
        let ghost g0 = groups@;
        let ghost c0 = cur@;
        proof {
            assert(post.drop_last() =~= pre);
            assert(post.last() == s[i as int]);
            assert(s[i as int] == toks@[i as int]@);
        }
        let t = &toks[i];
        match t {
            Token::Comma => {
                if depth == 0 {
                    groups.push(cur);
                    cur = Vec::new();
                    proof {
                        assert(ends_in_top_comma(post));
                        assert(deep2(groups@) =~~= deep2(g0).push(deep(c0)));
                        assert(split_complete(post) =~~= deep2(groups@).push(deep(cur@)));
                    }
                } else {
                    cur.push(Token::Comma);
                    proof {
                        assert(!ends_in_top_comma(post));
                        assert(deep(cur@) =~= deep(c0).push(TokenView::Comma));
                        assert(split_complete(post) =~~= deep2(groups@).push(deep(cur@)));
                    }
                }
            },
            Token::Open(d) => {
                depth += 1;
                cur.push(Token::Open(*d));
                proof {
                    assert(deep(cur@) =~= deep(c0).push(post.last()));
                    assert(split_complete(post) =~~= deep2(groups@).push(deep(cur@)));
                }
            },
            Token::Close(d) => {
                depth -= 1;
                cur.push(Token::Close(*d));
                proof {
                    assert(deep(cur@) =~= deep(c0).push(post.last()));
                    assert(split_complete(post) =~~= deep2(groups@).push(deep(cur@)));
                }
            },
            _ => {
                cur.push(t.clone());
                proof {
                    assert(deep(cur@) =~= deep(c0).push(post.last()));
                    assert(split_complete(post) =~~= deep2(groups@).push(deep(cur@)));
                }
            },
        }
        i += 1;
    }
    proof {
        assert(s.take(toks@.len() as int) =~= s);
    }
    let ghost g1 = groups@;
    let ghost c1 = cur@;
    groups.push(cur);
    proof {
        assert(deep2(groups@) =~~= deep2(g1).push(deep(c1)));
    }
    groups
}

} // verus!
