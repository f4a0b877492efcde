//! The class name builder: class tokens joined by single spaces.
use vstd::prelude::*;

verus! {

/// `acc` with `token` appended: an empty token adds nothing, and a space
/// stands between two non-empty parts.
pub open spec fn join_step(acc: Seq<char>, token: Seq<char>) -> Seq<char> {
    if token.len() == 0 {
        acc
    } else if acc.len() == 0 {
        token
    } else {
        acc + seq![' '] + token
    }
}

/// The non-empty tokens, in their order, joined by single spaces.
pub open spec fn join_tokens(tokens: Seq<Seq<char>>) -> Seq<char>
    decreases tokens.len(),
{
    if tokens.len() == 0 {
        Seq::empty()
    } else {
        join_step(join_tokens(tokens.drop_last()), tokens.last())
    }
}

/// An empty token, wherever it stands, leaves the joined string unchanged.
pub proof fn lemma_empty_token_omitted(tokens: Seq<Seq<char>>, i: int)
    requires
        0 <= i < tokens.len(),
        tokens[i].len() == 0,
    ensures
        join_tokens(tokens.remove(i)) == join_tokens(tokens),
    decreases tokens.len(),
{
    if i == tokens.len() - 1 {
        assert(tokens.remove(i) =~= tokens.drop_last());
    } else {
        lemma_empty_token_omitted(tokens.drop_last(), i);
        assert(tokens.remove(i).drop_last() =~= tokens.drop_last().remove(i));
        assert(tokens.remove(i).last() == tokens.last());
    }
}

fn push_token(acc: &mut String, token: &str)
    ensures
        final(acc)@ == join_step(old(acc)@, token@),
{
    if token.is_empty() {
        assert(token@.len() == 0);
    } else if acc.as_str().is_empty() {
        acc.append(token);
        assert(final(acc)@ =~= token@);
    } else {
        acc.append(" ");
        proof {
            reveal_strlit(" ");
        }
        acc.append(token);
        assert(final(acc)@ =~= old(acc)@ + seq![' '] + token@);
    }
}

/// The tokens of `tokens`, non-empty ones only, in their order, joined by
/// single spaces.
pub fn join_classes(tokens: &Vec<&str>) -> (r: String)
    ensures
        r@ == join_tokens(tokens@.map_values(|t: &str| t@)),
{
    let mut acc = String::new();
    let mut i: usize = 0;
    while i < tokens.len()
        invariant
            i <= tokens@.len(),
            acc@ == join_tokens(tokens@.take(i as int).map_values(|t: &str| t@)),
        decreases tokens@.len() - i,
    {
        push_token(&mut acc, tokens[i]);
        proof {
            let next = tokens@.take(i + 1).map_values(|t: &str| t@);
            assert(next.drop_last() =~= tokens@.take(i as int).map_values(|t: &str| t@));
        }
        i = i + 1;
    }
    assert(tokens@.take(tokens@.len() as int) =~= tokens@);
    acc
}

/// The class string of a widget: the base class, then the palette, size and
/// style words, then the caller's class name, joined by single spaces with
/// empty tokens left out.
pub fn build_class_name(base: &str, palette: &str, size: &str, style: &str, caller: &str) -> (r:
    String)
    ensures
        r@ == join_tokens(seq![base@, palette@, size@, style@, caller@]),
{
    let tokens: Vec<&str> = vec![base, palette, size, style, caller];
    let r = join_classes(&tokens);
    assert(tokens@.map_values(|t: &str| t@) =~= seq![base@, palette@, size@, style@, caller@]);
    r
}

} // verus!
