//! The scopes of a sign-in, read from the comma-separated text that the
//! operator configures.

use crate::errors::ConfigError;
use crate::text::{chars_of, is_piece, join, split, split_bounds, string_of, trim_bounds, trimmed};
use vstd::prelude::*;
use vstd::string::StringExecFns;

verus! {

/// The scopes that a run of pieces names: each piece trimmed, in order,
/// without the empty ones and without any that came before.
pub open spec fn scopes_from(pieces: Seq<Seq<char>>) -> Seq<Seq<char>>
    decreases pieces.len(),
{
    if pieces.len() == 0 {
        seq![]
    } else {
        let before = scopes_from(pieces.drop_last());
        let scope = trimmed(pieces.last());
        if scope.len() == 0 || before.contains(scope) {
            before
        } else {
            before.push(scope)
        }
    }
}

/// The scopes that the configured text `s` names.
pub open spec fn scope_list(s: Seq<char>) -> Seq<Seq<char>> {
    scopes_from(split(s, ','))
}

/// No scope is empty and none occurs twice.
pub proof fn lemma_scopes_distinct(pieces: Seq<Seq<char>>)
    ensures
        scopes_from(pieces).no_duplicates(),
        forall|i: int| 0 <= i < scopes_from(pieces).len() ==> (#[trigger] scopes_from(pieces)[i]).len() > 0,
    decreases pieces.len(),
{
    if pieces.len() > 0 {
        lemma_scopes_distinct(pieces.drop_last());
    }
}

/// Every scope is one of the pieces, trimmed, and every piece that is not
/// blank is among the scopes.
pub proof fn lemma_scopes_complete(pieces: Seq<Seq<char>>)
    ensures
        forall|i: int|
            0 <= i < scopes_from(pieces).len() ==> exists|k: int|
                0 <= k < pieces.len() && trimmed(#[trigger] pieces[k]) == (
                #[trigger] scopes_from(pieces)[i]),
        forall|k: int|
            0 <= k < pieces.len() && trimmed(#[trigger] pieces[k]).len() > 0 ==> scopes_from(
                pieces,
            ).contains(trimmed(pieces[k])),
    decreases pieces.len(),
{
    if pieces.len() > 0 {
        let front = pieces.drop_last();
        lemma_scopes_complete(front);
        let before = scopes_from(front);
        let now = scopes_from(pieces);
        let scope = trimmed(pieces.last());
        assert forall|i: int| 0 <= i < now.len() implies exists|k: int|
            0 <= k < pieces.len() && trimmed(#[trigger] pieces[k]) == (#[trigger] now[i]) by {
            if i < before.len() {
                assert(now[i] == before[i]);
                let k = choose|k: int|
                    0 <= k < front.len() && trimmed(#[trigger] front[k]) == before[i];
                assert(pieces[k] == front[k]);
            } else {
                assert(trimmed(pieces[pieces.len() - 1]) == now[i]);
            }
        }
        assert forall|k: int|
            0 <= k < pieces.len() && trimmed(#[trigger] pieces[k]).len() > 0 implies now.contains(
            trimmed(pieces[k]),
        ) by {
            if k < front.len() {
                assert(pieces[k] == front[k]);
                assert(before.contains(trimmed(front[k])));
                let i = choose|i: int| 0 <= i < before.len() && before[i] == trimmed(front[k]);
                assert(now[i] == before[i]);
            } else {
                if before.contains(scope) {
                    let i = choose|i: int| 0 <= i < before.len() && before[i] == scope;
                    assert(now[i] == scope);
                } else {
                    assert(now[now.len() - 1] == scope);
                }
            }
        }
    }
}

/// The scopes stand in the order in which the text names them: what the
/// first `k` pieces name comes first among what all pieces name.
pub proof fn lemma_scopes_keep_order(pieces: Seq<Seq<char>>, k: int)
    requires
        0 <= k <= pieces.len(),
    ensures
        scopes_from(pieces.take(k)).is_prefix_of(scopes_from(pieces)),
    decreases pieces.len() - k,
{
    if k == pieces.len() {
        assert(pieces.take(k) =~= pieces);
    } else {
        lemma_scopes_keep_order(pieces, k + 1);
        let longer = pieces.take(k + 1);
        assert(longer.drop_last() =~= pieces.take(k));
    }
}

/// Whether `scope` is among `scopes`.
pub fn has_scope(scopes: &Vec<String>, scope: &String) -> (r: bool)
    ensures
        r == scopes.deep_view().contains(scope@),
{
    let mut i: usize = 0;
    while i < scopes.len()
        invariant
            i <= scopes.len(),
            forall|k: int| 0 <= k < i ==> #[trigger] scopes.deep_view()[k] != scope@,
        decreases scopes.len() - i,
    {
        proof {
            assert(scopes.deep_view()[i as int] == scopes@[i as int]@);
        }
        if scopes[i] == *scope {
            return true;
        }
        i += 1;
    }
    false
}

/// Reads the scopes from the configured text: the pieces between commas,
/// trimmed, in order, each once. Fails where the text names no scope.
pub fn parse_scopes(s: &str) -> (r: Result<Vec<String>, ConfigError>)
    ensures
        match r {
            Ok(scopes) => scopes.deep_view() == scope_list(s@) && scopes@.len() > 0,
            Err(e) => scope_list(s@).len() == 0 && e == ConfigError::EmptyScopes,
        },
{
    let chars = chars_of(s);
    let bounds = split_bounds(&chars, ',');
    let ghost pieces = split(s@, ',');
    let mut scopes: Vec<String> = Vec::new();
    let mut i: usize = 0;
    proof {
        assert(pieces.take(0) =~= Seq::<Seq<char>>::empty());
        assert(scopes.deep_view() =~= Seq::<Seq<char>>::empty());
    }
    while i < bounds.len()
        invariant
            i <= bounds.len(),
            chars@ == s@,
            pieces == split(s@, ','),
            bounds@.len() == pieces.len(),
            forall|k: int| 0 <= k < bounds@.len() ==> is_piece(chars@, #[trigger] bounds@[k], pieces[k]),
            scopes.deep_view() == scopes_from(pieces.take(i as int)),
        decreases bounds.len() - i,
    {
        let (from, to) = bounds[i];
        proof {
            assert(is_piece(chars@, bounds@[i as int], pieces[i as int]));
        }
        let (a, b) = trim_bounds(&chars, from, to);
        let scope = string_of(&chars, a, b);
        let ghost before = scopes.deep_view();
        proof {
            let upto = pieces.take(i + 1);
            assert(upto.drop_last() =~= pieces.take(i as int));
            assert(upto.last() == pieces[i as int]);
            assert(scope@ == trimmed(pieces[i as int]));
        }
        if a < b && !has_scope(&scopes, &scope) {
            scopes.push(scope);
            proof {
                assert(scopes.deep_view() =~= before.push(scope@));
            }
        }
        i += 1;
    }
    proof {
        assert(pieces.take(i as int) =~= pieces);
    }
    if scopes.len() == 0 {
        Err(ConfigError::EmptyScopes)
    } else {
        Ok(scopes)
    }
}

/// The scopes as one request parameter: joined by single spaces.
pub fn scope_parameter(scopes: &Vec<String>) -> (r: String)
    ensures
        r@ == join(scopes.deep_view(), ' '),
{
    let mut r = String::new();
    let mut i: usize = 0;
    let ghost all = scopes.deep_view();
    proof {
        assert(all.take(0) =~= Seq::<Seq<char>>::empty());
    }
    while i < scopes.len()
        invariant
            i <= scopes.len(),
            all == scopes.deep_view(),
            r@ == join(all.take(i as int), ' '),
        decreases scopes.len() - i,
    {
        let ghost before = r@;
        if i > 0 {
            r.push(' ');
        }
        r.append(scopes[i].as_str());
        proof {
            let upto = all.take(i + 1);
            assert(upto.drop_last() =~= all.take(i as int));
            assert(upto.last() == scopes@[i as int]@);
            if i == 0 {
                assert(r@ =~= upto[0]);
            }
        }
        i += 1;
    }
    proof {
        assert(all.take(i as int) =~= all);
    }
    r
}

} // verus!
