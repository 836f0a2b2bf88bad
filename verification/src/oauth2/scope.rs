//! Scope strings: splitting, joining, checking against what a client may ask for.

use vstd::prelude::*;
use vstd::string::*;

use crate::oauth2::error::{
    error_with, unit_result_view, ErrorCode, ErrorResponse, ErrorResponseResult,
    ErrorResponseView,
};
use crate::text::{is_ws, split_by, split_words};

verus! {

broadcast use vstd::seq_lib::group_seq_properties;

/// The texts of a sequence of strings.
pub open spec fn strs(v: Seq<String>) -> Seq<Seq<char>> {
    v.map_values(|s: String| s@)
}

/// The words of `s`: its maximal runs of non-whitespace characters, in order
/// (what `str::split_whitespace` yields).
pub open spec fn split_ws(s: Seq<char>) -> Seq<Seq<char>> {
    split_by(s, |c: char| is_ws(c))
}

/// The elements of `list` with `sep` between each two neighbours.
pub open spec fn join(list: Seq<Seq<char>>, sep: Seq<char>) -> Seq<char>
    decreases list.len(),
{
    if list.len() == 0 {
        seq![]
    } else if list.len() == 1 {
        list[0]
    } else {
        join(list.drop_last(), sep) + sep + list.last()
    }
}

/// A scope token as `parse_scopes` produces it: non-empty, without whitespace.
pub open spec fn is_token(w: Seq<char>) -> bool {
    w.len() > 0 && forall|k: int| 0 <= k < w.len() ==> !is_ws(#[trigger] w[k])
}

/// The requested scopes that `allowed` does not hold, in request order.
pub open spec fn unauthorized(requested: Seq<Seq<char>>, allowed: Seq<Seq<char>>) -> Seq<Seq<char>> {
    requested.filter(|s: Seq<char>| !allowed.contains(s))
}

/// The requested scopes that `allowed` holds, in request order.
pub open spec fn granted(requested: Seq<Seq<char>>, allowed: Seq<Seq<char>>) -> Seq<Seq<char>> {
    requested.filter(|s: Seq<char>| allowed.contains(s))
}

/// What `validate_scopes` answers: `None` when every requested scope is allowed.
pub open spec fn scope_check(requested: Seq<Seq<char>>, allowed: Seq<Seq<char>>) -> Option<ErrorResponseView> {
    if requested.len() == 0 {
        None
    } else if allowed.len() == 0 {
        Some(error_with(ErrorCode::InvalidScope, "client is not authorized for the requested scopes"@))
    } else if unauthorized(requested, allowed).len() == 0 {
        None
    } else {
        Some(error_with(
            ErrorCode::InvalidScope,
            "unsupported scopes: "@ + join(unauthorized(requested, allowed), " "@),
        ))
    }
}

/// What `intersect_scopes` returns.
pub open spec fn intersection(requested: Seq<Seq<char>>, allowed: Seq<Seq<char>>) -> Seq<Seq<char>> {
    if requested.len() == 0 {
        allowed
    } else {
        granted(requested, allowed)
    }
}

/// Splits a space-separated scope string into its scope tokens.
pub fn parse_scopes(scope: &str) -> (r: Vec<String>)
    ensures
        strs(r@) == split_ws(scope@),
{
    split_words(scope, false)
}

/// Whether `list` holds a string with the same text as `s`.
pub fn contains_str(list: &[String], s: &String) -> (r: bool)
    ensures
        r == strs(list@).contains(s@),
{
    let mut i: usize = 0;
    while i < list.len()
        invariant
            i <= list@.len(),
            forall|k: int| 0 <= k < i ==> list@[k]@ != s@,
        decreases list.len() - i,
    {
        if list[i] == *s {
            assert(strs(list@)[i as int] == s@);
            return true;
        }
        i = i + 1;
    }
    assert forall|k: int| 0 <= k < strs(list@).len() implies strs(list@)[k] != s@ by {
        assert(strs(list@)[k] == list@[k]@);
    }
    false
}

/// The strings of `list` with `sep` between each two neighbours.
pub fn join_strings(list: &[String], sep: &str) -> (r: String)
    ensures
        r@ == join(strs(list@), sep@),
{
    let mut out = String::new();
    let mut i: usize = 0;
    assert(strs(list@).take(0) =~= Seq::<Seq<char>>::empty());
    while i < list.len()
        invariant
            i <= list@.len(),
            out@ == join(strs(list@).take(i as int), sep@),
        decreases list.len() - i,
    {
        let ghost before = strs(list@).take(i as int);
        if i != 0 {
            out.append(sep);
        }
        out.append(list[i].as_str());
        assert(strs(list@).take(i + 1).drop_last() =~= before);
        assert(strs(list@).take(i + 1).last() == list@[i as int]@);
        assert(i == 0 ==> strs(list@).take(i + 1) =~= seq![list@[i as int]@]);
        i = i + 1;
    }
    assert(strs(list@).take(list@.len() as int) =~= strs(list@));
    out
}

/// A copy of `list`.
pub fn copy_strings(list: &[String]) -> (r: Vec<String>)
    ensures
        strs(r@) == strs(list@),
{
    let mut out: Vec<String> = Vec::new();
    let mut i: usize = 0;
    while i < list.len()
        invariant
            i <= list@.len(),
            strs(out@) == strs(list@).take(i as int),
        decreases list.len() - i,
    {
        let ghost old_out = strs(out@);
        out.push(list[i].clone());
        assert(strs(out@) =~= old_out.push(list@[i as int]@));
        assert(strs(list@).take(i + 1) =~= strs(list@).take(i as int).push(list@[i as int]@));
        i = i + 1;
    }
    assert(strs(list@).take(list@.len() as int) =~= strs(list@));
    out
}

/// Joins scope tokens into one space-separated scope string.
pub fn scopes_to_string(scopes: &[String]) -> (r: String)
    ensures
        r@ == join(strs(scopes@), " "@),
{
    join_strings(scopes, " ")
}

/// The strings of `requested` that `allowed` holds (`keep`) or does not hold (`!keep`),
/// in order.
fn filter_by_membership(requested: &[String], allowed: &[String], keep: bool) -> (r: Vec<String>)
    ensures
        keep ==> strs(r@) == granted(strs(requested@), strs(allowed@)),
        !keep ==> strs(r@) == unauthorized(strs(requested@), strs(allowed@)),
{
    let ghost req = strs(requested@);
    let ghost al = strs(allowed@);
    let ghost pred = if keep {
        |s: Seq<char>| al.contains(s)
    } else {
        |s: Seq<char>| !al.contains(s)
    };
    let mut out: Vec<String> = Vec::new();
    let mut i: usize = 0;
    proof {
        reveal_with_fuel(Seq::filter, 1);
        assert(req.take(0) =~= Seq::<Seq<char>>::empty());
    }
    while i < requested.len()
        invariant
            i <= requested@.len(),
            req == strs(requested@),
            al == strs(allowed@),
            pred == (if keep {
                |s: Seq<char>| al.contains(s)
            } else {
                |s: Seq<char>| !al.contains(s)
            }),
            strs(out@) == req.take(i as int).filter(pred),
        decreases requested.len() - i,
    {
        let ghost old_out = strs(out@);
        let member = contains_str(allowed, &requested[i]);
        proof {
            reveal_with_fuel(Seq::filter, 1);
            assert(req.take(i + 1).drop_last() =~= req.take(i as int));
            assert(req.take(i + 1).last() == requested@[i as int]@);
        }
        if member == keep {
            out.push(requested[i].clone());
            assert(strs(out@) =~= old_out.push(requested@[i as int]@));
        }
        i = i + 1;
    }
    assert(req.take(requested@.len() as int) =~= req);
    out
}

/// Checks that every requested scope is one the client is allowed to ask for.
pub fn validate_scopes(requested: &[String], allowed: &[String]) -> (r: ErrorResponseResult<()>)
    ensures
        unit_result_view(r) == scope_check(strs(requested@), strs(allowed@)),
{
    if requested.len() == 0 {
        return Ok(());
    }
    if allowed.len() == 0 {
        return Err(ErrorResponse::new(ErrorCode::InvalidScope).with_description(
            String::from_str("client is not authorized for the requested scopes"),
        ));
    }
    let unauthorized_scopes = filter_by_membership(requested, allowed, false);
    if unauthorized_scopes.len() == 0 {
        Ok(())
    } else {
        let mut description = String::from_str("unsupported scopes: ");
        let joined = join_strings(unauthorized_scopes.as_slice(), " ");
        description.append(joined.as_str());
        Err(ErrorResponse::new(ErrorCode::InvalidScope).with_description(description))
    }
}

/// The scopes to grant: the requested ones the client may have, or everything it may have
/// when it asked for nothing.
pub fn intersect_scopes(requested: &[String], allowed: &[String]) -> (r: Vec<String>)
    ensures
        strs(r@) == intersection(strs(requested@), strs(allowed@)),
{
    if requested.len() == 0 {
        return copy_strings(allowed);
    }
    filter_by_membership(requested, allowed, true)
}


proof fn lemma_split_ws_tokens(s: Seq<char>)
    ensures
        forall|i: int| 0 <= i < split_ws(s).len() ==> is_token(#[trigger] split_ws(s)[i]),
    decreases s.len(),
{
    if s.len() > 0 {
        lemma_split_ws_tokens(s.drop_last());
        let prev = split_ws(s.drop_last());
        let c = s.last();
        if !is_ws(c) && !(s.len() == 1 || is_ws(s[s.len() - 2])) {
            // The last word grows by one character; it exists because the character before
            // `c` belongs to it.
            lemma_split_ws_nonempty_when_word_char_last(s.drop_last());
            let w = prev.last();
            assert forall|k: int| 0 <= k < w.push(c).len() implies !is_ws(#[trigger] w.push(c)[k]) by {
                if k < w.len() {
                    assert(is_token(prev[prev.len() - 1]));
                }
            }
        }
    }
}

proof fn lemma_split_ws_nonempty_when_word_char_last(s: Seq<char>)
    requires
        s.len() > 0,
        !is_ws(s.last()),
    ensures
        split_ws(s).len() > 0,
    decreases s.len(),
{
    if !(s.len() == 1 || is_ws(s[s.len() - 2])) {
        lemma_split_ws_nonempty_when_word_char_last(s.drop_last());
    }
}

/// Every scope that `parse_scopes` returns is non-empty and free of whitespace.
pub proof fn law_parsed_scopes_are_tokens(scope: Seq<char>)
    ensures
        forall|i: int| 0 <= i < split_ws(scope).len() ==> is_token(#[trigger] split_ws(scope)[i]),
{
    lemma_split_ws_tokens(scope);
}

proof fn lemma_split_after_space(x: Seq<char>, t: Seq<char>, k: int)
    requires
        is_token(t),
        1 <= k <= t.len(),
    ensures
        split_ws(x + seq![' '] + t.take(k)) == split_ws(x).push(t.take(k)),
    decreases k,
{
    let s = x + seq![' '] + t.take(k);
    assert(s.drop_last() =~= x + seq![' '] + t.take(k - 1));
    assert(s.last() == t[k - 1]);
    if k == 1 {
        assert((x + seq![' ']).drop_last() =~= x);
        assert(split_ws(x + seq![' ']) == split_ws(x));
        assert(!is_ws(t[0]));
        assert(x + seq![' '] + t.take(0) =~= x + seq![' ']);
        assert(s[s.len() - 2] == ' ');
        assert(t.take(1) =~= seq![t[0]]);
    } else {
        lemma_split_after_space(x, t, k - 1);
        assert(s[s.len() - 2] == t[k - 2]);
        assert(!is_ws(t[k - 2]));
        assert(!is_ws(t[k - 1]));
        assert(t.take(k) =~= t.take(k - 1).push(t[k - 1]));
        assert(split_ws(x).push(t.take(k - 1)).update(split_ws(x).len() as int, t.take(k)) =~= split_ws(x).push(t.take(k)));
    }
}

proof fn lemma_split_token(t: Seq<char>, k: int)
    requires
        is_token(t),
        1 <= k <= t.len(),
    ensures
        split_ws(t.take(k)) == seq![t.take(k)],
    decreases k,
{
    let s = t.take(k);
    assert(s.drop_last() =~= t.take(k - 1));
    assert(s.last() == t[k - 1]);
    assert(!is_ws(t[k - 1]));
    if k == 1 {
        assert(t.take(0) =~= Seq::<char>::empty());
        assert(split_ws(t.take(0)) =~= Seq::<Seq<char>>::empty());
        assert(t.take(1) =~= seq![t[0]]);
        assert(split_ws(s) == split_ws(t.take(0)).push(seq![t[0]]));
        assert(split_ws(s) =~= seq![t.take(k)]);
    } else {
        lemma_split_token(t, k - 1);
        assert(s[k - 2] == t[k - 2]);
        assert(!is_ws(t[k - 2]));
        assert(t.take(k) =~= t.take(k - 1).push(t[k - 1]));
        assert(seq![t.take(k - 1)].update(0, t.take(k)) =~= seq![t.take(k)]);
        let prev = split_ws(s.drop_last());
        assert(split_ws(s) == prev.update(prev.len() - 1, prev.last().push(s.last())));
    }
}

/// Joining scope tokens with spaces and parsing the result gives the tokens back.
pub proof fn law_parse_inverts_join(scopes: Seq<Seq<char>>)
    requires
        forall|i: int| 0 <= i < scopes.len() ==> is_token(#[trigger] scopes[i]),
    ensures
        split_ws(join(scopes, " "@)) == scopes,
    decreases scopes.len(),
{
    reveal_strlit(" ");
    assert(" "@ =~= seq![' ']);
    if scopes.len() == 0 {
    } else if scopes.len() == 1 {
        let t = scopes[0];
        lemma_split_token(t, t.len() as int);
        assert(t.take(t.len() as int) =~= t);
        assert(seq![t] =~= scopes);
    } else {
        let rest = scopes.drop_last();
        let t = scopes.last();
        assert(is_token(scopes[scopes.len() - 1]));
        law_parse_inverts_join(rest);
        lemma_split_after_space(join(rest, " "@), t, t.len() as int);
        assert(t.take(t.len() as int) =~= t);
        assert(rest.push(t) =~= scopes);
    }
}

/// `validate_scopes` accepts a request exactly when every requested scope is allowed.
pub proof fn law_scope_check_accepts_exactly_allowed(requested: Seq<Seq<char>>, allowed: Seq<Seq<char>>)
    ensures
        scope_check(requested, allowed) is None <==> (forall|i: int|
            0 <= i < requested.len() ==> allowed.contains(#[trigger] requested[i])),
{
    let pred = |s: Seq<char>| !allowed.contains(s);
    if requested.len() > 0 && allowed.len() == 0 {
        assert(!allowed.contains(requested[0]));
    } else if requested.len() > 0 {
        let u = requested.filter(pred);
        if u.len() == 0 {
            assert forall|i: int| 0 <= i < requested.len() implies allowed.contains(#[trigger] requested[i]) by {
                if !allowed.contains(requested[i]) {
                    requested.lemma_filter_contains(pred, i);
                }
            }
        } else {
            requested.lemma_filter_pred(pred, 0);
            requested.lemma_filter_contains_rev(pred, u[0]);
            let k = choose|k: int| 0 <= k < requested.len() && requested[k] == u[0];
            assert(!allowed.contains(requested[k]));
        }
    }
}

/// Whatever `intersect_scopes` grants passes `validate_scopes` against the same allowed list.
pub proof fn law_intersection_is_allowed(requested: Seq<Seq<char>>, allowed: Seq<Seq<char>>)
    ensures
        scope_check(intersection(requested, allowed), allowed) is None,
{
    let g = intersection(requested, allowed);
    assert forall|i: int| 0 <= i < g.len() implies allowed.contains(#[trigger] g[i]) by {
        if requested.len() == 0 {
            assert(allowed[i] == g[i]);
        } else {
            requested.lemma_filter_pred(|s: Seq<char>| allowed.contains(s), i);
        }
    }
    law_scope_check_accepts_exactly_allowed(g, allowed);
}

} // verus!
