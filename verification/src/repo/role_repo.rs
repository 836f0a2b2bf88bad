//! The permission rules that decide whether a granted permission covers a required one.

use vstd::prelude::*;
use vstd::string::*;

use crate::text::{chars_of, seq_eq, seq_starts_with};

verus! {

/// Whether a permission granted to a user covers the permission an action requires.
///
/// `*` covers everything; a name covers itself; a name ending in `*` covers every name
/// that starts with what precedes the `*`, and when that part ends in `:` (or `.`) also
/// every name that starts with it with the `:` replaced by `.` (or the `.` by `:`).
pub open spec fn permits(granted: Seq<char>, required: Seq<char>) -> bool {
    if granted == seq!['*'] || granted == required {
        true
    } else if granted.len() > 0 && granted.last() == '*' {
        let prefix = granted.drop_last();
        if prefix.is_prefix_of(required) {
            true
        } else if prefix.len() > 0 && prefix.last() == ':' {
            prefix.drop_last().push('.').is_prefix_of(required)
        } else if prefix.len() > 0 && prefix.last() == '.' {
            prefix.drop_last().push(':').is_prefix_of(required)
        } else {
            false
        }
    } else {
        false
    }
}

/// Whether the permission `granted` covers the permission `required`.
pub fn permission_matches(granted: &str, required: &str) -> (r: bool)
    ensures
        r == permits(granted@, required@),
{
    let g = chars_of(granted);
    let q = chars_of(required);
    let star = vec!['*'];
    assert(star@ =~= seq!['*']);
    if seq_eq(&g, &star) || seq_eq(&g, &q) {
        return true;
    }
    let n = g.len();
    if n > 0 && g[n - 1] == '*' {
        let mut prefix = g.clone();
        prefix.pop();
        assert(prefix@ =~= g@.drop_last());
        if seq_starts_with(&q, &prefix) {
            return true;
        }
        let m = prefix.len();
        if m > 0 && prefix[m - 1] == ':' {
            let mut dotted = prefix.clone();
            dotted.pop();
            dotted.push('.');
            assert(dotted@ =~= prefix@.drop_last().push('.'));
            return seq_starts_with(&q, &dotted);
        }
        if m > 0 && prefix[m - 1] == '.' {
            let mut coloned = prefix.clone();
            coloned.pop();
            coloned.push(':');
            assert(coloned@ =~= prefix@.drop_last().push(':'));
            return seq_starts_with(&q, &coloned);
        }
    }
    false
}


/// `*` covers every permission, every permission covers itself, and a name ending in `*`
/// covers every name that extends what precedes the `*`.
pub proof fn law_permission_basics(granted: Seq<char>, required: Seq<char>, prefix: Seq<char>)
    ensures
        permits(seq!['*'], required),
        permits(granted, granted),
        prefix.is_prefix_of(required) ==> permits(prefix.push('*'), required),
{
    assert(prefix.push('*').drop_last() =~= prefix);
}

/// `name:*` also covers the `name.` family, and `name.*` also covers the `name:` family.
pub proof fn law_separator_families(name: Seq<char>, rest: Seq<char>)
    ensures
        permits(name.push(':').push('*'), name.push('.') + rest),
        permits(name.push('.').push('*'), name.push(':') + rest),
{
    let a = name.push(':').push('*');
    assert(a.drop_last() =~= name.push(':'));
    assert(a.drop_last().drop_last() =~= name);
    assert(name.push('.').is_prefix_of(name.push('.') + rest)) by {
        assert(name.push('.') =~= (name.push('.') + rest).subrange(0, name.len() + 1int));
    }
    let b = name.push('.').push('*');
    assert(b.drop_last() =~= name.push('.'));
    assert(b.drop_last().drop_last() =~= name);
    assert(name.push(':').is_prefix_of(name.push(':') + rest)) by {
        assert(name.push(':') =~= (name.push(':') + rest).subrange(0, name.len() + 1int));
    }
}

/// A name without a trailing `*` covers nothing but itself (or everything, when it is `*`).
pub proof fn law_exact_names_cover_only_themselves(granted: Seq<char>, required: Seq<char>)
    requires
        granted.len() == 0 || granted.last() != '*',
        granted != required,
    ensures
        !permits(granted, required),
{
}

/// `name:*` covers exactly the names that start with `name:` or `name.`, and `name.*`
/// exactly those that start with `name.` or `name:`: nothing else, in particular no name
/// that merely extends `name` itself.
pub proof fn law_family_wildcards_cover_only_their_family(name: Seq<char>, required: Seq<char>)
    ensures
        permits(name.push(':').push('*'), required) <==> (name.push(':').is_prefix_of(required)
            || name.push('.').is_prefix_of(required)),
        permits(name.push('.').push('*'), required) <==> (name.push('.').is_prefix_of(required)
            || name.push(':').is_prefix_of(required)),
{
    let a = name.push(':').push('*');
    let b = name.push('.').push('*');
    assert(a.drop_last() =~= name.push(':'));
    assert(a.drop_last().drop_last() =~= name);
    assert(b.drop_last() =~= name.push('.'));
    assert(b.drop_last().drop_last() =~= name);
    assert(a.len() >= 2 && a != seq!['*']) by {
        if a == seq!['*'] {
            assert(a.len() == 1);
        }
    }
    assert(b != seq!['*']) by {
        if b == seq!['*'] {
            assert(b.len() == 1);
        }
    }
    if a == required {
        assert(name.push(':').is_prefix_of(required)) by {
            assert(required.subrange(0, name.len() + 1int) =~= name.push(':'));
        }
    }
    if b == required {
        assert(name.push('.').is_prefix_of(required)) by {
            assert(required.subrange(0, name.len() + 1int) =~= name.push('.'));
        }
    }
}

/// A wildcard whose stem does not end in `:` or `.` covers exactly the names that start
/// with its stem.
pub proof fn law_plain_wildcards_cover_their_stem(stem: Seq<char>, required: Seq<char>)
    requires
        stem.len() == 0 || (stem.last() != ':' && stem.last() != '.'),
    ensures
        permits(stem.push('*'), required) <==> stem.is_prefix_of(required),
{
    let g = stem.push('*');
    assert(g.drop_last() =~= stem);
    if g == required {
        assert(required.subrange(0, stem.len() as int) =~= stem);
    }
    if stem.len() == 0 {
        assert(g =~= seq!['*']);
        assert(stem.is_prefix_of(required));
    }
}

} // verus!