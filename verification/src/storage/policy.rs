//! Capability checks: which folders a session may touch, and how.

use vstd::prelude::*;
use vstd::string::*;

use crate::oauth2::scope::strs;
use crate::storage::error::StorageError;
use crate::storage::fs::{join_path, lemma_parent_word_is_parent_step, resolution};
use crate::text::{chars_of, lemma_split_by_append, separator, split_by, split_words, str_eq};

verus! {

/// An operation on stored files.
#[derive(Clone, Copy, Debug, PartialEq, Eq, Structural)]
pub enum Operation {
    Read,
    Write,
    List,
    Metadata,
    Delete,
    Rename,
}

/// A folder and the operations allowed in it and below it.
#[derive(Clone, Debug)]
pub struct FolderGrant {
    pub root: String,
    pub operations: Vec<Operation>,
}

/// The components of a Unix path, as `Path::components` yields them, each given by its
/// text: `/` for the root directory, `.` for a leading current-directory component, and the
/// names between separators otherwise. Repeated separators, a trailing separator and
/// `.` components after the first are dropped.
pub open spec fn components(p: Seq<char>) -> Seq<Seq<char>> {
    let words = split_by(p, separator(true));
    let has_root = p.len() > 0 && p[0] == '/';
    let lead = if has_root {
        seq![seq!['/']]
    } else if words.len() > 0 && words[0] == seq!['.'] {
        seq![seq!['.']]
    } else {
        Seq::<Seq<char>>::empty()
    };
    lead + words.filter(|w: Seq<char>| w != seq!['.'])
}

/// Whether `base` is an ancestor of `path` (or `path` itself), component by component,
/// as `Path::starts_with` decides it.
pub open spec fn path_starts_with(path: Seq<char>, base: Seq<char>) -> bool {
    components(base).is_prefix_of(components(path))
}

/// Whether a grant covers `operation` on `path`.
pub open spec fn grant_allows(grant: FolderGrant, path: Seq<char>, operation: Operation) -> bool {
    path_starts_with(path, grant.root@) && grant.operations@.contains(operation)
}

/// The components of `p`.
pub fn path_components(p: &str) -> (r: Vec<String>)
    ensures
        strs(r@) == components(p@),
{
    let cs = chars_of(p);
    let words = split_words(p, true);
    let ghost ws = strs(words@);
    let ghost pred = |w: Seq<char>| w != seq!['.'];
    let dot = vec!['.'];
    assert(dot@ =~= seq!['.']);
    let mut out: Vec<String> = Vec::new();
    let has_root = cs.len() > 0 && cs[0] == '/';
    if has_root {
        out.push(String::from_str("/"));
        proof {
            reveal_strlit("/");
            assert("/"@ =~= seq!['/']);
            assert(strs(out@) =~= seq![seq!['/']]);
        }
    } else if words.len() > 0 && crate::text::seq_eq(&chars_of(words[0].as_str()), &dot) {
        out.push(String::from_str("."));
        proof {
            reveal_strlit(".");
            assert("."@ =~= seq!['.']);
            assert(strs(out@) =~= seq![seq!['.']]);
            assert(ws[0] == words@[0]@);
        }
    } else {
        assert(words.len() > 0 ==> ws[0] == words@[0]@);
        assert(strs(out@) =~= Seq::<Seq<char>>::empty());
    }
    let ghost lead = strs(out@);
    assert(lead =~= (if has_root {
        seq![seq!['/']]
    } else if ws.len() > 0 && ws[0] == seq!['.'] {
        seq![seq!['.']]
    } else {
        Seq::<Seq<char>>::empty()
    }));
    let mut i: usize = 0;
    proof {
        reveal_with_fuel(Seq::filter, 1);
        assert(ws.take(0) =~= Seq::<Seq<char>>::empty());
    }
    while i < words.len()
        invariant
            i <= words@.len(),
            ws == strs(words@),
            pred == (|w: Seq<char>| w != seq!['.']),
            dot@ == seq!['.'],
            strs(out@) == lead + ws.take(i as int).filter(pred),
        decreases words.len() - i,
    {
        let ghost before = strs(out@);
        proof {
            reveal_with_fuel(Seq::filter, 1);
            assert(ws.take(i + 1).drop_last() =~= ws.take(i as int));
            assert(ws.take(i + 1).last() == words@[i as int]@);
        }
        if !crate::text::seq_eq(&chars_of(words[i].as_str()), &dot) {
            out.push(words[i].clone());
            assert(strs(out@) =~= before.push(words@[i as int]@));
        }
        i = i + 1;
    }
    assert(ws.take(words@.len() as int) =~= ws);
    out
}

/// Whether `prefix` is a prefix of `list`, element by element.
fn strings_prefix(list: &Vec<String>, prefix: &Vec<String>) -> (r: bool)
    ensures
        r == strs(prefix@).is_prefix_of(strs(list@)),
{
    if prefix.len() > list.len() {
        return false;
    }
    let mut i: usize = 0;
    while i < prefix.len()
        invariant
            prefix@.len() <= list@.len(),
            i <= prefix@.len(),
            forall|k: int| 0 <= k < i ==> prefix@[k]@ == list@[k]@,
        decreases prefix.len() - i,
    {
        if !str_eq(prefix[i].as_str(), list[i].as_str()) {
            assert(strs(prefix@)[i as int] != strs(list@).subrange(0, prefix@.len() as int)[i as int]);
            return false;
        }
        i = i + 1;
    }
    assert(strs(prefix@) =~= strs(list@).subrange(0, prefix@.len() as int));
    true
}

/// Whether `path` lies in or below `base`, component by component.
pub fn path_starts_with_exec(path: &str, base: &str) -> (r: bool)
    ensures
        r == path_starts_with(path@, base@),
{
    strings_prefix(&path_components(path), &path_components(base))
}

fn operation_listed(list: &Vec<Operation>, op: Operation) -> (r: bool)
    ensures
        r == list@.contains(op),
{
    let mut i: usize = 0;
    while i < list.len()
        invariant
            i <= list@.len(),
            forall|k: int| 0 <= k < i ==> list@[k] != op,
        decreases list.len() - i,
    {
        if list[i] == op {
            return true;
        }
        i = i + 1;
    }
    false
}

/// The grants a session holds; whatever no grant covers is denied.
#[derive(Clone, Debug)]
pub struct StoragePolicy {
    grants: Vec<FolderGrant>,
}

impl StoragePolicy {
    pub closed spec fn grant_list(&self) -> Seq<FolderGrant> {
        self.grants@
    }

    /// Whether some grant of this policy covers `operation` on `path`.
    pub open spec fn allows(&self, path: Seq<char>, operation: Operation) -> bool {
        exists|i: int| 0 <= i < self.grant_list().len() && grant_allows(#[trigger] self.grant_list()[i], path, operation)
    }

    /// A policy holding these grants.
    pub fn new(grants: Vec<FolderGrant>) -> (r: Self)
        ensures
            r.grant_list() == grants@,
    {
        StoragePolicy { grants }
    }

    /// Checks an operation on a canonical (absolute, resolved) path against the grants:
    /// the path comes back when a grant whose folder holds it allows the operation.
    pub fn authorize_canonical(&self, canonical: String, operation: Operation) -> (r: Result<String, StorageError>)
        ensures
            self.allows(canonical@, operation) ==> (r matches Ok(p) && p@ == canonical@),
            !self.allows(canonical@, operation) ==> (r matches Err(StorageError::InvalidPath(m))
                && m@ == "storage capability denied"@),
    {
        let mut i: usize = 0;
        while i < self.grants.len()
            invariant
                i <= self.grants@.len(),
                forall|k: int| 0 <= k < i ==> !grant_allows(#[trigger] self.grants@[k], canonical@, operation),
            decreases self.grants.len() - i,
        {
            let grant = &self.grants[i];
            if path_starts_with_exec(canonical.as_str(), grant.root.as_str()) && operation_listed(&grant.operations, operation) {
                assert(grant_allows(self.grant_list()[i as int], canonical@, operation));
                return Ok(canonical);
            }
            i = i + 1;
        }
        Err(StorageError::InvalidPath(String::from_str("storage capability denied")))
    }
}

/// A grant never reaches a sibling folder whose name merely extends the granted folder's
/// name: a grant on `a/b` does not cover `a/b-private/file`.
pub proof fn law_no_prefix_confusion(base: Seq<char>, name: Seq<char>, rest: Seq<char>)
    requires
        components(base).len() > 0,
        components(base).last() != name,
        components(base).drop_last().push(name).is_prefix_of(components(rest)),
    ensures
        !path_starts_with(rest, base),
{
    let cb = components(base);
    let cr = components(rest);
    let pre = cb.drop_last().push(name);
    assert(pre[cb.len() - 1] == name);
    assert(cr.subrange(0, pre.len() as int)[cb.len() - 1] == cr[cb.len() - 1]);
    assert(cr[cb.len() - 1] == name);
    assert(cb[cb.len() - 1] != cr[cb.len() - 1]);
    if path_starts_with(rest, base) {
        assert(cb[cb.len() - 1] == cr.subrange(0, cb.len() as int)[cb.len() - 1]);
    }
}

/// Every folder holds itself, and holding is transitive.
pub proof fn law_starts_with_order(a: Seq<char>, b: Seq<char>, c: Seq<char>)
    ensures
        path_starts_with(a, a),
        path_starts_with(a, b) && path_starts_with(b, c) ==> path_starts_with(a, c),
{
    assert(components(a).subrange(0, components(a).len() as int) =~= components(a));
    if path_starts_with(a, b) && path_starts_with(b, c) {
        assert(components(c) =~= components(a).subrange(0, components(c).len() as int));
    }
}

/// A path that resolves under a root stays inside it: the root is an ancestor of the
/// resolved path, component by component.
pub proof fn law_resolved_paths_stay_under_root(root: Seq<char>, path: Seq<char>)
    requires
        resolution(root, path) is Ok,
    ensures
        path_starts_with(resolution(root, path)->Ok_0, root),
{
    let j = join_path(root, path);
    assert(resolution(root, path)->Ok_0 == j);
    let sep = separator(true);
    if root.len() == 0 || root.last() == '/' {
        lemma_split_by_append(root, path, sep);
    } else {
        let a = root + seq!['/'];
        assert(j =~= a + path);
        lemma_split_by_append(a, path, sep);
        assert(a.drop_last() =~= root);
        assert(split_by(a, sep) == split_by(root, sep));
    }
    let wr = split_by(root, sep);
    let wp = split_by(path, sep);
    let wj = split_by(j, sep);
    assert(wj == wr + wp);
    let keep = |w: Seq<char>| w != seq!['.'];
    Seq::filter_distributes_over_add(wr, wp, keep);
    assert(wj.filter(keep) == wr.filter(keep) + wp.filter(keep));
    let cr = components(root);
    let cj = components(j);
    if root.len() == 0 {
        assert(wr =~= Seq::<Seq<char>>::empty());
        assert(wr.filter(keep) =~= Seq::<Seq<char>>::empty());
        assert(cr =~= Seq::<Seq<char>>::empty());
    } else {
        assert(j[0] == root[0]);
        if wr.len() > 0 {
            assert(wj[0] == wr[0]);
            assert(cj =~= cr + wp.filter(keep));
        } else if root[0] == '/' {
            assert(cj =~= cr + wp.filter(keep));
        } else {
            assert(wr.filter(keep) =~= Seq::<Seq<char>>::empty());
            assert(cr =~= Seq::<Seq<char>>::empty());
        }
    }
    assert(cr.is_prefix_of(cj)) by {
        assert(cj.subrange(0, cr.len() as int) =~= cr);
    }
}

/// Whatever no grant covers is denied: a policy without grants allows nothing, and a
/// grant never allows an operation it does not list.
pub proof fn law_denied_by_default(policy: StoragePolicy, grant: FolderGrant, path: Seq<char>, operation: Operation)
    ensures
        policy.grant_list().len() == 0 ==> !policy.allows(path, operation),
        !grant.operations@.contains(operation) ==> !grant_allows(grant, path, operation),
{
}

/// A client path that resolves never climbs out of the root: none of its components is
/// `..`.
pub proof fn law_resolved_paths_never_climb(root: Seq<char>, path: Seq<char>)
    requires
        resolution(root, path) is Ok,
    ensures
        !components(path).contains(seq!['.', '.']),
{
    let dots = seq!['.', '.'];
    let words = split_by(path, separator(true));
    let keep = |w: Seq<char>| w != seq!['.'];
    if words.contains(dots) {
        lemma_parent_word_is_parent_step(path);
    }
    if words.filter(keep).contains(dots) {
        words.lemma_filter_contains_rev(keep, dots);
    }
    let c = components(path);
    if c.contains(dots) {
        let k = choose|k: int| 0 <= k < c.len() && c[k] == dots;
        let has_root = path.len() > 0 && path[0] == '/';
        let lead = if has_root {
            seq![seq!['/']]
        } else if words.len() > 0 && words[0] == seq!['.'] {
            seq![seq!['.']]
        } else {
            Seq::<Seq<char>>::empty()
        };
        assert(c == lead + words.filter(keep));
        if k < lead.len() {
            assert(lead[k] != dots);
        } else {
            assert(words.filter(keep)[k - lead.len()] == dots);
            assert(words.filter(keep).contains(dots));
        }
    }
}

/// An operation on a path is allowed as soon as any grant whose folder holds the path
/// lists the operation, whatever the other grants say; and it is allowed only so.
pub proof fn law_any_covering_grant_allows(policy: StoragePolicy, path: Seq<char>, operation: Operation, i: int)
    requires
        0 <= i < policy.grant_list().len(),
        path_starts_with(path, policy.grant_list()[i].root@),
        policy.grant_list()[i].operations@.contains(operation),
    ensures
        policy.allows(path, operation),
{
    assert(grant_allows(policy.grant_list()[i], path, operation));
}

/// What is allowed comes from some grant that holds the path and lists the operation.
pub proof fn law_allowed_means_granted(policy: StoragePolicy, path: Seq<char>, operation: Operation)
    requires
        policy.allows(path, operation),
    ensures
        exists|i: int|
            0 <= i < policy.grant_list().len() && path_starts_with(path, (#[trigger] policy.grant_list()[i]).root@)
                && policy.grant_list()[i].operations@.contains(operation),
{
    let i = choose|i: int| 0 <= i < policy.grant_list().len() && grant_allows(#[trigger] policy.grant_list()[i], path, operation);
    assert(path_starts_with(path, policy.grant_list()[i].root@));
}

/// More grants never take an allowed operation away: a policy holding every grant of
/// another (in any order, among others) allows whatever the other allows.
pub proof fn law_more_grants_allow_more(small: StoragePolicy, large: StoragePolicy, path: Seq<char>, operation: Operation)
    requires
        forall|i: int| 0 <= i < small.grant_list().len() ==> large.grant_list().contains(#[trigger] small.grant_list()[i]),
        small.allows(path, operation),
    ensures
        large.allows(path, operation),
{
    let i = choose|i: int| 0 <= i < small.grant_list().len() && grant_allows(#[trigger] small.grant_list()[i], path, operation);
    assert(large.grant_list().contains(small.grant_list()[i]));
    let j = choose|j: int| 0 <= j < large.grant_list().len() && large.grant_list()[j] == small.grant_list()[i];
    assert(grant_allows(large.grant_list()[j], path, operation));
}

} // verus!