//! Staging-area paths: joining names under the staging root, deciding which
//! archive entry names are safe to materialize, and the confinement facts
//! that keep every extracted file under the staging root.

use vstd::prelude::*;
use vstd::string::*;

verus! {

/// The path obtained by placing `rel` under the directory `root`.
pub open spec fn join_spec(root: Seq<char>, rel: Seq<char>) -> Seq<char> {
    root + seq!['/'] + rel
}

/// There is a `..` path component at position `i` of `p`.
pub open spec fn dotdot_at(p: Seq<char>, i: int) -> bool {
    &&& 0 <= i
    &&& i + 2 <= p.len()
    &&& p[i] == '.'
    &&& p[i + 1] == '.'
    &&& (i == 0 || p[i - 1] == '/')
    &&& (i + 2 == p.len() || p[i + 2] == '/')
}

/// An archive entry name that may be materialized: non-empty, relative,
/// free of `..` components and of backslashes (which a Windows host would
/// read as separators), so that it cannot escape the directory it is placed
/// under.
pub open spec fn safe_entry_name(p: Seq<char>) -> bool {
    &&& p.len() > 0
    &&& p[0] != '/'
    &&& (forall|i: int| !dotdot_at(p, i))
    &&& (forall|i: int| 0 <= i < p.len() ==> p[i] != '\\')
}

/// `p` lies strictly under the directory `root`: it extends `root` with a
/// separator and never steps back up through a `..` component.
pub open spec fn stays_under(root: Seq<char>, p: Seq<char>) -> bool {
    &&& p.len() >= root.len() + 2
    &&& p.subrange(0, root.len() as int) == root
    &&& p[root.len() as int] == '/'
    &&& forall|i: int| i > root.len() ==> !dotdot_at(p, i)
}

/// Joining a safe relative name under a root cannot escape the root.
pub proof fn lemma_join_confines(root: Seq<char>, rel: Seq<char>)
    requires
        safe_entry_name(rel),
    ensures
        stays_under(root, join_spec(root, rel)),
{
    let p = join_spec(root, rel);
    assert(p.subrange(0, root.len() as int) =~= root);
    assert forall|i: int| i > root.len() implies !dotdot_at(p, i) by {
        if dotdot_at(p, i) {
            let j = i - root.len() - 1;
            assert(p[i] == rel[j]);
            assert(p[i + 1] == rel[j + 1]);
            if j == 0 {
                assert(dotdot_at(rel, 0));
            } else {
                assert(p[i - 1] == rel[j - 1]);
                assert(dotdot_at(rel, j));
            }
        }
    }
}

/// Distinct relative names land on distinct paths under any one root.
pub proof fn lemma_distinct_names_distinct_dirs(root: Seq<char>, n1: Seq<char>, n2: Seq<char>)
    requires
        n1 != n2,
    ensures
        join_spec(root, n1) != join_spec(root, n2),
{
    let p1 = join_spec(root, n1);
    let p2 = join_spec(root, n2);
    if p1 == p2 {
        assert(p1.len() == root.len() + 1 + n1.len());
        assert(p2.len() == root.len() + 1 + n2.len());
        assert(n1.len() == n2.len());
        assert forall|i: int| 0 <= i < n1.len() implies n1[i] == n2[i] by {
            assert(p1[root.len() + 1 + i] == n1[i]);
            assert(p2[root.len() + 1 + i] == n2[i]);
        }
        assert(n1 =~= n2);
    }
}

/// Places `rel` under the directory `root`, separated by `/`.
pub fn join_path(root: &str, rel: &str) -> (r: String)
    ensures
        r@ == join_spec(root@, rel@),
{
    let mut s = root.to_owned();
    s.append("/");
    s.append(rel);
    proof {
        reveal_strlit("/");
        assert(s@ =~= join_spec(root@, rel@));
    }
    s
}

/// Decides [`safe_entry_name`] for an entry name handed out by the archive.
pub fn entry_name_safe(p: &Vec<char>) -> (r: bool)
    ensures
        r == safe_entry_name(p@),
{
    if p.len() == 0 {
        return false;
    }
    if p[0] == '/' {
        assert(!safe_entry_name(p@));
        return false;
    }
    let n = p.len();
    let mut i: usize = 0;
    while i < n
        invariant
            0 <= i <= n,
            n == p@.len(),
            p@.len() > 0,
            p@[0] != '/',
            forall|j: int| j < i ==> !dotdot_at(p@, j),
            forall|j: int| 0 <= j < i ==> p@[j] != '\\',
        decreases n - i,
    {
        if p[i] == '\\' {
            return false;
        }
        if n - i >= 2 && p[i] == '.' && p[i + 1] == '.' && (i == 0 || p[i - 1] == '/') && (i + 2
            == n || p[i + 2] == '/') {
            assert(dotdot_at(p@, i as int));
            return false;
        }
        proof {
            assert(!dotdot_at(p@, i as int));
        }
        i = i + 1;
    }
    proof {
        assert forall|j: int| !dotdot_at(p@, j) by {
            if j >= n {
                assert(!dotdot_at(p@, j));
            }
        }
    }
    true
}

} // verus!
