use crate::error::DirError;
use vstd::prelude::*;

verus! {

/// A base path with one more component appended, separated by `/`.
pub open spec fn spec_join(base: Seq<char>, name: Seq<char>) -> Seq<char> {
    base + seq!['/'] + name
}

/// Append one component to a base path, inserting the separator.
pub fn join_path(base: &str, name: &str) -> (r: String)
    ensures
        r@ == spec_join(base@, name@),
{
    let mut s: String = base.to_owned();
    s.append("/");
    s.append(name);
    proof {
        reveal_strlit("/");
        assert(s@ =~= spec_join(base@, name@));
    }
    s
}

/// The index of the last `/` in a path, if any.
pub open spec fn spec_last_slash(p: Seq<char>) -> Option<int>
    decreases p.len(),
{
    if p.len() == 0 {
        None
    } else if p[p.len() - 1] == '/' {
        Some(p.len() - 1)
    } else {
        spec_last_slash(p.take(p.len() - 1))
    }
}

/// The directory holding the entry a path names: the text before the final
/// separator, or the root `/` when that separator is the leading one. A path
/// without a separator, and the bare root, have no parent.
pub open spec fn spec_parent(p: Seq<char>) -> Option<Seq<char>> {
    match spec_last_slash(p) {
        None => None,
        Some(i) => if i == 0 {
            if p.len() == 1 {
                None
            } else {
                Some(seq!['/'])
            }
        } else {
            Some(p.take(i))
        },
    }
}

proof fn lemma_last_slash_none(p: Seq<char>)
    requires
        forall|j: int| 0 <= j < p.len() ==> p[j] != '/',
    ensures
        spec_last_slash(p) is None,
    decreases p.len(),
{
    if p.len() > 0 {
        lemma_last_slash_none(p.take(p.len() - 1));
    }
}

proof fn lemma_last_slash_at(p: Seq<char>, k: int)
    requires
        0 <= k < p.len(),
        p[k] == '/',
        forall|j: int| k < j < p.len() ==> p[j] != '/',
    ensures
        spec_last_slash(p) == Some(k),
    decreases p.len(),
{
    if k < p.len() - 1 {
        lemma_last_slash_at(p.take(p.len() - 1), k);
    }
}

/// The directory holding the entry `p` names, per `spec_parent`.
pub fn parent_dir(p: &str) -> (r: Option<String>)
    ensures
        r.deep_view() == spec_parent(p@),
{
    let n: usize = p.unicode_len();
    let mut i: usize = n;
    while i > 0
        invariant
            i <= n,
            n == p@.len(),
            forall|j: int| i <= j < n ==> p@[j] != '/',
        decreases i,
    {
        if p.get_char(i - 1) == '/' {
            proof {
                lemma_last_slash_at(p@, i - 1);
            }
            if i == 1 {
                if n == 1 {
                    return None;
                }
                let root: String = "/".to_owned();
                proof {
                    reveal_strlit("/");
                    assert(root@ =~= seq!['/']);
                }
                return Some(root);
            }
            let prefix = p.substring_char(0, i - 1);
            proof {
                assert(prefix@ =~= p@.take(i - 1));
            }
            return Some(prefix.to_owned());
        }
        i = i - 1;
    }
    proof {
        lemma_last_slash_none(p@);
    }
    None
}

/// Render a resolved path as text. Paths in this crate are UTF-8 strings
/// already, so this always succeeds and returns the text unchanged; it is
/// the seam where a caller that needs `&str` access obtains it.
pub fn path_to_str(path: &String) -> (r: Result<&str, DirError>)
    ensures
        r matches Ok(s) && s@ == path@,
{
    Ok(path.as_str())
}

} // verus!
