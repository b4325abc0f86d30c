//! Verified helpers over strings and `/`-delimited paths, plus the
//! specifications this crate relies on for `String::push` and `String::pop`.

use vstd::prelude::*;
use vstd::string::StrSliceExecFns;
use vstd::string::StringExecFns;

verus! {

/// Relies on `String::push`: appends the character at the end of the string.
pub assume_specification[ String::push ](s: &mut String, c: char)
    ensures
        final(s)@ == old(s)@.push(c),
;

/// Relies on `String::pop`: removes and returns the last character, or
/// returns `None` and leaves the string alone when it is empty.
pub assume_specification[ String::pop ](s: &mut String) -> (r: Option<char>)
    ensures
        old(s)@.len() == 0 ==> final(s)@ == old(s)@ && r is None,
        old(s)@.len() > 0 ==> final(s)@ == old(s)@.drop_last() && r == Some(old(s)@.last()),
;

/// The string one character shorter, or the empty string unchanged.
pub open spec fn drop_last_or_empty(s: Seq<char>) -> Seq<char> {
    if s.len() == 0 {
        s
    } else {
        s.drop_last()
    }
}

/// The text holds no `/`, as a single path component must.
pub open spec fn slash_free(s: Seq<char>) -> bool {
    forall|i: int| 0 <= i < s.len() ==> s[i] != '/'
}

/// The parent of a `/`-delimited path: everything before the last `/`, or
/// the empty string when the path holds no `/` at all.
pub open spec fn parent_of(s: Seq<char>) -> Seq<char>
    decreases s.len(),
{
    if s.len() == 0 {
        s
    } else if s.last() == '/' {
        s.drop_last()
    } else {
        parent_of(s.drop_last())
    }
}

/// Joining a component under a path and taking the parent gives the path
/// back, as long as the component itself holds no `/`.
pub proof fn lemma_parent_of_join(path: Seq<char>, name: Seq<char>)
    requires
        slash_free(name),
    ensures
        parent_of(path + seq!['/'] + name) == path,
    decreases name.len(),
{
    let whole = path + seq!['/'] + name;
    if name.len() == 0 {
        assert(whole.last() == '/');
        assert(whole.drop_last() =~= path);
    } else {
        assert(whole.last() == name.last());
        assert(whole.drop_last() =~= path + seq!['/'] + name.drop_last());
        lemma_parent_of_join(path, name.drop_last());
    }
}

/// A path without any `/` has the empty parent.
proof fn lemma_parent_of_no_slash(s: Seq<char>)
    requires
        slash_free(s),
    ensures
        parent_of(s).len() == 0,
    decreases s.len(),
{
    if s.len() > 0 {
        lemma_parent_of_no_slash(s.drop_last());
    }
}

/// Truncating at the last `/` is exactly `parent_of`.
proof fn lemma_parent_of_last_slash(s: Seq<char>, j: int)
    requires
        0 <= j < s.len(),
        s[j] == '/',
        forall|k: int| j < k < s.len() ==> s[k] != '/',
    ensures
        parent_of(s) == s.subrange(0, j),
    decreases s.len(),
{
    if j == s.len() - 1 {
        assert(s.drop_last() =~= s.subrange(0, j));
    } else {
        lemma_parent_of_last_slash(s.drop_last(), j);
        assert(s.drop_last().subrange(0, j) =~= s.subrange(0, j));
    }
}

/// The candidate path for entering `name` from `path`: `path` + `/` + `name`.
/// (With an empty `path` this is `/name`, the root-relative form.)
pub fn path_push(path: &str, name: &str) -> (r: String)
    ensures
        r@ == path@ + seq!['/'] + name@,
{
    let mut r = path.to_owned();
    r.push('/');
    r.append(name);
    proof {
        assert(r@ =~= path@ + seq!['/'] + name@);
    }
    r
}

/// The parent of `path`: `path` truncated at its last `/`, or emptied when
/// it has none.
pub fn path_parent(path: &str) -> (r: String)
    ensures
        r@ == parent_of(path@),
{
    let n = path.unicode_len();
    let mut i = n;
    while i > 0
        invariant
            i <= n,
            n == path@.len(),
            forall|k: int| i <= k < n ==> path@[k] != '/',
        decreases i,
    {
        i = i - 1;
        if path.get_char(i) == '/' {
            proof {
                lemma_parent_of_last_slash(path@, i as int);
            }
            return path.substring_char(0, i).to_owned();
        }
    }
    proof {
        lemma_parent_of_no_slash(path@);
        assert(parent_of(path@) =~= Seq::<char>::empty());
    }
    String::new()
}

} // verus!
