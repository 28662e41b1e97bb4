//! Object-store paths.

use vstd::prelude::*;

verus! {

/// A character that an object path holds unencoded wherever it stands in a
/// segment: a letter or a digit of ASCII, `-` or `_`.
pub open spec fn is_plain_char(c: char) -> bool {
    ||| 'a' <= c <= 'z'
    ||| 'A' <= c <= 'Z'
    ||| '0' <= c <= '9'
    ||| c == '-'
    ||| c == '_'
}

/// `s` is a path that needs no change: plain characters, in segments that are
/// separated by single slashes, with no slash at either end.
pub open spec fn is_plain_path(s: Seq<char>) -> bool {
    &&& s.len() > 0
    &&& s[0] != '/'
    &&& s[s.len() - 1] != '/'
    &&& forall|i: int| 0 <= i < s.len() ==> is_plain_char(#[trigger] s[i]) || s[i] == '/'
    &&& forall|i: int|
        0 < i < s.len() && #[trigger] s[i] == '/' ==> s[i - 1] != '/'
}

/// Two paths with a slash between them; an empty path adds nothing.
pub open spec fn path_join(parent: Seq<char>, child: Seq<char>) -> Seq<char> {
    if parent.len() == 0 {
        child
    } else if child.len() == 0 {
        parent
    } else {
        parent + seq!['/'] + child
    }
}

/// The path that `object_store::path::Path::from` makes of a string.
pub uninterp spec fn object_path(raw: Seq<char>) -> Seq<char>;

/// Calls `object_store::path::Path::from` and hands the path back as a string.
///
/// The path depends on the string alone. A string that is a plain path already
/// is kept as it is. The segments between the slashes are encoded one by one and
/// the empty ones dropped, so a string that holds a slash gives the path of what
/// stands before it, joined with the path of what stands behind it; where the
/// part behind is a plain path, that part is kept as it is.
#[verifier::external_body]
pub(crate) fn to_object_path(raw: String) -> (path: String)
    ensures
        path@ == object_path(raw@),
        is_plain_path(raw@) ==> path@ == raw@,
        forall|parent: Seq<char>, child: Seq<char>|
            #![trigger path_join(object_path(parent), object_path(child))]
            raw@ == parent + seq!['/'] + child ==> path@ == path_join(
                object_path(parent),
                object_path(child),
            ),
        forall|parent: Seq<char>, child: Seq<char>|
            #![trigger path_join(object_path(parent), child)]
            raw@ == parent + seq!['/'] + child && is_plain_path(child) ==> path@ == path_join(
                object_path(parent),
                child,
            ),
{
    String::from(object_store::path::Path::from(raw))
}

/// Two paths are joined by one slash, and each can be read off the result; an empty
/// path adds nothing.
pub proof fn law_joined_paths_can_be_told_apart(parent: Seq<char>, child: Seq<char>)
    ensures
        ({
            let joined = path_join(parent, child);
            let n = parent.len() as int;
            &&& parent.len() > 0 && child.len() > 0 ==> {
                &&& joined.len() == n + 1 + child.len()
                &&& joined.take(n) == parent
                &&& joined[n] == '/'
                &&& joined.skip(n + 1) == child
            }
            &&& parent.len() == 0 ==> joined == child
            &&& child.len() == 0 ==> joined == parent
        }),
{
    let joined = path_join(parent, child);
    let n = parent.len() as int;
    if parent.len() > 0 && child.len() > 0 {
        assert(joined.take(n) =~= parent);
        assert(joined.skip(n + 1) =~= child);
    }
}

/// A path that needs no change stays as it is.
pub(crate) proof fn law_plain_path_is_kept(raw: String, path: String)
    requires
        call_ensures(to_object_path, (raw,), path),
        is_plain_path(raw@),
    ensures
        path@ == raw@,
{
}

} // verus!
