//! D-Bus object paths.

use vstd::prelude::*;
use zbus::zvariant::OwnedObjectPath;

verus! {

/// Why `zvariant` turned a value down.
#[verifier::external_type_specification]
#[verifier::external_body]
pub struct ExZvariantError(zbus::zvariant::Error);

/// A character that a name between two slashes may hold.
pub open spec fn is_path_char(c: char) -> bool {
    ('a' <= c <= 'z') || ('A' <= c <= 'Z') || ('0' <= c <= '9') || c == '_'
}

/// An object path: a slash, then names parted by single slashes. The root
/// alone has no name; no path other than the root ends in a slash.
pub open spec fn is_object_path(path: Seq<char>) -> bool {
    &&& path.len() > 0
    &&& path[0] == '/'
    &&& forall|i: int| 0 <= i < path.len() ==> (#[trigger] path[i] == '/' || is_path_char(path[i]))
    &&& forall|i: int, j: int|
        0 <= i && j == i + 1 && j < path.len() && #[trigger] path[i] == '/' ==> #[trigger] path[j]
            != '/'
    &&& path.len() > 1 ==> path.last() != '/'
}

/// `OwnedObjectPath::try_from` takes a text that is an object path, unchanged,
/// and turns down any other.
#[verifier::external_body]
pub(crate) fn check_object_path(path: String) -> (checked: Result<String, zbus::zvariant::Error>)
    ensures
        checked is Ok <==> is_object_path(path@),
        checked matches Ok(p) ==> p@ == path@,
{
    OwnedObjectPath::try_from(path).map(|p| p.as_str().to_owned())
}

} // verus!
