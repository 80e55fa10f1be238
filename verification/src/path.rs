//! Where an instance lives: the directory of the database joined with the
//! suffix that names the instance in it.

use crate::cstr::{has_nul, NUL};
use vstd::prelude::*;
use vstd::slice::slice_to_vec;

verus! {

/// The byte that separates the components of a path.
pub const SEPARATOR: u8 = 0x2f;

/// Whether a path starts at the root of the file system.
pub open spec fn is_absolute(path: Seq<u8>) -> bool {
    path.len() > 0 && path[0] == SEPARATOR
}

/// `name` appended to `base` as one more component: an absolute `name`
/// stands for itself, and a separator is put between the two unless `base`
/// is empty or already ends with one.
pub open spec fn join(base: Seq<u8>, name: Seq<u8>) -> Seq<u8> {
    if is_absolute(name) {
        name
    } else if base.len() == 0 || base.last() == SEPARATOR {
        base + name
    } else {
        base.push(SEPARATOR) + name
    }
}

/// Where the null bytes of a joined path come from: from `name`, or from
/// `base` unless an absolute `name` stands in its place.
pub proof fn lemma_join_nul(base: Seq<u8>, name: Seq<u8>)
    ensures
        has_nul(join(base, name)) <==> has_nul(name) || (!is_absolute(name) && has_nul(base)),
{
    let joined = join(base, name);
    if !is_absolute(name) {
        let shift = joined.len() - name.len();
        assert forall|i: int| 0 <= i < base.len() implies joined[i] == base[i] by {}
        assert forall|i: int| 0 <= i < name.len() implies joined[i + shift] == name[i] by {}
        if has_nul(base) {
            let i = choose|i: int| 0 <= i < base.len() && base[i] == NUL;
            assert(joined[i] == NUL);
        }
        if has_nul(name) {
            let i = choose|i: int| 0 <= i < name.len() && name[i] == NUL;
            assert(joined[i + shift] == NUL);
        }
        if has_nul(joined) {
            let i = choose|i: int| 0 <= i < joined.len() && joined[i] == NUL;
            if i < base.len() {
                assert(base[i] == NUL);
            } else if i >= shift {
                assert(name[i - shift] == NUL);
            }
        }
    }
}

/// Appends `name` to `base` as one more path component.
pub fn join_paths(base: &[u8], name: &[u8]) -> (joined: Vec<u8>)
    ensures
        joined@ == join(base@, name@),
{
    if name.len() > 0 && name[0] == SEPARATOR {
        return slice_to_vec(name);
    }
    let mut joined = slice_to_vec(base);
    if base.len() > 0 && base[base.len() - 1] != SEPARATOR {
        joined.push(SEPARATOR);
    }
    joined.extend_from_slice(name);
    joined
}

} // verus!
