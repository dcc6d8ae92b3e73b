//! Instance capability validation: every required instance extension and
//! layer name must be present among those the driver advertises, and a
//! missing one fails construction by name rather than proceeding degraded.
//!
//! Names are byte strings, as the graphics API reports them.

use vstd::prelude::*;

use crate::error::InitError;

verus! {

/// Byte-string views of a list of names.
pub open spec fn name_views(l: Seq<Vec<u8>>) -> Seq<Seq<u8>> {
    l.map_values(|v: Vec<u8>| v@)
}

/// `name` occurs in `list`.
pub open spec fn name_in(list: Seq<Seq<u8>>, name: Seq<u8>) -> bool {
    exists|i: int| 0 <= i < list.len() && list[i] == name
}

/// Every name of `req` occurs in `avail`.
pub open spec fn all_present(req: Seq<Vec<u8>>, avail: Seq<Vec<u8>>) -> bool {
    forall|j: int| 0 <= j < req.len() ==> name_in(name_views(avail), #[trigger] req[j]@)
}

/// `i` names the first entry of `req` that is absent from `avail`.
pub open spec fn first_missing_at(req: Seq<Vec<u8>>, avail: Seq<Vec<u8>>, i: int) -> bool {
    &&& 0 <= i < req.len()
    &&& !name_in(name_views(avail), req[i]@)
    &&& forall|j: int| 0 <= j < i ==> name_in(name_views(avail), #[trigger] req[j]@)
}

/// Byte-string equality.
pub fn bytes_eq(a: &Vec<u8>, b: &Vec<u8>) -> (r: bool)
    ensures
        r == (a@ == b@),
{
    if a.len() != b.len() {
        return false;
    }
    let mut i: usize = 0;
    while i < a.len()
        invariant
            i <= a@.len(),
            a@.len() == b@.len(),
            forall|j: int| 0 <= j < i ==> a@[j] == b@[j],
        decreases a@.len() - i,
    {
        if a[i] != b[i] {
            return false;
        }
        i = i + 1;
    }
    proof {
        assert(a@ =~= b@);
    }
    true
}

/// A fresh copy of a byte-string name.
pub fn copy_name(src: &Vec<u8>) -> (r: Vec<u8>)
    ensures
        r@ == src@,
{
    let mut r: Vec<u8> = Vec::new();
    let mut i: usize = 0;
    while i < src.len()
        invariant
            i <= src@.len(),
            r@ == src@.subrange(0, i as int),
        decreases src@.len() - i,
    {
        r.push(src[i]);
        proof {
            assert(r@ =~= src@.subrange(0, i + 1));
        }
        i = i + 1;
    }
    proof {
        assert(src@.subrange(0, src@.len() as int) =~= src@);
    }
    r
}

/// Whether `name` occurs in `list`.
pub fn contains_name(list: &Vec<Vec<u8>>, name: &Vec<u8>) -> (r: bool)
    ensures
        r == name_in(name_views(list@), name@),
{
    let mut i: usize = 0;
    while i < list.len()
        invariant
            i <= list@.len(),
            forall|j: int| 0 <= j < i ==> #[trigger] name_views(list@)[j] != name@,
        decreases list@.len() - i,
    {
        if bytes_eq(&list[i], name) {
            proof {
                assert(name_views(list@)[i as int] == name@);
            }
            return true;
        }
        proof {
            assert(name_views(list@)[i as int] == list@[i as int]@);
        }
        i = i + 1;
    }
    false
}

/// The first required name absent from the available ones, if any.
pub fn find_missing(required: &Vec<Vec<u8>>, available: &Vec<Vec<u8>>) -> (r: Option<usize>)
    ensures
        match r {
            Some(i) => first_missing_at(required@, available@, i as int),
            None => all_present(required@, available@),
        },
{
    let mut i: usize = 0;
    while i < required.len()
        invariant
            i <= required@.len(),
            forall|j: int|
                0 <= j < i ==> name_in(name_views(available@), #[trigger] required@[j]@),
        decreases required@.len() - i,
    {
        if !contains_name(available, &required[i]) {
            return Some(i);
        }
        i = i + 1;
    }
    None
}

/// Validates the instance configuration: every required extension and every
/// required layer must be advertised. Fails with the name of the first
/// missing capability — extensions checked first — rather than proceeding
/// degraded.
pub fn check_instance_capabilities(
    required_extensions: &Vec<Vec<u8>>,
    available_extensions: &Vec<Vec<u8>>,
    required_layers: &Vec<Vec<u8>>,
    available_layers: &Vec<Vec<u8>>,
) -> (r: Result<(), InitError>)
    ensures
        match r {
            Ok(_) => all_present(required_extensions@, available_extensions@) && all_present(
                required_layers@,
                available_layers@,
            ),
            Err(e) => e matches InitError::MissingCapability(n) && ({
                ||| exists|i: int|
                    first_missing_at(required_extensions@, available_extensions@, i)
                        && n@ == required_extensions@[i]@
                ||| (all_present(required_extensions@, available_extensions@) && exists|i: int|
                    first_missing_at(required_layers@, available_layers@, i) && n@
                        == required_layers@[i]@)
            }),
        },
{
    match find_missing(required_extensions, available_extensions) {
        Some(i) => Err(InitError::MissingCapability(copy_name(&required_extensions[i]))),
        None => {
            match find_missing(required_layers, available_layers) {
                Some(i) => Err(InitError::MissingCapability(copy_name(&required_layers[i]))),
                None => Ok(()),
            }
        },
    }
}

} // verus!
