//! The three states one field of a sparse update can be in.

use vstd::prelude::*;

verus! {

/// One field of a sparse update: not mentioned at all, mentioned as an
/// explicit null (clears an optional value), or mentioned with a value.
///
/// The wire format distinguishes a key that is omitted from a key that is
/// present with a null, and this type keeps that distinction.
#[derive(Debug)]
pub enum FieldPatch<T> {
    Absent,
    Null,
    Value(T),
}

impl<T> FieldPatch<T> {
    /// What an optional field holds after this patch is applied over `prev`:
    /// an absent field leaves `prev` untouched, a null clears it, and a
    /// value replaces it.
    pub open spec fn applied(self, prev: Option<T>) -> Option<T> {
        match self {
            FieldPatch::Absent => prev,
            FieldPatch::Null => None,
            FieldPatch::Value(v) => Some(v),
        }
    }
}

/// What a required field holds after an update: a present value replaces
/// `prev`, an absent one leaves it untouched.
pub open spec fn overridden<T>(update: Option<T>, prev: T) -> T {
    match update {
        Some(v) => v,
        None => prev,
    }
}

/// The first option where present, else the second: how a creation request
/// falls back to a configured default for an optional field.
pub open spec fn or_opt<T>(a: Option<T>, b: Option<T>) -> Option<T> {
    if a is Some {
        a
    } else {
        b
    }
}

/// Picks the first option where present, else the second.
pub fn or_copy<T: Copy>(a: &Option<T>, b: Option<T>) -> (r: Option<T>)
    ensures
        r == or_opt(*a, b),
{
    match a {
        Some(v) => Some(*v),
        None => b,
    }
}

/// Applies a patch to an optional field whose values are plain copies.
pub fn apply_copy<T: Copy>(p: &FieldPatch<T>, prev: Option<T>) -> (r: Option<T>)
    ensures
        r == p.applied(prev),
{
    match p {
        FieldPatch::Absent => prev,
        FieldPatch::Null => None,
        FieldPatch::Value(v) => Some(*v),
    }
}

/// Picks a required field's new value: the update where present, else `prev`.
pub fn override_copy<T: Copy>(update: &Option<T>, prev: T) -> (r: T)
    ensures
        r == overridden(*update, prev),
{
    match update {
        Some(v) => *v,
        None => prev,
    }
}

} // verus!
