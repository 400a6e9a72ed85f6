//! Reads the struct-level flags and settles whether a marker is wanted.

use crate::error::GenerationError;
use crate::model::{attr_views, AttributeForm, AttributeView, StructAttribute};
use vstd::prelude::*;

verus! {

/// The attribute is the bare flag `flag`.
pub open spec fn is_flag(attr: AttributeView, flag: Seq<char>) -> bool {
    attr.form == AttributeForm::Path && attr.ident == Some(flag)
}

/// Some attribute of the list is the bare flag `flag`.
pub open spec fn has_flag(attrs: Seq<AttributeView>, flag: Seq<char>) -> bool {
    exists|i: int| 0 <= i < attrs.len() && is_flag(#[trigger] attrs[i], flag)
}

/// Whether a marker is wanted: it is unless `unmarked` is present, and asking
/// for both `marked` and `unmarked` is an error.
pub open spec fn effective_mode(attrs: Seq<AttributeView>) -> Result<bool, GenerationError> {
    if has_flag(attrs, "marked"@) && has_flag(attrs, "unmarked"@) {
        Err(GenerationError::ConflictingFlags)
    } else {
        Ok(!has_flag(attrs, "unmarked"@))
    }
}

/// Tells whether the bare flag `flag` stands among `attrs`.
pub fn has_attribute(attrs: &Vec<StructAttribute>, flag: &str) -> (found: bool)
    ensures
        found == has_flag(attr_views(attrs@), flag@),
{
    let wanted = flag.to_owned();
    let mut i: usize = 0;
    while i < attrs.len()
        invariant
            i <= attrs.len(),
            wanted@ == flag@,
            forall|k: int| 0 <= k < i ==> !is_flag(#[trigger] attr_views(attrs@)[k], flag@),
        decreases attrs.len() - i,
    {
        let attr = &attrs[i];
        let hit = match (&attr.form, &attr.ident) {
            (AttributeForm::Path, Some(ident)) => *ident == wanted,
            _ => false,
        };
        assert(hit == is_flag(attr_views(attrs@)[i as int], flag@));
        if hit {
            return true;
        }
        i += 1;
    }
    false
}

/// Settles the tagging mode of a record from its attributes.
///
/// `Ok(true)` asks for a marker, `Ok(false)` for none. A record that is both
/// `marked` and `unmarked` is refused. Attributes other than these two bare
/// flags have no effect.
pub fn resolve_mode(attrs: &Vec<StructAttribute>) -> (mode: Result<bool, GenerationError>)
    ensures
        mode == effective_mode(attr_views(attrs@)),
{
    let marked = has_attribute(attrs, "marked");
    let unmarked = has_attribute(attrs, "unmarked");
    if marked && unmarked {
        Err(GenerationError::ConflictingFlags)
    } else {
        Ok(!unmarked)
    }
}

} // verus!
