//! The named fields that an outcome can report as changed.

use vstd::prelude::*;

verus! {

#[derive(Clone, Copy, Debug, PartialEq, Eq, Structural)]
pub enum Field {
    Branch,
    Content,
    Group,
    Mode,
    Owner,
    Version,
}

impl Field {
    /// The fields that describe ownership and permissions of a file.
    pub fn all_file_attributes() -> (r: Vec<Field>)
        ensures
            r@ == seq![Field::Owner, Field::Group, Field::Mode],
    {
        let mut r: Vec<Field> = Vec::new();
        r.push(Field::Owner);
        r.push(Field::Group);
        r.push(Field::Mode);
        assert(r@ =~= seq![Field::Owner, Field::Group, Field::Mode]);
        r
    }
}

/// Whether `fields` holds `field`.
pub fn holds_field(fields: &Vec<Field>, field: Field) -> (r: bool)
    ensures
        r == fields@.contains(field),
{
    let mut i: usize = 0;
    while i < fields.len()
        invariant
            i <= fields.len(),
            forall|j: int| 0 <= j < i ==> fields@[j] != field,
        decreases fields.len() - i,
    {
        if fields[i] == field {
            return true;
        }
        i += 1;
    }
    false
}

/// A copy of `fields`.
pub fn copy_fields(fields: &Vec<Field>) -> (r: Vec<Field>)
    ensures
        r@ == fields@,
{
    let mut out: Vec<Field> = Vec::new();
    let mut i: usize = 0;
    while i < fields.len()
        invariant
            i <= fields.len(),
            out@ =~= fields@.take(i as int),
        decreases fields.len() - i,
    {
        out.push(fields[i]);
        i += 1;
    }
    assert(fields@.take(fields.len() as int) =~= fields@);
    out
}

} // verus!
