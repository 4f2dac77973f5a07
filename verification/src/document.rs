//! The canonical document: a tree of scalars, lists and records that stands
//! between the text of a configuration file and the typed schema.

use vstd::prelude::*;

verus! {

/// One entry of a record: a name and the value under it.
#[derive(Debug)]
pub struct Field {
    pub name: String,
    pub value: Document,
}

/// A node of the canonical document.
#[derive(Debug)]
pub enum Document {
    Null,
    Bool(bool),
    /// An integer from zero up to `u64::MAX`.
    Unsigned(u64),
    /// An integer below zero, down to `i64::MIN`.
    Negative(i64),
    /// A number that is no integer of 64 bits. The schema has no place for
    /// one, so only its kind is kept.
    Real,
    Text(String),
    List(Vec<Document>),
    Record(Vec<Field>),
}

/// The value of the first entry of `fields` that is named `name`.
pub open spec fn lookup(fields: Seq<Field>, name: Seq<char>) -> Option<Document>
    decreases fields.len(),
{
    if fields.len() == 0 {
        None
    } else if fields.first().name@ == name {
        Some(fields.first().value)
    } else {
        lookup(fields.drop_first(), name)
    }
}

/// Finds the value of the first entry of `fields` that is named `name`.
pub fn find<'a>(fields: &'a Vec<Field>, name: &str) -> (found: Option<&'a Document>)
    ensures
        match found {
            Some(value) => lookup(fields@, name@) == Some(*value),
            None => lookup(fields@, name@) is None,
        },
{
    let wanted: String = name.to_owned();
    let mut i: usize = 0;
    assert(fields@.skip(0) =~= fields@);
    while i < fields.len()
        invariant
            i <= fields.len(),
            wanted@ == name@,
            lookup(fields@, name@) == lookup(fields@.skip(i as int), name@),
        decreases fields.len() - i,
    {
        assert(fields@.skip(i as int).drop_first() =~= fields@.skip(i + 1));
        if fields[i].name == wanted {
            return Some(&fields[i].value);
        }
        i += 1;
    }
    None
}

impl Document {
    /// The document that stands for the integer `n`.
    pub open spec fn integer(n: int) -> Document
        recommends
            i64::MIN <= n <= u64::MAX,
    {
        if n >= 0 {
            Document::Unsigned(n as u64)
        } else {
            Document::Negative(n as i64)
        }
    }
}

/// Looking a name up gives the value of the first entry under that name, and
/// nothing exactly when no entry has the name.
pub proof fn law_lookup(fields: Seq<Field>, name: Seq<char>)
    ensures
        match lookup(fields, name) {
            Some(value) => exists|i: int|
                0 <= i < fields.len() && (#[trigger] fields[i]).name@ == name && fields[i].value
                    == value && forall|j: int| 0 <= j < i ==> (#[trigger] fields[j]).name@ != name,
            None => forall|i: int| 0 <= i < fields.len() ==> (#[trigger] fields[i]).name@ != name,
        },
    decreases fields.len(),
{
    if fields.len() > 0 && fields.first().name@ != name {
        let rest = fields.drop_first();
        law_lookup(rest, name);
        match lookup(rest, name) {
            Some(value) => {
                let i = choose|i: int|
                    0 <= i < rest.len() && (#[trigger] rest[i]).name@ == name && rest[i].value
                        == value && forall|j: int|
                        0 <= j < i ==> (#[trigger] rest[j]).name@ != name;
                assert(fields[i + 1] == rest[i]);
                assert forall|j: int| 0 <= j < i + 1 implies (#[trigger] fields[j]).name@
                    != name by {
                    if j > 0 {
                        assert(fields[j] == rest[j - 1]);
                    }
                }
            },
            None => {
                assert forall|i: int| 0 <= i < fields.len() implies (#[trigger] fields[i]).name@
                    != name by {
                    if i > 0 {
                        assert(fields[i] == rest[i - 1]);
                    }
                }
            },
        }
    } else if fields.len() > 0 {
        assert(fields[0].name@ == name);
    }
}

} // verus!
