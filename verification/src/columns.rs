//! The columns of a file: where in the header the fields of its records
//! stand.
//!
//! A field is found by the name of its column, wherever the column stands;
//! columns of other names are passed over. A name that the header lacks, or
//! holds more than once, is a fault of the file's layout. Only the
//! `location_type` of a stop may be left out.

use vstd::prelude::*;
use vstd::string::*;
use crate::error::FormatFault;
use crate::gather::{gathered, lemma_gathered_err, lemma_gathered_ok};
use crate::source::{field_names, required_fields, Source};
use crate::table::{column_of, find_column, Column};

verus! {

/// Where the header holds the column of field `j`, or what is wrong with it.
pub open spec fn column_outcome(header: Seq<Seq<char>>, names: Seq<Seq<char>>, j: int) -> Result<
    usize,
    FormatFault,
> {
    match column_of(header, names[j]) {
        Column::At(c) => Ok(c),
        Column::Missing => Err(FormatFault::MissingColumn { field: j as usize }),
        Column::Repeated => Err(FormatFault::RepeatedColumn { field: j as usize }),
    }
}

/// The columns of all the names, or what is wrong with the first name that
/// has not exactly one column.
pub open spec fn resolved(header: Seq<Seq<char>>, names: Seq<Seq<char>>) -> Result<
    Seq<usize>,
    FormatFault,
> {
    gathered(Seq::new(names.len(), |j: int| column_outcome(header, names, j)))
}

/// Finds the column of each name in a header.
pub fn resolve(header: &Vec<String>, names: &Vec<&'static str>) -> (columns: Result<
    Vec<usize>,
    FormatFault,
>)
    ensures
        match columns {
            Ok(c) => resolved(header.deep_view(), names.deep_view()) == Ok::<_, FormatFault>(c@),
            Err(f) => resolved(header.deep_view(), names.deep_view()) == Err::<Seq<usize>, _>(f),
        },
        columns matches Ok(c) ==> c.len() == names.len() && forall|j: int|
            0 <= j < c.len() ==> c[j] < header.len(),
{
    let ghost outcomes = Seq::new(
        names.deep_view().len(),
        |j: int| column_outcome(header.deep_view(), names.deep_view(), j),
    );
    let mut columns: Vec<usize> = Vec::new();
    let mut j: usize = 0;
    while j < names.len()
        invariant
            j <= names.len(),
            columns.len() == j,
            outcomes == Seq::new(
                names.deep_view().len(),
                |j: int| column_outcome(header.deep_view(), names.deep_view(), j),
            ),
            forall|k: int|
                0 <= k < j ==> (#[trigger] outcomes[k]) == Ok::<usize, FormatFault>(columns[k]),
            forall|k: int| 0 <= k < j ==> columns[k] < header.len(),
        decreases names.len() - j,
    {
        assert(names.deep_view()[j as int] == names[j as int]@);
        match find_column(header, names[j]) {
            Column::At(c) => {
                columns.push(c);
            },
            Column::Missing => {
                proof {
                    lemma_gathered_err(outcomes, j as int);
                }
                return Err(FormatFault::MissingColumn { field: j });
            },
            Column::Repeated => {
                proof {
                    lemma_gathered_err(outcomes, j as int);
                }
                return Err(FormatFault::RepeatedColumn { field: j });
            },
        }
        j += 1;
    }
    proof {
        lemma_gathered_ok(outcomes, columns@);
    }
    Ok(columns)
}

/// The column of the one field that a file may leave out, where the file
/// has such a field and its header has the column.
pub open spec fn extra_column(header: Seq<Seq<char>>, source: Source) -> Result<
    Option<usize>,
    FormatFault,
> {
    let field = required_fields(source) as int;
    if field < field_names(source).len() {
        match column_of(header, field_names(source)[field]) {
            Column::At(c) => Ok(Some(c)),
            Column::Missing => Ok(None),
            Column::Repeated => Err(FormatFault::RepeatedColumn { field: field as usize }),
        }
    } else {
        Ok(None)
    }
}

/// The columns of a file's fields: those of the fields that must be there,
/// and that of the field that may be left out.
pub open spec fn columns_of(header: Seq<Seq<char>>, source: Source) -> Result<
    (Seq<usize>, Option<usize>),
    FormatFault,
> {
    match resolved(header, field_names(source).take(required_fields(source) as int)) {
        Err(fault) => Err(fault),
        Ok(cols) => match extra_column(header, source) {
            Err(fault) => Err(fault),
            Ok(extra) => Ok((cols, extra)),
        },
    }
}

/// Finds the columns of a file's fields in its header.
pub fn columns(header: &Vec<String>, source: Source) -> (found: Result<
    (Vec<usize>, Option<usize>),
    FormatFault,
>)
    ensures
        match found {
            Ok(f) => columns_of(header.deep_view(), source) == Ok::<_, FormatFault>((f.0@, f.1)),
            Err(fault) => columns_of(header.deep_view(), source) == Err::<
                (Seq<usize>, Option<usize>),
                _,
            >(fault),
        },
        found matches Ok(f) ==> {
            &&& f.0.len() == required_fields(source)
            &&& forall|j: int| 0 <= j < f.0.len() ==> f.0[j] < header.len()
            &&& f.1 matches Some(c) ==> c < header.len()
        },
{
    let names = source.required_names();
    let cols = match resolve(header, &names) {
        Ok(cols) => cols,
        Err(fault) => {
            return Err(fault);
        },
    };
    let all = source.field_names();
    assert(all.deep_view().len() == all.len());
    assert(names.deep_view().len() == names.len());
    let field = names.len();
    if field < all.len() {
        assert(all.deep_view()[field as int] == all[field as int]@);
        match find_column(header, all[field]) {
            Column::At(c) => Ok((cols, Some(c))),
            Column::Missing => Ok((cols, None)),
            Column::Repeated => Err(FormatFault::RepeatedColumn { field }),
        }
    } else {
        Ok((cols, None))
    }
}

} // verus!
