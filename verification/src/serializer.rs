//! Row serialization: one query-result row plus the column descriptor set
//! become one ordered JSON object, or the first decode failure aborts the
//! whole row.

use vstd::prelude::*;

use crate::decoder::decode;
use crate::decoder::decode_spec;
use crate::resolver::resolve;
use crate::resolver::resolve_spec;
use crate::types::DatabaseTypes;
use crate::types::DecodeError;
use crate::types::Row;
use crate::types::RowColumn;
use crate::types::SerializationError;
use crate::types::TableInfo;
use crate::types::ValueModel;

verus! {

/// The declared type label of the first descriptor at or after `i` whose
/// name matches, if any.
pub open spec fn lookup_label_from(infos: Seq<TableInfo>, name: Seq<char>, i: int) -> Option<
    Seq<char>,
>
    decreases infos.len() - i,
{
    if i < 0 || i >= infos.len() {
        None
    } else if infos[i].name@ == name {
        Some(infos[i].type_label@)
    } else {
        lookup_label_from(infos, name, i + 1)
    }
}

/// The declared type label of the first descriptor carrying this column
/// name, if the descriptor set has one.
pub open spec fn lookup_label(infos: Seq<TableInfo>, name: Seq<char>) -> Option<Seq<char>> {
    lookup_label_from(infos, name, 0)
}

/// The mathematical shape of an output object's entries.
pub open spec fn entries_model(v: Seq<(String, DatabaseTypes)>) -> Seq<(Seq<char>, ValueModel)> {
    v.map_values(|p: (String, DatabaseTypes)| (p.0@, p.1@))
}

/// The object entries the row's columns from `i` on contribute, in row
/// order: a column with no matching descriptor is omitted entirely; any
/// other is decoded under the strategy its descriptor's label resolves to.
/// The first failure aborts the row, naming the column.
pub open spec fn serialize_from(cols: Seq<RowColumn>, infos: Seq<TableInfo>, i: int) -> Result<
    Seq<(Seq<char>, ValueModel)>,
    (Seq<char>, DecodeError),
>
    decreases cols.len() - i,
{
    if i < 0 || i >= cols.len() {
        Ok(Seq::empty())
    } else {
        let rest = serialize_from(cols, infos, i + 1);
        match lookup_label(infos, cols[i].name@) {
            None => rest,
            Some(label) => match decode_spec(resolve_spec(label), cols[i].value@) {
                Err(e) => Err((cols[i].name@, e)),
                Ok(v) => match rest {
                    Ok(entries) => Ok(seq![(cols[i].name@, v)] + entries),
                    Err(e) => Err(e),
                },
            },
        }
    }
}

/// The object one whole row serializes to, or the first decode failure.
pub open spec fn serialize_spec(cols: Seq<RowColumn>, infos: Seq<TableInfo>) -> Result<
    Seq<(Seq<char>, ValueModel)>,
    (Seq<char>, DecodeError),
> {
    serialize_from(cols, infos, 0)
}

/// Finds the first descriptor whose name matches the column's.
fn lookup_descriptor<'a>(infos: &'a Vec<TableInfo>, name: &String) -> (r: Option<&'a TableInfo>)
    ensures
        (match r {
            Some(info) => lookup_label(infos@, name@) == Some(info.type_label@),
            None => lookup_label(infos@, name@) is None,
        }),
{
    let mut j: usize = 0;
    while j < infos.len()
        invariant
            j <= infos@.len(),
            lookup_label(infos@, name@) == lookup_label_from(infos@, name@, j as int),
        decreases infos@.len() - j,
    {
        if infos[j].name == *name {
            return Some(&infos[j]);
        }
        j += 1;
    }
    None
}

/// A row paired with the descriptor set it is serialized against.
pub struct SerializeRow(pub (Vec<TableInfo>, Row));

impl SerializeRow {
    /// Serializes the row into an ordered JSON object: the row's columns in
    /// their native order, each decoded under its descriptor's label, the
    /// descriptorless ones omitted; the first decode failure abandons the
    /// row.
    pub fn serialize(&self) -> (r: Result<Vec<(String, DatabaseTypes)>, SerializationError>)
        ensures
            (match r {
                Ok(v) => serialize_spec(self.0.1.columns@, self.0.0@) == Ok::<
                    Seq<(Seq<char>, ValueModel)>,
                    (Seq<char>, DecodeError),
                >(entries_model(v@)),
                Err(e) => serialize_spec(self.0.1.columns@, self.0.0@) == Err::<
                    Seq<(Seq<char>, ValueModel)>,
                    (Seq<char>, DecodeError),
                >((e.column@, e.cause)),
            }),
    {
        let table_info = &self.0.0;
        let cols = &self.0.1.columns;
        let mut out: Vec<(String, DatabaseTypes)> = Vec::new();
        let mut i: usize = 0;
        while i < cols.len()
            invariant
                i <= cols@.len(),
                cols@ == self.0.1.columns@,
                table_info@ == self.0.0@,
                serialize_from(cols@, table_info@, 0) == (match serialize_from(
                    cols@,
                    table_info@,
                    i as int,
                ) {
                    Ok(entries) => Ok::<Seq<(Seq<char>, ValueModel)>, (Seq<char>, DecodeError)>(
                        entries_model(out@) + entries,
                    ),
                    Err(e) => Err::<Seq<(Seq<char>, ValueModel)>, (Seq<char>, DecodeError)>(e),
                }),
            decreases cols@.len() - i,
        {
            let ghost i0 = i as int;
            let ghost rest = serialize_from(cols@, table_info@, i0 + 1);
            proof {
                assert(serialize_from(cols@, table_info@, i0) == (match lookup_label(
                    table_info@,
                    cols@[i0].name@,
                ) {
                    None => rest,
                    Some(label) => match decode_spec(resolve_spec(label), cols@[i0].value@) {
                        Err(e) => Err::<Seq<(Seq<char>, ValueModel)>, (Seq<char>, DecodeError)>(
                            (cols@[i0].name@, e),
                        ),
                        Ok(v) => match rest {
                            Ok(entries) => Ok::<
                                Seq<(Seq<char>, ValueModel)>,
                                (Seq<char>, DecodeError),
                            >(seq![(cols@[i0].name@, v)] + entries),
                            Err(e) => Err::<
                                Seq<(Seq<char>, ValueModel)>,
                                (Seq<char>, DecodeError),
                            >(e),
                        },
                    },
                }));
            }
            let col = &cols[i];
            match lookup_descriptor(table_info, &col.name) {
                None => {},
                Some(info) => {
                    let strategy = resolve(info.type_label.as_str());
                    match decode(strategy, &col.value) {
                        Ok(v) => {
                            let ghost prev = out@;
                            out.push((col.name.clone(), v));
                            proof {
                                assert(entries_model(out@) =~= entries_model(prev).push(
                                    (col.name@, v@),
                                ));
                                match rest {
                                    Ok(entries) => {
                                        assert(entries_model(prev).push((col.name@, v@)) + entries
                                            =~= entries_model(prev) + (seq![(col.name@, v@)]
                                            + entries));
                                    },
                                    Err(_) => {},
                                }
                            }
                        },
                        Err(e) => {
                            return Err(SerializationError { column: col.name.clone(), cause: e });
                        },
                    }
                },
            }
            i += 1;
        }
        proof {
            assert(serialize_from(cols@, table_info@, i as int) == Ok::<
                Seq<(Seq<char>, ValueModel)>,
                (Seq<char>, DecodeError),
            >(Seq::empty()));
            assert(entries_model(out@) + Seq::empty() =~= entries_model(out@));
        }
        Ok(out)
    }
}

/// Serializes one row against the descriptor set in one call.
pub fn to_json(row: Row, table_info: Vec<TableInfo>) -> (r: Result<
    Vec<(String, DatabaseTypes)>,
    SerializationError,
>)
    ensures
        (match r {
            Ok(v) => serialize_spec(row.columns@, table_info@) == Ok::<
                Seq<(Seq<char>, ValueModel)>,
                (Seq<char>, DecodeError),
            >(entries_model(v@)),
            Err(e) => serialize_spec(row.columns@, table_info@) == Err::<
                Seq<(Seq<char>, ValueModel)>,
                (Seq<char>, DecodeError),
            >((e.column@, e.cause)),
        }),
{
    let serialize_row = SerializeRow((table_info, row));
    serialize_row.serialize()
}

} // verus!
