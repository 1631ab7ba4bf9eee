//! The laws the conversion obeys, stated over the specification functions
//! and proved once for all inputs.

use vstd::prelude::*;

use crate::decoder::decode_spec;
use crate::resolver::alias_of;
use crate::resolver::eq_ci;
use crate::resolver::first_underscore;
use crate::resolver::label_eq;
use crate::resolver::primitive_of;
use crate::resolver::resolve_spec;
use crate::serializer::lookup_label;
use crate::serializer::serialize_from;
use crate::serializer::serialize_spec;
use crate::types::DecodeError;
use crate::types::RawValueModel;
use crate::types::RowColumn;
use crate::types::TableInfo;
use crate::types::ValueModel;
use crate::DecodeStrategy;

verus! {

/// Each primitive type label decodes a raw value of its matching storage
/// class to the matching JSON scalar, the value held exactly: text to text,
/// the two integer widths to the integer itself, real to the same double,
/// boolean to the truth of the stored integer.
pub proof fn primitive_labels_decode_to_matching_scalars(s: Seq<char>, i: i64, j: i64, bits: u64)
    requires
        -2147483648 <= j <= 2147483647,
    ensures
        decode_spec(resolve_spec("text"@), RawValueModel::Text(s)) == Ok::<
            ValueModel,
            DecodeError,
        >(ValueModel::Text(s)),
        decode_spec(resolve_spec("integer"@), RawValueModel::Integer(j)) == Ok::<
            ValueModel,
            DecodeError,
        >(ValueModel::Integer(j)),
        decode_spec(resolve_spec("int4"@), RawValueModel::Integer(j)) == Ok::<
            ValueModel,
            DecodeError,
        >(ValueModel::Integer(j)),
        decode_spec(resolve_spec("bigint"@), RawValueModel::Integer(i)) == Ok::<
            ValueModel,
            DecodeError,
        >(ValueModel::Integer(i)),
        decode_spec(resolve_spec("int8"@), RawValueModel::Integer(i)) == Ok::<
            ValueModel,
            DecodeError,
        >(ValueModel::Integer(i)),
        decode_spec(resolve_spec("real"@), RawValueModel::Real(bits)) == Ok::<
            ValueModel,
            DecodeError,
        >(ValueModel::Float(bits)),
        decode_spec(resolve_spec("boolean"@), RawValueModel::Integer(i)) == Ok::<
            ValueModel,
            DecodeError,
        >(ValueModel::Boolean(i != 0)),
{
    reveal_strlit("text");
    reveal_strlit("integer");
    reveal_strlit("int4");
    reveal_strlit("bigint");
    reveal_strlit("int8");
    reveal_strlit("real");
    reveal_strlit("boolean");
    assert(!eq_ci("int8"@[0], "text"@[0]));
    assert(!eq_ci("int8"@[3], "int4"@[3]));
    assert(!label_eq("int8"@, "text"@));
    assert(!label_eq("int8"@, "int4"@));
}

/// A null raw value decodes to JSON null under every strategy, the
/// semantic aliases included.
pub proof fn null_decodes_to_null(strategy: DecodeStrategy)
    ensures
        decode_spec(strategy, RawValueModel::Null) == Ok::<ValueModel, DecodeError>(
            ValueModel::Null,
        ),
{
}

/// A label that matches no primitive whole, whose part before the first
/// underscore matches no semantic alias, but whose part after it matches a
/// primitive, resolves by that suffix's primitive rule.
pub proof fn suffix_fallback_applies(label: Seq<char>, i: int)
    requires
        primitive_of(label) is None,
        first_underscore(label) == Some(i),
        alias_of(label.subrange(0, i)) is None,
        primitive_of(label.subrange(i + 1, label.len() as int)) is Some,
    ensures
        Some(resolve_spec(label)) == primitive_of(label.subrange(i + 1, label.len() as int)),
{
}

/// A label with no underscore that matches no primitive and no semantic
/// alias resolves to the opaque-binary fallback.
pub proof fn no_underscore_unmatched_label_is_opaque(label: Seq<char>)
    requires
        primitive_of(label) is None,
        alias_of(label) is None,
        first_underscore(label) is None,
    ensures
        resolve_spec(label) == DecodeStrategy::OpaqueBinary,
{
}

/// Holds of a row column exactly when the descriptor set knows its name.
pub open spec fn has_descriptor(infos: Seq<TableInfo>) -> spec_fn(RowColumn) -> bool {
    |c: RowColumn| lookup_label(infos, c.name@) is Some
}

/// A row column's name.
pub open spec fn column_name() -> spec_fn(RowColumn) -> Seq<char> {
    |c: RowColumn| c.name@
}

/// An output entry's name.
pub open spec fn entry_name() -> spec_fn((Seq<char>, ValueModel)) -> Seq<char> {
    |e: (Seq<char>, ValueModel)| e.0
}

proof fn lemma_output_names_from(cols: Seq<RowColumn>, infos: Seq<TableInfo>, i: int)
    requires
        0 <= i <= cols.len(),
    ensures
        (match serialize_from(cols, infos, i) {
            Ok(entries) => entries.map_values(entry_name()) == cols.subrange(
                i,
                cols.len() as int,
            ).filter(has_descriptor(infos)).map_values(column_name()),
            Err(_) => true,
        }),
    decreases cols.len() - i,
{
    reveal_with_fuel(Seq::<RowColumn>::filter, 3);
    let pred = has_descriptor(infos);
    let tail = cols.subrange(i, cols.len() as int);
    if i == cols.len() {
        assert(tail =~= Seq::<RowColumn>::empty());
        assert(tail.filter(pred) =~= Seq::<RowColumn>::empty());
        assert(Seq::<RowColumn>::empty().map_values(column_name()) =~= Seq::<Seq<char>>::empty());
        assert(Seq::<(Seq<char>, ValueModel)>::empty().map_values(entry_name()) =~= Seq::<
            Seq<char>,
        >::empty());
    } else {
        lemma_output_names_from(cols, infos, i + 1);
        let head = seq![cols[i]];
        let rest = cols.subrange(i + 1, cols.len() as int);
        assert(tail =~= head + rest);
        Seq::filter_distributes_over_add(head, rest, pred);
        assert(head.drop_last() =~= Seq::<RowColumn>::empty());
        assert(head.last() == cols[i]);
        assert(head.filter(pred) == (if pred(cols[i]) {
            Seq::<RowColumn>::empty().push(cols[i])
        } else {
            Seq::<RowColumn>::empty()
        }));
        assert((head.filter(pred) + rest.filter(pred)).map_values(column_name())
            =~= head.filter(pred).map_values(column_name()) + rest.filter(pred).map_values(
            column_name(),
        ));
        match serialize_from(cols, infos, i + 1) {
            Ok(rest_entries) => {
                match lookup_label(infos, cols[i].name@) {
                    None => {
                        assert(!pred(cols[i]));
                        assert(head.filter(pred) =~= Seq::<RowColumn>::empty());
                    },
                    Some(label) => {
                        assert(pred(cols[i]));
                        match decode_spec(resolve_spec(label), cols[i].value@) {
                            Ok(v) => {
                                let entry = (cols[i].name@, v);
                                assert((seq![entry] + rest_entries).map_values(entry_name())
                                    =~= seq![cols[i].name@] + rest_entries.map_values(
                                    entry_name(),
                                ));
                                assert(head.filter(pred).map_values(column_name())
                                    =~= seq![cols[i].name@]);
                            },
                            Err(_) => {},
                        }
                    },
                }
            },
            Err(_) => {},
        }
    }
}

/// The output object's names are exactly the names of the row's columns
/// that the descriptor set knows, in the row's native order: serialization
/// neither reorders, invents, nor nulls a column.
pub proof fn output_names_follow_row_order(cols: Seq<RowColumn>, infos: Seq<TableInfo>)
    ensures
        (match serialize_spec(cols, infos) {
            Ok(entries) => entries.map_values(entry_name()) == cols.filter(
                has_descriptor(infos),
            ).map_values(column_name()),
            Err(_) => true,
        }),
{
    lemma_output_names_from(cols, infos, 0);
    assert(cols.subrange(0, cols.len() as int) =~= cols);
}

proof fn lemma_absent_columns_from(cols: Seq<RowColumn>, infos: Seq<TableInfo>, i: int)
    ensures
        (match serialize_from(cols, infos, i) {
            Ok(entries) => forall|k: int|
                0 <= k < entries.len() ==> lookup_label(infos, entries[k].0) is Some,
            Err(_) => true,
        }),
    decreases cols.len() - i,
{
    if i < 0 || i >= cols.len() {
    } else {
        lemma_absent_columns_from(cols, infos, i + 1);
    }
}

/// A row column whose name no descriptor carries is omitted from the
/// output object entirely, never emitted as null: every entry of a
/// successfully serialized row bears a name the descriptor set knows.
pub proof fn absent_columns_are_omitted(cols: Seq<RowColumn>, infos: Seq<TableInfo>)
    ensures
        (match serialize_spec(cols, infos) {
            Ok(entries) => forall|k: int|
                0 <= k < entries.len() ==> lookup_label(infos, entries[k].0) is Some,
            Err(_) => true,
        }),
{
    lemma_absent_columns_from(cols, infos, 0);
}

} // verus!
