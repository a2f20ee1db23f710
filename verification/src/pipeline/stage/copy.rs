//! Copy: the requests that copy the tables of one layer from one database to
//! another.
use vstd::prelude::*;
use crate::pipeline::Error;
use crate::pipeline::stage::schema::{Column, Schema, Table};
use crate::text::{
    append_chars, chars_of, join, join_exec, push_piece, starts_with, starts_with_exec,
    string_from_chars, views,
};

verus! {

/// The statements that copy the listed columns of `table` from `source` to
/// `target`, emptying the target table first when `overwrite` holds.
pub open spec fn copy_table_text(
    source: Seq<char>,
    target: Seq<char>,
    table: Seq<char>,
    columns: Seq<char>,
    overwrite: bool,
) -> Seq<char> {
    (if overwrite {
        "TRUNCATE "@ + target + "."@ + table + ";"@
    } else {
        Seq::empty()
    }) + "INSERT INTO "@ + target + "."@ + table + " ("@ + columns + ") SELECT "@ + columns
        + " FROM "@ + source + "."@ + table + ";"@
}

/// The names of the columns that are not filled by the database itself.
pub open spec fn copied_columns(columns: Seq<Column>) -> Seq<Seq<char>>
    decreases columns.len(),
{
    if columns.len() == 0 {
        Seq::empty()
    } else {
        copied_columns(columns.drop_last()) + if columns.last().is_autoincrement {
            Seq::empty()
        } else {
            seq![columns.last().name@]
        }
    }
}

/// The statements that copy each table of the layer, in order.
pub open spec fn copy_layer_text(
    tables: Seq<Table>,
    source: Seq<char>,
    target: Seq<char>,
    layer: Seq<char>,
    overwrite: bool,
) -> Seq<char>
    decreases tables.len(),
{
    if tables.len() == 0 {
        Seq::empty()
    } else {
        copy_layer_text(tables.drop_last(), source, target, layer, overwrite) + if starts_with(
            tables.last().name@,
            layer,
        ) {
            copy_table_text(
                source,
                target,
                tables.last().name@,
                join(copied_columns(tables.last().columns@), ","@),
                overwrite,
            )
        } else {
            Seq::empty()
        }
    }
}

/// The statements that copy the listed columns of a table from one database
/// to another.
fn copy_table_request(source: &str, target: &str, table_name: &str, columns: &[char], overwrite: bool) -> (r: Vec<char>)
    ensures
        r@ == copy_table_text(source@, target@, table_name@, columns@, overwrite),
{
    let mut out: Vec<char> = Vec::new();
    if overwrite {
        append_chars(&mut out, &chars_of("TRUNCATE "));
        append_chars(&mut out, &chars_of(target));
        append_chars(&mut out, &chars_of("."));
        append_chars(&mut out, &chars_of(table_name));
        append_chars(&mut out, &chars_of(";"));
    }
    append_chars(&mut out, &chars_of("INSERT INTO "));
    append_chars(&mut out, &chars_of(target));
    append_chars(&mut out, &chars_of("."));
    append_chars(&mut out, &chars_of(table_name));
    append_chars(&mut out, &chars_of(" ("));
    append_chars(&mut out, columns);
    append_chars(&mut out, &chars_of(") SELECT "));
    append_chars(&mut out, columns);
    append_chars(&mut out, &chars_of(" FROM "));
    append_chars(&mut out, &chars_of(source));
    append_chars(&mut out, &chars_of("."));
    append_chars(&mut out, &chars_of(table_name));
    append_chars(&mut out, &chars_of(";"));
    proof {
        assert(out@ =~= copy_table_text(source@, target@, table_name@, columns@, overwrite));
    }
    out
}

/// The names of the columns of a table that are not filled by the database.
fn copied_columns_exec(columns: &Vec<Column>) -> (r: Vec<Vec<char>>)
    ensures
        views(r@) == copied_columns(columns@),
{
    let mut r: Vec<Vec<char>> = Vec::new();
    let mut i: usize = 0;
    while i < columns.len()
        invariant
            i <= columns@.len(),
            views(r@) == copied_columns(columns@.take(i as int)),
        decreases columns@.len() - i,
    {
        proof {
            assert(columns@.take(i + 1).drop_last() =~= columns@.take(i as int));
            assert(columns@.take(i + 1).last() == columns@[i as int]);
        }
        if !columns[i].is_autoincrement {
            push_piece(&mut r, chars_of(columns[i].name.as_str()));
        } else {
            proof {
                assert(copied_columns(columns@.take(i + 1)) =~= copied_columns(columns@.take(i as int)));
            }
        }
        i = i + 1;
    }
    proof {
        assert(columns@.take(columns@.len() as int) =~= columns@);
    }
    r
}

/// The request that copies every table of the layer (each table whose name
/// begins with `layer`) from `source` to `target`, all columns but those the
/// database fills itself; each target table is emptied first when
/// `overwrite` holds.
pub fn copy_layer_request(
    schema: &Schema,
    source: &str,
    target: &str,
    layer: &str,
    overwrite: bool,
) -> (r: Result<String, Error>)
    ensures
        r matches Ok(s) && s@ == copy_layer_text(schema.tables@, source@, target@, layer@, overwrite),
{
    let tables = &schema.tables;
    let prefix = chars_of(layer);
    let mut out: Vec<char> = Vec::new();
    let mut i: usize = 0;
    while i < tables.len()
        invariant
            i <= tables@.len(),
            prefix@ == layer@,
            out@ == copy_layer_text(tables@.take(i as int), source@, target@, layer@, overwrite),
        decreases tables@.len() - i,
    {
        let table = &tables[i];
        proof {
            assert(tables@.take(i + 1).drop_last() =~= tables@.take(i as int));
            assert(tables@.take(i + 1).last() == tables@[i as int]);
        }
        let columns = join_exec(&copied_columns_exec(&table.columns), &chars_of(","));
        let name = chars_of(table.name.as_str());
        if starts_with_exec(&name, &prefix) {
            let statement = copy_table_request(source, target, table.name.as_str(), &columns, overwrite);
            append_chars(&mut out, &statement);
        } else {
            proof {
                assert(out@ =~= out@ + Seq::<char>::empty());
            }
        }
        i = i + 1;
    }
    proof {
        assert(tables@.take(tables@.len() as int) =~= tables@);
    }
    Ok(string_from_chars(&out))
}

} // verus!

verus! {

/// The columns that are copied are, in order, the columns that the database
/// does not fill itself.
pub proof fn copy_skips_columns_filled_by_the_database(columns: Seq<Column>)
    ensures
        copied_columns(columns) == columns.filter(|c: Column| !c.is_autoincrement).map_values(
            |c: Column| c.name@,
        ),
    decreases columns.len(),
{
    let pred = |c: Column| !c.is_autoincrement;
    let name = |c: Column| c.name@;
    if columns.len() == 0 {
        assert(columns.filter(pred) =~= Seq::<Column>::empty());
        assert(copied_columns(columns) =~= columns.filter(pred).map_values(name));
    } else {
        copy_skips_columns_filled_by_the_database(columns.drop_last());
        let f = columns.drop_last().filter(pred);
        columns.drop_last().lemma_filter_push(columns.last(), pred);
        assert(columns.drop_last().push(columns.last()) =~= columns);
        if pred(columns.last()) {
            assert(columns.filter(pred) == f.push(columns.last()));
            assert(f.push(columns.last()).map_values(name) =~= f.map_values(name).push(columns.last().name@));
        } else {
            assert(columns.filter(pred) == f);
        }
        assert(copied_columns(columns) =~= columns.filter(pred).map_values(name));
    }
}

} // verus!
