//! Export: the requests that copy the gold tables to files.
use vstd::prelude::*;
use crate::config::ExportConfig;
use crate::pipeline::stage::schema::{get_schema, schema_readable, table_names, try_get_schema};
use crate::text::{
    append_chars, chars_eq, chars_of, join, join_exec, lowercase, push_piece, starts_with,
    starts_with_exec, string_from_chars, strings, to_lowercase, views,
};

verus! {

/// The statement that copies `table` to `directory/table.format`.
pub open spec fn export_statement(table: Seq<char>, directory: Seq<char>, format: Seq<char>) -> Seq<char> {
    "COPY "@ + table + " TO '"@ + directory + "/"@ + table + "."@ + format + "' (FORMAT "@ + format
        + ");"@
}

/// The statement that copies a table to a file of the directory, in the
/// given format.
pub fn table_export_request(table_name: &str, directory: &str, format: &str) -> (r: String)
    ensures
        r@ == export_statement(table_name@, directory@, format@),
{
    let mut out = chars_of("COPY ");
    append_chars(&mut out, &chars_of(table_name));
    append_chars(&mut out, &chars_of(" TO '"));
    append_chars(&mut out, &chars_of(directory));
    append_chars(&mut out, &chars_of("/"));
    append_chars(&mut out, &chars_of(table_name));
    append_chars(&mut out, &chars_of("."));
    append_chars(&mut out, &chars_of(format));
    append_chars(&mut out, &chars_of("' (FORMAT "));
    append_chars(&mut out, &chars_of(format));
    append_chars(&mut out, &chars_of(");"));
    proof {
        assert(out@ =~= export_statement(table_name@, directory@, format@));
    }
    string_from_chars(&out)
}

/// The formats that can be exported to, whatever their case.
pub open spec fn supported_format(format: Seq<char>) -> bool {
    lowercase(format) == "parquet"@ || lowercase(format) == "csv"@
}

/// Whether the format can be exported to (`parquet` or `csv`, whatever its
/// case).
pub fn is_supported_format(format: &str) -> (r: bool)
    ensures
        r == supported_format(format@),
{
    let lower = chars_of(to_lowercase(format).as_str());
    chars_eq(&lower, &chars_of("parquet")) || chars_eq(&lower, &chars_of("csv"))
}

/// The gold tables among the given ones, in order.
pub open spec fn gold_tables(tables: Seq<Seq<char>>) -> Seq<Seq<char>>
    decreases tables.len(),
{
    if tables.len() == 0 {
        Seq::empty()
    } else {
        gold_tables(tables.drop_last()) + if starts_with(tables.last(), "gold_"@) {
            seq![tables.last()]
        } else {
            Seq::empty()
        }
    }
}

/// The export request: the statements of the gold tables, one per line.
pub open spec fn export_text(tables: Seq<Seq<char>>, directory: Seq<char>, format: Seq<char>) -> Seq<char> {
    join(gold_tables(tables).map_values(|t: Seq<char>| export_statement(t, directory, format)), "\n"@)
}

/// The export request for the given tables: a statement for each gold table,
/// one per line.
pub fn request_for_tables(config: &ExportConfig, tables: &Vec<String>) -> (r: String)
    ensures
        r@ == export_text(strings(tables@), config.directory@, config.format@),
{
    let ghost ts = strings(tables@);
    let ghost d = config.directory@;
    let ghost f = config.format@;
    let prefix = chars_of("gold_");
    let mut parts: Vec<Vec<char>> = Vec::new();
    let mut i: usize = 0;
    while i < tables.len()
        invariant
            i <= tables@.len(),
            ts == strings(tables@),
            d == config.directory@,
            f == config.format@,
            prefix@ == "gold_"@,
            views(parts@) == gold_tables(ts.take(i as int)).map_values(
                |t: Seq<char>| export_statement(t, d, f),
            ),
        decreases tables@.len() - i,
    {
        let table = chars_of(tables[i].as_str());
        let ghost before = views(parts@);
        proof {
            assert(ts.take(i + 1).drop_last() =~= ts.take(i as int));
            assert(ts.take(i + 1).last() == table@);
        }
        if starts_with_exec(&table, &prefix) {
            let statement = table_export_request(
                tables[i].as_str(),
                config.directory.as_str(),
                config.format.as_str(),
            );
            push_piece(&mut parts, chars_of(statement.as_str()));
            proof {
                assert(gold_tables(ts.take(i + 1)) =~= gold_tables(ts.take(i as int)).push(table@));
                assert(views(parts@) =~= gold_tables(ts.take(i + 1)).map_values(
                    |t: Seq<char>| export_statement(t, d, f),
                ));
            }
        } else {
            proof {
                assert(gold_tables(ts.take(i + 1)) =~= gold_tables(ts.take(i as int)));
            }
        }
        i = i + 1;
    }
    proof {
        assert(ts.take(tables@.len() as int) =~= ts);
    }
    string_from_chars(&join_exec(&parts, &chars_of("\n")))
}

/// The export request for every gold table of the schema; the format must be
/// one that can be exported to.
pub fn request(config: &ExportConfig) -> (r: String)
    requires
        supported_format(config.format@),
        schema_readable(),
    ensures
        r@ == export_text(table_names(), config.directory@, config.format@),
{
    let tables = get_schema();
    request_for_tables(config, &tables)
}

/// The export request for every gold table of the schema, or `None` when the
/// format cannot be exported to or the table names cannot be read from the
/// schema.
pub fn try_request(config: &ExportConfig) -> (r: Option<String>)
    ensures
        r is Some <==> supported_format(config.format@) && schema_readable(),
        r matches Some(s) ==> s@ == export_text(table_names(), config.directory@, config.format@),
{
    if !is_supported_format(config.format.as_str()) {
        return None;
    }
    match try_get_schema() {
        Some(_) => Some(request(config)),
        None => None,
    }
}

} // verus!

verus! {

/// The tables that are exported are exactly the gold tables: each exported
/// table is a gold table of the schema, and each gold table is exported.
pub proof fn export_covers_exactly_the_gold_tables(tables: Seq<Seq<char>>)
    ensures
        forall|t: Seq<char>| #[trigger] gold_tables(tables).contains(t) <==> (tables.contains(t)
            && starts_with(t, "gold_"@)),
    decreases tables.len(),
{
    if tables.len() > 0 {
        let rest = tables.drop_last();
        export_covers_exactly_the_gold_tables(rest);
        assert forall|t: Seq<char>| #[trigger] gold_tables(tables).contains(t) <==> (tables.contains(t)
            && starts_with(t, "gold_"@)) by {
            assert(tables == rest.push(tables.last()));
            if tables.contains(t) {
                let i = choose|i: int| 0 <= i < tables.len() && tables[i] == t;
                if i < tables.len() - 1 {
                    assert(rest[i] == t);
                    assert(rest.contains(t));
                }
            }
            if rest.contains(t) {
                let i = choose|i: int| 0 <= i < rest.len() && rest[i] == t;
                assert(tables[i] == t);
            }
            if starts_with(tables.last(), "gold_"@) {
                assert(gold_tables(tables) == gold_tables(rest).push(tables.last()));
                if gold_tables(tables).contains(t) && t != tables.last() {
                    let i = choose|i: int| 0 <= i < gold_tables(tables).len() && gold_tables(tables)[i] == t;
                    assert(gold_tables(rest)[i] == t);
                }
                if gold_tables(rest).contains(t) {
                    let i = choose|i: int| 0 <= i < gold_tables(rest).len() && gold_tables(rest)[i] == t;
                    assert(gold_tables(tables)[i] == t);
                }
                assert(gold_tables(tables)[gold_tables(rest).len() as int] == tables.last());
            } else {
                assert(gold_tables(tables) =~= gold_tables(rest));
            }
        }
    } else {
        assert(gold_tables(tables) =~= Seq::<Seq<char>>::empty());
    }
}

} // verus!
