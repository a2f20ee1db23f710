//! Vacuum: the requests that delete the rows that have outlived the
//! retention of their layer.
use vstd::prelude::*;
use crate::config::{named_views, VacuumConfig};
use crate::num::{int_text, nat_text_exec};
use crate::pipeline::stage::schema::{get_schema, schema_readable, table_names, try_get_schema};
use crate::text::{
    append_chars, chars_of, find, find_exec, starts_with, starts_with_exec, string_from_chars,
    strings,
};

verus! {

/// The statement that deletes the rows of `table` inserted more than
/// `seconds` seconds ago.
pub open spec fn delete_statement(table: Seq<char>, seconds: u64) -> Seq<char> {
    "DELETE FROM "@ + table + " WHERE inserted_at + '"@ + int_text(seconds as int)
        + " seconds' < CURRENT_TIMESTAMP;"@
}

/// A table that is kept whole whatever the retentions: the contents of the
/// system files (`gold_file_`), the technical figures (`_tech_`) and the
/// host names resolved for the addresses seen (`_network_host`).
pub open spec fn kept_whole(table: Seq<char>) -> bool {
    ||| find(table, "gold_file_"@) is Some
    ||| find(table, "_tech_"@) is Some
    ||| find(table, "_network_host"@) is Some
}

/// The rows of `table` are deleted with the retention of `layer`: the table
/// belongs to the layer, the layer does not keep its rows for ever, and the
/// table is not one that is kept whole.
pub open spec fn vacuumed(table: Seq<char>, layer: (Seq<char>, u64)) -> bool {
    &&& starts_with(table, layer.0)
    &&& layer.1 > 0
    &&& !kept_whole(table)
}

/// The statements of one table, one for each layer that vacuums it.
pub open spec fn table_statements(table: Seq<char>, layers: Seq<(Seq<char>, u64)>) -> Seq<char>
    decreases layers.len(),
{
    if layers.len() == 0 {
        Seq::empty()
    } else {
        table_statements(table, layers.drop_last()) + if vacuumed(table, layers.last()) {
            delete_statement(table, layers.last().1)
        } else {
            Seq::empty()
        }
    }
}

/// The statements of all tables, table after table.
pub open spec fn vacuum_text(tables: Seq<Seq<char>>, layers: Seq<(Seq<char>, u64)>) -> Seq<char>
    decreases tables.len(),
{
    if tables.len() == 0 {
        Seq::empty()
    } else {
        vacuum_text(tables.drop_last(), layers) + table_statements(tables.last(), layers)
    }
}

/// Appends the statements of one table.
fn push_table_statements(out: &mut Vec<char>, table: &[char], layers: &Vec<(String, u64)>)
    ensures
        final(out)@ == old(out)@ + table_statements(table@, named_views(layers@)),
{
    let ghost ls = named_views(layers@);
    let ghost start = out@;
    let file_marker = chars_of("gold_file_");
    let tech_marker = chars_of("_tech_");
    let host_marker = chars_of("_network_host");
    let mut j: usize = 0;
    while j < layers.len()
        invariant
            j <= layers@.len(),
            ls == named_views(layers@),
            file_marker@ == "gold_file_"@,
            tech_marker@ == "_tech_"@,
            host_marker@ == "_network_host"@,
            out@ == start + table_statements(table@, ls.take(j as int)),
        decreases layers@.len() - j,
    {
        let layer = &layers[j];
        let name = chars_of(layer.0.as_str());
        proof {
            assert(ls.take(j + 1).drop_last() =~= ls.take(j as int));
            assert(ls.take(j + 1).last() == ls[j as int]);
            assert(ls[j as int] == (layer.0@, layer.1));
        }
        if starts_with_exec(table, &name) && layer.1 > 0 && find_exec(table, &file_marker).is_none()
            && find_exec(table, &tech_marker).is_none() && find_exec(table, &host_marker).is_none() {
            append_chars(out, &chars_of("DELETE FROM "));
            append_chars(out, table);
            append_chars(out, &chars_of(" WHERE inserted_at + '"));
            append_chars(out, &nat_text_exec(layer.1 as u128));
            append_chars(out, &chars_of(" seconds' < CURRENT_TIMESTAMP;"));
            proof {
                assert(out@ =~= start + table_statements(table@, ls.take(j as int))
                    + delete_statement(table@, layer.1));
            }
        } else {
            proof {
                assert(!vacuumed(table@, ls[j as int]));
                assert(out@ =~= start + table_statements(table@, ls.take(j as int)) + Seq::<char>::empty());
            }
        }
        j = j + 1;
    }
    proof {
        assert(ls.take(layers@.len() as int) =~= ls);
    }
}

/// The vacuum request for the given tables: for each table, in order, a
/// deletion for each layer (bronze, silver, gold) that vacuums it.
pub fn request_for_tables(config: &VacuumConfig, tables: &Vec<String>) -> (r: String)
    ensures
        r@ == vacuum_text(strings(tables@), config.layers()),
{
    let layers = config.to_list();
    let ghost ts = strings(tables@);
    let mut out: Vec<char> = Vec::new();
    let mut i: usize = 0;
    while i < tables.len()
        invariant
            i <= tables@.len(),
            ts == strings(tables@),
            named_views(layers@) == config.layers(),
            out@ == vacuum_text(ts.take(i as int), config.layers()),
        decreases tables@.len() - i,
    {
        let table = chars_of(tables[i].as_str());
        push_table_statements(&mut out, &table, &layers);
        proof {
            assert(ts.take(i + 1).drop_last() =~= ts.take(i as int));
            assert(ts.take(i + 1).last() == tables@[i as int]@);
        }
        i = i + 1;
    }
    proof {
        assert(ts.take(tables@.len() as int) =~= ts);
    }
    string_from_chars(&out)
}

/// The vacuum request for every table of the schema.
pub fn request(config: &VacuumConfig) -> (r: String)
    requires
        schema_readable(),
    ensures
        r@ == vacuum_text(table_names(), config.layers()),
{
    let tables = get_schema();
    request_for_tables(config, &tables)
}

/// The vacuum request for every table of the schema, or `None` when the
/// table names cannot be read from the schema.
pub fn try_request(config: &VacuumConfig) -> (r: Option<String>)
    ensures
        r is Some <==> schema_readable(),
        r matches Some(s) ==> s@ == vacuum_text(table_names(), config.layers()),
{
    match try_get_schema() {
        Some(_) => Some(request(config)),
        None => None,
    }
}

} // verus!

verus! {

/// A table of system files, of technical figures or of resolved host names
/// is never vacuumed, whatever the retention of its layer.
pub proof fn vacuum_spares_file_and_technical_tables(table: Seq<char>, layers: Seq<(Seq<char>, u64)>)
    requires
        kept_whole(table),
    ensures
        table_statements(table, layers) == Seq::<char>::empty(),
    decreases layers.len(),
{
    if layers.len() > 0 {
        vacuum_spares_file_and_technical_tables(table, layers.drop_last());
    }
}

/// A table whose layers keep their rows for ever (retention 0) is never
/// vacuumed.
pub proof fn permanent_layers_are_never_vacuumed(table: Seq<char>, layers: Seq<(Seq<char>, u64)>)
    requires
        forall|i: int| 0 <= i < layers.len() && starts_with(table, #[trigger] layers[i].0) ==> layers[i].1 == 0,
    ensures
        table_statements(table, layers) == Seq::<char>::empty(),
    decreases layers.len(),
{
    if layers.len() > 0 {
        assert forall|i: int| 0 <= i < layers.drop_last().len() && starts_with(
            table,
            #[trigger] layers.drop_last()[i].0,
        ) implies layers.drop_last()[i].1 == 0 by {
            assert(layers.drop_last()[i] == layers[i]);
        }
        permanent_layers_are_never_vacuumed(table, layers.drop_last());
        assert(layers.last() == layers[layers.len() - 1]);
    }
}


/// The tables of `ts` outside the gold layer, in order.
pub open spec fn non_gold(ts: Seq<Seq<char>>) -> Seq<Seq<char>>
    decreases ts.len(),
{
    if ts.len() == 0 {
        ts
    } else if starts_with(ts.last(), "gold"@) {
        non_gold(ts.drop_last())
    } else {
        non_gold(ts.drop_last()).push(ts.last())
    }
}

/// Keeping the gold layer for ever, table by table: a table outside the gold
/// layer keeps exactly its statements, and a gold table loses its statements,
/// which were at most its one gold deletion.
pub proof fn lemma_gold_kept_table(t: Seq<char>, c: VacuumConfig)
    ensures
        table_statements(
            t,
            (VacuumConfig { bronze: c.bronze, silver: c.silver, gold: 0 }).layers(),
        ) == (if starts_with(t, "gold"@) {
            Seq::<char>::empty()
        } else {
            table_statements(t, c.layers())
        }),
        starts_with(t, "gold"@) ==> table_statements(t, c.layers()) == (if vacuumed(
            t,
            ("gold"@, c.gold),
        ) {
            delete_statement(t, c.gold)
        } else {
            Seq::<char>::empty()
        }),
{
    reveal_strlit("gold");
    reveal_strlit("bronze");
    reveal_strlit("silver");
    let c0 = VacuumConfig { bronze: c.bronze, silver: c.silver, gold: 0 };
    let l = c.layers();
    let l0 = c0.layers();
    assert(l0.drop_last().drop_last().drop_last() =~= Seq::<(Seq<char>, u64)>::empty());
    assert(l.drop_last().drop_last().drop_last() =~= Seq::<(Seq<char>, u64)>::empty());
    assert(l0.drop_last() =~= l.drop_last());
    if starts_with(t, "gold"@) {
        assert(t.subrange(0, 4)[0] == t[0]);
        assert("gold"@[0] == 'g');
        assert(t[0] == 'g');
        assert(!starts_with(t, "bronze"@)) by {
            if starts_with(t, "bronze"@) {
                assert(t.subrange(0, 6)[0] == t[0]);
                assert("bronze"@[0] == 'b');
            }
        }
        assert(!starts_with(t, "silver"@)) by {
            if starts_with(t, "silver"@) {
                assert(t.subrange(0, 6)[0] == t[0]);
                assert("silver"@[0] == 's');
            }
        }
        assert(table_statements(t, l0.drop_last().drop_last().drop_last()) == Seq::<char>::empty());
        assert(table_statements(t, l0.drop_last().drop_last()) =~= Seq::<char>::empty());
        assert(table_statements(t, l0.drop_last()) =~= Seq::<char>::empty());
        assert(table_statements(t, l0) =~= Seq::<char>::empty());
        assert(!vacuumed(t, l[0]));
        assert(!vacuumed(t, l[1]));
        assert(l.drop_last().drop_last().last() == l[0]);
        assert(l.drop_last().last() == l[1]);
        assert(l.last() == ("gold"@, c.gold));
        assert(table_statements(t, l.drop_last().drop_last()) =~= Seq::<char>::empty());
        assert(table_statements(t, l.drop_last()) =~= Seq::<char>::empty());
    } else {
        assert(!vacuumed(t, l.last()));
        assert(!vacuumed(t, l0.last()));
        assert(table_statements(t, l0) =~= table_statements(t, l0.drop_last()));
        assert(table_statements(t, l) =~= table_statements(t, l.drop_last()));
    }
}

/// Keeping the gold layer for ever removes exactly the gold statements: the
/// request with gold retention 0 is the full request of the tables outside
/// the gold layer, their statements unchanged and in the same order.
pub proof fn gold_kept_forever_drops_gold_statements(tables: Seq<Seq<char>>, c: VacuumConfig)
    ensures
        vacuum_text(
            tables,
            (VacuumConfig { bronze: c.bronze, silver: c.silver, gold: 0 }).layers(),
        ) == vacuum_text(non_gold(tables), c.layers()),
    decreases tables.len(),
{
    if tables.len() > 0 {
        gold_kept_forever_drops_gold_statements(tables.drop_last(), c);
        lemma_gold_kept_table(tables.last(), c);
        let rest = non_gold(tables.drop_last());
        if !starts_with(tables.last(), "gold"@) {
            let ng = rest.push(tables.last());
            assert(ng.drop_last() =~= rest);
            assert(ng.last() == tables.last());
        } else {
            let c0 = VacuumConfig { bronze: c.bronze, silver: c.silver, gold: 0 };
            assert(vacuum_text(tables, c0.layers()) =~= vacuum_text(tables.drop_last(), c0.layers()));
        }
    }
}

/// The vacuum request of the schema with gold retention 0 is its request
/// with the gold retention of `c` once every gold deletion is removed: the
/// statements of the tables outside the gold layer, unchanged and in the same
/// order.
pub proof fn vacuum_request_with_gold_kept(c: VacuumConfig)
    ensures
        vacuum_text(
            table_names(),
            (VacuumConfig { bronze: c.bronze, silver: c.silver, gold: 0 }).layers(),
        ) == vacuum_text(non_gold(table_names()), c.layers()),
{
    gold_kept_forever_drops_gold_statements(table_names(), c);
}


/// The three layers are told apart by the first letter of their names.
proof fn lemma_layer_prefixes(t: Seq<char>)
    ensures
        starts_with(t, "bronze"@) ==> !starts_with(t, "silver"@) && !starts_with(t, "gold"@),
        starts_with(t, "silver"@) ==> !starts_with(t, "gold"@),
{
    reveal_strlit("gold");
    reveal_strlit("bronze");
    reveal_strlit("silver");
    if starts_with(t, "bronze"@) {
        assert(t.subrange(0, 6)[0] == t[0]);
        assert(t[0] == 'b');
        if starts_with(t, "silver"@) {
            assert(t.subrange(0, 6)[0] == t[0]);
        }
        if starts_with(t, "gold"@) {
            assert(t.subrange(0, 4)[0] == t[0]);
        }
    }
    if starts_with(t, "silver"@) {
        assert(t.subrange(0, 6)[0] == t[0]);
        assert(t[0] == 's');
        if starts_with(t, "gold"@) {
            assert(t.subrange(0, 4)[0] == t[0]);
        }
    }
}

/// Each table is vacuumed with the retention of its own layer: a table of
/// the bronze, silver or gold layer gets the one deletion of that layer's
/// retention, unless the retention is 0 or the table is kept whole; a table
/// of no layer gets no statement.
pub proof fn tables_are_vacuumed_with_their_layer_retention(t: Seq<char>, c: VacuumConfig)
    ensures
        table_statements(t, c.layers()) == (if starts_with(t, "bronze"@) {
            if c.bronze > 0 && !kept_whole(t) { delete_statement(t, c.bronze) } else { Seq::<char>::empty() }
        } else if starts_with(t, "silver"@) {
            if c.silver > 0 && !kept_whole(t) { delete_statement(t, c.silver) } else { Seq::<char>::empty() }
        } else if starts_with(t, "gold"@) {
            if c.gold > 0 && !kept_whole(t) { delete_statement(t, c.gold) } else { Seq::<char>::empty() }
        } else {
            Seq::<char>::empty()
        }),
{
    lemma_layer_prefixes(t);
    let l = c.layers();
    assert(l.drop_last().drop_last().drop_last() =~= Seq::<(Seq<char>, u64)>::empty());
    assert(l.drop_last().drop_last().last() == ("bronze"@, c.bronze));
    assert(l.drop_last().last() == ("silver"@, c.silver));
    assert(l.last() == ("gold"@, c.gold));
    let e = Seq::<char>::empty();
    assert(table_statements(t, l.drop_last().drop_last().drop_last()) == e);
    let s1 = table_statements(t, l.drop_last().drop_last());
    let s2 = table_statements(t, l.drop_last());
    assert(s1 == e + (if vacuumed(t, ("bronze"@, c.bronze)) { delete_statement(t, c.bronze) } else { e }));
    assert(s2 == s1 + (if vacuumed(t, ("silver"@, c.silver)) { delete_statement(t, c.silver) } else { e }));
    assert(table_statements(t, l) == s2 + (if vacuumed(t, ("gold"@, c.gold)) { delete_statement(t, c.gold) } else { e }));
    assert(table_statements(t, l) =~= (if starts_with(t, "bronze"@) {
            if c.bronze > 0 && !kept_whole(t) { delete_statement(t, c.bronze) } else { e }
        } else if starts_with(t, "silver"@) {
            if c.silver > 0 && !kept_whole(t) { delete_statement(t, c.silver) } else { e }
        } else if starts_with(t, "gold"@) {
            if c.gold > 0 && !kept_whole(t) { delete_statement(t, c.gold) } else { e }
        } else {
            e
        }));
}

} // verus!
