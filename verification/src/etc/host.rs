//! `/etc/hosts`: addresses and the host names that stand for them.
use vstd::prelude::*;
use crate::text::{
    chars_eq, chars_of, lines, lines_exec, starts_with, starts_with_exec, string_from_chars,
    views, words, words_exec,
};

verus! {

/// A host name and the address it stands for.
#[derive(Debug, Clone, PartialOrd, PartialEq, Ord, Eq)]
pub struct Host {
    pub name: String,
    pub address: String,
}

impl View for Host {
    type V = (Seq<char>, Seq<char>);

    open spec fn view(&self) -> (Seq<char>, Seq<char>) {
        (self.name@, self.address@)
    }
}

/// The hosts of a vector.
pub open spec fn host_views(v: Seq<Host>) -> Seq<(Seq<char>, Seq<char>)> {
    v.map_values(|h: Host| h@)
}

/// The hosts of one row: none for a comment or a row of fewer than two words,
/// else one per name after the address.
pub open spec fn row_hosts(row: Seq<char>) -> Seq<(Seq<char>, Seq<char>)> {
    let f = words(row);
    if starts_with(row, seq!['#']) || f.len() < 2 {
        seq![]
    } else {
        f.skip(1).map_values(|name: Seq<char>| (name, f[0]))
    }
}

/// `v` without repetitions, each element where it first occurs.
pub open spec fn dedup(v: Seq<(Seq<char>, Seq<char>)>) -> Seq<(Seq<char>, Seq<char>)>
    decreases v.len(),
{
    if v.len() == 0 {
        seq![]
    } else {
        let d = dedup(v.drop_last());
        if d.contains(v.last()) {
            d
        } else {
            d.push(v.last())
        }
    }
}

/// The hosts of all rows, in order.
pub open spec fn rows_hosts(rows: Seq<Seq<char>>) -> Seq<(Seq<char>, Seq<char>)>
    decreases rows.len(),
{
    if rows.len() == 0 {
        seq![]
    } else {
        rows_hosts(rows.drop_last()) + row_hosts(rows.last())
    }
}

/// Reads one row of the hosts file.
pub fn parse_host_row(row: &str) -> (r: Vec<Host>)
    ensures
        host_views(r@) == row_hosts(row@),
{
    parse_host_row_chars(&chars_of(row))
}

fn parse_host_row_chars(row: &[char]) -> (r: Vec<Host>)
    ensures
        host_views(r@) == row_hosts(row@),
{
    let mut buffer: Vec<Host> = Vec::new();
    let hash: [char; 1] = ['#'];
    proof {
        assert(hash@ =~= seq!['#']);
    }
    if !starts_with_exec(row, &hash) {
        let fields = words_exec(row);
        let ghost f = views(fields@);
        if fields.len() >= 2 {
            let mut i: usize = 1;
            while i < fields.len()
                invariant
                    1 <= i <= fields@.len(),
                    f == views(fields@),
                    f.len() >= 2,
                    host_views(buffer@) == f.subrange(1, i as int).map_values(
                        |name: Seq<char>| (name, f[0]),
                    ),
                decreases fields@.len() - i,
            {
                let h = Host { name: string_from_chars(&fields[i]), address: string_from_chars(&fields[0]) };
                proof {
                    assert(f[i as int] == fields@[i as int]@);
                    assert(f[0] == fields@[0]@);
                }
                let ghost before = host_views(buffer@);
                buffer.push(h);
                proof {
                    assert(host_views(buffer@) =~= before.push((f[i as int], f[0])));
                    assert(f.subrange(1, i + 1).map_values(|name: Seq<char>| (name, f[0]))
                        =~= f.subrange(1, i as int).map_values(|name: Seq<char>| (name, f[0])).push((f[i as int], f[0])));
                }
                i = i + 1;
            }
            proof {
                assert(f.subrange(1, f.len() as int) =~= f.skip(1));
            }
            return buffer;
        }
    }
    proof {
        assert(host_views(buffer@) =~= row_hosts(row@));
    }
    buffer
}

/// Whether `v` holds a host equal to `h`.
fn contains_host(v: &Vec<Host>, h: &Host) -> (r: bool)
    ensures
        r == host_views(v@).contains(h@),
{
    let n = v.len();
    let mut i: usize = 0;
    while i < n
        invariant
            n == v@.len(),
            i <= n,
            forall|k: int| 0 <= k < i ==> host_views(v@)[k] != h@,
        decreases n - i,
    {
        if chars_eq(&chars_of(v[i].name.as_str()), &chars_of(h.name.as_str())) && chars_eq(
            &chars_of(v[i].address.as_str()),
            &chars_of(h.address.as_str()),
        ) {
            assert(host_views(v@)[i as int] == h@);
            return true;
        }
        i = i + 1;
    }
    false
}

impl Host {
    /// Reads the hosts file: the hosts of every row, each kept once, where it
    /// first occurs.
    pub fn parse_etc_file(contents: &str) -> (r: Vec<Host>)
        ensures
            host_views(r@) == dedup(rows_hosts(lines(contents@))),
    {
        let rows = lines_exec(&chars_of(contents));
        let ghost rs = views(rows@);
        let mut buffer: Vec<Host> = Vec::new();
        let mut i: usize = 0;
        while i < rows.len()
            invariant
                i <= rows@.len(),
                rs == views(rows@),
                host_views(buffer@) == dedup(rows_hosts(rs.take(i as int))),
            decreases rows@.len() - i,
        {
            let hosts = parse_host_row_chars(&rows[i]);
            let ghost done = rows_hosts(rs.take(i as int));
            let ghost row = row_hosts(rs[i as int]);
            proof {
                assert(rs[i as int] == rows@[i as int]@);
                assert(rs.take(i + 1).drop_last() =~= rs.take(i as int));
                assert(rows_hosts(rs.take(i + 1)) == done + row);
            }
            let mut j: usize = 0;
            while j < hosts.len()
                invariant
                    j <= hosts@.len(),
                    host_views(hosts@) == row,
                    host_views(buffer@) == dedup(done + row.take(j as int)),
                decreases hosts@.len() - j,
            {
                let ghost d = dedup(done + row.take(j as int));
                proof {
                    assert((done + row.take(j + 1)).drop_last() =~= done + row.take(j as int));
                    assert((done + row.take(j + 1)).last() == row[j as int]);
                    assert(host_views(hosts@)[j as int] == hosts@[j as int]@);
                }
                if !contains_host(&buffer, &hosts[j]) {
                    let h = Host { name: hosts[j].name.clone(), address: hosts[j].address.clone() };
                    let ghost before = host_views(buffer@);
                    buffer.push(h);
                    proof {
                        assert(host_views(buffer@) =~= before.push(row[j as int]));
                    }
                }
                j = j + 1;
            }
            proof {
                assert(row.take(row.len() as int) =~= row);
            }
            i = i + 1;
        }
        proof {
            assert(rs.take(rs.len() as int) =~= rs);
        }
        buffer
    }
}

/// The hosts read from a file hold no repetition.
pub proof fn parse_etc_file_has_no_duplicates(v: Seq<(Seq<char>, Seq<char>)>)
    ensures
        forall|i: int, j: int| 0 <= i < j < dedup(v).len() ==> dedup(v)[i] != dedup(v)[j],
        forall|x: (Seq<char>, Seq<char>)| dedup(v).contains(x) <==> v.contains(x),
    decreases v.len(),
{
    if v.len() > 0 {
        parse_etc_file_has_no_duplicates(v.drop_last());
        let d = dedup(v.drop_last());
        assert forall|x: (Seq<char>, Seq<char>)| dedup(v).contains(x) <==> v.contains(x) by {
            if v.contains(x) && x != v.last() {
                let q = choose|q: int| 0 <= q < v.len() && v[q] == x;
                assert(v.drop_last()[q] == x);
            }
            if v.drop_last().contains(x) {
                let q = choose|q: int| 0 <= q < v.drop_last().len() && v.drop_last()[q] == x;
                assert(v[q] == x);
            }
            if x == v.last() {
                assert(v[v.len() - 1] == x);
            }
            if !d.contains(v.last()) && dedup(v).contains(x) && x != v.last() {
                let q = choose|q: int| 0 <= q < dedup(v).len() && dedup(v)[q] == x;
                assert(d[q] == x);
            }
            if !d.contains(v.last()) && d.contains(x) {
                let q = choose|q: int| 0 <= q < d.len() && d[q] == x;
                assert(dedup(v)[q] == x);
            }
            if !d.contains(v.last()) && x == v.last() {
                assert(dedup(v)[d.len() as int] == x);
            }
        }
    }
}


/// Each host of a row is named by one of the words after the first and has
/// the first word as its address, one host per such word and in their order;
/// a comment row, or a row of fewer than two words, gives no host.
pub proof fn hosts_of_a_row(row: Seq<char>)
    ensures
        (starts_with(row, seq!['#']) || words(row).len() < 2) ==> row_hosts(row).len() == 0,
        !(starts_with(row, seq!['#']) || words(row).len() < 2) ==> {
            &&& row_hosts(row).len() + 1 == words(row).len()
            &&& forall|k: int|
                0 <= k < row_hosts(row).len() ==> (#[trigger] row_hosts(row)[k]).0 == words(row)[k + 1]
                    && row_hosts(row)[k].1 == words(row)[0]
        },
{
}

} // verus!
