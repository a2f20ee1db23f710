//! Users as `cut -d: -f1,3 /etc/passwd` lists them, with 32-bit uids.
use vstd::prelude::*;
use crate::etc::passwd::{cut_panics, cut_rows_panic, cut_users, cut_users_exec, kept_rows, kept_rows_exec};
use crate::etc::Error;
use crate::text::{chars_of, lines};

verus! {

/// A user name and its uid.
#[derive(Debug, Clone, PartialOrd, PartialEq, Ord, Eq)]
pub struct User {
    pub name: String,
    pub uid: i32,
}

/// The (name, uid) pairs of users.
pub open spec fn user_views(v: Seq<User>) -> Seq<(Seq<char>, int)> {
    v.map_values(|u: User| (u.name@, u.uid as int))
}

/// Reads the output of `cut -d: -f1,3 /etc/passwd`: each row but comments and
/// empty rows is `name:uid`; an error when a uid is not a 32-bit integer.
pub fn parse_cut_output(output: &str) -> (r: Result<Vec<User>, Error>)
    requires
        !cut_panics(kept_rows(lines(output@), true), i32::MIN as int, i32::MAX as int),
    ensures
        r matches Ok(v) ==> cut_users(kept_rows(lines(output@), true), i32::MIN as int, i32::MAX as int)
            == Some(user_views(v@)),
        r is Err ==> cut_users(kept_rows(lines(output@), true), i32::MIN as int, i32::MAX as int) is None
            && r == Err::<Vec<User>, Error>(Error::ParseInt),
{
    let rows = kept_rows_exec(&chars_of(output), true);
    let pairs = match cut_users_exec(&rows, -2147483648, 2147483647) {
        Some(p) => p,
        None => return Err(Error::ParseInt),
    };
    let ghost all = pairs@.map_values(|p: (String, i128)| (p.0@, p.1 as int));
    let mut r: Vec<User> = Vec::new();
    let mut i: usize = 0;
    while i < pairs.len()
        invariant
            i <= pairs@.len(),
            all == pairs@.map_values(|p: (String, i128)| (p.0@, p.1 as int)),
            forall|k: int| 0 <= k < pairs@.len() ==> -2147483648 <= #[trigger] pairs@[k].1 <= 2147483647,
            user_views(r@) == all.take(i as int),
        decreases pairs@.len() - i,
    {
        let u = User { name: pairs[i].0.clone(), uid: pairs[i].1 as i32 };
        let ghost before = user_views(r@);
        r.push(u);
        proof {
            assert(user_views(r@) =~= before.push(all[i as int]));
            assert(all.take(i + 1) =~= all.take(i as int).push(all[i as int]));
        }
        i = i + 1;
    }
    proof {
        assert(all.take(all.len() as int) =~= all);
    }
    Ok(r)
}

} // verus!

verus! {

/// Whether the output of `cut -d: -f1,3 /etc/passwd` can be read without a
/// panic: every row but comments and empty rows has a uid field, up to the
/// first uid that does not parse.
pub fn cut_output_readable(output: &str) -> (r: bool)
    ensures
        r == !cut_panics(kept_rows(lines(output@), true), i32::MIN as int, i32::MAX as int),
{
    let rows = kept_rows_exec(&chars_of(output), true);
    !cut_rows_panic(&rows, -2147483648, 2147483647)
}

} // verus!
