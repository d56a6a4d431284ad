//! Locations of the files the backend keeps under its data directory.
use vstd::prelude::*;

verus! {

/// File name of the database that holds conversations and settings.
pub const DB_NAME: &'static str = "data_store.sqlite";

/// The path of the entry `name` inside the directory `dir`: joined with one
/// `/`, unless `dir` is empty or already ends with one.
pub open spec fn path_in(dir: Seq<char>, name: Seq<char>) -> Seq<char> {
    if dir.len() == 0 || dir.last() == '/' {
        dir + name
    } else {
        dir + seq!['/'] + name
    }
}

/// The path of the entry `name` inside the directory `dir`.
pub fn join_path(dir: &str, name: &str) -> (r: String)
    ensures
        r@ == path_in(dir@, name@),
{
    let mut r = dir.to_owned();
    let n = dir.unicode_len();
    if n > 0 && dir.get_char(n - 1) != '/' {
        r.append("/");
        proof {
            reveal_strlit("/");
        }
    }
    r.append(name);
    r
}

/// The path of the database file inside the data directory `data_dir`.
pub fn get_db_path(data_dir: &str) -> (r: String)
    ensures
        r@ == path_in(data_dir@, DB_NAME@),
{
    join_path(data_dir, DB_NAME)
}

} // verus!
