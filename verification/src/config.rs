//! The tracker's configuration: the directories of the databases it knows.
use vstd::prelude::*;

use crate::paths::tasks_file_path;
use crate::text::str_eq;

verus! {

/// The tracker's configuration.
pub struct Config {
    pub databases: Vec<String>,
}

/// The views of a sequence of strings.
pub open spec fn string_views(s: Seq<String>) -> Seq<Seq<char>> {
    s.map_values(|d: String| d@)
}

impl View for Config {
    type V = Seq<Seq<char>>;

    open spec fn view(&self) -> Seq<Seq<char>> {
        string_views(self.databases@)
    }
}

/// The database list once `db` is in it: unchanged when it was there, else
/// with `db` added at the end.
pub open spec fn with_database(dbs: Seq<Seq<char>>, db: Seq<char>) -> Seq<Seq<char>> {
    if dbs.contains(db) {
        dbs
    } else {
        dbs.push(db)
    }
}

/// Whether a database entry differs from `db`.
pub open spec fn differs_from(db: Seq<char>) -> spec_fn(Seq<char>) -> bool {
    |d: Seq<char>| d != db
}

/// The database list with every entry equal to `db` removed, in order.
pub open spec fn without_database(dbs: Seq<Seq<char>>, db: Seq<char>) -> Seq<Seq<char>> {
    dbs.filter(differs_from(db))
}

impl Config {
    /// A configuration that lists only `db_dir`.
    pub fn with_single_database(db_dir: String) -> (c: Config)
        ensures
            c@ == seq![db_dir@],
    {
        let mut databases: Vec<String> = Vec::new();
        databases.push(db_dir);
        let c = Config { databases };
        assert(c@ =~= seq![c.databases@[0]@]);
        c
    }

    /// Whether `db` is one of the listed databases.
    pub fn contains_database(&self, db: &str) -> (r: bool)
        ensures
            r == self@.contains(db@),
    {
        let n = self.databases.len();
        let mut i: usize = 0;
        while i < n
            invariant
                n == self@.len(),
                i <= n,
                forall|k: int| 0 <= k < i ==> #[trigger] self@[k] != db@,
            decreases n - i,
        {
            if str_eq(self.databases[i].as_str(), db) {
                assert(self@[i as int] == db@);
                return true;
            }
            i = i + 1;
        }
        false
    }

    /// Lists `db_dir` unless it is listed already; returns whether it was
    /// added.
    pub fn ensure_database(&mut self, db_dir: String) -> (added: bool)
        ensures
            added == !old(self)@.contains(db_dir@),
            final(self)@ == with_database(old(self)@, db_dir@),
    {
        if self.contains_database(db_dir.as_str()) {
            false
        } else {
            let ghost d = db_dir@;
            self.databases.push(db_dir);
            assert(final(self)@ =~= old(self)@.push(d));
            true
        }
    }

    /// Removes every entry equal to `db`; the others stay, in order.
    pub fn remove_database(&mut self, db: &str)
        ensures
            final(self)@ == without_database(old(self)@, db@),
    {
        let mut rest: Vec<String> = Vec::new();
        std::mem::swap(&mut rest, &mut self.databases);
        let ghost all = string_views(rest@);
        let n = rest.len();
        let mut i: usize = 0;
        while i < n
            invariant
                n == all.len(),
                i <= n,
                rest@.len() == n - i,
                string_views(rest@) =~= all.skip(i as int),
                self@ =~= all.take(i as int).filter(differs_from(db@)),
            decreases n - i,
        {
            let ghost before_rest = rest@;
            let ghost before_kept = self.databases@;
            proof {
                assert(string_views(rest@)[0] == all[i as int]);
            }
            let d = rest.remove(0);
            proof {
                assert(d@ == all[i as int]);
                assert(string_views(rest@) =~= all.skip(i + 1)) by {
                    assert forall|k: int| 0 <= k < rest@.len() implies #[trigger] rest@[k] == before_rest[k + 1] by {}
                    assert forall|k: int| 0 <= k < rest@.len() implies #[trigger] string_views(rest@)[k] == all.skip(i as int)[k + 1] by {
                        assert(string_views(before_rest)[k + 1] == before_rest[k + 1]@);
                    }
                }
                assert(all.take(i + 1).drop_last() =~= all.take(i as int));
                assert(all.take(i + 1).last() == all[i as int]);
                reveal_with_fuel(Seq::<_>::filter, 1);
                assert(all.take(i + 1).filter(differs_from(db@)) == if differs_from(db@)(all[i as int]) {
                    all.take(i as int).filter(differs_from(db@)).push(all[i as int])
                } else {
                    all.take(i as int).filter(differs_from(db@))
                });
            }
            let ghost dv = d@;
            if !str_eq(d.as_str(), db) {
                self.databases.push(d);
                proof {
                    assert(string_views(self.databases@) =~= string_views(before_kept).push(dv));
                }
            }
            i = i + 1;
        }
        assert(all.take(n as int) =~= all);
    }

    /// The task file of each listed database, in order.
    pub fn task_files(&self) -> (files: Vec<String>)
        ensures
            files@.len() == self@.len(),
            forall|i: int| 0 <= i < files@.len() ==> #[trigger] files@[i]@ == self@[i] + "/tasks.json"@,
    {
        let mut files: Vec<String> = Vec::new();
        let n = self.databases.len();
        let mut i: usize = 0;
        while i < n
            invariant
                n == self@.len(),
                i <= n,
                files@.len() == i,
                forall|k: int| 0 <= k < i ==> #[trigger] files@[k]@ == self@[k] + "/tasks.json"@,
            decreases n - i,
        {
            files.push(tasks_file_path(self.databases[i].as_str()));
            i = i + 1;
        }
        files
    }

    /// The first listed database, where new tasks go.
    pub fn first_database(&self) -> (r: Option<&String>)
        ensures
            match r {
                Some(d) => self@.len() > 0 && d@ == self@[0],
                None => self@.len() == 0,
            },
    {
        if self.databases.len() > 0 {
            Some(&self.databases[0])
        } else {
            None
        }
    }
}

} // verus!

verus! {

/// Listing a database makes the configuration contain it.
pub proof fn ensure_lists_database(dbs: Seq<Seq<char>>, db: Seq<char>)
    ensures
        with_database(dbs, db).contains(db),
{
    if !dbs.contains(db) {
        assert(dbs.push(db)[dbs.len() as int] == db);
    }
}

/// Listing a database a second time changes nothing.
pub proof fn ensure_is_idempotent(dbs: Seq<Seq<char>>, db: Seq<char>)
    ensures
        with_database(with_database(dbs, db), db) == with_database(dbs, db),
{
    ensure_lists_database(dbs, db);
}

/// After a database is removed, the configuration does not contain it.
pub proof fn removal_unlists_database(dbs: Seq<Seq<char>>, db: Seq<char>)
    ensures
        !without_database(dbs, db).contains(db),
{
    broadcast use vstd::seq_lib::group_filter_ensures;
    if without_database(dbs, db).contains(db) {
        let i = choose|i: int| 0 <= i < without_database(dbs, db).len() && without_database(dbs, db)[i] == db;
        assert(differs_from(db)(without_database(dbs, db)[i]));
    }
}

/// Removing a database that was just listed, and was not listed before,
/// gives back the configuration there was before.
pub proof fn remove_after_ensure(dbs: Seq<Seq<char>>, db: Seq<char>)
    requires
        !dbs.contains(db),
    ensures
        without_database(with_database(dbs, db), db) == dbs,
{
    reveal_with_fuel(Seq::<_>::filter, 1);
    assert(dbs.push(db).drop_last() =~= dbs);
    all_differ_unchanged(dbs, db);
}

/// When no entry equals `db`, removing `db` changes nothing.
pub proof fn all_differ_unchanged(dbs: Seq<Seq<char>>, db: Seq<char>)
    requires
        !dbs.contains(db),
    ensures
        without_database(dbs, db) == dbs,
    decreases dbs.len(),
{
    reveal_with_fuel(Seq::<_>::filter, 1);
    if dbs.len() > 0 {
        let init = dbs.drop_last();
        if init.contains(db) {
            let i = choose|i: int| 0 <= i < init.len() && init[i] == db;
            assert(dbs[i] == db);
        }
        all_differ_unchanged(init, db);
        assert(dbs[dbs.len() - 1] != db);
        assert(init.push(dbs.last()) =~= dbs);
    }
}

/// Listing a database keeps every entry where it was and, when the database
/// was not listed, puts it last: the first entry, where new tasks go, stays
/// first.
pub proof fn ensure_appends(dbs: Seq<Seq<char>>, db: Seq<char>)
    ensures
        with_database(dbs, db).len() == if dbs.contains(db) { dbs.len() } else { dbs.len() + 1 },
        forall|i: int| 0 <= i < dbs.len() ==> #[trigger] with_database(dbs, db)[i] == dbs[i],
        !dbs.contains(db) ==> with_database(dbs, db)[dbs.len() as int] == db,
        !dbs.contains(db) ==> with_database(dbs, db) == dbs.push(db),
{
}

} // verus!
