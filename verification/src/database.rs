//! The durable retry queue, backed by a single-file key-value store.
//!
//! The store is `pickledb` with its auto-dump policy: every mutating call
//! rewrites the database file (write-new-then-rename) before returning, so a
//! mutation that returns successfully is already on disk. The store itself is
//! opaque to verification; what the list it holds amounts to is named by
//! uninterpreted functions, and each method the queue logic calls is wrapped
//! with a contract stating what the store's source shows.
//!
//! One machine-state caveat runs through every dumping call: the store
//! stamps its temporary file with the seconds since the epoch and unwraps
//! that subtraction, so a system clock set before 1970 makes any dump
//! panic. That is the machine's state, not an input, and is not modelled
//! here.

use vstd::prelude::*;

verus! {

#[verifier::external_type_specification]
#[verifier::external_body]
pub struct ExPickleDb(pickledb::PickleDb);

#[verifier::external_type_specification]
#[verifier::external_body]
pub struct ExPickleDbError(pickledb::error::Error);

/// The string items of the list `name` in the store, in order.
pub uninterp spec fn db_list_view(db: pickledb::PickleDb, name: Seq<char>) -> Seq<Seq<char>>;

/// Whether the store holds a list under `name`.
pub uninterp spec fn db_has_list(db: pickledb::PickleDb, name: Seq<char>) -> bool;

/// Whether every item of the list `name` was written by this module's own
/// append, and so carries the one serialized form the store's by-value
/// operations compare against. A store file written by anything else (or
/// edited by hand) need not satisfy this; opening the queue re-establishes
/// it by rewriting the list.
pub uninterp spec fn db_list_canonical(db: pickledb::PickleDb, name: Seq<char>) -> bool;

/// Relies on `PickleDb::new`: builds a fresh, empty store (auto-dump, JSON);
/// no list exists in it.
#[verifier::external_body]
fn db_new(path: &str) -> (r: pickledb::PickleDb)
    ensures
        forall|name: Seq<char>| !db_has_list(r, name),
{
    pickledb::PickleDb::new(
        path,
        pickledb::PickleDbDumpPolicy::AutoDump,
        pickledb::SerializationMethod::Json,
    )
}

/// Relies on `PickleDb::load`: reads whatever store the file holds
/// (auto-dump, JSON). A missing file, or one whose text does not parse,
/// comes back as `Err`; nothing is known of loaded contents. Caveat: the
/// store library feeds the file's bytes to `str::from_utf8(..).unwrap()`,
/// so a file that is not valid UTF-8 makes this call panic rather than
/// fail. No `requires` can speak of a disk state; the caller of the
/// library must keep such a file away from `open` (the program moves one
/// aside before opening).
#[verifier::external_body]
fn db_load(path: &str) -> Result<pickledb::PickleDb, pickledb::error::Error> {
    pickledb::PickleDb::load(
        path,
        pickledb::PickleDbDumpPolicy::AutoDump,
        pickledb::SerializationMethod::Json,
    )
}

/// Relies on `PickleDb::lexists`: whether a list exists under `name`.
#[verifier::external_body]
fn db_lexists(db: &pickledb::PickleDb, name: &str) -> (r: bool)
    ensures
        r == db_has_list(*db, name@),
{
    db.lexists(name)
}

/// Relies on `PickleDb::lcreate`: on success the store holds a fresh, empty
/// list under `name` (anything previously under that key is gone).
#[verifier::external_body]
fn db_lcreate(db: &mut pickledb::PickleDb, name: &str) -> (r: Result<
    (),
    pickledb::error::Error,
>)
    ensures
        r is Ok ==> db_has_list(*final(db), name@) && db_list_view(*final(db), name@)
            == Seq::<Seq<char>>::empty() && db_list_canonical(*final(db), name@),
{
    match db.lcreate(name) {
        Ok(_) => Ok(()),
        Err(e) => Err(e),
    }
}

/// Relies on `PickleDb::ladd`: appends one string to the list `name`. Returns
/// true exactly when the item was appended (and dumped); on false the list is
/// unchanged in memory, whether it was missing or the dump failed and the
/// append was rolled back. Either way an append of this module's own
/// serialized form keeps the list canonical.
#[verifier::external_body]
fn db_ladd_str(db: &mut pickledb::PickleDb, name: &str, value: &str) -> (r: bool)
    ensures
        r ==> db_has_list(*old(db), name@) && db_has_list(*final(db), name@) && db_list_view(
            *final(db),
            name@,
        ) == db_list_view(*old(db), name@).push(value@),
        !r ==> db_has_list(*final(db), name@) == db_has_list(*old(db), name@) && db_list_view(
            *final(db),
            name@,
        ) == db_list_view(*old(db), name@),
        db_list_canonical(*old(db), name@) ==> db_list_canonical(*final(db), name@),
{
    db.ladd(name, &value).is_some()
}

/// Relies on `PickleDb::liter` (which requires the list to exist) and
/// `PickleDbListIterItem::get_item`: the items of a canonical list, in
/// order, decoded.
#[verifier::external_body]
fn db_list_strings(db: &pickledb::PickleDb, name: &str) -> (r: Vec<String>)
    requires
        db_has_list(*db, name@),
        db_list_canonical(*db, name@),
    ensures
        r@.map_values(|s: String| s@) == db_list_view(*db, name@),
{
    let mut out: Vec<String> = Vec::new();
    for item in db.liter(name) {
        if let Some(s) = item.get_item::<String>() {
            out.push(s);
        }
    }
    out
}

/// Relies on `PickleDb::lrem_value`: removes the first item of the list
/// equal to `value`. Items compare by their serialized form, so on a
/// canonical list this is exactly the first (oldest) occurrence of the
/// string. `Ok(false)` means the list was missing or held no such item and
/// nothing changed; on `Err` the dump failed and the removal was rolled
/// back.
#[verifier::external_body]
fn db_lrem_value_str(db: &mut pickledb::PickleDb, name: &str, value: &str) -> (r: Result<
    bool,
    pickledb::error::Error,
>)
    requires
        db_list_canonical(*old(db), name@),
    ensures
        db_list_canonical(*final(db), name@),
        r matches Ok(true) ==> db_has_list(*old(db), name@) && db_has_list(*final(db), name@)
            && db_list_view(*old(db), name@).contains(value@) && db_list_view(*final(db), name@)
            == remove_first(db_list_view(*old(db), name@), value@),
        r matches Ok(false) ==> db_has_list(*final(db), name@) == db_has_list(*old(db), name@)
            && db_list_view(*final(db), name@) == db_list_view(*old(db), name@) && (db_has_list(
            *old(db),
            name@,
        ) ==> !db_list_view(*old(db), name@).contains(value@)),
        r is Err ==> db_has_list(*final(db), name@) == db_has_list(*old(db), name@) && db_list_view(
            *final(db),
            name@,
        ) == db_list_view(*old(db), name@),
{
    db.lrem_value(name, &value)
}

/// Relies on `PickleDb::llen`: how many items the list holds (0 when
/// there is no list). On a canonical list every item decodes, so the count
/// is the length of the list's view; of any other list only a bound is
/// taken.
#[verifier::external_body]
fn db_llen(db: &pickledb::PickleDb, name: &str) -> (r: usize)
    ensures
        db_list_canonical(*db, name@) && db_has_list(*db, name@) ==> r == db_list_view(
            *db,
            name@,
        ).len(),
{
    db.llen(name)
}

/// Relies on `PickleDb::lpop` at position 0: takes the first item off the
/// list and decodes it. On a canonical list this is exact: a `Some` is the
/// oldest entry, removed, and a `None` (the list empty, or the dump failed
/// and the item was put back) leaves the list as it was. Of any other list
/// nothing is claimed of the outcome; whatever comes back, the recovery
/// pass in `PersistentQueue::open` re-appends it through a contracted
/// pass.
#[verifier::external_body]
fn db_lpop_front_str(db: &mut pickledb::PickleDb, name: &str) -> (r: Option<String>)
    ensures
        db_has_list(*final(db), name@) == db_has_list(*old(db), name@),
        db_list_canonical(*old(db), name@) ==> db_list_canonical(*final(db), name@),
        db_list_canonical(*old(db), name@) ==> (r matches Some(s) ==> (db_list_view(
            *old(db),
            name@,
        ).len() > 0 && s@ == db_list_view(*old(db), name@)[0] && db_list_view(*final(db), name@)
            == db_list_view(*old(db), name@).drop_first())),
        (db_list_canonical(*old(db), name@) && r is None) ==> db_list_view(*final(db), name@)
            == db_list_view(*old(db), name@),
        (db_list_canonical(*old(db), name@) && db_list_view(*old(db), name@).len() == 0) ==> r
            is None,
{
    db.lpop::<String>(name, 0)
}

/// `s` with its first occurrence of `x` (if any) removed.
pub open spec fn remove_first<T>(s: Seq<T>, x: T) -> Seq<T>
    decreases s.len(),
{
    if s.len() == 0 {
        s
    } else if s[0] == x {
        s.drop_first()
    } else {
        seq![s[0]] + remove_first(s.drop_first(), x)
    }
}

/// How many times `x` occurs in `s`.
pub open spec fn count_of<T>(s: Seq<T>, x: T) -> nat
    decreases s.len(),
{
    if s.len() == 0 {
        0
    } else {
        (if s[0] == x {
            1nat
        } else {
            0nat
        }) + count_of(s.drop_first(), x)
    }
}

pub proof fn lemma_count_of_push<T>(s: Seq<T>, x: T, y: T)
    ensures
        count_of(s.push(y), x) == count_of(s, x) + (if x == y {
            1nat
        } else {
            0nat
        }),
    decreases s.len(),
{
    assert(s.push(y).len() == s.len() + 1);
    assert(count_of(s.push(y), x) == (if s.push(y)[0] == x {
        1nat
    } else {
        0nat
    }) + count_of(s.push(y).drop_first(), x));
    if s.len() == 0 {
        assert(s.push(y)[0] == y);
        assert(s.push(y).drop_first() =~= Seq::<T>::empty());
        assert(count_of(s.push(y).drop_first(), x) == 0);
    } else {
        assert(s.push(y)[0] == s[0]);
        assert(s.push(y).drop_first() =~= s.drop_first().push(y));
        lemma_count_of_push(s.drop_first(), x, y);
        assert(count_of(s.push(y).drop_first(), x) == count_of(s.drop_first(), x) + (if x == y {
            1nat
        } else {
            0nat
        }));
    }
}

pub proof fn lemma_count_of_zero<T>(s: Seq<T>, x: T)
    ensures
        (count_of(s, x) == 0) <==> !s.contains(x),
    decreases s.len(),
{
    if s.len() > 0 {
        lemma_count_of_zero(s.drop_first(), x);
        if s[0] == x {
            assert(s.contains(x));
        } else {
            if s.drop_first().contains(x) {
                let i = choose|i: int| 0 <= i < s.drop_first().len() && s.drop_first()[i] == x;
                assert(s[i + 1] == x);
                assert(s.contains(x));
            }
            if s.contains(x) {
                let i = choose|i: int| 0 <= i < s.len() && s[i] == x;
                assert(s.drop_first()[i - 1] == x);
                assert(s.drop_first().contains(x));
            }
        }
    }
}

pub proof fn lemma_remove_first_count<T>(s: Seq<T>, x: T)
    ensures
        s.contains(x) ==> count_of(remove_first(s, x), x) == count_of(s, x) - 1,
        !s.contains(x) ==> remove_first(s, x) == s,
    decreases s.len(),
{
    if s.len() == 0 {
    } else if s[0] == x {
        assert(s.contains(x));
    } else {
        lemma_remove_first_count(s.drop_first(), x);
        lemma_count_of_zero(s, x);
        lemma_count_of_zero(s.drop_first(), x);
        if s.contains(x) {
            let i = choose|i: int| 0 <= i < s.len() && s[i] == x;
            assert(s.drop_first()[i - 1] == x);
            assert(s.drop_first().contains(x));
            let r = seq![s[0]] + remove_first(s.drop_first(), x);
            assert(r.drop_first() =~= remove_first(s.drop_first(), x));
        } else {
            assert(!s.drop_first().contains(x)) by {
                if s.drop_first().contains(x) {
                    let i = choose|i: int|
                        0 <= i < s.drop_first().len() && s.drop_first()[i] == x;
                    assert(s[i + 1] == x);
                }
            }
            assert(seq![s[0]] + s.drop_first() =~= s);
        }
    }
}

/// An error of the queue's backing store: the mutation did not reach the disk
/// and the queue is unchanged.
#[derive(Debug)]
pub enum QueueError {
    Storage,
}

/// The re-append pass of `PersistentQueue::open`: puts the recovered
/// entries, oldest first, onto the queue's freshly created list. On success
/// the list holds exactly them, in order; on failure the store could not
/// persist an append and the pass stops there.
fn requeue(db: &mut pickledb::PickleDb, recovered: &Vec<String>) -> (r: Result<(), QueueError>)
    requires
        db_has_list(*old(db), "screenshots"@),
        db_list_canonical(*old(db), "screenshots"@),
        db_list_view(*old(db), "screenshots"@) == Seq::<Seq<char>>::empty(),
    ensures
        db_has_list(*final(db), "screenshots"@),
        db_list_canonical(*final(db), "screenshots"@),
        r is Ok ==> db_list_view(*final(db), "screenshots"@) == recovered@.map_values(
            |s: String| s@,
        ),
{
    let mut i: usize = 0;
    proof {
        assert(recovered@.map_values(|s: String| s@).take(0) =~= Seq::<Seq<char>>::empty());
    }
    while i < recovered.len()
        invariant
            i <= recovered.len(),
            db_has_list(*db, "screenshots"@),
            db_list_canonical(*db, "screenshots"@),
            db_list_view(*db, "screenshots"@) == recovered@.map_values(|s: String| s@).take(i as int),
        decreases recovered.len() - i,
    {
        if !db_ladd_str(db, "screenshots", recovered[i].as_str()) {
            return Err(QueueError::Storage);
        }
        proof {
            assert(recovered@.map_values(|s: String| s@).take(i + 1) =~= recovered@.map_values(
                |s: String| s@,
            ).take(i as int).push(recovered@[i as int]@));
        }
        i = i + 1;
    }
    proof {
        assert(recovered@.map_values(|s: String| s@).take(recovered.len() as int)
            =~= recovered@.map_values(|s: String| s@));
    }
    Ok(())
}

/// The durable list of screenshot paths awaiting redelivery.
pub struct PersistentQueue {
    db: pickledb::PickleDb,
}

impl PersistentQueue {
    /// The backing store holds the queue's list, every item of it written
    /// by the queue's own append.
    pub closed spec fn wf(&self) -> bool {
        db_has_list(self.db, "screenshots"@) && db_list_canonical(self.db, "screenshots"@)
    }

    /// The queued paths, oldest first.
    pub closed spec fn entries(&self) -> Seq<Seq<char>> {
        db_list_view(self.db, "screenshots"@)
    }

    /// Opens the queue store at `path`: an existing store file is loaded
    /// (its pending entries survive a restart), a missing or unparsable one
    /// is replaced by a fresh store (the caller must keep a file that is
    /// not valid UTF-8 away: see `db_load`). The entries are rewritten
    /// through the queue's own contracted append, so that every stored
    /// item carries the one serialized form the queue's by-value removal
    /// compares by; for a store this queue wrote, the rewrite provably
    /// keeps every pending entry, in order, or fails without discarding
    /// the tail.
    pub fn open(path: &str) -> (r: Result<PersistentQueue, QueueError>)
        ensures
            r matches Ok(q) ==> q.wf(),
    {
        let mut db = match db_load(path) {
            Ok(db) => db,
            Err(_) => db_new(path),
        };
        let ghost loaded = db_list_view(db, "screenshots"@);
        let ghost was_canonical = db_has_list(db, "screenshots"@) && db_list_canonical(
            db,
            "screenshots"@,
        );
        let mut recovered: Vec<String> = Vec::new();
        if db_lexists(&db, "screenshots") {
            let n = db_llen(&db, "screenshots");
            let mut i: usize = 0;
            proof {
                assert(recovered@.map_values(|s: String| s@) + loaded =~= loaded);
            }
            while i < n
                invariant
                    db_has_list(db, "screenshots"@),
                    was_canonical ==> db_list_canonical(db, "screenshots"@),
                    was_canonical ==> recovered@.map_values(|s: String| s@) + db_list_view(
                        db,
                        "screenshots"@,
                    ) == loaded,
                    was_canonical ==> n == loaded.len(),
                    was_canonical ==> db_list_view(db, "screenshots"@).len() + i == loaded.len(),
                    i <= n,
                decreases n - i,
            {
                let ghost before = db_list_view(db, "screenshots"@);
                let ghost recovered_before = recovered@.map_values(|s: String| s@);
                let before_len = db_llen(&db, "screenshots");
                match db_lpop_front_str(&mut db, "screenshots") {
                    Some(entry) => {
                        proof {
                            if was_canonical {
                                assert(before =~= seq![before[0]] + before.drop_first());
                            }
                        }
                        recovered.push(entry);
                        proof {
                            if was_canonical {
                                assert(recovered@.map_values(|s: String| s@)
                                    =~= recovered_before.push(before[0]));
                                assert(recovered_before.push(before[0]) + before.drop_first()
                                    =~= recovered_before + before);
                            }
                        }
                    },
                    None => {
                        // a pop of a canonical list that removed nothing
                        // means the store could not persist: stop rather
                        // than discard the unread tail. On any other list a
                        // shrinking count is an undecodable item removed,
                        // which the view never held.
                        if db_llen(&db, "screenshots") >= before_len {
                            return Err(QueueError::Storage);
                        }
                    },
                }
                i = i + 1;
            }
            proof {
                if was_canonical {
                    assert(db_list_view(db, "screenshots"@) =~= Seq::<Seq<char>>::empty());
                    assert(recovered@.map_values(|s: String| s@) + Seq::<Seq<char>>::empty()
                        =~= recovered@.map_values(|s: String| s@));
                }
            }
        }
        match db_lcreate(&mut db, "screenshots") {
            Ok(_) => {},
            Err(_) => {
                return Err(QueueError::Storage);
            },
        }
        match requeue(&mut db, &recovered) {
            Ok(_) => {},
            Err(e) => {
                return Err(e);
            },
        }
        proof {
            // the restart-preservation statement: a store this queue wrote
            // (its list canonical) opens to exactly the entries it held,
            // oldest first
            if was_canonical {
                assert(db_list_view(db, "screenshots"@) == loaded);
            }
        }
        Ok(PersistentQueue { db })
    }

    /// Appends a path at the end of the queue; on success the append is
    /// durable, on failure the queue is exactly as before.
    pub fn enqueue(&mut self, path: &str) -> (r: Result<(), QueueError>)
        requires
            old(self).wf(),
        ensures
            final(self).wf(),
            r is Ok ==> final(self).entries() == old(self).entries().push(path@),
            r is Err ==> final(self).entries() == old(self).entries(),
    {
        if db_ladd_str(&mut self.db, "screenshots", path) {
            Ok(())
        } else {
            Err(QueueError::Storage)
        }
    }

    /// A snapshot of the queued paths, oldest first.
    pub fn list(&self) -> (r: Vec<String>)
        requires
            self.wf(),
        ensures
            r@.map_values(|s: String| s@) == self.entries(),
    {
        db_list_strings(&self.db, "screenshots")
    }

    /// Removes the first (oldest) entry equal to `path`. `Ok(true)` means one
    /// entry was removed, durably; `Ok(false)` that no entry matched; on
    /// failure the queue is exactly as before.
    pub fn remove_value(&mut self, path: &str) -> (r: Result<bool, QueueError>)
        requires
            old(self).wf(),
        ensures
            final(self).wf(),
            r matches Ok(true) ==> old(self).entries().contains(path@) && final(self).entries()
                == remove_first(old(self).entries(), path@),
            r matches Ok(false) ==> final(self).entries() == old(self).entries() && !old(
                self,
            ).entries().contains(path@),
            r is Err ==> final(self).entries() == old(self).entries(),
    {
        match db_lrem_value_str(&mut self.db, "screenshots", path) {
            Ok(b) => Ok(b),
            Err(_) => Err(QueueError::Storage),
        }
    }
}

} // verus!
