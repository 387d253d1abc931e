use vstd::prelude::*;
use crate::text::same_text;

verus! {

/// Summary of one registered connection. `connection_time` is in seconds
/// since the Unix epoch.
#[derive(Debug, Clone)]
pub struct DatabaseInfo {
    pub name: String,
    pub url: String,
    pub connected: bool,
    pub connection_time: Option<i64>,
}

/// What the registry knows of one record.
pub struct RecordView<H> {
    pub name: Seq<char>,
    pub url: Seq<char>,
    pub connected: bool,
    pub connection_time: Option<i64>,
    pub db: H,
}

impl DatabaseInfo {
    /// A copy that keeps every field.
    pub fn duplicate(&self) -> (r: DatabaseInfo)
        ensures
            r.name@ == self.name@,
            r.url@ == self.url@,
            r.connected == self.connected,
            r.connection_time == self.connection_time,
    {
        DatabaseInfo {
            name: self.name.clone(),
            url: self.url.clone(),
            connected: self.connected,
            connection_time: self.connection_time,
        }
    }
}

struct DatabaseConnection<H> {
    info: DatabaseInfo,
    db: H,
}

/// The next step of adding a connection under a name.
#[derive(Debug, Clone, Copy, PartialEq, Eq, Structural)]
pub enum AddStep {
    /// The name is registered already: nothing is to be done.
    AlreadyRegistered,
    /// The name is free: connect, then hand the outcome to `add_database`.
    Connect,
}

/// The registry of live connections, keyed by name. Each record holds a
/// handle `H` to the connection's storage capability.
pub struct DatabaseManager<H> {
    databases: Vec<DatabaseConnection<H>>,
}

pub open spec fn names_unique<H>(s: Seq<RecordView<H>>) -> bool {
    forall|i: int, j: int| 0 <= i < j < s.len() ==> s[i].name != s[j].name
}

pub open spec fn has_name<H>(s: Seq<RecordView<H>>, n: Seq<char>) -> bool {
    exists|i: int| 0 <= i < s.len() && s[i].name == n
}

/// The record named `n`, if there is one.
pub open spec fn lookup<H>(s: Seq<RecordView<H>>, n: Seq<char>) -> Option<RecordView<H>> {
    if has_name(s, n) {
        Some(s[choose|i: int| 0 <= i < s.len() && s[i].name == n])
    } else {
        None
    }
}

/// The record that an empty target resolves to: the one named `default`
/// if there is one, else the only record if there is exactly one, else
/// none. With two or more records and none named `default` the caller
/// must name the target.
pub open spec fn default_record<H>(s: Seq<RecordView<H>>) -> Option<RecordView<H>> {
    if has_name(s, "default"@) {
        lookup(s, "default"@)
    } else if s.len() == 1 {
        Some(s[0])
    } else {
        None
    }
}

/// The record that a target resolves to; an empty target means the default.
pub open spec fn resolve<H>(s: Seq<RecordView<H>>, target: Option<Seq<char>>) -> Option<
    RecordView<H>,
> {
    match target {
        Some(n) => if n.len() > 0 {
            lookup(s, n)
        } else {
            default_record(s)
        },
        None => default_record(s),
    }
}

/// The records after adding `r`: unchanged if its name is registered.
pub open spec fn after_add<H>(s: Seq<RecordView<H>>, r: RecordView<H>) -> Seq<RecordView<H>> {
    if has_name(s, r.name) {
        s
    } else {
        s.push(r)
    }
}

/// The records after removing the one named `n`, if any.
pub open spec fn after_remove<H>(s: Seq<RecordView<H>>, n: Seq<char>) -> Seq<RecordView<H>> {
    s.filter(|r: RecordView<H>| r.name != n)
}

/// How many records carry the name `n`.
pub open spec fn count_named<H>(s: Seq<RecordView<H>>, n: Seq<char>) -> nat {
    s.filter(|r: RecordView<H>| r.name == n).len()
}

impl<H> DatabaseManager<H> {
    pub closed spec fn records(&self) -> Seq<RecordView<H>> {
        self.databases@.map_values(
            |c: DatabaseConnection<H>|
                RecordView {
                    name: c.info.name@,
                    url: c.info.url@,
                    connected: c.info.connected,
                    connection_time: c.info.connection_time,
                    db: c.db,
                },
        )
    }

    pub open spec fn wf(&self) -> bool {
        names_unique(self.records())
    }

    pub fn new() -> (r: Self)
        ensures
            r.records() == Seq::<RecordView<H>>::empty(),
            r.wf(),
    {
        let r = DatabaseManager { databases: Vec::new() };
        assert(r.records() =~= Seq::<RecordView<H>>::empty());
        r
    }

    /// Position of the record named `name`.
    fn position(&self, name: &str) -> (r: Option<usize>)
        ensures
            r matches Some(i) ==> i < self.records().len() && self.records()[i as int].name
                == name@,
            r is None <==> !has_name(self.records(), name@),
    {
        let mut i: usize = 0;
        while i < self.databases.len()
            invariant
                i <= self.databases.len(),
                forall|k: int| 0 <= k < i ==> self.records()[k].name != name@,
            decreases self.databases.len() - i,
        {
            if same_text(self.databases[i].info.name.as_str(), name) {
                return Some(i);
            }
            i = i + 1;
        }
        None
    }

    /// Whether a record is registered under `name`.
    pub fn contains(&self, name: &str) -> (r: bool)
        ensures
            r == has_name(self.records(), name@),
    {
        self.position(name).is_some()
    }

    /// Decides what adding a connection under `name` takes.
    pub fn plan_add(&self, name: &str) -> (r: AddStep)
        ensures
            r == AddStep::AlreadyRegistered <==> has_name(self.records(), name@),
    {
        if self.contains(name) {
            AddStep::AlreadyRegistered
        } else {
            AddStep::Connect
        }
    }

    /// Completes adding a connection with the outcome of the connect
    /// attempt. A registered name is left as it is; a failed attempt adds
    /// nothing and hands its error back; a successful one adds a connected
    /// record made at `connection_time`.
    pub fn add_database<E>(
        &mut self,
        name: String,
        url: String,
        connection_time: i64,
        outcome: Result<H, E>,
    ) -> (r: Result<(), E>)
        requires
            old(self).wf(),
        ensures
            final(self).wf(),
            has_name(old(self).records(), name@) ==> r is Ok && final(self).records() == old(
                self,
            ).records(),
            !has_name(old(self).records(), name@) ==> match outcome {
                Ok(db) => r is Ok && final(self).records() == after_add(
                    old(self).records(),
                    RecordView {
                        name: name@,
                        url: url@,
                        connected: true,
                        connection_time: Some(connection_time),
                        db,
                    },
                ),
                Err(e) => r == Err::<(), E>(e) && final(self).records() == old(self).records(),
            },
    {
        if self.contains(name.as_str()) {
            return Ok(());
        }
        match outcome {
            Ok(db) => {
                let info = DatabaseInfo {
                    name,
                    url,
                    connected: true,
                    connection_time: Some(connection_time),
                };
                let ghost before = self.records();
                self.databases.push(DatabaseConnection { info, db });
                proof {
                    let rec = self.records().last();
                    assert(self.records() =~= before.push(rec));
                }
                Ok(())
            },
            Err(e) => Err(e),
        }
    }

    /// The handle of the connection named `name`.
    pub fn get_database(&self, name: &str) -> (r: Option<&H>)
        requires
            self.wf(),
        ensures
            r matches Some(h) ==> lookup(self.records(), name@) matches Some(rec) && rec.db
                == *h,
            r is None <==> lookup(self.records(), name@) is None,
    {
        match self.position(name) {
            Some(i) => {
                proof {
                    let s = self.records();
                    let j = choose|j: int| 0 <= j < s.len() && s[j].name == name@;
                    assert(j == i as int);
                }
                Some(&self.databases[i].db)
            },
            None => None,
        }
    }

    /// The handle that an empty target resolves to; see `default_record`.
    pub fn get_default_database(&self) -> (r: Option<&H>)
        requires
            self.wf(),
        ensures
            r matches Some(h) ==> default_record(self.records()) matches Some(rec) && rec.db
                == *h,
            r is None <==> default_record(self.records()) is None,
    {
        let d = self.get_database("default");
        if d.is_some() {
            return d;
        }
        if self.databases.len() == 1 {
            Some(&self.databases[0].db)
        } else {
            None
        }
    }

    /// The handle named by `name`, or the default one when it is absent or empty.
    pub fn get_database_or_default(&self, name: Option<&str>) -> (r: Option<&H>)
        requires
            self.wf(),
        ensures
            r matches Some(h) ==> resolve(self.records(), opt_text(name)) matches Some(rec)
                && rec.db == *h,
            r is None <==> resolve(self.records(), opt_text(name)) is None,
    {
        match name {
            Some(n) => if !n.is_empty() {
                self.get_database(n)
            } else {
                self.get_default_database()
            },
            None => self.get_default_database(),
        }
    }

    /// A summary of every record, in registration order.
    pub fn list_databases(&self) -> (r: Vec<DatabaseInfo>)
        ensures
            r.len() == self.records().len(),
            forall|i: int|
                0 <= i < r.len() ==> {
                    let rec = #[trigger] self.records()[i];
                    &&& r[i].name@ == rec.name
                    &&& r[i].url@ == rec.url
                    &&& r[i].connected == rec.connected
                    &&& r[i].connection_time == rec.connection_time
                },
    {
        let mut out: Vec<DatabaseInfo> = Vec::new();
        let mut i: usize = 0;
        while i < self.databases.len()
            invariant
                i <= self.databases.len(),
                out.len() == i,
                forall|k: int|
                    0 <= k < i ==> {
                        let rec = #[trigger] self.records()[k];
                        &&& out[k].name@ == rec.name
                        &&& out[k].url@ == rec.url
                        &&& out[k].connected == rec.connected
                        &&& out[k].connection_time == rec.connection_time
                    },
            decreases self.databases.len() - i,
        {
            out.push(self.databases[i].info.duplicate());
            i = i + 1;
        }
        out
    }

    /// Removes the record named `name`; tells whether there was one.
    pub fn remove_database(&mut self, name: &str) -> (r: bool)
        requires
            old(self).wf(),
        ensures
            final(self).wf(),
            r == has_name(old(self).records(), name@),
            final(self).records() == after_remove(old(self).records(), name@),
    {
        let ghost before = self.records();
        match self.position(name) {
            Some(i) => {
                self.databases.remove(i);
                proof {
                    lemma_remove_unique(before, i as int, name@);
                    assert(self.records() =~= before.remove(i as int));
                }
                true
            },
            None => {
                proof {
                    lemma_filter_keeps_all(before, name@);
                }
                false
            },
        }
    }

    /// How many connections are registered.
    pub fn database_count(&self) -> (r: usize)
        ensures
            r == self.records().len(),
    {
        self.databases.len()
    }
}

/// The text of an optional string.
pub open spec fn opt_text(name: Option<&str>) -> Option<Seq<char>> {
    match name {
        Some(n) => Some(n@),
        None => None,
    }
}

proof fn lemma_filter_keeps_all<H>(s: Seq<RecordView<H>>, n: Seq<char>)
    requires
        !has_name(s, n),
    ensures
        after_remove(s, n) == s,
    decreases s.len(),
{
    reveal(Seq::filter);
    if s.len() > 0 {
        assert(!has_name(s.drop_last(), n)) by {
            if has_name(s.drop_last(), n) {
                let i = choose|i: int| 0 <= i < s.drop_last().len() && s.drop_last()[i].name == n;
                assert(s[i].name == n);
            }
        }
        lemma_filter_keeps_all(s.drop_last(), n);
        assert(s.last().name != n);
        assert(s.drop_last().push(s.last()) =~= s);
    }
}

proof fn lemma_remove_unique<H>(s: Seq<RecordView<H>>, i: int, n: Seq<char>)
    requires
        names_unique(s),
        0 <= i < s.len(),
        s[i].name == n,
    ensures
        after_remove(s, n) == s.remove(i),
        names_unique(s.remove(i)),
    decreases s.len(),
{
    reveal(Seq::filter);
    let t = s.drop_last();
    if i == s.len() - 1 {
        assert(!has_name(t, n)) by {
            if has_name(t, n) {
                let k = choose|k: int| 0 <= k < t.len() && t[k].name == n;
                assert(s[k].name == s[i].name);
            }
        }
        lemma_filter_keeps_all(t, n);
        assert(s.remove(i) =~= t);
    } else {
        lemma_remove_unique(t, i, n);
        assert(s.last().name != n);
        assert(t.remove(i).push(s.last()) =~= s.remove(i));
    }
}

/// Adding under a name that is registered changes nothing, so a second add
/// of the same name keeps exactly one record for it and never connects again.
pub proof fn lemma_add_idempotent<H>(
    s: Seq<RecordView<H>>,
    first: RecordView<H>,
    second: RecordView<H>,
)
    requires
        names_unique(s),
        first.name == second.name,
    ensures
        has_name(after_add(s, first), second.name),
        after_add(after_add(s, first), second) == after_add(s, first),
        names_unique(after_add(s, first)),
        count_named(after_add(s, first), first.name) == 1,
{
    let t = after_add(s, first);
    if !has_name(s, first.name) {
        assert(t[s.len() as int] == first);
        assert forall|i: int, j: int| 0 <= i < j < t.len() implies t[i].name != t[j].name by {
            if j == s.len() {
                assert(s[i].name != first.name);
            }
        }
    }
    lemma_unique_count_one(t, first.name);
}

proof fn lemma_unique_count_one<H>(s: Seq<RecordView<H>>, n: Seq<char>)
    requires
        names_unique(s),
        has_name(s, n),
    ensures
        count_named(s, n) == 1,
    decreases s.len(),
{
    reveal(Seq::filter);
    let t = s.drop_last();
    assert(names_unique(t));
    if s.last().name == n {
        assert(!has_name(t, n)) by {
            if has_name(t, n) {
                let k = choose|k: int| 0 <= k < t.len() && t[k].name == n;
                assert(s[k].name == s[s.len() - 1].name);
            }
        }
        lemma_count_zero(t, n);
    } else {
        assert(has_name(t, n)) by {
            let k = choose|k: int| 0 <= k < s.len() && s[k].name == n;
            assert(t[k].name == n);
        }
        lemma_unique_count_one(t, n);
    }
}

proof fn lemma_count_zero<H>(s: Seq<RecordView<H>>, n: Seq<char>)
    requires
        !has_name(s, n),
    ensures
        count_named(s, n) == 0,
    decreases s.len(),
{
    reveal(Seq::filter);
    if s.len() > 0 {
        let t = s.drop_last();
        assert(!has_name(t, n)) by {
            if has_name(t, n) {
                let k = choose|k: int| 0 <= k < t.len() && t[k].name == n;
                assert(s[k].name == n);
            }
        }
        lemma_count_zero(t, n);
    }
}

/// With no record named `default`, an empty target resolves to the only
/// record when there is exactly one, and to nothing when there are none or
/// several: the outcome depends on the records alone, never on their order
/// in memory.
pub proof fn lemma_default_resolution<H>(s: Seq<RecordView<H>>)
    requires
        !has_name(s, "default"@),
    ensures
        s.len() == 1 ==> resolve(s, None) == Some(s[0]) && resolve(s, Some(Seq::empty())) == Some(
            s[0],
        ),
        s.len() != 1 ==> resolve(s, None) is None && resolve(s, Some(Seq::empty())) is None,
{
}

/// A record named `default` always wins the resolution of an empty target.
pub proof fn lemma_default_name_wins<H>(s: Seq<RecordView<H>>)
    requires
        has_name(s, "default"@),
        names_unique(s),
    ensures
        resolve(s, None) matches Some(r) && r.name == "default"@,
{
    let i = choose|i: int| 0 <= i < s.len() && s[i].name == "default"@;
}

} // verus!
