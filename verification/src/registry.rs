use vstd::prelude::*;

verus! {

/// No username occurs twice among `entries`.
pub open spec fn distinct_names<V>(entries: Seq<(String, V)>) -> bool {
    forall|i: int, j: int|
        #![trigger entries[i], entries[j]]
        0 <= i < entries.len() && 0 <= j < entries.len() && i != j ==> entries[i].0@ != entries[j].0@
}

/// `entries[i]` is registered under `name`.
pub open spec fn named_at<V>(entries: Seq<(String, V)>, i: int, name: Seq<char>) -> bool {
    0 <= i < entries.len() && entries[i].0@ == name
}

/// The map from usernames to connections that `entries` stands for.
pub open spec fn entries_map<V>(entries: Seq<(String, V)>) -> Map<Seq<char>, V> {
    Map::new(
        |name: Seq<char>| exists|i: int| named_at(entries, i, name),
        |name: Seq<char>| entries[choose|i: int| named_at(entries, i, name)].1,
    )
}

/// The usernames of `entries`, in order.
pub open spec fn entry_names<V>(entries: Seq<(String, V)>) -> Seq<Seq<char>> {
    entries.map_values(|e: (String, V)| e.0@)
}

proof fn lemma_entry_lookup<V>(entries: Seq<(String, V)>, i: int)
    requires
        distinct_names(entries),
        0 <= i < entries.len(),
    ensures
        entries_map(entries).contains_key(entries[i].0@),
        entries_map(entries)[entries[i].0@] == entries[i].1,
{
    let name = entries[i].0@;
    assert(named_at(entries, i, name));
    let j = choose|j: int| named_at(entries, j, name);
    if j != i {
        assert(entries[i].0@ != entries[j].0@);
    }
}

proof fn lemma_entry_names<V>(entries: Seq<(String, V)>)
    requires
        distinct_names(entries),
    ensures
        entry_names(entries).no_duplicates(),
        entry_names(entries).len() == entries.len(),
        forall|name: Seq<char>|
            #[trigger] entries_map(entries).contains_key(name) <==> entry_names(entries).contains(name),
        entry_names(entries).len() == entries_map(entries).len(),
{
    let ord = entry_names(entries);
    assert forall|i: int, j: int| 0 <= i < ord.len() && 0 <= j < ord.len() && i != j implies ord[i] != ord[j] by {
        assert(entries[i].0@ != entries[j].0@);
    }
    assert forall|name: Seq<char>| #[trigger] entries_map(entries).contains_key(name) <==> ord.contains(name) by {
        if entries_map(entries).contains_key(name) {
            let i = choose|i: int| named_at(entries, i, name);
            assert(ord[i] == name);
        }
        if ord.contains(name) {
            let i = choose|i: int| 0 <= i < ord.len() && ord[i] == name;
            assert(named_at(entries, i, name));
        }
    }
    assert(entries_map(entries).dom() =~= ord.to_set());
    ord.unique_seq_to_set();
}

/// Replacing the connection of an entry, or adding an entry for a new name, updates
/// the map as `Map::insert` does.
proof fn lemma_entries_put<V>(before: Seq<(String, V)>, after: Seq<(String, V)>, i: int)
    requires
        distinct_names(before),
        distinct_names(after),
        0 <= i <= before.len(),
        i == before.len() ==> after == before.push(after[i]),
        i < before.len() ==> after == before.update(i, after[i]) && after[i].0@ == before[i].0@,
    ensures
        entries_map(after) == entries_map(before).insert(after[i].0@, after[i].1),
{
    let key = after[i].0@;
    let target = entries_map(before).insert(key, after[i].1);
    assert forall|k: Seq<char>| #[trigger] entries_map(after).contains_key(k) <==> target.contains_key(k) by {
        if entries_map(after).contains_key(k) {
            let j = choose|j: int| named_at(after, j, k);
            if j != i {
                assert(named_at(before, j, k));
            }
        }
        if entries_map(before).contains_key(k) {
            let j = choose|j: int| named_at(before, j, k);
            assert(named_at(after, j, k));
        }
        if k == key {
            assert(named_at(after, i, k));
        }
    }
    assert forall|k: Seq<char>| #[trigger] entries_map(after).contains_key(k) implies entries_map(after)[k] == target[k] by {
        let j = choose|j: int| named_at(after, j, k);
        lemma_entry_lookup(after, j);
        if j != i {
            assert(named_at(before, j, k));
            lemma_entry_lookup(before, j);
        }
    }
    assert(entries_map(after) =~= target);
}

/// Removing the entry at `i` removes its name from the map.
proof fn lemma_entries_remove<V>(before: Seq<(String, V)>, i: int)
    requires
        distinct_names(before),
        0 <= i < before.len(),
    ensures
        distinct_names(before.remove(i)),
        entries_map(before.remove(i)) == entries_map(before).remove(before[i].0@),
{
    let after = before.remove(i);
    let key = before[i].0@;
    let target = entries_map(before).remove(key);
    assert forall|a: int, b: int|
        #![trigger after[a], after[b]]
        0 <= a < after.len() && 0 <= b < after.len() && a != b implies after[a].0@ != after[b].0@ by {
        let a2 = if a < i { a } else { a + 1 };
        let b2 = if b < i { b } else { b + 1 };
        assert(before[a2].0@ != before[b2].0@);
    }
    assert forall|k: Seq<char>| #[trigger] entries_map(after).contains_key(k) <==> target.contains_key(k) by {
        if entries_map(after).contains_key(k) {
            let j = choose|j: int| named_at(after, j, k);
            let j2 = if j < i { j } else { j + 1 };
            assert(named_at(before, j2, k));
            assert(before[j2].0@ != before[i].0@);
        }
        if target.contains_key(k) {
            let j = choose|j: int| named_at(before, j, k);
            assert(j != i);
            let j2 = if j < i { j } else { j - 1 };
            assert(named_at(after, j2, k));
        }
    }
    assert forall|k: Seq<char>| #[trigger] entries_map(after).contains_key(k) implies entries_map(after)[k] == target[k] by {
        let j = choose|j: int| named_at(after, j, k);
        lemma_entry_lookup(after, j);
        let j2 = if j < i { j } else { j + 1 };
        assert(named_at(before, j2, k));
        lemma_entry_lookup(before, j2);
    }
    assert(entries_map(after) =~= target);
}

fn position<V>(entries: &Vec<(String, V)>, name: &String) -> (pos: Option<usize>)
    ensures
        pos matches Some(i) ==> named_at(entries@, i as int, name@),
        pos is None ==> !entries_map(entries@).contains_key(name@),
{
    let mut i: usize = 0;
    while i < entries.len()
        invariant
            i <= entries@.len(),
            forall|j: int| 0 <= j < i ==> entries@[j].0@ != name@,
        decreases entries@.len() - i,
    {
        if entries[i].0 == *name {
            return Some(i);
        }
        i = i + 1;
    }
    proof {
        if entries_map(entries@).contains_key(name@) {
            let j = choose|j: int| named_at(entries@, j, name@);
            assert(entries@[j].0@ != name@);
        }
    }
    None
}

/// The users who are connected to the chat, each with its connection.
///
/// A username is registered at most once; registering it again replaces its
/// connection, as a map keyed by username does.
pub struct Registry<V> {
    entries: Vec<(String, V)>,
}

impl<V> Registry<V> {
    #[verifier::type_invariant]
    spec fn well_formed(&self) -> bool {
        distinct_names(self.entries@)
    }

    /// The usernames in the order in which `members` hands the connections out.
    pub closed spec fn order(&self) -> Seq<Seq<char>> {
        entry_names(self.entries@)
    }
}

impl<V> View for Registry<V> {
    type V = Map<Seq<char>, V>;

    closed spec fn view(&self) -> Map<Seq<char>, V> {
        entries_map(self.entries@)
    }
}

impl<V> Registry<V> {
    /// An empty registry.
    pub fn new() -> (r: Self)
        ensures
            r@ == Map::<Seq<char>, V>::empty(),
    {
        let r = Registry { entries: Vec::new() };
        assert(r@ =~= Map::<Seq<char>, V>::empty());
        r
    }

    /// Whether `username` is registered.
    pub fn contains(&self, username: &str) -> (b: bool)
        ensures
            b == self@.contains_key(username@),
    {
        let name = username.to_owned();
        match position(&self.entries, &name) {
            Some(i) => {
                proof {
                    use_type_invariant(self);
                    lemma_entry_lookup(self.entries@, i as int);
                }
                true
            },
            None => false,
        }
    }

    /// The connection registered for `username`, if any.
    pub fn get(&self, username: &str) -> (v: Option<&V>)
        ensures
            match v {
                Some(v) => self@.contains_key(username@) && *v == self@[username@],
                None => !self@.contains_key(username@),
            },
    {
        let name = username.to_owned();
        match position(&self.entries, &name) {
            Some(i) => {
                proof {
                    use_type_invariant(self);
                    lemma_entry_lookup(self.entries@, i as int);
                }
                Some(&self.entries[i].1)
            },
            None => None,
        }
    }

    /// Registers `connection` for `username`, replacing and handing back the connection
    /// that was registered for it before, if any.
    pub fn insert(&mut self, username: String, connection: V) -> (previous: Option<V>)
        ensures
            final(self)@ == old(self)@.insert(username@, connection),
            match previous {
                Some(p) => old(self)@.contains_key(username@) && p == old(self)@[username@],
                None => !old(self)@.contains_key(username@),
            },
    {
        proof {
            use_type_invariant(&*self);
        }
        let ghost before = self.entries@;
        let mut entries: Vec<(String, V)> = Vec::new();
        std::mem::swap(&mut entries, &mut self.entries);
        let result = match position(&entries, &username) {
            Some(i) => {
                proof {
                    lemma_entry_lookup(before, i as int);
                }
                let old_entry = entries.remove(i);
                entries.insert(i, (username, connection));
                proof {
                    assert(entries@ =~= before.update(i as int, entries@[i as int]));
                    assert forall|a: int, b: int|
                        #![trigger entries@[a], entries@[b]]
                        0 <= a < entries@.len() && 0 <= b < entries@.len() && a != b
                        implies entries@[a].0@ != entries@[b].0@ by {
                        assert(before[a].0@ != before[b].0@);
                    }
                    lemma_entries_put(before, entries@, i as int);
                }
                Some(old_entry.1)
            },
            None => {
                entries.push((username, connection));
                proof {
                    let i = before.len() as int;
                    assert(entries@ =~= before.push(entries@[i]));
                    assert forall|a: int, b: int|
                        #![trigger entries@[a], entries@[b]]
                        0 <= a < entries@.len() && 0 <= b < entries@.len() && a != b
                        implies entries@[a].0@ != entries@[b].0@ by {
                        if a < i && b < i {
                            assert(before[a].0@ != before[b].0@);
                        } else if a < i {
                            assert(named_at(before, a, before[a].0@));
                        } else {
                            assert(named_at(before, b, before[b].0@));
                        }
                    }
                    lemma_entries_put(before, entries@, i);
                }
                None
            },
        };
        self.entries = entries;
        result
    }

    /// Unregisters `username` and hands back its connection; the username must be
    /// registered (the server's handler panics otherwise).
    pub fn remove(&mut self, username: &str) -> (connection: V)
        requires
            old(self)@.contains_key(username@),
        ensures
            final(self)@ == old(self)@.remove(username@),
            connection == old(self)@[username@],
    {
        proof {
            use_type_invariant(&*self);
        }
        let ghost before = self.entries@;
        let name = username.to_owned();
        let mut entries: Vec<(String, V)> = Vec::new();
        std::mem::swap(&mut entries, &mut self.entries);
        let i = position(&entries, &name).unwrap();
        proof {
            lemma_entry_lookup(before, i as int);
            lemma_entries_remove(before, i as int);
        }
        let entry = entries.remove(i);
        self.entries = entries;
        entry.1
    }

    /// The registered connections, one for each username, in the order `order()` lists
    /// the usernames: the recipients of a broadcast.
    pub fn members(&self) -> (members: Vec<&V>)
        ensures
            members@.len() == self.order().len(),
            forall|i: int| 0 <= i < members@.len() ==> *members@[i] == self@[#[trigger] self.order()[i]],
            self.order().no_duplicates(),
            forall|name: Seq<char>| #[trigger] self@.contains_key(name) <==> self.order().contains(name),
            self.order().len() == self@.len(),
    {
        proof {
            use_type_invariant(self);
            lemma_entry_names(self.entries@);
        }
        let mut members: Vec<&V> = Vec::new();
        let mut i: usize = 0;
        while i < self.entries.len()
            invariant
                i <= self.entries@.len(),
                distinct_names(self.entries@),
                members@.len() == i,
                forall|j: int| 0 <= j < i ==> *members@[j] == self@[#[trigger] self.order()[j]],
            decreases self.entries@.len() - i,
        {
            proof {
                lemma_entry_lookup(self.entries@, i as int);
            }
            members.push(&self.entries[i].1);
            i = i + 1;
        }
        members
    }
}


/// A user who joins a registry in which the name was free and then leaves it leaves the
/// registry as it was (`joined` as `insert` gives it, `left` as `remove` gives it).
pub proof fn lemma_join_then_leave<V>(
    before: Registry<V>,
    joined: Registry<V>,
    left: Registry<V>,
    username: Seq<char>,
    connection: V,
)
    requires
        !before@.contains_key(username),
        joined@ == before@.insert(username, connection),
        left@ == joined@.remove(username),
    ensures
        left@ == before@,
{
    assert(left@ =~= before@);
}

/// After joining (`joined` as `insert` gives it), a user is registered with the
/// connection it joined with, and every other user keeps theirs.
pub proof fn lemma_join_registers<V>(
    before: Registry<V>,
    joined: Registry<V>,
    username: Seq<char>,
    connection: V,
    other: Seq<char>,
)
    requires
        joined@ == before@.insert(username, connection),
    ensures
        joined@.contains_key(username),
        joined@[username] == connection,
        other != username ==> (joined@.contains_key(other) == before@.contains_key(other)),
        other != username && before@.contains_key(other) ==> joined@[other] == before@[other],
{
}

/// After leaving (`left` as `remove` gives it), a user is no longer registered, and
/// every other user keeps their connection.
pub proof fn lemma_leave_unregisters<V>(before: Registry<V>, left: Registry<V>, username: Seq<char>, other: Seq<char>)
    requires
        left@ == before@.remove(username),
    ensures
        !left@.contains_key(username),
        other != username ==> (left@.contains_key(other) == before@.contains_key(other)),
        other != username && before@.contains_key(other) ==> left@[other] == before@[other],
{
}

} // verus!
