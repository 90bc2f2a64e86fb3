//! The clients of one channel, and the messages that go out to them.
//!
//! A client is known by the name of its port. A table holds each client once, with a
//! handle on that port; the handle itself is of no concern here, so it is a parameter.

use vstd::prelude::*;
use std::sync::Arc;
use crate::protocol::{ClientMessage, PORT_IS_INVALID};

verus! {

/// A message on its way to one client.
pub struct Outgoing<P> {
    /// The client it goes to.
    pub client: String,
    /// The port it goes through.
    pub port: Arc<P>,
    /// What it says.
    pub message: ClientMessage,
}

/// `batch` takes `message` to every client of `clients`, to each of them once and
/// through its own port, and to nobody else. The order is left open.
pub open spec fn reaches<P>(
    batch: Seq<Outgoing<P>>,
    clients: Map<Seq<char>, Arc<P>>,
    message: ClientMessage,
) -> bool {
    &&& forall|i: int|
        #![trigger batch[i]]
        0 <= i < batch.len() ==> {
            &&& clients.contains_key(batch[i].client@)
            &&& clients[batch[i].client@] == batch[i].port
            &&& batch[i].message == message
        }
    &&& forall|i: int, j: int|
        0 <= i < j < batch.len() ==> (#[trigger] batch[i]).client@ != (#[trigger] batch[j]).client@
    &&& forall|client: Seq<char>| #[trigger]
        clients.contains_key(client) ==> exists|i: int|
            0 <= i < batch.len() && (#[trigger] batch[i]).client@ == client
}

/// The clients to which a message of `batch` came back with the word that their port is
/// invalid, `codes` being the answers in the order of `batch`.
pub open spec fn unreachable_clients<P>(batch: Seq<Outgoing<P>>, codes: Seq<i32>) -> Set<Seq<char>> {
    Set::new(
        |client: Seq<char>|
            exists|i: int|
                #![trigger batch[i]]
                0 <= i < batch.len() && i < codes.len() && codes[i] == PORT_IS_INVALID
                    && batch[i].client@ == client,
    )
}

/// The names in a list, as a set.
pub open spec fn names(list: Seq<String>) -> Set<Seq<char>> {
    Set::new(|name: Seq<char>| exists|i: int| 0 <= i < list.len() && (#[trigger] list[i])@ == name)
}

/// The same clients one by one, in the order of `batch`.
pub open spec fn unreachable_in_order<P>(batch: Seq<Outgoing<P>>, codes: Seq<i32>) -> Seq<Seq<char>>
    recommends
        codes.len() == batch.len(),
    decreases batch.len(),
{
    if batch.len() == 0 {
        Seq::empty()
    } else {
        let before = unreachable_in_order(batch.drop_last(), codes.drop_last());
        if codes.last() == PORT_IS_INVALID {
            before.push(batch.last().client@)
        } else {
            before
        }
    }
}

/// The list and the set of the unreachable name the same clients.
pub proof fn lemma_unreachable<P>(batch: Seq<Outgoing<P>>, codes: Seq<i32>, client: Seq<char>)
    requires
        codes.len() == batch.len(),
    ensures
        unreachable_in_order(batch, codes).contains(client) <==> unreachable_clients(
            batch,
            codes,
        ).contains(client),
    decreases batch.len(),
{
    if batch.len() > 0 {
        let (front, answers) = (batch.drop_last(), codes.drop_last());
        let before = unreachable_in_order(front, answers);
        let last = batch.len() - 1;
        lemma_unreachable(front, answers, client);
        if unreachable_clients(front, answers).contains(client) {
            let i = choose|i: int|
                #![trigger front[i]]
                0 <= i < front.len() && i < answers.len() && answers[i] == PORT_IS_INVALID
                    && front[i].client@ == client;
            assert(batch[i].client@ == client);
        }
        if codes[last] == PORT_IS_INVALID {
            let all = before.push(batch[last].client@);
            assert(all[before.len() as int] == batch[last].client@);
            if before.contains(client) {
                let i = choose|i: int| 0 <= i < before.len() && before[i] == client;
                assert(all[i] == client);
            }
            if all.contains(client) && !before.contains(client) {
                let i = choose|i: int| 0 <= i < all.len() && all[i] == client;
                assert(i < before.len() ==> before[i] == client);
            }
        }
        if unreachable_clients(batch, codes).contains(client) {
            let i = choose|i: int|
                #![trigger batch[i]]
                0 <= i < batch.len() && i < codes.len() && codes[i] == PORT_IS_INVALID
                    && batch[i].client@ == client;
            if i < last {
                assert(front[i].client@ == client);
            }
        }
    }
}

/// Lists the clients whose port turned out to be invalid, among those to whom the messages
/// from `start` to `end` went.
pub fn dead_clients<P>(
    messages: &Vec<Outgoing<P>>,
    codes: &Vec<i32>,
    start: usize,
    end: usize,
) -> (dead: Vec<String>)
    requires
        codes@.len() == messages@.len(),
        start <= end <= messages@.len(),
    ensures
        ({
            let batch = messages@.subrange(start as int, end as int);
            let answers = codes@.subrange(start as int, end as int);
            &&& dead@.map_values(|client: String| client@) == unreachable_in_order(batch, answers)
            &&& names(dead@) == unreachable_clients(batch, answers)
        }),
{
    let mut dead: Vec<String> = Vec::new();
    let mut i: usize = start;
    while i < end
        invariant
            start <= i <= end <= messages@.len(),
            codes@.len() == messages@.len(),
            dead@.map_values(|client: String| client@) == unreachable_in_order(
                messages@.subrange(start as int, i as int),
                codes@.subrange(start as int, i as int),
            ),
        decreases end - i,
    {
        let ghost batch = messages@.subrange(start as int, i + 1);
        let ghost answers = codes@.subrange(start as int, i + 1);
        assert(batch.drop_last() =~= messages@.subrange(start as int, i as int));
        assert(answers.drop_last() =~= codes@.subrange(start as int, i as int));
        if codes[i] == PORT_IS_INVALID {
            dead.push(messages[i].client.clone());
        }
        assert(dead@.map_values(|client: String| client@) =~= unreachable_in_order(
            batch,
            answers,
        ));
        i += 1;
    }
    proof {
        let batch = messages@.subrange(start as int, end as int);
        let answers = codes@.subrange(start as int, end as int);
        let listed = dead@.map_values(|client: String| client@);
        assert forall|client: Seq<char>| names(dead@).contains(client) == unreachable_clients(
            batch,
            answers,
        ).contains(client) by {
            lemma_unreachable(batch, answers, client);
            if names(dead@).contains(client) {
                let k = choose|k: int| 0 <= k < dead@.len() && (#[trigger] dead@[k])@ == client;
                assert(listed[k] == client);
            }
            if listed.contains(client) {
                let k = choose|k: int| 0 <= k < listed.len() && listed[k] == client;
                assert(dead@[k]@ == client);
            }
        }
        assert(names(dead@) =~= unreachable_clients(batch, answers));
    }
    dead
}

struct Entry<P> {
    id: String,
    port: Arc<P>,
}

spec fn distinct<P>(entries: Seq<Entry<P>>) -> bool {
    forall|i: int, j: int|
        0 <= i < j < entries.len() ==> (#[trigger] entries[i]).id@ != (#[trigger] entries[j]).id@
}

spec fn is_entry<P>(entries: Seq<Entry<P>>, i: int, id: Seq<char>) -> bool {
    0 <= i < entries.len() && entries[i].id@ == id
}

spec fn as_map<P>(entries: Seq<Entry<P>>) -> Map<Seq<char>, Arc<P>> {
    Map::new(
        |id: Seq<char>| exists|i: int| #[trigger] is_entry(entries, i, id),
        |id: Seq<char>| entries[choose|i: int| #[trigger] is_entry(entries, i, id)].port,
    )
}

proof fn lemma_entry<P>(entries: Seq<Entry<P>>, i: int)
    requires
        distinct(entries),
        0 <= i < entries.len(),
    ensures
        as_map(entries).contains_key(entries[i].id@),
        as_map(entries)[entries[i].id@] == entries[i].port,
{
    let id = entries[i].id@;
    assert(is_entry(entries, i, id));
    let k = choose|k: int| #[trigger] is_entry(entries, k, id);
    assert(is_entry(entries, k, id));
    assert(k == i);
}

proof fn lemma_is_map<P>(entries: Seq<Entry<P>>, map: Map<Seq<char>, Arc<P>>)
    requires
        distinct(entries),
        forall|i: int|
            #![trigger entries[i]]
            0 <= i < entries.len() ==> map.contains_key(entries[i].id@) && map[entries[i].id@]
                == entries[i].port,
        forall|id: Seq<char>| #[trigger]
            map.contains_key(id) ==> exists|i: int| #[trigger] is_entry(entries, i, id),
    ensures
        as_map(entries) == map,
{
    assert forall|id: Seq<char>| as_map(entries).dom().contains(id) == map.dom().contains(id) by {
        if as_map(entries).dom().contains(id) {
            let i = choose|i: int| #[trigger] is_entry(entries, i, id);
            assert(entries[i].id@ == id);
        } else if map.contains_key(id) {
            let i = choose|i: int| #[trigger] is_entry(entries, i, id);
            lemma_entry(entries, i);
        }
    }
    assert forall|id: Seq<char>| as_map(entries).dom().contains(id) implies as_map(entries)[id]
        == map[id] by {
        let i = choose|i: int| #[trigger] is_entry(entries, i, id);
        lemma_entry(entries, i);
    }
    assert(as_map(entries) =~= map);
}

proof fn lemma_push<P>(entries: Seq<Entry<P>>, entry: Entry<P>)
    requires
        distinct(entries),
        !as_map(entries).contains_key(entry.id@),
    ensures
        distinct(entries.push(entry)),
        as_map(entries.push(entry)) == as_map(entries).insert(entry.id@, entry.port),
{
    let after = entries.push(entry);
    let map = as_map(entries).insert(entry.id@, entry.port);
    assert forall|i: int| 0 <= i < entries.len() implies (#[trigger] entries[i]).id@ != entry.id@ by {
        lemma_entry(entries, i);
    }
    assert forall|i: int| #![trigger after[i]] 0 <= i < after.len() implies map.contains_key(
        after[i].id@,
    ) && map[after[i].id@] == after[i].port by {
        if i < entries.len() {
            lemma_entry(entries, i);
        }
    }
    assert forall|id: Seq<char>| #[trigger] map.contains_key(id) implies exists|i: int| #[trigger]
        is_entry(after, i, id) by {
        if id == entry.id@ {
            assert(is_entry(after, entries.len() as int, id));
        } else {
            assert(as_map(entries).contains_key(id));
            let i = choose|i: int| #[trigger] is_entry(entries, i, id);
            assert(is_entry(after, i, id));
        }
    }
    lemma_is_map(after, map);
}

proof fn lemma_remove<P>(entries: Seq<Entry<P>>, at: int)
    requires
        distinct(entries),
        0 <= at < entries.len(),
    ensures
        distinct(entries.remove(at)),
        as_map(entries.remove(at)) == as_map(entries).remove(entries[at].id@),
{
    let after = entries.remove(at);
    let map = as_map(entries).remove(entries[at].id@);
    assert forall|i: int| #![trigger after[i]] 0 <= i < after.len() implies map.contains_key(
        after[i].id@,
    ) && map[after[i].id@] == after[i].port by {
        lemma_entry(entries, if i < at { i } else { i + 1 });
    }
    assert forall|id: Seq<char>| #[trigger] map.contains_key(id) implies exists|i: int| #[trigger]
        is_entry(after, i, id) by {
        assert(as_map(entries).contains_key(id));
        let k = choose|k: int| #[trigger] is_entry(entries, k, id);
        assert(k != at);
        assert(is_entry(after, if k < at { k } else { k - 1 }, id));
    }
    lemma_is_map(after, map);
}

proof fn lemma_size<P>(entries: Seq<Entry<P>>)
    requires
        distinct(entries),
    ensures
        as_map(entries).dom().finite(),
        as_map(entries).dom().len() == entries.len(),
    decreases entries.len(),
{
    if entries.len() == 0 {
        assert(as_map(entries).dom() =~= Set::empty());
    } else {
        let last = entries.len() - 1;
        assert(entries.remove(last) =~= entries.drop_last());
        lemma_remove(entries, last);
        lemma_entry(entries, last);
        lemma_size(entries.drop_last());
    }
}

proof fn lemma_none<P>(entries: Seq<Entry<P>>)
    ensures
        as_map(entries.take(0)) == Map::<Seq<char>, Arc<P>>::empty(),
{
    assert(as_map(entries.take(0)) =~= Map::<Seq<char>, Arc<P>>::empty());
}

proof fn lemma_next<P>(entries: Seq<Entry<P>>, i: int)
    requires
        distinct(entries),
        0 <= i < entries.len(),
    ensures
        !as_map(entries.take(i)).contains_key(entries[i].id@),
        as_map(entries.take(i + 1)) == as_map(entries.take(i)).insert(
            entries[i].id@,
            entries[i].port,
        ),
{
    let before = entries.take(i);
    if as_map(before).contains_key(entries[i].id@) {
        let k = choose|k: int| #[trigger] is_entry(before, k, entries[i].id@);
        assert(before[k] == entries[k]);
    }
    assert(distinct(before));
    lemma_push(before, entries[i]);
    assert(entries.take(i + 1) =~= before.push(entries[i]));
}

proof fn lemma_reaches_one_more<P>(
    batch: Seq<Outgoing<P>>,
    clients: Map<Seq<char>, Arc<P>>,
    outgoing: Outgoing<P>,
)
    requires
        reaches(batch, clients, outgoing.message),
        !clients.contains_key(outgoing.client@),
    ensures
        reaches(
            batch.push(outgoing),
            clients.insert(outgoing.client@, outgoing.port),
            outgoing.message,
        ),
{
    let after = batch.push(outgoing);
    let all = clients.insert(outgoing.client@, outgoing.port);
    assert forall|client: Seq<char>| #[trigger] all.contains_key(client) implies exists|i: int|
        0 <= i < after.len() && (#[trigger] after[i]).client@ == client by {
        if client == outgoing.client@ {
            assert(after[batch.len() as int].client@ == client);
        } else {
            assert(clients.contains_key(client));
            let i = choose|i: int|
                0 <= i < batch.len() && (#[trigger] batch[i]).client@ == client;
            assert(after[i].client@ == client);
        }
    }
}

/// The clients of one channel, each under the name of its port.
pub struct ClientTable<P> {
    entries: Vec<Entry<P>>,
}

impl<P> View for ClientTable<P> {
    type V = Map<Seq<char>, Arc<P>>;

    closed spec fn view(&self) -> Map<Seq<char>, Arc<P>> {
        as_map(self.entries@)
    }
}

impl<P> ClientTable<P> {
    #[verifier::type_invariant]
    spec fn well_formed(self) -> bool {
        distinct(self.entries@)
    }

    /// A table without clients.
    pub fn new() -> (table: Self)
        ensures
            table@ == Map::<Seq<char>, Arc<P>>::empty(),
    {
        let table = ClientTable { entries: Vec::new() };
        assert(as_map(table.entries@) =~= Map::<Seq<char>, Arc<P>>::empty());
        table
    }

    /// How many clients there are.
    pub fn len(&self) -> (len: usize)
        ensures
            self@.dom().finite(),
            len == self@.dom().len(),
    {
        proof {
            use_type_invariant(self);
            lemma_size(self.entries@);
        }
        self.entries.len()
    }

    fn position(&self, id: &String) -> (position: Option<usize>)
        ensures
            match position {
                Some(i) => i < self.entries@.len() && self.entries@[i as int].id@ == id@,
                None => !self@.contains_key(id@),
            },
    {
        let mut i: usize = 0;
        while i < self.entries.len()
            invariant
                i <= self.entries@.len(),
                forall|k: int| 0 <= k < i ==> (#[trigger] self.entries@[k]).id@ != id@,
            decreases self.entries@.len() - i,
        {
            if self.entries[i].id == *id {
                return Some(i);
            }
            i += 1;
        }
        None
    }

    /// The port of a client, if the client is there.
    pub fn get(&self, id: &String) -> (port: Option<Arc<P>>)
        ensures
            port == (if self@.contains_key(id@) {
                Some(self@[id@])
            } else {
                None
            }),
    {
        proof {
            use_type_invariant(self);
        }
        match self.position(id) {
            Some(i) => {
                proof {
                    lemma_entry(self.entries@, i as int);
                }
                Some(self.entries[i].port.clone())
            },
            None => None,
        }
    }

    /// Drops a client. A client that is not there is no matter.
    pub fn remove(&mut self, id: &String)
        ensures
            final(self)@ == old(self)@.remove(id@),
    {
        proof {
            use_type_invariant(&*self);
        }
        match self.position(id) {
            Some(i) => {
                let ghost before = self.entries@;
                let mut entries: Vec<Entry<P>> = Vec::new();
                std::mem::swap(&mut entries, &mut self.entries);
                let _ = entries.remove(i);
                proof {
                    lemma_remove(before, i as int);
                }
                self.entries = entries;
            },
            None => {
                assert(self@.remove(id@) =~= self@);
            },
        }
    }

    /// Puts a client in, in place of what was known under its name.
    pub fn insert(&mut self, id: String, port: Arc<P>)
        ensures
            final(self)@ == old(self)@.insert(id@, port),
    {
        let ghost before = self@;
        self.remove(&id);
        proof {
            use_type_invariant(&*self);
        }
        let ghost rest = self.entries@;
        let mut entries: Vec<Entry<P>> = Vec::new();
        std::mem::swap(&mut entries, &mut self.entries);
        let entry = Entry { id, port };
        proof {
            lemma_push(rest, entry);
            assert(before.remove(id@).insert(id@, port) =~= before.insert(id@, port));
        }
        entries.push(entry);
        self.entries = entries;
    }

    /// Drops every client of the list.
    pub fn remove_all(&mut self, ids: &Vec<String>)
        ensures
            final(self)@ == old(self)@.remove_keys(names(ids@)),
    {
        let ghost before = self@;
        assert(before.remove_keys(names(ids@.take(0))) =~= before);
        let mut i: usize = 0;
        while i < ids.len()
            invariant
                i <= ids@.len(),
                self@ == before.remove_keys(names(ids@.take(i as int))),
            decreases ids@.len() - i,
        {
            self.remove(&ids[i]);
            proof {
                let done = ids@.take(i as int);
                let next = ids@.take(i + 1);
                assert(next =~= done.push(ids@[i as int]));
                assert forall|name: Seq<char>|
                    names(next).contains(name) == (names(done).contains(name) || name
                        == ids@[i as int]@) by {
                    if names(done).contains(name) {
                        let k = choose|k: int| 0 <= k < done.len() && (#[trigger] done[k])@ == name;
                        assert(next[k]@ == name);
                    } else if name == ids@[i as int]@ {
                        assert(next[i as int]@ == name);
                    } else if names(next).contains(name) {
                        let k = choose|k: int| 0 <= k < next.len() && (#[trigger] next[k])@ == name;
                        assert(done[k]@ == name);
                    }
                }
                assert(self@ =~= before.remove_keys(names(next)));
            }
            i += 1;
        }
        assert(ids@.take(ids@.len() as int) =~= ids@);
    }

    /// Addresses `message` to every client.
    pub fn address(&self, message: ClientMessage) -> (batch: Vec<Outgoing<P>>)
        ensures
            reaches(batch@, self@, message),
    {
        proof {
            use_type_invariant(self);
            lemma_none(self.entries@);
        }
        let mut batch: Vec<Outgoing<P>> = Vec::new();
        let mut i: usize = 0;
        while i < self.entries.len()
            invariant
                i <= self.entries@.len(),
                distinct(self.entries@),
                reaches(batch@, as_map(self.entries@.take(i as int)), message),
            decreases self.entries@.len() - i,
        {
            let outgoing = Outgoing {
                client: self.entries[i].id.clone(),
                port: self.entries[i].port.clone(),
                message,
            };
            proof {
                lemma_next(self.entries@, i as int);
                lemma_reaches_one_more(batch@, as_map(self.entries@.take(i as int)), outgoing);
            }
            batch.push(outgoing);
            i += 1;
        }
        assert(self.entries@.take(self.entries@.len() as int) =~= self.entries@);
        batch
    }

    /// Addresses `message` to every client of this table and of `other`, and to a client
    /// that is in both through the port that this table has for it.
    pub fn address_with(&self, other: &ClientTable<P>, message: ClientMessage) -> (batch: Vec<
        Outgoing<P>,
    >)
        ensures
            reaches(batch@, other@.union_prefer_right(self@), message),
    {
        proof {
            use_type_invariant(other);
            lemma_none(other.entries@);
        }
        let mut batch = self.address(message);
        assert(as_map(other.entries@.take(0)).union_prefer_right(self@) =~= self@);
        let mut i: usize = 0;
        while i < other.entries.len()
            invariant
                i <= other.entries@.len(),
                distinct(other.entries@),
                reaches(
                    batch@,
                    as_map(other.entries@.take(i as int)).union_prefer_right(self@),
                    message,
                ),
            decreases other.entries@.len() - i,
        {
            let ghost map = as_map(other.entries@.take(i as int)).union_prefer_right(self@);
            let ghost next = as_map(other.entries@.take(i + 1)).union_prefer_right(self@);
            proof {
                lemma_next(other.entries@, i as int);
            }
            if self.get(&other.entries[i].id).is_none() {
                let outgoing = Outgoing {
                    client: other.entries[i].id.clone(),
                    port: other.entries[i].port.clone(),
                    message,
                };
                proof {
                    lemma_reaches_one_more(batch@, map, outgoing);
                    assert(next =~= map.insert(outgoing.client@, outgoing.port));
                }
                batch.push(outgoing);
            } else {
                assert(next =~= map);
            }
            i += 1;
        }
        assert(other.entries@.take(other.entries@.len() as int) =~= other.entries@);
        batch
    }
}

} // verus!
