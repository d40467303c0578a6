use vstd::prelude::*;

use crate::model::AsStrId;
use indexmap::IndexSet;

verus! {

#[verifier::external_type_specification]
#[verifier::external_body]
#[verifier::reject_recursive_types(T)]
#[verifier::reject_recursive_types(S)]
pub struct ExIndexSet<T, S>(IndexSet<T, S>);

/// The identifiers held by an insertion-ordered set, in insertion order.
pub uninterp spec fn id_order(s: IndexSet<String>) -> Seq<Seq<char>>;

/// Relies on `IndexSet::new`: the new set holds nothing.
#[verifier::external_body]
fn ids_new() -> (r: IndexSet<String>)
    ensures
        id_order(r) == Seq::<Seq<char>>::empty(),
{
    IndexSet::new()
}

/// Relies on `IndexSet::insert_full`: an identifier already present keeps its
/// position and the set is unchanged; a new one is appended at the end.
#[verifier::external_body]
fn ids_insert_full(s: &mut IndexSet<String>, id: String) -> (r: (usize, bool))
    ensures
        id_order(*old(s)).contains(id@) ==> {
            &&& !r.1
            &&& r.0 < id_order(*old(s)).len()
            &&& id_order(*old(s))[r.0 as int] == id@
            &&& id_order(*final(s)) == id_order(*old(s))
        },
        !id_order(*old(s)).contains(id@) ==> {
            &&& r.1
            &&& r.0 == id_order(*old(s)).len()
            &&& id_order(*final(s)) == id_order(*old(s)).push(id@)
        },
{
    s.insert_full(id)
}

/// Relies on `IndexSet::get_index_of`: the position of an identifier, if present.
#[verifier::external_body]
fn ids_index_of(s: &IndexSet<String>, id: &str) -> (r: Option<usize>)
    ensures
        r matches Some(i) ==> i < id_order(*s).len() && id_order(*s)[i as int] == id@,
        r is None ==> !id_order(*s).contains(id@),
{
    s.get_index_of(id)
}

/// The identifiers of a sequence of entities, in order.
pub open spec fn ids_of<S: AsStrId>(s: Seq<S>) -> Seq<Seq<char>> {
    s.map_values(|x: S| x.spec_id())
}

/// Whether no identifier occurs twice in a sequence of entities.
pub open spec fn unique_ids<S: AsStrId>(s: Seq<S>) -> bool {
    ids_of(s).no_duplicates()
}

/// Folds a sequence into one entry per identifier: an identifier keeps the
/// position where it first occurs, and the value it last occurs with.
pub open spec fn collapse<S: AsStrId>(s: Seq<S>) -> Seq<S>
    decreases s.len(),
{
    if s.len() == 0 {
        Seq::empty()
    } else {
        let prev = collapse(s.drop_last());
        let x = s.last();
        if ids_of(prev).contains(x.spec_id()) {
            prev.update(ids_of(prev).index_of(x.spec_id()), x)
        } else {
            prev.push(x)
        }
    }
}

/// Whether the identifier occurs at two positions of the sequence.
pub open spec fn repeated_id<S: AsStrId>(s: Seq<S>, id: Seq<char>) -> bool {
    exists|i: int, j: int|
        0 <= i < j < s.len() && #[trigger] s[i].spec_id() == id && #[trigger] s[j].spec_id() == id
}

/// The same items in the opposite order.
fn reversed<T>(v: Vec<T>) -> (r: Vec<T>)
    ensures
        r@.len() == v@.len(),
        forall|j: int| 0 <= j < v@.len() ==> r@[j] == v@[v@.len() - 1 - j],
{
    let ghost input = v@;
    let mut v = v;
    let mut r: Vec<T> = Vec::new();
    while v.len() > 0
        invariant
            v@ == input.take(v@.len() as int),
            r@.len() + v@.len() == input.len(),
            forall|j: int| 0 <= j < r@.len() ==> r@[j] == input[input.len() - 1 - j],
        decreases v@.len(),
    {
        let x = v.pop().unwrap();
        r.push(x);
    }
    r
}

/// With no identifier repeated, folding keeps every entity in its order.
pub proof fn lemma_collapse_unique<S: AsStrId>(s: Seq<S>)
    requires
        unique_ids(s),
    ensures
        collapse(s) == s,
    decreases s.len(),
{
    if s.len() > 0 {
        let p = s.drop_last();
        assert(ids_of(p) =~= ids_of(s).drop_last());
        lemma_collapse_unique(p);
        if ids_of(p).contains(s.last().spec_id()) {
            let k = ids_of(p).index_of(s.last().spec_id());
            assert(ids_of(s)[k] == ids_of(s)[s.len() - 1]);
        }
        assert(p.push(s.last()) =~= s);
    }
}

/// Two entities that share an identifier fold into one entry: the later one.
pub proof fn lemma_collapse_last_write_wins<S: AsStrId>(a: S, b: S)
    requires
        a.spec_id() == b.spec_id(),
    ensures
        collapse(seq![a, b]) == seq![b],
{
    let s = seq![a, b];
    assert(s.drop_last() =~= seq![a]);
    assert(seq![a].drop_last() =~= Seq::<S>::empty());
    let e = Seq::<S>::empty();
    assert(collapse(e) == e);
    assert(ids_of(e) =~= Seq::<Seq<char>>::empty());
    assert(e.push(a) =~= seq![a]);
    assert(collapse(seq![a]) =~= seq![a]);
    assert(ids_of(seq![a]) =~= seq![a.spec_id()]);
    assert(ids_of(seq![a])[0] == b.spec_id());
    assert(seq![a].update(0, b) =~= seq![b]);
}

/// Folding a list without repeated identifiers and unfolding it again gives
/// back the same entities in the same order.
pub proof fn lemma_list_round_trip<S: AsStrId>(s: Seq<S>, m: StuffMap<S>)
    requires
        unique_ids(s),
        m@ == collapse(s),
    ensures
        m@ == s,
{
    lemma_collapse_unique(s);
}

/// Entities in the order in which a document lists them.
pub struct StuffList<Stuff: AsStrId>(pub Vec<Stuff>);

/// Entities keyed by their identifier, in the order of first occurrence.
pub struct StuffMap<Stuff: AsStrId> {
    ids: IndexSet<String>,
    items: Vec<Stuff>,
}

impl<Stuff: AsStrId> StuffMap<Stuff> {
    /// The entries, in order.
    pub closed spec fn view(&self) -> Seq<Stuff> {
        self.items@
    }

    /// The identifier set lists the entries' identifiers, each once.
    pub closed spec fn wf(&self) -> bool {
        &&& id_order(self.ids) == ids_of(self.items@)
        &&& ids_of(self.items@).no_duplicates()
    }

    /// An empty collection.
    pub fn new() -> (r: Self)
        ensures
            r.wf(),
            r@ == Seq::<Stuff>::empty(),
    {
        let r = StuffMap { ids: ids_new(), items: Vec::new() };
        assert(ids_of(r.items@) =~= Seq::<Seq<char>>::empty());
        r
    }

    pub fn len(&self) -> (r: usize)
        ensures
            r == self@.len(),
    {
        self.items.len()
    }

    pub proof fn lemma_wf_unique(&self)
        requires
            self.wf(),
        ensures
            unique_ids(self@),
    {
    }

    /// Inserts an entity: a new identifier goes at the end; a known one has
    /// its entry replaced in place. Returns whether the identifier was new.
    pub fn insert(&mut self, item: Stuff) -> (r: bool)
        requires
            old(self).wf(),
        ensures
            final(self).wf(),
            r == !ids_of(old(self)@).contains(item.spec_id()),
            r ==> final(self)@ == old(self)@.push(item),
            !r ==> final(self)@ == old(self)@.update(
                ids_of(old(self)@).index_of(item.spec_id()),
                item,
            ),
    {
        let ghost old_items = self.items@;
        let key = item.id().to_owned();
        let (idx, fresh) = ids_insert_full(&mut self.ids, key);
        if fresh {
            self.items.push(item);
            assert(ids_of(self.items@) =~= ids_of(old_items).push(item.spec_id()));
        } else {
            let ghost k = ids_of(old_items).index_of(item.spec_id());
            proof {
                assert(ids_of(old_items)[idx as int] == item.spec_id());
                assert(ids_of(old_items)[k] == item.spec_id());
                assert(k == idx as int);
            }
            self.items.set(idx, item);
            assert(ids_of(self.items@) =~= ids_of(old_items));
        }
        fresh
    }

    /// The position of the entry with the given identifier.
    pub fn index_of(&self, id: &str) -> (r: Option<usize>)
        requires
            self.wf(),
        ensures
            r matches Some(i) ==> i < self@.len() && self@[i as int].spec_id() == id@,
            r is None ==> !ids_of(self@).contains(id@),
    {
        ids_index_of(&self.ids, id)
    }

    /// The entry with the given identifier.
    pub fn get(&self, id: &str) -> (r: Option<&Stuff>)
        requires
            self.wf(),
        ensures
            r matches Some(x) ==> ids_of(self@).contains(id@) && x == self@[ids_of(
                self@,
            ).index_of(id@)],
            r is None ==> !ids_of(self@).contains(id@),
    {
        match ids_index_of(&self.ids, id) {
            Some(i) => {
                let ghost k = ids_of(self@).index_of(id@);
                assert(ids_of(self@)[i as int] == id@);
                assert(k == i as int);
                Some(&self.items[i])
            },
            None => None,
        }
    }

    /// Folds a list into a collection, entry by entry: a repeated identifier
    /// keeps its first position and takes the value of its last occurrence.
    pub fn from_list(list: StuffList<Stuff>) -> (r: Self)
        ensures
            r.wf(),
            r@ == collapse(list.0@),
    {
        let StuffList(items) = list;
        let ghost input = items@;
        let n: usize = items.len();
        let mut rest = reversed(items);
        let mut m = StuffMap::new();
        let mut i: usize = 0;
        while rest.len() > 0
            invariant
                n == input.len(),
                i + rest@.len() == n,
                forall|j: int| 0 <= j < rest@.len() ==> rest@[j] == input[n - 1 - j],
                m.wf(),
                m@ == collapse(input.take(i as int)),
            decreases rest@.len(),
        {
            let item = rest.pop().unwrap();
            proof {
                assert(input.take(i as int + 1).drop_last() =~= input.take(i as int));
                assert(input.take(i as int + 1).last() == item);
            }
            m.insert(item);
            i = i + 1;
        }
        assert(input.take(n as int) =~= input);
        m
    }

    /// Folds a list into a collection when no identifier occurs twice in it;
    /// otherwise returns an identifier that does.
    pub fn from_unique_list(list: StuffList<Stuff>) -> (r: Result<Self, String>)
        ensures
            r is Ok <==> unique_ids(list.0@),
            r matches Ok(m) ==> m.wf() && m@ == list.0@,
            r matches Err(dup) ==> repeated_id(list.0@, dup@),
    {
        let StuffList(items) = list;
        let ghost input = items@;
        let n: usize = items.len();
        let mut rest = reversed(items);
        let mut m = StuffMap::new();
        let mut i: usize = 0;
        while rest.len() > 0
            invariant
                input == list.0@,
                n == input.len(),
                i + rest@.len() == n,
                forall|j: int| 0 <= j < rest@.len() ==> rest@[j] == input[n - 1 - j],
                m.wf(),
                m@ == input.take(i as int),
            decreases rest@.len(),
        {
            let item = rest.pop().unwrap();
            assert(item == input[i as int]);
            let key = item.id().to_owned();
            let fresh = m.insert(item);
            if !fresh {
                proof {
                    let prefix = input.take(i as int);
                    assert(ids_of(prefix).contains(key@));
                    let k = ids_of(prefix).index_of(key@);
                    assert(0 <= k < i);
                    assert(prefix[k] == input[k]);
                    assert(input[k].spec_id() == key@);
                    assert(input[i as int].spec_id() == key@);
                    assert(repeated_id(input, key@));
                    assert(ids_of(input)[k] == ids_of(input)[i as int]);
                }
                return Err(key);
            }
            proof {
                assert(input.take(i as int + 1) =~= input.take(i as int).push(input[i as int]));
            }
            i = i + 1;
        }
        assert(input.take(n as int) =~= input);
        Ok(m)
    }

    /// The entries as a list, in order.
    pub fn into_list(self) -> (r: StuffList<Stuff>)
        ensures
            r.0@ == self@,
    {
        StuffList(self.items)
    }

    /// The entries, in order.
    pub fn values(&self) -> (r: &Vec<Stuff>)
        ensures
            r@ == self@,
    {
        &self.items
    }
}

} // verus!
