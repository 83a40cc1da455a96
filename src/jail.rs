use crate::istring::{IString, NULL_ADDR};
use fxhash::{FxBuildHasher, FxHasher};
use indexmap::IndexMap;
use std::hash::BuildHasherDefault;
use vstd::prelude::*;

verus! {

#[verifier::external_type_specification]
#[verifier::external_body]
pub struct ExFxHasher(FxHasher);

#[verifier::external_type_specification]
#[verifier::external_body]
#[verifier::reject_recursive_types(H)]
pub struct ExBuildHasherDefault<H>(BuildHasherDefault<H>);

#[verifier::external_type_specification]
#[verifier::external_body]
#[verifier::reject_recursive_types(K)]
#[verifier::reject_recursive_types(V)]
#[verifier::reject_recursive_types(S)]
pub struct ExIndexMap<K, V, S>(IndexMap<K, V, S>);

/// The interner's table: canonical text to (address, reference count).
type Table = IndexMap<String, (u64, u64), FxBuildHasher>;

/// What an interner table holds: each key's text mapped to its value.
pub uninterp spec fn table_entries(m: IndexMap<String, (u64, u64), FxBuildHasher>) -> Map<
    Seq<char>,
    (u64, u64),
>;

/// Relies on `IndexMap::default`: a new map holds no entry.
#[verifier::external_body]
fn table_new() -> (r: Table)
    ensures
        table_entries(r).dom() == Set::<Seq<char>>::empty(),
{
    IndexMap::default()
}

/// Relies on `IndexMap::get`: the value stored under the key equal to `k`, if there is one.
#[verifier::external_body]
fn table_get(m: &Table, k: &str) -> (r: Option<(u64, u64)>)
    ensures
        r == (if table_entries(*m).contains_key(k@) {
            Some(table_entries(*m)[k@])
        } else {
            None
        }),
{
    m.get(k).copied()
}

/// Relies on `IndexMap::insert`: stores `v` under `k`, replacing the value of an equal key.
#[verifier::external_body]
fn table_insert(m: &mut Table, k: String, v: (u64, u64))
    ensures
        table_entries(*final(m)) == table_entries(*old(m)).insert(k@, v),
{
    m.insert(k, v);
}

/// Relies on `IndexMap`'s `IndexMut` by key: replaces the value stored under an existing key
/// (it panics where there is none).
#[verifier::external_body]
fn table_set(m: &mut Table, k: &str, v: (u64, u64))
    requires
        table_entries(*old(m)).contains_key(k@),
    ensures
        table_entries(*final(m)) == table_entries(*old(m)).insert(k@, v),
{
    m[k] = v;
}

/// Relies on `IndexMap::swap_remove`: takes out the entry whose key equals `k`, if any.
#[verifier::external_body]
fn table_swap_remove(m: &mut Table, k: &str)
    ensures
        table_entries(*final(m)) == table_entries(*old(m)).remove(k@),
{
    m.swap_remove(k);
}

/// Relies on `IndexMap::len`: the number of entries.
#[verifier::external_body]
fn table_len(m: &Table) -> (r: usize)
    ensures
        r == table_entries(*m).len(),
{
    m.len()
}

/// The reference count of `s` in a table model, zero where it has no entry.
pub open spec fn count_in(m: Map<Seq<char>, (u64, u64)>, s: Seq<char>) -> nat {
    if m.contains_key(s) {
        m[s].1 as nat
    } else {
        0
    }
}

/// A table model is well formed: every entry has a live address and a positive count,
/// and no two entries share an address.
pub open spec fn table_wf(m: Map<Seq<char>, (u64, u64)>) -> bool {
    &&& m.dom().finite()
    &&& forall|s: Seq<char>| #[trigger] m.contains_key(s) ==> m[s].0 != NULL_ADDR && m[s].1 >= 1
    &&& forall|s: Seq<char>, t: Seq<char>|
        #[trigger] m.contains_key(s) && #[trigger] m.contains_key(t) && s != t ==> m[s].0 != m[t].0
}

/// `a` is no address of any entry of `m`, nor the null address.
pub open spec fn fresh_addr(m: Map<Seq<char>, (u64, u64)>, a: u64) -> bool {
    &&& a != NULL_ADDR
    &&& forall|t: Seq<char>| #[trigger] m.contains_key(t) ==> m[t].0 != a
}

/// The address that acquiring `s` may hand out: the existing entry's, or a fresh one.
pub open spec fn acquire_addr_ok(m: Map<Seq<char>, (u64, u64)>, s: Seq<char>, a: u64) -> bool {
    if m.contains_key(s) {
        a == m[s].0
    } else {
        fresh_addr(m, a)
    }
}

/// The table after acquiring `s` at address `a`: one more reference to it.
pub open spec fn acquired(m: Map<Seq<char>, (u64, u64)>, s: Seq<char>, a: u64) -> Map<
    Seq<char>,
    (u64, u64),
> {
    m.insert(s, (a, (count_in(m, s) + 1) as u64))
}

/// The table after releasing one reference to `s`: the entry goes with its last reference.
pub open spec fn released(m: Map<Seq<char>, (u64, u64)>, s: Seq<char>) -> Map<
    Seq<char>,
    (u64, u64),
> {
    if m[s].1 <= 1 {
        m.remove(s)
    } else {
        m.insert(s, (m[s].0, (m[s].1 - 1) as u64))
    }
}

/// A canonical allocation: the interned text and the address that identifies it.
pub struct Key {
    text: String,
    addr: u64,
}

impl Key {
    /// The allocation's text.
    pub closed spec fn text(&self) -> Seq<char> {
        self.text@
    }

    /// The allocation's address.
    pub closed spec fn addr(&self) -> u64 {
        self.addr
    }

    /// Allocates a canonical copy of `s` for `jail`, at the next address it hands out:
    /// one that no entry of `jail` carries and that is not the null address.
    pub fn new(s: &str, jail: &Jail) -> (r: Key)
        requires
            jail.wf(),
        ensures
            r.text() == s@,
            r.addr() == jail.next_addr(),
            fresh_addr(jail.entries(), r.addr()),
    {
        Key { text: s.to_owned(), addr: jail.next_addr }
    }

    /// The allocation's text.
    pub fn as_str(&self) -> (r: &str)
        ensures
            r@ == self.text(),
    {
        self.text.as_str()
    }

    /// The allocation's address.
    pub fn address(&self) -> (r: u64)
        ensures
            r == self.addr(),
    {
        self.addr
    }

    /// A new handle on this allocation.
    pub fn handle(&self) -> (r: IString)
        ensures
            r.text() == self.text(),
            r.addr() == self.addr(),
    {
        IString::new(self.text.clone(), self.addr)
    }
}

/// A string interner. Strings are put in it by [`Jail::add_ref`] and stay interned until
/// every reference has been given back by [`Jail::remove_ref`].
pub struct Jail {
    table: Table,
    next_addr: u64,
}

impl Jail {
    /// The interned strings, each with its address and reference count.
    pub closed spec fn entries(&self) -> Map<Seq<char>, (u64, u64)> {
        table_entries(self.table)
    }

    /// The interner's invariant: its table is well formed and every entry's address lies
    /// below the next one to hand out.
    pub open spec fn wf(&self) -> bool {
        &&& table_wf(self.entries())
        &&& self.next_addr() != NULL_ADDR
        &&& forall|s: Seq<char>| #[trigger]
            self.entries().contains_key(s) ==> self.entries()[s].0 < self.next_addr()
    }

    /// The address the next new entry gets; every address below it has been handed out.
    pub closed spec fn next_addr(&self) -> u64 {
        self.next_addr
    }

    /// Room is left to count one more reference to `s` (and to give it a new address).
    pub open spec fn can_acquire(&self, s: Seq<char>) -> bool {
        &&& count_in(self.entries(), s) < u64::MAX
        &&& self.next_addr() < u64::MAX
    }

    /// `h` is a live handle issued by this interner.
    pub open spec fn issued(&self, h: &IString) -> bool {
        &&& self.entries().contains_key(h.text())
        &&& self.entries()[h.text()].0 == h.addr()
    }

    /// An empty interner.
    pub fn new() -> (r: Jail)
        ensures
            r.wf(),
            r.entries().dom() == Set::<Seq<char>>::empty(),
            r.next_addr() == 1,
    {
        Jail { table: table_new(), next_addr: 1 }
    }

    /// Acquires a reference to `s`: the existing entry's count goes up by one, or a new
    /// entry with count one is made at a fresh address.
    pub fn add_ref(&mut self, s: &str) -> (r: IString)
        requires
            old(self).wf(),
            old(self).can_acquire(s@),
        ensures
            final(self).wf(),
            r.text() == s@,
            acquire_addr_ok(old(self).entries(), s@, r.addr()),
            final(self).entries() == acquired(old(self).entries(), s@, r.addr()),
            final(self).issued(&r),
            final(self).next_addr() == if old(self).entries().contains_key(s@) {
                old(self).next_addr()
            } else {
                (old(self).next_addr() + 1) as u64
            },
            final(self).entries().len() == if old(self).entries().contains_key(s@) {
                old(self).entries().len() as int
            } else {
                (old(self).entries().len() + 1) as int
            },
    {
        match table_get(&self.table, s) {
            Some((addr, count)) => {
                table_set(&mut self.table, s, (addr, count + 1));
                IString::new(s.to_owned(), addr)
            },
            None => {
                let key = Key::new(s, self);
                let out = key.handle();
                self.next_addr = self.next_addr + 1;
                table_insert(&mut self.table, key.text, (key.addr, 1));
                out
            },
        }
    }

    /// Acquires a reference to `o`'s string, if there is one.
    pub fn add_ref_opt(&mut self, o: Option<&str>) -> (r: Option<IString>)
        requires
            old(self).wf(),
            o matches Some(s) ==> old(self).can_acquire(s@),
        ensures
            final(self).wf(),
            match o {
                None => r is None && final(self).entries() == old(self).entries(),
                Some(s) => r matches Some(h) && h.text() == s@ && acquire_addr_ok(
                    old(self).entries(),
                    s@,
                    h.addr(),
                ) && final(self).entries() == acquired(old(self).entries(), s@, h.addr())
                    && final(self).issued(&h),
            },
            final(self).next_addr() <= old(self).next_addr() + 1,
    {
        match o {
            Some(s) => Some(self.add_ref(s)),
            None => None,
        }
    }

    /// Gives back a handle: the entry's count goes down by one, and the entry with its
    /// allocation goes once the count reaches zero. The handle is neutralized first.
    pub fn remove_ref(&mut self, s: IString)
        requires
            old(self).wf(),
            old(self).issued(&s),
        ensures
            final(self).wf(),
            final(self).entries() == released(old(self).entries(), s.text()),
            final(self).next_addr() == old(self).next_addr(),
            final(self).entries().len() == if old(self).entries()[s.text()].1 == 1 {
                old(self).entries().len() - 1
            } else {
                old(self).entries().len() as int
            },
    {
        let mut s = s;
        let (addr, count) = table_get(&self.table, s.as_str()).unwrap();
        if count <= 1 {
            table_swap_remove(&mut self.table, s.as_str());
        } else {
            table_set(&mut self.table, s.as_str(), (addr, count - 1));
        }
        s.safe_drop();
    }

    /// Gives back the handle in `o`, if there is one.
    pub fn remove_ref_opt(&mut self, o: Option<IString>)
        requires
            old(self).wf(),
            o matches Some(h) ==> old(self).issued(&h),
        ensures
            final(self).wf(),
            match o {
                None => final(self).entries() == old(self).entries(),
                Some(h) => final(self).entries() == released(old(self).entries(), h.text()),
            },
            final(self).next_addr() == old(self).next_addr(),
    {
        if let Some(s) = o {
            self.remove_ref(s);
        }
    }

    /// The number of interned strings.
    pub fn len(&self) -> (r: usize)
        ensures
            r == self.entries().len(),
    {
        table_len(&self.table)
    }

    /// Whether no string is interned.
    pub fn is_empty(&self) -> (r: bool)
        requires
            self.wf(),
        ensures
            r == (self.entries().dom() == Set::<Seq<char>>::empty()),
    {
        proof {
            if self.entries().len() == 0 {
                self.entries().dom().lemma_len0_is_empty();
            }
        }
        table_len(&self.table) == 0
    }

    /// The reference count of `s`, zero where it is not interned.
    pub fn ref_count(&self, s: &str) -> (r: u64)
        ensures
            r as nat == count_in(self.entries(), s@),
    {
        match table_get(&self.table, s) {
            Some((_addr, count)) => count,
            None => 0,
        }
    }
}

impl Default for Jail {
    fn default() -> (r: Jail)
        ensures
            r.wf(),
            r.entries().dom() == Set::<Seq<char>>::empty(),
            r.next_addr() == 1,
    {
        Jail::new()
    }
}

/// The table after acquiring `s` at address `a`, `n` times over.
pub open spec fn acquired_times(m: Map<Seq<char>, (u64, u64)>, s: Seq<char>, a: u64, n: nat) -> Map<
    Seq<char>,
    (u64, u64),
>
    decreases n,
{
    if n == 0 {
        m
    } else {
        acquired(acquired_times(m, s, a, (n - 1) as nat), s, a)
    }
}

/// The table after releasing `s`, `n` times over.
pub open spec fn released_times(m: Map<Seq<char>, (u64, u64)>, s: Seq<char>, n: nat) -> Map<
    Seq<char>,
    (u64, u64),
>
    decreases n,
{
    if n == 0 {
        m
    } else {
        released(released_times(m, s, (n - 1) as nat), s)
    }
}

/// Acquiring a string twice hands out the same address both times, and giving both
/// handles back leaves the table as it was.
pub proof fn lemma_acquire_twice(m: Map<Seq<char>, (u64, u64)>, s: Seq<char>, a1: u64, a2: u64)
    requires
        table_wf(m),
        count_in(m, s) + 2 <= u64::MAX,
        acquire_addr_ok(m, s, a1),
        acquire_addr_ok(acquired(m, s, a1), s, a2),
    ensures
        a1 == a2,
        released(released(acquired(acquired(m, s, a1), s, a2), s), s) == m,
        released(released(acquired(acquired(m, s, a1), s, a2), s), s).len() == m.len(),
{
    let m2 = acquired(acquired(m, s, a1), s, a2);
    let m1 = released(m2, s);
    if m.contains_key(s) {
        assert(m1 =~= m.insert(s, (m[s].0, (m[s].1 + 1) as u64)));
        assert(released(m1, s) =~= m);
    } else {
        assert(m1 =~= m.insert(s, (a1, 1)));
        assert(released(m1, s) =~= m);
    }
}

/// Strings with different texts are never handed out at the same address, however
/// the table stood before.
pub proof fn lemma_distinct_texts_distinct_addrs(
    m: Map<Seq<char>, (u64, u64)>,
    a: Seq<char>,
    x: u64,
    b: Seq<char>,
    y: u64,
)
    requires
        table_wf(m),
        a != b,
        acquire_addr_ok(m, a, x),
        acquire_addr_ok(acquired(m, a, x), b, y),
    ensures
        x != y,
{
    let m1 = acquired(m, a, x);
    if m1.contains_key(b) {
        assert(m.contains_key(b));
        if m.contains_key(a) {
            assert(m[a].0 != m[b].0);
        }
    } else {
        assert(m1.contains_key(a));
    }
}

/// Acquiring a new string `n` times counts `n` references at one address.
proof fn lemma_acquired_times(m: Map<Seq<char>, (u64, u64)>, s: Seq<char>, a: u64, n: nat)
    requires
        !m.contains_key(s),
        1 <= n <= u64::MAX,
    ensures
        acquired_times(m, s, a, n) == m.insert(s, (a, n as u64)),
    decreases n,
{
    if n == 1 {
        assert(acquired_times(m, s, a, 0) == m);
        assert(acquired_times(m, s, a, 1) =~= m.insert(s, (a, 1)));
    } else {
        lemma_acquired_times(m, s, a, (n - 1) as nat);
        assert(acquired_times(m, s, a, n) =~= m.insert(s, (a, n as u64)));
    }
}

/// Releasing `k` of `n` references counted at one address leaves `n - k` of them.
proof fn lemma_released_times(m: Map<Seq<char>, (u64, u64)>, s: Seq<char>, a: u64, n: nat, k: nat)
    requires
        !m.contains_key(s),
        k < n <= u64::MAX,
    ensures
        released_times(m.insert(s, (a, n as u64)), s, k) == m.insert(s, (a, (n - k) as u64)),
    decreases k,
{
    if k > 0 {
        lemma_released_times(m, s, a, n, (k - 1) as nat);
        assert(released_times(m.insert(s, (a, n as u64)), s, k) =~= m.insert(
            s,
            (a, (n - k) as u64),
        ));
    }
}

/// Reference counting: after a new string is acquired `n` times and released `n - 1`
/// times, its entry is still there with one reference; the last release takes it out
/// and leaves the table as it was.
pub proof fn lemma_acquire_release_n(m: Map<Seq<char>, (u64, u64)>, s: Seq<char>, a: u64, n: nat)
    requires
        table_wf(m),
        !m.contains_key(s),
        acquire_addr_ok(m, s, a),
        1 <= n <= u64::MAX,
    ensures
        released_times(acquired_times(m, s, a, n), s, (n - 1) as nat).contains_key(s),
        released_times(acquired_times(m, s, a, n), s, (n - 1) as nat)[s] == (a, 1u64),
        released_times(acquired_times(m, s, a, n), s, (n - 1) as nat).len() == m.len() + 1,
        released_times(acquired_times(m, s, a, n), s, n) == m,
{
    lemma_acquired_times(m, s, a, n);
    lemma_released_times(m, s, a, n, (n - 1) as nat);
    let last = m.insert(s, (a, 1u64));
    assert(released(last, s) =~= m);
    assert(last.dom() =~= m.dom().insert(s));
}

impl Jail {
    /// Two live handles of one interner carry the same address exactly when their texts
    /// are equal.
    pub proof fn lemma_issued_addr_iff_text(&self, h1: &IString, h2: &IString)
        requires
            self.wf(),
            self.issued(h1),
            self.issued(h2),
        ensures
            (h1.addr() == h2.addr()) == (h1.text() == h2.text()),
    {
    }
}

} // verus!
