//! Keyed tables kept in ascending key order, the in-memory form of the
//! contracts' storage maps, and the byte-string keys that index them.
use vstd::prelude::*;
use vstd::slice::slice_to_vec;
use vstd::string::StringSliceAdditionalSpecFns;

verus! {

/// A value that can produce a fresh copy with the same model.
pub trait Duplicate: DeepView + Sized {
    fn duplicate(&self) -> (r: Self)
        ensures
            r.deep_view() == self.deep_view(),
    ;
}

impl Duplicate for u8 {
    fn duplicate(&self) -> (r: Self) {
        *self
    }
}

impl Duplicate for u32 {
    fn duplicate(&self) -> (r: Self) {
        *self
    }
}

impl Duplicate for u64 {
    fn duplicate(&self) -> (r: Self) {
        *self
    }
}

impl Duplicate for u128 {
    fn duplicate(&self) -> (r: Self) {
        *self
    }
}

impl Duplicate for i128 {
    fn duplicate(&self) -> (r: Self) {
        *self
    }
}

impl Duplicate for i32 {
    fn duplicate(&self) -> (r: Self) {
        *self
    }
}

impl Duplicate for i64 {
    fn duplicate(&self) -> (r: Self) {
        *self
    }
}

impl Duplicate for bool {
    fn duplicate(&self) -> (r: Self) {
        *self
    }
}

impl<T: Duplicate> Duplicate for Vec<T> {
    fn duplicate(&self) -> (r: Self) {
        let mut r: Vec<T> = Vec::new();
        let mut i: usize = 0;
        while i < self.len()
            invariant
                i <= self.len(),
                r.len() == i,
                forall|j: int| 0 <= j < i ==> (#[trigger] r@[j]).deep_view() == self@[j].deep_view(),
            decreases self.len() - i,
        {
            r.push(self[i].duplicate());
            i += 1;
        }
        proof {
            assert(r.deep_view() =~= self.deep_view());
        }
        r
    }
}

impl<T: Duplicate> Duplicate for Option<T> {
    fn duplicate(&self) -> (r: Self) {
        match self {
            Some(v) => Some(v.duplicate()),
            None => None,
        }
    }
}

/// Result of comparing two keys.
#[derive(Clone, Copy, Debug, PartialEq, Eq, Structural)]
pub enum KeyOrder {
    Less,
    Equal,
    Greater,
}

/// A key of a table: a value with a strict order on its model and a
/// comparison that decides it.
pub trait TableKey: Duplicate {
    spec fn key_lt(a: Self::V, b: Self::V) -> bool;

    proof fn lemma_key_lt_irreflexive(a: Self::V)
        ensures
            !Self::key_lt(a, a),
    ;

    proof fn lemma_key_lt_transitive(a: Self::V, b: Self::V, c: Self::V)
        requires
            Self::key_lt(a, b),
            Self::key_lt(b, c),
        ensures
            Self::key_lt(a, c),
    ;

    fn compare_key(&self, other: &Self) -> (c: KeyOrder)
        ensures
            (c == KeyOrder::Equal) == (self.deep_view() == other.deep_view()),
            (c == KeyOrder::Less) == Self::key_lt(self.deep_view(), other.deep_view()),
            (c == KeyOrder::Greater) == Self::key_lt(other.deep_view(), self.deep_view()),
    ;
}

impl TableKey for u32 {
    open spec fn key_lt(a: u32, b: u32) -> bool {
        a < b
    }

    proof fn lemma_key_lt_irreflexive(a: u32) {
    }

    proof fn lemma_key_lt_transitive(a: u32, b: u32, c: u32) {
    }

    fn compare_key(&self, other: &Self) -> (c: KeyOrder) {
        if *self < *other {
            KeyOrder::Less
        } else if *self == *other {
            KeyOrder::Equal
        } else {
            KeyOrder::Greater
        }
    }
}

impl TableKey for u64 {
    open spec fn key_lt(a: u64, b: u64) -> bool {
        a < b
    }

    proof fn lemma_key_lt_irreflexive(a: u64) {
    }

    proof fn lemma_key_lt_transitive(a: u64, b: u64, c: u64) {
    }

    fn compare_key(&self, other: &Self) -> (c: KeyOrder) {
        if *self < *other {
            KeyOrder::Less
        } else if *self == *other {
            KeyOrder::Equal
        } else {
            KeyOrder::Greater
        }
    }
}

impl TableKey for u128 {
    open spec fn key_lt(a: u128, b: u128) -> bool {
        a < b
    }

    proof fn lemma_key_lt_irreflexive(a: u128) {
    }

    proof fn lemma_key_lt_transitive(a: u128, b: u128, c: u128) {
    }

    fn compare_key(&self, other: &Self) -> (c: KeyOrder) {
        if *self < *other {
            KeyOrder::Less
        } else if *self == *other {
            KeyOrder::Equal
        } else {
            KeyOrder::Greater
        }
    }
}

// ---------------------------------------------------------------------------
// Byte strings in lexicographic order
// ---------------------------------------------------------------------------

/// `a` comes before `b` at position `i`: they agree below `i`, and there `a`
/// ends while `b` goes on, or `a` holds the smaller byte.
pub open spec fn bytes_lt_at(a: Seq<u8>, b: Seq<u8>, i: int) -> bool {
    &&& 0 <= i <= a.len()
    &&& i <= b.len()
    &&& forall|j: int| 0 <= j < i ==> a[j] == b[j]
    &&& (i == a.len() && i < b.len()) || (i < a.len() && i < b.len() && a[i] < b[i])
}

/// Lexicographic order on byte strings.
pub open spec fn bytes_lt(a: Seq<u8>, b: Seq<u8>) -> bool {
    exists|i: int| bytes_lt_at(a, b, i)
}

pub proof fn lemma_bytes_lt_irreflexive(a: Seq<u8>)
    ensures
        !bytes_lt(a, a),
{
}

pub proof fn lemma_bytes_lt_transitive(a: Seq<u8>, b: Seq<u8>, c: Seq<u8>)
    requires
        bytes_lt(a, b),
        bytes_lt(b, c),
    ensures
        bytes_lt(a, c),
{
    let i = choose|i: int| bytes_lt_at(a, b, i);
    let j = choose|j: int| bytes_lt_at(b, c, j);
    if i < j {
        assert(bytes_lt_at(a, c, i));
    } else if j < i {
        assert(bytes_lt_at(a, c, j));
    } else {
        assert(bytes_lt_at(a, c, i));
    }
}

/// Compares two byte strings in lexicographic order.
pub fn compare_bytes(a: &Vec<u8>, b: &Vec<u8>) -> (c: KeyOrder)
    ensures
        (c == KeyOrder::Equal) == (a@ == b@),
        (c == KeyOrder::Less) == bytes_lt(a@, b@),
        (c == KeyOrder::Greater) == bytes_lt(b@, a@),
{
    let mut i: usize = 0;
    while i < a.len() && i < b.len()
        invariant
            i <= a.len(),
            i <= b.len(),
            forall|j: int| 0 <= j < i ==> a@[j] == b@[j],
        decreases a.len() - i,
    {
        if a[i] < b[i] {
            proof {
                assert(bytes_lt_at(a@, b@, i as int));
                lemma_bytes_lt_irreflexive(a@);
                if bytes_lt(b@, a@) {
                    lemma_bytes_lt_transitive(a@, b@, a@);
                }
            }
            return KeyOrder::Less;
        } else if a[i] > b[i] {
            proof {
                assert(bytes_lt_at(b@, a@, i as int));
                lemma_bytes_lt_irreflexive(a@);
                if bytes_lt(a@, b@) {
                    lemma_bytes_lt_transitive(a@, b@, a@);
                }
            }
            return KeyOrder::Greater;
        }
        i += 1;
    }
    if a.len() < b.len() {
        proof {
            assert(bytes_lt_at(a@, b@, i as int));
            lemma_bytes_lt_irreflexive(a@);
            if bytes_lt(b@, a@) {
                lemma_bytes_lt_transitive(a@, b@, a@);
            }
        }
        KeyOrder::Less
    } else if a.len() > b.len() {
        proof {
            assert(bytes_lt_at(b@, a@, i as int));
            lemma_bytes_lt_irreflexive(a@);
            if bytes_lt(a@, b@) {
                lemma_bytes_lt_transitive(a@, b@, a@);
            }
        }
        KeyOrder::Greater
    } else {
        proof {
            assert(a@ =~= b@);
            lemma_bytes_lt_irreflexive(a@);
        }
        KeyOrder::Equal
    }
}

/// The deep view of a byte vector is its view.
pub broadcast proof fn lemma_bytes_deep_view(v: &Vec<u8>)
    ensures
        #[trigger] v.deep_view() == v@,
{
    assert(v.deep_view() =~= v@);
}

/// Tells whether two byte strings are equal.
pub fn bytes_equal(a: &Vec<u8>, b: &Vec<u8>) -> (r: bool)
    ensures
        r == (a@ == b@),
{
    match compare_bytes(a, b) {
        KeyOrder::Equal => true,
        _ => false,
    }
}

/// The bytes of a text constant.
pub fn text_of(s: &str) -> (r: Vec<u8>)
    ensures
        r@ == s.spec_bytes(),
{
    slice_to_vec(s.as_bytes())
}

impl TableKey for Vec<u8> {
    open spec fn key_lt(a: Seq<u8>, b: Seq<u8>) -> bool {
        bytes_lt(a, b)
    }

    proof fn lemma_key_lt_irreflexive(a: Seq<u8>) {
        lemma_bytes_lt_irreflexive(a);
    }

    proof fn lemma_key_lt_transitive(a: Seq<u8>, b: Seq<u8>, c: Seq<u8>) {
        lemma_bytes_lt_transitive(a, b, c);
    }

    fn compare_key(&self, other: &Self) -> (c: KeyOrder) {
        proof {
            assert(self.deep_view() =~= self@);
            assert(other.deep_view() =~= other@);
        }
        compare_bytes(self, other)
    }
}

// ---------------------------------------------------------------------------
// Tables
// ---------------------------------------------------------------------------

/// Some entry of `s` has key `k`.
pub open spec fn seq_has_key<A, B>(s: Seq<(A, B)>, k: A) -> bool {
    exists|i: int| 0 <= i < s.len() && (#[trigger] s[i]).0 == k
}

/// The position of an entry of `s` with key `k`.
pub open spec fn seq_key_index<A, B>(s: Seq<(A, B)>, k: A) -> int {
    choose|i: int| 0 <= i < s.len() && (#[trigger] s[i]).0 == k
}

/// The map that a sequence of entries stands for.
pub open spec fn seq_to_map<A, B>(s: Seq<(A, B)>) -> Map<A, B> {
    Map::new(|k: A| seq_has_key(s, k), |k: A| s[seq_key_index(s, k)].1)
}

/// No two entries of `s` share a key.
pub open spec fn keys_unique<A, B>(s: Seq<(A, B)>) -> bool {
    forall|i: int, j: int|
        #![trigger s[i], s[j]]
        0 <= i < s.len() && 0 <= j < s.len() && s[i].0 == s[j].0 ==> i == j
}

pub proof fn lemma_key_index<A, B>(s: Seq<(A, B)>, i: int)
    requires
        keys_unique(s),
        0 <= i < s.len(),
    ensures
        seq_has_key(s, s[i].0),
        seq_key_index(s, s[i].0) == i,
        seq_to_map(s).contains_key(s[i].0),
        seq_to_map(s)[s[i].0] == s[i].1,
{
    assert(seq_has_key(s, s[i].0));
}

pub proof fn lemma_update_map<A, B>(s: Seq<(A, B)>, i: int, v: B)
    requires
        keys_unique(s),
        0 <= i < s.len(),
    ensures
        keys_unique(s.update(i, (s[i].0, v))),
        seq_to_map(s.update(i, (s[i].0, v))) == seq_to_map(s).insert(s[i].0, v),
{
    let k = s[i].0;
    let t = s.update(i, (k, v));
    assert forall|x: int, y: int|
        #![trigger t[x], t[y]]
        0 <= x < t.len() && 0 <= y < t.len() && t[x].0 == t[y].0 implies x == y by {
        assert(t[x].0 == s[x].0);
        assert(t[y].0 == s[y].0);
    }
    assert forall|x: A| seq_has_key(t, x) == (x == k || seq_has_key(s, x)) by {
        if seq_has_key(s, x) {
            let j = choose|j: int| 0 <= j < s.len() && (#[trigger] s[j]).0 == x;
            assert(t[j].0 == x);
        }
        if seq_has_key(t, x) {
            let j = choose|j: int| 0 <= j < t.len() && (#[trigger] t[j]).0 == x;
            assert(s[j].0 == x);
        }
        if x == k {
            assert(t[i].0 == x);
        }
    }
    assert forall|x: A| seq_has_key(t, x) implies seq_to_map(t)[x] == seq_to_map(s).insert(k, v)[x] by {
        let j = seq_key_index(t, x);
        if x == k {
            assert(t[i].0 == k);
        } else {
            assert(s[j].0 == x);
            lemma_key_index(s, j);
        }
    }
    assert(seq_to_map(t) =~= seq_to_map(s).insert(k, v));
}

pub proof fn lemma_insert_map<A, B>(s: Seq<(A, B)>, i: int, k: A, v: B)
    requires
        keys_unique(s),
        !seq_has_key(s, k),
        0 <= i <= s.len(),
    ensures
        keys_unique(s.insert(i, (k, v))),
        seq_to_map(s.insert(i, (k, v))) == seq_to_map(s).insert(k, v),
{
    let t = s.insert(i, (k, v));
    s.insert_ensures(i, (k, v));
    assert forall|x: int, y: int|
        #![trigger t[x], t[y]]
        0 <= x < t.len() && 0 <= y < t.len() && t[x].0 == t[y].0 implies x == y by {
        if x < i && y < i {
            assert(s[x].0 == s[y].0);
        } else if x > i && y > i {
            assert(t[x] == s[x - 1]);
            assert(t[y] == s[y - 1]);
            assert(s[x - 1].0 == s[y - 1].0);
        } else if x == i && y != i {
            if y < i {
                assert(s[y].0 == k);
            } else {
                assert(t[y] == s[y - 1]);
                assert(s[y - 1].0 == k);
            }
        } else if y == i && x != i {
            if x < i {
                assert(s[x].0 == k);
            } else {
                assert(t[x] == s[x - 1]);
                assert(s[x - 1].0 == k);
            }
        } else if x < i && y > i {
            assert(t[y] == s[y - 1]);
            assert(s[x].0 == s[y - 1].0);
        } else if y < i && x > i {
            assert(t[x] == s[x - 1]);
            assert(s[y].0 == s[x - 1].0);
        }
    }
    assert forall|x: A| seq_has_key(t, x) == (x == k || seq_has_key(s, x)) by {
        if seq_has_key(s, x) {
            let j = choose|j: int| 0 <= j < s.len() && (#[trigger] s[j]).0 == x;
            if j < i {
                assert(t[j].0 == x);
            } else {
                assert(t[j + 1] == s[j]);
                assert(t[j + 1].0 == x);
            }
        }
        if seq_has_key(t, x) && x != k {
            let j = choose|j: int| 0 <= j < t.len() && (#[trigger] t[j]).0 == x;
            if j < i {
                assert(s[j].0 == x);
            } else {
                assert(j != i);
                assert(t[j] == s[j - 1]);
                assert(s[j - 1].0 == x);
            }
        }
        if x == k {
            assert(t[i].0 == x);
        }
    }
    assert forall|x: A| seq_has_key(t, x) implies seq_to_map(t)[x] == seq_to_map(s).insert(k, v)[x] by {
        let j = seq_key_index(t, x);
        if x == k {
            assert(t[i].0 == k);
        } else if j < i {
            assert(s[j].0 == x);
            lemma_key_index(s, j);
        } else {
            assert(t[j] == s[j - 1]);
            lemma_key_index(s, j - 1);
        }
    }
    assert(seq_to_map(t) =~= seq_to_map(s).insert(k, v));
}

pub proof fn lemma_remove_map<A, B>(s: Seq<(A, B)>, i: int)
    requires
        keys_unique(s),
        0 <= i < s.len(),
    ensures
        keys_unique(s.remove(i)),
        seq_to_map(s.remove(i)) == seq_to_map(s).remove(s[i].0),
{
    let k = s[i].0;
    let t = s.remove(i);
    s.remove_ensures(i);
    assert forall|x: int, y: int|
        #![trigger t[x], t[y]]
        0 <= x < t.len() && 0 <= y < t.len() && t[x].0 == t[y].0 implies x == y by {
        let xs = if x < i { x } else { x + 1 };
        let ys = if y < i { y } else { y + 1 };
        assert(t[x] == s[xs]);
        assert(t[y] == s[ys]);
    }
    assert forall|x: A| seq_has_key(t, x) == (x != k && seq_has_key(s, x)) by {
        if seq_has_key(s, x) && x != k {
            let j = choose|j: int| 0 <= j < s.len() && (#[trigger] s[j]).0 == x;
            if j < i {
                assert(t[j].0 == x);
            } else {
                assert(j != i);
                assert(t[j - 1] == s[j]);
            }
        }
        if seq_has_key(t, x) {
            let j = choose|j: int| 0 <= j < t.len() && (#[trigger] t[j]).0 == x;
            let js = if j < i { j } else { j + 1 };
            assert(t[j] == s[js]);
            assert(s[js].0 == x);
            assert(js != i);
        }
    }
    assert forall|x: A| seq_has_key(t, x) implies seq_to_map(t)[x] == seq_to_map(s).remove(k)[x] by {
        let j = seq_key_index(t, x);
        let js = if j < i { j } else { j + 1 };
        assert(t[j] == s[js]);
        lemma_key_index(s, js);
    }
    assert(seq_to_map(t) =~= seq_to_map(s).remove(k));
}

/// The keys of `s` are in strictly ascending order.
pub open spec fn sorted_entries<K: TableKey, B>(s: Seq<(K::V, B)>) -> bool {
    forall|i: int, j: int|
        #![trigger s[i], s[j]]
        0 <= i < j < s.len() ==> K::key_lt(s[i].0, s[j].0)
}

/// Entries in strictly ascending key order have distinct keys.
pub proof fn lemma_sorted_keys_unique<K: TableKey, B>(s: Seq<(K::V, B)>)
    requires
        sorted_entries::<K, B>(s),
    ensures
        keys_unique(s),
{
    assert forall|i: int, j: int|
        #![trigger s[i], s[j]]
        0 <= i < s.len() && 0 <= j < s.len() && s[i].0 == s[j].0 implies i == j by {
        if i < j || j < i {
            K::lemma_key_lt_irreflexive(s[i].0);
        }
    }
}

/// Two entry lists in ascending key order that stand for the same map are
/// the same list: the map fixes the entries.
pub proof fn lemma_sorted_entries_unique<K: TableKey, B>(s1: Seq<(K::V, B)>, s2: Seq<(K::V, B)>)
    requires
        sorted_entries::<K, B>(s1),
        sorted_entries::<K, B>(s2),
        seq_to_map(s1) == seq_to_map(s2),
    ensures
        s1 == s2,
    decreases s1.len(),
{
    lemma_sorted_keys_unique::<K, B>(s1);
    lemma_sorted_keys_unique::<K, B>(s2);
    if s1.len() == 0 {
        if s2.len() > 0 {
            lemma_key_index(s2, 0);
            assert(seq_to_map(s1).contains_key(s2[0].0));
        }
        assert(s1 =~= s2);
    } else {
        lemma_key_index(s1, 0);
        if s2.len() == 0 {
            assert(seq_to_map(s2).contains_key(s1[0].0));
        }
        lemma_key_index(s2, 0);
        let a = s1[0].0;
        let b = s2[0].0;
        if a != b {
            assert(seq_to_map(s2).contains_key(a));
            let j = seq_key_index(s2, a);
            assert(0 < j < s2.len() && s2[j].0 == a);
            assert(K::key_lt(b, a));
            assert(seq_to_map(s1).contains_key(b));
            let i = seq_key_index(s1, b);
            assert(0 < i < s1.len() && s1[i].0 == b);
            assert(K::key_lt(a, b));
            K::lemma_key_lt_transitive(a, b, a);
            K::lemma_key_lt_irreflexive(a);
        }
        assert(s1[0] == s2[0]);
        lemma_remove_map(s1, 0);
        lemma_remove_map(s2, 0);
        let t1 = s1.remove(0);
        let t2 = s2.remove(0);
        assert forall|i: int, j: int| #![trigger t1[i], t1[j]] 0 <= i < j < t1.len() implies K::key_lt(t1[i].0, t1[j].0) by {
            assert(t1[i] == s1[i + 1] && t1[j] == s1[j + 1]);
        }
        assert forall|i: int, j: int| #![trigger t2[i], t2[j]] 0 <= i < j < t2.len() implies K::key_lt(t2[i].0, t2[j].0) by {
            assert(t2[i] == s2[i + 1] && t2[j] == s2[j + 1]);
        }
        lemma_sorted_entries_unique::<K, B>(t1, t2);
        assert(s1 =~= seq![s1[0]] + t1);
        assert(s2 =~= seq![s2[0]] + t2);
    }
}

/// A map from keys to values kept as a list of entries in ascending key order.
#[derive(Clone, Debug, PartialEq)]
pub struct Table<K, V> {
    entries: Vec<(K, V)>,
}

impl<K: TableKey, V: Duplicate> Table<K, V> {
    /// The entries, in ascending key order.
    pub closed spec fn entries_view(&self) -> Seq<(K::V, V::V)> {
        self.entries.deep_view()
    }

    /// The map that the table holds.
    pub open spec fn map(&self) -> Map<K::V, V::V> {
        seq_to_map(self.entries_view())
    }

    /// The entries are in strictly ascending key order.
    pub open spec fn wf(&self) -> bool {
        sorted_entries::<K, V::V>(self.entries_view())
    }

    pub proof fn lemma_wf_unique(&self)
        requires
            self.wf(),
        ensures
            keys_unique(self.entries_view()),
    {
        lemma_sorted_keys_unique::<K, V::V>(self.entries_view());
    }

    /// Each entry is in the map under its key.
    pub proof fn lemma_entry(&self, i: int)
        requires
            self.wf(),
            0 <= i < self.entries_view().len(),
        ensures
            self.map().contains_key(self.entries_view()[i].0),
            self.map()[self.entries_view()[i].0] == self.entries_view()[i].1,
    {
        self.lemma_wf_unique();
        lemma_key_index(self.entries_view(), i);
    }

    pub fn new() -> (t: Self)
        ensures
            t.wf(),
            t.entries_view() == Seq::<(K::V, V::V)>::empty(),
            t.map() == Map::<K::V, V::V>::empty(),
    {
        let t = Table { entries: Vec::new() };
        proof {
            assert(t.entries_view() =~= Seq::<(K::V, V::V)>::empty());
            assert(t.map() =~= Map::<K::V, V::V>::empty());
        }
        t
    }

    pub fn len(&self) -> (n: usize)
        ensures
            n == self.entries_view().len(),
    {
        self.entries.len()
    }

    pub fn key_at(&self, i: usize) -> (k: &K)
        requires
            i < self.entries_view().len(),
        ensures
            k.deep_view() == self.entries_view()[i as int].0,
    {
        &self.entries[i].0
    }

    pub fn value_at(&self, i: usize) -> (v: &V)
        requires
            i < self.entries_view().len(),
        ensures
            v.deep_view() == self.entries_view()[i as int].1,
    {
        &self.entries[i].1
    }

    /// The position of the entry with key `key`, if there is one.
    pub fn find(&self, key: &K) -> (r: Option<usize>)
        requires
            self.wf(),
        ensures
            match r {
                Some(i) => i < self.entries_view().len() && self.entries_view()[i as int].0
                    == key.deep_view(),
                None => !self.map().contains_key(key.deep_view()),
            },
    {
        let mut i: usize = 0;
        while i < self.entries.len()
            invariant
                i <= self.entries.len(),
                self.entries.len() == self.entries_view().len(),
                forall|j: int| 0 <= j < i ==> (#[trigger] self.entries_view()[j]).0 != key.deep_view(),
            decreases self.entries.len() - i,
        {
            if self.entries[i].0.compare_key(key) == KeyOrder::Equal {
                return Some(i);
            }
            i += 1;
        }
        None
    }

    pub fn contains_key(&self, key: &K) -> (b: bool)
        requires
            self.wf(),
        ensures
            b == self.map().contains_key(key.deep_view()),
    {
        match self.find(key) {
            Some(i) => {
                proof {
                    self.lemma_entry(i as int);
                }
                true
            },
            None => false,
        }
    }

    /// The value under `key`, if any.
    pub fn get(&self, key: &K) -> (r: Option<&V>)
        requires
            self.wf(),
        ensures
            match r {
                Some(v) => self.map().contains_key(key.deep_view()) && v.deep_view() == self.map()[key.deep_view()],
                None => !self.map().contains_key(key.deep_view()),
            },
    {
        match self.find(key) {
            Some(i) => {
                proof {
                    self.lemma_entry(i as int);
                }
                Some(&self.entries[i].1)
            },
            None => None,
        }
    }

    /// Stores `value` under `key`, replacing any value there.
    pub fn set(&mut self, key: K, value: V)
        requires
            old(self).wf(),
        ensures
            final(self).wf(),
            final(self).map() == old(self).map().insert(key.deep_view(), value.deep_view()),
    {
        let ghost s = self.entries_view();
        let ghost kv = key.deep_view();
        let ghost vv = value.deep_view();
        proof {
            self.lemma_wf_unique();
        }
        let mut i: usize = 0;
        while i < self.entries.len()
            invariant
                i <= self.entries.len(),
                self.entries.len() == s.len(),
                self.entries_view() == s,
                old(self).entries_view() == s,
                kv == key.deep_view(),
                vv == value.deep_view(),
                keys_unique(s),
                forall|x: int, y: int|
                    #![trigger s[x], s[y]]
                    0 <= x < y < s.len() ==> K::key_lt(s[x].0, s[y].0),
                forall|j: int| 0 <= j < i ==> K::key_lt((#[trigger] s[j]).0, kv),
            decreases self.entries.len() - i,
        {
            let c = self.entries[i].0.compare_key(&key);
            if c == KeyOrder::Equal {
                proof {
                    assert(s[i as int] == self.entries@[i as int].deep_view());
                    assert(s[i as int].0 == kv);
                }
                let ghost pre = self.entries@;
                self.entries.set(i, (key, value));
                proof {
                    lemma_update_map(s, i as int, vv);
                    let t = s.update(i as int, (s[i as int].0, vv));
                    assert forall|j: int| 0 <= j < t.len() implies #[trigger] self.entries_view()[j] == t[j] by {
                        if j != i {
                            assert(self.entries@[j] == pre[j]);
                        }
                    }
                    assert(self.entries_view() =~= t);
                    assert forall|x: int, y: int|
                        #![trigger t[x], t[y]]
                        0 <= x < y < t.len() implies K::key_lt(t[x].0, t[y].0) by {
                        assert(t[x].0 == s[x].0 && t[y].0 == s[y].0);
                    }
                    assert(self.map() == seq_to_map(s).insert(kv, vv));
                }
                return;
            } else if c == KeyOrder::Greater {
                let ghost pre = self.entries@;
                self.entries.insert(i, (key, value));
                proof {
                    assert(s[i as int] == pre[i as int].deep_view());
                    assert(K::key_lt(kv, s[i as int].0));
                    assert(!seq_has_key(s, kv)) by {
                        if seq_has_key(s, kv) {
                            let j = choose|j: int| 0 <= j < s.len() && (#[trigger] s[j]).0 == kv;
                            if j < i {
                                K::lemma_key_lt_irreflexive(kv);
                            } else if j > i {
                                K::lemma_key_lt_transitive(kv, s[i as int].0, s[j].0);
                                K::lemma_key_lt_irreflexive(kv);
                            }
                        }
                    }
                    lemma_insert_map(s, i as int, kv, vv);
                    s.insert_ensures(i as int, (kv, vv));
                    let t = s.insert(i as int, (kv, vv));
                    pre.insert_ensures(i as int, (key, value));
                    assert forall|j: int| 0 <= j < t.len() implies #[trigger] self.entries_view()[j] == t[j] by {
                        if j < i {
                            assert(self.entries@[j] == pre[j]);
                        } else if j > i {
                            assert(self.entries@[j] == pre[j - 1]);
                        }
                    }
                    assert(self.entries_view() =~= t);
                    assert forall|x: int, y: int|
                        #![trigger t[x], t[y]]
                        0 <= x < y < t.len() implies K::key_lt(t[x].0, t[y].0) by {
                        if y < i {
                        } else if x > i {
                            assert(t[x] == s[x - 1] && t[y] == s[y - 1]);
                        } else if x == i {
                            assert(t[y] == s[y - 1]);
                            if y - 1 > i {
                                K::lemma_key_lt_transitive(kv, s[i as int].0, s[y - 1].0);
                            }
                        } else if y == i {
                        } else {
                            assert(t[y] == s[y - 1]);
                            K::lemma_key_lt_transitive(s[x].0, kv, s[i as int].0);
                            if y - 1 > i {
                                K::lemma_key_lt_transitive(s[x].0, s[i as int].0, s[y - 1].0);
                            }
                        }
                    }
                }
                return;
            }
            i += 1;
        }
        self.entries.push((key, value));
        proof {
            assert(!seq_has_key(s, kv)) by {
                if seq_has_key(s, kv) {
                    let j = choose|j: int| 0 <= j < s.len() && (#[trigger] s[j]).0 == kv;
                    K::lemma_key_lt_irreflexive(kv);
                }
            }
            lemma_insert_map(s, s.len() as int, kv, vv);
            let t = s.insert(s.len() as int, (kv, vv));
            s.insert_ensures(s.len() as int, (kv, vv));
            assert(self.entries_view() =~= t);
        }
    }

    /// Removes the entry under `key`, returning its value if there was one.
    pub fn remove(&mut self, key: &K) -> (r: Option<V>)
        requires
            old(self).wf(),
        ensures
            final(self).wf(),
            final(self).map() == old(self).map().remove(key.deep_view()),
            match r {
                Some(v) => old(self).map().contains_key(key.deep_view()) && v.deep_view() == old(
                    self,
                ).map()[key.deep_view()],
                None => !old(self).map().contains_key(key.deep_view()),
            },
    {
        let ghost s = self.entries_view();
        match self.find(key) {
            Some(i) => {
                proof {
                    self.lemma_entry(i as int);
                    self.lemma_wf_unique();
                    lemma_remove_map(s, i as int);
                }
                let (_, v) = self.entries.remove(i);
                proof {
                    s.remove_ensures(i as int);
                    assert(self.entries_view() =~= s.remove(i as int));
                }
                Some(v)
            },
            None => {
                proof {
                    assert(self.map() =~= old(self).map().remove(key.deep_view()));
                }
                None
            },
        }
    }
}

impl<K: TableKey, V: Duplicate> DeepView for Table<K, V> {
    type V = Seq<(K::V, V::V)>;

    open spec fn deep_view(&self) -> Seq<(K::V, V::V)> {
        self.entries_view()
    }
}

impl<K: TableKey, V: Duplicate> Duplicate for Table<K, V> {
    fn duplicate(&self) -> (r: Self) {
        let mut entries: Vec<(K, V)> = Vec::new();
        let mut i: usize = 0;
        while i < self.entries.len()
            invariant
                i <= self.entries.len(),
                entries.len() == i,
                forall|j: int| 0 <= j < i ==> (#[trigger] entries@[j]).deep_view() == self.entries@[j].deep_view(),
            decreases self.entries.len() - i,
        {
            entries.push((self.entries[i].0.duplicate(), self.entries[i].1.duplicate()));
            i += 1;
        }
        let r = Table { entries };
        proof {
            assert(r.entries_view() =~= self.entries_view());
        }
        r
    }
}

} // verus!
