//! Property sets: named, multi-valued properties of four kinds (strings,
//! integers, pointers and doubles).
//!
//! A pointer is held as the address it points to, and a double as the bits of
//! its IEEE-754 encoding (`f64::to_bits`), so that every value is a plain
//! integer or a string; the store never computes with them, it only keeps and
//! copies them.

use vstd::prelude::*;
use vstd::hash_map::StringHashMap;

verus! {

/// A value that a property of some kind holds.
pub trait PropertyValue: Sized + View {
    /// The view of the value that fills the slots a write skips over.
    spec fn spec_fill() -> Self::V;

    /// The value that fills the slots a write skips over.
    fn fill() -> (r: Self)
        ensures
            r@ == Self::spec_fill(),
    ;

    /// A copy of the value.
    fn duplicate(&self) -> (r: Self)
        ensures
            r@ == self@,
    ;
}

impl PropertyValue for i32 {
    open spec fn spec_fill() -> i32 {
        0
    }

    fn fill() -> (r: i32) {
        0
    }

    fn duplicate(&self) -> (r: i32) {
        *self
    }
}

impl PropertyValue for usize {
    open spec fn spec_fill() -> usize {
        0
    }

    fn fill() -> (r: usize) {
        0
    }

    fn duplicate(&self) -> (r: usize) {
        *self
    }
}

impl PropertyValue for u64 {
    open spec fn spec_fill() -> u64 {
        0
    }

    fn fill() -> (r: u64) {
        0
    }

    fn duplicate(&self) -> (r: u64) {
        *self
    }
}

impl PropertyValue for String {
    open spec fn spec_fill() -> Seq<char> {
        Seq::empty()
    }

    fn fill() -> (r: String) {
        String::new()
    }

    fn duplicate(&self) -> (r: String) {
        self.clone()
    }
}

/// The views of the values in a vector.
pub open spec fn values_view<V: View>(v: Vec<V>) -> Seq<V::V> {
    v@.map_values(|x: V| x@)
}

/// The views of the values in a slice.
pub open spec fn slice_view<V: View>(v: &[V]) -> Seq<V::V> {
    v@.map_values(|x: V| x@)
}

/// The contents of one table: each property name and the views of its values.
pub open spec fn table_view<V: View>(t: StringHashMap<Vec<V>>) -> Map<Seq<char>, Seq<V::V>> {
    t@.map_values(|v: Vec<V>| values_view(v))
}

/// The values of a property, or none when the property is absent.
pub open spec fn entry_of<T>(m: Map<Seq<char>, Seq<T>>, k: Seq<char>) -> Seq<T> {
    if m.contains_key(k) {
        m[k]
    } else {
        Seq::empty()
    }
}

/// `s` lengthened with `fill` up to `n` values, or `s` itself when it is long enough.
pub open spec fn padded<T>(s: Seq<T>, n: int, fill: T) -> Seq<T> {
    if s.len() >= n {
        s
    } else {
        s + Seq::new((n - s.len()) as nat, |i: int| fill)
    }
}

/// `s` with `v` written at `idx`, lengthened with `fill` first where needed.
pub open spec fn written<T>(s: Seq<T>, idx: int, v: T, fill: T) -> Seq<T> {
    padded(s, idx + 1, fill).update(idx, v)
}

/// `s` with its first values replaced by `vals`, lengthened where `vals` is longer.
pub open spec fn overwritten<T>(s: Seq<T>, vals: Seq<T>) -> Seq<T> {
    if vals.len() >= s.len() {
        vals
    } else {
        vals + s.subrange(vals.len() as int, s.len() as int)
    }
}

/// The value of property `k` at `idx`, when there is one.
pub open spec fn value_at<T>(m: Map<Seq<char>, Seq<T>>, k: Seq<char>, idx: int) -> Option<T> {
    let e = entry_of(m, k);
    if 0 <= idx < e.len() {
        Some(e[idx])
    } else {
        None
    }
}

/// The table after a single value is written.
pub open spec fn spec_write<T>(m: Map<Seq<char>, Seq<T>>, k: Seq<char>, idx: int, v: T, fill: T) -> Map<
    Seq<char>,
    Seq<T>,
> {
    m.insert(k, written(entry_of(m, k), idx, v, fill))
}

/// The table after several values are written from the first index on.
pub open spec fn spec_write_n<T>(m: Map<Seq<char>, Seq<T>>, k: Seq<char>, vals: Seq<T>) -> Map<
    Seq<char>,
    Seq<T>,
> {
    m.insert(k, overwritten(entry_of(m, k), vals))
}

/// The table after a single value is read: the property is present afterwards.
pub open spec fn spec_touch<T>(m: Map<Seq<char>, Seq<T>>, k: Seq<char>) -> Map<Seq<char>, Seq<T>> {
    m.insert(k, entry_of(m, k))
}

/// The table after `count` values are read: the property is lengthened to `count` values.
pub open spec fn spec_read_n<T>(m: Map<Seq<char>, Seq<T>>, k: Seq<char>, count: int, fill: T) -> Map<
    Seq<char>,
    Seq<T>,
> {
    m.insert(k, padded(entry_of(m, k), count, fill))
}

/// The contents of a property set.
pub struct PropertySetView {
    pub strings: Map<Seq<char>, Seq<Seq<char>>>,
    pub ints: Map<Seq<char>, Seq<i32>>,
    pub pointers: Map<Seq<char>, Seq<usize>>,
    pub doubles: Map<Seq<char>, Seq<u64>>,
}

impl PropertySetView {
    /// The property set that holds nothing.
    pub open spec fn empty() -> PropertySetView {
        PropertySetView {
            strings: Map::empty(),
            ints: Map::empty(),
            pointers: Map::empty(),
            doubles: Map::empty(),
        }
    }
}

/// A set of named properties, each holding a sequence of values of one kind.
pub struct PropertySet {
    pub strings: StringHashMap<Vec<String>>,
    pub ints: StringHashMap<Vec<i32>>,
    /// Addresses.
    pub pointers: StringHashMap<Vec<usize>>,
    /// IEEE-754 bit patterns of doubles.
    pub doubles: StringHashMap<Vec<u64>>,
}

impl View for PropertySet {
    type V = PropertySetView;

    open spec fn view(&self) -> PropertySetView {
        PropertySetView {
            strings: table_view(self.strings),
            ints: table_view(self.ints),
            pointers: table_view(self.pointers),
            doubles: table_view(self.doubles),
        }
    }
}

impl PropertySet {
    /// An empty property set.
    pub fn new() -> (r: PropertySet)
        ensures
            r@ == PropertySetView::empty(),
    {
        let r = PropertySet {
            strings: StringHashMap::new(),
            ints: StringHashMap::new(),
            pointers: StringHashMap::new(),
            doubles: StringHashMap::new(),
        };
        assert(r@.strings =~= Map::empty());
        assert(r@.ints =~= Map::empty());
        assert(r@.pointers =~= Map::empty());
        assert(r@.doubles =~= Map::empty());
        r
    }
}

impl Default for PropertySet {
    fn default() -> (r: PropertySet)
        ensures
            r@ == PropertySetView::empty(),
    {
        PropertySet::new()
    }
}

/// The length and the values of `values_view`.
pub(crate) proof fn lemma_values_view<V: View>(v: Vec<V>)
    ensures
        values_view(v).len() == v@.len(),
        forall|j: int| 0 <= j < v@.len() ==> #[trigger] values_view(v)[j] == v@[j]@,
{
}

/// Something that owns a property set.
pub trait AsPropertySet {
    /// The property set it owns.
    spec fn spec_properties(&self) -> PropertySet;

    /// Its property set.
    fn get_properties(&self) -> (r: &PropertySet)
        ensures
            *r == self.spec_properties(),
    ;

    /// Its property set, to change; the owner holds what is left in it.
    fn get_properties_mut(&mut self) -> (r: &mut PropertySet)
        ensures
            *r == old(self).spec_properties(),
            final(self).spec_properties() == *final(r),
    ;
}

/// A copy of the values of property `key`, empty when it is absent.
fn copy_entry<V: PropertyValue>(t: &StringHashMap<Vec<V>>, key: &str) -> (r: Vec<V>)
    ensures
        values_view(r) == entry_of(table_view(*t), key@),
{
    match t.get(key) {
        None => {
            let out: Vec<V> = Vec::new();
            proof {
                lemma_values_view(out);
            }
            assert(values_view(out) =~= Seq::empty());
            out
        },
        Some(v) => {
            let mut out: Vec<V> = Vec::new();
            let mut i: usize = 0;
            while i < v.len()
                invariant
                    i <= v.len(),
                    out@.len() == i,
                    forall|j: int| 0 <= j < i ==> #[trigger] out@[j]@ == v@[j]@,
                decreases v.len() - i,
            {
                let x = v[i].duplicate();
                out.push(x);
                i = i + 1;
            }
            proof {
                lemma_values_view(out);
                lemma_values_view(*v);
            }
            assert(values_view(out) =~= values_view(*v));
            out
        },
    }
}

/// Lengthens `v` with fill values up to `n` values.
fn pad_to<V: PropertyValue>(v: &mut Vec<V>, n: usize)
    ensures
        values_view(*final(v)) == padded(values_view(*old(v)), n as int, V::spec_fill()),
{
    let ghost start = values_view(*v);
    proof {
        lemma_values_view(*v);
    }
    while v.len() < n
        invariant
            start.len() <= v@.len(),
            v@.len() <= start.len() || v@.len() <= n,
            forall|j: int| 0 <= j < start.len() ==> #[trigger] v@[j]@ == start[j],
            forall|j: int| start.len() <= j < v@.len() ==> #[trigger] v@[j]@ == V::spec_fill(),
        decreases n - v.len(),
    {
        let x = V::fill();
        v.push(x);
    }
    proof {
        lemma_values_view(*v);
    }
    assert(values_view(*v) =~= padded(start, n as int, V::spec_fill()));
}

/// Replaces all values of property `key` with `values`.
pub(crate) fn table_put<V: PropertyValue>(t: &mut StringHashMap<Vec<V>>, key: &str, values: Vec<V>)
    ensures
        table_view(*final(t)) == table_view(*old(t)).insert(key@, values_view(values)),
{
    let k: String = key.to_owned();
    t.insert(k, values);
    assert(table_view(*t) =~= table_view(*old(t)).insert(key@, values_view(values)));
}

/// Writes `value` at `idx` of property `key`.
pub(crate) fn table_write<V: PropertyValue>(
    t: &mut StringHashMap<Vec<V>>,
    key: String,
    idx: usize,
    value: V,
)
    requires
        idx < usize::MAX,
    ensures
        table_view(*final(t)) == spec_write(
            table_view(*old(t)),
            key@,
            idx as int,
            value@,
            V::spec_fill(),
        ),
{
    let mut entry = copy_entry(t, key.as_str());
    pad_to(&mut entry, idx + 1);
    let ghost before = values_view(entry);
    proof {
        lemma_values_view(entry);
    }
    entry.set(idx, value);
    proof {
        lemma_values_view(entry);
    }
    assert(values_view(entry) =~= before.update(idx as int, value@));
    t.insert(key, entry);
    assert(table_view(*t) =~= spec_write(
        table_view(*old(t)),
        key@,
        idx as int,
        value@,
        V::spec_fill(),
    ));
}

/// Writes `vals` over the first values of property `key`.
pub(crate) fn table_write_n<V: PropertyValue>(t: &mut StringHashMap<Vec<V>>, key: String, vals: &[V])
    ensures
        table_view(*final(t)) == spec_write_n(table_view(*old(t)), key@, slice_view(vals)),
{
    let mut entry = copy_entry(t, key.as_str());
    let ghost start = values_view(entry);
    pad_to(&mut entry, vals.len());
    let ghost padded_entry = values_view(entry);
    proof {
        lemma_values_view(entry);
    }
    let mut i: usize = 0;
    while i < vals.len()
        invariant
            i <= vals.len(),
            entry@.len() == padded_entry.len(),
            padded_entry == padded(start, vals.len() as int, V::spec_fill()),
            forall|j: int| 0 <= j < i ==> #[trigger] entry@[j]@ == vals@[j]@,
            forall|j: int| i <= j < entry@.len() ==> #[trigger] entry@[j]@ == padded_entry[j],
        decreases vals.len() - i,
    {
        let x = vals[i].duplicate();
        entry.set(i, x);
        i = i + 1;
    }
    proof {
        lemma_values_view(entry);
    }
    assert(values_view(entry) =~= overwritten(start, slice_view(vals)));
    t.insert(key, entry);
    assert(table_view(*t) =~= spec_write_n(table_view(*old(t)), key@, slice_view(vals)));
}

/// Reads the value at `idx` of property `key`; the property is present afterwards.
pub(crate) fn table_read<V: PropertyValue>(t: &mut StringHashMap<Vec<V>>, key: String, idx: usize) -> (r:
    Option<V>)
    ensures
        table_view(*final(t)) == spec_touch(table_view(*old(t)), key@),
        match r {
            Some(x) => value_at(table_view(*old(t)), key@, idx as int) == Some(x@),
            None => value_at(table_view(*old(t)), key@, idx as int) is None,
        },
{
    if !t.contains_key(key.as_str()) {
        let empty: Vec<V> = Vec::new();
        proof {
            lemma_values_view(empty);
        }
        assert(values_view(empty) =~= Seq::empty());
        t.insert(key, empty);
        assert(table_view(*t) =~= spec_touch(table_view(*old(t)), key@));
        None
    } else {
        assert(table_view(*t) =~= spec_touch(table_view(*old(t)), key@));
        match t.get(key.as_str()) {
            None => None,
            Some(v) => {
                proof {
                    lemma_values_view(*v);
                }
                if idx < v.len() {
                    Some(v[idx].duplicate())
                } else {
                    None
                }
            },
        }
    }
}

/// Reads the first `count` values of property `key`, lengthening it with fill
/// values first where it is shorter.
pub(crate) fn table_read_n<V: PropertyValue>(
    t: &mut StringHashMap<Vec<V>>,
    key: String,
    count: usize,
) -> (r: Vec<V>)
    ensures
        table_view(*final(t)) == spec_read_n(table_view(*old(t)), key@, count as int, V::spec_fill()),
        values_view(r) == padded(entry_of(table_view(*old(t)), key@), count as int, V::spec_fill()).take(
            count as int,
        ),
{
    let mut entry = copy_entry(t, key.as_str());
    pad_to(&mut entry, count);
    proof {
        lemma_values_view(entry);
    }
    let mut out: Vec<V> = Vec::new();
    let mut i: usize = 0;
    while i < count
        invariant
            i <= count,
            count <= entry@.len(),
            out@.len() == i,
            forall|j: int| 0 <= j < i ==> #[trigger] out@[j]@ == entry@[j]@,
        decreases count - i,
    {
        let x = entry[i].duplicate();
        out.push(x);
        i = i + 1;
    }
    proof {
        lemma_values_view(out);
    }
    assert(values_view(out) =~= values_view(entry).take(count as int));
    t.insert(key, entry);
    assert(table_view(*t) =~= spec_read_n(table_view(*old(t)), key@, count as int, V::spec_fill()));
    out
}

} // verus!
