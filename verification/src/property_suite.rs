//! The property suite: reading and writing the values of a property set.
//!
//! Property names and string values arrive as the bytes of C strings; a name
//! or value that is not valid UTF-8 makes the call fail. Handles that are NULL
//! are refused by the caller before these operations run.

use vstd::prelude::*;
use vstd::hash_map::StringHashMap;

use crate::ofx_constants::{kOfxStatErrBadHandle, kOfxStatErrUnsupported, kOfxStatFailed, kOfxStatOK};
use crate::property_set::{
    entry_of, lemma_values_view, overwritten, padded, slice_view, spec_read_n, spec_touch, spec_write, spec_write_n, table_read,
    table_read_n, table_view, table_write, table_write_n, value_at, values_view, PropertySet,
    PropertySetView, PropertyValue,
};
use crate::text::{decode_c_text, utf8_text};

verus! {

/// What writing one value does: the status and the table afterwards.
pub open spec fn set_outcome<T>(
    m: Map<Seq<char>, Seq<T>>,
    property: Seq<u8>,
    index: int,
    v: T,
    fill: T,
) -> (i32, Map<Seq<char>, Seq<T>>) {
    if index < 0 {
        (kOfxStatErrBadHandle, m)
    } else {
        match utf8_text(property) {
            None => (kOfxStatFailed, m),
            Some(k) => (kOfxStatOK, spec_write(m, k, index, v, fill)),
        }
    }
}

/// What writing one string value does: as `set_outcome`, and the value must be text too.
pub open spec fn set_string_outcome(
    m: Map<Seq<char>, Seq<Seq<char>>>,
    property: Seq<u8>,
    index: int,
    value: Seq<u8>,
) -> (i32, Map<Seq<char>, Seq<Seq<char>>>) {
    if index < 0 {
        (kOfxStatErrBadHandle, m)
    } else {
        match (utf8_text(property), utf8_text(value)) {
            (Some(k), Some(v)) => (kOfxStatOK, spec_write(m, k, index, v, Seq::empty())),
            _ => (kOfxStatFailed, m),
        }
    }
}

/// What writing `count` values does: the status and the table afterwards.
pub open spec fn set_n_outcome<T>(
    m: Map<Seq<char>, Seq<T>>,
    property: Seq<u8>,
    count: int,
    vals: Seq<T>,
) -> (i32, Map<Seq<char>, Seq<T>>) {
    if count < 0 {
        (kOfxStatErrBadHandle, m)
    } else {
        match utf8_text(property) {
            None => (kOfxStatFailed, m),
            Some(k) => (kOfxStatOK, spec_write_n(m, k, vals)),
        }
    }
}

/// What reading one value does: the table afterwards and the value or the status.
pub open spec fn get_outcome<T>(m: Map<Seq<char>, Seq<T>>, property: Seq<u8>, index: int) -> (Map<
    Seq<char>,
    Seq<T>,
>, Result<T, i32>) {
    if index < 0 {
        (m, Err(kOfxStatErrBadHandle))
    } else {
        match utf8_text(property) {
            None => (m, Err(kOfxStatFailed)),
            Some(k) => (
                spec_touch(m, k),
                match value_at(m, k, index) {
                    Some(v) => Ok(v),
                    None => Err(kOfxStatFailed),
                },
            ),
        }
    }
}

/// What reading `count` values does: the table afterwards and the values or the status.
pub open spec fn get_n_outcome<T>(
    m: Map<Seq<char>, Seq<T>>,
    property: Seq<u8>,
    count: int,
    fill: T,
) -> (Map<Seq<char>, Seq<T>>, Result<Seq<T>, i32>) {
    match utf8_text(property) {
        None => (m, Err(kOfxStatFailed)),
        Some(k) => (spec_read_n(m, k, count, fill), Ok(padded(entry_of(m, k), count, fill).take(count))),
    }
}

/// A value written at an index of a property is what a read of that index
/// then gives.
pub proof fn law_read_after_write<T>(
    m: Map<Seq<char>, Seq<T>>,
    property: Seq<u8>,
    index: int,
    v: T,
    fill: T,
)
    requires
        index >= 0,
        utf8_text(property) is Some,
    ensures
        set_outcome(m, property, index, v, fill).0 == kOfxStatOK,
        get_outcome(set_outcome(m, property, index, v, fill).1, property, index).1 == Ok::<T, i32>(v),
{
}

/// A string written at an index of a property is what a read of that index
/// then gives.
pub proof fn law_read_after_write_string(
    m: Map<Seq<char>, Seq<Seq<char>>>,
    property: Seq<u8>,
    index: int,
    value: Seq<u8>,
)
    requires
        index >= 0,
        utf8_text(property) is Some,
        utf8_text(value) is Some,
    ensures
        set_string_outcome(m, property, index, value).0 == kOfxStatOK,
        get_outcome(set_string_outcome(m, property, index, value).1, property, index).1 == Ok::<
            Seq<char>,
            i32,
        >(utf8_text(value)->0),
{
}

/// Writing a property leaves every other property as it reads.
pub proof fn law_write_keeps_other_properties<T>(
    m: Map<Seq<char>, Seq<T>>,
    property: Seq<u8>,
    index: int,
    v: T,
    fill: T,
    other: Seq<u8>,
    j: int,
)
    requires
        utf8_text(property) != utf8_text(other),
        utf8_text(other) is Some,
    ensures
        get_outcome(set_outcome(m, property, index, v, fill).1, other, j).1 == get_outcome(
            m,
            other,
            j,
        ).1,
{
}

/// Writing one index of a property leaves every other value it held as it was.
pub proof fn law_write_keeps_other_indices<T>(
    m: Map<Seq<char>, Seq<T>>,
    property: Seq<u8>,
    index: int,
    v: T,
    fill: T,
    j: int,
)
    requires
        j != index,
        get_outcome(m, property, j).1 is Ok,
    ensures
        get_outcome(set_outcome(m, property, index, v, fill).1, property, j).1 == get_outcome(
            m,
            property,
            j,
        ).1,
{
    if index >= 0 {
        let k = utf8_text(property)->0;
        let e = entry_of(m, k);
        assert(padded(e, index + 1, fill)[j] == e[j]);
    }
}

/// Writing `n` values of a property and then reading `n` values gives them back.
pub proof fn law_read_n_after_write_n<T>(m: Map<Seq<char>, Seq<T>>, property: Seq<u8>, vals: Seq<T>, fill: T)
    requires
        utf8_text(property) is Some,
    ensures
        set_n_outcome(m, property, vals.len() as int, vals).0 == kOfxStatOK,
        get_n_outcome(
            set_n_outcome(m, property, vals.len() as int, vals).1,
            property,
            vals.len() as int,
            fill,
        ).1 == Ok::<Seq<T>, i32>(vals),
{
    let k = utf8_text(property)->0;
    let e = overwritten(entry_of(m, k), vals);
    assert(padded(e, vals.len() as int, fill).take(vals.len() as int) =~= vals);
}

/// Reading a value changes no value that later reads give.
pub proof fn law_read_keeps_values<T>(
    m: Map<Seq<char>, Seq<T>>,
    property: Seq<u8>,
    index: int,
    other: Seq<u8>,
    j: int,
)
    ensures
        get_outcome(get_outcome(m, property, index).0, other, j).1 == get_outcome(m, other, j).1,
{
}

/// Reading several values changes no value that a single read gave before.
pub proof fn law_read_n_keeps_values<T>(
    m: Map<Seq<char>, Seq<T>>,
    property: Seq<u8>,
    count: int,
    fill: T,
    other: Seq<u8>,
    j: int,
)
    requires
        count >= 0,
        get_outcome(m, other, j).1 is Ok,
    ensures
        get_outcome(get_n_outcome(m, property, count, fill).0, other, j).1 == get_outcome(
            m,
            other,
            j,
        ).1,
{
}

/// A negative index is a bad handle, for reads and writes alike, and changes
/// nothing; reading an index that the property does not hold fails.
pub proof fn law_out_of_range_indices_fail<T>(
    m: Map<Seq<char>, Seq<T>>,
    property: Seq<u8>,
    index: int,
    v: T,
    fill: T,
)
    ensures
        index < 0 ==> set_outcome(m, property, index, v, fill) == (kOfxStatErrBadHandle, m),
        index < 0 ==> get_outcome(m, property, index) == (m, Err::<T, i32>(kOfxStatErrBadHandle)),
        utf8_text(property) is None ==> set_outcome(m, property, index, v, fill).0 != kOfxStatOK,
        utf8_text(property) is None ==> get_outcome(m, property, index).1 is Err,
        (utf8_text(property) matches Some(k) && 0 <= entry_of(m, k).len() <= index) ==> get_outcome(
            m,
            property,
            index,
        ).1 == Err::<T, i32>(kOfxStatFailed),
{
}

/// A write past the end of a property lengthens it to just hold the new
/// value, and the values between the old end and the index read as the fill
/// (zero, or the empty string).
pub proof fn law_write_past_end_fills<T>(
    m: Map<Seq<char>, Seq<T>>,
    property: Seq<u8>,
    index: int,
    v: T,
    fill: T,
    j: int,
)
    requires
        index >= 0,
        utf8_text(property) is Some,
        entry_of(m, utf8_text(property)->0).len() <= j < index,
    ensures
        get_outcome(set_outcome(m, property, index, v, fill).1, property, j).1 == Ok::<T, i32>(fill),
        get_outcome(set_outcome(m, property, index, v, fill).1, property, index + 1).1 == Err::<T, i32>(
            kOfxStatFailed,
        ),
{
}

/// A write that fails leaves the property table as it was.
pub proof fn law_failed_write_changes_nothing<T>(
    m: Map<Seq<char>, Seq<T>>,
    property: Seq<u8>,
    index: int,
    v: T,
    fill: T,
)
    ensures
        set_outcome(m, property, index, v, fill).0 != kOfxStatOK ==> set_outcome(
            m,
            property,
            index,
            v,
            fill,
        ).1 == m,
{
}

/// The view of a read's result.
pub open spec fn result_view<V: View>(r: Result<V, i32>) -> Result<V::V, i32> {
    match r {
        Ok(x) => Ok(x@),
        Err(e) => Err(e),
    }
}

/// A read's result of several values, as a sequence.
pub open spec fn results_seq<V>(r: Result<Vec<V>, i32>) -> Result<Seq<V>, i32> {
    match r {
        Ok(x) => Ok(x@),
        Err(e) => Err(e),
    }
}

/// The view of a read's result of several values.
pub open spec fn results_view<V: View>(r: Result<Vec<V>, i32>) -> Result<Seq<V::V>, i32> {
    match r {
        Ok(x) => Ok(values_view(x)),
        Err(e) => Err(e),
    }
}

fn set_one<V: PropertyValue>(t: &mut StringHashMap<Vec<V>>, property: &[u8], index: i32, value: V) -> (status:
    i32)
    ensures
        (status, table_view(*final(t))) == set_outcome(
            table_view(*old(t)),
            property@,
            index as int,
            value@,
            V::spec_fill(),
        ),
{
    if index < 0 {
        return kOfxStatErrBadHandle;
    }
    match decode_c_text(property) {
        None => kOfxStatFailed,
        Some(key) => {
            table_write(t, key, index as usize, value);
            kOfxStatOK
        },
    }
}

fn set_many<V: PropertyValue>(t: &mut StringHashMap<Vec<V>>, property: &[u8], count: i32, vals: &[V]) -> (status:
    i32)
    ensures
        (status, table_view(*final(t))) == set_n_outcome(
            table_view(*old(t)),
            property@,
            count as int,
            slice_view(vals),
        ),
{
    if count < 0 {
        return kOfxStatErrBadHandle;
    }
    match decode_c_text(property) {
        None => kOfxStatFailed,
        Some(key) => {
            table_write_n(t, key, vals);
            kOfxStatOK
        },
    }
}

fn get_one<V: PropertyValue>(t: &mut StringHashMap<Vec<V>>, property: &[u8], index: i32) -> (r: Result<V, i32>)
    ensures
        (table_view(*final(t)), result_view(r)) == get_outcome(
            table_view(*old(t)),
            property@,
            index as int,
        ),
{
    if index < 0 {
        return Err(kOfxStatErrBadHandle);
    }
    match decode_c_text(property) {
        None => Err(kOfxStatFailed),
        Some(key) => {
            match table_read(t, key, index as usize) {
                Some(v) => Ok(v),
                None => Err(kOfxStatFailed),
            }
        },
    }
}

fn get_many<V: PropertyValue>(t: &mut StringHashMap<Vec<V>>, property: &[u8], count: i32) -> (r: Result<
    Vec<V>,
    i32,
>)
    requires
        count >= 0 || utf8_text(property@) is None,
    ensures
        (table_view(*final(t)), results_view(r)) == get_n_outcome(
            table_view(*old(t)),
            property@,
            count as int,
            V::spec_fill(),
        ),
{
    match decode_c_text(property) {
        None => Err(kOfxStatFailed),
        Some(key) => Ok(table_read_n(t, key, count as usize)),
    }
}

/// The operations of the property suite.
pub struct PropertySuite;

/// The property suite that the host hands to plug-ins.
pub fn property_suite() -> (r: PropertySuite) {
    PropertySuite
}

impl PropertySuite {
    /// Sets the pointer (held as its address) at `index` of `property`.
    pub fn prop_set_pointer(
        &self,
        properties: &mut PropertySet,
        property: &[u8],
        index: i32,
        value: usize,
    ) -> (status: i32)
        ensures
            (status, final(properties)@.pointers) == set_outcome(
                old(properties)@.pointers,
                property@,
                index as int,
                value,
                0usize,
            ),
            final(properties)@ == (PropertySetView {
                pointers: final(properties)@.pointers,
                ..old(properties)@
            }),
    {
        set_one(&mut properties.pointers, property, index, value)
    }

    /// Sets the string at `index` of `property` to the text of `value`.
    pub fn prop_set_string(
        &self,
        properties: &mut PropertySet,
        property: &[u8],
        index: i32,
        value: &[u8],
    ) -> (status: i32)
        ensures
            (status, final(properties)@.strings) == set_string_outcome(
                old(properties)@.strings,
                property@,
                index as int,
                value@,
            ),
            final(properties)@ == (PropertySetView {
                strings: final(properties)@.strings,
                ..old(properties)@
            }),
    {
        if index < 0 {
            return kOfxStatErrBadHandle;
        }
        let key = match decode_c_text(property) {
            None => {
                return kOfxStatFailed;
            },
            Some(key) => key,
        };
        match decode_c_text(value) {
            None => kOfxStatFailed,
            Some(text) => {
                table_write(&mut properties.strings, key, index as usize, text);
                kOfxStatOK
            },
        }
    }

    /// Sets the double (held as its bits) at `index` of `property`.
    pub fn prop_set_double(
        &self,
        properties: &mut PropertySet,
        property: &[u8],
        index: i32,
        value: u64,
    ) -> (status: i32)
        ensures
            (status, final(properties)@.doubles) == set_outcome(
                old(properties)@.doubles,
                property@,
                index as int,
                value,
                0u64,
            ),
            final(properties)@ == (PropertySetView {
                doubles: final(properties)@.doubles,
                ..old(properties)@
            }),
    {
        set_one(&mut properties.doubles, property, index, value)
    }

    /// Sets the integer at `index` of `property`.
    pub fn prop_set_int(
        &self,
        properties: &mut PropertySet,
        property: &[u8],
        index: i32,
        value: i32,
    ) -> (status: i32)
        ensures
            (status, final(properties)@.ints) == set_outcome(
                old(properties)@.ints,
                property@,
                index as int,
                value,
                0i32,
            ),
            final(properties)@ == (PropertySetView { ints: final(properties)@.ints, ..old(properties)@ }),
    {
        set_one(&mut properties.ints, property, index, value)
    }

    /// Sets the first `count` pointers of `property`; `values` holds them
    /// when `count` is not negative.
    pub fn prop_set_pointer_n(
        &self,
        properties: &mut PropertySet,
        property: &[u8],
        count: i32,
        values: &[usize],
    ) -> (status: i32)
        requires
            count >= 0 ==> values@.len() == count,
        ensures
            (status, final(properties)@.pointers) == set_n_outcome(
                old(properties)@.pointers,
                property@,
                count as int,
                values@,
            ),
            final(properties)@ == (PropertySetView {
                pointers: final(properties)@.pointers,
                ..old(properties)@
            }),
    {
        assert(slice_view(values) =~= values@);
        set_many(&mut properties.pointers, property, count, values)
    }

    /// Setting several strings at once is not provided.
    pub fn prop_set_string_n(&self) -> (status: i32)
        ensures
            status == kOfxStatErrUnsupported,
    {
        kOfxStatErrUnsupported
    }

    /// Sets the first `count` doubles (held as their bits) of `property`.
    pub fn prop_set_double_n(
        &self,
        properties: &mut PropertySet,
        property: &[u8],
        count: i32,
        values: &[u64],
    ) -> (status: i32)
        requires
            count >= 0 ==> values@.len() == count,
        ensures
            (status, final(properties)@.doubles) == set_n_outcome(
                old(properties)@.doubles,
                property@,
                count as int,
                values@,
            ),
            final(properties)@ == (PropertySetView {
                doubles: final(properties)@.doubles,
                ..old(properties)@
            }),
    {
        assert(slice_view(values) =~= values@);
        set_many(&mut properties.doubles, property, count, values)
    }

    /// Sets the first `count` integers of `property`.
    pub fn prop_set_int_n(
        &self,
        properties: &mut PropertySet,
        property: &[u8],
        count: i32,
        values: &[i32],
    ) -> (status: i32)
        requires
            count >= 0 ==> values@.len() == count,
        ensures
            (status, final(properties)@.ints) == set_n_outcome(
                old(properties)@.ints,
                property@,
                count as int,
                values@,
            ),
            final(properties)@ == (PropertySetView { ints: final(properties)@.ints, ..old(properties)@ }),
    {
        assert(slice_view(values) =~= values@);
        set_many(&mut properties.ints, property, count, values)
    }

    /// Gets the pointer (as its address) at `index` of `property`.
    pub fn prop_get_pointer(&self, properties: &mut PropertySet, property: &[u8], index: i32) -> (r: Result<
        usize,
        i32,
    >)
        ensures
            (final(properties)@.pointers, r) == get_outcome(
                old(properties)@.pointers,
                property@,
                index as int,
            ),
            final(properties)@ == (PropertySetView {
                pointers: final(properties)@.pointers,
                ..old(properties)@
            }),
    {
        get_one(&mut properties.pointers, property, index)
    }

    /// Gets the string at `index` of `property`.
    pub fn prop_get_string(&self, properties: &mut PropertySet, property: &[u8], index: i32) -> (r: Result<
        String,
        i32,
    >)
        ensures
            (final(properties)@.strings, result_view(r)) == get_outcome(
                old(properties)@.strings,
                property@,
                index as int,
            ),
            final(properties)@ == (PropertySetView {
                strings: final(properties)@.strings,
                ..old(properties)@
            }),
    {
        get_one(&mut properties.strings, property, index)
    }

    /// Gets the double (as its bits) at `index` of `property`.
    pub fn prop_get_double(&self, properties: &mut PropertySet, property: &[u8], index: i32) -> (r: Result<
        u64,
        i32,
    >)
        ensures
            (final(properties)@.doubles, r) == get_outcome(
                old(properties)@.doubles,
                property@,
                index as int,
            ),
            final(properties)@ == (PropertySetView {
                doubles: final(properties)@.doubles,
                ..old(properties)@
            }),
    {
        get_one(&mut properties.doubles, property, index)
    }

    /// Gets the integer at `index` of `property`.
    pub fn prop_get_int(&self, properties: &mut PropertySet, property: &[u8], index: i32) -> (r: Result<
        i32,
        i32,
    >)
        ensures
            (final(properties)@.ints, r) == get_outcome(old(properties)@.ints, property@, index as int),
            final(properties)@ == (PropertySetView { ints: final(properties)@.ints, ..old(properties)@ }),
    {
        get_one(&mut properties.ints, property, index)
    }

    /// Gets the first `count` pointers of `property`, lengthening it with null
    /// addresses where it is shorter.
    pub fn prop_get_pointer_n(
        &self,
        properties: &mut PropertySet,
        property: &[u8],
        count: i32,
    ) -> (r: Result<Vec<usize>, i32>)
        requires
            count >= 0 || utf8_text(property@) is None,
        ensures
            (final(properties)@.pointers, results_seq(r)) == get_n_outcome(
                old(properties)@.pointers,
                property@,
                count as int,
                0usize,
            ),
            final(properties)@ == (PropertySetView {
                pointers: final(properties)@.pointers,
                ..old(properties)@
            }),
    {
        let r = get_many(&mut properties.pointers, property, count);
        proof {
            if let Ok(x) = &r {
                lemma_values_view(*x);
                assert(values_view(*x) =~= x@);
            }
        }
        r
    }

    /// Getting several strings at once is not provided.
    pub fn prop_get_string_n(&self) -> (status: i32)
        ensures
            status == kOfxStatErrUnsupported,
    {
        kOfxStatErrUnsupported
    }

    /// Gets the first `count` doubles (as their bits) of `property`,
    /// lengthening it with zeros where it is shorter.
    pub fn prop_get_double_n(
        &self,
        properties: &mut PropertySet,
        property: &[u8],
        count: i32,
    ) -> (r: Result<Vec<u64>, i32>)
        requires
            count >= 0 || utf8_text(property@) is None,
        ensures
            (final(properties)@.doubles, results_seq(r)) == get_n_outcome(
                old(properties)@.doubles,
                property@,
                count as int,
                0u64,
            ),
            final(properties)@ == (PropertySetView {
                doubles: final(properties)@.doubles,
                ..old(properties)@
            }),
    {
        let r = get_many(&mut properties.doubles, property, count);
        proof {
            if let Ok(x) = &r {
                lemma_values_view(*x);
                assert(values_view(*x) =~= x@);
            }
        }
        r
    }

    /// Gets the first `count` integers of `property`, lengthening it with
    /// zeros where it is shorter.
    pub fn prop_get_int_n(&self, properties: &mut PropertySet, property: &[u8], count: i32) -> (r: Result<
        Vec<i32>,
        i32,
    >)
        requires
            count >= 0 || utf8_text(property@) is None,
        ensures
            (final(properties)@.ints, results_seq(r)) == get_n_outcome(
                old(properties)@.ints,
                property@,
                count as int,
                0i32,
            ),
            final(properties)@ == (PropertySetView { ints: final(properties)@.ints, ..old(properties)@ }),
    {
        let r = get_many(&mut properties.ints, property, count);
        proof {
            if let Ok(x) = &r {
                lemma_values_view(*x);
                assert(values_view(*x) =~= x@);
            }
        }
        r
    }

    /// Resetting a property is not provided.
    pub fn prop_reset(&self) -> (status: i32)
        ensures
            status == kOfxStatErrUnsupported,
    {
        kOfxStatErrUnsupported
    }

    /// Asking for the number of values of a property is not provided.
    pub fn prop_get_dimension(&self) -> (status: i32)
        ensures
            status == kOfxStatErrUnsupported,
    {
        kOfxStatErrUnsupported
    }
}

} // verus!
