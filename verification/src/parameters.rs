//! Parameters of an effect instance and the parameter suite.
//!
//! Double values are held as the bits of their IEEE-754 encoding.

use vstd::prelude::*;

use crate::ofx_constants::{kOfxStatErrUnsupported, kOfxStatFailed, kProjectHeight, kProjectWidth};
use crate::property_set::{entry_of, lemma_values_view, AsPropertySet, PropertySet, PropertySetView};
use crate::names::{define_named, find_by_name, has_name, names_unique, Named};
use crate::text::{decode_c_text, text_is, utf8_text};

verus! {

/// The value of a parameter, by parameter type; `None` inside a variant means
/// that no value was set and the parameter's default applies.
pub enum ParameterValue {
    Boolean(Option<bool>),
    Integer(Option<i32>),
    Integer2D(Option<(i32, i32)>),
    Integer3D(Option<(i32, i32, i32)>),
    Double(Option<u64>),
    Double2D(Option<(u64, u64)>),
    Double3D(Option<(u64, u64, u64)>),
    RGB(Option<(u64, u64, u64)>),
    RGBA(Option<(u64, u64, u64, u64)>),
    String(Option<String>),
    Bytes(Option<Vec<u8>>),
    Page(Option<()>),
    Group(Option<()>),
    Choice(Option<i32>),
    StrChoice(Option<String>),
    PushButton(Option<()>),
    Custom(Option<String>),
    /// A parameter of a type that the host does not provide.
    Unknown,
}

/// The value that a newly defined parameter of type `t` starts with.
pub open spec fn spec_value_for_type(t: Seq<char>) -> ParameterValue {
    if t == "OfxParamTypeBoolean"@ {
        ParameterValue::Boolean(Option::None)
    } else if t == "OfxParamTypeInteger"@ {
        ParameterValue::Integer(Option::None)
    } else if t == "OfxParamTypeInteger2D"@ {
        ParameterValue::Integer2D(Option::None)
    } else if t == "OfxParamTypeInteger3D"@ {
        ParameterValue::Integer3D(Option::None)
    } else if t == "OfxParamTypeDouble"@ {
        ParameterValue::Double(Option::None)
    } else if t == "OfxParamTypeDouble2D"@ {
        ParameterValue::Double2D(Option::None)
    } else if t == "OfxParamTypeDouble3D"@ {
        ParameterValue::Double3D(Option::None)
    } else if t == "OfxParamTypeRGB"@ {
        ParameterValue::RGB(Option::None)
    } else if t == "OfxParamTypeRGBA"@ {
        ParameterValue::RGBA(Option::None)
    } else if t == "OfxParamTypeBytes"@ {
        ParameterValue::Bytes(Option::None)
    } else if t == "OfxParamTypePage"@ {
        ParameterValue::Page(Option::None)
    } else if t == "OfxParamTypeGroup"@ {
        ParameterValue::Group(Option::None)
    } else if t == "OfxParamTypeChoice"@ {
        ParameterValue::Choice(Option::None)
    } else if t == "OfxParamTypeStrChoice"@ {
        ParameterValue::StrChoice(Option::None)
    } else if t == "OfxParamTypePushButton"@ {
        ParameterValue::PushButton(Option::None)
    } else if t == "OfxParamTypeCustom"@ {
        ParameterValue::Custom(Option::None)
    } else {
        ParameterValue::Unknown
    }
}

/// The value that a newly defined parameter of type `param_type` starts with.
pub fn value_for_type(param_type: &String) -> (r: ParameterValue)
    ensures
        r == spec_value_for_type(param_type@),
{
    if text_is(param_type, "OfxParamTypeBoolean") {
        ParameterValue::Boolean(None)
    } else if text_is(param_type, "OfxParamTypeInteger") {
        ParameterValue::Integer(None)
    } else if text_is(param_type, "OfxParamTypeInteger2D") {
        ParameterValue::Integer2D(None)
    } else if text_is(param_type, "OfxParamTypeInteger3D") {
        ParameterValue::Integer3D(None)
    } else if text_is(param_type, "OfxParamTypeDouble") {
        ParameterValue::Double(None)
    } else if text_is(param_type, "OfxParamTypeDouble2D") {
        ParameterValue::Double2D(None)
    } else if text_is(param_type, "OfxParamTypeDouble3D") {
        ParameterValue::Double3D(None)
    } else if text_is(param_type, "OfxParamTypeRGB") {
        ParameterValue::RGB(None)
    } else if text_is(param_type, "OfxParamTypeRGBA") {
        ParameterValue::RGBA(None)
    } else if text_is(param_type, "OfxParamTypeBytes") {
        ParameterValue::Bytes(None)
    } else if text_is(param_type, "OfxParamTypePage") {
        ParameterValue::Page(None)
    } else if text_is(param_type, "OfxParamTypeGroup") {
        ParameterValue::Group(None)
    } else if text_is(param_type, "OfxParamTypeChoice") {
        ParameterValue::Choice(None)
    } else if text_is(param_type, "OfxParamTypeStrChoice") {
        ParameterValue::StrChoice(None)
    } else if text_is(param_type, "OfxParamTypePushButton") {
        ParameterValue::PushButton(None)
    } else if text_is(param_type, "OfxParamTypeCustom") {
        ParameterValue::Custom(None)
    } else {
        ParameterValue::Unknown
    }
}

/// A parameter: its name, its value and its own property set.
pub struct ParameterThing {
    pub name: String,
    pub value: ParameterValue,
    pub properties: Box<PropertySet>,
}

impl ParameterThing {
    /// A parameter with no name, no value and no properties.
    pub fn new() -> (r: ParameterThing)
        ensures
            r.name@ == Seq::<char>::empty(),
            r.value == ParameterValue::Unknown,
            r.properties@ == PropertySetView::empty(),
    {
        ParameterThing {
            name: String::new(),
            value: ParameterValue::Unknown,
            properties: Box::new(PropertySet::new()),
        }
    }
}

impl Default for ParameterThing {
    fn default() -> (r: ParameterThing)
        ensures
            r.name@ == Seq::<char>::empty(),
            r.value == ParameterValue::Unknown,
            r.properties@ == PropertySetView::empty(),
    {
        ParameterThing::new()
    }
}

impl AsPropertySet for ParameterThing {
    open spec fn spec_properties(&self) -> PropertySet {
        *self.properties
    }

    fn get_properties(&self) -> (r: &PropertySet) {
        &self.properties
    }

    fn get_properties_mut(&mut self) -> (r: &mut PropertySet)
        ensures
            final(self).name == old(self).name,
            final(self).value == old(self).value,
    {
        &mut self.properties
    }
}

impl AsPropertySet for ParameterSet {
    open spec fn spec_properties(&self) -> PropertySet {
        self.properties
    }

    fn get_properties(&self) -> (r: &PropertySet) {
        &self.properties
    }

    fn get_properties_mut(&mut self) -> (r: &mut PropertySet)
        ensures
            final(self).parameters == old(self).parameters,
    {
        &mut self.properties
    }
}

impl Named for ParameterThing {
    open spec fn spec_name(&self) -> Seq<char> {
        self.name@
    }

    fn name_text(&self) -> (r: &String) {
        &self.name
    }
}

/// The parameters of an effect instance, with the property set of the set itself.
pub struct ParameterSet {
    pub properties: PropertySet,
    pub parameters: Vec<ParameterThing>,
}

impl ParameterSet {
    /// Each parameter name occurs once.
    pub open spec fn wf(&self) -> bool {
        names_unique(self.parameters@)
    }

    /// An empty parameter set.
    pub fn new() -> (r: ParameterSet)
        ensures
            r.wf(),
            r.properties@ == PropertySetView::empty(),
            r.parameters@.len() == 0,
    {
        ParameterSet { properties: PropertySet::new(), parameters: Vec::new() }
    }

    /// The position of the parameter called `name`.
    pub fn find(&self, name: &String) -> (r: Option<usize>)
        ensures
            match r {
                Some(i) => i < self.parameters@.len() && self.parameters@[i as int].name@ == name@,
                None => !has_name(self.parameters@, name@),
            },
    {
        find_by_name(&self.parameters, name)
    }
}

/// What reading a parameter's value gives, by parameter type. Doubles are
/// bit patterns; a pair of doubles may carry the project size by which the
/// caller scales them (normalised coordinates).
pub enum ParamReading {
    Boolean(bool),
    Integer(i32),
    Integer2D(i32, i32),
    Integer3D(i32, i32, i32),
    Double(u64),
    Double2D(u64, u64, Option<(i32, i32)>),
    Double3D(u64, u64, u64),
    RGB(u64, u64, u64),
    RGBA(u64, u64, u64, u64),
    String(String),
    /// The bytes stored in the parameter itself.
    Bytes,
    Choice(i32),
}

/// The view of a `ParamReading`: text as characters.
pub enum ParamReadingView {
    Boolean(bool),
    Integer(i32),
    Integer2D(i32, i32),
    Integer3D(i32, i32, i32),
    Double(u64),
    Double2D(u64, u64, Option<(i32, i32)>),
    Double3D(u64, u64, u64),
    RGB(u64, u64, u64),
    RGBA(u64, u64, u64, u64),
    String(Seq<char>),
    Bytes,
    Choice(i32),
}

impl View for ParamReading {
    type V = ParamReadingView;

    open spec fn view(&self) -> ParamReadingView {
        match self {
            ParamReading::Boolean(b) => ParamReadingView::Boolean(*b),
            ParamReading::Integer(x) => ParamReadingView::Integer(*x),
            ParamReading::Integer2D(x, y) => ParamReadingView::Integer2D(*x, *y),
            ParamReading::Integer3D(x, y, z) => ParamReadingView::Integer3D(*x, *y, *z),
            ParamReading::Double(x) => ParamReadingView::Double(*x),
            ParamReading::Double2D(x, y, s) => ParamReadingView::Double2D(*x, *y, *s),
            ParamReading::Double3D(x, y, z) => ParamReadingView::Double3D(*x, *y, *z),
            ParamReading::RGB(r, g, b) => ParamReadingView::RGB(*r, *g, *b),
            ParamReading::RGBA(r, g, b, a) => ParamReadingView::RGBA(*r, *g, *b, *a),
            ParamReading::String(s) => ParamReadingView::String(s@),
            ParamReading::Bytes => ParamReadingView::Bytes,
            ParamReading::Choice(x) => ParamReadingView::Choice(*x),
        }
    }
}

/// The `i`-th default integer of a parameter, or 0.
pub open spec fn spec_default_int(p: PropertySetView, i: int) -> i32 {
    let e = entry_of(p.ints, "OfxParamPropDefault"@);
    if 0 <= i < e.len() {
        e[i]
    } else {
        0
    }
}

/// The `i`-th default double (as bits) of a parameter, or the bits of 0.0.
pub open spec fn spec_default_double(p: PropertySetView, i: int) -> u64 {
    let e = entry_of(p.doubles, "OfxParamPropDefault"@);
    if 0 <= i < e.len() {
        e[i]
    } else {
        0
    }
}

/// The first string of property `key`, or the empty string.
pub open spec fn spec_first_string(p: PropertySetView, key: Seq<char>) -> Seq<char> {
    let e = entry_of(p.strings, key);
    if 0 < e.len() {
        e[0]
    } else {
        Seq::empty()
    }
}

/// Whether a pair of doubles is an absolute position given in normalised coordinates.
pub open spec fn spec_normalised_xy(p: PropertySetView) -> bool {
    spec_first_string(p, "OfxParamPropDoubleType"@) == "OfxParamDoubleTypeXYAbsolute"@
        && spec_first_string(p, "OfxParamPropDefaultCoordinateSystem"@)
        == "OfxParamCoordinatesNormalised"@
}

/// What reading a parameter gives: the set value, else the defaults from its
/// properties; `None` for parameter types that cannot be read.
pub open spec fn spec_reading(v: ParameterValue, p: PropertySetView) -> Option<ParamReadingView> {
    match v {
        ParameterValue::Boolean(b) => Some(
            ParamReadingView::Boolean(
                match b {
                    Some(x) => x,
                    None => spec_default_int(p, 0) == 1,
                },
            ),
        ),
        ParameterValue::Integer(x) => Some(
            ParamReadingView::Integer(
                match x {
                    Some(x) => x,
                    None => spec_default_int(p, 0),
                },
            ),
        ),
        ParameterValue::Integer2D(x) => Some(
            match x {
                Some((a, b)) => ParamReadingView::Integer2D(a, b),
                None => ParamReadingView::Integer2D(spec_default_int(p, 0), spec_default_int(p, 1)),
            },
        ),
        ParameterValue::Integer3D(x) => Some(
            match x {
                Some((a, b, c)) => ParamReadingView::Integer3D(a, b, c),
                None => ParamReadingView::Integer3D(
                    spec_default_int(p, 0),
                    spec_default_int(p, 1),
                    spec_default_int(p, 2),
                ),
            },
        ),
        ParameterValue::Double(x) => Some(
            ParamReadingView::Double(
                match x {
                    Some(x) => x,
                    None => spec_default_double(p, 0),
                },
            ),
        ),
        ParameterValue::Double2D(x) => {
            let scale = if spec_normalised_xy(p) {
                Some((kProjectWidth, kProjectHeight))
            } else {
                None
            };
            Some(
                match x {
                    Some((a, b)) => ParamReadingView::Double2D(a, b, scale),
                    None => ParamReadingView::Double2D(
                        spec_default_double(p, 0),
                        spec_default_double(p, 1),
                        scale,
                    ),
                },
            )
        },
        ParameterValue::Double3D(x) => Some(
            match x {
                Some((a, b, c)) => ParamReadingView::Double3D(a, b, c),
                None => ParamReadingView::Double3D(
                    spec_default_double(p, 0),
                    spec_default_double(p, 1),
                    spec_default_double(p, 2),
                ),
            },
        ),
        ParameterValue::RGB(x) => Some(
            match x {
                Some((a, b, c)) => ParamReadingView::RGB(a, b, c),
                None => ParamReadingView::RGB(
                    spec_default_double(p, 0),
                    spec_default_double(p, 1),
                    spec_default_double(p, 2),
                ),
            },
        ),
        ParameterValue::RGBA(x) => Some(
            match x {
                Some((a, b, c, d)) => ParamReadingView::RGBA(a, b, c, d),
                None => ParamReadingView::RGBA(
                    spec_default_double(p, 0),
                    spec_default_double(p, 1),
                    spec_default_double(p, 2),
                    spec_default_double(p, 3),
                ),
            },
        ),
        ParameterValue::String(s) => Some(
            ParamReadingView::String(
                match s {
                    Some(s) => s@,
                    None => spec_first_string(p, "OfxParamPropDefault"@),
                },
            ),
        ),
        ParameterValue::Bytes(_) => Some(ParamReadingView::Bytes),
        ParameterValue::Choice(x) => Some(
            ParamReadingView::Choice(
                match x {
                    Some(x) => x,
                    None => spec_default_int(p, 0),
                },
            ),
        ),
        _ => None,
    }
}

fn default_int(p: &PropertySet, i: usize) -> (r: i32)
    ensures
        r == spec_default_int(p@, i as int),
{
    match p.ints.get("OfxParamPropDefault") {
        Some(v) => {
            proof {
                lemma_values_view(*v);
            }
            if i < v.len() {
                v[i]
            } else {
                0
            }
        },
        None => 0,
    }
}

fn default_double(p: &PropertySet, i: usize) -> (r: u64)
    ensures
        r == spec_default_double(p@, i as int),
{
    match p.doubles.get("OfxParamPropDefault") {
        Some(v) => {
            proof {
                lemma_values_view(*v);
            }
            if i < v.len() {
                v[i]
            } else {
                0
            }
        },
        None => 0,
    }
}

fn first_string(p: &PropertySet, key: &str) -> (r: String)
    ensures
        r@ == spec_first_string(p@, key@),
{
    match p.strings.get(key) {
        Some(v) => {
            proof {
                lemma_values_view(*v);
            }
            if 0 < v.len() {
                v[0].clone()
            } else {
                String::new()
            }
        },
        None => String::new(),
    }
}

fn normalised_xy(p: &PropertySet) -> (r: bool)
    ensures
        r == spec_normalised_xy(p@),
{
    let double_type = first_string(p, "OfxParamPropDoubleType");
    let coordinates = first_string(p, "OfxParamPropDefaultCoordinateSystem");
    text_is(&double_type, "OfxParamDoubleTypeXYAbsolute") && text_is(
        &coordinates,
        "OfxParamCoordinatesNormalised",
    )
}

/// Defining a parameter gives it the unset value of the type it names: each of
/// the sixteen parameter types maps to its own variant, with no value.
pub proof fn law_types_start_unset()
    ensures
        spec_value_for_type("OfxParamTypeBoolean"@) == ParameterValue::Boolean(Option::None),
        spec_value_for_type("OfxParamTypeInteger"@) == ParameterValue::Integer(Option::None),
        spec_value_for_type("OfxParamTypeInteger2D"@) == ParameterValue::Integer2D(Option::None),
        spec_value_for_type("OfxParamTypeInteger3D"@) == ParameterValue::Integer3D(Option::None),
        spec_value_for_type("OfxParamTypeDouble"@) == ParameterValue::Double(Option::None),
        spec_value_for_type("OfxParamTypeDouble2D"@) == ParameterValue::Double2D(Option::None),
        spec_value_for_type("OfxParamTypeDouble3D"@) == ParameterValue::Double3D(Option::None),
        spec_value_for_type("OfxParamTypeRGB"@) == ParameterValue::RGB(Option::None),
        spec_value_for_type("OfxParamTypeRGBA"@) == ParameterValue::RGBA(Option::None),
        spec_value_for_type("OfxParamTypeBytes"@) == ParameterValue::Bytes(Option::None),
        spec_value_for_type("OfxParamTypePage"@) == ParameterValue::Page(Option::None),
        spec_value_for_type("OfxParamTypeGroup"@) == ParameterValue::Group(Option::None),
        spec_value_for_type("OfxParamTypeChoice"@) == ParameterValue::Choice(Option::None),
        spec_value_for_type("OfxParamTypeStrChoice"@) == ParameterValue::StrChoice(Option::None),
        spec_value_for_type("OfxParamTypePushButton"@) == ParameterValue::PushButton(Option::None),
        spec_value_for_type("OfxParamTypeCustom"@) == ParameterValue::Custom(Option::None),
{
    reveal_strlit("OfxParamTypeBoolean");
    reveal_strlit("OfxParamTypeInteger");
    reveal_strlit("OfxParamTypeInteger2D");
    reveal_strlit("OfxParamTypeInteger3D");
    reveal_strlit("OfxParamTypeDouble");
    reveal_strlit("OfxParamTypeDouble2D");
    reveal_strlit("OfxParamTypeDouble3D");
    reveal_strlit("OfxParamTypeRGB");
    reveal_strlit("OfxParamTypeRGBA");
    reveal_strlit("OfxParamTypeBytes");
    reveal_strlit("OfxParamTypePage");
    reveal_strlit("OfxParamTypeGroup");
    reveal_strlit("OfxParamTypeChoice");
    reveal_strlit("OfxParamTypeStrChoice");
    reveal_strlit("OfxParamTypePushButton");
    reveal_strlit("OfxParamTypeCustom");
    assert("OfxParamTypeInteger2D"@.len() != "OfxParamTypeBoolean"@.len());
    assert("OfxParamTypeInteger2D"@.len() != "OfxParamTypeInteger"@.len());
    assert("OfxParamTypeInteger3D"@.len() != "OfxParamTypeBoolean"@.len());
    assert("OfxParamTypeInteger3D"@.len() != "OfxParamTypeInteger"@.len());
    assert("OfxParamTypeDouble"@.len() != "OfxParamTypeBoolean"@.len());
    assert("OfxParamTypeDouble"@.len() != "OfxParamTypeInteger"@.len());
    assert("OfxParamTypeDouble"@.len() != "OfxParamTypeInteger2D"@.len());
    assert("OfxParamTypeDouble"@.len() != "OfxParamTypeInteger3D"@.len());
    assert("OfxParamTypeDouble2D"@.len() != "OfxParamTypeBoolean"@.len());
    assert("OfxParamTypeDouble2D"@.len() != "OfxParamTypeInteger"@.len());
    assert("OfxParamTypeDouble2D"@.len() != "OfxParamTypeInteger2D"@.len());
    assert("OfxParamTypeDouble2D"@.len() != "OfxParamTypeInteger3D"@.len());
    assert("OfxParamTypeDouble2D"@.len() != "OfxParamTypeDouble"@.len());
    assert("OfxParamTypeDouble3D"@.len() != "OfxParamTypeBoolean"@.len());
    assert("OfxParamTypeDouble3D"@.len() != "OfxParamTypeInteger"@.len());
    assert("OfxParamTypeDouble3D"@.len() != "OfxParamTypeInteger2D"@.len());
    assert("OfxParamTypeDouble3D"@.len() != "OfxParamTypeInteger3D"@.len());
    assert("OfxParamTypeDouble3D"@.len() != "OfxParamTypeDouble"@.len());
    assert("OfxParamTypeRGB"@.len() != "OfxParamTypeBoolean"@.len());
    assert("OfxParamTypeRGB"@.len() != "OfxParamTypeInteger"@.len());
    assert("OfxParamTypeRGB"@.len() != "OfxParamTypeInteger2D"@.len());
    assert("OfxParamTypeRGB"@.len() != "OfxParamTypeInteger3D"@.len());
    assert("OfxParamTypeRGB"@.len() != "OfxParamTypeDouble"@.len());
    assert("OfxParamTypeRGB"@.len() != "OfxParamTypeDouble2D"@.len());
    assert("OfxParamTypeRGB"@.len() != "OfxParamTypeDouble3D"@.len());
    assert("OfxParamTypeRGBA"@.len() != "OfxParamTypeBoolean"@.len());
    assert("OfxParamTypeRGBA"@.len() != "OfxParamTypeInteger"@.len());
    assert("OfxParamTypeRGBA"@.len() != "OfxParamTypeInteger2D"@.len());
    assert("OfxParamTypeRGBA"@.len() != "OfxParamTypeInteger3D"@.len());
    assert("OfxParamTypeRGBA"@.len() != "OfxParamTypeDouble"@.len());
    assert("OfxParamTypeRGBA"@.len() != "OfxParamTypeDouble2D"@.len());
    assert("OfxParamTypeRGBA"@.len() != "OfxParamTypeDouble3D"@.len());
    assert("OfxParamTypeRGBA"@.len() != "OfxParamTypeRGB"@.len());
    assert("OfxParamTypeBytes"@.len() != "OfxParamTypeBoolean"@.len());
    assert("OfxParamTypeBytes"@.len() != "OfxParamTypeInteger"@.len());
    assert("OfxParamTypeBytes"@.len() != "OfxParamTypeInteger2D"@.len());
    assert("OfxParamTypeBytes"@.len() != "OfxParamTypeInteger3D"@.len());
    assert("OfxParamTypeBytes"@.len() != "OfxParamTypeDouble"@.len());
    assert("OfxParamTypeBytes"@.len() != "OfxParamTypeDouble2D"@.len());
    assert("OfxParamTypeBytes"@.len() != "OfxParamTypeDouble3D"@.len());
    assert("OfxParamTypeBytes"@.len() != "OfxParamTypeRGB"@.len());
    assert("OfxParamTypeBytes"@.len() != "OfxParamTypeRGBA"@.len());
    assert("OfxParamTypePage"@.len() != "OfxParamTypeBoolean"@.len());
    assert("OfxParamTypePage"@.len() != "OfxParamTypeInteger"@.len());
    assert("OfxParamTypePage"@.len() != "OfxParamTypeInteger2D"@.len());
    assert("OfxParamTypePage"@.len() != "OfxParamTypeInteger3D"@.len());
    assert("OfxParamTypePage"@.len() != "OfxParamTypeDouble"@.len());
    assert("OfxParamTypePage"@.len() != "OfxParamTypeDouble2D"@.len());
    assert("OfxParamTypePage"@.len() != "OfxParamTypeDouble3D"@.len());
    assert("OfxParamTypePage"@.len() != "OfxParamTypeRGB"@.len());
    assert("OfxParamTypePage"@.len() != "OfxParamTypeBytes"@.len());
    assert("OfxParamTypeGroup"@.len() != "OfxParamTypeBoolean"@.len());
    assert("OfxParamTypeGroup"@.len() != "OfxParamTypeInteger"@.len());
    assert("OfxParamTypeGroup"@.len() != "OfxParamTypeInteger2D"@.len());
    assert("OfxParamTypeGroup"@.len() != "OfxParamTypeInteger3D"@.len());
    assert("OfxParamTypeGroup"@.len() != "OfxParamTypeDouble"@.len());
    assert("OfxParamTypeGroup"@.len() != "OfxParamTypeDouble2D"@.len());
    assert("OfxParamTypeGroup"@.len() != "OfxParamTypeDouble3D"@.len());
    assert("OfxParamTypeGroup"@.len() != "OfxParamTypeRGB"@.len());
    assert("OfxParamTypeGroup"@.len() != "OfxParamTypeRGBA"@.len());
    assert("OfxParamTypeGroup"@.len() != "OfxParamTypePage"@.len());
    assert("OfxParamTypeChoice"@.len() != "OfxParamTypeBoolean"@.len());
    assert("OfxParamTypeChoice"@.len() != "OfxParamTypeInteger"@.len());
    assert("OfxParamTypeChoice"@.len() != "OfxParamTypeInteger2D"@.len());
    assert("OfxParamTypeChoice"@.len() != "OfxParamTypeInteger3D"@.len());
    assert("OfxParamTypeChoice"@.len() != "OfxParamTypeDouble2D"@.len());
    assert("OfxParamTypeChoice"@.len() != "OfxParamTypeDouble3D"@.len());
    assert("OfxParamTypeChoice"@.len() != "OfxParamTypeRGB"@.len());
    assert("OfxParamTypeChoice"@.len() != "OfxParamTypeRGBA"@.len());
    assert("OfxParamTypeChoice"@.len() != "OfxParamTypeBytes"@.len());
    assert("OfxParamTypeChoice"@.len() != "OfxParamTypePage"@.len());
    assert("OfxParamTypeChoice"@.len() != "OfxParamTypeGroup"@.len());
    assert("OfxParamTypeStrChoice"@.len() != "OfxParamTypeBoolean"@.len());
    assert("OfxParamTypeStrChoice"@.len() != "OfxParamTypeInteger"@.len());
    assert("OfxParamTypeStrChoice"@.len() != "OfxParamTypeDouble"@.len());
    assert("OfxParamTypeStrChoice"@.len() != "OfxParamTypeDouble2D"@.len());
    assert("OfxParamTypeStrChoice"@.len() != "OfxParamTypeDouble3D"@.len());
    assert("OfxParamTypeStrChoice"@.len() != "OfxParamTypeRGB"@.len());
    assert("OfxParamTypeStrChoice"@.len() != "OfxParamTypeRGBA"@.len());
    assert("OfxParamTypeStrChoice"@.len() != "OfxParamTypeBytes"@.len());
    assert("OfxParamTypeStrChoice"@.len() != "OfxParamTypePage"@.len());
    assert("OfxParamTypeStrChoice"@.len() != "OfxParamTypeGroup"@.len());
    assert("OfxParamTypeStrChoice"@.len() != "OfxParamTypeChoice"@.len());
    assert("OfxParamTypePushButton"@.len() != "OfxParamTypeBoolean"@.len());
    assert("OfxParamTypePushButton"@.len() != "OfxParamTypeInteger"@.len());
    assert("OfxParamTypePushButton"@.len() != "OfxParamTypeInteger2D"@.len());
    assert("OfxParamTypePushButton"@.len() != "OfxParamTypeInteger3D"@.len());
    assert("OfxParamTypePushButton"@.len() != "OfxParamTypeDouble"@.len());
    assert("OfxParamTypePushButton"@.len() != "OfxParamTypeDouble2D"@.len());
    assert("OfxParamTypePushButton"@.len() != "OfxParamTypeDouble3D"@.len());
    assert("OfxParamTypePushButton"@.len() != "OfxParamTypeRGB"@.len());
    assert("OfxParamTypePushButton"@.len() != "OfxParamTypeRGBA"@.len());
    assert("OfxParamTypePushButton"@.len() != "OfxParamTypeBytes"@.len());
    assert("OfxParamTypePushButton"@.len() != "OfxParamTypePage"@.len());
    assert("OfxParamTypePushButton"@.len() != "OfxParamTypeGroup"@.len());
    assert("OfxParamTypePushButton"@.len() != "OfxParamTypeChoice"@.len());
    assert("OfxParamTypePushButton"@.len() != "OfxParamTypeStrChoice"@.len());
    assert("OfxParamTypeCustom"@.len() != "OfxParamTypeBoolean"@.len());
    assert("OfxParamTypeCustom"@.len() != "OfxParamTypeInteger"@.len());
    assert("OfxParamTypeCustom"@.len() != "OfxParamTypeInteger2D"@.len());
    assert("OfxParamTypeCustom"@.len() != "OfxParamTypeInteger3D"@.len());
    assert("OfxParamTypeCustom"@.len() != "OfxParamTypeDouble2D"@.len());
    assert("OfxParamTypeCustom"@.len() != "OfxParamTypeDouble3D"@.len());
    assert("OfxParamTypeCustom"@.len() != "OfxParamTypeRGB"@.len());
    assert("OfxParamTypeCustom"@.len() != "OfxParamTypeRGBA"@.len());
    assert("OfxParamTypeCustom"@.len() != "OfxParamTypeBytes"@.len());
    assert("OfxParamTypeCustom"@.len() != "OfxParamTypePage"@.len());
    assert("OfxParamTypeCustom"@.len() != "OfxParamTypeGroup"@.len());
    assert("OfxParamTypeCustom"@.len() != "OfxParamTypeStrChoice"@.len());
    assert("OfxParamTypeCustom"@.len() != "OfxParamTypePushButton"@.len());
    assert("OfxParamTypeInteger"@[12] != "OfxParamTypeBoolean"@[12]);
    assert("OfxParamTypeInteger3D"@[19] != "OfxParamTypeInteger2D"@[19]);
    assert("OfxParamTypeDouble3D"@[18] != "OfxParamTypeDouble2D"@[18]);
    assert("OfxParamTypePage"@[12] != "OfxParamTypeRGBA"@[12]);
    assert("OfxParamTypeGroup"@[12] != "OfxParamTypeBytes"@[12]);
    assert("OfxParamTypeChoice"@[12] != "OfxParamTypeDouble"@[12]);
    assert("OfxParamTypeStrChoice"@[12] != "OfxParamTypeInteger2D"@[12]);
    assert("OfxParamTypeStrChoice"@[12] != "OfxParamTypeInteger3D"@[12]);
    assert("OfxParamTypeCustom"@[12] != "OfxParamTypeDouble"@[12]);
    assert("OfxParamTypeCustom"@[13] != "OfxParamTypeChoice"@[13]);
}

/// A type name that is none of the sixteen parameter types defines a
/// parameter that cannot be read.
pub proof fn law_unknown_types_cannot_be_read(t: Seq<char>, p: PropertySetView)
    requires
        t != "OfxParamTypeBoolean"@,
        t != "OfxParamTypeInteger"@,
        t != "OfxParamTypeInteger2D"@,
        t != "OfxParamTypeInteger3D"@,
        t != "OfxParamTypeDouble"@,
        t != "OfxParamTypeDouble2D"@,
        t != "OfxParamTypeDouble3D"@,
        t != "OfxParamTypeRGB"@,
        t != "OfxParamTypeRGBA"@,
        t != "OfxParamTypeBytes"@,
        t != "OfxParamTypePage"@,
        t != "OfxParamTypeGroup"@,
        t != "OfxParamTypeChoice"@,
        t != "OfxParamTypeStrChoice"@,
        t != "OfxParamTypePushButton"@,
        t != "OfxParamTypeCustom"@,
    ensures
        spec_value_for_type(t) == ParameterValue::Unknown,
        spec_reading(spec_value_for_type(t), p) is None,
{
}

/// A newly defined parameter reads as many defaults as its type has
/// components, taken in order from its `OfxParamPropDefault` property; types
/// without a value cannot be read.
pub proof fn law_defined_parameter_reads_its_defaults(p: PropertySetView)
    ensures
        entry_of(p.ints, "OfxParamPropDefault"@).len() >= 1 ==> spec_reading(spec_value_for_type("OfxParamTypeInteger"@), p) == Some(
            ParamReadingView::Integer(entry_of(p.ints, "OfxParamPropDefault"@)[0]),
        ),
        entry_of(p.ints, "OfxParamPropDefault"@).len() >= 1 ==> spec_reading(spec_value_for_type("OfxParamTypeChoice"@), p) == Some(
            ParamReadingView::Choice(entry_of(p.ints, "OfxParamPropDefault"@)[0]),
        ),
        entry_of(p.ints, "OfxParamPropDefault"@).len() >= 1 ==> spec_reading(spec_value_for_type("OfxParamTypeBoolean"@), p) == Some(
            ParamReadingView::Boolean(entry_of(p.ints, "OfxParamPropDefault"@)[0] == 1),
        ),
        entry_of(p.ints, "OfxParamPropDefault"@).len() >= 2 ==> spec_reading(spec_value_for_type("OfxParamTypeInteger2D"@), p) == Some(
            ParamReadingView::Integer2D(entry_of(p.ints, "OfxParamPropDefault"@)[0], entry_of(p.ints, "OfxParamPropDefault"@)[1]),
        ),
        entry_of(p.ints, "OfxParamPropDefault"@).len() >= 3 ==> spec_reading(spec_value_for_type("OfxParamTypeInteger3D"@), p) == Some(
            ParamReadingView::Integer3D(entry_of(p.ints, "OfxParamPropDefault"@)[0], entry_of(p.ints, "OfxParamPropDefault"@)[1], entry_of(p.ints, "OfxParamPropDefault"@)[2]),
        ),
        entry_of(p.doubles, "OfxParamPropDefault"@).len() >= 1 ==> spec_reading(spec_value_for_type("OfxParamTypeDouble"@), p) == Some(
            ParamReadingView::Double(entry_of(p.doubles, "OfxParamPropDefault"@)[0]),
        ),
        entry_of(p.doubles, "OfxParamPropDefault"@).len() >= 2 ==> (spec_reading(spec_value_for_type("OfxParamTypeDouble2D"@), p) matches Some(
            ParamReadingView::Double2D(x, y, _),
        ) && x == entry_of(p.doubles, "OfxParamPropDefault"@)[0] && y == entry_of(p.doubles, "OfxParamPropDefault"@)[1]),
        entry_of(p.doubles, "OfxParamPropDefault"@).len() >= 3 ==> spec_reading(spec_value_for_type("OfxParamTypeDouble3D"@), p) == Some(
            ParamReadingView::Double3D(entry_of(p.doubles, "OfxParamPropDefault"@)[0], entry_of(p.doubles, "OfxParamPropDefault"@)[1], entry_of(p.doubles, "OfxParamPropDefault"@)[2]),
        ),
        entry_of(p.doubles, "OfxParamPropDefault"@).len() >= 3 ==> spec_reading(spec_value_for_type("OfxParamTypeRGB"@), p) == Some(
            ParamReadingView::RGB(entry_of(p.doubles, "OfxParamPropDefault"@)[0], entry_of(p.doubles, "OfxParamPropDefault"@)[1], entry_of(p.doubles, "OfxParamPropDefault"@)[2]),
        ),
        entry_of(p.doubles, "OfxParamPropDefault"@).len() >= 4 ==> spec_reading(spec_value_for_type("OfxParamTypeRGBA"@), p) == Some(
            ParamReadingView::RGBA(entry_of(p.doubles, "OfxParamPropDefault"@)[0], entry_of(p.doubles, "OfxParamPropDefault"@)[1], entry_of(p.doubles, "OfxParamPropDefault"@)[2], entry_of(p.doubles, "OfxParamPropDefault"@)[3]),
        ),
        spec_reading(spec_value_for_type("OfxParamTypePage"@), p) is None,
        spec_reading(spec_value_for_type("OfxParamTypeGroup"@), p) is None,
        spec_reading(spec_value_for_type("OfxParamTypeStrChoice"@), p) is None,
        spec_reading(spec_value_for_type("OfxParamTypePushButton"@), p) is None,
        spec_reading(spec_value_for_type("OfxParamTypeCustom"@), p) is None,
{
    law_types_start_unset();
}

/// An unset value reads as its default: the first value of the parameter's
/// `OfxParamPropDefault` property, or zero (false, the empty string) when it
/// has none.
pub proof fn law_unset_values_read_defaults(p: PropertySetView)
    ensures
        entry_of(p.doubles, "OfxParamPropDefault"@).len() >= 1 ==> spec_reading(ParameterValue::Double(Option::None), p) == Some(
            ParamReadingView::Double(entry_of(p.doubles, "OfxParamPropDefault"@)[0]),
        ),
        entry_of(p.doubles, "OfxParamPropDefault"@).len() == 0 ==> spec_reading(ParameterValue::Double(Option::None), p) == Some(
            ParamReadingView::Double(0),
        ),
        entry_of(p.ints, "OfxParamPropDefault"@).len() >= 1 ==> spec_reading(ParameterValue::Integer(Option::None), p) == Some(
            ParamReadingView::Integer(entry_of(p.ints, "OfxParamPropDefault"@)[0]),
        ),
        entry_of(p.ints, "OfxParamPropDefault"@).len() == 0 ==> spec_reading(ParameterValue::Integer(Option::None), p) == Some(
            ParamReadingView::Integer(0),
        ),
        entry_of(p.ints, "OfxParamPropDefault"@).len() >= 1 ==> spec_reading(ParameterValue::Choice(Option::None), p) == Some(
            ParamReadingView::Choice(entry_of(p.ints, "OfxParamPropDefault"@)[0]),
        ),
        entry_of(p.ints, "OfxParamPropDefault"@).len() == 0 ==> spec_reading(ParameterValue::Boolean(Option::None), p) == Some(
            ParamReadingView::Boolean(false),
        ),
        entry_of(p.doubles, "OfxParamPropDefault"@).len() == 0 ==> spec_reading(ParameterValue::RGBA(Option::None), p) == Some(
            ParamReadingView::RGBA(0, 0, 0, 0),
        ),
        entry_of(p.strings, "OfxParamPropDefault"@).len() >= 1 ==> spec_reading(
            ParameterValue::String(Option::None),
            p,
        ) == Some(ParamReadingView::String(entry_of(p.strings, "OfxParamPropDefault"@)[0])),
        entry_of(p.strings, "OfxParamPropDefault"@).len() == 0 ==> spec_reading(
            ParameterValue::String(Option::None),
            p,
        ) == Some(ParamReadingView::String(Seq::empty())),
{
}

/// Each component of an unset value reads as the default at its own position
/// in `OfxParamPropDefault`, and as zero where the defaults run out, whatever
/// their number.
pub proof fn law_unset_components_read_defaults(p: PropertySetView)
    ensures
        ({
            let e = entry_of(p.ints, "OfxParamPropDefault"@);
            &&& spec_reading(ParameterValue::Integer2D(Option::None), p) == Some(
                ParamReadingView::Integer2D(
                    if 0 < e.len() { e[0] } else { 0i32 },
                    if 1 < e.len() { e[1] } else { 0i32 },
                ),
            )
            &&& spec_reading(ParameterValue::Integer3D(Option::None), p) == Some(
                ParamReadingView::Integer3D(
                    if 0 < e.len() { e[0] } else { 0i32 },
                    if 1 < e.len() { e[1] } else { 0i32 },
                    if 2 < e.len() { e[2] } else { 0i32 },
                ),
            )
            &&& spec_reading(ParameterValue::Choice(Option::None), p) == Some(
                ParamReadingView::Choice(if 0 < e.len() { e[0] } else { 0i32 }),
            )
            &&& spec_reading(ParameterValue::Boolean(Option::None), p) == Some(
                ParamReadingView::Boolean(0 < e.len() && e[0] == 1),
            )
        }),
        ({
            let d = entry_of(p.doubles, "OfxParamPropDefault"@);
            &&& spec_reading(ParameterValue::Double2D(Option::None), p) matches Some(
                ParamReadingView::Double2D(x, y, _),
            ) && x == (if 0 < d.len() { d[0] } else { 0u64 }) && y == (if 1 < d.len() { d[1] } else { 0u64 })
            &&& spec_reading(ParameterValue::Double3D(Option::None), p) == Some(
                ParamReadingView::Double3D(
                    if 0 < d.len() { d[0] } else { 0u64 },
                    if 1 < d.len() { d[1] } else { 0u64 },
                    if 2 < d.len() { d[2] } else { 0u64 },
                ),
            )
            &&& spec_reading(ParameterValue::RGB(Option::None), p) == Some(
                ParamReadingView::RGB(
                    if 0 < d.len() { d[0] } else { 0u64 },
                    if 1 < d.len() { d[1] } else { 0u64 },
                    if 2 < d.len() { d[2] } else { 0u64 },
                ),
            )
            &&& spec_reading(ParameterValue::RGBA(Option::None), p) == Some(
                ParamReadingView::RGBA(
                    if 0 < d.len() { d[0] } else { 0u64 },
                    if 1 < d.len() { d[1] } else { 0u64 },
                    if 2 < d.len() { d[2] } else { 0u64 },
                    if 3 < d.len() { d[3] } else { 0u64 },
                ),
            )
        }),
{
}

/// A value that is set is read back as it is, whatever the defaults say.
pub proof fn law_set_values_read_back(p: PropertySetView)
    ensures
        forall|x: u64| #[trigger] spec_reading(ParameterValue::Double(Some(x)), p) == Some(ParamReadingView::Double(x)),
        forall|x: i32| #[trigger] spec_reading(ParameterValue::Integer(Some(x)), p) == Some(ParamReadingView::Integer(x)),
        forall|b: bool| #[trigger] spec_reading(ParameterValue::Boolean(Some(b)), p) == Some(ParamReadingView::Boolean(b)),
        forall|r: u64, g: u64, b: u64, a: u64|
            #[trigger] spec_reading(ParameterValue::RGBA(Some((r, g, b, a))), p) == Some(
                ParamReadingView::RGBA(r, g, b, a),
            ),
        forall|x: u64, y: u64|
            #[trigger] spec_reading(ParameterValue::Double2D(Some((x, y))), p) matches Some(
                ParamReadingView::Double2D(a, b, _),
            ) && a == x && b == y,
{
}

/// Whether the first text of property `key` is `text`.
pub open spec fn first_text_is(p: PropertySetView, key: Seq<char>, text: Seq<char>) -> bool {
    entry_of(p.strings, key).len() > 0 && entry_of(p.strings, key)[0] == text
}

/// A position read from a pair of doubles carries the project size exactly
/// when it is absolute and given in normalised coordinates, and no scale
/// otherwise.
pub proof fn law_normalised_positions_scale(v: Option<(u64, u64)>, p: PropertySetView)
    ensures
        first_text_is(p, "OfxParamPropDoubleType"@, "OfxParamDoubleTypeXYAbsolute"@)
            && first_text_is(
            p,
            "OfxParamPropDefaultCoordinateSystem"@,
            "OfxParamCoordinatesNormalised"@,
        ) ==> (spec_reading(ParameterValue::Double2D(v), p) matches Some(
            ParamReadingView::Double2D(_, _, s),
        ) && s == Some((kProjectWidth, kProjectHeight))),
        !(first_text_is(p, "OfxParamPropDoubleType"@, "OfxParamDoubleTypeXYAbsolute"@)
            && first_text_is(
            p,
            "OfxParamPropDefaultCoordinateSystem"@,
            "OfxParamCoordinatesNormalised"@,
        )) ==> (spec_reading(ParameterValue::Double2D(v), p) matches Some(
            ParamReadingView::Double2D(_, _, s),
        ) && s is None),
{
    reveal_strlit("OfxParamDoubleTypeXYAbsolute");
    reveal_strlit("OfxParamCoordinatesNormalised");
    assert("OfxParamDoubleTypeXYAbsolute"@.len() > 0);
    assert("OfxParamCoordinatesNormalised"@.len() > 0);
}

/// The operations of the parameter suite.
pub struct ParameterSuite;

/// The parameter suite that the host hands to plug-ins.
pub fn parameter_suite() -> (r: ParameterSuite) {
    ParameterSuite
}

impl ParameterSuite {
    /// Defines (or redefines) the parameter called `name` of type
    /// `param_type`: it starts with the type's empty value and an empty
    /// property set. Returns its position.
    pub fn param_define(&self, param_set: &mut ParameterSet, param_type: &[u8], name: &[u8]) -> (r: Result<usize, i32>)
        requires
            old(param_set).wf(),
        ensures
            final(param_set).wf(),
            final(param_set).properties == old(param_set).properties,
            match (utf8_text(param_type@), utf8_text(name@)) {
                (Some(t), Some(n)) => {
                    &&& r matches Ok(i)
                    &&& i < final(param_set).parameters@.len()
                    &&& final(param_set).parameters@[i as int].name@ == n
                    &&& final(param_set).parameters@[i as int].value == spec_value_for_type(t)
                    &&& final(param_set).parameters@[i as int].properties@ == PropertySetView::empty()
                    &&& has_name(old(param_set).parameters@, n) ==> {
                        &&& i < old(param_set).parameters@.len()
                        &&& old(param_set).parameters@[i as int].name@ == n
                        &&& final(param_set).parameters@ == old(param_set).parameters@.update(
                            i as int,
                            final(param_set).parameters@[i as int],
                        )
                    }
                    &&& !has_name(old(param_set).parameters@, n) ==> {
                        &&& i == old(param_set).parameters@.len()
                        &&& final(param_set).parameters@ == old(param_set).parameters@.push(
                            final(param_set).parameters@[i as int],
                        )
                    }
                },
                _ => r == Err::<usize, i32>(kOfxStatFailed) && final(param_set).parameters@ == old(
                    param_set,
                ).parameters@,
            },
    {
        let type_text = match decode_c_text(param_type) {
            None => {
                return Err(kOfxStatFailed);
            },
            Some(t) => t,
        };
        let name_text = match decode_c_text(name) {
            None => {
                return Err(kOfxStatFailed);
            },
            Some(n) => n,
        };
        let thing = ParameterThing {
            name: name_text,
            value: value_for_type(&type_text),
            properties: Box::new(PropertySet::new()),
        };
        Ok(define_named(&mut param_set.parameters, thing))
    }

    /// The position of the parameter whose name `name` spells.
    pub fn param_get_handle(&self, param_set: &ParameterSet, name: &[u8]) -> (r: Result<usize, i32>)
        ensures
            match utf8_text(name@) {
                Some(n) => match r {
                    Ok(i) => i < param_set.parameters@.len() && param_set.parameters@[i as int].name@ == n,
                    Err(e) => e == kOfxStatFailed && !has_name(param_set.parameters@, n),
                },
                None => r == Err::<usize, i32>(kOfxStatFailed),
            },
    {
        match decode_c_text(name) {
            None => Err(kOfxStatFailed),
            Some(n) => match param_set.find(&n) {
                Some(i) => Ok(i),
                None => Err(kOfxStatFailed),
            },
        }
    }

    /// The value of `param` at any time: its set value, else its defaults.
    /// Fails for parameter types that cannot be read. A bytes parameter must
    /// hold bytes. The parameter is only borrowed to be read: no value is
    /// stored in it and no property is added to it.
    pub fn param_get_value_at_time(&self, param: &ParameterThing) -> (r: Result<ParamReading, i32>)
        requires
            !(param.value matches ParameterValue::Bytes(None)),
        ensures
            match r {
                Ok(x) => spec_reading(param.value, param.properties@) == Some(x@),
                Err(e) => e == kOfxStatFailed && spec_reading(param.value, param.properties@) is None,
            },
    {
        let p: &PropertySet = &param.properties;
        match &param.value {
            ParameterValue::Boolean(b) => {
                let x = match b {
                    Some(x) => *x,
                    None => default_int(p, 0) == 1,
                };
                Ok(ParamReading::Boolean(x))
            },
            ParameterValue::Integer(x) => {
                let x = match x {
                    Some(x) => *x,
                    None => default_int(p, 0),
                };
                Ok(ParamReading::Integer(x))
            },
            ParameterValue::Integer2D(x) => match x {
                Some((a, b)) => Ok(ParamReading::Integer2D(*a, *b)),
                None => Ok(ParamReading::Integer2D(default_int(p, 0), default_int(p, 1))),
            },
            ParameterValue::Integer3D(x) => match x {
                Some((a, b, c)) => Ok(ParamReading::Integer3D(*a, *b, *c)),
                None => Ok(
                    ParamReading::Integer3D(default_int(p, 0), default_int(p, 1), default_int(p, 2)),
                ),
            },
            ParameterValue::Double(x) => {
                let x = match x {
                    Some(x) => *x,
                    None => default_double(p, 0),
                };
                Ok(ParamReading::Double(x))
            },
            ParameterValue::Double2D(x) => {
                let scale = if normalised_xy(p) {
                    Some((kProjectWidth, kProjectHeight))
                } else {
                    None
                };
                match x {
                    Some((a, b)) => Ok(ParamReading::Double2D(*a, *b, scale)),
                    None => Ok(ParamReading::Double2D(default_double(p, 0), default_double(p, 1), scale)),
                }
            },
            ParameterValue::Double3D(x) => match x {
                Some((a, b, c)) => Ok(ParamReading::Double3D(*a, *b, *c)),
                None => Ok(
                    ParamReading::Double3D(
                        default_double(p, 0),
                        default_double(p, 1),
                        default_double(p, 2),
                    ),
                ),
            },
            ParameterValue::RGB(x) => match x {
                Some((a, b, c)) => Ok(ParamReading::RGB(*a, *b, *c)),
                None => Ok(
                    ParamReading::RGB(default_double(p, 0), default_double(p, 1), default_double(p, 2)),
                ),
            },
            ParameterValue::RGBA(x) => match x {
                Some((a, b, c, d)) => Ok(ParamReading::RGBA(*a, *b, *c, *d)),
                None => Ok(
                    ParamReading::RGBA(
                        default_double(p, 0),
                        default_double(p, 1),
                        default_double(p, 2),
                        default_double(p, 3),
                    ),
                ),
            },
            ParameterValue::String(s) => {
                let text = match s {
                    Some(s) => s.clone(),
                    None => first_string(p, "OfxParamPropDefault"),
                };
                Ok(ParamReading::String(text))
            },
            ParameterValue::Bytes(_) => Ok(ParamReading::Bytes),
            ParameterValue::Choice(x) => {
                let x = match x {
                    Some(x) => *x,
                    None => default_int(p, 0),
                };
                Ok(ParamReading::Choice(x))
            },
            _ => Err(kOfxStatFailed),
        }
    }

    /// Reading a value without a time is not provided.
    pub fn param_get_value(&self) -> (status: i32)
        ensures
            status == kOfxStatErrUnsupported,
    {
        kOfxStatErrUnsupported
    }

    /// Derivatives are not provided.
    pub fn param_get_derivative(&self) -> (status: i32)
        ensures
            status == kOfxStatErrUnsupported,
    {
        kOfxStatErrUnsupported
    }

    /// Integrals are not provided.
    pub fn param_get_integral(&self) -> (status: i32)
        ensures
            status == kOfxStatErrUnsupported,
    {
        kOfxStatErrUnsupported
    }

    /// Setting a value is not provided.
    pub fn param_set_value(&self) -> (status: i32)
        ensures
            status == kOfxStatErrUnsupported,
    {
        kOfxStatErrUnsupported
    }

    /// Setting a value at a time is not provided.
    pub fn param_set_value_at_time(&self) -> (status: i32)
        ensures
            status == kOfxStatErrUnsupported,
    {
        kOfxStatErrUnsupported
    }

    /// Key frames are not provided.
    pub fn param_get_num_keys(&self) -> (status: i32)
        ensures
            status == kOfxStatErrUnsupported,
    {
        kOfxStatErrUnsupported
    }

    /// Key frames are not provided.
    pub fn param_get_key_time(&self) -> (status: i32)
        ensures
            status == kOfxStatErrUnsupported,
    {
        kOfxStatErrUnsupported
    }

    /// Key frames are not provided.
    pub fn param_get_key_index(&self) -> (status: i32)
        ensures
            status == kOfxStatErrUnsupported,
    {
        kOfxStatErrUnsupported
    }

    /// Key frames are not provided.
    pub fn param_delete_key(&self) -> (status: i32)
        ensures
            status == kOfxStatErrUnsupported,
    {
        kOfxStatErrUnsupported
    }

    /// Key frames are not provided.
    pub fn param_delete_all_keys(&self) -> (status: i32)
        ensures
            status == kOfxStatErrUnsupported,
    {
        kOfxStatErrUnsupported
    }

    /// Copying parameters is not provided.
    pub fn param_copy(&self) -> (status: i32)
        ensures
            status == kOfxStatErrUnsupported,
    {
        kOfxStatErrUnsupported
    }

    /// Edit blocks are not provided.
    pub fn param_edit_begin(&self) -> (status: i32)
        ensures
            status == kOfxStatErrUnsupported,
    {
        kOfxStatErrUnsupported
    }

    /// Edit blocks are not provided.
    pub fn param_edit_end(&self) -> (status: i32)
        ensures
            status == kOfxStatErrUnsupported,
    {
        kOfxStatErrUnsupported
    }
}

} // verus!
