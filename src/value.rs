use vstd::prelude::*;
use crate::node::{is_ext, mismatch, starts_with_x, Node};
use crate::yaml::{ParseError, Yaml};

verus! {

/// A vendor extension key: a string that starts with `x-`.
#[derive(Debug, PartialEq, Eq, Hash, PartialOrd, Ord)]
pub struct Extension(String);

/// The string that could not become an [`Extension`].
#[derive(Clone, Debug, PartialEq, Eq, Hash)]
pub struct ExtensionParseError(pub String);

impl Extension {
    #[verifier::type_invariant]
    spec fn inv(&self) -> bool {
        is_ext(self.0@)
    }

    /// The key's text.
    pub closed spec fn text(&self) -> Seq<char> {
        self.0@
    }

    /// The key's text, which starts with `x-`.
    pub fn as_str(&self) -> (r: &str)
        ensures
            r@ == self.text(),
            is_ext(r@),
    {
        proof {
            use_type_invariant(self);
        }
        self.0.as_str()
    }

    /// Accepts `s` exactly when it starts with `x-`.
    pub fn try_from_string(s: String) -> (r: Result<Extension, ExtensionParseError>)
        ensures
            r is Ok <==> is_ext(s@),
            r matches Ok(e) ==> e.text() == s@,
            r matches Err(e) ==> e.0@ == s@,
            r == Extension::try_from_string_spec(s),
    {
        if starts_with_x(s.as_str()) {
            Ok(Extension(s))
        } else {
            Err(ExtensionParseError(s))
        }
    }

    /// What `try_from_string` returns for `s`.
    pub closed spec fn try_from_string_spec(s: String) -> Result<Extension, ExtensionParseError> {
        if is_ext(s@) {
            Ok(Extension(s))
        } else {
            Err(ExtensionParseError(s))
        }
    }

    /// Accepts `s` exactly when it starts with `x-`.
    pub fn parse(s: &str) -> (r: Result<Extension, ExtensionParseError>)
        ensures
            r is Ok <==> is_ext(s@),
            r matches Ok(e) ==> e.text() == s@,
            r matches Err(e) ==> e.0@ == s@,
    {
        Extension::try_from_string(s.to_owned())
    }
}

impl std::convert::TryFrom<String> for Extension {
    type Error = ExtensionParseError;

    fn try_from(s: String) -> (r: Result<Extension, ExtensionParseError>)
        ensures
            r is Ok <==> is_ext(s@),
            r matches Ok(e) ==> e.text() == s@,
            r matches Err(e) ==> e.0@ == s@,
    {
        Extension::try_from_string(s)
    }
}

impl vstd::std_specs::convert::TryFromSpecImpl<String> for Extension {
    open spec fn obeys_try_from_spec() -> bool {
        true
    }

    closed spec fn try_from_spec(s: String) -> Result<Extension, ExtensionParseError> {
        Extension::try_from_string_spec(s)
    }
}

impl std::str::FromStr for Extension {
    type Err = ExtensionParseError;

    fn from_str(s: &str) -> (r: Result<Extension, ExtensionParseError>)
        ensures
            r is Ok <==> is_ext(s@),
            r matches Ok(e) ==> e.text() == s@,
            r matches Err(e) ==> e.0@ == s@,
    {
        Extension::parse(s)
    }
}

impl Clone for Extension {
    fn clone(&self) -> (r: Self)
        ensures
            r.text() == self.text(),
    {
        proof {
            use_type_invariant(self);
        }
        Extension(self.0.clone())
    }
}

/// What Rust's `Debug` writes for a string: its text between double quotes, with
/// quotes, backslashes, control and non-printable characters escaped.
pub uninterp spec fn debug_quoted(s: Seq<char>) -> Seq<char>;

/// Relies on `<str as Debug>::fmt`, through `format!("{:?}")`: the escaped, quoted
/// text depends on the characters of `s` alone.
#[verifier::external_body]
fn quote_debug(s: &str) -> (r: String)
    ensures
        r@ == debug_quoted(s@),
{
    format!("{:?}", s)
}

/// The message for a key that is no extension, given the key as `Debug` quotes it.
pub open spec fn extension_message(quoted: Seq<char>) -> Seq<char> {
    "unknown attribute "@ + quoted
        + ", extensions must start with 'x-' (see https://docs.docker.com/compose/compose-file/#extension)"@
}

impl ExtensionParseError {
    /// What went wrong, for a reader: the key as `Debug` quotes it, then the rule.
    pub fn message(&self) -> (r: String)
        ensures
            r@ == extension_message(debug_quoted(self.0@)),
    {
        let quoted = quote_debug(self.0.as_str());
        ExtensionParseError::message_with(quoted.as_str())
    }

    /// The message around a key already quoted.
    pub fn message_with(quoted: &str) -> (r: String)
        ensures
            r@ == extension_message(quoted@),
    {
        let mut m = String::from_str("unknown attribute ");
        m.append(quoted);
        m.append(
            ", extensions must start with 'x-' (see https://docs.docker.com/compose/compose-file/#extension)",
        );
        m
    }
}

/// A scalar map value: a string, a boolean, an integer or a float. Reading
/// tries the variants in this order.
#[derive(Clone, Debug, PartialEq, PartialOrd)]
pub enum SingleValue {
    String(String),
    Bool(bool),
    Unsigned(u64),
    Signed(i64),
    /// A float, as the text it was written with.
    Float(String),
}

impl Node for SingleValue {
    open spec fn equiv(&self, o: Self) -> bool {
        match self {
            SingleValue::String(a) => o is String && a@ == o->String_0@,
            SingleValue::Bool(a) => o is Bool && *a == o->Bool_0,
            SingleValue::Unsigned(a) => o is Unsigned && *a == o->Unsigned_0,
            SingleValue::Signed(a) => o is Signed && *a == o->Signed_0,
            SingleValue::Float(a) => o is Float && a@ == o->Float_0@,
        }
    }

    proof fn lemma_unique(a: Self, b: Self, y: Yaml) {
        assert(a.matches(y) && b.matches(y));
    }

    open spec fn matches(&self, y: Yaml) -> bool {
        match self {
            SingleValue::String(s) => s.matches(y),
            SingleValue::Bool(b) => b.matches(y),
            SingleValue::Unsigned(u) => u.matches(y),
            SingleValue::Signed(i) => i.matches(y) && (forall|u: u64| !#[trigger] u.matches(y)),
            SingleValue::Float(t) => y is Float && y->Float_0@ == t@,
        }
    }

    fn from_yaml(y: &Yaml) -> (r: Result<Self, ParseError>) {
        match y {
            Yaml::Str(s) => Ok(SingleValue::String(s.clone())),
            Yaml::Bool(b) => Ok(SingleValue::Bool(*b)),
            Yaml::Int(_) => {
                if let Ok(u) = <u64 as Node>::from_yaml(y) {
                    return Ok(SingleValue::Unsigned(u));
                }
                match <i64 as Node>::from_yaml(y) {
                    Ok(i) => Ok(SingleValue::Signed(i)),
                    Err(_) => Err(mismatch("an integer within 64 bits")),
                }
            },
            Yaml::Float(t) => Ok(SingleValue::Float(t.clone())),
            _ => Err(mismatch("a scalar")),
        }
    }

    /// A non-negative `Signed` is written as an integer that reads back as `Unsigned`.
    open spec fn canonical(&self) -> bool {
        !(self matches SingleValue::Signed(i) && i >= 0)
    }

    fn to_yaml(&self) -> (r: Yaml) {
        match self {
            SingleValue::String(s) => Yaml::Str(s.clone()),
            SingleValue::Bool(b) => Yaml::Bool(*b),
            SingleValue::Unsigned(u) => Yaml::Int(*u as i128),
            SingleValue::Signed(i) => Yaml::Int(*i as i128),
            SingleValue::Float(t) => Yaml::Float(t.clone()),
        }
    }
}

/// The character of a decimal digit.
pub open spec fn digit(d: nat) -> char {
    if d == 0 { '0' } else if d == 1 { '1' } else if d == 2 { '2' } else if d == 3 { '3' }
    else if d == 4 { '4' } else if d == 5 { '5' } else if d == 6 { '6' } else if d == 7 { '7' }
    else if d == 8 { '8' } else { '9' }
}

/// The base-10 digits of `n`, without sign or padding.
pub open spec fn decimal(n: nat) -> Seq<char>
    decreases n,
{
    if n < 10 {
        seq![digit(n)]
    } else {
        decimal(n / 10) + seq![digit(n % 10)]
    }
}

/// `n` in base 10, with a leading `-` where it is negative.
pub open spec fn signed_decimal(n: int) -> Seq<char> {
    if n < 0 {
        seq!['-'] + decimal((-n) as nat)
    } else {
        decimal(n as nat)
    }
}

fn digit_str(d: u64) -> (r: &'static str)
    requires
        d < 10,
    ensures
        r@ == seq![digit(d as nat)],
{
    proof {
        reveal_strlit("0");
        reveal_strlit("1");
        reveal_strlit("2");
        reveal_strlit("3");
        reveal_strlit("4");
        reveal_strlit("5");
        reveal_strlit("6");
        reveal_strlit("7");
        reveal_strlit("8");
        reveal_strlit("9");
    }
    let r = if d == 0 { "0" } else if d == 1 { "1" } else if d == 2 { "2" } else if d == 3 { "3" }
    else if d == 4 { "4" } else if d == 5 { "5" } else if d == 6 { "6" } else if d == 7 { "7" }
    else if d == 8 { "8" } else { "9" };
    assert(r@ =~= seq![digit(d as nat)]);
    r
}

/// Appends the base-10 digits of `n`.
fn push_decimal(out: &mut String, n: u64)
    ensures
        final(out)@ == old(out)@ + decimal(n as nat),
    decreases n,
{
    if n >= 10 {
        push_decimal(out, n / 10);
    }
    out.append(digit_str(n % 10));
    assert(final(out)@ =~= old(out)@ + decimal(n as nat));
}

impl SingleValue {
    /// The value as text: a string as it is, a boolean as `true` or `false`,
    /// an integer in base 10, a float as it was written.
    pub fn to_text(&self) -> (r: String)
        ensures
            r@ == match self {
                SingleValue::String(s) => s@,
                SingleValue::Bool(b) => if *b { "true"@ } else { "false"@ },
                SingleValue::Unsigned(u) => decimal(*u as nat),
                SingleValue::Signed(i) => signed_decimal(*i as int),
                SingleValue::Float(t) => t@,
            },
    {
        match self {
            SingleValue::String(s) => s.clone(),
            SingleValue::Bool(b) => String::from_str(if *b { "true" } else { "false" }),
            SingleValue::Unsigned(u) => {
                let mut out = String::new();
                push_decimal(&mut out, *u);
                assert(out@ =~= decimal(*u as nat));
                out
            },
            SingleValue::Signed(i) => {
                let mut out = String::new();
                if *i < 0 {
                    out.append("-");
                    proof {
                        reveal_strlit("-");
                    }
                    push_decimal(&mut out, (-(*i as i128)) as u64);
                } else {
                    push_decimal(&mut out, *i as u64);
                }
                assert(out@ =~= signed_decimal(*i as int));
                out
            },
            SingleValue::Float(t) => t.clone(),
        }
    }
}

/// A number field that takes an integer or a float.
#[derive(Clone, Debug, PartialEq)]
pub enum Number {
    Integer(i64),
    /// A float, as the text it was written with.
    Decimal(String),
}

impl Node for Number {
    open spec fn equiv(&self, o: Self) -> bool {
        match self {
            Number::Integer(a) => o is Integer && *a == o->Integer_0,
            Number::Decimal(a) => o is Decimal && a@ == o->Decimal_0@,
        }
    }

    proof fn lemma_unique(a: Self, b: Self, y: Yaml) {
        assert(a.matches(y) && b.matches(y));
    }

    open spec fn matches(&self, y: Yaml) -> bool {
        match self {
            Number::Integer(i) => i.matches(y),
            Number::Decimal(t) => y is Float && y->Float_0@ == t@,
        }
    }

    fn from_yaml(y: &Yaml) -> (r: Result<Self, ParseError>) {
        match y {
            Yaml::Float(t) => Ok(Number::Decimal(t.clone())),
            _ => {
                let i = <i64 as Node>::from_yaml(y)?;
                Ok(Number::Integer(i))
            },
        }
    }

    open spec fn canonical(&self) -> bool {
        true
    }

    fn to_yaml(&self) -> (r: Yaml) {
        match self {
            Number::Integer(i) => Yaml::Int(*i as i128),
            Number::Decimal(t) => Yaml::Float(t.clone()),
        }
    }
}

/// Settings, or nothing at all: a name declared with every setting at its default,
/// written as an empty mapping.
#[derive(Clone, Debug, PartialEq, Eq, Hash)]
pub enum MapOrEmpty<T> {
    Mapping(T),
    Empty,
}

impl<T> MapOrEmpty<T> {
    /// The settings, if any.
    pub fn into_option(self) -> (r: Option<T>)
        ensures
            self matches MapOrEmpty::Mapping(t) ==> r == Some(t),
            self is Empty ==> r is None,
    {
        match self {
            MapOrEmpty::Mapping(t) => Some(t),
            MapOrEmpty::Empty => None,
        }
    }
}

/// Null, or a mapping with no entries: the nodes that mean "declared, all defaults".
pub open spec fn empty_node(y: Yaml) -> bool {
    y is Null || (y is Mapping && y->Mapping_0@.len() == 0)
}

impl<T> From<MapOrEmpty<T>> for Option<T> {
    fn from(m: MapOrEmpty<T>) -> (r: Option<T>) {
        m.into_option()
    }
}

impl<T> vstd::std_specs::convert::FromSpecImpl<MapOrEmpty<T>> for Option<T> {
    open spec fn obeys_from_spec() -> bool {
        true
    }

    open spec fn from_spec(m: MapOrEmpty<T>) -> Option<T> {
        match m {
            MapOrEmpty::Mapping(t) => Some(t),
            MapOrEmpty::Empty => None,
        }
    }
}

impl<T: Node> Node for MapOrEmpty<T> {
    open spec fn equiv(&self, o: Self) -> bool {
        match self {
            MapOrEmpty::Mapping(a) => o is Mapping && a.equiv(o->Mapping_0),
            MapOrEmpty::Empty => o is Empty,
        }
    }

    proof fn lemma_unique(a: Self, b: Self, y: Yaml) {
        assert(a.matches(y) && b.matches(y));
        if a is Mapping && b is Mapping {
            T::lemma_unique(a->Mapping_0, b->Mapping_0, y);
        }
    }

    /// `Empty` reads null and the empty mapping; any other node is read as settings.
    open spec fn matches(&self, y: Yaml) -> bool {
        match self {
            MapOrEmpty::Mapping(t) => !empty_node(y) && t.matches(y),
            MapOrEmpty::Empty => empty_node(y),
        }
    }

    fn from_yaml(y: &Yaml) -> (r: Result<Self, ParseError>) {
        let empty = match y {
            Yaml::Null => true,
            Yaml::Mapping(es) => es.len() == 0,
            _ => false,
        };
        if empty {
            return Ok(MapOrEmpty::Empty);
        }
        let t = T::from_yaml(y)?;
        Ok(MapOrEmpty::Mapping(t))
    }

    /// Settings that would write an empty node would read back as `Empty`.
    open spec fn canonical(&self) -> bool {
        match self {
            MapOrEmpty::Mapping(t) => t.canonical() && forall|y: Yaml|
                #[trigger] t.matches(y) ==> !empty_node(y),
            MapOrEmpty::Empty => true,
        }
    }

    /// `Empty` is written as the empty mapping; settings as their own node.
    fn to_yaml(&self) -> (r: Yaml)
        ensures
            self is Empty ==> (r is Mapping && r->Mapping_0@.len() == 0),
    {
        match self {
            MapOrEmpty::Mapping(t) => t.to_yaml(),
            MapOrEmpty::Empty => Yaml::Mapping(Vec::new()),
        }
    }
}

impl<T> Default for MapOrEmpty<T> {
    fn default() -> (r: Self)
        ensures
            r is Empty,
    {
        MapOrEmpty::Empty
    }
}

} // verus!
