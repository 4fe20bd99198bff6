//! The runtime object model: a closed union of every value that evaluation
//! produces, with its canonical text, its equality and its hash key.

use crate::environment::{same_environment, Environment, EnvironmentView};
use crate::numbers::{numbers_equal, ONE};
use crate::statements::{empty_token, Block, BlockView};
use crate::text::{duplicate_strings, equal_strings, join, join_strings, string_views};
use crate::tokens::{Token, TokenView};
use vstd::prelude::*;
use vstd::string::*;

verus! {

/// The numeric key derived from a hashable value.
#[derive(Clone, Copy, Debug, PartialEq, Eq, Structural)]
pub struct HashKey {
    pub value: u64,
}

/// A value from which a key can be derived.
pub trait Hashable {
    /// The key of the value.
    spec fn key(&self) -> HashKey;

    fn get_hashkey(&self) -> (r: HashKey)
        ensures
            r == self.key(),
    ;
}

/// A runtime value with a canonical text.
pub trait Object {
    /// The canonical text of the value.
    spec fn rendering(&self) -> Seq<char>;

    fn string(&self) -> (r: String)
        ensures
            r@ == self.rendering(),
    ;
}

/// A function value: its parameters, its body and the scope it was made in.
#[derive(Debug)]
pub struct AnonymousFunction {
    pub parameters: Vec<String>,
    pub body: Block,
    pub environment: Environment,
}

/// Values in order.
#[derive(Debug)]
pub struct Array {
    pub data: Vec<Objects>,
}

/// A truth value.
#[derive(Debug)]
pub struct Boolean {
    pub value: bool,
}

/// The marker that leaves a loop.
#[derive(Debug)]
pub struct Break {}

/// A native function, known to the host by its name.
#[derive(Debug)]
pub struct BuiltIn {
    pub name: String,
}

/// The marker that goes on with the next round of a loop.
#[derive(Debug)]
pub struct Continue {}

/// A runtime error: a message and the place it arose at.
#[derive(Debug)]
pub struct Error {
    pub message: String,
    pub token: Token,
}

/// The marker of a loop over the keys of a value.
#[derive(Debug)]
pub struct ForIn {
    pub key: String,
    pub value: Box<Objects>,
}

/// The marker of a loop over the items of a value.
#[derive(Debug)]
pub struct ForOf {
    pub name: String,
    pub value: Box<Objects>,
}

/// A named value: an entry of a hash map, or a binding of a scope.
#[derive(Debug)]
pub struct HashItem {
    pub key: String,
    pub value: Objects,
}

/// Named values in the order they were written.
#[derive(Debug)]
pub struct HashMap {
    pub data: Vec<HashItem>,
}

/// The absence of a value.
#[derive(Debug)]
pub struct Null {}

/// A double-precision number: its binary64 bit pattern and its decimal text.
/// The host that computes in floating point supplies both, and the text is
/// never empty.
#[derive(Debug)]
pub struct Number {
    bits: u64,
    text: String,
}

/// A value on its way out of a function.
#[derive(Debug)]
pub struct ReturnO {
    pub value: Box<Objects>,
}

/// A string of characters.
#[derive(Debug)]
pub struct StringO {
    pub value: String,
}

/// A runtime value.
#[derive(Debug)]
pub enum Objects {
    ANONYMOUSFUNCTION(AnonymousFunction),
    ARRAY(Array),
    BOOLEAN(Boolean),
    BREAK(Break),
    BUILTIN(BuiltIn),
    CONTINUE(Continue),
    ERROR(Error),
    FORIN(ForIn),
    FOROF(ForOf),
    HASHMAP(HashMap),
    NULL(Null),
    NUMBER(Number),
    RETURN(ReturnO),
    STRING(StringO),
}

/// The mathematical model of a named value.
pub struct ItemView {
    pub key: Seq<char>,
    pub value: ObjectView,
}

/// The mathematical model of an [`Objects`].
pub enum ObjectView {
    AnonymousFunction { parameters: Seq<Seq<char>>, body: BlockView, environment: EnvironmentView },
    Array(Seq<ObjectView>),
    Boolean(bool),
    Break,
    BuiltIn(Seq<char>),
    Continue,
    Error { message: Seq<char>, token: TokenView },
    ForIn { key: Seq<char>, value: Box<ObjectView> },
    ForOf { name: Seq<char>, value: Box<ObjectView> },
    HashMap(Seq<ItemView>),
    Null,
    Number { bits: u64, text: Seq<char> },
    Return(Box<ObjectView>),
    String(Seq<char>),
}

// ---------------------------------------------------------------------------
// Canonical text, equality and keys, over the models.
// ---------------------------------------------------------------------------
/// The texts of the values, in order.
pub open spec fn renderings(values: Seq<ObjectView>) -> Seq<Seq<char>>
    decreases values,
{
    Seq::new(
        values.len(),
        |i: int|
            if 0 <= i < values.len() {
                values[i].rendering()
            } else {
                Seq::<char>::empty()
            },
    )
}

/// The texts of the named values, each as `key: value`, in order.
pub open spec fn item_renderings(items: Seq<ItemView>) -> Seq<Seq<char>>
    decreases items,
{
    Seq::new(
        items.len(),
        |i: int|
            if 0 <= i < items.len() {
                items[i].key + ": "@ + items[i].value.rendering()
            } else {
                Seq::<char>::empty()
            },
    )
}

/// Whether the lists hold pairwise equal values.
pub open spec fn same_values(left: Seq<ObjectView>, right: Seq<ObjectView>) -> bool
    decreases left,
{
    left.len() == right.len() && forall|i: int|
        0 <= i < left.len() ==> same(#[trigger] left[i], right[i])
}

/// Whether the lists hold, pairwise, the same names with equal values.
pub open spec fn same_items(left: Seq<ItemView>, right: Seq<ItemView>) -> bool
    decreases left,
{
    left.len() == right.len() && forall|i: int|
        0 <= i < left.len() ==> (#[trigger] left[i]).key == right[i].key && same(
            left[i].value,
            right[i].value,
        )
}

/// Equality of values: the same variant holding equal contents. Numbers are
/// equal as numbers, whatever their text. Values of different variants are
/// never equal.
pub open spec fn same(left: ObjectView, right: ObjectView) -> bool
    decreases left,
{
    match left {
        ObjectView::AnonymousFunction { parameters, body, environment } => {
            right matches ObjectView::AnonymousFunction {
                parameters: other_parameters,
                body: other_body,
                environment: other_environment,
            } && parameters == other_parameters && body == other_body && same_environment(
                environment,
                other_environment,
            )
        },
        ObjectView::Array(values) => {
            right matches ObjectView::Array(other_values) && same_values(values, other_values)
        },
        ObjectView::Boolean(value) => right == ObjectView::Boolean(value),
        ObjectView::Break => right is Break,
        ObjectView::BuiltIn(name) => right == ObjectView::BuiltIn(name),
        ObjectView::Continue => right is Continue,
        ObjectView::Error { message, token } => right == (ObjectView::Error { message, token }),
        ObjectView::ForIn { key, value } => {
            right matches ObjectView::ForIn { key: other_key, value: other_value } && key
                == other_key && same(*value, *other_value)
        },
        ObjectView::ForOf { name, value } => {
            right matches ObjectView::ForOf { name: other_name, value: other_value } && name
                == other_name && same(*value, *other_value)
        },
        ObjectView::HashMap(items) => {
            right matches ObjectView::HashMap(other_items) && same_items(items, other_items)
        },
        ObjectView::Null => right is Null,
        ObjectView::Number { bits, .. } => {
            right matches ObjectView::Number { bits: other_bits, .. } && numbers_equal(
                bits,
                other_bits,
            )
        },
        ObjectView::Return(value) => {
            right matches ObjectView::Return(other_value) && same(*value, *other_value)
        },
        ObjectView::String(value) => right == ObjectView::String(value),
    }
}

/// One step of the key of a text: the key so far, times 31, plus the next
/// byte, within 64 bits.
pub open spec fn mix(key: u64, byte: u8) -> u64 {
    ((key * 31 + byte) % 0x1_0000_0000_0000_0000) as u64
}

/// The key of a text, folded over its bytes from the first to the last.
pub open spec fn text_key(bytes: Seq<u8>) -> u64
    decreases bytes.len(),
{
    if bytes.len() == 0 {
        0
    } else {
        mix(text_key(bytes.drop_last()), bytes.last())
    }
}

/// The key of a number: its bit pattern, with both zeros sharing one key.
pub open spec fn number_key(bits: u64) -> u64 {
    if numbers_equal(bits, 0) {
        0
    } else {
        bits
    }
}

impl ObjectView {
    /// The canonical text of the value.
    pub open spec fn rendering(self) -> Seq<char>
        decreases self,
    {
        match self {
            ObjectView::AnonymousFunction { parameters, body, .. } => "function ("@ + join(
                parameters,
                ", "@,
            ) + ") "@ + body.rendering(),
            ObjectView::Array(values) => "["@ + join(renderings(values), ", "@) + "]"@,
            ObjectView::Boolean(value) => if value {
                "true"@
            } else {
                "false"@
            },
            ObjectView::Break => "break"@,
            ObjectView::BuiltIn(name) => "[builtin "@ + name + "]"@,
            ObjectView::Continue => "continue"@,
            ObjectView::Error { message, .. } => "Error: "@ + message,
            ObjectView::ForIn { key, value } => "for ("@ + key + " in "@ + value.rendering()
                + ")"@,
            ObjectView::ForOf { name, value } => "for ("@ + name + " of "@ + value.rendering()
                + ")"@,
            ObjectView::HashMap(items) => "{ "@ + join(item_renderings(items), ", "@) + " }"@,
            ObjectView::Null => "null"@,
            ObjectView::Number { text, .. } => text,
            ObjectView::Return(value) => "return "@ + value.rendering(),
            ObjectView::String(value) => value,
        }
    }

    /// The key of a hashable value: a boolean, a number or a string. No other
    /// value has one.
    pub open spec fn key(self) -> Option<HashKey> {
        match self {
            ObjectView::Boolean(value) => Some(
                HashKey {
                    value: if value {
                        ONE
                    } else {
                        0
                    },
                },
            ),
            ObjectView::Number { bits, .. } => Some(HashKey { value: number_key(bits) }),
            ObjectView::String(value) => Some(
                HashKey { value: text_key(vstd::utf8::encode_utf8(value)) },
            ),
            _ => None,
        }
    }

    /// The value itself, or what it carries if it is on its way out of a
    /// function.
    pub open spec fn unwrapped(self) -> ObjectView {
        match self {
            ObjectView::Return(value) => *value,
            _ => self,
        }
    }
}

// ---------------------------------------------------------------------------
// Models of the values.
// ---------------------------------------------------------------------------
/// The models of the values, in order.
pub open spec fn object_views(values: Vec<Objects>) -> Seq<ObjectView>
    decreases values,
{
    Seq::new(
        values.len() as nat,
        |i: int|
            if 0 <= i < values.len() {
                values[i].model()
            } else {
                arbitrary()
            },
    )
}

/// The models of the named values, in order.
pub open spec fn item_views(items: Vec<HashItem>) -> Seq<ItemView>
    decreases items,
{
    Seq::new(
        items.len() as nat,
        |i: int|
            if 0 <= i < items.len() {
                items[i].model()
            } else {
                arbitrary()
            },
    )
}

impl HashItem {
    /// The mathematical model of the value.
    pub open spec fn model(&self) -> ItemView
        decreases self,
    {
        ItemView { key: self.key@, value: self.value.model() }
    }

    /// A value under a name.
    pub fn new(key: String, value: Objects) -> (r: HashItem)
        ensures
            r@ == (ItemView { key: key@, value: value@ }),
    {
        HashItem { key, value }
    }

    /// A copy of the named value.
    pub fn duplicate(&self) -> (r: HashItem)
        ensures
            r@ == self@,
        decreases self,
    {
        HashItem { key: self.key.clone(), value: self.value.duplicate() }
    }

    /// Whether the two have the same name and equal values.
    pub fn equals(&self, other: &HashItem) -> (r: bool)
        ensures
            r == (self@.key == other@.key && same(self@.value, other@.value)),
        decreases self,
    {
        self.key == other.key && self.value.equals(&other.value)
    }

    /// `key: value`.
    pub fn render(&self) -> (r: String)
        ensures
            r@ == self@.key + ": "@ + self@.value.rendering(),
        decreases self,
    {
        let mut out = self.key.clone();
        out.append(": ");
        out.append(self.value.string().as_str());
        out
    }
}

impl View for HashItem {
    type V = ItemView;

    open spec fn view(&self) -> ItemView {
        self.model()
    }
}

/// A copy of the named values.
pub fn duplicate_items(items: &Vec<HashItem>) -> (r: Vec<HashItem>)
    ensures
        item_views(r) == item_views(*items),
    decreases items,
{
    let mut out: Vec<HashItem> = Vec::new();
    let mut i: usize = 0;
    while i < items.len()
        invariant
            i <= items.len(),
            out.len() == i,
            forall|j: int| 0 <= j < i ==> out[j]@ == items[j]@,
        decreases items.len() - i,
    {
        proof {
            vstd::std_specs::vec::axiom_vec_index_decreases(*items, i as int);
        }
        out.push(items[i].duplicate());
        i = i + 1;
    }
    assert(item_views(out) =~= item_views(*items));
    out
}

/// Whether the lists hold, pairwise, the same names with equal values.
pub fn equal_items(left: &Vec<HashItem>, right: &Vec<HashItem>) -> (r: bool)
    ensures
        r == same_items(item_views(*left), item_views(*right)),
    decreases left,
{
    if left.len() != right.len() {
        return false;
    }
    let mut i: usize = 0;
    while i < left.len()
        invariant
            i <= left.len(),
            left.len() == right.len(),
            forall|j: int|
                0 <= j < i ==> left[j]@.key == right[j]@.key && same(left[j]@.value, right[j]@.value),
        decreases left.len() - i,
    {
        proof {
            vstd::std_specs::vec::axiom_vec_index_decreases(*left, i as int);
        }
        if !left[i].equals(&right[i]) {
            assert(item_views(*left)[i as int] == left[i as int]@);
            assert(item_views(*right)[i as int] == right[i as int]@);
            assert(!(item_views(*left)[i as int].key == item_views(*right)[i as int].key && same(
                item_views(*left)[i as int].value,
                item_views(*right)[i as int].value,
            )));
            assert(!same_items(item_views(*left), item_views(*right))) by {
                reveal_with_fuel(same_items, 2);
            }
            return false;
        }
        i = i + 1;
    }
    assert forall|j: int| 0 <= j < left.len() implies (#[trigger] item_views(*left)[j]).key
        == item_views(*right)[j].key && same(
        item_views(*left)[j].value,
        item_views(*right)[j].value,
    ) by {
        assert(item_views(*left)[j] == left[j]@);
        assert(item_views(*right)[j] == right[j]@);
    }
    true
}

/// The named values' texts, joined by a comma and a space.
pub fn join_items(items: &Vec<HashItem>) -> (r: String)
    ensures
        r@ == join(item_renderings(item_views(*items)), ", "@),
    decreases items,
{
    let mut parts: Vec<String> = Vec::new();
    let mut i: usize = 0;
    while i < items.len()
        invariant
            i <= items.len(),
            parts.len() == i,
            forall|j: int|
                0 <= j < i ==> parts[j]@ == items[j]@.key + ": "@ + items[j]@.value.rendering(),
        decreases items.len() - i,
    {
        proof {
            vstd::std_specs::vec::axiom_vec_index_decreases(*items, i as int);
        }
        parts.push(items[i].render());
        i = i + 1;
    }
    assert(string_views(parts@) =~= item_renderings(item_views(*items)));
    join_strings(&parts, ", ")
}

/// A copy of the values.
pub fn duplicate_objects(values: &Vec<Objects>) -> (r: Vec<Objects>)
    ensures
        object_views(r) == object_views(*values),
    decreases values,
{
    let mut out: Vec<Objects> = Vec::new();
    let mut i: usize = 0;
    while i < values.len()
        invariant
            i <= values.len(),
            out.len() == i,
            forall|j: int| 0 <= j < i ==> out[j]@ == values[j]@,
        decreases values.len() - i,
    {
        proof {
            vstd::std_specs::vec::axiom_vec_index_decreases(*values, i as int);
        }
        out.push(values[i].duplicate());
        i = i + 1;
    }
    assert(object_views(out) =~= object_views(*values));
    out
}

/// Whether the lists hold pairwise equal values.
pub fn equal_objects(left: &Vec<Objects>, right: &Vec<Objects>) -> (r: bool)
    ensures
        r == same_values(object_views(*left), object_views(*right)),
    decreases left,
{
    if left.len() != right.len() {
        return false;
    }
    let mut i: usize = 0;
    while i < left.len()
        invariant
            i <= left.len(),
            left.len() == right.len(),
            forall|j: int| 0 <= j < i ==> same(left[j]@, right[j]@),
        decreases left.len() - i,
    {
        proof {
            vstd::std_specs::vec::axiom_vec_index_decreases(*left, i as int);
        }
        if !left[i].equals(&right[i]) {
            assert(object_views(*left)[i as int] == left[i as int]@);
            assert(object_views(*right)[i as int] == right[i as int]@);
            assert(!same(object_views(*left)[i as int], object_views(*right)[i as int]));
            assert(!same_values(object_views(*left), object_views(*right))) by {
                reveal_with_fuel(same_values, 2);
            }
            return false;
        }
        i = i + 1;
    }
    assert forall|j: int| 0 <= j < left.len() implies same(
        #[trigger] object_views(*left)[j],
        object_views(*right)[j],
    ) by {
        assert(object_views(*left)[j] == left[j]@);
        assert(object_views(*right)[j] == right[j]@);
    }
    true
}

/// The values' texts, joined by a comma and a space.
pub fn join_objects(values: &Vec<Objects>) -> (r: String)
    ensures
        r@ == join(renderings(object_views(*values)), ", "@),
    decreases values,
{
    let mut parts: Vec<String> = Vec::new();
    let mut i: usize = 0;
    while i < values.len()
        invariant
            i <= values.len(),
            parts.len() == i,
            forall|j: int| 0 <= j < i ==> parts[j]@ == values[j]@.rendering(),
        decreases values.len() - i,
    {
        proof {
            vstd::std_specs::vec::axiom_vec_index_decreases(*values, i as int);
        }
        parts.push(values[i].string());
        i = i + 1;
    }
    assert(string_views(parts@) =~= renderings(object_views(*values)));
    join_strings(&parts, ", ")
}

impl AnonymousFunction {
    /// The mathematical model of the value.
    pub open spec fn model(&self) -> ObjectView
        decreases self,
    {
        ObjectView::AnonymousFunction {
            parameters: string_views(self.parameters@),
            body: self.body@,
            environment: self.environment.model(),
        }
    }

    /// A function value.
    pub fn new(parameters: Vec<String>, body: Block, environment: Environment) -> (r: Objects)
        ensures
            r@ == (ObjectView::AnonymousFunction {
                parameters: string_views(parameters@),
                body: body@,
                environment: environment@,
            }),
    {
        Objects::ANONYMOUSFUNCTION(AnonymousFunction { parameters, body, environment })
    }

    /// A copy of the function value.
    pub fn duplicate(&self) -> (r: AnonymousFunction)
        ensures
            r@ == self@,
        decreases self,
    {
        AnonymousFunction {
            parameters: duplicate_strings(&self.parameters),
            body: self.body.clone(),
            environment: self.environment.duplicate(),
        }
    }

    /// Whether the two function values are equal.
    pub fn equals(&self, other: &AnonymousFunction) -> (r: bool)
        ensures
            r == same(self@, other@),
        decreases self,
    {
        equal_strings(&self.parameters, &other.parameters) && self.body.equals(&other.body)
            && self.environment.equals(&other.environment)
    }

    /// The parameters and the body, as the function is written.
    pub fn render(&self) -> (r: String)
        ensures
            r@ == self@.rendering(),
    {
        let mut out = String::from_str("function (");
        out.append(join_strings(&self.parameters, ", ").as_str());
        out.append(") ");
        out.append(self.body.render().as_str());
        out
    }
}

impl Array {
    /// The mathematical model of the value.
    pub open spec fn model(&self) -> ObjectView
        decreases self,
    {
        ObjectView::Array(object_views(self.data))
    }

    /// An array of the given values.
    pub fn new(data: Vec<Objects>) -> (r: Objects)
        ensures
            r@ == ObjectView::Array(object_views(data)),
    {
        Objects::ARRAY(Array { data })
    }

    /// A copy of the array.
    pub fn duplicate(&self) -> (r: Array)
        ensures
            r@ == self@,
        decreases self,
    {
        Array { data: duplicate_objects(&self.data) }
    }

    /// Whether the two arrays hold pairwise equal values.
    pub fn equals(&self, other: &Array) -> (r: bool)
        ensures
            r == same(self@, other@),
        decreases self,
    {
        equal_objects(&self.data, &other.data)
    }

    /// The values between brackets.
    pub fn render(&self) -> (r: String)
        ensures
            r@ == self@.rendering(),
        decreases self,
    {
        let mut out = String::from_str("[");
        out.append(join_objects(&self.data).as_str());
        out.append("]");
        out
    }
}

impl HashMap {
    /// The mathematical model of the value.
    pub open spec fn model(&self) -> ObjectView
        decreases self,
    {
        ObjectView::HashMap(item_views(self.data))
    }

    /// A hash map of the given named values.
    pub fn new(data: Vec<HashItem>) -> (r: Objects)
        ensures
            r@ == ObjectView::HashMap(item_views(data)),
    {
        Objects::HASHMAP(HashMap { data })
    }

    /// A copy of the hash map.
    pub fn duplicate(&self) -> (r: HashMap)
        ensures
            r@ == self@,
        decreases self,
    {
        HashMap { data: duplicate_items(&self.data) }
    }

    /// Whether the two hash maps hold, pairwise, the same names with equal
    /// values.
    pub fn equals(&self, other: &HashMap) -> (r: bool)
        ensures
            r == same(self@, other@),
        decreases self,
    {
        equal_items(&self.data, &other.data)
    }

    /// The named values in the order they were written.
    pub fn get_data(&self) -> (r: &Vec<HashItem>)
        ensures
            self@ == ObjectView::HashMap(item_views(*r)),
    {
        &self.data
    }

    /// The named values between braces.
    pub fn render(&self) -> (r: String)
        ensures
            r@ == self@.rendering(),
        decreases self,
    {
        let mut out = String::from_str("{ ");
        out.append(join_items(&self.data).as_str());
        out.append(" }");
        out
    }
}

impl ForIn {
    /// The mathematical model of the value.
    pub open spec fn model(&self) -> ObjectView
        decreases self,
    {
        ObjectView::ForIn { key: self.key@, value: Box::new(self.value.model()) }
    }

    /// The marker of a loop that binds `key` to each key of `value`.
    pub fn new(key: String, value: Objects) -> (r: Objects)
        ensures
            r@ == (ObjectView::ForIn { key: key@, value: Box::new(value@) }),
    {
        Objects::FORIN(ForIn { key, value: Box::new(value) })
    }

    /// A copy of the marker.
    pub fn duplicate(&self) -> (r: ForIn)
        ensures
            r@ == self@,
        decreases self,
    {
        ForIn { key: self.key.clone(), value: Box::new(self.value.duplicate()) }
    }

    /// Whether the two markers are equal.
    pub fn equals(&self, other: &ForIn) -> (r: bool)
        ensures
            r == same(self@, other@),
        decreases self,
    {
        self.key == other.key && self.value.equals(&other.value)
    }

    /// The head of the loop.
    pub fn render(&self) -> (r: String)
        ensures
            r@ == self@.rendering(),
        decreases self,
    {
        let mut out = String::from_str("for (");
        out.append(self.key.as_str());
        out.append(" in ");
        out.append(self.value.string().as_str());
        out.append(")");
        out
    }
}

impl ForOf {
    /// The mathematical model of the value.
    pub open spec fn model(&self) -> ObjectView
        decreases self,
    {
        ObjectView::ForOf { name: self.name@, value: Box::new(self.value.model()) }
    }

    /// The marker of a loop that binds `name` to each item of `value`.
    pub fn new(name: String, value: Objects) -> (r: Objects)
        ensures
            r@ == (ObjectView::ForOf { name: name@, value: Box::new(value@) }),
    {
        Objects::FOROF(ForOf { name, value: Box::new(value) })
    }

    /// A copy of the marker.
    pub fn duplicate(&self) -> (r: ForOf)
        ensures
            r@ == self@,
        decreases self,
    {
        ForOf { name: self.name.clone(), value: Box::new(self.value.duplicate()) }
    }

    /// Whether the two markers are equal.
    pub fn equals(&self, other: &ForOf) -> (r: bool)
        ensures
            r == same(self@, other@),
        decreases self,
    {
        self.name == other.name && self.value.equals(&other.value)
    }

    /// The head of the loop.
    pub fn render(&self) -> (r: String)
        ensures
            r@ == self@.rendering(),
        decreases self,
    {
        let mut out = String::from_str("for (");
        out.append(self.name.as_str());
        out.append(" of ");
        out.append(self.value.string().as_str());
        out.append(")");
        out
    }
}

impl ReturnO {
    /// The mathematical model of the value.
    pub open spec fn model(&self) -> ObjectView
        decreases self,
    {
        ObjectView::Return(Box::new(self.value.model()))
    }

    /// The value, on its way out of a function.
    pub fn new(value: Objects) -> (r: Objects)
        ensures
            r@ == ObjectView::Return(Box::new(value@)),
    {
        Objects::RETURN(ReturnO { value: Box::new(value) })
    }

    /// A copy of the returned value.
    pub fn duplicate(&self) -> (r: ReturnO)
        ensures
            r@ == self@,
        decreases self,
    {
        ReturnO { value: Box::new(self.value.duplicate()) }
    }

    /// Whether the two carry equal values.
    pub fn equals(&self, other: &ReturnO) -> (r: bool)
        ensures
            r == same(self@, other@),
        decreases self,
    {
        self.value.equals(&other.value)
    }

    /// The value that is carried.
    pub fn get_value(&self) -> (r: Objects)
        ensures
            self@ == ObjectView::Return(Box::new(r@)),
    {
        self.value.duplicate()
    }

    /// `return` before the text of the value that is carried.
    pub fn render(&self) -> (r: String)
        ensures
            r@ == self@.rendering(),
        decreases self,
    {
        let mut out = String::from_str("return ");
        out.append(self.value.string().as_str());
        out
    }
}

impl Boolean {
    /// The mathematical model of the value.
    pub open spec fn model(&self) -> ObjectView {
        ObjectView::Boolean(self.value)
    }

    /// The boolean of the given truth value.
    pub fn new(value: bool) -> (r: Objects)
        ensures
            r@ == ObjectView::Boolean(value),
    {
        Objects::BOOLEAN(Boolean { value })
    }

    /// A copy of the value.
    pub fn duplicate(&self) -> (r: Boolean)
        ensures
            r@ == self@,
    {
        Boolean { value: self.value }
    }

    /// The value that is held.
    pub fn get_value(&self) -> (r: bool)
        ensures
            self@ == ObjectView::Boolean(r),
    {
        self.value
    }

    /// `true` or `false`.
    pub fn render(&self) -> (r: String)
        ensures
            r@ == self@.rendering(),
    {
        if self.value {
            String::from_str("true")
        } else {
            String::from_str("false")
        }
    }
}

impl Break {
    /// The mathematical model of the value.
    pub open spec fn model(&self) -> ObjectView {
        ObjectView::Break
    }

    /// The marker that leaves a loop.
    pub fn new() -> (r: Objects)
        ensures
            r@ == ObjectView::Break,
    {
        Objects::BREAK(Break {  })
    }

    /// A copy of the value.
    pub fn duplicate(&self) -> (r: Break)
        ensures
            r@ == self@,
    {
        Break {  }
    }

    /// The canonical text of the value.
    pub fn render(&self) -> (r: String)
        ensures
            r@ == self@.rendering(),
    {
        String::from_str("break")
    }
}

impl BuiltIn {
    /// The mathematical model of the value.
    pub open spec fn model(&self) -> ObjectView {
        ObjectView::BuiltIn(self.name@)
    }

    /// The native function of the given name.
    pub fn new(name: String) -> (r: Objects)
        ensures
            r@ == ObjectView::BuiltIn(name@),
    {
        Objects::BUILTIN(BuiltIn { name })
    }

    /// A copy of the value.
    pub fn duplicate(&self) -> (r: BuiltIn)
        ensures
            r@ == self@,
    {
        BuiltIn { name: self.name.clone() }
    }

    /// The name, marked as native.
    pub fn render(&self) -> (r: String)
        ensures
            r@ == self@.rendering(),
    {
        let mut out = String::from_str("[builtin ");
        out.append(self.name.as_str());
        out.append("]");
        out
    }
}

impl Continue {
    /// The mathematical model of the value.
    pub open spec fn model(&self) -> ObjectView {
        ObjectView::Continue
    }

    /// The marker that goes on with the next round of a loop.
    pub fn new() -> (r: Objects)
        ensures
            r@ == ObjectView::Continue,
    {
        Objects::CONTINUE(Continue {  })
    }

    /// A copy of the value.
    pub fn duplicate(&self) -> (r: Continue)
        ensures
            r@ == self@,
    {
        Continue {  }
    }

    /// The canonical text of the value.
    pub fn render(&self) -> (r: String)
        ensures
            r@ == self@.rendering(),
    {
        String::from_str("continue")
    }
}

impl Error {
    /// The mathematical model of the value.
    pub open spec fn model(&self) -> ObjectView {
        ObjectView::Error { message: self.message@, token: self.token@ }
    }

    /// The error with the given message, arisen at the token.
    pub fn new(message: String, token: Token) -> (r: Objects)
        ensures
            r@ == (ObjectView::Error { message: message@, token: token@ }),
    {
        Objects::ERROR(Error { message, token })
    }

    /// A copy of the value.
    pub fn duplicate(&self) -> (r: Error)
        ensures
            r@ == self@,
    {
        Error { message: self.message.clone(), token: self.token.clone() }
    }

    /// The message, marked as an error.
    pub fn render(&self) -> (r: String)
        ensures
            r@ == self@.rendering(),
    {
        let mut out = String::from_str("Error: ");
        out.append(self.message.as_str());
        out
    }
}

impl Null {
    /// The mathematical model of the value.
    pub open spec fn model(&self) -> ObjectView {
        ObjectView::Null
    }

    /// The null value.
    pub fn new() -> (r: Objects)
        ensures
            r@ == ObjectView::Null,
    {
        Objects::NULL(Null {  })
    }

    /// A copy of the value.
    pub fn duplicate(&self) -> (r: Null)
        ensures
            r@ == self@,
    {
        Null {  }
    }

    /// The canonical text of the value.
    pub fn render(&self) -> (r: String)
        ensures
            r@ == self@.rendering(),
    {
        String::from_str("null")
    }
}

/// The error for a number that was given no text.
pub open spec fn invalid_number(token: TokenView) -> ObjectView {
    ObjectView::Error { message: "Invalid number"@, token }
}

/// The number of the bit pattern with the text, or, where the text is empty,
/// the error at the token: a number is never without a text.
pub open spec fn number_of(bits: u64, text: Seq<char>, token: TokenView) -> ObjectView {
    if text.len() > 0 {
        ObjectView::Number { bits, text }
    } else {
        invalid_number(token)
    }
}

impl Number {
    /// The bit pattern of the number.
    pub closed spec fn bits(&self) -> u64 {
        self.bits
    }

    /// The decimal text of the number.
    pub closed spec fn text(&self) -> Seq<char> {
        self.text@
    }

    /// The mathematical model of the value.
    pub open spec fn model(&self) -> ObjectView {
        ObjectView::Number { bits: self.bits(), text: self.text() }
    }

    #[verifier::type_invariant]
    spec fn has_text(&self) -> bool {
        self.text@.len() > 0
    }

    /// The number of the given bit pattern, with its decimal text. Without a
    /// text there is no number: an empty text gives the error for an invalid
    /// number, at the empty token.
    pub fn new(bits: u64, text: String) -> (r: Objects)
        ensures
            r@ == number_of(bits, text@, empty_token()),
    {
        Number::from_literal(bits, text, Token::new_empty())
    }

    /// The number of the given bit pattern, with its decimal text, as read at
    /// the token. An empty text gives the error for an invalid number, at
    /// that token.
    pub fn from_literal(bits: u64, text: String, token: Token) -> (r: Objects)
        ensures
            r@ == number_of(bits, text@, token@),
    {
        if text.as_str().is_empty() {
            Error::new(String::from_str("Invalid number"), token)
        } else {
            Objects::NUMBER(Number { bits, text })
        }
    }

    /// A copy of the value.
    pub fn duplicate(&self) -> (r: Number)
        ensures
            r@ == self@,
    {
        proof {
            use_type_invariant(self);
        }
        Number { bits: self.bits, text: self.text.clone() }
    }

    /// The bit pattern of the number.
    pub fn get_value(&self) -> (r: u64)
        ensures
            r == self.bits(),
    {
        self.bits
    }

    /// The decimal text of the number, which is never empty.
    pub fn get_text(&self) -> (r: String)
        ensures
            r@ == self.text(),
            r@.len() > 0,
    {
        proof {
            use_type_invariant(self);
        }
        self.text.clone()
    }

    /// The decimal text, which is never empty.
    pub fn render(&self) -> (r: String)
        ensures
            r@ == self@.rendering(),
            r@.len() > 0,
    {
        proof {
            use_type_invariant(self);
        }
        self.text.clone()
    }
}

impl StringO {
    /// The mathematical model of the value.
    pub open spec fn model(&self) -> ObjectView {
        ObjectView::String(self.value@)
    }

    /// The string of the given characters.
    pub fn new(value: String) -> (r: Objects)
        ensures
            r@ == ObjectView::String(value@),
    {
        Objects::STRING(StringO { value })
    }

    /// A copy of the value.
    pub fn duplicate(&self) -> (r: StringO)
        ensures
            r@ == self@,
    {
        StringO { value: self.value.clone() }
    }

    /// The value that is held.
    pub fn get_value(&self) -> (r: String)
        ensures
            self@ == ObjectView::String(r@),
    {
        self.value.clone()
    }

    /// The characters themselves.
    pub fn render(&self) -> (r: String)
        ensures
            r@ == self@.rendering(),
    {
        self.value.clone()
    }
}

fn mix_bytes(key: u64, byte: u8) -> (r: u64)
    ensures
        r == mix(key, byte),
{
    ((key as u128 * 31 + byte as u128) % 0x1_0000_0000_0000_0000u128) as u64
}

impl Hashable for Boolean {
    open spec fn key(&self) -> HashKey {
        self@.key().unwrap()
    }

    fn get_hashkey(&self) -> (r: HashKey) {
        HashKey {
            value: if self.value {
                ONE
            } else {
                0
            },
        }
    }
}

impl Hashable for Number {
    open spec fn key(&self) -> HashKey {
        self@.key().unwrap()
    }

    fn get_hashkey(&self) -> (r: HashKey) {
        HashKey {
            value: if crate::numbers::equal(self.bits, 0) {
                0
            } else {
                self.bits
            },
        }
    }
}

impl Hashable for StringO {
    open spec fn key(&self) -> HashKey {
        self@.key().unwrap()
    }

    fn get_hashkey(&self) -> (r: HashKey) {
        let bytes = self.value.as_str().as_bytes_vec();
        let mut key: u64 = 0;
        let mut i: usize = 0;
        assert(bytes@.take(0) =~= Seq::<u8>::empty());
        while i < bytes.len()
            invariant
                i <= bytes.len(),
                key == text_key(bytes@.take(i as int)),
            decreases bytes.len() - i,
        {
            assert(bytes@.take(i + 1).drop_last() =~= bytes@.take(i as int));
            key = mix_bytes(key, bytes[i]);
            i = i + 1;
        }
        assert(bytes@.take(bytes.len() as int) =~= bytes@);
        HashKey { value: key }
    }
}

// ---------------------------------------------------------------------------
// Views, copies and texts of the variants.
// ---------------------------------------------------------------------------
impl View for AnonymousFunction {
    type V = ObjectView;

    open spec fn view(&self) -> ObjectView {
        self.model()
    }
}

impl Clone for AnonymousFunction {
    fn clone(&self) -> (r: AnonymousFunction)
        ensures
            r@ == self@,
    {
        self.duplicate()
    }
}

impl Object for AnonymousFunction {
    open spec fn rendering(&self) -> Seq<char> {
        self@.rendering()
    }

    fn string(&self) -> (r: String) {
        self.render()
    }
}

impl View for Array {
    type V = ObjectView;

    open spec fn view(&self) -> ObjectView {
        self.model()
    }
}

impl Clone for Array {
    fn clone(&self) -> (r: Array)
        ensures
            r@ == self@,
    {
        self.duplicate()
    }
}

impl Object for Array {
    open spec fn rendering(&self) -> Seq<char> {
        self@.rendering()
    }

    fn string(&self) -> (r: String) {
        self.render()
    }
}

impl View for Boolean {
    type V = ObjectView;

    open spec fn view(&self) -> ObjectView {
        self.model()
    }
}

impl Clone for Boolean {
    fn clone(&self) -> (r: Boolean)
        ensures
            r@ == self@,
    {
        self.duplicate()
    }
}

impl Object for Boolean {
    open spec fn rendering(&self) -> Seq<char> {
        self@.rendering()
    }

    fn string(&self) -> (r: String) {
        self.render()
    }
}

impl View for Break {
    type V = ObjectView;

    open spec fn view(&self) -> ObjectView {
        self.model()
    }
}

impl Clone for Break {
    fn clone(&self) -> (r: Break)
        ensures
            r@ == self@,
    {
        self.duplicate()
    }
}

impl Object for Break {
    open spec fn rendering(&self) -> Seq<char> {
        self@.rendering()
    }

    fn string(&self) -> (r: String) {
        self.render()
    }
}

impl View for BuiltIn {
    type V = ObjectView;

    open spec fn view(&self) -> ObjectView {
        self.model()
    }
}

impl Clone for BuiltIn {
    fn clone(&self) -> (r: BuiltIn)
        ensures
            r@ == self@,
    {
        self.duplicate()
    }
}

impl Object for BuiltIn {
    open spec fn rendering(&self) -> Seq<char> {
        self@.rendering()
    }

    fn string(&self) -> (r: String) {
        self.render()
    }
}

impl View for Continue {
    type V = ObjectView;

    open spec fn view(&self) -> ObjectView {
        self.model()
    }
}

impl Clone for Continue {
    fn clone(&self) -> (r: Continue)
        ensures
            r@ == self@,
    {
        self.duplicate()
    }
}

impl Object for Continue {
    open spec fn rendering(&self) -> Seq<char> {
        self@.rendering()
    }

    fn string(&self) -> (r: String) {
        self.render()
    }
}

impl View for Error {
    type V = ObjectView;

    open spec fn view(&self) -> ObjectView {
        self.model()
    }
}

impl Clone for Error {
    fn clone(&self) -> (r: Error)
        ensures
            r@ == self@,
    {
        self.duplicate()
    }
}

impl Object for Error {
    open spec fn rendering(&self) -> Seq<char> {
        self@.rendering()
    }

    fn string(&self) -> (r: String) {
        self.render()
    }
}

impl View for ForIn {
    type V = ObjectView;

    open spec fn view(&self) -> ObjectView {
        self.model()
    }
}

impl Clone for ForIn {
    fn clone(&self) -> (r: ForIn)
        ensures
            r@ == self@,
    {
        self.duplicate()
    }
}

impl Object for ForIn {
    open spec fn rendering(&self) -> Seq<char> {
        self@.rendering()
    }

    fn string(&self) -> (r: String) {
        self.render()
    }
}

impl View for ForOf {
    type V = ObjectView;

    open spec fn view(&self) -> ObjectView {
        self.model()
    }
}

impl Clone for ForOf {
    fn clone(&self) -> (r: ForOf)
        ensures
            r@ == self@,
    {
        self.duplicate()
    }
}

impl Object for ForOf {
    open spec fn rendering(&self) -> Seq<char> {
        self@.rendering()
    }

    fn string(&self) -> (r: String) {
        self.render()
    }
}

impl View for HashMap {
    type V = ObjectView;

    open spec fn view(&self) -> ObjectView {
        self.model()
    }
}

impl Clone for HashMap {
    fn clone(&self) -> (r: HashMap)
        ensures
            r@ == self@,
    {
        self.duplicate()
    }
}

impl Object for HashMap {
    open spec fn rendering(&self) -> Seq<char> {
        self@.rendering()
    }

    fn string(&self) -> (r: String) {
        self.render()
    }
}

impl View for Null {
    type V = ObjectView;

    open spec fn view(&self) -> ObjectView {
        self.model()
    }
}

impl Clone for Null {
    fn clone(&self) -> (r: Null)
        ensures
            r@ == self@,
    {
        self.duplicate()
    }
}

impl Object for Null {
    open spec fn rendering(&self) -> Seq<char> {
        self@.rendering()
    }

    fn string(&self) -> (r: String) {
        self.render()
    }
}

impl View for Number {
    type V = ObjectView;

    open spec fn view(&self) -> ObjectView {
        self.model()
    }
}

impl Clone for Number {
    fn clone(&self) -> (r: Number)
        ensures
            r@ == self@,
    {
        self.duplicate()
    }
}

impl Object for Number {
    open spec fn rendering(&self) -> Seq<char> {
        self@.rendering()
    }

    fn string(&self) -> (r: String) {
        self.render()
    }
}

impl View for ReturnO {
    type V = ObjectView;

    open spec fn view(&self) -> ObjectView {
        self.model()
    }
}

impl Clone for ReturnO {
    fn clone(&self) -> (r: ReturnO)
        ensures
            r@ == self@,
    {
        self.duplicate()
    }
}

impl Object for ReturnO {
    open spec fn rendering(&self) -> Seq<char> {
        self@.rendering()
    }

    fn string(&self) -> (r: String) {
        self.render()
    }
}

impl View for StringO {
    type V = ObjectView;

    open spec fn view(&self) -> ObjectView {
        self.model()
    }
}

impl Clone for StringO {
    fn clone(&self) -> (r: StringO)
        ensures
            r@ == self@,
    {
        self.duplicate()
    }
}

impl Object for StringO {
    open spec fn rendering(&self) -> Seq<char> {
        self@.rendering()
    }

    fn string(&self) -> (r: String) {
        self.render()
    }
}

impl Clone for HashItem {
    fn clone(&self) -> (r: HashItem)
        ensures
            r@ == self@,
    {
        self.duplicate()
    }
}

// ---------------------------------------------------------------------------
// The union.
// ---------------------------------------------------------------------------
impl View for Objects {
    type V = ObjectView;

    open spec fn view(&self) -> ObjectView {
        self.model()
    }
}

impl Clone for Objects {
    fn clone(&self) -> (r: Objects)
        ensures
            r@ == self@,
    {
        self.duplicate()
    }
}

impl Objects {
    /// The mathematical model of the value.
    pub open spec fn model(&self) -> ObjectView
        decreases self,
    {
        match self {
            Objects::ANONYMOUSFUNCTION(inner) => inner.model(),
            Objects::ARRAY(inner) => inner.model(),
            Objects::BOOLEAN(inner) => inner.model(),
            Objects::BREAK(inner) => inner.model(),
            Objects::BUILTIN(inner) => inner.model(),
            Objects::CONTINUE(inner) => inner.model(),
            Objects::ERROR(inner) => inner.model(),
            Objects::FORIN(inner) => inner.model(),
            Objects::FOROF(inner) => inner.model(),
            Objects::HASHMAP(inner) => inner.model(),
            Objects::NULL(inner) => inner.model(),
            Objects::NUMBER(inner) => inner.model(),
            Objects::RETURN(inner) => inner.model(),
            Objects::STRING(inner) => inner.model(),
        }
    }

    /// A copy of the value.
    pub fn duplicate(&self) -> (r: Objects)
        ensures
            r@ == self@,
        decreases self,
    {
        match self {
            Objects::ANONYMOUSFUNCTION(inner) => Objects::ANONYMOUSFUNCTION(inner.duplicate()),
            Objects::ARRAY(inner) => Objects::ARRAY(inner.duplicate()),
            Objects::BOOLEAN(inner) => Objects::BOOLEAN(inner.duplicate()),
            Objects::BREAK(inner) => Objects::BREAK(inner.duplicate()),
            Objects::BUILTIN(inner) => Objects::BUILTIN(inner.duplicate()),
            Objects::CONTINUE(inner) => Objects::CONTINUE(inner.duplicate()),
            Objects::ERROR(inner) => Objects::ERROR(inner.duplicate()),
            Objects::FORIN(inner) => Objects::FORIN(inner.duplicate()),
            Objects::FOROF(inner) => Objects::FOROF(inner.duplicate()),
            Objects::HASHMAP(inner) => Objects::HASHMAP(inner.duplicate()),
            Objects::NULL(inner) => Objects::NULL(inner.duplicate()),
            Objects::NUMBER(inner) => Objects::NUMBER(inner.duplicate()),
            Objects::RETURN(inner) => Objects::RETURN(inner.duplicate()),
            Objects::STRING(inner) => Objects::STRING(inner.duplicate()),
        }
    }

    /// Whether the two values are equal: of the same variant, with equal
    /// contents.
    pub fn equals(&self, other: &Objects) -> (r: bool)
        ensures
            r == same(self@, other@),
        decreases self,
    {
        match (self, other) {
            (Objects::ANONYMOUSFUNCTION(a), Objects::ANONYMOUSFUNCTION(b)) => a.equals(b),
            (Objects::ARRAY(a), Objects::ARRAY(b)) => a.equals(b),
            (Objects::BOOLEAN(a), Objects::BOOLEAN(b)) => a.value == b.value,
            (Objects::BREAK(_), Objects::BREAK(_)) => true,
            (Objects::BUILTIN(a), Objects::BUILTIN(b)) => a.name == b.name,
            (Objects::CONTINUE(_), Objects::CONTINUE(_)) => true,
            (Objects::ERROR(a), Objects::ERROR(b)) => a.message == b.message && a.token.equals(
                &b.token,
            ),
            (Objects::FORIN(a), Objects::FORIN(b)) => a.equals(b),
            (Objects::FOROF(a), Objects::FOROF(b)) => a.equals(b),
            (Objects::HASHMAP(a), Objects::HASHMAP(b)) => a.equals(b),
            (Objects::NULL(_), Objects::NULL(_)) => true,
            (Objects::NUMBER(a), Objects::NUMBER(b)) => crate::numbers::equal(a.bits, b.bits),
            (Objects::RETURN(a), Objects::RETURN(b)) => a.equals(b),
            (Objects::STRING(a), Objects::STRING(b)) => a.value == b.value,
            _ => false,
        }
    }

    /// The function value, if the value is one; nothing for any other variant.
    pub fn get_anonymous_function(&self) -> (r: Option<AnonymousFunction>)
        ensures
            match r {
                Some(inner) => self@ is AnonymousFunction && inner@ == self@,
                None => !(self@ is AnonymousFunction),
            },
    {
        match self {
            Objects::ANONYMOUSFUNCTION(inner) => Some(inner.duplicate()),
            _ => None,
        }
    }

    /// The array, if the value is one; nothing for any other variant.
    pub fn get_array(&self) -> (r: Option<Array>)
        ensures
            match r {
                Some(inner) => self@ is Array && inner@ == self@,
                None => !(self@ is Array),
            },
    {
        match self {
            Objects::ARRAY(inner) => Some(inner.duplicate()),
            _ => None,
        }
    }

    /// The boolean, if the value is one; nothing for any other variant.
    pub fn get_boolean(&self) -> (r: Option<Boolean>)
        ensures
            match r {
                Some(inner) => self@ is Boolean && inner@ == self@,
                None => !(self@ is Boolean),
            },
    {
        match self {
            Objects::BOOLEAN(inner) => Some(inner.duplicate()),
            _ => None,
        }
    }

    /// Whether the value is the given boolean.
    pub fn expect_boolean(&self, value: bool) -> (r: bool)
        ensures
            r == (self@ == ObjectView::Boolean(value)),
    {
        match self {
            Objects::BOOLEAN(boolean) => boolean.get_value() == value,
            _ => false,
        }
    }

    /// The break marker, if the value is one; nothing for any other variant.
    pub fn get_break(&self) -> (r: Option<Break>)
        ensures
            match r {
                Some(inner) => self@ is Break && inner@ == self@,
                None => !(self@ is Break),
            },
    {
        match self {
            Objects::BREAK(inner) => Some(inner.duplicate()),
            _ => None,
        }
    }

    /// The native function, if the value is one; nothing for any other variant.
    pub fn get_builtin(&self) -> (r: Option<BuiltIn>)
        ensures
            match r {
                Some(inner) => self@ is BuiltIn && inner@ == self@,
                None => !(self@ is BuiltIn),
            },
    {
        match self {
            Objects::BUILTIN(inner) => Some(inner.duplicate()),
            _ => None,
        }
    }

    /// The continue marker, if the value is one; nothing for any other variant.
    pub fn get_continue(&self) -> (r: Option<Continue>)
        ensures
            match r {
                Some(inner) => self@ is Continue && inner@ == self@,
                None => !(self@ is Continue),
            },
    {
        match self {
            Objects::CONTINUE(inner) => Some(inner.duplicate()),
            _ => None,
        }
    }

    /// The error, if the value is one; nothing for any other variant.
    pub fn get_error(&self) -> (r: Option<Error>)
        ensures
            match r {
                Some(inner) => self@ is Error && inner@ == self@,
                None => !(self@ is Error),
            },
    {
        match self {
            Objects::ERROR(inner) => Some(inner.duplicate()),
            _ => None,
        }
    }

    /// The marker of a loop over keys, if the value is one; nothing for any other variant.
    pub fn get_for_in(&self) -> (r: Option<ForIn>)
        ensures
            match r {
                Some(inner) => self@ is ForIn && inner@ == self@,
                None => !(self@ is ForIn),
            },
    {
        match self {
            Objects::FORIN(inner) => Some(inner.duplicate()),
            _ => None,
        }
    }

    /// The marker of a loop over items, if the value is one; nothing for any other variant.
    pub fn get_for_of(&self) -> (r: Option<ForOf>)
        ensures
            match r {
                Some(inner) => self@ is ForOf && inner@ == self@,
                None => !(self@ is ForOf),
            },
    {
        match self {
            Objects::FOROF(inner) => Some(inner.duplicate()),
            _ => None,
        }
    }

    /// The hash map, if the value is one; nothing for any other variant.
    pub fn get_hashmap(&self) -> (r: Option<HashMap>)
        ensures
            match r {
                Some(inner) => self@ is HashMap && inner@ == self@,
                None => !(self@ is HashMap),
            },
    {
        match self {
            Objects::HASHMAP(inner) => Some(inner.duplicate()),
            _ => None,
        }
    }

    /// The null value, if the value is one; nothing for any other variant.
    pub fn get_null(&self) -> (r: Option<Null>)
        ensures
            match r {
                Some(inner) => self@ is Null && inner@ == self@,
                None => !(self@ is Null),
            },
    {
        match self {
            Objects::NULL(inner) => Some(inner.duplicate()),
            _ => None,
        }
    }

    /// The number, if the value is one; nothing for any other variant.
    pub fn get_number(&self) -> (r: Option<Number>)
        ensures
            match r {
                Some(inner) => self@ is Number && inner@ == self@,
                None => !(self@ is Number),
            },
    {
        match self {
            Objects::NUMBER(inner) => Some(inner.duplicate()),
            _ => None,
        }
    }

    /// The returned value, if the value is one; nothing for any other variant.
    pub fn get_return(&self) -> (r: Option<ReturnO>)
        ensures
            match r {
                Some(inner) => self@ is Return && inner@ == self@,
                None => !(self@ is Return),
            },
    {
        match self {
            Objects::RETURN(inner) => Some(inner.duplicate()),
            _ => None,
        }
    }

    /// The string, if the value is one; nothing for any other variant.
    pub fn get_string(&self) -> (r: Option<StringO>)
        ensures
            match r {
                Some(inner) => self@ is String && inner@ == self@,
                None => !(self@ is String),
            },
    {
        match self {
            Objects::STRING(inner) => Some(inner.duplicate()),
            _ => None,
        }
    }

    /// The key of a boolean, a number or a string; nothing for a value that
    /// is not hashable.
    pub fn get_hashkey(&self) -> (r: Option<HashKey>)
        ensures
            r == self@.key(),
    {
        match self {
            Objects::BOOLEAN(boolean) => Some(boolean.get_hashkey()),
            Objects::NUMBER(number) => Some(number.get_hashkey()),
            Objects::STRING(string) => Some(string.get_hashkey()),
            _ => None,
        }
    }

    /// The canonical text of the value. It is never empty, but for the empty
    /// string, whose text is its characters.
    pub fn string(&self) -> (r: String)
        ensures
            r@ == self@.rendering(),
            !(self@ is String) ==> r@.len() > 0,
        decreases self,
    {
        proof {
            crate::laws::lemma_rendering_is_not_empty(self@);
        }
        match self {
            Objects::ANONYMOUSFUNCTION(inner) => inner.render(),
            Objects::ARRAY(inner) => inner.render(),
            Objects::BOOLEAN(inner) => inner.render(),
            Objects::BREAK(inner) => inner.render(),
            Objects::BUILTIN(inner) => inner.render(),
            Objects::CONTINUE(inner) => inner.render(),
            Objects::ERROR(inner) => inner.render(),
            Objects::FORIN(inner) => inner.render(),
            Objects::FOROF(inner) => inner.render(),
            Objects::HASHMAP(inner) => inner.render(),
            Objects::NULL(inner) => inner.render(),
            Objects::NUMBER(inner) => inner.render(),
            Objects::RETURN(inner) => inner.render(),
            Objects::STRING(inner) => inner.render(),
        }
    }

    /// Whether the value is an error.
    pub fn is_error(&self) -> (r: bool)
        ensures
            r == (self@ is Error),
    {
        match self {
            Objects::ERROR(_) => true,
            _ => false,
        }
    }

    /// The value itself, or what it carries if it is on its way out of a
    /// function.
    pub fn unwrap_return(self) -> (r: Objects)
        ensures
            r@ == self@.unwrapped(),
    {
        match self {
            Objects::RETURN(inner) => *inner.value,
            other => other,
        }
    }
}

} // verus!
