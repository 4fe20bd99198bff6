//! Lexical scopes: a store of bindings in front of the store it was opened
//! in, and the environment that evaluation and checking run in.

use crate::objects::{
    duplicate_items, equal_items, item_views, same_items, HashItem, ItemView, ObjectView, Objects,
};
use crate::types::{TTypes, TTypesView};
use vstd::prelude::*;

verus! {

/// A name bound to a type.
#[derive(Debug)]
pub struct TypeBinding {
    pub name: String,
    pub value: TTypes,
}

/// The mathematical model of a [`TypeBinding`].
pub struct TypeBindingView {
    pub name: Seq<char>,
    pub value: TTypesView,
}

impl View for TypeBinding {
    type V = TypeBindingView;

    open spec fn view(&self) -> TypeBindingView {
        TypeBindingView { name: self.name@, value: self.value@ }
    }
}

/// The bindings of one scope, in front of those of the scope it was opened in.
#[derive(Debug)]
pub struct Store {
    types: Vec<TypeBinding>,
    objects: Vec<HashItem>,
    outer: Option<Box<Store>>,
}

/// The mathematical model of a [`Store`].
pub struct StoreView {
    pub types: Seq<TypeBindingView>,
    pub objects: Seq<ItemView>,
    pub outer: Option<Box<StoreView>>,
}

/// A scope that evaluation or checking runs in.
#[derive(Debug)]
pub struct Environment {
    pub store: Store,
}

/// The mathematical model of an [`Environment`].
pub struct EnvironmentView {
    pub store: StoreView,
}

/// Where the name is bound among the object bindings: the first place, or
/// nowhere.
pub open spec fn object_position(items: Seq<ItemView>, name: Seq<char>) -> Option<int>
    decreases items.len(),
{
    if items.len() == 0 {
        None
    } else if items[0].key == name {
        Some(0)
    } else {
        match object_position(items.drop_first(), name) {
            Some(i) => Some(i + 1),
            None => None,
        }
    }
}

/// Where the name is bound among the type bindings: the first place, or
/// nowhere.
pub open spec fn type_position(items: Seq<TypeBindingView>, name: Seq<char>) -> Option<int>
    decreases items.len(),
{
    if items.len() == 0 {
        None
    } else if items[0].name == name {
        Some(0)
    } else {
        match type_position(items.drop_first(), name) {
            Some(i) => Some(i + 1),
            None => None,
        }
    }
}

/// A name that no binding before `i` has, and the binding at `i` has, is bound
/// at `i`.
pub proof fn lemma_object_found(items: Seq<ItemView>, name: Seq<char>, i: int)
    requires
        0 <= i < items.len(),
        items[i].key == name,
        forall|j: int| 0 <= j < i ==> items[j].key != name,
    ensures
        object_position(items, name) == Some(i),
    decreases i,
{
    if i > 0 {
        let rest = items.drop_first();
        assert forall|j: int| 0 <= j < i - 1 implies rest[j].key != name by {
            assert(rest[j] == items[j + 1]);
        }
        lemma_object_found(rest, name, i - 1);
    }
}

/// A name that no binding has is bound nowhere.
pub proof fn lemma_object_absent(items: Seq<ItemView>, name: Seq<char>)
    requires
        forall|j: int| 0 <= j < items.len() ==> items[j].key != name,
    ensures
        object_position(items, name) is None,
    decreases items.len(),
{
    if items.len() > 0 {
        let rest = items.drop_first();
        assert forall|j: int| 0 <= j < rest.len() implies rest[j].key != name by {
            assert(rest[j] == items[j + 1]);
        }
        lemma_object_absent(rest, name);
    }
}

/// Where a name is bound, the binding has that name and none before it has.
pub proof fn lemma_object_position(items: Seq<ItemView>, name: Seq<char>)
    ensures
        match object_position(items, name) {
            Some(i) => 0 <= i < items.len() && items[i].key == name && forall|j: int|
                0 <= j < i ==> items[j].key != name,
            None => forall|j: int| 0 <= j < items.len() ==> items[j].key != name,
        },
    decreases items.len(),
{
    if items.len() > 0 && items[0].key != name {
        let rest = items.drop_first();
        lemma_object_position(rest, name);
        match object_position(rest, name) {
            Some(i) => {
                assert(rest[i] == items[i + 1]);
                assert forall|j: int| 0 <= j < i + 1 implies items[j].key != name by {
                    if j > 0 {
                        assert(rest[j - 1] == items[j]);
                    }
                }
            },
            None => {
                assert forall|j: int| 0 <= j < items.len() implies items[j].key != name by {
                    if j > 0 {
                        assert(rest[j - 1] == items[j]);
                    }
                }
            },
        }
    }
}

/// A name that no binding before `i` has, and the binding at `i` has, is bound
/// at `i`.
pub proof fn lemma_type_found(items: Seq<TypeBindingView>, name: Seq<char>, i: int)
    requires
        0 <= i < items.len(),
        items[i].name == name,
        forall|j: int| 0 <= j < i ==> items[j].name != name,
    ensures
        type_position(items, name) == Some(i),
    decreases i,
{
    if i > 0 {
        let rest = items.drop_first();
        assert forall|j: int| 0 <= j < i - 1 implies rest[j].name != name by {
            assert(rest[j] == items[j + 1]);
        }
        lemma_type_found(rest, name, i - 1);
    }
}

/// A name that no binding has is bound nowhere.
pub proof fn lemma_type_absent(items: Seq<TypeBindingView>, name: Seq<char>)
    requires
        forall|j: int| 0 <= j < items.len() ==> items[j].name != name,
    ensures
        type_position(items, name) is None,
    decreases items.len(),
{
    if items.len() > 0 {
        let rest = items.drop_first();
        assert forall|j: int| 0 <= j < rest.len() implies rest[j].name != name by {
            assert(rest[j] == items[j + 1]);
        }
        lemma_type_absent(rest, name);
    }
}

/// Whether no two object bindings share a name.
pub open spec fn unique_objects(items: Seq<ItemView>) -> bool {
    forall|i: int, j: int| 0 <= i < j < items.len() ==> items[i].key != items[j].key
}

/// Whether no two type bindings share a name.
pub open spec fn unique_types(items: Seq<TypeBindingView>) -> bool {
    forall|i: int, j: int| 0 <= i < j < items.len() ==> items[i].name != items[j].name
}

/// The object bindings with the name bound to the value: in the place where
/// the name was bound, or at the end if it was not.
pub open spec fn with_object(items: Seq<ItemView>, name: Seq<char>, value: ObjectView) -> Seq<
    ItemView,
> {
    match object_position(items, name) {
        Some(i) => items.update(i, ItemView { key: name, value }),
        None => items.push(ItemView { key: name, value }),
    }
}

/// The type bindings with the name bound to the type: in the place where the
/// name was bound, or at the end if it was not.
pub open spec fn with_type(items: Seq<TypeBindingView>, name: Seq<char>, value: TTypesView) -> Seq<
    TypeBindingView,
> {
    match type_position(items, name) {
        Some(i) => items.update(i, TypeBindingView { name, value }),
        None => items.push(TypeBindingView { name, value }),
    }
}

impl StoreView {
    /// A store without bindings, in front of no other.
    pub open spec fn empty() -> StoreView {
        StoreView { types: Seq::empty(), objects: Seq::empty(), outer: None }
    }

    /// A store without bindings, in front of the given one.
    pub open spec fn nested(outer: StoreView) -> StoreView {
        StoreView { types: Seq::empty(), objects: Seq::empty(), outer: Some(Box::new(outer)) }
    }

    /// The store with the name bound to the value in this scope. The stores
    /// behind it are as they were.
    pub open spec fn set_object(self, name: Seq<char>, value: ObjectView) -> StoreView {
        StoreView { objects: with_object(self.objects, name, value), ..self }
    }

    /// The value the name resolves to: that of this scope if it binds the
    /// name, else what the stores behind it resolve it to.
    pub open spec fn get_object(self, name: Seq<char>) -> Option<ObjectView>
        decreases self,
    {
        match object_position(self.objects, name) {
            Some(i) => Some(self.objects[i].value),
            None => match self.outer {
                Some(outer) => outer.get_object(name),
                None => None,
            },
        }
    }

    /// The store with the name bound to the type in this scope.
    pub open spec fn set_type(self, name: Seq<char>, value: TTypesView) -> StoreView {
        StoreView { types: with_type(self.types, name, value), ..self }
    }

    /// The type the name resolves to: that of this scope if it binds the
    /// name, else what the stores behind it resolve it to.
    pub open spec fn get_type(self, name: Seq<char>) -> Option<TTypesView>
        decreases self,
    {
        match type_position(self.types, name) {
            Some(i) => Some(self.types[i].value),
            None => match self.outer {
                Some(outer) => outer.get_type(name),
                None => None,
            },
        }
    }

    /// Whether no scope of the chain binds a name twice.
    pub open spec fn unique(self) -> bool
        decreases self,
    {
        &&& unique_objects(self.objects)
        &&& unique_types(self.types)
        &&& match self.outer {
            Some(outer) => outer.unique(),
            None => true,
        }
    }
}

/// After a name was bound to a value, the bindings bind that name to that
/// value, and every other name where and to what they bound it before.
pub proof fn lemma_with_object(
    items: Seq<ItemView>,
    name: Seq<char>,
    value: ObjectView,
    other: Seq<char>,
)
    ensures
        object_position(with_object(items, name, value), name) matches Some(i) && with_object(
            items,
            name,
            value,
        )[i].value == value,
        other != name ==> object_position(with_object(items, name, value), other)
            == object_position(items, other),
        other != name ==> (object_position(items, other) matches Some(i) ==> with_object(
            items,
            name,
            value,
        )[i] == items[i]),
        unique_objects(items) ==> unique_objects(with_object(items, name, value)),
{
    let after = with_object(items, name, value);
    lemma_object_position(items, name);
    lemma_object_position(items, other);
    match object_position(items, name) {
        Some(i) => {
            assert(after.len() == items.len());
            assert forall|j: int| 0 <= j < items.len() implies #[trigger] after[j].key
                == items[j].key by {}
            lemma_object_found(after, name, i);
            if other != name {
                match object_position(items, other) {
                    Some(k) => {
                        lemma_object_found(after, other, k);
                    },
                    None => {
                        lemma_object_absent(after, other);
                    },
                }
            }
        },
        None => {
            assert(after.len() == items.len() + 1);
            assert forall|j: int| 0 <= j < items.len() implies #[trigger] after[j]
                == items[j] by {}
            lemma_object_found(after, name, items.len() as int);
            if other != name {
                match object_position(items, other) {
                    Some(k) => {
                        lemma_object_found(after, other, k);
                    },
                    None => {
                        lemma_object_absent(after, other);
                    },
                }
            }
        },
    }
}

/// A name resolves to what it was last bound to in the scope; binding one
/// name changes what no other name resolves to.
pub proof fn lemma_get_after_set(
    store: StoreView,
    name: Seq<char>,
    value: ObjectView,
    other: Seq<char>,
)
    ensures
        store.set_object(name, value).get_object(name) == Some(value),
        other != name ==> store.set_object(name, value).get_object(other) == store.get_object(
            other,
        ),
{
    lemma_with_object(store.objects, name, value, other);
}

/// A new scope resolves every name as the scope behind it does, and a
/// binding made in it leaves the scope behind it as it was.
pub proof fn lemma_nested_scope(store: StoreView, name: Seq<char>, value: ObjectView)
    ensures
        StoreView::nested(store).get_object(name) == store.get_object(name),
        StoreView::nested(store).get_type(name) == store.get_type(name),
        StoreView::nested(store).set_object(name, value).outer == Some(Box::new(store)),
{
    assert(object_position(Seq::<ItemView>::empty(), name) is None);
    assert(type_position(Seq::<TypeBindingView>::empty(), name) is None);
}

/// Equality of stores: the same type bindings, the same names bound in the
/// same order to equal values, in front of equal stores.
pub open spec fn same_store(left: StoreView, right: StoreView) -> bool
    decreases left,
{
    &&& left.types == right.types
    &&& same_items(left.objects, right.objects)
    &&& match left.outer {
        Some(outer) => right.outer matches Some(other) && same_store(*outer, *other),
        None => right.outer is None,
    }
}

/// Equality of environments: equal stores.
pub open spec fn same_environment(left: EnvironmentView, right: EnvironmentView) -> bool
    decreases left,
{
    same_store(left.store, right.store)
}

/// The models of the type bindings, in order.
pub open spec fn type_views(items: Seq<TypeBinding>) -> Seq<TypeBindingView> {
    Seq::new(items.len(), |i: int| items[i]@)
}

impl Store {
    /// The mathematical model of the value.
    pub closed spec fn model(&self) -> StoreView
        decreases self,
    {
        StoreView {
            types: type_views(self.types@),
            objects: item_views(self.objects),
            outer: match self.outer {
                Some(outer) => Some(Box::new(outer.model())),
                None => None,
            },
        }
    }

    /// The model holds the models of the bindings, place by place.
    proof fn lemma_model(&self)
        ensures
            self@.objects.len() == self.objects.len(),
            self@.types.len() == self.types.len(),
            forall|j: int| 0 <= j < self.objects.len() ==> self@.objects[j] == self.objects[j]@,
            forall|j: int| 0 <= j < self.types.len() ==> self@.types[j] == self.types[j]@,
            self@.objects == item_views(self.objects),
            self@.types == type_views(self.types@),
            match self.outer {
                Some(outer) => self@.outer == Some(Box::new(outer@)),
                None => self@.outer is None,
            },
    {
        reveal_with_fuel(Store::model, 2);
    }

    /// A store without bindings, in front of no other.
    pub fn new() -> (r: Store)
        ensures
            r@ == StoreView::empty(),
            r@.unique(),
    {
        let r = Store { types: Vec::new(), objects: Vec::new(), outer: None };
        proof {
            r.lemma_model();
            assert(r@.types =~= Seq::empty());
            assert(r@.objects =~= Seq::empty());
        }
        r
    }

    /// A store without bindings, in front of the given one.
    pub fn from_store(outer: Store) -> (r: Store)
        ensures
            r@ == StoreView::nested(outer@),
            outer@.unique() ==> r@.unique(),
    {
        let r = Store { types: Vec::new(), objects: Vec::new(), outer: Some(Box::new(outer)) };
        proof {
            r.lemma_model();
            assert(r@.types =~= Seq::empty());
            assert(r@.objects =~= Seq::empty());
        }
        r
    }

    /// A copy of the store and of those behind it.
    pub fn duplicate(&self) -> (r: Store)
        ensures
            r@ == self@,
        decreases self,
    {
        let mut types: Vec<TypeBinding> = Vec::new();
        let mut i: usize = 0;
        while i < self.types.len()
            invariant
                i <= self.types.len(),
                types.len() == i,
                forall|j: int| 0 <= j < i ==> types[j]@ == self.types[j]@,
            decreases self.types.len() - i,
        {
            types.push(
                TypeBinding { name: self.types[i].name.clone(), value: self.types[i].value.clone() },
            );
            i = i + 1;
        }
        assert(type_views(types@) =~= type_views(self.types@));
        proof {
            assert(decreases_to!(*self => self.objects));
        }
        let objects = duplicate_items(&self.objects);
        let outer = match &self.outer {
            Some(outer) => Some(Box::new(outer.duplicate())),
            None => None,
        };
        let r = Store { types, objects, outer };
        proof {
            self.lemma_model();
            r.lemma_model();
        }
        r
    }

    /// Whether the two stores are equal.
    pub fn equals(&self, other: &Store) -> (r: bool)
        ensures
            r == same_store(self@, other@),
        decreases self,
    {
        proof {
            self.lemma_model();
            other.lemma_model();
        }
        if self.types.len() != other.types.len() {
            return false;
        }
        let mut i: usize = 0;
        while i < self.types.len()
            invariant
                i <= self.types.len(),
                self.types.len() == other.types.len(),
                forall|j: int| 0 <= j < i ==> self.types[j]@ == other.types[j]@,
            decreases self.types.len() - i,
        {
            if !(self.types[i].name == other.types[i].name && self.types[i].value.equals(
                &other.types[i].value,
            )) {
                assert(self@.types[i as int] != other@.types[i as int]);
                return false;
            }
            i = i + 1;
        }
        assert(self@.types =~= other@.types);
        proof {
            assert(decreases_to!(*self => self.objects));
        }
        if !equal_items(&self.objects, &other.objects) {
            return false;
        }
        match (&self.outer, &other.outer) {
            (Some(outer), Some(other_outer)) => outer.equals(other_outer),
            (None, None) => true,
            _ => false,
        }
    }

    /// Binds the name to the value in this scope, in place of what the scope
    /// bound it to before. The stores behind it are never touched.
    pub fn set_object(&mut self, name: String, value: Objects)
        ensures
            final(self)@ == old(self)@.set_object(name@, value@),
            old(self)@.unique() ==> final(self)@.unique(),
    {
        let ghost start = *self;
        let ghost before = self@;
        proof {
            self.lemma_model();
        }
        let mut i: usize = 0;
        while i < self.objects.len()
            invariant
                i <= self.objects.len(),
                *self == start,
                before == start@,
                before == old(self)@,
                forall|j: int| 0 <= j < i ==> self.objects[j]@.key != name@,
            decreases self.objects.len() - i,
        {
            if self.objects[i].key == name {
                proof {
                    start.lemma_model();
                    lemma_object_found(before.objects, name@, i as int);
                }
                self.objects.set(i, HashItem { key: name, value });
                proof {
                    self.lemma_model();
                    assert(self@.objects =~= with_object(before.objects, name@, value@));
                    assert(self@.types =~= before.types);
                    lemma_with_object(before.objects, name@, value@, name@);
                }
                return ;
            }
            i = i + 1;
        }
        proof {
            start.lemma_model();
            lemma_object_absent(before.objects, name@);
        }
        self.objects.push(HashItem { key: name, value });
        proof {
            self.lemma_model();
            assert(self@.objects =~= with_object(before.objects, name@, value@));
            assert(self@.types =~= before.types);
            lemma_with_object(before.objects, name@, value@, name@);
        }
    }

    /// The value the name resolves to, looked for in this scope and then in
    /// the scopes behind it; nothing if none binds the name.
    pub fn get_object(&self, name: &String) -> (r: Option<Objects>)
        ensures
            match r {
                Some(value) => self@.get_object(name@) == Some(value@),
                None => self@.get_object(name@) is None,
            },
        decreases self,
    {
        proof {
            self.lemma_model();
        }
        let mut i: usize = 0;
        while i < self.objects.len()
            invariant
                i <= self.objects.len(),
                forall|j: int| 0 <= j < i ==> self.objects[j]@.key != name@,
            decreases self.objects.len() - i,
        {
            if self.objects[i].key == *name {
                proof {
                    self.lemma_model();
                    lemma_object_found(self@.objects, name@, i as int);
                }
                return Some(self.objects[i].value.duplicate());
            }
            i = i + 1;
        }
        proof {
            lemma_object_absent(self@.objects, name@);
        }
        match &self.outer {
            Some(outer) => outer.get_object(name),
            None => None,
        }
    }

    /// Binds the name to the type in this scope, in place of what the scope
    /// bound it to before. The stores behind it are never touched.
    pub fn set_type(&mut self, name: String, value: TTypes)
        ensures
            final(self)@ == old(self)@.set_type(name@, value@),
            old(self)@.unique() ==> final(self)@.unique(),
    {
        let ghost start = *self;
        let ghost before = self@;
        proof {
            self.lemma_model();
        }
        let mut i: usize = 0;
        while i < self.types.len()
            invariant
                i <= self.types.len(),
                *self == start,
                before == start@,
                before == old(self)@,
                forall|j: int| 0 <= j < i ==> self.types[j]@.name != name@,
            decreases self.types.len() - i,
        {
            if self.types[i].name == name {
                proof {
                    start.lemma_model();
                    lemma_type_found(before.types, name@, i as int);
                }
                self.types.set(i, TypeBinding { name, value });
                proof {
                    self.lemma_model();
                    assert(self@.types =~= with_type(before.types, name@, value@));
                    assert(self@.objects =~= before.objects);
                    if before.unique() {
                        assert forall|a: int, b: int|
                            0 <= a < b < self@.types.len() implies self@.types[a].name
                            != self@.types[b].name by {
                            assert(self@.types[a].name == before.types[a].name);
                            assert(self@.types[b].name == before.types[b].name);
                        }
                        assert(self@.unique());
                    }
                }
                return ;
            }
            i = i + 1;
        }
        proof {
            start.lemma_model();
            lemma_type_absent(before.types, name@);
        }
        self.types.push(TypeBinding { name, value });
        proof {
            self.lemma_model();
            assert(self@.types =~= with_type(before.types, name@, value@));
            assert(self@.objects =~= before.objects);
            if before.unique() {
                assert forall|a: int, b: int|
                    0 <= a < b < self@.types.len() implies self@.types[a].name
                    != self@.types[b].name by {
                    if b < before.types.len() {
                        assert(self@.types[a] == before.types[a]);
                        assert(self@.types[b] == before.types[b]);
                    } else {
                        assert(self@.types[a] == before.types[a]);
                    }
                }
                assert(self@.unique());
            }
        }
    }

    /// The type the name resolves to, looked for in this scope and then in
    /// the scopes behind it; nothing if none binds the name.
    pub fn get_type(&self, name: &String) -> (r: Option<TTypes>)
        ensures
            match r {
                Some(value) => self@.get_type(name@) == Some(value@),
                None => self@.get_type(name@) is None,
            },
        decreases self,
    {
        proof {
            self.lemma_model();
        }
        let mut i: usize = 0;
        while i < self.types.len()
            invariant
                i <= self.types.len(),
                forall|j: int| 0 <= j < i ==> self.types[j]@.name != name@,
            decreases self.types.len() - i,
        {
            if self.types[i].name == *name {
                proof {
                    self.lemma_model();
                    lemma_type_found(self@.types, name@, i as int);
                }
                return Some(self.types[i].value.clone());
            }
            i = i + 1;
        }
        proof {
            lemma_type_absent(self@.types, name@);
        }
        match &self.outer {
            Some(outer) => outer.get_type(name),
            None => None,
        }
    }
}

impl View for Store {
    type V = StoreView;

    open spec fn view(&self) -> StoreView {
        self.model()
    }
}

impl Clone for Store {
    fn clone(&self) -> (r: Store)
        ensures
            r@ == self@,
    {
        self.duplicate()
    }
}

impl Environment {
    /// The mathematical model of the value.
    pub open spec fn model(&self) -> EnvironmentView
        decreases self,
    {
        EnvironmentView { store: self.store.model() }
    }

    /// An environment whose only scope binds nothing.
    pub fn new() -> (r: Environment)
        ensures
            r@ == (EnvironmentView { store: StoreView::empty() }),
    {
        Environment { store: Store::new() }
    }

    /// The environment of the given store.
    pub fn from_store(store: Store) -> (r: Environment)
        ensures
            r@ == (EnvironmentView { store: store@ }),
    {
        Environment { store }
    }

    /// A copy of the environment.
    pub fn duplicate(&self) -> (r: Environment)
        ensures
            r@ == self@,
        decreases self,
    {
        Environment { store: self.store.duplicate() }
    }

    /// Whether the two environments are equal.
    pub fn equals(&self, other: &Environment) -> (r: bool)
        ensures
            r == same_environment(self@, other@),
        decreases self,
    {
        self.store.equals(&other.store)
    }
}

impl View for Environment {
    type V = EnvironmentView;

    open spec fn view(&self) -> EnvironmentView {
        self.model()
    }
}

impl Clone for Environment {
    fn clone(&self) -> (r: Environment)
        ensures
            r@ == self@,
    {
        self.duplicate()
    }
}

} // verus!
