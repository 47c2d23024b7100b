//! The values of a configuration tree.

use vstd::prelude::*;

pub mod access;
pub mod json;
pub mod kind;
pub mod nesting;
pub mod toml;

verus! {

/// One value of a configuration tree: a scalar, a list of values or a map
/// from keys to values.
///
/// Whatever format a tree was read from, it is held in this form, so that
/// trees from different formats can lie in one stack of layers and be
/// descended by one path syntax.
///
/// An integer is held by its value, from the smallest `i64` to the largest
/// `u64`, and a floating-point number in double precision. The kinds (`i8`,
/// `u16`, `f32`, ...) are answered by range: an integer is an `i8` if its
/// value lies in the range of `i8`, however it is held.
#[derive(Debug)]
pub enum ConfigElement {
    Null,
    Bool(bool),
    /// An integer in the range of `i64`.
    Integer(i64),
    /// An integer in the range of `u64`. It means the same as an `Integer`
    /// of the same value; an integer above the largest `i64` can only be
    /// held so.
    Unsigned(u64),
    /// A double-precision floating-point number, held as its IEEE 754 bit
    /// pattern.
    Float(u64),
    Str(String),
    List(Vec<ConfigElement>),
    Dict(ConfigElementMap),
}

/// The map of a [`ConfigElement::Dict`]: keys with their values, in the order
/// in which they were entered. Where a key occurs twice, the first entry is
/// the one that is found.
#[derive(Debug)]
pub struct ConfigElementMap {
    pub entries: Vec<(String, ConfigElement)>,
}

/// The value that `entries` holds for `key`: that of the first entry with
/// this key.
pub open spec fn lookup(entries: Seq<(String, ConfigElement)>, key: Seq<char>) -> Option<
    ConfigElement,
>
    decreases entries.len(),
{
    if entries.len() == 0 {
        None
    } else if entries[0].0@ == key {
        Some(entries[0].1)
    } else {
        lookup(entries.skip(1), key)
    }
}

/// The smallest position in `entries` that holds `key`, if there is one.
pub open spec fn position_of(entries: Seq<(String, ConfigElement)>, key: Seq<char>) -> Option<int>
    decreases entries.len(),
{
    if entries.len() == 0 {
        None
    } else if entries[0].0@ == key {
        Some(0)
    } else {
        match position_of(entries.skip(1), key) {
            Some(i) => Some(i + 1),
            None => None,
        }
    }
}

/// `lookup` finds the entry at `position_of`, and that is the first entry
/// with the key.
pub proof fn lemma_lookup_position(entries: Seq<(String, ConfigElement)>, key: Seq<char>)
    ensures
        match position_of(entries, key) {
            Some(i) => 0 <= i < entries.len() && entries[i].0@ == key && lookup(entries, key)
                == Some(entries[i].1) && forall|j: int| 0 <= j < i ==> entries[j].0@ != key,
            None => lookup(entries, key) is None && forall|j: int|
                0 <= j < entries.len() ==> entries[j].0@ != key,
        },
    decreases entries.len(),
{
    if entries.len() > 0 && entries[0].0@ != key {
        let rest = entries.skip(1);
        lemma_lookup_position(rest, key);
        match position_of(rest, key) {
            Some(i) => {
                assert forall|j: int| 0 <= j < i + 1 implies entries[j].0@ != key by {
                    if j > 0 {
                        assert(rest[j - 1] == entries[j]);
                    }
                }
            },
            None => {
                assert forall|j: int| 0 <= j < entries.len() implies entries[j].0@ != key by {
                    if j > 0 {
                        assert(rest[j - 1] == entries[j]);
                    }
                }
            },
        }
    }
}

/// What a list of elements offers to a descent: its length and the element at
/// a position.
pub trait ConfigElementListType {
    /// The elements of the list, in order. An implementation states them;
    /// where it does not, nothing is known of them.
    open spec fn elements(&self) -> Seq<ConfigElement> {
        arbitrary()
    }

    fn len(&self) -> (n: usize)
        ensures
            n == self.elements().len(),
    ;

    /// The element at `index`, or nothing where the list is shorter.
    fn at_index(&self, index: usize) -> (element: Option<&ConfigElement>)
        ensures
            element == if index < self.elements().len() {
                Some(&self.elements()[index as int])
            } else {
                None
            },
    ;

    fn is_empty(&self) -> (b: bool)
        ensures
            b == (self.elements().len() == 0),
    {
        self.len() == 0
    }
}

impl ConfigElementListType for Vec<ConfigElement> {
    open spec fn elements(&self) -> Seq<ConfigElement> {
        self@
    }

    fn len(&self) -> (n: usize) {
        Vec::len(self)
    }

    fn at_index(&self, index: usize) -> (element: Option<&ConfigElement>) {
        if index < Vec::len(self) {
            Some(&self[index])
        } else {
            None
        }
    }
}

/// What a map of elements offers to a descent: the element under a key, and
/// its keys and values.
pub trait ConfigElementMapType {
    /// The keys with their values, in the order in which the map hands them
    /// out. An implementation states them; where it does not, nothing is
    /// known of them.
    open spec fn pairs(&self) -> Seq<(String, ConfigElement)> {
        arbitrary()
    }

    /// The element under `key`, or nothing where the map has no such key.
    fn get(&self, key: &str) -> (element: Option<&ConfigElement>)
        ensures
            element == match lookup(self.pairs(), key@) {
                Some(found) => Some(&found),
                None => None,
            },
    ;

    fn contains_key(&self, key: &str) -> (b: bool)
        ensures
            b == lookup(self.pairs(), key@) is Some,
    {
        self.get(key).is_some()
    }

    fn keys(&self) -> (keys: Vec<String>)
        ensures
            keys@.len() == self.pairs().len(),
            forall|i: int| 0 <= i < keys@.len() ==> keys@[i]@ == self.pairs()[i].0@,
    ;

    fn values(&self) -> (values: Vec<&ConfigElement>)
        ensures
            values@.len() == self.pairs().len(),
            forall|i: int| 0 <= i < values@.len() ==> *values@[i] == self.pairs()[i].1,
    ;
}

impl ConfigElementMapType for ConfigElementMap {
    open spec fn pairs(&self) -> Seq<(String, ConfigElement)> {
        self.entries@
    }

    fn get(&self, key: &str) -> (element: Option<&ConfigElement>) {
        let wanted = key.to_owned();
        let mut i: usize = 0;
        while i < self.entries.len()
            invariant
                i <= self.entries.len(),
                wanted@ == key@,
                forall|j: int| 0 <= j < i ==> self.entries@[j].0@ != key@,
            decreases self.entries.len() - i,
        {
            if self.entries[i].0 == wanted {
                proof {
                    lemma_lookup_position(self.entries@, key@);
                }
                return Some(&self.entries[i].1);
            }
            i += 1;
        }
        proof {
            lemma_lookup_position(self.entries@, key@);
        }
        None
    }

    fn keys(&self) -> (keys: Vec<String>) {
        let mut keys: Vec<String> = Vec::new();
        let mut i: usize = 0;
        while i < self.entries.len()
            invariant
                i <= self.entries.len(),
                keys@.len() == i,
                forall|j: int| 0 <= j < i ==> keys@[j]@ == self.entries@[j].0@,
            decreases self.entries.len() - i,
        {
            keys.push(self.entries[i].0.clone());
            i += 1;
        }
        keys
    }

    fn values(&self) -> (values: Vec<&ConfigElement>) {
        let mut values: Vec<&ConfigElement> = Vec::new();
        let mut i: usize = 0;
        while i < self.entries.len()
            invariant
                i <= self.entries.len(),
                values@.len() == i,
                forall|j: int| 0 <= j < i ==> *values@[j] == self.entries@[j].1,
            decreases self.entries.len() - i,
        {
            values.push(&self.entries[i].1);
            i += 1;
        }
        values
    }
}

/// What a tree of values holds, apart from how it is stored: the content of
/// a [`ConfigElement`] and of the value trees of the formats that are read.
pub enum Node {
    Null,
    Bool(bool),
    Integer(int),
    /// A double-precision floating-point number as its bit pattern.
    Float(u64),
    Str(Seq<char>),
    List(Seq<Node>),
    /// Keys with their values, in order.
    Dict(Seq<(Seq<char>, Node)>),
}

impl ConfigElement {
    /// The content of this element.
    pub open spec fn node(&self) -> Node
        decreases self,
    {
        match self {
            ConfigElement::Null => Node::Null,
            ConfigElement::Bool(b) => Node::Bool(*b),
            ConfigElement::Integer(i) => Node::Integer(*i as int),
            ConfigElement::Unsigned(u) => Node::Integer(*u as int),
            ConfigElement::Float(bits) => Node::Float(*bits),
            ConfigElement::Str(s) => Node::Str(s@),
            ConfigElement::List(items) => Node::List(
                Seq::new(
                    items@.len(),
                    |i: int|
                        if 0 <= i < items@.len() {
                            items@[i].node()
                        } else {
                            Node::Null
                        },
                ),
            ),
            ConfigElement::Dict(map) => Node::Dict(
                Seq::new(
                    map.entries@.len(),
                    |i: int|
                        if 0 <= i < map.entries@.len() {
                            (map.entries@[i].0@, map.entries@[i].1.node())
                        } else {
                            (Seq::empty(), Node::Null)
                        },
                ),
            ),
        }
    }
}

impl View for ConfigElement {
    type V = Node;

    open spec fn view(&self) -> Node {
        self.node()
    }
}

impl ConfigElement {
    /// A copy of this element with the same content.
    pub fn duplicate(&self) -> (copy: Self)
        ensures
            copy@ == self@,
        decreases self,
    {
        match self {
            ConfigElement::Null => ConfigElement::Null,
            ConfigElement::Bool(b) => ConfigElement::Bool(*b),
            ConfigElement::Integer(i) => ConfigElement::Integer(*i),
            ConfigElement::Unsigned(u) => ConfigElement::Unsigned(*u),
            ConfigElement::Float(bits) => ConfigElement::Float(*bits),
            ConfigElement::Str(s) => ConfigElement::Str(s.clone()),
            ConfigElement::List(items) => {
                let mut copies: Vec<ConfigElement> = Vec::new();
                let mut i: usize = 0;
                while i < items.len()
                    invariant
                        i <= items@.len(),
                        *self == ConfigElement::List(*items),
                        copies@.len() == i,
                        forall|j: int| 0 <= j < i ==> (#[trigger] copies@[j])@ == items@[j]@,
                    decreases items@.len() - i,
                {
                    assert(decreases_to!(*self => (*self)->List_0));
                    copies.push(items[i].duplicate());
                    i += 1;
                }
                let copy = ConfigElement::List(copies);
                assert(copy@->List_0 =~= self@->List_0);
                copy
            },
            ConfigElement::Dict(map) => {
                let mut entries: Vec<(String, ConfigElement)> = Vec::new();
                let mut i: usize = 0;
                while i < map.entries.len()
                    invariant
                        i <= map.entries@.len(),
                        *self == ConfigElement::Dict(*map),
                        entries@.len() == i,
                        forall|j: int|
                            0 <= j < i ==> (#[trigger] entries@[j]).0@ == map.entries@[j].0@
                                && entries@[j].1@ == map.entries@[j].1@,
                    decreases map.entries@.len() - i,
                {
                    assert(decreases_to!(*self => (*self)->Dict_0));
                    entries.push((map.entries[i].0.clone(), map.entries[i].1.duplicate()));
                    i += 1;
                }
                let copy = ConfigElement::Dict(ConfigElementMap { entries });
                assert(copy@->Dict_0 =~= self@->Dict_0);
                copy
            },
        }
    }
}

impl Clone for ConfigElement {
    fn clone(&self) -> (copy: Self)
        ensures
            copy@ == self@,
    {
        self.duplicate()
    }
}

} // verus!
