//! The generic document tree that the projection reads, and the two lookups
//! on it: `get` for a named scalar field, `resolve` for a named structural child.
use vstd::prelude::*;

verus! {

/// A scalar value held by a named field of an object.
#[derive(Debug, PartialEq, Eq)]
pub enum Value {
    Str(String),
    Int(i64),
    /// Any other scalar kind (a boolean, a number that is not an integer, ...).
    Other,
}

/// A named scalar field of an object.
#[derive(Debug, PartialEq, Eq)]
pub struct Prop {
    pub name: String,
    pub value: Value,
}

/// A named structural child of an object, as the document's resolver yields it.
#[derive(Debug, PartialEq, Eq)]
pub struct Child {
    pub name: String,
    pub node: Node,
}

/// An object: named scalar fields, and named structural children.
#[derive(Debug, PartialEq, Eq)]
pub struct Object {
    pub props: Vec<Prop>,
    pub children: Vec<Child>,
}

/// One position of a table; its key or its value may be missing.
#[derive(Debug, PartialEq, Eq)]
pub struct Entry {
    pub key: Option<String>,
    pub value: Option<Node>,
}

/// A structural node: an ordered table of entries, or an object.
#[derive(Debug, PartialEq, Eq)]
pub enum Node {
    Table(Vec<Entry>),
    Object(Object),
}

/// The value of the first scalar field of `props` named `name`.
pub open spec fn find_prop(props: Seq<Prop>, name: Seq<char>) -> Option<Value>
    decreases props.len(),
{
    if props.len() == 0 {
        None
    } else if props[0].name@ == name {
        Some(props[0].value)
    } else {
        find_prop(props.drop_first(), name)
    }
}

/// The first structural child of `children` named `name`.
pub open spec fn find_child(children: Seq<Child>, name: Seq<char>) -> Option<Node>
    decreases children.len(),
{
    if children.len() == 0 {
        None
    } else if children[0].name@ == name {
        Some(children[0].node)
    } else {
        find_child(children.drop_first(), name)
    }
}

/// What `get` returns: the scalar field of `o` named `name`, if any.
pub open spec fn spec_get(o: Object, name: Seq<char>) -> Option<Value> {
    find_prop(o.props@, name)
}

/// What `resolve` returns: the structural child of `o` named `name`, if any.
pub open spec fn spec_resolve(o: Object, name: Seq<char>) -> Option<Node> {
    find_child(o.children@, name)
}

/// The text of a string value; nothing for any other value or for no value.
pub open spec fn text_of(v: Option<Value>) -> Option<Seq<char>> {
    match v {
        Some(Value::Str(s)) => Some(s@),
        _ => None,
    }
}

/// The integer of an integer value; nothing for any other value or for no value.
pub open spec fn int_of(v: Option<Value>) -> Option<i64> {
    match v {
        Some(Value::Int(n)) => Some(n),
        _ => None,
    }
}

/// The entries of a table node; nothing for an object or for no node.
pub open spec fn table_of(n: Option<Node>) -> Option<Seq<Entry>> {
    match n {
        Some(Node::Table(es)) => Some(es@),
        _ => None,
    }
}

impl Object {
    /// Direct lookup of a named scalar field.
    pub fn get(&self, name: &String) -> (r: Option<&Value>)
        ensures
            match r {
                Some(v) => spec_get(*self, name@) == Some(*v),
                None => spec_get(*self, name@) is None,
            },
    {
        let mut i: usize = 0;
        assert(self.props@.subrange(0, self.props@.len() as int) =~= self.props@);
        while i < self.props.len()
            invariant
                i <= self.props@.len(),
                find_prop(self.props@, name@) == find_prop(self.props@.subrange(i as int, self.props@.len() as int), name@),
            decreases self.props@.len() - i,
        {
            let ghost rest = self.props@.subrange(i as int, self.props@.len() as int);
            if self.props[i].name == *name {
                return Some(&self.props[i].value);
            }
            assert(rest.drop_first() =~= self.props@.subrange(i + 1, self.props@.len() as int));
            i = i + 1;
        }
        assert(self.props@.subrange(i as int, self.props@.len() as int).len() == 0);
        None
    }

    /// Lookup of a named structural child.
    pub fn resolve(&self, name: &String) -> (r: Option<&Node>)
        ensures
            match r {
                Some(n) => spec_resolve(*self, name@) == Some(*n),
                None => spec_resolve(*self, name@) is None,
            },
    {
        let mut i: usize = 0;
        assert(self.children@.subrange(0, self.children@.len() as int) =~= self.children@);
        while i < self.children.len()
            invariant
                i <= self.children@.len(),
                find_child(self.children@, name@) == find_child(self.children@.subrange(i as int, self.children@.len() as int), name@),
            decreases self.children@.len() - i,
        {
            let ghost rest = self.children@.subrange(i as int, self.children@.len() as int);
            if self.children[i].name == *name {
                return Some(&self.children[i].node);
            }
            assert(rest.drop_first() =~= self.children@.subrange(i + 1, self.children@.len() as int));
            i = i + 1;
        }
        assert(self.children@.subrange(i as int, self.children@.len() as int).len() == 0);
        None
    }
}

} // verus!
