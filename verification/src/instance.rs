//! Instances of kinds, and the standalone form of a relation between two of
//! them.

use crate::fields::FieldMap;
use crate::json::JsonValue;
use vstd::prelude::*;

verus! {

/// The key under which an instance keeps its display name.
pub open spec fn name_key() -> Seq<char> {
    "name"@
}

/// What an instance says: the name of its kind and its fields, in the order
/// in which they were first set.
pub struct InstanceView {
    pub kind: Seq<char>,
    pub entries: Seq<(Seq<char>, JsonValue)>,
}

impl InstanceView {
    /// Does the instance carry `field`?
    pub open spec fn has(&self, field: Seq<char>) -> bool {
        exists|i: int| 0 <= i < self.entries.len() && (#[trigger] self.entries[i]).0 == field
    }

    /// The value of `field`; meaningful where `has(field)`.
    pub open spec fn value(&self, field: Seq<char>) -> JsonValue {
        let i = choose|i: int| 0 <= i < self.entries.len() && (#[trigger] self.entries[i]).0 == field;
        self.entries[i].1
    }

    /// The two instances say the same: they declare the same kind and carry
    /// the same fields in the same order, with the same values.
    pub open spec fn same(&self, other: InstanceView) -> bool {
        &&& self.kind == other.kind
        &&& self.entries.len() == other.entries.len()
        &&& forall|i: int|
            0 <= i < self.entries.len() ==> {
                &&& (#[trigger] self.entries[i]).0 == other.entries[i].0
                &&& self.entries[i].1.same(other.entries[i].1)
            }
    }

    /// The two instances read the same to the model: they declare the same
    /// kind and carry the same fields in the same order, with values that
    /// are alike.
    pub open spec fn alike(&self, other: InstanceView) -> bool {
        &&& self.kind == other.kind
        &&& self.entries.len() == other.entries.len()
        &&& forall|i: int|
            0 <= i < self.entries.len() ==> {
                &&& (#[trigger] self.entries[i]).0 == other.entries[i].0
                &&& self.entries[i].1.alike(other.entries[i].1)
            }
    }

    /// Instances that say the same read the same to the model.
    pub proof fn law_same_is_alike(&self, other: InstanceView)
        requires
            self.same(other),
        ensures
            self.alike(other),
    {
    }

    /// The display name: the text of the `"name"` field, where the instance
    /// has that field and its value is a string.
    pub open spec fn name(&self) -> Option<Seq<char>> {
        if self.has(name_key()) {
            self.value(name_key()).text()
        } else {
            None
        }
    }
}

/// A record that declares its kind by name and carries an open map of
/// fields. Nothing ties it to a catalog until it is validated.
#[derive(Debug, PartialEq)]
pub struct NodeInstance {
    kind: String,
    data: FieldMap<JsonValue>,
}

impl View for NodeInstance {
    type V = InstanceView;

    closed spec fn view(&self) -> InstanceView {
        InstanceView { kind: self.kind@, entries: self.data.entries() }
    }
}

impl Clone for NodeInstance {
    /// A copy that says the same.
    fn clone(&self) -> (inst: Self)
        ensures
            self.wf() ==> inst.wf() && self@.same(inst@),
    {
        NodeInstance { kind: self.kind.clone(), data: self.data.clone() }
    }
}

/// Instances that are alike carry the same display name, if any.
pub proof fn law_alike_share_name(a: NodeInstance, b: NodeInstance)
    requires
        a.wf(),
        b.wf(),
        a@.alike(b@),
    ensures
        a@.name() == b@.name(),
{
    if b@.has(name_key()) {
        let i = b.data.keys().index_of(name_key());
        assert(a@.entries[i].0 == name_key());
    }
}

impl NodeInstance {
    /// No field occurs twice.
    pub closed spec fn wf(&self) -> bool {
        self.data.wf()
    }

    /// In a well-formed instance each field occurs once.
    pub proof fn law_fields_distinct(&self)
        requires
            self.wf(),
        ensures
            forall|i: int, j: int|
                0 <= i < j < self@.entries.len() ==> (#[trigger] self@.entries[i]).0
                    != (#[trigger] self@.entries[j]).0,
    {
    }

    proof fn lemma_has(&self, field: Seq<char>)
        requires
            self.wf(),
        ensures
            self@.has(field) == self.data.contains(field),
            self.data.contains(field) ==> self@.value(field) == self.data.value_of(field),
    {
        if self.data.contains(field) {
            let i = self.data.keys().index_of(field);
            assert(self@.entries[i].0 == field);
        }
    }

    /// A fresh instance of kind `kind` whose only field is its display name.
    pub fn new(kind: &str, name: &str) -> (inst: Self)
        ensures
            inst.wf(),
            inst@.kind == kind@,
            inst@.entries.len() == 1,
            inst@.entries[0].0 == name_key(),
            inst@.entries[0].1.text() == Some(name@),
            inst@.name() == Some(name@),
    {
        let mut data = FieldMap::new();
        data.insert("name".to_owned(), JsonValue::String(name.to_owned()));
        NodeInstance { kind: kind.to_owned(), data }
    }

    /// An instance of kind `kind` that carries exactly the fields of `data`,
    /// in their order. Nothing asks that a display name be among them.
    pub fn from_parts(kind: &str, data: FieldMap<JsonValue>) -> (inst: Self)
        requires
            data.wf(),
        ensures
            inst.wf(),
            inst@.kind == kind@,
            inst@.entries == data.entries(),
    {
        NodeInstance { kind: kind.to_owned(), data }
    }

    /// The name of the kind this instance declares.
    pub fn kind(&self) -> (k: &str)
        ensures
            k@ == self@.kind,
    {
        self.kind.as_str()
    }

    /// The number of fields.
    pub fn field_count(&self) -> (n: usize)
        requires
            self.wf(),
        ensures
            n == self@.entries.len(),
    {
        self.data.len()
    }

    /// The field at position `i`: its name and its value.
    pub fn field_at(&self, i: usize) -> (f: (&str, &JsonValue))
        requires
            self.wf(),
            i < self@.entries.len(),
        ensures
            f.0@ == self@.entries[i as int].0,
            *f.1 == self@.entries[i as int].1,
    {
        (self.data.key_at(i).as_str(), self.data.value_at(i))
    }

    /// The value of `field`, if the instance carries it.
    pub fn get(&self, field: &str) -> (r: Option<&JsonValue>)
        requires
            self.wf(),
        ensures
            match r {
                Some(v) => self@.has(field@) && *v == self@.value(field@),
                None => !self@.has(field@),
            },
    {
        proof {
            self.lemma_has(field@);
        }
        self.data.get(field)
    }

    /// Sets `field` to `value` and returns the value it replaces, if any. The
    /// entry is replaced whole; nothing is merged. A field already present
    /// keeps its position, a new one goes last.
    pub fn insert(&mut self, field: &str, value: JsonValue) -> (r: Option<JsonValue>)
        requires
            old(self).wf(),
        ensures
            final(self).wf(),
            final(self)@.kind == old(self)@.kind,
            final(self)@.has(field@),
            final(self)@.value(field@) == value,
            forall|other: Seq<char>|
                other != field@ ==> {
                    &&& (#[trigger] final(self)@.has(other)) == old(self)@.has(other)
                    &&& old(self)@.has(other) ==> final(self)@.value(other) == old(self)@.value(
                        other,
                    )
                },
            match r {
                Some(v) => {
                    &&& old(self)@.has(field@)
                    &&& v == old(self)@.value(field@)
                    &&& final(self)@.entries.len() == old(self)@.entries.len()
                    &&& forall|i: int|
                        0 <= i < old(self)@.entries.len() ==> #[trigger] final(self)@.entries[i] == (
                        if old(self)@.entries[i].0 == field@ {
                            (field@, value)
                        } else {
                            old(self)@.entries[i]
                        })
                },
                None => {
                    &&& !old(self)@.has(field@)
                    &&& final(self)@.entries == old(self)@.entries.push((field@, value))
                },
            },
    {
        proof {
            self.lemma_has(field@);
        }
        let r = self.data.insert(field.to_owned(), value);
        proof {
            assert(self.data.as_map().contains_key(field@));
            self.lemma_has(field@);
            assert forall|other: Seq<char>| other != field@ implies {
                &&& (#[trigger] self@.has(other)) == old(self)@.has(other)
                &&& old(self)@.has(other) ==> self@.value(other) == old(self)@.value(other)
            } by {
                self.lemma_has(other);
                old(self).lemma_has(other);
                assert(self.data.as_map().contains_key(other) == old(self).data.as_map().contains_key(
                    other,
                ));
            }
        }
        r
    }

    /// Does the instance carry a display name: a `"name"` field whose value
    /// is a string?
    pub fn has_name(&self) -> (b: bool)
        requires
            self.wf(),
        ensures
            b == self@.name().is_some(),
    {
        match self.get("name") {
            Some(value) => value.as_str().is_some(),
            None => false,
        }
    }

    /// The display name. The instance must carry one.
    pub fn name(&self) -> (n: &str)
        requires
            self.wf(),
            self@.name().is_some(),
        ensures
            Some(n@) == self@.name(),
    {
        match self.get("name") {
            Some(value) => match value.as_str() {
                Some(name) => name,
                None => vstd::pervasive::unreached(),
            },
            None => vstd::pervasive::unreached(),
        }
    }
}

/// What an edge says, as text.
pub struct EdgeView {
    pub source: Seq<char>,
    pub target: Seq<char>,
    pub label: Seq<char>,
}

/// A directed, labeled relation in its standalone form: the display names of
/// its two ends and the label of the relation.
#[derive(Debug, PartialEq, Eq)]
pub struct Edge {
    pub source: String,
    pub target: String,
    pub label: String,
}

impl View for Edge {
    type V = EdgeView;

    open spec fn view(&self) -> EdgeView {
        EdgeView { source: self.source@, target: self.target@, label: self.label@ }
    }
}

impl Clone for Edge {
    /// An equal edge.
    fn clone(&self) -> (e: Self)
        ensures
            e == *self,
    {
        Edge { source: self.source.clone(), target: self.target.clone(), label: self.label.clone() }
    }
}

impl Edge {
    /// The relation `label` from `source` to `target`.
    pub fn new(source: &str, target: &str, label: &str) -> (e: Self)
        ensures
            e@ == (EdgeView { source: source@, target: target@, label: label@ }),
    {
        Edge { source: source.to_owned(), target: target.to_owned(), label: label.to_owned() }
    }
}

} // verus!
