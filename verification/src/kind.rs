//! Kinds and the catalog that holds them.

use crate::fields::FieldMap;
use crate::json::JsonType;
use vstd::prelude::*;

verus! {

/// What a kind definition says: its name, the name of its parent if it has
/// one, and the type of each field it declares.
pub struct KindView {
    pub name: Seq<char>,
    pub parent: Option<Seq<char>>,
    pub fields: Map<Seq<char>, JsonType>,
}

/// A named kind: the fields an instance of exactly this kind may carry, each
/// with its primitive type, and an optional parent kind.
#[derive(Debug, PartialEq)]
pub struct KindDefinition {
    name: String,
    parent: Option<String>,
    fields: FieldMap<JsonType>,
}

impl View for KindDefinition {
    type V = KindView;

    closed spec fn view(&self) -> KindView {
        KindView {
            name: self.name@,
            parent: match self.parent {
                Some(p) => Some(p@),
                None => None,
            },
            fields: self.fields.as_map(),
        }
    }
}

impl Clone for KindDefinition {
    /// A copy that says the same.
    fn clone(&self) -> (def: Self)
        ensures
            self.wf() ==> def.wf() && def@ == self@,
    {
        let def = KindDefinition {
            name: self.name.clone(),
            parent: self.parent.clone(),
            fields: self.fields.clone(),
        };
        proof {
            if self.wf() {
                assert(def@.fields =~= self@.fields);
            }
        }
        def
    }
}

impl KindDefinition {
    /// No field is declared twice.
    pub closed spec fn wf(&self) -> bool {
        self.fields.wf()
    }

    /// A kind with the given name and parent that declares no field yet.
    pub fn new(name: &str, parent: Option<&str>) -> (def: Self)
        ensures
            def.wf(),
            def@.name == name@,
            def@.parent == match parent {
                Some(p) => Some(p@),
                None => None,
            },
            def@.fields == Map::<Seq<char>, JsonType>::empty(),
    {
        let parent = match parent {
            Some(p) => Some(p.to_owned()),
            None => None,
        };
        KindDefinition { name: name.to_owned(), parent, fields: FieldMap::new() }
    }

    /// The same kind with `field` declared to have type `ty`. A field declared
    /// before takes the new type.
    pub fn with_field(self, field: &str, ty: JsonType) -> (def: Self)
        requires
            self.wf(),
        ensures
            def.wf(),
            def@.name == self@.name,
            def@.parent == self@.parent,
            def@.fields == self@.fields.insert(field@, ty),
    {
        let mut def = self;
        def.fields.insert(field.to_owned(), ty);
        def
    }

    /// The kind's name.
    pub fn name(&self) -> (n: &str)
        ensures
            n@ == self@.name,
    {
        self.name.as_str()
    }

    /// The name of the parent kind, if one is declared.
    pub fn parent(&self) -> (p: Option<&str>)
        ensures
            match p {
                Some(s) => self@.parent == Some(s@),
                None => self@.parent.is_none(),
            },
    {
        match &self.parent {
            Some(s) => Some(s.as_str()),
            None => None,
        }
    }

    /// The type declared for `field`, if the kind declares it.
    pub fn field_type(&self, field: &str) -> (t: Option<JsonType>)
        requires
            self.wf(),
        ensures
            match t {
                Some(ty) => self@.fields.contains_key(field@) && self@.fields[field@] == ty,
                None => !self@.fields.contains_key(field@),
            },
    {
        match self.fields.get(field) {
            Some(ty) => Some(*ty),
            None => None,
        }
    }
}

/// Why a registration was refused.
#[derive(Debug, PartialEq, Eq)]
pub enum RegistryError {
    /// A kind of this name is registered already.
    DuplicateKind(String),
    /// The definition names this parent, and no kind of that name is
    /// registered.
    UnknownParent(String),
}

impl Clone for RegistryError {
    /// An equal error.
    fn clone(&self) -> (e: Self)
        ensures
            e == *self,
    {
        match self {
            RegistryError::DuplicateKind(n) => RegistryError::DuplicateKind(n.clone()),
            RegistryError::UnknownParent(n) => RegistryError::UnknownParent(n.clone()),
        }
    }
}

/// A `RegistryError` with its names as text.
pub enum RegistryFault {
    DuplicateKind(Seq<char>),
    UnknownParent(Seq<char>),
}

impl View for RegistryError {
    type V = RegistryFault;

    open spec fn view(&self) -> RegistryFault {
        match self {
            RegistryError::DuplicateKind(n) => RegistryFault::DuplicateKind(n@),
            RegistryError::UnknownParent(n) => RegistryFault::UnknownParent(n@),
        }
    }
}

/// Is a kind of this name among `kinds`?
pub open spec fn registered(kinds: Seq<KindView>, name: Seq<char>) -> bool {
    exists|i: int| 0 <= i < kinds.len() && #[trigger] kinds[i].name == name
}

/// The definition of the kind `name` among `kinds`; meaningful where
/// `registered(kinds, name)`.
pub open spec fn definition_of(kinds: Seq<KindView>, name: Seq<char>) -> KindView {
    let i = choose|i: int| 0 <= i < kinds.len() && #[trigger] kinds[i].name == name;
    kinds[i]
}

/// No name occurs twice, and a kind's parent comes before the kind itself,
/// so the parent links form a forest.
pub open spec fn catalog_inv(kinds: Seq<KindView>) -> bool {
    &&& forall|i: int, j: int|
        0 <= i < j < kinds.len() ==> #[trigger] kinds[i].name != #[trigger] kinds[j].name
    &&& forall|i: int|
        0 <= i < kinds.len() && (#[trigger] kinds[i]).parent.is_some() ==> exists|j: int|
            0 <= j < i && #[trigger] kinds[j].name == kinds[i].parent.unwrap()
}

/// What registering `def` into a catalog that holds `kinds` comes to. The
/// parent is looked at first: a definition with an unregistered parent is
/// refused for that, whether or not its own name is taken.
pub open spec fn registration(kinds: Seq<KindView>, def: KindView) -> Result<(), RegistryFault> {
    if def.parent.is_some() && !registered(kinds, def.parent.unwrap()) {
        Err(RegistryFault::UnknownParent(def.parent.unwrap()))
    } else if registered(kinds, def.name) {
        Err(RegistryFault::DuplicateKind(def.name))
    } else {
        Ok(())
    }
}

/// A definition whose parent is not registered is refused with
/// `UnknownParent`, whatever else holds of it.
pub proof fn law_unknown_parent_refused(kinds: Seq<KindView>, def: KindView)
    requires
        def.parent.is_some(),
        !registered(kinds, def.parent.unwrap()),
    ensures
        registration(kinds, def) == Err::<(), RegistryFault>(
            RegistryFault::UnknownParent(def.parent.unwrap()),
        ),
{
}

/// Once `first` is registered, a definition `second` of the same name is
/// refused with `DuplicateKind`, be it the same definition or another one,
/// as long as its parent, if it names one, is registered.
pub proof fn law_duplicate_refused(kinds: Seq<KindView>, first: KindView, second: KindView)
    requires
        registration(kinds, first).is_ok(),
        second.name == first.name,
        second.parent.is_some() ==> registered(kinds.push(first), second.parent.unwrap()),
    ensures
        registration(kinds.push(first), second) == Err::<(), RegistryFault>(
            RegistryFault::DuplicateKind(second.name),
        ),
{
    let after = kinds.push(first);
    assert(after[kinds.len() as int].name == second.name);
}

/// Registering keeps a catalog a forest: names stay unique and parents stay
/// ahead of their children.
pub proof fn law_registration_keeps_forest(kinds: Seq<KindView>, def: KindView)
    requires
        catalog_inv(kinds),
        registration(kinds, def).is_ok(),
    ensures
        catalog_inv(kinds.push(def)),
{
    let after = kinds.push(def);
    assert forall|i: int| 0 <= i < after.len() && (#[trigger] after[i]).parent.is_some() implies exists|
        j: int,
    |
        0 <= j < i && #[trigger] after[j].name == after[i].parent.unwrap() by {
        if i < kinds.len() {
            let j = choose|j: int| 0 <= j < i && #[trigger] kinds[j].name == kinds[i].parent.unwrap();
            assert(after[j].name == after[i].parent.unwrap());
        } else {
            let p = def.parent.unwrap();
            let j = choose|j: int| 0 <= j < kinds.len() && #[trigger] kinds[j].name == p;
            assert(after[j].name == p);
        }
    }
}

/// The catalog: every kind registered so far, by name. It only grows.
#[derive(Debug)]
pub struct KindRegistry {
    kinds: FieldMap<KindDefinition>,
}

impl Clone for KindRegistry {
    /// A copy that holds the same definitions.
    fn clone(&self) -> (reg: Self)
        ensures
            self.wf() ==> reg.wf() && reg.kinds() == self.kinds(),
    {
        let reg = KindRegistry { kinds: self.kinds.clone() };
        proof {
            if self.wf() {
                assert forall|i: int| 0 <= i < reg.kinds.values().len() implies {
                    &&& (#[trigger] reg.kinds.values()[i]).wf()
                    &&& reg.kinds.values()[i]@ == self.kinds.values()[i]@
                } by {
                    assert(cloned::<KindDefinition>(self.kinds.values()[i], reg.kinds.values()[i]));
                }
                assert(reg.kinds() =~= self.kinds());
            }
        }
        reg
    }
}

impl KindRegistry {
    /// The registered definitions, in the order of their registration.
    pub closed spec fn kinds(&self) -> Seq<KindView> {
        self.kinds.values().map_values(|d: KindDefinition| d@)
    }

    /// Is a kind of this name registered?
    pub open spec fn contains(&self, name: Seq<char>) -> bool {
        registered(self.kinds(), name)
    }

    /// The definition registered under `name`; meaningful where
    /// `contains(name)`.
    pub open spec fn kind_of(&self, name: Seq<char>) -> KindView {
        definition_of(self.kinds(), name)
    }

    /// Every definition is well formed and stored under its own name, and
    /// the definitions form a forest.
    pub closed spec fn wf(&self) -> bool {
        &&& self.kinds.wf()
        &&& forall|i: int|
            0 <= i < self.kinds.values().len() ==> {
                &&& (#[trigger] self.kinds.values()[i]).wf()
                &&& self.kinds.keys()[i] == self.kinds.values()[i]@.name
            }
        &&& catalog_inv(self.kinds())
    }

    /// In a well-formed catalog no name is registered twice and every parent
    /// precedes its children.
    pub proof fn law_catalog_is_forest(&self)
        requires
            self.wf(),
        ensures
            catalog_inv(self.kinds()),
    {
    }

    proof fn lemma_contains(&self, name: Seq<char>)
        requires
            self.wf(),
        ensures
            self.contains(name) == self.kinds.contains(name),
            self.kinds.contains(name) ==> self.kind_of(name) == self.kinds.value_of(name)@,
    {
        if self.kinds.contains(name) {
            let i = self.kinds.keys().index_of(name);
            assert(self.kinds()[i].name == name);
        }
    }

    /// The empty catalog.
    pub fn new() -> (reg: Self)
        ensures
            reg.wf(),
            reg.kinds() == Seq::<KindView>::empty(),
    {
        KindRegistry { kinds: FieldMap::new() }
    }

    /// Registers `def` under its name. The registration is refused with
    /// `UnknownParent`, carrying the parent's name, if `def` names a parent
    /// that is not registered; otherwise with `DuplicateKind`, carrying the
    /// kind's name, if that name is registered already. A refusal leaves the
    /// catalog as it was.
    pub fn register_kind(&mut self, def: KindDefinition) -> (r: Result<(), RegistryError>)
        requires
            old(self).wf(),
            def.wf(),
        ensures
            final(self).wf(),
            match r {
                Ok(()) => registration(old(self).kinds(), def@).is_ok() && final(self).kinds()
                    == old(self).kinds().push(def@),
                Err(e) => registration(old(self).kinds(), def@) == Err::<(), RegistryFault>(e@)
                    && final(self).kinds() == old(self).kinds(),
            },
    {
        match &def.parent {
            Some(p) => {
                proof {
                    self.lemma_contains(p@);
                }
                if !self.kinds.contains_key(p.as_str()) {
                    return Err(RegistryError::UnknownParent(p.clone()));
                }
            },
            None => {},
        }
        proof {
            self.lemma_contains(def.name@);
        }
        if self.kinds.contains_key(def.name.as_str()) {
            return Err(RegistryError::DuplicateKind(def.name.clone()));
        }
        let key = def.name.clone();
        self.kinds.insert(key, def);
        proof {
            assert(self.kinds() =~= old(self).kinds().push(def@));
            law_registration_keeps_forest(old(self).kinds(), def@);
        }
        Ok(())
    }

    /// The definition registered under `name`, if there is one.
    pub fn get(&self, name: &str) -> (r: Option<&KindDefinition>)
        requires
            self.wf(),
        ensures
            match r {
                Some(def) => self.contains(name@) && def@ == self.kind_of(name@) && def.wf(),
                None => !self.contains(name@),
            },
    {
        proof {
            self.lemma_contains(name@);
        }
        self.kinds.get(name)
    }
}

} // verus!
