//! Resource attributes: the identity of the service that emits telemetry.

use vstd::prelude::*;
use opentelemetry_sdk::Resource;
use crate::sdk::{build_resource, resource_attributes, resource_get};

verus! {

/// One resource attribute: a dotted key and its value.
#[derive(Clone, Debug)]
pub struct Attribute {
    /// The key, for example `service.name`.
    pub key: String,
    /// The value.
    pub value: String,
}

impl Attribute {
    /// An attribute with the given key and value.
    pub fn new(key: &str, value: &str) -> (a: Attribute)
        ensures
            a.key@ == key@,
            a.value@ == value@,
    {
        Attribute { key: key.to_owned(), value: value.to_owned() }
    }

    /// A copy of this attribute.
    pub fn duplicate(&self) -> (a: Attribute)
        ensures
            a.key@ == self.key@,
            a.value@ == self.value@,
    {
        Attribute { key: self.key.clone(), value: self.value.clone() }
    }
}

/// The key under which the name of the service is kept.
pub open spec fn service_name_key() -> Seq<char> {
    "service.name"@
}

/// The key under which the version of the service is kept.
pub open spec fn service_version_key() -> Seq<char> {
    "service.version"@
}

/// The key under which the deployment environment is kept.
pub open spec fn service_environment_key() -> Seq<char> {
    "service.environment"@
}

/// The mapping that a list of attributes stands for. Where a key occurs more
/// than once, the last occurrence gives the value.
pub open spec fn attribute_map(attrs: Seq<Attribute>) -> Map<Seq<char>, Seq<char>>
    decreases attrs.len(),
{
    if attrs.len() == 0 {
        Map::empty()
    } else {
        attribute_map(attrs.drop_last()).insert(attrs.last().key@, attrs.last().value@)
    }
}

/// No key occurs twice in the list.
pub open spec fn distinct_keys(attrs: Seq<Attribute>) -> bool {
    forall|i: int, j: int| 0 <= i < j < attrs.len() ==> attrs[i].key@ != attrs[j].key@
}

/// A key that no attribute of the list carries is not in the mapping.
pub proof fn lemma_absent_key(attrs: Seq<Attribute>, key: Seq<char>)
    requires
        forall|j: int| 0 <= j < attrs.len() ==> attrs[j].key@ != key,
    ensures
        !attribute_map(attrs).contains_key(key),
    decreases attrs.len(),
{
    if attrs.len() > 0 {
        let front = attrs.drop_last();
        assert forall|j: int| 0 <= j < front.len() implies front[j].key@ != key by {
            assert(front[j] == attrs[j]);
        }
        lemma_absent_key(front, key);
    }
}

/// The last attribute that carries a key gives the value of that key.
pub proof fn lemma_last_occurrence(attrs: Seq<Attribute>, i: int)
    requires
        0 <= i < attrs.len(),
        forall|j: int| i < j < attrs.len() ==> attrs[j].key@ != attrs[i].key@,
    ensures
        attribute_map(attrs).contains_key(attrs[i].key@),
        attribute_map(attrs)[attrs[i].key@] == attrs[i].value@,
    decreases attrs.len(),
{
    if i < attrs.len() - 1 {
        let front = attrs.drop_last();
        assert(front[i] == attrs[i]);
        assert forall|j: int| i < j < front.len() implies front[j].key@ != front[i].key@ by {
            assert(front[j] == attrs[j]);
        }
        lemma_last_occurrence(front, i);
    }
}

/// Every attribute of a list without repeated keys is read back unchanged
/// from the mapping of the list.
pub proof fn lemma_read_back(attrs: Seq<Attribute>, i: int)
    requires
        distinct_keys(attrs),
        0 <= i < attrs.len(),
    ensures
        attribute_map(attrs).contains_key(attrs[i].key@),
        attribute_map(attrs)[attrs[i].key@] == attrs[i].value@,
{
    lemma_last_occurrence(attrs, i);
}

/// The keys of the mapping are exactly the keys that occur in the list.
pub proof fn lemma_key_occurs(attrs: Seq<Attribute>, key: Seq<char>)
    ensures
        attribute_map(attrs).contains_key(key) <==> exists|j: int|
            0 <= j < attrs.len() && (#[trigger] attrs[j]).key@ == key,
    decreases attrs.len(),
{
    if attrs.len() > 0 {
        let front = attrs.drop_last();
        lemma_key_occurs(front, key);
        if attribute_map(attrs).contains_key(key) {
            if attrs.last().key@ == key {
                assert(attrs[attrs.len() - 1].key@ == key);
            } else {
                let j = choose|j: int| 0 <= j < front.len() && (#[trigger] front[j]).key@ == key;
                assert(attrs[j] == front[j]);
            }
        }
        if exists|j: int| 0 <= j < attrs.len() && (#[trigger] attrs[j]).key@ == key {
            let j = choose|j: int| 0 <= j < attrs.len() && (#[trigger] attrs[j]).key@ == key;
            if j < front.len() {
                assert(front[j] == attrs[j]);
            }
        }
    }
}

/// The immutable set of attributes that identifies the service. It is built
/// once and only read afterwards; every pipeline gets the same attributes.
#[derive(Clone, Debug)]
pub struct ResourceDescriptor {
    attributes: Vec<Attribute>,
}

impl View for ResourceDescriptor {
    type V = Map<Seq<char>, Seq<char>>;

    closed spec fn view(&self) -> Map<Seq<char>, Seq<char>> {
        attribute_map(self.attributes@)
    }
}

impl ResourceDescriptor {
    /// The attributes in the order in which they were given.
    pub closed spec fn spec_entries(&self) -> Seq<Attribute> {
        self.attributes@
    }

    /// The descriptor stands for the mapping of its entries.
    pub proof fn lemma_view_of_entries(&self)
        ensures
            self@ == attribute_map(self.spec_entries()),
    {
    }

    /// Builds the descriptor of a list of attributes. A key given twice keeps
    /// its last value.
    pub fn from_attributes(attributes: Vec<Attribute>) -> (d: ResourceDescriptor)
        ensures
            d.spec_entries() == attributes@,
            d@ == attribute_map(attributes@),
    {
        ResourceDescriptor { attributes }
    }

    /// The attributes in the order in which they were given.
    pub fn entries(&self) -> (entries: &Vec<Attribute>)
        ensures
            entries@ == self.spec_entries(),
    {
        &self.attributes
    }

    /// Reads the value of a key: `Some` with the value where the descriptor
    /// has the key, `None` where it has not.
    pub fn get(&self, key: &str) -> (value: Option<&String>)
        ensures
            match value {
                Some(v) => self@.contains_key(key@) && self@[key@] == v@,
                None => !self@.contains_key(key@),
            },
    {
        let wanted = key.to_owned();
        let mut i: usize = self.attributes.len();
        while i > 0
            invariant
                i <= self.attributes.len(),
                wanted@ == key@,
                forall|j: int| i <= j < self.attributes.len() ==> self.attributes@[j].key@ != key@,
            decreases i,
        {
            i = i - 1;
            if self.attributes[i].key == wanted {
                proof {
                    lemma_last_occurrence(self.attributes@, i as int);
                }
                return Some(&self.attributes[i].value);
            }
        }
        proof {
            lemma_absent_key(self.attributes@, key@);
        }
        None
    }

    /// Whether the descriptor has the key.
    pub fn contains_key(&self, key: &str) -> (present: bool)
        ensures
            present == self@.contains_key(key@),
    {
        self.get(key).is_some()
    }

    /// The value of `service.name`, if it is set.
    pub fn service_name(&self) -> (value: Option<&String>)
        ensures
            match value {
                Some(v) => self@.contains_key(service_name_key()) && self@[service_name_key()]
                    == v@,
                None => !self@.contains_key(service_name_key()),
            },
    {
        self.get("service.name")
    }

    /// The value of `service.version`, if it is set.
    pub fn service_version(&self) -> (value: Option<&String>)
        ensures
            match value {
                Some(v) => self@.contains_key(service_version_key()) && self@[service_version_key()]
                    == v@,
                None => !self@.contains_key(service_version_key()),
            },
    {
        self.get("service.version")
    }

    /// The value of `service.environment`, if it is set.
    pub fn service_environment(&self) -> (value: Option<&String>)
        ensures
            match value {
                Some(v) => self@.contains_key(service_environment_key())
                    && self@[service_environment_key()] == v@,
                None => !self@.contains_key(service_environment_key()),
            },
    {
        self.get("service.environment")
    }

    /// The resource that the SDK attaches to what it exports. It holds
    /// every attribute of the descriptor with its value, beside what the
    /// SDK detects by itself.
    pub fn to_resource(&self) -> (resource: Resource)
        ensures
            forall|key: Seq<char>| #[trigger]
                self@.contains_key(key) ==> resource_attributes(resource).contains_key(key)
                    && resource_attributes(resource)[key] == self@[key],
    {
        build_resource(&self.attributes)
    }

    /// The value that is exported for a key. For a key of the descriptor
    /// it is the value of the descriptor; for another key it is what the
    /// SDK detected, if anything.
    pub fn exported_value(&self, key: &str) -> (value: Option<String>)
        ensures
            self@.contains_key(key@) ==> (value matches Some(v) && v@ == self@[key@]),
    {
        let resource = self.to_resource();
        resource_get(&resource, key)
    }

    /// A copy of the descriptor with the same entries.
    pub fn duplicate(&self) -> (d: ResourceDescriptor)
        ensures
            d@ == self@,
            d.spec_entries().len() == self.spec_entries().len(),
            forall|i: int|
                0 <= i < self.spec_entries().len() ==> d.spec_entries()[i].key@
                    == self.spec_entries()[i].key@ && d.spec_entries()[i].value@
                    == self.spec_entries()[i].value@,
    {
        let mut copy: Vec<Attribute> = Vec::new();
        let mut i: usize = 0;
        while i < self.attributes.len()
            invariant
                i <= self.attributes.len(),
                copy.len() == i,
                forall|j: int|
                    0 <= j < i ==> copy@[j].key@ == self.attributes@[j].key@ && copy@[j].value@
                        == self.attributes@[j].value@,
            decreases self.attributes.len() - i,
        {
            copy.push(self.attributes[i].duplicate());
            i = i + 1;
        }
        proof {
            lemma_same_entries_same_map(copy@, self.attributes@);
        }
        ResourceDescriptor { attributes: copy }
    }
}

/// Two lists that agree entry by entry on keys and values stand for the same
/// mapping.
pub proof fn lemma_same_entries_same_map(a: Seq<Attribute>, b: Seq<Attribute>)
    requires
        a.len() == b.len(),
        forall|j: int| 0 <= j < a.len() ==> a[j].key@ == b[j].key@ && a[j].value@ == b[j].value@,
    ensures
        attribute_map(a) == attribute_map(b),
    decreases a.len(),
{
    if a.len() > 0 {
        let fa = a.drop_last();
        let fb = b.drop_last();
        assert forall|j: int| 0 <= j < fa.len() implies fa[j].key@ == fb[j].key@ && fa[j].value@
            == fb[j].value@ by {
            assert(fa[j] == a[j]);
            assert(fb[j] == b[j]);
        }
        lemma_same_entries_same_map(fa, fb);
        assert(a.last().key@ == b.last().key@);
        assert(a.last().value@ == b.last().value@);
    }
}

} // verus!
