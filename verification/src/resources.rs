//! The parts of Kubernetes objects that sealing and unsealing read and write.

use crate::string_map::StringMap;
use vstd::prelude::*;

verus! {

/// An optional value by its view.
pub open spec fn opt_view<T: View>(value: Option<T>) -> Option<T::V> {
    match value {
        Some(inner) => Some(inner@),
        None => None,
    }
}

/// A list by the views of its items.
pub open spec fn list_view<T: View>(items: Seq<T>) -> Seq<T::V> {
    Seq::new(items.len(), |i: int| items[i]@)
}

/// A reference from an object to the object that owns it.
#[derive(Clone, Debug)]
pub struct OwnerReference {
    pub api_version: String,
    pub kind: String,
    pub name: String,
    pub uid: String,
    pub controller: Option<bool>,
    pub block_owner_deletion: Option<bool>,
}

/// What an [`OwnerReference`] says.
#[verifier::ext_equal]
pub struct OwnerReferenceView {
    pub api_version: Seq<char>,
    pub kind: Seq<char>,
    pub name: Seq<char>,
    pub uid: Seq<char>,
    pub controller: Option<bool>,
    pub block_owner_deletion: Option<bool>,
}

impl View for OwnerReference {
    type V = OwnerReferenceView;

    open spec fn view(&self) -> OwnerReferenceView {
        OwnerReferenceView {
            api_version: self.api_version@,
            kind: self.kind@,
            name: self.name@,
            uid: self.uid@,
            controller: self.controller,
            block_owner_deletion: self.block_owner_deletion,
        }
    }
}

/// Object metadata.
#[derive(Clone, Debug)]
pub struct ObjectMeta {
    pub name: Option<String>,
    pub generate_name: Option<String>,
    pub namespace: Option<String>,
    pub uid: Option<String>,
    pub generation: Option<i64>,
    pub labels: Option<StringMap<String>>,
    pub annotations: Option<StringMap<String>>,
    pub owner_references: Option<Vec<OwnerReference>>,
}

/// What an [`ObjectMeta`] says.
#[verifier::ext_equal]
pub struct ObjectMetaView {
    pub name: Option<Seq<char>>,
    pub generate_name: Option<Seq<char>>,
    pub namespace: Option<Seq<char>>,
    pub uid: Option<Seq<char>>,
    pub generation: Option<i64>,
    pub labels: Option<Map<Seq<char>, Seq<char>>>,
    pub annotations: Option<Map<Seq<char>, Seq<char>>>,
    pub owner_references: Option<Seq<OwnerReferenceView>>,
}

impl View for ObjectMeta {
    type V = ObjectMetaView;

    open spec fn view(&self) -> ObjectMetaView {
        ObjectMetaView {
            name: opt_view(self.name),
            generate_name: opt_view(self.generate_name),
            namespace: opt_view(self.namespace),
            uid: opt_view(self.uid),
            generation: self.generation,
            labels: opt_view(self.labels),
            annotations: opt_view(self.annotations),
            owner_references: match self.owner_references {
                Some(references) => Some(list_view(references@)),
                None => None,
            },
        }
    }
}

impl ObjectMetaView {
    /// Metadata that say nothing.
    pub open spec fn empty() -> ObjectMetaView {
        ObjectMetaView {
            name: None,
            generate_name: None,
            namespace: None,
            uid: None,
            generation: None,
            labels: None,
            annotations: None,
            owner_references: None,
        }
    }

    /// The most useful name there is: the name, else the prefix to generate one from, else
    /// nothing.
    pub open spec fn name_any(self) -> Seq<char> {
        match self.name {
            Some(name) => name,
            None => match self.generate_name {
                Some(prefix) => prefix,
                None => Seq::empty(),
            },
        }
    }

    /// The reference by which an object of this crate's API with these metadata, of the
    /// given kind, is named as the controller of another. It takes a name and a uid.
    pub open spec fn controller_owner_ref(self, kind: Seq<char>) -> Option<OwnerReferenceView> {
        match (self.name, self.uid) {
            (Some(name), Some(uid)) => Some(
                OwnerReferenceView {
                    api_version: API_VERSION@,
                    kind,
                    name,
                    uid,
                    controller: Some(true),
                    block_owner_deletion: None,
                },
            ),
            _ => None,
        }
    }
}

/// The group and version of this crate's resources.
pub const API_VERSION: &'static str = "fuin.abr.sh/v1alpha1";

impl Default for ObjectMeta {
    fn default() -> (meta: ObjectMeta)
        ensures
            meta@ == ObjectMetaView::empty(),
    {
        ObjectMeta {
            name: None,
            generate_name: None,
            namespace: None,
            uid: None,
            generation: None,
            labels: None,
            annotations: None,
            owner_references: None,
        }
    }
}

impl ObjectMeta {
    /// The most useful name there is: the name, else the prefix to generate one from, else
    /// nothing.
    pub fn name_any(&self) -> (name: String)
        ensures
            name@ == self@.name_any(),
    {
        match &self.name {
            Some(name) => name.clone(),
            None => match &self.generate_name {
                Some(prefix) => prefix.clone(),
                None => String::new(),
            },
        }
    }

    /// The reference by which an object of this crate's API with these metadata, of the
    /// given kind, is named as the controller of another.
    pub fn controller_owner_ref(&self, kind: &str) -> (reference: Option<OwnerReference>)
        ensures
            opt_view(reference) == self@.controller_owner_ref(kind@),
    {
        match (&self.name, &self.uid) {
            (Some(name), Some(uid)) => Some(
                OwnerReference {
                    api_version: API_VERSION.to_owned(),
                    kind: kind.to_owned(),
                    name: name.clone(),
                    uid: uid.clone(),
                    controller: Some(true),
                    block_owner_deletion: None,
                },
            ),
            _ => None,
        }
    }
}

/// A Kubernetes Secret.
#[derive(Clone, Debug)]
pub struct Secret {
    pub metadata: ObjectMeta,
    pub data: Option<StringMap<Vec<u8>>>,
    pub string_data: Option<StringMap<String>>,
    pub immutable: Option<bool>,
    pub type_: Option<String>,
}

/// What a [`Secret`] says.
#[verifier::ext_equal]
pub struct SecretView {
    pub metadata: ObjectMetaView,
    pub data: Option<Map<Seq<char>, Seq<u8>>>,
    pub string_data: Option<Map<Seq<char>, Seq<char>>>,
    pub immutable: Option<bool>,
    pub type_: Option<Seq<char>>,
}

impl View for Secret {
    type V = SecretView;

    open spec fn view(&self) -> SecretView {
        SecretView {
            metadata: self.metadata@,
            data: opt_view(self.data),
            string_data: opt_view(self.string_data),
            immutable: self.immutable,
            type_: opt_view(self.type_),
        }
    }
}

/// Copies the data of a Secret.
pub fn copy_data(data: &StringMap<Vec<u8>>) -> (copy: StringMap<Vec<u8>>)
    ensures
        copy@ == data@,
{
    let copy = data.clone();
    proof {
        assert forall|key: Seq<char>| #[trigger] copy@.contains_key(key) implies copy@[key]
            == data@[key] by {
            let (v, w) = choose|v: Vec<u8>, w: Vec<u8>| #[trigger]
                cloned::<Vec<u8>>(v, w) && v@ == data@[key] && w@ == copy@[key];
            assert(v@ =~= w@);
        }
        assert(copy@ =~= data@);
    }
    copy
}

/// Why the Kubernetes API did not do what was asked: the status code of its answer, where
/// it gave one, and the error in words.
#[derive(Clone, Debug)]
pub struct ApiError {
    pub code: Option<u16>,
    pub message: String,
}

} // verus!
