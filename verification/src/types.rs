//! The resources of the `fuin.abr.sh` API group.

use crate::resources::{ObjectMeta, ObjectMetaView};
use crate::resources;
use crate::string_map::StringMap;
use vstd::prelude::*;

verus! {

/// Namespace-scoped private key material used by the controller.
#[derive(Clone, Debug)]
pub struct FuinPrivateKeySpec {
    pub private_key: String,
}

#[derive(Clone, Debug, Default)]
pub struct FuinPrivateKeyStatus {
    pub phase: Option<KeyPhase>,
    pub message: Option<String>,
    pub observed_generation: Option<i64>,
}

/// Cluster-scoped public key used by clients to encrypt values.
#[derive(Clone, Debug)]
pub struct FuinPublicKeySpec {
    pub public_key: String,
}

#[derive(Clone, Debug, Default)]
pub struct FuinPublicKeyStatus {
    pub phase: Option<KeyPhase>,
    pub message: Option<String>,
    pub observed_generation: Option<i64>,
}

#[derive(Clone, Copy, Debug, PartialEq, Eq, Structural)]
pub enum KeyPhase {
    Pending,
    Applied,
    Failed,
}

#[derive(Clone, Copy, Debug, PartialEq, Eq, Structural)]
pub enum SecretPhase {
    Pending,
    Applied,
    Failed,
}

#[derive(Clone, Copy, Debug, PartialEq, Eq, Structural)]
pub enum ConditionStatus {
    True,
    False,
    Unknown,
}

#[derive(Clone, Debug)]
pub struct FuinCondition {
    pub type_: String,
    pub status: ConditionStatus,
    pub observed_generation: Option<i64>,
    pub last_transition_time: String,
    pub reason: String,
    pub message: Option<String>,
}

/// A value inside a template's metadata, such as one label. Only text is read.
#[derive(Clone, Debug)]
pub enum FieldValue {
    Text(String),
    Other,
}

/// What a [`FieldValue`] says.
pub enum FieldValueView {
    Text(Seq<char>),
    Other,
}

impl View for FieldValue {
    type V = FieldValueView;

    open spec fn view(&self) -> FieldValueView {
        match self {
            FieldValue::Text(text) => FieldValueView::Text(text@),
            FieldValue::Other => FieldValueView::Other,
        }
    }
}

/// An entry of a template's metadata: a text, such as the name, or a table, such as the
/// labels. Nothing else is read.
#[derive(Clone, Debug)]
pub enum MetadataValue {
    Text(String),
    Table(StringMap<FieldValue>),
    Other,
}

/// What a [`MetadataValue`] says.
pub enum MetadataValueView {
    Text(Seq<char>),
    Table(Map<Seq<char>, FieldValueView>),
    Other,
}

impl View for MetadataValue {
    type V = MetadataValueView;

    open spec fn view(&self) -> MetadataValueView {
        match self {
            MetadataValue::Text(text) => MetadataValueView::Text(text@),
            MetadataValue::Table(table) => MetadataValueView::Table(table@),
            MetadataValue::Other => MetadataValueView::Other,
        }
    }
}

/// What the unsealed Secret is to look like beside its data.
#[derive(Clone, Debug)]
pub struct SecretTemplate {
    pub metadata: Option<StringMap<MetadataValue>>,
    pub type_: Option<String>,
    pub immutable: Option<bool>,
}

/// What a [`SecretTemplate`] says.
#[verifier::ext_equal]
pub struct SecretTemplateView {
    pub metadata: Option<Map<Seq<char>, MetadataValueView>>,
    pub type_: Option<Seq<char>>,
    pub immutable: Option<bool>,
}

impl View for SecretTemplate {
    type V = SecretTemplateView;

    open spec fn view(&self) -> SecretTemplateView {
        SecretTemplateView {
            metadata: resources::opt_view(self.metadata),
            type_: resources::opt_view(self.type_),
            immutable: self.immutable,
        }
    }
}

/// Namespace-scoped encrypted values that reconcile into a Kubernetes Secret.
#[derive(Clone, Debug)]
pub struct FuinSealedSecretSpec {
    pub encrypted_data: StringMap<String>,
    pub template: Option<SecretTemplate>,
}

/// What a [`FuinSealedSecretSpec`] says.
#[verifier::ext_equal]
pub struct FuinSealedSecretSpecView {
    pub encrypted_data: Map<Seq<char>, Seq<char>>,
    pub template: Option<SecretTemplateView>,
}

impl View for FuinSealedSecretSpec {
    type V = FuinSealedSecretSpecView;

    open spec fn view(&self) -> FuinSealedSecretSpecView {
        FuinSealedSecretSpecView {
            encrypted_data: self.encrypted_data@,
            template: resources::opt_view(self.template),
        }
    }
}

#[derive(Clone, Debug, Default)]
pub struct FuinSealedSecretStatus {
    pub phase: Option<SecretPhase>,
    pub message: Option<String>,
    pub data_count: Option<i32>,
    pub observed_generation: Option<i64>,
    pub conditions: Vec<FuinCondition>,
}

/// What a [`FuinSealedSecretStatus`] says.
#[verifier::ext_equal]
pub struct FuinSealedSecretStatusView {
    pub phase: Option<SecretPhase>,
    pub message: Option<Seq<char>>,
    pub data_count: Option<i32>,
    pub observed_generation: Option<i64>,
    pub conditions: Seq<FuinCondition>,
}

impl View for FuinSealedSecretStatus {
    type V = FuinSealedSecretStatusView;

    open spec fn view(&self) -> FuinSealedSecretStatusView {
        FuinSealedSecretStatusView {
            phase: self.phase,
            message: resources::opt_view(self.message),
            data_count: self.data_count,
            observed_generation: self.observed_generation,
            conditions: self.conditions@,
        }
    }
}

/// A namespaced sealed Secret.
#[derive(Clone, Debug)]
pub struct FuinSealedSecret {
    pub metadata: ObjectMeta,
    pub spec: FuinSealedSecretSpec,
    pub status: Option<FuinSealedSecretStatus>,
}

/// What a [`FuinSealedSecret`] says.
#[verifier::ext_equal]
pub struct FuinSealedSecretView {
    pub metadata: ObjectMetaView,
    pub spec: FuinSealedSecretSpecView,
    pub status: Option<FuinSealedSecretStatusView>,
}

impl View for FuinSealedSecret {
    type V = FuinSealedSecretView;

    open spec fn view(&self) -> FuinSealedSecretView {
        FuinSealedSecretView {
            metadata: self.metadata@,
            spec: self.spec@,
            status: resources::opt_view(self.status),
        }
    }
}

impl FuinSealedSecret {
    /// A sealed Secret that was not applied yet: it has a name and a spec.
    pub fn new(name: &str, spec: FuinSealedSecretSpec) -> (sealed: FuinSealedSecret)
        ensures
            sealed@ == (FuinSealedSecretView {
                metadata: ObjectMetaView { name: Some(name@), ..ObjectMetaView::empty() },
                spec: spec@,
                status: None,
            }),
    {
        FuinSealedSecret {
            metadata: ObjectMeta { name: Some(name.to_owned()), ..ObjectMeta::default() },
            spec,
            status: None,
        }
    }
}

/// Which namespaces a cluster-wide sealed Secret is for: those with all of these labels.
#[derive(Clone, Debug)]
pub struct NamespaceSelector {
    pub match_labels: StringMap<String>,
}

impl View for NamespaceSelector {
    type V = Map<Seq<char>, Seq<char>>;

    open spec fn view(&self) -> Map<Seq<char>, Seq<char>> {
        self.match_labels@
    }
}

impl Default for NamespaceSelector {
    fn default() -> (selector: NamespaceSelector)
        ensures
            selector@ == Map::<Seq<char>, Seq<char>>::empty(),
    {
        NamespaceSelector { match_labels: StringMap::new() }
    }
}

/// Cluster-scoped encrypted values propagated into selected namespaces.
#[derive(Clone, Debug)]
pub struct FuinClusterSealedSecretSpec {
    pub encrypted_data: StringMap<String>,
    pub namespace_selector: NamespaceSelector,
    pub exclude_namespaces: Vec<String>,
    pub template: Option<SecretTemplate>,
}

/// What a [`FuinClusterSealedSecretSpec`] says.
#[verifier::ext_equal]
pub struct FuinClusterSealedSecretSpecView {
    pub encrypted_data: Map<Seq<char>, Seq<char>>,
    pub namespace_selector: Map<Seq<char>, Seq<char>>,
    pub exclude_namespaces: Seq<Seq<char>>,
    pub template: Option<SecretTemplateView>,
}

impl View for FuinClusterSealedSecretSpec {
    type V = FuinClusterSealedSecretSpecView;

    open spec fn view(&self) -> FuinClusterSealedSecretSpecView {
        FuinClusterSealedSecretSpecView {
            encrypted_data: self.encrypted_data@,
            namespace_selector: self.namespace_selector@,
            exclude_namespaces: resources::list_view(self.exclude_namespaces@),
            template: resources::opt_view(self.template),
        }
    }
}

#[derive(Clone, Debug, Default)]
pub struct FuinClusterSealedSecretStatus {
    pub phase: Option<SecretPhase>,
    pub message: Option<String>,
    pub namespace_count: Option<i32>,
    pub observed_generation: Option<i64>,
    pub conditions: Vec<FuinCondition>,
}

/// What a [`FuinClusterSealedSecretStatus`] says.
#[verifier::ext_equal]
pub struct FuinClusterSealedSecretStatusView {
    pub phase: Option<SecretPhase>,
    pub message: Option<Seq<char>>,
    pub namespace_count: Option<i32>,
    pub observed_generation: Option<i64>,
    pub conditions: Seq<FuinCondition>,
}

impl View for FuinClusterSealedSecretStatus {
    type V = FuinClusterSealedSecretStatusView;

    open spec fn view(&self) -> FuinClusterSealedSecretStatusView {
        FuinClusterSealedSecretStatusView {
            phase: self.phase,
            message: resources::opt_view(self.message),
            namespace_count: self.namespace_count,
            observed_generation: self.observed_generation,
            conditions: self.conditions@,
        }
    }
}

/// A cluster-wide sealed Secret.
#[derive(Clone, Debug)]
pub struct FuinClusterSealedSecret {
    pub metadata: ObjectMeta,
    pub spec: FuinClusterSealedSecretSpec,
    pub status: Option<FuinClusterSealedSecretStatus>,
}

/// What a [`FuinClusterSealedSecret`] says.
#[verifier::ext_equal]
pub struct FuinClusterSealedSecretView {
    pub metadata: ObjectMetaView,
    pub spec: FuinClusterSealedSecretSpecView,
    pub status: Option<FuinClusterSealedSecretStatusView>,
}

impl View for FuinClusterSealedSecret {
    type V = FuinClusterSealedSecretView;

    open spec fn view(&self) -> FuinClusterSealedSecretView {
        FuinClusterSealedSecretView {
            metadata: self.metadata@,
            spec: self.spec@,
            status: resources::opt_view(self.status),
        }
    }
}

impl FuinClusterSealedSecret {
    /// A cluster-wide sealed Secret that was not applied yet: it has a name and a spec.
    pub fn new(name: &str, spec: FuinClusterSealedSecretSpec) -> (sealed: FuinClusterSealedSecret)
        ensures
            sealed@ == (FuinClusterSealedSecretView {
                metadata: ObjectMetaView { name: Some(name@), ..ObjectMetaView::empty() },
                spec: spec@,
                status: None,
            }),
    {
        FuinClusterSealedSecret {
            metadata: ObjectMeta { name: Some(name.to_owned()), ..ObjectMeta::default() },
            spec,
            status: None,
        }
    }
}

/// How an event is meant.
#[derive(Clone, Copy, Debug, PartialEq, Eq, Structural)]
pub enum EventKind {
    Normal,
    Warning,
}

/// A Kubernetes Event to record on a resource.
#[derive(Clone, Debug)]
pub struct EventRecord {
    pub kind: EventKind,
    pub reason: String,
    pub note: Option<String>,
    pub action: String,
}

/// What an [`EventRecord`] says.
#[verifier::ext_equal]
pub struct EventRecordView {
    pub kind: EventKind,
    pub reason: Seq<char>,
    pub note: Option<Seq<char>>,
    pub action: Seq<char>,
}

impl View for EventRecord {
    type V = EventRecordView;

    open spec fn view(&self) -> EventRecordView {
        EventRecordView {
            kind: self.kind,
            reason: self.reason@,
            note: resources::opt_view(self.note),
            action: self.action@,
        }
    }
}

} // verus!
