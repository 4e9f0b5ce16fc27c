//! Reading a Secret from the text of a YAML file.

use crate::resources::{self, ObjectMeta, ObjectMetaView, Secret, SecretView};
use crate::string_map::{self, from_pairs, StringMap};
use vstd::prelude::*;

verus! {

/// A Secret as the parser gives it, in plain values. Of the metadata it has what a Secret to
/// be sealed is read for; who owns it is not.
#[derive(Debug)]
pub struct ParsedSecret {
    pub name: Option<String>,
    pub generate_name: Option<String>,
    pub namespace: Option<String>,
    pub uid: Option<String>,
    pub generation: Option<i64>,
    pub labels: Option<Vec<(String, String)>>,
    pub annotations: Option<Vec<(String, String)>>,
    pub data: Option<Vec<(String, Vec<u8>)>>,
    pub string_data: Option<Vec<(String, String)>>,
    pub immutable: Option<bool>,
    pub type_: Option<String>,
}

/// What a [`ParsedSecret`] says.
#[verifier::ext_equal]
pub struct ParsedSecretView {
    pub name: Option<Seq<char>>,
    pub generate_name: Option<Seq<char>>,
    pub namespace: Option<Seq<char>>,
    pub uid: Option<Seq<char>>,
    pub generation: Option<i64>,
    pub labels: Option<Seq<(Seq<char>, Seq<char>)>>,
    pub annotations: Option<Seq<(Seq<char>, Seq<char>)>>,
    pub data: Option<Seq<(Seq<char>, Seq<u8>)>>,
    pub string_data: Option<Seq<(Seq<char>, Seq<char>)>>,
    pub immutable: Option<bool>,
    pub type_: Option<Seq<char>>,
}

/// An optional list by the views of its items.
pub open spec fn opt_list_view<T: View>(items: Option<Vec<T>>) -> Option<Seq<T::V>> {
    match items {
        Some(items) => Some(resources::list_view(items@)),
        None => None,
    }
}

impl View for ParsedSecret {
    type V = ParsedSecretView;

    open spec fn view(&self) -> ParsedSecretView {
        ParsedSecretView {
            name: resources::opt_view(self.name),
            generate_name: resources::opt_view(self.generate_name),
            namespace: resources::opt_view(self.namespace),
            uid: resources::opt_view(self.uid),
            generation: self.generation,
            labels: opt_list_view(self.labels),
            annotations: opt_list_view(self.annotations),
            data: opt_list_view(self.data),
            string_data: opt_list_view(self.string_data),
            immutable: self.immutable,
            type_: resources::opt_view(self.type_),
        }
    }
}

/// What `serde_yaml_ng` reads from a text as a Kubernetes Secret, or its words for why the
/// text is none.
pub uninterp spec fn yaml_secret(text: Seq<char>) -> Result<ParsedSecretView, Seq<char>>;

/// Parses a Secret with `serde_yaml_ng::from_str`, as `k8s_openapi` describes it, and takes it
/// apart field by field. Whether there is one, what it says and the words of the error depend
/// on the text alone.
#[verifier::external_body]
pub(crate) fn parse_secret(text: &str) -> (parsed: Result<ParsedSecret, String>)
    ensures
        match yaml_secret(text@) {
            Ok(view) => parsed matches Ok(p) && p@ == view,
            Err(reason) => parsed matches Err(e) && e@ == reason,
        },
{
    let read: k8s_openapi::api::core::v1::Secret =
        serde_yaml_ng::from_str(text).map_err(|error| error.to_string())?;
    Ok(ParsedSecret {
        name: read.metadata.name,
        generate_name: read.metadata.generate_name,
        namespace: read.metadata.namespace,
        uid: read.metadata.uid,
        generation: read.metadata.generation,
        labels: read.metadata.labels.map(Vec::from_iter),
        annotations: read.metadata.annotations.map(Vec::from_iter),
        data: read.data.map(|all| all.into_iter().map(|(key, value)| (key, value.0)).collect()),
        string_data: read.string_data.map(Vec::from_iter),
        immutable: read.immutable,
        type_: read.type_,
    })
}

/// The pairs as a map, where there are any.
pub open spec fn opt_collected<V>(pairs: Option<Seq<(Seq<char>, V)>>) -> Option<
    Map<Seq<char>, V>,
> {
    match pairs {
        Some(pairs) => Some(string_map::collected(pairs)),
        None => None,
    }
}

/// The Secret that was parsed.
pub open spec fn secret_of(parsed: ParsedSecretView) -> SecretView {
    SecretView {
        metadata: ObjectMetaView {
            name: parsed.name,
            generate_name: parsed.generate_name,
            namespace: parsed.namespace,
            uid: parsed.uid,
            generation: parsed.generation,
            labels: opt_collected(parsed.labels),
            annotations: opt_collected(parsed.annotations),
            owner_references: None,
        },
        data: opt_collected(parsed.data),
        string_data: opt_collected(parsed.string_data),
        immutable: parsed.immutable,
        type_: parsed.type_,
    }
}

/// Collects the pairs, where there are any.
fn collect<V: View>(pairs: Option<Vec<(String, V)>>) -> (map: Option<StringMap<V>>)
    ensures
        resources::opt_view(map) == opt_collected(opt_list_view(pairs)),
{
    match pairs {
        Some(pairs) => Some(from_pairs(pairs)),
        None => None,
    }
}

/// Puts the Secret that was parsed together.
pub fn to_secret(parsed: ParsedSecret) -> (secret: Secret)
    ensures
        secret@ == secret_of(parsed@),
{
    Secret {
        metadata: ObjectMeta {
            name: parsed.name,
            generate_name: parsed.generate_name,
            namespace: parsed.namespace,
            uid: parsed.uid,
            generation: parsed.generation,
            labels: collect(parsed.labels),
            annotations: collect(parsed.annotations),
            owner_references: None,
        },
        data: collect(parsed.data),
        string_data: collect(parsed.string_data),
        immutable: parsed.immutable,
        type_: parsed.type_,
    }
}

} // verus!
