//! What holds of the namespaces that a cluster-wide sealed Secret is for.

use crate::cluster::{self, NamespaceView};
use crate::types::{FuinClusterSealedSecretSpecView, FuinClusterSealedSecretView};
use vstd::prelude::*;

verus! {

/// The namespace has the label under `key` with the very value that is asked for.
pub open spec fn has_value(
    spec: FuinClusterSealedSecretSpecView,
    namespace: NamespaceView,
    key: Seq<char>,
) -> bool {
    namespace.labels.contains_key(key) && namespace.labels[key] == spec.namespace_selector[key]
}

/// A namespace that lacks a label of the selector, or has another value for it, is not
/// selected.
pub proof fn other_label_is_not_selected(
    spec: FuinClusterSealedSecretSpecView,
    namespace: NamespaceView,
    key: Seq<char>,
)
    requires
        spec.namespace_selector.contains_key(key),
        !has_value(spec, namespace, key),
    ensures
        !cluster::selected(spec, namespace),
{
}

/// A namespace that is not excluded and has every label of the selector, with its value, is
/// selected.
pub proof fn labelled_namespace_is_selected(
    spec: FuinClusterSealedSecretSpecView,
    namespace: NamespaceView,
)
    requires
        forall|key: Seq<char>| #[trigger]
            spec.namespace_selector.contains_key(key) ==> has_value(spec, namespace, key),
        forall|i: int|
            0 <= i < spec.exclude_namespaces.len() ==> #[trigger] spec.exclude_namespaces[i]
                != namespace.name,
    ensures
        cluster::selected(spec, namespace),
{
    assert forall|key: Seq<char>| #[trigger] spec.namespace_selector.contains_key(key) implies
        namespace.labels.contains_key(key) && namespace.labels[key]
        == spec.namespace_selector[key] by {
        assert(has_value(spec, namespace, key));
    }
}

/// A namespace whose name stands among the excluded ones is not selected.
pub proof fn excluded_namespace_is_not_selected(
    spec: FuinClusterSealedSecretSpecView,
    namespace: NamespaceView,
    i: int,
)
    requires
        0 <= i < spec.exclude_namespaces.len(),
        spec.exclude_namespaces[i] == namespace.name,
    ensures
        !cluster::selected(spec, namespace),
{
    assert(spec.exclude_namespaces.contains(namespace.name));
}

/// One namespace more in the list is one target more, behind the others, where it is selected,
/// and changes nothing where it is not.
pub proof fn targets_grow_with_the_list(
    spec: FuinClusterSealedSecretSpecView,
    namespaces: Seq<NamespaceView>,
    namespace: NamespaceView,
)
    ensures
        cluster::targets_of(spec, Seq::empty()).len() == 0,
        cluster::selected(spec, namespace) ==> cluster::targets_of(
            spec,
            namespaces.push(namespace),
        ) == cluster::targets_of(spec, namespaces).push(namespace.name),
        !cluster::selected(spec, namespace) ==> cluster::targets_of(
            spec,
            namespaces.push(namespace),
        ) == cluster::targets_of(spec, namespaces),
{
    reveal(Seq::filter);
    let longer = namespaces.push(namespace);
    assert(longer.drop_last() =~= namespaces);
    assert(longer.last() == namespace);
    if cluster::selected(spec, namespace) {
        assert(cluster::targets_of(spec, longer) =~= cluster::targets_of(spec, namespaces).push(
            namespace.name,
        ));
    }
}

/// Every Secret of a cluster-wide sealed Secret is in a listed namespace that has all the
/// labels asked for, with their values, and is not excluded.
pub proof fn secrets_are_in_labelled_namespaces_only(
    sealed: FuinClusterSealedSecretView,
    private_key: Seq<char>,
    namespaces: Seq<NamespaceView>,
    i: int,
) -> (place: int)
    requires
        cluster::desired_secrets_of(sealed, private_key, namespaces) is Ok,
        0 <= i < cluster::desired_secrets_of(sealed, private_key, namespaces)->Ok_0.len(),
    ensures
        0 <= place < namespaces.len(),
        cluster::desired_secrets_of(
            sealed,
            private_key,
            namespaces,
        )->Ok_0[i].metadata.namespace == Some(namespaces[place].name),
        forall|key: Seq<char>| #[trigger]
            sealed.spec.namespace_selector.contains_key(key) ==> has_value(
                sealed.spec,
                namespaces[place],
                key,
            ),
        forall|j: int|
            0 <= j < sealed.spec.exclude_namespaces.len()
                ==> #[trigger] sealed.spec.exclude_namespaces[j] != namespaces[place].name,
{
    let targets = cluster::targets_of(sealed.spec, namespaces);
    assert(targets.contains(targets[i]));
    cluster::targets_are_the_selected(sealed.spec, namespaces, targets[i]);
    let place = choose|k: int|
        0 <= k < namespaces.len() && cluster::selected(sealed.spec, #[trigger] namespaces[k])
            && namespaces[k].name == targets[i];
    assert forall|key: Seq<char>| #[trigger]
        sealed.spec.namespace_selector.contains_key(key) implies has_value(
        sealed.spec,
        namespaces[place],
        key,
    ) by {
        if !has_value(sealed.spec, namespaces[place], key) {
            other_label_is_not_selected(sealed.spec, namespaces[place], key);
        }
    }
    assert forall|j: int| 0 <= j < sealed.spec.exclude_namespaces.len() implies
        #[trigger] sealed.spec.exclude_namespaces[j] != namespaces[place].name by {
        if sealed.spec.exclude_namespaces[j] == namespaces[place].name {
            excluded_namespace_is_not_selected(sealed.spec, namespaces[place], j);
        }
    }
    place
}

/// Every listed namespace that has all the labels asked for, with their values, and is not
/// excluded has a Secret of the cluster-wide sealed Secret.
pub proof fn labelled_namespace_has_a_secret(
    sealed: FuinClusterSealedSecretView,
    private_key: Seq<char>,
    namespaces: Seq<NamespaceView>,
    place: int,
) -> (i: int)
    requires
        cluster::desired_secrets_of(sealed, private_key, namespaces) is Ok,
        0 <= place < namespaces.len(),
        forall|key: Seq<char>| #[trigger]
            sealed.spec.namespace_selector.contains_key(key) ==> has_value(
                sealed.spec,
                namespaces[place],
                key,
            ),
        forall|j: int|
            0 <= j < sealed.spec.exclude_namespaces.len()
                ==> #[trigger] sealed.spec.exclude_namespaces[j] != namespaces[place].name,
    ensures
        0 <= i < cluster::desired_secrets_of(sealed, private_key, namespaces)->Ok_0.len(),
        cluster::desired_secrets_of(
            sealed,
            private_key,
            namespaces,
        )->Ok_0[i].metadata.namespace == Some(namespaces[place].name),
{
    labelled_namespace_is_selected(sealed.spec, namespaces[place]);
    let targets = cluster::targets_of(sealed.spec, namespaces);
    cluster::targets_are_the_selected(sealed.spec, namespaces, namespaces[place].name);
    choose|i: int| 0 <= i < targets.len() && targets[i] == namespaces[place].name
}

} // verus!
