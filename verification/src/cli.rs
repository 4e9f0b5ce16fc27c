//! What the command line tool decides: how a Secret is sealed and where the result goes.
//!
//! Each decision names the next thing to do. The caller does it and hands the outcome to the
//! next decision, until there is nothing left to do.

use crate::age_keys;
use crate::encryption::{self, Failure};
use crate::resources::{self, ApiError, Secret, SecretView};
use crate::sealing;
use crate::secret_file;
use crate::string_map::StringMap;
use crate::types::{EventKind, EventRecord, EventRecordView};
use crate::types::{FuinClusterSealedSecret, FuinClusterSealedSecretSpec, FuinPublicKeySpec};
use crate::types::{FuinSealedSecret, FuinSealedSecretSpec, NamespaceSelector};
use vstd::prelude::*;
use vstd::string::*;

verus! {

/// The name under which the tool applies objects and records events.
pub const CLI_FIELD_MANAGER: &'static str = "fuin-cli";

/// Errors of the command line tool.
#[derive(Debug)]
pub enum Error {
    Kubernetes(ApiError),
    Encryption(encryption::Error),
    Input(String),
    EmptySecret(String),
}

/// What an [`Error`] says.
pub enum ErrorView {
    Kubernetes(ApiError),
    Encryption(Failure),
    Input(Seq<char>),
    EmptySecret(Seq<char>),
}

impl View for Error {
    type V = ErrorView;

    open spec fn view(&self) -> ErrorView {
        match self {
            Error::Kubernetes(error) => ErrorView::Kubernetes(*error),
            Error::Encryption(error) => ErrorView::Encryption(error@),
            Error::Input(text) => ErrorView::Input(text@),
            Error::EmptySecret(name) => ErrorView::EmptySecret(name@),
        }
    }
}

impl Error {
    /// `text` says in words what went wrong.
    pub open spec fn describes(self, text: Seq<char>) -> bool {
        match self {
            Error::Kubernetes(error) => text == "Kubernetes API error: "@ + error.message@,
            Error::Encryption(error) => exists|words: Seq<char>| #[trigger]
                error.describes(words) && text == "encryption error: "@ + words,
            Error::Input(words) => text == "input error: "@ + words@,
            Error::EmptySecret(name) => text == "the Kubernetes Secret `"@ + name@
                + "` has no data entries"@,
        }
    }

    /// The error in words.
    pub fn message(&self) -> (text: String)
        ensures
            self.describes(text@),
    {
        match self {
            Error::Kubernetes(error) => "Kubernetes API error: ".to_owned().concat(
                error.message.as_str(),
            ),
            Error::Encryption(error) => {
                let words = error.message();
                "encryption error: ".to_owned().concat(words.as_str())
            },
            Error::Input(words) => "input error: ".to_owned().concat(words.as_str()),
            Error::EmptySecret(name) => "the Kubernetes Secret `".to_owned().concat(
                name.as_str(),
            ).concat("` has no data entries"),
        }
    }
}

/// What `fuin seal` was asked for.
#[derive(Debug)]
pub struct SealArgs {
    /// The namespace of the source Secret.
    pub namespace: Option<String>,
    /// The name of the source Secret in the cluster.
    pub secret: Option<String>,
    /// The path of a Secret YAML file.
    pub from_file: Option<String>,
    /// The name of the public key to encrypt to.
    pub public_key: String,
    /// The path to write the sealed resource to.
    pub output: Option<String>,
    /// Whether to apply the sealed resource to the cluster.
    pub apply: bool,
    /// Whether to seal for the whole cluster.
    pub cluster_wide: bool,
    /// The labels, as `key=value`, of the namespaces that a cluster-wide Secret is for.
    pub namespace_labels: Vec<String>,
    /// The namespaces that a cluster-wide Secret is not for.
    pub exclude_namespaces: Vec<String>,
}

/// The sealed resource.
#[derive(Debug)]
pub enum Sealed {
    Namespaced(FuinSealedSecret),
    ClusterWide(FuinClusterSealedSecret),
}

/// Something to write to the terminal, line ends and all.
#[derive(Debug)]
pub enum Output {
    Stdout(String),
    Stderr(String),
}

/// The next thing to do in sealing a Secret.
#[derive(Debug)]
pub enum SealStep {
    /// Get the source Secret from the cluster.
    FetchSecret { namespace: String, name: String },
    /// Read the source Secret from a file.
    LoadFile { path: String },
    /// Get the public key to encrypt to.
    FetchPublicKey { name: String, namespace: String, source: Secret },
    /// Write the sealed resource as YAML text.
    Render { namespace: String, sealed: Sealed },
    /// Write the YAML text to a file.
    WriteFile { path: String, contents: String, namespace: String, sealed: Sealed },
    /// Apply the sealed resource, taking over its fields.
    Apply { namespace: String, sealed: Sealed },
    /// Record the event on the sealed resource.
    Record { event: EventRecord, namespace: String, sealed: Sealed },
    /// Write to the terminal and be done.
    Finish(Output),
}

/// Why a file gave no Secret.
#[derive(Debug)]
pub enum FileError {
    Read(String),
    Parse(String),
}

/// The namespace to work in where none is given.
pub const DEFAULT_NAMESPACE: &'static str = "default";

/// The text, or the fallback where there is none.
pub open spec fn text_or(text: Option<Seq<char>>, fallback: Seq<char>) -> Seq<char> {
    match text {
        Some(text) => text,
        None => fallback,
    }
}

/// How sealing begins: with the Secret in the cluster or the one in the file, of which exactly
/// one must be given.
pub open spec fn sealing_begins(args: SealArgs, outcome: Result<SealStep, Error>) -> bool {
    match (args.secret, args.from_file) {
        (Some(secret), None) => outcome matches Ok(step) && step matches SealStep::FetchSecret {
            namespace,
            name,
        } && {
            &&& namespace@ == text_or(resources::opt_view(args.namespace), DEFAULT_NAMESPACE@)
            &&& name@ == secret@
        },
        (None, Some(file)) => outcome matches Ok(step) && step matches SealStep::LoadFile { path }
            && path@ == file@,
        _ => outcome matches Err(e) && e@ == ErrorView::Input(
            "provide either a Secret name or --from-file"@,
        ),
    }
}

/// Begins to seal a Secret.
pub fn seal(args: &SealArgs) -> (outcome: Result<SealStep, Error>)
    ensures
        sealing_begins(*args, outcome),
{
    match (&args.secret, &args.from_file) {
        (Some(secret), None) => {
            let namespace = match &args.namespace {
                Some(namespace) => namespace.clone(),
                None => DEFAULT_NAMESPACE.to_owned(),
            };
            Ok(SealStep::FetchSecret { namespace, name: secret.clone() })
        },
        (None, Some(path)) => Ok(SealStep::LoadFile { path: path.clone() }),
        _ => Err(Error::Input("provide either a Secret name or --from-file".to_owned())),
    }
}

/// `step` asks for the public key with which `source` is to be sealed for `namespace`.
pub open spec fn asks_for_key(
    args: SealArgs,
    namespace: Seq<char>,
    source: Secret,
    step: SealStep,
) -> bool {
    step matches SealStep::FetchPublicKey { name, namespace: n, source: s } && {
        &&& name@ == args.public_key@
        &&& n@ == namespace
        &&& s == source
    }
}

/// What follows when the source Secret was asked of the cluster: with it, the public key.
pub open spec fn goes_on_fetched(
    args: SealArgs,
    namespace: Seq<char>,
    reply: Result<Secret, ApiError>,
    outcome: Result<SealStep, Error>,
) -> bool {
    match reply {
        Ok(source) => outcome matches Ok(step) && asks_for_key(args, namespace, source, step),
        Err(error) => outcome == Err::<SealStep, Error>(Error::Kubernetes(error)),
    }
}

/// Goes on after the source Secret was asked of the cluster.
pub fn secret_fetched(
    args: &SealArgs,
    namespace: String,
    reply: Result<Secret, ApiError>,
) -> (outcome: Result<SealStep, Error>)
    ensures
        goes_on_fetched(*args, namespace@, reply, outcome),
{
    match reply {
        Ok(source) => Ok(
            SealStep::FetchPublicKey { name: args.public_key.clone(), namespace, source },
        ),
        Err(error) => Err(Error::Kubernetes(error)),
    }
}

/// The namespace of a Secret from a file: the one asked for, else the Secret's own, else the
/// default.
pub open spec fn namespace_of_file(args: SealArgs, source: SecretView) -> Seq<char> {
    match args.namespace {
        Some(namespace) => namespace@,
        None => text_or(source.metadata.namespace, DEFAULT_NAMESPACE@),
    }
}

/// What follows on the Secret that a file gave, or on why it gave none.
pub open spec fn goes_on_loaded(
    args: SealArgs,
    path: Seq<char>,
    reply: Result<Secret, FileError>,
    outcome: Result<SealStep, Error>,
) -> bool {
    match reply {
        Ok(source) => outcome matches Ok(step) && asks_for_key(
            args,
            namespace_of_file(args, source@),
            source,
            step,
        ),
        Err(FileError::Read(reason)) => outcome matches Err(e) && e@ == ErrorView::Input(
            "failed to read "@ + path + ": "@ + reason@,
        ),
        Err(FileError::Parse(reason)) => outcome matches Err(e) && e@ == ErrorView::Input(
            "failed to parse "@ + path + ": "@ + reason@,
        ),
    }
}

/// Goes on with the Secret that a file gave.
pub fn file_loaded(
    args: &SealArgs,
    path: &str,
    reply: Result<Secret, FileError>,
) -> (outcome: Result<SealStep, Error>)
    ensures
        goes_on_loaded(*args, path@, reply, outcome),
{
    match reply {
        Ok(source) => {
            let namespace = match &args.namespace {
                Some(namespace) => namespace.clone(),
                None => match &source.metadata.namespace {
                    Some(namespace) => namespace.clone(),
                    None => DEFAULT_NAMESPACE.to_owned(),
                },
            };
            Ok(SealStep::FetchPublicKey { name: args.public_key.clone(), namespace, source })
        },
        Err(FileError::Read(reason)) => Err(
            Error::Input(
                "failed to read ".to_owned().concat(path).concat(": ").concat(reason.as_str()),
            ),
        ),
        Err(FileError::Parse(reason)) => Err(
            Error::Input(
                "failed to parse ".to_owned().concat(path).concat(": ").concat(reason.as_str()),
            ),
        ),
    }
}

/// What follows on the file of the source Secret: its text is parsed, and what it says is the
/// Secret to seal.
pub open spec fn goes_on_file_read(
    args: SealArgs,
    path: Seq<char>,
    reply: Result<String, String>,
    outcome: Result<SealStep, Error>,
) -> bool {
    match reply {
        Err(reason) => outcome matches Err(e) && e@ == ErrorView::Input(
            "failed to read "@ + path + ": "@ + reason@,
        ),
        Ok(text) => match secret_file::yaml_secret(text@) {
            Err(reason) => outcome matches Err(e) && e@ == ErrorView::Input(
                "failed to parse "@ + path + ": "@ + reason,
            ),
            Ok(parsed) => outcome matches Ok(step) && step matches SealStep::FetchPublicKey {
                name,
                namespace,
                source,
            } && {
                &&& name@ == args.public_key@
                &&& source@ == secret_file::secret_of(parsed)
                &&& namespace@ == namespace_of_file(args, secret_file::secret_of(parsed))
            },
        },
    }
}

/// Goes on after the file of the source Secret was read.
pub fn file_read(
    args: &SealArgs,
    path: &str,
    reply: Result<String, String>,
) -> (outcome: Result<SealStep, Error>)
    ensures
        goes_on_file_read(*args, path@, reply, outcome),
{
    let loaded = match reply {
        Ok(text) => match secret_file::parse_secret(text.as_str()) {
            Ok(parsed) => Ok(secret_file::to_secret(parsed)),
            Err(reason) => Err(FileError::Parse(reason)),
        },
        Err(reason) => Err(FileError::Read(reason)),
    };
    file_loaded(args, path, loaded)
}

/// The first equals sign of `text` is at place `i`.
pub open spec fn splits_at(text: Seq<char>, i: int) -> bool {
    &&& 0 <= i < text.len()
    &&& text[i] == '='
    &&& forall|j: int| 0 <= j < i ==> text[j] != '='
}

/// A label written as `key=value`, split at the first equals sign.
pub open spec fn label_of(text: Seq<char>) -> Option<(Seq<char>, Seq<char>)> {
    if exists|i: int| #[trigger] splits_at(text, i) {
        let i = choose|i: int| #[trigger] splits_at(text, i);
        Some((text.subrange(0, i), text.subrange(i + 1, text.len() as int)))
    } else {
        None
    }
}

/// The labels of a list, of which the later win, or the first text that is no label.
pub open spec fn labels_of(texts: Seq<Seq<char>>) -> Result<Map<Seq<char>, Seq<char>>, Seq<char>>
    decreases texts.len(),
{
    if texts.len() == 0 {
        Ok(Map::empty())
    } else {
        match labels_of(texts.drop_last()) {
            Ok(labels) => match label_of(texts.last()) {
                Some((key, value)) => Ok(labels.insert(key, value)),
                None => Err(texts.last()),
            },
            Err(text) => Err(text),
        }
    }
}

/// Splits a label written as `key=value`.
pub fn parse_label(text: &str) -> (label: Option<(String, String)>)
    ensures
        match label_of(text@) {
            Some((key, value)) => label matches Some((k, v)) && k@ == key && v@ == value,
            None => label is None,
        },
{
    let n: usize = text.unicode_len();
    let mut i: usize = 0;
    while i < n
        invariant
            i <= n,
            n == text@.len(),
            forall|j: int| 0 <= j < i ==> text@[j] != '=',
        decreases n - i,
    {
        if text.get_char(i) == '=' {
            proof {
                assert(splits_at(text@, i as int));
                let first = choose|i: int| #[trigger] splits_at(text@, i);
                assert(first == i);
            }
            return Some(
                (
                    text.substring_char(0, i).to_owned(),
                    text.substring_char(i + 1, n).to_owned(),
                ),
            );
        }
        i += 1;
    }
    None
}

/// The error for a text that is no label.
pub open spec fn label_error(text: Seq<char>) -> ErrorView {
    ErrorView::Input("invalid namespace label `"@ + text + "`: expected key=value"@)
}

/// Reads the labels that a namespace must have.
pub fn parse_labels(texts: &Vec<String>) -> (labels: Result<StringMap<String>, Error>)
    ensures
        match labels_of(resources::list_view(texts@)) {
            Ok(view) => labels matches Ok(l) && l@ == view,
            Err(text) => labels matches Err(e) && e@ == label_error(text),
        },
{
    let ghost views = resources::list_view(texts@);
    let mut labels: StringMap<String> = StringMap::new();
    let mut i: usize = 0;
    while i < texts.len()
        invariant
            i <= texts@.len(),
            views == resources::list_view(texts@),
            labels_of(views.take(i as int)) == Ok::<Map<Seq<char>, Seq<char>>, Seq<char>>(labels@),
        decreases texts@.len() - i,
    {
        proof {
            assert(views.take(i + 1).drop_last() =~= views.take(i as int));
            assert(views.take(i + 1).last() == texts@[i as int]@);
        }
        match parse_label(texts[i].as_str()) {
            Some((key, value)) => {
                labels.insert(key, value);
            },
            None => {
                proof {
                    labels_stay_wrong(views, i + 1);
                }
                return Err(
                    Error::Input(
                        "invalid namespace label `".to_owned().concat(texts[i].as_str()).concat(
                            "`: expected key=value",
                        ),
                    ),
                );
            },
        }
        i += 1;
    }
    assert(views.take(views.len() as int) =~= views);
    Ok(labels)
}

/// What is wrong with the first labels is wrong with all.
proof fn labels_stay_wrong(texts: Seq<Seq<char>>, n: int)
    requires
        0 <= n <= texts.len(),
        labels_of(texts.take(n)) is Err,
    ensures
        labels_of(texts) == labels_of(texts.take(n)),
    decreases texts.len() - n,
{
    if n == texts.len() {
        assert(texts.take(n) =~= texts);
    } else {
        assert(texts.take(n + 1).drop_last() =~= texts.take(n));
        labels_stay_wrong(texts, n + 1);
    }
}

/// Copies a list of names.
fn copy_names(names: &Vec<String>) -> (copy: Vec<String>)
    ensures
        resources::list_view(copy@) == resources::list_view(names@),
{
    let mut copy: Vec<String> = Vec::new();
    let mut i: usize = 0;
    while i < names.len()
        invariant
            i <= names@.len(),
            copy@ == names@.take(i as int),
        decreases names@.len() - i,
    {
        copy.push(names[i].clone());
        assert(copy@ =~= names@.take(i + 1));
        i += 1;
    }
    assert(copy@ =~= names@);
    copy
}

/// `sealed` is `source` sealed for `recipient` as asked: it is named like the Secret, its
/// values are those of the Secret, encrypted under their own names, and its template
/// preserves the rest. A cluster-wide one has the selection that was asked for.
pub open spec fn is_sealed(
    args: SealArgs,
    source: SecretView,
    recipient: Seq<char>,
    sealed: Sealed,
) -> bool {
    let metadata = resources::ObjectMetaView {
        name: Some(source.metadata.name_any()),
        ..resources::ObjectMetaView::empty()
    };
    match sealed {
        Sealed::Namespaced(resource) => {
            &&& !args.cluster_wide
            &&& resource@.metadata == metadata
            &&& resource@.status is None
            &&& resource@.spec.template == Some(sealing::template_of(source))
            &&& sealing::is_sealing_of(
                recipient,
                sealing::plaintext_of(source),
                resource@.spec.encrypted_data,
            )
        },
        Sealed::ClusterWide(resource) => {
            &&& args.cluster_wide
            &&& resource@.metadata == metadata
            &&& resource@.status is None
            &&& resource@.spec.template == Some(sealing::template_of(source))
            &&& sealing::is_sealing_of(
                recipient,
                sealing::plaintext_of(source),
                resource@.spec.encrypted_data,
            )
            &&& labels_of(resources::list_view(args.namespace_labels@)) == Ok::<
                Map<Seq<char>, Seq<char>>,
                Seq<char>,
            >(resource@.spec.namespace_selector)
            &&& resource@.spec.exclude_namespaces == resources::list_view(args.exclude_namespaces@)
        },
    }
}

/// What sealing `source` comes to: a label that cannot be read, a Secret without entries and
/// a text that is no public key are errors, in this order, and for a public key that age
/// refuses there is nothing.
pub open spec fn seals(
    args: SealArgs,
    source: SecretView,
    public_key: Seq<char>,
    outcome: Option<Result<Sealed, Error>>,
) -> bool {
    let labels = labels_of(resources::list_view(args.namespace_labels@));
    if args.cluster_wide && labels is Err {
        outcome matches Some(Err(e)) && e@ == label_error(labels->Err_0)
    } else if sealing::plaintext_of(source).dom() == Set::<Seq<char>>::empty() {
        outcome matches Some(Err(e)) && e@ == ErrorView::EmptySecret(source.metadata.name_any())
    } else if age_keys::is_weak_recipient(public_key) {
        outcome is None
    } else {
        match age_keys::age_recipient(public_key) {
            Ok(recipient) => outcome matches Some(Ok(sealed)) && is_sealed(
                args,
                source,
                recipient,
                sealed,
            ),
            Err(reason) => outcome matches Some(Err(e)) && e@ == ErrorView::Encryption(
                Failure::InvalidPublicKey(reason),
            ),
        }
    }
}

/// Seals a Secret with a public key, for one namespace or for the cluster. For a public key
/// that age refuses there is nothing.
pub fn seal_secret(args: &SealArgs, source: &Secret, public_key: &str) -> (outcome: Option<
    Result<Sealed, Error>,
>)
    ensures
        seals(*args, source@, public_key@, outcome),
{
    let mut match_labels: StringMap<String> = StringMap::new();
    if args.cluster_wide {
        match parse_labels(&args.namespace_labels) {
            Ok(labels) => {
                match_labels = labels;
            },
            Err(error) => {
                return Some(Err(error));
            },
        }
    }
    let source_name = source.metadata.name_any();
    let plaintext = sealing::plaintext_data(source);
    if plaintext.is_empty() {
        return Some(Err(Error::EmptySecret(source_name)));
    }
    if encryption::refuses(public_key) {
        return None;
    }
    let encrypted_data = match sealing::encrypt_data(public_key, &plaintext) {
        Ok(encrypted) => encrypted,
        Err(error) => {
            return Some(Err(Error::Encryption(error)));
        },
    };
    let template = Some(sealing::make_template(source));
    if args.cluster_wide {
        let spec = FuinClusterSealedSecretSpec {
            encrypted_data,
            namespace_selector: NamespaceSelector { match_labels },
            exclude_namespaces: copy_names(&args.exclude_namespaces),
            template,
        };
        Some(
            Ok(Sealed::ClusterWide(FuinClusterSealedSecret::new(source_name.as_str(), spec))),
        )
    } else {
        let spec = FuinSealedSecretSpec { encrypted_data, template };
        Some(Ok(Sealed::Namespaced(FuinSealedSecret::new(source_name.as_str(), spec))))
    }
}

/// What follows when the public key was asked of the cluster: the Secret is sealed with it, and
/// the sealed resource is to be written as YAML. For a public key that age refuses there is
/// nothing.
pub open spec fn goes_on_with_public_key(
    args: SealArgs,
    namespace: String,
    source: SecretView,
    reply: Result<FuinPublicKeySpec, ApiError>,
    outcome: Option<Result<SealStep, Error>>,
) -> bool {
    match reply {
        Err(error) => outcome == Some(Err::<SealStep, Error>(Error::Kubernetes(error))),
        Ok(found) => exists|sealed: Option<Result<Sealed, Error>>| #[trigger]
            seals(args, source, found.public_key@, sealed) && match sealed {
                Some(Ok(s)) => outcome == Some(
                    Ok::<SealStep, Error>(SealStep::Render { namespace, sealed: s }),
                ),
                Some(Err(e)) => outcome == Some(Err::<SealStep, Error>(e)),
                None => outcome is None,
            },
    }
}

/// Goes on after the public key was asked of the cluster.
pub fn public_key_fetched(
    args: &SealArgs,
    namespace: String,
    source: &Secret,
    reply: Result<FuinPublicKeySpec, ApiError>,
) -> (outcome: Option<Result<SealStep, Error>>)
    ensures
        goes_on_with_public_key(*args, namespace, source@, reply, outcome),
{
    match reply {
        Err(error) => Some(Err(Error::Kubernetes(error))),
        Ok(found) => {
            let sealed = seal_secret(args, source, found.public_key.as_str());
            assert(seals(*args, source@, found.public_key@, sealed));
            match sealed {
                Some(Ok(sealed)) => Some(Ok(SealStep::Render { namespace, sealed })),
                Some(Err(error)) => Some(Err(error)),
                None => None,
            }
        },
    }
}

/// What follows on the YAML text: it goes to the output file, if there is one, and otherwise,
/// unless the resource is to be applied, to the terminal.
pub open spec fn goes_on_rendered(
    args: SealArgs,
    namespace: String,
    sealed: Sealed,
    reply: Result<String, String>,
    outcome: Result<SealStep, Error>,
) -> bool {
    match reply {
        Err(reason) => outcome matches Err(e) && e@ == ErrorView::Input(
            "failed to serialize sealed secret: "@ + reason@,
        ),
        Ok(yaml) => match args.output {
            Some(file) => outcome matches Ok(step) && step matches SealStep::WriteFile {
                path,
                contents,
                namespace: n,
                sealed: s,
            } && path@ == file@ && contents == yaml && n == namespace && s == sealed,
            None => if args.apply {
                outcome == Ok::<SealStep, Error>(SealStep::Apply { namespace, sealed })
            } else {
                outcome == Ok::<SealStep, Error>(SealStep::Finish(Output::Stdout(yaml)))
            },
        },
    }
}

/// Goes on after the sealed resource was written as YAML.
pub fn rendered(
    args: &SealArgs,
    namespace: String,
    sealed: Sealed,
    reply: Result<String, String>,
) -> (outcome: Result<SealStep, Error>)
    ensures
        goes_on_rendered(*args, namespace, sealed, reply, outcome),
{
    match reply {
        Err(reason) => Err(
            Error::Input(
                "failed to serialize sealed secret: ".to_owned().concat(reason.as_str()),
            ),
        ),
        Ok(yaml) => match &args.output {
            Some(path) => Ok(
                SealStep::WriteFile { path: path.clone(), contents: yaml, namespace, sealed },
            ),
            None => if args.apply {
                Ok(SealStep::Apply { namespace, sealed })
            } else {
                Ok(SealStep::Finish(Output::Stdout(yaml)))
            },
        },
    }
}

/// What follows on the output file: the resource is applied, if asked, and otherwise the
/// file is announced.
pub open spec fn goes_on_written(
    args: SealArgs,
    path: Seq<char>,
    namespace: String,
    sealed: Sealed,
    reply: Result<(), String>,
    outcome: Result<SealStep, Error>,
) -> bool {
    match reply {
        Err(reason) => outcome matches Err(e) && e@ == ErrorView::Input(
            "failed to write "@ + path + ": "@ + reason@,
        ),
        Ok(_) => if args.apply {
            outcome == Ok::<SealStep, Error>(SealStep::Apply { namespace, sealed })
        } else {
            outcome matches Ok(step) && step matches SealStep::Finish(Output::Stderr(text))
                && text@ == "wrote "@ + path + "\n"@
        },
    }
}

/// Goes on after the output file was written.
pub fn file_written(
    args: &SealArgs,
    path: &str,
    namespace: String,
    sealed: Sealed,
    reply: Result<(), String>,
) -> (outcome: Result<SealStep, Error>)
    ensures
        goes_on_written(*args, path@, namespace, sealed, reply, outcome),
{
    match reply {
        Err(reason) => Err(
            Error::Input(
                "failed to write ".to_owned().concat(path).concat(": ").concat(reason.as_str()),
            ),
        ),
        Ok(_) => if args.apply {
            Ok(SealStep::Apply { namespace, sealed })
        } else {
            Ok(SealStep::Finish(Output::Stderr("wrote ".to_owned().concat(path).concat("\n"))))
        },
    }
}

/// The cluster is changed only where that was asked for: without it, the resource goes to the
/// output file and no further, or to the terminal.
pub proof fn nothing_is_applied_unless_asked(
    args: SealArgs,
    namespace: String,
    sealed: Sealed,
    text: Result<String, String>,
    after_text: Result<SealStep, Error>,
    path: Seq<char>,
    write: Result<(), String>,
    after_write: Result<SealStep, Error>,
)
    requires
        !args.apply,
        goes_on_rendered(args, namespace, sealed, text, after_text),
        goes_on_written(args, path, namespace, sealed, write, after_write),
    ensures
        after_text matches Ok(step) ==> step is WriteFile || step is Finish,
        after_write matches Ok(step) ==> step is Finish,
{
}

/// The event of a Secret that was sealed and applied.
pub open spec fn sealed_event(sealed: Sealed) -> EventRecordView {
    EventRecordView {
        kind: EventKind::Normal,
        reason: "SecretSealed"@,
        note: match sealed {
            Sealed::Namespaced(_) => Some("Encrypted Secret data and applied FuinSealedSecret"@),
            Sealed::ClusterWide(_) => Some(
                "Encrypted Secret data and applied FuinClusterSealedSecret"@,
            ),
        },
        action: "Seal"@,
    }
}

/// What follows when the sealed resource was applied: the event.
pub open spec fn goes_on_applied(
    namespace: String,
    sealed: Sealed,
    reply: Result<(), ApiError>,
    outcome: Result<SealStep, Error>,
) -> bool {
    match reply {
        Err(error) => outcome == Err::<SealStep, Error>(Error::Kubernetes(error)),
        Ok(_) => outcome matches Ok(step) && step matches SealStep::Record {
            event,
            namespace: n,
            sealed: s,
        } && event@ == sealed_event(sealed) && n == namespace && s == sealed,
    }
}

/// Goes on after the sealed resource was applied.
pub fn applied(namespace: String, sealed: Sealed, reply: Result<(), ApiError>) -> (outcome: Result<
    SealStep,
    Error,
>)
    ensures
        goes_on_applied(namespace, sealed, reply, outcome),
{
    match reply {
        Err(error) => Err(Error::Kubernetes(error)),
        Ok(_) => {
            let note = match &sealed {
                Sealed::Namespaced(_) => "Encrypted Secret data and applied FuinSealedSecret",
                Sealed::ClusterWide(_) => {
                    "Encrypted Secret data and applied FuinClusterSealedSecret"
                },
            };
            let event = EventRecord {
                kind: EventKind::Normal,
                reason: "SecretSealed".to_owned(),
                note: Some(note.to_owned()),
                action: "Seal".to_owned(),
            };
            Ok(SealStep::Record { event, namespace, sealed })
        },
    }
}

/// The closing words: what was sealed and where to.
pub open spec fn closing_words(namespace: Seq<char>, sealed: Sealed) -> Seq<char> {
    match sealed {
        Sealed::Namespaced(resource) => "sealed Secret `"@ + resource@.metadata.name_any()
            + "` in namespace `"@ + namespace + "`\n"@,
        Sealed::ClusterWide(resource) => "sealed Secret `"@ + resource@.metadata.name_any()
            + "` for the cluster\n"@,
    }
}

/// What follows when the event was recorded: the closing words.
pub open spec fn goes_on_recorded(
    namespace: Seq<char>,
    sealed: Sealed,
    reply: Result<(), ApiError>,
    outcome: Result<SealStep, Error>,
) -> bool {
    match reply {
        Err(error) => outcome == Err::<SealStep, Error>(Error::Kubernetes(error)),
        Ok(_) => outcome matches Ok(step) && step matches SealStep::Finish(Output::Stdout(text))
            && text@ == closing_words(namespace, sealed),
    }
}

/// Ends the sealing after the event was recorded.
pub fn recorded(namespace: &str, sealed: &Sealed, reply: Result<(), ApiError>) -> (outcome: Result<
    SealStep,
    Error,
>)
    ensures
        goes_on_recorded(namespace@, *sealed, reply, outcome),
{
    match reply {
        Err(error) => Err(Error::Kubernetes(error)),
        Ok(_) => {
            let text = match sealed {
                Sealed::Namespaced(resource) => "sealed Secret `".to_owned().concat(
                    resource.metadata.name_any().as_str(),
                ).concat("` in namespace `").concat(namespace).concat("`\n"),
                Sealed::ClusterWide(resource) => "sealed Secret `".to_owned().concat(
                    resource.metadata.name_any().as_str(),
                ).concat("` for the cluster\n"),
            };
            Ok(SealStep::Finish(Output::Stdout(text)))
        },
    }
}

} // verus!
