//! What holds of the steps of `fuin seal`, from the source to its end.

use crate::cli::{self, Error, ErrorView, FileError, Output, SealArgs, SealStep, Sealed};
use crate::laws::reconciling;
use crate::resources::{ApiError, Secret, SecretView};
use crate::secret_file;
use crate::types::{EventKind, FuinPublicKeySpec};
use vstd::prelude::*;

verus! {

/// With a Secret's name alone, that Secret is fetched: from the namespace given, else from the
/// default one.
pub proof fn named_secret_is_fetched(args: SealArgs, outcome: Result<SealStep, Error>)
    requires
        cli::sealing_begins(args, outcome),
        args.secret is Some,
        args.from_file is None,
    ensures
        outcome matches Ok(step) && step is FetchSecret,
        outcome->Ok_0->FetchSecret_name@ == args.secret->0@,
        args.namespace matches Some(given) ==> outcome->Ok_0->FetchSecret_namespace@ == given@,
        args.namespace is None ==> outcome->Ok_0->FetchSecret_namespace@ == "default"@,
{
}

/// With a path alone, that file is read.
pub proof fn named_file_is_read(args: SealArgs, outcome: Result<SealStep, Error>)
    requires
        cli::sealing_begins(args, outcome),
        args.secret is None,
        args.from_file is Some,
    ensures
        outcome matches Ok(step) && step matches SealStep::LoadFile { path } && path@
            == args.from_file->0@,
{
}

/// With both or neither, nothing is done.
pub proof fn one_source_must_be_given(args: SealArgs, outcome: Result<SealStep, Error>)
    requires
        cli::sealing_begins(args, outcome),
        args.secret is Some <==> args.from_file is Some,
    ensures
        outcome matches Err(e) && e@ == ErrorView::Input(
            "provide either a Secret name or --from-file"@,
        ),
{
}

/// The step asks for the public key that was named, to seal `source` for `namespace`.
pub open spec fn fetches_the_key(
    args: SealArgs,
    namespace: Seq<char>,
    source: SecretView,
    outcome: Result<SealStep, Error>,
) -> bool {
    &&& outcome matches Ok(step) && step is FetchPublicKey
    &&& outcome->Ok_0->FetchPublicKey_name@ == args.public_key@
    &&& outcome->Ok_0->FetchPublicKey_namespace@ == namespace
    &&& outcome->Ok_0->FetchPublicKey_source@ == source
}

/// A fetched Secret is sealed as it is, for the namespace that it was fetched from.
pub proof fn fetched_secret_is_sealed_for_its_namespace(
    args: SealArgs,
    namespace: Seq<char>,
    reply: Result<Secret, ApiError>,
    outcome: Result<SealStep, Error>,
)
    requires
        cli::goes_on_fetched(args, namespace, reply, outcome),
    ensures
        reply matches Ok(source) ==> fetches_the_key(args, namespace, source@, outcome),
        reply matches Err(error) ==> (outcome matches Err(e) && e == Error::Kubernetes(error)),
{
}

/// A Secret from a file goes to the namespace given, whatever the file says; where none is
/// given, to the file's own; and only where there is neither, to the default one.
pub proof fn given_namespace_wins_over_the_file(
    args: SealArgs,
    path: Seq<char>,
    source: Secret,
    outcome: Result<SealStep, Error>,
)
    requires
        cli::goes_on_loaded(args, path, Ok(source), outcome),
    ensures
        args.namespace matches Some(given) ==> fetches_the_key(args, given@, source@, outcome),
        args.namespace is None ==> (source.metadata.namespace matches Some(own)
            ==> fetches_the_key(args, own@, source@, outcome)),
        args.namespace is None && source.metadata.namespace is None ==> fetches_the_key(
            args,
            "default"@,
            source@,
            outcome,
        ),
{
}

/// A file that cannot be read, or holds no Secret, is named with the reason.
pub proof fn bad_file_is_named(
    args: SealArgs,
    path: Seq<char>,
    reason: String,
    outcome: Result<SealStep, Error>,
)
    ensures
        cli::goes_on_loaded(args, path, Err(FileError::Read(reason)), outcome) ==> (
        outcome matches Err(e) && e@ == ErrorView::Input(
            "failed to read "@ + path + ": "@ + reason@,
        )),
        cli::goes_on_loaded(args, path, Err(FileError::Parse(reason)), outcome) ==> (
        outcome matches Err(e) && e@ == ErrorView::Input(
            "failed to parse "@ + path + ": "@ + reason@,
        )),
        cli::goes_on_file_read(args, path, Err(reason), outcome) ==> (outcome matches Err(e) && e@
            == ErrorView::Input("failed to read "@ + path + ": "@ + reason@)),
{
}

/// The text of a file leads to the Secret that it holds, for the namespace given, else the one
/// in the text, else the default one; a text that holds none is refused with the reason.
pub proof fn text_of_a_file_decides(
    args: SealArgs,
    path: Seq<char>,
    text: String,
    outcome: Result<SealStep, Error>,
)
    requires
        cli::goes_on_file_read(args, path, Ok(text), outcome),
    ensures
        secret_file::yaml_secret(text@) matches Err(reason) ==> (outcome matches Err(e) && e@
            == ErrorView::Input("failed to parse "@ + path + ": "@ + reason)),
        secret_file::yaml_secret(text@) matches Ok(parsed) ==> {
            let source = secret_file::secret_of(parsed);
            &&& args.namespace is Some ==> fetches_the_key(
                args,
                args.namespace->0@,
                source,
                outcome,
            )
            &&& args.namespace is None && parsed.namespace is Some ==> fetches_the_key(
                args,
                parsed.namespace->0,
                source,
                outcome,
            )
            &&& args.namespace is None && parsed.namespace is None ==> fetches_the_key(
                args,
                "default"@,
                source,
                outcome,
            )
        },
{
}

/// A public key that is there seals the Secret: what comes of it is written as text, for the
/// same namespace, or is the error; one that is not there is the error of the cluster.
pub proof fn public_key_seals(
    args: SealArgs,
    namespace: String,
    source: SecretView,
    reply: Result<FuinPublicKeySpec, ApiError>,
    outcome: Option<Result<SealStep, Error>>,
)
    requires
        cli::goes_on_with_public_key(args, namespace, source, reply, outcome),
    ensures
        reply matches Err(error) ==> (outcome matches Some(Err(e)) && e == Error::Kubernetes(
            error,
        )),
        reply is Ok ==> match outcome {
            Some(Ok(step)) => step is Render && step->Render_namespace == namespace && cli::seals(
                args,
                source,
                reply->Ok_0.public_key@,
                Some(Ok(step->Render_sealed)),
            ),
            Some(Err(e)) => cli::seals(args, source, reply->Ok_0.public_key@, Some(Err(e))),
            None => cli::seals(args, source, reply->Ok_0.public_key@, None),
        },
{
    if reply is Ok {
        let key = reply->Ok_0.public_key@;
        let sealed = choose|sealed: Option<Result<Sealed, Error>>| #[trigger]
            cli::seals(args, source, key, sealed) && match sealed {
                Some(Ok(s)) => outcome == Some(
                    Ok::<SealStep, Error>(SealStep::Render { namespace, sealed: s }),
                ),
                Some(Err(e)) => outcome == Some(Err::<SealStep, Error>(e)),
                None => outcome is None,
            };
        assert(cli::seals(args, source, key, sealed));
    }
}

/// What was asked to be applied is applied, whatever its kind, and nothing ends before: right
/// after the text where there is no output file, and after the file where there is one. The
/// resource and the namespace stay the same.
pub proof fn asked_resource_is_applied(
    args: SealArgs,
    namespace: String,
    sealed: Sealed,
    text: String,
    after_text: Result<SealStep, Error>,
    path: Seq<char>,
    after_file: Result<SealStep, Error>,
)
    requires
        args.apply,
        cli::goes_on_rendered(args, namespace, sealed, Ok(text), after_text),
        cli::goes_on_written(args, path, namespace, sealed, Ok(()), after_file),
    ensures
        args.output is None ==> after_text == Ok::<SealStep, Error>(
            SealStep::Apply { namespace, sealed },
        ),
        args.output is Some ==> (after_text matches Ok(step) && step is WriteFile),
        after_file == Ok::<SealStep, Error>(SealStep::Apply { namespace, sealed }),
{
}

/// The text goes to the output file, where one was asked for, whether or not the resource is
/// to be applied; else it is shown, unless the resource is to be applied.
pub proof fn text_is_written_or_shown(
    args: SealArgs,
    namespace: String,
    sealed: Sealed,
    text: String,
    outcome: Result<SealStep, Error>,
)
    requires
        cli::goes_on_rendered(args, namespace, sealed, Ok(text), outcome),
    ensures
        args.output matches Some(file) ==> (outcome matches Ok(step) && step is WriteFile && {
            &&& step->WriteFile_path@ == file@
            &&& step->WriteFile_contents == text
            &&& step->WriteFile_namespace == namespace
            &&& step->WriteFile_sealed == sealed
        }),
        args.output is None && !args.apply ==> outcome == Ok::<SealStep, Error>(
            SealStep::Finish(Output::Stdout(text)),
        ),
{
}

/// A written file is announced, on the error stream, where nothing is to be applied.
pub proof fn written_file_is_announced(
    args: SealArgs,
    path: Seq<char>,
    namespace: String,
    sealed: Sealed,
    outcome: Result<SealStep, Error>,
)
    requires
        !args.apply,
        cli::goes_on_written(args, path, namespace, sealed, Ok(()), outcome),
    ensures
        outcome matches Ok(step) && step matches SealStep::Finish(Output::Stderr(text)) && text@
            == "wrote "@ + path + "\n"@,
{
}

/// What cannot be rendered or written is refused with the reason.
pub proof fn undelivered_text_is_refused(
    args: SealArgs,
    path: Seq<char>,
    namespace: String,
    sealed: Sealed,
    reason: String,
    outcome: Result<SealStep, Error>,
)
    ensures
        cli::goes_on_rendered(args, namespace, sealed, Err(reason), outcome) ==> (
        outcome matches Err(e) && e@ == ErrorView::Input(
            "failed to serialize sealed secret: "@ + reason@,
        )),
        cli::goes_on_written(args, path, namespace, sealed, Err(reason), outcome) ==> (
        outcome matches Err(e) && e@ == ErrorView::Input(
            "failed to write "@ + path + ": "@ + reason@,
        )),
{
}

/// An applied resource is recorded, as a normal event that names its kind, on that resource; a
/// failure to apply or to record is the error of the cluster.
pub proof fn applied_resource_is_recorded(
    namespace: String,
    sealed: Sealed,
    reply: Result<(), ApiError>,
    outcome: Result<SealStep, Error>,
)
    requires
        cli::goes_on_applied(namespace, sealed, reply, outcome),
    ensures
        reply matches Err(error) ==> (outcome matches Err(e) && e == Error::Kubernetes(error)),
        reply is Ok ==> (outcome matches Ok(step) && step is Record && {
            &&& step->Record_namespace == namespace
            &&& step->Record_sealed == sealed
            &&& step->Record_event@.kind == EventKind::Normal
            &&& step->Record_event@.reason == "SecretSealed"@
            &&& step->Record_event@.action == "Seal"@
            &&& sealed is Namespaced ==> step->Record_event@.note == Some(
                "Encrypted Secret data and applied FuinSealedSecret"@,
            )
            &&& sealed is ClusterWide ==> step->Record_event@.note == Some(
                "Encrypted Secret data and applied FuinClusterSealedSecret"@,
            )
        }),
{
}

/// Sealing closes with the name of the sealed resource and where it went.
pub proof fn closing_words_say_what_went_where(
    namespace: Seq<char>,
    sealed: Sealed,
    reply: Result<(), ApiError>,
    outcome: Result<SealStep, Error>,
)
    requires
        cli::goes_on_recorded(namespace, sealed, reply, outcome),
    ensures
        reply matches Err(error) ==> (outcome matches Err(e) && e == Error::Kubernetes(error)),
        reply is Ok ==> (outcome matches Ok(step) && step matches SealStep::Finish(output)
            && output is Stdout),
        reply is Ok ==> (sealed matches Sealed::Namespaced(resource)
            ==> outcome->Ok_0->Finish_0->Stdout_0@ == "sealed Secret `"@ + reconciling::best_name(
            resource@.metadata,
        ) + "` in namespace `"@ + namespace + "`\n"@),
        reply is Ok ==> (sealed matches Sealed::ClusterWide(resource)
            ==> outcome->Ok_0->Finish_0->Stdout_0@ == "sealed Secret `"@ + reconciling::best_name(
            resource@.metadata,
        ) + "` for the cluster\n"@),
{
}

} // verus!
