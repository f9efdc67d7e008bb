//! The upload of a bindle, and what its outcome means.

use vstd::prelude::*;
use vstd::string::*;

use crate::error::{DeployError, Failure};
use crate::text::{
    contains_text, law_leading_repetitions_go, law_occurrence, occurs_in, repeated,
    trim_start_text, without_leading,
};

verus! {

/// A bindle: a version of an application under a name.
#[derive(Debug, PartialEq, Eq)]
pub struct BindleId<S = String> {
    pub name: S,
    pub version: S,
}

impl View for BindleId {
    type V = BindleId<Seq<char>>;

    open spec fn view(&self) -> BindleId<Seq<char>> {
        BindleId { name: self.name@, version: self.version@ }
    }
}

/// How an upload ended.
#[derive(Debug)]
pub enum PushOutcome {
    /// The bindle is on the server.
    Pushed,
    /// The server has the bindle already; it says so in these words.
    AlreadyExists { message: String },
    /// The client met an error of no particular kind, with this message.
    Refused { message: String },
    /// The upload failed in another way.
    Failed,
}

/// What is told before an upload.
pub open spec fn upload_notice_text(id: BindleId<Seq<char>>) -> Seq<char> {
    "Uploading "@ + id.name + " version "@ + id.version + "..."@
}

/// What is told before an upload.
pub fn upload_notice(id: &BindleId) -> (text: String)
    ensures
        text@ == upload_notice_text(id@),
{
    "Uploading ".to_owned().concat(id.name.as_str()).concat(" version ").concat(
        id.version.as_str(),
    ).concat("...")
}

/// Whether a deployment goes on after an upload; if not, how it ends.
pub open spec fn push_verdict(redeploy: bool, outcome: PushOutcome) -> Result<
    (),
    Failure<Seq<char>>,
> {
    match outcome {
        PushOutcome::Pushed => Ok(()),
        PushOutcome::AlreadyExists { message } => if redeploy {
            Ok(())
        } else {
            Err(Failure::Own(DeployError::BindleExists { reason: message@ }))
        },
        PushOutcome::Refused { message } => if occurs_in("application exceeds"@, message@) {
            Err(
                Failure::Own(
                    DeployError::AppTooLarge {
                        reason: without_leading(message@, "Unknown error: "@),
                    },
                ),
            )
        } else {
            Err(Failure::Upload)
        },
        PushOutcome::Failed => Err(Failure::Upload),
    }
}

/// Whether a deployment goes on after an upload. A bindle that the server has
/// already will do if a redeployment is asked for.
pub fn judge_push(redeploy: bool, outcome: PushOutcome) -> (verdict: Result<(), Failure>)
    ensures
        match verdict {
            Ok(()) => push_verdict(redeploy, outcome) is Ok,
            Err(failure) => push_verdict(redeploy, outcome) == Err::<(), Failure<Seq<char>>>(
                failure@,
            ),
        },
{
    match outcome {
        PushOutcome::Pushed => Ok(()),
        PushOutcome::AlreadyExists { message } => if redeploy {
            Ok(())
        } else {
            Err(Failure::Own(DeployError::BindleExists { reason: message }))
        },
        PushOutcome::Refused { message } => {
            proof {
                reveal_strlit("Unknown error: ");
            }
            if contains_text(message.as_str(), "application exceeds") {
                Err(
                    Failure::Own(
                        DeployError::AppTooLarge {
                            reason: trim_start_text(message.as_str(), "Unknown error: "),
                        },
                    ),
                )
            } else {
                Err(Failure::Upload)
            }
        },
        PushOutcome::Failed => Err(Failure::Upload),
    }
}

/// The directory that a bindle is assembled in: the given one, or else a
/// temporary one.
pub fn staging_dir<D>(given: Option<D>, temporary: D) -> (dir: D)
    ensures
        dir == match given {
            Some(given) => given,
            None => temporary,
        },
{
    match given {
        None => temporary,
        Some(path) => path,
    }
}

/// A deployment goes on after an upload exactly if the bindle was pushed, or the
/// server has it already and a redeployment is asked for.
pub proof fn law_which_uploads_will_do(redeploy: bool, outcome: PushOutcome)
    ensures
        push_verdict(redeploy, outcome) is Ok <==> outcome is Pushed || (outcome is AlreadyExists
            && redeploy),
{
}

/// A bindle that the server has already, without a redeployment, ends the
/// deployment in the server's words.
pub proof fn law_existing_bindles_are_told(message: String)
    ensures
        push_verdict(false, (PushOutcome::AlreadyExists { message })) == Err::<
            (),
            Failure<Seq<char>>,
        >(Failure::Own(DeployError::BindleExists { reason: message@ })),
{
}

/// A refusal that says somewhere that the application exceeds a limit is told in
/// the words of the refusal, without the repeated mark of unknown errors in front.
pub proof fn law_size_refusals_are_told(
    redeploy: bool,
    message: String,
    n: nat,
    reason: Seq<char>,
    front: Seq<char>,
    back: Seq<char>,
)
    requires
        message@ == repeated("Unknown error: "@, n) + reason,
        !"Unknown error: "@.is_prefix_of(reason),
        message@ == front + "application exceeds"@ + back,
    ensures
        push_verdict(redeploy, (PushOutcome::Refused { message })) == Err::<
            (),
            Failure<Seq<char>>,
        >(Failure::Own(DeployError::AppTooLarge { reason })),
{
    reveal_strlit("Unknown error: ");
    law_occurrence("application exceeds"@, message@);
    law_leading_repetitions_go("Unknown error: "@, n, reason);
}

/// Any other refusal, and any other failure, is told as that of the upload.
pub proof fn law_other_upload_failures_are_told(redeploy: bool, message: String)
    requires
        forall|front: Seq<char>, back: Seq<char>| #[trigger]
            (front + "application exceeds"@ + back) != message@,
    ensures
        push_verdict(redeploy, (PushOutcome::Refused { message })) == Err::<
            (),
            Failure<Seq<char>>,
        >(Failure::Upload),
        push_verdict(redeploy, PushOutcome::Failed) == Err::<(), Failure<Seq<char>>>(
            Failure::Upload,
        ),
{
    law_occurrence("application exceeds"@, message@);
}

/// The notice of an upload names the bindle and then its version.
pub proof fn law_the_notice_names_the_bindle(id: BindleId<Seq<char>>)
    ensures
        ({
            let text = upload_notice_text(id);
            let name_end = 10 + id.name.len() as int;
            let version_at = name_end + 9;
            let version_end = version_at + id.version.len() as int;
            &&& text.len() == 22 + id.name.len() + id.version.len()
            &&& text.take(10) == "Uploading "@
            &&& text.subrange(10, name_end) == id.name
            &&& text.subrange(name_end, version_at) == " version "@
            &&& text.subrange(version_at, version_end) == id.version
            &&& text.skip(version_end) == "..."@
        }),
{
    reveal_strlit("Uploading ");
    reveal_strlit(" version ");
    reveal_strlit("...");
}

} // verus!
