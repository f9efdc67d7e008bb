//! The wait for a deployed application to become ready.

use vstd::prelude::*;
use vstd::string::*;

use crate::error::DeployError;
use crate::text::same_text;
use crate::web_url::{app_info_outcome, app_info_url, url_outcome, Url};

verus! {

/// The seconds between two looks at an application.
pub const READINESS_POLL_INTERVAL_SECS: u64 = 2;

/// The nanoseconds in a second.
pub const NANOS_PER_SEC: u128 = 1_000_000_000;

/// Where an application is deployed to.
#[derive(Debug)]
pub enum Destination {
    /// The platform whose dashboard is at this URL.
    Cloud(String),
}

/// What an application tells about itself, as far as it concerns its readiness.
#[derive(Debug)]
pub struct AppInfo {
    pub bindle_version: Option<String>,
}

/// The answer to the question what an application is.
#[derive(Debug)]
pub enum InfoReply {
    /// There was none.
    Missing,
    /// An answer with a status, and with what the application tells, if the body
    /// tells that.
    Answered { status: u16, app_info: Option<AppInfo> },
}

/// Whether a status means success.
pub open spec fn is_success(status: u16) -> bool {
    200 <= status < 300
}

/// Whether an application tells that it runs a version.
pub open spec fn runs_version(info: AppInfo, version: Seq<char>) -> bool {
    match info.bindle_version {
        Some(active) => active@ == version,
        None => false,
    }
}

/// Whether an answer means that an application of the expected version is ready.
/// An answer whose body tells nothing about the application will do.
pub open spec fn means_ready(reply: InfoReply, expected_version: Seq<char>) -> bool {
    match reply {
        InfoReply::Missing => false,
        InfoReply::Answered { status, app_info } => is_success(status) && match app_info {
            Some(info) => runs_version(info, expected_version),
            None => true,
        },
    }
}

/// Whether an answer means that an application is ready. An application that was
/// deployed before may still be running its old version, and is not ready then.
pub fn is_ready(reply: &InfoReply, expected_version: &str) -> (ready: bool)
    ensures
        ready == means_ready(*reply, expected_version@),
{
    match reply {
        InfoReply::Missing => false,
        InfoReply::Answered { status, app_info } => {
            if !(200 <= *status && *status < 300) {
                return false;
            }
            match app_info {
                Some(info) => match &info.bindle_version {
                    Some(active) => same_text(active.as_str(), expected_version),
                    None => false,
                },
                None => true,
            }
        },
    }
}

/// The result of a look at an application.
#[derive(Debug)]
pub enum Probe {
    /// The look failed with this error.
    Failed { error: String },
    Ready,
    NotReady,
}

/// What to do next in a wait. Every text is printed as it is, without a newline
/// of its own.
#[derive(Debug, PartialEq, Eq)]
pub enum WaitStep<S = String> {
    /// Print a text and ask the application at that URL.
    Look { print: S, url: S },
    /// Print a text, sleep that many seconds, and ask the application at that URL
    /// again.
    SleepThenLook { print: S, secs: u64, url: S },
    /// Print a text, and wait no longer.
    Stop { print: S },
}

impl View for WaitStep {
    type V = WaitStep<Seq<char>>;

    open spec fn view(&self) -> WaitStep<Seq<char>> {
        match *self {
            WaitStep::Look { print, url } => WaitStep::Look { print: print@, url: url@ },
            WaitStep::SleepThenLook { print, secs, url } => WaitStep::SleepThenLook {
                print: print@,
                secs,
                url: url@,
            },
            WaitStep::Stop { print } => WaitStep::Stop { print: print@ },
        }
    }
}

/// A wait of at most that many seconds for an application to be ready in a
/// version.
#[derive(Debug)]
pub struct ReadinessWait {
    /// Where the application tells about itself.
    pub app_info_url: Url,
    pub expected_version: String,
    pub timeout_secs: u16,
    pub destination: Destination,
}

/// What is told when the time is over.
pub open spec fn gave_up_text(destination: Destination) -> Seq<char> {
    match destination {
        Destination::Cloud(url) =>
            ".\nApplication deployed, but Spin could not establish readiness\nCheck the Fermyon self-hosted Platform dashboard to see the application status: "@
            + url@ + "\n"@,
    }
}

impl ReadinessWait {
    /// Whether the time of the wait is over after some nanoseconds.
    pub open spec fn is_over(self, elapsed_nanos: nat) -> bool {
        elapsed_nanos >= self.timeout_secs * NANOS_PER_SEC
    }

    /// The first thing to do: look at the application.
    pub open spec fn first_step(self) -> WaitStep<Seq<char>> {
        WaitStep::Look {
            print: "Waiting for application to become ready"@,
            url: self.app_info_url@.0,
        }
    }

    /// What to do after a look at the application, so many nanoseconds after the
    /// wait began.
    pub open spec fn next_step(self, probe: Probe, elapsed_nanos: nat) -> WaitStep<Seq<char>> {
        match probe {
            Probe::Failed { error } => WaitStep::Stop {
                print: "... readiness check failed: "@ + error@ + "\n"@,
            },
            Probe::Ready => WaitStep::Stop { print: "... ready\n"@ },
            Probe::NotReady => if self.is_over(elapsed_nanos) {
                WaitStep::Stop { print: gave_up_text(self.destination) }
            } else {
                WaitStep::SleepThenLook {
                    print: "."@,
                    secs: READINESS_POLL_INTERVAL_SECS,
                    url: self.app_info_url@.0,
                }
            },
        }
    }

    /// What an answer of the application means for the wait.
    pub open spec fn probe_of(self, reply: InfoReply) -> Probe {
        if means_ready(reply, self.expected_version@) {
            Probe::Ready
        } else {
            Probe::NotReady
        }
    }

    /// What to do first.
    pub fn begin(&self) -> (step: WaitStep)
        ensures
            step@ == self.first_step(),
    {
        WaitStep::Look {
            print: "Waiting for application to become ready".to_owned(),
            url: self.app_info_url.as_str().to_owned(),
        }
    }

    /// What to do after a look at the application.
    pub fn after_look(&self, probe: Probe, elapsed_nanos: u128) -> (step: WaitStep)
        ensures
            step@ == self.next_step(probe, elapsed_nanos as nat),
    {
        match probe {
            Probe::Failed { error } => WaitStep::Stop {
                print: "... readiness check failed: ".to_owned().concat(error.as_str()).concat(
                    "\n",
                ),
            },
            Probe::Ready => WaitStep::Stop { print: "... ready\n".to_owned() },
            Probe::NotReady => if elapsed_nanos >= self.timeout_secs as u128 * NANOS_PER_SEC {
                match &self.destination {
                    Destination::Cloud(url) => WaitStep::Stop {
                        print:
                            ".\nApplication deployed, but Spin could not establish readiness\nCheck the Fermyon self-hosted Platform dashboard to see the application status: ".to_owned().concat(
                        url.as_str()).concat("\n"),
                    },
                }
            } else {
                WaitStep::SleepThenLook {
                    print: ".".to_owned(),
                    secs: READINESS_POLL_INTERVAL_SECS,
                    url: self.app_info_url.as_str().to_owned(),
                }
            },
        }
    }

    /// What to do after the application's answer, so many nanoseconds after the
    /// wait began: the wait is over once an application of the expected version is
    /// ready.
    pub fn after_reply(&self, reply: &InfoReply, elapsed_nanos: u128) -> (step: WaitStep)
        ensures
            step@ == self.next_step(self.probe_of(*reply), elapsed_nanos as nat),
    {
        let probe = if is_ready(reply, self.expected_version.as_str()) {
            Probe::Ready
        } else {
            Probe::NotReady
        };
        self.after_look(probe, elapsed_nanos)
    }
}

/// Whether a wait is the one for the application at a base URL, in a version. If
/// there is no time to wait there is none.
pub open spec fn is_wait_for(
    wait: Option<(ReadinessWait, WaitStep)>,
    app_base_url: Seq<char>,
    well_known_prefix: Seq<char>,
    bindle_version: Seq<char>,
    readiness_timeout_secs: u16,
    destination: Destination,
) -> bool {
    match wait {
        None => readiness_timeout_secs == 0,
        Some((wait, step)) => {
            &&& readiness_timeout_secs > 0
            &&& app_info_outcome(app_base_url, well_known_prefix) == Ok::<
                (Seq<char>, Seq<char>),
                Seq<char>,
            >(wait.app_info_url@)
            &&& wait.expected_version@ == bindle_version
            &&& wait.timeout_secs == readiness_timeout_secs
            &&& wait.destination == destination
            &&& step@ == wait.first_step()
        },
    }
}

/// The wait for an application to become ready in a version, with its first
/// step. If there is no time to wait there is none.
pub fn wait_for_ready(
    app_base_url: &Url,
    well_known_prefix: &str,
    bindle_version: &str,
    readiness_timeout_secs: u16,
    destination: Destination,
) -> (wait: Option<(ReadinessWait, WaitStep)>)
    requires
        readiness_timeout_secs == 0 || app_info_outcome(
            app_base_url@.0,
            well_known_prefix@,
        ) is Ok,
    ensures
        is_wait_for(
            wait,
            app_base_url@.0,
            well_known_prefix@,
            bindle_version@,
            readiness_timeout_secs,
            destination,
        ),
{
    if readiness_timeout_secs == 0 {
        return None;
    }
    let wait = ReadinessWait {
        app_info_url: app_info_url(app_base_url, well_known_prefix).unwrap(),
        expected_version: bindle_version.to_owned(),
        timeout_secs: readiness_timeout_secs,
        destination,
    };
    let step = wait.begin();
    Some((wait, step))
}

/// Whether a wait is the one for the application at a base URL, in a version, or
/// the error is the one of a base URL that gives no URL to ask at.
pub open spec fn is_checked_wait_for(
    checked: Result<Option<(ReadinessWait, WaitStep)>, DeployError>,
    app_base_url: Seq<char>,
    well_known_prefix: Seq<char>,
    bindle_version: Seq<char>,
    readiness_timeout_secs: u16,
    destination: Destination,
) -> bool {
    match checked {
        Ok(wait) => is_wait_for(
            wait,
            app_base_url,
            well_known_prefix,
            bindle_version,
            readiness_timeout_secs,
            destination,
        ),
        Err(error) => readiness_timeout_secs > 0 && url_outcome(
            app_info_outcome(app_base_url, well_known_prefix),
        ) == Err::<(Seq<char>, Seq<char>), DeployError<Seq<char>>>(error@),
    }
}

/// The wait for an application to become ready in a version, or the error if
/// there is time to wait but no URL at which the application tells about itself.
pub fn checked_wait_for_ready(
    app_base_url: &Url,
    well_known_prefix: &str,
    bindle_version: &str,
    readiness_timeout_secs: u16,
    destination: Destination,
) -> (checked: Result<Option<(ReadinessWait, WaitStep)>, DeployError>)
    ensures
        is_checked_wait_for(
            checked,
            app_base_url@.0,
            well_known_prefix@,
            bindle_version@,
            readiness_timeout_secs,
            destination,
        ),
{
    if readiness_timeout_secs > 0 {
        if let Err(error) = app_info_url(app_base_url, well_known_prefix) {
            return Err(error);
        }
    }
    Ok(
        wait_for_ready(
            app_base_url,
            well_known_prefix,
            bindle_version,
            readiness_timeout_secs,
            destination,
        ),
    )
}

/// How many looks are taken before the wait ends, if the looks come out like
/// this, each with the time at which it did; all of them if it does not end.
pub open spec fn looks_taken(wait: ReadinessWait, looks: Seq<(Probe, nat)>) -> nat
    decreases looks.len(),
{
    if looks.len() == 0 {
        0
    } else if wait.next_step(looks[0].0, looks[0].1) is Stop {
        1
    } else {
        1 + looks_taken(wait, looks.skip(1))
    }
}

proof fn lemma_looks_taken(wait: ReadinessWait, looks: Seq<(Probe, nat)>, i: int)
    requires
        0 <= i < looks.len(),
        wait.next_step(looks[i].0, looks[i].1) is Stop,
    ensures
        looks_taken(wait, looks) <= i + 1,
    decreases i,
{
    if i > 0 && !(wait.next_step(looks[0].0, looks[0].1) is Stop) {
        lemma_looks_taken(wait, looks.skip(1), i - 1);
    }
}

/// If the time of every look is at least the sleep before it, a wait takes at
/// most half as many looks as it has seconds, rounded up, and one more.
pub proof fn law_wait_ends(wait: ReadinessWait, looks: Seq<(Probe, nat)>)
    requires
        forall|i: int|
            0 <= i < looks.len() ==> #[trigger] looks[i].1 >= i * READINESS_POLL_INTERVAL_SECS
                * NANOS_PER_SEC,
    ensures
        looks_taken(wait, looks) <= (wait.timeout_secs + 1) / 2 + 1,
    decreases looks.len(),
{
    let last = (wait.timeout_secs + 1) / 2;
    if looks.len() > last {
        assert(looks[last].1 >= wait.timeout_secs * NANOS_PER_SEC);
        lemma_looks_taken(wait, looks, last);
    } else {
        lemma_looks_bounded(wait, looks);
    }
}

proof fn lemma_looks_bounded(wait: ReadinessWait, looks: Seq<(Probe, nat)>)
    ensures
        looks_taken(wait, looks) <= looks.len(),
    decreases looks.len(),
{
    if looks.len() > 0 {
        lemma_looks_bounded(wait, looks.skip(1));
    }
}

/// An application that is found not to be ready is looked at again exactly if
/// the time is not over.
pub proof fn law_patience(wait: ReadinessWait, elapsed_nanos: nat)
    ensures
        wait.next_step(Probe::NotReady, elapsed_nanos) is SleepThenLook <==> elapsed_nanos
            < wait.timeout_secs * NANOS_PER_SEC,
{
}

/// An application that tells another version than the expected one, or none, is
/// not ready, whatever the status of its answer.
pub proof fn law_old_version_is_not_ready(status: u16, info: AppInfo, expected_version: Seq<char>)
    requires
        !runs_version(info, expected_version),
    ensures
        !means_ready(
            (InfoReply::Answered { status, app_info: Some(info) }),
            expected_version,
        ),
{
}

/// An answer whose status is no success is not ready, whatever it tells about the
/// application and whatever version is expected; nor is an answer that is missing.
pub proof fn law_only_success_is_ready(
    status: u16,
    app_info: Option<AppInfo>,
    expected_version: Seq<char>,
)
    requires
        status < 200 || status >= 300,
    ensures
        !means_ready((InfoReply::Answered { status, app_info }), expected_version),
        !means_ready(InfoReply::Missing, expected_version),
{
}

/// A successful answer is ready if it tells the expected version or does not tell
/// what the application is, and is not if it tells another version or none.
pub proof fn law_success_goes_by_the_version(
    status: u16,
    app_info: Option<AppInfo>,
    expected_version: Seq<char>,
)
    requires
        200 <= status < 300,
    ensures
        app_info is None ==> means_ready(
            (InfoReply::Answered { status, app_info }),
            expected_version,
        ),
        app_info matches Some(info) ==> (means_ready(
            (InfoReply::Answered { status, app_info }),
            expected_version,
        ) <==> (info.bindle_version matches Some(active) && active@ == expected_version)),
{
}

/// Which answers are ready depends on nothing but the answer and the version: a
/// wait stops as ready on an answer exactly if the answer is a success that does
/// not tell another version than the one that the wait is for.
pub proof fn law_a_wait_stops_as_ready(wait: ReadinessWait, reply: InfoReply, elapsed_nanos: nat)
    ensures
        ({
            let stops = WaitStep::<Seq<char>>::Stop { print: "... ready\n"@ };
            let ready = reply matches InfoReply::Answered { status, app_info } && 200 <= status
                < 300 && (app_info matches Some(info) ==> (info.bindle_version matches Some(active)
                && active@ == wait.expected_version@));
            &&& ready ==> wait.next_step(wait.probe_of(reply), elapsed_nanos) == stops
            &&& !ready ==> wait.next_step(wait.probe_of(reply), elapsed_nanos) != stops
        }),
{
    reveal_strlit("... ready\n");
    reveal_strlit(
        ".\nApplication deployed, but Spin could not establish readiness\nCheck the Fermyon self-hosted Platform dashboard to see the application status: ",
    );
    reveal_strlit("\n");
    let step = wait.next_step(wait.probe_of(reply), elapsed_nanos);
    if step is Stop && !(wait.probe_of(reply) is Ready) {
        assert(step->Stop_print[1] == '\n');
        assert("... ready\n"@[1] == '.');
    }
}

/// An application that is not ready is asked again, at the same URL, two seconds
/// later, as long as less than the seconds of the wait have passed.
pub proof fn law_a_wait_goes_on(wait: ReadinessWait, elapsed_nanos: nat)
    requires
        elapsed_nanos < wait.timeout_secs * 1_000_000_000,
    ensures
        wait.next_step(Probe::NotReady, elapsed_nanos) == (WaitStep::<Seq<char>>::SleepThenLook {
            print: "."@,
            secs: 2,
            url: wait.app_info_url@.0,
        }),
{
}

/// Once the seconds of the wait have passed, an application that is not ready is
/// given up, and the user is told where the dashboard is.
pub proof fn law_a_wait_gives_up(wait: ReadinessWait, elapsed_nanos: nat, dashboard: String)
    requires
        elapsed_nanos >= wait.timeout_secs * 1_000_000_000,
        wait.destination == Destination::Cloud(dashboard),
    ensures
        wait.next_step(Probe::NotReady, elapsed_nanos) == (WaitStep::<Seq<char>>::Stop {
            print:
                ".\nApplication deployed, but Spin could not establish readiness\nCheck the Fermyon self-hosted Platform dashboard to see the application status: "@
                + dashboard@ + "\n"@,
        }),
{
}

/// A look that failed ends the wait, and its error is told.
pub proof fn law_a_failed_look_ends_a_wait(wait: ReadinessWait, error: String, elapsed_nanos: nat)
    ensures
        wait.next_step((Probe::Failed { error }), elapsed_nanos) == (WaitStep::<Seq<char>>::Stop {
            print: "... readiness check failed: "@ + error@ + "\n"@,
        }),
{
}

/// A wait that began is that of its application: it asks at the URL that the base
/// URL gives, expects the version, has the time and tells of the destination that
/// it was begun with, and asks first of all. There is no wait exactly if there is
/// no time for one.
pub proof fn law_a_wait_is_that_of_its_application(
    wait: Option<(ReadinessWait, WaitStep)>,
    app_base_url: Seq<char>,
    well_known_prefix: Seq<char>,
    bindle_version: Seq<char>,
    readiness_timeout_secs: u16,
    destination: Destination,
)
    requires
        is_wait_for(
            wait,
            app_base_url,
            well_known_prefix,
            bindle_version,
            readiness_timeout_secs,
            destination,
        ),
    ensures
        wait is None <==> readiness_timeout_secs == 0,
        wait matches Some((wait, step)) ==> {
            &&& app_info_outcome(app_base_url, well_known_prefix) == Ok::<
                (Seq<char>, Seq<char>),
                Seq<char>,
            >(wait.app_info_url@)
            &&& wait.expected_version@ == bindle_version
            &&& wait.timeout_secs == readiness_timeout_secs
            &&& wait.destination == destination
            &&& step@ == (WaitStep::<Seq<char>>::Look {
                print: "Waiting for application to become ready"@,
                url: wait.app_info_url@.0,
            })
        },
{
}

/// A wait that is not refused is the one that was asked for.
pub proof fn law_a_checked_wait_is_the_wait(
    wait: Option<(ReadinessWait, WaitStep)>,
    app_base_url: Seq<char>,
    well_known_prefix: Seq<char>,
    bindle_version: Seq<char>,
    readiness_timeout_secs: u16,
    destination: Destination,
)
    ensures
        is_checked_wait_for(
            Ok(wait),
            app_base_url,
            well_known_prefix,
            bindle_version,
            readiness_timeout_secs,
            destination,
        ) <==> is_wait_for(
            wait,
            app_base_url,
            well_known_prefix,
            bindle_version,
            readiness_timeout_secs,
            destination,
        ),
{
}

/// A wait is refused only for want of a URL to ask at, never if there is no time
/// to wait, and the error is the one that the URL gave.
pub proof fn law_a_wait_is_refused_for_its_url(
    error: DeployError,
    app_base_url: Seq<char>,
    well_known_prefix: Seq<char>,
    bindle_version: Seq<char>,
    readiness_timeout_secs: u16,
    destination: Destination,
)
    requires
        is_checked_wait_for(
            Err(error),
            app_base_url,
            well_known_prefix,
            bindle_version,
            readiness_timeout_secs,
            destination,
        ),
    ensures
        readiness_timeout_secs > 0,
        app_info_outcome(app_base_url, well_known_prefix) matches Err(cause) && error@
            == (DeployError::<Seq<char>>::InvalidUrl { cause }),
{
}

} // verus!
