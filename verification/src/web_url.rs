//! URLs, and the ones that a deployment derives from others.

use vstd::prelude::*;
use vstd::string::*;

use crate::error::{outcome, DeployError};
use crate::outside::{before_colon, joined_url, parsed_url, url_join, url_parse};
use crate::text::{law_leading_repetitions_go, repeated, trim_start_text, without_leading};

verus! {

/// A URL. Its view is its serialization together with its `Debug` form.
#[derive(Debug)]
pub struct Url {
    text: String,
    scheme: String,
    debug: String,
}

impl View for Url {
    type V = (Seq<char>, Seq<char>);

    closed spec fn view(&self) -> (Seq<char>, Seq<char>) {
        (self.text@, self.debug@)
    }
}

impl Url {
    #[verifier::type_invariant]
    spec fn scheme_leads(self) -> bool {
        self.scheme@ == before_colon(self.text@)
    }

    /// The URL that a text denotes, if it denotes one.
    pub fn parse(input: &str) -> (url: Result<Url, DeployError>)
        ensures
            outcome(url) == url_outcome(parsed_url(input@)),
    {
        match url_parse(input) {
            Ok((text, scheme, debug)) => Ok(Url { text, scheme, debug }),
            Err(cause) => Err(DeployError::InvalidUrl { cause }),
        }
    }

    /// The URL that a reference denotes from this one, if it denotes one.
    pub fn join(&self, reference: &str) -> (url: Result<Url, DeployError>)
        ensures
            outcome(url) == url_outcome(joined_url(self@.0, reference@)),
    {
        match url_join(self.text.as_str(), reference) {
            Ok((text, scheme, debug)) => Ok(Url { text, scheme, debug }),
            Err(cause) => Err(DeployError::InvalidUrl { cause }),
        }
    }

    /// The serialization of the URL.
    pub fn as_str(&self) -> (text: &str)
        ensures
            text@ == self@.0,
    {
        self.text.as_str()
    }

    /// The scheme of the URL: what stands before its first colon.
    pub fn scheme(&self) -> (scheme: &str)
        ensures
            scheme@ == before_colon(self@.0),
    {
        proof {
            use_type_invariant(&*self);
        }
        self.scheme.as_str()
    }

    /// The URL with its parts spelled out, as error messages show it.
    pub fn debug(&self) -> (debug: &str)
        ensures
            debug@ == self@.1,
    {
        self.debug.as_str()
    }
}

/// The outcome of reading a URL: the URL, or the error with its message.
pub open spec fn url_outcome(parsed: Result<(Seq<char>, Seq<char>), Seq<char>>) -> Result<
    (Seq<char>, Seq<char>),
    DeployError<Seq<char>>,
> {
    match parsed {
        Ok(url) => Ok(url),
        Err(cause) => Err(DeployError::InvalidUrl { cause }),
    }
}

/// The text of the base URL of an application: its domain, under the scheme of
/// the platform.
pub open spec fn app_base_spelled(scheme: Seq<char>, app_domain: Seq<char>) -> Seq<char> {
    scheme + "://"@ + app_domain + "/"@
}

/// The base URL of an application, once its text has been read as a URL.
pub open spec fn app_base_outcome(
    app_domain: Seq<char>,
    cloud_url: (Seq<char>, Seq<char>),
    parsed: Result<(Seq<char>, Seq<char>), DeployError<Seq<char>>>,
) -> Result<(Seq<char>, Seq<char>), DeployError<Seq<char>>> {
    match parsed {
        Err(DeployError::InvalidUrl { cause }) => Err(
            DeployError::InvalidBaseUrl { domain: app_domain, cloud_url: cloud_url.1, cause },
        ),
        other => other,
    }
}

/// The text of an application's base URL.
pub fn app_base_text(scheme: &str, app_domain: &str) -> (text: String)
    ensures
        text@ == app_base_spelled(scheme@, app_domain@),
{
    scheme.to_owned().concat("://").concat(app_domain).concat("/")
}

/// The base URL of an application, from what its text was read as: an error
/// names the domain and the platform.
pub fn told_with_domain(
    app_domain: &str,
    cloud_url: &Url,
    parsed: Result<Url, DeployError>,
) -> (url: Result<Url, DeployError>)
    ensures
        outcome(url) == app_base_outcome(app_domain@, cloud_url@, outcome(parsed)),
{
    match parsed {
        Err(DeployError::InvalidUrl { cause }) => Err(
            DeployError::InvalidBaseUrl {
                domain: app_domain.to_owned(),
                cloud_url: cloud_url.debug().to_owned(),
                cause,
            },
        ),
        other => other,
    }
}

/// The base URL of an application. The scheme of applications is taken to be
/// that of the platform.
pub fn build_app_base_url(app_domain: &str, cloud_url: &Url) -> (url: Result<Url, DeployError>)
    ensures
        outcome(url) == app_base_outcome(
            app_domain@,
            cloud_url@,
            url_outcome(parsed_url(app_base_spelled(before_colon(cloud_url@.0), app_domain@))),
        ),
{
    let text = app_base_text(cloud_url.scheme(), app_domain);
    told_with_domain(app_domain, cloud_url, Url::parse(text.as_str()))
}

/// The URL at which a platform tells whether it is healthy.
pub fn healthz_url(base_url: &Url) -> (url: Result<Url, DeployError>)
    ensures
        outcome(url) == url_outcome(joined_url(base_url@.0, "healthz"@)),
{
    base_url.join("healthz")
}

/// A well-known path as a reference: without leading slashes.
pub fn well_known_reference(well_known_prefix: &str) -> (reference: String)
    ensures
        reference@ == without_leading(well_known_prefix@, "/"@),
{
    proof {
        reveal_strlit("/");
    }
    trim_start_text(well_known_prefix, "/")
}

/// The directory of an application's well-known resources.
pub open spec fn well_known_url(base: Seq<char>, well_known_prefix: Seq<char>) -> Result<
    (Seq<char>, Seq<char>),
    Seq<char>,
> {
    joined_url(base, without_leading(well_known_prefix, "/"@))
}

/// Where an application tells about itself: the resource `info` in the
/// directory of its well-known resources.
pub open spec fn app_info_outcome(base: Seq<char>, well_known_prefix: Seq<char>) -> Result<
    (Seq<char>, Seq<char>),
    Seq<char>,
> {
    match well_known_url(base, well_known_prefix) {
        Ok(directory) => joined_url(directory.0, "info"@),
        Err(cause) => Err(cause),
    }
}

/// The URL at which an application tells about itself, if there is one.
pub fn app_info_url(app_base_url: &Url, well_known_prefix: &str) -> (url: Result<Url, DeployError>)
    ensures
        outcome(url) == url_outcome(app_info_outcome(app_base_url@.0, well_known_prefix@)),
{
    match app_base_url.join(well_known_reference(well_known_prefix).as_str()) {
        Ok(directory) => directory.join("info"),
        Err(error) => Err(error),
    }
}

/// What is read as a URL stays that URL, and what is not keeps the cause.
pub proof fn law_urls_are_read_unchanged(parsed: Result<(Seq<char>, Seq<char>), Seq<char>>)
    ensures
        parsed matches Ok(url) ==> url_outcome(parsed) == Ok::<
            (Seq<char>, Seq<char>),
            DeployError<Seq<char>>,
        >(url),
        parsed matches Err(cause) ==> url_outcome(parsed) == Err::<
            (Seq<char>, Seq<char>),
            DeployError<Seq<char>>,
        >(DeployError::InvalidUrl { cause }),
{
}

/// The scheme of a text is what stands in front of its first colon.
pub proof fn law_the_scheme_leads(scheme: Seq<char>, rest: Seq<char>)
    requires
        !scheme.contains(':'),
    ensures
        before_colon(scheme + seq![':'] + rest) == scheme,
    decreases scheme.len(),
{
    let text = scheme + seq![':'] + rest;
    if scheme.len() == 0 {
        assert(text[0] == ':');
        assert(before_colon(text) =~= scheme);
    } else {
        let shorter = scheme.skip(1);
        assert(scheme[0] != ':') by {
            if scheme[0] == ':' {
                assert(scheme.contains(':'));
            }
        }
        assert(!shorter.contains(':')) by {
            if shorter.contains(':') {
                let k = choose|k: int| 0 <= k < shorter.len() && shorter[k] == ':';
                assert(scheme[k + 1] == ':');
            }
        }
        law_the_scheme_leads(shorter, rest);
        assert(text.skip(1) =~= shorter + seq![':'] + rest);
        assert(before_colon(text) =~= scheme);
    }
}

/// The text of a base URL is the scheme, a colon and two slashes, the domain, and a
/// slash.
pub proof fn law_the_base_url_spells_scheme_and_domain(scheme: Seq<char>, app_domain: Seq<char>)
    ensures
        ({
            let text = app_base_spelled(scheme, app_domain);
            let domain_at = scheme.len() as int + 3;
            &&& text.len() == scheme.len() + app_domain.len() + 4
            &&& text.take(scheme.len() as int) == scheme
            &&& text.subrange(scheme.len() as int, domain_at) == seq![':', '/', '/']
            &&& text.subrange(domain_at, domain_at + app_domain.len() as int) == app_domain
            &&& text[text.len() - 1] == '/'
        }),
{
    reveal_strlit("://");
    reveal_strlit("/");
}

/// A base URL that can be read is used as it is. One that cannot is told with the
/// domain and with the platform's URL spelled out, above the cause.
pub proof fn law_base_urls_are_told_with_their_domain(
    app_domain: Seq<char>,
    cloud_url: (Seq<char>, Seq<char>),
    url: (Seq<char>, Seq<char>),
    cause: Seq<char>,
)
    ensures
        app_base_outcome(app_domain, cloud_url, Ok(url)) == Ok::<
            (Seq<char>, Seq<char>),
            DeployError<Seq<char>>,
        >(url),
        app_base_outcome(app_domain, cloud_url, Err(DeployError::InvalidUrl { cause })) == Err::<
            (Seq<char>, Seq<char>),
            DeployError<Seq<char>>,
        >(
            DeployError::InvalidBaseUrl { domain: app_domain, cloud_url: cloud_url.1, cause },
        ),
{
}

/// An application tells about itself at `info` in the directory that the
/// well-known path, without any slashes in front, denotes from its base URL. Where
/// one of the two denotes nothing, the cause is that.
pub proof fn law_the_info_is_in_the_well_known_directory(
    base: Seq<char>,
    slashes: nat,
    path: Seq<char>,
)
    requires
        path.len() == 0 || path[0] != '/',
    ensures
        ({
            let prefix = repeated("/"@, slashes) + path;
            &&& joined_url(base, path) matches Ok(directory) ==> app_info_outcome(base, prefix)
                == joined_url(directory.0, "info"@)
            &&& joined_url(base, path) is Err ==> app_info_outcome(base, prefix) == joined_url(
                base,
                path,
            )
        }),
{
    reveal_strlit("/");
    if "/"@.is_prefix_of(path) {
        assert("/"@[0] == path.subrange(0, 1)[0]);
    }
    law_leading_repetitions_go("/"@, slashes, path);
}

} // verus!
