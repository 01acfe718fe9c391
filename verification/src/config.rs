//! The configuration of one run: which build, which job, how often to poll.
//!
//! The values come from the job's environment. Reading the environment is
//! the caller's part; what the values mean is decided here.

use vstd::prelude::*;
use vstd::string::StringExecFns;
use crate::decimal::{parse_number, parsed_number};
use crate::error::{Error, ErrorView};
use crate::role::{is_leader, leads};
use crate::text::optional_text;

verus! {

/// The environment variable that holds the number of this job.
pub const TRAVIS_JOB_NUMBER: &'static str = "TRAVIS_JOB_NUMBER";

/// The environment variable that holds the identifier of the build.
pub const TRAVIS_BUILD_ID: &'static str = "TRAVIS_BUILD_ID";

/// The environment variable that may hold the polling interval.
pub const POLLING_INTERVAL: &'static str = "LEADER_POLLING_INTERVAL";

/// The base address of the status service.
pub const TRAVIS_API_URL: &'static str = "https://api.travis-ci.org";

/// The polling interval, in seconds, where the environment sets none.
pub const DEFAULT_POLLING_INTERVAL: u64 = 5;

/// The information of a full build.
#[derive(Debug, PartialEq, Eq)]
pub struct Build {
    travis_api_url: String,
    build_id: String,
    job_number: String,
    polling_interval: u64,
}

/// The mathematical value of a [`Build`].
pub struct BuildView {
    /// The base address of the status service.
    pub api_url: Seq<char>,
    /// The identifier of the build.
    pub build_id: Seq<char>,
    /// The number of this job, `<build>.<index>`.
    pub job_number: Seq<char>,
    /// The seconds to sleep between two polls.
    pub polling_interval: u64,
}

impl BuildView {
    /// This job is the leader of its build.
    pub open spec fn is_leader(self) -> bool {
        leads(self.job_number)
    }

    /// The address that answers with the snapshot of the build.
    pub open spec fn matrix_url(self) -> Seq<char> {
        self.api_url + "/builds/"@ + self.build_id
    }
}

impl View for Build {
    type V = BuildView;

    closed spec fn view(&self) -> BuildView {
        BuildView {
            api_url: self.travis_api_url@,
            build_id: self.build_id@,
            job_number: self.job_number@,
            polling_interval: self.polling_interval,
        }
    }
}

/// The message of the error for a variable that the environment lacks.
pub open spec fn missing_variable_message(name: Seq<char>) -> Seq<char> {
    "Missing environment variable: "@ + name
}

/// The message of the error for a polling interval that is no number.
pub open spec fn unparsable_interval_message() -> Seq<char> {
    "Can't parse what should be an integer"@
}

/// The message of the error for a polling interval of zero seconds.
pub open spec fn zero_interval_message() -> Seq<char> {
    "The polling interval must be a positive number of seconds"@
}

/// The polling interval that the environment asks for: the default where it
/// says nothing, else the positive number that its text denotes.
pub open spec fn interval_from(text: Option<Seq<char>>) -> Result<u64, ErrorView> {
    match text {
        None => Ok(DEFAULT_POLLING_INTERVAL),
        Some(text) => match parsed_number(text) {
            None => Err(ErrorView::Generic(unparsable_interval_message())),
            Some(seconds) => if seconds == 0 {
                Err(ErrorView::Generic(zero_interval_message()))
            } else {
                Ok(seconds)
            },
        },
    }
}

/// The configuration that the three values of the environment give. The
/// build's identifier is looked at first, then the job's number, then the
/// interval; the first that is wrong decides the error.
pub open spec fn configured(
    build_id: Option<Seq<char>>,
    job_number: Option<Seq<char>>,
    polling_interval: Option<Seq<char>>,
) -> Result<BuildView, ErrorView> {
    if build_id is None {
        Err(ErrorView::Generic(missing_variable_message(TRAVIS_BUILD_ID@)))
    } else if job_number is None {
        Err(ErrorView::Generic(missing_variable_message(TRAVIS_JOB_NUMBER@)))
    } else {
        match interval_from(polling_interval) {
            Err(error) => Err(error),
            Ok(seconds) => Ok(
                BuildView {
                    api_url: TRAVIS_API_URL@,
                    build_id: build_id->0,
                    job_number: job_number->0,
                    polling_interval: seconds,
                },
            ),
        }
    }
}

/// The error for a variable that the environment lacks.
fn missing_variable(name: &str) -> (error: Error)
    ensures
        error@ == ErrorView::Generic(missing_variable_message(name@)),
{
    Error::from_string("Missing environment variable: ".to_owned().concat(name))
}

/// The polling interval that the environment asks for.
fn interval(text: Option<String>) -> (seconds: Result<u64, Error>)
    ensures
        match seconds {
            Ok(seconds) => interval_from(optional_text(text)) == Ok::<u64, ErrorView>(seconds),
            Err(error) => interval_from(optional_text(text)) == Err::<u64, ErrorView>(error@),
        },
{
    match text {
        None => Ok(DEFAULT_POLLING_INTERVAL),
        Some(text) => match parse_number(text.as_str()) {
            None => Err(Error::from_str("Can't parse what should be an integer")),
            Some(seconds) => if seconds == 0 {
                Err(Error::from_str("The polling interval must be a positive number of seconds"))
            } else {
                Ok(seconds)
            },
        },
    }
}

impl Build {
    /// A build polls at least one second apart.
    #[verifier::type_invariant]
    spec fn polls_apart(&self) -> bool {
        self.polling_interval >= 1
    }

    /// Make the configuration from the values of the environment.
    ///
    /// The arguments are the values of the variables `TRAVIS_BUILD_ID`,
    /// `TRAVIS_JOB_NUMBER` and `LEADER_POLLING_INTERVAL`, `None` for
    /// one that is not set. The first two are required. The interval is
    /// a positive number of seconds, 5 where the variable is not set.
    pub fn from_env(
        build_id: Option<String>,
        job_number: Option<String>,
        polling_interval: Option<String>,
    ) -> (made: Result<Build, Error>)
        ensures
            match made {
                Ok(build) => configured(
                    optional_text(build_id),
                    optional_text(job_number),
                    optional_text(polling_interval),
                ) == Ok::<BuildView, ErrorView>(build@),
                Err(error) => configured(
                    optional_text(build_id),
                    optional_text(job_number),
                    optional_text(polling_interval),
                ) == Err::<BuildView, ErrorView>(error@),
            },
            made matches Ok(build) ==> build@.polling_interval >= 1,
    {
        let build_id = match build_id {
            Some(build_id) => build_id,
            None => { return Err(missing_variable(TRAVIS_BUILD_ID)); },
        };
        let job_number = match job_number {
            Some(job_number) => job_number,
            None => { return Err(missing_variable(TRAVIS_JOB_NUMBER)); },
        };
        let polling_interval = match interval(polling_interval) {
            Ok(seconds) => seconds,
            Err(error) => { return Err(error); },
        };
        Ok(
            Build {
                travis_api_url: TRAVIS_API_URL.to_owned(),
                build_id,
                job_number,
                polling_interval,
            },
        )
    }

    /// Whether or not the current environment is the build leader.
    pub fn is_leader(&self) -> (leader: bool)
        ensures
            leader == self@.is_leader(),
    {
        is_leader(self.job_number.as_str())
    }

    /// The identifier of the build.
    pub fn build_id(&self) -> (id: &str)
        ensures
            id@ == self@.build_id,
    {
        self.build_id.as_str()
    }

    /// The number of this job.
    pub fn job_number(&self) -> (number: &str)
        ensures
            number@ == self@.job_number,
    {
        self.job_number.as_str()
    }

    /// The seconds to sleep between two polls.
    pub fn polling_interval(&self) -> (seconds: u64)
        ensures
            seconds == self@.polling_interval,
            seconds >= 1,
    {
        proof {
            use_type_invariant(self);
        }
        self.polling_interval
    }

    /// The address that answers with the snapshot of the build.
    pub fn matrix_url(&self) -> (url: String)
        ensures
            url@ == self@.matrix_url(),
    {
        let mut url = self.travis_api_url.clone();
        url.append("/builds/");
        url.append(self.build_id.as_str());
        url
    }
}

} // verus!
