//! One attempt to get through the proxy: reading the reply to the probe,
//! logging in where the proxy asks for it, and naming what came of it.

use crate::options::Options;
use crate::response::{is_redirect_code, location_of, status_is_redirection, utf8_text, Response};
use vstd::prelude::*;
use vstd::utf8::{decode_utf8, decode_utf8_encode_utf8, encode_utf8, valid_utf8};

verus! {

/// The seconds after which a request that has got no reply is given up. A
/// request that runs into this limit has failed like one that could not be
/// sent.
pub const REQUEST_TIMEOUT_SECS: u64 = 10;

/// Why an attempt could not be carried through. It is the only outcome after
/// which an attempt is made again.
#[derive(Debug, PartialEq, Eq)]
pub enum Failure {
    /// A request could not be sent or its reply not be received; the text
    /// says why.
    Request(String),
    /// The proxy redirected, but the target it named is not UTF-8 and so
    /// has no text.
    LocationNotUtf8,
}

/// A [`Failure`] as a mathematical value.
pub enum FailureView {
    Request(Seq<char>),
    LocationNotUtf8,
}

impl View for Failure {
    type V = FailureView;

    open spec fn view(&self) -> FailureView {
        match self {
            Failure::Request(detail) => FailureView::Request(detail@),
            Failure::LocationNotUtf8 => FailureView::LocationNotUtf8,
        }
    }
}

/// What the reply to the probe shows.
#[derive(Debug, PartialEq, Eq)]
pub enum CheckStatus {
    /// No redirection: the proxy asks for no login.
    Success,
    /// Redirection to the login page at the given address.
    Redirect(String),
    /// Redirection that names no target.
    RedirectError,
}

/// A [`CheckStatus`] as a mathematical value.
pub enum CheckStatusView {
    Success,
    Redirect(Seq<char>),
    RedirectError,
}

impl View for CheckStatus {
    type V = CheckStatusView;

    open spec fn view(&self) -> CheckStatusView {
        match self {
            CheckStatus::Success => CheckStatusView::Success,
            CheckStatus::Redirect(location) => CheckStatusView::Redirect(location@),
            CheckStatus::RedirectError => CheckStatusView::RedirectError,
        }
    }
}

/// What the login page made of the credentials.
#[derive(Debug, Clone, Copy, PartialEq, Eq, Structural)]
pub enum LoginStatus {
    /// The proxy redirected on, as it does once it has accepted a login.
    Success,
    /// The proxy answered without redirecting: it did not accept the login.
    Failed,
}

/// How one attempt ended.
#[derive(Debug, PartialEq, Eq)]
pub enum CheckOutcome {
    /// The probe was not redirected.
    NoAuthRequired,
    /// The probe was redirected and the login accepted.
    RedirectedAndLoggedIn,
    /// The probe was redirected and the login not accepted.
    RedirectedButLoginFailed,
    /// The probe was redirected to nowhere; no login was tried.
    RedirectedWithoutLocation,
    /// The attempt could not be carried through.
    TransportError(Failure),
}

/// A [`CheckOutcome`] as a mathematical value.
pub enum CheckOutcomeView {
    NoAuthRequired,
    RedirectedAndLoggedIn,
    RedirectedButLoginFailed,
    RedirectedWithoutLocation,
    TransportError(FailureView),
}

impl View for CheckOutcome {
    type V = CheckOutcomeView;

    open spec fn view(&self) -> CheckOutcomeView {
        match self {
            CheckOutcome::NoAuthRequired => CheckOutcomeView::NoAuthRequired,
            CheckOutcome::RedirectedAndLoggedIn => CheckOutcomeView::RedirectedAndLoggedIn,
            CheckOutcome::RedirectedButLoginFailed => CheckOutcomeView::RedirectedButLoginFailed,
            CheckOutcome::RedirectedWithoutLocation => CheckOutcomeView::RedirectedWithoutLocation,
            CheckOutcome::TransportError(failure) => CheckOutcomeView::TransportError(failure@),
        }
    }
}

/// What came of a request that an attempt asked for.
pub enum Reply {
    /// The probe was sent: its reply, or why there is none.
    Detect(Result<Response, String>),
    /// The login was sent: the status code of its reply, or why there is
    /// none.
    Login(Result<u16, String>),
}

/// Where an attempt stands once a reply has been read.
#[derive(Debug, PartialEq, Eq)]
pub enum Progress {
    /// The login is to be sent to this address.
    Login(String),
    /// The attempt is over.
    Done(CheckOutcome),
}

/// A [`Progress`] as a mathematical value.
pub enum ProgressView {
    Login(Seq<char>),
    Done(CheckOutcomeView),
}

impl View for Progress {
    type V = ProgressView;

    open spec fn view(&self) -> ProgressView {
        match self {
            Progress::Login(location) => ProgressView::Login(location@),
            Progress::Done(outcome) => ProgressView::Done(outcome@),
        }
    }
}

/// What the reply to the probe shows. Any status outside the redirection
/// class means that no login is asked for. A redirection points to the login
/// page by its first `location` header, whose bytes are read as UTF-8; one
/// without such a header is noted as such, and one whose header is not UTF-8
/// is a failure.
pub open spec fn detect_model(reply: Result<Response, String>) -> Result<
    CheckStatusView,
    FailureView,
> {
    match reply {
        Err(detail) => Err(FailureView::Request(detail@)),
        Ok(response) => if !is_redirect_code(response.status) {
            Ok(CheckStatusView::Success)
        } else {
            match location_of(response.headers@) {
                None => Ok(CheckStatusView::RedirectError),
                Some(value) => if valid_utf8(value) {
                    Ok(CheckStatusView::Redirect(decode_utf8(value)))
                } else {
                    Err(FailureView::LocationNotUtf8)
                },
            }
        },
    }
}

/// What the reply to the login shows: a redirection is the proxy's sign that
/// it accepted the login, and every other status that it did not.
pub open spec fn login_model(reply: Result<u16, String>) -> Result<LoginStatus, FailureView> {
    match reply {
        Err(detail) => Err(FailureView::Request(detail@)),
        Ok(status) => if is_redirect_code(status) {
            Ok(LoginStatus::Success)
        } else {
            Ok(LoginStatus::Failed)
        },
    }
}

/// Where an attempt stands after a reply: a probe that was redirected to an
/// address in UTF-8 leads to the login, and everything else ends the attempt.
pub open spec fn attempt_model(reply: Reply) -> ProgressView {
    match reply {
        Reply::Detect(probe) => match detect_model(probe) {
            Ok(CheckStatusView::Success) => ProgressView::Done(CheckOutcomeView::NoAuthRequired),
            Ok(CheckStatusView::Redirect(location)) => ProgressView::Login(location),
            Ok(CheckStatusView::RedirectError) => ProgressView::Done(
                CheckOutcomeView::RedirectedWithoutLocation,
            ),
            Err(failure) => ProgressView::Done(CheckOutcomeView::TransportError(failure)),
        },
        Reply::Login(login) => match login_model(login) {
            Ok(LoginStatus::Success) => ProgressView::Done(CheckOutcomeView::RedirectedAndLoggedIn),
            Ok(LoginStatus::Failed) => ProgressView::Done(
                CheckOutcomeView::RedirectedButLoginFailed,
            ),
            Err(failure) => ProgressView::Done(CheckOutcomeView::TransportError(failure)),
        },
    }
}

/// The view of what `detect_proxy` returns.
pub open spec fn status_view(status: Result<CheckStatus, Failure>) -> Result<
    CheckStatusView,
    FailureView,
> {
    match status {
        Ok(found) => Ok(found@),
        Err(failure) => Err(failure@),
    }
}

/// The view of what `login_proxy` returns.
pub open spec fn login_view(status: Result<LoginStatus, Failure>) -> Result<
    LoginStatus,
    FailureView,
> {
    match status {
        Ok(found) => Ok(found),
        Err(failure) => Err(failure@),
    }
}

/// The fields of the login form: the name and the password, under the names
/// that the proxy's login page reads them by.
pub open spec fn form_model(login: Seq<char>, pass: Seq<char>) -> Seq<(Seq<char>, Seq<char>)> {
    seq![("login"@, login), ("pass"@, pass)]
}

/// The fields of a form as mathematical values.
pub open spec fn form_view(form: Vec<(String, String)>) -> Seq<(Seq<char>, Seq<char>)> {
    form@.map_values(|field: (String, String)| (field.0@, field.1@))
}

/// Checks whether the proxy asks for a login, and logs in where it does.
pub struct ProxyChecker<'a> {
    detect_url: &'a str,
    login: &'a str,
    pass: &'a str,
    error_retry: usize,
    error_interval: u64,
}

/// A checker's settings as mathematical values.
pub struct CheckerView {
    /// Address that is probed.
    pub detect_url: Seq<char>,
    /// Name handed to the login page.
    pub login: Seq<char>,
    /// Password handed to the login page.
    pub pass: Seq<char>,
    /// Number of attempts within one check.
    pub error_retry: usize,
    /// Seconds between a failed attempt and the next.
    pub error_interval: u64,
}

impl<'a> View for ProxyChecker<'a> {
    type V = CheckerView;

    closed spec fn view(&self) -> CheckerView {
        CheckerView {
            detect_url: self.detect_url@,
            login: self.login@,
            pass: self.pass@,
            error_retry: self.error_retry,
            error_interval: self.error_interval,
        }
    }
}

impl<'a> ProxyChecker<'a> {
    /// A checker with the settings that `options` holds.
    pub fn new<'p>(options: &'p Options) -> (checker: ProxyChecker<'p>)
        ensures
            checker@ == (CheckerView {
                detect_url: options@.detect_url,
                login: options@.login,
                pass: options@.pass,
                error_retry: options@.error_retry,
                error_interval: options@.error_interval,
            }),
    {
        ProxyChecker {
            detect_url: options.detect_url(),
            login: options.login(),
            pass: options.pass(),
            error_retry: options.error_retry(),
            error_interval: options.error_interval(),
        }
    }

    /// The address to send the probe to.
    pub fn detect_url(&self) -> (url: &'a str)
        ensures
            url@ == self@.detect_url,
    {
        self.detect_url
    }

    /// The number of attempts within one check.
    pub fn error_retry(&self) -> (attempts: usize)
        ensures
            attempts == self@.error_retry,
    {
        self.error_retry
    }

    /// The seconds between a failed attempt and the next.
    pub fn error_interval(&self) -> (secs: u64)
        ensures
            secs == self@.error_interval,
    {
        self.error_interval
    }

    /// The fields to send to the login page, in the order in which they are
    /// sent.
    pub fn login_form(&self) -> (form: Vec<(String, String)>)
        ensures
            form_view(form) == form_model(self@.login, self@.pass),
    {
        let form = vec![
            ("login".to_owned(), self.login.to_owned()),
            ("pass".to_owned(), self.pass.to_owned()),
        ];
        assert(form_view(form) =~= form_model(self@.login, self@.pass));
        form
    }

    /// Reads the reply to the probe. A reply that is no redirection shows
    /// that no login is needed, whatever else its status says. A redirection
    /// gives the address of the login page: the text that the bytes of its
    /// first `location` header encode in UTF-8, whole and unchanged, so that
    /// a relative address stays relative. Without such a header it is noted
    /// as a redirection to nowhere, which is no failure. The failures are a
    /// probe that got no reply and a `location` that is not UTF-8.
    pub fn detect_proxy(&self, reply: Result<Response, String>) -> (status: Result<
        CheckStatus,
        Failure,
    >)
        ensures
            status_view(status) == detect_model(reply),
            reply is Ok && !is_redirect_code(reply->Ok_0.status) ==> status == Ok::<
                CheckStatus,
                Failure,
            >(CheckStatus::Success),
            reply is Ok && is_redirect_code(reply->Ok_0.status) && location_of(
                reply->Ok_0.headers@,
            ) is None ==> status == Ok::<CheckStatus, Failure>(CheckStatus::RedirectError),
            reply is Ok && is_redirect_code(reply->Ok_0.status) && location_of(
                reply->Ok_0.headers@,
            ) is Some && valid_utf8(location_of(reply->Ok_0.headers@)->Some_0) ==> status is Ok
                && status->Ok_0 is Redirect && status->Ok_0->Redirect_0@ == decode_utf8(
                location_of(reply->Ok_0.headers@)->Some_0,
            ) && encode_utf8(status->Ok_0->Redirect_0@) == location_of(
                reply->Ok_0.headers@,
            )->Some_0,
            reply is Ok && is_redirect_code(reply->Ok_0.status) && location_of(
                reply->Ok_0.headers@,
            ) is Some && !valid_utf8(location_of(reply->Ok_0.headers@)->Some_0) ==> status
                == Err::<CheckStatus, Failure>(Failure::LocationNotUtf8),
            reply is Err ==> status is Err && status->Err_0 is Request
                && status->Err_0->Request_0@ == reply->Err_0@,
    {
        match reply {
            Err(detail) => Err(Failure::Request(detail)),
            Ok(response) => {
                if !response.is_redirection() {
                    Ok(CheckStatus::Success)
                } else {
                    match response.location() {
                        None => Ok(CheckStatus::RedirectError),
                        Some(value) => match utf8_text(value.as_slice()) {
                            Some(text) => {
                                proof {
                                    decode_utf8_encode_utf8(value@);
                                }
                                Ok(CheckStatus::Redirect(text.to_owned()))
                            },
                            None => Err(Failure::LocationNotUtf8),
                        },
                    }
                }
            },
        }
    }

    /// Reads the reply to the login. Only the status counts: a redirection
    /// of any kind is a login that was accepted, and any other status one
    /// that was not, which is an answer and no failure. The one failure is a
    /// login that got no reply.
    pub fn login_proxy(&self, reply: Result<u16, String>) -> (status: Result<LoginStatus, Failure>)
        ensures
            login_view(status) == login_model(reply),
            reply is Ok && is_redirect_code(reply->Ok_0) ==> status == Ok::<LoginStatus, Failure>(
                LoginStatus::Success,
            ),
            reply is Ok && !is_redirect_code(reply->Ok_0) ==> status == Ok::<LoginStatus, Failure>(
                LoginStatus::Failed,
            ),
            reply is Err ==> status is Err,
    {
        match reply {
            Err(detail) => Err(Failure::Request(detail)),
            Ok(code) => {
                if status_is_redirection(code) {
                    Ok(LoginStatus::Success)
                } else {
                    Ok(LoginStatus::Failed)
                }
            },
        }
    }

    /// Takes one attempt a reply further. The reply to the probe either ends
    /// the attempt or asks for the login; the reply to the login ends it.
    /// That the proxy did not accept the login ends the attempt like any
    /// other answer: only a failure is worth another attempt.
    pub fn ensure_auth(&self, reply: Reply) -> (progress: Progress)
        ensures
            progress@ == attempt_model(reply),
    {
        match reply {
            Reply::Detect(probe) => match self.detect_proxy(probe) {
                Ok(CheckStatus::Success) => Progress::Done(CheckOutcome::NoAuthRequired),
                Ok(CheckStatus::Redirect(location)) => Progress::Login(location),
                Ok(CheckStatus::RedirectError) => Progress::Done(
                    CheckOutcome::RedirectedWithoutLocation,
                ),
                Err(failure) => Progress::Done(CheckOutcome::TransportError(failure)),
            },
            Reply::Login(login) => match self.login_proxy(login) {
                Ok(LoginStatus::Success) => Progress::Done(CheckOutcome::RedirectedAndLoggedIn),
                Ok(LoginStatus::Failed) => Progress::Done(CheckOutcome::RedirectedButLoginFailed),
                Err(failure) => Progress::Done(CheckOutcome::TransportError(failure)),
            },
        }
    }
}

} // verus!
