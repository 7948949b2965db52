//! The settings of a run.

use vstd::prelude::*;

verus! {

/// What the program was started with.
pub struct Options {
    login: String,
    pass: String,
    now: bool,
    detect_url: String,
    cron: String,
    error_interval: u64,
    error_retry: usize,
}

/// The settings as mathematical values.
pub struct OptionsView {
    /// Name handed to the proxy's login page.
    pub login: Seq<char>,
    /// Password handed to the proxy's login page.
    pub pass: Seq<char>,
    /// Whether a check runs at once, before the first scheduled one.
    pub now: bool,
    /// Address that is probed to see whether the proxy redirects.
    pub detect_url: Seq<char>,
    /// Schedule expression of the checks.
    pub cron: Seq<char>,
    /// Seconds to wait after a failed attempt before the next one.
    pub error_interval: u64,
    /// Number of attempts within one check.
    pub error_retry: usize,
}

impl View for Options {
    type V = OptionsView;

    closed spec fn view(&self) -> OptionsView {
        OptionsView {
            login: self.login@,
            pass: self.pass@,
            now: self.now,
            detect_url: self.detect_url@,
            cron: self.cron@,
            error_interval: self.error_interval,
            error_retry: self.error_retry,
        }
    }
}

impl Options {
    /// Settings made of the given values, each kept as it is.
    pub fn new(
        login: String,
        pass: String,
        now: bool,
        detect_url: String,
        cron: String,
        error_interval: u64,
        error_retry: usize,
    ) -> (options: Options)
        ensures
            options@ == (OptionsView {
                login: login@,
                pass: pass@,
                now,
                detect_url: detect_url@,
                cron: cron@,
                error_interval,
                error_retry,
            }),
    {
        Options { login, pass, now, detect_url, cron, error_interval, error_retry }
    }

    /// Name handed to the proxy's login page.
    pub fn login(&self) -> (login: &str)
        ensures
            login@ == self@.login,
    {
        self.login.as_str()
    }

    /// Password handed to the proxy's login page.
    pub fn pass(&self) -> (pass: &str)
        ensures
            pass@ == self@.pass,
    {
        self.pass.as_str()
    }

    /// Whether a check runs at once, before the first scheduled one.
    pub fn now(&self) -> (now: bool)
        ensures
            now == self@.now,
    {
        self.now
    }

    /// Address that is probed to see whether the proxy redirects.
    pub fn detect_url(&self) -> (url: &str)
        ensures
            url@ == self@.detect_url,
    {
        self.detect_url.as_str()
    }

    /// Schedule expression of the checks.
    pub fn cron(&self) -> (cron: &str)
        ensures
            cron@ == self@.cron,
    {
        self.cron.as_str()
    }

    /// Seconds to wait after a failed attempt before the next one.
    pub fn error_interval(&self) -> (secs: u64)
        ensures
            secs == self@.error_interval,
    {
        self.error_interval
    }

    /// Number of attempts within one check.
    pub fn error_retry(&self) -> (attempts: usize)
        ensures
            attempts == self@.error_retry,
    {
        self.error_retry
    }
}

} // verus!
