//! Health bookkeeping for the local companion services.
//!
//! The monitor keeps a list of known services with the last observed
//! health of each. Probing a service is the host's concern (it is a
//! network round trip); the monitor validates URLs, derives the health
//! endpoint of a base URL, and records the probe results.

use vstd::prelude::*;
use vstd::string::StrSliceExecFns;
use vstd::string::StringExecFns;
use crate::numbers::{spec_udec, u64_to_dec};
use crate::text::{spec_starts_with, spec_strip_trailing, lemma_strip_trailing_scan, str_starts_with};

verus! {

/// One known service and its last observed health.
#[derive(Debug, Clone)]
pub struct ServiceStatus {
    pub name: String,
    pub running: bool,
    pub port: u16,
    pub url: String,
}

/// The registry of known services.
#[derive(Debug)]
pub struct ServiceMonitor {
    services: Vec<ServiceStatus>,
}

/// The base URL of a service on the local host: `http://localhost:<port>`.
pub open spec fn spec_localhost_url(port: int) -> Seq<char> {
    "http://localhost:"@ + spec_udec(port)
}

/// Whether a URL carries a scheme the prober accepts.
pub open spec fn spec_http_scheme(url: Seq<char>) -> bool {
    spec_starts_with(url, "http://"@) || spec_starts_with(url, "https://"@)
}

/// The health endpoint of a base URL: trailing slashes dropped, `/health`
/// appended.
pub open spec fn spec_health_url(url: Seq<char>) -> Seq<char> {
    spec_strip_trailing(url, '/') + "/health"@
}

/// Tests whether a URL carries a scheme the prober accepts. A probe of any
/// other URL reports the service as not running without a network round
/// trip.
pub fn url_has_http_scheme(url: &str) -> (r: bool)
    ensures
        r == spec_http_scheme(url@),
{
    if str_starts_with(url, "http://") {
        true
    } else {
        str_starts_with(url, "https://")
    }
}

/// Builds the health endpoint probed for a base URL.
pub fn health_url_for(url: &str) -> (r: String)
    ensures
        r@ == spec_health_url(url@),
{
    let len = url.unicode_len();
    let mut end: usize = len;
    while end > 0 && url.get_char(end - 1) == '/'
        invariant
            0 <= end <= len,
            len == url@.len(),
            forall|j: int| end <= j < len ==> url@[j] == '/',
        decreases end,
    {
        end = end - 1;
    }
    proof {
        lemma_strip_trailing_scan(url@, end as int, '/');
    }
    let mut r = url.substring_char(0, end).to_owned();
    r.append("/health");
    proof {
        assert(url@.subrange(0, end as int) =~= url@.take(end as int));
    }
    r
}

/// Builds the base URL of a service on the local host.
fn localhost_url(port: u16) -> (r: String)
    ensures
        r@ == spec_localhost_url(port as int),
{
    let mut r = "http://localhost:".to_owned();
    r.append(u64_to_dec(port as u64).as_str());
    r
}

impl ServiceMonitor {
    /// The registered services, in registration order.
    pub closed spec fn spec_services(&self) -> Seq<ServiceStatus> {
        self.services@
    }

    /// A registry preloaded with the two standard local services, both
    /// initially considered not running: the API on port 8080 and the UI
    /// on port 3000.
    pub fn new() -> (m: ServiceMonitor)
        ensures
            m.spec_services().len() == 2,
            m.spec_services()[0].name@ == "API"@,
            m.spec_services()[0].port == 8080,
            !m.spec_services()[0].running,
            m.spec_services()[0].url@ == "http://localhost:8080"@,
            m.spec_services()[1].name@ == "UI"@,
            m.spec_services()[1].port == 3000,
            !m.spec_services()[1].running,
            m.spec_services()[1].url@ == "http://localhost:3000"@,
    {
        let mut services: Vec<ServiceStatus> = Vec::new();
        services.push(
            ServiceStatus {
                name: "API".to_owned(),
                running: false,
                port: 8080,
                url: "http://localhost:8080".to_owned(),
            },
        );
        services.push(
            ServiceStatus {
                name: "UI".to_owned(),
                running: false,
                port: 3000,
                url: "http://localhost:3000".to_owned(),
            },
        );
        ServiceMonitor { services }
    }

    /// Registers one more service on the local host, initially considered
    /// not running, with its URL derived from the port.
    pub fn add_service(&mut self, name: &str, port: u16)
        ensures
            final(self).spec_services().len() == old(self).spec_services().len() + 1,
            forall|i: int|
                0 <= i < old(self).spec_services().len() ==> final(self).spec_services()[i]
                    == old(self).spec_services()[i],
            final(self).spec_services().last().name@ == name@,
            final(self).spec_services().last().port == port,
            !final(self).spec_services().last().running,
            final(self).spec_services().last().url@ == spec_localhost_url(port as int),
    {
        let url = localhost_url(port);
        self.services.push(
            ServiceStatus { name: name.to_owned(), running: false, port, url },
        );
    }

    /// The number of registered services.
    pub fn service_count(&self) -> (n: usize)
        ensures
            n == self.spec_services().len(),
    {
        self.services.len()
    }

    /// The service at one registration index.
    pub fn service_at(&self, i: usize) -> (r: &ServiceStatus)
        requires
            i < self.spec_services().len(),
        ensures
            *r == self.spec_services()[i as int],
    {
        &self.services[i]
    }

    /// Looks up the first registered service of a name.
    pub fn get_service(&self, name: &str) -> (r: Option<&ServiceStatus>)
        ensures
            (r is Some) == (exists|i: int|
                0 <= i < self.spec_services().len() && self.spec_services()[i].name@ == name@),
            r matches Some(s) ==> exists|i: int|
                0 <= i < self.spec_services().len() && *s == self.spec_services()[i]
                    && self.spec_services()[i].name@ == name@ && (forall|j: int|
                    0 <= j < i ==> self.spec_services()[j].name@ != name@),
    {
        let n = self.services.len();
        let mut i: usize = 0;
        while i < n
            invariant
                0 <= i <= n,
                n == self.spec_services().len(),
                forall|j: int| 0 <= j < i ==> self.spec_services()[j].name@ != name@,
            decreases n - i,
        {
            if crate::text::str_eq(self.services[i].name.as_str(), name) {
                return Some(&self.services[i]);
            }
            i = i + 1;
        }
        None
    }

    /// Records the outcome of one probe round: the health flag of each
    /// service in order, everything else untouched.
    pub fn record_check_results(&mut self, results: &Vec<bool>)
        requires
            results@.len() == old(self).spec_services().len(),
        ensures
            final(self).spec_services().len() == old(self).spec_services().len(),
            forall|i: int|
                0 <= i < final(self).spec_services().len() ==> {
                    &&& final(self).spec_services()[i].running == results@[i]
                    &&& final(self).spec_services()[i].name == old(self).spec_services()[i].name
                    &&& final(self).spec_services()[i].port == old(self).spec_services()[i].port
                    &&& final(self).spec_services()[i].url == old(self).spec_services()[i].url
                },
    {
        let n = self.services.len();
        let mut i: usize = 0;
        while i < n
            invariant
                0 <= i <= n,
                n == self.spec_services().len(),
                n == results@.len(),
                forall|k: int|
                    i <= k < n ==> self.spec_services()[k] == old(self).spec_services()[k],
                forall|k: int|
                    0 <= k < i ==> {
                        &&& self.spec_services()[k].running == results@[k]
                        &&& self.spec_services()[k].name == old(self).spec_services()[k].name
                        &&& self.spec_services()[k].port == old(self).spec_services()[k].port
                        &&& self.spec_services()[k].url == old(self).spec_services()[k].url
                    },
            decreases n - i,
        {
            let name = self.services[i].name.clone();
            let url = self.services[i].url.clone();
            let port = self.services[i].port;
            let updated = ServiceStatus { name, running: results[i], port, url };
            self.services.set(i, updated);
            i = i + 1;
        }
    }

    /// Whether every registered service was last observed running.
    pub fn all_running(&self) -> (r: bool)
        ensures
            r == (forall|i: int|
                0 <= i < self.spec_services().len() ==> self.spec_services()[i].running),
    {
        let n = self.services.len();
        let mut i: usize = 0;
        while i < n
            invariant
                0 <= i <= n,
                n == self.spec_services().len(),
                forall|j: int| 0 <= j < i ==> self.spec_services()[j].running,
            decreases n - i,
        {
            if !self.services[i].running {
                return false;
            }
            i = i + 1;
        }
        true
    }

    /// Whether any registered service was last observed running.
    pub fn any_running(&self) -> (r: bool)
        ensures
            r == (exists|i: int|
                0 <= i < self.spec_services().len() && self.spec_services()[i].running),
    {
        let n = self.services.len();
        let mut i: usize = 0;
        while i < n
            invariant
                0 <= i <= n,
                n == self.spec_services().len(),
                forall|j: int| 0 <= j < i ==> !self.spec_services()[j].running,
            decreases n - i,
        {
            if self.services[i].running {
                return true;
            }
            i = i + 1;
        }
        false
    }
}

} // verus!
