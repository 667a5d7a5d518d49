//! Registration and activation from start to end, for a caller that can
//! make an attempt and wait for its outcome.

use crate::registrar::{
    active_after, failure_ends, lemma_attempt_bounds, lemma_scan_reaches, next_attempt, scanned,
    share_a_version, supports, Attempt, AttemptView, ClientView, RegistrarClient,
    RegistrarClientError, Settled,
};
use crate::text::views;
use vstd::prelude::*;
use vstd::string::*;

verus! {

/// An exchange from `step` on may end with the result `r` and the active
/// version `active`, where `attempt` makes the attempts. At each step the
/// client's next attempt is made; its outcome ends the exchange or lets it
/// go on, as `failure_ends` says; a success in the scan makes its version the
/// active one. An exchange that has nothing left to try ends with the
/// client's error, the active version unchanged.
pub open spec fn may_end<T, F: Fn(&String) -> Result<T, RegistrarClientError>>(
    c: ClientView,
    enabled: Seq<Seq<char>>,
    attempt: F,
    step: nat,
    r: Result<T, RegistrarClientError>,
    active: Seq<char>,
) -> bool
    decreases enabled.len() + 1 - step, 1nat,
{
    match next_attempt(c, enabled, step) {
        AttemptView::GiveUp(e) => r is Err && r->Err_0@ == e && active == c.api_version,
        AttemptView::Try { version, step: at } => step <= at <= enabled.len() && exists|
            tried: String,
            outcome: Result<T, RegistrarClientError>,
        |
            tried@ == version && #[trigger] attempt.ensures((&tried,), outcome) && follows(
                c,
                enabled,
                attempt,
                at,
                version,
                outcome,
                r,
                active,
            ),
    }
}

/// What may follow an attempt at `at` with `version` that ended in
/// `outcome`.
pub open spec fn follows<T, F: Fn(&String) -> Result<T, RegistrarClientError>>(
    c: ClientView,
    enabled: Seq<Seq<char>>,
    attempt: F,
    at: nat,
    version: Seq<char>,
    outcome: Result<T, RegistrarClientError>,
    r: Result<T, RegistrarClientError>,
    active: Seq<char>,
) -> bool
    decreases enabled.len() + 1 - at, 0nat,
{
    match outcome {
        Ok(t) => r == outcome && active == active_after(c, at, version),
        Err(e) => if failure_ends(c, at, e@) {
            r == outcome && active == c.api_version
        } else {
            at <= enabled.len() && may_end(c, enabled, attempt, at + 1, r, active)
        },
    }
}

/// The attempt succeeds with every version that the registrar supports.
pub open spec fn serves_supported<T, F: Fn(&String) -> Result<T, RegistrarClientError>>(
    attempt: F,
    supported: Seq<Seq<char>>,
) -> bool {
    forall|tried: String, outcome: Result<T, RegistrarClientError>| #[trigger]
        attempt.ensures((&tried,), outcome) && supports(supported, tried@) ==> outcome is Ok
}

proof fn lemma_exchange_ends_well<T, F: Fn(&String) -> Result<T, RegistrarClientError>>(
    c: ClientView,
    enabled: Seq<Seq<char>>,
    attempt: F,
    step: nat,
    k: nat,
    r: Result<T, RegistrarClientError>,
    active: Seq<char>,
)
    requires
        c.supported_api_versions is Some,
        step <= k,
        1 <= k <= enabled.len(),
        supports(c.supported_api_versions->0, enabled[enabled.len() - k]),
        serves_supported(attempt, c.supported_api_versions->0),
        may_end(c, enabled, attempt, step, r, active),
    ensures
        r is Ok,
    decreases enabled.len() + 1 - step,
{
    let supported = c.supported_api_versions->0;
    assert(scanned(c, enabled, k));
    lemma_attempt_bounds(c, enabled, step);
    if step == 0 {
        if !enabled.contains(c.api_version) {
            lemma_scan_reaches(c, enabled, 1, k);
            assert(next_attempt(c, enabled, 0) == next_attempt(c, enabled, 1));
        }
    } else {
        lemma_scan_reaches(c, enabled, step, k);
    }
    match next_attempt(c, enabled, step) {
        AttemptView::GiveUp(_) => {},
        AttemptView::Try { version, step: at } => {
            let (tried, outcome) = choose|
                tried: String,
                outcome: Result<T, RegistrarClientError>,
            |
                tried@ == version && #[trigger] attempt.ensures((&tried,), outcome) && follows(
                    c,
                    enabled,
                    attempt,
                    at,
                    version,
                    outcome,
                    r,
                    active,
                );
            if outcome is Err {
                assert(!supports(supported, version));
                assert(at < k) by {
                    if at >= k && at > 0 {
                        assert(at == k);
                        assert(version == enabled[enabled.len() - k]);
                    }
                }
                assert(!failure_ends(c, at, outcome->Err_0@)) by {
                    if at > 0 && c.current_api_version is Some {
                        assert(scanned(c, enabled, at));
                    }
                }
                lemma_exchange_ends_well(c, enabled, attempt, at + 1, k, r, active);
            }
        },
    }
}

/// Where the agent's enabled versions and the registrar's supported
/// versions have one in common, white space at the ends aside, and every
/// attempt with a version that the registrar supports succeeds, an exchange
/// ends in success, whatever becomes of the attempts with other versions.
pub proof fn lemma_shared_version_ends_well<T, F: Fn(&String) -> Result<T, RegistrarClientError>>(
    c: ClientView,
    enabled: Seq<Seq<char>>,
    attempt: F,
    r: Result<T, RegistrarClientError>,
    active: Seq<char>,
)
    requires
        c.supported_api_versions is Some,
        share_a_version(enabled, c.supported_api_versions->0),
        serves_supported(attempt, c.supported_api_versions->0),
        may_end(c, enabled, attempt, 0, r, active),
    ensures
        r is Ok,
{
    let supported = c.supported_api_versions->0;
    let i = choose|i: int| 0 <= i < enabled.len() && supports(supported, #[trigger] enabled[i]);
    lemma_exchange_ends_well(c, enabled, attempt, 0, (enabled.len() - i) as nat, r, active);
}

impl RegistrarClient {
    /// Runs an exchange from its start to its end: asks for the next
    /// attempt, makes it, and takes its outcome, until the exchange is over.
    pub fn exchange<T, F: Fn(&String) -> Result<T, RegistrarClientError>>(
        &mut self,
        enabled: &Vec<String>,
        attempt: F,
    ) -> (r: Result<T, RegistrarClientError>)
        requires
            forall|v: &String| attempt.requires((v,)),
            enabled.len() < usize::MAX,
        ensures
            may_end(old(self)@, views(enabled@), attempt, 0, r, final(self)@.api_version),
            final(self)@ == (ClientView { api_version: final(self)@.api_version, ..old(self)@ }),
    {
        let ghost c0 = self@;
        let ghost en = views(enabled@);
        let mut step: usize = 0;
        loop
            invariant
                self@ == c0,
                c0 == old(self)@,
                en == views(enabled@),
                step <= enabled.len() + 1,
                enabled.len() < usize::MAX,
                forall|v: &String| attempt.requires((v,)),
                forall|r: Result<T, RegistrarClientError>, a: Seq<char>| #[trigger]
                    may_end(c0, en, attempt, step as nat, r, a) ==> may_end(
                        c0,
                        en,
                        attempt,
                        0,
                        r,
                        a,
                    ),
            decreases enabled.len() + 1 - step,
        {
            match self.next_attempt(enabled, step) {
                Attempt::GiveUp(e) => {
                    let r = Err(e);
                    assert(may_end(c0, en, attempt, step as nat, r, c0.api_version));
                    return r;
                },
                Attempt::Try { version, step: at } => {
                    let outcome = attempt(&version);
                    let ghost seen = outcome;
                    let settled = self.settle(at, version.as_str(), outcome);
                    assert(attempt.ensures((&version,), seen));
                    match settled {
                        Settled::Finished(r) => {
                            assert(follows(
                                c0,
                                en,
                                attempt,
                                at as nat,
                                version@,
                                seen,
                                r,
                                self@.api_version,
                            ));
                            assert(may_end(c0, en, attempt, step as nat, r, self@.api_version));
                            return r;
                        },
                        Settled::Continue(next) => {
                            assert forall|r: Result<T, RegistrarClientError>, a: Seq<char>| #[trigger]
                                may_end(c0, en, attempt, next as nat, r, a) implies may_end(
                                c0,
                                en,
                                attempt,
                                0,
                                r,
                                a,
                            ) by {
                                assert(follows(c0, en, attempt, at as nat, version@, seen, r, a));
                                assert(may_end(c0, en, attempt, step as nat, r, a));
                            }
                            step = next;
                        },
                    }
                },
            }
        }
    }

    /// Registers the agent: runs the exchange with an attempt that sends the
    /// registration under a version and hands back the registrar's
    /// challenge.
    pub fn register_agent<F: Fn(&String) -> Result<Vec<u8>, RegistrarClientError>>(
        &mut self,
        enabled: &Vec<String>,
        attempt: F,
    ) -> (r: Result<Vec<u8>, RegistrarClientError>)
        requires
            forall|v: &String| attempt.requires((v,)),
            enabled.len() < usize::MAX,
        ensures
            may_end(old(self)@, views(enabled@), attempt, 0, r, final(self)@.api_version),
            final(self)@ == (ClientView { api_version: final(self)@.api_version, ..old(self)@ }),
    {
        self.exchange(enabled, attempt)
    }

    /// Activates the agent: runs the exchange with an attempt that sends the
    /// authentication tag under a version.
    pub fn activate_agent<F: Fn(&String) -> Result<(), RegistrarClientError>>(
        &mut self,
        enabled: &Vec<String>,
        attempt: F,
    ) -> (r: Result<(), RegistrarClientError>)
        requires
            forall|v: &String| attempt.requires((v,)),
            enabled.len() < usize::MAX,
        ensures
            may_end(old(self)@, views(enabled@), attempt, 0, r, final(self)@.api_version),
            final(self)@ == (ClientView { api_version: final(self)@.api_version, ..old(self)@ }),
    {
        self.exchange(enabled, attempt)
    }
}

} // verus!
