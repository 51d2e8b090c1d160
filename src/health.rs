//! The outcome of a hardware test.
use vstd::prelude::*;

verus! {

/// Health status after a hardware test.
pub enum HealthStatus {
    Healthy,
    /// Soft problems; the list is never empty.
    IssuesDetected(Vec<String>),
    /// A hard failure, with its reason.
    Failed(String),
}

/// What a `HealthStatus` says, with its texts as character sequences.
pub ghost enum HealthView {
    Healthy,
    Issues(Seq<Seq<char>>),
    Failed(Seq<char>),
}

impl View for HealthStatus {
    type V = HealthView;

    open spec fn view(&self) -> HealthView {
        match self {
            HealthStatus::Healthy => HealthView::Healthy,
            HealthStatus::IssuesDetected(v) => HealthView::Issues(v@.map_values(|s: String| s@)),
            HealthStatus::Failed(s) => HealthView::Failed(s@),
        }
    }
}

/// The outcome for a list of soft issues: healthy when there are none.
pub open spec fn from_issues(issues: Seq<Seq<char>>) -> HealthView {
    if issues.len() == 0 { HealthView::Healthy } else { HealthView::Issues(issues) }
}

impl HealthStatus {
    /// Builds the status for a list of soft issues.
    pub fn from_issue_list(issues: Vec<String>) -> (r: HealthStatus)
        ensures
            r@ == from_issues(issues@.map_values(|s: String| s@)),
    {
        if issues.len() == 0 {
            HealthStatus::Healthy
        } else {
            HealthStatus::IssuesDetected(issues)
        }
    }

    /// True for `Healthy`.
    pub fn is_healthy(&self) -> (r: bool)
        ensures
            r == (self@ is Healthy),
    {
        match self {
            HealthStatus::Healthy => true,
            _ => false,
        }
    }

    /// True for `Failed`.
    pub fn is_failed(&self) -> (r: bool)
        ensures
            r == (self@ is Failed),
    {
        match self {
            HealthStatus::Failed(_) => true,
            _ => false,
        }
    }
}

/// Whether a status is a pass, and the messages it carries: none when
/// healthy, its issues, or its one failure reason.
pub open spec fn outcome_spec(v: HealthView) -> (bool, Seq<Seq<char>>) {
    match v {
        HealthView::Healthy => (true, Seq::empty()),
        HealthView::Issues(list) => (false, list),
        HealthView::Failed(reason) => (false, seq![reason]),
    }
}

impl HealthStatus {
    /// Whether the test passed, and its messages.
    pub fn outcome(&self) -> (r: (bool, Vec<String>))
        ensures
            (r.0, r.1@.map_values(|s: String| s@)) == outcome_spec(self@),
    {
        match self {
            HealthStatus::Healthy => {
                let v: Vec<String> = Vec::new();
                assert(v@.map_values(|s: String| s@) =~= Seq::<Seq<char>>::empty());
                (true, v)
            },
            HealthStatus::IssuesDetected(issues) => {
                let mut v: Vec<String> = Vec::new();
                let mut i: usize = 0;
                while i < issues.len()
                    invariant
                        i <= issues@.len(),
                        v@.len() == i,
                        forall|j: int| 0 <= j < i ==> #[trigger] v@[j]@ == issues@[j]@,
                    decreases issues@.len() - i,
                {
                    v.push(String::from_str(issues[i].as_str()));
                    i = i + 1;
                }
                assert(v@.map_values(|s: String| s@) =~= issues@.map_values(|s: String| s@));
                (false, v)
            },
            HealthStatus::Failed(reason) => {
                let mut v: Vec<String> = Vec::new();
                v.push(String::from_str(reason.as_str()));
                assert(v@.map_values(|s: String| s@) =~= seq![reason@]);
                (false, v)
            },
        }
    }
}

/// The overall conclusion of a health check.
#[derive(Clone, Copy, Debug, PartialEq, Eq, Structural)]
pub enum Conclusion {
    /// Every test passed.
    Good,
    /// Some test had issues, none failed.
    SomeIssues,
    /// Some test failed.
    NotRecommended,
}

/// What a health check has gathered over its tests: whether all passed,
/// every message, and the failures labelled by test.
pub struct CheckSummary {
    pub all_healthy: bool,
    pub issues: Vec<String>,
    pub critical: Vec<String>,
}

/// The critical entries a status adds under `label`: its failure reason.
pub open spec fn critical_entries(label: Seq<char>, v: HealthView) -> Seq<Seq<char>> {
    match v {
        HealthView::Failed(reason) => seq![label + ": "@ + reason],
        _ => Seq::empty(),
    }
}

/// The conclusion from what was gathered: any failure makes it not
/// recommended; otherwise it is good only when every test passed.
pub open spec fn conclusion_spec(all_healthy: bool, critical_count: nat) -> Conclusion {
    if critical_count > 0 {
        Conclusion::NotRecommended
    } else if all_healthy {
        Conclusion::Good
    } else {
        Conclusion::SomeIssues
    }
}

impl CheckSummary {
    pub fn new() -> (r: CheckSummary)
        ensures
            r.all_healthy,
            r.issues@.len() == 0,
            r.critical@.len() == 0,
    {
        CheckSummary { all_healthy: true, issues: Vec::new(), critical: Vec::new() }
    }

    /// Adds one test's status, labelled for the critical list.
    pub fn record(&mut self, label: &str, health: &HealthStatus)
        ensures
            final(self).all_healthy == (old(self).all_healthy && health@ is Healthy),
            final(self).issues@.map_values(|s: String| s@) == old(self).issues@.map_values(|s: String| s@) + outcome_spec(health@).1,
            final(self).critical@.map_values(|s: String| s@) == old(self).critical@.map_values(|s: String| s@)
                + critical_entries(label@, health@),
    {
        let (pass, list) = health.outcome();
        assert(pass == (health@ is Healthy));
        self.all_healthy = self.all_healthy && pass;
        let ghost before = self.issues@;
        let ghost n0 = before.len();
        let mut i: usize = 0;
        while i < list.len()
            invariant
                i <= list@.len(),
                self.all_healthy == (old(self).all_healthy && pass),
                self.critical@ == old(self).critical@,
                self.issues@.len() == n0 + i,
                forall|j: int| 0 <= j < n0 ==> #[trigger] self.issues@[j]@ == before[j]@,
                forall|j: int| 0 <= j < i ==> #[trigger] self.issues@[n0 + j]@ == list@[j]@,
            decreases list@.len() - i,
        {
            self.issues.push(String::from_str(list[i].as_str()));
            i = i + 1;
        }
        let ghost now = self.issues@.map_values(|s: String| s@);
        let ghost want = before.map_values(|s: String| s@) + list@.map_values(|s: String| s@);
        assert forall|j: int| 0 <= j < now.len() implies #[trigger] now[j] == want[j] by {
            if j >= n0 {
                assert(self.issues@[n0 + (j - n0)]@ == list@[j - n0]@);
            }
        }
        assert(self.issues@.map_values(|s: String| s@) =~= before.map_values(|s: String| s@) + list@.map_values(|s: String| s@));
        let ghost before_critical = self.critical@.map_values(|s: String| s@);
        match health {
            HealthStatus::Failed(reason) => {
                self.critical.push(crate::health::join3(label, ": ", reason.as_str()));
            },
            _ => {},
        }
        assert(self.critical@.map_values(|s: String| s@) =~= before_critical + critical_entries(label@, health@));
    }

    /// The overall conclusion.
    pub fn conclusion(&self) -> (r: Conclusion)
        ensures
            r == conclusion_spec(self.all_healthy, self.critical@.len()),
    {
        if self.critical.len() > 0 {
            Conclusion::NotRecommended
        } else if self.all_healthy {
            Conclusion::Good
        } else {
            Conclusion::SomeIssues
        }
    }
}

/// `prefix`, then `middle`, then `suffix`, as one string.
pub fn join3(prefix: &str, middle: &str, suffix: &str) -> (r: String)
    ensures
        r@ == prefix@ + middle@ + suffix@,
{
    let mut s = String::from_str(prefix);
    s.append(middle);
    s.append(suffix);
    s
}

} // verus!
