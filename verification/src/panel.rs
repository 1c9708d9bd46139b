//! What every dashboard panel shares with the shell: whether it used an input
//! event, what it wants to warn about, its key bindings, and how it says how
//! old a reading is.

use vstd::prelude::*;
use crate::text::{decimal, decimal_text, join2, owned};
use crate::watch::WatchLog;

verus! {

broadcast use vstd::string::group_string_axioms;

/// Whether a panel handled an input event, or wants it to fall through to
/// the application's global bindings.
#[derive(Debug, Clone, Copy, PartialEq, Eq)]
pub enum KeyOutcome {
    /// The panel used the event; the app should not act on it.
    Consumed,
    /// The panel did not use the event; the app may apply a global binding.
    Ignored,
}

/// Everything a panel needs at draw time that it does not own itself.
#[derive(Debug, Clone, Copy)]
pub struct RenderContext<'a> {
    /// Whether this panel currently has keyboard focus.
    pub focused: bool,
    /// What has happened since the dashboard started. Read-only from here.
    pub watch: &'a WatchLog,
}

/// How bad, for picking one alert out of several.
///
/// Two levels because two is all the distinction that is needed: something
/// is about to happen, or something has broken.
#[derive(Debug, Clone, Copy, PartialEq, Eq, PartialOrd, Ord)]
pub enum Severity {
    /// A deadline approaching. Missing it is bad and survivable.
    Soon,
    /// Something is failing now, and what it costs does not come back.
    Failing,
}

/// How a severity ranks: `Failing` above `Soon`.
pub open spec fn severity_rank(s: Severity) -> int {
    match s {
        Severity::Soon => 0,
        Severity::Failing => 1,
    }
}

/// Something that will get worse if it is ignored.
///
/// The bar is "will this deteriorate if nobody acts in the next few
/// minutes": a failing save, an event about to start, a layout that did not
/// persist. A permanently lit alarm is furniture.
#[derive(Debug, Clone, PartialEq, Eq)]
pub struct Alert {
    pub severity: Severity,
    /// One line, naming the thing rather than the panel.
    pub text: String,
}

impl Alert {
    /// The same alert.
    pub fn copy(&self) -> (r: Self)
        ensures
            r == *self,
    {
        Alert { severity: self.severity, text: self.text.clone() }
    }

    /// Something coming up that the reader may want to act on.
    pub fn soon(text: String) -> (a: Self)
        ensures
            a.severity == Severity::Soon,
            a.text == text,
    {
        Alert { severity: Severity::Soon, text }
    }

    /// Something that stopped working.
    pub fn failing(text: String) -> (a: Self)
        ensures
            a.severity == Severity::Failing,
            a.text == text,
    {
        Alert { severity: Severity::Failing, text }
    }
}

/// Alert `k` is the most severe, and no later one is as severe.
pub open spec fn is_most_pressing(alerts: Seq<Alert>, k: int) -> bool {
    &&& 0 <= k < alerts.len()
    &&& forall|j: int|
        0 <= j < alerts.len() ==> severity_rank(#[trigger] alerts[j].severity) <= severity_rank(
            alerts[k].severity,
        )
    &&& forall|j: int|
        k < j < alerts.len() ==> severity_rank(#[trigger] alerts[j].severity) < severity_rank(
            alerts[k].severity,
        )
}

/// The single most pressing of several alerts: the most severe, and of
/// equals the last. `None` when there are none, which is nearly always.
pub fn most_pressing(alerts: &Vec<Alert>) -> (r: Option<Alert>)
    ensures
        alerts.len() == 0 <==> r is None,
        r matches Some(a) ==> exists|k: int| #[trigger] is_most_pressing(alerts@, k) && a == alerts[k],
{
    if alerts.len() == 0 {
        return None;
    }
    let mut best: usize = 0;
    let mut i: usize = 1;
    while i < alerts.len()
        invariant
            1 <= i <= alerts.len(),
            best < i,
            forall|j: int|
                0 <= j < i ==> severity_rank(#[trigger] alerts[j].severity) <= severity_rank(
                    alerts[best as int].severity,
                ),
            forall|j: int|
                best < j < i ==> severity_rank(#[trigger] alerts[j].severity) < severity_rank(
                    alerts[best as int].severity,
                ),
        decreases alerts.len() - i,
    {
        let at_least = match (&alerts[i].severity, &alerts[best].severity) {
            (Severity::Soon, Severity::Failing) => false,
            _ => true,
        };
        if at_least {
            best = i;
        }
        i = i + 1;
    }
    let a = alerts[best].copy();
    assert(is_most_pressing(alerts@, best as int));
    Some(a)
}

/// A key and what it does, declared once and reused for the border hint,
/// the status bar and the help overlay.
#[derive(Debug, Clone, PartialEq, Eq)]
pub struct Binding {
    pub key: String,
    pub action: String,
    /// Shown in the border and status bar, as many as fit, in order.
    pub primary: bool,
}

impl Binding {
    /// A binding the status bar shows while there is room for it.
    pub fn primary(key: &str, action: &str) -> (b: Self)
        ensures
            b.key@ == key@,
            b.action@ == action@,
            b.primary,
    {
        Binding { key: owned(key), action: owned(action), primary: true }
    }

    /// A binding listed only in the help overlay.
    pub fn extra(key: &str, action: &str) -> (b: Self)
        ensures
            b.key@ == key@,
            b.action@ == action@,
            !b.primary,
    {
        Binding { key: owned(key), action: owned(action), primary: false }
    }

    /// A binding from owned text.
    pub fn owned(key: String, action: String, primary: bool) -> (b: Self)
        ensures
            b.key == key,
            b.action == action,
            b.primary == primary,
    {
        Binding { key, action, primary }
    }
}

/// How old a reading is, the way a person would say it.
pub open spec fn age_text(seconds: nat) -> Seq<char> {
    let minutes = seconds / 60;
    let hours = minutes / 60;
    if minutes < 60 {
        decimal(minutes) + "m old"@
    } else if hours < 24 {
        decimal(hours) + "h old"@
    } else {
        decimal(hours / 24) + "d old"@
    }
}

/// Render an age in seconds the way a person would say it: minutes under an
/// hour, hours under a day, days after that.
pub fn describe_age(seconds: u64) -> (r: String)
    ensures
        r@ == age_text(seconds as nat),
{
    let minutes = seconds / 60;
    if minutes < 60 {
        let mut r = decimal_text(minutes);
        r.append("m old");
        return r;
    }
    let hours = minutes / 60;
    if hours < 24 {
        let mut r = decimal_text(hours);
        r.append("h old");
        return r;
    }
    let mut r = decimal_text(hours / 24);
    r.append("d old");
    r
}

/// A failure outranks anything merely coming up: when any alert is a
/// failure the most pressing one is a failure, and among equals the latest
/// wins.
pub proof fn a_failure_outranks_what_is_coming(alerts: Seq<Alert>, k: int, j: int)
    requires
        is_most_pressing(alerts, k),
        0 <= j < alerts.len(),
    ensures
        alerts[j].severity == Severity::Failing ==> alerts[k].severity == Severity::Failing,
        k < j ==> alerts[j].severity != alerts[k].severity,
{
    assert(severity_rank(alerts[j].severity) <= severity_rank(alerts[k].severity));
}

/// An age reads in minutes under an hour, in hours under a day and in days
/// after that, each rounded down.
pub proof fn ages_read_in_the_largest_whole_unit(seconds: nat)
    ensures
        seconds < 3600 ==> age_text(seconds) == decimal(seconds / 60) + "m old"@,
        3600 <= seconds < 86400 ==> age_text(seconds) == decimal(seconds / 3600) + "h old"@,
        86400 <= seconds ==> age_text(seconds) == decimal(seconds / 86400) + "d old"@,
{
    let m = seconds / 60;
    let h = m / 60;
    assert(h == seconds / 3600) by {
        vstd::arithmetic::div_mod::lemma_div_denominator(seconds as int, 60, 60);
    }
    assert(h / 24 == seconds / 86400) by {
        vstd::arithmetic::div_mod::lemma_div_denominator(seconds as int, 3600, 24);
    }
    assert(seconds < 3600 <==> m < 60) by (nonlinear_arith)
        requires
            m == seconds / 60,
    ;
    assert(seconds < 86400 <==> h < 24) by (nonlinear_arith)
        requires
            h == seconds / 3600,
    ;
}

} // verus!
