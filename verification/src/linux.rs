use vstd::prelude::*;

use crate::duration::{max_idle_nanos, IdleDuration};
use crate::Error;

verus! {

/// One candidate session screen-lock service on the message bus: its
/// well-known bus name, its object path, and the interface that carries
/// the lock-state query.
pub struct ScreenSaverEndpoint {
    pub bus_name: &'static str,
    pub object_path: &'static str,
    pub interface: &'static str,
}

/// The three screen-lock services tried, in fixed priority order:
/// freedesktop-generic first, then GNOME, then KDE.
pub fn screensaver_endpoints() -> (eps: Vec<ScreenSaverEndpoint>)
    ensures
        eps@.len() == 3,
        eps@[0].bus_name@ == "org.freedesktop.ScreenSaver"@,
        eps@[0].object_path@ == "/ScreenSaver"@,
        eps@[0].interface@ == "org.freedesktop.ScreenSaver"@,
        eps@[1].bus_name@ == "org.gnome.ScreenSaver"@,
        eps@[1].object_path@ == "/ScreenSaver"@,
        eps@[1].interface@ == "org.gnome.ScreenSaver"@,
        eps@[2].bus_name@ == "org.kde.ScreenSaver"@,
        eps@[2].object_path@ == "/ScreenSaver"@,
        eps@[2].interface@ == "org.freedesktop.ScreenSaver"@,
{
    let mut eps: Vec<ScreenSaverEndpoint> = Vec::new();
    eps.push(
        ScreenSaverEndpoint {
            bus_name: "org.freedesktop.ScreenSaver",
            object_path: "/ScreenSaver",
            interface: "org.freedesktop.ScreenSaver",
        },
    );
    eps.push(
        ScreenSaverEndpoint {
            bus_name: "org.gnome.ScreenSaver",
            object_path: "/ScreenSaver",
            interface: "org.gnome.ScreenSaver",
        },
    );
    eps.push(
        ScreenSaverEndpoint {
            bus_name: "org.kde.ScreenSaver",
            object_path: "/ScreenSaver",
            interface: "org.freedesktop.ScreenSaver",
        },
    );
    eps
}

/// The lock state the endpoint answers decide: the first endpoint that
/// answered at all is authoritative, and a session with no reachable
/// screen-lock service counts as unlocked.
pub open spec fn spec_lock_state(answers: Seq<Option<bool>>) -> bool
    decreases answers.len(),
{
    if answers.len() == 0 {
        false
    } else {
        match answers[0] {
            Some(b) => b,
            None => spec_lock_state(answers.drop_first()),
        }
    }
}

/// Folds the per-endpoint answers into the session lock state. An entry is
/// `None` where the endpoint could not be reached or did not answer, and
/// `Some(b)` where it answered `b`; the first answer wins.
pub fn is_locked(answers: &Vec<Option<bool>>) -> (locked: bool)
    ensures
        locked == spec_lock_state(answers@),
{
    let mut i: usize = 0;
    proof {
        assert(answers@.skip(0) =~= answers@);
    }
    while i < answers.len()
        invariant
            i <= answers@.len(),
            spec_lock_state(answers@) == spec_lock_state(answers@.skip(i as int)),
        decreases answers@.len() - i,
    {
        proof {
            assert(answers@.skip(i as int).drop_first() =~= answers@.skip(i as int + 1));
        }
        match answers[i] {
            Some(b) => {
                return b;
            },
            None => {
                i += 1;
            },
        }
    }
    proof {
        assert(answers@.skip(i as int).len() == 0);
    }
    false
}

/// Turns the display-server screen-saver query's status and reported idle
/// milliseconds into the probe result: status 1 is success, anything else
/// is the fixed "Status not OK" failure.
pub fn idle_from_query(status: i32, idle_ms: u64) -> (r: Result<IdleDuration, Error>)
    ensures
        status == 1 ==> (r matches Ok(d) && d.wf() && d.total_nanos() == idle_ms * 1_000_000),
        status != 1 ==> (r matches Err(e) && e.cause@ == "Status not OK"@),
{
    if status == 1 {
        Ok(IdleDuration::from_millis(idle_ms))
    } else {
        Err(Error::new(String::from_str("Status not OK")))
    }
}

/// The whole Linux probe decision: first the lock-state check over the
/// endpoint answers, and only when that says "unlocked" does the
/// display-server query's outcome matter. A locked session reports the
/// maximum-duration sentinel, independent of `status` and `idle_ms`.
pub fn idle(answers: &Vec<Option<bool>>, status: i32, idle_ms: u64) -> (r: Result<
    IdleDuration,
    Error,
>)
    ensures
        spec_lock_state(answers@) ==> (r matches Ok(d) && d.wf() && d.total_nanos()
            == max_idle_nanos()),
        !spec_lock_state(answers@) && status == 1 ==> (r matches Ok(d) && d.wf() && d.total_nanos()
            == idle_ms * 1_000_000),
        !spec_lock_state(answers@) && status != 1 ==> (r matches Err(e) && e.cause@
            == "Status not OK"@),
{
    if is_locked(answers) {
        Ok(IdleDuration::max())
    } else {
        idle_from_query(status, idle_ms)
    }
}

/// If the first endpoint that answers at all answers `true`, the session
/// counts as locked, so the probe returns the sentinel and the
/// display-server query's outcome never enters the result.
pub proof fn lemma_endpoint_true_locks(answers: Seq<Option<bool>>, i: int)
    requires
        0 <= i < answers.len(),
        answers[i] == Some(true),
        forall|j: int| 0 <= j < i ==> answers[j] is None,
    ensures
        spec_lock_state(answers),
    decreases i,
{
    if i == 0 {
    } else {
        lemma_endpoint_true_locks(answers.drop_first(), i - 1);
    }
}

/// Exhausting every endpoint without an answer never yields an error by
/// itself: the session counts as unlocked and the result is whatever the
/// display-server query path decides.
pub proof fn lemma_exhausted_endpoints_fall_back(answers: Seq<Option<bool>>)
    ensures
        (forall|j: int| 0 <= j < answers.len() ==> answers[j] is None) ==> !spec_lock_state(
            answers,
        ),
    decreases answers.len(),
{
    if answers.len() > 0 {
        lemma_exhausted_endpoints_fall_back(answers.drop_first());
    }
}

} // verus!
