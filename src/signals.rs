use vstd::prelude::*;

verus! {

/// An edge the poller hands to the tracker.
#[derive(Debug, Clone, Copy, PartialEq, Eq, Structural)]
pub enum Signal {
    Lock,
    Unlock,
    Sleep,
    Wake,
}

/// The poller's memory between samples: the lock state last reported, how
/// many samples in a row have read locked or unlocked, and the sleep state
/// last seen. A lock edge fires after `required` equal samples in a row.
#[derive(Debug, Clone, Copy, PartialEq, Eq, Structural)]
pub struct SignalPoller {
    pub required: u64,
    pub locked: bool,
    pub lock_count: u64,
    pub unlock_count: u64,
    pub asleep: bool,
}

/// One lock sample: the run of equal samples grows (up to `u64::MAX`), the
/// other run restarts, and the edge fires once the run reaches `required`
/// while the reported state differs.
pub open spec fn lock_step(p: SignalPoller, is_locked: bool) -> (SignalPoller, Option<Signal>) {
    if is_locked {
        let count = if p.lock_count == u64::MAX { u64::MAX } else { (p.lock_count + 1) as u64 };
        if count >= p.required && !p.locked {
            (SignalPoller { lock_count: count, unlock_count: 0, locked: true, ..p }, Some(Signal::Lock))
        } else {
            (SignalPoller { lock_count: count, unlock_count: 0, ..p }, None)
        }
    } else {
        let count = if p.unlock_count == u64::MAX { u64::MAX } else { (p.unlock_count + 1) as u64 };
        if count >= p.required && p.locked {
            (SignalPoller { unlock_count: count, lock_count: 0, locked: false, ..p }, Some(Signal::Unlock))
        } else {
            (SignalPoller { unlock_count: count, lock_count: 0, ..p }, None)
        }
    }
}

/// One sleep sample: an edge fires whenever it differs from the last one.
pub open spec fn sleep_step(p: SignalPoller, is_asleep: bool) -> (SignalPoller, Option<Signal>) {
    (
        SignalPoller { asleep: is_asleep, ..p },
        if is_asleep && !p.asleep {
            Some(Signal::Sleep)
        } else if !is_asleep && p.asleep {
            Some(Signal::Wake)
        } else {
            None
        },
    )
}

impl SignalPoller {
    /// A poller that takes the screen as unlocked and the system as awake.
    pub fn new(required: u64) -> (r: SignalPoller)
        requires
            required >= 1,
        ensures
            r == (SignalPoller { required, locked: false, lock_count: 0, unlock_count: 0, asleep: false }),
    {
        SignalPoller { required, locked: false, lock_count: 0, unlock_count: 0, asleep: false }
    }

    /// Takes one lock sample; returns the edge to hand on, if any.
    pub fn observe_lock(&mut self, is_locked: bool) -> (r: Option<Signal>)
        ensures
            (*final(self), r) == lock_step(*old(self), is_locked),
    {
        if is_locked {
            self.lock_count = self.lock_count.saturating_add(1);
            self.unlock_count = 0;
            if self.lock_count >= self.required && !self.locked {
                self.locked = true;
                return Some(Signal::Lock);
            }
        } else {
            self.unlock_count = self.unlock_count.saturating_add(1);
            self.lock_count = 0;
            if self.unlock_count >= self.required && self.locked {
                self.locked = false;
                return Some(Signal::Unlock);
            }
        }
        None
    }

    /// Takes one sleep sample; returns the edge to hand on, if any.
    pub fn observe_sleep(&mut self, is_asleep: bool) -> (r: Option<Signal>)
        ensures
            (*final(self), r) == sleep_step(*old(self), is_asleep),
    {
        let was = self.asleep;
        self.asleep = is_asleep;
        if is_asleep && !was {
            Some(Signal::Sleep)
        } else if !is_asleep && was {
            Some(Signal::Wake)
        } else {
            None
        }
    }
}

/// What the platform reported when asked whether the screen is locked: the
/// frontmost application (absent when there is none) and its name if it has
/// one, whether the screen saver runs, and the frontmost process as a script
/// saw it, if the script succeeded.
#[derive(Debug)]
pub struct LockProbe {
    pub has_frontmost_app: bool,
    pub frontmost_app_name: Option<String>,
    pub screensaver_running: bool,
    pub frontmost_process: Option<String>,
}

/// The login window or the screen saver in front means a locked screen.
pub open spec fn is_lock_screen_app(name: Seq<char>) -> bool {
    name == "loginwindow"@ || name == "ScreenSaverEngine"@
}

pub open spec fn probe_shows_lock(p: LockProbe) -> bool {
    ||| !p.has_frontmost_app
    ||| (p.frontmost_app_name matches Some(n) && is_lock_screen_app(n@))
    ||| p.screensaver_running
    ||| (p.frontmost_process matches Some(n) && is_lock_screen_app(n@))
}

fn names_lock_screen(name: &String) -> (r: bool)
    ensures
        r == is_lock_screen_app(name@),
{
    let login = String::from_str("loginwindow");
    let saver = String::from_str("ScreenSaverEngine");
    proof {
        reveal_strlit("loginwindow");
        reveal_strlit("ScreenSaverEngine");
    }
    *name == login || *name == saver
}

/// Whether the probe shows a locked screen.
pub fn check_screen_lock_state_sync(probe: &LockProbe) -> (r: bool)
    ensures
        r == probe_shows_lock(*probe),
{
    if !probe.has_frontmost_app {
        return true;
    }
    if let Some(name) = &probe.frontmost_app_name {
        if names_lock_screen(name) {
            return true;
        }
    }
    if probe.screensaver_running {
        return true;
    }
    match &probe.frontmost_process {
        Some(name) => names_lock_screen(name),
        None => false,
    }
}

/// `word` occurs in `text` starting at `i`.
pub open spec fn occurs_at(text: Seq<char>, word: Seq<char>, i: int) -> bool {
    0 <= i && i + word.len() <= text.len() && text.subrange(i, i + word.len()) == word
}

/// The power report shows sleep when it is empty or mentions "sleep".
pub open spec fn report_shows_sleep(report: Seq<char>) -> bool {
    report.len() == 0 || exists|i: int| occurs_at(report, "sleep"@, i)
}

/// Whether the power-management report read from the OS shows the system
/// asleep.
pub fn power_report_shows_sleep(report: &str) -> (r: bool)
    ensures
        r == report_shows_sleep(report@),
{
    proof {
        reveal_strlit("sleep");
    }
    let n = report.unicode_len();
    if n == 0 {
        return true;
    }
    let ghost word = seq!['s', 'l', 'e', 'e', 'p'];
    assert(word =~= "sleep"@);
    let mut i: usize = 0;
    while n - i >= 5
        invariant
            i <= n,
            n == report@.len(),
            word == "sleep"@,
            word == seq!['s', 'l', 'e', 'e', 'p'],
            forall|j: int| 0 <= j < i ==> !occurs_at(report@, word, j),
        decreases n - i,
    {
        if report.get_char(i) == 's' && report.get_char(i + 1) == 'l' && report.get_char(i + 2) == 'e'
            && report.get_char(i + 3) == 'e' && report.get_char(i + 4) == 'p' {
            assert(report@.subrange(i as int, i + 5) =~= word);
            assert(occurs_at(report@, word, i as int));
            return true;
        }
        assert(!occurs_at(report@, word, i as int)) by {
            if occurs_at(report@, word, i as int) {
                let sub = report@.subrange(i as int, i + 5);
                assert(sub[0] == report@[i as int]);
                assert(sub[1] == report@[i + 1]);
                assert(sub[2] == report@[i + 2]);
                assert(sub[3] == report@[i + 3]);
                assert(sub[4] == report@[i + 4]);
            }
        }
        i = i + 1;
    }
    assert forall|j: int| !occurs_at(report@, word, j) by {
        if 0 <= j && j >= i {
            assert(j + 5 > n);
        }
    }
    false
}

} // verus!
