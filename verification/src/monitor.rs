use vstd::prelude::*;

use crate::text::{all_white_space, chars_of, lemma_trim_ignores_padding, span_equals, trim, trimmed_bounds};

verus! {

/// The platform profile that the kernel reports in
/// `/sys/firmware/acpi/platform_profile`.
#[derive(Clone, Copy, Debug, PartialEq, Eq, Structural)]
pub enum PowerMode {
    Performance,
    Balanced,
    LowPower,
    Unknown,
}

/// The mode that a profile name stands for: the three names the kernel
/// writes, and `Unknown` for anything else.
pub open spec fn mode_named(name: Seq<char>) -> PowerMode {
    if name == "performance"@ {
        PowerMode::Performance
    } else if name == "balanced"@ {
        PowerMode::Balanced
    } else if name == "low-power"@ {
        PowerMode::LowPower
    } else {
        PowerMode::Unknown
    }
}

/// The mode that a profile text stands for, once the white space around it
/// is dropped.
pub open spec fn mode_of_text(text: Seq<char>) -> PowerMode {
    mode_named(trim(text))
}

impl PowerMode {
    /// Reads a profile name such as the kernel writes it ("performance",
    /// "balanced", "low-power"), ignoring white space around it; any other
    /// text gives `Unknown`.
    pub fn from_str(s: &str) -> (mode: PowerMode)
        ensures
            mode == mode_of_text(s@),
    {
        let v = chars_of(s);
        let (lo, hi) = trimmed_bounds(&v);
        if span_equals(&v, lo, hi, "performance") {
            PowerMode::Performance
        } else if span_equals(&v, lo, hi, "balanced") {
            PowerMode::Balanced
        } else if span_equals(&v, lo, hi, "low-power") {
            PowerMode::LowPower
        } else {
            PowerMode::Unknown
        }
    }
}

/// The mode to report after trying to read the profile file: the mode its
/// contents name when the read succeeded, `Unknown` when it failed.
pub fn profile_from_contents(contents: Option<&str>) -> (mode: PowerMode)
    ensures
        mode == match contents {
            Some(text) => mode_of_text(text@),
            None => PowerMode::Unknown,
        },
{
    match contents {
        Some(text) => PowerMode::from_str(text),
        None => PowerMode::Unknown,
    }
}

/// What a file-system notification says happened to the watched file.
#[derive(Clone, Copy, Debug, PartialEq, Eq, Structural)]
pub enum FsEventKind {
    Any,
    Access,
    Create,
    Modify,
    Remove,
    Other,
}

/// Whether a notification about the profile file calls for a fresh read:
/// only a successfully delivered modification does.
pub fn is_profile_change(event: Option<FsEventKind>) -> (r: bool)
    ensures
        r == (event == Some(FsEventKind::Modify)),
{
    match event {
        Some(FsEventKind::Modify) => true,
        _ => false,
    }
}

/// How long a burst of notifications is left to settle before the profile
/// is read, in milliseconds.
pub const SETTLE_MS: u64 = 150;

/// A notification: whether the watcher is now settling, and how long to
/// wait before reading (`None` when the notification joins a burst that is
/// already settling, and is absorbed into it).
pub open spec fn notification_step(settling: bool) -> (bool, Option<u64>) {
    if settling {
        (true, None)
    } else {
        (true, Some(SETTLE_MS))
    }
}

/// The end of the settling wait: whether the watcher is still settling
/// (never), and whether to read the profile now (only if a burst was
/// settling).
pub open spec fn settled_step(settling: bool) -> (bool, bool) {
    (false, settling)
}

/// The settling state after `n` more notifications.
pub open spec fn after_notifications(settling: bool, n: nat) -> bool
    decreases n,
{
    if n == 0 {
        settling
    } else {
        notification_step(after_notifications(settling, (n - 1) as nat)).0
    }
}

/// Groups the file-system notifications into bursts: the first notification
/// of a burst starts a settling wait, the ones that come during it are
/// absorbed, and the end of the wait calls for one reading of the profile.
pub struct SignalDebouncer {
    settling: bool,
}

impl View for SignalDebouncer {
    type V = bool;

    /// Whether a burst is settling.
    closed spec fn view(&self) -> bool {
        self.settling
    }
}

impl SignalDebouncer {
    /// No burst is settling.
    pub fn new() -> (d: SignalDebouncer)
        ensures
            d@ == false,
    {
        SignalDebouncer { settling: false }
    }

    /// Takes a notification; returns how long to wait before reading, or
    /// `None` when the notification is absorbed into the settling burst.
    pub fn on_notification(&mut self) -> (wait_ms: Option<u64>)
        ensures
            (final(self)@, wait_ms) == notification_step(old(self)@),
    {
        if self.settling {
            None
        } else {
            self.settling = true;
            Some(SETTLE_MS)
        }
    }

    /// Takes the end of the settling wait; returns whether to read the
    /// profile now.
    pub fn on_settled(&mut self) -> (read: bool)
        ensures
            (final(self)@, read) == settled_step(old(self)@),
    {
        let read = self.settling;
        self.settling = false;
        read
    }
}

/// Without a notification there is no reading: the end of a wait when no
/// burst is settling calls for nothing.
pub proof fn law_no_read_without_notification()
    ensures
        settled_step(false) == (false, false),
{
}

/// One reading per burst: the notification that opens a burst starts one
/// settling wait of `SETTLE_MS`; any number of notifications after it are
/// absorbed without a further wait; the end of the wait calls for exactly
/// one reading, and a second end calls for none.
pub proof fn law_one_read_per_burst(settling: bool, more: nat)
    ensures
        !settling ==> notification_step(settling).1 == Some(SETTLE_MS),
        forall|k: nat|
            k < more ==> (#[trigger] notification_step(
                after_notifications(notification_step(settling).0, k),
            )).1 is None,
        settled_step(after_notifications(notification_step(settling).0, more)) == (false, true),
        settled_step(settled_step(after_notifications(notification_step(settling).0, more)).0)
            == (false, false),
{
    lemma_settling_stays(more);
    assert forall|k: nat| k < more implies (#[trigger] notification_step(
        after_notifications(notification_step(settling).0, k),
    )).1 is None by {
        lemma_settling_stays(k);
    }
}

/// Once settling, a watcher stays settling through any number of
/// notifications.
proof fn lemma_settling_stays(n: nat)
    ensures
        after_notifications(true, n),
    decreases n,
{
    if n > 0 {
        lemma_settling_stays((n - 1) as nat);
    }
}

/// Whether a freshly read mode is to be passed on, given the last mode that
/// was passed on: only a readable mode that differs from it is.
pub open spec fn should_publish(last: PowerMode, current: PowerMode) -> bool {
    current != last && current != PowerMode::Unknown
}

/// The state of the profile watcher: the last mode delivered to the
/// overlay, and the mode handed out for sending and not yet confirmed.
pub struct MonitorState {
    pub last: PowerMode,
    pub pending: Option<PowerMode>,
}

/// A fresh reading: the new state, and the mode to send, if any.
pub open spec fn reading_step(s: MonitorState, current: PowerMode) -> (MonitorState, Option<
    PowerMode,
>) {
    if should_publish(s.last, current) {
        (MonitorState { last: s.last, pending: Some(current) }, Some(current))
    } else {
        (MonitorState { last: s.last, pending: None }, None)
    }
}

/// The outcome of a send: the new state, and whether to keep watching.
pub open spec fn delivery_step(s: MonitorState, delivered: bool) -> (MonitorState, bool) {
    let last = if delivered && s.pending is Some {
        s.pending->0
    } else {
        s.last
    };
    (MonitorState { last, pending: None }, delivered)
}

/// The decisions of the profile watcher: which readings to pass on to the
/// overlay, and when to stop watching.
pub struct KernelMonitor {
    last_mode: PowerMode,
    pending: Option<PowerMode>,
}

impl View for KernelMonitor {
    type V = MonitorState;

    closed spec fn view(&self) -> MonitorState {
        MonitorState { last: self.last_mode, pending: self.pending }
    }
}

impl KernelMonitor {
    /// A watcher that has passed nothing on yet: its last mode is `Unknown`.
    pub fn new() -> (m: KernelMonitor)
        ensures
            m@ == (MonitorState { last: PowerMode::Unknown, pending: None }),
    {
        KernelMonitor { last_mode: PowerMode::Unknown, pending: None }
    }

    /// The last mode that was passed on and delivered.
    pub fn last_mode(&self) -> (mode: PowerMode)
        ensures
            mode == self@.last,
    {
        self.last_mode
    }

    /// Takes a fresh reading of the profile and says which mode, if any, is
    /// to be sent on: the reading itself when it is readable and differs
    /// from the last mode sent, nothing otherwise.
    pub fn on_reading(&mut self, current: PowerMode) -> (publish: Option<PowerMode>)
        ensures
            (final(self)@, publish) == reading_step(old(self)@, current),
    {
        if current != self.last_mode && current != PowerMode::Unknown {
            self.pending = Some(current);
            Some(current)
        } else {
            self.pending = None;
            None
        }
    }

    /// Takes the outcome of sending the mode that `on_reading` handed out,
    /// and says whether to keep watching. A delivered mode becomes the last
    /// mode; a failed delivery (the overlay is gone) ends the watch.
    pub fn on_delivery(&mut self, delivered: bool) -> (keep_watching: bool)
        ensures
            (final(self)@, keep_watching) == delivery_step(old(self)@, delivered),
    {
        if delivered {
            if let Some(mode) = self.pending {
                self.last_mode = mode;
            }
        }
        self.pending = None;
        delivered
    }
}

/// Whatever the state (whatever mode is awaiting confirmation), a reading
/// is passed on exactly when it is a known mode other than the last one
/// delivered; a reading that is not passed on leaves nothing awaiting, and
/// the last delivered mode is kept.
pub proof fn law_reading_decides_by_last_delivered(s: MonitorState, current: PowerMode)
    ensures
        reading_step(s, current).1 == (if current != s.last && current != PowerMode::Unknown {
            Some(current)
        } else {
            None
        }),
        reading_step(s, current).0.pending == reading_step(s, current).1,
        reading_step(s, current).0.last == s.last,
{
}

/// Repeated readings of the mode last delivered pass nothing on, however
/// often they come and whatever was awaiting before them.
pub proof fn law_repeated_readings_stay_silent(s: MonitorState, n: nat)
    ensures
        repeat_readings(s, s.last, n).0.last == s.last,
        repeat_readings(s, s.last, n).1 == 0,
    decreases n,
{
    if n > 0 {
        law_repeated_readings_stay_silent(s, (n - 1) as nat);
    }
}

/// The state after `n` readings of `mode`, and how many of them were passed
/// on.
pub open spec fn repeat_readings(s: MonitorState, mode: PowerMode, n: nat) -> (MonitorState, nat)
    decreases n,
{
    if n == 0 {
        (s, 0)
    } else {
        let (before, sent) = repeat_readings(s, mode, (n - 1) as nat);
        let (after, published) = reading_step(before, mode);
        (after, sent + if published is Some {
            1nat
        } else {
            0nat
        })
    }
}

/// The watcher never passes on `Unknown`.
pub proof fn law_never_publishes_unknown(s: MonitorState)
    ensures
        reading_step(s, PowerMode::Unknown).1 == None::<PowerMode>,
{
}

/// A readable mode that differs from the last one delivered is always
/// passed on.
pub proof fn law_publishes_every_change(s: MonitorState, current: PowerMode)
    requires
        current != s.last,
        current != PowerMode::Unknown,
    ensures
        reading_step(s, current).1 == Some(current),
{
}

/// Once a mode has been passed on and delivered, reading that same mode
/// again passes nothing on: a mode is never sent twice in a row.
pub proof fn law_no_repeat_after_delivery(s: MonitorState, current: PowerMode)
    requires
        reading_step(s, current).1 is Some,
    ensures
        ({
            let sent = reading_step(s, current).0;
            let delivered = delivery_step(sent, true).0;
            &&& delivered.last == current
            &&& reading_step(delivered, current).1 == None::<PowerMode>
        }),
{
}

/// A failed send ends the watch and leaves the last delivered mode as it
/// was.
pub proof fn law_failed_delivery_stops(s: MonitorState)
    ensures
        !delivery_step(s, false).1,
        delivery_step(s, false).0.last == s.last,
{
}

/// A text names a mode exactly when, trimmed, it is that mode's kernel
/// name; every other text is `Unknown`.
pub proof fn law_mode_names(text: Seq<char>)
    ensures
        mode_of_text(text) == PowerMode::Performance <==> trim(text) == "performance"@,
        mode_of_text(text) == PowerMode::Balanced <==> trim(text) == "balanced"@,
        mode_of_text(text) == PowerMode::LowPower <==> trim(text) == "low-power"@,
{
    reveal_strlit("performance");
    reveal_strlit("balanced");
    reveal_strlit("low-power");
    assert("performance"@.len() == 11);
    assert("balanced"@.len() == 8);
    assert("low-power"@.len() == 9);
    if trim(text) == "balanced"@ {
        assert(trim(text) != "performance"@);
    }
    if trim(text) == "low-power"@ {
        assert(trim(text) != "performance"@);
        assert(trim(text) != "balanced"@);
    }
}

/// White space around a profile name does not change the mode it names:
/// the kernel file ends in a newline, and that newline is ignored.
pub proof fn law_padding_is_ignored(before: Seq<char>, name: Seq<char>, after: Seq<char>)
    requires
        all_white_space(before),
        all_white_space(after),
    ensures
        mode_of_text(before + name + after) == mode_of_text(name),
{
    lemma_trim_ignores_padding(before, name, after);
}

} // verus!
