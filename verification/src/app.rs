use vstd::prelude::*;
use crate::geometry::Rect;

verus! {

/// How long an action's result stays in the status line, in milliseconds.
pub const ACTION_FEEDBACK_LIFETIME_MS: u64 = 6000;
/// How long a focus notice stays in the status line, in milliseconds.
pub const FOCUS_FEEDBACK_LIFETIME_MS: u64 = 2000;

/// What the status line last showed and when that expires.
#[derive(Debug)]
pub struct StatusFeedback {
    /// The status text last seen.
    pub observed: Vec<char>,
    /// When the shown status is cleared, in milliseconds of a monotonic clock.
    pub expires_at: Option<u64>,
    /// The overlays open when the status was last seen: a workspace overlay,
    /// the network browser, the file-users view.
    pub context: (bool, bool, bool),
}

/// The tabs of the process information dialog.
#[derive(Clone, Copy, Debug, PartialEq, Eq, Structural)]
pub enum ProcessInfoTab {
    General,
    Network,
    Scheduling,
}

/// The panels of the workspace that can hold the focus.
#[derive(Clone, Copy, Debug, PartialEq, Eq, Structural)]
pub enum FocusedPanel {
    System,
    SystemActivity,
    Cpu,
    Processes,
    DetailsGraph,
    DetailsSamples,
}

/// The scroll state of a scrollable page.
#[derive(Clone, Copy, Debug, PartialEq, Eq, Structural)]
pub struct ScrollState {
    pub offset: usize,
    pub page_size: usize,
    pub dragging: bool,
}

/// The part of the application's state that the help page, the help title
/// and the status feedback work on.
#[derive(Debug)]
pub struct App {
    pub status: Vec<char>,
    pub status_feedback: StatusFeedback,
    pub workspace_overlay: bool,
    pub network_browser_visible: bool,
    pub file_users_visible: bool,
    pub show_process_info_dialog: bool,
    pub process_info_tab: ProcessInfoTab,
    pub show_column_picker: bool,
    pub show_process_kill_confirmation: bool,
    pub investigation_profiles_open: bool,
    pub show_tracked_remove_confirmation: bool,
    pub show_recording_tracking_fixed: bool,
    pub graph_reorder_open: bool,
    pub show_cpu_core_dialog: bool,
    pub main_menu_open: bool,
    pub focused_panel: FocusedPanel,
    pub help_section: usize,
    pub help_section_picker: Option<usize>,
    pub shortcut_hovered: Option<Rect>,
    pub help_scroll: ScrollState,
}

/// Whether a text starts with `Focus:`.
pub open spec fn is_focus_notice(text: Seq<char>) -> bool {
    text.len() >= 6 && text.take(6) == seq!['F', 'o', 'c', 'u', 's', ':']
}

/// The status, feedback and change flag after a refresh at `now`: a status
/// that is unchanged since the overlays changed is dropped; a new status
/// gets a deadline (2 s for focus notices, 6 s otherwise; none for an empty
/// status); a status whose deadline has come is cleared.
pub open spec fn refreshed(
    status: Seq<char>,
    observed: Seq<char>,
    expires_at: Option<u64>,
    old_context: (bool, bool, bool),
    context: (bool, bool, bool),
    now: u64,
) -> (Seq<char>, Seq<char>, Option<u64>, bool) {
    let drop = context != old_context && status == observed;
    let status1 = if drop {
        Seq::<char>::empty()
    } else {
        status
    };
    let changed1 = drop && status.len() > 0;
    let fresh = status1 != observed;
    let observed2 = if fresh {
        status1
    } else {
        observed
    };
    let expires2 = if fresh {
        if status1.len() > 0 {
            Some(
                (now + if is_focus_notice(status1) {
                    FOCUS_FEEDBACK_LIFETIME_MS
                } else {
                    ACTION_FEEDBACK_LIFETIME_MS
                }) as u64,
            )
        } else {
            None
        }
    } else {
        expires_at
    };
    let changed2 = changed1 || fresh;
    let expired = match expires2 {
        Some(deadline) => now >= deadline,
        None => false,
    };
    if expired {
        (Seq::empty(), Seq::empty(), None, true)
    } else {
        (status1, observed2, expires2, changed2)
    }
}

fn chars_eq(a: &Vec<char>, b: &Vec<char>) -> (r: bool)
    ensures
        r == (a@ == b@),
{
    if a.len() != b.len() {
        return false;
    }
    let mut i: usize = 0;
    while i < a.len()
        invariant
            i <= a@.len(),
            a@.len() == b@.len(),
            forall|j: int| 0 <= j < i ==> a@[j] == b@[j],
        decreases a@.len() - i,
    {
        if a[i] != b[i] {
            return false;
        }
        i = i + 1;
    }
    assert(a@ =~= b@);
    true
}

fn starts_with_focus(text: &Vec<char>) -> (r: bool)
    ensures
        r == is_focus_notice(text@),
{
    if text.len() < 6 {
        return false;
    }
    let r = text[0] == 'F' && text[1] == 'o' && text[2] == 'c' && text[3] == 'u' && text[4] == 's' && text[5] == ':';
    if r {
        assert(text@.take(6) =~= seq!['F', 'o', 'c', 'u', 's', ':']);
    } else {
        assert(text@.take(6) != seq!['F', 'o', 'c', 'u', 's', ':']) by {
            let p = seq!['F', 'o', 'c', 'u', 's', ':'];
            if text@.take(6) == p {
                assert(text@[0] == p[0] && text@[1] == p[1] && text@[2] == p[2]);
                assert(text@[3] == p[3] && text@[4] == p[4] && text@[5] == p[5]);
            }
        }
    }
    r
}

impl App {
    /// The overlays whose opening or closing drops a stale status.
    pub open spec fn feedback_context(&self) -> (bool, bool, bool) {
        (self.workspace_overlay, self.network_browser_visible, self.file_users_visible)
    }

    /// Ages the status line's message: clears a message left from before the
    /// overlays changed, gives a new message its deadline, and clears a
    /// message whose deadline has come. Returns whether the status changed.
    pub fn refresh_status_feedback(&mut self, now: u64) -> (changed: bool)
        requires
            now <= u64::MAX - ACTION_FEEDBACK_LIFETIME_MS,
        ensures
            (final(self).status@, final(self).status_feedback.observed@, final(self).status_feedback.expires_at, changed)
                == refreshed(
                old(self).status@,
                old(self).status_feedback.observed@,
                old(self).status_feedback.expires_at,
                old(self).status_feedback.context,
                old(self).feedback_context(),
                now,
            ),
            final(self).status_feedback.context == old(self).feedback_context(),
            *final(self) == (App { status: final(self).status, status_feedback: final(self).status_feedback, ..*old(self) }),
    {
        let context = (self.workspace_overlay, self.network_browser_visible, self.file_users_visible);
        let mut status: Vec<char> = Vec::new();
        std::mem::swap(&mut status, &mut self.status);
        let mut observed: Vec<char> = Vec::new();
        std::mem::swap(&mut observed, &mut self.status_feedback.observed);
        let (status, observed, expires_at, changed) = refresh_parts(
            status,
            observed,
            self.status_feedback.expires_at,
            self.status_feedback.context,
            context,
            now,
        );
        self.status = status;
        self.status_feedback.observed = observed;
        self.status_feedback.expires_at = expires_at;
        self.status_feedback.context = context;
        changed
    }
}

fn copy_chars(text: &Vec<char>) -> (r: Vec<char>)
    ensures
        r@ == text@,
{
    let mut out: Vec<char> = Vec::new();
    let mut i: usize = 0;
    while i < text.len()
        invariant
            i <= text@.len(),
            out@ == text@.take(i as int),
        decreases text@.len() - i,
    {
        out.push(text[i]);
        assert(out@ =~= text@.take(i + 1));
        i = i + 1;
    }
    assert(out@ =~= text@);
    out
}

fn refresh_parts(
    status: Vec<char>,
    observed: Vec<char>,
    expires_at: Option<u64>,
    old_context: (bool, bool, bool),
    context: (bool, bool, bool),
    now: u64,
) -> (r: (Vec<char>, Vec<char>, Option<u64>, bool))
    requires
        now <= u64::MAX - ACTION_FEEDBACK_LIFETIME_MS,
    ensures
        (r.0@, r.1@, r.2, r.3) == refreshed(status@, observed@, expires_at, old_context, context, now),
{
    let mut status = status;
    let mut observed = observed;
    let mut expires_at = expires_at;
    let mut changed = false;
    let context_changed = context.0 != old_context.0 || context.1 != old_context.1 || context.2 != old_context.2;
    assert(context_changed == (context != old_context));
    if context_changed && chars_eq(&status, &observed) {
        changed = status.len() > 0;
        status = Vec::new();
    }
    if !chars_eq(&status, &observed) {
        let lifetime = if starts_with_focus(&status) {
            FOCUS_FEEDBACK_LIFETIME_MS
        } else {
            ACTION_FEEDBACK_LIFETIME_MS
        };
        expires_at = if status.len() > 0 {
            Some(now + lifetime)
        } else {
            None
        };
        observed = copy_chars(&status);
        changed = true;
    }
    let expired = match expires_at {
        Some(deadline) => now >= deadline,
        None => false,
    };
    if expired {
        status = Vec::new();
        observed = Vec::new();
        expires_at = None;
        changed = true;
    }
    (status, observed, expires_at, changed)
}

/// Law: after a refresh the feedback has seen the status that stays.
pub proof fn law_refresh_observes_status(
    status: Seq<char>,
    observed: Seq<char>,
    expires_at: Option<u64>,
    old_context: (bool, bool, bool),
    context: (bool, bool, bool),
    now: u64,
)
    requires
        now <= u64::MAX - ACTION_FEEDBACK_LIFETIME_MS,
    ensures
        refreshed(status, observed, expires_at, old_context, context, now).0 == refreshed(
            status,
            observed,
            expires_at,
            old_context,
            context,
            now,
        ).1,
{
}

/// Law: a new message gets a deadline, two seconds away for a focus notice
/// and six for any other, and stays shown until then.
pub proof fn law_new_message_lives_for_its_lifetime(
    status: Seq<char>,
    observed: Seq<char>,
    expires_at: Option<u64>,
    ctx: (bool, bool, bool),
    now: u64,
)
    requires
        now <= u64::MAX - ACTION_FEEDBACK_LIFETIME_MS,
        status != observed,
        status.len() > 0,
    ensures
        ({
            let r = refreshed(status, observed, expires_at, ctx, ctx, now);
            &&& r.0 == status
            &&& r.3
            &&& r.2 == Some(
                (now + if is_focus_notice(status) {
                    FOCUS_FEEDBACK_LIFETIME_MS
                } else {
                    ACTION_FEEDBACK_LIFETIME_MS
                }) as u64,
            )
        }),
{
}

/// Law: a message whose deadline has come is cleared, and the refresh
/// reports the change.
pub proof fn law_expired_message_is_cleared(status: Seq<char>, ctx: (bool, bool, bool), deadline: u64, now: u64)
    requires
        now <= u64::MAX - ACTION_FEEDBACK_LIFETIME_MS,
        now >= deadline,
    ensures
        refreshed(status, status, Some(deadline), ctx, ctx, now) == (
            Seq::<char>::empty(),
            Seq::<char>::empty(),
            None::<u64>,
            true,
        ),
{
}

/// The lifetime of a message: two seconds for a focus notice, six otherwise.
pub open spec fn lifetime_of(message: Seq<char>) -> u64 {
    if is_focus_notice(message) {
        FOCUS_FEEDBACK_LIFETIME_MS
    } else {
        ACTION_FEEDBACK_LIFETIME_MS
    }
}

/// Law: over two refreshes with the overlays left as they are, a message
/// first seen at `t0` stays shown, with nothing reported, until `t0` plus its
/// lifetime, and from then on it is cleared and the change reported.
pub proof fn law_message_lifetime_across_refreshes(
    message: Seq<char>,
    observed: Seq<char>,
    expires_at: Option<u64>,
    old_context: (bool, bool, bool),
    context: (bool, bool, bool),
    t0: u64,
    t: u64,
)
    requires
        t0 <= t <= u64::MAX - ACTION_FEEDBACK_LIFETIME_MS,
        message.len() > 0,
        message != observed,
    ensures
        ({
            let first = refreshed(message, observed, expires_at, old_context, context, t0);
            let second = refreshed(first.0, first.1, first.2, context, context, t);
            &&& first == (message, message, Some((t0 + lifetime_of(message)) as u64), true)
            &&& t < t0 + lifetime_of(message) ==> second == (message, message, Some((t0 + lifetime_of(message)) as u64), false)
            &&& t >= t0 + lifetime_of(message) ==> second == (Seq::<char>::empty(), Seq::<char>::empty(), None::<u64>, true)
        }),
{
}

/// The status, feedback and change flags after refreshing at each of `times`
/// in turn with the overlays left at `context`.
pub open spec fn refreshed_at_each(
    state: (Seq<char>, Seq<char>, Option<u64>),
    context: (bool, bool, bool),
    times: Seq<u64>,
) -> ((Seq<char>, Seq<char>, Option<u64>), Seq<bool>)
    decreases times.len(),
{
    if times.len() == 0 {
        (state, Seq::empty())
    } else {
        let r = refreshed(state.0, state.1, state.2, context, context, times[0]);
        let rest = refreshed_at_each((r.0, r.1, r.2), context, times.drop_first());
        (rest.0, seq![r.3] + rest.1)
    }
}

/// Law: once a message has been given its deadline, refreshing at any
/// number of times before the deadline, with the overlays left as they are,
/// keeps it shown and reports no change; the first refresh at or after the
/// deadline then clears it and reports the change.
pub proof fn law_message_kept_until_deadline(
    message: Seq<char>,
    deadline: u64,
    context: (bool, bool, bool),
    times: Seq<u64>,
    t: u64,
)
    requires
        message.len() > 0,
        forall|i: int| 0 <= i < times.len() ==> #[trigger] times[i] < deadline,
        deadline <= t <= u64::MAX - ACTION_FEEDBACK_LIFETIME_MS,
    ensures
        ({
            let r = refreshed_at_each((message, message, Some(deadline)), context, times);
            &&& r.0 == (message, message, Some(deadline))
            &&& forall|i: int| 0 <= i < r.1.len() ==> !(#[trigger] r.1[i])
            &&& r.1.len() == times.len()
            &&& refreshed(r.0.0, r.0.1, r.0.2, context, context, t) == (
                Seq::<char>::empty(),
                Seq::<char>::empty(),
                None::<u64>,
                true,
            )
        }),
    decreases times.len(),
{
    if times.len() > 0 {
        assert(times[0] < deadline);
        let rest = times.drop_first();
        assert forall|i: int| 0 <= i < rest.len() implies #[trigger] rest[i] < deadline by {
            assert(rest[i] == times[i + 1]);
        }
        law_message_kept_until_deadline(message, deadline, context, rest, t);
        let r = refreshed_at_each((message, message, Some(deadline)), context, times);
        let inner = refreshed_at_each((message, message, Some(deadline)), context, rest);
        assert forall|i: int| 0 <= i < r.1.len() implies !(#[trigger] r.1[i]) by {
            if i > 0 {
                assert(r.1[i] == inner.1[i - 1]);
            }
        }
    }
}

/// Law: a refresh keeps the feedback consistent: it has seen the status, it
/// holds a deadline exactly when the status is not empty, and that deadline
/// is still to come.
pub proof fn law_refresh_keeps_feedback_consistent(
    status: Seq<char>,
    observed: Seq<char>,
    expires_at: Option<u64>,
    old_context: (bool, bool, bool),
    context: (bool, bool, bool),
    now: u64,
)
    requires
        now <= u64::MAX - ACTION_FEEDBACK_LIFETIME_MS,
        (expires_at is None) == (observed.len() == 0),
    ensures
        ({
            let r = refreshed(status, observed, expires_at, old_context, context, now);
            &&& r.1 == r.0
            &&& (r.2 is None) == (r.0.len() == 0)
            &&& r.2 matches Some(d) ==> d > now
        }),
{
}

/// Law: opening or closing an overlay drops a message that was already shown
/// before it, and the refresh reports a change only when there was one.
pub proof fn law_overlay_change_drops_old_message(
    status: Seq<char>,
    expires_at: Option<u64>,
    old_context: (bool, bool, bool),
    context: (bool, bool, bool),
    now: u64,
)
    requires
        now <= u64::MAX - ACTION_FEEDBACK_LIFETIME_MS,
        old_context != context,
    ensures
        refreshed(status, status, expires_at, old_context, context, now).0.len() == 0,
        status.len() > 0 ==> refreshed(status, status, expires_at, old_context, context, now).3,
{
}

} // verus!
