//! What holds of the program as a whole.

use vstd::prelude::*;
use crate::auth::{ActivateReply, HeartbeatReply};
use crate::clock::{after, NANOS_PER_SEC};
use crate::model::{
    relaunch, Action, AppModel, LoginInput, Poll, Popup, Stage, State, TrialInput,
    TRIAL_SESSION_SECS, TRIAL_WARN_SECS,
};

verus! {

/// What can happen to the program.
pub enum Event {
    /// A look for the reply to a request to activate a license.
    AuthPolled { grant: Poll<ActivateReply> },
    /// A check whether a heartbeat is due.
    HeartbeatChecked,
    /// A look for the reply to a heartbeat.
    HeartbeatPolled { poll: Poll<HeartbeatReply> },
    /// The user fills in the form of the login screen.
    Typed { username: Seq<char>, password: Seq<char> },
    /// A frame of the login screen ends.
    LoginDone { could_submit: bool, form: LoginInput },
    /// A frame of a trial session begins.
    TrialOpened,
    /// A frame of a trial session ends.
    TrialDone { popup: Popup, input: TrialInput },
}

impl AppModel {
    /// The order of the stages within a frame lets the event happen.
    pub open spec fn admits(self, event: Event) -> bool {
        match event {
            Event::AuthPolled { .. } => true,
            Event::HeartbeatChecked => self.licensed(),
            Event::HeartbeatPolled { .. } => self.licensed(),
            Event::Typed { .. } => self.screen() == Stage::DrawLogin,
            Event::LoginDone { .. } => self.screen() == Stage::DrawLogin,
            Event::TrialOpened => self.screen() == Stage::DrawTrial,
            Event::TrialDone { .. } => self.screen() == Stage::DrawTrial,
        }
    }

    /// The state after an event.
    pub open spec fn advanced(self, event: Event, now: int) -> AppModel {
        match event {
            Event::AuthPolled { grant } => self.auth_polled(grant, now),
            Event::HeartbeatChecked => self.heartbeat_checked(now),
            Event::HeartbeatPolled { poll } => self.heartbeat_polled(poll, now),
            Event::Typed { username, password } => AppModel { username, password, ..self },
            Event::LoginDone { could_submit, form } => self.login_done(could_submit, form, now),
            Event::TrialOpened => self.trial_opened(now),
            Event::TrialDone { popup, input } => self.trial_done(popup, input, now),
        }
    }

    /// The state after a series of events, each with its time.
    pub open spec fn run(self, events: Seq<(Event, int)>) -> AppModel
        decreases events.len(),
    {
        if events.len() == 0 {
            self
        } else {
            self.run(events.drop_last()).advanced(events.last().0, events.last().1)
        }
    }

    /// A series of events that can happen, one after the other.
    pub open spec fn admits_all(self, events: Seq<(Event, int)>) -> bool
        decreases events.len(),
    {
        events.len() > 0 ==> self.admits_all(events.drop_last()) && self.run(
            events.drop_last(),
        ).admits(events.last().0)
    }
}

/// Whatever happens, the program stays consistent: a token is held exactly in
/// a licensed session, and there a heartbeat is always either planned or under
/// way.
pub proof fn law_every_state_is_consistent(start: AppModel, events: Seq<(Event, int)>)
    requires
        start.consistent(),
        start.admits_all(events),
    ensures
        start.run(events).consistent(),
    decreases events.len(),
{
    if events.len() > 0 {
        law_every_state_is_consistent(start, events.drop_last());
    }
}

/// From its start on the program is consistent: there is a token exactly in a
/// licensed session; there, and only there, a heartbeat is either planned or
/// under way; a reply to credentials is awaited while the login screen waits, and
/// never at a login screen that takes input or in a licensed session; and a
/// warning is visible exactly when it knows since when.
pub proof fn law_program_is_consistent(hwid: Seq<char>, now: int, events: Seq<(Event, int)>)
    requires
        AppModel::fresh(hwid, now).admits_all(events),
    ensures
        AppModel::fresh(hwid, now).run(events).consistent(),
        ({
            let m = AppModel::fresh(hwid, now).run(events);
            let licensed = m.state == State::Session && !m.is_trial;
            &&& m.token is Some <==> licensed
            &&& licensed ==> (m.next_heartbeat_at is Some <==> !m.heartbeat_pending)
            &&& m.next_heartbeat_at is Some || m.heartbeat_pending ==> licensed
            &&& m.state == State::Authenticating ==> m.auth_pending
            &&& m.state == State::Login ==> !m.auth_pending
            &&& licensed ==> !m.auth_pending
            &&& m.popup_visible <==> m.popup_start is Some
        }),
{
    law_every_state_is_consistent(AppModel::fresh(hwid, now), events);
}

/// The hardware id and the end of the login window never change.
pub proof fn law_id_and_deadline_are_fixed(start: AppModel, events: Seq<(Event, int)>)
    ensures
        start.run(events).hwid == start.hwid,
        start.run(events).login_deadline == start.login_deadline,
    decreases events.len(),
{
    if events.len() > 0 {
        law_id_and_deadline_are_fixed(start, events.drop_last());
    }
}

/// Without a granted license there is no licensed session: one can only begin
/// with a reply that grants it.
pub proof fn law_license_comes_from_a_grant(m: AppModel, event: Event, now: int)
    requires
        m.consistent(),
        m.admits(event),
        !m.licensed(),
        m.advanced(event, now).licensed(),
    ensures
        event matches Event::AuthPolled { grant } && m.grants(grant) && m.advanced(event, now).token
            == Some(grant->Ready_0->Ok_0.token),
{
}

/// A granted license begins a licensed session with the server's token and the
/// server's terms, plans the first heartbeat, and starts the target programs
/// afresh.
pub proof fn law_grant_begins_session(m: AppModel, reply: ActivateReply, now: int)
    requires
        m.auth_pending,
        reply.success,
    ensures
        ({
            let poll = Poll::Ready(Ok(reply));
            let next = m.auth_polled(poll, now);
            &&& next.licensed()
            &&& !next.auth_pending
            &&& next.token == Some(reply.token)
            &&& next.next_heartbeat_at == Some(after(now, reply.heartbeat_interval))
            &&& next.plan_name == reply.plan_name
            &&& next.expiry_date == reply.expiry_date
            &&& next.days_left == reply.days_left
            &&& m.auth_actions(poll) == relaunch()
        }),
{
}

/// A request to activate a license that is refused or fails ends at the login
/// screen, with something to say, without a token, and starts nothing.
pub proof fn law_refusal_ends_at_login(m: AppModel, poll: Poll<ActivateReply>, now: int)
    requires
        m.consistent(),
        m.auth_pending,
        !(poll is Empty),
        !m.grants(poll),
    ensures
        ({
            let next = m.auth_polled(poll, now);
            &&& next.state == State::Login
            &&& !next.auth_pending
            &&& next.auth_error is Some
            &&& next.token is None
            &&& m.auth_actions(poll) == Seq::<Action>::empty()
        }),
{
}

/// A refusal always comes with words: those of the server, or our own.
pub proof fn law_refusal_has_words(m: AppModel, reply: ActivateReply, now: int)
    requires
        m.auth_pending,
        !reply.success,
    ensures
        m.auth_polled(Poll::Ready(Ok(reply)), now).auth_error matches Some(text) && text.len() > 0
            && (reply.message.len() > 0 ==> text == reply.message),
{
    reveal_strlit("Kích hoạt thất bại.");
}

/// A reply that nobody awaits, and one that has not come yet, change nothing.
pub proof fn law_no_reply_no_change(
    m: AppModel,
    auth: Poll<ActivateReply>,
    heartbeat: Poll<HeartbeatReply>,
    now: int,
)
    ensures
        !m.auth_pending || auth is Empty ==> m.auth_polled(auth, now) == m && m.auth_actions(auth)
            == Seq::<Action>::empty(),
        !m.heartbeat_pending || heartbeat is Empty ==> m.heartbeat_polled(heartbeat, now) == m,
{
}

/// Credentials are sent only from a form that was complete, and never while
/// earlier ones are being looked at.
pub proof fn law_only_complete_forms_are_sent(
    m: AppModel,
    could_submit: bool,
    input: LoginInput,
    now: int,
)
    requires
        !could_submit || m.state == State::Authenticating,
    ensures
        forall|i: int|
            0 <= i < m.login_actions(could_submit, input, now).len() ==> !((
            #[trigger] m.login_actions(could_submit, input, now)[i]) is SendActivate),
        !m.auth_pending ==> !m.login_done(could_submit, input, now).auth_pending,
{
}

/// The login screen closes by itself exactly when nobody has left it in time:
/// not before its deadline, and at every frame from then on, after the target
/// programs were started.
pub proof fn law_login_screen_closes_in_time(
    m: AppModel,
    could_submit: bool,
    input: LoginInput,
    now: int,
)
    ensures
        ({
            let actions = m.login_actions(could_submit, input, now);
            let stays = m.login_done(could_submit, input, now).state == State::Login;
            &&& actions.contains(Action::CloseWindow) <==> stays && m.login_deadline <= now
            &&& stays && m.login_deadline <= now ==> actions.len() >= 2 && actions[actions.len() - 2]
                == Action::LaunchTargets && actions.last() == Action::CloseWindow
        }),
{
    let actions = m.login_actions(could_submit, input, now);
    let stays = m.login_done(could_submit, input, now).state == State::Login;
    if stays && m.login_deadline <= now {
        assert(actions.last() == Action::CloseWindow);
    } else {
        assert forall|i: int| 0 <= i < actions.len() implies actions[i] != Action::CloseWindow by {}
    }
}

/// The login window stays open for one minute from the start.
pub proof fn law_login_window_is_one_minute(hwid: Seq<char>, start: int, now: int)
    requires
        start <= now,
    ensures
        ({
            let m = AppModel::fresh(hwid, start);
            let idle = LoginInput { activate: false, enter: false, trial: false, buy: false };
            m.login_actions(false, idle, now).contains(Action::CloseWindow) <==> now - start >= 60
                * NANOS_PER_SEC
        }),
{
    let m = AppModel::fresh(hwid, start);
    let idle = LoginInput { activate: false, enter: false, trial: false, buy: false };
    law_login_screen_closes_in_time(m, false, idle, now);
}

/// The countdown of the login screen never goes up.
pub proof fn law_login_countdown_falls(m: AppModel, earlier: int, now: int)
    requires
        m.state == State::Login,
        earlier <= now,
    ensures
        m.login_secs(earlier) matches Some(before) && m.login_secs(now) matches Some(left) && 0
            <= left <= before,
        m.login_deadline <= now ==> m.login_secs(now) == Some(0int),
{
}

/// While a heartbeat is under way no other is sent, and none is sent before its
/// time.
pub proof fn law_no_heartbeat_too_many(m: AppModel, now: int)
    requires
        m.heartbeat_pending || (m.next_heartbeat_at matches Some(at) && now < at)
            || m.next_heartbeat_at is None,
    ensures
        m.heartbeat_checked(now) == m,
        m.heartbeat_actions(now) == Seq::<Action>::empty(),
{
}

/// In a licensed session a heartbeat whose time has come is sent, with the
/// token of the session, and its reply is awaited.
pub proof fn law_due_heartbeat_is_sent(m: AppModel, now: int)
    requires
        m.consistent(),
        m.licensed(),
        m.next_heartbeat_at matches Some(at) && at <= now,
    ensures
        m.token is Some,
        m.heartbeat_actions(now) == seq![Action::SendHeartbeat { token: m.token->0 }],
        m.heartbeat_checked(now).heartbeat_pending,
        m.heartbeat_checked(now).licensed(),
{
}

/// A heartbeat that fails on its way does not end the session: it is tried
/// again after the usual time, and nothing else changes.
pub proof fn law_lost_heartbeat_is_retried(m: AppModel, poll: Poll<HeartbeatReply>, now: int)
    requires
        m.heartbeat_pending,
        poll is Closed || (poll is Ready && poll->Ready_0 is Err),
    ensures
        ({
            let next = m.heartbeat_polled(poll, now);
            let at = after(now, m.heartbeat_interval);
            &&& next == AppModel {
                heartbeat_pending: false,
                next_heartbeat_at: Some(at),
                ..m
            }
            &&& m.heartbeat_interval >= 0 ==> m.heartbeat_poll_actions(poll, now) == seq![
                Action::RepaintAfter { nanos: m.heartbeat_interval * NANOS_PER_SEC },
            ]
        }),
{
    if m.heartbeat_interval >= 0 {
        assert(m.heartbeat_poll_actions(poll, now) =~= seq![
            Action::RepaintAfter { nanos: m.heartbeat_interval * NANOS_PER_SEC },
        ]);
    }
}

/// A heartbeat that the server refuses ends the session: back at the login
/// screen with something to say, without a token, without a heartbeat, and with
/// the target programs killed.
pub proof fn law_revocation_ends_session(m: AppModel, reply: HeartbeatReply, now: int)
    requires
        m.heartbeat_pending,
        !reply.success,
    ensures
        ({
            let poll = Poll::Ready(Ok(reply));
            let next = m.heartbeat_polled(poll, now);
            &&& next.state == State::Login
            &&& next.token is None
            &&& next.next_heartbeat_at is None && !next.heartbeat_pending
            &&& next.auth_error matches Some(text) && text.len() > 0
            &&& reply.message.len() > 0 ==> next.auth_error == Some(reply.message)
            &&& m.heartbeat_poll_actions(poll, now) == seq![Action::TerminateTargets]
        }),
{
    reveal_strlit("Phiên đã hết. Vui lòng đăng nhập lại.");
    assert(m.heartbeat_poll_actions(Poll::Ready(Ok(reply)), now) =~= seq![
        Action::TerminateTargets,
    ]);
}

/// A heartbeat that the server accepts keeps the session, takes over the
/// server's terms, and plans the next one.
pub proof fn law_accepted_heartbeat_keeps_session(m: AppModel, reply: HeartbeatReply, now: int)
    requires
        m.heartbeat_pending,
        reply.success,
    ensures
        ({
            let next = m.heartbeat_polled(Poll::Ready(Ok(reply)), now);
            &&& next.state == m.state && next.token == m.token && next.is_trial == m.is_trial
            &&& next.days_left == reply.days_left && next.expiry_date == reply.expiry_date
            &&& next.heartbeat_interval == reply.heartbeat_interval
            &&& next.next_heartbeat_at == Some(after(now, reply.heartbeat_interval))
        }),
{
}

/// A trial session that begins, and one that is renewed, has its whole time,
/// without a warning.
pub proof fn law_trial_starts_in_full(m: AppModel, now: int)
    ensures
        m.trial_begun(now).on_trial(),
        m.trial_begun(now).trial_secs(now) == TRIAL_SESSION_SECS,
        m.trial_begun(now).popup(now) == Popup::Hidden,
        m.trial_renewed(now).trial_secs(now) == TRIAL_SESSION_SECS,
        m.trial_renewed(now).popup(now) == Popup::Hidden,
        m.trial_renewed(now).trial_opened(now) == m.trial_renewed(now),
{
}

/// The time that is left of a trial session never goes up by itself.
pub proof fn law_trial_time_falls(m: AppModel, earlier: int, now: int)
    requires
        earlier <= now,
    ensures
        0 <= m.trial_secs(now) <= m.trial_secs(earlier) <= TRIAL_SESSION_SECS,
{
}

/// The warning appears exactly when ten seconds or less are left, with ten
/// seconds to count down, and then stays until the session is renewed.
pub proof fn law_warning_comes_in_time(m: AppModel, now: int)
    ensures
        m.trial_opened(now).popup_visible <==> m.popup_visible || m.trial_secs(now)
            <= TRIAL_WARN_SECS,
        m.popup_visible ==> m.trial_opened(now) == m,
        !m.popup_visible && m.trial_secs(now) <= TRIAL_WARN_SECS ==> m.trial_opened(now).popup(now)
            == (Popup::Countdown { secs: TRIAL_WARN_SECS }),
{
}

/// A warning counts its ten seconds down and is up exactly after them; the
/// frame in which it is up closes the window.
pub proof fn law_warning_lasts_ten_seconds(m: AppModel, since: int, now: int, input: TrialInput)
    requires
        m.popup_visible,
        m.popup_start == Some(since),
        since <= now,
    ensures
        m.popup(now) == Popup::Expired <==> now - since >= TRIAL_WARN_SECS * NANOS_PER_SEC,
        m.popup(now) matches Popup::Countdown { secs } ==> 1 <= secs <= TRIAL_WARN_SECS,
        m.popup(now) == Popup::Expired ==> m.trial_actions(m.popup(now), input).last()
            == Action::CloseWindow,
{
}

/// A trial session is not cut short: unless the user closes the warning, the
/// window stays open for more than 179 seconds from the start of the session.
pub proof fn law_trial_is_not_cut_short(m: AppModel, opened: int, now: int)
    requires
        !m.popup_visible,
        m.session_start <= opened <= now,
        m.trial_opened(opened).popup(now) == Popup::Expired,
    ensures
        now - m.session_start > 179 * NANOS_PER_SEC,
{
}

/// The window of a trial session closes only when the time of the warning is
/// up, or when the user closes the warning.
pub proof fn law_trial_closes_only_when_over(m: AppModel, popup: Popup, input: TrialInput)
    ensures
        m.trial_actions(popup, input).contains(Action::CloseWindow) <==> popup == Popup::Expired || (
        popup is Countdown && !input.window_open),
{
    let actions = m.trial_actions(popup, input);
    if popup == Popup::Expired || (popup is Countdown && !input.window_open) {
        assert(actions.last() == Action::CloseWindow);
    } else {
        assert forall|i: int| 0 <= i < actions.len() implies actions[i] != Action::CloseWindow by {}
    }
}

/// Leaving a licensed session gives its token back; leaving otherwise sends
/// nothing. Either way the target programs are started last.
pub proof fn law_exit_gives_license_back(m: AppModel)
    requires
        m.consistent(),
    ensures
        m.licensed() ==> m.token is Some && m.exit_actions() == seq![
            Action::SendDeactivate { token: m.token->0 },
            Action::LaunchTargets,
        ],
        !m.licensed() ==> m.exit_actions() == seq![Action::LaunchTargets],
{
    if m.licensed() {
        assert(m.exit_actions() =~= seq![
            Action::SendDeactivate { token: m.token->0 },
            Action::LaunchTargets,
        ]);
    } else {
        assert(m.exit_actions() =~= seq![Action::LaunchTargets]);
    }
}

/// A token is given back at most once.
pub proof fn law_token_is_given_back_once(m: AppModel)
    ensures
        m.left().exit_actions() == seq![Action::LaunchTargets],
{
    assert(m.left().exit_actions() =~= seq![Action::LaunchTargets]);
}

/// Every frame that begins with a look for a reply draws one screen and ends;
/// heartbeats are looked after in licensed sessions only.
pub proof fn law_frame_draws_one_screen(polled: AppModel, checked: AppModel, heard: AppModel)
    ensures
        polled.stage_after(Stage::PollAuth) == Stage::CheckHeartbeat <==> polled.licensed(),
        !polled.licensed() ==> polled.stage_after(Stage::PollAuth) == polled.screen(),
        checked.stage_after(Stage::CheckHeartbeat) == Stage::PollHeartbeat,
        heard.stage_after(Stage::PollHeartbeat) == heard.screen(),
        forall|m: AppModel| heard.stage_after(#[trigger] m.screen()) == Stage::Done,
{
}

} // verus!
