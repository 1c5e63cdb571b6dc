//! The program as a state machine, in mathematical terms: its state, what
//! happens to it, and the effects it asks for.

use vstd::prelude::*;
use crate::auth::{ActivateReply, HeartbeatReply};
use crate::clock::{after, span, whole_secs, NANOS_PER_SEC};

verus! {

/// How long a trial session lasts, in seconds.
pub const TRIAL_SESSION_SECS: u64 = 180;

/// How long before the end of a trial session the user is warned, and how long
/// the warning stays, in seconds.
pub const TRIAL_WARN_SECS: u64 = 10;

/// How long the login screen waits for the user, in seconds.
pub const LOGIN_WINDOW_SECS: u64 = 60;

/// The time between heartbeats before the server has named one, in seconds.
pub const FIRST_INTERVAL: u64 = 120;

/// The pause between two frames while a countdown is shown, in nanoseconds.
pub const TICK_NANOS: u128 = 200_000_000;

/// The pause between two frames while a spinner is shown, in nanoseconds.
pub const SPINNER_NANOS: u128 = 80_000_000;

/// Where a license is bought.
pub const SHOP_URL: &'static str = "https://hetcuu.com/antisupport";

/// Where the user stands.
#[derive(Clone, Copy, Debug, PartialEq, Eq, Structural)]
pub enum State {
    /// At the login screen.
    Login,
    /// At the login screen, while the server looks at the credentials.
    Authenticating,
    /// In a session, licensed or on trial.
    Session,
}

/// What a look at a pending reply finds.
pub enum Poll<T> {
    /// It has not come yet.
    Empty,
    /// It will never come.
    Closed,
    /// It is there: the answer, or why there is none, in words.
    Ready(Result<T, Seq<char>>),
}

/// What the state machine asks of the world.
pub enum Action {
    /// Kill the running target programs.
    TerminateTargets,
    /// Start the target programs.
    LaunchTargets,
    /// Ask the server to activate a license.
    SendActivate { username: Seq<char>, password: Seq<char>, hwid: Seq<char> },
    /// Tell the server that the session is alive.
    SendHeartbeat { token: Seq<char> },
    /// Tell the server that the session is over.
    SendDeactivate { token: Seq<char> },
    /// Open a page in the browser.
    OpenUrl { url: Seq<char> },
    /// Draw the next frame at once.
    Repaint,
    /// Draw the next frame after a pause.
    RepaintAfter { nanos: int },
    /// Close the window.
    CloseWindow,
}

/// What the user did at the login screen during one frame.
#[derive(Clone, Copy)]
pub struct LoginInput {
    /// Clicked the button that submits the credentials.
    pub activate: bool,
    /// Pressed the Enter key.
    pub enter: bool,
    /// Clicked the button that starts a trial.
    pub trial: bool,
    /// Clicked the button that leads to the shop.
    pub buy: bool,
}

/// What the user did at the screen of a trial session during one frame.
#[derive(Clone, Copy)]
pub struct TrialInput {
    /// Clicked the button that starts the target programs.
    pub on: bool,
    /// Clicked the button that kills the target programs.
    pub off: bool,
    /// Clicked the button in the warning that renews the session.
    pub renew: bool,
    /// Left the warning open.
    pub window_open: bool,
}

/// The warning that a trial session ends.
#[derive(Clone, Copy, Debug, PartialEq, Eq, Structural)]
pub enum Popup {
    /// It is not due.
    Hidden,
    /// It stays for so many seconds more.
    Countdown { secs: u64 },
    /// Its time is up.
    Expired,
}

/// What is done within a frame, one after the other.
#[derive(Clone, Copy, Debug, PartialEq, Eq, Structural)]
pub enum Stage {
    /// Look for the reply to a request to activate a license.
    PollAuth,
    /// Send a heartbeat if one is due.
    CheckHeartbeat,
    /// Look for the reply to a heartbeat.
    PollHeartbeat,
    /// Draw the login screen.
    DrawLogin,
    /// Draw the screen of a trial session.
    DrawTrial,
    /// Draw the screen of a licensed session.
    DrawLicensed,
    /// Nothing is left to do.
    Done,
}

/// The state of the program. Times are nanoseconds on its clock.
#[verifier::ext_equal]
pub struct AppModel {
    pub username: Seq<char>,
    pub password: Seq<char>,
    pub auth_error: Option<Seq<char>>,
    pub state: State,
    pub hwid: Seq<char>,
    pub auth_pending: bool,
    pub token: Option<Seq<char>>,
    pub heartbeat_interval: int,
    pub plan_name: Seq<char>,
    pub expiry_date: Seq<char>,
    pub days_left: int,
    pub heartbeat_pending: bool,
    pub next_heartbeat_at: Option<int>,
    pub is_trial: bool,
    pub session_start: int,
    pub popup_visible: bool,
    pub popup_start: Option<int>,
    pub login_deadline: int,
}

/// Kill the target programs, then start them afresh.
pub open spec fn relaunch() -> Seq<Action> {
    seq![Action::TerminateTargets, Action::LaunchTargets]
}

/// Some actions if a condition holds, otherwise none.
pub open spec fn only_if(condition: bool, actions: Seq<Action>) -> Seq<Action> {
    if condition {
        actions
    } else {
        Seq::empty()
    }
}

/// What the server said, or a text of our own when it said nothing.
pub open spec fn said_or(message: Seq<char>, otherwise: Seq<char>) -> Seq<char> {
    if message.len() == 0 {
        otherwise
    } else {
        message
    }
}

impl AppModel {
    /// The program when it starts.
    pub open spec fn fresh(hwid: Seq<char>, now: int) -> AppModel {
        AppModel {
            username: Seq::empty(),
            password: Seq::empty(),
            auth_error: None,
            state: State::Login,
            hwid,
            auth_pending: false,
            token: None,
            heartbeat_interval: FIRST_INTERVAL as int,
            plan_name: Seq::empty(),
            expiry_date: Seq::empty(),
            days_left: 0,
            heartbeat_pending: false,
            next_heartbeat_at: None,
            is_trial: false,
            session_start: now,
            popup_visible: false,
            popup_start: None,
            login_deadline: after(now, LOGIN_WINDOW_SECS as int),
        }
    }

    /// A licensed session is running.
    pub open spec fn licensed(self) -> bool {
        self.state == State::Session && !self.is_trial
    }

    /// A trial session is running.
    pub open spec fn on_trial(self) -> bool {
        self.state == State::Session && self.is_trial
    }

    /// The invariant of the program.
    pub open spec fn consistent(self) -> bool {
        // The login screen waits exactly while a reply is awaited; such a reply
        // can otherwise be awaited only in a trial that was begun meanwhile.
        &&& self.state == State::Authenticating ==> self.auth_pending
        &&& self.auth_pending ==> self.state == State::Authenticating || self.on_trial()
        // A token is held exactly in a licensed session.
        &&& self.token is Some <==> self.licensed()
        // In a licensed session a heartbeat is either planned or under way, and
        // never both; outside of it there is neither.
        &&& self.licensed() ==> (self.next_heartbeat_at is Some) != self.heartbeat_pending
        &&& !self.licensed() ==> self.next_heartbeat_at is None && !self.heartbeat_pending
        // A visible warning knows since when it has been visible.
        &&& self.popup_visible <==> self.popup_start is Some
    }

    /// Back at the login screen, with something to say to the user.
    pub open spec fn turned_away(self, why: Seq<char>) -> AppModel {
        AppModel { state: State::Login, auth_error: Some(why), ..self }
    }

    /// In a licensed session, with the first heartbeat planned.
    pub open spec fn licensed_begun(self, now: int) -> AppModel {
        AppModel {
            is_trial: false,
            state: State::Session,
            next_heartbeat_at: Some(after(now, self.heartbeat_interval)),
            ..self
        }
    }

    /// With a trial session that starts over.
    pub open spec fn trial_renewed(self, now: int) -> AppModel {
        AppModel { session_start: now, popup_visible: false, popup_start: None, ..self }
    }

    /// In a trial session that has just begun.
    pub open spec fn trial_begun(self, now: int) -> AppModel {
        AppModel { is_trial: true, state: State::Session, ..self.trial_renewed(now) }
    }

    /// After the credentials were submitted.
    pub open spec fn submitted(self) -> AppModel {
        AppModel {
            auth_error: None,
            state: State::Authenticating,
            auth_pending: true,
            ..self
        }
    }

    /// With the license that the server granted.
    pub open spec fn granted(self, reply: ActivateReply) -> AppModel {
        AppModel {
            token: Some(reply.token),
            heartbeat_interval: reply.heartbeat_interval,
            plan_name: reply.plan_name,
            expiry_date: reply.expiry_date,
            days_left: reply.days_left,
            ..self
        }
    }

    /// After a look for the reply to a request to activate a license.
    pub open spec fn auth_polled(self, poll: Poll<ActivateReply>, now: int) -> AppModel {
        let settled = AppModel { auth_pending: false, ..self };
        if !self.auth_pending {
            self
        } else {
            match poll {
                Poll::Empty => self,
                Poll::Closed => settled.turned_away("Lỗi nội bộ. Vui lòng thử lại."@),
                Poll::Ready(Err(why)) => settled.turned_away(why),
                Poll::Ready(Ok(reply)) => if reply.success {
                    settled.granted(reply).licensed_begun(now)
                } else {
                    settled.turned_away(said_or(reply.message, "Kích hoạt thất bại."@))
                },
            }
        }
    }

    /// A look for the reply finds that the license was granted.
    pub open spec fn grants(self, poll: Poll<ActivateReply>) -> bool {
        self.auth_pending && (poll matches Poll::Ready(Ok(reply)) && reply.success)
    }

    /// A granted license starts the target programs afresh.
    pub open spec fn auth_actions(self, poll: Poll<ActivateReply>) -> Seq<Action> {
        only_if(self.grants(poll), relaunch())
    }

    /// It is time for a heartbeat.
    pub open spec fn heartbeat_due(self, now: int) -> bool {
        !self.heartbeat_pending && (self.next_heartbeat_at matches Some(at) && at <= now)
    }

    /// After the check whether a heartbeat is due.
    pub open spec fn heartbeat_checked(self, now: int) -> AppModel {
        if self.heartbeat_due(now) {
            AppModel { next_heartbeat_at: None, heartbeat_pending: self.token is Some, ..self }
        } else {
            self
        }
    }

    /// A heartbeat that is due is sent, with the token of the session.
    pub open spec fn heartbeat_actions(self, now: int) -> Seq<Action> {
        only_if(
            self.heartbeat_due(now) && self.token is Some,
            seq![Action::SendHeartbeat { token: self.token->0 }],
        )
    }

    /// With the next heartbeat planned.
    pub open spec fn heartbeat_planned(self, now: int) -> AppModel {
        AppModel { next_heartbeat_at: Some(after(now, self.heartbeat_interval)), ..self }
    }

    /// After a look for the reply to a heartbeat. A heartbeat that failed on its
    /// way is tried again after the usual time; one that the server refuses
    /// ends the session.
    pub open spec fn heartbeat_polled(self, poll: Poll<HeartbeatReply>, now: int) -> AppModel {
        let settled = AppModel { heartbeat_pending: false, ..self };
        if !self.heartbeat_pending {
            self
        } else {
            match poll {
                Poll::Empty => self,
                Poll::Closed => settled.heartbeat_planned(now),
                Poll::Ready(Err(_)) => settled.heartbeat_planned(now),
                Poll::Ready(Ok(reply)) => if reply.success {
                    AppModel {
                        days_left: reply.days_left,
                        expiry_date: reply.expiry_date,
                        heartbeat_interval: reply.heartbeat_interval,
                        ..settled
                    }.heartbeat_planned(now)
                } else {
                    AppModel { token: None, next_heartbeat_at: None, ..settled }.turned_away(
                        said_or(reply.message, "Phiên đã hết. Vui lòng đăng nhập lại."@),
                    )
                },
            }
        }
    }

    /// A look for the reply finds that the server has ended the session.
    pub open spec fn revokes(self, poll: Poll<HeartbeatReply>) -> bool {
        self.heartbeat_pending && (poll matches Poll::Ready(Ok(reply)) && !reply.success)
    }

    /// The time between heartbeats that counts after a look for the reply, if
    /// that look plans the next one.
    pub open spec fn interval_to_plan(self, poll: Poll<HeartbeatReply>) -> Option<int> {
        if !self.heartbeat_pending {
            None
        } else {
            match poll {
                Poll::Empty => None,
                Poll::Closed => Some(self.heartbeat_interval),
                Poll::Ready(Err(_)) => Some(self.heartbeat_interval),
                Poll::Ready(Ok(reply)) => if reply.success {
                    Some(reply.heartbeat_interval)
                } else {
                    None
                },
            }
        }
    }

    /// A session that the server has ended kills the target programs; a
    /// heartbeat that is planned needs a frame when its time comes.
    pub open spec fn heartbeat_poll_actions(self, poll: Poll<HeartbeatReply>, now: int) -> Seq<
        Action,
    > {
        let planned = self.heartbeat_polled(poll, now).next_heartbeat_at;
        only_if(self.revokes(poll), seq![Action::TerminateTargets]) + only_if(
            self.heartbeat_pending && planned is Some,
            seq![Action::RepaintAfter { nanos: span(now, planned->0) }],
        )
    }

    /// The credentials can be submitted.
    pub open spec fn can_submit(self) -> bool {
        self.state != State::Authenticating && self.username.len() > 0 && self.password.len() > 0
    }

    /// Seconds until the login screen closes by itself, while it waits for the
    /// user.
    pub open spec fn login_secs(self, now: int) -> Option<int> {
        if self.state == State::Login {
            Some(whole_secs(span(now, self.login_deadline)))
        } else {
            None
        }
    }

    /// The user submits the credentials; that takes a form that was complete
    /// when it was drawn.
    pub open spec fn submits(self, could_submit: bool, input: LoginInput) -> bool {
        self.state != State::Authenticating && could_submit && (input.activate || input.enter)
    }

    /// The user begins a trial.
    pub open spec fn begins_trial(self, input: LoginInput) -> bool {
        self.state != State::Authenticating && input.trial
    }

    /// After a frame of the login screen.
    pub open spec fn login_done(self, could_submit: bool, input: LoginInput, now: int) -> AppModel {
        let first = if self.submits(could_submit, input) {
            self.submitted()
        } else {
            self
        };
        if self.begins_trial(input) {
            first.trial_begun(now)
        } else {
            first
        }
    }

    /// What a frame of the login screen asks for. A login screen that nobody
    /// has left in time starts the target programs and closes the window.
    pub open spec fn login_actions(self, could_submit: bool, input: LoginInput, now: int) -> Seq<
        Action,
    > {
        let waiting = self.state == State::Authenticating;
        let stays = self.login_done(could_submit, input, now).state == State::Login;
        only_if(waiting, seq![Action::RepaintAfter { nanos: SPINNER_NANOS as int }]) + only_if(
            self.submits(could_submit, input),
            seq![
                Action::SendActivate {
                    username: self.username,
                    password: self.password,
                    hwid: self.hwid,
                },
            ],
        ) + only_if(self.begins_trial(input), relaunch()) + only_if(
            !waiting && input.buy,
            seq![Action::OpenUrl { url: SHOP_URL@ }],
        ) + only_if(
            stays && self.login_deadline <= now,
            seq![Action::LaunchTargets, Action::CloseWindow],
        ) + only_if(
            stays && now < self.login_deadline,
            seq![Action::RepaintAfter { nanos: TICK_NANOS as int }],
        )
    }

    /// What a frame of a licensed session asks for.
    pub open spec fn licensed_actions(self, on: bool, off: bool, now: int) -> Seq<Action> {
        only_if(on, seq![Action::LaunchTargets]) + only_if(off, seq![Action::TerminateTargets])
            + match self.next_heartbeat_at {
            Some(at) => if at <= now {
                seq![Action::Repaint]
            } else {
                seq![Action::RepaintAfter { nanos: at - now }]
            },
            None => Seq::empty(),
        }
    }

    /// Whole seconds that are left of a trial session.
    pub open spec fn trial_secs(self, now: int) -> int {
        whole_secs(
            span(span(self.session_start, now), TRIAL_SESSION_SECS * NANOS_PER_SEC as int),
        )
    }

    /// At the start of a frame of a trial session: the warning appears when
    /// its time has come.
    pub open spec fn trial_opened(self, now: int) -> AppModel {
        if self.trial_secs(now) <= TRIAL_WARN_SECS && !self.popup_visible {
            AppModel { popup_visible: true, popup_start: Some(now), ..self }
        } else {
            self
        }
    }

    /// The warning as it stands.
    pub open spec fn popup(self, now: int) -> Popup {
        let left = match self.popup_start {
            Some(since) => span(whole_secs(span(since, now)), TRIAL_WARN_SECS as int),
            None => 0,
        };
        if !self.popup_visible {
            Popup::Hidden
        } else if left == 0 {
            Popup::Expired
        } else {
            Popup::Countdown { secs: left as u64 }
        }
    }

    /// After a frame of a trial session.
    pub open spec fn trial_done(self, popup: Popup, input: TrialInput, now: int) -> AppModel {
        if popup is Countdown && input.renew {
            self.trial_renewed(now)
        } else {
            self
        }
    }

    /// What a frame of a trial session asks for. The window closes when the
    /// time of the warning is up, and when the user closes the warning.
    pub open spec fn trial_actions(self, popup: Popup, input: TrialInput) -> Seq<Action> {
        let leaves = popup is Expired || (popup is Countdown && !input.window_open);
        only_if(input.on, seq![Action::LaunchTargets]) + only_if(
            input.off,
            seq![Action::TerminateTargets],
        ) + only_if(popup is Countdown && input.renew, relaunch()) + only_if(
            leaves,
            seq![Action::CloseWindow],
        ) + only_if(!leaves, seq![Action::RepaintAfter { nanos: TICK_NANOS as int }])
    }

    /// After the window was closed.
    pub open spec fn left(self) -> AppModel {
        AppModel { token: None, ..self }
    }

    /// What is done when the window was closed: a license is given back, and the
    /// target programs are started.
    pub open spec fn exit_actions(self) -> Seq<Action> {
        only_if(self.token is Some, seq![Action::SendDeactivate { token: self.token->0 }])
            + seq![Action::LaunchTargets]
    }

    /// The screen that is drawn.
    pub open spec fn screen(self) -> Stage {
        if self.licensed() {
            Stage::DrawLicensed
        } else if self.on_trial() {
            Stage::DrawTrial
        } else {
            Stage::DrawLogin
        }
    }

    /// What comes after a stage of a frame.
    pub open spec fn stage_after(self, stage: Stage) -> Stage {
        match stage {
            Stage::PollAuth => if self.licensed() {
                Stage::CheckHeartbeat
            } else {
                self.screen()
            },
            Stage::CheckHeartbeat => Stage::PollHeartbeat,
            Stage::PollHeartbeat => self.screen(),
            _ => Stage::Done,
        }
    }
}

} // verus!
