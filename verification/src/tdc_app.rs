//! The program itself: its state and what it does at each event.

use vstd::prelude::*;
use crate::auth::{ActivateResponse, HeartbeatResponse};
use crate::clock::{in_range, Moment, NANOS_PER_SEC};
use crate::model::{
    only_if, relaunch, said_or, Action, AppModel, LoginInput, Poll, Popup, Stage, State, TrialInput,
    FIRST_INTERVAL, LOGIN_WINDOW_SECS, SHOP_URL, SPINNER_NANOS, TICK_NANOS, TRIAL_SESSION_SECS,
    TRIAL_WARN_SECS,
};

verus! {

/// What a look at a pending reply finds.
pub enum Polled<T> {
    /// It has not come yet.
    Empty,
    /// It will never come.
    Closed,
    /// It is there: the answer, or why there is none, in words.
    Ready(Result<T, String>),
}

impl<T: View> View for Polled<T> {
    type V = Poll<T::V>;

    open spec fn view(&self) -> Poll<T::V> {
        match self {
            Polled::Empty => Poll::Empty,
            Polled::Closed => Poll::Closed,
            Polled::Ready(Ok(answer)) => Poll::Ready(Ok(answer@)),
            Polled::Ready(Err(why)) => Poll::Ready(Err(why@)),
        }
    }
}

/// What the program asks of the world.
#[derive(Debug, PartialEq, Eq)]
pub enum Effect {
    /// Kill the running target programs.
    TerminateTargets,
    /// Start the target programs.
    LaunchTargets,
    /// Ask the server to activate a license.
    SendActivate { username: String, password: String, hwid: String },
    /// Tell the server that the session is alive.
    SendHeartbeat { token: String },
    /// Tell the server that the session is over.
    SendDeactivate { token: String },
    /// Open a page in the browser.
    OpenUrl { url: String },
    /// Draw the next frame at once.
    Repaint,
    /// Draw the next frame after a pause.
    RepaintAfter { nanos: u128 },
    /// Close the window.
    CloseWindow,
}

impl View for Effect {
    type V = Action;

    open spec fn view(&self) -> Action {
        match self {
            Effect::TerminateTargets => Action::TerminateTargets,
            Effect::LaunchTargets => Action::LaunchTargets,
            Effect::SendActivate { username, password, hwid } => Action::SendActivate {
                username: username@,
                password: password@,
                hwid: hwid@,
            },
            Effect::SendHeartbeat { token } => Action::SendHeartbeat { token: token@ },
            Effect::SendDeactivate { token } => Action::SendDeactivate { token: token@ },
            Effect::OpenUrl { url } => Action::OpenUrl { url: url@ },
            Effect::Repaint => Action::Repaint,
            Effect::RepaintAfter { nanos } => Action::RepaintAfter { nanos: *nanos as int },
            Effect::CloseWindow => Action::CloseWindow,
        }
    }
}

/// A list of effects as actions, in the same order.
pub open spec fn actions(effects: Seq<Effect>) -> Seq<Action> {
    effects.map_values(|e: Effect| e@)
}

/// The program.
pub struct TdcApp {
    pub username: String,
    pub password: String,
    pub auth_error: Option<String>,
    pub state: State,
    pub hwid: String,
    /// A reply to a request to activate a license is awaited.
    pub auth_pending: bool,
    /// The name of the licensed session.
    pub token: Option<String>,
    /// The time between heartbeats, in seconds.
    pub heartbeat_interval: u64,
    pub plan_name: String,
    pub expiry_date: String,
    pub days_left: i32,
    /// A reply to a heartbeat is awaited.
    pub heartbeat_pending: bool,
    pub next_heartbeat_at: Option<Moment>,
    pub is_trial: bool,
    /// When the trial session began.
    pub session_start: Moment,
    /// The warning that the trial session ends has appeared.
    pub popup_visible: bool,
    pub popup_start: Option<Moment>,
    /// When the login screen closes by itself.
    pub login_deadline: Moment,
}

/// A text that may be missing.
pub open spec fn text_view(text: Option<String>) -> Option<Seq<char>> {
    match text {
        Some(s) => Some(s@),
        None => None,
    }
}

/// A point in time that may be missing.
pub open spec fn time_view(time: Option<Moment>) -> Option<int> {
    match time {
        Some(t) => Some(t@),
        None => None,
    }
}

impl View for TdcApp {
    type V = AppModel;

    open spec fn view(&self) -> AppModel {
        AppModel {
            username: self.username@,
            password: self.password@,
            auth_error: text_view(self.auth_error),
            state: self.state,
            hwid: self.hwid@,
            auth_pending: self.auth_pending,
            token: text_view(self.token),
            heartbeat_interval: self.heartbeat_interval as int,
            plan_name: self.plan_name@,
            expiry_date: self.expiry_date@,
            days_left: self.days_left as int,
            heartbeat_pending: self.heartbeat_pending,
            next_heartbeat_at: time_view(self.next_heartbeat_at),
            is_trial: self.is_trial,
            session_start: self.session_start@,
            popup_visible: self.popup_visible,
            popup_start: time_view(self.popup_start),
            login_deadline: self.login_deadline@,
        }
    }
}

fn message_or(message: String, otherwise: &str) -> (text: String)
    ensures
        text@ == said_or(message@, otherwise@),
{
    if message.as_str().is_empty() {
        otherwise.to_owned()
    } else {
        message
    }
}

impl TdcApp {
    /// Starts the program: the target programs are killed, and the login screen
    /// is shown.
    pub fn new(hwid: String, now: Moment) -> (started: (TdcApp, Vec<Effect>))
        requires
            in_range(now@, LOGIN_WINDOW_SECS as int),
        ensures
            started.0@ == AppModel::fresh(hwid@, now@),
            started.0@.consistent(),
            actions(started.1@) == seq![Action::TerminateTargets],
    {
        let app = TdcApp {
            username: String::new(),
            password: String::new(),
            auth_error: None,
            state: State::Login,
            hwid,
            auth_pending: false,
            token: None,
            heartbeat_interval: FIRST_INTERVAL,
            plan_name: String::new(),
            expiry_date: String::new(),
            days_left: 0,
            heartbeat_pending: false,
            next_heartbeat_at: None,
            is_trial: false,
            session_start: now,
            popup_visible: false,
            popup_start: None,
            login_deadline: now.plus_secs(LOGIN_WINDOW_SECS),
        };
        let effects = vec![Effect::TerminateTargets];
        assert(actions(effects@) =~= seq![Action::TerminateTargets]);
        (app, effects)
    }

    /// Kills the target programs, then starts them afresh.
    fn launch_target(&self, effects: &mut Vec<Effect>)
        ensures
            actions(final(effects)@) == actions(old(effects)@) + relaunch(),
    {
        effects.push(Effect::TerminateTargets);
        effects.push(Effect::LaunchTargets);
        assert(actions(effects@) =~= actions(old(effects)@) + relaunch());
    }

    /// Enters a licensed session.
    fn begin_licensed(&mut self, now: Moment, effects: &mut Vec<Effect>)
        requires
            in_range(now@, old(self).heartbeat_interval as int),
        ensures
            final(self)@ == old(self)@.licensed_begun(now@),
            actions(final(effects)@) == actions(old(effects)@) + relaunch(),
    {
        self.is_trial = false;
        self.state = State::Session;
        self.next_heartbeat_at = Some(now.plus_secs(self.heartbeat_interval));
        self.launch_target(effects);
    }

    /// Enters a trial session.
    fn begin_trial(&mut self, now: Moment, effects: &mut Vec<Effect>)
        ensures
            final(self)@ == old(self)@.trial_begun(now@),
            actions(final(effects)@) == actions(old(effects)@) + relaunch(),
    {
        self.is_trial = true;
        self.state = State::Session;
        self.session_start = now;
        self.popup_visible = false;
        self.popup_start = None;
        self.launch_target(effects);
    }

    /// Starts the trial session over.
    fn renew_trial(&mut self, now: Moment, effects: &mut Vec<Effect>)
        ensures
            final(self)@ == old(self)@.trial_renewed(now@),
            actions(final(effects)@) == actions(old(effects)@) + relaunch(),
    {
        self.session_start = now;
        self.popup_visible = false;
        self.popup_start = None;
        self.launch_target(effects);
    }

    /// Takes what was found in place of the reply to a request to activate a
    /// license. The first heartbeat that a granted license plans has to be a
    /// point that the clock can show.
    pub fn poll_auth(&mut self, polled: Polled<ActivateResponse>, now: Moment) -> (effects: Vec<
        Effect,
    >)
        requires
            old(self)@.grants(polled@) ==> in_range(
                now@,
                polled@->Ready_0->Ok_0.heartbeat_interval,
            ),
        ensures
            final(self)@ == old(self)@.auth_polled(polled@, now@),
            actions(effects@) == old(self)@.auth_actions(polled@),
            old(self)@.consistent() ==> final(self)@.consistent(),
    {
        let mut effects: Vec<Effect> = Vec::new();
        assert(actions(effects@) =~= Seq::empty());
        if !self.auth_pending {
            return effects;
        }
        match polled {
            Polled::Empty => {},
            Polled::Closed => {
                self.auth_pending = false;
                self.state = State::Login;
                self.auth_error = Some("Lỗi nội bộ. Vui lòng thử lại.".to_owned());
            },
            Polled::Ready(Err(why)) => {
                self.auth_pending = false;
                self.state = State::Login;
                self.auth_error = Some(why);
            },
            Polled::Ready(Ok(reply)) => {
                self.auth_pending = false;
                if reply.success {
                    self.token = Some(reply.token);
                    self.heartbeat_interval = reply.heartbeat_interval;
                    self.plan_name = reply.plan_name;
                    self.expiry_date = reply.expiry_date;
                    self.days_left = reply.days_left;
                    self.begin_licensed(now, &mut effects);
                    assert(actions(effects@) =~= relaunch());
                } else {
                    self.state = State::Login;
                    self.auth_error = Some(message_or(reply.message, "Kích hoạt thất bại."));
                }
            },
        }
        effects
    }

    /// Sends a heartbeat if one is due.
    pub fn check_heartbeat(&mut self, now: Moment) -> (effects: Vec<Effect>)
        ensures
            final(self)@ == old(self)@.heartbeat_checked(now@),
            actions(effects@) == old(self)@.heartbeat_actions(now@),
            old(self)@.consistent() ==> final(self)@.consistent(),
    {
        let mut effects: Vec<Effect> = Vec::new();
        assert(actions(effects@) =~= Seq::empty());
        if self.heartbeat_pending {
            return effects;
        }
        let at = match self.next_heartbeat_at {
            Some(at) => at,
            None => {
                return effects;
            },
        };
        if now.is_before(&at) {
            return effects;
        }
        self.next_heartbeat_at = None;
        match &self.token {
            Some(token) => {
                effects.push(Effect::SendHeartbeat { token: token.clone() });
                self.heartbeat_pending = true;
            },
            None => {},
        }
        assert(actions(effects@) =~= old(self)@.heartbeat_actions(now@));
        effects
    }

    /// Takes what was found in place of the reply to a heartbeat. The next
    /// heartbeat that it plans has to be a point that the clock can show.
    pub fn poll_heartbeat(&mut self, polled: Polled<HeartbeatResponse>, now: Moment) -> (effects:
        Vec<Effect>)
        requires
            old(self)@.interval_to_plan(polled@) matches Some(secs) ==> in_range(now@, secs),
        ensures
            final(self)@ == old(self)@.heartbeat_polled(polled@, now@),
            actions(effects@) == old(self)@.heartbeat_poll_actions(polled@, now@),
            old(self)@.consistent() ==> final(self)@.consistent(),
    {
        let mut effects: Vec<Effect> = Vec::new();
        if !self.heartbeat_pending {
            assert(actions(effects@) =~= old(self)@.heartbeat_poll_actions(polled@, now@));
            return effects;
        }
        match polled {
            Polled::Empty => {},
            Polled::Closed => {
                self.heartbeat_pending = false;
                self.next_heartbeat_at = Some(now.plus_secs(self.heartbeat_interval));
            },
            Polled::Ready(Err(_)) => {
                self.heartbeat_pending = false;
                self.next_heartbeat_at = Some(now.plus_secs(self.heartbeat_interval));
            },
            Polled::Ready(Ok(reply)) => {
                self.heartbeat_pending = false;
                if reply.success {
                    self.days_left = reply.days_left;
                    self.expiry_date = reply.expiry_date;
                    self.heartbeat_interval = reply.heartbeat_interval;
                    self.next_heartbeat_at = Some(now.plus_secs(self.heartbeat_interval));
                } else {
                    self.token = None;
                    self.next_heartbeat_at = None;
                    self.state = State::Login;
                    self.auth_error = Some(
                        message_or(reply.message, "Phiên đã hết. Vui lòng đăng nhập lại."),
                    );
                    effects.push(Effect::TerminateTargets);
                }
            },
        }
        if let Some(at) = self.next_heartbeat_at {
            effects.push(Effect::RepaintAfter { nanos: at.nanos_since(&now) });
        }
        assert(actions(effects@) =~= old(self)@.heartbeat_poll_actions(polled@, now@));
        effects
    }

    /// Submits the credentials.
    fn submit_activate(&mut self, effects: &mut Vec<Effect>)
        ensures
            final(self)@ == old(self)@.submitted(),
            actions(final(effects)@) == actions(old(effects)@) + seq![
                Action::SendActivate {
                    username: old(self)@.username,
                    password: old(self)@.password,
                    hwid: old(self)@.hwid,
                },
            ],
    {
        self.auth_error = None;
        self.state = State::Authenticating;
        self.auth_pending = true;
        effects.push(
            Effect::SendActivate {
                username: self.username.clone(),
                password: self.password.clone(),
                hwid: self.hwid.clone(),
            },
        );
        assert(actions(effects@) =~= actions(old(effects)@) + seq![
            Action::SendActivate {
                username: old(self)@.username,
                password: old(self)@.password,
                hwid: old(self)@.hwid,
            },
        ]);
    }

    /// Ends a frame of the login screen. `could_submit` tells whether the form
    /// was complete when the frame was drawn.
    pub fn finish_login(&mut self, could_submit: bool, input: LoginInput, now: Moment) -> (effects:
        Vec<Effect>)
        ensures
            final(self)@ == old(self)@.login_done(could_submit, input, now@),
            actions(effects@) == old(self)@.login_actions(could_submit, input, now@),
            old(self)@.consistent() && old(self)@.screen() == Stage::DrawLogin
                ==> final(self)@.consistent(),
    {
        let mut effects: Vec<Effect> = Vec::new();
        let waiting = self.state == State::Authenticating;
        if waiting {
            effects.push(Effect::RepaintAfter { nanos: SPINNER_NANOS });
        }
        if !waiting && could_submit && (input.activate || input.enter) {
            self.submit_activate(&mut effects);
        }
        if !waiting && input.trial {
            self.begin_trial(now, &mut effects);
        }
        if !waiting && input.buy {
            effects.push(Effect::OpenUrl { url: SHOP_URL.to_owned() });
        }
        if self.state == State::Login {
            if now.is_before(&self.login_deadline) {
                effects.push(Effect::RepaintAfter { nanos: TICK_NANOS });
            } else {
                effects.push(Effect::LaunchTargets);
                effects.push(Effect::CloseWindow);
            }
        }
        assert(actions(effects@) =~= old(self)@.login_actions(could_submit, input, now@));
        effects
    }

    /// Ends a frame of a licensed session.
    pub fn finish_licensed(&self, on: bool, off: bool, now: Moment) -> (effects: Vec<Effect>)
        ensures
            actions(effects@) == self@.licensed_actions(on, off, now@),
    {
        let mut effects: Vec<Effect> = Vec::new();
        if on {
            effects.push(Effect::LaunchTargets);
        }
        if off {
            effects.push(Effect::TerminateTargets);
        }
        if let Some(at) = self.next_heartbeat_at {
            let nanos: u128 = at.nanos_since(&now);
            if nanos == 0 {
                effects.push(Effect::Repaint);
            } else {
                effects.push(Effect::RepaintAfter { nanos });
            }
        }
        assert(actions(effects@) =~= self@.licensed_actions(on, off, now@));
        effects
    }

    /// Whole seconds that are left of the trial session.
    pub fn trial_secs(&self, now: Moment) -> (secs: u64)
        ensures
            secs == self@.trial_secs(now@),
            secs <= TRIAL_SESSION_SECS,
    {
        let whole: u128 = TRIAL_SESSION_SECS as u128 * NANOS_PER_SEC;
        let elapsed: u128 = now.nanos_since(&self.session_start);
        if elapsed <= whole {
            ((whole - elapsed) / NANOS_PER_SEC) as u64
        } else {
            0
        }
    }

    /// Begins a frame of a trial session: shows the warning when its time has
    /// come.
    pub fn open_trial(&mut self, now: Moment)
        ensures
            final(self)@ == old(self)@.trial_opened(now@),
            old(self)@.consistent() ==> final(self)@.consistent(),
    {
        if self.trial_secs(now) <= TRIAL_WARN_SECS && !self.popup_visible {
            self.popup_visible = true;
            self.popup_start = Some(now);
        }
    }

    /// The warning as it stands.
    pub fn popup(&self, now: Moment) -> (popup: Popup)
        ensures
            popup == self@.popup(now@),
    {
        if !self.popup_visible {
            return Popup::Hidden;
        }
        let left: u64 = match self.popup_start {
            Some(since) => TRIAL_WARN_SECS.saturating_sub(now.secs_since(&since)),
            None => 0,
        };
        if left == 0 {
            Popup::Expired
        } else {
            Popup::Countdown { secs: left }
        }
    }

    /// Ends a frame of a trial session in which the warning stood as `popup`.
    pub fn finish_trial(&mut self, popup: Popup, input: TrialInput, now: Moment) -> (effects: Vec<
        Effect,
    >)
        ensures
            final(self)@ == old(self)@.trial_done(popup, input, now@),
            actions(effects@) == old(self)@.trial_actions(popup, input),
            old(self)@.consistent() ==> final(self)@.consistent(),
    {
        let mut effects: Vec<Effect> = Vec::new();
        let shown = match popup {
            Popup::Countdown { .. } => true,
            _ => false,
        };
        let leaves = match popup {
            Popup::Hidden => false,
            Popup::Countdown { .. } => !input.window_open,
            Popup::Expired => true,
        };
        if input.on {
            effects.push(Effect::LaunchTargets);
        }
        if input.off {
            effects.push(Effect::TerminateTargets);
        }
        let ghost switched = actions(effects@);
        assert(switched =~= only_if(input.on, seq![Action::LaunchTargets])
            + only_if(input.off, seq![Action::TerminateTargets]));
        if shown && input.renew {
            self.renew_trial(now, &mut effects);
        }
        assert(actions(effects@) =~= switched + only_if(
            popup is Countdown && input.renew,
            relaunch(),
        ));
        if leaves {
            effects.push(Effect::CloseWindow);
        } else {
            effects.push(Effect::RepaintAfter { nanos: TICK_NANOS });
        }
        assert(actions(effects@) =~= old(self)@.trial_actions(popup, input));
        effects
    }

    /// The stage of a frame that comes after `stage`.
    pub fn update(&self, stage: Stage) -> (next: Stage)
        ensures
            next == self@.stage_after(stage),
    {
        match stage {
            Stage::PollAuth => if self.state == State::Session && !self.is_trial {
                Stage::CheckHeartbeat
            } else {
                self.screen()
            },
            Stage::CheckHeartbeat => Stage::PollHeartbeat,
            Stage::PollHeartbeat => self.screen(),
            _ => Stage::Done,
        }
    }

    fn screen(&self) -> (stage: Stage)
        ensures
            stage == self@.screen(),
    {
        match self.state {
            State::Login => Stage::DrawLogin,
            State::Authenticating => Stage::DrawLogin,
            State::Session => if self.is_trial {
                Stage::DrawTrial
            } else {
                Stage::DrawLicensed
            },
        }
    }

    /// Ends the program: gives a license back, and starts the target programs.
    pub fn on_exit(&mut self) -> (effects: Vec<Effect>)
        ensures
            final(self)@ == old(self)@.left(),
            actions(effects@) == old(self)@.exit_actions(),
    {
        let mut effects: Vec<Effect> = Vec::new();
        if let Some(token) = self.token.take() {
            effects.push(Effect::SendDeactivate { token });
        }
        effects.push(Effect::LaunchTargets);
        assert(actions(effects@) =~= old(self)@.exit_actions());
        effects
    }
}

/// An effect stands for the action of the same name, with the same content.
pub proof fn law_effect_is_its_action(effect: Effect)
    ensures
        effect is TerminateTargets <==> effect@ == Action::TerminateTargets,
        effect is LaunchTargets <==> effect@ == Action::LaunchTargets,
        effect is Repaint <==> effect@ == Action::Repaint,
        effect is CloseWindow <==> effect@ == Action::CloseWindow,
        effect is SendActivate <==> effect@ is SendActivate,
        effect is SendHeartbeat <==> effect@ is SendHeartbeat,
        effect is SendDeactivate <==> effect@ is SendDeactivate,
        effect is OpenUrl <==> effect@ is OpenUrl,
        effect is RepaintAfter <==> effect@ is RepaintAfter,
        effect matches Effect::SendActivate { username, password, hwid } ==> effect@ == (
        Action::SendActivate { username: username@, password: password@, hwid: hwid@ }),
        effect matches Effect::SendHeartbeat { token } ==> effect@ == (Action::SendHeartbeat {
            token: token@,
        }),
        effect matches Effect::SendDeactivate { token } ==> effect@ == (Action::SendDeactivate {
            token: token@,
        }),
        effect matches Effect::OpenUrl { url } ==> effect@ == (Action::OpenUrl { url: url@ }),
        effect matches Effect::RepaintAfter { nanos } ==> effect@ == (Action::RepaintAfter {
            nanos: nanos as int,
        }),
{
}

/// A list of effects is the list of their actions, one for one.
pub proof fn law_effects_are_their_actions(effects: Seq<Effect>, i: int)
    requires
        0 <= i < effects.len(),
    ensures
        actions(effects).len() == effects.len(),
        actions(effects)[i] == effects[i]@,
{
}

/// The state machine speaks of the fields of the program, each as it is.
pub proof fn law_state_is_the_fields(app: TdcApp)
    ensures
        app@.username == app.username@,
        app@.password == app.password@,
        app@.auth_error is Some <==> app.auth_error is Some,
        app.auth_error is Some ==> app@.auth_error->0 == app.auth_error->0@,
        app@.state == app.state,
        app@.hwid == app.hwid@,
        app@.auth_pending == app.auth_pending,
        app@.token is Some <==> app.token is Some,
        app.token is Some ==> app@.token->0 == app.token->0@,
        app@.heartbeat_interval == app.heartbeat_interval,
        app@.plan_name == app.plan_name@,
        app@.expiry_date == app.expiry_date@,
        app@.days_left == app.days_left,
        app@.heartbeat_pending == app.heartbeat_pending,
        app@.next_heartbeat_at is Some <==> app.next_heartbeat_at is Some,
        app.next_heartbeat_at is Some ==> app@.next_heartbeat_at->0 == app.next_heartbeat_at->0@,
        app@.is_trial == app.is_trial,
        app@.session_start == app.session_start@,
        app@.popup_visible == app.popup_visible,
        app@.popup_start is Some <==> app.popup_start is Some,
        app.popup_start is Some ==> app@.popup_start->0 == app.popup_start->0@,
        app@.login_deadline == app.login_deadline@,
{
}

/// What a look finds is what the state machine is told.
pub proof fn law_look_is_told<T: View>(polled: Polled<T>)
    ensures
        polled is Empty <==> polled@ is Empty,
        polled is Closed <==> polled@ is Closed,
        polled matches Polled::Ready(Ok(answer)) ==> polled@ == Poll::<T::V>::Ready(Ok(answer@)),
        polled matches Polled::Ready(Err(why)) ==> polled@ == Poll::<T::V>::Ready(Err(why@)),
{
}

} // verus!
