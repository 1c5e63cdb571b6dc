use antisupport::auth::{ActivateResponse, HeartbeatResponse};
use antisupport::clock::Moment;
use antisupport::model::{LoginInput, Popup, Stage, State, TrialInput};
use antisupport::screens::Tone;
use antisupport::tdc_app::{Effect, Polled, TdcApp};

const HWID: &str = "0123456789abcdef0123456789abcdef";
const IDLE: LoginInput = LoginInput { activate: false, enter: false, trial: false, buy: false };
const QUIET: TrialInput = TrialInput { on: false, off: false, renew: false, window_open: true };
const TICK: Effect = Effect::RepaintAfter { nanos: 200_000_000 };

fn s(secs: u64) -> Moment {
    Moment::at(secs, 0)
}

fn started() -> TdcApp {
    TdcApp::new(HWID.to_string(), s(0)).0
}

fn submitted() -> TdcApp {
    let mut app = started();
    app.username = "u".to_string();
    app.password = "p".to_string();
    app.finish_login(true, LoginInput { activate: true, ..IDLE }, s(5));
    app
}

fn grant(interval: u64) -> ActivateResponse {
    ActivateResponse {
        success: true,
        message: String::new(),
        token: "tok".to_string(),
        plan_name: "Pro".to_string(),
        expiry_date: "2027-01-01".to_string(),
        days_left: 42,
        _session_ttl: 300,
        heartbeat_interval: interval,
    }
}

fn denial(message: &str) -> ActivateResponse {
    ActivateResponse { success: false, message: message.to_string(), ..grant(120) }
}

fn beat(success: bool, message: &str, interval: u64) -> HeartbeatResponse {
    HeartbeatResponse {
        success,
        message: message.to_string(),
        expiry_date: "2027-02-02".to_string(),
        days_left: 41,
        heartbeat_interval: interval,
    }
}

fn licensed() -> TdcApp {
    let mut app = submitted();
    app.poll_auth(Polled::Ready(Ok(grant(100))), s(10));
    app
}

fn awaiting_heartbeat() -> TdcApp {
    let mut app = licensed();
    app.check_heartbeat(s(110));
    app
}

fn trial() -> TdcApp {
    let mut app = started();
    app.finish_login(false, LoginInput { trial: true, ..IDLE }, s(20));
    app
}

fn send_heartbeat() -> Vec<Effect> {
    vec![Effect::SendHeartbeat { token: "tok".to_string() }]
}

fn none() -> Vec<Effect> {
    Vec::new()
}

#[test]
fn start_kills_targets_and_waits_for_login() {
    let (app, effects) = TdcApp::new(HWID.to_string(), s(7));
    assert_eq!(effects, vec![Effect::TerminateTargets]);
    assert_eq!(app.state, State::Login);
    assert_eq!(app.heartbeat_interval, 120);
    assert_eq!(app.hwid, HWID);
    assert!(app.token.is_none());
    assert_eq!(app.login_deadline.secs_since(&s(7)), 60);
}

#[test]
fn submitting_sends_the_credentials() {
    let mut app = started();
    app.username = "u".to_string();
    app.password = "p".to_string();
    app.auth_error = Some("old".to_string());
    let effects = app.finish_login(true, LoginInput { enter: true, ..IDLE }, s(1));
    assert_eq!(
        effects,
        vec![Effect::SendActivate {
            username: "u".to_string(),
            password: "p".to_string(),
            hwid: HWID.to_string(),
        }]
    );
    assert_eq!(app.state, State::Authenticating);
    assert!(app.auth_pending);
    assert_eq!(app.auth_error, None);
}

#[test]
fn incomplete_form_is_not_sent() {
    let mut app = started();
    let effects = app.finish_login(false, LoginInput { activate: true, enter: true, ..IDLE }, s(1));
    assert_eq!(effects, vec![TICK]);
    assert_eq!(app.state, State::Login);
}

#[test]
fn waiting_screen_takes_no_clicks() {
    let mut app = submitted();
    let all = LoginInput { activate: true, enter: true, trial: true, buy: true };
    let effects = app.finish_login(true, all, s(1000));
    assert_eq!(effects, vec![Effect::RepaintAfter { nanos: 80_000_000 }]);
    assert_eq!(app.state, State::Authenticating);
}

#[test]
fn shop_opens() {
    let mut app = started();
    let effects = app.finish_login(false, LoginInput { buy: true, ..IDLE }, s(1));
    assert_eq!(
        effects,
        vec![Effect::OpenUrl { url: "https://hetcuu.com/antisupport".to_string() }, TICK]
    );
}

#[test]
fn login_window_lasts_one_minute() {
    let mut app = started();
    assert_eq!(app.finish_login(false, IDLE, Moment::at(59, 999_999_999)), vec![TICK]);
    assert_eq!(
        app.finish_login(false, IDLE, s(60)),
        vec![Effect::LaunchTargets, Effect::CloseWindow]
    );
    assert_eq!(
        app.finish_login(false, IDLE, s(500)),
        vec![Effect::LaunchTargets, Effect::CloseWindow]
    );
}

#[test]
fn grant_begins_a_licensed_session() {
    let mut app = submitted();
    let effects = app.poll_auth(Polled::Ready(Ok(grant(100))), s(10));
    assert_eq!(effects, vec![Effect::TerminateTargets, Effect::LaunchTargets]);
    assert_eq!(app.state, State::Session);
    assert!(!app.is_trial);
    assert!(!app.auth_pending);
    assert_eq!(app.token, Some("tok".to_string()));
    assert_eq!(app.plan_name, "Pro");
    assert_eq!(app.expiry_date, "2027-01-01");
    assert_eq!(app.days_left, 42);
    assert_eq!(app.next_heartbeat_at.unwrap().secs_since(&s(0)), 110);
}

#[test]
fn refusals_end_at_the_login_screen() {
    let cases: Vec<(Polled<ActivateResponse>, &str)> = vec![
        (Polled::Ready(Ok(denial(""))), "Kích hoạt thất bại."),
        (Polled::Ready(Ok(denial("Sai"))), "Sai"),
        (Polled::Ready(Err("mạng".to_string())), "mạng"),
        (Polled::Closed, "Lỗi nội bộ. Vui lòng thử lại."),
    ];
    for (polled, why) in cases {
        let mut app = submitted();
        assert_eq!(app.poll_auth(polled, s(10)), none());
        assert_eq!(app.state, State::Login);
        assert_eq!(app.auth_error, Some(why.to_string()));
        assert_eq!(app.token, None);
        assert!(!app.auth_pending);
    }
}

#[test]
fn nothing_comes_of_nothing() {
    let mut app = submitted();
    assert_eq!(app.poll_auth(Polled::Empty, s(10)), none());
    assert_eq!(app.state, State::Authenticating);
    let mut app = started();
    assert_eq!(app.poll_auth(Polled::Ready(Ok(grant(100))), s(10)), none());
    assert_eq!(app.state, State::Login);
    let mut app = licensed();
    assert_eq!(app.poll_heartbeat(Polled::Ready(Ok(beat(false, "", 1))), s(11)), none());
    assert_eq!(app.state, State::Session);
}

#[test]
fn heartbeat_is_sent_when_due_and_only_once() {
    let mut app = licensed();
    assert_eq!(app.check_heartbeat(Moment::at(109, 999_999_999)), none());
    assert_eq!(app.check_heartbeat(s(110)), send_heartbeat());
    assert!(app.heartbeat_pending);
    assert!(app.next_heartbeat_at.is_none());
    assert_eq!(app.check_heartbeat(s(1000)), none());
}

#[test]
fn accepted_heartbeat_plans_the_next() {
    let mut app = awaiting_heartbeat();
    let effects = app.poll_heartbeat(Polled::Ready(Ok(beat(true, "", 60))), s(112));
    assert_eq!(effects, vec![Effect::RepaintAfter { nanos: 60_000_000_000 }]);
    assert_eq!(app.days_left, 41);
    assert_eq!(app.expiry_date, "2027-02-02");
    assert_eq!(app.heartbeat_interval, 60);
    assert_eq!(app.next_heartbeat_at.unwrap().secs_since(&s(0)), 172);
    assert_eq!(app.token, Some("tok".to_string()));
}

#[test]
fn lost_heartbeat_is_retried() {
    let lost: Vec<Polled<HeartbeatResponse>> =
        vec![Polled::Closed, Polled::Ready(Err("mạng".to_string()))];
    for polled in lost {
        let mut app = awaiting_heartbeat();
        let effects = app.poll_heartbeat(polled, s(112));
        assert_eq!(effects, vec![Effect::RepaintAfter { nanos: 100_000_000_000 }]);
        assert_eq!(app.state, State::Session);
        assert_eq!(app.token, Some("tok".to_string()));
        assert_eq!(app.auth_error, None);
        assert_eq!(app.next_heartbeat_at.unwrap().secs_since(&s(0)), 212);
        assert!(!app.heartbeat_pending);
    }
}

#[test]
fn pending_heartbeat_waits() {
    let mut app = awaiting_heartbeat();
    assert_eq!(app.poll_heartbeat(Polled::Empty, s(112)), none());
    assert!(app.heartbeat_pending);
}

#[test]
fn revocation_ends_the_session() {
    for (message, why) in [("", "Phiên đã hết. Vui lòng đăng nhập lại."), ("Khóa", "Khóa")] {
        let mut app = awaiting_heartbeat();
        let effects = app.poll_heartbeat(Polled::Ready(Ok(beat(false, message, 60))), s(112));
        assert_eq!(effects, vec![Effect::TerminateTargets]);
        assert_eq!(app.state, State::Login);
        assert_eq!(app.token, None);
        assert_eq!(app.auth_error, Some(why.to_string()));
        assert!(app.next_heartbeat_at.is_none());
        assert!(!app.heartbeat_pending);
        assert_eq!(app.heartbeat_interval, 100);
    }
}

#[test]
fn licensed_frame() {
    let app = licensed();
    assert_eq!(
        app.finish_licensed(true, true, s(100)),
        vec![
            Effect::LaunchTargets,
            Effect::TerminateTargets,
            Effect::RepaintAfter { nanos: 10_000_000_000 },
        ]
    );
    assert_eq!(app.finish_licensed(false, false, s(110)), vec![Effect::Repaint]);
    assert_eq!(app.finish_licensed(false, false, s(200)), vec![Effect::Repaint]);
    assert_eq!(awaiting_heartbeat().finish_licensed(false, false, s(200)), none());
}

#[test]
fn trial_begins_in_full() {
    let mut app = started();
    let effects = app.finish_login(false, LoginInput { trial: true, ..IDLE }, s(20));
    assert_eq!(effects, vec![Effect::TerminateTargets, Effect::LaunchTargets]);
    assert_eq!(app.state, State::Session);
    assert!(app.is_trial);
    assert_eq!(app.trial_secs(s(20)), 180);
    assert_eq!(app.popup(s(20)), Popup::Hidden);
}

#[test]
fn trial_time_falls() {
    let app = trial();
    assert_eq!(app.trial_secs(Moment::at(20, 1)), 179);
    assert_eq!(app.trial_secs(s(21)), 179);
    assert_eq!(app.trial_secs(s(199)), 1);
    assert_eq!(app.trial_secs(Moment::at(199, 1)), 0);
    assert_eq!(app.trial_secs(s(200)), 0);
    assert_eq!(app.trial_secs(s(5000)), 0);
}

#[test]
fn warning_comes_at_ten_seconds_and_lasts_ten() {
    let mut app = trial();
    app.open_trial(s(189));
    assert_eq!(app.popup(s(189)), Popup::Hidden);
    app.open_trial(Moment::at(189, 1));
    assert_eq!(app.popup(Moment::at(189, 1)), Popup::Countdown { secs: 10 });
    app.open_trial(s(195));
    assert_eq!(app.popup(s(195)), Popup::Countdown { secs: 5 });
    assert_eq!(app.popup(s(199)), Popup::Countdown { secs: 1 });
    assert_eq!(app.popup(Moment::at(199, 1)), Popup::Expired);
}

#[test]
fn expired_warning_closes_the_window() {
    let mut app = trial();
    assert_eq!(app.finish_trial(Popup::Expired, QUIET, s(300)), vec![Effect::CloseWindow]);
    assert_eq!(app.finish_trial(Popup::Hidden, QUIET, s(300)), vec![TICK]);
    let closed = TrialInput { window_open: false, ..QUIET };
    let shown = Popup::Countdown { secs: 3 };
    assert_eq!(app.finish_trial(shown, closed, s(300)), vec![Effect::CloseWindow]);
    assert_eq!(app.finish_trial(Popup::Hidden, closed, s(300)), vec![TICK]);
}

#[test]
fn renewal_starts_over() {
    let mut app = trial();
    app.open_trial(s(195));
    let renew = TrialInput { renew: true, ..QUIET };
    let effects = app.finish_trial(Popup::Countdown { secs: 9 }, renew, s(196));
    assert_eq!(effects, vec![Effect::TerminateTargets, Effect::LaunchTargets, TICK]);
    assert_eq!(app.trial_secs(s(196)), 180);
    assert_eq!(app.popup(s(196)), Popup::Hidden);
    assert!(app.popup_start.is_none());
}

#[test]
fn renewal_needs_the_warning() {
    let mut app = trial();
    let renew = TrialInput { renew: true, ..QUIET };
    assert_eq!(app.finish_trial(Popup::Hidden, renew, s(100)), vec![TICK]);
    assert_eq!(app.trial_secs(s(100)), 100);
}

#[test]
fn trial_switches() {
    let mut app = trial();
    let both = TrialInput { on: true, off: true, ..QUIET };
    assert_eq!(
        app.finish_trial(Popup::Hidden, both, s(30)),
        vec![Effect::LaunchTargets, Effect::TerminateTargets, TICK]
    );
}

#[test]
fn grant_can_come_during_a_trial() {
    let mut app = started();
    app.username = "u".to_string();
    app.password = "p".to_string();
    app.finish_login(true, LoginInput { enter: true, trial: true, ..IDLE }, s(5));
    assert_eq!(app.state, State::Session);
    assert!(app.is_trial && app.auth_pending);
    app.poll_auth(Polled::Ready(Ok(grant(100))), s(10));
    assert!(!app.is_trial && !app.auth_pending);
    assert_eq!(app.token, Some("tok".to_string()));
}

#[test]
fn frames_go_through_their_stages() {
    let app = started();
    assert_eq!(app.update(Stage::PollAuth), Stage::DrawLogin);
    assert_eq!(submitted().update(Stage::PollAuth), Stage::DrawLogin);
    assert_eq!(trial().update(Stage::PollAuth), Stage::DrawTrial);
    let app = licensed();
    assert_eq!(app.update(Stage::PollAuth), Stage::CheckHeartbeat);
    assert_eq!(app.update(Stage::CheckHeartbeat), Stage::PollHeartbeat);
    assert_eq!(app.update(Stage::PollHeartbeat), Stage::DrawLicensed);
    assert_eq!(app.update(Stage::DrawLicensed), Stage::Done);
    assert_eq!(app.update(Stage::DrawLogin), Stage::Done);
    assert_eq!(app.update(Stage::DrawTrial), Stage::Done);
    assert_eq!(app.update(Stage::Done), Stage::Done);
}

#[test]
fn exit_gives_the_license_back_once() {
    let mut app = licensed();
    assert_eq!(
        app.on_exit(),
        vec![Effect::SendDeactivate { token: "tok".to_string() }, Effect::LaunchTargets]
    );
    assert_eq!(app.on_exit(), vec![Effect::LaunchTargets]);
    assert_eq!(trial().on_exit(), vec![Effect::LaunchTargets]);
    assert_eq!(started().on_exit(), vec![Effect::LaunchTargets]);
}

#[test]
fn id_and_deadline_stay() {
    let mut app = awaiting_heartbeat();
    app.poll_heartbeat(Polled::Ready(Ok(beat(false, "", 60))), s(112));
    app.finish_login(false, LoginInput { trial: true, ..IDLE }, s(120));
    app.open_trial(s(299));
    assert_eq!(app.hwid, HWID);
    assert_eq!(app.login_deadline.secs_since(&s(0)), 60);
    assert!(app.token.is_none() && app.is_trial && app.popup_visible);
}

#[test]
fn login_screen_shows() {
    let mut app = started();
    let view = app.login_view(s(0));
    assert!(!view.is_authing && !view.can_submit);
    assert_eq!(view.submit_tone, Tone::Disabled);
    assert_eq!(view.error, None);
    assert_eq!(view.hwid_label, "HWID  0123456789abcdef0123");
    let line = view.countdown.unwrap();
    assert_eq!(line.text, "Tu dong mo sau 60s");
    assert_eq!(line.tone, Tone::Muted);

    let line = app.login_view(Moment::at(49, 1)).countdown.unwrap();
    assert_eq!(line.text, "Tu dong mo sau 10s");
    assert_eq!(line.tone, Tone::Danger);
    let line = app.login_view(s(49)).countdown.unwrap();
    assert_eq!(line.text, "Tu dong mo sau 11s");
    assert_eq!(line.tone, Tone::Muted);
    assert_eq!(app.login_view(s(999)).countdown.unwrap().text, "Tu dong mo sau 0s");

    app.username = "u".to_string();
    assert!(!app.login_view(s(1)).can_submit);
    app.password = "p".to_string();
    assert!(app.login_view(s(1)).can_submit);
    assert_eq!(app.login_view(s(1)).submit_tone, Tone::Accent);

    let view = submitted().login_view(s(6));
    assert!(view.is_authing && !view.can_submit);
    assert!(view.countdown.is_none());

    app.auth_error = Some("Sai".to_string());
    assert_eq!(app.login_view(s(1)).error, Some("Sai".to_string()));
}

#[test]
fn licensed_screen_shows() {
    let view = licensed().licensed_view();
    assert_eq!(view.plan, Some("Pro".to_string()));
    assert_eq!(view.expiry, Some("Het han: 2027-01-01  (42 ngay)".to_string()));
    assert_eq!(view.hwid_label, "HWID  0123456789abcdef0123");
    let mut app = licensed();
    app.plan_name = String::new();
    app.expiry_date = String::new();
    let view = app.licensed_view();
    assert_eq!(view.plan, None);
    assert_eq!(view.expiry, None);
}

#[test]
fn trial_screen_shows() {
    let app = trial();
    for (at, text, tone) in [
        (20, "03:00", Tone::Success),
        (169, "00:31", Tone::Success),
        (170, "00:30", Tone::Caution),
        (189, "00:11", Tone::Caution),
        (190, "00:10", Tone::Danger),
        (500, "00:00", Tone::Danger),
    ] {
        let view = app.trial_view(s(at));
        assert_eq!(view.clock.text, text);
        assert_eq!(view.clock.tone, tone);
        assert_eq!(view.hwid_label, "HWID  0123456789abcdef0123");
    }
}

#[test]
fn id_has_to_be_long_enough_to_be_shown() {
    let showable =
        |id: &str| TdcApp::new(id.to_string(), s(0)).0.hwid_is_showable();
    assert!(showable(HWID));
    assert!(showable("01234567890123456789"));
    assert!(!showable("0123456789012345678"));
    assert!(!showable("UNKNOWN"));
    assert!(showable("012345678901234567đ9"));
    assert!(!showable("0123456789012345678đ"));
}

#[test]
fn colours() {
    assert_eq!(Tone::Accent.rgb(), (99, 102, 241));
    assert_eq!(Tone::Success.rgb(), (34, 197, 94));
    assert_eq!(Tone::Caution.rgb(), (250, 204, 21));
    assert_eq!(Tone::Danger.rgb(), (239, 68, 68));
    assert_eq!(Tone::Muted.rgb(), (148, 163, 184));
    assert_eq!(Tone::Disabled.rgb(), (55, 65, 81));
}
