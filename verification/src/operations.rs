//! What each operation of the program does, in terms of what the user clicked,
//! what the server said, and what the clock shows.

use vstd::prelude::*;
use crate::auth::{ActivateReply, HeartbeatReply};
use crate::model::{Action, AppModel, LoginInput, Poll, Popup, Stage, State, TrialInput};

verus! {

/// The program starts at the login screen, which stays open for one minute,
/// with an empty form, without a session and without anything under way.
pub proof fn law_start(hwid: Seq<char>, now: int)
    ensures
        ({
            let m = AppModel::fresh(hwid, now);
            &&& m.state == State::Login && !m.is_trial
            &&& m.hwid == hwid
            &&& m.username.len() == 0 && m.password.len() == 0 && m.auth_error is None
            &&& m.token is None && !m.auth_pending
            &&& m.next_heartbeat_at is None && !m.heartbeat_pending
            &&& m.heartbeat_interval == 120
            &&& m.plan_name.len() == 0 && m.expiry_date.len() == 0 && m.days_left == 0
            &&& !m.popup_visible && m.popup_start is None
            &&& m.session_start == now
            &&& m.login_deadline - now == 60_000_000_000
        }),
{
}

/// A reply that grants the license, whatever else it holds, begins a licensed
/// session on its terms and nothing else; the target programs are killed and
/// then started.
pub proof fn law_granted(m: AppModel, reply: ActivateReply, now: int)
    requires
        m.auth_pending,
        reply.success,
    ensures
        ({
            let poll = Poll::Ready(Ok(reply));
            &&& m.auth_polled(poll, now) == AppModel {
                auth_pending: false,
                state: State::Session,
                is_trial: false,
                token: Some(reply.token),
                heartbeat_interval: reply.heartbeat_interval,
                plan_name: reply.plan_name,
                expiry_date: reply.expiry_date,
                days_left: reply.days_left,
                next_heartbeat_at: Some(now + reply.heartbeat_interval * 1_000_000_000),
                ..m
            }
            &&& m.auth_actions(poll) == seq![Action::TerminateTargets, Action::LaunchTargets]
            &&& m.grants(poll)
        }),
{
}

/// A request to activate a license that does not end in a grant leads back to
/// the login screen with the reason, and to nothing else: the server's words if
/// it has any, the reason why there was no answer, or words of our own.
pub proof fn law_not_granted(m: AppModel, poll: Poll<ActivateReply>, now: int)
    requires
        m.auth_pending,
        poll is Closed || (poll matches Poll::Ready(result) && (result is Err
            || !result->Ok_0.success)),
    ensures
        ({
            let next = m.auth_polled(poll, now);
            &&& next.auth_error is Some
            &&& next == AppModel {
                auth_pending: false,
                state: State::Login,
                auth_error: next.auth_error,
                ..m
            }
            &&& poll matches Poll::Ready(Err(why)) ==> next.auth_error == Some(why)
            &&& poll matches Poll::Ready(Ok(reply)) ==> next.auth_error == Some(
                if reply.message.len() > 0 {
                    reply.message
                } else {
                    "Kích hoạt thất bại."@
                },
            )
            &&& poll is Closed ==> next.auth_error == Some("Lỗi nội bộ. Vui lòng thử lại."@)
            &&& m.auth_actions(poll).len() == 0
            &&& !m.grants(poll)
        }),
{
}

/// A look that finds no reply, and one that nobody waits for, does nothing.
pub proof fn law_no_auth_reply(m: AppModel, poll: Poll<ActivateReply>, now: int)
    requires
        !m.auth_pending || poll is Empty,
    ensures
        m.auth_polled(poll, now) == m,
        m.auth_actions(poll).len() == 0,
        !m.grants(poll),
{
}

/// A heartbeat is sent exactly when none is under way, the time of the planned
/// one has come, and there is a token, which it carries. From then on its reply
/// is awaited. Otherwise nothing happens, except that a heartbeat without a
/// token is dropped.
pub proof fn law_heartbeat_check(m: AppModel, now: int)
    ensures
        ({
            let due = !m.heartbeat_pending && m.next_heartbeat_at is Some
                && m.next_heartbeat_at->0 <= now;
            let next = m.heartbeat_checked(now);
            let actions = m.heartbeat_actions(now);
            &&& due && m.token is Some ==> actions == seq![
                Action::SendHeartbeat { token: m.token->0 },
            ] && next == (AppModel { next_heartbeat_at: None, heartbeat_pending: true, ..m })
            &&& due && m.token is None ==> actions.len() == 0 && next == (AppModel {
                next_heartbeat_at: None,
                ..m
            })
            &&& !due ==> actions.len() == 0 && next == m
        }),
{
}

/// A heartbeat that the server accepts, whatever else its reply holds, keeps
/// everything but the terms that the reply names, plans the next heartbeat one
/// interval later, and asks for one thing only: a frame at that time.
pub proof fn law_heartbeat_accepted(m: AppModel, reply: HeartbeatReply, now: int)
    requires
        m.heartbeat_pending,
        reply.success,
        reply.heartbeat_interval >= 0,
    ensures
        ({
            let poll = Poll::Ready(Ok(reply));
            &&& m.heartbeat_polled(poll, now) == AppModel {
                heartbeat_pending: false,
                days_left: reply.days_left,
                expiry_date: reply.expiry_date,
                heartbeat_interval: reply.heartbeat_interval,
                next_heartbeat_at: Some(now + reply.heartbeat_interval * 1_000_000_000),
                ..m
            }
            &&& m.heartbeat_poll_actions(poll, now) == seq![
                Action::RepaintAfter { nanos: reply.heartbeat_interval * 1_000_000_000 },
            ]
            &&& m.interval_to_plan(poll) == Some(reply.heartbeat_interval)
        }),
{
    assert(m.heartbeat_poll_actions(Poll::Ready(Ok(reply)), now) =~= seq![
        Action::RepaintAfter { nanos: reply.heartbeat_interval * 1_000_000_000 },
    ]);
}

/// A heartbeat that the server refuses, whatever else its reply holds, ends the
/// session and nothing else: the token is gone, the login screen tells why, and
/// the target programs are killed, which is all that is asked for.
pub proof fn law_heartbeat_refused(m: AppModel, reply: HeartbeatReply, now: int)
    requires
        m.heartbeat_pending,
        !reply.success,
    ensures
        ({
            let poll = Poll::Ready(Ok(reply));
            &&& m.heartbeat_polled(poll, now) == AppModel {
                heartbeat_pending: false,
                token: None,
                next_heartbeat_at: None,
                state: State::Login,
                auth_error: Some(
                    if reply.message.len() > 0 {
                        reply.message
                    } else {
                        "Phiên đã hết. Vui lòng đăng nhập lại."@
                    },
                ),
                ..m
            }
            &&& m.heartbeat_poll_actions(poll, now) == seq![Action::TerminateTargets]
            &&& m.interval_to_plan(poll) is None
        }),
{
    assert(m.heartbeat_poll_actions(Poll::Ready(Ok(reply)), now) =~= seq![
        Action::TerminateTargets,
    ]);
}

/// A heartbeat whose reply is lost changes nothing but the plan: the next one
/// goes out one interval later, and a frame is asked for at that time.
pub proof fn law_heartbeat_lost(m: AppModel, poll: Poll<HeartbeatReply>, now: int)
    requires
        m.heartbeat_pending,
        poll is Closed || (poll matches Poll::Ready(result) && result is Err),
        m.heartbeat_interval >= 0,
    ensures
        m.heartbeat_polled(poll, now) == (AppModel {
            heartbeat_pending: false,
            next_heartbeat_at: Some(now + m.heartbeat_interval * 1_000_000_000),
            ..m
        }),
        m.heartbeat_poll_actions(poll, now) == seq![
            Action::RepaintAfter { nanos: m.heartbeat_interval * 1_000_000_000 },
        ],
        m.interval_to_plan(poll) == Some(m.heartbeat_interval),
{
    assert(m.heartbeat_poll_actions(poll, now) =~= seq![
        Action::RepaintAfter { nanos: m.heartbeat_interval * 1_000_000_000 },
    ]);
}

/// A look that finds no reply to a heartbeat, and one that nobody waits for,
/// changes nothing. At most it asks for a frame at the time of a heartbeat that
/// is planned beside the one under way.
pub proof fn law_no_heartbeat_reply(m: AppModel, poll: Poll<HeartbeatReply>, now: int)
    requires
        !m.heartbeat_pending || poll is Empty,
    ensures
        m.heartbeat_polled(poll, now) == m,
        m.interval_to_plan(poll) is None,
        !m.heartbeat_pending || m.next_heartbeat_at is None ==> m.heartbeat_poll_actions(
            poll,
            now,
        ).len() == 0,
        m.heartbeat_pending && m.next_heartbeat_at is Some ==> m.heartbeat_poll_actions(poll, now)
            == seq![
            Action::RepaintAfter {
                nanos: if now <= m.next_heartbeat_at->0 {
                    m.next_heartbeat_at->0 - now
                } else {
                    0
                },
            },
        ],
{
    if m.heartbeat_pending && m.next_heartbeat_at is Some {
        assert(m.heartbeat_poll_actions(poll, now) =~= seq![
            Action::RepaintAfter {
                nanos: if now <= m.next_heartbeat_at->0 {
                    m.next_heartbeat_at->0 - now
                } else {
                    0
                },
            },
        ]);
    }
}

/// A look for the reply to a heartbeat kills the target programs if and only
/// if a reply is awaited, is there, and refuses. It never starts them, sends
/// nothing and closes nothing.
pub proof fn law_only_a_refusal_kills(m: AppModel, poll: Poll<HeartbeatReply>, now: int)
    ensures
        ({
            let actions = m.heartbeat_poll_actions(poll, now);
            &&& actions.contains(Action::TerminateTargets) <==> m.heartbeat_pending && (
            poll matches Poll::Ready(Ok(reply)) && !reply.success)
            &&& forall|i: int| 0 <= i < actions.len() ==> ((#[trigger] actions[i])
                is TerminateTargets || actions[i] is RepaintAfter)
        }),
{
    let actions = m.heartbeat_poll_actions(poll, now);
    if m.heartbeat_pending && (poll matches Poll::Ready(Ok(reply)) && !reply.success) {
        assert(actions[0] == Action::TerminateTargets);
    } else {
        assert forall|i: int| 0 <= i < actions.len() implies actions[i]
            != Action::TerminateTargets by {}
    }
}

/// The form can be submitted exactly when it is filled in and no credentials
/// are being looked at.
pub proof fn law_form_is_complete(m: AppModel)
    ensures
        m.can_submit() <==> m.state != State::Authenticating && m.username != Seq::<char>::empty()
            && m.password != Seq::<char>::empty(),
{
    assert(m.username.len() == 0 <==> m.username =~= Seq::<char>::empty());
    assert(m.password.len() == 0 <==> m.password =~= Seq::<char>::empty());
}

/// Whenever the form was complete and the user clicked the button or pressed
/// Enter, whatever else the state holds, the credentials of the form go to the
/// server with the hardware id, before anything else is done. Afterwards a
/// reply is awaited and the old message is gone.
pub proof fn law_submission(m: AppModel, could_submit: bool, input: LoginInput, now: int)
    requires
        m.state != State::Authenticating,
        could_submit,
        input.activate || input.enter,
    ensures
        ({
            let next = m.login_done(could_submit, input, now);
            let actions = m.login_actions(could_submit, input, now);
            &&& actions.len() > 0 && actions[0] == Action::SendActivate {
                username: m.username,
                password: m.password,
                hwid: m.hwid,
            }
            &&& next.auth_pending
            &&& next.auth_error is None
            &&& !input.trial ==> next == AppModel {
                auth_pending: true,
                auth_error: None,
                state: State::Authenticating,
                ..m
            }
        }),
{
}

/// Credentials are sent in no other case, and the wait for a reply and the
/// message stay as they are.
pub proof fn law_no_submission(m: AppModel, could_submit: bool, input: LoginInput, now: int)
    requires
        m.state == State::Authenticating || !could_submit || !(input.activate || input.enter),
    ensures
        ({
            let next = m.login_done(could_submit, input, now);
            let actions = m.login_actions(could_submit, input, now);
            &&& forall|i: int| 0 <= i < actions.len() ==> !((#[trigger] actions[i]) is SendActivate)
            &&& next.auth_pending == m.auth_pending
            &&& next.auth_error == m.auth_error
        }),
{
}

/// A click on the trial button, outside of a wait for the server, begins a
/// trial that has its whole time from now, without a warning, and kills and then
/// starts the target programs. It leaves alone what the trial is not about.
pub proof fn law_trial_click(m: AppModel, could_submit: bool, input: LoginInput, now: int)
    requires
        m.state != State::Authenticating,
        input.trial,
    ensures
        ({
            let next = m.login_done(could_submit, input, now);
            let actions = m.login_actions(could_submit, input, now);
            let at: int = if could_submit && (input.activate || input.enter) {
                1
            } else {
                0
            };
            &&& next == AppModel {
                state: State::Session,
                is_trial: true,
                session_start: now,
                popup_visible: false,
                popup_start: None,
                auth_pending: next.auth_pending,
                auth_error: next.auth_error,
                ..m
            }
            &&& actions.len() >= at + 2
            &&& actions[at] == Action::TerminateTargets
            &&& actions[at + 1] == Action::LaunchTargets
        }),
{
}

/// Without a click on the trial button there is no trial, and a frame in which
/// the credentials are not submitted either changes nothing at all.
pub proof fn law_no_trial_click(m: AppModel, could_submit: bool, input: LoginInput, now: int)
    requires
        m.state == State::Authenticating || !input.trial,
    ensures
        ({
            let next = m.login_done(could_submit, input, now);
            let submits = m.state != State::Authenticating && could_submit && (input.activate
                || input.enter);
            &&& next == AppModel {
                state: next.state,
                auth_pending: next.auth_pending,
                auth_error: next.auth_error,
                ..m
            }
            &&& !submits ==> next == m
            &&& !m.login_actions(could_submit, input, now).contains(Action::TerminateTargets)
        }),
{
    let actions = m.login_actions(could_submit, input, now);
    assert forall|i: int| 0 <= i < actions.len() implies actions[i]
        != Action::TerminateTargets by {}
}

/// While the server looks at credentials the login screen takes no clicks: it
/// only asks for the next frame of its spinner.
pub proof fn law_waiting_screen(m: AppModel, could_submit: bool, input: LoginInput, now: int)
    requires
        m.state == State::Authenticating,
    ensures
        m.login_done(could_submit, input, now) == m,
        m.login_actions(could_submit, input, now) == seq![
            Action::RepaintAfter { nanos: 80_000_000 },
        ],
{
    assert(m.login_actions(could_submit, input, now) =~= seq![
        Action::RepaintAfter { nanos: 80_000_000 },
    ]);
}

/// The shop opens exactly at a click on its button, outside of a wait for the
/// server, and nothing else opens a page.
pub proof fn law_shop_click(m: AppModel, could_submit: bool, input: LoginInput, now: int)
    ensures
        ({
            let actions = m.login_actions(could_submit, input, now);
            &&& actions.contains(
                Action::OpenUrl { url: "https://hetcuu.com/antisupport"@ },
            ) <==> m.state != State::Authenticating && input.buy
            &&& forall|i: int|
                0 <= i < actions.len() && (#[trigger] actions[i]) is OpenUrl ==> actions[i]
                    == (Action::OpenUrl { url: "https://hetcuu.com/antisupport"@ })
        }),
{
    let actions = m.login_actions(could_submit, input, now);
    let shop = Action::OpenUrl { url: "https://hetcuu.com/antisupport"@ };
    if m.state != State::Authenticating && input.buy {
        let submits: int = if could_submit && (input.activate || input.enter) {
            1
        } else {
            0
        };
        let at = submits + if input.trial {
            2int
        } else {
            0
        };
        assert(actions[at] == shop);
    } else {
        assert forall|i: int| 0 <= i < actions.len() implies actions[i] != shop by {}
    }
}

/// A login screen that is not left in a frame closes in it exactly if its
/// deadline has come, after it has started the target programs; before that it
/// only asks for the next frame of its countdown. A login screen that is left
/// does neither.
pub proof fn law_login_deadline(m: AppModel, could_submit: bool, input: LoginInput, now: int)
    ensures
        ({
            let actions = m.login_actions(could_submit, input, now);
            let n = actions.len() as int;
            let left = (could_submit && (input.activate || input.enter)) || input.trial;
            let stays = m.state == State::Login && !left;
            &&& actions.contains(Action::CloseWindow) <==> stays && m.login_deadline <= now
            &&& stays && m.login_deadline <= now ==> n >= 2 && actions[n - 2]
                == Action::LaunchTargets && actions[n - 1] == Action::CloseWindow
            &&& actions.contains(Action::RepaintAfter { nanos: 200_000_000 }) <==> stays && now
                < m.login_deadline
            &&& stays && now < m.login_deadline ==> actions[n - 1] == (Action::RepaintAfter {
                nanos: 200_000_000,
            })
            &&& actions.contains(Action::LaunchTargets) <==> (m.state != State::Authenticating
                && input.trial) || (stays && m.login_deadline <= now)
        }),
{
    let actions = m.login_actions(could_submit, input, now);
    let n = actions.len() as int;
    let submits = could_submit && (input.activate || input.enter);
    let stays = m.state == State::Login && !submits && !input.trial;
    let tick = Action::RepaintAfter { nanos: 200_000_000 };
    let starts = (m.state != State::Authenticating && input.trial) || (stays && m.login_deadline
        <= now);
    if stays && m.login_deadline <= now {
        assert(actions[n - 1] == Action::CloseWindow);
        assert(actions[n - 2] == Action::LaunchTargets);
    } else {
        assert forall|i: int| 0 <= i < n implies actions[i] != Action::CloseWindow by {}
    }
    if stays && now < m.login_deadline {
        assert(actions[n - 1] == tick);
    } else {
        assert forall|i: int| 0 <= i < n implies actions[i] != tick by {}
    }
    if m.state != State::Authenticating && input.trial {
        let at: int = if submits {
            1
        } else {
            0
        };
        assert(actions[at + 1] == Action::LaunchTargets);
    } else if !starts {
        assert forall|i: int| 0 <= i < n implies actions[i] != Action::LaunchTargets by {}
    }
}

/// A frame of the login screen asks for nothing twice and for nothing beside:
/// one request, a new start of the target programs, one page, and either the
/// two last things or the next frame.
pub proof fn law_login_frame_has_no_more(
    m: AppModel,
    could_submit: bool,
    input: LoginInput,
    now: int,
)
    requires
        m.state != State::Authenticating,
    ensures
        ({
            let submits: int = if could_submit && (input.activate || input.enter) {
                1
            } else {
                0
            };
            let trial: int = if input.trial {
                2
            } else {
                0
            };
            let buys: int = if input.buy {
                1
            } else {
                0
            };
            let last: int = if submits + trial > 0 || m.state != State::Login {
                0
            } else if m.login_deadline <= now {
                2
            } else {
                1
            };
            m.login_actions(could_submit, input, now).len() == submits + trial + buys + last
        }),
{
}

/// The countdown of the login screen is shown only while it waits for the user,
/// and shows the whole seconds that are left until the deadline, at least zero.
pub proof fn law_login_countdown(m: AppModel, now: int)
    ensures
        m.login_secs(now) is Some <==> m.state == State::Login,
        m.login_secs(now) matches Some(secs) ==> {
            &&& now <= m.login_deadline ==> secs * 1_000_000_000 <= m.login_deadline - now < (secs
                + 1) * 1_000_000_000
            &&& now >= m.login_deadline ==> secs == 0
        },
{
}

/// In a frame of a licensed session the target programs are started if and only
/// if ON was clicked, and killed if and only if OFF was clicked; where both were,
/// they are started first.
pub proof fn law_switches(m: AppModel, on: bool, off: bool, now: int)
    ensures
        ({
            let actions = m.licensed_actions(on, off, now);
            &&& actions.contains(Action::LaunchTargets) <==> on
            &&& actions.contains(Action::TerminateTargets) <==> off
            &&& on && off ==> actions[0] == Action::LaunchTargets && actions[1]
                == Action::TerminateTargets
        }),
{
    let actions = m.licensed_actions(on, off, now);
    if on {
        assert(actions[0] == Action::LaunchTargets);
    } else {
        assert forall|i: int| 0 <= i < actions.len() implies actions[i]
            != Action::LaunchTargets by {}
    }
    if off {
        assert(actions[if on {
            1int
        } else {
            0
        }] == Action::TerminateTargets);
    } else {
        assert forall|i: int| 0 <= i < actions.len() implies actions[i]
            != Action::TerminateTargets by {}
    }
}

/// Beside the switches a frame of a licensed session asks for the frame in which
/// the planned heartbeat is due, at once if its time has come, and for nothing
/// else.
pub proof fn law_licensed_frame(m: AppModel, on: bool, off: bool, now: int)
    ensures
        ({
            let actions = m.licensed_actions(on, off, now);
            let switches: int = if on && off {
                2
            } else if on || off {
                1
            } else {
                0
            };
            &&& m.next_heartbeat_at is None ==> actions.len() == switches
            &&& m.next_heartbeat_at matches Some(at) ==> {
                &&& actions.len() == switches + 1
                &&& at <= now ==> actions[switches] == Action::Repaint
                &&& now < at ==> actions[switches] == (Action::RepaintAfter { nanos: at - now })
            }
        }),
{
}

/// The time that is left of a trial session, in whole seconds, is what remains
/// of three minutes since it began.
pub proof fn law_trial_clock(m: AppModel, now: int)
    ensures
        ({
            let rest = 180_000_000_000 - (now - m.session_start);
            let secs = m.trial_secs(now);
            &&& now <= m.session_start ==> secs == 180
            &&& now >= m.session_start && rest >= 0 ==> secs * 1_000_000_000 <= rest < (secs + 1) * 1_000_000_000
            &&& rest <= 0 ==> secs == 0
        }),
{
}

/// The warning appears, from now on, in the first frame with less than eleven
/// seconds left, that is with ten on the clock; otherwise the beginning of a
/// frame changes nothing.
pub proof fn law_warning_appears(m: AppModel, now: int)
    ensures
        ({
            let ending = now - m.session_start > 169_000_000_000;
            &&& ending && !m.popup_visible ==> m.trial_opened(now) == (AppModel {
                popup_visible: true,
                popup_start: Some(now),
                ..m
            })
            &&& !ending || m.popup_visible ==> m.trial_opened(now) == m
        }),
{
}

/// A warning that is not visible is hidden. A visible one counts down the whole
/// seconds that are left of its ten, and its time is up after them.
pub proof fn law_warning_counts(m: AppModel, now: int)
    ensures
        m.popup(now) is Hidden <==> !m.popup_visible,
        m.popup_visible && m.popup_start is None ==> m.popup(now) is Expired,
        m.popup_visible && m.popup_start is Some && m.popup_start->0 <= now ==> {
            let shown = now - m.popup_start->0;
            &&& m.popup(now) is Expired <==> shown >= 10_000_000_000
            &&& m.popup(now) matches Popup::Countdown { secs } ==> 1 <= secs && (10 - secs)
                * 1_000_000_000 <= shown < (11 - secs) * 1_000_000_000
        },
        m.popup_visible && m.popup_start is Some && now <= m.popup_start->0 ==> m.popup(now) == (
        Popup::Countdown { secs: 10 }),
{
}

/// For every number of seconds that the warning still counts, a click on renew
/// starts the session over from now, without a warning, and kills and then
/// starts the target programs, after what the switches ask for.
pub proof fn law_renewal(m: AppModel, secs: u64, input: TrialInput, now: int)
    requires
        input.renew,
    ensures
        ({
            let popup = Popup::Countdown { secs };
            let actions = m.trial_actions(popup, input);
            let at: int = if input.on && input.off {
                2
            } else if input.on || input.off {
                1
            } else {
                0
            };
            &&& m.trial_done(popup, input, now) == AppModel {
                session_start: now,
                popup_visible: false,
                popup_start: None,
                ..m
            }
            &&& actions.len() == at + 3
            &&& actions[at] == Action::TerminateTargets
            &&& actions[at + 1] == Action::LaunchTargets
        }),
{
}

/// Without a click on renew, or without a warning that counts, a frame of a
/// trial session changes nothing, and asks for what the switches ask for and
/// one thing more.
pub proof fn law_no_renewal(m: AppModel, popup: Popup, input: TrialInput, now: int)
    requires
        !input.renew || popup == Popup::Hidden || popup == Popup::Expired,
    ensures
        ({
            let actions = m.trial_actions(popup, input);
            let switches: int = if input.on && input.off {
                2
            } else if input.on || input.off {
                1
            } else {
                0
            };
            &&& m.trial_done(popup, input, now) == m
            &&& actions.len() == switches + 1
            &&& actions.contains(Action::LaunchTargets) <==> input.on
            &&& actions.contains(Action::TerminateTargets) <==> input.off
        }),
{
    let actions = m.trial_actions(popup, input);
    if input.on {
        assert(actions[0] == Action::LaunchTargets);
    } else {
        assert forall|i: int| 0 <= i < actions.len() implies actions[i]
            != Action::LaunchTargets by {}
    }
    if input.off {
        assert(actions[if input.on {
            1int
        } else {
            0
        }] == Action::TerminateTargets);
    } else {
        assert forall|i: int| 0 <= i < actions.len() implies actions[i]
            != Action::TerminateTargets by {}
    }
}

/// In a frame of a trial session a click on ON starts the target programs before
/// anything else, and a click on OFF then kills them.
pub proof fn law_trial_switches(m: AppModel, popup: Popup, input: TrialInput)
    ensures
        ({
            let actions = m.trial_actions(popup, input);
            &&& input.on ==> actions[0] == Action::LaunchTargets
            &&& input.off ==> actions[if input.on {
                1int
            } else {
                0
            }] == Action::TerminateTargets
        }),
{
}

/// The last thing that a frame of a trial session asks for is to close the
/// window, when the time of the warning is up or the user has closed it, and
/// otherwise the next frame of the countdown. It asks for neither before.
pub proof fn law_trial_frame_ends(m: AppModel, popup: Popup, input: TrialInput)
    ensures
        ({
            let actions = m.trial_actions(popup, input);
            let over = match popup {
                Popup::Hidden => false,
                Popup::Countdown { .. } => !input.window_open,
                Popup::Expired => true,
            };
            &&& actions.len() > 0
            &&& actions.last() == if over {
                Action::CloseWindow
            } else {
                Action::RepaintAfter { nanos: 200_000_000 }
            }
            &&& forall|i: int|
                0 <= i < actions.len() - 1 ==> ((#[trigger] actions[i]) is LaunchTargets
                    || actions[i] is TerminateTargets)
        }),
{
}

/// Leaving gives up the token and nothing else. The server is told if there was
/// one, and the target programs are started in any case, last.
pub proof fn law_exit(m: AppModel)
    ensures
        m.left() == (AppModel { token: None, ..m }),
        m.token matches Some(token) ==> m.exit_actions() == seq![
            Action::SendDeactivate { token },
            Action::LaunchTargets,
        ],
        m.token is None ==> m.exit_actions() == seq![Action::LaunchTargets],
{
    if m.token is Some {
        assert(m.exit_actions() =~= seq![
            Action::SendDeactivate { token: m.token->0 },
            Action::LaunchTargets,
        ]);
    } else {
        assert(m.exit_actions() =~= seq![Action::LaunchTargets]);
    }
}

/// A frame looks for the reply to a request first; in a licensed session it then
/// looks after heartbeats; and it ends with the screen of the state it is in.
pub proof fn law_stages(m: AppModel)
    ensures
        m.screen() == (match m.state {
            State::Login => Stage::DrawLogin,
            State::Authenticating => Stage::DrawLogin,
            State::Session => if m.is_trial {
                Stage::DrawTrial
            } else {
                Stage::DrawLicensed
            },
        }),
        m.stage_after(Stage::PollAuth) == if m.state == State::Session && !m.is_trial {
            Stage::CheckHeartbeat
        } else {
            m.screen()
        },
        m.stage_after(Stage::CheckHeartbeat) == Stage::PollHeartbeat,
        m.stage_after(Stage::PollHeartbeat) == m.screen(),
        m.stage_after(Stage::DrawLogin) == Stage::Done,
        m.stage_after(Stage::DrawTrial) == Stage::Done,
        m.stage_after(Stage::DrawLicensed) == Stage::Done,
        m.stage_after(Stage::Done) == Stage::Done,
{
}

} // verus!
