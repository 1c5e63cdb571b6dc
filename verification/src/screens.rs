//! What the screens show.

use vstd::prelude::*;
use vstd::string::StringExecFns;
use crate::clock::Moment;
use crate::model::{State, TRIAL_WARN_SECS};
use crate::tdc_app::{text_view, TdcApp};
use crate::text::{
    clock_face, clock_face_text, decimal, i32_text, law_decimal_reads_back, law_sign, signed_decimal,
    u64_text, value_of,
};

verus! {

/// How many bytes of the hardware id the screens show.
pub const HWID_SHOWN_BYTES: usize = 20;

/// A countdown at or below so many seconds is urgent at the login screen.
pub const LOGIN_URGENT_SECS: u64 = 10;

/// A trial session with more than so many seconds left is in no hurry.
pub const TRIAL_CALM_SECS: u64 = 30;

/// A colour that depends on the state of the program.
#[derive(Clone, Copy, Debug, PartialEq, Eq, Structural)]
pub enum Tone {
    Accent,
    Success,
    Caution,
    Danger,
    Muted,
    Disabled,
}

impl Tone {
    /// The red, green and blue parts of a colour.
    pub open spec fn parts(self) -> (u8, u8, u8) {
        match self {
            Tone::Accent => (99, 102, 241),
            Tone::Success => (34, 197, 94),
            Tone::Caution => (250, 204, 21),
            Tone::Danger => (239, 68, 68),
            Tone::Muted => (148, 163, 184),
            Tone::Disabled => (55, 65, 81),
        }
    }

    /// The red, green and blue parts of the colour.
    pub fn rgb(self) -> (rgb: (u8, u8, u8))
        ensures
            rgb == self.parts(),
    {
        match self {
            Tone::Accent => (99, 102, 241),
            Tone::Success => (34, 197, 94),
            Tone::Caution => (250, 204, 21),
            Tone::Danger => (239, 68, 68),
            Tone::Muted => (148, 163, 184),
            Tone::Disabled => (55, 65, 81),
        }
    }
}

/// A line of text in a colour.
pub struct Line {
    pub text: String,
    pub tone: Tone,
}

/// What the login screen shows.
pub struct LoginView {
    /// The form is locked while the server looks at the credentials.
    pub is_authing: bool,
    /// The form is complete.
    pub can_submit: bool,
    /// The colour of the button that submits the form.
    pub submit_tone: Tone,
    /// When the screen closes by itself.
    pub countdown: Option<Line>,
    /// What the user has to be told.
    pub error: Option<String>,
    pub hwid_label: String,
}

/// What the screen of a licensed session shows.
pub struct LicensedView {
    pub plan: Option<String>,
    pub expiry: Option<String>,
    pub hwid_label: String,
}

/// What the screen of a trial session shows.
pub struct TrialView {
    /// The time that is left.
    pub clock: Line,
    pub hwid_label: String,
}

/// The hardware id is long enough to be shown, and its part that is shown ends
/// with a whole character.
pub open spec fn showable(hwid: Seq<char>) -> bool {
    vstd::utf8::is_char_boundary(vstd::utf8::encode_utf8(hwid), HWID_SHOWN_BYTES as int)
}

/// The line that shows the first bytes of the hardware id.
pub open spec fn hwid_line(hwid: Seq<char>) -> Seq<char> {
    "HWID  "@ + vstd::utf8::decode_utf8(
        vstd::utf8::encode_utf8(hwid).subrange(0, HWID_SHOWN_BYTES as int),
    )
}

/// The line that tells when the login screen closes by itself.
pub open spec fn countdown_line(secs: int) -> Seq<char> {
    "Tu dong mo sau "@ + decimal(secs as nat) + "s"@
}

/// The colour of the line that tells when the login screen closes by itself.
pub open spec fn countdown_tone(secs: int) -> Tone {
    if secs > LOGIN_URGENT_SECS {
        Tone::Muted
    } else {
        Tone::Danger
    }
}

/// The line that tells when the license ends.
pub open spec fn expiry_line(expiry_date: Seq<char>, days_left: int) -> Seq<char> {
    "Het han: "@ + expiry_date + "  ("@ + signed_decimal(days_left) + " ngay)"@
}

/// The colour of the time that is left of a trial session.
pub open spec fn trial_tone(secs: int) -> Tone {
    if secs > TRIAL_CALM_SECS {
        Tone::Success
    } else if secs > TRIAL_WARN_SECS {
        Tone::Caution
    } else {
        Tone::Danger
    }
}

/// A line, unless the text that it is about is empty.
pub open spec fn unless_empty(text: Seq<char>, line: Seq<char>) -> Option<Seq<char>> {
    if text.len() == 0 {
        None
    } else {
        Some(line)
    }
}

/// An id of ASCII characters is shown by its first twenty.
pub proof fn law_ascii_id_is_showable(hwid: Seq<char>)
    requires
        vstd::utf8::is_ascii_chars(hwid),
        hwid.len() >= HWID_SHOWN_BYTES,
    ensures
        showable(hwid),
        hwid_line(hwid) == "HWID  "@ + hwid.take(HWID_SHOWN_BYTES as int),
{
    let n = HWID_SHOWN_BYTES as int;
    let bytes = vstd::utf8::encode_utf8(hwid);
    let front = hwid.take(n);
    vstd::utf8::encode_utf8_valid_utf8(hwid);
    vstd::utf8::is_ascii_chars_encode_utf8(hwid);
    vstd::utf8::is_ascii_chars_encode_utf8(front);
    vstd::utf8::encode_utf8_decode_utf8(front);
    vstd::utf8::is_char_boundary_start_end_of_seq(bytes);
    if n < hwid.len() {
        assert(hwid[n] as u8 == bytes[n]);
        vstd::utf8::is_char_boundary_iff_not_is_continuation_byte(bytes, n);
    }
    assert forall|i: int| 0 <= i < n implies #[trigger] bytes.subrange(0, n)[i]
        == vstd::utf8::encode_utf8(front)[i] by {
        assert(hwid[i] as u8 == bytes[i]);
        assert(front[i] as u8 == vstd::utf8::encode_utf8(front)[i]);
    }
    assert(bytes.subrange(0, n) =~= vstd::utf8::encode_utf8(front));
}

impl TdcApp {
    /// Whether the screens can show the hardware id.
    pub fn hwid_is_showable(&self) -> (b: bool)
        ensures
            b == showable(self@.hwid),
    {
        self.hwid.as_str().is_char_boundary(HWID_SHOWN_BYTES)
    }

    fn hwid_label(&self) -> (label: String)
        requires
            showable(self@.hwid),
        ensures
            label@ == hwid_line(self@.hwid),
    {
        let (shown, _) = self.hwid.as_str().split_at(HWID_SHOWN_BYTES);
        proof {
            vstd::utf8::encode_utf8_decode_utf8(shown@);
        }
        let mut label = "HWID  ".to_owned();
        label.append(shown);
        label
    }

    /// What the login screen shows.
    pub fn login_view(&self, now: Moment) -> (view: LoginView)
        requires
            showable(self@.hwid),
        ensures
            view.is_authing == (self@.state == State::Authenticating),
            view.can_submit == self@.can_submit(),
            view.submit_tone == (if self@.can_submit() {
                Tone::Accent
            } else {
                Tone::Disabled
            }),
            view.countdown is Some <==> self@.login_secs(now@) is Some,
            view.countdown matches Some(line) ==> {
                let secs = self@.login_secs(now@)->0;
                &&& line.text@ == countdown_line(secs)
                &&& line.tone == countdown_tone(secs)
            },
            text_view(view.error) == self@.auth_error,
            view.hwid_label@ == hwid_line(self@.hwid),
    {
        let is_authing = self.state == State::Authenticating;
        let can_submit = !is_authing && !self.username.as_str().is_empty()
            && !self.password.as_str().is_empty();
        let countdown = if self.state == State::Login {
            let secs: u64 = self.login_deadline.secs_since(&now);
            let mut text = "Tu dong mo sau ".to_owned();
            text.append(u64_text(secs).as_str());
            text.append("s");
            let tone = if secs > LOGIN_URGENT_SECS {
                Tone::Muted
            } else {
                Tone::Danger
            };
            Some(Line { text, tone })
        } else {
            None
        };
        let submit_tone = if can_submit {
            Tone::Accent
        } else {
            Tone::Disabled
        };
        LoginView {
            is_authing,
            can_submit,
            submit_tone,
            countdown,
            error: self.auth_error.clone(),
            hwid_label: self.hwid_label(),
        }
    }

    /// What the screen of a licensed session shows.
    pub fn licensed_view(&self) -> (view: LicensedView)
        requires
            showable(self@.hwid),
        ensures
            text_view(view.plan) == unless_empty(self@.plan_name, self@.plan_name),
            text_view(view.expiry) == unless_empty(
                self@.expiry_date,
                expiry_line(self@.expiry_date, self@.days_left),
            ),
            view.hwid_label@ == hwid_line(self@.hwid),
    {
        let plan = if self.plan_name.as_str().is_empty() {
            None
        } else {
            Some(self.plan_name.clone())
        };
        let expiry = if self.expiry_date.as_str().is_empty() {
            None
        } else {
            let mut text = "Het han: ".to_owned();
            text.append(self.expiry_date.as_str());
            text.append("  (");
            text.append(i32_text(self.days_left).as_str());
            text.append(" ngay)");
            Some(text)
        };
        LicensedView { plan, expiry, hwid_label: self.hwid_label() }
    }

    /// What the screen of a trial session shows.
    pub fn trial_view(&self, now: Moment) -> (view: TrialView)
        requires
            showable(self@.hwid),
        ensures
            view.clock.text@ == clock_face(self@.trial_secs(now@) as nat),
            view.clock.tone == trial_tone(self@.trial_secs(now@)),
            view.hwid_label@ == hwid_line(self@.hwid),
    {
        let secs: u64 = self.trial_secs(now);
        let tone = if secs > TRIAL_CALM_SECS {
            Tone::Success
        } else if secs > TRIAL_WARN_SECS {
            Tone::Caution
        } else {
            Tone::Danger
        };
        TrialView {
            clock: Line { text: clock_face_text(secs), tone },
            hwid_label: self.hwid_label(),
        }
    }
}

/// The line with the hardware id shows exactly the first twenty bytes of the id,
/// which are whole characters from its start.
pub proof fn law_hwid_line(hwid: Seq<char>)
    requires
        showable(hwid),
    ensures
        ({
            let line = hwid_line(hwid);
            let shown = line.skip(6);
            &&& line.take(6) == "HWID  "@
            &&& shown == hwid.take(shown.len() as int)
            &&& shown.len() <= hwid.len()
            &&& vstd::utf8::encode_utf8(shown) == vstd::utf8::encode_utf8(hwid).take(20)
            &&& vstd::utf8::encode_utf8(shown).len() == 20
        }),
{
    reveal_strlit("HWID  ");
    let bytes = vstd::utf8::encode_utf8(hwid);
    let front = bytes.subrange(0, 20);
    let shown = vstd::utf8::decode_utf8(front);
    vstd::utf8::encode_utf8_valid_utf8(hwid);
    vstd::utf8::encode_utf8_decode_utf8(hwid);
    lemma_boundary_within(bytes, 20);
    vstd::utf8::valid_utf8_split(bytes, 20);
    vstd::utf8::decode_utf8_split(bytes, 20);
    vstd::utf8::decode_utf8_encode_utf8(front);
    assert(hwid_line(hwid).skip(6) =~= shown);
    assert(hwid_line(hwid).take(6) =~= "HWID  "@);
    assert(hwid.take(shown.len() as int) =~= shown);
    assert(front =~= bytes.take(20));
}

proof fn lemma_boundary_within(bytes: Seq<u8>, index: int)
    requires
        vstd::utf8::valid_utf8(bytes),
        vstd::utf8::is_char_boundary(bytes, index),
    ensures
        0 <= index <= bytes.len(),
{
}

/// An id can be shown exactly if some characters from its start make up twenty
/// bytes.
pub proof fn law_showable(hwid: Seq<char>)
    ensures
        showable(hwid) <==> exists|n: int|
            0 <= n <= hwid.len() && vstd::utf8::encode_utf8(#[trigger] hwid.take(n)).len() == 20,
{
    if showable(hwid) {
        law_hwid_line(hwid);
        let n = hwid_line(hwid).skip(6).len() as int;
        assert(vstd::utf8::encode_utf8(hwid.take(n)).len() == 20);
    }
    if exists|n: int|
        0 <= n <= hwid.len() && vstd::utf8::encode_utf8(#[trigger] hwid.take(n)).len() == 20 {
        let n = choose|n: int|
            0 <= n <= hwid.len() && vstd::utf8::encode_utf8(#[trigger] hwid.take(n)).len() == 20;
        lemma_characters_end_at_boundaries(hwid, n);
    }
}

proof fn lemma_characters_end_at_boundaries(text: Seq<char>, n: int)
    requires
        0 <= n <= text.len(),
    ensures
        vstd::utf8::is_char_boundary(
            vstd::utf8::encode_utf8(text),
            vstd::utf8::encode_utf8(text.take(n)).len() as int,
        ),
        vstd::utf8::encode_utf8(text.take(n)).len() <= vstd::utf8::encode_utf8(text).len(),
    decreases n,
{
    let bytes = vstd::utf8::encode_utf8(text);
    vstd::utf8::encode_utf8_valid_utf8(text);
    if n == 0 {
        assert(text.take(0) =~= Seq::empty());
        vstd::utf8::is_char_boundary_start_end_of_seq(bytes);
    } else {
        let rest = text.drop_first();
        lemma_characters_end_at_boundaries(rest, n - 1);
        assert(text.take(n).drop_first() =~= rest.take(n - 1));
        vstd::utf8::encode_utf8_first_scalar(text);
        vstd::utf8::encode_utf8_first_scalar(text.take(n));
        assert(vstd::utf8::pop_first_scalar(bytes) =~= vstd::utf8::encode_utf8(rest));
    }
}

/// The line about the login window names the seconds between its words.
pub proof fn law_countdown_line(secs: int)
    requires
        secs >= 0,
    ensures
        ({
            let line = countdown_line(secs);
            let n = line.len() as int;
            &&& n > 16
            &&& line.take(15) == "Tu dong mo sau "@
            &&& value_of(line.subrange(15, n - 1)) == secs
            &&& line[n - 1] == 's'
        }),
{
    reveal_strlit("Tu dong mo sau ");
    reveal_strlit("s");
    let line = countdown_line(secs);
    let n = line.len() as int;
    law_decimal_reads_back(secs as nat);
    assert(line.take(15) =~= "Tu dong mo sau "@);
    assert(line.subrange(15, n - 1) =~= decimal(secs as nat));
}

/// The line about the license holds its date, and the days that are left, with
/// their sign, in brackets.
pub proof fn law_expiry_line(expiry_date: Seq<char>, days_left: int)
    ensures
        ({
            let line = expiry_line(expiry_date, days_left);
            let d = 9 + expiry_date.len() as int;
            let n = line.len() as int;
            &&& n > d + 9
            &&& line.take(9) == "Het han: "@
            &&& line.subrange(9, d) == expiry_date
            &&& line.subrange(d, d + 3) == "  ("@
            &&& days_left >= 0 ==> value_of(line.subrange(d + 3, n - 6)) == days_left
            &&& days_left < 0 ==> line[d + 3] == '-' && -value_of(line.subrange(d + 4, n - 6))
                == days_left
            &&& line.skip(n - 6) == " ngay)"@
        }),
{
    reveal_strlit("Het han: ");
    reveal_strlit("  (");
    reveal_strlit(" ngay)");
    let line = expiry_line(expiry_date, days_left);
    let days = signed_decimal(days_left);
    let d = 9 + expiry_date.len() as int;
    let n = line.len() as int;
    law_sign(days_left);
    if days_left >= 0 {
        law_decimal_reads_back(days_left as nat);
    } else {
        law_decimal_reads_back((-days_left) as nat);
    }
    assert(line.take(9) =~= "Het han: "@);
    assert(line.subrange(9, d) =~= expiry_date);
    assert(line.subrange(d, d + 3) =~= "  ("@);
    assert(line.subrange(d + 3, n - 6) =~= days);
    assert(line.skip(n - 6) =~= " ngay)"@);
    if days_left < 0 {
        assert(line.subrange(d + 4, n - 6) =~= days.skip(1));
    }
}

/// The countdown of the login screen is red from ten seconds on, and plain
/// before.
pub proof fn law_countdown_colours(secs: int)
    ensures
        countdown_tone(secs) == Tone::Danger <==> secs <= 10,
        countdown_tone(secs) == Tone::Muted <==> secs > 10,
{
}

/// The time that is left of a trial session is green above thirty seconds, red
/// from ten on, and yellow between.
pub proof fn law_trial_colours(secs: int)
    ensures
        trial_tone(secs) == Tone::Success <==> secs > 30,
        trial_tone(secs) == Tone::Caution <==> 10 < secs <= 30,
        trial_tone(secs) == Tone::Danger <==> secs <= 10,
{
}

/// A line is shown exactly when there is a text that it is about.
pub proof fn law_lines_need_a_text(text: Seq<char>, line: Seq<char>)
    ensures
        text.len() > 0 ==> unless_empty(text, line) == Some(line),
        text.len() == 0 ==> unless_empty(text, line) is None,
{
}

} // verus!
