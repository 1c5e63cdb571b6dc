//! The license server: what is sent to it, and how its replies are read.

use vstd::prelude::*;
use vstd::string::StringExecFns;

verus! {

/// Where the license server is found.
pub const BASE_URL: &'static str = "https://hetcuu.com/antisupport";

/// How long a request may take, in seconds.
pub const TIMEOUT_SECS: u64 = 10;

/// The body of a request to activate a license.
pub struct ActivateRequest {
    pub username: String,
    pub password: String,
    pub hwid: String,
}

/// The body of a request that only names the session.
pub struct TokenBody {
    pub token: String,
}

/// A request with a JSON body.
pub struct Post<B> {
    pub url: String,
    pub body: B,
}

/// The server's reply to a request to activate a license.
#[derive(Debug)]
pub struct ActivateResponse {
    pub success: bool,
    pub message: String,
    pub token: String,
    pub plan_name: String,
    pub expiry_date: String,
    pub days_left: i32,
    pub _session_ttl: u64,
    pub heartbeat_interval: u64,
}

/// The server's reply to a heartbeat.
#[derive(Debug)]
pub struct HeartbeatResponse {
    pub success: bool,
    pub message: String,
    pub expiry_date: String,
    pub days_left: i32,
    pub heartbeat_interval: u64,
}

/// The fields of an activation reply as they came; only `success` has to be
/// there.
pub struct ActivateFields {
    pub success: bool,
    pub message: Option<String>,
    pub token: Option<String>,
    pub plan_name: Option<String>,
    pub expiry_date: Option<String>,
    pub days_left: Option<i32>,
    pub session_ttl: Option<u64>,
    pub heartbeat_interval: Option<u64>,
}

/// The fields of a heartbeat reply as they came; only `success` has to be
/// there.
pub struct HeartbeatFields {
    pub success: bool,
    pub message: Option<String>,
    pub expiry_date: Option<String>,
    pub days_left: Option<i32>,
    pub heartbeat_interval: Option<u64>,
}

/// What became of a request.
pub enum Exchange<T> {
    /// No HTTP client could be set up.
    NoClient,
    /// The request could not be sent, or was not answered.
    Failed { timeout: bool, connect: bool },
    /// The answer could not be read.
    Unreadable,
    /// The answer.
    Answer(T),
}

/// The content of an `ActivateResponse`.
pub struct ActivateReply {
    pub success: bool,
    pub message: Seq<char>,
    pub token: Seq<char>,
    pub plan_name: Seq<char>,
    pub expiry_date: Seq<char>,
    pub days_left: int,
    pub session_ttl: int,
    pub heartbeat_interval: int,
}

/// The content of a `HeartbeatResponse`.
pub struct HeartbeatReply {
    pub success: bool,
    pub message: Seq<char>,
    pub expiry_date: Seq<char>,
    pub days_left: int,
    pub heartbeat_interval: int,
}

impl View for ActivateResponse {
    type V = ActivateReply;

    open spec fn view(&self) -> ActivateReply {
        ActivateReply {
            success: self.success,
            message: self.message@,
            token: self.token@,
            plan_name: self.plan_name@,
            expiry_date: self.expiry_date@,
            days_left: self.days_left as int,
            session_ttl: self._session_ttl as int,
            heartbeat_interval: self.heartbeat_interval as int,
        }
    }
}

impl View for HeartbeatResponse {
    type V = HeartbeatReply;

    open spec fn view(&self) -> HeartbeatReply {
        HeartbeatReply {
            success: self.success,
            message: self.message@,
            expiry_date: self.expiry_date@,
            days_left: self.days_left as int,
            heartbeat_interval: self.heartbeat_interval as int,
        }
    }
}

/// The life of a session, in seconds, when the server names none.
pub fn default_ttl() -> (secs: u64)
    ensures
        secs == 300,
{
    300
}

/// The time between heartbeats, in seconds, when the server names none.
pub fn default_interval() -> (secs: u64)
    ensures
        secs == 120,
{
    120
}

/// A text that may be missing; a missing one is empty.
pub open spec fn text_or_empty(text: Option<String>) -> Seq<char> {
    match text {
        Some(s) => s@,
        None => Seq::empty(),
    }
}

/// A number that may be missing.
pub open spec fn number_or(number: Option<u64>, default: int) -> int {
    match number {
        Some(n) => n as int,
        None => default,
    }
}

/// A number of days that may be missing; a missing one is zero.
pub open spec fn days_or_zero(days: Option<i32>) -> int {
    match days {
        Some(n) => n as int,
        None => 0,
    }
}

fn or_empty(text: Option<String>) -> (s: String)
    ensures
        s@ == text_or_empty(text),
{
    match text {
        Some(s) => s,
        None => String::new(),
    }
}

impl ActivateResponse {
    /// Reads a reply: what is missing from it gets its default.
    pub fn from_fields(fields: ActivateFields) -> (reply: ActivateResponse)
        ensures
            reply@ == (ActivateReply {
                success: fields.success,
                message: text_or_empty(fields.message),
                token: text_or_empty(fields.token),
                plan_name: text_or_empty(fields.plan_name),
                expiry_date: text_or_empty(fields.expiry_date),
                days_left: days_or_zero(fields.days_left),
                session_ttl: number_or(fields.session_ttl, 300),
                heartbeat_interval: number_or(fields.heartbeat_interval, 120),
            }),
    {
        let days_left: i32 = match fields.days_left {
            Some(n) => n,
            None => 0,
        };
        let ttl: u64 = match fields.session_ttl {
            Some(n) => n,
            None => default_ttl(),
        };
        let interval: u64 = match fields.heartbeat_interval {
            Some(n) => n,
            None => default_interval(),
        };
        ActivateResponse {
            success: fields.success,
            message: or_empty(fields.message),
            token: or_empty(fields.token),
            plan_name: or_empty(fields.plan_name),
            expiry_date: or_empty(fields.expiry_date),
            days_left: days_left,
            _session_ttl: ttl,
            heartbeat_interval: interval,
        }
    }
}

impl HeartbeatResponse {
    /// Reads a reply: what is missing from it gets its default.
    pub fn from_fields(fields: HeartbeatFields) -> (reply: HeartbeatResponse)
        ensures
            reply@ == (HeartbeatReply {
                success: fields.success,
                message: text_or_empty(fields.message),
                expiry_date: text_or_empty(fields.expiry_date),
                days_left: days_or_zero(fields.days_left),
                heartbeat_interval: number_or(fields.heartbeat_interval, 120),
            }),
    {
        let days_left: i32 = match fields.days_left {
            Some(n) => n,
            None => 0,
        };
        let interval: u64 = match fields.heartbeat_interval {
            Some(n) => n,
            None => default_interval(),
        };
        HeartbeatResponse {
            success: fields.success,
            message: or_empty(fields.message),
            expiry_date: or_empty(fields.expiry_date),
            days_left: days_left,
            heartbeat_interval: interval,
        }
    }
}

/// What the user is told of a request that failed.
pub open spec fn failure_text(timeout: bool, connect: bool) -> Seq<char> {
    if timeout {
        "Hết thời gian kết nối. Kiểm tra mạng và thử lại."@
    } else if connect {
        "Không thể kết nối đến máy chủ. Kiểm tra kết nối mạng."@
    } else {
        "Lỗi mạng. Vui lòng thử lại."@
    }
}

/// Puts a failed request into words: a timeout comes before a failure to
/// connect.
pub fn net_err(timeout: bool, connect: bool) -> (text: String)
    ensures
        text@ == failure_text(timeout, connect),
{
    if timeout {
        "Hết thời gian kết nối. Kiểm tra mạng và thử lại.".to_owned()
    } else if connect {
        "Không thể kết nối đến máy chủ. Kiểm tra kết nối mạng.".to_owned()
    } else {
        "Lỗi mạng. Vui lòng thử lại.".to_owned()
    }
}

fn api_url(path: &str) -> (url: String)
    ensures
        url@ == BASE_URL@ + path@,
{
    let mut url = BASE_URL.to_owned();
    url.append(path);
    url
}

/// The request that activates a license.
pub fn activate(username: &str, password: &str, hwid: &str) -> (post: Post<ActivateRequest>)
    ensures
        post.url@ == BASE_URL@ + "/api/activate"@,
        post.body.username@ == username@,
        post.body.password@ == password@,
        post.body.hwid@ == hwid@,
{
    Post {
        url: api_url("/api/activate"),
        body: ActivateRequest {
            username: username.to_owned(),
            password: password.to_owned(),
            hwid: hwid.to_owned(),
        },
    }
}

/// The request that keeps a session alive.
pub fn heartbeat(token: &str) -> (post: Post<TokenBody>)
    ensures
        post.url@ == BASE_URL@ + "/api/heartbeat"@,
        post.body.token@ == token@,
{
    Post { url: api_url("/api/heartbeat"), body: TokenBody { token: token.to_owned() } }
}

/// The request that ends a session. Its answer does not matter.
pub fn deactivate(token: String) -> (post: Post<TokenBody>)
    ensures
        post.url@ == BASE_URL@ + "/api/deactivate"@,
        post.body.token@ == token@,
{
    Post { url: api_url("/api/deactivate"), body: TokenBody { token } }
}

/// What an exchange comes to: the answer, or why there is none, in words.
/// `unreadable` is said of an answer that could not be read.
pub open spec fn outcome<T>(exchange: Exchange<T>, unreadable: Seq<char>) -> Result<T, Seq<char>> {
    match exchange {
        Exchange::NoClient => Err("Không khởi tạo được HTTP client."@),
        Exchange::Failed { timeout, connect } => Err(failure_text(timeout, connect)),
        Exchange::Unreadable => Err(unreadable),
        Exchange::Answer(answer) => Ok(answer),
    }
}

/// A result with its message as a sequence of characters.
pub open spec fn with_text<T>(result: Result<T, String>) -> Result<T, Seq<char>> {
    match result {
        Ok(answer) => Ok(answer),
        Err(text) => Err(text@),
    }
}

fn settle<T>(exchange: Exchange<T>, unreadable: &str) -> (result: Result<T, String>)
    ensures
        with_text(result) == outcome(exchange, unreadable@),
{
    match exchange {
        Exchange::NoClient => Err("Không khởi tạo được HTTP client.".to_owned()),
        Exchange::Failed { timeout, connect } => Err(net_err(timeout, connect)),
        Exchange::Unreadable => Err(unreadable.to_owned()),
        Exchange::Answer(answer) => Ok(answer),
    }
}

/// What a request to activate a license comes to.
pub fn activate_result(exchange: Exchange<ActivateResponse>) -> (result: Result<
    ActivateResponse,
    String,
>)
    ensures
        with_text(result) == outcome(exchange, "Phản hồi từ máy chủ không hợp lệ."@),
{
    settle(exchange, "Phản hồi từ máy chủ không hợp lệ.")
}

/// What a heartbeat comes to.
pub fn heartbeat_result(exchange: Exchange<HeartbeatResponse>) -> (result: Result<
    HeartbeatResponse,
    String,
>)
    ensures
        with_text(result) == outcome(exchange, "Phản hồi heartbeat không hợp lệ."@),
{
    settle(exchange, "Phản hồi heartbeat không hợp lệ.")
}

/// A missing text is empty, a missing number takes its default, and a missing
/// number of days is zero; what is there is kept as it is.
pub proof fn law_defaults(text: String, number: u64, days: i32, default: int)
    ensures
        text_or_empty(Some(text)) == text@,
        text_or_empty(None).len() == 0,
        number_or(Some(number), default) == number,
        number_or(None, default) == default,
        days_or_zero(Some(days)) == days,
        days_or_zero(None) == 0,
{
}

/// A failed request is put down to the time limit if that was exceeded, else to
/// the connection if there was none, else to the network.
pub proof fn law_failures(timeout: bool, connect: bool)
    ensures
        timeout ==> failure_text(timeout, connect)
            == "Hết thời gian kết nối. Kiểm tra mạng và thử lại."@,
        !timeout && connect ==> failure_text(timeout, connect)
            == "Không thể kết nối đến máy chủ. Kiểm tra kết nối mạng."@,
        !timeout && !connect ==> failure_text(timeout, connect) == "Lỗi mạng. Vui lòng thử lại."@,
{
}

/// An exchange succeeds exactly with an answer, which is then handed on as it
/// is, whatever it holds; any other comes to the text for its failure.
pub proof fn law_only_an_answer_succeeds<T>(exchange: Exchange<T>, unreadable: Seq<char>)
    ensures
        outcome(exchange, unreadable) is Ok <==> exchange is Answer,
        exchange matches Exchange::Answer(answer) ==> outcome(exchange, unreadable) == Ok::<
            T,
            Seq<char>,
        >(answer),
        exchange is NoClient ==> outcome(exchange, unreadable) == Err::<T, Seq<char>>(
            "Không khởi tạo được HTTP client."@,
        ),
        exchange is Unreadable ==> outcome(exchange, unreadable) == Err::<T, Seq<char>>(unreadable),
        exchange matches Exchange::Failed { timeout, connect } ==> outcome(exchange, unreadable)
            == Err::<T, Seq<char>>(failure_text(timeout, connect)),
{
}

/// A result and its content succeed together, with the same answer or the same
/// words.
pub proof fn law_result_is_its_content<T>(result: Result<T, String>)
    ensures
        result is Ok <==> with_text(result) is Ok,
        result matches Ok(answer) ==> with_text(result) == Ok::<T, Seq<char>>(answer),
        result matches Err(text) ==> with_text(result) == Err::<T, Seq<char>>(text@),
{
}

/// The content of a reply is its fields, each as it is.
pub proof fn law_reply_is_its_fields(a: ActivateResponse, h: HeartbeatResponse)
    ensures
        a@.success == a.success,
        a@.message == a.message@,
        a@.token == a.token@,
        a@.plan_name == a.plan_name@,
        a@.expiry_date == a.expiry_date@,
        a@.days_left == a.days_left,
        a@.session_ttl == a._session_ttl,
        a@.heartbeat_interval == a.heartbeat_interval,
        h@.success == h.success,
        h@.message == h.message@,
        h@.expiry_date == h.expiry_date@,
        h@.days_left == h.days_left,
        h@.heartbeat_interval == h.heartbeat_interval,
{
}

} // verus!
