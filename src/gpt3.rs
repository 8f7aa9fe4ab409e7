use crate::text::{opt_view, same_text};
use vstd::prelude::*;
use vstd::string::*;

verus! {

/// The canonical API host; only its answers are cached.
pub const OPEN_AI_HOST: &'static str = "https://api.openai.com";

/// The model asked for where none is configured.
pub const DEFAULT_MODEL: &'static str = "gpt-4o";

/// The system prompt used where none is configured.
pub const DEFAULT_SYSTEM_PROMPT: &'static str = "You are a linux terminal command generator. I will describe a task and you will respond with linux command, do not include any description, explanation or any extrenous syntax.";

/// The error for a missing API key; it names the variable to set.
pub const MISSING_KEY_MESSAGE: &'static str = "Error: OPENAI_API_KEY environment variable is not defined.";

/// The field of a rate-limit reply that holds the seconds to wait.
pub const WAIT_FIELD: &'static str = "seconds_to_wait";

/// The lower-case hexadecimal digit for `d` below sixteen.
pub open spec fn hex_digit(d: nat) -> char {
    seq!['0', '1', '2', '3', '4', '5', '6', '7', '8', '9', 'a', 'b', 'c', 'd', 'e', 'f'][d as int]
}

/// How one character is written inside a JSON string: a quote and a backslash
/// get a backslash, five control characters their short forms, the other
/// control characters `\u00XX`; everything else stands as it is.
pub open spec fn escaped_char(c: char) -> Seq<char> {
    let u = c as u32;
    if c == '"' {
        seq!['\\', '"']
    } else if c == '\\' {
        seq!['\\', '\\']
    } else if u == 0x08 {
        seq!['\\', 'b']
    } else if u == 0x09 {
        seq!['\\', 't']
    } else if u == 0x0A {
        seq!['\\', 'n']
    } else if u == 0x0C {
        seq!['\\', 'f']
    } else if u == 0x0D {
        seq!['\\', 'r']
    } else if u < 0x20 {
        seq!['\\', 'u', '0', '0', hex_digit((u / 16) as nat), hex_digit((u % 16) as nat)]
    } else {
        seq![c]
    }
}

/// The characters of `s`, each escaped for a JSON string.
pub open spec fn escaped(s: Seq<char>) -> Seq<char>
    decreases s.len(),
{
    if s.len() == 0 {
        Seq::empty()
    } else {
        escaped(s.drop_last()) + escaped_char(s.last())
    }
}

/// The JSON string literal for `s`, as serde_json writes it.
pub open spec fn json_string_of(s: Seq<char>) -> Seq<char> {
    seq!['"'] + escaped(s) + seq!['"']
}

/// What a JSON body gives for the field `key`: `Err` with the parser's message
/// where the body is not JSON, else the field as a `u64`, if it is one.
pub uninterp spec fn u64_field(body: Seq<char>, key: Seq<char>) -> Result<Option<u64>, Seq<char>>;

/// How an HTTP status code is written: its number and its reason phrase.
pub uninterp spec fn status_line(code: u16) -> Seq<char>;

/// Relies on serde_json::to_string on a `&str`: the text between quotes, each
/// character escaped as serde_json's escape table says; serializing a string
/// does not fail.
#[verifier::external_body]
fn json_string(s: &str) -> (r: String)
    ensures
        r@ == json_string_of(s@),
{
    serde_json::to_string(s).unwrap_or_default()
}

/// Relies on serde_json::from_str into a `serde_json::Value`, on indexing that
/// value by a key and on `Value::as_u64`: the result depends on the body and
/// the key alone.
#[verifier::external_body]
fn read_u64_field(body: &str, key: &str) -> (r: Result<Option<u64>, String>)
    ensures
        result_view(r) == u64_field(body@, key@),
{
    serde_json::from_str::<serde_json::Value>(body).map(|v| v[key].as_u64()).map_err(
        |e| e.to_string(),
    )
}

/// Relies on reqwest::StatusCode::from_u16, which accepts the codes from 100 to
/// 999, and on StatusCode's `Display`, which writes the code in decimal, a
/// space and the reason phrase.
#[verifier::external_body]
fn status_text(code: u16) -> (r: Option<String>)
    ensures
        r is Some <==> 100 <= code <= 999,
        r matches Some(t) ==> t@ == status_line(code) && t@.len() > decimal(code as nat).len()
            && t@.take(decimal(code as nat).len() as int) == decimal(code as nat) && t@[decimal(
            code as nat,
        ).len() as int] == ' ',
{
    reqwest::StatusCode::from_u16(code).ok().map(|s| s.to_string())
}

/// The digit for `d` below ten.
pub open spec fn digit_char(d: nat) -> char {
    seq!['0', '1', '2', '3', '4', '5', '6', '7', '8', '9'][d as int]
}

/// `n` written in decimal.
pub open spec fn decimal(n: nat) -> Seq<char>
    decreases n,
{
    if n < 10 {
        seq![digit_char(n)]
    } else {
        decimal(n / 10).push(digit_char(n % 10))
    }
}

fn digit_text(d: u16) -> (r: &'static str)
    requires
        d < 10,
    ensures
        r@ == seq![digit_char(d as nat)],
{
    proof {
        reveal_strlit("0");
        reveal_strlit("1");
        reveal_strlit("2");
        reveal_strlit("3");
        reveal_strlit("4");
        reveal_strlit("5");
        reveal_strlit("6");
        reveal_strlit("7");
        reveal_strlit("8");
        reveal_strlit("9");
    }
    let r = if d == 0 {
        "0"
    } else if d == 1 {
        "1"
    } else if d == 2 {
        "2"
    } else if d == 3 {
        "3"
    } else if d == 4 {
        "4"
    } else if d == 5 {
        "5"
    } else if d == 6 {
        "6"
    } else if d == 7 {
        "7"
    } else if d == 8 {
        "8"
    } else {
        "9"
    };
    assert(r@ =~= seq![digit_char(d as nat)]);
    r
}

/// `n` written in decimal.
pub fn decimal_text(n: u16) -> (r: String)
    ensures
        r@ == decimal(n as nat),
    decreases n,
{
    if n < 10 {
        String::from_str(digit_text(n))
    } else {
        let mut r = decimal_text(n / 10);
        r.append(digit_text(n % 10));
        r
    }
}

/// A message of a conversation: its role (`system`, `user` or `assistant`)
/// and its text.
#[derive(Debug)]
pub struct Gpt3Message {
    pub role: String,
    pub content: String,
}

/// The token counts of a completion.
#[derive(Debug, Clone, Copy, PartialEq, Eq, Structural)]
pub struct Usage {
    pub prompt_tokens: i32,
    pub completion_tokens: i32,
    pub total_tokens: i32,
}

/// A message of an answer.
#[derive(Debug)]
pub struct Message {
    pub role: String,
    pub content: String,
}

/// One of the answers of a completion.
#[derive(Debug)]
pub struct Choice {
    pub message: Message,
    pub finish_reason: Option<String>,
    pub index: i32,
}

/// A completion as the API returns it.
#[derive(Debug)]
pub struct Gpt3Response {
    pub id: String,
    pub object: String,
    pub created: i64,
    pub model: String,
    pub usage: Usage,
    pub choices: Vec<Choice>,
}

/// The JSON object that stands for one message of a request.
pub open spec fn message_json(m: Gpt3Message) -> Seq<char> {
    "{\"role\":"@ + json_string_of(m.role@) + ",\"content\":"@ + json_string_of(m.content@) + "}"@
}

/// The JSON objects of `ms`, separated by commas.
pub open spec fn message_items(ms: Seq<Gpt3Message>) -> Seq<char>
    decreases ms.len(),
{
    if ms.len() == 0 {
        Seq::empty()
    } else if ms.len() == 1 {
        message_json(ms[0])
    } else {
        message_items(ms.drop_last()) + ","@ + message_json(ms.last())
    }
}

/// The JSON array of the messages: the text of a request, and its cache key.
pub open spec fn messages_json(ms: Seq<Gpt3Message>) -> Seq<char> {
    "["@ + message_items(ms) + "]"@
}

/// The body of a chat-completion request.
pub open spec fn request_body(model: Seq<char>, ms: Seq<Gpt3Message>) -> Seq<char> {
    "{\"model\":"@ + json_string_of(model) + ",\"messages\":"@ + messages_json(ms) + "}"@
}

/// The configured value, or the default where there is none.
pub open spec fn or_default(setting: Option<Seq<char>>, default: Seq<char>) -> Seq<char> {
    match setting {
        Some(v) => v,
        None => default,
    }
}

/// The fixed answer given in debug mode.
pub open spec fn is_canned_response(r: Gpt3Response) -> bool {
    &&& r.id@ == "chatcmpl-6taJ9NwJAFdKNafz0Y49j5ga0jFiF"@
    &&& r.object@ == "chat.completion"@
    &&& r.created == 1678705627
    &&& r.model@ == "gpt-4o"@
    &&& r.usage == Usage { prompt_tokens: 45, completion_tokens: 3, total_tokens: 48 }
    &&& r.choices@.len() == 1
    &&& r.choices@[0].message.role@ == "assistant"@
    &&& r.choices@[0].message.content@ == "npx ncu -i"@
    &&& r.choices@[0].finish_reason matches Some(f) && f@ == "stop"@
    &&& r.choices@[0].index == 0
}

/// Whether the first choice ended normally: its finish reason is `stop`,
/// empty, or absent.
pub open spec fn is_complete(r: Gpt3Response) -> bool {
    r.choices@.len() > 0 && match r.choices@[0].finish_reason {
        None => true,
        Some(f) => f@ == "stop"@ || f@.len() == 0,
    }
}

/// The error for a reply with a status other than success or rate limiting.
pub open spec fn failure_message(status: Seq<char>, body: Seq<char>) -> Seq<char> {
    "Request failed with status code: "@ + status + "\nError response body: "@ + body
}

/// What follows a rate-limited reply to `request` whose `seconds_to_wait`
/// read as `wait`: the wait and the request to send again, or `None` where the
/// body was not JSON.
pub open spec fn retry_of(request: ChatRequest, wait: Result<Option<u64>, Seq<char>>) -> Option<
    (u64, ChatRequest),
> {
    match wait {
        Ok(w) => Some((wait_seconds(w), request)),
        Err(_) => None,
    }
}

/// A read of `seconds_to_wait`, with the error as text.
pub open spec fn result_view(r: Result<Option<u64>, String>) -> Result<Option<u64>, Seq<char>> {
    match r {
        Ok(w) => Ok(w),
        Err(e) => Err(e@),
    }
}

/// The wait before a rate-limited request is sent again: the server's
/// `seconds_to_wait`, or none where it gave no whole number.
pub open spec fn wait_seconds(w: Option<u64>) -> u64 {
    match w {
        Some(s) => s,
        None => 0,
    }
}

/// A failure message shows the status code in decimal, right after its
/// opening words, and ends with the reply's body as it came.
pub open spec fn shows_status_and_body(m: Seq<char>, code: u16, body: Seq<char>) -> bool {
    let at = "Request failed with status code: "@.len();
    &&& m.len() >= at + decimal(code as nat).len() + body.len()
    &&& m.subrange(at as int, at + decimal(code as nat).len() as int) == decimal(code as nat)
    &&& m.subrange(m.len() - body.len(), m.len() as int) == body
}

/// How a status is written in a failure message.
pub open spec fn status_words(code: u16) -> Seq<char> {
    if 100 <= code <= 999 {
        status_line(code)
    } else {
        decimal(code as nat)
    }
}

/// A request, ready to send.
#[derive(Debug)]
pub struct ChatRequest {
    /// Where to send it.
    pub url: String,
    /// The value of the `Authorization` header.
    pub authorization: String,
    /// The JSON body.
    pub body: String,
    /// The key under which the answer is cached; `None` where answers from
    /// this host are not cached.
    pub cache_key: Option<String>,
}

/// How a call begins.
#[derive(Debug)]
pub enum AskStart {
    /// The answer is known without a request.
    Answer(Gpt3Response),
    /// The call fails without a request.
    Fail(String),
    /// Look the cache key up (where there is one), else send the request.
    Send(ChatRequest),
}

/// What a reply to a request was.
#[derive(Debug)]
pub enum Reply {
    /// A successful reply, read as a completion.
    Completion(Gpt3Response),
    /// The request could not be sent, or the reply not read: the error's text.
    Unreadable(String),
    /// A rate-limited reply, with its body.
    RateLimited(String),
    /// Any other status, with the body.
    Failed { code: u16, body: String },
}

/// What to do after a reply.
#[derive(Debug)]
pub enum Next {
    /// Return the completion, first storing it under the key, where there is one.
    Done { response: Gpt3Response, store: Option<String> },
    /// Fail with this message.
    Fail(String),
    /// Wait this many seconds, then send this request again.
    Retry { seconds: u64, request: ChatRequest },
}

/// The kinds of HTTP status that a call tells apart.
#[derive(Debug, Clone, Copy, PartialEq, Eq, Structural)]
pub enum StatusClass {
    Success,
    RateLimited,
    Failure,
}

/// 2xx is success and 429 asks to wait; anything else is a failure.
pub fn classify_status(code: u16) -> (r: StatusClass)
    ensures
        200 <= code <= 299 ==> r == StatusClass::Success,
        code == 429 ==> r == StatusClass::RateLimited,
        !(200 <= code <= 299) && code != 429 ==> r == StatusClass::Failure,
{
    if 200 <= code && code <= 299 {
        StatusClass::Success
    } else if code == 429 {
        StatusClass::RateLimited
    } else {
        StatusClass::Failure
    }
}

/// Whether a completion may be cached: its first choice ended normally.
pub fn is_complete_answer(response: &Gpt3Response) -> (r: bool)
    ensures
        r == is_complete(*response),
{
    if response.choices.len() == 0 {
        return false;
    }
    match &response.choices[0].finish_reason {
        None => true,
        Some(f) => {
            let f = f.as_str();
            f.unicode_len() == 0 || same_text(f, "stop")
        },
    }
}

/// The text of a request's messages as a JSON array.
pub fn messages_to_json(messages: &Vec<Gpt3Message>) -> (r: String)
    ensures
        r@ == messages_json(messages@),
{
    let mut out = String::from_str("[");
    let mut i: usize = 0;
    while i < messages.len()
        invariant
            i <= messages@.len(),
            out@ == "["@ + message_items(messages@.take(i as int)),
        decreases messages.len() - i,
    {
        let m = &messages[i];
        if i > 0 {
            out.append(",");
        }
        out.append("{\"role\":");
        out.append(json_string(m.role.as_str()).as_str());
        out.append(",\"content\":");
        out.append(json_string(m.content.as_str()).as_str());
        out.append("}");
        proof {
            let t = messages@.take(i + 1);
            assert(t.drop_last() =~= messages@.take(i as int));
            assert(t.last() == messages@[i as int]);
            if i == 0 {
                assert(t.len() == 1);
            }
        }
        assert(out@ =~= "["@ + message_items(messages@.take(i + 1)));
        i = i + 1;
    }
    assert(messages@.take(i as int) =~= messages@);
    out.append("]");
    out
}

/// The JSON body of a request for `model` with `messages`.
pub fn request_body_text(model: &str, messages: &Vec<Gpt3Message>) -> (r: String)
    ensures
        r@ == request_body(model@, messages@),
{
    let mut out = String::from_str("{\"model\":");
    out.append(json_string(model).as_str());
    out.append(",\"messages\":");
    out.append(messages_to_json(messages).as_str());
    out.append("}");
    assert(out@ =~= request_body(model@, messages@));
    out
}

/// The message of a failed call: the status, written as the HTTP library
/// writes it, and the reply's body.
pub fn failure_text(code: u16, body: &str) -> (r: String)
    ensures
        r@ == failure_message(status_words(code), body@),
        shows_status_and_body(r@, code, body@),
{
    let status = match status_text(code) {
        Some(t) => t,
        None => decimal_text(code),
    };
    let mut out = String::from_str("Request failed with status code: ");
    out.append(status.as_str());
    out.append("\nError response body: ");
    out.append(body);
    let ghost prefix = "Request failed with status code: "@;
    let ghost digits = decimal(code as nat);
    assert(out@ =~= failure_message(status_words(code), body@));
    assert(status@.len() >= digits.len());
    assert(status@.take(digits.len() as int) =~= digits);
    assert(out@.subrange(prefix.len() as int, prefix.len() + digits.len() as int) =~= status@.take(
        digits.len() as int,
    ));
    assert(out@.subrange(out@.len() - body@.len(), out@.len() as int) =~= body@);
    out
}

/// The next step after a rate-limited reply whose `seconds_to_wait` read as
/// `wait`: send the same request again after that many seconds (none where the
/// field is missing or not a whole number), or fail where the body is not JSON.
pub fn retry_after(request: ChatRequest, wait: Result<Option<u64>, String>) -> (r: Next)
    ensures
        match retry_of(request, result_view(wait)) {
            Some((seconds, again)) => r == (Next::Retry { seconds, request: again }),
            None => wait matches Err(e) && r matches Next::Fail(m) && m@ == e@,
        },
{
    match wait {
        Ok(Some(s)) => Next::Retry { seconds: s, request },
        Ok(None) => Next::Retry { seconds: 0, request },
        Err(e) => Next::Fail(e),
    }
}

/// A client of the chat-completion API.
pub struct Gpt {
    debug: bool,
    api_key: String,
    openapi_host: String,
}

impl Gpt {
    /// Whether the client answers without asking.
    pub closed spec fn debug_view(&self) -> bool {
        self.debug
    }

    /// The API key; empty where none is configured.
    pub closed spec fn key_view(&self) -> Seq<char> {
        self.api_key@
    }

    /// The host that requests go to.
    pub closed spec fn host_view(&self) -> Seq<char> {
        self.openapi_host@
    }

    /// A client. `api_key` and `base_url` are the key and host configured in
    /// the environment, where they are set. A host given as `openapi_host`
    /// wins over the configured one, and the canonical host is the default.
    pub fn new(
        debug: Option<bool>,
        openapi_host: Option<&str>,
        api_key: Option<&str>,
        base_url: Option<&str>,
    ) -> (r: Gpt)
        ensures
            r.debug_view() == (debug == Some(true)),
            r.key_view() == or_default(opt_view(api_key), Seq::empty()),
            r.host_view() == or_default(
                opt_view(openapi_host),
                or_default(opt_view(base_url), OPEN_AI_HOST@),
            ),
    {
        let api_key = match api_key {
            Some(k) => String::from_str(k),
            None => String::new(),
        };
        let openapi_host = match openapi_host {
            Some(h) => String::from_str(h),
            None => match base_url {
                Some(h) => String::from_str(h),
                None => String::from_str(OPEN_AI_HOST),
            },
        };
        Gpt {
            debug: match debug {
                Some(d) => d,
                None => false,
            },
            api_key,
            openapi_host,
        }
    }

    /// Whether the client talks to the canonical host.
    pub fn is_open_ai(&self) -> (r: bool)
        ensures
            r == (self.host_view() == OPEN_AI_HOST@),
    {
        same_text(self.openapi_host.as_str(), OPEN_AI_HOST)
    }

    /// The system prompt: the configured one, else the default.
    pub fn get_system_prompt(setting: Option<&str>) -> (r: String)
        ensures
            r@ == or_default(opt_view(setting), DEFAULT_SYSTEM_PROMPT@),
    {
        match setting {
            Some(p) => String::from_str(p),
            None => String::from_str(DEFAULT_SYSTEM_PROMPT),
        }
    }

    /// The model to ask: the configured one, else the default.
    pub fn model_name(setting: Option<&str>) -> (r: String)
        ensures
            r@ == or_default(opt_view(setting), DEFAULT_MODEL@),
    {
        match setting {
            Some(m) => String::from_str(m),
            None => String::from_str(DEFAULT_MODEL),
        }
    }

    /// Fails, naming the variable to set, where no API key is configured.
    pub fn check_api_key(&self) -> (r: Result<(), String>)
        ensures
            self.key_view().len() > 0 ==> r is Ok,
            self.key_view().len() == 0 ==> (r matches Err(e) && e@ == MISSING_KEY_MESSAGE@),
    {
        if self.api_key.as_str().unicode_len() > 0 {
            Ok(())
        } else {
            Err(String::from_str(MISSING_KEY_MESSAGE))
        }
    }

    /// The fixed answer of debug mode.
    pub fn canned_response() -> (r: Gpt3Response)
        ensures
            is_canned_response(r),
    {
        Gpt3Response {
            id: String::from_str("chatcmpl-6taJ9NwJAFdKNafz0Y49j5ga0jFiF"),
            object: String::from_str("chat.completion"),
            created: 1678705627,
            model: String::from_str("gpt-4o"),
            usage: Usage { prompt_tokens: 45, completion_tokens: 3, total_tokens: 48 },
            choices: vec![
                Choice {
                    message: Message {
                        role: String::from_str("assistant"),
                        content: String::from_str("npx ncu -i"),
                    },
                    finish_reason: Some(String::from_str("stop")),
                    index: 0,
                },
            ],
        }
    }

    /// Begins a call with `messages`, asking for the configured `model` (or the
    /// default): in debug mode the fixed answer, without a key or a request;
    /// without a key, the error that names it; else the request to send, with
    /// its cache key where the host is the canonical one.
    pub fn start(&self, messages: &Vec<Gpt3Message>, model: Option<&str>) -> (r: AskStart)
        ensures
            self.debug_view() ==> (r matches AskStart::Answer(a) && is_canned_response(a)),
            !self.debug_view() && self.key_view().len() == 0 ==> (r matches AskStart::Fail(e)
                && e@ == MISSING_KEY_MESSAGE@),
            !self.debug_view() && self.key_view().len() > 0 ==> (r matches AskStart::Send(q) && q.url@
                == self.host_view() + "/v1/chat/completions"@ && q.authorization@ == "Bearer "@
                + self.key_view() && q.body@ == request_body(
                or_default(opt_view(model), DEFAULT_MODEL@),
                messages@,
            ) && (self.host_view() == OPEN_AI_HOST@ ==> (q.cache_key matches Some(k) && k@
                == messages_json(messages@))) && (self.host_view() != OPEN_AI_HOST@
                ==> q.cache_key is None)),
    {
        if self.debug {
            return AskStart::Answer(Gpt::canned_response());
        }
        match self.check_api_key() {
            Err(e) => AskStart::Fail(e),
            Ok(()) => {
                let cache_key = if self.is_open_ai() {
                    Some(messages_to_json(messages))
                } else {
                    None
                };
                let model = Gpt::model_name(model);
                let url = String::from_str(self.openapi_host.as_str()).concat(
                    "/v1/chat/completions",
                );
                let authorization = String::from_str("Bearer ").concat(self.api_key.as_str());
                let body = request_body_text(model.as_str(), messages);
                AskStart::Send(ChatRequest { url, authorization, body, cache_key })
            },
        }
    }

    /// The next step after `reply` to `request`: a completion is returned, and
    /// stored under the cache key where there is one and it ended normally; a
    /// rate-limited reply leads to the same request again after the wait its
    /// body asks for; anything else fails with its message.
    pub fn on_reply(&self, request: ChatRequest, reply: Reply) -> (r: Next)
        ensures
            match reply {
                Reply::Completion(c) => r == (Next::Done {
                    response: c,
                    store: if is_complete(c) {
                        request.cache_key
                    } else {
                        None
                    },
                }),
                Reply::Unreadable(e) => r matches Next::Fail(m) && m@ == e@,
                Reply::RateLimited(body) => match retry_of(request, u64_field(body@, WAIT_FIELD@)) {
                    Some((seconds, again)) => r == (Next::Retry { seconds, request: again }),
                    None => u64_field(body@, WAIT_FIELD@) matches Err(e) && r matches Next::Fail(m) && m@ == e,
                },
                Reply::Failed { code, body } => r matches Next::Fail(m) && m@ == failure_message(
                    status_words(code),
                    body@,
                ) && shows_status_and_body(m@, code, body@),
            },
    {
        match reply {
            Reply::Completion(c) => {
                let store = if is_complete_answer(&c) {
                    request.cache_key
                } else {
                    None
                };
                Next::Done { response: c, store }
            },
            Reply::Unreadable(e) => Next::Fail(e),
            Reply::RateLimited(body) => retry_after(request, read_u64_field(body.as_str(), WAIT_FIELD)),
            Reply::Failed { code, body } => Next::Fail(failure_text(code, body.as_str())),
        }
    }
}

/// The error for a missing key names the variable that holds the key.
pub proof fn lemma_missing_key_names_variable()
    ensures
        MISSING_KEY_MESSAGE@.subrange(7, 21) == "OPENAI_API_KEY"@,
{
    reveal_strlit("Error: OPENAI_API_KEY environment variable is not defined.");
    reveal_strlit("OPENAI_API_KEY");
    assert(MISSING_KEY_MESSAGE@.subrange(7, 21) =~= "OPENAI_API_KEY"@);
}

/// A rate-limited reply that asks for no wait is followed by one new attempt,
/// at once, with the very same request.
pub proof fn lemma_zero_wait_retries_at_once(
    request: ChatRequest,
    wait: Result<Option<u64>, Seq<char>>,
)
    requires
        wait == Ok::<Option<u64>, Seq<char>>(Some(0u64)),
    ensures
        retry_of(request, wait) == Some((0u64, request)),
{
}

} // verus!
