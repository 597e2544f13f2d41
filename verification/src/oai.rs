//! The mock of an OpenAI-compatible server.

use crate::codec::{json_text, render};
use crate::json::{items_view, Json, JsonView};
use crate::mock::{
    field, list_one, list_two, number_words, numbered, one, t, two, DEFAULT_SCRIPT, GARBLED,
};
use crate::rpc::says;
use crate::text::{chars_of, decimal, digit, group_texts, opt_text, same, texts};
use crate::views::group_views;
use vstd::prelude::*;

verus! {

broadcast use {group_views, group_texts};

/// The port that the server listens on where none is given.
pub const DEFAULT_PORT: u16 = 18080;

/// What a stream ends with.
pub const DONE: &'static str = "[DONE]";

// ---------------------------------------------------------------------------
// Arguments
// ---------------------------------------------------------------------------

/// Whether a character is a decimal digit.
pub open spec fn is_digit(c: char) -> bool {
    '0' <= c <= '9'
}

/// The number that digits stand for.
pub open spec fn digits_value(s: Seq<char>) -> nat
    decreases s.len(),
{
    if s.len() == 0 {
        0
    } else {
        digits_value(s.drop_last()) * 10 + (s.last() as u32 - '0' as u32) as nat
    }
}

/// The digits of a number that may have a plus sign before them.
pub open spec fn unsigned_part(s: Seq<char>) -> Seq<char> {
    if s.len() > 0 && s[0] == '+' {
        s.drop_first()
    } else {
        s
    }
}

/// The port that a text denotes: digits, at least one, with a plus sign before them or not, and no
/// number that is too large.
pub open spec fn port_of(s: Seq<char>) -> Option<u16> {
    let d = unsigned_part(s);
    if d.len() > 0 && (forall|i: int| 0 <= i < d.len() ==> is_digit(#[trigger] d[i]))
        && digits_value(d) <= u16::MAX {
        Some(digits_value(d) as u16)
    } else {
        None
    }
}

/// More digits never make a number smaller.
proof fn value_grows(s: Seq<char>, k: int)
    requires
        0 <= k <= s.len(),
        forall|i: int| 0 <= i < s.len() ==> is_digit(#[trigger] s[i]),
    ensures
        digits_value(s.take(k)) <= digits_value(s),
    decreases s.len(),
{
    if k < s.len() {
        assert(s.drop_last().take(k) =~= s.take(k));
        assert forall|i: int| 0 <= i < s.drop_last().len() implies is_digit(
            #[trigger] s.drop_last()[i],
        ) by {
            assert(s.drop_last()[i] == s[i]);
        }
        value_grows(s.drop_last(), k);
        assert(is_digit(s[s.len() - 1]));
    } else {
        assert(s.take(k) =~= s);
    }
}

/// Reads a port.
pub fn parse_port(text: &str) -> (r: Option<u16>)
    ensures
        r == port_of(text@),
{
    let c = chars_of(text);
    let start: usize = if c.len() > 0 && c[0] == '+' {
        1
    } else {
        0
    };
    let ghost d = unsigned_part(text@);
    assert(d =~= c@.skip(start as int));
    if c.len() <= start {
        return None;
    }
    let mut i: usize = start;
    while i < c.len()
        invariant
            start <= i <= c@.len(),
            d == c@.skip(start as int),
            d == unsigned_part(text@),
            forall|k: int| 0 <= k < i - start ==> is_digit(#[trigger] d[k]),
        decreases c@.len() - i,
    {
        assert(d[i - start] == c@[i as int]);
        if !('0' <= c[i] && c[i] <= '9') {
            assert(!is_digit(d[i - start]));
            return None;
        }
        i += 1;
    }
    let mut value: u32 = 0;
    let mut k: usize = start;
    assert(d.take(0) =~= Seq::<char>::empty());
    while k < c.len()
        invariant
            start <= k <= c@.len(),
            d == c@.skip(start as int),
            d == unsigned_part(text@),
            d.len() == c@.len() - start,
            forall|j: int| 0 <= j < d.len() ==> is_digit(#[trigger] d[j]),
            value == digits_value(d.take(k - start)),
            value <= u16::MAX,
        decreases c@.len() - k,
    {
        assert(d[k - start] == c@[k as int]);
        assert(is_digit(d[k - start]));
        assert(d.take(k + 1 - start).drop_last() =~= d.take(k - start));
        let digit: u32 = c[k] as u32 - '0' as u32;
        value = value * 10 + digit;
        k += 1;
        if value > u16::MAX as u32 {
            proof {
                value_grows(d, k - start);
            }
            return None;
        }
    }
    assert(d.take(k - start) =~= d);
    Some(value as u16)
}

/// What the server is told on its command line.
#[derive(Debug, PartialEq, Eq)]
pub struct Args {
    pub port: Option<u16>,
    pub scenario: Option<String>,
}

#[verifier::ext_equal]
pub struct ArgsView {
    pub port: Option<u16>,
    pub scenario: Option<Seq<char>>,
}

impl View for Args {
    type V = ArgsView;

    open spec fn view(&self) -> ArgsView {
        ArgsView { port: self.port, scenario: opt_text(self.scenario) }
    }
}

/// What arguments say. An option takes the argument after it, the last one counts, and anything
/// else is passed over.
pub open spec fn args_from(args: Seq<Seq<char>>, sofar: ArgsView) -> ArgsView
    decreases args.len(),
{
    if args.len() == 0 {
        sofar
    } else if args[0] == "--port"@ {
        if args.len() == 1 {
            ArgsView { port: None, ..sofar }
        } else {
            args_from(args.skip(2), ArgsView { port: port_of(args[1]), ..sofar })
        }
    } else if args[0] == "--scenario"@ {
        if args.len() == 1 {
            ArgsView { scenario: None, ..sofar }
        } else {
            args_from(args.skip(2), ArgsView { scenario: Some(args[1]), ..sofar })
        }
    } else {
        args_from(args.skip(1), sofar)
    }
}

/// Reads the arguments after the program's name.
pub fn parse_args(args: &Vec<String>) -> (r: Args)
    ensures
        r@ == args_from(texts(args@), ArgsView { port: None, scenario: None }),
{
    let ghost all = texts(args@);
    let total: usize = args.len();
    let mut port: Option<u16> = None;
    let mut scenario: Option<String> = None;
    let mut i: usize = 0;
    assert(all.skip(0) =~= all);
    while i < total
        invariant
            i <= total,
            total == args@.len(),
            all == texts(args@),
            args_from(all, ArgsView { port: None, scenario: None }) == args_from(
                all.skip(i as int),
                ArgsView { port, scenario: opt_text(scenario) },
            ),
        decreases total - i,
    {
        let ghost rest = all.skip(i as int);
        assert(rest[0] == args@[i as int]@);
        let more = total - i > 1;
        if more {
            assert(rest[1] == args@[i + 1]@);
            assert(rest.skip(2) =~= all.skip(i + 2));
        }
        assert(rest.skip(1) =~= all.skip(i + 1));
        if same(args[i].as_str(), "--port") {
            if !more {
                return Args { port: None, scenario };
            }
            port = parse_port(args[i + 1].as_str());
            i += 2;
        } else if same(args[i].as_str(), "--scenario") {
            if !more {
                return Args { port, scenario: None };
            }
            scenario = Some(args[i + 1].clone());
            i += 2;
        } else {
            i += 1;
        }
    }
    Args { port, scenario }
}

/// The port to listen on: that of the command line, or that of the environment, or the default.
pub open spec fn chosen_port(arg: Option<u16>, env: Option<Seq<char>>) -> u16 {
    match arg {
        Some(p) => p,
        None => match env {
            Some(s) => match port_of(s) {
                Some(p) => p,
                None => DEFAULT_PORT,
            },
            None => DEFAULT_PORT,
        },
    }
}

/// Chooses the port to listen on.
pub fn choose_port(arg: Option<u16>, env: &Option<String>) -> (r: u16)
    ensures
        r == chosen_port(arg, opt_text(*env)),
{
    match arg {
        Some(p) => p,
        None => match env {
            Some(s) => match parse_port(s.as_str()) {
                Some(p) => p,
                None => DEFAULT_PORT,
            },
            None => DEFAULT_PORT,
        },
    }
}

// ---------------------------------------------------------------------------
// Answers
// ---------------------------------------------------------------------------

/// The models that the server offers.
pub open spec fn models() -> JsonView {
    field("object"@, t("list"@)).with(
        "data"@,
        two(
            field("id"@, t("gpt-5"@)).with("object"@, t("model"@)),
            field("id"@, t("gpt-5-mini"@)).with("object"@, t("model"@)),
        ),
    )
}

/// Lists the models that the server offers.
pub fn list_models() -> (r: Json)
    ensures
        r@ == models(),
{
    let first = Json::object().with("id", Json::text("gpt-5")).with("object", Json::text("model"));
    let second = Json::object().with("id", Json::text("gpt-5-mini")).with(
        "object",
        Json::text("model"),
    );
    Json::object().with("object", Json::text("list")).with("data", list_two(first, second))
}

/// Whether a message is an answer or the result of a tool.
pub open spec fn is_history(m: JsonView) -> bool {
    m.text_at("role"@) == Some("assistant"@) || m.text_at("role"@) == Some("tool"@)
}

/// Whether one of the messages is an answer or the result of a tool.
pub open spec fn any_history(messages: Seq<JsonView>) -> bool {
    exists|i: int| 0 <= i < messages.len() && is_history(#[trigger] messages[i])
}

/// Whether a request continues a conversation.
pub open spec fn continues(request: JsonView) -> bool {
    match request.get("messages"@) {
        Some(JsonView::List(items)) => any_history(items),
        _ => false,
    }
}

/// Tells whether a request continues a conversation.
pub fn has_assistant_history(request: &Json) -> (r: bool)
    ensures
        r == continues(request@),
{
    match request.get("messages") {
        Some(Json::List(items)) => {
            let ghost all = items_view(items@);
            let mut i: usize = 0;
            while i < items.len()
                invariant
                    i <= items@.len(),
                    all == items_view(items@),
                    request@.get("messages"@) == Some(JsonView::List(all)),
                    forall|k: int| 0 <= k < i ==> !is_history(#[trigger] all[k]),
                decreases items@.len() - i,
            {
                assert(all[i as int] == items@[i as int]@);
                let found = match items[i].text_at("role") {
                    Some(role) => same(role, "assistant") || same(role, "tool"),
                    None => false,
                };
                if found {
                    assert(is_history(all[i as int]));
                    assert(any_history(all));
                    return true;
                }
                i += 1;
            }
            false
        },
        _ => false,
    }
}

/// The script that a request is answered by: that of a continuation, or the one that is set.
pub open spec fn script_for(request: JsonView, configured: Option<Seq<char>>) -> Seq<char> {
    if continues(request) {
        "resume-session"@
    } else {
        match configured {
            Some(s) => s,
            None => DEFAULT_SCRIPT@,
        }
    }
}

/// One chunk of the stream.
pub open spec fn chunk(model: Seq<char>, delta: JsonView, finish: Option<Seq<char>>) -> JsonView {
    let plain = field("index"@, JsonView::Int(0)).with("delta"@, delta);
    let choice = match finish {
        Some(reason) => plain.with("finish_reason"@, t(reason)),
        None => plain,
    };
    field("id"@, t("chatcmpl-mock"@)).with("object"@, t("chat.completion.chunk"@)).with(
        "model"@,
        t(model),
    ).with("choices"@, one(choice))
}

/// Writes one chunk of the stream.
pub fn send_chunk(model: &str, delta: Json, finish: Option<&str>) -> (r: String)
    ensures
        r@ == json_text(
            chunk(
                model@,
                delta@,
                match finish {
                    Some(s) => Some(s@),
                    None => None,
                },
            ),
        ),
{
    let plain = Json::object().with("index", Json::Unsigned(0)).with("delta", delta);
    let choice = match finish {
        Some(reason) => plain.with("finish_reason", Json::text(reason)),
        None => plain,
    };
    render(
        &Json::object().with("id", Json::text("chatcmpl-mock")).with(
            "object",
            Json::text("chat.completion.chunk"),
        ).with("model", Json::text(model)).with("choices", list_one(choice)),
    )
}

/// The data of a chunk that goes on.
pub open spec fn data(model: Seq<char>, delta: JsonView) -> Seq<char> {
    json_text(chunk(model, delta, None))
}

/// The data of the chunk that ends an answer.
pub open spec fn last_data(model: Seq<char>, reason: Seq<char>) -> Seq<char> {
    json_text(chunk(model, JsonView::object(), Some(reason)))
}

/// A delta with text.
pub open spec fn content(text: Seq<char>) -> JsonView {
    field("content"@, t(text))
}

/// The stream of an answer that is only text.
pub open spec fn text_stream(model: Seq<char>, parts: Seq<Seq<char>>) -> Seq<Seq<char>> {
    parts.map_values(|p: Seq<char>| data(model, content(p))).push(last_data(model, "stop"@))
}

fn emit_text_chunks(model: &str, parts: &Vec<String>) -> (r: Vec<String>)
    ensures
        texts(r@) == text_stream(model@, texts(parts@)),
{
    let mut r: Vec<String> = Vec::new();
    let ghost all = texts(parts@).map_values(|p: Seq<char>| data(model@, content(p)));
    let mut i: usize = 0;
    assert(texts(r@) =~= all.take(0));
    while i < parts.len()
        invariant
            i <= parts@.len(),
            all == texts(parts@).map_values(|p: Seq<char>| data(model@, content(p))),
            texts(r@) == all.take(i as int),
        decreases parts@.len() - i,
    {
        r.push(
            send_chunk(
                model,
                Json::object().with("content", Json::Text(parts[i].clone())),
                None,
            ),
        );
        i += 1;
        assert(texts(r@) =~= all.take(i as int));
    }
    assert(all.take(i as int) =~= all);
    r.push(send_chunk(model, Json::object(), Some("stop")));
    r
}

/// The beginning of a tool call.
pub open spec fn call_begin(index: int, id: Seq<char>) -> JsonView {
    field("index"@, JsonView::Int(index)).with("id"@, t(id)).with("type"@, t("function"@)).with(
        "function"@,
        field("name"@, t("shell"@)).with("arguments"@, t(""@)),
    )
}

fn make_call_begin(index: u64, id: &str) -> (r: Json)
    ensures
        r@ == call_begin(index as int, id@),
{
    Json::object().with("index", Json::Unsigned(index)).with("id", Json::text(id)).with(
        "type",
        Json::text("function"),
    ).with(
        "function",
        Json::object().with("name", Json::text("shell")).with("arguments", Json::text("")),
    )
}

/// More of the arguments of a tool call.
pub open spec fn call_more(index: int, arguments: Seq<char>) -> JsonView {
    field("index"@, JsonView::Int(index)).with("function"@, field("arguments"@, t(arguments)))
}

fn make_call_more(index: u64, arguments: &str) -> (r: Json)
    ensures
        r@ == call_more(index as int, arguments@),
{
    Json::object().with("index", Json::Unsigned(index)).with(
        "function",
        Json::object().with("arguments", Json::text(arguments)),
    )
}

/// A delta with tool calls.
pub open spec fn calls(list: JsonView) -> JsonView {
    field("tool_calls"@, list)
}

/// The stream of one tool call, whose arguments come in two parts.
pub open spec fn single_stream(model: Seq<char>) -> Seq<Seq<char>> {
    seq![
        data(model, content("Looking up... "@)),
        data(model, calls(one(call_begin(0, "call_1"@)))),
        data(model, calls(one(call_more(0, "{\"cmd\":"@)))),
        data(model, calls(one(call_more(0, "\"ls\"}"@)))),
        last_data(model, "tool_calls"@),
    ]
}

fn emit_tool_single(model: &str) -> (r: Vec<String>)
    ensures
        texts(r@) == single_stream(model@),
{
    let mut r: Vec<String> = Vec::new();
    r.push(send_chunk(model, Json::object().with("content", Json::text("Looking up... ")), None));
    r.push(
        send_chunk(
            model,
            Json::object().with("tool_calls", list_one(make_call_begin(0, "call_1"))),
            None,
        ),
    );
    r.push(
        send_chunk(
            model,
            Json::object().with("tool_calls", list_one(make_call_more(0, "{\"cmd\":"))),
            None,
        ),
    );
    r.push(
        send_chunk(
            model,
            Json::object().with("tool_calls", list_one(make_call_more(0, "\"ls\"}"))),
            None,
        ),
    );
    r.push(send_chunk(model, Json::object(), Some("tool_calls")));
    assert(texts(r@) =~= single_stream(model@));
    r
}

/// The stream of two tool calls at once.
pub open spec fn parallel_stream(model: Seq<char>) -> Seq<Seq<char>> {
    seq![
        data(model, content("Parallel ops: "@)),
        data(model, calls(two(call_begin(0, "call_a"@), call_begin(1, "call_b"@)))),
        data(
            model,
            calls(
                two(
                    call_more(0, "{\"cmd\":\"pwd\"}"@),
                    call_more(1, "{\"cmd\":\"whoami\"}"@),
                ),
            ),
        ),
        last_data(model, "tool_calls"@),
    ]
}

fn emit_tool_parallel(model: &str) -> (r: Vec<String>)
    ensures
        texts(r@) == parallel_stream(model@),
{
    let mut r: Vec<String> = Vec::new();
    r.push(send_chunk(model, Json::object().with("content", Json::text("Parallel ops: ")), None));
    r.push(
        send_chunk(
            model,
            Json::object().with(
                "tool_calls",
                list_two(make_call_begin(0, "call_a"), make_call_begin(1, "call_b")),
            ),
            None,
        ),
    );
    r.push(
        send_chunk(
            model,
            Json::object().with(
                "tool_calls",
                list_two(
                    make_call_more(0, "{\"cmd\":\"pwd\"}"),
                    make_call_more(1, "{\"cmd\":\"whoami\"}"),
                ),
            ),
            None,
        ),
    );
    r.push(send_chunk(model, Json::object(), Some("tool_calls")));
    assert(texts(r@) =~= parallel_stream(model@));
    r
}

/// The stream with data in it that is no JSON.
pub open spec fn recovery_stream(model: Seq<char>) -> Seq<Seq<char>> {
    seq![
        data(model, content("Working... "@)),
        GARBLED@,
        data(model, content("recovered."@)),
        last_data(model, "stop"@),
    ]
}

fn emit_error_recovery(model: &str) -> (r: Vec<String>)
    ensures
        texts(r@) == recovery_stream(model@),
{
    let mut r: Vec<String> = Vec::new();
    r.push(send_chunk(model, Json::object().with("content", Json::text("Working... ")), None));
    r.push(GARBLED.to_owned());
    r.push(send_chunk(model, Json::object().with("content", Json::text("recovered.")), None));
    r.push(send_chunk(model, Json::object(), Some("stop")));
    assert(texts(r@) =~= recovery_stream(model@));
    r
}

/// The stream of a script, without what ends it. A name that no script has stands for the short
/// one.
pub open spec fn stream_of(script: Seq<char>, model: Seq<char>) -> Seq<Seq<char>> {
    if script == "streaming-medium"@ {
        text_stream(model, numbered("word"@, 40))
    } else if script == "streaming-long"@ {
        text_stream(model, numbered("token"@, 300))
    } else if script == "tool-call-single"@ {
        single_stream(model)
    } else if script == "tool-call-parallel"@ {
        parallel_stream(model)
    } else if script == "error-recovery"@ {
        recovery_stream(model)
    } else if script == "resume-session"@ {
        text_stream(model, seq!["Hello "@, "again"@, "!"@])
    } else {
        text_stream(model, seq!["Hello "@, "world"@, "!"@])
    }
}

fn three(a: &str, b: &str, c: &str) -> (r: Vec<String>)
    ensures
        texts(r@) == seq![a@, b@, c@],
{
    let mut r: Vec<String> = Vec::new();
    r.push(a.to_owned());
    r.push(b.to_owned());
    r.push(c.to_owned());
    assert(texts(r@) =~= seq![a@, b@, c@]);
    r
}

fn make_stream(script: &str, model: &str) -> (r: Vec<String>)
    ensures
        texts(r@) == stream_of(script@, model@),
{
    if same(script, "streaming-medium") {
        emit_text_chunks(model, &number_words("word", 40))
    } else if same(script, "streaming-long") {
        emit_text_chunks(model, &number_words("token", 300))
    } else if same(script, "tool-call-single") {
        emit_tool_single(model)
    } else if same(script, "tool-call-parallel") {
        emit_tool_parallel(model)
    } else if same(script, "error-recovery") {
        emit_error_recovery(model)
    } else if same(script, "resume-session") {
        emit_text_chunks(model, &three("Hello ", "again", "!"))
    } else {
        emit_text_chunks(model, &three("Hello ", "world", "!"))
    }
}

/// The status of a request that cannot be served.
pub const BAD_REQUEST: u16 = 400;

/// How a request is answered: with a stream, if it asks for one, which the mark of the end closes.
pub open spec fn completion(request: JsonView, configured: Option<Seq<char>>) -> Result<
    Seq<Seq<char>>,
    (u16, Seq<char>),
> {
    if !request.truth_or("stream"@, false) {
        Err((BAD_REQUEST, "mock-oai requires stream:true"@))
    } else {
        let model = match request.text_at("model"@) {
            Some(m) => m,
            None => "gpt-5"@,
        };
        Ok(stream_of(script_for(request, configured), model).push(DONE@))
    }
}

/// Answers a request for a completion.
pub fn chat_completions(request: &Json, configured: &Option<String>) -> (r: Result<
    Vec<String>,
    (u16, String),
>)
    ensures
        match r {
            Ok(list) => completion(request@, opt_text(*configured)) == Ok::<
                Seq<Seq<char>>,
                (u16, Seq<char>),
            >(texts(list@)),
            Err((code, message)) => completion(request@, opt_text(*configured)) == Err::<
                Seq<Seq<char>>,
                (u16, Seq<char>),
            >((code, message@)),
        },
{
    if !request.truth_or("stream", false) {
        return Err((BAD_REQUEST, "mock-oai requires stream:true".to_owned()));
    }
    let script = if has_assistant_history(request) {
        "resume-session".to_owned()
    } else {
        match configured {
            Some(s) => s.clone(),
            None => DEFAULT_SCRIPT.to_owned(),
        }
    };
    let model = match request.text_at("model") {
        Some(m) => m,
        None => "gpt-5",
    };
    let mut list = make_stream(script.as_str(), model);
    list.push(DONE.to_owned());
    Ok(list)
}

/// A request that continues a conversation is answered as a continuation, whatever script is set.
pub proof fn continuations_resume(
    request: JsonView,
    configured: Option<Seq<char>>,
    other: Option<Seq<char>>,
)
    requires
        continues(request),
    ensures
        completion(request, configured) == completion(request, other),
{
}

/// Every stream ends with the mark of the end.
pub proof fn streams_are_closed(request: JsonView, configured: Option<Seq<char>>)
    ensures
        completion(request, configured) matches Ok(list) ==> list.len() > 0 && list.last() == DONE@,
{
}

// ---------------------------------------------------------------------------
// Laws
// ---------------------------------------------------------------------------

proof fn decimal_is_read(n: nat)
    ensures
        decimal(n).len() > 0,
        forall|i: int| 0 <= i < decimal(n).len() ==> is_digit(#[trigger] decimal(n)[i]),
        digits_value(decimal(n)) == n,
    decreases n,
{
    let s = decimal(n);
    if n < 10 {
        assert(s.drop_last() =~= Seq::<char>::empty());
        assert(digits_value(s.drop_last()) == 0);
        assert(s.last() == digit(n));
    } else {
        decimal_is_read(n / 10);
        assert(s.drop_last() =~= decimal(n / 10));
        assert(s.last() == digit(n % 10));
        assert forall|i: int| 0 <= i < s.len() implies is_digit(#[trigger] s[i]) by {
            if i < s.len() - 1 {
                assert(s[i] == decimal(n / 10)[i]);
            }
        }
    }
}

/// A port is read from its decimal form, with a plus sign or without, and no larger number is read
/// as one. A text that has any character that is no digit behind that sign is no port.
pub proof fn ports_read_back(n: nat, text: Seq<char>, i: int)
    ensures
        n <= u16::MAX ==> port_of(decimal(n)) == Some(n as u16) && port_of(seq!['+'] + decimal(n))
            == Some(n as u16),
        n > u16::MAX ==> port_of(decimal(n)) is None && port_of(seq!['+'] + decimal(n)) is None,
        port_of(Seq::empty()) is None,
        0 <= i < text.len() && !is_digit(text[i]) && !(i == 0 && text[i] == '+') ==> port_of(text)
            is None,
{
    decimal_is_read(n);
    let d = decimal(n);
    assert(is_digit(d[0]));
    assert((seq!['+'] + d).drop_first() =~= d);
    if 0 <= i < text.len() && !is_digit(text[i]) && !(i == 0 && text[i] == '+') {
        let u = unsigned_part(text);
        if text[0] == '+' {
            assert(u[i - 1] == text[i]);
        } else {
            assert(u[i] == text[i]);
        }
    }
}

/// The options are different.
proof fn options_differ()
    ensures
        "--port"@ != "--scenario"@,
{
    reveal_strlit("--port");
    reveal_strlit("--scenario");
    assert("--port"@.len() == 6);
    assert("--scenario"@.len() == 10);
}

/// Options are read in whatever order they stand, the last of two counts, one without a value takes
/// back what was said, and other arguments are passed over.
pub proof fn options_are_read(
    sofar: ArgsView,
    rest: Seq<Seq<char>>,
    port: Seq<char>,
    scenario: Seq<char>,
    other: Seq<char>,
)
    ensures
        args_from(seq!["--port"@, port] + rest, sofar) == args_from(
            rest,
            ArgsView { port: port_of(port), scenario: sofar.scenario },
        ),
        args_from(seq!["--scenario"@, scenario] + rest, sofar) == args_from(
            rest,
            ArgsView { port: sofar.port, scenario: Some(scenario) },
        ),
        other != "--port"@ && other != "--scenario"@ ==> args_from(seq![other] + rest, sofar)
            == args_from(rest, sofar),
        args_from(seq!["--port"@], sofar) == (ArgsView { port: None, scenario: sofar.scenario }),
        args_from(seq!["--scenario"@], sofar) == (ArgsView { port: sofar.port, scenario: None }),
        args_from(Seq::empty(), sofar) == sofar,
{
    options_differ();
    assert((seq!["--port"@, port] + rest).skip(2) =~= rest);
    assert((seq!["--scenario"@, scenario] + rest).skip(2) =~= rest);
    assert((seq![other] + rest).skip(1) =~= rest);
}

/// The port is that of the command line where it names one, else that of the environment where that
/// names one, else the default.
pub proof fn ports_are_chosen_in_order(arg: u16, env: u16, text: Seq<char>)
    ensures
        chosen_port(Some(arg), Some(text)) == arg,
        chosen_port(Some(arg), None) == arg,
        chosen_port(None, Some(decimal(env as nat))) == env,
        port_of(text) is None ==> chosen_port(None, Some(text)) == 18080,
        chosen_port(None, None) == 18080,
{
    ports_read_back(env as nat, text, 0);
}

/// The keys of chunks and of tool calls are all different.
proof fn chunk_keys_differ()
    ensures
        "id"@ != "object"@,
        "id"@ != "model"@,
        "id"@ != "choices"@,
        "id"@ != "index"@,
        "id"@ != "delta"@,
        "id"@ != "finish_reason"@,
        "id"@ != "type"@,
        "id"@ != "function"@,
        "id"@ != "name"@,
        "id"@ != "arguments"@,
        "object"@ != "model"@,
        "object"@ != "choices"@,
        "object"@ != "index"@,
        "object"@ != "delta"@,
        "object"@ != "finish_reason"@,
        "object"@ != "type"@,
        "object"@ != "function"@,
        "object"@ != "name"@,
        "object"@ != "arguments"@,
        "model"@ != "choices"@,
        "model"@ != "index"@,
        "model"@ != "delta"@,
        "model"@ != "finish_reason"@,
        "model"@ != "type"@,
        "model"@ != "function"@,
        "model"@ != "name"@,
        "model"@ != "arguments"@,
        "choices"@ != "index"@,
        "choices"@ != "delta"@,
        "choices"@ != "finish_reason"@,
        "choices"@ != "type"@,
        "choices"@ != "function"@,
        "choices"@ != "name"@,
        "choices"@ != "arguments"@,
        "index"@ != "delta"@,
        "index"@ != "finish_reason"@,
        "index"@ != "type"@,
        "index"@ != "function"@,
        "index"@ != "name"@,
        "index"@ != "arguments"@,
        "delta"@ != "finish_reason"@,
        "delta"@ != "type"@,
        "delta"@ != "function"@,
        "delta"@ != "name"@,
        "delta"@ != "arguments"@,
        "finish_reason"@ != "type"@,
        "finish_reason"@ != "function"@,
        "finish_reason"@ != "name"@,
        "finish_reason"@ != "arguments"@,
        "type"@ != "function"@,
        "type"@ != "name"@,
        "type"@ != "arguments"@,
        "function"@ != "name"@,
        "function"@ != "arguments"@,
        "name"@ != "arguments"@,
{
    reveal_strlit("id");
    reveal_strlit("object");
    reveal_strlit("model");
    reveal_strlit("choices");
    reveal_strlit("index");
    reveal_strlit("delta");
    reveal_strlit("finish_reason");
    reveal_strlit("type");
    reveal_strlit("function");
    reveal_strlit("name");
    reveal_strlit("arguments");
    assert("id"@.len() == 2);
    assert("object"@.len() == 6);
    assert("model"@.len() == 5);
    assert("choices"@.len() == 7);
    assert("index"@.len() == 5);
    assert("delta"@.len() == 5);
    assert("finish_reason"@.len() == 13);
    assert("type"@.len() == 4);
    assert("function"@.len() == 8);
    assert("name"@.len() == 4);
    assert("arguments"@.len() == 9);
    assert("model"@[0] != "index"@[0]);
    assert("model"@[0] != "delta"@[0]);
    assert("index"@[0] != "delta"@[0]);
    assert("type"@[0] != "name"@[0]);
}

/// The delta of a chunk.
pub open spec fn delta_in(v: JsonView) -> Option<JsonView> {
    match v.get("choices"@) {
        Some(JsonView::List(choices)) => if choices.len() == 1 {
            choices[0].get("delta"@)
        } else {
            None
        },
        _ => None,
    }
}

/// Why a chunk ends the answer, if it does.
pub open spec fn finish_in(v: JsonView) -> Option<JsonView> {
    match v.get("choices"@) {
        Some(JsonView::List(choices)) => if choices.len() == 1 {
            choices[0].get("finish_reason"@)
        } else {
            None
        },
        _ => None,
    }
}

/// A chunk carries its model, its delta, and why it ends the answer where it does.
pub proof fn chunks_carry_their_delta(
    model: Seq<char>,
    delta: JsonView,
    finish: Option<Seq<char>>,
)
    ensures
        ({
            let c = chunk(model, delta, finish);
            &&& says(c, "id"@, "chatcmpl-mock"@)
            &&& says(c, "model"@, model)
            &&& says(c, "object"@, "chat.completion.chunk"@)
            &&& delta_in(c) == Some(delta)
            &&& match finish {
                Some(reason) => finish_in(c) == Some(JsonView::Text(reason)),
                None => finish_in(c) is None,
            }
        }),
{
    chunk_keys_differ();
}

/// Whether data is that of a chunk of a model with a delta, which goes on.
pub open spec fn streams(line: Seq<char>, model: Seq<char>, delta: JsonView) -> bool {
    exists|v: JsonView|
        line == #[trigger] json_text(v) && says(v, "model"@, model) && delta_in(v) == Some(delta)
            && finish_in(v) is None
}

/// Whether data is that of the chunk that ends an answer of a model, for a reason.
pub open spec fn stops(line: Seq<char>, model: Seq<char>, reason: Seq<char>) -> bool {
    exists|v: JsonView|
        line == #[trigger] json_text(v) && says(v, "model"@, model) && finish_in(v) == Some(
            JsonView::Text(reason),
        )
}

proof fn data_streams(model: Seq<char>, delta: JsonView)
    ensures
        streams(data(model, delta), model, delta),
{
    chunks_carry_their_delta(model, delta, None);
    assert(data(model, delta) == json_text(chunk(model, delta, None)));
}

proof fn last_data_stops(model: Seq<char>, reason: Seq<char>)
    ensures
        stops(last_data(model, reason), model, reason),
{
    chunks_carry_their_delta(model, JsonView::object(), Some(reason));
    assert(last_data(model, reason) == json_text(
        chunk(model, JsonView::object(), Some(reason)),
    ));
}

/// Whether data brings text of an answer.
pub open spec fn says_text(line: Seq<char>, model: Seq<char>, text: Seq<char>) -> bool {
    exists|delta: JsonView| #[trigger] streams(line, model, delta) && says(delta, "content"@, text)
}

proof fn content_says(model: Seq<char>, text: Seq<char>)
    ensures
        says_text(data(model, content(text)), model, text),
{
    data_streams(model, content(text));
}

/// An answer that is text brings each part once, in order, and then stops.
pub proof fn text_answers_bring_every_part(model: Seq<char>, parts: Seq<Seq<char>>, i: int)
    ensures
        text_stream(model, parts).len() == parts.len() + 1,
        0 <= i < parts.len() ==> says_text(text_stream(model, parts)[i], model, parts[i]),
        stops(text_stream(model, parts).last(), model, "stop"@),
{
    last_data_stops(model, "stop"@);
    if 0 <= i < parts.len() {
        content_says(model, parts[i]);
        assert(text_stream(model, parts)[i] == data(model, content(parts[i])));
    }
}

/// The call with a given index among the tool calls of a delta.
pub open spec fn call_in(delta: JsonView, index: int) -> JsonView {
    match delta.get("tool_calls"@) {
        Some(JsonView::List(list)) => if exists|i: int|
            0 <= i < list.len() && (#[trigger] list[i]).get("index"@) == Some(
                JsonView::Int(index),
            ) {
            list[choose|i: int|
                0 <= i < list.len() && (#[trigger] list[i]).get("index"@) == Some(
                    JsonView::Int(index),
                )]
        } else {
            JsonView::Null
        },
        _ => JsonView::Null,
    }
}

/// Whether data begins a call of the shell under an index with an id.
pub open spec fn begins_call(line: Seq<char>, model: Seq<char>, index: int, id: Seq<char>) -> bool {
    exists|delta: JsonView|
        {
            &&& #[trigger] streams(line, model, delta)
            &&& says(call_in(delta, index), "id"@, id)
            &&& says(call_in(delta, index), "type"@, "function"@)
            &&& says(call_in(delta, index).get_or_null("function"@), "name"@, "shell"@)
            &&& says(call_in(delta, index).get_or_null("function"@), "arguments"@, ""@)
        }
}

/// Whether data brings more of the arguments of the call under an index.
pub open spec fn adds_arguments(
    line: Seq<char>,
    model: Seq<char>,
    index: int,
    more: Seq<char>,
) -> bool {
    exists|delta: JsonView|
        {
            &&& #[trigger] streams(line, model, delta)
            &&& says(call_in(delta, index).get_or_null("function"@), "arguments"@, more)
        }
}

proof fn one_call(v: JsonView, index: int)
    requires
        v.get("index"@) == Some(JsonView::Int(index)),
    ensures
        call_in(calls(one(v)), index) == v,
{
    let list = seq![v];
    assert(calls(one(v)).get("tool_calls"@) == Some(JsonView::List(list)));
    assert(list[0].get("index"@) == Some(JsonView::Int(index)));
}

proof fn two_calls(v: JsonView, w: JsonView)
    requires
        v.get("index"@) == Some(JsonView::Int(0)),
        w.get("index"@) == Some(JsonView::Int(1)),
    ensures
        call_in(calls(two(v, w)), 0) == v,
        call_in(calls(two(v, w)), 1) == w,
{
    let list = seq![v, w];
    assert(calls(two(v, w)).get("tool_calls"@) == Some(JsonView::List(list)));
    assert(list[0].get("index"@) == Some(JsonView::Int(0)));
    assert(list[1].get("index"@) == Some(JsonView::Int(1)));
}

/// The answer with one tool call brings text, begins the call, brings its arguments in two parts,
/// which together are the whole, and stops for the call.
pub proof fn single_answers_call_the_shell(model: Seq<char>)
    ensures
        ({
            let s = single_stream(model);
            &&& s.len() == 5
            &&& says_text(s[0], model, "Looking up... "@)
            &&& begins_call(s[1], model, 0, "call_1"@)
            &&& exists|a: Seq<char>, b: Seq<char>|
                {
                    &&& #[trigger] adds_arguments(s[2], model, 0, a)
                    &&& #[trigger] adds_arguments(s[3], model, 0, b)
                    &&& a + b == "{\"cmd\":\"ls\"}"@
                }
            &&& stops(s[4], model, "tool_calls"@)
        }),
{
    chunk_keys_differ();
    let s = single_stream(model);
    let a = "{\"cmd\":"@;
    let b = "\"ls\"}"@;
    content_says(model, "Looking up... "@);
    last_data_stops(model, "tool_calls"@);
    one_call(call_begin(0, "call_1"@), 0);
    one_call(call_more(0, a), 0);
    one_call(call_more(0, b), 0);
    data_streams(model, calls(one(call_begin(0, "call_1"@))));
    data_streams(model, calls(one(call_more(0, a))));
    data_streams(model, calls(one(call_more(0, b))));
    assert(begins_call(s[1], model, 0, "call_1"@));
    assert(adds_arguments(s[2], model, 0, a));
    assert(adds_arguments(s[3], model, 0, b));
    reveal_strlit("{\"cmd\":");
    reveal_strlit("\"ls\"}");
    reveal_strlit("{\"cmd\":\"ls\"}");
    assert(a + b =~= "{\"cmd\":\"ls\"}"@);
}

/// The answer with two tool calls brings text, begins both calls at once, brings the arguments of
/// both, and stops for the calls.
pub proof fn parallel_answers_call_the_shell_twice(model: Seq<char>)
    ensures
        ({
            let s = parallel_stream(model);
            &&& s.len() == 4
            &&& says_text(s[0], model, "Parallel ops: "@)
            &&& begins_call(s[1], model, 0, "call_a"@)
            &&& begins_call(s[1], model, 1, "call_b"@)
            &&& adds_arguments(s[2], model, 0, "{\"cmd\":\"pwd\"}"@)
            &&& adds_arguments(s[2], model, 1, "{\"cmd\":\"whoami\"}"@)
            &&& stops(s[3], model, "tool_calls"@)
        }),
{
    chunk_keys_differ();
    let s = parallel_stream(model);
    let (a, b) = (call_begin(0, "call_a"@), call_begin(1, "call_b"@));
    let (c, d) = (
        call_more(0, "{\"cmd\":\"pwd\"}"@),
        call_more(1, "{\"cmd\":\"whoami\"}"@),
    );
    content_says(model, "Parallel ops: "@);
    last_data_stops(model, "tool_calls"@);
    two_calls(a, b);
    two_calls(c, d);
    data_streams(model, calls(two(a, b)));
    data_streams(model, calls(two(c, d)));
}

/// The answer that is to be recovered from brings text, then data that is no chunk, then the rest of
/// the text, and stops.
pub proof fn recovery_answers_are_garbled_once(model: Seq<char>)
    ensures
        ({
            let s = recovery_stream(model);
            &&& s.len() == 4
            &&& says_text(s[0], model, "Working... "@)
            &&& s[1] == "{not-json-at-all"@
            &&& says_text(s[2], model, "recovered."@)
            &&& stops(s[3], model, "stop"@)
        }),
{
    content_says(model, "Working... "@);
    content_says(model, "recovered."@);
    last_data_stops(model, "stop"@);
}

/// A request is answered only where it asks for a stream; the model is the one that it names; and
/// the answer is that of the script that is set, or of a continuation where a message of the
/// conversation is an answer or the result of a tool. The mark of the end comes once, last.
pub proof fn requests_are_answered(
    request: JsonView,
    messages: Seq<JsonView>,
    i: int,
    model: Seq<char>,
    script: Seq<char>,
)
    ensures
        request.get("stream"@) != Some(JsonView::Bool(true)) ==> (completion(request, Some(script))
            matches Err((code, _)) && code == 400),
        request.get("stream"@) == Some(JsonView::Bool(true)) && says(request, "model"@, model)
            && request.get("messages"@) is None ==> completion(request, Some(script)) == Ok::<
            Seq<Seq<char>>,
            (u16, Seq<char>),
        >(stream_of(script, model).push("[DONE]"@)) && completion(request, None) == Ok::<
            Seq<Seq<char>>,
            (u16, Seq<char>),
        >(stream_of("streaming-short"@, model).push("[DONE]"@)),
        request.get("stream"@) == Some(JsonView::Bool(true)) && says(request, "model"@, model)
            && request.get("messages"@) == Some(JsonView::List(messages)) && 0 <= i
            < messages.len() && (says(messages[i], "role"@, "assistant"@) || says(
            messages[i],
            "role"@,
            "tool"@,
        )) ==> completion(request, Some(script)) == Ok::<Seq<Seq<char>>, (u16, Seq<char>)>(
            stream_of("resume-session"@, model).push("[DONE]"@),
        ),
        request.get("stream"@) == Some(JsonView::Bool(true)) && says(request, "model"@, model)
            && request.get("messages"@) == Some(JsonView::List(messages)) && (forall|k: int|
            0 <= k < messages.len() ==> says(#[trigger] messages[k], "role"@, "user"@) || says(
                messages[k],
                "role"@,
                "system"@,
            )) ==> completion(request, Some(script)) == Ok::<Seq<Seq<char>>, (u16, Seq<char>)>(
            stream_of(script, model).push("[DONE]"@),
        ),
{
    roles_differ();
    if 0 <= i < messages.len() && (says(messages[i], "role"@, "assistant"@) || says(
        messages[i],
        "role"@,
        "tool"@,
    )) {
        assert(is_history(messages[i]));
    }
}

/// The roles of messages are all different.
proof fn roles_differ()
    ensures
        "assistant"@ != "tool"@,
        "assistant"@ != "user"@,
        "assistant"@ != "system"@,
        "tool"@ != "user"@,
        "tool"@ != "system"@,
        "user"@ != "system"@,
{
    reveal_strlit("assistant");
    reveal_strlit("tool");
    reveal_strlit("user");
    reveal_strlit("system");
    assert("assistant"@.len() == 9);
    assert("tool"@.len() == 4);
    assert("user"@.len() == 4);
    assert("system"@.len() == 6);
    assert("tool"@[0] != "user"@[0]);
}

/// The names of scripts are all different.
proof fn scripts_differ()
    ensures
        "streaming-short"@ != "streaming-medium"@,
        "streaming-short"@ != "streaming-long"@,
        "streaming-short"@ != "tool-call-single"@,
        "streaming-short"@ != "tool-call-parallel"@,
        "streaming-short"@ != "error-recovery"@,
        "streaming-short"@ != "resume-session"@,
        "streaming-medium"@ != "streaming-long"@,
        "streaming-medium"@ != "tool-call-single"@,
        "streaming-medium"@ != "tool-call-parallel"@,
        "streaming-medium"@ != "error-recovery"@,
        "streaming-medium"@ != "resume-session"@,
        "streaming-long"@ != "tool-call-single"@,
        "streaming-long"@ != "tool-call-parallel"@,
        "streaming-long"@ != "error-recovery"@,
        "streaming-long"@ != "resume-session"@,
        "tool-call-single"@ != "tool-call-parallel"@,
        "tool-call-single"@ != "error-recovery"@,
        "tool-call-single"@ != "resume-session"@,
        "tool-call-parallel"@ != "error-recovery"@,
        "tool-call-parallel"@ != "resume-session"@,
        "error-recovery"@ != "resume-session"@,
{
    reveal_strlit("streaming-short");
    reveal_strlit("streaming-medium");
    reveal_strlit("streaming-long");
    reveal_strlit("tool-call-single");
    reveal_strlit("tool-call-parallel");
    reveal_strlit("error-recovery");
    reveal_strlit("resume-session");
    assert("streaming-short"@.len() == 15);
    assert("streaming-medium"@.len() == 16);
    assert("streaming-long"@.len() == 14);
    assert("tool-call-single"@.len() == 16);
    assert("tool-call-parallel"@.len() == 18);
    assert("error-recovery"@.len() == 14);
    assert("resume-session"@.len() == 14);
    assert("streaming-medium"@[0] != "tool-call-single"@[0]);
    assert("streaming-long"@[0] != "error-recovery"@[0]);
    assert("streaming-long"@[0] != "resume-session"@[0]);
    assert("error-recovery"@[0] != "resume-session"@[0]);
}

/// Each script has its own stream: the texts of the three that only stream, numbered where they are
/// long; the tool calls; the recovery; and the continuation.
pub proof fn scripts_have_their_streams(model: Seq<char>, i: int)
    ensures
        stream_of("streaming-short"@, model) == text_stream(
            model,
            seq!["Hello "@, "world"@, "!"@],
        ),
        stream_of("resume-session"@, model) == text_stream(model, seq!["Hello "@, "again"@, "!"@]),
        stream_of("streaming-medium"@, model).len() == 41,
        0 <= i < 40 ==> says_text(
            stream_of("streaming-medium"@, model)[i],
            model,
            "word"@ + decimal(i as nat) + " "@,
        ),
        stream_of("streaming-long"@, model).len() == 301,
        0 <= i < 300 ==> says_text(
            stream_of("streaming-long"@, model)[i],
            model,
            "token"@ + decimal(i as nat) + " "@,
        ),
        stream_of("tool-call-single"@, model) == single_stream(model),
        stream_of("tool-call-parallel"@, model) == parallel_stream(model),
        stream_of("error-recovery"@, model) == recovery_stream(model),
{
    scripts_differ();
    text_answers_bring_every_part(model, numbered("word"@, 40), i);
    text_answers_bring_every_part(model, numbered("token"@, 300), i);
}

/// The server offers two models, each listed as one.
pub proof fn models_are_listed()
    ensures
        says(models(), "object"@, "list"@),
        models().get("data"@) matches Some(JsonView::List(list)) && list.len() == 2 && says(
            list[0],
            "id"@,
            "gpt-5"@,
        ) && says(list[1], "id"@, "gpt-5-mini"@) && says(list[0], "object"@, "model"@) && says(
            list[1],
            "object"@,
            "model"@,
        ),
{
    chunk_keys_differ();
    reveal_strlit("data");
    reveal_strlit("object");
    assert("data"@.len() == 4 && "object"@.len() == 6);
}

} // verus!
