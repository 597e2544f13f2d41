//! How a plugin is launched so that it meets the mocks in place of the real tools.

use crate::mock::{tool_name, variable, Tool};
use crate::suite::concat3;
use crate::text::{decimal, opt_text, u64_to_string};
use crate::views::group_views;
use vstd::prelude::*;

verus! {

broadcast use group_views;

/// How often a server is dialled before it is taken for ready.
pub const PORT_ATTEMPTS: u32 = 40;

/// The milliseconds between two such attempts.
pub const PORT_PAUSE_MS: u64 = 25;

/// The milliseconds that a plugin is given to end by itself.
pub const SHUTDOWN_GRACE_MS: u64 = 750;

/// Where the mocks were found, if they were.
#[derive(Debug, PartialEq, Eq)]
pub struct Mocks {
    pub claude: Option<String>,
    pub codex: Option<String>,
    pub gemini: Option<String>,
    pub opencode: Option<String>,
}

#[verifier::ext_equal]
pub struct MocksView {
    pub claude: Option<Seq<char>>,
    pub codex: Option<Seq<char>>,
    pub gemini: Option<Seq<char>>,
    pub opencode: Option<Seq<char>>,
}

impl View for Mocks {
    type V = MocksView;

    open spec fn view(&self) -> MocksView {
        MocksView {
            claude: opt_text(self.claude),
            codex: opt_text(self.codex),
            gemini: opt_text(self.gemini),
            opencode: opt_text(self.opencode),
        }
    }
}

/// Pairs of texts.
pub open spec fn pairs(list: Seq<(String, String)>) -> Seq<(Seq<char>, Seq<char>)> {
    list.map_values(|p: (String, String)| (p.0@, p.1@))
}

proof fn pairs_push(list: Seq<(String, String)>, p: (String, String))
    ensures
        pairs(list.push(p)) == pairs(list).push((p.0@, p.1@)),
{
    assert(pairs(list.push(p)) =~= pairs(list).push((p.0@, p.1@)));
}

/// Where the mock of a tool with a given name may be, the better place first.
pub fn mock_candidates(root: &str, name: &str) -> (r: (String, String))
    ensures
        r.0@ == root@ + "/target/release/mock-"@ + name@,
        r.1@ == root@ + "/target/debug/mock-"@ + name@,
{
    (concat3(root, "/target/release/mock-", name), concat3(root, "/target/debug/mock-", name))
}

/// The first of two places where there is something.
pub fn first_existing(candidates: (String, String), first: bool, second: bool) -> (r: Option<
    String,
>)
    ensures
        opt_text(r) == if first {
            Some(candidates.0@)
        } else if second {
            Some(candidates.1@)
        } else {
            None
        },
{
    if first {
        Some(candidates.0)
    } else if second {
        Some(candidates.1)
    } else {
        None
    }
}

/// A list with one more pair, where there is a second text.
pub open spec fn with_pair(
    list: Seq<(Seq<char>, Seq<char>)>,
    a: Seq<char>,
    b: Option<Seq<char>>,
) -> Seq<(Seq<char>, Seq<char>)> {
    match b {
        Some(v) => list.push((a, v)),
        None => list,
    }
}

fn add_pair(list: &mut Vec<(String, String)>, a: &str, b: &Option<String>)
    ensures
        pairs(final(list)@) == with_pair(pairs(old(list)@), a@, opt_text(*b)),
{
    if let Some(v) = b {
        let pair = (a.to_owned(), v.clone());
        proof {
            pairs_push(list@, pair);
        }
        list.push(pair);
    }
}

/// The address of the mocked server.
pub open spec fn base_url(port: int) -> Seq<char> {
    "http://127.0.0.1:"@ + decimal(port as nat) + "/v1"@
}

/// The variables that a plugin is given: the script of the mocks, where each of them is, that it
/// runs under the testkit, and, where the mocked server runs, a key and its address.
pub open spec fn plugin_env(
    script: Option<Seq<char>>,
    mocks: MocksView,
    server: Option<u16>,
) -> Seq<(Seq<char>, Seq<char>)> {
    let a = with_pair(Seq::empty(), "MOCK_SCENARIO"@, script);
    let b = with_pair(a, variable(Tool::Claude), mocks.claude);
    let c = with_pair(b, variable(Tool::Codex), mocks.codex);
    let d = with_pair(c, variable(Tool::Gemini), mocks.gemini);
    let e = with_pair(d, variable(Tool::Opencode), mocks.opencode);
    let f = e.push(("ANIMUS_TESTKIT"@, "1"@));
    match server {
        None => f,
        Some(port) => f.push(("OPENAI_API_KEY"@, "mock-oai-test-key"@)).push(
            ("OPENAI_BASE_URL"@, base_url(port as int)),
        ),
    }
}

/// Lists the variables that a plugin is given.
pub fn plugin_environment(script: &Option<String>, mocks: &Mocks, server: Option<u16>) -> (r: Vec<
    (String, String),
>)
    ensures
        pairs(r@) == plugin_env(opt_text(*script), mocks@, server),
{
    let mut list: Vec<(String, String)> = Vec::new();
    assert(pairs(list@) =~= Seq::<(Seq<char>, Seq<char>)>::empty());
    add_pair(&mut list, "MOCK_SCENARIO", script);
    add_pair(&mut list, Tool::Claude.variable(), &mocks.claude);
    add_pair(&mut list, Tool::Codex.variable(), &mocks.codex);
    add_pair(&mut list, Tool::Gemini.variable(), &mocks.gemini);
    add_pair(&mut list, Tool::Opencode.variable(), &mocks.opencode);
    add_pair(&mut list, "ANIMUS_TESTKIT", &Some("1".to_owned()));
    if let Some(port) = server {
        add_pair(&mut list, "OPENAI_API_KEY", &Some("mock-oai-test-key".to_owned()));
        let url = concat3("http://127.0.0.1:", u64_to_string(port as u64).as_str(), "/v1");
        add_pair(&mut list, "OPENAI_BASE_URL", &Some(url));
    }
    list
}

/// The variables that the mocked server is given: its port, and the script that it plays.
pub open spec fn server_env(port: int, script: Option<Seq<char>>) -> Seq<(Seq<char>, Seq<char>)> {
    with_pair(seq![("MOCK_OAI_PORT"@, decimal(port as nat))], "MOCK_SCENARIO"@, script)
}

/// Lists the variables that the mocked server is given.
pub fn server_environment(port: u16, script: &Option<String>) -> (r: Vec<(String, String)>)
    ensures
        pairs(r@) == server_env(port as int, opt_text(*script)),
{
    let mut list: Vec<(String, String)> = Vec::new();
    add_pair(&mut list, "MOCK_OAI_PORT", &Some(u64_to_string(port as u64)));
    assert(pairs(list@) =~= seq![("MOCK_OAI_PORT"@, decimal(port as nat))]);
    add_pair(&mut list, "MOCK_SCENARIO", script);
    list
}

/// The variable that tells a plugin where its log file is.
pub const LOG_FILE_VARIABLE: &'static str = "ANIMUS_LOG_FILE_PATH";

/// Lists the variables that a backend plugin is given: where its log file is, if it is to have one.
pub fn backend_environment<T>(log_file: Option<T>) -> (r: Vec<(&'static str, T)>)
    ensures
        r@ == (match log_file {
            Some(path) => seq![(LOG_FILE_VARIABLE, path)],
            None => Seq::empty(),
        }),
{
    let mut list: Vec<(&'static str, T)> = Vec::new();
    if let Some(path) = log_file {
        list.push((LOG_FILE_VARIABLE, path));
    }
    list
}

/// The copies that stand in for the real tools on the search path: the name of each tool with the
/// mock that is to be found under it.
pub open spec fn shim_pairs(mocks: MocksView) -> Seq<(Seq<char>, Seq<char>)> {
    let a = with_pair(Seq::empty(), tool_name(Tool::Claude), mocks.claude);
    let b = with_pair(a, tool_name(Tool::Codex), mocks.codex);
    let c = with_pair(b, tool_name(Tool::Gemini), mocks.gemini);
    with_pair(c, tool_name(Tool::Opencode), mocks.opencode)
}

/// Lists the copies that stand in for the real tools.
pub fn shims(mocks: &Mocks) -> (r: Vec<(String, String)>)
    ensures
        pairs(r@) == shim_pairs(mocks@),
{
    let mut list: Vec<(String, String)> = Vec::new();
    assert(pairs(list@) =~= Seq::<(Seq<char>, Seq<char>)>::empty());
    add_pair(&mut list, Tool::Claude.name().as_str(), &mocks.claude);
    add_pair(&mut list, Tool::Codex.name().as_str(), &mocks.codex);
    add_pair(&mut list, Tool::Gemini.name().as_str(), &mocks.gemini);
    add_pair(&mut list, Tool::Opencode.name().as_str(), &mocks.opencode);
    list
}

/// The search path of a plugin: the directory of the copies, where there is one, before every
/// directory of the present path, so that the copies are found first.
pub fn search_path<T>(shim: Option<T>, existing: Vec<T>) -> (r: Vec<T>)
    ensures
        r@ == (match shim {
            Some(dir) => seq![dir],
            None => Seq::empty(),
        }) + existing@,
{
    let mut path: Vec<T> = Vec::new();
    if let Some(dir) = shim {
        path.push(dir);
    }
    let mut rest = existing;
    path.append(&mut rest);
    path
}

/// Every plugin is told that it runs under the testkit, and, where the mocked server runs, is given
/// its address.
pub proof fn plugins_know_the_testkit(
    script: Option<Seq<char>>,
    mocks: MocksView,
    server: Option<u16>,
)
    ensures
        plugin_env(script, mocks, server).contains(("ANIMUS_TESTKIT"@, "1"@)),
        server matches Some(port) ==> plugin_env(script, mocks, server).contains(
            ("OPENAI_BASE_URL"@, base_url(port as int)),
        ),
{
    let a = with_pair(Seq::empty(), "MOCK_SCENARIO"@, script);
    let b = with_pair(a, variable(Tool::Claude), mocks.claude);
    let c = with_pair(b, variable(Tool::Codex), mocks.codex);
    let d = with_pair(c, variable(Tool::Gemini), mocks.gemini);
    let e = with_pair(d, variable(Tool::Opencode), mocks.opencode);
    let all = plugin_env(script, mocks, server);
    assert(all[e.len() as int] == ("ANIMUS_TESTKIT"@, "1"@));
    if let Some(port) = server {
        assert(all[e.len() as int + 2] == ("OPENAI_BASE_URL"@, base_url(port as int)));
    }
}

/// A list keeps what it holds when a pair is added, and holds that pair.
proof fn with_pair_holds(list: Seq<(Seq<char>, Seq<char>)>, a: Seq<char>, b: Option<Seq<char>>)
    ensures
        forall|p: (Seq<char>, Seq<char>)|
            list.contains(p) ==> #[trigger] with_pair(list, a, b).contains(p),
        b matches Some(v) ==> with_pair(list, a, b).contains((a, v)),
{
    let longer = with_pair(list, a, b);
    assert forall|p: (Seq<char>, Seq<char>)| list.contains(p) implies #[trigger] longer.contains(
        p,
    ) by {
        let i = choose|i: int| 0 <= i < list.len() && list[i] == p;
        assert(longer[i] == p);
    }
    if let Some(v) = b {
        assert(longer[list.len() as int] == (a, v));
    }
}

/// A plugin is given the script that the mocks play and the place of every mock that was found, so
/// that it meets them in place of the real tools.
pub proof fn mocks_are_injected(script: Option<Seq<char>>, mocks: MocksView, server: Option<u16>)
    ensures
        ({
            let env = plugin_env(script, mocks, server);
            &&& script matches Some(v) ==> env.contains(("MOCK_SCENARIO"@, v))
            &&& mocks.claude matches Some(v) ==> env.contains((variable(Tool::Claude), v))
            &&& mocks.codex matches Some(v) ==> env.contains((variable(Tool::Codex), v))
            &&& mocks.gemini matches Some(v) ==> env.contains((variable(Tool::Gemini), v))
            &&& mocks.opencode matches Some(v) ==> env.contains((variable(Tool::Opencode), v))
        }),
{
    let a = with_pair(Seq::empty(), "MOCK_SCENARIO"@, script);
    let b = with_pair(a, variable(Tool::Claude), mocks.claude);
    let c = with_pair(b, variable(Tool::Codex), mocks.codex);
    let d = with_pair(c, variable(Tool::Gemini), mocks.gemini);
    let e = with_pair(d, variable(Tool::Opencode), mocks.opencode);
    let f = with_pair(e, "ANIMUS_TESTKIT"@, Some("1"@));
    let g = with_pair(f, "OPENAI_API_KEY"@, Some("mock-oai-test-key"@));
    with_pair_holds(Seq::empty(), "MOCK_SCENARIO"@, script);
    with_pair_holds(a, variable(Tool::Claude), mocks.claude);
    with_pair_holds(b, variable(Tool::Codex), mocks.codex);
    with_pair_holds(c, variable(Tool::Gemini), mocks.gemini);
    with_pair_holds(d, variable(Tool::Opencode), mocks.opencode);
    with_pair_holds(e, "ANIMUS_TESTKIT"@, Some("1"@));
    with_pair_holds(f, "OPENAI_API_KEY"@, Some("mock-oai-test-key"@));
    if let Some(port) = server {
        with_pair_holds(g, "OPENAI_BASE_URL"@, Some(base_url(port as int)));
        assert(plugin_env(script, mocks, server) == with_pair(
            g,
            "OPENAI_BASE_URL"@,
            Some(base_url(port as int)),
        ));
    }
}

/// The variables of a plugin are all different.
proof fn variables_differ()
    ensures
        "MOCK_SCENARIO"@ != "CLAUDE_BIN"@,
        "MOCK_SCENARIO"@ != "CODEX_BIN"@,
        "MOCK_SCENARIO"@ != "GEMINI_BIN"@,
        "MOCK_SCENARIO"@ != "OPENCODE_BIN"@,
        "MOCK_SCENARIO"@ != "ANIMUS_TESTKIT"@,
        "MOCK_SCENARIO"@ != "OPENAI_API_KEY"@,
        "MOCK_SCENARIO"@ != "OPENAI_BASE_URL"@,
        "CLAUDE_BIN"@ != "CODEX_BIN"@,
        "CLAUDE_BIN"@ != "GEMINI_BIN"@,
        "CLAUDE_BIN"@ != "OPENCODE_BIN"@,
        "CLAUDE_BIN"@ != "ANIMUS_TESTKIT"@,
        "CLAUDE_BIN"@ != "OPENAI_API_KEY"@,
        "CLAUDE_BIN"@ != "OPENAI_BASE_URL"@,
        "CODEX_BIN"@ != "GEMINI_BIN"@,
        "CODEX_BIN"@ != "OPENCODE_BIN"@,
        "CODEX_BIN"@ != "ANIMUS_TESTKIT"@,
        "CODEX_BIN"@ != "OPENAI_API_KEY"@,
        "CODEX_BIN"@ != "OPENAI_BASE_URL"@,
        "GEMINI_BIN"@ != "OPENCODE_BIN"@,
        "GEMINI_BIN"@ != "ANIMUS_TESTKIT"@,
        "GEMINI_BIN"@ != "OPENAI_API_KEY"@,
        "GEMINI_BIN"@ != "OPENAI_BASE_URL"@,
        "OPENCODE_BIN"@ != "ANIMUS_TESTKIT"@,
        "OPENCODE_BIN"@ != "OPENAI_API_KEY"@,
        "OPENCODE_BIN"@ != "OPENAI_BASE_URL"@,
        "ANIMUS_TESTKIT"@ != "OPENAI_API_KEY"@,
        "ANIMUS_TESTKIT"@ != "OPENAI_BASE_URL"@,
        "OPENAI_API_KEY"@ != "OPENAI_BASE_URL"@,
{
    reveal_strlit("MOCK_SCENARIO");
    reveal_strlit("CLAUDE_BIN");
    reveal_strlit("CODEX_BIN");
    reveal_strlit("GEMINI_BIN");
    reveal_strlit("OPENCODE_BIN");
    reveal_strlit("ANIMUS_TESTKIT");
    reveal_strlit("OPENAI_API_KEY");
    reveal_strlit("OPENAI_BASE_URL");
    assert("MOCK_SCENARIO"@.len() == 13);
    assert("CLAUDE_BIN"@.len() == 10);
    assert("CODEX_BIN"@.len() == 9);
    assert("GEMINI_BIN"@.len() == 10);
    assert("OPENCODE_BIN"@.len() == 12);
    assert("ANIMUS_TESTKIT"@.len() == 14);
    assert("OPENAI_API_KEY"@.len() == 14);
    assert("OPENAI_BASE_URL"@.len() == 15);
    assert("CLAUDE_BIN"@[0] != "GEMINI_BIN"@[0]);
    assert("ANIMUS_TESTKIT"@[0] != "OPENAI_API_KEY"@[0]);
}

proof fn with_pair_adds(
    list: Seq<(Seq<char>, Seq<char>)>,
    a: Seq<char>,
    b: Option<Seq<char>>,
    p: (Seq<char>, Seq<char>),
)
    ensures
        with_pair(list, a, b).contains(p) == (list.contains(p) || b == Some(p.1) && a == p.0),
{
    let longer = with_pair(list, a, b);
    with_pair_holds(list, a, b);
    if longer.contains(p) {
        let i = choose|i: int| 0 <= i < longer.len() && longer[i] == p;
        if i < list.len() {
            assert(list[i] == p);
        }
    }
}

/// A plugin is given nothing that was not found: a variable of its environment has the value that
/// was asked for, and where there was none to give, the variable is not set.
pub proof fn plugins_are_given_nothing_else(
    script: Option<Seq<char>>,
    mocks: MocksView,
    server: Option<u16>,
    value: Seq<char>,
)
    ensures
        ({
            let env = plugin_env(script, mocks, server);
            &&& env.contains(("MOCK_SCENARIO"@, value)) == (script == Some(value))
            &&& env.contains(("CLAUDE_BIN"@, value)) == (mocks.claude == Some(value))
            &&& env.contains(("CODEX_BIN"@, value)) == (mocks.codex == Some(value))
            &&& env.contains(("GEMINI_BIN"@, value)) == (mocks.gemini == Some(value))
            &&& env.contains(("OPENCODE_BIN"@, value)) == (mocks.opencode == Some(value))
            &&& env.contains(("ANIMUS_TESTKIT"@, value)) == (value == "1"@)
            &&& env.contains(("OPENAI_API_KEY"@, value)) == (server is Some && value
                == "mock-oai-test-key"@)
            &&& env.contains(("OPENAI_BASE_URL"@, value)) == (server matches Some(port) && value
                == "http://127.0.0.1:"@ + decimal(port as nat) + "/v1"@)
        }),
{
    variables_differ();
    let none = Seq::<(Seq<char>, Seq<char>)>::empty();
    let a = with_pair(none, "MOCK_SCENARIO"@, script);
    let b = with_pair(a, variable(Tool::Claude), mocks.claude);
    let c = with_pair(b, variable(Tool::Codex), mocks.codex);
    let d = with_pair(c, variable(Tool::Gemini), mocks.gemini);
    let e = with_pair(d, variable(Tool::Opencode), mocks.opencode);
    let f = with_pair(e, "ANIMUS_TESTKIT"@, Some("1"@));
    let g = with_pair(f, "OPENAI_API_KEY"@, Some("mock-oai-test-key"@));
    assert forall|p: (Seq<char>, Seq<char>)| #[trigger]
        plugin_env(script, mocks, server).contains(p) == {
            ||| p.0 == "MOCK_SCENARIO"@ && script == Some(p.1)
            ||| p.0 == variable(Tool::Claude) && mocks.claude == Some(p.1)
            ||| p.0 == variable(Tool::Codex) && mocks.codex == Some(p.1)
            ||| p.0 == variable(Tool::Gemini) && mocks.gemini == Some(p.1)
            ||| p.0 == variable(Tool::Opencode) && mocks.opencode == Some(p.1)
            ||| p.0 == "ANIMUS_TESTKIT"@ && p.1 == "1"@
            ||| server is Some && p.0 == "OPENAI_API_KEY"@ && p.1 == "mock-oai-test-key"@
            ||| server is Some && p.0 == "OPENAI_BASE_URL"@ && p.1 == base_url(server->0 as int)
        } by {
        with_pair_adds(none, "MOCK_SCENARIO"@, script, p);
        with_pair_adds(a, variable(Tool::Claude), mocks.claude, p);
        with_pair_adds(b, variable(Tool::Codex), mocks.codex, p);
        with_pair_adds(c, variable(Tool::Gemini), mocks.gemini, p);
        with_pair_adds(d, variable(Tool::Opencode), mocks.opencode, p);
        with_pair_adds(e, "ANIMUS_TESTKIT"@, Some("1"@), p);
        with_pair_adds(f, "OPENAI_API_KEY"@, Some("mock-oai-test-key"@), p);
        if let Some(port) = server {
            with_pair_adds(g, "OPENAI_BASE_URL"@, Some(base_url(port as int)), p);
        }
    }
}

/// The mocked server is told its port, and the script where there is one, and nothing else.
pub proof fn servers_are_given_port_and_script(
    port: int,
    script: Option<Seq<char>>,
    name: Seq<char>,
    value: Seq<char>,
)
    ensures
        server_env(port, script).contains((name, value)) == {
            ||| name == "MOCK_OAI_PORT"@ && value == decimal(port as nat)
            ||| name == "MOCK_SCENARIO"@ && script == Some(value)
        },
{
    let first = seq![("MOCK_OAI_PORT"@, decimal(port as nat))];
    with_pair_adds(first, "MOCK_SCENARIO"@, script, (name, value));
    assert(first[0] == ("MOCK_OAI_PORT"@, decimal(port as nat)));
    assert(first.contains(("MOCK_OAI_PORT"@, decimal(port as nat))));
}

/// Each tool whose mock was found is stood in for by that mock under the tool's own name, and no
/// other is.
pub proof fn mocks_stand_in_for_their_tools(mocks: MocksView, name: Seq<char>, mock: Seq<char>)
    ensures
        shim_pairs(mocks).contains((name, mock)) == {
            ||| name == tool_name(Tool::Claude) && mocks.claude == Some(mock)
            ||| name == tool_name(Tool::Codex) && mocks.codex == Some(mock)
            ||| name == tool_name(Tool::Gemini) && mocks.gemini == Some(mock)
            ||| name == tool_name(Tool::Opencode) && mocks.opencode == Some(mock)
        },
{
    let none = Seq::<(Seq<char>, Seq<char>)>::empty();
    let a = with_pair(none, tool_name(Tool::Claude), mocks.claude);
    let b = with_pair(a, tool_name(Tool::Codex), mocks.codex);
    let c = with_pair(b, tool_name(Tool::Gemini), mocks.gemini);
    with_pair_adds(none, tool_name(Tool::Claude), mocks.claude, (name, mock));
    with_pair_adds(a, tool_name(Tool::Codex), mocks.codex, (name, mock));
    with_pair_adds(b, tool_name(Tool::Gemini), mocks.gemini, (name, mock));
    with_pair_adds(c, tool_name(Tool::Opencode), mocks.opencode, (name, mock));
}

} // verus!
