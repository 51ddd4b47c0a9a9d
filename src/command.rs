//! Translation of a query configuration into a concrete command line.

use vstd::prelude::*;
use crate::config::QueryConfig;
use crate::engine::{Engine, opt_text};
use crate::text::{ends_with_text, is_suffix, join3, texts};

verus! {

/// Messages of at least this many characters are withheld from the argument
/// vector of the primary engine and written to standard input instead.
pub const STDIN_THRESHOLD: usize = 6000;

/// An executable reference: the program to start and the arguments that
/// precede the engine's own (an interpreter's script, for instance).
#[derive(Clone, Debug)]
pub struct BinaryRef {
    pub program: String,
    pub pre_args: Vec<String>,
}

/// Everything needed to start a query's process.
#[derive(Clone, Debug)]
pub struct LaunchPlan {
    pub program: String,
    pub args: Vec<String>,
    /// The message to write to standard input before closing it; `None`
    /// means standard input is closed from the start.
    pub stdin_message: Option<String>,
    pub cwd: Option<String>,
    /// Environment variables removed from the child's environment.
    pub env_remove: Vec<String>,
}

/// The character of a decimal digit.
pub open spec fn digit_char(d: nat) -> char {
    if d == 0 { '0' }
    else if d == 1 { '1' }
    else if d == 2 { '2' }
    else if d == 3 { '3' }
    else if d == 4 { '4' }
    else if d == 5 { '5' }
    else if d == 6 { '6' }
    else if d == 7 { '7' }
    else if d == 8 { '8' }
    else { '9' }
}

/// Decimal notation of a natural number, without sign or leading zeros.
pub open spec fn decimal(n: nat) -> Seq<char>
    decreases n,
{
    if n < 10 {
        seq![digit_char(n)]
    } else {
        decimal(n / 10).push(digit_char(n % 10))
    }
}

/// A flag followed by its value, when there is a value.
pub open spec fn opt_pair(flag: Seq<char>, v: Option<Seq<char>>) -> Seq<Seq<char>> {
    match v {
        Some(x) => seq![flag, x],
        None => seq![],
    }
}

/// A lone flag, when it is switched on.
pub open spec fn opt_flag(flag: Seq<char>, on: bool) -> Seq<Seq<char>> {
    if on { seq![flag] } else { seq![] }
}

/// The resume flag with the prior session, only when resuming was asked for.
pub open spec fn resume_pair(flag: Seq<char>, c: QueryConfig) -> Seq<Seq<char>> {
    if c.resume { opt_pair(flag, opt_text(c.session_id)) } else { seq![] }
}

/// Whether the primary engine receives the message over standard input.
pub open spec fn message_piped(c: QueryConfig) -> bool {
    c.message@.len() >= STDIN_THRESHOLD
}

/// The primary engine's flags, everything but the message.
pub open spec fn primary_flags(c: QueryConfig) -> Seq<Seq<char>> {
    seq!["-p"@, "--verbose"@, "--output-format"@, "stream-json"@]
        + opt_pair("--model"@, opt_text(c.model))
        + opt_pair("--mcp-config"@, opt_text(c.mcp_config))
        + opt_pair("--system-prompt"@, opt_text(c.system_prompt))
        + opt_pair("--max-turns"@, match c.max_turns {
            Some(t) => Some(decimal(t as nat)),
            None => None,
        })
        + opt_pair("--tools"@, opt_text(c.tools))
        + opt_flag("--strict-mcp-config"@, c.strict_mcp)
        + opt_pair("--permission-mode"@, opt_text(c.permission_mode))
        + resume_pair("-r"@, c)
}

/// The primary engine's arguments: its flags, then the message unless it
/// goes over standard input.
pub open spec fn primary_args(c: QueryConfig) -> Seq<Seq<char>> {
    primary_flags(c) + (if message_piped(c) { seq![] } else { seq![c.message@] })
}

/// The prompt handed to the secondary engine: the message, preceded by the
/// system instructions in a bracketed block when there are any.
pub open spec fn secondary_prompt(c: QueryConfig) -> Seq<char> {
    match c.system_prompt {
        Some(sp) => "[System Instructions]\n"@ + sp@ + "\n\n[User Message]\n"@ + c.message@,
        None => c.message@,
    }
}

/// The secondary engine's arguments.
pub open spec fn secondary_args(c: QueryConfig) -> Seq<Seq<char>> {
    seq!["--prompt"@, secondary_prompt(c), "--output-format"@, "stream-json"@, "--yolo"@]
        + opt_pair("--model"@, opt_text(c.model))
        + resume_pair("--resume"@, c)
}

/// The engine's own arguments.
pub open spec fn engine_args(c: QueryConfig, e: Engine) -> Seq<Seq<char>> {
    match e {
        Engine::Primary => primary_args(c),
        Engine::Secondary => secondary_args(c),
    }
}

/// Whether an executable is a command-script wrapper that must be started
/// through the command interpreter.
pub open spec fn is_script_wrapper(b: BinaryRef) -> bool {
    is_suffix(".cmd"@, b.program@)
}

/// The program actually started for an executable reference.
pub open spec fn launch_program(b: BinaryRef) -> Seq<char> {
    if is_script_wrapper(b) { "cmd.exe"@ } else { b.program@ }
}

/// The arguments that come before the engine's own.
pub open spec fn launch_prefix(b: BinaryRef) -> Seq<Seq<char>> {
    if is_script_wrapper(b) {
        seq!["/c"@, b.program@] + texts(b.pre_args@)
    } else {
        texts(b.pre_args@)
    }
}

/// The full argument vector of a query.
pub open spec fn plan_args(c: QueryConfig, e: Engine, b: BinaryRef) -> Seq<Seq<char>> {
    launch_prefix(b) + engine_args(c, e)
}

/// The message written to standard input, if any.
pub open spec fn plan_stdin(c: QueryConfig, e: Engine) -> Option<Seq<char>> {
    if e == Engine::Primary && message_piped(c) { Some(c.message@) } else { None }
}

fn push_text(v: &mut Vec<String>, s: &str)
    ensures
        texts(final(v)@) == texts(old(v)@).push(s@),
{
    v.push(String::from_str(s));
    assert(texts(v@) =~= texts(old(v)@).push(s@));
}

fn push_opt_pair(v: &mut Vec<String>, flag: &str, val: &Option<String>)
    ensures
        texts(final(v)@) == texts(old(v)@) + opt_pair(flag@, opt_text(*val)),
{
    match val {
        Some(x) => {
            push_text(v, flag);
            push_text(v, x.as_str());
            assert(texts(v@) =~= texts(old(v)@) + opt_pair(flag@, opt_text(*val)));
        },
        None => {
            assert(texts(v@) =~= texts(old(v)@) + opt_pair(flag@, opt_text(*val)));
        },
    }
}

pub(crate) fn push_all(v: &mut Vec<String>, more: &Vec<String>)
    ensures
        texts(final(v)@) == texts(old(v)@) + texts(more@),
{
    let mut i: usize = 0;
    while i < more.len()
        invariant
            i <= more@.len(),
            texts(v@) == texts(old(v)@) + texts(more@.subrange(0, i as int)),
        decreases more@.len() - i,
    {
        push_text(v, more[i].as_str());
        assert(more@.subrange(0, i + 1) =~= more@.subrange(0, i as int).push(more@[i as int]));
        assert(texts(more@.subrange(0, i + 1)) =~= texts(more@.subrange(0, i as int)).push(
            more@[i as int]@,
        ));
        assert(texts(v@) =~= texts(old(v)@) + texts(more@.subrange(0, i + 1)));
        i += 1;
    }
    assert(more@.subrange(0, i as int) =~= more@);
}

fn digit_text(d: u32) -> (r: &'static str)
    requires
        d < 10,
    ensures
        r@ == seq![digit_char(d as nat)],
{
    proof {
        reveal_strlit("0");
        reveal_strlit("1");
        reveal_strlit("2");
        reveal_strlit("3");
        reveal_strlit("4");
        reveal_strlit("5");
        reveal_strlit("6");
        reveal_strlit("7");
        reveal_strlit("8");
        reveal_strlit("9");
    }
    let r = if d == 0 { "0" }
    else if d == 1 { "1" }
    else if d == 2 { "2" }
    else if d == 3 { "3" }
    else if d == 4 { "4" }
    else if d == 5 { "5" }
    else if d == 6 { "6" }
    else if d == 7 { "7" }
    else if d == 8 { "8" }
    else { "9" };
    assert(r@ =~= seq![digit_char(d as nat)]);
    r
}

/// Decimal notation of a number.
pub fn decimal_text(n: u32) -> (r: String)
    ensures
        r@ == decimal(n as nat),
    decreases n,
{
    if n < 10 {
        String::from_str(digit_text(n))
    } else {
        let mut s = decimal_text(n / 10);
        s.append(digit_text(n % 10));
        assert(s@ =~= decimal(n as nat));
        s
    }
}

/// The secondary engine's prompt text.
pub fn compose_secondary_prompt(c: &QueryConfig) -> (r: String)
    ensures
        r@ == secondary_prompt(*c),
{
    match &c.system_prompt {
        Some(sp) => {
            let head = join3("[System Instructions]\n", sp.as_str(), "\n\n[User Message]\n");
            let mut r = head;
            r.append(c.message.as_str());
            r
        },
        None => c.message.clone(),
    }
}

/// The primary engine's argument vector.
pub fn build_primary_args(c: &QueryConfig) -> (r: Vec<String>)
    ensures
        texts(r@) == primary_args(*c),
{
    let mut v: Vec<String> = Vec::new();
    push_text(&mut v, "-p");
    push_text(&mut v, "--verbose");
    push_text(&mut v, "--output-format");
    push_text(&mut v, "stream-json");
    assert(texts(v@) =~= seq!["-p"@, "--verbose"@, "--output-format"@, "stream-json"@]);
    push_opt_pair(&mut v, "--model", &c.model);
    push_opt_pair(&mut v, "--mcp-config", &c.mcp_config);
    push_opt_pair(&mut v, "--system-prompt", &c.system_prompt);
    let turns: Option<String> = match c.max_turns {
        Some(t) => Some(decimal_text(t)),
        None => None,
    };
    push_opt_pair(&mut v, "--max-turns", &turns);
    push_opt_pair(&mut v, "--tools", &c.tools);
    let ghost before_strict = texts(v@);
    if c.strict_mcp {
        push_text(&mut v, "--strict-mcp-config");
    }
    assert(texts(v@) =~= before_strict + opt_flag("--strict-mcp-config"@, c.strict_mcp));
    push_opt_pair(&mut v, "--permission-mode", &c.permission_mode);
    let ghost before_resume = texts(v@);
    if c.resume {
        push_opt_pair(&mut v, "-r", &c.session_id);
    }
    assert(texts(v@) =~= before_resume + resume_pair("-r"@, *c));
    assert(texts(v@) == primary_flags(*c));
    let ghost before_message = texts(v@);
    if c.message.as_str().unicode_len() < STDIN_THRESHOLD {
        push_text(&mut v, c.message.as_str());
    }
    assert(texts(v@) =~= before_message + (if message_piped(*c) {
        seq![]
    } else {
        seq![c.message@]
    }));
    v
}

/// The secondary engine's argument vector.
pub fn build_secondary_args(c: &QueryConfig) -> (r: Vec<String>)
    ensures
        texts(r@) == secondary_args(*c),
{
    let prompt = compose_secondary_prompt(c);
    let mut v: Vec<String> = Vec::new();
    push_text(&mut v, "--prompt");
    push_text(&mut v, prompt.as_str());
    push_text(&mut v, "--output-format");
    push_text(&mut v, "stream-json");
    push_text(&mut v, "--yolo");
    assert(texts(v@) =~= seq![
        "--prompt"@,
        secondary_prompt(*c),
        "--output-format"@,
        "stream-json"@,
        "--yolo"@,
    ]);
    push_opt_pair(&mut v, "--model", &c.model);
    let ghost before_resume = texts(v@);
    if c.resume {
        push_opt_pair(&mut v, "--resume", &c.session_id);
    }
    assert(texts(v@) =~= before_resume + resume_pair("--resume"@, *c));
    v
}

/// Builds the command line of a query for an engine and a located executable.
///
/// The primary engine takes the message as its last argument when it is
/// shorter than `STDIN_THRESHOLD` characters, and over standard input
/// otherwise; the secondary engine always takes it as the prompt argument.
/// A command-script wrapper is started through the command interpreter.
/// The markers of an enclosing agent session are removed from the child's
/// environment.
pub fn build_command(c: &QueryConfig, engine: Engine, binary: &BinaryRef, markers: &Vec<String>) -> (r: LaunchPlan)
    ensures
        r.program@ == launch_program(*binary),
        texts(r.args@) == plan_args(*c, engine, *binary),
        opt_text(r.stdin_message) == plan_stdin(*c, engine),
        r.cwd == c.cwd,
        texts(r.env_remove@) == texts(markers@),
{
    let wrapped = ends_with_text(binary.program.as_str(), ".cmd");
    let mut args: Vec<String> = Vec::new();
    let program = if wrapped {
        push_text(&mut args, "/c");
        push_text(&mut args, binary.program.as_str());
        String::from_str("cmd.exe")
    } else {
        binary.program.clone()
    };
    push_all(&mut args, &binary.pre_args);
    assert(texts(args@) =~= launch_prefix(*binary));
    let own = match engine {
        Engine::Primary => build_primary_args(c),
        Engine::Secondary => build_secondary_args(c),
    };
    push_all(&mut args, &own);
    let stdin_message = match engine {
        Engine::Primary => if c.message.as_str().unicode_len() >= STDIN_THRESHOLD {
            Some(c.message.clone())
        } else {
            None
        },
        Engine::Secondary => None,
    };
    let mut env_remove: Vec<String> = Vec::new();
    push_all(&mut env_remove, markers);
    assert(texts(env_remove@) =~= texts(markers@));
    LaunchPlan { program, args, stdin_message, cwd: c.cwd.clone(), env_remove }
}

/// The flag that resumes a prior session.
pub open spec fn resume_flag(e: Engine) -> Seq<char> {
    match e {
        Engine::Primary => "-r"@,
        Engine::Secondary => "--resume"@,
    }
}

/// A message shorter than the threshold is the primary engine's last
/// argument, and standard input stays closed.
pub proof fn lemma_short_message_is_last(c: QueryConfig, b: BinaryRef)
    requires
        c.message@.len() < STDIN_THRESHOLD,
    ensures
        plan_args(c, Engine::Primary, b) == launch_prefix(b) + primary_flags(c) + seq![c.message@],
        plan_args(c, Engine::Primary, b).last() == c.message@,
        plan_stdin(c, Engine::Primary) is None,
{
    assert(plan_args(c, Engine::Primary, b) =~= launch_prefix(b) + primary_flags(c) + seq![c.message@]);
}

/// A message at or above the threshold is left out of the primary engine's
/// arguments and is what goes to standard input.
pub proof fn lemma_long_message_is_piped(c: QueryConfig, b: BinaryRef)
    requires
        c.message@.len() >= STDIN_THRESHOLD,
    ensures
        plan_args(c, Engine::Primary, b) == launch_prefix(b) + primary_flags(c),
        plan_stdin(c, Engine::Primary) == Some(c.message@),
{
    assert(plan_args(c, Engine::Primary, b) =~= launch_prefix(b) + primary_flags(c));
}

/// The secondary engine never reads the message from standard input.
pub proof fn lemma_secondary_never_piped(c: QueryConfig)
    ensures
        plan_stdin(c, Engine::Secondary) is None,
{
}

/// Resuming with a prior session puts the engine's resume flag followed by
/// that session into the command; without resuming, the session has no
/// effect on the command at all.
pub proof fn lemma_resume_round_trip(c: QueryConfig, e: Engine, b: BinaryRef)
    ensures
        c.resume && c.session_id is Some ==> exists|i: int|
            0 <= i && i + 1 < plan_args(c, e, b).len() && #[trigger] plan_args(c, e, b)[i]
                == resume_flag(e) && plan_args(c, e, b)[i + 1] == c.session_id->0@,
        !c.resume ==> plan_args(c, e, b) == plan_args(QueryConfig { session_id: None, ..c }, e, b),
        !c.resume ==> plan_stdin(c, e) == plan_stdin(QueryConfig { session_id: None, ..c }, e),
{
    let args = plan_args(c, e, b);
    if c.resume && c.session_id is Some {
        let sid = c.session_id->0@;
        let before = match e {
            Engine::Primary => launch_prefix(b) + (primary_flags(c).subrange(0, primary_flags(c).len() - 2)),
            Engine::Secondary => launch_prefix(b) + (secondary_args(c).subrange(0, secondary_args(c).len() - 2)),
        };
        let i = before.len() as int;
        match e {
            Engine::Primary => {
                let rest = if message_piped(c) { seq![] } else { seq![c.message@] };
                assert(args =~= before + seq![resume_flag(e), sid] + rest);
            },
            Engine::Secondary => {
                assert(args =~= before + seq![resume_flag(e), sid]);
            },
        }
        assert(args[i] == resume_flag(e) && args[i + 1] == sid);
    }
    if !c.resume {
        let d = QueryConfig { session_id: None, ..c };
        assert(plan_args(c, e, b) =~= plan_args(d, e, b));
    }
}

/// Ten to the power `k`.
pub open spec fn ten_pow(k: nat) -> nat
    decreases k,
{
    if k == 0 { 1 } else { 10 * ten_pow((k - 1) as nat) }
}

proof fn lemma_decimal_len(n: nat, k: nat)
    requires
        k >= 1,
        n < ten_pow(k),
    ensures
        decimal(n).len() <= k,
    decreases k,
{
    if n >= 10 {
        if k == 1 {
            assert(ten_pow(0) == 1);
            assert(ten_pow(1) == 10);
        }
        let j = (k - 1) as nat;
        assert(n / 10 < ten_pow(j)) by (nonlinear_arith)
            requires
                n < 10 * ten_pow(j),
        ;
        lemma_decimal_len(n / 10, j);
    }
}

proof fn lemma_ten_pow_ten()
    ensures
        ten_pow(10) == 10000000000,
{
    assert(ten_pow(0) == 1);
    assert(ten_pow(1) == 10);
    assert(ten_pow(2) == 100);
    assert(ten_pow(3) == 1000);
    assert(ten_pow(4) == 10000);
    assert(ten_pow(5) == 100000);
    assert(ten_pow(6) == 1000000);
    assert(ten_pow(7) == 10000000);
    assert(ten_pow(8) == 100000000);
    assert(ten_pow(9) == 1000000000);
    assert(ten_pow(10) == 10000000000);
}

proof fn lemma_concat_avoids(a: Seq<Seq<char>>, b: Seq<Seq<char>>, x: Seq<char>)
    requires
        !a.contains(x),
        !b.contains(x),
    ensures
        !(a + b).contains(x),
{
    assert forall|i: int| 0 <= i < (a + b).len() implies (a + b)[i] != x by {
        if i < a.len() {
            assert((a + b)[i] == a[i]);
        } else {
            assert((a + b)[i] == b[i - a.len()]);
        }
    }
}

proof fn lemma_pair_avoids(flag: Seq<char>, v: Option<Seq<char>>, x: Seq<char>)
    requires
        flag.len() < x.len(),
        v != Some(x),
    ensures
        !opt_pair(flag, v).contains(x),
{
    if v is Some {
        assert(opt_pair(flag, v)[0] == flag);
        assert(opt_pair(flag, v)[1] == v->0);
    }
}

/// A message at or above the threshold appears nowhere in the primary
/// engine's arguments, unless a leading argument or an option value is that
/// very text, and it is what goes to standard input.
pub proof fn lemma_long_message_withheld(c: QueryConfig, b: BinaryRef)
    requires
        c.message@.len() >= STDIN_THRESHOLD,
        !launch_prefix(b).contains(c.message@),
        opt_text(c.model) != Some(c.message@),
        opt_text(c.mcp_config) != Some(c.message@),
        opt_text(c.system_prompt) != Some(c.message@),
        opt_text(c.tools) != Some(c.message@),
        opt_text(c.permission_mode) != Some(c.message@),
        c.resume ==> opt_text(c.session_id) != Some(c.message@),
    ensures
        !plan_args(c, Engine::Primary, b).contains(c.message@),
        plan_stdin(c, Engine::Primary) == Some(c.message@),
{
    let m = c.message@;
    {
        reveal_strlit("-p");
        reveal_strlit("--verbose");
        reveal_strlit("--output-format");
        reveal_strlit("stream-json");
        reveal_strlit("--model");
        reveal_strlit("--mcp-config");
        reveal_strlit("--system-prompt");
        reveal_strlit("--max-turns");
        reveal_strlit("--tools");
        reveal_strlit("--strict-mcp-config");
        reveal_strlit("--permission-mode");
        reveal_strlit("-r");
    }
    let base = seq!["-p"@, "--verbose"@, "--output-format"@, "stream-json"@];
    assert(!base.contains(m)) by {
        assert forall|i: int| 0 <= i < base.len() implies base[i] != m by {
            assert(base[i].len() < m.len());
        }
    }
    let turns = match c.max_turns {
        Some(t) => Some(decimal(t as nat)),
        None => None,
    };
    if c.max_turns is Some {
        let t = c.max_turns->0 as nat;
        lemma_ten_pow_ten();
        lemma_decimal_len(t, 10);
    }
    lemma_pair_avoids("--model"@, opt_text(c.model), m);
    lemma_pair_avoids("--mcp-config"@, opt_text(c.mcp_config), m);
    lemma_pair_avoids("--system-prompt"@, opt_text(c.system_prompt), m);
    lemma_pair_avoids("--max-turns"@, turns, m);
    lemma_pair_avoids("--tools"@, opt_text(c.tools), m);
    lemma_pair_avoids("--permission-mode"@, opt_text(c.permission_mode), m);
    let strict = opt_flag("--strict-mcp-config"@, c.strict_mcp);
    assert(!strict.contains(m)) by {
        if c.strict_mcp {
            assert(strict[0] == "--strict-mcp-config"@);
        }
    }
    if c.resume {
        lemma_pair_avoids("-r"@, opt_text(c.session_id), m);
    }
    let s1 = base + opt_pair("--model"@, opt_text(c.model));
    lemma_concat_avoids(base, opt_pair("--model"@, opt_text(c.model)), m);
    let s2 = s1 + opt_pair("--mcp-config"@, opt_text(c.mcp_config));
    lemma_concat_avoids(s1, opt_pair("--mcp-config"@, opt_text(c.mcp_config)), m);
    let s3 = s2 + opt_pair("--system-prompt"@, opt_text(c.system_prompt));
    lemma_concat_avoids(s2, opt_pair("--system-prompt"@, opt_text(c.system_prompt)), m);
    let s4 = s3 + opt_pair("--max-turns"@, turns);
    lemma_concat_avoids(s3, opt_pair("--max-turns"@, turns), m);
    let s5 = s4 + opt_pair("--tools"@, opt_text(c.tools));
    lemma_concat_avoids(s4, opt_pair("--tools"@, opt_text(c.tools)), m);
    let s6 = s5 + strict;
    lemma_concat_avoids(s5, strict, m);
    let s7 = s6 + opt_pair("--permission-mode"@, opt_text(c.permission_mode));
    lemma_concat_avoids(s6, opt_pair("--permission-mode"@, opt_text(c.permission_mode)), m);
    lemma_concat_avoids(s7, resume_pair("-r"@, c), m);
    assert(primary_flags(c) == s7 + resume_pair("-r"@, c));
    lemma_concat_avoids(launch_prefix(b), primary_flags(c), m);
    assert(plan_args(c, Engine::Primary, b) =~= launch_prefix(b) + primary_flags(c));
}

} // verus!
