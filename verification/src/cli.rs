//! Command-line grammar of the `wish-world` tool: subcommands, their
//! positional arguments and flags, and the messages of every refusal.
use vstd::prelude::*;
use crate::perspective::{all_spec, perspective_named, slug_spec, Perspective};
use crate::text::{
    append_chars, append_str, chars_eq_str, chars_of, find_char, find_char_in, int_error_text, joined, parse_uint, skip_chars, starts_with,
    starts_with_chars, starts_with_str, string_of, uint_parse,
};

verus! {

/// Usage text.
pub const HELP: &'static str = r#"wish-world — the World Model IDE CLI (v0.5.0)

USAGE:
    wish-world inspect <world-dir>
    wish-world canvas repo <root> [--format svg|mermaid|json]
    wish-world canvas world <world-dir> [--format svg|mermaid|json]
    wish-world worldline <world-dir>
    wish-world demo shanhai <out-dir>
    wish-world view <world-dir> [--out <path>] [--no-open]   (browser)
    wish-world render world <world-dir> [--perspective <p>] [--reveal <id>] (native)
    wish-world render repo <root>       [--perspective <p>] [--reveal <id>] (native)
    wish-world render demo              [--perspective <p>] [--reveal <id>] (native)
    wish-world render tensor            [--perspective <p>] [--reveal <id>] (native)
        End-to-end smoke test for the URE × wishUI tensor substrate.
        Builds a canvas of golden tensors (eye, linspace, ripple,
        Gaussian, sine plane) and renders them as inline heatmaps
        inside the native viewer.
        Domain perspectives (8):
            engineering, architecture, spatial, financial,
            education, scientific, design, analytic
        Science / Tensorium perspectives (7):
            math, geometry, chemistry, physics,
            linguistic, geologic, biologic
        --reveal: pan and highlight a node by its SemanticId. Canonical form
                  `realm:kind:stable_key[#instance]`, e.g.
                      code:function:my_mod::my_fn
                      code:file:src/main.rs
                      terminal:block:cargo-test#01HXYZ
    wish-world build "<intent>" [--live] [--out <dir>] [--step-ms <n>]
    wish-world timetravel <world-dir>                         (native, scrub)
    wish-world watch <world-dir> [--poll-ms <n>]              (native, hot-reload)
    wish-world agent "<intent>" --target <world-dir> [--step-ms <n>] [--fresh]
    wish-world swarm "<intent>" --target <world-dir> --count <n> [--step-ms <n>] [--fresh]
    wish-world branches <world-dir>
    wish-world branch <world-dir> <new-branch> [--from <event-id>]
    wish-world block "<shell-cmd>" --target <world-dir>
    wish-world repo-watch <root> --target <world-dir> [--poll-ms <n>] [--functions]
    wish-world canvas repo <root> [--format ...] [--functions]
    wish-world tour [--out <dir>] [--no-open]
    wish-world agent-dag <run-json> [--format svg|mermaid|json]
    wish-world version

INTENT → WORLD
    `wish-world build "<intent>"` plans a sequence of WorldPatches from
    a natural-language prompt and applies them. Add `--live` to open
    a native window that animates the build step-by-step. Templates
    match keywords like "harbor / merchant / stablecoin", "temple /
    dragon / sacred", "service / topology / kubernetes", or
    "education / teacher / student". Anything else falls back to a
    starter world.

INVOCATION:
    From the wish repo root, use one of:
        cargo run --bin wish-world -- <subcommand> …
        cargo run -p wish-world-cli -- <subcommand> …
        ./target/debug/wish-world <subcommand> …
    Or `cargo install --path crates/wish-world-cli` to put it on $PATH.

Every world is a `.wishworld/` directory; see
wish-design/wish-plan-20260514/04-data-model/02-wishworld-format.md.

Wish is the World Model IDE — and a world has a model, a ledger, a
runtime, a finance layer, and a trust layer. That is the moat.
"#;

/// Output format of a canvas.
#[derive(Debug, Clone, Copy, PartialEq, Eq, Structural)]
pub enum Format {
    Svg,
    Mermaid,
    Json,
    Text,
    /// One node per crate in Mermaid flowchart notation.
    ArchitectureMermaid,
}

/// The format a name selects.
pub open spec fn format_named(v: Seq<char>) -> Option<Format> {
    if v == "svg"@ {
        Some(Format::Svg)
    } else if v == "mermaid"@ {
        Some(Format::Mermaid)
    } else if v == "json"@ {
        Some(Format::Json)
    } else if v == "text"@ {
        Some(Format::Text)
    } else if v == "architecture"@ || v == "arch"@ || v == "architecture-mermaid"@ || v == "arch-mermaid"@ {
        Some(Format::ArchitectureMermaid)
    } else {
        None
    }
}

/// Parse a `--format` value.
pub fn parse_format(v: &str) -> (r: Result<Format, String>)
    ensures
        match r {
            Ok(f) => format_named(v@) == Some(f),
            Err(m) => format_named(v@) is None && m@ == "unknown format: "@ + v@,
        },
{
    let c = chars_of(v);
    if chars_eq_str(&c, "svg") {
        Ok(Format::Svg)
    } else if chars_eq_str(&c, "mermaid") {
        Ok(Format::Mermaid)
    } else if chars_eq_str(&c, "json") {
        Ok(Format::Json)
    } else if chars_eq_str(&c, "text") {
        Ok(Format::Text)
    } else if chars_eq_str(&c, "architecture") || chars_eq_str(&c, "arch") || chars_eq_str(
        &c,
        "architecture-mermaid",
    ) || chars_eq_str(&c, "arch-mermaid") {
        Ok(Format::ArchitectureMermaid)
    } else {
        let mut m = chars_of("unknown format: ");
        append_chars(&mut m, &c);
        Err(string_of(&m))
    }
}

// ─────────────────────────────────────────────────────────────────────
// Flags
// ─────────────────────────────────────────────────────────────────────

/// What a flag takes.
#[derive(Debug, Clone, Copy, PartialEq, Eq, Structural)]
pub enum FlagKind {
    /// No value; present or not.
    Switch,
    /// A text value.
    Value,
    /// An unsigned integer no greater than the rule's maximum.
    Number,
    /// A format name.
    FormatName,
}

/// One flag a subcommand accepts: `--name value`, or `--name=value`
/// for flags with a value.
#[derive(Debug, Clone, Copy)]
pub struct FlagRule {
    pub name: &'static str,
    pub kind: FlagKind,
    /// Refusal when the value is missing after `--name`.
    pub missing: &'static str,
    /// Whether `--name=` is stripped as often as it repeats, rather than once.
    pub strip_all: bool,
    pub max: u64,
}

/// What a scan saw of one flag; the last occurrence wins.
pub enum Seen {
    Unset,
    On,
    Text(Seq<char>),
    Num(u64),
    Fmt(Format),
}

/// `s` without every leading repetition of `p` (`p` non-empty).
pub open spec fn trim_prefix_all(s: Seq<char>, p: Seq<char>) -> Seq<char>
    decreases s.len(),
{
    if p.len() > 0 && starts_with(s, p) {
        trim_prefix_all(s.skip(p.len() as int), p)
    } else {
        s
    }
}

/// Index of the first rule named exactly `a`.
pub open spec fn rule_named(rules: Seq<FlagRule>, a: Seq<char>, n: int) -> Option<int>
    decreases n,
{
    if n <= 0 {
        None
    } else {
        match rule_named(rules, a, n - 1) {
            Some(k) => Some(k),
            None => if rules[n - 1].name@ == a {
                Some(n - 1)
            } else {
                None
            },
        }
    }
}

/// Index of the first rule with a value whose `--name=` starts `a`.
pub open spec fn rule_prefixing(rules: Seq<FlagRule>, a: Seq<char>, n: int) -> Option<int>
    decreases n,
{
    if n <= 0 {
        None
    } else {
        match rule_prefixing(rules, a, n - 1) {
            Some(k) => Some(k),
            None => if !(rules[n - 1].kind is Switch) && starts_with(a, rules[n - 1].name@ + "="@) {
                Some(n - 1)
            } else {
                None
            },
        }
    }
}

/// The value after `--name=` in `a`.
pub open spec fn eq_value(r: FlagRule, a: Seq<char>) -> Seq<char> {
    let p = r.name@ + "="@;
    if r.strip_all {
        trim_prefix_all(a, p)
    } else {
        a.skip(p.len() as int)
    }
}

/// A flag's value read from text, or the refusal.
pub open spec fn read_value(r: FlagRule, v: Seq<char>) -> Result<Seen, Seq<char>> {
    match r.kind {
        FlagKind::Number => match uint_parse(v, r.max as nat) {
            Ok(n) => Ok(Seen::Num(n as u64)),
            Err(e) => Err(r.name@ + ": "@ + int_error_text(e)),
        },
        FlagKind::FormatName => match format_named(v) {
            Some(f) => Ok(Seen::Fmt(f)),
            None => Err("unknown format: "@ + v),
        },
        _ => Ok(Seen::Text(v)),
    }
}

/// Scan `args[i..]` against `rules`: the seen values, or the first
/// refusal.
pub open spec fn scan(args: Seq<Seq<char>>, rules: Seq<FlagRule>, i: int, st: Seq<Seen>) -> Result<Seq<Seen>, Seq<char>>
    decreases args.len() - i,
{
    if i < 0 || i >= args.len() {
        Ok(st)
    } else {
        let a = args[i];
        match rule_named(rules, a, rules.len() as int) {
            Some(k) => if rules[k].kind is Switch {
                scan(args, rules, i + 1, st.update(k, Seen::On))
            } else if i + 1 >= args.len() {
                Err(rules[k].missing@)
            } else {
                match read_value(rules[k], args[i + 1]) {
                    Ok(v) => scan(args, rules, i + 2, st.update(k, v)),
                    Err(m) => Err(m),
                }
            },
            None => match rule_prefixing(rules, a, rules.len() as int) {
                Some(k) => match read_value(rules[k], eq_value(rules[k], a)) {
                    Ok(v) => scan(args, rules, i + 1, st.update(k, v)),
                    Err(m) => Err(m),
                },
                None => Err("unknown flag: "@ + a),
            },
        }
    }
}

pub open spec fn args_view(args: Seq<String>) -> Seq<Seq<char>> {
    args.map_values(|s: String| s@)
}

/// What the scan keeps of one flag, as values.
pub enum FlagValue {
    Unset,
    On,
    Text(String),
    Num(u64),
    Fmt(Format),
}

pub open spec fn seen_of(v: FlagValue) -> Seen {
    match v {
        FlagValue::Unset => Seen::Unset,
        FlagValue::On => Seen::On,
        FlagValue::Text(s) => Seen::Text(s@),
        FlagValue::Num(n) => Seen::Num(n),
        FlagValue::Fmt(f) => Seen::Fmt(f),
    }
}

pub open spec fn seens(vs: Seq<FlagValue>) -> Seq<Seen> {
    vs.map_values(|v: FlagValue| seen_of(v))
}

pub open spec fn unset_all(n: nat) -> Seq<Seen> {
    Seq::new(n, |i: int| Seen::Unset)
}

fn strip_prefix_all(a: &Vec<char>, p: &Vec<char>) -> (r: Vec<char>)
    requires
        p@.len() > 0,
    ensures
        r@ == trim_prefix_all(a@, p@),
{
    let mut cur = a.clone();
    assert(cur@ == a@);
    while starts_with_chars(&cur, p)
        invariant
            p@.len() > 0,
            trim_prefix_all(cur@, p@) == trim_prefix_all(a@, p@),
        decreases cur@.len(),
    {
        cur = skip_chars(&cur, p.len());
    }
    cur
}

fn find_rule(rules: &Vec<FlagRule>, a: &Vec<char>) -> (r: Option<usize>)
    ensures
        match r {
            Some(k) => rule_named(rules@, a@, rules@.len() as int) == Some(k as int),
            None => rule_named(rules@, a@, rules@.len() as int) is None,
        },
{
    let mut k: usize = 0;
    while k < rules.len()
        invariant
            k <= rules@.len(),
            rule_named(rules@, a@, k as int) is None,
        decreases rules.len() - k,
    {
        if chars_eq_str(a, rules[k].name) {
            proof {
                lemma_rule_named_stable(rules@, a@, k as int + 1, rules@.len() as int);
            }
            return Some(k);
        }
        k = k + 1;
    }
    None
}

proof fn lemma_rule_named_stable(rules: Seq<FlagRule>, a: Seq<char>, m: int, n: int)
    requires
        0 <= m <= n,
        rule_named(rules, a, m) is Some,
    ensures
        rule_named(rules, a, n) == rule_named(rules, a, m),
    decreases n - m,
{
    if m < n {
        lemma_rule_named_stable(rules, a, m, n - 1);
    }
}

proof fn lemma_rule_prefixing_stable(rules: Seq<FlagRule>, a: Seq<char>, m: int, n: int)
    requires
        0 <= m <= n,
        rule_prefixing(rules, a, m) is Some,
    ensures
        rule_prefixing(rules, a, n) == rule_prefixing(rules, a, m),
    decreases n - m,
{
    if m < n {
        lemma_rule_prefixing_stable(rules, a, m, n - 1);
    }
}

proof fn lemma_rule_index_range(rules: Seq<FlagRule>, a: Seq<char>, n: int)
    requires
        0 <= n <= rules.len(),
    ensures
        rule_named(rules, a, n) matches Some(k) ==> 0 <= k < n,
        rule_prefixing(rules, a, n) matches Some(k) ==> 0 <= k < n && starts_with(a, rules[k].name@ + "="@)
            && !(rules[k].kind is Switch),
    decreases n,
{
    if n > 0 {
        lemma_rule_index_range(rules, a, n - 1);
    }
}

fn eq_form(r: &FlagRule) -> (p: Vec<char>)
    ensures
        p@ == r.name@ + "="@,
{
    let mut p = chars_of(r.name);
    p.push('=');
    proof {
        reveal_strlit("=");
    }
    assert(p@ =~= r.name@ + "="@);
    p
}

fn find_prefix_rule(rules: &Vec<FlagRule>, a: &Vec<char>) -> (r: Option<usize>)
    ensures
        match r {
            Some(k) => rule_prefixing(rules@, a@, rules@.len() as int) == Some(k as int),
            None => rule_prefixing(rules@, a@, rules@.len() as int) is None,
        },
{
    let mut k: usize = 0;
    while k < rules.len()
        invariant
            k <= rules@.len(),
            rule_prefixing(rules@, a@, k as int) is None,
        decreases rules.len() - k,
    {
        let is_switch = match rules[k].kind {
            FlagKind::Switch => true,
            _ => false,
        };
        if !is_switch {
            let p = eq_form(&rules[k]);
            if starts_with_chars(a, &p) {
                proof {
                    lemma_rule_prefixing_stable(rules@, a@, k as int + 1, rules@.len() as int);
                }
                return Some(k);
            }
        }
        k = k + 1;
    }
    None
}

fn read_flag_value(r: &FlagRule, v: &Vec<char>) -> (res: Result<FlagValue, String>)
    ensures
        match res {
            Ok(x) => read_value(*r, v@) == Ok::<Seen, Seq<char>>(seen_of(x)),
            Err(m) => read_value(*r, v@) == Err::<Seen, Seq<char>>(m@),
        },
{
    match r.kind {
        FlagKind::Number => match parse_uint(v, r.max) {
            Ok(n) => Ok(FlagValue::Num(n)),
            Err(e) => {
                let mut m = chars_of(r.name);
                append_str(&mut m, ": ");
                append_str(&mut m, e.message());
                Err(string_of(&m))
            },
        },
        FlagKind::FormatName => {
            let s = string_of(v);
            match parse_format(s.as_str()) {
                Ok(f) => Ok(FlagValue::Fmt(f)),
                Err(m) => Err(m),
            }
        },
        _ => Ok(FlagValue::Text(string_of(v))),
    }
}

/// Scan `args[from..]` against `rules`.
pub fn scan_flags(args: &Vec<String>, from: usize, rules: &Vec<FlagRule>) -> (r: Result<Vec<FlagValue>, String>)
    requires
        forall|k: int| 0 <= k < rules@.len() ==> (#[trigger] rules@[k]).name@.len() > 0,
    ensures
        match r {
            Ok(vs) => scan(args_view(args@), rules@, from as int, unset_all(rules@.len())) == Ok::<
                Seq<Seen>,
                Seq<char>,
            >(seens(vs@)),
            Err(m) => scan(args_view(args@), rules@, from as int, unset_all(rules@.len())) == Err::<
                Seq<Seen>,
                Seq<char>,
            >(m@),
        },
{
    let ghost A = args_view(args@);
    let mut vals: Vec<FlagValue> = Vec::new();
    let mut k: usize = 0;
    while k < rules.len()
        invariant
            k <= rules@.len(),
            vals@.len() == k,
            forall|q: int| 0 <= q < k ==> (#[trigger] vals@[q]) is Unset,
        decreases rules.len() - k,
    {
        vals.push(FlagValue::Unset);
        k = k + 1;
    }
    assert(seens(vals@) =~= unset_all(rules@.len()));
    let mut i: usize = from;
    while i < args.len()
        invariant
            A == args_view(args@),
            A.len() == args@.len(),
            from <= i,
            vals@.len() == rules@.len(),
            forall|q: int| 0 <= q < rules@.len() ==> (#[trigger] rules@[q]).name@.len() > 0,
            scan(A, rules@, from as int, unset_all(rules@.len())) == scan(A, rules@, i as int, seens(vals@)),
        decreases args.len() - i,
    {
        let a = chars_of(args[i].as_str());
        assert(A[i as int] == a@);
        proof {
            lemma_rule_index_range(rules@, a@, rules@.len() as int);
        }
        match find_rule(rules, &a) {
            Some(k) => {
                match rules[k].kind {
                    FlagKind::Switch => {
                        let ghost before = seens(vals@);
                        vals.set(k, FlagValue::On);
                        assert(seens(vals@) =~= before.update(k as int, Seen::On));
                        i = i + 1;
                    },
                    _ => {
                        if i + 1 >= args.len() {
                            return Err(string_of(&chars_of(rules[k].missing)));
                        }
                        let v = chars_of(args[i + 1].as_str());
                        assert(A[i + 1] == v@);
                        match read_flag_value(&rules[k], &v) {
                            Ok(x) => {
                                let ghost before = seens(vals@);
                                let ghost sx = seen_of(x);
                                vals.set(k, x);
                                assert(seens(vals@) =~= before.update(k as int, sx));
                                i = i + 2;
                            },
                            Err(m) => {
                                return Err(m);
                            },
                        }
                    },
                }
            },
            None => {
                match find_prefix_rule(rules, &a) {
                    Some(k) => {
                        let p = eq_form(&rules[k]);
                        let v = if rules[k].strip_all {
                            strip_prefix_all(&a, &p)
                        } else {
                            skip_chars(&a, p.len())
                        };
                        assert(v@ == eq_value(rules@[k as int], a@));
                        match read_flag_value(&rules[k], &v) {
                            Ok(x) => {
                                let ghost before = seens(vals@);
                                let ghost sx = seen_of(x);
                                vals.set(k, x);
                                assert(seens(vals@) =~= before.update(k as int, sx));
                                i = i + 1;
                            },
                            Err(m) => {
                                return Err(m);
                            },
                        }
                    },
                    None => {
                        let mut m = chars_of("unknown flag: ");
                        append_chars(&mut m, &a);
                        return Err(string_of(&m));
                    },
                }
            },
        }
    }
    Ok(vals)
}

// ─────────────────────────────────────────────────────────────────────
// Commands
// ─────────────────────────────────────────────────────────────────────

pub open spec fn rule(name: &'static str, kind: FlagKind, missing: &'static str, strip_all: bool, max: u64) -> FlagRule {
    FlagRule { name, kind, missing, strip_all, max }
}

pub open spec fn format_rule() -> FlagRule {
    rule("--format", FlagKind::FormatName, "--format needs a value", false, 0)
}

pub open spec fn switch_rule(name: &'static str) -> FlagRule {
    rule(name, FlagKind::Switch, "", false, 0)
}

pub open spec fn text_rule(name: &'static str, missing: &'static str) -> FlagRule {
    rule(name, FlagKind::Value, missing, true, 0)
}

pub open spec fn number_rule(name: &'static str, missing: &'static str, max: u64) -> FlagRule {
    rule(name, FlagKind::Number, missing, true, max)
}

/// The flags each subcommand accepts.
pub open spec fn rules_for(cmd: Seq<char>) -> Seq<FlagRule> {
    if cmd == "canvas"@ {
        seq![format_rule(), switch_rule("--functions")]
    } else if cmd == "agent-dag"@ {
        seq![format_rule()]
    } else if cmd == "view"@ || cmd == "tour"@ {
        seq![switch_rule("--no-open"), text_rule("--out", "--out needs a path")]
    } else if cmd == "build"@ {
        seq![
            switch_rule("--live"),
            text_rule("--out", "--out needs a directory"),
            number_rule("--step-ms", "--step-ms needs a value", u64::MAX),
        ]
    } else if cmd == "block"@ {
        seq![text_rule("--target", "--target needs a path")]
    } else if cmd == "repo-watch"@ {
        seq![
            text_rule("--target", "--target needs a path"),
            number_rule("--poll-ms", "--poll-ms needs a value", u64::MAX),
            switch_rule("--functions"),
        ]
    } else if cmd == "branch"@ {
        seq![text_rule("--from", "--from needs a value")]
    } else if cmd == "agent"@ {
        seq![
            text_rule("--target", "--target needs a path"),
            number_rule("--step-ms", "--step-ms needs a value", u64::MAX),
            switch_rule("--fresh"),
        ]
    } else if cmd == "swarm"@ {
        seq![
            text_rule("--target", "--target needs a path"),
            number_rule("--count", "--count needs a value", usize::MAX as u64),
            number_rule("--step-ms", "--step-ms needs a value", u64::MAX),
            switch_rule("--fresh"),
        ]
    } else {
        seq![number_rule("--poll-ms", "--poll-ms needs a value", u64::MAX)]
    }
}

/// The native-viewer targets of `render`.
#[derive(Debug, Clone, Copy, PartialEq, Eq, Structural)]
pub enum RenderTarget {
    World,
    Repo,
    Demo,
    Tensor,
}

/// A parsed invocation.
#[derive(Debug, Clone)]
pub enum CliCommand {
    Help,
    Version,
    Inspect { dir: String },
    CanvasRepo { root: String, format: Format, functions: bool },
    CanvasWorld { dir: String, format: Format },
    Worldline { dir: String },
    DemoShanhai { out: String },
    AgentDag { run_json: String, format: Format },
    View { dir: String, out: Option<String>, open: bool },
    Tour { out: Option<String>, open: bool },
    Build { intent: String, live: bool, out: Option<String>, step_ms: u64 },
    Timetravel { dir: String },
    Block { command: String, target: String },
    RepoWatch { root: String, target: String, poll_ms: u64, functions: bool },
    Branches { dir: String },
    Branch { dir: String, new_branch: String, from: Option<String> },
    Agent { intent: String, target: String, step_ms: u64, fresh: bool },
    Swarm { intent: String, target: String, count: usize, step_ms: u64, fresh: bool },
    Watch { dir: String, poll_ms: u64 },
    /// `path` is the world directory or repository root (absent for the
    /// demo and tensor targets); `reveal` is the raw semantic id to reveal.
    Render { target: RenderTarget, path: Option<String>, perspective: Perspective, reveal: Option<String> },
}

/// A parsed invocation as plain values.
pub enum Cmd {
    Help,
    Version,
    Inspect(Seq<char>),
    CanvasRepo(Seq<char>, Format, bool),
    CanvasWorld(Seq<char>, Format),
    Worldline(Seq<char>),
    DemoShanhai(Seq<char>),
    AgentDag(Seq<char>, Format),
    View(Seq<char>, Option<Seq<char>>, bool),
    Tour(Option<Seq<char>>, bool),
    Build(Seq<char>, bool, Option<Seq<char>>, u64),
    Timetravel(Seq<char>),
    Block(Seq<char>, Seq<char>),
    RepoWatch(Seq<char>, Seq<char>, u64, bool),
    Branches(Seq<char>),
    Branch(Seq<char>, Seq<char>, Option<Seq<char>>),
    Agent(Seq<char>, Seq<char>, u64, bool),
    Swarm(Seq<char>, Seq<char>, usize, u64, bool),
    Watch(Seq<char>, u64),
    Render(RenderTarget, Option<Seq<char>>, Perspective, Option<Seq<char>>),
}

pub open spec fn ov(o: Option<String>) -> Option<Seq<char>> {
    match o {
        Some(s) => Some(s@),
        None => None,
    }
}

pub open spec fn cmd_view(c: CliCommand) -> Cmd {
    match c {
        CliCommand::Help => Cmd::Help,
        CliCommand::Version => Cmd::Version,
        CliCommand::Inspect { dir } => Cmd::Inspect(dir@),
        CliCommand::CanvasRepo { root, format, functions } => Cmd::CanvasRepo(root@, format, functions),
        CliCommand::CanvasWorld { dir, format } => Cmd::CanvasWorld(dir@, format),
        CliCommand::Worldline { dir } => Cmd::Worldline(dir@),
        CliCommand::DemoShanhai { out } => Cmd::DemoShanhai(out@),
        CliCommand::AgentDag { run_json, format } => Cmd::AgentDag(run_json@, format),
        CliCommand::View { dir, out, open } => Cmd::View(dir@, ov(out), open),
        CliCommand::Tour { out, open } => Cmd::Tour(ov(out), open),
        CliCommand::Build { intent, live, out, step_ms } => Cmd::Build(intent@, live, ov(out), step_ms),
        CliCommand::Timetravel { dir } => Cmd::Timetravel(dir@),
        CliCommand::Block { command, target } => Cmd::Block(command@, target@),
        CliCommand::RepoWatch { root, target, poll_ms, functions } => Cmd::RepoWatch(root@, target@, poll_ms, functions),
        CliCommand::Branches { dir } => Cmd::Branches(dir@),
        CliCommand::Branch { dir, new_branch, from } => Cmd::Branch(dir@, new_branch@, ov(from)),
        CliCommand::Agent { intent, target, step_ms, fresh } => Cmd::Agent(intent@, target@, step_ms, fresh),
        CliCommand::Swarm { intent, target, count, step_ms, fresh } => Cmd::Swarm(intent@, target@, count, step_ms, fresh),
        CliCommand::Watch { dir, poll_ms } => Cmd::Watch(dir@, poll_ms),
        CliCommand::Render { target, path, perspective, reveal } => Cmd::Render(target, ov(path), perspective, ov(reveal)),
    }
}

pub open spec fn seen_text(st: Seq<Seen>, k: int) -> Option<Seq<char>> {
    match st[k] {
        Seen::Text(t) => Some(t),
        _ => None,
    }
}

pub open spec fn seen_on(st: Seq<Seen>, k: int) -> bool {
    st[k] is On
}

pub open spec fn seen_num(st: Seq<Seen>, k: int, default: u64) -> u64 {
    match st[k] {
        Seen::Num(n) => n,
        _ => default,
    }
}

pub open spec fn seen_fmt(st: Seq<Seen>, k: int) -> Format {
    match st[k] {
        Seen::Fmt(f) => f,
        _ => Format::Text,
    }
}

/// The command a flagged subcommand builds from its positional
/// arguments and the flags seen, or its refusal.
pub open spec fn flagged_command(args: Seq<Seq<char>>, st: Seq<Seen>) -> Result<Cmd, Seq<char>> {
    let c = args[0];
    if c == "canvas"@ {
        if args[1] == "repo"@ {
            Ok(Cmd::CanvasRepo(args[2], seen_fmt(st, 0), seen_on(st, 1)))
        } else if args[1] == "world"@ {
            Ok(Cmd::CanvasWorld(args[2], seen_fmt(st, 0)))
        } else {
            Err("unknown canvas subcommand: "@ + args[1])
        }
    } else if c == "agent-dag"@ {
        Ok(Cmd::AgentDag(args[1], seen_fmt(st, 0)))
    } else if c == "view"@ {
        Ok(Cmd::View(args[1], seen_text(st, 1), !seen_on(st, 0)))
    } else if c == "tour"@ {
        Ok(Cmd::Tour(seen_text(st, 1), !seen_on(st, 0)))
    } else if c == "build"@ {
        Ok(Cmd::Build(args[1], seen_on(st, 0), seen_text(st, 1), seen_num(st, 2, 600)))
    } else if c == "block"@ {
        match seen_text(st, 0) {
            Some(t) => Ok(Cmd::Block(args[1], t)),
            None => Err("block: --target <world-dir> is required"@),
        }
    } else if c == "repo-watch"@ {
        match seen_text(st, 0) {
            Some(t) => Ok(Cmd::RepoWatch(args[1], t, seen_num(st, 1, 1500), seen_on(st, 2))),
            None => Err("repo-watch: --target <world-dir> is required"@),
        }
    } else if c == "branch"@ {
        Ok(Cmd::Branch(args[1], args[2], seen_text(st, 0)))
    } else if c == "agent"@ {
        match seen_text(st, 0) {
            Some(t) => Ok(Cmd::Agent(args[1], t, seen_num(st, 1, 1500), seen_on(st, 2))),
            None => Err("agent: --target <world-dir> is required"@),
        }
    } else if c == "swarm"@ {
        match seen_text(st, 0) {
            Some(t) => if seen_num(st, 1, 3) == 0 {
                Err("swarm: --count must be ≥ 1"@)
            } else {
                Ok(Cmd::Swarm(args[1], t, seen_num(st, 1, 3) as usize, seen_num(st, 2, 1200), seen_on(st, 3)))
            },
            None => Err("swarm: --target <world-dir> is required"@),
        }
    } else {
        Ok(Cmd::Watch(args[1], seen_num(st, 0, 500)))
    }
}

/// How many positional arguments a flagged subcommand takes, and the
/// refusal for each one missing.
pub open spec fn positionals(c: Seq<char>) -> nat {
    if c == "tour"@ {
        0
    } else if c == "canvas"@ || c == "branch"@ {
        2
    } else {
        1
    }
}

pub open spec fn usage_for(args: Seq<Seq<char>>, k: int) -> Seq<char> {
    let c = args[0];
    if c == "canvas"@ {
        if k == 1 {
            "usage: wish-world canvas repo|world <path>"@
        } else {
            "usage: wish-world canvas "@ + args[1] + " <path>"@
        }
    } else if c == "agent-dag"@ {
        "usage: wish-world agent-dag <run-json>"@
    } else if c == "view"@ {
        "usage: wish-world view <world-dir> [--out <path>] [--no-open]"@
    } else if c == "build"@ {
        "usage: wish-world build \"<intent>\" [--live] [--out <dir>] [--step-ms <n>]"@
    } else if c == "block"@ {
        "usage: wish-world block \"<shell-cmd>\" --target <world-dir>"@
    } else if c == "repo-watch"@ {
        "usage: wish-world repo-watch <root> --target <world-dir> [--poll-ms <n>] [--functions]"@
    } else if c == "branch"@ {
        "usage: wish-world branch <world-dir> <new-branch> [--from <event-id>]"@
    } else if c == "agent"@ {
        "usage: wish-world agent \"<intent>\" --target <world-dir> [--step-ms <n>] [--fresh]"@
    } else if c == "swarm"@ {
        "usage: wish-world swarm \"<intent>\" --target <world-dir> --count <n> [--step-ms <n>] [--fresh]"@
    } else {
        "usage: wish-world watch <world-dir> [--poll-ms <n>]"@
    }
}

pub open spec fn is_flagged(c: Seq<char>) -> bool {
    c == "canvas"@ || c == "agent-dag"@ || c == "view"@ || c == "tour"@ || c == "build"@ || c == "block"@ || c
        == "repo-watch"@ || c == "branch"@ || c == "agent"@ || c == "swarm"@ || c == "watch"@
}

/// A flagged subcommand: its positionals, then its flags.
pub open spec fn flagged_spec(args: Seq<Seq<char>>) -> Result<Cmd, Seq<char>> {
    let p = positionals(args[0]) as int;
    if args.len() < 2 && p >= 1 {
        Err(usage_for(args, 1))
    } else if args.len() < 3 && p >= 2 {
        Err(usage_for(args, 2))
    } else {
        let rules = rules_for(args[0]);
        match scan(args, rules, p + 1, unset_all(rules.len())) {
            Ok(st) => flagged_command(args, st),
            Err(m) => Err(m),
        }
    }
}

/// The subcommands with one positional argument and no flags.
pub open spec fn simple_spec(args: Seq<Seq<char>>) -> Result<Cmd, Seq<char>> {
    let c = args[0];
    if args.len() < 2 {
        Err(
            if c == "inspect"@ {
                "usage: wish-world inspect <world-dir>"@
            } else if c == "worldline"@ {
                "usage: wish-world worldline <world-dir>"@
            } else if c == "timetravel"@ {
                "usage: wish-world timetravel <world-dir>"@
            } else {
                "usage: wish-world branches <world-dir>"@
            },
        )
    } else if c == "inspect"@ {
        Ok(Cmd::Inspect(args[1]))
    } else if c == "worldline"@ {
        Ok(Cmd::Worldline(args[1]))
    } else if c == "timetravel"@ {
        Ok(Cmd::Timetravel(args[1]))
    } else {
        Ok(Cmd::Branches(args[1]))
    }
}

pub open spec fn is_simple(c: Seq<char>) -> bool {
    c == "inspect"@ || c == "worldline"@ || c == "timetravel"@ || c == "branches"@
}

/// Every slug, joined with `, `.
pub open spec fn slug_list() -> Seq<char> {
    joined(all_spec().map_values(|p: Perspective| slug_spec(p)), ", "@)
}

/// Text in the canonical form of a SemanticId,
/// `realm:kind:stable_key[#instance]`: a non-empty realm and kind, each
/// ended by the first `:` after it, then a non-empty rest.
pub open spec fn is_semantic_id_text(s: Seq<char>) -> bool {
    match find_char(s, ':') {
        Some(i) => i > 0 && match find_char(s.skip(i + 1), ':') {
            Some(j) => j > 0 && i + 1 + j + 1 < s.len(),
            None => false,
        },
        None => false,
    }
}

/// The refusal of a `--reveal` value that is no SemanticId.
pub open spec fn reveal_error(v: Seq<char>) -> Seq<char> {
    "--reveal: invalid SemanticId `"@ + v
        + "`\n  expected canonical form realm:kind:stable_key[#instance], e.g. code:function:my_mod::my_fn"@
}

/// The render flags: perspective, id to reveal, and path, or the
/// first refusal.
pub open spec fn render_scan(
    args: Seq<Seq<char>>,
    i: int,
    p: Perspective,
    reveal: Option<Seq<char>>,
    path: Option<Seq<char>>,
) -> Result<(Perspective, Option<Seq<char>>, Option<Seq<char>>), Seq<char>>
    decreases args.len() - i,
{
    if i < 0 || i >= args.len() {
        Ok((p, reveal, path))
    } else {
        let a = args[i];
        if a == "--perspective"@ {
            if i + 1 >= args.len() {
                Err("--perspective needs a value"@)
            } else {
                match perspective_named(args[i + 1]) {
                    Some(q) => render_scan(args, i + 2, q, reveal, path),
                    None => Err("unknown perspective: "@ + args[i + 1] + ". valid: "@ + slug_list()),
                }
            }
        } else if starts_with(a, "--perspective="@) {
            let v = trim_prefix_all(a, "--perspective="@);
            match perspective_named(v) {
                Some(q) => render_scan(args, i + 1, q, reveal, path),
                None => Err("unknown perspective: "@ + v),
            }
        } else if a == "--reveal"@ {
            if i + 1 >= args.len() {
                Err("--reveal needs a SemanticId value"@)
            } else if !is_semantic_id_text(args[i + 1]) {
                Err(reveal_error(args[i + 1]))
            } else {
                render_scan(args, i + 2, p, Some(args[i + 1]), path)
            }
        } else if starts_with(a, "--reveal="@) {
            let v = trim_prefix_all(a, "--reveal="@);
            if !is_semantic_id_text(v) {
                Err(reveal_error(v))
            } else {
                render_scan(args, i + 1, p, Some(v), path)
            }
        } else if starts_with(a, "--"@) {
            Err("unknown flag: "@ + a)
        } else if path is None {
            render_scan(args, i + 1, p, reveal, Some(a))
        } else {
            Err("unexpected positional arg: "@ + a)
        }
    }
}

pub open spec fn render_spec(args: Seq<Seq<char>>) -> Result<Cmd, Seq<char>> {
    if args.len() < 2 {
        Err("usage: wish-world render world|repo|demo [--perspective <name>] <path>"@)
    } else {
        match render_scan(args, 2, Perspective::Engineering, None, None) {
            Err(m) => Err(m),
            Ok((p, reveal, path)) => {
                let sub = args[1];
                if sub == "world"@ {
                    match path {
                        Some(d) => Ok(Cmd::Render(RenderTarget::World, Some(d), p, reveal)),
                        None => Err(
                            "usage: wish-world render world <world-dir> [--perspective <name>] [--reveal <semantic-id>]"@,
                        ),
                    }
                } else if sub == "repo"@ {
                    match path {
                        Some(d) => Ok(Cmd::Render(RenderTarget::Repo, Some(d), p, reveal)),
                        None => Err(
                            "usage: wish-world render repo <root> [--perspective <name>] [--reveal <semantic-id>]"@,
                        ),
                    }
                } else if sub == "demo"@ {
                    Ok(Cmd::Render(RenderTarget::Demo, path, p, reveal))
                } else if sub == "tensor"@ {
                    Ok(Cmd::Render(RenderTarget::Tensor, path, p, reveal))
                } else {
                    Err("unknown render target: "@ + sub)
                }
            },
        }
    }
}

/// What an argument list (program name excluded) asks for.
pub open spec fn command_spec(args: Seq<Seq<char>>) -> Result<Cmd, Seq<char>> {
    if args.len() == 0 {
        Ok(Cmd::Help)
    } else {
        let c = args[0];
        if c == "--help"@ || c == "-h"@ || c == "help"@ {
            Ok(Cmd::Help)
        } else if c == "version"@ || c == "--version"@ || c == "-V"@ {
            Ok(Cmd::Version)
        } else if is_simple(c) {
            simple_spec(args)
        } else if c == "demo"@ {
            if args.len() < 2 {
                Err("usage: wish-world demo shanhai <out-dir>"@)
            } else if args.len() < 3 {
                Err("usage: wish-world demo "@ + args[1] + " <out-dir>"@)
            } else if args[1] == "shanhai"@ {
                Ok(Cmd::DemoShanhai(args[2]))
            } else {
                Err("unknown demo: "@ + args[1])
            }
        } else if is_flagged(c) {
            flagged_spec(args)
        } else if c == "render"@ {
            render_spec(args)
        } else {
            Err("unknown subcommand: "@ + c + "\n\n"@ + HELP@)
        }
    }
}

fn flag_rule(name: &'static str, kind: FlagKind, missing: &'static str, strip_all: bool, max: u64) -> (r: FlagRule)
    ensures
        r == rule(name, kind, missing, strip_all, max),
{
    FlagRule { name, kind, missing, strip_all, max }
}

fn rules_of(c: &Vec<char>) -> (r: Vec<FlagRule>)
    ensures
        r@ == rules_for(c@),
        forall|k: int| 0 <= k < r@.len() ==> (#[trigger] r@[k]).name@.len() > 0,
{
    proof {
        reveal_strlit("--format");
        reveal_strlit("--functions");
        reveal_strlit("--no-open");
        reveal_strlit("--out");
        reveal_strlit("--live");
        reveal_strlit("--step-ms");
        reveal_strlit("--target");
        reveal_strlit("--poll-ms");
        reveal_strlit("--from");
        reveal_strlit("--fresh");
        reveal_strlit("--count");
    }
    let fmt = flag_rule("--format", FlagKind::FormatName, "--format needs a value", false, 0);
    let r = if chars_eq_str(c, "canvas") {
        vec![fmt, flag_rule("--functions", FlagKind::Switch, "", false, 0)]
    } else if chars_eq_str(c, "agent-dag") {
        vec![fmt]
    } else if chars_eq_str(c, "view") || chars_eq_str(c, "tour") {
        vec![
            flag_rule("--no-open", FlagKind::Switch, "", false, 0),
            flag_rule("--out", FlagKind::Value, "--out needs a path", true, 0),
        ]
    } else if chars_eq_str(c, "build") {
        vec![
            flag_rule("--live", FlagKind::Switch, "", false, 0),
            flag_rule("--out", FlagKind::Value, "--out needs a directory", true, 0),
            flag_rule("--step-ms", FlagKind::Number, "--step-ms needs a value", true, u64::MAX),
        ]
    } else if chars_eq_str(c, "block") {
        vec![flag_rule("--target", FlagKind::Value, "--target needs a path", true, 0)]
    } else if chars_eq_str(c, "repo-watch") {
        vec![
            flag_rule("--target", FlagKind::Value, "--target needs a path", true, 0),
            flag_rule("--poll-ms", FlagKind::Number, "--poll-ms needs a value", true, u64::MAX),
            flag_rule("--functions", FlagKind::Switch, "", false, 0),
        ]
    } else if chars_eq_str(c, "branch") {
        vec![flag_rule("--from", FlagKind::Value, "--from needs a value", true, 0)]
    } else if chars_eq_str(c, "agent") {
        vec![
            flag_rule("--target", FlagKind::Value, "--target needs a path", true, 0),
            flag_rule("--step-ms", FlagKind::Number, "--step-ms needs a value", true, u64::MAX),
            flag_rule("--fresh", FlagKind::Switch, "", false, 0),
        ]
    } else if chars_eq_str(c, "swarm") {
        vec![
            flag_rule("--target", FlagKind::Value, "--target needs a path", true, 0),
            flag_rule("--count", FlagKind::Number, "--count needs a value", true, usize::MAX as u64),
            flag_rule("--step-ms", FlagKind::Number, "--step-ms needs a value", true, u64::MAX),
            flag_rule("--fresh", FlagKind::Switch, "", false, 0),
        ]
    } else {
        vec![flag_rule("--poll-ms", FlagKind::Number, "--poll-ms needs a value", true, u64::MAX)]
    };
    assert(r@ =~= rules_for(c@));
    r
}

fn take_text(vals: &Vec<FlagValue>, k: usize) -> (r: Option<String>)
    requires
        k < vals@.len(),
    ensures
        ov(r) == seen_text(seens(vals@), k as int),
{
    match &vals[k] {
        FlagValue::Text(s) => Some(s.clone()),
        _ => None,
    }
}

fn take_on(vals: &Vec<FlagValue>, k: usize) -> (r: bool)
    requires
        k < vals@.len(),
    ensures
        r == seen_on(seens(vals@), k as int),
{
    match &vals[k] {
        FlagValue::On => true,
        _ => false,
    }
}

fn take_num(vals: &Vec<FlagValue>, k: usize, default: u64) -> (r: u64)
    requires
        k < vals@.len(),
    ensures
        r == seen_num(seens(vals@), k as int, default),
{
    match &vals[k] {
        FlagValue::Num(n) => *n,
        _ => default,
    }
}

fn take_fmt(vals: &Vec<FlagValue>, k: usize) -> (r: Format)
    requires
        k < vals@.len(),
    ensures
        r == seen_fmt(seens(vals@), k as int),
{
    match &vals[k] {
        FlagValue::Fmt(f) => *f,
        _ => Format::Text,
    }
}

fn text_of(chars: &str) -> (r: String)
    ensures
        r@ == chars@,
{
    string_of(&chars_of(chars))
}

fn usage_string(args: &Vec<String>, k: usize) -> (r: String)
    requires
        1 <= k <= 2,
        args@.len() >= k,
    ensures
        r@ == usage_for(args_view(args@), k as int),
{
    let c = chars_of(args[0].as_str());
    assert(args_view(args@)[0] == c@);
    if chars_eq_str(&c, "canvas") {
        if k == 1 {
            text_of("usage: wish-world canvas repo|world <path>")
        } else {
            let mut m = chars_of("usage: wish-world canvas ");
            append_str(&mut m, args[1].as_str());
            append_str(&mut m, " <path>");
            assert(args_view(args@)[1] == args@[1]@);
            string_of(&m)
        }
    } else if chars_eq_str(&c, "agent-dag") {
        text_of("usage: wish-world agent-dag <run-json>")
    } else if chars_eq_str(&c, "view") {
        text_of("usage: wish-world view <world-dir> [--out <path>] [--no-open]")
    } else if chars_eq_str(&c, "build") {
        text_of("usage: wish-world build \"<intent>\" [--live] [--out <dir>] [--step-ms <n>]")
    } else if chars_eq_str(&c, "block") {
        text_of("usage: wish-world block \"<shell-cmd>\" --target <world-dir>")
    } else if chars_eq_str(&c, "repo-watch") {
        text_of("usage: wish-world repo-watch <root> --target <world-dir> [--poll-ms <n>] [--functions]")
    } else if chars_eq_str(&c, "branch") {
        text_of("usage: wish-world branch <world-dir> <new-branch> [--from <event-id>]")
    } else if chars_eq_str(&c, "agent") {
        text_of("usage: wish-world agent \"<intent>\" --target <world-dir> [--step-ms <n>] [--fresh]")
    } else if chars_eq_str(&c, "swarm") {
        text_of("usage: wish-world swarm \"<intent>\" --target <world-dir> --count <n> [--step-ms <n>] [--fresh]")
    } else {
        text_of("usage: wish-world watch <world-dir> [--poll-ms <n>]")
    }
}

fn positional_count(c: &Vec<char>) -> (r: usize)
    ensures
        r == positionals(c@),
{
    if chars_eq_str(c, "tour") {
        0
    } else if chars_eq_str(c, "canvas") || chars_eq_str(c, "branch") {
        2
    } else {
        1
    }
}

proof fn lemma_positional_counts()
    ensures
        positionals("tour"@) == 0,
        positionals("canvas"@) == 2,
        positionals("branch"@) == 2,
        positionals("agent-dag"@) == 1,
        positionals("view"@) == 1,
        positionals("build"@) == 1,
        positionals("block"@) == 1,
        positionals("repo-watch"@) == 1,
        positionals("agent"@) == 1,
        positionals("swarm"@) == 1,
        positionals("watch"@) == 1,
{
    reveal_strlit("tour");
    reveal_strlit("canvas");
    reveal_strlit("branch");
    reveal_strlit("agent-dag");
    reveal_strlit("view");
    reveal_strlit("build");
    reveal_strlit("block");
    reveal_strlit("repo-watch");
    reveal_strlit("agent");
    reveal_strlit("swarm");
    reveal_strlit("watch");
    assert("tour"@.len() == 4);
    assert("canvas"@.len() == 6);
    assert("branch"@.len() == 6);
    assert("canvas"@ != "tour"@);
    assert("branch"@ != "tour"@);
    assert("agent-dag"@ != "tour"@ && "agent-dag"@ != "canvas"@ && "agent-dag"@ != "branch"@);
    assert("view"@[0] != "tour"@[0]);
    assert("view"@ != "tour"@ && "view"@ != "canvas"@ && "view"@ != "branch"@);
    assert("build"@ != "tour"@ && "build"@ != "canvas"@ && "build"@ != "branch"@);
    assert("block"@ != "tour"@ && "block"@ != "canvas"@ && "block"@ != "branch"@);
    assert("repo-watch"@ != "tour"@ && "repo-watch"@ != "canvas"@ && "repo-watch"@ != "branch"@);
    assert("agent"@ != "tour"@ && "agent"@ != "canvas"@ && "agent"@ != "branch"@);
    assert("swarm"@ != "tour"@ && "swarm"@ != "canvas"@ && "swarm"@ != "branch"@);
    assert("watch"@ != "tour"@ && "watch"@ != "canvas"@ && "watch"@ != "branch"@);
}

fn build_flagged(args: &Vec<String>, vals: &Vec<FlagValue>) -> (r: Result<CliCommand, String>)
    requires
        args@.len() >= 1 + positionals(args_view(args@)[0]),
        is_flagged(args_view(args@)[0]),
        vals@.len() == rules_for(args_view(args@)[0]).len(),
    ensures
        match r {
            Ok(c) => flagged_command(args_view(args@), seens(vals@)) == Ok::<Cmd, Seq<char>>(cmd_view(c)),
            Err(m) => flagged_command(args_view(args@), seens(vals@)) == Err::<Cmd, Seq<char>>(m@),
        },
{
    let ghost A = args_view(args@);
    let c = chars_of(args[0].as_str());
    assert(A[0] == c@);
    proof {
        lemma_positional_counts();
    }
    assert(args@.len() >= 2 ==> A[1] == args@[1]@);
    assert(args@.len() >= 3 ==> A[2] == args@[2]@);
    if chars_eq_str(&c, "canvas") {

        let sub = chars_of(args[1].as_str());
        if chars_eq_str(&sub, "repo") {
            Ok(CliCommand::CanvasRepo { root: args[2].clone(), format: take_fmt(vals, 0), functions: take_on(vals, 1) })
        } else if chars_eq_str(&sub, "world") {
            Ok(CliCommand::CanvasWorld { dir: args[2].clone(), format: take_fmt(vals, 0) })
        } else {
            let mut m = chars_of("unknown canvas subcommand: ");
            append_chars(&mut m, &sub);
            Err(string_of(&m))
        }
    } else if chars_eq_str(&c, "agent-dag") {

        Ok(CliCommand::AgentDag { run_json: args[1].clone(), format: take_fmt(vals, 0) })
    } else if chars_eq_str(&c, "view") {
        Ok(CliCommand::View { dir: args[1].clone(), out: take_text(vals, 1), open: !take_on(vals, 0) })
    } else if chars_eq_str(&c, "tour") {
        Ok(CliCommand::Tour { out: take_text(vals, 1), open: !take_on(vals, 0) })
    } else if chars_eq_str(&c, "build") {
        Ok(
            CliCommand::Build {
                intent: args[1].clone(),
                live: take_on(vals, 0),
                out: take_text(vals, 1),
                step_ms: take_num(vals, 2, 600),
            },
        )
    } else if chars_eq_str(&c, "block") {
        match take_text(vals, 0) {
            Some(t) => Ok(CliCommand::Block { command: args[1].clone(), target: t }),
            None => Err(text_of("block: --target <world-dir> is required")),
        }
    } else if chars_eq_str(&c, "repo-watch") {
        match take_text(vals, 0) {
            Some(t) => Ok(
                CliCommand::RepoWatch {
                    root: args[1].clone(),
                    target: t,
                    poll_ms: take_num(vals, 1, 1500),
                    functions: take_on(vals, 2),
                },
            ),
            None => Err(text_of("repo-watch: --target <world-dir> is required")),
        }
    } else if chars_eq_str(&c, "branch") {
        Ok(CliCommand::Branch { dir: args[1].clone(), new_branch: args[2].clone(), from: take_text(vals, 0) })
    } else if chars_eq_str(&c, "agent") {
        match take_text(vals, 0) {
            Some(t) => Ok(
                CliCommand::Agent {
                    intent: args[1].clone(),
                    target: t,
                    step_ms: take_num(vals, 1, 1500),
                    fresh: take_on(vals, 2),
                },
            ),
            None => Err(text_of("agent: --target <world-dir> is required")),
        }
    } else if chars_eq_str(&c, "swarm") {
        match take_text(vals, 0) {
            Some(t) => {
                let count = take_num(vals, 1, 3);
                if count == 0 {
                    Err(text_of("swarm: --count must be ≥ 1"))
                } else {
                    Ok(
                        CliCommand::Swarm {
                            intent: args[1].clone(),
                            target: t,
                            count: #[verifier::truncate] (count as usize),
                            step_ms: take_num(vals, 2, 1200),
                            fresh: take_on(vals, 3),
                        },
                    )
                }
            },
            None => Err(text_of("swarm: --target <world-dir> is required")),
        }
    } else {
        Ok(CliCommand::Watch { dir: args[1].clone(), poll_ms: take_num(vals, 0, 500) })
    }
}

fn parse_flagged(args: &Vec<String>) -> (r: Result<CliCommand, String>)
    requires
        args@.len() >= 1,
        is_flagged(args_view(args@)[0]),
    ensures
        match r {
            Ok(c) => flagged_spec(args_view(args@)) == Ok::<Cmd, Seq<char>>(cmd_view(c)),
            Err(m) => flagged_spec(args_view(args@)) == Err::<Cmd, Seq<char>>(m@),
        },
{
    let ghost A = args_view(args@);
    let c = chars_of(args[0].as_str());
    assert(A[0] == c@);
    let p = positional_count(&c);
    if args.len() < 2 && p >= 1 {
        return Err(usage_string(args, 1));
    }
    if args.len() < 3 && p >= 2 {
        return Err(usage_string(args, 2));
    }
    let rules = rules_of(&c);
    match scan_flags(args, p + 1, &rules) {
        Ok(vals) => {
            proof {
                assert(vals@.len() == rules@.len()) by {
                    lemma_scan_keeps_len(A, rules@, (p + 1) as int, unset_all(rules@.len()));
                }
            }
            build_flagged(args, &vals)
        },
        Err(m) => Err(m),
    }
}

proof fn lemma_scan_keeps_len(args: Seq<Seq<char>>, rules: Seq<FlagRule>, i: int, st: Seq<Seen>)
    requires
        st.len() == rules.len(),
    ensures
        scan(args, rules, i, st) matches Ok(s) ==> s.len() == rules.len(),
    decreases args.len() - i,
{
    if 0 <= i < args.len() {
        let a = args[i];
        lemma_rule_index_range(rules, a, rules.len() as int);
        match rule_named(rules, a, rules.len() as int) {
            Some(k) => {
                if rules[k].kind is Switch {
                    lemma_scan_keeps_len(args, rules, i + 1, st.update(k, Seen::On));
                } else if i + 1 < args.len() {
                    match read_value(rules[k], args[i + 1]) {
                        Ok(v) => lemma_scan_keeps_len(args, rules, i + 2, st.update(k, v)),
                        Err(_) => {},
                    }
                }
            },
            None => match rule_prefixing(rules, a, rules.len() as int) {
                Some(k) => match read_value(rules[k], eq_value(rules[k], a)) {
                    Ok(v) => lemma_scan_keeps_len(args, rules, i + 1, st.update(k, v)),
                    Err(_) => {},
                },
                None => {},
            },
        }
    }
}

fn slug_list_string() -> (r: String)
    ensures
        r@ == slug_list(),
{
    let all = Perspective::all();
    let ghost parts = all@.map_values(|p: Perspective| slug_spec(p));
    let mut out: Vec<char> = Vec::new();
    let mut i: usize = 0;
    proof {
        reveal_strlit(", ");
    }
    assert(parts.take(0) =~= Seq::<Seq<char>>::empty());
    while i < all.len()
        invariant
            i <= all@.len(),
            all@ == all_spec(),
            parts == all@.map_values(|p: Perspective| slug_spec(p)),
            out@ == joined(parts.take(i as int), ", "@),
            ", "@ == seq![',', ' '],
        decreases all.len() - i,
    {
        assert(parts.take(i + 1).drop_last() =~= parts.take(i as int));
        let ghost before = out@;
        if i > 0 {
            append_str(&mut out, ", ");
        }
        let s = all[i].slug();
        append_str(&mut out, s);
        proof {
            assert(parts.take(i + 1)[i as int] == s@);
            if i == 0 {
                assert(parts.take(1) =~= seq![s@]);
                assert(before =~= Seq::<char>::empty());
            }
            assert(out@ =~= joined(parts.take(i + 1), ", "@));
        }
        i = i + 1;
    }
    assert(parts.take(all@.len() as int) =~= parts);
    string_of(&out)
}

proof fn lemma_render_flags_distinct()
    ensures
        "--perspective"@ != "--reveal"@,
        !starts_with("--perspective"@, "--perspective="@),
        !starts_with("--reveal"@, "--reveal="@),
        "--perspective="@.len() > 0,
        "--reveal="@.len() > 0,
{
    reveal_strlit("--perspective");
    reveal_strlit("--reveal");
    reveal_strlit("--perspective=");
    reveal_strlit("--reveal=");
    assert("--perspective"@.len() != "--reveal"@.len());
}

/// Whether `v` is a SemanticId in canonical text.
fn semantic_id_text_ok(v: &Vec<char>) -> (b: bool)
    ensures
        b == is_semantic_id_text(v@),
{
    match find_char_in(v, ':') {
        None => false,
        Some(i) => {
            if i == 0 {
                return false;
            }
            assert(i < v.len());
            let rest = skip_chars(v, i + 1);
            match find_char_in(&rest, ':') {
                None => false,
                Some(j) => j > 0 && j + 1 < rest.len(),
            }
        },
    }
}

fn reveal_refusal(v: &Vec<char>) -> (m: String)
    ensures
        m@ == reveal_error(v@),
{
    let mut out = chars_of("--reveal: invalid SemanticId `");
    append_chars(&mut out, v);
    append_str(
        &mut out,
        "`\n  expected canonical form realm:kind:stable_key[#instance], e.g. code:function:my_mod::my_fn",
    );
    string_of(&out)
}

fn parse_render(args: &Vec<String>) -> (r: Result<CliCommand, String>)
    requires
        args@.len() >= 1,
    ensures
        match r {
            Ok(c) => render_spec(args_view(args@)) == Ok::<Cmd, Seq<char>>(cmd_view(c)),
            Err(m) => render_spec(args_view(args@)) == Err::<Cmd, Seq<char>>(m@),
        },
{
    let ghost A = args_view(args@);
    if args.len() < 2 {
        return Err(text_of("usage: wish-world render world|repo|demo [--perspective <name>] <path>"));
    }
    proof {
        lemma_render_flags_distinct();
    }
    let pfx_p = chars_of("--perspective=");
    let pfx_r = chars_of("--reveal=");
    let mut p = Perspective::Engineering;
    let mut reveal_id: Option<String> = None;
    let mut path: Option<String> = None;
    let mut i: usize = 2;
    while i < args.len()
        invariant
            A == args_view(args@),
            A.len() == args@.len(),
            2 <= i,
            pfx_p@ == "--perspective="@,
            pfx_r@ == "--reveal="@,
            pfx_p@.len() > 0 && pfx_r@.len() > 0,
            render_scan(A, 2, Perspective::Engineering, None, None) == render_scan(A, i as int, p, ov(reveal_id), ov(path)),
        decreases args.len() - i,
    {
        let a = chars_of(args[i].as_str());
        assert(A[i as int] == a@);
        if chars_eq_str(&a, "--perspective") {
            if i + 1 >= args.len() {
                return Err(text_of("--perspective needs a value"));
            }
            assert(A[i + 1] == args@[i + 1]@);
            match Perspective::from_slug(args[i + 1].as_str()) {
                Some(q) => {
                    p = q;
                    i = i + 2;
                },
                None => {
                    let mut m = chars_of("unknown perspective: ");
                    append_str(&mut m, args[i + 1].as_str());
                    append_str(&mut m, ". valid: ");
                    let list = slug_list_string();
                    append_str(&mut m, list.as_str());
                    return Err(string_of(&m));
                },
            }
        } else if starts_with_chars(&a, &pfx_p) {
            let v = strip_prefix_all(&a, &pfx_p);
            let vs = string_of(&v);
            match Perspective::from_slug(vs.as_str()) {
                Some(q) => {
                    p = q;
                    i = i + 1;
                },
                None => {
                    let mut m = chars_of("unknown perspective: ");
                    append_chars(&mut m, &v);
                    return Err(string_of(&m));
                },
            }
        } else if chars_eq_str(&a, "--reveal") {
            if i + 1 >= args.len() {
                return Err(text_of("--reveal needs a SemanticId value"));
            }
            assert(A[i + 1] == args@[i + 1]@);
            let v = chars_of(args[i + 1].as_str());
            if !semantic_id_text_ok(&v) {
                return Err(reveal_refusal(&v));
            }
            reveal_id = Some(args[i + 1].clone());
            i = i + 2;
        } else if starts_with_chars(&a, &pfx_r) {
            let v = strip_prefix_all(&a, &pfx_r);
            if !semantic_id_text_ok(&v) {
                return Err(reveal_refusal(&v));
            }
            reveal_id = Some(string_of(&v));
            i = i + 1;
        } else if starts_with_str(&a, "--") {
            let mut m = chars_of("unknown flag: ");
            append_chars(&mut m, &a);
            return Err(string_of(&m));
        } else if path.is_none() {
            path = Some(args[i].clone());
            i = i + 1;
        } else {
            let mut m = chars_of("unexpected positional arg: ");
            append_chars(&mut m, &a);
            return Err(string_of(&m));
        }
    }
    let sub = chars_of(args[1].as_str());
    assert(A[1] == sub@);
    if chars_eq_str(&sub, "world") {
        match path {
            Some(d) => Ok(CliCommand::Render { target: RenderTarget::World, path: Some(d), perspective: p, reveal: reveal_id }),
            None => Err(
                text_of(
                    "usage: wish-world render world <world-dir> [--perspective <name>] [--reveal <semantic-id>]",
                ),
            ),
        }
    } else if chars_eq_str(&sub, "repo") {
        match path {
            Some(d) => Ok(CliCommand::Render { target: RenderTarget::Repo, path: Some(d), perspective: p, reveal: reveal_id }),
            None => Err(
                text_of("usage: wish-world render repo <root> [--perspective <name>] [--reveal <semantic-id>]"),
            ),
        }
    } else if chars_eq_str(&sub, "demo") {
        Ok(CliCommand::Render { target: RenderTarget::Demo, path, perspective: p, reveal: reveal_id })
    } else if chars_eq_str(&sub, "tensor") {
        Ok(CliCommand::Render { target: RenderTarget::Tensor, path, perspective: p, reveal: reveal_id })
    } else {
        let mut m = chars_of("unknown render target: ");
        append_chars(&mut m, &sub);
        Err(string_of(&m))
    }
}

fn is_simple_name(c: &Vec<char>) -> (b: bool)
    ensures
        b == is_simple(c@),
{
    chars_eq_str(c, "inspect") || chars_eq_str(c, "worldline") || chars_eq_str(c, "timetravel") || chars_eq_str(
        c,
        "branches",
    )
}

fn is_flagged_name(c: &Vec<char>) -> (b: bool)
    ensures
        b == is_flagged(c@),
{
    chars_eq_str(c, "canvas") || chars_eq_str(c, "agent-dag") || chars_eq_str(c, "view") || chars_eq_str(c, "tour")
        || chars_eq_str(c, "build") || chars_eq_str(c, "block") || chars_eq_str(c, "repo-watch") || chars_eq_str(
        c,
        "branch",
    ) || chars_eq_str(c, "agent") || chars_eq_str(c, "swarm") || chars_eq_str(c, "watch")
}

fn parse_simple(args: &Vec<String>) -> (r: Result<CliCommand, String>)
    requires
        args@.len() >= 1,
        is_simple(args_view(args@)[0]),
    ensures
        match r {
            Ok(c) => simple_spec(args_view(args@)) == Ok::<Cmd, Seq<char>>(cmd_view(c)),
            Err(m) => simple_spec(args_view(args@)) == Err::<Cmd, Seq<char>>(m@),
        },
{
    let ghost A = args_view(args@);
    let c = chars_of(args[0].as_str());
    assert(A[0] == c@);
    if args.len() < 2 {
        return Err(
            if chars_eq_str(&c, "inspect") {
                text_of("usage: wish-world inspect <world-dir>")
            } else if chars_eq_str(&c, "worldline") {
                text_of("usage: wish-world worldline <world-dir>")
            } else if chars_eq_str(&c, "timetravel") {
                text_of("usage: wish-world timetravel <world-dir>")
            } else {
                text_of("usage: wish-world branches <world-dir>")
            },
        );
    }
    assert(A[1] == args@[1]@);
    let d = args[1].clone();
    if chars_eq_str(&c, "inspect") {
        Ok(CliCommand::Inspect { dir: d })
    } else if chars_eq_str(&c, "worldline") {
        Ok(CliCommand::Worldline { dir: d })
    } else if chars_eq_str(&c, "timetravel") {
        Ok(CliCommand::Timetravel { dir: d })
    } else {
        Ok(CliCommand::Branches { dir: d })
    }
}

/// Parse the arguments of `wish-world` (the program name excluded).
pub fn parse_command(args: &Vec<String>) -> (r: Result<CliCommand, String>)
    ensures
        match r {
            Ok(c) => command_spec(args_view(args@)) == Ok::<Cmd, Seq<char>>(cmd_view(c)),
            Err(m) => command_spec(args_view(args@)) == Err::<Cmd, Seq<char>>(m@),
        },
{
    let ghost A = args_view(args@);
    if args.len() == 0 {
        return Ok(CliCommand::Help);
    }
    let c = chars_of(args[0].as_str());
    assert(A[0] == c@);
    if chars_eq_str(&c, "--help") || chars_eq_str(&c, "-h") || chars_eq_str(&c, "help") {
        Ok(CliCommand::Help)
    } else if chars_eq_str(&c, "version") || chars_eq_str(&c, "--version") || chars_eq_str(&c, "-V") {
        Ok(CliCommand::Version)
    } else if is_simple_name(&c) {
        parse_simple(args)
    } else if chars_eq_str(&c, "demo") {
        if args.len() < 2 {
            Err(text_of("usage: wish-world demo shanhai <out-dir>"))
        } else if args.len() < 3 {
            let mut m = chars_of("usage: wish-world demo ");
            append_str(&mut m, args[1].as_str());
            append_str(&mut m, " <out-dir>");
            assert(A[1] == args@[1]@);
            Err(string_of(&m))
        } else {
            assert(A[1] == args@[1]@);
            assert(A[2] == args@[2]@);
            if chars_eq_str(&chars_of(args[1].as_str()), "shanhai") {
                Ok(CliCommand::DemoShanhai { out: args[2].clone() })
            } else {
                let mut m = chars_of("unknown demo: ");
                append_str(&mut m, args[1].as_str());
                Err(string_of(&m))
            }
        }
    } else if is_flagged_name(&c) {
        parse_flagged(args)
    } else if chars_eq_str(&c, "render") {
        parse_render(args)
    } else {
        let mut m = chars_of("unknown subcommand: ");
        append_chars(&mut m, &c);
        append_str(&mut m, "\n\n");
        append_str(&mut m, HELP);
        Err(string_of(&m))
    }
}

pub open spec fn key_char(c: char) -> char {
    if ('a' <= c && c <= 'z') || ('A' <= c && c <= 'Z') || ('0' <= c && c <= '9') || c == '-' || c == '_' {
        c
    } else {
        '_'
    }
}

/// A key safe for file names: the first 40 characters, each ASCII
/// letter, digit, `-` or `_` kept and every other one replaced by `_`.
pub fn sanitize_key(s: &str) -> (r: String)
    ensures
        r@ == (if s@.len() <= 40 {
            s@
        } else {
            s@.take(40)
        }).map_values(|c: char| key_char(c)),
{
    let c = chars_of(s);
    let n: usize = if c.len() <= 40 {
        c.len()
    } else {
        40
    };
    let ghost src = if s@.len() <= 40 {
        s@
    } else {
        s@.take(40)
    };
    let mut out: Vec<char> = Vec::new();
    let mut i: usize = 0;
    while i < n
        invariant
            i <= n,
            n == src.len(),
            c@ == s@,
            src == (if s@.len() <= 40 {
                s@
            } else {
                s@.take(40)
            }),
            out@ == src.take(i as int).map_values(|x: char| key_char(x)),
        decreases n - i,
    {
        let ch = c[i];
        assert(src[i as int] == ch);
        let k = if ('a' <= ch && ch <= 'z') || ('A' <= ch && ch <= 'Z') || ('0' <= ch && ch <= '9') || ch == '-'
            || ch == '_' {
            ch
        } else {
            '_'
        };
        out.push(k);
        assert(src.take(i + 1).map_values(|x: char| key_char(x)) =~= src.take(i as int).map_values(
            |x: char| key_char(x),
        ).push(key_char(ch)));
        i = i + 1;
    }
    assert(src.take(n as int) =~= src);
    string_of(&out)
}

} // verus!
