//! Where an engine's executable is looked for, and which one is chosen.
//!
//! The search is a pure function of a snapshot of the host: its operating
//! system, the home directory, the entries of the editor's extension
//! directory and which of the probed paths exist. Gathering the snapshot is
//! left to the caller, which learns the paths to probe from `candidates` and
//! `bundled_binaries`. The engines' own names come from `EngineNaming`; the
//! install layout of each operating system is fixed here.

use vstd::prelude::*;
use crate::command::BinaryRef;
use crate::engine::{Engine, EngineNames, EngineNaming, HostOs, opt_text, separator};
use crate::text::{contains_text, is_prefix, join2, join3, occurs_in, same_text, starts_with_text, texts};

verus! {

/// A snapshot of the host, as far as the search reads it.
#[derive(Clone, Debug)]
pub struct HostFacts {
    pub os: HostOs,
    pub home: String,
    /// Names in the editor's extension directory, in listing order.
    pub extension_entries: Vec<String>,
    /// The probed paths that exist.
    pub existing: Vec<String>,
}

/// One place an executable may be: the paths that must all exist, and the
/// executable reference it yields.
#[derive(Clone, Debug)]
pub struct Candidate {
    pub needs: Vec<String>,
    pub found: BinaryRef,
}

/// A candidate as plain values: required paths, program, leading arguments.
pub type CandidateView = (Seq<Seq<char>>, Seq<char>, Seq<Seq<char>>);

pub open spec fn candidate_view(c: Candidate) -> CandidateView {
    (texts(c.needs@), c.found.program@, texts(c.found.pre_args@))
}

pub open spec fn candidates_view(cs: Seq<Candidate>) -> Seq<CandidateView> {
    cs.map_values(|c: Candidate| candidate_view(c))
}

/// Path components joined with a separator.
pub open spec fn joined(sep: Seq<char>, parts: Seq<Seq<char>>) -> Seq<char>
    decreases parts.len(),
{
    if parts.len() == 0 {
        seq![]
    } else if parts.len() == 1 {
        parts[0]
    } else {
        joined(sep, parts.drop_last()) + sep + parts.last()
    }
}

/// A candidate that is found at one path and started from there.
pub open spec fn lone(p: Seq<char>) -> CandidateView {
    (seq![p], p, seq![])
}

/// A script run by an interpreter; both must exist.
pub open spec fn interpreted(script: Seq<char>, interpreter: Seq<char>) -> CandidateView {
    (seq![script, interpreter], interpreter, seq![script])
}

/// A script run by the interpreter found on the search path.
pub open spec fn interpreted_on_path(script: Seq<char>) -> CandidateView {
    (seq![script], "node"@, seq![script])
}

/// The fixed places, in order of preference, after the editor extensions:
/// for the primary engine a standalone install, system directories and the
/// package manager's user directory; for the secondary engine the package's
/// script run by an interpreter, then its command wrapper.
pub open spec fn candidate_table(e: Engine, n: EngineNaming, os: HostOs, home: Seq<char>) -> Seq<CandidateView> {
    let c = n.command@;
    let script = texts(n.package_script@);
    match (e, os) {
        (Engine::Primary, HostOs::Windows) => seq![
            lone(home + "\\AppData\\Roaming\\npm\\"@ + c + ".cmd"@),
        ],
        (Engine::Primary, HostOs::MacOs) => seq![
            lone(home + "/."@ + c + "/local/"@ + c),
            lone("/opt/homebrew/bin/"@ + c),
            lone("/usr/local/bin/"@ + c),
            lone(home + "/.npm-global/bin/"@ + c),
        ],
        (Engine::Primary, HostOs::Linux) => seq![
            lone(home + "/."@ + c + "/local/"@ + c),
            lone("/usr/local/bin/"@ + c),
            lone("/usr/bin/"@ + c),
            lone(home + "/.npm-global/bin/"@ + c),
        ],
        (Engine::Secondary, HostOs::Windows) => {
            let s = home + "\\AppData\\Roaming\\npm\\node_modules\\"@ + joined("\\"@, script);
            seq![
                interpreted(s, home + "\\AppData\\Roaming\\npm\\node.exe"@),
                interpreted(s, "C:\\Program Files\\nodejs\\node.exe"@),
                interpreted_on_path(s),
                lone(home + "\\AppData\\Roaming\\npm\\"@ + c + ".cmd"@),
            ]
        },
        (Engine::Secondary, _) => seq![
            interpreted_on_path(home + "/.npm-global/lib/node_modules/"@ + joined("/"@, script)),
            interpreted_on_path("/usr/local/lib/node_modules/"@ + joined("/"@, script)),
            lone(home + "/.npm-global/bin/"@ + c),
        ] + (if os == HostOs::MacOs {
            seq![lone("/opt/homebrew/bin/"@ + c), lone("/usr/local/bin/"@ + c)]
        } else {
            seq![]
        }),
    }
}

/// The editor's extension directory.
pub open spec fn extension_dir(os: HostOs, home: Seq<char>) -> Seq<char> {
    match os {
        HostOs::Windows => home + "\\.vscode\\extensions"@,
        _ => home + "/.vscode/extensions"@,
    }
}

/// The platform word that a bundled extension's directory name carries.
pub open spec fn platform_token(os: HostOs) -> Seq<char> {
    match os {
        HostOs::Windows => "win32"@,
        HostOs::MacOs => "darwin"@,
        HostOs::Linux => "linux"@,
    }
}

/// Whether an extension directory entry bundles the engine for this platform.
pub open spec fn extension_matches(n: EngineNaming, os: HostOs, name: Seq<char>) -> bool {
    is_prefix(n.extension_prefix@, name) && occurs_in(platform_token(os), name)
}

/// The executable inside a bundled extension.
pub open spec fn extension_binary(n: EngineNaming, os: HostOs, home: Seq<char>, name: Seq<char>) -> Seq<char> {
    let sep = separator(os);
    extension_dir(os, home) + sep + name + sep + "resources"@ + sep + "native-binary"@ + sep
        + n.command@ + if os == HostOs::Windows { ".exe"@ } else { seq![] }
}

/// The executables of the matching extension entries, in listing order.
pub open spec fn extension_binaries(n: EngineNaming, os: HostOs, home: Seq<char>, entries: Seq<Seq<char>>) -> Seq<Seq<char>>
    decreases entries.len(),
{
    if entries.len() == 0 {
        seq![]
    } else {
        let name = entries.last();
        extension_binaries(n, os, home, entries.drop_last()) + if extension_matches(n, os, name) {
            seq![extension_binary(n, os, home, name)]
        } else {
            seq![]
        }
    }
}

/// The last path of `paths` that exists.
pub open spec fn last_existing(paths: Seq<Seq<char>>, existing: Seq<Seq<char>>) -> Option<Seq<char>>
    decreases paths.len(),
{
    if paths.len() == 0 {
        None
    } else if existing.contains(paths.last()) {
        Some(paths.last())
    } else {
        last_existing(paths.drop_last(), existing)
    }
}

/// Whether every required path exists.
pub open spec fn all_exist(needs: Seq<Seq<char>>, existing: Seq<Seq<char>>) -> bool {
    forall|i: int| 0 <= i < needs.len() ==> existing.contains(#[trigger] needs[i])
}

/// The first candidate whose required paths all exist.
pub open spec fn first_available(cands: Seq<CandidateView>, existing: Seq<Seq<char>>) -> Option<CandidateView>
    decreases cands.len(),
{
    if cands.len() == 0 {
        None
    } else if all_exist(cands[0].0, existing) {
        Some(cands[0])
    } else {
        first_available(cands.drop_first(), existing)
    }
}

/// The executable chosen for an engine: a binary bundled in an editor
/// extension for the primary engine (the last one listed that exists), else
/// the first available candidate, else the bare command name.
pub open spec fn located(
    e: Engine,
    n: EngineNaming,
    os: HostOs,
    home: Seq<char>,
    entries: Seq<Seq<char>>,
    existing: Seq<Seq<char>>,
) -> (Seq<char>, Seq<Seq<char>>) {
    let bundled = last_existing(extension_binaries(n, os, home, entries), existing);
    if e == Engine::Primary && bundled is Some {
        (bundled->0, seq![])
    } else {
        match first_available(candidate_table(e, n, os, home), existing) {
            Some(c) => (c.1, c.2),
            None => (n.command@, seq![]),
        }
    }
}

pub open spec fn located_for(e: Engine, n: EngineNaming, f: HostFacts) -> (Seq<char>, Seq<Seq<char>>) {
    located(e, n, f.os, f.home@, texts(f.extension_entries@), texts(f.existing@))
}

/// Path components joined with a separator.
pub fn join_parts(sep: &str, parts: &Vec<String>) -> (r: String)
    ensures
        r@ == joined(sep@, texts(parts@)),
{
    let mut r = String::new();
    let mut i: usize = 0;
    while i < parts.len()
        invariant
            i <= parts@.len(),
            r@ == joined(sep@, texts(parts@.subrange(0, i as int))),
        decreases parts@.len() - i,
    {
        let ghost pre = texts(parts@.subrange(0, i + 1));
        assert(pre.drop_last() =~= texts(parts@.subrange(0, i as int)));
        assert(pre.last() == parts@[i as int]@);
        if i > 0 {
            r.append(sep);
        } else {
            r = String::new();
        }
        r.append(parts[i].as_str());
        assert(r@ =~= joined(sep@, pre));
        i += 1;
    }
    assert(parts@.subrange(0, i as int) =~= parts@);
    r
}

fn lone_candidate(p: String) -> (r: Candidate)
    ensures
        candidate_view(r) == lone(p@),
{
    let needs = vec![p.clone()];
    let r = Candidate { needs, found: BinaryRef { program: p, pre_args: Vec::new() } };
    assert(texts(r.needs@) =~= seq![p@]);
    assert(texts(r.found.pre_args@) =~= seq![]);
    r
}

fn interpreted_candidate(script: &String, interpreter: String, check_interpreter: bool) -> (r: Candidate)
    ensures
        check_interpreter ==> candidate_view(r) == interpreted(script@, interpreter@),
        !check_interpreter && interpreter@ == "node"@ ==> candidate_view(r) == interpreted_on_path(script@),
{
    let needs = if check_interpreter {
        vec![script.clone(), interpreter.clone()]
    } else {
        vec![script.clone()]
    };
    let pre_args = vec![script.clone()];
    let r = Candidate { needs, found: BinaryRef { program: interpreter, pre_args } };
    assert(texts(r.found.pre_args@) =~= seq![script@]);
    if check_interpreter {
        assert(texts(r.needs@) =~= seq![script@, interpreter@]);
    } else {
        assert(texts(r.needs@) =~= seq![script@]);
    }
    r
}

fn path4(a: &str, b: &str, c: &str, d: &str) -> (r: String)
    ensures
        r@ == a@ + b@ + c@ + d@,
{
    let mut r = join3(a, b, c);
    r.append(d);
    r
}

/// The fixed places where an engine's executable is looked for, in order
/// of preference.
pub fn candidates(e: Engine, n: &EngineNaming, os: HostOs, home: &str) -> (r: Vec<Candidate>)
    ensures
        candidates_view(r@) == candidate_table(e, *n, os, home@),
{
    let c = n.command.as_str();
    let mut v: Vec<Candidate> = Vec::new();
    match (e, os) {
        (Engine::Primary, HostOs::Windows) => {
            v.push(lone_candidate(path4(home, "\\AppData\\Roaming\\npm\\", c, ".cmd")));
        },
        (Engine::Primary, HostOs::MacOs) => {
            v.push(lone_candidate(path4(home, "/.", c, "/local/").concat(c)));
            v.push(lone_candidate(join2("/opt/homebrew/bin/", c)));
            v.push(lone_candidate(join2("/usr/local/bin/", c)));
            v.push(lone_candidate(join3(home, "/.npm-global/bin/", c)));
        },
        (Engine::Primary, HostOs::Linux) => {
            v.push(lone_candidate(path4(home, "/.", c, "/local/").concat(c)));
            v.push(lone_candidate(join2("/usr/local/bin/", c)));
            v.push(lone_candidate(join2("/usr/bin/", c)));
            v.push(lone_candidate(join3(home, "/.npm-global/bin/", c)));
        },
        (Engine::Secondary, HostOs::Windows) => {
            let rel = join_parts("\\", &n.package_script);
            let script = join3(home, "\\AppData\\Roaming\\npm\\node_modules\\", rel.as_str());
            v.push(interpreted_candidate(&script, join2(home, "\\AppData\\Roaming\\npm\\node.exe"), true));
            v.push(interpreted_candidate(&script, String::from_str("C:\\Program Files\\nodejs\\node.exe"), true));
            v.push(interpreted_candidate(&script, String::from_str("node"), false));
            v.push(lone_candidate(path4(home, "\\AppData\\Roaming\\npm\\", c, ".cmd")));
        },
        (Engine::Secondary, _) => {
            let rel = join_parts("/", &n.package_script);
            let global = join3(home, "/.npm-global/lib/node_modules/", rel.as_str());
            let system = join2("/usr/local/lib/node_modules/", rel.as_str());
            v.push(interpreted_candidate(&global, String::from_str("node"), false));
            v.push(interpreted_candidate(&system, String::from_str("node"), false));
            v.push(lone_candidate(join3(home, "/.npm-global/bin/", c)));
            if os == HostOs::MacOs {
                v.push(lone_candidate(join2("/opt/homebrew/bin/", c)));
                v.push(lone_candidate(join2("/usr/local/bin/", c)));
            }
        },
    }
    assert(candidates_view(v@) =~= candidate_table(e, *n, os, home@));
    v
}

/// The editor's extension directory under a home directory.
pub fn extension_dir_of(os: HostOs, home: &str) -> (r: String)
    ensures
        r@ == extension_dir(os, home@),
{
    match os {
        HostOs::Windows => join2(home, "\\.vscode\\extensions"),
        _ => join2(home, "/.vscode/extensions"),
    }
}

fn platform_token_of(os: HostOs) -> (r: &'static str)
    ensures
        r@ == platform_token(os),
{
    match os {
        HostOs::Windows => "win32",
        HostOs::MacOs => "darwin",
        HostOs::Linux => "linux",
    }
}

/// Whether an extension directory entry bundles the engine for `os`.
pub fn is_bundled_extension(n: &EngineNaming, os: HostOs, name: &str) -> (r: bool)
    ensures
        r == extension_matches(*n, os, name@),
{
    starts_with_text(name, n.extension_prefix.as_str()) && contains_text(name, platform_token_of(os))
}

/// The executables of the matching extension entries, in listing order:
/// the paths whose existence decides the bundled choice.
pub fn bundled_binaries(n: &EngineNaming, os: HostOs, home: &str, entries: &Vec<String>) -> (r: Vec<String>)
    ensures
        texts(r@) == extension_binaries(*n, os, home@, texts(entries@)),
{
    let dir = extension_dir_of(os, home);
    let sep = os.separator();
    let exe = if os == HostOs::Windows { ".exe" } else { "" };
    proof {
        reveal_strlit("");
    }
    let mut r: Vec<String> = Vec::new();
    let mut i: usize = 0;
    while i < entries.len()
        invariant
            i <= entries@.len(),
            dir@ == extension_dir(os, home@),
            sep@ == separator(os),
            exe@ == if os == HostOs::Windows { ".exe"@ } else { seq![] },
            texts(r@) == extension_binaries(*n, os, home@, texts(entries@.subrange(0, i as int))),
        decreases entries@.len() - i,
    {
        let name = &entries[i];
        let ghost prefix = texts(entries@.subrange(0, i + 1));
        assert(prefix.drop_last() =~= texts(entries@.subrange(0, i as int)));
        assert(prefix.last() == name@);
        if is_bundled_extension(n, os, name.as_str()) {
            let mut bin = join3(dir.as_str(), sep, name.as_str());
            bin.append(sep);
            bin.append("resources");
            bin.append(sep);
            bin.append("native-binary");
            bin.append(sep);
            bin.append(n.command.as_str());
            bin.append(exe);
            r.push(bin);
        }
        assert(texts(r@) =~= extension_binaries(*n, os, home@, prefix));
        i += 1;
    }
    assert(entries@.subrange(0, i as int) =~= entries@);
    r
}

/// Whether a path is among the existing ones.
pub fn path_exists(existing: &Vec<String>, p: &str) -> (r: bool)
    ensures
        r == texts(existing@).contains(p@),
{
    let mut i: usize = 0;
    while i < existing.len()
        invariant
            i <= existing@.len(),
            forall|k: int| 0 <= k < i ==> existing@[k]@ != p@,
        decreases existing@.len() - i,
    {
        if same_text(existing[i].as_str(), p) {
            assert(texts(existing@)[i as int] == p@);
            return true;
        }
        i += 1;
    }
    assert(!texts(existing@).contains(p@)) by {
        if texts(existing@).contains(p@) {
            let k = choose|k: int| 0 <= k < texts(existing@).len() && texts(existing@)[k] == p@;
            assert(existing@[k]@ == p@);
        }
    }
    false
}

fn last_existing_of(paths: &Vec<String>, existing: &Vec<String>) -> (r: Option<String>)
    ensures
        opt_text(r) == last_existing(texts(paths@), texts(existing@)),
{
    let mut best: Option<String> = None;
    let mut i: usize = 0;
    while i < paths.len()
        invariant
            i <= paths@.len(),
            opt_text(best) == last_existing(texts(paths@.subrange(0, i as int)), texts(existing@)),
        decreases paths@.len() - i,
    {
        let ghost prefix = texts(paths@.subrange(0, i + 1));
        assert(prefix.drop_last() =~= texts(paths@.subrange(0, i as int)));
        assert(prefix.last() == paths@[i as int]@);
        if path_exists(existing, paths[i].as_str()) {
            best = Some(paths[i].clone());
        }
        i += 1;
    }
    assert(paths@.subrange(0, i as int) =~= paths@);
    best
}

fn all_exist_of(needs: &Vec<String>, existing: &Vec<String>) -> (r: bool)
    ensures
        r == all_exist(texts(needs@), texts(existing@)),
{
    let mut i: usize = 0;
    while i < needs.len()
        invariant
            i <= needs@.len(),
            forall|k: int| 0 <= k < i ==> texts(existing@).contains(#[trigger] texts(needs@)[k]),
        decreases needs@.len() - i,
    {
        if !path_exists(existing, needs[i].as_str()) {
            assert(!texts(existing@).contains(texts(needs@)[i as int]));
            return false;
        }
        i += 1;
    }
    true
}

fn first_available_of(cands: &Vec<Candidate>, existing: &Vec<String>) -> (r: Option<usize>)
    ensures
        match first_available(candidates_view(cands@), texts(existing@)) {
            Some(c) => r is Some && r->0 < cands@.len() && candidate_view(cands@[r->0 as int]) == c,
            None => r is None,
        },
{
    let ghost all = candidates_view(cands@);
    assert(all.subrange(0, all.len() as int) =~= all);
    let mut i: usize = 0;
    while i < cands.len()
        invariant
            i <= cands@.len(),
            all == candidates_view(cands@),
            first_available(all, texts(existing@)) == first_available(all.subrange(i as int, all.len() as int), texts(existing@)),
        decreases cands@.len() - i,
    {
        let ghost rest = all.subrange(i as int, all.len() as int);
        assert(rest[0] == candidate_view(cands@[i as int]));
        assert(rest.drop_first() =~= all.subrange(i + 1, all.len() as int));
        if all_exist_of(&cands[i].needs, existing) {
            return Some(i);
        }
        i += 1;
    }
    assert(all.subrange(i as int, all.len() as int) =~= seq![]);
    None
}

/// Chooses an engine's executable from a snapshot of the host.
pub fn locate(e: Engine, n: &EngineNaming, facts: &HostFacts) -> (r: BinaryRef)
    ensures
        (r.program@, texts(r.pre_args@)) == located_for(e, *n, *facts),
{
    if e == Engine::Primary {
        let bins = bundled_binaries(n, facts.os, facts.home.as_str(), &facts.extension_entries);
        if let Some(bin) = last_existing_of(&bins, &facts.existing) {
            let r = BinaryRef { program: bin, pre_args: Vec::new() };
            assert(texts(r.pre_args@) =~= seq![]);
            return r;
        }
    }
    let mut table = candidates(e, n, facts.os, facts.home.as_str());
    match first_available_of(&table, &facts.existing) {
        Some(i) => table.remove(i).found,
        None => {
            let r = BinaryRef { program: n.command.clone(), pre_args: Vec::new() };
            assert(texts(r.pre_args@) =~= seq![]);
            r
        },
    }
}

/// The primary engine's executable; its bare command name when no
/// installation was found.
pub fn check_claude_available(names: &EngineNames, facts: &HostFacts) -> (r: String)
    ensures
        r@ == located_for(Engine::Primary, names.primary, *facts).0,
{
    locate(Engine::Primary, &names.primary, facts).program
}

/// The secondary engine's executable and the arguments that precede its own.
pub fn find_gemini_binary(names: &EngineNames, facts: &HostFacts) -> (r: BinaryRef)
    ensures
        (r.program@, texts(r.pre_args@)) == located_for(Engine::Secondary, names.secondary, *facts),
{
    locate(Engine::Secondary, &names.secondary, facts)
}

/// The failure reported when no installation of the primary engine exists.
pub open spec fn not_found_text(command: Seq<char>) -> Seq<char> {
    command + " CLI not found: no installation was located"@
}

/// Whether the primary engine is installed: the located executable, or a
/// failure when the search fell back to the bare command name.
pub fn check_claude(names: &EngineNames, facts: &HostFacts) -> (r: Result<String, String>)
    ensures
        r is Ok <==> located_for(Engine::Primary, names.primary, *facts).0 != names.primary.command@,
        r is Ok ==> r->Ok_0@ == located_for(Engine::Primary, names.primary, *facts).0,
        r is Err ==> r->Err_0@ == not_found_text(names.primary.command@),
{
    let binary = check_claude_available(names, facts);
    if same_text(binary.as_str(), names.primary.command.as_str()) {
        Err(join2(names.primary.command.as_str(), " CLI not found: no installation was located"))
    } else {
        Ok(binary)
    }
}

} // verus!
