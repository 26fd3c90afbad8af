//! The target program specification: how a command line is split into a
//! command and its arguments, and in what order spawn candidates are tried.

use vstd::prelude::*;
use vstd::string::*;

use crate::errors::PeekError;

verus! {

/// The characters on which a command line is split into tokens: the Unicode
/// white-space characters, the set the standard library's whitespace
/// splitting uses.
pub open spec fn is_space(c: char) -> bool {
    let n = c as u32;
    ||| n == 0x20
    ||| (0x09 <= n && n <= 0x0d)
    ||| n == 0x85
    ||| n == 0xa0
    ||| n == 0x1680
    ||| (0x2000 <= n && n <= 0x200a)
    ||| n == 0x2028
    ||| n == 0x2029
    ||| n == 0x202f
    ||| n == 0x205f
    ||| n == 0x3000
}

/// The executable test for `is_space`.
fn is_space_char(c: char) -> (r: bool)
    ensures
        r == is_space(c),
{
    let n = c as u32;
    n == 0x20 || (0x09 <= n && n <= 0x0d) || n == 0x85 || n == 0xa0 || n == 0x1680 || (0x2000 <= n
        && n <= 0x200a) || n == 0x2028 || n == 0x2029 || n == 0x202f || n == 0x205f || n == 0x3000
}

/// The whitespace-separated tokens of `s[i..]`, where `cur` is the partial
/// token read so far.
pub open spec fn tokens_from(s: Seq<char>, i: int, cur: Seq<char>) -> Seq<Seq<char>>
    decreases s.len() - i,
{
    if i < 0 || i >= s.len() {
        if cur.len() == 0 {
            Seq::empty()
        } else {
            seq![cur]
        }
    } else if is_space(s[i]) {
        if cur.len() == 0 {
            tokens_from(s, i + 1, Seq::empty())
        } else {
            seq![cur] + tokens_from(s, i + 1, Seq::empty())
        }
    } else {
        tokens_from(s, i + 1, cur.push(s[i]))
    }
}

/// The whitespace-separated tokens of a command line.
pub open spec fn tokens(s: Seq<char>) -> Seq<Seq<char>> {
    tokens_from(s, 0, Seq::empty())
}

/// Scanning a run of non-space characters that ends at a space or at the end
/// of the line yields that run as one finished token.
proof fn lemma_token_run(s: Seq<char>, start: int, end: int, cur: Seq<char>)
    requires
        0 <= start <= end <= s.len(),
        cur.len() > 0 || start < end,
        forall|j: int| start <= j < end ==> !is_space(s[j]),
        end == s.len() || is_space(s[end]),
    ensures
        tokens_from(s, start, cur) == seq![cur + s.subrange(start, end)] + tokens_from(
            s,
            end,
            Seq::empty(),
        ),
    decreases end - start,
{
    if start == end {
        assert(cur + s.subrange(start, end) =~= cur);
        if end == s.len() {
            assert(tokens_from(s, end, Seq::<char>::empty()) =~= Seq::<Seq<char>>::empty());
            assert(seq![cur] + Seq::<Seq<char>>::empty() =~= seq![cur]);
        } else {
            assert(is_space(s[end]));
            assert(tokens_from(s, start, cur) == seq![cur] + tokens_from(
                s,
                end + 1,
                Seq::<char>::empty(),
            ));
            assert(tokens_from(s, end, Seq::<char>::empty()) == tokens_from(
                s,
                end + 1,
                Seq::<char>::empty(),
            ));
        }
    } else {
        assert(!is_space(s[start]));
        let cur2 = cur.push(s[start]);
        lemma_token_run(s, start + 1, end, cur2);
        assert(cur2 + s.subrange(start + 1, end) =~= cur + s.subrange(start, end));
    }
}

/// Splits a command line into its whitespace-separated tokens.
pub fn split_tokens(s: &str) -> (out: Vec<String>)
    ensures
        out.deep_view() == tokens(s@),
{
    let n: usize = s.unicode_len();
    let mut out: Vec<String> = Vec::new();
    let mut i: usize = 0;
    while i < n
        invariant
            n == s@.len(),
            i <= n,
            tokens(s@) == out.deep_view() + tokens_from(s@, i as int, Seq::<char>::empty()),
        decreases n - i,
    {
        let c = s.get_char(i);
        if is_space_char(c) {
            assert(tokens_from(s@, i as int, Seq::<char>::empty()) == tokens_from(
                s@,
                i as int + 1,
                Seq::<char>::empty(),
            ));
            i = i + 1;
        } else {
            let start: usize = i;
            assert(!is_space(s@[start as int]));
            i = i + 1;
            loop
                invariant
                    n == s@.len(),
                    start < i <= n,
                    forall|j: int| start <= j < i ==> !is_space(s@[j]),
                ensures
                    start < i <= n,
                    forall|j: int| start <= j < i ==> !is_space(s@[j]),
                    i == n || is_space(s@[i as int]),
                decreases n - i,
            {
                if i >= n {
                    break ;
                }
                let d = s.get_char(i);
                if is_space_char(d) {
                    break ;
                }
                i = i + 1;
            }
            let ghost prev_dv = out.deep_view();
            let tok: String = String::from_str(s.substring_char(start, i));
            out.push(tok);
            proof {
                lemma_token_run(s@, start as int, i as int, Seq::<char>::empty());
                assert(Seq::<char>::empty() + s@.subrange(start as int, i as int) =~= s@.subrange(
                    start as int,
                    i as int,
                ));
                assert(out.deep_view() =~= prev_dv.push(s@.subrange(start as int, i as int)));
                assert(prev_dv + (seq![s@.subrange(start as int, i as int)] + tokens_from(
                    s@,
                    i as int,
                    Seq::<char>::empty(),
                )) =~= out.deep_view() + tokens_from(s@, i as int, Seq::<char>::empty()));
            }
        }
    }
    proof {
        assert(tokens_from(s@, n as int, Seq::<char>::empty()) =~= Seq::<Seq<char>>::empty());
        assert(out.deep_view() + Seq::<Seq<char>>::empty() =~= out.deep_view());
    }
    out
}

/// A target program resolved from a command line: the command to launch and
/// the arguments handed to it.
#[derive(Debug, Clone)]
pub struct Program {
    pub command: String,
    pub args: Vec<String>,
}

impl Program {
    /// Builds the target program from a command line: the first whitespace
    /// token is the command, the remaining tokens are its arguments. A
    /// command line without any token is a configuration error.
    pub fn new(command_line: &str) -> (r: Result<Program, PeekError>)
        ensures
            tokens(command_line@).len() == 0 ==> r == Err::<Program, PeekError>(
                PeekError::Configuration,
            ),
            tokens(command_line@).len() > 0 ==> {
                &&& r is Ok
                &&& r->Ok_0.command@ == tokens(command_line@)[0]
                &&& r->Ok_0.args.deep_view() == tokens(command_line@).skip(1)
            },
    {
        let mut toks = split_tokens(command_line);
        if toks.len() == 0 {
            Err(PeekError::Configuration)
        } else {
            let ghost all = toks.deep_view();
            let command = toks.remove(0);
            let p = Program { command, args: toks };
            proof {
                assert(p.args.deep_view() =~= all.skip(1));
            }
            Ok(p)
        }
    }
}

/// The spawn resolution order: first the bare command, to be looked up on the
/// search path, then the same command taken relative to the given working
/// directory.
pub fn spawn_candidates(cwd: &str, command: &str) -> (r: Vec<String>)
    ensures
        r.deep_view() == seq![command@, cwd@ + "/"@ + command@],
{
    let mut r: Vec<String> = Vec::new();
    r.push(String::from_str(command));
    let joined = String::from_str(cwd).concat("/").concat(command);
    r.push(joined);
    proof {
        assert(r.deep_view() =~= seq![command@, cwd@ + "/"@ + command@]);
    }
    r
}

/// How the target process is obtained: by spawning a new program or by
/// attaching to one that already runs.
#[derive(Debug, Clone)]
pub enum TargetSpec {
    Spawn(Program),
    Attach(u32),
}

/// Resolves the user-given target: exactly one of a command line and a
/// process identifier must be present, anything else is a configuration
/// error.
pub fn resolve_target(command_line: Option<&str>, pid: Option<u32>) -> (r: Result<
    TargetSpec,
    PeekError,
>)
    ensures
        command_line is None && pid is None ==> r == Err::<TargetSpec, PeekError>(
            PeekError::Configuration,
        ),
        command_line is Some && pid is Some ==> r == Err::<TargetSpec, PeekError>(
            PeekError::Configuration,
        ),
        command_line is None && pid is Some ==> r == Ok::<TargetSpec, PeekError>(
            TargetSpec::Attach(pid->0),
        ),
        command_line is Some && pid is None ==> {
            let toks = tokens(command_line->0@);
            &&& toks.len() == 0 ==> r == Err::<TargetSpec, PeekError>(PeekError::Configuration)
            &&& toks.len() > 0 ==> {
                &&& r is Ok
                &&& r->Ok_0 is Spawn
                &&& r->Ok_0->Spawn_0.command@ == toks[0]
                &&& r->Ok_0->Spawn_0.args.deep_view() == toks.skip(1)
            }
        },
{
    match (command_line, pid) {
        (Some(_), Some(_)) => Err(PeekError::Configuration),
        (None, None) => Err(PeekError::Configuration),
        (None, Some(p)) => Ok(TargetSpec::Attach(p)),
        (Some(line), None) => match Program::new(line) {
            Ok(program) => Ok(TargetSpec::Spawn(program)),
            Err(e) => Err(e),
        },
    }
}

} // verus!
