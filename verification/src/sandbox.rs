//! The sandbox stage: the configuration document handed to the isolated
//! execution binary, the fixed-format result file it writes back, and
//! the rules turning one run into one per-case result.

use vstd::prelude::*;
use vstd::string::*;

use crate::compare::{compare_output, outputs_match, split_into_lines, split_lines};
use crate::error::Error;
use crate::strutil::{
    int_str, parse_i32, push_decimal_i32, push_two_digit, spec_parse_i32, str_eq,
    string_from_chars, two_digit_str,
};
use crate::submission::JudgeResult;

verus! {

/// The name of the directory holding one case's `STDIN` and `STDOUT`
/// files: the task index and the case index, each zero-padded to two
/// decimal digits.
pub fn case_dir_name(task_index: i32, case_index: i32) -> (r: String)
    requires
        task_index >= 0,
        case_index >= 0,
    ensures
        r@ == two_digit_str(task_index as int) + two_digit_str(case_index as int),
{
    let mut buf: Vec<char> = Vec::new();
    push_two_digit(task_index, &mut buf);
    push_two_digit(case_index, &mut buf);
    proof {
        assert(buf@ =~= two_digit_str(task_index as int) + two_digit_str(case_index as int));
    }
    string_from_chars(&buf)
}

/// The limits and paths one sandbox invocation is configured with.
#[derive(Debug)]
pub struct SandboxConfig {
    /// The task's memory limit, in kilobytes.
    pub memory_limit: i32,
    /// The task's time limit, in milliseconds.
    pub time_limit: i32,
    /// The numeric code of the submission's language.
    pub lang_code: i32,
    /// Where the case's input is read from.
    pub stdin_path: String,
    /// Where the program's standard output is captured.
    pub stdout_path: String,
    /// Where the program's standard error is captured.
    pub stderr_path: String,
    /// Where the sandbox writes its machine-readable result file.
    pub output_path: String,
}

/// One uppercase hexadecimal digit.
pub open spec fn hex_digit(d: int) -> char {
    if d == 0 {
        '0'
    } else if d == 1 {
        '1'
    } else if d == 2 {
        '2'
    } else if d == 3 {
        '3'
    } else if d == 4 {
        '4'
    } else if d == 5 {
        '5'
    } else if d == 6 {
        '6'
    } else if d == 7 {
        '7'
    } else if d == 8 {
        '8'
    } else if d == 9 {
        '9'
    } else if d == 10 {
        'A'
    } else if d == 11 {
        'B'
    } else if d == 12 {
        'C'
    } else if d == 13 {
        'D'
    } else if d == 14 {
        'E'
    } else {
        'F'
    }
}

/// A number written as four hexadecimal digits.
pub open spec fn hex4(n: int) -> Seq<char> {
    seq![
        hex_digit(n / 0x1000 % 16),
        hex_digit(n / 0x100 % 16),
        hex_digit(n / 16 % 16),
        hex_digit(n % 16),
    ]
}

/// How one character is written inside a double-quoted configuration
/// string: the short escapes of the usual basic-string grammar, a
/// four-digit escape for the other control characters, and the
/// character itself for everything else.
pub open spec fn esc_char(c: char) -> Seq<char> {
    if c == '\u{8}' {
        seq!['\\', 'b']
    } else if c == '\t' {
        seq!['\\', 't']
    } else if c == '\n' {
        seq!['\\', 'n']
    } else if c == '\u{c}' {
        seq!['\\', 'f']
    } else if c == '\r' {
        seq!['\\', 'r']
    } else if c == '"' {
        seq!['\\', '"']
    } else if c == '\\' {
        seq!['\\', '\\']
    } else if c as u32 <= 0x1f || c as u32 == 0x7f {
        seq!['\\', 'u'] + hex4(c as u32 as int)
    } else {
        seq![c]
    }
}

/// A character sequence with every character written as the quoted
/// grammar demands.
pub open spec fn escaped_str(s: Seq<char>) -> Seq<char>
    decreases s.len(),
{
    if s.len() == 0 {
        Seq::<char>::empty()
    } else {
        escaped_str(s.drop_last()) + esc_char(s.last())
    }
}

/// A character sequence as a double-quoted configuration value.
pub open spec fn quoted(s: Seq<char>) -> Seq<char> {
    seq!['"'] + escaped_str(s) + seq!['"']
}

fn hex_digit_exec(d: u32) -> (c: char)
    requires
        d < 16,
    ensures
        c == hex_digit(d as int),
{
    if d == 0 {
        '0'
    } else if d == 1 {
        '1'
    } else if d == 2 {
        '2'
    } else if d == 3 {
        '3'
    } else if d == 4 {
        '4'
    } else if d == 5 {
        '5'
    } else if d == 6 {
        '6'
    } else if d == 7 {
        '7'
    } else if d == 8 {
        '8'
    } else if d == 9 {
        '9'
    } else if d == 10 {
        'A'
    } else if d == 11 {
        'B'
    } else if d == 12 {
        'C'
    } else if d == 13 {
        'D'
    } else if d == 14 {
        'E'
    } else {
        'F'
    }
}

fn push_esc_char(c: char, out: &mut Vec<char>)
    ensures
        final (out)@ == old(out)@ + esc_char(c),
{
    let u: u32 = c as u32;
    if c == '\u{8}' {
        out.push('\\');
        out.push('b');
    } else if c == '\t' {
        out.push('\\');
        out.push('t');
    } else if c == '\n' {
        out.push('\\');
        out.push('n');
    } else if c == '\u{c}' {
        out.push('\\');
        out.push('f');
    } else if c == '\r' {
        out.push('\\');
        out.push('r');
    } else if c == '"' {
        out.push('\\');
        out.push('"');
    } else if c == '\\' {
        out.push('\\');
        out.push('\\');
    } else if u <= 0x1f || u == 0x7f {
        out.push('\\');
        out.push('u');
        out.push(hex_digit_exec(u / 0x1000 % 16));
        out.push(hex_digit_exec(u / 0x100 % 16));
        out.push(hex_digit_exec(u / 16 % 16));
        out.push(hex_digit_exec(u % 16));
    } else {
        out.push(c);
    }
    proof {
        assert(out@ =~= old(out)@ + esc_char(c));
    }
}

fn push_literal(s: &str, out: &mut Vec<char>)
    ensures
        final (out)@ == old(out)@ + s@,
{
    let n: usize = s.unicode_len();
    let mut i: usize = 0;
    proof {
        assert(out@ =~= old(out)@ + s@.take(0));
    }
    while i < n
        invariant
            i <= n,
            n == s@.len(),
            out@ == old(out)@ + s@.take(i as int),
        decreases n - i,
    {
        out.push(s.get_char(i));
        proof {
            assert(old(out)@ + s@.take(i as int).push(s@[i as int]) =~= old(out)@ + s@.take(i + 1));
            assert(s@.take(i as int).push(s@[i as int]) =~= s@.take(i + 1));
        }
        i = i + 1;
    }
    proof {
        assert(s@.take(n as int) =~= s@);
    }
}

fn push_quoted(s: &String, out: &mut Vec<char>)
    ensures
        final (out)@ == old(out)@ + quoted(s@),
{
    out.push('"');
    let ghost mid0 = out@;
    let n: usize = s.as_str().unicode_len();
    let mut i: usize = 0;
    proof {
        assert(out@ =~= mid0 + escaped_str(s@.take(0)));
    }
    while i < n
        invariant
            i <= n,
            n == s@.len(),
            out@ == mid0 + escaped_str(s@.take(i as int)),
        decreases n - i,
    {
        let c = s.as_str().get_char(i);
        proof {
            assert(s@.take(i + 1).drop_last() =~= s@.take(i as int));
            assert(s@.take(i + 1).last() == s@[i as int]);
        }
        push_esc_char(c, out);
        proof {
            assert(mid0 + escaped_str(s@.take(i as int)) + esc_char(s@[i as int]) =~= mid0
                + escaped_str(s@.take(i + 1)));
        }
        i = i + 1;
    }
    out.push('"');
    proof {
        assert(s@.take(n as int) =~= s@);
        assert(out@ =~= old(out)@ + quoted(s@));
    }
}

/// The configuration document one sandbox invocation is handed: one
/// `key = value` line per key, keys in byte order, string values
/// double-quoted under the escape grammar above, and the fixed values
/// the judge always uses — working directory `"."`, an enlarged stack,
/// at most ten processes, and a ten-kilobyte output ceiling.
pub open spec fn spec_sandbox_config_text(c: SandboxConfig) -> Seq<char> {
    "cwd = \".\"\nlang = "@ + int_str(c.lang_code as int) + "\nlarge-stack = true\nmax-process = 10\nmemory-limit = "@
        + int_str(c.memory_limit as int) + "\noutput = "@ + quoted(c.output_path@)
        + "\noutput-size-limit = 10000\nruntime-limit = "@ + int_str(c.time_limit as int)
        + "\nstderr = "@ + quoted(c.stderr_path@) + "\nstdin = "@ + quoted(c.stdin_path@)
        + "\nstdout = "@ + quoted(c.stdout_path@) + "\n"@
}

/// Renders the configuration document for one sandbox invocation.
pub fn sandbox_config_text(c: &SandboxConfig) -> (r: String)
    ensures
        r@ == spec_sandbox_config_text(*c),
{
    let mut out: Vec<char> = Vec::new();
    push_literal("cwd = \".\"\nlang = ", &mut out);
    proof {
        assert(out@ =~= "cwd = \".\"\nlang = "@);
    }
    push_decimal_i32(c.lang_code, &mut out);
    push_literal("\nlarge-stack = true\nmax-process = 10\nmemory-limit = ", &mut out);
    push_decimal_i32(c.memory_limit, &mut out);
    push_literal("\noutput = ", &mut out);
    push_quoted(&c.output_path, &mut out);
    push_literal("\noutput-size-limit = 10000\nruntime-limit = ", &mut out);
    push_decimal_i32(c.time_limit, &mut out);
    push_literal("\nstderr = ", &mut out);
    push_quoted(&c.stderr_path, &mut out);
    push_literal("\nstdin = ", &mut out);
    push_quoted(&c.stdin_path, &mut out);
    push_literal("\nstdout = ", &mut out);
    push_quoted(&c.stdout_path, &mut out);
    push_literal("\n", &mut out);
    string_from_chars(&out)
}

/// A line as the result-file reader sees it: a carriage return standing
/// right before the line ending is not part of the line.
pub open spec fn strip_cr(l: Seq<char>) -> Seq<char> {
    if l.len() > 0 && l.last() == '\r' {
        l.drop_last()
    } else {
        l
    }
}

/// A text read as newline-delimited lines: every `'\n'`-terminated line
/// with its optional final carriage return removed, and the unterminated
/// tail kept as one more line where the text does not end in `'\n'`.
pub open spec fn file_lines(s: Seq<char>) -> Seq<Seq<char>> {
    let raw = split_lines(s);
    let full = raw.take(raw.len() - 1).map_values(|l: Seq<char>| strip_cr(l));
    if s.len() == 0 || s.last() == '\n' {
        full
    } else {
        full.push(raw.last())
    }
}

/// Reads a text as newline-delimited lines.
pub fn result_file_lines(s: &str) -> (r: Vec<Vec<char>>)
    ensures
        crate::compare::lines_view(r@) == file_lines(s@),
{
    let mut raw = split_into_lines(s);
    let ghost rawv = crate::compare::lines_view(raw@);
    let ghost full = rawv.take(rawv.len() - 1).map_values(|l: Seq<char>| strip_cr(l));
    proof {
        crate::compare::lemma_split_lines_nonempty(s@);
    }
    let n: usize = s.unicode_len();
    let ends_nl: bool = n == 0 || s.get_char(n - 1) == '\n';
    proof {
        if n > 0 {
            assert(s@.last() == s@[n - 1]);
        }
    }
    let mut out: Vec<Vec<char>> = Vec::new();
    let ghost mut i: int = 0;
    while raw.len() > 1
        invariant
            0 <= i <= rawv.len() - 1,
            full == rawv.take(rawv.len() - 1).map_values(|l: Seq<char>| strip_cr(l)),
            raw@.len() == rawv.len() - i,
            forall|k: int| 0 <= k < raw@.len() ==> (#[trigger] raw@[k])@ == rawv[k + i],
            out@.len() == i,
            forall|k: int| 0 <= k < i ==> (#[trigger] out@[k])@ == full[k],
        decreases raw@.len(),
    {
        let mut l = raw.remove(0);
        proof {
            assert(l@ == rawv[i]);
            assert(forall|k: int|
                0 <= k < raw@.len() ==> (#[trigger] raw@[k])@ == rawv[k + (i + 1)]);
        }
        if l.len() > 0 && l[l.len() - 1] == '\r' {
            let cut = l.len() - 1;
            l.truncate(cut);
            proof {
                assert(l@ =~= strip_cr(rawv[i]));
            }
        } else {
            proof {
                assert(l@ == strip_cr(rawv[i]));
            }
        }
        proof {
            assert(full[i] == strip_cr(rawv[i]));
        }
        out.push(l);
        proof {
            i = i + 1;
        }
    }
    proof {
        assert(i == rawv.len() - 1);
        assert(full.len() == rawv.len() - 1);
    }
    if !ends_nl {
        let tail = raw.remove(0);
        proof {
            assert(tail@ == rawv[rawv.len() - 1]);
            assert(rawv[rawv.len() - 1] == rawv.last());
        }
        out.push(tail);
        proof {
            assert(crate::compare::lines_view(out@) =~= full.push(rawv.last()));
        }
    } else {
        proof {
            assert(crate::compare::lines_view(out@) =~= full);
        }
    }
    out
}

/// The fields of one sandbox result file: a status token, an exit
/// message (unused downstream), a duration in milliseconds and a memory
/// figure in kilobytes.
#[derive(Debug)]
pub struct SandboxRawResult {
    pub status: String,
    pub exit_msg: String,
    pub duration: i32,
    pub mem_usage: i32,
}

/// What reading a result file yields: its first four lines as status
/// token, exit message, duration and memory figure — or a malformed-file
/// error where a line is missing or a number does not parse.
pub open spec fn spec_sandbox_parse(t: Seq<char>) -> Result<(Seq<char>, Seq<char>, i32, i32), Error,
> {
    let ls = file_lines(t);
    if ls.len() < 4 {
        Err(Error::MalformedSandboxResult)
    } else {
        match (spec_parse_i32(ls[2]), spec_parse_i32(ls[3])) {
            (Some(d), Some(m)) => Ok((ls[0], ls[1], d, m)),
            _ => Err(Error::MalformedSandboxResult),
        }
    }
}

/// Reads one sandbox result file.
pub fn parse_sandbox_result(text: &str) -> (r: Result<SandboxRawResult, Error>)
    ensures
        match r {
            Ok(raw) => spec_sandbox_parse(text@) == Ok::<_, Error>(
                (raw.status@, raw.exit_msg@, raw.duration, raw.mem_usage),
            ),
            Err(e) => spec_sandbox_parse(text@) == Err::<(Seq<char>, Seq<char>, i32, i32), Error>(
                e,
            ),
        },
{
    let lines = result_file_lines(text);
    if lines.len() < 4 {
        return Err(Error::MalformedSandboxResult);
    }
    let duration = match parse_i32(&lines[2]) {
        Some(d) => d,
        None => {
            return Err(Error::MalformedSandboxResult);
        },
    };
    let mem_usage = match parse_i32(&lines[3]) {
        Some(m) => m,
        None => {
            return Err(Error::MalformedSandboxResult);
        },
    };
    let status = string_from_chars(&lines[0]);
    let exit_msg = string_from_chars(&lines[1]);
    Ok(SandboxRawResult { status, exit_msg, duration, mem_usage })
}

/// The status tokens that override correctness checking: a limit or
/// crash outcome is final, and the output is not compared.
pub open spec fn spec_is_limit_token(s: Seq<char>) -> bool {
    s == "TLE"@ || s == "MLE"@ || s == "RE"@ || s == "OLE"@
}

/// The final status of one ran case: a limit or crash token verbatim;
/// otherwise `AC` where the captured output matches the expected answer
/// and `WA` where it does not.
pub fn resolve_status(token: String, answer: &str, stdout: &str) -> (r: String)
    ensures
        spec_is_limit_token(token@) ==> r@ == token@,
        !spec_is_limit_token(token@) && outputs_match(answer@, stdout@) ==> r@ == "AC"@,
        !spec_is_limit_token(token@) && !outputs_match(answer@, stdout@) ==> r@ == "WA"@,
{
    if str_eq(token.as_str(), "TLE") || str_eq(token.as_str(), "MLE") || str_eq(
        token.as_str(),
        "RE",
    ) || str_eq(token.as_str(), "OLE") {
        token
    } else if compare_output(answer, stdout) {
        String::from_str("AC")
    } else {
        String::from_str("WA")
    }
}

/// The result of one case whose sandbox process ran and reported: the
/// result file decides duration, memory and the raw token, the token or
/// the comparator decides the status, and the captured streams are kept.
pub fn judge_case_from_run(
    result_text: &str,
    stdout: String,
    stderr: String,
    answer: &str,
    task_id: i32,
    case_id: i32,
) -> (r: Result<JudgeResult, Error>)
    ensures
        match r {
            Ok(jr) => {
                &&& spec_sandbox_parse(result_text@) is Ok
                &&& {
                    let fields = spec_sandbox_parse(result_text@)->Ok_0;
                    &&& (spec_is_limit_token(fields.0) ==> jr.status@ == fields.0)
                    &&& (!spec_is_limit_token(fields.0) && outputs_match(answer@, stdout@)
                        ==> jr.status@ == "AC"@)
                    &&& (!spec_is_limit_token(fields.0) && !outputs_match(answer@, stdout@)
                        ==> jr.status@ == "WA"@)
                    &&& jr.duration == fields.2
                    &&& jr.mem_usage == fields.3
                    &&& jr.stdout == stdout
                    &&& jr.stderr == stderr
                    &&& jr.task_id == task_id
                    &&& jr.case_id == case_id
                }
            },
            Err(e) => spec_sandbox_parse(result_text@) == Err::<(Seq<char>, Seq<char>, i32, i32), Error>(e),
        },
{
    let raw = match parse_sandbox_result(result_text) {
        Ok(raw) => raw,
        Err(e) => {
            return Err(e);
        },
    };
    let status = resolve_status(raw.status, answer, stdout.as_str());
    Ok(
        JudgeResult {
            status,
            duration: raw.duration,
            mem_usage: raw.mem_usage,
            stdout,
            stderr,
            task_id,
            case_id,
        },
    )
}

/// The result of one case whose sandbox process ran but exited with a
/// failure: a judge error carrying the process's own streams, sentinel
/// timing figures, and the owning task and case indices.
pub fn je_process_result(stdout: String, stderr: String, task_id: i32, case_id: i32) -> (r:
    JudgeResult)
    ensures
        r.status@ == "JE"@,
        r.duration == -1,
        r.mem_usage == -1,
        r.stdout == stdout,
        r.stderr == stderr,
        r.task_id == task_id,
        r.case_id == case_id,
{
    JudgeResult {
        status: String::from_str("JE"),
        duration: -1,
        mem_usage: -1,
        stdout,
        stderr,
        task_id,
        case_id,
    }
}

/// The result of one case whose sandbox process could not be launched
/// at all: a judge error carrying the launch error text, sentinel
/// timing figures, and the case's own indices.
pub fn je_spawn_result(error_text: String, task_id: i32, case_id: i32) -> (r: JudgeResult)
    ensures
        r.status@ == "JE"@,
        r.duration == -1,
        r.mem_usage == -1,
        r.stdout@ == Seq::<char>::empty(),
        r.stderr == error_text,
        r.task_id == task_id,
        r.case_id == case_id,
{
    JudgeResult {
        status: String::from_str("JE"),
        duration: -1,
        mem_usage: -1,
        stdout: String::new(),
        stderr: error_text,
        task_id,
        case_id,
    }
}

} // verus!
