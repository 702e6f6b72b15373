//! What the unit manager front end computes around its calls: the journal
//! command, the remote command line, the reading of command output, and the
//! messages of failed calls.
use vstd::prelude::*;
use crate::bus::BusKind;
use crate::text::{chars_of, decimal, decimal_string, join2, join3, owned, string_from_chars};
use crate::units::strings_view;

verus! {

broadcast use vstd::string::group_string_axioms;

/// The journal arguments that show the last `limit` entries of a unit, with
/// ISO time stamps and no pager; `--user` first for the session bus.
pub open spec fn journalctl_args_spec(k: BusKind, unit_name: Seq<char>, limit: nat) -> Seq<
    Seq<char>,
> {
    (if k == BusKind::Session {
        seq!["--user"@]
    } else {
        seq![]
    }) + seq![
        "-u"@,
        unit_name,
        "-n"@,
        decimal(limit),
        "--no-pager"@,
        "-o"@,
        "short-iso"@,
    ]
}

/// The arguments of the journal command for a unit's last `limit` entries.
pub fn journalctl_args(bus_kind: BusKind, unit_name: &str, limit: usize) -> (r: Vec<String>)
    ensures
        strings_view(r@) == journalctl_args_spec(bus_kind, unit_name@, limit as nat),
{
    let mut r: Vec<String> = Vec::new();
    if bus_kind == BusKind::Session {
        r.push(owned("--user"));
    }
    r.push(owned("-u"));
    r.push(owned(unit_name));
    r.push(owned("-n"));
    r.push(decimal_string(limit as u64));
    r.push(owned("--no-pager"));
    r.push(owned("-o"));
    r.push(owned("short-iso"));
    assert(strings_view(r@) =~= journalctl_args_spec(bus_kind, unit_name@, limit as nat));
    r
}

/// The SSH options for running one remote command: never prompt, and the port.
/// The key option, if any, follows them.
pub fn ssh_remote_options(port: u16) -> (r: Vec<String>)
    ensures
        strings_view(r@) == seq!["-o"@, "BatchMode=yes"@, "-p"@, decimal(port as nat)],
{
    let mut r: Vec<String> = Vec::new();
    r.push(owned("-o"));
    r.push(owned("BatchMode=yes"));
    r.push(owned("-p"));
    r.push(decimal_string(port as u64));
    assert(strings_view(r@) =~= seq!["-o"@, "BatchMode=yes"@, "-p"@, decimal(port as nat)]);
    r
}

/// The end of a remote command's SSH command line: destination, program, arguments.
pub fn ssh_remote_target(destination: &str, program: &str, args: &[String]) -> (r: Vec<String>)
    ensures
        strings_view(r@) == seq![destination@, program@] + strings_view(args@),
{
    let mut r: Vec<String> = Vec::new();
    r.push(owned(destination));
    r.push(owned(program));
    for i in 0..args.len()
        invariant
            strings_view(r@) == seq![destination@, program@] + strings_view(args@.take(i as int)),
    {
        let ghost before = r@;
        let item = args[i].clone();
        r.push(item);
        assert(strings_view(r@) =~= strings_view(before).push(args@[i as int]@));
        assert(strings_view(args@.take(i + 1)) =~= strings_view(args@.take(i as int)).push(
            args@[i as int]@,
        ));
    }
    assert(args@.take(args.len() as int) =~= args@);
    r
}

/// The characters that `char::is_whitespace` accepts: Unicode White_Space.
pub open spec fn is_white_space(c: char) -> bool {
    let n = c as u32;
    (0x09 <= n <= 0x0D) || n == 0x20 || n == 0x85 || n == 0xA0 || n == 0x1680 || (0x2000 <= n
        <= 0x200A) || n == 0x2028 || n == 0x2029 || n == 0x202F || n == 0x205F || n == 0x3000
}

fn white_space(c: char) -> (r: bool)
    ensures
        r == is_white_space(c),
{
    let n = c as u32;
    (0x09 <= n && n <= 0x0D) || n == 0x20 || n == 0x85 || n == 0xA0 || n == 0x1680 || (0x2000 <= n
        && n <= 0x200A) || n == 0x2028 || n == 0x2029 || n == 0x202F || n == 0x205F || n == 0x3000
}

/// `s` without leading and trailing white space, as `str::trim` gives it:
/// the characters from the first to the last that are not white space.
pub open spec fn trimmed(s: Seq<char>, start: int, end: int) -> bool {
    &&& 0 <= start <= end <= s.len()
    &&& forall|i: int| 0 <= i < start ==> is_white_space(#[trigger] s[i])
    &&& forall|i: int| end <= i < s.len() ==> is_white_space(#[trigger] s[i])
    &&& start < end ==> !is_white_space(s[start]) && !is_white_space(s[end - 1])
}

/// Removes leading and trailing white space.
pub fn trim(s: &str) -> (r: String)
    ensures
        exists|start: int, end: int| trimmed(s@, start, end) && r@ == s@.subrange(start, end),
{
    let cs = chars_of(s);
    let mut start: usize = 0;
    while start < cs.len() && white_space(cs[start])
        invariant
            start <= cs.len(),
            forall|i: int| 0 <= i < start ==> is_white_space(#[trigger] cs@[i]),
        decreases cs.len() - start,
    {
        start = start + 1;
    }
    let mut end: usize = cs.len();
    while end > start && white_space(cs[end - 1])
        invariant
            start <= end <= cs.len(),
            forall|i: int| end <= i < cs.len() ==> is_white_space(#[trigger] cs@[i]),
        decreases end,
    {
        end = end - 1;
    }
    let mut kept: Vec<char> = Vec::new();
    for i in start..end
        invariant
            start <= end <= cs.len(),
            kept@ == cs@.subrange(start as int, i as int),
    {
        kept.push(cs[i]);
        assert(cs@.subrange(start as int, i + 1) =~= cs@.subrange(start as int, i as int).push(
            cs@[i as int],
        ));
    }
    let r = string_from_chars(&kept);
    assert(trimmed(s@, start as int, end as int));
    r
}

/// The message of a failed journal command: its (trimmed) error output, or
/// its exit status when that output is empty.
pub fn journal_failure_message(unit_name: &str, status: &str, stderr_trimmed: &str) -> (r: String)
    ensures
        r@ == if stderr_trimmed@.len() == 0 {
            "journalctl failed for "@ + unit_name@ + " with status "@ + status@
        } else {
            "journalctl failed for "@ + unit_name@ + ": "@ + stderr_trimmed@
        },
{
    let head = join2("journalctl failed for ", unit_name);
    if stderr_trimmed.is_empty() {
        join3(head.as_str(), " with status ", status)
    } else {
        join3(head.as_str(), ": ", stderr_trimmed)
    }
}

/// A line without the carriage return that may end it.
pub open spec fn strip_cr(line: Seq<char>) -> Seq<char> {
    if line.len() > 0 && line.last() == '\r' {
        line.drop_last()
    } else {
        line
    }
}

/// Reading `s` from the start: the lines ended so far (a newline ends a line,
/// and a carriage return right before it is dropped) and the unfinished line.
pub open spec fn line_scan(s: Seq<char>) -> (Seq<Seq<char>>, Seq<char>)
    decreases s.len(),
{
    if s.len() == 0 {
        (seq![], seq![])
    } else {
        let (done, current) = line_scan(s.drop_last());
        if s.last() == '\n' {
            (done.push(strip_cr(current)), seq![])
        } else {
            (done, current.push(s.last()))
        }
    }
}

/// The lines of `s`, as `str::lines` gives them: split at newlines, a final
/// newline ending the last line rather than starting an empty one.
pub open spec fn lines_of(s: Seq<char>) -> Seq<Seq<char>> {
    let (done, current) = line_scan(s);
    if current.len() == 0 {
        done
    } else {
        done.push(current)
    }
}

/// Splits command output into its lines.
pub fn output_lines(text: &str) -> (r: Vec<String>)
    ensures
        strings_view(r@) == lines_of(text@),
{
    let cs = chars_of(text);
    let mut done: Vec<String> = Vec::new();
    let mut current: Vec<char> = Vec::new();
    for i in 0..cs.len()
        invariant
            (strings_view(done@), current@) == line_scan(cs@.take(i as int)),
    {
        assert(cs@.take(i + 1).drop_last() =~= cs@.take(i as int));
        assert(cs@.take(i + 1).last() == cs@[i as int]);
        if cs[i] == '\n' {
            if current.len() > 0 && current[current.len() - 1] == '\r' {
                current.pop();
            }
            let line = string_from_chars(&current);
            done.push(line);
            current = Vec::new();
            assert(current@ =~= Seq::<char>::empty());
        } else {
            current.push(cs[i]);
        }
    }
    assert(cs@.take(cs.len() as int) =~= cs@);
    if current.len() > 0 {
        done.push(string_from_chars(&current));
    }
    done
}

/// Why neither bus could be reached.
pub fn auto_connect_failure(system_error: &str, session_error: &str) -> (r: String)
    ensures
        r@ == "failed to connect system bus ("@ + system_error@ + ") and session bus ("@
            + session_error@ + ")"@,
{
    let head = join3("failed to connect system bus (", system_error, ") and session bus (");
    join3(head.as_str(), session_error, ")")
}

/// What became of handing a signal to the browser.
#[derive(Debug, Clone, Copy, PartialEq, Eq, Structural)]
pub enum SendOutcome {
    Sent,
    Full,
    Closed,
}

/// Whether forwarding signals goes on after one was handed over: a full queue
/// drops the signal and goes on, a closed one ends the forwarding.
pub fn forwarding_continues(outcome: SendOutcome) -> (r: bool)
    ensures
        r == (outcome != SendOutcome::Closed),
{
    match outcome {
        SendOutcome::Sent | SendOutcome::Full => true,
        SendOutcome::Closed => false,
    }
}

} // verus!
