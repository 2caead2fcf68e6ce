//! What the startup/persistence collector decides about the entries it
//! finds: which executable a command line runs, which scheduled tasks a
//! `schtasks` listing reports, and how startup-folder files are treated.
use vstd::prelude::*;

use crate::collector::signature::SignatureInfo;
use crate::text::{
    append_chars, chars_of, copy_range, find_char, has_prefix, is_white_space, is_whitespace,
    same_chars, starts_with, string_of, trim_chars, trimmed, trimmed_is_idempotent,
};
use crate::types::{PersistenceFacts, PersistenceType};

verus! {

broadcast use vstd::string::group_string_axioms;

/// The characters of `s` before its first white space.
pub open spec fn take_until_white(s: Seq<char>) -> Seq<char>
    decreases s.len(),
{
    if s.len() == 0 || is_white_space(s[0]) {
        Seq::empty()
    } else {
        seq![s[0]] + take_until_white(s.drop_first())
    }
}

/// The characters of `s` before its first `c`.
pub open spec fn take_until_char(s: Seq<char>, c: char) -> Seq<char>
    decreases s.len(),
{
    if s.len() == 0 || s[0] == c {
        Seq::empty()
    } else {
        seq![s[0]] + take_until_char(s.drop_first(), c)
    }
}

/// The executable that a command line runs. Commands are trimmed; one that
/// starts with a quote names the text up to the closing quote, and any other
/// names its first white-space separated word.
pub open spec fn exe_path_of(command: Seq<char>) -> Seq<char> {
    let t = trimmed(command);
    if t.len() > 0 && t[0] == '"' && t.drop_first().contains('"') {
        take_until_char(t.drop_first(), '"')
    } else {
        take_until_white(t)
    }
}

proof fn take_until_char_is_prefix(s: Seq<char>, c: char, k: int)
    requires
        0 <= k <= s.len(),
        forall|j: int| 0 <= j < k ==> s[j] != c,
        k == s.len() || s[k] == c,
    ensures
        take_until_char(s, c) == s.take(k),
    decreases k,
{
    if k > 0 {
        take_until_char_is_prefix(s.drop_first(), c, k - 1);
        assert(seq![s[0]] + s.drop_first().take(k - 1) =~= s.take(k));
    } else {
        assert(s.take(0) =~= Seq::<char>::empty());
    }
}

proof fn take_until_white_is_prefix(s: Seq<char>, k: int)
    requires
        0 <= k <= s.len(),
        forall|j: int| 0 <= j < k ==> !is_white_space(s[j]),
        k == s.len() || is_white_space(s[k]),
    ensures
        take_until_white(s) == s.take(k),
    decreases k,
{
    if k > 0 {
        take_until_white_is_prefix(s.drop_first(), k - 1);
        assert(seq![s[0]] + s.drop_first().take(k - 1) =~= s.take(k));
    } else {
        assert(s.take(0) =~= Seq::<char>::empty());
    }
}

/// Pulls the executable path out of a startup command, which may carry
/// arguments or be wrapped in quotes, e.g. `"C:\Program Files\App\app.exe" --silent`.
pub fn extract_exe_path(command: &str) -> (path: String)
    ensures
        path@ == exe_path_of(command@),
{
    let c = chars_of(command);
    let t = trim_chars(c.as_slice());
    if t.len() > 0 && t[0] == '"' {
        let rest = copy_range(t.as_slice(), 1, t.len());
        assert(rest@ =~= t@.drop_first());
        match find_char(rest.as_slice(), '"') {
            Some(end) => {
                proof {
                    take_until_char_is_prefix(rest@, '"', end as int);
                }
                let inner = copy_range(rest.as_slice(), 0, end);
                assert(inner@ =~= rest@.take(end as int));
                return string_of(inner.as_slice());
            },
            None => {
                assert(!rest@.contains('"'));
            },
        }
    }
    let mut k: usize = 0;
    while k < t.len() && !is_whitespace(t[k])
        invariant
            k <= t@.len(),
            forall|j: int| 0 <= j < k ==> !is_white_space(t@[j]),
        decreases t@.len() - k,
    {
        k = k + 1;
    }
    proof {
        take_until_white_is_prefix(t@, k as int);
    }
    let word = copy_range(t.as_slice(), 0, k);
    assert(word@ =~= t@.take(k as int));
    string_of(word.as_slice())
}

/// Facts about a startup entry, from what was found and what the checks of
/// its executable gave.
pub fn facts_from_checks(
    name: String,
    command: String,
    source: PersistenceType,
    signature: SignatureInfo,
    file_age_days: Option<i64>,
) -> (facts: PersistenceFacts)
    ensures
        facts.name == name,
        facts.command == command,
        facts.source == source,
        facts.publisher == signature.publisher,
        facts.is_signed == signature.is_signed,
        facts.signature_detail == signature.detail,
        facts.file_age_days == file_age_days,
{
    PersistenceFacts {
        name,
        command,
        source,
        publisher: signature.publisher,
        is_signed: signature.is_signed,
        signature_detail: signature.detail,
        file_age_days,
    }
}

/// A line without the carriage return that ended it, if any.
pub open spec fn without_cr(line: Seq<char>) -> Seq<char> {
    if line.len() > 0 && line.last() == '\r' {
        line.drop_last()
    } else {
        line
    }
}

/// The lines of `s`, the current line having begun with `current`. Lines
/// end at `\n` (a `\r` just before it is dropped); a final line needs no
/// line ending, and an empty text has no lines.
pub open spec fn lines_from(s: Seq<char>, current: Seq<char>) -> Seq<Seq<char>>
    decreases s.len(),
{
    if s.len() == 0 {
        if current.len() == 0 {
            Seq::empty()
        } else {
            seq![current]
        }
    } else if s[0] == '\n' {
        seq![without_cr(current)] + lines_from(s.drop_first(), Seq::empty())
    } else {
        lines_from(s.drop_first(), current.push(s[0]))
    }
}

/// The lines of a text, as `str::lines` gives them.
pub open spec fn text_lines(s: Seq<char>) -> Seq<Seq<char>> {
    lines_from(s, Seq::empty())
}

/// A task found in a `schtasks` listing is reported unless it is one of the
/// tasks Windows ships under `\Microsoft\Windows\`, or it runs nothing.
pub open spec fn reportable_task(name: Seq<char>, command: Seq<char>) -> bool {
    &&& !has_prefix(name, "\\Microsoft\\Windows\\"@)
    &&& trimmed(command).len() > 0
    &&& trimmed(command) != "N/A"@
}

/// `found` with the task added when it is reported.
pub open spec fn keep_task(
    found: Seq<(Seq<char>, Seq<char>)>,
    name: Seq<char>,
    command: Seq<char>,
) -> Seq<(Seq<char>, Seq<char>)> {
    if reportable_task(name, command) {
        found.push((name, command))
    } else {
        found
    }
}

/// Where a scan of a task listing stands: the current task's name and
/// command, once seen, and the tasks found so far.
pub type TaskScan = (Option<Seq<char>>, Option<Seq<char>>, Seq<(Seq<char>, Seq<char>)>);

/// The tasks found, with the current task added when both its name and its
/// command were seen.
pub open spec fn flushed(scan: TaskScan) -> Seq<(Seq<char>, Seq<char>)> {
    match (scan.0, scan.1) {
        (Some(name), Some(command)) => keep_task(scan.2, name, command),
        _ => scan.2,
    }
}

/// One line of a task listing: `TaskName:` closes the task before it and
/// starts a new one, `Task To Run:` gives the current task's command, and
/// any other line is ignored. Values are trimmed.
pub open spec fn scan_line(scan: TaskScan, line: Seq<char>) -> TaskScan {
    if has_prefix(line, "TaskName:"@) {
        (Some(trimmed(line.skip("TaskName:"@.len() as int))), None, flushed(scan))
    } else if has_prefix(line, "Task To Run:"@) {
        (scan.0, Some(trimmed(line.skip("Task To Run:"@.len() as int))), scan.2)
    } else {
        scan
    }
}

/// The scan after all of `lines`.
pub open spec fn scan_lines(lines: Seq<Seq<char>>) -> TaskScan
    decreases lines.len(),
{
    if lines.len() == 0 {
        (None, None, Seq::empty())
    } else {
        scan_line(scan_lines(lines.drop_last()), lines.last())
    }
}

/// The (name, command) pairs of the reported tasks of a `schtasks /query
/// /fo LIST /v` listing, in order.
pub open spec fn scheduled_tasks(text: Seq<char>) -> Seq<(Seq<char>, Seq<char>)> {
    flushed(scan_lines(text_lines(text)))
}

/// The character sequences held by `v`.
pub open spec fn char_seqs(v: Seq<Vec<char>>) -> Seq<Seq<char>> {
    v.map_values(|l: Vec<char>| l@)
}

/// The characters held by an optional vector.
pub open spec fn opt_chars(o: Option<Vec<char>>) -> Option<Seq<char>> {
    match o {
        Some(v) => Some(v@),
        None => None,
    }
}

/// The lines of `s`, as `str::lines` gives them.
pub fn split_lines(s: &[char]) -> (lines: Vec<Vec<char>>)
    ensures
        char_seqs(lines@) == text_lines(s@),
{
    let mut lines: Vec<Vec<char>> = Vec::new();
    let mut current: Vec<char> = Vec::new();
    let n = s.len();
    assert(s@.skip(0) =~= s@);
    assert(char_seqs(lines@) + text_lines(s@) =~= text_lines(s@));
    for i in 0..n
        invariant
            n == s@.len(),
            text_lines(s@) == char_seqs(lines@) + lines_from(s@.skip(i as int), current@),
    {
        let ghost rest = s@.skip(i as int);
        assert(rest[0] == s@[i as int]);
        assert(rest.drop_first() =~= s@.skip(i + 1));
        if s[i] == '\n' {
            let ghost before = char_seqs(lines@);
            let mut line = current;
            if line.len() > 0 && line[line.len() - 1] == '\r' {
                line.pop();
            }
            assert(line@ == without_cr(current@));
            lines.push(line);
            assert(char_seqs(lines@) =~= before.push(without_cr(current@)));
            assert(before + (seq![without_cr(current@)] + lines_from(s@.skip(i + 1), Seq::empty()))
                =~= before.push(without_cr(current@)) + lines_from(s@.skip(i + 1), Seq::empty()));
            current = Vec::new();
            assert(current@ =~= Seq::<char>::empty());
        } else {
            current.push(s[i]);
        }
    }
    assert(s@.skip(n as int) =~= Seq::<char>::empty());
    if current.len() > 0 {
        let ghost before = char_seqs(lines@);
        lines.push(current);
        assert(char_seqs(lines@) =~= before + seq![current@]);
    } else {
        assert(char_seqs(lines@) + Seq::<Seq<char>>::empty() =~= char_seqs(lines@));
    }
    lines
}

/// Adds a task to `results` unless it is one of Windows' own tasks under
/// `\Microsoft\Windows\`, or it runs nothing. Windows ships hundreds of its
/// own scheduled tasks; surfacing them would bury anything worth a look.
pub fn push_if_not_builtin(results: &mut Vec<(String, String)>, name: &Vec<char>, command: &Vec<char>)
    ensures
        final(results).deep_view() == keep_task(old(results).deep_view(), name@, command@),
{
    let builtin = chars_of("\\Microsoft\\Windows\\");
    if starts_with(name.as_slice(), builtin.as_slice()) {
        return;
    }
    let t = trim_chars(command.as_slice());
    let none = chars_of("N/A");
    if t.len() == 0 || same_chars(t.as_slice(), none.as_slice()) {
        return;
    }
    let ghost before = results.deep_view();
    results.push((string_of(name.as_slice()), string_of(command.as_slice())));
    assert(results.deep_view() =~= before.push((name@, command@)));
}

/// The value after a label at the start of a line, trimmed, when the line
/// starts with the label.
fn labelled_value(line: &Vec<char>, label: &str) -> (r: Option<Vec<char>>)
    ensures
        r matches Some(v) ==> has_prefix(line@, label@) && v@ == trimmed(
            line@.skip(label@.len() as int),
        ),
        r is None ==> !has_prefix(line@, label@),
{
    let l = chars_of(label);
    if starts_with(line.as_slice(), l.as_slice()) {
        let rest = copy_range(line.as_slice(), l.len(), line.len());
        assert(rest@ =~= line@.skip(label@.len() as int));
        Some(trim_chars(rest.as_slice()))
    } else {
        None
    }
}

/// The scheduled tasks of a `schtasks /query /fo LIST /v` listing, as
/// (name, command) pairs, leaving out Windows' own tasks and tasks that run
/// nothing. The listing's field labels are the English ones.
pub fn parse_schtasks_output(text: &str) -> (tasks: Vec<(String, String)>)
    ensures
        tasks.deep_view() == scheduled_tasks(text@),
{
    let chars = chars_of(text);
    let lines = split_lines(chars.as_slice());
    let ghost lv = char_seqs(lines@);
    let mut results: Vec<(String, String)> = Vec::new();
    let mut current_name: Option<Vec<char>> = None;
    let mut current_command: Option<Vec<char>> = None;
    let n = lines.len();
    assert(results.deep_view() =~= Seq::<(Seq<char>, Seq<char>)>::empty());
    assert(lv.take(0) =~= Seq::<Seq<char>>::empty());
    for i in 0..n
        invariant
            n == lines@.len(),
            lv == char_seqs(lines@),
            lv == text_lines(text@),
            scan_lines(lv.take(i as int)) == (
                opt_chars(current_name),
                opt_chars(current_command),
                results.deep_view(),
            ),
    {
        assert(lv.take(i + 1).drop_last() =~= lv.take(i as int));
        assert(lv[i as int] == lines@[i as int]@);
        match labelled_value(&lines[i], "TaskName:") {
            Some(name) => {
                match (&current_name, &current_command) {
                    (Some(prev_name), Some(prev_command)) => {
                        push_if_not_builtin(&mut results, prev_name, prev_command);
                    },
                    _ => {},
                }
                current_name = Some(name);
                current_command = None;
            },
            None => {
                match labelled_value(&lines[i], "Task To Run:") {
                    Some(command) => {
                        current_command = Some(command);
                    },
                    None => {},
                }
            },
        }
    }
    assert(lv.take(n as int) =~= lv);
    match (&current_name, &current_command) {
        (Some(name), Some(command)) => {
            push_if_not_builtin(&mut results, name, command);
        },
        _ => {},
    }
    results
}

/// How a file found in a Startup folder is treated.
#[derive(Debug, Clone, Copy, PartialEq, Eq, Structural)]
pub enum StartupFileKind {
    /// Folder metadata such as `desktop.ini`, not a startup entry.
    Skip,
    /// A `.lnk` shortcut, whose target is what runs.
    Shortcut,
    /// Any other file, which runs itself.
    Plain,
}

/// The code of `c` with ASCII capitals folded to lowercase.
pub open spec fn ascii_fold(c: char) -> int {
    let n = c as u32;
    if 65 <= n <= 90 {
        n + 32
    } else {
        n as int
    }
}

/// `a` and `b` are equal when ASCII letters are compared without case.
pub open spec fn same_ignoring_ascii_case(a: Seq<char>, b: Seq<char>) -> bool {
    a.len() == b.len() && forall|i: int| 0 <= i < a.len() ==> ascii_fold(a[i]) == ascii_fold(b[i])
}

/// How a Startup-folder file with this extension is treated: `ini` files
/// are skipped, `lnk` files (in any case) are shortcuts, the rest run
/// themselves.
pub open spec fn startup_kind_of(extension: Option<Seq<char>>) -> StartupFileKind {
    match extension {
        Some(e) => if e == "ini"@ {
            StartupFileKind::Skip
        } else if same_ignoring_ascii_case(e, "lnk"@) {
            StartupFileKind::Shortcut
        } else {
            StartupFileKind::Plain
        },
        None => StartupFileKind::Plain,
    }
}

/// The code of `c` with ASCII capitals folded to lowercase.
fn fold(c: char) -> (n: u32)
    ensures
        n as int == ascii_fold(c),
{
    let n = c as u32;
    if 65 <= n && n <= 90 {
        n + 32
    } else {
        n
    }
}

/// Whether `a` and `b` are equal when ASCII letters are compared without case.
fn eq_ignoring_ascii_case(a: &[char], b: &[char]) -> (r: bool)
    ensures
        r == same_ignoring_ascii_case(a@, b@),
{
    if a.len() != b.len() {
        return false;
    }
    let n = a.len();
    for i in 0..n
        invariant
            n == a@.len(),
            n == b@.len(),
            forall|k: int| 0 <= k < i ==> ascii_fold(a@[k]) == ascii_fold(b@[k]),
    {
        if fold(a[i]) != fold(b[i]) {
            return false;
        }
    }
    true
}

/// How a Startup-folder file with this extension (if it has one that is
/// valid Unicode) is treated.
pub fn startup_file_kind(extension: Option<&str>) -> (kind: StartupFileKind)
    ensures
        kind == startup_kind_of(
            match extension {
                Some(e) => Some(e@),
                None => None,
            },
        ),
{
    match extension {
        Some(e) => {
            let ext = chars_of(e);
            let ini = chars_of("ini");
            let lnk = chars_of("lnk");
            if same_chars(ext.as_slice(), ini.as_slice()) {
                StartupFileKind::Skip
            } else if eq_ignoring_ascii_case(ext.as_slice(), lnk.as_slice()) {
                StartupFileKind::Shortcut
            } else {
                StartupFileKind::Plain
            }
        },
        None => StartupFileKind::Plain,
    }
}

/// The command shown for a shortcut resolved to its target: both paths, so
/// the user can see where the shortcut really leads.
pub fn shortcut_command(raw_path: &str, target: &str) -> (command: String)
    ensures
        command@ == raw_path@ + " -> "@ + target@,
{
    let mut text = chars_of(raw_path);
    let arrow = chars_of(" -> ");
    append_chars(&mut text, arrow.as_slice());
    let t = chars_of(target);
    append_chars(&mut text, t.as_slice());
    string_of(text.as_slice())
}

/// Windows' own tasks under `\Microsoft\Windows\`, and tasks that run
/// nothing, are never reported.
pub proof fn builtin_tasks_are_never_reported(text: Seq<char>, i: int)
    requires
        0 <= i < scheduled_tasks(text).len(),
    ensures
        reportable_task(scheduled_tasks(text)[i].0, scheduled_tasks(text)[i].1),
        !has_prefix(scheduled_tasks(text)[i].0, "\\Microsoft\\Windows\\"@),
        trimmed(scheduled_tasks(text)[i].1).len() > 0,
        trimmed(scheduled_tasks(text)[i].1) != "N/A"@,
{
    let lines = text_lines(text);
    all_found_reportable(lines);
    let scan = scan_lines(lines);
    match (scan.0, scan.1) {
        (Some(name), Some(command)) => {
            if reportable_task(name, command) {
                assert(scan.2.push((name, command))[i] == if i < scan.2.len() {
                    scan.2[i]
                } else {
                    (name, command)
                });
            }
        },
        _ => {},
    }
}

/// Every task recorded by a scan is reported.
proof fn all_found_reportable(lines: Seq<Seq<char>>)
    ensures
        forall|i: int|
            0 <= i < scan_lines(lines).2.len() ==> reportable_task(
                #[trigger] scan_lines(lines).2[i].0,
                scan_lines(lines).2[i].1,
            ),
    decreases lines.len(),
{
    if lines.len() > 0 {
        all_found_reportable(lines.drop_last());
        let before = scan_lines(lines.drop_last());
        let f = flushed(before);
        assert forall|i: int| 0 <= i < f.len() implies reportable_task(
            #[trigger] f[i].0,
            f[i].1,
        ) by {
            match (before.0, before.1) {
                (Some(name), Some(command)) => {
                    if reportable_task(name, command) && i == before.2.len() {
                        assert(f[i] == (name, command));
                    } else {
                        assert(f[i] == before.2[i]);
                    }
                },
                _ => {},
            }
        }
    }
}

/// `take_until_char` stops at the first `c`: what it takes holds no `c`, is
/// the start of `s`, and is followed in `s` by `c`.
proof fn take_until_char_stops(s: Seq<char>, c: char)
    requires
        s.contains(c),
    ensures
        take_until_char(s, c).len() < s.len(),
        s[take_until_char(s, c).len() as int] == c,
        s.take(take_until_char(s, c).len() as int) == take_until_char(s, c),
        !take_until_char(s, c).contains(c),
    decreases s.len(),
{
    let r = take_until_char(s, c);
    if s[0] == c {
        assert(s.take(0) =~= r);
    } else {
        let k = choose|k: int| 0 <= k < s.len() && s[k] == c;
        assert(s.drop_first()[k - 1] == c);
        take_until_char_stops(s.drop_first(), c);
        let r1 = take_until_char(s.drop_first(), c);
        assert(r == seq![s[0]] + r1);
        assert(s.take(r.len() as int) =~= seq![s[0]] + s.drop_first().take(r1.len() as int));
        if r.contains(c) {
            let j = choose|j: int| 0 <= j < r.len() && r[j] == c;
            if j > 0 {
                assert(r1[j - 1] == c);
            }
        }
    }
}

/// `take_until_white` stops at the first white space: what it takes holds
/// none, is the start of `s`, and is followed in `s` by white space or ends it.
proof fn take_until_white_stops(s: Seq<char>)
    ensures
        take_until_white(s).len() <= s.len(),
        s.take(take_until_white(s).len() as int) == take_until_white(s),
        forall|j: int| 0 <= j < take_until_white(s).len() ==> !is_white_space(#[trigger] take_until_white(s)[j]),
        take_until_white(s).len() == s.len() || is_white_space(s[take_until_white(s).len() as int]),
    decreases s.len(),
{
    let r = take_until_white(s);
    if s.len() == 0 || is_white_space(s[0]) {
        assert(s.take(0) =~= r);
    } else {
        take_until_white_stops(s.drop_first());
        let r1 = take_until_white(s.drop_first());
        assert(r == seq![s[0]] + r1);
        assert(s.take(r.len() as int) =~= seq![s[0]] + s.drop_first().take(r1.len() as int));
        assert forall|j: int| 0 <= j < r.len() implies !is_white_space(#[trigger] r[j]) by {
            if j > 0 {
                assert(r[j] == r1[j - 1]);
            }
        }
    }
}

/// A command that (once trimmed) starts with a quote closed later names the
/// text between the opening quote and the first quote after it: the path
/// holds no quote, and a quote follows it.
pub proof fn quoted_path_stops_at_first_quote(command: Seq<char>, j: int)
    requires
        trimmed(command).len() > 0,
        trimmed(command)[0] == '"',
        1 <= j < trimmed(command).len(),
        trimmed(command)[j] == '"',
    ensures
        !exe_path_of(command).contains('"'),
        exe_path_of(command).len() + 1 < trimmed(command).len(),
        trimmed(command)[exe_path_of(command).len() + 1int] == '"',
        trimmed(command).subrange(1, exe_path_of(command).len() + 1int) == exe_path_of(command),
{
    let t = trimmed(command);
    let rest = t.drop_first();
    assert(rest[j - 1] == '"');
    take_until_char_stops(rest, '"');
    let p = take_until_char(rest, '"');
    assert(t[p.len() + 1int] == rest[p.len() as int]);
    assert(t.subrange(1, p.len() + 1int) =~= rest.take(p.len() as int));
}

/// Any other command names its first word: a start of the trimmed command
/// with no white space in it, ended by white space or by the command's end.
pub proof fn plain_path_is_first_word(command: Seq<char>)
    requires
        !(trimmed(command).len() > 0 && trimmed(command)[0] == '"' && trimmed(command).drop_first().contains('"')),
    ensures
        trimmed(command).take(exe_path_of(command).len() as int) == exe_path_of(command),
        forall|j: int| 0 <= j < exe_path_of(command).len() ==> !is_white_space(#[trigger] exe_path_of(command)[j]),
        exe_path_of(command).len() == trimmed(command).len() || is_white_space(
            trimmed(command)[exe_path_of(command).len() as int],
        ),
{
    take_until_white_stops(trimmed(command));
}

/// The lines of a text without line endings: the current line, extended.
proof fn lines_without_newline(b: Seq<char>, current: Seq<char>)
    requires
        !b.contains('\n'),
    ensures
        lines_from(b, current) == if (current + b).len() == 0 {
            Seq::<Seq<char>>::empty()
        } else {
            seq![current + b]
        },
    decreases b.len(),
{
    if b.len() == 0 {
        assert(current + b =~= current);
    } else {
        assert(b[0] != '\n');
        let rest = b.drop_first();
        assert(!rest.contains('\n')) by {
            if rest.contains('\n') {
                let k = choose|k: int| 0 <= k < rest.len() && rest[k] == '\n';
                assert(b[k + 1] == '\n');
            }
        }
        lines_without_newline(rest, current.push(b[0]));
        assert(current.push(b[0]) + rest =~= current + b);
    }
}

/// A line ending splits a text into the line before it and the lines after.
proof fn lines_at_newline(a: Seq<char>, b: Seq<char>, current: Seq<char>)
    requires
        !a.contains('\n'),
    ensures
        lines_from(a + seq!['\n'] + b, current) == seq![without_cr(current + a)] + lines_from(
            b,
            Seq::empty(),
        ),
    decreases a.len(),
{
    let s = a + seq!['\n'] + b;
    if a.len() == 0 {
        assert(s[0] == '\n');
        assert(s.drop_first() =~= b);
        assert(current + a =~= current);
    } else {
        assert(a[0] != '\n');
        let rest = a.drop_first();
        assert(!rest.contains('\n')) by {
            if rest.contains('\n') {
                let k = choose|k: int| 0 <= k < rest.len() && rest[k] == '\n';
                assert(a[k + 1] == '\n');
            }
        }
        assert(s[0] == a[0]);
        assert(s.drop_first() =~= rest + seq!['\n'] + b);
        lines_at_newline(rest, b, current.push(a[0]));
        assert(current.push(a[0]) + rest =~= current + a);
    }
}

/// A listing of one task whose name is not under `\Microsoft\Windows\` and
/// whose command is not empty or `N/A` reports exactly that task, whatever
/// else its name says (an Office task under `\Microsoft\Office\` included).
pub proof fn third_party_task_is_reported(name: Seq<char>, command: Seq<char>)
    requires
        !name.contains('\n'),
        !name.contains('\r'),
        !command.contains('\n'),
        !has_prefix(trimmed(name), "\\Microsoft\\Windows\\"@),
        trimmed(command).len() > 0,
        trimmed(command) != "N/A"@,
    ensures
        scheduled_tasks("TaskName:"@ + name + seq!['\n'] + "Task To Run:"@ + command) == seq![
            (trimmed(name), trimmed(command)),
        ],
{
    reveal_strlit("TaskName:");
    reveal_strlit("Task To Run:");
    let head = "TaskName:"@;
    let label = "Task To Run:"@;
    let l1 = head + name;
    let l2 = label + command;
    assert(!l1.contains('\n')) by {
        if l1.contains('\n') {
            let k = choose|k: int| 0 <= k < l1.len() && l1[k] == '\n';
            if k >= head.len() {
                assert(name[k - head.len()] == '\n');
            }
        }
    }
    assert(!l2.contains('\n')) by {
        if l2.contains('\n') {
            let k = choose|k: int| 0 <= k < l2.len() && l2[k] == '\n';
            if k >= label.len() {
                assert(command[k - label.len()] == '\n');
            }
        }
    }
    let text = head + name + seq!['\n'] + label + command;
    assert(text =~= l1 + seq!['\n'] + l2);
    lines_at_newline(l1, l2, Seq::empty());
    lines_without_newline(l2, Seq::empty());
    assert(Seq::<char>::empty() + l1 =~= l1);
    assert(Seq::<char>::empty() + l2 =~= l2);
    assert(l1.last() != '\r') by {
        if name.len() > 0 {
            assert(l1.last() == name[name.len() - 1]);
        }
    }
    let lines = seq![l1, l2];
    assert(text_lines(text) =~= lines);
    assert(lines.drop_last().drop_last() =~= Seq::<Seq<char>>::empty());
    assert(lines.drop_last() =~= seq![l1]);
    assert(l1.take(head.len() as int) =~= head);
    assert(l1.skip(head.len() as int) =~= name);
    assert(l2.take(label.len() as int) =~= label);
    assert(l2.skip(label.len() as int) =~= command);
    assert(!has_prefix(l2, head)) by {
        assert(l2[4] != head[4]);
        assert(l2.take(head.len() as int)[4] == l2[4]);
    }
    trimmed_is_idempotent(command);
    let empty_scan: TaskScan = (None, None, Seq::empty());
    assert(scan_lines(lines.drop_last().drop_last()) == empty_scan);
    assert(flushed(empty_scan) == Seq::<(Seq<char>, Seq<char>)>::empty());
    let after_name: TaskScan = (Some(trimmed(name)), None, Seq::empty());
    assert(scan_line(empty_scan, l1) == after_name);
    assert(scan_lines(lines.drop_last()) == after_name);
    let after_command: TaskScan = (Some(trimmed(name)), Some(trimmed(command)), Seq::empty());
    assert(scan_line(after_name, l2) == after_command);
    assert(scan_lines(lines) == after_command);
    assert(reportable_task(trimmed(name), trimmed(command)));
    assert(Seq::<(Seq<char>, Seq<char>)>::empty().push((trimmed(name), trimmed(command))) =~= seq![
        (trimmed(name), trimmed(command)),
    ]);
}

} // verus!
