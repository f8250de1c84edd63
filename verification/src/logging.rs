//! The log's line format and which old log files are removed at start-up.
use vstd::prelude::*;
use crate::order::{distinct_below, stable_sort_indices, stably_sorted};
use crate::text::{
    chars_of, contains_chars, find_chars, first_occurrence, occurs_at, push_decimal, push_str, starts_with_chars,
    string_from_range, nat_decimal, to_owned_string,
};

verus! {

/// How many log files are kept: at start-up enough of the oldest are removed
/// that, with the new file, at most this many remain.
pub const MAX_LOG_FILES: usize = 20;

/// The text of `s` before the first `::`, or all of it.
pub open spec fn first_segment(s: Seq<char>) -> Seq<char> {
    match first_occurrence(s, "::"@) {
        Some(i) => s.take(i),
        None => s,
    }
}

/// The short module tag of a log line.
pub open spec fn spec_simplify_target(t: Seq<char>) -> Seq<char> {
    if "penguin_downloader"@.is_prefix_of(t) {
        "[core]"@
    } else if "penguin_downloader_tui"@.is_prefix_of(t) {
        "[tui]"@
    } else if exists|i: int| occurs_at(t, "provider"@, i) {
        "[provider]"@
    } else {
        "["@ + first_segment(t) + "]"@
    }
}

/// The module tag shown in a log line for an event's target.
pub fn simplify_target(target: &str) -> (res: String)
    ensures
        res@ == spec_simplify_target(target@),
{
    let t = chars_of(target);
    let core = chars_of("penguin_downloader");
    let tui = chars_of("penguin_downloader_tui");
    let provider = chars_of("provider");
    if starts_with_chars(&t, &core) {
        to_owned_string("[core]")
    } else if starts_with_chars(&t, &tui) {
        to_owned_string("[tui]")
    } else if contains_chars(&t, &provider) {
        to_owned_string("[provider]")
    } else {
        let sep = chars_of("::");
        let mut r = String::new();
        push_str(&mut r, "[");
        match find_chars(&t, &sep) {
            Some(i) => {
                let head = string_from_range(&t, 0, i);
                assert(t@.subrange(0, i as int) == t@.take(i as int));
                push_str(&mut r, head.as_str());
            },
            None => {
                push_str(&mut r, target);
            },
        }
        push_str(&mut r, "]");
        r
    }
}

/// The source path after the first `/src/` (or `\src\`), or all of it.
pub open spec fn spec_simplify_file_path(f: Seq<char>) -> Seq<char> {
    match first_occurrence(f, "/src/"@) {
        Some(i) => f.skip(i + 5),
        None => match first_occurrence(f, "\\src\\"@) {
            Some(i) => f.skip(i + 5),
            None => f,
        },
    }
}

/// The source path shown in a log line.
pub fn simplify_file_path(file: &str) -> (res: String)
    ensures
        res@ == spec_simplify_file_path(file@),
{
    let f = chars_of(file);
    let flen = f.len();
    let a = chars_of("/src/");
    let b = chars_of("\\src\\");
    proof {
        reveal_strlit("/src/");
        reveal_strlit("\\src\\");
        assert(a@.len() == 5);
        assert(b@.len() == 5);
    }
    match find_chars(&f, &a) {
        Some(i) => {
            assert(occurs_at(f@, a@, i as int));
            let start: usize = i + a.len();
            assert(f@.subrange(start as int, f@.len() as int) == f@.skip(i + 5));
            string_from_range(&f, start, flen)
        },
        None => match find_chars(&f, &b) {
            Some(i) => {
                assert(occurs_at(f@, b@, i as int));
                let start: usize = i + b.len();
                assert(f@.subrange(start as int, f@.len() as int) == f@.skip(i + 5));
                string_from_range(&f, start, flen)
            },
            None => to_owned_string(file),
        },
    }
}

/// A log line: time, level, module tag, `file:line`, ` - `, the event's
/// fields, and a line break. A missing file shows as `unknown`, a missing
/// line as 0.
pub open spec fn spec_log_line(
    time: Seq<char>,
    level: Seq<char>,
    target: Seq<char>,
    file: Option<Seq<char>>,
    line: Option<u32>,
    fields: Seq<char>,
) -> Seq<char> {
    time + " "@ + level + " "@ + spec_simplify_target(target) + " "@ + spec_simplify_file_path(
        match file {
            Some(f) => f,
            None => "unknown"@,
        },
    ) + ":"@ + nat_decimal(
        match line {
            Some(l) => l as nat,
            None => 0,
        },
    ) + " - "@ + fields + "\n"@
}

/// Formats one log line.
pub fn log_line(time: &str, level: &str, target: &str, file: Option<&str>, line: Option<u32>, fields: &str) -> (res:
    String)
    ensures
        res@ == spec_log_line(
            time@,
            level@,
            target@,
            match file {
                Some(f) => Some(f@),
                None => None,
            },
            line,
            fields@,
        ),
{
    let module = simplify_target(target);
    let path = match file {
        Some(f) => simplify_file_path(f),
        None => simplify_file_path("unknown"),
    };
    let n: u32 = match line {
        Some(l) => l,
        None => 0,
    };
    let mut s = String::new();
    push_str(&mut s, time);
    push_str(&mut s, " ");
    push_str(&mut s, level);
    push_str(&mut s, " ");
    push_str(&mut s, module.as_str());
    push_str(&mut s, " ");
    push_str(&mut s, path.as_str());
    push_str(&mut s, ":");
    push_decimal(&mut s, n as u64);
    push_str(&mut s, " - ");
    push_str(&mut s, fields);
    push_str(&mut s, "\n");
    s
}

/// How one field of an event is added to the field text: the message as it
/// is, any other field as `name=value`, separated by `, ` from what came
/// before unless nothing did or it ends in ` - `.
pub open spec fn spec_record_field(result: Seq<char>, name: Seq<char>, value: Seq<char>) -> Seq<char> {
    if name == "message"@ {
        result + value
    } else {
        let sep = if result.len() > 0 && !" - "@.is_suffix_of(result) { ", "@ } else { Seq::empty() };
        result + sep + name + "="@ + value
    }
}

/// Adds one field of an event to the field text.
pub fn record_field(result: &mut String, name: &str, value: &str)
    ensures
        final(result)@ == spec_record_field(old(result)@, name@, value@),
{
    if crate::text::str_eq(name, "message") {
        push_str(result, value);
    } else {
        let r = chars_of(result.as_str());
        let tail = chars_of(" - ");
        proof {
            reveal_strlit(" - ");
        }
        let ends = r.len() >= 3 && crate::text::chars_occur_at(&r, &tail, r.len() - 3);
        proof {
            if r@.len() >= 3 {
                if " - "@.is_suffix_of(r@) {
                    assert(r@.subrange(r@.len() - 3, r@.len() as int) =~= " - "@);
                }
                if occurs_at(r@, " - "@, r@.len() - 3) {
                    assert forall|j: int| 0 <= j < 3 implies " - "@[j] == r@[r@.len() - 3 + j] by {
                        assert(r@.subrange(r@.len() - 3, r@.len() as int)[j] == r@[r@.len() - 3 + j]);
                    }
                }
            }
        }
        if r.len() > 0 && !ends {
            push_str(result, ", ");
        }
        push_str(result, name);
        push_str(result, "=");
        push_str(result, value);
    }
}

/// A directory entry seen when old logs are cleaned up.
pub struct LogFile {
    pub name: String,
    pub is_file: bool,
    /// Modification time; unreadable times count as the epoch.
    pub modified: i128,
}

/// A file name with extension `log` whose stem starts with `penguin-downloader_`.
pub open spec fn is_log_name(name: Seq<char>) -> bool {
    &&& name.len() >= 4
    &&& name.skip(name.len() - 4) == ".log"@
    &&& "penguin-downloader_"@.is_prefix_of(name.take(name.len() - 4))
}

pub open spec fn is_old_log(f: LogFile) -> bool {
    f.is_file && is_log_name(f.name@)
}

/// Positions of the log files among the entries, in directory order.
pub open spec fn log_positions(files: Seq<LogFile>) -> Seq<usize>
    decreases files.len(),
{
    if files.len() == 0 {
        Seq::empty()
    } else {
        let r = log_positions(files.drop_last());
        if is_old_log(files.last()) {
            r.push((files.len() - 1) as usize)
        } else {
            r
        }
    }
}

/// The modification times of the entries at `pos`.
pub open spec fn times_at(files: Seq<LogFile>, pos: Seq<usize>) -> Seq<i128> {
    Seq::new(pos.len(), |i: int| files[pos[i] as int].modified)
}

/// How many of `n` log files are removed so that, with the new one, at most
/// `MAX_LOG_FILES` remain.
pub open spec fn remove_count(n: nat) -> nat {
    if n >= MAX_LOG_FILES { (n - MAX_LOG_FILES + 1) as nat } else { 0 }
}

/// Whether a file name is one of this program's logs.
pub fn is_log_file_name(name: &str) -> (res: bool)
    ensures
        res == is_log_name(name@),
{
    let cs = chars_of(name);
    if cs.len() < 4 {
        return false;
    }
    let ext = chars_of(".log");
    let prefix = chars_of("penguin-downloader_");
    let stem_len = cs.len() - 4;
    let ends = crate::text::chars_occur_at(&cs, &ext, stem_len);
    proof {
        reveal_strlit(".log");
        assert(cs@.subrange(stem_len as int, stem_len + 4) == cs@.skip(stem_len as int));
    }
    if !ends {
        return false;
    }
    let mut stem: Vec<char> = Vec::new();
    let mut i: usize = 0;
    while i < stem_len
        invariant
            i <= stem_len,
            stem_len + 4 == cs@.len(),
            stem@ == cs@.take(i as int),
        decreases stem_len - i,
    {
        stem.push(cs[i]);
        assert(cs@.take(i + 1) == cs@.take(i as int).push(cs@[i as int]));
        i += 1;
    }
    starts_with_chars(&stem, &prefix)
}

/// The entries to delete at start-up: the oldest log files (by modification
/// time, ties in directory order), as many as `remove_count` says.
pub fn logs_to_remove(files: &Vec<LogFile>) -> (res: Vec<usize>)
    ensures
        res@.len() == remove_count(log_positions(files@).len()),
        exists|perm: Seq<usize>|
            {
                &&& perm.len() == log_positions(files@).len()
                &&& distinct_below(perm, log_positions(files@).len())
                &&& stably_sorted(perm, times_at(files@, log_positions(files@)))
                &&& forall|j: int| 0 <= j < res@.len() ==> #[trigger] res@[j] == log_positions(files@)[perm[j] as int]
            },
{
    let mut pos: Vec<usize> = Vec::new();
    let mut keys: Vec<i128> = Vec::new();
    let mut i: usize = 0;
    while i < files.len()
        invariant
            i <= files@.len(),
            pos@ == log_positions(files@.take(i as int)),
            keys@ == times_at(files@, pos@),
            forall|k: int| 0 <= k < pos@.len() ==> #[trigger] pos@[k] < i,
        decreases files.len() - i,
    {
        proof {
            assert(files@.take(i + 1).drop_last() == files@.take(i as int));
        }
        if files[i].is_file && is_log_file_name(files[i].name.as_str()) {
            pos.push(i);
            keys.push(files[i].modified);
            assert(keys@ =~= times_at(files@, pos@));
        }
        i += 1;
    }
    assert(files@.take(files.len() as int) == files@);
    let perm = stable_sort_indices(&keys);
    let count: usize = if pos.len() >= MAX_LOG_FILES { pos.len() - MAX_LOG_FILES + 1 } else { 0 };
    let mut res: Vec<usize> = Vec::new();
    let mut j: usize = 0;
    while j < count
        invariant
            count <= pos@.len(),
            perm@.len() == pos@.len(),
            distinct_below(perm@, pos@.len() as nat),
            j <= count,
            res@.len() == j,
            forall|t: int| 0 <= t < j ==> #[trigger] res@[t] == pos@[perm@[t] as int],
        decreases count - j,
    {
        res.push(pos[perm[j]]);
        j += 1;
    }
    res
}

/// At most `MAX_LOG_FILES - 1` old logs remain after the clean-up, so that
/// the new log file makes at most `MAX_LOG_FILES`.
pub proof fn law_logs_kept_below_limit(n: nat)
    ensures
        n - remove_count(n) <= MAX_LOG_FILES - 1 || n < MAX_LOG_FILES,
        remove_count(n) <= n,
{
}

} // verus!
