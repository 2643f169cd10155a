//! Reading what a person typed on a command line.

use vstd::prelude::*;
use vstd::string::*;
use crate::guest::mounts::{spec_lines, spec_options, Separator};
use crate::text::{
    concat2, concat3, find_char, parse_i32, parse_unsigned, spec_find, spec_parse_signed,
    spec_parse_unsigned, spec_split_once, spec_starts_with, spec_to_ascii_lowercase,
    spec_to_ascii_uppercase, spec_trim, split_once, starts_with, str_eq, strings_view,
    to_ascii_lowercase, to_ascii_uppercase, trim,
};

verus! {

/// What `uid[:gid]` means: the user id, and the group id if one is named.
/// Each is a decimal number that fits 32 bits.
pub open spec fn spec_parse_user(s: Seq<char>) -> Result<(u32, Option<u32>), Seq<char>> {
    match spec_split_once(s, ':') {
        Some((u, g)) => match spec_parse_unsigned(u, u32::MAX as nat) {
            None => Err("invalid UID"@),
            Some(uid) => match spec_parse_unsigned(g, u32::MAX as nat) {
                None => Err("invalid GID"@),
                Some(gid) => Ok((uid as u32, Some(gid as u32))),
            },
        },
        None => match spec_parse_unsigned(s, u32::MAX as nat) {
            None => Err("invalid UID"@),
            Some(uid) => Ok((uid as u32, None)),
        },
    }
}

/// Reads `uid[:gid]`.
pub fn parse_user(spec: &str) -> (r: Result<(u32, Option<u32>), String>)
    ensures
        match spec_parse_user(spec@) {
            Ok(v) => r == Ok::<(u32, Option<u32>), String>(v),
            Err(m) => r is Err && r->Err_0@ == m,
        },
{
    match split_once(spec, ':') {
        Some((u, g)) => {
            let uid = match parse_unsigned(u, u32::MAX as u64) {
                Some(v) => v as u32,
                None => {
                    return Err(String::from_str("invalid UID"));
                },
            };
            let gid = match parse_unsigned(g, u32::MAX as u64) {
                Some(v) => v as u32,
                None => {
                    return Err(String::from_str("invalid GID"));
                },
            };
            Ok((uid, Some(gid)))
        },
        None => match parse_unsigned(spec, u32::MAX as u64) {
            Some(v) => Ok((v as u32, None)),
            None => Err(String::from_str("invalid UID")),
        },
    }
}

/// Whether one of the options, whatever the case of its letters, is `ro`.
pub open spec fn spec_read_only(options: Seq<char>) -> bool {
    exists|i: int|
        0 <= i < spec_options(options).len() && spec_to_ascii_lowercase(
            #[trigger] spec_options(options)[i],
        ) == "ro"@
}

/// What `hostPath:guestPath[:options]` means: the two paths, and whether the
/// options, which are separated by commas, name `ro`.
pub open spec fn spec_parse_volume(s: Seq<char>) -> Result<(Seq<char>, Seq<char>, bool), Seq<char>> {
    match spec_split_once(s, ':') {
        None => Err("invalid volume spec \""@ + s + "\"; use hostPath:guestPath[:ro]"@),
        Some((host, rest)) => match spec_split_once(rest, ':') {
            None => Ok((host, rest, false)),
            Some((guest, options)) => Ok((host, guest, spec_read_only(options))),
        },
    }
}

/// Reads a volume as a person names it: `hostPath:guestPath[:ro]`.
#[verifier::rlimit(40)]
pub fn parse_volume(spec: &str) -> (r: Result<(String, String, bool), String>)
    ensures
        match spec_parse_volume(spec@) {
            Ok((host, guest, ro)) => r is Ok && r->Ok_0.0@ == host && r->Ok_0.1@ == guest
                && r->Ok_0.2 == ro,
            Err(m) => r is Err && r->Err_0@ == m,
        },
{
    match split_once(spec, ':') {
        None => Err(concat3("invalid volume spec \"", spec, "\"; use hostPath:guestPath[:ro]")),
        Some((host, rest)) => match split_once(rest, ':') {
            None => Ok((String::from_str(host), String::from_str(rest), false)),
            Some((guest, options)) => {
                let pieces = Separator::Comma.split(options);
                let ghost views = strings_view(pieces@);
                let mut ro = false;
                let mut i: usize = 0;
                while i < pieces.len() && !ro
                    invariant
                        i <= pieces@.len(),
                        views == strings_view(pieces@),
                        views == spec_options(options@),
                        !ro ==> forall|k: int|
                            0 <= k < i ==> spec_to_ascii_lowercase(#[trigger] views[k]) != "ro"@,
                        ro ==> spec_read_only(options@),
                    decreases pieces@.len() - i + (if ro { 0int } else { 1int }),
                {
                    let lower = to_ascii_lowercase(pieces[i].as_str());
                    if str_eq(lower.as_str(), "ro") {
                        assert(spec_to_ascii_lowercase(views[i as int]) == "ro"@);
                        ro = true;
                    } else {
                        i += 1;
                    }
                }
                Ok((String::from_str(host), String::from_str(guest), ro))
            },
        },
    }
}

/// The number of a signal that is named without `SIG`, in capitals.
pub open spec fn spec_signal_number(key: Seq<char>) -> Option<i32> {
    if key == "HUP"@ {
        Some(1)
    } else if key == "INT"@ {
        Some(2)
    } else if key == "QUIT"@ {
        Some(3)
    } else if key == "KILL"@ {
        Some(9)
    } else if key == "USR1"@ {
        Some(10)
    } else if key == "USR2"@ {
        Some(12)
    } else if key == "TERM"@ {
        Some(15)
    } else if key == "CONT"@ {
        Some(18)
    } else if key == "STOP"@ {
        Some(19)
    } else {
        None
    }
}

/// What a signal as a person names it means: a number stands for itself; a
/// name counts whatever the case of its letters, with or without `SIG` before
/// it.
pub open spec fn spec_parse_signal(name: Seq<char>) -> Option<i32> {
    match spec_parse_signed(name, i32::MIN as int, i32::MAX as int) {
        Some(n) => Some(n as i32),
        None => {
            let upper = spec_to_ascii_uppercase(name);
            let key = if spec_starts_with(upper, "SIG"@) {
                upper.skip(3)
            } else {
                upper
            };
            spec_signal_number(key)
        },
    }
}

/// Reads a signal: its number, or its name such as `KILL`, `term` or
/// `SIGINT`.
#[verifier::rlimit(40)]
pub fn parse_signal(name: &str) -> (r: Result<i32, String>)
    ensures
        match spec_parse_signal(name@) {
            Some(n) => r == Ok::<i32, String>(n),
            None => r is Err && r->Err_0@ == "unknown signal: "@ + name@,
        },
{
    if let Some(n) = parse_i32(name) {
        return Ok(n);
    }
    let upper = to_ascii_uppercase(name);
    proof {
        reveal_strlit("SIG");
    }
    let key = if starts_with(upper.as_str(), "SIG") {
        upper.as_str().substring_char(3, upper.as_str().unicode_len())
    } else {
        upper.as_str()
    };
    if str_eq(key, "HUP") {
        Ok(1)
    } else if str_eq(key, "INT") {
        Ok(2)
    } else if str_eq(key, "QUIT") {
        Ok(3)
    } else if str_eq(key, "KILL") {
        Ok(9)
    } else if str_eq(key, "USR1") {
        Ok(10)
    } else if str_eq(key, "USR2") {
        Ok(12)
    } else if str_eq(key, "TERM") {
        Ok(15)
    } else if str_eq(key, "CONT") {
        Ok(18)
    } else if str_eq(key, "STOP") {
        Ok(19)
    } else {
        Err(concat2("unknown signal: ", name))
    }
}

/// What `vm:path` means: the VM and the path inside it. A string without a
/// colon, or with nothing before it, names no VM.
pub open spec fn spec_parse_guest_ref(s: Seq<char>) -> Option<(Seq<char>, Seq<char>)> {
    match spec_find(s, ':') {
        Some(i) => if i > 0 {
            Some((s.take(i), s.skip(i + 1)))
        } else {
            None
        },
        None => None,
    }
}

/// Reads `vm:path`.
pub fn parse_guest_ref(s: &str) -> (r: Option<(&str, &str)>)
    ensures
        match spec_parse_guest_ref(s@) {
            Some((vm, path)) => r is Some && r->Some_0.0@ == vm && r->Some_0.1@ == path,
            None => r is None,
        },
{
    let n = s.unicode_len();
    match find_char(s, ':') {
        Some(colon) => {
            proof {
                crate::text::lemma_find_from(s@, ':', 0);
            }
            if colon == 0 {
                return None;
            }
            Some((s.substring_char(0, colon), s.substring_char(colon + 1, n)))
        },
        None => None,
    }
}

/// What a line of an environment file gives: the line without the white
/// space around it, unless nothing is left or it is a comment, which begins
/// with `#`.
pub open spec fn spec_env_line(line: Seq<char>) -> Option<Seq<char>> {
    let entry = spec_trim(line);
    if entry.len() == 0 || entry[0] == '#' {
        None
    } else {
        Some(entry)
    }
}

/// What the lines of an environment file give, in their order.
pub open spec fn spec_env_lines(lines: Seq<Seq<char>>) -> Seq<Seq<char>>
    decreases lines.len(),
{
    if lines.len() == 0 {
        Seq::empty()
    } else {
        match spec_env_line(lines.last()) {
            Some(entry) => spec_env_lines(lines.drop_last()).push(entry),
            None => spec_env_lines(lines.drop_last()),
        }
    }
}

/// Reads the contents of an environment file: one `KEY=VALUE` on each line,
/// empty lines and comments passed over.
pub fn read_env_file(content: &str) -> (r: Vec<String>)
    ensures
        strings_view(r@) == spec_env_lines(spec_lines(content@)),
{
    let lines = Separator::LineFeed.split(content);
    let ghost views = strings_view(lines@);
    let mut out: Vec<String> = Vec::new();
    let mut i: usize = 0;
    assert(views.take(0) =~= Seq::<Seq<char>>::empty());
    assert(strings_view(out@) =~= Seq::<Seq<char>>::empty());
    while i < lines.len()
        invariant
            i <= lines@.len(),
            views == strings_view(lines@),
            strings_view(out@) == spec_env_lines(views.take(i as int)),
        decreases lines@.len() - i,
    {
        assert(views.take(i + 1).drop_last() =~= views.take(i as int));
        assert(views.take(i + 1).last() == lines@[i as int]@);
        let entry = trim(lines[i].as_str());
        if entry.unicode_len() > 0 && entry.get_char(0) != '#' {
            let ghost before = strings_view(out@);
            out.push(String::from_str(entry));
            assert(strings_view(out@) =~= before.push(entry@));
        }
        i += 1;
    }
    assert(views.take(views.len() as int) =~= views);
    out
}

} // verus!
