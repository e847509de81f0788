//! Building blocks for host compliance checks (CIS benchmark and Kubernetes STIG items).
pub mod cis_checks;
pub mod format;
pub mod kubernetes;
pub mod laws;
pub mod mode_bits;
pub mod results;
pub mod scan;
pub mod stig_checks;
pub mod system_access;
pub mod text;
pub mod verdict_laws;

use vstd::prelude::*;

use crate::format::{concat2, push_number, radix_text};
use crate::results::{outcome, passed, verdict, verdict_result, CheckStatus, CheckerResult};
use crate::system_access::{strs_view, CommandOutput, FileMetadata, SystemAccess};
use crate::text::{
    chars_of, contains, contains_word, file_lines, has_substring, has_word, output_lines,
    read_file_lines, read_output_lines, seqs_of,
};

verus! {

/// Some line has `word` among its whitespace-separated words.
pub open spec fn word_in_lines(lines: Seq<Seq<char>>, word: Seq<char>) -> bool {
    exists|i: int| 0 <= i < lines.len() && has_word(#[trigger] lines[i], word)
}

/// Some line contains `needle`.
pub open spec fn string_in_lines(lines: Seq<Seq<char>>, needle: Seq<char>) -> bool {
    exists|i: int| 0 <= i < lines.len() && has_substring(#[trigger] lines[i], needle)
}

/// Every one of `needles` is contained in some line.
pub open spec fn all_in_lines(lines: Seq<Seq<char>>, needles: Seq<Seq<char>>) -> bool {
    forall|j: int| 0 <= j < needles.len() ==> string_in_lines(lines, #[trigger] needles[j])
}

/// The answer of a search in a file, or nothing when the file could not be read.
pub open spec fn searched(r: Result<bool, std::io::Error>) -> Option<bool> {
    match r {
        Ok(b) => Some(b),
        Err(_) => None,
    }
}

/// Searching the contents of a file (or nothing) for `word`.
pub open spec fn word_search(contents: Option<Seq<u8>>, word: Seq<char>) -> Option<bool> {
    match contents {
        Some(c) => Some(word_in_lines(file_lines(c), word)),
        None => None,
    }
}

/// Searching the contents of a file (or nothing) for `needle`.
pub open spec fn string_search(contents: Option<Seq<u8>>, needle: Seq<char>) -> Option<bool> {
    match contents {
        Some(c) => Some(string_in_lines(file_lines(c), needle)),
        None => None,
    }
}

/// Searching the contents of a file (or nothing) for all of `needles`.
pub open spec fn strings_search(contents: Option<Seq<u8>>, needles: Seq<Seq<char>>) -> Option<
    bool,
> {
    match contents {
        Some(c) => Some(all_in_lines(file_lines(c), needles)),
        None => None,
    }
}

/// Searching the output of a command for all of `needles`: no answer when the
/// command could not run or did not succeed.
pub open spec fn output_search(
    output: Option<(bool, Seq<u8>, Seq<u8>)>,
    needles: Seq<Seq<char>>,
) -> Option<bool> {
    match output {
        Some(o) => if o.0 {
            Some(all_in_lines(output_lines(o.1), needles))
        } else {
            None
        },
        None => None,
    }
}

fn any_line_has_word(lines: &Vec<Vec<char>>, word: &Vec<char>) -> (r: bool)
    ensures
        r == word_in_lines(seqs_of(lines@), word@),
{
    let mut i: usize = 0;
    while i < lines.len()
        invariant
            i <= lines@.len(),
            forall|k: int| 0 <= k < i ==> !has_word(#[trigger] seqs_of(lines@)[k], word@),
        decreases lines.len() - i,
    {
        if contains_word(&lines[i], word) {
            assert(has_word(seqs_of(lines@)[i as int], word@));
            return true;
        }
        i = i + 1;
    }
    false
}

fn any_line_has(lines: &Vec<Vec<char>>, needle: &Vec<char>) -> (r: bool)
    ensures
        r == string_in_lines(seqs_of(lines@), needle@),
{
    let mut i: usize = 0;
    while i < lines.len()
        invariant
            i <= lines@.len(),
            forall|k: int| 0 <= k < i ==> !has_substring(#[trigger] seqs_of(lines@)[k], needle@),
        decreases lines.len() - i,
    {
        if contains(&lines[i], needle) {
            assert(has_substring(seqs_of(lines@)[i as int], needle@));
            return true;
        }
        i = i + 1;
    }
    false
}

fn lines_have_all(lines: &Vec<Vec<char>>, needles: &[&str]) -> (r: bool)
    ensures
        r == all_in_lines(seqs_of(lines@), strs_view(needles@)),
{
    let mut j: usize = 0;
    while j < needles.len()
        invariant
            j <= needles@.len(),
            forall|k: int| 0 <= k < j ==> string_in_lines(seqs_of(lines@), #[trigger] strs_view(needles@)[k]),
        decreases needles.len() - j,
    {
        let needle = chars_of(needles[j]);
        if !any_line_has(lines, &needle) {
            assert(!string_in_lines(seqs_of(lines@), strs_view(needles@)[j as int]));
            return false;
        }
        j = j + 1;
    }
    true
}

/// Whether some line of the file contents has `search_word` as a whitespace-separated word.
pub fn word_in_contents(contents: &[u8], search_word: &str) -> (r: bool)
    ensures
        r == word_in_lines(file_lines(contents@), search_word@),
{
    let lines = read_file_lines(contents);
    let word = chars_of(search_word);
    any_line_has_word(&lines, &word)
}

/// Whether some line of the file contents contains `search_str`.
pub fn string_in_contents(contents: &[u8], search_str: &str) -> (r: bool)
    ensures
        r == string_in_lines(file_lines(contents@), search_str@),
{
    let lines = read_file_lines(contents);
    let needle = chars_of(search_str);
    any_line_has(&lines, &needle)
}

/// Whether each of `search_strs` is contained in some line of the file contents.
pub fn strings_in_contents(contents: &[u8], search_strs: &[&str]) -> (r: bool)
    ensures
        r == all_in_lines(file_lines(contents@), strs_view(search_strs@)),
{
    let lines = read_file_lines(contents);
    lines_have_all(&lines, search_strs)
}

/// Whether each of `search_strs` is contained in some line of a command's output:
/// nothing when the command did not succeed.
pub fn strings_in_output(output: &CommandOutput, search_strs: &[&str]) -> (r: Option<bool>)
    ensures
        r == output_search(Some(output@), strs_view(search_strs@)),
{
    if output.success {
        let lines = read_output_lines(output.stdout.as_slice());
        Some(lines_have_all(&lines, search_strs))
    } else {
        None
    }
}

/// Reads a file and checks if the given `search_word` is present in its contents.
pub fn look_for_word_in_file<S: SystemAccess>(sac: &S, path: &str, search_word: &str) -> (r:
    Result<bool, std::io::Error>)
    ensures
        exists|c: Option<Seq<u8>>|
            #[trigger] sac.open_outcome(path@, c) && searched(r) == word_search(c, search_word@),
{
    let opened = sac.open(path);
    match opened {
        Ok(contents) => {
            let found = word_in_contents(contents.as_slice(), search_word);
            assert(sac.open_outcome(path@, Some(contents@)));
            Ok(found)
        },
        Err(e) => {
            assert(sac.open_outcome(path@, None));
            Err(e)
        },
    }
}

/// Reads a file and checks if the given `search_str` is present in its contents.
pub fn look_for_string_in_file<S: SystemAccess>(sac: &S, path: &str, search_str: &str) -> (r:
    Result<bool, std::io::Error>)
    ensures
        exists|c: Option<Seq<u8>>|
            #[trigger] sac.open_outcome(path@, c) && searched(r) == string_search(c, search_str@),
{
    let opened = sac.open(path);
    match opened {
        Ok(contents) => {
            let found = string_in_contents(contents.as_slice(), search_str);
            assert(sac.open_outcome(path@, Some(contents@)));
            Ok(found)
        },
        Err(e) => {
            assert(sac.open_outcome(path@, None));
            Err(e)
        },
    }
}

/// Reads a file and checks if the given `search_strs` are present in its contents.
pub fn look_for_strings_in_file<S: SystemAccess>(sac: &S, path: &str, search_strs: &[&str]) -> (r:
    Result<bool, std::io::Error>)
    ensures
        exists|c: Option<Seq<u8>>|
            #[trigger] sac.open_outcome(path@, c) && searched(r) == strings_search(
                c,
                strs_view(search_strs@),
            ),
{
    let opened = sac.open(path);
    match opened {
        Ok(contents) => {
            let found = strings_in_contents(contents.as_slice(), search_strs);
            assert(sac.open_outcome(path@, Some(contents@)));
            Ok(found)
        },
        Err(e) => {
            assert(sac.open_outcome(path@, None));
            Err(e)
        },
    }
}

/// Executes a command and checks if the given `search_strs` are in the output.
pub fn look_for_strings_in_output<S: SystemAccess>(
    sac: &S,
    cmd: &str,
    args: &[&str],
    search_strs: &[&str],
) -> (r: Option<bool>)
    ensures
        exists|o: Option<(bool, Seq<u8>, Seq<u8>)>|
            #[trigger] sac.command_outcome(cmd@, strs_view(args@), o) && r == output_search(
                o,
                strs_view(search_strs@),
            ),
{
    let ran = sac.command_output(cmd, args);
    match ran {
        Ok(output) => {
            assert(sac.command_outcome(cmd@, strs_view(args@), Some(output@)));
            strings_in_output(&output, search_strs)
        },
        Err(_) => {
            assert(sac.command_outcome(cmd@, strs_view(args@), None));
            None
        },
    }
}

/// Executes a command and checks if the given `search_str` is in the output.
pub fn look_for_string_in_output<S: SystemAccess>(
    sac: &S,
    cmd: &str,
    args: &[&str],
    search_str: &str,
) -> (r: Option<bool>)
    ensures
        exists|o: Option<(bool, Seq<u8>, Seq<u8>)>|
            #[trigger] sac.command_outcome(cmd@, strs_view(args@), o) && r == output_search(
                o,
                seq![search_str@],
            ),
{
    let search_strs = [search_str];
    let r = look_for_strings_in_output(sac, cmd, args, &search_strs);
    assert(strs_view(search_strs@) =~= seq![search_str@]);
    r
}

/// The result of checking that a file exists: passed when it can be opened, and
/// failed with `unable_to_find_error` otherwise.
pub open spec fn file_exists_verdict(contents: Option<Seq<u8>>, unable_to_find_error: Seq<char>) -> (
    CheckStatus,
    Seq<char>,
) {
    match contents {
        Some(_) => (CheckStatus::PASS, Seq::empty()),
        None => (CheckStatus::FAIL, unable_to_find_error),
    }
}

/// Check if a given file exists, getting a `CheckerResult` of the finding.
///
/// If the file exists, the `CheckerResult` returned will have a `CheckStatus::PASS`.
///
/// Otherwise, the `CheckerResult` returned will have a `CheckStatus::FAIL`.
pub fn check_file_exists<S: SystemAccess>(sac: &S, path: &str, unable_to_find_error: &str) -> (r:
    CheckerResult)
    ensures
        exists|c: Option<Seq<u8>>|
            #[trigger] sac.open_outcome(path@, c) && r@ == file_exists_verdict(
                c,
                unable_to_find_error@,
            ),
{
    let opened = sac.open(path);
    match opened {
        Ok(contents) => {
            assert(sac.open_outcome(path@, Some(contents@)));
            passed()
        },
        Err(_) => {
            assert(sac.open_outcome(path@, None));
            outcome(CheckStatus::FAIL, unable_to_find_error)
        },
    }
}

/// Check if a given file contains all provided strings, getting a `CheckerResult` of its findings.
///
/// If all `strings_to_match` are found in `path`, the `CheckerResult` returned will have a `CheckStatus::PASS`.
///
/// If one or more of `strings_to_match` are not found in `path`, then even if some are found the `CheckerResult`
/// returned will have a `CheckStatus::FAIL` and the `error` field will contain `unable_to_find_error` as its content.
///
/// If `path` cannot be read, returned status will be `CheckStatus::SKIP` indicating a manual check will need to be
/// performed and the `error` field will contain the `unable_to_check_error` value.
pub fn check_file_contains<S: SystemAccess>(
    sac: &S,
    path: &str,
    strings_to_match: &[&str],
    unable_to_check_error: &str,
    unable_to_find_error: &str,
) -> (r: CheckerResult)
    ensures
        exists|c: Option<Seq<u8>>|
            #[trigger] sac.open_outcome(path@, c) && r@ == verdict(
                strings_search(c, strs_view(strings_to_match@)),
                unable_to_check_error@,
                unable_to_find_error@,
            ),
{
    let found = look_for_strings_in_file(sac, path, strings_to_match);
    let found = match found {
        Ok(b) => Some(b),
        Err(_) => None,
    };
    verdict_result(found, unable_to_check_error, unable_to_find_error)
}

/// Execute a command and check if the output contains all provided strings, getting a `CheckerResult` of its findings.
///
/// If all `strings_to_match` are found in the output, the `CheckerResult` returned will have a `CheckStatus::PASS`.
///
/// If one or more of `strings_to_match` are not found in the output, then even if some are found the `CheckerResult`
/// returned will have a `CheckStatus::FAIL` and the `error` field will contain `unable_to_find_error` as its content.
///
/// If execution fails or the output cannot be read, returned status will be `CheckStatus::SKIP` indicating a manual
/// check will need to be performed and the `error` field will contain the `unable_to_check_error` value.
pub fn check_output_contains<S: SystemAccess>(
    sac: &S,
    cmd: &str,
    args: &[&str],
    strings_to_match: &[&str],
    unable_to_check_error: &str,
    unable_to_find_error: &str,
) -> (r: CheckerResult)
    ensures
        exists|o: Option<(bool, Seq<u8>, Seq<u8>)>|
            #[trigger] sac.command_outcome(cmd@, strs_view(args@), o) && r@ == verdict(
                output_search(o, strs_view(strings_to_match@)),
                unable_to_check_error@,
                unable_to_find_error@,
            ),
{
    let found = look_for_strings_in_output(sac, cmd, args, strings_to_match);
    verdict_result(found, unable_to_check_error, unable_to_find_error)
}

/// The result of testing that a file has none of the permission bits in `mode`:
/// failed when one of its permission bits (the low nine) is among them.
pub open spec fn not_mode_verdict(m: Option<FileMetadata>, file_path: Seq<char>, mode: u32) -> (
    CheckStatus,
    Seq<char>,
) {
    match m {
        Some(md) => {
            let file_mode = md.mode & 0o777;
            if file_mode & mode > 0 {
                (
                    CheckStatus::FAIL,
                    "file "@ + file_path + " has extra permissions: 0x"@ + radix_text(
                        file_mode as nat,
                        8,
                    ),
                )
            } else {
                (CheckStatus::PASS, Seq::empty())
            }
        },
        None => (CheckStatus::SKIP, "unable to get file metadata information"@),
    }
}

/// Tests whether a file has the given permission mode bits set, returning a `Result` based on the results.
pub fn check_file_not_mode<S: SystemAccess>(sac: &S, file_path: &str, mode: u32) -> (r: CheckerResult)
    ensures
        exists|m: Option<FileMetadata>|
            #[trigger] sac.metadata_outcome(file_path@, m) && r@ == not_mode_verdict(
                m,
                file_path@,
                mode,
            ),
{
    let inspected = sac.metadata(file_path);
    match inspected {
        Ok(metadata) => {
            assert(sac.metadata_outcome(file_path@, Some(metadata)));
            let file_mode = metadata.mode & 0o777;
            if (file_mode & mode) > 0 {
                let mut error = concat2("file ", file_path);
                error.append(" has extra permissions: 0x");
                push_number(&mut error, file_mode, 8);
                CheckerResult { status: CheckStatus::FAIL, error }
            } else {
                passed()
            }
        },
        Err(_) => {
            assert(sac.metadata_outcome(file_path@, None));
            outcome(CheckStatus::SKIP, "unable to get file metadata information")
        },
    }
}

/// The result of verifying that a file is owned by root:root.
pub open spec fn root_owner_verdict(m: Option<FileMetadata>) -> (CheckStatus, Seq<char>) {
    match m {
        Some(md) => if md.uid != 0 || md.gid != 0 {
            (CheckStatus::FAIL, "File owner is not root:root"@)
        } else {
            (CheckStatus::PASS, Seq::empty())
        },
        None => (CheckStatus::SKIP, "unable to get file metadata"@),
    }
}

/// Verifies the file at the given path is owned by root:root, returning a `Results` based on the results.
pub fn ensure_file_owner_and_group_root<S: SystemAccess>(sac: &S, file_path: &str) -> (r:
    CheckerResult)
    ensures
        exists|m: Option<FileMetadata>|
            #[trigger] sac.metadata_outcome(file_path@, m) && r@ == root_owner_verdict(m),
{
    let inspected = sac.metadata(file_path);
    match inspected {
        Ok(metadata) => {
            assert(sac.metadata_outcome(file_path@, Some(metadata)));
            if metadata.uid != 0 || metadata.gid != 0 {
                outcome(CheckStatus::FAIL, "File owner is not root:root")
            } else {
                passed()
            }
        },
        Err(_) => {
            assert(sac.metadata_outcome(file_path@, None));
            outcome(CheckStatus::SKIP, "unable to get file metadata")
        },
    }
}

} // verus!
