//! Resolving a service's human-readable description.
//!
//! A description comes, in order of preference, from the first non-blank
//! line of a `description`, `README` or `README.md` file in the definition
//! directory, else from the short description of the package owning one of
//! the service's scripts, as a package-query tool reports it.
use vstd::prelude::*;

use crate::ProcessResult;
use crate::error::ServiceError;
use crate::manager::ServiceManager;
use crate::state::status_line;
use crate::text::find_char;
use crate::text::first_line_trimmed;
use crate::text::is_digit_char;
use crate::text::scan_to_char;
use crate::text::trim_in;
use crate::text::trim_segment;
use crate::text::trim_spaces;
use crate::valid_service_name;

verus! {

/// The filenames tried inside a definition directory, in order.
pub fn description_file_candidates() -> (r: (&'static str, &'static str, &'static str))
    ensures
        r.0@ == "description"@,
        r.1@ == "README"@,
        r.2@ == "README.md"@,
{
    ("description", "README", "README.md")
}

/// What a description file yields: its first non-blank line, trimmed; a
/// file of nothing but whitespace yields nothing.
pub open spec fn spec_file_description(contents: Seq<char>) -> Option<Seq<char>> {
    let t = trim_in(contents, 0, contents.len() as int);
    if t.len() == 0 {
        None
    } else {
        Some(first_line_trimmed(t))
    }
}

/// Extract a description from one candidate file's contents.
pub fn file_description(contents: &str) -> (r: Option<String>)
    ensures
        r.deep_view() == spec_file_description(contents@),
{
    let t = trim_spaces(contents);
    if t.is_empty() {
        None
    } else {
        Some(status_line(t).to_owned())
    }
}

/// The first candidate file whose contents yield a description; a file
/// that could not be read (`None`) is passed over like a blank one.
pub open spec fn spec_description_from_candidates(cs: Seq<Option<Seq<char>>>) -> Option<Seq<char>>
    decreases cs.len(),
{
    if cs.len() == 0 {
        None
    } else {
        match cs[0] {
            Some(c) => match spec_file_description(c) {
                Some(d) => Some(d),
                None => spec_description_from_candidates(cs.drop_first()),
            },
            None => spec_description_from_candidates(cs.drop_first()),
        }
    }
}

/// Try the candidate files' contents in order.
pub fn description_from_candidates(candidates: &Vec<Option<String>>) -> (r: Option<String>)
    ensures
        r.deep_view() == spec_description_from_candidates(candidates.deep_view()),
{
    let n = candidates.len();
    proof {
        assert(candidates.deep_view().skip(0) =~= candidates.deep_view());
    }
    let mut i: usize = 0;
    while i < n
        invariant
            0 <= i <= n == candidates@.len(),
            spec_description_from_candidates(candidates.deep_view())
                == spec_description_from_candidates(candidates.deep_view().skip(i as int)),
        decreases n - i,
    {
        proof {
            assert(candidates.deep_view().skip(i as int)[0] == candidates@[i as int].deep_view());
            assert(candidates.deep_view().skip(i as int).drop_first() =~= candidates.deep_view()
                .skip(i + 1 as int));
        }
        match &candidates[i] {
            Some(contents) => {
                match file_description(contents.as_str()) {
                    Some(d) => {
                        return Some(d);
                    },
                    None => {},
                }
            },
            None => {},
        }
        i += 1;
    }
    proof {
        assert(candidates.deep_view().skip(n as int).len() == 0);
    }
    None
}

/// The last index of `c` in `s`, or `-1` when `c` does not occur.
pub open spec fn rfind_char(s: Seq<char>, c: char) -> int
    decreases s.len(),
{
    if s.len() == 0 {
        -1
    } else if s.last() == c {
        s.len() - 1
    } else {
        rfind_char(s.drop_last(), c)
    }
}

proof fn lemma_rfind_none(s: Seq<char>, c: char)
    requires
        forall|m: int| 0 <= m < s.len() ==> s[m] != c,
    ensures
        rfind_char(s, c) == -1,
    decreases s.len(),
{
    if s.len() > 0 {
        assert(forall|m: int| 0 <= m < s.drop_last().len() ==> s.drop_last()[m] != c);
        lemma_rfind_none(s.drop_last(), c);
    }
}

proof fn lemma_rfind_exact(s: Seq<char>, c: char, k: int)
    requires
        0 <= k < s.len(),
        s[k] == c,
        forall|m: int| k < m < s.len() ==> s[m] != c,
    ensures
        rfind_char(s, c) == k,
    decreases s.len(),
{
    if k == s.len() - 1 {
    } else {
        assert(s.last() != c);
        assert(s.drop_last()[k] == c);
        assert(forall|m: int| k < m < s.drop_last().len() ==> s.drop_last()[m] != c);
        lemma_rfind_exact(s.drop_last(), c, k);
    }
}

/// A trailing `-<digit>…` version suffix stripped off a package name: the
/// part before the last dash when a digit follows it, else the name as it
/// came.
pub open spec fn spec_strip_package_version(p: Seq<char>) -> Seq<char> {
    let pos = rfind_char(p, '-');
    if pos >= 0 && pos + 1 < p.len() && is_digit_char(p[pos + 1]) {
        p.subrange(0, pos)
    } else {
        p
    }
}

/// Strip the version suffix off a `name-version` package identifier.
pub fn strip_package_version(package: &str) -> (r: &str)
    ensures
        r@ == spec_strip_package_version(package@),
{
    let len = package.unicode_len();
    let mut b: usize = len;
    while b > 0 && package.get_char(b - 1) != '-'
        invariant
            0 <= b <= len == package@.len(),
            forall|m: int| b <= m < len ==> package@[m] != '-',
        decreases b,
    {
        b -= 1;
    }
    if b == 0 {
        proof {
            lemma_rfind_none(package@, '-');
        }
        return package;
    }
    proof {
        lemma_rfind_exact(package@, '-', b - 1);
    }
    let pos = b - 1;
    if pos + 1 < len {
        let next = package.get_char(pos + 1);
        if '0' <= next && next <= '9' {
            return package.substring_char(0, pos);
        }
    }
    package
}

/// The first non-blank line of a text from position `i` on, trimmed.
pub open spec fn first_nonblank_line(s: Seq<char>, i: int) -> Option<Seq<char>>
    decreases s.len() - i,
{
    if 0 <= i <= s.len() {
        let nl = find_char(s, i, '\n');
        if nl < i || nl > s.len() {
            None
        } else {
            let t = trim_in(s, i, nl);
            if t.len() > 0 {
                Some(t)
            } else if nl == s.len() {
                None
            } else {
                first_nonblank_line(s, nl + 1)
            }
        }
    } else {
        None
    }
}

/// Scan a text for its first non-blank line, trimmed.
pub fn scan_first_nonblank_line(s: &str) -> (r: Option<&str>)
    ensures
        match r {
            Some(line) => first_nonblank_line(s@, 0) == Some(line@),
            None => first_nonblank_line(s@, 0) is None,
        },
{
    let len = s.unicode_len();
    let mut i: usize = 0;
    loop
        invariant
            0 <= i <= len == s@.len(),
            first_nonblank_line(s@, 0) == first_nonblank_line(s@, i as int),
        decreases len - i,
    {
        let nl = scan_to_char(s, i, '\n');
        let (a, b) = trim_segment(s, i, nl);
        if a < b {
            return Some(s.substring_char(a, b));
        }
        if nl == len {
            return None;
        }
        i = nl + 1;
    }
}

/// The package name the owner query reports: from its first non-blank
/// output line, the part before the colon, trimmed, with any version
/// suffix stripped; a failed query reports none.
pub open spec fn spec_package_name(output: ProcessResult) -> Option<Seq<char>> {
    if !output.success {
        None
    } else {
        match first_nonblank_line(output.stdout@, 0) {
            Some(line) => {
                let seg = line.subrange(0, find_char(line, 0, ':'));
                Some(spec_strip_package_version(trim_in(seg, 0, seg.len() as int)))
            },
            None => None,
        }
    }
}

/// Read the owning package's name out of a finished owner query.
pub fn package_name_from_owner_output(output: &ProcessResult) -> (r: Option<String>)
    ensures
        r.deep_view() == spec_package_name(*output),
{
    if !output.success {
        return None;
    }
    let line = match scan_first_nonblank_line(output.stdout.as_str()) {
        Some(line) => line,
        None => {
            return None;
        },
    };
    let colon = scan_to_char(line, 0, ':');
    let seg = line.substring_char(0, colon);
    let trimmed = trim_spaces(seg);
    Some(strip_package_version(trimmed).to_owned())
}

/// The short description a finished description query reports: its trimmed
/// output, unless the query failed or said nothing.
pub open spec fn spec_package_description(output: ProcessResult) -> Option<Seq<char>> {
    if output.success && trim_in(output.stdout@, 0, output.stdout@.len() as int).len() > 0 {
        Some(trim_in(output.stdout@, 0, output.stdout@.len() as int))
    } else {
        None
    }
}

/// Read the short description out of a finished description query.
pub fn package_description(output: &ProcessResult) -> (r: Option<String>)
    ensures
        r.deep_view() == spec_package_description(*output),
{
    if !output.success {
        return None;
    }
    let trimmed = trim_spaces(output.stdout.as_str());
    if trimmed.is_empty() {
        None
    } else {
        Some(trimmed.to_owned())
    }
}

/// What the caller observed while gathering a description: whether the
/// definition directory exists, the contents of the candidate files in
/// order (`None` for one that could not be read), and the finished
/// description query when the files yielded nothing and the owner query
/// named a package.
pub struct DescriptionSources {
    pub definition_exists: bool,
    pub candidate_contents: Vec<Option<String>>,
    pub package_desc_query: Option<ProcessResult>,
}

impl ServiceManager {
    /// Resolve a service's description from the gathered sources: the
    /// candidate files first, the package query's answer as the fallback,
    /// absent when both yield nothing or the definition is missing.
    pub fn service_description(&self, service: &str, sources: &DescriptionSources) -> (r: Result<
        Option<String>,
        ServiceError,
    >)
        ensures
            !valid_service_name(service@) ==> (r matches Err(e) && e
                matches ServiceError::InvalidServiceName(n) && n@ == service@),
            valid_service_name(service@) && !sources.definition_exists ==> (r matches Ok(d) && d
                is None),
            valid_service_name(service@) && sources.definition_exists ==> (r matches Ok(d) && {
                let from_files = spec_description_from_candidates(
                    sources.candidate_contents.deep_view(),
                );
                d.deep_view() == (match from_files {
                    Some(text) => Some(text),
                    None => match sources.package_desc_query {
                        Some(q) => spec_package_description(q),
                        None => None,
                    },
                })
            }),
    {
        self.validate_service_name(service)?;
        if !sources.definition_exists {
            return Ok(None);
        }
        match description_from_candidates(&sources.candidate_contents) {
            Some(d) => Ok(Some(d)),
            None => match &sources.package_desc_query {
                Some(q) => Ok(package_description(q)),
                None => Ok(None),
            },
        }
    }
}

} // verus!
