//! The status query: a single stack-info invocation of the external tool,
//! whose free-text report is pattern-extracted into a structured
//! [`GithubResponse`] — endpoint URL, coarse health from the resource
//! count, and the last-update timestamp.

use crate::actions::github_service_deploy::url_end;
use crate::actions::github_service_deploy::url_end_at;
use crate::classifier::Classification;
use crate::classifier::OpKind;
use crate::classifier::classify;
use crate::classifier::spec_classify;
use crate::classifier::spec_status_from_resources;
use crate::classifier::status_from_resources;
use crate::process::ProcessOutcome;
use crate::proto::GithubRequest;
use crate::proto::GithubRequestView;
use crate::proto::GithubResponse;
use crate::proto::GithubResponseView;
use crate::status::Code;
use crate::status::Status;
use crate::text::check_match_at;
use crate::text::digit_run_end;
use crate::text::digits_value;
use crate::text::is_digit;
use crate::text::is_space;
use crate::text::lemma_digit_run;
use crate::text::match_at;
use crate::text::parse_digits;
use crate::text::scan_digits;
use crate::text::scan_spaces;
use crate::text::scan_uppers;
use crate::text::space_run_end;
use crate::text::upper_run_end;
use vstd::prelude::*;

verus! {

/// The endpoint-URL pattern anchored at position `i` of the stack-info
/// report: `OUTPUT`, whitespace, `VALUE`, whitespace, `url`, more
/// whitespace, then the URL itself.
pub open spec fn status_url_at(t: Seq<char>, i: int) -> Option<Seq<char>> {
    if !match_at(t, "OUTPUT"@, i) {
        None
    } else {
        let a = space_run_end(t, i + "OUTPUT"@.len());
        if a == i + "OUTPUT"@.len() {
            None
        } else if !match_at(t, "VALUE"@, a) {
            None
        } else {
            let b = space_run_end(t, a + "VALUE"@.len());
            if b == a + "VALUE"@.len() {
                None
            } else if !match_at(t, "url"@, b) {
                None
            } else {
                let c = space_run_end(t, b + "url"@.len());
                if c == b + "url"@.len() {
                    None
                } else {
                    match url_end_at(t, c) {
                        Some(e) => Some(t.subrange(c, e)),
                        None => None,
                    }
                }
            }
        }
    }
}

/// The endpoint URL at the first position of the report, scanning from
/// index `i`, where the whole pattern matches.
pub open spec fn status_url_from(t: Seq<char>, i: int) -> Option<Seq<char>>
    decreases t.len() - i,
{
    if i >= t.len() {
        None
    } else {
        match status_url_at(t, i) {
            Some(u) => Some(u),
            None => status_url_from(t, i + 1),
        }
    }
}

/// Where the endpoint URL stands in the stack-info report.
pub open spec fn status_url_capture(t: Seq<char>) -> Option<Seq<char>> {
    status_url_from(t, 0)
}

/// Checks for the endpoint-URL pattern anchored at position `i`, yielding
/// the capture's bounds.
fn status_url_at_check(input: &str, i: usize) -> (r: Option<(usize, usize)>)
    requires
        input@.len() <= usize::MAX as int,
        i as int <= input@.len(),
    ensures
        match r {
            Some(b) => status_url_at(input@, i as int) == Some(
                input@.subrange(b.0 as int, b.1 as int),
            ) && b.0 <= b.1 && b.1 as int <= input@.len(),
            None => status_url_at(input@, i as int) is None,
        },
{
    proof {
        reveal_strlit("OUTPUT");
        reveal_strlit("VALUE");
        reveal_strlit("url");
    }
    let n = input.unicode_len();
    if n - i < 6 || !check_match_at(input, "OUTPUT", i) {
        return None;
    }
    let a = scan_spaces(input, i + 6);
    if a == i + 6 {
        return None;
    }
    if n - a < 5 || !check_match_at(input, "VALUE", a) {
        return None;
    }
    let b = scan_spaces(input, a + 5);
    if b == a + 5 {
        return None;
    }
    if n - b < 3 || !check_match_at(input, "url", b) {
        return None;
    }
    let c = scan_spaces(input, b + 3);
    if c == b + 3 {
        return None;
    }
    match url_end(input, c) {
        Some(e) => Some((c, e)),
        None => None,
    }
}

/// Extracts the endpoint URL from the stack-info report.
pub fn extract_output_url(input: &str) -> (r: Option<String>)
    ensures
        match r {
            Some(u) => status_url_capture(input@) == Some(u@),
            None => status_url_capture(input@) is None,
        },
{
    let n = input.unicode_len();
    let mut i: usize = 0;
    while i < n
        invariant
            n == input@.len(),
            i <= n,
            status_url_from(input@, 0) == status_url_from(input@, i as int),
        decreases n - i,
    {
        match status_url_at_check(input, i) {
            Some(bounds) => {
                return Some(input.substring_char(bounds.0, bounds.1).to_owned());
            },
            None => {},
        }
        i += 1;
    }
    None
}

/// The resource-count pattern anchored at position `i` of the stack-info
/// report: the digits in `Current stack resources (N)`.
pub open spec fn resource_count_at(t: Seq<char>, i: int) -> Option<Seq<char>> {
    if !match_at(t, "Current stack resources ("@, i) {
        None
    } else {
        let s = i + "Current stack resources ("@.len();
        let e = digit_run_end(t, s);
        if e == s {
            None
        } else if e < t.len() && t[e] == ')' {
            Some(t.subrange(s, e))
        } else {
            None
        }
    }
}

/// The resource count at the first position of the report, scanning from
/// index `i`, where the whole pattern matches.
pub open spec fn resource_count_from(t: Seq<char>, i: int) -> Option<Seq<char>>
    decreases t.len() - i,
{
    if i >= t.len() {
        None
    } else {
        match resource_count_at(t, i) {
            Some(u) => Some(u),
            None => resource_count_from(t, i + 1),
        }
    }
}

/// Where the resource count stands in the stack-info report.
pub open spec fn resource_count_capture(t: Seq<char>) -> Option<Seq<char>> {
    resource_count_from(t, 0)
}

/// Checks for the resource-count pattern anchored at position `i`,
/// yielding the digits' bounds.
fn resource_count_at_check(input: &str, i: usize) -> (r: Option<(usize, usize)>)
    requires
        input@.len() <= usize::MAX as int,
        i as int <= input@.len(),
    ensures
        match r {
            Some(b) => resource_count_at(input@, i as int) == Some(
                input@.subrange(b.0 as int, b.1 as int),
            ) && b.0 < b.1 && b.1 as int <= input@.len() && (forall|j: int|
                b.0 <= j < b.1 ==> is_digit(input@[j])),
            None => resource_count_at(input@, i as int) is None,
        },
{
    proof {
        reveal_strlit("Current stack resources (");
    }
    let n = input.unicode_len();
    if n - i < 25 || !check_match_at(input, "Current stack resources (", i) {
        return None;
    }
    let s = i + 25;
    let e = scan_digits(input, s);
    if e == s {
        return None;
    }
    if e == n {
        return None;
    }
    if input.get_char(e) != ')' {
        return None;
    }
    proof {
        lemma_digit_run(input@, s as int);
    }
    Some((s, e))
}

/// Extracts the resource count digits from the stack-info report.
pub fn extract_num_of_resources(input: &str) -> (r: Option<String>)
    ensures
        match r {
            Some(u) => resource_count_capture(input@) == Some(u@) && u@.len() > 0 && (forall|
                j: int,
            |
                0 <= j < u@.len() ==> is_digit(u@[j])),
            None => resource_count_capture(input@) is None,
        },
{
    let n = input.unicode_len();
    let mut i: usize = 0;
    while i < n
        invariant
            n == input@.len(),
            i <= n,
            resource_count_from(input@, 0) == resource_count_from(input@, i as int),
        decreases n - i,
    {
        match resource_count_at_check(input, i) {
            Some(bounds) => {
                return Some(input.substring_char(bounds.0, bounds.1).to_owned());
            },
            None => {},
        }
        i += 1;
    }
    None
}

/// A timestamp in parentheses starting at index `i`: `(` then a date
/// `dddd-dd-dd`, a space, a time `dd:dd:dd`, a dot, fractional digits, a
/// whitespace, `+` and offset digits, a whitespace, capital letters for
/// the zone, then `)`.  Yields the index of the closing parenthesis.
pub open spec fn timestamp_end_at(t: Seq<char>, i: int) -> Option<int> {
    if !(0 <= i && i < t.len() && t[i] == '(') {
        None
    } else if !date_shape_at(t, i + 1) {
        None
    } else {
        let f = digit_run_end(t, i + 21);
        if f == i + 21 {
            None
        } else if !(f < t.len() && is_space(t[f])) {
            None
        } else if !(f + 1 < t.len() && t[f + 1] == '+') {
            None
        } else {
            let g = digit_run_end(t, f + 2);
            if g == f + 2 {
                None
            } else if !(g < t.len() && is_space(t[g])) {
                None
            } else {
                let h = upper_run_end(t, g + 1);
                if h == g + 1 {
                    None
                } else if !(h < t.len() && t[h] == ')') {
                    None
                } else {
                    Some(h)
                }
            }
        }
    }
}

/// The fixed `dddd-dd-dd dd:dd:dd.` block of a timestamp at index `p`.
pub open spec fn date_shape_at(t: Seq<char>, p: int) -> bool {
    &&& 0 <= p
    &&& p + 20 <= t.len()
    &&& is_digit(t[p])
    &&& is_digit(t[p + 1])
    &&& is_digit(t[p + 2])
    &&& is_digit(t[p + 3])
    &&& t[p + 4] == '-'
    &&& is_digit(t[p + 5])
    &&& is_digit(t[p + 6])
    &&& t[p + 7] == '-'
    &&& is_digit(t[p + 8])
    &&& is_digit(t[p + 9])
    &&& t[p + 10] == ' '
    &&& is_digit(t[p + 11])
    &&& is_digit(t[p + 12])
    &&& t[p + 13] == ':'
    &&& is_digit(t[p + 14])
    &&& is_digit(t[p + 15])
    &&& t[p + 16] == ':'
    &&& is_digit(t[p + 17])
    &&& is_digit(t[p + 18])
    &&& t[p + 19] == '.'
}

/// The first timestamp in the report, scanning from index `i`.
pub open spec fn updated_at_from(t: Seq<char>, i: int) -> Option<Seq<char>>
    decreases t.len() - i,
{
    if i >= t.len() {
        None
    } else {
        match timestamp_end_at(t, i) {
            Some(h) => Some(t.subrange(i + 1, h)),
            None => updated_at_from(t, i + 1),
        }
    }
}

/// Checks for a timestamp at index `i`, yielding the index of its closing
/// parenthesis.
fn timestamp_end(t: &str, i: usize) -> (r: Option<usize>)
    requires
        t@.len() <= usize::MAX as int,
        i as int <= t@.len(),
    ensures
        match r {
            Some(h) => timestamp_end_at(t@, i as int) == Some(h as int) && i < h,
            None => timestamp_end_at(t@, i as int) is None,
        },
{
    let n = t.unicode_len();
    if i == n {
        return None;
    }
    if t.get_char(i) != '(' {
        return None;
    }
    if n - (i + 1) < 20 {
        return None;
    }
    let p = i + 1;
    let ok = {
        let mut good = true;
        if !digit_char(t, p) || !digit_char(t, p + 1) || !digit_char(t, p + 2) || !digit_char(
            t,
            p + 3,
        ) {
            good = false;
        }
        if t.get_char(p + 4) != '-' || !digit_char(t, p + 5) || !digit_char(t, p + 6) {
            good = false;
        }
        if t.get_char(p + 7) != '-' || !digit_char(t, p + 8) || !digit_char(t, p + 9) {
            good = false;
        }
        if t.get_char(p + 10) != ' ' || !digit_char(t, p + 11) || !digit_char(t, p + 12) {
            good = false;
        }
        if t.get_char(p + 13) != ':' || !digit_char(t, p + 14) || !digit_char(t, p + 15) {
            good = false;
        }
        if t.get_char(p + 16) != ':' || !digit_char(t, p + 17) || !digit_char(t, p + 18) {
            good = false;
        }
        if t.get_char(p + 19) != '.' {
            good = false;
        }
        good
    };
    if !ok {
        return None;
    }
    let f = scan_digits(t, p + 20);
    if f == p + 20 {
        return None;
    }
    if f == n {
        return None;
    }
    if !crate::text::space_char(t.get_char(f)) {
        return None;
    }
    if f + 1 == n {
        return None;
    }
    if t.get_char(f + 1) != '+' {
        return None;
    }
    let g = scan_digits(t, f + 2);
    if g == f + 2 {
        return None;
    }
    if g == n {
        return None;
    }
    if !crate::text::space_char(t.get_char(g)) {
        return None;
    }
    let h = scan_uppers(t, g + 1);
    if h == g + 1 {
        return None;
    }
    if h == n {
        return None;
    }
    if t.get_char(h) != ')' {
        return None;
    }
    Some(h)
}

/// Whether the character of `t` at index `j` is a digit.
fn digit_char(t: &str, j: usize) -> (b: bool)
    requires
        (j as int) < t@.len(),
    ensures
        b == is_digit(t@[j as int]),
{
    crate::text::digit_char(t.get_char(j))
}

/// Extracts the last-update timestamp from the stack-info report.
pub fn extract_updated_at(input: &str) -> (r: Option<String>)
    ensures
        match r {
            Some(u) => updated_at_from(input@, 0) == Some(u@),
            None => updated_at_from(input@, 0) is None,
        },
{
    let n = input.unicode_len();
    let mut i: usize = 0;
    while i < n
        invariant
            n == input@.len(),
            i <= n,
            updated_at_from(input@, 0) == updated_at_from(input@, i as int),
        decreases n - i,
    {
        match timestamp_end(input, i) {
            Some(h) => {
                return Some(input.substring_char(i + 1, h).to_owned());
            },
            None => {},
        }
        i += 1;
    }
    None
}

/// The resource count the report denotes: absent when the marker is
/// missing, the sentinel `-1` when the digits exceed what an `i32` holds,
/// the denoted number otherwise.
pub open spec fn spec_count_value(t: Seq<char>) -> Option<i32> {
    match resource_count_capture(t) {
        None => None,
        Some(ds) => Some(
            if digits_value(ds) <= i32::MAX as int {
                digits_value(ds) as i32
            } else {
                -1i32
            },
        ),
    }
}

/// The structured response a successful stack-info report yields.
pub open spec fn spec_status_response(req: GithubRequestView, out: Seq<char>) -> GithubResponseView {
    GithubResponseView {
        username: req.username,
        repository: req.repository,
        branch: req.branch,
        status: spec_status_from_resources(spec_count_value(out)),
        updated_at: match updated_at_from(out, 0) {
            Some(u) => u,
            None => Seq::empty(),
        },
        endpoint: match status_url_capture(out) {
            Some(u) => u,
            None => Seq::empty(),
        },
    }
}

/// Runs the status query against one stack-info outcome: on success the
/// report is pattern-extracted into a structured response; a missing
/// stack is reported as not found, a concurrent update as cancelled, and
/// everything else — including a process that never exited — as an
/// internal error.
pub fn handle(request: &GithubRequest, outcome: &ProcessOutcome) -> (r: Result<
    GithubResponse,
    Status,
>)
    ensures
        ({
            let c = spec_classify(OpKind::StackInfo, outcome@.exit_code, outcome@.stderr);
            match r {
                Ok(resp) => c == Classification::Success && resp@ == spec_status_response(
                    request@,
                    outcome@.stdout,
                ),
                Err(st) => match c {
                    Classification::Success => false,
                    Classification::Conflict => st@.code == Code::Cancelled && st@.message
                        == "Another update is currently in progress"@,
                    Classification::BenignCondition => st@.code == Code::NotFound && st@.message
                        == "No information have been found for this (repository, branch) combination."@,
                    Classification::HardFailure => st@.code == Code::Internal && st@.message
                        == "Could not fetch metadata, please try again later."@,
                },
            }
        }),
{
    let c = classify(OpKind::StackInfo, outcome);
    match c {
        Classification::Conflict => Err(
            Status::cancelled("Another update is currently in progress"),
        ),
        Classification::BenignCondition => Err(
            Status::not_found(
                "No information have been found for this (repository, branch) combination.",
            ),
        ),
        Classification::HardFailure => Err(
            Status::internal("Could not fetch metadata, please try again later."),
        ),
        Classification::Success => {
            let stdout = outcome.stdout.as_str();
            let endpoint = match extract_output_url(stdout) {
                Some(u) => u,
                None => String::new(),
            };
            let count: Option<i32> = match extract_num_of_resources(stdout) {
                None => None,
                Some(digits) => match parse_digits(digits.as_str()) {
                    Some(v) => Some(v),
                    None => Some(-1),
                },
            };
            let status = status_from_resources(count);
            let updated_at = match extract_updated_at(stdout) {
                Some(u) => u,
                None => String::new(),
            };
            Ok(
                GithubResponse {
                    username: request.username.clone(),
                    repository: request.repository.clone(),
                    branch: request.branch.clone(),
                    status,
                    updated_at,
                    endpoint,
                },
            )
        },
    }
}

} // verus!
