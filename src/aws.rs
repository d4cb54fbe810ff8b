//! What the dashboard knows of cloud resources.

use vstd::prelude::*;

use crate::text::occurs_at;

verus! {

/// A virtual machine instance.
#[derive(Debug, Clone)]
pub struct Ec2Instance {
    pub id: String,
    /// The instance's Name tag, or its id when it has none.
    pub name: String,
    pub instance_type: String,
    /// Lifecycle state as the provider names it ("running", "stopped", ...).
    pub state: String,
    pub public_ip: Option<String>,
    pub private_ip: Option<String>,
    /// Launch time in milliseconds since the Unix epoch.
    pub launch_time: Option<i64>,
    /// Scheduled stop time in milliseconds since the Unix epoch.
    pub auto_stop_scheduled: Option<i64>,
}

/// A serverless function.
#[derive(Debug, Clone)]
pub struct LambdaFunction {
    pub name: String,
    pub runtime: String,
    /// Memory size in MB.
    pub memory: i32,
    pub last_modified: String,
    pub description: String,
}

/// The lines that `str::lines` splits a text into.
pub uninterp spec fn lines_of(s: Seq<char>) -> Seq<Seq<char>>;

/// What `str::trim` leaves of a text.
pub uninterp spec fn trim_of(s: Seq<char>) -> Seq<char>;

/// `s` with every leading repetition of `p` removed.
pub open spec fn strip_leading(s: Seq<char>, p: Seq<char>) -> Seq<char>
    decreases s.len(),
{
    if p.len() > 0 && p.len() <= s.len() && s.subrange(0, p.len() as int) == p {
        strip_leading(s.subrange(p.len() as int, s.len() as int), p)
    } else {
        s
    }
}

/// `s` with every trailing `c` removed.
pub open spec fn strip_trailing(s: Seq<char>, c: char) -> Seq<char>
    decreases s.len(),
{
    if s.len() > 0 && s.last() == c {
        strip_trailing(s.drop_last(), c)
    } else {
        s
    }
}

/// The profile a trimmed line of the provider's config file declares:
/// `[profile NAME]` declares NAME, `[default]` the default profile.
pub open spec fn profile_of_line(t: Seq<char>) -> Option<Seq<char>> {
    let p = "[profile "@;
    if p.len() <= t.len() && t.subrange(0, p.len() as int) == p && t.len() > 0 && t.last() == ']' {
        Some(strip_trailing(strip_leading(t, p), ']'))
    } else if t == "[default]"@ {
        Some("default"@)
    } else {
        None
    }
}

/// The profiles declared by `lines`, in order.
pub open spec fn profiles_in(lines: Seq<Seq<char>>) -> Seq<Seq<char>>
    decreases lines.len(),
{
    if lines.len() == 0 {
        seq![]
    } else {
        let rest = profiles_in(lines.drop_last());
        match profile_of_line(trim_of(lines.last())) {
            Some(n) => rest.push(n),
            None => rest,
        }
    }
}

/// Relies on `str::lines`: the lines of a text, each as an owned string.
#[verifier::external_body]
fn split_lines(s: &str) -> (r: Vec<String>)
    ensures
        r@.map_values(|l: String| l@) == lines_of(s@),
{
    s.lines().map(|l| l.to_string()).collect()
}

/// Relies on `str::trim`: the text without leading and trailing whitespace.
#[verifier::external_body]
fn trimmed(s: &str) -> (r: String)
    ensures
        r@ == trim_of(s@),
{
    s.trim().to_string()
}

/// The profile a trimmed config line declares, if any.
fn profile_of(t: &str) -> (r: Option<String>)
    ensures
        match profile_of_line(t@) {
            Some(name) => r is Some && r->0@ == name,
            None => r is None,
        },
{
    let pre = "[profile ";
    proof {
        reveal_strlit("[profile ");
    }
    let m = pre.unicode_len();
    let n = t.unicode_len();
    if occurs_at(t, n, 0, pre, m) && n > 0 && t.get_char(n - 1) == ']' {
        let mut start: usize = 0;
        assert(t@.subrange(0, n as int) =~= t@);
        while m <= n - start && occurs_at(t, n, start, pre, m)
            invariant
                n == t@.len(),
                m == pre@.len(),
                m == 9,
                start <= n,
                strip_leading(t@, pre@) == strip_leading(t@.subrange(start as int, n as int), pre@),
            decreases n - start,
        {
            let ghost sub = t@.subrange(start as int, n as int);
            assert(sub.subrange(0, m as int) =~= t@.subrange(start as int, start + m));
            assert(sub.subrange(m as int, sub.len() as int) =~= t@.subrange(start + m, n as int));
            start = start + m;
        }
        let ghost rest = t@.subrange(start as int, n as int);
        proof {
            if start + m <= n {
                assert(rest.subrange(0, m as int) =~= t@.subrange(start as int, start + m));
            }
        }
        assert(strip_leading(rest, pre@) == rest);
        let mut end: usize = n;
        while end > start && t.get_char(end - 1) == ']'
            invariant
                n == t@.len(),
                start <= end <= n,
                strip_trailing(rest, ']') == strip_trailing(t@.subrange(start as int, end as int), ']'),
                rest == t@.subrange(start as int, n as int),
            decreases end,
        {
            let ghost sub = t@.subrange(start as int, end as int);
            assert(sub.drop_last() =~= t@.subrange(start as int, end - 1));
            end = end - 1;
        }
        let name = t.substring_char(start, end);
        Some(String::from_str(name))
    } else {
        let whole = String::from_str(t);
        let default_line = String::from_str("[default]");
        if whole == default_line {
            Some(String::from_str("default"))
        } else {
            None
        }
    }
}

/// The profiles that the provider's config file text declares, in order:
/// each line, trimmed, that reads `[profile NAME]` gives NAME, and each that
/// reads `[default]` gives "default".
pub fn parse_aws_profiles(content: &str) -> (r: Vec<String>)
    ensures
        r@.map_values(|s: String| s@) == profiles_in(lines_of(content@)),
{
    let lines = split_lines(content);
    let ghost all = lines@.map_values(|l: String| l@);
    let mut out: Vec<String> = Vec::new();
    let mut i: usize = 0;
    while i < lines.len()
        invariant
            i <= lines.len(),
            all == lines@.map_values(|l: String| l@),
            all == lines_of(content@),
            out@.map_values(|s: String| s@) == profiles_in(all.subrange(0, i as int)),
        decreases lines.len() - i,
    {
        let ghost pre = all.subrange(0, i as int);
        assert(all.subrange(0, i + 1).drop_last() =~= pre);
        assert(all.subrange(0, i + 1).last() == lines@[i as int]@);
        let t = trimmed(lines[i].as_str());
        match profile_of(t.as_str()) {
            Some(name) => {
                let ghost before = out@.map_values(|s: String| s@);
                out.push(name);
                assert(out@.map_values(|s: String| s@) =~= before.push(out@[out@.len() - 1]@));
            },
            None => {},
        }
        i = i + 1;
    }
    assert(all.subrange(0, lines.len() as int) =~= all);
    out
}

} // verus!
