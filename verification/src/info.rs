//! Diagnostics: the ordered label/value report that accompanies the worker's
//! results. Assembling it is cosmetic and takes no part in scheduling.

use vstd::prelude::*;
use vstd::string::*;

verus! {

/// An ordered list of labels, each with an optional value.
pub type Info = Vec<(String, Option<String>)>;

/// An [`Info`] as mathematical values.
pub type InfoView = Seq<(Seq<char>, Option<Seq<char>>)>;

/// Figures of a search that has just committed to a move.
#[derive(Copy, Clone, Debug, PartialEq, Eq, Structural)]
pub struct SearchStats {
    /// Depth reached below the chosen branch.
    pub depth: usize,
    /// Accumulated evaluation of the chosen branch.
    pub evaluation: i64,
    /// Number of nodes that were considered for the choice.
    pub nodes: usize,
}

/// The character of a decimal digit.
pub open spec fn digit(d: nat) -> char
    recommends
        d < 10,
{
    if d == 0 {
        '0'
    } else if d == 1 {
        '1'
    } else if d == 2 {
        '2'
    } else if d == 3 {
        '3'
    } else if d == 4 {
        '4'
    } else if d == 5 {
        '5'
    } else if d == 6 {
        '6'
    } else if d == 7 {
        '7'
    } else if d == 8 {
        '8'
    } else {
        '9'
    }
}

/// A natural number in decimal, without leading zeros.
pub open spec fn decimal(n: nat) -> Seq<char>
    decreases n,
{
    if n < 10 {
        seq![digit(n)]
    } else {
        decimal(n / 10).push(digit(n % 10))
    }
}

/// An integer in decimal, with a leading minus sign if it is negative.
pub open spec fn signed_decimal(v: int) -> Seq<char> {
    if v < 0 {
        seq!['-'] + decimal((-v) as nat)
    } else {
        decimal(v as nat)
    }
}

/// The report sent with the worker's results: a title line, the evaluator's
/// own entries in their order and, after a commit, the figures of the search.
pub open spec fn diagnostics(report: InfoView, committed: Option<SearchStats>) -> InfoView {
    let head = seq![("Cold Clear"@, None::<Seq<char>>)] + report;
    match committed {
        None => head,
        Some(stats) => head + seq![
            ("Depth"@, Some(decimal(stats.depth as nat))),
            ("Evaluation"@, Some(Seq::<char>::empty())),
            (Seq::<char>::empty(), Some(signed_decimal(stats.evaluation as int))),
            ("Nodes"@, Some(Seq::<char>::empty())),
            (Seq::<char>::empty(), Some(decimal(stats.nodes as nat))),
        ],
    }
}

fn digit_str(d: u64) -> (s: &'static str)
    requires
        d < 10,
    ensures
        s@ == seq![digit(d as nat)],
{
    proof {
        reveal_strlit("0");
        reveal_strlit("1");
        reveal_strlit("2");
        reveal_strlit("3");
        reveal_strlit("4");
        reveal_strlit("5");
        reveal_strlit("6");
        reveal_strlit("7");
        reveal_strlit("8");
        reveal_strlit("9");
    }
    if d == 0 {
        "0"
    } else if d == 1 {
        "1"
    } else if d == 2 {
        "2"
    } else if d == 3 {
        "3"
    } else if d == 4 {
        "4"
    } else if d == 5 {
        "5"
    } else if d == 6 {
        "6"
    } else if d == 7 {
        "7"
    } else if d == 8 {
        "8"
    } else {
        "9"
    }
}

/// Writes a number in decimal.
pub fn unsigned_to_string(n: u64) -> (s: String)
    ensures
        s@ == decimal(n as nat),
    decreases n,
{
    if n < 10 {
        String::from_str(digit_str(n))
    } else {
        let mut s = unsigned_to_string(n / 10);
        s.append(digit_str(n % 10));
        s
    }
}

/// Writes a signed number in decimal.
pub fn signed_to_string(v: i64) -> (s: String)
    ensures
        s@ == signed_decimal(v as int),
{
    if v < 0 {
        let magnitude: u64 = if v == i64::MIN {
            9223372036854775808u64
        } else {
            (-v) as u64
        };
        let digits = unsigned_to_string(magnitude);
        proof {
            reveal_strlit("-");
        }
        String::from_str("-").concat(digits.as_str())
    } else {
        unsigned_to_string(v as u64)
    }
}

/// Assembles the report from the evaluator's own entries and, after a commit,
/// the figures of the search that led to it.
pub fn bot_info(report: Info, committed: Option<SearchStats>) -> (info: Info)
    ensures
        info.deep_view() == diagnostics(report.deep_view(), committed),
{
    let mut info = report;
    info.insert(0, (String::from_str("Cold Clear"), None));
    if let Some(stats) = committed {
        proof {
            reveal_strlit("");
        }
        info.push((String::from_str("Depth"), Some(unsigned_to_string(stats.depth as u64))));
        info.push((String::from_str("Evaluation"), Some(String::from_str(""))));
        info.push((String::from_str(""), Some(signed_to_string(stats.evaluation))));
        info.push((String::from_str("Nodes"), Some(String::from_str(""))));
        info.push((String::from_str(""), Some(unsigned_to_string(stats.nodes as u64))));
        assert(""@ =~= Seq::<char>::empty());
    }
    info
}

} // verus!
