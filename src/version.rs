use vstd::prelude::*;
use vstd::string::*;

use crate::text::{owned, push_str, split_words, views, words};

verus! {

/// The value of a decimal digit character.
pub open spec fn digit_value(c: char) -> nat {
    (c as u32 - '0' as u32) as nat
}

pub open spec fn is_digit(c: char) -> bool {
    '0' <= c && c <= '9'
}

/// Scanning a version string left to right: the completed components, the
/// component in progress and its number of digits; `None` once the text
/// can no longer be a version (a character other than a digit or a dot, an
/// empty component, a component above `u64::MAX`).
pub open spec fn scan_version(s: Seq<char>) -> Option<(Seq<nat>, nat, nat)>
    decreases s.len(),
{
    if s.len() == 0 {
        Some((seq![], 0, 0))
    } else {
        match scan_version(s.drop_last()) {
            None => None,
            Some((done, cur, digits)) => {
                let c = s.last();
                if c == '.' {
                    if digits > 0 {
                        Some((done.push(cur), 0, 0))
                    } else {
                        None
                    }
                } else if is_digit(c) && cur * 10 + digit_value(c) <= u64::MAX {
                    Some((done, cur * 10 + digit_value(c), digits + 1))
                } else {
                    None
                }
            },
        }
    }
}

/// `major.minor.patch`, each a non-empty run of decimal digits.
pub open spec fn parse_version(s: Seq<char>) -> Option<(nat, nat, nat)> {
    match scan_version(s) {
        Some((done, cur, digits)) => if digits > 0 && done.len() == 2 {
            Some((done[0], done[1], cur))
        } else {
            None
        },
        None => None,
    }
}

/// Lexicographic order on version triples.
pub open spec fn newer(a: (nat, nat, nat), b: (nat, nat, nat)) -> bool {
    a.0 > b.0 || (a.0 == b.0 && (a.1 > b.1 || (a.1 == b.1 && a.2 > b.2)))
}

/// The last version of the build tool whose input update takes no `--flake`.
pub open spec fn flake_flag_threshold() -> (nat, nat, nat) {
    (2, 19, 0)
}

/// The input update needs `--flake`: the version parses and is newer than
/// the threshold. A version that does not parse gets the older syntax.
pub open spec fn needs_flake_flag(v: Seq<char>) -> bool {
    match parse_version(v) {
        Some(t) => newer(t, flake_flag_threshold()),
        None => false,
    }
}

/// The arguments of the input update.
pub open spec fn update_argv(v: Seq<char>, flakeref: Seq<char>) -> Seq<Seq<char>> {
    seq!["nix"@, "flake"@, "update"@] + (if needs_flake_flag(v) {
        seq!["--flake"@]
    } else {
        seq![]
    }) + seq![flakeref]
}

/// The version that `nix --version` reports: its last word.
pub open spec fn reported_version(out: Seq<char>) -> Seq<char> {
    let w = words(out);
    if w.len() > 0 {
        w.last()
    } else {
        seq![]
    }
}

/// Once a prefix cannot start a version, no longer text is one either.
proof fn lemma_scan_stays_none(s: Seq<char>, k: int)
    requires
        0 <= k <= s.len(),
        scan_version(s.take(k)) is None,
    ensures
        scan_version(s) is None,
    decreases s.len() - k,
{
    if k < s.len() {
        assert(s.take(k + 1).drop_last() =~= s.take(k));
        lemma_scan_stays_none(s, k + 1);
    } else {
        assert(s.take(k) =~= s);
    }
}

/// Parses `major.minor.patch`.
pub fn parse(s: &str) -> (r: Option<(u64, u64, u64)>)
    ensures
        match r {
            Some(t) => parse_version(s@) == Some((t.0 as nat, t.1 as nat, t.2 as nat)),
            None => parse_version(s@) is None,
        },
{
    let n = s.unicode_len();
    let mut done: Vec<u64> = Vec::new();
    let mut cur: u64 = 0;
    let mut digits: usize = 0;
    let mut i: usize = 0;
    while i < n
        invariant
            n == s@.len(),
            i <= n,
            digits <= i,
            scan_version(s@.take(i as int)) == Some((done@.map_values(|x: u64| x as nat), cur as nat, digits as nat)),
        decreases n - i,
    {
        let c = s.get_char(i);
        assert(s@.take(i as int + 1).drop_last() =~= s@.take(i as int));
        assert(s@.take(i as int + 1).last() == c);
        if c == '.' {
            if digits == 0 {
                proof {
                    lemma_scan_stays_none(s@, i as int + 1);
                }
                return None;
            }
            let ghost before = done@;
            done.push(cur);
            assert(done@.map_values(|x: u64| x as nat) =~= before.map_values(|x: u64| x as nat).push(cur as nat));
            cur = 0;
            digits = 0;
        } else if '0' <= c && c <= '9' {
            let d = (c as u32 - '0' as u32) as u64;
            if cur > (u64::MAX - d) / 10 {
                assert(cur * 10 + d > u64::MAX) by (nonlinear_arith)
                    requires cur > (u64::MAX - d) / 10, d <= 9;
                proof {
                    lemma_scan_stays_none(s@, i as int + 1);
                }
                return None;
            }
            assert(cur * 10 + d <= u64::MAX) by (nonlinear_arith)
                requires cur <= (u64::MAX - d) / 10, d <= 9;
            cur = cur * 10 + d;
            digits = digits + 1;
        } else {
            proof {
                lemma_scan_stays_none(s@, i as int + 1);
            }
            return None;
        }
        i = i + 1;
    }
    assert(s@.take(n as int) =~= s@);
    if digits > 0 && done.len() == 2 {
        Some((done[0], done[1], cur))
    } else {
        None
    }
}

/// Whether the input update of the build tool at version `v` takes `--flake`.
pub fn takes_flake_flag(v: &str) -> (r: bool)
    ensures
        r == needs_flake_flag(v@),
{
    match parse(v) {
        Some(t) => t.0 > 2 || (t.0 == 2 && (t.1 > 19 || (t.1 == 19 && t.2 > 0))),
        None => false,
    }
}

/// The input-update invocation for the build tool at version `nix_version`:
/// `nix flake update [--flake] <flakeref>`.
pub fn update_args(nix_version: &str, flakeref: &str) -> (r: Vec<String>)
    ensures
        views(r@) == update_argv(nix_version@, flakeref@),
{
    proof {
        reveal_strlit("nix");
        reveal_strlit("flake");
        reveal_strlit("update");
        reveal_strlit("--flake");
    }
    let mut r: Vec<String> = Vec::new();
    push_str(&mut r, "nix");
    push_str(&mut r, "flake");
    push_str(&mut r, "update");
    if takes_flake_flag(nix_version) {
        push_str(&mut r, "--flake");
    }
    push_str(&mut r, flakeref);
    assert(views(r@) =~= update_argv(nix_version@, flakeref@));
    r
}

/// Picks the version out of the output of `nix --version`.
pub fn version_from_output(out: &str) -> (r: String)
    ensures
        r@ == reported_version(out@),
{
    proof {
        reveal_strlit("");
    }
    let w = split_words(out);
    assert(views(w@).len() == w@.len());
    if w.len() > 0 {
        let last = w.len() - 1;
        assert(views(w@)[last as int] == w@[last as int]@);
        owned(w[last].as_str())
    } else {
        owned("")
    }
}

/// The input update gets `--flake` exactly when the version parses and is
/// newer than 2.19.0; otherwise it is the same invocation without it.
pub proof fn flake_flag_iff_newer(v: Seq<char>, flakeref: Seq<char>)
    ensures
        (match parse_version(v) {
            Some(t) => newer(t, (2, 19, 0)),
            None => false,
        }) ==> update_argv(v, flakeref) == seq!["nix"@, "flake"@, "update"@, "--flake"@, flakeref],
        !(match parse_version(v) {
            Some(t) => newer(t, (2, 19, 0)),
            None => false,
        }) ==> update_argv(v, flakeref) == seq!["nix"@, "flake"@, "update"@, flakeref],
{
    assert(update_argv(v, flakeref) =~= seq!["nix"@, "flake"@, "update"@, "--flake"@, flakeref]
        || update_argv(v, flakeref) =~= seq!["nix"@, "flake"@, "update"@, flakeref]);
    if needs_flake_flag(v) {
        assert(update_argv(v, flakeref) =~= seq!["nix"@, "flake"@, "update"@, "--flake"@, flakeref]);
    } else {
        assert(update_argv(v, flakeref) =~= seq!["nix"@, "flake"@, "update"@, flakeref]);
    }
}

} // verus!
