use vstd::prelude::*;
use crate::text::{chars_of, ends_with_chars, ends_with_seq, same_chars, starts_with_chars};
use vstd::string::StringExecFns;

verus! {

/// The least of three numbers.
pub open spec fn min3(x: nat, y: nat, z: nat) -> nat {
    if x <= y && x <= z {
        x
    } else if y <= z {
        y
    } else {
        z
    }
}

/// Levenshtein distance: the least number of single-character insertions, deletions and
/// substitutions that turn `a` into `b`.
pub open spec fn edit_distance(a: Seq<char>, b: Seq<char>) -> nat
    decreases a.len() + b.len(),
{
    if a.len() == 0 {
        b.len()
    } else if b.len() == 0 {
        a.len()
    } else {
        let cost: nat = if a.last() == b.last() {
            0
        } else {
            1
        };
        min3(
            edit_distance(a.drop_last(), b) + 1,
            edit_distance(a, b.drop_last()) + 1,
            edit_distance(a.drop_last(), b.drop_last()) + cost,
        )
    }
}

/// The distance never exceeds the length of the longer text.
pub proof fn lemma_edit_distance_bounded(a: Seq<char>, b: Seq<char>)
    ensures
        edit_distance(a, b) <= if a.len() >= b.len() {
            a.len()
        } else {
            b.len()
        },
    decreases a.len() + b.len(),
{
    if a.len() > 0 && b.len() > 0 {
        lemma_edit_distance_bounded(a.drop_last(), b.drop_last());
    }
}

/// Edit distance is symmetric: turning `a` into `b` costs what turning `b` into `a` costs.
pub proof fn lemma_edit_distance_symmetric(a: Seq<char>, b: Seq<char>)
    ensures
        edit_distance(a, b) == edit_distance(b, a),
    decreases a.len() + b.len(),
{
    if a.len() > 0 && b.len() > 0 {
        lemma_edit_distance_symmetric(a.drop_last(), b);
        lemma_edit_distance_symmetric(a, b.drop_last());
        lemma_edit_distance_symmetric(a.drop_last(), b.drop_last());
    }
}

/// A text is at distance zero from itself.
pub proof fn lemma_edit_distance_identity(s: Seq<char>)
    ensures
        edit_distance(s, s) == 0,
    decreases s.len(),
{
    if s.len() > 0 {
        lemma_edit_distance_identity(s.drop_last());
    }
}

/// The distance is at least the difference of the lengths.
pub proof fn lemma_edit_distance_at_least_gap(a: Seq<char>, b: Seq<char>)
    ensures
        edit_distance(a, b) >= a.len() - b.len(),
        edit_distance(a, b) >= b.len() - a.len(),
    decreases a.len() + b.len(),
{
    if a.len() > 0 && b.len() > 0 {
        lemma_edit_distance_at_least_gap(a.drop_last(), b);
        lemma_edit_distance_at_least_gap(a, b.drop_last());
        lemma_edit_distance_at_least_gap(a.drop_last(), b.drop_last());
    }
}

/// Deleting the last character of the first text costs one step at most.
proof fn lemma_edit_distance_drop_first_last(a: Seq<char>, c: Seq<char>)
    requires
        a.len() > 0,
    ensures
        edit_distance(a, c) <= edit_distance(a.drop_last(), c) + 1,
{
    if c.len() == 0 {
        assert(edit_distance(a.drop_last(), c) == a.len() - 1);
    }
}

/// Inserting the last character of the second text costs one step at most.
proof fn lemma_edit_distance_drop_second_last(a: Seq<char>, c: Seq<char>)
    requires
        c.len() > 0,
    ensures
        edit_distance(a, c) <= edit_distance(a, c.drop_last()) + 1,
{
    if a.len() == 0 {
        assert(edit_distance(a, c.drop_last()) == c.len() - 1);
    }
}

/// Edit distance obeys the triangle inequality: going from `a` to `c` through `b` is never
/// shorter than going straight.
pub proof fn lemma_edit_distance_triangle(a: Seq<char>, b: Seq<char>, c: Seq<char>)
    ensures
        edit_distance(a, c) <= edit_distance(a, b) + edit_distance(b, c),
    decreases a.len() + b.len() + c.len(),
{
    let ab = edit_distance(a, b);
    let bc = edit_distance(b, c);
    if b.len() == 0 {
        lemma_edit_distance_bounded(a, c);
    } else if a.len() == 0 {
        lemma_edit_distance_at_least_gap(b, c);
    } else if c.len() == 0 {
        lemma_edit_distance_at_least_gap(a, b);
    } else {
        let (a1, b1, c1) = (a.drop_last(), b.drop_last(), c.drop_last());
        let cost_ab: nat = if a.last() == b.last() {
            0
        } else {
            1
        };
        let cost_bc: nat = if b.last() == c.last() {
            0
        } else {
            1
        };
        if ab == edit_distance(a1, b) + 1 {
            lemma_edit_distance_triangle(a1, b, c);
            lemma_edit_distance_drop_first_last(a, c);
        } else if bc == edit_distance(b, c1) + 1 {
            lemma_edit_distance_triangle(a, b, c1);
            lemma_edit_distance_drop_second_last(a, c);
        } else if ab == edit_distance(a, b1) + 1 {
            if bc == edit_distance(b1, c) + 1 {
                lemma_edit_distance_triangle(a, b1, c);
            } else {
                assert(bc == edit_distance(b1, c1) + cost_bc);
                lemma_edit_distance_triangle(a, b1, c1);
                lemma_edit_distance_drop_second_last(a, c);
            }
        } else {
            assert(ab == edit_distance(a1, b1) + cost_ab);
            if bc == edit_distance(b1, c) + 1 {
                lemma_edit_distance_triangle(a1, b1, c);
                lemma_edit_distance_drop_first_last(a, c);
            } else {
                assert(bc == edit_distance(b1, c1) + cost_bc);
                lemma_edit_distance_triangle(a1, b1, c1);
            }
        }
    }
}

/// `x + 1`, or `x` where that does not fit.
fn succ_or_max(x: usize) -> (r: usize)
    ensures
        x < usize::MAX ==> r == x + 1,
        x == usize::MAX ==> r == x,
{
    if x < usize::MAX {
        x + 1
    } else {
        x
    }
}

/// The Levenshtein distance between `s1` and `s2`, counted over characters.
pub fn levenshtein_distance(s1: &str, s2: &str) -> (r: usize)
    ensures
        r == edit_distance(s1@, s2@),
{
    let a = chars_of(s1);
    let b = chars_of(s2);
    let n = a.len();
    let m = b.len();
    let ghost sa = a@;
    let ghost sb = b@;
    // The column for the empty prefix of `b`.
    let mut prev: Vec<usize> = Vec::new();
    for i in 0..n
        invariant
            prev.len() == i,
            forall|k: int| 0 <= k < i ==> prev@[k] == k,
    {
        prev.push(i);
    }
    prev.push(n);
    proof {
        assert forall|k: int| 0 <= k <= n implies prev@[k] == edit_distance(
            sa.take(k),
            sb.take(0),
        ) by {}
    }
    for jj in 0..m
        invariant
            n == a.len(),
            m == b.len(),
            sa == a@,
            sb == b@,
            prev.len() == n + 1,
            forall|k: int| 0 <= k <= n ==> #[trigger] prev@[k] == edit_distance(sa.take(k), sb.take(jj as int)),
    {
        let j = jj + 1;
        let mut cur: Vec<usize> = Vec::new();
        cur.push(j);
        for ii in 0..n
            invariant
                n == a.len(),
                m == b.len(),
                sa == a@,
                sb == b@,
                jj < m,
                j == jj + 1,
                prev.len() == n + 1,
                forall|k: int| 0 <= k <= n ==> #[trigger] prev@[k] == edit_distance(sa.take(k), sb.take(jj as int)),
                cur.len() == ii + 1,
                forall|k: int| 0 <= k <= ii ==> #[trigger] cur@[k] == edit_distance(sa.take(k), sb.take(j as int)),
        {
            let i = ii + 1;
            let ghost ai = sa.take(i as int);
            let ghost bj = sb.take(j as int);
            proof {
                assert(ai.drop_last() =~= sa.take(ii as int));
                assert(bj.drop_last() =~= sb.take(jj as int));
                assert(ai.last() == sa[ii as int]);
                assert(bj.last() == sb[jj as int]);
                lemma_edit_distance_bounded(sa.take(ii as int), sb.take(jj as int));
            }
            let cost: usize = if a[ii] == b[jj] {
                0
            } else {
                1
            };
            let del = succ_or_max(cur[ii]);
            let ins = succ_or_max(prev[i]);
            let sub = prev[ii] + cost;
            let best = if del <= ins && del <= sub {
                del
            } else if ins <= sub {
                ins
            } else {
                sub
            };
            cur.push(best);
        }
        prev = cur;
    }
    proof {
        assert(sa.take(n as int) =~= sa);
        assert(sb.take(m as int) =~= sb);
    }
    prev[n]
}

/// The well-known package names that a new name is held against.
pub open spec fn popular_names() -> Seq<Seq<char>> {
    seq![
        "serde"@, "tokio"@, "reqwest"@, "actix"@, "rocket"@, "diesel"@, "clap"@, "futures"@,
        "rand"@, "log"@, "chrono"@, "lazy_static"@, "wasm-bindgen"@, "regex"@, "hyper"@,
        "rayon"@, "anyhow"@, "thiserror"@,
    ]
}

/// How a name resembles one popular name.
#[derive(PartialEq, Eq, Structural, Clone, Copy, Debug)]
pub enum Resemblance {
    /// The popular name begins or ends the name, which is one to three characters longer.
    Affix,
    /// The lengths differ by at most two and so does the edit distance.
    Close,
}

/// The distance between two lengths.
pub open spec fn len_gap(x: nat, y: nat) -> nat {
    if x >= y {
        (x - y) as nat
    } else {
        (y - x) as nat
    }
}

/// How `name` resembles `target`, if it does; the popular name itself resembles nothing.
pub open spec fn resemblance(name: Seq<char>, target: Seq<char>) -> Option<Resemblance> {
    if name == target {
        None
    } else if (target.is_prefix_of(name) || ends_with_seq(name, target)) && target.len()
        < name.len() <= target.len() + 3 {
        Some(Resemblance::Affix)
    } else if len_gap(name.len(), target.len()) <= 2 && edit_distance(name, target) <= 2 {
        Some(Resemblance::Close)
    } else {
        None
    }
}

/// The first of `targets`, from index `k` on, that `name` resembles, with its index.
pub open spec fn first_resemblance(name: Seq<char>, targets: Seq<Seq<char>>, k: int) -> Option<
    (int, Resemblance),
>
    decreases targets.len() - k,
{
    if k < 0 || k >= targets.len() {
        None
    } else {
        match resemblance(name, targets[k]) {
            Some(how) => Some((k, how)),
            None => first_resemblance(name, targets, k + 1),
        }
    }
}

/// The warning that a name resembling `target` in the way `how` earns.
pub open spec fn resemblance_warning(target: Seq<char>, how: Resemblance) -> Seq<char> {
    match how {
        Resemblance::Affix => "Name suspiciously similar to '"@ + target + "'"@,
        Resemblance::Close => "Name similar to popular package '"@ + target + "'"@,
    }
}

/// The name warning for `name`: one at most, for the first popular name that it resembles.
pub open spec fn name_warning(name: Seq<char>) -> Option<Seq<char>> {
    match first_resemblance(name, popular_names(), 0) {
        Some((k, how)) => Some(resemblance_warning(popular_names()[k], how)),
        None => None,
    }
}

/// A name is never flagged for resembling itself: a popular package's own name draws no warning
/// about that package.
pub proof fn lemma_exact_name_not_flagged(name: Seq<char>)
    ensures
        resemblance(name, name) is None,
{
}

/// The popular names, in the order they are tried.
fn popular_name_list() -> (r: Vec<&'static str>)
    ensures
        r.len() == popular_names().len(),
        forall|i: int| 0 <= i < r.len() ==> (#[trigger] r[i])@ == popular_names()[i],
{
    let r = vec![
        "serde",
        "tokio",
        "reqwest",
        "actix",
        "rocket",
        "diesel",
        "clap",
        "futures",
        "rand",
        "log",
        "chrono",
        "lazy_static",
        "wasm-bindgen",
        "regex",
        "hyper",
        "rayon",
        "anyhow",
        "thiserror",
    ];
    assert(r@.map_values(|s: &str| s@) =~= popular_names());
    r
}

/// How `name` resembles `target`.
pub fn resemblance_of(name: &str, target: &str) -> (r: Option<Resemblance>)
    ensures
        r == resemblance(name@, target@),
{
    let nc = chars_of(name);
    let tc = chars_of(target);
    if same_chars(&nc, &tc) {
        return None;
    }
    let nl = nc.len();
    let tl = tc.len();
    if starts_with_chars(&nc, &tc) || ends_with_chars(&nc, &tc) {
        if nl > tl && nl - tl <= 3 {
            return Some(Resemblance::Affix);
        }
    }
    let gap = if nl >= tl {
        nl - tl
    } else {
        tl - nl
    };
    if gap <= 2 && levenshtein_distance(name, target) <= 2 {
        Some(Resemblance::Close)
    } else {
        None
    }
}

/// The warning for a name close to a well-known package name, if any: the popular names are
/// tried in order and the first that `name` resembles decides.
pub fn name_similarity_warning(name: &str) -> (r: Option<String>)
    ensures
        r matches Some(w) ==> name_warning(name@) == Some(w@),
        r is None ==> name_warning(name@) is None,
{
    let targets = popular_name_list();
    let mut k: usize = 0;
    while k < targets.len()
        invariant
            targets.len() == popular_names().len(),
            forall|i: int| 0 <= i < targets.len() ==> (#[trigger] targets[i])@ == popular_names()[i],
            k <= targets.len(),
            first_resemblance(name@, popular_names(), 0) == first_resemblance(
                name@,
                popular_names(),
                k as int,
            ),
        decreases targets.len() - k,
    {
        let target = targets[k];
        match resemblance_of(name, target) {
            Some(how) => {
                let mut w = match how {
                    Resemblance::Affix => String::from_str("Name suspiciously similar to '"),
                    Resemblance::Close => String::from_str("Name similar to popular package '"),
                };
                w.append(target);
                w.append("'");
                return Some(w);
            },
            None => {},
        }
        k = k + 1;
    }
    None
}

} // verus!
