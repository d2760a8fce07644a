use vstd::prelude::*;
use vstd::string::StringExecFns;
use crate::moment::{days_between, elapsed_days, now, parse_rfc3339, rfc3339_moment, Moment};
use crate::records::{opt_chars, Crate, CrateModel};
use crate::similarity::{
    first_resemblance, name_similarity_warning, name_warning, popular_names, resemblance_warning,
    Resemblance,
};
use crate::text::{
    chars_of, contains_chars, contains_seq, is_blank, is_blank_seq, is_missing, lower_of,
    lowercase,
};

verus! {

/// The warning on a package without a license.
pub open spec fn no_license_msg() -> Seq<char> {
    "No license specified"@
}

/// The warning on a GPL license, whose terms may reach into derived works.
pub open spec fn copyleft_msg() -> Seq<char> {
    "GPL license may require derivative works to be open-sourced"@
}

/// The warning on a license that names none of the common ones.
pub open spec fn uncommon_license_msg(license: Seq<char>) -> Seq<char> {
    "Uncommon license: '"@ + license + "' - verify before use"@
}

/// The warning on a young package with many downloads.
pub open spec fn growth_msg() -> Seq<char> {
    "New package with unusually high download count"@
}

/// The warning on a package without a repository link.
pub open spec fn no_repository_msg() -> Seq<char> {
    "No repository link"@
}

/// The warning on a package without a documentation link.
pub open spec fn no_documentation_msg() -> Seq<char> {
    "No documentation link"@
}

/// The warning on a 0.0.x version.
pub open spec fn early_version_msg() -> Seq<char> {
    "Very early version - may not be stable"@
}

/// The license names that count as common, as they occur in a lower-cased license text.
pub open spec fn common_licenses() -> Seq<Seq<char>> {
    seq![
        "mit"@, "apache"@, "gpl"@, "lgpl"@, "bsd"@, "mpl"@, "unlicense"@, "isc"@, "zlib"@,
        "wtfpl"@, "cc0"@, "boost"@, "artistic"@, "mozilla"@, "zlib/libpng"@,
    ]
}

/// Whether a lower-cased license text names a common license.
pub open spec fn is_common_license(lowered: Seq<char>) -> bool {
    exists|i: int| 0 <= i < common_licenses().len() && contains_seq(lowered, #[trigger] common_licenses()[i])
}

/// Whether a lower-cased license text names the GPL but not the LGPL.
pub open spec fn is_copyleft(lowered: Seq<char>) -> bool {
    contains_seq(lowered, "gpl"@) && !contains_seq(lowered, "lgpl"@)
}

/// The warnings on a license, given the license and its lower-cased form.
pub open spec fn license_warnings(license: Option<Seq<char>>, lowered: Seq<char>) -> Seq<Seq<char>> {
    match license {
        Some(l) if !is_blank_seq(l) => (if is_common_license(lowered) {
            Seq::empty()
        } else {
            seq![uncommon_license_msg(l)]
        }) + (if is_copyleft(lowered) {
            seq![copyleft_msg()]
        } else {
            Seq::empty()
        }),
        _ => seq![no_license_msg()],
    }
}

/// The warning on a package younger than 30 days with more than 10,000 downloads.
pub open spec fn growth_warnings(downloads: u64, age_days: Option<int>) -> Seq<Seq<char>> {
    match age_days {
        Some(d) if d < 30 && downloads > 10000 => seq![growth_msg()],
        _ => Seq::empty(),
    }
}

/// `msg` where the link is missing.
pub open spec fn link_warnings(link: Option<Seq<char>>, msg: Seq<char>) -> Seq<Seq<char>> {
    if is_missing(link) {
        seq![msg]
    } else {
        Seq::empty()
    }
}

/// The warning on a version that begins with "0.0.".
pub open spec fn version_warnings(version: Seq<char>) -> Seq<Seq<char>> {
    if "0.0."@.is_prefix_of(version) {
        seq![early_version_msg()]
    } else {
        Seq::empty()
    }
}

/// An optional warning as a list of zero or one.
pub open spec fn optional_warning(w: Option<Seq<char>>) -> Seq<Seq<char>> {
    match w {
        Some(m) => seq![m],
        None => Seq::empty(),
    }
}

/// Every warning on a package, in the order the checks run, given its lower-cased license and
/// its age in whole days where its creation time could be read.
pub open spec fn crate_warnings(c: CrateModel, lowered: Seq<char>, age_days: Option<int>) -> Seq<
    Seq<char>,
> {
    license_warnings(c.license, lowered) + growth_warnings(c.downloads, age_days)
        + optional_warning(name_warning(c.name)) + link_warnings(
        c.repository,
        no_repository_msg(),
    ) + link_warnings(c.documentation, no_documentation_msg()) + version_warnings(
        c.max_version,
    )
}

/// The lower-cased license of a package, empty where it has none.
pub open spec fn lowered_license(c: CrateModel) -> Seq<char> {
    match c.license {
        Some(l) => lower_of(l),
        None => Seq::empty(),
    }
}

/// A package's age in whole days at `now`, where its creation time could be read.
pub open spec fn age_at(c: CrateModel, now: Moment) -> Option<int> {
    match rfc3339_moment(c.created_at) {
        Some(created) => Some(elapsed_days(created, now)),
        None => None,
    }
}

/// Whether `warnings` are what the checks give for `c` at some moment.
pub open spec fn is_report_of(c: CrateModel, warnings: Seq<Seq<char>>) -> bool {
    exists|t: Moment| warnings == #[trigger] crate_warnings(c, lowered_license(c), age_at(c, t))
}

/// An optional number of days as a mathematical value.
pub open spec fn opt_days(d: Option<i64>) -> Option<int> {
    match d {
        Some(x) => Some(x as int),
        None => None,
    }
}

/// The common license names, in order.
fn common_license_list() -> (r: Vec<&'static str>)
    ensures
        r.len() == common_licenses().len(),
        forall|i: int| 0 <= i < r.len() ==> (#[trigger] r[i])@ == common_licenses()[i],
{
    let r = vec![
        "mit",
        "apache",
        "gpl",
        "lgpl",
        "bsd",
        "mpl",
        "unlicense",
        "isc",
        "zlib",
        "wtfpl",
        "cc0",
        "boost",
        "artistic",
        "mozilla",
        "zlib/libpng",
    ];
    assert(r@.map_values(|s: &str| s@) =~= common_licenses());
    r
}

/// Whether a lower-cased license text names a common license.
pub fn names_common_license(lowered: &str) -> (r: bool)
    ensures
        r == is_common_license(lowered@),
{
    let text = chars_of(lowered);
    let names = common_license_list();
    let mut i: usize = 0;
    while i < names.len()
        invariant
            text@ == lowered@,
            names.len() == common_licenses().len(),
            forall|k: int| 0 <= k < names.len() ==> (#[trigger] names[k])@ == common_licenses()[k],
            i <= names.len(),
            forall|k: int| 0 <= k < i ==> !contains_seq(lowered@, #[trigger] common_licenses()[k]),
        decreases names.len() - i,
    {
        let name = chars_of(names[i]);
        if contains_chars(&text, &name) {
            return true;
        }
        i = i + 1;
    }
    false
}

/// Whether a lower-cased license text names the GPL but not the LGPL.
pub fn names_copyleft(lowered: &str) -> (r: bool)
    ensures
        r == is_copyleft(lowered@),
{
    let text = chars_of(lowered);
    let gpl = chars_of("gpl");
    let lgpl = chars_of("lgpl");
    contains_chars(&text, &gpl) && !contains_chars(&text, &lgpl)
}

/// A new text holding `s`.
fn text(s: &str) -> (r: String)
    ensures
        r@ == s@,
{
    String::from_str(s)
}

/// Whether an optional link is absent, empty or white space only.
fn link_missing(link: &Option<String>) -> (r: bool)
    ensures
        r == is_missing(opt_chars(*link)),
{
    match link {
        Some(l) => is_blank(l.as_str()),
        None => true,
    }
}

/// Every warning on package `c`, given its license in lower case (ignored where it has no
/// license) and its age in whole days where its creation time could be read.
pub fn assess(c: &Crate, lowered_license: &str, age_days: Option<i64>) -> (r: Vec<String>)
    ensures
        r.deep_view() == crate_warnings(c@, lowered_license@, opt_days(age_days)),
{
    let ghost m = c@;
    let mut w: Vec<String> = Vec::new();
    match &c.license {
        Some(l) if !is_blank(l.as_str()) => {
            if !names_common_license(lowered_license) {
                let mut msg = text("Uncommon license: '");
                msg.append(l.as_str());
                msg.append("' - verify before use");
                w.push(msg);
            }
            if names_copyleft(lowered_license) {
                w.push(text("GPL license may require derivative works to be open-sourced"));
            }
        },
        _ => {
            w.push(text("No license specified"));
        },
    }
    let ghost w1 = w.deep_view();
    assert(w1 =~= license_warnings(m.license, lowered_license@));
    match age_days {
        Some(d) => {
            if d < 30 && c.downloads > 10000 {
                w.push(text("New package with unusually high download count"));
            }
        },
        None => {},
    }
    let ghost w2 = w.deep_view();
    assert(w2 =~= w1 + growth_warnings(m.downloads, opt_days(age_days)));
    match name_similarity_warning(c.name.as_str()) {
        Some(n) => {
            w.push(n);
        },
        None => {},
    }
    let ghost w3 = w.deep_view();
    assert(w3 =~= w2 + optional_warning(name_warning(m.name)));
    if link_missing(&c.repository) {
        w.push(text("No repository link"));
    }
    let ghost w4 = w.deep_view();
    assert(w4 =~= w3 + link_warnings(m.repository, no_repository_msg()));
    if link_missing(&c.documentation) {
        w.push(text("No documentation link"));
    }
    let ghost w5 = w.deep_view();
    assert(w5 =~= w4 + link_warnings(m.documentation, no_documentation_msg()));
    let version = chars_of(c.max_version.as_str());
    let early = chars_of("0.0.");
    if crate::text::starts_with_chars(&version, &early) {
        w.push(text("Very early version - may not be stable"));
    }
    assert(w.deep_view() =~= w5 + version_warnings(m.max_version));
    w
}

/// Every warning on package `c`, its license lower-cased and its age taken at the current time.
pub fn security_check(c: &Crate) -> (r: Vec<String>)
    ensures
        is_report_of(c@, r.deep_view()),
{
    let lowered = match &c.license {
        Some(l) => lowercase(l.as_str()),
        None => String::new(),
    };
    let t = now();
    let age = match parse_rfc3339(c.created_at.as_str()) {
        Some(created) => Some(days_between(created, t)),
        None => None,
    };
    let r = assess(c, lowered.as_str(), age);
    assert(lowered@ == lowered_license(c@));
    assert(opt_days(age) == age_at(c@, t));
    assert(r.deep_view() == crate_warnings(c@, lowered_license(c@), age_at(c@, t)));
    r
}

/// Whether a warning speaks of the license.
pub open spec fn is_license_warning(w: Seq<char>) -> bool {
    w == no_license_msg() || w == copyleft_msg() || "Uncommon license: '"@.is_prefix_of(w)
}

/// Whether a warning is one that the checks after the license check give.
pub open spec fn is_later_warning(w: Seq<char>) -> bool {
    w == growth_msg() || w == no_repository_msg() || w == no_documentation_msg() || w
        == early_version_msg() || exists|t: Seq<char>, how: Resemblance|
        w == #[trigger] resemblance_warning(t, how)
}

/// No warning of the later checks speaks of the license.
proof fn lemma_later_warning_not_license(w: Seq<char>)
    requires
        is_later_warning(w),
    ensures
        !is_license_warning(w),
{
    reveal_strlit("No license specified");
    reveal_strlit("GPL license may require derivative works to be open-sourced");
    reveal_strlit("Uncommon license: '");
    reveal_strlit("New package with unusually high download count");
    reveal_strlit("No repository link");
    reveal_strlit("No documentation link");
    reveal_strlit("Very early version - may not be stable");
    reveal_strlit("Name suspiciously similar to '");
    reveal_strlit("Name similar to popular package '");
    let nl = no_license_msg();
    let gpl = copyleft_msg();
    let un = "Uncommon license: '"@;
    if w == growth_msg() {
        assert(w[1] != nl[1]);
        assert(w[0] != gpl[0]);
        assert(w[0] != un[0]);
    } else if w == no_repository_msg() {
        assert(w[3] != nl[3]);
        assert(w[0] != gpl[0]);
        assert(w[0] != un[0]);
    } else if w == no_documentation_msg() {
        assert(w[3] != nl[3]);
        assert(w[0] != gpl[0]);
        assert(w[0] != un[0]);
    } else if w == early_version_msg() {
        assert(w[0] != nl[0]);
        assert(w[0] != gpl[0]);
        assert(w[0] != un[0]);
    } else {
        let (t, how) = choose|t: Seq<char>, how: Resemblance| w == #[trigger] resemblance_warning(
            t,
            how,
        );
        let head = match how {
            Resemblance::Affix => "Name suspiciously similar to '"@,
            Resemblance::Close => "Name similar to popular package '"@,
        };
        assert(w == head + t + "'"@);
        assert(w[0] == head[0] && w[1] == head[1]);
        assert(w[1] != nl[1]);
        assert(w[0] != gpl[0]);
        assert(w[0] != un[0]);
    }
}

/// A package whose license is absent, empty or white space only gets exactly one warning on
/// its license, "No license specified", and it comes first.
pub proof fn lemma_missing_license_single_warning(c: CrateModel, warnings: Seq<Seq<char>>)
    requires
        is_missing(c.license),
        is_report_of(c, warnings),
    ensures
        warnings.len() >= 1,
        warnings[0] == no_license_msg(),
        forall|i: int| 1 <= i < warnings.len() ==> !is_license_warning(#[trigger] warnings[i]),
{
    let t = choose|t: Moment| warnings == #[trigger] crate_warnings(c, lowered_license(c), age_at(c, t));
    let age = age_at(c, t);
    let later = growth_warnings(c.downloads, age) + optional_warning(name_warning(c.name))
        + link_warnings(c.repository, no_repository_msg()) + link_warnings(
        c.documentation,
        no_documentation_msg(),
    ) + version_warnings(c.max_version);
    assert(license_warnings(c.license, lowered_license(c)) == seq![no_license_msg()]);
    assert(warnings =~= seq![no_license_msg()] + later);
    assert forall|i: int| 0 <= i < later.len() implies is_later_warning(#[trigger] later[i]) by {
        match name_warning(c.name) {
            Some(m) => {
                let (k, how) = first_resemblance(c.name, popular_names(), 0)->Some_0;
                assert(m == resemblance_warning(popular_names()[k], how));
            },
            None => {},
        }
    }
    assert forall|i: int| 1 <= i < warnings.len() implies !is_license_warning(
        #[trigger] warnings[i],
    ) by {
        assert(warnings[i] == later[i - 1]);
        lemma_later_warning_not_license(later[i - 1]);
    }
}

/// A license that names the GPL but not the LGPL, in any letter case, always draws the copyleft
/// warning, whether or not it also counts as common.
pub proof fn lemma_gpl_license_warned(c: CrateModel, warnings: Seq<Seq<char>>)
    requires
        c.license matches Some(l) && !is_blank_seq(l) && is_copyleft(lower_of(l)),
        is_report_of(c, warnings),
    ensures
        warnings.contains(copyleft_msg()),
{
    let t = choose|t: Moment| warnings == #[trigger] crate_warnings(c, lowered_license(c), age_at(c, t));
    let lw = license_warnings(c.license, lowered_license(c));
    let k = lw.len() - 1;
    assert(lw[k] == copyleft_msg());
    assert(warnings[k] == lw[k]);
}

} // verus!
