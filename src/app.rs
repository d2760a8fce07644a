use vstd::prelude::*;
use vstd::string::StringExecFns;
use crate::analyzer::{is_report_of, security_check};
use crate::records::{Crate, Repository};
use crate::text::{pop_char, push_char};

verus! {

/// How many records one fetch asks for.
pub const FETCH_LIMIT: usize = 20;

/// The views of the browser, in the order the tab keys cycle through them.
#[derive(PartialEq, Eq, Structural, Clone, Copy, Debug)]
pub enum Tab {
    Search,
    Recent,
    Trending,
    Compare,
    Help,
}

/// Where the latest fetch stands.
#[derive(Clone, Debug)]
pub enum LoadingState {
    NotLoading,
    Loading,
    Loaded,
    Error(String),
}

/// The warnings on a compared package, and whether there are none.
pub struct SecurityInfo {
    pub warnings: Vec<String>,
    pub safe: bool,
}

/// A package held for side-by-side comparison, with its warnings.
pub struct ComparedCrate {
    pub details: Crate,
    pub security: SecurityInfo,
    pub selected: bool,
}

/// A key as the browser reads it.
#[derive(PartialEq, Eq, Structural, Clone, Copy, Debug)]
pub enum KeyCode {
    Char(char),
    Enter,
    Esc,
    Backspace,
    Tab,
    BackTab,
    Up,
    Down,
    PageUp,
    PageDown,
    Other,
}

/// A key press, and whether Control was held.
#[derive(PartialEq, Eq, Structural, Clone, Copy, Debug)]
pub struct Key {
    pub code: KeyCode,
    pub ctrl: bool,
}

/// What the event source hands over: a timer tick, a key press, or an event that is ignored.
#[derive(PartialEq, Eq, Structural, Clone, Copy, Debug)]
pub enum Event {
    Tick,
    Key(Key),
    Mouse,
    Resize(u16, u16),
}

/// A fetch that the browser asks its host to make; the host hands the outcome back through
/// `crates_loaded`, `repos_loaded`, `add_crate_to_comparison_by_name` or
/// `finish_add_to_comparison`.
#[derive(Clone, Debug)]
pub enum Request {
    /// The most recently updated packages, answered through `crates_loaded`.
    RecentCrates,
    /// The trending repositories of a period, answered through `repos_loaded`.
    TrendingRepos(String),
    /// The packages that match a query, answered through `crates_loaded`.
    SearchCrates(String),
    /// The full record of a package named by the user, answered through
    /// `add_crate_to_comparison_by_name`.
    CrateDetails(String),
    /// The full record of the selected package, answered through `finish_add_to_comparison`.
    SelectedDetails(String),
}

/// The state of the browser.
pub struct App {
    pub running: bool,
    pub current_tab: Tab,
    pub crates: Vec<Crate>,
    pub repos: Vec<Repository>,
    pub search_query: String,
    pub selected_index: usize,
    pub loading_state: LoadingState,
    pub trend_period: String,
    pub show_detail: bool,
    pub input_mode: bool,
    pub detail_scroll: usize,
    pub compared_crates: Vec<ComparedCrate>,
    pub compare_search_query: String,
    pub compare_input_mode: bool,
}

/// The tab after `t`, wrapping around.
pub open spec fn next_tab_of(t: Tab) -> Tab {
    match t {
        Tab::Search => Tab::Recent,
        Tab::Recent => Tab::Trending,
        Tab::Trending => Tab::Compare,
        Tab::Compare => Tab::Help,
        Tab::Help => Tab::Search,
    }
}

/// The tab before `t`, wrapping around.
pub open spec fn prev_tab_of(t: Tab) -> Tab {
    match t {
        Tab::Search => Tab::Help,
        Tab::Recent => Tab::Search,
        Tab::Trending => Tab::Recent,
        Tab::Compare => Tab::Trending,
        Tab::Help => Tab::Compare,
    }
}

/// Whether the package list is what tab `t` shows.
pub open spec fn shows_crates(t: Tab) -> bool {
    t == Tab::Search || t == Tab::Recent
}

/// The length of the list that tab `t` of `a` shows; the help tab shows none.
pub open spec fn list_len(a: App, t: Tab) -> nat {
    match t {
        Tab::Search | Tab::Recent => a.crates@.len(),
        Tab::Trending => a.repos@.len(),
        Tab::Compare => a.compared_crates@.len(),
        Tab::Help => 0,
    }
}

/// Whether some compared package is named `name`.
pub open spec fn has_name(list: Seq<ComparedCrate>, name: Seq<char>) -> bool {
    exists|i: int| 0 <= i < list.len() && (#[trigger] list[i]).details.name@ == name
}

/// Whether no two compared packages share a name.
pub open spec fn names_unique(list: Seq<ComparedCrate>) -> bool {
    forall|i: int, j: int|
        0 <= i < j < list.len() ==> (#[trigger] list[i]).details.name@ != (#[trigger] list[j]).details.name@
}

/// Whether a compared package carries the warnings of its record, and `safe` says there are none.
pub open spec fn entry_sound(e: ComparedCrate) -> bool {
    &&& e.security.safe == (e.security.warnings@.len() == 0)
    &&& is_report_of(e.details@, e.security.warnings.deep_view())
}

/// `before` with `record` added: unchanged where a package of that name is there already, else
/// one new entry at the end, for `record` with its warnings.
pub open spec fn added(before: Seq<ComparedCrate>, after: Seq<ComparedCrate>, record: Crate) -> bool {
    if has_name(before, record.name@) {
        after == before
    } else {
        &&& after.len() == before.len() + 1
        &&& after.drop_last() == before
        &&& after.last().details == record
        &&& !after.last().selected
        &&& entry_sound(after.last())
    }
}

/// Whether the list that tab `t` shows is still empty in `old`, so that it has to be fetched.
pub open spec fn needs_fetch(old: App, t: Tab) -> bool {
    (t == Tab::Recent && old.crates@.len() == 0) || (t == Tab::Trending && old.repos@.len() == 0)
}

/// `old` switched to tab `t`: normal mode, first item selected, loading where `t`'s list is
/// empty.
pub open spec fn switched(old: App, t: Tab) -> App {
    App {
        current_tab: t,
        selected_index: 0,
        show_detail: false,
        input_mode: false,
        compare_input_mode: false,
        loading_state: if needs_fetch(old, t) {
            LoadingState::Loading
        } else {
            old.loading_state
        },
        ..old
    }
}

/// The fetch that a jump to tab `t` starts at once.
pub open spec fn fetch_for(old: App, t: Tab) -> Option<Request> {
    if t == Tab::Recent && old.crates@.len() == 0 {
        Some(Request::RecentCrates)
    } else if t == Tab::Trending && old.repos@.len() == 0 {
        Some(Request::TrendingRepos(old.trend_period))
    } else {
        None
    }
}

/// `old` with the next item of the current list selected, wrapping around.
pub open spec fn stepped_down(old: App) -> App {
    let n = list_len(old, old.current_tab);
    if n == 0 {
        old
    } else {
        App { selected_index: ((old.selected_index + 1) % (n as int)) as usize, ..old }
    }
}

/// `old` with the previous item of the current list selected, wrapping around.
pub open spec fn stepped_up(old: App) -> App {
    let n = list_len(old, old.current_tab);
    if n == 0 {
        old
    } else if old.selected_index > 0 {
        App { selected_index: (old.selected_index - 1) as usize, ..old }
    } else {
        App { selected_index: (n - 1) as usize, ..old }
    }
}

/// `x + k`, or the largest `usize` where that does not fit.
pub open spec fn sat_add(x: usize, k: usize) -> usize {
    if x + k <= usize::MAX {
        (x + k) as usize
    } else {
        usize::MAX
    }
}

/// `x - k`, or zero where that would be negative.
pub open spec fn sat_sub(x: usize, k: usize) -> usize {
    if x >= k {
        (x - k) as usize
    } else {
        0
    }
}

/// Whether the key ends the session: `q` outside the text inputs, or Control-C anywhere.
pub open spec fn is_quit(a: App, key: Key) -> bool {
    (key.code == KeyCode::Char('q') && !a.input_mode && !a.compare_input_mode) || (key.code
        == KeyCode::Char('c') && key.ctrl)
}

/// A key in detail mode.
pub open spec fn detail_step(old: App, new: App, key: Key) -> bool {
    if key.code == KeyCode::Esc || key.code == KeyCode::Char('q') {
        new == App { show_detail: false, ..old }
    } else if key.code == KeyCode::Down || key.code == KeyCode::Char('j') {
        new == App { detail_scroll: sat_add(old.detail_scroll, 1), ..old }
    } else if key.code == KeyCode::Up || key.code == KeyCode::Char('k') {
        new == App { detail_scroll: sat_sub(old.detail_scroll, 1), ..old }
    } else if key.code == KeyCode::PageDown {
        new == App { detail_scroll: sat_add(old.detail_scroll, 10), ..old }
    } else if key.code == KeyCode::PageUp {
        new == App { detail_scroll: sat_sub(old.detail_scroll, 10), ..old }
    } else {
        new == old
    }
}

/// `old` with the search started that its query asks for, if it is not empty.
pub open spec fn search_started(old: App, new: App, r: Option<Request>) -> bool {
    if old.search_query@.len() == 0 {
        new == old && r is None
    } else {
        new == App { loading_state: LoadingState::Loading, ..old } && r == Some(
            Request::SearchCrates(old.search_query),
        )
    }
}

/// A key while the search query is typed.
pub open spec fn input_step(old: App, new: App, key: Key, r: Option<Request>) -> bool {
    match key.code {
        KeyCode::Enter => if old.search_query@.len() == 0 {
            new == App { input_mode: false, ..old } && r is None
        } else {
            new == App {
                input_mode: false,
                selected_index: 0,
                loading_state: LoadingState::Loading,
                ..old
            } && r == Some(Request::SearchCrates(old.search_query))
        },
        KeyCode::Esc => new == App { input_mode: false, ..old } && r is None,
        KeyCode::Char(c) => new == App { search_query: new.search_query, ..old }
            && new.search_query@ == old.search_query@.push(c) && r is None,
        KeyCode::Backspace => new == App { search_query: new.search_query, ..old }
            && new.search_query@ == (if old.search_query@.len() == 0 {
            old.search_query@
        } else {
            old.search_query@.drop_last()
        }) && r is None,
        _ => new == old && r is None,
    }
}

/// A key while the name of a package to compare is typed.
pub open spec fn compare_input_step(old: App, new: App, key: Key, r: Option<Request>) -> bool {
    match key.code {
        KeyCode::Enter => if old.compare_search_query@.len() == 0 {
            new == App { compare_input_mode: false, ..old } && r is None
        } else {
            new == App {
                compare_input_mode: false,
                compare_search_query: new.compare_search_query,
                ..old
            } && new.compare_search_query@.len() == 0 && r == Some(
                Request::CrateDetails(old.compare_search_query),
            )
        },
        KeyCode::Esc => new == App { compare_input_mode: false, ..old } && r is None,
        KeyCode::Char(c) => new == App { compare_search_query: new.compare_search_query, ..old }
            && new.compare_search_query@ == old.compare_search_query@.push(c) && r is None,
        KeyCode::Backspace => new == App { compare_search_query: new.compare_search_query, ..old }
            && new.compare_search_query@ == (if old.compare_search_query@.len() == 0 {
            old.compare_search_query@
        } else {
            old.compare_search_query@.drop_last()
        }) && r is None,
        _ => new == old && r is None,
    }
}

/// The fetch that adding the selected package to the comparison asks for: only on the search
/// and recent tabs, with a package selected that is not compared yet.
pub open spec fn add_request(old: App) -> Option<Request> {
    if shows_crates(old.current_tab) && old.selected_index < old.crates@.len() && !has_name(
        old.compared_crates@,
        old.crates@[old.selected_index as int].name@,
    ) {
        Some(Request::SelectedDetails(old.crates@[old.selected_index as int].name))
    } else {
        None
    }
}

/// `old` with the selected compared package removed, on the compare tab, and the selection
/// moved back onto the list where it fell off its end.
pub open spec fn removal(old: App, new: App) -> bool {
    let n = old.compared_crates@.len();
    if old.current_tab == Tab::Compare && old.selected_index < n {
        &&& new == App {
            compared_crates: new.compared_crates,
            selected_index: new.selected_index,
            ..old
        }
        &&& new.compared_crates@ == old.compared_crates@.remove(old.selected_index as int)
        &&& new.selected_index == (if old.selected_index >= n - 1 && n - 1 > 0 {
            (n - 2) as usize
        } else {
            old.selected_index
        })
    } else {
        new == old
    }
}

/// A key in normal navigation.
pub open spec fn normal_step(old: App, new: App, key: Key, r: Option<Request>) -> bool {
    let k = key.code;
    if k == KeyCode::Tab {
        new == switched(old, next_tab_of(old.current_tab)) && r is None
    } else if k == KeyCode::BackTab {
        new == switched(old, prev_tab_of(old.current_tab)) && r is None
    } else if k == KeyCode::Down || k == KeyCode::Char('j') {
        new == stepped_down(old) && r is None
    } else if k == KeyCode::Up || k == KeyCode::Char('k') {
        new == stepped_up(old) && r is None
    } else if k == KeyCode::Enter {
        new == App { show_detail: true, detail_scroll: 0, ..old } && r is None
    } else if k == KeyCode::Char('1') {
        new == switched(old, Tab::Search) && r == fetch_for(old, Tab::Search)
    } else if k == KeyCode::Char('2') {
        new == switched(old, Tab::Recent) && r == fetch_for(old, Tab::Recent)
    } else if k == KeyCode::Char('3') {
        new == switched(old, Tab::Trending) && r == fetch_for(old, Tab::Trending)
    } else if k == KeyCode::Char('4') {
        new == switched(old, Tab::Help) && r == fetch_for(old, Tab::Help)
    } else if k == KeyCode::Char('5') {
        new == switched(old, Tab::Compare) && r == fetch_for(old, Tab::Compare)
    } else if k == KeyCode::Char('/') {
        r is None && if old.current_tab == Tab::Search {
            new == App { input_mode: true, search_query: new.search_query, ..old }
                && new.search_query@.len() == 0
        } else {
            new == old
        }
    } else if k == KeyCode::Char('a') {
        if shows_crates(old.current_tab) {
            new == old && r == add_request(old)
        } else if old.current_tab == Tab::Compare {
            new == App { compare_input_mode: true, ..old } && r is None
        } else {
            new == old && r is None
        }
    } else if k == KeyCode::Char('d') {
        removal(old, new) && r is None
    } else {
        new == old && r is None
    }
}

/// A key, in whichever mode `old` is in.
pub open spec fn key_step(old: App, new: App, key: Key, r: Option<Request>) -> bool {
    if is_quit(old, key) {
        new == App { running: false, ..old } && r is None
    } else if old.show_detail {
        detail_step(old, new, key) && r is None
    } else if old.input_mode {
        input_step(old, new, key, r)
    } else if old.compare_input_mode {
        compare_input_step(old, new, key, r)
    } else {
        normal_step(old, new, key, r)
    }
}

/// A timer tick: while loading, the fetch for the current tab is asked for again.
pub open spec fn tick_request(old: App) -> Option<Request> {
    match old.loading_state {
        LoadingState::Loading => match old.current_tab {
            Tab::Recent => Some(Request::RecentCrates),
            Tab::Trending => Some(Request::TrendingRepos(old.trend_period)),
            Tab::Search => if old.search_query@.len() == 0 {
                None
            } else {
                Some(Request::SearchCrates(old.search_query))
            },
            _ => None,
        },
        _ => None,
    }
}

/// Adding two records that share a name leaves exactly one entry of that name, and the second
/// addition changes nothing.
pub proof fn lemma_add_same_name_once(
    l0: Seq<ComparedCrate>,
    l1: Seq<ComparedCrate>,
    l2: Seq<ComparedCrate>,
    a: Crate,
    b: Crate,
)
    requires
        names_unique(l0),
        added(l0, l1, a),
        added(l1, l2, b),
        a.name@ == b.name@,
    ensures
        l2 == l1,
        exists|i: int|
            0 <= i < l2.len() && (#[trigger] l2[i]).details.name@ == a.name@ && forall|j: int|
                0 <= j < l2.len() && (#[trigger] l2[j]).details.name@ == a.name@ ==> j == i,
{
    if has_name(l0, a.name@) {
        let i = choose|i: int| 0 <= i < l0.len() && (#[trigger] l0[i]).details.name@ == a.name@;
        assert forall|j: int|
            0 <= j < l2.len() && (#[trigger] l2[j]).details.name@ == a.name@ implies j == i by {
            if j < i {
                assert(l0[j].details.name@ != l0[i].details.name@);
            } else if j > i {
                assert(l0[i].details.name@ != l0[j].details.name@);
            }
        }
    } else {
        let i = l1.len() - 1;
        assert(l1[i].details == a);
        assert(has_name(l1, b.name@));
        assert forall|j: int|
            0 <= j < l2.len() && (#[trigger] l2[j]).details.name@ == a.name@ implies j == i by {
            if j < i {
                assert(l1[j] == l0[j]);
            }
        }
    }
}

/// Removing the only compared package on the compare tab leaves the comparison empty and the
/// selection at zero.
pub proof fn lemma_remove_only_entry(old: App, new: App)
    requires
        old.wf(),
        old.current_tab == Tab::Compare,
        old.compared_crates@.len() == 1,
        removal(old, new),
    ensures
        new.compared_crates@.len() == 0,
        new.selected_index == 0,
{
}

/// The tabs form a cycle of five: five steps forward come back to the start, a step back undoes
/// a step forward, and a step back from the search tab wraps around to the help tab.
pub proof fn lemma_tab_cycle(t: Tab)
    ensures
        next_tab_of(next_tab_of(next_tab_of(next_tab_of(next_tab_of(t))))) == t,
        prev_tab_of(next_tab_of(t)) == t,
        next_tab_of(prev_tab_of(t)) == t,
        prev_tab_of(Tab::Search) == Tab::Help,
{
}

/// A tab switch selects the first item, and on an empty list moving the selection either way
/// changes nothing.
pub proof fn lemma_empty_list_selection(old: App, t: Tab)
    ensures
        switched(old, t).selected_index == 0,
        list_len(switched(old, t), t) == 0 ==> stepped_down(switched(old, t)) == switched(old, t)
            && stepped_up(switched(old, t)) == switched(old, t),
{
}

impl App {
    /// The browser's rules: one input context at a time, each text input on its own tab,
    /// compared packages unique by name and carrying their warnings, and the selection on the
    /// current list, or at zero.
    pub open spec fn wf(&self) -> bool {
        &&& !(self.show_detail && self.input_mode)
        &&& !(self.show_detail && self.compare_input_mode)
        &&& !(self.input_mode && self.compare_input_mode)
        &&& self.input_mode ==> self.current_tab == Tab::Search
        &&& self.compare_input_mode ==> self.current_tab == Tab::Compare
        &&& names_unique(self.compared_crates@)
        &&& forall|i: int|
            0 <= i < self.compared_crates@.len() ==> entry_sound(
                #[trigger] self.compared_crates@[i],
            )
        &&& (self.selected_index == 0 || self.selected_index < list_len(
            *self,
            self.current_tab,
        ))
    }

    /// A browser on the search tab with nothing loaded, nothing typed and nothing compared.
    pub fn new() -> (r: App)
        ensures
            r.wf(),
            r.running,
            r.current_tab == Tab::Search,
            r.crates@.len() == 0,
            r.repos@.len() == 0,
            r.search_query@.len() == 0,
            r.selected_index == 0,
            r.loading_state is NotLoading,
            r.trend_period@ == "weekly"@,
            !r.show_detail,
            !r.input_mode,
            r.detail_scroll == 0,
            r.compared_crates@.len() == 0,
            r.compare_search_query@.len() == 0,
            !r.compare_input_mode,
    {
        App {
            running: true,
            current_tab: Tab::Search,
            crates: Vec::new(),
            repos: Vec::new(),
            search_query: String::new(),
            selected_index: 0,
            loading_state: LoadingState::NotLoading,
            trend_period: String::from_str("weekly"),
            show_detail: false,
            input_mode: false,
            detail_scroll: 0,
            compared_crates: Vec::new(),
            compare_search_query: String::new(),
            compare_input_mode: false,
        }
    }

    /// The length of the list that the current tab shows.
    fn current_len(&self) -> (r: usize)
        ensures
            r == list_len(*self, self.current_tab),
    {
        match self.current_tab {
            Tab::Search | Tab::Recent => self.crates.len(),
            Tab::Trending => self.repos.len(),
            Tab::Compare => self.compared_crates.len(),
            Tab::Help => 0,
        }
    }

    /// Marks the recent packages as loading and asks for them.
    pub fn load_recent_crates(&mut self) -> (r: Request)
        ensures
            *final(self) == (App { loading_state: LoadingState::Loading, ..*old(self) }),
            r == Request::RecentCrates,
            old(self).wf() ==> final(self).wf(),
    {
        self.loading_state = LoadingState::Loading;
        Request::RecentCrates
    }

    /// Marks the trending repositories as loading and asks for them, over the chosen period.
    pub fn load_trending_repos(&mut self) -> (r: Request)
        ensures
            *final(self) == (App { loading_state: LoadingState::Loading, ..*old(self) }),
            r == Request::TrendingRepos(old(self).trend_period),
            old(self).wf() ==> final(self).wf(),
    {
        self.loading_state = LoadingState::Loading;
        Request::TrendingRepos(self.trend_period.clone())
    }

    /// Starts a search for the typed query, unless nothing is typed.
    pub fn search_crates(&mut self) -> (r: Option<Request>)
        ensures
            search_started(*old(self), *final(self), r),
            old(self).wf() ==> final(self).wf(),
    {
        if self.search_query.as_str().is_empty() {
            return None;
        }
        self.loading_state = LoadingState::Loading;
        Some(Request::SearchCrates(self.search_query.clone()))
    }

    /// Starts a search for `query`, leaving the typed query as it is.
    pub fn search_crates_silently(&mut self, query: &str) -> (r: Request)
        ensures
            *final(self) == (App { loading_state: LoadingState::Loading, ..*old(self) }),
            r matches Request::SearchCrates(q) && q@ == query@,
            old(self).wf() ==> final(self).wf(),
    {
        self.loading_state = LoadingState::Loading;
        Request::SearchCrates(String::from_str(query))
    }

    /// The search that the search tab starts by itself when it is shown with nothing typed,
    /// nothing listed and nothing loading: one for "rust".
    pub fn default_search(&mut self) -> (r: Option<Request>)
        ensures
            ({
                let o = *old(self);
                if o.current_tab == Tab::Search && o.search_query@.len() == 0 && o.crates@.len()
                    == 0 && o.loading_state is NotLoading {
                    &&& *final(self) == (App { loading_state: LoadingState::Loading, ..o })
                    &&& (r matches Some(Request::SearchCrates(q)) && q@ == "rust"@)
                } else {
                    *final(self) == o && r is None
                }
            }),
            old(self).wf() ==> final(self).wf(),
    {
        if self.current_tab == Tab::Search && self.search_query.as_str().is_empty()
            && self.crates.len() == 0 {
            if let LoadingState::NotLoading = self.loading_state {
                return Some(self.search_crates_silently("rust"));
            }
        }
        None
    }

    /// Takes in a fetched package list, or the error that the fetch ended in. The selection
    /// goes back to the first item where it is past the end of a new list on display.
    pub fn crates_loaded(&mut self, result: Result<Vec<Crate>, String>)
        ensures
            ({
                let o = *old(self);
                match result {
                    Ok(v) => *final(self) == (App {
                        crates: v,
                        loading_state: LoadingState::Loaded,
                        selected_index: if shows_crates(o.current_tab) && o.selected_index
                            >= v@.len() {
                            0
                        } else {
                            o.selected_index
                        },
                        ..o
                    }),
                    Err(e) => *final(self) == (App { loading_state: LoadingState::Error(e), ..o }),
                }
            }),
            old(self).wf() ==> final(self).wf(),
    {
        match result {
            Ok(v) => {
                if (self.current_tab == Tab::Search || self.current_tab == Tab::Recent)
                    && self.selected_index >= v.len() {
                    self.selected_index = 0;
                }
                self.crates = v;
                self.loading_state = LoadingState::Loaded;
            },
            Err(e) => {
                self.loading_state = LoadingState::Error(e);
            },
        }
    }

    /// Takes in a fetched repository list, or the error that the fetch ended in. The selection
    /// goes back to the first item where it is past the end of a new list on display.
    pub fn repos_loaded(&mut self, result: Result<Vec<Repository>, String>)
        ensures
            ({
                let o = *old(self);
                match result {
                    Ok(v) => *final(self) == (App {
                        repos: v,
                        loading_state: LoadingState::Loaded,
                        selected_index: if o.current_tab == Tab::Trending && o.selected_index
                            >= v@.len() {
                            0
                        } else {
                            o.selected_index
                        },
                        ..o
                    }),
                    Err(e) => *final(self) == (App { loading_state: LoadingState::Error(e), ..o }),
                }
            }),
            old(self).wf() ==> final(self).wf(),
    {
        match result {
            Ok(v) => {
                if self.current_tab == Tab::Trending && self.selected_index >= v.len() {
                    self.selected_index = 0;
                }
                self.repos = v;
                self.loading_state = LoadingState::Loaded;
            },
            Err(e) => {
                self.loading_state = LoadingState::Error(e);
            },
        }
    }

    /// On a timer tick, asks again for the fetch of the current tab while it is loading.
    pub fn tick(&mut self) -> (r: Option<Request>)
        ensures
            *final(self) == *old(self),
            r == tick_request(*old(self)),
    {
        match self.loading_state {
            LoadingState::Loading => match self.current_tab {
                Tab::Recent => Some(Request::RecentCrates),
                Tab::Trending => Some(Request::TrendingRepos(self.trend_period.clone())),
                Tab::Search => {
                    if self.search_query.as_str().is_empty() {
                        None
                    } else {
                        Some(Request::SearchCrates(self.search_query.clone()))
                    }
                },
                _ => None,
            },
            _ => None,
        }
    }

    /// Whether some compared package is named `name`.
    fn is_compared(&self, name: &String) -> (r: bool)
        ensures
            r == has_name(self.compared_crates@, name@),
    {
        let mut i: usize = 0;
        while i < self.compared_crates.len()
            invariant
                i <= self.compared_crates@.len(),
                forall|k: int|
                    0 <= k < i ==> (#[trigger] self.compared_crates@[k]).details.name@ != name@,
            decreases self.compared_crates.len() - i,
        {
            if self.compared_crates[i].details.name == *name {
                return true;
            }
            i = i + 1;
        }
        false
    }

    /// Adds `details` to the comparison with its warnings, unless a package of that name is
    /// compared already.
    pub fn add_compared_crate(&mut self, details: Crate)
        ensures
            *final(self) == (App { compared_crates: final(self).compared_crates, ..*old(self) }),
            added(old(self).compared_crates@, final(self).compared_crates@, details),
            old(self).wf() ==> final(self).wf(),
    {
        if self.is_compared(&details.name) {
            return;
        }
        let warnings = security_check(&details);
        let safe = warnings.len() == 0;
        let ghost before = self.compared_crates@;
        self.compared_crates.push(
            ComparedCrate { details, security: SecurityInfo { warnings, safe }, selected: false },
        );
        assert(self.compared_crates@.drop_last() =~= before);
    }

    /// Asks for the full record of the selected package, so that it can be compared: only on
    /// the search and recent tabs, with a package selected that is not compared yet.
    pub fn add_to_comparison(&self) -> (r: Option<Request>)
        ensures
            r == add_request(*self),
    {
        if (self.current_tab == Tab::Search || self.current_tab == Tab::Recent)
            && self.selected_index < self.crates.len() {
            let current = &self.crates[self.selected_index];
            if self.is_compared(&current.name) {
                return None;
            }
            return Some(Request::SelectedDetails(current.name.clone()));
        }
        None
    }

    /// Adds the fetched full record of the selected package to the comparison; where the fetch
    /// failed, the record already listed stands in for it.
    pub fn finish_add_to_comparison(&mut self, fetched: Result<Crate, String>)
        ensures
            *final(self) == (App { compared_crates: final(self).compared_crates, ..*old(self) }),
            ({
                let o = *old(self);
                match fetched {
                    Ok(d) => added(o.compared_crates@, final(self).compared_crates@, d),
                    Err(_) => if shows_crates(o.current_tab) && o.selected_index < o.crates@.len() {
                        exists|d: Crate|
                            d@ == o.crates@[o.selected_index as int]@ && #[trigger] added(
                                o.compared_crates@,
                                final(self).compared_crates@,
                                d,
                            )
                    } else {
                        final(self).compared_crates@ == o.compared_crates@
                    },
                }
            }),
            old(self).wf() ==> final(self).wf(),
    {
        match fetched {
            Ok(d) => self.add_compared_crate(d),
            Err(_) => {
                if (self.current_tab == Tab::Search || self.current_tab == Tab::Recent)
                    && self.selected_index < self.crates.len() {
                    let d = self.crates[self.selected_index].snapshot();
                    self.add_compared_crate(d);
                }
            },
        }
    }

    /// Adds the fetched full record of a package named by the user to the comparison; a failed
    /// fetch changes nothing.
    pub fn add_crate_to_comparison_by_name(&mut self, fetched: Result<Crate, String>)
        ensures
            *final(self) == (App { compared_crates: final(self).compared_crates, ..*old(self) }),
            match fetched {
                Ok(d) => added(old(self).compared_crates@, final(self).compared_crates@, d),
                Err(_) => final(self).compared_crates@ == old(self).compared_crates@,
            },
            old(self).wf() ==> final(self).wf(),
    {
        match fetched {
            Ok(d) => self.add_compared_crate(d),
            Err(_) => {},
        }
    }

    /// Removes the selected compared package, on the compare tab, and moves the selection back
    /// onto the list where it fell off its end.
    pub fn remove_from_comparison(&mut self)
        ensures
            removal(*old(self), *final(self)),
            old(self).wf() ==> final(self).wf(),
    {
        if self.current_tab == Tab::Compare && self.selected_index < self.compared_crates.len() {
            let ghost before = self.compared_crates@;
            let ghost at = self.selected_index as int;
            self.compared_crates.remove(self.selected_index);
            if self.selected_index >= self.compared_crates.len() && self.compared_crates.len()
                > 0 {
                self.selected_index = self.compared_crates.len() - 1;
            }
            proof {
                let after = self.compared_crates@;
                assert forall|i: int| 0 <= i < after.len() implies #[trigger] after[i] == before[
                    if i < at {
                        i
                    } else {
                        i + 1
                    }
                ] by {}
                if names_unique(before) {
                    assert forall|i: int, j: int|
                        0 <= i < j < after.len() implies (#[trigger] after[i]).details.name@
                        != (#[trigger] after[j]).details.name@ by {
                        let bi = if i < at {
                            i
                        } else {
                            i + 1
                        };
                        let bj = if j < at {
                            j
                        } else {
                            j + 1
                        };
                        assert(after[i] == before[bi]);
                        assert(after[j] == before[bj]);
                    }
                }
            }
        }
    }

    /// Switches to tab `t` in normal mode with the first item selected, marking its list as
    /// loading where it is empty.
    fn switch_to(&mut self, t: Tab)
        ensures
            *final(self) == switched(*old(self), t),
            old(self).wf() ==> final(self).wf(),
    {
        self.current_tab = t;
        self.selected_index = 0;
        self.show_detail = false;
        self.input_mode = false;
        self.compare_input_mode = false;
        match t {
            Tab::Recent => {
                if self.crates.len() == 0 {
                    self.loading_state = LoadingState::Loading;
                }
            },
            Tab::Trending => {
                if self.repos.len() == 0 {
                    self.loading_state = LoadingState::Loading;
                }
            },
            _ => {},
        }
    }

    /// Switches to the next tab; the tick fetches its list where that is empty.
    pub fn next_tab(&mut self)
        ensures
            *final(self) == switched(*old(self), next_tab_of(old(self).current_tab)),
            old(self).wf() ==> final(self).wf(),
    {
        let t = match self.current_tab {
            Tab::Search => Tab::Recent,
            Tab::Recent => Tab::Trending,
            Tab::Trending => Tab::Compare,
            Tab::Compare => Tab::Help,
            Tab::Help => Tab::Search,
        };
        self.switch_to(t);
    }

    /// Switches to the previous tab; the tick fetches its list where that is empty.
    pub fn prev_tab(&mut self)
        ensures
            *final(self) == switched(*old(self), prev_tab_of(old(self).current_tab)),
            old(self).wf() ==> final(self).wf(),
    {
        let t = match self.current_tab {
            Tab::Search => Tab::Help,
            Tab::Recent => Tab::Search,
            Tab::Trending => Tab::Recent,
            Tab::Compare => Tab::Trending,
            Tab::Help => Tab::Compare,
        };
        self.switch_to(t);
    }

    /// Jumps to tab `t` and fetches its list at once where that is empty.
    pub fn jump_to_tab(&mut self, t: Tab) -> (r: Option<Request>)
        ensures
            *final(self) == switched(*old(self), t),
            r == fetch_for(*old(self), t),
            old(self).wf() ==> final(self).wf(),
    {
        let recent = t == Tab::Recent && self.crates.len() == 0;
        let trending = t == Tab::Trending && self.repos.len() == 0;
        self.switch_to(t);
        if recent {
            Some(self.load_recent_crates())
        } else if trending {
            Some(self.load_trending_repos())
        } else {
            None
        }
    }

    /// Selects the next item of the current list, wrapping around; nothing happens on an empty
    /// list.
    pub fn next_item(&mut self)
        ensures
            *final(self) == stepped_down(*old(self)),
            old(self).wf() ==> final(self).wf(),
    {
        let max = self.current_len();
        if max > 0 {
            let i = self.selected_index % max;
            proof {
                vstd::arithmetic::div_mod::lemma_add_mod_noop(
                    self.selected_index as int,
                    1,
                    max as int,
                );
                if max > 1 {
                    vstd::arithmetic::div_mod::lemma_small_mod(1, max as nat);
                }
            }
            self.selected_index = (i + 1) % max;
        }
    }

    /// Selects the previous item of the current list, wrapping around; nothing happens on an
    /// empty list.
    pub fn prev_item(&mut self)
        ensures
            *final(self) == stepped_up(*old(self)),
            old(self).wf() ==> final(self).wf(),
    {
        let max = self.current_len();
        if max > 0 {
            self.selected_index = if self.selected_index > 0 {
                self.selected_index - 1
            } else {
                max - 1
            };
        }
    }

    /// A key in detail mode: leave it, or scroll.
    pub fn handle_detail_mode(&mut self, key: Key)
        ensures
            detail_step(*old(self), *final(self), key),
            old(self).wf() ==> final(self).wf(),
    {
        match key.code {
            KeyCode::Esc | KeyCode::Char('q') => {
                self.show_detail = false;
            },
            KeyCode::Down | KeyCode::Char('j') => {
                self.detail_scroll = self.detail_scroll.saturating_add(1);
            },
            KeyCode::Up | KeyCode::Char('k') => {
                self.detail_scroll = self.detail_scroll.saturating_sub(1);
            },
            KeyCode::PageDown => {
                self.detail_scroll = self.detail_scroll.saturating_add(10);
            },
            KeyCode::PageUp => {
                self.detail_scroll = self.detail_scroll.saturating_sub(10);
            },
            _ => {},
        }
    }

    /// A key while the search query is typed.
    pub fn handle_input_mode(&mut self, key: Key) -> (r: Option<Request>)
        ensures
            input_step(*old(self), *final(self), key, r),
            old(self).wf() ==> final(self).wf(),
    {
        match key.code {
            KeyCode::Enter => {
                self.input_mode = false;
                let r = self.search_crates();
                if r.is_some() {
                    self.selected_index = 0;
                }
                r
            },
            KeyCode::Esc => {
                self.input_mode = false;
                None
            },
            KeyCode::Char(c) => {
                push_char(&mut self.search_query, c);
                None
            },
            KeyCode::Backspace => {
                pop_char(&mut self.search_query);
                None
            },
            _ => None,
        }
    }

    /// A key while the name of a package to compare is typed.
    pub fn handle_compare_input_mode(&mut self, key: Key) -> (r: Option<Request>)
        ensures
            compare_input_step(*old(self), *final(self), key, r),
            old(self).wf() ==> final(self).wf(),
    {
        match key.code {
            KeyCode::Enter => {
                self.compare_input_mode = false;
                if self.compare_search_query.as_str().is_empty() {
                    None
                } else {
                    let query = self.compare_search_query.clone();
                    self.compare_search_query = String::new();
                    Some(Request::CrateDetails(query))
                }
            },
            KeyCode::Esc => {
                self.compare_input_mode = false;
                None
            },
            KeyCode::Char(c) => {
                push_char(&mut self.compare_search_query, c);
                None
            },
            KeyCode::Backspace => {
                pop_char(&mut self.compare_search_query);
                None
            },
            _ => None,
        }
    }

    /// A key in normal navigation.
    fn handle_normal_mode(&mut self, key: Key) -> (r: Option<Request>)
        requires
            !old(self).show_detail,
            !old(self).input_mode,
            !old(self).compare_input_mode,
        ensures
            normal_step(*old(self), *final(self), key, r),
            old(self).wf() ==> final(self).wf(),
    {
        match key.code {
            KeyCode::Tab => {
                self.next_tab();
                None
            },
            KeyCode::BackTab => {
                self.prev_tab();
                None
            },
            KeyCode::Down | KeyCode::Char('j') => {
                self.next_item();
                None
            },
            KeyCode::Up | KeyCode::Char('k') => {
                self.prev_item();
                None
            },
            KeyCode::Enter => {
                self.show_detail = true;
                self.detail_scroll = 0;
                None
            },
            KeyCode::Char('1') => self.jump_to_tab(Tab::Search),
            KeyCode::Char('2') => self.jump_to_tab(Tab::Recent),
            KeyCode::Char('3') => self.jump_to_tab(Tab::Trending),
            KeyCode::Char('4') => self.jump_to_tab(Tab::Help),
            KeyCode::Char('5') => self.jump_to_tab(Tab::Compare),
            KeyCode::Char('/') => {
                if self.current_tab == Tab::Search {
                    self.input_mode = true;
                    self.search_query = String::new();
                }
                None
            },
            KeyCode::Char('a') => {
                if self.current_tab == Tab::Search || self.current_tab == Tab::Recent {
                    self.add_to_comparison()
                } else {
                    if self.current_tab == Tab::Compare {
                        self.compare_input_mode = true;
                    }
                    None
                }
            },
            KeyCode::Char('d') => {
                self.remove_from_comparison();
                None
            },
            _ => None,
        }
    }

    /// A key press: quit keys first, then detail mode, then the text input in use, then
    /// normal navigation. The result is the fetch that the key asks for, if any.
    pub fn handle_key_event(&mut self, key: Key) -> (r: Option<Request>)
        ensures
            key_step(*old(self), *final(self), key, r),
            old(self).wf() ==> final(self).wf(),
    {
        if key.code == KeyCode::Char('q') && !self.input_mode && !self.compare_input_mode {
            self.running = false;
            return None;
        }
        if key.code == KeyCode::Char('c') && key.ctrl {
            self.running = false;
            return None;
        }
        if self.show_detail {
            self.handle_detail_mode(key);
            return None;
        }
        if self.input_mode {
            return self.handle_input_mode(key);
        }
        if self.compare_input_mode {
            return self.handle_compare_input_mode(key);
        }
        self.handle_normal_mode(key)
    }

    /// One event from the event source; mouse and resize events change nothing.
    pub fn handle_event(&mut self, event: Event) -> (r: Option<Request>)
        ensures
            match event {
                Event::Tick => *final(self) == *old(self) && r == tick_request(*old(self)),
                Event::Key(k) => key_step(*old(self), *final(self), k, r),
                _ => *final(self) == *old(self) && r is None,
            },
            old(self).wf() ==> final(self).wf(),
    {
        match event {
            Event::Tick => self.tick(),
            Event::Key(k) => self.handle_key_event(k),
            _ => None,
        }
    }
}

} // verus!
