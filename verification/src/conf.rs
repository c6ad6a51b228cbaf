//! The registry of tracked workspaces: its records, how one is found by an
//! identifier, how records are added and removed, and the order in which
//! they are listed.

use crate::error::{ErrorView, RedwoodError};
use crate::order::{
    as_places, comes_before, is_stable_order, lemma_stable_order_covers,
    lemma_stable_order_exists, lemma_stable_order_sorted, lemma_stable_order_unique, lex_le,
    stable_order, text_keys,
};
use crate::text::{lowercase, str_eq, to_lowercase};
use vstd::prelude::*;
use vstd::utf8::encode_utf8;

verus! {

/// One tracked workspace.
#[derive(Debug, PartialEq, Eq)]
pub struct WorktreeConfig {
    repo_path: String,
    worktree_name: String,
    tmux_session_name: Option<String>,
}

/// A tracked workspace as plain values.
pub struct WorktreeView {
    /// The working directory of the workspace.
    pub repo_path: Seq<char>,
    /// The logical name of the workspace.
    pub worktree_name: Seq<char>,
    /// The session name that stands in for the workspace's name, if any.
    pub tmux_session_name: Option<Seq<char>>,
}

impl WorktreeView {
    /// Whether `identifier` is the path or the name of the workspace.
    pub open spec fn answers_to(self, identifier: Seq<char>) -> bool {
        identifier == self.repo_path || identifier == self.worktree_name
    }

    /// Whether the two workspaces have the same path and the same name.
    pub open spec fn same_pair(self, other: WorktreeView) -> bool {
        self.repo_path == other.repo_path && self.worktree_name == other.worktree_name
    }

    /// The name of the workspace's session: the override where there is one,
    /// the workspace's name otherwise.
    pub open spec fn session_name(self) -> Seq<char> {
        match self.tmux_session_name {
            Some(name) => name,
            None => self.worktree_name,
        }
    }
}

impl View for WorktreeConfig {
    type V = WorktreeView;

    closed spec fn view(&self) -> WorktreeView {
        WorktreeView {
            repo_path: self.repo_path@,
            worktree_name: self.worktree_name@,
            tmux_session_name: match self.tmux_session_name {
                Some(name) => Some(name@),
                None => None,
            },
        }
    }
}

impl WorktreeConfig {
    /// A workspace at `repo_path` named `worktree_name`, with no session
    /// name of its own.
    pub fn new(repo_path: &str, worktree_name: &str) -> (wt: WorktreeConfig)
        ensures
            wt@ == (WorktreeView {
                repo_path: repo_path@,
                worktree_name: worktree_name@,
                tmux_session_name: None,
            }),
    {
        WorktreeConfig {
            repo_path: repo_path.to_owned(),
            worktree_name: worktree_name.to_owned(),
            tmux_session_name: None,
        }
    }

    /// The working directory of the workspace.
    pub fn repo_path(&self) -> (path: &str)
        ensures
            path@ == self@.repo_path,
    {
        self.repo_path.as_str()
    }

    /// The logical name of the workspace.
    pub fn worktree_name(&self) -> (name: &str)
        ensures
            name@ == self@.worktree_name,
    {
        self.worktree_name.as_str()
    }

    /// The session name given for the workspace, if any.
    pub fn tmux_session_name(&self) -> (name: Option<&str>)
        ensures
            match name {
                Some(text) => self@.tmux_session_name == Some(text@),
                None => self@.tmux_session_name is None,
            },
    {
        match &self.tmux_session_name {
            Some(text) => Some(text.as_str()),
            None => None,
        }
    }

    /// Gives the workspace the session name `name`.
    pub fn set_tmux_session_name(&mut self, name: &str)
        ensures
            final(self)@ == (WorktreeView { tmux_session_name: Some(name@), ..old(self)@ }),
    {
        self.tmux_session_name = Some(name.to_owned())
    }

    /// The name of the workspace's session: the override where there is one,
    /// the workspace's name otherwise.
    pub fn session_name(&self) -> (name: &str)
        ensures
            name@ == self@.session_name(),
    {
        match &self.tmux_session_name {
            Some(text) => text.as_str(),
            None => self.worktree_name.as_str(),
        }
    }
}

impl Clone for WorktreeConfig {
    /// A record with the same values.
    fn clone(&self) -> (copy: WorktreeConfig)
        ensures
            copy@ == self@,
    {
        WorktreeConfig {
            repo_path: self.repo_path.clone(),
            worktree_name: self.worktree_name.clone(),
            tmux_session_name: match &self.tmux_session_name {
                Some(text) => Some(text.clone()),
                None => None,
            },
        }
    }
}

/// The records as plain values, in their order.
pub open spec fn views(records: Seq<WorktreeConfig>) -> Seq<WorktreeView> {
    records.map_values(|wt: WorktreeConfig| wt@)
}

/// Whether some record has the path and the name of `wt`.
pub open spec fn holds_pair(records: Seq<WorktreeView>, wt: WorktreeView) -> bool {
    exists|i: int| 0 <= i < records.len() && (#[trigger] records[i]).same_pair(wt)
}

/// Whether no two records have both the same path and the same name.
pub open spec fn unique_pairs(records: Seq<WorktreeView>) -> bool {
    forall|i: int, j: int|
        0 <= i < j < records.len() ==> !(#[trigger] records[i]).same_pair(#[trigger] records[j])
}

/// The place of the first record that answers to `identifier`, if any does.
pub open spec fn position(records: Seq<WorktreeView>, identifier: Seq<char>) -> Option<int>
    decreases records.len(),
{
    if records.len() == 0 {
        None
    } else {
        match position(records.drop_last(), identifier) {
            Some(i) => Some(i),
            None => if records.last().answers_to(identifier) {
                Some(records.len() - 1)
            } else {
                None
            },
        }
    }
}

/// `position` gives the first place whose record answers to the identifier,
/// and nothing exactly when no record answers to it.
pub proof fn lemma_position_is_first_match(records: Seq<WorktreeView>, identifier: Seq<char>)
    ensures
        match position(records, identifier) {
            Some(i) => {
                &&& 0 <= i < records.len()
                &&& records[i].answers_to(identifier)
                &&& forall|j: int| 0 <= j < i ==> !(#[trigger] records[j]).answers_to(identifier)
            },
            None => forall|j: int|
                0 <= j < records.len() ==> !(#[trigger] records[j]).answers_to(identifier),
        },
    decreases records.len(),
{
    if records.len() > 0 {
        let front = records.drop_last();
        lemma_position_is_first_match(front, identifier);
        assert(forall|j: int| 0 <= j < front.len() ==> front[j] == records[j]);
    }
}

/// The key by which a workspace is listed: the UTF-8 bytes of its path in
/// lowercase.
pub open spec fn sort_key(wt: WorktreeView) -> Seq<u8> {
    encode_utf8(lowercase(wt.repo_path))
}

/// The keys of the records, in their order.
pub open spec fn sort_keys(records: Seq<WorktreeView>) -> Seq<Seq<u8>> {
    records.map_values(|wt: WorktreeView| sort_key(wt))
}

/// Whether `listed` holds the records of `records` ordered by key, records
/// of equal keys in the order in which they are stored, where `places[i]` is
/// the place in `records` of the record listed at `i`.
pub open spec fn lists_by(
    records: Seq<WorktreeView>,
    listed: Seq<WorktreeView>,
    places: Seq<int>,
) -> bool {
    &&& is_stable_order(sort_keys(records), places)
    &&& listed.len() == records.len()
    &&& forall|i: int| 0 <= i < listed.len() ==> #[trigger] listed[i] == records[places[i]]
}

/// Whether `listed` is the listing of `records`: every record once, ordered
/// by key, records of equal keys in the order in which they are stored.
pub open spec fn is_listing(records: Seq<WorktreeView>, listed: Seq<WorktreeView>) -> bool {
    exists|places: Seq<int>| lists_by(records, listed, places)
}

/// The listing of `records`.
pub open spec fn listing(records: Seq<WorktreeView>) -> Seq<WorktreeView> {
    choose|listed: Seq<WorktreeView>| is_listing(records, listed)
}

/// The registry: the tracked workspaces in the order in which they are
/// stored.
#[derive(Debug)]
pub struct Config {
    worktrees: Vec<WorktreeConfig>,
}

impl View for Config {
    type V = Seq<WorktreeView>;

    closed spec fn view(&self) -> Seq<WorktreeView> {
        views(self.worktrees@)
    }
}

impl Default for Config {
    /// The registry without records.
    fn default() -> (cfg: Config)
        ensures
            cfg@ == Seq::<WorktreeView>::empty(),
    {
        Config::new()
    }
}

impl Config {
    /// The registry without records.
    pub fn new() -> (cfg: Config)
        ensures
            cfg@ == Seq::<WorktreeView>::empty(),
    {
        let cfg = Config { worktrees: Vec::new() };
        assert(cfg@ =~= Seq::<WorktreeView>::empty());
        cfg
    }

    /// The registry that holds `records`, in their order.
    pub(crate) fn with_records(records: Vec<WorktreeConfig>) -> (cfg: Config)
        ensures
            cfg@ == views(records@),
    {
        Config { worktrees: records }
    }

    /// The records in storage order.
    pub fn worktrees(&self) -> (records: &Vec<WorktreeConfig>)
        ensures
            views(records@) == self@,
    {
        &self.worktrees
    }

    /// The first record whose path or name is `identifier`, with its place.
    pub fn find(&self, identifier: &str) -> (found: Option<(usize, &WorktreeConfig)>)
        ensures
            match found {
                Some((i, wt)) => {
                    &&& position(self@, identifier@) == Some(i as int)
                    &&& wt@ == self@[i as int]
                },
                None => position(self@, identifier@) is None,
            },
    {
        let mut i: usize = 0;
        while i < self.worktrees.len()
            invariant
                i <= self.worktrees.len(),
                position(self@.take(i as int), identifier@) is None,
            decreases self.worktrees.len() - i,
        {
            let wt = &self.worktrees[i];
            let hit = str_eq(identifier, wt.repo_path()) || str_eq(identifier, wt.worktree_name());
            proof {
                let front = self@.take(i + 1);
                assert(front.drop_last() =~= self@.take(i as int));
                assert(front.last() == wt@);
                if hit {
                    lemma_position_extends(front, self@, identifier@);
                }
            }
            if hit {
                return Some((i, wt));
            }
            i = i + 1;
        }
        assert(self@.take(i as int) =~= self@);
        None
    }

    /// The records ordered by their paths in lowercase, compared byte by
    /// byte; records whose paths differ in case only stay in storage order.
    pub fn list(&self) -> (listed: Vec<WorktreeConfig>)
        ensures
            is_listing(self@, views(listed@)),
            views(listed@) == listing(self@),
    {
        let mut keys: Vec<String> = Vec::new();
        let mut i: usize = 0;
        while i < self.worktrees.len()
            invariant
                i <= self.worktrees.len(),
                keys.len() == i,
                forall|k: int| 0 <= k < i ==> (#[trigger] keys[k])@ == lowercase(self@[k].repo_path),
            decreases self.worktrees.len() - i,
        {
            keys.push(to_lowercase(self.worktrees[i].repo_path()));
            i = i + 1;
        }
        assert(text_keys(keys@) =~= sort_keys(self@));
        let places = stable_order(&keys);
        let mut listed: Vec<WorktreeConfig> = Vec::new();
        let mut k: usize = 0;
        while k < places.len()
            invariant
                k <= places.len(),
                places.len() == self.worktrees.len(),
                is_stable_order(sort_keys(self@), as_places(places@)),
                listed.len() == k,
                forall|j: int| 0 <= j < k ==> (#[trigger] listed[j])@ == self@[places[j] as int],
            decreases places.len() - k,
        {
            assert(0 <= as_places(places@)[k as int] < self.worktrees.len());
            listed.push(self.worktrees[places[k]].clone());
            k = k + 1;
        }
        assert(lists_by(self@, views(listed@), as_places(places@)));
        assert(is_listing(self@, views(listed@)));
        proof {
            lemma_listing_unique(self@, views(listed@), listing(self@));
        }
        listed
    }

    /// Adds a record at the end, unless the registry already holds one with
    /// the same path and the same name.
    pub fn add_worktree(&mut self, wt: WorktreeConfig) -> (r: Result<(), RedwoodError>)
        ensures
            holds_pair(old(self)@, wt@) ==> {
                &&& r matches Err(e)
                &&& e@ == ErrorView::WorkTreeConfigAlreadyExists
                &&& final(self)@ == old(self)@
            },
            !holds_pair(old(self)@, wt@) ==> r is Ok && final(self)@ == old(self)@.push(wt@),
            unique_pairs(old(self)@) ==> unique_pairs(final(self)@),
    {
        let mut i: usize = 0;
        while i < self.worktrees.len()
            invariant
                i <= self.worktrees.len(),
                *self == *old(self),
                forall|k: int| 0 <= k < i ==> !(#[trigger] self@[k]).same_pair(wt@),
            decreases self.worktrees.len() - i,
        {
            let other = &self.worktrees[i];
            assert(other@ == self@[i as int]);
            if str_eq(other.repo_path(), wt.repo_path()) && str_eq(
                other.worktree_name(),
                wt.worktree_name(),
            ) {
                return Err(RedwoodError::WorkTreeConfigAlreadyExists);
            }
            i = i + 1;
        }
        self.worktrees.push(wt);
        assert(self@ =~= old(self)@.push(wt@));
        Ok(())
    }

    /// Removes the first record whose path or name is `worktree_name`.
    pub fn remove_worktree(&mut self, worktree_name: &str) -> (r: Result<(), RedwoodError>)
        ensures
            match position(old(self)@, worktree_name@) {
                Some(i) => r is Ok && final(self)@ == old(self)@.remove(i),
                None => {
                    &&& r matches Err(e)
                    &&& e@ == (ErrorView::WorkTreeConfigNotFound { worktree_name: worktree_name@ })
                    &&& final(self)@ == old(self)@
                },
            },
            unique_pairs(old(self)@) ==> unique_pairs(final(self)@),
    {
        let index = match self.find(worktree_name) {
            Some((index, _)) => index,
            None => {
                return Err(
                    RedwoodError::WorkTreeConfigNotFound { worktree_name: worktree_name.to_owned() },
                );
            },
        };
        proof {
            lemma_position_is_first_match(self@, worktree_name@);
        }
        self.worktrees.remove(index);
        assert(self@ =~= old(self)@.remove(index as int));
        Ok(())
    }
}

/// Two records added to the empty registry are both added, and each is
/// found by its path and by its name, provided that the second has neither
/// the path nor the name that the first answers to: a record that answers
/// to an identifier hides every later one that does.
pub proof fn lemma_two_added_are_found(first: WorktreeView, second: WorktreeView)
    requires
        !first.same_pair(second),
        !first.answers_to(second.repo_path),
        !first.answers_to(second.worktree_name),
    ensures
        !holds_pair(Seq::<WorktreeView>::empty(), first),
        !holds_pair(seq![first], second),
        unique_pairs(seq![first, second]),
        position(seq![first, second], first.repo_path) == Some(0int),
        position(seq![first, second], first.worktree_name) == Some(0int),
        position(seq![first, second], second.repo_path) == Some(1int),
        position(seq![first, second], second.worktree_name) == Some(1int),
{
    let both = seq![first, second];
    assert(both[0] == first && both[1] == second);
    lemma_position_is_first_match(both, first.repo_path);
    lemma_position_is_first_match(both, first.worktree_name);
    lemma_position_is_first_match(both, second.repo_path);
    lemma_position_is_first_match(both, second.worktree_name);
}

/// Whatever the records, `listing` is their listing.
pub proof fn lemma_listing_is_listing(records: Seq<WorktreeView>)
    ensures
        is_listing(records, listing(records)),
{
    let keys = sort_keys(records);
    lemma_stable_order_exists(keys);
    let places = choose|places: Seq<int>| is_stable_order(keys, places);
    let listed = Seq::new(records.len(), |i: int| records[places[i]]);
    assert(lists_by(records, listed, places));
    assert(is_listing(records, listed));
}

/// The records have one listing only: listing them again gives the same
/// sequence.
pub proof fn lemma_listing_unique(
    records: Seq<WorktreeView>,
    first: Seq<WorktreeView>,
    second: Seq<WorktreeView>,
)
    requires
        is_listing(records, first),
        is_listing(records, second),
    ensures
        first == second,
{
    let p = choose|places: Seq<int>| lists_by(records, first, places);
    let q = choose|places: Seq<int>| lists_by(records, second, places);
    lemma_stable_order_unique(sort_keys(records), p, q);
    assert(first =~= second);
}

/// In a listing the keys never decrease.
pub proof fn lemma_listing_sorted(records: Seq<WorktreeView>, listed: Seq<WorktreeView>)
    requires
        is_listing(records, listed),
    ensures
        forall|i: int, j: int|
            0 <= i <= j < listed.len() ==> lex_le(
                sort_key(#[trigger] listed[i]),
                sort_key(#[trigger] listed[j]),
            ),
{
    let places = choose|places: Seq<int>| lists_by(records, listed, places);
    assert forall|i: int, j: int| 0 <= i <= j < listed.len() implies lex_le(
        sort_key(#[trigger] listed[i]),
        sort_key(#[trigger] listed[j]),
    ) by {
        lemma_stable_order_sorted(sort_keys(records), places, i, j);
    }
}

/// Listed records of equal keys stand in the order in which they are stored.
pub proof fn lemma_listing_stable(
    records: Seq<WorktreeView>,
    listed: Seq<WorktreeView>,
    places: Seq<int>,
    i: int,
    j: int,
)
    requires
        lists_by(records, listed, places),
        0 <= i < j < listed.len(),
        sort_key(listed[i]) == sort_key(listed[j]),
    ensures
        places[i] < places[j],
{
    let keys = sort_keys(records);
    assert(comes_before(keys, places[i], places[j]));
}

/// A listing holds the records that are stored, each as often as it is
/// stored: nothing is lost and nothing is added.
pub proof fn lemma_listing_same_records(records: Seq<WorktreeView>, listed: Seq<WorktreeView>)
    requires
        is_listing(records, listed),
    ensures
        listed.to_multiset() == records.to_multiset(),
{
    let places = choose|places: Seq<int>| lists_by(records, listed, places);
    lemma_lists_same_records(records, listed, places);
}

proof fn lemma_lists_same_records(
    records: Seq<WorktreeView>,
    listed: Seq<WorktreeView>,
    places: Seq<int>,
)
    requires
        lists_by(records, listed, places),
    ensures
        listed.to_multiset() == records.to_multiset(),
    decreases records.len(),
{
    broadcast use vstd::seq_lib::group_to_multiset_ensures;

    if records.len() == 0 {
        assert(listed =~= records);
    } else {
        let keys = sort_keys(records);
        let last = records.len() - 1;
        lemma_stable_order_covers(keys, places, last);
        let i = choose|i: int| 0 <= i < places.len() && places[i] == last;
        let fewer = records.drop_last();
        let fewer_listed = listed.remove(i);
        let fewer_places = places.remove(i);
        assert forall|k: int| 0 <= k < fewer_places.len() implies 0 <= #[trigger] fewer_places[k]
            < last by {
            let from = if k < i {
                k
            } else {
                k + 1
            };
            assert(fewer_places[k] == places[from]);
            if k < i {
                assert(comes_before(keys, places[from], places[i]));
            } else {
                assert(comes_before(keys, places[i], places[from]));
            }
        }
        assert forall|a: int, b: int| 0 <= a < b < fewer_places.len() implies comes_before(
            sort_keys(fewer),
            #[trigger] fewer_places[a],
            #[trigger] fewer_places[b],
        ) by {
            let from_a = if a < i {
                a
            } else {
                a + 1
            };
            let from_b = if b < i {
                b
            } else {
                b + 1
            };
            assert(fewer_places[a] == places[from_a]);
            assert(fewer_places[b] == places[from_b]);
            assert(comes_before(keys, places[from_a], places[from_b]));
        }
        assert forall|k: int| 0 <= k < fewer_listed.len() implies #[trigger] fewer_listed[k]
            == fewer[fewer_places[k]] by {
            let from = if k < i {
                k
            } else {
                k + 1
            };
            assert(fewer_listed[k] == listed[from]);
            assert(fewer_places[k] == places[from]);
        }
        assert(lists_by(fewer, fewer_listed, fewer_places));
        lemma_lists_same_records(fewer, fewer_listed, fewer_places);
        assert(records =~= fewer.push(records[last]));
        assert(listed[i] == records[last]);
        assert(listed.contains(listed[i]));
        assert(listed.to_multiset() =~= fewer_listed.to_multiset().insert(listed[i]));
    }
}

/// A listing is its own listing: listing what was listed changes nothing.
pub proof fn lemma_listing_of_listing(records: Seq<WorktreeView>, listed: Seq<WorktreeView>)
    requires
        is_listing(records, listed),
    ensures
        is_listing(listed, listed),
{
    lemma_listing_sorted(records, listed);
    let keys = sort_keys(listed);
    let stay = Seq::new(listed.len(), |i: int| i);
    assert forall|i: int, j: int| 0 <= i < j < stay.len() implies comes_before(
        keys,
        #[trigger] stay[i],
        #[trigger] stay[j],
    ) by {
        assert(lex_le(sort_key(listed[i]), sort_key(listed[j])));
    }
    assert(lists_by(listed, listed, stay));
}

/// A first match within the front of the records is the first match within
/// all of them.
proof fn lemma_position_extends(
    front: Seq<WorktreeView>,
    records: Seq<WorktreeView>,
    identifier: Seq<char>,
)
    requires
        front.len() <= records.len(),
        front == records.take(front.len() as int),
        position(front, identifier) is Some,
    ensures
        position(records, identifier) == position(front, identifier),
    decreases records.len() - front.len(),
{
    if front.len() < records.len() {
        let longer = records.take(front.len() as int + 1);
        assert(longer.drop_last() =~= front);
        lemma_position_extends(longer, records, identifier);
    } else {
        assert(front =~= records);
    }
}

} // verus!
