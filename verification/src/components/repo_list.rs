//! The sidebar of repositories.

use vstd::prelude::*;
use crate::action::{Action, ActionView};
use crate::components::{Component, Selection, Tone, border_tone, border_tone_of, select_down, select_up};
use crate::input::{Key, KeyCode};
use crate::model::repo::Repo;

verus! {

pub struct RepoList {
    pub repos: Vec<Repo>,
    pub state: Selection,
    pub focused: bool,
}

/// The mathematical value of a [`RepoList`]: the full names of the
/// repositories, the selected row, and whether the panel has focus.
pub struct RepoListView {
    pub repos: Seq<Seq<char>>,
    pub selected: Option<usize>,
    pub focused: bool,
}

/// The full names of some repositories.
pub open spec fn repo_names(v: Seq<Repo>) -> Seq<Seq<char>> {
    v.map_values(|r: Repo| r.full_name@)
}

impl View for RepoList {
    type V = RepoListView;

    open spec fn view(&self) -> RepoListView {
        RepoListView { repos: repo_names(self.repos@), selected: self.state.selected, focused: self.focused }
    }
}

/// A well-formed repository list: no name twice, and a row selected exactly
/// when there are rows, a row that exists.
pub open spec fn repo_list_wf(v: RepoListView) -> bool {
    &&& forall|i: int, j: int| 0 <= i < j < v.repos.len() ==> v.repos[i] != v.repos[j]
    &&& (v.selected is None <==> v.repos.len() == 0)
    &&& (v.selected matches Some(i) ==> i < v.repos.len())
}

/// The list after adding a repository: appended when its name is new, and
/// selected when nothing was.
pub open spec fn list_add(v: RepoListView, name: Seq<char>) -> RepoListView {
    if v.repos.contains(name) {
        v
    } else {
        RepoListView {
            repos: v.repos.push(name),
            selected: if v.selected is None {
                Some(0)
            } else {
                v.selected
            },
            ..v
        }
    }
}

/// The list after removing the selected repository, and the name of the
/// removed one; the selection stays on the same row, or moves to the last
/// row when that was removed, or is cleared when the list is empty.
pub open spec fn list_remove(v: RepoListView) -> (RepoListView, Option<Seq<char>>) {
    match v.selected {
        Some(i) => if i < v.repos.len() {
            let repos = v.repos.remove(i as int);
            let selected = if repos.len() == 0 {
                None
            } else if i >= repos.len() {
                Some((repos.len() - 1) as usize)
            } else {
                Some(i)
            };
            (RepoListView { repos, selected, ..v }, Some(v.repos[i as int]))
        } else {
            (v, None)
        },
        None => (v, None),
    }
}

/// The name of the selected repository, if a row is selected.
pub open spec fn selected_name(v: RepoListView) -> Option<Seq<char>> {
    match v.selected {
        Some(i) => if i < v.repos.len() {
            Some(v.repos[i as int])
        } else {
            None
        },
        None => None,
    }
}

/// The action a key press stands for in the sidebar.
pub open spec fn repo_list_key(focused: bool, key: Key) -> ActionView {
    if !focused {
        ActionView::Noop
    } else {
        match key.code {
            KeyCode::Char('a') => ActionView::OpenAddRepo,
            KeyCode::Char('d') | KeyCode::Delete => ActionView::RemoveRepo,
            KeyCode::Char('j') | KeyCode::Down => ActionView::Down,
            KeyCode::Char('k') | KeyCode::Up => ActionView::Up,
            KeyCode::Enter | KeyCode::Char('l') | KeyCode::Right => ActionView::FocusMain,
            KeyCode::Char('q') => ActionView::Quit,
            KeyCode::Char('r') => ActionView::Refresh,
            _ => ActionView::Noop,
        }
    }
}

/// The sidebar's selection after an action, and the follow-up action: a
/// move up or down selects the repository it lands on.
pub open spec fn repo_list_move(v: RepoListView, up: bool) -> (RepoListView, Option<usize>) {
    let sel = if up {
        select_up(v.selected)
    } else {
        select_down(v.selected, v.repos.len())
    };
    if sel != v.selected {
        (RepoListView { selected: sel, ..v }, sel)
    } else {
        (v, None)
    }
}

impl RepoList {
    pub fn new() -> (r: Self)
        ensures
            r@ == (RepoListView { repos: Seq::empty(), selected: None, focused: true }),
    {
        let r = RepoList { repos: Vec::new(), state: Selection::new(), focused: true };
        assert(r@.repos =~= Seq::<Seq<char>>::empty());
        r
    }

    pub fn selected_repo(&self) -> (r: Option<&Repo>)
        ensures
            match r {
                Some(repo) => selected_name(self@) == Some(repo.full_name@),
                None => selected_name(self@) is None,
            },
    {
        match self.state.selected() {
            Some(i) => if i < self.repos.len() {
                Some(&self.repos[i])
            } else {
                None
            },
            None => None,
        }
    }

    pub fn add_repo(&mut self, repo: Repo)
        ensures
            final(self)@ == list_add(old(self)@, repo.full_name@),
    {
        let mut i: usize = 0;
        while i < self.repos.len()
            invariant
                i <= self.repos@.len(),
                forall|k: int| 0 <= k < i ==> self.repos@[k].full_name@ != repo.full_name@,
            decreases self.repos@.len() - i,
        {
            if self.repos[i].full_name == repo.full_name {
                assert(self@.repos[i as int] == repo.full_name@);
                return;
            }
            i = i + 1;
        }
        assert(!self@.repos.contains(repo.full_name@));
        let ghost prev = self.repos@;
        self.repos.push(repo);
        assert(repo_names(self.repos@) =~= repo_names(prev).push(repo.full_name@));
        if self.state.selected().is_none() {
            self.state.select(Some(0));
        }
    }

    pub fn remove_selected(&mut self) -> (r: Option<Repo>)
        ensures
            final(self)@ == list_remove(old(self)@).0,
            match r {
                Some(repo) => list_remove(old(self)@).1 == Some(repo.full_name@),
                None => list_remove(old(self)@).1 is None,
            },
    {
        if let Some(i) = self.state.selected() {
            if i < self.repos.len() {
                let ghost prev = self.repos@;
                let removed = self.repos.remove(i);
                assert(repo_names(self.repos@) =~= repo_names(prev).remove(i as int));
                if self.repos.len() == 0 {
                    self.state.select(None);
                } else if i >= self.repos.len() {
                    self.state.select(Some(self.repos.len() - 1));
                }
                return Some(removed);
            }
        }
        None
    }
}

impl RepoList {
    /// The border color of the sidebar.
    pub fn border_tone(&self) -> (r: Tone)
        ensures
            r == border_tone(self.focused),
    {
        border_tone_of(self.focused)
    }
}

impl Component for RepoList {
    fn handle_key_event(&mut self, key: Key) -> (r: Action)
        ensures
            *final(self) == *old(self),
            r@ == repo_list_key(old(self).focused, key),
    {
        if !self.focused {
            return Action::Noop;
        }
        match key.code {
            KeyCode::Char('a') => Action::OpenAddRepo,
            KeyCode::Char('d') | KeyCode::Delete => Action::RemoveRepo,
            KeyCode::Char('j') | KeyCode::Down => Action::Down,
            KeyCode::Char('k') | KeyCode::Up => Action::Up,
            KeyCode::Enter | KeyCode::Char('l') | KeyCode::Right => Action::FocusMain,
            KeyCode::Char('q') => Action::Quit,
            KeyCode::Char('r') => Action::Refresh,
            _ => Action::Noop,
        }
    }

    fn update(&mut self, action: &Action) -> (r: Option<Action>)
        ensures
            match *action {
                Action::Up => final(self)@ == repo_list_move(old(self)@, true).0 && r == match repo_list_move(old(self)@, true).1 {
                    Some(i) => Some(Action::SelectRepo(i)),
                    None => None::<Action>,
                },
                Action::Down => final(self)@ == repo_list_move(old(self)@, false).0 && r == match repo_list_move(old(self)@, false).1 {
                    Some(i) => Some(Action::SelectRepo(i)),
                    None => None::<Action>,
                },
                _ => *final(self) == *old(self) && r is None,
            },
            final(self).repos == old(self).repos,
    {
        match action {
            Action::Up => {
                if let Some(selected) = self.state.selected() {
                    if selected > 0 {
                        self.state.select(Some(selected - 1));
                        return Some(Action::SelectRepo(selected - 1));
                    }
                }
            },
            Action::Down => {
                if let Some(selected) = self.state.selected() {
                    if self.repos.len() > 0 && selected < self.repos.len() - 1 {
                        self.state.select(Some(selected + 1));
                        return Some(Action::SelectRepo(selected + 1));
                    }
                } else if !self.repos.is_empty() {
                    self.state.select(Some(0));
                    return Some(Action::SelectRepo(0));
                }
            },
            _ => {},
        }
        None
    }
}

} // verus!
