//! The list of playlists on the playlists page, and the names given to new
//! playlists.
use vstd::prelude::*;
use vstd::set_lib::{lemma_int_range, lemma_len_subset, lemma_map_size, set_int_range};
use vstd::relations::injective_on;
use crate::music::Playlist;
use crate::number::{decimal, lemma_decimal_digits, lemma_decimal_injective, push_decimal};
use crate::text::push_str;

verus! {

/// The name of the `n`-th new playlist: `My Playlist` for the first, then
/// `My Playlist 2`, `My Playlist 3` and so on.
pub open spec fn numbered_name(n: nat) -> Seq<char> {
    if n <= 1 {
        "My Playlist"@
    } else {
        "My Playlist "@ + decimal(n)
    }
}

/// Whether some name of `names` is `name`.
pub open spec fn name_taken(names: Seq<Seq<char>>, name: Seq<char>) -> bool {
    exists|i: int| 0 <= i < names.len() && names[i] == name
}

/// Different numbers from one up give different names.
pub proof fn lemma_numbered_name_injective(a: nat, b: nat)
    requires
        a >= 1,
        b >= 1,
        numbered_name(a) == numbered_name(b),
    ensures
        a == b,
{
    reveal_strlit("My Playlist");
    reveal_strlit("My Playlist ");
    assert("My Playlist"@.len() == 11);
    assert("My Playlist "@.len() == 12);
    let p = "My Playlist "@;
    if a >= 2 {
        lemma_decimal_digits(a);
    }
    if b >= 2 {
        lemma_decimal_digits(b);
    }
    if a >= 2 && b >= 2 {
        assert(numbered_name(a).subrange(p.len() as int, numbered_name(a).len() as int) =~= decimal(a));
        assert(numbered_name(b).subrange(p.len() as int, numbered_name(b).len() as int) =~= decimal(b));
        lemma_decimal_injective(a, b);
    } else if a >= 2 {
        assert(numbered_name(a).len() > numbered_name(b).len());
    } else if b >= 2 {
        assert(numbered_name(b).len() > numbered_name(a).len());
    }
}

/// When the names of the numbers `1` to `k - 1` are all taken, there are at
/// least `k - 1` names.
pub proof fn lemma_taken_bound(names: Seq<Seq<char>>, k: nat)
    requires
        k >= 1,
        forall|m: nat| 1 <= m < k ==> name_taken(names, #[trigger] numbered_name(m)),
    ensures
        k - 1 <= names.len(),
{
    let f = |m: int| choose|i: int| 0 <= i < names.len() && names[i] == numbered_name(m as nat);
    let x = set_int_range(1, k as int);
    let y = set_int_range(0, names.len() as int);
    lemma_int_range(1, k as int);
    lemma_int_range(0, names.len() as int);
    assert forall|m: int| x.contains(m) implies 0 <= #[trigger] f(m) < names.len() && names[f(m)] == numbered_name(m as nat) by {
        assert(name_taken(names, numbered_name(m as nat)));
    }
    assert(injective_on(f, x)) by {
        assert forall|a: int, b: int| x.contains(a) && x.contains(b) && #[trigger] f(a) == #[trigger] f(b) implies a == b by {
            lemma_numbered_name_injective(a as nat, b as nat);
        }
    }
    lemma_map_size(x, x.map(f), f);
    assert(x.map(f).subset_of(y)) by {
        assert forall|i: int| x.map(f).contains(i) implies y.contains(i) by {
            let m = choose|m: int| x.contains(m) && f(m) == i;
        }
    }
    lemma_len_subset(x.map(f), y);
}

/// The texts of a list of playlists.
pub open spec fn playlist_names(p: Seq<(Playlist, bool)>) -> Seq<Seq<char>> {
    p.map_values(|e: (Playlist, bool)| e.0.name@)
}

/// The name for a new playlist: `My Playlist` when no playlist has that
/// name, otherwise `My Playlist n` for the least `n` from two up whose name
/// no playlist has.
pub fn new_playlist_name(names: &Vec<String>) -> (r: String)
    requires
        names.len() < usize::MAX,
    ensures
        exists|n: nat|
            n >= 1 && r@ == numbered_name(n) && !name_taken(names@.map_values(|s: String| s@), r@)
                && forall|m: nat| 1 <= m < n ==> name_taken(names@.map_values(|s: String| s@), #[trigger] numbered_name(m)),
{
    let ghost v = names@.map_values(|s: String| s@);
    let mut n: usize = 1;
    loop
        invariant
            1 <= n <= names.len() + 1,
            names.len() < usize::MAX,
            v == names@.map_values(|s: String| s@),
            forall|m: nat| 1 <= m < n ==> name_taken(v, #[trigger] numbered_name(m)),
        decreases names.len() + 1 - n,
    {
        let mut name = String::new();
        if n == 1 {
            push_str(&mut name, "My Playlist");
        } else {
            push_str(&mut name, "My Playlist ");
            push_decimal(&mut name, n as u64);
        }
        assert(name@ =~= numbered_name(n as nat));
        let mut taken = false;
        let mut i: usize = 0;
        while i < names.len()
            invariant
                i <= names.len(),
                v == names@.map_values(|s: String| s@),
                taken == (exists|j: int| 0 <= j < i && v[j] == name@),
            decreases names.len() - i,
        {
            if names[i] == name {
                taken = true;
            }
            assert(v[i as int] == names@[i as int]@);
            i = i + 1;
        }
        if !taken {
            return name;
        }
        proof {
            assert(name_taken(v, numbered_name(n as nat)));
            assert forall|m: nat| 1 <= m < n + 1 implies name_taken(v, #[trigger] numbered_name(m)) by {
                if m < n {
                } else {
                    assert(m == n);
                }
            }
            lemma_taken_bound(v, (n + 1) as nat);
        }
        n = n + 1;
    }
}

/// The playlists page: the playlists with whether each is hovered, and the
/// index of the one whose name is being edited.
pub struct PlaylistsPage {
    pub playlists: Vec<(Playlist, bool)>,
    pub editing: Option<usize>,
}

impl PlaylistsPage {
    /// A page with no playlists, editing none.
    pub fn new() -> (r: PlaylistsPage)
        ensures
            r.playlists@.len() == 0,
            r.editing is None,
    {
        PlaylistsPage { playlists: Vec::new(), editing: None }
    }

    /// The playlist to create: id zero, named after the least free number.
    pub fn create_playlist(&self) -> (r: Playlist)
        requires
            self.playlists@.len() < usize::MAX,
        ensures
            r.id == 0,
            exists|n: nat|
                n >= 1 && r.name@ == numbered_name(n) && !name_taken(playlist_names(self.playlists@), r.name@)
                    && forall|m: nat| 1 <= m < n ==> name_taken(playlist_names(self.playlists@), #[trigger] numbered_name(m)),
    {
        let mut names: Vec<String> = Vec::new();
        let mut i: usize = 0;
        while i < self.playlists.len()
            invariant
                i <= self.playlists.len(),
                names@.map_values(|s: String| s@) == playlist_names(self.playlists@).take(i as int),
            decreases self.playlists.len() - i,
        {
            let ghost before = names@;
            names.push(self.playlists[i].0.name.clone());
            assert(names@.map_values(|s: String| s@) =~= before.map_values(|s: String| s@).push(self.playlists@[i as int].0.name@));
            assert(names@.map_values(|s: String| s@) =~= playlist_names(self.playlists@).take(i + 1));
            i = i + 1;
        }
        assert(playlist_names(self.playlists@).take(self.playlists.len() as int) =~= playlist_names(self.playlists@));
        let name = new_playlist_name(&names);
        Playlist { id: 0, name }
    }

    /// Adds a playlist that was created or loaded, not hovered.
    pub fn add_playlist(&mut self, playlist: Playlist)
        ensures
            final(self).playlists@ == old(self).playlists@.push((playlist, false)),
            final(self).editing == old(self).editing,
    {
        self.playlists.push((playlist, false));
    }

    /// Types into the name of the playlist being edited, if it exists.
    pub fn text_input(&mut self, text: String)
        ensures
            final(self).editing == old(self).editing,
            final(self).playlists@ == match old(self).editing {
                Some(i) => if i < old(self).playlists@.len() {
                    old(self).playlists@.update(
                        i as int,
                        (Playlist { id: old(self).playlists@[i as int].0.id, name: text }, old(self).playlists@[i as int].1),
                    )
                } else {
                    old(self).playlists@
                },
                None => old(self).playlists@,
            },
    {
        match self.editing {
            Some(i) => {
                if i < self.playlists.len() {
                    let (p, hovered) = self.playlists.remove(i);
                    let entry = (Playlist { id: p.id, name: text }, hovered);
                    self.playlists.insert(i, entry);
                    assert(self.playlists@ =~= old(self).playlists@.update(i as int, entry));
                }
            },
            None => {},
        }
    }

    /// Starts editing the name of the playlist at `idx`.
    pub fn start_editing(&mut self, idx: usize)
        ensures
            final(self).editing == Some(idx),
            final(self).playlists@ == old(self).playlists@,
    {
        self.editing = Some(idx);
    }

    /// Stops editing; returns the playlist to rename in the database.
    pub fn stop_editing(&mut self) -> (r: Option<Playlist>)
        requires
            old(self).editing matches Some(i) ==> i < old(self).playlists@.len(),
        ensures
            final(self).editing is None,
            final(self).playlists@ == old(self).playlists@,
            r == match old(self).editing {
                Some(i) => Some(old(self).playlists@[i as int].0),
                None => None,
            },
    {
        match self.editing.take() {
            Some(i) => Some(self.playlists[i].0.clone()),
            None => None,
        }
    }

    /// Removes the first playlist with database id `id`, if any.
    pub fn delete_playlist(&mut self, id: usize)
        ensures
            final(self).editing == old(self).editing,
            match first_with_id(old(self).playlists@, id) {
                Some(i) => final(self).playlists@ == old(self).playlists@.remove(i),
                None => final(self).playlists@ == old(self).playlists@,
            },
    {
        let mut i: usize = 0;
        while i < self.playlists.len()
            invariant
                i <= self.playlists.len(),
                self.playlists@ == old(self).playlists@,
                self.editing == old(self).editing,
                forall|j: int| 0 <= j < i ==> (#[trigger] self.playlists@[j]).0.id != id,
            decreases self.playlists.len() - i,
        {
            if self.playlists[i].0.id == id {
                proof { lemma_first_with_id(self.playlists@, id, i as int); }
                self.playlists.remove(i);
                return;
            }
            i = i + 1;
        }
        proof { lemma_first_with_id(self.playlists@, id, self.playlists@.len() as int); }
    }

    /// Marks whether the playlist at `idx` is hovered; an index outside the
    /// list changes nothing.
    pub fn hover(&mut self, idx: usize, hovered: bool)
        ensures
            final(self).editing == old(self).editing,
            final(self).playlists@ == if idx < old(self).playlists@.len() {
                old(self).playlists@.update(idx as int, (old(self).playlists@[idx as int].0, hovered))
            } else {
                old(self).playlists@
            },
    {
        if idx < self.playlists.len() {
            let (p, _) = self.playlists.remove(idx);
            self.playlists.insert(idx, (p, hovered));
            assert(self.playlists@ =~= old(self).playlists@.update(idx as int, (old(self).playlists@[idx as int].0, hovered)));
        }
    }
}

/// The index of the first playlist with database id `id`.
pub open spec fn first_with_id(p: Seq<(Playlist, bool)>, id: usize) -> Option<int>
    decreases p.len(),
{
    if p.len() == 0 {
        None
    } else if p[0].0.id == id {
        Some(0)
    } else {
        match first_with_id(p.drop_first(), id) {
            Some(i) => Some(i + 1),
            None => None,
        }
    }
}

/// `first_with_id` finds index `i` when no earlier playlist has the id and
/// the one at `i` has it; it finds nothing when no playlist has it.
pub proof fn lemma_first_with_id(p: Seq<(Playlist, bool)>, id: usize, i: int)
    requires
        0 <= i <= p.len(),
        forall|j: int| 0 <= j < i ==> (#[trigger] p[j]).0.id != id,
    ensures
        i < p.len() && p[i].0.id == id ==> first_with_id(p, id) == Some(i),
        i == p.len() ==> first_with_id(p, id) is None,
    decreases p.len(),
{
    if p.len() > 0 && i > 0 {
        let t = p.drop_first();
        assert forall|j: int| 0 <= j < i - 1 implies (#[trigger] t[j]).0.id != id by {
            assert(t[j] == p[j + 1]);
        }
        lemma_first_with_id(t, id, i - 1);
        assert(p[0].0.id != id);
    }
}

/// A new playlist's name is not the name of any playlist on the page.
pub proof fn law_new_name_is_fresh(names: Seq<Seq<char>>, n: nat)
    requires
        n >= 1,
        !name_taken(names, numbered_name(n)),
    ensures
        forall|i: int| 0 <= i < names.len() ==> names[i] != numbered_name(n),
{
}

} // verus!
