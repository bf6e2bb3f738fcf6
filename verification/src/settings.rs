//! Application settings and favorites.

use vstd::prelude::*;
use crate::text::{owned, views};
use crate::remove_all;

verus! {

/// The user's preferences.
pub struct AppSettings {
    pub start_with_windows: bool,
    pub minimize_to_tray: bool,
    /// "dark" or "light".
    pub theme: String,
    pub accent: String,
    pub notifications: bool,
    pub restore_point_risky: bool,
    pub confirm_bulk: bool,
    pub reduced_motion: bool,
    pub favorites: Vec<String>,
}

impl Default for AppSettings {
    fn default() -> (s: AppSettings)
        ensures
            !s.start_with_windows,
            s.minimize_to_tray,
            s.theme@ == "dark"@,
            s.accent@ == "teal"@,
            s.notifications,
            s.restore_point_risky,
            s.confirm_bulk,
            !s.reduced_motion,
            s.favorites@.len() == 0,
    {
        AppSettings {
            start_with_windows: false,
            minimize_to_tray: true,
            theme: owned("dark"),
            accent: owned("teal"),
            notifications: true,
            restore_point_risky: true,
            confirm_bulk: true,
            reduced_motion: false,
            favorites: Vec::new(),
        }
    }
}

impl AppSettings {
    /// Marks `id` as a favorite, or unmarks it when it already is one.
    pub fn toggle_favorite(&mut self, id: &str)
        ensures
            views(old(self).favorites@).contains(id@) ==> views(final(self).favorites@) == remove_all(
                views(old(self).favorites@),
                id@,
            ),
            !views(old(self).favorites@).contains(id@) ==> views(final(self).favorites@) == views(
                old(self).favorites@,
            ).push(id@),
            final(self).theme == old(self).theme,
            final(self).restore_point_risky == old(self).restore_point_risky,
    {
        let mut present = false;
        let mut i: usize = 0;
        while i < self.favorites.len()
            invariant
                i <= self.favorites@.len(),
                present <==> exists|k: int| 0 <= k < i && (#[trigger] self.favorites@[k])@ == id@,
            decreases self.favorites.len() - i,
        {
            if crate::text::str_eq(self.favorites[i].as_str(), id) {
                present = true;
            }
            i = i + 1;
        }
        proof {
            if present {
                let k = choose|k: int| 0 <= k < self.favorites@.len() && (#[trigger] self.favorites@[k])@ == id@;
                assert(views(self.favorites@)[k] == id@);
            } else {
                assert forall|k: int| 0 <= k < views(self.favorites@).len() implies views(self.favorites@)[k]
                    != id@ by {
                    assert(self.favorites@[k]@ != id@);
                }
            }
        }
        if present {
            let ghost all = views(self.favorites@);
            let mut kept: Vec<String> = Vec::new();
            let mut old_list: Vec<String> = Vec::new();
            std::mem::swap(&mut old_list, &mut self.favorites);
            let mut j: usize = 0;
            assert(all.subrange(0, 0) =~= Seq::<Seq<char>>::empty());
            while j < old_list.len()
                invariant
                    views(old_list@) == all,
                    j <= old_list@.len(),
                    views(kept@) == remove_all(all.subrange(0, j as int), id@),
                decreases old_list.len() - j,
            {
                assert(all.subrange(0, j + 1).drop_last() =~= all.subrange(0, j as int));
                assert(all.subrange(0, j + 1).last() == old_list@[j as int]@);
                if !crate::text::str_eq(old_list[j].as_str(), id) {
                    let ghost before = views(kept@);
                    let c = crate::text::copy_string(&old_list[j]);
                    kept.push(c);
                    assert(views(kept@) =~= before.push(old_list@[j as int]@));
                }
                j = j + 1;
            }
            assert(all.subrange(0, old_list@.len() as int) =~= all);
            self.favorites = kept;
        } else {
            let ghost before = views(self.favorites@);
            self.favorites.push(owned(id));
            assert(views(self.favorites@) =~= before.push(id@));
        }
    }
}

/// Toggling a favorite twice leaves the favorites as they were (for an id
/// that was not a favorite; one that was is removed with every duplicate).
pub proof fn law_favorite_toggle_round_trip(favorites: Seq<Seq<char>>, id: Seq<char>)
    requires
        !favorites.contains(id),
    ensures
        favorites.push(id).contains(id),
        remove_all(favorites.push(id), id) == favorites,
{
    crate::law_lock_round_trip(favorites, id);
}

/// Where the settings are stored; reading and writing is done by the host.
pub struct SettingsStore {
    pub path: String,
}

impl SettingsStore {
    /// A store over the file `path`.
    pub fn new(path: String) -> (s: SettingsStore)
        ensures
            s.path@ == path@,
    {
        SettingsStore { path }
    }
}

} // verus!
