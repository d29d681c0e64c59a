//! The Phantom instance of the injected SDK: plugin instances registered by
//! name, a later plugin replacing an earlier one of the same name.
use vstd::prelude::*;
use crate::text::str_eq;

verus! {

/// The instance registered last under `name` among `entries`, if any.
pub open spec fn last_named<T>(entries: Seq<(Seq<char>, T)>, name: Seq<char>) -> Option<T>
    decreases entries.len(),
{
    if entries.len() == 0 {
        None
    } else if entries.last().0 == name {
        Some(entries.last().1)
    } else {
        last_named(entries.drop_last(), name)
    }
}

/// Named plugin instances seen through the names' views.
pub open spec fn named_view<T>(v: Seq<(String, T)>) -> Seq<(Seq<char>, T)> {
    Seq::new(v.len(), |i: int| (v[i].0@, v[i].1))
}

/// A Phantom instance: its plugins by name.
pub struct Phantom<T> {
    plugins: Vec<(String, T)>,
}

impl<T> Phantom<T> {
    /// The plugin registered under `name`, if any.
    pub closed spec fn plugin(&self, name: Seq<char>) -> Option<T> {
        last_named(named_view(self.plugins@), name)
    }

    /// The plugin registered under `name`.
    pub fn get(&self, name: &str) -> (r: Option<&T>)
        ensures
            match self.plugin(name@) {
                Some(p) => r == Some(&p),
                None => r is None,
            },
    {
        let ghost all = named_view(self.plugins@);
        let mut i: usize = self.plugins.len();
        proof {
            assert(all.take(i as int) =~= all);
        }
        while i > 0
            invariant
                i <= self.plugins@.len(),
                all == named_view(self.plugins@),
                last_named(all, name@) == last_named(all.take(i as int), name@),
            decreases i,
        {
            proof {
                assert(all.take(i as int).drop_last() =~= all.take(i - 1));
            }
            if str_eq(self.plugins[i - 1].0.as_str(), name) {
                return Some(&self.plugins[i - 1].1);
            }
            i = i - 1;
        }
        proof {
            assert(all.take(0) =~= Seq::<(Seq<char>, T)>::empty());
        }
        None
    }

    /// Whether a plugin is registered under `name`.
    pub fn has(&self, name: &str) -> (r: bool)
        ensures
            r == self.plugin(name@) is Some,
    {
        self.get(name).is_some()
    }
}

/// Create a Phantom instance from plugin instances and their names; of
/// several plugins with one name, the last one counts.
pub fn create_phantom<T>(plugins: Vec<(String, T)>) -> (r: Phantom<T>)
    ensures
        forall|name: Seq<char>| #[trigger] r.plugin(name) == last_named(named_view(plugins@), name),
{
    Phantom { plugins }
}

/// The plugin created last under a name is the one that name gives,
/// whatever was created before it.
pub proof fn law_last_plugin_wins<T>(before: Seq<(Seq<char>, T)>, name: Seq<char>, plugin: T)
    ensures
        last_named(before.push((name, plugin)), name) == Some(plugin),
{
    assert(before.push((name, plugin)).drop_last() =~= before);
}

} // verus!
